//! Capturing the selected text: the result of a capture, the decisions around
//! a simulated copy, and the payloads and messages shown for it.

use crate::bubble::{loading_view, BubblePayload, BubbleView};
use crate::clipboard_util::{copy_failed_stale_spec, msg_copy_failed_stale};
use crate::selection::TargetHwnd;
use crate::settings::TranslateSettings;
use crate::text::{
    cat, contains, decimal, has_infix, has_prefix, is_blank, opt_view, starts_with, take_chars,
    trim, trim_spec, u64_text,
};
use crate::translation::TranslateResult;
use vstd::prelude::*;
use vstd::string::StrSliceExecFns;
use vstd::string::StringExecFns;

verus! {

broadcast use vstd::string::group_string_axioms;

/// The request shown when no text was selected.
pub open spec fn no_selection_spec() -> Seq<char> {
    "请先选中要翻译的文字"@
}

/// The request shown when no text was selected.
pub fn msg_no_selection() -> (r: String)
    ensures
        r@ == no_selection_spec(),
{
    "请先选中要翻译的文字".to_string()
}

/// The outcome of capturing the selection.
#[derive(Debug, Clone)]
pub struct SelectionResult {
    pub ok: bool,
    pub text: Option<String>,
    pub error: Option<String>,
    pub restored_clipboard: bool,
    pub duration_ms: u64,
    /// The clipboard sequence number changed during the capture, so a copy
    /// really happened even when its text equals the earlier clipboard.
    pub clipboard_sequence_changed: bool,
}

/// A capture outcome with each text taken by its characters.
pub struct SelectionView {
    pub ok: bool,
    pub text: Option<Seq<char>>,
    pub error: Option<Seq<char>>,
    pub restored_clipboard: bool,
    pub duration_ms: u64,
    pub clipboard_sequence_changed: bool,
}

impl View for SelectionResult {
    type V = SelectionView;

    open spec fn view(&self) -> SelectionView {
        SelectionView {
            ok: self.ok,
            text: opt_view(self.text),
            error: opt_view(self.error),
            restored_clipboard: self.restored_clipboard,
            duration_ms: self.duration_ms,
            clipboard_sequence_changed: self.clipboard_sequence_changed,
        }
    }
}

/// A failed capture with error `error`.
pub open spec fn failed_view(error: Seq<char>, restored: bool, duration_ms: u64) -> SelectionView {
    SelectionView {
        ok: false,
        text: None,
        error: Some(error),
        restored_clipboard: restored,
        duration_ms: duration_ms,
        clipboard_sequence_changed: false,
    }
}

/// A failed capture.
pub fn selection_failed(error: String, restored_clipboard: bool, duration_ms: u64) -> (r: SelectionResult)
    ensures
        r@ == failed_view(error@, restored_clipboard, duration_ms),
{
    SelectionResult {
        ok: false,
        text: None,
        error: Some(error),
        restored_clipboard,
        duration_ms,
        clipboard_sequence_changed: false,
    }
}

/// The outcome and the translation sent when a capture and translation end.
#[derive(Debug, Clone)]
pub struct TranslateDonePayload {
    pub selection: SelectionResult,
    pub translate: TranslateResult,
}

/// What a hotkey asks for.
#[derive(Debug, Clone, Copy, PartialEq, Eq, Structural)]
pub enum TranslateAction {
    /// Show the translation in the bubble.
    Bubble,
    /// Replace the selection with the translation (no bubble).
    Replace,
}

/// How the selection is captured.
#[derive(Debug)]
pub enum CaptureRoute {
    /// Not at all: there is no target window; the result says so.
    Rejected(SelectionResult),
    /// Through the Python helper.
    Python,
    /// Through a simulated copy and the clipboard.
    Clipboard,
}

/// The error when no target window was found.
pub open spec fn no_target_spec() -> Seq<char> {
    "未找到目标窗口，请先聚焦到要翻译的应用"@
}

/// How to capture from `target`: refused without a window; otherwise through
/// the Python helper when `use_python` (always so on Windows), else through
/// the clipboard.
pub fn capture_route(target: TargetHwnd, use_python: bool) -> (r: CaptureRoute)
    ensures
        target.0 == 0 ==> (r matches CaptureRoute::Rejected(s) && s@ == failed_view(no_target_spec(), false, 0)),
        target.0 != 0 && use_python ==> r is Python,
        target.0 != 0 && !use_python ==> r is Clipboard,
{
    if !target.is_valid() {
        return CaptureRoute::Rejected(
            selection_failed("未找到目标窗口，请先聚焦到要翻译的应用".to_string(), false, 0),
        );
    }
    if use_python {
        CaptureRoute::Python
    } else {
        CaptureRoute::Clipboard
    }
}

/// A copy error in normal form: messages that already say the copy failed
/// stay, the message about nothing read after the copy becomes the stale-copy
/// error, anything else is prefixed with the copy-failed label.
pub open spec fn normalized_copy_error(msg: Seq<char>) -> Seq<char> {
    if has_prefix(msg, "复制失败"@) {
        msg
    } else if has_infix(msg, "复制后未能从剪贴板"@) {
        copy_failed_stale_spec()
    } else {
        "复制失败："@ + msg
    }
}

/// Normal form of a copy error.
pub fn normalize_copy_error(msg: &str) -> (r: String)
    ensures
        r@ == normalized_copy_error(msg@),
{
    if starts_with(msg, "复制失败") {
        return msg.to_string();
    }
    if contains(msg, "复制后未能从剪贴板") {
        return msg_copy_failed_stale();
    }
    cat("复制失败：", msg)
}

/// The result when the simulated copy could not be sent.
pub fn copy_not_sent(error: &str, duration_ms: u64) -> (r: SelectionResult)
    ensures
        r@ == failed_view("复制失败："@ + error@, false, duration_ms),
{
    selection_failed(cat("复制失败：", error), false, duration_ms)
}

/// The outcome of a clipboard capture from what was read after the copy: the
/// read error in normal form, the request to select text when the trimmed
/// text is empty, or the trimmed text. `restored` tells whether the earlier
/// clipboard was put back.
pub open spec fn clipboard_capture_spec(read: Result<Seq<char>, Seq<char>>, restored: bool, duration_ms: u64) -> SelectionView {
    match read {
        Err(e) => failed_view(normalized_copy_error(e), restored, duration_ms),
        Ok(t) => if trim_spec(t).len() == 0 {
            failed_view(no_selection_spec(), restored, duration_ms)
        } else {
            SelectionView {
                ok: true,
                text: Some(trim_spec(t)),
                error: None,
                restored_clipboard: restored,
                duration_ms: duration_ms,
                clipboard_sequence_changed: false,
            }
        },
    }
}

/// The view of a read result.
pub open spec fn read_view(r: Result<String, String>) -> Result<Seq<char>, Seq<char>> {
    match r {
        Ok(t) => Ok(t@),
        Err(e) => Err(e@),
    }
}

/// Finishes a clipboard capture.
pub fn finish_clipboard_capture(read: Result<String, String>, restored: bool, duration_ms: u64) -> (r: SelectionResult)
    ensures
        r@ == clipboard_capture_spec(read_view(read), restored, duration_ms),
{
    match read {
        Err(e) => selection_failed(normalize_copy_error(e.as_str()), restored, duration_ms),
        Ok(t) => {
            let trimmed = trim(t.as_str());
            if trimmed.unicode_len() == 0 {
                selection_failed(msg_no_selection(), restored, duration_ms)
            } else {
                SelectionResult {
                    ok: true,
                    text: Some(trimmed.to_string()),
                    error: None,
                    restored_clipboard: restored,
                    duration_ms,
                    clipboard_sequence_changed: false,
                }
            }
        },
    }
}

/// Whether a clipboard capture puts the earlier clipboard back once it has
/// read the copied text: as the settings say (a replacement job hands it
/// settings with this turned off).
pub fn restores_after_capture(settings: &TranslateSettings) -> (r: bool)
    ensures
        r == settings.restore_clipboard,
{
    settings.restore_clipboard
}

/// Log block when the simulated copy could not be sent.
pub fn copy_not_sent_log(timestamp: &str, error: &str) -> (r: String)
    ensures
        r@ == "\n=== [capture-copy] "@ + timestamp@ + " simulate_copy failed ===\n"@ + error@ + "\n"@,
{
    let mut s = cat("\n=== [capture-copy] ", timestamp);
    s.append(" simulate_copy failed ===\n");
    s.append(error);
    s.append("\n");
    s
}

/// Log block when no copied text arrived.
pub fn copy_failure_log(timestamp: &str, elapsed_ms: u64, reason: &str) -> (r: String)
    ensures
        r@ == "\n=== [capture-copy] "@ + timestamp@ + " failed after "@ + decimal(elapsed_ms as nat)
            + "ms ===\n"@ + reason@ + "\n"@,
{
    let mut s = cat("\n=== [capture-copy] ", timestamp);
    s.append(" failed after ");
    s.append(u64_text(elapsed_ms).as_str());
    s.append("ms ===\n");
    s.append(reason);
    s.append("\n");
    s
}

/// The loading bubble with `hint`, naming the primary engine.
pub fn loading_bubble_payload(settings: &TranslateSettings, hint: &str) -> (r: BubblePayload)
    ensures
        r@ == loading_view(hint@, Some(settings.primary_provider@)),
{
    loading_with_provider(hint, settings.primary_provider.as_str())
}

/// The loading bubble with `hint`, naming `provider`.
pub fn loading_with_provider(hint: &str, provider: &str) -> (r: BubblePayload)
    ensures
        r@ == loading_view(hint@, Some(provider@)),
{
    BubblePayload {
        phase: "loading".to_string(),
        source_text: Some(hint.to_string()),
        translated_text: None,
        provider: Some(provider.to_string()),
        from_cache: false,
        error: None,
        theme: String::new(),
        opacity: 0,
    }
}

/// The bubble of a successful translation: the captured source, or the text
/// the translation was made from when the capture is blank.
pub open spec fn success_view(source: Seq<char>, t: crate::translation::TranslateView) -> BubbleView {
    BubbleView {
        phase: "success"@,
        source_text: Some(if is_blank(source) { t.source_text } else { source }),
        translated_text: t.translated_text,
        provider: t.provider,
        from_cache: t.from_cache,
        error: None,
        theme: Seq::empty(),
        opacity: 0,
    }
}

/// The bubble of a successful translation.
pub fn bubble_success_payload(source: &str, translate: &TranslateResult) -> (r: BubblePayload)
    ensures
        r@ == success_view(source@, translate@),
{
    let display_source = if trim(source).unicode_len() == 0 {
        translate.source_text.clone()
    } else {
        source.to_string()
    };
    BubblePayload {
        phase: "success".to_string(),
        source_text: Some(display_source),
        translated_text: crate::text::copy_opt_string(&translate.translated_text),
        provider: crate::text::copy_opt_string(&translate.provider),
        from_cache: translate.from_cache,
        error: None,
        theme: String::new(),
        opacity: 0,
    }
}

/// Whether a message says that nothing was selected (and not that the copy
/// failed).
pub open spec fn no_selection_message(msg: Seq<char>) -> bool {
    let m = trim_spec(msg);
    (has_infix(m, "请先选中"@) || has_infix(m, "无文本"@) || has_infix(m, "未选中"@) || has_infix(
        m,
        "剪贴板无"@,
    ) || has_infix(m, "empty-clipboard"@)) && !has_infix(m, "复制失败"@)
}

/// Whether a message says that nothing was selected.
pub fn is_no_selection_message(msg: &str) -> (r: bool)
    ensures
        r == no_selection_message(msg@),
{
    let m = trim(msg);
    (contains(m, "请先选中") || contains(m, "无文本") || contains(m, "未选中") || contains(
        m,
        "剪贴板无",
    ) || contains(m, "empty-clipboard")) && !contains(m, "复制失败")
}

/// Whether a message says that the copy failed.
pub fn is_copy_failure_message(msg: &str) -> (r: bool)
    ensures
        r == has_infix(trim_spec(msg@), "复制失败"@),
{
    contains(trim(msg), "复制失败")
}

/// Whether a failed capture only hides the bubble: a replacement where simply
/// nothing was selected. Every other failure shows its message.
pub open spec fn hides_on_failure(action: TranslateAction, msg: Seq<char>) -> bool {
    action == TranslateAction::Replace && no_selection_message(msg) && !has_infix(trim_spec(msg), "复制失败"@)
}

/// Whether a failed capture only hides the bubble.
pub fn hides_on_capture_failure(action: TranslateAction, msg: &str) -> (r: bool)
    ensures
        r == hides_on_failure(action, msg@),
{
    action == TranslateAction::Replace && is_no_selection_message(msg) && !is_copy_failure_message(msg)
}

/// A preview of the source: up to 80 characters, and `…` after a cut.
pub open spec fn preview_spec(text: Seq<char>) -> Seq<char> {
    if text.len() <= 80 {
        text
    } else {
        text.subrange(0, 80) + "…"@
    }
}

/// The source shown while the translation runs.
pub fn truncate_preview(text: &str) -> (r: String)
    ensures
        r@ == preview_spec(text@),
        r@.len() <= 81,
{
    proof {
        reveal_strlit("…");
    }
    if text.unicode_len() <= 80 {
        return text.to_string();
    }
    let mut s = take_chars(text, 80);
    s.append("…");
    s
}

} // verus!
