//! One capture-and-translate job, started by a hotkey, as a state machine:
//! the caller performs each action and reports what came of it as the next
//! event, and the machine decides what follows.

use crate::bubble::{error_view, loading_view, BubblePayload, BubbleView};
use crate::capture::{
    bubble_success_payload, hides_on_capture_failure, hides_on_failure, loading_with_provider,
    msg_no_selection, no_selection_spec, preview_spec, success_view, truncate_preview, SelectionResult,
    SelectionView, TranslateAction, TranslateDonePayload,
};
use crate::history::{
    byte_len, is_stale_history_clipboard_reuse, stale_debug_lines, stale_history_clipboard_debug,
    stale_reuse, HistoryRecord,
};
use crate::selection::TargetHwnd;
use crate::settings::TranslateSettings;
use crate::text::{
    bool_text, bool_text_spec, cat, copy_opt_string, decimal, join_spec, opt_as_str, opt_view,
    trim, trim_spec, u64_text,
};
use crate::translation::{capture_failed_view, TranslateResult, TranslateView};
use vstd::prelude::*;
use vstd::string::StrSliceExecFns;
use vstd::string::StringExecFns;

verus! {

broadcast use vstd::string::group_string_axioms;

/// Where a job stands.
#[derive(Debug, Clone, Copy, PartialEq, Eq, Structural)]
pub enum Stage {
    /// Created, nothing done yet.
    Ready,
    /// Waiting for the clipboard text at the moment of the hotkey.
    AwaitingClipboard,
    /// Waiting for the captured selection.
    AwaitingCapture,
    /// Waiting for the translation.
    AwaitingTranslation,
    /// Waiting for the translation to be pasted over the selection.
    AwaitingReplace,
    /// Done; further events are ignored.
    Finished,
}

/// Something the caller is asked to do.
#[derive(Debug)]
pub enum PipelineAction {
    ClearReplaceSession,
    PresentBubble(BubblePayload),
    HideBubble,
    /// Hide the bubble after this many seconds (at least 3).
    ScheduleAutoHide(u64),
    SetReplaceSession(TargetHwnd, String),
    EmitStarted,
    /// Read the clipboard text and report it as `HotkeyClipboard`.
    ReadHotkeyClipboard,
    /// Capture the selection with these settings and report it as `Captured`.
    CaptureSelection { restore_clipboard: bool, copy_delay_ms: u64 },
    AppendLog(String),
    /// Translate the text and report the result as `Translated`.
    Translate(String),
    /// Write the text to the clipboard, paste it into the window and report
    /// the outcome as `Replaced`.
    ApplyReplace(TargetHwnd, String),
    /// Offer the primary engine's page for the text in the browser.
    OpenInBrowser(String),
    RestoreClipboard(Option<String>),
    AppendHistory { source: String, result: TranslateResult, max_records: usize },
    EmitHistoryUpdated,
    EmitDone(TranslateDonePayload),
}

/// An action with each text taken by its characters.
pub enum ActionView {
    ClearReplaceSession,
    PresentBubble(BubbleView),
    HideBubble,
    ScheduleAutoHide(u64),
    SetReplaceSession(TargetHwnd, Seq<char>),
    EmitStarted,
    ReadHotkeyClipboard,
    CaptureSelection { restore_clipboard: bool, copy_delay_ms: u64 },
    AppendLog(Seq<char>),
    Translate(Seq<char>),
    ApplyReplace(TargetHwnd, Seq<char>),
    OpenInBrowser(Seq<char>),
    RestoreClipboard(Option<Seq<char>>),
    AppendHistory { source: Seq<char>, result: TranslateView, max_records: usize },
    EmitHistoryUpdated,
    EmitDone(SelectionView, TranslateView),
}

impl View for PipelineAction {
    type V = ActionView;

    open spec fn view(&self) -> ActionView {
        match self {
            PipelineAction::ClearReplaceSession => ActionView::ClearReplaceSession,
            PipelineAction::PresentBubble(p) => ActionView::PresentBubble(p@),
            PipelineAction::HideBubble => ActionView::HideBubble,
            PipelineAction::ScheduleAutoHide(s) => ActionView::ScheduleAutoHide(*s),
            PipelineAction::SetReplaceSession(t, s) => ActionView::SetReplaceSession(*t, s@),
            PipelineAction::EmitStarted => ActionView::EmitStarted,
            PipelineAction::ReadHotkeyClipboard => ActionView::ReadHotkeyClipboard,
            PipelineAction::CaptureSelection { restore_clipboard, copy_delay_ms } => ActionView::CaptureSelection {
                restore_clipboard: *restore_clipboard,
                copy_delay_ms: *copy_delay_ms,
            },
            PipelineAction::AppendLog(s) => ActionView::AppendLog(s@),
            PipelineAction::Translate(s) => ActionView::Translate(s@),
            PipelineAction::ApplyReplace(t, s) => ActionView::ApplyReplace(*t, s@),
            PipelineAction::OpenInBrowser(s) => ActionView::OpenInBrowser(s@),
            PipelineAction::RestoreClipboard(o) => ActionView::RestoreClipboard(opt_view(*o)),
            PipelineAction::AppendHistory { source, result, max_records } => ActionView::AppendHistory {
                source: source@,
                result: result@,
                max_records: *max_records,
            },
            PipelineAction::EmitHistoryUpdated => ActionView::EmitHistoryUpdated,
            PipelineAction::EmitDone(p) => ActionView::EmitDone(p.selection@, p.translate@),
        }
    }
}

/// The views of a list of actions.
pub open spec fn actions_view(v: Seq<PipelineAction>) -> Seq<ActionView> {
    v.map_values(|a: PipelineAction| a@)
}

/// What came of an action.
#[derive(Debug)]
pub enum PipelineEvent {
    /// The job begins.
    Start,
    /// The clipboard text at the moment of the hotkey, if it could be read.
    HotkeyClipboard(Option<String>),
    /// The captured selection, with the history and the time (milliseconds
    /// since the Unix epoch) for the stale-clipboard guard, and the time as
    /// written in the log.
    Captured { selection: SelectionResult, history: Vec<HistoryRecord>, now_ms: u64, timestamp: String },
    /// The translation, and the time as written in the log.
    Translated { result: TranslateResult, timestamp: String },
    /// Whether pasting the translation over the selection worked.
    Replaced(Result<(), String>),
}

/// The view of the outcome of a paste.
pub open spec fn outcome_view(r: Result<(), String>) -> Result<(), Seq<char>> {
    match r {
        Ok(()) => Ok(()),
        Err(e) => Err(e@),
    }
}

/// An event with each text taken by its characters.
pub enum EventView {
    Start,
    HotkeyClipboard(Option<Seq<char>>),
    Captured { selection: SelectionView, history: Seq<HistoryRecord>, now_ms: u64, timestamp: Seq<char> },
    Translated { result: TranslateView, timestamp: Seq<char> },
    Replaced(Result<(), Seq<char>>),
}

impl View for PipelineEvent {
    type V = EventView;

    open spec fn view(&self) -> EventView {
        match self {
            PipelineEvent::Start => EventView::Start,
            PipelineEvent::HotkeyClipboard(o) => EventView::HotkeyClipboard(opt_view(*o)),
            PipelineEvent::Captured { selection, history, now_ms, timestamp } => EventView::Captured {
                selection: selection@,
                history: history@,
                now_ms: *now_ms,
                timestamp: timestamp@,
            },
            PipelineEvent::Translated { result, timestamp } => EventView::Translated {
                result: result@,
                timestamp: timestamp@,
            },
            PipelineEvent::Replaced(r) => EventView::Replaced(outcome_view(*r)),
        }
    }
}

/// One capture-and-translate job.
#[derive(Debug)]
pub struct CaptureJob {
    pub action: TranslateAction,
    /// The window the hotkey was pressed in.
    pub target: TargetHwnd,
    /// From the settings: put the earlier clipboard back afterwards.
    pub restore_clipboard: bool,
    /// From the settings: wait after the simulated copy.
    pub copy_delay_ms: u64,
    /// From the settings: the primary translation engine.
    pub primary_provider: String,
    /// From the settings: age for the stale-clipboard guard.
    pub guard_sec: u64,
    /// From the settings: seconds before the bubble hides by itself.
    pub auto_close_sec: u64,
    /// From the settings: records kept in the history.
    pub history_max: u32,
    pub stage: Stage,
    /// The clipboard text at the moment of the hotkey.
    pub hotkey_clipboard: Option<String>,
    /// The captured selection, kept for the final report.
    pub selection: Option<SelectionResult>,
    /// The captured text.
    pub source: String,
    /// The translation, kept while it is pasted.
    pub translation: Option<TranslateResult>,
}

/// A job with each text taken by its characters.
pub struct JobView {
    pub action: TranslateAction,
    pub target: TargetHwnd,
    pub restore_clipboard: bool,
    pub copy_delay_ms: u64,
    pub primary_provider: Seq<char>,
    pub guard_sec: u64,
    pub auto_close_sec: u64,
    pub history_max: u32,
    pub stage: Stage,
    pub hotkey_clipboard: Option<Seq<char>>,
    pub selection: Option<SelectionView>,
    pub source: Seq<char>,
    pub translation: Option<TranslateView>,
}

/// The view of an optional capture outcome.
pub open spec fn opt_selection_view(o: Option<SelectionResult>) -> Option<SelectionView> {
    match o {
        Some(s) => Some(s@),
        None => None,
    }
}

/// The view of an optional translation result.
pub open spec fn opt_translate_view(o: Option<TranslateResult>) -> Option<TranslateView> {
    match o {
        Some(s) => Some(s@),
        None => None,
    }
}

impl View for CaptureJob {
    type V = JobView;

    open spec fn view(&self) -> JobView {
        JobView {
            action: self.action,
            target: self.target,
            restore_clipboard: self.restore_clipboard,
            copy_delay_ms: self.copy_delay_ms,
            primary_provider: self.primary_provider@,
            guard_sec: self.guard_sec,
            auto_close_sec: self.auto_close_sec,
            history_max: self.history_max,
            stage: self.stage,
            hotkey_clipboard: opt_view(self.hotkey_clipboard),
            selection: opt_selection_view(self.selection),
            source: self.source@,
            translation: opt_translate_view(self.translation),
        }
    }
}

/// What each stage needs: the captured selection, and a captured text that is
/// not blank, once translation starts; and the translation while it is pasted.
pub open spec fn job_wf(j: JobView) -> bool {
    &&& (j.stage == Stage::AwaitingTranslation || j.stage == Stage::AwaitingReplace) ==> j.selection is Some
    &&& (j.stage == Stage::AwaitingTranslation || j.stage == Stage::AwaitingReplace) ==> trim_spec(j.source).len() > 0
    &&& j.stage == Stage::AwaitingReplace ==> j.translation is Some
}

/// Whether the earlier clipboard is put back at the end: as the settings say,
/// except for a replacement, which leaves the translation in the clipboard.
pub open spec fn should_restore(j: JobView) -> bool {
    j.restore_clipboard && j.action != TranslateAction::Replace
}

/// The capture settings: a replacement does not restore the clipboard and
/// waits at least 300 ms after the copy, as some programs are slow to fill it.
pub open spec fn capture_action(j: JobView) -> ActionView {
    if j.action == TranslateAction::Replace {
        ActionView::CaptureSelection {
            restore_clipboard: false,
            copy_delay_ms: if j.copy_delay_ms < 300 { 300 } else { j.copy_delay_ms },
        }
    } else {
        ActionView::CaptureSelection { restore_clipboard: j.restore_clipboard, copy_delay_ms: j.copy_delay_ms }
    }
}

/// The first actions of a job: a bubble job drops the earlier write-back
/// session and shows that text is being captured (a replacement shows no
/// bubble); then the clipboard at the moment of the hotkey is read.
pub open spec fn start_actions(j: JobView) -> Seq<ActionView> {
    (if j.action == TranslateAction::Bubble {
        seq![
            ActionView::ClearReplaceSession,
            ActionView::PresentBubble(loading_view("取词中…"@, Some(j.primary_provider))),
        ]
    } else {
        Seq::empty()
    }) + seq![ActionView::EmitStarted, ActionView::ReadHotkeyClipboard]
}

/// The loading bubble with the text being translated, shown only in a bubble
/// job.
pub open spec fn translating_bubble(j: JobView, source: Seq<char>) -> Seq<ActionView> {
    if j.action == TranslateAction::Bubble {
        seq![ActionView::PresentBubble(loading_view(preview_spec(source), Some(j.primary_provider)))]
    } else {
        Seq::empty()
    }
}

/// What a failed capture shows: the bubble is hidden, or the error is shown
/// and the bubble hides after a while.
pub open spec fn failure_actions(j: JobView, msg: Seq<char>, hint: Option<Seq<char>>) -> Seq<ActionView> {
    if hides_on_failure(j.action, msg) {
        seq![ActionView::HideBubble]
    } else {
        seq![ActionView::PresentBubble(error_view(msg, hint)), ActionView::ScheduleAutoHide(j.auto_close_sec)]
    }
}

/// The message for a capture that failed: its own error, or the request to
/// select text when there is none, or when the clipboard at the hotkey holds
/// the stale text of the latest translation.
pub open spec fn failed_capture_message(j: JobView, sel: SelectionView, history: Seq<HistoryRecord>, now_ms: u64) -> Seq<char> {
    let own = match sel.error {
        Some(e) => e,
        None => no_selection_spec(),
    };
    match j.hotkey_clipboard {
        Some(c) => if trim_spec(c).len() > 0 && stale_reuse(history, now_ms, j.guard_sec, trim_spec(c), Some(c), false) {
            no_selection_spec()
        } else {
            own
        },
        None => own,
    }
}

/// A capture outcome turned into the request to select text.
pub open spec fn refused_selection(sel: SelectionView) -> SelectionView {
    SelectionView { ok: false, text: None, error: Some(no_selection_spec()), ..sel }
}

/// The log block of the decision after a capture, with the guard diagnostics.
pub open spec fn capture_log_spec(timestamp: Seq<char>, source: Seq<char>, debug: Seq<char>, verdict: Seq<char>) -> Seq<char> {
    "\n=== [capture-pipeline:capture-thread] "@ + timestamp + " ===\nselection_ok: true\ncaptured_len: "@
        + decimal(byte_len(trim_spec(source))) + "\n"@ + debug + "\nfinal_result: "@ + verdict + "\n"@
}

/// The guard diagnostics for the captured `source`.
pub open spec fn guard_debug_spec(j: JobView, source: Seq<char>, history: Seq<HistoryRecord>, now_ms: u64, changed: bool) -> Seq<char> {
    join_spec(stale_debug_lines(history, now_ms, j.guard_sec, trim_spec(source), j.hotkey_clipboard, changed), "\n"@)
}

/// The verdict written when the guard refuses a capture.
pub open spec fn reject_verdict() -> Seq<char> {
    "REJECT history-guard → 请先选中（未调用翻译）"@
}

/// The verdict written when a capture goes on to translation.
pub open spec fn pass_verdict() -> Seq<char> {
    "PASS → 开始翻译"@
}

/// The job once it is done.
pub open spec fn finished(j: JobView) -> JobView {
    JobView { stage: Stage::Finished, selection: None, translation: None, ..j }
}

/// The captured text, empty when there is none.
pub open spec fn captured_text(sel: SelectionView) -> Seq<char> {
    match sel.text {
        Some(t) => t,
        None => Seq::empty(),
    }
}

/// The step after the capture.
pub open spec fn after_capture(j: JobView, sel: SelectionView, history: Seq<HistoryRecord>, now_ms: u64, timestamp: Seq<char>) -> (JobView, Seq<ActionView>) {
    let source = captured_text(sel);
    let debug = guard_debug_spec(j, source, history, now_ms, sel.clipboard_sequence_changed);
    if !sel.ok {
        (
            finished(j),
            failure_actions(j, failed_capture_message(j, sel, history, now_ms), sel.text) + seq![
                ActionView::EmitDone(sel, capture_failed_view()),
            ],
        )
    } else if stale_reuse(history, now_ms, j.guard_sec, trim_spec(source), j.hotkey_clipboard, sel.clipboard_sequence_changed) {
        (
            finished(j),
            seq![ActionView::AppendLog(capture_log_spec(timestamp, source, debug, reject_verdict()))]
                + failure_actions(j, no_selection_spec(), Some(source)) + seq![
                ActionView::EmitDone(refused_selection(sel), capture_failed_view()),
            ],
        )
    } else if trim_spec(source).len() == 0 {
        (
            finished(j),
            failure_actions(j, no_selection_spec(), sel.text) + seq![
                ActionView::EmitDone(refused_selection(sel), capture_failed_view()),
            ],
        )
    } else {
        (
            JobView { stage: Stage::AwaitingTranslation, selection: Some(sel), source: source, ..j },
            seq![ActionView::AppendLog(capture_log_spec(timestamp, source, debug, pass_verdict()))]
                + translating_bubble(j, source) + seq![ActionView::Translate(source)],
        )
    }
}

/// The error of a failed translation, or a generic one.
pub open spec fn translate_error(r: TranslateView) -> Seq<char> {
    match r.error {
        Some(e) => e,
        None => "翻译失败"@,
    }
}

/// The log block after a translation.
pub open spec fn translate_log_spec(timestamp: Seq<char>, r: TranslateView) -> Seq<char> {
    "\n=== [capture-pipeline:translate-done] "@ + timestamp + " ===\ntranslate_ok: "@ + bool_text_spec(r.ok)
        + "\nfrom_cache: "@ + bool_text_spec(r.from_cache) + "\nduration_ms: "@ + decimal(r.duration_ms as nat)
        + "\nerror: "@ + (match r.error {
        Some(e) => e,
        None => Seq::empty(),
    }) + "\n"@
}

/// The last actions of a job that reached translation: the earlier clipboard
/// is put back when it should be, the translation is added to the history,
/// and the outcome is reported.
pub open spec fn finish_actions(j: JobView, r: TranslateView) -> Seq<ActionView> {
    (if should_restore(j) {
        seq![ActionView::RestoreClipboard(j.hotkey_clipboard)]
    } else {
        Seq::empty()
    }) + seq![
        ActionView::AppendHistory { source: j.source, result: r, max_records: j.history_max as usize },
        ActionView::EmitHistoryUpdated,
        ActionView::EmitDone(j.selection->0, r),
    ]
}

/// The step after the translation.
pub open spec fn after_translation(j: JobView, r: TranslateView, timestamp: Seq<char>) -> (JobView, Seq<ActionView>) {
    let log = ActionView::AppendLog(translate_log_spec(timestamp, r));
    let fail = ActionView::PresentBubble(error_view(translate_error(r), Some(j.source)));
    let hide_later = ActionView::ScheduleAutoHide(j.auto_close_sec);
    if j.action == TranslateAction::Replace {
        if r.ok {
            match r.translated_text {
                Some(t) => (
                    JobView { stage: Stage::AwaitingReplace, translation: Some(r), ..j },
                    seq![log, ActionView::ApplyReplace(j.target, t)],
                ),
                None => (finished(j), seq![log, ActionView::HideBubble] + finish_actions(j, r)),
            }
        } else {
            (finished(j), seq![log, fail, hide_later] + finish_actions(j, r))
        }
    } else if r.ok {
        (
            finished(j),
            seq![log] + (match r.translated_text {
                Some(t) => seq![ActionView::SetReplaceSession(j.target, t)],
                None => Seq::empty(),
            }) + seq![ActionView::PresentBubble(success_view(j.source, r)), hide_later] + finish_actions(j, r),
        )
    } else {
        (
            finished(j),
            seq![log, fail] + (if r.source_text.len() > 0 {
                seq![ActionView::OpenInBrowser(r.source_text)]
            } else {
                Seq::empty()
            }) + seq![hide_later] + finish_actions(j, r),
        )
    }
}

/// The step after pasting the translation over the selection.
pub open spec fn after_replace(j: JobView, outcome: Result<(), Seq<char>>) -> (JobView, Seq<ActionView>) {
    let r = j.translation->0;
    match outcome {
        Ok(()) => (finished(j), seq![ActionView::HideBubble] + finish_actions(j, r)),
        Err(e) => (
            finished(j),
            seq![
                ActionView::PresentBubble(error_view("替换失败: "@ + e, Some(j.source))),
                ActionView::ScheduleAutoHide(j.auto_close_sec),
            ] + finish_actions(j, r),
        ),
    }
}

/// The whole machine: the next job and the actions for an event. An event that
/// does not belong to the stage changes nothing.
pub open spec fn step_spec(j: JobView, e: EventView) -> (JobView, Seq<ActionView>) {
    match (j.stage, e) {
        (Stage::Ready, EventView::Start) => (JobView { stage: Stage::AwaitingClipboard, ..j }, start_actions(j)),
        (Stage::AwaitingClipboard, EventView::HotkeyClipboard(c)) => (
            JobView { stage: Stage::AwaitingCapture, hotkey_clipboard: c, ..j },
            seq![capture_action(j)],
        ),
        (Stage::AwaitingCapture, EventView::Captured { selection, history, now_ms, timestamp }) => after_capture(
            j,
            selection,
            history,
            now_ms,
            timestamp,
        ),
        (Stage::AwaitingTranslation, EventView::Translated { result, timestamp }) => after_translation(j, result, timestamp),
        (Stage::AwaitingReplace, EventView::Replaced(outcome)) => after_replace(j, outcome),
        _ => (j, Seq::empty()),
    }
}

fn push_action(actions: &mut Vec<PipelineAction>, a: PipelineAction)
    ensures
        actions_view(final(actions)@) == actions_view(old(actions)@).push(a@),
{
    let ghost a_view = a@;
    actions.push(a);
    assert(actions_view(actions@) =~= actions_view(old(actions)@).push(a_view));
}

fn capture_log_block(timestamp: &str, source: &str, debug: &str, verdict: &str) -> (r: String)
    ensures
        r@ == capture_log_spec(timestamp@, source@, debug@, verdict@),
{
    let mut s = cat("\n=== [capture-pipeline:capture-thread] ", timestamp);
    s.append(" ===\nselection_ok: true\ncaptured_len: ");
    s.append(u64_text(trim(source).len() as u64).as_str());
    s.append("\n");
    s.append(debug);
    s.append("\nfinal_result: ");
    s.append(verdict);
    s.append("\n");
    s
}

fn translate_log_block(timestamp: &str, r: &TranslateResult) -> (out: String)
    ensures
        out@ == translate_log_spec(timestamp@, r@),
{
    let mut s = cat("\n=== [capture-pipeline:translate-done] ", timestamp);
    s.append(" ===\ntranslate_ok: ");
    s.append(bool_text(r.ok).as_str());
    s.append("\nfrom_cache: ");
    s.append(bool_text(r.from_cache).as_str());
    s.append("\nduration_ms: ");
    s.append(u64_text(r.duration_ms).as_str());
    s.append("\nerror: ");
    match &r.error {
        Some(e) => s.append(e.as_str()),
        None => {},
    }
    s.append("\n");
    s
}

fn refuse_selection(sel: &SelectionResult) -> (r: SelectionResult)
    ensures
        r@ == refused_selection(sel@),
{
    SelectionResult {
        ok: false,
        text: None,
        error: Some(msg_no_selection()),
        restored_clipboard: sel.restored_clipboard,
        duration_ms: sel.duration_ms,
        clipboard_sequence_changed: sel.clipboard_sequence_changed,
    }
}

impl CaptureJob {
    /// A job for `action` on `target`, with the settings it needs.
    pub fn new(settings: &TranslateSettings, target: TargetHwnd, action: TranslateAction) -> (r: Self)
        ensures
            r@ == (JobView {
                action: action,
                target: target,
                restore_clipboard: settings.restore_clipboard,
                copy_delay_ms: settings.copy_delay_ms,
                primary_provider: settings.primary_provider@,
                guard_sec: settings.translate_clipboard_guard_sec,
                auto_close_sec: settings.bubble_auto_close_sec,
                history_max: settings.history_max_count,
                stage: Stage::Ready,
                hotkey_clipboard: None,
                selection: None,
                source: Seq::empty(),
                translation: None,
            }),
            job_wf(r@),
    {
        CaptureJob {
            action,
            target,
            restore_clipboard: settings.restore_clipboard,
            copy_delay_ms: settings.copy_delay_ms,
            primary_provider: settings.primary_provider.clone(),
            guard_sec: settings.translate_clipboard_guard_sec,
            auto_close_sec: settings.bubble_auto_close_sec,
            history_max: settings.history_max_count,
            stage: Stage::Ready,
            hotkey_clipboard: None,
            selection: None,
            source: String::new(),
            translation: None,
        }
    }

    fn push_failure(&self, actions: &mut Vec<PipelineAction>, msg: String, hint: Option<String>)
        ensures
            actions_view(final(actions)@) == actions_view(old(actions)@) + failure_actions(
                self@,
                msg@,
                opt_view(hint),
            ),
    {
        let ghost before = actions_view(actions@);
        if hides_on_capture_failure(self.action, msg.as_str()) {
            push_action(actions, PipelineAction::HideBubble);
        } else {
            push_action(actions, PipelineAction::PresentBubble(BubblePayload::error(msg, hint)));
            push_action(actions, PipelineAction::ScheduleAutoHide(self.auto_close_sec));
        }
        assert(actions_view(actions@) =~= before + failure_actions(self@, msg@, opt_view(hint)));
    }

    fn end(&mut self)
        ensures
            final(self)@ == finished(old(self)@),
    {
        self.stage = Stage::Finished;
        self.selection = None;
        self.translation = None;
    }

    fn push_finish(&mut self, actions: &mut Vec<PipelineAction>, result: TranslateResult)
        requires
            old(self).selection is Some,
        ensures
            actions_view(final(actions)@) == actions_view(old(actions)@) + finish_actions(
                old(self)@,
                result@,
            ),
            final(self)@ == finished(old(self)@),
    {
        let ghost before = actions_view(actions@);
        let ghost j = self@;
        if self.restore_clipboard && self.action != TranslateAction::Replace {
            push_action(actions, PipelineAction::RestoreClipboard(copy_opt_string(&self.hotkey_clipboard)));
        }
        push_action(
            actions,
            PipelineAction::AppendHistory {
                source: self.source.clone(),
                result: result.copied(),
                max_records: self.history_max as usize,
            },
        );
        push_action(actions, PipelineAction::EmitHistoryUpdated);
        let selection = match self.selection.take() {
            Some(s) => s,
            None => {
                assert(false);
                return;
            },
        };
        push_action(actions, PipelineAction::EmitDone(TranslateDonePayload { selection, translate: result }));
        self.end();
        assert(actions_view(actions@) =~= before + finish_actions(j, result@));
    }

    fn on_captured(
        &mut self,
        actions: &mut Vec<PipelineAction>,
        selection: SelectionResult,
        history: Vec<HistoryRecord>,
        now_ms: u64,
        timestamp: String,
    )
        requires
            old(actions)@.len() == 0,
        ensures
            (final(self)@, actions_view(final(actions)@)) == after_capture(
                old(self)@,
                selection@,
                history@,
                now_ms,
                timestamp@,
            ),
    {
        let ghost j = self@;
        let ghost sel = selection@;
        let ghost expected = after_capture(j, sel, history@, now_ms, timestamp@);
        assert(actions_view(actions@) =~= Seq::<ActionView>::empty());
        let source: String = match &selection.text {
            Some(t) => t.clone(),
            None => String::new(),
        };
        assert(source@ == captured_text(sel));
        if !selection.ok {
            let mut msg = match &selection.error {
                Some(e) => e.clone(),
                None => msg_no_selection(),
            };
            match &self.hotkey_clipboard {
                Some(clip) => {
                    let clip_norm = trim(clip.as_str());
                    if clip_norm.unicode_len() > 0 && is_stale_history_clipboard_reuse(
                        &history,
                        now_ms,
                        self.guard_sec,
                        clip_norm,
                        Some(clip.as_str()),
                        false,
                    ) {
                        msg = msg_no_selection();
                    }
                },
                None => {},
            }
            assert(msg@ == failed_capture_message(j, sel, history@, now_ms));
            let hint = copy_opt_string(&selection.text);
            self.push_failure(actions, msg, hint);
            push_action(
                actions,
                PipelineAction::EmitDone(
                    TranslateDonePayload { selection, translate: TranslateResult::capture_failed() },
                ),
            );
            self.end();
            assert(actions_view(actions@) =~= expected.1);
            return;
        }
        let src_trim = trim(source.as_str());
        let debug = stale_history_clipboard_debug(
            &history,
            now_ms,
            self.guard_sec,
            src_trim,
            opt_as_str(&self.hotkey_clipboard),
            selection.clipboard_sequence_changed,
        );
        assert(debug@ == guard_debug_spec(j, source@, history@, now_ms, sel.clipboard_sequence_changed));
        if is_stale_history_clipboard_reuse(
            &history,
            now_ms,
            self.guard_sec,
            src_trim,
            opt_as_str(&self.hotkey_clipboard),
            selection.clipboard_sequence_changed,
        ) {
            push_action(
                actions,
                PipelineAction::AppendLog(
                    capture_log_block(
                        timestamp.as_str(),
                        source.as_str(),
                        debug.as_str(),
                        "REJECT history-guard → 请先选中（未调用翻译）",
                    ),
                ),
            );
            self.push_failure(actions, msg_no_selection(), Some(source.clone()));
            push_action(
                actions,
                PipelineAction::EmitDone(
                    TranslateDonePayload {
                        selection: refuse_selection(&selection),
                        translate: TranslateResult::capture_failed(),
                    },
                ),
            );
            self.end();
            assert(actions_view(actions@) =~= expected.1);
            return;
        }
        if src_trim.unicode_len() == 0 {
            let hint = copy_opt_string(&selection.text);
            self.push_failure(actions, msg_no_selection(), hint);
            push_action(
                actions,
                PipelineAction::EmitDone(
                    TranslateDonePayload {
                        selection: refuse_selection(&selection),
                        translate: TranslateResult::capture_failed(),
                    },
                ),
            );
            self.end();
            assert(actions_view(actions@) =~= expected.1);
            return;
        }
        push_action(
            actions,
            PipelineAction::AppendLog(
                capture_log_block(timestamp.as_str(), source.as_str(), debug.as_str(), "PASS → 开始翻译"),
            ),
        );
        if self.action == TranslateAction::Bubble {
            let preview = truncate_preview(source.as_str());
            push_action(
                actions,
                PipelineAction::PresentBubble(
                    loading_with_provider(preview.as_str(), self.primary_provider.as_str()),
                ),
            );
        }
        push_action(actions, PipelineAction::Translate(source.clone()));
        self.stage = Stage::AwaitingTranslation;
        self.selection = Some(selection);
        self.source = source;
        assert(actions_view(actions@) =~= expected.1);
    }

    fn on_translated(&mut self, actions: &mut Vec<PipelineAction>, result: TranslateResult, timestamp: String)
        requires
            old(actions)@.len() == 0,
            job_wf(old(self)@),
            old(self).stage == Stage::AwaitingTranslation,
        ensures
            (final(self)@, actions_view(final(actions)@)) == after_translation(old(self)@, result@, timestamp@),
            job_wf(final(self)@),
    {
        let ghost j = self@;
        let ghost r = result@;
        let ghost expected = after_translation(j, r, timestamp@);
        assert(actions_view(actions@) =~= Seq::<ActionView>::empty());
        push_action(actions, PipelineAction::AppendLog(translate_log_block(timestamp.as_str(), &result)));
        let err: String = match &result.error {
            Some(e) => e.clone(),
            None => "翻译失败".to_string(),
        };
        assert(err@ == translate_error(r));
        if self.action == TranslateAction::Replace {
            if result.ok {
                match &result.translated_text {
                    Some(t) => {
                        push_action(actions, PipelineAction::ApplyReplace(self.target, t.clone()));
                        self.stage = Stage::AwaitingReplace;
                        self.translation = Some(result);
                        assert(actions_view(actions@) =~= expected.1);
                        return;
                    },
                    None => {
                        push_action(actions, PipelineAction::HideBubble);
                    },
                }
            } else {
                push_action(
                    actions,
                    PipelineAction::PresentBubble(BubblePayload::error(err, Some(self.source.clone()))),
                );
                push_action(actions, PipelineAction::ScheduleAutoHide(self.auto_close_sec));
            }
        } else if result.ok {
            match &result.translated_text {
                Some(t) => {
                    push_action(actions, PipelineAction::SetReplaceSession(self.target, t.clone()));
                },
                None => {},
            }
            push_action(
                actions,
                PipelineAction::PresentBubble(bubble_success_payload(self.source.as_str(), &result)),
            );
            push_action(actions, PipelineAction::ScheduleAutoHide(self.auto_close_sec));
        } else {
            push_action(
                actions,
                PipelineAction::PresentBubble(BubblePayload::error(err, Some(self.source.clone()))),
            );
            if result.source_text.as_str().unicode_len() > 0 {
                push_action(actions, PipelineAction::OpenInBrowser(result.source_text.clone()));
            }
            push_action(actions, PipelineAction::ScheduleAutoHide(self.auto_close_sec));
        }
        self.push_finish(actions, result);
        assert(actions_view(actions@) =~= expected.1);
    }

    fn on_replaced(&mut self, actions: &mut Vec<PipelineAction>, outcome: Result<(), String>)
        requires
            old(actions)@.len() == 0,
            job_wf(old(self)@),
            old(self).stage == Stage::AwaitingReplace,
        ensures
            (final(self)@, actions_view(final(actions)@)) == after_replace(old(self)@, outcome_view(outcome)),
            job_wf(final(self)@),
    {
        let ghost j = self@;
        let ghost expected = after_replace(j, outcome_view(outcome));
        assert(actions_view(actions@) =~= Seq::<ActionView>::empty());
        match outcome {
            Ok(()) => {
                push_action(actions, PipelineAction::HideBubble);
            },
            Err(e) => {
                let msg = cat("替换失败: ", e.as_str());
                push_action(
                    actions,
                    PipelineAction::PresentBubble(BubblePayload::error(msg, Some(self.source.clone()))),
                );
                push_action(actions, PipelineAction::ScheduleAutoHide(self.auto_close_sec));
            },
        }
        let result = match self.translation.take() {
            Some(r) => r,
            None => {
                assert(false);
                return;
            },
        };
        self.push_finish(actions, result);
        assert(actions_view(actions@) =~= expected.1);
    }

    /// Reports `event` to the job: returns what to do next, in order. An event
    /// that does not belong to the current stage is ignored.
    pub fn step(&mut self, event: PipelineEvent) -> (actions: Vec<PipelineAction>)
        requires
            job_wf(old(self)@),
        ensures
            final(self)@ == step_spec(old(self)@, event@).0,
            actions_view(actions@) == step_spec(old(self)@, event@).1,
            job_wf(final(self)@),
    {
        let mut actions: Vec<PipelineAction> = Vec::new();
        assert(actions_view(actions@) =~= Seq::<ActionView>::empty());
        let ghost j = self@;
        match event {
            PipelineEvent::Start => {
                if self.stage != Stage::Ready {
                    return actions;
                }
                if self.action == TranslateAction::Bubble {
                    push_action(&mut actions, PipelineAction::ClearReplaceSession);
                    push_action(
                        &mut actions,
                        PipelineAction::PresentBubble(
                            loading_with_provider("取词中…", self.primary_provider.as_str()),
                        ),
                    );
                }
                push_action(&mut actions, PipelineAction::EmitStarted);
                push_action(&mut actions, PipelineAction::ReadHotkeyClipboard);
                self.stage = Stage::AwaitingClipboard;
                assert(actions_view(actions@) =~= start_actions(j));
            },
            PipelineEvent::HotkeyClipboard(clip) => {
                if self.stage != Stage::AwaitingClipboard {
                    return actions;
                }
                let a = if self.action == TranslateAction::Replace {
                    PipelineAction::CaptureSelection {
                        restore_clipboard: false,
                        copy_delay_ms: if self.copy_delay_ms < 300 {
                            300
                        } else {
                            self.copy_delay_ms
                        },
                    }
                } else {
                    PipelineAction::CaptureSelection {
                        restore_clipboard: self.restore_clipboard,
                        copy_delay_ms: self.copy_delay_ms,
                    }
                };
                push_action(&mut actions, a);
                self.hotkey_clipboard = clip;
                self.stage = Stage::AwaitingCapture;
                assert(actions_view(actions@) =~= seq![capture_action(j)]);
            },
            PipelineEvent::Captured { selection, history, now_ms, timestamp } => {
                if self.stage != Stage::AwaitingCapture {
                    return actions;
                }
                self.on_captured(&mut actions, selection, history, now_ms, timestamp);
            },
            PipelineEvent::Translated { result, timestamp } => {
                if self.stage != Stage::AwaitingTranslation {
                    return actions;
                }
                self.on_translated(&mut actions, result, timestamp);
            },
            PipelineEvent::Replaced(outcome) => {
                if self.stage != Stage::AwaitingReplace {
                    return actions;
                }
                self.on_replaced(&mut actions, outcome);
            },
        }
        actions
    }
}

/// Whether `s` holds no paste action.
pub open spec fn no_replace(s: Seq<ActionView>) -> bool {
    forall|i: int| 0 <= i < s.len() ==> !(#[trigger] s[i] is ApplyReplace)
}

/// Whether `s` holds no translation request.
pub open spec fn no_translate(s: Seq<ActionView>) -> bool {
    forall|i: int| 0 <= i < s.len() ==> !(#[trigger] s[i] is Translate)
}

/// Whether `s` holds no final report.
pub open spec fn no_done(s: Seq<ActionView>) -> bool {
    forall|i: int| 0 <= i < s.len() ==> !(#[trigger] s[i] is EmitDone)
}

/// Whether `s` does not put the earlier clipboard back.
pub open spec fn no_restore(s: Seq<ActionView>) -> bool {
    forall|i: int| 0 <= i < s.len() ==> !(#[trigger] s[i] is RestoreClipboard)
}

/// The translation is pasted over the selection only in a replacement job,
/// right after a successful translation of a captured text that is not blank,
/// and what is pasted is that translation, into the window of the hotkey.
pub proof fn replace_only_after_capture_and_translation(j: JobView, e: EventView, k: int)
    requires
        job_wf(j),
        0 <= k < step_spec(j, e).1.len(),
        step_spec(j, e).1[k] is ApplyReplace,
    ensures
        j.action == TranslateAction::Replace,
        j.stage == Stage::AwaitingTranslation,
        trim_spec(j.source).len() > 0,
        e is Translated,
        e->Translated_result.ok,
        e->Translated_result.translated_text == Some(step_spec(j, e).1[k]->ApplyReplace_1),
        step_spec(j, e).1[k]->ApplyReplace_0 == j.target,
{
    let acts = step_spec(j, e).1;
    if !(j.stage == Stage::AwaitingTranslation && j.action == TranslateAction::Replace && e is Translated
        && e->Translated_result.ok && e->Translated_result.translated_text is Some) {
        assert(no_replace(acts)) by {
            lemma_no_replace_except_translation(j, e);
        }
        assert(false);
    }
}

proof fn lemma_finish_clean(j: JobView, r: TranslateView)
    ensures
        no_replace(finish_actions(j, r)),
        no_translate(finish_actions(j, r)),
        finish_actions(j, r).len() > 0,
        finish_actions(j, r).last() is EmitDone,
        no_done(finish_actions(j, r).drop_last()),
        !should_restore(j) ==> no_restore(finish_actions(j, r)),
{
    let f = finish_actions(j, r);
    assert(f.drop_last() =~= if should_restore(j) {
        seq![
            ActionView::RestoreClipboard(j.hotkey_clipboard),
            ActionView::AppendHistory { source: j.source, result: r, max_records: j.history_max as usize },
            ActionView::EmitHistoryUpdated,
        ]
    } else {
        seq![
            ActionView::AppendHistory { source: j.source, result: r, max_records: j.history_max as usize },
            ActionView::EmitHistoryUpdated,
        ]
    });
}

proof fn lemma_failure_clean(j: JobView, msg: Seq<char>, hint: Option<Seq<char>>)
    ensures
        no_replace(failure_actions(j, msg, hint)),
        no_translate(failure_actions(j, msg, hint)),
        no_done(failure_actions(j, msg, hint)),
        no_restore(failure_actions(j, msg, hint)),
{
}

proof fn lemma_no_replace_except_translation(j: JobView, e: EventView)
    requires
        !(j.stage == Stage::AwaitingTranslation && j.action == TranslateAction::Replace && e is Translated
            && e->Translated_result.ok && e->Translated_result.translated_text is Some),
    ensures
        no_replace(step_spec(j, e).1),
{
    match (j.stage, e) {
        (Stage::AwaitingCapture, EventView::Captured { selection, history, now_ms, timestamp }) => {
            lemma_failure_clean(j, failed_capture_message(j, selection, history, now_ms), selection.text);
            lemma_failure_clean(j, no_selection_spec(), Some(captured_text(selection)));
            lemma_failure_clean(j, no_selection_spec(), selection.text);
        },
        (Stage::AwaitingTranslation, EventView::Translated { result, timestamp }) => {
            lemma_finish_clean(j, result);
        },
        (Stage::AwaitingReplace, EventView::Replaced(outcome)) => {
            lemma_finish_clean(j, j.translation->0);
        },
        _ => {},
    }
}

/// Translation is only requested for a capture that succeeded, is not blank,
/// and is not the stale clipboard text of the latest translation; and the text
/// sent is the captured text.
pub proof fn translate_only_fresh_capture(j: JobView, e: EventView, k: int)
    requires
        0 <= k < step_spec(j, e).1.len(),
        step_spec(j, e).1[k] is Translate,
    ensures
        j.stage == Stage::AwaitingCapture,
        e is Captured,
        e->Captured_selection.ok,
        trim_spec(captured_text(e->Captured_selection)).len() > 0,
        !stale_reuse(
            e->Captured_history,
            e->Captured_now_ms,
            j.guard_sec,
            trim_spec(captured_text(e->Captured_selection)),
            j.hotkey_clipboard,
            e->Captured_selection.clipboard_sequence_changed,
        ),
        step_spec(j, e).1[k]->Translate_0 == captured_text(e->Captured_selection),
{
    let acts = step_spec(j, e).1;
    match (j.stage, e) {
        (Stage::AwaitingCapture, EventView::Captured { selection, history, now_ms, timestamp }) => {
            lemma_failure_clean(j, failed_capture_message(j, selection, history, now_ms), selection.text);
            lemma_failure_clean(j, no_selection_spec(), Some(captured_text(selection)));
            lemma_failure_clean(j, no_selection_spec(), selection.text);
        },
        (Stage::AwaitingTranslation, EventView::Translated { result, timestamp }) => {
            lemma_finish_clean(j, result);
            assert(no_translate(acts));
        },
        (Stage::AwaitingReplace, EventView::Replaced(outcome)) => {
            lemma_finish_clean(j, j.translation->0);
            assert(no_translate(acts));
        },
        _ => {
            assert(no_translate(acts));
        },
    }
}

/// A finished job ignores every further event.
pub proof fn finished_job_is_silent(j: JobView, e: EventView)
    requires
        j.stage == Stage::Finished,
    ensures
        step_spec(j, e).0 == j,
        step_spec(j, e).1.len() == 0,
{
}

/// The outcome is reported at most once per step, as its last action, and only
/// when the job ends with it.
pub proof fn done_reported_last(j: JobView, e: EventView, k: int)
    requires
        job_wf(j),
        0 <= k < step_spec(j, e).1.len(),
        step_spec(j, e).1[k] is EmitDone,
    ensures
        k == step_spec(j, e).1.len() - 1,
        step_spec(j, e).0.stage == Stage::Finished,
{
    let acts = step_spec(j, e).1;
    match (j.stage, e) {
        (Stage::AwaitingCapture, EventView::Captured { selection, history, now_ms, timestamp }) => {
            lemma_failure_clean(j, failed_capture_message(j, selection, history, now_ms), selection.text);
            lemma_failure_clean(j, no_selection_spec(), Some(captured_text(selection)));
            lemma_failure_clean(j, no_selection_spec(), selection.text);
        },
        (Stage::AwaitingTranslation, EventView::Translated { result, timestamp }) => {
            lemma_finish_clean(j, result);
            assert(acts.drop_last() =~= step_spec(j, e).1.subrange(0, acts.len() - 1));
        },
        (Stage::AwaitingReplace, EventView::Replaced(outcome)) => {
            lemma_finish_clean(j, j.translation->0);
        },
        _ => {},
    }
}

/// A replacement job never puts the earlier clipboard back, and a bubble job
/// does so only when the settings ask for it.
pub proof fn restore_only_when_asked(j: JobView, e: EventView, k: int)
    requires
        job_wf(j),
        0 <= k < step_spec(j, e).1.len(),
        step_spec(j, e).1[k] is RestoreClipboard,
    ensures
        j.action == TranslateAction::Bubble,
        j.restore_clipboard,
        step_spec(j, e).1[k]->RestoreClipboard_0 == j.hotkey_clipboard,
{
    match (j.stage, e) {
        (Stage::AwaitingCapture, EventView::Captured { selection, history, now_ms, timestamp }) => {
            lemma_failure_clean(j, failed_capture_message(j, selection, history, now_ms), selection.text);
            lemma_failure_clean(j, no_selection_spec(), Some(captured_text(selection)));
            lemma_failure_clean(j, no_selection_spec(), selection.text);
        },
        (Stage::AwaitingTranslation, EventView::Translated { result, timestamp }) => {
            lemma_finish_clean(j, result);
        },
        (Stage::AwaitingReplace, EventView::Replaced(outcome)) => {
            lemma_finish_clean(j, j.translation->0);
        },
        _ => {},
    }
}

/// Whether `s` presents no bubble other than an error.
pub open spec fn only_error_bubbles(s: Seq<ActionView>) -> bool {
    forall|i: int| 0 <= i < s.len() ==> (#[trigger] s[i] is PresentBubble ==> s[i]->PresentBubble_0.phase == "error"@)
}

/// A replacement job shows no bubble: no loading bubble and no translation;
/// the only bubble it may present is the one that reports an error.
pub proof fn replace_job_shows_no_bubble(j: JobView, e: EventView)
    requires
        j.action == TranslateAction::Replace,
    ensures
        only_error_bubbles(step_spec(j, e).1),
{
    reveal_strlit("success");
    reveal_strlit("error");
    assert("success"@.len() != "error"@.len());
    let acts = step_spec(j, e).1;
    match (j.stage, e) {
        (Stage::Ready, EventView::Start) => {
            assert(acts =~= seq![ActionView::EmitStarted, ActionView::ReadHotkeyClipboard]);
        },
        (Stage::AwaitingCapture, EventView::Captured { selection, history, now_ms, timestamp }) => {
            let source = captured_text(selection);
            assert(translating_bubble(j, source) =~= Seq::<ActionView>::empty());
        },
        (Stage::AwaitingTranslation, EventView::Translated { result, timestamp }) => {
            assert(only_error_bubbles(finish_actions(j, result)));
        },
        (Stage::AwaitingReplace, EventView::Replaced(outcome)) => {
            assert(only_error_bubbles(finish_actions(j, j.translation->0)));
        },
        _ => {},
    }
}

/// A failed translation is always shown: right after the log entry comes the
/// error bubble with the translation's error (a generic one when it gave none)
/// and the captured source; in a replacement job the bubble then hides after
/// the configured time, and nothing is pasted.
pub proof fn failed_translation_is_shown(j: JobView, r: TranslateView, timestamp: Seq<char>)
    requires
        job_wf(j),
        j.stage == Stage::AwaitingTranslation,
        !r.ok,
    ensures
        ({
            let acts = step_spec(j, EventView::Translated { result: r, timestamp: timestamp }).1;
            &&& acts.len() > 2
            &&& acts[1] is PresentBubble
            &&& acts[1]->PresentBubble_0.phase == "error"@
            &&& acts[1]->PresentBubble_0.error == Some(
                match r.error {
                    Some(e) => e,
                    None => "翻译失败"@,
                },
            )
            &&& acts[1]->PresentBubble_0.source_text == Some(j.source)
            &&& j.action == TranslateAction::Replace ==> acts[2] == ActionView::ScheduleAutoHide(j.auto_close_sec)
            &&& no_replace(acts)
        }),
{
    lemma_finish_clean(j, r);
    let e = EventView::Translated { result: r, timestamp: timestamp };
    let acts = step_spec(j, e).1;
    assert(no_replace(acts)) by {
        lemma_no_replace_except_translation(j, e);
    }
}

} // verus!
