//! Capturing the selection through the Python helper: the helper's command
//! script, the diagnostics written around it, and the reading of its answer.
//! Finding Python, starting the process and parsing its JSON are left to the
//! caller, which hands over what they gave.

use crate::capture::{no_selection_spec, msg_no_selection, failed_view, selection_failed, SelectionResult, SelectionView};
use crate::capture_log::{strip_extended_prefix, strip_extended_prefix_spec};
use crate::clipboard_util::{copy_failed_stale_spec, msg_copy_failed_stale, COPY_VERIFY_MAX_SEC};
use crate::settings::TranslateSettings;
use crate::history::{
    byte_len, is_stale_history_clipboard_reuse, stale_debug_lines, stale_history_clipboard_debug,
    stale_reuse, HistoryRecord,
};
use crate::text::{
    bool_text, bool_text_spec, cat, contains, decimal, eq_ignore_ascii_case,
    eq_ignore_ascii_case_spec, has_infix, i32_text, join, join_spec, opt_as_str, opt_str_view, opt_view,
    signed_decimal, str_eq, take_chars, trim, trim_spec, u64_text, views,
};
use vstd::prelude::*;
use vstd::string::StrSliceExecFns;
use vstd::string::StringExecFns;

verus! {

broadcast use vstd::string::group_string_axioms;

/// Whether a helper message says that nothing was selected (and not that the
/// copy failed).
pub open spec fn helper_no_selection(msg: Seq<char>) -> bool {
    let m = trim_spec(msg);
    (has_infix(m, "请先选中"@) || has_infix(m, "empty-clipboard"@) || has_infix(m, "无文本"@)
        || has_infix(m, "未选中"@)) && !has_infix(m, "复制失败"@)
}

/// Whether a helper message says that nothing was selected.
pub fn is_no_selection_message(msg: &str) -> (r: bool)
    ensures
        r == helper_no_selection(msg@),
{
    let m = trim(msg);
    (contains(m, "请先选中") || contains(m, "empty-clipboard") || contains(m, "无文本") || contains(
        m,
        "未选中",
    )) && !contains(m, "复制失败")
}

/// Whether a helper message says that the copy failed or timed out unchanged.
pub open spec fn helper_copy_failure(msg: Seq<char>) -> bool {
    has_infix(msg, "复制失败"@) || has_infix(msg, "copy-timeout-stale"@)
}

/// Whether a helper message says that the copy failed.
pub fn is_copy_failure_message(msg: &str) -> (r: bool)
    ensures
        r == helper_copy_failure(msg@),
{
    contains(msg, "复制失败") || contains(msg, "copy-timeout-stale")
}

/// Whether the helper saw the clipboard sequence number change: both numbers
/// are in its diagnostics and differ in their low 32 bits.
pub open spec fn sequence_changed_spec(backup_seq: Option<u64>, seq_after: Option<u64>) -> bool {
    match (backup_seq, seq_after) {
        (Some(b), Some(a)) => (a as u32) != (b as u32),
        _ => false,
    }
}

/// Whether the copy really happened, from the sequence numbers that the
/// helper's diagnostics hold (`None` where a number is absent or not an
/// unsigned integer, or there are no diagnostics).
pub fn clipboard_sequence_changed_from_diag(backup_seq: Option<u64>, seq_after: Option<u64>) -> (r: bool)
    ensures
        r == sequence_changed_spec(backup_seq, seq_after),
{
    match (backup_seq, seq_after) {
        (Some(b), Some(a)) => (a as u32) != (b as u32),
        _ => false,
    }
}

/// A helper error in normal form: trimmed; the stale-copy error where the
/// helper reports that the clipboard never changed.
pub open spec fn normalized_helper_error(raw: Seq<char>) -> Seq<char> {
    let m = trim_spec(raw);
    if has_infix(m, "复制失败"@) {
        m
    } else if has_infix(m, "copy-timeout-stale"@) || has_infix(m, "剪贴板仍未更新"@) {
        copy_failed_stale_spec()
    } else {
        m
    }
}

/// Normal form of a helper error.
pub fn normalize_python_capture_error(raw: &str) -> (r: String)
    ensures
        r@ == normalized_helper_error(raw@),
{
    let m = trim(raw);
    if contains(m, "复制失败") {
        return m.to_string();
    }
    if contains(m, "copy-timeout-stale") || contains(m, "剪贴板仍未更新") {
        return msg_copy_failed_stale();
    }
    m.to_string()
}

/// A path as handed to the helper process, without the Windows
/// extended-length prefix.
pub fn subprocess_path(path: &str) -> (r: String)
    ensures
        r@ == strip_extended_prefix_spec(path@),
{
    strip_extended_prefix(path)
}

/// What the `Debug` formatting of `std::path::Path` writes for a path: the
/// path quoted, with special characters escaped.
pub uninterp spec fn path_debug_text(p: Seq<char>) -> Seq<char>;

/// What the `Debug` formatting of `Vec<String>` writes for a list of strings.
pub uninterp spec fn string_list_debug_text(v: Seq<Seq<char>>) -> Seq<char>;

/// Calls the `Debug` formatting of `std::path::Path` on `path`. The contract
/// names the result and does not spell out the escaping rules.
#[verifier::external_body]
pub(crate) fn quote_path(path: &str) -> (r: String)
    ensures
        r@ == path_debug_text(path@),
{
    format!("{:?}", std::path::Path::new(path))
}

/// Calls the `Debug` formatting of `Vec<String>` on `v`. The contract names
/// the result and does not spell out the formatting.
#[verifier::external_body]
fn debug_string_list(v: &Vec<String>) -> (r: String)
    ensures
        r@ == string_list_debug_text(views(v@)),
{
    format!("{:?}", v)
}

/// `s` cut to `max` characters, with `…` after a cut.
pub open spec fn truncate_spec(s: Seq<char>, max: nat) -> Seq<char> {
    if s.len() <= max {
        s
    } else {
        s.subrange(0, max as int) + "…"@
    }
}

/// `s` cut to `max` characters, with `…` after a cut.
pub fn truncate(s: &str, max: usize) -> (r: String)
    ensures
        r@ == truncate_spec(s@, max as nat),
{
    proof {
        reveal_strlit("…");
    }
    if s.unicode_len() <= max {
        return s.to_string();
    }
    let mut t = take_chars(s, max);
    t.append("…");
    t
}

/// Whether a file name is that of a Python interpreter (`python.exe`,
/// `pythonw.exe` or `python3.exe` in any ASCII case).
pub open spec fn python_exe_name(name: Seq<char>) -> bool {
    eq_ignore_ascii_case_spec(name, "python.exe"@) || eq_ignore_ascii_case_spec(name, "pythonw.exe"@)
        || eq_ignore_ascii_case_spec(name, "python3.exe"@)
}

/// Whether a file name is that of a Python interpreter, whose folder is then
/// the Python home.
pub fn is_python_exe_name(name: &str) -> (r: bool)
    ensures
        r == python_exe_name(name@),
{
    eq_ignore_ascii_case(name, "python.exe") || eq_ignore_ascii_case(name, "pythonw.exe")
        || eq_ignore_ascii_case(name, "python3.exe")
}

/// The Python text `True` or `False`.
pub open spec fn py_bool(b: bool) -> Seq<char> {
    if b {
        "True"@
    } else {
        "False"@
    }
}

/// The command script run by the helper process: it reads the capture script
/// from the environment and runs it with the delay and flags given.
pub open spec fn runner_code_spec(delay_ms: u64, restore: bool, clipboard_only: bool) -> Seq<char> {
    "import os, runpy, sys\nscript = os.environ[\"QT_CAPTURE_SCRIPT\"]\ndelay = "@ + decimal(delay_ms as nat)
        + "\nrestore = "@ + py_bool(restore) + "\nclipboard_only = "@ + py_bool(clipboard_only)
        + "\nargv = [script, \"--delay-ms\", str(delay)]\nif clipboard_only:\n    argv.append(\"--clipboard-only\")\nif restore:\n    argv.append(\"--restore\")\nsys.argv = argv\nrunpy.run_path(script, run_name=\"__main__\")\n"@
}

/// The name of the environment variable that holds the capture script path.
pub fn capture_script_env() -> (r: String)
    ensures
        r@ == "QT_CAPTURE_SCRIPT"@,
{
    "QT_CAPTURE_SCRIPT".to_string()
}

/// The command script for the helper process.
pub fn capture_runner_code(delay_ms: u64, restore: bool, clipboard_only: bool) -> (r: String)
    ensures
        r@ == runner_code_spec(delay_ms, restore, clipboard_only),
{
    let mut s = cat("import os, runpy, sys\nscript = os.environ[\"QT_CAPTURE_SCRIPT\"]\ndelay = ", u64_text(delay_ms).as_str());
    s.append("\nrestore = ");
    s.append(if restore { "True" } else { "False" });
    s.append("\nclipboard_only = ");
    s.append(if clipboard_only { "True" } else { "False" });
    s.append(
        "\nargv = [script, \"--delay-ms\", str(delay)]\nif clipboard_only:\n    argv.append(\"--clipboard-only\")\nif restore:\n    argv.append(\"--restore\")\nsys.argv = argv\nrunpy.run_path(script, run_name=\"__main__\")\n",
    );
    s
}

/// What the helper run is made of, as written in the diagnostics.
#[derive(Debug, Clone)]
pub struct CaptureRunContext {
    pub python_bin: String,
    pub python_extra: Vec<String>,
    pub script: String,
    pub python_home: Option<String>,
    pub embedded_python: bool,
    pub exe_dir: Option<String>,
    pub delay_ms: u64,
    pub restore: bool,
    pub clipboard_backup: Option<String>,
    pub clipboard_backup_seq: Option<u32>,
    pub clipboard_only: bool,
    pub run_mode: String,
    pub translate_clipboard_guard_sec: u64,
}

/// A quoted optional path, or `None`.
pub open spec fn opt_path_text(p: Option<Seq<char>>) -> Seq<char> {
    match p {
        Some(x) => path_debug_text(x),
        None => "None"@,
    }
}

/// An optional number in decimal, or `None`.
pub open spec fn opt_number_text(o: Option<u32>) -> Seq<char> {
    match o {
        Some(n) => decimal(n as nat),
        None => "None"@,
    }
}

/// The `Debug` text of an optional number: `Some(n)` or `None`.
pub open spec fn opt_debug_text(o: Option<int>) -> Seq<char> {
    match o {
        Some(n) => "Some("@ + signed_decimal(n) + ")"@,
        None => "None"@,
    }
}

/// Byte length of an optional text, 0 when absent.
pub open spec fn opt_byte_len(o: Option<Seq<char>>) -> nat {
    match o {
        Some(s) => byte_len(s),
        None => 0,
    }
}

/// The lines that describe a helper run.
pub open spec fn context_lines(c: CaptureRunContext, python_bin_exists: bool, script_exists: bool) -> Seq<Seq<char>> {
    seq![
        "app_exe_dir: "@ + opt_path_text(opt_view(c.exe_dir)),
        "python_bin: "@ + path_debug_text(c.python_bin@),
        "python_bin_exists: "@ + bool_text_spec(python_bin_exists),
        "python_extra: "@ + string_list_debug_text(views(c.python_extra@)),
        "python_home: "@ + opt_path_text(opt_view(c.python_home)),
        "embedded_python: "@ + bool_text_spec(c.embedded_python),
        "script: "@ + path_debug_text(c.script@),
        "script_exists: "@ + bool_text_spec(script_exists),
        "delay_ms: "@ + decimal(c.delay_ms as nat),
        "restore_clipboard: "@ + bool_text_spec(c.restore),
        "run_mode: "@ + c.run_mode@,
        "clipboard_only: "@ + bool_text_spec(c.clipboard_only),
        "copy_verify_max_sec: "@ + decimal(COPY_VERIFY_MAX_SEC as nat),
        "translate_clipboard_guard_sec: "@ + decimal(c.translate_clipboard_guard_sec as nat),
        "clipboard_backup_len: "@ + decimal(opt_byte_len(opt_view(c.clipboard_backup))),
        "clipboard_backup_seq: "@ + opt_number_text(c.clipboard_backup_seq),
    ]
}

/// The description of a helper run: one line each, every line ended.
pub open spec fn context_text(c: CaptureRunContext, python_bin_exists: bool, script_exists: bool) -> Seq<char> {
    join_spec(context_lines(c, python_bin_exists, script_exists), "\n"@) + "\n"@
}

fn opt_path(p: &Option<String>) -> (r: String)
    ensures
        r@ == opt_path_text(opt_view(*p)),
{
    match p {
        Some(x) => quote_path(x.as_str()),
        None => "None".to_string(),
    }
}

fn opt_number(o: Option<u32>) -> (r: String)
    ensures
        r@ == opt_number_text(o),
{
    match o {
        Some(n) => u64_text(n as u64),
        None => "None".to_string(),
    }
}

fn opt_len(o: &Option<String>) -> (r: u64)
    ensures
        r as nat == opt_byte_len(opt_view(*o)),
{
    match o {
        Some(s) => s.as_str().len() as u64,
        None => 0,
    }
}

fn line(label: &str, value: String) -> (r: String)
    ensures
        r@ == label@ + value@,
{
    cat(label, value.as_str())
}

/// Describes a helper run for the log and for error messages;
/// `python_bin_exists` and `script_exists` tell whether those files exist.
pub fn format_context(ctx: &CaptureRunContext, python_bin_exists: bool, script_exists: bool) -> (r: String)
    ensures
        r@ == context_text(*ctx, python_bin_exists, script_exists),
{
    let mut lines: Vec<String> = Vec::new();
    lines.push(line("app_exe_dir: ", opt_path(&ctx.exe_dir)));
    lines.push(line("python_bin: ", quote_path(ctx.python_bin.as_str())));
    lines.push(line("python_bin_exists: ", bool_text(python_bin_exists)));
    lines.push(line("python_extra: ", debug_string_list(&ctx.python_extra)));
    lines.push(line("python_home: ", opt_path(&ctx.python_home)));
    lines.push(line("embedded_python: ", bool_text(ctx.embedded_python)));
    lines.push(line("script: ", quote_path(ctx.script.as_str())));
    lines.push(line("script_exists: ", bool_text(script_exists)));
    lines.push(line("delay_ms: ", u64_text(ctx.delay_ms)));
    lines.push(line("restore_clipboard: ", bool_text(ctx.restore)));
    lines.push(line("run_mode: ", ctx.run_mode.clone()));
    lines.push(line("clipboard_only: ", bool_text(ctx.clipboard_only)));
    lines.push(line("copy_verify_max_sec: ", u64_text(COPY_VERIFY_MAX_SEC)));
    lines.push(line("translate_clipboard_guard_sec: ", u64_text(ctx.translate_clipboard_guard_sec)));
    lines.push(line("clipboard_backup_len: ", u64_text(opt_len(&ctx.clipboard_backup))));
    lines.push(line("clipboard_backup_seq: ", opt_number(ctx.clipboard_backup_seq)));
    assert(views(lines@) =~= context_lines(*ctx, python_bin_exists, script_exists));
    let mut s = join(&lines, "\n");
    s.append("\n");
    s
}

/// The `Debug` text of an optional exit code.
pub fn exit_code_text(code: Option<i32>) -> (r: String)
    ensures
        r@ == opt_debug_text(
            match code {
                Some(n) => Some(n as int),
                None => None,
            },
        ),
{
    match code {
        Some(n) => {
            let mut s = cat("Some(", i32_text(n).as_str());
            s.append(")");
            s
        },
        None => "None".to_string(),
    }
}

/// The view of an optional exit code.
pub open spec fn code_view(code: Option<i32>) -> Option<int> {
    match code {
        Some(n) => Some(n as int),
        None => None,
    }
}

/// The details of a finished helper process: the run, the exit code, and the
/// output streams that are not empty, cut to 800 and 2000 characters.
pub open spec fn process_detail_spec(context: Seq<char>, code: Option<i32>, stdout: Seq<char>, stderr: Seq<char>) -> Seq<char> {
    context + "exit_code: "@ + opt_debug_text(code_view(code)) + "\n"@ + (if stdout.len() > 0 {
        "stdout: "@ + truncate_spec(stdout, 800) + "\n"@
    } else {
        Seq::empty()
    }) + (if stderr.len() > 0 {
        "stderr: "@ + truncate_spec(stderr, 2000) + "\n"@
    } else {
        Seq::empty()
    })
}

/// Details of a finished helper process; `context` is its [`format_context`].
pub fn build_process_detail(context: &str, exit_code: Option<i32>, stdout: &str, stderr: &str) -> (r: String)
    ensures
        r@ == process_detail_spec(context@, exit_code, stdout@, stderr@),
{
    let mut s = cat(context, "exit_code: ");
    s.append(exit_code_text(exit_code).as_str());
    s.append("\n");
    if stdout.unicode_len() > 0 {
        s.append("stdout: ");
        s.append(truncate(stdout, 800).as_str());
        s.append("\n");
    }
    if stderr.unicode_len() > 0 {
        s.append("stderr: ");
        s.append(truncate(stderr, 2000).as_str());
        s.append("\n");
    }
    s
}

/// An error message about the helper: the title, the details cut to 1200
/// characters, where the logs are, and the interpreter and script used.
pub open spec fn user_error_spec(title: Seq<char>, detail: Seq<char>, hint: Seq<char>, c: CaptureRunContext) -> Seq<char> {
    title + "\n"@ + truncate_spec(detail, 1200) + "\n"@ + hint + "\nPython: "@ + path_debug_text(c.python_bin@)
        + "\n脚本: "@ + path_debug_text(c.script@)
}

/// An error message about the helper; `hint` is the log hint block.
pub fn format_user_error(title: &str, detail: &str, ctx: &CaptureRunContext, hint: &str) -> (r: String)
    ensures
        r@ == user_error_spec(title@, detail@, hint@, *ctx),
{
    let mut s = cat(title, "\n");
    s.append(truncate(detail, 1200).as_str());
    s.append("\n");
    s.append(hint);
    s.append("\nPython: ");
    s.append(quote_path(ctx.python_bin.as_str()).as_str());
    s.append("\n脚本: ");
    s.append(quote_path(ctx.script.as_str()).as_str());
    s
}

/// `message` followed by the log hint on its own line.
pub fn with_log_hint(message: &str, hint: &str) -> (r: String)
    ensures
        r@ == message@ + "\n"@ + hint@,
{
    let mut s = cat(message, "\n");
    s.append(hint);
    s
}

/// Log block of a failed step of the helper run: its tag, the time, the
/// message, and the description of the run when there is one.
pub open spec fn failure_log_spec(tag: Seq<char>, timestamp: Seq<char>, message: Seq<char>, context: Option<Seq<char>>) -> Seq<char> {
    "\n=== ["@ + tag + "] "@ + timestamp + " ===\n"@ + message + "\n"@ + match context {
        Some(c) => c,
        None => Seq::empty(),
    }
}

/// Log block of a failed step of the helper run.
pub fn failure_log(tag: &str, timestamp: &str, message: &str, context: Option<&str>) -> (r: String)
    ensures
        r@ == failure_log_spec(tag@, timestamp@, message@, opt_str_view(context)),
{
    let mut s = cat("\n=== [", tag);
    s.append("] ");
    s.append(timestamp);
    s.append(" ===\n");
    s.append(message);
    s.append("\n");
    match context {
        Some(c) => s.append(c),
        None => {},
    }
    s
}

/// Log block of a decision of the capture pipeline.
pub open spec fn pipeline_log_spec(tag: Seq<char>, timestamp: Seq<char>, detail: Seq<char>) -> Seq<char> {
    "\n=== [capture-pipeline:"@ + tag + "] "@ + timestamp + " ===\n"@ + detail + "\n"@
}

/// Log block of a decision of the capture pipeline.
pub fn pipeline_log(tag: &str, timestamp: &str, detail: &str) -> (r: String)
    ensures
        r@ == pipeline_log_spec(tag@, timestamp@, detail@),
{
    let mut s = cat("\n=== [capture-pipeline:", tag);
    s.append("] ");
    s.append(timestamp);
    s.append(" ===\n");
    s.append(detail);
    s.append("\n");
    s
}

/// Log block with the raw output of the helper process; the byte counts are
/// those of the raw streams, the texts are cut to 4000 characters.
pub fn output_log(
    timestamp: &str,
    exit_code: Option<i32>,
    context: &str,
    stdout_bytes: u64,
    stdout: &str,
    stderr_bytes: u64,
    stderr: &str,
) -> (r: String)
    ensures
        r@ == "\n=== [capture] "@ + timestamp@ + " exit="@ + opt_debug_text(code_view(exit_code)) + " ===\n"@
            + context@ + "note: stdout 为 Python 原始 JSON；Rust 最终判定见 [capture-pipeline:post-python]\n"@
            + "stdout ("@ + decimal(stdout_bytes as nat) + " bytes):\n"@ + truncate_spec(stdout@, 4000)
            + "\nstderr ("@ + decimal(stderr_bytes as nat) + " bytes):\n"@ + truncate_spec(stderr@, 4000)
            + "\n"@,
{
    let mut s = cat("\n=== [capture] ", timestamp);
    s.append(" exit=");
    s.append(exit_code_text(exit_code).as_str());
    s.append(" ===\n");
    s.append(context);
    s.append("note: stdout 为 Python 原始 JSON；Rust 最终判定见 [capture-pipeline:post-python]\n");
    s.append("stdout (");
    s.append(u64_text(stdout_bytes).as_str());
    s.append(" bytes):\n");
    s.append(truncate(stdout, 4000).as_str());
    s.append("\nstderr (");
    s.append(u64_text(stderr_bytes).as_str());
    s.append(" bytes):\n");
    s.append(truncate(stderr, 4000).as_str());
    s.append("\n");
    s
}

/// What the helper answered, as far as the capture reads it: the fields of
/// its JSON answer, its diagnostics as text, and the two clipboard sequence
/// numbers in them (`None` where absent or not an unsigned integer).
#[derive(Debug, Clone)]
pub struct PythonCaptureOutput {
    pub ok: bool,
    pub text: Option<String>,
    pub error: Option<String>,
    pub restored_clipboard: Option<bool>,
    pub diagnostics: Option<String>,
    pub diag_backup_seq: Option<u64>,
    pub diag_seq_after: Option<u64>,
}

/// The outcome of a helper capture, and the log block to write for it.
#[derive(Debug)]
pub struct PythonCaptureVerdict {
    pub result: SelectionResult,
    pub log: Option<String>,
}

/// The helper's error, or a generic one.
pub open spec fn helper_raw_error(p: PythonCaptureOutput) -> Seq<char> {
    match p.error {
        Some(e) => e@,
        None => "Python 取词失败"@,
    }
}

/// The helper's error, normalised when it reports a failed copy.
pub open spec fn helper_message(raw: Seq<char>) -> Seq<char> {
    if helper_copy_failure(raw) {
        normalized_helper_error(raw)
    } else {
        raw
    }
}

/// Whether the helper's error means that nothing was selected.
pub open spec fn helper_says_nothing_selected(raw: Seq<char>) -> bool {
    let m = helper_message(raw);
    !helper_copy_failure(raw) && (has_infix(m, "剪贴板无"@) || has_infix(m, "empty-clipboard"@) || has_infix(
        m,
        "无文本"@,
    ) || helper_no_selection(m))
}

/// Whether the clipboard before the capture holds the stale text of the latest
/// translation.
pub open spec fn backup_is_stale(c: CaptureRunContext, history: Seq<HistoryRecord>, now_ms: u64) -> bool {
    match c.clipboard_backup {
        Some(b) => trim_spec(b@).len() > 0 && stale_reuse(
            history,
            now_ms,
            c.translate_clipboard_guard_sec,
            trim_spec(b@),
            Some(trim_spec(b@)),
            false,
        ),
        None => false,
    }
}

/// Whether a refusal by the helper is logged as a failed copy.
pub open spec fn refusal_is_copy_failure(p: PythonCaptureOutput, c: CaptureRunContext, history: Seq<HistoryRecord>, now_ms: u64) -> bool {
    !backup_is_stale(c, history, now_ms) && helper_copy_failure(helper_raw_error(p))
}

/// The message for a refusal by the helper: the request to select text when
/// nothing was selected or the clipboard holds stale text; the copy error as
/// it is; any other error with the diagnostics and the log hint.
pub open spec fn refusal_message(p: PythonCaptureOutput, c: CaptureRunContext, history: Seq<HistoryRecord>, now_ms: u64, hint: Seq<char>) -> Seq<char> {
    let raw = helper_raw_error(p);
    let m = helper_message(raw);
    if backup_is_stale(c, history, now_ms) || helper_says_nothing_selected(raw) {
        no_selection_spec()
    } else if helper_copy_failure(raw) {
        m
    } else {
        m + (match p.diagnostics {
            Some(d) => "\n诊断: "@ + d@,
            None => Seq::empty(),
        }) + "\n"@ + hint
    }
}

/// The trimmed text the helper captured.
pub open spec fn helper_text(p: PythonCaptureOutput) -> Seq<char> {
    trim_spec(
        match p.text {
            Some(t) => t@,
            None => Seq::empty(),
        },
    )
}

/// The view of an optional unsigned number as a number.
pub open spec fn u32_code(o: Option<u32>) -> Option<int> {
    match o {
        Some(n) => Some(n as int),
        None => None,
    }
}

/// The diagnostics written after a successful helper answer.
pub open spec fn post_python_detail(p: PythonCaptureOutput, c: CaptureRunContext, history: Seq<HistoryRecord>, now_ms: u64, seq_after_python: Option<u32>) -> Seq<char> {
    let text = helper_text(p);
    let changed = sequence_changed_spec(p.diag_backup_seq, p.diag_seq_after);
    "python_json_ok: true\ncaptured_len: "@ + decimal(byte_len(text)) + "\nhotkey_backup_len: "@ + decimal(
        opt_byte_len(opt_view(c.clipboard_backup)),
    ) + "\nhotkey_backup_seq: "@ + opt_number_text(c.clipboard_backup_seq) + "\nseq_after_python: "@
        + opt_debug_text(u32_code(seq_after_python)) + "\ntext_eq_backup: "@ + bool_text_spec(
        match c.clipboard_backup {
            Some(b) => trim_spec(b@) == text,
            None => false,
        },
    ) + "\nclipboard_sequence_changed: "@ + bool_text_spec(changed) + "\n"@ + join_spec(
        stale_debug_lines(history, now_ms, c.translate_clipboard_guard_sec, text, opt_view(c.clipboard_backup), changed),
        "\n"@,
    ) + "\nfinal_result: PASS python_capture → 进入翻译"@
}

/// The reading of a helper run whose process finished. `context` is the
/// description of the run, `stdout` and `stderr` its decoded output, `parsed`
/// the JSON answer read from the trimmed `stdout` (or the parse error),
/// `history` and `now_ms` serve the stale-clipboard guard, `seq_after_python`
/// is the clipboard sequence number read afterwards, `hint` the log hint,
/// `timestamp` the time for the log and `duration_ms` the time the capture took.
pub open spec fn verdict_spec(
    c: CaptureRunContext,
    context: Seq<char>,
    exit_code: Option<i32>,
    stdout: Seq<char>,
    stderr: Seq<char>,
    parsed: Result<PythonCaptureOutput, String>,
    history: Seq<HistoryRecord>,
    now_ms: u64,
    seq_after_python: Option<u32>,
    hint: Seq<char>,
    timestamp: Seq<char>,
    duration_ms: u64,
) -> (SelectionView, Option<Seq<char>>) {
    let detail = process_detail_spec(context, exit_code, stdout, stderr);
    if trim_spec(stdout).len() == 0 {
        (failed_view(user_error_spec("Python 取词无输出"@, detail, hint, c), false, duration_ms), None)
    } else {
        match parsed {
            Err(e) => (
                failed_view("解析 Python 输出失败: "@ + e@ + "\n"@ + detail + "\n"@ + hint, false, duration_ms),
                None,
            ),
            Ok(p) => if !p.ok {
                (
                    failed_view(refusal_message(p, c, history, now_ms, hint), false, duration_ms),
                    if refusal_is_copy_failure(p, c, history, now_ms) {
                        Some(
                            failure_log_spec(
                                "copy-verify"@,
                                timestamp,
                                helper_message(helper_raw_error(p)),
                                Some(context),
                            ),
                        )
                    } else {
                        None
                    },
                )
            } else {
                let text = helper_text(p);
                let log = Some(
                    pipeline_log_spec(
                        "post-python"@,
                        timestamp,
                        post_python_detail(p, c, history, now_ms, seq_after_python),
                    ),
                );
                if text.len() == 0 {
                    (failed_view(no_selection_spec(), false, duration_ms), log)
                } else {
                    (
                        SelectionView {
                            ok: true,
                            text: Some(text),
                            error: None,
                            restored_clipboard: match p.restored_clipboard {
                                Some(b) => b,
                                None => false,
                            },
                            duration_ms: duration_ms,
                            clipboard_sequence_changed: sequence_changed_spec(p.diag_backup_seq, p.diag_seq_after),
                        },
                        log,
                    )
                }
            },
        }
    }
}

fn opt_u32_debug(o: Option<u32>) -> (r: String)
    ensures
        r@ == opt_debug_text(u32_code(o)),
{
    match o {
        Some(n) => {
            let mut s = cat("Some(", u64_text(n as u64).as_str());
            s.append(")");
            s
        },
        None => "None".to_string(),
    }
}

fn backup_stale(ctx: &CaptureRunContext, history: &Vec<HistoryRecord>, now_ms: u64) -> (r: bool)
    ensures
        r == backup_is_stale(*ctx, history@, now_ms),
{
    match &ctx.clipboard_backup {
        Some(b) => {
            let norm = trim(b.as_str());
            norm.unicode_len() > 0 && is_stale_history_clipboard_reuse(
                history,
                now_ms,
                ctx.translate_clipboard_guard_sec,
                norm,
                Some(norm),
                false,
            )
        },
        None => false,
    }
}

fn post_detail(
    p: &PythonCaptureOutput,
    ctx: &CaptureRunContext,
    history: &Vec<HistoryRecord>,
    now_ms: u64,
    seq_after_python: Option<u32>,
) -> (r: String)
    ensures
        r@ == post_python_detail(*p, *ctx, history@, now_ms, seq_after_python),
{
    proof {
        reveal_strlit("");
    }
    let raw: &str = match &p.text {
        Some(t) => t.as_str(),
        None => "",
    };
    let text = trim(raw);
    let changed = clipboard_sequence_changed_from_diag(p.diag_backup_seq, p.diag_seq_after);
    let eq_backup = match &ctx.clipboard_backup {
        Some(b) => str_eq(trim(b.as_str()), text),
        None => false,
    };
    let mut s = cat("python_json_ok: true\ncaptured_len: ", u64_text(text.len() as u64).as_str());
    s.append("\nhotkey_backup_len: ");
    s.append(u64_text(opt_len(&ctx.clipboard_backup)).as_str());
    s.append("\nhotkey_backup_seq: ");
    s.append(opt_number(ctx.clipboard_backup_seq).as_str());
    s.append("\nseq_after_python: ");
    s.append(opt_u32_debug(seq_after_python).as_str());
    s.append("\ntext_eq_backup: ");
    s.append(bool_text(eq_backup).as_str());
    s.append("\nclipboard_sequence_changed: ");
    s.append(bool_text(changed).as_str());
    s.append("\n");
    let debug = stale_history_clipboard_debug(
        history,
        now_ms,
        ctx.translate_clipboard_guard_sec,
        text,
        opt_as_str(&ctx.clipboard_backup),
        changed,
    );
    assert(text@ == helper_text(*p));
    assert(changed == sequence_changed_spec(p.diag_backup_seq, p.diag_seq_after));
    assert(eq_backup == match ctx.clipboard_backup {
        Some(b) => trim_spec(b@) == text@,
        None => false,
    });
    s.append(debug.as_str());
    s.append("\nfinal_result: PASS python_capture → 进入翻译");
    s
}

fn refusal(
    p: &PythonCaptureOutput,
    ctx: &CaptureRunContext,
    history: &Vec<HistoryRecord>,
    now_ms: u64,
    hint: &str,
) -> (r: (String, bool))
    ensures
        r.0@ == refusal_message(*p, *ctx, history@, now_ms, hint@),
        r.1 == refusal_is_copy_failure(*p, *ctx, history@, now_ms),
{
    let raw: String = match &p.error {
        Some(e) => e.clone(),
        None => "Python 取词失败".to_string(),
    };
    let copy0 = is_copy_failure_message(raw.as_str());
    let m: String = if copy0 {
        normalize_python_capture_error(raw.as_str())
    } else {
        raw.clone()
    };
    let nosel0 = !copy0 && (contains(m.as_str(), "剪贴板无") || contains(m.as_str(), "empty-clipboard")
        || contains(m.as_str(), "无文本") || is_no_selection_message(m.as_str()));
    let stale = backup_stale(ctx, history, now_ms);
    if stale || nosel0 {
        return (msg_no_selection(), false);
    }
    if copy0 {
        return (m, true);
    }
    let mut msg = m;
    match &p.diagnostics {
        Some(d) => {
            msg.append("\n诊断: ");
            msg.append(d.as_str());
        },
        None => {},
    }
    msg.append("\n");
    msg.append(hint);
    (msg, false)
}

/// Reads a finished helper run: see [`verdict_spec`].
pub fn interpret_python_output(
    ctx: &CaptureRunContext,
    context: &str,
    exit_code: Option<i32>,
    stdout: &str,
    stderr: &str,
    parsed: Result<PythonCaptureOutput, String>,
    history: &Vec<HistoryRecord>,
    now_ms: u64,
    seq_after_python: Option<u32>,
    hint: &str,
    timestamp: &str,
    duration_ms: u64,
) -> (r: PythonCaptureVerdict)
    ensures
        (r.result@, opt_view(r.log)) == verdict_spec(
            *ctx,
            context@,
            exit_code,
            stdout@,
            stderr@,
            parsed,
            history@,
            now_ms,
            seq_after_python,
            hint@,
            timestamp@,
            duration_ms,
        ),
{
    let detail = build_process_detail(context, exit_code, stdout, stderr);
    if trim(stdout).unicode_len() == 0 {
        let msg = format_user_error("Python 取词无输出", detail.as_str(), ctx, hint);
        return PythonCaptureVerdict { result: selection_failed(msg, false, duration_ms), log: None };
    }
    match parsed {
        Err(e) => {
            let mut msg = cat("解析 Python 输出失败: ", e.as_str());
            msg.append("\n");
            msg.append(detail.as_str());
            msg.append("\n");
            msg.append(hint);
            PythonCaptureVerdict { result: selection_failed(msg, false, duration_ms), log: None }
        },
        Ok(p) => {
            if !p.ok {
                let (msg, copy_fail) = refusal(&p, ctx, history, now_ms, hint);
                let log = if copy_fail {
                    Some(failure_log("copy-verify", timestamp, msg.as_str(), Some(context)))
                } else {
                    None
                };
                return PythonCaptureVerdict { result: selection_failed(msg, false, duration_ms), log };
            }
            let detail_ok = post_detail(&p, ctx, history, now_ms, seq_after_python);
            let log = Some(pipeline_log("post-python", timestamp, detail_ok.as_str()));
            proof {
                reveal_strlit("");
            }
            let raw: &str = match &p.text {
                Some(t) => t.as_str(),
                None => "",
            };
            let text = trim(raw);
            if text.unicode_len() == 0 {
                return PythonCaptureVerdict {
                    result: selection_failed(msg_no_selection(), false, duration_ms),
                    log,
                };
            }
            let result = SelectionResult {
                ok: true,
                text: Some(text.to_string()),
                error: None,
                restored_clipboard: match p.restored_clipboard {
                    Some(b) => b,
                    None => false,
                },
                duration_ms,
                clipboard_sequence_changed: clipboard_sequence_changed_from_diag(p.diag_backup_seq, p.diag_seq_after),
            };
            PythonCaptureVerdict { result, log }
        },
    }
}

/// A change to the environment of the helper process.
#[derive(Debug)]
pub enum EnvChange {
    /// Set the variable to the value.
    Assign(String, String),
    /// Remove the variable.
    Remove(String),
}

/// An environment change with its texts taken by their characters.
pub enum EnvView {
    Assign(Seq<char>, Seq<char>),
    Remove(Seq<char>),
}

impl View for EnvChange {
    type V = EnvView;

    open spec fn view(&self) -> EnvView {
        match self {
            EnvChange::Assign(k, v) => EnvView::Assign(k@, v@),
            EnvChange::Remove(k) => EnvView::Remove(k@),
        }
    }
}

/// The views of a list of environment changes.
pub open spec fn env_views(v: Seq<EnvChange>) -> Seq<EnvView> {
    v.map_values(|e: EnvChange| e@)
}

/// The environment for a Python interpreter whose home folder is `home`
/// (already without the extended-length prefix): no inherited `PYTHONHOME`,
/// UTF-8 streams, no user site packages; `PYTHONHOME` set to the home unless
/// it is an embedded distribution, which finds its library by itself; and
/// `PYTHONPATH` set to the `Lib\site-packages` folder when that exists.
pub open spec fn python_env_spec(home: Seq<char>, embedded: bool, site_packages: Option<Seq<char>>) -> Seq<EnvView> {
    seq![
        EnvView::Remove("PYTHONHOME"@),
        EnvView::Assign("PYTHONIOENCODING"@, "utf-8"@),
        EnvView::Assign("PYTHONUTF8"@, "1"@),
        EnvView::Assign("PYTHONNOUSERSITE"@, "1"@),
    ] + (if !embedded {
        seq![EnvView::Assign("PYTHONHOME"@, home)]
    } else {
        Seq::empty()
    }) + (match site_packages {
        Some(p) => seq![EnvView::Assign("PYTHONPATH"@, p)],
        None => Seq::empty(),
    })
}

fn push_env(v: &mut Vec<EnvChange>, e: EnvChange)
    ensures
        env_views(final(v)@) == env_views(old(v)@).push(e@),
{
    let ghost ev = e@;
    v.push(e);
    assert(env_views(v@) =~= env_views(old(v)@).push(ev));
}

fn set_env(v: &mut Vec<EnvChange>, key: &str, value: &str)
    ensures
        env_views(final(v)@) == env_views(old(v)@).push(EnvView::Assign(key@, value@)),
{
    push_env(v, EnvChange::Assign(key.to_string(), value.to_string()));
}

fn remove_env(v: &mut Vec<EnvChange>, key: &str)
    ensures
        env_views(final(v)@) == env_views(old(v)@).push(EnvView::Remove(key@)),
{
    push_env(v, EnvChange::Remove(key.to_string()));
}

fn append_python_env(v: &mut Vec<EnvChange>, home: &str, embedded: bool, site_packages: Option<&str>)
    ensures
        env_views(final(v)@) == env_views(old(v)@) + python_env_spec(home@, embedded, opt_str_view(site_packages)),
{
    let ghost before = env_views(v@);
    remove_env(v, "PYTHONHOME");
    set_env(v, "PYTHONIOENCODING", "utf-8");
    set_env(v, "PYTHONUTF8", "1");
    set_env(v, "PYTHONNOUSERSITE", "1");
    if !embedded {
        set_env(v, "PYTHONHOME", home);
    }
    match site_packages {
        Some(p) => set_env(v, "PYTHONPATH", p),
        None => {},
    }
    assert(env_views(v@) =~= before + python_env_spec(home@, embedded, opt_str_view(site_packages)));
}

/// The environment for the Python interpreter in `home`; `site_packages` is
/// its `Lib\site-packages` folder when that exists.
pub fn python_env(home: &str, embedded: bool, site_packages: Option<&str>) -> (r: Vec<EnvChange>)
    ensures
        env_views(r@) == python_env_spec(strip_extended_prefix_spec(home@), embedded, opt_str_view(site_packages)),
{
    let mut v: Vec<EnvChange> = Vec::new();
    let h = subprocess_path(home);
    assert(env_views(v@) =~= Seq::<EnvView>::empty());
    append_python_env(&mut v, h.as_str(), embedded, site_packages);
    assert(env_views(v@) =~= python_env_spec(h@, embedded, opt_str_view(site_packages)));
    v
}

/// The environment of the capture helper: that of its Python home, or only
/// UTF-8 streams without one; the script path, the longest wait for the copy,
/// and the clipboard text and sequence number from before the copy (removed
/// when unknown, so that nothing inherited is taken for them).
pub open spec fn capture_env_spec(c: CaptureRunContext, site_packages: Option<Seq<char>>) -> Seq<EnvView> {
    (match c.python_home {
        Some(h) => python_env_spec(strip_extended_prefix_spec(h@), c.embedded_python, site_packages),
        None => seq![EnvView::Assign("PYTHONIOENCODING"@, "utf-8"@), EnvView::Assign("PYTHONUTF8"@, "1"@)],
    }) + seq![
        EnvView::Assign("QT_CAPTURE_SCRIPT"@, c.script@),
        EnvView::Assign("QT_COPY_MAX_WAIT_SEC"@, decimal(COPY_VERIFY_MAX_SEC as nat)),
    ] + seq![
        match c.clipboard_backup {
            Some(b) => EnvView::Assign("QT_CLIPBOARD_BACKUP"@, b@),
            None => EnvView::Remove("QT_CLIPBOARD_BACKUP"@),
        },
        match c.clipboard_backup_seq {
            Some(n) => EnvView::Assign("QT_CLIPBOARD_BACKUP_SEQ"@, decimal(n as nat)),
            None => EnvView::Remove("QT_CLIPBOARD_BACKUP_SEQ"@),
        },
    ]
}

/// The environment changes for the capture helper; `site_packages` is the
/// `Lib\site-packages` folder of its Python home when that exists.
pub fn capture_env(ctx: &CaptureRunContext, site_packages: Option<&str>) -> (r: Vec<EnvChange>)
    ensures
        env_views(r@) == capture_env_spec(*ctx, opt_str_view(site_packages)),
{
    let mut v: Vec<EnvChange> = Vec::new();
    assert(env_views(v@) =~= Seq::<EnvView>::empty());
    match &ctx.python_home {
        Some(h) => {
            let home = subprocess_path(h.as_str());
            append_python_env(&mut v, home.as_str(), ctx.embedded_python, site_packages);
        },
        None => {
            set_env(&mut v, "PYTHONIOENCODING", "utf-8");
            set_env(&mut v, "PYTHONUTF8", "1");
        },
    }
    let ghost head = env_views(v@);
    set_env(&mut v, "QT_CAPTURE_SCRIPT", ctx.script.as_str());
    let wait = u64_text(COPY_VERIFY_MAX_SEC);
    set_env(&mut v, "QT_COPY_MAX_WAIT_SEC", wait.as_str());
    match &ctx.clipboard_backup {
        Some(b) => set_env(&mut v, "QT_CLIPBOARD_BACKUP", b.as_str()),
        None => remove_env(&mut v, "QT_CLIPBOARD_BACKUP"),
    }
    match ctx.clipboard_backup_seq {
        Some(n) => {
            let t = u64_text(n as u64);
            set_env(&mut v, "QT_CLIPBOARD_BACKUP_SEQ", t.as_str());
        },
        None => remove_env(&mut v, "QT_CLIPBOARD_BACKUP_SEQ"),
    }
    assert(env_views(v@) =~= capture_env_spec(*ctx, opt_str_view(site_packages)));
    v
}

/// The arguments of the capture helper: the interpreter's own extra
/// arguments, then unbuffered output and the command script.
pub open spec fn capture_args_spec(c: CaptureRunContext) -> Seq<Seq<char>> {
    views(c.python_extra@) + seq!["-u"@, "-c"@, runner_code_spec(c.delay_ms, c.restore, c.clipboard_only)]
}

/// The arguments of the capture helper.
pub fn capture_args(ctx: &CaptureRunContext) -> (r: Vec<String>)
    ensures
        views(r@) == capture_args_spec(*ctx),
{
    let mut v: Vec<String> = Vec::new();
    let n = ctx.python_extra.len();
    let mut i: usize = 0;
    while i < n
        invariant
            n == ctx.python_extra@.len(),
            i <= n,
            v@ =~= ctx.python_extra@.take(i as int),
        decreases n - i,
    {
        v.push(ctx.python_extra[i].clone());
        i = i + 1;
    }
    assert(v@ =~= ctx.python_extra@);
    v.push("-u".to_string());
    v.push("-c".to_string());
    v.push(capture_runner_code(ctx.delay_ms, ctx.restore, ctx.clipboard_only));
    assert(views(v@) =~= capture_args_spec(*ctx));
    v
}

/// The error when no Python interpreter is found.
pub fn msg_python_not_found() -> (r: String)
    ensures
        r@ == "未找到 pythonw.exe（安装目录应有 python/pythonw.exe）。请执行 npm run prepare:python 后重新打包。"@,
{
    "未找到 pythonw.exe（安装目录应有 python/pythonw.exe）。请执行 npm run prepare:python 后重新打包。".to_string()
}

/// The error when the capture script is not found.
pub fn msg_script_not_found() -> (r: String)
    ensures
        r@ == "找不到取词脚本 capture_clipboard.py"@,
{
    "找不到取词脚本 capture_clipboard.py".to_string()
}

/// The error when the helper process could not be started.
pub fn spawn_error(python_bin: &str, error: &str) -> (r: String)
    ensures
        r@ == "无法启动 "@ + path_debug_text(python_bin@) + ": "@ + error@,
{
    let mut s = cat("无法启动 ", quote_path(python_bin).as_str());
    s.append(": ");
    s.append(error);
    s
}

/// Where the bundled interpreter is looked for, beside the program; only the
/// windowless `pythonw.exe`, so that no console window opens.
pub fn bundled_python_candidates() -> (r: Vec<String>)
    ensures
        views(r@) == seq!["python/pythonw.exe"@, "resources/python/pythonw.exe"@],
{
    let mut v: Vec<String> = Vec::new();
    v.push("python/pythonw.exe".to_string());
    v.push("resources/python/pythonw.exe".to_string());
    assert(views(v@) =~= seq!["python/pythonw.exe"@, "resources/python/pythonw.exe"@]);
    v
}

/// Where the capture script is looked for, beside the program.
pub fn capture_script_candidates() -> (r: Vec<String>)
    ensures
        views(r@) == seq![
            "resources/capture_clipboard.py"@,
            "scripts/capture_clipboard.py"@,
            "capture_clipboard.py"@,
        ],
{
    let mut v: Vec<String> = Vec::new();
    v.push("resources/capture_clipboard.py".to_string());
    v.push("scripts/capture_clipboard.py".to_string());
    v.push("capture_clipboard.py".to_string());
    assert(views(v@) =~= seq![
        "resources/capture_clipboard.py"@,
        "scripts/capture_clipboard.py"@,
        "capture_clipboard.py"@,
    ]);
    v
}

/// The wait handed to the helper after its copy: the configured delay, at
/// least 80 ms.
pub fn helper_delay_ms(copy_delay_ms: u64) -> (r: u64)
    ensures
        r == if copy_delay_ms < 80 { 80 } else { copy_delay_ms },
{
    if copy_delay_ms < 80 {
        80
    } else {
        copy_delay_ms
    }
}

/// The helper run for the given interpreter, script and clipboard state: the
/// paths without the extended-length prefix, the delay of at least 80 ms, the
/// restore flag and the stale-clipboard guard of the settings, a full capture
/// (not only a read of the clipboard) by pyautogui.
pub fn capture_run_context(
    settings: &TranslateSettings,
    python_bin: &str,
    python_extra: Vec<String>,
    script: &str,
    python_home: Option<String>,
    embedded_python: bool,
    exe_dir: Option<&str>,
    clipboard_backup: Option<String>,
    clipboard_backup_seq: Option<u32>,
) -> (r: CaptureRunContext)
    ensures
        r.python_bin@ == strip_extended_prefix_spec(python_bin@),
        r.python_extra == python_extra,
        r.script@ == strip_extended_prefix_spec(script@),
        r.python_home == python_home,
        r.embedded_python == embedded_python,
        opt_view(r.exe_dir) == match exe_dir {
            Some(d) => Some(strip_extended_prefix_spec(d@)),
            None => None,
        },
        r.delay_ms == if settings.copy_delay_ms < 80 { 80 } else { settings.copy_delay_ms },
        r.restore == settings.restore_clipboard,
        r.clipboard_backup == clipboard_backup,
        r.clipboard_backup_seq == clipboard_backup_seq,
        !r.clipboard_only,
        r.run_mode@ == "python_only_pyautogui"@,
        r.translate_clipboard_guard_sec == settings.translate_clipboard_guard_sec,
{
    CaptureRunContext {
        python_bin: subprocess_path(python_bin),
        python_extra,
        script: subprocess_path(script),
        python_home,
        embedded_python,
        exe_dir: match exe_dir {
            Some(d) => Some(subprocess_path(d)),
            None => None,
        },
        delay_ms: helper_delay_ms(settings.copy_delay_ms),
        restore: settings.restore_clipboard,
        clipboard_backup,
        clipboard_backup_seq,
        clipboard_only: false,
        run_mode: "python_only_pyautogui".to_string(),
        translate_clipboard_guard_sec: settings.translate_clipboard_guard_sec,
    }
}

/// The outcome when the script or the interpreter could not be found: the
/// error with the log hint, and the log block under `tag`.
pub fn resolve_failure(tag: &str, error: &str, timestamp: &str, hint: &str, duration_ms: u64) -> (r: PythonCaptureVerdict)
    ensures
        r.result@ == failed_view(error@ + "\n"@ + hint@, false, duration_ms),
        opt_view(r.log) == Some(failure_log_spec(tag@, timestamp@, error@, None)),
{
    PythonCaptureVerdict {
        result: selection_failed(with_log_hint(error, hint), false, duration_ms),
        log: Some(failure_log(tag, timestamp, error, None)),
    }
}

/// The outcome when the helper process could not be started: the error with
/// the details of the run, and the log block with its description.
pub fn spawn_failure(
    ctx: &CaptureRunContext,
    context: &str,
    error: &str,
    timestamp: &str,
    hint: &str,
    duration_ms: u64,
) -> (r: PythonCaptureVerdict)
    ensures
        r.result@ == failed_view(user_error_spec("无法启动 Python 取词"@, error@, hint@, *ctx), false, duration_ms),
        opt_view(r.log) == Some(failure_log_spec("spawn"@, timestamp@, error@, Some(context@))),
{
    PythonCaptureVerdict {
        result: selection_failed(format_user_error("无法启动 Python 取词", error, ctx, hint), false, duration_ms),
        log: Some(failure_log("spawn", timestamp, error, Some(context))),
    }
}

} // verus!
