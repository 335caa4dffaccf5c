//! The window that a hotkey was pressed in, and what the paste sequence
//! reports of the modifier keys it had to release.

use crate::text::{bool_text, bool_text_spec, cat, isize_text, join, join_spec, signed_decimal, str_eq, views};
use vstd::prelude::*;

verus! {

broadcast use vstd::string::group_string_axioms;

/// Handle of the foreground window at the moment the hotkey was pressed
/// (0 when there was none).
#[derive(Debug, Clone, Copy, PartialEq, Eq, Structural)]
pub struct TargetHwnd(pub isize);

impl TargetHwnd {
    /// A handle of 0 names no window.
    pub fn is_valid(self) -> (r: bool)
        ensures
            r == (self.0 != 0),
    {
        self.0 != 0
    }
}

/// The report of released modifier keys: their names joined with `,`, or
/// `none` when no key had to be released.
pub open spec fn release_report_spec(names: Seq<Seq<char>>) -> Seq<char> {
    if names.len() == 0 {
        "none"@
    } else {
        join_spec(names, ","@)
    }
}

/// The report written to the log after stuck modifier keys were released.
pub fn release_report(released: &Vec<String>) -> (r: String)
    ensures
        r@ == release_report_spec(views(released@)),
{
    if released.len() == 0 {
        "none".to_string()
    } else {
        join(released, ",")
    }
}

/// The error when there is no window to copy from.
pub fn msg_no_foreground_window() -> (r: String)
    ensures
        r@ == "未找到前台窗口，请先聚焦到要翻译的应用"@,
{
    "未找到前台窗口，请先聚焦到要翻译的应用".to_string()
}

/// The error when there is no window to paste into.
pub fn msg_no_paste_target() -> (r: String)
    ensures
        r@ == "未找到目标窗口"@,
{
    "未找到目标窗口".to_string()
}

/// The error of a simulated copy where the platform has none.
pub fn msg_copy_unsupported() -> (r: String)
    ensures
        r@ == "当前平台不支持模拟复制"@,
{
    "当前平台不支持模拟复制".to_string()
}

/// The error of a simulated paste where the platform has none.
pub fn msg_paste_unsupported() -> (r: String)
    ensures
        r@ == "当前平台不支持模拟粘贴"@,
{
    "当前平台不支持模拟粘贴".to_string()
}

/// Whether the paste waits a moment after releasing modifier keys: only when
/// some key had to be released.
pub fn settle_after_release(report: &str) -> (r: bool)
    ensures
        r == (report@ != "none"@),
{
    !str_eq(report, "none")
}

/// Log line when the paste is given no window.
pub fn paste_abort_log(timestamp: &str) -> (r: String)
    ensures
        r@ == "=== [simulate-paste] "@ + timestamp@ + " abort: invalid_target ===\n"@,
{
    let mut s = cat("=== [simulate-paste] ", timestamp);
    s.append(" abort: invalid_target ===\n");
    s
}

/// Log block when the paste starts, with the foreground window before it.
pub fn paste_start_log(timestamp: &str, target: TargetHwnd, foreground_before: TargetHwnd) -> (r: String)
    ensures
        r@ == "=== [simulate-paste:start] "@ + timestamp@ + " ===\ntarget_hwnd: "@ + signed_decimal(target.0 as int)
            + "\nforeground_before: "@ + signed_decimal(foreground_before.0 as int) + "\n"@,
{
    let mut s = cat("=== [simulate-paste:start] ", timestamp);
    s.append(" ===\ntarget_hwnd: ");
    s.append(isize_text(target.0).as_str());
    s.append("\nforeground_before: ");
    s.append(isize_text(foreground_before.0).as_str());
    s.append("\n");
    s
}

/// Log block with the modifier keys released before the paste.
pub fn paste_modifiers_log(timestamp: &str, released: &str) -> (r: String)
    ensures
        r@ == "=== [simulate-paste:modifiers] "@ + timestamp@ + " ===\nreleased: "@ + released@ + "\n"@,
{
    let mut s = cat("=== [simulate-paste:modifiers] ", timestamp);
    s.append(" ===\nreleased: ");
    s.append(released);
    s.append("\n");
    s
}

/// Log line when a step of the paste (`focus` or `send`) failed.
pub fn paste_step_failed_log(step: &str, timestamp: &str, error: &str) -> (r: String)
    ensures
        r@ == "=== [simulate-paste:"@ + step@ + "] "@ + timestamp@ + " failed: "@ + error@ + " ===\n"@,
{
    let mut s = cat("=== [simulate-paste:", step);
    s.append("] ");
    s.append(timestamp);
    s.append(" failed: ");
    s.append(error);
    s.append(" ===\n");
    s
}

/// Log block after the target was focused: the foreground window and whether
/// it is the target.
pub fn paste_focus_log(timestamp: &str, foreground_after: TargetHwnd, target: TargetHwnd) -> (r: String)
    ensures
        r@ == "=== [simulate-paste:focus] "@ + timestamp@ + " ===\nforeground_after: "@ + signed_decimal(
            foreground_after.0 as int,
        ) + "\nfocus_matched_target: "@ + bool_text_spec(foreground_after.0 == target.0) + "\n"@,
{
    let mut s = cat("=== [simulate-paste:focus] ", timestamp);
    s.append(" ===\nforeground_after: ");
    s.append(isize_text(foreground_after.0).as_str());
    s.append("\nfocus_matched_target: ");
    s.append(bool_text(foreground_after.0 == target.0).as_str());
    s.append("\n");
    s
}

/// Log block after a successful paste.
pub fn paste_done_log(timestamp: &str, foreground_after_paste: TargetHwnd) -> (r: String)
    ensures
        r@ == "=== [simulate-paste:done] "@ + timestamp@ + " ===\nresult: ok\nforeground_after_paste: "@
            + signed_decimal(foreground_after_paste.0 as int) + "\n"@,
{
    let mut s = cat("=== [simulate-paste:done] ", timestamp);
    s.append(" ===\nresult: ok\nforeground_after_paste: ");
    s.append(isize_text(foreground_after_paste.0).as_str());
    s.append("\n");
    s
}

} // verus!
