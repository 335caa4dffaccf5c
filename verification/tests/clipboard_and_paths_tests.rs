use quick_translate::capture_log::{
    all_log_files, local_timestamp_text, log_files_listed, log_file_hint_block, log_name, strip_extended_prefix, unix_seconds_text,
    unix_timestamp_text,
};
use quick_translate::clipboard_util::{
    accept_copied_text, clipboard_copy_succeeded, clipboard_sequence_unchanged, copy_timeout_error,
    msg_copy_failed_stale, COPY_RETRY_INTERVAL_MS, COPY_VERIFY_MAX_SEC,
};
use quick_translate::selection::{
    msg_copy_unsupported, msg_no_foreground_window, msg_no_paste_target, msg_paste_unsupported, paste_abort_log,
    paste_done_log, paste_focus_log, paste_modifiers_log, paste_start_log, paste_step_failed_log, release_report,
    settle_after_release, TargetHwnd,
};
use quick_translate::text::{
    bool_text, cat, copy_opt_string, is_hex_digit, isize_text, join, opt_as_str, pad_number, take_chars,
};
use quick_translate::window_layout::{main_window_position, MAIN_MARGIN};

#[test]
fn copy_success_follows_the_sequence_number_when_known() {
    assert!(clipboard_copy_succeeded(Some(1), Some(2), "same", "same"));
    assert!(!clipboard_copy_succeeded(Some(1), Some(1), "old", "new"));
    assert!(!clipboard_copy_succeeded(None, None, " same ", "same"));
    assert!(clipboard_copy_succeeded(None, Some(3), "old", "new"));
    assert!(clipboard_copy_succeeded(None, None, "  ", "x"));
    assert!(!clipboard_copy_succeeded(Some(1), Some(2), "old", "   "));
}

#[test]
fn sequence_unchanged_without_numbers() {
    assert!(clipboard_sequence_unchanged(Some(4), Some(4)));
    assert!(!clipboard_sequence_unchanged(Some(4), Some(5)));
    assert!(clipboard_sequence_unchanged(None, Some(5)));
}

#[test]
fn old_clipboard_text_is_never_accepted() {
    assert_eq!(accept_copied_text(Some(" old "), Some("old\n")), None);
    assert_eq!(accept_copied_text(Some("old"), Some(" new ")).as_deref(), Some("new"));
    assert_eq!(accept_copied_text(None, Some(" new ")).as_deref(), Some("new"));
    assert_eq!(accept_copied_text(None, Some("  ")), None);
    assert_eq!(accept_copied_text(Some("old"), None), None);
}

#[test]
fn copy_timeout_errors() {
    assert_eq!(copy_timeout_error(Some("old"), Some(" old ")), msg_copy_failed_stale());
    assert_eq!(
        msg_copy_failed_stale(),
        "复制失败：剪贴板未更新，可能未成功复制选中内容或仍在使用复制前的旧内容"
    );
    assert_eq!(copy_timeout_error(Some("old"), None), "复制失败：超过 5 秒未能从剪贴板读取到新内容");
    assert_eq!(copy_timeout_error(Some("old"), Some("other")), "复制失败：超过 5 秒未能从剪贴板读取到新内容");
    assert_eq!(copy_timeout_error(None, Some("x")), "请先选中要翻译的文字");
    assert_eq!(copy_timeout_error(Some("  "), Some("  ")), "请先选中要翻译的文字");
    assert_eq!(COPY_VERIFY_MAX_SEC, 5);
    assert_eq!(COPY_RETRY_INTERVAL_MS, 50);
}

#[test]
fn log_files_and_hint() {
    assert_eq!(log_name(), "python-capture.log");
    assert_eq!(strip_extended_prefix("\\\\?\\D:\\x"), "D:\\x");
    assert_eq!(strip_extended_prefix("\\\\?\\UNC\\h\\s"), "\\\\h\\s");
    assert_eq!(strip_extended_prefix("\\\\h\\s"), "\\\\h\\s");
    let one = all_log_files("C:\\a.log".to_string(), "C:\\a.log".to_string());
    assert_eq!(one, vec!["C:\\a.log".to_string()]);
    let two = all_log_files("C:\\a.log".to_string(), "D:\\b.log".to_string());
    assert_eq!(two, vec!["C:\\a.log".to_string(), "D:\\b.log".to_string()]);
    assert_eq!(
        log_file_hint_block(&two),
        "主日志（安装目录）: C:\\a.log\n备用日志（AppData）: D:\\b.log"
    );
    assert_eq!(log_file_hint_block(&vec![]), "");
}

#[test]
fn main_window_goes_bottom_right() {
    assert_eq!(MAIN_MARGIN, 14);
    assert_eq!(main_window_position(400, 300, (0, 0, 1920, 1040)), (1920 - 400 - 14, 1040 - 300 - 14));
    assert_eq!(main_window_position(2000, 300, (10, 20, 1920, 1040)), (10, 20 + 1040 - 300 - 14));
    assert_eq!(main_window_position(100, 2000, (-1920, 0, 1920, 1080)), (-1920 - 100 - 14 + 1920, 0));
}

#[test]
fn target_and_release_report() {
    assert!(!TargetHwnd(0).is_valid());
    assert!(TargetHwnd(-5).is_valid());
    assert_eq!(release_report(&vec![]), "none");
    assert_eq!(release_report(&vec!["Shift".to_string(), "Ctrl".to_string()]), "Shift,Ctrl");
}

#[test]
fn text_helpers() {
    assert_eq!(bool_text(true), "true");
    assert_eq!(bool_text(false), "false");
    assert_eq!(cat("ab", "中"), "ab中");
    assert_eq!(join(&vec!["a".to_string(), "b".to_string(), "c".to_string()], ", "), "a, b, c");
    assert_eq!(join(&vec![], ","), "");
    assert_eq!(take_chars("中文字符", 2), "中文");
    assert_eq!(take_chars("ab", 5), "ab");
    assert!(is_hex_digit('F'));
    assert!(is_hex_digit('7'));
    assert!(!is_hex_digit('g'));
    let o = Some("x".to_string());
    assert_eq!(copy_opt_string(&o), o);
    assert_eq!(opt_as_str(&o), Some("x"));
    assert_eq!(opt_as_str(&None), None);
}

#[test]
fn log_times() {
    assert_eq!(local_timestamp_text(2024, 3, 7, 9, 5, 0, 42), "2024-03-07 09:05:00.042");
    assert_eq!(local_timestamp_text(12345, 12, 31, 23, 59, 59, 999), "12345-12-31 23:59:59.999");
    assert_eq!(unix_timestamp_text(1700000000, 7), "unix=1700000000.007");
    assert_eq!(unix_seconds_text(0), "unix=0");
    assert_eq!(pad_number(5, 3), "005");
    assert_eq!(pad_number(12345, 2), "12345");
    assert_eq!(pad_number(0, 0), "0");
}

#[test]
fn paste_logs() {
    assert_eq!(paste_abort_log("T"), "=== [simulate-paste] T abort: invalid_target ===\n");
    assert_eq!(
        paste_start_log("T", TargetHwnd(-42), TargetHwnd(7)),
        "=== [simulate-paste:start] T ===\ntarget_hwnd: -42\nforeground_before: 7\n"
    );
    assert_eq!(paste_modifiers_log("T", "Shift"), "=== [simulate-paste:modifiers] T ===\nreleased: Shift\n");
    assert_eq!(paste_step_failed_log("send", "T", "x"), "=== [simulate-paste:send] T failed: x ===\n");
    assert_eq!(
        paste_focus_log("T", TargetHwnd(5), TargetHwnd(5)),
        "=== [simulate-paste:focus] T ===\nforeground_after: 5\nfocus_matched_target: true\n"
    );
    assert!(paste_focus_log("T", TargetHwnd(6), TargetHwnd(5)).ends_with("focus_matched_target: false\n"));
    assert_eq!(
        paste_done_log("T", TargetHwnd(0)),
        "=== [simulate-paste:done] T ===\nresult: ok\nforeground_after_paste: 0\n"
    );
    assert!(settle_after_release("Shift,Ctrl"));
    assert!(!settle_after_release("none"));
    assert_eq!(isize_text(isize::MIN), isize::MIN.to_string());
    assert_eq!(isize_text(-3), "-3");
    assert_eq!(msg_no_foreground_window(), "未找到前台窗口，请先聚焦到要翻译的应用");
    assert_eq!(msg_no_paste_target(), "未找到目标窗口");
    assert_eq!(msg_copy_unsupported(), "当前平台不支持模拟复制");
    assert_eq!(msg_paste_unsupported(), "当前平台不支持模拟粘贴");
}

#[test]
fn log_files_listed_by_sameness() {
    assert_eq!(log_files_listed("a".to_string(), "b".to_string(), true), vec!["a".to_string()]);
    assert_eq!(log_files_listed("a".to_string(), "b".to_string(), false), vec!["a".to_string(), "b".to_string()]);
    let same_spelled_twice = all_log_files("logs//x.log".to_string(), "logs/x.log".to_string());
    assert_eq!(same_spelled_twice, vec!["logs//x.log".to_string()]);
}
