//! Decisions about the clipboard around a simulated copy: whether the copy
//! took place, which text is accepted afterwards, and the error when none is.

use crate::history::backup_norm;
use crate::text::{opt_str_view, opt_view, str_eq, trim, trim_spec};
use vstd::prelude::*;

verus! {

broadcast use vstd::string::group_string_axioms;

/// Pause between two reads of the clipboard while waiting for a copy.
pub const COPY_RETRY_INTERVAL_MS: u64 = 50;

/// Longest wait for the clipboard to change after a copy. When it still holds
/// the text from before the copy, the copy failed: the old text is never used.
pub const COPY_VERIFY_MAX_SEC: u64 = 5;

/// The error of a copy after which the clipboard did not change.
pub open spec fn copy_failed_stale_spec() -> Seq<char> {
    "复制失败：剪贴板未更新，可能未成功复制选中内容或仍在使用复制前的旧内容"@
}

/// The error of a copy after which the clipboard did not change.
pub fn msg_copy_failed_stale() -> (r: String)
    ensures
        r@ == copy_failed_stale_spec(),
{
    "复制失败：剪贴板未更新，可能未成功复制选中内容或仍在使用复制前的旧内容".to_string()
}

/// Whether a copy succeeded: with sequence numbers before and after, exactly
/// when the number changed (the text may equal the backup); without them,
/// when the trimmed capture differs from the trimmed backup or the backup is
/// empty. An empty capture never counts.
pub open spec fn copy_succeeded_spec(
    backup_seq: Option<u32>,
    current_seq: Option<u32>,
    backup_text: Seq<char>,
    captured_text: Seq<char>,
) -> bool {
    let captured = trim_spec(captured_text);
    if captured.len() == 0 {
        false
    } else if backup_seq is Some && current_seq is Some {
        current_seq != backup_seq
    } else {
        let backup = trim_spec(backup_text);
        backup.len() == 0 || captured != backup
    }
}

/// Whether a copy counts as done.
pub fn clipboard_copy_succeeded(
    backup_seq: Option<u32>,
    current_seq: Option<u32>,
    backup_text: &str,
    captured_text: &str,
) -> (r: bool)
    ensures
        r == copy_succeeded_spec(backup_seq, current_seq, backup_text@, captured_text@),
{
    let captured = trim(captured_text);
    if captured.unicode_len() == 0 {
        return false;
    }
    if let (Some(b), Some(c)) = (backup_seq, current_seq) {
        return c != b;
    }
    let backup = trim(backup_text);
    backup.unicode_len() == 0 || !str_eq(captured, backup)
}

/// Whether the sequence number stayed the same; without both numbers nothing
/// shows a change.
pub fn clipboard_sequence_unchanged(backup_seq: Option<u32>, current_seq: Option<u32>) -> (r: bool)
    ensures
        r == match (backup_seq, current_seq) {
            (Some(a), Some(b)) => a == b,
            _ => true,
        },
{
    match (backup_seq, current_seq) {
        (Some(a), Some(b)) => a == b,
        _ => true,
    }
}

/// The text accepted from one read of the clipboard after a copy: the trimmed
/// text when it is not empty and differs from the trimmed backup (or there is
/// no backup text).
pub open spec fn accepted_text(backup: Option<Seq<char>>, read: Option<Seq<char>>) -> Option<Seq<char>> {
    match read {
        None => None,
        Some(t) => {
            let trimmed = trim_spec(t);
            let b = backup_norm(backup);
            if trimmed.len() > 0 && (b.len() == 0 || trimmed != b) {
                Some(trimmed)
            } else {
                None
            }
        },
    }
}

/// Judges one read of the clipboard while waiting after a copy: `Some` with
/// the text to use, or `None` to keep waiting.
pub fn accept_copied_text(backup: Option<&str>, read: Option<&str>) -> (r: Option<String>)
    ensures
        opt_view(r) == accepted_text(opt_str_view(backup), opt_str_view(read)),
{
    proof {
        reveal_strlit("");
    }
    let b: &str = match backup {
        Some(s) => trim(s),
        None => "",
    };
    match read {
        None => None,
        Some(t) => {
            let trimmed = trim(t);
            if trimmed.unicode_len() > 0 && (b.unicode_len() == 0 || !str_eq(trimmed, b)) {
                Some(trimmed.to_string())
            } else {
                None
            }
        },
    }
}

/// The error once the wait after a copy is over: with a backup text, the
/// stale-copy error when the clipboard still holds it, else the timeout error;
/// without one, the request to select text first.
pub open spec fn copy_timeout_error_spec(backup: Option<Seq<char>>, last_read: Option<Seq<char>>) -> Seq<char> {
    let b = backup_norm(backup);
    if b.len() > 0 {
        if last_read matches Some(t) && trim_spec(t) == b {
            copy_failed_stale_spec()
        } else {
            "复制失败：超过 5 秒未能从剪贴板读取到新内容"@
        }
    } else {
        "请先选中要翻译的文字"@
    }
}

/// The error when no accepted text arrived in time; `last_read` is one more
/// read of the clipboard made after the wait.
pub fn copy_timeout_error(backup: Option<&str>, last_read: Option<&str>) -> (r: String)
    ensures
        r@ == copy_timeout_error_spec(opt_str_view(backup), opt_str_view(last_read)),
{
    proof {
        reveal_strlit("");
    }
    let b: &str = match backup {
        Some(s) => trim(s),
        None => "",
    };
    if b.unicode_len() > 0 {
        if let Some(t) = last_read {
            if str_eq(trim(t), b) {
                return msg_copy_failed_stale();
            }
        }
        "复制失败：超过 5 秒未能从剪贴板读取到新内容".to_string()
    } else {
        "请先选中要翻译的文字".to_string()
    }
}

/// A read that still shows the text from before the copy is never accepted:
/// the old clipboard content is not used in place of a failed copy.
pub proof fn stale_text_never_accepted(backup: Seq<char>, read: Seq<char>)
    requires
        trim_spec(backup).len() > 0,
        trim_spec(read) == trim_spec(backup),
    ensures
        accepted_text(Some(backup), Some(read)) is None,
{
}

/// A copy with sequence numbers counts exactly when the number changed, even
/// when the captured text equals the text from before.
pub proof fn sequence_change_decides(b: u32, c: u32, backup: Seq<char>, captured: Seq<char>)
    requires
        trim_spec(captured).len() > 0,
    ensures
        copy_succeeded_spec(Some(b), Some(c), backup, captured) == (b != c),
{
}

} // verus!
