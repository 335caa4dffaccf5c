//! Where the capture diagnostics log is kept, and the hint about it that error
//! messages carry. The log files themselves are written by the caller.

use crate::text::{cat, decimal, has_prefix, join, join_spec, pad_number, starts_with, u64_text, views, zero_padded};
use vstd::prelude::*;
use vstd::string::StrSliceExecFns;

verus! {

broadcast use vstd::string::group_string_axioms;

/// File name of the capture log.
pub open spec fn log_name_spec() -> Seq<char> {
    "python-capture.log"@
}

/// File name of the capture log.
pub fn log_name() -> (r: String)
    ensures
        r@ == log_name_spec(),
{
    "python-capture.log".to_string()
}

/// A path without the Windows extended-length prefix: `\\?\UNC\rest` becomes
/// `\\rest`, `\\?\rest` becomes `rest`, anything else is unchanged.
pub open spec fn strip_extended_prefix_spec(p: Seq<char>) -> Seq<char> {
    let unc = seq!['\\', '\\', '?', '\\', 'U', 'N', 'C', '\\'];
    let ext = seq!['\\', '\\', '?', '\\'];
    if has_prefix(p, unc) {
        seq!['\\', '\\'] + p.subrange(8, p.len() as int)
    } else if has_prefix(p, ext) {
        p.subrange(4, p.len() as int)
    } else {
        p
    }
}

/// Removes the Windows extended-length prefix from a path.
pub fn strip_extended_prefix(path: &str) -> (r: String)
    ensures
        r@ == strip_extended_prefix_spec(path@),
{
    proof {
        reveal_strlit("\\\\?\\UNC\\");
        reveal_strlit("\\\\?\\");
        reveal_strlit("\\\\");
    }
    assert("\\\\?\\UNC\\"@ =~= seq!['\\', '\\', '?', '\\', 'U', 'N', 'C', '\\']);
    assert("\\\\?\\"@ =~= seq!['\\', '\\', '?', '\\']);
    assert("\\\\"@ =~= seq!['\\', '\\']);
    let n = path.unicode_len();
    if starts_with(path, "\\\\?\\UNC\\") {
        cat("\\\\", path.substring_char(8, n))
    } else if starts_with(path, "\\\\?\\") {
        path.substring_char(4, n).to_string()
    } else {
        path.to_string()
    }
}

/// The log files, main one first: the one beside the program, then the one in
/// the data folder unless both name the same file (`same`).
pub open spec fn log_files_spec(install: Seq<char>, appdata: Seq<char>, same: bool) -> Seq<Seq<char>> {
    if same {
        seq![install]
    } else {
        seq![install, appdata]
    }
}

/// Whether `<std::path::Path as PartialEq>::eq` holds for two paths given as
/// text: they have the same components, by the separators of the platform the
/// program was built for.
pub uninterp spec fn path_eq(a: Seq<char>, b: Seq<char>) -> bool;

/// Calls `<std::path::Path as PartialEq>::eq`, which compares two paths
/// component by component; the contract names the result and states that
/// equal texts are the same path, not how components are split.
#[verifier::external_body]
fn same_path(a: &str, b: &str) -> (r: bool)
    ensures
        r == path_eq(a@, b@),
        a@ == b@ ==> r,
{
    std::path::Path::new(a) == std::path::Path::new(b)
}

/// The log files, given the log path beside the program, the one in the data
/// folder, and whether the two are the same path.
pub fn log_files_listed(install_log_file: String, appdata_log_file: String, same: bool) -> (r: Vec<String>)
    ensures
        views(r@) == log_files_spec(install_log_file@, appdata_log_file@, same),
{
    let mut v: Vec<String> = Vec::new();
    v.push(install_log_file);
    if !same {
        v.push(appdata_log_file);
    }
    assert(views(v@) =~= log_files_spec(install_log_file@, appdata_log_file@, same));
    v
}

/// The log files, given the log path beside the program and the one in the
/// data folder; the second is left out when both are the same path.
pub fn all_log_files(install_log_file: String, appdata_log_file: String) -> (r: Vec<String>)
    ensures
        views(r@) == log_files_spec(
            install_log_file@,
            appdata_log_file@,
            path_eq(install_log_file@, appdata_log_file@),
        ),
        install_log_file@ == appdata_log_file@ ==> views(r@) == seq![install_log_file@],
{
    let same = same_path(install_log_file.as_str(), appdata_log_file.as_str());
    log_files_listed(install_log_file, appdata_log_file, same)
}

/// One line of the log hint: the first path is the main log beside the
/// program, the others are the spare logs in the data folder.
pub open spec fn hint_line(i: int, p: Seq<char>) -> Seq<char> {
    if i == 0 {
        "主日志（安装目录）: "@ + p
    } else {
        "备用日志（AppData）: "@ + p
    }
}

/// The hint lines for `paths`.
pub open spec fn hint_lines(paths: Seq<Seq<char>>) -> Seq<Seq<char>> {
    Seq::new(paths.len(), |i: int| hint_line(i, paths[i]))
}

/// The hint block about where the log files are, one line per path.
pub fn log_file_hint_block(paths: &Vec<String>) -> (r: String)
    ensures
        r@ == join_spec(hint_lines(views(paths@)), "\n"@),
{
    let n = paths.len();
    let mut lines: Vec<String> = Vec::new();
    let mut i: usize = 0;
    while i < n
        invariant
            n == paths@.len(),
            i <= n,
            lines@.len() == i,
            forall|j: int| 0 <= j < i ==> (#[trigger] lines@[j])@ == hint_line(j, paths@[j]@),
        decreases n - i,
    {
        let line = if i == 0 {
            cat("主日志（安装目录）: ", paths[i].as_str())
        } else {
            cat("备用日志（AppData）: ", paths[i].as_str())
        };
        lines.push(line);
        i = i + 1;
    }
    assert(views(lines@) =~= hint_lines(views(paths@)));
    join(&lines, "\n")
}

/// A local time as the log writes it: `YYYY-MM-DD hh:mm:ss.mmm`, each field
/// padded with zeros (the year to four digits, the milliseconds to three).
pub open spec fn local_timestamp_spec(year: u16, month: u16, day: u16, hour: u16, minute: u16, second: u16, millis: u16) -> Seq<char> {
    zero_padded(year as nat, 4) + "-"@ + zero_padded(month as nat, 2) + "-"@ + zero_padded(day as nat, 2) + " "@
        + zero_padded(hour as nat, 2) + ":"@ + zero_padded(minute as nat, 2) + ":"@ + zero_padded(second as nat, 2)
        + "."@ + zero_padded(millis as nat, 3)
}

/// The log time for the local clock reading given field by field.
pub fn local_timestamp_text(year: u16, month: u16, day: u16, hour: u16, minute: u16, second: u16, millis: u16) -> (r: String)
    ensures
        r@ == local_timestamp_spec(year, month, day, hour, minute, second, millis),
{
    let mut s = pad_number(year as u64, 4);
    s.append("-");
    s.append(pad_number(month as u64, 2).as_str());
    s.append("-");
    s.append(pad_number(day as u64, 2).as_str());
    s.append(" ");
    s.append(pad_number(hour as u64, 2).as_str());
    s.append(":");
    s.append(pad_number(minute as u64, 2).as_str());
    s.append(":");
    s.append(pad_number(second as u64, 2).as_str());
    s.append(".");
    s.append(pad_number(millis as u64, 3).as_str());
    s
}

/// The log time where no local clock is read: `unix=` and the seconds since
/// the Unix epoch, a dot and the milliseconds in three digits.
pub fn unix_timestamp_text(secs: u64, millis: u32) -> (r: String)
    ensures
        r@ == "unix="@ + decimal(secs as nat) + "."@ + zero_padded(millis as nat, 3),
{
    let mut s = cat("unix=", u64_text(secs).as_str());
    s.append(".");
    s.append(pad_number(millis as u64, 3).as_str());
    s
}

/// The time written in the capture pipeline's log: `unix=` and the whole
/// seconds since the Unix epoch.
pub fn unix_seconds_text(secs: u64) -> (r: String)
    ensures
        r@ == "unix="@ + decimal(secs as nat),
{
    cat("unix=", u64_text(secs).as_str())
}

} // verus!
