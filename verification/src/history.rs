//! Translation history: a list of records, newest first, with the lookups,
//! removals and the stale-clipboard guard that read it. Reading and writing
//! the history file is left to the caller.

use crate::text::{
    bool_text, bool_text_spec, cat, copy_opt_string, decimal, digit_char, join, join_spec, opt_str_view, str_eq, trim,
    trim_spec, u64_text, views,
};
use crate::translation::TranslateResult;
use vstd::prelude::*;
use vstd::string::StringExecFns;
use vstd::utf8::encode_utf8;

verus! {

broadcast use vstd::string::group_string_axioms;

/// One translation as it is kept in the history.
#[derive(Debug, Clone)]
pub struct HistoryRecord {
    pub id: String,
    pub created_at: u64,
    pub source_text: String,
    pub translated_text: Option<String>,
    pub ok: bool,
    pub error: Option<String>,
    pub provider: Option<String>,
    pub from_cache: bool,
    pub duration_ms: u64,
}

impl HistoryRecord {
    /// A copy of the record.
    pub fn copied(&self) -> (r: HistoryRecord)
        ensures
            r == *self,
    {
        HistoryRecord {
            id: self.id.clone(),
            created_at: self.created_at,
            source_text: self.source_text.clone(),
            translated_text: copy_opt_string(&self.translated_text),
            ok: self.ok,
            error: copy_opt_string(&self.error),
            provider: copy_opt_string(&self.provider),
            from_cache: self.from_cache,
            duration_ms: self.duration_ms,
        }
    }
}

/// Index of the first successful record at or after `i`, or the length when
/// there is none.
pub open spec fn first_ok_from(s: Seq<HistoryRecord>, i: nat) -> nat
    decreases s.len() - i,
{
    if i >= s.len() {
        s.len()
    } else if s[i as int].ok {
        i
    } else {
        first_ok_from(s, i + 1)
    }
}

/// The newest successful record.
pub open spec fn latest_success(s: Seq<HistoryRecord>) -> Option<HistoryRecord> {
    let k = first_ok_from(s, 0);
    if k < s.len() {
        Some(s[k as int])
    } else {
        None
    }
}

/// Index of the first record with id `id` at or after `i`, or the length when
/// there is none.
pub open spec fn first_id_from(s: Seq<HistoryRecord>, id: Seq<char>, i: nat) -> nat
    decreases s.len() - i,
{
    if i >= s.len() {
        s.len()
    } else if s[i as int].id@ == id {
        i
    } else {
        first_id_from(s, id, i + 1)
    }
}

/// The first (newest) record with id `id`.
pub open spec fn find_spec(s: Seq<HistoryRecord>, id: Seq<char>) -> Option<HistoryRecord> {
    let k = first_id_from(s, id, 0);
    if k < s.len() {
        Some(s[k as int])
    } else {
        None
    }
}

proof fn lemma_first_ok_bounds(s: Seq<HistoryRecord>, i: nat)
    ensures
        i <= s.len() ==> i <= first_ok_from(s, i) <= s.len(),
        first_ok_from(s, i) < s.len() ==> s[first_ok_from(s, i) as int].ok,
        forall|j: int| i <= j < first_ok_from(s, i) ==> !(#[trigger] s[j]).ok,
    decreases s.len() - i,
{
    if i < s.len() && !s[i as int].ok {
        lemma_first_ok_bounds(s, i + 1);
    }
}

proof fn lemma_first_id_bounds(s: Seq<HistoryRecord>, id: Seq<char>, i: nat)
    ensures
        i <= s.len() ==> i <= first_id_from(s, id, i) <= s.len(),
        first_id_from(s, id, i) < s.len() ==> s[first_id_from(s, id, i) as int].id@ == id,
        forall|j: int| i <= j < first_id_from(s, id, i) ==> (#[trigger] s[j]).id@ != id,
    decreases s.len() - i,
{
    if i < s.len() && s[i as int].id@ != id {
        lemma_first_id_bounds(s, id, i + 1);
    }
}

/// The record with id `id`, the newest one where several share it.
pub fn find_record(records: &Vec<HistoryRecord>, id: &str) -> (r: Option<HistoryRecord>)
    ensures
        r == find_spec(records@, id@),
{
    let n = records.len();
    let mut i: usize = 0;
    while i < n
        invariant
            n == records@.len(),
            i <= n,
            first_id_from(records@, id@, 0) == first_id_from(records@, id@, i as nat),
        decreases n - i,
    {
        if str_eq(records[i].id.as_str(), id) {
            return Some(records[i].copied());
        }
        i = i + 1;
    }
    None
}

/// The newest successful translation (`records[0]` is the newest).
pub fn latest_success_record(records: &Vec<HistoryRecord>) -> (r: Option<HistoryRecord>)
    ensures
        r == latest_success(records@),
{
    let n = records.len();
    let mut i: usize = 0;
    while i < n
        invariant
            n == records@.len(),
            i <= n,
            first_ok_from(records@, 0) == first_ok_from(records@, i as nat),
        decreases n - i,
    {
        if records[i].ok {
            return Some(records[i].copied());
        }
        i = i + 1;
    }
    None
}

/// Whether `text` is the trimmed source or the trimmed translation of `rec`.
pub open spec fn text_matches(text: Seq<char>, rec: HistoryRecord) -> bool {
    ||| text == trim_spec(rec.source_text@)
    ||| (rec.translated_text matches Some(t) && text == trim_spec(t@))
}

/// Whether `text` is the trimmed source or the trimmed translation of `rec`.
pub fn text_matches_record(text: &str, rec: &HistoryRecord) -> (r: bool)
    ensures
        r == text_matches(text@, *rec),
{
    if str_eq(text, trim(rec.source_text.as_str())) {
        return true;
    }
    match &rec.translated_text {
        Some(t) => str_eq(text, trim(t.as_str())),
        None => false,
    }
}

/// The trimmed clipboard text from before the copy, empty when there was none.
pub open spec fn backup_norm(b: Option<Seq<char>>) -> Seq<char> {
    match b {
        Some(t) => trim_spec(t),
        None => Seq::empty(),
    }
}

/// `a - b`, or 0 when `b` is larger.
pub open spec fn sat_sub(a: u64, b: u64) -> u64 {
    if a >= b {
        (a - b) as u64
    } else {
        0
    }
}

/// `g` seconds in milliseconds, held at `u64::MAX`.
pub open spec fn guard_ms(g: u64) -> u64 {
    if g * 1000 > u64::MAX {
        u64::MAX
    } else {
        (g * 1000) as u64
    }
}

/// Whether a capture is the stale clipboard text of the latest translation:
/// the guard is on and the clipboard sequence number did not change, the
/// newest successful record is older than the guard, the trimmed capture is
/// not empty, equals that record's source or translation, and equals the
/// trimmed clipboard text from before the copy.
pub open spec fn stale_reuse(
    records: Seq<HistoryRecord>,
    now_ms: u64,
    guard_sec: u64,
    captured: Seq<char>,
    backup: Option<Seq<char>>,
    sequence_changed: bool,
) -> bool {
    if guard_sec == 0 || sequence_changed {
        false
    } else {
        match latest_success(records) {
            None => false,
            Some(rec) => {
                if sat_sub(now_ms, rec.created_at) <= guard_ms(guard_sec) {
                    false
                } else {
                    let cap = trim_spec(captured);
                    cap.len() > 0 && text_matches(cap, rec) && cap == backup_norm(backup)
                }
            },
        }
    }
}

fn saturating_ms(guard_sec: u64) -> (r: u64)
    ensures
        r == guard_ms(guard_sec),
{
    match guard_sec.checked_mul(1000) {
        Some(v) => v,
        None => u64::MAX,
    }
}

fn backup_trimmed<'a>(backup: Option<&'a str>) -> (r: &'a str)
    ensures
        r@ == backup_norm(opt_str_view(backup)),
{
    proof {
        reveal_strlit("");
    }
    match backup {
        Some(b) => {
            let t = trim(b);
            assert(opt_str_view(backup) == Some(b@));
            t
        },
        None => "",
    }
}

/// Whether an empty selection would reuse the clipboard text left by the
/// latest translation: that record is older than `guard_sec` seconds and this
/// copy produced nothing new. A changed clipboard sequence number counts as a
/// real copy and is never refused.
pub fn is_stale_history_clipboard_reuse(
    records: &Vec<HistoryRecord>,
    now_ms: u64,
    guard_sec: u64,
    captured: &str,
    backup_before_copy: Option<&str>,
    clipboard_sequence_changed: bool,
) -> (r: bool)
    ensures
        r == stale_reuse(
            records@,
            now_ms,
            guard_sec,
            captured@,
            opt_str_view(backup_before_copy),
            clipboard_sequence_changed,
        ),
{
    proof {
        reveal_strlit("");
    }
    if guard_sec == 0 || clipboard_sequence_changed {
        return false;
    }
    let rec = match latest_success_record(records) {
        Some(r) => r,
        None => return false,
    };
    let age_ms = now_ms.saturating_sub(rec.created_at);
    if age_ms <= saturating_ms(guard_sec) {
        return false;
    }
    let cap = trim(captured);
    if cap.unicode_len() == 0 || !text_matches_record(cap, &rec) {
        return false;
    }
    let backup = backup_trimmed(backup_before_copy);
    str_eq(cap, backup)
}

/// Length in bytes of the UTF-8 encoding of `s`.
pub open spec fn byte_len(s: Seq<char>) -> nat {
    encode_utf8(s).len() as usize as nat
}

/// The diagnostic lines that explain [`stale_reuse`] for one capture.
pub open spec fn stale_debug_lines(
    records: Seq<HistoryRecord>,
    now_ms: u64,
    guard_sec: u64,
    captured: Seq<char>,
    backup: Option<Seq<char>>,
    sequence_changed: bool,
) -> Seq<Seq<char>> {
    let cap = trim_spec(captured);
    let bk = backup_norm(backup);
    let head = seq![
        "guard_sec: "@ + decimal(guard_sec as nat),
        "captured_len: "@ + decimal(byte_len(cap)),
        "backup_len: "@ + decimal(byte_len(bk)),
        "captured_eq_backup: "@ + bool_text_spec(cap.len() > 0 && cap == bk),
        "clipboard_sequence_changed: "@ + bool_text_spec(sequence_changed),
    ];
    let mid = match latest_success(records) {
        None => seq!["latest_success_record: None"@],
        Some(rec) => {
            let age = sat_sub(now_ms, rec.created_at);
            seq![
                "latest_record_age_ms: "@ + decimal(age as nat),
                "latest_record_source_len: "@ + decimal(byte_len(trim_spec(rec.source_text@))),
                "captured_matches_record: "@ + bool_text_spec(text_matches(cap, rec)),
                "age_gt_guard: "@ + bool_text_spec(age > guard_ms(guard_sec)),
            ]
        },
    };
    head + mid + seq![
        "would_block: "@ + bool_text_spec(
            stale_reuse(records, now_ms, guard_sec, captured, backup, sequence_changed),
        ),
    ]
}

fn labelled(label: &str, value: String) -> (r: String)
    ensures
        r@ == label@ + value@,
{
    cat(label, value.as_str())
}

/// Diagnostic text for the log: one line per condition of
/// [`is_stale_history_clipboard_reuse`], and its verdict.
pub fn stale_history_clipboard_debug(
    records: &Vec<HistoryRecord>,
    now_ms: u64,
    guard_sec: u64,
    captured: &str,
    backup_before_copy: Option<&str>,
    clipboard_sequence_changed: bool,
) -> (r: String)
    ensures
        r@ == join_spec(
            stale_debug_lines(
                records@,
                now_ms,
                guard_sec,
                captured@,
                opt_str_view(backup_before_copy),
                clipboard_sequence_changed,
            ),
            "\n"@,
        ),
{
    let cap = trim(captured);
    let backup = backup_trimmed(backup_before_copy);
    let mut lines: Vec<String> = Vec::new();
    lines.push(labelled("guard_sec: ", u64_text(guard_sec)));
    lines.push(labelled("captured_len: ", u64_text(cap.len() as u64)));
    lines.push(labelled("backup_len: ", u64_text(backup.len() as u64)));
    let eq = cap.unicode_len() > 0 && str_eq(cap, backup);
    lines.push(labelled("captured_eq_backup: ", bool_text(eq)));
    lines.push(labelled("clipboard_sequence_changed: ", bool_text(clipboard_sequence_changed)));
    let ghost head_len = lines@.len();
    match latest_success_record(records) {
        None => {
            lines.push("latest_success_record: None".to_string());
        },
        Some(rec) => {
            let age_ms = now_ms.saturating_sub(rec.created_at);
            lines.push(labelled("latest_record_age_ms: ", u64_text(age_ms)));
            let src = trim(rec.source_text.as_str());
            lines.push(labelled("latest_record_source_len: ", u64_text(src.len() as u64)));
            lines.push(labelled("captured_matches_record: ", bool_text(text_matches_record(cap, &rec))));
            lines.push(labelled("age_gt_guard: ", bool_text(age_ms > saturating_ms(guard_sec))));
        },
    }
    let block = is_stale_history_clipboard_reuse(
        records,
        now_ms,
        guard_sec,
        captured,
        backup_before_copy,
        clipboard_sequence_changed,
    );
    lines.push(labelled("would_block: ", bool_text(block)));
    assert(views(lines@) =~= stale_debug_lines(
        records@,
        now_ms,
        guard_sec,
        captured@,
        opt_str_view(backup_before_copy),
        clipboard_sequence_changed,
    ));
    join(&lines, "\n")
}

/// Whether `rec` is kept when the records with id `id` are removed.
pub open spec fn keeps(id: Seq<char>) -> spec_fn(HistoryRecord) -> bool {
    |rec: HistoryRecord| rec.id@ != id
}

/// Whether some record has id `id`.
pub open spec fn has_id(s: Seq<HistoryRecord>, id: Seq<char>) -> bool {
    exists|i: int| 0 <= i < s.len() && (#[trigger] s[i]).id@ == id
}

/// Removes every record with id `id`. When none has it, the records stay as
/// they are and the error says that the record does not exist.
pub fn delete_record(records: &mut Vec<HistoryRecord>, id: &str) -> (r: Result<(), String>)
    ensures
        r is Err <==> !has_id(old(records)@, id@),
        r matches Err(e) ==> e@ == "记录不存在"@ && final(records)@ == old(records)@,
        r is Ok ==> final(records)@ == old(records)@.filter(keeps(id@)),
{
    let n = records.len();
    let mut kept: Vec<HistoryRecord> = Vec::new();
    let mut removed = false;
    let mut i: usize = 0;
    while i < n
        invariant
            n == records@.len(),
            i <= n,
            kept@ == records@.take(i as int).filter(keeps(id@)),
            removed == (exists|j: int| 0 <= j < i && (#[trigger] records@[j]).id@ == id@),
        decreases n - i,
    {
        proof {
            reveal_with_fuel(Seq::<_>::filter, 1);
            assert(records@.take(i + 1).drop_last() =~= records@.take(i as int));
        }
        let same = str_eq(records[i].id.as_str(), id);
        if same {
            removed = true;
        } else {
            kept.push(records[i].copied());
        }
        i = i + 1;
    }
    assert(records@.take(n as int) =~= records@);
    if !removed {
        return Err("记录不存在".to_string());
    }
    *records = kept;
    Ok(())
}

/// The history limit in force, 20 through 500.
pub open spec fn clamp_limit(limit: usize) -> nat {
    if limit < 20 {
        20
    } else if limit > 500 {
        500
    } else {
        limit as nat
    }
}

fn limit_of(limit: usize) -> (r: usize)
    ensures
        r as nat == clamp_limit(limit),
{
    if limit < 20 {
        20
    } else if limit > 500 {
        500
    } else {
        limit
    }
}

/// Keeps the newest `limit` records (limit taken within 20 through 500).
/// Returns whether any record was dropped, that is whether the history has to
/// be written again.
pub fn trim_to_limit(records: &mut Vec<HistoryRecord>, limit: usize) -> (changed: bool)
    ensures
        changed == (old(records)@.len() > clamp_limit(limit)),
        final(records)@ == trimmed(old(records)@, limit),
{
    let limit = limit_of(limit);
    if records.len() > limit {
        records.truncate(limit);
        true
    } else {
        false
    }
}

/// The history after `rec` is put in front and at most `limit` records kept.
pub open spec fn appended(before: Seq<HistoryRecord>, rec: HistoryRecord, limit: nat) -> Seq<
    HistoryRecord,
> {
    let all = seq![rec] + before;
    if all.len() > limit {
        all.take(limit as int)
    } else {
        all
    }
}

/// Whether `rec` records the translation of `source` that gave `result`,
/// made at `now_ms`: its id is the decimal time.
pub open spec fn records_translation(rec: HistoryRecord, source: Seq<char>, result: TranslateResult, now_ms: u64) -> bool {
    &&& rec.id@ == decimal(now_ms as nat)
    &&& rec.created_at == now_ms
    &&& rec.source_text@ == source
    &&& rec.translated_text == result.translated_text
    &&& rec.ok == result.ok
    &&& rec.error == result.error
    &&& rec.provider == result.provider
    &&& rec.from_cache == result.from_cache
    &&& rec.duration_ms == result.duration_ms
}

/// Puts the record of a translation in front of the history and keeps at most
/// `max_records` records (taken within 20 through 500). `now_ms` is the time of
/// the translation in milliseconds since the Unix epoch; it gives the id.
pub fn append_from_translate(
    records: &mut Vec<HistoryRecord>,
    source: &str,
    result: &TranslateResult,
    max_records: usize,
    now_ms: u64,
)
    ensures
        final(records)@.len() > 0,
        records_translation(final(records)@[0], source@, *result, now_ms),
        final(records)@ == appended(old(records)@, final(records)@[0], clamp_limit(max_records)),
{
    let max = limit_of(max_records);
    let record = HistoryRecord {
        id: u64_text(now_ms),
        created_at: now_ms,
        source_text: source.to_string(),
        translated_text: copy_opt_string(&result.translated_text),
        ok: result.ok,
        error: copy_opt_string(&result.error),
        provider: copy_opt_string(&result.provider),
        from_cache: result.from_cache,
        duration_ms: result.duration_ms,
    };
    let ghost rec = record;
    let ghost before = records@;
    records.insert(0, record);
    assert(records@ =~= seq![rec] + before);
    if records.len() > max {
        records.truncate(max);
    }
}

/// Looking up the id of the record just appended gives that record back.
pub proof fn find_after_append(before: Seq<HistoryRecord>, rec: HistoryRecord, limit: nat)
    requires
        limit >= 1,
    ensures
        find_spec(appended(before, rec, limit), rec.id@) == Some(rec),
{
    let s = appended(before, rec, limit);
    assert(s[0] == rec);
    assert(first_id_from(s, rec.id@, 0) == 0);
}

/// After a successful translation is appended, it is the newest success.
pub proof fn latest_success_after_append(before: Seq<HistoryRecord>, rec: HistoryRecord, limit: nat)
    requires
        limit >= 1,
        rec.ok,
    ensures
        latest_success(appended(before, rec, limit)) == Some(rec),
{
    let s = appended(before, rec, limit);
    assert(s[0] == rec);
    assert(first_ok_from(s, 0) == 0);
}

/// Appending never leaves more records than the limit, and keeps the older
/// records in their order behind the new one.
pub proof fn append_bounded(before: Seq<HistoryRecord>, rec: HistoryRecord, limit: nat)
    requires
        limit >= 1,
    ensures
        appended(before, rec, limit).len() <= limit,
        appended(before, rec, limit).len() == if before.len() + 1 > limit {
            limit
        } else {
            before.len() + 1
        },
        forall|i: int|
            1 <= i < appended(before, rec, limit).len() ==> #[trigger] appended(
                before,
                rec,
                limit,
            )[i] == before[i - 1],
{
}

/// After the records with an id are deleted, looking the id up finds nothing.
pub proof fn find_after_delete(before: Seq<HistoryRecord>, id: Seq<char>)
    ensures
        find_spec(before.filter(keeps(id)), id) is None,
{
    let s = before.filter(keeps(id));
    lemma_first_id_bounds(s, id, 0);
    if first_id_from(s, id, 0) < s.len() {
        let k = first_id_from(s, id, 0) as int;
        before.lemma_filter_pred(keeps(id), k);
    }
}

/// The history cut to its newest `clamp_limit(limit)` records.
pub open spec fn trimmed(before: Seq<HistoryRecord>, limit: usize) -> Seq<HistoryRecord> {
    if before.len() > clamp_limit(limit) {
        before.take(clamp_limit(limit) as int)
    } else {
        before
    }
}

/// Trimming keeps the newest records in their order, never more than the
/// limit, and trimming again to the same limit changes nothing.
pub proof fn trim_keeps_newest(before: Seq<HistoryRecord>, limit: usize)
    ensures
        trimmed(before, limit).len() <= clamp_limit(limit),
        trimmed(before, limit).len() <= before.len(),
        forall|i: int| 0 <= i < trimmed(before, limit).len() ==> #[trigger] trimmed(before, limit)[i] == before[i],
        trimmed(trimmed(before, limit), limit) == trimmed(before, limit),
{
}

/// The guard refuses nothing while it is off, and never refuses a capture
/// after which the clipboard sequence number changed: that copy really
/// happened, even when it brought back the same text.
pub proof fn real_copy_never_refused(
    records: Seq<HistoryRecord>,
    now_ms: u64,
    guard_sec: u64,
    captured: Seq<char>,
    backup: Option<Seq<char>>,
    sequence_changed: bool,
)
    requires
        guard_sec == 0 || sequence_changed,
    ensures
        !stale_reuse(records, now_ms, guard_sec, captured, backup, sequence_changed),
{
}

/// A capture is only refused as stale when it equals the clipboard text from
/// before the copy and the text of the newest successful record, and that
/// record is older than the guard.
pub proof fn stale_means_unchanged_old_text(
    records: Seq<HistoryRecord>,
    now_ms: u64,
    guard_sec: u64,
    captured: Seq<char>,
    backup: Option<Seq<char>>,
    sequence_changed: bool,
)
    requires
        stale_reuse(records, now_ms, guard_sec, captured, backup, sequence_changed),
    ensures
        latest_success(records) is Some,
        trim_spec(captured).len() > 0,
        trim_spec(captured) == backup_norm(backup),
        text_matches(trim_spec(captured), latest_success(records)->0),
        sat_sub(now_ms, latest_success(records)->0.created_at) > guard_ms(guard_sec),
{
}

/// Whether a text holds no line break.
pub open spec fn single_line(s: Seq<char>) -> bool {
    forall|i: int| 0 <= i < s.len() ==> s[i] != '\n'
}

proof fn lemma_single_line_cat(a: Seq<char>, b: Seq<char>)
    requires
        single_line(a),
        single_line(b),
    ensures
        single_line(a + b),
{
    assert forall|i: int| 0 <= i < (a + b).len() implies (a + b)[i] != '\n' by {
        if i < a.len() {
            assert((a + b)[i] == a[i]);
        } else {
            assert((a + b)[i] == b[i - a.len()]);
        }
    }
}

proof fn lemma_decimal_single_line(n: nat)
    ensures
        single_line(decimal(n)),
    decreases n,
{
    if n >= 10 {
        lemma_decimal_single_line(n / 10);
        assert(digit_char(n % 10) != '\n');
        lemma_single_line_cat(decimal(n / 10), seq![digit_char(n % 10)]);
    } else {
        assert(digit_char(n) != '\n');
    }
}

proof fn lemma_labelled_number(label: Seq<char>, n: nat)
    requires
        single_line(label),
    ensures
        single_line(label + decimal(n)),
{
    lemma_decimal_single_line(n);
    lemma_single_line_cat(label, decimal(n));
}

proof fn lemma_labelled_flag(label: Seq<char>, b: bool)
    requires
        single_line(label),
    ensures
        single_line(label + bool_text_spec(b)),
{
    lemma_single_line_cat(label, bool_text_spec(b));
}

/// The guard diagnostics are seven lines, or ten when there is a latest
/// successful record, each without a line break: the first names the guard
/// age and the last says whether the capture would be refused. The text of
/// [`stale_history_clipboard_debug`] is these lines joined by line breaks.
pub proof fn stale_debug_line_law(
    records: Seq<HistoryRecord>,
    now_ms: u64,
    guard_sec: u64,
    captured: Seq<char>,
    backup: Option<Seq<char>>,
    sequence_changed: bool,
)
    ensures
        ({
            let lines = stale_debug_lines(records, now_ms, guard_sec, captured, backup, sequence_changed);
            &&& lines.len() == if latest_success(records) is None { 7int } else { 10int }
            &&& lines[0] == "guard_sec: "@ + decimal(guard_sec as nat)
            &&& lines.last() == "would_block: "@ + bool_text_spec(
                stale_reuse(records, now_ms, guard_sec, captured, backup, sequence_changed),
            )
            &&& forall|i: int| 0 <= i < lines.len() ==> single_line(#[trigger] lines[i])
        }),
{
    reveal_strlit("guard_sec: ");
    reveal_strlit("captured_len: ");
    reveal_strlit("backup_len: ");
    reveal_strlit("captured_eq_backup: ");
    reveal_strlit("clipboard_sequence_changed: ");
    reveal_strlit("latest_success_record: None");
    reveal_strlit("latest_record_age_ms: ");
    reveal_strlit("latest_record_source_len: ");
    reveal_strlit("captured_matches_record: ");
    reveal_strlit("age_gt_guard: ");
    reveal_strlit("would_block: ");
    let lines = stale_debug_lines(records, now_ms, guard_sec, captured, backup, sequence_changed);
    let cap = trim_spec(captured);
    let bk = backup_norm(backup);
    assert(single_line("guard_sec: "@));
    assert(single_line("captured_len: "@));
    assert(single_line("backup_len: "@));
    assert(single_line("captured_eq_backup: "@));
    assert(single_line("clipboard_sequence_changed: "@));
    assert(single_line("latest_success_record: None"@));
    assert(single_line("latest_record_age_ms: "@));
    assert(single_line("latest_record_source_len: "@));
    assert(single_line("captured_matches_record: "@));
    assert(single_line("age_gt_guard: "@));
    assert(single_line("would_block: "@));
    lemma_labelled_number("guard_sec: "@, guard_sec as nat);
    lemma_labelled_number("captured_len: "@, byte_len(cap));
    lemma_labelled_number("backup_len: "@, byte_len(bk));
    lemma_labelled_flag("captured_eq_backup: "@, cap.len() > 0 && cap == bk);
    lemma_labelled_flag("clipboard_sequence_changed: "@, sequence_changed);
    lemma_labelled_flag(
        "would_block: "@,
        stale_reuse(records, now_ms, guard_sec, captured, backup, sequence_changed),
    );
    match latest_success(records) {
        None => {},
        Some(rec) => {
            let age = sat_sub(now_ms, rec.created_at);
            lemma_labelled_number("latest_record_age_ms: "@, age as nat);
            lemma_labelled_number("latest_record_source_len: "@, byte_len(trim_spec(rec.source_text@)));
            lemma_labelled_flag("captured_matches_record: "@, text_matches(cap, rec));
            lemma_labelled_flag("age_gt_guard: "@, age > guard_ms(guard_sec));
        },
    }
}

proof fn lemma_first_ok_shift(f: HistoryRecord, rs: Seq<HistoryRecord>, i: nat)
    requires
        i <= rs.len(),
    ensures
        first_ok_from(seq![f] + rs, i + 1) == first_ok_from(rs, i) + 1,
    decreases rs.len() - i,
{
    let all = seq![f] + rs;
    if i < rs.len() {
        assert(all[(i + 1) as int] == rs[i as int]);
        if !rs[i as int].ok {
            lemma_first_ok_shift(f, rs, i + 1);
        }
    }
}

/// The guard is decided by the newest successful record: a failed translation
/// in front of the history changes nothing, and a successful one in front is
/// the record the guard compares with.
pub proof fn guard_skips_failed_records(
    f: HistoryRecord,
    rs: Seq<HistoryRecord>,
    now_ms: u64,
    guard_sec: u64,
    captured: Seq<char>,
    backup: Option<Seq<char>>,
    sequence_changed: bool,
)
    ensures
        !f.ok ==> latest_success(seq![f] + rs) == latest_success(rs),
        !f.ok ==> stale_reuse(seq![f] + rs, now_ms, guard_sec, captured, backup, sequence_changed) == stale_reuse(
            rs,
            now_ms,
            guard_sec,
            captured,
            backup,
            sequence_changed,
        ),
        f.ok ==> latest_success(seq![f] + rs) == Some(f),
{
    let all = seq![f] + rs;
    assert(all[0] == f);
    if !f.ok {
        lemma_first_ok_shift(f, rs, 0);
        let k = first_ok_from(rs, 0);
        lemma_first_ok_bounds(rs, 0);
        if k < rs.len() {
            assert(all[(k + 1) as int] == rs[k as int]);
        }
    }
}

/// The stale capture is refused: with the guard on and no new copy, when the
/// newest successful record is older than the guard and the trimmed capture
/// is not empty, equals that record's trimmed source or translation, and
/// equals the trimmed clipboard text from before the copy.
pub proof fn stale_capture_is_refused(
    records: Seq<HistoryRecord>,
    rec: HistoryRecord,
    now_ms: u64,
    guard_sec: u64,
    captured: Seq<char>,
    backup: Option<Seq<char>>,
)
    requires
        latest_success(records) == Some(rec),
        guard_sec > 0,
        now_ms >= rec.created_at,
        now_ms - rec.created_at > guard_sec * 1000,
        trim_spec(captured).len() > 0,
        trim_spec(captured) == trim_spec(rec.source_text@) || (rec.translated_text matches Some(t) && trim_spec(
            captured,
        ) == trim_spec(t@)),
        backup matches Some(b) && trim_spec(b) == trim_spec(captured),
    ensures
        stale_reuse(records, now_ms, guard_sec, captured, backup, false),
{
}

/// The history limit in force is the requested one when it lies within 20
/// through 500, and the nearest bound otherwise; trimming keeps the newest
/// `min(len, limit)` records and appending keeps `min(len + 1, limit)`.
pub proof fn limit_is_the_requested_one(before: Seq<HistoryRecord>, rec: HistoryRecord, limit: usize)
    ensures
        20 <= limit <= 500 ==> clamp_limit(limit) == limit,
        limit < 20 ==> clamp_limit(limit) == 20,
        limit > 500 ==> clamp_limit(limit) == 500,
        20 <= limit <= 500 ==> trimmed(before, limit).len() == if before.len() < limit {
            before.len() as int
        } else {
            limit as int
        },
        20 <= limit <= 500 ==> appended(before, rec, clamp_limit(limit)).len() == if before.len() + 1 < limit {
            (before.len() + 1) as int
        } else {
            limit as int
        },
{
}

} // verus!
