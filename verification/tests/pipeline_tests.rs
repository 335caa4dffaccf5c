use quick_translate::capture::{SelectionResult, TranslateAction};
use quick_translate::history::HistoryRecord;
use quick_translate::pipeline::{CaptureJob, PipelineAction, PipelineEvent, Stage};
use quick_translate::selection::TargetHwnd;
use quick_translate::settings::TranslateSettings;
use quick_translate::translation::TranslateResult;

fn captured(text: Option<&str>, ok: bool, error: Option<&str>, changed: bool) -> SelectionResult {
    SelectionResult {
        ok,
        text: text.map(|t| t.to_string()),
        error: error.map(|e| e.to_string()),
        restored_clipboard: true,
        duration_ms: 30,
        clipboard_sequence_changed: changed,
    }
}

fn translated(ok: bool, text: Option<&str>, error: Option<&str>, source: &str) -> TranslateResult {
    TranslateResult {
        ok,
        source_text: source.to_string(),
        translated_text: text.map(|t| t.to_string()),
        provider: Some("baidu".to_string()),
        from_cache: false,
        error: error.map(|e| e.to_string()),
        duration_ms: 42,
    }
}

fn old_record(source: &str, translated: &str, created_at: u64) -> HistoryRecord {
    HistoryRecord {
        id: created_at.to_string(),
        created_at,
        source_text: source.to_string(),
        translated_text: Some(translated.to_string()),
        ok: true,
        error: None,
        provider: Some("baidu".to_string()),
        from_cache: false,
        duration_ms: 1,
    }
}

fn expect_error_bubble(a: &PipelineAction, msg: &str, source: Option<&str>) {
    match a {
        PipelineAction::PresentBubble(p) => {
            assert_eq!(p.phase, "error");
            assert_eq!(p.error.as_deref(), Some(msg));
            assert_eq!(p.source_text.as_deref(), source);
        }
        other => panic!("expected an error bubble, got {:?}", other),
    }
}

fn started_job(settings: &TranslateSettings, action: TranslateAction, clip: Option<&str>) -> CaptureJob {
    let mut job = CaptureJob::new(settings, TargetHwnd(77), action);
    job.step(PipelineEvent::Start);
    job.step(PipelineEvent::HotkeyClipboard(clip.map(|c| c.to_string())));
    job
}

#[test]
fn bubble_job_runs_from_hotkey_to_done() {
    let s = TranslateSettings::default();
    let mut job = CaptureJob::new(&s, TargetHwnd(77), TranslateAction::Bubble);
    assert_eq!(job.stage, Stage::Ready);

    let a = job.step(PipelineEvent::Start);
    assert_eq!(a.len(), 4);
    assert!(matches!(a[0], PipelineAction::ClearReplaceSession));
    match &a[1] {
        PipelineAction::PresentBubble(p) => {
            assert_eq!(p.phase, "loading");
            assert_eq!(p.source_text.as_deref(), Some("取词中…"));
            assert_eq!(p.provider.as_deref(), Some("baidu"));
        }
        other => panic!("unexpected {:?}", other),
    }
    assert!(matches!(a[2], PipelineAction::EmitStarted));
    assert!(matches!(a[3], PipelineAction::ReadHotkeyClipboard));

    let a = job.step(PipelineEvent::HotkeyClipboard(Some("old clip".to_string())));
    assert_eq!(a.len(), 1);
    assert!(matches!(a[0], PipelineAction::CaptureSelection { restore_clipboard: true, copy_delay_ms: 200 }));

    let a = job.step(PipelineEvent::Captured {
        selection: captured(Some("hello"), true, None, true),
        history: vec![],
        now_ms: 1000,
        timestamp: "unix=1".to_string(),
    });
    assert_eq!(a.len(), 3);
    match &a[0] {
        PipelineAction::AppendLog(log) => assert_eq!(
            log,
            "\n=== [capture-pipeline:capture-thread] unix=1 ===\nselection_ok: true\ncaptured_len: 5\n\
guard_sec: 0\ncaptured_len: 5\nbackup_len: 8\ncaptured_eq_backup: false\nclipboard_sequence_changed: true\n\
latest_success_record: None\nwould_block: false\nfinal_result: PASS → 开始翻译\n"
        ),
        other => panic!("unexpected {:?}", other),
    }
    match &a[1] {
        PipelineAction::PresentBubble(p) => {
            assert_eq!(p.phase, "loading");
            assert_eq!(p.source_text.as_deref(), Some("hello"));
        }
        other => panic!("unexpected {:?}", other),
    }
    match &a[2] {
        PipelineAction::Translate(t) => assert_eq!(t, "hello"),
        other => panic!("unexpected {:?}", other),
    }
    assert_eq!(job.stage, Stage::AwaitingTranslation);

    let a = job.step(PipelineEvent::Translated {
        result: translated(true, Some("你好"), None, "hello"),
        timestamp: "unix=2".to_string(),
    });
    assert_eq!(a.len(), 8);
    match &a[0] {
        PipelineAction::AppendLog(log) => assert_eq!(
            log,
            "\n=== [capture-pipeline:translate-done] unix=2 ===\ntranslate_ok: true\nfrom_cache: false\nduration_ms: 42\nerror: \n"
        ),
        other => panic!("unexpected {:?}", other),
    }
    match &a[1] {
        PipelineAction::SetReplaceSession(t, text) => {
            assert_eq!(*t, TargetHwnd(77));
            assert_eq!(text, "你好");
        }
        other => panic!("unexpected {:?}", other),
    }
    match &a[2] {
        PipelineAction::PresentBubble(p) => {
            assert_eq!(p.phase, "success");
            assert_eq!(p.source_text.as_deref(), Some("hello"));
            assert_eq!(p.translated_text.as_deref(), Some("你好"));
        }
        other => panic!("unexpected {:?}", other),
    }
    assert!(matches!(a[3], PipelineAction::ScheduleAutoHide(12)));
    match &a[4] {
        PipelineAction::RestoreClipboard(c) => assert_eq!(c.as_deref(), Some("old clip")),
        other => panic!("unexpected {:?}", other),
    }
    match &a[5] {
        PipelineAction::AppendHistory { source, result, max_records } => {
            assert_eq!(source, "hello");
            assert_eq!(result.translated_text.as_deref(), Some("你好"));
            assert_eq!(*max_records, 200);
        }
        other => panic!("unexpected {:?}", other),
    }
    assert!(matches!(a[6], PipelineAction::EmitHistoryUpdated));
    match &a[7] {
        PipelineAction::EmitDone(d) => {
            assert!(d.selection.ok);
            assert_eq!(d.selection.text.as_deref(), Some("hello"));
            assert!(d.translate.ok);
        }
        other => panic!("unexpected {:?}", other),
    }
    assert_eq!(job.stage, Stage::Finished);
    assert!(job.step(PipelineEvent::Start).is_empty());
    assert!(job.step(PipelineEvent::Replaced(Ok(()))).is_empty());
}

#[test]
fn replace_job_pastes_and_keeps_the_translation_in_the_clipboard() {
    let mut s = TranslateSettings::default();
    s.copy_delay_ms = 100;
    let mut job = CaptureJob::new(&s, TargetHwnd(9), TranslateAction::Replace);
    let a = job.step(PipelineEvent::Start);
    assert_eq!(a.len(), 2);
    assert!(matches!(a[0], PipelineAction::EmitStarted));
    assert!(matches!(a[1], PipelineAction::ReadHotkeyClipboard));
    let a = job.step(PipelineEvent::HotkeyClipboard(None));
    assert!(matches!(a[0], PipelineAction::CaptureSelection { restore_clipboard: false, copy_delay_ms: 300 }));
    let a = job.step(PipelineEvent::Captured {
        selection: captured(Some("abc"), true, None, false),
        history: vec![],
        now_ms: 5,
        timestamp: "t".to_string(),
    });
    assert_eq!(a.len(), 2);
    assert!(matches!(a[0], PipelineAction::AppendLog(_)));
    assert!(matches!(a[1], PipelineAction::Translate(_)));
    let a = job.step(PipelineEvent::Translated {
        result: translated(true, Some("X"), None, "abc"),
        timestamp: "t".to_string(),
    });
    assert_eq!(a.len(), 2);
    match &a[1] {
        PipelineAction::ApplyReplace(t, text) => {
            assert_eq!(*t, TargetHwnd(9));
            assert_eq!(text, "X");
        }
        other => panic!("unexpected {:?}", other),
    }
    assert_eq!(job.stage, Stage::AwaitingReplace);
    let a = job.step(PipelineEvent::Replaced(Ok(())));
    assert_eq!(a.len(), 4);
    assert!(matches!(a[0], PipelineAction::HideBubble));
    assert!(matches!(a[1], PipelineAction::AppendHistory { .. }));
    assert!(matches!(a[2], PipelineAction::EmitHistoryUpdated));
    assert!(matches!(a[3], PipelineAction::EmitDone(_)));
    assert!(!a.iter().any(|x| matches!(x, PipelineAction::RestoreClipboard(_))));
    assert_eq!(job.stage, Stage::Finished);
}

#[test]
fn failed_paste_is_shown_with_the_source() {
    let s = TranslateSettings::default();
    let mut job = started_job(&s, TranslateAction::Replace, None);
    job.step(PipelineEvent::Captured {
        selection: captured(Some("abc"), true, None, false),
        history: vec![],
        now_ms: 5,
        timestamp: "t".to_string(),
    });
    job.step(PipelineEvent::Translated { result: translated(true, Some("X"), None, "abc"), timestamp: "t".to_string() });
    let a = job.step(PipelineEvent::Replaced(Err("粘贴 SendInput 失败".to_string())));
    assert_eq!(a.len(), 5);
    expect_error_bubble(&a[0], "替换失败: 粘贴 SendInput 失败", Some("abc"));
    assert!(matches!(a[1], PipelineAction::ScheduleAutoHide(12)));
    assert!(matches!(a[4], PipelineAction::EmitDone(_)));
}

#[test]
fn replace_without_translated_text_hides_the_bubble() {
    let s = TranslateSettings::default();
    let mut job = started_job(&s, TranslateAction::Replace, None);
    job.step(PipelineEvent::Captured {
        selection: captured(Some("abc"), true, None, false),
        history: vec![],
        now_ms: 5,
        timestamp: "t".to_string(),
    });
    let a = job.step(PipelineEvent::Translated { result: translated(true, None, None, "abc"), timestamp: "t".to_string() });
    assert_eq!(a.len(), 5);
    assert!(matches!(a[1], PipelineAction::HideBubble));
    assert_eq!(job.stage, Stage::Finished);
}

#[test]
fn nothing_selected_in_a_replace_job_only_hides_the_bubble() {
    let s = TranslateSettings::default();
    let mut job = started_job(&s, TranslateAction::Replace, Some("x"));
    let a = job.step(PipelineEvent::Captured {
        selection: captured(None, false, Some("请先选中要翻译的文字"), false),
        history: vec![],
        now_ms: 5,
        timestamp: "t".to_string(),
    });
    assert_eq!(a.len(), 2);
    assert!(matches!(a[0], PipelineAction::HideBubble));
    match &a[1] {
        PipelineAction::EmitDone(d) => {
            assert!(!d.selection.ok);
            assert!(!d.translate.ok);
            assert_eq!(d.translate.error.as_deref(), Some("取词失败"));
        }
        other => panic!("unexpected {:?}", other),
    }
    assert_eq!(job.stage, Stage::Finished);
}

#[test]
fn failed_capture_in_a_bubble_job_shows_its_error() {
    let s = TranslateSettings::default();
    let mut job = started_job(&s, TranslateAction::Bubble, None);
    let a = job.step(PipelineEvent::Captured {
        selection: captured(None, false, Some("复制失败：超时"), false),
        history: vec![],
        now_ms: 5,
        timestamp: "t".to_string(),
    });
    assert_eq!(a.len(), 3);
    expect_error_bubble(&a[0], "复制失败：超时", None);
    assert!(matches!(a[1], PipelineAction::ScheduleAutoHide(12)));
    assert!(matches!(a[2], PipelineAction::EmitDone(_)));
}

#[test]
fn failed_capture_with_a_stale_clipboard_asks_for_a_selection() {
    let mut s = TranslateSettings::default();
    s.translate_clipboard_guard_sec = 5;
    let mut job = started_job(&s, TranslateAction::Bubble, Some(" hello "));
    let a = job.step(PipelineEvent::Captured {
        selection: captured(None, false, Some("复制失败：超时"), false),
        history: vec![old_record("hello", "你好", 0)],
        now_ms: 10_000,
        timestamp: "t".to_string(),
    });
    expect_error_bubble(&a[0], "请先选中要翻译的文字", None);
}

#[test]
fn stale_clipboard_text_is_refused_before_translation() {
    let mut s = TranslateSettings::default();
    s.translate_clipboard_guard_sec = 5;
    let mut job = started_job(&s, TranslateAction::Bubble, Some("你好"));
    let a = job.step(PipelineEvent::Captured {
        selection: captured(Some("你好"), true, None, false),
        history: vec![old_record("hello", "你好", 0)],
        now_ms: 10_000,
        timestamp: "t".to_string(),
    });
    assert_eq!(a.len(), 4);
    match &a[0] {
        PipelineAction::AppendLog(log) => {
            assert!(log.contains("would_block: true"));
            assert!(log.ends_with("final_result: REJECT history-guard → 请先选中（未调用翻译）\n"));
        }
        other => panic!("unexpected {:?}", other),
    }
    expect_error_bubble(&a[1], "请先选中要翻译的文字", Some("你好"));
    match &a[3] {
        PipelineAction::EmitDone(d) => {
            assert!(!d.selection.ok);
            assert!(d.selection.text.is_none());
            assert_eq!(d.selection.error.as_deref(), Some("请先选中要翻译的文字"));
            assert_eq!(d.selection.duration_ms, 30);
        }
        other => panic!("unexpected {:?}", other),
    }
    assert!(!a.iter().any(|x| matches!(x, PipelineAction::Translate(_))));
    assert_eq!(job.stage, Stage::Finished);
}

#[test]
fn a_changed_sequence_number_passes_the_guard() {
    let mut s = TranslateSettings::default();
    s.translate_clipboard_guard_sec = 5;
    let mut job = started_job(&s, TranslateAction::Bubble, Some("你好"));
    let a = job.step(PipelineEvent::Captured {
        selection: captured(Some("你好"), true, None, true),
        history: vec![old_record("hello", "你好", 0)],
        now_ms: 10_000,
        timestamp: "t".to_string(),
    });
    assert!(matches!(a[2], PipelineAction::Translate(_)));
}

#[test]
fn blank_capture_asks_for_a_selection() {
    let s = TranslateSettings::default();
    let mut job = started_job(&s, TranslateAction::Bubble, None);
    let a = job.step(PipelineEvent::Captured {
        selection: captured(Some("   "), true, None, false),
        history: vec![],
        now_ms: 5,
        timestamp: "t".to_string(),
    });
    assert_eq!(a.len(), 3);
    expect_error_bubble(&a[0], "请先选中要翻译的文字", Some("   "));
}

#[test]
fn failed_translation_offers_the_browser_page() {
    let s = TranslateSettings::default();
    let mut job = started_job(&s, TranslateAction::Bubble, Some("c"));
    job.step(PipelineEvent::Captured {
        selection: captured(Some("hello"), true, None, false),
        history: vec![],
        now_ms: 5,
        timestamp: "t".to_string(),
    });
    let a = job.step(PipelineEvent::Translated {
        result: translated(false, None, Some("网络错误"), "hello"),
        timestamp: "t".to_string(),
    });
    assert_eq!(a.len(), 8);
    match &a[0] {
        PipelineAction::AppendLog(log) => assert!(log.ends_with("translate_ok: false\nfrom_cache: false\nduration_ms: 42\nerror: 网络错误\n")),
        other => panic!("unexpected {:?}", other),
    }
    expect_error_bubble(&a[1], "网络错误", Some("hello"));
    match &a[2] {
        PipelineAction::OpenInBrowser(t) => assert_eq!(t, "hello"),
        other => panic!("unexpected {:?}", other),
    }
    assert!(matches!(a[3], PipelineAction::ScheduleAutoHide(12)));
    assert!(matches!(a[4], PipelineAction::RestoreClipboard(_)));
}

#[test]
fn failed_translation_without_source_gives_the_generic_error() {
    let mut s = TranslateSettings::default();
    s.restore_clipboard = false;
    let mut job = started_job(&s, TranslateAction::Bubble, Some("c"));
    job.step(PipelineEvent::Captured {
        selection: captured(Some("hello"), true, None, false),
        history: vec![],
        now_ms: 5,
        timestamp: "t".to_string(),
    });
    let a = job.step(PipelineEvent::Translated { result: translated(false, None, None, ""), timestamp: "t".to_string() });
    assert_eq!(a.len(), 6);
    expect_error_bubble(&a[1], "翻译失败", Some("hello"));
    assert!(matches!(a[2], PipelineAction::ScheduleAutoHide(12)));
    assert!(matches!(a[3], PipelineAction::AppendHistory { .. }));
}

#[test]
fn events_out_of_turn_are_ignored() {
    let s = TranslateSettings::default();
    let mut job = CaptureJob::new(&s, TargetHwnd(1), TranslateAction::Bubble);
    assert!(job.step(PipelineEvent::Translated { result: translated(true, Some("x"), None, "y"), timestamp: "t".to_string() }).is_empty());
    assert!(job.step(PipelineEvent::HotkeyClipboard(None)).is_empty());
    assert_eq!(job.stage, Stage::Ready);
    job.step(PipelineEvent::Start);
    assert!(job.step(PipelineEvent::Start).is_empty());
    assert_eq!(job.stage, Stage::AwaitingClipboard);
}

#[test]
fn replace_job_presents_no_bubble_when_all_succeeds() {
    let s = TranslateSettings::default();
    let mut job = CaptureJob::new(&s, TargetHwnd(3), TranslateAction::Replace);
    let mut all = job.step(PipelineEvent::Start);
    all.extend(job.step(PipelineEvent::HotkeyClipboard(Some("x".to_string()))));
    all.extend(job.step(PipelineEvent::Captured {
        selection: captured(Some("abc"), true, None, false),
        history: vec![],
        now_ms: 5,
        timestamp: "t".to_string(),
    }));
    all.extend(job.step(PipelineEvent::Translated { result: translated(true, Some("X"), None, "abc"), timestamp: "t".to_string() }));
    all.extend(job.step(PipelineEvent::Replaced(Ok(()))));
    assert!(!all.iter().any(|a| matches!(a, PipelineAction::PresentBubble(_))));
    assert!(all.iter().any(|a| matches!(a, PipelineAction::ApplyReplace(_, _))));
    assert_eq!(job.stage, Stage::Finished);
}
