use quick_translate::capture::TranslateAction;
use quick_translate::commands::{
    exit_allowed, history_record_payload, hotkey_dispatch, shell_step, ShellEvent, ShellReaction, hotkeys_to_register, record_missing,
    translate_result_payload, tray_menu_command, window_close_action, CloseAction, HotkeyCommand,
    TrayCommand,
};
use quick_translate::history::HistoryRecord;
use quick_translate::settings::TranslateSettings;
use quick_translate::translation::TranslateResult;

#[test]
fn hotkeys_are_dispatched() {
    assert_eq!(hotkey_dispatch(false, true, true, true, true, true), HotkeyCommand::Ignore);
    assert_eq!(hotkey_dispatch(true, true, true, false, true, false), HotkeyCommand::ReplaceFromBubble);
    assert_eq!(hotkey_dispatch(true, true, false, true, false, false), HotkeyCommand::ReplaceFromBubble);
    assert_eq!(
        hotkey_dispatch(true, true, false, false, true, false),
        HotkeyCommand::Start(TranslateAction::Replace)
    );
    assert_eq!(
        hotkey_dispatch(true, false, true, true, false, true),
        HotkeyCommand::Start(TranslateAction::Bubble)
    );
    assert_eq!(hotkey_dispatch(true, false, false, true, false, false), HotkeyCommand::Ignore);
    assert_eq!(hotkey_dispatch(true, false, false, false, false, false), HotkeyCommand::Ignore);
}

#[test]
fn registered_hotkeys_are_distinct() {
    let mut s = TranslateSettings::default();
    assert_eq!(hotkeys_to_register(&s), vec!["Ctrl+T".to_string(), "Ctrl+Shift+T".to_string()]);
    s.replace_hotkey = "Ctrl+T".to_string();
    assert_eq!(hotkeys_to_register(&s), vec!["Ctrl+T".to_string()]);
    s.enabled = false;
    assert!(hotkeys_to_register(&s).is_empty());
}

#[test]
fn closing_windows_never_quits() {
    assert_eq!(window_close_action("main"), CloseAction::ReleaseToTray);
    assert_eq!(window_close_action("translate-bubble"), CloseAction::HideBubble);
    assert_eq!(window_close_action("translate-scraper"), CloseAction::Nothing);
    assert!(!exit_allowed(false));
    assert!(exit_allowed(true));
}

#[test]
fn tray_menu_items() {
    assert_eq!(tray_menu_command("show"), TrayCommand::ShowSettings);
    assert_eq!(tray_menu_command("quit"), TrayCommand::Quit);
    assert_eq!(tray_menu_command("other"), TrayCommand::Nothing);
}

#[test]
fn bubbles_for_results_and_records() {
    let ok = TranslateResult {
        ok: true,
        source_text: "hi".to_string(),
        translated_text: Some("你好".to_string()),
        provider: Some("youdao".to_string()),
        from_cache: true,
        error: None,
        duration_ms: 3,
    };
    let p = translate_result_payload(&"hi there".to_string(), &ok);
    assert_eq!(p.phase, "success");
    assert_eq!(p.source_text.as_deref(), Some("hi there"));
    assert_eq!(p.translated_text.as_deref(), Some("你好"));
    assert_eq!(p.provider.as_deref(), Some("youdao"));
    assert!(p.from_cache);
    assert_eq!(p.theme, "");
    assert_eq!(p.opacity, 0);

    let failed = TranslateResult { ok: false, error: None, translated_text: None, ..ok.clone() };
    let p = translate_result_payload(&"hi".to_string(), &failed);
    assert_eq!(p.phase, "error");
    assert_eq!(p.error.as_deref(), Some("翻译失败"));
    assert_eq!(p.source_text.as_deref(), Some("hi"));

    let rec = HistoryRecord {
        id: "1".to_string(),
        created_at: 1,
        source_text: "src".to_string(),
        translated_text: None,
        ok: false,
        error: Some("超时".to_string()),
        provider: None,
        from_cache: false,
        duration_ms: 0,
    };
    let p = history_record_payload(&rec);
    assert_eq!(p.phase, "error");
    assert_eq!(p.error.as_deref(), Some("超时"));
    assert_eq!(p.source_text.as_deref(), Some("src"));
    assert_eq!(record_missing(), "记录不存在");
}

#[test]
fn process_keeps_running_until_quit() {
    let (q, r) = shell_step(false, &ShellEvent::ExitRequested);
    assert!(!q);
    assert_eq!(r, ShellReaction::PreventExit);
    let (q, r) = shell_step(q, &ShellEvent::CloseRequested("main".to_string()));
    assert_eq!(r, ShellReaction::ReleaseToTray);
    let (q, r) = shell_step(q, &ShellEvent::CloseRequested("translate-bubble".to_string()));
    assert_eq!(r, ShellReaction::HideBubble);
    let (q, r) = shell_step(q, &ShellEvent::Tray(TrayCommand::ShowSettings));
    assert!(!q);
    assert_eq!(r, ShellReaction::ShowSettings);
    let (q, r) = shell_step(q, &ShellEvent::Tray(TrayCommand::Quit));
    assert!(q);
    assert_eq!(r, ShellReaction::Quit);
    let (q, r) = shell_step(q, &ShellEvent::ExitRequested);
    assert!(q);
    assert_eq!(r, ShellReaction::AllowExit);
    let (_, r) = shell_step(q, &ShellEvent::CloseRequested("other".to_string()));
    assert_eq!(r, ShellReaction::Nothing);
}
