//! The decisions of the application shell: which hotkey does what, which
//! hotkeys are registered, what closing a window and the tray menu do, and
//! the bubble shown for a translation or a history record.

use crate::bubble::{error_view, BubblePayload, BubbleView};
use crate::capture::TranslateAction;
use crate::history::HistoryRecord;
use crate::settings::TranslateSettings;
use crate::text::{copy_opt_string, opt_view, str_eq, views};
use crate::translation::{TranslateResult, TranslateView};
use vstd::prelude::*;

verus! {

broadcast use vstd::string::group_string_axioms;

/// What a pressed hotkey does.
#[derive(Debug, Clone, Copy, PartialEq, Eq, Structural)]
pub enum HotkeyCommand {
    Ignore,
    /// Write the translation shown in the bubble back into its window.
    ReplaceFromBubble,
    /// Capture the selection and translate it.
    Start(TranslateAction),
}

/// What a pressed hotkey does: nothing while the tool is off; a write-back
/// while the bubble shows a translation and a replacing hotkey is pressed, or
/// whenever the bubble is shown and the bubble's own hotkey is pressed;
/// otherwise a replacement, a bubble translation, or nothing.
pub open spec fn dispatch_spec(
    enabled: bool,
    bubble_visible: bool,
    has_session: bool,
    is_bubble_replace: bool,
    is_replace: bool,
    is_translate: bool,
) -> HotkeyCommand {
    if !enabled {
        HotkeyCommand::Ignore
    } else if bubble_visible && has_session && (is_bubble_replace || is_replace) {
        HotkeyCommand::ReplaceFromBubble
    } else if bubble_visible && is_bubble_replace {
        HotkeyCommand::ReplaceFromBubble
    } else if is_replace {
        HotkeyCommand::Start(TranslateAction::Replace)
    } else if is_translate {
        HotkeyCommand::Start(TranslateAction::Bubble)
    } else {
        HotkeyCommand::Ignore
    }
}

/// Decides what a pressed hotkey does, given which configured hotkeys it is.
pub fn hotkey_dispatch(
    enabled: bool,
    bubble_visible: bool,
    has_session: bool,
    is_bubble_replace: bool,
    is_replace: bool,
    is_translate: bool,
) -> (r: HotkeyCommand)
    ensures
        r == dispatch_spec(enabled, bubble_visible, has_session, is_bubble_replace, is_replace, is_translate),
{
    if !enabled {
        return HotkeyCommand::Ignore;
    }
    if bubble_visible && has_session && (is_bubble_replace || is_replace) {
        return HotkeyCommand::ReplaceFromBubble;
    }
    if bubble_visible && is_bubble_replace {
        return HotkeyCommand::ReplaceFromBubble;
    }
    if is_replace {
        HotkeyCommand::Start(TranslateAction::Replace)
    } else if is_translate {
        HotkeyCommand::Start(TranslateAction::Bubble)
    } else {
        HotkeyCommand::Ignore
    }
}

/// While the bubble shows a translation, a replacing hotkey writes it back
/// and never starts a new capture.
pub proof fn shown_translation_is_written_back(
    bubble_replace: bool,
    replace: bool,
    translate: bool,
)
    requires
        bubble_replace || replace,
    ensures
        dispatch_spec(true, true, true, bubble_replace, replace, translate) == HotkeyCommand::ReplaceFromBubble,
{
}

/// With the tool on and no bubble shown, the replace hotkey starts a
/// replacement and the bubble hotkey (when it is not also the replace hotkey)
/// starts a bubble translation; with the tool off every hotkey is ignored.
pub proof fn hotkeys_start_their_jobs(has_session: bool, bubble_replace: bool, replace: bool, translate: bool, visible: bool)
    ensures
        dispatch_spec(true, false, has_session, bubble_replace, true, translate) == HotkeyCommand::Start(
            TranslateAction::Replace,
        ),
        dispatch_spec(true, false, has_session, bubble_replace, false, true) == HotkeyCommand::Start(
            TranslateAction::Bubble,
        ),
        dispatch_spec(false, visible, has_session, bubble_replace, replace, translate) == HotkeyCommand::Ignore,
        dispatch_spec(true, visible, has_session, false, false, false) == HotkeyCommand::Ignore,
{
}

/// The hotkeys registered for the whole session: none while the tool is off,
/// else the bubble hotkey and the replace hotkey, once each.
pub open spec fn hotkeys_spec(enabled: bool, hotkey: Seq<char>, replace_hotkey: Seq<char>) -> Seq<Seq<char>> {
    if !enabled {
        Seq::empty()
    } else if replace_hotkey == hotkey {
        seq![hotkey]
    } else {
        seq![hotkey, replace_hotkey]
    }
}

/// The hotkeys to register after all earlier ones are dropped.
pub fn hotkeys_to_register(settings: &TranslateSettings) -> (r: Vec<String>)
    ensures
        views(r@) == hotkeys_spec(settings.enabled, settings.hotkey@, settings.replace_hotkey@),
{
    let mut v: Vec<String> = Vec::new();
    if !settings.enabled {
        assert(views(v@) =~= Seq::<Seq<char>>::empty());
        return v;
    }
    v.push(settings.hotkey.clone());
    if !str_eq(settings.replace_hotkey.as_str(), settings.hotkey.as_str()) {
        v.push(settings.replace_hotkey.clone());
    }
    assert(views(v@) =~= hotkeys_spec(settings.enabled, settings.hotkey@, settings.replace_hotkey@));
    v
}

/// What closing a window does; the window itself always stays, so that the
/// tool keeps running in the tray.
#[derive(Debug, Clone, Copy, PartialEq, Eq, Structural)]
pub enum CloseAction {
    /// The settings window: release every web view and keep only the tray.
    ReleaseToTray,
    /// The bubble: hide it.
    HideBubble,
    Nothing,
}

/// What closing the window labelled `label` does: the settings window goes to
/// the tray, the bubble is hidden, any other window stays.
pub open spec fn close_action_spec(label: Seq<char>) -> CloseAction {
    if label == "main"@ {
        CloseAction::ReleaseToTray
    } else if label == "translate-bubble"@ {
        CloseAction::HideBubble
    } else {
        CloseAction::Nothing
    }
}

/// What closing the window labelled `label` does.
pub fn window_close_action(label: &str) -> (r: CloseAction)
    ensures
        r == close_action_spec(label@),
{
    proof {
        reveal_strlit("main");
        reveal_strlit("translate-bubble");
        assert("main"@.len() != "translate-bubble"@.len());
    }
    if str_eq(label, "main") {
        CloseAction::ReleaseToTray
    } else if str_eq(label, "translate-bubble") {
        CloseAction::HideBubble
    } else {
        CloseAction::Nothing
    }
}

/// Whether the process may end: only after the tray menu asked to quit, so
/// that closing windows never ends it.
pub fn exit_allowed(quit_requested: bool) -> (r: bool)
    ensures
        r == quit_requested,
{
    quit_requested
}

/// A choice in the tray menu.
#[derive(Debug, Clone, Copy, PartialEq, Eq, Structural)]
pub enum TrayCommand {
    ShowSettings,
    Quit,
    Nothing,
}

/// The tray menu item with id `id`.
pub fn tray_menu_command(id: &str) -> (r: TrayCommand)
    ensures
        id@ == "show"@ ==> r == TrayCommand::ShowSettings,
        id@ == "quit"@ ==> r == TrayCommand::Quit,
        id@ != "show"@ && id@ != "quit"@ ==> r == TrayCommand::Nothing,
{
    proof {
        reveal_strlit("show");
        reveal_strlit("quit");
        assert("show"@[0] != "quit"@[0]);
    }
    if str_eq(id, "show") {
        TrayCommand::ShowSettings
    } else if str_eq(id, "quit") {
        TrayCommand::Quit
    } else {
        TrayCommand::Nothing
    }
}

/// What happens around the process: a tray menu choice, a request of the
/// event loop to exit, or a request to close the window with a label.
#[derive(Debug)]
pub enum ShellEvent {
    Tray(TrayCommand),
    ExitRequested,
    CloseRequested(String),
}

/// A shell event with the window label taken by its characters.
pub enum ShellEventView {
    Tray(TrayCommand),
    ExitRequested,
    CloseRequested(Seq<char>),
}

impl View for ShellEvent {
    type V = ShellEventView;

    open spec fn view(&self) -> ShellEventView {
        match self {
            ShellEvent::Tray(c) => ShellEventView::Tray(*c),
            ShellEvent::ExitRequested => ShellEventView::ExitRequested,
            ShellEvent::CloseRequested(l) => ShellEventView::CloseRequested(l@),
        }
    }
}

/// What the shell does for an event.
#[derive(Debug, Clone, Copy, PartialEq, Eq, Structural)]
pub enum ShellReaction {
    ShowSettings,
    /// Set the quit flag and end the process.
    Quit,
    /// Let the process end.
    AllowExit,
    /// Keep the process running.
    PreventExit,
    /// Keep the window; release every web view to the tray.
    ReleaseToTray,
    /// Keep the window; hide the bubble.
    HideBubble,
    Nothing,
}

/// The quit flag and the reaction for one event: the tray's quit item sets
/// the flag, which is never cleared; an exit is let through only with the flag
/// set; a closed window never ends the process.
pub open spec fn shell_step_spec(quit_requested: bool, e: ShellEventView) -> (bool, ShellReaction) {
    match e {
        ShellEventView::Tray(c) => match c {
            TrayCommand::ShowSettings => (quit_requested, ShellReaction::ShowSettings),
            TrayCommand::Quit => (true, ShellReaction::Quit),
            TrayCommand::Nothing => (quit_requested, ShellReaction::Nothing),
        },
        ShellEventView::ExitRequested => (
            quit_requested,
            if quit_requested {
                ShellReaction::AllowExit
            } else {
                ShellReaction::PreventExit
            },
        ),
        ShellEventView::CloseRequested(label) => (
            quit_requested,
            match close_action_spec(label) {
                CloseAction::ReleaseToTray => ShellReaction::ReleaseToTray,
                CloseAction::HideBubble => ShellReaction::HideBubble,
                CloseAction::Nothing => ShellReaction::Nothing,
            },
        ),
    }
}

/// The new quit flag and what to do for `event`, given the quit flag.
pub fn shell_step(quit_requested: bool, event: &ShellEvent) -> (r: (bool, ShellReaction))
    ensures
        r == shell_step_spec(quit_requested, event@),
{
    match event {
        ShellEvent::Tray(c) => match c {
            TrayCommand::ShowSettings => (quit_requested, ShellReaction::ShowSettings),
            TrayCommand::Quit => (true, ShellReaction::Quit),
            TrayCommand::Nothing => (quit_requested, ShellReaction::Nothing),
        },
        ShellEvent::ExitRequested => (
            quit_requested,
            if exit_allowed(quit_requested) {
                ShellReaction::AllowExit
            } else {
                ShellReaction::PreventExit
            },
        ),
        ShellEvent::CloseRequested(label) => (
            quit_requested,
            match window_close_action(label.as_str()) {
                CloseAction::ReleaseToTray => ShellReaction::ReleaseToTray,
                CloseAction::HideBubble => ShellReaction::HideBubble,
                CloseAction::Nothing => ShellReaction::Nothing,
            },
        ),
    }
}

/// The quit flag after a run of events, starting unset.
pub open spec fn shell_flag(events: Seq<ShellEventView>) -> bool
    decreases events.len(),
{
    if events.len() == 0 {
        false
    } else {
        shell_step_spec(shell_flag(events.drop_last()), events.last()).0
    }
}

/// The reaction to the event at `k` of a run that started with the flag unset.
pub open spec fn shell_reaction(events: Seq<ShellEventView>, k: int) -> ShellReaction {
    shell_step_spec(shell_flag(events.take(k)), events[k]).1
}

/// Whether the tray's quit item was chosen before position `k`.
pub open spec fn quit_before(events: Seq<ShellEventView>, k: int) -> bool {
    exists|i: int| 0 <= i < k && events[i] == ShellEventView::Tray(TrayCommand::Quit)
}

proof fn lemma_shell_flag(events: Seq<ShellEventView>, k: int)
    requires
        0 <= k <= events.len(),
    ensures
        shell_flag(events.take(k)) == quit_before(events, k),
    decreases k,
{
    if k == 0 {
        assert(events.take(0).len() == 0);
    } else {
        lemma_shell_flag(events, k - 1);
        assert(events.take(k).drop_last() =~= events.take(k - 1));
        assert(events.take(k).last() == events[k - 1]);
        if quit_before(events, k - 1) {
            let i = choose|i: int| 0 <= i < k - 1 && events[i] == ShellEventView::Tray(TrayCommand::Quit);
            assert(0 <= i < k && events[i] == ShellEventView::Tray(TrayCommand::Quit));
        }
        if quit_before(events, k) && !quit_before(events, k - 1) {
            let i = choose|i: int| 0 <= i < k && events[i] == ShellEventView::Tray(TrayCommand::Quit);
            assert(i == k - 1);
        }
    }
}

/// Over any run of events that starts with the quit flag unset, the process
/// ends only after the tray's quit item: an exit request is let through
/// exactly when quit was chosen before it and is refused otherwise, the quit
/// reaction comes only from the quit item, and closing a window never ends the
/// process.
pub proof fn process_exits_only_after_quit(events: Seq<ShellEventView>, k: int)
    requires
        0 <= k < events.len(),
    ensures
        (shell_reaction(events, k) == ShellReaction::AllowExit) == (events[k] == ShellEventView::ExitRequested
            && quit_before(events, k)),
        events[k] == ShellEventView::ExitRequested && !quit_before(events, k) ==> shell_reaction(events, k)
            == ShellReaction::PreventExit,
        shell_reaction(events, k) == ShellReaction::Quit ==> events[k] == ShellEventView::Tray(TrayCommand::Quit),
        events[k] is CloseRequested ==> shell_reaction(events, k) != ShellReaction::AllowExit
            && shell_reaction(events, k) != ShellReaction::Quit,
{
    lemma_shell_flag(events, k);
}

/// The success bubble for a translation of `source`.
pub open spec fn shown_success(source: Seq<char>, translated: Option<Seq<char>>, provider: Option<Seq<char>>, from_cache: bool) -> BubbleView {
    BubbleView {
        phase: "success"@,
        source_text: Some(source),
        translated_text: translated,
        provider: provider,
        from_cache: from_cache,
        error: None,
        theme: Seq::empty(),
        opacity: 0,
    }
}

/// The bubble for a finished translation of `source`: the translation, or
/// its error (a generic one when it gave none).
pub open spec fn result_bubble(source: Seq<char>, r: TranslateView) -> BubbleView {
    if r.ok {
        shown_success(source, r.translated_text, r.provider, r.from_cache)
    } else {
        error_view(
            match r.error {
                Some(e) => e,
                None => "翻译失败"@,
            },
            Some(source),
        )
    }
}

fn bubble_for(
    ok: bool,
    source: &String,
    translated: &Option<String>,
    provider: &Option<String>,
    from_cache: bool,
    error: &Option<String>,
) -> (r: BubblePayload)
    ensures
        ok ==> r@ == shown_success(source@, opt_view(*translated), opt_view(*provider), from_cache),
        !ok ==> r@ == error_view(
            match opt_view(*error) {
                Some(e) => e,
                None => "翻译失败"@,
            },
            Some(source@),
        ),
{
    if ok {
        BubblePayload {
            phase: "success".to_string(),
            source_text: Some(source.clone()),
            translated_text: copy_opt_string(translated),
            provider: copy_opt_string(provider),
            from_cache,
            error: None,
            theme: String::new(),
            opacity: 0,
        }
    } else {
        let err = match error {
            Some(e) => e.clone(),
            None => "翻译失败".to_string(),
        };
        BubblePayload::error(err, Some(source.clone()))
    }
}

/// The bubble for a translation requested from the settings window.
pub fn translate_result_payload(source: &String, result: &TranslateResult) -> (r: BubblePayload)
    ensures
        r@ == result_bubble(source@, result@),
{
    bubble_for(result.ok, source, &result.translated_text, &result.provider, result.from_cache, &result.error)
}

/// The bubble that shows a history record again.
pub fn history_record_payload(record: &HistoryRecord) -> (r: BubblePayload)
    ensures
        r@ == result_bubble(
            record.source_text@,
            TranslateView {
                ok: record.ok,
                source_text: record.source_text@,
                translated_text: opt_view(record.translated_text),
                provider: opt_view(record.provider),
                from_cache: record.from_cache,
                error: opt_view(record.error),
                duration_ms: record.duration_ms,
            },
        ),
{
    bubble_for(
        record.ok,
        &record.source_text,
        &record.translated_text,
        &record.provider,
        record.from_cache,
        &record.error,
    )
}

/// The error when a history record to show or delete is not there.
pub fn record_missing() -> (r: String)
    ensures
        r@ == "记录不存在"@,
{
    "记录不存在".to_string()
}

} // verus!
