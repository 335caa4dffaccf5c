use quick_translate::bubble::{
    anchor_fits, auto_hide_delay_sec, bubble_emit, bubble_replace_accel, clamp_to_work_area, compute_anchor,
    estimate_bubble_height, new_anchor, placement_fits, BubblePayload, HideGeneration, ReplaceSessionSlot,
};
use quick_translate::window_layout::main_position_in_range;
use quick_translate::selection::TargetHwnd;
use quick_translate::settings::TranslateSettings;

const AREA: (i32, i32, i32, i32) = (0, 0, 1920, 1080);

#[test]
fn payload_constructors() {
    let l = BubblePayload::loading("翻译中…");
    assert_eq!(l.phase, "loading");
    assert_eq!(l.source_text.as_deref(), Some("翻译中…"));
    assert!(l.provider.is_none());
    let e = BubblePayload::error("bad".to_string(), Some("src".to_string()));
    assert_eq!(e.phase, "error");
    assert_eq!(e.error.as_deref(), Some("bad"));
    assert_eq!(e.source_text.as_deref(), Some("src"));
    assert!(!e.is_success());
}

#[test]
fn heights_per_phase() {
    assert_eq!(estimate_bubble_height(&BubblePayload::loading("x")), 72);
    let mut s = BubblePayload::loading("x");
    s.phase = "success".to_string();
    assert_eq!(estimate_bubble_height(&s), 152);
    s.phase = "other".to_string();
    assert_eq!(estimate_bubble_height(&s), 152);
    assert_eq!(estimate_bubble_height(&BubblePayload::error("e".to_string(), None)), 78);
    assert_eq!(estimate_bubble_height(&BubblePayload::error("e".repeat(29), Some("s".to_string()))), 106);
    assert_eq!(estimate_bubble_height(&BubblePayload::error("e".repeat(500), Some("s".repeat(500)))), 106);
    assert_eq!(estimate_bubble_height(&BubblePayload::error(String::new(), None)), 72);
}

#[test]
fn anchor_prefers_upper_right_of_the_cursor() {
    assert_eq!(compute_anchor(500, 500, AREA), (502, 346));
    // No room on the right: to the left of the cursor.
    assert_eq!(compute_anchor(1800, 500, AREA), (1478, 346));
    // No room above: below the cursor.
    assert_eq!(compute_anchor(500, 20, AREA), (502, 22));
    // Clamped into the margins.
    assert_eq!(compute_anchor(-100, 2000, AREA), (12, 916));
    let a = new_anchor(500, 500, AREA);
    assert_eq!((a.x, a.y, a.area), (502, 346, AREA));
}

#[test]
fn bubble_is_moved_up_to_fit() {
    assert_eq!(clamp_to_work_area(502, 346, 152, AREA), (502, 346));
    assert_eq!(clamp_to_work_area(502, 1000, 106, AREA), (502, 962));
    assert_eq!(clamp_to_work_area(5000, -5, 72, AREA), (1588, 12));
}

#[test]
fn emit_takes_the_look_from_the_settings() {
    let mut s = TranslateSettings::default();
    s.app_theme = "Solarized".to_string();
    s.bubble_opacity = 120;
    s.bubble_bg_layouts.success.zoom = 5;
    s.bubble_text_color = "#fff".to_string();
    let e = bubble_emit(BubblePayload::loading("x"), &s, Some("data:image/png;base64,AA".to_string()));
    assert_eq!(e.theme, "dark");
    assert_eq!(e.opacity, 100);
    assert_eq!(e.bubble_bg_layouts.success.zoom, 50);
    assert_eq!(e.bubble_text_color, "#fff");
    assert_eq!(e.background_data_url.as_deref(), Some("data:image/png;base64,AA"));
    assert_eq!(e.phase, "loading");
}

#[test]
fn write_back_hotkey_only_when_enabled_and_set() {
    let mut s = TranslateSettings::default();
    s.bubble_replace_hotkey = "  Shift+Enter ".to_string();
    assert_eq!(bubble_replace_accel(&s).as_deref(), Some("Shift+Enter"));
    s.bubble_replace_hotkey = "   ".to_string();
    assert!(bubble_replace_accel(&s).is_none());
    s.bubble_replace_hotkey = "Alt+R".to_string();
    s.enabled = false;
    assert!(bubble_replace_accel(&s).is_none());
}

#[test]
fn auto_hide_waits_at_least_three_seconds() {
    assert_eq!(auto_hide_delay_sec(0), 3);
    assert_eq!(auto_hide_delay_sec(3), 3);
    assert_eq!(auto_hide_delay_sec(12), 12);
}

#[test]
fn later_request_cancels_an_older_hide() {
    let mut g = HideGeneration::new();
    let first = g.bump();
    assert!(g.is_current(first));
    let _second = g.bump();
    assert!(!g.is_current(first));
    let mut w = HideGeneration { value: u64::MAX };
    assert_eq!(w.bump(), 0);
}

#[test]
fn replace_session_reads_back_what_was_set() {
    let mut slot = ReplaceSessionSlot::new();
    assert!(!slot.has_replace_session());
    slot.set_replace_session(TargetHwnd(7), "你好".to_string());
    assert!(slot.has_replace_session());
    let (t, text) = slot.peek_replace_session().unwrap();
    assert_eq!(t, TargetHwnd(7));
    assert_eq!(text, "你好");
    assert!(slot.has_replace_session());
    let (t2, text2) = slot.take_replace_session().unwrap();
    assert_eq!((t2, text2.as_str()), (TargetHwnd(7), "你好"));
    assert!(!slot.has_replace_session());
    assert!(slot.take_replace_session().is_none());

    slot.set_replace_session(TargetHwnd(7), "x".to_string());
    slot.set_replace_session(TargetHwnd(0), "y".to_string());
    assert!(!slot.has_replace_session());
    slot.set_replace_session(TargetHwnd(3), " \n ".to_string());
    assert!(!slot.has_replace_session());
    slot.set_replace_session(TargetHwnd(3), "z".to_string());
    slot.clear_replace_session();
    assert!(slot.peek_replace_session().is_none());
}

#[test]
fn placement_conditions() {
    assert!(anchor_fits(500, 500, AREA));
    // The work area is too narrow for the bubble and its margins.
    assert!(!anchor_fits(500, 500, (0, 0, 300, 1080)));
    // Too low for the success bubble.
    assert!(!anchor_fits(500, 500, (0, 0, 1920, 150)));
    assert!(!anchor_fits(i32::MAX, 500, AREA));
    // A fallback position only has to fit when it is taken.
    assert!(anchor_fits(i32::MIN + 100, 500, AREA));
    assert_eq!(compute_anchor(i32::MIN + 100, 500, AREA), (12, 346));
    assert!(anchor_fits(500, i32::MAX - 1, AREA));
    assert_eq!(compute_anchor(500, i32::MAX - 1, AREA), (502, 916));
    assert!(placement_fits(502, 346, 152, AREA));
    assert!(placement_fits(502, 346, 300, AREA));
    assert!(!placement_fits(502, 346, 2000, AREA));
    assert_eq!(clamp_to_work_area(502, 1000, 300, AREA), (502, 768));
    assert!(!placement_fits(502, i32::MAX, 152, AREA));
    assert!(placement_fits(0, 0, 72, (0, 0, 344, 96)));
    assert!(!placement_fits(0, 0, 72, (0, 0, 343, 96)));
    assert!(main_position_in_range(400, 300, AREA));
    assert!(!main_position_in_range(400, 300, (i32::MAX - 10, 0, 100, 1080)));
}
