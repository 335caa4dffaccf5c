use quick_translate::settings::{
    clamp_bg_pos, clamp_bg_zoom, clamp_history_max, clamp_opacity, default_history_max,
    migrate_legacy_bg_layouts, normalize_app_theme, normalize_bg_layout, normalize_bg_layouts,
    normalize_optional_hex_color, normalize_primary_provider, normalize_settings, BubbleBgLayout,
    BubbleBgLayouts, LegacyLayoutFields, TranslateSettings,
};

#[test]
fn defaults_match_the_documented_settings() {
    let s = TranslateSettings::default();
    assert!(s.enabled);
    assert_eq!(s.hotkey, "Ctrl+T");
    assert_eq!(s.replace_hotkey, "Ctrl+Shift+T");
    assert_eq!(s.target_lang, "auto");
    assert_eq!(s.primary_provider, "baidu");
    assert!(s.fallback_enabled);
    assert_eq!(s.bubble_auto_close_sec, 12);
    assert_eq!(s.copy_delay_ms, 200);
    assert_eq!(s.timeout_sec, 20);
    assert_eq!(s.cache_ttl_sec, 30);
    assert_eq!(s.app_theme, "light");
    assert_eq!(s.bubble_opacity, 92);
    assert_eq!(s.history_max_count, 200);
    assert_eq!(default_history_max(), 200);
    assert!(!s.launch_at_startup);
    assert_eq!(s.bubble_bg_layouts.loading, BubbleBgLayout { pos_x: 50, pos_y: 50, zoom: 100 });
    assert_eq!(s.bubble_bg_layouts.success, BubbleBgLayout::default());
    assert_eq!(s.bubble_text_color, "");
    assert_eq!(s.bubble_background, "");
}

#[test]
fn clamps_hold_values_in_their_ranges() {
    assert_eq!(clamp_history_max(0), 20);
    assert_eq!(clamp_history_max(20), 20);
    assert_eq!(clamp_history_max(321), 321);
    assert_eq!(clamp_history_max(501), 500);
    assert_eq!(clamp_opacity(10), 50);
    assert_eq!(clamp_opacity(77), 77);
    assert_eq!(clamp_opacity(255), 100);
    assert_eq!(clamp_bg_pos(100), 100);
    assert_eq!(clamp_bg_pos(101), 100);
    assert_eq!(clamp_bg_pos(0), 0);
    assert_eq!(clamp_bg_zoom(49), 50);
    assert_eq!(clamp_bg_zoom(250), 250);
    assert_eq!(clamp_bg_zoom(251), 250);
}

#[test]
fn layouts_are_clamped_field_by_field() {
    let l = normalize_bg_layout(BubbleBgLayout { pos_x: 200, pos_y: 7, zoom: 10 });
    assert_eq!(l, BubbleBgLayout { pos_x: 100, pos_y: 7, zoom: 50 });
    let ls = normalize_bg_layouts(BubbleBgLayouts {
        loading: BubbleBgLayout { pos_x: 1, pos_y: 255, zoom: 255 },
        success: BubbleBgLayout { pos_x: 50, pos_y: 50, zoom: 100 },
    });
    assert_eq!(ls.loading, BubbleBgLayout { pos_x: 1, pos_y: 100, zoom: 250 });
    assert_eq!(ls.success, BubbleBgLayout { pos_x: 50, pos_y: 50, zoom: 100 });
}

#[test]
fn theme_is_light_in_any_case_else_dark() {
    assert_eq!(normalize_app_theme("light"), "light");
    assert_eq!(normalize_app_theme("LiGhT"), "light");
    assert_eq!(normalize_app_theme("dark"), "dark");
    assert_eq!(normalize_app_theme(""), "dark");
    assert_eq!(normalize_app_theme(" light"), "dark");
}

#[test]
fn hex_colors_are_normalised_or_cleared() {
    assert_eq!(normalize_optional_hex_color(""), "");
    assert_eq!(normalize_optional_hex_color("   "), "");
    assert_eq!(normalize_optional_hex_color("#abc"), "#abc");
    assert_eq!(normalize_optional_hex_color("abc"), "#abc");
    assert_eq!(normalize_optional_hex_color("  #A1b2C3 "), "#A1b2C3");
    assert_eq!(normalize_optional_hex_color("A1B2C3"), "#A1B2C3");
    assert_eq!(normalize_optional_hex_color("#abcd"), "");
    assert_eq!(normalize_optional_hex_color("#ggg"), "");
    assert_eq!(normalize_optional_hex_color("##abc"), "");
    assert_eq!(normalize_optional_hex_color("红绿"), "");
}

#[test]
fn removed_engine_falls_back_to_baidu() {
    assert_eq!(normalize_primary_provider("google"), "baidu");
    assert_eq!(normalize_primary_provider("deepl"), "deepl");
    assert_eq!(normalize_primary_provider("Google"), "Google");
}

fn messy_settings() -> TranslateSettings {
    let mut s = TranslateSettings::default();
    s.primary_provider = "google".to_string();
    s.app_theme = "LIGHT".to_string();
    s.bubble_opacity = 3;
    s.bubble_background = "../evil.png".to_string();
    s.bubble_bg_layouts.loading.zoom = 251;
    s.bubble_text_color = " fff ".to_string();
    s.bubble_muted_color = "#12345".to_string();
    s.history_max_count = 9999;
    s
}

#[test]
fn normalize_settings_fixes_every_field() {
    let n = normalize_settings(messy_settings(), None);
    assert_eq!(n.primary_provider, "baidu");
    assert_eq!(n.app_theme, "light");
    assert_eq!(n.bubble_opacity, 50);
    assert_eq!(n.bubble_background, "");
    assert_eq!(n.bubble_bg_layouts.loading.zoom, 250);
    assert_eq!(n.bubble_text_color, "#fff");
    assert_eq!(n.bubble_muted_color, "");
    assert_eq!(n.history_max_count, 500);
    assert_eq!(n.hotkey, "Ctrl+T");
    let with_bg = normalize_settings(messy_settings(), Some("bg.png".to_string()));
    assert_eq!(with_bg.bubble_background, "bg.png");
}

#[test]
fn normalize_settings_is_idempotent_on_an_example() {
    let once = normalize_settings(messy_settings(), Some("bg.png".to_string()));
    let twice = normalize_settings(once.clone(), Some("bg.png".to_string()));
    assert_eq!(format!("{:?}", once), format!("{:?}", twice));
}

fn legacy(has_layouts: bool, is_object: bool) -> LegacyLayoutFields {
    LegacyLayoutFields {
        has_layouts,
        is_object,
        pos_x_camel: None,
        pos_x_snake: None,
        pos_y_camel: None,
        pos_y_snake: None,
        zoom_camel: None,
        zoom_snake: None,
    }
}

#[test]
fn legacy_layouts_are_migrated_once() {
    assert!(migrate_legacy_bg_layouts(&legacy(true, true)).is_none());
    assert!(migrate_legacy_bg_layouts(&legacy(false, false)).is_none());
    let d = migrate_legacy_bg_layouts(&legacy(false, true)).unwrap();
    assert_eq!(d.loading, BubbleBgLayout { pos_x: 50, pos_y: 50, zoom: 100 });
    assert_eq!(d.success, d.loading);

    let mut f = legacy(false, true);
    f.pos_x_camel = Some(Some(10));
    f.pos_x_snake = Some(Some(90));
    f.pos_y_camel = None;
    f.pos_y_snake = Some(Some(20));
    f.zoom_camel = Some(None);
    f.zoom_snake = Some(Some(150));
    let m = migrate_legacy_bg_layouts(&f).unwrap();
    assert_eq!(m.loading, BubbleBgLayout { pos_x: 10, pos_y: 20, zoom: 100 });

    let mut g = legacy(false, true);
    g.zoom_snake = Some(Some(300));
    assert_eq!(migrate_legacy_bg_layouts(&g).unwrap().success.zoom, 44);
}
