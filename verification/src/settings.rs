//! User settings: their defaults and the normalisation applied before they are
//! stored or used.

use crate::text::{
    cat, eq_ignore_ascii_case, eq_ignore_ascii_case_spec, is_hex_digit, is_hex_digit_spec, opt_view,
    str_eq, trim, trim_spec, trim_start_spec, lemma_trim_unchanged,
};
use vstd::prelude::*;
use vstd::string::StrSliceExecFns;
use vstd::string::StringExecFns;

verus! {

broadcast use vstd::string::group_string_axioms;

/// Placement of the bubble background image: horizontal and vertical position
/// in percent, and zoom in percent.
#[derive(Debug, Clone, Copy, PartialEq, Eq, Structural)]
pub struct BubbleBgLayout {
    pub pos_x: u8,
    pub pos_y: u8,
    pub zoom: u8,
}

/// Separate background placement for the loading and the success bubble.
#[derive(Debug, Clone, Copy, PartialEq, Eq, Structural)]
pub struct BubbleBgLayouts {
    pub loading: BubbleBgLayout,
    pub success: BubbleBgLayout,
}

/// Every setting of the tool.
#[derive(Debug, Clone)]
pub struct TranslateSettings {
    pub enabled: bool,
    /// Translate and show the bubble.
    pub hotkey: String,
    /// Translate and replace the selection with the translation.
    pub replace_hotkey: String,
    /// Write the bubble's translation back while the bubble is shown.
    pub bubble_replace_hotkey: String,
    pub restore_clipboard: bool,
    pub copy_delay_ms: u64,
    pub target_lang: String,
    pub primary_provider: String,
    pub fallback_enabled: bool,
    pub timeout_sec: u64,
    pub cache_ttl_sec: u64,
    pub debug_scraper: bool,
    pub bubble_auto_close_sec: u64,
    pub use_python_capture: bool,
    /// `dark` or `light`.
    pub app_theme: String,
    /// Opacity of the bubble card, 50 to 100.
    pub bubble_opacity: u8,
    /// File name of the bubble background image.
    pub bubble_background: String,
    pub bubble_bg_layouts: BubbleBgLayouts,
    /// `#RRGGBB` or `#RGB`; empty follows the theme.
    pub bubble_text_color: String,
    pub bubble_muted_color: String,
    /// Number of history records kept.
    pub history_max_count: u32,
    /// Start with the user session.
    pub launch_at_startup: bool,
    /// Age in seconds after which the clipboard text of the latest translation
    /// counts as stale when it is captured again; 0 turns the guard off.
    pub translate_clipboard_guard_sec: u64,
}

/// The settings with each text taken by its characters.
pub struct SettingsView {
    pub enabled: bool,
    pub hotkey: Seq<char>,
    pub replace_hotkey: Seq<char>,
    pub bubble_replace_hotkey: Seq<char>,
    pub restore_clipboard: bool,
    pub copy_delay_ms: u64,
    pub target_lang: Seq<char>,
    pub primary_provider: Seq<char>,
    pub fallback_enabled: bool,
    pub timeout_sec: u64,
    pub cache_ttl_sec: u64,
    pub debug_scraper: bool,
    pub bubble_auto_close_sec: u64,
    pub use_python_capture: bool,
    pub app_theme: Seq<char>,
    pub bubble_opacity: u8,
    pub bubble_background: Seq<char>,
    pub bubble_bg_layouts: BubbleBgLayouts,
    pub bubble_text_color: Seq<char>,
    pub bubble_muted_color: Seq<char>,
    pub history_max_count: u32,
    pub launch_at_startup: bool,
    pub translate_clipboard_guard_sec: u64,
}

impl View for TranslateSettings {
    type V = SettingsView;

    open spec fn view(&self) -> SettingsView {
        SettingsView {
            enabled: self.enabled,
            hotkey: self.hotkey@,
            replace_hotkey: self.replace_hotkey@,
            bubble_replace_hotkey: self.bubble_replace_hotkey@,
            restore_clipboard: self.restore_clipboard,
            copy_delay_ms: self.copy_delay_ms,
            target_lang: self.target_lang@,
            primary_provider: self.primary_provider@,
            fallback_enabled: self.fallback_enabled,
            timeout_sec: self.timeout_sec,
            cache_ttl_sec: self.cache_ttl_sec,
            debug_scraper: self.debug_scraper,
            bubble_auto_close_sec: self.bubble_auto_close_sec,
            use_python_capture: self.use_python_capture,
            app_theme: self.app_theme@,
            bubble_opacity: self.bubble_opacity,
            bubble_background: self.bubble_background@,
            bubble_bg_layouts: self.bubble_bg_layouts,
            bubble_text_color: self.bubble_text_color@,
            bubble_muted_color: self.bubble_muted_color@,
            history_max_count: self.history_max_count,
            launch_at_startup: self.launch_at_startup,
            translate_clipboard_guard_sec: self.translate_clipboard_guard_sec,
        }
    }
}

/// The history size used when the settings name none.
pub fn default_history_max() -> (r: u32)
    ensures
        r == 200,
{
    200
}

impl Default for BubbleBgLayout {
    fn default() -> (r: Self)
        ensures
            r == (BubbleBgLayout { pos_x: 50, pos_y: 50, zoom: 100 }),
    {
        BubbleBgLayout { pos_x: 50, pos_y: 50, zoom: 100 }
    }
}

impl Default for BubbleBgLayouts {
    fn default() -> (r: Self)
        ensures
            r.loading == (BubbleBgLayout { pos_x: 50, pos_y: 50, zoom: 100 }),
            r.success == (BubbleBgLayout { pos_x: 50, pos_y: 50, zoom: 100 }),
    {
        BubbleBgLayouts { loading: BubbleBgLayout::default(), success: BubbleBgLayout::default() }
    }
}

impl Default for TranslateSettings {
    fn default() -> (r: Self)
        ensures
            r.enabled,
            r.hotkey@ == "Ctrl+T"@,
            r.replace_hotkey@ == "Ctrl+Shift+T"@,
            r.bubble_replace_hotkey@ == "Shift+Enter"@,
            r.restore_clipboard,
            r.copy_delay_ms == 200,
            r.target_lang@ == "auto"@,
            r.primary_provider@ == "baidu"@,
            r.fallback_enabled,
            r.timeout_sec == 20,
            r.cache_ttl_sec == 30,
            !r.debug_scraper,
            r.bubble_auto_close_sec == 12,
            r.use_python_capture,
            r.app_theme@ == "light"@,
            r.bubble_opacity == 92,
            r.bubble_background@ == Seq::<char>::empty(),
            r.bubble_bg_layouts.loading == (BubbleBgLayout { pos_x: 50, pos_y: 50, zoom: 100 }),
            r.bubble_bg_layouts.success == (BubbleBgLayout { pos_x: 50, pos_y: 50, zoom: 100 }),
            r.bubble_text_color@ == Seq::<char>::empty(),
            r.bubble_muted_color@ == Seq::<char>::empty(),
            r.history_max_count == 200,
            !r.launch_at_startup,
            r.translate_clipboard_guard_sec == 0,
    {
        TranslateSettings {
            enabled: true,
            hotkey: "Ctrl+T".to_string(),
            replace_hotkey: "Ctrl+Shift+T".to_string(),
            bubble_replace_hotkey: "Shift+Enter".to_string(),
            restore_clipboard: true,
            copy_delay_ms: 200,
            target_lang: "auto".to_string(),
            primary_provider: "baidu".to_string(),
            fallback_enabled: true,
            timeout_sec: 20,
            cache_ttl_sec: 30,
            debug_scraper: false,
            bubble_auto_close_sec: 12,
            use_python_capture: true,
            app_theme: "light".to_string(),
            bubble_opacity: 92,
            bubble_background: String::new(),
            bubble_bg_layouts: BubbleBgLayouts::default(),
            bubble_text_color: String::new(),
            bubble_muted_color: String::new(),
            history_max_count: default_history_max(),
            launch_at_startup: false,
            translate_clipboard_guard_sec: 0,
        }
    }
}

/// `v` limited to `lo..=hi`.
pub open spec fn clamp_spec(v: int, lo: int, hi: int) -> int {
    if v < lo {
        lo
    } else if v > hi {
        hi
    } else {
        v
    }
}

/// The history size kept, limited to 20 through 500.
pub fn clamp_history_max(count: u32) -> (r: u32)
    ensures
        r == clamp_spec(count as int, 20, 500),
{
    if count < 20 {
        20
    } else if count > 500 {
        500
    } else {
        count
    }
}

/// The theme in normal form: `light` in any ASCII case is `light`, anything
/// else is `dark`.
pub open spec fn normalized_theme(theme: Seq<char>) -> Seq<char> {
    if eq_ignore_ascii_case_spec(theme, "light"@) {
        "light"@
    } else {
        "dark"@
    }
}

/// Normal form of the theme name.
pub fn normalize_app_theme(theme: &str) -> (r: String)
    ensures
        r@ == normalized_theme(theme@),
{
    if eq_ignore_ascii_case(theme, "light") {
        "light".to_string()
    } else {
        "dark".to_string()
    }
}

/// Bubble opacity limited to 50 through 100.
pub fn clamp_opacity(opacity: u8) -> (r: u8)
    ensures
        r == clamp_spec(opacity as int, 50, 100),
{
    if opacity < 50 {
        50
    } else if opacity > 100 {
        100
    } else {
        opacity
    }
}

/// Background position limited to at most 100.
pub fn clamp_bg_pos(pos: u8) -> (r: u8)
    ensures
        r == clamp_spec(pos as int, 0, 100),
{
    if pos > 100 {
        100
    } else {
        pos
    }
}

/// Background zoom limited to 50 through 250.
pub fn clamp_bg_zoom(zoom: u8) -> (r: u8)
    ensures
        r == clamp_spec(zoom as int, 50, 250),
{
    if zoom < 50 {
        50
    } else if zoom > 250 {
        250
    } else {
        zoom
    }
}

/// A layout with every value limited to its range.
pub open spec fn normalized_layout(l: BubbleBgLayout) -> BubbleBgLayout {
    BubbleBgLayout {
        pos_x: clamp_spec(l.pos_x as int, 0, 100) as u8,
        pos_y: clamp_spec(l.pos_y as int, 0, 100) as u8,
        zoom: clamp_spec(l.zoom as int, 50, 250) as u8,
    }
}

/// Limits each value of a layout to its range.
pub fn normalize_bg_layout(l: BubbleBgLayout) -> (r: BubbleBgLayout)
    ensures
        r == normalized_layout(l),
{
    let mut l = l;
    l.pos_x = clamp_bg_pos(l.pos_x);
    l.pos_y = clamp_bg_pos(l.pos_y);
    l.zoom = clamp_bg_zoom(l.zoom);
    l
}

/// Both layouts with every value limited to its range.
pub open spec fn normalized_layouts(l: BubbleBgLayouts) -> BubbleBgLayouts {
    BubbleBgLayouts { loading: normalized_layout(l.loading), success: normalized_layout(l.success) }
}

/// Limits each value of both layouts to its range.
pub fn normalize_bg_layouts(layouts: BubbleBgLayouts) -> (r: BubbleBgLayouts)
    ensures
        r == normalized_layouts(layouts),
{
    let mut layouts = layouts;
    layouts.loading = normalize_bg_layout(layouts.loading);
    layouts.success = normalize_bg_layout(layouts.success);
    layouts
}

/// The colour text after an optional leading `#`.
pub open spec fn hex_body(c: Seq<char>) -> Seq<char> {
    if c.len() > 0 && c[0] == '#' {
        c.drop_first()
    } else {
        c
    }
}

/// Three or six hexadecimal digits. (All digits are ASCII, so the count of
/// characters and of bytes agree.)
pub open spec fn is_hex_color_body(h: Seq<char>) -> bool {
    (h.len() == 3 || h.len() == 6) && forall|i: int| 0 <= i < h.len() ==> is_hex_digit_spec(#[trigger] h[i])
}

/// A colour in normal form: the trimmed text with a leading `#` when it is
/// three or six hexadecimal digits, with or without `#`; empty otherwise.
pub open spec fn normalized_hex_color(color: Seq<char>) -> Seq<char> {
    let c = trim_spec(color);
    if c.len() == 0 {
        Seq::empty()
    } else if is_hex_color_body(hex_body(c)) {
        if c[0] == '#' {
            c
        } else {
            seq!['#'] + c
        }
    } else {
        Seq::empty()
    }
}

/// Normal form of an optional `#RRGGBB` / `#RGB` colour.
pub fn normalize_optional_hex_color(color: &str) -> (r: String)
    ensures
        r@ == normalized_hex_color(color@),
{
    let c = trim(color);
    let n = c.unicode_len();
    if n == 0 {
        return String::new();
    }
    let has_hash = c.get_char(0) == '#';
    let hex: &str = if has_hash {
        c.substring_char(1, n)
    } else {
        c
    };
    let hn = hex.unicode_len();
    assert(hex@ == hex_body(c@));
    let mut all_hex = true;
    let mut i: usize = 0;
    while i < hn
        invariant
            hn == hex@.len(),
            i <= hn,
            all_hex == (forall|j: int| 0 <= j < i ==> is_hex_digit_spec(#[trigger] hex@[j])),
        decreases hn - i,
    {
        let d = is_hex_digit(hex.get_char(i));
        if !d {
            all_hex = false;
        }
        assert(all_hex == (forall|j: int| 0 <= j < i + 1 ==> is_hex_digit_spec(#[trigger] hex@[j]))) by {
            if !d {
                assert(!is_hex_digit_spec(hex@[i as int]));
            }
        }
        i = i + 1;
    }
    let ok = (hn == 3 || hn == 6) && all_hex;
    assert(ok == is_hex_color_body(hex_body(c@)));
    proof {
        reveal_strlit("#");
    }
    assert("#"@ =~= seq!['#']);
    if ok {
        if has_hash {
            c.to_string()
        } else {
            cat("#", c)
        }
    } else {
        String::new()
    }
}

/// The translation engine in normal form: the removed engine `google` falls
/// back to `baidu`.
pub open spec fn normalized_provider(id: Seq<char>) -> Seq<char> {
    if id == "google"@ {
        "baidu"@
    } else {
        id
    }
}

/// Normal form of the translation engine id.
pub fn normalize_primary_provider(id: &str) -> (r: String)
    ensures
        r@ == normalized_provider(id@),
{
    if str_eq(id, "google") {
        "baidu".to_string()
    } else {
        id.to_string()
    }
}

/// The settings in normal form, where `background` is what the check of the
/// background file name gave for `s.bubble_background` (`None` when the name is
/// refused).
pub open spec fn normalized_settings(s: SettingsView, background: Option<Seq<char>>) -> SettingsView {
    SettingsView {
        primary_provider: normalized_provider(s.primary_provider),
        app_theme: normalized_theme(s.app_theme),
        bubble_opacity: clamp_spec(s.bubble_opacity as int, 50, 100) as u8,
        bubble_background: match background {
            Some(b) => b,
            None => Seq::empty(),
        },
        bubble_bg_layouts: normalized_layouts(s.bubble_bg_layouts),
        bubble_text_color: normalized_hex_color(s.bubble_text_color),
        bubble_muted_color: normalized_hex_color(s.bubble_muted_color),
        history_max_count: clamp_spec(s.history_max_count as int, 20, 500) as u32,
        ..s
    }
}

/// Brings every setting into normal form. `background` is the checked
/// background file name for `s.bubble_background`, `None` when it is refused.
pub fn normalize_settings(s: TranslateSettings, background: Option<String>) -> (r: TranslateSettings)
    ensures
        r@ == normalized_settings(s@, opt_view(background)),
{
    let mut s = s;
    s.primary_provider = normalize_primary_provider(s.primary_provider.as_str());
    s.app_theme = normalize_app_theme(s.app_theme.as_str());
    s.bubble_opacity = clamp_opacity(s.bubble_opacity);
    s.bubble_background = match background {
        Some(b) => b,
        None => String::new(),
    };
    s.bubble_bg_layouts = normalize_bg_layouts(s.bubble_bg_layouts);
    s.bubble_text_color = normalize_optional_hex_color(s.bubble_text_color.as_str());
    s.bubble_muted_color = normalize_optional_hex_color(s.bubble_muted_color.as_str());
    s.history_max_count = clamp_history_max(s.history_max_count);
    s
}

/// A colour already in normal form is left as it is.
proof fn lemma_hex_color_stable(color: Seq<char>)
    ensures
        normalized_hex_color(normalized_hex_color(color)) == normalized_hex_color(color),
{
    let c = trim_spec(color);
    let o = normalized_hex_color(color);
    if o.len() > 0 {
        let h = hex_body(c);
        assert(is_hex_color_body(h));
        assert(o[0] == '#');
        assert(is_hex_digit_spec(h[h.len() - 1]));
        if c[0] == '#' {
            assert(o.last() == h[h.len() - 1]);
        } else {
            assert(o.last() == c.last());
            assert(c.last() == h[h.len() - 1]);
        }
        lemma_trim_unchanged(o);
        assert(hex_body(o) =~= o.drop_first());
        if c[0] != '#' {
            assert(o.drop_first() =~= c);
        }
    } else {
        assert(trim_start_spec(o) == o);
    }
}

/// Normalising settings a second time, with the same result of the background
/// file name check, changes nothing.
pub proof fn normalize_settings_idempotent(s: SettingsView, background: Option<Seq<char>>)
    ensures
        normalized_settings(normalized_settings(s, background), background) == normalized_settings(
            s,
            background,
        ),
{
    reveal_strlit("light");
    reveal_strlit("dark");
    reveal_strlit("google");
    reveal_strlit("baidu");
    lemma_hex_color_stable(s.bubble_text_color);
    lemma_hex_color_stable(s.bubble_muted_color);
    let n = normalized_settings(s, background);
    assert(normalized_theme(n.app_theme) == n.app_theme) by {
        if eq_ignore_ascii_case_spec(s.app_theme, "light"@) {
            assert(eq_ignore_ascii_case_spec("light"@, "light"@));
        } else {
            assert(!eq_ignore_ascii_case_spec("dark"@, "light"@));
        }
    }
    assert(normalized_provider(n.primary_provider) == n.primary_provider) by {
        if s.primary_provider == "google"@ {
            assert("baidu"@.len() != "google"@.len());
        }
    }
}

/// What the migration of an older settings document reads: whether it already
/// holds a layout object (under either spelling), whether it is an object at
/// all, and for each older single-layout value the field under its camel-case
/// name and under its snake-case name. A field is `None` when absent,
/// `Some(None)` when present but not an unsigned integer.
pub struct LegacyLayoutFields {
    pub has_layouts: bool,
    pub is_object: bool,
    pub pos_x_camel: Option<Option<u64>>,
    pub pos_x_snake: Option<Option<u64>>,
    pub pos_y_camel: Option<Option<u64>>,
    pub pos_y_snake: Option<Option<u64>>,
    pub zoom_camel: Option<Option<u64>>,
    pub zoom_snake: Option<Option<u64>>,
}

/// The value of an older field: the camel-case field when present, else the
/// snake-case one; the default when neither gives an unsigned integer. The
/// value is cut to its low eight bits.
pub open spec fn legacy_value(camel: Option<Option<u64>>, snake: Option<Option<u64>>, default: u64) -> u8 {
    let found = match camel {
        Some(v) => v,
        None => match snake {
            Some(v) => v,
            None => None,
        },
    };
    match found {
        Some(n) => n as u8,
        None => default as u8,
    }
}

fn legacy_field(camel: Option<Option<u64>>, snake: Option<Option<u64>>, default: u64) -> (r: u8)
    ensures
        r == legacy_value(camel, snake, default),
{
    let found = match camel {
        Some(v) => v,
        None => match snake {
            Some(v) => v,
            None => None,
        },
    };
    match found {
        Some(n) => n as u8,
        None => default as u8,
    }
}

/// The layouts that an older document without a layout object is given: both
/// the loading and the success layout take the single older position and
/// zoom (50, 50 and 100 where absent). `None` when the document already holds
/// layouts or is no object, so that it is left as it is.
pub fn migrate_legacy_bg_layouts(fields: &LegacyLayoutFields) -> (r: Option<BubbleBgLayouts>)
    ensures
        (fields.has_layouts || !fields.is_object) ==> r is None,
        !(fields.has_layouts || !fields.is_object) ==> r == Some(
            {
                let l = BubbleBgLayout {
                    pos_x: legacy_value(fields.pos_x_camel, fields.pos_x_snake, 50),
                    pos_y: legacy_value(fields.pos_y_camel, fields.pos_y_snake, 50),
                    zoom: legacy_value(fields.zoom_camel, fields.zoom_snake, 100),
                };
                BubbleBgLayouts { loading: l, success: l }
            },
        ),
{
    if fields.has_layouts || !fields.is_object {
        return None;
    }
    let l = BubbleBgLayout {
        pos_x: legacy_field(fields.pos_x_camel, fields.pos_x_snake, 50),
        pos_y: legacy_field(fields.pos_y_camel, fields.pos_y_snake, 50),
        zoom: legacy_field(fields.zoom_camel, fields.zoom_snake, 100),
    };
    Some(BubbleBgLayouts { loading: l, success: l })
}

/// Settings in normal form hold every value in its range: a light or dark
/// theme, an opacity of 50 through 100, background positions up to 100 and
/// zoom of 50 through 250, colours empty or starting with `#`, and a history
/// of 20 through 500 records.
pub proof fn normalized_settings_in_range(s: SettingsView, background: Option<Seq<char>>)
    ensures
        ({
            let n = normalized_settings(s, background);
            &&& n.app_theme == "light"@ || n.app_theme == "dark"@
            &&& 50 <= n.bubble_opacity <= 100
            &&& n.bubble_bg_layouts.loading.pos_x <= 100
            &&& n.bubble_bg_layouts.loading.pos_y <= 100
            &&& 50 <= n.bubble_bg_layouts.loading.zoom <= 250
            &&& n.bubble_bg_layouts.success.pos_x <= 100
            &&& n.bubble_bg_layouts.success.pos_y <= 100
            &&& 50 <= n.bubble_bg_layouts.success.zoom <= 250
            &&& n.bubble_text_color.len() == 0 || n.bubble_text_color[0] == '#'
            &&& n.bubble_muted_color.len() == 0 || n.bubble_muted_color[0] == '#'
            &&& 20 <= n.history_max_count <= 500
        }),
{
}

/// Normalising touches only the engine, theme, opacity, background, layouts,
/// colours and history size: every hotkey and every other setting is kept.
pub proof fn normalize_keeps_other_settings(s: SettingsView, background: Option<Seq<char>>)
    ensures
        ({
            let n = normalized_settings(s, background);
            &&& n.enabled == s.enabled
            &&& n.hotkey == s.hotkey
            &&& n.replace_hotkey == s.replace_hotkey
            &&& n.bubble_replace_hotkey == s.bubble_replace_hotkey
            &&& n.restore_clipboard == s.restore_clipboard
            &&& n.copy_delay_ms == s.copy_delay_ms
            &&& n.target_lang == s.target_lang
            &&& n.fallback_enabled == s.fallback_enabled
            &&& n.timeout_sec == s.timeout_sec
            &&& n.cache_ttl_sec == s.cache_ttl_sec
            &&& n.debug_scraper == s.debug_scraper
            &&& n.bubble_auto_close_sec == s.bubble_auto_close_sec
            &&& n.use_python_capture == s.use_python_capture
            &&& n.launch_at_startup == s.launch_at_startup
            &&& n.translate_clipboard_guard_sec == s.translate_clipboard_guard_sec
            &&& (s.primary_provider != "google"@ ==> n.primary_provider == s.primary_provider)
            &&& (50 <= s.bubble_opacity <= 100 ==> n.bubble_opacity == s.bubble_opacity)
            &&& (20 <= s.history_max_count <= 500 ==> n.history_max_count == s.history_max_count)
        }),
{
}

} // verus!
