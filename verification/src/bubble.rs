//! The translation bubble: what it shows, how tall it is and where it goes,
//! the write-back session it keeps after a successful translation, and the
//! generation counter that lets a later display cancel an older auto-hide.

use crate::selection::TargetHwnd;
use crate::settings::{
    clamp_opacity, clamp_spec, normalize_app_theme, normalize_bg_layouts, normalized_layouts,
    normalized_theme, BubbleBgLayouts, TranslateSettings,
};
use crate::text::{is_blank, opt_view, str_eq, trim, trim_spec};
use vstd::prelude::*;
use vstd::string::StrSliceExecFns;

verus! {

broadcast use vstd::string::group_string_axioms;

/// Width of the bubble.
pub const BUBBLE_WIDTH: u32 = 320;

/// Smallest bubble height.
pub const BUBBLE_HEIGHT_MIN: u32 = 72;

/// Largest bubble height.
pub const BUBBLE_HEIGHT_MAX: u32 = 200;

/// Height of the bubble that shows a translation: title bar, one line of
/// source text and the scrolling translation.
pub const BUBBLE_HEIGHT_SUCCESS: u32 = 152;

/// Gap between the selection point and the bubble.
pub const GAP: i32 = 2;

/// Gap between the bubble and the edges of the work area.
pub const EDGE_MARGIN: i32 = 12;

/// What the bubble is asked to show.
#[derive(Debug, Clone)]
pub struct BubblePayload {
    /// `loading`, `success` or `error`.
    pub phase: String,
    pub source_text: Option<String>,
    pub translated_text: Option<String>,
    pub provider: Option<String>,
    pub from_cache: bool,
    pub error: Option<String>,
    pub theme: String,
    pub opacity: u8,
}

/// A payload with each text taken by its characters.
pub struct BubbleView {
    pub phase: Seq<char>,
    pub source_text: Option<Seq<char>>,
    pub translated_text: Option<Seq<char>>,
    pub provider: Option<Seq<char>>,
    pub from_cache: bool,
    pub error: Option<Seq<char>>,
    pub theme: Seq<char>,
    pub opacity: u8,
}

impl View for BubblePayload {
    type V = BubbleView;

    open spec fn view(&self) -> BubbleView {
        BubbleView {
            phase: self.phase@,
            source_text: opt_view(self.source_text),
            translated_text: opt_view(self.translated_text),
            provider: opt_view(self.provider),
            from_cache: self.from_cache,
            error: opt_view(self.error),
            theme: self.theme@,
            opacity: self.opacity,
        }
    }
}

/// The loading bubble with `message` in place of the source text.
pub open spec fn loading_view(message: Seq<char>, provider: Option<Seq<char>>) -> BubbleView {
    BubbleView {
        phase: "loading"@,
        source_text: Some(message),
        translated_text: None,
        provider: provider,
        from_cache: false,
        error: None,
        theme: Seq::empty(),
        opacity: 0,
    }
}

/// The error bubble with `message`, and the source text when there is one.
pub open spec fn error_view(message: Seq<char>, source: Option<Seq<char>>) -> BubbleView {
    BubbleView {
        phase: "error"@,
        source_text: source,
        translated_text: None,
        provider: None,
        from_cache: false,
        error: Some(message),
        theme: Seq::empty(),
        opacity: 0,
    }
}

impl BubblePayload {
    /// The loading bubble showing `message`.
    pub fn loading(message: &str) -> (r: Self)
        ensures
            r@ == loading_view(message@, None),
    {
        BubblePayload {
            phase: "loading".to_string(),
            source_text: Some(message.to_string()),
            translated_text: None,
            provider: None,
            from_cache: false,
            error: None,
            theme: String::new(),
            opacity: 0,
        }
    }

    /// The error bubble showing `message`, with the source text if any.
    pub fn error(message: String, source: Option<String>) -> (r: Self)
        ensures
            r@ == error_view(message@, opt_view(source)),
    {
        BubblePayload {
            phase: "error".to_string(),
            source_text: source,
            translated_text: None,
            provider: None,
            from_cache: false,
            error: Some(message),
            theme: String::new(),
            opacity: 0,
        }
    }

    /// Whether this is the bubble of a successful translation, the one during
    /// which the write-back hotkey is registered.
    pub fn is_success(&self) -> (r: bool)
        ensures
            r == (self.phase@ == "success"@),
    {
        str_eq(self.phase.as_str(), "success")
    }
}

/// What is sent to the bubble window: the payload with the look taken from
/// the settings.
#[derive(Debug, Clone)]
pub struct BubbleEmit {
    pub phase: String,
    pub source_text: Option<String>,
    pub translated_text: Option<String>,
    pub provider: Option<String>,
    pub from_cache: bool,
    pub error: Option<String>,
    pub theme: String,
    pub opacity: u8,
    /// `data:image/...` URL of the background image.
    pub background_data_url: Option<String>,
    pub bubble_bg_layouts: BubbleBgLayouts,
    pub bubble_text_color: String,
    pub bubble_muted_color: String,
}

/// The payload dressed with the theme, opacity, background and colours of the
/// settings; `background_data_url` is the loaded background image.
pub fn bubble_emit(p: BubblePayload, s: &TranslateSettings, background_data_url: Option<String>) -> (r: BubbleEmit)
    ensures
        r.phase == p.phase,
        r.source_text == p.source_text,
        r.translated_text == p.translated_text,
        r.provider == p.provider,
        r.from_cache == p.from_cache,
        r.error == p.error,
        r.theme@ == normalized_theme(s.app_theme@),
        r.opacity == clamp_spec(s.bubble_opacity as int, 50, 100),
        r.background_data_url == background_data_url,
        r.bubble_bg_layouts == normalized_layouts(s.bubble_bg_layouts),
        r.bubble_text_color == s.bubble_text_color,
        r.bubble_muted_color == s.bubble_muted_color,
{
    BubbleEmit {
        phase: p.phase,
        source_text: p.source_text,
        translated_text: p.translated_text,
        provider: p.provider,
        from_cache: p.from_cache,
        error: p.error,
        theme: normalize_app_theme(s.app_theme.as_str()),
        opacity: clamp_opacity(s.bubble_opacity),
        background_data_url: background_data_url,
        bubble_bg_layouts: normalize_bg_layouts(s.bubble_bg_layouts),
        bubble_text_color: s.bubble_text_color.clone(),
        bubble_muted_color: s.bubble_muted_color.clone(),
    }
}

/// Number of 28-character lines that `n` characters need.
pub open spec fn lines_of(n: nat) -> nat {
    (n + 27) / 28
}

/// Character count of an optional text, 0 when absent.
pub open spec fn opt_len(o: Option<Seq<char>>) -> nat {
    match o {
        Some(s) => s.len(),
        None => 0,
    }
}

/// Height of the bubble for `p` before it is limited: 56 while loading; for an
/// error 64 plus 14 per line of error and source text, at most three lines;
/// 152 otherwise.
pub open spec fn raw_height(p: BubbleView) -> int {
    if p.phase == "loading"@ {
        56
    } else if p.phase == "error"@ {
        let lines = lines_of(opt_len(p.error)) + lines_of(opt_len(p.source_text));
        64 + (if lines < 3 { lines as int } else { 3 }) * 14
    } else {
        BUBBLE_HEIGHT_SUCCESS as int
    }
}

/// Height of the bubble for `p`, within 72 through 200.
pub open spec fn bubble_height(p: BubbleView) -> int {
    clamp_spec(raw_height(p), BUBBLE_HEIGHT_MIN as int, BUBBLE_HEIGHT_MAX as int)
}

fn line_count(o: &Option<String>) -> (r: usize)
    ensures
        r == lines_of(opt_len(opt_view(*o))),
{
    match o {
        Some(s) => {
            let n = s.as_str().unicode_len();
            n / 28 + if n % 28 > 0 {
                1
            } else {
                0
            }
        },
        None => 0,
    }
}

/// The height of the bubble for `payload`.
pub fn estimate_bubble_height(payload: &BubblePayload) -> (r: u32)
    ensures
        r == bubble_height(payload@),
        BUBBLE_HEIGHT_MIN <= r <= BUBBLE_HEIGHT_MAX,
{
    let raw: u32 = if str_eq(payload.phase.as_str(), "loading") {
        56
    } else if str_eq(payload.phase.as_str(), "error") {
        let e = line_count(&payload.error);
        let s = line_count(&payload.source_text);
        let lines: usize = if e >= 3 || s >= 3 || e + s >= 3 {
            3
        } else {
            e + s
        };
        64 + (lines as u32) * 14
    } else {
        BUBBLE_HEIGHT_SUCCESS
    };
    if raw < BUBBLE_HEIGHT_MIN {
        BUBBLE_HEIGHT_MIN
    } else if raw > BUBBLE_HEIGHT_MAX {
        BUBBLE_HEIGHT_MAX
    } else {
        raw
    }
}

/// A work area: left, top, width and height.
pub type Area = (i32, i32, i32, i32);

/// Whether `v` fits in `i32`.
pub open spec fn fits_i32(v: int) -> bool {
    i32::MIN <= v <= i32::MAX
}

/// Whether a bubble of height `h` fits between the margins of `area` and its
/// edges stay within `i32` arithmetic (the clamps of the placement assert
/// that the room is there).
pub open spec fn area_fits(h: int, area: Area) -> bool {
    let (ax, ay, aw, ah) = area;
    &&& fits_i32(ax + aw)
    &&& fits_i32(ax + aw - BUBBLE_WIDTH)
    &&& fits_i32(ax + aw - BUBBLE_WIDTH - EDGE_MARGIN)
    &&& fits_i32(ay + ah)
    &&& fits_i32(ay + ah - h)
    &&& fits_i32(ay + ah - h - EDGE_MARGIN)
    &&& fits_i32(ay + ah - EDGE_MARGIN)
    &&& fits_i32(ax + EDGE_MARGIN)
    &&& fits_i32(ay + EDGE_MARGIN)
    &&& ax + EDGE_MARGIN <= ax + aw - BUBBLE_WIDTH - EDGE_MARGIN
    &&& ay + EDGE_MARGIN <= ay + ah - h - EDGE_MARGIN
}

/// Whether placing a bubble of height `h` near the cursor `(cx, cy)` in
/// `area` stays within `i32` arithmetic and the bubble fits the area: the
/// position to the left of the cursor only counts when there is no room on
/// the right, the one below it only when there is no room above.
pub open spec fn geometry_fits(cx: int, cy: int, h: int, area: Area) -> bool {
    let (ax, ay, aw, ah) = area;
    &&& area_fits(h, area)
    &&& fits_i32(cx + GAP)
    &&& fits_i32(cy - h)
    &&& fits_i32(cy - h - GAP)
    &&& (cx + GAP > ax + aw - BUBBLE_WIDTH - EDGE_MARGIN ==> fits_i32(cx - BUBBLE_WIDTH) && fits_i32(
        cx - BUBBLE_WIDTH - GAP,
    ))
    &&& (cy - h - GAP < ay + EDGE_MARGIN ==> fits_i32(cy + GAP))
}

/// Top-left corner of a bubble near the cursor: to the upper right of the
/// cursor, to the left when there is no room on the right, below when there is
/// no room above, and always within the margins of the work area.
pub open spec fn anchor_spec(cx: int, cy: int, area: Area) -> (int, int) {
    let (ax, ay, aw, ah) = area;
    let w = BUBBLE_WIDTH as int;
    let h = BUBBLE_HEIGHT_SUCCESS as int;
    let max_x = ax + aw - w - EDGE_MARGIN;
    let max_y = ay + ah - h - EDGE_MARGIN;
    let min_x = ax + EDGE_MARGIN;
    let min_y = ay + EDGE_MARGIN;
    let x0 = cx + GAP;
    let y0 = cy - h - GAP;
    let x1 = if x0 > max_x { cx - w - GAP } else { x0 };
    let y1 = if y0 < min_y { cy + GAP } else { y0 };
    (clamp_spec(x1, min_x, max_x), clamp_spec(y1, min_y, max_y))
}

fn clamp_i32(v: i32, lo: i32, hi: i32) -> (r: i32)
    requires
        lo <= hi,
    ensures
        r == clamp_spec(v as int, lo as int, hi as int),
{
    if v < lo {
        lo
    } else if v > hi {
        hi
    } else {
        v
    }
}

/// Where a new bubble goes for the cursor at `(cx, cy)`.
pub fn compute_anchor(cx: i32, cy: i32, area: Area) -> (r: (i32, i32))
    requires
        geometry_fits(cx as int, cy as int, BUBBLE_HEIGHT_SUCCESS as int, area),
    ensures
        r.0 == anchor_spec(cx as int, cy as int, area).0,
        r.1 == anchor_spec(cx as int, cy as int, area).1,
        area.0 + EDGE_MARGIN <= r.0 <= area.0 + area.2 - BUBBLE_WIDTH - EDGE_MARGIN,
        area.1 + EDGE_MARGIN <= r.1 <= area.1 + area.3 - BUBBLE_HEIGHT_SUCCESS - EDGE_MARGIN,
{
    let (area_x, area_y, area_w, area_h) = area;
    let w = BUBBLE_WIDTH as i32;
    let h = BUBBLE_HEIGHT_SUCCESS as i32;
    let max_x = area_x + area_w - w - EDGE_MARGIN;
    let max_y = area_y + area_h - h - EDGE_MARGIN;
    let min_x = area_x + EDGE_MARGIN;
    let min_y = area_y + EDGE_MARGIN;
    let mut x = cx + GAP;
    let mut y = cy - h - GAP;
    if x > max_x {
        x = cx - w - GAP;
    }
    if y < min_y {
        y = cy + GAP;
    }
    (clamp_i32(x, min_x, max_x), clamp_i32(y, min_y, max_y))
}

/// The bubble of height `h` moved from `(x, y)` into the work area: kept
/// within the side margins, and moved up when its bottom would cross the
/// bottom margin.
pub open spec fn clamped_spec(x: int, y: int, h: int, area: Area) -> (int, int) {
    let (ax, ay, aw, ah) = area;
    let max_x = ax + aw - BUBBLE_WIDTH - EDGE_MARGIN;
    let max_y = ay + ah - h - EDGE_MARGIN;
    let min_x = ax + EDGE_MARGIN;
    let min_y = ay + EDGE_MARGIN;
    let y1 = if y + h > ay + ah - EDGE_MARGIN { ay + ah - h - EDGE_MARGIN } else { y };
    (clamp_spec(x, min_x, max_x), clamp_spec(y1, min_y, max_y))
}

/// Whether moving the bubble from `(x, y)` stays within `i32` arithmetic.
pub open spec fn clamp_fits(x: int, y: int, h: int, area: Area) -> bool {
    &&& area_fits(h, area)
    &&& fits_i32(y + h)
}

/// Where a bubble of `height` anchored at `(x, y)` is shown. The height is
/// read as `i32`, as the window system's sizes are.
pub fn clamp_to_work_area(x: i32, y: i32, height: u32, area: Area) -> (r: (i32, i32))
    requires
        clamp_fits(x as int, y as int, (height as i32) as int, area),
    ensures
        r.0 == clamped_spec(x as int, y as int, (height as i32) as int, area).0,
        r.1 == clamped_spec(x as int, y as int, (height as i32) as int, area).1,
        area.0 + EDGE_MARGIN <= r.0 <= area.0 + area.2 - BUBBLE_WIDTH - EDGE_MARGIN,
        area.1 + EDGE_MARGIN <= r.1,
        r.1 + (height as i32) <= area.1 + area.3 - EDGE_MARGIN,
{
    let (area_x, area_y, area_w, area_h) = area;
    let w = BUBBLE_WIDTH as i32;
    let h = height as i32;
    let max_x = area_x + area_w - w - EDGE_MARGIN;
    let max_y = area_y + area_h - h - EDGE_MARGIN;
    let min_x = area_x + EDGE_MARGIN;
    let min_y = area_y + EDGE_MARGIN;
    let x = clamp_i32(x, min_x, max_x);
    let mut y = y;
    if y + h > area_y + area_h - EDGE_MARGIN {
        y = area_y + area_h - h - EDGE_MARGIN;
    }
    (x, clamp_i32(y, min_y, max_y))
}

/// The corner a bubble keeps during one capture and translation, so that the
/// loading and the result bubble do not jump, with the work area it was
/// computed in.
#[derive(Debug, Clone, Copy)]
pub struct BubbleAnchor {
    pub x: i32,
    pub y: i32,
    pub area: Area,
}

/// The anchor for a new capture with the cursor at `(cx, cy)`.
pub fn new_anchor(cx: i32, cy: i32, area: Area) -> (r: BubbleAnchor)
    requires
        geometry_fits(cx as int, cy as int, BUBBLE_HEIGHT_SUCCESS as int, area),
    ensures
        r.x == anchor_spec(cx as int, cy as int, area).0,
        r.y == anchor_spec(cx as int, cy as int, area).1,
        r.area == area,
{
    let (x, y) = compute_anchor(cx, cy, area);
    BubbleAnchor { x, y, area }
}

/// The write-back hotkey to register while a translation is shown: the
/// trimmed hotkey, or `None` when the tool is off or no hotkey is set.
pub fn bubble_replace_accel(settings: &TranslateSettings) -> (r: Option<String>)
    ensures
        !settings.enabled ==> r is None,
        settings.enabled ==> match r {
            None => trim_spec(settings.bubble_replace_hotkey@).len() == 0,
            Some(a) => a@ == trim_spec(settings.bubble_replace_hotkey@) && a@.len() > 0,
        },
{
    if !settings.enabled {
        return None;
    }
    let accel = trim(settings.bubble_replace_hotkey.as_str());
    if accel.unicode_len() == 0 {
        return None;
    }
    Some(accel.to_string())
}

/// Seconds before the bubble hides by itself: at least 3.
pub fn auto_hide_delay_sec(seconds: u64) -> (r: u64)
    ensures
        r == if seconds < 3 { 3 } else { seconds },
{
    if seconds < 3 {
        3
    } else {
        seconds
    }
}

/// Counter that every display, hide and scheduled hide advances; a scheduled
/// hide only acts when the counter still holds the value it was given.
#[derive(Debug)]
pub struct HideGeneration {
    pub value: u64,
}

impl HideGeneration {
    /// A counter at 0.
    pub fn new() -> (r: Self)
        ensures
            r.value == 0,
    {
        HideGeneration { value: 0 }
    }

    /// Advances the counter (wrapping) and returns its new value.
    pub fn bump(&mut self) -> (r: u64)
        ensures
            final(self).value == (if old(self).value == u64::MAX { 0 } else { old(self).value + 1 }),
            r == final(self).value,
    {
        self.value = if self.value == u64::MAX {
            0
        } else {
            self.value + 1
        };
        self.value
    }

    /// Whether a hide scheduled with `generation` is still the latest request.
    pub fn is_current(&self, generation: u64) -> (r: bool)
        ensures
            r == (self.value == generation),
    {
        self.value == generation
    }
}

/// A hide scheduled with one value of the counter no longer acts once the
/// counter has been advanced again.
pub proof fn later_request_cancels_hide(before: u64)
    ensures
        (if before == u64::MAX { 0 } else { before + 1 }) != before,
{
}

/// The translation that the write-back hotkey puts into the target window.
pub struct ReplaceSession {
    pub target: TargetHwnd,
    pub translated: String,
}

/// The write-back session, if any. A stored session always names a real
/// window and holds a translation that is not blank.
pub struct ReplaceSessionSlot {
    session: Option<ReplaceSession>,
}

/// Whether a session can be written back: a real window and a translation
/// that is not blank.
pub open spec fn usable_session(target: TargetHwnd, translated: Seq<char>) -> bool {
    target.0 != 0 && !is_blank(translated)
}

impl ReplaceSessionSlot {
    /// Only usable sessions are stored.
    #[verifier::type_invariant]
    spec fn slot_inv(self) -> bool {
        match self.session {
            Some(s) => usable_session(s.target, s.translated@),
            None => true,
        }
    }
}

impl View for ReplaceSessionSlot {
    type V = Option<(TargetHwnd, Seq<char>)>;

    closed spec fn view(&self) -> Option<(TargetHwnd, Seq<char>)> {
        match self.session {
            Some(s) => Some((s.target, s.translated@)),
            None => None,
        }
    }
}

/// The session after one is offered for `target` and `translated`: kept only
/// for a real window and a translation that is not blank.
pub open spec fn session_after_set(target: TargetHwnd, translated: Seq<char>) -> Option<(TargetHwnd, Seq<char>)> {
    if usable_session(target, translated) {
        Some((target, translated))
    } else {
        None
    }
}

/// The view of an optional session pair.
pub open spec fn pair_view(o: Option<(TargetHwnd, String)>) -> Option<(TargetHwnd, Seq<char>)> {
    match o {
        Some((t, s)) => Some((t, s@)),
        None => None,
    }
}

/// Whether an optional session is absent or usable.
pub open spec fn none_or_usable(o: Option<(TargetHwnd, Seq<char>)>) -> bool {
    match o {
        Some((t, s)) => usable_session(t, s),
        None => true,
    }
}

impl ReplaceSessionSlot {
    /// No session.
    pub fn new() -> (r: Self)
        ensures
            r@ is None,
    {
        ReplaceSessionSlot { session: None }
    }

    /// Keeps the translation for write-back into `target`; clears the session
    /// instead when the window is invalid or the translation is blank.
    pub fn set_replace_session(&mut self, target: TargetHwnd, translated: String)
        ensures
            final(self)@ == session_after_set(target, translated@),
    {
        if !target.is_valid() || trim(translated.as_str()).unicode_len() == 0 {
            self.clear_replace_session();
            return;
        }
        self.session = Some(ReplaceSession { target, translated });
    }

    /// Drops the session.
    pub fn clear_replace_session(&mut self)
        ensures
            final(self)@ is None,
    {
        self.session = None;
    }

    /// Hands the session out and drops it; a session handed out is usable.
    pub fn take_replace_session(&mut self) -> (r: Option<(TargetHwnd, String)>)
        ensures
            pair_view(r) == old(self)@,
            none_or_usable(pair_view(r)),
            final(self)@ is None,
    {
        proof {
            use_type_invariant(&*self);
        }
        let r = match &self.session {
            Some(s) => Some((s.target, s.translated.clone())),
            None => None,
        };
        self.session = None;
        r
    }

    /// Whether there is a session.
    pub fn has_replace_session(&self) -> (r: bool)
        ensures
            r == (self@ is Some),
    {
        self.session.is_some()
    }

    /// A copy of the session, which stays; a session looked at is usable.
    pub fn peek_replace_session(&self) -> (r: Option<(TargetHwnd, String)>)
        ensures
            pair_view(r) == self@,
            none_or_usable(pair_view(r)),
    {
        proof {
            use_type_invariant(self);
        }
        match &self.session {
            Some(s) => Some((s.target, s.translated.clone())),
            None => None,
        }
    }
}

/// A session offered for a real window and a non-blank translation is what a
/// later look or take gives back; any other offer leaves no session.
pub proof fn session_read_after_write(target: TargetHwnd, translated: Seq<char>)
    ensures
        target.0 != 0 && !is_blank(translated) ==> session_after_set(target, translated) == Some(
            (target, translated),
        ),
        target.0 == 0 || is_blank(translated) ==> session_after_set(target, translated) is None,
{
}

fn in_i32(v: i64) -> (r: bool)
    ensures
        r == fits_i32(v as int),
{
    -2147483648i64 <= v && v <= 2147483647i64
}

fn area_fits_check(h: i64, area: Area) -> (r: bool)
    requires
        fits_i32(h as int),
    ensures
        r == area_fits(h as int, area),
{
    let (ax, ay, aw, ah) = area;
    let (ax, ay, aw, ah) = (ax as i64, ay as i64, aw as i64, ah as i64);
    let w = BUBBLE_WIDTH as i64;
    let m = EDGE_MARGIN as i64;
    in_i32(ax + aw) && in_i32(ax + aw - w) && in_i32(ax + aw - w - m) && in_i32(ay + ah) && in_i32(ay + ah - h)
        && in_i32(ay + ah - h - m) && in_i32(ay + ah - m) && in_i32(ax + m) && in_i32(ay + m) && ax + m <= ax + aw
        - w - m && ay + m <= ay + ah - h - m
}

/// Whether a new bubble can be placed for the cursor at `(cx, cy)` in `area`:
/// the condition of [`compute_anchor`] and [`new_anchor`].
pub fn anchor_fits(cx: i32, cy: i32, area: Area) -> (r: bool)
    ensures
        r == geometry_fits(cx as int, cy as int, BUBBLE_HEIGHT_SUCCESS as int, area),
{
    let h = BUBBLE_HEIGHT_SUCCESS as i64;
    let (ax, ay, aw) = (area.0 as i64, area.1 as i64, area.2 as i64);
    let (cx, cy) = (cx as i64, cy as i64);
    let w = BUBBLE_WIDTH as i64;
    let g = GAP as i64;
    let m = EDGE_MARGIN as i64;
    let left_fits = !(cx + g > ax + aw - w - m) || (in_i32(cx - w) && in_i32(cx - w - g));
    let below_fits = !(cy - h - g < ay + m) || in_i32(cy + g);
    area_fits_check(h, area) && in_i32(cx + g) && in_i32(cy - h) && in_i32(cy - h - g) && left_fits && below_fits
}

/// Whether a bubble of `height` anchored at `(x, y)` can be moved into
/// `area`: the condition of [`clamp_to_work_area`].
pub fn placement_fits(x: i32, y: i32, height: u32, area: Area) -> (r: bool)
    ensures
        r == clamp_fits(x as int, y as int, (height as i32) as int, area),
{
    let h = (height as i32) as i64;
    area_fits_check(h, area) && in_i32(y as i64 + h)
}

/// Moving a bubble that is already in place changes nothing.
pub proof fn clamp_is_idempotent(x: int, y: int, h: int, area: Area)
    requires
        area_fits(h, area),
    ensures
        ({
            let p = clamped_spec(x, y, h, area);
            clamped_spec(p.0, p.1, h, area) == p
        }),
{
}

} // verus!
