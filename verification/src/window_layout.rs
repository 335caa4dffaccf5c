//! Placement of the main window in the bottom-right corner of the work area.

use vstd::prelude::*;

verus! {

/// Gap between the main window and the edges of the work area.
pub const MAIN_MARGIN: i32 = 14;

/// A work area: left, top, width and height.
pub type WorkArea = (i32, i32, i32, i32);

/// Whether placing a window of `width` x `height` in `area` stays within
/// `i32` arithmetic.
pub open spec fn main_position_fits(width: u32, height: u32, area: WorkArea) -> bool {
    let (ax, ay, aw, ah) = area;
    &&& i32::MIN <= ax + aw <= i32::MAX
    &&& i32::MIN <= ax + aw - (width as i32) <= i32::MAX
    &&& i32::MIN <= ax + aw - (width as i32) - MAIN_MARGIN <= i32::MAX
    &&& i32::MIN <= ay + ah <= i32::MAX
    &&& i32::MIN <= ay + ah - (height as i32) <= i32::MAX
    &&& i32::MIN <= ay + ah - (height as i32) - MAIN_MARGIN <= i32::MAX
}

/// Bottom-right position of the main window: the margin away from the right
/// and bottom edges, never left of or above the work area. The window size is
/// read as `i32`, as the window system's sizes are.
pub open spec fn main_position(width: u32, height: u32, area: WorkArea) -> (int, int) {
    let (ax, ay, aw, ah) = area;
    let x = ax + aw - (width as i32) - MAIN_MARGIN;
    let y = ay + ah - (height as i32) - MAIN_MARGIN;
    (if x > ax { x } else { ax as int }, if y > ay { y } else { ay as int })
}

/// Where the main window goes in the work area near the cursor.
pub fn main_window_position(width: u32, height: u32, area: WorkArea) -> (r: (i32, i32))
    requires
        main_position_fits(width, height, area),
    ensures
        r.0 == main_position(width, height, area).0,
        r.1 == main_position(width, height, area).1,
{
    let (area_x, area_y, area_w, area_h) = area;
    let w = width as i32;
    let h = height as i32;
    let x = area_x + area_w - w - MAIN_MARGIN;
    let y = area_y + area_h - h - MAIN_MARGIN;
    (if x > area_x { x } else { area_x }, if y > area_y { y } else { area_y })
}

/// Whether [`main_window_position`] can place a window of `width` x `height`
/// in `area`.
pub fn main_position_in_range(width: u32, height: u32, area: WorkArea) -> (r: bool)
    ensures
        r == main_position_fits(width, height, area),
{
    let (ax, ay, aw, ah) = area;
    let (ax, ay, aw, ah) = (ax as i64, ay as i64, aw as i64, ah as i64);
    let w = (width as i32) as i64;
    let h = (height as i32) as i64;
    let m = MAIN_MARGIN as i64;
    let lo = -2147483648i64;
    let hi = 2147483647i64;
    lo <= ax + aw && ax + aw <= hi && lo <= ax + aw - w && ax + aw - w <= hi && lo <= ax + aw - w - m && ax + aw - w
        - m <= hi && lo <= ay + ah && ay + ah <= hi && lo <= ay + ah - h && ay + ah - h <= hi && lo <= ay + ah - h - m
        && ay + ah - h - m <= hi
}

} // verus!
