//! Mapping of the pointer position to the HUD avatar.
//!
//! The viewport is divided into five equal-width columns and two
//! equal-height rows; the avatar looks toward the cell the pointer is
//! in. The mapping is pure, clamps every position (boundaries included)
//! into range, and falls back to a fixed viewport size when the real
//! one cannot be measured.

use vstd::prelude::*;

verus! {

/// The effective viewport dimension: a missing or degenerate
/// measurement (zero or negative) falls back to the given default.
pub open spec fn spec_effective_dim(dim: i64, fallback: int) -> int {
    if dim <= 0 {
        fallback
    } else {
        dim as int
    }
}

/// The grid column of pointer position `x` in a viewport of width `w`:
/// one of five equal-width bands, clamped into `0..=4`.
pub open spec fn spec_grid_col(x: int, w: int) -> int
    recommends
        w > 0,
{
    if x < 0 {
        0
    } else if 5 * x / w > 4 {
        4
    } else {
        5 * x / w
    }
}

/// The grid row of pointer position `y` in a viewport of height `h`:
/// one of two equal-height bands, clamped into `0..=1`.
pub open spec fn spec_grid_row(y: int, h: int) -> int
    recommends
        h > 0,
{
    if y < 0 {
        0
    } else if 2 * y / h > 1 {
        1
    } else {
        2 * y / h
    }
}

/// Maps a pointer position to its (column, row) grid cell. Every
/// position maps to exactly one cell with column in `0..=4` and row in
/// `0..=1`; boundary positions (0 or the full viewport extent) stay in
/// range. Degenerate viewport measurements fall back to 1920x1080.
pub fn grid_cell(x: i64, y: i64, viewport_w: i64, viewport_h: i64) -> (cell: (u8, u8))
    ensures
        cell.0 <= 4,
        cell.1 <= 1,
        cell.0 == spec_grid_col(x as int, spec_effective_dim(viewport_w, 1920)),
        cell.1 == spec_grid_row(y as int, spec_effective_dim(viewport_h, 1080)),
{
    let w: i64 = if viewport_w <= 0 { 1920 } else { viewport_w };
    let h: i64 = if viewport_h <= 0 { 1080 } else { viewport_h };
    let col: u8 = if x < 0 {
        0
    } else {
        let q: u128 = 5 * (x as u128) / (w as u128);
        if q > 4 {
            4
        } else {
            q as u8
        }
    };
    let row: u8 = if y < 0 {
        0
    } else {
        let q: u128 = 2 * (y as u128) / (h as u128);
        if q > 1 {
            1
        } else {
            q as u8
        }
    };
    (col, row)
}

/// The cell assumed before any pointer data arrives: the lower middle
/// of the grid.
pub fn default_cell() -> (cell: (u8, u8))
    ensures
        cell == (2u8, 1u8),
{
    (2, 1)
}

/// The avatar image for a grid cell, or the fixed close-up shown while
/// the pointer hovers over the avatar itself.
pub open spec fn spec_avatar_image(col: u8, row: u8, hover: bool) -> Seq<char> {
    if hover {
        "/static/hud/avatar/AVATAR_4.png"@
    } else if col == 0 && row == 0 {
        "/static/hud/avatar/AVATAR_TOP_LEFT.png"@
    } else if col == 1 && row == 0 {
        "/static/hud/avatar/AVATAR_TOP_CENTER_LEFT.png"@
    } else if col == 2 && row == 0 {
        "/static/hud/avatar/AVATAR_TOP_CENTER.png"@
    } else if col == 3 && row == 0 {
        "/static/hud/avatar/AVATAR_TOP_CENTER_RIGHT.png"@
    } else if col == 4 && row == 0 {
        "/static/hud/avatar/AVATAR_TOP_RIGHT.png"@
    } else if col == 0 && row == 1 {
        "/static/hud/avatar/AVATAR_BOTTOM_LEFT.png"@
    } else if col == 1 && row == 1 {
        "/static/hud/avatar/AVATAR_BOTTOM_CENTER_LEFT.png"@
    } else if col == 2 && row == 1 {
        "/static/hud/avatar/AVATAR_BOTTOM_CENTER.png"@
    } else if col == 3 && row == 1 {
        "/static/hud/avatar/AVATAR_BOTTOM_CENTER_RIGHT.png"@
    } else if col == 4 && row == 1 {
        "/static/hud/avatar/AVATAR_BOTTOM_RIGHT.png"@
    } else {
        "/static/hud/avatar/AVATAR_1.png"@
    }
}

/// Looks up the avatar image for a grid cell, as `spec_avatar_image`
/// describes.
pub fn avatar_image(col: u8, row: u8, hover: bool) -> (p: &'static str)
    ensures
        p@ == spec_avatar_image(col, row, hover),
{
    if hover {
        return "/static/hud/avatar/AVATAR_4.png";
    }
    match (col, row) {
        (0, 0) => "/static/hud/avatar/AVATAR_TOP_LEFT.png",
        (1, 0) => "/static/hud/avatar/AVATAR_TOP_CENTER_LEFT.png",
        (2, 0) => "/static/hud/avatar/AVATAR_TOP_CENTER.png",
        (3, 0) => "/static/hud/avatar/AVATAR_TOP_CENTER_RIGHT.png",
        (4, 0) => "/static/hud/avatar/AVATAR_TOP_RIGHT.png",
        (0, 1) => "/static/hud/avatar/AVATAR_BOTTOM_LEFT.png",
        (1, 1) => "/static/hud/avatar/AVATAR_BOTTOM_CENTER_LEFT.png",
        (2, 1) => "/static/hud/avatar/AVATAR_BOTTOM_CENTER.png",
        (3, 1) => "/static/hud/avatar/AVATAR_BOTTOM_CENTER_RIGHT.png",
        (4, 1) => "/static/hud/avatar/AVATAR_BOTTOM_RIGHT.png",
        _ => "/static/hud/avatar/AVATAR_1.png",
    }
}

/// A position inside the viewport never lands on the fallback image:
/// its cell is always one of the ten grid cells.
pub proof fn lemma_grid_cell_in_range(x: int, y: int, w: int, h: int)
    requires
        w > 0,
        h > 0,
    ensures
        0 <= spec_grid_col(x, w) <= 4,
        0 <= spec_grid_row(y, h) <= 1,
{
    if x >= 0 {
        vstd::arithmetic::div_mod::lemma_div_is_ordered(0, 5 * x, w);
    }
    if y >= 0 {
        vstd::arithmetic::div_mod::lemma_div_is_ordered(0, 2 * y, h);
    }
}

} // verus!
