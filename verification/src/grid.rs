//! The nine-cell positioning grid and multi-monitor coordinate arithmetic.
//!
//! Every `Grid` coordinate is a Windows virtual-desktop coordinate. The
//! virtual desktop may span several monitors, and its origin is negative when
//! a secondary monitor lies left of or above the primary one.

use vstd::prelude::*;

verus! {

/// An axis-aligned rectangle; `right` and `bottom` are exclusive edges.
#[derive(Clone, Copy, Debug, PartialEq, Eq, Structural)]
pub struct Rect {
    pub left: i32,
    pub top: i32,
    pub right: i32,
    pub bottom: i32,
}

/// The current grid positioning state.
#[derive(Clone, Copy, Debug, PartialEq, Eq, Structural)]
pub struct Grid {
    /// The active selection, in virtual-desktop coordinates.
    pub rect: Rect,
    /// Number of subdivisions made so far, compared against the maximum depth.
    pub depth: u8,
}

/// Whether `v` is representable as an `i32`.
pub open spec fn fits_i32(v: int) -> bool {
    i32::MIN <= v <= i32::MAX
}

/// Integer division rounding toward zero, as Rust's `/` does on signed integers.
pub open spec fn tdiv(a: int, d: int) -> int
    recommends
        d > 0,
{
    if a >= 0 {
        a / d
    } else {
        -((-a) / d)
    }
}

pub open spec fn width(r: Rect) -> int {
    r.right - r.left
}

pub open spec fn height(r: Rect) -> int {
    r.bottom - r.top
}

/// The edges are in order: the rectangle is not inverted.
pub open spec fn is_ordered(r: Rect) -> bool {
    r.left <= r.right && r.top <= r.bottom
}

/// `inner` lies inside `outer`.
pub open spec fn contains(outer: Rect, inner: Rect) -> bool {
    &&& outer.left <= inner.left
    &&& inner.right <= outer.right
    &&& outer.top <= inner.top
    &&& inner.bottom <= outer.bottom
}

/// Zero-based cell index of a cell number; 0 is treated like 1.
pub open spec fn cell_index(number: u8) -> int {
    if number >= 1 {
        number - 1
    } else {
        0
    }
}

/// Column (0, 1 or 2) of a cell number; numbers run left to right.
pub open spec fn cell_col(number: u8) -> int {
    cell_index(number) % 3
}

/// Row of a cell number; numbers run top to bottom.
pub open spec fn cell_row(number: u8) -> int {
    cell_index(number) / 3
}

pub open spec fn cell_left(rect: Rect, number: u8) -> int {
    rect.left + tdiv(width(rect) * cell_col(number), 3)
}

pub open spec fn cell_right(rect: Rect, number: u8) -> int {
    rect.left + tdiv(width(rect) * (cell_col(number) + 1), 3)
}

pub open spec fn cell_top(rect: Rect, number: u8) -> int {
    rect.top + tdiv(height(rect) * cell_row(number), 3)
}

pub open spec fn cell_bottom(rect: Rect, number: u8) -> int {
    rect.top + tdiv(height(rect) * (cell_row(number) + 1), 3)
}

/// The cell of `rect` that `number` names.
pub open spec fn spec_cell_rect(rect: Rect, number: u8) -> Rect {
    Rect {
        left: cell_left(rect, number) as i32,
        top: cell_top(rect, number) as i32,
        right: cell_right(rect, number) as i32,
        bottom: cell_bottom(rect, number) as i32,
    }
}

/// Every intermediate value of `cell_rect` fits in an `i32`.
pub open spec fn cell_rect_fits(rect: Rect, number: u8) -> bool {
    let w = width(rect);
    let h = height(rect);
    let c = cell_col(number);
    let r = cell_row(number);
    &&& fits_i32(w)
    &&& fits_i32(h)
    &&& fits_i32(w * c)
    &&& fits_i32(w * (c + 1))
    &&& fits_i32(h * r)
    &&& fits_i32(h * (r + 1))
    &&& fits_i32(cell_left(rect, number))
    &&& fits_i32(cell_right(rect, number))
    &&& fits_i32(cell_top(rect, number))
    &&& fits_i32(cell_bottom(rect, number))
}

/// The virtual desktop rectangle, from the origin and size that Windows
/// reports for it.
pub fn virtual_screen_rect(left: i32, top: i32, width: i32, height: i32) -> (r: Rect)
    requires
        fits_i32(left + width),
        fits_i32(top + height),
    ensures
        r == (Rect { left, top, right: (left + width) as i32, bottom: (top + height) as i32 }),
{
    Rect { left, top, right: left + width, bottom: top + height }
}

/// Divides `rect` evenly into a 3x3 grid and returns the cell that `number`
/// names.
///
/// Numbers run left to right, top to bottom: 1 is the top-left cell, 9 the
/// bottom-right one.
pub fn cell_rect(rect: Rect, number: u8) -> (cell: Rect)
    requires
        cell_rect_fits(rect, number),
    ensures
        cell.left == cell_left(rect, number),
        cell.top == cell_top(rect, number),
        cell.right == cell_right(rect, number),
        cell.bottom == cell_bottom(rect, number),
        cell == spec_cell_rect(rect, number),
{
    // Map 1..=9 onto 0..=8 so that row and column follow from / and %.
    let index: i32 = number.saturating_sub(1) as i32;
    let col: i32 = index % 3;
    let row: i32 = index / 3;
    let width: i32 = rect.right - rect.left;
    let height: i32 = rect.bottom - rect.top;
    assert(index == cell_index(number));
    let wc: i32 = width * col;
    let wc1: i32 = width * (col + 1);
    let hr: i32 = height * row;
    let hr1: i32 = height * (row + 1);
    Rect {
        left: rect.left + wc / 3,
        top: rect.top + hr / 3,
        right: rect.left + wc1 / 3,
        bottom: rect.top + hr1 / 3,
    }
}

/// `rect` moved into the overlay window's client coordinates.
pub open spec fn spec_client_rect(rect: Rect, screen: Rect) -> Rect {
    Rect {
        left: (rect.left - screen.left) as i32,
        top: (rect.top - screen.top) as i32,
        right: (rect.right - screen.left) as i32,
        bottom: (rect.bottom - screen.top) as i32,
    }
}

/// Every coordinate of `to_client_rect` fits in an `i32`.
pub open spec fn client_rect_fits(rect: Rect, screen: Rect) -> bool {
    &&& fits_i32(rect.left - screen.left)
    &&& fits_i32(rect.top - screen.top)
    &&& fits_i32(rect.right - screen.left)
    &&& fits_i32(rect.bottom - screen.top)
}

/// Converts virtual-desktop coordinates into overlay client coordinates.
///
/// The overlay's client area starts at `(0, 0)`, so the desktop's top-left
/// corner is subtracted.
pub fn to_client_rect(rect: Rect, screen: Rect) -> (r: Rect)
    requires
        client_rect_fits(rect, screen),
    ensures
        r.left == rect.left - screen.left,
        r.top == rect.top - screen.top,
        r.right == rect.right - screen.left,
        r.bottom == rect.bottom - screen.top,
        r == spec_client_rect(rect, screen),
{
    Rect {
        left: rect.left - screen.left,
        top: rect.top - screen.top,
        right: rect.right - screen.left,
        bottom: rect.bottom - screen.top,
    }
}


/// The nine cells tile the rectangle: the outer cells share the rectangle's
/// edges, and neighbouring cells share the edge between them, so no point of
/// the rectangle is left out and no two cells overlap.
pub proof fn lemma_cells_tile(rect: Rect)
    ensures
        forall|n: u8| 1 <= n <= 9 && n % 3 == 1 ==> #[trigger] cell_left(rect, n) == rect.left,
        forall|n: u8| 1 <= n <= 9 && n % 3 == 0 ==> #[trigger] cell_right(rect, n) == rect.right,
        forall|n: u8| 1 <= n <= 3 ==> #[trigger] cell_top(rect, n) == rect.top,
        forall|n: u8| 7 <= n <= 9 ==> #[trigger] cell_bottom(rect, n) == rect.bottom,
        forall|n: u8|
            1 <= n <= 9 && n % 3 != 0 ==> {
                &&& #[trigger] cell_right(rect, n) == cell_left(rect, (n + 1) as u8)
                &&& cell_top(rect, n) == cell_top(rect, (n + 1) as u8)
                &&& cell_bottom(rect, n) == cell_bottom(rect, (n + 1) as u8)
            },
        forall|n: u8|
            1 <= n <= 6 ==> {
                &&& #[trigger] cell_bottom(rect, n) == cell_top(rect, (n + 3) as u8)
                &&& cell_left(rect, n) == cell_left(rect, (n + 3) as u8)
                &&& cell_right(rect, n) == cell_right(rect, (n + 3) as u8)
            },
{
    let w = width(rect);
    let h = height(rect);
    assert(w * 0 == 0 && w * 1 == w && w * 2 == w + w && w * 3 == w + w + w) by (nonlinear_arith);
    assert(h * 0 == 0 && h * 1 == h && h * 2 == h + h && h * 3 == h + h + h) by (nonlinear_arith);
    assert(tdiv(w + w + w, 3) == w);
    assert(tdiv(h + h + h, 3) == h);
}

/// Each cell of an ordered rectangle is ordered and lies inside it.
pub proof fn lemma_cell_inside(rect: Rect, number: u8)
    requires
        is_ordered(rect),
        1 <= number <= 9,
    ensures
        rect.left <= cell_left(rect, number) <= cell_right(rect, number) <= rect.right,
        rect.top <= cell_top(rect, number) <= cell_bottom(rect, number) <= rect.bottom,
{
    let w = width(rect);
    let h = height(rect);
    assert(w * 0 == 0 && w * 1 == w && w * 2 == w + w && w * 3 == w + w + w) by (nonlinear_arith);
    assert(h * 0 == 0 && h * 1 == h && h * 2 == h + h && h * 3 == h + h + h) by (nonlinear_arith);
    assert(0 <= cell_row(number) <= 2);
}


/// Tests whether `v` fits in an `i32`.
pub fn in_i32_range(v: i64) -> (b: bool)
    ensures
        b == fits_i32(v as int),
{
    -2147483648i64 <= v && v <= 2147483647i64
}

/// Tests `cell_rect_fits`, computing in 64 bits where nothing overflows.
pub fn cell_rect_fits_check(rect: Rect, number: u8) -> (b: bool)
    ensures
        b == cell_rect_fits(rect, number),
{
    let index: i64 = if number >= 1 { number as i64 - 1 } else { 0 };
    let col: i64 = index % 3;
    let row: i64 = index / 3;
    assert(index == cell_index(number));
    let w: i64 = rect.right as i64 - rect.left as i64;
    let h: i64 = rect.bottom as i64 - rect.top as i64;
    assert(-0x1_0000_0000 * 3 <= w * col <= 0x1_0000_0000 * 3
        && -0x1_0000_0000 * 3 <= w * (col + 1) <= 0x1_0000_0000 * 3) by (nonlinear_arith)
        requires
            -0x1_0000_0000 <= w <= 0x1_0000_0000,
            0 <= col <= 2,
    ;
    assert(-0x1_0000_0000 * 86 <= h * row <= 0x1_0000_0000 * 86
        && -0x1_0000_0000 * 86 <= h * (row + 1) <= 0x1_0000_0000 * 86) by (nonlinear_arith)
        requires
            -0x1_0000_0000 <= h <= 0x1_0000_0000,
            0 <= row <= 84,
    ;
    let wc: i64 = w * col;
    let wc1: i64 = w * (col + 1);
    let hr: i64 = h * row;
    let hr1: i64 = h * (row + 1);
    let left: i64 = rect.left as i64 + wc / 3;
    let right: i64 = rect.left as i64 + wc1 / 3;
    let top: i64 = rect.top as i64 + hr / 3;
    let bottom: i64 = rect.top as i64 + hr1 / 3;
    in_i32_range(w) && in_i32_range(h) && in_i32_range(wc) && in_i32_range(wc1) && in_i32_range(hr)
        && in_i32_range(hr1) && in_i32_range(left) && in_i32_range(right) && in_i32_range(top)
        && in_i32_range(bottom)
}

} // verus!
