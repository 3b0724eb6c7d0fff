//! Layout of the transparent 81-field grid overlay window.
//!
//! The overlay covers the whole virtual desktop. Black is its transparent
//! colour key; the red grid lines and cell numbers are the visible hints. This
//! module computes where the window goes and what is drawn where; the host
//! does the drawing.
//!
//! The selection is drawn as a 9x9 field of lines, whose lines 3 and 6 are
//! the borders of the nine cells that the digit keys choose. The numbers 1 to
//! 9 are drawn centred in those nine cells. The selection is chosen one cell
//! of a 3x3 division at a time (see `grid` and `keyboard`), so there is no
//! separate row stage or final-cell stage: no highlighted row or cell and no
//! "Enter" hint is drawn, and every stage shows the same picture over the
//! current selection.

use vstd::prelude::*;
use crate::grid::{
    Grid, Rect, cell_rect, cell_rect_fits, cell_rect_fits_check, client_rect_fits, fits_i32,
    height, in_i32_range, spec_cell_rect, spec_client_rect, tdiv, to_client_rect, width,
};

verus! {

/// Approximate width of one character of the default GDI font.
pub const CHAR_WIDTH: i32 = 8;
/// Approximate height of one character of the default GDI font.
pub const CHAR_HEIGHT: i32 = 16;

/// Position and size of a window.
#[derive(Clone, Copy, Debug, PartialEq, Eq, Structural)]
pub struct Placement {
    pub x: i32,
    pub y: i32,
    pub width: i32,
    pub height: i32,
}

/// A line from `(x1, y1)` to `(x2, y2)`.
#[derive(Clone, Copy, Debug, PartialEq, Eq, Structural)]
pub struct Segment {
    pub x1: i32,
    pub y1: i32,
    pub x2: i32,
    pub y2: i32,
}

/// A cell number drawn with its top-left corner at `(x, y)`.
#[derive(Clone, Copy, Debug, PartialEq, Eq, Structural)]
pub struct Label {
    pub x: i32,
    pub y: i32,
    pub number: u8,
}

/// What is drawn for a grid: its frame, the 9x9 field lines and the number
/// of each of the nine selectable cells.
#[derive(Debug)]
pub struct GridLayout {
    pub frame: Rect,
    pub lines: Vec<Segment>,
    pub labels: Vec<Label>,
}

/// What one repaint draws: the client area is cleared to the transparent
/// colour, then the grid, if grid mode is on, is drawn in client coordinates.
#[derive(Debug)]
pub struct PaintLayout {
    pub client: Rect,
    pub grid: Option<GridLayout>,
}

/// The size of `screen` fits in `i32`.
pub open spec fn size_fits(screen: Rect) -> bool {
    fits_i32(width(screen)) && fits_i32(height(screen))
}

/// Places a window over the whole virtual desktop.
pub fn window_placement(screen: Rect) -> (p: Placement)
    requires
        size_fits(screen),
    ensures
        p.x == screen.left,
        p.y == screen.top,
        p.width == width(screen),
        p.height == height(screen),
{
    Placement {
        x: screen.left,
        y: screen.top,
        width: screen.right - screen.left,
        height: screen.bottom - screen.top,
    }
}

/// The overlay's client area: the desktop's size, from `(0, 0)`.
pub open spec fn spec_client_area(screen: Rect) -> Rect {
    Rect { left: 0, top: 0, right: width(screen) as i32, bottom: height(screen) as i32 }
}

/// Returns the overlay's client area.
pub fn client_area(screen: Rect) -> (r: Rect)
    requires
        size_fits(screen),
    ensures
        r == spec_client_area(screen),
        r.right == width(screen),
        r.bottom == height(screen),
{
    Rect { left: 0, top: 0, right: screen.right - screen.left, bottom: screen.bottom - screen.top }
}

/// Number of columns and rows that the drawn grid lines divide the
/// selection into: 81 fields, so that the 3x3 cell borders are lines 3 and 6.
pub const LINE_DIVISIONS: i32 = 9;

/// Distance between vertical grid lines.
pub open spec fn line_step_x(rect: Rect) -> int {
    tdiv(width(rect), 9)
}

/// Distance between horizontal grid lines.
pub open spec fn line_step_y(rect: Rect) -> int {
    tdiv(height(rect), 9)
}

/// The vertical line between columns `i` and `i + 1`.
pub open spec fn vertical_line(rect: Rect, i: int) -> Segment {
    let x = (rect.left + line_step_x(rect) * i) as i32;
    Segment { x1: x, y1: rect.top, x2: x, y2: rect.bottom }
}

/// The horizontal line between rows `i` and `i + 1`.
pub open spec fn horizontal_line(rect: Rect, i: int) -> Segment {
    let y = (rect.top + line_step_y(rect) * i) as i32;
    Segment { x1: rect.left, y1: y, x2: rect.right, y2: y }
}

/// The inner lines of the 9x9 grid: for each of the eight inner positions
/// `i`, the vertical line and then the horizontal one.
pub open spec fn spec_grid_lines(rect: Rect) -> Seq<Segment> {
    Seq::new(
        16,
        |k: int|
            if k % 2 == 0 {
                vertical_line(rect, k / 2 + 1)
            } else {
                horizontal_line(rect, k / 2 + 1)
            },
    )
}

pub open spec fn grid_lines_fit(rect: Rect) -> bool {
    &&& size_fits(rect)
    &&& forall|i: int|
        1 <= i <= 8 ==> #[trigger] fits_i32(rect.left + line_step_x(rect) * i) && fits_i32(
            rect.top + line_step_y(rect) * i,
        )
}

/// Returns the inner lines of the 9x9 grid over `rect`: eight vertical and
/// eight horizontal lines at equal distances.
pub fn grid_lines(rect: Rect) -> (lines: Vec<Segment>)
    requires
        grid_lines_fit(rect),
    ensures
        lines@ == spec_grid_lines(rect),
        lines@.len() == 16,
{
    let cell_width: i32 = (rect.right - rect.left) / LINE_DIVISIONS;
    let cell_height: i32 = (rect.bottom - rect.top) / LINE_DIVISIONS;
    let mut lines: Vec<Segment> = Vec::new();
    let mut i: i32 = 1;
    while i < LINE_DIVISIONS
        invariant
            1 <= i <= 9,
            grid_lines_fit(rect),
            cell_width == line_step_x(rect),
            cell_height == line_step_y(rect),
            lines@ == spec_grid_lines(rect).take(2 * (i - 1)),
        decreases 9 - i,
    {
        assert(-238609295 * 8 <= cell_width * i <= 238609295 * 8
            && -238609295 * 8 <= cell_height * i <= 238609295 * 8) by (nonlinear_arith)
            requires
                -238609295 <= cell_width <= 238609295,
                -238609295 <= cell_height <= 238609295,
                1 <= i <= 8,
        ;
        assert(fits_i32(rect.left + line_step_x(rect) * i));
        let x: i32 = rect.left + cell_width * i;
        lines.push(Segment { x1: x, y1: rect.top, x2: x, y2: rect.bottom });
        let y: i32 = rect.top + cell_height * i;
        lines.push(Segment { x1: rect.left, y1: y, x2: rect.right, y2: y });
        assert(lines@ =~= spec_grid_lines(rect).take(2 * i));
        i = i + 1;
    }
    assert(spec_grid_lines(rect).take(16) =~= spec_grid_lines(rect));
    lines
}

pub open spec fn max0(v: int) -> int {
    if v > 0 {
        v
    } else {
        0
    }
}

/// Where text of `units` UTF-16 units starts so that it is roughly centred
/// in `rect`; the text never starts left of or above the rectangle.
pub open spec fn text_origin_x(rect: Rect, units: int) -> int {
    rect.left + max0(tdiv(width(rect) - units * 8, 2))
}

pub open spec fn text_origin_y(rect: Rect) -> int {
    rect.top + max0(tdiv(height(rect) - 16, 2))
}

pub open spec fn text_origin_fits(rect: Rect, units: int) -> bool {
    &&& size_fits(rect)
    &&& fits_i32(units * 8)
    &&& fits_i32(width(rect) - units * 8)
    &&& fits_i32(height(rect) - 16)
    &&& fits_i32(text_origin_x(rect, units))
    &&& fits_i32(text_origin_y(rect))
}

/// Returns where text of `units` UTF-16 units starts so that it is roughly
/// centred in `rect` with the default GDI font.
pub fn centered_text_origin(rect: Rect, units: i32) -> (origin: (i32, i32))
    requires
        text_origin_fits(rect, units as int),
    ensures
        origin.0 == text_origin_x(rect, units as int),
        origin.1 == text_origin_y(rect),
{
    let text_width: i32 = units * CHAR_WIDTH;
    let free_x: i32 = (rect.right - rect.left - text_width) / 2;
    let free_y: i32 = (rect.bottom - rect.top - CHAR_HEIGHT) / 2;
    let x: i32 = rect.left + if free_x > 0 { free_x } else { 0 };
    let y: i32 = rect.top + if free_y > 0 { free_y } else { 0 };
    (x, y)
}

/// The label of cell `number`: the one-character number centred in the cell.
pub open spec fn cell_label(rect: Rect, number: u8) -> Label {
    let cell = spec_cell_rect(rect, number);
    Label { x: text_origin_x(cell, 1) as i32, y: text_origin_y(cell) as i32, number }
}

/// The labels of the nine cells, in cell-number order.
pub open spec fn spec_grid_labels(rect: Rect) -> Seq<Label> {
    Seq::new(9, |i: int| cell_label(rect, (i + 1) as u8))
}

/// Every value of `grid_layout` fits in `i32`.
pub open spec fn grid_layout_fits(rect: Rect) -> bool {
    &&& grid_lines_fit(rect)
    &&& forall|n: u8|
        1 <= n <= 9 ==> #[trigger] cell_rect_fits(rect, n) && text_origin_fits(spec_cell_rect(rect, n), 1)
}

fn text_origin_fits_check(rect: Rect, units: i32) -> (b: bool)
    ensures
        b == text_origin_fits(rect, units as int),
{
    let w: i64 = rect.right as i64 - rect.left as i64;
    let h: i64 = rect.bottom as i64 - rect.top as i64;
    let tw: i64 = units as i64 * 8;
    let fx: i64 = (w - tw) / 2;
    let fy: i64 = (h - 16) / 2;
    let x: i64 = rect.left as i64 + if fx > 0 { fx } else { 0 };
    let y: i64 = rect.top as i64 + if fy > 0 { fy } else { 0 };
    in_i32_range(w) && in_i32_range(h) && in_i32_range(tw) && in_i32_range(w - tw) && in_i32_range(h - 16)
        && in_i32_range(x) && in_i32_range(y)
}

fn grid_lines_fit_check(rect: Rect) -> (b: bool)
    ensures
        b == grid_lines_fit(rect),
{
    let w: i64 = rect.right as i64 - rect.left as i64;
    let h: i64 = rect.bottom as i64 - rect.top as i64;
    if !(in_i32_range(w) && in_i32_range(h)) {
        return false;
    }
    let cw: i64 = w / 9;
    let ch: i64 = h / 9;
    let mut i: i64 = 1;
    while i <= 8
        invariant
            1 <= i <= 9,
            size_fits(rect),
            cw == line_step_x(rect),
            ch == line_step_y(rect),
            -238609295 <= cw <= 238609295,
            -238609295 <= ch <= 238609295,
            forall|j: int|
                1 <= j < i ==> #[trigger] fits_i32(rect.left + line_step_x(rect) * j) && fits_i32(
                    rect.top + line_step_y(rect) * j,
                ),
        decreases 9 - i,
    {
        assert(-238609295 * 8 <= cw * i <= 238609295 * 8 && -238609295 * 8 <= ch * i <= 238609295 * 8)
            by (nonlinear_arith)
            requires
                -238609295 <= cw <= 238609295,
                -238609295 <= ch <= 238609295,
                1 <= i <= 8,
        ;
        if !(in_i32_range(rect.left as i64 + cw * i) && in_i32_range(rect.top as i64 + ch * i)) {
            return false;
        }
        i = i + 1;
    }
    true
}

/// Tests `grid_layout_fits`.
pub fn grid_layout_fits_check(rect: Rect) -> (b: bool)
    ensures
        b == grid_layout_fits(rect),
{
    if !grid_lines_fit_check(rect) {
        return false;
    }
    let mut n: u8 = 1;
    while n <= 9
        invariant
            1 <= n <= 10,
            forall|m: u8|
                1 <= m < n ==> #[trigger] cell_rect_fits(rect, m) && text_origin_fits(spec_cell_rect(rect, m), 1),
        decreases 10 - n,
    {
        if !cell_rect_fits_check(rect, n) {
            return false;
        }
        let cell = cell_rect(rect, n);
        if !text_origin_fits_check(cell, 1) {
            return false;
        }
        n = n + 1;
    }
    true
}

/// Lays out a grid: its frame, the inner lines, and each cell's number
/// centred in the cell.
pub fn grid_layout(rect: Rect) -> (layout: GridLayout)
    requires
        grid_layout_fits(rect),
    ensures
        layout.frame == rect,
        layout.lines@ == spec_grid_lines(rect),
        layout.labels@ == spec_grid_labels(rect),
{
    let lines = grid_lines(rect);
    let mut labels: Vec<Label> = Vec::new();
    let mut n: u8 = 1;
    while n <= 9
        invariant
            1 <= n <= 10,
            grid_layout_fits(rect),
            labels@ == spec_grid_labels(rect).take(n - 1),
        decreases 10 - n,
    {
        assert(cell_rect_fits(rect, n));
        let cell = cell_rect(rect, n);
        let (x, y) = centered_text_origin(cell, 1);
        labels.push(Label { x, y, number: n });
        assert(labels@ == spec_grid_labels(rect).take(n as int));
        n = n + 1;
    }
    assert(spec_grid_labels(rect).take(9) == spec_grid_labels(rect));
    GridLayout { frame: rect, lines, labels }
}

/// Every value of `paint_layout` fits in `i32`.
pub open spec fn paint_fits(screen: Rect, grid: Option<Grid>) -> bool {
    &&& size_fits(screen)
    &&& (grid matches Some(g) ==> client_rect_fits(g.rect, screen) && grid_layout_fits(
        spec_client_rect(g.rect, screen),
    ))
}

/// Tests `paint_fits`.
pub fn paint_fits_check(screen: Rect, grid: Option<Grid>) -> (b: bool)
    ensures
        b == paint_fits(screen, grid),
{
    let w: i64 = screen.right as i64 - screen.left as i64;
    let h: i64 = screen.bottom as i64 - screen.top as i64;
    if !(in_i32_range(w) && in_i32_range(h)) {
        return false;
    }
    match grid {
        Some(g) => {
            let fits = in_i32_range(g.rect.left as i64 - screen.left as i64) && in_i32_range(
                g.rect.top as i64 - screen.top as i64,
            ) && in_i32_range(g.rect.right as i64 - screen.left as i64) && in_i32_range(
                g.rect.bottom as i64 - screen.top as i64,
            );
            if !fits {
                return false;
            }
            grid_layout_fits_check(to_client_rect(g.rect, screen))
        },
        None => true,
    }
}

/// What a repaint of the overlay draws, for the virtual desktop `screen` and
/// the current grid, if any. The grid keeps virtual-desktop coordinates and is
/// moved into client coordinates for drawing.
pub fn paint_layout(screen: Rect, grid: Option<Grid>) -> (layout: PaintLayout)
    requires
        paint_fits(screen, grid),
    ensures
        layout.client == spec_client_area(screen),
        grid is None ==> layout.grid is None,
        grid matches Some(g) ==> layout.grid matches Some(l) && {
            &&& l.frame == spec_client_rect(g.rect, screen)
            &&& l.lines@ == spec_grid_lines(spec_client_rect(g.rect, screen))
            &&& l.labels@ == spec_grid_labels(spec_client_rect(g.rect, screen))
        },
{
    let client = client_area(screen);
    let grid_layout = match grid {
        Some(g) => Some(grid_layout(to_client_rect(g.rect, screen))),
        None => None,
    };
    PaintLayout { client, grid: grid_layout }
}


/// The whole virtual desktop, moved into client coordinates, is exactly the
/// overlay's client area: a fresh grid covers the whole overlay.
pub proof fn lemma_desktop_fills_client_area(screen: Rect)
    requires
        size_fits(screen),
    ensures
        client_rect_fits(screen, screen),
        spec_client_rect(screen, screen) == spec_client_area(screen),
{
}

/// Each cell number of an ordered grid starts inside its own cell.
pub proof fn lemma_labels_start_in_cells(rect: Rect, number: u8)
    requires
        crate::grid::is_ordered(rect),
        1 <= number <= 9,
        cell_rect_fits(rect, number),
    ensures
        spec_cell_rect(rect, number).left <= cell_label(rect, number).x as int <= spec_cell_rect(rect, number).right,
        spec_cell_rect(rect, number).top <= cell_label(rect, number).y as int <= spec_cell_rect(rect, number).bottom,
{
    crate::grid::lemma_cell_inside(rect, number);
}


/// The drawn lines are evenly spaced: the vertical lines run from the top
/// edge to the bottom edge, the horizontal ones from the left edge to the
/// right edge, neighbouring lines are one ninth of the size apart (rounded
/// toward zero), and on a rectangle whose sides are multiples of 9 the third
/// and sixth lines are the borders of the nine selectable cells.
pub proof fn lemma_grid_lines_even(rect: Rect, i: int)
    requires
        grid_lines_fit(rect),
        1 <= i <= 7,
    ensures
        ({
            let lines = spec_grid_lines(rect);
            let v = lines[2 * (i - 1)];
            let v2 = lines[2 * i];
            let h = lines[2 * (i - 1) + 1];
            let h2 = lines[2 * i + 1];
            &&& lines.len() == 16
            &&& v.x1 == v.x2 && v.y1 == rect.top && v.y2 == rect.bottom
            &&& h.y1 == h.y2 && h.x1 == rect.left && h.x2 == rect.right
            &&& v2.x1 - v.x1 == lines[0].x1 - rect.left
            &&& h2.y1 - h.y1 == lines[1].y1 - rect.top
            &&& (width(rect) >= 0 && width(rect) % 9 == 0) ==> lines[0].x1 - rect.left == width(rect) / 9
                && lines[4].x1 == crate::grid::cell_left(rect, 2)
                && lines[10].x1 == crate::grid::cell_left(rect, 3)
            &&& (height(rect) >= 0 && height(rect) % 9 == 0) ==> lines[1].y1 - rect.top == height(rect) / 9
                && lines[5].y1 == crate::grid::cell_top(rect, 4)
                && lines[11].y1 == crate::grid::cell_top(rect, 7)
        }),
{
    let sx = line_step_x(rect);
    let sy = line_step_y(rect);
    assert(fits_i32(rect.left + sx * i) && fits_i32(rect.left + sx * (i + 1)) && fits_i32(rect.left + sx * 1));
    assert(fits_i32(rect.top + sy * i) && fits_i32(rect.top + sy * (i + 1)) && fits_i32(rect.top + sy * 1));
    assert(fits_i32(rect.left + sx * 3) && fits_i32(rect.left + sx * 6));
    assert(fits_i32(rect.top + sy * 3) && fits_i32(rect.top + sy * 6));
    assert(sx * (i + 1) - sx * i == sx && sy * (i + 1) - sy * i == sy) by (nonlinear_arith);
    assert(sx * 1 == sx && sy * 1 == sy);
    let w = width(rect);
    let hh = height(rect);
    assert(w * 1 == w && w * 2 == w + w && hh * 1 == hh && hh * 2 == hh + hh) by (nonlinear_arith);
    assert(sx * 3 == sx + sx + sx && sx * 6 == 6 * sx && sy * 3 == 3 * sy && sy * 6 == 6 * sy) by (nonlinear_arith);
}

} // verus!
