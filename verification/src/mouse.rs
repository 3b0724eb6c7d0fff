//! Mouse input events as `SendInput` expects them.
//!
//! Relative movement, absolute positioning, button presses and releases and
//! wheel input are computed here; the caller hands each `MouseEvent` to
//! Windows.

use vstd::prelude::*;
use crate::grid::{Rect, fits_i32, in_i32_range, tdiv};

verus! {

// `dwFlags` values of a Windows `MOUSEINPUT`.
pub const MOUSEEVENTF_MOVE: u32 = 0x0001;
pub const MOUSEEVENTF_LEFTDOWN: u32 = 0x0002;
pub const MOUSEEVENTF_LEFTUP: u32 = 0x0004;
pub const MOUSEEVENTF_RIGHTDOWN: u32 = 0x0008;
pub const MOUSEEVENTF_RIGHTUP: u32 = 0x0010;
pub const MOUSEEVENTF_MIDDLEDOWN: u32 = 0x0020;
pub const MOUSEEVENTF_MIDDLEUP: u32 = 0x0040;
pub const MOUSEEVENTF_XDOWN: u32 = 0x0080;
pub const MOUSEEVENTF_XUP: u32 = 0x0100;
pub const MOUSEEVENTF_WHEEL: u32 = 0x0800;
pub const MOUSEEVENTF_HWHEEL: u32 = 0x1000;
pub const MOUSEEVENTF_VIRTUALDESK: u32 = 0x4000;
pub const MOUSEEVENTF_ABSOLUTE: u32 = 0x8000;

// `mouseData` values naming the side buttons.
pub const XBUTTON1: u32 = 0x0001;
pub const XBUTTON2: u32 = 0x0002;

/// Upper end of the normalized absolute coordinate range of `SendInput`.
pub const ABSOLUTE_RANGE: i32 = 65535;

/// The mouse buttons that keys can be mapped to.
#[derive(Clone, Copy, Debug, PartialEq, Eq, Structural)]
pub enum MouseButton {
    /// The left button.
    Left,
    /// The right button.
    Right,
    /// The middle button.
    Middle,
    /// The back side button (XBUTTON1).
    Back,
    /// The forward side button (XBUTTON2).
    Forward,
}

/// One low-level mouse input: the `dwFlags`, `dx`, `dy` and `mouseData`
/// fields of a Windows `MOUSEINPUT`.
#[derive(Clone, Copy, Debug, PartialEq, Eq, Structural)]
pub struct MouseEvent {
    pub flags: u32,
    pub dx: i32,
    pub dy: i32,
    /// Wheel delta or side-button number, as `flags` says.
    pub mouse_data: u32,
}

impl MouseButton {
    /// Every button, in the order of `index`.
    pub const ALL: [MouseButton; 5] = [
        MouseButton::Left,
        MouseButton::Right,
        MouseButton::Middle,
        MouseButton::Back,
        MouseButton::Forward,
    ];

    /// The fixed slot of the button in a per-button table.
    pub open spec fn spec_index(self) -> usize {
        match self {
            MouseButton::Left => 0,
            MouseButton::Right => 1,
            MouseButton::Middle => 2,
            MouseButton::Back => 3,
            MouseButton::Forward => 4,
        }
    }

    /// `SendInput` flags and data that press the button.
    pub open spec fn spec_down_flags(self) -> (u32, u32) {
        match self {
            MouseButton::Left => (MOUSEEVENTF_LEFTDOWN, 0),
            MouseButton::Right => (MOUSEEVENTF_RIGHTDOWN, 0),
            MouseButton::Middle => (MOUSEEVENTF_MIDDLEDOWN, 0),
            MouseButton::Back => (MOUSEEVENTF_XDOWN, XBUTTON1),
            MouseButton::Forward => (MOUSEEVENTF_XDOWN, XBUTTON2),
        }
    }

    /// `SendInput` flags and data that release the button.
    pub open spec fn spec_up_flags(self) -> (u32, u32) {
        match self {
            MouseButton::Left => (MOUSEEVENTF_LEFTUP, 0),
            MouseButton::Right => (MOUSEEVENTF_RIGHTUP, 0),
            MouseButton::Middle => (MOUSEEVENTF_MIDDLEUP, 0),
            MouseButton::Back => (MOUSEEVENTF_XUP, XBUTTON1),
            MouseButton::Forward => (MOUSEEVENTF_XUP, XBUTTON2),
        }
    }

    /// Returns the button's fixed slot in a per-button table.
    pub fn index(self) -> (i: usize)
        ensures
            i == self.spec_index(),
            i < 5,
    {
        match self {
            MouseButton::Left => 0,
            MouseButton::Right => 1,
            MouseButton::Middle => 2,
            MouseButton::Back => 3,
            MouseButton::Forward => 4,
        }
    }

    /// Returns the `SendInput` flags and data of a press of the button.
    pub fn down_flags(&self) -> (r: (u32, u32))
        ensures
            r == self.spec_down_flags(),
    {
        match self {
            MouseButton::Left => (MOUSEEVENTF_LEFTDOWN, 0),
            MouseButton::Right => (MOUSEEVENTF_RIGHTDOWN, 0),
            MouseButton::Middle => (MOUSEEVENTF_MIDDLEDOWN, 0),
            MouseButton::Back => (MOUSEEVENTF_XDOWN, XBUTTON1),
            MouseButton::Forward => (MOUSEEVENTF_XDOWN, XBUTTON2),
        }
    }

    /// Returns the `SendInput` flags and data of a release of the button.
    pub fn up_flags(&self) -> (r: (u32, u32))
        ensures
            r == self.spec_up_flags(),
    {
        match self {
            MouseButton::Left => (MOUSEEVENTF_LEFTUP, 0),
            MouseButton::Right => (MOUSEEVENTF_RIGHTUP, 0),
            MouseButton::Middle => (MOUSEEVENTF_MIDDLEUP, 0),
            MouseButton::Back => (MOUSEEVENTF_XUP, XBUTTON1),
            MouseButton::Forward => (MOUSEEVENTF_XUP, XBUTTON2),
        }
    }
}

/// `ALL` lists every button exactly once, each at its own `index`.
pub proof fn lemma_all_buttons_indexed(b: MouseButton, c: MouseButton)
    ensures
        MouseButton::ALL@.len() == 5,
        MouseButton::ALL@[b.spec_index() as int] == b,
        b.spec_index() == c.spec_index() ==> b == c,
{
}

/// The event that moves the pointer by `(dx, dy)`.
pub open spec fn spec_move_relative(dx: i32, dy: i32) -> MouseEvent {
    MouseEvent { flags: MOUSEEVENTF_MOVE, dx, dy, mouse_data: 0 }
}

/// Builds a relative pointer movement.
///
/// Windows may apply pointer acceleration to relative movement, so the
/// distance in pixels need not equal the arguments.
pub fn move_relative(dx: i32, dy: i32) -> (e: MouseEvent)
    ensures
        e == spec_move_relative(dx, dy),
{
    MouseEvent { flags: MOUSEEVENTF_MOVE, dx, dy, mouse_data: 0 }
}

/// Horizontal centre of a rectangle, rounded toward zero.
pub open spec fn center_x(rect: Rect) -> int {
    tdiv(rect.left + rect.right, 2)
}

/// Vertical centre of a rectangle, rounded toward zero.
pub open spec fn center_y(rect: Rect) -> int {
    tdiv(rect.top + rect.bottom, 2)
}

/// Width of the desktop, at least 1 so that it can divide.
pub open spec fn screen_extent_x(screen: Rect) -> int {
    if screen.right - screen.left >= 1 {
        screen.right - screen.left
    } else {
        1
    }
}

/// Height of the desktop, at least 1 so that it can divide.
pub open spec fn screen_extent_y(screen: Rect) -> int {
    if screen.bottom - screen.top >= 1 {
        screen.bottom - screen.top
    } else {
        1
    }
}

/// The normalized absolute x coordinate (0..=65535 across the desktop) of
/// the rectangle's centre.
pub open spec fn absolute_x(rect: Rect, screen: Rect) -> int {
    tdiv((center_x(rect) - screen.left) * 65535, screen_extent_x(screen))
}

/// The normalized absolute y coordinate of the rectangle's centre.
pub open spec fn absolute_y(rect: Rect, screen: Rect) -> int {
    tdiv((center_y(rect) - screen.top) * 65535, screen_extent_y(screen))
}

/// Every intermediate value of `move_to_rect_center` fits in an `i32`.
pub open spec fn center_fits(rect: Rect, screen: Rect) -> bool {
    &&& fits_i32(rect.left + rect.right)
    &&& fits_i32(rect.top + rect.bottom)
    &&& fits_i32(screen.right - screen.left)
    &&& fits_i32(screen.bottom - screen.top)
    &&& fits_i32(center_x(rect) - screen.left)
    &&& fits_i32(center_y(rect) - screen.top)
    &&& fits_i32((center_x(rect) - screen.left) * 65535)
    &&& fits_i32((center_y(rect) - screen.top) * 65535)
}

/// The flags of an absolute move across the whole virtual desktop.
pub open spec fn absolute_move_flags() -> u32 {
    MOUSEEVENTF_MOVE | MOUSEEVENTF_ABSOLUTE | MOUSEEVENTF_VIRTUALDESK
}

/// The event that puts the pointer on the centre of `rect`.
pub open spec fn spec_move_to_rect_center(rect: Rect, screen: Rect) -> MouseEvent {
    MouseEvent {
        flags: absolute_move_flags(),
        dx: absolute_x(rect, screen) as i32,
        dy: absolute_y(rect, screen) as i32,
        mouse_data: 0,
    }
}

/// Builds the absolute movement that puts the pointer on the centre of
/// `rect`, a rectangle of the virtual desktop `screen`.
pub fn move_to_rect_center(rect: Rect, screen: Rect) -> (e: MouseEvent)
    requires
        center_fits(rect, screen),
    ensures
        e.dx == absolute_x(rect, screen),
        e.dy == absolute_y(rect, screen),
        e == spec_move_to_rect_center(rect, screen),
{
    // Centre of the rectangle and size of the desktop; the size is at least 1
    // so that it can divide.
    let x: i32 = (rect.left + rect.right) / 2;
    let y: i32 = (rect.top + rect.bottom) / 2;
    let sw: i32 = screen.right - screen.left;
    let sh: i32 = screen.bottom - screen.top;
    let width: i32 = if sw >= 1 { sw } else { 1 };
    let height: i32 = if sh >= 1 { sh } else { 1 };

    // SendInput's absolute coordinates run over 0..65535, not over pixels.
    let ox: i32 = x - screen.left;
    let oy: i32 = y - screen.top;
    let abs_x: i32 = (ox * ABSOLUTE_RANGE) / width;
    let abs_y: i32 = (oy * ABSOLUTE_RANGE) / height;
    MouseEvent {
        flags: MOUSEEVENTF_MOVE | MOUSEEVENTF_ABSOLUTE | MOUSEEVENTF_VIRTUALDESK,
        dx: abs_x,
        dy: abs_y,
        mouse_data: 0,
    }
}

/// When the centre of `rect` lies on the desktop, the absolute coordinates
/// stay inside the normalized range 0..65535.
pub proof fn lemma_center_on_screen(rect: Rect, screen: Rect)
    requires
        screen.left <= center_x(rect) < screen.right,
        screen.top <= center_y(rect) < screen.bottom,
    ensures
        0 <= absolute_x(rect, screen) < 65535,
        0 <= absolute_y(rect, screen) < 65535,
{
    let ax = center_x(rect) - screen.left;
    let wx = screen_extent_x(screen);
    let ay = center_y(rect) - screen.top;
    let wy = screen_extent_y(screen);
    assert(0 <= (ax * 65535) / wx < 65535) by (nonlinear_arith)
        requires
            0 <= ax < wx,
    {
        assert(ax * 65535 < wx * 65535);
    }
    assert(0 <= (ay * 65535) / wy < 65535) by (nonlinear_arith)
        requires
            0 <= ay < wy,
    {
        assert(ay * 65535 < wy * 65535);
    }
}

/// An absolute move is a plain absolute move over the whole virtual desktop
/// (flags 0xC001: move, absolute, virtual desk) with no mouse data. Where
/// the rectangle's centre lies on the desktop, its coordinate is the centre's
/// offset scaled from the desktop's pixels onto 0..65535 and rounded down:
/// `dx * width <= offset * 65535 < (dx + 1) * width`, and likewise for y. The
/// centre is the midpoint of the edges, rounded down.
pub proof fn lemma_absolute_move_scales_the_centre(rect: Rect, screen: Rect)
    requires
        center_fits(rect, screen),
        0 <= rect.left + rect.right,
        0 <= rect.top + rect.bottom,
        screen.left <= center_x(rect) < screen.right,
        screen.top <= center_y(rect) < screen.bottom,
    ensures
        ({
            let e = spec_move_to_rect_center(rect, screen);
            let w = screen.right - screen.left;
            let h = screen.bottom - screen.top;
            let ox = center_x(rect) - screen.left;
            let oy = center_y(rect) - screen.top;
            &&& e.flags == 0xC001u32
            &&& e.mouse_data == 0
            &&& 2 * center_x(rect) <= rect.left + rect.right < 2 * center_x(rect) + 2
            &&& 2 * center_y(rect) <= rect.top + rect.bottom < 2 * center_y(rect) + 2
            &&& e.dx * w <= ox * 65535 < (e.dx + 1) * w
            &&& e.dy * h <= oy * 65535 < (e.dy + 1) * h
        }),
{
    assert(MOUSEEVENTF_MOVE | MOUSEEVENTF_ABSOLUTE | MOUSEEVENTF_VIRTUALDESK == 0xC001u32) by (bit_vector);
    lemma_center_on_screen(rect, screen);
    let w = screen.right - screen.left;
    let h = screen.bottom - screen.top;
    let px = (center_x(rect) - screen.left) * 65535;
    let py = (center_y(rect) - screen.top) * 65535;
    assert(px / w * w <= px < (px / w + 1) * w) by (nonlinear_arith)
        requires
            w > 0,
            px >= 0,
    ;
    assert(py / h * h <= py < (py / h + 1) * h) by (nonlinear_arith)
        requires
            h > 0,
            py >= 0,
    ;
}

/// The event that presses `button`.
pub open spec fn spec_button_down(button: MouseButton) -> MouseEvent {
    MouseEvent {
        flags: button.spec_down_flags().0,
        dx: 0,
        dy: 0,
        mouse_data: button.spec_down_flags().1,
    }
}

/// The event that releases `button`.
pub open spec fn spec_button_up(button: MouseButton) -> MouseEvent {
    MouseEvent {
        flags: button.spec_up_flags().0,
        dx: 0,
        dy: 0,
        mouse_data: button.spec_up_flags().1,
    }
}

/// Builds the press of `button`.
pub fn button_down(button: MouseButton) -> (e: MouseEvent)
    ensures
        e == spec_button_down(button),
{
    let (flags, data) = button.down_flags();
    MouseEvent { flags, dx: 0, dy: 0, mouse_data: data }
}

/// Builds the release of `button`.
pub fn button_up(button: MouseButton) -> (e: MouseEvent)
    ensures
        e == spec_button_up(button),
{
    let (flags, data) = button.up_flags();
    MouseEvent { flags, dx: 0, dy: 0, mouse_data: data }
}

/// A release names the same button as the press: the same side-button number,
/// and for the three main buttons the flag right above the press flag.
pub proof fn lemma_release_matches_press(button: MouseButton)
    ensures
        spec_button_up(button).mouse_data == spec_button_down(button).mouse_data,
        spec_button_up(button).dx == 0 && spec_button_up(button).dy == 0,
        spec_button_down(button).flags != spec_button_up(button).flags,
        match button {
            MouseButton::Back | MouseButton::Forward => spec_button_up(button).flags == MOUSEEVENTF_XUP,
            _ => spec_button_up(button).flags == 2 * spec_button_down(button).flags,
        },
{
}

/// The release flags undo the press flags: same data, the release flag that
/// belongs to the press flag, and no two buttons share a press.
pub proof fn lemma_up_flags_match_down_flags(b: MouseButton, c: MouseButton)
    ensures
        b.spec_up_flags().1 == b.spec_down_flags().1,
        b.spec_up_flags().0 == if b.spec_down_flags().0 == MOUSEEVENTF_LEFTDOWN {
            MOUSEEVENTF_LEFTUP
        } else if b.spec_down_flags().0 == MOUSEEVENTF_RIGHTDOWN {
            MOUSEEVENTF_RIGHTUP
        } else if b.spec_down_flags().0 == MOUSEEVENTF_MIDDLEDOWN {
            MOUSEEVENTF_MIDDLEUP
        } else {
            MOUSEEVENTF_XUP
        },
        b.spec_down_flags().0 == MOUSEEVENTF_XDOWN ==> (b is Back || b is Forward),
        b.spec_down_flags() == c.spec_down_flags() ==> b == c,
        b.spec_up_flags() == c.spec_up_flags() ==> b == c,
{
}

/// The event of a wheel turn by `amount`.
pub open spec fn spec_wheel(amount: i32, horizontal: bool) -> MouseEvent {
    MouseEvent {
        flags: if horizontal { MOUSEEVENTF_HWHEEL } else { MOUSEEVENTF_WHEEL },
        dx: 0,
        dy: 0,
        mouse_data: amount as u32,
    }
}

/// Builds a wheel turn.
///
/// `horizontal` selects the horizontal wheel, otherwise the vertical one; the
/// sign of `amount` gives the direction.
pub fn wheel(amount: i32, horizontal: bool) -> (e: MouseEvent)
    ensures
        e == spec_wheel(amount, horizontal),
{
    let flag = if horizontal { MOUSEEVENTF_HWHEEL } else { MOUSEEVENTF_WHEEL };
    MouseEvent { flags: flag, dx: 0, dy: 0, mouse_data: amount as u32 }
}


/// Tests `center_fits`, computing in 64 bits where nothing overflows.
pub fn center_fits_check(rect: Rect, screen: Rect) -> (b: bool)
    ensures
        b == center_fits(rect, screen),
{
    let sx: i64 = rect.left as i64 + rect.right as i64;
    let sy: i64 = rect.top as i64 + rect.bottom as i64;
    let x: i64 = sx / 2;
    let y: i64 = sy / 2;
    let ox: i64 = x - screen.left as i64;
    let oy: i64 = y - screen.top as i64;
    let px: i64 = ox * 65535;
    let py: i64 = oy * 65535;
    in_i32_range(sx) && in_i32_range(sy) && in_i32_range(screen.right as i64 - screen.left as i64)
        && in_i32_range(screen.bottom as i64 - screen.top as i64) && in_i32_range(ox)
        && in_i32_range(oy) && in_i32_range(px) && in_i32_range(py)
}

} // verus!
