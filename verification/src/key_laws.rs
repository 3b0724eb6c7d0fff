//! Laws of the key map, stated directly over the keys and the events they
//! produce: which key does what, for every state that reaches the key map.

use vstd::prelude::*;
use crate::config::{
    BASE_MOVE, DPI_LEVELS, MAX_GRID_DEPTH, VK_1, VK_9, VK_A, VK_D, VK_F, VK_OEM_2, VK_Q, VK_S, VK_W, VK_X,
    VK_Z, lemma_dpi_levels_table,
};
use crate::grid::{Grid, Rect, cell_bottom, cell_left, cell_right, cell_top, spec_cell_rect};
use crate::keyboard::{
    HookOutcome, KeyEvent, VK_DOWN, VK_LEFT, VK_RETURN, VK_RIGHT, VK_UP, WM_KEYDOWN, WM_KEYUP,
    WM_SYSKEYDOWN, WM_SYSKEYUP, spec_keyboard_event,
};
use crate::mouse::{
    MOUSEEVENTF_HWHEEL, MOUSEEVENTF_LEFTDOWN, MOUSEEVENTF_LEFTUP, MOUSEEVENTF_MIDDLEDOWN,
    MOUSEEVENTF_MIDDLEUP, MOUSEEVENTF_MOVE, MOUSEEVENTF_RIGHTDOWN, MOUSEEVENTF_RIGHTUP,
    MOUSEEVENTF_WHEEL, MOUSEEVENTF_XDOWN, MOUSEEVENTF_XUP, MouseEvent, XBUTTON1, XBUTTON2,
    spec_move_to_rect_center,
};
use crate::state::{Action, AppState};

verus! {

/// The event reaches the key map: a non-negative hook code, no Windows key,
/// and `vk` is not M (so no Ctrl+M toggle).
pub open spec fn reaches_key_map(e: KeyEvent) -> bool {
    e.code >= 0 && !e.win_down && e.vk != 0x4D
}

/// The event is a key press, ordinary or with Alt held.
pub open spec fn is_key_down(e: KeyEvent) -> bool {
    e.message == 0x0100 || e.message == 0x0104
}

/// The event is a key release, ordinary or with Alt held.
pub open spec fn is_key_up(e: KeyEvent) -> bool {
    e.message == 0x0101 || e.message == 0x0105
}

/// A key pressed with Alt held (`WM_SYSKEYDOWN`) is handled exactly as the
/// same key pressed without it (`WM_KEYDOWN`), and likewise for releases, in
/// every state.
pub proof fn lemma_system_keys_act_like_keys(app: Option<AppState>, e: KeyEvent, screen: Rect)
    ensures
        spec_keyboard_event(app, KeyEvent { message: WM_SYSKEYDOWN, ..e }, screen)
            == spec_keyboard_event(app, KeyEvent { message: WM_KEYDOWN, ..e }, screen),
        spec_keyboard_event(app, KeyEvent { message: WM_SYSKEYUP, ..e }, screen)
            == spec_keyboard_event(app, KeyEvent { message: WM_KEYUP, ..e }, screen),
{
}

/// In grid mode below the maximum depth, digit key `k` makes cell `k` of the
/// selection (numbered 1 top-left to 9 bottom-right) the new selection, one
/// level deeper, and puts the pointer on its centre. Key 1 keeps the
/// selection's top-left corner and key 9 its bottom-right corner.
pub proof fn lemma_digit_key_selects_its_cell(a: AppState, e: KeyEvent, screen: Rect)
    requires
        a.mouse_mode,
        reaches_key_map(e),
        is_key_down(e),
        0x31 <= e.vk <= 0x39,
        a.grid matches Some(g) && g.depth < MAX_GRID_DEPTH,
    ensures
        ({
            let g = a.grid.unwrap();
            let cell = spec_cell_rect(g.rect, (e.vk - 0x30) as u8);
            let out = spec_keyboard_event(Some(a), e, screen);
            &&& out.swallow
            &&& out.state == Some(AppState { grid: Some(Grid { rect: cell, depth: (g.depth + 1) as u8 }), ..a })
            &&& out.actions == seq![Action::Mouse(spec_move_to_rect_center(cell, screen)), Action::ShowOverlay]
            &&& e.vk == 0x31 ==> cell.left == g.rect.left && cell.top == g.rect.top
            &&& e.vk == 0x39 ==> cell.right == g.rect.right && cell.bottom == g.rect.bottom
            &&& cell_left(g.rect, (e.vk - 0x30) as u8) == g.rect.left + (if (e.vk - 0x31) % 3 == 0 {
                0
            } else {
                cell_right(g.rect, (e.vk - 0x31) as u8) - g.rect.left
            })
            &&& cell_top(g.rect, (e.vk - 0x30) as u8) == if e.vk <= 0x33 {
                g.rect.top as int
            } else {
                cell_bottom(g.rect, (e.vk - 0x33) as u8)
            }
        }),
{
    let g = a.grid.unwrap();
    let w = g.rect.right - g.rect.left;
    let h = g.rect.bottom - g.rect.top;
    assert(w * 0 == 0 && w * 1 == w && w * 2 == w + w && w * 3 == w + w + w) by (nonlinear_arith);
    assert(h * 0 == 0 && h * 1 == h && h * 2 == h + h && h * 3 == h + h + h) by (nonlinear_arith);
}

/// Pressing Z turns the vertical wheel layer on and pressing X the
/// horizontal one, whatever the layer was before (a repeated press while the
/// key is held keeps it on); releasing the key turns it off. Nothing else
/// changes and no input is sent.
pub proof fn lemma_layer_keys_hold_the_layer(a: AppState, e: KeyEvent, screen: Rect)
    requires
        a.mouse_mode,
        reaches_key_map(e),
        e.vk == 0x5A || e.vk == 0x58,
    ensures
        is_key_down(e) && e.vk == 0x5A ==> spec_keyboard_event(Some(a), e, screen) == (HookOutcome {
            state: Some(AppState { vertical_wheel: true, ..a }),
            swallow: true,
            actions: seq![],
        }),
        is_key_down(e) && e.vk == 0x58 ==> spec_keyboard_event(Some(a), e, screen) == (HookOutcome {
            state: Some(AppState { horizontal_wheel: true, ..a }),
            swallow: true,
            actions: seq![],
        }),
        is_key_up(e) && e.vk == 0x5A ==> spec_keyboard_event(Some(a), e, screen) == (HookOutcome {
            state: Some(AppState { vertical_wheel: false, ..a }),
            swallow: true,
            actions: seq![],
        }),
        is_key_up(e) && e.vk == 0x58 ==> spec_keyboard_event(Some(a), e, screen) == (HookOutcome {
            state: Some(AppState { horizontal_wheel: false, ..a }),
            swallow: true,
            actions: seq![],
        }),
{
}

/// Pressing `/` moves to the next DPI level of `DPI_LEVELS`, wrapping from
/// the last to the first, and reports it; releasing it does nothing but is
/// swallowed.
pub proof fn lemma_dpi_key_steps_in_order(a: AppState, e: KeyEvent, screen: Rect)
    requires
        a.mouse_mode,
        a.dpi_index < 5,
        reaches_key_map(e),
        e.vk == 0xBF,
    ensures
        is_key_down(e) ==> spec_keyboard_event(Some(a), e, screen) == (HookOutcome {
            state: Some(AppState { dpi_index: ((a.dpi_index + 1) % 5) as usize, ..a }),
            swallow: true,
            actions: seq![Action::ReportDpi(DPI_LEVELS@[(a.dpi_index + 1) % 5])],
        }),
        is_key_down(e) && a.dpi_index == 2 ==> spec_keyboard_event(Some(a), e, screen).actions
            == seq![Action::ReportDpi(1600)],
        is_key_up(e) ==> spec_keyboard_event(Some(a), e, screen) == (HookOutcome {
            state: Some(a),
            swallow: true,
            actions: seq![],
        }),
{
    lemma_dpi_levels_table((a.dpi_index + 1) % 5);
    lemma_dpi_levels_table(3);
}

/// The pointer step of the current DPI level: 18 at 400 DPI.
pub open spec fn dpi_step(a: AppState) -> int {
    BASE_MOVE * DPI_LEVELS@[a.dpi_index as int] / 400
}

/// Outside the wheel layers the arrows move the pointer one step in their
/// direction (up is negative y), without changing the state.
pub proof fn lemma_arrows_move_one_step(a: AppState, e: KeyEvent, screen: Rect)
    requires
        a.mouse_mode,
        a.dpi_index < 5,
        !a.vertical_wheel,
        !a.horizontal_wheel,
        reaches_key_map(e),
        is_key_down(e),
        e.vk == 0x25 || e.vk == 0x26 || e.vk == 0x27 || e.vk == 0x28,
    ensures
        ({
            let s = dpi_step(a);
            let (dx, dy) = if e.vk == 0x25 {
                (-s, 0int)
            } else if e.vk == 0x26 {
                (0int, -s)
            } else if e.vk == 0x27 {
                (s, 0int)
            } else {
                (0int, s)
            };
            spec_keyboard_event(Some(a), e, screen) == (HookOutcome {
                state: Some(a),
                swallow: true,
                actions: seq![
                    Action::Mouse(MouseEvent { flags: MOUSEEVENTF_MOVE, dx: dx as i32, dy: dy as i32, mouse_data: 0 }),
                ],
            })
        }),
{
    lemma_dpi_levels_table(a.dpi_index as int);
    let s = dpi_step(a);
    assert(s == a.spec_movement_step());
    assert(9 <= s <= 144);
    assert((-1i32) * s == -s && 1i32 * s == s && 0i32 * s == 0);
}

/// In the vertical wheel layer up turns the wheel one notch (120) away from
/// the user and down one notch towards; in the horizontal layer left turns it
/// one notch left (-120) and right one notch right. The other arrows do
/// nothing, and the pointer never moves.
pub proof fn lemma_arrows_turn_the_wheel(a: AppState, e: KeyEvent, screen: Rect)
    requires
        a.mouse_mode,
        a.dpi_index < 5,
        a.vertical_wheel || a.horizontal_wheel,
        reaches_key_map(e),
        is_key_down(e),
        e.vk == 0x25 || e.vk == 0x26 || e.vk == 0x27 || e.vk == 0x28,
    ensures
        ({
            let out = spec_keyboard_event(Some(a), e, screen);
            let notch = |flags: u32, data: u32| seq![Action::Mouse(MouseEvent { flags, dx: 0, dy: 0, mouse_data: data })];
            &&& out.state == Some(a)
            &&& out.swallow
            &&& a.vertical_wheel ==> out.actions == if e.vk == 0x26 {
                notch(MOUSEEVENTF_WHEEL, 120)
            } else if e.vk == 0x28 {
                notch(MOUSEEVENTF_WHEEL, 0xFFFF_FF88)
            } else {
                seq![]
            }
            &&& !a.vertical_wheel ==> out.actions == if e.vk == 0x25 {
                notch(MOUSEEVENTF_HWHEEL, 0xFFFF_FF88)
            } else if e.vk == 0x27 {
                notch(MOUSEEVENTF_HWHEEL, 120)
            } else {
                seq![]
            }
        }),
{
    assert((-120i32) as u32 == 0xFFFF_FF88u32) by (bit_vector);
}

/// A button key sends the press of its button when pressed and the release
/// of the same button when released: A left, S right, D middle, Q back
/// (XBUTTON1), W forward (XBUTTON2). The state never changes.
pub proof fn lemma_button_key_table(a: AppState, e: KeyEvent, screen: Rect)
    requires
        a.mouse_mode,
        reaches_key_map(e),
        e.vk == 0x41 || e.vk == 0x53 || e.vk == 0x44 || e.vk == 0x51 || e.vk == 0x57,
        is_key_down(e) || is_key_up(e),
    ensures
        ({
            let down = is_key_down(e);
            let (flags, data) = if e.vk == 0x41 {
                (if down { MOUSEEVENTF_LEFTDOWN } else { MOUSEEVENTF_LEFTUP }, 0u32)
            } else if e.vk == 0x53 {
                (if down { MOUSEEVENTF_RIGHTDOWN } else { MOUSEEVENTF_RIGHTUP }, 0u32)
            } else if e.vk == 0x44 {
                (if down { MOUSEEVENTF_MIDDLEDOWN } else { MOUSEEVENTF_MIDDLEUP }, 0u32)
            } else if e.vk == 0x51 {
                (if down { MOUSEEVENTF_XDOWN } else { MOUSEEVENTF_XUP }, XBUTTON1)
            } else {
                (if down { MOUSEEVENTF_XDOWN } else { MOUSEEVENTF_XUP }, XBUTTON2)
            };
            spec_keyboard_event(Some(a), e, screen) == (HookOutcome {
                state: Some(a),
                swallow: true,
                actions: seq![Action::Mouse(MouseEvent { flags, dx: 0, dy: 0, mouse_data: data })],
            })
        }),
{
}

/// F starts grid mode over the whole virtual desktop at depth 0 and shows
/// the overlay, also when a grid is already active.
pub proof fn lemma_f_starts_grid(a: AppState, e: KeyEvent, screen: Rect)
    requires
        a.mouse_mode,
        reaches_key_map(e),
        is_key_down(e),
        e.vk == 0x46,
    ensures
        spec_keyboard_event(Some(a), e, screen) == (HookOutcome {
            state: Some(AppState { grid: Some(Grid { rect: screen, depth: 0 }), ..a }),
            swallow: true,
            actions: seq![Action::ShowOverlay],
        }),
{
}

/// Enter in grid mode puts the pointer on the centre of the selection, ends
/// grid mode and keeps everything else; without a grid Enter is passed on.
pub proof fn lemma_enter_key(a: AppState, e: KeyEvent, screen: Rect)
    requires
        a.mouse_mode,
        reaches_key_map(e),
        is_key_down(e),
        e.vk == 0x0D,
    ensures
        a.grid matches Some(g) ==> spec_keyboard_event(Some(a), e, screen) == (HookOutcome {
            state: Some(AppState { grid: None, ..a }),
            swallow: true,
            actions: seq![
                Action::Mouse(spec_move_to_rect_center(g.rect, screen)),
                Action::HideOverlay,
                Action::ReportGridOff,
            ],
        }),
        a.grid is None ==> spec_keyboard_event(Some(a), e, screen) == (HookOutcome {
            state: Some(a),
            swallow: false,
            actions: seq![],
        }),
{
}

} // verus!
