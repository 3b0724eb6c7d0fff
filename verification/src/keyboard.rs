//! The key handling of mouse mode, as a state machine: a key event and the
//! current state give the next state, whether the key is swallowed, and the
//! actions for the host to perform.

use vstd::prelude::*;
use crate::config::{
    dpi_level, MAX_GRID_DEPTH, VK_1, VK_9, VK_A, VK_D, VK_F, VK_M, VK_OEM_2, VK_Q, VK_S, VK_W, VK_X, VK_Z,
    WHEEL_DELTA,
};
use crate::grid::{fits_i32, Grid, Rect, cell_bottom, cell_left, cell_right, cell_top, contains, is_ordered, lemma_cell_inside, cell_rect, cell_rect_fits, cell_rect_fits_check, spec_cell_rect};
use crate::mouse::{
    MouseButton, button_down, button_up, center_fits, center_fits_check, move_relative, move_to_rect_center,
    spec_button_down, spec_button_up, spec_move_relative, spec_move_to_rect_center, spec_wheel,
    wheel,
};
use crate::state::{
    Action, AppState, lemma_dpi_cycle_period, next_dpi_index, mouse_mode_active, set_mouse_mode, spec_mouse_mode_active,
    spec_set_mouse_mode_actions, spec_set_mouse_mode_state,
};

verus! {

// Windows virtual-key codes of the keys that mouse mode uses besides letters and digits.
pub const VK_RETURN: u32 = 0x0D;
pub const VK_CONTROL: u32 = 0x11;
pub const VK_LEFT: u32 = 0x25;
pub const VK_UP: u32 = 0x26;
pub const VK_RIGHT: u32 = 0x27;
pub const VK_DOWN: u32 = 0x28;
pub const VK_LWIN: u32 = 0x5B;
pub const VK_RWIN: u32 = 0x5C;

// Window messages that a low-level keyboard hook receives.
pub const WM_KEYDOWN: u32 = 0x0100;
pub const WM_KEYUP: u32 = 0x0101;
pub const WM_SYSKEYDOWN: u32 = 0x0104;
pub const WM_SYSKEYUP: u32 = 0x0105;

/// One call of the low-level keyboard hook, with the modifier state read at
/// that moment.
#[derive(Clone, Copy, Debug, PartialEq, Eq, Structural)]
pub struct KeyEvent {
    /// The hook code; negative codes must be passed on untouched.
    pub code: i32,
    /// The keyboard message (`WM_KEYDOWN`, `WM_KEYUP`, ...).
    pub message: u32,
    /// The virtual-key code of the key.
    pub vk: u32,
    /// Whether Ctrl is held.
    pub ctrl_down: bool,
    /// Whether either Windows key is held.
    pub win_down: bool,
}

/// The result of a transition: the next state, whether the key is
/// swallowed, and the actions to perform in order.
pub struct Transition {
    pub state: AppState,
    pub handled: bool,
    pub actions: Seq<Action>,
}

pub open spec fn is_digit_key(vk: u32) -> bool {
    VK_1 <= vk <= VK_9
}

/// The cell number of a digit key.
pub open spec fn digit_number(vk: u32) -> u8 {
    (vk - VK_1 + 1) as u8
}

/// The mouse button that a letter key drives, if any.
pub open spec fn button_of_key(vk: u32) -> Option<MouseButton> {
    if vk == VK_A {
        Some(MouseButton::Left)
    } else if vk == VK_S {
        Some(MouseButton::Right)
    } else if vk == VK_D {
        Some(MouseButton::Middle)
    } else if vk == VK_Q {
        Some(MouseButton::Back)
    } else if vk == VK_W {
        Some(MouseButton::Forward)
    } else {
        None
    }
}

/// The direction of an arrow key, if `vk` is one.
pub open spec fn arrow_of_key(vk: u32) -> Option<(i32, i32)> {
    if vk == VK_UP {
        Some((0i32, -1i32))
    } else if vk == VK_DOWN {
        Some((0i32, 1i32))
    } else if vk == VK_LEFT {
        Some((-1i32, 0i32))
    } else if vk == VK_RIGHT {
        Some((1i32, 0i32))
    } else {
        None
    }
}

/// What an arrow key asks for: a wheel notch in a wheel layer, otherwise a
/// pointer movement of one step.
pub open spec fn spec_arrow_actions(dx: i32, dy: i32, app: AppState) -> Seq<Action> {
    if app.vertical_wheel {
        if dy != 0 {
            seq![Action::Mouse(spec_wheel(if dy < 0 { WHEEL_DELTA } else { -120i32 }, false))]
        } else {
            seq![]
        }
    } else if app.horizontal_wheel {
        if dx != 0 {
            seq![Action::Mouse(spec_wheel(if dx < 0 { -120i32 } else { WHEEL_DELTA }, true))]
        } else {
            seq![]
        }
    } else {
        seq![
            Action::Mouse(
                spec_move_relative(
                    (dx * app.spec_movement_step()) as i32,
                    (dy * app.spec_movement_step()) as i32,
                ),
            ),
        ]
    }
}

/// Choosing cell `number` of the grid: below the maximum depth the pointer
/// moves to the cell's centre and the cell becomes the selection; at the
/// maximum depth nothing happens.
pub open spec fn spec_choose_grid_cell(app: AppState, grid: Grid, number: u8, screen: Rect) -> Transition {
    if grid.depth >= MAX_GRID_DEPTH {
        Transition { state: app, handled: true, actions: seq![] }
    } else {
        let next = spec_cell_rect(grid.rect, number);
        Transition {
            state: AppState { grid: Some(Grid { rect: next, depth: (grid.depth + 1) as u8 }), ..app },
            handled: true,
            actions: seq![Action::Mouse(spec_move_to_rect_center(next, screen)), Action::ShowOverlay],
        }
    }
}

/// The keys that do not depend on grid mode.
pub open spec fn spec_pressed_common(vk: u32, dpi_key: bool, app: AppState, screen: Rect) -> Transition {
    if dpi_key {
        let next = AppState { dpi_index: next_dpi_index(app.dpi_index as int) as usize, ..app };
        Transition {
            state: next,
            handled: true,
            actions: seq![Action::ReportDpi(dpi_level(next.dpi_index as int))],
        }
    } else if vk == VK_F {
        Transition {
            state: AppState { grid: Some(Grid { rect: screen, depth: 0 }), ..app },
            handled: true,
            actions: seq![Action::ShowOverlay],
        }
    } else if vk == VK_Z {
        Transition { state: AppState { vertical_wheel: true, ..app }, handled: true, actions: seq![] }
    } else if vk == VK_X {
        Transition { state: AppState { horizontal_wheel: true, ..app }, handled: true, actions: seq![] }
    } else if arrow_of_key(vk) is Some {
        let (dx, dy) = arrow_of_key(vk).unwrap();
        Transition { state: app, handled: true, actions: spec_arrow_actions(dx, dy, app) }
    } else if button_of_key(vk) is Some {
        Transition {
            state: app,
            handled: true,
            actions: seq![Action::Mouse(spec_button_down(button_of_key(vk).unwrap()))],
        }
    } else {
        Transition { state: app, handled: false, actions: seq![] }
    }
}

/// A key press in mouse mode. In grid mode digits choose a cell and Enter
/// puts the pointer on the selection and ends grid mode.
pub open spec fn spec_handle_pressed(vk: u32, dpi_key: bool, app: AppState, screen: Rect) -> Transition {
    match app.grid {
        Some(grid) => {
            if is_digit_key(vk) {
                spec_choose_grid_cell(app, grid, digit_number(vk), screen)
            } else if vk == VK_RETURN {
                Transition {
                    state: AppState { grid: None, ..app },
                    handled: true,
                    actions: seq![
                        Action::Mouse(spec_move_to_rect_center(grid.rect, screen)),
                        Action::HideOverlay,
                        Action::ReportGridOff,
                    ],
                }
            } else {
                spec_pressed_common(vk, dpi_key, app, screen)
            }
        },
        None => spec_pressed_common(vk, dpi_key, app, screen),
    }
}

/// A key release in mouse mode: wheel layers end and buttons are released.
pub open spec fn spec_handle_released(vk: u32, dpi_key: bool, app: AppState) -> Transition {
    if dpi_key {
        Transition { state: app, handled: true, actions: seq![] }
    } else if vk == VK_Z {
        Transition { state: AppState { vertical_wheel: false, ..app }, handled: true, actions: seq![] }
    } else if vk == VK_X {
        Transition { state: AppState { horizontal_wheel: false, ..app }, handled: true, actions: seq![] }
    } else if button_of_key(vk) is Some {
        Transition {
            state: app,
            handled: true,
            actions: seq![Action::Mouse(spec_button_up(button_of_key(vk).unwrap()))],
        }
    } else {
        Transition { state: app, handled: false, actions: seq![] }
    }
}

/// The arithmetic of a key press fits in `i32`: the cell that a digit
/// chooses and the pointer position of the digit or of Enter.
pub open spec fn pressed_fits(vk: u32, app: AppState, screen: Rect) -> bool {
    match app.grid {
        Some(grid) => {
            if is_digit_key(vk) {
                grid.depth >= MAX_GRID_DEPTH || {
                    &&& cell_rect_fits(grid.rect, digit_number(vk))
                    &&& center_fits(spec_cell_rect(grid.rect, digit_number(vk)), screen)
                }
            } else if vk == VK_RETURN {
                center_fits(grid.rect, screen)
            } else {
                true
            }
        },
        None => true,
    }
}

/// Whether the pointer movement of an arrow with direction `(dx, dy)` fits
/// in `i32` (only movement multiplies; a wheel notch does not).
pub open spec fn arrow_fits(dx: i32, dy: i32, app: AppState) -> bool {
    !app.vertical_wheel && !app.horizontal_wheel ==> {
        &&& fits_i32(dx * app.spec_movement_step())
        &&& fits_i32(dy * app.spec_movement_step())
    }
}

fn arrow_action(dx: i32, dy: i32, app: &AppState, actions: &mut Vec<Action>)
    requires
        app.wf(),
        arrow_fits(dx, dy, *app),
    ensures
        final(actions)@ == old(actions)@ + spec_arrow_actions(dx, dy, *app),
{
    if app.vertical_wheel {
        if dy != 0 {
            actions.push(Action::Mouse(wheel(if dy < 0 { WHEEL_DELTA } else { -WHEEL_DELTA }, false)));
        }
        return;
    }
    if app.horizontal_wheel {
        if dx != 0 {
            actions.push(Action::Mouse(wheel(if dx < 0 { -WHEEL_DELTA } else { WHEEL_DELTA }, true)));
        }
        return;
    }
    let step = app.movement_step();
    actions.push(Action::Mouse(move_relative(dx * step, dy * step)));
}

fn start_grid(app: &mut AppState, screen: Rect, actions: &mut Vec<Action>)
    ensures
        *final(app) == (AppState { grid: Some(Grid { rect: screen, depth: 0 }), ..*old(app) }),
        final(actions)@ == old(actions)@.push(Action::ShowOverlay),
{
    app.grid = Some(Grid { rect: screen, depth: 0 });
    actions.push(Action::ShowOverlay);
}

/// Chooses cell `number` of `grid`: below the maximum depth the pointer moves
/// to the cell's centre and the cell becomes the selection, one level deeper;
/// at the maximum depth nothing happens.
pub fn choose_grid_cell(app: &mut AppState, grid: Grid, number: u8, screen: Rect, actions: &mut Vec<Action>)
    requires
        grid.depth < MAX_GRID_DEPTH ==> {
            &&& cell_rect_fits(grid.rect, number)
            &&& center_fits(spec_cell_rect(grid.rect, number), screen)
        },
    ensures
        *final(app) == spec_choose_grid_cell(*old(app), grid, number, screen).state,
        final(actions)@ == old(actions)@ + spec_choose_grid_cell(*old(app), grid, number, screen).actions,
{
    if grid.depth >= MAX_GRID_DEPTH {
        return;
    }
    let next = cell_rect(grid.rect, number);
    actions.push(Action::Mouse(move_to_rect_center(next, screen)));
    app.grid = Some(Grid { rect: next, depth: grid.depth + 1 });
    actions.push(Action::ShowOverlay);
}

fn handle_pressed(vk: u32, dpi_key: bool, app: &mut AppState, screen: Rect, actions: &mut Vec<Action>) -> (handled: bool)
    requires
        old(app).wf(),
        pressed_fits(vk, *old(app), screen),
    ensures
        *final(app) == spec_handle_pressed(vk, dpi_key, *old(app), screen).state,
        handled == spec_handle_pressed(vk, dpi_key, *old(app), screen).handled,
        final(actions)@ == old(actions)@ + spec_handle_pressed(vk, dpi_key, *old(app), screen).actions,
{
    if let Some(grid) = app.grid {
        if VK_1 <= vk && vk <= VK_9 {
            choose_grid_cell(app, grid, (vk - VK_1 + 1) as u8, screen, actions);
            return true;
        }
        if vk == VK_RETURN {
            actions.push(Action::Mouse(move_to_rect_center(grid.rect, screen)));
            app.grid = None;
            actions.push(Action::HideOverlay);
            actions.push(Action::ReportGridOff);
            return true;
        }
    }

    if dpi_key {
        let dpi = app.cycle_dpi();
        actions.push(Action::ReportDpi(dpi));
        return true;
    }

    if vk == VK_F {
        start_grid(app, screen, actions);
        true
    } else if vk == VK_Z {
        app.vertical_wheel = true;
        true
    } else if vk == VK_X {
        app.horizontal_wheel = true;
        true
    } else if vk == VK_UP {
        arrow_action(0, -1, app, actions);
        true
    } else if vk == VK_DOWN {
        arrow_action(0, 1, app, actions);
        true
    } else if vk == VK_LEFT {
        arrow_action(-1, 0, app, actions);
        true
    } else if vk == VK_RIGHT {
        arrow_action(1, 0, app, actions);
        true
    } else if vk == VK_A {
        actions.push(Action::Mouse(button_down(MouseButton::Left)));
        true
    } else if vk == VK_S {
        actions.push(Action::Mouse(button_down(MouseButton::Right)));
        true
    } else if vk == VK_D {
        actions.push(Action::Mouse(button_down(MouseButton::Middle)));
        true
    } else if vk == VK_Q {
        actions.push(Action::Mouse(button_down(MouseButton::Back)));
        true
    } else if vk == VK_W {
        actions.push(Action::Mouse(button_down(MouseButton::Forward)));
        true
    } else {
        false
    }
}

fn handle_released(vk: u32, dpi_key: bool, app: &mut AppState, actions: &mut Vec<Action>) -> (handled: bool)
    ensures
        *final(app) == spec_handle_released(vk, dpi_key, *old(app)).state,
        handled == spec_handle_released(vk, dpi_key, *old(app)).handled,
        final(actions)@ == old(actions)@ + spec_handle_released(vk, dpi_key, *old(app)).actions,
{
    if dpi_key {
        return true;
    }

    if vk == VK_Z {
        app.vertical_wheel = false;
        true
    } else if vk == VK_X {
        app.horizontal_wheel = false;
        true
    } else if vk == VK_A {
        actions.push(Action::Mouse(button_up(MouseButton::Left)));
        true
    } else if vk == VK_S {
        actions.push(Action::Mouse(button_up(MouseButton::Right)));
        true
    } else if vk == VK_D {
        actions.push(Action::Mouse(button_up(MouseButton::Middle)));
        true
    } else if vk == VK_Q {
        actions.push(Action::Mouse(button_up(MouseButton::Back)));
        true
    } else if vk == VK_W {
        actions.push(Action::Mouse(button_up(MouseButton::Forward)));
        true
    } else {
        false
    }
}


/// The result of one hook call: the next state, whether the key is
/// swallowed (not passed on to other applications), and the actions.
pub struct HookOutcome {
    pub state: Option<AppState>,
    pub swallow: bool,
    pub actions: Seq<Action>,
}

pub open spec fn is_press(e: KeyEvent) -> bool {
    e.message == WM_KEYDOWN || e.message == WM_SYSKEYDOWN
}

pub open spec fn is_release(e: KeyEvent) -> bool {
    e.message == WM_KEYUP || e.message == WM_SYSKEYUP
}

/// Ctrl+M, which switches mouse mode whatever the state.
pub open spec fn is_toggle(e: KeyEvent) -> bool {
    is_press(e) && e.vk == VK_M && e.ctrl_down
}

/// The event is passed on untouched and nothing happens.
pub open spec fn pass_on(app: Option<AppState>) -> HookOutcome {
    HookOutcome { state: app, swallow: false, actions: seq![] }
}

/// One call of the keyboard hook.
///
/// Negative hook codes are passed on. Ctrl+M switches mouse mode. Outside
/// mouse mode, and while a Windows key is held, keys are passed on. In mouse
/// mode presses and releases go to the key map; keys it does not use are
/// passed on.
pub open spec fn spec_keyboard_event(app: Option<AppState>, e: KeyEvent, screen: Rect) -> HookOutcome {
    if e.code < 0 {
        pass_on(app)
    } else if is_toggle(e) {
        let enabled = !spec_mouse_mode_active(app);
        HookOutcome {
            state: spec_set_mouse_mode_state(app, enabled),
            swallow: true,
            actions: spec_set_mouse_mode_actions(enabled),
        }
    } else {
        match app {
            None => pass_on(app),
            Some(a) => {
                if !a.mouse_mode || e.win_down {
                    pass_on(app)
                } else if is_press(e) {
                    let t = spec_handle_pressed(e.vk, e.vk == VK_OEM_2, a, screen);
                    HookOutcome { state: Some(t.state), swallow: t.handled, actions: t.actions }
                } else if is_release(e) {
                    let t = spec_handle_released(e.vk, e.vk == VK_OEM_2, a);
                    HookOutcome { state: Some(t.state), swallow: t.handled, actions: t.actions }
                } else {
                    pass_on(app)
                }
            },
        }
    }
}

/// The arithmetic of the hook call fits in `i32`.
pub open spec fn event_fits(app: Option<AppState>, e: KeyEvent, screen: Rect) -> bool {
    match app {
        Some(a) => (e.code >= 0 && !is_toggle(e) && a.mouse_mode && !e.win_down && is_press(e))
            ==> pressed_fits(e.vk, a, screen),
        None => true,
    }
}

/// Handles one call of the keyboard hook: updates the state, appends the
/// actions for the host, and returns whether the key is swallowed.
pub fn keyboard_event(app: &mut Option<AppState>, event: KeyEvent, screen: Rect, actions: &mut Vec<Action>) -> (swallow: bool)
    requires
        *old(app) matches Some(a) ==> a.wf(),
        event_fits(*old(app), event, screen),
    ensures
        *final(app) == spec_keyboard_event(*old(app), event, screen).state,
        swallow == spec_keyboard_event(*old(app), event, screen).swallow,
        final(actions)@ == old(actions)@ + spec_keyboard_event(*old(app), event, screen).actions,
        *final(app) matches Some(a) ==> a.wf(),
        (*old(app) matches Some(a) ==> a.depth_bounded()) ==> (*final(app) matches Some(a) ==> a.depth_bounded()),
{
    if event.code < 0 {
        return false;
    }
    let pressed = event.message == WM_KEYDOWN || event.message == WM_SYSKEYDOWN;
    let released = event.message == WM_KEYUP || event.message == WM_SYSKEYUP;

    if pressed && event.vk == VK_M && event.ctrl_down {
        let active = mouse_mode_active(app);
        set_mouse_mode(app, !active, actions);
        return true;
    }

    match app {
        None => false,
        Some(a) => {
            if !a.mouse_mode || event.win_down {
                return false;
            }
            let dpi_key = event.vk == VK_OEM_2;
            if pressed {
                handle_pressed(event.vk, dpi_key, a, screen, actions)
            } else if released {
                handle_released(event.vk, dpi_key, a, actions)
            } else {
                false
            }
        },
    }
}


fn pressed_fits_check(vk: u32, app: &AppState, screen: Rect) -> (b: bool)
    ensures
        b == pressed_fits(vk, *app, screen),
{
    match app.grid {
        Some(grid) => {
            if VK_1 <= vk && vk <= VK_9 {
                if grid.depth >= MAX_GRID_DEPTH {
                    return true;
                }
                let number = (vk - VK_1 + 1) as u8;
                if !cell_rect_fits_check(grid.rect, number) {
                    return false;
                }
                let next = cell_rect(grid.rect, number);
                center_fits_check(next, screen)
            } else if vk == VK_RETURN {
                center_fits_check(grid.rect, screen)
            } else {
                true
            }
        },
        None => true,
    }
}

/// Tests `event_fits`: whether `keyboard_event` can handle the event with
/// every value inside `i32`.
pub fn keyboard_event_fits(app: &Option<AppState>, event: KeyEvent, screen: Rect) -> (b: bool)
    ensures
        b == event_fits(*app, event, screen),
{
    match app {
        Some(a) => {
            let pressed = event.message == WM_KEYDOWN || event.message == WM_SYSKEYDOWN;
            let toggle = pressed && event.vk == VK_M && event.ctrl_down;
            if event.code >= 0 && !toggle && a.mouse_mode && !event.win_down && pressed {
                pressed_fits_check(event.vk, a, screen)
            } else {
                true
            }
        },
        None => true,
    }
}


/// A key event with the given message and key, no modifiers and a
/// non-negative hook code.
pub open spec fn plain_key(message: u32, vk: u32) -> KeyEvent {
    KeyEvent { code: 0, message, vk, ctrl_down: false, win_down: false }
}

/// Outside mouse mode every key but Ctrl+M is passed on and changes nothing.
pub proof fn lemma_keys_pass_outside_mouse_mode(app: Option<AppState>, e: KeyEvent, screen: Rect)
    requires
        !spec_mouse_mode_active(app),
        !is_toggle(e),
    ensures
        spec_keyboard_event(app, e, screen) == pass_on(app),
{
}

/// While a Windows key is held every key but Ctrl+M is passed on and
/// changes nothing, so Windows shortcuts keep working in mouse mode.
pub proof fn lemma_windows_key_passes(app: Option<AppState>, e: KeyEvent, screen: Rect)
    requires
        e.win_down,
        !is_toggle(e),
    ensures
        spec_keyboard_event(app, e, screen) == pass_on(app),
{
}

/// Hook calls with a negative code are always passed on and change nothing.
pub proof fn lemma_negative_code_passes(app: Option<AppState>, e: KeyEvent, screen: Rect)
    requires
        e.code < 0,
    ensures
        spec_keyboard_event(app, e, screen) == pass_on(app),
{
}

/// Ctrl+M is swallowed, flips mouse mode and ends grid mode; pressed twice
/// it restores mouse mode and leaves everything else but the grid as it was.
pub proof fn lemma_toggle_twice(a: AppState, e1: KeyEvent, e2: KeyEvent, screen: Rect)
    requires
        e1.code >= 0 && is_toggle(e1),
        e2.code >= 0 && is_toggle(e2),
    ensures
        spec_keyboard_event(Some(a), e1, screen).swallow,
        spec_keyboard_event(Some(a), e1, screen).state == Some(
            AppState { mouse_mode: !a.mouse_mode, grid: None, ..a },
        ),
        spec_keyboard_event(spec_keyboard_event(Some(a), e1, screen).state, e2, screen).swallow,
        spec_keyboard_event(spec_keyboard_event(Some(a), e1, screen).state, e2, screen).state
            == Some(AppState { grid: None, ..a }),
{
}

/// Holding Z (or X) and letting it go leaves the state as it was: the wheel
/// layer lasts exactly as long as the key is held.
pub proof fn lemma_wheel_layer_press_release(a: AppState, vk: u32, screen: Rect)
    requires
        a.mouse_mode,
        vk == VK_Z && !a.vertical_wheel || vk == VK_X && !a.horizontal_wheel,
    ensures
        spec_keyboard_event(Some(a), plain_key(WM_KEYDOWN, vk), screen).swallow,
        spec_keyboard_event(
            spec_keyboard_event(Some(a), plain_key(WM_KEYDOWN, vk), screen).state,
            plain_key(WM_KEYUP, vk),
            screen,
        ).swallow,
        spec_keyboard_event(
            spec_keyboard_event(Some(a), plain_key(WM_KEYDOWN, vk), screen).state,
            plain_key(WM_KEYUP, vk),
            screen,
        ).state == Some(a),
{
}

/// A button key sends exactly the press of its button when pressed and
/// exactly the release of the same button when released, changing no state.
pub proof fn lemma_button_keys(a: AppState, vk: u32, screen: Rect)
    requires
        a.mouse_mode,
        button_of_key(vk) is Some,
    ensures
        spec_keyboard_event(Some(a), plain_key(WM_KEYDOWN, vk), screen) == (HookOutcome {
            state: Some(a),
            swallow: true,
            actions: seq![Action::Mouse(spec_button_down(button_of_key(vk).unwrap()))],
        }),
        spec_keyboard_event(Some(a), plain_key(WM_KEYUP, vk), screen) == (HookOutcome {
            state: Some(a),
            swallow: true,
            actions: seq![Action::Mouse(spec_button_up(button_of_key(vk).unwrap()))],
        }),
{
}

/// Choosing a cell narrows the selection: the new selection is a cell of the
/// old one, lies inside it and is one level deeper; at the maximum depth a
/// digit is swallowed and changes nothing.
pub proof fn lemma_digit_narrows_selection(a: AppState, vk: u32, screen: Rect)
    requires
        a.mouse_mode,
        a.grid matches Some(g) && is_ordered(g.rect),
        is_digit_key(vk),
    ensures
        ({
            let g = a.grid.unwrap();
            let out = spec_keyboard_event(Some(a), plain_key(WM_KEYDOWN, vk), screen);
            &&& out.swallow
            &&& g.depth >= MAX_GRID_DEPTH ==> out.state == Some(a) && out.actions.len() == 0
            &&& g.depth < MAX_GRID_DEPTH ==> {
                &&& out.state.unwrap().grid.unwrap().depth == g.depth + 1
                &&& g.rect.left <= cell_left(g.rect, digit_number(vk))
                &&& cell_left(g.rect, digit_number(vk)) <= cell_right(g.rect, digit_number(vk))
                &&& cell_right(g.rect, digit_number(vk)) <= g.rect.right
                &&& g.rect.top <= cell_top(g.rect, digit_number(vk))
                &&& cell_top(g.rect, digit_number(vk)) <= cell_bottom(g.rect, digit_number(vk))
                &&& cell_bottom(g.rect, digit_number(vk)) <= g.rect.bottom
                &&& out.state.unwrap().grid.unwrap().rect == spec_cell_rect(g.rect, digit_number(vk))
            }
        }),
{
    lemma_cell_inside(a.grid.unwrap().rect, digit_number(vk));
}

/// Enter in grid mode puts the pointer on the centre of the selection and
/// ends grid mode.
pub proof fn lemma_enter_confirms_selection(a: AppState, screen: Rect)
    requires
        a.mouse_mode,
        a.grid is Some,
    ensures
        spec_keyboard_event(Some(a), plain_key(WM_KEYDOWN, VK_RETURN), screen) == (HookOutcome {
            state: Some(AppState { grid: None, ..a }),
            swallow: true,
            actions: seq![
                Action::Mouse(spec_move_to_rect_center(a.grid.unwrap().rect, screen)),
                Action::HideOverlay,
                Action::ReportGridOff,
            ],
        }),
{
}

/// Five presses of the DPI key come back to the starting state.
pub proof fn lemma_dpi_key_cycles(a: AppState, screen: Rect)
    requires
        a.mouse_mode,
        a.wf(),
    ensures
        ({
            let e = plain_key(WM_KEYDOWN, VK_OEM_2);
            let s1 = spec_keyboard_event(Some(a), e, screen).state;
            let s2 = spec_keyboard_event(s1, e, screen).state;
            let s3 = spec_keyboard_event(s2, e, screen).state;
            let s4 = spec_keyboard_event(s3, e, screen).state;
            &&& spec_keyboard_event(s4, e, screen).state == Some(a)
            &&& s1 != Some(a)
        }),
{
    lemma_dpi_cycle_period(a.dpi_index as int);
}


/// Whether a key is held, from the state that `GetKeyState` reports: the
/// high bit, that is a negative value, means held.
pub fn key_is_down(key_state: i16) -> (down: bool)
    ensures
        down == (key_state < 0),
{
    key_state < 0
}


/// Choosing a cell never takes the grid past the maximum depth: at the
/// maximum depth the state and the actions are left alone; below it the
/// cell becomes the selection exactly one level deeper, every other field is
/// kept, and the pointer moves to the cell's centre before the overlay is
/// shown.
pub proof fn lemma_choose_grid_cell(app: AppState, grid: Grid, number: u8, screen: Rect)
    requires
        1 <= number <= 9,
    ensures
        grid.depth >= MAX_GRID_DEPTH ==> spec_choose_grid_cell(app, grid, number, screen).state == app
            && spec_choose_grid_cell(app, grid, number, screen).actions.len() == 0,
        grid.depth < MAX_GRID_DEPTH ==> {
            let t = spec_choose_grid_cell(app, grid, number, screen);
            &&& t.state == AppState {
                grid: Some(Grid { rect: spec_cell_rect(grid.rect, number), depth: (grid.depth + 1) as u8 }),
                ..app
            }
            &&& t.state.grid.unwrap().depth <= MAX_GRID_DEPTH
            &&& t.actions == seq![
                Action::Mouse(spec_move_to_rect_center(spec_cell_rect(grid.rect, number), screen)),
                Action::ShowOverlay,
            ]
        },
        spec_choose_grid_cell(app, grid, number, screen).handled,
{
}

} // verus!
