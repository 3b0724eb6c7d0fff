use kmouse::config::{MAX_GRID_DEPTH, VK_1, VK_9, VK_A, VK_F, VK_M, VK_OEM_2, VK_Q, VK_X, VK_Z};
use kmouse::grid::{cell_rect, Grid, Rect};
use kmouse::keyboard::{
    choose_grid_cell,
    key_is_down, keyboard_event, keyboard_event_fits, KeyEvent, VK_CONTROL, VK_DOWN, VK_LEFT,
    VK_LWIN, VK_RETURN, VK_RIGHT, VK_RWIN, VK_UP, WM_KEYDOWN, WM_KEYUP, WM_SYSKEYDOWN,
    WM_SYSKEYUP,
};
use kmouse::mouse::{button_down, button_up, move_relative, move_to_rect_center, wheel, MouseButton};
use kmouse::state::{Action, AppState};
use windows_sys::Win32::UI::Input::KeyboardAndMouse as km;
use windows_sys::Win32::UI::WindowsAndMessaging as wm;

const SCREEN: Rect = Rect { left: -1920, top: 0, right: 1920, bottom: 1080 };

fn press(vk: u32) -> KeyEvent {
    KeyEvent { code: 0, message: WM_KEYDOWN, vk, ctrl_down: false, win_down: false }
}

fn release(vk: u32) -> KeyEvent {
    KeyEvent { code: 0, message: WM_KEYUP, vk, ctrl_down: false, win_down: false }
}

fn ctrl_m() -> KeyEvent {
    KeyEvent { code: 0, message: WM_KEYDOWN, vk: VK_M, ctrl_down: true, win_down: false }
}

fn mouse_mode_on() -> Option<AppState> {
    let mut s = AppState::new();
    s.mouse_mode = true;
    Some(s)
}

fn run(app: &mut Option<AppState>, e: KeyEvent) -> (bool, Vec<Action>) {
    assert!(keyboard_event_fits(app, e, SCREEN));
    let mut actions = Vec::new();
    let swallow = keyboard_event(app, e, SCREEN, &mut actions);
    (swallow, actions)
}

#[test]
fn key_constants_match_windows() {
    assert_eq!(VK_RETURN, km::VK_RETURN as u32);
    assert_eq!(VK_CONTROL, km::VK_CONTROL as u32);
    assert_eq!(VK_LEFT, km::VK_LEFT as u32);
    assert_eq!(VK_UP, km::VK_UP as u32);
    assert_eq!(VK_RIGHT, km::VK_RIGHT as u32);
    assert_eq!(VK_DOWN, km::VK_DOWN as u32);
    assert_eq!(VK_LWIN, km::VK_LWIN as u32);
    assert_eq!(VK_RWIN, km::VK_RWIN as u32);
    assert_eq!(VK_OEM_2, km::VK_OEM_2 as u32);
    assert_eq!(VK_A, km::VK_A as u32);
    assert_eq!(VK_Z, km::VK_Z as u32);
    assert_eq!(VK_1, km::VK_1 as u32);
    assert_eq!(VK_9, km::VK_9 as u32);
    assert_eq!(WM_KEYDOWN, wm::WM_KEYDOWN);
    assert_eq!(WM_KEYUP, wm::WM_KEYUP);
    assert_eq!(WM_SYSKEYDOWN, wm::WM_SYSKEYDOWN);
    assert_eq!(WM_SYSKEYUP, wm::WM_SYSKEYUP);
}

#[test]
fn ctrl_m_toggles_mouse_mode() {
    let mut app = Some(AppState::new());
    let (swallow, actions) = run(&mut app, ctrl_m());
    assert!(swallow);
    assert!(app.unwrap().mouse_mode);
    assert_eq!(
        actions,
        vec![Action::HideOverlay, Action::TrayMouseMode(true), Action::ReportMouseMode(true)]
    );
    let (swallow, actions) = run(&mut app, ctrl_m());
    assert!(swallow);
    assert!(!app.unwrap().mouse_mode);
    assert_eq!(actions[1], Action::TrayMouseMode(false));
}

#[test]
fn ctrl_m_without_state_still_updates_the_tray() {
    let mut app: Option<AppState> = None;
    let (swallow, actions) = run(&mut app, ctrl_m());
    assert!(swallow);
    assert!(app.is_none());
    assert_eq!(actions[1], Action::TrayMouseMode(true));
}

#[test]
fn keys_pass_outside_mouse_mode() {
    let mut app = Some(AppState::new());
    let before = app;
    for vk in [VK_UP, VK_A, VK_F, VK_OEM_2, VK_M] {
        let (swallow, actions) = run(&mut app, press(vk));
        assert!(!swallow);
        assert!(actions.is_empty());
        assert_eq!(app, before);
    }
}

#[test]
fn no_state_passes_keys() {
    let mut app: Option<AppState> = None;
    let (swallow, actions) = run(&mut app, press(VK_UP));
    assert!(!swallow && actions.is_empty());
}

#[test]
fn negative_code_passes() {
    let mut app = mouse_mode_on();
    let mut e = press(VK_UP);
    e.code = -1;
    let (swallow, actions) = run(&mut app, e);
    assert!(!swallow && actions.is_empty());
    let mut e = ctrl_m();
    e.code = -1;
    let (swallow, _) = run(&mut app, e);
    assert!(!swallow);
    assert!(app.unwrap().mouse_mode);
}

#[test]
fn windows_key_passes() {
    let mut app = mouse_mode_on();
    let mut e = press(VK_UP);
    e.win_down = true;
    let (swallow, actions) = run(&mut app, e);
    assert!(!swallow && actions.is_empty());
}

#[test]
fn arrows_move_by_the_dpi_step() {
    let mut app = mouse_mode_on();
    assert_eq!(run(&mut app, press(VK_UP)), (true, vec![Action::Mouse(move_relative(0, -18))]));
    assert_eq!(run(&mut app, press(VK_DOWN)), (true, vec![Action::Mouse(move_relative(0, 18))]));
    assert_eq!(run(&mut app, press(VK_LEFT)), (true, vec![Action::Mouse(move_relative(-18, 0))]));
    assert_eq!(run(&mut app, press(VK_RIGHT)), (true, vec![Action::Mouse(move_relative(18, 0))]));
    // Arrow releases are not mapped.
    assert_eq!(run(&mut app, release(VK_RIGHT)), (false, vec![]));
}

#[test]
fn dpi_key_changes_step() {
    let mut app = mouse_mode_on();
    assert_eq!(run(&mut app, press(VK_OEM_2)), (true, vec![Action::ReportDpi(800)]));
    assert_eq!(run(&mut app, release(VK_OEM_2)), (true, vec![]));
    assert_eq!(run(&mut app, press(VK_UP)), (true, vec![Action::Mouse(move_relative(0, -36))]));
    for _ in 0..4 {
        run(&mut app, press(VK_OEM_2));
    }
    assert_eq!(app.unwrap().dpi_index, 1);
}

#[test]
fn wheel_layers() {
    let mut app = mouse_mode_on();
    assert_eq!(run(&mut app, press(VK_Z)), (true, vec![]));
    assert_eq!(run(&mut app, press(VK_UP)), (true, vec![Action::Mouse(wheel(120, false))]));
    assert_eq!(run(&mut app, press(VK_DOWN)), (true, vec![Action::Mouse(wheel(-120, false))]));
    assert_eq!(run(&mut app, press(VK_LEFT)), (true, vec![]));
    assert_eq!(run(&mut app, release(VK_Z)), (true, vec![]));
    assert_eq!(app, mouse_mode_on());

    assert_eq!(run(&mut app, press(VK_X)), (true, vec![]));
    assert_eq!(run(&mut app, press(VK_LEFT)), (true, vec![Action::Mouse(wheel(-120, true))]));
    assert_eq!(run(&mut app, press(VK_RIGHT)), (true, vec![Action::Mouse(wheel(120, true))]));
    assert_eq!(run(&mut app, press(VK_UP)), (true, vec![]));
    assert_eq!(run(&mut app, release(VK_X)), (true, vec![]));
    assert_eq!(app, mouse_mode_on());
}

#[test]
fn button_keys() {
    let mut app = mouse_mode_on();
    assert_eq!(run(&mut app, press(VK_A)), (true, vec![Action::Mouse(button_down(MouseButton::Left))]));
    assert_eq!(run(&mut app, release(VK_A)), (true, vec![Action::Mouse(button_up(MouseButton::Left))]));
    assert_eq!(run(&mut app, press(VK_Q)), (true, vec![Action::Mouse(button_down(MouseButton::Back))]));
    let mut sys = press(VK_Q);
    sys.message = WM_SYSKEYUP;
    assert_eq!(run(&mut app, sys), (true, vec![Action::Mouse(button_up(MouseButton::Back))]));
}

#[test]
fn unmapped_keys_pass() {
    let mut app = mouse_mode_on();
    assert_eq!(run(&mut app, press(0x42)), (false, vec![]));
    assert_eq!(run(&mut app, press(VK_1)), (false, vec![]));
    assert_eq!(run(&mut app, press(VK_RETURN)), (false, vec![]));
    let mut other = press(VK_A);
    other.message = 0x0102;
    assert_eq!(run(&mut app, other), (false, vec![]));
}

#[test]
fn grid_mode_narrows_and_confirms() {
    let mut app = mouse_mode_on();
    assert_eq!(run(&mut app, press(VK_F)), (true, vec![Action::ShowOverlay]));
    assert_eq!(app.unwrap().grid, Some(Grid { rect: SCREEN, depth: 0 }));

    let cell = cell_rect(SCREEN, 5);
    assert_eq!(
        run(&mut app, press(VK_1 + 4)),
        (true, vec![Action::Mouse(move_to_rect_center(cell, SCREEN)), Action::ShowOverlay])
    );
    assert_eq!(app.unwrap().grid, Some(Grid { rect: cell, depth: 1 }));
    assert_eq!(cell, Rect { left: -640, top: 360, right: 640, bottom: 720 });

    let (swallow, actions) = run(&mut app, press(VK_RETURN));
    assert!(swallow);
    assert_eq!(
        actions,
        vec![Action::Mouse(move_to_rect_center(cell, SCREEN)), Action::HideOverlay, Action::ReportGridOff]
    );
    assert!(app.unwrap().grid.is_none());
    // The pointer lands on the centre of the desktop.
    assert_eq!(move_to_rect_center(cell, SCREEN).dx, 32767);
}

#[test]
fn grid_depth_is_bounded() {
    let mut app = mouse_mode_on();
    run(&mut app, press(VK_F));
    for _ in 0..MAX_GRID_DEPTH {
        let (swallow, actions) = run(&mut app, press(VK_9));
        assert!(swallow);
        assert_eq!(actions.len(), 2);
    }
    let before = app;
    assert_eq!(run(&mut app, press(VK_9)), (true, vec![]));
    assert_eq!(app, before);
    assert_eq!(app.unwrap().grid.unwrap().depth, MAX_GRID_DEPTH);
}

#[test]
fn f_restarts_the_grid_and_arrows_still_move() {
    let mut app = mouse_mode_on();
    run(&mut app, press(VK_F));
    run(&mut app, press(VK_1));
    run(&mut app, press(VK_F));
    assert_eq!(app.unwrap().grid, Some(Grid { rect: SCREEN, depth: 0 }));
    assert_eq!(run(&mut app, press(VK_UP)), (true, vec![Action::Mouse(move_relative(0, -18))]));
}

#[test]
fn toggling_off_ends_grid_mode() {
    let mut app = mouse_mode_on();
    run(&mut app, press(VK_F));
    run(&mut app, ctrl_m());
    assert!(app.unwrap().grid.is_none());
    assert!(!app.unwrap().mouse_mode);
}

#[test]
fn fit_check_rejects_huge_desktops() {
    let mut s = AppState::new();
    s.mouse_mode = true;
    let huge = Rect { left: 0, top: 0, right: 2_000_000_000, bottom: 10 };
    s.grid = Some(Grid { rect: huge, depth: 0 });
    let app = Some(s);
    assert!(!keyboard_event_fits(&app, press(VK_1), huge));
    assert!(!keyboard_event_fits(&app, press(VK_RETURN), huge));
    assert!(keyboard_event_fits(&app, press(VK_UP), huge));
    assert!(keyboard_event_fits(&app, release(VK_1), huge));
}

#[test]
fn key_state_high_bit() {
    assert!(key_is_down(-128));
    assert!(key_is_down(i16::MIN));
    assert!(!key_is_down(0));
    assert!(!key_is_down(1));
}

#[test]
fn choosing_cells_stops_at_the_maximum_depth() {
    let mut s = AppState::new();
    s.mouse_mode = true;
    let grid = Grid { rect: SCREEN, depth: MAX_GRID_DEPTH - 1 };
    s.grid = Some(grid);
    let mut actions = Vec::new();
    choose_grid_cell(&mut s, grid, 1, SCREEN, &mut actions);
    let cell = cell_rect(SCREEN, 1);
    assert_eq!(s.grid, Some(Grid { rect: cell, depth: MAX_GRID_DEPTH }));
    assert_eq!(actions, vec![Action::Mouse(move_to_rect_center(cell, SCREEN)), Action::ShowOverlay]);

    let before = s;
    let mut actions = Vec::new();
    let deepest = s.grid.unwrap();
    choose_grid_cell(&mut s, deepest, 9, SCREEN, &mut actions);
    assert_eq!(s, before);
    assert!(actions.is_empty());
}
