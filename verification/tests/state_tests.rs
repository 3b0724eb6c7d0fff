use kmouse::config::{DEFAULT_DPI_INDEX, DPI_LEVELS, DPI_LEVEL_COUNT};
use kmouse::grid::{Grid, Rect};
use kmouse::state::{init, mouse_mode_active, set_mouse_mode, Action, AppState};

#[test]
fn initial_state() {
    let s = AppState::new();
    assert!(!s.mouse_mode);
    assert_eq!(s.dpi_index, DEFAULT_DPI_INDEX);
    assert_eq!(DPI_LEVELS[s.dpi_index], 400);
    assert!(!s.vertical_wheel && !s.horizontal_wheel);
    assert!(s.grid.is_none());
    assert!(s.is_wf());
}

#[test]
fn dpi_cycles_through_all_levels() {
    let mut s = AppState::new();
    let seen: Vec<i32> = (0..5).map(|_| s.cycle_dpi()).collect();
    assert_eq!(seen, vec![800, 1600, 3200, 200, 400]);
    assert_eq!(s.dpi_index, DEFAULT_DPI_INDEX);
    assert_eq!(DPI_LEVELS.len(), DPI_LEVEL_COUNT);
}

#[test]
fn movement_step_scales_with_dpi() {
    let mut s = AppState::new();
    let steps: Vec<i32> = (0..5)
        .map(|i| {
            s.dpi_index = i;
            s.movement_step()
        })
        .collect();
    assert_eq!(steps, vec![9, 18, 36, 72, 144]);
}

#[test]
fn mouse_mode_query() {
    assert!(!mouse_mode_active(&None));
    let mut s = AppState::new();
    assert!(!mouse_mode_active(&Some(s)));
    s.mouse_mode = true;
    assert!(mouse_mode_active(&Some(s)));
}

#[test]
fn switching_mouse_mode_ends_grid_mode() {
    let mut s = AppState::new();
    s.grid = Some(Grid { rect: Rect { left: 0, top: 0, right: 9, bottom: 9 }, depth: 2 });
    let mut app = Some(s);
    let mut actions = Vec::new();
    set_mouse_mode(&mut app, true, &mut actions);
    let a = app.unwrap();
    assert!(a.mouse_mode);
    assert!(a.grid.is_none());
    assert_eq!(a.dpi_index, s.dpi_index);
    assert_eq!(
        actions,
        vec![Action::HideOverlay, Action::TrayMouseMode(true), Action::ReportMouseMode(true)]
    );

    let mut none: Option<AppState> = None;
    let mut actions = Vec::new();
    set_mouse_mode(&mut none, false, &mut actions);
    assert!(none.is_none());
    assert_eq!(
        actions,
        vec![Action::HideOverlay, Action::TrayMouseMode(false), Action::ReportMouseMode(false)]
    );
}

#[test]
fn well_formedness_check() {
    let mut s = AppState::new();
    s.dpi_index = 5;
    assert!(!s.is_wf());
    s.dpi_index = 4;
    s.grid = Some(Grid { rect: Rect { left: 0, top: 0, right: 1, bottom: 1 }, depth: 4 });
    assert!(s.is_wf());
}

#[test]
fn init_creates_the_state_once() {
    let mut app: Option<AppState> = None;
    init(&mut app);
    assert_eq!(app, Some(AppState::new()));
    let mut actions = Vec::new();
    set_mouse_mode(&mut app, true, &mut actions);
    init(&mut app);
    assert!(mouse_mode_active(&app));
}
