//! The application state that the keyboard hook, the overlay and the tray
//! share.

use vstd::prelude::*;
use crate::config::{BASE_MOVE, DEFAULT_DPI_INDEX, DPI_LEVELS, DPI_LEVEL_COUNT, MAX_GRID_DEPTH, dpi_level, lemma_dpi_levels_table};
use crate::grid::Grid;
use crate::mouse::MouseEvent;

verus! {

/// What the application state machine asks its host to do, in order.
#[derive(Clone, Copy, Debug, PartialEq, Eq, Structural)]
pub enum Action {
    /// Send this mouse input to Windows.
    Mouse(MouseEvent),
    /// Show the grid overlay and repaint it.
    ShowOverlay,
    /// Hide the grid overlay.
    HideOverlay,
    /// Show the tray icon and tip of the given mouse mode.
    TrayMouseMode(bool),
    /// Report on the console that mouse mode is now on or off.
    ReportMouseMode(bool),
    /// Report on the console that grid mode ended.
    ReportGridOff,
    /// Report on the console the newly chosen DPI level.
    ReportDpi(i32),
}

/// The shared application state.
#[derive(Clone, Copy, Debug, PartialEq, Eq, Structural)]
pub struct AppState {
    /// Whether keys currently drive the mouse.
    pub mouse_mode: bool,
    /// Index of the current level in `DPI_LEVELS`.
    pub dpi_index: usize,
    /// Whether the vertical wheel layer key is held.
    pub vertical_wheel: bool,
    /// Whether the horizontal wheel layer key is held.
    pub horizontal_wheel: bool,
    /// The active grid selection, if grid mode is on.
    pub grid: Option<Grid>,
}

/// The state at start-up: mouse mode off, default DPI, no layer, no grid.
pub open spec fn initial_state() -> AppState {
    AppState {
        mouse_mode: false,
        dpi_index: DEFAULT_DPI_INDEX,
        vertical_wheel: false,
        horizontal_wheel: false,
        grid: None,
    }
}

/// The index that follows `i` when the DPI level is cycled.
pub open spec fn next_dpi_index(i: int) -> int {
    (i + 1) % (DPI_LEVEL_COUNT as int)
}

impl AppState {
    /// The DPI index names a level of `DPI_LEVELS`.
    pub open spec fn wf(self) -> bool {
        self.dpi_index < DPI_LEVEL_COUNT
    }

    /// The grid, if any, is at most as deep as allowed.
    pub open spec fn depth_bounded(self) -> bool {
        self.grid matches Some(g) ==> g.depth <= MAX_GRID_DEPTH
    }

    /// Pointer movement per arrow key event at the current DPI level.
    pub open spec fn spec_movement_step(self) -> int {
        BASE_MOVE * dpi_level(self.dpi_index as int) / 400
    }

    /// The state at start-up: mouse mode off, default DPI, no layer, no grid.
    pub fn new() -> (s: Self)
        ensures
            s == initial_state(),
            s.wf(),
            s.depth_bounded(),
    {
        AppState {
            mouse_mode: false,
            dpi_index: DEFAULT_DPI_INDEX,
            vertical_wheel: false,
            horizontal_wheel: false,
            grid: None,
        }
    }

    /// Tests `wf`.
    pub fn is_wf(&self) -> (b: bool)
        ensures
            b == self.wf(),
    {
        self.dpi_index < DPI_LEVEL_COUNT
    }

    /// Moves to the next DPI level, wrapping around, and returns it.
    pub fn cycle_dpi(&mut self) -> (dpi: i32)
        requires
            old(self).dpi_index < usize::MAX,
        ensures
            final(self).dpi_index == next_dpi_index(old(self).dpi_index as int),
            final(self).mouse_mode == old(self).mouse_mode,
            final(self).vertical_wheel == old(self).vertical_wheel,
            final(self).horizontal_wheel == old(self).horizontal_wheel,
            final(self).grid == old(self).grid,
            dpi == dpi_level(final(self).dpi_index as int),
    {
        self.dpi_index = (self.dpi_index + 1) % DPI_LEVEL_COUNT;
        proof {
            lemma_dpi_levels_table(self.dpi_index as int);
        }
        DPI_LEVELS[self.dpi_index]
    }

    /// Pointer movement per arrow key event: `BASE_MOVE` at 400 DPI, scaled
    /// with the DPI level.
    pub fn movement_step(&self) -> (step: i32)
        requires
            self.dpi_index < DPI_LEVEL_COUNT,
        ensures
            step == self.spec_movement_step(),
            9 <= step <= 144,
    {
        proof {
            lemma_dpi_levels_table(self.dpi_index as int);
        }
        BASE_MOVE * DPI_LEVELS[self.dpi_index] / 400
    }
}

/// Cycling the DPI visits every level once and comes back after
/// `DPI_LEVEL_COUNT` steps.
pub proof fn lemma_dpi_cycle_period(i: int)
    requires
        0 <= i < DPI_LEVEL_COUNT,
    ensures
        next_dpi_index(next_dpi_index(next_dpi_index(next_dpi_index(next_dpi_index(i))))) == i,
        next_dpi_index(i) != i,
        next_dpi_index(next_dpi_index(i)) != i,
        next_dpi_index(next_dpi_index(next_dpi_index(i))) != i,
        next_dpi_index(next_dpi_index(next_dpi_index(next_dpi_index(i)))) != i,
        0 <= next_dpi_index(i) < DPI_LEVEL_COUNT,
{
}

/// Creates the shared state once: a missing state becomes the initial
/// state, and an existing state is kept as it is, so a second call changes
/// nothing.
pub fn init(app: &mut Option<AppState>)
    ensures
        *final(app) == match *old(app) {
            Some(a) => Some(a),
            None => Some(initial_state()),
        },
        *old(app) is None ==> final(app).unwrap().wf() && final(app).unwrap().depth_bounded(),
{
    if app.is_none() {
        *app = Some(AppState::new());
    }
}

/// Whether mouse mode is on; off when there is no state.
pub open spec fn spec_mouse_mode_active(app: Option<AppState>) -> bool {
    match app {
        Some(a) => a.mouse_mode,
        None => false,
    }
}

/// Reports whether mouse mode is on.
pub fn mouse_mode_active(app: &Option<AppState>) -> (b: bool)
    ensures
        b == spec_mouse_mode_active(*app),
{
    match app {
        Some(a) => a.mouse_mode,
        None => false,
    }
}

/// The state after mouse mode is switched on or off: the grid is dropped.
pub open spec fn spec_set_mouse_mode_state(app: Option<AppState>, enabled: bool) -> Option<AppState> {
    match app {
        Some(a) => Some(AppState { mouse_mode: enabled, grid: None, ..a }),
        None => None,
    }
}

/// What switching mouse mode asks of the host: hide the overlay, update the
/// tray and report the new mode.
pub open spec fn spec_set_mouse_mode_actions(enabled: bool) -> Seq<Action> {
    seq![Action::HideOverlay, Action::TrayMouseMode(enabled), Action::ReportMouseMode(enabled)]
}

/// Switches mouse mode on or off and ends grid mode.
pub fn set_mouse_mode(app: &mut Option<AppState>, enabled: bool, actions: &mut Vec<Action>)
    ensures
        *final(app) == spec_set_mouse_mode_state(*old(app), enabled),
        final(actions)@ == old(actions)@ + spec_set_mouse_mode_actions(enabled),
        old(app).is_some() ==> (old(app).unwrap().wf() ==> final(app).unwrap().wf()),
        final(app).is_some() ==> final(app).unwrap().depth_bounded(),
{
    match app {
        Some(a) => {
            a.mouse_mode = enabled;
            a.grid = None;
        },
        None => {},
    }
    actions.push(Action::HideOverlay);
    actions.push(Action::TrayMouseMode(enabled));
    actions.push(Action::ReportMouseMode(enabled));
}

} // verus!
