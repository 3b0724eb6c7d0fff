//! Keyboard-driven mouse control: key bindings, the recursive nine-cell
//! positioning grid, mouse event construction, the shared application state
//! machine, overlay layout and tray icon rendering.

pub mod config;
pub mod grid;
pub mod mouse;
pub mod overlay;
pub mod state;
pub mod keyboard;
pub mod key_laws;
pub mod text;
pub mod tray;
