//! Key bindings and behaviour parameters.
//!
//! The tunable parameters live here so that shortcuts, movement speed, DPI
//! levels, wheel step and the maximum grid depth can be changed without
//! touching the event handling.

use vstd::prelude::*;

verus! {

// Windows virtual-key codes of the letter keys.
pub const VK_A: u32 = 0x41;
pub const VK_D: u32 = 0x44;
pub const VK_F: u32 = 0x46;
pub const VK_M: u32 = 0x4D;
pub const VK_Q: u32 = 0x51;
pub const VK_S: u32 = 0x53;
pub const VK_W: u32 = 0x57;
pub const VK_X: u32 = 0x58;
pub const VK_Z: u32 = 0x5A;

// Range of the digit keys used to choose a grid cell.
pub const VK_1: u32 = 0x31;
pub const VK_9: u32 = 0x39;

/// Virtual-key code of the main keyboard `/` key, which cycles the virtual DPI.
pub const VK_OEM_2: u32 = 0xBF;

/// Movement per arrow key event at the 400 DPI level.
pub const BASE_MOVE: i32 = 18;

/// Number of virtual DPI levels that `/` cycles through.
pub const DPI_LEVEL_COUNT: usize = 5;

/// The virtual DPI levels that `/` cycles through.
pub const DPI_LEVELS: [i32; 5] = [200, 400, 800, 1600, 3200];

/// Index of the default DPI in `DPI_LEVELS`; index 1 is 400 DPI.
pub const DEFAULT_DPI_INDEX: usize = 1;

/// Delta of one standard wheel notch.
pub const WHEEL_DELTA: i32 = 120;

/// Maximum number of grid subdivisions, so that the selection cannot shrink forever.
pub const MAX_GRID_DEPTH: u8 = 4;

/// The DPI level at `index` of `DPI_LEVELS`.
pub open spec fn dpi_level(index: int) -> i32 {
    if index == 0 {
        200
    } else if index == 1 {
        400
    } else if index == 2 {
        800
    } else if index == 3 {
        1600
    } else {
        3200
    }
}

/// The table holds exactly the levels that `dpi_level` names.
pub proof fn lemma_dpi_levels_table(i: int)
    requires
        0 <= i < DPI_LEVEL_COUNT,
    ensures
        DPI_LEVELS@.len() == DPI_LEVEL_COUNT,
        DPI_LEVELS@[i] == dpi_level(i),
{
}

} // verus!
