//! Grid dimensions and timing constants of the simulation.

use vstd::prelude::*;

verus! {

/// Number of columns in the playing grid.
pub const CELL_COLS: i8 = 13;

/// Number of rows in the playing grid.
pub const CELL_ROWS: i8 = 16;

/// Total number of cells in the grid (`CELL_COLS * CELL_ROWS`).
pub const GRID_AREA: u16 = 208;

/// Advance interval, in milliseconds, while the snake still has its
/// initial length: the slowest configured speed.
pub const INITIAL_ADVANCE_MS: u32 = 500;

/// Advance interval, in milliseconds, once the snake has grown beyond
/// its initial length: the fast speed.
pub const FAST_ADVANCE_MS: u32 = 300;

} // verus!
