//! The fixed parameters of the game.

use vstd::prelude::*;

verus! {

/// Width and height of the playing field, in cells.
pub const GRID_SIZE: (i32, i32) = (30, 20);

/// Width and height of one cell on screen, in pixels.
pub const GRID_CELL_SIZE: (i32, i32) = (32, 32);

/// Width and height of the window, in pixels.
pub const SCREEN_SIZE: (i32, i32) = (
    GRID_SIZE.0 * GRID_CELL_SIZE.0,
    GRID_SIZE.1 * GRID_CELL_SIZE.1,
);

/// How many simulation ticks happen per second.
pub const UPDATES_PER_SECOND: u64 = 8;

/// The shortest time between two simulation ticks, in nanoseconds.
pub const TIME_PER_UPDATE: u64 = 125_000_000;

/// Nanoseconds in a second.
pub const NANOS_PER_SECOND: u64 = 1_000_000_000;

/// The tick interval is the `UPDATES_PER_SECOND`-th part of a second.
pub proof fn tick_interval_divides_second()
    ensures
        TIME_PER_UPDATE * UPDATES_PER_SECOND == NANOS_PER_SECOND,
{
}

} // verus!
