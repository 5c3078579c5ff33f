pub mod cells;
pub mod environment;
pub mod game;
pub mod snake;

use vstd::prelude::*;

verus! {

/// Edge length of one grid cell, in coordinate units. Every step of the snake
/// and every food position is a multiple of this.
pub const BLOCK_SIZE: i64 = 25;

/// Moves per second.
pub const MOVING_PERIOD: u64 = 10;

/// Milliseconds a finished game stays on display before it may start over.
pub const RESTART_TIME: u64 = 2000;

/// Where the last block of a fresh snake lies.
pub const SPAWN_X: i64 = 50;

/// See `SPAWN_X`.
pub const SPAWN_Y: i64 = 50;

/// How many random cells are tried for a new piece of food in one tick.
pub const FOOD_ATTEMPTS: u32 = 1024;

} // verus!
