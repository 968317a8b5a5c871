//! The fixed numbers of the game.

use vstd::prelude::*;

verus! {

/// Width of the screen in character cells. A new wall is placed this far
/// ahead of the dragon.
pub const SCREEN_WIDTH: i32 = 80;

/// Height of the screen in character cells. A dragon whose row is greater
/// than this has fallen out of the world.
pub const SCREEN_HEIGHT: i32 = 50;

/// Time between two physics steps, in microseconds (75 ms).
pub const FRAME_DURATION: i64 = 75_000;

/// Speed at and above which gravity no longer accelerates the dragon, in
/// thousandths of a row per physics step (2.0 rows).
pub const TERMINAL_VELOCITY: i64 = 2_000;

/// Speed gained in one physics step while below the terminal speed, in
/// thousandths of a row per physics step (0.2 rows).
pub const GRAVITY: i64 = 200;

/// Upward speed that one flap gives, in thousandths of a row per physics
/// step (1.0 rows).
pub const FLAP_STRENGTH: i64 = 1_000;

/// Lowest row on which the centre of a gap may lie.
pub const GAP_ROW_MIN: i32 = 10;

/// First row above the range on which the centre of a gap may lie.
pub const GAP_ROW_MAX: i32 = 40;

/// Widest gap, the one of a game that has just begun.
pub const GAP_SIZE_MAX: i32 = 20;

/// Narrowest gap.
pub const GAP_SIZE_MIN: i32 = 2;

/// Column of the dragon at the start of a game.
pub const START_X: i32 = 5;

/// Row of the dragon at the start of a game.
pub const START_ROW: i32 = 25;

} // verus!
