//! The rules of Flappy Dragon, a side-scrolling reflex game on an 80x50
//! character grid, as a verified library.
//!
//! A dragon falls under gravity and is lifted by flaps; walls with a gap
//! scroll towards it. The library owns the whole game state and advances it
//! one rendered frame at a time: [`State::tick`] takes the time that has
//! passed and the key that was pressed, and hands back the [`Frame`] to draw.
//! Drawing, key polling and the window belong to the caller.
//!
//! Vertical positions, speeds and durations are fixed-point numbers: see
//! [`fixed`].

pub mod constants;
pub mod draw;
pub mod fixed;
pub mod laws;
pub mod obstacle;
pub mod player;
pub mod random;
pub mod state;
pub mod text;

pub use constants::{
    FLAP_STRENGTH, FRAME_DURATION, GAP_ROW_MAX, GAP_ROW_MIN, GAP_SIZE_MAX, GAP_SIZE_MIN, GRAVITY,
    SCREEN_HEIGHT, SCREEN_WIDTH, START_ROW, START_X, TERMINAL_VELOCITY,
};
pub use draw::{Color, DrawCommand, Frame};
pub use obstacle::Obstacle;
pub use player::Player;
pub use state::{GameMode, Key, State};
