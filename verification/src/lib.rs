//! The rules of a grid-based Snake game: a deterministic, discrete-time
//! simulation whose every step carries a machine-checked contract.
//!
//! The whole game lives in one [`game::Game`] value. A fixed tick runs
//! movement, eating, growth and the game-over check in that order; steering
//! may be applied any number of times between two ticks.

pub mod direction;
pub mod food;
pub mod game;
pub mod grid;
pub mod schedule;
pub mod theorems;
