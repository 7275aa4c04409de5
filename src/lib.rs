//! A pebble-subtraction game between a user and the program.
//!
//! The state machine, the program's strategy and the action dispatcher are
//! pure functions over an owned `GameState`: every draw of randomness is
//! handed in by the caller as a plain `u32`.
use vstd::prelude::*;

pub mod types;
pub mod strategy;
pub mod game;
pub mod laws;
