//! A snake that runs forever on a toroidal grid: its heading, its body and
//! the way both react to ticks and key presses.

pub mod direction;
pub mod game;
pub mod grid;
pub mod snake;

pub use crate::direction::{request_turn, Direction, Key};
pub use crate::game::{ButtonState, DrawCommand, Event, Game};
pub use crate::grid::{step_down, step_up, Grid, Position, Square};
pub use crate::snake::{advance, try_advance, MotionError, Snake};
