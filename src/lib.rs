//! Core of a grid snake simulation: the body chain and its movement, the
//! anti-reversal heading gate, food placement on free cells, and the per-tick
//! coordination of input, movement, eating and growth.

pub mod cell;
pub mod direction;
pub mod food;
pub mod sim;
pub mod snake;
