//! The rules of a snake game on a fixed board: how the snake is steered, how it
//! advances by one cell per tick, when it grows and when the game ends.
//!
//! Drawing, reading the keyboard and timing are left to the program that uses
//! this library; it hands over keys and asks for the next state.

pub mod grid;
pub mod input;
pub mod chance;
pub mod game;
pub mod driver;
pub mod laws;
