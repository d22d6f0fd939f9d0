//! Steering: which direction the snake takes when a key has been pressed.

use vstd::prelude::*;
use crate::grid::Direction;

verus! {

/// A key as the game sees it: one of the four arrows, or anything else.
#[derive(Clone, Copy, Debug, PartialEq, Eq, Structural)]
pub enum Key {
    Up,
    Down,
    Left,
    Right,
    Other,
}

impl Key {
    /// The direction an arrow key asks for; `None` for any other key.
    pub open spec fn direction(self) -> Option<Direction> {
        match self {
            Key::Up => Some(Direction::Up),
            Key::Down => Some(Direction::Down),
            Key::Left => Some(Direction::Left),
            Key::Right => Some(Direction::Right),
            Key::Other => None,
        }
    }

    /// The arrow key that asks for direction `d`.
    pub open spec fn arrow(d: Direction) -> Key {
        match d {
            Direction::Up => Key::Up,
            Direction::Down => Key::Down,
            Direction::Left => Key::Left,
            Direction::Right => Key::Right,
        }
    }
}

/// The direction after `key` while travelling in `current`: the direction of
/// an arrow key, unless that is the exact opposite of `current`; with no key,
/// another key or a reversal, `current` itself.
pub open spec fn steered(current: Direction, key: Option<Key>) -> Direction {
    match key {
        Some(k) => match k.direction() {
            Some(d) => if d == current.opposite() { current } else { d },
            None => current,
        },
        None => current,
    }
}

/// Computes the direction after `key` while travelling in `current`.
pub fn steer(current: Direction, key: Option<Key>) -> (next: Direction)
    ensures
        next == steered(current, key),
{
    match key {
        Some(Key::Up) => if current != Direction::Down { Direction::Up } else { current },
        Some(Key::Down) => if current != Direction::Up { Direction::Down } else { current },
        Some(Key::Left) => if current != Direction::Right { Direction::Left } else { current },
        Some(Key::Right) => if current != Direction::Left { Direction::Right } else { current },
        _ => current,
    }
}

} // verus!
