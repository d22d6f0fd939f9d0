//! Cells of the board and the four directions of travel.

use vstd::prelude::*;

verus! {

/// One of the four directions in which the snake travels.
#[derive(Clone, Copy, Debug, PartialEq, Eq, Structural)]
pub enum Direction {
    Up,
    Down,
    Left,
    Right,
}

impl Direction {
    /// The direction that points the other way.
    pub open spec fn opposite(self) -> Direction {
        match self {
            Direction::Up => Direction::Down,
            Direction::Down => Direction::Up,
            Direction::Left => Direction::Right,
            Direction::Right => Direction::Left,
        }
    }
}

/// A cell, by column `x` and row `y`, counted from the upper left corner.
#[derive(Clone, Copy, Debug, PartialEq, Eq, Structural)]
pub struct Position {
    pub x: u16,
    pub y: u16,
}

impl Position {
    /// Whether the cell lies on a board of `width` columns and `height` rows.
    pub open spec fn within(self, width: u16, height: u16) -> bool {
        self.x < width && self.y < height
    }

    /// The cell one step away in direction `d`. A coordinate that cannot go
    /// further stays where it is: at zero when moving left or up, at the
    /// largest `u16` when moving right or down.
    pub open spec fn neighbour(self, d: Direction) -> Position {
        match d {
            Direction::Up => Position { x: self.x, y: if self.y == 0 { 0u16 } else { (self.y - 1) as u16 } },
            Direction::Down => Position {
                x: self.x,
                y: if self.y == u16::MAX { u16::MAX } else { (self.y + 1) as u16 },
            },
            Direction::Left => Position { x: if self.x == 0 { 0u16 } else { (self.x - 1) as u16 }, y: self.y },
            Direction::Right => Position {
                x: if self.x == u16::MAX { u16::MAX } else { (self.x + 1) as u16 },
                y: self.y,
            },
        }
    }

    /// The cell one step away in direction `d`, with coordinates that
    /// saturate at both ends of `u16`.
    pub fn step(self, d: Direction) -> (p: Position)
        ensures
            p == self.neighbour(d),
    {
        match d {
            Direction::Up => Position { x: self.x, y: self.y.saturating_sub(1) },
            Direction::Down => Position { x: self.x, y: self.y.saturating_add(1) },
            Direction::Left => Position { x: self.x.saturating_sub(1), y: self.y },
            Direction::Right => Position { x: self.x.saturating_add(1), y: self.y },
        }
    }
}

} // verus!
