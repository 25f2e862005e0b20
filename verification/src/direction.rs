//! Headings of the eel.

use vstd::prelude::*;

verus! {

/// One of the four headings. `Up` is towards row 0.
#[derive(Copy, Clone, PartialEq, Eq, Structural, Debug)]
pub enum Direction {
    Up,
    Down,
    Left,
    Right,
}

impl Direction {
    /// The heading that points the other way along the same axis.
    pub open spec fn opposite(self) -> Direction {
        match self {
            Direction::Up => Direction::Down,
            Direction::Down => Direction::Up,
            Direction::Left => Direction::Right,
            Direction::Right => Direction::Left,
        }
    }

    /// Whether `other` is this heading reversed.
    pub fn is_opposite(self, other: Direction) -> (b: bool)
        ensures
            b == (other == self.opposite()),
    {
        match (self, other) {
            (Direction::Up, Direction::Down) => true,
            (Direction::Down, Direction::Up) => true,
            (Direction::Left, Direction::Right) => true,
            (Direction::Right, Direction::Left) => true,
            _ => false,
        }
    }

    /// The heading that a draw stands for.
    pub open spec fn of_draw(n: u32) -> Direction {
        if n == 0 {
            Direction::Up
        } else if n == 1 {
            Direction::Down
        } else if n == 2 {
            Direction::Left
        } else {
            Direction::Right
        }
    }

    /// Turns a draw into a heading: 0, 1 and 2 are `Up`, `Down` and `Left`,
    /// anything else is `Right`.
    pub fn from_draw(n: u32) -> (d: Direction)
        ensures
            d == Direction::of_draw(n),
    {
        match n {
            0 => Direction::Up,
            1 => Direction::Down,
            2 => Direction::Left,
            _ => Direction::Right,
        }
    }

    /// The step along x that one move in this heading takes.
    pub open spec fn dx(self) -> int {
        match self {
            Direction::Left => -1,
            Direction::Right => 1,
            _ => 0,
        }
    }

    /// The step along y that one move in this heading takes.
    pub open spec fn dy(self) -> int {
        match self {
            Direction::Up => -1,
            Direction::Down => 1,
            _ => 0,
        }
    }
}

} // verus!
