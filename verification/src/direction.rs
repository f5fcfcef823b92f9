//! The four directions a snake can travel in, and the keys that select them.

use vstd::prelude::*;

verus! {

/// A key of the keyboard, as far as the game tells keys apart.
#[derive(Clone, Copy, Debug, PartialEq, Eq, Structural)]
pub enum KeyCode {
    /// The up arrow.
    Up,
    /// The down arrow.
    Down,
    /// The left arrow.
    Left,
    /// The right arrow.
    Right,
    /// Any key that is not an arrow.
    Other,
}

/// A cardinal direction on the grid.
#[derive(Clone, Copy, Debug, PartialEq, Eq, Structural)]
pub enum Direction {
    Up,
    Down,
    Left,
    Right,
}

impl Direction {
    /// The direction an arrow key stands for; no other key stands for one.
    pub open spec fn spec_from_keycode(keycode: KeyCode) -> Option<Direction> {
        match keycode {
            KeyCode::Up => Some(Direction::Up),
            KeyCode::Down => Some(Direction::Down),
            KeyCode::Left => Some(Direction::Left),
            KeyCode::Right => Some(Direction::Right),
            KeyCode::Other => None,
        }
    }

    /// Maps an arrow key to its direction, and every other key to `None`.
    pub fn from_keycode(keycode: KeyCode) -> (r: Option<Direction>)
        ensures
            r == Self::spec_from_keycode(keycode),
    {
        match keycode {
            KeyCode::Up => Some(Direction::Up),
            KeyCode::Down => Some(Direction::Down),
            KeyCode::Left => Some(Direction::Left),
            KeyCode::Right => Some(Direction::Right),
            KeyCode::Other => None,
        }
    }

    /// The direction pointing the opposite way.
    pub open spec fn spec_inverse(self) -> Direction {
        match self {
            Direction::Up => Direction::Down,
            Direction::Down => Direction::Up,
            Direction::Left => Direction::Right,
            Direction::Right => Direction::Left,
        }
    }

    /// Returns the opposite direction.
    pub fn inverse(&self) -> (r: Direction)
        ensures
            r == self.spec_inverse(),
    {
        match *self {
            Direction::Up => Direction::Down,
            Direction::Down => Direction::Up,
            Direction::Left => Direction::Right,
            Direction::Right => Direction::Left,
        }
    }

    /// Turning around twice gives the direction one started with, and turning
    /// around once never does.
    pub proof fn inverse_is_an_involution(self)
        ensures
            self.spec_inverse().spec_inverse() == self,
            self.spec_inverse() != self,
    {
    }
}

} // verus!
