//! Compass directions and the keys that select them.

use vstd::prelude::*;

verus! {

/// One of the four directions in which the snake can travel.
#[derive(Debug, Copy, Clone, PartialEq, Eq, Structural)]
pub enum Direction {
    Up,
    Down,
    Left,
    Right,
}

/// A key press as the game sees it: one of the four arrow keys, or anything else.
#[derive(Debug, Copy, Clone, PartialEq, Eq, Structural)]
pub enum KeyCode {
    Up,
    Down,
    Left,
    Right,
    Other,
}

impl Direction {
    /// Horizontal offset of one step in this direction.
    pub open spec fn dx(self) -> int {
        match self {
            Direction::Left => -1,
            Direction::Right => 1,
            _ => 0,
        }
    }

    /// Vertical offset of one step in this direction; rows count downwards.
    pub open spec fn dy(self) -> int {
        match self {
            Direction::Up => -1,
            Direction::Down => 1,
            _ => 0,
        }
    }

    /// The opposite direction.
    pub open spec fn spec_inverse(&self) -> Direction {
        match *self {
            Direction::Up => Direction::Down,
            Direction::Down => Direction::Up,
            Direction::Left => Direction::Right,
            Direction::Right => Direction::Left,
        }
    }

    /// The direction that a key selects, if it selects one.
    pub open spec fn spec_from_keycode(key: KeyCode) -> Option<Direction> {
        match key {
            KeyCode::Up => Some(Direction::Up),
            KeyCode::Down => Some(Direction::Down),
            KeyCode::Left => Some(Direction::Left),
            KeyCode::Right => Some(Direction::Right),
            KeyCode::Other => None,
        }
    }

    /// Returns the inverse `Direction` of the current.
    #[verifier::when_used_as_spec(spec_inverse)]
    pub fn inverse(&self) -> (inv: Self)
        ensures
            inv == self.spec_inverse(),
    {
        match *self {
            Direction::Up => Direction::Down,
            Direction::Down => Direction::Up,
            Direction::Left => Direction::Right,
            Direction::Right => Direction::Left,
        }
    }

    /// Converts a key to the `Direction` that it represents, or returns `None`.
    pub fn from_keycode(key: KeyCode) -> (dir: Option<Self>)
        ensures
            dir == Self::spec_from_keycode(key),
    {
        match key {
            KeyCode::Up => Some(Direction::Up),
            KeyCode::Down => Some(Direction::Down),
            KeyCode::Left => Some(Direction::Left),
            KeyCode::Right => Some(Direction::Right),
            _ => None,
        }
    }
}

/// Inverting a direction twice gives the direction back, and a direction is
/// never its own inverse.
pub proof fn lemma_inverse_involution(d: Direction)
    ensures
        d.spec_inverse().spec_inverse() == d,
        d.spec_inverse() != d,
        d.spec_inverse().dx() == -d.dx(),
        d.spec_inverse().dy() == -d.dy(),
{
}

} // verus!
