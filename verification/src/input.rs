//! The keys that the rules read, as plain flags.

use vstd::prelude::*;

verus! {

/// Which of the keys that matter are held during a frame.
#[derive(Clone, Copy, Debug, PartialEq, Eq, Structural)]
pub struct Keys {
    pub up: bool,
    pub down: bool,
    pub left: bool,
    pub right: bool,
    pub activate: bool,
}

/// One of the four directions of movement.
#[derive(Clone, Copy, Debug, PartialEq, Eq, Structural)]
pub enum Direction {
    Up,
    Down,
    Left,
    Right,
}

impl Keys {
    /// The direction that counts as held: the first held one in the order up,
    /// down, left, right, or none if no direction key is held.
    pub open spec fn held(self) -> Option<Direction> {
        if self.up {
            Some(Direction::Up)
        } else if self.down {
            Some(Direction::Down)
        } else if self.left {
            Some(Direction::Left)
        } else if self.right {
            Some(Direction::Right)
        } else {
            None
        }
    }

    /// No key held.
    pub fn none() -> (k: Keys)
        ensures
            k == (Keys { up: false, down: false, left: false, right: false, activate: false }),
    {
        Keys { up: false, down: false, left: false, right: false, activate: false }
    }

    /// Picks the held direction by the fixed priority up, down, left, right.
    pub fn held_direction(&self) -> (d: Option<Direction>)
        ensures
            d == self.held(),
    {
        if self.up {
            Some(Direction::Up)
        } else if self.down {
            Some(Direction::Down)
        } else if self.left {
            Some(Direction::Left)
        } else if self.right {
            Some(Direction::Right)
        } else {
            None
        }
    }
}

} // verus!
