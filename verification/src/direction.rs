//! The sense in which an axis turns.

use vstd::prelude::*;

verus! {

#[derive(Debug, PartialEq, Eq, Copy, Clone, Structural)]
pub enum Direction {
    Clockwise,
    CounterClockwise,
}

impl Direction {
    /// The name of the direction.
    pub open spec fn text(self) -> Seq<char> {
        match self {
            Direction::Clockwise => "Clockwise"@,
            Direction::CounterClockwise => "CounterClockwise"@,
        }
    }

    /// The name of the direction.
    pub fn description(&self) -> (text: String)
        ensures
            text@ == self.text(),
    {
        match self {
            Direction::Clockwise => String::from_str("Clockwise"),
            Direction::CounterClockwise => String::from_str("CounterClockwise"),
        }
    }

    /// The other direction.
    pub fn opposite(&self) -> (other: Self)
        ensures
            other == match *self {
                Direction::Clockwise => Direction::CounterClockwise,
                Direction::CounterClockwise => Direction::Clockwise,
            },
    {
        match self {
            Direction::Clockwise => Direction::CounterClockwise,
            Direction::CounterClockwise => Direction::Clockwise,
        }
    }
}

} // verus!
