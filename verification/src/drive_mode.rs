//! How an axis is driven.

use vstd::prelude::*;

verus! {

#[derive(Debug, PartialEq, Eq, Copy, Clone, Structural)]
pub enum DriveMode {
    /// Runs to a target and stops there.
    Goto,
    /// Runs at a set rate until told to stop.
    Tracking,
}

impl DriveMode {
    /// The name of the mode.
    pub open spec fn text(self) -> Seq<char> {
        match self {
            DriveMode::Goto => "Goto"@,
            DriveMode::Tracking => "Tracking"@,
        }
    }

    /// The name of the mode.
    pub fn description(&self) -> (text: String)
        ensures
            text@ == self.text(),
    {
        match self {
            DriveMode::Goto => String::from_str("Goto"),
            DriveMode::Tracking => String::from_str("Tracking"),
        }
    }
}

} // verus!
