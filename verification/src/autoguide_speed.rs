//! The rates at which an autoguider may correct the tracking.

use std::cmp::Ordering;
use vstd::prelude::*;

verus! {

/// A fraction of the tracking rate. The speeds are ordered by the fraction
/// that they stand for, the smallest first.
#[derive(Debug, Eq, PartialEq, Copy, Clone, Structural, Ord)]
pub enum AutoGuideSpeed {
    Eighth,
    Quarter,
    Half,
    ThreeQuarters,
    One,
}

impl AutoGuideSpeed {
    /// The digit that selects this speed on the wire: `0` for the full rate,
    /// then `1`, `2`, `3`, and `4` for an eighth of it.
    pub open spec fn wire_byte(self) -> u8 {
        match self {
            AutoGuideSpeed::One => 0x30,
            AutoGuideSpeed::ThreeQuarters => 0x31,
            AutoGuideSpeed::Half => 0x32,
            AutoGuideSpeed::Quarter => 0x33,
            AutoGuideSpeed::Eighth => 0x34,
        }
    }

    /// The fraction in eighths: 8 for the full rate, 1 for an eighth of it.
    pub open spec fn spec_eighths(self) -> u8 {
        match self {
            AutoGuideSpeed::One => 8,
            AutoGuideSpeed::ThreeQuarters => 6,
            AutoGuideSpeed::Half => 4,
            AutoGuideSpeed::Quarter => 2,
            AutoGuideSpeed::Eighth => 1,
        }
    }

    /// The fraction in eighths: 8 for the full rate, 1 for an eighth of it.
    #[verifier::when_used_as_spec(spec_eighths)]
    pub fn eighths(self) -> (n: u8)
        ensures
            n == self.spec_eighths(),
    {
        match self {
            AutoGuideSpeed::One => 8,
            AutoGuideSpeed::ThreeQuarters => 6,
            AutoGuideSpeed::Half => 4,
            AutoGuideSpeed::Quarter => 2,
            AutoGuideSpeed::Eighth => 1,
        }
    }

    /// The digit that selects this speed on the wire.
    pub fn comm_byte(&self) -> (byte: u8)
        ensures
            byte == self.wire_byte(),
    {
        match self {
            AutoGuideSpeed::One => 0x30,
            AutoGuideSpeed::ThreeQuarters => 0x31,
            AutoGuideSpeed::Half => 0x32,
            AutoGuideSpeed::Quarter => 0x33,
            AutoGuideSpeed::Eighth => 0x34,
        }
    }
}

impl PartialOrd for AutoGuideSpeed {
    /// Compares two speeds by the fractions that they stand for.
    fn partial_cmp(&self, other: &Self) -> (r: Option<Ordering>) {
        let mine: u8 = self.eighths();
        let theirs: u8 = other.eighths();
        if mine < theirs {
            Some(Ordering::Less)
        } else if mine == theirs {
            Some(Ordering::Equal)
        } else {
            Some(Ordering::Greater)
        }
    }
}

impl vstd::std_specs::cmp::PartialOrdSpecImpl for AutoGuideSpeed {
    open spec fn obeys_partial_cmp_spec() -> bool {
        true
    }

    open spec fn partial_cmp_spec(&self, other: &Self) -> Option<Ordering> {
        if self.spec_eighths() < other.spec_eighths() {
            Some(Ordering::Less)
        } else if self.spec_eighths() == other.spec_eighths() {
            Some(Ordering::Equal)
        } else {
            Some(Ordering::Greater)
        }
    }
}

} // verus!
