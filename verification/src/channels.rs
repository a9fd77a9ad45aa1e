//! Which motor a command is addressed to.

use vstd::prelude::*;

verus! {

/// The byte that addresses the first axis: `1`.
pub const CHANNEL_1: u8 = 0x31;

/// The byte that addresses the second axis: `2`.
pub const CHANNEL_2: u8 = 0x32;

/// The byte that addresses both axes: `3`.
pub const CHANNEL_BOTH: u8 = 0x33;

/// An address on the wire: one axis, or both at once.
pub trait Channel {
    /// The byte that stands for this address in a frame.
    spec fn wire_byte(&self) -> u8;

    /// The byte that stands for this address in a frame.
    fn get_byte(&self) -> (byte: u8)
        ensures
            byte == self.wire_byte(),
    ;
}

/// The broadcast address. Only commands may be broadcast; inquiries go to a
/// single axis.
#[derive(Clone, Copy, Debug, PartialEq, Eq, Structural)]
pub enum MultiChannel {
    Both,
}

impl Channel for MultiChannel {
    open spec fn wire_byte(&self) -> u8 {
        CHANNEL_BOTH
    }

    fn get_byte(&self) -> (byte: u8) {
        CHANNEL_BOTH
    }
}

/// One of the two axes.
#[derive(Clone, Copy, Debug, PartialEq, Eq, Structural)]
pub enum SingleChannel {
    Channel1,
    Channel2,
}

impl SingleChannel {
    /// The two axes, the first one first.
    pub const VALUES: [SingleChannel; 2] = [SingleChannel::Channel1, SingleChannel::Channel2];
}

impl Channel for SingleChannel {
    open spec fn wire_byte(&self) -> u8 {
        match self {
            SingleChannel::Channel1 => CHANNEL_1,
            SingleChannel::Channel2 => CHANNEL_2,
        }
    }

    fn get_byte(&self) -> (byte: u8) {
        match self {
            SingleChannel::Channel1 => CHANNEL_1,
            SingleChannel::Channel2 => CHANNEL_2,
        }
    }
}

} // verus!
