//! What the mount is doing, and how it is told to move.

use crate::channels::{Channel, SingleChannel};
use crate::codec::{digit_char, hex_digit_char};
use crate::commands::{INQUIRE_STATUS, SET_MOTION_MODE};
use crate::direction::Direction;
use crate::drive_mode::DriveMode;
use crate::exchange::{acknowledged, frame};
use crate::motor_controller::{reply, round_trip, MotorController};
use crate::motor_status::{status_answered, MotorStatus};
use crate::result::SynScanResult;
use crate::serial_port::SerialPort;
use vstd::prelude::*;

verus! {

/// The first field of a motion mode: bit 0 is set for tracking, and bit 1
/// exactly when `fast` agrees with tracking, that is for fast tracking and
/// for slow goto.
pub open spec fn mode_field(mode: DriveMode, fast: bool) -> nat {
    ((if mode == DriveMode::Tracking {
        1nat
    } else {
        0nat
    }) + (if fast == (mode == DriveMode::Tracking) {
        2nat
    } else {
        0nat
    })) as nat
}

/// The second field of a motion mode: bit 0 is set for counterclockwise.
pub open spec fn direction_field(direction: Direction) -> nat {
    if direction == Direction::CounterClockwise {
        1
    } else {
        0
    }
}

/// The payload that selects a motion mode: the two fields, each as one
/// hexadecimal digit.
pub open spec fn motion_mode_payload(mode: DriveMode, fast: bool, direction: Direction) -> Seq<u8> {
    seq![digit_char(mode_field(mode, fast)), digit_char(direction_field(direction))]
}

/// The payload that selects a motion mode.
pub fn motion_mode_bytes(mode: DriveMode, fast: bool, direction: Direction) -> (bytes: Vec<u8>)
    ensures
        bytes@ == motion_mode_payload(mode, fast, direction),
{
    let tracking: bool = mode == DriveMode::Tracking;
    let mut byte0: u8 = 0;
    let mut byte1: u8 = 0;
    if tracking {
        byte0 = byte0 + 1;
    }
    if fast == tracking {
        byte0 = byte0 + 2;
    }
    if direction == Direction::CounterClockwise {
        byte1 = byte1 + 1;
    }
    let mut bytes: Vec<u8> = Vec::new();
    bytes.push(hex_digit_char(byte0));
    bytes.push(hex_digit_char(byte1));
    bytes
}

impl<T: SerialPort> MotorController<T> {
    /// Returns a [`MotorStatus`] describing the mount status.
    pub fn inquire_status(&mut self, channel: SingleChannel) -> (r: SynScanResult<MotorStatus>)
        ensures
            round_trip(
                *old(self),
                *final(self),
                frame(INQUIRE_STATUS, channel.wire_byte(), Seq::empty()),
            ),
            r == status_answered(
                reply(
                    *old(self),
                    *final(self),
                    frame(INQUIRE_STATUS, channel.wire_byte(), Seq::empty()),
                ),
            ),
    {
        let data = self.port.inquire_bytes(INQUIRE_STATUS, channel)?;
        MotorStatus::from_bytes(data.as_slice())
    }

    /// Whether the axis is running.
    pub fn is_running(&mut self, channel: SingleChannel) -> (r: SynScanResult<bool>)
        ensures
            round_trip(
                *old(self),
                *final(self),
                frame(INQUIRE_STATUS, channel.wire_byte(), Seq::empty()),
            ),
            r == match status_answered(
                reply(
                    *old(self),
                    *final(self),
                    frame(INQUIRE_STATUS, channel.wire_byte(), Seq::empty()),
                ),
            ) {
                Ok(status) => Ok::<bool, crate::result::SynScanError>(status.running),
                Err(e) => Err::<bool, crate::result::SynScanError>(e),
            },
    {
        let status = self.inquire_status(channel)?;
        Ok(status.running)
    }

    /// Sets the motion mode to either fast or slow goto mode. The mount
    /// refuses this while it is moving.
    pub fn set_goto_motion_mode<C: Channel>(&mut self, channel: C, fast: bool) -> (r:
        SynScanResult<()>)
        ensures
            round_trip(
                *old(self),
                *final(self),
                frame(
                    SET_MOTION_MODE,
                    channel.wire_byte(),
                    motion_mode_payload(DriveMode::Goto, fast, Direction::Clockwise),
                ),
            ),
            r == acknowledged(
                reply(
                    *old(self),
                    *final(self),
                    frame(
                        SET_MOTION_MODE,
                        channel.wire_byte(),
                        motion_mode_payload(DriveMode::Goto, fast, Direction::Clockwise),
                    ),
                ),
            ),
    {
        self.set_motion_mode(channel, DriveMode::Goto, fast, Direction::Clockwise)
    }

    /// Sets the motion mode to either fast or slow tracking mode in the given
    /// direction. The mount refuses this while it is moving.
    pub fn set_tracking_motion_mode<C: Channel>(
        &mut self,
        channel: C,
        fast: bool,
        direction: Direction,
    ) -> (r: SynScanResult<()>)
        ensures
            round_trip(
                *old(self),
                *final(self),
                frame(
                    SET_MOTION_MODE,
                    channel.wire_byte(),
                    motion_mode_payload(DriveMode::Tracking, fast, direction),
                ),
            ),
            r == acknowledged(
                reply(
                    *old(self),
                    *final(self),
                    frame(
                        SET_MOTION_MODE,
                        channel.wire_byte(),
                        motion_mode_payload(DriveMode::Tracking, fast, direction),
                    ),
                ),
            ),
    {
        self.set_motion_mode(channel, DriveMode::Tracking, fast, direction)
    }

    /// Sets the motion mode. The mount refuses this while it is moving.
    pub fn set_motion_mode<C: Channel>(
        &mut self,
        channel: C,
        mode: DriveMode,
        fast: bool,
        direction: Direction,
    ) -> (r: SynScanResult<()>)
        ensures
            round_trip(
                *old(self),
                *final(self),
                frame(
                    SET_MOTION_MODE,
                    channel.wire_byte(),
                    motion_mode_payload(mode, fast, direction),
                ),
            ),
            r == acknowledged(
                reply(
                    *old(self),
                    *final(self),
                    frame(
                        SET_MOTION_MODE,
                        channel.wire_byte(),
                        motion_mode_payload(mode, fast, direction),
                    ),
                ),
            ),
    {
        let bytes = motion_mode_bytes(mode, fast, direction);
        self.port.send_cmd_bytes(SET_MOTION_MODE, channel, bytes.as_slice())
    }
}

} // verus!
