//! How fast the mount moves, and whether it moves at all.

use crate::channels::{Channel, SingleChannel};
use crate::codec::wire_digits;
use crate::commands::{
    INQUIRE_STATUS, INQUIRE_STEP_PERIOD, INSTANT_STOP, SET_STEP_PERIOD, START_MOTION, STOP_MOTION,
};
use crate::exchange::{acknowledged, frame};
use crate::motor_controller::{reply, round_trip, MotorController};
use crate::motor_parameters::MotorParameters;
use crate::motor_status::status_answered;
use crate::result::SynScanResult;
use crate::serial_port::SerialPort;
use crate::synscan_port::number_answered;
use vstd::prelude::*;

verus! {

/// What an inquiry for the motion rate multiplier makes of a round trip that
/// asked `channel` for its status: the high speed ratio of the axis if it
/// runs fast, 1 if it does not.
pub open spec fn multiplier_answered(
    outcome: SynScanResult<Seq<u8>>,
    parameters: MotorParameters,
    channel: SingleChannel,
) -> SynScanResult<u32> {
    match status_answered(outcome) {
        Ok(status) => Ok(
            if status.fast {
                parameters.high_speed_ratio.value(channel)
            } else {
                1u32
            },
        ),
        Err(e) => Err(e),
    }
}

impl<T: SerialPort> MotorController<T> {
    /// Reads the step period of the mount: the number of timer ticks that the
    /// controller waits between two steps. The smaller, the faster.
    pub fn inquire_step_period(&mut self, channel: SingleChannel) -> (r: SynScanResult<u32>)
        ensures
            round_trip(
                *old(self),
                *final(self),
                frame(INQUIRE_STEP_PERIOD, channel.wire_byte(), Seq::empty()),
            ),
            r == number_answered(
                reply(
                    *old(self),
                    *final(self),
                    frame(INQUIRE_STEP_PERIOD, channel.wire_byte(), Seq::empty()),
                ),
            ),
    {
        self.port.inquire_number(INQUIRE_STEP_PERIOD, channel)
    }

    /// Sets the step period of the mount. Six digits travel: a period of
    /// more than 24 bits loses what is above them.
    pub fn set_step_period<C: Channel>(&mut self, channel: C, period: u32) -> (r: SynScanResult<()>)
        ensures
            round_trip(
                *old(self),
                *final(self),
                frame(SET_STEP_PERIOD, channel.wire_byte(), wire_digits(period as nat, 6)),
            ),
            r == acknowledged(
                reply(
                    *old(self),
                    *final(self),
                    frame(SET_STEP_PERIOD, channel.wire_byte(), wire_digits(period as nat, 6)),
                ),
            ),
    {
        self.port.send_cmd_number(SET_STEP_PERIOD, channel, period, 6)
    }

    /// The factor between the step rate and the motion rate of an axis as it
    /// runs now: its high speed ratio in fast mode, 1 in slow mode.
    pub fn determine_motion_rate_multiplier(&mut self, channel: SingleChannel) -> (r:
        SynScanResult<u32>)
        ensures
            round_trip(
                *old(self),
                *final(self),
                frame(INQUIRE_STATUS, channel.wire_byte(), Seq::empty()),
            ),
            r == multiplier_answered(
                reply(
                    *old(self),
                    *final(self),
                    frame(INQUIRE_STATUS, channel.wire_byte(), Seq::empty()),
                ),
                old(self).parameters(),
                channel,
            ),
    {
        if !self.inquire_status(channel)?.fast {
            return Ok(1);
        }
        Ok(self.motor_parameters.high_speed_ratio[channel])
    }

    /// Starts tracking or goto of a stopped mount.
    pub fn start_motion<C: Channel>(&mut self, channel: C) -> (r: SynScanResult<()>)
        ensures
            round_trip(
                *old(self),
                *final(self),
                frame(START_MOTION, channel.wire_byte(), Seq::empty()),
            ),
            r == acknowledged(
                reply(
                    *old(self),
                    *final(self),
                    frame(START_MOTION, channel.wire_byte(), Seq::empty()),
                ),
            ),
    {
        self.port.send_cmd(START_MOTION, channel)
    }

    /// Stops motion of the mount.
    pub fn stop_motion<C: Channel>(&mut self, channel: C) -> (r: SynScanResult<()>)
        ensures
            round_trip(
                *old(self),
                *final(self),
                frame(STOP_MOTION, channel.wire_byte(), Seq::empty()),
            ),
            r == acknowledged(
                reply(
                    *old(self),
                    *final(self),
                    frame(STOP_MOTION, channel.wire_byte(), Seq::empty()),
                ),
            ),
    {
        self.port.send_cmd(STOP_MOTION, channel)
    }

    /// Instantly stops motion of the mount.
    pub fn instant_stop<C: Channel>(&mut self, channel: C) -> (r: SynScanResult<()>)
        ensures
            round_trip(
                *old(self),
                *final(self),
                frame(INSTANT_STOP, channel.wire_byte(), Seq::empty()),
            ),
            r == acknowledged(
                reply(
                    *old(self),
                    *final(self),
                    frame(INSTANT_STOP, channel.wire_byte(), Seq::empty()),
                ),
            ),
    {
        self.port.send_cmd(INSTANT_STOP, channel)
    }
}

} // verus!
