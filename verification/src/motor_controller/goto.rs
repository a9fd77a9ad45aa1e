//! Where the mount is told to go.

use crate::channels::{Channel, SingleChannel};
use crate::codec::wire_digits;
use crate::commands::{INQUIRE_GOTO_TARGET_POSITION, SET_GOTO_TARGET};
use crate::counts::{biased, count_answered, count_of, lemma_count_in_reach, COUNT_ZERO};
use crate::exchange::{acknowledged, frame};
use crate::motor_controller::{reply, round_trip, MotorController};
use crate::result::SynScanResult;
use crate::serial_port::SerialPort;
use vstd::prelude::*;

verus! {

impl<T: SerialPort> MotorController<T> {
    /// Sets the goto target in encoder counts relative to where the mount was
    /// initialized. Positive counts are clockwise.
    pub fn set_goto_target_counts<C: Channel>(&mut self, channel: C, counts: i32) -> (r:
        SynScanResult<()>)
        requires
            -COUNT_ZERO <= counts < COUNT_ZERO,
        ensures
            round_trip(
                *old(self),
                *final(self),
                frame(SET_GOTO_TARGET, channel.wire_byte(), wire_digits(biased(counts), 6)),
            ),
            r == acknowledged(
                reply(
                    *old(self),
                    *final(self),
                    frame(SET_GOTO_TARGET, channel.wire_byte(), wire_digits(biased(counts), 6)),
                ),
            ),
    {
        self.port.send_cmd_number(SET_GOTO_TARGET, channel, (counts + COUNT_ZERO) as u32, 6)
    }

    /// Reads the goto target in counts relative to where the mount was
    /// initialized. Positive counts are clockwise.
    pub fn inquire_goto_target(&mut self, channel: SingleChannel) -> (r: SynScanResult<i32>)
        ensures
            round_trip(
                *old(self),
                *final(self),
                frame(INQUIRE_GOTO_TARGET_POSITION, channel.wire_byte(), Seq::empty()),
            ),
            r == count_answered(
                reply(
                    *old(self),
                    *final(self),
                    frame(INQUIRE_GOTO_TARGET_POSITION, channel.wire_byte(), Seq::empty()),
                ),
            ),
    {
        let ghost before = self.port.history();
        let number = self.port.inquire_number(INQUIRE_GOTO_TARGET_POSITION, channel);
        proof {
            lemma_count_in_reach(
                before,
                self.port.history(),
                frame(INQUIRE_GOTO_TARGET_POSITION, channel.wire_byte(), Seq::empty()),
            );
        }
        match number {
            Ok(number) => Ok(count_of(number)),
            Err(e) => Err(e),
        }
    }
}

} // verus!
