//! The constants of a mount, read from the controller once.

use crate::bichannel_value::BiChannelValue;
use crate::channels::{Channel, SingleChannel};
use crate::codec::{lemma_decode_encode, lemma_wire_digits_are_digits, pow16, wire_digits};
use crate::commands::{
    INQUIRE_COUNTS_PER_REVOLUTION, INQUIRE_HIGH_SPEED_RATIO, INQUIRE_TIMER_INTERRUPT_FREQUENCY,
    SUCCESS_BYTE, TERMINATION_BYTE,
};
use crate::exchange::{
    exchange_at, frame, holds_round_trip, lemma_exchange_stable, lemma_payload_response,
};
use crate::result::{SynScanError, SynScanResult};
use crate::serial_port::{SerialPort, Transfer};
use crate::synscan_port::{number_answered, SynScanPort};
use vstd::prelude::*;

verus! {

/// Constant motor parameters given by the mount.
#[derive(Copy, Clone, Debug)]
pub struct MotorParameters {
    /// Encoder counts in one turn of each axis.
    pub counts_per_revolution: BiChannelValue<u32>,
    /// Ticks per second of the timer that paces the steps.
    pub timer_interrupt_freq: u32,
    /// How many times faster each axis runs in fast mode.
    pub high_speed_ratio: BiChannelValue<u32>,
}

/// The inquiry for a number that starts at place `at` of `log`, if one for
/// `cmd` on `channel` stands there: what it gave, and the place after it.
pub open spec fn number_at(log: Seq<Transfer>, at: int, cmd: u8, channel: SingleChannel) -> Option<
    (SynScanResult<u32>, int),
> {
    match exchange_at(log, at, frame(cmd, channel.wire_byte(), Seq::empty())) {
        Some(x) => Some((number_answered(x.outcome), x.end)),
        None => None,
    }
}

/// The reading of the motor parameters that starts at place `at` of `log`,
/// if one stands there: what it gave, and the place after it.
///
/// Five inquiries are made, in this order: counts per revolution of the
/// first axis and of the second, timer frequency (asked of the first axis),
/// high speed ratio of the first axis and of the second. The first one that
/// fails ends the reading with its error.
pub open spec fn parameters_at(log: Seq<Transfer>, at: int) -> Option<
    (SynScanResult<MotorParameters>, int),
> {
    match number_at(log, at, INQUIRE_COUNTS_PER_REVOLUTION, SingleChannel::Channel1) {
        None => None,
        Some((Err(e), end)) => Some((Err(e), end)),
        Some((Ok(counts1), at2)) => match number_at(
            log,
            at2,
            INQUIRE_COUNTS_PER_REVOLUTION,
            SingleChannel::Channel2,
        ) {
            None => None,
            Some((Err(e), end)) => Some((Err(e), end)),
            Some((Ok(counts2), at3)) => match number_at(
                log,
                at3,
                INQUIRE_TIMER_INTERRUPT_FREQUENCY,
                SingleChannel::Channel1,
            ) {
                None => None,
                Some((Err(e), end)) => Some((Err(e), end)),
                Some((Ok(freq), at4)) => match number_at(
                    log,
                    at4,
                    INQUIRE_HIGH_SPEED_RATIO,
                    SingleChannel::Channel1,
                ) {
                    None => None,
                    Some((Err(e), end)) => Some((Err(e), end)),
                    Some((Ok(ratio1), at5)) => match number_at(
                        log,
                        at5,
                        INQUIRE_HIGH_SPEED_RATIO,
                        SingleChannel::Channel2,
                    ) {
                        None => None,
                        Some((Err(e), end)) => Some((Err(e), end)),
                        Some((Ok(ratio2), end)) => Some(
                            (
                                Ok(
                                    MotorParameters {
                                        counts_per_revolution: BiChannelValue {
                                            channel1: counts1,
                                            channel2: counts2,
                                        },
                                        timer_interrupt_freq: freq,
                                        high_speed_ratio: BiChannelValue {
                                            channel1: ratio1,
                                            channel2: ratio2,
                                        },
                                    },
                                ),
                                end,
                            ),
                        ),
                    },
                },
            },
        },
    }
}

/// An inquiry found in a record is found, the same, in every record that
/// continues it.
pub proof fn lemma_number_stable(
    log: Seq<Transfer>,
    longer: Seq<Transfer>,
    at: int,
    cmd: u8,
    channel: SingleChannel,
)
    requires
        log.is_prefix_of(longer),
        number_at(log, at, cmd, channel) is Some,
    ensures
        number_at(longer, at, cmd, channel) == number_at(log, at, cmd, channel),
{
    lemma_exchange_stable(log, longer, at, frame(cmd, channel.wire_byte(), Seq::empty()));
}

/// The response that answers an inquiry with `number`: the success byte,
/// the six digits that carry the number and the termination byte.
pub open spec fn number_response(number: u32) -> Seq<u8> {
    seq![SUCCESS_BYTE] + wire_digits(number as nat, 6) + seq![TERMINATION_BYTE]
}

/// Whether, from place `at` on, `log` holds an inquiry `cmd` of `channel`
/// that was answered with `number`. Such an inquiry takes nine transfers.
pub open spec fn holds_number(
    log: Seq<Transfer>,
    at: int,
    cmd: u8,
    channel: SingleChannel,
    number: u32,
) -> bool {
    holds_round_trip(
        log,
        at,
        frame(cmd, channel.wire_byte(), Seq::empty()),
        number_response(number),
    )
}

/// An inquiry that is answered with the six digits of a number gives that
/// number.
pub proof fn lemma_number_read(
    log: Seq<Transfer>,
    at: int,
    cmd: u8,
    channel: SingleChannel,
    number: u32,
)
    requires
        number < 0x1000000,
        holds_number(log, at, cmd, channel, number),
    ensures
        number_at(log, at, cmd, channel) == Some(
            (Ok::<u32, SynScanError>(number), at + 9),
        ),
{
    let payload = wire_digits(number as nat, 6);
    lemma_wire_digits_are_digits(number as nat, 6);
    lemma_payload_response(log, at, frame(cmd, channel.wire_byte(), Seq::empty()), payload);
    assert(pow16(6) == 0x1000000) by {
        reveal_with_fuel(pow16, 7);
    }
    lemma_decode_encode(number, 6);
}

/// A mount that answers each of the five inquiries with a number gives a
/// controller these numbers as its parameters, each for the axis that was
/// asked.
pub proof fn lemma_parameters_read(log: Seq<Transfer>, at: int, parameters: MotorParameters)
    requires
        parameters.counts_per_revolution.channel1 < 0x1000000,
        parameters.counts_per_revolution.channel2 < 0x1000000,
        parameters.timer_interrupt_freq < 0x1000000,
        parameters.high_speed_ratio.channel1 < 0x1000000,
        parameters.high_speed_ratio.channel2 < 0x1000000,
        holds_number(
            log,
            at,
            INQUIRE_COUNTS_PER_REVOLUTION,
            SingleChannel::Channel1,
            parameters.counts_per_revolution.channel1,
        ),
        holds_number(
            log,
            at + 9,
            INQUIRE_COUNTS_PER_REVOLUTION,
            SingleChannel::Channel2,
            parameters.counts_per_revolution.channel2,
        ),
        holds_number(
            log,
            at + 18,
            INQUIRE_TIMER_INTERRUPT_FREQUENCY,
            SingleChannel::Channel1,
            parameters.timer_interrupt_freq,
        ),
        holds_number(
            log,
            at + 27,
            INQUIRE_HIGH_SPEED_RATIO,
            SingleChannel::Channel1,
            parameters.high_speed_ratio.channel1,
        ),
        holds_number(
            log,
            at + 36,
            INQUIRE_HIGH_SPEED_RATIO,
            SingleChannel::Channel2,
            parameters.high_speed_ratio.channel2,
        ),
    ensures
        parameters_at(log, at) == Some(
            (Ok::<MotorParameters, SynScanError>(parameters), at + 45),
        ),
{
    lemma_number_read(
        log,
        at,
        INQUIRE_COUNTS_PER_REVOLUTION,
        SingleChannel::Channel1,
        parameters.counts_per_revolution.channel1,
    );
    lemma_number_read(
        log,
        at + 9,
        INQUIRE_COUNTS_PER_REVOLUTION,
        SingleChannel::Channel2,
        parameters.counts_per_revolution.channel2,
    );
    lemma_number_read(
        log,
        at + 18,
        INQUIRE_TIMER_INTERRUPT_FREQUENCY,
        SingleChannel::Channel1,
        parameters.timer_interrupt_freq,
    );
    lemma_number_read(
        log,
        at + 27,
        INQUIRE_HIGH_SPEED_RATIO,
        SingleChannel::Channel1,
        parameters.high_speed_ratio.channel1,
    );
    lemma_number_read(
        log,
        at + 36,
        INQUIRE_HIGH_SPEED_RATIO,
        SingleChannel::Channel2,
        parameters.high_speed_ratio.channel2,
    );
}

impl<T: SerialPort> SynScanPort<T> {
    /// One inquiry for a number, stated by its place in the record.
    fn inquire_number_at(&mut self, cmd: u8, channel: SingleChannel) -> (r: SynScanResult<u32>)
        ensures
            old(self).history().is_prefix_of(final(self).history()),
            number_at(final(self).history(), old(self).history().len() as int, cmd, channel)
                == Some((r, final(self).history().len() as int)),
    {
        self.inquire_number(cmd, channel)
    }

    /// Reads the motor parameters from the controller.
    pub fn get_motor_parameters(&mut self) -> (r: SynScanResult<MotorParameters>)
        ensures
            old(self).history().is_prefix_of(final(self).history()),
            parameters_at(final(self).history(), old(self).history().len() as int) == Some(
                (r, final(self).history().len() as int),
            ),
    {
        let ghost h0 = self.history();
        let counts1 = match self.inquire_number_at(
            INQUIRE_COUNTS_PER_REVOLUTION,
            SingleChannel::Channel1,
        ) {
            Ok(n) => n,
            Err(e) => {
                return Err(e);
            },
        };
        let ghost h1 = self.history();
        let counts2 = match self.inquire_number_at(
            INQUIRE_COUNTS_PER_REVOLUTION,
            SingleChannel::Channel2,
        ) {
            Ok(n) => n,
            Err(e) => {
                proof {
                    lemma_number_stable(
                        h1,
                        self.history(),
                        h0.len() as int,
                        INQUIRE_COUNTS_PER_REVOLUTION,
                        SingleChannel::Channel1,
                    );
                }
                return Err(e);
            },
        };
        let ghost h2 = self.history();
        let freq = match self.inquire_number_at(
            INQUIRE_TIMER_INTERRUPT_FREQUENCY,
            SingleChannel::Channel1,
        ) {
            Ok(n) => n,
            Err(e) => {
                proof {
                    let h = self.history();
                    lemma_number_stable(
                        h1,
                        h,
                        h0.len() as int,
                        INQUIRE_COUNTS_PER_REVOLUTION,
                        SingleChannel::Channel1,
                    );
                    lemma_number_stable(
                        h2,
                        h,
                        h1.len() as int,
                        INQUIRE_COUNTS_PER_REVOLUTION,
                        SingleChannel::Channel2,
                    );
                }
                return Err(e);
            },
        };
        let ghost h3 = self.history();
        let ratio1 = match self.inquire_number_at(INQUIRE_HIGH_SPEED_RATIO, SingleChannel::Channel1) {
            Ok(n) => n,
            Err(e) => {
                proof {
                    let h = self.history();
                    lemma_number_stable(
                        h1,
                        h,
                        h0.len() as int,
                        INQUIRE_COUNTS_PER_REVOLUTION,
                        SingleChannel::Channel1,
                    );
                    lemma_number_stable(
                        h2,
                        h,
                        h1.len() as int,
                        INQUIRE_COUNTS_PER_REVOLUTION,
                        SingleChannel::Channel2,
                    );
                    lemma_number_stable(
                        h3,
                        h,
                        h2.len() as int,
                        INQUIRE_TIMER_INTERRUPT_FREQUENCY,
                        SingleChannel::Channel1,
                    );
                }
                return Err(e);
            },
        };
        let ghost h4 = self.history();
        let last = self.inquire_number_at(INQUIRE_HIGH_SPEED_RATIO, SingleChannel::Channel2);
        proof {
            let h = self.history();
            lemma_number_stable(
                h1,
                h,
                h0.len() as int,
                INQUIRE_COUNTS_PER_REVOLUTION,
                SingleChannel::Channel1,
            );
            lemma_number_stable(
                h2,
                h,
                h1.len() as int,
                INQUIRE_COUNTS_PER_REVOLUTION,
                SingleChannel::Channel2,
            );
            lemma_number_stable(
                h3,
                h,
                h2.len() as int,
                INQUIRE_TIMER_INTERRUPT_FREQUENCY,
                SingleChannel::Channel1,
            );
            lemma_number_stable(
                h4,
                h,
                h3.len() as int,
                INQUIRE_HIGH_SPEED_RATIO,
                SingleChannel::Channel1,
            );
        }
        match last {
            Ok(ratio2) => Ok(
                MotorParameters {
                    counts_per_revolution: BiChannelValue::new(counts1, counts2),
                    timer_interrupt_freq: freq,
                    high_speed_ratio: BiChannelValue::new(ratio1, ratio2),
                },
            ),
            Err(e) => Err(e),
        }
    }
}

} // verus!
