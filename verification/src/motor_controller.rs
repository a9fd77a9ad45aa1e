//! The typed operations of the controller.

pub mod goto;
pub mod motion_rate;
pub mod pos;
pub mod status;

pub use self::motion_rate::multiplier_answered;
pub use self::status::{direction_field, mode_field, motion_mode_bytes, motion_mode_payload};

use crate::autoguide_speed::AutoGuideSpeed;
use crate::channels::{Channel, MultiChannel, SingleChannel};
use crate::commands::{ERROR_BYTE, INITIALIZATION_DONE, SET_AUTOGUIDE_SPEED, TERMINATION_BYTE};
use crate::counts::count_answered;
use crate::exchange::{
    acknowledged, answered, controller_error, exchange_at, frame, holds_round_trip, is_exchange,
    lemma_error_response, outcome_of,
};
use crate::motor_parameters::{parameters_at, MotorParameters};
use crate::motor_status::{status_answered, MotorStatus};
use crate::result::{SynScanError, SynScanResult};
use crate::serial_port::{SerialPort, Transfer};
use crate::synscan_port::{number_answered, SynScanPort};
use vstd::prelude::*;

verus! {

/// A handle for controlling the mount through a serial port.
///
/// It owns the port and the motor parameters, which are read once when the
/// handle is made and never change after that.
pub struct MotorController<T: SerialPort> {
    port: SynScanPort<T>,
    motor_parameters: MotorParameters,
}

/// Whether the controller went from `before` to `after` by exactly one round
/// trip for `sent`. The motor parameters stay as they are.
pub open spec fn round_trip<T: SerialPort>(
    before: MotorController<T>,
    after: MotorController<T>,
    sent: Seq<u8>,
) -> bool {
    &&& is_exchange(before.history(), after.history(), sent)
    &&& after.parameters() == before.parameters()
}

/// How the round trip for `sent` that took the controller from `before` to
/// `after` ended.
pub open spec fn reply<T: SerialPort>(
    before: MotorController<T>,
    after: MotorController<T>,
    sent: Seq<u8>,
) -> SynScanResult<Seq<u8>>
    recommends
        round_trip(before, after, sent),
{
    outcome_of(before.history(), after.history(), sent)
}

/// A round trip that the controller answers with an error code fails with
/// the error that the code stands for, whatever was asked or told; a code
/// without a meaning makes it fail as a malformed response.
pub proof fn lemma_refused(
    log: Seq<Transfer>,
    at: int,
    sent: Seq<u8>,
    code: u8,
    parameters: MotorParameters,
    channel: SingleChannel,
)
    requires
        holds_round_trip(log, at, sent, seq![ERROR_BYTE, code, TERMINATION_BYTE]),
    ensures
        exchange_at(log, at, sent) matches Some(x) && {
            &&& x.end == at + 4
            &&& x.outcome == Err::<Seq<u8>, SynScanError>(controller_error(code))
            &&& acknowledged(x.outcome) == Err::<(), SynScanError>(controller_error(code))
            &&& answered(x.outcome) == Err::<Seq<u8>, SynScanError>(controller_error(code))
            &&& number_answered(x.outcome) == Err::<u32, SynScanError>(controller_error(code))
            &&& count_answered(x.outcome) == Err::<i32, SynScanError>(controller_error(code))
            &&& status_answered(x.outcome) == Err::<MotorStatus, SynScanError>(
                controller_error(code),
            )
            &&& multiplier_answered(x.outcome, parameters, channel) == Err::<u32, SynScanError>(
                controller_error(code),
            )
        },
{
    lemma_error_response(log, at, sent, code);
}

impl<T: SerialPort> MotorController<T> {
    /// Every transfer made on the port through this handle, oldest first.
    pub closed spec fn history(&self) -> Seq<Transfer> {
        self.port.history()
    }

    /// The motor parameters that the handle holds.
    pub closed spec fn parameters(&self) -> MotorParameters {
        self.motor_parameters
    }

    /// The serial port under the handle.
    pub closed spec fn serial_port(&self) -> T {
        self.port.port()
    }

    /// A controller attached through `port`, with the motor parameters read
    /// from the mount. Any failure while reading them is the result, and no
    /// controller is made.
    pub fn new(port: T) -> (r: SynScanResult<Self>)
        ensures
            match r {
                Ok(controller) => parameters_at(controller.history(), 0) == Some(
                    (
                        Ok::<MotorParameters, SynScanError>(controller.parameters()),
                        controller.history().len() as int,
                    ),
                ),
                Err(e) => exists|log: Seq<Transfer>|
                    #[trigger] parameters_at(log, 0) == Some(
                        (Err::<MotorParameters, SynScanError>(e), log.len() as int),
                    ),
            },
    {
        let mut port = SynScanPort::new(port);
        let motor_parameters = port.get_motor_parameters()?;
        Ok(MotorController { port, motor_parameters })
    }

    /// A controller attached through `port` for a mount whose parameters are
    /// known. Nothing is sent.
    pub fn from_parts(port: T, motor_parameters: MotorParameters) -> (controller: Self)
        ensures
            controller.history() == Seq::<Transfer>::empty(),
            controller.parameters() == motor_parameters,
            controller.serial_port() == port,
    {
        MotorController { port: SynScanPort::new(port), motor_parameters }
    }

    /// The serial port itself. What is done to it directly is not recorded.
    pub fn port_mut(&mut self) -> (port: &mut T)
        ensures
            *port == old(self).serial_port(),
            final(self).serial_port() == *final(port),
            final(self).history() == old(self).history(),
            final(self).parameters() == old(self).parameters(),
    {
        self.port.port_mut()
    }

    /// Gives the serial port back.
    pub fn into_port(self) -> (port: T)
        ensures
            port == self.serial_port(),
    {
        self.port.into_port()
    }

    /// The motor parameters of the mount. They were read when the controller
    /// was made.
    pub fn get_motor_parameters(&self) -> (parameters: &MotorParameters)
        ensures
            *parameters == self.parameters(),
    {
        &self.motor_parameters
    }

    /// Tests that the mount is connected.
    pub fn test(&mut self) -> (r: SynScanResult<()>)
        ensures
            round_trip(
                *old(self),
                *final(self),
                frame(INITIALIZATION_DONE, MultiChannel::Both.wire_byte(), Seq::empty()),
            ),
            r == acknowledged(
                reply(
                    *old(self),
                    *final(self),
                    frame(INITIALIZATION_DONE, MultiChannel::Both.wire_byte(), Seq::empty()),
                ),
            ),
    {
        self.port.test()
    }

    /// Sets the autoguide speed of the mount.
    pub fn set_autoguide_speed<C: Channel>(&mut self, channel: C, speed: AutoGuideSpeed) -> (r:
        SynScanResult<()>)
        ensures
            round_trip(
                *old(self),
                *final(self),
                frame(SET_AUTOGUIDE_SPEED, channel.wire_byte(), seq![speed.wire_byte()]),
            ),
            r == acknowledged(
                reply(
                    *old(self),
                    *final(self),
                    frame(SET_AUTOGUIDE_SPEED, channel.wire_byte(), seq![speed.wire_byte()]),
                ),
            ),
    {
        let mut payload: Vec<u8> = Vec::new();
        payload.push(speed.comm_byte());
        assert(payload@ == seq![speed.wire_byte()]);
        self.port.send_cmd_bytes(SET_AUTOGUIDE_SPEED, channel, payload.as_slice())
    }
}

} // verus!
