//! Framing: one command out, one response in.

use crate::channels::{Channel, MultiChannel};
use crate::codec::{bytes_to_number, decoded, is_width, number_to_bytes, wire_digits};
use crate::commands::{
    CODE_COMMAND_LENGTH, CODE_DRIVER_SLEEPING, CODE_INVALID_CHARACTER, CODE_MOTOR_NOT_STOPPED,
    CODE_NOT_INITIALIZED, CODE_NO_VALID_PEC_DATA, CODE_PEC_TRAINING_RUNNING,
    CODE_UNKNOWN_COMMAND, ERROR_BYTE, INITIALIZATION_DONE, MAX_VALID_RESPONSE, QUERY_BYTE,
    SUCCESS_BYTE, TERMINATION_BYTE,
};
use crate::exchange::{
    acknowledged, answered, controller_error, exchange_at, frame, is_exchange, outcome_of,
    payload_at, read_at, response_at, Exchange,
};
use crate::result::{IoError, SynScanError, SynScanResult};
use crate::serial_port::{Line, SerialPort, Transfer};
use vstd::prelude::*;

verus! {

/// A payload as a sequence of bytes, where there is one.
pub open spec fn payload_view(r: SynScanResult<Vec<u8>>) -> SynScanResult<Seq<u8>> {
    match r {
        Ok(payload) => Ok(payload@),
        Err(e) => Err(e),
    }
}

/// What an inquiry for a number makes of a round trip: the number that the
/// payload carries.
pub open spec fn number_answered(outcome: SynScanResult<Seq<u8>>) -> SynScanResult<u32> {
    match answered(outcome) {
        Ok(payload) => decoded(payload),
        Err(e) => Err(e),
    }
}

/// The protocol engine on top of a serial port. Every operation is one round
/// trip: it writes one frame and reads one response, and leaves both in the
/// record of the line.
pub struct SynScanPort<T: SerialPort> {
    line: Line<T>,
}

impl<T: SerialPort> SynScanPort<T> {
    /// Every transfer made on the port through this engine, oldest first.
    pub closed spec fn history(&self) -> Seq<Transfer> {
        self.line.history()
    }

    /// The serial port under the engine.
    pub closed spec fn port(&self) -> T {
        self.line.port()
    }

    /// An engine on `port`, with nothing sent yet.
    pub fn new(port: T) -> (engine: Self)
        ensures
            engine.history() == Seq::<Transfer>::empty(),
            engine.port() == port,
    {
        SynScanPort { line: Line::new(port) }
    }

    /// The serial port itself, for what the engine does not do. What is done
    /// to it directly is not recorded.
    pub fn port_mut(&mut self) -> (port: &mut T)
        ensures
            *port == old(self).port(),
            final(self).port() == *final(port),
            final(self).history() == old(self).history(),
    {
        self.line.port_mut()
    }

    /// Gives the serial port back.
    pub fn into_port(self) -> (port: T)
        ensures
            port == self.port(),
    {
        self.line.into_port()
    }

    /// Reads one byte. A read that ends with nothing is a timeout.
    fn read_byte(&mut self) -> (r: Result<u8, IoError>)
        ensures
            old(self).history().is_prefix_of(final(self).history()),
            final(self).history().len() == old(self).history().len() + 1,
            read_at(final(self).history(), old(self).history().len() as int) == Some(r),
            final(self).history() == old(self).history().push(final(self).history().last()),
    {
        match self.line.read() {
            Ok(Some(byte)) => Ok(byte),
            Ok(None) => Err(IoError::TimedOut),
            Err(e) => Err(e),
        }
    }

    /// Tells whether the controller answers: sends the command that ends
    /// initialization to both axes.
    pub fn test(&mut self) -> (r: SynScanResult<()>)
        ensures
            is_exchange(
                old(self).history(),
                final(self).history(),
                frame(INITIALIZATION_DONE, MultiChannel::Both.wire_byte(), Seq::empty()),
            ),
            r == acknowledged(
                outcome_of(
                    old(self).history(),
                    final(self).history(),
                    frame(INITIALIZATION_DONE, MultiChannel::Both.wire_byte(), Seq::empty()),
                ),
            ),
    {
        self.send_cmd(INITIALIZATION_DONE, MultiChannel::Both)
    }

    /// The error that the controller reports with the code byte `code`.
    pub fn resolve_controller_error(code: u8) -> (e: SynScanError)
        ensures
            e == controller_error(code),
    {
        if code == CODE_UNKNOWN_COMMAND {
            SynScanError::UnknownCommand
        } else if code == CODE_COMMAND_LENGTH {
            SynScanError::CommandLengthError
        } else if code == CODE_MOTOR_NOT_STOPPED {
            SynScanError::MotorNotStopped
        } else if code == CODE_INVALID_CHARACTER {
            SynScanError::InvalidCharacter
        } else if code == CODE_NOT_INITIALIZED {
            SynScanError::NotInitialized
        } else if code == CODE_DRIVER_SLEEPING {
            SynScanError::DriverSleeping
        } else if code == CODE_PEC_TRAINING_RUNNING {
            SynScanError::PECTrainingRunning
        } else if code == CODE_NO_VALID_PEC_DATA {
            SynScanError::NoValidPECData
        } else {
            SynScanError::CommunicationError(IoError::InvalidData)
        }
    }

    /// Reads the byte that must end a response.
    fn consume_term_char(&mut self) -> (r: Result<(), IoError>)
        ensures
            old(self).history().is_prefix_of(final(self).history()),
            final(self).history().len() == old(self).history().len() + 1,
            final(self).history() == old(self).history().push(final(self).history().last()),
            match read_at(final(self).history(), old(self).history().len() as int) {
                Some(Ok(byte)) => r == if byte == TERMINATION_BYTE {
                    Ok::<(), IoError>(())
                } else {
                    Err::<(), IoError>(IoError::InvalidData)
                },
                Some(Err(e)) => r == Err::<(), IoError>(e),
                None => false,
            },
    {
        let termination_char = self.read_byte()?;
        if termination_char != TERMINATION_BYTE {
            return Err(IoError::InvalidData);
        }
        Ok(())
    }

    /// Reads one response: the payload after a success byte, or the error
    /// that the code after an error byte stands for.
    fn read_response(&mut self) -> (r: SynScanResult<Vec<u8>>)
        ensures
            old(self).history().is_prefix_of(final(self).history()),
            response_at(final(self).history(), old(self).history().len() as int) == Some(
                Exchange { outcome: payload_view(r), end: final(self).history().len() as int },
            ),
    {
        let ghost start = self.history().len() as int;
        let first_byte = match self.read_byte() {
            Ok(byte) => byte,
            Err(e) => {
                return Err(SynScanError::CommunicationError(e));
            },
        };
        if first_byte == SUCCESS_BYTE {
            let mut buf: Vec<u8> = Vec::new();
            let mut i: usize = 0;
            loop
                invariant_except_break
                    forall|l: Seq<Transfer>|
                        self.history().is_prefix_of(l) ==> #[trigger] payload_at(
                            l,
                            start + 1,
                            Seq::empty(),
                        ) == payload_at(l, self.history().len() as int, buf@),
                invariant
                    old(self).history().is_prefix_of(self.history()),
                    start == old(self).history().len(),
                    self.history().len() > start,
                    read_at(self.history(), start) == Some(Ok::<u8, IoError>(SUCCESS_BYTE)),
                    i == buf.len(),
                    i <= MAX_VALID_RESPONSE,
                ensures
                    payload_at(self.history(), start + 1, Seq::empty()) == Some(
                        Exchange { outcome: Ok(buf@), end: self.history().len() as int },
                    ),
                decreases MAX_VALID_RESPONSE - i,
            {
                let ghost log = self.history();
                let ghost got = buf@;
                let read = self.read_byte();
                proof {
                    let now = self.history();
                    assert(log.is_prefix_of(now));
                    assert(payload_at(now, start + 1, Seq::empty()) == payload_at(
                        now,
                        log.len() as int,
                        got,
                    ));
                    assert(read_at(now, log.len() as int) == Some(read));
                    assert(read_at(now, start) == read_at(log, start)) by {
                        assert(now[start] == log[start]);
                    }
                }
                let byte = match read {
                    Ok(byte) => byte,
                    Err(e) => {
                        return Err(SynScanError::CommunicationError(e));
                    },
                };
                if byte == TERMINATION_BYTE {
                    break ;
                } else if i < MAX_VALID_RESPONSE {
                    buf.push(byte);
                    i += 1;
                    proof {
                        assert forall|l: Seq<Transfer>|
                            self.history().is_prefix_of(l) implies #[trigger] payload_at(
                            l,
                            start + 1,
                            Seq::empty(),
                        ) == payload_at(l, self.history().len() as int, buf@) by {
                            assert(log.is_prefix_of(l));
                            assert(l[log.len() as int] == self.history()[log.len() as int]);
                            assert(payload_at(l, log.len() as int, got) == payload_at(
                                l,
                                (log.len() + 1) as int,
                                got.push(byte),
                            ));
                        }
                    }
                } else {
                    return Err(SynScanError::CommunicationError(IoError::InvalidData));
                }
            }
            Ok(buf)
        } else if first_byte == ERROR_BYTE {
            let ghost log = self.history();
            let error_code = match self.read_byte() {
                Ok(byte) => byte,
                Err(e) => {
                    proof {
                        assert(self.history()[start] == log[start]);
                    }
                    return Err(SynScanError::CommunicationError(e));
                },
            };
            let ghost log2 = self.history();
            let end = self.consume_term_char();
            proof {
                let now = self.history();
                assert(now[start] == log[start]);
                assert(now[start + 1] == log2[start + 1]);
            }
            match end {
                Ok(_) => Err(Self::resolve_controller_error(error_code)),
                Err(e) => Err(SynScanError::CommunicationError(e)),
            }
        } else {
            Err(SynScanError::CommunicationError(IoError::InvalidData))
        }
    }

    /// Sends `cmd` with the payload `bytes` to `channel` and reads the
    /// response.
    ///
    /// The frame is the query byte, the command, the channel's byte, the
    /// payload and the termination byte. A write that fails ends the round
    /// trip with the transport's error; nothing is read after it.
    pub fn raw_send_cmd<C: Channel>(&mut self, cmd: u8, channel: C, bytes: &[u8]) -> (r:
        SynScanResult<Vec<u8>>)
        ensures
            is_exchange(
                old(self).history(),
                final(self).history(),
                frame(cmd, channel.wire_byte(), bytes@),
            ),
            payload_view(r) == outcome_of(
                old(self).history(),
                final(self).history(),
                frame(cmd, channel.wire_byte(), bytes@),
            ),
    {
        let mut full_cmd: Vec<u8> = Vec::new();
        full_cmd.push(QUERY_BYTE);
        full_cmd.push(cmd);
        full_cmd.push(channel.get_byte());
        full_cmd.extend_from_slice(bytes);
        full_cmd.push(TERMINATION_BYTE);
        assert(full_cmd@ == frame(cmd, channel.wire_byte(), bytes@));
        let ghost before = self.history();
        let written = self.line.write_all(full_cmd.as_slice());
        let ghost log = self.history();
        match written {
            Ok(_) => {
                let r = self.read_response();
                proof {
                    assert(self.history()[before.len() as int] == log[before.len() as int]);
                }
                r
            },
            Err(e) => Err(SynScanError::CommunicationError(e)),
        }
    }

    /// Inquires the mount for bytes. An inquiry is owed at least one byte:
    /// an empty payload is a data error.
    pub fn inquire_bytes<C: Channel>(&mut self, cmd: u8, channel: C) -> (r: SynScanResult<Vec<u8>>)
        ensures
            is_exchange(
                old(self).history(),
                final(self).history(),
                frame(cmd, channel.wire_byte(), Seq::empty()),
            ),
            payload_view(r) == answered(
                outcome_of(
                    old(self).history(),
                    final(self).history(),
                    frame(cmd, channel.wire_byte(), Seq::empty()),
                ),
            ),
    {
        let nothing: Vec<u8> = Vec::new();
        let response = self.raw_send_cmd(cmd, channel, nothing.as_slice())?;
        if response.len() == 0 {
            Err(SynScanError::CommunicationError(IoError::InvalidData))
        } else {
            Ok(response)
        }
    }

    /// Inquires the mount for a number.
    pub fn inquire_number<C: Channel>(&mut self, cmd: u8, channel: C) -> (r: SynScanResult<u32>)
        ensures
            is_exchange(
                old(self).history(),
                final(self).history(),
                frame(cmd, channel.wire_byte(), Seq::empty()),
            ),
            r == number_answered(
                outcome_of(
                    old(self).history(),
                    final(self).history(),
                    frame(cmd, channel.wire_byte(), Seq::empty()),
                ),
            ),
    {
        let payload = self.inquire_bytes(cmd, channel)?;
        bytes_to_number(payload)
    }

    /// Sends a command with `bytes` as the payload. The payload of the
    /// response, if any, is dropped.
    pub fn send_cmd_bytes<C: Channel>(&mut self, cmd: u8, channel: C, bytes: &[u8]) -> (r:
        SynScanResult<()>)
        ensures
            is_exchange(
                old(self).history(),
                final(self).history(),
                frame(cmd, channel.wire_byte(), bytes@),
            ),
            r == acknowledged(
                outcome_of(
                    old(self).history(),
                    final(self).history(),
                    frame(cmd, channel.wire_byte(), bytes@),
                ),
            ),
    {
        self.raw_send_cmd(cmd, channel, bytes)?;
        Ok(())
    }

    /// Sends a command with a number as the payload, in `num_bytes` digits.
    pub fn send_cmd_number<C: Channel>(
        &mut self,
        cmd: u8,
        channel: C,
        number: u32,
        num_bytes: usize,
    ) -> (r: SynScanResult<()>)
        requires
            is_width(num_bytes as nat),
        ensures
            is_exchange(
                old(self).history(),
                final(self).history(),
                frame(cmd, channel.wire_byte(), wire_digits(number as nat, num_bytes as nat)),
            ),
            r == acknowledged(
                outcome_of(
                    old(self).history(),
                    final(self).history(),
                    frame(cmd, channel.wire_byte(), wire_digits(number as nat, num_bytes as nat)),
                ),
            ),
    {
        let payload = number_to_bytes(number, num_bytes);
        self.send_cmd_bytes(cmd, channel, payload.as_slice())
    }

    /// Sends a command without a payload.
    pub fn send_cmd<C: Channel>(&mut self, cmd: u8, channel: C) -> (r: SynScanResult<()>)
        ensures
            is_exchange(
                old(self).history(),
                final(self).history(),
                frame(cmd, channel.wire_byte(), Seq::empty()),
            ),
            r == acknowledged(
                outcome_of(
                    old(self).history(),
                    final(self).history(),
                    frame(cmd, channel.wire_byte(), Seq::empty()),
                ),
            ),
    {
        let nothing: Vec<u8> = Vec::new();
        self.send_cmd_bytes(cmd, channel, nothing.as_slice())
    }
}

} // verus!
