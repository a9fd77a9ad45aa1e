//! A port for tests: its responses are given beforehand, and what is written
//! to it can be read back.

use crate::channels::Channel;
use crate::commands::{ERROR_BYTE, SUCCESS_BYTE, TERMINATION_BYTE};
use crate::exchange::frame;
use crate::result::IoError;
use crate::serial_port::SerialPort;
use vstd::prelude::*;

verus! {

/// A mock implementation of a serial port where the response is manually
/// given and the written bytes can be read.
///
/// When a byte is asked of it and none is left, it answers with an empty
/// acknowledgement, so that a test of a command need not give one.
pub struct MockSynScanPort {
    bytes_written: Vec<u8>,
    bytes_to_read: Vec<u8>,
}

/// Whether two runs of bytes are the same.
pub fn same_bytes(a: &[u8], b: &[u8]) -> (same: bool)
    ensures
        same == (a@ == b@),
{
    if a.len() != b.len() {
        return false;
    }
    let mut i: usize = 0;
    while i < a.len()
        invariant
            a.len() == b.len(),
            i <= a.len(),
            forall|j: int| 0 <= j < i ==> a[j] == b[j],
        decreases a.len() - i,
    {
        if a[i] != b[i] {
            return false;
        }
        i += 1;
    }
    assert(a@ =~= b@);
    true
}

impl MockSynScanPort {
    /// The bytes written to the port and not yet checked, oldest first.
    pub closed spec fn written(&self) -> Seq<u8> {
        self.bytes_written@
    }

    /// The bytes that the port still holds for reading, next one first.
    pub closed spec fn to_read(&self) -> Seq<u8> {
        self.bytes_to_read@
    }

    /// The bytes that reads will give from now on, as far as they are known:
    /// what the port holds, or an empty acknowledgement if it holds nothing.
    pub open spec fn upcoming(&self) -> Seq<u8> {
        if self.to_read().len() == 0 {
            seq![SUCCESS_BYTE, TERMINATION_BYTE]
        } else {
            self.to_read()
        }
    }

    /// A port that holds nothing and has seen nothing.
    pub fn new() -> (port: MockSynScanPort)
        ensures
            port.written() == Seq::<u8>::empty(),
            port.to_read() == Seq::<u8>::empty(),
    {
        MockSynScanPort { bytes_written: Vec::with_capacity(40), bytes_to_read: Vec::with_capacity(40) }
    }

    /// Gives the port `buf` to be read, after what it holds already.
    pub fn add_response(&mut self, buf: &[u8])
        ensures
            final(self).to_read() == old(self).to_read() + buf@,
            final(self).written() == old(self).written(),
    {
        self.bytes_to_read.extend_from_slice(buf)
    }

    /// Gives the port an acknowledgement without a payload.
    pub fn add_ok(&mut self)
        ensures
            final(self).to_read() == old(self).to_read() + seq![SUCCESS_BYTE, TERMINATION_BYTE],
            final(self).written() == old(self).written(),
    {
        let nothing: Vec<u8> = Vec::new();
        self.add_valid_response(nothing.as_slice())
    }

    /// Gives the port a response that carries the payload `buf`.
    pub fn add_valid_response(&mut self, buf: &[u8])
        ensures
            final(self).to_read() == old(self).to_read() + seq![SUCCESS_BYTE] + buf@
                + seq![TERMINATION_BYTE],
            final(self).written() == old(self).written(),
    {
        self.bytes_to_read.push(SUCCESS_BYTE);
        self.bytes_to_read.extend_from_slice(buf);
        self.bytes_to_read.push(TERMINATION_BYTE);
    }

    /// Gives the port a response that carries the error code `error_byte`.
    pub fn add_error_response(&mut self, error_byte: u8)
        ensures
            final(self).to_read() == old(self).to_read() + seq![
                ERROR_BYTE,
                error_byte,
                TERMINATION_BYTE,
            ],
            final(self).written() == old(self).written(),
    {
        self.bytes_to_read.push(ERROR_BYTE);
        self.bytes_to_read.push(error_byte);
        self.bytes_to_read.push(TERMINATION_BYTE);
    }

    /// The bytes written to the port and not yet checked.
    pub fn get_written_bytes(&self) -> (bytes: &Vec<u8>)
        ensures
            bytes@ == self.written(),
    {
        &self.bytes_written
    }

    /// Tells whether what was written is exactly the frame of `command` for
    /// `channel` without a payload, and forgets what was written.
    pub fn check_correct<C: Channel>(&mut self, command: u8, channel: C) -> (correct: bool)
        ensures
            correct == (old(self).written() == frame(command, channel.wire_byte(), Seq::empty())),
            final(self).written() == Seq::<u8>::empty(),
            final(self).to_read() == old(self).to_read(),
    {
        let nothing: Vec<u8> = Vec::new();
        self.check_correct_query_written(command, channel, nothing.as_slice())
    }

    /// Tells whether what was written is exactly the frame of `command` for
    /// `channel` with the payload `buf`, and forgets what was written.
    pub fn check_correct_query_written<C: Channel>(
        &mut self,
        command: u8,
        channel: C,
        buf: &[u8],
    ) -> (correct: bool)
        ensures
            correct == (old(self).written() == frame(command, channel.wire_byte(), buf@)),
            final(self).written() == Seq::<u8>::empty(),
            final(self).to_read() == old(self).to_read(),
    {
        let mut correct: Vec<u8> = Vec::new();
        correct.push(crate::commands::QUERY_BYTE);
        correct.push(command);
        correct.push(channel.get_byte());
        correct.extend_from_slice(buf);
        correct.push(TERMINATION_BYTE);
        assert(correct@ == frame(command, channel.wire_byte(), buf@));
        let same = same_bytes(self.bytes_written.as_slice(), correct.as_slice());
        self.bytes_written.clear();
        same
    }
}

impl SerialPort for MockSynScanPort {
    /// Gives the next byte that the port holds. If it holds none, it first
    /// takes an empty acknowledgement in.
    fn read(&mut self) -> (r: Result<Option<u8>, IoError>)
        ensures
            r == Ok::<Option<u8>, IoError>(Some(old(self).upcoming()[0])),
            final(self).to_read() == old(self).upcoming().skip(1),
            final(self).written() == old(self).written(),
    {
        if self.bytes_to_read.len() == 0 {
            self.bytes_to_read.push(SUCCESS_BYTE);
            self.bytes_to_read.push(TERMINATION_BYTE);
        }
        let byte = self.bytes_to_read.remove(0);
        assert(self.bytes_to_read@ == old(self).upcoming().skip(1));
        Ok(Some(byte))
    }

    /// Takes `bytes` as written. This never fails.
    fn write_all(&mut self, bytes: &[u8]) -> (r: Result<(), IoError>)
        ensures
            r == Ok::<(), IoError>(()),
            final(self).written() == old(self).written() + bytes@,
            final(self).to_read() == old(self).to_read(),
    {
        self.bytes_written.extend_from_slice(bytes);
        Ok(())
    }
}

impl Default for MockSynScanPort {
    fn default() -> (port: Self)
        ensures
            port.written() == Seq::<u8>::empty(),
            port.to_read() == Seq::<u8>::empty(),
    {
        MockSynScanPort::new()
    }
}

} // verus!
