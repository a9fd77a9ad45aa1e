//! The transport under the protocol, and the record of what went over it.

use crate::result::IoError;
use vstd::prelude::*;

verus! {

/// A serial port that the library can use: anything that delivers bytes one
/// at a time, with a timeout, and takes bytes reliably.
///
/// Nothing is promised of an implementation. What the library does with a
/// port is stated over the record that a [`Line`] keeps of each call and of
/// what came back.
pub trait SerialPort {
    /// Waits for the next byte. `Ok(None)` says that the wait ended with
    /// nothing read; it does not say that the stream has ended.
    fn read(&mut self) -> Result<Option<u8>, IoError>;

    /// Writes all of `bytes`, in order.
    fn write_all(&mut self, bytes: &[u8]) -> Result<(), IoError>;
}

/// One use of a port, as it went.
pub enum Transfer {
    /// `bytes` were handed to the port to be written, and the port answered
    /// with `outcome`.
    Write { bytes: Seq<u8>, outcome: Result<(), IoError> },
    /// The port was asked for a byte, and answered with `byte`.
    Read { byte: Result<Option<u8>, IoError> },
}

/// A port together with the record of every use made of it through this
/// value, oldest first. The record is ghost state: it costs nothing at run
/// time.
pub struct Line<T: SerialPort> {
    port: T,
    record: Ghost<Seq<Transfer>>,
}

impl<T: SerialPort> Line<T> {
    /// Every transfer made through this line so far.
    pub closed spec fn history(&self) -> Seq<Transfer> {
        self.record@
    }

    /// The port under the line.
    pub closed spec fn port(&self) -> T {
        self.port
    }

    /// A line over `port`, with nothing recorded yet.
    pub fn new(port: T) -> (line: Self)
        ensures
            line.history() == Seq::<Transfer>::empty(),
            line.port() == port,
    {
        Line { port, record: Ghost(Seq::empty()) }
    }

    /// Asks the port for one byte and records what it gave.
    pub fn read(&mut self) -> (byte: Result<Option<u8>, IoError>)
        ensures
            final(self).history() == old(self).history().push(Transfer::Read { byte }),
    {
        let byte = self.port.read();
        self.record = Ghost(self.record@.push(Transfer::Read { byte }));
        byte
    }

    /// Hands `bytes` to the port and records how the write ended.
    pub fn write_all(&mut self, bytes: &[u8]) -> (outcome: Result<(), IoError>)
        ensures
            final(self).history() == old(self).history().push(
                Transfer::Write { bytes: bytes@, outcome },
            ),
    {
        let outcome = self.port.write_all(bytes);
        self.record = Ghost(self.record@.push(Transfer::Write { bytes: bytes@, outcome }));
        outcome
    }

    /// The port itself. What is done to it directly is not recorded.
    pub fn port_mut(&mut self) -> (port: &mut T)
        ensures
            *port == old(self).port(),
            final(self).port() == *final(port),
            final(self).history() == old(self).history(),
    {
        &mut self.port
    }

    /// Gives the port back.
    pub fn into_port(self) -> (port: T)
        ensures
            port == self.port(),
    {
        self.port
    }
}

} // verus!
