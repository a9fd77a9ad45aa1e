//! What an operation can fail with.

use vstd::prelude::*;

verus! {

/// A failure on the line itself, as opposed to one that the controller
/// reported.
#[derive(Debug, PartialEq, Eq)]
pub enum IoError {
    /// A read came back with no byte: the transport gave up waiting.
    TimedOut,
    /// The bytes that arrived are not what the protocol allows at that place.
    InvalidData,
    /// The transport failed; the text is its own account of the failure.
    Transport(String),
}

/// Why an operation on the controller failed.
#[derive(Debug, PartialEq, Eq)]
pub enum SynScanError {
    UnknownCommand,
    CommandLengthError,
    MotorNotStopped,
    InvalidCharacter,
    NotInitialized,
    DriverSleeping,
    PECTrainingRunning,
    NoValidPECData,
    /// The exchange itself went wrong: nothing arrived in time, the response
    /// was malformed, or the transport failed.
    CommunicationError(IoError),
}

pub type SynScanResult<T> = Result<T, SynScanError>;

/// The error for a response that is not what the protocol allows.
pub open spec fn invalid_data() -> SynScanError {
    SynScanError::CommunicationError(IoError::InvalidData)
}

/// The error for a read that came back empty.
pub open spec fn timed_out() -> SynScanError {
    SynScanError::CommunicationError(IoError::TimedOut)
}

impl IoError {
    /// The words that describe the failure.
    pub open spec fn text(self) -> Seq<char> {
        match self {
            IoError::TimedOut => "timed out"@,
            IoError::InvalidData => "invalid data"@,
            IoError::Transport(message) => message@,
        }
    }

    /// Describes the failure in words. For a failure of the transport these
    /// are the transport's own.
    pub fn description(&self) -> (text: String)
        ensures
            text@ == self.text(),
    {
        match self {
            IoError::TimedOut => String::from_str("timed out"),
            IoError::InvalidData => String::from_str("invalid data"),
            IoError::Transport(message) => message.clone(),
        }
    }
}

impl SynScanError {
    /// The words that describe the error.
    pub open spec fn text(self) -> Seq<char> {
        match self {
            SynScanError::UnknownCommand => "Unknown Command"@,
            SynScanError::CommandLengthError => "Command Length Invalid"@,
            SynScanError::MotorNotStopped => "Motor Must be Stopped"@,
            SynScanError::InvalidCharacter => "Invalid Character"@,
            SynScanError::NotInitialized => "Controller Not Initialized"@,
            SynScanError::DriverSleeping => "Driver is Sleeping"@,
            SynScanError::PECTrainingRunning => "PEC Training is Running"@,
            SynScanError::NoValidPECData => "No Valid PEC Data"@,
            SynScanError::CommunicationError(e) => "Communication Error: "@ + e.text(),
        }
    }

    /// Describes the error in words: a fixed text for each error that the
    /// controller reports, and the account of the failure for an error on
    /// the line.
    pub fn description(&self) -> (text: String)
        ensures
            text@ == self.text(),
    {
        match self {
            SynScanError::UnknownCommand => String::from_str("Unknown Command"),
            SynScanError::CommandLengthError => String::from_str("Command Length Invalid"),
            SynScanError::MotorNotStopped => String::from_str("Motor Must be Stopped"),
            SynScanError::InvalidCharacter => String::from_str("Invalid Character"),
            SynScanError::NotInitialized => String::from_str("Controller Not Initialized"),
            SynScanError::DriverSleeping => String::from_str("Driver is Sleeping"),
            SynScanError::PECTrainingRunning => String::from_str("PEC Training is Running"),
            SynScanError::NoValidPECData => String::from_str("No Valid PEC Data"),
            SynScanError::CommunicationError(e) => {
                let detail = e.description();
                String::from_str("Communication Error: ").concat(detail.as_str())
            },
        }
    }
}

impl From<IoError> for SynScanError {
    /// A failure on the line is a communication error.
    fn from(e: IoError) -> (error: Self) {
        SynScanError::CommunicationError(e)
    }
}

impl vstd::std_specs::convert::FromSpecImpl<IoError> for SynScanError {
    open spec fn obeys_from_spec() -> bool {
        true
    }

    open spec fn from_spec(e: IoError) -> Self {
        SynScanError::CommunicationError(e)
    }
}

} // verus!
