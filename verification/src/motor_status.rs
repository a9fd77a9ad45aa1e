//! The state that the controller reports for an axis.

use crate::codec::{digit_value, is_upper_hex_digit, upper_hex_digit_value};
use crate::direction::Direction;
use crate::drive_mode::DriveMode;
use crate::exchange::answered;
use crate::result::{invalid_data, IoError, SynScanError, SynScanResult};
use vstd::prelude::*;

verus! {

/// A snapshot of the state of one axis.
#[derive(Debug, Copy, Clone, Eq, PartialEq, Structural)]
pub struct MotorStatus {
    pub mode: DriveMode,
    pub direction: Direction,
    pub fast: bool,
    pub running: bool,
    pub blocked: bool,
    pub inited: bool,
    pub level_switch: bool,
}

/// Whether bit 0, the lowest, is set in `value`.
pub open spec fn bit0(value: nat) -> bool {
    value % 2 == 1
}

/// Whether bit 1 is set in `value`.
pub open spec fn bit1(value: nat) -> bool {
    (value / 2) % 2 == 1
}

/// Whether bit 2 is set in `value`.
pub open spec fn bit2(value: nat) -> bool {
    (value / 4) % 2 == 1
}

/// Whether `payload` is a status report: three hexadecimal digits as the
/// controller writes them.
pub open spec fn is_status(payload: Seq<u8>) -> bool {
    &&& payload.len() == 3
    &&& forall|i: int| 0 <= i < payload.len() ==> is_upper_hex_digit(#[trigger] payload[i])
}

/// The state that a status report stands for. Each digit is a field of
/// bits: in the first, bit 0 says tracking, bit 1 counterclockwise and bit 2
/// fast; in the second, bit 0 says running and bit 1 blocked; in the third,
/// bit 0 says initialized and bit 1 that the level switch is on.
pub open spec fn status_of(payload: Seq<u8>) -> MotorStatus
    recommends
        is_status(payload),
{
    MotorStatus {
        mode: if bit0(digit_value(payload[0])) {
            DriveMode::Tracking
        } else {
            DriveMode::Goto
        },
        direction: if bit1(digit_value(payload[0])) {
            Direction::CounterClockwise
        } else {
            Direction::Clockwise
        },
        fast: bit2(digit_value(payload[0])),
        running: bit0(digit_value(payload[1])),
        blocked: bit1(digit_value(payload[1])),
        inited: bit0(digit_value(payload[2])),
        level_switch: bit1(digit_value(payload[2])),
    }
}

/// What reading a payload as a status report gives: the state, or a data
/// error where the payload is no status report.
pub open spec fn status_decoded(payload: Seq<u8>) -> SynScanResult<MotorStatus> {
    if is_status(payload) {
        Ok(status_of(payload))
    } else {
        Err(invalid_data())
    }
}

/// What an inquiry for the status makes of a round trip.
pub open spec fn status_answered(outcome: SynScanResult<Seq<u8>>) -> SynScanResult<MotorStatus> {
    match answered(outcome) {
        Ok(payload) => status_decoded(payload),
        Err(e) => Err(e),
    }
}

impl MotorStatus {
    /// The report of the state in words, on three lines, or four for an axis
    /// that is blocked.
    pub open spec fn text(self) -> Seq<char> {
        (if self.inited {
            ""@
        } else {
            "Not "@
        }) + "Inited\n"@ + (if self.blocked {
            "Blocked!!!\n"@
        } else {
            ""@
        }) + self.mode.text() + " "@ + self.direction.text() + " "@ + (if self.running {
            "Running"@
        } else {
            "Stopped"@
        }) + " ("@ + (if self.fast {
            "Fast"@
        } else {
            "Slow"@
        }) + ")\n"@ + "Level Switch: "@ + (if self.level_switch {
            "true"@
        } else {
            "false"@
        })
    }

    /// Describes the state in words.
    pub fn description(&self) -> (text: String)
        ensures
            text@ == self.text(),
    {
        let mut text = String::from_str(
            if self.inited {
                ""
            } else {
                "Not "
            },
        );
        text.append("Inited\n");
        text.append(
            if self.blocked {
                "Blocked!!!\n"
            } else {
                ""
            },
        );
        text.append(self.mode.description().as_str());
        text.append(" ");
        text.append(self.direction.description().as_str());
        text.append(" ");
        text.append(
            if self.running {
                "Running"
            } else {
                "Stopped"
            },
        );
        text.append(" (");
        text.append(
            if self.fast {
                "Fast"
            } else {
                "Slow"
            },
        );
        text.append(")\n");
        text.append("Level Switch: ");
        text.append(
            if self.level_switch {
                "true"
            } else {
                "false"
            },
        );
        text
    }

    /// Reads the payload of a status response.
    pub fn from_bytes(data: &[u8]) -> (r: SynScanResult<MotorStatus>)
        ensures
            r == status_decoded(data@),
    {
        let mut bytes: Vec<u8> = Vec::new();
        let mut i: usize = 0;
        while i < data.len()
            invariant
                i <= data.len(),
                bytes.len() == i,
                forall|j: int| 0 <= j < i ==> is_upper_hex_digit(#[trigger] data[j]),
                forall|j: int| 0 <= j < i ==> #[trigger] bytes[j] == digit_value(data[j]),
                forall|j: int| 0 <= j < i ==> #[trigger] bytes[j] < 16,
            decreases data.len() - i,
        {
            match upper_hex_digit_value(data[i]) {
                Some(value) => {
                    bytes.push(value);
                },
                None => {
                    return Err(SynScanError::CommunicationError(IoError::InvalidData));
                },
            }
            i += 1;
        }
        if bytes.len() != 3 {
            return Err(SynScanError::CommunicationError(IoError::InvalidData));
        }
        let first: u8 = bytes[0];
        let second: u8 = bytes[1];
        let third: u8 = bytes[2];
        assert((first & 0x1 != 0) == bit0(first as nat)) by (bit_vector);
        assert((first & 0x2 != 0) == bit1(first as nat)) by (bit_vector);
        assert((first & 0x4 != 0) == bit2(first as nat)) by (bit_vector)
            requires
                first < 16,
        ;
        assert((second & 0x1 != 0) == bit0(second as nat)) by (bit_vector);
        assert((second & 0x2 != 0) == bit1(second as nat)) by (bit_vector);
        assert((third & 0x1 != 0) == bit0(third as nat)) by (bit_vector);
        assert((third & 0x2 != 0) == bit1(third as nat)) by (bit_vector);
        Ok(
            MotorStatus {
                mode: if first & 0x1 != 0 {
                    DriveMode::Tracking
                } else {
                    DriveMode::Goto
                },
                direction: if first & 0x2 != 0 {
                    Direction::CounterClockwise
                } else {
                    Direction::Clockwise
                },
                fast: first & 0x4 != 0,
                running: second & 0x1 != 0,
                blocked: second & 0x2 != 0,
                inited: third & 0x1 != 0,
                level_switch: third & 0x2 != 0,
            },
        )
    }
}

} // verus!
