//! What one round trip looks like in the record of a line: a frame written,
//! then the bytes of the response read one at a time until the response is
//! complete or has gone wrong.

use crate::commands::{
    CODE_COMMAND_LENGTH, CODE_DRIVER_SLEEPING, CODE_INVALID_CHARACTER, CODE_MOTOR_NOT_STOPPED,
    CODE_NOT_INITIALIZED, CODE_NO_VALID_PEC_DATA, CODE_PEC_TRAINING_RUNNING,
    CODE_UNKNOWN_COMMAND, ERROR_BYTE, MAX_VALID_RESPONSE, QUERY_BYTE, SUCCESS_BYTE,
    TERMINATION_BYTE,
};
use crate::result::{invalid_data, timed_out, IoError, SynScanError, SynScanResult};
use crate::serial_port::Transfer;
use vstd::prelude::*;

verus! {

/// The frame that carries command `cmd` with `payload` to `channel`.
pub open spec fn frame(cmd: u8, channel: u8, payload: Seq<u8>) -> Seq<u8> {
    seq![QUERY_BYTE, cmd, channel] + payload + seq![TERMINATION_BYTE]
}

/// The error that the controller reports with `code`. A code without a
/// meaning, such as `6`, counts as a malformed response.
pub open spec fn controller_error(code: u8) -> SynScanError {
    if code == CODE_UNKNOWN_COMMAND {
        SynScanError::UnknownCommand
    } else if code == CODE_COMMAND_LENGTH {
        SynScanError::CommandLengthError
    } else if code == CODE_MOTOR_NOT_STOPPED {
        SynScanError::MotorNotStopped
    } else if code == CODE_INVALID_CHARACTER {
        SynScanError::InvalidCharacter
    } else if code == CODE_NOT_INITIALIZED {
        SynScanError::NotInitialized
    } else if code == CODE_DRIVER_SLEEPING {
        SynScanError::DriverSleeping
    } else if code == CODE_PEC_TRAINING_RUNNING {
        SynScanError::PECTrainingRunning
    } else if code == CODE_NO_VALID_PEC_DATA {
        SynScanError::NoValidPECData
    } else {
        invalid_data()
    }
}

/// What a read means to the protocol: a byte, or the reason why there is
/// none. A read that ended with nothing is a timeout.
pub open spec fn received(outcome: Result<Option<u8>, IoError>) -> Result<u8, IoError> {
    match outcome {
        Ok(Some(byte)) => Ok(byte),
        Ok(None) => Err(IoError::TimedOut),
        Err(e) => Err(e),
    }
}

/// What the read at place `at` of `log` gave, if a read stands there.
pub open spec fn read_at(log: Seq<Transfer>, at: int) -> Option<Result<u8, IoError>> {
    if 0 <= at < log.len() && log[at] is Read {
        Some(received(log[at]->byte))
    } else {
        None
    }
}

/// How a part of a round trip ended and where in the record it ended:
/// `end` is the place after its last transfer.
pub struct Exchange {
    pub outcome: SynScanResult<Seq<u8>>,
    pub end: int,
}

/// An exchange that failed on the line with `e` at place `at`.
pub open spec fn broken(e: IoError, at: int) -> Exchange {
    Exchange { outcome: Err(SynScanError::CommunicationError(e)), end: at + 1 }
}

/// The rest of a response with a payload, read from place `at` on, after the
/// bytes `got` of the payload. The payload ends at the termination byte; a
/// seventh byte that is no termination byte makes the response malformed,
/// and nothing more is read.
pub open spec fn payload_at(log: Seq<Transfer>, at: int, got: Seq<u8>) -> Option<Exchange>
    decreases log.len() - at,
{
    match read_at(log, at) {
        None => None,
        Some(Err(e)) => Some(broken(e, at)),
        Some(Ok(byte)) => if byte == TERMINATION_BYTE {
            Some(Exchange { outcome: Ok(got), end: at + 1 })
        } else if got.len() < MAX_VALID_RESPONSE {
            payload_at(log, at + 1, got.push(byte))
        } else {
            Some(broken(IoError::InvalidData, at))
        },
    }
}

/// The rest of a response with an error code, read from place `at` on: the
/// code, then the termination byte.
pub open spec fn error_code_at(log: Seq<Transfer>, at: int) -> Option<Exchange> {
    match read_at(log, at) {
        None => None,
        Some(Err(e)) => Some(broken(e, at)),
        Some(Ok(code)) => match read_at(log, at + 1) {
            None => None,
            Some(Err(e)) => Some(broken(e, at + 1)),
            Some(Ok(byte)) => if byte == TERMINATION_BYTE {
                Some(Exchange { outcome: Err(controller_error(code)), end: at + 2 })
            } else {
                Some(broken(IoError::InvalidData, at + 1))
            },
        },
    }
}

/// The response read from place `at` of `log` on, if the reads that make up
/// one response stand there.
pub open spec fn response_at(log: Seq<Transfer>, at: int) -> Option<Exchange> {
    match read_at(log, at) {
        None => None,
        Some(Err(e)) => Some(broken(e, at)),
        Some(Ok(byte)) => if byte == SUCCESS_BYTE {
            payload_at(log, at + 1, Seq::empty())
        } else if byte == ERROR_BYTE {
            error_code_at(log, at + 1)
        } else {
            Some(broken(IoError::InvalidData, at))
        },
    }
}

/// The round trip that starts at place `at` of `log`, if one for `sent`
/// stands there: the write of `sent` and, unless the write failed, the reads
/// of one response.
pub open spec fn exchange_at(log: Seq<Transfer>, at: int, sent: Seq<u8>) -> Option<Exchange> {
    if 0 <= at < log.len() && log[at] is Write && log[at]->bytes == sent {
        match log[at]->outcome {
            Err(e) => Some(broken(e, at)),
            Ok(_) => response_at(log, at + 1),
        }
    } else {
        None
    }
}

/// Whether the record grew from `before` to `after` by exactly one round
/// trip for `sent`.
pub open spec fn is_exchange(before: Seq<Transfer>, after: Seq<Transfer>, sent: Seq<u8>) -> bool {
    &&& before.is_prefix_of(after)
    &&& exchange_at(after, before.len() as int, sent) matches Some(x)
    &&& x.end == after.len()
}

/// How the round trip for `sent` that `after` adds to `before` ended.
pub open spec fn outcome_of(
    before: Seq<Transfer>,
    after: Seq<Transfer>,
    sent: Seq<u8>,
) -> SynScanResult<Seq<u8>>
    recommends
        is_exchange(before, after, sent),
{
    exchange_at(after, before.len() as int, sent)->0.outcome
}

/// What a command makes of a round trip: success whatever the payload.
pub open spec fn acknowledged(outcome: SynScanResult<Seq<u8>>) -> SynScanResult<()> {
    match outcome {
        Ok(_) => Ok(()),
        Err(e) => Err(e),
    }
}

/// What an inquiry makes of a round trip: the payload, which must not be
/// empty.
pub open spec fn answered(outcome: SynScanResult<Seq<u8>>) -> SynScanResult<Seq<u8>> {
    match outcome {
        Ok(payload) => if payload.len() == 0 {
            Err(invalid_data())
        } else {
            Ok(payload)
        },
        Err(e) => Err(e),
    }
}

/// What has been read stays read: a payload found in a record is found, the
/// same, in every record that continues it.
pub proof fn lemma_payload_stable(log: Seq<Transfer>, longer: Seq<Transfer>, at: int, got: Seq<u8>)
    requires
        log.is_prefix_of(longer),
        payload_at(log, at, got) is Some,
    ensures
        payload_at(longer, at, got) == payload_at(log, at, got),
    decreases log.len() - at,
{
    assert(longer[at] == log[at]);
    match read_at(log, at) {
        Some(Ok(byte)) => {
            if byte != TERMINATION_BYTE && got.len() < MAX_VALID_RESPONSE {
                lemma_payload_stable(log, longer, at + 1, got.push(byte));
            }
        },
        _ => {},
    }
}

/// A response found in a record is found, the same, in every record that
/// continues it.
pub proof fn lemma_response_stable(log: Seq<Transfer>, longer: Seq<Transfer>, at: int)
    requires
        log.is_prefix_of(longer),
        response_at(log, at) is Some,
    ensures
        response_at(longer, at) == response_at(log, at),
{
    assert(longer[at] == log[at]);
    match read_at(log, at) {
        Some(Ok(byte)) => {
            if byte == SUCCESS_BYTE {
                lemma_payload_stable(log, longer, at + 1, Seq::empty());
            } else if byte == ERROR_BYTE {
                assert(longer[at + 1] == log[at + 1]);
                match read_at(log, at + 1) {
                    Some(Ok(_)) => {
                        assert(longer[at + 2] == log[at + 2]);
                    },
                    _ => {},
                }
            }
        },
        _ => {},
    }
}

/// A round trip found in a record is found, the same, in every record that
/// continues it.
pub proof fn lemma_exchange_stable(
    log: Seq<Transfer>,
    longer: Seq<Transfer>,
    at: int,
    sent: Seq<u8>,
)
    requires
        log.is_prefix_of(longer),
        exchange_at(log, at, sent) is Some,
    ensures
        exchange_at(longer, at, sent) == exchange_at(log, at, sent),
{
    assert(longer[at] == log[at]);
    if log[at]->outcome is Ok {
        lemma_response_stable(log, longer, at + 1);
    }
}

/// A payload never grows beyond the most that a response may carry.
pub proof fn lemma_payload_bound(log: Seq<Transfer>, at: int, got: Seq<u8>)
    requires
        got.len() <= MAX_VALID_RESPONSE,
    ensures
        payload_at(log, at, got) matches Some(x) ==> (x.outcome matches Ok(payload)
            ==> payload.len() <= MAX_VALID_RESPONSE),
    decreases log.len() - at,
{
    match read_at(log, at) {
        Some(Ok(byte)) => {
            if byte != TERMINATION_BYTE && got.len() < MAX_VALID_RESPONSE {
                lemma_payload_bound(log, at + 1, got.push(byte));
            }
        },
        _ => {},
    }
}

/// The payload that a round trip gives has at most six bytes.
pub proof fn lemma_payload_length(before: Seq<Transfer>, after: Seq<Transfer>, sent: Seq<u8>)
    requires
        is_exchange(before, after, sent),
    ensures
        outcome_of(before, after, sent) matches Ok(payload) ==> payload.len()
            <= MAX_VALID_RESPONSE,
{
    lemma_payload_bound(after, (before.len() + 2) as int, Seq::empty());
}

/// A payload is complete, or has gone wrong, after at most seven more reads,
/// less one for each byte that it holds already.
pub proof fn lemma_payload_ends(log: Seq<Transfer>, at: int, got: Seq<u8>)
    requires
        got.len() <= MAX_VALID_RESPONSE,
    ensures
        payload_at(log, at, got) matches Some(x) ==> at < x.end <= at + 1 + MAX_VALID_RESPONSE
            - got.len(),
    decreases log.len() - at,
{
    match read_at(log, at) {
        Some(Ok(byte)) => {
            if byte != TERMINATION_BYTE && got.len() < MAX_VALID_RESPONSE {
                lemma_payload_ends(log, at + 1, got.push(byte));
            }
        },
        _ => {},
    }
}

/// A round trip is over after one write and at most eight reads: nothing is
/// read beyond the end of a response, and a response that has gone wrong is
/// not read to its end.
pub proof fn lemma_exchange_ends(before: Seq<Transfer>, after: Seq<Transfer>, sent: Seq<u8>)
    requires
        is_exchange(before, after, sent),
    ensures
        before.len() + 1 <= after.len() <= before.len() + 9,
{
    lemma_payload_ends(after, (before.len() + 2) as int, Seq::empty());
}

/// The reads that deliver `bytes`, one read for each byte.
pub open spec fn reads_of(bytes: Seq<u8>) -> Seq<Transfer> {
    Seq::new(bytes.len(), |i: int| Transfer::Read { byte: Ok(Some(bytes[i])) })
}

/// Whether, from place `at` on, `log` holds a write of `sent` that went
/// well and after it the reads that deliver `response`.
pub open spec fn holds_round_trip(
    log: Seq<Transfer>,
    at: int,
    sent: Seq<u8>,
    response: Seq<u8>,
) -> bool {
    &&& 0 <= at
    &&& at + 1 + response.len() <= log.len()
    &&& log[at] == Transfer::Write { bytes: sent, outcome: Ok(()) }
    &&& log.subrange(at + 1, at + 1 + response.len()) == reads_of(response)
}

/// A response of an error byte, a code and the termination byte is the
/// error that the code stands for; a code without a meaning is a data error.
pub proof fn lemma_error_response(log: Seq<Transfer>, at: int, sent: Seq<u8>, code: u8)
    requires
        holds_round_trip(log, at, sent, seq![ERROR_BYTE, code, TERMINATION_BYTE]),
    ensures
        exchange_at(log, at, sent) == Some(
            Exchange { outcome: Err(controller_error(code)), end: at + 4 },
        ),
{
    let response = seq![ERROR_BYTE, code, TERMINATION_BYTE];
    let reads = log.subrange(at + 1, at + 4);
    assert(log[at + 1] == reads[0] && reads[0] == reads_of(response)[0]);
    assert(log[at + 2] == reads[1] && reads[1] == reads_of(response)[1]);
    assert(log[at + 3] == reads[2] && reads[2] == reads_of(response)[2]);
}

/// Once the first `k` bytes of a payload have been read, the rest of the
/// payload and the termination byte complete it.
proof fn lemma_payload_completes(log: Seq<Transfer>, from: int, payload: Seq<u8>, k: int)
    requires
        0 <= from,
        0 <= k <= payload.len() <= MAX_VALID_RESPONSE,
        from + payload.len() < log.len(),
        forall|i: int| 0 <= i < payload.len() ==> #[trigger] payload[i] != TERMINATION_BYTE,
        forall|i: int|
            0 <= i < payload.len() ==> #[trigger] log[from + i] == (Transfer::Read {
                byte: Ok(Some(payload[i])),
            }),
        log[from + payload.len()] == (Transfer::Read { byte: Ok(Some(TERMINATION_BYTE)) }),
    ensures
        payload_at(log, from + k, payload.take(k)) == Some(
            Exchange { outcome: Ok(payload), end: from + payload.len() + 1 },
        ),
    decreases payload.len() - k,
{
    if k == payload.len() {
        assert(payload.take(k) == payload);
    } else {
        assert(log[from + k] == (Transfer::Read { byte: Ok(Some(payload[k])) }));
        assert(payload.take(k).push(payload[k]) == payload.take(k + 1));
        lemma_payload_completes(log, from, payload, k + 1);
    }
}

/// A response of a success byte, at most six bytes none of which is the
/// termination byte, and the termination byte gives those bytes as payload.
pub proof fn lemma_payload_response(log: Seq<Transfer>, at: int, sent: Seq<u8>, payload: Seq<u8>)
    requires
        payload.len() <= MAX_VALID_RESPONSE,
        forall|i: int| 0 <= i < payload.len() ==> #[trigger] payload[i] != TERMINATION_BYTE,
        holds_round_trip(log, at, sent, seq![SUCCESS_BYTE] + payload + seq![TERMINATION_BYTE]),
    ensures
        exchange_at(log, at, sent) == Some(
            Exchange { outcome: Ok(payload), end: at + 3 + payload.len() },
        ),
{
    let response = seq![SUCCESS_BYTE] + payload + seq![TERMINATION_BYTE];
    let reads = log.subrange(at + 1, at + 1 + response.len());
    assert forall|i: int| 0 <= i < response.len() implies #[trigger] log[at + 1 + i]
        == (Transfer::Read { byte: Ok(Some(response[i])) }) by {
        assert(log[at + 1 + i] == reads[i] && reads[i] == reads_of(response)[i]);
    }
    assert(log[at + 1] == (Transfer::Read { byte: Ok(Some(SUCCESS_BYTE)) })) by {
        assert(log[at + 1 + 0] == (Transfer::Read { byte: Ok(Some(response[0])) }));
    }
    assert forall|i: int| 0 <= i < payload.len() implies #[trigger] log[at + 2 + i]
        == (Transfer::Read { byte: Ok(Some(payload[i])) }) by {
        assert(log[at + 1 + (i + 1)] == (Transfer::Read { byte: Ok(Some(response[i + 1])) }));
    }
    assert(log[at + 2 + payload.len()] == (Transfer::Read {
        byte: Ok(Some(TERMINATION_BYTE)),
    })) by {
        let last = (payload.len() + 1) as int;
        assert(log[at + 1 + last] == (Transfer::Read { byte: Ok(Some(response[last])) }));
    }
    lemma_payload_completes(log, at + 2, payload, 0);
    assert(payload.take(0) == Seq::<u8>::empty());
}

/// A read that ends with nothing where a response should begin is a
/// timeout.
pub proof fn lemma_no_response(log: Seq<Transfer>, at: int, sent: Seq<u8>)
    requires
        0 <= at,
        at + 1 < log.len(),
        log[at] == (Transfer::Write { bytes: sent, outcome: Ok(()) }),
        log[at + 1] == (Transfer::Read { byte: Ok(None) }),
    ensures
        exchange_at(log, at, sent) == Some(Exchange { outcome: Err(timed_out()), end: at + 2 }),
{
}

} // verus!
