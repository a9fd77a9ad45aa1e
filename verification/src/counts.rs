//! Encoder counts, and how they stand on the wire.
//!
//! Positions and targets are counts relative to where the mount was
//! initialized. The controller keeps them in a 24-bit counter whose middle
//! stands for that place, so a count travels with the middle added to it.

use crate::codec::{
    is_hex_digit, lemma_decode_encode, lemma_hex_number_bound, pow16, unscrambled, wire_digits,
};
use crate::exchange::{is_exchange, lemma_payload_length, outcome_of};
use crate::result::{SynScanError, SynScanResult};
use crate::serial_port::Transfer;
use crate::synscan_port::number_answered;
use vstd::prelude::*;

verus! {

/// The middle of the controller's 24-bit counter: the count that stands for
/// the place where the mount was initialized.
pub const COUNT_ZERO: i32 = 0x800000;

/// The number that stands on the wire for the count `counts`.
pub open spec fn biased(counts: i32) -> nat
    recommends
        -COUNT_ZERO <= counts < COUNT_ZERO,
{
    (counts + COUNT_ZERO) as nat
}

/// What an inquiry for a count makes of a round trip: the number in the
/// payload, less the middle of the counter.
pub open spec fn count_answered(outcome: SynScanResult<Seq<u8>>) -> SynScanResult<i32> {
    match number_answered(outcome) {
        Ok(number) => Ok((number - COUNT_ZERO) as i32),
        Err(e) => Err(e),
    }
}

/// The count that a number read from the controller stands for.
pub fn count_of(number: u32) -> (counts: i32)
    requires
        number < 0x1000000,
    ensures
        counts == number - COUNT_ZERO,
{
    number as i32 - COUNT_ZERO
}

/// A number that answers an inquiry has at most six digits.
pub proof fn lemma_number_answered_bound(outcome: SynScanResult<Seq<u8>>)
    requires
        outcome matches Ok(payload) ==> payload.len() <= 6,
    ensures
        number_answered(outcome) matches Ok(number) ==> number < 0x1000000,
{
    match number_answered(outcome) {
        Ok(number) => {
            let payload = outcome->Ok_0;
            let digits = unscrambled(payload);
            assert forall|j: int| 0 <= j < digits.len() implies is_hex_digit(
                #[trigger] digits[j],
            ) by {
                let q = payload.len() - 2 - 2 * (j / 2) + j % 2;
                assert(is_hex_digit(payload[q]));
            }
            lemma_hex_number_bound(digits);
            assert(pow16(digits.len()) <= 0x1000000) by {
                reveal_with_fuel(pow16, 7);
            }
        },
        Err(_) => {},
    }
}

/// The number that answers an inquiry is below the end of the 24-bit counter.
pub proof fn lemma_count_in_reach(before: Seq<Transfer>, after: Seq<Transfer>, sent: Seq<u8>)
    requires
        is_exchange(before, after, sent),
    ensures
        number_answered(outcome_of(before, after, sent)) matches Ok(number) ==> number < 0x1000000,
{
    lemma_payload_length(before, after, sent);
    lemma_number_answered_bound(outcome_of(before, after, sent));
}

/// Both directions agree: the bytes that carry a count to the controller
/// are read back as that count.
pub proof fn lemma_count_round_trip(counts: i32)
    requires
        -COUNT_ZERO <= counts < COUNT_ZERO,
    ensures
        count_answered(Ok(wire_digits(biased(counts), 6))) == Ok::<i32, SynScanError>(counts),
{
    assert(pow16(6) == 0x1000000) by {
        reveal_with_fuel(pow16, 7);
    }
    lemma_decode_encode((counts + COUNT_ZERO) as u32, 6);
}

} // verus!
