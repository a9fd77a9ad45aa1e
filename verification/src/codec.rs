//! Numbers on the wire.
//!
//! A number travels as hexadecimal digits, two to a byte of the value, with
//! the pairs in reverse order: the least significant pair comes first. Within
//! a pair the more significant digit leads. `0x123456` is sent as `563412`.

use crate::result::{invalid_data, IoError, SynScanError, SynScanResult};
use vstd::prelude::*;

verus! {

/// `0`
pub const DIGIT_0: u8 = 0x30;

/// `9`
pub const DIGIT_9: u8 = 0x39;

/// `A`
pub const UPPER_A: u8 = 0x41;

/// `F`
pub const UPPER_F: u8 = 0x46;

/// `a`
pub const LOWER_A: u8 = 0x61;

/// `f`
pub const LOWER_F: u8 = 0x66;

/// Whether `c` is the character of a decimal digit.
pub open spec fn is_decimal_digit(c: u8) -> bool {
    DIGIT_0 <= c <= DIGIT_9
}

/// Whether `c` is a hexadecimal digit as the controller writes them: a
/// decimal digit or one of `A` to `F`.
pub open spec fn is_upper_hex_digit(c: u8) -> bool {
    is_decimal_digit(c) || UPPER_A <= c <= UPPER_F
}

/// Whether `c` is a hexadecimal digit in either case.
pub open spec fn is_hex_digit(c: u8) -> bool {
    is_upper_hex_digit(c) || LOWER_A <= c <= LOWER_F
}

/// The value of the hexadecimal digit `c`.
pub open spec fn digit_value(c: u8) -> nat
    recommends
        is_hex_digit(c),
{
    if is_decimal_digit(c) {
        (c - DIGIT_0) as nat
    } else if UPPER_A <= c <= UPPER_F {
        (c - UPPER_A + 10) as nat
    } else {
        (c - LOWER_A + 10) as nat
    }
}

/// The character, in upper case, of the hexadecimal digit with value `v`.
pub open spec fn digit_char(v: nat) -> u8
    recommends
        v < 16,
{
    if v < 10 {
        (DIGIT_0 + v) as u8
    } else {
        (UPPER_A + v - 10) as u8
    }
}

/// The `k`-th hexadecimal digit of `n`, counted from the least significant.
pub open spec fn nibble(n: nat, k: nat) -> nat
    decreases k,
{
    if k == 0 {
        n % 16
    } else {
        nibble(n / 16, (k - 1) as nat)
    }
}

/// The other position of the pair that position `p` belongs to.
pub open spec fn partner(p: int) -> int {
    if p % 2 == 0 {
        p + 1
    } else {
        p - 1
    }
}

/// Whether a payload of `width` bytes can carry a number: two, four and six
/// digits are the widths that commands use.
pub open spec fn is_width(width: nat) -> bool {
    width == 2 || width == 4 || width == 6
}

/// The `width` bytes that carry `n` on the wire. Digits of `n` beyond the
/// `width` least significant ones are left out.
pub open spec fn wire_digits(n: nat, width: nat) -> Seq<u8> {
    Seq::new(width, |p: int| digit_char(nibble(n, partner(p) as nat)))
}

/// The digits of a payload in reading order, most significant first: the
/// pairs of `wire` in reverse.
pub open spec fn unscrambled(wire: Seq<u8>) -> Seq<u8>
    recommends
        wire.len() % 2 == 0,
{
    Seq::new(wire.len(), |j: int| wire[wire.len() - 2 - 2 * (j / 2) + j % 2])
}

/// The number that `digits` spell in base 16, most significant digit first.
pub open spec fn hex_number(digits: Seq<u8>) -> nat
    decreases digits.len(),
{
    if digits.len() == 0 {
        0
    } else {
        hex_number(digits.drop_last()) * 16 + digit_value(digits.last())
    }
}

/// The number that a payload carries.
pub open spec fn wire_number(wire: Seq<u8>) -> nat {
    hex_number(unscrambled(wire))
}

/// Whether a payload carries a number: it is made of pairs of hexadecimal
/// digits, at least one pair, and what they spell fits in 32 bits.
pub open spec fn is_wire_number(wire: Seq<u8>) -> bool {
    &&& wire.len() > 0
    &&& wire.len() % 2 == 0
    &&& forall|i: int| 0 <= i < wire.len() ==> is_hex_digit(#[trigger] wire[i])
    &&& wire_number(wire) <= u32::MAX
}

/// What decoding a payload gives: its number, or a data error where it
/// carries none.
pub open spec fn decoded(wire: Seq<u8>) -> SynScanResult<u32> {
    if is_wire_number(wire) {
        Ok(wire_number(wire) as u32)
    } else {
        Err(invalid_data())
    }
}

/// The character of a hexadecimal digit.
pub fn hex_digit_char(v: u8) -> (c: u8)
    requires
        v < 16,
    ensures
        c == digit_char(v as nat),
        is_upper_hex_digit(c),
{
    if v < 10 {
        DIGIT_0 + v
    } else {
        UPPER_A + (v - 10)
    }
}

/// The value of a hexadecimal digit, or nothing for any other character.
pub fn hex_digit_value(c: u8) -> (v: Option<u8>)
    ensures
        v is Some <==> is_hex_digit(c),
        v matches Some(d) ==> d == digit_value(c) && d < 16,
{
    if DIGIT_0 <= c && c <= DIGIT_9 {
        Some(c - DIGIT_0)
    } else if UPPER_A <= c && c <= UPPER_F {
        Some(c - UPPER_A + 10)
    } else if LOWER_A <= c && c <= LOWER_F {
        Some(c - LOWER_A + 10)
    } else {
        None
    }
}

/// The value of a hexadecimal digit as the controller writes them, or
/// nothing for any other character.
pub fn upper_hex_digit_value(c: u8) -> (v: Option<u8>)
    ensures
        v is Some <==> is_upper_hex_digit(c),
        v matches Some(d) ==> d == digit_value(c) && d < 16,
{
    if DIGIT_0 <= c && c <= DIGIT_9 {
        Some(c - DIGIT_0)
    } else if UPPER_A <= c && c <= UPPER_F {
        Some(c - UPPER_A + 10)
    } else {
        None
    }
}

/// Converts a number into the bytes that carry it to the mount.
///
/// The digits are written from the least significant one, at the positions
/// 1, 0, 3, 2, 5, 4, until `num_bytes` positions are filled.
pub fn number_to_bytes(number: u32, num_bytes: usize) -> (bytes: Vec<u8>)
    requires
        is_width(num_bytes as nat),
    ensures
        bytes@ == wire_digits(number as nat, num_bytes as nat),
{
    let mut bytes: Vec<u8> = vec![DIGIT_0; num_bytes];
    let mut rest: u32 = number;
    let mut i: usize = 1;
    let ghost mut k: nat = 0;
    while i < num_bytes
        invariant
            is_width(num_bytes as nat),
            bytes.len() == num_bytes,
            k <= num_bytes,
            i == partner(k as int),
            forall|j: nat| #[trigger] nibble(rest as nat, j) == nibble(number as nat, k + j),
            forall|j: int|
                0 <= j < k ==> #[trigger] bytes[partner(j)] == digit_char(
                    nibble(number as nat, j as nat),
                ),
        decreases num_bytes - k,
    {
        let digit: u8 = (rest % 16) as u8;
        proof {
            assert(nibble(rest as nat, 0) == nibble(number as nat, k + 0));
        }
        bytes.set(i, hex_digit_char(digit));
        proof {
            assert forall|j: nat| #[trigger]
                nibble((rest / 16) as nat, j) == nibble(number as nat, k + 1 + j) by {
                assert(nibble(rest as nat, j + 1) == nibble(number as nat, k + (j + 1)));
            }
        }
        rest = rest / 16;
        i = if i % 2 == 0 {
            i + 3
        } else {
            i - 1
        };
        proof {
            k = k + 1;
        }
    }
    proof {
        assert(k == num_bytes);
        assert forall|p: int| 0 <= p < num_bytes implies bytes[p] == wire_digits(
            number as nat,
            num_bytes as nat,
        )[p] by {
            assert(partner(partner(p)) == p);
            assert(bytes[partner(partner(p))] == digit_char(
                nibble(number as nat, partner(p) as nat),
            ));
        }
    }
    bytes
}

/// A prefix of a digit string spells no more than the whole string.
proof fn lemma_hex_number_prefix(digits: Seq<u8>, k: int)
    requires
        0 <= k <= digits.len(),
    ensures
        hex_number(digits.take(k)) <= hex_number(digits),
    decreases digits.len() - k,
{
    if k == digits.len() {
        assert(digits.take(k) == digits);
    } else {
        lemma_hex_number_prefix(digits, k + 1);
        assert(digits.take(k + 1).drop_last() == digits.take(k));
    }
}

/// Converts the bytes of a response into the number that they carry.
///
/// The digits are first put back in reading order, then read in base 16.
/// A payload that is empty, holds half a pair, holds anything but
/// hexadecimal digits, or spells more than 32 bits is a data error.
pub fn bytes_to_number(data: Vec<u8>) -> (r: SynScanResult<u32>)
    ensures
        r == decoded(data@),
{
    let len: usize = data.len();
    if len == 0 || len % 2 != 0 {
        return Err(SynScanError::CommunicationError(IoError::InvalidData));
    }
    let mut digits: Vec<u8> = vec![0; len];
    let mut i: usize = len + 1;
    let mut k: usize = 0;
    while k < len
        invariant
            len == data.len(),
            len % 2 == 0,
            digits.len() == len,
            k <= len,
            k == 0 ==> i == len + 1,
            k > 0 ==> i == len - 2 - 2 * ((k - 1) / 2) + (k - 1) % 2,
            forall|j: int|
                0 <= j < k ==> #[trigger] digits[len - 2 - 2 * (j / 2) + j % 2] == data[j],
        decreases len - k,
    {
        i = if i % 2 == 0 {
            i + 1
        } else {
            i - 3
        };
        digits.set(i, data[k]);
        k = k + 1;
    }
    proof {
        assert forall|j: int| 0 <= j < len implies digits[j] == unscrambled(data@)[j] by {
            let q = len - 2 - 2 * (j / 2) + j % 2;
            assert(len - 2 - 2 * (q / 2) + q % 2 == j);
            assert(digits[len - 2 - 2 * (q / 2) + q % 2] == data[q]);
        }
        assert(digits@ == unscrambled(data@));
    }
    let mut value: u32 = 0;
    let mut j: usize = 0;
    while j < len
        invariant
            len == data.len(),
            len % 2 == 0,
            digits@ == unscrambled(data@),
            j <= len,
            value == hex_number(digits@.take(j as int)),
            forall|m: int| 0 <= m < j ==> is_hex_digit(#[trigger] digits[m]),
        decreases len - j,
    {
        proof {
            lemma_hex_number_prefix(digits@, j + 1);
            assert(digits@.take(j + 1).drop_last() == digits@.take(j as int));
            let q = len - 2 - 2 * (j as int / 2) + j as int % 2;
            assert(digits[j as int] == data[q]);
        }
        let digit: u8 = match hex_digit_value(digits[j]) {
            Some(d) => d,
            None => {
                return Err(SynScanError::CommunicationError(IoError::InvalidData));
            },
        };
        let shifted: u32 = match value.checked_mul(16) {
            Some(v) => v,
            None => {
                return Err(SynScanError::CommunicationError(IoError::InvalidData));
            },
        };
        value = match shifted.checked_add(digit as u32) {
            Some(v) => v,
            None => {
                return Err(SynScanError::CommunicationError(IoError::InvalidData));
            },
        };
        j = j + 1;
    }
    proof {
        assert(digits@.take(len as int) == digits@);
        assert forall|m: int| 0 <= m < len implies is_hex_digit(#[trigger] data[m]) by {
            let q = len - 2 - 2 * (m / 2) + m % 2;
            assert(len - 2 - 2 * (q / 2) + q % 2 == m);
            assert(digits[q] == data[m]);
        }
    }
    Ok(value)
}

/// 16 to the power `k`.
pub open spec fn pow16(k: nat) -> nat
    decreases k,
{
    if k == 0 {
        1
    } else {
        16 * pow16((k - 1) as nat)
    }
}

/// The `width` least significant hexadecimal digits of `n` in reading order,
/// most significant first.
pub open spec fn reading_digits(n: nat, width: nat) -> Seq<u8> {
    Seq::new(width, |j: int| digit_char(nibble(n, (width - 1 - j) as nat)))
}

/// A hexadecimal digit of a number is less than 16.
pub proof fn lemma_nibble_bound(n: nat, k: nat)
    ensures
        nibble(n, k) < 16,
    decreases k,
{
    if k > 0 {
        lemma_nibble_bound(n / 16, (k - 1) as nat);
    }
}

/// The bytes that carry a number are hexadecimal digits as the controller
/// writes them. None of them can be taken for the byte that ends a frame.
pub proof fn lemma_wire_digits_are_digits(n: nat, width: nat)
    ensures
        wire_digits(n, width).len() == width,
        forall|i: int|
            0 <= i < width ==> is_upper_hex_digit(#[trigger] wire_digits(n, width)[i]),
{
    assert forall|i: int| 0 <= i < width implies is_upper_hex_digit(
        #[trigger] wire_digits(n, width)[i],
    ) by {
        lemma_nibble_bound(n, partner(i) as nat);
    }
}

/// Put back in reading order, the bytes that carry `n` are the digits of `n`.
pub proof fn lemma_unscrambled_wire_digits(n: nat, width: nat)
    requires
        width % 2 == 0,
    ensures
        unscrambled(wire_digits(n, width)) == reading_digits(n, width),
{
    let wire = wire_digits(n, width);
    assert forall|j: int| 0 <= j < width implies unscrambled(wire)[j] == reading_digits(
        n,
        width,
    )[j] by {
        let q = width - 2 - 2 * (j / 2) + j % 2;
        assert(partner(q) == width - 1 - j);
    }
    assert(unscrambled(wire) =~= reading_digits(n, width));
}

/// Read in base 16, the `width` digits of a number below 16 to the power
/// `width` spell that number.
pub proof fn lemma_hex_number_of_digits(n: nat, width: nat)
    requires
        n < pow16(width),
    ensures
        hex_number(reading_digits(n, width)) == n,
    decreases width,
{
    let digits = reading_digits(n, width);
    if width > 0 {
        let upper = (width - 1) as nat;
        assert(digits.drop_last() =~= reading_digits(n / 16, upper)) by {
            assert forall|j: int| 0 <= j < upper implies digits.drop_last()[j] == reading_digits(
                n / 16,
                upper,
            )[j] by {
                assert(nibble(n, (width - 1 - j) as nat) == nibble(
                    n / 16,
                    (upper - 1 - j) as nat,
                ));
            }
        }
        lemma_hex_number_of_digits(n / 16, upper);
        assert(digits.last() == digit_char(n % 16));
    }
}

/// A string of hexadecimal digits spells a number below 16 to the power of
/// its length.
pub proof fn lemma_hex_number_bound(digits: Seq<u8>)
    requires
        forall|i: int| 0 <= i < digits.len() ==> is_hex_digit(#[trigger] digits[i]),
    ensures
        hex_number(digits) < pow16(digits.len()),
    decreases digits.len(),
{
    if digits.len() > 0 {
        lemma_hex_number_bound(digits.drop_last());
    }
}

/// The digit of weight 16 to the power `k` in what a string of hexadecimal
/// digits spells is the value of the `k`-th character from its end.
pub proof fn lemma_nibble_of_hex_number(digits: Seq<u8>, k: nat)
    requires
        forall|i: int| 0 <= i < digits.len() ==> is_hex_digit(#[trigger] digits[i]),
        k < digits.len(),
    ensures
        nibble(hex_number(digits), k) == digit_value(digits[digits.len() - 1 - k]),
    decreases k,
{
    let upper = hex_number(digits.drop_last());
    let last = digit_value(digits.last());
    assert((upper * 16 + last) / 16 == upper && (upper * 16 + last) % 16 == last);
    if k > 0 {
        lemma_nibble_of_hex_number(digits.drop_last(), (k - 1) as nat);
    }
}

/// Decoding undoes encoding: a number that can be written in `width` digits
/// comes back from the bytes that carry it.
pub proof fn lemma_decode_encode(number: u32, width: nat)
    requires
        is_width(width),
        number < pow16(width),
    ensures
        decoded(wire_digits(number as nat, width)) == Ok::<u32, SynScanError>(number),
{
    lemma_unscrambled_wire_digits(number as nat, width);
    lemma_hex_number_of_digits(number as nat, width);
    lemma_wire_digits_are_digits(number as nat, width);
}

/// Encoding undoes decoding: a payload of two, four or six digits as the
/// controller writes them is what carries the number that it decodes to.
pub proof fn lemma_encode_decode(wire: Seq<u8>)
    requires
        is_width(wire.len()),
        forall|i: int| 0 <= i < wire.len() ==> is_upper_hex_digit(#[trigger] wire[i]),
    ensures
        decoded(wire) == Ok::<u32, SynScanError>(wire_number(wire) as u32),
        wire_digits(wire_number(wire), wire.len()) == wire,
{
    let width = wire.len();
    let digits = unscrambled(wire);
    assert forall|j: int| 0 <= j < width implies is_upper_hex_digit(#[trigger] digits[j]) by {
        let q = width - 2 - 2 * (j / 2) + j % 2;
        assert(is_upper_hex_digit(wire[q]));
    }
    lemma_hex_number_bound(digits);
    assert(pow16(width) <= 0x1000000) by {
        reveal_with_fuel(pow16, 7);
    }
    assert forall|p: int| 0 <= p < width implies wire_digits(wire_number(wire), width)[p]
        == wire[p] by {
        let k = partner(p);
        lemma_nibble_of_hex_number(digits, k as nat);
        let j = width - 1 - k;
        assert(width - 2 - 2 * (j / 2) + j % 2 == p);
        assert(digits[j] == wire[p]);
        assert(is_upper_hex_digit(wire[p]));
    }
    assert(wire_digits(wire_number(wire), width) =~= wire);
}

} // verus!
