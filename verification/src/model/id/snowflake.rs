//! The textual form of an identifier: reading a decimal string eight digits at
//! a time, and writing one.

use crate::decimal::{
    ascii, decimal_digits, digit_byte, digits_of, pow10, push_decimal, ASCII_NINE, ASCII_ZERO,
};
use vstd::prelude::*;
use vstd::string::StringSliceAdditionalSpecFns;
use vstd::utf8::{encode_utf8, is_ascii_chars, is_ascii_chars_encode_utf8};

verus! {

/// Whether `byte` is one of the ASCII digits `0` to `9`.
pub open spec fn is_digit(byte: u8) -> bool {
    0x30 <= byte <= 0x39
}

/// Whether every byte of `text` is an ASCII digit.
pub open spec fn all_digits(text: Seq<u8>) -> bool {
    forall|i: int| 0 <= i < text.len() ==> is_digit(#[trigger] text[i])
}

/// The number that the ASCII digit `byte` stands for.
pub open spec fn digit_value(byte: u8) -> nat {
    (byte - 0x30) as nat
}

/// The number `start` continued by the decimal digits `text`, read from left
/// to right one digit at a time.
pub open spec fn accumulate(start: nat, text: Seq<u8>) -> nat
    decreases text.len(),
{
    if text.len() == 0 {
        start
    } else {
        10 * accumulate(start, text.drop_last()) + digit_value(text.last())
    }
}

/// The number that the decimal digits `text` spell.
pub open spec fn decimal_value(text: Seq<u8>) -> nat {
    accumulate(0, text)
}

/// The identifier that `text` spells, if it spells one: `text` must be a
/// non-empty string of decimal digits whose value is not zero and fits in 64
/// bits.
pub open spec fn parsed(text: Seq<u8>) -> Option<u64> {
    if text.len() > 0 && all_digits(text) && 0 < decimal_value(text) <= u64::MAX {
        Some(decimal_value(text) as u64)
    } else {
        None
    }
}

/// The number whose little-endian representation is the eight bytes `bytes`.
pub open spec fn le_value(bytes: Seq<u8>) -> nat {
    (bytes[0] + 0x100 * bytes[1] + 0x1_0000 * bytes[2] + 0x100_0000 * bytes[3] + 0x1_0000_0000
        * bytes[4] + 0x100_0000_0000 * bytes[5] + 0x1_0000_0000_0000 * bytes[6]
        + 0x100_0000_0000_0000 * bytes[7]) as nat
}

/// Reads eight bytes as one number in little-endian order: the first byte
/// counts least.
fn from_le_bytes(bytes: [u8; 8]) -> (value: u64)
    ensures
        value == le_value(bytes@),
{
    let b0 = bytes[0];
    let b1 = bytes[1];
    let b2 = bytes[2];
    let b3 = bytes[3];
    let b4 = bytes[4];
    let b5 = bytes[5];
    let b6 = bytes[6];
    let b7 = bytes[7];
    let low = (b0 as u64) | (b1 as u64) << 8 | (b2 as u64) << 16 | (b3 as u64) << 24;
    let high = (b4 as u64) << 32 | (b5 as u64) << 40 | (b6 as u64) << 48 | (b7 as u64) << 56;
    let value = low | high;
    assert(value == b0 + 0x100 * b1 + 0x1_0000 * b2 + 0x100_0000 * b3 + 0x1_0000_0000 * b4
        + 0x100_0000_0000 * b5 + 0x1_0000_0000_0000 * b6 + 0x100_0000_0000_0000 * b7)
        by (bit_vector)
        requires
            low == (b0 as u64) | (b1 as u64) << 8 | (b2 as u64) << 16 | (b3 as u64) << 24,
            high == (b4 as u64) << 32 | (b5 as u64) << 40 | (b6 as u64) << 48 | (b7 as u64) << 56,
            value == low | high,
    ;
    value
}

/// Calls `pieced::as_with_rest` with chunks of eight. It cuts `text` into as
/// many whole chunks as fit, in order from the start, and hands back what is
/// left over, which is shorter than one chunk.
#[verifier::external_body]
fn split_eights(text: &[u8]) -> (parts: (&[[u8; 8]], &[u8]))
    ensures
        parts.0@.len() == text@.len() as int / 8,
        forall|i: int, j: int|
            0 <= i < parts.0@.len() && 0 <= j < 8 ==> (#[trigger] parts.0@[i]@[j]) == text@[8 * i
                + j],
        parts.1@ == text@.skip(8 * (text@.len() as int / 8)),
{
    pieced::as_with_rest(text)
}

/// The number that eight bytes spell when only the low four bits of each are
/// read as a digit. For ASCII digits that is the digit itself.
pub open spec fn eight_value(chunk: Seq<u8>) -> nat {
    ((chunk[0] & 0x0f) * 10_000_000 + (chunk[1] & 0x0f) * 1_000_000 + (chunk[2] & 0x0f) * 100_000
        + (chunk[3] & 0x0f) * 10_000 + (chunk[4] & 0x0f) * 1_000 + (chunk[5] & 0x0f) * 100
        + (chunk[6] & 0x0f) * 10 + (chunk[7] & 0x0f)) as nat
}

proof fn lemma_low_nibble_of_digit(byte: u8)
    requires
        is_digit(byte),
    ensures
        (byte & 0x0f) == digit_value(byte),
{
    assert(0x30 <= byte <= 0x39 ==> (byte & 0x0f) == byte - 0x30) by (bit_vector);
}

/// Continuing a number by one more digit.
proof fn lemma_accumulate_push(start: nat, text: Seq<u8>, byte: u8)
    ensures
        accumulate(start, text.push(byte)) == 10 * accumulate(start, text) + digit_value(byte),
{
    assert(text.push(byte).drop_last() == text);
}

/// Continuing by `front` and then by `back` is continuing by both at once.
pub proof fn lemma_accumulate_concat(start: nat, front: Seq<u8>, back: Seq<u8>)
    ensures
        accumulate(start, front + back) == accumulate(accumulate(start, front), back),
    decreases back.len(),
{
    if back.len() == 0 {
        assert(front + back == front);
    } else {
        lemma_accumulate_concat(start, front, back.drop_last());
        assert((front + back).drop_last() == front + back.drop_last());
    }
}

/// Continuing `start` by digits shifts `start` left by as many decimal places
/// and adds what the digits spell on their own.
pub proof fn lemma_accumulate_shift(start: nat, text: Seq<u8>)
    ensures
        accumulate(start, text) == start * pow10(text.len()) + decimal_value(text),
    decreases text.len(),
{
    if text.len() > 0 {
        lemma_accumulate_shift(start, text.drop_last());
        let shorter = pow10(text.drop_last().len());
        assert(pow10(text.len()) == 10 * shorter);
        assert(start * (10 * shorter) == 10 * (start * shorter)) by (nonlinear_arith);
    } else {
        assert(start * 1 == start) by (nonlinear_arith);
    }
}

/// Digits never spell a number of more decimal places than there are digits.
pub proof fn lemma_decimal_value_bound(text: Seq<u8>)
    requires
        all_digits(text),
    ensures
        decimal_value(text) < pow10(text.len()),
    decreases text.len(),
{
    if text.len() > 0 {
        lemma_decimal_value_bound(text.drop_last());
    }
}

/// A number continued by more digits does not get smaller.
proof fn lemma_accumulate_grows(start: nat, text: Seq<u8>, upto: int)
    requires
        all_digits(text),
        0 <= upto <= text.len(),
    ensures
        accumulate(start, text.take(upto)) <= accumulate(start, text),
    decreases text.len() - upto,
{
    if upto < text.len() {
        lemma_accumulate_grows(start, text, upto + 1);
        assert(text.take(upto + 1).drop_last() == text.take(upto));
    } else {
        assert(text.take(upto) == text);
    }
}

/// The first few powers of ten.
proof fn lemma_pow10_values()
    ensures
        pow10(0) == 1,
        pow10(1) == 10,
        pow10(2) == 100,
        pow10(3) == 1_000,
        pow10(4) == 10_000,
        pow10(5) == 100_000,
        pow10(6) == 1_000_000,
        pow10(7) == 10_000_000,
        pow10(8) == 100_000_000,
{
    reveal_with_fuel(pow10, 9);
}

/// Continuing a number by at most `places` digits multiplies it by less than
/// ten to the power `places`.
proof fn lemma_accumulate_fits(start: nat, text: Seq<u8>, places: nat)
    requires
        all_digits(text),
        text.len() <= places <= 8,
    ensures
        accumulate(start, text) < (start + 1) * pow10(places),
{
    lemma_pow10_values();
    lemma_accumulate_shift(start, text);
    lemma_decimal_value_bound(text);
    let here = pow10(text.len());
    let most = pow10(places);
    assert(here <= most);
    assert((start + 1) * here <= (start + 1) * most) by (nonlinear_arith)
        requires
            here <= most,
    ;
    assert((start + 1) * here == start * here + here) by (nonlinear_arith);
}

/// What eight digits spell, written out place by place.
proof fn lemma_decimal_value_of_eight(chunk: Seq<u8>)
    requires
        chunk.len() == 8,
    ensures
        decimal_value(chunk) == digit_value(chunk[0]) * 10_000_000 + digit_value(chunk[1])
            * 1_000_000 + digit_value(chunk[2]) * 100_000 + digit_value(chunk[3]) * 10_000
            + digit_value(chunk[4]) * 1_000 + digit_value(chunk[5]) * 100 + digit_value(chunk[6])
            * 10 + digit_value(chunk[7]),
{
    let t0 = chunk.take(0);
    let t1 = chunk.take(1);
    let t2 = chunk.take(2);
    let t3 = chunk.take(3);
    let t4 = chunk.take(4);
    let t5 = chunk.take(5);
    let t6 = chunk.take(6);
    let t7 = chunk.take(7);
    assert(t1.drop_last() == t0);
    assert(t2.drop_last() == t1);
    assert(t3.drop_last() == t2);
    assert(t4.drop_last() == t3);
    assert(t5.drop_last() == t4);
    assert(t6.drop_last() == t5);
    assert(t7.drop_last() == t6);
    assert(chunk.drop_last() == t7);
    assert(accumulate(0, t0) == 0);
    assert(accumulate(0, t1) == digit_value(chunk[0]));
    assert(accumulate(0, t2) == 10 * accumulate(0, t1) + digit_value(chunk[1]));
    assert(accumulate(0, t3) == 10 * accumulate(0, t2) + digit_value(chunk[2]));
    assert(accumulate(0, t4) == 10 * accumulate(0, t3) + digit_value(chunk[3]));
    assert(accumulate(0, t5) == 10 * accumulate(0, t4) + digit_value(chunk[4]));
    assert(accumulate(0, t6) == 10 * accumulate(0, t5) + digit_value(chunk[5]));
    assert(accumulate(0, t7) == 10 * accumulate(0, t6) + digit_value(chunk[6]));
}

/// For eight ASCII digits the low-nibble reading is the decimal reading.
pub proof fn lemma_eight_value_of_digits(chunk: Seq<u8>)
    requires
        chunk.len() == 8,
        all_digits(chunk),
    ensures
        eight_value(chunk) == decimal_value(chunk),
        eight_value(chunk) < 100_000_000,
{
    lemma_decimal_value_of_eight(chunk);
    lemma_low_nibble_of_digit(chunk[0]);
    lemma_low_nibble_of_digit(chunk[1]);
    lemma_low_nibble_of_digit(chunk[2]);
    lemma_low_nibble_of_digit(chunk[3]);
    lemma_low_nibble_of_digit(chunk[4]);
    lemma_low_nibble_of_digit(chunk[5]);
    lemma_low_nibble_of_digit(chunk[6]);
    lemma_low_nibble_of_digit(chunk[7]);
}

/// Reads eight digits at once. The bytes are taken as one little-endian
/// number; three rounds of mask, shift and multiply then join neighbouring
/// digits into pairs, pairs into fours, and the two fours into the result.
pub fn parse_eight(s: [u8; 8]) -> (value: u64)
    ensures
        value == eight_value(s@),
        all_digits(s@) ==> value == decimal_value(s@) && value < 100_000_000,
{
    let n = from_le_bytes(s);
    let ghost b0 = s@[0];
    let ghost b1 = s@[1];
    let ghost b2 = s@[2];
    let ghost b3 = s@[3];
    let ghost b4 = s@[4];
    let ghost b5 = s@[5];
    let ghost b6 = s@[6];
    let ghost b7 = s@[7];
    assert(((n & 0x0f000f000f000f00) >> 8) + ((n & 0x000f000f000f000f) * 10) <= u64::MAX)
        by (bit_vector);
    let pairs = ((n & 0x0f000f000f000f00) >> 8) + ((n & 0x000f000f000f000f) * 10);
    assert(pairs == ((b0 & 0x0f) * 10 + (b1 & 0x0f)) + 0x1_0000 * ((b2 & 0x0f) * 10 + (b3 & 0x0f))
        + 0x1_0000_0000 * ((b4 & 0x0f) * 10 + (b5 & 0x0f)) + 0x1_0000_0000_0000 * ((b6 & 0x0f) * 10
        + (b7 & 0x0f))) by (bit_vector)
        requires
            n == b0 + 0x100 * b1 + 0x1_0000 * b2 + 0x100_0000 * b3 + 0x1_0000_0000 * b4
                + 0x100_0000_0000 * b5 + 0x1_0000_0000_0000 * b6 + 0x100_0000_0000_0000 * b7,
            pairs == ((n & 0x0f000f000f000f00) >> 8) + ((n & 0x000f000f000f000f) * 10),
    ;
    assert(((pairs & 0x00ff000000ff0000) >> 16) + ((pairs & 0x000000ff000000ff) * 100) <= u64::MAX)
        by (bit_vector);
    let fours = ((pairs & 0x00ff000000ff0000) >> 16) + ((pairs & 0x000000ff000000ff) * 100);
    let ghost pair0 = (b0 & 0x0f) * 10 + (b1 & 0x0f);
    let ghost pair1 = (b2 & 0x0f) * 10 + (b3 & 0x0f);
    let ghost pair2 = (b4 & 0x0f) * 10 + (b5 & 0x0f);
    let ghost pair3 = (b6 & 0x0f) * 10 + (b7 & 0x0f);
    assert(pair0 <= 165 && pair1 <= 165 && pair2 <= 165 && pair3 <= 165) by {
        assert(b0 & 0x0f <= 15) by (bit_vector);
        assert(b1 & 0x0f <= 15) by (bit_vector);
        assert(b2 & 0x0f <= 15) by (bit_vector);
        assert(b3 & 0x0f <= 15) by (bit_vector);
        assert(b4 & 0x0f <= 15) by (bit_vector);
        assert(b5 & 0x0f <= 15) by (bit_vector);
        assert(b6 & 0x0f <= 15) by (bit_vector);
        assert(b7 & 0x0f <= 15) by (bit_vector);
    }
    let ghost wide0 = pair0 as u64;
    let ghost wide1 = pair1 as u64;
    let ghost wide2 = pair2 as u64;
    let ghost wide3 = pair3 as u64;
    assert(fours == (wide0 * 100 + wide1) + 0x1_0000_0000 * (wide2 * 100 + wide3)) by (bit_vector)
        requires
            wide0 <= 165,
            wide1 <= 165,
            wide2 <= 165,
            wide3 <= 165,
            pairs == wide0 + 0x1_0000 * wide1 + 0x1_0000_0000 * wide2 + 0x1_0000_0000_0000 * wide3,
            fours == ((pairs & 0x00ff000000ff0000) >> 16) + ((pairs & 0x000000ff000000ff) * 100),
    ;
    assert(((fours & 0x0000ffff00000000) >> 32) + ((fours & 0x000000000000ffff) * 10000)
        <= u64::MAX) by (bit_vector);
    let value = ((fours & 0x0000ffff00000000) >> 32) + ((fours & 0x000000000000ffff) * 10000);
    let ghost first_four = (wide0 * 100 + wide1) as u64;
    let ghost last_four = (wide2 * 100 + wide3) as u64;
    assert(value == first_four * 10000 + last_four) by (bit_vector)
        requires
            first_four <= 16665,
            last_four <= 16665,
            fours == first_four + 0x1_0000_0000 * last_four,
            value == ((fours & 0x0000ffff00000000) >> 32) + ((fours & 0x000000000000ffff) * 10000),
    ;
    proof {
        if all_digits(s@) {
            lemma_eight_value_of_digits(s@);
        }
    }
    value
}

/// Whether `text` holds nothing but ASCII digits.
pub fn digits_only(text: &[u8]) -> (yes: bool)
    ensures
        yes == all_digits(text@),
{
    let mut i: usize = 0;
    while i < text.len()
        invariant
            i <= text.len(),
            forall|j: int| 0 <= j < i ==> is_digit(#[trigger] text@[j]),
        decreases text.len() - i,
    {
        let byte = text[i];
        if byte < ASCII_ZERO || byte > ASCII_NINE {
            assert(!is_digit(text@[i as int]));
            return false;
        }
        i += 1;
    }
    true
}

/// Continues `n` by the digits `s`, one multiply and add per digit. For
/// callers that know the result fits.
pub fn simple_parse(n: u64, s: &[u8]) -> (value: u64)
    requires
        all_digits(s@),
        accumulate(n as nat, s@) <= u64::MAX,
    ensures
        value == accumulate(n as nat, s@),
{
    let mut value = n;
    let mut i: usize = 0;
    while i < s.len()
        invariant
            i <= s.len(),
            all_digits(s@),
            accumulate(n as nat, s@) <= u64::MAX,
            value == accumulate(n as nat, s@.take(i as int)),
        decreases s.len() - i,
    {
        proof {
            lemma_accumulate_grows(n as nat, s@, i + 1);
            assert(s@.take(i + 1).drop_last() == s@.take(i as int));
        }
        value = value * 10 + (s[i] - ASCII_ZERO) as u64;
        i += 1;
    }
    assert(s@.take(s.len() as int) == s@);
    value
}

/// Continues `n` by the digits `s` and notices when the result leaves 64 bits.
pub fn checked_parse(n: u64, s: &[u8]) -> (value: Option<u64>)
    requires
        all_digits(s@),
    ensures
        value == if accumulate(n as nat, s@) <= u64::MAX {
            Some(accumulate(n as nat, s@) as u64)
        } else {
            None
        },
{
    let mut value = n;
    let mut i: usize = 0;
    while i < s.len()
        invariant
            i <= s.len(),
            all_digits(s@),
            value == accumulate(n as nat, s@.take(i as int)),
        decreases s.len() - i,
    {
        proof {
            lemma_accumulate_grows(n as nat, s@, i + 1);
            assert(s@.take(i + 1).drop_last() == s@.take(i as int));
        }
        let digit = (s[i] - ASCII_ZERO) as u64;
        let next = match value.checked_mul(10) {
            Some(shifted) => shifted.checked_add(digit),
            None => None,
        };
        match next {
            Some(longer) => {
                value = longer;
            },
            None => {
                return None;
            },
        }
        i += 1;
    }
    assert(s@.take(s.len() as int) == s@);
    Some(value)
}

/// Reads an identifier from its decimal text.
///
/// The first sixteen digits are read eight at a time, the rest one by one.
/// Text that is empty, holds anything but digits, spells zero or spells a
/// number beyond 64 bits is no identifier.
pub fn parse(x: &[u8]) -> (id: Option<u64>)
    ensures
        id == parsed(x@),
{
    if !digits_only(x) {
        return None;
    }
    let (chunks, rest) = split_eights(x);
    assert(all_digits(rest@));
    let value = if chunks.len() == 2 {
        let a = chunks[0];
        let b = chunks[1];
        proof {
            assert(a@ =~= x@.subrange(0, 8));
            assert(b@ =~= x@.subrange(8, 16));
            assert(x@ =~= a@ + b@ + rest@);
            lemma_accumulate_concat(0, a@ + b@, rest@);
            lemma_accumulate_concat(0, a@, b@);
            lemma_accumulate_shift(decimal_value(a@), b@);
            lemma_pow10_values();
        }
        let head = parse_eight(a) * 100000000 + parse_eight(b);
        assert(decimal_value(x@) == accumulate(head as nat, rest@));
        if rest.len() <= 3 {
            proof {
                lemma_accumulate_fits(head as nat, rest@, 3);
                lemma_pow10_values();
            }
            Some(simple_parse(head, rest))
        } else {
            checked_parse(head, rest)
        }
    } else if chunks.len() == 1 {
        let a = chunks[0];
        proof {
            assert(a@ =~= x@.subrange(0, 8));
            assert(x@ =~= a@ + rest@);
            lemma_accumulate_concat(0, a@, rest@);
            lemma_accumulate_fits(decimal_value(a@), rest@, 8);
            lemma_pow10_values();
        }
        Some(simple_parse(parse_eight(a), rest))
    } else if chunks.len() == 0 {
        proof {
            assert(x@ =~= rest@);
            lemma_accumulate_fits(0, rest@, 8);
            lemma_pow10_values();
        }
        Some(simple_parse(0, rest))
    } else {
        checked_parse(0, x)
    };
    match value {
        Some(number) => if number != 0 {
            Some(number)
        } else {
            None
        },
        None => None,
    }
}

/// Writes an identifier as it goes on the wire: in decimal, as text.
pub fn serialize(id: u64) -> (text: String)
    ensures
        text@ == ascii(decimal_digits(id as nat)),
{
    let mut text = String::new();
    push_decimal(&mut text, id);
    assert(text@ =~= ascii(decimal_digits(id as nat)));
    text
}

/// What a data format hands over where an identifier is expected.
#[derive(Debug, Clone, Copy, PartialEq, Eq)]
pub enum Encoded<'a> {
    /// A signed integer, as formats without unsigned numbers supply.
    Signed(i64),
    Unsigned(u64),
    Text(&'a str),
    /// Anything else: a float, a list, a map, nothing at all.
    Other,
}

/// Why an encoded value is no identifier.
#[derive(Debug, Clone, Copy, PartialEq, Eq, Structural)]
pub enum SnowflakeError {
    /// A negative integer.
    Negative,
    /// Zero, or text that does not spell a non-zero 64-bit number.
    Invalid,
    /// Neither text nor an integer.
    WrongType,
}

/// The identifier that an encoded value stands for, or why it stands for
/// none. Text goes by [`parsed`]; an integer must be positive.
pub open spec fn decoded(value: Encoded<'_>) -> Result<u64, SnowflakeError> {
    match value {
        Encoded::Signed(number) => if number < 0 {
            Err(SnowflakeError::Negative)
        } else if number == 0 {
            Err(SnowflakeError::Invalid)
        } else {
            Ok(number as u64)
        },
        Encoded::Unsigned(number) => if number == 0 {
            Err(SnowflakeError::Invalid)
        } else {
            Ok(number)
        },
        Encoded::Text(text) => match parsed(text.spec_bytes()) {
            Some(id) => Ok(id),
            None => Err(SnowflakeError::Invalid),
        },
        Encoded::Other => Err(SnowflakeError::WrongType),
    }
}

/// Reads an identifier from either of its encoded forms: decimal text, which
/// is what the wire carries, or a bare integer.
pub fn deserialize(value: Encoded<'_>) -> (id: Result<u64, SnowflakeError>)
    ensures
        id == decoded(value),
        id matches Ok(number) ==> number != 0,
{
    match value {
        Encoded::Signed(number) => if number < 0 {
            Err(SnowflakeError::Negative)
        } else if number == 0 {
            Err(SnowflakeError::Invalid)
        } else {
            Ok(number as u64)
        },
        Encoded::Unsigned(number) => if number == 0 {
            Err(SnowflakeError::Invalid)
        } else {
            Ok(number)
        },
        Encoded::Text(text) => match parse(text.as_bytes()) {
            Some(id) => Ok(id),
            None => Err(SnowflakeError::Invalid),
        },
        Encoded::Other => Err(SnowflakeError::WrongType),
    }
}

/// The digits of a number are digits, and they spell the number.
pub proof fn lemma_digits_spell_their_number(value: nat)
    ensures
        all_digits(digits_of(value)),
        decimal_value(digits_of(value)) == value,
        value > 0 ==> digits_of(value).len() > 0,
    decreases value,
{
    if value > 0 {
        lemma_digits_spell_their_number(value / 10);
        let shorter = digits_of(value / 10);
        let last = digit_byte(value % 10);
        assert(is_digit(last));
        assert(digit_value(last) == value % 10);
        lemma_accumulate_push(0, shorter, last);
        assert forall|i: int| 0 <= i < shorter.push(last).len() implies is_digit(
            #[trigger] shorter.push(last)[i],
        ) by {
            if i < shorter.len() {
                assert(shorter.push(last)[i] == shorter[i]);
            }
        }
    }
}

/// Reading back what was written: for every non-zero 64-bit `id`, the decimal
/// text of `id` parses to `id`, whether it is taken as bytes or as the
/// characters of a string.
pub proof fn lemma_parse_inverts_serialize(id: u64)
    requires
        id != 0,
    ensures
        parsed(decimal_digits(id as nat)) == Some(id),
        parsed(encode_utf8(ascii(decimal_digits(id as nat)))) == Some(id),
{
    let digits = decimal_digits(id as nat);
    lemma_digits_spell_their_number(id as nat);
    let text = ascii(digits);
    assert(is_ascii_chars(text)) by {
        assert forall|i: int| 0 <= i < text.len() implies '\0' <= #[trigger] text[i]
            <= '\u{7f}' by {
            assert(is_digit(digits[i]));
        }
    }
    is_ascii_chars_encode_utf8(text);
    assert(encode_utf8(text) =~= digits) by {
        assert forall|i: int| 0 <= i < digits.len() implies encode_utf8(text)[i] == digits[i] by {
            assert(is_digit(digits[i]));
            assert(text[i] as u8 == encode_utf8(text)[i]);
        }
    }
}

/// Text that is empty, holds a byte that is no digit, spells zero or spells
/// more than 64 bits can hold is no identifier.
pub proof fn lemma_rejected_text(text: Seq<u8>)
    requires
        text.len() == 0 || !all_digits(text) || decimal_value(text) == 0 || decimal_value(text)
            > u64::MAX,
    ensures
        parsed(text).is_none(),
{
}

} // verus!
