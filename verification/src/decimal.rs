//! Writing numbers as decimal text.

use vstd::arithmetic::div_mod::lemma_div_denominator;
use vstd::prelude::*;

verus! {

/// `String::push` appends one character and leaves the rest as it was.
pub assume_specification[ String::push ](text: &mut String, ch: char)
    ensures
        final(text)@ == old(text)@.push(ch),
;

/// The ASCII code of the digit `0`.
pub const ASCII_ZERO: u8 = 0x30;

/// The ASCII code of the digit `9`.
pub const ASCII_NINE: u8 = 0x39;

/// The ASCII digit that stands for `digit`, a number below ten.
pub open spec fn digit_byte(digit: nat) -> u8 {
    (0x30 + digit) as u8
}

/// The decimal digits of `value` without leading zeros, most significant
/// first; zero has none.
pub open spec fn digits_of(value: nat) -> Seq<u8>
    decreases value,
{
    if value == 0 {
        Seq::empty()
    } else {
        digits_of(value / 10).push(digit_byte(value % 10))
    }
}

/// `value` as it is written in decimal: its digits, or a single `0`.
pub open spec fn decimal_digits(value: nat) -> Seq<u8> {
    if value == 0 {
        seq![0x30u8]
    } else {
        digits_of(value)
    }
}

/// ASCII bytes as the characters they encode.
pub open spec fn ascii(bytes: Seq<u8>) -> Seq<char> {
    bytes.map_values(|byte: u8| byte as char)
}

/// Ten to the power `exponent`.
pub open spec fn pow10(exponent: nat) -> nat
    decreases exponent,
{
    if exponent == 0 {
        1
    } else {
        10 * pow10((exponent - 1) as nat)
    }
}

/// The character for `digit`, a number below ten.
pub fn digit_char(digit: u8) -> (ch: char)
    requires
        digit < 10,
    ensures
        ch == digit_byte(digit as nat) as char,
{
    (ASCII_ZERO + digit) as char
}

/// Appends `value` in decimal, without sign, padding or leading zeros.
pub fn push_decimal(text: &mut String, value: u64)
    ensures
        final(text)@ == old(text)@ + ascii(decimal_digits(value as nat)),
{
    if value == 0 {
        text.push('0');
        assert(ascii(decimal_digits(0)) =~= seq!['0']);
        assert(text@ =~= old(text)@ + ascii(decimal_digits(0)));
        return ;
    }
    let mut scale: u64 = 1;
    let ghost mut places: nat = 0;
    while value / scale >= 10
        invariant
            scale == pow10(places),
            1 <= scale <= value,
        decreases value - scale,
    {
        assert(scale * 10 <= value) by (nonlinear_arith)
            requires
                scale >= 1,
                value / scale >= 10,
        ;
        scale = scale * 10;
        proof {
            places = places + 1;
        }
    }
    assert(digits_of((value / scale / 10) as nat) =~= Seq::<u8>::empty());
    assert(text@ =~= old(text)@ + ascii(digits_of((value / scale / 10) as nat)));
    loop
        invariant_except_break
            text@ == old(text)@ + ascii(digits_of((value / scale / 10) as nat)),
        invariant
            scale == pow10(places),
            1 <= scale <= value,
        ensures
            text@ == old(text)@ + ascii(digits_of(value as nat)),
        decreases scale,
    {
        let here = value / scale;
        let digit = (here % 10) as u8;
        let ghost before = text@;
        text.push(digit_char(digit));
        proof {
            assert(here >= 1) by (nonlinear_arith)
                requires
                    1 <= scale <= value,
                    here == value / scale,
            ;
            let shorter = digits_of((here / 10) as nat);
            assert(digits_of(here as nat) == shorter.push(digit_byte((here % 10) as nat)));
            assert(ascii(digits_of(here as nat)) =~= ascii(shorter).push(
                digit_byte((here % 10) as nat) as char,
            ));
            assert(text@ =~= old(text)@ + ascii(digits_of(here as nat)));
        }
        if scale == 1 {
            assert(here == value) by (nonlinear_arith)
                requires
                    scale == 1,
                    here == value / scale,
            ;
            break ;
        }
        proof {
            assert(places > 0);
            let smaller = pow10((places - 1) as nat);
            assert(scale == 10 * smaller);
            assert(smaller >= 1);
            lemma_div_denominator(value as int, smaller as int, 10);
            assert(smaller * 10 == scale);
            places = (places - 1) as nat;
        }
        scale = scale / 10;
    }
}

/// The character for the decimal digit `digit`.
pub open spec fn digit_of(digit: int) -> char {
    digit_byte(digit as nat) as char
}

/// `value`, a number below a hundred, in two digits.
pub open spec fn two_digits(value: int) -> Seq<char> {
    seq![digit_of(value / 10), digit_of(value % 10)]
}

/// `value`, a number below a thousand, in three digits.
pub open spec fn three_digits(value: int) -> Seq<char> {
    seq![digit_of(value / 100), digit_of(value / 10 % 10), digit_of(value % 10)]
}

/// `value`, a number below ten thousand, in four digits.
pub open spec fn four_digits(value: int) -> Seq<char> {
    seq![
        digit_of(value / 1000),
        digit_of(value / 100 % 10),
        digit_of(value / 10 % 10),
        digit_of(value % 10),
    ]
}

/// Appends `value` in two digits, with a leading zero where it needs one.
pub fn push_two_digits(text: &mut String, value: u64)
    requires
        value < 100,
    ensures
        final(text)@ == old(text)@ + two_digits(value as int),
{
    text.push(digit_char((value / 10) as u8));
    text.push(digit_char((value % 10) as u8));
    assert(text@ =~= old(text)@ + two_digits(value as int));
}

/// Appends `value` in three digits, with leading zeros where it needs them.
pub fn push_three_digits(text: &mut String, value: u64)
    requires
        value < 1000,
    ensures
        final(text)@ == old(text)@ + three_digits(value as int),
{
    text.push(digit_char((value / 100) as u8));
    text.push(digit_char((value / 10 % 10) as u8));
    text.push(digit_char((value % 10) as u8));
    assert(text@ =~= old(text)@ + three_digits(value as int));
}

/// Appends `value` in four digits, with leading zeros where it needs them.
pub fn push_four_digits(text: &mut String, value: u64)
    requires
        value < 10000,
    ensures
        final(text)@ == old(text)@ + four_digits(value as int),
{
    text.push(digit_char((value / 1000) as u8));
    text.push(digit_char((value / 100 % 10) as u8));
    text.push(digit_char((value / 10 % 10) as u8));
    text.push(digit_char((value % 10) as u8));
    assert(text@ =~= old(text)@ + four_digits(value as int));
}

} // verus!
