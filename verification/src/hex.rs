//! Lowercase hexadecimal text of a number, as far as the game reads it.

use vstd::prelude::*;

verus! {

/// The character that stands for one hexadecimal digit.
pub open spec fn hex_char(digit: nat) -> char
    recommends
        digit < 16,
{
    if digit == 0 {
        '0'
    } else if digit == 1 {
        '1'
    } else if digit == 2 {
        '2'
    } else if digit == 3 {
        '3'
    } else if digit == 4 {
        '4'
    } else if digit == 5 {
        '5'
    } else if digit == 6 {
        '6'
    } else if digit == 7 {
        '7'
    } else if digit == 8 {
        '8'
    } else if digit == 9 {
        '9'
    } else if digit == 10 {
        'a'
    } else if digit == 11 {
        'b'
    } else if digit == 12 {
        'c'
    } else if digit == 13 {
        'd'
    } else if digit == 14 {
        'e'
    } else {
        'f'
    }
}

/// The hexadecimal text of `value`: most significant digit first, no prefix,
/// no leading zeros, and `"0"` for zero.
pub open spec fn hex_text(value: nat) -> Seq<char>
    decreases value,
{
    if value < 16 {
        seq![hex_char(value)]
    } else {
        hex_text(value / 16).push(hex_char(value % 16))
    }
}

/// The most significant hexadecimal digit of `value`.
pub open spec fn leading_digit(value: nat) -> nat
    decreases value,
{
    if value < 16 {
        value
    } else {
        leading_digit(value / 16)
    }
}

/// The text of a number is never empty, and it starts with the character of
/// the number's most significant digit.
pub proof fn lemma_hex_text_starts_with_leading_digit(value: nat)
    ensures
        hex_text(value).len() >= 1,
        hex_text(value)[0] == hex_char(leading_digit(value)),
        leading_digit(value) < 16,
    decreases value,
{
    if value >= 16 {
        lemma_hex_text_starts_with_leading_digit(value / 16);
    }
}

/// The first character of the hexadecimal text of `value`.
pub fn first_hex_char(value: u64) -> (first: char)
    ensures
        first == hex_text(value as nat)[0],
        first == hex_char(leading_digit(value as nat)),
{
    let mut rest: u64 = value;
    while rest >= 16
        invariant
            leading_digit(rest as nat) == leading_digit(value as nat),
        decreases rest,
    {
        rest = rest / 16;
    }
    proof {
        lemma_hex_text_starts_with_leading_digit(value as nat);
    }
    digit_char(rest)
}

/// The character of a single digit.
fn digit_char(digit: u64) -> (c: char)
    requires
        digit < 16,
    ensures
        c == hex_char(digit as nat),
{
    match digit {
        0 => '0',
        1 => '1',
        2 => '2',
        3 => '3',
        4 => '4',
        5 => '5',
        6 => '6',
        7 => '7',
        8 => '8',
        9 => '9',
        10 => 'a',
        11 => 'b',
        12 => 'c',
        13 => 'd',
        14 => 'e',
        _ => 'f',
    }
}

} // verus!
