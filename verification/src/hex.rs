//! Text of numbers: lower-case hexadecimal of bytes and words, as
//! `{:02x}` and `{:04x}` write them, and binary of bytes, as `{:08b}` does.
use vstd::prelude::*;
use vstd::string::StringExecFns;

use crate::bytes::{high_byte, low_byte};

verus! {

/// The hexadecimal digit of a number below 16.
pub open spec fn hex_digit(n: u8) -> Seq<char> {
    match n {
        0u8 => "0"@,
        1u8 => "1"@,
        2u8 => "2"@,
        3u8 => "3"@,
        4u8 => "4"@,
        5u8 => "5"@,
        6u8 => "6"@,
        7u8 => "7"@,
        8u8 => "8"@,
        9u8 => "9"@,
        10u8 => "a"@,
        11u8 => "b"@,
        12u8 => "c"@,
        13u8 => "d"@,
        14u8 => "e"@,
        _ => "f"@,
    }
}

/// A byte as two hexadecimal digits.
pub open spec fn hex2(b: u8) -> Seq<char> {
    hex_digit(b / 16) + hex_digit(b % 16)
}

/// A 16-bit word as four hexadecimal digits.
pub open spec fn hex4(w: u16) -> Seq<char> {
    hex2(high_byte(w)) + hex2(low_byte(w))
}

/// The hexadecimal digit of a number below 16.
fn hex_digit_str(n: u8) -> (s: &'static str)
    requires
        n < 16,
    ensures
        s@ == hex_digit(n),
{
    match n {
        0 => "0",
        1 => "1",
        2 => "2",
        3 => "3",
        4 => "4",
        5 => "5",
        6 => "6",
        7 => "7",
        8 => "8",
        9 => "9",
        10 => "a",
        11 => "b",
        12 => "c",
        13 => "d",
        14 => "e",
        _ => "f",
    }
}

/// Appends a byte as two hexadecimal digits.
pub fn push_hex2(s: &mut String, b: u8)
    ensures
        final(s)@ == old(s)@ + hex2(b),
{
    s.append(hex_digit_str(b / 16));
    s.append(hex_digit_str(b % 16));
    assert(final(s)@ =~= old(s)@ + hex2(b));
}

/// Appends a 16-bit word as four hexadecimal digits.
pub fn push_hex4(s: &mut String, w: u16)
    ensures
        final(s)@ == old(s)@ + hex4(w),
{
    push_hex2(s, (w / 256) as u8);
    push_hex2(s, (w % 256) as u8);
    assert(final(s)@ =~= old(s)@ + hex4(w));
}

/// One binary digit: `1` for 1, `0` otherwise.
pub open spec fn bit_text(x: u8) -> Seq<char> {
    if x == 1 {
        "1"@
    } else {
        "0"@
    }
}

/// A number below 16 as four binary digits, most significant first.
pub open spec fn bin4(n: u8) -> Seq<char> {
    bit_text(n / 8 % 2) + bit_text(n / 4 % 2) + bit_text(n / 2 % 2) + bit_text(n % 2)
}

/// A byte as eight binary digits, most significant first.
pub open spec fn bin8(b: u8) -> Seq<char> {
    bin4(b / 16) + bin4(b % 16)
}

/// Appends one binary digit.
fn push_bit(s: &mut String, x: u8)
    ensures
        final(s)@ == old(s)@ + bit_text(x),
{
    if x == 1 {
        s.append("1");
    } else {
        s.append("0");
    }
}

/// Appends a number below 16 as four binary digits.
fn push_bin4(s: &mut String, n: u8)
    ensures
        final(s)@ == old(s)@ + bin4(n),
{
    push_bit(s, n / 8 % 2);
    push_bit(s, n / 4 % 2);
    push_bit(s, n / 2 % 2);
    push_bit(s, n % 2);
    assert(final(s)@ =~= old(s)@ + bin4(n));
}

/// Appends a byte as eight binary digits.
pub fn push_bin8(s: &mut String, b: u8)
    ensures
        final(s)@ == old(s)@ + bin8(b),
{
    push_bin4(s, b / 16);
    push_bin4(s, b % 16);
    assert(final(s)@ =~= old(s)@ + bin8(b));
}

} // verus!
