//! Character-level text rendering: hexadecimal and decimal digits, used by
//! the state dump, the disassembler, and the console's hex printing.

use vstd::prelude::*;

verus! {

/// The uppercase hexadecimal digit character for a value below 16.
pub open spec fn hex_digit(n: int) -> char {
    if n == 0 {
        '0'
    } else if n == 1 {
        '1'
    } else if n == 2 {
        '2'
    } else if n == 3 {
        '3'
    } else if n == 4 {
        '4'
    } else if n == 5 {
        '5'
    } else if n == 6 {
        '6'
    } else if n == 7 {
        '7'
    } else if n == 8 {
        '8'
    } else if n == 9 {
        '9'
    } else if n == 10 {
        'A'
    } else if n == 11 {
        'B'
    } else if n == 12 {
        'C'
    } else if n == 13 {
        'D'
    } else if n == 14 {
        'E'
    } else {
        'F'
    }
}

/// The two uppercase hex digits of a byte, most significant first.
pub open spec fn hex2(v: u8) -> Seq<char> {
    seq![hex_digit(v as int / 16), hex_digit(v as int % 16)]
}

/// The three uppercase hex digits of a 12-bit value, most significant first.
pub open spec fn hex3(v: u16) -> Seq<char> {
    seq![hex_digit((v as int / 256) % 16), hex_digit((v as int / 16) % 16), hex_digit(v as int % 16)]
}

/// The four uppercase hex digits of a 16-bit word, most significant first.
pub open spec fn hex4(v: u16) -> Seq<char> {
    seq![
        hex_digit(v as int / 4096),
        hex_digit((v as int / 256) % 16),
        hex_digit((v as int / 16) % 16),
        hex_digit(v as int % 16),
    ]
}

/// The decimal digit characters of a number, most significant first,
/// without leading zeros (a single '0' for zero).
pub open spec fn dec_digits(n: nat) -> Seq<char>
    decreases n,
{
    if n < 10 {
        seq![hex_digit(n as int)]
    } else {
        dec_digits(n / 10).push(hex_digit((n % 10) as int))
    }
}

/// The 0/1 character of a flag bit.
pub open spec fn bool_bit(b: bool) -> char {
    if b {
        '1'
    } else {
        '0'
    }
}

/// Relies on String::push: appends exactly the given character to the end
/// of the string.
#[verifier::external_body]
pub(crate) fn push_char(s: &mut String, c: char)
    ensures
        final(s)@ == old(s)@.push(c),
{
    s.push(c);
}

/// Append the 0/1 character of a flag bit.
pub fn push_bool_bit(s: &mut String, b: bool)
    ensures
        final(s)@ == old(s)@.push(bool_bit(b)),
{
    if b {
        push_char(s, '1');
    } else {
        push_char(s, '0');
    }
}

/// The uppercase hex digit character of a value below 16.
pub fn hex_digit_char(n: u16) -> (c: char)
    requires
        n < 16,
    ensures
        c == hex_digit(n as int),
{
    match n {
        0 => '0',
        1 => '1',
        2 => '2',
        3 => '3',
        4 => '4',
        5 => '5',
        6 => '6',
        7 => '7',
        8 => '8',
        9 => '9',
        10 => 'A',
        11 => 'B',
        12 => 'C',
        13 => 'D',
        14 => 'E',
        _ => 'F',
    }
}

/// Append the hex digit character of a value below 16.
pub fn push_hex_digit(s: &mut String, n: u16)
    requires
        n < 16,
    ensures
        final(s)@ == old(s)@.push(hex_digit(n as int)),
{
    push_char(s, hex_digit_char(n));
}

/// Append the two hex digits of a byte.
pub fn push_hex2(s: &mut String, v: u8)
    ensures
        final(s)@ == old(s)@ + hex2(v),
{
    push_hex_digit(s, (v / 16) as u16);
    push_hex_digit(s, (v % 16) as u16);
    proof {
        assert(final(s)@ =~= old(s)@ + hex2(v));
    }
}

/// Append the three hex digits of a 12-bit value.
pub fn push_hex3(s: &mut String, v: u16)
    ensures
        final(s)@ == old(s)@ + hex3(v),
{
    push_hex_digit(s, (v / 256) % 16);
    push_hex_digit(s, (v / 16) % 16);
    push_hex_digit(s, v % 16);
    proof {
        assert(final(s)@ =~= old(s)@ + hex3(v));
    }
}

/// Append the four hex digits of a 16-bit word.
pub fn push_hex4(s: &mut String, v: u16)
    ensures
        final(s)@ == old(s)@ + hex4(v),
{
    push_hex_digit(s, v / 4096);
    push_hex_digit(s, (v / 256) % 16);
    push_hex_digit(s, (v / 16) % 16);
    push_hex_digit(s, v % 16);
    proof {
        assert(final(s)@ =~= old(s)@ + hex4(v));
    }
}

/// Append the decimal digits of a number, without leading zeros.
pub fn push_dec(s: &mut String, n: u64)
    ensures
        final(s)@ == old(s)@ + dec_digits(n as nat),
    decreases n,
{
    if n < 10 {
        push_hex_digit(s, n as u16);
        proof {
            assert(final(s)@ =~= old(s)@ + dec_digits(n as nat));
        }
    } else {
        push_dec(s, n / 10);
        push_hex_digit(s, (n % 10) as u16);
        proof {
            assert(final(s)@ =~= old(s)@ + dec_digits(n as nat));
        }
    }
}

} // verus!
