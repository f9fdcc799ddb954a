//! The textual numerals that message fields are written in.
//!
//! A decimal field holds one or more ASCII digits. A hexadecimal field holds
//! one or more hexadecimal digits of either case, after an optional `0x`.
//! Nothing else is a numeral: no sign, no blank, no empty text.

use vstd::prelude::*;

verus! {

/// Whether a byte is one of the ASCII digits `0` to `9`.
pub open spec fn is_dec_digit(b: u8) -> bool {
    0x30 <= b <= 0x39
}

/// Whether a byte is an ASCII hexadecimal digit, of either case.
pub open spec fn is_hex_digit(b: u8) -> bool {
    is_dec_digit(b) || (0x61 <= b <= 0x66) || (0x41 <= b <= 0x46)
}

/// The number that a hexadecimal digit stands for.
pub open spec fn hex_digit_value(b: u8) -> nat {
    if is_dec_digit(b) {
        (b - 0x30) as nat
    } else if 0x61 <= b <= 0x66 {
        (b - 0x61 + 10) as nat
    } else {
        (b - 0x41 + 10) as nat
    }
}

/// Whether every byte of a text is a decimal digit.
pub open spec fn all_dec_digits(t: Seq<u8>) -> bool {
    forall|i: int| 0 <= i < t.len() ==> is_dec_digit(#[trigger] t[i])
}

/// Whether every byte of a text is a hexadecimal digit.
pub open spec fn all_hex_digits(t: Seq<u8>) -> bool {
    forall|i: int| 0 <= i < t.len() ==> is_hex_digit(#[trigger] t[i])
}

/// Whether a text is a decimal numeral.
pub open spec fn is_decimal_numeral(t: Seq<u8>) -> bool {
    t.len() > 0 && all_dec_digits(t)
}

/// The number that a sequence of decimal digits denotes.
pub open spec fn decimal_value(t: Seq<u8>) -> nat
    decreases t.len(),
{
    if t.len() == 0 {
        0
    } else {
        decimal_value(t.drop_last()) * 10 + (t.last() - 0x30) as nat
    }
}

/// Whether a text begins with `0x`.
pub open spec fn has_hex_prefix(t: Seq<u8>) -> bool {
    t.len() >= 2 && t[0] == 0x30 && t[1] == 0x78
}

/// The digits of a hexadecimal text: what follows the `0x`, if there is one.
pub open spec fn hex_digits(t: Seq<u8>) -> Seq<u8> {
    if has_hex_prefix(t) {
        t.skip(2)
    } else {
        t
    }
}

/// Whether a text is a hexadecimal numeral.
pub open spec fn is_hex_numeral(t: Seq<u8>) -> bool {
    hex_digits(t).len() > 0 && all_hex_digits(hex_digits(t))
}

/// The number that a sequence of hexadecimal digits denotes.
pub open spec fn hex_value(d: Seq<u8>) -> nat
    decreases d.len(),
{
    if d.len() == 0 {
        0
    } else {
        hex_value(d.drop_last()) * 16 + hex_digit_value(d.last())
    }
}

/// The number that a hexadecimal numeral denotes.
pub open spec fn hex_numeral_value(t: Seq<u8>) -> nat {
    hex_value(hex_digits(t))
}

/// Tells whether a text is a decimal numeral.
pub fn is_decimal_text(t: &[u8]) -> (b: bool)
    ensures
        b == is_decimal_numeral(t@),
{
    if t.len() == 0 {
        return false;
    }
    let mut i: usize = 0;
    while i < t.len()
        invariant
            i <= t.len(),
            all_dec_digits(t@.take(i as int)),
        decreases t.len() - i,
    {
        let b: u8 = t[i];
        if b < 0x30 || b > 0x39 {
            return false;
        }
        i += 1;
    }
    assert(t@.take(i as int) == t@);
    true
}

/// Tells whether the bytes of a text from `start` on are all hexadecimal
/// digits.
fn all_hex_from(t: &[u8], start: usize) -> (b: bool)
    requires
        start <= t.len(),
    ensures
        b == all_hex_digits(t@.skip(start as int)),
{
    let mut i: usize = start;
    while i < t.len()
        invariant
            start <= i <= t.len(),
            all_hex_digits(t@.subrange(start as int, i as int)),
        decreases t.len() - i,
    {
        let b: u8 = t[i];
        let digit = (0x30 <= b && b <= 0x39) || (0x61 <= b && b <= 0x66) || (0x41 <= b && b
            <= 0x46);
        if !digit {
            assert(t@.skip(start as int)[i - start] == b);
            return false;
        }
        i += 1;
    }
    assert(t@.subrange(start as int, i as int) == t@.skip(start as int));
    true
}

/// Tells whether a text is a hexadecimal numeral.
pub fn is_hex_text(t: &[u8]) -> (b: bool)
    ensures
        b == is_hex_numeral(t@),
{
    let start: usize = if t.len() >= 2 && t[0] == 0x30 && t[1] == 0x78 {
        2
    } else {
        0
    };
    assert(hex_digits(t@) == t@.skip(start as int));
    if t.len() == start {
        return false;
    }
    all_hex_from(t, start)
}

} // verus!
