//! From a text handle to a field element.
//!
//! A handle is the text that a caller hands over for one field of a message,
//! as bytes, or nothing at all. The checks run in a fixed order and the first
//! that fails names the error: the handle is there, its bytes are UTF-8, the
//! text is a numeral of the field's radix, the numeral's number is a field
//! element.

use crate::errno::Errno;
use crate::field::{decimal_numeral_fits, hex_numeral_fits, Felt};
use crate::numeral::{
    decimal_value, hex_numeral_value, is_decimal_numeral, is_decimal_text, is_hex_numeral,
    is_hex_text,
};
use vstd::prelude::*;
use vstd::utf8::{encode_utf8, valid_utf8};

verus! {

/// The error of `core::str::from_utf8`, carried through unopened.
#[verifier::external_type_specification]
#[verifier::external_body]
pub struct ExUtf8Error(core::str::Utf8Error);

/// `core::str::from_utf8` succeeds exactly on well-formed UTF-8, and the
/// string slice it then gives has the very bytes it was given.
pub assume_specification[ core::str::from_utf8 ](v: &[u8]) -> (r: Result<
    &str,
    core::str::Utf8Error,
>)
    ensures
        r is Ok <==> valid_utf8(v@),
        r matches Ok(s) ==> encode_utf8(s@) == v@,
;

/// The text of one numeric field as the caller hands it over: its bytes, or
/// `None` where the caller gave no text.
pub type BigInt = Option<Vec<u8>>;

/// The bytes behind a handle.
pub open spec fn handle_text(i: BigInt) -> Option<Seq<u8>> {
    match i {
        Some(bytes) => Some(bytes@),
        None => None,
    }
}

/// The number of a parsed element, or the error that came in its place.
pub open spec fn parsed(r: Result<Felt, Errno>) -> Result<nat, Errno> {
    match r {
        Ok(f) => Ok(f@),
        Err(e) => Err(e),
    }
}

/// What a decimal field holds: its number, or the first check that fails.
pub open spec fn parse_decimal(text: Option<Seq<u8>>) -> Result<nat, Errno> {
    match text {
        None => Err(Errno::InvalidNullPtr),
        Some(t) => if !valid_utf8(t) {
            Err(Errno::InvalidTextEncoding)
        } else if !is_decimal_numeral(t) {
            Err(Errno::InvalidNumeralSyntax)
        } else if !decimal_numeral_fits(t) {
            Err(Errno::NumeralOutOfRange)
        } else {
            Ok(decimal_value(t))
        },
    }
}

/// What a hexadecimal field holds: its number, or the first check that
/// fails. A numeral of more than 64 digits is out of range whatever its
/// number.
pub open spec fn parse_hex(text: Option<Seq<u8>>) -> Result<nat, Errno> {
    match text {
        None => Err(Errno::InvalidNullPtr),
        Some(t) => if !valid_utf8(t) {
            Err(Errno::InvalidTextEncoding)
        } else if !is_hex_numeral(t) {
            Err(Errno::InvalidNumeralSyntax)
        } else if !hex_numeral_fits(t) {
            Err(Errno::NumeralOutOfRange)
        } else {
            Ok(hex_numeral_value(t))
        },
    }
}

/// Reads a decimal field.
pub fn parse_bigint_decimal(i: &BigInt) -> (r: Result<Felt, Errno>)
    ensures
        parsed(r) == parse_decimal(handle_text(*i)),
{
    let bytes = match i {
        Some(bytes) => bytes.as_slice(),
        None => { return Err(Errno::InvalidNullPtr); },
    };
    let s = match core::str::from_utf8(bytes) {
        Ok(s) => s,
        Err(_) => { return Err(Errno::InvalidTextEncoding); },
    };
    if !is_decimal_text(bytes) {
        return Err(Errno::InvalidNumeralSyntax);
    }
    match Felt::from_dec_str(s) {
        Ok(f) => Ok(f),
        Err(_) => Err(Errno::NumeralOutOfRange),
    }
}

/// Reads a hexadecimal field.
pub fn parse_bigint(i: &BigInt) -> (r: Result<Felt, Errno>)
    ensures
        parsed(r) == parse_hex(handle_text(*i)),
{
    let bytes = match i {
        Some(bytes) => bytes.as_slice(),
        None => { return Err(Errno::InvalidNullPtr); },
    };
    let s = match core::str::from_utf8(bytes) {
        Ok(s) => s,
        Err(_) => { return Err(Errno::InvalidTextEncoding); },
    };
    if !is_hex_text(bytes) {
        return Err(Errno::InvalidNumeralSyntax);
    }
    match Felt::from_hex_be(s) {
        Ok(f) => Ok(f),
        Err(_) => Err(Errno::NumeralOutOfRange),
    }
}

} // verus!
