//! Field elements and 256-bit words, held as 32 big-endian bytes.
//!
//! The field arithmetic itself, the Pedersen hash and the 256-bit shifts and
//! additions are done by `starknet-crypto` and `crypto-bigint`. Each call into
//! them stands in one small function whose contract is taken on trust; the doc
//! comment of each says what is trusted.

use crate::numeral::{
    all_hex_digits, decimal_value, hex_digits, hex_numeral_value, hex_value, is_decimal_numeral,
    is_hex_digit, is_hex_numeral,
};
use vstd::arithmetic::power2::pow2;
use vstd::prelude::*;
use vstd::utf8::encode_utf8;

verus! {

/// The error of `FieldElement::from_dec_str` and `FieldElement::from_hex_be`,
/// carried through unopened.
#[verifier::external_type_specification]
#[verifier::external_body]
pub struct ExFromStrError(starknet_ff::FromStrError);

/// The Pedersen hash of two field elements, as `starknet-crypto` computes it.
/// Nothing is stated of it but that it is a function of the two numbers.
pub uninterp spec fn pedersen_hash_value(x: nat, y: nat) -> nat;

/// The prime of the field: 2^251 + 17 * 2^192 + 1.
pub open spec fn field_modulus() -> nat {
    0x0800000000000011000000000000000000000000000000000000000000000001nat
}

/// The number of values of a 256-bit word: 2^256.
pub open spec fn word_modulus() -> nat {
    0x1_0000000000000000_0000000000000000_0000000000000000_0000000000000000nat
}

/// The number that a sequence of bytes denotes, most significant byte first.
pub open spec fn be_value(bytes: Seq<u8>) -> nat
    decreases bytes.len(),
{
    if bytes.len() == 0 {
        0
    } else {
        be_value(bytes.drop_last()) * 256 + bytes.last() as nat
    }
}

/// Whether the number of a decimal numeral is a field element.
pub open spec fn decimal_numeral_fits(t: Seq<u8>) -> bool {
    decimal_value(t) < field_modulus()
}

/// Whether the number of a hexadecimal numeral is a field element and the
/// numeral has no more digits than a 256-bit word has.
pub open spec fn hex_numeral_fits(t: Seq<u8>) -> bool {
    hex_digits(t).len() <= 64 && hex_numeral_value(t) < field_modulus()
}

/// An element of the prime field, in canonical form.
#[derive(Clone, Copy, Debug, PartialEq, Eq)]
pub struct Felt {
    bytes: [u8; 32],
}

/// An unsigned 256-bit word.
#[derive(Clone, Copy, Debug, PartialEq, Eq)]
pub struct Word256 {
    bytes: [u8; 32],
}

impl View for Felt {
    type V = nat;

    /// The number below the field modulus that the element stands for.
    closed spec fn view(&self) -> nat {
        be_value(self.bytes@)
    }
}

impl View for Word256 {
    type V = nat;

    /// The number below 2^256 that the word stands for.
    closed spec fn view(&self) -> nat {
        be_value(self.bytes@)
    }
}

/// A sequence of zero bytes denotes zero.
proof fn lemma_be_value_zeros(bytes: Seq<u8>)
    requires
        forall|i: int| 0 <= i < bytes.len() ==> bytes[i] == 0,
    ensures
        be_value(bytes) == 0,
    decreases bytes.len(),
{
    if bytes.len() > 0 {
        lemma_be_value_zeros(bytes.drop_last());
    }
}

impl Felt {
    /// Every element is below the field modulus.
    #[verifier::type_invariant]
    pub open spec fn is_canonical(&self) -> bool {
        self@ < field_modulus()
    }

    /// The element that stands for a small number.
    pub fn from_u8(x: u8) -> (r: Felt)
        ensures
            r@ == x,
    {
        let mut bytes: [u8; 32] = [0u8; 32];
        bytes[31] = x;
        proof {
            lemma_be_value_zeros(bytes@.drop_last());
        }
        Felt { bytes }
    }

    /// Calls `FieldElement::from_dec_str` on a decimal numeral. Trusted: the
    /// call succeeds exactly when the numeral's number is below the field
    /// modulus, and then gives the element that stands for it.
    #[verifier::external_body]
    pub(crate) fn from_dec_str(s: &str) -> (r: Result<Felt, starknet_ff::FromStrError>)
        requires
            is_decimal_numeral(encode_utf8(s@)),
        ensures
            r is Ok <==> decimal_numeral_fits(encode_utf8(s@)),
            r matches Ok(f) ==> f@ == decimal_value(encode_utf8(s@)),
    {
        match starknet_crypto::FieldElement::from_dec_str(s) {
            Ok(f) => Ok(Felt { bytes: f.to_bytes_be() }),
            Err(e) => Err(e),
        }
    }

    /// Calls `FieldElement::from_hex_be` on a hexadecimal numeral. Trusted:
    /// the call succeeds exactly when the numeral has at most 64 digits and
    /// its number is below the field modulus, and then gives the element
    /// that stands for it.
    #[verifier::external_body]
    pub(crate) fn from_hex_be(s: &str) -> (r: Result<Felt, starknet_ff::FromStrError>)
        requires
            is_hex_numeral(encode_utf8(s@)),
        ensures
            r is Ok <==> hex_numeral_fits(encode_utf8(s@)),
            r matches Ok(f) ==> f@ == hex_numeral_value(encode_utf8(s@)),
    {
        match starknet_crypto::FieldElement::from_hex_be(s) {
            Ok(f) => Ok(Felt { bytes: f.to_bytes_be() }),
            Err(e) => Err(e),
        }
    }

    /// The field element that a word holds, if its number is one. The word
    /// is written out in hexadecimal and read back against the modulus.
    pub fn from_word(w: &Word256) -> (r: Option<Felt>)
        ensures
            r is Some <==> w@ < field_modulus(),
            r matches Some(f) ==> f@ == w@,
    {
        let hex = w.to_hex();
        let s = hex.as_str();
        proof {
            let t = encode_utf8(s@);
            assert(is_hex_digit(t[1]));
            assert(hex_digits(t) == t);
        }
        match Felt::from_hex_be(s) {
            Ok(f) => Some(f),
            Err(_) => None,
        }
    }

    /// The 32 bytes of the element's number, most significant first.
    pub fn to_bytes_be(&self) -> (r: [u8; 32])
        ensures
            be_value(r@) == self@,
    {
        self.bytes
    }
}

/// Whether a text is the 64 lower-case hexadecimal digits of a number.
pub open spec fn is_word_hex(t: Seq<u8>, value: nat) -> bool {
    &&& t.len() == 64
    &&& all_hex_digits(t)
    &&& forall|i: int| 0 <= i < t.len() ==> !(0x41 <= #[trigger] t[i] <= 0x46)
    &&& hex_value(t) == value
}

/// Calls `starknet_crypto::pedersen_hash`. Trusted: the digest is a function
/// of the two numbers alone, and is a field element like any other.
#[verifier::external_body]
pub(crate) fn pedersen_hash(x: &Felt, y: &Felt) -> (r: Felt)
    ensures
        r@ == pedersen_hash_value(x@, y@),
{
    let a = starknet_crypto::FieldElement::from_bytes_be(&x.bytes).unwrap();
    let b = starknet_crypto::FieldElement::from_bytes_be(&y.bytes).unwrap();
    Felt { bytes: starknet_crypto::pedersen_hash(&a, &b).to_bytes_be() }
}

impl Word256 {
    /// Calls `<<` of `crypto_bigint::U256`. Trusted: the bits move up by `n`
    /// places and those that pass the 256th are dropped, so that a shift by
    /// 256 or more leaves zero.
    #[verifier::external_body]
    pub(crate) fn shl(&self, n: usize) -> (r: Word256)
        ensures
            r@ == (self@ * pow2(n as nat)) % word_modulus(),
    {
        let w = crypto_bigint::U256::from_be_slice(&self.bytes);
        Word256 { bytes: crypto_bigint::Encoding::to_be_bytes(&(w << n)) }
    }

    /// Calls `+` of `crypto_bigint::Wrapping<U256>`. Trusted: the sum is
    /// taken modulo 2^256.
    #[verifier::external_body]
    pub(crate) fn wrapping_add(&self, rhs: &Word256) -> (r: Word256)
        ensures
            r@ == (self@ + rhs@) % word_modulus(),
    {
        let a = crypto_bigint::Wrapping(crypto_bigint::U256::from_be_slice(&self.bytes));
        let b = crypto_bigint::Wrapping(crypto_bigint::U256::from_be_slice(&rhs.bytes));
        Word256 { bytes: crypto_bigint::Encoding::to_be_bytes(&(a + b).0) }
    }

    /// Formats a `crypto_bigint::U256` with `{:x}`. Trusted: the text is the
    /// word's number in exactly 64 lower-case hexadecimal digits.
    #[verifier::external_body]
    pub(crate) fn to_hex(&self) -> (r: String)
        ensures
            is_word_hex(encode_utf8(r@), self@),
    {
        format!("{:x}", crypto_bigint::U256::from_be_slice(&self.bytes))
    }

    /// The word that holds the number of a field element.
    pub fn from_felt(f: &Felt) -> (r: Word256)
        ensures
            r@ == f@,
    {
        Word256 { bytes: f.bytes }
    }

    /// The 32 bytes of the word, most significant first.
    pub fn to_bytes_be(&self) -> (r: [u8; 32])
        ensures
            be_value(r@) == self@,
    {
        self.bytes
    }
}

} // verus!
