//! Message hashes: the packed word of a message, its reduction into the
//! field, and the rounds of Pedersen hashing that give the digest.

use crate::errno::Errno;
use crate::field::{field_modulus, pedersen_hash, pedersen_hash_value, word_modulus, Felt, Word256};
use crate::parse::parsed;
use vstd::arithmetic::div_mod::{
    lemma_add_mod_noop, lemma_fundamental_div_mod, lemma_mul_mod_noop_left, lemma_small_mod,
};
use vstd::arithmetic::power2::{lemma2_to64, lemma2_to64_rest, lemma_pow2_adds, pow2};
use vstd::prelude::*;

verus! {

/// The packed word of a message. From the top down it holds the instruction
/// type, then two vault ids of 31 bits, two amounts of 63 bits, a nonce of 31
/// bits and an expiration time stamp of 22 bits. A field wider than its slot
/// runs over into the slots above it, and what passes bit 256 is dropped.
pub open spec fn pack_spec(
    instruction_type: nat,
    vault0: nat,
    vault1: nat,
    amount0: nat,
    amount1: nat,
    nonce: nat,
    expiration_time_stamp: nat,
) -> nat {
    (instruction_type * pow2(241) + vault0 * pow2(210) + vault1 * pow2(179) + amount0 * pow2(116)
        + amount1 * pow2(53) + nonce * pow2(22) + expiration_time_stamp) % word_modulus()
}

/// One round of packing: the word moves up by `width` bits and `value` is
/// added, both modulo 2^256.
pub open spec fn pack_step(word: nat, width: nat, value: nat) -> nat {
    ((word * pow2(width)) % word_modulus() + value) % word_modulus()
}

/// The powers of two that the layout is made of.
proof fn lemma_layout_powers()
    ensures
        pow2(22) == 0x400000,
        pow2(31) == 0x80000000,
        pow2(53) == 0x20000000000000,
        pow2(63) == 0x8000000000000000,
        pow2(116) == 0x100000000000000000000000000000,
        pow2(179) == 0x800000000000000000000000000000000000000000000,
        pow2(210) == 0x40000000000000000000000000000000000000000000000000000,
        pow2(241) == 0x2000000000000000000000000000000000000000000000000000000000000,
        pow2(256) == word_modulus(),
{
    lemma2_to64();
    lemma2_to64_rest();
    lemma_pow2_adds(53, 63);
    lemma_pow2_adds(116, 63);
    lemma_pow2_adds(179, 31);
    lemma_pow2_adds(210, 31);
    lemma_pow2_adds(241, 15);
}

/// A round of packing on a word that is some number modulo 2^256 gives what
/// the round gives on that number, modulo 2^256.
proof fn lemma_pack_step(word: nat, full: nat, width: nat, value: nat)
    requires
        word == full % word_modulus(),
    ensures
        pack_step(word, width, value) == (full * pow2(width) + value) % word_modulus(),
{
    let m = word_modulus() as int;
    let k = pow2(width) as int;
    lemma_mul_mod_noop_left(full as int, k, m);
    lemma_add_mod_noop(word * k, value as int, m);
    lemma_add_mod_noop(full * k, value as int, m);
}

/// Six rounds of packing, in the order of the layout, give the packed word.
pub proof fn lemma_pack_rounds(
    instruction_type: nat,
    vault0: nat,
    vault1: nat,
    amount0: nat,
    amount1: nat,
    nonce: nat,
    expiration_time_stamp: nat,
)
    requires
        instruction_type < word_modulus(),
    ensures
        pack_step(
            pack_step(
                pack_step(
                    pack_step(
                        pack_step(pack_step(instruction_type, 31, vault0), 31, vault1),
                        63,
                        amount0,
                    ),
                    63,
                    amount1,
                ),
                31,
                nonce,
            ),
            22,
            expiration_time_stamp,
        ) == pack_spec(
            instruction_type,
            vault0,
            vault1,
            amount0,
            amount1,
            nonce,
            expiration_time_stamp,
        ),
{
    lemma_layout_powers();
    lemma_small_mod(instruction_type, word_modulus());
    let f0 = instruction_type;
    let f1 = f0 * 0x80000000 + vault0;
    let f2 = f1 * 0x80000000 + vault1;
    let f3 = f2 * 0x8000000000000000 + amount0;
    let f4 = f3 * 0x8000000000000000 + amount1;
    let f5 = f4 * 0x80000000 + nonce;
    let f6 = f5 * 0x400000 + expiration_time_stamp;
    let w1 = pack_step(f0, 31, vault0);
    let w2 = pack_step(w1, 31, vault1);
    let w3 = pack_step(w2, 63, amount0);
    let w4 = pack_step(w3, 63, amount1);
    let w5 = pack_step(w4, 31, nonce);
    let w6 = pack_step(w5, 22, expiration_time_stamp);
    lemma_pack_step(f0, f0, 31, vault0);
    lemma_pack_step(w1, f1, 31, vault1);
    lemma_pack_step(w2, f2, 63, amount0);
    lemma_pack_step(w3, f3, 63, amount1);
    lemma_pack_step(w4, f4, 31, nonce);
    lemma_pack_step(w5, f5, 22, expiration_time_stamp);
    assert(w6 == f6 % word_modulus());
    assert(f6 == instruction_type * pow2(241) + vault0 * pow2(210) + vault1 * pow2(179) + amount0
        * pow2(116) + amount1 * pow2(53) + nonce * pow2(22) + expiration_time_stamp);
}

/// Packs the numeric fields of a message into one 256-bit word.
pub fn pack_message(
    instruction_type: &Felt,
    vault0: &Felt,
    vault1: &Felt,
    amount0: &Felt,
    amount1: &Felt,
    nonce: &Felt,
    expiration_time_stamp: &Felt,
) -> (r: Word256)
    ensures
        r@ == pack_spec(
            instruction_type@,
            vault0@,
            vault1@,
            amount0@,
            amount1@,
            nonce@,
            expiration_time_stamp@,
        ),
{
    proof {
        use_type_invariant(instruction_type);
        lemma_pack_rounds(
            instruction_type@,
            vault0@,
            vault1@,
            amount0@,
            amount1@,
            nonce@,
            expiration_time_stamp@,
        );
    }
    let mut packaged_message = Word256::from_felt(instruction_type);
    packaged_message = packaged_message.shl(31).wrapping_add(&Word256::from_felt(vault0));
    packaged_message = packaged_message.shl(31).wrapping_add(&Word256::from_felt(vault1));
    packaged_message = packaged_message.shl(63).wrapping_add(&Word256::from_felt(amount0));
    packaged_message = packaged_message.shl(63).wrapping_add(&Word256::from_felt(amount1));
    packaged_message = packaged_message.shl(31).wrapping_add(&Word256::from_felt(nonce));
    packaged_message = packaged_message.shl(22).wrapping_add(
        &Word256::from_felt(expiration_time_stamp),
    );
    packaged_message
}

/// The digest of a packed message under two keys: two rounds of hashing, or
/// three where the message carries a condition.
pub open spec fn compose_spec(
    packed: nat,
    token0: nat,
    token1_or_pub_key: nat,
    condition: Option<nat>,
) -> nat {
    match condition {
        Some(value) => pedersen_hash_value(
            pedersen_hash_value(pedersen_hash_value(token0, token1_or_pub_key), value),
            packed,
        ),
        None => pedersen_hash_value(pedersen_hash_value(token0, token1_or_pub_key), packed),
    }
}

/// The two numbers that go into the last round of hashing.
pub open spec fn last_round(
    packed: nat,
    token0: nat,
    token1_or_pub_key: nat,
    condition: Option<nat>,
) -> (nat, nat) {
    match condition {
        Some(value) => (
            pedersen_hash_value(pedersen_hash_value(token0, token1_or_pub_key), value),
            packed,
        ),
        None => (pedersen_hash_value(token0, token1_or_pub_key), packed),
    }
}

/// Whether two pairs of numbers are kept apart by the hash: they are the
/// same pair, or their hashes differ.
pub open spec fn no_collision(a: (nat, nat), b: (nat, nat)) -> bool {
    pedersen_hash_value(a.0, a.1) == pedersen_hash_value(b.0, b.1) ==> a == b
}

/// The number of an optional field element.
pub open spec fn condition_value(condition: Option<Felt>) -> Option<nat> {
    match condition {
        Some(value) => Some(value@),
        None => None,
    }
}

/// Hashes a packed message with its two keys and its condition, if any.
pub fn compose_hash(
    packed: &Felt,
    token0: &Felt,
    token1_or_pub_key: &Felt,
    condition: &Option<Felt>,
) -> (r: Felt)
    ensures
        r@ == compose_spec(packed@, token0@, token1_or_pub_key@, condition_value(*condition)),
{
    match condition {
        Some(value) => pedersen_hash(
            &pedersen_hash(&pedersen_hash(token0, token1_or_pub_key), value),
            packed,
        ),
        None => pedersen_hash(&pedersen_hash(token0, token1_or_pub_key), packed),
    }
}

/// The digest of a message given by its field values: the packed word must
/// be a field element, and is then hashed with the keys and the condition.
pub open spec fn hash_msg_spec(
    instruction_type: nat,
    vault0: nat,
    vault1: nat,
    amount0: nat,
    amount1: nat,
    nonce: nat,
    expiration_time_stamp: nat,
    token0: nat,
    token1_or_pub_key: nat,
    condition: Option<nat>,
) -> Result<nat, Errno> {
    let packed = pack_spec(
        instruction_type,
        vault0,
        vault1,
        amount0,
        amount1,
        nonce,
        expiration_time_stamp,
    );
    if packed < field_modulus() {
        Ok(compose_spec(packed, token0, token1_or_pub_key, condition))
    } else {
        Err(Errno::HashComputationError)
    }
}

/// Computes the digest of a message from its field values.
pub fn hash_msg(
    instruction_type: Felt,
    vault0: Felt,
    vault1: Felt,
    amount0: Felt,
    amount1: Felt,
    nonce: Felt,
    expiration_time_stamp: Felt,
    token0: Felt,
    token1_or_pub_key: Felt,
    condition: Option<Felt>,
) -> (r: Result<Felt, Errno>)
    ensures
        parsed(r) == hash_msg_spec(
            instruction_type@,
            vault0@,
            vault1@,
            amount0@,
            amount1@,
            nonce@,
            expiration_time_stamp@,
            token0@,
            token1_or_pub_key@,
            condition_value(condition),
        ),
{
    let packaged_message = pack_message(
        &instruction_type,
        &vault0,
        &vault1,
        &amount0,
        &amount1,
        &nonce,
        &expiration_time_stamp,
    );
    let packaged_message = match Felt::from_word(&packaged_message) {
        Some(f) => f,
        None => { return Err(Errno::HashComputationError); },
    };
    Ok(compose_hash(&packaged_message, &token0, &token1_or_pub_key, &condition))
}

/// Whether each field of a message fits the slot that the layout gives it,
/// and the instruction type is one of those in use.
pub open spec fn fits_slots(
    instruction_type: nat,
    vault0: nat,
    vault1: nat,
    amount0: nat,
    amount1: nat,
    nonce: nat,
    expiration_time_stamp: nat,
) -> bool {
    &&& instruction_type <= 2
    &&& vault0 < pow2(31)
    &&& vault1 < pow2(31)
    &&& amount0 < pow2(63)
    &&& amount1 < pow2(63)
    &&& nonce < pow2(31)
    &&& expiration_time_stamp < pow2(22)
}

/// Where every field fits its slot nothing runs over and nothing is dropped:
/// the packed word is the plain sum of the shifted fields, it is a field
/// element, and so the message has a digest.
pub proof fn lemma_fields_in_slots_pack_exactly(
    instruction_type: nat,
    vault0: nat,
    vault1: nat,
    amount0: nat,
    amount1: nat,
    nonce: nat,
    expiration_time_stamp: nat,
    token0: nat,
    token1_or_pub_key: nat,
    condition: Option<nat>,
)
    requires
        fits_slots(
            instruction_type,
            vault0,
            vault1,
            amount0,
            amount1,
            nonce,
            expiration_time_stamp,
        ),
    ensures
        pack_spec(
            instruction_type,
            vault0,
            vault1,
            amount0,
            amount1,
            nonce,
            expiration_time_stamp,
        ) == instruction_type * pow2(241) + vault0 * pow2(210) + vault1 * pow2(179) + amount0
            * pow2(116) + amount1 * pow2(53) + nonce * pow2(22) + expiration_time_stamp,
        pack_spec(
            instruction_type,
            vault0,
            vault1,
            amount0,
            amount1,
            nonce,
            expiration_time_stamp,
        ) < pow2(243),
        pow2(243) < field_modulus(),
        hash_msg_spec(
            instruction_type,
            vault0,
            vault1,
            amount0,
            amount1,
            nonce,
            expiration_time_stamp,
            token0,
            token1_or_pub_key,
            condition,
        ) is Ok,
{
    lemma_layout_powers();
    lemma_pow2_adds(241, 2);
    lemma2_to64();
    let sum = instruction_type * pow2(241) + vault0 * pow2(210) + vault1 * pow2(179) + amount0
        * pow2(116) + amount1 * pow2(53) + nonce * pow2(22) + expiration_time_stamp;
    assert(sum < pow2(243));
    lemma_small_mod(sum, word_modulus());
}

/// A number written as `high * base + low` with `low` below `base` is
/// written so in one way only.
proof fn lemma_split_is_unique(high_a: nat, low_a: nat, high_b: nat, low_b: nat, base: nat)
    by (nonlinear_arith)
    requires
        low_a < base,
        low_b < base,
        high_a * base + low_a == high_b * base + low_b,
    ensures
        high_a == high_b,
        low_a == low_b,
{
}

/// Two messages whose fields all fit their slots and that pack to the same
/// word have the same fields.
pub proof fn lemma_pack_is_injective_within_slots(a: Seq<nat>, b: Seq<nat>)
    requires
        a.len() == 7,
        b.len() == 7,
        fits_slots(a[0], a[1], a[2], a[3], a[4], a[5], a[6]),
        fits_slots(b[0], b[1], b[2], b[3], b[4], b[5], b[6]),
        pack_spec(a[0], a[1], a[2], a[3], a[4], a[5], a[6]) == pack_spec(
            b[0],
            b[1],
            b[2],
            b[3],
            b[4],
            b[5],
            b[6],
        ),
    ensures
        a =~= b,
{
    lemma_fields_in_slots_pack_exactly(a[0], a[1], a[2], a[3], a[4], a[5], a[6], 0, 0, None);
    lemma_fields_in_slots_pack_exactly(b[0], b[1], b[2], b[3], b[4], b[5], b[6], 0, 0, None);
    lemma_layout_powers();
    let a1 = a[0] * 0x80000000 + a[1];
    let a2 = a1 * 0x80000000 + a[2];
    let a3 = a2 * 0x8000000000000000 + a[3];
    let a4 = a3 * 0x8000000000000000 + a[4];
    let a5 = a4 * 0x80000000 + a[5];
    let b1 = b[0] * 0x80000000 + b[1];
    let b2 = b1 * 0x80000000 + b[2];
    let b3 = b2 * 0x8000000000000000 + b[3];
    let b4 = b3 * 0x8000000000000000 + b[4];
    let b5 = b4 * 0x80000000 + b[5];
    assert(a5 * 0x400000 + a[6] == b5 * 0x400000 + b[6]);
    lemma_split_is_unique(a5, a[6], b5, b[6], 0x400000);
    lemma_split_is_unique(a4, a[5], b4, b[5], 0x80000000);
    lemma_split_is_unique(a3, a[4], b3, b[4], 0x8000000000000000);
    lemma_split_is_unique(a2, a[3], b2, b[3], 0x8000000000000000);
    lemma_split_is_unique(a1, a[2], b1, b[2], 0x80000000);
    lemma_split_is_unique(a[0], a[1], b[0], b[1], 0x80000000);
}

/// The instruction type reaches the packed word whatever the other fields
/// hold: a transfer with a condition and one without never pack alike.
pub proof fn lemma_instruction_type_changes_word(
    vault0: nat,
    vault1: nat,
    amount0: nat,
    amount1: nat,
    nonce: nat,
    expiration_time_stamp: nat,
)
    ensures
        pack_spec(1, vault0, vault1, amount0, amount1, nonce, expiration_time_stamp) != pack_spec(
            2,
            vault0,
            vault1,
            amount0,
            amount1,
            nonce,
            expiration_time_stamp,
        ),
{
    lemma_layout_powers();
    let rest = vault0 * pow2(210) + vault1 * pow2(179) + amount0 * pow2(116) + amount1 * pow2(53)
        + nonce * pow2(22) + expiration_time_stamp;
    let m = word_modulus() as int;
    let x = 1 * pow2(241) + rest;
    let y = 2 * pow2(241) + rest;
    lemma_fundamental_div_mod(x as int, m);
    lemma_fundamental_div_mod(y as int, m);
    if x % word_modulus() == y % word_modulus() {
        let d = (y as int) / m - (x as int) / m;
        assert(m * d == pow2(241)) by (nonlinear_arith)
            requires
                x == m * ((x as int) / m) + (x as int) % m,
                y == m * ((y as int) / m) + (y as int) % m,
                (x as int) % m == (y as int) % m,
                y - x == pow2(241),
                d == (y as int) / m - (x as int) / m,
        ;
        assert(false) by (nonlinear_arith)
            requires
                m * d == pow2(241),
                0 < pow2(241) < m,
        ;
    }
}

} // verus!
