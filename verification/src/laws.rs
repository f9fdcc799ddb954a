//! What holds of the parsers and of the digests on every input.

use crate::errno::Errno;
use crate::field::{field_modulus, hex_numeral_fits};
use crate::hash::{hash_msg_spec, lemma_instruction_type_changes_word, no_collision};
use crate::message::{
    limit_order_handles, limit_order_msg_hash_spec, limit_order_reading, parse_condition,
    transfer_condition_round, transfer_handles, transfer_last_round, transfer_msg_hash_spec,
    transfer_reading, transfer_word, LimitOrderMsg, TransferMsg,
};
use crate::numeral::{
    decimal_value, has_hex_prefix, hex_digits, is_dec_digit, is_decimal_numeral, is_hex_digit,
    is_hex_numeral,
};
use crate::parse::{handle_text, parse_decimal, parse_hex};
use vstd::prelude::*;
use vstd::utf8::{partial_valid_utf8_extend_ascii_block, valid_utf8};

verus! {

/// A text of ASCII bytes is well-formed UTF-8.
pub proof fn lemma_ascii_is_utf8(t: Seq<u8>)
    requires
        forall|i: int| 0 <= i < t.len() ==> t[i] <= 0x7f,
    ensures
        valid_utf8(t),
{
    partial_valid_utf8_extend_ascii_block(t, 0, t.len() as int);
    assert(t.subrange(0, t.len() as int) =~= t);
}

/// A decimal field refuses a numeral whose number is the field modulus or
/// more as out of range, and refuses a well-encoded text that is no decimal
/// numeral, the empty text among them, for its syntax.
pub proof fn lemma_decimal_field_rejections(t: Seq<u8>)
    ensures
        is_decimal_numeral(t) && decimal_value(t) >= field_modulus() ==> parse_decimal(Some(t))
            == Err::<nat, Errno>(Errno::NumeralOutOfRange),
        valid_utf8(t) && !is_decimal_numeral(t) ==> parse_decimal(Some(t)) == Err::<nat, Errno>(
            Errno::InvalidNumeralSyntax,
        ),
        t.len() == 0 ==> parse_decimal(Some(t)) == Err::<nat, Errno>(Errno::InvalidNumeralSyntax),
{
    if is_decimal_numeral(t) {
        assert forall|i: int| 0 <= i < t.len() implies t[i] <= 0x7f by {
            assert(is_dec_digit(t[i]));
        }
        lemma_ascii_is_utf8(t);
    }
}

/// A hexadecimal field refuses a numeral of more than 64 digits, or whose
/// number is the field modulus or more, as out of range, and refuses a
/// well-encoded text that is no hexadecimal numeral, the empty text and the
/// bare `0x` among them, for its syntax.
pub proof fn lemma_hex_field_rejections(t: Seq<u8>)
    ensures
        is_hex_numeral(t) && !hex_numeral_fits(t) ==> parse_hex(Some(t)) == Err::<nat, Errno>(
            Errno::NumeralOutOfRange,
        ),
        valid_utf8(t) && !is_hex_numeral(t) ==> parse_hex(Some(t)) == Err::<nat, Errno>(
            Errno::InvalidNumeralSyntax,
        ),
        hex_digits(t).len() == 0 ==> parse_hex(Some(t)) == Err::<nat, Errno>(
            Errno::InvalidNumeralSyntax,
        ),
{
    if is_hex_numeral(t) {
        lemma_hex_numeral_is_utf8(t);
    }
    if hex_digits(t).len() == 0 {
        assert forall|i: int| 0 <= i < t.len() implies t[i] <= 0x7f by {}
        lemma_ascii_is_utf8(t);
    }
}

/// A hexadecimal numeral is well-formed UTF-8.
pub proof fn lemma_hex_numeral_is_utf8(t: Seq<u8>)
    requires
        is_hex_numeral(t),
    ensures
        valid_utf8(t),
{
    assert forall|i: int| 0 <= i < t.len() implies t[i] <= 0x7f by {
        if has_hex_prefix(t) {
            if i >= 2 {
                assert(is_hex_digit(hex_digits(t)[i - 2]));
            }
        } else {
            assert(is_hex_digit(hex_digits(t)[i]));
        }
    }
    lemma_ascii_is_utf8(t);
}

/// A decimal field does not take the hexadecimal form of a number for a
/// decimal one: a hexadecimal numeral that carries the `0x` or holds a
/// letter is refused for its syntax.
pub proof fn lemma_decimal_field_refuses_hex_form(t: Seq<u8>, i: int)
    requires
        is_hex_numeral(t),
        has_hex_prefix(t) || (0 <= i < t.len() && !is_dec_digit(t[i])),
    ensures
        parse_decimal(Some(t)) == Err::<nat, Errno>(Errno::InvalidNumeralSyntax),
{
    lemma_hex_numeral_is_utf8(t);
    if has_hex_prefix(t) {
        assert(!is_dec_digit(t[1]));
    }
}

/// A missing handle is reported as such by both kinds of field.
pub proof fn lemma_null_handle_is_reported()
    ensures
        parse_decimal(None) == Err::<nat, Errno>(Errno::InvalidNullPtr),
        parse_hex(None) == Err::<nat, Errno>(Errno::InvalidNullPtr),
{
}

/// The digest of a transfer is a function of what its fields hold: two
/// transfers whose fields read alike, whatever their texts, have the same
/// digest or the same error.
pub proof fn lemma_transfer_digest_depends_on_values(a: TransferMsg, b: TransferMsg)
    requires
        transfer_reading(a) == transfer_reading(b),
        parse_condition(handle_text(a.condition)) == parse_condition(handle_text(b.condition)),
    ensures
        transfer_msg_hash_spec(a) == transfer_msg_hash_spec(b),
{
    let ra = transfer_reading(a);
    let rb = transfer_reading(b);
    assert(ra[0] == rb[0] && ra[1] == rb[1] && ra[2] == rb[2] && ra[3] == rb[3] && ra[4] == rb[4]
        && ra[5] == rb[5] && ra[6] == rb[6]);
}

/// The digest of a limit order is a function of what its fields hold.
pub proof fn lemma_limit_order_digest_depends_on_values(a: LimitOrderMsg, b: LimitOrderMsg)
    requires
        limit_order_reading(a) == limit_order_reading(b),
    ensures
        limit_order_msg_hash_spec(a) == limit_order_msg_hash_spec(b),
{
    let ra = limit_order_reading(a);
    let rb = limit_order_reading(b);
    assert(ra[0] == rb[0] && ra[1] == rb[1] && ra[2] == rb[2] && ra[3] == rb[3] && ra[4] == rb[4]
        && ra[5] == rb[5] && ra[6] == rb[6] && ra[7] == rb[7]);
}

/// Absence of a condition has one representation, the missing handle. No
/// text is read as absence, and a transfer without the handle is hashed with
/// instruction type 1 and without a round for the condition.
pub proof fn lemma_absence_is_the_missing_handle(msg: TransferMsg)
    ensures
        parse_condition(handle_text(msg.condition)) == Ok::<Option<nat>, Errno>(None)
            <==> msg.condition is None,
        msg.condition is None && transfer_msg_hash_spec(msg) is Ok ==> transfer_msg_hash_spec(msg)
            == hash_msg_spec(
            1,
            transfer_reading(msg)[2]->Ok_0,
            transfer_reading(msg)[4]->Ok_0,
            transfer_reading(msg)[0]->Ok_0,
            0,
            transfer_reading(msg)[1]->Ok_0,
            transfer_reading(msg)[6]->Ok_0,
            transfer_reading(msg)[3]->Ok_0,
            transfer_reading(msg)[5]->Ok_0,
            None,
        ),
        msg.condition is Some && transfer_msg_hash_spec(msg) is Ok ==> transfer_msg_hash_spec(msg)
            == hash_msg_spec(
            2,
            transfer_reading(msg)[2]->Ok_0,
            transfer_reading(msg)[4]->Ok_0,
            transfer_reading(msg)[0]->Ok_0,
            0,
            transfer_reading(msg)[1]->Ok_0,
            transfer_reading(msg)[6]->Ok_0,
            transfer_reading(msg)[3]->Ok_0,
            transfer_reading(msg)[5]->Ok_0,
            Some(parse_hex(handle_text(msg.condition))->Ok_0),
        ),
{
}

/// Two transfers that are alike but for the one having a condition and the
/// other none have different packed words, and where either has a digest
/// their outcomes differ, unless the hash collides in its last round.
pub proof fn lemma_condition_presence_changes_digest(a: TransferMsg, b: TransferMsg)
    requires
        transfer_reading(a) == transfer_reading(b),
        a.condition is None,
        b.condition is Some,
        transfer_msg_hash_spec(a) is Ok || transfer_msg_hash_spec(b) is Ok,
        no_collision(transfer_last_round(a), transfer_last_round(b)),
    ensures
        parse_hex(handle_text(b.condition)) is Ok ==> transfer_word(a) != transfer_word(b),
        transfer_msg_hash_spec(a) != transfer_msg_hash_spec(b),
{
    let f = transfer_reading(a);
    let g = transfer_reading(b);
    assert(f[0] == g[0] && f[1] == g[1] && f[2] == g[2] && f[3] == g[3] && f[4] == g[4] && f[5]
        == g[5] && f[6] == g[6]);
    lemma_instruction_type_changes_word(
        f[2]->Ok_0,
        f[4]->Ok_0,
        f[0]->Ok_0,
        0,
        f[1]->Ok_0,
        f[6]->Ok_0,
    );
}

/// Two transfers that are alike but for the number of their condition have
/// different digests, unless the hash collides in the round that takes the
/// condition in or in the last one.
pub proof fn lemma_digest_depends_on_condition(a: TransferMsg, b: TransferMsg)
    requires
        transfer_reading(a) == transfer_reading(b),
        parse_hex(handle_text(a.condition)) is Ok,
        parse_hex(handle_text(b.condition)) is Ok,
        parse_hex(handle_text(a.condition)) != parse_hex(handle_text(b.condition)),
        transfer_msg_hash_spec(a) is Ok,
        transfer_msg_hash_spec(b) is Ok,
        no_collision(transfer_condition_round(a), transfer_condition_round(b)),
        no_collision(transfer_last_round(a), transfer_last_round(b)),
    ensures
        transfer_msg_hash_spec(a) != transfer_msg_hash_spec(b),
{
    let f = transfer_reading(a);
    let g = transfer_reading(b);
    assert(f[0] == g[0] && f[1] == g[1] && f[2] == g[2] && f[3] == g[3] && f[4] == g[4] && f[5]
        == g[5] && f[6] == g[6]);
}

/// An error is never the success status: an entry point reports success
/// exactly when it has written a digest.
pub proof fn lemma_errors_are_failures(transfer: TransferMsg, order: LimitOrderMsg)
    ensures
        transfer_msg_hash_spec(transfer) matches Err(e) ==> e.is_failure(),
        limit_order_msg_hash_spec(order) matches Err(e) ==> e.is_failure(),
{
}

/// A transfer that lacks a required field, every field read before it being
/// in order, is refused for the missing handle.
pub proof fn lemma_transfer_missing_field(msg: TransferMsg, k: int)
    requires
        0 <= k < 7,
        transfer_handles(msg)[k] is None,
        forall|j: int| 0 <= j < k ==> (#[trigger] transfer_reading(msg)[j]) is Ok,
    ensures
        transfer_msg_hash_spec(msg) == Err::<nat, Errno>(Errno::InvalidNullPtr),
{
    let r = transfer_reading(msg);
    let h = transfer_handles(msg);
    assert(k > 0 ==> r[0] is Ok);
    assert(k > 1 ==> r[1] is Ok);
    assert(k > 2 ==> r[2] is Ok);
    assert(k > 3 ==> r[3] is Ok);
    assert(k > 4 ==> r[4] is Ok);
    assert(k > 5 ==> r[5] is Ok);
    assert(h[k] is None);
}

/// A limit order that lacks a field, every field read before it being in
/// order, is refused for the missing handle.
pub proof fn lemma_limit_order_missing_field(msg: LimitOrderMsg, k: int)
    requires
        0 <= k < 8,
        limit_order_handles(msg)[k] is None,
        forall|j: int| 0 <= j < k ==> (#[trigger] limit_order_reading(msg)[j]) is Ok,
    ensures
        limit_order_msg_hash_spec(msg) == Err::<nat, Errno>(Errno::InvalidNullPtr),
{
    let r = limit_order_reading(msg);
    let h = limit_order_handles(msg);
    assert(k > 0 ==> r[0] is Ok);
    assert(k > 1 ==> r[1] is Ok);
    assert(k > 2 ==> r[2] is Ok);
    assert(k > 3 ==> r[3] is Ok);
    assert(k > 4 ==> r[4] is Ok);
    assert(k > 5 ==> r[5] is Ok);
    assert(k > 6 ==> r[6] is Ok);
    assert(h[k] is None);
}

} // verus!
