//! The two kinds of message and their digests.
//!
//! The fields of a message are read in a fixed order, and the first field
//! that cannot be read names the error of the whole message.

use crate::errno::Errno;
use crate::field::{be_value, field_modulus, pedersen_hash_value, Felt};
use crate::hash::{hash_msg, hash_msg_spec, last_round, pack_spec};
use crate::parse::{
    handle_text, parse_bigint, parse_bigint_decimal, parse_decimal, parse_hex, parsed, BigInt,
};
use vstd::prelude::*;

verus! {

/// A transfer of an asset from one vault to another.
pub struct TransferMsg {
    /// decimal string
    pub amount: BigInt,
    /// decimal string
    pub nonce: BigInt,
    /// decimal string
    pub sender_vault_id: BigInt,
    /// hex string
    pub token: BigInt,
    /// decimal string
    pub receiver_vault_id: BigInt,
    /// hex string
    pub receiver_public_key: BigInt,
    /// decimal string
    pub expiration_time_stamp: BigInt,
    /// hex string; `None` where the transfer has no condition
    pub condition: BigInt,
}

/// An order to sell an amount of one token for an amount of another.
pub struct LimitOrderMsg {
    /// decimal string
    pub vault_sell: BigInt,
    /// decimal string
    pub vault_buy: BigInt,
    /// decimal string
    pub amount_sell: BigInt,
    /// decimal string
    pub amount_buy: BigInt,
    /// hex string
    pub token_sell: BigInt,
    /// hex string
    pub token_buy: BigInt,
    /// decimal string
    pub nonce: BigInt,
    /// decimal string
    pub expiration_time_stamp: BigInt,
}

/// What the condition of a transfer holds: nothing where the handle is
/// absent, else the number of its text or the check that the text fails.
pub open spec fn parse_condition(text: Option<Seq<u8>>) -> Result<Option<nat>, Errno> {
    match text {
        None => Ok(None),
        Some(t) => match parse_hex(Some(t)) {
            Ok(value) => Ok(Some(value)),
            Err(e) => Err(e),
        },
    }
}

/// The instruction type of a transfer: 1 without a condition, 2 with one.
pub open spec fn transfer_instruction_type(condition: Option<nat>) -> nat {
    if condition is None {
        1
    } else {
        2
    }
}

/// The digest of a transfer, or the error of the first field that cannot be
/// read, or of the packed word where it is no field element.
pub open spec fn transfer_msg_hash_spec(msg: TransferMsg) -> Result<nat, Errno> {
    let amount = parse_decimal(handle_text(msg.amount));
    let nonce = parse_decimal(handle_text(msg.nonce));
    let sender_vault_id = parse_decimal(handle_text(msg.sender_vault_id));
    let token = parse_hex(handle_text(msg.token));
    let receiver_vault_id = parse_decimal(handle_text(msg.receiver_vault_id));
    let receiver_public_key = parse_hex(handle_text(msg.receiver_public_key));
    let expiration_time_stamp = parse_decimal(handle_text(msg.expiration_time_stamp));
    let condition = parse_condition(handle_text(msg.condition));
    if amount is Err {
        Err(amount->Err_0)
    } else if nonce is Err {
        Err(nonce->Err_0)
    } else if sender_vault_id is Err {
        Err(sender_vault_id->Err_0)
    } else if token is Err {
        Err(token->Err_0)
    } else if receiver_vault_id is Err {
        Err(receiver_vault_id->Err_0)
    } else if receiver_public_key is Err {
        Err(receiver_public_key->Err_0)
    } else if expiration_time_stamp is Err {
        Err(expiration_time_stamp->Err_0)
    } else if condition is Err {
        Err(condition->Err_0)
    } else {
        hash_msg_spec(
            transfer_instruction_type(condition->Ok_0),
            sender_vault_id->Ok_0,
            receiver_vault_id->Ok_0,
            amount->Ok_0,
            0,
            nonce->Ok_0,
            expiration_time_stamp->Ok_0,
            token->Ok_0,
            receiver_public_key->Ok_0,
            condition->Ok_0,
        )
    }
}

/// The digest of a limit order, or the error of the first field that cannot
/// be read, or of the packed word where it is no field element.
pub open spec fn limit_order_msg_hash_spec(msg: LimitOrderMsg) -> Result<nat, Errno> {
    let vault_sell = parse_decimal(handle_text(msg.vault_sell));
    let vault_buy = parse_decimal(handle_text(msg.vault_buy));
    let amount_sell = parse_decimal(handle_text(msg.amount_sell));
    let amount_buy = parse_decimal(handle_text(msg.amount_buy));
    let token_sell = parse_hex(handle_text(msg.token_sell));
    let token_buy = parse_hex(handle_text(msg.token_buy));
    let nonce = parse_decimal(handle_text(msg.nonce));
    let expiration_time_stamp = parse_decimal(handle_text(msg.expiration_time_stamp));
    if vault_sell is Err {
        Err(vault_sell->Err_0)
    } else if vault_buy is Err {
        Err(vault_buy->Err_0)
    } else if amount_sell is Err {
        Err(amount_sell->Err_0)
    } else if amount_buy is Err {
        Err(amount_buy->Err_0)
    } else if token_sell is Err {
        Err(token_sell->Err_0)
    } else if token_buy is Err {
        Err(token_buy->Err_0)
    } else if nonce is Err {
        Err(nonce->Err_0)
    } else if expiration_time_stamp is Err {
        Err(expiration_time_stamp->Err_0)
    } else {
        hash_msg_spec(
            0,
            vault_sell->Ok_0,
            vault_buy->Ok_0,
            amount_sell->Ok_0,
            amount_buy->Ok_0,
            nonce->Ok_0,
            expiration_time_stamp->Ok_0,
            token_sell->Ok_0,
            token_buy->Ok_0,
            None,
        )
    }
}

/// The handles of the required fields of a transfer, in the order in which
/// they are read.
pub open spec fn transfer_handles(msg: TransferMsg) -> Seq<Option<Seq<u8>>> {
    seq![
        handle_text(msg.amount),
        handle_text(msg.nonce),
        handle_text(msg.sender_vault_id),
        handle_text(msg.token),
        handle_text(msg.receiver_vault_id),
        handle_text(msg.receiver_public_key),
        handle_text(msg.expiration_time_stamp),
    ]
}

/// What the required fields of a transfer hold, in the order in which they
/// are read.
pub open spec fn transfer_reading(msg: TransferMsg) -> Seq<Result<nat, Errno>> {
    seq![
        parse_decimal(handle_text(msg.amount)),
        parse_decimal(handle_text(msg.nonce)),
        parse_decimal(handle_text(msg.sender_vault_id)),
        parse_hex(handle_text(msg.token)),
        parse_decimal(handle_text(msg.receiver_vault_id)),
        parse_hex(handle_text(msg.receiver_public_key)),
        parse_decimal(handle_text(msg.expiration_time_stamp)),
    ]
}

/// The packed word of a transfer whose fields can all be read.
pub open spec fn transfer_word(msg: TransferMsg) -> nat {
    let fields = transfer_reading(msg);
    pack_spec(
        transfer_instruction_type(parse_condition(handle_text(msg.condition))->Ok_0),
        fields[2]->Ok_0,
        fields[4]->Ok_0,
        fields[0]->Ok_0,
        0,
        fields[1]->Ok_0,
        fields[6]->Ok_0,
    )
}

/// The two numbers that the round for the condition hashes, in a transfer
/// that has a condition and whose fields can all be read: the hash of the
/// token and the receiver's key, and the condition.
pub open spec fn transfer_condition_round(msg: TransferMsg) -> (nat, nat) {
    let fields = transfer_reading(msg);
    (
        pedersen_hash_value(fields[3]->Ok_0, fields[5]->Ok_0),
        parse_hex(handle_text(msg.condition))->Ok_0,
    )
}

/// The two numbers that the last round hashes, in a transfer whose fields
/// can all be read.
pub open spec fn transfer_last_round(msg: TransferMsg) -> (nat, nat) {
    let fields = transfer_reading(msg);
    last_round(
        transfer_word(msg),
        fields[3]->Ok_0,
        fields[5]->Ok_0,
        parse_condition(handle_text(msg.condition))->Ok_0,
    )
}

/// The handles of the fields of a limit order, in the order in which they
/// are read.
pub open spec fn limit_order_handles(msg: LimitOrderMsg) -> Seq<Option<Seq<u8>>> {
    seq![
        handle_text(msg.vault_sell),
        handle_text(msg.vault_buy),
        handle_text(msg.amount_sell),
        handle_text(msg.amount_buy),
        handle_text(msg.token_sell),
        handle_text(msg.token_buy),
        handle_text(msg.nonce),
        handle_text(msg.expiration_time_stamp),
    ]
}

/// What the fields of a limit order hold, in the order in which they are
/// read.
pub open spec fn limit_order_reading(msg: LimitOrderMsg) -> Seq<Result<nat, Errno>> {
    seq![
        parse_decimal(handle_text(msg.vault_sell)),
        parse_decimal(handle_text(msg.vault_buy)),
        parse_decimal(handle_text(msg.amount_sell)),
        parse_decimal(handle_text(msg.amount_buy)),
        parse_hex(handle_text(msg.token_sell)),
        parse_hex(handle_text(msg.token_buy)),
        parse_decimal(handle_text(msg.nonce)),
        parse_decimal(handle_text(msg.expiration_time_stamp)),
    ]
}

/// What an entry point leaves behind: the status that goes with the outcome,
/// and in the destination the digest's 32 bytes, or what was there before.
pub open spec fn written(
    outcome: Result<nat, Errno>,
    status: Errno,
    before: [u8; 32],
    after: [u8; 32],
) -> bool {
    match outcome {
        Ok(digest) => status == Errno::Success && be_value(after@) == digest && digest
            < field_modulus(),
        Err(e) => status == e && after == before,
    }
}

/// Computes the digest of a transfer.
pub fn transfer_msg_hash(msg: &TransferMsg) -> (r: Result<Felt, Errno>)
    ensures
        parsed(r) == transfer_msg_hash_spec(*msg),
{
    let amount = parse_bigint_decimal(&msg.amount)?;
    let nonce = parse_bigint_decimal(&msg.nonce)?;
    let sender_vault_id = parse_bigint_decimal(&msg.sender_vault_id)?;
    let token = parse_bigint(&msg.token)?;
    let receiver_vault_id = parse_bigint_decimal(&msg.receiver_vault_id)?;
    let receiver_public_key = parse_bigint(&msg.receiver_public_key)?;
    let expiration_time_stamp = parse_bigint_decimal(&msg.expiration_time_stamp)?;
    let condition = if msg.condition.is_none() {
        Option::None
    } else {
        Option::Some(parse_bigint(&msg.condition)?)
    };

    let instruction_type = if condition.is_none() {
        Felt::from_u8(1)
    } else {
        Felt::from_u8(2)
    };

    hash_msg(
        instruction_type,
        sender_vault_id,
        receiver_vault_id,
        amount,
        Felt::from_u8(0),
        nonce,
        expiration_time_stamp,
        token,
        receiver_public_key,
        condition,
    )
}

/// Computes the digest of a limit order.
pub fn limit_order_msg_hash(msg: &LimitOrderMsg) -> (r: Result<Felt, Errno>)
    ensures
        parsed(r) == limit_order_msg_hash_spec(*msg),
{
    let vault_sell = parse_bigint_decimal(&msg.vault_sell)?;
    let vault_buy = parse_bigint_decimal(&msg.vault_buy)?;
    let amount_sell = parse_bigint_decimal(&msg.amount_sell)?;
    let amount_buy = parse_bigint_decimal(&msg.amount_buy)?;
    let token_sell = parse_bigint(&msg.token_sell)?;
    let token_buy = parse_bigint(&msg.token_buy)?;
    let nonce = parse_bigint_decimal(&msg.nonce)?;
    let expiration_time_stamp = parse_bigint_decimal(&msg.expiration_time_stamp)?;

    hash_msg(
        Felt::from_u8(0),
        vault_sell,
        vault_buy,
        amount_sell,
        amount_buy,
        nonce,
        expiration_time_stamp,
        token_sell,
        token_buy,
        Option::None,
    )
}

/// Computes the canonical digest of a transfer and writes its 32 bytes to
/// `hash`. On an error `hash` is left as it was.
pub fn get_transfer_msg_hash(msg: &TransferMsg, hash: &mut [u8; 32]) -> (r: Errno)
    ensures
        written(transfer_msg_hash_spec(*msg), r, *old(hash), *final(hash)),
{
    match transfer_msg_hash(msg) {
        Ok(digest) => {
            proof {
                use_type_invariant(&digest);
            }
            *hash = digest.to_bytes_be();
            Errno::Success
        },
        Err(e) => e,
    }
}

/// Computes the canonical digest of a limit order and writes its 32 bytes
/// to `hash`. On an error `hash` is left as it was.
pub fn get_limit_order_msg_hash(msg: &LimitOrderMsg, hash: &mut [u8; 32]) -> (r: Errno)
    ensures
        written(limit_order_msg_hash_spec(*msg), r, *old(hash), *final(hash)),
{
    match limit_order_msg_hash(msg) {
        Ok(digest) => {
            proof {
                use_type_invariant(&digest);
            }
            *hash = digest.to_bytes_be();
            Errno::Success
        },
        Err(e) => e,
    }
}

} // verus!
