//! The messages exchanged with a node, field by field.
//!
//! For each message, a spec function gives its wire form and another says
//! what a parsed message reads as. A field that is missing reads as zero
//! or as empty, and of a field written twice the last one counts.

use vstd::prelude::*;
use crate::id::AccountId;
use crate::precheck::{code_of, PreCheckCode};
use crate::timestamp::{Duration, Timestamp};
use crate::transaction_id::TransactionId;
use crate::wire::{
    bytes_field, chunk_of, put_bytes, put_uint, read_chunk, read_scalar, scalar_of, uint_field,
};

verus! {

/// The wire form of an account address: shard, realm, account as fields
/// 1, 2 and 3.
pub open spec fn account_wire(id: AccountId) -> Seq<u8> {
    uint_field(1, id.shard) + uint_field(2, id.realm) + uint_field(3, id.account)
}

/// What a message reads as an account address.
pub open spec fn account_read(bytes: Seq<u8>) -> Option<AccountId> {
    match (scalar_of(bytes, 1), scalar_of(bytes, 2), scalar_of(bytes, 3)) {
        (Some(shard), Some(realm), Some(account)) => Some(AccountId { shard, realm, account }),
        _ => None,
    }
}

/// The wire form of a count of seconds and nanoseconds: fields 1 and 2.
pub open spec fn time_wire(seconds: u64, nanos: u32) -> Seq<u8> {
    uint_field(1, seconds) + uint_field(2, nanos as u64)
}

/// What a message reads as seconds and nanoseconds; nanoseconds that do
/// not fit 32 bits are refused.
pub open spec fn time_read(bytes: Seq<u8>) -> Option<(u64, u32)> {
    match (scalar_of(bytes, 1), scalar_of(bytes, 2)) {
        (Some(seconds), Some(nanos)) => if nanos <= u32::MAX {
            Some((seconds, nanos as u32))
        } else {
            None
        },
        _ => None,
    }
}

/// The wire form of a point in time.
pub open spec fn timestamp_wire(t: Timestamp) -> Seq<u8> {
    time_wire(t.seconds, t.nanos)
}

/// What a message reads as a point in time.
pub open spec fn timestamp_read(bytes: Seq<u8>) -> Option<Timestamp> {
    match time_read(bytes) {
        Some((seconds, nanos)) => Some(Timestamp { seconds, nanos }),
        None => None,
    }
}

/// The wire form of a span of time.
pub open spec fn duration_wire(d: Duration) -> Seq<u8> {
    time_wire(d.seconds, d.nanos)
}

/// The wire form of a transaction identifier: the start of validity as
/// field 1, the account as field 2.
pub open spec fn transaction_id_wire(id: TransactionId) -> Seq<u8> {
    bytes_field(1, timestamp_wire(id.transaction_valid_start)) + bytes_field(
        2,
        account_wire(id.account_id),
    )
}

/// What a message reads as a transaction identifier.
pub open spec fn transaction_id_read(bytes: Seq<u8>) -> Option<TransactionId> {
    match (chunk_of(bytes, 1), chunk_of(bytes, 2)) {
        (Some(start), Some(account)) => match (timestamp_read(start), account_read(account)) {
            (Some(transaction_valid_start), Some(account_id)) => Some(
                TransactionId { account_id, transaction_valid_start },
            ),
            _ => None,
        },
        _ => None,
    }
}

/// The 32-bit signed number that a 64-bit wire value stands for: a
/// negative number travels with its sign carried up to the 64th bit. A
/// wire value that is neither is refused.
pub open spec fn int32_of(v: u64) -> Option<i32> {
    if v <= 0x7fff_ffff {
        Some(v as i32)
    } else if v >= 0xffff_ffff_8000_0000 {
        Some((v - 0x1_0000_0000_0000_0000) as i32)
    } else {
        None
    }
}

/// What a reply header reads as: the node's precheck code, taken from
/// field 1.
pub open spec fn precheck_read(bytes: Seq<u8>) -> Option<PreCheckCode> {
    match scalar_of(bytes, 1) {
        Some(v) => match int32_of(v) {
            Some(raw) => Some(code_of(raw as int)),
            None => None,
        },
        None => None,
    }
}

/// The signed number of a wire value.
pub fn decode_int32(v: u64) -> (raw: Option<i32>)
    ensures
        raw == int32_of(v),
{
    if v <= 0x7fff_ffff {
        Some(v as i32)
    } else if v >= 0xffff_ffff_8000_0000 {
        let low: u64 = v - 0xffff_ffff_8000_0000;
        Some((low as i64 - 0x8000_0000) as i32)
    } else {
        None
    }
}

/// Reads the precheck code of a reply header.
pub fn decode_precheck(bytes: &[u8]) -> (code: Option<PreCheckCode>)
    ensures
        code == precheck_read(bytes@),
{
    match read_scalar(bytes, 1) {
        Some(v) => match decode_int32(v) {
            Some(raw) => Some(PreCheckCode::from_code(raw)),
            None => None,
        },
        None => None,
    }
}

/// Writes an account address.
pub fn encode_account(id: &AccountId) -> (out: Vec<u8>)
    ensures
        out@ == account_wire(*id),
{
    let mut out: Vec<u8> = Vec::new();
    put_uint(&mut out, 1, id.shard);
    put_uint(&mut out, 2, id.realm);
    put_uint(&mut out, 3, id.account);
    assert(out@ =~= account_wire(*id));
    out
}

/// Reads an account address.
pub fn decode_account(bytes: &[u8]) -> (id: Option<AccountId>)
    ensures
        id == account_read(bytes@),
{
    let shard = match read_scalar(bytes, 1) {
        Some(v) => v,
        None => { return None; },
    };
    let realm = match read_scalar(bytes, 2) {
        Some(v) => v,
        None => { return None; },
    };
    let account = match read_scalar(bytes, 3) {
        Some(v) => v,
        None => { return None; },
    };
    Some(AccountId { shard, realm, account })
}

fn encode_time(seconds: u64, nanos: u32) -> (out: Vec<u8>)
    ensures
        out@ == time_wire(seconds, nanos),
{
    let mut out: Vec<u8> = Vec::new();
    put_uint(&mut out, 1, seconds);
    put_uint(&mut out, 2, nanos as u64);
    assert(out@ =~= time_wire(seconds, nanos));
    out
}

fn decode_time(bytes: &[u8]) -> (time: Option<(u64, u32)>)
    ensures
        time == time_read(bytes@),
{
    let seconds = match read_scalar(bytes, 1) {
        Some(v) => v,
        None => { return None; },
    };
    let nanos = match read_scalar(bytes, 2) {
        Some(v) => v,
        None => { return None; },
    };
    if nanos > 0xffff_ffff {
        return None;
    }
    Some((seconds, nanos as u32))
}

/// Writes a point in time.
pub fn encode_timestamp(t: &Timestamp) -> (out: Vec<u8>)
    ensures
        out@ == timestamp_wire(*t),
{
    encode_time(t.seconds, t.nanos)
}

/// Reads a point in time.
pub fn decode_timestamp(bytes: &[u8]) -> (t: Option<Timestamp>)
    ensures
        t == timestamp_read(bytes@),
{
    match decode_time(bytes) {
        Some((seconds, nanos)) => Some(Timestamp { seconds, nanos }),
        None => None,
    }
}

/// Writes a span of time.
pub fn encode_duration(d: &Duration) -> (out: Vec<u8>)
    ensures
        out@ == duration_wire(*d),
{
    encode_time(d.seconds, d.nanos)
}

/// Writes a transaction identifier.
pub fn encode_transaction_id(id: &TransactionId) -> (out: Vec<u8>)
    ensures
        out@ == transaction_id_wire(*id),
{
    let mut out: Vec<u8> = Vec::new();
    let start = encode_timestamp(&id.transaction_valid_start);
    put_bytes(&mut out, 1, start.as_slice());
    let account = encode_account(&id.account_id);
    put_bytes(&mut out, 2, account.as_slice());
    assert(out@ =~= transaction_id_wire(*id));
    out
}

/// Reads a transaction identifier.
pub fn decode_transaction_id(bytes: &[u8]) -> (id: Option<TransactionId>)
    ensures
        id == transaction_id_read(bytes@),
{
    let start = match read_chunk(bytes, 1) {
        Some(c) => c,
        None => { return None; },
    };
    let account = match read_chunk(bytes, 2) {
        Some(c) => c,
        None => { return None; },
    };
    let transaction_valid_start = match decode_timestamp(start.as_slice()) {
        Some(t) => t,
        None => { return None; },
    };
    let account_id = match decode_account(account.as_slice()) {
        Some(a) => a,
        None => { return None; },
    };
    Some(TransactionId { account_id, transaction_valid_start })
}

} // verus!
