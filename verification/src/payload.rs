//! What a transaction carries besides its header: one closed set of fields
//! for each kind of transaction.

use vstd::prelude::*;
use crate::id::AccountId;
use crate::key::PublicKey;
use crate::proto::{
    account_wire, duration_wire, encode_account, encode_duration, encode_timestamp,
    timestamp_wire,
};
use crate::timestamp::{Duration, Timestamp};
use crate::wire::{bytes_field, put_bytes, put_sint, put_uint, sint_field, uint_field};

verus! {

/// One adjustment of a transfer: an account and the signed amount by
/// which its balance changes.
#[derive(Clone, Copy, Debug, PartialEq, Eq, Structural)]
pub struct Transfer {
    pub account: AccountId,
    pub amount: i64,
}

/// The fields of each kind of transaction.
pub enum Payload {
    CreateAccount { key: Option<PublicKey>, initial_balance: u64 },
    CryptoTransfer { transfers: Vec<Transfer> },
    CryptoUpdate {
        account_id_to_update: Option<AccountId>,
        key: Option<PublicKey>,
        proxy_account_id: Option<AccountId>,
        proxy_fraction: Option<i32>,
        send_record_threshold: Option<u64>,
        receive_record_threshold: Option<u64>,
        auto_renew_period: Option<Duration>,
        expiration_time: Option<Timestamp>,
    },
}

/// A payload as plain values: keys as their bytes, the transfers as a
/// sequence.
pub enum PayloadView {
    CreateAccount { key: Option<Seq<u8>>, initial_balance: u64 },
    CryptoTransfer { transfers: Seq<Transfer> },
    CryptoUpdate {
        account_id_to_update: Option<AccountId>,
        key: Option<Seq<u8>>,
        proxy_account_id: Option<AccountId>,
        proxy_fraction: Option<i32>,
        send_record_threshold: Option<u64>,
        receive_record_threshold: Option<u64>,
        auto_renew_period: Option<Duration>,
        expiration_time: Option<Timestamp>,
    },
}

/// The bytes of a key that may be absent.
pub open spec fn key_view(key: Option<PublicKey>) -> Option<Seq<u8>> {
    match key {
        Some(k) => Some(k@),
        None => None,
    }
}

impl View for Payload {
    type V = PayloadView;

    open spec fn view(&self) -> PayloadView {
        match *self {
            Payload::CreateAccount { key, initial_balance } => PayloadView::CreateAccount {
                key: key_view(key),
                initial_balance,
            },
            Payload::CryptoTransfer { transfers } => PayloadView::CryptoTransfer {
                transfers: transfers@,
            },
            Payload::CryptoUpdate {
                account_id_to_update,
                key,
                proxy_account_id,
                proxy_fraction,
                send_record_threshold,
                receive_record_threshold,
                auto_renew_period,
                expiration_time,
            } => PayloadView::CryptoUpdate {
                account_id_to_update,
                key: key_view(key),
                proxy_account_id,
                proxy_fraction,
                send_record_threshold,
                receive_record_threshold,
                auto_renew_period,
                expiration_time,
            },
        }
    }
}

/// An account creation with nothing set.
pub open spec fn empty_create_account() -> PayloadView {
    PayloadView::CreateAccount { key: None, initial_balance: 0 }
}

/// A transfer without adjustments.
pub open spec fn empty_crypto_transfer() -> PayloadView {
    PayloadView::CryptoTransfer { transfers: Seq::empty() }
}

/// An account update that changes nothing.
pub open spec fn empty_crypto_update() -> PayloadView {
    PayloadView::CryptoUpdate {
        account_id_to_update: None,
        key: None,
        proxy_account_id: None,
        proxy_fraction: None,
        send_record_threshold: None,
        receive_record_threshold: None,
        auto_renew_period: None,
        expiration_time: None,
    }
}

/// The sum of the amounts of a list of adjustments.
pub open spec fn transfers_sum(transfers: Seq<Transfer>) -> int
    decreases transfers.len(),
{
    if transfers.len() == 0 {
        0
    } else {
        transfers_sum(transfers.drop_last()) + transfers.last().amount
    }
}

/// The wire form of one adjustment: the account as field 1, the amount as
/// field 2.
pub open spec fn transfer_wire(t: Transfer) -> Seq<u8> {
    bytes_field(1, account_wire(t.account)) + sint_field(2, t.amount)
}

/// The wire form of a list of adjustments: one field 1 for each, in the
/// order of the list.
pub open spec fn transfers_wire(transfers: Seq<Transfer>) -> Seq<u8>
    decreases transfers.len(),
{
    if transfers.len() == 0 {
        Seq::empty()
    } else {
        transfers_wire(transfers.drop_last()) + bytes_field(1, transfer_wire(transfers.last()))
    }
}

/// A field that is written only when it is set.
pub open spec fn opt_bytes(field: u32, payload: Option<Seq<u8>>) -> Seq<u8> {
    match payload {
        Some(p) => bytes_field(field, p),
        None => Seq::empty(),
    }
}

pub open spec fn opt_account(field: u32, id: Option<AccountId>) -> Seq<u8> {
    match id {
        Some(a) => bytes_field(field, account_wire(a)),
        None => Seq::empty(),
    }
}

pub open spec fn opt_uint(field: u32, v: Option<u64>) -> Seq<u8> {
    match v {
        Some(n) => uint_field(field, n),
        None => Seq::empty(),
    }
}

/// The wire form of the fields of a payload.
pub open spec fn payload_fields(p: PayloadView) -> Seq<u8> {
    match p {
        PayloadView::CreateAccount { key, initial_balance } => opt_bytes(1, key) + uint_field(
            2,
            initial_balance,
        ),
        PayloadView::CryptoTransfer { transfers } => transfers_wire(transfers),
        PayloadView::CryptoUpdate {
            account_id_to_update,
            key,
            proxy_account_id,
            proxy_fraction,
            send_record_threshold,
            receive_record_threshold,
            auto_renew_period,
            expiration_time,
        } => opt_account(2, account_id_to_update) + opt_bytes(3, key) + opt_account(
            4,
            proxy_account_id,
        ) + (match proxy_fraction {
            Some(f) => sint_field(5, f as i64),
            None => Seq::empty(),
        }) + opt_uint(6, send_record_threshold) + opt_uint(7, receive_record_threshold) + (
        match auto_renew_period {
            Some(d) => bytes_field(8, duration_wire(d)),
            None => Seq::empty(),
        }) + (match expiration_time {
            Some(t) => bytes_field(9, timestamp_wire(t)),
            None => Seq::empty(),
        }),
    }
}

/// The field of a transaction body under which a payload stands: 11 for
/// an account creation, 14 for a transfer, 15 for an account update.
pub open spec fn payload_field(p: PayloadView) -> u32 {
    match p {
        PayloadView::CreateAccount { .. } => 11,
        PayloadView::CryptoTransfer { .. } => 14,
        PayloadView::CryptoUpdate { .. } => 15,
    }
}

/// The wire form of a payload inside a transaction body.
pub open spec fn payload_wire(p: PayloadView) -> Seq<u8> {
    bytes_field(payload_field(p), payload_fields(p))
}

/// Appending an adjustment appends its field to the wire form and adds
/// its amount to the sum; what was written before stays in front.
pub proof fn lemma_transfer_appended(transfers: Seq<Transfer>, t: Transfer)
    ensures
        transfers_wire(transfers.push(t)) == transfers_wire(transfers) + bytes_field(
            1,
            transfer_wire(t),
        ),
        transfers_sum(transfers.push(t)) == transfers_sum(transfers) + t.amount,
{
    assert(transfers.push(t).drop_last() =~= transfers);
}

fn put_opt_key(out: &mut Vec<u8>, field: u32, key: &Option<PublicKey>)
    requires
        1 <= field <= crate::wire::MAX_FIELD,
    ensures
        final(out)@ == old(out)@ + opt_bytes(field, key_view(*key)),
{
    match key {
        Some(k) => {
            put_bytes(out, field, k.as_bytes());
        },
        None => {
            assert(out@ =~= old(out)@ + opt_bytes(field, key_view(*key)));
        },
    }
}

fn put_opt_account(out: &mut Vec<u8>, field: u32, id: &Option<AccountId>)
    requires
        1 <= field <= crate::wire::MAX_FIELD,
    ensures
        final(out)@ == old(out)@ + opt_account(field, *id),
{
    match id {
        Some(a) => {
            let inner = encode_account(a);
            put_bytes(out, field, inner.as_slice());
        },
        None => {
            assert(out@ =~= old(out)@ + opt_account(field, *id));
        },
    }
}

fn put_opt_uint(out: &mut Vec<u8>, field: u32, v: &Option<u64>)
    requires
        1 <= field <= crate::wire::MAX_FIELD,
    ensures
        final(out)@ == old(out)@ + opt_uint(field, *v),
{
    match v {
        Some(n) => {
            put_uint(out, field, *n);
        },
        None => {
            assert(out@ =~= old(out)@ + opt_uint(field, *v));
        },
    }
}

/// Writes a list of adjustments.
pub fn encode_transfers(transfers: &Vec<Transfer>) -> (out: Vec<u8>)
    ensures
        out@ == transfers_wire(transfers@),
{
    let mut out: Vec<u8> = Vec::new();
    let mut i: usize = 0;
    while i < transfers.len()
        invariant
            0 <= i <= transfers.len(),
            out@ == transfers_wire(transfers@.take(i as int)),
        decreases transfers.len() - i,
    {
        let t = transfers[i];
        let mut entry: Vec<u8> = Vec::new();
        let account = encode_account(&t.account);
        put_bytes(&mut entry, 1, account.as_slice());
        put_sint(&mut entry, 2, t.amount);
        assert(entry@ =~= transfer_wire(t));
        put_bytes(&mut out, 1, entry.as_slice());
        proof {
            assert(transfers@.take(i + 1) =~= transfers@.take(i as int).push(t));
            lemma_transfer_appended(transfers@.take(i as int), t);
        }
        i = i + 1;
    }
    assert(transfers@.take(transfers.len() as int) =~= transfers@);
    out
}

impl Payload {
    /// Writes the fields of this payload.
    pub fn encode_fields(&self) -> (out: Vec<u8>)
        ensures
            out@ == payload_fields(self@),
    {
        match self {
            Payload::CreateAccount { key, initial_balance } => {
                let mut out: Vec<u8> = Vec::new();
                put_opt_key(&mut out, 1, key);
                put_uint(&mut out, 2, *initial_balance);
                assert(out@ =~= payload_fields(self@));
                out
            },
            Payload::CryptoTransfer { transfers } => encode_transfers(transfers),
            Payload::CryptoUpdate {
                account_id_to_update,
                key,
                proxy_account_id,
                proxy_fraction,
                send_record_threshold,
                receive_record_threshold,
                auto_renew_period,
                expiration_time,
            } => {
                let mut out: Vec<u8> = Vec::new();
                put_opt_account(&mut out, 2, account_id_to_update);
                put_opt_key(&mut out, 3, key);
                put_opt_account(&mut out, 4, proxy_account_id);
                match proxy_fraction {
                    Some(f) => {
                        put_sint(&mut out, 5, *f as i64);
                    },
                    None => {},
                }
                put_opt_uint(&mut out, 6, send_record_threshold);
                put_opt_uint(&mut out, 7, receive_record_threshold);
                match auto_renew_period {
                    Some(d) => {
                        let inner = encode_duration(d);
                        put_bytes(&mut out, 8, inner.as_slice());
                    },
                    None => {},
                }
                match expiration_time {
                    Some(t) => {
                        let inner = encode_timestamp(t);
                        put_bytes(&mut out, 9, inner.as_slice());
                    },
                    None => {},
                }
                assert(out@ =~= payload_fields(self@));
                out
            },
        }
    }

    /// The field of a transaction body under which this payload stands.
    pub fn field(&self) -> (field: u32)
        ensures
            field == payload_field(self@),
            1 <= field <= crate::wire::MAX_FIELD,
    {
        match self {
            Payload::CreateAccount { .. } => 11,
            Payload::CryptoTransfer { .. } => 14,
            Payload::CryptoUpdate { .. } => 15,
        }
    }
}

} // verus!
