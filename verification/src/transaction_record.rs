//! The record that the network keeps of an executed transaction.

use vstd::prelude::*;
use vstd::string::{StringExecFns, StringSliceAdditionalSpecFns};
use crate::id::{lemma_account_text_round_trip, lemma_decimal_plain, AccountId};
use crate::proto::{
    account_read, account_wire, decode_account, decode_timestamp, decode_transaction_id,
    encode_account, encode_timestamp, encode_transaction_id, timestamp_read, timestamp_wire,
    transaction_id_read, transaction_id_wire,
};
use crate::text::{
    ascii_chars, decimal_text, hex_encode, hex_text, push_decimal, string_from_ascii,
    string_from_utf8,
};
use crate::timestamp::Timestamp;
use crate::transaction_id::TransactionId;
use crate::wire::{
    bytes_field, chunk_of, opt_chunk_of, put_bytes, put_uint, read_chunk, read_opt_chunk,
    read_scalar, scalar_of, uint_field,
};

verus! {

/// The record of an executed transaction. A record comes out of a reply
/// of the network and is not made otherwise.
#[derive(Debug, Clone, PartialEq)]
pub struct TransactionRecord {
    pub account_id: AccountId,
    pub transaction_hash: Vec<u8>,
    pub consensus_timestamp: Option<Timestamp>,
    pub transaction_id: Option<TransactionId>,
    pub memo: Option<String>,
    pub transaction_fee: u64,
}

/// A record as plain values.
pub struct RecordView {
    pub account_id: AccountId,
    pub transaction_hash: Seq<u8>,
    pub consensus_timestamp: Option<Timestamp>,
    pub transaction_id: Option<TransactionId>,
    pub memo: Option<Seq<char>>,
    pub transaction_fee: u64,
}

/// The characters of a memo that may be unset.
pub open spec fn memo_view(memo: Option<String>) -> Option<Seq<char>> {
    match memo {
        Some(m) => Some(m@),
        None => None,
    }
}

impl View for TransactionRecord {
    type V = RecordView;

    open spec fn view(&self) -> RecordView {
        RecordView {
            account_id: self.account_id,
            transaction_hash: self.transaction_hash@,
            consensus_timestamp: self.consensus_timestamp,
            transaction_id: self.transaction_id,
            memo: memo_view(self.memo),
            transaction_fee: self.transaction_fee,
        }
    }
}

impl RecordView {
    /// The text of a record:
    /// `{account}->{transaction id}#{hash}::{memo}@{consensus time}.{fee}`,
    /// the hash in hexadecimal, and nothing in the place of what is unset.
    pub open spec fn text(self) -> Seq<char> {
        ascii_chars(self.account_id.text()) + "->"@ + (match self.transaction_id {
            Some(id) => ascii_chars(id.text()),
            None => Seq::empty(),
        }) + "#"@ + ascii_chars(hex_text(self.transaction_hash)) + "::"@ + (match self.memo {
            Some(m) => m,
            None => Seq::empty(),
        }) + "@"@ + (match self.consensus_timestamp {
            Some(t) => ascii_chars(t.text()),
            None => Seq::empty(),
        }) + "."@ + ascii_chars(decimal_text(self.transaction_fee as nat))
    }

    /// The wire form of a record: the account as field 1, the hash as
    /// field 2, the consensus time as field 3, the transaction identifier
    /// as field 4, the memo as field 5, each of the last three only when
    /// set, and the fee as field 6.
    pub open spec fn wire(self) -> Seq<u8> {
        bytes_field(1, account_wire(self.account_id)) + bytes_field(2, self.transaction_hash) + (
        match self.consensus_timestamp {
            Some(t) => bytes_field(3, timestamp_wire(t)),
            None => Seq::empty(),
        }) + (match self.transaction_id {
            Some(id) => bytes_field(4, transaction_id_wire(id)),
            None => Seq::empty(),
        }) + (match self.memo {
            Some(m) => bytes_field(5, vstd::utf8::encode_utf8(m)),
            None => Seq::empty(),
        }) + uint_field(6, self.transaction_fee)
    }

    /// What a message reads as a record. A field that is there but cannot
    /// be read makes the whole message unreadable; a memo must be UTF-8.
    pub open spec fn read(bytes: Seq<u8>) -> Option<RecordView> {
        match (
            chunk_of(bytes, 1),
            chunk_of(bytes, 2),
            opt_chunk_of(bytes, 3),
            opt_chunk_of(bytes, 4),
            opt_chunk_of(bytes, 5),
            scalar_of(bytes, 6),
        ) {
            (Some(account), Some(hash), Some(time), Some(id), Some(memo), Some(fee)) => {
                if account_read(account) is Some && (time matches Some(t) ==> timestamp_read(t)
                    is Some) && (id matches Some(i) ==> transaction_id_read(i) is Some) && (
                memo matches Some(m) ==> vstd::utf8::valid_utf8(m)) {
                    Some(
                        RecordView {
                            account_id: account_read(account).unwrap(),
                            transaction_hash: hash,
                            consensus_timestamp: match time {
                                Some(t) => timestamp_read(t),
                                None => None,
                            },
                            transaction_id: match id {
                                Some(i) => transaction_id_read(i),
                                None => None,
                            },
                            memo: match memo {
                                Some(m) => Some(vstd::utf8::decode_utf8(m)),
                                None => None,
                            },
                            transaction_fee: fee,
                        },
                    )
                } else {
                    None
                }
            },
            _ => None,
        }
    }
}

impl TransactionRecord {
    /// The text of this record.
    pub fn to_string(&self) -> (text: String)
        ensures
            text@ == self@.text(),
    {
        let mut text = self.account_id.to_string();
        text.append("->");
        match &self.transaction_id {
            Some(id) => {
                let id_text = id.to_string();
                text.append(id_text.as_str());
            },
            None => {},
        }
        text.append("#");
        let hash = hex_encode(self.transaction_hash.as_slice());
        text.append(hash.as_str());
        text.append("::");
        match &self.memo {
            Some(m) => {
                text.append(m.as_str());
            },
            None => {},
        }
        text.append("@");
        match &self.consensus_timestamp {
            Some(t) => {
                let time = t.to_string();
                text.append(time.as_str());
            },
            None => {},
        }
        text.append(".");
        let mut fee: Vec<u8> = Vec::new();
        push_decimal(&mut fee, self.transaction_fee);
        proof {
            lemma_decimal_plain(self.transaction_fee as nat, 0);
            assert(fee@ =~= decimal_text(self.transaction_fee as nat));
        }
        let fee_text = string_from_ascii(fee);
        text.append(fee_text.as_str());
        assert(text@ =~= self@.text());
        text
    }

    /// This record in wire form.
    pub fn to_proto(&self) -> (out: Vec<u8>)
        ensures
            out@ == self@.wire(),
    {
        let mut out: Vec<u8> = Vec::new();
        let account = encode_account(&self.account_id);
        put_bytes(&mut out, 1, account.as_slice());
        put_bytes(&mut out, 2, self.transaction_hash.as_slice());
        match &self.consensus_timestamp {
            Some(t) => {
                let inner = encode_timestamp(t);
                put_bytes(&mut out, 3, inner.as_slice());
            },
            None => {},
        }
        match &self.transaction_id {
            Some(id) => {
                let inner = encode_transaction_id(id);
                put_bytes(&mut out, 4, inner.as_slice());
            },
            None => {},
        }
        match &self.memo {
            Some(m) => {
                put_bytes(&mut out, 5, m.as_str().as_bytes());
            },
            None => {},
        }
        put_uint(&mut out, 6, self.transaction_fee);
        assert(out@ =~= self@.wire());
        out
    }

    /// Reads a record from its wire form.
    pub fn from_proto(bytes: &[u8]) -> (record: Option<TransactionRecord>)
        ensures
            match record {
                Some(r) => RecordView::read(bytes@) == Some(r@),
                None => RecordView::read(bytes@) is None,
            },
    {
        let account = match read_chunk(bytes, 1) {
            Some(c) => c,
            None => { return None; },
        };
        let transaction_hash = match read_chunk(bytes, 2) {
            Some(c) => c,
            None => { return None; },
        };
        let time = match read_opt_chunk(bytes, 3) {
            Some(c) => c,
            None => { return None; },
        };
        let id = match read_opt_chunk(bytes, 4) {
            Some(c) => c,
            None => { return None; },
        };
        let memo_bytes = match read_opt_chunk(bytes, 5) {
            Some(c) => c,
            None => { return None; },
        };
        let transaction_fee = match read_scalar(bytes, 6) {
            Some(v) => v,
            None => { return None; },
        };
        let account_id = match decode_account(account.as_slice()) {
            Some(a) => a,
            None => { return None; },
        };
        let consensus_timestamp = match time {
            Some(t) => match decode_timestamp(t.as_slice()) {
                Some(ts) => Some(ts),
                None => { return None; },
            },
            None => None,
        };
        let transaction_id = match id {
            Some(i) => match decode_transaction_id(i.as_slice()) {
                Some(tid) => Some(tid),
                None => { return None; },
            },
            None => None,
        };
        let memo = match memo_bytes {
            Some(m) => match string_from_utf8(m) {
                Some(text) => Some(text),
                None => { return None; },
            },
            None => None,
        };
        Some(
            TransactionRecord {
                account_id,
                transaction_hash,
                consensus_timestamp,
                transaction_id,
                memo,
                transaction_fee,
            },
        )
    }
}

} // verus!
