//! The identifier of a transaction: who pays for it and from when on it
//! is valid.

use vstd::prelude::*;
use vstd::string::StringSliceAdditionalSpecFns;
use itertools::Itertools;
use crate::error::ErrorKind;
use crate::id::{lemma_account_text_round_trip, AccountId};
use crate::proto::{decode_transaction_id, transaction_id_read};
use crate::text::{
    ascii_chars, hex_bytes, hex_decode, is_ascii_bytes, is_hex, lemma_split_concat,
    lemma_split_whole, pieces, split, split_bytes, string_from_ascii,
};
use crate::timestamp::{lemma_timestamp_text_round_trip, Timestamp};

verus! {

/// The separator between account and start of validity.
pub const AT: u8 = 64;

/// Identifies a transaction.
#[derive(Clone, Copy, Debug, PartialEq, Eq, Structural)]
pub struct TransactionId {
    pub account_id: AccountId,
    pub transaction_valid_start: Timestamp,
}

/// `Itertools::next_tuple` for pairs, on the pieces in their order: the
/// first two pieces when there are at least two, whatever follows them;
/// nothing when there are fewer.
#[verifier::external_body]
pub(crate) fn first_pair(parts: Vec<Vec<u8>>) -> (pair: Option<(Vec<u8>, Vec<u8>)>)
    ensures
        pair is Some <==> parts.len() >= 2,
        pair matches Some(p) ==> p.0@ == parts@[0]@ && p.1@ == parts@[1]@,
{
    parts.into_iter().next_tuple()
}

impl TransactionId {
    /// The textual form, `{account}@{seconds}.{nanos}`.
    pub open spec fn text(self) -> Seq<u8> {
        self.account_id.text() + seq![AT] + self.transaction_valid_start.text()
    }

    /// What `s` reads as. With an `@` in it, the piece before the first
    /// `@` is read as an account and the piece after it (up to a second
    /// `@`, if there is one) as a timestamp. Without an `@`, `s` is read as
    /// the hexadecimal spelling of the identifier's wire form.
    pub open spec fn read(s: Seq<u8>) -> Option<TransactionId> {
        let parts = split(s, AT);
        if parts.len() >= 2 {
            match (AccountId::read(parts[0]), Timestamp::read(parts[1])) {
                (Some(account_id), Some(transaction_valid_start)) => Some(
                    TransactionId { account_id, transaction_valid_start },
                ),
                _ => None,
            }
        } else if is_hex(s) {
            transaction_id_read(hex_bytes(s))
        } else {
            None
        }
    }

    pub fn new(account_id: AccountId, transaction_valid_start: Timestamp) -> (id: TransactionId)
        ensures
            id == (TransactionId { account_id, transaction_valid_start }),
    {
        TransactionId { account_id, transaction_valid_start }
    }

    /// Reads either textual form from bytes.
    pub fn parse_bytes(text: &[u8]) -> (id: Option<TransactionId>)
        ensures
            id == TransactionId::read(text@),
    {
        let parts = split_bytes(text, AT);
        assert(pieces(parts@).len() == parts.len());
        proof {
            if parts.len() >= 2 {
                assert(pieces(parts@)[0] == parts@[0]@);
                assert(pieces(parts@)[1] == parts@[1]@);
            }
        }
        match first_pair(parts) {
            Some((account, start)) => {
                let account_id = match AccountId::parse_bytes(account.as_slice()) {
                    Some(a) => a,
                    None => { return None; },
                };
                let transaction_valid_start = match Timestamp::parse_bytes(start.as_slice()) {
                    Some(t) => t,
                    None => { return None; },
                };
                Some(TransactionId { account_id, transaction_valid_start })
            },
            None => match hex_decode(text) {
                Ok(data) => decode_transaction_id(data.as_slice()),
                Err(_) => None,
            },
        }
    }

    /// Reads either textual form; anything else is a parse error.
    pub fn from_str(text: &str) -> (id: Result<TransactionId, ErrorKind>)
        ensures
            id == match TransactionId::read(text.spec_bytes()) {
                Some(t) => Ok::<TransactionId, ErrorKind>(t),
                None => Err(ErrorKind::Parse),
            },
    {
        match TransactionId::parse_bytes(text.as_bytes()) {
            Some(t) => Ok(t),
            None => Err(ErrorKind::Parse),
        }
    }

    /// Appends the textual form to `out`.
    pub fn push_text(&self, out: &mut Vec<u8>)
        ensures
            final(out)@ == old(out)@ + self.text(),
    {
        self.account_id.push_text(out);
        out.push(AT);
        self.transaction_valid_start.push_text(out);
        assert(out@ =~= old(out)@ + self.text());
    }

    /// The textual form.
    pub fn to_string(&self) -> (text: String)
        ensures
            text@ == ascii_chars(self.text()),
    {
        let mut out: Vec<u8> = Vec::new();
        self.push_text(&mut out);
        proof {
            lemma_transaction_id_text_round_trip(*self);
            assert(out@ =~= self.text());
        }
        string_from_ascii(out)
    }
}

/// Reading the text written for an identifier gives the identifier back,
/// and the text is plain ASCII.
pub proof fn lemma_transaction_id_text_round_trip(id: TransactionId)
    ensures
        TransactionId::read(id.text()) == Some(id),
        is_ascii_bytes(id.text()),
{
    let a = id.account_id.text();
    let t = id.transaction_valid_start.text();
    lemma_account_text_round_trip(id.account_id);
    lemma_timestamp_text_round_trip(id.transaction_valid_start);
    lemma_split_concat(a, t, AT);
    lemma_split_whole(a, AT);
    lemma_split_whole(t, AT);
    assert(split(id.text(), AT) =~= seq![a, t]);
}

} // verus!
