//! The query for the records of an account, and the reply to it.

use vstd::prelude::*;
use crate::error::ErrorKind;
use crate::id::AccountId;
use crate::precheck::{code_of, PreCheckCode};
use crate::proto::{account_wire, decode_int32, encode_account, int32_of};
use crate::text::pieces;
use crate::transaction_record::{RecordView, TransactionRecord};
use crate::wire::{
    bytes_field, chunk_of, chunks_of, put_bytes, read_chunk, read_chunks, read_scalar, scalar_of,
};

verus! {

/// What this query answers with.
pub type QueryGetAccountRecordsAnswer = u64;

/// What every query carries in front: the payment for it, a signed
/// transaction in wire form, or nothing.
pub struct QueryHeader {
    pub payment: Vec<u8>,
}

/// The header of a reply: the precheck code as the node sent it.
#[derive(Clone, Copy, Debug, PartialEq, Eq, Structural)]
pub struct ResponseHeader {
    pub node_transaction_precheck_code: i32,
}

/// The reply to a query for the records of an account.
#[derive(Clone, Copy, Debug, PartialEq, Eq, Structural)]
pub struct CryptoGetAccountRecordsResponse {
    pub header: ResponseHeader,
    /// The answer. A node leaves it unset unless the code is the success
    /// code.
    pub balance: u64,
}

/// A reply.
#[derive(Clone, Copy, Debug, PartialEq, Eq, Structural)]
pub struct Response {
    pub crypto_get_account_records: CryptoGetAccountRecordsResponse,
}

/// The filter of a query for the records of an account.
pub struct QueryGetAccountRecords {
    account: AccountId,
}

/// The wire form of the query: field 8 of a query message, holding the
/// header as field 1 (with the payment as its field 1) and the account as
/// field 2.
pub open spec fn records_query_wire(account: AccountId, payment: Seq<u8>) -> Seq<u8> {
    bytes_field(8, bytes_field(1, bytes_field(1, payment)) + bytes_field(2, account_wire(account)))
}

/// What a reply reads as: field 8 holds the reply to this query, whose
/// field 1 is the header (the code as its field 1) and whose field 2 is
/// the answer.
pub open spec fn response_read(bytes: Seq<u8>) -> Option<Response> {
    match chunk_of(bytes, 8) {
        Some(inner) => match (chunk_of(inner, 1), scalar_of(inner, 2)) {
            (Some(header), Some(balance)) => match scalar_of(header, 1) {
                Some(raw) => match int32_of(raw) {
                    Some(code) => Some(
                        Response {
                            crypto_get_account_records: CryptoGetAccountRecordsResponse {
                                header: ResponseHeader { node_transaction_precheck_code: code },
                                balance,
                            },
                        },
                    ),
                    None => None,
                },
                None => None,
            },
            _ => None,
        },
        None => None,
    }
}

/// The precheck code of a reply.
pub open spec fn response_code(response: Response) -> PreCheckCode {
    code_of(response.crypto_get_account_records.header.node_transaction_precheck_code as int)
}

/// The answer that a reply gives: its payload under the success code, and
/// under any other code that code and nothing else.
pub open spec fn records_answer(response: Response) -> Result<u64, ErrorKind> {
    if response_code(response) == PreCheckCode::Success {
        Ok(response.crypto_get_account_records.balance)
    } else {
        Err(ErrorKind::PreCheck(response_code(response)))
    }
}

/// A reply that carries another code than the success code is answered
/// with that code whatever its payload holds: the payload never reaches
/// the caller.
pub proof fn lemma_precheck_gates_answer(first: Response, second: Response)
    requires
        first.crypto_get_account_records.header == second.crypto_get_account_records.header,
        response_code(first) != PreCheckCode::Success,
    ensures
        records_answer(first) == records_answer(second),
        records_answer(first) == Err::<u64, ErrorKind>(ErrorKind::PreCheck(response_code(first))),
{
}

/// The same holds of the records: a reply in wire form that reads with
/// another code than the success code gives that code, whatever it lists.
pub proof fn lemma_precheck_gates_records(bytes: Seq<u8>)
    requires
        response_read(bytes) matches Some(response) && response_code(response)
            != PreCheckCode::Success,
    ensures
        records_outcome(bytes) == Err::<Seq<RecordView>, ErrorKind>(
            ErrorKind::PreCheck(response_code(response_read(bytes).unwrap())),
        ),
{
}

/// The records of a vector as plain values.
pub open spec fn record_views(records: Seq<TransactionRecord>) -> Seq<RecordView> {
    Seq::new(records.len(), |i: int| records[i]@)
}

/// The records that the reply to this query lists: one field 3 for each,
/// in their order. One record that cannot be read spoils the list.
pub open spec fn records_read(inner: Seq<u8>) -> Option<Seq<RecordView>> {
    match chunks_of(inner, 3) {
        Some(chunks) => if forall|i: int|
            0 <= i < chunks.len() ==> RecordView::read(#[trigger] chunks[i]) is Some {
            Some(Seq::new(chunks.len(), |i: int| RecordView::read(chunks[i]).unwrap()))
        } else {
            None
        },
        None => None,
    }
}

/// The records that a reply gives. The precheck code is looked at first:
/// under any other code than the success code the answer is that code,
/// whatever else the reply holds. A reply that cannot be read is a
/// transport error.
pub open spec fn records_outcome(bytes: Seq<u8>) -> Result<Seq<RecordView>, ErrorKind> {
    match (response_read(bytes), chunk_of(bytes, 8)) {
        (Some(response), Some(inner)) => if response_code(response) != PreCheckCode::Success {
            Err(ErrorKind::PreCheck(response_code(response)))
        } else {
            match records_read(inner) {
                Some(records) => Ok(records),
                None => Err(ErrorKind::Transport),
            }
        },
        _ => Err(ErrorKind::Transport),
    }
}

impl Response {
    /// Reads a reply from its wire form.
    pub fn from_wire(bytes: &[u8]) -> (response: Option<Response>)
        ensures
            response == response_read(bytes@),
    {
        let inner = match read_chunk(bytes, 8) {
            Some(c) => c,
            None => { return None; },
        };
        let header = match read_chunk(inner.as_slice(), 1) {
            Some(c) => c,
            None => { return None; },
        };
        let balance = match read_scalar(inner.as_slice(), 2) {
            Some(v) => v,
            None => { return None; },
        };
        let raw = match read_scalar(header.as_slice(), 1) {
            Some(v) => v,
            None => { return None; },
        };
        let code = match decode_int32(raw) {
            Some(c) => c,
            None => { return None; },
        };
        Some(
            Response {
                crypto_get_account_records: CryptoGetAccountRecordsResponse {
                    header: ResponseHeader { node_transaction_precheck_code: code },
                    balance,
                },
            },
        )
    }
}

impl View for QueryGetAccountRecords {
    type V = AccountId;

    closed spec fn view(&self) -> AccountId {
        self.account
    }
}

impl QueryGetAccountRecords {
    pub fn new(account: AccountId) -> (query: QueryGetAccountRecords)
        ensures
            query@ == account,
    {
        QueryGetAccountRecords { account }
    }

    /// The account whose records are asked for.
    pub fn account(&self) -> (account: AccountId)
        ensures
            account == self@,
    {
        self.account
    }

    /// Answers from a reply: the precheck code is looked at first, and the
    /// payload only under the success code.
    pub fn answer(&self, response: Response) -> (answer: Result<
        QueryGetAccountRecordsAnswer,
        ErrorKind,
    >)
        ensures
            answer == records_answer(response),
    {
        let header = response.crypto_get_account_records.header;
        let code = PreCheckCode::from_code(header.node_transaction_precheck_code);
        match code {
            PreCheckCode::Success => Ok(response.crypto_get_account_records.balance),
            code => Err(ErrorKind::PreCheck(code)),
        }
    }

    /// The records that a reply in wire form lists. They are read only
    /// under the success code.
    pub fn records(&self, reply: &[u8]) -> (listed: Result<Vec<TransactionRecord>, ErrorKind>)
        ensures
            match listed {
                Ok(records) => records_outcome(reply@) == Ok::<Seq<RecordView>, ErrorKind>(
                    record_views(records@),
                ),
                Err(e) => records_outcome(reply@) == Err::<Seq<RecordView>, ErrorKind>(e),
            },
    {
        let response = match Response::from_wire(reply) {
            Some(r) => r,
            None => { return Err(ErrorKind::Transport); },
        };
        let code = PreCheckCode::from_code(
            response.crypto_get_account_records.header.node_transaction_precheck_code,
        );
        if !code.is_ok() {
            return Err(ErrorKind::PreCheck(code));
        }
        let inner = match read_chunk(reply, 8) {
            Some(c) => c,
            None => { return Err(ErrorKind::Transport); },
        };
        let chunks = match read_chunks(inner.as_slice(), 3) {
            Some(c) => c,
            None => { return Err(ErrorKind::Transport); },
        };
        let ghost all = pieces(chunks@);
        let mut records: Vec<TransactionRecord> = Vec::new();
        let mut i: usize = 0;
        while i < chunks.len()
            invariant
                0 <= i <= chunks.len(),
                all == pieces(chunks@),
                records_outcome(reply@) == match records_read(inner@) {
                    Some(read) => Ok::<Seq<RecordView>, ErrorKind>(read),
                    None => Err(ErrorKind::Transport),
                },
                chunks_of(inner@, 3) == Some(all),
                records.len() == i,
                forall|k: int|
                    0 <= k < i ==> RecordView::read(#[trigger] all[k]) == Some(records@[k]@),
            decreases chunks.len() - i,
        {
            assert(all[i as int] == chunks@[i as int]@);
            match TransactionRecord::from_proto(chunks[i].as_slice()) {
                Some(record) => {
                    records.push(record);
                },
                None => {
                    assert(RecordView::read(all[i as int]) is None);
                    return Err(ErrorKind::Transport);
                },
            }
            i = i + 1;
        }
        assert(record_views(records@) =~= records_read(inner@).unwrap());
        Ok(records)
    }

    /// The query in wire form, with `header` in front.
    pub fn to_query_proto(&self, header: &QueryHeader) -> (query: Vec<u8>)
        ensures
            query@ == records_query_wire(self@, header.payment@),
    {
        let mut head: Vec<u8> = Vec::new();
        put_bytes(&mut head, 1, header.payment.as_slice());
        let mut inner: Vec<u8> = Vec::new();
        put_bytes(&mut inner, 1, head.as_slice());
        let account = encode_account(&self.account);
        put_bytes(&mut inner, 2, account.as_slice());
        let mut query: Vec<u8> = Vec::new();
        put_bytes(&mut query, 8, inner.as_slice());
        assert(query@ =~= records_query_wire(self@, header.payment@));
        query
    }
}

} // verus!
