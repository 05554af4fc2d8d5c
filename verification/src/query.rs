//! Queries: built against a client and executed once.

use vstd::prelude::*;
use crate::client::Client;
use crate::error::{ErrorKind, TransportError};
use crate::id::AccountId;
use crate::query_get_account_records::{
    record_views, records_answer, records_outcome, records_query_wire, response_read,
    QueryGetAccountRecords, QueryHeader, Response,
};
use crate::transaction_record::{RecordView, TransactionRecord};
use crate::transaction::reply_view;

verus! {

/// A read request that is being built, or has been executed.
pub struct Query {
    executed: bool,
    node: AccountId,
    inner: QueryGetAccountRecords,
}

/// A query as plain values.
pub struct QueryView {
    pub executed: bool,
    pub node: AccountId,
    pub account: AccountId,
}

impl QueryView {
    /// What execution returns: refused when executed before, otherwise the
    /// request to send.
    pub open spec fn execute_outcome(self, payment: Seq<u8>) -> Result<Seq<u8>, ErrorKind> {
        if self.executed {
            Err(ErrorKind::InvalidState)
        } else {
            Ok(records_query_wire(self.account, payment))
        }
    }

    /// What choosing another node amounts to: refused once the query has
    /// been executed.
    pub open spec fn retarget(self, id: AccountId) -> (Result<(), ErrorKind>, QueryView) {
        if self.executed {
            (Err(ErrorKind::InvalidState), self)
        } else {
            (Ok(()), QueryView { node: id, ..self })
        }
    }

    /// The query after an attempt to execute it.
    pub open spec fn after_execute(self) -> QueryView {
        QueryView { executed: true, ..self }
    }
}

/// What the reply to a query means: a transport failure, or a reply that
/// cannot be read, is a transport error; a reply that can be read is
/// answered as its precheck code allows.
pub open spec fn query_outcome(reply: Result<Seq<u8>, TransportError>) -> Result<u64, ErrorKind> {
    match reply {
        Ok(bytes) => match response_read(bytes) {
            Some(response) => records_answer(response),
            None => Err(ErrorKind::Transport),
        },
        Err(_) => Err(ErrorKind::Transport),
    }
}

impl View for Query {
    type V = QueryView;

    closed spec fn view(&self) -> QueryView {
        QueryView { executed: self.executed, node: self.node, account: self.inner@ }
    }
}

impl Query {
    /// A query for the records of `account`, to go to the client's node.
    pub fn get_account_records(client: &Client, account: AccountId) -> (query: Query)
        ensures
            query@ == (QueryView { executed: false, node: client@.node, account }),
    {
        Query { executed: false, node: client.node, inner: QueryGetAccountRecords::new(account) }
    }

    /// Whether the query has been executed.
    pub fn is_executed(&self) -> (executed: bool)
        ensures
            executed == self@.executed,
    {
        self.executed
    }

    /// The node that the query goes to.
    pub fn target(&self) -> (node: AccountId)
        ensures
            node == self@.node,
    {
        self.node
    }

    /// Sets the node that the query goes to. Refused after execution.
    pub fn node(&mut self, id: AccountId) -> (done: Result<(), ErrorKind>)
        ensures
            (done, final(self)@) == old(self)@.retarget(id),
    {
        if self.executed {
            return Err(ErrorKind::InvalidState);
        }
        self.node = id;
        Ok(())
    }

    /// Executes the query: the one step from building to executed. What
    /// comes back is to be sent to the node; `answer` interprets the reply.
    pub fn execute(&mut self, header: &QueryHeader) -> (outcome: Result<Vec<u8>, ErrorKind>)
        ensures
            final(self)@ == old(self)@.after_execute(),
            match outcome {
                Ok(request) => old(self)@.execute_outcome(header.payment@) == Ok::<
                    Seq<u8>,
                    ErrorKind,
                >(request@),
                Err(e) => old(self)@.execute_outcome(header.payment@) == Err::<
                    Seq<u8>,
                    ErrorKind,
                >(e),
            },
    {
        if self.executed {
            return Err(ErrorKind::InvalidState);
        }
        self.executed = true;
        Ok(self.inner.to_query_proto(header))
    }

    /// The records that the reply to this query lists, read only under
    /// the success code.
    pub fn records(&self, reply: Result<Vec<u8>, TransportError>) -> (listed: Result<
        Vec<TransactionRecord>,
        ErrorKind,
    >)
        ensures
            match listed {
                Ok(records) => query_records(reply_view(reply)) == Ok::<
                    Seq<RecordView>,
                    ErrorKind,
                >(record_views(records@)),
                Err(e) => query_records(reply_view(reply)) == Err::<Seq<RecordView>, ErrorKind>(
                    e,
                ),
            },
    {
        match reply {
            Ok(bytes) => self.inner.records(bytes.as_slice()),
            Err(_) => Err(ErrorKind::Transport),
        }
    }

    /// Interprets the reply to this query. The answer is read only from a
    /// reply whose precheck code is the success code.
    pub fn answer(&self, reply: Result<Vec<u8>, TransportError>) -> (outcome: Result<
        u64,
        ErrorKind,
    >)
        ensures
            outcome == query_outcome(reply_view(reply)),
    {
        match reply {
            Ok(bytes) => match Response::from_wire(bytes.as_slice()) {
                Some(response) => self.inner.answer(response),
                None => Err(ErrorKind::Transport),
            },
            Err(_) => Err(ErrorKind::Transport),
        }
    }
}

/// What the reply to a query means for its records.
pub open spec fn query_records(reply: Result<Seq<u8>, TransportError>) -> Result<
    Seq<RecordView>,
    ErrorKind,
> {
    match reply {
        Ok(bytes) => records_outcome(bytes),
        Err(_) => Err(ErrorKind::Transport),
    }
}

/// A query is executed at most once: once executed, it refuses execution
/// and stays executed.
pub proof fn lemma_query_single_use(v: QueryView, second: Seq<u8>, id: AccountId)
    ensures
        v.after_execute().executed,
        v.after_execute().retarget(id) == (
            Err::<(), ErrorKind>(ErrorKind::InvalidState),
            v.after_execute(),
        ),
        v.after_execute().execute_outcome(second) == Err::<Seq<u8>, ErrorKind>(
            ErrorKind::InvalidState,
        ),
        v.after_execute().after_execute() == v.after_execute(),
{
}

} // verus!
