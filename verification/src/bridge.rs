//! The handle table through which a foreign caller drives transactions.
//!
//! A foreign caller never holds an object, only a handle: a number that
//! the table maps to the object it owns. A handle is issued once and never
//! again, and the number zero is never issued: it is the null handle.
//! Executing or freeing a transaction empties its slot, so a handle that
//! is used afterwards is found out and refused; nothing is freed twice.

use vstd::prelude::*;
use crate::client::{Client, ClientView};
use crate::error::ErrorKind;
use crate::id::AccountId;
use crate::key::{PublicKey, SecretKey};
use crate::payload::{
    empty_create_account, empty_crypto_transfer, empty_crypto_update, PayloadView, Transfer,
};
use crate::timestamp::{Duration, Timestamp};
use crate::transaction::{Submission, Transaction, TransactionView, UpdateEdit};
use crate::transaction_id::TransactionId;

verus! {

/// The status that stands for success.
pub const STATUS_OK: u64 = 0;

/// The objects that foreign callers own, each under its handle.
pub struct HandleTable {
    clients: Vec<Option<Client>>,
    transactions: Vec<Option<Transaction>>,
}

/// A table as plain values: for each handle ever issued, in the order of
/// issue, what it stands for now. Handle `h` has the place `h - 1`.
pub struct TableView {
    pub clients: Seq<Option<ClientView>>,
    pub transactions: Seq<Option<TransactionView>>,
}

/// The status for the result of a change.
pub open spec fn status_of(done: Result<(), ErrorKind>) -> int {
    match done {
        Ok(_) => 0,
        Err(e) => e.status_of(),
    }
}

/// How many of the slots hold an object.
pub open spec fn live_count(slots: Seq<Option<TransactionView>>) -> nat
    decreases slots.len(),
{
    if slots.len() == 0 {
        0
    } else {
        live_count(slots.drop_last()) + if slots.last() is Some {
            1nat
        } else {
            0nat
        }
    }
}

impl TableView {
    /// The client that `h` stands for, if it stands for one.
    pub open spec fn client(self, h: u64) -> Option<ClientView> {
        if 1 <= h <= self.clients.len() {
            self.clients[h - 1]
        } else {
            None
        }
    }

    /// The transaction that `h` stands for, if it stands for one.
    pub open spec fn transaction(self, h: u64) -> Option<TransactionView> {
        if 1 <= h <= self.transactions.len() {
            self.transactions[h - 1]
        } else {
            None
        }
    }

    /// The table with the slot of an issued handle replaced.
    pub open spec fn put(self, h: u64, slot: Option<TransactionView>) -> TableView {
        TableView { transactions: self.transactions.update(h - 1, slot), ..self }
    }

    /// What a mutator does: on a live handle it applies `step` and keeps
    /// the object under the same handle, returning the status of the
    /// step; any other handle is refused as invalid state and the table
    /// stays as it is.
    pub open spec fn mutate(
        self,
        h: u64,
        step: spec_fn(TransactionView) -> (Result<(), ErrorKind>, TransactionView),
    ) -> (int, TableView) {
        match self.transaction(h) {
            Some(v) => (status_of(step(v).0), self.put(h, Some(step(v).1))),
            None => (ErrorKind::InvalidState.status_of(), self),
        }
    }

    /// What freeing does: a live handle is emptied, any other handle is
    /// refused as invalid state.
    pub open spec fn release(self, h: u64) -> (int, TableView) {
        match self.transaction(h) {
            Some(_) => (0, self.put(h, None)),
            None => (ErrorKind::InvalidState.status_of(), self),
        }
    }

    /// What execution does when the backend delivers every signature: a
    /// live handle is emptied whatever comes of the execution, whose
    /// outcome decides the status; any other handle is refused as invalid
    /// state. When the backend fails to sign, the table is the same and
    /// the status is that of a backend failure.
    pub open spec fn execute(self, h: u64) -> (int, TableView) {
        match self.transaction(h) {
            Some(v) => (
                match v.execute_outcome() {
                    Ok(_) => 0,
                    Err(e) => e.status_of(),
                },
                self.put(h, None),
            ),
            None => (ErrorKind::InvalidState.status_of(), self),
        }
    }

    /// Whether `next` is this table after handle `h` was issued for a new
    /// transaction with `payload`, made for the client under `client`.
    pub open spec fn issued(
        self,
        next: TableView,
        h: u64,
        client: u64,
        payload: PayloadView,
    ) -> bool {
        &&& self.client(client) is Some
        &&& h == self.transactions.len() + 1
        &&& next.clients == self.clients
        &&& next.transactions.len() == h
        &&& next.transactions.drop_last() == self.transactions
        &&& next.transaction(h) matches Some(v) && v == TransactionView::fresh(
            self.client(client).unwrap(),
            payload,
            v.valid_start,
        )
    }
}

/// The clients of a table as plain values.
pub open spec fn client_views(slots: Seq<Option<Client>>) -> Seq<Option<ClientView>> {
    Seq::new(
        slots.len(),
        |i: int|
            match slots[i] {
                Some(c) => Some(c@),
                None => None,
            },
    )
}

/// The transactions of a table as plain values.
pub open spec fn slot_views(slots: Seq<Option<Transaction>>) -> Seq<Option<TransactionView>> {
    Seq::new(
        slots.len(),
        |i: int|
            match slots[i] {
                Some(t) => Some(t@),
                None => None,
            },
    )
}

impl View for HandleTable {
    type V = TableView;

    closed spec fn view(&self) -> TableView {
        TableView {
            clients: client_views(self.clients@),
            transactions: slot_views(self.transactions@),
        }
    }
}

fn status(done: Result<(), ErrorKind>) -> (status: u64)
    ensures
        status == status_of(done),
{
    match done {
        Ok(_) => STATUS_OK,
        Err(e) => e.status(),
    }
}

impl HandleTable {
    /// A table that has issued no handle.
    pub fn new() -> (table: HandleTable)
        ensures
            table@.clients.len() == 0,
            table@.transactions.len() == 0,
    {
        HandleTable { clients: Vec::new(), transactions: Vec::new() }
    }

    /// Takes a client into the table and returns its handle.
    pub fn add_client(&mut self, client: Client) -> (handle: u64)
        ensures
            handle == old(self)@.clients.len() + 1,
            final(self)@.clients == old(self)@.clients.push(Some(client@)),
            final(self)@.transactions == old(self)@.transactions,
    {
        let ghost before = self.clients@;
        self.clients.push(Some(client));
        assert(client_views(self.clients@) =~= client_views(before).push(Some(client@)));
        self.clients.len() as u64
    }

    /// A copy of the client under `handle`, if the handle is live.
    pub fn client(&self, handle: u64) -> (client: Option<Client>)
        ensures
            match client {
                Some(c) => self@.client(handle) == Some(c@),
                None => self@.client(handle) is None,
            },
    {
        if handle == 0 || handle > self.clients.len() as u64 {
            return None;
        }
        match &self.clients[(handle - 1) as usize] {
            Some(c) => Some(c.duplicate()),
            None => None,
        }
    }

    /// How many transaction handles are live.
    pub fn live_transactions(&self) -> (count: usize)
        ensures
            count == live_count(self@.transactions),
    {
        let mut count: usize = 0;
        let mut i: usize = 0;
        while i < self.transactions.len()
            invariant
                0 <= i <= self.transactions.len(),
                count == live_count(self@.transactions.take(i as int)),
                count <= i,
            decreases self.transactions.len() - i,
        {
            proof {
                let all = self@.transactions;
                assert(all.take(i + 1).drop_last() =~= all.take(i as int));
                assert(all.take(i + 1).last() == all[i as int]);
            }
            if self.transactions[i].is_some() {
                count = count + 1;
            }
            i = i + 1;
        }
        assert(self@.transactions.take(self.transactions.len() as int) =~= self@.transactions);
        count
    }

    /// Whether `handle` stands for a transaction.
    pub fn is_live(&self, handle: u64) -> (live: bool)
        ensures
            live == self@.transaction(handle) is Some,
    {
        if handle == 0 || handle > self.transactions.len() as u64 {
            return false;
        }
        self.transactions[(handle - 1) as usize].is_some()
    }

    fn take(&mut self, handle: u64) -> (slot: Option<Transaction>)
        ensures
            match slot {
                Some(t) => old(self)@.transaction(handle) == Some(t@) && final(self)@ == old(
                    self,
                )@.put(handle, None),
                None => old(self)@.transaction(handle) is None && final(self)@ == old(self)@,
            },
            final(self).transactions.len() == old(self).transactions.len(),
    {
        if handle == 0 || handle > self.transactions.len() as u64 {
            return None;
        }
        let i: usize = (handle - 1) as usize;
        if self.transactions[i].is_none() {
            return None;
        }
        let ghost before = self.transactions@;
        self.transactions.push(None);
        let slot = self.transactions.swap_remove(i);
        proof {
            assert(self.transactions@ =~= before.update(i as int, None));
            assert(slot_views(self.transactions@) =~= slot_views(before).update(i as int, None));
        }
        slot
    }

    fn put(&mut self, handle: u64, t: Transaction)
        requires
            1 <= handle <= old(self).transactions.len(),
        ensures
            final(self)@ == old(self)@.put(handle, Some(t@)),
            final(self).transactions.len() == old(self).transactions.len(),
            forall|base: TableView|
                handle <= base.transactions.len() && old(self)@ == #[trigger] base.put(
                    handle,
                    None,
                ) ==> final(self)@ == base.put(handle, Some(t@)),
    {
        let i: usize = (handle - 1) as usize;
        let ghost before = self.transactions@;
        self.transactions.push(Some(t));
        let _ = self.transactions.swap_remove(i);
        proof {
            assert(self.transactions@ =~= before.update(i as int, Some(t)));
            assert(slot_views(self.transactions@) =~= slot_views(before).update(
                i as int,
                Some(t@),
            ));
            assert forall|base: TableView|
                handle <= base.transactions.len() && old(self)@ == #[trigger] base.put(
                    handle,
                    None,
                ) implies final(self)@ == base.put(handle, Some(t@)) by {
                assert(base.put(handle, None).put(handle, Some(t@)).transactions
                    =~= base.put(handle, Some(t@)).transactions);
            }
        }
    }

    fn issue(&mut self, client: u64, t: Transaction) -> (handle: u64)
        requires
            old(self)@.client(client) is Some,
            t@ == TransactionView::fresh(
                old(self)@.client(client).unwrap(),
                t@.payload,
                t@.valid_start,
            ),
        ensures
            handle != 0,
            old(self)@.issued(final(self)@, handle, client, t@.payload),
    {
        let ghost before = self.transactions@;
        self.transactions.push(Some(t));
        proof {
            assert(slot_views(self.transactions@).drop_last() =~= slot_views(before));
        }
        self.transactions.len() as u64
    }
}

/// What a creation function returns for the client under `client`: the
/// null handle and an unchanged table when the client handle is not live;
/// otherwise the handle of a new transaction with `payload`, which is not
/// null and was never issued before, the client staying under its own
/// handle.
pub open spec fn created(
    before: TableView,
    after: TableView,
    handle: u64,
    client: u64,
    payload: PayloadView,
) -> bool {
    if before.client(client) is None {
        handle == 0 && after == before
    } else {
        handle != 0 && before.issued(after, handle, client, payload)
    }
}

/// Sets the operator of the transaction under `tx`.
pub fn hedera_transaction_set_operator(
    table: &mut HandleTable,
    tx: u64,
    operator: AccountId,
) -> (status: u64)
    requires
        tx != 0,
    ensures
        (status as int, final(table)@) == old(table)@.mutate(
            tx,
            |v: TransactionView| v.change(Some(TransactionView { operator, ..v })),
        ),
{
    match table.take(tx) {
        Some(mut t) => {
            let done = t.operator(operator);
            table.put(tx, t);
            status(done)
        },
        None => ErrorKind::InvalidState.status(),
    }
}

/// Sets the node of the transaction under `tx`.
pub fn hedera_transaction_set_node(
    table: &mut HandleTable,
    tx: u64,
    node: AccountId,
) -> (status: u64)
    requires
        tx != 0,
    ensures
        (status as int, final(table)@) == old(table)@.mutate(
            tx,
            |v: TransactionView| v.change(Some(TransactionView { node, ..v })),
        ),
{
    match table.take(tx) {
        Some(mut t) => {
            let done = t.node(node);
            table.put(tx, t);
            status(done)
        },
        None => ErrorKind::InvalidState.status(),
    }
}

/// Sets the memo of the transaction under `tx`.
pub fn hedera_transaction_set_memo(table: &mut HandleTable, tx: u64, memo: &str) -> (status: u64)
    requires
        tx != 0,
    ensures
        (status as int, final(table)@) == old(table)@.mutate(
            tx,
            |v: TransactionView| v.change(Some(TransactionView { memo: memo@, ..v })),
        ),
{
    match table.take(tx) {
        Some(mut t) => {
            let done = t.memo(memo);
            table.put(tx, t);
            status(done)
        },
        None => ErrorKind::InvalidState.status(),
    }
}

/// Adds `secret` to the signers of the transaction under `tx`, behind
/// those already there.
pub fn hedera_transaction_sign(table: &mut HandleTable, tx: u64, secret: SecretKey) -> (status: u64)
    requires
        tx != 0,
    ensures
        (status as int, final(table)@) == old(table)@.mutate(
            tx,
            |v: TransactionView| v.sign(secret@),
        ),
{
    match table.take(tx) {
        Some(mut t) => {
            let done = t.sign(&secret);
            table.put(tx, t);
            status(done)
        },
        None => ErrorKind::InvalidState.status(),
    }
}

/// Executes the transaction under `tx` and gives the handle up: whatever
/// comes of the execution, the handle is not live afterwards. A handle
/// that is not live is refused as invalid state, and a transaction
/// without the operator among its signers for the missing signature. On
/// status zero `out` holds what is to be sent; otherwise `out` is left as
/// it was. The only failure that is not decided by the table is that of
/// the backend when asked to sign.
pub fn hedera_transaction_execute(
    table: &mut HandleTable,
    tx: u64,
    out: &mut Submission,
) -> (status: u64)
    requires
        tx != 0,
    ensures
        final(table)@ == old(table)@.execute(tx).1,
        match old(table)@.transaction(tx) {
            Some(v) => match v.execute_outcome() {
                Ok(sent) => (status == 0 && final(out).id == sent.0 && final(out).request@
                    == sent.1) || (status == ErrorKind::Backend.status_of() && *final(out)
                    == *old(out)),
                Err(e) => status == e.status_of() && *final(out) == *old(out),
            },
            None => status == ErrorKind::InvalidState.status_of() && *final(out) == *old(out),
        },
{
    match table.take(tx) {
        Some(mut t) => match t.execute() {
            Ok(submission) => {
                *out = submission;
                STATUS_OK
            },
            Err(e) => e.status(),
        },
        None => ErrorKind::InvalidState.status(),
    }
}

/// Gives up the transaction under `tx` without executing it. A handle is
/// freed once: freeing it again, or after execution, is refused.
pub fn hedera_transaction_free(table: &mut HandleTable, tx: u64) -> (status: u64)
    requires
        tx != 0,
    ensures
        (status as int, final(table)@) == old(table)@.release(tx),
{
    match table.take(tx) {
        Some(_) => STATUS_OK,
        None => ErrorKind::InvalidState.status(),
    }
}

/// Makes an account creation for the client under `client`. The client is only
/// read and stays under its handle.
#[allow(non_snake_case)]
pub fn hedera_transaction__create_account__new(
    table: &mut HandleTable,
    client: u64,
) -> (handle: u64)
    requires
        client != 0,
    ensures
        created(old(table)@, final(table)@, handle, client, empty_create_account()),
{
    match table.client(client) {
        Some(c) => {
            let t = Transaction::create_account(&c);
            table.issue(client, t)
        },
        None => 0,
    }
}

/// Sets the key of the account creation under `tx`; a transaction of
/// another kind is refused as invalid state.
#[allow(non_snake_case)]
pub fn hedera_transaction__create_account__set_key(
    table: &mut HandleTable,
    tx: u64,
    public: PublicKey,
) -> (status: u64)
    requires
        tx != 0,
    ensures
        (status as int, final(table)@) == old(table)@.mutate(
            tx,
            |v: TransactionView| v.change(v.with_create_key(public@)),
        ),
{
    match table.take(tx) {
        Some(mut t) => {
            let done = t.create_account_key(public);
            table.put(tx, t);
            status(done)
        },
        None => ErrorKind::InvalidState.status(),
    }
}

/// Sets the initial balance of the account creation under `tx`.
#[allow(non_snake_case)]
pub fn hedera_transaction__create_account__set_initial_balance(
    table: &mut HandleTable,
    tx: u64,
    balance: u64,
) -> (status: u64)
    requires
        tx != 0,
    ensures
        (status as int, final(table)@) == old(table)@.mutate(
            tx,
            |v: TransactionView| v.change(v.with_initial_balance(balance)),
        ),
{
    match table.take(tx) {
        Some(mut t) => {
            let done = t.initial_balance(balance);
            table.put(tx, t);
            status(done)
        },
        None => ErrorKind::InvalidState.status(),
    }
}

/// Makes a transfer for the client under `client`. The client is only
/// read and stays under its handle.
#[allow(non_snake_case)]
pub fn hedera_transaction__crypto_transfer__new(
    table: &mut HandleTable,
    client: u64,
) -> (handle: u64)
    requires
        client != 0,
    ensures
        created(old(table)@, final(table)@, handle, client, empty_crypto_transfer()),
{
    match table.client(client) {
        Some(c) => {
            let t = Transaction::crypto_transfer(&c);
            table.issue(client, t)
        },
        None => 0,
    }
}

/// Appends an adjustment to the transfer under `tx`.
#[allow(non_snake_case)]
pub fn hedera_transaction__crypto_transfer__add_transfer(
    table: &mut HandleTable,
    tx: u64,
    id: AccountId,
    amount: i64,
) -> (status: u64)
    requires
        tx != 0,
    ensures
        (status as int, final(table)@) == old(table)@.mutate(
            tx,
            |v: TransactionView| v.change(v.with_transfer(Transfer { account: id, amount })),
        ),
{
    match table.take(tx) {
        Some(mut t) => {
            let done = t.transfer(id, amount);
            table.put(tx, t);
            status(done)
        },
        None => ErrorKind::InvalidState.status(),
    }
}

/// Makes an account update for the client under `client`. The client is only
/// read and stays under its handle.
#[allow(non_snake_case)]
pub fn hedera_transaction__crypto_update__new(table: &mut HandleTable, client: u64) -> (handle: u64)
    requires
        client != 0,
    ensures
        created(old(table)@, final(table)@, handle, client, empty_crypto_update()),
{
    match table.client(client) {
        Some(c) => {
            let t = Transaction::crypto_update(&c);
            table.issue(client, t)
        },
        None => 0,
    }
}

/// Sets the account that the account update under `tx` changes.
#[allow(non_snake_case)]
pub fn hedera_transaction__crypto_update__set_account_id_to_update(
    table: &mut HandleTable,
    tx: u64,
    id: AccountId,
) -> (status: u64)
    requires
        tx != 0,
    ensures
        (status as int, final(table)@) == old(table)@.mutate(
            tx,
            |v: TransactionView| v.change(v.with_update(UpdateEdit::AccountIdToUpdate(id))),
        ),
{
    match table.take(tx) {
        Some(mut t) => {
            let done = t.account_id_to_update(id);
            table.put(tx, t);
            status(done)
        },
        None => ErrorKind::InvalidState.status(),
    }
}

/// Sets the key of the account update under `tx`; a transaction of
/// another kind is refused as invalid state.
#[allow(non_snake_case)]
pub fn hedera_transaction__crypto_update__set_key(
    table: &mut HandleTable,
    tx: u64,
    public: PublicKey,
) -> (status: u64)
    requires
        tx != 0,
    ensures
        (status as int, final(table)@) == old(table)@.mutate(
            tx,
            |v: TransactionView| v.change(v.with_update_key(public@)),
        ),
{
    match table.take(tx) {
        Some(mut t) => {
            let done = t.crypto_update_key(public);
            table.put(tx, t);
            status(done)
        },
        None => ErrorKind::InvalidState.status(),
    }
}

/// Sets the proxy account of the account update under `tx`.
#[allow(non_snake_case)]
pub fn hedera_transaction__crypto_update__set_proxy_account_id(
    table: &mut HandleTable,
    tx: u64,
    proxy: AccountId,
) -> (status: u64)
    requires
        tx != 0,
    ensures
        (status as int, final(table)@) == old(table)@.mutate(
            tx,
            |v: TransactionView| v.change(v.with_update(UpdateEdit::ProxyAccountId(proxy))),
        ),
{
    match table.take(tx) {
        Some(mut t) => {
            let done = t.proxy_account_id(proxy);
            table.put(tx, t);
            status(done)
        },
        None => ErrorKind::InvalidState.status(),
    }
}

/// Sets the proxy fraction of the account update under `tx`.
#[allow(non_snake_case)]
pub fn hedera_transaction__crypto_update__set_proxy_fraction(
    table: &mut HandleTable,
    tx: u64,
    fraction: i32,
) -> (status: u64)
    requires
        tx != 0,
    ensures
        (status as int, final(table)@) == old(table)@.mutate(
            tx,
            |v: TransactionView| v.change(v.with_update(UpdateEdit::ProxyFraction(fraction))),
        ),
{
    match table.take(tx) {
        Some(mut t) => {
            let done = t.proxy_fraction(fraction);
            table.put(tx, t);
            status(done)
        },
        None => ErrorKind::InvalidState.status(),
    }
}

/// Sets the send threshold of the account update under `tx`.
#[allow(non_snake_case)]
pub fn hedera_transaction__crypto_update__set_send_record_threshold(
    table: &mut HandleTable,
    tx: u64,
    threshold: u64,
) -> (status: u64)
    requires
        tx != 0,
    ensures
        (status as int, final(table)@) == old(table)@.mutate(
            tx,
            |v: TransactionView|
                v.change(v.with_update(UpdateEdit::SendRecordThreshold(threshold))),
        ),
{
    match table.take(tx) {
        Some(mut t) => {
            let done = t.send_record_threshold(threshold);
            table.put(tx, t);
            status(done)
        },
        None => ErrorKind::InvalidState.status(),
    }
}

/// Sets the receive threshold of the account update under `tx`.
#[allow(non_snake_case)]
pub fn hedera_transaction__crypto_update__set_receive_record_threshold(
    table: &mut HandleTable,
    tx: u64,
    threshold: u64,
) -> (status: u64)
    requires
        tx != 0,
    ensures
        (status as int, final(table)@) == old(table)@.mutate(
            tx,
            |v: TransactionView|
                v.change(v.with_update(UpdateEdit::ReceiveRecordThreshold(threshold))),
        ),
{
    match table.take(tx) {
        Some(mut t) => {
            let done = t.receive_record_threshold(threshold);
            table.put(tx, t);
            status(done)
        },
        None => ErrorKind::InvalidState.status(),
    }
}

/// Sets the renewal period of the account update under `tx`.
#[allow(non_snake_case)]
pub fn hedera_transaction__crypto_update__set_auto_renew_period(
    table: &mut HandleTable,
    tx: u64,
    duration: Duration,
) -> (status: u64)
    requires
        tx != 0,
    ensures
        (status as int, final(table)@) == old(table)@.mutate(
            tx,
            |v: TransactionView| v.change(v.with_update(UpdateEdit::AutoRenewPeriod(duration))),
        ),
{
    match table.take(tx) {
        Some(mut t) => {
            let done = t.auto_renew_period(duration);
            table.put(tx, t);
            status(done)
        },
        None => ErrorKind::InvalidState.status(),
    }
}

/// Sets the expiration time of the account update under `tx`.
#[allow(non_snake_case)]
pub fn hedera_transaction__crypto_update__set_expiration_time(
    table: &mut HandleTable,
    tx: u64,
    time: Timestamp,
) -> (status: u64)
    requires
        tx != 0,
    ensures
        (status as int, final(table)@) == old(table)@.mutate(
            tx,
            |v: TransactionView| v.change(v.with_update(UpdateEdit::ExpirationTime(time))),
        ),
{
    match table.take(tx) {
        Some(mut t) => {
            let done = t.expiration_time(time);
            table.put(tx, t);
            status(done)
        },
        None => ErrorKind::InvalidState.status(),
    }
}

/// A handle that was executed or freed is gone for good: it stands for
/// nothing, a second execution or freeing and every mutator are refused
/// as invalid state and change nothing, and every other handle stands for
/// what it stood for before.
pub proof fn lemma_handle_used_once(
    table: TableView,
    h: u64,
    other: u64,
    step: spec_fn(TransactionView) -> (Result<(), ErrorKind>, TransactionView),
)
    requires
        table.transaction(h) is Some,
        other != h,
    ensures
        table.execute(h).1 == table.release(h).1,
        table.release(h).0 == 0,
        table.release(h).1.transaction(h) is None,
        table.release(h).1.transaction(other) == table.transaction(other),
        table.release(h).1.clients == table.clients,
        table.release(h).1.release(h) == (ErrorKind::InvalidState.status_of(), table.release(h).1),
        table.release(h).1.execute(h) == (ErrorKind::InvalidState.status_of(), table.release(h).1),
        table.release(h).1.mutate(h, step) == (
            ErrorKind::InvalidState.status_of(),
            table.release(h).1,
        ),
{
}

/// A mutator keeps the object alive under its handle and touches no other
/// handle: nothing is destroyed on the way.
pub proof fn lemma_mutator_keeps_handles(
    table: TableView,
    h: u64,
    other: u64,
    step: spec_fn(TransactionView) -> (Result<(), ErrorKind>, TransactionView),
)
    requires
        other != h,
    ensures
        table.mutate(h, step).1.transaction(h) is Some <==> table.transaction(h) is Some,
        table.mutate(h, step).1.transaction(other) == table.transaction(other),
        table.mutate(h, step).1.clients == table.clients,
        live_count(table.mutate(h, step).1.transactions) == live_count(table.transactions),
{
    if table.transaction(h) is Some {
        let next = step(table.transaction(h).unwrap()).1;
        lemma_live_count_update(table.transactions, h - 1, Some(next));
    }
}

/// Creation for a live client hands out a handle that is not null, was
/// never issued before and differs from every live handle; it stands for
/// the new transaction, every other handle stands for what it stood for,
/// the client is still under its handle and unchanged, and there is one
/// more live transaction.
pub proof fn lemma_creation_is_fresh(
    before: TableView,
    after: TableView,
    handle: u64,
    client: u64,
    payload: PayloadView,
    other: u64,
)
    requires
        before.client(client) is Some,
        created(before, after, handle, client, payload),
    ensures
        handle != 0,
        handle > before.transactions.len(),
        before.transaction(handle) is None,
        before.transaction(other) is Some ==> other != handle,
        after.transaction(handle) matches Some(v) && v.payload == payload && !v.executed
            && v.signers.len() == 0,
        other != handle ==> after.transaction(other) == before.transaction(other),
        after.clients == before.clients,
        after.client(client) == before.client(client),
        live_count(after.transactions) == live_count(before.transactions) + 1,
{
    assert forall|g: u64| g != handle implies after.transaction(g) == before.transaction(g) by {
        if 1 <= g <= before.transactions.len() {
            assert(after.transactions.drop_last()[g - 1] == after.transactions[g - 1]);
        }
    }
}

/// Replacing one slot changes the number of live slots by what the slot
/// gains or loses.
pub proof fn lemma_live_count_update(
    slots: Seq<Option<TransactionView>>,
    i: int,
    slot: Option<TransactionView>,
)
    requires
        0 <= i < slots.len(),
    ensures
        live_count(slots.update(i, slot)) + (if slots[i] is Some {
            1nat
        } else {
            0nat
        }) == live_count(slots) + (if slot is Some {
            1nat
        } else {
            0nat
        }),
    decreases slots.len(),
{
    let next = slots.update(i, slot);
    if i == slots.len() - 1 {
        assert(next.drop_last() =~= slots.drop_last());
    } else {
        assert(next.drop_last() =~= slots.drop_last().update(i, slot));
        lemma_live_count_update(slots.drop_last(), i, slot);
    }
}

/// Handles are neither leaked nor freed twice: issuing one makes one more
/// live transaction, executing or freeing a live one makes one fewer, and
/// doing either to a handle that is not live changes nothing.
pub proof fn lemma_live_count_accounts(
    table: TableView,
    next: TableView,
    h: u64,
    client: u64,
    payload: PayloadView,
)
    ensures
        table.issued(next, h, client, payload) ==> live_count(next.transactions) == live_count(
            table.transactions,
        ) + 1 && table.transaction(h) is None,
        table.transaction(h) is Some ==> live_count(table.release(h).1.transactions) + 1
            == live_count(table.transactions) && table.execute(h).1 == table.release(h).1,
        table.transaction(h) is None ==> table.release(h).1 == table && table.execute(h).1
            == table,
{
    if table.transaction(h) is Some {
        lemma_live_count_update(table.transactions, h - 1, None);
    }
}

} // verus!
