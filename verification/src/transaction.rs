//! Transactions: built step by step, signed, and executed once.

use vstd::prelude::*;
use vstd::string::StringSliceAdditionalSpecFns;
use crate::backend::{ed25519_public, ed25519_signature};
use crate::client::{Client, ClientView};
use crate::error::{ErrorKind, TransportError};
use crate::id::AccountId;
use crate::key::{PublicKey, SecretKey, Signature, KEY_LEN};
use crate::payload::{
    empty_create_account, empty_crypto_transfer, empty_crypto_update, payload_wire, Payload,
    PayloadView, Transfer,
};
use crate::precheck::PreCheckCode;
use crate::proto::{
    account_wire, decode_precheck, encode_account, encode_transaction_id, precheck_read,
    transaction_id_wire,
};
use crate::timestamp::{Duration, Timestamp, NANOS_PER_SECOND};
use crate::transaction_id::TransactionId;
use crate::wire::{bytes_field, put_bytes};

verus! {

/// A transaction that is being built, or has been executed.
pub struct Transaction {
    executed: bool,
    operator: AccountId,
    operator_key: PublicKey,
    node: AccountId,
    memo: String,
    valid_start: Timestamp,
    signers: Vec<SecretKey>,
    payload: Payload,
}

/// A transaction as plain values.
pub struct TransactionView {
    /// Whether the transaction has been executed; nothing changes after.
    pub executed: bool,
    pub operator: AccountId,
    /// The public key under which the operator signs.
    pub operator_key: Seq<u8>,
    pub node: AccountId,
    pub memo: Seq<char>,
    pub valid_start: Timestamp,
    /// The secret key of each signer, in signing order.
    pub signers: Seq<Seq<u8>>,
    pub payload: PayloadView,
}

/// What execution hands over for sending.
#[derive(Debug, PartialEq, Eq)]
pub struct Submission {
    /// The identifier under which the network will know the transaction.
    pub id: TransactionId,
    /// The signed transaction in wire form.
    pub request: Vec<u8>,
}

/// The signers of a transaction as plain values.
pub open spec fn signer_views(signers: Seq<SecretKey>) -> Seq<Seq<u8>> {
    Seq::new(signers.len(), |i: int| signers[i]@)
}

/// What the backend delivered for each signer, as plain values.
pub open spec fn delivery_views(delivered: Seq<Option<Signature>>) -> Seq<Option<Seq<u8>>> {
    Seq::new(
        delivered.len(),
        |i: int|
            match delivered[i] {
                Some(s) => Some(s@),
                None => None,
            },
    )
}

/// The wire form of the signatures: one field 2 for each signer, in
/// signing order, holding the public key as field 1 and the signature as
/// field 2.
pub open spec fn signatures_wire(signatures: Seq<(Seq<u8>, Seq<u8>)>) -> Seq<u8>
    decreases signatures.len(),
{
    if signatures.len() == 0 {
        Seq::empty()
    } else {
        signatures_wire(signatures.drop_last()) + bytes_field(
            2,
            bytes_field(1, signatures.last().0) + bytes_field(2, signatures.last().1),
        )
    }
}

impl TransactionView {
    /// A transaction as it is created: nothing signed, no memo.
    pub open spec fn fresh(
        client: ClientView,
        payload: PayloadView,
        valid_start: Timestamp,
    ) -> Self {
        TransactionView {
            executed: false,
            operator: client.operator,
            operator_key: client.operator_key,
            node: client.node,
            memo: Seq::empty(),
            valid_start,
            signers: Seq::empty(),
            payload,
        }
    }

    /// The identifier: the operator and the start of validity.
    pub open spec fn id(self) -> TransactionId {
        TransactionId { account_id: self.operator, transaction_valid_start: self.valid_start }
    }

    /// The canonical body, which is what signers sign: the identifier as
    /// field 1, the node as field 2, the memo as field 6, then the
    /// payload.
    pub open spec fn body_wire(self) -> Seq<u8> {
        bytes_field(1, transaction_id_wire(self.id())) + bytes_field(2, account_wire(self.node))
            + bytes_field(6, vstd::utf8::encode_utf8(self.memo)) + payload_wire(self.payload)
    }

    /// The signatures that go with the body: for each signer, in signing
    /// order, the public key and the signature of the body.
    pub open spec fn signatures(self) -> Seq<(Seq<u8>, Seq<u8>)> {
        Seq::new(
            self.signers.len(),
            |i: int|
                (
                    ed25519_public(self.signers[i]),
                    ed25519_signature(self.signers[i], self.body_wire()),
                ),
        )
    }

    /// Whether the operator is among the signers: whether some signer's
    /// public key is the operator's.
    pub open spec fn operator_signed(self) -> bool {
        exists|i: int|
            0 <= i < self.signers.len() && ed25519_public(#[trigger] self.signers[i])
                == self.operator_key
    }

    /// The signed transaction: the body as field 1, then the signatures.
    pub open spec fn request_wire(self) -> Seq<u8> {
        bytes_field(1, self.body_wire()) + signatures_wire(self.signatures())
    }

    /// What a change amounts to: it is refused once the transaction has
    /// been executed, and where the field does not belong to the kind of
    /// transaction (`next` is `None`); the transaction then stays as it is.
    pub open spec fn change(self, next: Option<TransactionView>) -> (
        Result<(), ErrorKind>,
        TransactionView,
    ) {
        if self.executed || next is None {
            (Err(ErrorKind::InvalidState), self)
        } else {
            (Ok(()), next.unwrap())
        }
    }

    /// What signing amounts to: refused after execution; otherwise the
    /// signer goes to the end of the list. The signature itself is made at
    /// execution, over the body as it stands then.
    pub open spec fn sign(self, secret: Seq<u8>) -> (Result<(), ErrorKind>, TransactionView) {
        if self.executed {
            (Err(ErrorKind::InvalidState), self)
        } else {
            (Ok(()), TransactionView { signers: self.signers.push(secret), ..self })
        }
    }

    /// What execution returns when the backend delivers every signature:
    /// refused when executed before; without the operator among the
    /// signers the operator's signature is missing; otherwise the
    /// identifier and the request to send.
    pub open spec fn execute_outcome(self) -> Result<(TransactionId, Seq<u8>), ErrorKind> {
        if self.executed {
            Err(ErrorKind::InvalidState)
        } else if !self.operator_signed() {
            Err(ErrorKind::MissingSignature)
        } else {
            Ok((self.id(), self.request_wire()))
        }
    }

    /// The transaction after an attempt to execute it: executed when the
    /// attempt succeeded, as before when it did not.
    pub open spec fn after_execute(self) -> TransactionView {
        if self.execute_outcome() is Ok {
            TransactionView { executed: true, ..self }
        } else {
            self
        }
    }

    /// What execution makes of what the backend delivered for each signer.
    /// What `execute_outcome` refuses is refused whatever was delivered;
    /// one signature that was not delivered is a backend failure and
    /// leaves the transaction as it is; otherwise the transaction is
    /// executed.
    pub open spec fn seal(self, delivered: Seq<Option<Seq<u8>>>) -> (
        Result<(TransactionId, Seq<u8>), ErrorKind>,
        TransactionView,
    ) {
        if self.execute_outcome() is Err {
            (self.execute_outcome(), self)
        } else if exists|i: int| 0 <= i < delivered.len() && #[trigger] delivered[i] is None {
            (Err(ErrorKind::Backend), self)
        } else {
            (self.execute_outcome(), self.after_execute())
        }
    }

    /// An account creation with its key set.
    pub open spec fn with_create_key(self, key: Seq<u8>) -> Option<TransactionView> {
        match self.payload {
            PayloadView::CreateAccount { key: _, initial_balance } => Some(
                TransactionView {
                    payload: PayloadView::CreateAccount { key: Some(key), initial_balance },
                    ..self
                },
            ),
            _ => None,
        }
    }

    /// An account update with its key set.
    pub open spec fn with_update_key(self, key: Seq<u8>) -> Option<TransactionView> {
        match self.payload {
            PayloadView::CryptoUpdate {
                account_id_to_update,
                key: _,
                proxy_account_id,
                proxy_fraction,
                send_record_threshold,
                receive_record_threshold,
                auto_renew_period,
                expiration_time,
            } => Some(
                TransactionView {
                    payload: PayloadView::CryptoUpdate {
                        account_id_to_update,
                        key: Some(key),
                        proxy_account_id,
                        proxy_fraction,
                        send_record_threshold,
                        receive_record_threshold,
                        auto_renew_period,
                        expiration_time,
                    },
                    ..self
                },
            ),
            _ => None,
        }
    }

    /// The payload with a key set, for the kinds that have one.
    pub open spec fn with_key(self, key: Seq<u8>) -> Option<TransactionView> {
        if self.with_create_key(key) is Some {
            self.with_create_key(key)
        } else {
            self.with_update_key(key)
        }
    }

    /// An account creation with its initial balance set.
    pub open spec fn with_initial_balance(self, balance: u64) -> Option<TransactionView> {
        match self.payload {
            PayloadView::CreateAccount { key, initial_balance: _ } => Some(
                TransactionView {
                    payload: PayloadView::CreateAccount { key, initial_balance: balance },
                    ..self
                },
            ),
            _ => None,
        }
    }

    /// A transfer with one more adjustment at the end of its list.
    pub open spec fn with_transfer(self, t: Transfer) -> Option<TransactionView> {
        match self.payload {
            PayloadView::CryptoTransfer { transfers } => Some(
                TransactionView {
                    payload: PayloadView::CryptoTransfer { transfers: transfers.push(t) },
                    ..self
                },
            ),
            _ => None,
        }
    }

    /// An account update with one of its fields replaced; `edit` says
    /// which.
    pub open spec fn with_update(self, edit: UpdateEdit) -> Option<TransactionView> {
        match self.payload {
            PayloadView::CryptoUpdate {
                account_id_to_update,
                key,
                proxy_account_id,
                proxy_fraction,
                send_record_threshold,
                receive_record_threshold,
                auto_renew_period,
                expiration_time,
            } => Some(
                TransactionView {
                    payload: PayloadView::CryptoUpdate {
                        account_id_to_update: if let UpdateEdit::AccountIdToUpdate(id) = edit {
                            Some(id)
                        } else {
                            account_id_to_update
                        },
                        key,
                        proxy_account_id: if let UpdateEdit::ProxyAccountId(id) = edit {
                            Some(id)
                        } else {
                            proxy_account_id
                        },
                        proxy_fraction: if let UpdateEdit::ProxyFraction(f) = edit {
                            Some(f)
                        } else {
                            proxy_fraction
                        },
                        send_record_threshold: if let UpdateEdit::SendRecordThreshold(n) = edit {
                            Some(n)
                        } else {
                            send_record_threshold
                        },
                        receive_record_threshold: if let UpdateEdit::ReceiveRecordThreshold(n) =
                            edit {
                            Some(n)
                        } else {
                            receive_record_threshold
                        },
                        auto_renew_period: if let UpdateEdit::AutoRenewPeriod(d) = edit {
                            Some(d)
                        } else {
                            auto_renew_period
                        },
                        expiration_time: if let UpdateEdit::ExpirationTime(t) = edit {
                            Some(t)
                        } else {
                            expiration_time
                        },
                    },
                    ..self
                },
            ),
            _ => None,
        }
    }
}

/// One change to an account update: the field and its new value.
#[derive(Clone, Copy, Debug, PartialEq, Eq, Structural)]
pub enum UpdateEdit {
    AccountIdToUpdate(AccountId),
    ProxyAccountId(AccountId),
    ProxyFraction(i32),
    SendRecordThreshold(u64),
    ReceiveRecordThreshold(u64),
    AutoRenewPeriod(Duration),
    ExpirationTime(Timestamp),
}

/// What the reply to a submitted transaction means: a transport failure,
/// or a reply that cannot be read, is a transport error; an accepted
/// transaction gives its identifier; any other code is handed on.
pub open spec fn transaction_outcome(
    id: TransactionId,
    reply: Result<Seq<u8>, TransportError>,
) -> Result<TransactionId, ErrorKind> {
    match reply {
        Ok(bytes) => match precheck_read(bytes) {
            Some(code) => if code == PreCheckCode::Success {
                Ok(id)
            } else {
                Err(ErrorKind::PreCheck(code))
            },
            None => Err(ErrorKind::Transport),
        },
        Err(_) => Err(ErrorKind::Transport),
    }
}

/// The bytes of a reply that may have failed to arrive.
pub open spec fn reply_view(reply: Result<Vec<u8>, TransportError>) -> Result<
    Seq<u8>,
    TransportError,
> {
    match reply {
        Ok(bytes) => Ok(bytes@),
        Err(e) => Err(e),
    }
}

impl Submission {
    /// Interprets the reply to this submission.
    pub fn complete(&self, reply: Result<Vec<u8>, TransportError>) -> (outcome: Result<
        TransactionId,
        ErrorKind,
    >)
        ensures
            outcome == transaction_outcome(self.id, reply_view(reply)),
    {
        match reply {
            Ok(bytes) => match decode_precheck(bytes.as_slice()) {
                Some(code) => {
                    if code.is_ok() {
                        Ok(self.id)
                    } else {
                        Err(ErrorKind::PreCheck(code))
                    }
                },
                None => Err(ErrorKind::Transport),
            },
            Err(_) => Err(ErrorKind::Transport),
        }
    }
}

impl View for Transaction {
    type V = TransactionView;

    closed spec fn view(&self) -> TransactionView {
        TransactionView {
            executed: self.executed,
            operator: self.operator,
            operator_key: self.operator_key@,
            node: self.node,
            memo: self.memo@,
            valid_start: self.valid_start,
            signers: signer_views(self.signers@),
            payload: self.payload@,
        }
    }
}

impl Transaction {
    /// A transaction for `client` that is valid from `valid_start` on.
    pub fn new(client: &Client, payload: Payload, valid_start: Timestamp) -> (tx: Transaction)
        ensures
            tx@ == TransactionView::fresh(client@, payload@, valid_start),
    {
        let tx = Transaction {
            executed: false,
            operator: client.operator,
            operator_key: client.operator_key.duplicate(),
            node: client.node,
            memo: String::new(),
            valid_start,
            signers: Vec::new(),
            payload,
        };
        assert(tx@.signers =~= Seq::empty());
        tx
    }

    /// A transaction for `client` that is valid from now on. A clock that
    /// gives no usable reading counts as the epoch.
    pub fn starting_now(client: &Client, payload: Payload) -> (tx: Transaction)
        ensures
            tx@ == TransactionView::fresh(client@, payload@, tx@.valid_start),
            tx@.valid_start.nanos < NANOS_PER_SECOND,
    {
        let valid_start = match Timestamp::now() {
            Some(t) => t,
            None => Timestamp { seconds: 0, nanos: 0 },
        };
        Transaction::new(client, payload, valid_start)
    }

    /// An account creation with nothing set, valid from now on.
    pub fn create_account(client: &Client) -> (tx: Transaction)
        ensures
            tx@ == TransactionView::fresh(client@, empty_create_account(), tx@.valid_start),
            tx@.valid_start.nanos < NANOS_PER_SECOND,
    {
        Transaction::starting_now(client, Payload::CreateAccount { key: None, initial_balance: 0 })
    }

    /// A transfer without adjustments, valid from now on.
    pub fn crypto_transfer(client: &Client) -> (tx: Transaction)
        ensures
            tx@ == TransactionView::fresh(client@, empty_crypto_transfer(), tx@.valid_start),
            tx@.valid_start.nanos < NANOS_PER_SECOND,
    {
        Transaction::starting_now(client, Payload::CryptoTransfer { transfers: Vec::new() })
    }

    /// An account update that changes nothing, valid from now on.
    pub fn crypto_update(client: &Client) -> (tx: Transaction)
        ensures
            tx@ == TransactionView::fresh(client@, empty_crypto_update(), tx@.valid_start),
            tx@.valid_start.nanos < NANOS_PER_SECOND,
    {
        Transaction::starting_now(
            client,
            Payload::CryptoUpdate {
                account_id_to_update: None,
                key: None,
                proxy_account_id: None,
                proxy_fraction: None,
                send_record_threshold: None,
                receive_record_threshold: None,
                auto_renew_period: None,
                expiration_time: None,
            },
        )
    }

    /// Whether the transaction has been executed.
    pub fn is_executed(&self) -> (executed: bool)
        ensures
            executed == self@.executed,
    {
        self.executed
    }

    /// The identifier of the transaction.
    pub fn id(&self) -> (id: TransactionId)
        ensures
            id == self@.id(),
    {
        TransactionId { account_id: self.operator, transaction_valid_start: self.valid_start }
    }

    /// How many signers there are.
    pub fn signature_count(&self) -> (count: usize)
        ensures
            count == self@.signers.len(),
    {
        self.signers.len()
    }

    /// Whether the operator is among the signers.
    pub fn has_operator_signature(&self) -> (signed: bool)
        ensures
            signed == self@.operator_signed(),
    {
        let mut i: usize = 0;
        while i < self.signers.len()
            invariant
                0 <= i <= self.signers.len(),
                forall|k: int|
                    0 <= k < i ==> ed25519_public(#[trigger] self@.signers[k])
                        != self@.operator_key,
            decreases self.signers.len() - i,
        {
            assert(self@.signers[i as int] == self.signers@[i as int]@);
            if self.signers[i].public().same_as(&self.operator_key) {
                return true;
            }
            i = i + 1;
        }
        false
    }

    /// Sets the key under which the operator signs.
    pub fn operator_key(&mut self, key: PublicKey) -> (done: Result<(), ErrorKind>)
        ensures
            (done, final(self)@) == old(self)@.change(
                Some(TransactionView { operator_key: key@, ..old(self)@ }),
            ),
    {
        if self.executed {
            return Err(ErrorKind::InvalidState);
        }
        self.operator_key = key;
        Ok(())
    }

    /// Sets the operator.
    pub fn operator(&mut self, id: AccountId) -> (done: Result<(), ErrorKind>)
        ensures
            (done, final(self)@) == old(self)@.change(
                Some(TransactionView { operator: id, ..old(self)@ }),
            ),
    {
        if self.executed {
            return Err(ErrorKind::InvalidState);
        }
        self.operator = id;
        Ok(())
    }

    /// Sets the node that the transaction goes to.
    pub fn node(&mut self, id: AccountId) -> (done: Result<(), ErrorKind>)
        ensures
            (done, final(self)@) == old(self)@.change(
                Some(TransactionView { node: id, ..old(self)@ }),
            ),
    {
        if self.executed {
            return Err(ErrorKind::InvalidState);
        }
        self.node = id;
        Ok(())
    }

    /// Sets the memo.
    pub fn memo(&mut self, text: &str) -> (done: Result<(), ErrorKind>)
        ensures
            (done, final(self)@) == old(self)@.change(
                Some(TransactionView { memo: text@, ..old(self)@ }),
            ),
    {
        if self.executed {
            return Err(ErrorKind::InvalidState);
        }
        self.memo = text.to_owned();
        Ok(())
    }

    /// Sets the start of validity.
    pub fn valid_start(&mut self, start: Timestamp) -> (done: Result<(), ErrorKind>)
        ensures
            (done, final(self)@) == old(self)@.change(
                Some(TransactionView { valid_start: start, ..old(self)@ }),
            ),
    {
        if self.executed {
            return Err(ErrorKind::InvalidState);
        }
        self.valid_start = start;
        Ok(())
    }

    /// Sets the key of an account creation or of an account update.
    pub fn key(&mut self, key: PublicKey) -> (done: Result<(), ErrorKind>)
        ensures
            (done, final(self)@) == old(self)@.change(old(self)@.with_key(key@)),
    {
        if self.executed {
            return Err(ErrorKind::InvalidState);
        }
        match &mut self.payload {
            Payload::CreateAccount { key: slot, .. } => {
                *slot = Some(key);
                Ok(())
            },
            Payload::CryptoUpdate { key: slot, .. } => {
                *slot = Some(key);
                Ok(())
            },
            _ => Err(ErrorKind::InvalidState),
        }
    }

    /// Sets the key of an account creation, and of no other kind.
    pub fn create_account_key(&mut self, key: PublicKey) -> (done: Result<(), ErrorKind>)
        ensures
            (done, final(self)@) == old(self)@.change(old(self)@.with_create_key(key@)),
    {
        if self.executed {
            return Err(ErrorKind::InvalidState);
        }
        match &mut self.payload {
            Payload::CreateAccount { key: slot, .. } => {
                *slot = Some(key);
                Ok(())
            },
            _ => Err(ErrorKind::InvalidState),
        }
    }

    /// Sets the key of an account update, and of no other kind.
    pub fn crypto_update_key(&mut self, key: PublicKey) -> (done: Result<(), ErrorKind>)
        ensures
            (done, final(self)@) == old(self)@.change(old(self)@.with_update_key(key@)),
    {
        if self.executed {
            return Err(ErrorKind::InvalidState);
        }
        match &mut self.payload {
            Payload::CryptoUpdate { key: slot, .. } => {
                *slot = Some(key);
                Ok(())
            },
            _ => Err(ErrorKind::InvalidState),
        }
    }

    /// Sets the initial balance of an account creation.
    pub fn initial_balance(&mut self, balance: u64) -> (done: Result<(), ErrorKind>)
        ensures
            (done, final(self)@) == old(self)@.change(old(self)@.with_initial_balance(balance)),
    {
        if self.executed {
            return Err(ErrorKind::InvalidState);
        }
        match &mut self.payload {
            Payload::CreateAccount { initial_balance, .. } => {
                *initial_balance = balance;
                Ok(())
            },
            _ => Err(ErrorKind::InvalidState),
        }
    }

    /// Appends an adjustment to a transfer. Adjustments keep the order in
    /// which they were added.
    pub fn transfer(&mut self, id: AccountId, amount: i64) -> (done: Result<(), ErrorKind>)
        ensures
            (done, final(self)@) == old(self)@.change(
                old(self)@.with_transfer(Transfer { account: id, amount }),
            ),
    {
        if self.executed {
            return Err(ErrorKind::InvalidState);
        }
        match &mut self.payload {
            Payload::CryptoTransfer { transfers } => {
                transfers.push(Transfer { account: id, amount });
                Ok(())
            },
            _ => Err(ErrorKind::InvalidState),
        }
    }

    /// Replaces one field of an account update.
    pub fn update(&mut self, edit: UpdateEdit) -> (done: Result<(), ErrorKind>)
        ensures
            (done, final(self)@) == old(self)@.change(old(self)@.with_update(edit)),
    {
        if self.executed {
            return Err(ErrorKind::InvalidState);
        }
        match &mut self.payload {
            Payload::CryptoUpdate {
                account_id_to_update,
                proxy_account_id,
                proxy_fraction,
                send_record_threshold,
                receive_record_threshold,
                auto_renew_period,
                expiration_time,
                ..
            } => {
                match edit {
                    UpdateEdit::AccountIdToUpdate(id) => {
                        *account_id_to_update = Some(id);
                    },
                    UpdateEdit::ProxyAccountId(id) => {
                        *proxy_account_id = Some(id);
                    },
                    UpdateEdit::ProxyFraction(f) => {
                        *proxy_fraction = Some(f);
                    },
                    UpdateEdit::SendRecordThreshold(n) => {
                        *send_record_threshold = Some(n);
                    },
                    UpdateEdit::ReceiveRecordThreshold(n) => {
                        *receive_record_threshold = Some(n);
                    },
                    UpdateEdit::AutoRenewPeriod(d) => {
                        *auto_renew_period = Some(d);
                    },
                    UpdateEdit::ExpirationTime(t) => {
                        *expiration_time = Some(t);
                    },
                }
                Ok(())
            },
            _ => Err(ErrorKind::InvalidState),
        }
    }

    /// Sets the account that an account update changes.
    pub fn account_id_to_update(&mut self, id: AccountId) -> (done: Result<(), ErrorKind>)
        ensures
            (done, final(self)@) == old(self)@.change(
                old(self)@.with_update(UpdateEdit::AccountIdToUpdate(id)),
            ),
    {
        self.update(UpdateEdit::AccountIdToUpdate(id))
    }

    /// Sets the proxy account of an account update.
    pub fn proxy_account_id(&mut self, id: AccountId) -> (done: Result<(), ErrorKind>)
        ensures
            (done, final(self)@) == old(self)@.change(
                old(self)@.with_update(UpdateEdit::ProxyAccountId(id)),
            ),
    {
        self.update(UpdateEdit::ProxyAccountId(id))
    }

    /// Sets the proxy fraction of an account update.
    pub fn proxy_fraction(&mut self, fraction: i32) -> (done: Result<(), ErrorKind>)
        ensures
            (done, final(self)@) == old(self)@.change(
                old(self)@.with_update(UpdateEdit::ProxyFraction(fraction)),
            ),
    {
        self.update(UpdateEdit::ProxyFraction(fraction))
    }

    /// Sets the threshold above which sending is recorded.
    pub fn send_record_threshold(&mut self, threshold: u64) -> (done: Result<(), ErrorKind>)
        ensures
            (done, final(self)@) == old(self)@.change(
                old(self)@.with_update(UpdateEdit::SendRecordThreshold(threshold)),
            ),
    {
        self.update(UpdateEdit::SendRecordThreshold(threshold))
    }

    /// Sets the threshold above which receiving is recorded.
    pub fn receive_record_threshold(&mut self, threshold: u64) -> (done: Result<(), ErrorKind>)
        ensures
            (done, final(self)@) == old(self)@.change(
                old(self)@.with_update(UpdateEdit::ReceiveRecordThreshold(threshold)),
            ),
    {
        self.update(UpdateEdit::ReceiveRecordThreshold(threshold))
    }

    /// Sets the period after which the account renews itself.
    pub fn auto_renew_period(&mut self, period: Duration) -> (done: Result<(), ErrorKind>)
        ensures
            (done, final(self)@) == old(self)@.change(
                old(self)@.with_update(UpdateEdit::AutoRenewPeriod(period)),
            ),
    {
        self.update(UpdateEdit::AutoRenewPeriod(period))
    }

    /// Sets the time at which the account expires.
    pub fn expiration_time(&mut self, time: Timestamp) -> (done: Result<(), ErrorKind>)
        ensures
            (done, final(self)@) == old(self)@.change(
                old(self)@.with_update(UpdateEdit::ExpirationTime(time)),
            ),
    {
        self.update(UpdateEdit::ExpirationTime(time))
    }

    /// The canonical body in wire form.
    pub fn body_bytes(&self) -> (body: Vec<u8>)
        ensures
            body@ == self@.body_wire(),
    {
        let mut out: Vec<u8> = Vec::new();
        let id = encode_transaction_id(&self.id());
        put_bytes(&mut out, 1, id.as_slice());
        let node = encode_account(&self.node);
        put_bytes(&mut out, 2, node.as_slice());
        put_bytes(&mut out, 6, self.memo.as_str().as_bytes());
        let fields = self.payload.encode_fields();
        put_bytes(&mut out, self.payload.field(), fields.as_slice());
        assert(out@ =~= self@.body_wire());
        out
    }

    /// Adds a signer behind those already there. The signature is made
    /// at execution, over the body as it stands then, so that no change
    /// made after signing leaves a signature behind that does not fit.
    pub fn sign(&mut self, key: &SecretKey) -> (done: Result<(), ErrorKind>)
        ensures
            (done, final(self)@) == old(self)@.sign(key@),
    {
        if self.executed {
            return Err(ErrorKind::InvalidState);
        }
        let ghost before = self.signers@;
        self.signers.push(key.duplicate());
        assert(signer_views(self.signers@) =~= signer_views(before).push(key@));
        Ok(())
    }

    /// Executes the transaction with what the backend delivered for each
    /// signer when asked to sign the body.
    pub fn seal(&mut self, delivered: Vec<Option<Signature>>) -> (outcome: Result<
        Submission,
        ErrorKind,
    >)
        requires
            delivered.len() == old(self)@.signers.len(),
            forall|i: int|
                0 <= i < delivered.len() ==> (#[trigger] delivered@[i] matches Some(s) ==> s@
                    == ed25519_signature(old(self)@.signers[i], old(self)@.body_wire())),
        ensures
            final(self)@ == old(self)@.seal(delivery_views(delivered@)).1,
            match outcome {
                Ok(s) => old(self)@.seal(delivery_views(delivered@)).0 == Ok::<
                    (TransactionId, Seq<u8>),
                    ErrorKind,
                >((s.id, s.request@)),
                Err(e) => old(self)@.seal(delivery_views(delivered@)).0 == Err::<
                    (TransactionId, Seq<u8>),
                    ErrorKind,
                >(e),
            },
    {
        if self.executed {
            return Err(ErrorKind::InvalidState);
        }
        if !self.has_operator_signature() {
            return Err(ErrorKind::MissingSignature);
        }
        let ghost given = delivery_views(delivered@);
        let mut k: usize = 0;
        while k < delivered.len()
            invariant
                0 <= k <= delivered.len(),
                self@ == old(self)@,
                self@.execute_outcome() is Ok,
                given == delivery_views(delivered@),
                forall|j: int| 0 <= j < k ==> #[trigger] given[j] is Some,
            decreases delivered.len() - k,
        {
            if delivered[k].is_none() {
                assert(given[k as int] is None);
                return Err(ErrorKind::Backend);
            }
            k = k + 1;
        }
        let body = self.body_bytes();
        let mut request: Vec<u8> = Vec::new();
        put_bytes(&mut request, 1, body.as_slice());
        let mut i: usize = 0;
        while i < self.signers.len()
            invariant
                0 <= i <= self.signers.len(),
                self@ == old(self)@,
                self@.execute_outcome() is Ok,
                delivered.len() == self.signers.len(),
                given == delivery_views(delivered@),
                forall|j: int| 0 <= j < delivered.len() ==> #[trigger] given[j] is Some,
                forall|j: int|
                    0 <= j < delivered.len() ==> (#[trigger] delivered@[j] matches Some(s) ==> s@
                        == ed25519_signature(self@.signers[j], self@.body_wire())),
                request@ == bytes_field(1, self@.body_wire()) + signatures_wire(
                    self@.signatures().take(i as int),
                ),
            decreases self.signers.len() - i,
        {
            assert(given[i as int] is Some);
            assert(self@.signers[i as int] == self.signers@[i as int]@);
            let public = self.signers[i].public();
            match &delivered[i] {
                Some(signature) => {
                    let mut pair: Vec<u8> = Vec::new();
                    put_bytes(&mut pair, 1, public.as_bytes());
                    put_bytes(&mut pair, 2, signature.as_bytes());
                    put_bytes(&mut request, 2, pair.as_slice());
                },
                None => {},
            }
            proof {
                let all = self@.signatures();
                assert(all.take(i + 1).drop_last() =~= all.take(i as int));
                assert(all.take(i + 1).last() == all[i as int]);
                assert(request@ =~= bytes_field(1, self@.body_wire()) + signatures_wire(
                    all.take(i + 1),
                ));
            }
            i = i + 1;
        }
        assert(self@.signatures().take(self.signers.len() as int) =~= self@.signatures());
        let id = self.id();
        self.executed = true;
        Ok(Submission { id, request })
    }

    /// Executes the transaction: the one step from building to executed.
    /// What stands in the way is reported first and exactly: an earlier
    /// execution, then the operator missing among the signers. Otherwise
    /// every signer signs the body as it stands, and what comes back is to
    /// be sent to the node (`Submission::complete` interprets the reply),
    /// unless the backend fails to sign, which leaves the transaction as
    /// it is.
    pub fn execute(&mut self) -> (outcome: Result<Submission, ErrorKind>)
        ensures
            match old(self)@.execute_outcome() {
                Err(e) => outcome == Err::<Submission, ErrorKind>(e) && final(self)@ == old(
                    self,
                )@,
                Ok(sent) => match outcome {
                    Ok(s) => s.id == sent.0 && s.request@ == sent.1 && final(self)@ == old(
                        self,
                    )@.after_execute(),
                    Err(e) => e == ErrorKind::Backend && final(self)@ == old(self)@,
                },
            },
    {
        if self.executed {
            return Err(ErrorKind::InvalidState);
        }
        if !self.has_operator_signature() {
            return Err(ErrorKind::MissingSignature);
        }
        let body = self.body_bytes();
        let mut delivered: Vec<Option<Signature>> = Vec::new();
        let mut i: usize = 0;
        while i < self.signers.len()
            invariant
                0 <= i <= self.signers.len(),
                delivered.len() == i,
                body@ == self@.body_wire(),
                forall|j: int|
                    0 <= j < i ==> (#[trigger] delivered@[j] matches Some(s) ==> s@
                        == ed25519_signature(self@.signers[j], self@.body_wire())),
            decreases self.signers.len() - i,
        {
            assert(self@.signers[i as int] == self.signers@[i as int]@);
            let signature = self.signers[i].sign(body.as_slice());
            delivered.push(signature);
            i = i + 1;
        }
        self.seal(delivered)
    }
}

/// A transaction is executed at most once: after a successful execution,
/// another execution, any change and any signing are refused as invalid
/// state, and the transaction stays as it is.
pub proof fn lemma_single_use(
    v: TransactionView,
    next: Option<TransactionView>,
    secret: Seq<u8>,
    delivered: Seq<Option<Seq<u8>>>,
)
    requires
        v.execute_outcome() is Ok,
    ensures
        v.after_execute().executed,
        v.after_execute().execute_outcome() == Err::<(TransactionId, Seq<u8>), ErrorKind>(
            ErrorKind::InvalidState,
        ),
        v.after_execute().after_execute() == v.after_execute(),
        v.after_execute().seal(delivered) == (
            Err::<(TransactionId, Seq<u8>), ErrorKind>(ErrorKind::InvalidState),
            v.after_execute(),
        ),
        v.after_execute().change(next) == (
            Err::<(), ErrorKind>(ErrorKind::InvalidState),
            v.after_execute(),
        ),
        v.after_execute().sign(secret) == (
            Err::<(), ErrorKind>(ErrorKind::InvalidState),
            v.after_execute(),
        ),
{
}

/// Execution never happens by itself and is never undone: a change, a
/// signing or a refused execution leaves the state where it was, and
/// only a successful execution moves it from building to executed.
pub proof fn lemma_state_moves_forward(
    v: TransactionView,
    next: Option<TransactionView>,
    secret: Seq<u8>,
    delivered: Seq<Option<Seq<u8>>>,
)
    requires
        next matches Some(n) ==> n.executed == v.executed,
    ensures
        v.change(next).1.executed == v.executed,
        v.sign(secret).1.executed == v.executed,
        v.executed ==> v.after_execute() == v && v.seal(delivered).1 == v,
        v.after_execute().executed == (v.executed || v.operator_signed()),
        v.seal(delivered).1.executed ==> v.executed || v.operator_signed(),
{
}

/// What is sent is signed as it is sent: every signature of a request is
/// the signer's signature of the very body that the request carries, in
/// signing order, and the operator's is among them.
pub proof fn lemma_request_is_signed(v: TransactionView, i: int)
    requires
        v.execute_outcome() is Ok,
        0 <= i < v.signers.len(),
    ensures
        v.execute_outcome().unwrap().1 == bytes_field(1, v.body_wire()) + signatures_wire(
            v.signatures(),
        ),
        v.signatures().len() == v.signers.len(),
        v.signatures()[i] == (
            ed25519_public(v.signers[i]),
            ed25519_signature(v.signers[i], v.body_wire()),
        ),
        exists|k: int| 0 <= k < v.signatures().len() && (#[trigger] v.signatures()[k]).0
            == v.operator_key,
{
    let k = choose|k: int|
        0 <= k < v.signers.len() && ed25519_public(#[trigger] v.signers[k]) == v.operator_key;
    assert(v.signatures()[k].0 == v.operator_key);
}

} // verus!
