//! Client-side core of a ledger SDK: identities, transactions, queries and
//! the handle table through which foreign callers drive them.
//!
//! Identities: `mnemonic` spells entropy as a recovery phrase, `key` derives
//! and uses signing keys, `backend` states what is taken from OpenSSL, and
//! `keygen` is the key generator's conversation with its user.
//!
//! Protocol: `transaction` and `query` hold the two lifecycles, `payload`
//! the fields of each kind of transaction, `precheck` and `error` what a
//! node or this library may answer, `proto` and `wire` the wire form of
//! every message, and `text` the textual forms.
//!
//! Boundary: `bridge` owns the objects that a foreign caller refers to by
//! handle.

pub mod error;
pub mod precheck;
pub mod text;
pub mod wire;
pub mod backend;
pub mod mnemonic;
pub mod key;
pub mod keygen;
pub mod id;
pub mod timestamp;
pub mod transaction_id;
pub mod proto;
pub mod client;
pub mod payload;
pub mod transaction;
pub mod transaction_record;
pub mod query_get_account_records;
pub mod query;
pub mod bridge;
