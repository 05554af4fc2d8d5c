//! The failures this library reports.

use vstd::prelude::*;
use crate::precheck::PreCheckCode;

verus! {

/// A recovery phrase that cannot be turned back into a key.
#[derive(Clone, Copy, Debug, PartialEq, Eq, Structural)]
pub enum RecoveryError {
    /// A word is not in the wordlist, the word count is wrong, or the
    /// checksum does not match.
    InvalidPhrase,
    /// The phrase is sound, but the passphrase is longer than the
    /// cryptographic backend takes.
    TooLong,
    /// Phrase and passphrase are sound, but the cryptographic backend
    /// failed to derive a key from them.
    Backend,
}

/// Why no key was made.
#[derive(Clone, Copy, Debug, PartialEq, Eq, Structural)]
pub enum KeyError {
    /// The bytes handed in are not as many as a key, or the entropy of a
    /// phrase, has.
    Length,
    /// Phrase or passphrase is longer than the cryptographic backend
    /// takes.
    TooLong,
    /// The entropy source or the cryptographic backend failed.
    Backend,
}

/// The transport could not deliver a request or its reply.
#[derive(Clone, Copy, Debug, PartialEq, Eq, Structural)]
pub struct TransportError {}

/// What went wrong with a request or with the text handed in.
#[derive(Clone, Copy, Debug, PartialEq, Eq, Structural)]
pub enum ErrorKind {
    /// Malformed text for a key, an id or a timestamp.
    Parse,
    /// The node rejected the request; the code is the node's.
    PreCheck(PreCheckCode),
    /// Execution was attempted without the operator's signature.
    MissingSignature,
    /// The transport failed; nothing is retried here.
    Transport,
    /// Misuse: a change after execution, or a handle that is no longer live.
    InvalidState,
    /// The cryptographic backend failed on input that is in order.
    Backend,
}

impl ErrorKind {
    /// The status number handed across the foreign boundary. Zero is kept
    /// for success, so every error maps to a positive number; a rejection
    /// keeps the node's code in the low 32 bits.
    pub open spec fn status_of(self) -> int {
        match self {
            ErrorKind::Parse => 1,
            ErrorKind::MissingSignature => 2,
            ErrorKind::Transport => 3,
            ErrorKind::InvalidState => 4,
            ErrorKind::Backend => 5,
            ErrorKind::PreCheck(code) => 0x1_0000_0000 + (code.number() + 0x8000_0000),
        }
    }

    /// The status number of this error.
    pub fn status(&self) -> (status: u64)
        ensures
            status == self.status_of(),
            status != 0,
    {
        match self {
            ErrorKind::Parse => 1,
            ErrorKind::MissingSignature => 2,
            ErrorKind::Transport => 3,
            ErrorKind::InvalidState => 4,
            ErrorKind::Backend => 5,
            ErrorKind::PreCheck(code) => {
                let raw: i64 = code.code() as i64;
                let shifted: i64 = raw + 0x8000_0000i64;
                0x1_0000_0000u64 + (shifted as u64)
            },
        }
    }
}

/// Two errors with the same status are the same error, as long as their
/// codes came out of a decoder.
pub proof fn lemma_status_injective(a: ErrorKind, b: ErrorKind)
    requires
        a.status_of() == b.status_of(),
        a matches ErrorKind::PreCheck(c) ==> c.canonical(),
        b matches ErrorKind::PreCheck(c) ==> c.canonical(),
    ensures
        a == b,
{
    if let ErrorKind::PreCheck(ca) = a {
        if let ErrorKind::PreCheck(cb) = b {
            crate::precheck::lemma_code_round_trip(0, ca);
            crate::precheck::lemma_code_round_trip(0, cb);
        }
    }
}

} // verus!
