//! The validation outcome that a node attaches to every response.

use vstd::prelude::*;

verus! {

/// Outcome of the checks a node runs on a request before consensus.
///
/// A value is only ever made from the number found in a response header.
#[derive(Clone, Copy, Debug, PartialEq, Eq, Structural)]
pub enum PreCheckCode {
    /// The node accepted the request.
    Success,
    /// The transaction is malformed or badly signed.
    InvalidTransaction,
    /// An account that the request names does not exist.
    InvalidAccount,
    /// The fee offered does not cover the request.
    InsufficientFee,
    /// The payer cannot afford the request.
    InsufficientBalance,
    /// The node has seen this transaction before.
    Duplicate,
    /// The node is too busy to take the request.
    Busy,
    /// The node does not offer what was asked for.
    NotSupported,
    /// A number this client has no name for; the number is kept.
    Unknown(i32),
}

/// The outcome that the header number `raw` stands for.
pub open spec fn code_of(raw: int) -> PreCheckCode {
    if raw == 0 {
        PreCheckCode::Success
    } else if raw == 1 {
        PreCheckCode::InvalidTransaction
    } else if raw == 2 {
        PreCheckCode::InvalidAccount
    } else if raw == 3 {
        PreCheckCode::InsufficientFee
    } else if raw == 4 {
        PreCheckCode::InsufficientBalance
    } else if raw == 5 {
        PreCheckCode::Duplicate
    } else if raw == 6 {
        PreCheckCode::Busy
    } else if raw == 7 {
        PreCheckCode::NotSupported
    } else {
        PreCheckCode::Unknown(raw as i32)
    }
}

impl PreCheckCode {
    /// The header number of this outcome.
    pub open spec fn number(self) -> int {
        match self {
            PreCheckCode::Success => 0,
            PreCheckCode::InvalidTransaction => 1,
            PreCheckCode::InvalidAccount => 2,
            PreCheckCode::InsufficientFee => 3,
            PreCheckCode::InsufficientBalance => 4,
            PreCheckCode::Duplicate => 5,
            PreCheckCode::Busy => 6,
            PreCheckCode::NotSupported => 7,
            PreCheckCode::Unknown(raw) => raw as int,
        }
    }

    /// Whether a decoder can have produced this value: `Unknown` never
    /// carries a number that has a name.
    pub open spec fn canonical(self) -> bool {
        self matches PreCheckCode::Unknown(raw) ==> !(0 <= raw <= 7)
    }

    /// Names the number found in a response header.
    pub fn from_code(raw: i32) -> (code: PreCheckCode)
        ensures
            code == code_of(raw as int),
            code.canonical(),
            code.number() == raw,
            (code == PreCheckCode::Success) <==> raw == 0,
    {
        match raw {
            0 => PreCheckCode::Success,
            1 => PreCheckCode::InvalidTransaction,
            2 => PreCheckCode::InvalidAccount,
            3 => PreCheckCode::InsufficientFee,
            4 => PreCheckCode::InsufficientBalance,
            5 => PreCheckCode::Duplicate,
            6 => PreCheckCode::Busy,
            7 => PreCheckCode::NotSupported,
            other => PreCheckCode::Unknown(other),
        }
    }

    /// The number under which the network reports this outcome.
    pub fn code(&self) -> (raw: i32)
        ensures
            raw == self.number(),
    {
        match self {
            PreCheckCode::Success => 0,
            PreCheckCode::InvalidTransaction => 1,
            PreCheckCode::InvalidAccount => 2,
            PreCheckCode::InsufficientFee => 3,
            PreCheckCode::InsufficientBalance => 4,
            PreCheckCode::Duplicate => 5,
            PreCheckCode::Busy => 6,
            PreCheckCode::NotSupported => 7,
            PreCheckCode::Unknown(raw) => *raw,
        }
    }

    /// Whether the node accepted the request.
    pub fn is_ok(&self) -> (ok: bool)
        ensures
            ok <==> *self == PreCheckCode::Success,
    {
        match self {
            PreCheckCode::Success => true,
            _ => false,
        }
    }
}

/// Naming a number and asking for the number again gives it back, and a
/// canonical outcome is the name of its own number.
pub proof fn lemma_code_round_trip(raw: i32, code: PreCheckCode)
    ensures
        code_of(raw as int).number() == raw,
        code.canonical() ==> code_of(code.number()) == code,
{
}

} // verus!
