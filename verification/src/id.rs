//! Account addresses.

use vstd::prelude::*;
use vstd::string::StringSliceAdditionalSpecFns;
use crate::error::ErrorKind;
use crate::text::{
    all_digits, ascii_chars, decimal_text, decimal_value, free_of, is_ascii_bytes, join,
    lemma_decimal_round_trip, lemma_split_join, parse_decimal, pieces, push_decimal, split,
    split_bytes, string_from_ascii,
};

verus! {

/// The separator between the numbers of an address.
pub const COLON: u8 = 58;

/// The address of an account: three numbers.
#[derive(Clone, Copy, Debug, PartialEq, Eq, Structural)]
pub struct AccountId {
    pub shard: u64,
    pub realm: u64,
    pub account: u64,
}

impl AccountId {
    /// The textual form, `{realm}:{shard}:{account}`, each number in its
    /// shortest decimal spelling.
    pub open spec fn text(self) -> Seq<u8> {
        decimal_text(self.realm as nat) + seq![COLON] + decimal_text(self.shard as nat)
            + seq![COLON] + decimal_text(self.account as nat)
    }

    /// What `s` reads as: exactly three decimal numbers with colons
    /// between them, realm first.
    pub open spec fn read(s: Seq<u8>) -> Option<AccountId> {
        let parts = split(s, COLON);
        if parts.len() == 3 && decimal_value(parts[0]) is Some && decimal_value(parts[1]) is Some
            && decimal_value(parts[2]) is Some {
            Some(
                AccountId {
                    realm: decimal_value(parts[0]).unwrap(),
                    shard: decimal_value(parts[1]).unwrap(),
                    account: decimal_value(parts[2]).unwrap(),
                },
            )
        } else {
            None
        }
    }

    pub fn new(shard: u64, realm: u64, account: u64) -> (id: AccountId)
        ensures
            id == (AccountId { shard, realm, account }),
    {
        AccountId { shard, realm, account }
    }

    /// Reads the textual form from bytes.
    pub fn parse_bytes(text: &[u8]) -> (id: Option<AccountId>)
        ensures
            id == AccountId::read(text@),
    {
        let parts = split_bytes(text, COLON);
        assert(pieces(parts@).len() == parts.len());
        if parts.len() != 3 {
            return None;
        }
        assert(pieces(parts@)[0] == parts@[0]@);
        assert(pieces(parts@)[1] == parts@[1]@);
        assert(pieces(parts@)[2] == parts@[2]@);
        let realm = match parse_decimal(parts[0].as_slice()) {
            Some(n) => n,
            None => { return None; },
        };
        let shard = match parse_decimal(parts[1].as_slice()) {
            Some(n) => n,
            None => { return None; },
        };
        let account = match parse_decimal(parts[2].as_slice()) {
            Some(n) => n,
            None => { return None; },
        };
        Some(AccountId { shard, realm, account })
    }

    /// Reads the textual form; anything else is a parse error.
    pub fn from_str(text: &str) -> (id: Result<AccountId, ErrorKind>)
        ensures
            id == match AccountId::read(text.spec_bytes()) {
                Some(a) => Ok::<AccountId, ErrorKind>(a),
                None => Err(ErrorKind::Parse),
            },
    {
        match AccountId::parse_bytes(text.as_bytes()) {
            Some(a) => Ok(a),
            None => Err(ErrorKind::Parse),
        }
    }

    /// Appends the textual form to `out`.
    pub fn push_text(&self, out: &mut Vec<u8>)
        ensures
            final(out)@ == old(out)@ + self.text(),
    {
        push_decimal(out, self.realm);
        out.push(COLON);
        push_decimal(out, self.shard);
        out.push(COLON);
        push_decimal(out, self.account);
        assert(out@ =~= old(out)@ + self.text());
    }

    /// The textual form.
    pub fn to_string(&self) -> (text: String)
        ensures
            text@ == ascii_chars(self.text()),
    {
        let mut out: Vec<u8> = Vec::new();
        self.push_text(&mut out);
        proof {
            lemma_account_text_round_trip(*self);
            assert(out@ =~= self.text());
        }
        string_from_ascii(out)
    }
}

/// A decimal spelling is ASCII and holds no byte that is not a digit.
pub proof fn lemma_decimal_plain(n: nat, sep: u8)
    requires
        !(48 <= sep <= 57),
    ensures
        free_of(decimal_text(n), sep),
        is_ascii_bytes(decimal_text(n)),
{
    lemma_decimal_round_trip(n);
    assert(all_digits(decimal_text(n)));
    assert forall|j: int| 0 <= j < decimal_text(n).len() implies #[trigger] decimal_text(n)[j]
        != sep && decimal_text(n)[j] < 128 by {
        assert(crate::text::is_digit(decimal_text(n)[j]));
    }
}

/// Reading the text written for an address gives the address back, and
/// the text is plain ASCII.
pub proof fn lemma_account_text_round_trip(id: AccountId)
    ensures
        AccountId::read(id.text()) == Some(id),
        is_ascii_bytes(id.text()),
        free_of(id.text(), 64),
{
    let p0 = decimal_text(id.realm as nat);
    let p1 = decimal_text(id.shard as nat);
    let p2 = decimal_text(id.account as nat);
    let parts = seq![p0, p1, p2];
    lemma_decimal_plain(id.realm as nat, COLON);
    lemma_decimal_plain(id.shard as nat, COLON);
    lemma_decimal_plain(id.account as nat, COLON);
    lemma_decimal_plain(id.realm as nat, 64);
    lemma_decimal_plain(id.shard as nat, 64);
    lemma_decimal_plain(id.account as nat, 64);
    lemma_decimal_round_trip(id.realm as nat);
    lemma_decimal_round_trip(id.shard as nat);
    lemma_decimal_round_trip(id.account as nat);
    assert(join(parts, COLON) == id.text()) by {
        reveal_with_fuel(join, 4);
        assert(parts.drop_last() =~= seq![p0, p1]);
        assert(parts.drop_last().drop_last() =~= seq![p0]);
    }
    lemma_split_join(parts, COLON);
}

} // verus!
