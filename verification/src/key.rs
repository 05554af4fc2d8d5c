//! Signing keys and what is made with them.

use vstd::prelude::*;
use vstd::string::StringSliceAdditionalSpecFns;
use openssl::error::ErrorStack;
use crate::backend::{
    ed25519_public, ed25519_signature, pbkdf2, pbkdf2_sha512, public_of, random_bytes, sign_raw,
    BACKEND_MAX_LEN,
};
use crate::error::{ErrorKind, KeyError, RecoveryError};
use crate::mnemonic::{
    decode, encode, lemma_phrase_is_ascii, lemma_phrase_len, lemma_phrase_round_trip,
    lemma_phrase_unique, phrase_entropy, phrase_text, ENTROPY_LEN,
};
use crate::text::{
    ascii_chars, copy_range, hex_bytes, hex_decode, hex_encode, hex_text, is_lower_hex,
    lemma_ascii_text, lemma_hex_round_trip, lemma_lower_hex_canonical, string_from_ascii,
};

verus! {

/// Bytes in a secret key and in a public key.
pub const KEY_LEN: usize = 32;

/// Bytes in a signature.
pub const SIGNATURE_LEN: usize = 64;

/// Rounds of the key derivation.
pub const DERIVATION_ROUNDS: usize = 2048;

/// Whether `text` is the textual form of a key: 64 lower-case hexadecimal
/// digits.
pub open spec fn is_key_text(text: Seq<u8>) -> bool {
    text.len() == 2 * KEY_LEN && is_lower_hex(text)
}

/// The salt of the key derivation: the bytes of `mnemonic`, then the
/// passphrase.
pub open spec fn salt(passphrase: Seq<u8>) -> Seq<u8> {
    seq![109u8, 110u8, 101u8, 109u8, 111u8, 110u8, 105u8, 99u8] + passphrase
}

/// Whether the backend can take `passphrase` as part of a salt.
pub open spec fn passphrase_fits(passphrase: Seq<u8>) -> bool {
    passphrase.len() + 8 <= BACKEND_MAX_LEN
}

/// Whether the backend can take `phrase` and `passphrase` for a
/// derivation.
pub open spec fn derivable(phrase: Seq<u8>, passphrase: Seq<u8>) -> bool {
    passphrase_fits(passphrase) && phrase.len() <= BACKEND_MAX_LEN
}

/// The secret key bytes derived from a phrase and a passphrase.
pub open spec fn derived_secret(phrase: Seq<u8>, passphrase: Seq<u8>) -> Seq<u8> {
    pbkdf2_sha512(phrase, salt(passphrase), DERIVATION_ROUNDS as nat, KEY_LEN as nat)
}

/// The secret key bytes that generation derives from fresh entropy.
pub open spec fn generated_secret(entropy: Seq<u8>, passphrase: Seq<u8>) -> Seq<u8> {
    derived_secret(phrase_text(entropy), passphrase)
}

/// What recovery makes of a phrase: the derived bytes, or the refusal of a
/// text that is no phrase.
pub open spec fn recovered_secret(mnemonic: Seq<u8>, passphrase: Seq<u8>) -> Result<
    Seq<u8>,
    RecoveryError,
> {
    if phrase_entropy(mnemonic) is Some {
        Ok(derived_secret(mnemonic, passphrase))
    } else {
        Err(RecoveryError::InvalidPhrase)
    }
}

/// Recovering from the phrase that generation wrote, with the same
/// passphrase, derives the very bytes that generation derived.
pub proof fn lemma_recovery_round_trip(entropy: Seq<u8>, passphrase: Seq<u8>)
    requires
        entropy.len() == ENTROPY_LEN,
    ensures
        recovered_secret(phrase_text(entropy), passphrase) == Ok::<Seq<u8>, RecoveryError>(
            generated_secret(entropy, passphrase),
        ),
{
    lemma_phrase_round_trip(entropy);
}

/// Two different passphrases give the key derivation two different salts:
/// the passphrase is an input of the derivation itself.
pub proof fn lemma_passphrase_reaches_derivation(p1: Seq<u8>, p2: Seq<u8>)
    requires
        p1 != p2,
    ensures
        salt(p1) != salt(p2),
{
    if salt(p1) == salt(p2) {
        assert(salt(p1).skip(8) =~= p1);
        assert(salt(p2).skip(8) =~= p2);
    }
}

/// A verification key: 32 raw bytes.
#[derive(Debug, PartialEq, Eq)]
pub struct PublicKey {
    bytes: Vec<u8>,
}

/// A signature: 64 raw bytes.
#[derive(Debug, PartialEq, Eq)]
pub struct Signature {
    bytes: Vec<u8>,
}

/// Secret bytes, which are overwritten with zeros before their memory is
/// given back.
#[derive(PartialEq, Eq)]
struct SecretBytes {
    bytes: Vec<u8>,
}

/// `<[u8]>::fill` with zero over the whole vector, for bytes that are
/// secret and about to be given up. The call neither unwinds nor touches
/// anything but the bytes, which is all that is claimed of it.
#[verifier::external_body]
pub(crate) fn zero_fill(bytes: &mut Vec<u8>)
    opens_invariants none
    no_unwind
{
    bytes.fill(0);
}

impl Drop for SecretBytes {
    fn drop(&mut self)
        opens_invariants none
        no_unwind
    {
        zero_fill(&mut self.bytes);
    }
}

/// A private signing key: 32 raw bytes, held together with the public key
/// that belongs to them. The secret bytes are zeroed when the key is
/// dropped.
#[derive(PartialEq, Eq)]
pub struct SecretKey {
    secret: SecretBytes,
    public: Vec<u8>,
}

impl View for PublicKey {
    type V = Seq<u8>;

    closed spec fn view(&self) -> Seq<u8> {
        self.bytes@
    }
}

impl View for Signature {
    type V = Seq<u8>;

    closed spec fn view(&self) -> Seq<u8> {
        self.bytes@
    }
}

impl View for SecretKey {
    type V = Seq<u8>;

    closed spec fn view(&self) -> Seq<u8> {
        self.secret.bytes@
    }
}

fn is_key_text_bytes(text: &[u8]) -> (ok: bool)
    ensures
        ok == is_key_text(text@),
{
    if text.len() != 2 * KEY_LEN {
        return false;
    }
    let mut i: usize = 0;
    while i < text.len()
        invariant
            text.len() == 2 * KEY_LEN,
            0 <= i <= text.len(),
            forall|j: int|
                0 <= j < i ==> (crate::text::is_digit(#[trigger] text@[j]) || 97 <= text@[j]
                    <= 102),
        decreases text.len() - i,
    {
        let b: u8 = text[i];
        if !((48 <= b && b <= 57) || (97 <= b && b <= 102)) {
            return false;
        }
        i = i + 1;
    }
    true
}

impl PublicKey {
    #[verifier::type_invariant]
    spec fn well_formed(self) -> bool {
        self.bytes.len() == KEY_LEN
    }

    /// A key from its raw bytes; `None` unless there are 32 of them.
    pub fn from_bytes(bytes: &[u8]) -> (key: Option<PublicKey>)
        ensures
            key matches Some(k) ==> k@ == bytes@,
            key is Some <==> bytes.len() == KEY_LEN,
    {
        if bytes.len() != KEY_LEN {
            return None;
        }
        let copy = copy_range(bytes, 0, bytes.len());
        assert(copy@ =~= bytes@);
        Some(PublicKey { bytes: copy })
    }

    /// The raw bytes.
    pub fn as_bytes(&self) -> (bytes: &[u8])
        ensures
            bytes@ == self@,
            bytes.len() == KEY_LEN,
    {
        proof {
            use_type_invariant(self);
        }
        self.bytes.as_slice()
    }

    /// Whether this key and `other` are the same key.
    pub fn same_as(&self, other: &PublicKey) -> (same: bool)
        ensures
            same == (self@ == other@),
    {
        proof {
            use_type_invariant(self);
            use_type_invariant(other);
        }
        let mut i: usize = 0;
        while i < KEY_LEN
            invariant
                self.bytes.len() == KEY_LEN,
                other.bytes.len() == KEY_LEN,
                0 <= i <= KEY_LEN,
                forall|j: int| 0 <= j < i ==> self.bytes@[j] == other.bytes@[j],
            decreases KEY_LEN - i,
        {
            if self.bytes[i] != other.bytes[i] {
                return false;
            }
            i = i + 1;
        }
        assert(self.bytes@ =~= other.bytes@);
        true
    }

    /// A copy of this key.
    pub fn duplicate(&self) -> (copy: PublicKey)
        ensures
            copy@ == self@,
    {
        proof {
            use_type_invariant(self);
        }
        let bytes = copy_range(self.bytes.as_slice(), 0, self.bytes.len());
        assert(bytes@ =~= self.bytes@);
        PublicKey { bytes }
    }

    /// The textual form: the bytes in lower-case hexadecimal.
    pub fn to_string(&self) -> (text: String)
        ensures
            text@ == ascii_chars(hex_text(self@)),
    {
        hex_encode(self.bytes.as_slice())
    }

    /// Reads the textual form, and nothing but that form.
    pub fn from_str(text: &str) -> (key: Result<PublicKey, ErrorKind>)
        ensures
            key matches Ok(k) ==> k@ == hex_bytes(text.spec_bytes()),
            key is Ok <==> is_key_text(text.spec_bytes()),
            key is Err ==> key == Err::<PublicKey, ErrorKind>(ErrorKind::Parse),
    {
        let raw = text.as_bytes();
        if !is_key_text_bytes(raw) {
            return Err(ErrorKind::Parse);
        }
        proof {
            lemma_lower_hex_canonical(raw@);
        }
        match hex_decode(raw) {
            Ok(data) => Ok(PublicKey { bytes: data }),
            Err(_) => Err(ErrorKind::Parse),
        }
    }
}

impl Signature {
    #[verifier::type_invariant]
    spec fn well_formed(self) -> bool {
        self.bytes.len() == SIGNATURE_LEN
    }

    /// What a signing call of the backend amounts to: a signature when the
    /// backend returned 64 bytes, nothing otherwise.
    pub fn from_backend(raw: Result<Vec<u8>, ErrorStack>) -> (signature: Option<Signature>)
        ensures
            match raw {
                Ok(bytes) => if bytes.len() == SIGNATURE_LEN {
                    signature matches Some(s) && s@ == bytes@
                } else {
                    signature is None
                },
                Err(_) => signature is None,
            },
    {
        match raw {
            Ok(bytes) => {
                if bytes.len() == SIGNATURE_LEN {
                    Some(Signature { bytes })
                } else {
                    None
                }
            },
            Err(_) => None,
        }
    }

    /// The raw bytes.
    pub fn as_bytes(&self) -> (bytes: &[u8])
        ensures
            bytes@ == self@,
            bytes.len() == SIGNATURE_LEN,
    {
        proof {
            use_type_invariant(self);
        }
        self.bytes.as_slice()
    }

    /// A copy of this signature.
    pub fn duplicate(&self) -> (copy: Signature)
        ensures
            copy@ == self@,
    {
        proof {
            use_type_invariant(self);
        }
        let bytes = copy_range(self.bytes.as_slice(), 0, self.bytes.len());
        assert(bytes@ =~= self.bytes@);
        Signature { bytes }
    }

    /// The textual form: the bytes in lower-case hexadecimal.
    pub fn to_string(&self) -> (text: String)
        ensures
            text@ == ascii_chars(hex_text(self@)),
    {
        hex_encode(self.bytes.as_slice())
    }
}

impl SecretKey {
    #[verifier::type_invariant]
    spec fn well_formed(self) -> bool {
        &&& self.secret.bytes.len() == KEY_LEN
        &&& self.public.len() == KEY_LEN
        &&& self.public@ == ed25519_public(self.secret.bytes@)
    }

    /// The bytes of the public key that belongs to this key.
    pub closed spec fn public_bytes(&self) -> Seq<u8> {
        self.public@
    }

    /// A key out of its raw bytes and of what the backend returned when
    /// asked for their public key: a key when there are 32 secret bytes and
    /// the backend returned 32 public ones, nothing otherwise.
    pub fn from_parts(secret: Vec<u8>, public: Result<Vec<u8>, ErrorStack>) -> (key: Option<
        SecretKey,
    >)
        requires
            public matches Ok(p) ==> p@ == ed25519_public(secret@),
        ensures
            match public {
                Ok(p) => if secret.len() == KEY_LEN && p.len() == KEY_LEN {
                    key matches Some(k) && k@ == secret@ && k.public_bytes() == p@
                } else {
                    key is None
                },
                Err(_) => key is None,
            },
    {
        let mut secret = secret;
        match public {
            Ok(p) => {
                if secret.len() == KEY_LEN && p.len() == KEY_LEN {
                    Some(SecretKey { secret: SecretBytes { bytes: secret }, public: p })
                } else {
                    zero_fill(&mut secret);
                    None
                }
            },
            Err(_) => {
                zero_fill(&mut secret);
                None
            },
        }
    }

    /// A key that takes over its raw bytes; as `from_bytes` otherwise.
    fn from_vec(secret: Vec<u8>) -> (key: Option<SecretKey>)
        ensures
            secret.len() != KEY_LEN ==> key is None,
            key matches Some(k) ==> k@ == secret@ && k.public_bytes() == ed25519_public(secret@),
    {
        let public = public_of(secret.as_slice());
        SecretKey::from_parts(secret, public)
    }

    /// A key from its raw bytes. Any number of bytes but 32 is refused for
    /// its length, and nothing else is; 32 bytes give the key, unless the
    /// backend fails to give their public key.
    pub fn from_bytes(bytes: &[u8]) -> (key: Result<SecretKey, KeyError>)
        ensures
            key == Err::<SecretKey, KeyError>(KeyError::Length) <==> bytes.len() != KEY_LEN,
            key is Err && bytes.len() == KEY_LEN ==> key == Err::<SecretKey, KeyError>(
                KeyError::Backend,
            ),
            key matches Ok(k) ==> k@ == bytes@ && k.public_bytes() == ed25519_public(bytes@),
    {
        if bytes.len() != KEY_LEN {
            return Err(KeyError::Length);
        }
        let secret = copy_range(bytes, 0, bytes.len());
        assert(secret@ =~= bytes@);
        match SecretKey::from_vec(secret) {
            Some(key) => Ok(key),
            None => Err(KeyError::Backend),
        }
    }

    /// The raw bytes.
    pub fn as_bytes(&self) -> (bytes: &[u8])
        ensures
            bytes@ == self@,
            bytes.len() == KEY_LEN,
    {
        proof {
            use_type_invariant(self);
        }
        self.secret.bytes.as_slice()
    }

    /// A copy of this key.
    pub fn duplicate(&self) -> (copy: SecretKey)
        ensures
            copy@ == self@,
            copy.public_bytes() == self.public_bytes(),
    {
        proof {
            use_type_invariant(self);
        }
        let bytes = copy_range(self.secret.bytes.as_slice(), 0, self.secret.bytes.len());
        let public = copy_range(self.public.as_slice(), 0, self.public.len());
        assert(bytes@ =~= self.secret.bytes@);
        assert(public@ =~= self.public@);
        SecretKey { secret: SecretBytes { bytes }, public }
    }

    /// The public key of this key. It depends on the key alone: every call
    /// returns the same bytes, those that Ed25519 assigns to the secret.
    pub fn public(&self) -> (key: PublicKey)
        ensures
            key@ == self.public_bytes(),
            key@ == ed25519_public(self@),
    {
        proof {
            use_type_invariant(self);
        }
        let bytes = copy_range(self.public.as_slice(), 0, self.public.len());
        assert(bytes@ =~= self.public@);
        PublicKey { bytes }
    }

    /// Signs `message`. `None` only when the backend fails; a signature
    /// that is returned is the one Ed25519 fixes for key and message.
    pub fn sign(&self, message: &[u8]) -> (signature: Option<Signature>)
        ensures
            signature matches Some(s) ==> s@ == ed25519_signature(self@, message@),
    {
        Signature::from_backend(sign_raw(self.secret.bytes.as_slice(), message))
    }

    /// The textual form: the secret bytes in lower-case hexadecimal.
    pub fn to_string(&self) -> (text: String)
        ensures
            text@ == ascii_chars(hex_text(self@)),
    {
        hex_encode(self.secret.bytes.as_slice())
    }

    /// Reads the textual form, and nothing but that form: any other text is
    /// a parse error, and only such text is. Text in that form gives the
    /// key, unless the backend fails to give the public key.
    pub fn from_str(text: &str) -> (key: Result<SecretKey, ErrorKind>)
        ensures
            key == Err::<SecretKey, ErrorKind>(ErrorKind::Parse) <==> !is_key_text(
                text.spec_bytes(),
            ),
            key is Err && is_key_text(text.spec_bytes()) ==> key == Err::<SecretKey, ErrorKind>(
                ErrorKind::Backend,
            ),
            key matches Ok(k) ==> k@ == hex_bytes(text.spec_bytes()),
    {
        let raw = text.as_bytes();
        if !is_key_text_bytes(raw) {
            return Err(ErrorKind::Parse);
        }
        proof {
            lemma_lower_hex_canonical(raw@);
        }
        match hex_decode(raw) {
            Ok(data) => match SecretKey::from_vec(data) {
                Some(key) => Ok(key),
                None => Err(ErrorKind::Backend),
            },
            Err(_) => Err(ErrorKind::Backend),
        }
    }

    /// Derives the key for a phrase and a passphrase. A phrase or a
    /// passphrase longer than the backend takes is refused as too long,
    /// and nothing else is; otherwise the derived key is returned, unless
    /// the backend fails.
    pub fn derive(phrase: &[u8], passphrase: &[u8]) -> (key: Result<SecretKey, KeyError>)
        ensures
            key == Err::<SecretKey, KeyError>(KeyError::TooLong) <==> !derivable(
                phrase@,
                passphrase@,
            ),
            key is Err && derivable(phrase@, passphrase@) ==> key == Err::<SecretKey, KeyError>(
                KeyError::Backend,
            ),
            key matches Ok(k) ==> k@ == derived_secret(phrase@, passphrase@),
    {
        if passphrase.len() > BACKEND_MAX_LEN - 8 || phrase.len() > BACKEND_MAX_LEN {
            return Err(KeyError::TooLong);
        }
        let mut salt_bytes: Vec<u8> = Vec::new();
        salt_bytes.push(109);
        salt_bytes.push(110);
        salt_bytes.push(101);
        salt_bytes.push(109);
        salt_bytes.push(111);
        salt_bytes.push(110);
        salt_bytes.push(105);
        salt_bytes.push(99);
        let mut i: usize = 0;
        while i < passphrase.len()
            invariant
                0 <= i <= passphrase.len(),
                salt_bytes@ == salt(passphrase@.take(i as int)),
            decreases passphrase.len() - i,
        {
            salt_bytes.push(passphrase[i]);
            assert(salt_bytes@ =~= salt(passphrase@.take(i + 1)));
            i = i + 1;
        }
        assert(passphrase@.take(passphrase.len() as int) =~= passphrase@);
        let derived = pbkdf2(phrase, salt_bytes.as_slice(), DERIVATION_ROUNDS, KEY_LEN);
        zero_fill(&mut salt_bytes);
        match crate::backend::delivered(derived, KEY_LEN) {
            Some(secret) => match SecretKey::from_vec(secret) {
                Some(key) => Ok(key),
                None => Err(KeyError::Backend),
            },
            None => Err(KeyError::Backend),
        }
    }

    /// Makes the key and the phrase for given entropy. Entropy of any
    /// length but 32 bytes is refused for its length, and with 32 bytes a
    /// passphrase longer than the backend takes is refused as too long;
    /// nothing else is refused. Otherwise the pair is returned, unless the
    /// backend fails.
    pub fn from_entropy(entropy: &[u8], passphrase: &str) -> (made: Result<
        (SecretKey, String),
        KeyError,
    >)
        ensures
            made == Err::<(SecretKey, String), KeyError>(KeyError::Length) <==> entropy.len()
                != ENTROPY_LEN,
            made == Err::<(SecretKey, String), KeyError>(KeyError::TooLong) <==> entropy.len()
                == ENTROPY_LEN && !passphrase_fits(passphrase.spec_bytes()),
            made is Err && entropy.len() == ENTROPY_LEN && passphrase_fits(
                passphrase.spec_bytes(),
            ) ==> made == Err::<(SecretKey, String), KeyError>(KeyError::Backend),
            made matches Ok((key, mnemonic)) ==> {
                &&& key@ == generated_secret(entropy@, passphrase.spec_bytes())
                &&& mnemonic@ == ascii_chars(phrase_text(entropy@))
                &&& recovered_secret(phrase_text(entropy@), passphrase.spec_bytes()) == Ok::<
                    Seq<u8>,
                    RecoveryError,
                >(key@)
            },
    {
        match encode(entropy) {
            Some(phrase) => {
                proof {
                    lemma_phrase_round_trip(entropy@);
                    lemma_phrase_is_ascii(entropy@);
                    lemma_phrase_len(entropy@);
                }
                match SecretKey::derive(phrase.as_slice(), passphrase.as_bytes()) {
                    Ok(key) => Ok((key, string_from_ascii(phrase))),
                    Err(e) => Err(e),
                }
            },
            None => Err(KeyError::Length),
        }
    }

    /// Generates a key and the phrase that recovers it. A passphrase longer
    /// than the backend takes is refused as too long, and nothing else is.
    /// Otherwise the pair is what `from_entropy` makes of 32 bytes from
    /// the entropy source, unless that source or the backend fails.
    pub fn generate(passphrase: &str) -> (made: Result<(SecretKey, String), KeyError>)
        ensures
            made == Err::<(SecretKey, String), KeyError>(KeyError::TooLong) <==> !passphrase_fits(
                passphrase.spec_bytes(),
            ),
            made is Err && passphrase_fits(passphrase.spec_bytes()) ==> made == Err::<
                (SecretKey, String),
                KeyError,
            >(KeyError::Backend),
            made matches Ok((key, mnemonic)) ==> exists|entropy: Seq<u8>|
                {
                    &&& entropy.len() == ENTROPY_LEN
                    &&& #[trigger] generated_secret(entropy, passphrase.spec_bytes()) == key@
                    &&& mnemonic@ == ascii_chars(phrase_text(entropy))
                    &&& recovered_secret(phrase_text(entropy), passphrase.spec_bytes()) == Ok::<
                        Seq<u8>,
                        RecoveryError,
                    >(key@)
                },
    {
        if passphrase.as_bytes().len() > BACKEND_MAX_LEN - 8 {
            return Err(KeyError::TooLong);
        }
        match crate::backend::delivered(random_bytes(ENTROPY_LEN), ENTROPY_LEN) {
            Some(mut entropy) => {
                let made = SecretKey::from_entropy(entropy.as_slice(), passphrase);
                zero_fill(&mut entropy);
                made
            },
            None => Err(KeyError::Backend),
        }
    }

    /// Recovers the key from its phrase. A text that is no phrase is
    /// refused as an invalid phrase, and only such a text is; with a
    /// phrase, a passphrase longer than the backend takes is refused as
    /// too long, and only such a passphrase is. Otherwise the derived key
    /// is returned, unless the backend fails.
    pub fn from_mnemonic(mnemonic: &str, passphrase: &str) -> (key: Result<
        SecretKey,
        RecoveryError,
    >)
        ensures
            key matches Ok(k) ==> recovered_secret(
                mnemonic.spec_bytes(),
                passphrase.spec_bytes(),
            ) == Ok::<Seq<u8>, RecoveryError>(k@),
            key == Err::<SecretKey, RecoveryError>(RecoveryError::InvalidPhrase)
                <==> phrase_entropy(mnemonic.spec_bytes()) is None,
            key == Err::<SecretKey, RecoveryError>(RecoveryError::TooLong) <==> phrase_entropy(
                mnemonic.spec_bytes(),
            ) is Some && !passphrase_fits(passphrase.spec_bytes()),
            key is Err && phrase_entropy(mnemonic.spec_bytes()) is Some && passphrase_fits(
                passphrase.spec_bytes(),
            ) ==> key == Err::<SecretKey, RecoveryError>(RecoveryError::Backend),
    {
        let text = mnemonic.as_bytes();
        match decode(text) {
            Some(mut entropy) => {
                proof {
                    lemma_phrase_unique(text@);
                    lemma_phrase_len(entropy@);
                }
                zero_fill(&mut entropy);
                match SecretKey::derive(text, passphrase.as_bytes()) {
                    Ok(key) => Ok(key),
                    Err(KeyError::TooLong) => Err(RecoveryError::TooLong),
                    Err(_) => Err(RecoveryError::Backend),
                }
            },
            None => Err(RecoveryError::InvalidPhrase),
        }
    }
}

/// Writing a key as text and reading the text gives the key back: the text
/// is in the form that reading accepts, and its bytes are the key's.
pub proof fn lemma_key_text_round_trip(key: Seq<u8>)
    requires
        key.len() == KEY_LEN,
    ensures
        is_key_text(hex_text(key)),
        hex_bytes(hex_text(key)) == key,
        vstd::utf8::encode_utf8(ascii_chars(hex_text(key))) == hex_text(key),
{
    lemma_hex_round_trip(key);
    assert(crate::text::is_ascii_bytes(hex_text(key))) by {
        assert forall|i: int| 0 <= i < hex_text(key).len() implies #[trigger] hex_text(key)[i]
            < 128 by {
            assert(crate::text::is_digit(hex_text(key)[i]) || 97 <= hex_text(key)[i] <= 102);
        }
    }
    lemma_ascii_text(hex_text(key));
}

} // verus!
