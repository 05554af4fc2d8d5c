//! The cryptographic primitives, which OpenSSL computes.
//!
//! Nothing here is proved: each function states what the library takes
//! from OpenSSL, and the rest of the crate is proved against that.

use vstd::prelude::*;
use openssl::error::ErrorStack;

verus! {

#[verifier::external_type_specification]
#[verifier::external_body]
pub struct ExErrorStack(ErrorStack);

/// The largest length that OpenSSL's interfaces take: a C `int`.
pub const BACKEND_MAX_LEN: usize = 0x7fff_ffff;

/// The SHA-256 digest of `data`, as `openssl::sha::sha256` computes it.
pub uninterp spec fn sha256(data: Seq<u8>) -> Seq<u8>;

/// The key that `openssl::pkcs5::pbkdf2_hmac` derives with HMAC-SHA-512.
pub uninterp spec fn pbkdf2_sha512(pass: Seq<u8>, salt: Seq<u8>, rounds: nat, len: nat) -> Seq<u8>;

/// The raw Ed25519 public key of the private key with raw bytes `secret`,
/// as `PKeyRef::raw_public_key` returns it.
pub uninterp spec fn ed25519_public(secret: Seq<u8>) -> Seq<u8>;

/// The Ed25519 signature of `message` under the private key with raw bytes
/// `secret`, as `Signer::sign_oneshot_to_vec` returns it. The scheme draws
/// no randomness, so key and message fix the signature.
pub uninterp spec fn ed25519_signature(secret: Seq<u8>, message: Seq<u8>) -> Seq<u8>;

/// What a call of the backend that was asked for `len` bytes amounts to:
/// the bytes when it returned that many, nothing when it failed or
/// returned another number of them.
pub fn delivered(answer: Result<Vec<u8>, ErrorStack>, len: usize) -> (bytes: Option<Vec<u8>>)
    ensures
        match answer {
            Ok(given) => if given.len() == len {
                bytes matches Some(b) && b@ == given@
            } else {
                bytes is None
            },
            Err(_) => bytes is None,
        },
{
    match answer {
        Ok(given) => {
            if given.len() == len {
                Some(given)
            } else {
                let mut refused = given;
                crate::key::zero_fill(&mut refused);
                None
            }
        },
        Err(_) => None,
    }
}

/// `openssl::sha::sha256`: the digest of `data`, always 32 bytes.
#[verifier::external_body]
pub(crate) fn sha256_digest(data: &[u8]) -> (digest: Vec<u8>)
    ensures
        digest@ == sha256(data@),
        digest.len() == 32,
{
    openssl::sha::sha256(data).to_vec()
}

/// `openssl::rand::rand_bytes` on a fresh buffer of `len` bytes. Which
/// bytes come back is not stated. The call aborts on a buffer longer than
/// a C `int` can count, which the precondition rules out.
#[verifier::external_body]
pub(crate) fn random_bytes(len: usize) -> (bytes: Result<Vec<u8>, ErrorStack>)
    requires
        len <= BACKEND_MAX_LEN,
    ensures
        bytes matches Ok(buf) ==> buf.len() == len,
{
    let mut buf = vec![0u8; len];
    match openssl::rand::rand_bytes(&mut buf) {
        Ok(()) => Ok(buf),
        Err(e) => Err(e),
    }
}

/// `openssl::pkcs5::pbkdf2_hmac` with SHA-512, filling a fresh buffer of
/// `len` bytes. The call aborts when a length or the round count does not
/// fit a C `int`, which the precondition rules out.
#[verifier::external_body]
pub(crate) fn pbkdf2(pass: &[u8], salt: &[u8], rounds: usize, len: usize) -> (key: Result<
    Vec<u8>,
    ErrorStack,
>)
    requires
        pass.len() <= BACKEND_MAX_LEN,
        salt.len() <= BACKEND_MAX_LEN,
        rounds <= BACKEND_MAX_LEN,
        len <= BACKEND_MAX_LEN,
    ensures
        key matches Ok(buf) ==> buf@ == pbkdf2_sha512(pass@, salt@, rounds as nat, len as nat)
            && buf.len() == len,
{
    let mut buf = vec![0u8; len];
    let digest = openssl::hash::MessageDigest::sha512();
    match openssl::pkcs5::pbkdf2_hmac(pass, salt, rounds, digest, &mut buf) {
        Ok(()) => Ok(buf),
        Err(e) => Err(e),
    }
}

/// `PKey::private_key_from_raw_bytes` for Ed25519, then
/// `PKeyRef::raw_public_key`: the public key that belongs to `secret`.
#[verifier::external_body]
pub(crate) fn public_of(secret: &[u8]) -> (public: Result<Vec<u8>, ErrorStack>)
    ensures
        public matches Ok(key) ==> key@ == ed25519_public(secret@),
{
    let key = openssl::pkey::PKey::private_key_from_raw_bytes(secret, openssl::pkey::Id::ED25519)?;
    key.raw_public_key()
}

/// `Signer::new_without_digest` on the Ed25519 key with raw bytes `secret`,
/// then `Signer::sign_oneshot_to_vec` on `message`.
#[verifier::external_body]
pub(crate) fn sign_raw(secret: &[u8], message: &[u8]) -> (signature: Result<Vec<u8>, ErrorStack>)
    ensures
        signature matches Ok(sig) ==> sig@ == ed25519_signature(secret@, message@),
{
    let key = openssl::pkey::PKey::private_key_from_raw_bytes(secret, openssl::pkey::Id::ED25519)?;
    let mut signer = openssl::sign::Signer::new_without_digest(&key)?;
    signer.sign_oneshot_to_vec(message)
}

} // verus!
