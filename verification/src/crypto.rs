//! Digests, message authentication and signatures, consumed from the
//! `sha2`, `hmac` and `ed25519-dalek` crates. Each result is a function of
//! the arguments alone and is known here only by its name.

use vstd::prelude::*;

verus! {

#[verifier::external_type_specification]
#[verifier::external_body]
pub struct ExInvalidLength(hmac::digest::InvalidLength);

/// The SHA-256 digest of `data`.
pub uninterp spec fn sha256(data: Seq<u8>) -> Seq<u8>;

/// The HMAC-SHA-256 tag of `message` under `key`.
pub uninterp spec fn hmac_sha256(key: Seq<u8>, message: Seq<u8>) -> Seq<u8>;

/// The Ed25519 public key that belongs to the secret `seed`.
pub uninterp spec fn ed25519_public(seed: Seq<u8>) -> Seq<u8>;

/// The Ed25519 signature of `message` under the secret `seed`.
pub uninterp spec fn ed25519_signature(seed: Seq<u8>, message: Seq<u8>) -> Seq<u8>;

/// Whether the 32 bytes `key` encode an Ed25519 public key.
pub uninterp spec fn ed25519_key_valid(key: Seq<u8>) -> bool;

/// Whether strict Ed25519 verification accepts `signature` for `message`
/// under the public key `key`.
pub uninterp spec fn ed25519_accepts(key: Seq<u8>, message: Seq<u8>, signature: Seq<u8>) -> bool;

/// Feeds `data` to `sha2::Sha256` and finalizes. The contract names the
/// digest and claims its length, 32 bytes.
#[verifier::external_body]
pub(crate) fn sha256_digest(data: &[u8]) -> (d: Vec<u8>)
    ensures
        d@ == sha256(data@),
        d@.len() == 32,
{
    let mut hasher = <sha2::Sha256 as sha2::Digest>::new();
    sha2::Digest::update(&mut hasher, data);
    sha2::Digest::finalize(hasher).to_vec()
}

/// Keys `hmac::Hmac<sha2::Sha256>` with `secret`, feeds `message` and
/// finalizes. The contract names the tag and claims its length, 32 bytes,
/// and that keying succeeds: HMAC takes a key of any length.
#[verifier::external_body]
pub(crate) fn hmac_sha256_tag(secret: &[u8], message: &[u8]) -> (r: Result<
    Vec<u8>,
    hmac::digest::InvalidLength,
>)
    ensures
        r is Ok,
        r->Ok_0@ == hmac_sha256(secret@, message@),
        r->Ok_0@.len() == 32,
{
    let mut mac = <hmac::Hmac<sha2::Sha256> as hmac::Mac>::new_from_slice(secret)?;
    hmac::Mac::update(&mut mac, message);
    Ok(hmac::Mac::finalize(mac).into_bytes().to_vec())
}

/// Builds `ed25519_dalek::SigningKey::from_bytes(seed)` and takes its
/// verifying key's bytes. The contract names the public key.
#[verifier::external_body]
pub(crate) fn ed25519_public_key(seed: &[u8; 32]) -> (key: [u8; 32])
    ensures
        key@ == ed25519_public(seed@),
{
    ed25519_dalek::SigningKey::from_bytes(seed).verifying_key().to_bytes()
}

/// Signs `message` with `ed25519_dalek::SigningKey::from_bytes(seed)`
/// through `Signer::sign`, which is deterministic. The contract names the
/// signature.
#[verifier::external_body]
pub(crate) fn ed25519_sign(seed: &[u8; 32], message: &[u8]) -> (signature: [u8; 64])
    ensures
        signature@ == ed25519_signature(seed@, message@),
{
    let key = ed25519_dalek::SigningKey::from_bytes(seed);
    ed25519_dalek::Signer::sign(&key, message).to_bytes()
}

/// Asks `ed25519_dalek::VerifyingKey::from_bytes` whether `key` encodes
/// a public key. The contract names the answer.
#[verifier::external_body]
pub(crate) fn ed25519_key_is_valid(key: &[u8; 32]) -> (r: bool)
    ensures
        r == ed25519_key_valid(key@),
{
    ed25519_dalek::VerifyingKey::from_bytes(key).is_ok()
}

/// Checks `signature` with `ed25519_dalek::VerifyingKey::verify_strict`
/// under the public key `key`; a `key` that encodes no public key accepts
/// nothing. The contract names the answer.
#[verifier::external_body]
pub(crate) fn ed25519_verify_strict(key: &[u8; 32], message: &[u8], signature: &[u8; 64]) -> (r:
    bool)
    ensures
        r == (ed25519_key_valid(key@) && ed25519_accepts(key@, message@, signature@)),
{
    let signature = ed25519_dalek::Signature::from_bytes(signature);
    match ed25519_dalek::VerifyingKey::from_bytes(key) {
        Ok(k) => k.verify_strict(message, &signature).is_ok(),
        Err(_) => false,
    }
}

} // verus!
