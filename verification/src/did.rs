//! Decentralized identifiers bound to signing keys, and the checks on
//! signatures and digests made in their name.

use vstd::prelude::*;
use vstd::string::*;
use vstd::array::*;
use crate::crypto::{
    ed25519_accepts,
    ed25519_key_is_valid,
    ed25519_key_valid,
    ed25519_public,
    ed25519_public_key,
    ed25519_sign,
    ed25519_signature,
    ed25519_verify_strict,
    sha256,
    sha256_digest,
};
use crate::errors::MorpheusError;
use crate::hexcode::{hex_bytes, hex_decode, hex_encode, hex_text, is_hex_text};
use crate::platform::random_seed;

verus! {

/// What every identifier of this method starts with.
pub open spec fn did_prefix() -> Seq<char> {
    "did:bostrom:"@
}

/// The address inside the identifier `did`: what follows the prefix, if
/// the prefix is there and anything follows it.
pub open spec fn parsed_address(did: Seq<char>) -> Option<Seq<char>> {
    if did_prefix().is_prefix_of(did) && did.len() > did_prefix().len() {
        Some(did.subrange(did_prefix().len() as int, did.len() as int))
    } else {
        None
    }
}

/// Whether `text` begins with `prefix`.
pub fn begins_with(text: &str, prefix: &str) -> (r: bool)
    ensures
        r == prefix@.is_prefix_of(text@),
{
    let n: usize = prefix.unicode_len();
    if text.unicode_len() < n {
        return false;
    }
    let mut i: usize = 0;
    while i < n
        invariant
            i <= n,
            n == prefix@.len(),
            n <= text@.len(),
            forall|j: int| 0 <= j < i ==> text@[j] == prefix@[j],
        decreases n - i,
    {
        if text.get_char(i) != prefix.get_char(i) {
            assert(text@.subrange(0, n as int)[i as int] != prefix@[i as int]);
            return false;
        }
        i = i + 1;
    }
    assert(text@.subrange(0, n as int) =~= prefix@);
    true
}

/// An identifier and the address it names.
#[derive(Clone, Debug, PartialEq, Eq)]
pub struct BostromDid {
    /// The whole identifier.
    pub did: String,
    /// The address that follows the prefix.
    pub address: String,
}

impl BostromDid {
    /// The identifier is the prefix followed by the address.
    pub open spec fn wf(&self) -> bool {
        self.did@ == did_prefix() + self.address@
    }

    /// Parses an identifier. It must start with the prefix, and an
    /// address must follow.
    pub fn new(did: String) -> (r: Result<Self, MorpheusError>)
        ensures
            r is Ok <==> parsed_address(did@) is Some,
            r is Ok ==> r->Ok_0.did == did && Some(r->Ok_0.address@) == parsed_address(did@)
                && r->Ok_0.wf(),
            !did_prefix().is_prefix_of(did@) ==> (r matches Err(MorpheusError::DidError(m)) && m@
                == "Invalid DID format: must start with 'did:bostrom:'"@),
            did_prefix().is_prefix_of(did@) && did@.len() == did_prefix().len() ==> (r matches Err(
                MorpheusError::DidError(m),
            ) && m@ == "Address cannot be empty"@),
    {
        proof {
            reveal_strlit("did:bostrom:");
        }
        if !begins_with(did.as_str(), "did:bostrom:") {
            return Err(
                MorpheusError::DidError(
                    String::from_str("Invalid DID format: must start with 'did:bostrom:'"),
                ),
            );
        }
        let total: usize = did.as_str().unicode_len();
        if total == 12 {
            return Err(MorpheusError::DidError(String::from_str("Address cannot be empty")));
        }
        let address = String::from_str(did.as_str().substring_char(12, total));
        assert(did@ =~= did_prefix() + address@);
        Ok(BostromDid { did, address })
    }

    /// The identifier that names `address`.
    pub fn from_address(address: String) -> (d: Self)
        ensures
            d.address == address,
            d.did@ == did_prefix() + address@,
            d.wf(),
    {
        let did = String::from_str("did:bostrom:").concat(address.as_str());
        BostromDid { did, address }
    }
}

/// Parsing the identifier made from an address gives the address back,
/// unless the address is empty.
pub proof fn lemma_address_round_trip(address: Seq<char>)
    requires
        address.len() > 0,
    ensures
        parsed_address(did_prefix() + address) == Some(address),
{
    let did = did_prefix() + address;
    assert(did.subrange(0, did_prefix().len() as int) =~= did_prefix());
    assert(did.subrange(did_prefix().len() as int, did.len() as int) =~= address);
}

/// An identifier with the Ed25519 key pair that signs for it.
pub struct DidKeyPair {
    pub did: BostromDid,
    seed: [u8; 32],
    /// The public key, for verification.
    pub public_key: [u8; 32],
}

impl DidKeyPair {
    /// The secret seed of the pair.
    pub closed spec fn secret(&self) -> Seq<u8> {
        self.seed@
    }

    /// The public key of the pair.
    pub closed spec fn public(&self) -> Seq<u8> {
        self.public_key@
    }

    /// The identifier that the pair signs for.
    pub closed spec fn identity(&self) -> BostromDid {
        self.did
    }

    /// The public key is the one that belongs to the secret seed.
    pub open spec fn wf(&self) -> bool {
        self.public() == ed25519_public(self.secret())
    }

    /// The key pair of `address` that grows from `seed`.
    pub fn from_seed(address: String, seed: [u8; 32]) -> (k: Self)
        ensures
            k.identity().address == address,
            k.identity().wf(),
            k.secret() == seed@,
            k.wf(),
    {
        let public_key = ed25519_public_key(&seed);
        DidKeyPair { did: BostromDid::from_address(address), seed, public_key }
    }

    /// A new key pair for `address`, from a random seed.
    pub fn generate(address: String) -> (r: Result<Self, MorpheusError>)
        ensures
            r is Ok,
            r->Ok_0.identity().address == address,
            r->Ok_0.identity().wf(),
            r->Ok_0.wf(),
    {
        Ok(Self::from_seed(address, random_seed()))
    }

    /// Signs a message.
    pub fn sign(&self, message: &[u8]) -> (r: Result<[u8; 64], MorpheusError>)
        ensures
            r is Ok,
            r->Ok_0@ == ed25519_signature(self.secret(), message@),
    {
        Ok(ed25519_sign(&self.seed, message))
    }

    /// Signs the bytes of a JSON text and gives the signature in hexadecimal.
    pub fn sign_json(&self, json: &str) -> (r: Result<String, MorpheusError>)
        ensures
            r is Ok,
            r->Ok_0@ == hex_text(ed25519_signature(self.secret(), json.spec_bytes())),
    {
        let signature = ed25519_sign(&self.seed, json.as_bytes());
        Ok(hex_encode(signature.as_slice()))
    }

    /// The public key in hexadecimal.
    pub fn public_key_hex(&self) -> (s: String)
        ensures
            s@ == hex_text(self.public()),
    {
        hex_encode(self.public_key.as_slice())
    }
}

/// The bytes of a public key as an array, if there are exactly 32.
pub fn key_array(bytes: &Vec<u8>) -> (r: Option<[u8; 32]>)
    ensures
        r is Some <==> bytes@.len() == 32,
        r is Some ==> r->Some_0@ == bytes@,
{
    if bytes.len() != 32 {
        return None;
    }
    let mut a: [u8; 32] = [0u8; 32];
    let mut i: usize = 0;
    while i < 32
        invariant
            i <= 32,
            bytes@.len() == 32,
            forall|j: int| 0 <= j < i ==> a@[j] == bytes@[j],
        decreases 32 - i,
    {
        a.set(i, bytes[i]);
        i = i + 1;
    }
    assert(a@ =~= bytes@);
    Some(a)
}

/// The bytes of a signature as an array, if there are exactly 64.
pub fn signature_array(bytes: &Vec<u8>) -> (r: Option<[u8; 64]>)
    ensures
        r is Some <==> bytes@.len() == 64,
        r is Some ==> r->Some_0@ == bytes@,
{
    if bytes.len() != 64 {
        return None;
    }
    let mut a: [u8; 64] = [0u8; 64];
    let mut i: usize = 0;
    while i < 64
        invariant
            i <= 64,
            bytes@.len() == 64,
            forall|j: int| 0 <= j < i ==> a@[j] == bytes@[j],
        decreases 64 - i,
    {
        a.set(i, bytes[i]);
        i = i + 1;
    }
    assert(a@ =~= bytes@);
    Some(a)
}

/// What is wrong with the hexadecimal arguments of a verification, as the
/// detail of its error; `None` when the key and the signature can be
/// read. The checks are made in a fixed order, the key first.
pub open spec fn verification_error(public_key_hex: Seq<char>, signature_hex: Seq<char>) -> Option<
    Seq<char>,
> {
    if !is_hex_text(public_key_hex) {
        Some("Invalid public key hex"@)
    } else if hex_bytes(public_key_hex).len() != 32 {
        Some("Invalid public key length"@)
    } else if !ed25519_key_valid(hex_bytes(public_key_hex)) {
        Some("Invalid public key"@)
    } else if !is_hex_text(signature_hex) {
        Some("Invalid signature hex"@)
    } else if hex_bytes(signature_hex).len() != 64 {
        Some("Invalid signature length"@)
    } else {
        None
    }
}

/// Verifies a signature, given with the public key in hexadecimal. An
/// argument that cannot be read is an error; otherwise the answer is
/// whether strict verification accepts the signature.
pub fn verify_signature(public_key_hex: &str, message: &[u8], signature_hex: &str) -> (r: Result<
    bool,
    MorpheusError,
>)
    ensures
        r is Ok <==> verification_error(public_key_hex@, signature_hex@) is None,
        r is Ok ==> r->Ok_0 == ed25519_accepts(
            hex_bytes(public_key_hex@),
            message@,
            hex_bytes(signature_hex@),
        ),
        r is Err ==> (r->Err_0 matches MorpheusError::CryptoError(m) && Some(m@)
            == verification_error(public_key_hex@, signature_hex@)),
{
    let public_key_bytes = match hex_decode(public_key_hex) {
        Ok(bytes) => bytes,
        Err(_) => {
            return Err(MorpheusError::CryptoError(String::from_str("Invalid public key hex")));
        },
    };
    let key = match key_array(&public_key_bytes) {
        Some(key) => key,
        None => {
            return Err(
                MorpheusError::CryptoError(String::from_str("Invalid public key length")),
            );
        },
    };
    if !ed25519_key_is_valid(&key) {
        return Err(MorpheusError::CryptoError(String::from_str("Invalid public key")));
    }
    let signature_bytes = match hex_decode(signature_hex) {
        Ok(bytes) => bytes,
        Err(_) => {
            return Err(MorpheusError::CryptoError(String::from_str("Invalid signature hex")));
        },
    };
    let signature = match signature_array(&signature_bytes) {
        Some(signature) => signature,
        None => {
            return Err(
                MorpheusError::CryptoError(String::from_str("Invalid signature length")),
            );
        },
    };
    Ok(ed25519_verify_strict(&key, message, &signature))
}

/// The SHA-256 digest of `data` in hexadecimal: 64 digits.
pub fn compute_hash(data: &[u8]) -> (s: String)
    ensures
        s@ == hex_text(sha256(data@)),
        s@.len() == 64,
{
    let digest = sha256_digest(data);
    hex_encode(digest.as_slice())
}

/// The SHA-256 digest of the bytes of a JSON text, in hexadecimal.
pub fn compute_hash_json(json: &str) -> (r: Result<String, MorpheusError>)
    ensures
        r is Ok,
        r->Ok_0@ == hex_text(sha256(json.spec_bytes())),
        r->Ok_0@.len() == 64,
{
    Ok(compute_hash(json.as_bytes()))
}

} // verus!
