//! Security profiles, secrets and message authentication.

use vstd::prelude::*;
use vstd::string::*;
use crate::crypto::{hmac_sha256, hmac_sha256_tag};
use crate::platform::random_seed;

verus! {

/// A security primitive that a profile relies on.
#[derive(Clone, Copy, Debug)]
pub enum SecurityPrimitive {
    Aes256Gcm,
    QuantumLedgerCompatible,
    GoogolswarmOwnershipProof,
}

/// The primitives in force and what identity they ask for.
#[derive(Clone, Debug)]
pub struct SecurityProfile {
    pub primitives: Vec<SecurityPrimitive>,
    pub neuromorph_identity_required: bool,
    pub dna_based_mfa_placeholder: bool,
}

/// Why a security operation failed.
#[derive(Clone, Copy, Debug, PartialEq, Eq, Structural)]
pub enum SecurityError {
    InvalidProfile,
    HmacError,
}

impl SecurityError {
    /// The text of the error.
    pub open spec fn text(&self) -> Seq<char> {
        match self {
            SecurityError::InvalidProfile => "invalid profile"@,
            SecurityError::HmacError => "hmac error"@,
        }
    }

    /// Renders the error as text.
    pub fn message(&self) -> (s: String)
        ensures
            s@ == self.text(),
    {
        match self {
            SecurityError::InvalidProfile => String::from_str("invalid profile"),
            SecurityError::HmacError => String::from_str("hmac error"),
        }
    }
}

impl SecurityProfile {
    /// The default profile: all three primitives in their order, identity
    /// required, and no DNA-based factor.
    pub fn neuromorph_default() -> (p: Self)
        ensures
            p.primitives@.len() == 3,
            p.primitives@[0] is Aes256Gcm,
            p.primitives@[1] is QuantumLedgerCompatible,
            p.primitives@[2] is GoogolswarmOwnershipProof,
            p.neuromorph_identity_required,
            !p.dna_based_mfa_placeholder,
    {
        let mut primitives: Vec<SecurityPrimitive> = Vec::new();
        primitives.push(SecurityPrimitive::Aes256Gcm);
        primitives.push(SecurityPrimitive::QuantumLedgerCompatible);
        primitives.push(SecurityPrimitive::GoogolswarmOwnershipProof);
        SecurityProfile {
            primitives,
            neuromorph_identity_required: true,
            dna_based_mfa_placeholder: false,
        }
    }

    /// Validates the profile: it must name at least one primitive.
    pub fn validate(&self) -> (r: Result<(), SecurityError>)
        ensures
            self.primitives@.len() == 0 ==> r == Err::<(), SecurityError>(
                SecurityError::InvalidProfile,
            ),
            self.primitives@.len() > 0 ==> r is Ok,
    {
        if self.primitives.len() == 0 {
            return Err(SecurityError::InvalidProfile);
        }
        Ok(())
    }
}

/// A fresh random secret of 32 bytes.
pub fn generate_random_secret() -> (secret: [u8; 32])
{
    random_seed()
}

/// Signs `message` under `secret` with HMAC-SHA-256. A secret of any
/// length is accepted; the tag has 32 bytes.
pub fn hmac_sign(secret: &[u8], message: &[u8]) -> (r: Result<Vec<u8>, SecurityError>)
    ensures
        r is Ok,
        r->Ok_0@ == hmac_sha256(secret@, message@),
        r->Ok_0@.len() == 32,
{
    match hmac_sha256_tag(secret, message) {
        Ok(tag) => Ok(tag),
        Err(_) => Err(SecurityError::HmacError),
    }
}

} // verus!
