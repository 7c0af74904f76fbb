//! The errors of the evolution client.

use vstd::prelude::*;
use vstd::string::*;

verus! {

/// Why an operation of the client failed. Each variant carries its detail.
#[derive(Debug)]
pub enum MorpheusError {
    EvidenceInvalid(String),
    CorridorViolation(String),
    PolicyError(String),
    MonotonicityViolation(String),
    GuardRejection(String),
    AuditError(String),
    DidError(String),
    SerializationError(String),
    CryptoError(String),
    Unknown(String),
}

impl MorpheusError {
    /// The words that introduce the detail of each kind of error.
    pub open spec fn heading(&self) -> Seq<char> {
        match self {
            MorpheusError::EvidenceInvalid(_) => "Evidence validation failed: "@,
            MorpheusError::CorridorViolation(_) => "Corridor constraint violated: "@,
            MorpheusError::PolicyError(_) => "Policy profile error: "@,
            MorpheusError::MonotonicityViolation(_) => "BCI*/RoH monotonicity violation: "@,
            MorpheusError::GuardRejection(_) => "Guard rejection: "@,
            MorpheusError::AuditError(_) => "Audit record error: "@,
            MorpheusError::DidError(_) => "Bostrom DID error: "@,
            MorpheusError::SerializationError(_) => "Serialization error: "@,
            MorpheusError::CryptoError(_) => "Cryptographic error: "@,
            MorpheusError::Unknown(_) => "Unknown error: "@,
        }
    }

    /// The detail that the error carries.
    pub open spec fn detail(&self) -> Seq<char> {
        match self {
            MorpheusError::EvidenceInvalid(m) => m@,
            MorpheusError::CorridorViolation(m) => m@,
            MorpheusError::PolicyError(m) => m@,
            MorpheusError::MonotonicityViolation(m) => m@,
            MorpheusError::GuardRejection(m) => m@,
            MorpheusError::AuditError(m) => m@,
            MorpheusError::DidError(m) => m@,
            MorpheusError::SerializationError(m) => m@,
            MorpheusError::CryptoError(m) => m@,
            MorpheusError::Unknown(m) => m@,
        }
    }

    /// Renders the error as text: the heading of its kind, then its detail.
    pub fn message(&self) -> (s: String)
        ensures
            s@ == self.heading() + self.detail(),
    {
        match self {
            MorpheusError::EvidenceInvalid(m) => String::from_str(
                "Evidence validation failed: ",
            ).concat(m.as_str()),
            MorpheusError::CorridorViolation(m) => String::from_str(
                "Corridor constraint violated: ",
            ).concat(m.as_str()),
            MorpheusError::PolicyError(m) => String::from_str("Policy profile error: ").concat(
                m.as_str(),
            ),
            MorpheusError::MonotonicityViolation(m) => String::from_str(
                "BCI*/RoH monotonicity violation: ",
            ).concat(m.as_str()),
            MorpheusError::GuardRejection(m) => String::from_str("Guard rejection: ").concat(
                m.as_str(),
            ),
            MorpheusError::AuditError(m) => String::from_str("Audit record error: ").concat(
                m.as_str(),
            ),
            MorpheusError::DidError(m) => String::from_str("Bostrom DID error: ").concat(
                m.as_str(),
            ),
            MorpheusError::SerializationError(m) => String::from_str(
                "Serialization error: ",
            ).concat(m.as_str()),
            MorpheusError::CryptoError(m) => String::from_str("Cryptographic error: ").concat(
                m.as_str(),
            ),
            MorpheusError::Unknown(m) => String::from_str("Unknown error: ").concat(m.as_str()),
        }
    }
}

} // verus!
