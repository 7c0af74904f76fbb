//! The evidence that backs a decision.

use vstd::prelude::*;
use vstd::string::*;
use crate::fixed::SCALE;

verus! {

/// A bundle of evidence: its identifier, how far the evidence is trusted
/// and how much risk it leaves open, both in millionths.
#[derive(Clone, Debug)]
pub struct EvidenceBundle {
    pub bundle_id: String,
    pub confidence: i64,
    pub residual_risk: i64,
}

impl EvidenceBundle {
    /// The first rule that the bundle breaks, as the text of its error;
    /// `None` when it breaks none.
    pub open spec fn validation_error(&self) -> Option<Seq<char>> {
        if self.bundle_id@.len() == 0 {
            Some("Evidence bundle ID cannot be empty"@)
        } else if self.confidence < 0 || self.confidence > SCALE {
            Some("Evidence confidence must lie between 0 and 1"@)
        } else if self.residual_risk < 0 || self.residual_risk > SCALE {
            Some("Evidence residual risk must lie between 0 and 1"@)
        } else {
            None
        }
    }

    /// Builds a bundle from its parts, which are kept as given.
    pub fn new(bundle_id: String, confidence: i64, residual_risk: i64) -> (e: Self)
        ensures
            e.bundle_id == bundle_id,
            e.confidence == confidence,
            e.residual_risk == residual_risk,
    {
        EvidenceBundle { bundle_id, confidence, residual_risk }
    }

    /// Validates the bundle: `Ok` when no rule is broken, else the error
    /// of the first rule that is.
    pub fn validate(&self) -> (r: Result<(), String>)
        ensures
            r is Ok <==> self.validation_error() is None,
            r is Err ==> self.validation_error() == Some(r->Err_0@),
    {
        if self.bundle_id.as_str().is_empty() {
            return Err(String::from_str("Evidence bundle ID cannot be empty"));
        }
        if self.confidence < 0 || self.confidence > 1_000_000 {
            return Err(String::from_str("Evidence confidence must lie between 0 and 1"));
        }
        if self.residual_risk < 0 || self.residual_risk > 1_000_000 {
            return Err(String::from_str("Evidence residual risk must lie between 0 and 1"));
        }
        Ok(())
    }
}

} // verus!
