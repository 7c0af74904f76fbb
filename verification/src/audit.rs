//! Audit records: one immutable entry per decision, with the risk values
//! before and after it.

use vstd::prelude::*;
use vstd::string::*;
use crate::corridor::EcoCorridorContext;
use crate::evidence::EvidenceBundle;
use crate::platform::{fresh_uuid_text, is_utc_instant_text, is_v4_text, now_rfc3339};

verus! {

/// How the evaluation of a decision ended.
#[derive(Clone, Debug, PartialEq, Eq)]
pub enum EvolutionOutcome {
    /// The decision was allowed and enacted.
    Allowed,
    /// The decision was rejected.
    Rejected(String),
    /// The decision was put off.
    Deferred(String),
    /// The decision would break a safety constraint.
    Forbidden(String),
}

/// One audit record. The index and risk values are in millionths; an
/// absent value after the decision means that nothing was enacted.
#[derive(Clone, Debug)]
pub struct EvolutionAuditRecord {
    /// A hyphenated UUID.
    pub record_id: String,
    pub did: String,
    /// The instant of the decision, in RFC 3339.
    pub timestamp: String,
    pub corridor_context: EcoCorridorContext,
    pub evidence_bundle: EvidenceBundle,
    pub policy_profile: String,
    pub neuromorphic_decision: String,
    pub outcome: EvolutionOutcome,
    pub bci_before: i64,
    pub bci_after: Option<i64>,
    pub roh_before: i64,
    pub roh_after: Option<i64>,
    /// The signature in hexadecimal, once the record is signed.
    pub signature: Option<String>,
    pub non_actuating_artifacts: Vec<String>,
}

/// A value after a decision does not lie above the value before it.
pub open spec fn not_raised(before: i64, after: Option<i64>) -> bool {
    match after {
        None => true,
        Some(a) => a <= before,
    }
}

impl EvolutionAuditRecord {
    /// Neither the index nor the risk was raised by the decision.
    pub open spec fn monotone(&self) -> bool {
        not_raised(self.bci_before, self.bci_after) && not_raised(self.roh_before, self.roh_after)
    }

    /// The first rule that the record breaks, as the text of its error;
    /// `None` when it breaks none. The rules are tried in a fixed order.
    pub open spec fn validation_error(&self) -> Option<Seq<char>> {
        if self.record_id@.len() == 0 {
            Some("Record ID cannot be empty"@)
        } else if self.did@.len() == 0 {
            Some("DID cannot be empty"@)
        } else if self.corridor_context.validation_error() is Some {
            self.corridor_context.validation_error()
        } else if self.evidence_bundle.validation_error() is Some {
            self.evidence_bundle.validation_error()
        } else if self.policy_profile@.len() == 0 {
            Some("Policy profile must be specified"@)
        } else if self.neuromorphic_decision@.len() == 0 {
            Some("Neuromorphic decision must be described"@)
        } else {
            None
        }
    }

    /// Whether the record is fresh: not yet evaluated, with no values and
    /// no signature.
    pub open spec fn unevaluated(&self) -> bool {
        &&& (self.outcome matches EvolutionOutcome::Rejected(m) && m@ == "Not yet evaluated"@)
        &&& self.bci_before == 0
        &&& self.bci_after is None
        &&& self.roh_before == 0
        &&& self.roh_after is None
        &&& self.signature is None
        &&& self.non_actuating_artifacts@.len() == 0
    }

    /// The fresh record with the identifier and instant given.
    pub fn with_identity(
        record_id: String,
        timestamp: String,
        did: String,
        corridor_context: EcoCorridorContext,
        evidence_bundle: EvidenceBundle,
        policy_profile: String,
        neuromorphic_decision: String,
    ) -> (r: Self)
        ensures
            r.record_id == record_id,
            r.timestamp == timestamp,
            r.did == did,
            r.corridor_context == corridor_context,
            r.evidence_bundle == evidence_bundle,
            r.policy_profile == policy_profile,
            r.neuromorphic_decision == neuromorphic_decision,
            r.unevaluated(),
            r.monotone(),
    {
        EvolutionAuditRecord {
            record_id,
            did,
            timestamp,
            corridor_context,
            evidence_bundle,
            policy_profile,
            neuromorphic_decision,
            outcome: EvolutionOutcome::Rejected(String::from_str("Not yet evaluated")),
            bci_before: 0,
            bci_after: None,
            roh_before: 0,
            roh_after: None,
            signature: None,
            non_actuating_artifacts: Vec::new(),
        }
    }

    /// A fresh record under a new random identifier, made now.
    pub fn new(
        did: String,
        corridor_context: EcoCorridorContext,
        evidence_bundle: EvidenceBundle,
        policy_profile: String,
        neuromorphic_decision: String,
    ) -> (r: Self)
        ensures
            is_v4_text(r.record_id@),
            is_utc_instant_text(r.timestamp@),
            r.did == did,
            r.corridor_context == corridor_context,
            r.evidence_bundle == evidence_bundle,
            r.policy_profile == policy_profile,
            r.neuromorphic_decision == neuromorphic_decision,
            r.unevaluated(),
            r.monotone(),
    {
        Self::with_identity(
            fresh_uuid_text(),
            now_rfc3339(),
            did,
            corridor_context,
            evidence_bundle,
            policy_profile,
            neuromorphic_decision,
        )
    }

    /// Records how the evaluation ended and the values around it. Nothing
    /// else of the record changes.
    pub fn set_outcome(
        &mut self,
        outcome: EvolutionOutcome,
        bci_before: i64,
        bci_after: Option<i64>,
        roh_before: i64,
        roh_after: Option<i64>,
    )
        ensures
            final(self).outcome == outcome,
            final(self).bci_before == bci_before,
            final(self).bci_after == bci_after,
            final(self).roh_before == roh_before,
            final(self).roh_after == roh_after,
            final(self).record_id == old(self).record_id,
            final(self).did == old(self).did,
            final(self).timestamp == old(self).timestamp,
            final(self).corridor_context == old(self).corridor_context,
            final(self).evidence_bundle == old(self).evidence_bundle,
            final(self).policy_profile == old(self).policy_profile,
            final(self).neuromorphic_decision == old(self).neuromorphic_decision,
            final(self).signature == old(self).signature,
            final(self).non_actuating_artifacts == old(self).non_actuating_artifacts,
    {
        self.outcome = outcome;
        self.bci_before = bci_before;
        self.bci_after = bci_after;
        self.roh_before = roh_before;
        self.roh_after = roh_after;
    }

    /// Validates the record: `Ok` when no rule is broken, else the error
    /// of the first rule that is.
    pub fn validate(&self) -> (r: Result<(), String>)
        ensures
            r is Ok <==> self.validation_error() is None,
            r is Err ==> self.validation_error() == Some(r->Err_0@),
    {
        if self.record_id.as_str().is_empty() {
            return Err(String::from_str("Record ID cannot be empty"));
        }
        if self.did.as_str().is_empty() {
            return Err(String::from_str("DID cannot be empty"));
        }
        match self.corridor_context.validate() {
            Err(e) => {
                return Err(e);
            },
            Ok(_) => {},
        }
        match self.evidence_bundle.validate() {
            Err(e) => {
                return Err(e);
            },
            Ok(_) => {},
        }
        if self.policy_profile.as_str().is_empty() {
            return Err(String::from_str("Policy profile must be specified"));
        }
        if self.neuromorphic_decision.as_str().is_empty() {
            return Err(String::from_str("Neuromorphic decision must be described"));
        }
        Ok(())
    }

    /// Whether the decision left index and risk where they were or
    /// lowered them. A value that is absent after the decision was not raised.
    pub fn respects_monotonicity(&self) -> (r: bool)
        ensures
            r == self.monotone(),
    {
        let bci_ok = match self.bci_after {
            Some(after) => after <= self.bci_before,
            None => true,
        };
        let roh_ok = match self.roh_after {
            Some(after) => after <= self.roh_before,
            None => true,
        };
        bci_ok && roh_ok
    }
}

} // verus!
