//! Deciding whether an emergency reversal is authorized.

use vstd::prelude::*;
use crate::fixed::SCALE;
use crate::roles::RoleSet;

verus! {

/// The risk after mitigation above which no safer alternative may exist, in millionths.
pub const RISK_THRESHOLD: i64 = 300_000;

/// The decay above which no safer alternative may exist, in millionths.
pub const DECAY_THRESHOLD: i64 = 800_000;

/// What a reversal request claims. Risk and decay are in millionths.
#[derive(Clone, Copy, Debug)]
pub struct ReversalConditions {
    /// The risk that remains after mitigation.
    pub roh: i64,
    pub decay: i64,
    pub life_harm_flag: bool,
    pub explicit_reversal_order: bool,
    pub mitigations_exhausted: bool,
}

impl ReversalConditions {
    /// No safer alternative is proved: mitigations are exhausted while
    /// risk and decay both stay above their thresholds.
    pub open spec fn no_safer_alternative(&self) -> bool {
        self.mitigations_exhausted && self.roh > RISK_THRESHOLD && self.decay > DECAY_THRESHOLD
    }

    /// Whether no safer alternative is proved.
    pub fn nosaferalternative(&self) -> (r: bool)
        ensures
            r == self.no_safer_alternative(),
    {
        self.mitigations_exhausted && self.roh > RISK_THRESHOLD && self.decay > DECAY_THRESHOLD
    }
}

/// The outcome of one evaluation of a reversal request.
#[derive(Clone, Copy, Debug, PartialEq, Eq, Structural)]
pub enum DecisionReason {
    GrantedEmergency,
    DeniedNeuromorphGodUnsatisfied,
    DeniedOwnerNotSigned,
    DeniedNoSaferAlternativeNotProved,
    DeniedLifeHarmFlag,
}

/// The outcome that the fixed chain of checks gives: each check is made
/// only when every earlier one has passed.
pub open spec fn gate_outcome(role_set: RoleSet, cond: ReversalConditions) -> DecisionReason {
    if cond.life_harm_flag {
        DecisionReason::DeniedLifeHarmFlag
    } else if !role_set.quorum_satisfied() {
        DecisionReason::DeniedNeuromorphGodUnsatisfied
    } else if !role_set.owner_signed() || !cond.explicit_reversal_order {
        DecisionReason::DeniedOwnerNotSigned
    } else if !cond.no_safer_alternative() {
        DecisionReason::DeniedNoSaferAlternativeNotProved
    } else {
        DecisionReason::GrantedEmergency
    }
}

/// Evaluates requests for emergency reversals.
pub struct ReversalGate;

impl ReversalGate {
    /// Evaluates one request. Life harm is an absolute veto; then the
    /// quorum is asked for, then the owner's signature with an explicit
    /// order, then the proof that no safer alternative exists.
    pub fn evaluate(role_set: &RoleSet, cond: &ReversalConditions) -> (r: DecisionReason)
        ensures
            r == gate_outcome(*role_set, *cond),
            cond.life_harm_flag ==> r == DecisionReason::DeniedLifeHarmFlag,
            r == DecisionReason::GrantedEmergency <==> !cond.life_harm_flag
                && role_set.quorum_satisfied() && cond.explicit_reversal_order
                && cond.no_safer_alternative(),
    {
        if cond.life_harm_flag {
            return DecisionReason::DeniedLifeHarmFlag;
        }
        if !role_set.neuromorph_god_satisfied() {
            return DecisionReason::DeniedNeuromorphGodUnsatisfied;
        }
        if !role_set.has_owner_signature() || !cond.explicit_reversal_order {
            return DecisionReason::DeniedOwnerNotSigned;
        }
        if !cond.nosaferalternative() {
            return DecisionReason::DeniedNoSaferAlternativeNotProved;
        }
        DecisionReason::GrantedEmergency
    }
}

/// The life-harm flag vetoes a reversal whatever else holds.
pub proof fn lemma_life_harm_vetoes(role_set: RoleSet, cond: ReversalConditions)
    requires
        cond.life_harm_flag,
    ensures
        gate_outcome(role_set, cond) == DecisionReason::DeniedLifeHarmFlag,
{
}

/// The compensation owed for a denied downgrade: nothing for no debt,
/// else the debt, at most one. In millionths.
pub open spec fn compensation(mp_debt: int) -> int {
    if mp_debt <= 0 {
        0
    } else if mp_debt > SCALE {
        SCALE as int
    } else {
        mp_debt
    }
}

/// Computes the compensation owed for a denied downgrade.
pub fn church_compensation_for_denial(mp_debt: i64) -> (r: i64)
    ensures
        r as int == compensation(mp_debt as int),
        0 <= r <= SCALE,
{
    if mp_debt <= 0 {
        0
    } else if mp_debt > 1_000_000 {
        1_000_000
    } else {
        mp_debt
    }
}

} // verus!
