//! Capability tiers, and the conditions under which a downgrade is permitted.

use vstd::prelude::*;

verus! {

/// How settled a capability is.
#[derive(Clone, Copy, Debug)]
pub enum CapabilityTier {
    Alpha,
    Beta,
    Stable,
}

/// What a capability may do at its tier.
#[derive(Clone, Copy, Debug)]
pub struct CapabilityState {
    pub tier: CapabilityTier,
    pub can_self_modify: bool,
    pub can_request_transition: bool,
}

/// The three findings that a downgrade depends on.
#[derive(Clone, Copy, Debug)]
pub struct ReversalConditions {
    pub neuromorph_god_satisfied: bool,
    pub explicit_reversal_order: bool,
    pub no_safer_alternative: bool,
}

impl ReversalConditions {
    /// A downgrade is permitted only when all three findings hold.
    pub fn permits_downgrade(&self) -> (r: bool)
        ensures
            r == (self.neuromorph_god_satisfied && self.explicit_reversal_order
                && self.no_safer_alternative),
    {
        self.neuromorph_god_satisfied && self.explicit_reversal_order && self.no_safer_alternative
    }
}

} // verus!
