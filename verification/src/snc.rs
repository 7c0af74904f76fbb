//! The corridor as a sovereignty contract sees it: its legal tier, the
//! strength of its enforcement and the capsules attached to it.

use vstd::prelude::*;

verus! {

/// The legal tier of a corridor.
#[derive(Clone, Copy, Debug, PartialEq, Eq, Hash, Structural)]
pub enum CorridorTier {
    Tribal,
    Municipal,
    County,
    State,
    Federal,
    International,
    InternalDoctrine,
}

/// How strongly a corridor is enforced.
#[derive(Clone, Copy, Debug, PartialEq, Eq, Structural)]
pub enum CorridorStrength {
    /// Binding consent and a community veto: a denial blocks actuation.
    HardVeto,
    /// Enforceable obligations with weaker consent.
    StrongGuard,
    /// Informative only: it cannot permit actuation by itself.
    AdvisoryOnly,
}

/// The canonical identifier of a corridor: tier, code and version.
#[derive(Clone, Debug, PartialEq, Eq, Hash)]
pub struct CorridorId {
    pub tier: CorridorTier,
    pub code: String,
    pub version: String,
}

/// The state of consent and data sovereignty.
#[derive(Clone, Debug)]
pub struct FpicIdsState {
    pub fpic_granted: bool,
    pub revocable: bool,
    pub last_decision_utc: String,
    pub community_veto_active: bool,
}

/// The capsule of neurorights attached to a corridor.
#[derive(Clone, Copy, Debug)]
pub struct NeurorightsCapsuleHgo {
    pub inner_outer_enforced: bool,
    pub neural_data_safety_only: bool,
    pub requires_opt_out_channels: bool,
    pub forbids_inner_for_access: bool,
}

/// The ecological effect of one operation, each delta in millionths of its unit.
#[derive(Clone, Copy, Debug)]
pub struct EcoImpactMetrics {
    pub delta_emissions_co2e: i64,
    pub delta_pm25: i64,
    pub delta_water_use_m3: i64,
    pub delta_heat_index_c: i64,
}

/// The corridor context bound to a sovereignty contract.
#[derive(Clone, Debug)]
pub struct EcoCorridorContext {
    pub corridor_id: CorridorId,
    pub strength: CorridorStrength,
    pub fpic: FpicIdsState,
    pub neurorights: NeurorightsCapsuleHgo,
    pub eco: EcoImpactMetrics,
    pub jurisdiction_profile_id: Option<String>,
}

} // verus!
