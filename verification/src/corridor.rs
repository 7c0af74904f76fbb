//! The corridor in which a decision is made: its ecological impact, the
//! state of consent and the jurisdictions it falls under.

use vstd::prelude::*;
use vstd::string::*;
use crate::fixed::{SCALE, clamp_unit};
use crate::platform::{is_utc_instant_text, now_rfc3339};

verus! {

/// The identifier of a corridor.
pub type CorridorId = String;

/// The greatest admissible climate or biodiversity impact, in millionths.
pub const IMPACT_LIMIT: i64 = 300_000;

/// The greatest admissible fragility or service impact, in millionths.
pub const FRAGILITY_LIMIT: i64 = 250_000;

/// The least admissible corridor safety, in millionths.
pub const SAFETY_FLOOR: i64 = 700_000;

/// Ecological impact scores in millionths: zero is no impact, one the
/// greatest; for corridor safety one is fully protected.
#[derive(Clone, Copy, Debug)]
pub struct EcoImpactMetrics {
    pub climate_impact: i64,
    pub biodiversity_impact: i64,
    pub biosphere_fragility: i64,
    pub corridor_safety: i64,
    pub service_impact: i64,
}

impl EcoImpactMetrics {
    /// Every score is within its admissible bound.
    pub open spec fn admissible(&self) -> bool {
        &&& self.climate_impact <= IMPACT_LIMIT
        &&& self.biodiversity_impact <= IMPACT_LIMIT
        &&& self.biosphere_fragility <= FRAGILITY_LIMIT
        &&& self.corridor_safety >= SAFETY_FLOOR
        &&& self.service_impact <= FRAGILITY_LIMIT
    }

    /// The composite risk: the mean of the four impacts and of what the
    /// corridor lacks in safety, rounded down and limited to the unit interval.
    pub open spec fn risk(&self) -> int {
        clamp_unit(
            (self.climate_impact + self.biodiversity_impact + self.biosphere_fragility + (SCALE
                - self.corridor_safety) + self.service_impact) / 5,
        )
    }

    /// Whether every score is within its admissible bound.
    pub fn is_admissible(&self) -> (r: bool)
        ensures
            r == self.admissible(),
    {
        self.climate_impact <= IMPACT_LIMIT && self.biodiversity_impact <= IMPACT_LIMIT
            && self.biosphere_fragility <= FRAGILITY_LIMIT && self.corridor_safety >= SAFETY_FLOOR
            && self.service_impact <= FRAGILITY_LIMIT
    }

    /// Computes the composite ecological risk.
    pub fn composite_risk(&self) -> (r: u64)
        ensures
            r as int == self.risk(),
            r <= SCALE,
    {
        let total: i128 = self.climate_impact as i128 + self.biodiversity_impact as i128
            + self.biosphere_fragility as i128 + (1_000_000i128 - self.corridor_safety as i128)
            + self.service_impact as i128;
        if total <= 0 {
            0
        } else {
            let mean: i128 = total / 5;
            if mean > 1_000_000 {
                SCALE
            } else {
                mean as u64
            }
        }
    }
}

impl Default for EcoImpactMetrics {
    /// No impact on any axis, and a fully protected corridor.
    fn default() -> (m: Self)
        ensures
            m.climate_impact == 0,
            m.biodiversity_impact == 0,
            m.biosphere_fragility == 0,
            m.corridor_safety == SCALE,
            m.service_impact == 0,
            m.admissible(),
    {
        EcoImpactMetrics {
            climate_impact: 0,
            biodiversity_impact: 0,
            biosphere_fragility: 0,
            corridor_safety: 1_000_000,
            service_impact: 0,
        }
    }
}

/// The state of free, prior and informed consent.
#[derive(Clone, Debug, PartialEq, Eq)]
pub enum FpicIdsStatus {
    NotObtained,
    Granted,
    Conditional(Vec<String>),
    Revoked,
    Pending,
}

/// The corridor context that every decision is anchored to.
#[derive(Clone, Debug)]
pub struct EcoCorridorContext {
    pub corridor_id: CorridorId,
    pub corridor_name: String,
    pub eco_impact: EcoImpactMetrics,
    pub fpic_ids_status: FpicIdsStatus,
    pub jurisdictions: Vec<String>,
    /// The instant of the last update, in RFC 3339.
    pub last_updated: String,
    pub notes: Option<String>,
}

impl EcoCorridorContext {
    /// The first rule that the context breaks, as the text of its error;
    /// `None` when it breaks none. The rules are tried in a fixed order.
    pub open spec fn validation_error(&self) -> Option<Seq<char>> {
        if self.corridor_id@.len() == 0 {
            Some("Corridor ID cannot be empty"@)
        } else if self.corridor_name@.len() == 0 {
            Some("Corridor name cannot be empty"@)
        } else if self.jurisdictions@.len() == 0 {
            Some("At least one jurisdiction must be specified"@)
        } else if self.fpic_ids_status is Revoked {
            Some("Cannot operate in corridors with revoked FPIC/IDS"@)
        } else if !self.eco_impact.admissible() {
            Some("Ecological impact exceeds admissible thresholds"@)
        } else {
            None
        }
    }

    /// The basic condition: consent is not revoked, the impact is admissible
    /// and a jurisdiction is named.
    pub open spec fn operational(&self) -> bool {
        !(self.fpic_ids_status is Revoked) && self.eco_impact.admissible()
            && self.jurisdictions@.len() > 0
    }

    /// The context of a corridor as it is first seen at the instant
    /// `last_updated`: no impact recorded, consent not obtained, no
    /// jurisdiction and no notes.
    pub fn at_instant(corridor_id: CorridorId, corridor_name: String, last_updated: String) -> (c:
        Self)
        ensures
            c.corridor_id == corridor_id,
            c.corridor_name == corridor_name,
            c.last_updated == last_updated,
            c.eco_impact.climate_impact == 0,
            c.eco_impact.biodiversity_impact == 0,
            c.eco_impact.biosphere_fragility == 0,
            c.eco_impact.corridor_safety == SCALE,
            c.eco_impact.service_impact == 0,
            c.eco_impact.admissible(),
            c.eco_impact.risk() == 0,
            c.fpic_ids_status is NotObtained,
            c.jurisdictions@.len() == 0,
            c.notes is None,
    {
        EcoCorridorContext {
            corridor_id,
            corridor_name,
            eco_impact: EcoImpactMetrics::default(),
            fpic_ids_status: FpicIdsStatus::NotObtained,
            jurisdictions: Vec::new(),
            last_updated,
            notes: None,
        }
    }

    /// The context of a corridor as it is first seen now.
    pub fn new(corridor_id: CorridorId, corridor_name: String) -> (c: Self)
        ensures
            c.corridor_id == corridor_id,
            c.corridor_name == corridor_name,
            is_utc_instant_text(c.last_updated@),
            c.eco_impact.climate_impact == 0,
            c.eco_impact.biodiversity_impact == 0,
            c.eco_impact.biosphere_fragility == 0,
            c.eco_impact.corridor_safety == SCALE,
            c.eco_impact.service_impact == 0,
            c.eco_impact.admissible(),
            c.eco_impact.risk() == 0,
            c.fpic_ids_status is NotObtained,
            c.jurisdictions@.len() == 0,
            c.notes is None,
    {
        Self::at_instant(corridor_id, corridor_name, now_rfc3339())
    }

    /// Validates the context: `Ok` when no rule is broken, else the error
    /// of the first rule that is.
    pub fn validate(&self) -> (r: Result<(), String>)
        ensures
            r is Ok <==> self.validation_error() is None,
            r is Err ==> self.validation_error() == Some(r->Err_0@),
    {
        if self.corridor_id.as_str().is_empty() {
            return Err(String::from_str("Corridor ID cannot be empty"));
        }
        if self.corridor_name.as_str().is_empty() {
            return Err(String::from_str("Corridor name cannot be empty"));
        }
        if self.jurisdictions.len() == 0 {
            return Err(String::from_str("At least one jurisdiction must be specified"));
        }
        if self.is_revoked() {
            return Err(String::from_str("Cannot operate in corridors with revoked FPIC/IDS"));
        }
        if !self.eco_impact.is_admissible() {
            return Err(String::from_str("Ecological impact exceeds admissible thresholds"));
        }
        Ok(())
    }

    /// Whether consent has been revoked.
    pub fn is_revoked(&self) -> (r: bool)
        ensures
            r == (self.fpic_ids_status is Revoked),
    {
        match &self.fpic_ids_status {
            FpicIdsStatus::Revoked => true,
            _ => false,
        }
    }

    /// Whether the corridor permits operation.
    pub fn is_operational(&self) -> (r: bool)
        ensures
            r == self.operational(),
    {
        !self.is_revoked() && self.eco_impact.is_admissible() && self.jurisdictions.len() > 0
    }
}

/// A corridor that validates is operational.
pub proof fn lemma_valid_is_operational(c: EcoCorridorContext)
    requires
        c.validation_error() is None,
    ensures
        c.operational(),
{
}

} // verus!
