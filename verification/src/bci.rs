//! The composite biocompatibility index and the controller that bands it
//! into a decision with a throttle factor.

use vstd::prelude::*;
use vstd::string::*;
use crate::fixed::{SCALE, ValidationError, at_most, in_unit, limit_to, normalize, normalized, unit_threshold};
use crate::text::{append_magnitude, magnitude_text};

verus! {

/// The hard ceiling of the index, in millionths: no controller is built above it.
pub const BCI_HARD_CEILING: u64 = 300_000;

/// The warning threshold of the default controller, in millionths.
pub const DEFAULT_WARN_INDEX: u64 = 200_000;

/// The least throttle factor that throttling alone can reach, in millionths.
pub const THROTTLE_FLOOR: u64 = 100_000;

/// Weight of the inflammation reading, in hundredths.
pub const WEIGHT_INFLAMMATION: u64 = 30;

/// Weight of the heart-rate-variability strain, in hundredths.
pub const WEIGHT_HRV_STRAIN: u64 = 25;

/// Weight of the neural desynchronisation reading, in hundredths.
pub const WEIGHT_NEURAL_DESYNC: u64 = 25;

/// Weight of the distress reading, in hundredths.
pub const WEIGHT_DISTRESS: u64 = 20;

/// One snapshot of the four risk readings, each in millionths. A reading
/// that could not be taken is `None`; one outside the unit interval is
/// accepted and coerced when the index is computed.
#[derive(Clone, Copy, Debug)]
pub struct BciSample {
    pub inflammation: Option<i64>,
    pub hrv_strain: Option<i64>,
    pub neural_desync: Option<i64>,
    pub distress: Option<i64>,
}

impl BciSample {
    /// The composite index of the sample: the weighted mean of the coerced
    /// readings, rounded down to a whole millionth.
    pub open spec fn index(&self) -> int {
        (WEIGHT_INFLAMMATION * normalized(self.inflammation) + WEIGHT_HRV_STRAIN * normalized(
            self.hrv_strain,
        ) + WEIGHT_NEURAL_DESYNC * normalized(self.neural_desync) + WEIGHT_DISTRESS * normalized(
            self.distress,
        )) / 100
    }

    /// The sample with every reading coerced into the unit interval.
    pub fn clamped(&self) -> (s: Self)
        ensures
            s.inflammation == Some(normalized(self.inflammation) as i64),
            s.hrv_strain == Some(normalized(self.hrv_strain) as i64),
            s.neural_desync == Some(normalized(self.neural_desync) as i64),
            s.distress == Some(normalized(self.distress) as i64),
            s.index() == self.index(),
    {
        BciSample {
            inflammation: Some(normalize(self.inflammation) as i64),
            hrv_strain: Some(normalize(self.hrv_strain) as i64),
            neural_desync: Some(normalize(self.neural_desync) as i64),
            distress: Some(normalize(self.distress) as i64),
        }
    }

    /// Computes the composite index, which always lies in the unit interval.
    pub fn compute_index(&self) -> (r: u64)
        ensures
            r as int == self.index(),
            r <= SCALE,
    {
        let a: u64 = normalize(self.inflammation);
        let b: u64 = normalize(self.hrv_strain);
        let c: u64 = normalize(self.neural_desync);
        let d: u64 = normalize(self.distress);
        let total: u64 = WEIGHT_INFLAMMATION * a + WEIGHT_HRV_STRAIN * b + WEIGHT_NEURAL_DESYNC * c
            + WEIGHT_DISTRESS * d;
        total / 100
    }
}

/// How the device must behave.
#[derive(Clone, Copy, Debug, PartialEq, Eq, Structural)]
pub enum BciSafetyLevel {
    Safe,
    Throttle,
    Shutdown,
}

/// A safety decision: its index, the level, the throttle factor in
/// millionths and the reason in words.
#[derive(Clone, Debug)]
pub struct BciSafetyDecision {
    pub index: u64,
    pub level: BciSafetyLevel,
    pub throttle_factor: u64,
    pub reason: String,
}

impl BciSafetyDecision {
    /// A decision stops the device exactly when its throttle factor is zero,
    /// and a safe decision leaves it at full operation.
    pub open spec fn consistent(&self) -> bool {
        &&& self.throttle_factor <= SCALE
        &&& (self.level == BciSafetyLevel::Shutdown <==> self.throttle_factor == 0)
        &&& (self.level == BciSafetyLevel::Safe ==> self.throttle_factor == SCALE)
    }
}

/// The thresholds of the banding, in millionths.
pub struct BciSafetyController {
    /// At or above this index the device is shut down.
    pub max_index: u64,
    /// At or above this index the device is throttled.
    pub warn_index: u64,
}

impl BciSafetyController {
    /// The thresholds are ordered and below the hard ceiling.
    pub open spec fn wf(&self) -> bool {
        self.warn_index <= self.max_index <= BCI_HARD_CEILING
    }

    /// The level that the index `idx` falls into.
    pub open spec fn level_for(&self, idx: int) -> BciSafetyLevel {
        if idx >= self.max_index {
            BciSafetyLevel::Shutdown
        } else if idx >= self.warn_index {
            BciSafetyLevel::Throttle
        } else {
            BciSafetyLevel::Safe
        }
    }

    /// The throttle factor inside the warning band before the floor is
    /// applied: one at the warning threshold, falling linearly to zero at
    /// the maximum.
    pub open spec fn linear_throttle(&self, idx: int) -> int {
        SCALE - (idx - self.warn_index) * SCALE / (self.max_index - self.warn_index)
    }

    /// The throttle factor for the index `idx`.
    pub open spec fn throttle_for(&self, idx: int) -> int {
        if idx >= self.max_index {
            0
        } else if idx >= self.warn_index {
            if self.linear_throttle(idx) < THROTTLE_FLOOR {
                THROTTLE_FLOOR as int
            } else {
                self.linear_throttle(idx)
            }
        } else {
            SCALE as int
        }
    }

    /// The reason given for the index `idx`.
    pub open spec fn reason_for(&self, idx: nat) -> Seq<char> {
        if idx >= self.max_index {
            "BCI "@ + magnitude_text(idx, 3) + " >= hard ceiling "@ + magnitude_text(
                self.max_index as nat,
                3,
            ) + ": forcing shutdown"@
        } else if idx >= self.warn_index {
            "BCI "@ + magnitude_text(idx, 3) + " in warning band ["@ + magnitude_text(
                self.warn_index as nat,
                3,
            ) + ", "@ + magnitude_text(self.max_index as nat, 3) + "]: throttling to "@
                + magnitude_text(self.throttle_for(idx as int) as nat, 2) + "x"@
        } else {
            "BCI "@ + magnitude_text(idx, 3) + " below warning threshold "@ + magnitude_text(
                self.warn_index as nat,
                3,
            ) + ": full operation"@
        }
    }

    /// Builds a controller from thresholds in millionths. A threshold
    /// outside the unit interval is refused, the maximum first. Otherwise
    /// the maximum is lowered to the hard ceiling where it lies above it,
    /// and the warning threshold to that maximum.
    pub fn new(max_index: i64, warn_index: i64) -> (r: Result<Self, ValidationError>)
        ensures
            !in_unit(max_index as int) ==> r is Err && r->Err_0
                == ValidationError::ThresholdOutOfRange(max_index),
            in_unit(max_index as int) && !in_unit(warn_index as int) ==> r is Err && r->Err_0
                == ValidationError::ThresholdOutOfRange(warn_index),
            in_unit(max_index as int) && in_unit(warn_index as int) ==> r is Ok
                && r->Ok_0.max_index as int == at_most(max_index as int, BCI_HARD_CEILING as int)
                && r->Ok_0.warn_index as int == at_most(
                warn_index as int,
                r->Ok_0.max_index as int,
            ) && r->Ok_0.wf(),
    {
        let max_given: u64 = match unit_threshold(max_index) {
            Ok(v) => v,
            Err(e) => {
                return Err(e);
            },
        };
        let warn_given: u64 = match unit_threshold(warn_index) {
            Ok(v) => v,
            Err(e) => {
                return Err(e);
            },
        };
        let max_limited: u64 = limit_to(max_given, BCI_HARD_CEILING);
        let warn_limited: u64 = limit_to(warn_given, max_limited);
        Ok(BciSafetyController { max_index: max_limited, warn_index: warn_limited })
    }

    /// The decision for an index: shutdown at or above the maximum, a
    /// throttle inside the warning band, full operation below it.
    pub fn decision_for_index(&self, idx: u64) -> (d: BciSafetyDecision)
        ensures
            d.index == idx,
            idx >= self.max_index ==> d.level == BciSafetyLevel::Shutdown && d.throttle_factor
                == 0,
            self.warn_index <= idx < self.max_index ==> d.level == BciSafetyLevel::Throttle
                && d.throttle_factor as int == (if self.linear_throttle(idx as int)
                < THROTTLE_FLOOR {
                THROTTLE_FLOOR as int
            } else {
                self.linear_throttle(idx as int)
            }) && THROTTLE_FLOOR <= d.throttle_factor <= SCALE,
            idx < self.warn_index && idx < self.max_index ==> d.level == BciSafetyLevel::Safe
                && d.throttle_factor == SCALE,
            d.level == self.level_for(idx as int),
            d.throttle_factor as int == self.throttle_for(idx as int),
            d.reason@ == self.reason_for(idx as nat),
            d.consistent(),
    {
        if idx >= self.max_index {
            let mut reason = String::from_str("BCI ");
            append_magnitude(&mut reason, idx, 3);
            reason.append(" >= hard ceiling ");
            append_magnitude(&mut reason, self.max_index, 3);
            reason.append(": forcing shutdown");
            return BciSafetyDecision {
                index: idx,
                level: BciSafetyLevel::Shutdown,
                throttle_factor: 0,
                reason,
            };
        }
        if idx >= self.warn_index {
            let span: u64 = self.max_index - self.warn_index;
            let over: u64 = idx - self.warn_index;
            let cut: u128 = (over as u128 * SCALE as u128) / (span as u128);
            proof {
                lemma_scaled_quotient(over as int, span as int);
            }
            let linear: u64 = SCALE - (cut as u64);
            let throttle: u64 = if linear < THROTTLE_FLOOR {
                THROTTLE_FLOOR
            } else {
                linear
            };
            let mut reason = String::from_str("BCI ");
            append_magnitude(&mut reason, idx, 3);
            reason.append(" in warning band [");
            append_magnitude(&mut reason, self.warn_index, 3);
            reason.append(", ");
            append_magnitude(&mut reason, self.max_index, 3);
            reason.append("]: throttling to ");
            append_magnitude(&mut reason, throttle, 2);
            reason.append("x");
            return BciSafetyDecision {
                index: idx,
                level: BciSafetyLevel::Throttle,
                throttle_factor: throttle,
                reason,
            };
        }
        let mut reason = String::from_str("BCI ");
        append_magnitude(&mut reason, idx, 3);
        reason.append(" below warning threshold ");
        append_magnitude(&mut reason, self.warn_index, 3);
        reason.append(": full operation");
        BciSafetyDecision {
            index: idx,
            level: BciSafetyLevel::Safe,
            throttle_factor: SCALE,
            reason,
        }
    }

    /// Decides how the device must behave for the latest sample: the
    /// decision for the sample's composite index.
    pub fn decide(&self, sample: &BciSample) -> (d: BciSafetyDecision)
        ensures
            d.index as int == sample.index(),
            d.index <= SCALE,
            d.index >= self.max_index ==> d.level == BciSafetyLevel::Shutdown
                && d.throttle_factor == 0,
            self.warn_index <= d.index < self.max_index ==> d.level == BciSafetyLevel::Throttle
                && d.throttle_factor as int == (if self.linear_throttle(d.index as int)
                < THROTTLE_FLOOR {
                THROTTLE_FLOOR as int
            } else {
                self.linear_throttle(d.index as int)
            }) && THROTTLE_FLOOR <= d.throttle_factor <= SCALE,
            d.index < self.warn_index && d.index < self.max_index ==> d.level
                == BciSafetyLevel::Safe && d.throttle_factor == SCALE,
            d.level == self.level_for(d.index as int),
            d.throttle_factor as int == self.throttle_for(d.index as int),
            d.reason@ == self.reason_for(d.index as nat),
            d.consistent(),
    {
        let idx: u64 = sample.compute_index();
        self.decision_for_index(idx)
    }
}

impl Default for BciSafetyController {
    /// The controller at the hard ceiling, warning from two tenths on.
    fn default() -> (c: Self)
        ensures
            c.max_index == BCI_HARD_CEILING,
            c.warn_index == DEFAULT_WARN_INDEX,
            c.wf(),
    {
        BciSafetyController { max_index: BCI_HARD_CEILING, warn_index: DEFAULT_WARN_INDEX }
    }
}

/// A part `over` of a span, scaled to millionths, is less than one.
pub proof fn lemma_scaled_quotient(over: int, span: int)
    requires
        0 <= over < span,
    ensures
        0 <= over * SCALE / span < SCALE,
        over > 0 && span <= SCALE ==> over * SCALE / span >= 1,
{
    assert(0 <= over * 1_000_000 / span < 1_000_000) by (nonlinear_arith)
        requires
            0 <= over < span,
    ;
    if over > 0 && span <= SCALE {
        assert(over * 1_000_000 / span >= 1) by (nonlinear_arith)
            requires
                0 < over < span,
                span <= 1_000_000,
        ;
    }
}

/// Inside the warning band of a well-formed controller the throttle factor
/// lies between the floor and one, and is below one past the warning
/// threshold itself.
pub proof fn lemma_throttle_band(c: BciSafetyController, idx: int)
    requires
        c.wf(),
        c.warn_index <= idx < c.max_index,
    ensures
        c.level_for(idx) == BciSafetyLevel::Throttle,
        THROTTLE_FLOOR <= c.throttle_for(idx) <= SCALE,
        idx > c.warn_index ==> c.throttle_for(idx) < SCALE,
        idx == c.warn_index ==> c.throttle_for(idx) == SCALE,
{
    lemma_scaled_quotient(idx - c.warn_index, c.max_index - c.warn_index);
}

/// Inside the warning band of a well-formed controller the throttle factor
/// falls strictly as the index rises, as long as it is above the floor; at
/// the floor it stays.
pub proof fn lemma_throttle_decreasing(c: BciSafetyController, lower: int, higher: int)
    requires
        c.wf(),
        c.warn_index <= lower < higher < c.max_index,
    ensures
        c.throttle_for(higher) <= c.throttle_for(lower),
        c.throttle_for(lower) > THROTTLE_FLOOR ==> c.throttle_for(higher) < c.throttle_for(lower),
{
    let span = c.max_index - c.warn_index;
    let a = lower - c.warn_index;
    let b = higher - c.warn_index;
    assert(b * 1_000_000 / span > a * 1_000_000 / span) by (nonlinear_arith)
        requires
            0 <= a < b,
            0 < span <= 1_000_000,
    ;
}

} // verus!
