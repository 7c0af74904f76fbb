//! The guard bank: three independent, stateless guards, and the rule that
//! merges their decisions.

use vstd::prelude::*;
use vstd::string::*;
use crate::bci::BCI_HARD_CEILING;
use crate::fixed::{SCALE, ValidationError, at_most, in_unit, limit_to, unit_threshold};
use crate::text::{append_decimal, append_fixed, append_magnitude, decimal_digits, fixed_text, magnitude_text};

verus! {

/// What a guard decides, from the least to the most restrictive.
#[derive(Clone, Debug, PartialEq, Eq)]
pub enum GuardDecision {
    /// The action may go ahead.
    AllowFull,
    /// The action may go ahead with reduced effect.
    DegradePrecision(String),
    /// The action must wait for better conditions.
    PauseAndRest(String),
    /// The action is refused.
    Forbid(String),
}

impl GuardDecision {
    /// The rank of the decision by restrictiveness.
    pub open spec fn severity(&self) -> int {
        match self {
            GuardDecision::AllowFull => 0,
            GuardDecision::DegradePrecision(_) => 1,
            GuardDecision::PauseAndRest(_) => 2,
            GuardDecision::Forbid(_) => 3,
        }
    }

    /// The reason that the decision carries; none when it allows.
    pub open spec fn reason(&self) -> Seq<char> {
        match self {
            GuardDecision::AllowFull => Seq::<char>::empty(),
            GuardDecision::DegradePrecision(r) => r@,
            GuardDecision::PauseAndRest(r) => r@,
            GuardDecision::Forbid(r) => r@,
        }
    }

    /// The rank of the decision by restrictiveness, from 0 to 3.
    pub fn rank(&self) -> (r: u8)
        ensures
            r as int == self.severity(),
    {
        match self {
            GuardDecision::AllowFull => 0,
            GuardDecision::DegradePrecision(_) => 1,
            GuardDecision::PauseAndRest(_) => 2,
            GuardDecision::Forbid(_) => 3,
        }
    }

    /// A copy of the decision, reason included.
    pub fn duplicate(&self) -> (r: Self)
        ensures
            r == *self,
    {
        match self {
            GuardDecision::AllowFull => GuardDecision::AllowFull,
            GuardDecision::DegradePrecision(s) => GuardDecision::DegradePrecision(s.clone()),
            GuardDecision::PauseAndRest(s) => GuardDecision::PauseAndRest(s.clone()),
            GuardDecision::Forbid(s) => GuardDecision::Forbid(s.clone()),
        }
    }
}

/// Whether `i` is the first position of `s` that holds a decision of the
/// greatest severity in `s`.
pub open spec fn is_first_most_restrictive(s: Seq<GuardDecision>, i: int) -> bool {
    &&& 0 <= i < s.len()
    &&& forall|j: int| 0 <= j < s.len() ==> (#[trigger] s[j]).severity() <= s[i].severity()
    &&& forall|j: int| 0 <= j < i ==> (#[trigger] s[j]).severity() < s[i].severity()
}

/// Merges guard decisions into one: the most restrictive of them, and of
/// several equally restrictive ones the first. No decision at all allows.
pub fn most_restrictive(decisions: &Vec<GuardDecision>) -> (r: GuardDecision)
    ensures
        decisions@.len() == 0 ==> r == GuardDecision::AllowFull,
        decisions@.len() > 0 ==> exists|i: int|
            is_first_most_restrictive(decisions@, i) && r == decisions@[i],
{
    if decisions.len() == 0 {
        return GuardDecision::AllowFull;
    }
    let mut best: usize = 0;
    let mut k: usize = 1;
    while k < decisions.len()
        invariant
            1 <= k <= decisions.len(),
            best < k,
            forall|j: int| 0 <= j < k ==> (#[trigger] decisions@[j]).severity() <= decisions@[best as int].severity(),
            forall|j: int| 0 <= j < best ==> (#[trigger] decisions@[j]).severity() < decisions@[best as int].severity(),
        decreases decisions.len() - k,
    {
        if decisions[k].rank() > decisions[best].rank() {
            best = k;
        }
        k = k + 1;
    }
    assert(is_first_most_restrictive(decisions@, best as int));
    decisions[best].duplicate()
}

/// Guards the index against a ceiling, with a warning band below it.
#[derive(Clone, Copy, Debug)]
pub struct BciCeilingGuard {
    /// Above this index the action is refused. In millionths.
    pub ceiling: u64,
    /// Above this index precision is degraded. In millionths.
    pub warn_threshold: u64,
}

impl BciCeilingGuard {
    /// The warning threshold is at most the ceiling, the ceiling at most
    /// the hard ceiling.
    pub open spec fn wf(&self) -> bool {
        self.warn_threshold <= self.ceiling <= BCI_HARD_CEILING
    }

    /// The text of a refusal for `current`.
    pub open spec fn forbid_text(&self, current: int) -> Seq<char> {
        "BCI* "@ + fixed_text(current, 6) + " exceeds ceiling "@ + magnitude_text(
            self.ceiling as nat,
            6,
        )
    }

    /// The text of a degradation for `current`.
    pub open spec fn degrade_text(current: int) -> Seq<char> {
        "BCI* "@ + fixed_text(current, 6) + " in warn band; degrading precision"@
    }

    /// Builds the guard from thresholds in millionths. A threshold
    /// outside the unit interval is refused, the ceiling first. Otherwise
    /// the ceiling is lowered to the hard ceiling where it lies above it,
    /// and the warning threshold to that ceiling.
    pub fn new(ceiling: i64, warn_threshold: i64) -> (r: Result<Self, ValidationError>)
        ensures
            !in_unit(ceiling as int) ==> r is Err && r->Err_0
                == ValidationError::ThresholdOutOfRange(ceiling),
            in_unit(ceiling as int) && !in_unit(warn_threshold as int) ==> r is Err && r->Err_0
                == ValidationError::ThresholdOutOfRange(warn_threshold),
            in_unit(ceiling as int) && in_unit(warn_threshold as int) ==> r is Ok
                && r->Ok_0.ceiling as int == at_most(ceiling as int, BCI_HARD_CEILING as int)
                && r->Ok_0.warn_threshold as int == at_most(
                warn_threshold as int,
                r->Ok_0.ceiling as int,
            ) && r->Ok_0.wf(),
    {
        let ceiling_given: u64 = match unit_threshold(ceiling) {
            Ok(v) => v,
            Err(e) => {
                return Err(e);
            },
        };
        let warn_given: u64 = match unit_threshold(warn_threshold) {
            Ok(v) => v,
            Err(e) => {
                return Err(e);
            },
        };
        let c: u64 = limit_to(ceiling_given, BCI_HARD_CEILING);
        let w: u64 = limit_to(warn_given, c);
        Ok(BciCeilingGuard { ceiling: c, warn_threshold: w })
    }

    /// Judges the current index: refused above the ceiling, degraded above
    /// the warning threshold, allowed otherwise.
    pub fn evaluate(&self, current_bci: i64) -> (d: GuardDecision)
        ensures
            current_bci > self.ceiling ==> d is Forbid && d.reason() == self.forbid_text(
                current_bci as int,
            ),
            self.warn_threshold < current_bci <= self.ceiling ==> d is DegradePrecision && d.reason()
                == Self::degrade_text(current_bci as int),
            current_bci <= self.warn_threshold && current_bci <= self.ceiling ==> d
                == GuardDecision::AllowFull,
            d is Forbid <==> current_bci > self.ceiling,
    {
        if exceeds(current_bci, self.ceiling) {
            let mut text = String::from_str("BCI* ");
            append_fixed(&mut text, current_bci, 6);
            text.append(" exceeds ceiling ");
            append_magnitude(&mut text, self.ceiling, 6);
            GuardDecision::Forbid(text)
        } else if exceeds(current_bci, self.warn_threshold) {
            let mut text = String::from_str("BCI* ");
            append_fixed(&mut text, current_bci, 6);
            text.append(" in warn band; degrading precision");
            GuardDecision::DegradePrecision(text)
        } else {
            GuardDecision::AllowFull
        }
    }
}

/// Whether the signed value lies above the unsigned bound.
pub fn exceeds(value: i64, bound: u64) -> (r: bool)
    ensures
        r == (value as int > bound as int),
{
    value >= 0 && value as u64 > bound
}

/// Guards a risk value that must never rise during a session.
#[derive(Clone, Copy, Debug)]
pub struct RoHGuard {
    /// Above this value the change is refused. In millionths.
    pub ceiling: u64,
    /// The value before the proposed change. In millionths.
    pub roh_before: u64,
}

impl RoHGuard {
    /// The ceiling is at most the hard ceiling, the earlier value at most one.
    pub open spec fn wf(&self) -> bool {
        self.ceiling <= BCI_HARD_CEILING && self.roh_before <= SCALE
    }

    /// The text of a refusal because of the ceiling.
    pub open spec fn ceiling_text(&self, after: int) -> Seq<char> {
        "RoH "@ + fixed_text(after, 6) + " would exceed ceiling "@ + magnitude_text(
            self.ceiling as nat,
            6,
        )
    }

    /// The text of a refusal because of a rise.
    pub open spec fn rise_text(&self, after: int) -> Seq<char> {
        "RoH monotonicity violated: "@ + magnitude_text(self.roh_before as nat, 6) + " -> "@
            + fixed_text(after, 6) + " (increase forbidden)"@
    }

    /// Builds the guard from a ceiling and the earlier value, both in
    /// millionths. Either is refused when it lies outside the unit
    /// interval, the ceiling first. Otherwise the ceiling is lowered to the
    /// hard ceiling where it lies above it, and the earlier value is kept
    /// as it was given.
    pub fn new(ceiling: i64, roh_before: i64) -> (r: Result<Self, ValidationError>)
        ensures
            !in_unit(ceiling as int) ==> r is Err && r->Err_0
                == ValidationError::ThresholdOutOfRange(ceiling),
            in_unit(ceiling as int) && !in_unit(roh_before as int) ==> r is Err && r->Err_0
                == ValidationError::ThresholdOutOfRange(roh_before),
            in_unit(ceiling as int) && in_unit(roh_before as int) ==> r is Ok
                && r->Ok_0.ceiling as int == at_most(ceiling as int, BCI_HARD_CEILING as int)
                && r->Ok_0.roh_before as int == roh_before as int && r->Ok_0.wf(),
    {
        let ceiling_given: u64 = match unit_threshold(ceiling) {
            Ok(v) => v,
            Err(e) => {
                return Err(e);
            },
        };
        let before: u64 = match unit_threshold(roh_before) {
            Ok(v) => v,
            Err(e) => {
                return Err(e);
            },
        };
        Ok(RoHGuard { ceiling: limit_to(ceiling_given, BCI_HARD_CEILING), roh_before: before })
    }

    /// Judges the value after the change: refused above the ceiling,
    /// refused on any rise, allowed when it holds or falls.
    pub fn evaluate(&self, roh_after: i64) -> (d: GuardDecision)
        ensures
            roh_after > self.ceiling ==> d is Forbid && d.reason() == self.ceiling_text(
                roh_after as int,
            ),
            roh_after <= self.ceiling && roh_after > self.roh_before ==> d is Forbid
                && d.reason() == self.rise_text(roh_after as int),
            roh_after <= self.ceiling && roh_after <= self.roh_before ==> d
                == GuardDecision::AllowFull,
            roh_after > self.roh_before ==> d is Forbid,
            d is Forbid <==> roh_after > self.ceiling || roh_after > self.roh_before,
    {
        if exceeds(roh_after, self.ceiling) {
            let mut text = String::from_str("RoH ");
            append_fixed(&mut text, roh_after, 6);
            text.append(" would exceed ceiling ");
            append_magnitude(&mut text, self.ceiling, 6);
            GuardDecision::Forbid(text)
        } else if exceeds(roh_after, self.roh_before) {
            let mut text = String::from_str("RoH monotonicity violated: ");
            append_magnitude(&mut text, self.roh_before, 6);
            text.append(" -> ");
            append_fixed(&mut text, roh_after, 6);
            text.append(" (increase forbidden)");
            GuardDecision::Forbid(text)
        } else {
            GuardDecision::AllowFull
        }
    }
}

/// Guards the operating envelope, which may only tighten or hold.
#[derive(Clone, Copy, Debug)]
pub struct EnvelopeGuard {
    /// The duty cycle accepted last, in millionths.
    pub prev_duty_cycle: i64,
    /// The session length accepted last, in minutes.
    pub prev_session_length: u32,
}

impl EnvelopeGuard {
    /// The text of a refusal because the duty cycle was relaxed.
    pub open spec fn duty_text(&self, new_duty_cycle: int) -> Seq<char> {
        "Duty cycle relaxation forbidden: "@ + fixed_text(self.prev_duty_cycle as int, 6)
            + " -> "@ + fixed_text(new_duty_cycle, 6)
    }

    /// The text of a refusal because the session was lengthened.
    pub open spec fn session_text(&self, new_session_length: nat) -> Seq<char> {
        "Session length relaxation forbidden: "@ + decimal_digits(
            self.prev_session_length as nat,
        ) + " -> "@ + decimal_digits(new_session_length)
    }

    /// Builds the guard from the values accepted last.
    pub fn new(prev_duty_cycle: i64, prev_session_length: u32) -> (g: Self)
        ensures
            g.prev_duty_cycle == prev_duty_cycle,
            g.prev_session_length == prev_session_length,
    {
        EnvelopeGuard { prev_duty_cycle, prev_session_length }
    }

    /// Judges new envelope values: refused when either is relaxed, allowed
    /// when both tighten or hold.
    pub fn evaluate(&self, new_duty_cycle: i64, new_session_length: u32) -> (d: GuardDecision)
        ensures
            new_duty_cycle > self.prev_duty_cycle ==> d is Forbid && d.reason()
                == self.duty_text(new_duty_cycle as int),
            new_duty_cycle <= self.prev_duty_cycle && new_session_length
                > self.prev_session_length ==> d is Forbid && d.reason()
                == self.session_text(new_session_length as nat),
            new_duty_cycle <= self.prev_duty_cycle && new_session_length
                <= self.prev_session_length ==> d == GuardDecision::AllowFull,
            d is Forbid <==> new_duty_cycle > self.prev_duty_cycle || new_session_length
                > self.prev_session_length,
    {
        if new_duty_cycle > self.prev_duty_cycle {
            let mut text = String::from_str("Duty cycle relaxation forbidden: ");
            append_fixed(&mut text, self.prev_duty_cycle, 6);
            text.append(" -> ");
            append_fixed(&mut text, new_duty_cycle, 6);
            GuardDecision::Forbid(text)
        } else if new_session_length > self.prev_session_length {
            let mut text = String::from_str("Session length relaxation forbidden: ");
            append_decimal(&mut text, self.prev_session_length as u64);
            text.append(" -> ");
            append_decimal(&mut text, new_session_length as u64);
            GuardDecision::Forbid(text)
        } else {
            GuardDecision::AllowFull
        }
    }
}

} // verus!
