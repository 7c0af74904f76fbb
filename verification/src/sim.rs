//! Projection of an envelope under mitigations that never reverse a
//! capability.

use vstd::prelude::*;

verus! {

/// The state of the envelope, each quantity in millionths.
#[derive(Clone, Copy, Debug)]
pub struct EnvelopeSnapshot {
    pub roh: i64,
    pub decay: i64,
    pub lifeforce: i64,
    pub power: i64,
    pub tech: i64,
    pub nano: i64,
    pub smart: i64,
}

/// A step that lowers risk without reversing anything.
#[derive(Clone, Debug)]
pub enum Mitigation {
    TightenEnvelopes,
    PauseOperations,
    InduceRest,
    Custom(String),
}

/// The risk above which, with decay, no safer alternative is left.
pub const RISK_LIMIT: i64 = 300_000;

/// The decay above which, with risk, no safer alternative is left.
pub const DECAY_LIMIT: i64 = 800_000;

/// What pausing takes from decay.
pub const PAUSE_RELIEF: i64 = 100_000;

/// What rest adds to lifeforce.
pub const REST_GAIN: i64 = 150_000;

/// The level that power and technology are raised to when the nano and
/// smart capacities carry the projection.
pub const CAPACITY_LEVEL: i64 = 900_000;

/// The nano capacity above which the projection can be safe.
pub const NANO_THRESHOLD: i64 = 700_000;

/// The smart capacity above which the projection can be safe.
pub const SMART_THRESHOLD: i64 = 800_000;

/// Four fifths of `v`, rounded toward zero.
pub open spec fn four_fifths(v: int) -> int {
    if v >= 0 {
        v * 4 / 5
    } else {
        -((-v) * 4 / 5)
    }
}

/// `v` held within the range of a signed 64-bit quantity.
pub open spec fn saturated(v: int) -> int {
    if v < i64::MIN {
        i64::MIN as int
    } else if v > i64::MAX {
        i64::MAX as int
    } else {
        v
    }
}

/// The snapshot after one mitigation: tightening scales the risk to four
/// fifths, pausing relieves decay, rest adds lifeforce; any other
/// mitigation changes nothing.
pub open spec fn mitigated(s: EnvelopeSnapshot, m: Mitigation) -> EnvelopeSnapshot {
    match m {
        Mitigation::TightenEnvelopes => EnvelopeSnapshot { roh: four_fifths(s.roh as int) as i64, ..s },
        Mitigation::PauseOperations => EnvelopeSnapshot {
            decay: saturated(s.decay - PAUSE_RELIEF) as i64,
            ..s
        },
        Mitigation::InduceRest => EnvelopeSnapshot {
            lifeforce: saturated(s.lifeforce + REST_GAIN) as i64,
            ..s
        },
        Mitigation::Custom(_) => s,
    }
}

/// The snapshot after all of `ms`, applied in order.
pub open spec fn mitigated_all(s: EnvelopeSnapshot, ms: Seq<Mitigation>) -> EnvelopeSnapshot
    decreases ms.len(),
{
    if ms.len() == 0 {
        s
    } else {
        mitigated(mitigated_all(s, ms.drop_last()), ms.last())
    }
}

/// No safer alternative is left for a snapshot whose risk and decay both
/// stay above their limits.
pub open spec fn no_safer_alternative(s: EnvelopeSnapshot) -> bool {
    s.roh > RISK_LIMIT && s.decay > DECAY_LIMIT
}

/// Whether nano and smart capacities carry the projection.
pub open spec fn carried(s: EnvelopeSnapshot) -> bool {
    s.nano > NANO_THRESHOLD && s.smart > SMART_THRESHOLD
}

/// The projection of `s` under `ms`: all mitigations applied, and power
/// and technology raised to the capacity level where the projection is carried.
pub open spec fn projection(s: EnvelopeSnapshot, ms: Seq<Mitigation>) -> EnvelopeSnapshot {
    let p = mitigated_all(s, ms);
    if carried(p) {
        EnvelopeSnapshot {
            power: if p.power < CAPACITY_LEVEL {
                CAPACITY_LEVEL
            } else {
                p.power
            },
            tech: if p.tech < CAPACITY_LEVEL {
                CAPACITY_LEVEL
            } else {
                p.tech
            },
            ..p
        }
    } else {
        p
    }
}

/// Whether the projection of `s` under `ms` is safe: it is carried, its
/// risk is within the limit, and a safer alternative is left.
pub open spec fn projection_safe(s: EnvelopeSnapshot, ms: Seq<Mitigation>) -> bool {
    let p = projection(s, ms);
    carried(p) && p.roh <= RISK_LIMIT && !no_safer_alternative(p)
}

/// Applies one mitigation to a snapshot.
pub fn apply_mitigation(s: EnvelopeSnapshot, m: &Mitigation) -> (r: EnvelopeSnapshot)
    ensures
        r == mitigated(s, *m),
{
    let mut r = s;
    match m {
        Mitigation::TightenEnvelopes => {
            let wide: i128 = (s.roh as i128 * 4) / 5;
            assert(wide as int == four_fifths(s.roh as int)) by {
                if s.roh < 0 {
                    assert((s.roh as int * 4) == -((-(s.roh as int)) * 4));
                }
            }
            r.roh = wide as i64;
        },
        Mitigation::PauseOperations => {
            r.decay = if s.decay < i64::MIN + PAUSE_RELIEF {
                i64::MIN
            } else {
                s.decay - PAUSE_RELIEF
            };
        },
        Mitigation::InduceRest => {
            r.lifeforce = if s.lifeforce > i64::MAX - REST_GAIN {
                i64::MAX
            } else {
                s.lifeforce + REST_GAIN
            };
        },
        Mitigation::Custom(_) => {},
    }
    r
}

/// Projects a snapshot under mitigations, and says whether the
/// projection is safe.
pub fn reproject_non_reversal(snapshot: &EnvelopeSnapshot, mitigations: &[Mitigation]) -> (r: (
    EnvelopeSnapshot,
    bool,
))
    ensures
        r.0 == projection(*snapshot, mitigations@),
        r.1 == projection_safe(*snapshot, mitigations@),
        !carried(mitigated_all(*snapshot, mitigations@)) ==> !r.1,
{
    let mut projected = *snapshot;
    let mut k: usize = 0;
    while k < mitigations.len()
        invariant
            k <= mitigations.len(),
            projected == mitigated_all(*snapshot, mitigations@.take(k as int)),
        decreases mitigations.len() - k,
    {
        proof {
            assert(mitigations@.take(k + 1).drop_last() =~= mitigations@.take(k as int));
        }
        projected = apply_mitigation(projected, &mitigations[k]);
        k = k + 1;
    }
    proof {
        assert(mitigations@.take(k as int) =~= mitigations@);
    }
    if projected.nano > NANO_THRESHOLD && projected.smart > SMART_THRESHOLD {
        if projected.power < CAPACITY_LEVEL {
            projected.power = CAPACITY_LEVEL;
        }
        if projected.tech < CAPACITY_LEVEL {
            projected.tech = CAPACITY_LEVEL;
        }
        let safe = projected.roh <= RISK_LIMIT && !nosaferalternative(&projected);
        (projected, safe)
    } else {
        (projected, false)
    }
}

/// Whether no safer alternative is left for the snapshot.
pub fn nosaferalternative(snapshot: &EnvelopeSnapshot) -> (r: bool)
    ensures
        r == no_safer_alternative(*snapshot),
{
    snapshot.roh > RISK_LIMIT && snapshot.decay > DECAY_LIMIT
}

} // verus!
