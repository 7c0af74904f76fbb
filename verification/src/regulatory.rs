//! Regulatory limits and the strictest among them.

use vstd::prelude::*;

verus! {

/// The limits that three regulators set for one contaminant, in
/// millionths of its unit; a regulator that sets none is absent.
#[derive(Clone, Copy, Debug)]
pub struct RegulatoryLimits {
    pub epa: Option<i64>,
    pub eu: Option<i64>,
    pub who: Option<i64>,
}

/// The strictest limit in force; `None` when no regulator sets one, so
/// that nothing is limited.
#[derive(Clone, Copy, Debug)]
pub struct SupremeLimit {
    pub value: Option<i64>,
}

/// The lower of two limits, where an absent limit allows everything.
pub open spec fn stricter(a: Option<i64>, b: Option<i64>) -> Option<i64> {
    match (a, b) {
        (None, _) => b,
        (_, None) => a,
        (Some(x), Some(y)) => if y < x {
            b
        } else {
            a
        },
    }
}

impl RegulatoryLimits {
    /// The strictest of the three limits.
    pub open spec fn strictest(&self) -> Option<i64> {
        stricter(stricter(self.epa, self.eu), self.who)
    }

    /// Finds the strictest limit in force.
    pub fn supreme(&self) -> (s: SupremeLimit)
        ensures
            s.value == self.strictest(),
            s.value is None <==> self.epa is None && self.eu is None && self.who is None,
            forall|v: i64|
                s.value == Some(v) ==> (self.epa is Some ==> v <= self.epa->Some_0) && (self.eu
                    is Some ==> v <= self.eu->Some_0) && (self.who is Some ==> v
                    <= self.who->Some_0),
    {
        let first = lower_limit(self.epa, self.eu);
        SupremeLimit { value: lower_limit(first, self.who) }
    }
}

/// The lower of two limits, where an absent limit allows everything.
pub fn lower_limit(a: Option<i64>, b: Option<i64>) -> (r: Option<i64>)
    ensures
        r == stricter(a, b),
{
    match (a, b) {
        (None, _) => b,
        (_, None) => a,
        (Some(x), Some(y)) => if y < x {
            b
        } else {
            a
        },
    }
}

} // verus!
