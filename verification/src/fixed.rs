//! Fixed-point quantities in millionths: the one place where raw
//! readings are coerced into the unit interval, and the one where
//! thresholds are accepted or refused.

use vstd::prelude::*;
use vstd::string::*;
use crate::text::{append_fixed, fixed_text};

verus! {

/// The fixed-point value of one: every ratio is held in millionths.
pub const SCALE: u64 = 1_000_000;

/// The nearest value of the unit interval to `raw`.
pub open spec fn clamp_unit(raw: int) -> int {
    if raw < 0 {
        0
    } else if raw > SCALE as int {
        SCALE as int
    } else {
        raw
    }
}

/// What a raw reading counts as: an undefined reading is zero, any other
/// is moved to the nearest bound of the unit interval.
pub open spec fn normalized(raw: Option<i64>) -> int {
    match raw {
        None => 0,
        Some(v) => clamp_unit(v as int),
    }
}

/// Whether `raw` lies in the unit interval.
pub open spec fn in_unit(raw: int) -> bool {
    0 <= raw <= SCALE as int
}

/// The lesser of `v` and `limit`.
pub open spec fn at_most(v: int, limit: int) -> int {
    if v > limit {
        limit
    } else {
        v
    }
}

/// Why a configuration was refused when it was built.
#[derive(Clone, Copy, Debug, PartialEq, Eq, Structural)]
pub enum ValidationError {
    /// A threshold lies outside the unit interval. It is carried as it
    /// was given, in millionths.
    ThresholdOutOfRange(i64),
}

impl ValidationError {
    /// The text of the error.
    pub open spec fn text(&self) -> Seq<char> {
        match self {
            ValidationError::ThresholdOutOfRange(v) => "threshold outside [0, 1]: "@ + fixed_text(
                *v as int,
                6,
            ),
        }
    }

    /// Renders the error as text.
    pub fn message(&self) -> (s: String)
        ensures
            s@ == self.text(),
    {
        match self {
            ValidationError::ThresholdOutOfRange(v) => {
                let mut out = String::from_str("threshold outside [0, 1]: ");
                append_fixed(&mut out, *v, 6);
                out
            },
        }
    }
}

/// Coerces a raw reading into the unit interval.
pub fn normalize(raw: Option<i64>) -> (r: u64)
    ensures
        r as int == normalized(raw),
        r <= SCALE,
{
    match raw {
        None => 0,
        Some(v) => {
            if v < 0 {
                0
            } else if v > 1_000_000 {
                SCALE
            } else {
                v as u64
            }
        },
    }
}

/// Accepts a threshold that lies in the unit interval and refuses any
/// other: nothing is coerced.
pub fn unit_threshold(raw: i64) -> (r: Result<u64, ValidationError>)
    ensures
        in_unit(raw as int) ==> r == Ok::<u64, ValidationError>(raw as u64),
        !in_unit(raw as int) ==> r == Err::<u64, ValidationError>(
            ValidationError::ThresholdOutOfRange(raw),
        ),
{
    if raw < 0 || raw > 1_000_000 {
        Err(ValidationError::ThresholdOutOfRange(raw))
    } else {
        Ok(raw as u64)
    }
}

/// The lesser of `v` and `limit`.
pub fn limit_to(v: u64, limit: u64) -> (r: u64)
    ensures
        r as int == at_most(v as int, limit as int),
{
    if v > limit {
        limit
    } else {
        v
    }
}

} // verus!
