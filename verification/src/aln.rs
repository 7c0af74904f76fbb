//! The model that a parsed governance document is read into.

use vstd::prelude::*;
use vstd::string::*;

verus! {

/// Why a document could not be read.
#[derive(Debug)]
pub enum ParsedError {
    Invalid(String),
}

/// The section that a document belongs to.
#[derive(Clone, Debug)]
pub enum ParsedSection {
    Morpheus,
    Other(String),
}

/// The kind of role that a document declares.
#[derive(Clone, Debug)]
pub enum ParsedRoleKind {
    NeuromorphGod,
    Host,
    OrganicCpuOwner,
    Regulator,
    SovereignKernel,
    Custom(String),
}

/// Whether a reversal may be permitted at all.
#[derive(Clone, Copy, Debug)]
pub enum ReversalPermission {
    DisallowNeuromorphReversal,
}

/// The settings of the reversal policy.
#[derive(Clone, Copy, Debug)]
pub struct ReversalSettings {
    pub permission: ReversalPermission,
}

/// The reversal policy of a profile.
#[derive(Clone, Copy, Debug)]
pub struct ReversalPolicyProfile {
    pub settings: ReversalSettings,
}

/// The text of a document as it was read.
#[derive(Clone, Debug)]
pub struct ParsedDocument {
    pub raw: String,
}

/// The values joined into one text, with a comma between neighbours.
pub open spec fn comma_joined(values: Seq<&str>) -> Seq<char>
    decreases values.len(),
{
    if values.len() == 0 {
        Seq::<char>::empty()
    } else if values.len() == 1 {
        values[0]@
    } else {
        comma_joined(values.drop_last()) + ","@ + values.last()@
    }
}

/// Whether one of the values names the role above all others.
pub open spec fn names_neuromorph_god(values: Seq<&str>) -> bool {
    exists|i: int| 0 <= i < values.len() && (#[trigger] values[i])@ == "NEUROMORPH_GOD"@
}

impl ParsedRoleKind {
    /// Reads the kind of role from the values of a declaration: the role
    /// above all others where one of them names it, else a custom role
    /// under all the values, joined by commas.
    pub fn from_values(values: Vec<&str>) -> (r: Self)
        ensures
            names_neuromorph_god(values@) ==> r is NeuromorphGod,
            !names_neuromorph_god(values@) ==> (r matches ParsedRoleKind::Custom(name) && name@
                == comma_joined(values@)),
    {
        let wanted = String::from_str("NEUROMORPH_GOD");
        let mut k: usize = 0;
        while k < values.len()
            invariant
                k <= values.len(),
                wanted@ == "NEUROMORPH_GOD"@,
                forall|j: int| 0 <= j < k ==> (#[trigger] values@[j])@ != "NEUROMORPH_GOD"@,
            decreases values.len() - k,
        {
            let candidate = String::from_str(values[k]);
            if candidate == wanted {
                assert(values@[k as int]@ == "NEUROMORPH_GOD"@);
                return ParsedRoleKind::NeuromorphGod;
            }
            k = k + 1;
        }
        let mut name = String::new();
        let mut i: usize = 0;
        while i < values.len()
            invariant
                i <= values.len(),
                name@ == comma_joined(values@.take(i as int)),
            decreases values.len() - i,
        {
            proof {
                assert(values@.take(i + 1).drop_last() =~= values@.take(i as int));
                assert(values@.take(i + 1).last() == values@[i as int]);
            }
            if i > 0 {
                name.append(",");
            }
            name.append(values[i]);
            proof {
                if i == 0 {
                    assert(name@ =~= values@[0]@);
                }
            }
            i = i + 1;
        }
        proof {
            assert(values@.take(i as int) =~= values@);
        }
        ParsedRoleKind::Custom(name)
    }
}

} // verus!
