//! Compliance claims and the registry that answers for them.

use vstd::prelude::*;
use vstd::string::*;
use crate::platform::{fresh_uuid_text, is_utc_instant_text, is_v4_text, now_rfc3339};

verus! {

/// One claim of compliance. The identifier is a hyphenated UUID, the
/// instant of creation is in RFC 3339.
#[derive(Clone, Debug)]
pub struct ComplianceClaim {
    pub id: String,
    pub claim: String,
    pub industry_best_practice: bool,
    pub found_in_registry: bool,
    pub comments: String,
    pub credible: bool,
    pub created_at: String,
}

/// The claims that have been verified.
#[derive(Clone, Debug)]
pub struct ComplianceVerification {
    pub items: Vec<ComplianceClaim>,
}

/// Why a question about compliance could not be answered.
#[derive(Debug)]
pub enum ComplianceError {
    NoSuchClaim(String),
}

impl ComplianceError {
    /// The text of the error.
    pub open spec fn text(&self) -> Seq<char> {
        match self {
            ComplianceError::NoSuchClaim(c) => "no such claim: "@ + c@,
        }
    }

    /// Renders the error as text.
    pub fn message(&self) -> (s: String)
        ensures
            s@ == self.text(),
    {
        match self {
            ComplianceError::NoSuchClaim(c) => String::from_str("no such claim: ").concat(
                c.as_str(),
            ),
        }
    }
}

/// The position of the first claim in `items` whose text is `claim`, or
/// the length of `items` when there is none.
pub open spec fn first_claim(items: Seq<ComplianceClaim>, claim: Seq<char>) -> int
    decreases items.len(),
{
    if items.len() == 0 {
        0
    } else if items[0].claim@ == claim {
        0
    } else {
        1 + first_claim(items.skip(1), claim)
    }
}

/// Where the first claim with a given text stands: within the items and
/// with that text, or at their end when no item has it.
pub proof fn lemma_first_claim(items: Seq<ComplianceClaim>, claim: Seq<char>)
    ensures
        0 <= first_claim(items, claim) <= items.len(),
        first_claim(items, claim) < items.len() ==> items[first_claim(items, claim)].claim@
            == claim,
        forall|j: int| 0 <= j < first_claim(items, claim) ==> (#[trigger] items[j]).claim@ != claim,
    decreases items.len(),
{
    if items.len() > 0 && items[0].claim@ != claim {
        let rest = items.skip(1);
        lemma_first_claim(rest, claim);
        assert forall|j: int| 0 <= j < first_claim(items, claim) implies (#[trigger] items[j]).claim@
            != claim by {
            if j > 0 {
                assert(rest[j - 1] == items[j]);
            }
        }
    }
}

/// The three claims of the baseline, in their order.
pub open spec fn is_baseline(items: Seq<ComplianceClaim>) -> bool {
    &&& items.len() == 3
    &&& items[0].claim@ == "GDPR, SOC2, ISO27001"@
    &&& items[0].found_in_registry
    &&& items[0].comments@
        == "Standard data-protection and security baselines for Morpheus_GPT."@
    &&& items[1].claim@ == "18 U.S.C. \u{e22}\u{e07} 1030"@
    &&& items[1].found_in_registry
    &&& items[1].comments@
        == "Ensures authorized access, logging, and safe cybernetic operations."@
    &&& items[2].claim@ == "NeuroRights-Charter"@
    &&& !items[2].found_in_registry
    &&& items[2].comments@
        == "Protects neuromorphic lifeforms' freedom-to-exist and consent boundaries."@
    &&& forall|i: int|
        0 <= i < 3 ==> (#[trigger] items[i]).industry_best_practice && items[i].credible
}

impl ComplianceVerification {
    /// The baseline under the identifiers given, all claims made at `created_at`.
    pub fn baseline_with(first_id: String, second_id: String, third_id: String, created_at: String) -> (v:
        Self)
        ensures
            is_baseline(v.items@),
            v.items@[0].id == first_id,
            v.items@[1].id == second_id,
            v.items@[2].id == third_id,
            forall|i: int| 0 <= i < 3 ==> (#[trigger] v.items@[i]).created_at@ == created_at@,
    {
        let mut items: Vec<ComplianceClaim> = Vec::new();
        items.push(
            ComplianceClaim {
                id: first_id,
                claim: String::from_str("GDPR, SOC2, ISO27001"),
                industry_best_practice: true,
                found_in_registry: true,
                comments: String::from_str(
                    "Standard data-protection and security baselines for Morpheus_GPT.",
                ),
                credible: true,
                created_at: created_at.clone(),
            },
        );
        items.push(
            ComplianceClaim {
                id: second_id,
                claim: String::from_str("18 U.S.C. \u{e22}\u{e07} 1030"),
                industry_best_practice: true,
                found_in_registry: true,
                comments: String::from_str(
                    "Ensures authorized access, logging, and safe cybernetic operations.",
                ),
                credible: true,
                created_at: created_at.clone(),
            },
        );
        items.push(
            ComplianceClaim {
                id: third_id,
                claim: String::from_str("NeuroRights-Charter"),
                industry_best_practice: true,
                found_in_registry: false,
                comments: String::from_str(
                    "Protects neuromorphic lifeforms' freedom-to-exist and consent boundaries.",
                ),
                credible: true,
                created_at,
            },
        );
        ComplianceVerification { items }
    }

    /// The baseline, made now, each claim under a fresh random identifier.
    pub fn new_neuromorph_baseline() -> (v: Self)
        ensures
            is_baseline(v.items@),
            forall|i: int| 0 <= i < 3 ==> is_v4_text((#[trigger] v.items@[i]).id@),
            forall|i: int| 0 <= i < 3 ==> is_utc_instant_text((#[trigger] v.items@[i]).created_at@),
            forall|i: int, j: int|
                0 <= i < 3 && 0 <= j < 3 ==> (#[trigger] v.items@[i]).created_at@ == (
                #[trigger] v.items@[j]).created_at@,
    {
        let now = now_rfc3339();
        Self::baseline_with(fresh_uuid_text(), fresh_uuid_text(), fresh_uuid_text(), now)
    }

    /// Whether the first claim with the text `claim` is credible; an
    /// error when no claim has that text.
    pub fn is_credible(&self, claim: &str) -> (r: Result<bool, ComplianceError>)
        ensures
            first_claim(self.items@, claim@) < self.items@.len() ==> r == Ok::<
                bool,
                ComplianceError,
            >(self.items@[first_claim(self.items@, claim@)].credible),
            first_claim(self.items@, claim@) >= self.items@.len() ==> (r matches Err(
                ComplianceError::NoSuchClaim(c),
            ) && c@ == claim@),
            r is Ok <==> exists|i: int|
                0 <= i < self.items@.len() && (#[trigger] self.items@[i]).claim@ == claim@,
    {
        let wanted = String::from_str(claim);
        let mut k: usize = 0;
        proof {
            lemma_first_claim(self.items@, claim@);
        }
        while k < self.items.len()
            invariant
                k <= self.items.len(),
                wanted@ == claim@,
                forall|j: int| 0 <= j < k ==> (#[trigger] self.items@[j]).claim@ != claim@,
                0 <= first_claim(self.items@, claim@) <= self.items@.len(),
                first_claim(self.items@, claim@) < self.items@.len() ==> self.items@[first_claim(
                    self.items@,
                    claim@,
                )].claim@ == claim@,
                forall|j: int|
                    0 <= j < first_claim(self.items@, claim@) ==> (#[trigger] self.items@[j]).claim@
                        != claim@,
            decreases self.items.len() - k,
        {
            if self.items[k].claim == wanted {
                assert(first_claim(self.items@, claim@) == k);
                return Ok(self.items[k].credible);
            }
            k = k + 1;
        }
        assert(first_claim(self.items@, claim@) == self.items@.len());
        Err(ComplianceError::NoSuchClaim(wanted))
    }
}

} // verus!
