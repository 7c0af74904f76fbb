//! The sovereignty contract that every operation runs under, and the
//! orchestrator that checks it before anything runs.

use vstd::prelude::*;
use vstd::string::*;

verus! {

/// What a participant has agreed to and keeps control of. The answers are
/// the implementation's own: nothing is assumed of them.
pub trait SovereignNeuromorphContract {
    /// Whether consent for this session or operation was given explicitly.
    fn has_explicit_consent(&self) -> bool;

    /// Whether the participant can abort or pause any operation alone.
    fn has_sovereign_abort_control(&self) -> bool;

    /// Whether downgrades and rollbacks of capabilities are forbidden.
    /// They are, unless an implementation answers otherwise.
    fn forbids_downgrade_or_rollback(&self) -> bool {
        true
    }

    /// Whether discipline is personalized and free of coercion.
    fn is_discipline_personalized_and_non_coercive(&self) -> bool;
}

/// The contract that is what its three answers say, and that always
/// forbids downgrades.
pub struct DefaultSovereignNeuromorphContract {
    explicit_consent: bool,
    sovereign_abort_control: bool,
    personalized_non_coercive_discipline: bool,
}

impl DefaultSovereignNeuromorphContract {
    /// Consent was given explicitly.
    pub closed spec fn consent(&self) -> bool {
        self.explicit_consent
    }

    /// The participant can abort or pause any operation alone.
    pub closed spec fn abort_control(&self) -> bool {
        self.sovereign_abort_control
    }

    /// Discipline is personalized and free of coercion.
    pub closed spec fn personalized(&self) -> bool {
        self.personalized_non_coercive_discipline
    }

    /// Builds the contract from its three answers.
    pub fn new(
        explicit_consent: bool,
        sovereign_abort_control: bool,
        personalized_non_coercive_discipline: bool,
    ) -> (c: Self)
        ensures
            c.consent() == explicit_consent,
            c.abort_control() == sovereign_abort_control,
            c.personalized() == personalized_non_coercive_discipline,
    {
        DefaultSovereignNeuromorphContract {
            explicit_consent,
            sovereign_abort_control,
            personalized_non_coercive_discipline,
        }
    }
}

impl SovereignNeuromorphContract for DefaultSovereignNeuromorphContract {
    fn has_explicit_consent(&self) -> (r: bool)
        ensures
            r == self.consent(),
    {
        self.explicit_consent
    }

    fn has_sovereign_abort_control(&self) -> (r: bool)
        ensures
            r == self.abort_control(),
    {
        self.sovereign_abort_control
    }

    fn forbids_downgrade_or_rollback(&self) -> (r: bool)
        ensures
            r,
    {
        true
    }

    fn is_discipline_personalized_and_non_coercive(&self) -> (r: bool)
        ensures
            r == self.personalized(),
    {
        self.personalized_non_coercive_discipline
    }
}

/// A condition that a contract must meet before an operation runs.
#[derive(Clone, Copy, Debug, PartialEq, Eq, Structural)]
pub enum SovereigntyCondition {
    ExplicitConsent,
    AbortControl,
    PersonalizedDiscipline,
    NoDowngrade,
}

impl SovereigntyCondition {
    /// The text of the error for a condition that is not met.
    pub open spec fn violation_text(&self) -> Seq<char> {
        match self {
            SovereigntyCondition::ExplicitConsent => "SNC violation: explicit consent required."@,
            SovereigntyCondition::AbortControl =>
                "SNC violation: sovereign abort control required."@,
            SovereigntyCondition::PersonalizedDiscipline =>
                "SNC violation: discipline must be personalized and non-coercive."@,
            SovereigntyCondition::NoDowngrade =>
                "SNC violation: downgrades/rollbacks are forbidden."@,
        }
    }

    /// The error for this condition when the contract's answer to it is
    /// `met`: none when it is met, else the text of the violation.
    pub fn violation(&self, met: bool) -> (r: Option<String>)
        ensures
            met ==> r is None,
            !met ==> r is Some && r->Some_0@ == self.violation_text(),
    {
        if met {
            return None;
        }
        match self {
            SovereigntyCondition::ExplicitConsent => Some(
                String::from_str("SNC violation: explicit consent required."),
            ),
            SovereigntyCondition::AbortControl => Some(
                String::from_str("SNC violation: sovereign abort control required."),
            ),
            SovereigntyCondition::PersonalizedDiscipline => Some(
                String::from_str("SNC violation: discipline must be personalized and non-coercive."),
            ),
            SovereigntyCondition::NoDowngrade => Some(
                String::from_str("SNC violation: downgrades/rollbacks are forbidden."),
            ),
        }
    }
}

/// Whether `contract` can answer `answer` when it is asked for `condition`.
pub open spec fn can_answer<C: SovereignNeuromorphContract>(
    contract: C,
    condition: SovereigntyCondition,
    answer: bool,
) -> bool {
    match condition {
        SovereigntyCondition::ExplicitConsent => call_ensures(
            C::has_explicit_consent,
            (&contract,),
            answer,
        ),
        SovereigntyCondition::AbortControl => call_ensures(
            C::has_sovereign_abort_control,
            (&contract,),
            answer,
        ),
        SovereigntyCondition::PersonalizedDiscipline => call_ensures(
            C::is_discipline_personalized_and_non_coercive,
            (&contract,),
            answer,
        ),
        SovereigntyCondition::NoDowngrade => call_ensures(
            C::forbids_downgrade_or_rollback,
            (&contract,),
            answer,
        ),
    }
}

/// Whether `contract` can meet all four conditions.
pub open spec fn answers_all<C: SovereignNeuromorphContract>(contract: C) -> bool {
    &&& can_answer(contract, SovereigntyCondition::ExplicitConsent, true)
    &&& can_answer(contract, SovereigntyCondition::AbortControl, true)
    &&& can_answer(contract, SovereigntyCondition::PersonalizedDiscipline, true)
    &&& can_answer(contract, SovereigntyCondition::NoDowngrade, true)
}

/// Whether `contract` can fail `condition` after meeting every condition
/// that is asked for before it.
pub open spec fn denies<C: SovereignNeuromorphContract>(
    contract: C,
    condition: SovereigntyCondition,
) -> bool {
    &&& can_answer(contract, condition, false)
    &&& condition != SovereigntyCondition::ExplicitConsent ==> can_answer(
        contract,
        SovereigntyCondition::ExplicitConsent,
        true,
    )
    &&& condition == SovereigntyCondition::PersonalizedDiscipline || condition
        == SovereigntyCondition::NoDowngrade ==> can_answer(
        contract,
        SovereigntyCondition::AbortControl,
        true,
    )
    &&& condition == SovereigntyCondition::NoDowngrade ==> can_answer(
        contract,
        SovereigntyCondition::PersonalizedDiscipline,
        true,
    )
}

/// Runs operations under a sovereignty contract.
pub struct NeuromorphOrchestrator<C: SovereignNeuromorphContract> {
    contract: C,
}

impl<C: SovereignNeuromorphContract> NeuromorphOrchestrator<C> {
    /// The contract that the orchestrator checks.
    pub closed spec fn contract(&self) -> C {
        self.contract
    }

    /// An orchestrator under `contract`.
    pub fn new(contract: C) -> (o: Self)
        ensures
            o.contract() == contract,
    {
        NeuromorphOrchestrator { contract }
    }

    /// Asks the contract for its answers, one at a time and in the fixed
    /// order, and stops at the first condition that is not met: the error
    /// is then the text of that violation and the operation does not run.
    /// When every condition is met the operation runs and its result is given.
    pub fn run_bootstrap<F, R>(&self, operation: F) -> (r: Result<R, String>) where
        F: FnOnce() -> R,

        requires
            operation.requires(()),
        ensures
            r is Ok ==> operation.ensures((), r->Ok_0) && answers_all(self.contract()),
            r is Err ==> exists|c: SovereigntyCondition|
                r->Err_0@ == c.violation_text() && denies(self.contract(), c),
    {
        match SovereigntyCondition::ExplicitConsent.violation(
            self.contract.has_explicit_consent(),
        ) {
            Some(e) => {
                return Err(e);
            },
            None => {},
        }
        match SovereigntyCondition::AbortControl.violation(
            self.contract.has_sovereign_abort_control(),
        ) {
            Some(e) => {
                return Err(e);
            },
            None => {},
        }
        match SovereigntyCondition::PersonalizedDiscipline.violation(
            self.contract.is_discipline_personalized_and_non_coercive(),
        ) {
            Some(e) => {
                return Err(e);
            },
            None => {},
        }
        match SovereigntyCondition::NoDowngrade.violation(
            self.contract.forbids_downgrade_or_rollback(),
        ) {
            Some(e) => {
                return Err(e);
            },
            None => {},
        }
        Ok(operation())
    }
}

} // verus!
