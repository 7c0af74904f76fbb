use neuromorph_guard::capabilities::{CapabilityState, CapabilityTier};
use neuromorph_guard::deeds::{DeedEvent, DeedLedger, EthicsFlags, LifeHarmFlag};
use neuromorph_guard::reversal::{
    church_compensation_for_denial, DecisionReason, ReversalConditions, ReversalGate,
};
use neuromorph_guard::rights::{MorpheusError, NeurorightsLevel, RightsLedger, RightsLedgerEntry};
use neuromorph_guard::roles::{Role, RoleSet};

fn ppm(x: f64) -> i64 {
    (x * 1_000_000.0).round() as i64
}

fn full_quorum() -> RoleSet {
    RoleSet {
        roles: vec![
            Role::Host,
            Role::OrganicCpuOwner,
            Role::SovereignKernel,
            Role::Regulator,
            Role::Regulator,
        ],
        regulator_quorum_threshold: 2,
    }
}

fn satisfied() -> ReversalConditions {
    ReversalConditions {
        roh: ppm(0.4),
        decay: ppm(0.85),
        life_harm_flag: false,
        explicit_reversal_order: true,
        mitigations_exhausted: true,
    }
}

fn deed(delta: i64) -> DeedEvent {
    DeedEvent {
        id: "67e55044-10b1-426f-9247-bb680e5fe0c8".to_string(),
        timestamp: "2026-01-01T00:00:00+00:00".to_string(),
        actor: "host".to_string(),
        description: "deed".to_string(),
        ethics_flags: EthicsFlags {
            ethics_ok: true,
            life_harm_flag: LifeHarmFlag::Absent,
        },
        mp_delta: delta,
        reversal_proposed: false,
        reversal_granted: false,
    }
}

#[test]
fn scenario_quorum_satisfied() {
    let roles = full_quorum();
    assert!(roles.neuromorph_god_satisfied());
    assert!(roles.has_owner_signature());
    assert_eq!(roles.count_role(Role::Regulator), 2);
    assert_eq!(roles.count_role(Role::Host), 1);
}

#[test]
fn quorum_needs_every_fixed_role_and_enough_regulators() {
    for missing in [Role::Host, Role::OrganicCpuOwner, Role::SovereignKernel] {
        let mut roles = full_quorum();
        roles.roles.retain(|r| *r != missing);
        assert!(!roles.neuromorph_god_satisfied());
    }
    let mut roles = full_quorum();
    roles.regulator_quorum_threshold = 3;
    assert!(!roles.neuromorph_god_satisfied());
    roles.roles.push(Role::Regulator);
    assert!(roles.neuromorph_god_satisfied());
    roles.regulator_quorum_threshold = 0;
    roles.roles.retain(|r| *r != Role::Regulator);
    assert!(roles.neuromorph_god_satisfied());
    let empty = RoleSet { roles: vec![], regulator_quorum_threshold: 0 };
    assert!(!empty.neuromorph_god_satisfied());
    assert!(!empty.has_owner_signature());
    assert_eq!(empty.count_role(Role::Regulator), 0);
    let owner_only = RoleSet { roles: vec![Role::OrganicCpuOwner], regulator_quorum_threshold: 0 };
    assert!(owner_only.has_owner_signature());
    assert!(!owner_only.neuromorph_god_satisfied());
}

#[test]
fn scenario_life_harm_denies() {
    let mut cond = satisfied();
    cond.life_harm_flag = true;
    assert_eq!(
        ReversalGate::evaluate(&full_quorum(), &cond),
        DecisionReason::DeniedLifeHarmFlag
    );
    // the veto comes first even when nothing else holds
    let nothing = ReversalConditions {
        roh: 0,
        decay: 0,
        life_harm_flag: true,
        explicit_reversal_order: false,
        mitigations_exhausted: false,
    };
    let nobody = RoleSet { roles: vec![], regulator_quorum_threshold: 5 };
    assert_eq!(
        ReversalGate::evaluate(&nobody, &nothing),
        DecisionReason::DeniedLifeHarmFlag
    );
}

#[test]
fn scenario_emergency_granted() {
    assert_eq!(
        ReversalGate::evaluate(&full_quorum(), &satisfied()),
        DecisionReason::GrantedEmergency
    );
}

#[test]
fn reversal_checks_in_their_order() {
    let mut roles = full_quorum();
    roles.regulator_quorum_threshold = 3;
    let mut cond = satisfied();
    cond.explicit_reversal_order = false;
    cond.mitigations_exhausted = false;
    assert_eq!(
        ReversalGate::evaluate(&roles, &cond),
        DecisionReason::DeniedNeuromorphGodUnsatisfied
    );
    assert_eq!(
        ReversalGate::evaluate(&full_quorum(), &cond),
        DecisionReason::DeniedOwnerNotSigned
    );
    cond.explicit_reversal_order = true;
    assert_eq!(
        ReversalGate::evaluate(&full_quorum(), &cond),
        DecisionReason::DeniedNoSaferAlternativeNotProved
    );
}

#[test]
fn no_safer_alternative_thresholds() {
    assert!(satisfied().nosaferalternative());
    let mut c = satisfied();
    c.roh = ppm(0.3);
    assert!(!c.nosaferalternative());
    c.roh = 300_001;
    assert!(c.nosaferalternative());
    c.decay = ppm(0.8);
    assert!(!c.nosaferalternative());
    c.decay = 800_001;
    assert!(c.nosaferalternative());
    c.mitigations_exhausted = false;
    assert!(!c.nosaferalternative());
    assert_eq!(
        ReversalGate::evaluate(&full_quorum(), &c),
        DecisionReason::DeniedNoSaferAlternativeNotProved
    );
}

#[test]
fn compensation_is_the_debt_up_to_one() {
    assert_eq!(church_compensation_for_denial(ppm(-2.0)), 0);
    assert_eq!(church_compensation_for_denial(0), 0);
    assert_eq!(church_compensation_for_denial(ppm(0.4)), 400_000);
    assert_eq!(church_compensation_for_denial(ppm(1.0)), 1_000_000);
    assert_eq!(church_compensation_for_denial(ppm(7.5)), 1_000_000);
    assert_eq!(church_compensation_for_denial(i64::MAX), 1_000_000);
    assert_eq!(church_compensation_for_denial(i64::MIN), 0);
}

#[test]
fn scenario_ledger_rejects_reversal_entries() {
    let mut ledger = RightsLedger::new();
    assert_eq!(ledger.entries.len(), 0);
    let mut forbidden = RightsLedgerEntry::monotone_default(
        "subject",
        "statement",
        "2026-01-01T00:00:00Z".to_string(),
    );
    forbidden.allow_neuromorph_reversal = true;
    assert!(forbidden.is_reversal_allowed());
    match ledger.append(forbidden) {
        Err(MorpheusError::RightsViolation(m)) => {
            assert_eq!(m, "allow_neuromorph_reversal must remain false in Tier-1 ledger")
        }
        other => panic!("unexpected {:?}", other),
    }
    assert_eq!(ledger.entries.len(), 0);
    let allowed = RightsLedgerEntry::monotone_default(
        "subject",
        "statement",
        "2026-01-01T00:00:00Z".to_string(),
    );
    assert!(!allowed.is_reversal_allowed());
    assert!(ledger.append(allowed).is_ok());
    assert_eq!(ledger.entries.len(), 1);
}

#[test]
fn rights_ledger_keeps_order_and_history() {
    let mut ledger = RightsLedger::default();
    for label in ["a", "b", "c"] {
        let e = RightsLedgerEntry::with_subject_id(
            format!("id-{}", label),
            label,
            "s",
            "t".to_string(),
        );
        ledger.append(e).unwrap();
    }
    let mut bad = RightsLedgerEntry::with_subject_id("id-x".to_string(), "x", "s", "t".to_string());
    bad.allow_neuromorph_reversal = true;
    bad.immutable_neurorights_level = NeurorightsLevel::Tier3;
    assert!(ledger.append(bad).is_err());
    let labels: Vec<&str> = ledger.entries.iter().map(|e| e.subject.label.as_str()).collect();
    assert_eq!(labels, vec!["a", "b", "c"]);
    assert_eq!(ledger.entries[1].subject.id, "id-b");
}

#[test]
fn monotone_default_entry() {
    let e = RightsLedgerEntry::monotone_default("label", "said", "when".to_string());
    assert_eq!(e.subject.label, "label");
    assert_eq!(e.statement, "said");
    assert_eq!(e.timestamp_utc, "when");
    assert!(matches!(e.immutable_neurorights_level, NeurorightsLevel::Tier1));
    assert!(!e.allow_neuromorph_reversal);
    let id = e.subject.id.as_bytes();
    assert_eq!(id.len(), 36);
    for i in [8, 13, 18, 23] {
        assert_eq!(id[i], b'-');
    }
    assert_eq!(id[14], b'4');
    let other = RightsLedgerEntry::monotone_default("label", "said", "when".to_string());
    assert_ne!(other.subject.id, e.subject.id);
}

#[test]
fn rights_error_messages() {
    assert_eq!(MorpheusError::RightsViolation("x".to_string()).message(), "rights violation: x");
    assert_eq!(
        MorpheusError::CapabilityViolation("x".to_string()).message(),
        "capability violation: x"
    );
    assert_eq!(
        MorpheusError::ReversalForbidden("x".to_string()).message(),
        "reversal forbidden: x"
    );
    assert_eq!(MorpheusError::ParseError("x".to_string()).message(), "parsing error: x");
    assert_eq!(MorpheusError::LedgerError("x".to_string()).message(), "ledger error: x");
}

#[test]
fn deed_ledger_appends_and_totals() {
    let mut ledger = DeedLedger::new();
    assert_eq!(ledger.len(), 0);
    assert_eq!(ledger.all().len(), 0);
    assert_eq!(ledger.total_mp(), 0);
    ledger.append(deed(ppm(1.5)));
    ledger.append(deed(ppm(-0.25)));
    ledger.append(deed(ppm(2.0)));
    assert_eq!(ledger.len(), 3);
    let deltas: Vec<i64> = ledger.all().iter().map(|e| e.mp_delta).collect();
    assert_eq!(deltas, vec![1_500_000, -250_000, 2_000_000]);
    assert_eq!(ledger.total_mp(), 3_250_000);
    ledger.append(deed(i64::MAX));
    ledger.append(deed(i64::MAX));
    assert_eq!(ledger.total_mp(), 3_250_000i128 + 2 * (i64::MAX as i128));
    let mut low = DeedLedger::default();
    low.append(deed(i64::MIN));
    low.append(deed(i64::MIN));
    assert_eq!(low.total_mp(), 2 * (i64::MIN as i128));
}

#[test]
fn downgrade_needs_all_three_findings() {
    for bits in 0..8u8 {
        let f = neuromorph_guard::capabilities::ReversalConditions {
            neuromorph_god_satisfied: bits & 1 != 0,
            explicit_reversal_order: bits & 2 != 0,
            no_safer_alternative: bits & 4 != 0,
        };
        assert_eq!(f.permits_downgrade(), bits == 7);
    }
    let state = CapabilityState {
        tier: CapabilityTier::Stable,
        can_self_modify: false,
        can_request_transition: true,
    };
    assert!(matches!(state.tier, CapabilityTier::Stable));
}
