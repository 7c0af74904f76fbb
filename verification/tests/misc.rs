use neuromorph_guard::aln::{ParsedRoleKind, ReversalPermission, ReversalPolicyProfile, ReversalSettings};
use neuromorph_guard::compliance::{ComplianceError, ComplianceVerification};
use neuromorph_guard::config::{ConfigError, PriorityLevel, ProviderConfig};
use neuromorph_guard::contract::{
    DefaultSovereignNeuromorphContract, NeuromorphOrchestrator, SovereignNeuromorphContract,
    SovereigntyCondition,
};
use neuromorph_guard::regulatory::{lower_limit, RegulatoryLimits};
use neuromorph_guard::sim::{
    apply_mitigation, nosaferalternative, reproject_non_reversal, EnvelopeSnapshot, Mitigation,
};
use neuromorph_guard::snc::{CorridorId, CorridorTier};

fn ppm(x: f64) -> i64 {
    (x * 1_000_000.0).round() as i64
}

fn snapshot() -> EnvelopeSnapshot {
    EnvelopeSnapshot {
        roh: ppm(0.35),
        decay: ppm(0.85),
        lifeforce: ppm(0.5),
        power: ppm(0.5),
        tech: ppm(0.95),
        nano: ppm(0.75),
        smart: ppm(0.85),
    }
}

fn invalid_detail(r: Result<(), ConfigError>) -> String {
    match r {
        Err(ConfigError::Invalid(m)) => m,
        other => panic!("unexpected {:?}", other),
    }
}

#[test]
fn default_config_is_valid() {
    let cfg = ProviderConfig::default();
    cfg.validate().unwrap();
}

#[test]
fn default_config_values() {
    let cfg = ProviderConfig::default();
    assert_eq!(cfg.provider, "morpheus_gpt");
    assert_eq!(cfg.api_key_ref, "morpheus://neuromorph/sovereign-access");
    assert_eq!(cfg.model, "Morpheus_GPT_Neuromorph_v1");
    assert_eq!(cfg.temperature, ppm(0.7));
    assert_eq!(cfg.max_tokens, 2048);
    assert_eq!(cfg.top_p, ppm(1.0));
    assert_eq!(cfg.frequency_penalty, 0);
    assert_eq!(cfg.presence_penalty, 0);
    assert!(matches!(cfg.priority, PriorityLevel::Force));
    assert_eq!(cfg.context, "neuromorph-free-knowledge-and-freedom-to-exist");
    assert_eq!(
        cfg.compliance,
        vec!["GDPR", "SOC2", "ISO27001", "18 U.S.C. \u{a7} 1030", "NeuroRights-Charter", "ALN/KYC/DID"]
    );
    assert_eq!(
        cfg.security,
        vec!["AES-256-GCM", "QuantumLedger-Compatible", "Googolswarm-Ownership-Proof"]
    );
}

#[test]
fn config_validation_errors_in_order() {
    let mut cfg = ProviderConfig::default();
    cfg.max_tokens = 0;
    assert_eq!(invalid_detail(cfg.validate()), "max_tokens must be > 0");
    cfg.top_p = 0;
    assert_eq!(invalid_detail(cfg.validate()), "top_p out of range");
    cfg.top_p = 1_000_001;
    assert_eq!(invalid_detail(cfg.validate()), "top_p out of range");
    cfg.temperature = -1;
    assert_eq!(invalid_detail(cfg.validate()), "temperature out of range");
    cfg.temperature = 1_000_001;
    assert_eq!(invalid_detail(cfg.validate()), "temperature out of range");
    let mut edge = ProviderConfig::default();
    edge.temperature = 0;
    edge.top_p = 1;
    edge.max_tokens = 1;
    assert!(edge.validate().is_ok());
    edge.temperature = 1_000_000;
    assert!(edge.validate().is_ok());
    assert_eq!(
        ConfigError::Invalid("x".to_string()).message(),
        "invalid configuration: x"
    );
    assert_eq!(ConfigError::Serde("x".to_string()).message(), "serialization error: x");
}

#[test]
fn compliance_baseline_and_credibility() {
    let v = ComplianceVerification::new_neuromorph_baseline();
    assert_eq!(v.items.len(), 3);
    assert_eq!(v.items[0].claim, "GDPR, SOC2, ISO27001");
    assert_eq!(v.items[1].claim, "18 U.S.C. \u{e22}\u{e07} 1030");
    assert_eq!(v.items[2].claim, "NeuroRights-Charter");
    assert!(v.items[0].found_in_registry);
    assert!(v.items[1].found_in_registry);
    assert!(!v.items[2].found_in_registry);
    assert_eq!(
        v.items[0].comments,
        "Standard data-protection and security baselines for Morpheus_GPT."
    );
    assert_eq!(
        v.items[1].comments,
        "Ensures authorized access, logging, and safe cybernetic operations."
    );
    assert_eq!(
        v.items[2].comments,
        "Protects neuromorphic lifeforms' freedom-to-exist and consent boundaries."
    );
    for item in &v.items {
        assert!(item.industry_best_practice);
        assert!(item.credible);
        assert_eq!(item.id.len(), 36);
        assert_eq!(item.created_at, v.items[0].created_at);
        assert!(item.created_at.len() >= 25);
        assert!(item.created_at.contains('T'));
        assert!(item.created_at.ends_with("+00:00"));
    }
    assert_ne!(v.items[0].id, v.items[1].id);
    assert_eq!(v.is_credible("NeuroRights-Charter").unwrap(), true);
    match v.is_credible("HIPAA") {
        Err(ComplianceError::NoSuchClaim(c)) => assert_eq!(c, "HIPAA"),
        other => panic!("unexpected {:?}", other),
    }
    assert_eq!(
        ComplianceError::NoSuchClaim("HIPAA".to_string()).message(),
        "no such claim: HIPAA"
    );
}

#[test]
fn credibility_is_that_of_the_first_matching_claim() {
    let mut v = ComplianceVerification::baseline_with(
        "a".to_string(),
        "b".to_string(),
        "c".to_string(),
        "t".to_string(),
    );
    assert_eq!(v.items[1].id, "b");
    assert_eq!(v.items[2].created_at, "t");
    let mut again = v.items[2].clone();
    again.credible = false;
    v.items.push(again);
    assert_eq!(v.is_credible("NeuroRights-Charter").unwrap(), true);
    v.items[2].credible = false;
    v.items[3].credible = true;
    assert_eq!(v.is_credible("NeuroRights-Charter").unwrap(), false);
    let empty = ComplianceVerification { items: vec![] };
    assert!(empty.is_credible("").is_err());
}

#[test]
fn orchestrator_runs_only_under_a_full_contract() {
    let full = NeuromorphOrchestrator::new(DefaultSovereignNeuromorphContract::new(true, true, true));
    assert_eq!(full.run_bootstrap(|| 0u8), Ok(0u8));
    assert_eq!(full.run_bootstrap(|| "ran".to_string()), Ok("ran".to_string()));
    let cases = [
        (false, true, true, "SNC violation: explicit consent required."),
        (false, false, false, "SNC violation: explicit consent required."),
        (true, false, true, "SNC violation: sovereign abort control required."),
        (true, false, false, "SNC violation: sovereign abort control required."),
        (
            true,
            true,
            false,
            "SNC violation: discipline must be personalized and non-coercive.",
        ),
    ];
    for (consent, abort, personalized, text) in cases {
        let o = NeuromorphOrchestrator::new(DefaultSovereignNeuromorphContract::new(
            consent,
            abort,
            personalized,
        ));
        let mut ran = false;
        let r = o.run_bootstrap(|| {
            ran = true;
            1u8
        });
        assert_eq!(r, Err(text.to_string()));
        assert!(!ran);
    }
}

#[test]
fn default_contract_answers() {
    let c = DefaultSovereignNeuromorphContract::new(true, false, true);
    assert!(c.has_explicit_consent());
    assert!(!c.has_sovereign_abort_control());
    assert!(c.is_discipline_personalized_and_non_coercive());
    assert!(c.forbids_downgrade_or_rollback());
}

#[test]
fn strictest_regulatory_limit() {
    let limits = RegulatoryLimits { epa: Some(ppm(4.0)), eu: Some(ppm(2.0)), who: Some(ppm(2.0)) };
    assert_eq!(limits.supreme().value, Some(2_000_000));
    let one = RegulatoryLimits { epa: None, eu: None, who: Some(ppm(3.5)) };
    assert_eq!(one.supreme().value, Some(3_500_000));
    let none = RegulatoryLimits { epa: None, eu: None, who: None };
    assert_eq!(none.supreme().value, None);
    let negative = RegulatoryLimits { epa: Some(-5), eu: None, who: Some(0) };
    assert_eq!(negative.supreme().value, Some(-5));
    assert_eq!(lower_limit(None, None), None);
    assert_eq!(lower_limit(Some(1), None), Some(1));
    assert_eq!(lower_limit(None, Some(2)), Some(2));
    assert_eq!(lower_limit(Some(3), Some(2)), Some(2));
    assert_eq!(lower_limit(Some(2), Some(3)), Some(2));
}

#[test]
fn mitigations_one_by_one() {
    let s = snapshot();
    assert_eq!(apply_mitigation(s, &Mitigation::TightenEnvelopes).roh, 280_000);
    assert_eq!(apply_mitigation(s, &Mitigation::PauseOperations).decay, 750_000);
    assert_eq!(apply_mitigation(s, &Mitigation::InduceRest).lifeforce, 650_000);
    let same = apply_mitigation(s, &Mitigation::Custom("x".to_string()));
    assert_eq!(same.roh, s.roh);
    assert_eq!(same.decay, s.decay);
    assert_eq!(same.lifeforce, s.lifeforce);
    let odd = EnvelopeSnapshot { roh: 7, ..s };
    assert_eq!(apply_mitigation(odd, &Mitigation::TightenEnvelopes).roh, 5);
    let negative = EnvelopeSnapshot { roh: -7, ..s };
    assert_eq!(apply_mitigation(negative, &Mitigation::TightenEnvelopes).roh, -5);
    let low = EnvelopeSnapshot { decay: i64::MIN + 5, ..s };
    assert_eq!(apply_mitigation(low, &Mitigation::PauseOperations).decay, i64::MIN);
    let high = EnvelopeSnapshot { lifeforce: i64::MAX - 5, ..s };
    assert_eq!(apply_mitigation(high, &Mitigation::InduceRest).lifeforce, i64::MAX);
    let huge = EnvelopeSnapshot { roh: i64::MAX, ..s };
    assert_eq!(
        apply_mitigation(huge, &Mitigation::TightenEnvelopes).roh,
        ((i64::MAX as i128) * 4 / 5) as i64
    );
}

#[test]
fn projection_under_mitigations() {
    let s = snapshot();
    assert!(nosaferalternative(&s));
    let (p, safe) = reproject_non_reversal(&s, &[]);
    assert_eq!(p.roh, 350_000);
    assert_eq!(p.power, 900_000);
    assert_eq!(p.tech, 950_000);
    assert!(!safe);
    let (p, safe) = reproject_non_reversal(
        &s,
        &[
            Mitigation::TightenEnvelopes,
            Mitigation::PauseOperations,
            Mitigation::InduceRest,
            Mitigation::Custom("note".to_string()),
        ],
    );
    assert_eq!(p.roh, 280_000);
    assert_eq!(p.decay, 750_000);
    assert_eq!(p.lifeforce, 650_000);
    assert_eq!(p.power, 900_000);
    assert!(safe);
    let (p, _) = reproject_non_reversal(
        &s,
        &[Mitigation::TightenEnvelopes, Mitigation::TightenEnvelopes],
    );
    assert_eq!(p.roh, 224_000);
    let weak = EnvelopeSnapshot { nano: ppm(0.7), ..s };
    let (p, safe) = reproject_non_reversal(&weak, &[Mitigation::TightenEnvelopes]);
    assert_eq!(p.roh, 280_000);
    assert_eq!(p.power, 500_000);
    assert!(!safe);
    let weak = EnvelopeSnapshot { smart: ppm(0.8), ..s };
    assert!(!reproject_non_reversal(&weak, &[Mitigation::TightenEnvelopes]).1);
    let at_limit = EnvelopeSnapshot { roh: ppm(0.3), ..s };
    assert!(!nosaferalternative(&at_limit));
    assert!(reproject_non_reversal(&at_limit, &[]).1);
}

#[test]
fn role_kind_from_values() {
    assert!(matches!(
        ParsedRoleKind::from_values(vec!["HOST", "NEUROMORPH_GOD"]),
        ParsedRoleKind::NeuromorphGod
    ));
    match ParsedRoleKind::from_values(vec!["HOST", "REGULATOR", "x"]) {
        ParsedRoleKind::Custom(name) => assert_eq!(name, "HOST,REGULATOR,x"),
        other => panic!("unexpected {:?}", other),
    }
    match ParsedRoleKind::from_values(vec!["neuromorph_god"]) {
        ParsedRoleKind::Custom(name) => assert_eq!(name, "neuromorph_god"),
        other => panic!("unexpected {:?}", other),
    }
    match ParsedRoleKind::from_values(vec![]) {
        ParsedRoleKind::Custom(name) => assert_eq!(name, ""),
        other => panic!("unexpected {:?}", other),
    }
    match ParsedRoleKind::from_values(vec!["", ""]) {
        ParsedRoleKind::Custom(name) => assert_eq!(name, ","),
        other => panic!("unexpected {:?}", other),
    }
    let policy = ReversalPolicyProfile {
        settings: ReversalSettings { permission: ReversalPermission::DisallowNeuromorphReversal },
    };
    assert!(matches!(
        policy.settings.permission,
        ReversalPermission::DisallowNeuromorphReversal
    ));
}

#[test]
fn corridor_identifiers_compare_by_parts() {
    let a = CorridorId {
        tier: CorridorTier::Tribal,
        code: "tribal.gric-epa-2024".to_string(),
        version: "1.0.0".to_string(),
    };
    let b = CorridorId { tier: CorridorTier::State, ..a.clone() };
    assert_eq!(a, a.clone());
    assert_ne!(a, b);
}

struct PermissiveContract;

impl SovereignNeuromorphContract for PermissiveContract {
    fn has_explicit_consent(&self) -> bool {
        true
    }

    fn has_sovereign_abort_control(&self) -> bool {
        true
    }

    fn forbids_downgrade_or_rollback(&self) -> bool {
        false
    }

    fn is_discipline_personalized_and_non_coercive(&self) -> bool {
        true
    }
}

struct CountingContract {
    asked: std::cell::Cell<u32>,
}

impl SovereignNeuromorphContract for CountingContract {
    fn has_explicit_consent(&self) -> bool {
        self.asked.set(self.asked.get() + 1);
        true
    }

    fn has_sovereign_abort_control(&self) -> bool {
        self.asked.set(self.asked.get() + 1);
        false
    }

    fn is_discipline_personalized_and_non_coercive(&self) -> bool {
        self.asked.set(self.asked.get() + 1);
        true
    }
}

#[test]
fn contract_forbids_downgrades_unless_it_says_otherwise() {
    let c = CountingContract { asked: std::cell::Cell::new(0) };
    assert!(c.forbids_downgrade_or_rollback());
    assert_eq!(c.asked.get(), 0);
    let o = NeuromorphOrchestrator::new(c);
    assert_eq!(
        o.run_bootstrap(|| 1u8),
        Err("SNC violation: sovereign abort control required.".to_string())
    );
}

#[test]
fn violations_by_condition() {
    let all = [
        (SovereigntyCondition::ExplicitConsent, "SNC violation: explicit consent required."),
        (SovereigntyCondition::AbortControl, "SNC violation: sovereign abort control required."),
        (
            SovereigntyCondition::PersonalizedDiscipline,
            "SNC violation: discipline must be personalized and non-coercive.",
        ),
        (SovereigntyCondition::NoDowngrade, "SNC violation: downgrades/rollbacks are forbidden."),
    ];
    for (condition, text) in all {
        assert_eq!(condition.violation(true), None);
        assert_eq!(condition.violation(false), Some(text.to_string()));
    }
}

#[test]
fn orchestrator_refuses_a_contract_that_permits_downgrades() {
    let o = NeuromorphOrchestrator::new(PermissiveContract);
    assert_eq!(
        o.run_bootstrap(|| 1u8),
        Err("SNC violation: downgrades/rollbacks are forbidden.".to_string())
    );
}
