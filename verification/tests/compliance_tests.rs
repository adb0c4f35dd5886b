use erc8040_core::ComplianceResult;
use erc8040_core::ComplianceRule;
use erc8040_core::ComplianceStatus;
use erc8040_core::ComplianceValidator;
use erc8040_core::ESGScore;
use erc8040_core::Jurisdiction;
use erc8040_core::RegulatoryFramework;
use erc8040_core::RuleCategory;
use erc8040_core::Severity;

const NOW: i64 = 1_700_000_000;
const DAY: i64 = 86_400;

fn rule_with(
    effective_from: i64,
    effective_until: Option<i64>,
    required_esg_rating: Option<String>,
) -> ComplianceRule {
    ComplianceRule {
        id: "TEST-001".to_string(),
        framework: RegulatoryFramework::EuSfdr,
        jurisdiction: Jurisdiction::EU,
        category: RuleCategory::EsgDisclosure,
        severity: Severity::High,
        description: "Test rule".to_string(),
        effective_from,
        effective_until,
        required_esg_rating,
    }
}

#[test]
fn test_regulatory_framework_name() {
    assert_eq!(RegulatoryFramework::EuSfdr.name(), "EU SFDR");
    assert_eq!(RegulatoryFramework::Basel.name(), "Basel");
}

#[test]
fn test_jurisdiction_code() {
    assert_eq!(Jurisdiction::EU.code(), "EU");
    assert_eq!(Jurisdiction::US.code(), "US");
    assert_eq!(Jurisdiction::Global.code(), "GLOBAL");
}

#[test]
fn test_custom_framework_and_jurisdiction_names() {
    assert_eq!(RegulatoryFramework::Custom(42).name(), "Custom-42");
    assert_eq!(RegulatoryFramework::Custom(0).name(), "Custom-0");
    assert_eq!(Jurisdiction::Custom(7).code(), "CUSTOM-7");
    assert_eq!(Jurisdiction::Custom(1_000_000).code(), "CUSTOM-1000000");
}

#[test]
fn test_compliance_rule_is_effective() {
    let rule = rule_with(NOW - 10 * DAY, Some(NOW + 10 * DAY), None);
    assert!(rule.is_effective(NOW));
    assert!(!rule.is_effective(NOW - 20 * DAY));
    assert!(!rule.is_effective(NOW + 20 * DAY));
}

#[test]
fn test_effective_bounds_inclusive() {
    let rule = rule_with(NOW - 10 * DAY, Some(NOW + 10 * DAY), None);
    assert!(rule.is_effective(NOW - 10 * DAY));
    assert!(rule.is_effective(NOW + 10 * DAY));
    assert!(!rule.is_effective(NOW + 10 * DAY + 1));
    let open_ended = rule_with(NOW, None, None);
    assert!(open_ended.is_effective(NOW + 10_000 * DAY));
}

#[test]
fn test_compliance_rule_applies_to() {
    let rule = rule_with(NOW, None, None);
    assert!(rule.applies_to(Jurisdiction::EU));
    assert!(!rule.applies_to(Jurisdiction::US));

    let global_rule = ComplianceRule { jurisdiction: Jurisdiction::Global, ..rule };
    assert!(global_rule.applies_to(Jurisdiction::EU));
    assert!(global_rule.applies_to(Jurisdiction::US));
}

#[test]
fn test_compliance_status_as_str() {
    assert_eq!(ComplianceStatus::Compliant.as_str(), "Compliant");
    assert_eq!(ComplianceStatus::NonCompliant.as_str(), "Non-Compliant");
}

#[test]
fn test_compliance_validator() {
    let mut validator = ComplianceValidator::new();

    let rule = ComplianceRule {
        id: "SFDR-001".to_string(),
        framework: RegulatoryFramework::EuSfdr,
        jurisdiction: Jurisdiction::EU,
        category: RuleCategory::EsgDisclosure,
        severity: Severity::High,
        description: "Minimum ESG rating required".to_string(),
        effective_from: NOW,
        effective_until: None,
        required_esg_rating: Some("BBB".to_string()),
    };

    validator.add_rule(rule);

    let esg_score = ESGScore::new(85_000, 80_000, 75_000);
    let results = validator.validate_esg(
        &esg_score,
        Jurisdiction::EU,
        RegulatoryFramework::EuSfdr,
        RuleCategory::EsgDisclosure,
        NOW,
    );

    assert_eq!(results.len(), 1);
    assert_eq!(results[0].status, ComplianceStatus::Compliant);
}

#[test]
fn test_overall_status() {
    let validator = ComplianceValidator::new();

    let results = vec![
        ComplianceResult::new("R1".to_string(), ComplianceStatus::Compliant, "OK".to_string()),
        ComplianceResult::new("R2".to_string(), ComplianceStatus::Compliant, "OK".to_string()),
    ];

    assert_eq!(validator.overall_status(&results), ComplianceStatus::Compliant);

    let results_non_compliant = vec![
        ComplianceResult::new("R1".to_string(), ComplianceStatus::Compliant, "OK".to_string()),
        ComplianceResult::new("R2".to_string(), ComplianceStatus::NonCompliant, "Failed".to_string()),
    ];

    assert_eq!(
        validator.overall_status(&results_non_compliant),
        ComplianceStatus::NonCompliant
    );
}

#[test]
fn test_rule_in_effect_compliant_scenario() {
    // A rule effective around now, requiring BBB, checked against an
    // A-rated score at now: Compliant.
    let mut validator = ComplianceValidator::new();
    validator.add_rule(rule_with(NOW - 10 * DAY, Some(NOW + 10 * DAY), Some("BBB".to_string())));
    let esg_score = ESGScore::new(85_000, 80_000, 75_000);
    assert_eq!(esg_score.rating, erc8040_core::ESGRating::A);
    let results = validator.validate_esg(
        &esg_score,
        Jurisdiction::EU,
        RegulatoryFramework::EuSfdr,
        RuleCategory::EsgDisclosure,
        NOW,
    );
    assert_eq!(results.len(), 1);
    assert_eq!(results[0].status, ComplianceStatus::Compliant);
    assert_eq!(results[0].message, "ESG rating A meets requirement");
    assert_eq!(results[0].checked_at, NOW);
}

#[test]
fn test_rule_past_expiry_not_applicable() {
    // The same rule evaluated 20 days later, past its expiry: the verdict
    // is NotApplicable and the message names the non-effectiveness.
    let mut validator = ComplianceValidator::new();
    validator.add_rule(rule_with(NOW - 10 * DAY, Some(NOW + 10 * DAY), Some("BBB".to_string())));
    let esg_score = ESGScore::new(85_000, 80_000, 75_000);
    let results = validator.validate_esg(
        &esg_score,
        Jurisdiction::EU,
        RegulatoryFramework::EuSfdr,
        RuleCategory::EsgDisclosure,
        NOW + 20 * DAY,
    );
    assert_eq!(results.len(), 1);
    assert_eq!(results[0].status, ComplianceStatus::NotApplicable);
    assert_eq!(results[0].message, "Rule not currently effective");
}

#[test]
fn test_noncompliant_message_and_no_requirement() {
    let mut validator = ComplianceValidator::new();
    validator.add_rule(rule_with(NOW, None, Some("BBB".to_string())));
    validator.add_rule(rule_with(NOW, None, None));
    // 65 points rate BB, below the required BBB.
    let esg_score = ESGScore::new(65_000, 65_000, 65_000);
    let results = validator.validate_esg(
        &esg_score,
        Jurisdiction::EU,
        RegulatoryFramework::EuSfdr,
        RuleCategory::EsgDisclosure,
        NOW,
    );
    assert_eq!(results.len(), 2);
    assert_eq!(results[0].status, ComplianceStatus::NonCompliant);
    assert_eq!(results[0].message, "ESG rating BB does not meet requirement of BBB");
    assert_eq!(results[1].status, ComplianceStatus::NotApplicable);
    assert_eq!(results[1].message, "No ESG rating requirement");
}

#[test]
fn test_low_band_requirement_tokens() {
    // A required rating of "CCC" names CCC itself: a CC-rated score falls
    // short of it, while a CCC-rated score satisfies it.
    let mut validator = ComplianceValidator::new();
    validator.add_rule(rule_with(NOW, None, Some("CCC".to_string())));
    // 35 points rate CC.
    let cc_score = ESGScore::new(35_000, 35_000, 35_000);
    assert_eq!(cc_score.rating, erc8040_core::ESGRating::CC);
    let results = validator.validate_esg(
        &cc_score,
        Jurisdiction::EU,
        RegulatoryFramework::EuSfdr,
        RuleCategory::EsgDisclosure,
        NOW,
    );
    assert_eq!(results[0].status, ComplianceStatus::NonCompliant);
    assert_eq!(results[0].message, "ESG rating CC does not meet requirement of CCC");
    // 45 points rate CCC.
    let ccc_score = ESGScore::new(45_000, 45_000, 45_000);
    let results = validator.validate_esg(
        &ccc_score,
        Jurisdiction::EU,
        RegulatoryFramework::EuSfdr,
        RuleCategory::EsgDisclosure,
        NOW,
    );
    assert_eq!(results[0].status, ComplianceStatus::Compliant);
}

#[test]
fn test_add_rules_keeps_order() {
    let mut validator = ComplianceValidator::new();
    let mut first = rule_with(NOW, None, Some("AAA".to_string()));
    first.id = "R1".to_string();
    let mut second = rule_with(NOW, None, Some("B".to_string()));
    second.id = "R2".to_string();
    validator.add_rules(vec![first, second]);
    let esg_score = ESGScore::new(65_000, 65_000, 65_000);
    let results = validator.validate_all(
        &esg_score,
        Jurisdiction::EU,
        RegulatoryFramework::EuSfdr,
        RuleCategory::EsgDisclosure,
        NOW,
    );
    assert_eq!(results.len(), 2);
    assert_eq!(results[0].rule_id, "R1");
    assert_eq!(results[0].status, ComplianceStatus::NonCompliant);
    assert_eq!(results[1].rule_id, "R2");
    assert_eq!(results[1].status, ComplianceStatus::Compliant);
}

#[test]
fn test_aggregation_noncompliant_dominates() {
    // One NonCompliant next to one Compliant aggregates to NonCompliant,
    // whatever the order and however many satisfied rules stand around it.
    let validator = ComplianceValidator::new();
    let compliant =
        || ComplianceResult::new("C".to_string(), ComplianceStatus::Compliant, "OK".to_string());
    let non_compliant = || {
        ComplianceResult::new("N".to_string(), ComplianceStatus::NonCompliant, "KO".to_string())
    };
    let set_a = vec![non_compliant(), compliant()];
    let set_b = vec![compliant(), non_compliant()];
    let set_c = vec![compliant(), compliant(), non_compliant(), compliant()];
    assert_eq!(validator.overall_status(&set_a), ComplianceStatus::NonCompliant);
    assert_eq!(validator.overall_status(&set_b), ComplianceStatus::NonCompliant);
    assert_eq!(validator.overall_status(&set_c), ComplianceStatus::NonCompliant);
}

#[test]
fn test_aggregation_priority_order() {
    let validator = ComplianceValidator::new();
    let with = |status: ComplianceStatus| {
        ComplianceResult::new("R".to_string(), status, "msg".to_string())
    };
    let pending_set = vec![
        with(ComplianceStatus::Compliant),
        with(ComplianceStatus::PartiallyCompliant),
        with(ComplianceStatus::Pending),
    ];
    assert_eq!(validator.overall_status(&pending_set), ComplianceStatus::Pending);
    let partial_set = vec![
        with(ComplianceStatus::Compliant),
        with(ComplianceStatus::PartiallyCompliant),
    ];
    assert_eq!(validator.overall_status(&partial_set), ComplianceStatus::PartiallyCompliant);
    let empty_set: Vec<ComplianceResult> = vec![];
    assert_eq!(validator.overall_status(&empty_set), ComplianceStatus::NotApplicable);
    let na_set = vec![with(ComplianceStatus::NotApplicable)];
    assert_eq!(validator.overall_status(&na_set), ComplianceStatus::NotApplicable);
}
