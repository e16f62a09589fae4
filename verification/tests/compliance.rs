use scorton_core::compliance::{
    assess_business_continuity, assess_incident_handling, assess_nis2_risk_level,
    assess_third_party_risks, business_continuity_at, determine_dora_compliance_status,
    determine_nis2_compliance_status, generate_dora_recommendations,
    generate_nis2_recommendations, measure_incident_response_time, third_party_ok,
    third_party_risks_at, BCPStatus, ComplianceAssessor, ComplianceConfig, ComplianceStatus,
    Criticality, DORAThresholds, IncidentMetrics, NIS2Thresholds, RiskLevel, ThirdPartyRisk,
    DORA_MAX_RESPONSE_SECS, NIS2_MAX_REPORTING_SECS,
};
use scorton_core::model::TimeSpan;

fn hours(n: u64) -> TimeSpan {
    TimeSpan::from_secs(n * 3600)
}

fn vendor(level: RiskLevel) -> ThirdPartyRisk {
    ThirdPartyRisk {
        vendor_name: "Vendor".to_string(),
        risk_level: level,
        assessment_date: 1_700_000_000,
        criticality: Criticality::Low,
    }
}

fn metrics(reporting: TimeSpan) -> IncidentMetrics {
    IncidentMetrics {
        detection_time: TimeSpan::from_secs(900),
        response_time: hours(1),
        resolution_time: hours(4),
        reporting_time: reporting,
        incidents_last_year: 3,
    }
}

fn continuity(plan_exists: bool, last_tested: Option<i64>) -> BCPStatus {
    BCPStatus {
        plan_exists,
        last_tested,
        recovery_time_objective: hours(4),
        recovery_point_objective: hours(1),
        backup_frequency: "Daily".to_string(),
    }
}

fn texts(values: &[&str]) -> Vec<String> {
    values.iter().map(|v| v.to_string()).collect()
}

#[test]
fn default_thresholds() {
    assert_eq!(DORA_MAX_RESPONSE_SECS, 4 * 3600);
    assert_eq!(NIS2_MAX_REPORTING_SECS, 24 * 3600);
    assert_eq!(
        ComplianceConfig::default(),
        ComplianceConfig {
            dora_thresholds: DORAThresholds {
                max_incident_response_time: hours(4),
                max_third_party_risk: RiskLevel::Medium,
            },
            nis2_thresholds: NIS2Thresholds { max_incident_reporting_time: hours(24) },
        }
    );
}

#[test]
fn third_party_check() {
    assert!(third_party_ok(&[]));
    assert!(third_party_ok(&[vendor(RiskLevel::Low), vendor(RiskLevel::Medium)]));
    assert!(!third_party_ok(&[vendor(RiskLevel::Low), vendor(RiskLevel::High)]));
    assert!(!third_party_ok(&[vendor(RiskLevel::Critical), vendor(RiskLevel::Low)]));
}

#[test]
fn dora_status_for_each_number_of_passing_checks() {
    let fine = [vendor(RiskLevel::Medium)];
    let risky = [vendor(RiskLevel::High)];
    assert_eq!(
        determine_dora_compliance_status(&hours(2), &fine, true),
        ComplianceStatus::Compliant
    );
    assert_eq!(
        determine_dora_compliance_status(&hours(2), &fine, false),
        ComplianceStatus::PartiallyCompliant
    );
    assert_eq!(
        determine_dora_compliance_status(&hours(5), &risky, true),
        ComplianceStatus::PartiallyCompliant
    );
    assert_eq!(
        determine_dora_compliance_status(&hours(5), &fine, false),
        ComplianceStatus::PartiallyCompliant
    );
    assert_eq!(
        determine_dora_compliance_status(&hours(5), &risky, false),
        ComplianceStatus::NonCompliant
    );
}

#[test]
fn dora_response_time_boundary() {
    let fine = [vendor(RiskLevel::Low)];
    assert_eq!(
        determine_dora_compliance_status(&hours(4), &fine, true),
        ComplianceStatus::Compliant
    );
    let just_over = TimeSpan { secs: 4 * 3600, nanos: 1 };
    assert_eq!(
        determine_dora_compliance_status(&just_over, &fine, true),
        ComplianceStatus::PartiallyCompliant
    );
}

#[test]
fn nis2_status_for_each_number_of_passing_checks() {
    let level = RiskLevel::Critical;
    let good = continuity(true, Some(0));
    assert_eq!(
        determine_nis2_compliance_status(&level, &metrics(hours(2)), &good, true),
        ComplianceStatus::Compliant
    );
    assert_eq!(
        determine_nis2_compliance_status(&level, &metrics(hours(24)), &good, true),
        ComplianceStatus::Compliant
    );
    assert_eq!(
        determine_nis2_compliance_status(&level, &metrics(hours(25)), &good, true),
        ComplianceStatus::PartiallyCompliant
    );
    // A plan that was never tested does not pass.
    assert_eq!(
        determine_nis2_compliance_status(&level, &metrics(hours(2)), &continuity(true, None), true),
        ComplianceStatus::PartiallyCompliant
    );
    // Nor does a test without a plan.
    assert_eq!(
        determine_nis2_compliance_status(
            &level,
            &metrics(hours(25)),
            &continuity(false, Some(0)),
            false
        ),
        ComplianceStatus::NonCompliant
    );
}

#[test]
fn assessor_uses_its_own_thresholds() {
    let config = ComplianceConfig {
        dora_thresholds: DORAThresholds {
            max_incident_response_time: hours(1),
            max_third_party_risk: RiskLevel::Low,
        },
        nis2_thresholds: NIS2Thresholds { max_incident_reporting_time: hours(1) },
    };
    let assessor = ComplianceAssessor::new(config);
    assert_eq!(assessor.config(), config);
    let fine = [vendor(RiskLevel::Low)];
    assert_eq!(
        assessor.determine_dora_compliance_status(&hours(2), &fine, true),
        ComplianceStatus::PartiallyCompliant
    );
    assert_eq!(
        assessor.determine_dora_compliance_status(&hours(1), &fine, true),
        ComplianceStatus::Compliant
    );
    assert_eq!(
        assessor.determine_nis2_compliance_status(
            &RiskLevel::Low,
            &metrics(hours(2)),
            &continuity(true, Some(1)),
            true
        ),
        ComplianceStatus::PartiallyCompliant
    );
}

#[test]
fn recommendations_for_each_status() {
    assert_eq!(
        generate_dora_recommendations(&ComplianceStatus::Compliant),
        texts(&["Maintain current compliance posture"])
    );
    assert_eq!(
        generate_dora_recommendations(&ComplianceStatus::PartiallyCompliant),
        texts(&[
            "Improve incident response procedures",
            "Enhance third-party risk management",
            "Strengthen operational resilience",
        ])
    );
    assert_eq!(
        generate_dora_recommendations(&ComplianceStatus::NonCompliant),
        texts(&[
            "Implement comprehensive ICT risk management framework",
            "Establish incident response team and procedures",
            "Conduct third-party risk assessments",
            "Develop business continuity plans",
        ])
    );
    assert_eq!(
        generate_dora_recommendations(&ComplianceStatus::Unknown),
        texts(&["Conduct comprehensive compliance assessment"])
    );
    assert_eq!(
        generate_nis2_recommendations(&ComplianceStatus::Compliant),
        texts(&["Maintain current compliance posture"])
    );
    assert_eq!(
        generate_nis2_recommendations(&ComplianceStatus::PartiallyCompliant),
        texts(&[
            "Improve incident reporting procedures",
            "Enhance business continuity planning",
            "Strengthen supply chain security",
        ])
    );
    assert_eq!(
        generate_nis2_recommendations(&ComplianceStatus::NonCompliant),
        texts(&[
            "Implement comprehensive risk management system",
            "Establish incident handling procedures",
            "Develop business continuity plans",
            "Conduct supply chain security assessments",
        ])
    );
    assert_eq!(
        generate_nis2_recommendations(&ComplianceStatus::Unknown),
        texts(&["Conduct comprehensive compliance assessment"])
    );
    let assessor = ComplianceAssessor::new(ComplianceConfig::default());
    assert_eq!(
        assessor.generate_dora_recommendations(&ComplianceStatus::Compliant),
        generate_dora_recommendations(&ComplianceStatus::Compliant)
    );
    assert_eq!(
        assessor.generate_nis2_recommendations(&ComplianceStatus::NonCompliant),
        generate_nis2_recommendations(&ComplianceStatus::NonCompliant)
    );
}

#[test]
fn reported_values() {
    assert_eq!(measure_incident_response_time(), hours(2));
    assert_eq!(assess_nis2_risk_level(), RiskLevel::Medium);
    assert_eq!(assess_incident_handling(), metrics(hours(2)));
    assert_eq!(
        third_party_risks_at(42),
        vec![ThirdPartyRisk {
            vendor_name: "Cloud Provider".to_string(),
            risk_level: RiskLevel::Medium,
            assessment_date: 42,
            criticality: Criticality::High,
        }]
    );
    assert_eq!(
        business_continuity_at(1_700_000_000),
        continuity(true, Some(1_700_000_000 - 30 * 86_400))
    );
    assert_eq!(business_continuity_at(i64::MIN + 1).last_tested, Some(i64::MIN));
}

#[test]
fn dora_test_dora_assessment() {
    let risks = assess_third_party_risks();
    assert_eq!(risks.len(), 1);
    assert!(risks[0].assessment_date > 1_600_000_000);
    let status = determine_dora_compliance_status(&measure_incident_response_time(), &risks, true);
    assert_eq!(status, ComplianceStatus::Compliant);
}

#[test]
fn nis2_test_nis2_assessment() {
    let continuity = assess_business_continuity();
    assert!(continuity.plan_exists);
    assert!(continuity.last_tested.unwrap() > 1_600_000_000 - 30 * 86_400);
    let status = determine_nis2_compliance_status(
        &assess_nis2_risk_level(),
        &assess_incident_handling(),
        &continuity,
        true,
    );
    assert_eq!(status, ComplianceStatus::Compliant);
}

#[test]
fn test_compliance_assessor() {
    let config = ComplianceConfig::default();
    let assessor = ComplianceAssessor::new(config);

    let dora = assessor.determine_dora_compliance_status(
        &measure_incident_response_time(),
        &assess_third_party_risks(),
        true,
    );
    assert_eq!(dora, ComplianceStatus::Compliant);

    let nis2 = assessor.determine_nis2_compliance_status(
        &assess_nis2_risk_level(),
        &assess_incident_handling(),
        &assess_business_continuity(),
        true,
    );
    assert_eq!(nis2, ComplianceStatus::Compliant);
}

#[test]
fn compliance_test_dora_assessment() {
    let config = ComplianceConfig::default();
    let assessor = ComplianceAssessor::new(config);
    let status = assessor.determine_dora_compliance_status(
        &measure_incident_response_time(),
        &assess_third_party_risks(),
        true,
    );
    assert_eq!(status, ComplianceStatus::Compliant);
    assert_eq!(
        assessor.generate_dora_recommendations(&status),
        texts(&["Maintain current compliance posture"])
    );
}

#[test]
fn compliance_test_nis2_assessment() {
    let config = ComplianceConfig::default();
    let assessor = ComplianceAssessor::new(config);
    let status = assessor.determine_nis2_compliance_status(
        &assess_nis2_risk_level(),
        &assess_incident_handling(),
        &assess_business_continuity(),
        false,
    );
    assert_eq!(status, ComplianceStatus::PartiallyCompliant);
    assert_eq!(assessor.generate_nis2_recommendations(&status).len(), 3);
}
