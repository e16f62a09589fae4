use scorton_core::compliance::{BCPStatus, IncidentMetrics};
use scorton_core::engine::{
    span_text, AssessmentDepth, Category, ComplianceConfig, ComplianceEngine,
    ComplianceFramework, Effort, Finding, Impact, Priority, Recommendation, ReportingFormat,
    Severity,
};
use scorton_core::model::TimeSpan;

fn config(dora: bool, nis2: bool) -> ComplianceConfig {
    ComplianceConfig {
        dora_enabled: dora,
        nis2_enabled: nis2,
        assessment_depth: AssessmentDepth::Quick,
        reporting_format: ReportingFormat::Markdown,
    }
}

fn metrics(reporting: TimeSpan) -> IncidentMetrics {
    IncidentMetrics {
        detection_time: TimeSpan::from_secs(900),
        response_time: TimeSpan::from_secs(3600),
        resolution_time: TimeSpan::from_secs(14_400),
        reporting_time: reporting,
        incidents_last_year: 3,
    }
}

fn continuity(plan_exists: bool) -> BCPStatus {
    BCPStatus {
        plan_exists,
        last_tested: None,
        recovery_time_objective: TimeSpan::from_secs(14_400),
        recovery_point_objective: TimeSpan::from_secs(3600),
        backup_frequency: "Daily".to_string(),
    }
}

fn assert_is_id(id: &str) {
    assert_eq!(id.len(), 36);
    for (i, c) in id.chars().enumerate() {
        if i == 8 || i == 13 || i == 18 || i == 23 {
            assert_eq!(c, '-');
        } else {
            assert!(c.is_ascii_digit() || ('a'..='f').contains(&c));
        }
    }
}

fn without_id(finding: &Finding) -> Finding {
    Finding { id: String::new(), ..finding.clone() }
}

#[test]
fn test_compliance_engine() {
    let config = ComplianceConfig::default();
    assert_eq!(
        config,
        ComplianceConfig {
            dora_enabled: true,
            nis2_enabled: true,
            assessment_depth: AssessmentDepth::Standard,
            reporting_format: ReportingFormat::Json,
        }
    );
    let engine = ComplianceEngine::new(config);
    assert_eq!(engine.config(), config);
    assert_eq!(engine.framework(), ComplianceFramework::Both);
    assert_eq!(engine.assessments(), 2);
}

#[test]
fn framework_follows_the_switches() {
    assert_eq!(ComplianceEngine::new(config(true, true)).framework(), ComplianceFramework::Both);
    assert_eq!(ComplianceEngine::new(config(true, false)).framework(), ComplianceFramework::DORA);
    assert_eq!(ComplianceEngine::new(config(false, true)).framework(), ComplianceFramework::NIS2);
    assert_eq!(ComplianceEngine::new(config(false, false)).framework(), ComplianceFramework::NIS2);
    assert_eq!(ComplianceEngine::new(config(true, false)).assessments(), 1);
    assert_eq!(ComplianceEngine::new(config(false, true)).assessments(), 1);
    assert_eq!(ComplianceEngine::new(config(false, false)).assessments(), 0);
}

#[test]
fn recommendations_are_converted_one_for_one() {
    let engine = ComplianceEngine::new(ComplianceConfig::default());
    let texts = vec!["Improve incident response procedures".to_string(), "B".to_string()];
    let dora = engine.convert_dora_recommendations(&texts);
    assert_eq!(dora.len(), 2);
    for (made, text) in dora.iter().zip(texts.iter()) {
        assert_is_id(&made.id);
        assert_eq!(
            Recommendation { id: String::new(), ..made.clone() },
            Recommendation {
                id: String::new(),
                title: text.clone(),
                description: format!("DORA compliance recommendation: {}", text),
                priority: Priority::High,
                effort: Effort::Medium,
                impact: Impact::High,
            }
        );
    }
    assert_ne!(dora[0].id, dora[1].id);
    let nis2 = engine.convert_nis2_recommendations(&texts);
    assert_eq!(nis2.len(), 2);
    assert_eq!(nis2[1].title, "B");
    assert_eq!(nis2[1].description, "NIS2 compliance recommendation: B");
    assert_eq!(nis2[0].priority, Priority::High);
    assert_eq!(nis2[0].effort, Effort::Medium);
    assert_eq!(nis2[0].impact, Impact::High);
    assert_eq!(engine.convert_dora_recommendations(&[]), vec![]);
}

#[test]
fn nis2_findings_for_a_sound_assessment() {
    let engine = ComplianceEngine::new(ComplianceConfig::default());
    let found = engine.convert_nis2_findings(&metrics(TimeSpan::from_secs(7200)), &continuity(true));
    assert_eq!(found, vec![]);
    let at_limit =
        engine.convert_nis2_findings(&metrics(TimeSpan::from_secs(86_400)), &continuity(true));
    assert_eq!(at_limit, vec![]);
}

#[test]
fn nis2_findings_for_late_reporting_and_a_missing_plan() {
    let engine = ComplianceEngine::new(ComplianceConfig::default());
    let late = TimeSpan::from_secs(90_000);
    let found = engine.convert_nis2_findings(&metrics(late), &continuity(false));
    assert_eq!(found.len(), 2);
    assert_is_id(&found[0].id);
    assert_is_id(&found[1].id);
    assert_eq!(
        without_id(&found[0]),
        Finding {
            id: String::new(),
            title: "Slow Incident Reporting".to_string(),
            description: "Incident reporting time exceeds NIS2 requirements".to_string(),
            severity: Severity::High,
            category: Category::Process,
            evidence: vec!["Reporting Time: 90000s".to_string()],
        }
    );
    assert_eq!(
        without_id(&found[1]),
        Finding {
            id: String::new(),
            title: "Missing Business Continuity Plan".to_string(),
            description: "No business continuity plan found".to_string(),
            severity: Severity::Critical,
            category: Category::Organizational,
            evidence: vec!["No BCP found".to_string()],
        }
    );
    let only_plan =
        engine.convert_nis2_findings(&metrics(TimeSpan::from_secs(1)), &continuity(false));
    assert_eq!(only_plan.len(), 1);
    assert_eq!(only_plan[0].title, "Missing Business Continuity Plan");
    let just_late = TimeSpan { secs: 86_400, nanos: 1 };
    let only_late = engine.convert_nis2_findings(&metrics(just_late), &continuity(true));
    assert_eq!(only_late.len(), 1);
    assert_eq!(only_late[0].evidence, vec!["Reporting Time: 86400.000000001s".to_string()]);
}

#[test]
fn span_text_is_the_debug_form_of_a_duration() {
    assert_eq!(span_text(&TimeSpan::from_secs(7200)), "7200s");
    assert_eq!(span_text(&TimeSpan::from_millis(1500)), "1.5s");
    assert_eq!(span_text(&TimeSpan::from_millis(100)), "100ms");
    assert_eq!(span_text(&TimeSpan { secs: 0, nanos: 0 }), "0ns");
    // Full seconds in the nanosecond part are carried over.
    assert_eq!(span_text(&TimeSpan { secs: 1, nanos: 2_500_000_000 }), "3.5s");
    assert_eq!(
        span_text(&TimeSpan { secs: u64::MAX, nanos: 1_000_000_000 }),
        format!("{}s", u64::MAX)
    );
}

#[test]
fn configuration_for_a_framework() {
    for framework in [ComplianceFramework::DORA, ComplianceFramework::NIS2, ComplianceFramework::Both] {
        let config = ComplianceConfig::for_framework(framework);
        assert_eq!(config.assessment_depth, AssessmentDepth::Standard);
        assert_eq!(config.reporting_format, ReportingFormat::Json);
        assert_eq!(ComplianceEngine::new(config).framework(), framework);
    }
    assert_eq!(ComplianceConfig::for_framework(ComplianceFramework::Both), ComplianceConfig::default());
    let dora = ComplianceConfig::for_framework(ComplianceFramework::DORA);
    assert!(dora.dora_enabled && !dora.nis2_enabled);
    let nis2 = ComplianceConfig::for_framework(ComplianceFramework::NIS2);
    assert!(!nis2.dora_enabled && nis2.nis2_enabled);
}
