//! Compliance verdicts against fixed thresholds: the status that follows from
//! three checks, the recommendations that go with a status, and the measured
//! values that the checks read.
//!
//! Scores are compared by the caller; this module takes the result of such a
//! comparison as a `bool`.

use vstd::prelude::*;
use crate::clock::{clamp_instant, shift_instant, unix_now};
use crate::model::TimeSpan;
use crate::text::texts_of;

verus! {

/// The level of a risk.
#[derive(Debug, Clone, Copy, PartialEq, Eq, Structural)]
pub enum RiskLevel {
    Low,
    Medium,
    High,
    Critical,
}

/// How critical a vendor is.
#[derive(Debug, Clone, Copy, PartialEq, Eq, Structural)]
pub enum Criticality {
    Low,
    Medium,
    High,
    Critical,
}

/// The verdict of an assessment.
#[derive(Debug, Clone, Copy, PartialEq, Eq, Structural)]
pub enum ComplianceStatus {
    Compliant,
    PartiallyCompliant,
    NonCompliant,
    Unknown,
}

/// The assessed risk of one vendor. The date is in seconds since the Unix
/// epoch.
#[derive(Debug, Clone, PartialEq, Eq)]
pub struct ThirdPartyRisk {
    pub vendor_name: String,
    pub risk_level: RiskLevel,
    pub assessment_date: i64,
    pub criticality: Criticality,
}

/// How incidents were handled.
#[derive(Debug, Clone, Copy, PartialEq, Eq, Structural)]
pub struct IncidentMetrics {
    pub detection_time: TimeSpan,
    pub response_time: TimeSpan,
    pub resolution_time: TimeSpan,
    pub reporting_time: TimeSpan,
    pub incidents_last_year: u32,
}

/// The state of business continuity planning. The date of the last test is in
/// seconds since the Unix epoch.
#[derive(Debug, Clone, PartialEq, Eq)]
pub struct BCPStatus {
    pub plan_exists: bool,
    pub last_tested: Option<i64>,
    pub recovery_time_objective: TimeSpan,
    pub recovery_point_objective: TimeSpan,
    pub backup_frequency: String,
}

/// The thresholds of the DORA checks that are not scores.
#[derive(Debug, Clone, Copy, PartialEq, Eq, Structural)]
pub struct DORAThresholds {
    pub max_incident_response_time: TimeSpan,
    pub max_third_party_risk: RiskLevel,
}

/// The thresholds of the NIS2 checks that are not scores.
#[derive(Debug, Clone, Copy, PartialEq, Eq, Structural)]
pub struct NIS2Thresholds {
    pub max_incident_reporting_time: TimeSpan,
}

/// The thresholds of an assessor.
#[derive(Debug, Clone, Copy, PartialEq, Eq, Structural)]
pub struct ComplianceConfig {
    pub dora_thresholds: DORAThresholds,
    pub nis2_thresholds: NIS2Thresholds,
}

/// The seconds in the four hours within which DORA wants a response to an
/// incident.
pub const DORA_MAX_RESPONSE_SECS: u64 = 14_400;

/// The seconds in the twenty-four hours within which NIS2 wants an incident
/// reported.
pub const NIS2_MAX_REPORTING_SECS: u64 = 86_400;

/// The seconds in the thirty days since the continuity plan was last tested.
pub const LAST_TEST_AGE_SECS: i64 = 2_592_000;

impl Default for ComplianceConfig {
    /// Four hours to respond to an incident, third-party risk up to medium,
    /// twenty-four hours to report an incident.
    fn default() -> (config: ComplianceConfig)
        ensures
            config == (ComplianceConfig {
                dora_thresholds: DORAThresholds {
                    max_incident_response_time: TimeSpan { secs: DORA_MAX_RESPONSE_SECS, nanos: 0 },
                    max_third_party_risk: RiskLevel::Medium,
                },
                nis2_thresholds: NIS2Thresholds {
                    max_incident_reporting_time: TimeSpan {
                        secs: NIS2_MAX_REPORTING_SECS,
                        nanos: 0,
                    },
                },
            }),
    {
        ComplianceConfig {
            dora_thresholds: DORAThresholds {
                max_incident_response_time: TimeSpan::from_secs(DORA_MAX_RESPONSE_SECS),
                max_third_party_risk: RiskLevel::Medium,
            },
            nis2_thresholds: NIS2Thresholds {
                max_incident_reporting_time: TimeSpan::from_secs(NIS2_MAX_REPORTING_SECS),
            },
        }
    }
}

/// The verdict that follows from three checks: compliant if all pass, partly
/// compliant if some but not all pass, not compliant if none does.
pub open spec fn status_of(first: bool, second: bool, third: bool) -> ComplianceStatus {
    if first && second && third {
        ComplianceStatus::Compliant
    } else if first || second || third {
        ComplianceStatus::PartiallyCompliant
    } else {
        ComplianceStatus::NonCompliant
    }
}

/// Whether a risk level is high or critical.
pub open spec fn is_severe(level: RiskLevel) -> bool {
    level is High || level is Critical
}

/// Whether no vendor's risk is high or critical.
pub open spec fn no_severe_risk(risks: Seq<ThirdPartyRisk>) -> bool {
    forall|i: int| 0 <= i < risks.len() ==> !is_severe(#[trigger] risks[i].risk_level)
}

/// Whether no vendor's risk is high or critical.
pub fn third_party_ok(risks: &[ThirdPartyRisk]) -> (ok: bool)
    ensures
        ok == no_severe_risk(risks@),
{
    let mut i: usize = 0;
    while i < risks.len()
        invariant
            i <= risks.len(),
            forall|k: int| 0 <= k < i ==> !is_severe(#[trigger] risks@[k].risk_level),
        decreases risks.len() - i,
    {
        match risks[i].risk_level {
            RiskLevel::High | RiskLevel::Critical => {
                return false;
            },
            _ => {},
        }
        i += 1;
    }
    true
}

/// The DORA verdict for a response time held against `max_response_time`, the
/// vendors' risks, and the caller's comparison of the resilience score with
/// its threshold.
pub open spec fn dora_status(
    incident_response_time: TimeSpan,
    max_response_time: TimeSpan,
    risks: Seq<ThirdPartyRisk>,
    resilience_ok: bool,
) -> ComplianceStatus {
    status_of(
        incident_response_time.total_nanos() <= max_response_time.total_nanos(),
        resilience_ok,
        no_severe_risk(risks),
    )
}

/// The NIS2 verdict for a reporting time held against `max_reporting_time`,
/// the continuity plan (it passes if it exists and was tested), and the
/// caller's comparison of the supply-chain score with its threshold.
pub open spec fn nis2_status(
    incident_handling: IncidentMetrics,
    max_reporting_time: TimeSpan,
    business_continuity: BCPStatus,
    supply_chain_ok: bool,
) -> ComplianceStatus {
    status_of(
        incident_handling.reporting_time.total_nanos() <= max_reporting_time.total_nanos(),
        business_continuity.plan_exists && business_continuity.last_tested is Some,
        supply_chain_ok,
    )
}

/// The verdict that follows from three checks.
fn decide(first: bool, second: bool, third: bool) -> (status: ComplianceStatus)
    ensures
        status == status_of(first, second, third),
{
    if first && second && third {
        ComplianceStatus::Compliant
    } else if first || second || third {
        ComplianceStatus::PartiallyCompliant
    } else {
        ComplianceStatus::NonCompliant
    }
}

/// The DORA verdict against the fixed threshold of four hours.
pub fn determine_dora_compliance_status(
    incident_response_time: &TimeSpan,
    third_party_risks: &[ThirdPartyRisk],
    resilience_ok: bool,
) -> (status: ComplianceStatus)
    ensures
        status == dora_status(
            *incident_response_time,
            TimeSpan { secs: DORA_MAX_RESPONSE_SECS, nanos: 0 },
            third_party_risks@,
            resilience_ok,
        ),
{
    let max = TimeSpan::from_secs(DORA_MAX_RESPONSE_SECS);
    decide(incident_response_time.at_most(&max), resilience_ok, third_party_ok(third_party_risks))
}

/// The NIS2 verdict against the fixed threshold of twenty-four hours. The
/// risk level has no part in it.
pub fn determine_nis2_compliance_status(
    risk_level: &RiskLevel,
    incident_handling: &IncidentMetrics,
    business_continuity: &BCPStatus,
    supply_chain_ok: bool,
) -> (status: ComplianceStatus)
    ensures
        status == nis2_status(
            *incident_handling,
            TimeSpan { secs: NIS2_MAX_REPORTING_SECS, nanos: 0 },
            *business_continuity,
            supply_chain_ok,
        ),
{
    let max = TimeSpan::from_secs(NIS2_MAX_REPORTING_SECS);
    decide(
        incident_handling.reporting_time.at_most(&max),
        business_continuity.plan_exists && business_continuity.last_tested.is_some(),
        supply_chain_ok,
    )
}

/// The recommendations that go with a DORA verdict.
pub open spec fn dora_recommendations(status: ComplianceStatus) -> Seq<Seq<char>> {
    match status {
        ComplianceStatus::Compliant => seq!["Maintain current compliance posture"@],
        ComplianceStatus::PartiallyCompliant => seq![
            "Improve incident response procedures"@,
            "Enhance third-party risk management"@,
            "Strengthen operational resilience"@,
        ],
        ComplianceStatus::NonCompliant => seq![
            "Implement comprehensive ICT risk management framework"@,
            "Establish incident response team and procedures"@,
            "Conduct third-party risk assessments"@,
            "Develop business continuity plans"@,
        ],
        ComplianceStatus::Unknown => seq!["Conduct comprehensive compliance assessment"@],
    }
}

/// The recommendations that go with a NIS2 verdict.
pub open spec fn nis2_recommendations(status: ComplianceStatus) -> Seq<Seq<char>> {
    match status {
        ComplianceStatus::Compliant => seq!["Maintain current compliance posture"@],
        ComplianceStatus::PartiallyCompliant => seq![
            "Improve incident reporting procedures"@,
            "Enhance business continuity planning"@,
            "Strengthen supply chain security"@,
        ],
        ComplianceStatus::NonCompliant => seq![
            "Implement comprehensive risk management system"@,
            "Establish incident handling procedures"@,
            "Develop business continuity plans"@,
            "Conduct supply chain security assessments"@,
        ],
        ComplianceStatus::Unknown => seq!["Conduct comprehensive compliance assessment"@],
    }
}

/// The recommendations that go with a DORA verdict.
pub fn generate_dora_recommendations(status: &ComplianceStatus) -> (list: Vec<String>)
    ensures
        texts_of(list@) == dora_recommendations(*status),
{
    let mut list: Vec<String> = Vec::new();
    match status {
        ComplianceStatus::Compliant => {
            list.push("Maintain current compliance posture".to_string());
        },
        ComplianceStatus::PartiallyCompliant => {
            list.push("Improve incident response procedures".to_string());
            list.push("Enhance third-party risk management".to_string());
            list.push("Strengthen operational resilience".to_string());
        },
        ComplianceStatus::NonCompliant => {
            list.push("Implement comprehensive ICT risk management framework".to_string());
            list.push("Establish incident response team and procedures".to_string());
            list.push("Conduct third-party risk assessments".to_string());
            list.push("Develop business continuity plans".to_string());
        },
        ComplianceStatus::Unknown => {
            list.push("Conduct comprehensive compliance assessment".to_string());
        },
    }
    assert(texts_of(list@) =~= dora_recommendations(*status));
    list
}

/// The recommendations that go with a NIS2 verdict.
pub fn generate_nis2_recommendations(status: &ComplianceStatus) -> (list: Vec<String>)
    ensures
        texts_of(list@) == nis2_recommendations(*status),
{
    let mut list: Vec<String> = Vec::new();
    match status {
        ComplianceStatus::Compliant => {
            list.push("Maintain current compliance posture".to_string());
        },
        ComplianceStatus::PartiallyCompliant => {
            list.push("Improve incident reporting procedures".to_string());
            list.push("Enhance business continuity planning".to_string());
            list.push("Strengthen supply chain security".to_string());
        },
        ComplianceStatus::NonCompliant => {
            list.push("Implement comprehensive risk management system".to_string());
            list.push("Establish incident handling procedures".to_string());
            list.push("Develop business continuity plans".to_string());
            list.push("Conduct supply chain security assessments".to_string());
        },
        ComplianceStatus::Unknown => {
            list.push("Conduct comprehensive compliance assessment".to_string());
        },
    }
    assert(texts_of(list@) =~= nis2_recommendations(*status));
    list
}

/// The response time to incidents that every assessment reports: two hours.
/// Nothing is measured.
pub fn measure_incident_response_time() -> (time: TimeSpan)
    ensures
        time == (TimeSpan { secs: 7_200, nanos: 0 }),
{
    TimeSpan::from_secs(7_200)
}

/// The vendor risks that an assessment made at the instant `now` reports: one
/// cloud provider of medium risk and high criticality, assessed at that
/// instant. No vendor is examined.
pub fn third_party_risks_at(now: i64) -> (risks: Vec<ThirdPartyRisk>)
    ensures
        risks@.len() == 1,
        risks@[0].vendor_name@ == "Cloud Provider"@,
        risks@[0].risk_level == RiskLevel::Medium,
        risks@[0].assessment_date == now,
        risks@[0].criticality == Criticality::High,
        no_severe_risk(risks@),
{
    let mut risks: Vec<ThirdPartyRisk> = Vec::new();
    risks.push(
        ThirdPartyRisk {
            vendor_name: "Cloud Provider".to_string(),
            risk_level: RiskLevel::Medium,
            assessment_date: now,
            criticality: Criticality::High,
        },
    );
    risks
}

/// The vendor risks that an assessment made now reports: what
/// [`third_party_risks_at`] states, for the instant that the system clock
/// shows.
pub fn assess_third_party_risks() -> (risks: Vec<ThirdPartyRisk>)
    ensures
        risks@.len() == 1,
        risks@[0].vendor_name@ == "Cloud Provider"@,
        risks@[0].risk_level == RiskLevel::Medium,
        risks@[0].criticality == Criticality::High,
        no_severe_risk(risks@),
{
    third_party_risks_at(unix_now())
}

/// The risk level that every NIS2 assessment reports: medium.
pub fn assess_nis2_risk_level() -> (level: RiskLevel)
    ensures
        level == RiskLevel::Medium,
{
    RiskLevel::Medium
}

/// The incident metrics that every assessment reports: detection in fifteen
/// minutes, response in one hour, resolution in four, reporting in two, three
/// incidents in the last year. Nothing is measured.
pub fn assess_incident_handling() -> (metrics: IncidentMetrics)
    ensures
        metrics == (IncidentMetrics {
            detection_time: TimeSpan { secs: 900, nanos: 0 },
            response_time: TimeSpan { secs: 3_600, nanos: 0 },
            resolution_time: TimeSpan { secs: 14_400, nanos: 0 },
            reporting_time: TimeSpan { secs: 7_200, nanos: 0 },
            incidents_last_year: 3,
        }),
{
    IncidentMetrics {
        detection_time: TimeSpan::from_secs(900),
        response_time: TimeSpan::from_secs(3_600),
        resolution_time: TimeSpan::from_secs(14_400),
        reporting_time: TimeSpan::from_secs(7_200),
        incidents_last_year: 3,
    }
}

/// The continuity status that an assessment made at the instant `now`
/// reports: a plan exists, was tested thirty days before, recovers within
/// four hours to a point at most one hour back, and backups are daily.
pub fn business_continuity_at(now: i64) -> (status: BCPStatus)
    ensures
        status.plan_exists,
        status.last_tested == Some(clamp_instant(now - LAST_TEST_AGE_SECS) as i64),
        status.recovery_time_objective == (TimeSpan { secs: 14_400, nanos: 0 }),
        status.recovery_point_objective == (TimeSpan { secs: 3_600, nanos: 0 }),
        status.backup_frequency@ == "Daily"@,
{
    BCPStatus {
        plan_exists: true,
        last_tested: Some(shift_instant(now, -LAST_TEST_AGE_SECS)),
        recovery_time_objective: TimeSpan::from_secs(14_400),
        recovery_point_objective: TimeSpan::from_secs(3_600),
        backup_frequency: "Daily".to_string(),
    }
}

/// The continuity status that an assessment made now reports: what
/// [`business_continuity_at`] states, for the instant that the system clock
/// shows.
pub fn assess_business_continuity() -> (status: BCPStatus)
    ensures
        status.plan_exists,
        status.last_tested is Some,
        status.recovery_time_objective == (TimeSpan { secs: 14_400, nanos: 0 }),
        status.recovery_point_objective == (TimeSpan { secs: 3_600, nanos: 0 }),
        status.backup_frequency@ == "Daily"@,
{
    business_continuity_at(unix_now())
}

/// Holds measured values against configured thresholds.
pub struct ComplianceAssessor {
    config: ComplianceConfig,
}

impl ComplianceAssessor {
    /// An assessor with the given thresholds.
    pub fn new(config: ComplianceConfig) -> (assessor: ComplianceAssessor)
        ensures
            assessor.spec_config() == config,
    {
        ComplianceAssessor { config }
    }

    /// The thresholds of this assessor.
    pub closed spec fn spec_config(&self) -> ComplianceConfig {
        self.config
    }

    /// The thresholds of this assessor.
    pub fn config(&self) -> (config: ComplianceConfig)
        ensures
            config == self.spec_config(),
    {
        self.config
    }

    /// The DORA verdict against this assessor's threshold for the response
    /// time.
    pub fn determine_dora_compliance_status(
        &self,
        incident_response_time: &TimeSpan,
        third_party_risks: &[ThirdPartyRisk],
        resilience_ok: bool,
    ) -> (status: ComplianceStatus)
        ensures
            status == dora_status(
                *incident_response_time,
                self.spec_config().dora_thresholds.max_incident_response_time,
                third_party_risks@,
                resilience_ok,
            ),
    {
        decide(
            incident_response_time.at_most(&self.config.dora_thresholds.max_incident_response_time),
            resilience_ok,
            third_party_ok(third_party_risks),
        )
    }

    /// The NIS2 verdict against this assessor's threshold for the reporting
    /// time. The risk level has no part in it.
    pub fn determine_nis2_compliance_status(
        &self,
        risk_level: &RiskLevel,
        incident_handling: &IncidentMetrics,
        business_continuity: &BCPStatus,
        supply_chain_ok: bool,
    ) -> (status: ComplianceStatus)
        ensures
            status == nis2_status(
                *incident_handling,
                self.spec_config().nis2_thresholds.max_incident_reporting_time,
                *business_continuity,
                supply_chain_ok,
            ),
    {
        decide(
            incident_handling.reporting_time.at_most(
                &self.config.nis2_thresholds.max_incident_reporting_time,
            ),
            business_continuity.plan_exists && business_continuity.last_tested.is_some(),
            supply_chain_ok,
        )
    }

    /// The recommendations that go with a DORA verdict.
    pub fn generate_dora_recommendations(&self, status: &ComplianceStatus) -> (list: Vec<String>)
        ensures
            texts_of(list@) == dora_recommendations(*status),
    {
        generate_dora_recommendations(status)
    }

    /// The recommendations that go with a NIS2 verdict.
    pub fn generate_nis2_recommendations(&self, status: &ComplianceStatus) -> (list: Vec<String>)
        ensures
            texts_of(list@) == nis2_recommendations(*status),
    {
        generate_nis2_recommendations(status)
    }
}

/// A verdict is never `Unknown`, and it is compliant exactly when all three
/// checks pass.
pub proof fn lemma_status_of_total(first: bool, second: bool, third: bool)
    ensures
        status_of(first, second, third) != ComplianceStatus::Unknown,
        status_of(first, second, third) == ComplianceStatus::Compliant <==> (first && second
            && third),
        status_of(first, second, third) == ComplianceStatus::NonCompliant <==> (!first && !second
            && !third),
{
}

} // verus!
