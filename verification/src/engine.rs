//! The compliance engine: which frameworks an assessment covers, and the
//! turning of assessment output into findings and recommendations with fresh
//! identifiers.

use vstd::prelude::*;
use crate::compliance::{BCPStatus, IncidentMetrics, NIS2_MAX_REPORTING_SECS};
pub use crate::compliance::ComplianceStatus;
use crate::model::TimeSpan;

verus! {

/// The frameworks that a report covers.
#[derive(Debug, Clone, Copy, PartialEq, Eq, Structural)]
pub enum ComplianceFramework {
    DORA,
    NIS2,
    Both,
}

/// How severe a finding is.
#[derive(Debug, Clone, Copy, PartialEq, Eq, Structural)]
pub enum Severity {
    Low,
    Medium,
    High,
    Critical,
}

/// The area that a finding belongs to.
#[derive(Debug, Clone, Copy, PartialEq, Eq, Structural)]
pub enum Category {
    Technical,
    Organizational,
    Process,
    Legal,
}

/// How urgent a recommendation is.
#[derive(Debug, Clone, Copy, PartialEq, Eq, Structural)]
pub enum Priority {
    Low,
    Medium,
    High,
    Critical,
}

/// How much work a recommendation takes.
#[derive(Debug, Clone, Copy, PartialEq, Eq, Structural)]
pub enum Effort {
    Low,
    Medium,
    High,
}

/// How much a recommendation changes.
#[derive(Debug, Clone, Copy, PartialEq, Eq, Structural)]
pub enum Impact {
    Low,
    Medium,
    High,
}

/// How deep an assessment goes.
#[derive(Debug, Clone, Copy, PartialEq, Eq, Structural)]
pub enum AssessmentDepth {
    Quick,
    Standard,
    Deep,
}

/// The format of a report.
#[derive(Debug, Clone, Copy, PartialEq, Eq, Structural)]
pub enum ReportingFormat {
    Json,
    Markdown,
    Pdf,
}

/// A finding of an assessment.
#[derive(Debug, Clone, PartialEq, Eq)]
pub struct Finding {
    pub id: String,
    pub title: String,
    pub description: String,
    pub severity: Severity,
    pub category: Category,
    pub evidence: Vec<String>,
}

/// What a [`Finding`] says, without its identifier.
pub struct FindingContent {
    pub title: Seq<char>,
    pub description: Seq<char>,
    pub severity: Severity,
    pub category: Category,
    pub evidence: Seq<Seq<char>>,
}

impl Finding {
    /// What this finding says.
    pub open spec fn content(self) -> FindingContent {
        FindingContent {
            title: self.title@,
            description: self.description@,
            severity: self.severity,
            category: self.category,
            evidence: self.evidence@.map_values(|e: String| e@),
        }
    }
}

/// A recommendation of an assessment.
#[derive(Debug, Clone, PartialEq, Eq)]
pub struct Recommendation {
    pub id: String,
    pub title: String,
    pub description: String,
    pub priority: Priority,
    pub effort: Effort,
    pub impact: Impact,
}

/// What a [`Recommendation`] says, without its identifier.
pub struct RecommendationContent {
    pub title: Seq<char>,
    pub description: Seq<char>,
    pub priority: Priority,
    pub effort: Effort,
    pub impact: Impact,
}

impl Recommendation {
    /// What this recommendation says.
    pub open spec fn content(self) -> RecommendationContent {
        RecommendationContent {
            title: self.title@,
            description: self.description@,
            priority: self.priority,
            effort: self.effort,
            impact: self.impact,
        }
    }
}

/// The configuration of an engine.
#[derive(Debug, Clone, Copy, PartialEq, Eq, Structural)]
pub struct ComplianceConfig {
    pub dora_enabled: bool,
    pub nis2_enabled: bool,
    pub assessment_depth: AssessmentDepth,
    pub reporting_format: ReportingFormat,
}

impl Default for ComplianceConfig {
    /// Both frameworks, standard depth, JSON.
    fn default() -> (config: ComplianceConfig)
        ensures
            config == (ComplianceConfig {
                dora_enabled: true,
                nis2_enabled: true,
                assessment_depth: AssessmentDepth::Standard,
                reporting_format: ReportingFormat::Json,
            }),
    {
        ComplianceConfig {
            dora_enabled: true,
            nis2_enabled: true,
            assessment_depth: AssessmentDepth::Standard,
            reporting_format: ReportingFormat::Json,
        }
    }
}

/// The configuration that assesses exactly the given frameworks, at standard
/// depth and with JSON reports.
pub open spec fn config_for(framework: ComplianceFramework) -> ComplianceConfig {
    ComplianceConfig {
        dora_enabled: framework != ComplianceFramework::NIS2,
        nis2_enabled: framework != ComplianceFramework::DORA,
        assessment_depth: AssessmentDepth::Standard,
        reporting_format: ReportingFormat::Json,
    }
}

/// The frameworks that a report under `config` covers: both if both are
/// enabled, DORA if it alone is, else NIS2.
pub open spec fn framework_of(config: ComplianceConfig) -> ComplianceFramework {
    if config.dora_enabled && config.nis2_enabled {
        ComplianceFramework::Both
    } else if config.dora_enabled {
        ComplianceFramework::DORA
    } else {
        ComplianceFramework::NIS2
    }
}

/// A configuration made for a framework reports on that framework.
pub proof fn lemma_config_for_framework(framework: ComplianceFramework)
    ensures
        framework_of(config_for(framework)) == framework,
{
}

impl ComplianceConfig {
    /// The configuration that assesses exactly the given frameworks.
    pub fn for_framework(framework: ComplianceFramework) -> (config: ComplianceConfig)
        ensures
            config == config_for(framework),
    {
        let (dora_enabled, nis2_enabled) = match framework {
            ComplianceFramework::DORA => (true, false),
            ComplianceFramework::NIS2 => (false, true),
            ComplianceFramework::Both => (true, true),
        };
        ComplianceConfig {
            dora_enabled,
            nis2_enabled,
            assessment_depth: AssessmentDepth::Standard,
            reporting_format: ReportingFormat::Json,
        }
    }
}

/// The form of an identifier: thirty-six characters, hyphens at the four
/// places that split them into groups of 8, 4, 4, 4 and 12, and lower-case
/// hexadecimal digits everywhere else.
pub open spec fn is_hyphenated_id(id: Seq<char>) -> bool {
    &&& id.len() == 36
    &&& forall|i: int|
        0 <= i < 36 ==> {
            let c = #[trigger] id[i];
            if i == 8 || i == 13 || i == 18 || i == 23 {
                c == '-'
            } else {
                ('0' <= c && c <= '9') || ('a' <= c && c <= 'f')
            }
        }
}

/// `uuid::Uuid::new_v4` followed by the identifier's `Display`. Trusted: the
/// text is a random identifier in hyphenated lower-case form. Which one is
/// not said: two calls differ.
#[verifier::external_body]
fn fresh_id() -> (id: String)
    ensures
        is_hyphenated_id(id@),
{
    uuid::Uuid::new_v4().to_string()
}

/// The text that the `Debug` form of `std::time::Duration` gives for a
/// duration of `secs` seconds and `nanos` nanoseconds.
pub uninterp spec fn duration_debug_text(secs: u64, nanos: u32) -> Seq<char>;

/// `Duration::new` followed by the `Debug` form of the duration. Trusted: the
/// text depends on the two numbers alone. With less than a second in `nanos`
/// the construction carries nothing over and cannot overflow.
#[verifier::external_body]
fn duration_debug(secs: u64, nanos: u32) -> (text: String)
    requires
        nanos < 1_000_000_000,
    ensures
        text@ == duration_debug_text(secs, nanos),
{
    format!("{:?}", std::time::Duration::new(secs, nanos))
}

/// The whole seconds of a span once full seconds in its nanosecond part are
/// carried over, at most the largest number of seconds that fits.
pub open spec fn carried_secs(span: TimeSpan) -> u64 {
    let total = span.secs as int + span.nanos as int / 1_000_000_000;
    if total > u64::MAX {
        u64::MAX
    } else {
        total as u64
    }
}

/// The nanosecond part of a span once its full seconds are carried over.
pub open spec fn carried_nanos(span: TimeSpan) -> u32 {
    (span.nanos as int % 1_000_000_000) as u32
}

/// The `Debug` text of a span read as a duration.
pub fn span_text(span: &TimeSpan) -> (text: String)
    ensures
        text@ == duration_debug_text(carried_secs(*span), carried_nanos(*span)),
{
    let carry: u64 = (span.nanos / 1_000_000_000) as u64;
    let secs: u64 = if span.secs > u64::MAX - carry {
        u64::MAX
    } else {
        span.secs + carry
    };
    let nanos: u32 = span.nanos % 1_000_000_000;
    duration_debug(secs, nanos)
}

/// What the recommendation made from the text `text` says: the text as its
/// title, the text behind `prefix` as its description, high priority, medium
/// effort, high impact.
pub open spec fn recommendation_of(prefix: Seq<char>, text: Seq<char>) -> RecommendationContent {
    RecommendationContent {
        title: text,
        description: prefix + text,
        priority: Priority::High,
        effort: Effort::Medium,
        impact: Impact::High,
    }
}

/// Whether `list` holds one recommendation for each of `texts`, in their
/// order, each with an identifier of its own form.
pub open spec fn recommendations_match(
    list: Seq<Recommendation>,
    prefix: Seq<char>,
    texts: Seq<String>,
) -> bool {
    &&& list.len() == texts.len()
    &&& forall|i: int|
        0 <= i < list.len() ==> (#[trigger] list[i]).content() == recommendation_of(
            prefix,
            texts[i]@,
        ) && is_hyphenated_id(list[i].id@)
}

/// Makes a recommendation from each of `texts`.
fn convert_recommendations(prefix: &str, texts: &[String]) -> (list: Vec<Recommendation>)
    ensures
        recommendations_match(list@, prefix@, texts@),
{
    let mut list: Vec<Recommendation> = Vec::new();
    let mut i: usize = 0;
    while i < texts.len()
        invariant
            i <= texts.len(),
            recommendations_match(list@, prefix@, texts@.take(i as int)),
        decreases texts.len() - i,
    {
        let mut description = prefix.to_string();
        description.append(texts[i].as_str());
        list.push(
            Recommendation {
                id: fresh_id(),
                title: texts[i].clone(),
                description,
                priority: Priority::High,
                effort: Effort::Medium,
                impact: Impact::High,
            },
        );
        i += 1;
    }
    assert(texts@.take(texts@.len() as int) =~= texts@);
    list
}

/// Whether an incident was reported later than the twenty-four hours that
/// NIS2 allows.
pub open spec fn reported_late(metrics: IncidentMetrics) -> bool {
    metrics.reporting_time.total_nanos() > NIS2_MAX_REPORTING_SECS as nat * 1_000_000_000
}

/// The finding for incidents reported late.
pub open spec fn slow_reporting_finding(metrics: IncidentMetrics) -> FindingContent {
    FindingContent {
        title: "Slow Incident Reporting"@,
        description: "Incident reporting time exceeds NIS2 requirements"@,
        severity: Severity::High,
        category: Category::Process,
        evidence: seq![
            "Reporting Time: "@ + duration_debug_text(
                carried_secs(metrics.reporting_time),
                carried_nanos(metrics.reporting_time),
            ),
        ],
    }
}

/// The finding for a missing continuity plan.
pub open spec fn missing_plan_finding() -> FindingContent {
    FindingContent {
        title: "Missing Business Continuity Plan"@,
        description: "No business continuity plan found"@,
        severity: Severity::Critical,
        category: Category::Organizational,
        evidence: seq!["No BCP found"@],
    }
}

/// What the NIS2 findings say: late reporting first, then a missing plan.
pub open spec fn nis2_findings(metrics: IncidentMetrics, plan_exists: bool) -> Seq<FindingContent> {
    (if reported_late(metrics) {
        seq![slow_reporting_finding(metrics)]
    } else {
        Seq::empty()
    }) + (if !plan_exists {
        seq![missing_plan_finding()]
    } else {
        Seq::empty()
    })
}

/// What a list of findings says.
pub open spec fn finding_contents(list: Seq<Finding>) -> Seq<FindingContent> {
    list.map_values(|f: Finding| f.content())
}

/// Whether every finding of the list has an identifier of its own form.
pub open spec fn findings_identified(list: Seq<Finding>) -> bool {
    forall|i: int| 0 <= i < list.len() ==> is_hyphenated_id(#[trigger] list[i].id@)
}

/// Runs assessments for the configured frameworks and turns their output into
/// findings and recommendations.
pub struct ComplianceEngine {
    config: ComplianceConfig,
}

impl ComplianceEngine {
    /// An engine with the given configuration.
    pub fn new(config: ComplianceConfig) -> (engine: ComplianceEngine)
        ensures
            engine.spec_config() == config,
    {
        ComplianceEngine { config }
    }

    /// The configuration of this engine.
    pub closed spec fn spec_config(&self) -> ComplianceConfig {
        self.config
    }

    /// The configuration of this engine.
    pub fn config(&self) -> (config: ComplianceConfig)
        ensures
            config == self.spec_config(),
    {
        self.config
    }

    /// The frameworks that a report of this engine covers: both if both are
    /// enabled, DORA if it alone is, else NIS2.
    pub fn framework(&self) -> (framework: ComplianceFramework)
        ensures
            framework == framework_of(self.spec_config()),
    {
        if self.config.dora_enabled && self.config.nis2_enabled {
            ComplianceFramework::Both
        } else if self.config.dora_enabled {
            ComplianceFramework::DORA
        } else {
            ComplianceFramework::NIS2
        }
    }

    /// How many assessments a run of this engine makes: one per enabled
    /// framework.
    pub fn assessments(&self) -> (count: u8)
        ensures
            count == (if self.spec_config().dora_enabled {
                1int
            } else {
                0int
            }) + (if self.spec_config().nis2_enabled {
                1int
            } else {
                0int
            }),
    {
        let mut count: u8 = 0;
        if self.config.dora_enabled {
            count += 1;
        }
        if self.config.nis2_enabled {
            count += 1;
        }
        count
    }

    /// One recommendation for each recommendation of a DORA assessment.
    pub fn convert_dora_recommendations(&self, recommendations: &[String]) -> (list: Vec<
        Recommendation,
    >)
        ensures
            recommendations_match(list@, "DORA compliance recommendation: "@, recommendations@),
    {
        convert_recommendations("DORA compliance recommendation: ", recommendations)
    }

    /// One recommendation for each recommendation of a NIS2 assessment.
    pub fn convert_nis2_recommendations(&self, recommendations: &[String]) -> (list: Vec<
        Recommendation,
    >)
        ensures
            recommendations_match(list@, "NIS2 compliance recommendation: "@, recommendations@),
    {
        convert_recommendations("NIS2 compliance recommendation: ", recommendations)
    }

    /// The findings of a NIS2 assessment: incidents reported after more than
    /// twenty-four hours are a finding of high severity, a missing continuity
    /// plan is a critical one.
    pub fn convert_nis2_findings(
        &self,
        incident_handling: &IncidentMetrics,
        business_continuity: &BCPStatus,
    ) -> (list: Vec<Finding>)
        ensures
            finding_contents(list@) == nis2_findings(
                *incident_handling,
                business_continuity.plan_exists,
            ),
            findings_identified(list@),
    {
        let mut list: Vec<Finding> = Vec::new();
        let max = TimeSpan::from_secs(NIS2_MAX_REPORTING_SECS);
        let late = !incident_handling.reporting_time.at_most(&max);
        assert(late == reported_late(*incident_handling));
        if late {
            let mut line = "Reporting Time: ".to_string();
            let text = span_text(&incident_handling.reporting_time);
            line.append(text.as_str());
            let mut evidence: Vec<String> = Vec::new();
            evidence.push(line);
            assert(evidence@.map_values(|e: String| e@) =~= slow_reporting_finding(
                *incident_handling,
            ).evidence);
            list.push(
                Finding {
                    id: fresh_id(),
                    title: "Slow Incident Reporting".to_string(),
                    description: "Incident reporting time exceeds NIS2 requirements".to_string(),
                    severity: Severity::High,
                    category: Category::Process,
                    evidence,
                },
            );
        }
        let ghost after_reporting = finding_contents(list@);
        assert(after_reporting =~= if late {
            seq![slow_reporting_finding(*incident_handling)]
        } else {
            Seq::empty()
        });
        if !business_continuity.plan_exists {
            let mut evidence: Vec<String> = Vec::new();
            evidence.push("No BCP found".to_string());
            assert(evidence@.map_values(|e: String| e@) =~= missing_plan_finding().evidence);
            list.push(
                Finding {
                    id: fresh_id(),
                    title: "Missing Business Continuity Plan".to_string(),
                    description: "No business continuity plan found".to_string(),
                    severity: Severity::Critical,
                    category: Category::Organizational,
                    evidence,
                },
            );
        }
        assert(finding_contents(list@) =~= after_reporting + (if !business_continuity.plan_exists {
            seq![missing_plan_finding()]
        } else {
            Seq::empty()
        }));
        list
    }
}

} // verus!
