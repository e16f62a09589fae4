//! The orchestrator: the configuration of a comprehensive scan, the probes it
//! runs, and the merging of their outcomes into one report.
//!
//! The four probes are independent. What one of them came to, success or
//! failure, is stored as it is under that probe's name and touches no other
//! entry.

use vstd::prelude::*;
use crate::dns::DnsError;
use crate::model::{
    status_reflects, AddressLookup, DNSRecord, PortScanResult, ProbeOutcome, ResolvedAddress,
    SSLCertificate, ScanStatus, SecurityHeaders, TimeSpan,
};
use crate::ports::{chosen_address, initial_scan, PortScan, ScanError, SecurityScanner};
use crate::text::text_of;
use crate::tools::{header_url, headers_check_url};

verus! {

/// The configuration of a comprehensive scan.
#[derive(Debug, Clone, Copy, PartialEq, Eq, Structural)]
pub struct ScannerConfig {
    pub timeout: TimeSpan,
    pub max_concurrent: usize,
    pub rate_limit: Option<TimeSpan>,
    pub retry_count: u32,
}

impl Default for ScannerConfig {
    /// A timeout of thirty seconds, a cap of one hundred attempts in flight,
    /// a rate limit of a hundred milliseconds and three retries.
    fn default() -> (config: ScannerConfig)
        ensures
            config == (ScannerConfig {
                timeout: TimeSpan { secs: 30, nanos: 0 },
                max_concurrent: 100,
                rate_limit: Some(TimeSpan { secs: 0, nanos: 100_000_000 }),
                retry_count: 3,
            }),
    {
        ScannerConfig {
            timeout: TimeSpan::from_secs(30),
            max_concurrent: 100,
            rate_limit: Some(TimeSpan::from_millis(100)),
            retry_count: 3,
        }
    }
}

/// The port that the certificate probe of a comprehensive scan goes to.
pub const SSL_PORT: u16 = 443;

/// The ports that a comprehensive scan probes, in this order.
pub open spec fn common_ports() -> Seq<u16> {
    seq![
        21u16,
        22u16,
        23u16,
        25u16,
        53u16,
        80u16,
        110u16,
        135u16,
        139u16,
        143u16,
        443u16,
        993u16,
        995u16,
        1723u16,
        3389u16,
        5432u16,
        3306u16,
        6379u16,
        27017u16,
    ]
}

/// The host that `url::Url::parse` followed by `Url::host_str` reads from a
/// text: none if the text is no absolute URL or the URL has no host.
pub uninterp spec fn url_host(text: Seq<char>) -> Option<Seq<char>>;

/// `url::Url::parse` followed by `Url::host_str`. Trusted: the result depends
/// on the text alone.
#[verifier::external_body]
fn parse_url_host(text: &str) -> (host: Option<String>)
    ensures
        text_of(host) == url_host(text@),
{
    match url::Url::parse(text) {
        Ok(url) => url.host_str().map(|host| host.to_string()),
        Err(_) => None,
    }
}

/// The host that the port, certificate and DNS probes go to for a target:
/// the host of the URL if the target is one, else the target itself.
pub open spec fn host_of_target(target: Seq<char>) -> Seq<char> {
    match url_host(target) {
        Some(host) => host,
        None => target,
    }
}

/// How the probes of a scan read its target, each by its own needs.
#[derive(Debug, Clone, PartialEq, Eq)]
pub struct ProbeTargets {
    /// The host or address for the port, certificate and DNS probes.
    pub host: String,
    /// The URL for the header probe.
    pub url: String,
}

/// Reads `target` for each probe: the port, certificate and DNS probes get
/// its host, the header probe gets it as a URL, with `https://` put before a
/// target that does not begin with `http`.
pub fn probe_targets(target: &str) -> (targets: ProbeTargets)
    ensures
        targets.host@ == host_of_target(target@),
        targets.url@ == header_url(target@),
{
    let host = match parse_url_host(target) {
        Some(host) => host,
        None => target.to_string(),
    };
    ProbeTargets { host, url: headers_check_url(target) }
}

/// The four probes of a comprehensive scan.
#[derive(Debug, Clone, Copy, PartialEq, Eq, Structural)]
pub enum ProbeKind {
    PortScan,
    SslScan,
    DnsEnum,
    SecurityHeaders,
}

impl ProbeKind {
    /// The name under which the probe's outcome stands in a report.
    pub open spec fn spec_key(self) -> Seq<char> {
        match self {
            ProbeKind::PortScan => "port_scan"@,
            ProbeKind::SslScan => "ssl_scan"@,
            ProbeKind::DnsEnum => "dns_enum"@,
            ProbeKind::SecurityHeaders => "security_headers"@,
        }
    }

    /// The name under which the probe's outcome stands in a report.
    pub fn key(&self) -> (name: &'static str)
        ensures
            name@ == self.spec_key(),
    {
        match self {
            ProbeKind::PortScan => "port_scan",
            ProbeKind::SslScan => "ssl_scan",
            ProbeKind::DnsEnum => "dns_enum",
            ProbeKind::SecurityHeaders => "security_headers",
        }
    }
}

/// The report of a scan: for each probe that was attempted, what it came to.
/// A probe that was not attempted has no entry.
#[derive(Debug, Clone, PartialEq, Eq)]
pub struct ScanReport {
    pub port_scan: Option<ProbeOutcome<Vec<PortScanResult>>>,
    pub ssl_scan: Option<ProbeOutcome<SSLCertificate>>,
    pub dns_enum: Option<ProbeOutcome<Vec<DNSRecord>>>,
    pub security_headers: Option<ProbeOutcome<SecurityHeaders>>,
}

impl ScanReport {
    /// Whether the report has an entry for `probe`.
    pub open spec fn spec_contains(self, probe: ProbeKind) -> bool {
        match probe {
            ProbeKind::PortScan => self.port_scan is Some,
            ProbeKind::SslScan => self.ssl_scan is Some,
            ProbeKind::DnsEnum => self.dns_enum is Some,
            ProbeKind::SecurityHeaders => self.security_headers is Some,
        }
    }

    /// Whether the report has an entry for `probe`.
    pub fn contains(&self, probe: ProbeKind) -> (present: bool)
        ensures
            present == self.spec_contains(probe),
    {
        match probe {
            ProbeKind::PortScan => self.port_scan.is_some(),
            ProbeKind::SslScan => self.ssl_scan.is_some(),
            ProbeKind::DnsEnum => self.dns_enum.is_some(),
            ProbeKind::SecurityHeaders => self.security_headers.is_some(),
        }
    }

    /// The status of the entry for `probe`: none if the probe was not
    /// attempted, else success, the failure with its reason, or timeout.
    pub fn status(&self, probe: ProbeKind) -> (status: Option<ScanStatus>)
        ensures
            status is Some == self.spec_contains(probe),
            status matches Some(s) ==> match probe {
                ProbeKind::PortScan => status_reflects(s, self.port_scan->Some_0),
                ProbeKind::SslScan => status_reflects(s, self.ssl_scan->Some_0),
                ProbeKind::DnsEnum => status_reflects(s, self.dns_enum->Some_0),
                ProbeKind::SecurityHeaders => status_reflects(s, self.security_headers->Some_0),
            },
    {
        match probe {
            ProbeKind::PortScan => match &self.port_scan {
                Some(outcome) => Some(outcome.status()),
                None => None,
            },
            ProbeKind::SslScan => match &self.ssl_scan {
                Some(outcome) => Some(outcome.status()),
                None => None,
            },
            ProbeKind::DnsEnum => match &self.dns_enum {
                Some(outcome) => Some(outcome.status()),
                None => None,
            },
            ProbeKind::SecurityHeaders => match &self.security_headers {
                Some(outcome) => Some(outcome.status()),
                None => None,
            },
        }
    }
}

/// The outcome of the port probe for the result of a port scan: the results
/// as they are, or the failure with the error's text.
pub open spec fn port_outcome_reflects(
    outcome: ProbeOutcome<Vec<PortScanResult>>,
    result: Result<Vec<PortScanResult>, ScanError>,
) -> bool {
    match result {
        Ok(list) => outcome == ProbeOutcome::Success(list),
        Err(e) => outcome matches ProbeOutcome::Failed(reason) && reason@ == e.spec_message(),
    }
}

/// The outcome of the DNS probe for the result of an enumeration: the records
/// as they are, or the failure with the error's text.
pub open spec fn dns_outcome_reflects(
    outcome: ProbeOutcome<Vec<DNSRecord>>,
    result: Result<Vec<DNSRecord>, DnsError>,
) -> bool {
    match result {
        Ok(list) => outcome == ProbeOutcome::Success(list),
        Err(e) => outcome matches ProbeOutcome::Failed(reason) && reason@ == e.spec_message(),
    }
}

/// Turns the result of a port scan into the outcome of the port probe.
pub fn port_scan_outcome(result: Result<Vec<PortScanResult>, ScanError>) -> (outcome: ProbeOutcome<
    Vec<PortScanResult>,
>)
    ensures
        port_outcome_reflects(outcome, result),
{
    match result {
        Ok(list) => ProbeOutcome::Success(list),
        Err(e) => ProbeOutcome::Failed(e.message()),
    }
}

/// Turns the result of an enumeration into the outcome of the DNS probe.
pub fn dns_enum_outcome(result: Result<Vec<DNSRecord>, DnsError>) -> (outcome: ProbeOutcome<
    Vec<DNSRecord>,
>)
    ensures
        dns_outcome_reflects(outcome, result),
{
    match result {
        Ok(list) => ProbeOutcome::Success(list),
        Err(e) => ProbeOutcome::Failed(e.message()),
    }
}

/// The report in which each of the four probes has the given outcome.
pub open spec fn full_report(
    port_scan: ProbeOutcome<Vec<PortScanResult>>,
    ssl_scan: ProbeOutcome<SSLCertificate>,
    dns_enum: ProbeOutcome<Vec<DNSRecord>>,
    security_headers: ProbeOutcome<SecurityHeaders>,
) -> ScanReport {
    ScanReport {
        port_scan: Some(port_scan),
        ssl_scan: Some(ssl_scan),
        dns_enum: Some(dns_enum),
        security_headers: Some(security_headers),
    }
}

/// Which of the four probes a scan attempts.
#[derive(Debug, Clone, Copy, PartialEq, Eq, Structural)]
pub struct ProbeSelection {
    pub port_scan: bool,
    pub ssl_scan: bool,
    pub dns_enum: bool,
    pub security_headers: bool,
}

impl ProbeSelection {
    /// Whether the selection holds `probe`.
    pub open spec fn spec_includes(self, probe: ProbeKind) -> bool {
        match probe {
            ProbeKind::PortScan => self.port_scan,
            ProbeKind::SslScan => self.ssl_scan,
            ProbeKind::DnsEnum => self.dns_enum,
            ProbeKind::SecurityHeaders => self.security_headers,
        }
    }

    /// Whether the selection holds `probe`.
    pub fn includes(&self, probe: ProbeKind) -> (held: bool)
        ensures
            held == self.spec_includes(probe),
    {
        match probe {
            ProbeKind::PortScan => self.port_scan,
            ProbeKind::SslScan => self.ssl_scan,
            ProbeKind::DnsEnum => self.dns_enum,
            ProbeKind::SecurityHeaders => self.security_headers,
        }
    }

    /// The selection of all four probes.
    pub fn all() -> (selection: ProbeSelection)
        ensures
            selection == (ProbeSelection {
                port_scan: true,
                ssl_scan: true,
                dns_enum: true,
                security_headers: true,
            }),
    {
        ProbeSelection { port_scan: true, ssl_scan: true, dns_enum: true, security_headers: true }
    }
}

/// The report without any entry.
pub open spec fn empty_report() -> ScanReport {
    ScanReport { port_scan: None, ssl_scan: None, dns_enum: None, security_headers: None }
}

/// `report` with the entry of `probe` set to a failure with the given reason.
pub open spec fn with_failure(report: ScanReport, probe: ProbeKind, reason: String) -> ScanReport {
    match probe {
        ProbeKind::PortScan => ScanReport {
            port_scan: Some(ProbeOutcome::Failed(reason)),
            ..report
        },
        ProbeKind::SslScan => ScanReport { ssl_scan: Some(ProbeOutcome::Failed(reason)), ..report },
        ProbeKind::DnsEnum => ScanReport { dns_enum: Some(ProbeOutcome::Failed(reason)), ..report },
        ProbeKind::SecurityHeaders => ScanReport {
            security_headers: Some(ProbeOutcome::Failed(reason)),
            ..report
        },
    }
}

/// Mathematical content of a [`ScanSession`]: the probes that the scan
/// attempts, and the report so far, with the entries of the probes that have
/// finished.
pub struct SessionView {
    pub selection: ProbeSelection,
    pub report: ScanReport,
}

impl SessionView {
    /// Whether `probe` is attempted and has not finished.
    pub open spec fn outstanding(self, probe: ProbeKind) -> bool {
        self.selection.spec_includes(probe) && !self.report.spec_contains(probe)
    }

    /// The states that a session can be in: only attempted probes have an
    /// entry.
    pub open spec fn valid(self) -> bool {
        &&& self.report.port_scan is Some ==> self.selection.port_scan
        &&& self.report.ssl_scan is Some ==> self.selection.ssl_scan
        &&& self.report.dns_enum is Some ==> self.selection.dns_enum
        &&& self.report.security_headers is Some ==> self.selection.security_headers
    }

    /// Whether every attempted probe has finished.
    pub open spec fn complete(self) -> bool {
        &&& !self.outstanding(ProbeKind::PortScan)
        &&& !self.outstanding(ProbeKind::SslScan)
        &&& !self.outstanding(ProbeKind::DnsEnum)
        &&& !self.outstanding(ProbeKind::SecurityHeaders)
    }

    /// The session after the port probe finished with `outcome`.
    pub open spec fn record_port_scan(self, outcome: ProbeOutcome<Vec<PortScanResult>>) -> SessionView {
        SessionView { report: ScanReport { port_scan: Some(outcome), ..self.report }, ..self }
    }

    /// The session after the certificate probe finished with `outcome`.
    pub open spec fn record_ssl_scan(self, outcome: ProbeOutcome<SSLCertificate>) -> SessionView {
        SessionView { report: ScanReport { ssl_scan: Some(outcome), ..self.report }, ..self }
    }

    /// The session after the DNS probe finished with `outcome`.
    pub open spec fn record_dns_enum(self, outcome: ProbeOutcome<Vec<DNSRecord>>) -> SessionView {
        SessionView { report: ScanReport { dns_enum: Some(outcome), ..self.report }, ..self }
    }

    /// The session after the header probe finished with `outcome`.
    pub open spec fn record_security_headers(
        self,
        outcome: ProbeOutcome<SecurityHeaders>,
    ) -> SessionView {
        SessionView { report: ScanReport { security_headers: Some(outcome), ..self.report }, ..self }
    }

    /// The session after `probe` broke down for the given reason.
    pub open spec fn record_failure(self, probe: ProbeKind, reason: String) -> SessionView {
        SessionView { report: with_failure(self.report, probe, reason), ..self }
    }
}

/// The session of a scan that attempts `selection`, before any probe has
/// finished.
pub open spec fn initial_session(selection: ProbeSelection) -> SessionView {
    SessionView { selection, report: empty_report() }
}

/// One scan in progress: the probes it attempts run side by side, and each
/// hands in what it came to when it finishes, in whatever order. An outcome,
/// failures included, goes into the report as it is and touches no other
/// entry; the report is handed out once every attempted probe has finished.
#[derive(Debug)]
pub struct ScanSession {
    selection: ProbeSelection,
    report: ScanReport,
}

impl View for ScanSession {
    type V = SessionView;

    closed spec fn view(&self) -> SessionView {
        SessionView { selection: self.selection, report: self.report }
    }
}

impl ScanSession {
    /// The invariant of a session: it is in a valid state.
    pub closed spec fn wf(&self) -> bool {
        self@.valid()
    }

    /// A well-formed session is in a valid state.
    pub proof fn lemma_wf_valid(&self)
        requires
            self.wf(),
        ensures
            self@.valid(),
    {
    }

    /// Begins a scan that attempts the probes of `selection`.
    pub fn begin(selection: ProbeSelection) -> (session: ScanSession)
        ensures
            session.wf(),
            session@ == initial_session(selection),
    {
        ScanSession {
            selection,
            report: ScanReport {
                port_scan: None,
                ssl_scan: None,
                dns_enum: None,
                security_headers: None,
            },
        }
    }

    /// Whether `probe` is attempted and has not finished.
    pub fn is_outstanding(&self, probe: ProbeKind) -> (waiting: bool)
        ensures
            waiting == self@.outstanding(probe),
    {
        self.selection.includes(probe) && !self.report.contains(probe)
    }

    /// Whether every attempted probe has finished.
    pub fn is_complete(&self) -> (done: bool)
        ensures
            done == self@.complete(),
    {
        !self.is_outstanding(ProbeKind::PortScan) && !self.is_outstanding(ProbeKind::SslScan)
            && !self.is_outstanding(ProbeKind::DnsEnum) && !self.is_outstanding(
            ProbeKind::SecurityHeaders,
        )
    }

    /// Hands in what the port probe came to. It is taken, and `true`
    /// returned, if the probe is outstanding; otherwise nothing changes.
    pub fn record_port_scan(&mut self, outcome: ProbeOutcome<Vec<PortScanResult>>) -> (taken: bool)
        requires
            old(self).wf(),
        ensures
            final(self).wf(),
            taken == old(self)@.outstanding(ProbeKind::PortScan),
            taken ==> final(self)@ == old(self)@.record_port_scan(outcome),
            !taken ==> final(self)@ == old(self)@,
    {
        if self.is_outstanding(ProbeKind::PortScan) {
            self.report.port_scan = Some(outcome);
            true
        } else {
            false
        }
    }

    /// Hands in what the certificate probe came to. It is taken, and `true`
    /// returned, if the probe is outstanding; otherwise nothing changes.
    pub fn record_ssl_scan(&mut self, outcome: ProbeOutcome<SSLCertificate>) -> (taken: bool)
        requires
            old(self).wf(),
        ensures
            final(self).wf(),
            taken == old(self)@.outstanding(ProbeKind::SslScan),
            taken ==> final(self)@ == old(self)@.record_ssl_scan(outcome),
            !taken ==> final(self)@ == old(self)@,
    {
        if self.is_outstanding(ProbeKind::SslScan) {
            self.report.ssl_scan = Some(outcome);
            true
        } else {
            false
        }
    }

    /// Hands in what the DNS probe came to. It is taken, and `true` returned,
    /// if the probe is outstanding; otherwise nothing changes.
    pub fn record_dns_enum(&mut self, outcome: ProbeOutcome<Vec<DNSRecord>>) -> (taken: bool)
        requires
            old(self).wf(),
        ensures
            final(self).wf(),
            taken == old(self)@.outstanding(ProbeKind::DnsEnum),
            taken ==> final(self)@ == old(self)@.record_dns_enum(outcome),
            !taken ==> final(self)@ == old(self)@,
    {
        if self.is_outstanding(ProbeKind::DnsEnum) {
            self.report.dns_enum = Some(outcome);
            true
        } else {
            false
        }
    }

    /// Hands in what the header probe came to. It is taken, and `true`
    /// returned, if the probe is outstanding; otherwise nothing changes.
    pub fn record_security_headers(&mut self, outcome: ProbeOutcome<SecurityHeaders>) -> (taken:
        bool)
        requires
            old(self).wf(),
        ensures
            final(self).wf(),
            taken == old(self)@.outstanding(ProbeKind::SecurityHeaders),
            taken ==> final(self)@ == old(self)@.record_security_headers(outcome),
            !taken ==> final(self)@ == old(self)@,
    {
        if self.is_outstanding(ProbeKind::SecurityHeaders) {
            self.report.security_headers = Some(outcome);
            true
        } else {
            false
        }
    }

    /// Hands in that `probe` broke down before it came to anything: its
    /// entry becomes a failure with the given reason. It is taken, and `true`
    /// returned, if the probe is outstanding; otherwise nothing changes.
    pub fn record_failure(&mut self, probe: ProbeKind, reason: String) -> (taken: bool)
        requires
            old(self).wf(),
        ensures
            final(self).wf(),
            taken == old(self)@.outstanding(probe),
            taken ==> final(self)@ == old(self)@.record_failure(probe, reason),
            !taken ==> final(self)@ == old(self)@,
    {
        if !self.is_outstanding(probe) {
            return false;
        }
        match probe {
            ProbeKind::PortScan => {
                self.report.port_scan = Some(ProbeOutcome::Failed(reason));
            },
            ProbeKind::SslScan => {
                self.report.ssl_scan = Some(ProbeOutcome::Failed(reason));
            },
            ProbeKind::DnsEnum => {
                self.report.dns_enum = Some(ProbeOutcome::Failed(reason));
            },
            ProbeKind::SecurityHeaders => {
                self.report.security_headers = Some(ProbeOutcome::Failed(reason));
            },
        }
        true
    }

    /// The report of the scan once every attempted probe has finished: it has
    /// an entry for each attempted probe and for no other. `None` while a
    /// probe is outstanding.
    pub fn finish(self) -> (report: Option<ScanReport>)
        requires
            self.wf(),
        ensures
            report is Some <==> self@.complete(),
            report matches Some(r) ==> r == self@.report && forall|probe: ProbeKind|
                #[trigger] r.spec_contains(probe) <==> self@.selection.spec_includes(probe),
    {
        if self.is_complete() {
            Some(self.report)
        } else {
            None
        }
    }
}

/// A session starts in a valid state with every attempted probe outstanding.
pub proof fn lemma_initial_session(selection: ProbeSelection)
    ensures
        initial_session(selection).valid(),
        forall|probe: ProbeKind| #[trigger]
            initial_session(selection).outstanding(probe) <==> selection.spec_includes(probe),
{
}

/// The report of a complete session has an entry for every probe that was
/// attempted and for no other.
pub proof fn lemma_report_covers_selection(session: SessionView)
    requires
        session.valid(),
        session.complete(),
    ensures
        forall|probe: ProbeKind| #[trigger]
            session.report.spec_contains(probe) <==> session.selection.spec_includes(probe),
{
}

/// Fault isolation in a session: what the certificate probe hands in, a
/// failure included, changes the certificate entry alone. The same holds of
/// each of the other probes.
pub proof fn lemma_session_isolation(
    session: SessionView,
    port_scan: ProbeOutcome<Vec<PortScanResult>>,
    ssl_scan: ProbeOutcome<SSLCertificate>,
    dns_enum: ProbeOutcome<Vec<DNSRecord>>,
    security_headers: ProbeOutcome<SecurityHeaders>,
)
    ensures
        session.record_ssl_scan(ssl_scan).report == (ScanReport {
            ssl_scan: Some(ssl_scan),
            ..session.report
        }),
        session.record_port_scan(port_scan).report == (ScanReport {
            port_scan: Some(port_scan),
            ..session.report
        }),
        session.record_dns_enum(dns_enum).report == (ScanReport {
            dns_enum: Some(dns_enum),
            ..session.report
        }),
        session.record_security_headers(security_headers).report == (ScanReport {
            security_headers: Some(security_headers),
            ..session.report
        }),
        session.valid() && session.selection.ssl_scan ==> session.record_ssl_scan(
            ssl_scan,
        ).valid(),
{
}

/// The order in which the probes finish does not matter: a session that took
/// the four outcomes in any of these orders holds the report with the four
/// outcomes, and is complete.
pub proof fn lemma_finish_order_is_free(
    port_scan: ProbeOutcome<Vec<PortScanResult>>,
    ssl_scan: ProbeOutcome<SSLCertificate>,
    dns_enum: ProbeOutcome<Vec<DNSRecord>>,
    security_headers: ProbeOutcome<SecurityHeaders>,
)
    ensures
        ({
            let start = initial_session(
                ProbeSelection {
                    port_scan: true,
                    ssl_scan: true,
                    dns_enum: true,
                    security_headers: true,
                },
            );
            let full = full_report(port_scan, ssl_scan, dns_enum, security_headers);
            &&& start.record_port_scan(port_scan).record_ssl_scan(ssl_scan).record_dns_enum(
                dns_enum,
            ).record_security_headers(security_headers).report == full
            &&& start.record_security_headers(security_headers).record_dns_enum(
                dns_enum,
            ).record_ssl_scan(ssl_scan).record_port_scan(port_scan).report == full
            &&& start.record_ssl_scan(ssl_scan).record_security_headers(
                security_headers,
            ).record_port_scan(port_scan).record_dns_enum(dns_enum).report == full
            &&& start.record_port_scan(port_scan).record_ssl_scan(ssl_scan).record_dns_enum(
                dns_enum,
            ).record_security_headers(security_headers).complete()
        }),
{
}

/// Runs the probes of a comprehensive scan and merges what they came to.
pub struct ScannerOrchestrator {
    config: ScannerConfig,
}

impl ScannerOrchestrator {
    /// An orchestrator with the given configuration.
    pub fn new(config: ScannerConfig) -> (orchestrator: ScannerOrchestrator)
        ensures
            orchestrator.spec_config() == config,
    {
        ScannerOrchestrator { config }
    }

    /// The configuration of this orchestrator.
    pub closed spec fn spec_config(&self) -> ScannerConfig {
        self.config
    }

    /// The configuration of this orchestrator.
    pub fn config(&self) -> (config: ScannerConfig)
        ensures
            config == self.spec_config(),
    {
        self.config
    }

    /// The port scanner that this orchestrator's configuration calls for.
    pub fn scanner(&self) -> (scanner: SecurityScanner)
        ensures
            scanner.spec_timeout() == self.spec_config().timeout,
            scanner.spec_max_concurrent() == self.spec_config().max_concurrent,
    {
        SecurityScanner::new(self.config.timeout, self.config.max_concurrent)
    }

    /// The ports that a comprehensive scan probes.
    pub fn common_port_list() -> (ports: Vec<u16>)
        ensures
            ports@ == common_ports(),
    {
        let ports: Vec<u16> = vec![
            21, 22, 23, 25, 53, 80, 110, 135, 139, 143, 443, 993, 995, 1723, 3389, 5432, 3306,
            6379, 27017,
        ];
        assert(ports@ =~= common_ports());
        ports
    }

    /// Begins the port scan of a scan: that of `ports`, or of the common
    /// ports where none are given, at the address chosen from `literal` and
    /// `lookup`, under the configured cap.
    pub fn scan_ports(
        &self,
        literal: Option<ResolvedAddress>,
        lookup: AddressLookup,
        ports: Option<&[u16]>,
    ) -> (scan: Result<PortScan, ScanError>)
        ensures
            match chosen_address(literal, lookup) {
                Ok(address) => scan matches Ok(s) && s.wf() && s@ == initial_scan(
                    address,
                    match ports {
                        Some(list) => list@,
                        None => common_ports(),
                    },
                    self.spec_config().max_concurrent as nat,
                ),
                Err(e) => scan == Err::<PortScan, ScanError>(e),
            },
    {
        match ports {
            Some(list) => self.scanner().port_scan(literal, lookup, list),
            None => {
                let common = Self::common_port_list();
                self.scanner().port_scan(literal, lookup, common.as_slice())
            },
        }
    }

    /// Begins the port scan of a comprehensive scan: that of the common ports
    /// at the address chosen from `literal` and `lookup`, under the configured
    /// cap.
    pub fn scan_common_ports(&self, literal: Option<ResolvedAddress>, lookup: AddressLookup) -> (scan:
        Result<PortScan, ScanError>)
        ensures
            match chosen_address(literal, lookup) {
                Ok(address) => scan matches Ok(s) && s.wf() && s@ == initial_scan(
                    address,
                    common_ports(),
                    self.spec_config().max_concurrent as nat,
                ),
                Err(e) => scan == Err::<PortScan, ScanError>(e),
            },
    {
        self.scan_ports(literal, lookup, None)
    }

    /// Begins a comprehensive scan: a session that attempts all four probes.
    pub fn begin_scan(&self) -> (session: ScanSession)
        ensures
            session.wf(),
            session@ == initial_session(
                ProbeSelection {
                    port_scan: true,
                    ssl_scan: true,
                    dns_enum: true,
                    security_headers: true,
                },
            ),
    {
        ScanSession::begin(ProbeSelection::all())
    }

    /// Merges what the four probes came to into one report. Every probe has
    /// its entry, a failed one too, and each entry is what that probe came
    /// to, whatever the others did.
    pub fn run_comprehensive_scan(
        &self,
        port_scan: ProbeOutcome<Vec<PortScanResult>>,
        ssl_scan: ProbeOutcome<SSLCertificate>,
        dns_enum: ProbeOutcome<Vec<DNSRecord>>,
        security_headers: ProbeOutcome<SecurityHeaders>,
    ) -> (report: ScanReport)
        ensures
            report == full_report(port_scan, ssl_scan, dns_enum, security_headers),
    {
        let mut session = self.begin_scan();
        session.record_port_scan(port_scan);
        session.record_ssl_scan(ssl_scan);
        session.record_dns_enum(dns_enum);
        session.record_security_headers(security_headers);
        session.finish().unwrap()
    }
}

/// Fault isolation: whatever one probe came to, the entries of the other
/// three are what those probes came to. In particular a certificate probe
/// that fails leaves a failed entry beside three entries that hold what the
/// port, DNS and header probes returned.
pub proof fn lemma_fault_isolation(
    port_scan: ProbeOutcome<Vec<PortScanResult>>,
    ssl_scan: ProbeOutcome<SSLCertificate>,
    other_ssl_scan: ProbeOutcome<SSLCertificate>,
    dns_enum: ProbeOutcome<Vec<DNSRecord>>,
    security_headers: ProbeOutcome<SecurityHeaders>,
)
    ensures
        full_report(port_scan, ssl_scan, dns_enum, security_headers).port_scan == full_report(
            port_scan,
            other_ssl_scan,
            dns_enum,
            security_headers,
        ).port_scan,
        full_report(port_scan, ssl_scan, dns_enum, security_headers).dns_enum == full_report(
            port_scan,
            other_ssl_scan,
            dns_enum,
            security_headers,
        ).dns_enum,
        full_report(port_scan, ssl_scan, dns_enum, security_headers).security_headers
            == full_report(port_scan, other_ssl_scan, dns_enum, security_headers).security_headers,
        ssl_scan is Failed ==> {
            let report = full_report(port_scan, ssl_scan, dns_enum, security_headers);
            &&& report.ssl_scan == Some(ssl_scan)
            &&& report.port_scan == Some(port_scan)
            &&& report.dns_enum == Some(dns_enum)
            &&& report.security_headers == Some(security_headers)
            &&& forall|probe: ProbeKind| report.spec_contains(probe)
        },
{
}

} // verus!
