//! Port probing: the well-known service table, the classification of single
//! connection attempts, the choice of the address to scan, and the admission
//! of attempts under a cap on how many are in flight.

use vstd::prelude::*;
use crate::dns::{
    answer_view, enumerate_dns_records, merged_records, records_view, DnsError, DnsLookups,
};
use crate::headers::{header_probe, header_values, security_headers_of, HeaderFetch};
use crate::model::{
    AddressLookup, ConnectOutcome, DNSRecord, PortResultView, PortScanResult, PortState,
    ProbeOutcome, ResolvedAddress, SSLCertificate, SecurityHeaders, TimeSpan,
};
use crate::ssl::{analyze_ssl_certificate, CertificateFetch};
use crate::text::text_of;

verus! {

/// The service conventionally bound to `port`, if the table knows one.
pub open spec fn service_name(port: u16) -> Option<Seq<char>> {
    match port {
        22 => Some("ssh"@),
        23 => Some("telnet"@),
        25 => Some("smtp"@),
        53 => Some("dns"@),
        80 => Some("http"@),
        110 => Some("pop3"@),
        143 => Some("imap"@),
        443 => Some("https"@),
        993 => Some("imaps"@),
        995 => Some("pop3s"@),
        3389 => Some("rdp"@),
        5432 => Some("postgresql"@),
        3306 => Some("mysql"@),
        6379 => Some("redis"@),
        27017 => Some("mongodb"@),
        _ => None,
    }
}

/// The state that a connection outcome stands for.
pub open spec fn state_of(outcome: ConnectOutcome) -> PortState {
    match outcome {
        ConnectOutcome::Connected => PortState::Open,
        ConnectOutcome::Refused => PortState::Closed,
        ConnectOutcome::TimedOut => PortState::Filtered,
        ConnectOutcome::Failed => PortState::Filtered,
    }
}

/// The result for `port` when its one connection attempt ended in `outcome`:
/// the service name is attached to open ports only.
pub open spec fn classify(port: u16, outcome: ConnectOutcome) -> PortResultView {
    PortResultView {
        port,
        state: state_of(outcome),
        service: if outcome is Connected {
            service_name(port)
        } else {
            None
        },
        version: None,
        banner: None,
    }
}

/// Why a port scan could not start.
#[derive(Debug, Clone, Copy, PartialEq, Eq, Structural)]
pub enum ScanError {
    /// The target is no literal address and resolved to nothing.
    NoAddress,
    /// The lookup of the target was abandoned before it answered.
    ResolutionAborted,
}

impl ScanError {
    /// The text of this error.
    pub open spec fn spec_message(self) -> Seq<char> {
        match self {
            ScanError::NoAddress => "No IP address found for target"@,
            ScanError::ResolutionAborted => "DNS resolution task failed"@,
        }
    }

    /// The text of this error.
    pub fn message(&self) -> (text: String)
        ensures
            text@ == self.spec_message(),
    {
        match self {
            ScanError::NoAddress => "No IP address found for target".to_string(),
            ScanError::ResolutionAborted => "DNS resolution task failed".to_string(),
        }
    }
}

/// The address that a scan of a target goes to: the literal address if the
/// target is one, else the first address of the lookup.
pub open spec fn chosen_address(
    literal: Option<ResolvedAddress>,
    lookup: AddressLookup,
) -> Result<ResolvedAddress, ScanError> {
    match literal {
        Some(address) => Ok(address),
        None => match lookup {
            AddressLookup::Resolved(found) => if found@.len() > 0 {
                Ok(found@[0])
            } else {
                Err(ScanError::NoAddress)
            },
            AddressLookup::Failed => Err(ScanError::NoAddress),
            AddressLookup::Aborted => Err(ScanError::ResolutionAborted),
        },
    }
}

/// How many of the first `upto` slots hold no outcome.
pub open spec fn unanswered(outcomes: Seq<Option<ConnectOutcome>>, upto: int) -> nat
    decreases upto,
{
    if upto <= 0 {
        0
    } else {
        unanswered(outcomes, upto - 1) + if upto <= outcomes.len() && outcomes[upto - 1] is None {
            1nat
        } else {
            0nat
        }
    }
}

/// Mathematical content of a [`PortScan`]: the requested ports in order, the
/// cap on attempts in flight, how many slots were admitted, and the outcome
/// recorded for each slot.
pub struct PortScanView {
    pub address: ResolvedAddress,
    pub ports: Seq<u16>,
    pub cap: nat,
    pub started: nat,
    pub outcomes: Seq<Option<ConnectOutcome>>,
}

impl PortScanView {
    /// The number of attempts that were admitted and have not yet reported.
    pub open spec fn in_flight(self) -> nat {
        unanswered(self.outcomes, self.started as int)
    }

    /// The states that a scan can be in: one slot per requested port, slots
    /// are admitted in order, only admitted slots hold an outcome, and the
    /// attempts in flight do not exceed the cap.
    pub open spec fn valid(self) -> bool {
        &&& self.outcomes.len() == self.ports.len()
        &&& self.started <= self.ports.len()
        &&& forall|i: int| self.started <= i < self.outcomes.len() ==> self.outcomes[i] is None
        &&& self.in_flight() <= self.cap
    }

    /// Whether one more attempt may start now.
    pub open spec fn can_admit(self) -> bool {
        self.started < self.ports.len() && self.in_flight() < self.cap
    }

    /// The scan after the next slot was admitted.
    pub open spec fn admit_next(self) -> PortScanView {
        PortScanView { started: self.started + 1, ..self }
    }

    /// Whether `slot` was admitted and has not reported.
    pub open spec fn awaits(self, slot: int) -> bool {
        0 <= slot < self.started && slot < self.outcomes.len() && self.outcomes[slot] is None
    }

    /// The scan after `slot` reported `outcome`.
    pub open spec fn record(self, slot: int, outcome: ConnectOutcome) -> PortScanView {
        PortScanView { outcomes: self.outcomes.update(slot, Some(outcome)), ..self }
    }

    /// Whether every requested port was admitted and has reported.
    pub open spec fn complete(self) -> bool {
        self.started == self.ports.len() && self.in_flight() == 0
    }

    /// The results of a complete scan: one per requested port, in the order of
    /// the request.
    pub open spec fn results(self) -> Seq<PortResultView> {
        Seq::new(self.ports.len(), |i: int| classify(self.ports[i], self.outcomes[i].unwrap()))
    }
}

/// The scan of `ports` at `address` before any attempt was admitted.
pub open spec fn initial_scan(address: ResolvedAddress, ports: Seq<u16>, cap: nat) -> PortScanView {
    PortScanView {
        address,
        ports,
        cap,
        started: 0,
        outcomes: Seq::new(ports.len(), |i: int| None::<ConnectOutcome>),
    }
}

/// Recording an outcome in a slot that had none lowers the count of
/// unanswered slots by one where the slot is counted, and leaves it alone
/// where it is not.
proof fn lemma_unanswered_update(
    outcomes: Seq<Option<ConnectOutcome>>,
    upto: int,
    slot: int,
    outcome: ConnectOutcome,
)
    requires
        0 <= slot < outcomes.len(),
        upto <= outcomes.len(),
        outcomes[slot] is None,
    ensures
        slot < upto ==> unanswered(outcomes.update(slot, Some(outcome)), upto) + 1 == unanswered(
            outcomes,
            upto,
        ),
        slot >= upto ==> unanswered(outcomes.update(slot, Some(outcome)), upto) == unanswered(
            outcomes,
            upto,
        ),
    decreases upto,
{
    if upto > 0 {
        lemma_unanswered_update(outcomes, upto - 1, slot, outcome);
    }
}

/// No unanswered slot among the first `upto` means that each of them holds an
/// outcome.
proof fn lemma_unanswered_zero(outcomes: Seq<Option<ConnectOutcome>>, upto: int)
    requires
        upto <= outcomes.len(),
        unanswered(outcomes, upto) == 0,
    ensures
        forall|i: int| 0 <= i < upto ==> outcomes[i] is Some,
    decreases upto,
{
    if upto > 0 {
        lemma_unanswered_zero(outcomes, upto - 1);
    }
}

/// A scan starts in a valid state with nothing in flight.
pub proof fn lemma_initial_scan_valid(address: ResolvedAddress, ports: Seq<u16>, cap: nat)
    ensures
        initial_scan(address, ports, cap).valid(),
        initial_scan(address, ports, cap).in_flight() == 0,
{
}

/// Admitting an attempt where the cap allows it keeps the scan valid: the
/// attempts in flight grow by one and stay within the cap.
pub proof fn lemma_admit_keeps_cap(scan: PortScanView)
    requires
        scan.valid(),
        scan.can_admit(),
    ensures
        scan.admit_next().valid(),
        scan.admit_next().in_flight() == scan.in_flight() + 1,
        scan.admit_next().in_flight() <= scan.cap,
{
}

/// Recording the outcome of an attempt in flight keeps the scan valid and
/// frees one place under the cap.
pub proof fn lemma_record_keeps_cap(scan: PortScanView, slot: int, outcome: ConnectOutcome)
    requires
        scan.valid(),
        scan.awaits(slot),
    ensures
        scan.record(slot, outcome).valid(),
        scan.record(slot, outcome).in_flight() + 1 == scan.in_flight(),
{
    lemma_unanswered_update(scan.outcomes, scan.started as int, slot, outcome);
}

/// In every valid state the number of attempts in flight is within the cap.
pub proof fn lemma_in_flight_within_cap(scan: PortScanView)
    requires
        scan.valid(),
    ensures
        scan.in_flight() <= scan.cap,
{
}

/// A complete scan has exactly one result per requested port, at the port's
/// place in the request: none is missing and none is added.
pub proof fn lemma_one_result_per_port(scan: PortScanView)
    requires
        scan.valid(),
        scan.complete(),
    ensures
        scan.results().len() == scan.ports.len(),
        forall|i: int|
            0 <= i < scan.ports.len() ==> scan.outcomes[i] is Some && (#[trigger] scan.results()[i])
                == classify(scan.ports[i], scan.outcomes[i].unwrap()),
        forall|i: int| 0 <= i < scan.ports.len() ==> (#[trigger] scan.results()[i]).port == scan.ports[i],
{
    lemma_unanswered_zero(scan.outcomes, scan.started as int);
}

/// The order in which two attempts report does not matter.
pub proof fn lemma_record_commutes(
    scan: PortScanView,
    first: int,
    a: ConnectOutcome,
    second: int,
    b: ConnectOutcome,
)
    requires
        scan.valid(),
        scan.awaits(first),
        scan.awaits(second),
        first != second,
    ensures
        scan.record(first, a).awaits(second),
        scan.record(second, b).awaits(first),
        scan.record(first, a).record(second, b) == scan.record(second, b).record(first, a),
{
    assert(scan.outcomes.update(first, Some(a)).update(second, Some(b)) =~= scan.outcomes.update(
        second,
        Some(b),
    ).update(first, Some(a)));
}

/// Two complete scans of the same ports in which each port's attempt ended
/// the same way have the same results.
pub proof fn lemma_same_outcomes_same_results(one: PortScanView, other: PortScanView)
    requires
        one.valid(),
        one.complete(),
        other.valid(),
        other.complete(),
        one.ports == other.ports,
        one.outcomes == other.outcomes,
    ensures
        one.results() == other.results(),
{
}

/// A valid scan with a cap of at least one never stalls: until it is
/// complete, an attempt may be admitted or an attempt in flight is awaited.
pub proof fn lemma_scan_progress(scan: PortScanView)
    requires
        scan.valid(),
        scan.cap >= 1,
        !scan.complete(),
    ensures
        scan.can_admit() || scan.in_flight() > 0,
{
}

/// A place in a scan together with the port to probe there.
#[derive(Debug, Clone, Copy, PartialEq, Eq, Structural)]
pub struct ProbeTicket {
    pub slot: usize,
    pub port: u16,
}

/// A scan of a list of ports at one address under a cap on the number of
/// connection attempts in flight.
///
/// The caller asks for tickets with [`PortScan::next_probe`], performs one
/// connection attempt per ticket, and reports each outcome with
/// [`PortScan::record`]. No ticket is handed out while the cap is reached.
#[derive(Debug)]
pub struct PortScan {
    address: ResolvedAddress,
    ports: Vec<u16>,
    cap: usize,
    started: usize,
    pending: usize,
    outcomes: Vec<Option<ConnectOutcome>>,
}

impl View for PortScan {
    type V = PortScanView;

    closed spec fn view(&self) -> PortScanView {
        PortScanView {
            address: self.address,
            ports: self.ports@,
            cap: self.cap as nat,
            started: self.started as nat,
            outcomes: self.outcomes@,
        }
    }
}

impl PortScan {
    /// The invariant of a scan: its content is valid and its counter agrees
    /// with it.
    pub closed spec fn wf(&self) -> bool {
        &&& self@.valid()
        &&& self.pending as nat == self@.in_flight()
    }

    /// A well-formed scan is in a valid state; in particular its attempts in
    /// flight are within its cap.
    pub proof fn lemma_wf_valid(&self)
        requires
            self.wf(),
        ensures
            self@.valid(),
            self@.in_flight() <= self@.cap,
    {
    }

    /// Starts a scan of `ports` at `address` with at most `cap` attempts in
    /// flight.
    pub fn new(address: ResolvedAddress, ports: &[u16], cap: usize) -> (scan: PortScan)
        ensures
            scan.wf(),
            scan@ == initial_scan(address, ports@, cap as nat),
            scan@.in_flight() == 0,
    {
        let mut list: Vec<u16> = Vec::new();
        let mut outcomes: Vec<Option<ConnectOutcome>> = Vec::new();
        let mut i: usize = 0;
        while i < ports.len()
            invariant
                i <= ports.len(),
                list@ == ports@.take(i as int),
                outcomes@.len() == i,
                forall|k: int| 0 <= k < i ==> outcomes@[k] is None,
            decreases ports.len() - i,
        {
            list.push(ports[i]);
            outcomes.push(None);
            i += 1;
            assert(list@ =~= ports@.take(i as int));
        }
        assert(list@ =~= ports@);
        assert(outcomes@ =~= Seq::new(ports@.len(), |i: int| None::<ConnectOutcome>));
        PortScan { address, ports: list, cap, started: 0, pending: 0, outcomes }
    }

    /// The address that the attempts go to.
    pub fn address(&self) -> (address: &ResolvedAddress)
        ensures
            *address == self@.address,
    {
        &self.address
    }

    /// The cap on attempts in flight.
    pub fn cap(&self) -> (cap: usize)
        ensures
            cap == self@.cap,
    {
        self.cap
    }

    /// The number of attempts admitted and not yet reported.
    pub fn in_flight(&self) -> (n: usize)
        requires
            self.wf(),
        ensures
            n == self@.in_flight(),
            n <= self@.cap,
    {
        self.pending
    }

    /// Whether every requested port was admitted and has reported.
    pub fn is_complete(&self) -> (done: bool)
        requires
            self.wf(),
        ensures
            done == self@.complete(),
    {
        self.started == self.ports.len() && self.pending == 0
    }

    /// Admission of the next attempt. Hands out the next slot and its port if a port is
    /// left and the attempts in flight are below the cap; otherwise changes
    /// nothing and returns `None`.
    pub fn next_probe(&mut self) -> (ticket: Option<ProbeTicket>)
        requires
            old(self).wf(),
        ensures
            final(self).wf(),
            old(self)@.can_admit() ==> final(self)@ == old(self)@.admit_next() && ticket == Some(
                ProbeTicket { slot: old(self)@.started as usize, port: old(self)@.ports[old(self)@.started as int] },
            ),
            !old(self)@.can_admit() ==> final(self)@ == old(self)@ && ticket is None,
            old(self)@.can_admit() ==> final(self)@.in_flight() == old(self)@.in_flight() + 1,
            final(self)@.in_flight() <= final(self)@.cap,
    {
        if self.started < self.ports.len() && self.pending < self.cap {
            let slot = self.started;
            let port = self.ports[slot];
            proof {
                lemma_admit_keeps_cap(self@);
            }
            self.started = slot + 1;
            self.pending = self.pending + 1;
            Some(ProbeTicket { slot, port })
        } else {
            None
        }
    }

    /// Reports the outcome of the attempt at `slot`. The report is taken, and
    /// `true` returned, if that slot was admitted and has not reported before;
    /// otherwise nothing changes.
    pub fn record(&mut self, slot: usize, outcome: ConnectOutcome) -> (taken: bool)
        requires
            old(self).wf(),
        ensures
            final(self).wf(),
            taken == old(self)@.awaits(slot as int),
            taken ==> final(self)@ == old(self)@.record(slot as int, outcome),
            taken ==> final(self)@.in_flight() + 1 == old(self)@.in_flight(),
            !taken ==> final(self)@ == old(self)@,
    {
        if slot < self.started && self.outcomes[slot].is_none() {
            proof {
                lemma_record_keeps_cap(self@, slot as int, outcome);
            }
            self.outcomes.set(slot, Some(outcome));
            self.pending = self.pending - 1;
            true
        } else {
            false
        }
    }

    /// Reports that the attempt at `slot` broke down without an outcome. The
    /// port is not dropped: the attempt counts as a failed one, so the port
    /// will read as filtered.
    pub fn record_failure(&mut self, slot: usize) -> (taken: bool)
        requires
            old(self).wf(),
        ensures
            final(self).wf(),
            taken == old(self)@.awaits(slot as int),
            taken ==> final(self)@ == old(self)@.record(slot as int, ConnectOutcome::Failed),
            taken ==> final(self)@.in_flight() + 1 == old(self)@.in_flight(),
            !taken ==> final(self)@ == old(self)@,
    {
        self.record(slot, ConnectOutcome::Failed)
    }

    /// The results of the scan once it is complete: one per requested port,
    /// in the order of the request. `None` while an attempt is outstanding.
    pub fn into_results(self) -> (results: Option<Vec<PortScanResult>>)
        requires
            self.wf(),
        ensures
            results is Some <==> self@.complete(),
            results matches Some(list) ==> list@.map_values(|r: PortScanResult| r@)
                == self@.results(),
            results matches Some(list) ==> list@.len() == self@.ports.len() && forall|i: int|
                0 <= i < list@.len() ==> self@.outcomes[i] is Some && (#[trigger] list@[i])@
                    == classify(self@.ports[i], self@.outcomes[i].unwrap()),
    {
        if !(self.started == self.ports.len() && self.pending == 0) {
            return None;
        }
        proof {
            lemma_unanswered_zero(self.outcomes@, self.started as int);
        }
        let mut list: Vec<PortScanResult> = Vec::new();
        let n = self.ports.len();
        let mut i: usize = 0;
        while i < n
            invariant
                i <= n,
                n == self.ports@.len(),
                n == self.outcomes@.len(),
                forall|k: int| 0 <= k < n ==> self.outcomes@[k] is Some,
                list@.len() == i,
                forall|k: int|
                    0 <= k < i ==> (#[trigger] list@[k])@ == classify(
                        self.ports@[k],
                        self.outcomes@[k].unwrap(),
                    ),
            decreases n - i,
        {
            let outcome = match self.outcomes[i] {
                Some(o) => o,
                None => ConnectOutcome::Failed,
            };
            list.push(SecurityScanner::scan_port(self.ports[i], outcome));
            i += 1;
        }
        assert(list@.map_values(|r: PortScanResult| r@) =~= self@.results());
        Some(list)
    }
}

/// The port scanner: a per-attempt timeout and a cap on the number of
/// attempts in flight.
#[derive(Debug, Clone, Copy, PartialEq, Eq, Structural)]
pub struct SecurityScanner {
    timeout: TimeSpan,
    max_concurrent: usize,
}

impl SecurityScanner {
    /// A scanner with the given per-attempt timeout and cap.
    pub fn new(timeout: TimeSpan, max_concurrent: usize) -> (scanner: SecurityScanner)
        ensures
            scanner.spec_timeout() == timeout,
            scanner.spec_max_concurrent() == max_concurrent,
    {
        SecurityScanner { timeout, max_concurrent }
    }

    /// The timeout of one connection attempt.
    pub closed spec fn spec_timeout(self) -> TimeSpan {
        self.timeout
    }

    /// The cap on attempts in flight.
    pub closed spec fn spec_max_concurrent(self) -> usize {
        self.max_concurrent
    }

    /// The timeout of one connection attempt.
    pub fn timeout(&self) -> (timeout: TimeSpan)
        ensures
            timeout == self.spec_timeout(),
    {
        self.timeout
    }

    /// The cap on attempts in flight.
    pub fn max_concurrent(&self) -> (cap: usize)
        ensures
            cap == self.spec_max_concurrent(),
    {
        self.max_concurrent
    }

    /// Looks `port` up in the fixed port-to-service table.
    pub fn detect_service(port: u16) -> (name: Option<String>)
        ensures
            text_of(name) == service_name(port),
    {
        match port {
            22 => Some("ssh".to_string()),
            23 => Some("telnet".to_string()),
            25 => Some("smtp".to_string()),
            53 => Some("dns".to_string()),
            80 => Some("http".to_string()),
            110 => Some("pop3".to_string()),
            143 => Some("imap".to_string()),
            443 => Some("https".to_string()),
            993 => Some("imaps".to_string()),
            995 => Some("pop3s".to_string()),
            3389 => Some("rdp".to_string()),
            5432 => Some("postgresql".to_string()),
            3306 => Some("mysql".to_string()),
            6379 => Some("redis".to_string()),
            27017 => Some("mongodb".to_string()),
            _ => None,
        }
    }

    /// Classifies the one connection attempt made to `port`: established is
    /// open, with the service name from the table; refused or reset is
    /// closed; no answer within the timeout, or an attempt that failed
    /// otherwise, is filtered.
    pub fn scan_port(port: u16, outcome: ConnectOutcome) -> (result: PortScanResult)
        ensures
            result@ == classify(port, outcome),
    {
        match outcome {
            ConnectOutcome::Connected => PortScanResult {
                port,
                state: PortState::Open,
                service: Self::detect_service(port),
                version: None,
                banner: None,
            },
            ConnectOutcome::Refused => PortScanResult {
                port,
                state: PortState::Closed,
                service: None,
                version: None,
                banner: None,
            },
            ConnectOutcome::TimedOut | ConnectOutcome::Failed => PortScanResult {
                port,
                state: PortState::Filtered,
                service: None,
                version: None,
                banner: None,
            },
        }
    }

    /// Begins a scan of `ports`. The scan goes to `literal` if the target is
    /// a literal address, else to the first address of `lookup`; it fails if
    /// there is none. The cap of the scan is this scanner's.
    pub fn port_scan(
        &self,
        literal: Option<ResolvedAddress>,
        lookup: AddressLookup,
        ports: &[u16],
    ) -> (scan: Result<PortScan, ScanError>)
        ensures
            match chosen_address(literal, lookup) {
                Ok(address) => scan matches Ok(s) && s.wf() && s@ == initial_scan(
                    address,
                    ports@,
                    self.spec_max_concurrent() as nat,
                ),
                Err(e) => scan == Err::<PortScan, ScanError>(e),
            },
    {
        let address = match literal {
            Some(address) => address,
            None => match lookup {
                AddressLookup::Resolved(found) => {
                    let mut found = found;
                    if found.len() > 0 {
                        found.remove(0)
                    } else {
                        return Err(ScanError::NoAddress);
                    }
                },
                AddressLookup::Failed => {
                    return Err(ScanError::NoAddress);
                },
                AddressLookup::Aborted => {
                    return Err(ScanError::ResolutionAborted);
                },
            },
        };
        Ok(PortScan::new(address, ports, self.max_concurrent))
    }
}

impl SecurityScanner {
    /// The certificate probe given what the inspection of the peer's
    /// certificate came to.
    pub fn ssl_scan(&self, fetch: CertificateFetch) -> (outcome: ProbeOutcome<SSLCertificate>)
        ensures
            match fetch {
                CertificateFetch::Inspected(cert) => outcome == ProbeOutcome::Success(cert),
                CertificateFetch::Failed(reason) => outcome matches ProbeOutcome::Failed(r) && r@
                    == reason@,
                CertificateFetch::TimedOut => outcome is TimedOut,
            },
    {
        analyze_ssl_certificate(fetch)
    }

    /// The DNS probe of `domain` given the answers of its five lookups.
    pub fn dns_enum(&self, domain: &str, lookups: &DnsLookups) -> (result: Result<
        Vec<DNSRecord>,
        DnsError,
    >)
        ensures
            records_view(result) == merged_records(
                domain@,
                answer_view(lookups.a),
                answer_view(lookups.aaaa),
                answer_view(lookups.mx),
                answer_view(lookups.cname),
                answer_view(lookups.txt),
            ),
    {
        enumerate_dns_records(domain, lookups)
    }

    /// The header probe given what its one request came to.
    pub fn check_headers(&self, fetch: &HeaderFetch) -> (outcome: ProbeOutcome<SecurityHeaders>)
        ensures
            match *fetch {
                HeaderFetch::Response(headers) => outcome matches ProbeOutcome::Success(found)
                    && found@ == security_headers_of(header_values(headers)),
                HeaderFetch::Failed(reason) => outcome matches ProbeOutcome::Failed(r) && r@
                    == reason@,
                HeaderFetch::TimedOut => outcome is TimedOut,
            },
    {
        header_probe(fetch)
    }
}

impl Default for SecurityScanner {
    /// A timeout of thirty seconds and a cap of one hundred.
    fn default() -> (scanner: SecurityScanner)
        ensures
            scanner.spec_timeout() == (TimeSpan { secs: 30, nanos: 0 }),
            scanner.spec_max_concurrent() == 100,
    {
        SecurityScanner { timeout: TimeSpan::from_secs(30), max_concurrent: 100 }
    }
}

} // verus!
