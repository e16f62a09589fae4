//! The vocabulary shared by all probes and by the orchestrator: outcome kinds,
//! state enumerations and the records that probes produce.

use vstd::prelude::*;
use crate::text::{text_of, texts_of};

verus! {

/// A span of time: whole seconds plus a further part in nanoseconds.
#[derive(Debug, Clone, Copy, PartialEq, Eq, Structural)]
pub struct TimeSpan {
    pub secs: u64,
    pub nanos: u32,
}

impl TimeSpan {
    /// The length of the span in nanoseconds.
    pub open spec fn total_nanos(self) -> nat {
        self.secs as nat * 1_000_000_000 + self.nanos as nat
    }

    /// A span of `secs` whole seconds.
    pub fn from_secs(secs: u64) -> (span: TimeSpan)
        ensures
            span.secs == secs,
            span.nanos == 0,
    {
        TimeSpan { secs, nanos: 0 }
    }

    /// A span of `millis` milliseconds, with less than a second in `nanos`.
    pub fn from_millis(millis: u64) -> (span: TimeSpan)
        ensures
            span.secs == millis / 1000,
            span.nanos == (millis % 1000) * 1_000_000,
            span.total_nanos() == millis as nat * 1_000_000,
    {
        let secs: u64 = millis / 1000;
        let rest: u64 = millis % 1000;
        let nanos: u32 = (rest * 1_000_000) as u32;
        assert(secs as nat * 1_000_000_000 + (rest as nat) * 1_000_000 == millis as nat
            * 1_000_000) by (nonlinear_arith)
            requires
                secs == millis / 1000,
                rest == millis % 1000,
        ;
        TimeSpan { secs, nanos }
    }

    /// The whole seconds of the span.
    pub fn as_secs(&self) -> (secs: u64)
        ensures
            secs == self.secs,
    {
        self.secs
    }

    /// Whether this span is no longer than `other`.
    pub fn at_most(&self, other: &TimeSpan) -> (r: bool)
        ensures
            r == (self.total_nanos() <= other.total_nanos()),
    {
        let a: u128 = self.secs as u128 * 1_000_000_000 + self.nanos as u128;
        let b: u128 = other.secs as u128 * 1_000_000_000 + other.nanos as u128;
        a <= b
    }
}

/// What a single bounded connection attempt came to.
#[derive(Debug, Clone, Copy, PartialEq, Eq, Structural)]
pub enum ConnectOutcome {
    /// The connection was established within the timeout.
    Connected,
    /// The peer refused or reset the connection within the timeout.
    Refused,
    /// The timeout elapsed with no response.
    TimedOut,
    /// The attempt failed within the timeout for another reason, such as an
    /// unreachable network or the lack of a local socket.
    Failed,
}

/// Why a connection attempt ended in an error.
#[derive(Debug, Clone, Copy, PartialEq, Eq, Structural)]
pub enum ConnectError {
    /// The peer refused the connection.
    Refused,
    /// The peer reset or aborted the connection.
    Reset,
    /// Anything else: the attempt got no answer from the peer.
    Other,
}

impl ConnectOutcome {
    /// What an attempt that ended in `error` came to: a refusal or reset is an
    /// answer of the peer, anything else is a failed attempt.
    pub open spec fn spec_from_error(error: ConnectError) -> ConnectOutcome {
        match error {
            ConnectError::Refused => ConnectOutcome::Refused,
            ConnectError::Reset => ConnectOutcome::Refused,
            ConnectError::Other => ConnectOutcome::Failed,
        }
    }

    /// What an attempt that ended in `error` came to.
    pub fn from_error(error: ConnectError) -> (outcome: ConnectOutcome)
        ensures
            outcome == Self::spec_from_error(error),
    {
        match error {
            ConnectError::Refused => ConnectOutcome::Refused,
            ConnectError::Reset => ConnectOutcome::Refused,
            ConnectError::Other => ConnectOutcome::Failed,
        }
    }
}

/// The family of a resolved address.
#[derive(Debug, Clone, Copy, PartialEq, Eq, Structural)]
pub enum AddressFamily {
    V4,
    V6,
}

/// An address that a target resolved to: its family and its textual form.
#[derive(Debug, Clone, PartialEq, Eq)]
pub struct ResolvedAddress {
    pub family: AddressFamily,
    pub text: String,
}

/// What one forward lookup of a name came to.
#[derive(Debug, Clone, PartialEq, Eq)]
pub enum AddressLookup {
    /// The resolver answered with these addresses, possibly none.
    Resolved(Vec<ResolvedAddress>),
    /// The resolver reported an error.
    Failed,
    /// The lookup was abandoned before the resolver answered.
    Aborted,
}

/// The state of a probed port.
#[derive(Debug, Clone, Copy, PartialEq, Eq, Structural)]
pub enum PortState {
    Open,
    Closed,
    Filtered,
    OpenFiltered,
}

/// The result of probing one port.
#[derive(Debug, Clone, PartialEq, Eq)]
pub struct PortScanResult {
    pub port: u16,
    pub state: PortState,
    pub service: Option<String>,
    pub version: Option<String>,
    pub banner: Option<String>,
}

/// Mathematical content of a [`PortScanResult`].
pub struct PortResultView {
    pub port: u16,
    pub state: PortState,
    pub service: Option<Seq<char>>,
    pub version: Option<Seq<char>>,
    pub banner: Option<Seq<char>>,
}

impl View for PortScanResult {
    type V = PortResultView;

    open spec fn view(&self) -> PortResultView {
        PortResultView {
            port: self.port,
            state: self.state,
            service: text_of(self.service),
            version: text_of(self.version),
            banner: text_of(self.banner),
        }
    }
}

/// The tagged result shape that every probe returns.
#[derive(Debug, Clone, PartialEq, Eq)]
pub enum ProbeOutcome<T> {
    /// The probe ran to completion and produced its data.
    Success(T),
    /// The probe failed; the text says why.
    Failed(String),
    /// The probe's timeout elapsed.
    TimedOut,
}

/// The status of a scan, without its data.
#[derive(Debug, Clone, PartialEq, Eq)]
pub enum ScanStatus {
    Success,
    Failed(String),
    Timeout,
    Partial,
}

/// Whether `status` is the status of `outcome`: success, the failure with
/// its reason, or timeout.
pub open spec fn status_reflects<T>(status: ScanStatus, outcome: ProbeOutcome<T>) -> bool {
    match outcome {
        ProbeOutcome::Success(_) => status is Success,
        ProbeOutcome::Failed(reason) => status matches ScanStatus::Failed(r) && r@ == reason@,
        ProbeOutcome::TimedOut => status is Timeout,
    }
}

impl<T> ProbeOutcome<T> {
    /// Whether the probe produced data.
    pub fn is_success(&self) -> (r: bool)
        ensures
            r == (self is Success),
    {
        match self {
            ProbeOutcome::Success(_) => true,
            _ => false,
        }
    }

    /// The outcome as a result: the data, or the text of what went wrong. A
    /// timeout reads as `timed_out`.
    pub fn into_result(self, timed_out: &str) -> (result: Result<T, String>)
        ensures
            match self {
                ProbeOutcome::Success(data) => result == Ok::<T, String>(data),
                ProbeOutcome::Failed(reason) => result == Err::<T, String>(reason),
                ProbeOutcome::TimedOut => result matches Err(text) && text@ == timed_out@,
            },
    {
        match self {
            ProbeOutcome::Success(data) => Ok(data),
            ProbeOutcome::Failed(reason) => Err(reason),
            ProbeOutcome::TimedOut => Err(timed_out.to_string()),
        }
    }

    /// The status of this outcome: success, the failure with its reason, or
    /// timeout.
    pub fn status(&self) -> (s: ScanStatus)
        ensures
            status_reflects(s, *self),
    {
        match self {
            ProbeOutcome::Success(_) => ScanStatus::Success,
            ProbeOutcome::Failed(reason) => ScanStatus::Failed(reason.clone()),
            ProbeOutcome::TimedOut => ScanStatus::Timeout,
        }
    }
}

/// The fields read from a server certificate. Instants are seconds since the
/// Unix epoch.
#[derive(Debug, Clone, PartialEq, Eq)]
pub struct SSLCertificate {
    pub subject: String,
    pub issuer: String,
    pub valid_from: i64,
    pub valid_until: i64,
    pub signature_algorithm: String,
    pub key_size: u32,
    pub serial_number: String,
    pub san: Vec<String>,
}

/// Mathematical content of an [`SSLCertificate`].
pub struct CertificateView {
    pub subject: Seq<char>,
    pub issuer: Seq<char>,
    pub valid_from: int,
    pub valid_until: int,
    pub signature_algorithm: Seq<char>,
    pub key_size: nat,
    pub serial_number: Seq<char>,
    pub san: Seq<Seq<char>>,
}

impl View for SSLCertificate {
    type V = CertificateView;

    open spec fn view(&self) -> CertificateView {
        CertificateView {
            subject: self.subject@,
            issuer: self.issuer@,
            valid_from: self.valid_from as int,
            valid_until: self.valid_until as int,
            signature_algorithm: self.signature_algorithm@,
            key_size: self.key_size as nat,
            serial_number: self.serial_number@,
            san: texts_of(self.san@),
        }
    }
}

/// One DNS record of a domain.
#[derive(Debug, Clone, PartialEq, Eq)]
pub struct DNSRecord {
    pub record_type: String,
    pub name: String,
    pub value: String,
    pub ttl: u32,
}

/// Mathematical content of a [`DNSRecord`].
pub struct RecordView {
    pub record_type: Seq<char>,
    pub name: Seq<char>,
    pub value: Seq<char>,
    pub ttl: nat,
}

impl View for DNSRecord {
    type V = RecordView;

    open spec fn view(&self) -> RecordView {
        RecordView {
            record_type: self.record_type@,
            name: self.name@,
            value: self.value@,
            ttl: self.ttl as nat,
        }
    }
}

/// The seven recognised security headers of a response, each absent or
/// present with its value.
#[derive(Debug, Clone, PartialEq, Eq)]
pub struct SecurityHeaders {
    pub strict_transport_security: Option<String>,
    pub content_security_policy: Option<String>,
    pub x_frame_options: Option<String>,
    pub x_content_type_options: Option<String>,
    pub x_xss_protection: Option<String>,
    pub referrer_policy: Option<String>,
    pub permissions_policy: Option<String>,
}

/// Mathematical content of a [`SecurityHeaders`].
pub struct HeaderSetView {
    pub strict_transport_security: Option<Seq<char>>,
    pub content_security_policy: Option<Seq<char>>,
    pub x_frame_options: Option<Seq<char>>,
    pub x_content_type_options: Option<Seq<char>>,
    pub x_xss_protection: Option<Seq<char>>,
    pub referrer_policy: Option<Seq<char>>,
    pub permissions_policy: Option<Seq<char>>,
}

impl View for SecurityHeaders {
    type V = HeaderSetView;

    open spec fn view(&self) -> HeaderSetView {
        HeaderSetView {
            strict_transport_security: text_of(self.strict_transport_security),
            content_security_policy: text_of(self.content_security_policy),
            x_frame_options: text_of(self.x_frame_options),
            x_content_type_options: text_of(self.x_content_type_options),
            x_xss_protection: text_of(self.x_xss_protection),
            referrer_policy: text_of(self.referrer_policy),
            permissions_policy: text_of(self.permissions_policy),
        }
    }
}

/// How severe a finding is.
#[derive(Debug, Clone, Copy, PartialEq, Eq, Structural)]
pub enum VulnerabilitySeverity {
    Low,
    Medium,
    High,
    Critical,
}

} // verus!
