//! The certificate probe: what one bounded attempt to inspect a peer's
//! certificate came to, as the certificate's fields or a typed failure; and
//! the findings that follow from a certificate.

use vstd::prelude::*;
use crate::clock::unix_now;
use crate::model::{CertificateView, ProbeOutcome, SSLCertificate};
pub use crate::model::VulnerabilitySeverity;
use crate::text::{decimal_digits, push_decimal};

verus! {

/// The seconds that the one attempt of a certificate probe may take.
pub const SSL_TIMEOUT_SECS: u64 = 10;

/// The seconds in thirty days: a certificate that expires sooner is reported.
pub const EXPIRY_WINDOW_SECS: i64 = 2_592_000;

/// The smallest key size, in bits, that is not reported as weak.
pub const MIN_KEY_BITS: u32 = 2048;

/// The text `target:port`, with the port in decimal.
pub open spec fn socket_address_text(target: Seq<char>, port: u16) -> Seq<char> {
    target + ":"@ + decimal_digits(port as nat)
}

/// The address to connect to for `target` and `port`, as `target:port`.
pub fn socket_address(target: &str, port: u16) -> (address: String)
    ensures
        address@ == socket_address_text(target@, port),
{
    let mut address = target.to_string();
    address.append(":");
    push_decimal(&mut address, port as u64);
    address
}

/// Why no certificate could be inspected.
#[derive(Debug, Clone, Copy, PartialEq, Eq, Structural)]
pub enum CertificateFailure {
    /// The connection could not be established.
    Connect,
    /// The connection stood, but the handshake did not complete.
    Handshake,
    /// The handshake completed, but the peer presented no certificate.
    NoCertificate,
    /// The peer's certificate could not be read.
    Unreadable,
}

impl CertificateFailure {
    /// The text of this failure.
    pub open spec fn spec_message(self) -> Seq<char> {
        match self {
            CertificateFailure::Connect => "Failed to connect"@,
            CertificateFailure::Handshake => "TLS handshake failed"@,
            CertificateFailure::NoCertificate => "No certificate presented"@,
            CertificateFailure::Unreadable => "Certificate could not be read"@,
        }
    }

    /// The text of this failure.
    pub fn message(&self) -> (text: String)
        ensures
            text@ == self.spec_message(),
    {
        match self {
            CertificateFailure::Connect => "Failed to connect".to_string(),
            CertificateFailure::Handshake => "TLS handshake failed".to_string(),
            CertificateFailure::NoCertificate => "No certificate presented".to_string(),
            CertificateFailure::Unreadable => "Certificate could not be read".to_string(),
        }
    }
}

/// What the one bounded attempt to inspect a peer's certificate came to.
#[derive(Debug, Clone, PartialEq, Eq)]
pub enum CertificateFetch {
    /// The handshake completed and these are the fields of the leaf
    /// certificate that the peer presented.
    Inspected(SSLCertificate),
    /// The attempt failed; the text says why.
    Failed(String),
    /// The attempt's timeout elapsed.
    TimedOut,
}

impl CertificateFetch {
    /// The fetch that failed for the given reason.
    pub fn failed(why: CertificateFailure) -> (fetch: CertificateFetch)
        ensures
            fetch matches CertificateFetch::Failed(reason) && reason@ == why.spec_message(),
    {
        CertificateFetch::Failed(why.message())
    }
}

/// The outcome of the certificate probe for what the inspection came to: the
/// inspected certificate as it is, and the failure itself otherwise. A
/// failure carries no certificate data.
pub fn analyze_ssl_certificate(fetch: CertificateFetch) -> (outcome: ProbeOutcome<SSLCertificate>)
    ensures
        match fetch {
            CertificateFetch::Inspected(cert) => outcome == ProbeOutcome::Success(cert),
            CertificateFetch::Failed(reason) => outcome matches ProbeOutcome::Failed(r) && r@
                == reason@,
            CertificateFetch::TimedOut => outcome is TimedOut,
        },
{
    match fetch {
        CertificateFetch::Inspected(cert) => ProbeOutcome::Success(cert),
        CertificateFetch::Failed(reason) => ProbeOutcome::Failed(reason),
        CertificateFetch::TimedOut => ProbeOutcome::TimedOut,
    }
}

/// A finding about a certificate.
#[derive(Debug, Clone, PartialEq, Eq)]
pub struct SslVulnerability {
    pub name: String,
    pub severity: VulnerabilitySeverity,
    pub description: String,
    pub recommendation: String,
}

/// Mathematical content of an [`SslVulnerability`].
pub struct SslFindingView {
    pub name: Seq<char>,
    pub severity: VulnerabilitySeverity,
    pub description: Seq<char>,
    pub recommendation: Seq<char>,
}

impl View for SslVulnerability {
    type V = SslFindingView;

    open spec fn view(&self) -> SslFindingView {
        SslFindingView {
            name: self.name@,
            severity: self.severity,
            description: self.description@,
            recommendation: self.recommendation@,
        }
    }
}

/// Whether a certificate valid until `valid_until` expires within thirty days
/// of `now`.
pub open spec fn expires_soon(valid_until: int, now: int) -> bool {
    valid_until < now + EXPIRY_WINDOW_SECS
}

/// The finding for a certificate that expires within thirty days.
pub open spec fn expiring_finding() -> SslFindingView {
    SslFindingView {
        name: "Certificate Expiring Soon"@,
        severity: VulnerabilitySeverity::Medium,
        description: "Certificate expires within 30 days"@,
        recommendation: "Renew certificate before expiration"@,
    }
}

/// The finding for a certificate whose key has `key_size` bits, fewer than
/// 2048.
pub open spec fn weak_key_finding(key_size: nat) -> SslFindingView {
    SslFindingView {
        name: "Weak Key Size"@,
        severity: VulnerabilitySeverity::High,
        description: "Key size "@ + decimal_digits(key_size) + " is below recommended 2048 bits"@,
        recommendation: "Upgrade to at least 2048-bit key"@,
    }
}

/// The findings for a certificate at the instant `now`: first expiry, then
/// key size.
pub open spec fn ssl_findings(cert: CertificateView, now: int) -> Seq<SslFindingView> {
    (if expires_soon(cert.valid_until, now) {
        seq![expiring_finding()]
    } else {
        Seq::empty()
    }) + (if cert.key_size < 2048 {
        seq![weak_key_finding(cert.key_size)]
    } else {
        Seq::empty()
    })
}

/// The views of a list of findings.
pub open spec fn ssl_finding_views(list: Seq<SslVulnerability>) -> Seq<SslFindingView> {
    list.map_values(|f: SslVulnerability| f@)
}

/// The findings that follow from a certificate at the instant `now`: expiry
/// within thirty days is of medium severity, a key of fewer than 2048 bits of
/// high severity.
pub fn certificate_findings(cert: &SSLCertificate, now: i64) -> (found: Vec<SslVulnerability>)
    ensures
        ssl_finding_views(found@) == ssl_findings(cert@, now as int),
        found@.len() == ssl_findings(cert@, now as int).len(),
{
    let mut found: Vec<SslVulnerability> = Vec::new();
    let soon = if now > i64::MAX - EXPIRY_WINDOW_SECS {
        true
    } else {
        cert.valid_until < now + EXPIRY_WINDOW_SECS
    };
    assert(soon == expires_soon(cert@.valid_until, now as int));
    if soon {
        found.push(
            SslVulnerability {
                name: "Certificate Expiring Soon".to_string(),
                severity: VulnerabilitySeverity::Medium,
                description: "Certificate expires within 30 days".to_string(),
                recommendation: "Renew certificate before expiration".to_string(),
            },
        );
    }
    let ghost after_expiry = ssl_finding_views(found@);
    assert(after_expiry =~= if soon {
        seq![expiring_finding()]
    } else {
        Seq::empty()
    });
    if cert.key_size < MIN_KEY_BITS {
        let mut description = "Key size ".to_string();
        push_decimal(&mut description, cert.key_size as u64);
        description.append(" is below recommended 2048 bits");
        found.push(
            SslVulnerability {
                name: "Weak Key Size".to_string(),
                severity: VulnerabilitySeverity::High,
                description,
                recommendation: "Upgrade to at least 2048-bit key".to_string(),
            },
        );
    }
    assert(ssl_finding_views(found@) =~= after_expiry + (if cert@.key_size < 2048 {
        seq![weak_key_finding(cert@.key_size)]
    } else {
        Seq::empty()
    }));
    found
}

/// The findings that follow from a certificate now. The instant is read from
/// the system clock, so what holds of the result is what
/// [`certificate_findings`] states for some instant.
pub fn check_ssl_vulnerabilities(cert: &SSLCertificate) -> (found: Vec<SslVulnerability>)
    ensures
        exists|now: int|
            i64::MIN <= now <= i64::MAX && ssl_finding_views(found@) == #[trigger] ssl_findings(
                cert@,
                now,
            ),
        cert@.key_size < 2048 ==> found@.len() >= 1 && found@.last()@ == weak_key_finding(
            cert@.key_size,
        ),
        cert@.key_size >= 2048 ==> found@.len() <= 1,
{
    let now = unix_now();
    let found = certificate_findings(cert, now);
    assert(ssl_finding_views(found@) == ssl_findings(cert@, now as int));
    proof {
        lemma_weak_key_reported(cert@, now as int);
        if found@.len() > 0 {
            assert(ssl_finding_views(found@).last() == found@.last()@);
        }
    }
    found
}

/// A key of fewer than 2048 bits is reported whatever the instant, and a key
/// of at least 2048 bits never is: the clock decides on the expiry finding
/// alone.
pub proof fn lemma_weak_key_reported(cert: CertificateView, now: int)
    ensures
        cert.key_size < 2048 ==> ssl_findings(cert, now).len() >= 1 && ssl_findings(
            cert,
            now,
        ).last() == weak_key_finding(cert.key_size),
        cert.key_size >= 2048 ==> ssl_findings(cert, now).len() <= 1 && (ssl_findings(
            cert,
            now,
        ).len() == 1 <==> expires_soon(cert.valid_until, now)),
{
}

} // verus!
