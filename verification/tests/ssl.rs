use scorton_core::model::{ProbeOutcome, SSLCertificate};
use scorton_core::ssl::{
    analyze_ssl_certificate, certificate_findings, check_ssl_vulnerabilities, socket_address,
    CertificateFailure, CertificateFetch, SslVulnerability, VulnerabilitySeverity,
    EXPIRY_WINDOW_SECS, MIN_KEY_BITS, SSL_TIMEOUT_SECS,
};

const DAY: i64 = 86_400;

fn cert(valid_until: i64, key_size: u32) -> SSLCertificate {
    SSLCertificate {
        subject: "CN=example.com".to_string(),
        issuer: "Example CA".to_string(),
        valid_from: 0,
        valid_until,
        signature_algorithm: "SHA256-RSA".to_string(),
        key_size,
        serial_number: "01".to_string(),
        san: vec!["example.com".to_string()],
    }
}

fn expiring() -> SslVulnerability {
    SslVulnerability {
        name: "Certificate Expiring Soon".to_string(),
        severity: VulnerabilitySeverity::Medium,
        description: "Certificate expires within 30 days".to_string(),
        recommendation: "Renew certificate before expiration".to_string(),
    }
}

fn weak(bits: u32) -> SslVulnerability {
    SslVulnerability {
        name: "Weak Key Size".to_string(),
        severity: VulnerabilitySeverity::High,
        description: format!("Key size {} is below recommended 2048 bits", bits),
        recommendation: "Upgrade to at least 2048-bit key".to_string(),
    }
}

#[test]
fn constants() {
    assert_eq!(SSL_TIMEOUT_SECS, 10);
    assert_eq!(EXPIRY_WINDOW_SECS, 30 * DAY);
    assert_eq!(MIN_KEY_BITS, 2048);
}

#[test]
fn socket_address_joins_target_and_port() {
    assert_eq!(socket_address("example.com", 443), "example.com:443");
    assert_eq!(socket_address("10.0.0.1", 0), "10.0.0.1:0");
    assert_eq!(socket_address("h", 65535), "h:65535");
    assert_eq!(socket_address("", 8080), ":8080");
    assert_eq!(socket_address("h", 7), "h:7");
    assert_eq!(socket_address("h", 100), "h:100");
}

fn leaf() -> SSLCertificate {
    SSLCertificate {
        subject: "CN=www.example.org, O=Example Org".to_string(),
        issuer: "CN=Example Issuing CA 3".to_string(),
        valid_from: 1_690_000_000,
        valid_until: 1_720_000_000,
        signature_algorithm: "ecdsa-with-SHA384".to_string(),
        key_size: 384,
        serial_number: "0A1B2C".to_string(),
        san: vec!["www.example.org".to_string(), "example.org".to_string()],
    }
}

#[test]
fn inspected_certificate_is_handed_on_as_it_is() {
    assert_eq!(
        analyze_ssl_certificate(CertificateFetch::Inspected(leaf())),
        ProbeOutcome::Success(leaf())
    );
    // Nothing is put in the place of what the peer presented.
    let odd = SSLCertificate {
        subject: String::new(),
        issuer: String::new(),
        valid_from: 10,
        valid_until: 5,
        signature_algorithm: String::new(),
        key_size: 0,
        serial_number: String::new(),
        san: vec![],
    };
    assert_eq!(
        analyze_ssl_certificate(CertificateFetch::Inspected(odd.clone())),
        ProbeOutcome::Success(odd)
    );
}

#[test]
fn failed_connection_gives_no_certificate() {
    assert_eq!(
        analyze_ssl_certificate(CertificateFetch::failed(CertificateFailure::Connect)),
        ProbeOutcome::Failed("Failed to connect".to_string())
    );
    assert_eq!(
        analyze_ssl_certificate(CertificateFetch::Failed("no route to host".to_string())),
        ProbeOutcome::Failed("no route to host".to_string())
    );
    assert_eq!(analyze_ssl_certificate(CertificateFetch::TimedOut), ProbeOutcome::TimedOut);
}

#[test]
fn failure_texts() {
    assert_eq!(CertificateFailure::Connect.message(), "Failed to connect");
    assert_eq!(CertificateFailure::Handshake.message(), "TLS handshake failed");
    assert_eq!(CertificateFailure::NoCertificate.message(), "No certificate presented");
    assert_eq!(CertificateFailure::Unreadable.message(), "Certificate could not be read");
    for why in [
        CertificateFailure::Connect,
        CertificateFailure::Handshake,
        CertificateFailure::NoCertificate,
        CertificateFailure::Unreadable,
    ] {
        assert_eq!(CertificateFetch::failed(why), CertificateFetch::Failed(why.message()));
    }
}

#[test]
fn test_ssl_analysis() {
    let result = analyze_ssl_certificate(CertificateFetch::Inspected(cert(2_000_000_000, 2048)));
    assert!(result.is_success());

    let cert = match result {
        ProbeOutcome::Success(cert) => cert,
        other => panic!("unexpected outcome {:?}", other),
    };
    assert!(!cert.subject.is_empty());
    assert!(!cert.issuer.is_empty());
}

#[test]
fn test_ssl_certificate_analysis() {
    let _result = analyze_ssl_certificate(CertificateFetch::Inspected(leaf()));
    match _result {
        ProbeOutcome::Success(cert) => {
            assert_eq!(cert.subject, "CN=www.example.org, O=Example Org");
            assert_eq!(cert.issuer, "CN=Example Issuing CA 3");
            assert_eq!(cert.key_size, 384);
            assert_eq!(cert.serial_number, "0A1B2C");
            assert_eq!(cert.valid_from, 1_690_000_000);
            assert_eq!(cert.valid_until, 1_720_000_000);
            assert_eq!(cert.san.len(), 2);
        }
        other => panic!("unexpected outcome {:?}", other),
    }
}

#[test]
fn findings_at_the_expiry_boundary() {
    let now = 1_700_000_000;
    // Expires exactly thirty days from now: not reported.
    assert_eq!(certificate_findings(&cert(now + 30 * DAY, 2048), now), vec![]);
    // One second sooner: reported.
    assert_eq!(certificate_findings(&cert(now + 30 * DAY - 1, 2048), now), vec![expiring()]);
    // Already expired: reported.
    assert_eq!(certificate_findings(&cert(now - 1, 4096), now), vec![expiring()]);
}

#[test]
fn findings_at_the_key_size_boundary() {
    let now = 1_700_000_000;
    let far = now + 365 * DAY;
    assert_eq!(certificate_findings(&cert(far, 2048), now), vec![]);
    assert_eq!(certificate_findings(&cert(far, 2047), now), vec![weak(2047)]);
    assert_eq!(certificate_findings(&cert(far, 1024), now), vec![weak(1024)]);
    assert_eq!(certificate_findings(&cert(far, 0), now), vec![weak(0)]);
}

#[test]
fn both_findings_come_in_order() {
    let now = 1_700_000_000;
    assert_eq!(
        certificate_findings(&cert(now + DAY, 512), now),
        vec![expiring(), weak(512)]
    );
}

#[test]
fn findings_near_the_end_of_time() {
    // Thirty days after `now` lies beyond every instant: every certificate
    // expires sooner.
    assert_eq!(certificate_findings(&cert(i64::MAX, 2048), i64::MAX - 10), vec![expiring()]);
    assert_eq!(certificate_findings(&cert(i64::MAX, 2048), i64::MAX - 30 * DAY), vec![]);
    assert_eq!(
        certificate_findings(&cert(i64::MAX - 1, 2048), i64::MAX - 30 * DAY),
        vec![expiring()]
    );
    assert_eq!(certificate_findings(&cert(i64::MIN, 2048), i64::MIN), vec![expiring()]);
}

#[test]
fn findings_against_the_clock() {
    assert_eq!(check_ssl_vulnerabilities(&cert(i64::MAX, 4096)), vec![]);
    assert_eq!(check_ssl_vulnerabilities(&cert(0, 4096)), vec![expiring()]);
    assert_eq!(check_ssl_vulnerabilities(&cert(i64::MAX, 1024)), vec![weak(1024)]);
    assert_eq!(check_ssl_vulnerabilities(&cert(0, 1024)), vec![expiring(), weak(1024)]);
}

#[test]
fn findings_follow_from_the_inspected_certificate() {
    let probe = |c: SSLCertificate| match analyze_ssl_certificate(CertificateFetch::Inspected(c)) {
        ProbeOutcome::Success(cert) => check_ssl_vulnerabilities(&cert),
        other => panic!("unexpected outcome {:?}", other),
    };
    assert_eq!(probe(cert(i64::MAX, 2048)), vec![]);
    assert_eq!(probe(cert(i64::MAX, 1024)), vec![weak(1024)]);
    assert_eq!(probe(leaf()), vec![expiring(), weak(384)]);
}
