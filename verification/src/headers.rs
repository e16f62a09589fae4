//! The header probe: reading the seven recognised security headers out of a
//! response's header map, the findings that follow from missing headers, and
//! the share of headers present.

use vstd::prelude::*;
use reqwest::header::{HeaderMap, HeaderValue};
use crate::model::{HeaderSetView, ProbeOutcome, SecurityHeaders};
pub use crate::model::VulnerabilitySeverity;
use crate::text::text_of;

verus! {

/// The header map of the `http` crate, as `reqwest` hands it out. Opaque to
/// the verifier; what it holds is named by [`header_values`].
#[verifier::external_type_specification]
#[verifier::external_body]
#[verifier::reject_recursive_types(T)]
pub struct ExHeaderMap<T>(reqwest::header::HeaderMap<T>);

/// A header value of the `http` crate: a string of bytes. Opaque to the
/// verifier; its bytes are named by [`header_value_bytes`].
#[verifier::external_type_specification]
#[verifier::external_body]
pub struct ExHeaderValue(reqwest::header::HeaderValue);

/// What a header map holds: for each header name in it (names are kept in
/// lower case), the values stored under that name, first stored first, each
/// as its bytes.
pub uninterp spec fn header_values(headers: HeaderMap) -> Map<Seq<char>, Seq<Seq<u8>>>;

/// The bytes of a header value.
pub uninterp spec fn header_value_bytes(value: HeaderValue) -> Seq<u8>;

/// A header name as a map keeps it: not empty, and made of lower-case
/// letters, digits and hyphens.
pub open spec fn is_field_name(name: Seq<char>) -> bool {
    &&& name.len() > 0
    &&& forall|i: int|
        0 <= i < name.len() ==> {
            let c = #[trigger] name[i];
            ('a' <= c && c <= 'z') || ('0' <= c && c <= '9') || c == '-'
        }
}

/// A byte that may stand in a header value read as text: printable ASCII, or
/// a tab.
pub open spec fn is_visible_ascii(b: u8) -> bool {
    (32 <= b && b < 127) || b == 9
}

/// Whether every byte of a value may stand in text.
pub open spec fn all_visible_ascii(bytes: Seq<u8>) -> bool {
    forall|i: int| 0 <= i < bytes.len() ==> is_visible_ascii(#[trigger] bytes[i])
}

/// ASCII bytes read as characters.
pub open spec fn ascii_text(bytes: Seq<u8>) -> Seq<char> {
    bytes.map_values(|b: u8| b as char)
}

/// The text of the header `name` in a map with the given content: that of the
/// first value stored under the name, if there is one and it reads as text.
pub open spec fn header_text(values: Map<Seq<char>, Seq<Seq<u8>>>, name: Seq<char>) -> Option<
    Seq<char>,
> {
    if values.contains_key(name) && values[name].len() > 0 && all_visible_ascii(values[name][0]) {
        Some(ascii_text(values[name][0]))
    } else {
        None
    }
}

/// `HeaderMap::get` with a string key. Trusted: for a key in lower case it
/// returns the first value stored under that name, and `None` exactly when
/// the map holds no such name.
#[verifier::external_body]
fn first_value<'a>(headers: &'a HeaderMap, name: &str) -> (value: Option<&'a HeaderValue>)
    requires
        is_field_name(name@),
    ensures
        match value {
            Some(v) => header_values(*headers).contains_key(name@) && header_values(
                *headers,
            )[name@].len() > 0 && header_value_bytes(*v) == header_values(*headers)[name@][0],
            None => !header_values(*headers).contains_key(name@),
        },
{
    headers.get(name)
}

/// `HeaderValue::to_str`. Trusted: it yields the value's bytes as text
/// exactly when each byte is printable ASCII or a tab.
#[verifier::external_body]
fn value_text(value: &HeaderValue) -> (text: Option<String>)
    ensures
        text is Some <==> all_visible_ascii(header_value_bytes(*value)),
        text matches Some(t) ==> t@ == ascii_text(header_value_bytes(*value)),
{
    match value.to_str() {
        Ok(s) => Some(s.to_string()),
        Err(_) => None,
    }
}

/// The text of one header of a response, absent if the response lacks the
/// header or its first value does not read as text.
fn read_header(headers: &HeaderMap, name: &str) -> (text: Option<String>)
    requires
        is_field_name(name@),
    ensures
        text_of(text) == header_text(header_values(*headers), name@),
{
    match first_value(headers, name) {
        Some(value) => value_text(value),
        None => None,
    }
}

/// The seven recognised headers as read from a map with the given content.
pub open spec fn security_headers_of(values: Map<Seq<char>, Seq<Seq<u8>>>) -> HeaderSetView {
    HeaderSetView {
        strict_transport_security: header_text(values, "strict-transport-security"@),
        content_security_policy: header_text(values, "content-security-policy"@),
        x_frame_options: header_text(values, "x-frame-options"@),
        x_content_type_options: header_text(values, "x-content-type-options"@),
        x_xss_protection: header_text(values, "x-xss-protection"@),
        referrer_policy: header_text(values, "referrer-policy"@),
        permissions_policy: header_text(values, "permissions-policy"@),
    }
}

/// Extracts the seven recognised security headers from the headers of a
/// response. A header that the response lacks is absent in the result.
pub fn analyze_security_headers(headers: &HeaderMap) -> (found: SecurityHeaders)
    ensures
        found@ == security_headers_of(header_values(*headers)),
{
    proof {
        reveal_strlit("strict-transport-security");
        reveal_strlit("content-security-policy");
        reveal_strlit("x-frame-options");
        reveal_strlit("x-content-type-options");
        reveal_strlit("x-xss-protection");
        reveal_strlit("referrer-policy");
        reveal_strlit("permissions-policy");
    }
    SecurityHeaders {
        strict_transport_security: read_header(headers, "strict-transport-security"),
        content_security_policy: read_header(headers, "content-security-policy"),
        x_frame_options: read_header(headers, "x-frame-options"),
        x_content_type_options: read_header(headers, "x-content-type-options"),
        x_xss_protection: read_header(headers, "x-xss-protection"),
        referrer_policy: read_header(headers, "referrer-policy"),
        permissions_policy: read_header(headers, "permissions-policy"),
    }
}

/// What fetching a URL's response came to.
#[derive(Debug)]
pub enum HeaderFetch {
    /// A response arrived; these are its headers.
    Response(HeaderMap),
    /// The request failed in transport; the text says why.
    Failed(String),
    /// The request's timeout elapsed.
    TimedOut,
}

/// Why the one request of a header probe gave no response.
#[derive(Debug, Clone, Copy, PartialEq, Eq, Structural)]
pub enum HeaderFailure {
    /// The HTTP client could not be set up.
    Client,
    /// The request could not be sent or was not answered.
    Request,
}

impl HeaderFailure {
    /// The text of this failure.
    pub open spec fn spec_message(self) -> Seq<char> {
        match self {
            HeaderFailure::Client => "Failed to create HTTP client"@,
            HeaderFailure::Request => "Failed to send HTTP request"@,
        }
    }

    /// The text of this failure.
    pub fn message(&self) -> (text: String)
        ensures
            text@ == self.spec_message(),
    {
        match self {
            HeaderFailure::Client => "Failed to create HTTP client".to_string(),
            HeaderFailure::Request => "Failed to send HTTP request".to_string(),
        }
    }
}

impl HeaderFetch {
    /// The fetch that failed for the given reason.
    pub fn failed(why: HeaderFailure) -> (fetch: HeaderFetch)
        ensures
            fetch matches HeaderFetch::Failed(reason) && reason@ == why.spec_message(),
    {
        HeaderFetch::Failed(why.message())
    }
}

/// The seconds that the one request of a header probe may take.
pub const HEADER_TIMEOUT_SECS: u64 = 10;

/// The outcome of the header probe for what the one request came to: the
/// extracted headers for a response, and the failure itself otherwise, with
/// no partial header set.
pub fn header_probe(fetch: &HeaderFetch) -> (outcome: ProbeOutcome<SecurityHeaders>)
    ensures
        match *fetch {
            HeaderFetch::Response(headers) => outcome matches ProbeOutcome::Success(found)
                && found@ == security_headers_of(header_values(headers)),
            HeaderFetch::Failed(reason) => outcome matches ProbeOutcome::Failed(r) && r@
                == reason@,
            HeaderFetch::TimedOut => outcome is TimedOut,
        },
{
    match fetch {
        HeaderFetch::Response(headers) => ProbeOutcome::Success(analyze_security_headers(headers)),
        HeaderFetch::Failed(reason) => ProbeOutcome::Failed(reason.clone()),
        HeaderFetch::TimedOut => ProbeOutcome::TimedOut,
    }
}

/// A finding about a response's security headers.
#[derive(Debug, Clone, PartialEq, Eq)]
pub struct HeaderVulnerability {
    pub header: String,
    pub severity: VulnerabilitySeverity,
    pub description: String,
    pub recommendation: String,
}

/// Mathematical content of a [`HeaderVulnerability`].
pub struct HeaderFindingView {
    pub header: Seq<char>,
    pub severity: VulnerabilitySeverity,
    pub description: Seq<char>,
    pub recommendation: Seq<char>,
}

impl View for HeaderVulnerability {
    type V = HeaderFindingView;

    open spec fn view(&self) -> HeaderFindingView {
        HeaderFindingView {
            header: self.header@,
            severity: self.severity,
            description: self.description@,
            recommendation: self.recommendation@,
        }
    }
}

/// The finding for a response without `Strict-Transport-Security`.
pub open spec fn missing_hsts() -> HeaderFindingView {
    HeaderFindingView {
        header: "Strict-Transport-Security"@,
        severity: VulnerabilitySeverity::High,
        description: "Missing HSTS header"@,
        recommendation: "Add Strict-Transport-Security header"@,
    }
}

/// The finding for a response without `Content-Security-Policy`.
pub open spec fn missing_csp() -> HeaderFindingView {
    HeaderFindingView {
        header: "Content-Security-Policy"@,
        severity: VulnerabilitySeverity::Medium,
        description: "Missing CSP header"@,
        recommendation: "Add Content-Security-Policy header"@,
    }
}

/// The finding for a response without `X-Frame-Options`.
pub open spec fn missing_frame_options() -> HeaderFindingView {
    HeaderFindingView {
        header: "X-Frame-Options"@,
        severity: VulnerabilitySeverity::Medium,
        description: "Missing X-Frame-Options header"@,
        recommendation: "Add X-Frame-Options header"@,
    }
}

/// The finding for a response without `X-Content-Type-Options`.
pub open spec fn missing_content_type_options() -> HeaderFindingView {
    HeaderFindingView {
        header: "X-Content-Type-Options"@,
        severity: VulnerabilitySeverity::Low,
        description: "Missing X-Content-Type-Options header"@,
        recommendation: "Add X-Content-Type-Options: nosniff"@,
    }
}

/// `finding` if `missing`, else nothing.
pub open spec fn finding_if(missing: bool, finding: HeaderFindingView) -> Seq<HeaderFindingView> {
    if missing {
        seq![finding]
    } else {
        Seq::empty()
    }
}

/// The findings for a header set, in the order of the checks: HSTS, CSP,
/// frame options, content-type options. The other three headers give none.
pub open spec fn header_findings(headers: HeaderSetView) -> Seq<HeaderFindingView> {
    finding_if(headers.strict_transport_security is None, missing_hsts()) + finding_if(
        headers.content_security_policy is None,
        missing_csp(),
    ) + finding_if(headers.x_frame_options is None, missing_frame_options()) + finding_if(
        headers.x_content_type_options is None,
        missing_content_type_options(),
    )
}

/// The views of a list of findings.
pub open spec fn finding_views(list: Seq<HeaderVulnerability>) -> Seq<HeaderFindingView> {
    list.map_values(|f: HeaderVulnerability| f@)
}

/// The findings that follow from a header set: a missing HSTS header is of
/// high severity, a missing CSP or frame-options header of medium, a missing
/// content-type-options header of low.
pub fn check_security_header_vulnerabilities(headers: &SecurityHeaders) -> (found: Vec<
    HeaderVulnerability,
>)
    ensures
        finding_views(found@) == header_findings(headers@),
        found@.len() == header_findings(headers@).len(),
{
    let mut found: Vec<HeaderVulnerability> = Vec::new();
    assert(finding_views(found@) =~= Seq::empty());
    if headers.strict_transport_security.is_none() {
        found.push(
            HeaderVulnerability {
                header: "Strict-Transport-Security".to_string(),
                severity: VulnerabilitySeverity::High,
                description: "Missing HSTS header".to_string(),
                recommendation: "Add Strict-Transport-Security header".to_string(),
            },
        );
    }
    assert(finding_views(found@) =~= finding_if(
        headers@.strict_transport_security is None,
        missing_hsts(),
    ));
    let ghost after_hsts = finding_views(found@);
    if headers.content_security_policy.is_none() {
        found.push(
            HeaderVulnerability {
                header: "Content-Security-Policy".to_string(),
                severity: VulnerabilitySeverity::Medium,
                description: "Missing CSP header".to_string(),
                recommendation: "Add Content-Security-Policy header".to_string(),
            },
        );
    }
    assert(finding_views(found@) =~= after_hsts + finding_if(
        headers@.content_security_policy is None,
        missing_csp(),
    ));
    let ghost after_csp = finding_views(found@);
    if headers.x_frame_options.is_none() {
        found.push(
            HeaderVulnerability {
                header: "X-Frame-Options".to_string(),
                severity: VulnerabilitySeverity::Medium,
                description: "Missing X-Frame-Options header".to_string(),
                recommendation: "Add X-Frame-Options header".to_string(),
            },
        );
    }
    assert(finding_views(found@) =~= after_csp + finding_if(
        headers@.x_frame_options is None,
        missing_frame_options(),
    ));
    let ghost after_frame = finding_views(found@);
    if headers.x_content_type_options.is_none() {
        found.push(
            HeaderVulnerability {
                header: "X-Content-Type-Options".to_string(),
                severity: VulnerabilitySeverity::Low,
                description: "Missing X-Content-Type-Options header".to_string(),
                recommendation: "Add X-Content-Type-Options: nosniff".to_string(),
            },
        );
    }
    assert(finding_views(found@) =~= after_frame + finding_if(
        headers@.x_content_type_options is None,
        missing_content_type_options(),
    ));
    found
}

/// One if the header is present, else zero.
pub open spec fn counted(header: Option<Seq<char>>) -> nat {
    if header is Some {
        1
    } else {
        0
    }
}

/// How many of the seven recognised headers are present.
pub open spec fn present_count(headers: HeaderSetView) -> nat {
    counted(headers.strict_transport_security) + counted(headers.content_security_policy)
        + counted(headers.x_frame_options) + counted(headers.x_content_type_options) + counted(
        headers.x_xss_protection,
    ) + counted(headers.referrer_policy) + counted(headers.permissions_policy)
}

/// The score of a header set as a fraction: `present` of `checks` headers
/// are there.
#[derive(Debug, Clone, Copy, PartialEq, Eq, Structural)]
pub struct HeaderScore {
    pub present: u8,
    pub checks: u8,
}

/// The share of the seven recognised headers that are present, as the
/// fraction `present / 7`.
pub fn calculate_security_header_score(headers: &SecurityHeaders) -> (score: HeaderScore)
    ensures
        score.present == present_count(headers@),
        score.checks == 7,
{
    let mut present: u8 = 0;
    if headers.strict_transport_security.is_some() {
        present += 1;
    }
    if headers.content_security_policy.is_some() {
        present += 1;
    }
    if headers.x_frame_options.is_some() {
        present += 1;
    }
    if headers.x_content_type_options.is_some() {
        present += 1;
    }
    if headers.x_xss_protection.is_some() {
        present += 1;
    }
    if headers.referrer_policy.is_some() {
        present += 1;
    }
    if headers.permissions_policy.is_some() {
        present += 1;
    }
    HeaderScore { present, checks: 7 }
}

/// Whether two header sets have the same headers present, whatever their
/// values.
pub open spec fn same_presence(a: HeaderSetView, b: HeaderSetView) -> bool {
    &&& a.strict_transport_security is Some <==> b.strict_transport_security is Some
    &&& a.content_security_policy is Some <==> b.content_security_policy is Some
    &&& a.x_frame_options is Some <==> b.x_frame_options is Some
    &&& a.x_content_type_options is Some <==> b.x_content_type_options is Some
    &&& a.x_xss_protection is Some <==> b.x_xss_protection is Some
    &&& a.referrer_policy is Some <==> b.referrer_policy is Some
    &&& a.permissions_policy is Some <==> b.permissions_policy is Some
}

/// Score and findings depend on which headers are present and on nothing
/// else: two responses with the same headers present score the same and give
/// the same findings.
pub proof fn lemma_presence_decides(a: HeaderSetView, b: HeaderSetView)
    requires
        same_presence(a, b),
    ensures
        present_count(a) == present_count(b),
        header_findings(a) == header_findings(b),
{
}

/// The score lies between nothing and all seven; it is seven exactly when
/// every header is present and zero exactly when none is.
pub proof fn lemma_score_bounds(headers: HeaderSetView)
    ensures
        present_count(headers) <= 7,
        present_count(headers) == 7 <==> (headers.strict_transport_security is Some
            && headers.content_security_policy is Some && headers.x_frame_options is Some
            && headers.x_content_type_options is Some && headers.x_xss_protection is Some
            && headers.referrer_policy is Some && headers.permissions_policy is Some),
        present_count(headers) == 0 <==> (headers.strict_transport_security is None
            && headers.content_security_policy is None && headers.x_frame_options is None
            && headers.x_content_type_options is None && headers.x_xss_protection is None
            && headers.referrer_policy is None && headers.permissions_policy is None),
{
}

} // verus!
