//! The scans that a front end offers by name: which name stands for which
//! probe, which ports each front end scans, how a target becomes a URL, and
//! the texts of its error answers.

use vstd::prelude::*;
use crate::engine::ComplianceFramework;
use crate::text::{has_prefix, same_text, starts_with, texts_of};

verus! {

/// A probe that can be asked for by name.
#[derive(Debug, Clone, Copy, PartialEq, Eq, Structural)]
pub enum ScanTool {
    PortScan,
    SslScan,
    DnsEnum,
    HeadersCheck,
}

impl ScanTool {
    /// The name of the tool.
    pub open spec fn spec_name(self) -> Seq<char> {
        match self {
            ScanTool::PortScan => "port_scan"@,
            ScanTool::SslScan => "ssl_scan"@,
            ScanTool::DnsEnum => "dns_enum"@,
            ScanTool::HeadersCheck => "headers_check"@,
        }
    }

    /// The name of the tool.
    pub fn name(&self) -> (name: &'static str)
        ensures
            name@ == self.spec_name(),
    {
        match self {
            ScanTool::PortScan => "port_scan",
            ScanTool::SslScan => "ssl_scan",
            ScanTool::DnsEnum => "dns_enum",
            ScanTool::HeadersCheck => "headers_check",
        }
    }

    /// The tool of the given name, if there is one.
    pub open spec fn spec_parse(name: Seq<char>) -> Option<ScanTool> {
        if name == "port_scan"@ {
            Some(ScanTool::PortScan)
        } else if name == "ssl_scan"@ {
            Some(ScanTool::SslScan)
        } else if name == "dns_enum"@ {
            Some(ScanTool::DnsEnum)
        } else if name == "headers_check"@ {
            Some(ScanTool::HeadersCheck)
        } else {
            None
        }
    }

    /// The tool of the given name, if there is one.
    pub fn parse(name: &str) -> (tool: Option<ScanTool>)
        ensures
            tool == Self::spec_parse(name@),
    {
        if same_text(name, "port_scan") {
            Some(ScanTool::PortScan)
        } else if same_text(name, "ssl_scan") {
            Some(ScanTool::SslScan)
        } else if same_text(name, "dns_enum") {
            Some(ScanTool::DnsEnum)
        } else if same_text(name, "headers_check") {
            Some(ScanTool::HeadersCheck)
        } else {
            None
        }
    }

    /// The text for a probe of this tool that timed out: that of a request
    /// that was not answered for the header check, that of a connection that
    /// was not answered for the others.
    pub open spec fn spec_timeout_message(self) -> Seq<char> {
        match self {
            ScanTool::HeadersCheck => "Failed to send HTTP request"@,
            _ => "Connection timeout"@,
        }
    }

    /// The text for a probe of this tool that timed out.
    pub fn timeout_message(&self) -> (text: &'static str)
        ensures
            text@ == self.spec_timeout_message(),
    {
        match self {
            ScanTool::HeadersCheck => "Failed to send HTTP request",
            _ => "Connection timeout",
        }
    }

    /// What the failure text of the tool begins with.
    pub open spec fn spec_failure_prefix(self) -> Seq<char> {
        match self {
            ScanTool::PortScan => "Port scan failed: "@,
            ScanTool::SslScan => "SSL scan failed: "@,
            ScanTool::DnsEnum => "DNS enumeration failed: "@,
            ScanTool::HeadersCheck => "Headers check failed: "@,
        }
    }

    /// The text that answers a failure of the tool with the given error.
    pub fn failure_message(&self, error: &str) -> (text: String)
        ensures
            text@ == self.spec_failure_prefix() + error@,
    {
        let mut text = match self {
            ScanTool::PortScan => "Port scan failed: ".to_string(),
            ScanTool::SslScan => "SSL scan failed: ".to_string(),
            ScanTool::DnsEnum => "DNS enumeration failed: ".to_string(),
            ScanTool::HeadersCheck => "Headers check failed: ".to_string(),
        };
        text.append(error);
        text
    }
}

/// Each tool is found again by its name.
pub proof fn lemma_parse_inverts_name(tool: ScanTool)
    ensures
        ScanTool::spec_parse(tool.spec_name()) == Some(tool),
{
    reveal_strlit("port_scan");
    reveal_strlit("ssl_scan");
    reveal_strlit("dns_enum");
    reveal_strlit("headers_check");
    match tool {
        ScanTool::PortScan => {},
        ScanTool::SslScan => {
            assert("ssl_scan"@.len() != "port_scan"@.len());
        },
        ScanTool::DnsEnum => {
            assert("dns_enum"@.len() != "port_scan"@.len());
            assert("dns_enum"@[0] != "ssl_scan"@[0]);
        },
        ScanTool::HeadersCheck => {
            assert("headers_check"@.len() != "port_scan"@.len());
            assert("headers_check"@.len() != "ssl_scan"@.len());
            assert("headers_check"@.len() != "dns_enum"@.len());
        },
    }
}

/// The names of the scans on offer: the four tools, then the comprehensive
/// scan.
pub fn get_supported_tools() -> (names: Vec<String>)
    ensures
        texts_of(names@) == seq![
            "port_scan"@,
            "ssl_scan"@,
            "dns_enum"@,
            "headers_check"@,
            "comprehensive"@,
        ],
{
    let mut names: Vec<String> = Vec::new();
    names.push("port_scan".to_string());
    names.push("ssl_scan".to_string());
    names.push("dns_enum".to_string());
    names.push("headers_check".to_string());
    names.push("comprehensive".to_string());
    assert(texts_of(names@) =~= seq![
        "port_scan"@,
        "ssl_scan"@,
        "dns_enum"@,
        "headers_check"@,
        "comprehensive"@,
    ]);
    names
}

/// The ports that a port scan asked for through the embedding interface
/// probes.
pub fn binding_ports() -> (ports: Vec<u16>)
    ensures
        ports@ == seq![
            21u16,
            22u16,
            23u16,
            25u16,
            53u16,
            80u16,
            110u16,
            135u16,
            139u16,
            143u16,
            443u16,
            993u16,
            995u16,
            1723u16,
            3389u16,
        ],
{
    let ports: Vec<u16> = vec![21, 22, 23, 25, 53, 80, 110, 135, 139, 143, 443, 993, 995, 1723, 3389];
    assert(ports@ =~= seq![
        21u16,
        22u16,
        23u16,
        25u16,
        53u16,
        80u16,
        110u16,
        135u16,
        139u16,
        143u16,
        443u16,
        993u16,
        995u16,
        1723u16,
        3389u16,
    ]);
    ports
}

/// The ports that a port scan asked for through the HTTP interface probes.
pub fn api_ports() -> (ports: Vec<u16>)
    ensures
        ports@ == seq![22u16, 80u16, 443u16, 8080u16, 8443u16],
{
    let ports: Vec<u16> = vec![22, 80, 443, 8080, 8443];
    assert(ports@ =~= seq![22u16, 80u16, 443u16, 8080u16, 8443u16]);
    ports
}

/// The URL that a header check of `target` fetches: the target itself if it
/// begins with `http`, else the target behind `https://`.
pub open spec fn header_url(target: Seq<char>) -> Seq<char> {
    if has_prefix(target, "http"@) {
        target
    } else {
        "https://"@ + target
    }
}

/// The URL that a header check of `target` fetches.
pub fn headers_check_url(target: &str) -> (url: String)
    ensures
        url@ == header_url(target@),
{
    if starts_with(target, "http") {
        target.to_string()
    } else {
        let mut url = "https://".to_string();
        url.append(target);
        url
    }
}

/// The data of an error answer: a JSON object with the one member `error`.
/// The message is put between the quotes as it is.
pub fn error_payload(message: &str) -> (payload: String)
    ensures
        payload@ == "{\"error\": \""@ + message@ + "\"}"@,
{
    let mut payload = "{\"error\": \"".to_string();
    payload.append(message);
    payload.append("\"}");
    payload
}

/// The text that answers a request for a tool that does not exist.
pub fn unknown_tool_message(name: &str) -> (text: String)
    ensures
        text@ == "Unknown tool: "@ + name@,
{
    let mut text = "Unknown tool: ".to_string();
    text.append(name);
    text
}

/// The framework of the given name, if there is one.
pub open spec fn framework_named(name: Seq<char>) -> Option<ComplianceFramework> {
    if name == "dora"@ {
        Some(ComplianceFramework::DORA)
    } else if name == "nis2"@ {
        Some(ComplianceFramework::NIS2)
    } else if name == "both"@ {
        Some(ComplianceFramework::Both)
    } else {
        None
    }
}

/// The framework of the given name, if there is one.
pub fn parse_framework(name: &str) -> (framework: Option<ComplianceFramework>)
    ensures
        framework == framework_named(name@),
{
    if same_text(name, "dora") {
        Some(ComplianceFramework::DORA)
    } else if same_text(name, "nis2") {
        Some(ComplianceFramework::NIS2)
    } else if same_text(name, "both") {
        Some(ComplianceFramework::Both)
    } else {
        None
    }
}

/// The text that answers a request for a framework that does not exist.
pub fn unknown_framework_message(name: &str) -> (text: String)
    ensures
        text@ == "Unknown framework: "@ + name@,
{
    let mut text = "Unknown framework: ".to_string();
    text.append(name);
    text
}

/// What a scan asked for by name hands back: `"success"` with the data, or
/// `"error"` with an error payload.
#[derive(Debug, Clone, PartialEq, Eq)]
pub struct ScanAnswer {
    pub status: String,
    pub data: String,
}

/// The answer for a scan that ended in `outcome`: its data as it is, or the
/// payload of its error.
pub fn scan_answer(outcome: Result<String, String>) -> (answer: ScanAnswer)
    ensures
        match outcome {
            Ok(data) => answer.status@ == "success"@ && answer.data == data,
            Err(error) => answer.status@ == "error"@ && answer.data@ == "{\"error\": \""@ + error@
                + "\"}"@,
        },
{
    match outcome {
        Ok(data) => ScanAnswer { status: "success".to_string(), data },
        Err(error) => ScanAnswer {
            status: "error".to_string(),
            data: error_payload(error.as_str()),
        },
    }
}

/// The answer for a request that names no tool.
pub fn unknown_tool_answer(name: &str) -> (answer: ScanAnswer)
    ensures
        answer.status@ == "error"@,
        answer.data@ == "{\"error\": \""@ + ("Unknown tool: "@ + name@) + "\"}"@,
{
    let message = unknown_tool_message(name);
    ScanAnswer { status: "error".to_string(), data: error_payload(message.as_str()) }
}

/// The HTTP status of the answer to a scan request: 400 if it names no tool,
/// else 200 if the scan succeeded and 500 if it failed.
pub fn scan_reply_status(tool: Option<ScanTool>, succeeded: bool) -> (code: u16)
    ensures
        code == if tool is None {
            400u16
        } else if succeeded {
            200u16
        } else {
            500u16
        },
{
    match tool {
        None => 400,
        Some(_) => if succeeded {
            200
        } else {
            500
        },
    }
}

} // verus!
