//! Probing of a network target along several independent dimensions (open
//! ports, certificate posture, DNS records, HTTP security headers) and the
//! merging of the outcomes into one report.
//!
//! Network I/O is performed by the caller. This crate holds the decisions:
//! how a connection attempt is classified, how many attempts may be in flight,
//! how per-probe outcomes are merged, and which findings follow from a probe's
//! output.
//!
//! - [`model`]: the records and outcome kinds that all probes share.
//! - [`ports`]: the port scanner, with its cap on attempts in flight.
//! - [`ssl`], [`dns`], [`headers`]: the three single-shot probes.
//! - [`scanner`]: the orchestrator and the report.
//! - [`compliance`], [`engine`]: verdicts against thresholds, and findings.
//! - [`server`], [`tools`]: what the front ends around the scanner decide.
//! - [`text`], [`clock`]: helpers for text and time.

pub mod text;
pub mod model;
pub mod clock;
pub mod ports;
pub mod headers;
pub mod ssl;
pub mod dns;
pub mod scanner;
pub mod compliance;
pub mod engine;
pub mod server;
pub mod tools;
