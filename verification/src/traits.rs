//! Error types, contexts and scan settings shared by all components.

use vstd::prelude::*;
use vstd::string::*;

use crate::addr::{IpAddr, ip_text};
use crate::error::io_error_text;
use crate::text::{decimal, u64_to_decimal};
use crate::types::{PortState, Protocol};

verus! {

/// Error from a probe operation.
#[derive(Debug)]
pub enum ProbeError {
    /// Connection timed out.
    Timeout {
        /// Host probed.
        host: IpAddr,
        /// Port probed.
        port: u16,
    },
    /// Connection actively refused.
    Refused {
        /// Host probed.
        host: IpAddr,
        /// Port probed.
        port: u16,
    },
    /// I/O error.
    Io(std::io::Error),
    /// Protocol-level error.
    Protocol(String),
}

/// `host:port` as text.
pub open spec fn endpoint_text(host: IpAddr, port: u16) -> Seq<char> {
    ip_text(host) + seq![':'] + decimal(port as nat)
}

fn endpoint(host: &IpAddr, port: u16) -> (s: String)
    ensures
        s@ == endpoint_text(*host, port),
{
    let mut out = host.to_text();
    out.append(":");
    let p = u64_to_decimal(port as u64);
    out.append(p.as_str());
    proof {
        reveal_strlit(":");
        assert(out@ =~= endpoint_text(*host, port));
    }
    out
}

/// The message of a probe error (for an I/O error, its fixed prefix).
pub open spec fn probe_message(e: ProbeError) -> Seq<char> {
    match e {
        ProbeError::Timeout { host, port } => "Timeout connecting to "@ + endpoint_text(host, port),
        ProbeError::Refused { host, port } => "Connection refused: "@ + endpoint_text(host, port),
        ProbeError::Io(_) => "I/O error: "@,
        ProbeError::Protocol(m) => "Protocol error: "@ + m@,
    }
}

impl ProbeError {
    /// Human-readable message, as the error is displayed.
    pub fn message(&self) -> (s: String)
        ensures
            !(*self is Io) ==> s@ == probe_message(*self),
            *self is Io ==> probe_message(*self).is_prefix_of(s@),
    {
        let (prefix, body) = match self {
            ProbeError::Timeout { host, port } => ("Timeout connecting to ", endpoint(host, *port)),
            ProbeError::Refused { host, port } => ("Connection refused: ", endpoint(host, *port)),
            ProbeError::Io(e) => ("I/O error: ", io_error_text(e)),
            ProbeError::Protocol(m) => ("Protocol error: ", m.clone()),
        };
        let mut out = String::from_str(prefix);
        out.append(body.as_str());
        proof {
            assert(out@.subrange(0, prefix@.len() as int) =~= prefix@);
        }
        out
    }
}

/// Error from a scanning operation.
#[derive(Debug)]
pub enum ScanError {
    /// No targets provided.
    NoTargets,
    /// Rate limit exceeded.
    RateLimitExceeded(u32),
    /// Invalid scan configuration.
    InvalidConfig(String),
    /// I/O error.
    Io(std::io::Error),
    /// Probe failed.
    Probe(ProbeError),
}

impl ScanError {
    /// Human-readable message, as the error is displayed. Exact for the
    /// variants that carry plain values.
    pub fn message(&self) -> (s: String)
        ensures
            *self is NoTargets ==> s@ == "No targets specified"@,
            self matches ScanError::RateLimitExceeded(n) ==> s@ == "Rate limit exceeded: "@ + decimal(n as nat) + " PPS"@,
            self matches ScanError::InvalidConfig(m) ==> s@ == "Invalid configuration: "@ + m@,
            self matches ScanError::Probe(p) ==> "Probe error: "@.is_prefix_of(s@),
            *self is Io ==> "I/O error: "@.is_prefix_of(s@),
    {
        match self {
            ScanError::NoTargets => String::from_str("No targets specified"),
            ScanError::RateLimitExceeded(n) => {
                let mut out = String::from_str("Rate limit exceeded: ");
                let d = u64_to_decimal(*n as u64);
                out.append(d.as_str());
                out.append(" PPS");
                out
            },
            ScanError::InvalidConfig(m) => {
                let mut out = String::from_str("Invalid configuration: ");
                out.append(m.as_str());
                out
            },
            ScanError::Io(e) => {
                let mut out = String::from_str("I/O error: ");
                let t = io_error_text(e);
                out.append(t.as_str());
                proof {
                    assert(out@.subrange(0, "I/O error: "@.len() as int) =~= "I/O error: "@);
                }
                out
            },
            ScanError::Probe(p) => {
                let mut out = String::from_str("Probe error: ");
                let t = p.message();
                out.append(t.as_str());
                proof {
                    assert(out@.subrange(0, "Probe error: "@.len() as int) =~= "Probe error: "@);
                }
                out
            },
        }
    }

    /// The error for a target that is no address, no network and no
    /// resolvable name.
    pub fn unresolved(target: &str) -> (e: Self)
        ensures
            e matches ScanError::InvalidConfig(m) && m@ == "Could not resolve target: "@ + target@,
    {
        let mut m = String::from_str("Could not resolve target: ");
        m.append(target);
        ScanError::InvalidConfig(m)
    }
}

/// Error from a vulnerability source query.
#[derive(Debug, Clone, PartialEq, Eq)]
pub enum VulnError {
    /// Database not initialised.
    NotInitialised,
    /// No entries for the given CPE.
    CpeNotFound(String),
    /// Storage error.
    Storage(String),
    /// Remote feed error.
    FeedFetch(String),
}

/// Error from a reporter.
#[derive(Debug)]
pub enum ReportError {
    /// I/O error writing output.
    Io(std::io::Error),
    /// Template rendering failed.
    Template(String),
    /// Serialisation failed.
    Serialisation(String),
}

/// Error from host discovery.
#[derive(Debug)]
pub enum DiscoveryError {
    /// Elevated privilege required (raw sockets).
    PrivilegeRequired,
    /// Invalid target string.
    InvalidTarget(String),
    /// I/O error.
    Io(std::io::Error),
}

/// Error from a storage operation.
#[derive(Debug, Clone, PartialEq, Eq)]
pub enum StorageError {
    /// Record not found.
    NotFound(String),
    /// Database error.
    Database(String),
    /// Migration error.
    Migration(String),
}

/// Execution context passed to every probe invocation.
#[derive(Debug, Clone, Copy, PartialEq, Eq, Structural)]
pub struct ProbeContext {
    /// Max wait time in milliseconds.
    pub timeout_ms: u64,
    /// Max bytes to read for banner grabbing.
    pub max_banner_bytes: usize,
}

impl Default for ProbeContext {
    fn default() -> (c: Self)
        ensures
            c.timeout_ms == 3_000,
            c.max_banner_bytes == 4_096,
    {
        ProbeContext { timeout_ms: 3_000, max_banner_bytes: 4_096 }
    }
}

/// Output format selector.
#[derive(Debug, Clone, Copy, PartialEq, Eq, Structural)]
pub enum OutputFormat {
    /// Machine-readable JSON.
    Json,
    /// Human-readable HTML report.
    Html,
    /// Lightweight Markdown summary.
    Markdown,
}

/// Observation of a single port from a scanner.
#[derive(Debug, Clone, Copy, PartialEq, Eq, Structural)]
pub struct PortObservation {
    /// IP address of the host.
    pub ip: IpAddr,
    /// Port number.
    pub port: u16,
    /// Protocol.
    pub protocol: Protocol,
    /// Observed state.
    pub state: PortState,
    /// Round-trip time in milliseconds.
    pub response_time_ms: u64,
}

/// Configuration for a TCP scan.
#[derive(Debug, Clone, Copy, PartialEq, Eq, Structural)]
pub struct TcpScanConfig {
    /// Connection timeout in milliseconds.
    pub timeout_ms: u64,
    /// Maximum concurrent TCP connections.
    pub max_concurrent: usize,
    /// Whether to grab the service banner.
    pub grab_banner: bool,
    /// Maximum banner read size in bytes.
    pub banner_max_bytes: usize,
}

impl Default for TcpScanConfig {
    fn default() -> (c: Self)
        ensures
            c.timeout_ms == 3_000,
            c.max_concurrent == 1_000,
            c.grab_banner,
            c.banner_max_bytes == 4_096,
    {
        TcpScanConfig { timeout_ms: 3_000, max_concurrent: 1_000, grab_banner: true, banner_max_bytes: 4_096 }
    }
}

/// Configuration for a UDP scan.
#[derive(Debug, Clone, Copy, PartialEq, Eq, Structural)]
pub struct UdpScanConfig {
    /// Send/receive timeout in milliseconds.
    pub timeout_ms: u64,
    /// Retries per port.
    pub retries: u8,
    /// Maximum concurrent sockets.
    pub max_concurrent: usize,
}

impl Default for UdpScanConfig {
    fn default() -> (c: Self)
        ensures
            c.timeout_ms == 5_000,
            c.retries == 2,
            c.max_concurrent == 500,
    {
        UdpScanConfig { timeout_ms: 5_000, retries: 2, max_concurrent: 500 }
    }
}

} // verus!
