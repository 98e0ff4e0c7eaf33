//! All domain value types.

use vstd::prelude::*;
use vstd::string::*;
use vstd::utf8::{valid_utf8, decode_utf8};

use crate::addr::IpAddr;
use crate::clock::{Timestamp, now};
use crate::id::{HostId, PortId, SessionId};
use crate::text::{has_prefix, push_char, empty_string, starts_with_bytes};

verus! {

// ── Enumerations ─────────────────────────────────────────────────────────────

/// Network transport protocol.
#[derive(Debug, Clone, Copy, PartialEq, Eq, Hash, Structural)]
pub enum Protocol {
    /// Transmission Control Protocol.
    Tcp,
    /// User Datagram Protocol.
    Udp,
    /// Internet Control Message Protocol.
    Icmp,
    /// Stream Control Transmission Protocol.
    Sctp,
}

impl Protocol {
    /// Upper-case protocol name, as the protocol is displayed.
    pub fn label(&self) -> (s: &'static str)
        ensures
            s@ == match *self {
                Protocol::Tcp => "TCP"@,
                Protocol::Udp => "UDP"@,
                Protocol::Icmp => "ICMP"@,
                Protocol::Sctp => "SCTP"@,
            },
    {
        match self {
            Protocol::Tcp => "TCP",
            Protocol::Udp => "UDP",
            Protocol::Icmp => "ICMP",
            Protocol::Sctp => "SCTP",
        }
    }
}

/// Observed state of a scanned port.
#[derive(Debug, Clone, Copy, PartialEq, Eq, Hash, Structural)]
pub enum PortState {
    /// Port is open and accepting connections.
    Open,
    /// Port actively refused connection (RST).
    Closed,
    /// No response; firewall may be dropping packets.
    Filtered,
    /// Cannot distinguish open from filtered without privilege.
    OpenFiltered,
    /// Cannot distinguish closed from filtered.
    ClosedFiltered,
    /// Completely unresponsive.
    Unresponsive,
}

/// Method used to discover a host as alive.
#[derive(Debug, Clone, Copy, PartialEq, Eq, Hash, Structural)]
pub enum DiscoveryMethod {
    /// ICMP echo request.
    IcmpEcho,
    /// TCP connect to common ports.
    TcpPing,
    /// ARP sweep (LAN only).
    ArpSweep,
    /// Explicitly provided by the user; not probed.
    UserSpecified,
}

/// Overall status of a scan session.
#[derive(Debug, Clone, Copy, PartialEq, Eq, Hash, Structural)]
pub enum ScanStatus {
    /// Not yet started.
    Pending,
    /// Currently running.
    Running,
    /// Finished successfully.
    Completed,
    /// Encountered a fatal error.
    Failed,
    /// Cancelled by the user.
    Interrupted,
}

/// CVSS v3.1 severity classification.
#[derive(Debug, Clone, Copy, PartialEq, Eq, PartialOrd, Ord, Hash, Structural)]
pub enum CvssSeverity {
    /// Score 0.0 — no impact (CVSS calls this rating "None").
    NoImpact,
    /// Score 0.1–3.9.
    Low,
    /// Score 4.0–6.9.
    Medium,
    /// Score 7.0–8.9.
    High,
    /// Score 9.0–10.0.
    Critical,
}

/// TLS cipher suite strength classification.
#[derive(Debug, Clone, Copy, PartialEq, Eq, Structural)]
pub enum CipherStrength {
    /// Deprecated algorithms (RC4, DES, export suites).
    Weak,
    /// Acceptable but not modern (3DES, non-AEAD CBC).
    Acceptable,
    /// Modern AEAD suites (AES-GCM, ChaCha20-Poly1305).
    Strong,
}

/// Preset scan profiles controlling depth and speed.
#[derive(Debug, Clone, Copy, PartialEq, Eq, Structural)]
pub enum ScanProfileKind {
    /// Top 1024 ports, fast timeouts.
    Quick,
    /// All 65535 ports, all probes enabled.
    Full,
    /// Slow rate, minimal footprint to avoid IDS.
    Stealth,
    /// UDP-only scan.
    UdpOnly,
    /// User-defined; read from config.
    Custom,
}

impl Default for ScanProfileKind {
    fn default() -> (r: Self)
        ensures
            r == ScanProfileKind::Full,
    {
        ScanProfileKind::Full
    }
}

// ── Value types ───────────────────────────────────────────────────────────────

/// A CPE 2.3 formatted string (e.g. `cpe:2.3:a:apache:http_server:2.4.51:*:*:*:*:*:*:*`).
#[derive(Debug, PartialEq, Eq, Hash)]
pub struct CpeString(pub String);

impl Clone for CpeString {
    fn clone(&self) -> (r: Self)
        ensures
            r.0@ == self.0@,
    {
        CpeString(self.0.clone())
    }
}

impl CpeString {
    /// Wrap a string as a CPE.
    pub fn new(s: String) -> (r: Self)
        ensures
            r.0@ == s@,
    {
        CpeString(s)
    }

    /// The CPE text.
    pub fn as_str(&self) -> (s: &str)
        ensures
            s@ == self.0@,
    {
        self.0.as_str()
    }
}

// ── Fingerprint types ─────────────────────────────────────────────────────────

/// Identified service running on a port.
#[derive(Debug, Clone, PartialEq)]
pub struct ServiceFingerprint {
    /// Common service name (e.g. `ssh`, `http`, `mysql`).
    pub name: String,
    /// Detected version string.
    pub version: Option<String>,
    /// Product name (e.g. `OpenSSH`, `Apache httpd`).
    pub product: Option<String>,
    /// Extra info string.
    pub extra_info: Option<String>,
    /// Confidence score 0.0–1.0, as the bits of an IEEE-754 `f32`.
    pub confidence_bits: u32,
    /// CPE 2.3 string if derivable.
    pub cpe: Option<CpeString>,
}

/// Operating system fingerprint.
#[derive(Debug, Clone, PartialEq)]
pub struct OsFingerprint {
    /// OS name (e.g. `Linux`, `Windows`).
    pub name: String,
    /// OS family (e.g. `unix`, `windows`).
    pub family: String,
    /// Generation / version string.
    pub generation: Option<String>,
    /// Detection accuracy 0.0–1.0, as the bits of an IEEE-754 `f32`.
    pub accuracy_bits: u32,
    /// CPE string if known.
    pub cpe: Option<CpeString>,
}

// ── TLS types ─────────────────────────────────────────────────────────────────

/// Subset of X.509 certificate fields relevant for scanning.
#[derive(Debug, Clone, PartialEq)]
pub struct Certificate {
    /// Subject common name.
    pub common_name: String,
    /// Subject Alternative Names.
    pub subject_alt_names: Vec<String>,
    /// Issuer distinguished name.
    pub issuer: String,
    /// Validity start.
    pub not_before: Timestamp,
    /// Validity end.
    pub not_after: Timestamp,
    /// True if the certificate is self-signed.
    pub self_signed: bool,
    /// Serial number as hex string.
    pub serial: String,
}

impl Certificate {
    /// Whether the certificate has expired at time `now`.
    pub fn is_expired_at(&self, now: &Timestamp) -> (b: bool)
        ensures
            b == now.after(self.not_after),
    {
        now.is_after(&self.not_after)
    }

    /// Whole days from `now` until expiry (negative if expired).
    pub fn days_until_expiry_at(&self, now: &Timestamp) -> (d: i64)
        requires
            self.not_after.valid(),
            now.valid(),
        ensures
            d == crate::clock::whole_days_between(self.not_after, *now),
    {
        self.not_after.days_since(now)
    }

    /// Returns true if the certificate is currently expired, by the wall
    /// clock read during the call.
    pub fn is_expired(&self) -> (b: bool)
        ensures
            exists|t: Timestamp| t.valid() && b == t.after(self.not_after),
    {
        let t = now();
        self.is_expired_at(&t)
    }

    /// Days until expiry (negative if expired), by the wall clock read
    /// during the call.
    pub fn days_until_expiry(&self) -> (d: i64)
        requires
            self.not_after.valid(),
        ensures
            exists|t: Timestamp| t.valid() && d == crate::clock::whole_days_between(self.not_after, t),
    {
        let t = now();
        self.days_until_expiry_at(&t)
    }
}

/// Results of a TLS handshake and certificate inspection.
#[derive(Debug, Clone, PartialEq)]
pub struct TlsReport {
    /// Negotiated TLS version (e.g. `TLSv1.3`).
    pub tls_version: String,
    /// Negotiated cipher suite.
    pub cipher_suite: String,
    /// Evaluated cipher strength.
    pub cipher_strength: CipherStrength,
    /// Server certificate chain leaf.
    pub certificate: Certificate,
}

// ── Vulnerability types ───────────────────────────────────────────────────────

/// A correlated vulnerability record.
#[derive(Debug, Clone, PartialEq)]
pub struct Vulnerability {
    /// CVE identifier.
    pub cve_id: String,
    /// Base CVSS v3.1 score, as the bits of an IEEE-754 `f32`.
    pub cvss_score_bits: u32,
    /// Derived severity.
    pub severity: CvssSeverity,
    /// Short description.
    pub description: String,
    /// CPE that matched.
    pub cpe: CpeString,
    /// NVD publication date.
    pub published: Timestamp,
    /// NVD last-modified date.
    pub last_modified: Timestamp,
}

// ── Probe types ───────────────────────────────────────────────────────────────

/// A target for a probe operation.
#[derive(Debug, Clone, Copy, PartialEq, Eq, Structural)]
pub struct ProbeTarget {
    /// Target IP address.
    pub ip: IpAddr,
    /// Target port.
    pub port: u16,
    /// Protocol to use.
    pub protocol: Protocol,
}

impl ProbeTarget {
    /// TCP probe target.
    pub fn tcp(ip: IpAddr, port: u16) -> (r: Self)
        ensures
            r == (ProbeTarget { ip, port, protocol: Protocol::Tcp }),
    {
        ProbeTarget { ip, port, protocol: Protocol::Tcp }
    }

    /// UDP probe target.
    pub fn udp(ip: IpAddr, port: u16) -> (r: Self)
        ensures
            r == (ProbeTarget { ip, port, protocol: Protocol::Udp }),
    {
        ProbeTarget { ip, port, protocol: Protocol::Udp }
    }
}

/// Lower-case hexadecimal digit of a value below 16.
pub open spec fn hex_digit(d: int) -> char {
    if d < 10 { (d + 48) as char } else { (d + 87) as char }
}

/// Two lower-case hexadecimal digits per byte (`{:02x}` of each byte).
pub open spec fn hex_of(bytes: Seq<u8>) -> Seq<char>
    decreases bytes.len(),
{
    if bytes.len() == 0 {
        Seq::empty()
    } else {
        hex_of(bytes.drop_last()) + seq![hex_digit((bytes.last() / 16) as int), hex_digit((bytes.last() % 16) as int)]
    }
}

/// The protocol hint that a banner's first bytes suggest.
pub open spec fn protocol_hint_of(data: Seq<u8>) -> Option<Seq<char>> {
    if has_prefix(data, seq![83u8, 83u8, 72u8, 45u8]) {
        Some("ssh"@)
    } else if has_prefix(data, seq![72u8, 84u8, 84u8, 80u8]) || has_prefix(data, seq![72u8, 84u8, 84u8, 80u8, 47u8]) {
        Some("http"@)
    } else if has_prefix(data, seq![50u8, 50u8, 48u8, 32u8]) {
        Some("ftp-or-smtp"@)
    } else if has_prefix(data, seq![43u8, 79u8, 75u8]) {
        Some("pop3"@)
    } else {
        None
    }
}

/// Decode bytes as UTF-8 and copy the text (`std::str::from_utf8`, then
/// `str::to_string`). States the documented behaviour: text exactly when the
/// bytes are valid UTF-8, and then the decoded characters.
#[verifier::external_body]
fn utf8_text(raw: &[u8]) -> (r: Option<String>)
    ensures
        r is Some <==> valid_utf8(raw@),
        r matches Some(s) ==> s@ == decode_utf8(raw@),
{
    std::str::from_utf8(raw).ok().map(|s| s.to_string())
}

fn hex_digit_char(d: u8) -> (c: char)
    requires
        d < 16,
    ensures
        c == hex_digit(d as int),
{
    if d < 10 { (d + 48) as char } else { (d + 87) as char }
}

/// Raw banner data grabbed from a service.
#[derive(Debug, Clone, PartialEq)]
pub struct BannerData {
    /// Raw bytes, hex-encoded.
    pub raw_hex: String,
    /// UTF-8 text interpretation.
    pub text: Option<String>,
    /// Heuristic protocol hint from the banner content.
    pub protocol_hint: Option<String>,
}

impl BannerData {
    /// Construct from raw bytes, attempting UTF-8 decoding.
    pub fn from_bytes(raw: &[u8]) -> (b: Self)
        ensures
            b.raw_hex@ == hex_of(raw@),
            b.text is Some <==> valid_utf8(raw@),
            b.text matches Some(t) ==> t@ == decode_utf8(raw@),
            b.protocol_hint is Some <==> protocol_hint_of(raw@) is Some,
            b.protocol_hint matches Some(h) ==> Some(h@) == protocol_hint_of(raw@),
    {
        let mut raw_hex = empty_string();
        let n = raw.len();
        let mut i: usize = 0;
        while i < n
            invariant
                n == raw@.len(),
                i <= n,
                raw_hex@ == hex_of(raw@.take(i as int)),
            decreases n - i,
        {
            let byte = raw[i];
            push_char(&mut raw_hex, hex_digit_char(byte / 16));
            push_char(&mut raw_hex, hex_digit_char(byte % 16));
            proof {
                assert(raw@.take(i + 1).drop_last() =~= raw@.take(i as int));
                assert(raw@.take(i + 1).last() == byte);
                assert(raw_hex@ =~= hex_of(raw@.take(i + 1)));
            }
            i = i + 1;
        }
        proof {
            assert(raw@.take(n as int) =~= raw@);
        }
        let text = utf8_text(raw);
        let protocol_hint = Self::infer_protocol(raw);
        BannerData { raw_hex, text, protocol_hint }
    }

    fn infer_protocol(data: &[u8]) -> (r: Option<String>)
        ensures
            r is Some <==> protocol_hint_of(data@) is Some,
            r matches Some(h) ==> Some(h@) == protocol_hint_of(data@),
    {
        let ssh: [u8; 4] = [83, 83, 72, 45];
        let http: [u8; 4] = [72, 84, 84, 80];
        let http_slash: [u8; 5] = [72, 84, 84, 80, 47];
        let ftp: [u8; 4] = [50, 50, 48, 32];
        let pop: [u8; 3] = [43, 79, 75];
        proof {
            assert(ssh@ =~= seq![83u8, 83u8, 72u8, 45u8]);
            assert(http@ =~= seq![72u8, 84u8, 84u8, 80u8]);
            assert(http_slash@ =~= seq![72u8, 84u8, 84u8, 80u8, 47u8]);
            assert(ftp@ =~= seq![50u8, 50u8, 48u8, 32u8]);
            assert(pop@ =~= seq![43u8, 79u8, 75u8]);
        }
        if starts_with_bytes(data, ssh.as_slice()) {
            return Some(String::from_str("ssh"));
        }
        if starts_with_bytes(data, http.as_slice()) || starts_with_bytes(data, http_slash.as_slice()) {
            return Some(String::from_str("http"));
        }
        if starts_with_bytes(data, ftp.as_slice()) {
            return Some(String::from_str("ftp-or-smtp"));
        }
        if starts_with_bytes(data, pop.as_slice()) {
            return Some(String::from_str("pop3"));
        }
        None
    }
}

/// Result of a single probe operation.
#[derive(Debug, Clone)]
pub struct ProbeResult {
    /// The target that was probed.
    pub target: ProbeTarget,
    /// Grabbed banner data.
    pub banner: Option<BannerData>,
    /// Identified service.
    pub service: Option<ServiceFingerprint>,
    /// TLS analysis (when applicable).
    pub tls: Option<TlsReport>,
    /// Round-trip time in milliseconds.
    pub response_time_ms: u64,
}

// ── Host / Port / Session ─────────────────────────────────────────────────────

/// A discovered and scanned host.
#[derive(Debug, Clone)]
pub struct Host {
    /// Unique host identifier.
    pub id: HostId,
    /// Parent scan session.
    pub session_id: SessionId,
    /// IP address.
    pub ip: IpAddr,
    /// Resolved hostname.
    pub hostname: Option<String>,
    /// OS fingerprint.
    pub os_fingerprint: Option<OsFingerprint>,
    /// MAC address (LAN discovery only).
    pub mac_address: Option<String>,
    /// When this host was first discovered.
    pub discovered_at: Timestamp,
    /// Discovery method used.
    pub discovery_method: DiscoveryMethod,
    /// All scanned ports.
    pub ports: Vec<Port>,
}

/// A scanned port on a host.
#[derive(Debug, Clone)]
pub struct Port {
    /// Unique port identifier.
    pub id: PortId,
    /// Parent host.
    pub host_id: HostId,
    /// Port number.
    pub number: u16,
    /// Protocol.
    pub protocol: Protocol,
    /// Observed state.
    pub state: PortState,
    /// Identified service.
    pub service: Option<ServiceFingerprint>,
    /// Banner text.
    pub banner: Option<String>,
    /// TLS information.
    pub tls: Option<TlsReport>,
    /// Correlated vulnerabilities.
    pub vulnerabilities: Vec<Vulnerability>,
}

/// Metadata for a scan session.
#[derive(Debug, Clone)]
pub struct ScanSession {
    /// Unique session identifier.
    pub id: SessionId,
    /// When the session started.
    pub started_at: Timestamp,
    /// When the session ended.
    pub completed_at: Option<Timestamp>,
    /// Current lifecycle status.
    pub status: ScanStatus,
    /// Raw target strings provided by the user.
    pub targets: Vec<String>,
}

impl ScanSession {
    /// Create a new pending session.
    pub fn new(targets: Vec<String>) -> (s: Self)
        ensures
            s.status == ScanStatus::Pending,
            s.completed_at is None,
            s.targets@ == targets@,
            s.started_at.valid(),
    {
        ScanSession { id: SessionId::new(), started_at: now(), completed_at: None, status: ScanStatus::Pending, targets }
    }

    /// Transition the session to running.
    pub fn start(&mut self)
        ensures
            final(self).status == ScanStatus::Running,
            final(self).id == old(self).id,
            final(self).started_at == old(self).started_at,
            final(self).completed_at == old(self).completed_at,
            final(self).targets@ == old(self).targets@,
    {
        self.status = ScanStatus::Running;
    }

    /// Mark the session as successfully completed.
    pub fn complete(&mut self)
        ensures
            final(self).status == ScanStatus::Completed,
            final(self).completed_at matches Some(t) && t.valid(),
            final(self).id == old(self).id,
            final(self).started_at == old(self).started_at,
            final(self).targets@ == old(self).targets@,
    {
        self.completed_at = Some(now());
        self.status = ScanStatus::Completed;
    }

    /// Mark the session as interrupted.
    pub fn interrupt(&mut self)
        ensures
            final(self).status == ScanStatus::Interrupted,
            final(self).completed_at matches Some(t) && t.valid(),
            final(self).id == old(self).id,
            final(self).started_at == old(self).started_at,
            final(self).targets@ == old(self).targets@,
    {
        self.completed_at = Some(now());
        self.status = ScanStatus::Interrupted;
    }
}

/// Number of open ports in a list of ports.
pub open spec fn open_port_count(ports: Seq<Port>) -> nat
    decreases ports.len(),
{
    if ports.len() == 0 {
        0
    } else {
        open_port_count(ports.drop_last()) + if ports.last().state == PortState::Open { 1nat } else { 0nat }
    }
}

/// Number of open ports over all hosts.
pub open spec fn open_ports_of_hosts(hosts: Seq<Host>) -> nat
    decreases hosts.len(),
{
    if hosts.len() == 0 {
        0
    } else {
        open_ports_of_hosts(hosts.drop_last()) + open_port_count(hosts.last().ports@)
    }
}

/// Number of vulnerabilities over a list of ports.
pub open spec fn vuln_count(ports: Seq<Port>) -> nat
    decreases ports.len(),
{
    if ports.len() == 0 {
        0
    } else {
        vuln_count(ports.drop_last()) + ports.last().vulnerabilities@.len()
    }
}

/// Number of vulnerabilities over all hosts.
pub open spec fn vulns_of_hosts(hosts: Seq<Host>) -> nat
    decreases hosts.len(),
{
    if hosts.len() == 0 {
        0
    } else {
        vulns_of_hosts(hosts.drop_last()) + vuln_count(hosts.last().ports@)
    }
}

/// Some port of the host carries a Critical vulnerability.
pub open spec fn host_is_critical(h: Host) -> bool {
    exists|i: int, j: int|
        0 <= i < h.ports@.len() && 0 <= j < h.ports@[i].vulnerabilities@.len()
            && #[trigger] h.ports@[i].vulnerabilities@[j].severity == CvssSeverity::Critical
}

/// The hosts that carry a Critical vulnerability, in order.
pub open spec fn critical_of(hosts: Seq<Host>) -> Seq<Host>
    decreases hosts.len(),
{
    if hosts.len() == 0 {
        Seq::empty()
    } else if host_is_critical(hosts.last()) {
        critical_of(hosts.drop_last()).push(hosts.last())
    } else {
        critical_of(hosts.drop_last())
    }
}

fn count_open(ports: &Vec<Port>) -> (n: usize)
    requires
        open_port_count(ports@) <= usize::MAX,
    ensures
        n == open_port_count(ports@),
{
    let mut n: usize = 0;
    let mut i: usize = 0;
    while i < ports.len()
        invariant
            i <= ports@.len(),
            n == open_port_count(ports@.take(i as int)),
            open_port_count(ports@) <= usize::MAX,
        decreases ports.len() - i,
    {
        proof {
            assert(ports@.take(i + 1).drop_last() =~= ports@.take(i as int));
            lemma_open_count_prefix(ports@, i + 1);
        }
        if ports[i].state == PortState::Open {
            n = n + 1;
        }
        i = i + 1;
    }
    proof {
        assert(ports@.take(ports@.len() as int) =~= ports@);
    }
    n
}

proof fn lemma_open_count_prefix(ports: Seq<Port>, k: int)
    requires
        0 <= k <= ports.len(),
    ensures
        open_port_count(ports.take(k)) <= open_port_count(ports),
    decreases ports.len(),
{
    if ports.len() > 0 {
        if k == ports.len() {
            assert(ports.take(k) =~= ports);
        } else {
            lemma_open_count_prefix(ports.drop_last(), k);
            assert(ports.drop_last().take(k) =~= ports.take(k));
        }
    }
}

proof fn lemma_open_hosts_prefix(hosts: Seq<Host>, k: int)
    requires
        0 <= k <= hosts.len(),
    ensures
        open_ports_of_hosts(hosts.take(k)) <= open_ports_of_hosts(hosts),
    decreases hosts.len(),
{
    if hosts.len() > 0 {
        if k == hosts.len() {
            assert(hosts.take(k) =~= hosts);
        } else {
            lemma_open_hosts_prefix(hosts.drop_last(), k);
            assert(hosts.drop_last().take(k) =~= hosts.take(k));
        }
    }
}

proof fn lemma_vuln_count_prefix(ports: Seq<Port>, k: int)
    requires
        0 <= k <= ports.len(),
    ensures
        vuln_count(ports.take(k)) <= vuln_count(ports),
    decreases ports.len(),
{
    if ports.len() > 0 {
        if k == ports.len() {
            assert(ports.take(k) =~= ports);
        } else {
            lemma_vuln_count_prefix(ports.drop_last(), k);
            assert(ports.drop_last().take(k) =~= ports.take(k));
        }
    }
}

proof fn lemma_vulns_hosts_prefix(hosts: Seq<Host>, k: int)
    requires
        0 <= k <= hosts.len(),
    ensures
        vulns_of_hosts(hosts.take(k)) <= vulns_of_hosts(hosts),
    decreases hosts.len(),
{
    if hosts.len() > 0 {
        if k == hosts.len() {
            assert(hosts.take(k) =~= hosts);
        } else {
            lemma_vulns_hosts_prefix(hosts.drop_last(), k);
            assert(hosts.drop_last().take(k) =~= hosts.take(k));
        }
    }
}

fn count_vulns(ports: &Vec<Port>) -> (n: usize)
    requires
        vuln_count(ports@) <= usize::MAX,
    ensures
        n == vuln_count(ports@),
{
    let mut n: usize = 0;
    let mut i: usize = 0;
    while i < ports.len()
        invariant
            i <= ports@.len(),
            n == vuln_count(ports@.take(i as int)),
            vuln_count(ports@) <= usize::MAX,
        decreases ports.len() - i,
    {
        proof {
            assert(ports@.take(i + 1).drop_last() =~= ports@.take(i as int));
            lemma_vuln_count_prefix(ports@, i + 1);
        }
        n = n + ports[i].vulnerabilities.len();
        i = i + 1;
    }
    proof {
        assert(ports@.take(ports@.len() as int) =~= ports@);
    }
    n
}

fn host_has_critical(h: &Host) -> (b: bool)
    ensures
        b == host_is_critical(*h),
{
    let mut i: usize = 0;
    while i < h.ports.len()
        invariant
            i <= h.ports@.len(),
            forall|a: int, c: int|
                0 <= a < i && 0 <= c < h.ports@[a].vulnerabilities@.len()
                    ==> #[trigger] h.ports@[a].vulnerabilities@[c].severity != CvssSeverity::Critical,
        decreases h.ports.len() - i,
    {
        let vs = &h.ports[i].vulnerabilities;
        let mut j: usize = 0;
        while j < vs.len()
            invariant
                i < h.ports@.len(),
                vs@ == h.ports@[i as int].vulnerabilities@,
                j <= vs@.len(),
                forall|c: int| 0 <= c < j ==> #[trigger] vs@[c].severity != CvssSeverity::Critical,
            decreases vs.len() - j,
        {
            if vs[j].severity == CvssSeverity::Critical {
                proof {
                    assert(h.ports@[i as int].vulnerabilities@[j as int].severity == CvssSeverity::Critical);
                }
                return true;
            }
            j = j + 1;
        }
        i = i + 1;
    }
    false
}

/// The full result of a completed scan session.
#[derive(Debug, Clone)]
pub struct ScanResult {
    /// Session metadata.
    pub session: ScanSession,
    /// All discovered hosts.
    pub hosts: Vec<Host>,
}

impl ScanResult {
    /// Total open ports across all hosts.
    pub fn total_open_ports(&self) -> (n: usize)
        requires
            open_ports_of_hosts(self.hosts@) <= usize::MAX,
        ensures
            n == open_ports_of_hosts(self.hosts@),
    {
        let mut n: usize = 0;
        let mut i: usize = 0;
        while i < self.hosts.len()
            invariant
                i <= self.hosts@.len(),
                n == open_ports_of_hosts(self.hosts@.take(i as int)),
                open_ports_of_hosts(self.hosts@) <= usize::MAX,
            decreases self.hosts.len() - i,
        {
            proof {
                assert(self.hosts@.take(i + 1).drop_last() =~= self.hosts@.take(i as int));
                lemma_open_hosts_prefix(self.hosts@, i + 1);
            }
            n = n + count_open(&self.hosts[i].ports);
            i = i + 1;
        }
        proof {
            assert(self.hosts@.take(self.hosts@.len() as int) =~= self.hosts@);
        }
        n
    }

    /// Total vulnerabilities across all hosts.
    pub fn total_vulnerabilities(&self) -> (n: usize)
        requires
            vulns_of_hosts(self.hosts@) <= usize::MAX,
        ensures
            n == vulns_of_hosts(self.hosts@),
    {
        let mut n: usize = 0;
        let mut i: usize = 0;
        while i < self.hosts.len()
            invariant
                i <= self.hosts@.len(),
                n == vulns_of_hosts(self.hosts@.take(i as int)),
                vulns_of_hosts(self.hosts@) <= usize::MAX,
            decreases self.hosts.len() - i,
        {
            proof {
                assert(self.hosts@.take(i + 1).drop_last() =~= self.hosts@.take(i as int));
                lemma_vulns_hosts_prefix(self.hosts@, i + 1);
            }
            n = n + count_vulns(&self.hosts[i].ports);
            i = i + 1;
        }
        proof {
            assert(self.hosts@.take(self.hosts@.len() as int) =~= self.hosts@);
        }
        n
    }

    /// Hosts with at least one Critical vulnerability.
    pub fn critical_hosts(&self) -> (r: Vec<&Host>)
        ensures
            r@.map_values(|h: &Host| *h) == critical_of(self.hosts@),
    {
        let mut out: Vec<&Host> = Vec::new();
        let mut i: usize = 0;
        while i < self.hosts.len()
            invariant
                i <= self.hosts@.len(),
                out@.map_values(|h: &Host| *h) =~= critical_of(self.hosts@.take(i as int)),
            decreases self.hosts.len() - i,
        {
            proof {
                assert(self.hosts@.take(i + 1).drop_last() =~= self.hosts@.take(i as int));
                assert(self.hosts@.take(i + 1).last() == self.hosts@[i as int]);
            }
            if host_has_critical(&self.hosts[i]) {
                out.push(&self.hosts[i]);
            }
            i = i + 1;
        }
        proof {
            assert(self.hosts@.take(self.hosts@.len() as int) =~= self.hosts@);
        }
        out
    }
}

} // verus!
