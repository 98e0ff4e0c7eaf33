use aloo::addr::IpAddr;
use aloo::clock::Timestamp;
use aloo::error::AlooError;
use aloo::id::{HostId, PortId, SessionId};
use aloo::ports::PortRange;
use aloo::target::ScanTarget;
use aloo::types::{
    BannerData, CvssSeverity, DiscoveryMethod, Host, Port, PortState, ProbeTarget, Protocol, ScanResult,
    ScanSession, ScanStatus, Vulnerability, CpeString,
};

fn now() -> Timestamp {
    let d = std::time::SystemTime::now().duration_since(std::time::UNIX_EPOCH).unwrap();
    Timestamp { secs: d.as_secs() as i64, nanos: d.subsec_nanos() }
}

#[test]
fn error_display_includes_message() {
    let e = AlooError::Config("missing field".to_string());
    assert!(e.message().contains("missing field"));
}

#[test]
fn io_error_converts() {
    let io_err = std::io::Error::new(std::io::ErrorKind::NotFound, "file gone");
    let aloo_err: AlooError = io_err.into();
    assert!(aloo_err.message().contains("file gone"));
}

#[test]
fn ids_are_unique() {
    assert_ne!(SessionId::new(), SessionId::new());
    assert_ne!(HostId::new(), HostId::new());
}

#[test]
fn id_display() {
    let id = SessionId::new();
    let s = id.to_text();
    assert_eq!(s.len(), 36);
}

#[test]
fn port_range_contains_and_count() {
    let r = PortRange { ranges: vec![(80, 80), (443, 443), (8000, 8002)] };
    assert!(r.contains(80));
    assert!(r.contains(443));
    assert!(r.contains(8002));
    assert!(!r.contains(81));
    assert_eq!(r.count(), 5);
}

#[test]
fn port_range_iter_order() {
    let r = PortRange { ranges: vec![(1, 3), (10, 11)] };
    let v: Vec<u16> = r.iter().collect();
    assert_eq!(v, [1, 2, 3, 10, 11]);
}

#[test]
fn scan_session_lifecycle() {
    let mut s = ScanSession::new(vec!["10.0.0.0/24".into()]);
    assert_eq!(s.status, ScanStatus::Pending);
    s.start();
    assert_eq!(s.status, ScanStatus::Running);
    s.complete();
    assert_eq!(s.status, ScanStatus::Completed);
    assert!(s.completed_at.is_some());
}

#[test]
fn scan_result_counts_correctly() {
    let mut session = ScanSession::new(vec!["10.0.0.1".into()]);
    session.complete();
    let host = Host {
        id: HostId::new(),
        session_id: session.id,
        ip: IpAddr::v4(10, 0, 0, 1),
        hostname: None,
        os_fingerprint: None,
        mac_address: None,
        discovered_at: now(),
        discovery_method: DiscoveryMethod::TcpPing,
        ports: vec![Port {
            id: PortId::new(),
            host_id: HostId::new(),
            number: 443,
            protocol: Protocol::Tcp,
            state: PortState::Open,
            service: None,
            banner: None,
            tls: None,
            vulnerabilities: vec![],
        }],
    };
    let result = ScanResult { session, hosts: vec![host] };
    assert_eq!(result.total_open_ports(), 1);
    assert_eq!(result.total_vulnerabilities(), 0);
}

#[test]
fn scan_target_parse_cidr() {
    let t = ScanTarget::parse("192.168.0.0/24").unwrap();
    assert_eq!(t.network.prefix_len(), 24);
    assert_eq!(t.host_count(), 256);
}

#[test]
fn scan_target_parse_single_ip() {
    let t = ScanTarget::parse("10.0.0.1").unwrap();
    assert_eq!(t.host_count(), 1);
}

#[test]
fn scan_target_parse_invalid() {
    assert!(ScanTarget::parse("not-an-ip").is_err());
}

#[test]
fn banner_data_protocol_hint() {
    let b = BannerData::from_bytes(b"SSH-2.0-OpenSSH_9.3");
    assert_eq!(b.protocol_hint.as_deref(), Some("ssh"));
    assert!(b.text.is_some());
}

#[test]
fn probe_target_constructors() {
    let ip = IpAddr::parse("1.2.3.4").unwrap();
    assert_eq!(ProbeTarget::tcp(ip, 80).protocol, Protocol::Tcp);
    assert_eq!(ProbeTarget::udp(ip, 53).protocol, Protocol::Udp);
}

// ── further cases ─────────────────────────────────────────────────────────────

#[test]
fn banner_hex_and_hints() {
    let b = BannerData::from_bytes(&[0x00, 0xab, 0x10]);
    assert_eq!(b.raw_hex, "00ab10");
    assert!(b.protocol_hint.is_none());
    assert_eq!(BannerData::from_bytes(b"HTTP/1.1 200 OK").protocol_hint.as_deref(), Some("http"));
    assert_eq!(BannerData::from_bytes(b"220 mail ready").protocol_hint.as_deref(), Some("ftp-or-smtp"));
    assert_eq!(BannerData::from_bytes(b"+OK POP3").protocol_hint.as_deref(), Some("pop3"));
    assert!(BannerData::from_bytes(&[0xff, 0xfe]).text.is_none());
}

#[test]
fn scan_session_interrupt_keeps_targets() {
    let mut s = ScanSession::new(vec!["a".into(), "b".into()]);
    s.interrupt();
    assert_eq!(s.status, ScanStatus::Interrupted);
    assert!(s.completed_at.is_some());
    assert_eq!(s.targets, vec!["a".to_string(), "b".to_string()]);
}

#[test]
fn critical_hosts_are_those_with_critical_vulns() {
    let session = ScanSession::new(vec!["10.0.0.0/30".into()]);
    let vuln = |sev: CvssSeverity| Vulnerability {
        cve_id: "CVE-2024-0001".to_string(),
        cvss_score_bits: 0,
        severity: sev,
        description: String::new(),
        cpe: CpeString::new("cpe:2.3:a:x:y:*:*:*:*:*:*:*:*".to_string()),
        published: now(),
        last_modified: now(),
    };
    let port = |state: PortState, vulns: Vec<Vulnerability>| Port {
        id: PortId::new(),
        host_id: HostId::new(),
        number: 22,
        protocol: Protocol::Tcp,
        state,
        service: None,
        banner: None,
        tls: None,
        vulnerabilities: vulns,
    };
    let host = |last: u8, ports: Vec<Port>| Host {
        id: HostId::new(),
        session_id: session.id,
        ip: IpAddr::v4(10, 0, 0, last),
        hostname: None,
        os_fingerprint: None,
        mac_address: None,
        discovered_at: now(),
        discovery_method: DiscoveryMethod::TcpPing,
        ports,
    };
    let hosts = vec![
        host(1, vec![port(PortState::Open, vec![vuln(CvssSeverity::High)])]),
        host(2, vec![port(PortState::Closed, vec![]), port(PortState::Open, vec![vuln(CvssSeverity::Critical), vuln(CvssSeverity::Low)])]),
    ];
    let result = ScanResult { session, hosts };
    assert_eq!(result.total_open_ports(), 2);
    assert_eq!(result.total_vulnerabilities(), 3);
    let critical = result.critical_hosts();
    assert_eq!(critical.len(), 1);
    assert_eq!(critical[0].ip, IpAddr::v4(10, 0, 0, 2));
}

#[test]
fn error_messages_of_each_variant() {
    assert_eq!(AlooError::Scan("x".into()).message(), "Scan error: x");
    assert_eq!(AlooError::Storage("x".into()).message(), "Storage error: x");
    assert_eq!(AlooError::Plugin("x".into()).message(), "Plugin error: x");
    assert_eq!(AlooError::Report("x".into()).message(), "Report error: x");
    assert_eq!(AlooError::Internal("x".into()).message(), "Internal error: x");
    assert_eq!(Protocol::Sctp.label(), "SCTP");
}

#[test]
fn ids_are_version_4_uuids() {
    for v in [SessionId::new().0, HostId::new().0, PortId::new().0] {
        assert_eq!((v >> 76) & 0xf, 4);
        assert_eq!((v >> 62) & 3, 2);
    }
}

#[test]
fn id_text_is_lower_case_hyphenated_hex() {
    let id = SessionId(0x0123_4567_89ab_cdef_0123_4567_89ab_cdef);
    assert_eq!(id.to_text(), "01234567-89ab-cdef-0123-456789abcdef");
    assert_eq!(PortId(0xFFFF_FFFF_FFFF_FFFF_FFFF_FFFF_FFFF_FFFF).to_text(), "ffffffff-ffff-ffff-ffff-ffffffffffff");
}
