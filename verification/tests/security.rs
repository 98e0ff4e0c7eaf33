use aloo::clock::Timestamp;
use aloo::tls::CertAnalyser;
use aloo::tls::CipherEvaluator;
use aloo::traits::{PortObservation, ProbeContext, TcpScanConfig, UdpScanConfig};
use aloo::addr::IpAddr;
use aloo::types::{Certificate, CipherStrength, CpeString, CvssSeverity, PortState, Protocol, Vulnerability};
use aloo::vuln::{CpeMapper, LocalVulnCorrelator, VulnEngine};

fn now() -> Timestamp {
    let d = std::time::SystemTime::now().duration_since(std::time::UNIX_EPOCH).unwrap();
    Timestamp { secs: d.as_secs() as i64, nanos: d.subsec_nanos() }
}

const DAY: i64 = 86_400;

fn shifted(t: Timestamp, days: i64) -> Timestamp {
    Timestamp { secs: t.secs + days * DAY, nanos: t.nanos }
}

fn make_cert(expired: bool, self_signed: bool) -> Certificate {
    let now = now();
    Certificate {
        common_name: "example.com".to_string(),
        subject_alt_names: vec!["www.example.com".to_string()],
        issuer: if self_signed { "example.com".to_string() } else { "Let's Encrypt".to_string() },
        not_before: shifted(now, -365),
        not_after: if expired { shifted(now, -1) } else { shifted(now, 90) },
        self_signed,
        serial: "01020304".to_string(),
    }
}

#[test]
fn cipher_evaluator_aes_gcm_is_strong() {
    assert_eq!(CipherEvaluator::evaluate("TLS_AES_256_GCM_SHA384"), CipherStrength::Strong);
}

#[test]
fn cipher_evaluator_rc4_is_weak() {
    assert_eq!(CipherEvaluator::evaluate("RC4-SHA"), CipherStrength::Weak);
}

#[test]
fn cipher_evaluator_3des_is_acceptable() {
    assert_eq!(CipherEvaluator::evaluate("ECDHE-RSA-DES-CBC3-SHA"), CipherStrength::Acceptable);
}

#[test]
fn cert_analyser_expired_cert() {
    let cert = make_cert(true, false);
    assert!(CertAnalyser::is_expired(&cert));
    let findings = CertAnalyser::assess(&cert);
    assert!(!findings.is_empty());
    assert!(findings[0].contains("expired"));
}

#[test]
fn cert_analyser_self_signed() {
    let cert = make_cert(false, true);
    assert!(CertAnalyser::is_self_signed(&cert));
    let findings = CertAnalyser::assess(&cert);
    assert!(findings.iter().any(|f| f.contains("self-signed")));
}

#[test]
fn cert_analyser_valid_cert_no_findings() {
    let cert = make_cert(false, false);
    assert!(!CertAnalyser::is_expired(&cert));
    assert!(!CertAnalyser::is_self_signed(&cert));
    assert!(CertAnalyser::assess(&cert).is_empty());
}

#[test]
fn findings_at_a_fixed_time_are_exact() {
    let t = Timestamp { secs: 1_700_000_000, nanos: 0 };
    let mut cert = make_cert(false, true);
    cert.not_after = shifted(t, -3);
    assert_eq!(
        CertAnalyser::assess_at(&cert, &t),
        vec!["Certificate expired 3 days ago".to_string(), "Certificate is self-signed".to_string()]
    );
    cert.not_after = shifted(t, 10);
    cert.self_signed = false;
    assert_eq!(CertAnalyser::assess_at(&cert, &t), vec!["Certificate expires in 10 days".to_string()]);
    cert.not_after = shifted(t, 30);
    assert!(CertAnalyser::assess_at(&cert, &t).is_empty());
}

#[test]
fn cipher_strength_edges() {
    assert_eq!(CipherEvaluator::evaluate("tls_chacha20_poly1305_sha256"), CipherStrength::Strong);
    assert_eq!(CipherEvaluator::evaluate("AES128-SHA"), CipherStrength::Acceptable);
    assert_eq!(CipherEvaluator::evaluate("TLS_NULL_WITH_NULL_NULL"), CipherStrength::Weak);
    assert_eq!(CipherEvaluator::evaluate("DES-CBC-SHA"), CipherStrength::Weak);
    assert_eq!(CipherEvaluator::evaluate("TLS_RSA_WITH_3DES_EDE_CBC_SHA"), CipherStrength::Acceptable);
}

#[test]
fn probe_context_defaults() {
    let ctx = ProbeContext::default();
    assert_eq!(ctx.timeout_ms, 3_000);
    assert_eq!(ctx.max_banner_bytes, 4_096);
}

#[test]
fn tcp_scan_config_defaults() {
    let cfg = TcpScanConfig::default();
    assert_eq!(cfg.max_concurrent, 1_000);
    assert!(cfg.grab_banner);
}

#[test]
fn udp_scan_config_defaults() {
    let cfg = UdpScanConfig::default();
    assert_eq!(cfg.retries, 2);
}

#[test]
fn port_observation_fields() {
    let obs = PortObservation {
        ip: IpAddr::parse("127.0.0.1").unwrap(),
        port: 80,
        protocol: Protocol::Tcp,
        state: PortState::Open,
        response_time_ms: 5,
    };
    assert_eq!(obs.port, 80);
}

#[test]
fn cpe_mapper_known_services() {
    let cpe = CpeMapper::map("ssh", Some("9.3")).unwrap();
    assert!(cpe.0.contains("openssh"));
    assert!(cpe.0.contains("9.3"));
}

#[test]
fn cpe_mapper_nginx() {
    let cpe = CpeMapper::map("nginx", Some("1.24.0")).unwrap();
    assert!(cpe.0.contains("nginx"));
}

#[test]
fn cpe_mapper_unknown_returns_none() {
    assert!(CpeMapper::map("unknown-service-xyz", None).is_none());
}

#[test]
fn cpe_mapper_default_version_wildcard() {
    let cpe = CpeMapper::map("mysql", None).unwrap();
    assert!(cpe.0.contains(":*:"));
}

#[test]
fn cpe_mapper_exact_strings() {
    assert_eq!(CpeMapper::map("Apache HTTPD", Some("2.4.51")).unwrap().0, "cpe:2.3:a:apache:http_server:2.4.51:*:*:*:*:*:*:*");
    assert_eq!(CpeMapper::map("postgres", None).unwrap().0, "cpe:2.3:a:postgresql:postgresql:*:*:*:*:*:*:*:*");
}

#[test]
fn local_correlator_returns_empty() {
    let cpe = CpeString::new("cpe:2.3:a:apache:http_server:2.4.51:*:*:*:*:*:*:*".to_string());
    let result = LocalVulnCorrelator.query(&cpe);
    assert!(result.is_empty());
    assert_eq!(LocalVulnCorrelator.priority(), 100);
}

fn vuln(id: &str, description: &str) -> Vulnerability {
    let t = Timestamp { secs: 0, nanos: 0 };
    Vulnerability {
        cve_id: id.to_string(),
        cvss_score_bits: 9.8f32.to_bits(),
        severity: CvssSeverity::Critical,
        description: description.to_string(),
        cpe: CpeString::new("cpe:2.3:a:nginx:nginx:1.18.0:*:*:*:*:*:*:*".to_string()),
        published: t,
        last_modified: t,
    }
}

#[test]
fn dedup_keeps_first_record_per_cve() {
    let all = vec![vuln("CVE-1", "a"), vuln("CVE-2", "b"), vuln("CVE-1", "c")];
    let out = VulnEngine::dedup_by_cve(all);
    assert_eq!(out.len(), 2);
    assert_eq!(out[0].description, "a");
    assert_eq!(out[1].cve_id, "CVE-2");
}

#[test]
fn sources_are_queried_by_priority_then_registration() {
    assert_eq!(VulnEngine::query_order(&vec![100, 5, 100, 0]), vec![3, 1, 0, 2]);
    assert!(VulnEngine::query_order(&vec![]).is_empty());
}

#[test]
fn vuln_engine_aggregates_empty() {
    let cpe = CpeString::new("cpe:2.3:a:nginx:nginx:1.18.0:*:*:*:*:*:*:*".to_string());
    let sources = vec![LocalVulnCorrelator];
    let prio: Vec<u8> = sources.iter().map(|s| s.priority()).collect();
    let mut all = Vec::new();
    for i in VulnEngine::query_order(&prio) {
        all.extend(sources[i].query(&cpe));
    }
    assert!(VulnEngine::dedup_by_cve(all).is_empty());
}
