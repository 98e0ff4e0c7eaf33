use aloo::config::{AlooConfig, ConfigLoader, ScanConfig, ScanFlags};
use aloo::ports::PortRange;
use aloo::types::ScanProfileKind;

#[test]
fn default_config_sane() {
    let c = AlooConfig::default();
    assert_eq!(c.scan.max_parallelism, 1_000);
    assert_eq!(c.scan.rate_limit_pps, 1_000);
    assert!(c.scan.host_discovery);
    assert!(c.scan.banner_grab);
}

#[test]
fn effective_ports_quick() {
    let mut c = ScanConfig::default();
    c.profile = ScanProfileKind::Quick;
    let ports = c.effective_ports();
    assert!(ports.contains(80));
    assert!(ports.contains(443));
}

#[test]
fn effective_ports_explicit_override() {
    let mut c = ScanConfig::default();
    c.ports = Some(PortRange { ranges: vec![(9000, 9010)] });
    let ports = c.effective_ports();
    assert!(ports.contains(9000));
    assert!(!ports.contains(80));
}

// ── further cases ─────────────────────────────────────────────────────────────

#[test]
fn overrides_apply_when_values_parse() {
    let c = ConfigLoader::apply_overrides(AlooConfig::default(), Some("42".to_string()), None, None, None);
    assert_eq!(c.scan.rate_limit_pps, 42);
    assert_eq!(c.scan.max_parallelism, 1_000);
    let c = ConfigLoader::apply_overrides(
        AlooConfig::default(),
        Some("lots".to_string()),
        Some("16".to_string()),
        Some("250".to_string()),
        Some("debug".to_string()),
    );
    assert_eq!(c.scan.rate_limit_pps, 1_000);
    assert_eq!(c.scan.max_parallelism, 16);
    assert_eq!(c.scan.timeout_ms, 250);
    assert_eq!(c.logging.level, "debug");
}

#[test]
fn full_profile_scans_every_port() {
    let c = ScanConfig::default();
    assert_eq!(c.effective_ports(), PortRange::all());
    let mut c = ScanConfig::default();
    c.profile = ScanProfileKind::Stealth;
    assert_eq!(c.effective_ports(), PortRange::top_1000());
}

#[test]
fn choose_default_prefers_loaded() {
    let mut loaded = AlooConfig::default();
    loaded.scan.timeout_ms = 5;
    assert_eq!(ConfigLoader::choose_default(Some(loaded)).scan.timeout_ms, 5);
    assert_eq!(ConfigLoader::choose_default(None).scan.timeout_ms, 3_000);
    assert_eq!(AlooConfig::default().output.output_dir, "./aloo-reports");
}

#[test]
fn apply_env_overrides_rate_limit() {
    let c = ConfigLoader::apply_overrides(AlooConfig::default(), Some("42".to_string()), None, None, None);
    assert_eq!(c.scan.rate_limit_pps, 42);
}

#[test]
fn decimal_values_parse_as_std_does() {
    let base = AlooConfig::default();
    let c = ConfigLoader::apply_overrides(base.clone(), Some("+42".to_string()), Some("7".to_string()), Some("0012".to_string()), None);
    assert_eq!(c.scan.rate_limit_pps, 42);
    assert_eq!(c.scan.max_parallelism, 7);
    assert_eq!(c.scan.timeout_ms, 12);
    for bad in ["", "+", "-1", "4 2", " 42", "4_2", "4294967296"] {
        let c = ConfigLoader::apply_overrides(base.clone(), Some(bad.to_string()), None, None, None);
        assert_eq!(c.scan.rate_limit_pps, 1_000);
    }
}

#[test]
fn flags_win_over_environment_and_file() {
    let mut file = AlooConfig::default();
    file.scan.rate_limit_pps = 10;
    file.scan.timeout_ms = 20;
    let chosen = ConfigLoader::choose_default(Some(file));
    let env = ConfigLoader::apply_overrides(chosen, Some("30".to_string()), None, Some("bad".to_string()), None);
    let flags = ScanFlags {
        profile: Some(ScanProfileKind::Quick),
        ports: PortRange::parse_list("22,80-81"),
        max_parallelism: Some(5),
        timeout_ms: None,
        rate_limit_pps: Some(40),
    };
    let c = ConfigLoader::apply_flags(env, &flags);
    assert_eq!(c.scan.rate_limit_pps, 40);
    assert_eq!(c.scan.timeout_ms, 20);
    assert_eq!(c.scan.max_parallelism, 5);
    assert_eq!(c.scan.profile, ScanProfileKind::Quick);
    assert_eq!(c.scan.ports, Some(PortRange { ranges: vec![(22, 22), (80, 81)] }));
    let none = ScanFlags { profile: None, ports: None, max_parallelism: None, timeout_ms: None, rate_limit_pps: None };
    let d = ConfigLoader::apply_flags(ConfigLoader::apply_overrides(AlooConfig::default(), Some("30".to_string()), None, None, None), &none);
    assert_eq!(d.scan.rate_limit_pps, 30);
    assert_eq!(d.scan.profile, ScanProfileKind::Full);
}

#[test]
fn port_lists_parse() {
    assert_eq!(PortRange::parse_list("80,443,8000-8080").unwrap().ranges, vec![(80, 80), (443, 443), (8000, 8080)]);
    assert_eq!(PortRange::parse_list("+1-65535").unwrap().ranges, vec![(1, 65535)]);
    for bad in ["", "80,", ",80", "80-", "9-8", "1-2-3", "65536", "80, 443", "http"] {
        assert!(PortRange::parse_list(bad).is_none(), "{bad}");
    }
}
