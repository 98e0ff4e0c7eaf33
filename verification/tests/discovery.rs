use std::collections::HashSet;

use aloo::addr::IpAddr;
use aloo::discovery::{CidrExpander, DiscoveryRunner, HostFilter, TcpPingDiscoverer};
use aloo::types::DiscoveryMethod;

#[test]
fn host_filter_deduplicates() {
    let mut f = HostFilter::new();
    let ip = IpAddr::parse("10.0.0.1").unwrap();
    f.insert(ip);
    f.insert(ip);
    assert_eq!(f.len(), 1);
}

#[test]
fn cidr_expander_slash_30() {
    let targets = vec!["10.0.0.0/30".to_string()];
    let hosts = CidrExpander::expand(&targets);
    assert!(!hosts.is_empty());
}

#[test]
fn cidr_expander_single_ip() {
    let targets = vec!["192.168.1.5".to_string()];
    let hosts = CidrExpander::expand(&targets);
    assert_eq!(hosts.len(), 1);
    assert_eq!(hosts[0], IpAddr::parse("192.168.1.5").unwrap());
}

#[test]
fn cidr_expander_deduplicates_overlap() {
    let targets = vec!["10.0.0.0/30".to_string(), "10.0.0.1".to_string()];
    let hosts = CidrExpander::expand(&targets);
    let unique: HashSet<IpAddr> = hosts.iter().cloned().collect();
    assert_eq!(hosts.len(), unique.len());
}

#[test]
fn cidr_expander_skips_invalid() {
    let targets = vec!["not-an-ip".to_string(), "10.0.0.1".to_string()];
    let hosts = CidrExpander::expand(&targets);
    assert_eq!(hosts.len(), 1);
}

// ── further cases ─────────────────────────────────────────────────────────────

#[test]
fn expansion_keeps_first_occurrence_order() {
    let targets = vec!["10.0.0.2".to_string(), "10.0.0.0/30".to_string(), "10.0.0.2".to_string()];
    let hosts = CidrExpander::expand(&targets);
    assert_eq!(hosts, vec![IpAddr::v4(10, 0, 0, 2), IpAddr::v4(10, 0, 0, 1)]);
}

#[test]
fn filter_keeps_families_apart() {
    let mut f = HostFilter::new();
    assert!(f.is_empty());
    f.insert(IpAddr::V4(1));
    f.insert(IpAddr::V6(1));
    f.insert(IpAddr::V4(1));
    assert_eq!(f.into_vec(), vec![IpAddr::V4(1), IpAddr::V6(1)]);
}

#[test]
fn runner_keeps_only_confirmed_hosts() {
    let candidates = vec![IpAddr::v4(10, 0, 0, 1), IpAddr::v4(10, 0, 0, 2), IpAddr::v4(10, 0, 0, 3)];
    let answers = vec![Some(true), Some(false), None];
    assert_eq!(DiscoveryRunner::alive_hosts(&candidates, &answers), vec![IpAddr::v4(10, 0, 0, 1)]);
    let d = TcpPingDiscoverer::standard();
    assert_eq!(d.probe_ports, vec![80, 443, 22, 8080]);
    assert_eq!(d.method(), DiscoveryMethod::TcpPing);
}

#[test]
fn discovery_runner_skips_all_stub_hosts() {
    let candidates = vec![IpAddr::parse("10.0.0.1").unwrap(), IpAddr::parse("10.0.0.2").unwrap()];
    let answers = vec![Some(false), Some(false)];
    let alive = DiscoveryRunner::alive_hosts(&candidates, &answers);
    assert!(alive.is_empty());
}
