use aloo::addr::{IpAddr, IpNetwork};
use aloo::net::{connect_scan_state, ConnectOutcome};
use aloo::port_iter::PortIterator;
use aloo::ports::PortRange;
use aloo::target::{ScanTarget, TargetSpec};
use aloo::types::PortState;

#[test]
fn single_port() {
    let r = PortRange { ranges: vec![(443, 443)] };
    assert_eq!(PortIterator::new(&r).collect_ports(), vec![443]);
}

#[test]
fn range_of_three() {
    let r = PortRange { ranges: vec![(8080, 8082)] };
    assert_eq!(PortIterator::new(&r).collect_ports(), vec![8080, 8081, 8082]);
}

#[test]
fn two_disjoint_ranges() {
    let r = PortRange { ranges: vec![(80, 81), (443, 444)] };
    assert_eq!(PortIterator::new(&r).collect_ports(), vec![80, 81, 443, 444]);
}

#[test]
fn empty_range() {
    let r = PortRange { ranges: vec![] };
    assert!(PortIterator::new(&r).next().is_none());
}

#[test]
fn single_ip_count() {
    let t = TargetSpec::parse("10.0.0.1").unwrap();
    assert_eq!(t.host_count(), 1);
}

#[test]
fn slash_24_count() {
    let t = TargetSpec::parse("192.168.0.0/24").unwrap();
    assert_eq!(t.host_count(), 256);
}

#[test]
fn invalid_target_errors() {
    assert!(TargetSpec::parse("not-valid").is_err());
}

// ── further cases ─────────────────────────────────────────────────────────────

#[test]
fn iterator_matches_range_iter_on_well_formed_ranges() {
    let r = PortRange { ranges: vec![(5, 7), (1, 1), (65534, 65535)] };
    let lazy = PortIterator::new(&r).collect_ports();
    let eager: Vec<u16> = r.iter().collect();
    assert_eq!(lazy, eager);
    assert_eq!(lazy.len(), r.count());
}

#[test]
fn reversed_range_yields_its_start_only() {
    let r = PortRange { ranges: vec![(10, 8), (20, 21)] };
    assert_eq!(PortIterator::new(&r).collect_ports(), vec![10, 20, 21]);
    let v: Vec<u16> = r.iter().collect();
    assert_eq!(v, vec![20, 21]);
}

#[test]
fn iterator_next_then_none() {
    let r = PortRange::single(7);
    let mut it = PortIterator::new(&r);
    assert_eq!(it.next(), Some(7));
    assert_eq!(it.next(), None);
}

#[test]
fn port_range_presets() {
    assert_eq!(PortRange::top_1000().count(), 1024);
    assert_eq!(PortRange::all().count(), 65535);
    assert!(PortRange::all().contains(65535));
    assert!(!PortRange::top_1000().contains(0));
    assert_eq!(PortRange::default(), PortRange::top_1000());
}

#[test]
fn slash_30_hosts_exclude_network_and_broadcast() {
    let t = ScanTarget::parse("10.0.0.0/30").unwrap();
    assert_eq!(t.hosts(), vec![IpAddr::v4(10, 0, 0, 1), IpAddr::v4(10, 0, 0, 2)]);
    let t31 = ScanTarget::parse("10.0.0.0/31").unwrap();
    assert_eq!(t31.hosts(), vec![IpAddr::v4(10, 0, 0, 0), IpAddr::v4(10, 0, 0, 1)]);
    let one = ScanTarget::parse("10.0.0.7").unwrap();
    assert_eq!(one.hosts(), vec![IpAddr::v4(10, 0, 0, 7)]);
}

#[test]
fn host_bits_are_cleared() {
    let t = ScanTarget::parse("172.16.5.9/30").unwrap();
    assert_eq!(t.hosts(), vec![IpAddr::v4(172, 16, 5, 9), IpAddr::v4(172, 16, 5, 10)]);
}

#[test]
fn ipv6_targets() {
    let t = ScanTarget::parse("fd00::/126").unwrap();
    assert_eq!(t.host_count(), 4);
    assert_eq!(t.hosts().len(), 4);
    let one = ScanTarget::parse("::1").unwrap();
    assert_eq!(one.network, IpNetwork::V6 { addr: 1, prefix_len: 128 });
    assert_eq!(one.hosts(), vec![IpAddr::V6(1)]);
}

#[test]
fn invalid_target_message() {
    match ScanTarget::parse("not-an-ip") {
        Err(m) => assert_eq!(m, "'not-an-ip' is not a valid IP address or CIDR notation"),
        Ok(_) => panic!("parsed"),
    }
}

#[test]
fn address_text() {
    assert_eq!(IpAddr::v4(192, 168, 1, 20).to_text(), "192.168.1.20");
    assert_eq!(IpAddr::parse("fe80::1").unwrap().to_text(), "fe80::1");
    assert!(IpAddr::parse("300.1.1.1").is_none());
}

#[test]
fn connect_outcomes() {
    assert_eq!(connect_scan_state(ConnectOutcome::Connected), PortState::Open);
    assert_eq!(connect_scan_state(ConnectOutcome::Refused), PortState::Closed);
    assert_eq!(connect_scan_state(ConnectOutcome::Failed), PortState::Filtered);
    assert_eq!(connect_scan_state(ConnectOutcome::TimedOut), PortState::Filtered);
}

#[test]
fn hosts_number_the_count_less_the_ends() {
    let t = ScanTarget::parse("192.168.0.0/24").unwrap();
    assert_eq!(t.hosts().len() as u128, t.host_count() - 2);
    let t = ScanTarget::parse("10.0.0.0/31").unwrap();
    assert_eq!(t.hosts().len() as u128, t.host_count());
    let t = ScanTarget::parse("fe80::/126").unwrap();
    assert_eq!(t.hosts().len() as u128, t.host_count());
}
