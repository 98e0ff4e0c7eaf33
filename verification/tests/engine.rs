use aloo::addr::IpAddr;
use aloo::config::AlooConfig;
use aloo::engine::{AlooEngine, TargetPlan};
use aloo::id::SessionId;
use aloo::ports::PortRange;
use aloo::rate_limiter::GlobalRateLimiter;
use aloo::scheduler::ScanScheduler;
use aloo::traits::ScanError;
use aloo::types::{ScanSession, ScanStatus};
use std::time::Duration;

fn ip(s: &str) -> IpAddr {
    IpAddr::parse(s).unwrap()
}

#[test]
fn unlimited_has_zero_interval() {
    let l = GlobalRateLimiter::unlimited();
    assert!(!l.is_limited());
    assert_eq!(Duration::from_micros(l.interval_micros()), Duration::ZERO);
}

#[test]
fn pps_1000_gives_1ms_interval() {
    let l = GlobalRateLimiter::new(1_000);
    assert!(l.is_limited());
    assert_eq!(Duration::from_micros(l.interval_micros()), Duration::from_micros(1_000));
}

#[test]
fn pps_100_gives_10ms_interval() {
    let l = GlobalRateLimiter::new(100);
    assert_eq!(Duration::from_micros(l.interval_micros()), Duration::from_micros(10_000));
}

#[test]
fn limited_limiter_waits_and_unlimited_does_not() {
    assert!(GlobalRateLimiter::new(3).must_wait());
    assert_eq!(GlobalRateLimiter::new(3).interval_micros(), 333_333);
    assert!(!GlobalRateLimiter::unlimited().must_wait());
    assert_eq!(GlobalRateLimiter::new(0).pps(), 0);
    assert!(!GlobalRateLimiter::new(0).is_limited());
}

#[test]
fn schedule_produces_one_task_per_ip() {
    let scheduler = ScanScheduler::default();
    let session = SessionId::new();
    let ips: Vec<IpAddr> = vec![ip("10.0.0.1"), ip("10.0.0.2"), ip("10.0.0.3")];
    let tasks = scheduler.schedule(ips.clone(), session);
    assert_eq!(tasks.len(), 3);
    assert_eq!(tasks[0].target, ips[0]);
}

#[test]
fn schedule_empty_targets_returns_empty() {
    let scheduler = ScanScheduler::default();
    let tasks = scheduler.schedule(vec![], SessionId::new());
    assert!(tasks.is_empty());
}

#[test]
fn schedule_with_ports_override() {
    let scheduler = ScanScheduler::default();
    let custom_ports = PortRange { ranges: vec![(8000, 8080)] };
    let session = SessionId::new();
    let ips = vec![ip("1.2.3.4")];
    let tasks = scheduler.schedule_with_ports(ips, custom_ports.clone(), session);
    assert_eq!(tasks[0].ports, custom_ports);
}

#[test]
fn task_session_id_matches() {
    let scheduler = ScanScheduler::default();
    let session = SessionId::new();
    let tasks = scheduler.schedule(vec![ip("10.0.0.1")], session);
    assert_eq!(tasks[0].session_id, session);
}

#[test]
fn default_schedule_uses_top_ports() {
    let scheduler = ScanScheduler::default();
    let tasks = scheduler.schedule(vec![ip("10.0.0.1")], SessionId::new());
    assert_eq!(tasks[0].ports, PortRange::top_1000());
    assert_eq!(tasks[0].ports.count(), 1024);
}

#[test]
fn engine_builder_default_config() {
    let engine = AlooEngine::builder().build();
    assert_eq!(engine.config().scan.max_parallelism, 1_000);
}

#[test]
fn engine_takes_limits_from_config() {
    let mut config = AlooConfig::default();
    config.scan.rate_limit_pps = 100;
    config.scan.max_parallelism = 7;
    let engine = AlooEngine::builder().config(config).build();
    assert_eq!(engine.rate_limiter().interval_micros(), 10_000);
    assert_eq!(engine.worker_pool().max_workers, 7);
}

#[test]
fn begin_run_opens_a_running_session() {
    let engine = AlooEngine::builder().build();
    let session = engine.begin_run(vec!["10.0.0.1".to_string()]).unwrap();
    assert_eq!(session.status, ScanStatus::Running);
    assert_eq!(session.targets, vec!["10.0.0.1".to_string()]);
    assert!(session.completed_at.is_none());
}

#[test]
fn plan_target_expands_or_resolves() {
    match AlooEngine::plan_target("10.0.0.0/30") {
        TargetPlan::Hosts(v) => assert_eq!(v, vec![ip("10.0.0.1"), ip("10.0.0.2")]),
        TargetPlan::Resolve(_) => panic!("a network is expanded"),
    }
    match AlooEngine::plan_target("example.com") {
        TargetPlan::Resolve(name) => assert_eq!(name, "example.com"),
        TargetPlan::Hosts(_) => panic!("a name is resolved"),
    }
}

#[test]
fn engine_schedules_top_ports_per_address() {
    let engine = AlooEngine::builder().build();
    let session = SessionId::new();
    let tasks = engine.schedule(vec![ip("10.0.0.1"), ip("10.0.0.2")], session);
    assert_eq!(tasks.len(), 2);
    assert_eq!(tasks[1].target, ip("10.0.0.2"));
    assert_eq!(tasks[1].session_id, session);
}

#[test]
fn assemble_with_no_observations_is_empty() {
    let mut session = ScanSession::new(vec!["10.0.0.1".to_string()]);
    session.start();
    let result = AlooEngine::assemble(session, vec![]);
    assert!(result.hosts.is_empty());
    assert_eq!(result.session.targets, vec!["10.0.0.1"]);
    assert_eq!(result.session.status, ScanStatus::Completed);
}

#[test]
fn assemble_groups_ports_by_host_in_first_seen_order() {
    let session = ScanSession::new(vec!["10.0.0.0/24".to_string()]);
    let obs = vec![(ip("10.0.0.2"), 22), (ip("10.0.0.1"), 80), (ip("10.0.0.2"), 443)];
    let result = AlooEngine::assemble(session, obs);
    assert_eq!(result.hosts.len(), 2);
    assert_eq!(result.hosts[0].ip, ip("10.0.0.2"));
    assert_eq!(result.hosts[1].ip, ip("10.0.0.1"));
    let p0: Vec<u16> = result.hosts[0].ports.iter().map(|p| p.number).collect();
    assert_eq!(p0, vec![22, 443]);
    assert_eq!(result.hosts[1].ports.len(), 1);
    assert_eq!(result.total_open_ports(), 3);
}

#[test]
fn engine_run_no_targets_errors() {
    let engine = AlooEngine::builder().build();
    let err = engine.begin_run(vec![]).unwrap_err();
    assert!(matches!(err, ScanError::NoTargets));
}

#[test]
fn engine_run_stub_returns_empty_result() {
    let engine = AlooEngine::builder().build();
    let session = engine.begin_run(vec!["10.0.0.1".to_string()]).unwrap();
    let result = AlooEngine::assemble(session, vec![]);
    assert!(result.hosts.is_empty());
    assert_eq!(result.session.targets, vec!["10.0.0.1"]);
}
