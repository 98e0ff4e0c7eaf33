//! Scan orchestration: engine settings, target planning, and assembling
//! the result of a TCP connect scan.

use std::sync::Arc;

use vstd::prelude::*;

use crate::addr::{IpAddr, parsed_ip_addr, parsed_ip_net};
use crate::clock::now;
use crate::config::{AlooConfig, is_default_config};
use crate::discovery::{HostFilter, dedup};
use crate::id::{HostId, PortId, SessionId};
use crate::rate_limiter::{GlobalRateLimiter, interval_for};
use crate::scheduler::{ScanScheduler, ScanTask, tasks_match};
use crate::target::{ScanTarget, host_list, target_network};
use crate::traits::ScanError;
use crate::types::{DiscoveryMethod, Host, Port, PortState, Protocol, ScanResult, ScanSession, ScanStatus, open_port_count, open_ports_of_hosts};
use crate::worker_pool::WorkerPool;

verus! {

/// Control plane signals for the scan engine.
#[derive(Debug, Clone, Copy, PartialEq, Eq, Structural)]
pub enum ControlEvent {
    /// Normal running state (initial value).
    Running,
    /// Pause scanning (drain in-flight; don't start new tasks).
    Pause,
    /// Orderly shutdown.
    Shutdown,
}

/// How one target string is turned into addresses.
#[derive(Debug)]
pub enum TargetPlan {
    /// The target is an address or a network: these are its hosts.
    Hosts(Vec<IpAddr>),
    /// The target is neither: it must be resolved as a host name.
    Resolve(String),
}

/// The ports observed open on `ip`, in observation order.
pub open spec fn ports_for(obs: Seq<(IpAddr, u16)>, ip: IpAddr) -> Seq<u16>
    decreases obs.len(),
{
    if obs.len() == 0 {
        Seq::empty()
    } else if obs.last().0 == ip {
        ports_for(obs.drop_last(), ip).push(obs.last().1)
    } else {
        ports_for(obs.drop_last(), ip)
    }
}

/// The addresses of the observations, in order of first observation.
pub open spec fn observed_hosts(obs: Seq<(IpAddr, u16)>) -> Seq<IpAddr> {
    dedup(obs.map_values(|o: (IpAddr, u16)| o.0))
}

/// A port record made from an open-port observation.
pub open spec fn port_record_ok(p: Port, number: u16, host: HostId) -> bool {
    &&& p.number == number
    &&& p.host_id == host
    &&& p.protocol == Protocol::Tcp
    &&& p.state == PortState::Open
    &&& p.service is None
    &&& p.banner is None
    &&& p.tls is None
    &&& p.vulnerabilities@.len() == 0
}

/// A host record made from the observations of one address.
pub open spec fn host_record_ok(h: Host, ip: IpAddr, obs: Seq<(IpAddr, u16)>, session: SessionId) -> bool {
    &&& h.ip == ip
    &&& h.session_id == session
    &&& h.hostname is None
    &&& h.os_fingerprint is None
    &&& h.mac_address is None
    &&& h.discovery_method == DiscoveryMethod::TcpPing
    &&& h.discovered_at.valid()
    &&& h.ports@.len() == ports_for(obs, ip).len()
    &&& forall|j: int| 0 <= j < h.ports@.len() ==> port_record_ok(#[trigger] h.ports@[j], ports_for(obs, ip)[j], h.id)
}

/// The number of observations that fall to the addresses `ips`.
pub open spec fn port_total(ips: Seq<IpAddr>, obs: Seq<(IpAddr, u16)>) -> nat
    decreases ips.len(),
{
    if ips.len() == 0 {
        0
    } else {
        port_total(ips.drop_last(), obs) + ports_for(obs, ips.last()).len()
    }
}

/// No ports are observed on an address that no observation names.
proof fn lemma_ports_absent(obs: Seq<(IpAddr, u16)>, ip: IpAddr)
    requires
        !obs.map_values(|o: (IpAddr, u16)| o.0).contains(ip),
    ensures
        ports_for(obs, ip).len() == 0,
    decreases obs.len(),
{
    if obs.len() > 0 {
        let ips = obs.map_values(|o: (IpAddr, u16)| o.0);
        assert(obs.drop_last().map_values(|o: (IpAddr, u16)| o.0) =~= ips.drop_last());
        assert(ips[ips.len() - 1] == obs.last().0);
        if obs.drop_last().map_values(|o: (IpAddr, u16)| o.0).contains(ip) {
            let j = choose|j: int| 0 <= j < ips.drop_last().len() && ips.drop_last()[j] == ip;
            assert(ips[j] == ip);
        }
        lemma_ports_absent(obs.drop_last(), ip);
    }
}

/// One more observation adds one to the total of any duplicate-free list
/// of addresses that holds its address, and nothing otherwise.
proof fn lemma_port_total_push(ips: Seq<IpAddr>, obs: Seq<(IpAddr, u16)>, o: (IpAddr, u16))
    requires
        ips.no_duplicates(),
    ensures
        port_total(ips, obs.push(o)) == port_total(ips, obs) + if ips.contains(o.0) { 1nat } else { 0nat },
    decreases ips.len(),
{
    assert(obs.push(o).drop_last() =~= obs);
    if ips.len() > 0 {
        let rest = ips.drop_last();
        assert(rest.no_duplicates());
        lemma_port_total_push(rest, obs, o);
        if rest.contains(o.0) {
            let j = choose|j: int| 0 <= j < rest.len() && rest[j] == o.0;
            assert(ips[j] == o.0);
            assert(ips.last() != o.0);
            assert(ips.contains(o.0));
        } else if ips.last() == o.0 {
            assert(ips[ips.len() - 1] == o.0);
        } else {
            if ips.contains(o.0) {
                let j = choose|j: int| 0 <= j < ips.len() && ips[j] == o.0;
                assert(rest[j] == o.0);
            }
        }
    }
}

/// Every observation is counted once: the ports of the observed hosts
/// number as many as the observations.
pub proof fn law_every_observation_counted(obs: Seq<(IpAddr, u16)>)
    ensures
        port_total(observed_hosts(obs), obs) == obs.len(),
    decreases obs.len(),
{
    if obs.len() > 0 {
        let prev = obs.drop_last();
        let o = obs.last();
        law_every_observation_counted(prev);
        let ips = obs.map_values(|x: (IpAddr, u16)| x.0);
        let prev_ips = prev.map_values(|x: (IpAddr, u16)| x.0);
        assert(ips.drop_last() =~= prev_ips);
        assert(ips.last() == o.0);
        assert(prev.push(o) =~= obs);
        crate::discovery::lemma_dedup(prev_ips);
        let d = dedup(prev_ips);
        lemma_port_total_push(d, prev, o);
        if !d.contains(o.0) {
            assert(observed_hosts(obs) == d.push(o.0));
            assert(d.push(o.0).drop_last() =~= d);
            lemma_ports_absent(prev, o.0);
            assert(ports_for(obs, o.0).len() == ports_for(prev, o.0).len() + 1);
        } else {
            assert(observed_hosts(obs) == d);
        }
    }
}

/// A list of ports all open counts each of them as open.
proof fn lemma_all_open(ports: Seq<Port>)
    requires
        forall|j: int| 0 <= j < ports.len() ==> (#[trigger] ports[j]).state == PortState::Open,
    ensures
        open_port_count(ports) == ports.len(),
    decreases ports.len(),
{
    if ports.len() > 0 {
        assert(ports[ports.len() - 1].state == PortState::Open);
        lemma_all_open(ports.drop_last());
    }
}

/// Host records made from the observations count the observations' ports.
proof fn lemma_records_total(hosts: Seq<Host>, ips: Seq<IpAddr>, obs: Seq<(IpAddr, u16)>, session: SessionId)
    requires
        hosts.len() == ips.len(),
        forall|k: int| 0 <= k < hosts.len() ==> host_record_ok(#[trigger] hosts[k], ips[k], obs, session),
    ensures
        open_ports_of_hosts(hosts) == port_total(ips, obs),
    decreases hosts.len(),
{
    if hosts.len() > 0 {
        let k = hosts.len() - 1;
        assert(host_record_ok(hosts[k], ips[k], obs, session));
        let ps = hosts.last().ports@;
        assert forall|j: int| 0 <= j < ps.len() implies (#[trigger] ps[j]).state == PortState::Open by {
            assert(port_record_ok(hosts[k].ports@[j], ports_for(obs, ips[k])[j], hosts[k].id));
        }
        lemma_all_open(ps);
        lemma_records_total(hosts.drop_last(), ips.drop_last(), obs, session);
    }
}

fn collect_ports(obs: &Vec<(IpAddr, u16)>, ip: IpAddr, host: HostId) -> (v: Vec<Port>)
    ensures
        v@.len() == ports_for(obs@, ip).len(),
        forall|j: int| 0 <= j < v@.len() ==> port_record_ok(#[trigger] v@[j], ports_for(obs@, ip)[j], host),
{
    let mut out: Vec<Port> = Vec::new();
    let mut i: usize = 0;
    while i < obs.len()
        invariant
            i <= obs@.len(),
            out@.len() == ports_for(obs@.take(i as int), ip).len(),
            forall|j: int| 0 <= j < out@.len() ==> port_record_ok(#[trigger] out@[j], ports_for(obs@.take(i as int), ip)[j], host),
        decreases obs.len() - i,
    {
        proof {
            assert(obs@.take(i + 1).drop_last() =~= obs@.take(i as int));
            assert(obs@.take(i + 1).last() == obs@[i as int]);
        }
        let (a, p) = obs[i];
        if a == ip {
            out.push(Port {
                id: PortId::new(),
                host_id: host,
                number: p,
                protocol: Protocol::Tcp,
                state: PortState::Open,
                service: None,
                banner: None,
                tls: None,
                vulnerabilities: Vec::new(),
            });
        }
        i = i + 1;
    }
    proof {
        assert(obs@.take(obs@.len() as int) =~= obs@);
    }
    out
}

/// The main Aloo scan orchestration engine: its configuration, rate
/// limiter and worker pool.
pub struct AlooEngine {
    config: Arc<AlooConfig>,
    rate_limiter: Arc<GlobalRateLimiter>,
    worker_pool: Arc<WorkerPool>,
}

impl AlooEngine {
    /// The configuration the engine was built with.
    pub closed spec fn settings(&self) -> AlooConfig {
        *self.config
    }

    /// The engine's rate limiter.
    pub closed spec fn limiter(&self) -> GlobalRateLimiter {
        *self.rate_limiter
    }

    /// The engine's worker pool.
    pub closed spec fn pool(&self) -> WorkerPool {
        *self.worker_pool
    }

    /// Create a new engine from config; the configuration must allow at
    /// least one worker.
    pub fn new(config: AlooConfig) -> (e: Self)
        requires
            config.scan.max_parallelism > 0,
        ensures
            e.settings() == config,
            e.limiter().rate() == config.scan.rate_limit_pps,
            e.limiter().interval() == interval_for(config.scan.rate_limit_pps),
            e.pool().max_workers == config.scan.max_parallelism,
    {
        let pps = config.scan.rate_limit_pps;
        let workers = config.scan.max_parallelism;
        AlooEngine {
            rate_limiter: Arc::new(GlobalRateLimiter::new(pps)),
            worker_pool: Arc::new(WorkerPool::new(workers)),
            config: Arc::new(config),
        }
    }

    /// Return a builder for constructing the engine.
    pub fn builder() -> (b: EngineBuilder)
        ensures
            b.chosen() is None,
    {
        EngineBuilder { config: None }
    }

    /// Reference to the configuration.
    pub fn config(&self) -> (c: &AlooConfig)
        ensures
            *c == self.settings(),
    {
        &self.config
    }

    /// Reference to the rate limiter.
    pub fn rate_limiter(&self) -> (r: &Arc<GlobalRateLimiter>)
        ensures
            **r == self.limiter(),
    {
        &self.rate_limiter
    }

    /// Reference to the worker pool.
    pub fn worker_pool(&self) -> (r: &Arc<WorkerPool>)
        ensures
            **r == self.pool(),
    {
        &self.worker_pool
    }

    /// Start a run: refuse an empty target list, otherwise open a session
    /// over the targets and mark it running.
    pub fn begin_run(&self, targets: Vec<String>) -> (r: Result<ScanSession, ScanError>)
        ensures
            targets@.len() == 0 <==> r matches Err(ScanError::NoTargets),
            targets@.len() > 0 ==> (r matches Ok(s) && s.status == ScanStatus::Running
                && s.targets@ == targets@ && s.completed_at is None),
    {
        if targets.len() == 0 {
            return Err(ScanError::NoTargets);
        }
        let mut session = ScanSession::new(targets);
        session.start();
        Ok(session)
    }

    /// How a target string is turned into addresses: the hosts of the
    /// address or network it is, or a name to resolve.
    pub fn plan_target(t: &str) -> (p: TargetPlan)
        ensures
            target_network(parsed_ip_net(t@), parsed_ip_addr(t@)) matches Some(n)
                ==> (p matches TargetPlan::Hosts(v) && v@ == host_list(n)),
            target_network(parsed_ip_net(t@), parsed_ip_addr(t@)) is None
                ==> (p matches TargetPlan::Resolve(s) && s@ == t@),
    {
        match ScanTarget::parse(t) {
            Ok(spec) => TargetPlan::Hosts(spec.hosts()),
            Err(_) => TargetPlan::Resolve(crate::text::owned(t)),
        }
    }

    /// One task per address, each with the top 1024 ports.
    pub fn schedule(&self, ips: Vec<IpAddr>, session: SessionId) -> (v: Vec<ScanTask>)
        ensures
            tasks_match(v@, ips@, seq![(1u16, 1024u16)], session),
    {
        let scheduler = ScanScheduler::default();
        scheduler.schedule(ips, session)
    }

    /// Build the result of a run from the open ports observed: one host per
    /// observed address, in order of first observation, each with its open
    /// TCP ports in observation order; the session is marked completed.
    pub fn assemble(session: ScanSession, obs: Vec<(IpAddr, u16)>) -> (r: ScanResult)
        ensures
            r.session.status == ScanStatus::Completed,
            r.session.id == session.id,
            r.session.started_at == session.started_at,
            r.session.targets@ == session.targets@,
            r.session.completed_at is Some,
            r.hosts@.len() == observed_hosts(obs@).len(),
            forall|k: int| 0 <= k < r.hosts@.len()
                ==> host_record_ok(#[trigger] r.hosts@[k], observed_hosts(obs@)[k], obs@, session.id),
            open_ports_of_hosts(r.hosts@) == obs@.len(),
    {
        let mut filter = HostFilter::new();
        let mut i: usize = 0;
        let ghost ips_all = obs@.map_values(|o: (IpAddr, u16)| o.0);
        while i < obs.len()
            invariant
                i <= obs@.len(),
                ips_all == obs@.map_values(|o: (IpAddr, u16)| o.0),
                filter.wf(),
                filter@ == dedup(ips_all.take(i as int)),
            decreases obs.len() - i,
        {
            proof {
                assert(ips_all.take(i + 1).drop_last() =~= ips_all.take(i as int));
                assert(ips_all.take(i + 1).last() == obs@[i as int].0);
                crate::discovery::lemma_dedup(ips_all.take(i as int));
            }
            filter.insert(obs[i].0);
            i = i + 1;
        }
        proof {
            assert(ips_all.take(obs@.len() as int) =~= ips_all);
        }
        let ips = filter.into_vec();
        let mut hosts: Vec<Host> = Vec::new();
        let mut k: usize = 0;
        while k < ips.len()
            invariant
                k <= ips@.len(),
                ips@ == observed_hosts(obs@),
                hosts@.len() == k,
                forall|m: int| 0 <= m < k ==> host_record_ok(#[trigger] hosts@[m], ips@[m], obs@, session.id),
            decreases ips.len() - k,
        {
            let ip = ips[k];
            let host_id = HostId::new();
            let ports = collect_ports(&obs, ip, host_id);
            hosts.push(Host {
                id: host_id,
                session_id: session.id,
                ip,
                hostname: None,
                os_fingerprint: None,
                mac_address: None,
                discovered_at: now(),
                discovery_method: DiscoveryMethod::TcpPing,
                ports,
            });
            k = k + 1;
        }
        proof {
            lemma_records_total(hosts@, ips@, obs@, session.id);
            law_every_observation_counted(obs@);
        }
        let mut session = session;
        session.complete();
        ScanResult { session, hosts }
    }
}

/// Builder for constructing an `AlooEngine` with custom settings.
pub struct EngineBuilder {
    config: Option<AlooConfig>,
}

impl Default for EngineBuilder {
    fn default() -> (b: Self)
        ensures
            b.chosen() is None,
    {
        EngineBuilder { config: None }
    }
}

impl EngineBuilder {
    /// The configuration set so far, if any.
    pub closed spec fn chosen(&self) -> Option<AlooConfig> {
        self.config
    }

    /// Set the configuration.
    pub fn config(self, config: AlooConfig) -> (b: Self)
        ensures
            b.chosen() == Some(config),
    {
        let mut b = self;
        b.config = Some(config);
        b
    }

    /// Build the engine from the configuration set, or the defaults; a set
    /// configuration must allow at least one worker.
    pub fn build(self) -> (e: AlooEngine)
        requires
            self.chosen() matches Some(c) ==> c.scan.max_parallelism > 0,
        ensures
            self.chosen() matches Some(c) ==> e.settings() == c,
            self.chosen() is None ==> is_default_config(e.settings()),
    {
        let config = match self.config {
            Some(c) => c,
            None => AlooConfig::default(),
        };
        AlooEngine::new(config)
    }
}

} // verus!
