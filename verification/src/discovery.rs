//! Host liveness preparation: CIDR expansion and host de-duplication.

use std::collections::HashSet;

use vstd::prelude::*;

use crate::addr::{IpAddr, parsed_ip_addr, parsed_ip_net};
use crate::target::{TargetSpec, host_list, target_network};
use crate::types::DiscoveryMethod;

verus! {

broadcast use vstd::std_specs::hash::group_hash_axioms;

/// The addresses of `s` in order of first occurrence, each once.
pub open spec fn dedup(s: Seq<IpAddr>) -> Seq<IpAddr>
    decreases s.len(),
{
    if s.len() == 0 {
        Seq::empty()
    } else {
        let d = dedup(s.drop_last());
        if d.contains(s.last()) {
            d
        } else {
            d.push(s.last())
        }
    }
}

/// The hosts a target text expands to: those of its network, or none when
/// the text is neither a network nor an address.
pub open spec fn target_hosts(text: Seq<char>) -> Seq<IpAddr> {
    match target_network(parsed_ip_net(text), parsed_ip_addr(text)) {
        Some(n) => host_list(n),
        None => Seq::empty(),
    }
}

/// The hosts of all target texts, target after target.
pub open spec fn expansion(targets: Seq<String>) -> Seq<IpAddr>
    decreases targets.len(),
{
    if targets.len() == 0 {
        Seq::empty()
    } else {
        expansion(targets.drop_last()) + target_hosts(targets.last()@)
    }
}

/// `dedup` keeps exactly the elements of its input, each once.
pub proof fn lemma_dedup(s: Seq<IpAddr>)
    ensures
        dedup(s).no_duplicates(),
        forall|x: IpAddr| dedup(s).contains(x) <==> s.contains(x),
    decreases s.len(),
{
    if s.len() > 0 {
        let d = dedup(s.drop_last());
        lemma_dedup(s.drop_last());
        assert forall|x: IpAddr| dedup(s).contains(x) <==> s.contains(x) by {
            if s.contains(x) && !s.drop_last().contains(x) {
                assert(x == s.last()) by {
                    let i = choose|i: int| 0 <= i < s.len() && s[i] == x;
                    if i < s.len() - 1 {
                        assert(s.drop_last()[i] == x);
                    }
                }
            }
            if s.drop_last().contains(x) {
                let i = choose|i: int| 0 <= i < s.drop_last().len() && s.drop_last()[i] == x;
                assert(s[i] == x);
            }
            if !d.contains(s.last()) {
                assert(d.push(s.last())[d.len() as int] == s.last());
                if d.push(s.last()).contains(x) && x != s.last() {
                    let i = choose|i: int| 0 <= i < d.len() + 1 && d.push(s.last())[i] == x;
                    assert(d[i] == x);
                }
                if d.contains(x) {
                    let i = choose|i: int| 0 <= i < d.len() && d[i] == x;
                    assert(d.push(s.last())[i] == x);
                }
            }
            if s.contains(x) && x == s.last() && d.contains(s.last()) {
            }
        }
    }
}

/// Deduplicates IP addresses, keeping the order of first insertion.
pub struct HostFilter {
    seen_v4: HashSet<u32>,
    seen_v6: HashSet<u128>,
    ordered: Vec<IpAddr>,
}

impl View for HostFilter {
    type V = Seq<IpAddr>;

    closed spec fn view(&self) -> Seq<IpAddr> {
        self.ordered@
    }
}

impl HostFilter {
    /// The two lookup sets hold exactly the addresses of the ordered list,
    /// which holds each address once.
    pub closed spec fn wf(&self) -> bool {
        &&& self.ordered@.no_duplicates()
        &&& forall|x: u32| self.seen_v4@.contains(x) <==> self.ordered@.contains(IpAddr::V4(x))
        &&& forall|x: u128| self.seen_v6@.contains(x) <==> self.ordered@.contains(IpAddr::V6(x))
    }

    /// Create an empty filter.
    pub fn new() -> (f: Self)
        ensures
            f.wf(),
            f@ == Seq::<IpAddr>::empty(),
    {
        HostFilter { seen_v4: HashSet::new(), seen_v6: HashSet::new(), ordered: Vec::new() }
    }

    /// Insert an IP. Ignored if already seen.
    pub fn insert(&mut self, ip: IpAddr)
        requires
            old(self).wf(),
        ensures
            final(self).wf(),
            old(self)@.contains(ip) ==> final(self)@ == old(self)@,
            !old(self)@.contains(ip) ==> final(self)@ == old(self)@.push(ip),
    {
        let ghost before = self.ordered@;
        let fresh = match ip {
            IpAddr::V4(x) => self.seen_v4.insert(x),
            IpAddr::V6(x) => self.seen_v6.insert(x),
        };
        if fresh {
            self.ordered.push(ip);
            proof {
                assert forall|i: int, j: int| 0 <= i < j < self.ordered@.len() implies self.ordered@[i] != self.ordered@[j] by {
                    if j == before.len() {
                        assert(before[i] == self.ordered@[i]);
                        assert(before.contains(before[i]));
                    }
                }
                assert forall|y: IpAddr| self.ordered@.contains(y) <==> (before.contains(y) || y == ip) by {
                    if self.ordered@.contains(y) && y != ip {
                        let k = choose|k: int| 0 <= k < self.ordered@.len() && self.ordered@[k] == y;
                        assert(before[k] == y);
                    }
                    if before.contains(y) {
                        let k = choose|k: int| 0 <= k < before.len() && before[k] == y;
                        assert(self.ordered@[k] == y);
                    }
                    assert(self.ordered@[before.len() as int] == ip);
                }
            }
        } else {
            proof {
                assert(before.contains(ip));
            }
        }
    }

    /// Return the deduplicated, ordered list.
    pub fn into_vec(self) -> (v: Vec<IpAddr>)
        ensures
            v@ == self@,
    {
        self.ordered
    }

    /// Current count of unique hosts.
    pub fn len(&self) -> (n: usize)
        ensures
            n == self@.len(),
    {
        self.ordered.len()
    }

    /// True if empty.
    pub fn is_empty(&self) -> (b: bool)
        ensures
            b == (self@.len() == 0),
    {
        self.ordered.len() == 0
    }
}

proof fn lemma_dedup_push(s: Seq<IpAddr>, x: IpAddr)
    ensures
        dedup(s.push(x)) == if dedup(s).contains(x) { dedup(s) } else { dedup(s).push(x) },
{
    assert(s.push(x).drop_last() =~= s);
    assert(s.push(x).last() == x);
}

/// Expands a list of target strings into individual addresses.
pub struct CidrExpander;

impl CidrExpander {
    /// Expand target strings to a deduplicated list of IP addresses.
    /// Invalid targets are skipped.
    pub fn expand(targets: &[String]) -> (v: Vec<IpAddr>)
        ensures
            v@ == dedup(expansion(targets@)),
            v@.no_duplicates(),
            forall|ip: IpAddr| v@.contains(ip) <==> expansion(targets@).contains(ip),
    {
        let mut filter = HostFilter::new();
        let n = targets.len();
        let mut i: usize = 0;
        while i < n
            invariant
                n == targets@.len(),
                i <= n,
                filter.wf(),
                filter@ == dedup(expansion(targets@.take(i as int))),
            decreases n - i,
        {
            let ghost prev = expansion(targets@.take(i as int));
            proof {
                assert(targets@.take(i + 1).drop_last() =~= targets@.take(i as int));
                assert(targets@.take(i + 1).last() == targets@[i as int]);
            }
            match TargetSpec::parse(targets[i].as_str()) {
                Ok(spec) => {
                    let hosts = spec.hosts();
                    let mut j: usize = 0;
                    while j < hosts.len()
                        invariant
                            j <= hosts@.len(),
                            hosts@ == target_hosts(targets@[i as int]@),
                            filter.wf(),
                            filter@ == dedup(prev + hosts@.take(j as int)),
                        decreases hosts.len() - j,
                    {
                        proof {
                            lemma_dedup_push(prev + hosts@.take(j as int), hosts@[j as int]);
                            assert((prev + hosts@.take(j as int)).push(hosts@[j as int]) =~= prev + hosts@.take(j + 1));
                            lemma_dedup(prev + hosts@.take(j as int));
                        }
                        filter.insert(hosts[j]);
                        j = j + 1;
                    }
                    proof {
                        assert(hosts@.take(hosts@.len() as int) =~= hosts@);
                    }
                },
                Err(_) => {
                    proof {
                        assert(prev + target_hosts(targets@[i as int]@) =~= prev);
                    }
                },
            }
            i = i + 1;
        }
        proof {
            assert(targets@.take(n as int) =~= targets@);
            lemma_dedup(expansion(targets@));
        }
        filter.into_vec()
    }
}

/// The candidates a discoverer found alive, in order: those whose answer
/// was a definite yes (`Some(true)`); a no or a failed probe (`None`)
/// drops the candidate.
pub open spec fn alive_of(candidates: Seq<IpAddr>, answers: Seq<Option<bool>>) -> Seq<IpAddr>
    decreases candidates.len(),
{
    if candidates.len() == 0 || answers.len() != candidates.len() {
        Seq::empty()
    } else if answers.last() == Some(true) {
        alive_of(candidates.drop_last(), answers.drop_last()).push(candidates.last())
    } else {
        alive_of(candidates.drop_last(), answers.drop_last())
    }
}

/// Runs discovery over a list of candidate IPs.
pub struct DiscoveryRunner;

impl DiscoveryRunner {
    /// Keep the candidates whose liveness probe answered yes, in order.
    pub fn alive_hosts(candidates: &Vec<IpAddr>, answers: &Vec<Option<bool>>) -> (v: Vec<IpAddr>)
        requires
            candidates@.len() == answers@.len(),
        ensures
            v@ == alive_of(candidates@, answers@),
    {
        let mut out: Vec<IpAddr> = Vec::new();
        let mut i: usize = 0;
        while i < candidates.len()
            invariant
                i <= candidates@.len(),
                candidates@.len() == answers@.len(),
                out@ == alive_of(candidates@.take(i as int), answers@.take(i as int)),
            decreases candidates.len() - i,
        {
            proof {
                assert(candidates@.take(i + 1).drop_last() =~= candidates@.take(i as int));
                assert(answers@.take(i + 1).drop_last() =~= answers@.take(i as int));
                assert(answers@.take(i + 1).last() == answers@[i as int]);
                assert(candidates@.take(i + 1).last() == candidates@[i as int]);
            }
            if answers[i] == Some(true) {
                out.push(candidates[i]);
            }
            i = i + 1;
        }
        proof {
            assert(candidates@.take(candidates@.len() as int) =~= candidates@);
            assert(answers@.take(answers@.len() as int) =~= answers@);
        }
        out
    }
}

/// Discovers hosts by attempting a TCP connect to common ports.
pub struct TcpPingDiscoverer {
    /// Ports to try (in order).
    pub probe_ports: Vec<u16>,
    /// Timeout in milliseconds.
    pub timeout_ms: u64,
}

impl TcpPingDiscoverer {
    /// Default ports 80, 443, 22, 8080 and a one-second timeout.
    pub fn standard() -> (d: Self)
        ensures
            d.probe_ports@ == seq![80u16, 443u16, 22u16, 8080u16],
            d.timeout_ms == 1_000,
    {
        let mut ports: Vec<u16> = Vec::new();
        ports.push(80);
        ports.push(443);
        ports.push(22);
        ports.push(8080);
        TcpPingDiscoverer { probe_ports: ports, timeout_ms: 1_000 }
    }

    /// Discovery method this implementation uses.
    pub fn method(&self) -> (m: DiscoveryMethod)
        ensures
            m == DiscoveryMethod::TcpPing,
    {
        DiscoveryMethod::TcpPing
    }
}

} // verus!
