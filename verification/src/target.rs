//! Scan targets: CIDR networks or single addresses, and their hosts.

use vstd::prelude::*;
use vstd::string::*;
use vstd::arithmetic::power2::{pow2, lemma_pow2_unfold, lemma_pow2_pos, lemma_pow2_adds};

use crate::addr::{IpAddr, IpNetwork, parsed_ip_addr, parsed_ip_net, addr_range};
use crate::error::AlooError;

verus! {

/// The error text for a string that is neither an address nor a network.
pub open spec fn invalid_target_message(text: Seq<char>) -> Seq<char> {
    "'"@ + text + "' is not a valid IP address or CIDR notation"@
}

/// The hosts of a network as addresses of its family.
pub open spec fn host_list(n: IpNetwork) -> Seq<IpAddr> {
    let a = n.host_addrs();
    match n {
        IpNetwork::V4 { .. } => Seq::new(a.len(), |i: int| IpAddr::V4(a[i] as u32)),
        IpNetwork::V6 { .. } => Seq::new(a.len(), |i: int| IpAddr::V6(a[i] as u128)),
    }
}

/// The network that a single address stands for: /32 or /128.
pub open spec fn single_host_network(a: IpAddr) -> IpNetwork {
    match a {
        IpAddr::V4(x) => IpNetwork::V4 { addr: x, prefix_len: 32 },
        IpAddr::V6(x) => IpNetwork::V6 { addr: x, prefix_len: 128 },
    }
}

/// What a target text parses to, given what the network parser and the
/// address parser made of it.
pub open spec fn target_network(net: Option<IpNetwork>, addr: Option<IpAddr>) -> Option<IpNetwork> {
    match net {
        Some(n) => Some(n),
        None => match addr {
            Some(a) => Some(single_host_network(a)),
            None => None,
        },
    }
}

/// A `2^k` that fits in 128 bits.
pub fn pow2_u128(k: u32) -> (r: u128)
    requires
        k < 128,
    ensures
        r == pow2(k as nat),
{
    let mut r: u128 = 1;
    let mut i: u32 = 0;
    proof {
        lemma_pow2_values();
    }
    while i < k
        invariant
            i <= k < 128,
            r == pow2(i as nat),
        decreases k - i,
    {
        proof {
            lemma_pow2_unfold((i + 1) as nat);
            lemma_pow2_adds((i + 1) as nat, (126 - i) as nat);
            lemma_pow2_pos((126 - i) as nat);
            lemma_pow2_values();
            assert(pow2((i + 1) as nat) <= pow2(127)) by (nonlinear_arith)
                requires
                    pow2((i + 1) as nat) * pow2((126 - i) as nat) == pow2(127),
                    pow2((126 - i) as nat) > 0,
            ;
        }
        r = r * 2;
        i = i + 1;
    }
    r
}

/// The powers of two that address arithmetic relies on.
pub proof fn lemma_pow2_values()
    ensures
        pow2(0) == 1,
        pow2(2) == 4,
        pow2(32) == 0x1_0000_0000,
        pow2(64) == 0x1_0000_0000_0000_0000,
        pow2(127) == 0x8000_0000_0000_0000_0000_0000_0000_0000,
        pow2(128) == 0x1_0000_0000_0000_0000_0000_0000_0000_0000,
{
    vstd::arithmetic::power2::lemma2_to64();
    lemma_pow2_adds(32, 31);
    lemma_pow2_adds(64, 63);
    lemma_pow2_adds(64, 64);
}

proof fn lemma_block_fits(addr: int, size: int, m: int)
    requires
        size > 0,
        0 <= addr < size * m,
    ensures
        0 <= (addr / size) * size <= addr,
        (addr / size) * size + size <= size * m,
{
    let q = addr / size;
    let r = addr % size;
    vstd::arithmetic::div_mod::lemma_fundamental_div_mod(addr, size);
    vstd::arithmetic::div_mod::lemma_mod_bound(addr, size);
    vstd::arithmetic::div_mod::lemma_div_pos_is_pos(addr, size);
    assert(q * size + size <= size * m) by (nonlinear_arith)
        requires
            addr == size * q + r,
            0 <= r < size,
            addr < size * m,
            q >= 0,
            size > 0,
    ;
    assert(q * size <= addr) by (nonlinear_arith)
        requires
            addr == size * q + r,
            0 <= r,
    ;
    assert(q * size >= 0) by (nonlinear_arith)
        requires
            q >= 0,
            size > 0,
    ;
}

/// A parsed scan target (CIDR or single IP).
#[derive(Debug, Clone, Copy, PartialEq, Eq, Structural)]
pub struct ScanTarget {
    /// The network (single IPs are /32 or /128).
    pub network: IpNetwork,
}

impl ScanTarget {
    /// Decide the target from what the two parsers made of `s`: a network
    /// when the text was one; else the /32 or /128 network of the address;
    /// else the error text naming `s`.
    pub fn from_parsed(s: &str, net: Option<IpNetwork>, addr: Option<IpAddr>) -> (r: Result<Self, String>)
        ensures
            target_network(net, addr) matches Some(n) ==> r == Ok::<ScanTarget, String>(ScanTarget { network: n }),
            target_network(net, addr) is None ==> (r matches Err(m) && m@ == invalid_target_message(s@)),
    {
        if let Some(n) = net {
            return Ok(ScanTarget { network: n });
        }
        if let Some(a) = addr {
            let n = match a {
                IpAddr::V4(x) => IpNetwork::V4 { addr: x, prefix_len: 32 },
                IpAddr::V6(x) => IpNetwork::V6 { addr: x, prefix_len: 128 },
            };
            return Ok(ScanTarget { network: n });
        }
        let mut m = String::from_str("'");
        m.append(s);
        m.append("' is not a valid IP address or CIDR notation");
        Err(m)
    }

    /// Parse a target string: CIDR notation or plain IP.
    pub fn parse(s: &str) -> (r: Result<Self, String>)
        ensures
            target_network(parsed_ip_net(s@), parsed_ip_addr(s@)) matches Some(n)
                ==> r == Ok::<ScanTarget, String>(ScanTarget { network: n }),
            target_network(parsed_ip_net(s@), parsed_ip_addr(s@)) is None
                ==> (r matches Err(m) && m@ == invalid_target_message(s@)),
            r matches Ok(t) ==> t.network.valid(),
    {
        let net = IpNetwork::parse(s);
        if net.is_some() {
            return Self::from_parsed(s, net, None);
        }
        let addr = IpAddr::parse(s);
        Self::from_parsed(s, net, addr)
    }

    /// Number of host addresses in this target (2^(max_bits - prefix)).
    pub fn host_count(&self) -> (n: u128)
        requires
            self.network.valid(),
            !(self.network matches IpNetwork::V6 { prefix_len, .. } && prefix_len == 0),
        ensures
            n == self.network.size(),
    {
        match self.network {
            IpNetwork::V4 { prefix_len, .. } => pow2_u128(32 - prefix_len as u32),
            IpNetwork::V6 { prefix_len, .. } => pow2_u128(128 - prefix_len as u32),
        }
    }

    /// All host addresses in this target, in increasing order.
    pub fn hosts(&self) -> (v: Vec<IpAddr>)
        requires
            self.network.valid(),
        ensures
            v@ == host_list(self.network),
    {
        let n = self.network;
        let ghost size = n.size();
        let (lo, hi): (u128, u128) = match n {
            IpNetwork::V4 { addr, prefix_len } => {
                let size: u128 = pow2_u128(32 - prefix_len as u32);
                proof {
                    lemma_pow2_adds((32 - prefix_len) as nat, prefix_len as nat);
                    lemma_pow2_values();
                    lemma_pow2_pos(prefix_len as nat);
                    lemma_block_fits(addr as int, size as int, pow2(prefix_len as nat) as int);
                }
                let net: u128 = (addr as u128 / size) * size;
                let bcast: u128 = net + size - 1;
                if prefix_len < 31 {
                    proof {
                        lemma_pow2_adds(2, (30 - prefix_len) as nat);
                        lemma_pow2_pos((30 - prefix_len) as nat);
                        lemma_pow2_values();
                    }
                    (net + 1, bcast - 1)
                } else {
                    (net, bcast)
                }
            },
            IpNetwork::V6 { addr, prefix_len } => {
                if prefix_len == 0 {
                    proof {
                        lemma_pow2_values();
                        assert(addr as int / pow2(128) as int == 0) by (nonlinear_arith)
                            requires 0 <= addr < pow2(128);
                        assert(n.size() == pow2(128));
                        assert(n.network_addr() == 0);
                        assert(n.broadcast_addr() == 0xffff_ffff_ffff_ffff_ffff_ffff_ffff_ffff);
                    }
                    (0, 0xffff_ffff_ffff_ffff_ffff_ffff_ffff_ffff)
                } else {
                    let size: u128 = pow2_u128(128 - prefix_len as u32);
                    proof {
                        lemma_pow2_adds((128 - prefix_len) as nat, prefix_len as nat);
                        lemma_pow2_values();
                        lemma_pow2_pos(prefix_len as nat);
                        lemma_block_fits(addr as int, size as int, pow2(prefix_len as nat) as int);
                    }
                    let net: u128 = (addr / size) * size;
                    let bcast: u128 = net + (size - 1);
                    (net, bcast)
                }
            },
        };
        proof {
            assert(n.host_addrs() =~= addr_range(lo as int, hi as int));
            assert(lo <= hi);
            if n is V4 {
                lemma_pow2_values();
                assert(hi < 0x1_0000_0000);
            }
        }
        let mut out: Vec<IpAddr> = Vec::new();
        let mut a: u128 = lo;
        loop
            invariant_except_break
                lo <= a <= hi,
                n.host_addrs() =~= addr_range(lo as int, hi as int),
                n is V4 ==> hi < 0x1_0000_0000,
                out@ =~= host_list(n).take((a - lo) as int),
            ensures
                out@ =~= host_list(n),
            decreases hi - a,
        {
            let ip = match n {
                IpNetwork::V4 { .. } => IpAddr::V4(a as u32),
                IpNetwork::V6 { .. } => IpAddr::V6(a),
            };
            out.push(ip);
            if a == hi {
                proof {
                    assert(host_list(n).take((a - lo + 1) as int) =~= host_list(n));
                }
                break;
            }
            a = a + 1;
        }
        out
    }
}

/// Whether host enumeration leaves out the network and broadcast
/// addresses: IPv4 networks with a prefix below 31.
pub open spec fn drops_ends(n: IpNetwork) -> bool {
    match n {
        IpNetwork::V4 { prefix_len, .. } => prefix_len < 31,
        IpNetwork::V6 { .. } => false,
    }
}

/// The hosts of a target are as many as its host count says, less the
/// network and broadcast addresses for IPv4 networks below /31.
pub proof fn law_hosts_against_count(t: ScanTarget)
    requires
        t.network.valid(),
    ensures
        drops_ends(t.network) ==> host_list(t.network).len() == t.network.size() - 2,
        !drops_ends(t.network) ==> host_list(t.network).len() == t.network.size(),
{
    let n = t.network;
    let k = (n.max_bits() - n.prefix()) as nat;
    lemma_pow2_pos(k);
    if drops_ends(n) {
        lemma_pow2_adds(2, (k - 2) as nat);
        lemma_pow2_pos((k - 2) as nat);
        lemma_pow2_values();
        assert(pow2(k) >= 4) by (nonlinear_arith)
            requires
                pow2(2) * pow2((k - 2) as nat) == pow2(k),
                pow2(2) == 4,
                pow2((k - 2) as nat) > 0,
        ;
    }
}

/// A parsed and validated scan target.
#[derive(Debug, Clone, Copy)]
pub struct TargetSpec {
    /// Underlying scan target.
    pub inner: ScanTarget,
}

impl TargetSpec {
    /// Parse a string (CIDR notation or single IP); the error is a
    /// configuration error carrying the parser's message.
    pub fn parse(s: &str) -> (r: Result<Self, AlooError>)
        ensures
            target_network(parsed_ip_net(s@), parsed_ip_addr(s@)) matches Some(n)
                ==> (r matches Ok(t) && t.inner == (ScanTarget { network: n })),
            target_network(parsed_ip_net(s@), parsed_ip_addr(s@)) is None
                ==> (r matches Err(AlooError::Config(m)) && m@ == invalid_target_message(s@)),
            r matches Ok(t) ==> t.inner.network.valid(),
    {
        match ScanTarget::parse(s) {
            Ok(inner) => Ok(TargetSpec { inner }),
            Err(m) => Err(AlooError::Config(m)),
        }
    }

    /// Expand to all host addresses in this target.
    pub fn hosts(&self) -> (v: Vec<IpAddr>)
        requires
            self.inner.network.valid(),
        ensures
            v@ == host_list(self.inner.network),
    {
        self.inner.hosts()
    }

    /// Total number of host addresses.
    pub fn host_count(&self) -> (n: u128)
        requires
            self.inner.network.valid(),
            !(self.inner.network matches IpNetwork::V6 { prefix_len, .. } && prefix_len == 0),
        ensures
            n == self.inner.network.size(),
    {
        self.inner.host_count()
    }
}

} // verus!
