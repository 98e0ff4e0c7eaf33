//! IP addresses and networks as plain numbers.

use vstd::prelude::*;
use vstd::arithmetic::power2::pow2;
use vstd::string::*;

verus! {

/// An IP address: IPv4 as its 32-bit value, IPv6 as its 128-bit value.
#[derive(Debug, Clone, Copy, PartialEq, Eq, Hash, Structural)]
pub enum IpAddr {
    /// IPv4 address.
    V4(u32),
    /// IPv6 address.
    V6(u128),
}

/// What the standard library's address parser makes of a text: an
/// address, or nothing when the text is not one.
pub uninterp spec fn parsed_ip_addr(text: Seq<char>) -> Option<IpAddr>;

/// Parse an IPv4 or IPv6 address (`core::net::IpAddr::from_str`), and
/// convert it to its numeric value (`u32::from` / `u128::from`).
#[verifier::external_body]
fn parse_ip_addr_text(s: &str) -> (r: Option<IpAddr>)
    ensures
        r == parsed_ip_addr(s@),
{
    match s.parse::<core::net::IpAddr>() {
        Ok(core::net::IpAddr::V4(a)) => Some(IpAddr::V4(u32::from(a))),
        Ok(core::net::IpAddr::V6(a)) => Some(IpAddr::V6(u128::from(a))),
        Err(_) => None,
    }
}

/// The text `std` writes for an IPv6 address (RFC 5952 form).
pub uninterp spec fn ipv6_text(value: u128) -> Seq<char>;

/// Render an IPv6 address (`core::net::Ipv6Addr::from` the value, then its
/// `Display`).
#[verifier::external_body]
fn render_ipv6(value: u128) -> (s: String)
    ensures
        s@ == ipv6_text(value),
{
    core::net::Ipv6Addr::from(value).to_string()
}

/// Dotted-quad text of an IPv4 address.
pub open spec fn ipv4_text(x: u32) -> Seq<char> {
    crate::text::decimal((x / 16_777_216) as nat) + seq!['.'] + crate::text::decimal(((x / 65_536) % 256) as nat)
        + seq!['.'] + crate::text::decimal(((x / 256) % 256) as nat) + seq!['.'] + crate::text::decimal((x % 256) as nat)
}

/// Text of an address, as it is displayed.
pub open spec fn ip_text(a: IpAddr) -> Seq<char> {
    match a {
        IpAddr::V4(x) => ipv4_text(x),
        IpAddr::V6(x) => ipv6_text(x),
    }
}

impl IpAddr {
    /// The address as text: dotted decimal for IPv4, the standard form for IPv6.
    pub fn to_text(&self) -> (s: String)
        ensures
            s@ == ip_text(*self),
    {
        match self {
            IpAddr::V4(x) => {
                let mut out = crate::text::u64_to_decimal((*x / 16_777_216) as u64);
                out.append(".");
                let b = crate::text::u64_to_decimal(((*x / 65_536) % 256) as u64);
                out.append(b.as_str());
                out.append(".");
                let c = crate::text::u64_to_decimal(((*x / 256) % 256) as u64);
                out.append(c.as_str());
                out.append(".");
                let d = crate::text::u64_to_decimal((*x % 256) as u64);
                out.append(d.as_str());
                proof {
                    reveal_strlit(".");
                    assert(out@ =~= ip_text(*self));
                }
                out
            },
            IpAddr::V6(x) => render_ipv6(*x),
        }
    }

    /// The IPv4 address `a.b.c.d`.
    pub fn v4(a: u8, b: u8, c: u8, d: u8) -> (r: Self)
        ensures
            r == IpAddr::V4((a * 16_777_216 + b * 65_536 + c * 256 + d) as u32),
    {
        IpAddr::V4((a as u32) * 16_777_216 + (b as u32) * 65_536 + (c as u32) * 256 + (d as u32))
    }

    /// Parse a textual IPv4 or IPv6 address.
    pub fn parse(s: &str) -> (r: Option<Self>)
        ensures
            r == parsed_ip_addr(s@),
    {
        parse_ip_addr_text(s)
    }

    /// True for an IPv4 address.
    pub fn is_ipv4(&self) -> (b: bool)
        ensures
            b == (*self is V4),
    {
        match self {
            IpAddr::V4(_) => true,
            IpAddr::V6(_) => false,
        }
    }
}

/// An IP network: an address and a prefix length.
#[allow(inconsistent_fields)]
#[derive(Debug, Clone, Copy, PartialEq, Eq, Hash, Structural)]
pub enum IpNetwork {
    /// IPv4 network.
    V4 {
        /// Address as written (host bits may be set).
        addr: u32,
        /// Prefix length, at most 32.
        prefix_len: u8,
    },
    /// IPv6 network.
    V6 {
        /// Address as written (host bits may be set).
        addr: u128,
        /// Prefix length, at most 128.
        prefix_len: u8,
    },
}

/// What `ipnet`'s network parser makes of a text (`a.b.c.d/p` or
/// `v6addr/p`): a network, or nothing when the text is not one.
pub uninterp spec fn parsed_ip_net(text: Seq<char>) -> Option<IpNetwork>;

/// Parse CIDR notation (`<ipnet::IpNet as FromStr>::from_str`) and convert
/// the network to plain numbers (`addr()` and `prefix_len()` of the
/// variant, the address through `u32::from` / `u128::from`). Besides naming
/// the result, states what the parser's source shows: a network it returns
/// was built by `Ipv4Net::new` / `Ipv6Net::new`, which refuse a prefix
/// longer than 32 / 128 bits.
#[verifier::external_body]
fn parse_ip_net_text(s: &str) -> (r: Option<IpNetwork>)
    ensures
        r == parsed_ip_net(s@),
        r matches Some(n) ==> n.valid(),
{
    match s.parse::<ipnet::IpNet>() {
        Ok(ipnet::IpNet::V4(n)) => Some(IpNetwork::V4 { addr: u32::from(n.addr()), prefix_len: n.prefix_len() }),
        Ok(ipnet::IpNet::V6(n)) => Some(IpNetwork::V6 { addr: u128::from(n.addr()), prefix_len: n.prefix_len() }),
        Err(_) => None,
    }
}

/// The addresses `lo..=hi` in increasing order (empty when `lo > hi`).
pub open spec fn addr_range(lo: int, hi: int) -> Seq<int> {
    if lo <= hi {
        Seq::new((hi - lo + 1) as nat, |i: int| lo + i)
    } else {
        Seq::empty()
    }
}

impl IpNetwork {
    /// The prefix length fits the address family.
    pub open spec fn valid(self) -> bool {
        match self {
            IpNetwork::V4 { prefix_len, .. } => prefix_len <= 32,
            IpNetwork::V6 { prefix_len, .. } => prefix_len <= 128,
        }
    }

    /// Number of address bits of the family.
    pub open spec fn max_bits(self) -> nat {
        match self {
            IpNetwork::V4 { .. } => 32,
            IpNetwork::V6 { .. } => 128,
        }
    }

    /// The prefix length.
    pub open spec fn prefix(self) -> nat {
        match self {
            IpNetwork::V4 { prefix_len, .. } => prefix_len as nat,
            IpNetwork::V6 { prefix_len, .. } => prefix_len as nat,
        }
    }

    /// The address as written.
    pub open spec fn address(self) -> nat {
        match self {
            IpNetwork::V4 { addr, .. } => addr as nat,
            IpNetwork::V6 { addr, .. } => addr as nat,
        }
    }

    /// Number of addresses in the network: `2^(max_bits - prefix)`.
    pub open spec fn size(self) -> nat {
        pow2((self.max_bits() - self.prefix()) as nat)
    }

    /// The network address: the address with its host bits cleared.
    pub open spec fn network_addr(self) -> int {
        ((self.address() / self.size()) * self.size()) as int
    }

    /// The last address of the network ("broadcast").
    pub open spec fn broadcast_addr(self) -> int {
        self.network_addr() + self.size() - 1
    }

    /// The host addresses, as `ipnet` enumerates them: for IPv4 networks
    /// with a prefix below 31 the network and broadcast addresses are left
    /// out; otherwise (IPv4 /31, /32 and every IPv6 network) all addresses
    /// of the network, in increasing order.
    pub open spec fn host_addrs(self) -> Seq<int> {
        match self {
            IpNetwork::V4 { prefix_len, .. } => if prefix_len < 31 {
                addr_range(self.network_addr() + 1, self.broadcast_addr() - 1)
            } else {
                addr_range(self.network_addr(), self.broadcast_addr())
            },
            IpNetwork::V6 { .. } => addr_range(self.network_addr(), self.broadcast_addr()),
        }
    }

    /// The prefix length.
    pub fn prefix_len(&self) -> (p: u8)
        ensures
            p == self.prefix(),
    {
        match self {
            IpNetwork::V4 { prefix_len, .. } => *prefix_len,
            IpNetwork::V6 { prefix_len, .. } => *prefix_len,
        }
    }

    /// Parse CIDR notation.
    pub fn parse(s: &str) -> (r: Option<Self>)
        ensures
            r == parsed_ip_net(s@),
            r matches Some(n) ==> n.valid(),
    {
        parse_ip_net_text(s)
    }
}

} // verus!
