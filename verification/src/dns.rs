//! DNS resolution: a TTL-aware cache and the forward and reverse resolvers
//! (which answer from the cache only until a resolver library is wired).

use std::sync::Arc;
use std::time::Instant;

use dashmap::DashMap;

use vstd::prelude::*;

use crate::addr::IpAddr;

verus! {

#[verifier::external_type_specification]
#[verifier::external_body]
pub struct ExInstant(std::time::Instant);

/// DNS resolution errors.
#[derive(Debug, Clone, PartialEq, Eq)]
pub enum DnsError {
    /// Hostname could not be resolved.
    ResolutionFailed {
        /// Name looked up.
        hostname: String,
        /// Why it failed.
        reason: String,
    },
    /// PTR record lookup failed.
    ReverseFailed {
        /// Address looked up.
        ip: IpAddr,
        /// Why it failed.
        reason: String,
    },
    /// Resolver not yet initialised.
    NotInitialised,
}

/// Cached DNS entry with expiry.
#[derive(Debug)]
pub struct CacheEntry {
    addrs: Vec<IpAddr>,
    expires_at: u128,
}

/// A reading of the monotonic clock (`Instant::now`). Nothing is stated of
/// it: it is the time.
#[verifier::external_body]
fn clock_origin() -> Instant {
    Instant::now()
}

/// Nanoseconds elapsed since `origin` on the monotonic clock
/// (`Instant::elapsed`, then `Duration::as_nanos`). Nothing is stated of
/// the value: it is the time.
#[verifier::external_body]
fn nanos_since(origin: &Instant) -> u128 {
    origin.elapsed().as_nanos()
}

/// The cached addresses of each name, with the instant (in nanoseconds
/// from the cache's origin) at which the entry expires.
pub uninterp spec fn dns_table(m: DashMap<String, CacheEntry>) -> Map<Seq<char>, (Seq<IpAddr>, u128)>;

/// An empty table (`DashMap::new`).
#[verifier::external_body]
fn dns_table_new() -> (table: DashMap<String, CacheEntry>)
    ensures
        dns_table(table) =~= Map::empty(),
{
    DashMap::new()
}

/// Insert or replace the entry of a name (`DashMap::insert`).
#[verifier::external_body]
fn dns_table_insert(m: &mut DashMap<String, CacheEntry>, key: String, addrs: Vec<IpAddr>, expires_at: u128)
    ensures
        dns_table(*final(m)) == dns_table(*old(m)).insert(key@, (addrs@, expires_at)),
{
    m.insert(key, CacheEntry { addrs, expires_at });
}

/// A copy of the entry of a name (`DashMap::get`, then a clone of the
/// address list, which copies its addresses).
#[verifier::external_body]
fn dns_table_get(m: &DashMap<String, CacheEntry>, key: &str) -> (r: Option<CacheEntry>)
    ensures
        dns_table(*m).contains_key(key@) ==> r is Some,
        r is Some ==> r.unwrap().addrs@ == dns_table(*m)[key@].0 && r.unwrap().expires_at == dns_table(*m)[key@].1,
        !dns_table(*m).contains_key(key@) ==> r is None,
{
    m.get(key).map(|e| CacheEntry { addrs: e.value().addrs.clone(), expires_at: e.value().expires_at })
}

/// The entry is still live at `now`: it expires strictly later.
pub open spec fn live_at(expires_at: u128, now: u128) -> bool {
    expires_at > now
}

/// What a lookup of `name` answers at time `now`: the addresses of a live
/// entry, or nothing.
pub open spec fn cached_at(entries: Map<Seq<char>, (Seq<IpAddr>, u128)>, name: Seq<char>, now: u128) -> Option<Seq<IpAddr>> {
    if entries.contains_key(name) && live_at(entries[name].1, now) {
        Some(entries[name].0)
    } else {
        None
    }
}

/// The addresses of an optional list, as a sequence.
pub open spec fn addrs_view(r: Option<Vec<IpAddr>>) -> Option<Seq<IpAddr>> {
    match r {
        Some(a) => Some(a@),
        None => None,
    }
}

/// The expiry of an entry made at `now`: one TTL later, saturating.
pub open spec fn expiry(now: u128, ttl: u128) -> u128 {
    if now + ttl > u128::MAX { u128::MAX } else { (now + ttl) as u128 }
}

/// `after` holds exactly the entries of `before` still live at `now`.
pub open spec fn evicted_at(
    before: Map<Seq<char>, (Seq<IpAddr>, u128)>,
    after: Map<Seq<char>, (Seq<IpAddr>, u128)>,
    now: u128,
) -> bool {
    &&& forall|k: Seq<char>| #[trigger] after.contains_key(k) <==> (before.contains_key(k) && live_at(before[k].1, now))
    &&& forall|k: Seq<char>| #[trigger] after.contains_key(k) ==> after[k] == before[k]
}

fn is_live(expires_at: u128, now: u128) -> (b: bool)
    ensures
        b == live_at(expires_at, now),
{
    expires_at > now
}

/// Keep only the entries still live at `now` (`DashMap::retain`, with a
/// predicate that calls `is_live` on the entry's expiry).
#[verifier::external_body]
fn dns_table_retain_live(m: &mut DashMap<String, CacheEntry>, now: u128)
    ensures
        dns_table(*final(m)) == dns_table(*old(m)).restrict(
            dns_table(*old(m)).dom().filter(|k: Seq<char>| live_at(dns_table(*old(m))[k].1, now)),
        ),
{
    m.retain(|_, v| is_live(v.expires_at, now));
}

/// TTL-aware DNS cache.
pub struct DnsCache {
    inner: DashMap<String, CacheEntry>,
    origin: Instant,
    ttl_nanos: u128,
    floor_nanos: u128,
}

fn later_of(a: u128, b: u128) -> (r: u128)
    ensures
        r == if a < b { b } else { a },
{
    if a < b { b } else { a }
}

impl DnsCache {
    /// The cached entries: addresses and expiry, by name.
    pub closed spec fn entries(&self) -> Map<Seq<char>, (Seq<IpAddr>, u128)> {
        dns_table(self.inner)
    }

    /// The time to live of new entries, in nanoseconds.
    pub closed spec fn ttl(&self) -> u128 {
        self.ttl_nanos
    }

    /// The latest time (nanoseconds from the cache's origin) at which the
    /// cache has recorded or evicted entries. A lookup by the clock answers
    /// as of a time no earlier than this, so no lookup is answered as of a
    /// time before an insertion already made.
    pub closed spec fn clock_floor(&self) -> u128 {
        self.floor_nanos
    }

    /// Create a cache with the given TTL (in nanoseconds).
    pub fn new(ttl_nanos: u128) -> (c: Self)
        ensures
            c.entries() =~= Map::<Seq<char>, (Seq<IpAddr>, u128)>::empty(),
            c.ttl() == ttl_nanos,
            c.clock_floor() == 0,
    {
        DnsCache { inner: dns_table_new(), origin: clock_origin(), ttl_nanos, floor_nanos: 0 }
    }

    /// Default cache with 300-second TTL.
    pub fn default_ttl() -> (c: Self)
        ensures
            c.entries() =~= Map::<Seq<char>, (Seq<IpAddr>, u128)>::empty(),
            c.ttl() == 300_000_000_000,
            c.clock_floor() == 0,
    {
        Self::new(300_000_000_000)
    }

    /// The cached addresses of a name at time `now`: present and not yet
    /// expired, or nothing.
    pub fn get_at(&self, hostname: &str, now: u128) -> (r: Option<Vec<IpAddr>>)
        ensures
            addrs_view(r) == cached_at(self.entries(), hostname@, now),
            (self.entries().contains_key(hostname@) && live_at(self.entries()[hostname@].1, now))
                ==> (r matches Some(a) && a@ == self.entries()[hostname@].0),
            !(self.entries().contains_key(hostname@) && live_at(self.entries()[hostname@].1, now)) ==> r is None,
    {
        match dns_table_get(&self.inner, hostname) {
            Some(e) => {
                if now < e.expires_at {
                    Some(e.addrs)
                } else {
                    None
                }
            },
            None => None,
        }
    }

    /// Look up a hostname by the clock read during the call (the monotonic
    /// clock, so never before the cache's last recorded time). Returns
    /// `None` if absent or expired.
    pub fn get(&self, hostname: &str) -> (r: Option<Vec<IpAddr>>)
        ensures
            exists|t: u128| t >= self.clock_floor() && addrs_view(r) == #[trigger] cached_at(self.entries(), hostname@, t),
            exists|t: u128| addrs_view(r) == #[trigger] cached_at(self.entries(), hostname@, t),
            !self.entries().contains_key(hostname@) ==> r is None,
            r matches Some(a) ==> a@ == self.entries()[hostname@].0,
    {
        let now = later_of(nanos_since(&self.origin), self.floor_nanos);
        let r = self.get_at(hostname, now);
        proof {
            assert(addrs_view(r) == cached_at(self.entries(), hostname@, now));
        }
        r
    }

    /// Insert (or refresh) a hostname entry at time `now`: it expires one
    /// TTL later (saturating).
    pub fn insert_at(&mut self, hostname: String, addrs: Vec<IpAddr>, now: u128)
        ensures
            final(self).ttl() == old(self).ttl(),
            final(self).entries() == old(self).entries().insert(hostname@, (addrs@, expiry(now, old(self).ttl()))),
            final(self).clock_floor() == if now < old(self).clock_floor() { old(self).clock_floor() } else { now },
    {
        let expires_at = now.saturating_add(self.ttl_nanos);
        dns_table_insert(&mut self.inner, hostname, addrs, expires_at);
        self.floor_nanos = later_of(now, self.floor_nanos);
    }

    /// Insert (or refresh) a hostname entry, by the clock read during the call.
    pub fn insert(&mut self, hostname: String, addrs: Vec<IpAddr>)
        ensures
            final(self).ttl() == old(self).ttl(),
            final(self).clock_floor() >= old(self).clock_floor(),
            final(self).entries()
                == old(self).entries().insert(hostname@, (addrs@, expiry(final(self).clock_floor(), old(self).ttl()))),
            exists|t: u128| final(self).entries()
                == old(self).entries().insert(hostname@, (addrs@, #[trigger] expiry(t, old(self).ttl()))),
            final(self).entries().dom() == old(self).entries().dom().insert(hostname@),
            final(self).entries()[hostname@].0 == addrs@,
            forall|k: Seq<char>| k != hostname@ && #[trigger] old(self).entries().contains_key(k)
                ==> final(self).entries()[k] == old(self).entries()[k],
    {
        let now = later_of(nanos_since(&self.origin), self.floor_nanos);
        let ghost key = hostname@;
        let ghost a = addrs@;
        self.insert_at(hostname, addrs, now);
        proof {
            assert(final(self).entries() == old(self).entries().insert(key, (a, expiry(now, old(self).ttl()))));
            assert(final(self).entries().dom() =~= old(self).entries().dom().insert(hostname@));
        }
    }

    /// Evict the entries expired at time `now`.
    pub fn evict_expired_at(&mut self, now: u128)
        ensures
            final(self).ttl() == old(self).ttl(),
            evicted_at(old(self).entries(), final(self).entries(), now),
            forall|k: Seq<char>| #[trigger] final(self).entries().contains_key(k)
                <==> (old(self).entries().contains_key(k) && live_at(old(self).entries()[k].1, now)),
            forall|k: Seq<char>| #[trigger] final(self).entries().contains_key(k)
                ==> final(self).entries()[k] == old(self).entries()[k],
            final(self).clock_floor() == if now < old(self).clock_floor() { old(self).clock_floor() } else { now },
    {
        dns_table_retain_live(&mut self.inner, now);
        self.floor_nanos = later_of(now, self.floor_nanos);
    }

    /// Evict all expired entries, by the clock read during the call.
    pub fn evict_expired(&mut self)
        ensures
            final(self).ttl() == old(self).ttl(),
            final(self).clock_floor() >= old(self).clock_floor(),
            evicted_at(old(self).entries(), final(self).entries(), final(self).clock_floor()),
            exists|t: u128| #[trigger] evicted_at(old(self).entries(), final(self).entries(), t),
            forall|k: Seq<char>| #[trigger] final(self).entries().contains_key(k)
                ==> old(self).entries().contains_key(k) && final(self).entries()[k] == old(self).entries()[k],
    {
        let now = later_of(nanos_since(&self.origin), self.floor_nanos);
        self.evict_expired_at(now);
        proof {
            assert(evicted_at(old(self).entries(), final(self).entries(), now));
        }
    }
}

/// An entry inserted at time `now` is what a lookup of its name answers
/// until one TTL has passed, and a lookup answers nothing from then on
/// (when the expiry did not saturate).
pub proof fn law_insert_then_get(
    before: Map<Seq<char>, (Seq<IpAddr>, u128)>,
    name: Seq<char>,
    addrs: Seq<IpAddr>,
    now: u128,
    ttl: u128,
    later: u128,
)
    ensures
        later < now + ttl && later < u128::MAX
            ==> cached_at(before.insert(name, (addrs, expiry(now, ttl))), name, later) == Some(addrs),
        now + ttl <= later ==> cached_at(before.insert(name, (addrs, expiry(now, ttl))), name, later) is None,
{
}

/// An entry recorded at time `t0` with the cache's TTL is served, by any
/// lookup answered as of a time `t` no earlier than `t0`, exactly while
/// less than one TTL has passed; once the TTL has passed it is never
/// served again. (`insert` records its entry at the cache's clock floor,
/// and `get` answers as of a time no earlier than that floor.)
pub proof fn law_served_for_one_ttl(c: DnsCache, name: Seq<char>, addrs: Seq<IpAddr>, t0: u128, t: u128)
    requires
        c.entries().contains_key(name),
        c.entries()[name] == (addrs, expiry(t0, c.ttl())),
        t0 + c.ttl() <= u128::MAX,
        t0 <= t,
    ensures
        t < t0 + c.ttl() ==> cached_at(c.entries(), name, t) == Some(addrs),
        t >= t0 + c.ttl() ==> cached_at(c.entries(), name, t) is None,
{
}

/// Forward DNS resolver answering from its cache.
pub struct DnsResolver {
    cache: Arc<DnsCache>,
}

impl DnsResolver {
    /// The cache the resolver answers from.
    pub closed spec fn cache(&self) -> DnsCache {
        *self.cache
    }

    /// Create a new resolver with the given cache.
    pub fn new(cache: Arc<DnsCache>) -> (r: Self)
        ensures
            r.cache() == *cache,
    {
        DnsResolver { cache }
    }

    /// Create a resolver with default cache settings.
    pub fn with_default_cache() -> (r: Self)
        ensures
            r.cache().entries() =~= Map::<Seq<char>, (Seq<IpAddr>, u128)>::empty(),
    {
        Self::new(Arc::new(DnsCache::default_ttl()))
    }

    /// Resolve a hostname: the cached addresses when the cache holds a live
    /// entry, otherwise no addresses (no resolver library is wired yet).
    pub fn resolve(&self, hostname: &str) -> (r: Result<Vec<IpAddr>, DnsError>)
        ensures
            r matches Ok(a) && exists|t: u128| t >= self.cache().clock_floor()
                && a@ == match #[trigger] cached_at(self.cache().entries(), hostname@, t) {
                Some(c) => c,
                None => Seq::empty(),
            },
            r matches Ok(a) && exists|t: u128| a@ == match #[trigger] cached_at(self.cache().entries(), hostname@, t) {
                Some(c) => c,
                None => Seq::empty(),
            },
            r matches Ok(a) && (a@.len() == 0 || (self.cache().entries().contains_key(hostname@)
                && a@ == self.cache().entries()[hostname@].0)),
            !self.cache().entries().contains_key(hostname@) ==> (r matches Ok(a) && a@.len() == 0),
    {
        let found = self.cache.get(hostname);
        let ghost t = choose|t: u128| t >= self.cache().clock_floor()
            && addrs_view(found) == cached_at(self.cache().entries(), hostname@, t);
        match found {
            Some(cached) => Ok(cached),
            None => {
                let a: Vec<IpAddr> = Vec::new();
                proof {
                    assert(a@ =~= Seq::<IpAddr>::empty());
                    assert(cached_at(self.cache().entries(), hostname@, t) is None);
                }
                Ok(a)
            },
        }
    }
}

/// Reverse DNS (PTR) resolver.
pub struct ReverseDnsResolver {
    cache: Arc<DnsCache>,
}

impl ReverseDnsResolver {
    /// The cache the resolver holds.
    pub closed spec fn cache(&self) -> DnsCache {
        *self.cache
    }

    /// Create with the given cache.
    pub fn new(cache: Arc<DnsCache>) -> (r: Self)
        ensures
            r.cache() == *cache,
    {
        ReverseDnsResolver { cache }
    }

    /// Look up the PTR record for an IP address: no record is known until a
    /// resolver library is wired.
    pub fn resolve_ptr(&self, ip: IpAddr) -> (r: Result<Option<String>, DnsError>)
        ensures
            r == Ok::<Option<String>, DnsError>(None),
    {
        Ok(None)
    }
}

} // verus!
