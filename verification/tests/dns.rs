use std::sync::Arc;
use std::time::{Duration, Instant};

use aloo::addr::IpAddr;
use aloo::dns::{DnsCache, DnsResolver, ReverseDnsResolver};

#[test]
fn cache_insert_and_get() {
    let mut cache = DnsCache::default_ttl();
    let addrs = vec![IpAddr::v4(1, 1, 1, 1)];
    cache.insert("cloudflare.com".to_string(), addrs.clone());
    assert_eq!(cache.get("cloudflare.com"), Some(addrs));
}

#[test]
fn cache_miss_returns_none() {
    let cache = DnsCache::default_ttl();
    assert!(cache.get("nonexistent.example").is_none());
}

#[test]
fn cache_expired_returns_none() {
    let mut cache = DnsCache::new(Duration::from_millis(1).as_nanos());
    cache.insert("fast.expire".to_string(), vec![]);
    let start = Instant::now();
    while start.elapsed() < Duration::from_millis(10) {}
    assert!(cache.get("fast.expire").is_none());
}

#[test]
fn resolver_returns_empty_stub() {
    let r = DnsResolver::with_default_cache();
    let addrs = r.resolve("example.com").unwrap();
    assert!(addrs.is_empty());
}

#[test]
fn reverse_resolver_returns_none_stub() {
    let cache = Arc::new(DnsCache::default_ttl());
    let r = ReverseDnsResolver::new(cache);
    let result = r.resolve_ptr(IpAddr::parse("8.8.8.8").unwrap()).unwrap();
    assert!(result.is_none());
}

// ── further cases ─────────────────────────────────────────────────────────────

#[test]
fn explicit_times_decide_liveness() {
    let mut cache = DnsCache::new(100);
    cache.insert_at("a".to_string(), vec![IpAddr::V4(7)], 1_000);
    assert_eq!(cache.get_at("a", 1_099), Some(vec![IpAddr::V4(7)]));
    assert_eq!(cache.get_at("a", 1_100), None);
    cache.evict_expired_at(1_100);
    assert_eq!(cache.get_at("a", 0), None);
}

#[test]
fn resolver_answers_from_cache() {
    let mut cache = DnsCache::default_ttl();
    cache.insert("host".to_string(), vec![IpAddr::v4(10, 1, 1, 1)]);
    let r = DnsResolver::new(Arc::new(cache));
    assert_eq!(r.resolve("host").unwrap(), vec![IpAddr::v4(10, 1, 1, 1)]);
}
