use tickpulse::cache::memory::{cache_key, KlineMemoryCache, MEMORY_CACHE_SIZE};
use tickpulse::cache::CachedKline;

fn kline(secid: &str, data: &str, cached_at: i64, ttl: i64) -> CachedKline {
    CachedKline {
        secid: secid.to_string(),
        period: "day".to_string(),
        adjust: "qfq".to_string(),
        data: data.to_string(),
        cached_at,
        ttl,
    }
}

#[test]
fn memory_key_format() {
    assert_eq!(cache_key("1.600519", "day", "qfq"), "1.600519:day:qfq");
    assert_eq!(cache_key("", "", ""), "::");
}

#[test]
fn memory_store_then_lookup_fresh() {
    let mut c = KlineMemoryCache::new();
    c.store(kline("1.600519", "[1,2,3]", 1000, 60));
    let got = c.lookup("1.600519", "day", "qfq", 1059).expect("fresh entry");
    assert_eq!(got.data, "[1,2,3]");
    assert_eq!(got.cached_at, 1000);
    // still there for a second lookup
    assert!(c.lookup("1.600519", "day", "qfq", 1030).is_some());
}

#[test]
fn memory_lookup_expired_is_dropped() {
    let mut c = KlineMemoryCache::new();
    c.store(kline("0.000001", "x", 1000, 60));
    // exactly ttl seconds later the entry has expired
    assert!(c.lookup("0.000001", "day", "qfq", 1060).is_none());
    // and it was removed: an earlier time finds nothing either
    assert!(c.lookup("0.000001", "day", "qfq", 1001).is_none());
}

#[test]
fn memory_lookup_other_key_misses() {
    let mut c = KlineMemoryCache::new();
    c.store(kline("0.000001", "x", 1000, 60));
    assert!(c.lookup("0.000001", "week", "qfq", 1001).is_none());
    assert!(c.lookup("0.000002", "day", "qfq", 1001).is_none());
}

#[test]
fn memory_store_replaces_same_key() {
    let mut c = KlineMemoryCache::new();
    c.store(kline("1.600000", "old", 1000, 600));
    c.store(kline("1.600000", "new", 1100, 600));
    assert_eq!(c.lookup("1.600000", "day", "qfq", 1200).unwrap().data, "new");
}

#[test]
fn memory_evicts_least_recently_used() {
    let mut c = KlineMemoryCache::new();
    for i in 0..MEMORY_CACHE_SIZE {
        c.store(kline(&format!("s{}", i), "d", 0, 1000));
    }
    // use s0 so that s1 becomes the least recently used
    assert!(c.lookup("s0", "day", "qfq", 1).is_some());
    c.store(kline("extra", "d", 0, 1000));
    assert!(c.lookup("s1", "day", "qfq", 1).is_none());
    assert!(c.lookup("s0", "day", "qfq", 1).is_some());
    assert!(c.lookup("extra", "day", "qfq", 1).is_some());
    assert!(c.lookup("s2", "day", "qfq", 1).is_some());
}
