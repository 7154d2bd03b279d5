//! Cache semantics: round trip with expiry, wholesale replacement, prefix
//! invalidation, and counters.

use leaderboard::cache::LeaderboardCache;
use leaderboard::entry::LeaderboardEntry;
use leaderboard::keys::cache_key;
use leaderboard::shape::{QueryShape, SortBy, SortOrder};

fn entry(rank: u64, wallet: &str, roi: &str) -> LeaderboardEntry {
    LeaderboardEntry {
        rank,
        trader_wallet: String::from(wallet),
        account_value: String::from("1000.00"),
        pnl: String::from("250.50"),
        roi: String::from(roi),
        volume: String::from("100000"),
        last_updated: 1_700_000_000,
    }
}

#[test]
fn round_trip_returns_equal_payload_until_ttl_elapses() {
    let mut cache = LeaderboardCache::new();
    let payload = vec![entry(1, "0xabc", "12.5"), entry(2, "0xdef", "7.25")];
    cache.cache_leaderboard("leaderboard:10:0:roi:desc", &payload, 10, 1000);

    let hit = cache.get_cached_leaderboard("leaderboard:10:0:roi:desc", 1000).unwrap();
    assert_eq!(hit.len(), 2);
    assert_eq!(hit[0].rank, 1);
    assert_eq!(hit[0].trader_wallet, "0xabc");
    assert_eq!(hit[0].roi, "12.5");
    assert_eq!(hit[1].rank, 2);
    assert_eq!(hit[1].trader_wallet, "0xdef");

    let late_hit = cache.get_cached_leaderboard("leaderboard:10:0:roi:desc", 1009);
    assert!(late_hit.is_some());

    let miss = cache.get_cached_leaderboard("leaderboard:10:0:roi:desc", 1010);
    assert!(miss.is_none());
    let much_later = cache.get_cached_leaderboard("leaderboard:10:0:roi:desc", 5000);
    assert!(much_later.is_none());
}

#[test]
fn empty_cache_misses() {
    let cache = LeaderboardCache::new();
    assert!(cache.get_cached_leaderboard("leaderboard:10:0:roi:desc", 0).is_none());
}

#[test]
fn set_replaces_wholesale() {
    let mut cache = LeaderboardCache::new();
    let first = vec![entry(1, "0xold", "1.0")];
    let second = vec![entry(1, "0xnew", "2.0"), entry(2, "0xalso", "1.5")];
    cache.cache_leaderboard("k", &first, 30, 100);
    cache.cache_leaderboard("k", &second, 30, 105);
    let got = cache.get_cached_leaderboard("k", 110).unwrap();
    assert_eq!(got.len(), 2);
    assert_eq!(got[0].trader_wallet, "0xnew");
}

#[test]
fn invalidate_pattern_removes_prefix_and_spares_the_rest() {
    let mut cache = LeaderboardCache::new();
    let p = vec![entry(1, "0xabc", "3.0")];
    cache.cache_leaderboard("leaderboard:10:0:roi:desc", &p, 30, 100);
    cache.cache_leaderboard("leaderboard:10:10:roi:desc", &p, 30, 100);
    cache.cache_leaderboard("trader:0xabc", &p, 30, 100);

    cache.clear_pattern("leaderboard:");

    assert!(cache.get_cached_leaderboard("leaderboard:10:0:roi:desc", 101).is_none());
    assert!(cache.get_cached_leaderboard("leaderboard:10:10:roi:desc", 101).is_none());
    assert!(cache.get_cached_leaderboard("trader:0xabc", 101).is_some());
}

#[test]
fn invalidate_with_no_matches_is_a_no_op() {
    let mut cache = LeaderboardCache::new();
    let p = vec![entry(1, "0xabc", "3.0")];
    cache.cache_leaderboard("trader:0xabc", &p, 30, 100);
    cache.clear_pattern("leaderboard:");
    assert!(cache.get_cached_leaderboard("trader:0xabc", 101).is_some());

    let mut empty = LeaderboardCache::new();
    empty.clear_pattern("leaderboard:");
    assert!(empty.get_cached_leaderboard("leaderboard:10:0:roi:desc", 0).is_none());
}

#[test]
fn counters_increment_independently_of_pages() {
    let mut cache = LeaderboardCache::new();
    assert_eq!(cache.increment_counter("requests"), 1);
    assert_eq!(cache.increment_counter("requests"), 2);
    assert_eq!(cache.increment_counter("requests"), 3);
    assert_eq!(cache.increment_counter("errors"), 1);
    assert!(cache.get_cached_leaderboard("requests", 0).is_none());
}

#[test]
fn cache_keys_are_stable_and_distinct() {
    let a = QueryShape { limit: 10, offset: 0, sort_by: SortBy::Pnl, sort_order: SortOrder::Desc };
    let key = cache_key(&a);
    assert_eq!(key, "leaderboard:10:0:pnl:desc");

    let b = QueryShape { limit: 10, offset: 10, sort_by: SortBy::Pnl, sort_order: SortOrder::Desc };
    let c = QueryShape { limit: 10, offset: 0, sort_by: SortBy::Roi, sort_order: SortOrder::Desc };
    let d = QueryShape { limit: 10, offset: 0, sort_by: SortBy::Pnl, sort_order: SortOrder::Asc };
    let e = QueryShape { limit: 1, offset: 0, sort_by: SortBy::Pnl, sort_order: SortOrder::Desc };
    assert_eq!(cache_key(&b), "leaderboard:10:10:pnl:desc");
    assert_eq!(cache_key(&c), "leaderboard:10:0:roi:desc");
    assert_eq!(cache_key(&d), "leaderboard:10:0:pnl:asc");
    assert_eq!(cache_key(&e), "leaderboard:1:0:pnl:desc");
    assert_ne!(cache_key(&a), cache_key(&b));
    assert_ne!(cache_key(&a), cache_key(&c));
    assert_ne!(cache_key(&a), cache_key(&d));
    assert_ne!(cache_key(&a), cache_key(&e));
}

#[test]
fn decimal_rendering_matches() {
    assert_eq!(leaderboard::text::dec_u64(0), "0");
    assert_eq!(leaderboard::text::dec_u64(7), "7");
    assert_eq!(leaderboard::text::dec_u64(10), "10");
    assert_eq!(leaderboard::text::dec_u64(12345), "12345");
    assert_eq!(leaderboard::text::dec_u64(u64::MAX), "18446744073709551615");
}
