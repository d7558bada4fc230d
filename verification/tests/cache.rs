use std::time::{Duration, Instant};

use cargo_status::cache::{cached_tool, has_tool_cached, remember_tool, Cache};

/// Lets the given time pass.
fn wait(time: Duration) {
    let start = Instant::now();
    while start.elapsed() < time {
        std::hint::spin_loop();
    }
}

#[test]
fn test_cache_basic() {
    let mut cache: Cache<String> = Cache::new(1);

    cache.insert("key1".to_string(), "value1".to_string());
    assert_eq!(cache.get("key1"), Some("value1".to_string()));
    assert_eq!(cache.get("key2"), None);
}

#[test]
fn test_cache_clear() {
    let mut cache: Cache<String> = Cache::new(60);

    cache.insert("key1".to_string(), "value1".to_string());
    cache.insert("key2".to_string(), "value2".to_string());

    cache.clear();

    assert_eq!(cache.get("key1"), None);
    assert_eq!(cache.get("key2"), None);
}

#[test]
fn test_cache_expiration() {
    let mut cache: Cache<i32> = Cache::new(1);

    cache.insert("key".to_string(), 42);
    assert_eq!(cache.get("key"), Some(42));

    wait(Duration::from_secs(2));
    assert_eq!(cache.get("key"), None);
}

#[test]
fn test_cache_prune() {
    let mut cache: Cache<i32> = Cache::new(1);

    cache.insert("key1".to_string(), 1);
    wait(Duration::from_millis(500));
    cache.insert("key2".to_string(), 2);

    wait(Duration::from_millis(600));

    cache.prune();

    assert_eq!(cache.get("key1"), None); // Should be pruned
    assert_eq!(cache.get("key2"), Some(2)); // Should still exist
}

const SECOND: u128 = 1_000_000_000;

#[test]
fn cache_entry_expires_after_ttl() {
    let mut cache: Cache<i32> = Cache::new(1);

    cache.insert_at("key".to_string(), 42, 0);
    assert_eq!(cache.get_at("key", 0), Some(42));
    assert_eq!(cache.get_at("key", SECOND - 1), Some(42));

    assert_eq!(cache.get_at("key", 2 * SECOND), None);
    // The expired entry is gone, so an earlier time does not find it either.
    assert_eq!(cache.get_at("key", 0), None);
}

#[test]
fn cache_entry_expires_exactly_at_ttl() {
    let mut cache: Cache<i32> = Cache::new(1);
    cache.insert_at("key".to_string(), 7, 5);
    assert_eq!(cache.get_at("key", 5 + SECOND - 1), Some(7));
    assert_eq!(cache.get_at("key", 5 + SECOND), None);
}

#[test]
fn cache_prune_removes_only_expired() {
    let mut cache: Cache<i32> = Cache::new(1);

    cache.insert_at("key1".to_string(), 1, 0);
    cache.insert_at("key2".to_string(), 2, SECOND / 2);

    cache.prune_at(SECOND + SECOND / 10);

    // Looked up at a time at which both would still be live, had they stayed.
    assert_eq!(cache.get_at("key1", SECOND / 2), None);
    assert_eq!(cache.get_at("key2", SECOND / 2), Some(2));
}

#[test]
fn cache_prune_keeps_everything_live() {
    let mut cache: Cache<i32> = Cache::new(10);
    cache.insert_at("a".to_string(), 1, 0);
    cache.insert_at("b".to_string(), 2, 1);
    cache.insert_at("c".to_string(), 3, 2);
    cache.prune_at(3);
    assert_eq!(cache.get_at("a", 3), Some(1));
    assert_eq!(cache.get_at("b", 3), Some(2));
    assert_eq!(cache.get_at("c", 3), Some(3));
}

#[test]
fn cache_prune_removes_several() {
    let mut cache: Cache<i32> = Cache::new(1);
    cache.insert_at("a".to_string(), 1, 0);
    cache.insert_at("b".to_string(), 2, 5 * SECOND);
    cache.insert_at("c".to_string(), 3, 1);
    cache.insert_at("d".to_string(), 4, 5 * SECOND);
    cache.prune_at(5 * SECOND);
    assert_eq!(cache.get_at("a", 0), None);
    assert_eq!(cache.get_at("b", 5 * SECOND), Some(2));
    assert_eq!(cache.get_at("c", 1), None);
    assert_eq!(cache.get_at("d", 5 * SECOND), Some(4));
}

#[test]
fn cache_insert_overwrites() {
    let mut cache: Cache<i32> = Cache::new(1);
    cache.insert_at("key".to_string(), 1, 0);
    cache.insert_at("key".to_string(), 2, SECOND);
    // The second insertion renewed the timestamp.
    assert_eq!(cache.get_at("key", SECOND + 1), Some(2));
}

#[test]
fn cache_with_zero_ttl_never_answers() {
    let mut cache: Cache<i32> = Cache::new(0);
    cache.insert_at("key".to_string(), 1, 10);
    assert_eq!(cache.get_at("key", 10), None);
}

#[test]
fn cache_time_before_timestamp_counts_as_no_age() {
    let mut cache: Cache<i32> = Cache::new(1);
    cache.insert_at("key".to_string(), 1, 100 * SECOND);
    assert_eq!(cache.get_at("key", 0), Some(1));
}

#[test]
fn cache_clock_moves_forward() {
    let cache: Cache<i32> = Cache::new(1);
    let first = cache.now();
    let second = cache.now();
    assert!(second >= first);
}

#[test]
fn cache_prune_with_clock_keeps_fresh_entries() {
    let mut cache: Cache<i32> = Cache::new(3600);
    cache.insert("key".to_string(), 9);
    cache.prune();
    assert_eq!(cache.get("key"), Some(9));
}

#[test]
fn tool_answer_is_cached() {
    let mut cache: Cache<bool> = Cache::new(300);
    let mut calls = 0;
    let first = has_tool_cached(&mut cache, "clippy", || {
        calls += 1;
        true
    });
    assert!(first);
    let second = has_tool_cached(&mut cache, "clippy", || {
        calls += 1;
        false
    });
    // The live entry answers; the second probe is not asked.
    assert!(second);
    assert_eq!(calls, 1);
}

#[test]
fn tool_answers_are_kept_apart() {
    let mut cache: Cache<bool> = Cache::new(300);
    assert!(has_tool_cached(&mut cache, "clippy", || true));
    assert!(!has_tool_cached(&mut cache, "audit", || false));
    assert!(has_tool_cached(&mut cache, "clippy", || false));
    assert!(!has_tool_cached(&mut cache, "audit", || true));
}

#[test]
fn tool_key_has_prefix() {
    let mut cache: Cache<bool> = Cache::new(300);
    remember_tool(&mut cache, "nextest", true, 0);
    assert_eq!(cache.get_at("tool_nextest", 1), Some(true));
    assert_eq!(cache.get_at("nextest", 1), None);
}

#[test]
fn cached_tool_expires() {
    let mut cache: Cache<bool> = Cache::new(300);
    remember_tool(&mut cache, "audit", false, 0);
    assert_eq!(cached_tool(&mut cache, "audit", 299 * SECOND), Some(false));
    assert_eq!(cached_tool(&mut cache, "audit", 300 * SECOND), None);
    assert_eq!(cached_tool(&mut cache, "audit", 0), None);
}
