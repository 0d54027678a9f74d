use websearch_mcp::cache::TtlCache;

#[test]
fn test_get_returns_none_for_missing_key() {
    let cache = TtlCache::new(60_000);
    assert!(cache.get("missing", 0).is_none());
}

#[test]
fn test_set_and_get_returns_value() {
    let mut cache = TtlCache::new(60_000);
    cache.set("key1".to_string(), "value1".to_string(), 0);
    assert_eq!(cache.get("key1", 0), Some("value1".to_string()));
}

#[test]
fn test_expired_entry_returns_none() {
    let mut cache = TtlCache::new(50);
    cache.set("key1".to_string(), "value1".to_string(), 0);
    assert!(cache.get("key1", 100).is_none());
}

#[test]
fn test_non_expired_entry_returns_value() {
    let mut cache = TtlCache::new(60_000);
    cache.set("key1".to_string(), "value1".to_string(), 0);
    assert_eq!(cache.get("key1", 10), Some("value1".to_string()));
}

#[test]
fn test_set_overwrites_existing_value() {
    let mut cache = TtlCache::new(60_000);
    cache.set("key1".to_string(), "old".to_string(), 0);
    cache.set("key1".to_string(), "new".to_string(), 0);
    assert_eq!(cache.get("key1", 0), Some("new".to_string()));
}

#[test]
fn test_set_cleans_up_expired_entries() {
    let mut cache = TtlCache::new(50);
    cache.set("old".to_string(), "value".to_string(), 0);
    cache.set("new".to_string(), "value".to_string(), 100);
    assert!(!cache.contains_key("old"));
    assert!(cache.contains_key("new"));
}

#[test]
fn test_zero_ttl_always_misses() {
    let mut cache = TtlCache::new(0);
    cache.set("key1".to_string(), "value1".to_string(), 0);
    assert!(cache.get("key1", 0).is_none());
}

#[test]
fn cache_scenario_sixty_second_ttl() {
    let mut cache = TtlCache::new(60_000);
    cache.set("k".to_string(), "v".to_string(), 1_000);
    assert_eq!(cache.get("k", 1_000), Some("v".to_string()));
    assert!(cache.get("k", 71_000).is_none());
}

#[test]
fn cache_entry_expires_exactly_at_ttl() {
    let mut cache = TtlCache::new(100);
    cache.set("k".to_string(), "v".to_string(), 500);
    assert_eq!(cache.get("k", 599), Some("v".to_string()));
    assert!(cache.get("k", 600).is_none());
}

#[test]
fn cache_get_does_not_evict() {
    let mut cache = TtlCache::new(10);
    cache.set("k".to_string(), "v".to_string(), 0);
    assert!(cache.get("k", 50).is_none());
    assert!(cache.contains_key("k"));
}

#[test]
fn cache_overwrite_refreshes_timestamp() {
    let mut cache = TtlCache::new(100);
    cache.set("k".to_string(), "a".to_string(), 0);
    cache.set("k".to_string(), "b".to_string(), 90);
    assert_eq!(cache.get("k", 150), Some("b".to_string()));
}

#[test]
fn cache_sweep_keeps_fresh_entries() {
    let mut cache = TtlCache::new(100);
    cache.set("a".to_string(), "1".to_string(), 0);
    cache.set("b".to_string(), "2".to_string(), 50);
    cache.set("c".to_string(), "3".to_string(), 120);
    assert!(!cache.contains_key("a"));
    assert!(cache.contains_key("b"));
    assert_eq!(cache.get("b", 120), Some("2".to_string()));
    assert_eq!(cache.get("c", 120), Some("3".to_string()));
}

#[test]
fn cache_clock_before_stamp_counts_as_fresh() {
    let mut cache = TtlCache::new(100);
    cache.set("k".to_string(), "v".to_string(), 500);
    assert_eq!(cache.get("k", 400), Some("v".to_string()));
    assert_eq!(cache.ttl(), 100);
}
