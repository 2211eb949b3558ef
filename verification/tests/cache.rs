use grok_code::cache::{ResponseCache, NANOS_PER_SECOND};

const SECOND: u64 = NANOS_PER_SECOND;

#[test]
fn test_cache_basic() {
    let mut cache = ResponseCache::new(10, 60);
    let key = ResponseCache::generate_key("test query", &["result1".to_string()]);

    // Test put and get
    cache.put(key.clone(), "cached response".to_string(), 0);
    assert_eq!(cache.get(&key, 0), Some("cached response".to_string()));

    // Test non-existent key
    assert_eq!(cache.get("non-existent", 0), None);
}

#[test]
fn test_cache_expiration() {
    let mut cache = ResponseCache::new(10, 1); // 1 second TTL
    let key = ResponseCache::generate_key("test query", &[]);

    cache.put(key.clone(), "response".to_string(), 0);
    assert_eq!(cache.get(&key, 0), Some("response".to_string()));

    // Two seconds later
    assert_eq!(cache.get(&key, 2 * SECOND), None);
}

#[test]
fn test_cache_lru_eviction() {
    let mut cache = ResponseCache::new(2, 60); // Max 2 entries

    let key1 = ResponseCache::generate_key("query1", &[]);
    let key2 = ResponseCache::generate_key("query2", &[]);
    let key3 = ResponseCache::generate_key("query3", &[]);

    cache.put(key1.clone(), "response1".to_string(), 1);
    cache.put(key2.clone(), "response2".to_string(), 2);

    // Access key1 to make it more recently used
    cache.get(&key1, 3);

    // Add key3, should evict key2
    cache.put(key3.clone(), "response3".to_string(), 4);

    assert_eq!(cache.get(&key1, 5), Some("response1".to_string()));
    assert_eq!(cache.get(&key2, 5), None); // Should be evicted
    assert_eq!(cache.get(&key3, 5), Some("response3".to_string()));
}

#[test]
fn test_cache_key_generation() {
    let key1 = ResponseCache::generate_key("same query", &["result1".to_string()]);
    let key2 = ResponseCache::generate_key("same query", &["result1".to_string()]);
    let key3 = ResponseCache::generate_key("different query", &["result1".to_string()]);

    assert_eq!(key1, key2);
    assert_ne!(key1, key3);
}

#[test]
fn key_is_the_hex_digest_of_message_and_results() {
    assert_eq!(
        ResponseCache::generate_key("test query", &["result1".to_string()]),
        "fbc029028e28be8ca0e1ef77f522f0151ae7dc0cb534f71d0931dcf7eab4181a"
    );
    assert_eq!(
        ResponseCache::generate_key("hello", &[]),
        "2cf24dba5fb0a30e26e83b2ac5b9e29e1b161e5c1fa7425e73043362938b9824"
    );
    assert_eq!(
        ResponseCache::generate_key("a", &["b".to_string(), "c".to_string()]),
        "a52dd81bfd5e4e66d96b9f598382f6cbf8c5c3897654e6ae9055e03620fcf38e"
    );
    assert_eq!(
        ResponseCache::generate_key("héllo", &["R1".to_string()]),
        "23eec5f64fb6d200a61519cae5d20a23a3d7900296344025f8a1019d46ce8c49"
    );
}

#[test]
fn key_depends_on_the_order_of_results() {
    let ab = ResponseCache::generate_key("m", &["a".to_string(), "b".to_string()]);
    let ba = ResponseCache::generate_key("m", &["b".to_string(), "a".to_string()]);
    assert_ne!(ab, ba);
    // the separator is part of the preimage and not escaped
    assert_eq!(
        ResponseCache::generate_key("a|b", &[]),
        ResponseCache::generate_key("a", &["b".to_string()])
    );
}

#[test]
fn entry_lives_exactly_as_long_as_the_ttl() {
    let t = 1_000 * SECOND;
    let ttl = 300;
    let mut cache = ResponseCache::new(10, ttl);
    cache.put("k".to_string(), "v".to_string(), t);
    // just before and exactly at the end of its life
    assert_eq!(cache.stats(t + ttl * SECOND - 1).expired_entries, 0);
    assert_eq!(cache.stats(t + ttl * SECOND).expired_entries, 0);
    assert_eq!(cache.stats(t + ttl * SECOND + 1).expired_entries, 1);

    let mut early = ResponseCache::new(10, ttl);
    early.put("k".to_string(), "v".to_string(), t);
    assert_eq!(early.get("k", t + ttl * SECOND - 1), Some("v".to_string()));

    let mut late = ResponseCache::new(10, ttl);
    late.put("k".to_string(), "v".to_string(), t);
    assert_eq!(late.get("k", t + ttl * SECOND + 1), None);
    // the late read removed the entry
    assert_eq!(late.stats(t).total_entries, 0);
}

#[test]
fn read_starts_the_life_of_an_entry_again() {
    let mut cache = ResponseCache::new(10, 10);
    cache.put("k".to_string(), "v".to_string(), 0);
    assert_eq!(cache.get("k", 8 * SECOND), Some("v".to_string()));
    // 16 seconds after storing, 8 after the read
    assert_eq!(cache.get("k", 16 * SECOND), Some("v".to_string()));
    assert_eq!(cache.get("k", 27 * SECOND), None);
}

#[test]
fn clock_that_runs_backwards_expires_nothing() {
    let mut cache = ResponseCache::new(10, 1);
    cache.put("k".to_string(), "v".to_string(), 100 * SECOND);
    assert_eq!(cache.get("k", 0), Some("v".to_string()));
}

#[test]
fn eviction_takes_fewest_accesses_then_oldest() {
    let mut cache = ResponseCache::new(3, 600);
    cache.put("a".to_string(), "1".to_string(), 10);
    cache.put("b".to_string(), "2".to_string(), 20);
    cache.put("c".to_string(), "3".to_string(), 30);
    assert_eq!(cache.find_lru_key(), Some("a".to_string()));
    // a read protects "a": now "b" is the oldest among the entries with one access
    assert_eq!(cache.get("a", 40), Some("1".to_string()));
    assert_eq!(cache.find_lru_key(), Some("b".to_string()));
    cache.put("d".to_string(), "4".to_string(), 50);
    assert_eq!(cache.get("b", 60), None);
    assert_eq!(cache.stats(60).total_entries, 3);
    // access count dominates age: "a" is the oldest by creation, c and d have one access
    assert_eq!(cache.find_lru_key(), Some("c".to_string()));
}

#[test]
fn overwriting_a_key_evicts_nothing() {
    let mut cache = ResponseCache::new(2, 600);
    cache.put("a".to_string(), "1".to_string(), 10);
    cache.put("b".to_string(), "2".to_string(), 20);
    cache.put("a".to_string(), "one".to_string(), 30);
    assert_eq!(cache.stats(30).total_entries, 2);
    assert_eq!(cache.get("a", 31), Some("one".to_string()));
    assert_eq!(cache.get("b", 31), Some("2".to_string()));
}

#[test]
fn cache_without_capacity_holds_the_last_entry() {
    let mut cache = ResponseCache::new(0, 600);
    cache.put("a".to_string(), "1".to_string(), 10);
    cache.put("b".to_string(), "2".to_string(), 20);
    assert_eq!(cache.stats(20).total_entries, 1);
    assert_eq!(cache.get("a", 21), None);
    assert_eq!(cache.get("b", 21), Some("2".to_string()));
}

#[test]
fn stats_count_expired_and_active() {
    let mut cache = ResponseCache::new(10, 10);
    cache.put("a".to_string(), "1".to_string(), 0);
    cache.put("b".to_string(), "2".to_string(), 5 * SECOND);
    let stats = cache.stats(12 * SECOND);
    assert_eq!(stats.total_entries, 2);
    assert_eq!(stats.expired_entries, 1);
    assert_eq!(stats.active_entries, 1);
    cache.clear();
    assert_eq!(cache.stats(12 * SECOND).total_entries, 0);
    assert_eq!(cache.find_lru_key(), None);
}
