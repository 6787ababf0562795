use dashboard_core::cache::QueryCache;
use dashboard_core::cache::QueryCacheStore;
use dashboard_core::envelope::QueryResult;

fn entry(hash: &str, ttl_seconds: i64) -> QueryCache {
    QueryCache::new(
        hash.to_string(),
        "SELECT * FROM table".to_string(),
        QueryResult::empty(),
        Some("source-1".to_string()),
        ttl_seconds,
    )
}

#[test]
fn test_query_cache() {
    let result = QueryResult::empty();
    let cache = QueryCache::new(
        "hash123".to_string(),
        "SELECT * FROM table".to_string(),
        result,
        Some("source-1".to_string()),
        300,
    );

    assert_eq!(cache.query_hash, "hash123");
    assert_eq!(cache.data_source_id, Some("source-1".to_string()));
    assert!(!cache.is_expired());
}

#[test]
fn test_cache_entry_identifier_shape() {
    let cache = entry("h", 300);
    assert_eq!(cache.id.len(), 36);
}

#[test]
fn test_cache_expiry_over_time() {
    let cache = entry("h", 300);
    assert!(!cache.is_expired_at(cache.created_at));
    assert!(!cache.is_expired_at(cache.created_at + 300 * 1000));
    assert!(cache.is_expired_at(cache.created_at + 300 * 1000 + 1));

    let stale = entry("h", 0);
    assert!(!stale.is_expired_at(stale.created_at));
    assert!(stale.is_expired_at(stale.created_at + 1));
}

#[test]
fn test_store_lookup_round_trip() {
    let mut store = QueryCacheStore::new();
    assert!(store.lookup("h1").is_none());

    let first = entry("h1", 300);
    store.store(first.clone());
    let found = store.lookup("h1").expect("a fresh entry is found");
    assert_eq!(found.id, first.id);
    assert!(store.lookup("h2").is_none());
}

#[test]
fn test_store_newest_entry_shadows_older() {
    let mut store = QueryCacheStore::new();
    let old = entry("h1", 300);
    let new = entry("h1", 600);
    store.store(old);
    store.store(new.clone());
    let found = store.lookup_at("h1", new.created_at).expect("entry found");
    assert_eq!(found.id, new.id);
}

#[test]
fn test_lookup_passes_over_expired_entries() {
    let mut store = QueryCacheStore::new();
    let durable = entry("h1", 1000);
    let fleeting = entry("h1", 1);
    store.store(durable.clone());
    store.store(fleeting.clone());

    // Beyond the fleeting entry's TTL the older, longer-lived entry wins.
    let later = fleeting.created_at + 10 * 1000;
    let found = store.lookup_at("h1", later).expect("the durable entry lives");
    assert_eq!(found.id, durable.id);

    // Once everything has expired the lookup comes back empty.
    assert!(store.lookup_at("h1", fleeting.created_at + 2000 * 1000).is_none());
}
