use unified_trading::idempotency::{estimated_bytes_for, IdempotencyStore, DEFAULT_CAPACITY};

#[test]
fn test_new_store_is_empty() {
    let store = IdempotencyStore::new();
    assert!(store.is_empty());
    assert_eq!(store.len(), 0);
    assert_eq!(store.capacity(), DEFAULT_CAPACITY);
}

#[test]
fn test_mark_and_check_processed() {
    let mut store = IdempotencyStore::new();
    assert!(!store.is_processed("key1"));
    store.mark_processed("key1".to_string(), "result1".to_string());
    assert!(store.is_processed("key1"));
    assert!(!store.is_processed("key2"));
}

#[test]
fn test_get_result() {
    let mut store = IdempotencyStore::new();
    store.mark_processed("key1".to_string(), "result1".to_string());
    assert_eq!(store.get_result("key1"), Some("result1".to_string()));
    assert_eq!(store.get_result("key2"), None);
}

#[test]
fn test_eviction_when_at_capacity() {
    let mut store = IdempotencyStore::with_capacity(3);
    store.mark_processed("key1".to_string(), "result1".to_string());
    store.mark_processed("key2".to_string(), "result2".to_string());
    store.mark_processed("key3".to_string(), "result3".to_string());
    assert_eq!(store.len(), 3);

    store.mark_processed("key4".to_string(), "result4".to_string());
    assert_eq!(store.len(), 3);
    assert!(!store.is_processed("key1"));
    assert!(store.is_processed("key2"));
    assert!(store.is_processed("key3"));
    assert!(store.is_processed("key4"));
}

#[test]
fn test_lru_order_updated_on_access() {
    let mut store = IdempotencyStore::with_capacity(3);
    store.mark_processed("key1".to_string(), "result1".to_string());
    store.mark_processed("key2".to_string(), "result2".to_string());
    store.mark_processed("key3".to_string(), "result3".to_string());

    assert!(store.is_processed("key1"));
    store.mark_processed("key4".to_string(), "result4".to_string());

    assert!(store.is_processed("key1"));
    assert!(!store.is_processed("key2"));
}

#[test]
fn test_clear() {
    let mut store = IdempotencyStore::new();
    store.mark_processed("key1".to_string(), "result1".to_string());
    store.mark_processed("key2".to_string(), "result2".to_string());
    assert_eq!(store.len(), 2);
    store.clear();
    assert!(store.is_empty());
}

#[test]
fn test_memory_cap_enforced() {
    let mut store = IdempotencyStore::with_limits(10_000, 256);

    for i in 0..200 {
        store.mark_processed(format!("key{}", i), "x".repeat(32));
    }

    assert!(store.memory_usage_bytes() <= store.memory_limit_bytes());
}

#[test]
fn test_disk_persistence() {
    let mut content = String::new();
    {
        let mut store = IdempotencyStore::with_capacity(100);
        for (k, r) in [("key1", "result1"), ("key2", "result2")] {
            content.push_str(&store.mark_processed(k.to_string(), r.to_string()).unwrap());
            content.push('\n');
        }
        assert_eq!(store.len(), 2);
    }
    {
        let mut store2 = IdempotencyStore::with_content(100, &content);
        assert!(store2.is_processed("key1"));
        assert!(store2.is_processed("key2"));
        assert_eq!(store2.get_result("key1"), Some("result1".to_string()));
        assert_eq!(store2.len(), 2);
    }
}

#[test]
fn the_memory_of_an_entry_counts_bytes() {
    assert_eq!(estimated_bytes_for("key1", "result1"), 4 + 7 + 64);
    assert_eq!(estimated_bytes_for("ä", "漢"), 2 + 3 + 64);
    let mut store = IdempotencyStore::new();
    store.mark_processed("key1".to_string(), "result1".to_string());
    assert_eq!(store.memory_usage_bytes(), 75);
    store.mark_processed("key1".to_string(), "r".to_string());
    assert_eq!(store.memory_usage_bytes(), 69);
    assert_eq!(store.len(), 1);
}

#[test]
fn lines_that_are_no_entries_are_skipped() {
    let mut store = IdempotencyStore::with_content(10, "\n  \nalone\nk v w\n  a   b \n");
    assert_eq!(store.get_result("k"), Some("v w".to_string()));
    assert!(!store.is_processed("alone"));
    assert_eq!(store.len(), 2);
}

#[test]
fn no_use_breaks_the_limits() {
    let mut store = IdempotencyStore::with_limits(3, 300);
    for i in 0..20 {
        let key = format!("key{}", i % 7);
        let result = "r".repeat((i * 37) % 260);
        let fits = key.len() + result.len() + 64 <= 300;
        store.mark_processed(key.clone(), result.clone());
        assert_eq!(store.get_result(&key), if fits { Some(result) } else { None });
        store.is_processed("key1");
        assert!(store.len() <= 3);
        assert!(store.memory_usage_bytes() <= 300);
    }
    store.clear();
    assert_eq!((store.len(), store.memory_usage_bytes()), (0, 0));
}
