use serverless_host::lru::LRUCache;

#[test]
fn lru_get_missing_is_none() {
    let mut c: LRUCache<u32> = LRUCache::new(2);
    assert_eq!(c.get("a"), None);
    assert_eq!(c.len(), 0);
}

#[test]
fn lru_put_then_get() {
    let mut c: LRUCache<u32> = LRUCache::new(2);
    c.put("a", 1);
    assert_eq!(c.get("a"), Some(&1));
    assert_eq!(c.len(), 1);
}

#[test]
fn lru_evicts_least_recently_used() {
    let mut c: LRUCache<u32> = LRUCache::new(2);
    c.put("a", 1);
    c.put("b", 2);
    assert_eq!(c.get("a"), Some(&1));
    c.put("c", 3);
    assert_eq!(c.len(), 2);
    assert_eq!(c.get("b"), None);
    assert_eq!(c.get("a"), Some(&1));
    assert_eq!(c.get("c"), Some(&3));
}

#[test]
fn lru_put_existing_key_replaces_without_eviction() {
    let mut c: LRUCache<u32> = LRUCache::new(2);
    c.put("a", 1);
    c.put("b", 2);
    c.put("a", 10);
    assert_eq!(c.len(), 2);
    assert_eq!(c.get("a"), Some(&10));
    assert_eq!(c.get("b"), Some(&2));
}

#[test]
fn lru_capacity_zero_stores_nothing() {
    let mut c: LRUCache<u32> = LRUCache::new(0);
    c.put("a", 1);
    assert_eq!(c.len(), 0);
    assert_eq!(c.get("a"), None);
}
