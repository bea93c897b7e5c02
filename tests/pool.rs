use serverless_host::instance::OwnedInstance;
use serverless_host::pool::{OwnedEachAppCache, ADMISSION_LIMIT, POOL_TTL_SECS, STORED_CAPACITY};

fn inst(id: u64) -> OwnedInstance {
    OwnedInstance { instance_id: id, app: "img".to_string(), dir: "/apps".to_string() }
}

#[test]
fn pool_new_instance_on_miss() {
    let mut p = OwnedEachAppCache::new();
    let a = p.get("/apps", "img", 10).unwrap();
    assert_eq!(a.instance_id, 0);
    assert_eq!(a.app, "img");
    assert_eq!(a.dir, "/apps");
    let b = p.get("/apps", "img", 10).unwrap();
    assert_eq!(b.instance_id, 1);
    assert_eq!(p.using_count(), 2);
}

#[test]
fn pool_release_then_acquire_reuses_instance() {
    let mut p = OwnedEachAppCache::new();
    let a = p.get("/apps", "img", 10).unwrap();
    let id = a.instance_id;
    p.put(a, 10);
    assert_eq!(p.using_count(), 0);
    assert_eq!(p.stored_count(), 1);
    let b = p.get("/apps", "img", 10).unwrap();
    assert_eq!(b.instance_id, id);
    assert_eq!(p.stored_count(), 0);
}

#[test]
fn pool_third_acquire_waits_for_release() {
    let mut p = OwnedEachAppCache::with_limit(2);
    let a = p.get("/apps", "img", 10).unwrap();
    let _b = p.get("/apps", "img", 10).unwrap();
    assert!(p.get("/apps", "img", 10).is_none());
    assert_eq!(p.using_count(), 2);
    p.put(a, 10);
    let c = p.get("/apps", "img", 10);
    assert!(c.is_some());
    assert_eq!(p.using_count(), 2);
}

#[test]
fn pool_default_limit_is_one_hundred() {
    let mut p = OwnedEachAppCache::new();
    assert_eq!(ADMISSION_LIMIT, 100);
    for _ in 0..100 {
        assert!(p.get("/apps", "img", 10).is_some());
    }
    assert!(p.get("/apps", "img", 10).is_none());
    assert_eq!(p.using_count(), 100);
}

#[test]
fn pool_eviction_keeps_in_use_count() {
    let mut p = OwnedEachAppCache::new();
    assert!(p.get("/apps", "img", 10).is_some());
    for i in 0..(STORED_CAPACITY as u64 + 5) {
        p.put(inst(i), 10);
    }
    assert_eq!(p.stored_count(), STORED_CAPACITY);
    assert_eq!(p.using_count(), 0);
    let newest = p.get("/apps", "img", 10).unwrap();
    assert_eq!(newest.instance_id, STORED_CAPACITY as u64 + 4);
}

#[test]
fn pool_release_without_acquire_keeps_count_at_zero() {
    let mut p = OwnedEachAppCache::new();
    p.put(inst(7), 10);
    assert_eq!(p.using_count(), 0);
    assert_eq!(p.stored_count(), 1);
}

#[test]
fn pool_expired_instance_not_reused() {
    let mut p = OwnedEachAppCache::new();
    let a = p.get("/apps", "img", 0).unwrap();
    assert_eq!(a.instance_id, 0);
    p.put(a, 0);
    assert_eq!(POOL_TTL_SECS, 60);
    let b = p.get("/apps", "img", 60).unwrap();
    // ids 0 and 1 went to the first instance and to its stored entry
    assert_eq!(b.instance_id, 2);
    assert_eq!(p.stored_count(), 0);
}

#[test]
fn pool_live_instance_reused_before_ttl() {
    let mut p = OwnedEachAppCache::new();
    let a = p.get("/apps", "img", 0).unwrap();
    p.put(a, 0);
    let b = p.get("/apps", "img", 59).unwrap();
    assert_eq!(b.instance_id, 0);
}
