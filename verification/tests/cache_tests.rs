use zcache::ZCache;
use zcache::ZCacheError;
use zcache::ZEntry;

#[test]
fn read_write_works() {
    let mut cache = ZCache::new();
    cache.clear();
    let cacheable = ZEntry::Int(1);
    let one_second: u64 = 1000;
    let t0: u64 = 10_000;
    cache.write_at("key1", cacheable, Some(one_second), t0);
    let result = cache.read_at("key1", t0);

    match result {
        Some(ZEntry::Int(value)) => assert_eq!(value, 1),
        _ => panic!("Unexpected value"),
    }

    let result = cache.read_at("key1", t0 + 2 * one_second);

    if result.is_some() {
        panic!("Entry should be expired!");
    }

    let cacheable = ZEntry::Text("cached text".to_string());
    cache.write_at("key2", cacheable, None, t0);
    let result = cache.read_at("key2", t0 + 2 * one_second);
    match result {
        Some(ZEntry::Text(value)) => assert_eq!(value, "cached text".to_string()),
        _ => panic!("Unexpected value"),
    }
}

#[test]
fn fetch_works() {
    let mut cache = ZCache::new();
    cache.clear();
    let cacheable = ZEntry::Int(1);
    let result = cache.fetch("key1", None, || Some(cacheable.clone()));

    match result {
        Ok(ZEntry::Int(value)) => assert_eq!(value, 1),
        _ => panic!("Unexpected value"),
    }
}

#[test]
fn fetch_expiry_works() -> Result<(), ZCacheError> {
    let mut cache = ZCache::new();
    cache.clear();
    let cacheable = ZEntry::Int(1);
    let one_second: u64 = 1000;
    let t0: u64 = 50_000;
    let result = cache.fetch_at("key1", Some(one_second), t0, t0, || Some(cacheable.clone()));
    match result {
        Ok(ZEntry::Int(value)) => assert_eq!(value, 1),
        _ => panic!("Unexpected value"),
    }

    match cache.fetch_at("key1", Some(one_second), t0, t0, || Some(cacheable.clone()))? {
        ZEntry::Int(value) => value,
        _ => panic!("Unexpected type"),
    };

    let result = cache.read_at("key1", t0 + 2 * one_second);

    if result.is_some() {
        panic!("Entry should be expired!");
    }
    Ok(())
}

#[test]
fn read_of_unwritten_key_is_not_found() {
    let cache = ZCache::new();
    assert!(cache.read("missing").is_none());
    assert!(cache.read_at("missing", 0).is_none());
    assert!(cache.read_at("missing", u64::MAX).is_none());
}

#[test]
fn write_without_ttl_round_trips_every_variant() {
    let mut cache = ZCache::new();
    cache.write("int", ZEntry::Int(-42), None);
    cache.write("float", ZEntry::Float((2.5f64).to_bits()), None);
    cache.write("text", ZEntry::Text("hello".to_string()), None);
    cache.write("bool", ZEntry::Bool(true), None);

    match cache.read("int") {
        Some(ZEntry::Int(v)) => assert_eq!(v, -42),
        _ => panic!("Unexpected value"),
    }
    match cache.read("float") {
        Some(ZEntry::Float(bits)) => assert_eq!(f64::from_bits(bits), 2.5),
        _ => panic!("Unexpected value"),
    }
    match cache.read("text") {
        Some(ZEntry::Text(v)) => assert_eq!(v, "hello"),
        _ => panic!("Unexpected value"),
    }
    match cache.read("bool") {
        Some(ZEntry::Bool(v)) => assert!(v),
        _ => panic!("Unexpected value"),
    }
}

#[test]
fn never_expiring_entry_stays_fresh_arbitrarily_far_in_the_future() {
    let mut cache = ZCache::new();
    cache.write_at("k", ZEntry::Text("hi".to_string()), None, 1_000);
    match cache.read_at("k", u64::MAX) {
        Some(ZEntry::Text(v)) => assert_eq!(v, "hi"),
        _ => panic!("Unexpected value"),
    }
}

#[test]
fn ttl_entry_is_fresh_strictly_before_expiry_and_stale_at_it() {
    let mut cache = ZCache::new();
    let t0: u64 = 7_000;
    cache.write_at("k", ZEntry::Bool(false), Some(500), t0);
    assert!(matches!(cache.read_at("k", t0), Some(ZEntry::Bool(false))));
    assert!(matches!(cache.read_at("k", t0 + 499), Some(ZEntry::Bool(false))));
    assert!(cache.read_at("k", t0 + 500).is_none());
    assert!(cache.read_at("k", t0 + 501).is_none());
}

#[test]
fn repeated_identical_writes_read_like_a_single_write() {
    let t0: u64 = 3_000;
    let mut once = ZCache::new();
    once.write_at("k", ZEntry::Int(9), Some(250), t0);

    let mut twice = ZCache::new();
    twice.write_at("k", ZEntry::Int(9), Some(250), t0);
    twice.write_at("k", ZEntry::Int(9), Some(250), t0);

    for now in [t0, t0 + 100, t0 + 249, t0 + 250, t0 + 10_000] {
        match (once.read_at("k", now), twice.read_at("k", now)) {
            (Some(ZEntry::Int(a)), Some(ZEntry::Int(b))) => assert_eq!(a, b),
            (None, None) => {}
            _ => panic!("Unexpected value"),
        }
    }
}

#[test]
fn clear_empties_the_store() {
    let mut cache = ZCache::new();
    cache.write("k", ZEntry::Int(1), None);
    cache.write("other", ZEntry::Bool(true), None);
    cache.clear();
    assert!(cache.read("k").is_none());
    assert!(cache.read("other").is_none());
}

#[test]
fn stale_entry_is_observed_as_absent_but_overwrite_revives_the_key() {
    let mut cache = ZCache::new();
    let t0: u64 = 1_000;
    cache.write_at("k", ZEntry::Int(1), Some(100), t0);
    assert!(cache.read_at("k", t0 + 100).is_none());
    cache.write_at("k", ZEntry::Int(2), Some(100), t0 + 200);
    assert!(matches!(cache.read_at("k", t0 + 250), Some(ZEntry::Int(2))));
}

#[test]
fn error_names_the_key_whose_producer_failed() {
    let err = ZCacheError::FetchError("some key".to_string());
    assert_eq!(err.key(), "some key");
}

#[test]
fn cloning_an_entry_preserves_the_value() {
    let original = ZEntry::Text("payload".to_string());
    let copy = original.clone();
    match (original, copy) {
        (ZEntry::Text(a), ZEntry::Text(b)) => assert_eq!(a, b),
        _ => panic!("Unexpected value"),
    }
}
