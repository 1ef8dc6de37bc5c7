use kaonic::cache::CacheSet;

fn id(s: &str) -> String {
    s.to_string()
}

#[test]
fn first_insert_is_new_and_repeat_is_not() {
    let mut cache = CacheSet::new(4);
    assert!(cache.insert(&id("a")));
    assert!(!cache.insert(&id("a")));
    assert!(cache.insert(&id("b")));
    assert!(!cache.insert(&id("b")));
    assert!(!cache.insert(&id("a")));
    assert!(cache.contains(&id("a")));
    assert!(cache.contains(&id("b")));
    assert!(!cache.contains(&id("c")));
}

#[test]
fn eviction_is_oldest_first() {
    let mut cache = CacheSet::new(3);
    for s in ["a", "b", "c", "d"] {
        assert!(cache.insert(&id(s)));
    }
    assert!(!cache.contains(&id("a")));
    assert!(cache.contains(&id("b")));
    assert!(cache.contains(&id("c")));
    assert!(cache.contains(&id("d")));
    // once evicted, an identifier is new again
    assert!(cache.insert(&id("a")));
    assert!(!cache.contains(&id("b")));
}

#[test]
fn full_size_cache_evicts_first_after_capacity_plus_one() {
    let mut cache = CacheSet::new(512);
    for i in 0..512 {
        assert!(cache.insert(&format!("id-{}", i)));
    }
    assert!(cache.contains(&id("id-0")));
    assert!(cache.insert(&id("id-512")));
    assert!(!cache.contains(&id("id-0")));
    assert!(cache.contains(&id("id-1")));
    assert!(cache.contains(&id("id-512")));
}

#[test]
fn repeat_does_not_refresh_age() {
    let mut cache = CacheSet::new(2);
    assert!(cache.insert(&id("a")));
    assert!(cache.insert(&id("b")));
    assert!(!cache.insert(&id("a")));
    assert!(cache.insert(&id("c")));
    assert!(!cache.contains(&id("a")));
    assert!(cache.contains(&id("b")));
}

#[test]
fn zero_capacity_holds_nothing() {
    let mut cache = CacheSet::new(0);
    assert!(cache.insert(&id("a")));
    assert!(!cache.contains(&id("a")));
    assert!(cache.insert(&id("a")));
}

#[test]
fn empty_identifier_is_an_identifier() {
    let mut cache = CacheSet::new(2);
    assert!(cache.insert(&id("")));
    assert!(!cache.insert(&id("")));
}
