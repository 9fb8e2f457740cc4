use marvin_toggl::cache::{Cache, ScopeKey, cache_get, cache_put};

const TTL: u64 = 300_000;

#[test]
fn fresh_entry_is_returned() {
    let mut c: Cache<String, i64> = Cache::new(TTL);
    cache_put(&mut c, "alpha".to_string(), 7, 1_000);
    assert_eq!(cache_get(&c, &"alpha".to_string(), 1_000), Some(&7));
    assert_eq!(cache_get(&c, &"alpha".to_string(), 1_000 + TTL - 1), Some(&7));
}

#[test]
fn entry_expires_at_ttl_boundary() {
    let mut c: Cache<String, i64> = Cache::new(TTL);
    cache_put(&mut c, "alpha".to_string(), 7, 1_000);
    assert_eq!(cache_get(&c, &"alpha".to_string(), 1_000 + TTL), None);
    assert_eq!(cache_get(&c, &"alpha".to_string(), 1_000 + TTL + 5_000), None);
}

#[test]
fn other_keys_do_not_disturb_an_entry() {
    let mut c: Cache<String, i64> = Cache::new(TTL);
    cache_put(&mut c, "alpha".to_string(), 7, 1_000);
    for i in 0..50 {
        cache_put(&mut c, format!("k{}", i), i, 2_000 + i as u64);
    }
    assert_eq!(cache_get(&c, &"alpha".to_string(), 1_000 + TTL - 1), Some(&7));
    assert_eq!(cache_get(&c, &"alpha".to_string(), 1_000 + TTL), None);
}

#[test]
fn overwrite_replaces_value_and_timestamp() {
    let mut c: Cache<String, i64> = Cache::new(TTL);
    cache_put(&mut c, "alpha".to_string(), 7, 1_000);
    cache_put(&mut c, "alpha".to_string(), 9, 200_000);
    assert_eq!(cache_get(&c, &"alpha".to_string(), 250_000), Some(&9));
    // Fresh relative to the second write even though the first has expired.
    assert_eq!(cache_get(&c, &"alpha".to_string(), 1_000 + TTL + 1), Some(&9));
    assert_eq!(cache_get(&c, &"alpha".to_string(), 200_000 + TTL), None);
}

#[test]
fn stale_entry_is_a_miss_but_can_be_refreshed() {
    let mut c: Cache<String, String> = Cache::new(TTL);
    cache_put(&mut c, "p1".to_string(), "Title".to_string(), 0);
    assert_eq!(cache_get(&c, &"p1".to_string(), TTL), None);
    cache_put(&mut c, "p1".to_string(), "Title".to_string(), TTL);
    assert_eq!(cache_get(&c, &"p1".to_string(), TTL + 1), Some(&"Title".to_string()));
}

#[test]
fn any_ttl_bounds_freshness_the_same_way() {
    let mut c: Cache<String, i64> = Cache::new(10);
    cache_put(&mut c, "k".to_string(), 1, 100);
    assert_eq!(cache_get(&c, &"k".to_string(), 109), Some(&1));
    assert_eq!(cache_get(&c, &"k".to_string(), 110), None);

    let mut c: Cache<String, i64> = Cache::new(0);
    cache_put(&mut c, "k".to_string(), 1, 100);
    assert_eq!(cache_get(&c, &"k".to_string(), 100), None);
}

#[test]
fn missing_key_is_a_miss() {
    let c: Cache<String, i64> = Cache::new(TTL);
    assert_eq!(cache_get(&c, &"absent".to_string(), 0), None);
}

#[test]
fn scoped_keys_are_independent_per_scope() {
    let mut c: Cache<ScopeKey, i64> = Cache::new(TTL);
    cache_put(&mut c, ScopeKey { scope: 1, name: "Website".to_string() }, 10, 0);
    cache_put(&mut c, ScopeKey { scope: 2, name: "Website".to_string() }, 20, 0);
    assert_eq!(cache_get(&c, &ScopeKey { scope: 1, name: "Website".to_string() }, 10), Some(&10));
    assert_eq!(cache_get(&c, &ScopeKey { scope: 2, name: "Website".to_string() }, 10), Some(&20));
    assert_eq!(cache_get(&c, &ScopeKey { scope: 3, name: "Website".to_string() }, 10), None);
}

#[test]
fn pair_values_round_trip() {
    let mut c: Cache<String, (String, String)> = Cache::new(TTL);
    cache_put(
        &mut c,
        "doc1".to_string(),
        ("Some project".to_string(), "root".to_string()),
        5,
    );
    let got = cache_get(&c, &"doc1".to_string(), 6).cloned();
    assert_eq!(got, Some(("Some project".to_string(), "root".to_string())));
}
