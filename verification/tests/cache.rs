use propchain::cache::TtlCache;

#[test]
fn returns_value_within_ttl() {
    let mut cache = TtlCache::new(10);
    cache.set(42u32, 100);
    assert_eq!(cache.get(105), Some(42));
}

#[test]
fn expires_after_ttl() {
    let mut cache: TtlCache<u32> = TtlCache::new(10);
    cache.set(42, 100);
    assert_eq!(cache.get(111), None);
}

#[test]
fn entry_is_stale_exactly_at_the_ttl_boundary() {
    let mut cache: TtlCache<u32> = TtlCache::new(10);
    cache.set(42, 100);
    // now - cached_at == ttl is already stale; only strictly-fresher reads hit.
    assert_eq!(cache.get(110), None);
    assert_eq!(cache.get(109), Some(42));
}

#[test]
fn fresh_writes_reset_the_expiry_clock() {
    let mut cache: TtlCache<u32> = TtlCache::new(10);
    cache.set(1, 100);
    assert_eq!(cache.get(108), Some(1));
    cache.set(2, 108);
    assert_eq!(cache.get(117), Some(2));
    assert_eq!(cache.get(119), None);
}

#[test]
fn empty_cache_misses_at_every_tick() {
    let cache: TtlCache<u32> = TtlCache::new(10);
    assert_eq!(cache.get(0), None);
    assert_eq!(cache.get(5), None);
    assert_eq!(cache.get(u32::MAX), None);
}

#[test]
fn read_before_the_write_tick_counts_as_no_time_passed() {
    let mut cache: TtlCache<u32> = TtlCache::new(10);
    cache.set(7, 100);
    assert_eq!(cache.get(50), Some(7));
    assert_eq!(cache.get(100), Some(7));
}

#[test]
fn zero_ttl_never_hits() {
    let mut cache: TtlCache<u32> = TtlCache::new(0);
    cache.set(7, 100);
    assert_eq!(cache.get(100), None);
    assert_eq!(cache.get(99), None);
}

#[test]
fn stale_entry_stays_stale_later() {
    let mut cache: TtlCache<u32> = TtlCache::new(3);
    cache.set(9, 10);
    assert_eq!(cache.get(13), None);
    assert_eq!(cache.get(14), None);
    assert_eq!(cache.get(1000), None);
}

#[test]
fn cached_strings_are_cloned_out() {
    let mut cache: TtlCache<String> = TtlCache::new(5);
    cache.set("price".to_string(), 1);
    assert_eq!(cache.get(2), Some("price".to_string()));
    assert_eq!(cache.get(6), None);
}
