use ghost_crab::latest_block_manager::LatestBlockManager;

#[test]
fn empty_manager_asks_for_a_query() {
    let manager = LatestBlockManager::new(10_000);
    assert_eq!(manager.get(0), None);
    assert_eq!(manager.get(u64::MAX), None);
}

#[test]
fn lookups_within_the_window_return_the_cached_block() {
    let mut manager = LatestBlockManager::new(10_000);
    manager.update(50_000, 1_000);
    assert_eq!(manager.get(1_000), Some(50_000));
    assert_eq!(manager.get(6_000), Some(50_000));
    assert_eq!(manager.get(10_999), Some(50_000));
}

#[test]
fn lookup_after_the_window_asks_for_one_new_query() {
    let mut manager = LatestBlockManager::new(10_000);
    manager.update(50_000, 1_000);
    assert_eq!(manager.get(11_000), None);
    assert_eq!(manager.get(11_001), None);
    manager.update(50_007, 11_001);
    assert_eq!(manager.get(11_001), Some(50_007));
    assert_eq!(manager.get(21_000), Some(50_007));
    assert_eq!(manager.get(21_001), None);
}

#[test]
fn update_replaces_the_snapshot() {
    let mut manager = LatestBlockManager::new(10_000);
    manager.update(1, 5);
    manager.update(2, 6);
    assert_eq!(manager, LatestBlockManager { value: Some(2), last_fetch: 6, cache_duration: 10_000 });
}

#[test]
fn clock_reading_before_the_fetch_counts_as_fresh() {
    let mut manager = LatestBlockManager::new(10_000);
    manager.update(50_000, 1_000);
    assert_eq!(manager.get(999), Some(50_000));
    assert_eq!(manager.get(0), Some(50_000));
}

#[test]
fn zero_window_never_serves_from_the_cache() {
    let mut manager = LatestBlockManager::new(0);
    manager.update(50_000, 1_000);
    assert_eq!(manager.get(1_000), None);
    assert_eq!(manager.get(0), None);
}

#[test]
fn window_at_the_end_of_the_clock() {
    let mut manager = LatestBlockManager::new(u64::MAX);
    manager.update(3, 0);
    assert_eq!(manager.get(u64::MAX - 1), Some(3));
    assert_eq!(manager.get(u64::MAX), None);
}
