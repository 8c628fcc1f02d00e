use rust_nuke::poller::{
    fresh_reference, poller_tick, Alarm, ReplayCache, STALE_FATAL_MS, STALE_WARN_MS,
};

#[test]
fn only_a_changed_reference_is_fresh() {
    assert_eq!(fresh_reference(7, 7), None);
    assert_eq!(fresh_reference(7, 8), Some(8));
}

#[test]
fn a_fresh_reference_replaces_the_cache() {
    let r = poller_tick(Some(9), 7, 31_000, 5_000, false);
    assert!(r.refreshed);
    assert_eq!(r.alarm, Alarm::Quiet);
    assert!(!r.stop);
}

#[test]
fn a_quiet_tick_just_sleeps() {
    let r = poller_tick(None, 7, 10_000, 10_000, false);
    assert!(!r.refreshed);
    assert_eq!(r.alarm, Alarm::Quiet);
    assert!(!r.stop);
}

#[test]
fn staleness_warns_at_most_once_per_second() {
    let warning = poller_tick(None, 7, STALE_WARN_MS + 1, 1_000, false);
    assert_eq!(warning.alarm, Alarm::Warning);
    assert!(!warning.stop);
    let throttled = poller_tick(None, 7, STALE_WARN_MS + 1, 999, false);
    assert_eq!(throttled.alarm, Alarm::Quiet);
}

#[test]
fn a_stuck_reference_is_fatal() {
    let r = poller_tick(None, 7, STALE_FATAL_MS + 1, 0, false);
    assert_eq!(r.alarm, Alarm::Stuck);
    assert!(r.stop);
}

#[test]
fn cancellation_stops_the_loop() {
    let after_refresh = poller_tick(Some(9), 7, 0, 0, true);
    assert!(after_refresh.refreshed);
    assert!(after_refresh.stop);
    let idle = poller_tick(None, 7, 0, 0, true);
    assert!(idle.stop);
}

#[test]
fn the_cache_never_moves_backwards() {
    let mut cache = ReplayCache::new(5, 100);
    assert_eq!(cache.read(), 5);
    cache.refresh(6, 150);
    assert_eq!(cache.read(), 6);
    assert_eq!(cache.updated_at_ms, 150);
}
