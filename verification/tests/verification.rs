use rust_nuke::scheduler::{Distribution, Spend};
use rust_nuke::verification::{
    should_log_progress, verify_funding_transfer, verify_pass, verify_pass_count,
};

fn entry(from: u64) -> Distribution {
    Distribution { from, spends: vec![Spend { to: from + 1000, lamports: 1 }] }
}

#[test]
fn balance_floor_decides_a_transfer() {
    assert!(verify_funding_transfer(Some(500), 500));
    assert!(verify_funding_transfer(Some(501), 500));
    assert!(!verify_funding_transfer(Some(499), 500));
    assert!(!verify_funding_transfer(None, 500));
}

#[test]
fn progress_logs_are_throttled() {
    assert!(should_log_progress(5, 2_001));
    assert!(!should_log_progress(5, 2_000));
    assert!(!should_log_progress(0, 10_000));
}

#[test]
fn small_batches_get_three_passes() {
    assert_eq!(verify_pass_count(0), 3);
    assert_eq!(verify_pass_count(999), 3);
    assert_eq!(verify_pass_count(1000), 1);
    assert_eq!(verify_pass_count(5000), 1);
}

#[test]
fn a_pass_retains_the_unverified_in_order() {
    let pending = vec![entry(1), entry(2), entry(3)];
    let obs = vec![Some(700u64), None, Some(10u64)];
    let (remaining, summary) = verify_pass(pending, &obs, 500, 0);
    let left: Vec<u64> = remaining.iter().map(|e| e.from).collect();
    assert_eq!(left, vec![2, 3]);
    assert_eq!(summary.verified, 1);
    assert_eq!(summary.failed, 2);
    assert!(!summary.aborted);
    assert_eq!(summary.queried, 3);
}

#[test]
fn verified_count_carries_across_passes() {
    let pending = vec![entry(1), entry(2)];
    let obs = vec![Some(500u64), Some(500u64)];
    let (remaining, summary) = verify_pass(pending, &obs, 500, 7);
    assert!(remaining.is_empty());
    assert_eq!(summary.verified, 9);
    assert_eq!(summary.failed, 0);
}

#[test]
fn abort_threshold_halts_the_pass() {
    // 1000 pending; the first 40 observations verify, every further one
    // fails.  The flag trips at the 101st failure, while 40 are verified:
    // queries stop there and everything unqueried stays pending.
    let pending: Vec<Distribution> = (0..1000).map(entry).collect();
    let mut obs: Vec<Option<u64>> = Vec::new();
    for i in 0..1000 {
        obs.push(if i < 40 { Some(500u64) } else { None });
    }
    let (remaining, summary) = verify_pass(pending, &obs, 500, 0);
    assert!(summary.aborted);
    assert_eq!(summary.verified, 40);
    assert_eq!(summary.failed, 101);
    assert_eq!(summary.queried, 141);
    assert_eq!(remaining.len(), 960);
    // no verified source is retained for the retry
    for e in &remaining {
        assert!(e.from >= 40);
    }
}

#[test]
fn outnumbered_failures_do_not_abort() {
    // failures exceed the threshold but never outnumber the verified
    let pending: Vec<Distribution> = (0..300).map(entry).collect();
    let mut obs: Vec<Option<u64>> = Vec::new();
    for i in 0..300 {
        obs.push(if i < 150 { Some(500u64) } else { None });
    }
    let (remaining, summary) = verify_pass(pending, &obs, 500, 0);
    assert!(!summary.aborted);
    assert_eq!(summary.verified, 150);
    assert_eq!(summary.failed, 150);
    assert_eq!(summary.queried, 300);
    assert_eq!(remaining.len(), 150);
}
