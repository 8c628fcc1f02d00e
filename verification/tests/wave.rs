use rust_nuke::scheduler::{Distribution, Spend};
use rust_nuke::wave::{FundingWave, WavePhase};

fn entry(from: u64, to: u64, lamports: u64) -> Distribution {
    Distribution { from, spends: vec![Spend { to, lamports }] }
}

#[test]
fn a_wave_retries_until_every_entry_settles() {
    let to_fund = vec![entry(1, 11, 500), entry(2, 12, 500)];
    let mut wave = FundingWave::build(to_fund, 500);
    assert_eq!(wave.phase, WavePhase::Signing);
    assert_eq!(wave.verified, 0);

    wave.on_signed(42);
    assert_eq!(wave.phase, WavePhase::Submitted);
    assert_eq!(wave.reference, 42);
    wave.on_sent();
    assert_eq!(wave.phase, WavePhase::Verifying);

    // only the first destination's balance reached the expected amount
    let summary = wave.on_verify_pass(&vec![Some(500u64), Some(100u64)]);
    assert_eq!(summary.verified, 1);
    assert_eq!(summary.failed, 1);
    assert!(!summary.aborted);
    assert_eq!(wave.pending.len(), 1);
    assert_eq!(wave.pending[0].from, 2);
    assert_eq!(wave.phase, WavePhase::Signing);
    assert!(!wave.is_complete());

    // the unresolved subset is re-signed against a fresh reference
    wave.on_signed(43);
    assert_eq!(wave.reference, 43);
    wave.on_sent();
    let summary = wave.on_verify_pass(&vec![Some(500u64)]);
    assert_eq!(summary.verified, 2);
    assert!(wave.pending.is_empty());
    assert_eq!(wave.phase, WavePhase::Complete);
    assert!(wave.is_complete());
}

#[test]
fn a_rejected_submission_reenters_signing() {
    let mut wave = FundingWave::build(vec![entry(1, 11, 9)], 9);
    wave.on_signed(7);
    wave.on_send_failed();
    assert_eq!(wave.phase, WavePhase::Signing);
    assert_eq!(wave.pending.len(), 1);
    wave.on_signed(8);
    assert_eq!(wave.reference, 8);
}

#[test]
fn a_verified_entry_is_never_resubmitted() {
    let to_fund = vec![entry(1, 11, 500), entry(2, 12, 500), entry(3, 13, 500)];
    let mut wave = FundingWave::build(to_fund, 500);
    wave.on_signed(1);
    wave.on_sent();
    wave.on_verify_pass(&vec![Some(500u64), None, Some(500u64)]);
    // sources 1 and 3 verified: the retried subset holds neither
    let retried: Vec<u64> = wave.pending.iter().map(|e| e.from).collect();
    assert_eq!(retried, vec![2]);
}
