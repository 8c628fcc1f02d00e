//! Per-wave funding state machine.
//!
//! One wave takes a round's distribution list through signing, submission
//! and verification, and retries the whole list until every entry is
//! confirmed.  The rounds are all-or-nothing and safe to retry in full:
//! re-submission with a fresh replay reference cannot double-spend, because
//! the per-destination balance check is the verification gate and a verified
//! entry leaves the pending list for good.
//!
//! The caller performs the outside work between transitions: reading the
//! reference cache, signing, sending the batch, and querying balances.

use vstd::prelude::*;
use crate::scheduler::Distribution;
use crate::verification::PassSummary;
use crate::verification::pass_spec;
use crate::verification::verify_pass;

verus! {

/// How long a signed batch stays valid: the ledger's 150-slot processing
/// age at 400 ms per slot.  A wave whose reference grows older than this is
/// re-signed anyway on its next retry, so expiry never strands an entry.
pub const MAX_TX_QUEUE_AGE_MS: u64 = 60_000;

/// Where a wave stands.  `Signing` doubles as the retry entry point: a
/// failed submission or an incomplete verification round re-enters it, and
/// the still-pending subset is then re-signed against a fresh reference.
#[derive(Clone, Copy, PartialEq, Eq, Structural, Debug)]
pub enum WavePhase {
    Signing,
    Submitted,
    Verifying,
    Complete,
}

/// One funding wave: the pending distribution list, the amount each
/// destination must show to count as settled, the verified count so far,
/// and the reference the pending entries were last signed against.
pub struct FundingWave {
    pub pending: Vec<Distribution>,
    pub expected: u64,
    pub verified: u64,
    pub reference: u64,
    pub phase: WavePhase,
}

impl FundingWave {
    /// Builds a wave from a round's distribution list.  Every entry starts
    /// unsigned and unverified; the wave waits to be signed.
    pub fn build(to_fund: Vec<Distribution>, expected: u64) -> (w: FundingWave)
        ensures
            w.pending@ == to_fund@,
            w.expected == expected,
            w.verified == 0,
            w.reference == 0,
            w.phase == WavePhase::Signing,
    {
        FundingWave {
            pending: to_fund,
            expected,
            verified: 0,
            reference: 0,
            phase: WavePhase::Signing,
        }
    }

    /// Records that every pending entry was signed against one consistently
    /// read snapshot of the replay reference; the batch is ready to submit.
    pub fn on_signed(&mut self, reference: u64)
        requires
            old(self).phase == WavePhase::Signing,
        ensures
            final(self).pending@ == old(self).pending@,
            final(self).expected == old(self).expected,
            final(self).verified == old(self).verified,
            final(self).reference == reference,
            final(self).phase == WavePhase::Submitted,
    {
        self.reference = reference;
        self.phase = WavePhase::Submitted;
    }

    /// The batch submission was accepted; verification may begin.
    pub fn on_sent(&mut self)
        requires
            old(self).phase == WavePhase::Submitted,
        ensures
            final(self).pending@ == old(self).pending@,
            final(self).expected == old(self).expected,
            final(self).verified == old(self).verified,
            final(self).reference == old(self).reference,
            final(self).phase == WavePhase::Verifying,
    {
        self.phase = WavePhase::Verifying;
    }

    /// The batch submission was rejected outright: the round is retried
    /// from scratch, re-signing the same pending list against a fresh
    /// reference.
    pub fn on_send_failed(&mut self)
        requires
            old(self).phase == WavePhase::Submitted,
        ensures
            final(self).pending@ == old(self).pending@,
            final(self).expected == old(self).expected,
            final(self).verified == old(self).verified,
            final(self).reference == old(self).reference,
            final(self).phase == WavePhase::Signing,
    {
        self.phase = WavePhase::Signing;
    }

    /// Applies one verification pass.  `observations[i]` is what a balance
    /// query for `pending[i]`'s destinations observed.  Verified entries
    /// leave the pending list; the wave completes when none remain, and
    /// otherwise re-enters signing so the unresolved subset is retried.
    pub fn on_verify_pass(&mut self, observations: &Vec<Option<u64>>) -> (s: PassSummary)
        requires
            old(self).phase == WavePhase::Verifying,
            observations@.len() == old(self).pending@.len(),
            old(self).verified + old(self).pending@.len() <= u64::MAX,
        ensures
            final(self).pending@ == pass_spec(
                old(self).pending@,
                observations@,
                old(self).expected,
                old(self).verified as int,
                0,
                false,
            ).remaining,
            final(self).verified == pass_spec(
                old(self).pending@,
                observations@,
                old(self).expected,
                old(self).verified as int,
                0,
                false,
            ).verified,
            s.verified == final(self).verified,
            s.failed == pass_spec(
                old(self).pending@,
                observations@,
                old(self).expected,
                old(self).verified as int,
                0,
                false,
            ).failed,
            s.aborted == pass_spec(
                old(self).pending@,
                observations@,
                old(self).expected,
                old(self).verified as int,
                0,
                false,
            ).aborted,
            s.queried == pass_spec(
                old(self).pending@,
                observations@,
                old(self).expected,
                old(self).verified as int,
                0,
                false,
            ).queried,
            final(self).expected == old(self).expected,
            final(self).reference == old(self).reference,
            final(self).phase == if final(self).pending@.len() == 0 {
                WavePhase::Complete
            } else {
                WavePhase::Signing
            },
    {
        let mut work: Vec<Distribution> = Vec::new();
        core::mem::swap(&mut work, &mut self.pending);
        let (rem, sum) = verify_pass(work, observations, self.expected, self.verified);
        self.pending = rem;
        self.verified = sum.verified;
        self.phase = if self.pending.len() == 0 {
            WavePhase::Complete
        } else {
            WavePhase::Signing
        };
        sum
    }

    /// A wave is complete once nothing is pending.
    pub fn is_complete(&self) -> (r: bool)
        ensures
            r == (self.phase == WavePhase::Complete),
    {
        matches!(self.phase, WavePhase::Complete)
    }
}

} // verus!
