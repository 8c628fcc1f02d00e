//! Replay-reference freshness.
//!
//! A background task keeps a shared cache of the ledger's replay-protection
//! reference continuously refreshed.  The task's loop performs the ledger
//! queries and the sleeps; every decision it takes each tick — replace the
//! cache, warn about staleness, treat the reference as stuck, or stop on
//! cancellation — is a verified function here.

use vstd::prelude::*;

verus! {

/// No fresh reference for longer than this: warn.
pub const STALE_WARN_MS: u64 = 30_000;

/// No fresh reference for longer than this: the reference is stuck and the
/// pipeline cannot continue (signing would use an unusable reference).
pub const STALE_FATAL_MS: u64 = 120_000;

/// Warnings are emitted at most once per this interval.
pub const WARN_INTERVAL_MS: u64 = 1_000;

/// The poller checks for cancellation once per tick of this length.
pub const POLL_TICK_MS: u64 = 50;

/// One refresh attempt samples the ledger for up to this long.
pub const REFRESH_WINDOW_MS: u64 = 5_000;

/// Cadence between reference samples within a refresh attempt: twice per
/// 400 ms slot.
pub const SAMPLE_INTERVAL_MS: u64 = 200;

/// The shared replay-reference cache: one writer (the poller), many
/// readers.  The update timestamp never moves backwards, so a reader never
/// observes a value older than the last successful refresh.
pub struct ReplayCache {
    pub value: u64,
    pub updated_at_ms: u64,
}

impl ReplayCache {
    /// Seeds the cache with the first reference the process obtained.
    pub fn new(value: u64, now_ms: u64) -> (c: ReplayCache)
        ensures
            c.value == value,
            c.updated_at_ms == now_ms,
    {
        ReplayCache { value, updated_at_ms: now_ms }
    }

    /// What a reader observes.
    pub fn read(&self) -> (v: u64)
        ensures
            v == self.value,
    {
        self.value
    }

    /// The single writer replaces the value; the timestamp advances, never
    /// retreats.
    pub fn refresh(&mut self, value: u64, now_ms: u64)
        requires
            now_ms >= old(self).updated_at_ms,
        ensures
            final(self).value == value,
            final(self).updated_at_ms == now_ms,
    {
        self.value = value;
        self.updated_at_ms = now_ms;
    }
}

/// Whether a sampled reference is fresh: only a value different from the
/// current one replaces the cache.
pub fn fresh_reference(current: u64, sampled: u64) -> (r: Option<u64>)
    ensures
        sampled != current ==> r == Some(sampled),
        sampled == current ==> r is None,
{
    if sampled != current {
        Some(sampled)
    } else {
        None
    }
}

/// How stale the cache is allowed to be before the poller speaks up.
#[derive(Clone, Copy, PartialEq, Eq, Structural, Debug)]
pub enum Alarm {
    /// Nothing to report.
    Quiet,
    /// No change for over [`STALE_WARN_MS`]; repeated at most once per
    /// [`WARN_INTERVAL_MS`].
    Warning,
    /// No change for over [`STALE_FATAL_MS`]; unrecoverable.
    Stuck,
}

/// What one poller tick decided.
#[derive(Clone, Copy, PartialEq, Eq, Structural, Debug)]
pub struct TickOutcome {
    /// Write the observed value to the cache and reset the staleness timer.
    pub refreshed: bool,
    /// Staleness report; `Warning` also resets the warning timer.
    pub alarm: Alarm,
    /// Leave the loop: cancellation was requested or the reference is stuck.
    pub stop: bool,
}

/// Decides one tick of the freshness poller.
///
/// `observed` is what the refresh attempt found: a reference different from
/// the current one, or nothing within its window.  The elapsed arguments
/// are measured since the last successful refresh and since the last
/// warning.  A stuck reference is fatal, so it also stops the loop.
pub fn poller_tick(
    observed: Option<u64>,
    current: u64,
    ms_since_update: u64,
    ms_since_warning: u64,
    cancelled: bool,
) -> (r: TickOutcome)
    requires
        observed matches Some(v) ==> v != current,
    ensures
        r.refreshed == (observed is Some),
        observed is Some ==> r.alarm == Alarm::Quiet,
        observed is None ==> r.alarm == (if ms_since_update > STALE_FATAL_MS {
            Alarm::Stuck
        } else if ms_since_update > STALE_WARN_MS && ms_since_warning >= WARN_INTERVAL_MS {
            Alarm::Warning
        } else {
            Alarm::Quiet
        }),
        r.stop == (cancelled || r.alarm == Alarm::Stuck),
{
    match observed {
        Some(_) => TickOutcome { refreshed: true, alarm: Alarm::Quiet, stop: cancelled },
        None => {
            let alarm = if ms_since_update > STALE_FATAL_MS {
                Alarm::Stuck
            } else if ms_since_update > STALE_WARN_MS && ms_since_warning >= WARN_INTERVAL_MS {
                Alarm::Warning
            } else {
                Alarm::Quiet
            };
            let stuck = matches!(alarm, Alarm::Stuck);
            TickOutcome { refreshed: false, alarm, stop: cancelled || stuck }
        },
    }
}

} // verus!
