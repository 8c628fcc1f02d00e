//! Settlement verification.
//!
//! After a round's transactions are submitted, each pending entry is checked
//! by querying a destination balance: the entry counts as verified once the
//! balance reaches the expected amount.  A pass walks the pending list in
//! order; when failures exceed a threshold and outnumber the verified
//! entries, the pass stops issuing further queries and every remaining entry
//! stays pending for the caller's round-level retry.

use vstd::prelude::*;
use crate::scheduler::Distribution;

verus! {

/// Failures beyond this count (while also outnumbering the verified entries)
/// abort the rest of a verification pass.
pub const MAX_VERIFY_FAILURES: u64 = 100;

/// Batches smaller than this are polled in several passes; larger batches
/// settle slowly enough that one pass per round suffices.
pub const SMALL_BATCH_LIMIT: usize = 1000;

/// Pause between passes, letting settlement propagate.
pub const PASS_SETTLE_MS: u64 = 100;

/// Progress summaries are logged at most once per this interval.
pub const PROGRESS_LOG_INTERVAL_MS: u64 = 2_000;

/// What one balance observation decides: the transfer is settled when a
/// query answered and the balance reached the expected amount.  A query that
/// answered nothing (every request failed) leaves the entry unverified.
pub open spec fn transfer_verified(observed: Option<u64>, amount: u64) -> bool {
    match observed {
        Option::Some(balance) => balance >= amount,
        Option::None => false,
    }
}

/// The outcome of one verification pass.
pub struct PassResult {
    /// Entries still pending, in their original order.
    pub remaining: Seq<Distribution>,
    /// Verified entries, including those carried in from earlier passes.
    pub verified: int,
    /// Failed observations of this pass.
    pub failed: int,
    /// Whether the failure threshold halted the pass.
    pub aborted: bool,
    /// How many balance queries the pass issued.
    pub queried: int,
}

/// One verification pass over `entries`, observation by observation.
///
/// Carries the verified count `verified0` in from earlier passes; `failed0`
/// and `aborted0` start a fresh pass at zero and false.  Once the abort flag
/// is set, no further entry is queried and all of them stay pending.
pub open spec fn pass_spec(
    entries: Seq<Distribution>,
    obs: Seq<Option<u64>>,
    amount: u64,
    verified0: int,
    failed0: int,
    aborted0: bool,
) -> PassResult
    decreases entries.len(),
{
    if entries.len() == 0 {
        PassResult {
            remaining: Seq::<Distribution>::empty(),
            verified: verified0,
            failed: failed0,
            aborted: aborted0,
            queried: 0,
        }
    } else if aborted0 {
        PassResult {
            remaining: entries,
            verified: verified0,
            failed: failed0,
            aborted: true,
            queried: 0,
        }
    } else {
        let ok = transfer_verified(obs[0], amount);
        let v1 = if ok {
            verified0 + 1
        } else {
            verified0
        };
        let f1 = if ok {
            failed0
        } else {
            failed0 + 1
        };
        let a1 = f1 > MAX_VERIFY_FAILURES as int && f1 > v1;
        let rest = pass_spec(entries.drop_first(), obs.drop_first(), amount, v1, f1, a1);
        PassResult {
            remaining: if ok {
                rest.remaining
            } else {
                seq![entries[0]] + rest.remaining
            },
            verified: rest.verified,
            failed: rest.failed,
            aborted: rest.aborted,
            queried: 1 + rest.queried,
        }
    }
}

/// Decides one entry from its balance observation.
pub fn verify_funding_transfer(observed: Option<u64>, amount: u64) -> (v: bool)
    ensures
        v == transfer_verified(observed, amount),
{
    match observed {
        Option::Some(balance) => balance >= amount,
        Option::None => false,
    }
}

/// Whether a progress summary is due: something is still pending and the
/// last summary is old enough.
pub fn should_log_progress(remaining: usize, ms_since_log: u64) -> (r: bool)
    ensures
        r == (remaining > 0 && ms_since_log > PROGRESS_LOG_INTERVAL_MS),
{
    remaining > 0 && ms_since_log > PROGRESS_LOG_INTERVAL_MS
}

/// How many verification passes a round runs for a batch of this size.
pub fn verify_pass_count(batch_len: usize) -> (r: u64)
    ensures
        batch_len < SMALL_BATCH_LIMIT ==> r == 3,
        batch_len >= SMALL_BATCH_LIMIT ==> r == 1,
{
    if batch_len < SMALL_BATCH_LIMIT {
        3
    } else {
        1
    }
}

/// The counters and flags one pass reports.
#[derive(Clone, Copy, PartialEq, Eq, Structural, Debug)]
pub struct PassSummary {
    pub verified: u64,
    pub failed: u64,
    pub aborted: bool,
    pub queried: usize,
}

/// Runs one verification pass.
///
/// `observations[i]` is what a balance query for `pending[i]`'s destinations
/// observed: the first answered balance, or nothing when every query failed.
/// Observations past the abort point are never consulted (the result's
/// `queried` says how many were).  Returns the entries still pending and the
/// pass counters, exactly as [`pass_spec`] describes.
pub fn verify_pass(
    pending: Vec<Distribution>,
    observations: &Vec<Option<u64>>,
    amount: u64,
    verified_so_far: u64,
) -> (r: (Vec<Distribution>, PassSummary))
    requires
        observations@.len() == pending@.len(),
        verified_so_far + pending@.len() <= u64::MAX,
    ensures
        r.0@ == pass_spec(
            pending@,
            observations@,
            amount,
            verified_so_far as int,
            0,
            false,
        ).remaining,
        r.1.verified == pass_spec(
            pending@,
            observations@,
            amount,
            verified_so_far as int,
            0,
            false,
        ).verified,
        r.1.failed == pass_spec(
            pending@,
            observations@,
            amount,
            verified_so_far as int,
            0,
            false,
        ).failed,
        r.1.aborted == pass_spec(
            pending@,
            observations@,
            amount,
            verified_so_far as int,
            0,
            false,
        ).aborted,
        r.1.queried == pass_spec(
            pending@,
            observations@,
            amount,
            verified_so_far as int,
            0,
            false,
        ).queried,
{
    let ghost full: Seq<Distribution> = pending@;
    let ghost fullobs: Seq<Option<u64>> = observations@;
    let ghost g: PassResult = pass_spec(full, fullobs, amount, verified_so_far as int, 0, false);
    let mut pending = pending;
    let n_init = pending.len();
    proof {
        assert(full.len() == n_init);
        assert(full.skip(0) =~= full);
        assert(fullobs.skip(0) =~= fullobs);
        assert(Seq::<Distribution>::empty() + g.remaining =~= g.remaining);
    }
    let mut remaining: Vec<Distribution> = Vec::new();
    let mut verified: u64 = verified_so_far;
    let mut failed: u64 = 0;
    let mut aborted: bool = false;
    let mut queried: usize = 0;
    let mut idx: usize = 0;
    while pending.len() > 0
        invariant
            fullobs == observations@,
            fullobs.len() == full.len(),
            full.len() <= usize::MAX,
            verified_so_far + full.len() <= u64::MAX,
            idx <= full.len(),
            pending@ == full.skip(idx as int),
            verified <= verified_so_far + idx,
            failed <= idx,
            queried <= idx,
            g == pass_spec(full, fullobs, amount, verified_so_far as int, 0, false),
            g.remaining == remaining@ + pass_spec(
                pending@,
                fullobs.skip(idx as int),
                amount,
                verified as int,
                failed as int,
                aborted,
            ).remaining,
            g.verified == pass_spec(
                pending@,
                fullobs.skip(idx as int),
                amount,
                verified as int,
                failed as int,
                aborted,
            ).verified,
            g.failed == pass_spec(
                pending@,
                fullobs.skip(idx as int),
                amount,
                verified as int,
                failed as int,
                aborted,
            ).failed,
            g.aborted == pass_spec(
                pending@,
                fullobs.skip(idx as int),
                amount,
                verified as int,
                failed as int,
                aborted,
            ).aborted,
            g.queried == queried + pass_spec(
                pending@,
                fullobs.skip(idx as int),
                amount,
                verified as int,
                failed as int,
                aborted,
            ).queried,
        decreases pending@.len(),
    {
        let ghost tail = pass_spec(
            pending@,
            fullobs.skip(idx as int),
            amount,
            verified as int,
            failed as int,
            aborted,
        );
        proof {
            assert(idx < full.len());
            assert(pending@[0] == full[idx as int]);
            assert(fullobs.skip(idx as int)[0] == fullobs[idx as int]);
        }
        if aborted {
            let e = pending.remove(0);
            proof {
                assert(pending@ =~= full.skip(idx as int + 1));
                assert(full.skip(idx as int).drop_first() =~= full.skip(idx as int + 1));
                assert(fullobs.skip(idx as int).drop_first() =~= fullobs.skip(idx as int + 1));
                assert(g.remaining =~= (remaining@ + seq![e]) + pass_spec(
                    pending@,
                    fullobs.skip(idx as int + 1),
                    amount,
                    verified as int,
                    failed as int,
                    aborted,
                ).remaining);
            }
            remaining.push(e);
        } else {
            let e = pending.remove(0);
            proof {
                assert(pending@ =~= full.skip(idx as int + 1));
                assert(full.skip(idx as int).drop_first() =~= full.skip(idx as int + 1));
                assert(fullobs.skip(idx as int).drop_first() =~= fullobs.skip(idx as int + 1));
            }
            let ok = verify_funding_transfer(observations[idx], amount);
            queried = queried + 1;
            if ok {
                verified = verified + 1;
            } else {
                failed = failed + 1;
            }
            if failed > MAX_VERIFY_FAILURES && failed > verified {
                aborted = true;
            }
            if ok {
                proof {
                    assert(tail.remaining == pass_spec(
                        pending@,
                        fullobs.skip(idx as int + 1),
                        amount,
                        verified as int,
                        failed as int,
                        aborted,
                    ).remaining);
                }
            } else {
                proof {
                    assert(g.remaining =~= (remaining@ + seq![e]) + pass_spec(
                        pending@,
                        fullobs.skip(idx as int + 1),
                        amount,
                        verified as int,
                        failed as int,
                        aborted,
                    ).remaining);
                }
                remaining.push(e);
            }
        }
        idx = idx + 1;
    }
    proof {
        assert(remaining@ + pass_spec(
            pending@,
            fullobs.skip(idx as int),
            amount,
            verified as int,
            failed as int,
            aborted,
        ).remaining =~= remaining@);
    }
    (remaining, PassSummary { verified, failed, aborted, queried })
}

/// The pass counters account for every entry exactly: each query verified
/// or failed one entry, verified entries leave the pending list, and failed
/// or unqueried ones stay.
pub proof fn lemma_pass_accounting(
    entries: Seq<Distribution>,
    obs: Seq<Option<u64>>,
    amount: u64,
    v0: int,
    f0: int,
    a0: bool,
)
    requires
        obs.len() == entries.len(),
    ensures
        pass_spec(entries, obs, amount, v0, f0, a0).verified >= v0,
        pass_spec(entries, obs, amount, v0, f0, a0).failed >= f0,
        pass_spec(entries, obs, amount, v0, f0, a0).queried == (pass_spec(
            entries,
            obs,
            amount,
            v0,
            f0,
            a0,
        ).verified - v0) + (pass_spec(entries, obs, amount, v0, f0, a0).failed - f0),
        pass_spec(entries, obs, amount, v0, f0, a0).remaining.len() == entries.len() - (pass_spec(
            entries,
            obs,
            amount,
            v0,
            f0,
            a0,
        ).verified - v0),
    decreases entries.len(),
{
    if entries.len() == 0 || a0 {
    } else {
        let ok = transfer_verified(obs[0], amount);
        let v1 = if ok {
            v0 + 1
        } else {
            v0
        };
        let f1 = if ok {
            f0
        } else {
            f0 + 1
        };
        let a1 = f1 > MAX_VERIFY_FAILURES as int && f1 > v1;
        lemma_pass_accounting(entries.drop_first(), obs.drop_first(), amount, v1, f1, a1);
    }
}

/// Sources appear at most once in a distribution list.
pub open spec fn distinct_sources(entries: Seq<Distribution>) -> bool {
    forall|p: int, q: int|
        0 <= p < q < entries.len() ==> (#[trigger] entries[p]).from != (#[trigger] entries[q]).from
}

/// A pass issues at most one query per entry.
pub proof fn lemma_queried_le_len(
    entries: Seq<Distribution>,
    obs: Seq<Option<u64>>,
    amount: u64,
    v0: int,
    f0: int,
    a0: bool,
)
    ensures
        0 <= pass_spec(entries, obs, amount, v0, f0, a0).queried <= entries.len(),
    decreases entries.len(),
{
    if entries.len() == 0 || a0 {
    } else {
        let ok = transfer_verified(obs[0], amount);
        let v1 = if ok {
            v0 + 1
        } else {
            v0
        };
        let f1 = if ok {
            f0
        } else {
            f0 + 1
        };
        let a1 = f1 > MAX_VERIFY_FAILURES as int && f1 > v1;
        lemma_queried_le_len(entries.drop_first(), obs.drop_first(), amount, v1, f1, a1);
    }
}

/// Every entry a pass leaves pending is one of the entries it was given.
pub proof fn lemma_retained_come_from_entries(
    entries: Seq<Distribution>,
    obs: Seq<Option<u64>>,
    amount: u64,
    v0: int,
    f0: int,
    a0: bool,
)
    requires
        obs.len() == entries.len(),
    ensures
        forall|j: int|
            0 <= j < pass_spec(entries, obs, amount, v0, f0, a0).remaining.len()
                ==> entries.contains(
                #[trigger] pass_spec(entries, obs, amount, v0, f0, a0).remaining[j],
            ),
    decreases entries.len(),
{
    let r = pass_spec(entries, obs, amount, v0, f0, a0);
    if entries.len() == 0 {
    } else if a0 {
        assert forall|j: int| 0 <= j < r.remaining.len() implies entries.contains(
            r.remaining[j],
        ) by {
            assert(entries[j] == r.remaining[j]);
        }
    } else {
        let ok = transfer_verified(obs[0], amount);
        let v1 = if ok {
            v0 + 1
        } else {
            v0
        };
        let f1 = if ok {
            f0
        } else {
            f0 + 1
        };
        let a1 = f1 > MAX_VERIFY_FAILURES as int && f1 > v1;
        let tail = entries.drop_first();
        let rest = pass_spec(tail, obs.drop_first(), amount, v1, f1, a1);
        lemma_retained_come_from_entries(tail, obs.drop_first(), amount, v1, f1, a1);
        assert forall|j: int| 0 <= j < r.remaining.len() implies entries.contains(
            r.remaining[j],
        ) by {
            if ok {
                assert(tail.contains(r.remaining[j]));
                let i = choose|i: int| 0 <= i < tail.len() && tail[i] == r.remaining[j];
                assert(entries[i + 1] == r.remaining[j]);
            } else {
                if j == 0 {
                    assert(entries[0] == r.remaining[0]);
                } else {
                    assert(r.remaining[j] == rest.remaining[j - 1]);
                    assert(tail.contains(rest.remaining[j - 1]));
                    let i = choose|i: int| 0 <= i < tail.len() && tail[i] == rest.remaining[j - 1];
                    assert(entries[i + 1] == r.remaining[j]);
                }
            }
        }
    }
}

/// Safety of retry: an entry whose observation verified it in this pass is
/// removed from the pending list, so re-running the round re-submits no
/// distribution from an already-verified source.  The balance-floor check is
/// the verification gate, so the property needs no ledger-side nonce.
pub proof fn lemma_verified_not_retried(
    entries: Seq<Distribution>,
    obs: Seq<Option<u64>>,
    amount: u64,
    v0: int,
    f0: int,
    a0: bool,
)
    requires
        obs.len() == entries.len(),
        distinct_sources(entries),
    ensures
        forall|i: int, j: int|
            0 <= i < pass_spec(entries, obs, amount, v0, f0, a0).queried && 0 <= j < pass_spec(
                entries,
                obs,
                amount,
                v0,
                f0,
                a0,
            ).remaining.len() && transfer_verified(obs[i], amount) ==> (#[trigger] pass_spec(
                entries,
                obs,
                amount,
                v0,
                f0,
                a0,
            ).remaining[j]).from != (#[trigger] entries[i]).from,
    decreases entries.len(),
{
    let r = pass_spec(entries, obs, amount, v0, f0, a0);
    if entries.len() == 0 {
    } else if a0 {
    } else {
        let ok = transfer_verified(obs[0], amount);
        let v1 = if ok {
            v0 + 1
        } else {
            v0
        };
        let f1 = if ok {
            f0
        } else {
            f0 + 1
        };
        let a1 = f1 > MAX_VERIFY_FAILURES as int && f1 > v1;
        let tail = entries.drop_first();
        let tailobs = obs.drop_first();
        let rest = pass_spec(tail, tailobs, amount, v1, f1, a1);
        assert(distinct_sources(tail)) by {
            assert forall|p: int, q: int| 0 <= p < q < tail.len() implies (
            #[trigger] tail[p]).from != (#[trigger] tail[q]).from by {
                assert(tail[p] == entries[p + 1] && tail[q] == entries[q + 1]);
            }
        }
        lemma_verified_not_retried(tail, tailobs, amount, v1, f1, a1);
        lemma_retained_come_from_entries(tail, tailobs, amount, v1, f1, a1);
        lemma_queried_le_len(tail, tailobs, amount, v1, f1, a1);
        assert forall|i: int, j: int|
            0 <= i < r.queried && 0 <= j < r.remaining.len() && transfer_verified(
                obs[i],
                amount,
            ) implies (#[trigger] r.remaining[j]).from != (#[trigger] entries[i]).from by {
            if i == 0 {
                if ok {
                    assert(r.remaining[j] == rest.remaining[j]);
                    assert(tail.contains(rest.remaining[j]));
                    let w = choose|w: int| 0 <= w < tail.len() && tail[w] == rest.remaining[j];
                    assert(entries[w + 1] == rest.remaining[j]);
                    assert(entries[w + 1].from != entries[0].from);
                }
            } else {
                assert(obs[i] == tailobs[i - 1]);
                assert(entries[i] == tail[i - 1]);
                if ok {
                    assert(r.remaining[j] == rest.remaining[j]);
                } else {
                    if j == 0 {
                        assert(r.remaining[0] == entries[0]);
                        assert(entries[0].from != entries[i].from);
                    } else {
                        assert(r.remaining[j] == rest.remaining[j - 1]);
                    }
                }
            }
        }
    }
}

/// Abort threshold: a pass issues a query for every entry unless the flag
/// was raised, the flag is raised exactly when the pass's failures exceed
/// the threshold and outnumber the verified entries, and after it is raised
/// no further query is issued.
pub proof fn lemma_abort_threshold(
    entries: Seq<Distribution>,
    obs: Seq<Option<u64>>,
    amount: u64,
    v0: int,
    f0: int,
    a0: bool,
)
    requires
        obs.len() == entries.len(),
        !a0 ==> !(f0 > MAX_VERIFY_FAILURES as int && f0 > v0),
    ensures
        pass_spec(entries, obs, amount, v0, f0, a0).queried <= entries.len(),
        pass_spec(entries, obs, amount, v0, f0, a0).queried < entries.len() ==> pass_spec(
            entries,
            obs,
            amount,
            v0,
            f0,
            a0,
        ).aborted,
        pass_spec(entries, obs, amount, v0, f0, a0).aborted <==> (a0 || (pass_spec(
            entries,
            obs,
            amount,
            v0,
            f0,
            a0,
        ).failed > MAX_VERIFY_FAILURES as int && pass_spec(entries, obs, amount, v0, f0, a0).failed
            > pass_spec(entries, obs, amount, v0, f0, a0).verified)),
    decreases entries.len(),
{
    if entries.len() == 0 {
    } else if a0 {
    } else {
        let ok = transfer_verified(obs[0], amount);
        let v1 = if ok {
            v0 + 1
        } else {
            v0
        };
        let f1 = if ok {
            f0
        } else {
            f0 + 1
        };
        let a1 = f1 > MAX_VERIFY_FAILURES as int && f1 > v1;
        lemma_abort_threshold(entries.drop_first(), obs.drop_first(), amount, v1, f1, a1);
    }
}

} // verus!
