//! Defunding sweep.
//!
//! After a run, the derived identities' balances are returned to the
//! collector.  Each identity with more than a dust threshold transfers
//! everything above the threshold back; balances at or below it are not
//! worth a transaction fee and stay put.  The sweep is idempotent: a first
//! run leaves every swept balance at or below the threshold, so a second
//! run plans no transfer at all.

use vstd::prelude::*;

verus! {

/// Balances at or below this many of the smallest units are not reclaimed.
pub const DUST_THRESHOLD: u64 = 5000;

/// How much one identity's sweep transfers back to the collector.
pub open spec fn sweep_amount_spec(balance: u64) -> Option<u64> {
    if balance > DUST_THRESHOLD {
        Option::Some((balance - DUST_THRESHOLD) as u64)
    } else {
        Option::None
    }
}

/// Decides one identity's sweep from its observed balance.
pub fn sweep_amount(balance: u64) -> (r: Option<u64>)
    ensures
        r == sweep_amount_spec(balance),
{
    if balance > DUST_THRESHOLD {
        Some(balance - DUST_THRESHOLD)
    } else {
        None
    }
}

/// Plans a whole sweep from the observed balances, entry by entry.
pub fn plan_sweep(balances: &Vec<u64>) -> (r: Vec<Option<u64>>)
    ensures
        r@.len() == balances@.len(),
        forall|i: int| 0 <= i < balances@.len() ==> r@[i] == sweep_amount_spec(#[trigger] balances@[i]),
{
    let mut r: Vec<Option<u64>> = Vec::new();
    let mut i: usize = 0;
    while i < balances.len()
        invariant
            i <= balances@.len(),
            r@.len() == i,
            forall|j: int| 0 <= j < i ==> r@[j] == sweep_amount_spec(#[trigger] balances@[j]),
        decreases balances@.len() - i,
    {
        r.push(sweep_amount(balances[i]));
        i = i + 1;
    }
    r
}

/// The sweep is idempotent.  A planned transfer brings the balance exactly
/// to the dust threshold, so the identity's next sweep plans nothing; any
/// balance at or below the threshold — including one further reduced by the
/// transfer's fee — plans nothing either.
pub proof fn lemma_sweep_idempotent(balance: u64)
    ensures
        sweep_amount_spec(balance) matches Option::Some(a) ==> a <= balance && balance - a
            == DUST_THRESHOLD && sweep_amount_spec((balance - a) as u64) is None,
        sweep_amount_spec(balance) is None ==> balance <= DUST_THRESHOLD,
        balance <= DUST_THRESHOLD ==> sweep_amount_spec(balance) is None,
{
}

} // verus!
