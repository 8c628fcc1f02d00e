//! Sizing and gating a funding run.
//!
//! Before any wave is scheduled, the run decides whether funding is needed
//! at all (sampled balances may show an earlier run's funds still in
//! place), how much the whole run requires, and whether the funding
//! identity must first request an airdrop to cover it.

use vstd::prelude::*;

verus! {

/// An earlier run's funds count as still in place while the sampled
/// identities hold at least this fraction (8/10) of the expected amount;
/// what is left still covers the fees of a new run.
pub open spec fn enough_lamports(lamports_per_account: u64) -> int {
    8 * lamports_per_account / 10
}

/// What a funding run decided.
#[derive(Clone, Copy, PartialEq, Eq, Debug)]
pub struct FundingPlan {
    /// Whether funding must run at all.
    pub fund: bool,
    /// Everything the run distributes: the per-account amount for every
    /// derived identity and the funding identity itself, plus the fee
    /// overhead of the intermediate levels.
    pub total: u64,
    /// The airdrop to request first, when the funding identity's balance
    /// does not cover the total plus its own rent.
    pub airdrop: Option<u64>,
}

/// Decides a funding run.
///
/// `derived_count` is how many identities were derived (the covering total)
/// and `extra` how many of them exist only to carry fees;
/// `lamports_per_account` already includes the rent-exempt minimum of a
/// destination account.  `first_balance` and `last_balance` are the sampled
/// balances of the first and last derived identity; funding is skipped when
/// both still hold eight tenths of the expected amount.
pub fn plan_funding(
    derived_count: u64,
    extra: u64,
    lamports_per_account: u64,
    rent: u64,
    max_fee: u64,
    first_balance: u64,
    last_balance: u64,
    funding_balance: u64,
) -> (r: FundingPlan)
    requires
        derived_count < u64::MAX,
        8 * lamports_per_account <= u64::MAX,
        lamports_per_account * (derived_count + 1) + extra * max_fee + rent <= u64::MAX,
    ensures
        r.fund == (first_balance < enough_lamports(lamports_per_account) || last_balance
            < enough_lamports(lamports_per_account)),
        r.fund ==> r.total == lamports_per_account * (derived_count + 1) + extra * max_fee,
        r.fund && funding_balance < r.total + rent ==> r.airdrop == Some(
            (r.total + rent - funding_balance) as u64,
        ),
        r.fund && funding_balance >= r.total + rent ==> r.airdrop is None,
        !r.fund ==> r.total == 0 && r.airdrop is None,
{
    let enough = 8 * lamports_per_account / 10;
    if first_balance >= enough && last_balance >= enough {
        return FundingPlan { fund: false, total: 0, airdrop: None };
    }
    proof {
        assert(lamports_per_account * (derived_count + 1) >= 0 && extra * max_fee >= 0)
            by (nonlinear_arith);
    }
    let total_accounts = derived_count + 1;
    let extra_fees = extra * max_fee;
    let total = lamports_per_account * total_accounts + extra_fees;
    let airdrop = if funding_balance < total + rent {
        Some(total + rent - funding_balance)
    } else {
        None
    };
    FundingPlan { fund: true, total, airdrop }
}

} // verus!
