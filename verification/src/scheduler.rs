//! Funding wave scheduler.
//!
//! Funding proceeds in rounds.  Each round every funded identity takes the
//! last four entries of the unfunded frontier as its destinations and offers
//! each an equal share of its spendable balance, after a reserve for its own
//! account minimum and the transaction fee.  The popped destinations become
//! the funded frontier of the next round, so the rounds form a 4-ary tree
//! over the derived identities.

use vstd::prelude::*;

verus! {

/// Maximum number of destination transfers one transaction may carry: the
/// network's fan-out limit.  The round planner assigns exactly this many
/// destinations to every funded source.
pub const MAX_SPENDS_PER_TX: u64 = 4;

/// One destination of a fund distribution: an account address and an amount.
#[derive(Clone, Copy, PartialEq, Eq, Structural, Debug)]
pub struct Spend {
    pub to: u64,
    pub lamports: u64,
}

/// The distribution list of one source identity for one round.
#[derive(Debug)]
pub struct Distribution {
    pub from: u64,
    pub spends: Vec<Spend>,
}

/// Sum of the amounts of a distribution list.
pub open spec fn spend_sum(s: Seq<Spend>) -> int
    decreases s.len(),
{
    if s.len() == 0 {
        0
    } else {
        spend_sum(s.drop_last()) + s.last().lamports
    }
}

/// A list whose amounts all equal `lam` sums to `len * lam`.
pub proof fn lemma_spend_sum_const(s: Seq<Spend>, lam: u64)
    requires
        forall|i: int| 0 <= i < s.len() ==> (#[trigger] s[i]).lamports == lam,
    ensures
        spend_sum(s) == s.len() * lam,
    decreases s.len(),
{
    if s.len() > 0 {
        assert(forall|i: int|
            0 <= i < s.drop_last().len() ==> (#[trigger] s.drop_last()[i]).lamports == lam);
        lemma_spend_sum_const(s.drop_last(), lam);
        assert(s.last().lamports == lam);
        assert((s.len() - 1) * lam + lam == s.len() * lam) by (nonlinear_arith);
    }
}

/// The equal per-destination amount of a round: the funded balance, less a
/// reserve for the source's own account and the fee, split four ways.
pub open spec fn round_amount(funded_funds: u64, max_fee: u64, lamports_per_account: u64) -> int
    recommends
        lamports_per_account + max_fee <= funded_funds,
{
    (funded_funds - lamports_per_account - max_fee) / 4
}

/// Plans one funding round.
///
/// For each funded identity, in order, the last four entries of `not_funded`
/// are removed and become its destinations, each offered the round amount.
/// Returns the distribution list and the newly funded identities, in the
/// order their funds were assigned.
pub fn plan_round(
    funded: &Vec<u64>,
    not_funded: &mut Vec<u64>,
    funded_funds: u64,
    max_fee: u64,
    lamports_per_account: u64,
) -> (r: (Vec<Distribution>, Vec<u64>))
    requires
        lamports_per_account + max_fee <= funded_funds,
        4 * funded@.len() <= old(not_funded)@.len(),
    ensures
        r.0@.len() == funded@.len(),
        r.1@.len() == 4 * funded@.len(),
        final(not_funded)@ == old(not_funded)@.subrange(
            0,
            old(not_funded)@.len() - 4 * funded@.len(),
        ),
        forall|p: int|
            0 <= p < funded@.len() ==> (#[trigger] r.0@[p]).from == funded@[p]
                && r.0@[p].spends@.len() == 4,
        forall|p: int, j: int|
            0 <= p < funded@.len() && 0 <= j < 4 ==> {
                &&& (#[trigger] r.0@[p].spends@[j]).lamports == round_amount(
                    funded_funds,
                    max_fee,
                    lamports_per_account,
                )
                &&& r.0@[p].spends@[j].to == old(not_funded)@[old(not_funded)@.len() - 4 * (p + 1)
                    + j]
                &&& r.1@[4 * p + j] == r.0@[p].spends@[j].to
            },
        forall|p: int|
            0 <= p < funded@.len() ==> spend_sum((#[trigger] r.0@[p]).spends@) == 4 * round_amount(
                funded_funds,
                max_fee,
                lamports_per_account,
            ),
        4 * round_amount(funded_funds, max_fee, lamports_per_account) <= funded_funds
            - lamports_per_account - max_fee,
{
    let to_lamports = (funded_funds - lamports_per_account - max_fee) / 4;
    let ghost original: Seq<u64> = not_funded@;
    let ghost len0: int = not_funded@.len() as int;
    let mut to_fund: Vec<Distribution> = Vec::new();
    let mut new_funded: Vec<u64> = Vec::new();
    let mut i: usize = 0;
    while i < funded.len()
        invariant
            i <= funded@.len(),
            4 * funded@.len() <= len0,
            len0 == original.len(),
            not_funded@ == original.subrange(0, len0 - 4 * i),
            to_fund@.len() == i,
            new_funded@.len() == 4 * i,
            forall|p: int|
                0 <= p < i ==> (#[trigger] to_fund@[p]).from == funded@[p]
                    && to_fund@[p].spends@.len() == 4,
            forall|p: int, j: int|
                0 <= p < i && 0 <= j < 4 ==> {
                    &&& (#[trigger] to_fund@[p].spends@[j]).lamports == to_lamports
                    &&& to_fund@[p].spends@[j].to == original[len0 - 4 * (p + 1) + j]
                    &&& new_funded@[4 * p + j] == to_fund@[p].spends@[j].to
                },
        decreases funded@.len() - i,
    {
        let start = not_funded.len() - 4;
        let d0 = not_funded.remove(start);
        let d1 = not_funded.remove(start);
        let d2 = not_funded.remove(start);
        let d3 = not_funded.remove(start);
        assert(not_funded@ =~= original.subrange(0, len0 - 4 * (i + 1)));
        let spends: Vec<Spend> = vec![
            Spend { to: d0, lamports: to_lamports },
            Spend { to: d1, lamports: to_lamports },
            Spend { to: d2, lamports: to_lamports },
            Spend { to: d3, lamports: to_lamports },
        ];
        new_funded.push(d0);
        new_funded.push(d1);
        new_funded.push(d2);
        new_funded.push(d3);
        to_fund.push(Distribution { from: funded[i], spends });
        i = i + 1;
    }
    proof {
        assert(forall|p: int|
            0 <= p < funded@.len() ==> spend_sum((#[trigger] to_fund@[p]).spends@) == 4
                * to_lamports) by {
            assert forall|p: int| 0 <= p < funded@.len() implies spend_sum(
                (#[trigger] to_fund@[p]).spends@,
            ) == 4 * to_lamports by {
                lemma_spend_sum_const(to_fund@[p].spends@, to_lamports);
            }
        }
    }
    (to_fund, new_funded)
}

/// The frontier of a funding run: who can spend, how much each of them
/// holds, and who still waits for funds.
pub struct FundingSchedule {
    pub funded: Vec<u64>,
    pub funded_funds: u64,
    pub not_funded: Vec<u64>,
}

impl FundingSchedule {
    /// Starts a run: only the source identity is funded, holding `total`,
    /// and every destination awaits funds.
    pub fn new(source: u64, total: u64, dests: Vec<u64>) -> (r: FundingSchedule)
        ensures
            r.funded@ == seq![source],
            r.funded_funds == total,
            r.not_funded@ == dests@,
    {
        let mut funded: Vec<u64> = Vec::new();
        funded.push(source);
        FundingSchedule { funded, funded_funds: total, not_funded: dests }
    }

    /// The run is complete once no identity awaits funds.
    pub fn is_complete(&self) -> (r: bool)
        ensures
            r == (self.not_funded@.len() == 0),
    {
        self.not_funded.len() == 0
    }

    /// Plans the next round and advances the frontier: the destinations of
    /// this round become the funded identities of the next, each holding the
    /// round amount.  The unfunded frontier strictly shrinks.
    pub fn next_round(&mut self, max_fee: u64, lamports_per_account: u64) -> (r: Vec<Distribution>)
        requires
            lamports_per_account + max_fee <= old(self).funded_funds,
            1 <= old(self).funded@.len(),
            4 * old(self).funded@.len() <= old(self).not_funded@.len(),
        ensures
            r@.len() == old(self).funded@.len(),
            forall|p: int|
                0 <= p < r@.len() ==> (#[trigger] r@[p]).from == old(self).funded@[p]
                    && r@[p].spends@.len() == 4,
            forall|p: int, j: int|
                0 <= p < r@.len() && 0 <= j < 4 ==> {
                    &&& (#[trigger] r@[p].spends@[j]).lamports == round_amount(
                        old(self).funded_funds,
                        max_fee,
                        lamports_per_account,
                    )
                    &&& r@[p].spends@[j].to == old(self).not_funded@[old(self).not_funded@.len() - 4
                        * (p + 1) + j]
                    &&& final(self).funded@[4 * p + j] == r@[p].spends@[j].to
                },
            forall|p: int|
                0 <= p < r@.len() ==> spend_sum((#[trigger] r@[p]).spends@) == 4 * round_amount(
                    old(self).funded_funds,
                    max_fee,
                    lamports_per_account,
                ),
            4 * round_amount(old(self).funded_funds, max_fee, lamports_per_account) <= old(
                self,
            ).funded_funds - lamports_per_account - max_fee,
            final(self).funded@.len() == 4 * old(self).funded@.len(),
            final(self).funded_funds == round_amount(
                old(self).funded_funds,
                max_fee,
                lamports_per_account,
            ),
            final(self).not_funded@ == old(self).not_funded@.subrange(
                0,
                old(self).not_funded@.len() - 4 * old(self).funded@.len(),
            ),
            final(self).not_funded@.len() < old(self).not_funded@.len(),
    {
        let funded_funds = self.funded_funds;
        let (to_fund, new_funded) = plan_round(
            &self.funded,
            &mut self.not_funded,
            funded_funds,
            max_fee,
            lamports_per_account,
        );
        let to_lamports = (funded_funds - lamports_per_account - max_fee) / 4;
        self.funded = new_funded;
        self.funded_funds = to_lamports;
        to_fund
    }
}

} // verus!
