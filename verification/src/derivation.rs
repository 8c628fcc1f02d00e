//! Deterministic identity derivation: sizing the covering set.
//!
//! Funding fans out by exactly four destinations per transaction, so the
//! number of identities actually derived is the smallest value of the series
//! `4 + 16 + ... + 4^k` that reaches the requested count.  Alongside it the
//! derivation reports how many identities exist only to pay fees at the
//! intermediate levels of the funding tree.

use vstd::prelude::*;

verus! {

/// Largest requested count the derivation accepts; keeps the running totals
/// within `u64` (the final total is at most four times the count).
pub const MAX_DERIVATION_COUNT: u64 = 0x3fff_ffff_ffff_ffff;

/// `4^k`.
pub open spec fn pow4(k: nat) -> nat
    decreases k,
{
    if k == 0 {
        1
    } else {
        4 * pow4((k - 1) as nat)
    }
}

/// Total identities after `k` levels of the funding tree: `4 + 16 + ... + 4^k`.
pub open spec fn series_total(k: nat) -> nat
    decreases k,
{
    if k == 0 {
        0
    } else {
        series_total((k - 1) as nat) + pow4(k)
    }
}

/// Fee-bearing overhead after `k` levels: `1 + 4 + ... + 4^(k-1)`.
pub open spec fn series_extra(k: nat) -> nat
    decreases k,
{
    if k == 0 {
        0
    } else {
        series_extra((k - 1) as nat) + pow4((k - 1) as nat)
    }
}

/// The closed forms that tie the series together:
/// `3 * series_total(k) + 4 == 4 * pow4(k)` and
/// `series_total(k) == 4 * series_extra(k)`.
pub proof fn lemma_series_shape(k: nat)
    ensures
        3 * series_total(k) + 4 == 4 * pow4(k),
        series_total(k) == 4 * series_extra(k),
    decreases k,
{
    if k > 0 {
        lemma_series_shape((k - 1) as nat);
    }
}

/// Each level adds at least one identity, so the totals strictly increase.
pub proof fn lemma_series_increasing(j: nat, k: nat)
    requires
        j < k,
    ensures
        series_total(j) < series_total(k),
    decreases k,
{
    lemma_series_shape(k);
    if j < k - 1 {
        lemma_series_increasing(j, (k - 1) as nat);
    }
}

/// Totals never shrink as levels are added.
pub proof fn lemma_series_monotonic(j: nat, k: nat)
    requires
        j <= k,
    ensures
        series_total(j) <= series_total(k),
{
    if j < k {
        lemma_series_increasing(j, k);
    }
}

/// A covering total fills every funding round exactly.  When `pow4(j)`
/// identities are funded and the identities of levels `j + 1 ..= k` await
/// funds, the round has enough destinations for its full fan-out, and
/// taking them leaves exactly the levels `j + 2 ..= k` waiting.
pub proof fn lemma_tree_round(j: nat, k: nat)
    requires
        j < k,
    ensures
        series_total(k) - series_total(j) >= 4 * pow4(j),
        series_total(k) - series_total(j) - 4 * pow4(j) == series_total(k) - series_total(
            (j + 1) as nat,
        ),
        pow4((j + 1) as nat) == 4 * pow4(j),
{
    assert(series_total((j + 1) as nat) == series_total(j) + pow4((j + 1) as nat));
    assert(pow4((j + 1) as nat) == 4 * pow4(j));
    lemma_series_monotonic((j + 1) as nat, k);
}

/// The covering total is the least value of the series reaching `count`:
/// whenever level `k` covers `count` but level `k - 1` does not, every other
/// covering level yields at least as many identities.
pub proof fn lemma_total_is_least(count: nat, k: nat, j: nat)
    requires
        series_total(k) >= count,
        k > 0 ==> series_total((k - 1) as nat) < count,
        series_total(j) >= count,
    ensures
        series_total(k) <= series_total(j),
{
    if j < k {
        if k > 0 && j < k - 1 {
            lemma_series_increasing(j, (k - 1) as nat);
        }
        assert(series_total(j) < count);
    } else if k < j {
        lemma_series_increasing(k, j);
    }
}

/// Sizes the derived identity set for a requested `count`.
///
/// Returns `(total, extra)`: `total` identities must be derived so that a
/// full 4-ary funding tree covers `count` leaves, and `extra` of them exist
/// only to carry transaction fees at the intermediate levels.
pub fn derivation_counts(count: u64) -> (r: (u64, u64))
    requires
        count <= MAX_DERIVATION_COUNT,
    ensures
        r.0 >= count,
        r.0 == 4 * r.1,
        count == 0 ==> r.0 == 0,
        exists|k: nat|
            (#[trigger] series_total(k)) == r.0 && series_extra(k) == r.1 && (k > 0
                ==> series_total((k - 1) as nat) < count),
{
    let mut extra: u64 = 0;
    let mut delta: u64 = 1;
    let mut total: u64 = 0;
    let ghost mut k: nat = 0;
    while total < count
        invariant
            count <= MAX_DERIVATION_COUNT,
            delta == pow4(k),
            total == series_total(k),
            extra == series_extra(k),
            3 * total + 4 == 4 * delta,
            total == 4 * extra,
            k > 0 ==> series_total((k - 1) as nat) < count,
        decreases count - extra,
    {
        extra = extra + delta;
        delta = delta * 4;
        total = total + delta;
        proof {
            k = k + 1;
        }
    }
    proof {
        assert(series_total(k) == total && series_extra(k) == extra && (k > 0 ==> series_total(
            (k - 1) as nat,
        ) < count));
    }
    (total, extra)
}

} // verus!
