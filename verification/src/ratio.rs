//! Reward ratios: percentages that add up to one hundred, and the shares of a
//! balance that they stand for.

use vstd::prelude::*;

verus! {

/// What the entries of a ratio table add up to.
pub const RATIO_TOTAL: u64 = 100;

/// How many entries a record has room for.
pub const MAX_RATIO_SLOTS: usize = 10;

/// The sum of a sequence of amounts.
pub open spec fn total(values: Seq<u64>) -> nat
    decreases values.len(),
{
    if values.len() == 0 {
        0
    } else {
        total(values.drop_last()) + values.last() as nat
    }
}

/// A ratio table is valid when it fits the record and its entries add up to
/// one hundred.
pub open spec fn valid_ratios(ratios: Seq<u64>) -> bool {
    &&& total(ratios) == RATIO_TOTAL
    &&& ratios.len() <= MAX_RATIO_SLOTS
}

/// The entries of a ratio table that may be absent.
pub open spec fn table_view(table: Option<Vec<u64>>) -> Option<Seq<u64>> {
    match table {
        Some(ratios) => Some(ratios@),
        None => None,
    }
}

/// The share of `balance` that a ratio of `ratio` percent stands for, rounded
/// down.
pub open spec fn share(balance: nat, ratio: nat) -> nat {
    (balance * ratio) / (RATIO_TOTAL as nat)
}

/// The shares of `balance` for each entry of a ratio table, in the table's
/// order.
pub open spec fn shares(balance: nat, ratios: Seq<u64>) -> Seq<u64> {
    Seq::new(ratios.len(), |i: int| share(balance, ratios[i] as nat) as u64)
}

/// The sum of the first `n` amounts plus the `n`-th is the sum of the first
/// `n + 1`.
pub proof fn lemma_total_take_step(values: Seq<u64>, n: int)
    requires
        0 <= n < values.len(),
    ensures
        total(values.take(n + 1)) == total(values.take(n)) + values[n],
{
    assert(values.take(n + 1).drop_last() =~= values.take(n));
}

/// A sum is at least the sum of any of its prefixes.
pub proof fn lemma_total_prefix(values: Seq<u64>, n: int)
    requires
        0 <= n <= values.len(),
    ensures
        total(values.take(n)) <= total(values),
    decreases values.len() - n,
{
    if n == values.len() {
        assert(values.take(n) =~= values);
    } else {
        lemma_total_take_step(values, n);
        lemma_total_prefix(values, n + 1);
    }
}

/// No entry is larger than the sum.
pub proof fn lemma_total_bounds_entry(values: Seq<u64>, i: int)
    requires
        0 <= i < values.len(),
    ensures
        values[i] <= total(values),
{
    lemma_total_take_step(values, i);
    lemma_total_prefix(values, i + 1);
}

/// Adds up `values` as long as the sum stays within `limit`.
///
/// Gives the sum when it is at most `limit`, and `None` when it is larger,
/// however large: the sum is never formed beyond `limit`.
pub fn total_within(values: &Vec<u64>, limit: u64) -> (sum: Option<u64>)
    ensures
        match sum {
            Some(t) => t == total(values@) && t <= limit,
            None => total(values@) > limit,
        },
{
    let mut acc: u64 = 0;
    let mut i: usize = 0;
    while i < values.len()
        invariant
            i <= values.len(),
            acc == total(values@.take(i as int)),
            acc <= limit,
        decreases values.len() - i,
    {
        proof {
            lemma_total_take_step(values@, i as int);
            lemma_total_prefix(values@, i + 1);
        }
        if values[i] > limit - acc {
            return None;
        }
        acc = acc + values[i];
        i += 1;
    }
    assert(values@.take(i as int) =~= values@);
    Some(acc)
}

/// Whether the entries of `ratios` add up to exactly one hundred.
pub fn sums_to_hundred(ratios: &Vec<u64>) -> (ok: bool)
    ensures
        ok == (total(ratios@) == RATIO_TOTAL),
{
    match total_within(ratios, RATIO_TOTAL) {
        Some(t) => t == RATIO_TOTAL,
        None => false,
    }
}

/// A share is never more than the balance it is taken from, as long as the
/// ratio is at most one hundred.
pub proof fn lemma_share_bounded(balance: nat, ratio: nat)
    requires
        ratio <= RATIO_TOTAL,
    ensures
        share(balance, ratio) <= balance,
{
    assert(balance * ratio <= balance * 100) by (nonlinear_arith)
        requires
            ratio <= 100,
    ;
}

/// The shares of a table account for the balance up to what rounding down
/// loses: less than one unit for each entry.
pub proof fn lemma_shares_account(balance: u64, ratios: Seq<u64>)
    requires
        forall|i: int| 0 <= i < ratios.len() ==> ratios[i] <= RATIO_TOTAL,
    ensures
        100 * total(shares(balance as nat, ratios)) <= balance * total(ratios),
        balance * total(ratios) <= 100 * total(shares(balance as nat, ratios)) + 99
            * ratios.len(),
    decreases ratios.len(),
{
    if ratios.len() > 0 {
        let init = ratios.drop_last();
        let last = ratios.last();
        lemma_shares_account(balance, init);
        assert(shares(balance as nat, ratios).drop_last() =~= shares(balance as nat, init));
        lemma_share_bounded(balance as nat, last as nat);
        assert(shares(balance as nat, ratios).last() == share(balance as nat, last as nat));
        assert(balance * total(ratios) == balance * total(init) + balance * last)
            by (nonlinear_arith)
            requires
                total(ratios) == total(init) + last,
        ;
    } else {
        assert(balance * total(ratios) == 0) by (nonlinear_arith)
            requires
                total(ratios) == 0,
        ;
    }
}

/// What a valid table pays out is never more than the balance, and what stays
/// behind is at most one unit less than the table has entries.
pub proof fn lemma_shares_remainder(balance: u64, ratios: Seq<u64>)
    requires
        total(ratios) == RATIO_TOTAL,
    ensures
        total(shares(balance as nat, ratios)) <= balance,
        balance - total(shares(balance as nat, ratios)) <= ratios.len() - 1,
{
    assert forall|i: int| 0 <= i < ratios.len() implies ratios[i] <= RATIO_TOTAL by {
        lemma_total_bounds_entry(ratios, i);
    }
    lemma_shares_account(balance, ratios);
}

/// The share of `balance` for one table entry: `balance * ratio / 100`,
/// rounded down. The product is formed in 128 bits, so it cannot overflow.
pub fn reward_amount(balance: u64, ratio: u64) -> (amount: u64)
    requires
        ratio <= RATIO_TOTAL,
    ensures
        amount == share(balance as nat, ratio as nat),
        amount <= balance,
{
    proof {
        lemma_share_bounded(balance as nat, ratio as nat);
        assert(0 <= balance * ratio <= u64::MAX * 100) by (nonlinear_arith)
            requires
                0 <= balance <= u64::MAX,
                0 <= ratio <= 100,
        ;
    }
    let product: u128 = (balance as u128) * (ratio as u128);
    let quotient: u128 = product / 100;
    quotient as u64
}

} // verus!
