//! Parimutuel payout calculator.
//!
//! Two payout formulas appear across the market variants and both are kept,
//! selected per variant: the proportional-of-total formula
//! `stake * (winning + losing) / winning` and the stake-plus-share formula
//! `stake + stake * losing / winning`. All division is integer floor
//! division; rounding dust stays in the pool. The lemmas at the end bound
//! the sum of every claimant's payout by the combined pool, so no payout
//! scheme can mint funds.

use vstd::prelude::*;
use vstd::arithmetic::div_mod::lemma_div_is_ordered;
use vstd::arithmetic::div_mod::lemma_div_multiples_vanish;
use vstd::arithmetic::div_mod::lemma_div_of0;
use vstd::arithmetic::div_mod::lemma_div_pos_is_pos;
use vstd::arithmetic::div_mod::lemma_fundamental_div_mod;
use vstd::arithmetic::div_mod::lemma_mod_division_less_than_divisor;
use vstd::arithmetic::mul::lemma_mul_is_distributive_add;
use vstd::arithmetic::mul::lemma_mul_is_distributive_add_other_way;
use vstd::arithmetic::mul::lemma_mul_inequality;
use vstd::arithmetic::mul::lemma_mul_is_commutative;
use vstd::arithmetic::mul::lemma_mul_nonnegative;
use vstd::seq_lib::*;

verus! {

/// A winner's share of `total` in proportion to their `stake` in the pool
/// `winning`, rounded down.
pub open spec fn share_of(stake: u64, winning: int, total: int) -> int {
    stake * total / winning
}

/// The sum of a sequence of stake amounts.
pub open spec fn sum64(s: Seq<u64>) -> int
    decreases s.len(),
{
    if s.len() == 0 {
        0
    } else {
        sum64(s.drop_last()) + s.last()
    }
}

/// The sum of the shares of `total` paid to a sequence of winning stakes
/// held against the pool `winning`.
pub open spec fn sum_shares(stakes: Seq<u64>, winning: int, total: int) -> int
    decreases stakes.len(),
{
    if stakes.len() == 0 {
        0
    } else {
        sum_shares(stakes.drop_last(), winning, total) + share_of(stakes.last(), winning, total)
    }
}

pub proof fn lemma_sum64_nonneg(s: Seq<u64>)
    ensures
        0 <= sum64(s),
    decreases s.len(),
{
    if s.len() > 0 {
        lemma_sum64_nonneg(s.drop_last());
    }
}

/// Appending one stake adds exactly that stake to the sum.
pub proof fn lemma_sum64_push(s: Seq<u64>, v: u64)
    ensures
        sum64(s.push(v)) == sum64(s) + v,
{
    assert(s.push(v).drop_last() =~= s);
    assert(s.push(v).last() == v);
}

/// Each stake is at most the sum of them all.
pub proof fn lemma_sum64_element_le(s: Seq<u64>, i: int)
    requires
        0 <= i < s.len(),
    ensures
        s[i] <= sum64(s),
    decreases s.len(),
{
    if i == s.len() - 1 {
        lemma_sum64_nonneg(s.drop_last());
    } else {
        lemma_sum64_element_le(s.drop_last(), i);
    }
}

/// Replacing the stake at one index changes the sum by the difference.
pub proof fn lemma_sum64_update(s: Seq<u64>, i: int, v: u64)
    requires
        0 <= i < s.len(),
    ensures
        sum64(s.update(i, v)) == sum64(s) - s[i] + v,
    decreases s.len(),
{
    if i == s.len() - 1 {
        assert(s.update(i, v).drop_last() =~= s.drop_last());
        assert(s.update(i, v).last() == v);
    } else {
        assert(s.update(i, v).drop_last() =~= s.drop_last().update(i, v));
        assert(s.update(i, v).last() == s.last());
        lemma_sum64_update(s.drop_last(), i, v);
    }
}

/// Floor division distributes over addition with a loss: the sum of two
/// quotients is at most the quotient of the sum.
pub proof fn lemma_div_add_le(a: int, b: int, d: int)
    requires
        0 <= a,
        0 <= b,
        0 < d,
    ensures
        a / d + b / d <= (a + b) / d,
{
    lemma_fundamental_div_mod(a, d);
    lemma_fundamental_div_mod(b, d);
    lemma_mod_division_less_than_divisor(a, d);
    lemma_mod_division_less_than_divisor(b, d);
    lemma_mul_is_distributive_add(d, a / d, b / d);
    assert(d * (a / d + b / d) <= a + b);
    lemma_div_is_ordered(d * (a / d + b / d), a + b, d);
    lemma_div_multiples_vanish(a / d + b / d, d);
}

/// The sum of all shares is at most the share of the summed stakes.
pub proof fn lemma_sum_shares_le(stakes: Seq<u64>, w: int, t: int)
    requires
        0 < w,
        0 <= t,
    ensures
        sum_shares(stakes, w, t) <= sum64(stakes) * t / w,
    decreases stakes.len(),
{
    if stakes.len() == 0 {
        lemma_div_of0(w);
        assert(sum64(stakes) * t == 0) by (nonlinear_arith)
            requires sum64(stakes) == 0;
    } else {
        let d = stakes.drop_last();
        let x = stakes.last();
        lemma_sum_shares_le(d, w, t);
        lemma_sum64_nonneg(d);
        lemma_mul_nonnegative(sum64(d), t);
        lemma_mul_nonnegative(x as int, t);
        lemma_div_add_le(sum64(d) * t, x * t, w);
        lemma_mul_is_distributive_add_other_way(t, sum64(d), x as int);
        assert(sum64(stakes) == sum64(d) + x);
    }
}

/// Payout boundedness for the proportional-of-total formula: if the winning
/// stakes together do not exceed the winning pool, the payouts
/// `floor(stake * (winning + losing) / winning)` together never exceed the
/// combined pool `winning + losing`.
pub proof fn lemma_payouts_bounded_proportional(stakes: Seq<u64>, winning: u64, losing: u64)
    requires
        winning > 0,
        sum64(stakes) <= winning,
    ensures
        sum_shares(stakes, winning as int, winning + losing) <= winning + losing,
{
    let t = winning + losing;
    lemma_sum_shares_le(stakes, winning as int, t);
    lemma_sum64_nonneg(stakes);
    lemma_mul_inequality(sum64(stakes), winning as int, t);
    lemma_div_is_ordered(sum64(stakes) * t, winning * t, winning as int);
    lemma_mul_is_commutative(winning as int, t);
    lemma_div_multiples_vanish(t, winning as int);
}

/// Payout boundedness for the proportional-of-total formula against a
/// stored pool total: if the winning stakes together do not exceed the
/// winning pool and the winning pool is itself part of the stored total,
/// the payouts `floor(stake * total / winning)` together never exceed the
/// total.
pub proof fn lemma_payouts_bounded_stored_total(stakes: Seq<u64>, winning: u64, total: u64)
    requires
        winning > 0,
        winning <= total,
        sum64(stakes) <= winning,
    ensures
        sum_shares(stakes, winning as int, total as int) <= total,
{
    lemma_sum_shares_le(stakes, winning as int, total as int);
    lemma_sum64_nonneg(stakes);
    lemma_mul_inequality(sum64(stakes), winning as int, total as int);
    lemma_div_is_ordered(sum64(stakes) * total, winning * total, winning as int);
    lemma_mul_is_commutative(winning as int, total as int);
    lemma_div_multiples_vanish(total as int, winning as int);
}

/// Payout boundedness for the stake-plus-share formula: if the winning
/// stakes together do not exceed the winning pool, the payouts
/// `stake + floor(stake * losing / winning)` together never exceed the
/// combined pool `winning + losing`.
pub proof fn lemma_payouts_bounded_stake_plus_share(stakes: Seq<u64>, winning: u64, losing: u64)
    requires
        winning > 0,
        sum64(stakes) <= winning,
    ensures
        sum64(stakes) + sum_shares(stakes, winning as int, losing as int) <= winning + losing,
{
    lemma_sum_shares_le(stakes, winning as int, losing as int);
    lemma_sum64_nonneg(stakes);
    lemma_mul_inequality(sum64(stakes), winning as int, losing as int);
    lemma_div_is_ordered(sum64(stakes) * losing, winning * losing, winning as int);
    lemma_mul_is_commutative(winning as int, losing as int);
    lemma_div_multiples_vanish(losing as int, winning as int);
}

/// Proportional-of-total payout: the claimant's proportional share of the
/// whole pool, `floor(stake * total / winning)`. `None` exactly when the
/// intermediate product overflows 64 bits.
pub fn payout_proportional(stake: u64, winning_pool: u64, total_pool: u64) -> (r: Option<u64>)
    requires
        winning_pool > 0,
    ensures
        r is Some <==> stake * total_pool <= u64::MAX,
        r matches Some(p) ==> p == share_of(stake, winning_pool as int, total_pool as int),
{
    match stake.checked_mul(total_pool) {
        Some(x) => {
            proof {
                lemma_mul_nonnegative(stake as int, total_pool as int);
                lemma_div_pos_is_pos(stake * total_pool, winning_pool as int);
                lemma_div_is_ordered(stake * total_pool, u64::MAX as int, winning_pool as int);
                lemma_div_pos_is_pos(u64::MAX as int, winning_pool as int);
            }
            Some(x / winning_pool)
        },
        None => None,
    }
}

/// Stake-plus-share payout: the stake returned plus a proportional share of
/// the losing pool, `stake + floor(stake * losing / winning)`. `None`
/// exactly when the intermediate product or the final sum overflows 64 bits.
pub fn payout_stake_plus_share(stake: u64, winning_pool: u64, losing_pool: u64) -> (r: Option<u64>)
    requires
        winning_pool > 0,
    ensures
        r is Some <==> stake * losing_pool <= u64::MAX && stake + share_of(
            stake,
            winning_pool as int,
            losing_pool as int,
        ) <= u64::MAX,
        r matches Some(p) ==> p == stake + share_of(
            stake,
            winning_pool as int,
            losing_pool as int,
        ),
{
    match stake.checked_mul(losing_pool) {
        Some(x) => {
            let sh = x / winning_pool;
            stake.checked_add(sh)
        },
        None => {
            proof {
                lemma_mul_nonnegative(stake as int, losing_pool as int);
                lemma_div_pos_is_pos(stake * losing_pool, winning_pool as int);
            }
            None
        },
    }
}

} // verus!
