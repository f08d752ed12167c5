//! Fixed-point fee calculator: splits a gross amount into a net amount and a
//! protocol fee at a rate given in basis points (1/10000).

use vstd::prelude::*;
use vstd::arithmetic::div_mod::lemma_div_is_ordered;
use vstd::arithmetic::div_mod::lemma_div_multiples_vanish;
use vstd::arithmetic::div_mod::lemma_div_pos_is_pos;
use vstd::arithmetic::mul::lemma_mul_inequality;
use vstd::arithmetic::mul::lemma_mul_nonnegative;
use vstd::arithmetic::mul::lemma_mul_upper_bound;

verus! {

/// The fee taken from `gross` at `rate_bps` basis points:
/// `floor(gross * rate_bps / 10000)`.
pub open spec fn fee_of(gross: u64, rate_bps: u16) -> int {
    gross * rate_bps / 10000
}

/// The net amount left of `gross` once the fee is taken.
pub open spec fn net_of(gross: u64, rate_bps: u16) -> int {
    gross - fee_of(gross, rate_bps)
}

/// Fee correctness: for any rate of at most 10000 basis points (100%), the
/// fee is `floor(gross * rate_bps / 10000)`, it never exceeds the gross
/// amount, and fee plus net give back exactly the gross amount.
pub proof fn lemma_fee_correct(gross: u64, rate_bps: u16)
    requires
        rate_bps <= 10000,
    ensures
        0 <= fee_of(gross, rate_bps) <= gross,
        fee_of(gross, rate_bps) == gross * rate_bps / 10000,
        net_of(gross, rate_bps) + fee_of(gross, rate_bps) == gross,
{
    lemma_mul_nonnegative(gross as int, rate_bps as int);
    lemma_div_pos_is_pos(gross * rate_bps, 10000);
    lemma_mul_inequality(rate_bps as int, 10000, gross as int);
    assert(gross * rate_bps == rate_bps * gross) by (nonlinear_arith);
    assert(gross * 10000 == 10000 * gross) by (nonlinear_arith);
    lemma_div_is_ordered(gross * rate_bps, gross * 10000, 10000);
    lemma_div_multiples_vanish(gross as int, 10000);
}

/// Splits `gross` into `(net, fee)` with `fee = floor(gross*rate_bps/10000)`,
/// computed through a 128-bit intermediate so the multiplication cannot
/// overflow. Returns `None` exactly when the fee would exceed the gross
/// amount (only possible for rates above 10000 basis points), in which case
/// the subtraction would underflow.
pub fn compute_fee(gross: u64, rate_bps: u16) -> (r: Option<(u64, u64)>)
    ensures
        r is Some <==> fee_of(gross, rate_bps) <= gross,
        r matches Some(p) ==> p.1 == fee_of(gross, rate_bps),
        r matches Some(p) ==> p.0 == net_of(gross, rate_bps),
        r matches Some(p) ==> p.0 + p.1 == gross,
{
    proof {
        lemma_mul_nonnegative(gross as int, rate_bps as int);
        lemma_mul_upper_bound(gross as int, u64::MAX as int, rate_bps as int, u16::MAX as int);
        lemma_div_pos_is_pos(gross * rate_bps, 10000);
    }
    let wide: u128 = (gross as u128) * (rate_bps as u128) / 10000;
    if wide > gross as u128 {
        None
    } else {
        let f: u64 = wide as u64;
        Some((gross - f, f))
    }
}

} // verus!
