//! Flat payment fee splitter.
//!
//! Settles direct payments: each payment, identified by a one-time payment
//! id, is split into a recipient amount and a platform fee at a basis-point
//! rate capped at 10%. A payment id is accepted at most once. The caller
//! performs the transfers; the facilitator keeps the ledger of used ids and
//! accumulated fees.

use vstd::prelude::*;
use vstd::arithmetic::div_mod::lemma_div_pos_is_pos;
use vstd::arithmetic::mul::lemma_mul_nonnegative;
use crate::fee::compute_fee;
use crate::fee::fee_of;
use crate::fee::net_of;
use crate::fee::lemma_fee_correct;

verus! {

#[derive(Clone, Copy, Debug, PartialEq, Eq, Structural)]
pub enum PaymentFacilitatorError {
    InvalidFee,
    InvalidAmount,
    PaymentUsed,
    Overflow,
    InvalidBatch,
    InvalidBatchSize,
    Unauthorized,
    NoFees,
}

/// The facilitator's ledger: the administrator, the fee rate in basis
/// points, fees collected and not yet withdrawn, and every payment id ever
/// accepted.
pub struct PaymentFacilitator {
    pub authority: u64,
    pub platform_fee_bps: u16,
    pub accumulated_fees: u64,
    pub used_payments: Vec<u64>,
}

/// The fee rate never exceeds the deployment's 10% ceiling; established at
/// initialization and preserved by every operation.
pub open spec fn facilitator_wf(f: PaymentFacilitator) -> bool {
    f.platform_fee_bps <= 1000
}

/// The combined fee taken from a sequence of payment amounts.
pub open spec fn sum_fees(amounts: Seq<u64>, rate_bps: u16) -> int
    decreases amounts.len(),
{
    if amounts.len() == 0 {
        0
    } else {
        sum_fees(amounts.drop_last(), rate_bps) + fee_of(amounts.last(), rate_bps)
    }
}

/// A prefix never carries more fees than the whole sequence.
pub proof fn lemma_sum_fees_prefix_le(amounts: Seq<u64>, rate_bps: u16, i: int)
    requires
        0 <= i <= amounts.len(),
    ensures
        sum_fees(amounts.take(i), rate_bps) <= sum_fees(amounts, rate_bps),
    decreases amounts.len() - i,
{
    if i == amounts.len() {
        assert(amounts.take(i) =~= amounts);
    } else {
        assert(amounts.take(i + 1).drop_last() =~= amounts.take(i));
        assert(amounts.take(i + 1).last() == amounts[i]);
        lemma_mul_nonnegative(amounts[i] as int, rate_bps as int);
        lemma_div_pos_is_pos(amounts[i] * rate_bps, 10000);
        lemma_sum_fees_prefix_le(amounts, rate_bps, i + 1);
    }
}

/// No id in `ids` has been used before.
pub open spec fn ids_fresh(used: Seq<u64>, ids: Seq<u64>) -> bool {
    forall|i: int| 0 <= i < ids.len() ==> !used.contains(#[trigger] ids[i])
}

/// No id appears twice in `ids`.
pub open spec fn ids_distinct(ids: Seq<u64>) -> bool {
    forall|i: int, j: int| 0 <= i < j < ids.len() ==> ids[i] != ids[j]
}

/// Whether the ledger already holds a payment id.
fn contains_payment(used: &Vec<u64>, id: u64) -> (r: bool)
    ensures
        r == used@.contains(id),
{
    let n = used.len();
    let mut i: usize = 0;
    while i < n
        invariant
            n == used@.len(),
            i <= n,
            forall|j: int| 0 <= j < i ==> used@[j] != id,
        decreases n - i,
    {
        if used[i] == id {
            return true;
        }
        i = i + 1;
    }
    false
}

/// Sets up the facilitator: the administrator and the fee rate, rejected
/// above the 10% ceiling.
pub fn initialize(authority: u64, platform_fee_bps: u16) -> (r: Result<
    PaymentFacilitator,
    PaymentFacilitatorError,
>)
    ensures
        r is Ok <==> platform_fee_bps <= 1000,
        r == Err::<PaymentFacilitator, PaymentFacilitatorError>(PaymentFacilitatorError::InvalidFee)
            <==> platform_fee_bps > 1000,
        r matches Ok(f) ==> f == (PaymentFacilitator {
            authority,
            platform_fee_bps,
            accumulated_fees: 0,
            used_payments: f.used_payments,
        }) && f.used_payments@ == Seq::<u64>::empty() && facilitator_wf(f),
{
    if platform_fee_bps > 1000 {
        return Err(PaymentFacilitatorError::InvalidFee);
    }
    Ok(
        PaymentFacilitator {
            authority,
            platform_fee_bps,
            accumulated_fees: 0,
            used_payments: Vec::new(),
        },
    )
}

/// Settles one payment: splits `amount` into the recipient's amount and
/// the platform fee, records the one-time payment id, and adds the fee to
/// the ledger. Returns `(recipient_amount, fee)`; the caller performs both
/// transfers. The whole operation applies or nothing does.
pub fn settle_payment(f: &mut PaymentFacilitator, amount: u64, payment_id: u64) -> (r: Result<
    (u64, u64),
    PaymentFacilitatorError,
>)
    requires
        facilitator_wf(*old(f)),
    ensures
        r is Ok <==> amount > 0 && !old(f).used_payments@.contains(payment_id) && old(
            f,
        ).accumulated_fees + fee_of(amount, old(f).platform_fee_bps) <= u64::MAX,
        r == Err::<(u64, u64), PaymentFacilitatorError>(PaymentFacilitatorError::InvalidAmount)
            <==> amount == 0,
        r == Err::<(u64, u64), PaymentFacilitatorError>(PaymentFacilitatorError::PaymentUsed)
            <==> amount > 0 && old(f).used_payments@.contains(payment_id),
        r == Err::<(u64, u64), PaymentFacilitatorError>(PaymentFacilitatorError::Overflow) <==>
            amount > 0 && !old(f).used_payments@.contains(payment_id) && old(f).accumulated_fees
            + fee_of(amount, old(f).platform_fee_bps) > u64::MAX,
        r is Err ==> *final(f) == *old(f),
        r matches Ok(p) ==> {
            &&& p.1 == fee_of(amount, old(f).platform_fee_bps)
            &&& p.0 == net_of(amount, old(f).platform_fee_bps)
            &&& p.0 + p.1 == amount
            &&& final(f).used_payments@ == old(f).used_payments@.push(payment_id)
            &&& final(f).accumulated_fees == old(f).accumulated_fees + fee_of(
                amount,
                old(f).platform_fee_bps,
            )
            &&& final(f).authority == old(f).authority
            &&& final(f).platform_fee_bps == old(f).platform_fee_bps
            &&& facilitator_wf(*final(f))
        },
{
    if amount == 0 {
        return Err(PaymentFacilitatorError::InvalidAmount);
    }
    if contains_payment(&f.used_payments, payment_id) {
        return Err(PaymentFacilitatorError::PaymentUsed);
    }
    proof {
        lemma_fee_correct(amount, f.platform_fee_bps);
    }
    let (recipient_amount, fee) = match compute_fee(amount, f.platform_fee_bps) {
        Some(p) => p,
        None => {
            return Err(PaymentFacilitatorError::Overflow);
        },
    };
    let new_fees = match f.accumulated_fees.checked_add(fee) {
        Some(v) => v,
        None => {
            return Err(PaymentFacilitatorError::Overflow);
        },
    };
    f.used_payments.push(payment_id);
    f.accumulated_fees = new_fees;
    Ok((recipient_amount, fee))
}

/// Settles a batch of payments, all or nothing: every amount must be
/// positive and every payment id unused and unrepeated, or no record
/// changes. Returns the recipient amounts and the combined fee; the caller
/// performs the transfers.
pub fn batch_settle_payments(
    f: &mut PaymentFacilitator,
    amounts: Vec<u64>,
    recipients: Vec<u64>,
    payment_ids: Vec<u64>,
) -> (r: Result<(Vec<u64>, u64), PaymentFacilitatorError>)
    requires
        facilitator_wf(*old(f)),
    ensures
        r is Ok <==> {
            &&& amounts@.len() == recipients@.len()
            &&& amounts@.len() == payment_ids@.len()
            &&& 1 <= amounts@.len() <= 20
            &&& forall|i: int| 0 <= i < amounts@.len() ==> #[trigger] amounts@[i] > 0
            &&& ids_fresh(old(f).used_payments@, payment_ids@)
            &&& ids_distinct(payment_ids@)
            &&& old(f).accumulated_fees + sum_fees(amounts@, old(f).platform_fee_bps) <= u64::MAX
        },
        r == Err::<(Vec<u64>, u64), PaymentFacilitatorError>(PaymentFacilitatorError::InvalidBatch)
            <==> !(amounts@.len() == recipients@.len() && amounts@.len() == payment_ids@.len()),
        r == Err::<(Vec<u64>, u64), PaymentFacilitatorError>(
            PaymentFacilitatorError::InvalidBatchSize,
        ) <==> amounts@.len() == recipients@.len() && amounts@.len() == payment_ids@.len() && !(1
            <= amounts@.len() <= 20),
        r == Err::<(Vec<u64>, u64), PaymentFacilitatorError>(PaymentFacilitatorError::InvalidAmount)
            ==> exists|i: int| 0 <= i < amounts@.len() && #[trigger] amounts@[i] == 0,
        r == Err::<(Vec<u64>, u64), PaymentFacilitatorError>(PaymentFacilitatorError::PaymentUsed)
            ==> !(ids_fresh(old(f).used_payments@, payment_ids@) && ids_distinct(payment_ids@)),
        r == Err::<(Vec<u64>, u64), PaymentFacilitatorError>(PaymentFacilitatorError::Overflow)
            <==> {
            &&& amounts@.len() == recipients@.len()
            &&& amounts@.len() == payment_ids@.len()
            &&& 1 <= amounts@.len() <= 20
            &&& forall|i: int| 0 <= i < amounts@.len() ==> #[trigger] amounts@[i] > 0
            &&& ids_fresh(old(f).used_payments@, payment_ids@)
            &&& ids_distinct(payment_ids@)
            &&& old(f).accumulated_fees + sum_fees(amounts@, old(f).platform_fee_bps) > u64::MAX
        },
        r is Err ==> *final(f) == *old(f),
        r matches Ok(p) ==> {
            &&& p.0@.len() == amounts@.len()
            &&& forall|i: int|
                0 <= i < amounts@.len() ==> #[trigger] p.0@[i] == net_of(
                    amounts@[i],
                    old(f).platform_fee_bps,
                )
            &&& p.1 == sum_fees(amounts@, old(f).platform_fee_bps)
            &&& final(f).used_payments@ == old(f).used_payments@ + payment_ids@
            &&& final(f).accumulated_fees == old(f).accumulated_fees + sum_fees(
                amounts@,
                old(f).platform_fee_bps,
            )
            &&& final(f).authority == old(f).authority
            &&& final(f).platform_fee_bps == old(f).platform_fee_bps
            &&& facilitator_wf(*final(f))
        },
{
    let n = amounts.len();
    if n != recipients.len() || n != payment_ids.len() {
        return Err(PaymentFacilitatorError::InvalidBatch);
    }
    if n == 0 || n > 20 {
        return Err(PaymentFacilitatorError::InvalidBatchSize);
    }
    let mut i: usize = 0;
    while i < n
        invariant
            n == amounts@.len(),
            n == recipients@.len(),
            n == payment_ids@.len(),
            1 <= n <= 20,
            i <= n,
            facilitator_wf(*f),
            *f == *old(f),
            forall|j: int| 0 <= j < i ==> #[trigger] amounts@[j] > 0,
            forall|j: int| 0 <= j < i ==> !old(f).used_payments@.contains(#[trigger] payment_ids@[j]),
            forall|j1: int, j2: int| 0 <= j1 < j2 < i ==> payment_ids@[j1] != payment_ids@[j2],
        decreases n - i,
    {
        if amounts[i] == 0 {
            return Err(PaymentFacilitatorError::InvalidAmount);
        }
        if contains_payment(&f.used_payments, payment_ids[i]) {
            return Err(PaymentFacilitatorError::PaymentUsed);
        }
        let mut j: usize = 0;
        while j < i
            invariant
                n == amounts@.len(),
                n == recipients@.len(),
                n == payment_ids@.len(),
                1 <= n <= 20,
                i < n,
                j <= i,
                forall|k: int| 0 <= k < j ==> payment_ids@[k] != payment_ids@[i as int],
            decreases i - j,
        {
            if payment_ids[j] == payment_ids[i] {
                return Err(PaymentFacilitatorError::PaymentUsed);
            }
            j = j + 1;
        }
        i = i + 1;
    }
    let mut total_fee: u64 = 0;
    let mut fees: Vec<u64> = Vec::new();
    let mut i: usize = 0;
    while i < n
        invariant
            n == amounts@.len(),
            n == recipients@.len(),
            n == payment_ids@.len(),
            1 <= n <= 20,
            i <= n,
            facilitator_wf(*f),
            *f == *old(f),
            forall|j: int| 0 <= j < n ==> #[trigger] amounts@[j] > 0,
            ids_fresh(old(f).used_payments@, payment_ids@),
            ids_distinct(payment_ids@),
            fees@.len() == i,
            forall|j: int|
                0 <= j < i ==> #[trigger] fees@[j] == fee_of(amounts@[j], old(f).platform_fee_bps),
            total_fee == sum_fees(amounts@.take(i as int), old(f).platform_fee_bps),
        decreases n - i,
    {
        proof {
            assert(amounts@.take(i + 1).drop_last() =~= amounts@.take(i as int));
            assert(amounts@.take(i + 1).last() == amounts@[i as int]);
            lemma_fee_correct(amounts@[i as int], f.platform_fee_bps);
        }
        let fee = match compute_fee(amounts[i], f.platform_fee_bps) {
            Some(p) => p.1,
            None => {
                return Err(PaymentFacilitatorError::Overflow);
            },
        };
        fees.push(fee);
        total_fee = match total_fee.checked_add(fee) {
            Some(v) => v,
            None => {
                proof {
                    lemma_sum_fees_prefix_le(amounts@, f.platform_fee_bps, i + 1);
                }
                return Err(PaymentFacilitatorError::Overflow);
            },
        };
        i = i + 1;
    }
    proof {
        assert(amounts@.take(n as int) =~= amounts@);
    }
    let new_fees = match f.accumulated_fees.checked_add(total_fee) {
        Some(v) => v,
        None => {
            return Err(PaymentFacilitatorError::Overflow);
        },
    };
    let mut outs: Vec<u64> = Vec::new();
    let mut i: usize = 0;
    while i < n
        invariant
            n == amounts@.len(),
            n == payment_ids@.len(),
            i <= n,
            facilitator_wf(*f),
            fees@.len() == n,
            forall|j: int|
                0 <= j < n ==> #[trigger] fees@[j] == fee_of(amounts@[j], old(f).platform_fee_bps),
            forall|j: int| 0 <= j < n ==> #[trigger] amounts@[j] > 0,
            f.platform_fee_bps == old(f).platform_fee_bps,
            f.authority == old(f).authority,
            f.accumulated_fees == old(f).accumulated_fees,
            f.used_payments@ == old(f).used_payments@ + payment_ids@.take(i as int),
            outs@.len() == i,
            forall|j: int|
                0 <= j < i ==> #[trigger] outs@[j] == net_of(amounts@[j], old(f).platform_fee_bps),
        decreases n - i,
    {
        proof {
            lemma_fee_correct(amounts@[i as int], f.platform_fee_bps);
            assert(old(f).used_payments@ + payment_ids@.take(i + 1) =~= (old(f).used_payments@
                + payment_ids@.take(i as int)).push(payment_ids@[i as int]));
        }
        outs.push(amounts[i] - fees[i]);
        f.used_payments.push(payment_ids[i]);
        i = i + 1;
    }
    proof {
        assert(old(f).used_payments@ + payment_ids@.take(n as int) =~= old(f).used_payments@
            + payment_ids@);
    }
    f.accumulated_fees = new_fees;
    Ok((outs, total_fee))
}

/// Releases the accumulated fees to the administrator; the caller transfers
/// the returned amount.
pub fn withdraw_fees(f: &mut PaymentFacilitator, caller: u64) -> (r: Result<
    u64,
    PaymentFacilitatorError,
>)
    ensures
        r is Ok <==> caller == old(f).authority && old(f).accumulated_fees > 0,
        r == Err::<u64, PaymentFacilitatorError>(PaymentFacilitatorError::Unauthorized) <==> caller
            != old(f).authority,
        r == Err::<u64, PaymentFacilitatorError>(PaymentFacilitatorError::NoFees) <==> caller
            == old(f).authority && old(f).accumulated_fees == 0,
        r is Err ==> *final(f) == *old(f),
        r matches Ok(amount) ==> amount == old(f).accumulated_fees && final(f).accumulated_fees
            == 0 && final(f).authority == old(f).authority && final(f).platform_fee_bps == old(
            f,
        ).platform_fee_bps && final(f).used_payments == old(f).used_payments,
{
    if caller != f.authority {
        return Err(PaymentFacilitatorError::Unauthorized);
    }
    let amount = f.accumulated_fees;
    if amount == 0 {
        return Err(PaymentFacilitatorError::NoFees);
    }
    f.accumulated_fees = 0;
    Ok(amount)
}

/// Changes the fee rate, still capped at the 10% ceiling; administrator
/// only.
pub fn update_platform_fee(f: &mut PaymentFacilitator, caller: u64, new_fee_bps: u16) -> (r: Result<
    (),
    PaymentFacilitatorError,
>)
    ensures
        r is Ok <==> caller == old(f).authority && new_fee_bps <= 1000,
        r == Err::<(), PaymentFacilitatorError>(PaymentFacilitatorError::Unauthorized) <==> caller
            != old(f).authority,
        r == Err::<(), PaymentFacilitatorError>(PaymentFacilitatorError::InvalidFee) <==> caller
            == old(f).authority && new_fee_bps > 1000,
        r is Err ==> *final(f) == *old(f),
        r is Ok ==> final(f).platform_fee_bps == new_fee_bps && final(f).authority == old(
            f,
        ).authority && final(f).accumulated_fees == old(f).accumulated_fees && final(f).used_payments == old(f).used_payments && facilitator_wf(*final(f)),
{
    if caller != f.authority {
        return Err(PaymentFacilitatorError::Unauthorized);
    }
    if new_fee_bps > 1000 {
        return Err(PaymentFacilitatorError::InvalidFee);
    }
    f.platform_fee_bps = new_fee_bps;
    Ok(())
}

} // verus!
