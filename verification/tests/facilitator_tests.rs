use parimutuel::facilitator::batch_settle_payments;
use parimutuel::facilitator::initialize;
use parimutuel::facilitator::settle_payment;
use parimutuel::facilitator::update_platform_fee;
use parimutuel::facilitator::withdraw_fees;
use parimutuel::facilitator::PaymentFacilitatorError;

const ADMIN: u64 = 1;

#[test]
fn facilitator_rejects_fee_above_ceiling() {
    assert!(matches!(initialize(ADMIN, 1001), Err(PaymentFacilitatorError::InvalidFee)));
    assert!(initialize(ADMIN, 1000).is_ok());
}

#[test]
fn facilitator_settles_one_payment() {
    // 1% of 10000 is 100; the recipient gets 9900
    let mut f = initialize(ADMIN, 100).unwrap();
    let (recipient_amount, fee) = settle_payment(&mut f, 10000, 7).unwrap();
    assert_eq!(fee, 100);
    assert_eq!(recipient_amount, 9900);
    assert_eq!(f.accumulated_fees, 100);
    assert_eq!(f.used_payments, vec![7]);
}

#[test]
fn facilitator_payment_id_accepted_at_most_once() {
    let mut f = initialize(ADMIN, 100).unwrap();
    settle_payment(&mut f, 10000, 7).unwrap();
    assert!(matches!(settle_payment(&mut f, 500, 7), Err(PaymentFacilitatorError::PaymentUsed)));
    assert_eq!(f.accumulated_fees, 100);
    assert!(matches!(settle_payment(&mut f, 0, 8), Err(PaymentFacilitatorError::InvalidAmount)));
}

#[test]
fn facilitator_batch_settles_payments() {
    let mut f = initialize(ADMIN, 250).unwrap();
    let (outs, total_fee) = batch_settle_payments(
        &mut f,
        vec![10000, 4000],
        vec![21, 22],
        vec![101, 102],
    )
    .unwrap();
    // 2.5%: fees 250 and 100
    assert_eq!(outs, vec![9750, 3900]);
    assert_eq!(total_fee, 350);
    assert_eq!(f.accumulated_fees, 350);
    assert_eq!(f.used_payments, vec![101, 102]);
}

#[test]
fn facilitator_batch_validation() {
    let mut f = initialize(ADMIN, 250).unwrap();
    assert!(matches!(
        batch_settle_payments(&mut f, vec![100], vec![21, 22], vec![101]),
        Err(PaymentFacilitatorError::InvalidBatch)
    ));
    assert!(matches!(
        batch_settle_payments(&mut f, vec![], vec![], vec![]),
        Err(PaymentFacilitatorError::InvalidBatchSize)
    ));
    assert!(matches!(
        batch_settle_payments(&mut f, vec![100, 0], vec![21, 22], vec![101, 102]),
        Err(PaymentFacilitatorError::InvalidAmount)
    ));
    // a duplicate id inside the batch is rejected whole
    assert!(matches!(
        batch_settle_payments(&mut f, vec![100, 200], vec![21, 22], vec![101, 101]),
        Err(PaymentFacilitatorError::PaymentUsed)
    ));
    assert_eq!(f.accumulated_fees, 0);
    assert!(f.used_payments.is_empty());
    // an id used by an earlier settlement is rejected too
    settle_payment(&mut f, 100, 101).unwrap();
    assert!(matches!(
        batch_settle_payments(&mut f, vec![100, 200], vec![21, 22], vec![101, 102]),
        Err(PaymentFacilitatorError::PaymentUsed)
    ));
}

#[test]
fn facilitator_withdraw_and_update_fee() {
    let mut f = initialize(ADMIN, 100).unwrap();
    settle_payment(&mut f, 10000, 7).unwrap();
    assert!(matches!(withdraw_fees(&mut f, 2), Err(PaymentFacilitatorError::Unauthorized)));
    assert_eq!(withdraw_fees(&mut f, ADMIN).unwrap(), 100);
    assert!(matches!(withdraw_fees(&mut f, ADMIN), Err(PaymentFacilitatorError::NoFees)));
    assert!(matches!(
        update_platform_fee(&mut f, 2, 500),
        Err(PaymentFacilitatorError::Unauthorized)
    ));
    assert!(matches!(
        update_platform_fee(&mut f, ADMIN, 1001),
        Err(PaymentFacilitatorError::InvalidFee)
    ));
    update_platform_fee(&mut f, ADMIN, 500).unwrap();
    assert_eq!(f.platform_fee_bps, 500);
}

#[test]
fn facilitator_overflow_rejected_whole() {
    let mut f = initialize(ADMIN, 100).unwrap();
    f.accumulated_fees = u64::MAX;
    assert!(matches!(
        settle_payment(&mut f, 10000, 7),
        Err(PaymentFacilitatorError::Overflow)
    ));
    assert!(f.used_payments.is_empty());
    assert!(matches!(
        batch_settle_payments(&mut f, vec![10000, 10000], vec![21, 22], vec![101, 102]),
        Err(PaymentFacilitatorError::Overflow)
    ));
    assert!(f.used_payments.is_empty());
    assert_eq!(f.accumulated_fees, u64::MAX);
}

#[test]
fn facilitator_batch_size_boundaries() {
    let mut f = initialize(ADMIN, 0).unwrap();
    let amounts: Vec<u64> = (0..20).map(|_| 100).collect();
    let recipients: Vec<u64> = (0..20).collect();
    let ids: Vec<u64> = (1000..1020).collect();
    assert!(batch_settle_payments(&mut f, amounts, recipients, ids).is_ok());
    let amounts: Vec<u64> = (0..21).map(|_| 100).collect();
    let recipients: Vec<u64> = (0..21).collect();
    let ids: Vec<u64> = (2000..2021).collect();
    assert!(matches!(
        batch_settle_payments(&mut f, amounts, recipients, ids),
        Err(PaymentFacilitatorError::InvalidBatchSize)
    ));
}
