use parimutuel::conditional::check_parent_market;
use parimutuel::conditional::claim_winnings;
use parimutuel::conditional::create_market;
use parimutuel::conditional::get_refund;
use parimutuel::conditional::initialize;
use parimutuel::conditional::resolve_market;
use parimutuel::conditional::take_position;
use parimutuel::conditional::MarketError;
use parimutuel::conditional::MarketStatus;
use parimutuel::conditional::ParentMarketOutcome;
use parimutuel::conditional::Position;

fn empty_position() -> Position {
    Position { yes_amount: 0, no_amount: 0, claimed: false }
}

#[test]
fn conditional_parent_fails_and_participants_are_refunded() {
    // parent resolves to the non-required outcome: the market transitions to
    // ConditionNotMet and a participant's refund is exactly their combined
    // yes+no net stake, unaffected by the fee already deducted.
    let mut state = initialize(1, 200);
    let (_, mut market) = create_market(&mut state, "if X then Y?".to_string(), 5, 1, 10).unwrap();
    let mut p = empty_position();
    take_position(&state, &mut market, &mut p, 1000, true).unwrap();
    take_position(&state, &mut market, &mut p, 500, false).unwrap();
    assert_eq!(p.yes_amount, 980);
    assert_eq!(p.no_amount, 490);

    check_parent_market(&mut market, &ParentMarketOutcome { outcome: 0, resolved: true }).unwrap();
    assert!(market.status == MarketStatus::ConditionNotMet);

    assert_eq!(get_refund(&market, &mut p).unwrap(), 1470);
    assert!(matches!(get_refund(&market, &mut p), Err(MarketError::AlreadyClaimed)));

    // terminal: no further stakes, no resolution
    let mut q = empty_position();
    assert!(matches!(
        take_position(&state, &mut market, &mut q, 100, true),
        Err(MarketError::MarketNotActive)
    ));
    assert!(matches!(resolve_market(&mut market, true, 99), Err(MarketError::CannotResolve)));
}

#[test]
fn conditional_parent_met_and_winner_claims() {
    let mut state = initialize(1, 200);
    let (_, mut market) = create_market(&mut state, "if X then Y?".to_string(), 5, 1, 10).unwrap();
    let mut a = empty_position();
    let mut b = empty_position();
    take_position(&state, &mut market, &mut a, 1000, true).unwrap();
    take_position(&state, &mut market, &mut b, 500, false).unwrap();

    check_parent_market(&mut market, &ParentMarketOutcome { outcome: 1, resolved: true }).unwrap();
    assert!(market.status == MarketStatus::ParentUnresolved);

    resolve_market(&mut market, true, 99).unwrap();
    assert!(market.status == MarketStatus::Resolved);
    assert!(market.final_outcome);

    // 980 + 980*490/980 = 1470
    assert_eq!(claim_winnings(&market, &mut a).unwrap(), 1470);
    assert!(matches!(claim_winnings(&market, &mut a), Err(MarketError::AlreadyClaimed)));
    assert!(matches!(claim_winnings(&market, &mut b), Err(MarketError::NotWinner)));
    assert!(matches!(get_refund(&market, &mut b), Err(MarketError::NotCancelled)));
}

#[test]
fn conditional_create_validation() {
    let mut state = initialize(1, 200);
    assert!(matches!(
        create_market(&mut state, String::new(), 5, 1, 10),
        Err(MarketError::InvalidQuestion)
    ));
    assert!(matches!(
        create_market(&mut state, "q".to_string(), 0, 1, 10),
        Err(MarketError::InvalidParentMarket)
    ));
    assert_eq!(state.market_counter, 0);
}

#[test]
fn conditional_parent_check_gates() {
    let mut state = initialize(1, 200);
    let (_, mut market) = create_market(&mut state, "q".to_string(), 5, 1, 10).unwrap();
    assert!(matches!(
        check_parent_market(&mut market, &ParentMarketOutcome { outcome: 1, resolved: false }),
        Err(MarketError::ParentNotResolved)
    ));
    assert!(market.status == MarketStatus::Active);
    // a market may also be resolved directly while still active
    resolve_market(&mut market, false, 99).unwrap();
    assert!(matches!(
        check_parent_market(&mut market, &ParentMarketOutcome { outcome: 1, resolved: true }),
        Err(MarketError::MarketNotActive)
    ));
}

#[test]
fn conditional_remaining_error_variants() {
    let mut state = initialize(1, 200);
    let (_, mut market) = create_market(&mut state, "q".to_string(), 5, 1, 10).unwrap();
    let mut p = empty_position();
    assert!(matches!(
        take_position(&state, &mut market, &mut p, 0, true),
        Err(MarketError::ZeroBet)
    ));
    assert!(matches!(claim_winnings(&market, &mut p), Err(MarketError::NotResolved)));
    market.total_fees = u64::MAX;
    assert!(matches!(
        take_position(&state, &mut market, &mut p, 1000, true),
        Err(MarketError::Overflow)
    ));
    assert_eq!(market.yes_pool, 0);
    // refund of an empty position on a failed-condition market
    market.total_fees = 0;
    check_parent_market(&mut market, &ParentMarketOutcome { outcome: 0, resolved: true }).unwrap();
    assert!(matches!(get_refund(&market, &mut p), Err(MarketError::NoPosition)));
}

#[test]
fn conditional_condition_is_plain_equality() {
    // the condition is met exactly when the parent outcome equals the
    // required value, for any value
    let mut state = initialize(1, 200);
    let (_, mut market) = create_market(&mut state, "q".to_string(), 5, 2, 10).unwrap();
    check_parent_market(&mut market, &ParentMarketOutcome { outcome: 2, resolved: true }).unwrap();
    assert!(market.status == MarketStatus::ParentUnresolved);

    let (_, mut other) = create_market(&mut state, "q".to_string(), 5, 2, 10).unwrap();
    check_parent_market(&mut other, &ParentMarketOutcome { outcome: 1, resolved: true }).unwrap();
    assert!(other.status == MarketStatus::ConditionNotMet);
}
