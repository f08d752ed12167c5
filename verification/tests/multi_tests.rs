use parimutuel::multi::claim_winnings;
use parimutuel::multi::create_market;
use parimutuel::multi::initialize;
use parimutuel::multi::resolve_market;
use parimutuel::multi::take_position;
use parimutuel::multi::withdraw_fees;
use parimutuel::multi::MarketError;
use parimutuel::multi::MarketStatus;
use parimutuel::multi::Position;
use parimutuel::oracle::AnswerAccount;

fn labels3() -> Vec<String> {
    vec!["red".to_string(), "green".to_string(), "blue".to_string()]
}

fn empty_position() -> Position {
    Position { amounts: Vec::new(), claimed: false }
}

fn numeric_answer(confidence: u8, value: u64) -> AnswerAccount {
    AnswerAccount {
        question_id: 0,
        provider: 9,
        confidence_score: confidence,
        bool_answer: false,
        numeric_answer: value,
        timestamp: 0,
    }
}

#[test]
fn multi_full_scenario_three_outcomes() {
    // stakes 300/200/100 net (zero fee) on outcomes 0/1/2; outcome 1 wins;
    // the sole staker on outcome 1 receives the whole pool of 600.
    let mut state = initialize(1, 9, 0);
    let (id, mut market) = create_market(&mut state, "Which color?".to_string(), labels3(), 1000, 10)
        .unwrap();
    assert_eq!(id, 0);
    let mut a = empty_position();
    let mut b = empty_position();
    let mut c = empty_position();
    take_position(&state, &mut market, &mut a, 0, 300, 20).unwrap();
    take_position(&state, &mut market, &mut b, 1, 200, 20).unwrap();
    take_position(&state, &mut market, &mut c, 2, 100, 20).unwrap();
    assert_eq!(market.outcome_pools, vec![300, 200, 100]);
    assert_eq!(market.total_pool, 600);
    assert_eq!(market.total_fees, 0);

    resolve_market(&mut state, &mut market, &numeric_answer(90, 1), 1000).unwrap();
    assert!(market.status == MarketStatus::Resolved);
    assert_eq!(market.winning_outcome, 1);

    assert_eq!(claim_winnings(&market, &mut b).unwrap(), 600);
    assert!(matches!(claim_winnings(&market, &mut b), Err(MarketError::AlreadyClaimed)));
    assert!(matches!(claim_winnings(&market, &mut a), Err(MarketError::NoWinnings)));
}

#[test]
fn multi_fee_is_split_off() {
    let mut state = initialize(1, 9, 200);
    let (_, mut market) = create_market(&mut state, "q".to_string(), labels3(), 1000, 10).unwrap();
    let mut a = empty_position();
    take_position(&state, &mut market, &mut a, 1, 1000, 20).unwrap();
    assert_eq!(market.outcome_pools, vec![0, 980, 0]);
    assert_eq!(market.total_pool, 980);
    assert_eq!(market.total_fees, 20);
    assert_eq!(a.amounts, vec![0, 980]);
    resolve_market(&mut state, &mut market, &numeric_answer(90, 1), 1000).unwrap();
    assert_eq!(state.accumulated_fees, 20);
    assert_eq!(withdraw_fees(&mut state, 1).unwrap(), 20);
}

#[test]
fn multi_create_validation() {
    let mut state = initialize(1, 9, 0);
    assert!(matches!(
        create_market(&mut state, "q".to_string(), vec!["one".to_string()], 1000, 10),
        Err(MarketError::InvalidOutcomeCount)
    ));
    assert!(matches!(
        create_market(&mut state, "q".to_string(), vec!["a".to_string(), String::new()], 1000, 10),
        Err(MarketError::InvalidOutcomeLabel)
    ));
    assert!(matches!(
        create_market(&mut state, "q".to_string(), vec!["a".to_string(), "b".repeat(101)], 1000, 10),
        Err(MarketError::InvalidOutcomeLabel)
    ));
    assert_eq!(state.market_counter, 0);
}

#[test]
fn multi_outcome_bounds() {
    let mut state = initialize(1, 9, 0);
    let (_, mut market) = create_market(&mut state, "q".to_string(), labels3(), 1000, 10).unwrap();
    let mut a = empty_position();
    assert!(matches!(
        take_position(&state, &mut market, &mut a, 3, 100, 20),
        Err(MarketError::InvalidOutcome)
    ));
    // an oracle answer outside the declared outcomes cannot resolve the market
    assert!(matches!(
        resolve_market(&mut state, &mut market, &numeric_answer(90, 3), 1000),
        Err(MarketError::InvalidOutcome)
    ));
    assert!(matches!(
        resolve_market(&mut state, &mut market, &numeric_answer(0, 1), 1000),
        Err(MarketError::OracleNotAnswered)
    ));
    assert!(market.status == MarketStatus::Open);
}

#[test]
fn multi_remaining_error_variants() {
    let mut state = initialize(1, 9, 200);
    assert!(matches!(
        create_market(&mut state, String::new(), labels3(), 1000, 10),
        Err(MarketError::InvalidQuestion)
    ));
    assert!(matches!(
        create_market(&mut state, "q".to_string(), labels3(), 10, 10),
        Err(MarketError::InvalidResolutionTime)
    ));
    let (_, mut market) = create_market(&mut state, "q".to_string(), labels3(), 1000, 10).unwrap();
    let mut p = empty_position();
    assert!(matches!(
        take_position(&state, &mut market, &mut p, 0, 0, 20),
        Err(MarketError::ZeroBet)
    ));
    assert!(matches!(
        take_position(&state, &mut market, &mut p, 0, 100, 1000),
        Err(MarketError::MarketExpired)
    ));
    assert!(matches!(claim_winnings(&market, &mut p), Err(MarketError::NotResolved)));
    assert!(matches!(
        resolve_market(&mut state, &mut market, &numeric_answer(90, 1), 999),
        Err(MarketError::TooEarly)
    ));
    // overflow rejects the whole stake
    market.total_fees = u64::MAX;
    assert!(matches!(
        take_position(&state, &mut market, &mut p, 0, 1000, 20),
        Err(MarketError::Overflow)
    ));
    assert_eq!(market.outcome_pools, vec![0, 0, 0]);
    // after resolution no further stake
    market.total_fees = 0;
    resolve_market(&mut state, &mut market, &numeric_answer(90, 1), 1000).unwrap();
    assert!(matches!(
        take_position(&state, &mut market, &mut p, 0, 100, 20),
        Err(MarketError::MarketNotOpen)
    ));
    assert!(matches!(withdraw_fees(&mut state, 7), Err(MarketError::Unauthorized)));
    let mut fresh = initialize(1, 9, 200);
    assert!(matches!(withdraw_fees(&mut fresh, 1), Err(MarketError::NoFees)));
}

#[test]
fn multi_outcome_count_boundaries() {
    let mut state = initialize(1, 9, 0);
    let ten: Vec<String> = (0..10).map(|i| format!("o{i}")).collect();
    assert!(create_market(&mut state, "q".to_string(), ten, 1000, 10).is_ok());
    let eleven: Vec<String> = (0..11).map(|i| format!("o{i}")).collect();
    assert!(matches!(
        create_market(&mut state, "q".to_string(), eleven, 1000, 10),
        Err(MarketError::InvalidOutcomeCount)
    ));
}
