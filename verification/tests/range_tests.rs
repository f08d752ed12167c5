use parimutuel::oracle::AnswerAccount;
use parimutuel::range::claim_winnings;
use parimutuel::range::create_market;
use parimutuel::range::initialize;
use parimutuel::range::resolve_market;
use parimutuel::range::take_position;
use parimutuel::range::MarketError;
use parimutuel::range::Position;

fn empty_position() -> Position {
    Position { in_range_amount: 0, out_range_amount: 0, claimed: false }
}

fn numeric_answer(value: u64) -> AnswerAccount {
    answer_with(100, value)
}

fn answer_with(confidence: u8, value: u64) -> AnswerAccount {
    AnswerAccount {
        question_id: 0,
        provider: 9,
        confidence_score: confidence,
        bool_answer: false,
        numeric_answer: value,
        timestamp: 0,
    }
}

#[test]
fn range_full_scenario_in_range_wins() {
    let mut state = initialize(1, 9, 200);
    let (_, mut market) = create_market(&mut state, "price?".to_string(), 10, 20, 1000, 5).unwrap();
    let mut a = empty_position();
    let mut b = empty_position();
    take_position(&state, &mut market, &mut a, 1000, true, 20).unwrap();
    take_position(&state, &mut market, &mut b, 500, false, 30).unwrap();
    assert_eq!(market.in_range_pool, 980);
    assert_eq!(market.out_range_pool, 490);

    resolve_market(&mut market, &numeric_answer(15), 1000).unwrap();
    assert!(market.resolved);
    assert!(market.in_range);

    // stake plus share of the losing pool: 980 + 980*490/980 = 1470
    assert_eq!(claim_winnings(&market, &mut a).unwrap(), 1470);
    assert!(matches!(claim_winnings(&market, &mut a), Err(MarketError::AlreadyClaimed)));
    assert!(matches!(claim_winnings(&market, &mut b), Err(MarketError::NotWinner)));
}

#[test]
fn range_out_of_range_wins() {
    let mut state = initialize(1, 9, 0);
    let (_, mut market) = create_market(&mut state, "price?".to_string(), 10, 20, 1000, 5).unwrap();
    let mut a = empty_position();
    let mut b = empty_position();
    take_position(&state, &mut market, &mut a, 300, true, 20).unwrap();
    take_position(&state, &mut market, &mut b, 100, false, 30).unwrap();
    resolve_market(&mut market, &numeric_answer(25), 1000).unwrap();
    assert!(!market.in_range);
    // 100 + 100*300/100 = 400: the whole pool
    assert_eq!(claim_winnings(&market, &mut b).unwrap(), 400);
}

#[test]
fn range_create_validation() {
    let mut state = initialize(1, 9, 200);
    assert!(matches!(
        create_market(&mut state, "q".to_string(), 20, 20, 1000, 5),
        Err(MarketError::InvalidRange)
    ));
    assert!(matches!(
        create_market(&mut state, "q".to_string(), 10, 20, 5, 5),
        Err(MarketError::InvalidDeadline)
    ));
}

#[test]
fn range_resolution_gates() {
    let mut state = initialize(1, 9, 200);
    let (_, mut market) = create_market(&mut state, "q".to_string(), 10, 20, 1000, 5).unwrap();
    assert!(matches!(
        resolve_market(&mut market, &numeric_answer(15), 999),
        Err(MarketError::TooEarly)
    ));
    // a confidence score of zero means the oracle has not answered
    assert!(matches!(
        resolve_market(&mut market, &answer_with(0, 15), 1000),
        Err(MarketError::OracleNotAnswered)
    ));
    resolve_market(&mut market, &numeric_answer(15), 1000).unwrap();
    assert!(matches!(
        resolve_market(&mut market, &numeric_answer(15), 1001),
        Err(MarketError::AlreadyResolved)
    ));
    let mut p = empty_position();
    assert!(matches!(
        take_position(&state, &mut market, &mut p, 100, true, 500),
        Err(MarketError::AlreadyResolved)
    ));
}

#[test]
fn range_remaining_error_variants() {
    let mut state = initialize(1, 9, 200);
    assert!(matches!(
        create_market(&mut state, String::new(), 10, 20, 1000, 5),
        Err(MarketError::InvalidQuestion)
    ));
    let (_, mut market) = create_market(&mut state, "q".to_string(), 10, 20, 1000, 5).unwrap();
    let mut p = empty_position();
    assert!(matches!(
        take_position(&state, &mut market, &mut p, 0, true, 20),
        Err(MarketError::ZeroBet)
    ));
    assert!(matches!(
        take_position(&state, &mut market, &mut p, 100, true, 1000),
        Err(MarketError::MarketClosed)
    ));
    assert!(matches!(claim_winnings(&market, &mut p), Err(MarketError::NotResolved)));
    // overflow rejects the whole stake
    market.total_fees = u64::MAX;
    assert!(matches!(
        take_position(&state, &mut market, &mut p, 1000, true, 20),
        Err(MarketError::Overflow)
    ));
    assert_eq!(market.in_range_pool, 0);
}

#[test]
fn range_no_winnings_on_empty_winning_pool() {
    let market = parimutuel::range::MarketAccount {
        market_id: 0,
        question: "q".to_string(),
        lower_bound: 10,
        upper_bound: 20,
        in_range_pool: 0,
        out_range_pool: 500,
        total_fees: 0,
        created_at: 0,
        deadline: 10,
        resolved_at: 20,
        resolved: true,
        in_range: true,
    };
    let mut p = Position { in_range_amount: 5, out_range_amount: 0, claimed: false };
    assert!(matches!(claim_winnings(&market, &mut p), Err(MarketError::NoWinnings)));
    assert!(!p.claimed);
}

#[test]
fn range_zero_answer_is_a_valid_value() {
    // a numeric answer of 0 resolves the market; with the interval [10, 20]
    // it falls out of range
    let mut state = initialize(1, 9, 0);
    let (_, mut market) = create_market(&mut state, "q".to_string(), 10, 20, 1000, 5).unwrap();
    let mut a = empty_position();
    let mut b = empty_position();
    take_position(&state, &mut market, &mut a, 300, true, 20).unwrap();
    take_position(&state, &mut market, &mut b, 100, false, 30).unwrap();
    resolve_market(&mut market, &numeric_answer(0), 1000).unwrap();
    assert!(market.resolved);
    assert!(!market.in_range);
    assert_eq!(claim_winnings(&market, &mut b).unwrap(), 400);
}
