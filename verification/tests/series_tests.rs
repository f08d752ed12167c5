use parimutuel::oracle::AnswerAccount;
use parimutuel::series::check_all_resolved;
use parimutuel::series::claim_winnings;
use parimutuel::series::create_market;
use parimutuel::series::initialize;
use parimutuel::series::resolve_period;
use parimutuel::series::take_position;
use parimutuel::series::MarketError;
use parimutuel::series::Position;

fn empty_position() -> Position {
    Position { success_amount: 0, failure_amount: 0, claimed: false }
}

fn numeric_answer(value: u64) -> AnswerAccount {
    answer_with(100, value)
}

fn answer_with(confidence: u8, value: u64) -> AnswerAccount {
    AnswerAccount {
        question_id: 0,
        provider: 9,
        confidence_score: confidence,
        bool_answer: false,
        numeric_answer: value,
        timestamp: 0,
    }
}

#[test]
fn series_full_scenario_all_periods_succeed() {
    let mut state = initialize(1, 9, 200);
    let (_, mut market) = create_market(&mut state, "daily?".to_string(), vec![100, 200], 5)
        .unwrap();
    assert_eq!(market.periods.len(), 2);
    let mut a = empty_position();
    let mut b = empty_position();
    take_position(&state, &mut market, &mut a, 1000, true).unwrap();
    take_position(&state, &mut market, &mut b, 500, false).unwrap();
    assert_eq!(market.success_pool, 980);
    assert_eq!(market.failure_pool, 490);

    resolve_period(&mut market, 0, &numeric_answer(7), 100).unwrap();
    assert!(!market.all_resolved);
    // the aggregate outcome is still open, stakes are still accepted
    take_position(&state, &mut market, &mut b, 500, false).unwrap();
    assert_eq!(market.failure_pool, 980);

    resolve_period(&mut market, 1, &numeric_answer(3), 200).unwrap();
    assert!(market.all_resolved);
    assert!(market.all_success);

    // 980 + 980*980/980 = 1960: the whole pool
    assert_eq!(claim_winnings(&market, &mut a).unwrap(), 1960);
    assert!(matches!(claim_winnings(&market, &mut a), Err(MarketError::AlreadyClaimed)));
    assert!(matches!(claim_winnings(&market, &mut b), Err(MarketError::NotWinner)));
    // once settled, no further stake
    let mut c = empty_position();
    assert!(matches!(
        take_position(&state, &mut market, &mut c, 100, true),
        Err(MarketError::MarketResolved)
    ));
}

#[test]
fn series_create_validation() {
    let mut state = initialize(1, 9, 200);
    assert!(matches!(
        create_market(&mut state, "q".to_string(), vec![100], 5),
        Err(MarketError::InvalidPeriodCount)
    ));
    assert!(matches!(
        create_market(&mut state, "q".to_string(), vec![100, 100], 5),
        Err(MarketError::DeadlinesNotAscending)
    ));
    assert!(matches!(
        create_market(&mut state, "q".to_string(), vec![100, 200, 150], 5),
        Err(MarketError::DeadlinesNotAscending)
    ));
    assert_eq!(state.market_counter, 0);
}

#[test]
fn series_period_resolution_gates() {
    let mut state = initialize(1, 9, 200);
    let (_, mut market) = create_market(&mut state, "q".to_string(), vec![100, 200], 5).unwrap();
    assert!(matches!(
        resolve_period(&mut market, 2, &numeric_answer(7), 100),
        Err(MarketError::InvalidPeriod)
    ));
    assert!(matches!(
        resolve_period(&mut market, 0, &numeric_answer(7), 99),
        Err(MarketError::TooEarly)
    ));
    assert!(matches!(
        resolve_period(&mut market, 0, &answer_with(0, 7), 100),
        Err(MarketError::OracleNotAnswered)
    ));
    resolve_period(&mut market, 0, &numeric_answer(7), 100).unwrap();
    assert!(matches!(
        resolve_period(&mut market, 0, &numeric_answer(9), 150),
        Err(MarketError::PeriodAlreadyResolved)
    ));
    assert_eq!(market.periods[0].result, 7);
    assert!(!market.periods[1].resolved);
}

#[test]
fn series_check_all_resolved_is_stable_until_all_periods_settle() {
    let mut state = initialize(1, 9, 200);
    let (_, mut market) = create_market(&mut state, "q".to_string(), vec![100, 200], 5).unwrap();
    check_all_resolved(&mut market);
    assert!(!market.all_resolved);
    resolve_period(&mut market, 0, &numeric_answer(7), 100).unwrap();
    check_all_resolved(&mut market);
    assert!(!market.all_resolved);
    resolve_period(&mut market, 1, &numeric_answer(9), 200).unwrap();
    assert!(market.all_resolved);
    assert!(market.all_success);
}

#[test]
fn series_remaining_error_variants() {
    let mut state = initialize(1, 9, 200);
    assert!(matches!(
        create_market(&mut state, String::new(), vec![100, 200], 5),
        Err(MarketError::InvalidQuestion)
    ));
    let (_, mut market) = create_market(&mut state, "q".to_string(), vec![100, 200], 5).unwrap();
    let mut p = empty_position();
    assert!(matches!(
        take_position(&state, &mut market, &mut p, 0, true),
        Err(MarketError::ZeroBet)
    ));
    assert!(matches!(claim_winnings(&market, &mut p), Err(MarketError::NotAllResolved)));
    market.total_fees = u64::MAX;
    assert!(matches!(
        take_position(&state, &mut market, &mut p, 1000, true),
        Err(MarketError::Overflow)
    ));
    assert_eq!(market.success_pool, 0);
}

#[test]
fn series_period_count_boundaries() {
    let mut state = initialize(1, 9, 200);
    let twelve: Vec<i64> = (1..=12).collect();
    assert!(create_market(&mut state, "q".to_string(), twelve, 0).is_ok());
    let thirteen: Vec<i64> = (1..=13).collect();
    assert!(matches!(
        create_market(&mut state, "q".to_string(), thirteen, 0),
        Err(MarketError::InvalidPeriodCount)
    ));
}

#[test]
fn series_zero_result_period_fails_the_market() {
    // a period resolved with a numeric result of exactly zero counts as
    // failure: the "not all succeed" side wins
    let mut state = initialize(1, 9, 200);
    let (_, mut market) = create_market(&mut state, "daily?".to_string(), vec![100, 200], 5)
        .unwrap();
    let mut a = empty_position();
    let mut b = empty_position();
    take_position(&state, &mut market, &mut a, 1000, true).unwrap();
    take_position(&state, &mut market, &mut b, 500, false).unwrap();
    resolve_period(&mut market, 0, &numeric_answer(7), 100).unwrap();
    resolve_period(&mut market, 1, &numeric_answer(0), 200).unwrap();
    assert!(market.all_resolved);
    assert!(!market.all_success);
    assert_eq!(market.periods[1].result, 0);
    // 490 + 490*980/490 = 1470: the whole pool goes to the failure side
    assert_eq!(claim_winnings(&market, &mut b).unwrap(), 1470);
    assert!(matches!(claim_winnings(&market, &mut a), Err(MarketError::NotWinner)));
}
