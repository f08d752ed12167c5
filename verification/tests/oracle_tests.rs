use parimutuel::oracle::ask_question;
use parimutuel::oracle::batch_ask_questions;
use parimutuel::oracle::batch_provide_answers;
use parimutuel::oracle::initialize;
use parimutuel::oracle::provide_answer;
use parimutuel::oracle::refund_question;
use parimutuel::oracle::set_oracle_fee;
use parimutuel::oracle::set_oracle_provider;
use parimutuel::oracle::withdraw;
use parimutuel::oracle::AnswerStatus;
use parimutuel::oracle::QuestionType;
use parimutuel::oracle::Trace9Error;
use parimutuel::oracle::DEFAULT_ORACLE_FEE;

const ADMIN: u64 = 1;
const PROVIDER: u64 = 9;
const ASKER: u64 = 42;

#[test]
fn oracle_ask_stores_keccak_hash_of_question() {
    let mut state = initialize(ADMIN, PROVIDER);
    let text = "What is the temperature in Paris right now today?".to_string();
    let q = ask_question(
        &mut state,
        QuestionType::Numeric,
        text.clone(),
        1000,
        ASKER,
        DEFAULT_ORACLE_FEE,
        10,
    )
    .unwrap();
    // the stored hash is the Keccak-256 digest of the text, not the text
    let expected = anchor_lang::solana_program::keccak::hash(text.as_bytes()).to_bytes();
    assert_eq!(q.question_hash, expected);
    let mut first_bytes = [0u8; 32];
    first_bytes.copy_from_slice(&text.as_bytes()[..32]);
    assert_ne!(q.question_hash, first_bytes);
    // deterministic: the same text hashes the same; another text differs
    let q2 = ask_question(
        &mut state,
        QuestionType::Numeric,
        text.clone(),
        1000,
        ASKER,
        DEFAULT_ORACLE_FEE,
        10,
    )
    .unwrap();
    assert_eq!(q2.question_hash, q.question_hash);
    assert_ne!(q2.question_id, q.question_id);
    let q3 = ask_question(
        &mut state,
        QuestionType::Numeric,
        "Another question".to_string(),
        1000,
        ASKER,
        DEFAULT_ORACLE_FEE,
        10,
    )
    .unwrap();
    assert_ne!(q3.question_hash, q.question_hash);
}

#[test]
fn oracle_ask_validation() {
    let mut state = initialize(ADMIN, PROVIDER);
    assert!(matches!(
        ask_question(&mut state, QuestionType::General, String::new(), 1000, ASKER, u64::MAX, 10),
        Err(Trace9Error::InvalidQuestion)
    ));
    assert!(matches!(
        ask_question(&mut state, QuestionType::General, "q".repeat(501), 1000, ASKER, u64::MAX, 10),
        Err(Trace9Error::InvalidQuestion)
    ));
    assert!(matches!(
        ask_question(&mut state, QuestionType::General, "q".to_string(), 10, ASKER, u64::MAX, 10),
        Err(Trace9Error::InvalidDeadline)
    ));
    assert!(matches!(
        ask_question(
            &mut state,
            QuestionType::General,
            "q".to_string(),
            1000,
            ASKER,
            DEFAULT_ORACLE_FEE - 1,
            10
        ),
        Err(Trace9Error::InsufficientFee)
    ));
    assert_eq!(state.question_counter, 0);
}

#[test]
fn oracle_answer_once_then_withdraw() {
    let mut state = initialize(ADMIN, PROVIDER);
    let mut q = ask_question(
        &mut state,
        QuestionType::YesNo,
        "Will it snow?".to_string(),
        1000,
        ASKER,
        DEFAULT_ORACLE_FEE,
        10,
    )
    .unwrap();
    assert!(matches!(
        provide_answer(&mut state, &mut q, ASKER, "yes".to_string(), 0, true, 90, "src".to_string(), 20),
        Err(Trace9Error::Unauthorized)
    ));
    assert!(matches!(
        provide_answer(&mut state, &mut q, PROVIDER, "yes".to_string(), 0, true, 101, "src".to_string(), 20),
        Err(Trace9Error::InvalidConfidence)
    ));
    let a = provide_answer(
        &mut state,
        &mut q,
        PROVIDER,
        "yes".to_string(),
        0,
        true,
        90,
        "src".to_string(),
        20,
    )
    .unwrap();
    assert!(q.status == AnswerStatus::Answered);
    assert_eq!(a.confidence_score, 90);
    assert!(a.bool_answer);
    assert_eq!(state.provider_balance, DEFAULT_ORACLE_FEE);
    // a question accepts at most one answer
    assert!(matches!(
        provide_answer(&mut state, &mut q, PROVIDER, "no".to_string(), 0, false, 80, "src".to_string(), 30),
        Err(Trace9Error::AlreadyAnswered)
    ));
    assert!(matches!(withdraw(&mut state, ASKER), Err(Trace9Error::Unauthorized)));
    assert_eq!(withdraw(&mut state, PROVIDER).unwrap(), DEFAULT_ORACLE_FEE);
    assert!(matches!(withdraw(&mut state, PROVIDER), Err(Trace9Error::NoBalance)));
}

#[test]
fn oracle_refund_after_grace_period_exactly_once() {
    let seven_days: i64 = 7 * 24 * 60 * 60;
    let mut state = initialize(ADMIN, PROVIDER);
    let mut q = ask_question(
        &mut state,
        QuestionType::General,
        "q".to_string(),
        1000,
        ASKER,
        DEFAULT_ORACLE_FEE,
        10,
    )
    .unwrap();
    assert!(matches!(refund_question(&mut q, PROVIDER, i64::MAX), Err(Trace9Error::Unauthorized)));
    // the grace period runs from the question's deadline, not from the ask
    assert!(matches!(
        refund_question(&mut q, ASKER, 10 + seven_days),
        Err(Trace9Error::RefundTooEarly)
    ));
    assert!(matches!(
        refund_question(&mut q, ASKER, 1000 + seven_days - 1),
        Err(Trace9Error::RefundTooEarly)
    ));
    assert_eq!(refund_question(&mut q, ASKER, 1000 + seven_days).unwrap(), DEFAULT_ORACLE_FEE);
    assert!(q.refunded);
    assert_eq!(q.bounty, 0);
    assert!(matches!(
        refund_question(&mut q, ASKER, 1000 + seven_days),
        Err(Trace9Error::AlreadyRefunded)
    ));
    // a refunded question can no longer be answered
    assert!(matches!(
        provide_answer(&mut state, &mut q, PROVIDER, "x".to_string(), 0, false, 50, "s".to_string(), 20),
        Err(Trace9Error::AlreadyRefunded)
    ));
}

#[test]
fn oracle_admin_settings() {
    let mut state = initialize(ADMIN, PROVIDER);
    assert!(matches!(set_oracle_fee(&mut state, PROVIDER, 5), Err(Trace9Error::Unauthorized)));
    set_oracle_fee(&mut state, ADMIN, 5).unwrap();
    assert_eq!(state.oracle_fee, 5);
    assert!(matches!(set_oracle_provider(&mut state, PROVIDER, 7), Err(Trace9Error::Unauthorized)));
    set_oracle_provider(&mut state, ADMIN, 7).unwrap();
    assert_eq!(state.oracle_provider, 7);
}

#[test]
fn oracle_batch_ask_assigns_consecutive_ids() {
    let mut state = initialize(ADMIN, PROVIDER);
    let qs = batch_ask_questions(
        &mut state,
        vec![QuestionType::General, QuestionType::Price],
        vec!["first?".to_string(), "second?".to_string()],
        vec![1000, 2000],
        ASKER,
        2 * DEFAULT_ORACLE_FEE,
        10,
    )
    .unwrap();
    assert_eq!(qs.len(), 2);
    assert_eq!(qs[0].question_id, 0);
    assert_eq!(qs[1].question_id, 1);
    assert_eq!(qs[0].bounty, DEFAULT_ORACLE_FEE);
    assert!(qs[0].question_type == QuestionType::General);
    assert!(qs[1].question_type == QuestionType::Price);
    assert_eq!(qs[1].deadline, 2000);
    assert_eq!(state.question_counter, 2);
}

#[test]
fn oracle_batch_ask_validation() {
    let mut state = initialize(ADMIN, PROVIDER);
    assert!(matches!(
        batch_ask_questions(
            &mut state,
            vec![QuestionType::General],
            vec!["a?".to_string(), "b?".to_string()],
            vec![1000, 2000],
            ASKER,
            u64::MAX,
            10
        ),
        Err(Trace9Error::InvalidBatch)
    ));
    assert!(matches!(
        batch_ask_questions(&mut state, vec![], vec![], vec![], ASKER, u64::MAX, 10),
        Err(Trace9Error::InvalidBatchSize)
    ));
    assert!(matches!(
        batch_ask_questions(
            &mut state,
            vec![QuestionType::General, QuestionType::General],
            vec!["a?".to_string(), "b?".to_string()],
            vec![1000, 2000],
            ASKER,
            2 * DEFAULT_ORACLE_FEE - 1,
            10
        ),
        Err(Trace9Error::InsufficientFee)
    ));
    assert!(matches!(
        batch_ask_questions(
            &mut state,
            vec![QuestionType::General, QuestionType::General],
            vec!["a?".to_string(), String::new()],
            vec![1000, 2000],
            ASKER,
            u64::MAX,
            10
        ),
        Err(Trace9Error::InvalidQuestion)
    ));
    assert!(matches!(
        batch_ask_questions(
            &mut state,
            vec![QuestionType::General, QuestionType::General],
            vec!["a?".to_string(), "b?".to_string()],
            vec![1000, 5],
            ASKER,
            u64::MAX,
            10
        ),
        Err(Trace9Error::InvalidDeadline)
    ));
    assert_eq!(state.question_counter, 0);
}

#[test]
fn oracle_batch_answers_all_or_nothing() {
    let mut state = initialize(ADMIN, PROVIDER);
    let mut questions = batch_ask_questions(
        &mut state,
        vec![QuestionType::General, QuestionType::Numeric],
        vec!["a?".to_string(), "b?".to_string()],
        vec![1000, 2000],
        ASKER,
        2 * DEFAULT_ORACLE_FEE,
        10,
    )
    .unwrap();
    let answers = batch_provide_answers(
        &mut state,
        &mut questions,
        PROVIDER,
        vec!["ya".to_string(), "yb".to_string()],
        vec![11, 22],
        vec![true, false],
        vec![90, 80],
        vec!["s1".to_string(), "s2".to_string()],
        50,
    )
    .unwrap();
    assert_eq!(answers.len(), 2);
    assert_eq!(answers[0].numeric_answer, 11);
    assert_eq!(answers[1].confidence_score, 80);
    assert!(questions[0].status == AnswerStatus::Answered);
    assert!(questions[1].status == AnswerStatus::Answered);
    assert_eq!(state.provider_balance, 2 * DEFAULT_ORACLE_FEE);

    // a second batch touching an already answered question changes nothing
    let balance_before = state.provider_balance;
    let r = batch_provide_answers(
        &mut state,
        &mut questions,
        PROVIDER,
        vec!["ya".to_string(), "yb".to_string()],
        vec![1, 2],
        vec![true, false],
        vec![9, 8],
        vec!["s1".to_string(), "s2".to_string()],
        60,
    );
    assert!(matches!(r, Err(Trace9Error::AlreadyAnswered)));
    assert_eq!(state.provider_balance, balance_before);
    assert!(matches!(
        batch_provide_answers(
            &mut state,
            &mut questions,
            ASKER,
            vec![],
            vec![],
            vec![],
            vec![],
            vec![],
            60
        ),
        Err(Trace9Error::Unauthorized)
    ));
}

#[test]
fn oracle_answer_overflow_rejected_whole() {
    let mut state = initialize(ADMIN, PROVIDER);
    state.provider_balance = u64::MAX;
    let mut q = ask_question(
        &mut state,
        QuestionType::General,
        "q".to_string(),
        1000,
        ASKER,
        DEFAULT_ORACLE_FEE,
        10,
    )
    .unwrap();
    let r = provide_answer(
        &mut state,
        &mut q,
        PROVIDER,
        "x".to_string(),
        0,
        true,
        50,
        "s".to_string(),
        20,
    );
    assert!(matches!(r, Err(Trace9Error::Overflow)));
    assert!(q.status == AnswerStatus::Pending);
    assert_eq!(state.provider_balance, u64::MAX);
}

#[test]
fn oracle_batch_size_boundaries() {
    let mut state = initialize(ADMIN, PROVIDER);
    let twenty: Vec<String> = (0..20).map(|i| format!("question {i}?")).collect();
    let types: Vec<QuestionType> = (0..20).map(|_| QuestionType::General).collect();
    let deadlines: Vec<i64> = (0..20).map(|_| 1000).collect();
    assert!(batch_ask_questions(&mut state, types, twenty, deadlines, ASKER, u64::MAX, 10).is_ok());
    let twenty_one: Vec<String> = (0..21).map(|i| format!("question {i}?")).collect();
    let types: Vec<QuestionType> = (0..21).map(|_| QuestionType::General).collect();
    let deadlines: Vec<i64> = (0..21).map(|_| 1000).collect();
    assert!(matches!(
        batch_ask_questions(&mut state, types, twenty_one, deadlines, ASKER, u64::MAX, 10),
        Err(Trace9Error::InvalidBatchSize)
    ));
}
