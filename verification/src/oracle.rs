//! Oracle question/answer registry.
//!
//! Requesters pay a fixed bounty to ask a question; the single authorized
//! provider answers it at most once; an unanswered question may be refunded
//! to its requester once its deadline plus a grace period has passed,
//! exactly once. Markets consume the
//! answer records read-only, treating a confidence score of zero as "not
//! yet answered".

use vstd::prelude::*;
use crate::text::byte_len;
use crate::text::str_byte_len;

verus! {

/// The bounty charged for a question at deployment time, in the smallest
/// unit of the host's currency.
pub const DEFAULT_ORACLE_FEE: u64 = 10_000_000;

/// Seconds past a question's deadline before an unanswered question may be
/// refunded.
pub const REFUND_PERIOD_SECS: i64 = 7 * 24 * 60 * 60;

#[derive(Clone, Copy, Debug, PartialEq, Eq, Structural)]
pub enum QuestionType {
    General,
    Price,
    YesNo,
    Numeric,
}

#[derive(Clone, Copy, Debug, PartialEq, Eq, Structural)]
pub enum AnswerStatus {
    Pending,
    Answered,
    Disputed,
    Finalized,
}

#[derive(Clone, Copy, Debug, PartialEq, Eq, Structural)]
pub enum Trace9Error {
    InvalidQuestion,
    InvalidDeadline,
    InsufficientFee,
    Unauthorized,
    AlreadyAnswered,
    AlreadyRefunded,
    InvalidConfidence,
    RefundTooEarly,
    NoBalance,
    Overflow,
    InvalidBatch,
    InvalidBatchSize,
}

/// Deployment-wide registry state: the administrator, the one authorized
/// answer provider, the id handed to the next question, the bounty charged
/// per question, and the provider's earned, not yet withdrawn balance.
pub struct OracleState {
    pub authority: u64,
    pub oracle_provider: u64,
    pub question_counter: u64,
    pub oracle_fee: u64,
    pub provider_balance: u64,
}

/// One question: who asked it, the Keccak-256 hash of its text, the bounty
/// escrowed for it, when it was asked, its answer deadline, and whether it
/// has been answered or refunded.
#[derive(Clone, Copy, Debug)]
pub struct QuestionAccount {
    pub question_id: u64,
    pub requester: u64,
    pub question_type: QuestionType,
    pub question_hash: [u8; 32],
    pub bounty: u64,
    pub timestamp: i64,
    pub deadline: i64,
    pub status: AnswerStatus,
    pub refunded: bool,
}

/// One answer: its provider, a confidence score of 1 to 100 (zero is
/// reserved to mean "unanswered"), and the typed answer values.
#[derive(Clone, Copy, Debug)]
pub struct AnswerAccount {
    pub question_id: u64,
    pub provider: u64,
    pub confidence_score: u8,
    pub bool_answer: bool,
    pub numeric_answer: u64,
    pub timestamp: i64,
}

/// The Keccak-256 digest of a byte sequence, a function of the bytes alone.
pub uninterp spec fn keccak256_of(data: Seq<u8>) -> Seq<u8>;

/// Relies on `anchor_lang::solana_program::keccak::hash` (the
/// `solana-keccak-hasher` crate): the 32-byte Keccak-256 digest of the
/// input, computed from the input bytes alone.
#[verifier::external_body]
fn keccak256(data: &[u8]) -> (r: [u8; 32])
    ensures
        r@ == keccak256_of(data@),
{
    anchor_lang::solana_program::keccak::hash(data).to_bytes()
}

/// The hash stored for a question's text: the Keccak-256 digest of its
/// UTF-8 bytes.
pub open spec fn question_hash_of(question: Seq<char>) -> Seq<u8> {
    keccak256_of(vstd::utf8::encode_utf8(question))
}

/// The question record stored for one accepted `ask`, field by field.
pub open spec fn is_question_record(
    q: QuestionAccount,
    id: u64,
    requester: u64,
    question_type: QuestionType,
    question: Seq<char>,
    bounty: u64,
    now: i64,
    deadline: i64,
) -> bool {
    &&& q.question_id == id
    &&& q.requester == requester
    &&& q.question_type == question_type
    &&& q.question_hash@ == question_hash_of(question)
    &&& q.bounty == bounty
    &&& q.timestamp == now
    &&& q.deadline == deadline
    &&& q.status == AnswerStatus::Pending
    &&& q.refunded == false
}

/// A question's text is non-empty and at most 500 bytes of UTF-8.
pub open spec fn question_len_ok(question: Seq<char>) -> bool {
    1 <= byte_len(question) <= 500
}

/// Sets up the registry: the administrator, the authorized provider, and
/// the deployment's fixed bounty per question.
pub fn initialize(authority: u64, oracle_provider: u64) -> (s: OracleState)
    ensures
        s.authority == authority,
        s.oracle_provider == oracle_provider,
        s.question_counter == 0,
        s.oracle_fee == DEFAULT_ORACLE_FEE,
        s.provider_balance == 0,
{
    OracleState {
        authority,
        oracle_provider,
        question_counter: 0,
        oracle_fee: DEFAULT_ORACLE_FEE,
        provider_balance: 0,
    }
}

/// Accepts a question under the next question id, charging the requester
/// the registry's bounty (the caller performs the transfer of
/// `state.oracle_fee`, which the record's `bounty` field repeats). The text
/// must be non-empty and at most 500 bytes of UTF-8, the deadline in the
/// future, and the requester able to pay the bounty.
pub fn ask_question(
    state: &mut OracleState,
    question_type: QuestionType,
    question: String,
    deadline: i64,
    requester: u64,
    requester_lamports: u64,
    now: i64,
) -> (r: Result<QuestionAccount, Trace9Error>)
    requires
        old(state).question_counter < u64::MAX,
    ensures
        r is Ok <==> question_len_ok(question@) && deadline > now && requester_lamports >= old(
            state,
        ).oracle_fee,
        r == Err::<QuestionAccount, Trace9Error>(Trace9Error::InvalidQuestion) <==> !question_len_ok(
            question@,
        ),
        r == Err::<QuestionAccount, Trace9Error>(Trace9Error::InvalidDeadline) <==> question_len_ok(
            question@,
        ) && deadline <= now,
        r == Err::<QuestionAccount, Trace9Error>(Trace9Error::InsufficientFee) <==> question_len_ok(
            question@,
        ) && deadline > now && requester_lamports < old(state).oracle_fee,
        r is Err ==> *final(state) == *old(state),
        r matches Ok(q) ==> is_question_record(
            q,
            old(state).question_counter,
            requester,
            question_type,
            question@,
            old(state).oracle_fee,
            now,
            deadline,
        ),
        r is Ok ==> final(state).question_counter == old(state).question_counter + 1
            && final(state).authority == old(state).authority && final(state).oracle_provider
            == old(state).oracle_provider && final(state).oracle_fee == old(state).oracle_fee
            && final(state).provider_balance == old(state).provider_balance,
{
    let len = str_byte_len(question.as_str());
    if len == 0 || len > 500 {
        return Err(Trace9Error::InvalidQuestion);
    }
    if deadline <= now {
        return Err(Trace9Error::InvalidDeadline);
    }
    let fee = state.oracle_fee;
    if requester_lamports < fee {
        return Err(Trace9Error::InsufficientFee);
    }
    let question_id = state.question_counter;
    let question_hash = keccak256(question.as_str().as_bytes());
    state.question_counter = question_id + 1;
    Ok(
        QuestionAccount {
            question_id,
            requester,
            question_type,
            question_hash,
            bounty: fee,
            timestamp: now,
            deadline,
            status: AnswerStatus::Pending,
            refunded: false,
        },
    )
}

/// Answers a pending question: only the authorized provider may answer, a
/// question is answered at most once, never after a refund, and the
/// confidence score is 1 to 100. The bounty moves to the provider's
/// withdrawable balance. The free-text answer and data source are the
/// host's to log; the stored record holds the typed values.
#[allow(unused_variables)]
pub fn provide_answer(
    state: &mut OracleState,
    question: &mut QuestionAccount,
    provider: u64,
    text_answer: String,
    numeric_answer: u64,
    bool_answer: bool,
    confidence_score: u8,
    data_source: String,
    now: i64,
) -> (r: Result<AnswerAccount, Trace9Error>)
    ensures
        r is Ok <==> provider == old(state).oracle_provider && old(question).status
            == AnswerStatus::Pending && !old(question).refunded && confidence_score <= 100 && old(
            state,
        ).provider_balance + old(question).bounty <= u64::MAX,
        r == Err::<AnswerAccount, Trace9Error>(Trace9Error::Unauthorized) <==> provider != old(
            state,
        ).oracle_provider,
        r == Err::<AnswerAccount, Trace9Error>(Trace9Error::AlreadyAnswered) <==> provider == old(
            state,
        ).oracle_provider && old(question).status != AnswerStatus::Pending,
        r == Err::<AnswerAccount, Trace9Error>(Trace9Error::AlreadyRefunded) <==> provider == old(
            state,
        ).oracle_provider && old(question).status == AnswerStatus::Pending && old(
            question,
        ).refunded,
        r == Err::<AnswerAccount, Trace9Error>(Trace9Error::InvalidConfidence) <==> provider
            == old(state).oracle_provider && old(question).status == AnswerStatus::Pending && !old(
            question,
        ).refunded && confidence_score > 100,
        r == Err::<AnswerAccount, Trace9Error>(Trace9Error::Overflow) <==> provider == old(
            state,
        ).oracle_provider && old(question).status == AnswerStatus::Pending && !old(
            question,
        ).refunded && confidence_score <= 100 && old(state).provider_balance + old(
            question,
        ).bounty > u64::MAX,
        r is Err ==> *final(state) == *old(state) && *final(question) == *old(question),
        r is Ok ==> *final(question) == (QuestionAccount {
            status: AnswerStatus::Answered,
            ..*old(question)
        }),
        r is Ok ==> final(state).provider_balance == old(state).provider_balance + old(
            question,
        ).bounty && final(state).authority == old(state).authority && final(state).oracle_provider
            == old(state).oracle_provider && final(state).question_counter == old(
            state,
        ).question_counter && final(state).oracle_fee == old(state).oracle_fee,
        r matches Ok(a) ==> a == (AnswerAccount {
            question_id: old(question).question_id,
            provider,
            confidence_score,
            bool_answer,
            numeric_answer,
            timestamp: now,
        }),
{
    if provider != state.oracle_provider {
        return Err(Trace9Error::Unauthorized);
    }
    if question.status != AnswerStatus::Pending {
        return Err(Trace9Error::AlreadyAnswered);
    }
    if question.refunded {
        return Err(Trace9Error::AlreadyRefunded);
    }
    if confidence_score > 100 {
        return Err(Trace9Error::InvalidConfidence);
    }
    let new_balance = match state.provider_balance.checked_add(question.bounty) {
        Some(v) => v,
        None => {
            return Err(Trace9Error::Overflow);
        },
    };
    question.status = AnswerStatus::Answered;
    state.provider_balance = new_balance;
    Ok(
        AnswerAccount {
            question_id: question.question_id,
            provider,
            confidence_score,
            bool_answer,
            numeric_answer,
            timestamp: now,
        },
    )
}

/// Refunds the bounty of a question that is still unanswered once the
/// grace period past its deadline has run out: only the requester may
/// claim it, and only once; the caller transfers the returned amount.
pub fn refund_question(question: &mut QuestionAccount, requester: u64, now: i64) -> (r: Result<
    u64,
    Trace9Error,
>)
    ensures
        r is Ok <==> requester == old(question).requester && old(question).status
            == AnswerStatus::Pending && !old(question).refunded && now >= old(question).deadline
            + REFUND_PERIOD_SECS,
        r == Err::<u64, Trace9Error>(Trace9Error::Unauthorized) <==> requester != old(
            question,
        ).requester,
        r == Err::<u64, Trace9Error>(Trace9Error::AlreadyAnswered) <==> requester == old(
            question,
        ).requester && old(question).status != AnswerStatus::Pending,
        r == Err::<u64, Trace9Error>(Trace9Error::AlreadyRefunded) <==> requester == old(
            question,
        ).requester && old(question).status == AnswerStatus::Pending && old(question).refunded,
        r == Err::<u64, Trace9Error>(Trace9Error::RefundTooEarly) <==> requester == old(
            question,
        ).requester && old(question).status == AnswerStatus::Pending && !old(question).refunded
            && now < old(question).deadline + REFUND_PERIOD_SECS,
        r is Err ==> *final(question) == *old(question),
        r matches Ok(amount) ==> amount == old(question).bounty && *final(question) == (
        QuestionAccount { refunded: true, bounty: 0, ..*old(question) }),
{
    if requester != question.requester {
        return Err(Trace9Error::Unauthorized);
    }
    if question.status != AnswerStatus::Pending {
        return Err(Trace9Error::AlreadyAnswered);
    }
    if question.refunded {
        return Err(Trace9Error::AlreadyRefunded);
    }
    if (now as i128) < (question.deadline as i128) + (REFUND_PERIOD_SECS as i128) {
        return Err(Trace9Error::RefundTooEarly);
    }
    let bounty = question.bounty;
    question.refunded = true;
    question.bounty = 0;
    Ok(bounty)
}

/// Releases the provider's earned balance to the provider; the caller
/// transfers the returned amount.
pub fn withdraw(state: &mut OracleState, caller: u64) -> (r: Result<u64, Trace9Error>)
    ensures
        r is Ok <==> caller == old(state).oracle_provider && old(state).provider_balance > 0,
        r == Err::<u64, Trace9Error>(Trace9Error::Unauthorized) <==> caller != old(
            state,
        ).oracle_provider,
        r == Err::<u64, Trace9Error>(Trace9Error::NoBalance) <==> caller == old(
            state,
        ).oracle_provider && old(state).provider_balance == 0,
        r is Err ==> *final(state) == *old(state),
        r matches Ok(amount) ==> amount == old(state).provider_balance && *final(state) == (
        OracleState { provider_balance: 0, ..*old(state) }),
{
    if caller != state.oracle_provider {
        return Err(Trace9Error::Unauthorized);
    }
    let amount = state.provider_balance;
    if amount == 0 {
        return Err(Trace9Error::NoBalance);
    }
    state.provider_balance = 0;
    Ok(amount)
}

/// The combined bounty escrowed with a sequence of questions.
pub open spec fn sum_bounties(qs: Seq<QuestionAccount>) -> int
    decreases qs.len(),
{
    if qs.len() == 0 {
        0
    } else {
        sum_bounties(qs.drop_last()) + qs.last().bounty
    }
}

/// A prefix never holds more bounty than the whole sequence.
pub proof fn lemma_sum_bounties_prefix_le(qs: Seq<QuestionAccount>, i: int)
    requires
        0 <= i <= qs.len(),
    ensures
        sum_bounties(qs.take(i)) <= sum_bounties(qs),
    decreases qs.len() - i,
{
    if i == qs.len() {
        assert(qs.take(i) =~= qs);
    } else {
        assert(qs.take(i + 1).drop_last() =~= qs.take(i));
        assert(qs.take(i + 1).last() == qs[i]);
        lemma_sum_bounties_prefix_le(qs, i + 1);
    }
}

/// Accepts a batch of questions as independent `ask_question` calls under
/// consecutive question ids, after checking up front that the requester can
/// pay the combined bounty; the caller transfers
/// `state.oracle_fee * questions.len()`.
pub fn batch_ask_questions(
    state: &mut OracleState,
    question_types: Vec<QuestionType>,
    questions: Vec<String>,
    deadlines: Vec<i64>,
    requester: u64,
    requester_lamports: u64,
    now: i64,
) -> (r: Result<Vec<QuestionAccount>, Trace9Error>)
    requires
        old(state).question_counter + questions@.len() <= u64::MAX,
    ensures
        r is Ok <==> {
            &&& questions@.len() == deadlines@.len()
            &&& questions@.len() == question_types@.len()
            &&& 1 <= questions@.len() <= 20
            &&& old(state).oracle_fee * questions@.len() <= u64::MAX
            &&& requester_lamports >= old(state).oracle_fee * questions@.len()
            &&& forall|i: int|
                0 <= i < questions@.len() ==> question_len_ok(#[trigger] questions@[i]@)
            &&& forall|i: int| 0 <= i < deadlines@.len() ==> #[trigger] deadlines@[i] > now
        },
        r == Err::<Vec<QuestionAccount>, Trace9Error>(Trace9Error::InvalidBatch) <==> !(
        questions@.len() == deadlines@.len() && questions@.len() == question_types@.len()),
        r == Err::<Vec<QuestionAccount>, Trace9Error>(Trace9Error::InvalidBatchSize) <==> questions@.len()
            == deadlines@.len() && questions@.len() == question_types@.len() && !(1
            <= questions@.len() <= 20),
        r == Err::<Vec<QuestionAccount>, Trace9Error>(Trace9Error::Overflow) <==> questions@.len()
            == deadlines@.len() && questions@.len() == question_types@.len() && 1
            <= questions@.len() <= 20 && old(state).oracle_fee * questions@.len() > u64::MAX,
        r == Err::<Vec<QuestionAccount>, Trace9Error>(Trace9Error::InsufficientFee) <==> questions@.len()
            == deadlines@.len() && questions@.len() == question_types@.len() && 1
            <= questions@.len() <= 20 && old(state).oracle_fee * questions@.len() <= u64::MAX
            && requester_lamports < old(state).oracle_fee * questions@.len(),
        r == Err::<Vec<QuestionAccount>, Trace9Error>(Trace9Error::InvalidQuestion) ==> exists|
            i: int,
        | 0 <= i < questions@.len() && !question_len_ok(#[trigger] questions@[i]@),
        r == Err::<Vec<QuestionAccount>, Trace9Error>(Trace9Error::InvalidDeadline) ==> exists|
            i: int,
        | 0 <= i < deadlines@.len() && #[trigger] deadlines@[i] <= now,
        r is Err ==> *final(state) == *old(state),
        r matches Ok(qs) ==> {
            &&& qs@.len() == questions@.len()
            &&& forall|i: int|
                0 <= i < qs@.len() ==> is_question_record(
                    #[trigger] qs@[i],
                    (old(state).question_counter + i) as u64,
                    requester,
                    question_types@[i],
                    questions@[i]@,
                    old(state).oracle_fee,
                    now,
                    deadlines@[i],
                )
        },
        r is Ok ==> final(state).question_counter == old(state).question_counter
            + questions@.len() && final(state).authority == old(state).authority && final(state).oracle_provider == old(state).oracle_provider && final(state).oracle_fee == old(
            state,
        ).oracle_fee && final(state).provider_balance == old(state).provider_balance,
{
    let n = questions.len();
    if n != deadlines.len() || n != question_types.len() {
        return Err(Trace9Error::InvalidBatch);
    }
    if n == 0 || n > 20 {
        return Err(Trace9Error::InvalidBatchSize);
    }
    let fee = state.oracle_fee;
    let total_fee = match fee.checked_mul(n as u64) {
        Some(v) => v,
        None => {
            return Err(Trace9Error::Overflow);
        },
    };
    if requester_lamports < total_fee {
        return Err(Trace9Error::InsufficientFee);
    }
    let mut out: Vec<QuestionAccount> = Vec::new();
    let mut i: usize = 0;
    while i < n
        invariant
            n == questions@.len(),
            n == deadlines@.len(),
            n == question_types@.len(),
            1 <= n <= 20,
            i <= n,
            fee == old(state).oracle_fee,
            old(state).oracle_fee * n <= u64::MAX,
            requester_lamports >= old(state).oracle_fee * n,
            *state == *old(state),
            old(state).question_counter + n <= u64::MAX,
            out@.len() == i,
            forall|j: int| 0 <= j < i ==> question_len_ok(#[trigger] questions@[j]@),
            forall|j: int| 0 <= j < i ==> #[trigger] deadlines@[j] > now,
            forall|j: int|
                0 <= j < i ==> is_question_record(
                    #[trigger] out@[j],
                    (old(state).question_counter + j) as u64,
                    requester,
                    question_types@[j],
                    questions@[j]@,
                    old(state).oracle_fee,
                    now,
                    deadlines@[j],
                ),
        decreases n - i,
    {
        let q = &questions[i];
        let len = str_byte_len(q.as_str());
        if len == 0 || len > 500 {
            return Err(Trace9Error::InvalidQuestion);
        }
        if deadlines[i] <= now {
            return Err(Trace9Error::InvalidDeadline);
        }
        let question_hash = keccak256(q.as_str().as_bytes());
        let question_id = state.question_counter + (i as u64);
        out.push(
            QuestionAccount {
                question_id,
                requester,
                question_type: question_types[i],
                question_hash,
                bounty: fee,
                timestamp: now,
                deadline: deadlines[i],
                status: AnswerStatus::Pending,
                refunded: false,
            },
        );
        i = i + 1;
    }
    state.question_counter = state.question_counter + (n as u64);
    Ok(out)
}

/// A question record once it has been answered: the same record with its
/// status moved to `Answered`.
pub open spec fn answered_version(q: QuestionAccount) -> QuestionAccount {
    QuestionAccount { status: AnswerStatus::Answered, ..q }
}

/// Answers a batch of pending questions as independent `provide_answer`
/// calls, all or nothing: every question must still be pending and
/// unrefunded and every confidence score valid, or no record changes. The
/// combined bounty moves to the provider's withdrawable balance.
#[allow(unused_variables)]
pub fn batch_provide_answers(
    state: &mut OracleState,
    questions: &mut Vec<QuestionAccount>,
    provider: u64,
    text_answers: Vec<String>,
    numeric_answers: Vec<u64>,
    bool_answers: Vec<bool>,
    confidence_scores: Vec<u8>,
    data_sources: Vec<String>,
    now: i64,
) -> (r: Result<Vec<AnswerAccount>, Trace9Error>)
    ensures
        r is Ok <==> {
            &&& provider == old(state).oracle_provider
            &&& old(questions)@.len() == text_answers@.len()
            &&& old(questions)@.len() == numeric_answers@.len()
            &&& old(questions)@.len() == bool_answers@.len()
            &&& old(questions)@.len() == confidence_scores@.len()
            &&& old(questions)@.len() == data_sources@.len()
            &&& 1 <= old(questions)@.len() <= 20
            &&& forall|i: int|
                0 <= i < old(questions)@.len() ==> (#[trigger] old(questions)@[i]).status
                    == AnswerStatus::Pending && !old(questions)@[i].refunded
            &&& forall|i: int|
                0 <= i < confidence_scores@.len() ==> #[trigger] confidence_scores@[i] <= 100
            &&& old(state).provider_balance + sum_bounties(old(questions)@) <= u64::MAX
        },
        r == Err::<Vec<AnswerAccount>, Trace9Error>(Trace9Error::Unauthorized) <==> provider
            != old(state).oracle_provider,
        r == Err::<Vec<AnswerAccount>, Trace9Error>(Trace9Error::InvalidBatch) <==> provider
            == old(state).oracle_provider && !(old(questions)@.len() == text_answers@.len() && old(
            questions,
        )@.len() == numeric_answers@.len() && old(questions)@.len() == bool_answers@.len() && old(
            questions,
        )@.len() == confidence_scores@.len() && old(questions)@.len() == data_sources@.len()),
        r == Err::<Vec<AnswerAccount>, Trace9Error>(Trace9Error::InvalidBatchSize) <==> provider
            == old(state).oracle_provider && old(questions)@.len() == text_answers@.len() && old(
            questions,
        )@.len() == numeric_answers@.len() && old(questions)@.len() == bool_answers@.len() && old(
            questions,
        )@.len() == confidence_scores@.len() && old(questions)@.len() == data_sources@.len() && !(1
            <= old(questions)@.len() <= 20),
        r == Err::<Vec<AnswerAccount>, Trace9Error>(Trace9Error::AlreadyAnswered) ==> exists|
            i: int,
        | 0 <= i < old(questions)@.len() && (#[trigger] old(questions)@[i]).status
            != AnswerStatus::Pending,
        r == Err::<Vec<AnswerAccount>, Trace9Error>(Trace9Error::AlreadyRefunded) ==> exists|
            i: int,
        | 0 <= i < old(questions)@.len() && (#[trigger] old(questions)@[i]).refunded,
        r == Err::<Vec<AnswerAccount>, Trace9Error>(Trace9Error::InvalidConfidence) ==> exists|
            i: int,
        | 0 <= i < confidence_scores@.len() && #[trigger] confidence_scores@[i] > 100,
        r is Err ==> *final(state) == *old(state) && *final(questions) == *old(questions),
        r matches Ok(answers) ==> {
            &&& answers@.len() == old(questions)@.len()
            &&& final(questions)@.len() == old(questions)@.len()
            &&& forall|i: int|
                0 <= i < old(questions)@.len() ==> #[trigger] final(questions)@[i]
                    == answered_version(old(questions)@[i])
            &&& forall|i: int|
                0 <= i < old(questions)@.len() ==> #[trigger] answers@[i] == (AnswerAccount {
                    question_id: old(questions)@[i].question_id,
                    provider,
                    confidence_score: confidence_scores@[i],
                    bool_answer: bool_answers@[i],
                    numeric_answer: numeric_answers@[i],
                    timestamp: now,
                })
        },
        r is Ok ==> final(state).provider_balance == old(state).provider_balance + sum_bounties(
            old(questions)@,
        ) && final(state).authority == old(state).authority && final(state).oracle_provider == old(
            state,
        ).oracle_provider && final(state).question_counter == old(state).question_counter && final(state).oracle_fee == old(state).oracle_fee,
{
    if provider != state.oracle_provider {
        return Err(Trace9Error::Unauthorized);
    }
    let n = questions.len();
    if n != text_answers.len() || n != numeric_answers.len() || n != bool_answers.len() || n
        != confidence_scores.len() || n != data_sources.len() {
        return Err(Trace9Error::InvalidBatch);
    }
    if n == 0 || n > 20 {
        return Err(Trace9Error::InvalidBatchSize);
    }
    let mut i: usize = 0;
    while i < n
        invariant
            n == questions@.len(),
            n == text_answers@.len(),
            n == numeric_answers@.len(),
            n == bool_answers@.len(),
            n == confidence_scores@.len(),
            n == data_sources@.len(),
            1 <= n <= 20,
            i <= n,
            provider == old(state).oracle_provider,
            *questions == *old(questions),
            *state == *old(state),
            forall|j: int|
                0 <= j < i ==> (#[trigger] questions@[j]).status == AnswerStatus::Pending
                    && !questions@[j].refunded,
            forall|j: int| 0 <= j < i ==> #[trigger] confidence_scores@[j] <= 100,
        decreases n - i,
    {
        let q = questions[i];
        if q.status != AnswerStatus::Pending {
            return Err(Trace9Error::AlreadyAnswered);
        }
        if q.refunded {
            return Err(Trace9Error::AlreadyRefunded);
        }
        if confidence_scores[i] > 100 {
            return Err(Trace9Error::InvalidConfidence);
        }
        i = i + 1;
    }
    let mut total_bounty: u64 = 0;
    let mut i: usize = 0;
    while i < n
        invariant
            n == questions@.len(),
            n == text_answers@.len(),
            n == numeric_answers@.len(),
            n == bool_answers@.len(),
            n == confidence_scores@.len(),
            n == data_sources@.len(),
            1 <= n <= 20,
            i <= n,
            provider == old(state).oracle_provider,
            *questions == *old(questions),
            *state == *old(state),
            forall|j: int|
                0 <= j < n ==> (#[trigger] questions@[j]).status == AnswerStatus::Pending
                    && !questions@[j].refunded,
            forall|j: int| 0 <= j < n ==> #[trigger] confidence_scores@[j] <= 100,
            total_bounty == sum_bounties(questions@.take(i as int)),
        decreases n - i,
    {
        proof {
            assert(questions@.take(i + 1).drop_last() =~= questions@.take(i as int));
            assert(questions@.take(i + 1).last() == questions@[i as int]);
        }
        total_bounty = match total_bounty.checked_add(questions[i].bounty) {
            Some(v) => v,
            None => {
                proof {
                    lemma_sum_bounties_prefix_le(questions@, i + 1);
                }
                return Err(Trace9Error::Overflow);
            },
        };
        i = i + 1;
    }
    proof {
        assert(questions@.take(n as int) =~= questions@);
    }
    let new_balance = match state.provider_balance.checked_add(total_bounty) {
        Some(v) => v,
        None => {
            return Err(Trace9Error::Overflow);
        },
    };
    let mut updated: Vec<QuestionAccount> = Vec::new();
    let mut answers: Vec<AnswerAccount> = Vec::new();
    let mut i: usize = 0;
    while i < n
        invariant
            n == questions@.len(),
            n == text_answers@.len(),
            n == numeric_answers@.len(),
            n == bool_answers@.len(),
            n == confidence_scores@.len(),
            n == data_sources@.len(),
            1 <= n <= 20,
            i <= n,
            provider == old(state).oracle_provider,
            *questions == *old(questions),
            *state == *old(state),
            forall|j: int|
                0 <= j < n ==> (#[trigger] questions@[j]).status == AnswerStatus::Pending
                    && !questions@[j].refunded,
            forall|j: int| 0 <= j < n ==> #[trigger] confidence_scores@[j] <= 100,
            total_bounty == sum_bounties(questions@),
            new_balance == old(state).provider_balance + total_bounty,
            updated@.len() == i,
            answers@.len() == i,
            forall|j: int|
                0 <= j < i ==> #[trigger] updated@[j] == answered_version(questions@[j]),
            forall|j: int|
                0 <= j < i ==> #[trigger] answers@[j] == (AnswerAccount {
                    question_id: questions@[j].question_id,
                    provider,
                    confidence_score: confidence_scores@[j],
                    bool_answer: bool_answers@[j],
                    numeric_answer: numeric_answers@[j],
                    timestamp: now,
                }),
        decreases n - i,
    {
        let q = questions[i];
        updated.push(
            QuestionAccount {
                question_id: q.question_id,
                requester: q.requester,
                question_type: q.question_type,
                question_hash: q.question_hash,
                bounty: q.bounty,
                timestamp: q.timestamp,
                deadline: q.deadline,
                status: AnswerStatus::Answered,
                refunded: q.refunded,
            },
        );
        answers.push(
            AnswerAccount {
                question_id: q.question_id,
                provider,
                confidence_score: confidence_scores[i],
                bool_answer: bool_answers[i],
                numeric_answer: numeric_answers[i],
                timestamp: now,
            },
        );
        i = i + 1;
    }
    *questions = updated;
    state.provider_balance = new_balance;
    Ok(answers)
}

/// Changes the bounty charged per question; administrator only.
pub fn set_oracle_fee(state: &mut OracleState, caller: u64, new_fee: u64) -> (r: Result<
    (),
    Trace9Error,
>)
    ensures
        r is Ok <==> caller == old(state).authority,
        r == Err::<(), Trace9Error>(Trace9Error::Unauthorized) <==> caller != old(state).authority,
        r is Err ==> *final(state) == *old(state),
        r is Ok ==> *final(state) == (OracleState { oracle_fee: new_fee, ..*old(state) }),
{
    if caller != state.authority {
        return Err(Trace9Error::Unauthorized);
    }
    state.oracle_fee = new_fee;
    Ok(())
}

/// Changes the authorized answer provider; administrator only.
pub fn set_oracle_provider(state: &mut OracleState, caller: u64, new_provider: u64) -> (r: Result<
    (),
    Trace9Error,
>)
    ensures
        r is Ok <==> caller == old(state).authority,
        r == Err::<(), Trace9Error>(Trace9Error::Unauthorized) <==> caller != old(state).authority,
        r is Err ==> *final(state) == *old(state),
        r is Ok ==> *final(state) == (OracleState {
            oracle_provider: new_provider,
            ..*old(state)
        }),
{
    if caller != state.authority {
        return Err(Trace9Error::Unauthorized);
    }
    state.oracle_provider = new_provider;
    Ok(())
}

} // verus!
