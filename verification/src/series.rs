//! Time-series (all-or-nothing) prediction market.
//!
//! A market carries an ascending list of period deadlines. Each period is
//! resolved independently from the oracle once its own deadline has passed;
//! once every period is resolved, the market settles on the logical AND of
//! success across periods (a period's numeric result of exactly zero counts
//! as failure). Participants wager on "all periods succeed" against "not
//! all succeed"; winners receive stake plus a proportional share of the
//! losing pool.

use vstd::prelude::*;
use crate::text::byte_len;
use crate::text::str_byte_len;
use crate::fee::compute_fee;
use crate::fee::fee_of;
use crate::fee::net_of;
use crate::payout::payout_stake_plus_share;
use crate::payout::share_of;
use crate::oracle::AnswerAccount;

verus! {

#[derive(Clone, Copy, Debug, PartialEq, Eq, Structural)]
pub enum MarketError {
    InvalidQuestion,
    InvalidPeriodCount,
    DeadlinesNotAscending,
    MarketResolved,
    ZeroBet,
    Overflow,
    InvalidPeriod,
    PeriodAlreadyResolved,
    TooEarly,
    OracleNotAnswered,
    NotAllResolved,
    AlreadyClaimed,
    NotWinner,
    NoWinnings,
}

/// Deployment-wide state; fees stay with each market in this variant.
pub struct MarketState {
    pub authority: u64,
    pub oracle_program: u64,
    pub market_counter: u64,
    pub fee_percentage: u16,
}

/// One sub-period of a time-series market: its deadline, the oracle
/// question bound to it, and its resolved numeric result.
#[derive(Clone, Copy, Debug, PartialEq, Eq, Structural)]
pub struct TimePeriod {
    pub deadline: i64,
    pub question_id: u64,
    pub result: u64,
    pub resolved: bool,
}

/// One time-series market: its periods, one pool per aggregate side, and
/// the aggregate resolution state.
pub struct MarketAccount {
    pub market_id: u64,
    pub question: String,
    pub periods: Vec<TimePeriod>,
    pub success_pool: u64,
    pub failure_pool: u64,
    pub total_fees: u64,
    pub created_at: i64,
    pub all_resolved: bool,
    pub all_success: bool,
}

/// One participant's accumulated net stake per aggregate side, and the
/// one-shot claimed flag.
pub struct Position {
    pub success_amount: u64,
    pub failure_amount: u64,
    pub claimed: bool,
}

/// Everything escrowed with the market: both pools plus the fees collected
/// from its stakes.
pub open spec fn staked_total(m: MarketAccount) -> int {
    m.success_pool + m.failure_pool + m.total_fees
}

/// Every period has been resolved.
pub open spec fn all_resolved_spec(periods: Seq<TimePeriod>) -> bool {
    forall|i: int| 0 <= i < periods.len() ==> (#[trigger] periods[i]).resolved
}

/// Every period succeeded: a numeric result of exactly zero counts as
/// failure.
pub open spec fn all_success_spec(periods: Seq<TimePeriod>) -> bool {
    forall|i: int| 0 <= i < periods.len() ==> (#[trigger] periods[i]).result != 0
}

/// A stake is accepted only while the market's aggregate outcome is still
/// open, and for a positive amount.
pub open spec fn can_take_position(m: MarketAccount, bet: u64) -> bool {
    !m.all_resolved && bet > 0
}

/// The fee split of `bet` and the three ledger additions all fit in 64 bits.
pub open spec fn take_position_fits(
    state: MarketState,
    m: MarketAccount,
    p: Position,
    bet: u64,
    predict_all_success: bool,
) -> bool {
    &&& fee_of(bet, state.fee_percentage) <= bet
    &&& m.total_fees + fee_of(bet, state.fee_percentage) <= u64::MAX
    &&& (if predict_all_success {
        m.success_pool
    } else {
        m.failure_pool
    }) + net_of(bet, state.fee_percentage) <= u64::MAX
    &&& (if predict_all_success {
        p.success_amount
    } else {
        p.failure_amount
    }) + net_of(bet, state.fee_percentage) <= u64::MAX
}

/// One accepted stake applied to the market's ledgers.
pub open spec fn apply_stake(
    m: MarketAccount,
    predict_all_success: bool,
    net: u64,
    fee: u64,
) -> MarketAccount {
    MarketAccount {
        success_pool: if predict_all_success {
            (m.success_pool + net) as u64
        } else {
            m.success_pool
        },
        failure_pool: if predict_all_success {
            m.failure_pool
        } else {
            (m.failure_pool + net) as u64
        },
        total_fees: (m.total_fees + fee) as u64,
        ..m
    }
}

/// The stake's two ledger additions fit in 64 bits.
pub open spec fn stake_fits(
    m: MarketAccount,
    predict_all_success: bool,
    net: u64,
    fee: u64,
) -> bool {
    &&& m.total_fees + fee <= u64::MAX
    &&& (if predict_all_success {
        m.success_pool
    } else {
        m.failure_pool
    }) + net <= u64::MAX
}

/// A sequence of accepted stakes `(predict_all_success, net, fee)` applied
/// in order.
pub open spec fn replay_stakes(m: MarketAccount, stakes: Seq<(bool, u64, u64)>) -> MarketAccount
    decreases stakes.len(),
{
    if stakes.len() == 0 {
        m
    } else {
        apply_stake(
            replay_stakes(m, stakes.drop_last()),
            stakes.last().0,
            stakes.last().1,
            stakes.last().2,
        )
    }
}

/// Every stake in the sequence fits when applied in order.
pub open spec fn replay_fits(m: MarketAccount, stakes: Seq<(bool, u64, u64)>) -> bool
    decreases stakes.len(),
{
    if stakes.len() == 0 {
        true
    } else {
        replay_fits(m, stakes.drop_last()) && stake_fits(
            replay_stakes(m, stakes.drop_last()),
            stakes.last().0,
            stakes.last().1,
            stakes.last().2,
        )
    }
}

/// The gross value of a sequence of accepted stakes: net plus fee of each.
pub open spec fn gross_total(stakes: Seq<(bool, u64, u64)>) -> int
    decreases stakes.len(),
{
    if stakes.len() == 0 {
        0
    } else {
        gross_total(stakes.drop_last()) + stakes.last().1 + stakes.last().2
    }
}

/// Conservation: however a market's ledgers are grown by accepted stakes,
/// the pools plus the collected fees always hold exactly what was staked:
/// the starting total plus the gross value of every accepted stake.
pub proof fn lemma_conservation(m: MarketAccount, stakes: Seq<(bool, u64, u64)>)
    requires
        replay_fits(m, stakes),
    ensures
        staked_total(replay_stakes(m, stakes)) == staked_total(m) + gross_total(stakes),
    decreases stakes.len(),
{
    if stakes.len() > 0 {
        lemma_conservation(m, stakes.drop_last());
    }
}

/// One period resolves only once, after its own deadline, and only once
/// the oracle has answered it with positive confidence (a confidence score
/// of zero means unanswered). The numeric result may be any value; a
/// result of exactly zero records a failed period.
pub open spec fn can_resolve_period(
    m: MarketAccount,
    period_index: u8,
    answer: AnswerAccount,
    now: i64,
) -> bool {
    &&& period_index < m.periods@.len()
    &&& !m.periods@[period_index as int].resolved
    &&& now >= m.periods@[period_index as int].deadline
    &&& answer.confidence_score > 0
}

/// The winning side's pool of a settled market.
pub open spec fn winning_pool(m: MarketAccount) -> u64 {
    if m.all_success {
        m.success_pool
    } else {
        m.failure_pool
    }
}

/// The losing side's pool of a settled market.
pub open spec fn losing_pool(m: MarketAccount) -> u64 {
    if m.all_success {
        m.failure_pool
    } else {
        m.success_pool
    }
}

/// The claimant's stake on the winning side.
pub open spec fn winning_amount(m: MarketAccount, p: Position) -> u64 {
    if m.all_success {
        p.success_amount
    } else {
        p.failure_amount
    }
}

/// The outcome of a claim against a settled market: the claimant's stake
/// plus their proportional share of the losing pool, or the error that
/// rejects it.
pub open spec fn claim_winnings_result(m: MarketAccount, p: Position) -> Result<u64, MarketError> {
    if !m.all_resolved {
        Err(MarketError::NotAllResolved)
    } else if p.claimed {
        Err(MarketError::AlreadyClaimed)
    } else if winning_amount(m, p) == 0 {
        Err(MarketError::NotWinner)
    } else if winning_pool(m) == 0 {
        Err(MarketError::NoWinnings)
    } else if winning_amount(m, p) * losing_pool(m) > u64::MAX || winning_amount(m, p) + share_of(
        winning_amount(m, p),
        winning_pool(m) as int,
        losing_pool(m) as int,
    ) > u64::MAX {
        Err(MarketError::Overflow)
    } else {
        Ok(
            (winning_amount(m, p) + share_of(
                winning_amount(m, p),
                winning_pool(m) as int,
                losing_pool(m) as int,
            )) as u64,
        )
    }
}

/// The position after a claim: the claimed flag is set exactly when the
/// claim succeeds; nothing else ever changes.
pub open spec fn claim_winnings_post(m: MarketAccount, p: Position) -> Position {
    if claim_winnings_result(m, p) is Ok {
        Position {
            success_amount: p.success_amount,
            failure_amount: p.failure_amount,
            claimed: true,
        }
    } else {
        p
    }
}

/// At-most-once claim: once a claim has succeeded, every further claim on
/// the same position fails with the idempotency error and leaves the
/// position unchanged.
pub proof fn lemma_claim_at_most_once(m: MarketAccount, p: Position)
    requires
        claim_winnings_result(m, p) is Ok,
    ensures
        claim_winnings_result(m, claim_winnings_post(m, p)) == Err::<u64, MarketError>(
            MarketError::AlreadyClaimed,
        ),
        claim_winnings_post(m, claim_winnings_post(m, p)) == claim_winnings_post(m, p),
{
}

/// Monotone resolution: once the aggregate outcome is settled no further
/// stake is accepted, and no period of a fully resolved market can be
/// resolved again.
pub proof fn lemma_terminal_is_final(
    m: MarketAccount,
    bet: u64,
    period_index: u8,
    answer: AnswerAccount,
    now: i64,
)
    requires
        m.all_resolved,
        all_resolved_spec(m.periods@),
    ensures
        !can_take_position(m, bet),
        !can_resolve_period(m, period_index, answer, now),
{
}

/// Sets up the deployment: the administrator, the oracle deployment to
/// consult, and the fee rate, which the administrator keeps within the
/// deployment's 10% ceiling.
pub fn initialize(authority: u64, oracle_program: u64, fee_percentage: u16) -> (s: MarketState)
    requires
        fee_percentage <= 1000,
    ensures
        s.authority == authority,
        s.oracle_program == oracle_program,
        s.market_counter == 0,
        s.fee_percentage == fee_percentage,
{
    MarketState { authority, oracle_program, market_counter: 0, fee_percentage }
}

/// Creates a time-series market under the next market id: the question
/// must be non-empty and at most 500 bytes of UTF-8, and there must be 2 to 12
/// period deadlines in strictly ascending order.
pub fn create_market(
    state: &mut MarketState,
    question: String,
    deadlines: Vec<i64>,
    now: i64,
) -> (r: Result<(u64, MarketAccount), MarketError>)
    requires
        old(state).market_counter < u64::MAX,
    ensures
        r is Ok <==> {
            &&& 1 <= byte_len(question@) <= 500
            &&& 2 <= deadlines@.len() <= 12
            &&& forall|i: int| 1 <= i < deadlines@.len() ==> #[trigger] deadlines@[i] > deadlines@[i - 1]
        },
        r == Err::<(u64, MarketAccount), MarketError>(MarketError::InvalidQuestion) <==> !(1
            <= byte_len(question@) <= 500),
        r == Err::<(u64, MarketAccount), MarketError>(MarketError::InvalidPeriodCount) <==> 1
            <= byte_len(question@) <= 500 && !(2 <= deadlines@.len() <= 12),
        r == Err::<(u64, MarketAccount), MarketError>(MarketError::DeadlinesNotAscending) <==> {
            &&& 1 <= byte_len(question@) <= 500
            &&& 2 <= deadlines@.len() <= 12
            &&& exists|i: int| 1 <= i < deadlines@.len() && #[trigger] deadlines@[i] <= deadlines@[i - 1]
        },
        r is Err ==> *final(state) == *old(state),
        r matches Ok(p) ==> {
            &&& p.0 == old(state).market_counter
            &&& final(state).market_counter == old(state).market_counter + 1
            &&& final(state).authority == old(state).authority
            &&& final(state).oracle_program == old(state).oracle_program
            &&& final(state).fee_percentage == old(state).fee_percentage
            &&& p.1.market_id == p.0
            &&& p.1.question == question
            &&& p.1.periods@.len() == deadlines@.len()
            &&& forall|i: int|
                0 <= i < deadlines@.len() ==> #[trigger] p.1.periods@[i] == (TimePeriod {
                    deadline: deadlines@[i],
                    question_id: 0,
                    result: 0,
                    resolved: false,
                })
            &&& p.1.success_pool == 0
            &&& p.1.failure_pool == 0
            &&& p.1.total_fees == 0
            &&& p.1.created_at == now
            &&& p.1.all_resolved == false
            &&& p.1.all_success == false
        },
{
    let len = str_byte_len(question.as_str());
    if len == 0 || len > 500 {
        return Err(MarketError::InvalidQuestion);
    }
    let n = deadlines.len();
    if n < 2 || n > 12 {
        return Err(MarketError::InvalidPeriodCount);
    }
    let mut i: usize = 1;
    while i < n
        invariant
            n == deadlines@.len(),
            2 <= n <= 12,
            1 <= byte_len(question@) <= 500,
            1 <= i <= n,
            *state == *old(state),
            forall|j: int| 1 <= j < i ==> #[trigger] deadlines@[j] > deadlines@[j - 1],
        decreases n - i,
    {
        if deadlines[i] <= deadlines[i - 1] {
            return Err(MarketError::DeadlinesNotAscending);
        }
        i = i + 1;
    }
    let mut periods: Vec<TimePeriod> = Vec::new();
    let mut i: usize = 0;
    while i < n
        invariant
            n == deadlines@.len(),
            2 <= n <= 12,
            1 <= byte_len(question@) <= 500,
            i <= n,
            *state == *old(state),
            forall|j: int| 1 <= j < n ==> #[trigger] deadlines@[j] > deadlines@[j - 1],
            periods@.len() == i,
            forall|j: int|
                0 <= j < i ==> #[trigger] periods@[j] == (TimePeriod {
                    deadline: deadlines@[j],
                    question_id: 0,
                    result: 0,
                    resolved: false,
                }),
        decreases n - i,
    {
        periods.push(
            TimePeriod { deadline: deadlines[i], question_id: 0, result: 0, resolved: false },
        );
        i = i + 1;
    }
    let market_id = state.market_counter;
    state.market_counter = market_id + 1;
    let market = MarketAccount {
        market_id,
        question,
        periods,
        success_pool: 0,
        failure_pool: 0,
        total_fees: 0,
        created_at: now,
        all_resolved: false,
        all_success: false,
    };
    Ok((market_id, market))
}

/// Accepts a stake of `bet_amount` on one aggregate side while the market's
/// outcome is still open: the fee is split off, the predicted side's pool
/// and the participant's position grow by the net amount, and the market's
/// fee total grows by the fee. The whole operation applies or nothing does.
pub fn take_position(
    state: &MarketState,
    market: &mut MarketAccount,
    position: &mut Position,
    bet_amount: u64,
    predict_all_success: bool,
) -> (r: Result<(), MarketError>)
    ensures
        r is Ok <==> can_take_position(*old(market), bet_amount) && take_position_fits(
            *state,
            *old(market),
            *old(position),
            bet_amount,
            predict_all_success,
        ),
        r == Err::<(), MarketError>(MarketError::MarketResolved) <==> old(market).all_resolved,
        r == Err::<(), MarketError>(MarketError::ZeroBet) <==> !old(market).all_resolved
            && bet_amount == 0,
        r == Err::<(), MarketError>(MarketError::Overflow) <==> can_take_position(
            *old(market),
            bet_amount,
        ) && !take_position_fits(
            *state,
            *old(market),
            *old(position),
            bet_amount,
            predict_all_success,
        ),
        r is Err ==> *final(market) == *old(market) && *final(position) == *old(position),
        r is Ok ==> {
            &&& final(market).success_pool == old(market).success_pool + (
            if predict_all_success {
                net_of(bet_amount, state.fee_percentage)
            } else {
                0
            })
            &&& final(market).failure_pool == old(market).failure_pool + (
            if predict_all_success {
                0
            } else {
                net_of(bet_amount, state.fee_percentage)
            })
            &&& final(market).total_fees == old(market).total_fees + fee_of(
                bet_amount,
                state.fee_percentage,
            )
            &&& final(market).market_id == old(market).market_id
            &&& final(market).question == old(market).question
            &&& final(market).periods == old(market).periods
            &&& final(market).created_at == old(market).created_at
            &&& final(market).all_resolved == old(market).all_resolved
            &&& final(market).all_success == old(market).all_success
        },
        r is Ok ==> *final(market) == apply_stake(
            *old(market),
            predict_all_success,
            net_of(bet_amount, state.fee_percentage) as u64,
            fee_of(bet_amount, state.fee_percentage) as u64,
        ),
        r is Ok ==> staked_total(*final(market)) == staked_total(*old(market)) + bet_amount,
        r is Ok ==> {
            &&& final(position).claimed == old(position).claimed
            &&& final(position).success_amount == old(position).success_amount + (
            if predict_all_success {
                net_of(bet_amount, state.fee_percentage)
            } else {
                0
            })
            &&& final(position).failure_amount == old(position).failure_amount + (
            if predict_all_success {
                0
            } else {
                net_of(bet_amount, state.fee_percentage)
            })
        },
{
    if market.all_resolved {
        return Err(MarketError::MarketResolved);
    }
    if bet_amount == 0 {
        return Err(MarketError::ZeroBet);
    }
    let (net, f) = match compute_fee(bet_amount, state.fee_percentage) {
        Some(p) => p,
        None => {
            return Err(MarketError::Overflow);
        },
    };
    let new_fees = match market.total_fees.checked_add(f) {
        Some(v) => v,
        None => {
            return Err(MarketError::Overflow);
        },
    };
    let pool = if predict_all_success {
        market.success_pool
    } else {
        market.failure_pool
    };
    let new_pool = match pool.checked_add(net) {
        Some(v) => v,
        None => {
            return Err(MarketError::Overflow);
        },
    };
    let amount = if predict_all_success {
        position.success_amount
    } else {
        position.failure_amount
    };
    let new_amount = match amount.checked_add(net) {
        Some(v) => v,
        None => {
            return Err(MarketError::Overflow);
        },
    };
    market.total_fees = new_fees;
    if predict_all_success {
        market.success_pool = new_pool;
        position.success_amount = new_amount;
    } else {
        market.failure_pool = new_pool;
        position.failure_amount = new_amount;
    }
    Ok(())
}

/// Re-evaluates the aggregate outcome: once every period is resolved, the
/// market settles exactly once on the logical AND of success across
/// periods; until then nothing changes.
pub fn check_all_resolved(market: &mut MarketAccount)
    ensures
        all_resolved_spec(old(market).periods@) ==> *final(market) == (MarketAccount {
            all_resolved: true,
            all_success: all_success_spec(old(market).periods@),
            ..*old(market)
        }),
        !all_resolved_spec(old(market).periods@) ==> *final(market) == *old(market),
{
    let n = market.periods.len();
    let mut all_resolved = true;
    let mut all_success = true;
    let mut i: usize = 0;
    while i < n
        invariant
            n == market.periods@.len(),
            i <= n,
            *market == *old(market),
            all_resolved == (forall|j: int|
                0 <= j < i ==> (#[trigger] market.periods@[j]).resolved),
            all_success == (forall|j: int|
                0 <= j < i ==> (#[trigger] market.periods@[j]).result != 0),
        decreases n - i,
    {
        let period = market.periods[i];
        if !period.resolved {
            all_resolved = false;
        }
        if period.result == 0 {
            all_success = false;
        }
        i = i + 1;
    }
    if all_resolved {
        market.all_resolved = true;
        market.all_success = all_success;
    }
}

/// Resolves one period once its own deadline has passed and the oracle has
/// answered it with positive confidence, then re-evaluates whether the
/// whole market settles.
pub fn resolve_period(
    market: &mut MarketAccount,
    period_index: u8,
    answer: &AnswerAccount,
    now: i64,
) -> (r: Result<(), MarketError>)
    ensures
        r is Ok <==> can_resolve_period(*old(market), period_index, *answer, now),
        r == Err::<(), MarketError>(MarketError::InvalidPeriod) <==> period_index >= old(
            market,
        ).periods@.len(),
        r == Err::<(), MarketError>(MarketError::PeriodAlreadyResolved) <==> period_index < old(
            market,
        ).periods@.len() && old(market).periods@[period_index as int].resolved,
        r == Err::<(), MarketError>(MarketError::TooEarly) <==> period_index < old(
            market,
        ).periods@.len() && !old(market).periods@[period_index as int].resolved && now < old(
            market,
        ).periods@[period_index as int].deadline,
        r == Err::<(), MarketError>(MarketError::OracleNotAnswered) <==> period_index < old(
            market,
        ).periods@.len() && !old(market).periods@[period_index as int].resolved && now >= old(
            market,
        ).periods@[period_index as int].deadline && answer.confidence_score == 0,
        r is Err ==> *final(market) == *old(market),
        r is Ok ==> {
            let updated = old(market).periods@.update(
                period_index as int,
                TimePeriod {
                    deadline: old(market).periods@[period_index as int].deadline,
                    question_id: old(market).periods@[period_index as int].question_id,
                    result: answer.numeric_answer,
                    resolved: true,
                },
            );
            {
                &&& final(market).periods@ == updated
                &&& final(market).market_id == old(market).market_id
                &&& final(market).question == old(market).question
                &&& final(market).success_pool == old(market).success_pool
                &&& final(market).failure_pool == old(market).failure_pool
                &&& final(market).total_fees == old(market).total_fees
                &&& final(market).created_at == old(market).created_at
                &&& final(market).all_resolved == (if all_resolved_spec(updated) {
                    true
                } else {
                    old(market).all_resolved
                })
                &&& final(market).all_success == (if all_resolved_spec(updated) {
                    all_success_spec(updated)
                } else {
                    old(market).all_success
                })
            }
        },
{
    let n = market.periods.len();
    if period_index as usize >= n {
        return Err(MarketError::InvalidPeriod);
    }
    let idx = period_index as usize;
    let period = market.periods[idx];
    if period.resolved {
        return Err(MarketError::PeriodAlreadyResolved);
    }
    if now < period.deadline {
        return Err(MarketError::TooEarly);
    }
    if answer.confidence_score == 0 {
        return Err(MarketError::OracleNotAnswered);
    }
    let numeric_answer = answer.numeric_answer;
    market.periods[idx] = TimePeriod {
        deadline: period.deadline,
        question_id: period.question_id,
        result: numeric_answer,
        resolved: true,
    };
    check_all_resolved(market);
    Ok(())
}

/// Pays a winner of a settled market their stake plus a proportional share
/// of the losing pool, marking the position claimed first; the caller
/// transfers the returned amount.
pub fn claim_winnings(market: &MarketAccount, position: &mut Position) -> (r: Result<
    u64,
    MarketError,
>)
    ensures
        r == claim_winnings_result(*market, *old(position)),
        *final(position) == claim_winnings_post(*market, *old(position)),
{
    if !market.all_resolved {
        return Err(MarketError::NotAllResolved);
    }
    if position.claimed {
        return Err(MarketError::AlreadyClaimed);
    }
    let w_pool = if market.all_success {
        market.success_pool
    } else {
        market.failure_pool
    };
    let l_pool = if market.all_success {
        market.failure_pool
    } else {
        market.success_pool
    };
    let user_winning_amount = if market.all_success {
        position.success_amount
    } else {
        position.failure_amount
    };
    if user_winning_amount == 0 {
        return Err(MarketError::NotWinner);
    }
    if w_pool == 0 {
        return Err(MarketError::NoWinnings);
    }
    let payout = match payout_stake_plus_share(user_winning_amount, w_pool, l_pool) {
        Some(v) => v,
        None => {
            return Err(MarketError::Overflow);
        },
    };
    position.claimed = true;
    Ok(payout)
}

} // verus!
