//! Numeric-range prediction market.
//!
//! Participants wager on whether the oracle's numeric answer will fall
//! inside a fixed `[lower_bound, upper_bound]` interval. Winners receive
//! their stake back plus a proportional share of the losing pool:
//! `stake + stake * losing_pool / winning_pool`.

use vstd::prelude::*;
use crate::text::byte_len;
use crate::text::str_byte_len;
use crate::fee::compute_fee;
use crate::fee::fee_of;
use crate::fee::net_of;
use crate::payout::payout_stake_plus_share;
use crate::payout::share_of;
use crate::oracle::AnswerAccount;

verus! {

#[derive(Clone, Copy, Debug, PartialEq, Eq, Structural)]
pub enum MarketError {
    InvalidQuestion,
    InvalidRange,
    InvalidDeadline,
    AlreadyResolved,
    MarketClosed,
    ZeroBet,
    Overflow,
    TooEarly,
    OracleNotAnswered,
    NotResolved,
    AlreadyClaimed,
    NotWinner,
    NoWinnings,
}

/// Deployment-wide state; this variant keeps no deployment fee ledger, fees
/// stay with each market.
pub struct MarketState {
    pub authority: u64,
    pub oracle_program: u64,
    pub market_counter: u64,
    pub fee_percentage: u16,
}

/// One range market: the interval wagered on, one pool per side, and the
/// resolution state.
pub struct MarketAccount {
    pub market_id: u64,
    pub question: String,
    pub lower_bound: u64,
    pub upper_bound: u64,
    pub in_range_pool: u64,
    pub out_range_pool: u64,
    pub total_fees: u64,
    pub created_at: i64,
    pub deadline: i64,
    pub resolved_at: i64,
    pub resolved: bool,
    pub in_range: bool,
}

/// One participant's accumulated net stake per side, and the one-shot
/// claimed flag.
pub struct Position {
    pub in_range_amount: u64,
    pub out_range_amount: u64,
    pub claimed: bool,
}

/// Everything escrowed with the market: both pools plus the fees collected
/// from its stakes.
pub open spec fn staked_total(m: MarketAccount) -> int {
    m.in_range_pool + m.out_range_pool + m.total_fees
}

/// A stake is accepted only before resolution, before the deadline, and for
/// a positive amount.
pub open spec fn can_take_position(m: MarketAccount, now: i64, bet: u64) -> bool {
    !m.resolved && now < m.deadline && bet > 0
}

/// The fee split of `bet` and the three ledger additions all fit in 64 bits.
pub open spec fn take_position_fits(
    state: MarketState,
    m: MarketAccount,
    p: Position,
    bet: u64,
    predict_in_range: bool,
) -> bool {
    &&& fee_of(bet, state.fee_percentage) <= bet
    &&& m.total_fees + fee_of(bet, state.fee_percentage) <= u64::MAX
    &&& (if predict_in_range {
        m.in_range_pool
    } else {
        m.out_range_pool
    }) + net_of(bet, state.fee_percentage) <= u64::MAX
    &&& (if predict_in_range {
        p.in_range_amount
    } else {
        p.out_range_amount
    }) + net_of(bet, state.fee_percentage) <= u64::MAX
}

/// One accepted stake applied to the market's ledgers.
pub open spec fn apply_stake(
    m: MarketAccount,
    predict_in_range: bool,
    net: u64,
    fee: u64,
) -> MarketAccount {
    MarketAccount {
        in_range_pool: if predict_in_range {
            (m.in_range_pool + net) as u64
        } else {
            m.in_range_pool
        },
        out_range_pool: if predict_in_range {
            m.out_range_pool
        } else {
            (m.out_range_pool + net) as u64
        },
        total_fees: (m.total_fees + fee) as u64,
        ..m
    }
}

/// The stake's two ledger additions fit in 64 bits.
pub open spec fn stake_fits(m: MarketAccount, predict_in_range: bool, net: u64, fee: u64) -> bool {
    &&& m.total_fees + fee <= u64::MAX
    &&& (if predict_in_range {
        m.in_range_pool
    } else {
        m.out_range_pool
    }) + net <= u64::MAX
}

/// A sequence of accepted stakes `(predict_in_range, net, fee)` applied in
/// order.
pub open spec fn replay_stakes(m: MarketAccount, stakes: Seq<(bool, u64, u64)>) -> MarketAccount
    decreases stakes.len(),
{
    if stakes.len() == 0 {
        m
    } else {
        apply_stake(
            replay_stakes(m, stakes.drop_last()),
            stakes.last().0,
            stakes.last().1,
            stakes.last().2,
        )
    }
}

/// Every stake in the sequence fits when applied in order.
pub open spec fn replay_fits(m: MarketAccount, stakes: Seq<(bool, u64, u64)>) -> bool
    decreases stakes.len(),
{
    if stakes.len() == 0 {
        true
    } else {
        replay_fits(m, stakes.drop_last()) && stake_fits(
            replay_stakes(m, stakes.drop_last()),
            stakes.last().0,
            stakes.last().1,
            stakes.last().2,
        )
    }
}

/// The gross value of a sequence of accepted stakes: net plus fee of each.
pub open spec fn gross_total(stakes: Seq<(bool, u64, u64)>) -> int
    decreases stakes.len(),
{
    if stakes.len() == 0 {
        0
    } else {
        gross_total(stakes.drop_last()) + stakes.last().1 + stakes.last().2
    }
}

/// Conservation: however a market's ledgers are grown by accepted stakes,
/// the pools plus the collected fees always hold exactly what was staked:
/// the starting total plus the gross value of every accepted stake.
pub proof fn lemma_conservation(m: MarketAccount, stakes: Seq<(bool, u64, u64)>)
    requires
        replay_fits(m, stakes),
    ensures
        staked_total(replay_stakes(m, stakes)) == staked_total(m) + gross_total(stakes),
    decreases stakes.len(),
{
    if stakes.len() > 0 {
        lemma_conservation(m, stakes.drop_last());
    }
}

/// A market resolves only once: after its deadline, and only once the
/// oracle has answered with positive confidence (a confidence score of
/// zero means unanswered). The numeric answer itself may be any value,
/// zero included.
pub open spec fn can_resolve(m: MarketAccount, answer: AnswerAccount, now: i64) -> bool {
    !m.resolved && now >= m.deadline && answer.confidence_score > 0
}

/// The winning side's pool of a resolved market.
pub open spec fn winning_pool(m: MarketAccount) -> u64 {
    if m.in_range {
        m.in_range_pool
    } else {
        m.out_range_pool
    }
}

/// The losing side's pool of a resolved market.
pub open spec fn losing_pool(m: MarketAccount) -> u64 {
    if m.in_range {
        m.out_range_pool
    } else {
        m.in_range_pool
    }
}

/// The claimant's stake on the winning side.
pub open spec fn winning_amount(m: MarketAccount, p: Position) -> u64 {
    if m.in_range {
        p.in_range_amount
    } else {
        p.out_range_amount
    }
}

/// The outcome of a claim against a resolved market: the claimant's stake
/// plus their proportional share of the losing pool,
/// `stake + stake * losing / winning`, or the error that rejects it.
pub open spec fn claim_winnings_result(m: MarketAccount, p: Position) -> Result<u64, MarketError> {
    if !m.resolved {
        Err(MarketError::NotResolved)
    } else if p.claimed {
        Err(MarketError::AlreadyClaimed)
    } else if winning_amount(m, p) == 0 {
        Err(MarketError::NotWinner)
    } else if winning_pool(m) == 0 {
        Err(MarketError::NoWinnings)
    } else if winning_amount(m, p) * losing_pool(m) > u64::MAX || winning_amount(m, p) + share_of(
        winning_amount(m, p),
        winning_pool(m) as int,
        losing_pool(m) as int,
    ) > u64::MAX {
        Err(MarketError::Overflow)
    } else {
        Ok(
            (winning_amount(m, p) + share_of(
                winning_amount(m, p),
                winning_pool(m) as int,
                losing_pool(m) as int,
            )) as u64,
        )
    }
}

/// The position after a claim: the claimed flag is set exactly when the
/// claim succeeds; nothing else ever changes.
pub open spec fn claim_winnings_post(m: MarketAccount, p: Position) -> Position {
    if claim_winnings_result(m, p) is Ok {
        Position {
            in_range_amount: p.in_range_amount,
            out_range_amount: p.out_range_amount,
            claimed: true,
        }
    } else {
        p
    }
}

/// At-most-once claim: once a claim has succeeded, every further claim on
/// the same position fails with the idempotency error and leaves the
/// position unchanged.
pub proof fn lemma_claim_at_most_once(m: MarketAccount, p: Position)
    requires
        claim_winnings_result(m, p) is Ok,
    ensures
        claim_winnings_result(m, claim_winnings_post(m, p)) == Err::<u64, MarketError>(
            MarketError::AlreadyClaimed,
        ),
        claim_winnings_post(m, claim_winnings_post(m, p)) == claim_winnings_post(m, p),
{
}

/// Monotone resolution: a resolved market admits no further stake and no
/// second resolution.
pub proof fn lemma_terminal_is_final(m: MarketAccount, now: i64, bet: u64, answer: AnswerAccount)
    requires
        m.resolved,
    ensures
        !can_take_position(m, now, bet),
        !can_resolve(m, answer, now),
{
}

/// Sets up the deployment: the administrator, the oracle deployment to
/// consult, and the fee rate, which the administrator keeps within the
/// deployment's 10% ceiling.
pub fn initialize(authority: u64, oracle_program: u64, fee_percentage: u16) -> (s: MarketState)
    requires
        fee_percentage <= 1000,
    ensures
        s.authority == authority,
        s.oracle_program == oracle_program,
        s.market_counter == 0,
        s.fee_percentage == fee_percentage,
{
    MarketState { authority, oracle_program, market_counter: 0, fee_percentage }
}

/// Creates a range market under the next market id: the question must be
/// non-empty and at most 500 bytes of UTF-8, the interval non-empty
/// (`upper_bound > lower_bound`), and the deadline in the future.
pub fn create_market(
    state: &mut MarketState,
    question: String,
    lower_bound: u64,
    upper_bound: u64,
    deadline: i64,
    now: i64,
) -> (r: Result<(u64, MarketAccount), MarketError>)
    requires
        old(state).market_counter < u64::MAX,
    ensures
        r is Ok <==> 1 <= byte_len(question@) <= 500 && upper_bound > lower_bound && deadline > now,
        r == Err::<(u64, MarketAccount), MarketError>(MarketError::InvalidQuestion) <==> !(1
            <= byte_len(question@) <= 500),
        r == Err::<(u64, MarketAccount), MarketError>(MarketError::InvalidRange) <==> 1
            <= byte_len(question@) <= 500 && upper_bound <= lower_bound,
        r == Err::<(u64, MarketAccount), MarketError>(MarketError::InvalidDeadline) <==> 1
            <= byte_len(question@) <= 500 && upper_bound > lower_bound && deadline <= now,
        r is Err ==> *final(state) == *old(state),
        r matches Ok(p) ==> {
            &&& p.0 == old(state).market_counter
            &&& final(state).market_counter == old(state).market_counter + 1
            &&& final(state).authority == old(state).authority
            &&& final(state).oracle_program == old(state).oracle_program
            &&& final(state).fee_percentage == old(state).fee_percentage
            &&& p.1.market_id == p.0
            &&& p.1.question == question
            &&& p.1.lower_bound == lower_bound
            &&& p.1.upper_bound == upper_bound
            &&& p.1.in_range_pool == 0
            &&& p.1.out_range_pool == 0
            &&& p.1.total_fees == 0
            &&& p.1.created_at == now
            &&& p.1.deadline == deadline
            &&& p.1.resolved_at == 0
            &&& p.1.resolved == false
            &&& p.1.in_range == false
        },
{
    let len = str_byte_len(question.as_str());
    if len == 0 || len > 500 {
        return Err(MarketError::InvalidQuestion);
    }
    if upper_bound <= lower_bound {
        return Err(MarketError::InvalidRange);
    }
    if deadline <= now {
        return Err(MarketError::InvalidDeadline);
    }
    let market_id = state.market_counter;
    state.market_counter = market_id + 1;
    let market = MarketAccount {
        market_id,
        question,
        lower_bound,
        upper_bound,
        in_range_pool: 0,
        out_range_pool: 0,
        total_fees: 0,
        created_at: now,
        deadline,
        resolved_at: 0,
        resolved: false,
        in_range: false,
    };
    Ok((market_id, market))
}

/// Accepts a stake of `bet_amount` on one side of an unresolved market
/// before its deadline: the fee is split off, the predicted side's pool and
/// the participant's position grow by the net amount, and the market's fee
/// total grows by the fee. The whole operation applies or nothing does.
pub fn take_position(
    state: &MarketState,
    market: &mut MarketAccount,
    position: &mut Position,
    bet_amount: u64,
    predict_in_range: bool,
    now: i64,
) -> (r: Result<(), MarketError>)
    ensures
        r is Ok <==> can_take_position(*old(market), now, bet_amount) && take_position_fits(
            *state,
            *old(market),
            *old(position),
            bet_amount,
            predict_in_range,
        ),
        r == Err::<(), MarketError>(MarketError::AlreadyResolved) <==> old(market).resolved,
        r == Err::<(), MarketError>(MarketError::MarketClosed) <==> !old(market).resolved && now
            >= old(market).deadline,
        r == Err::<(), MarketError>(MarketError::ZeroBet) <==> !old(market).resolved && now < old(
            market,
        ).deadline && bet_amount == 0,
        r == Err::<(), MarketError>(MarketError::Overflow) <==> can_take_position(
            *old(market),
            now,
            bet_amount,
        ) && !take_position_fits(*state, *old(market), *old(position), bet_amount, predict_in_range),
        r is Err ==> *final(market) == *old(market) && *final(position) == *old(position),
        r is Ok ==> {
            &&& final(market).in_range_pool == old(market).in_range_pool + (if predict_in_range {
                net_of(bet_amount, state.fee_percentage)
            } else {
                0
            })
            &&& final(market).out_range_pool == old(market).out_range_pool + (
            if predict_in_range {
                0
            } else {
                net_of(bet_amount, state.fee_percentage)
            })
            &&& final(market).total_fees == old(market).total_fees + fee_of(
                bet_amount,
                state.fee_percentage,
            )
            &&& final(market).market_id == old(market).market_id
            &&& final(market).question == old(market).question
            &&& final(market).lower_bound == old(market).lower_bound
            &&& final(market).upper_bound == old(market).upper_bound
            &&& final(market).created_at == old(market).created_at
            &&& final(market).deadline == old(market).deadline
            &&& final(market).resolved_at == old(market).resolved_at
            &&& final(market).resolved == old(market).resolved
            &&& final(market).in_range == old(market).in_range
        },
        r is Ok ==> *final(market) == apply_stake(
            *old(market),
            predict_in_range,
            net_of(bet_amount, state.fee_percentage) as u64,
            fee_of(bet_amount, state.fee_percentage) as u64,
        ),
        r is Ok ==> staked_total(*final(market)) == staked_total(*old(market)) + bet_amount,
        r is Ok ==> {
            &&& final(position).claimed == old(position).claimed
            &&& final(position).in_range_amount == old(position).in_range_amount + (
            if predict_in_range {
                net_of(bet_amount, state.fee_percentage)
            } else {
                0
            })
            &&& final(position).out_range_amount == old(position).out_range_amount + (
            if predict_in_range {
                0
            } else {
                net_of(bet_amount, state.fee_percentage)
            })
        },
{
    if market.resolved {
        return Err(MarketError::AlreadyResolved);
    }
    if now >= market.deadline {
        return Err(MarketError::MarketClosed);
    }
    if bet_amount == 0 {
        return Err(MarketError::ZeroBet);
    }
    let (net, f) = match compute_fee(bet_amount, state.fee_percentage) {
        Some(p) => p,
        None => {
            return Err(MarketError::Overflow);
        },
    };
    let new_fees = match market.total_fees.checked_add(f) {
        Some(v) => v,
        None => {
            return Err(MarketError::Overflow);
        },
    };
    let pool = if predict_in_range {
        market.in_range_pool
    } else {
        market.out_range_pool
    };
    let new_pool = match pool.checked_add(net) {
        Some(v) => v,
        None => {
            return Err(MarketError::Overflow);
        },
    };
    let amount = if predict_in_range {
        position.in_range_amount
    } else {
        position.out_range_amount
    };
    let new_amount = match amount.checked_add(net) {
        Some(v) => v,
        None => {
            return Err(MarketError::Overflow);
        },
    };
    market.total_fees = new_fees;
    if predict_in_range {
        market.in_range_pool = new_pool;
        position.in_range_amount = new_amount;
    } else {
        market.out_range_pool = new_pool;
        position.out_range_amount = new_amount;
    }
    Ok(())
}

/// Resolves an unresolved market once its deadline has passed and the
/// oracle has answered with positive confidence: the market settles on
/// whether the numeric answer lies inside the interval.
pub fn resolve_market(market: &mut MarketAccount, answer: &AnswerAccount, now: i64) -> (r: Result<
    (),
    MarketError,
>)
    ensures
        r is Ok <==> can_resolve(*old(market), *answer, now),
        r == Err::<(), MarketError>(MarketError::AlreadyResolved) <==> old(market).resolved,
        r == Err::<(), MarketError>(MarketError::TooEarly) <==> !old(market).resolved && now < old(
            market,
        ).deadline,
        r == Err::<(), MarketError>(MarketError::OracleNotAnswered) <==> !old(market).resolved
            && now >= old(market).deadline && answer.confidence_score == 0,
        r is Err ==> *final(market) == *old(market),
        r is Ok ==> *final(market) == (MarketAccount {
            resolved: true,
            resolved_at: now,
            in_range: old(market).lower_bound <= answer.numeric_answer <= old(
                market,
            ).upper_bound,
            ..*old(market)
        }),
{
    if market.resolved {
        return Err(MarketError::AlreadyResolved);
    }
    if now < market.deadline {
        return Err(MarketError::TooEarly);
    }
    if answer.confidence_score == 0 {
        return Err(MarketError::OracleNotAnswered);
    }
    let numeric_answer = answer.numeric_answer;
    let value_in_range = numeric_answer >= market.lower_bound && numeric_answer
        <= market.upper_bound;
    market.in_range = value_in_range;
    market.resolved = true;
    market.resolved_at = now;
    Ok(())
}

/// Pays a winner of a resolved market their stake plus a proportional share
/// of the losing pool, marking the position claimed first; the caller
/// transfers the returned amount.
pub fn claim_winnings(market: &MarketAccount, position: &mut Position) -> (r: Result<
    u64,
    MarketError,
>)
    ensures
        r == claim_winnings_result(*market, *old(position)),
        *final(position) == claim_winnings_post(*market, *old(position)),
{
    if !market.resolved {
        return Err(MarketError::NotResolved);
    }
    if position.claimed {
        return Err(MarketError::AlreadyClaimed);
    }
    let w_pool = if market.in_range {
        market.in_range_pool
    } else {
        market.out_range_pool
    };
    let l_pool = if market.in_range {
        market.out_range_pool
    } else {
        market.in_range_pool
    };
    let user_winning_amount = if market.in_range {
        position.in_range_amount
    } else {
        position.out_range_amount
    };
    if user_winning_amount == 0 {
        return Err(MarketError::NotWinner);
    }
    if w_pool == 0 {
        return Err(MarketError::NoWinnings);
    }
    let payout = match payout_stake_plus_share(user_winning_amount, w_pool, l_pool) {
        Some(v) => v,
        None => {
            return Err(MarketError::Overflow);
        },
    };
    position.claimed = true;
    Ok(payout)
}

} // verus!
