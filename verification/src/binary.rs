//! Binary (yes/no) prediction market.
//!
//! A market holds one escrowed pool per side, net of fees. Participants take
//! positions while the market is open; once the resolution time has passed
//! and the oracle has answered, the market resolves to the side named by the
//! oracle's boolean answer; winners split the whole pool in proportion to
//! their stake in the winning side. A market whose oracle never answers can
//! be cancelled after a grace period, after which every participant may
//! reclaim their net stake. Each participant claims at most once.
//!
//! Account identities are plain `u64` values; the host resolves them to real
//! account keys. The current time is always handed in by the caller.

use vstd::prelude::*;
use crate::text::byte_len;
use crate::text::str_byte_len;
use crate::fee::compute_fee;
use crate::fee::fee_of;
use crate::fee::net_of;
use crate::payout::payout_proportional;

verus! {

/// Seconds after the resolution time during which the oracle may still
/// answer; only later may an unanswered market be cancelled.
pub const REFUND_PERIOD_SECS: i64 = 7 * 24 * 60 * 60;

#[derive(Clone, Copy, Debug, PartialEq, Eq, Structural)]
pub enum MarketStatus {
    Open,
    Closed,
    Resolved,
    Canceled,
}

#[derive(Clone, Copy, Debug, PartialEq, Eq, Structural)]
pub enum Outcome {
    Unresolved,
    Yes,
    No,
}

#[derive(Clone, Copy, Debug, PartialEq, Eq, Structural)]
pub enum MarketError {
    InvalidQuestion,
    InvalidResolutionTime,
    MarketNotOpen,
    MarketExpired,
    ZeroBet,
    Overflow,
    TooEarly,
    OracleNotAnswered,
    NotResolved,
    AlreadyClaimed,
    NoWinnings,
    TooEarlyToCancel,
    AlreadyAnswered,
    NotCanceled,
    NoPosition,
    Unauthorized,
    NoFees,
}

/// Deployment-wide state: the administrator, the oracle deployment consulted
/// at resolution, the id handed to the next market, the fee rate in basis
/// points, and fees collected from resolved markets.
pub struct MarketState {
    pub authority: u64,
    pub oracle_program: u64,
    pub market_counter: u64,
    pub fee_percentage: u16,
    pub accumulated_fees: u64,
}

/// One binary market: its question, per-side pools net of fees, fees
/// collected from its stakes, and its resolution state.
pub struct MarketAccount {
    pub market_id: u64,
    pub question: String,
    pub resolution_time: i64,
    pub yes_pool: u64,
    pub no_pool: u64,
    pub status: MarketStatus,
    pub outcome: Outcome,
    pub total_fees: u64,
    pub created_at: i64,
    pub creator: u64,
}

/// One participant's accumulated net stake per side of one market, and the
/// one-shot claimed flag.
pub struct Position {
    pub yes_amount: u64,
    pub no_amount: u64,
    pub claimed: bool,
}

/// The oracle's answer record for the question bound to a market, as the
/// oracle registry stores it. A confidence score of zero means the question
/// has not been answered.
pub struct OracleAnswer {
    pub question_id: u64,
    pub provider: u64,
    pub confidence_score: u8,
    pub bool_answer: bool,
    pub numeric_answer: u64,
    pub timestamp: i64,
}

/// Everything escrowed with the market: both pools plus the fees collected
/// from its stakes.
pub open spec fn staked_total(m: MarketAccount) -> int {
    m.yes_pool + m.no_pool + m.total_fees
}

/// A stake is accepted only on an open market, before its resolution time,
/// and for a positive amount.
pub open spec fn can_take_position(m: MarketAccount, now: i64, bet: u64) -> bool {
    m.status == MarketStatus::Open && now < m.resolution_time && bet > 0
}

/// The fee split of `bet` and the three ledger additions all fit in 64 bits.
pub open spec fn take_position_fits(
    state: MarketState,
    m: MarketAccount,
    p: Position,
    bet: u64,
    is_yes: bool,
) -> bool {
    &&& fee_of(bet, state.fee_percentage) <= bet
    &&& m.total_fees + fee_of(bet, state.fee_percentage) <= u64::MAX
    &&& (if is_yes {
        m.yes_pool
    } else {
        m.no_pool
    }) + net_of(bet, state.fee_percentage) <= u64::MAX
    &&& (if is_yes {
        p.yes_amount
    } else {
        p.no_amount
    }) + net_of(bet, state.fee_percentage) <= u64::MAX
}

/// A market resolves only once it is open, its resolution time has passed,
/// and the oracle has answered with positive confidence.
pub open spec fn can_resolve(m: MarketAccount, confidence: u8, now: i64) -> bool {
    m.status == MarketStatus::Open && now >= m.resolution_time && confidence > 0
}

/// A market cancels only once it is open, the grace period after its
/// resolution time has passed, and the oracle has still not answered.
pub open spec fn can_cancel(m: MarketAccount, confidence: u8, now: i64) -> bool {
    m.status == MarketStatus::Open && now >= m.resolution_time + REFUND_PERIOD_SECS && confidence
        == 0
}

/// One accepted stake applied to the market's ledgers.
pub open spec fn apply_stake(m: MarketAccount, is_yes: bool, net: u64, fee: u64) -> MarketAccount {
    MarketAccount {
        yes_pool: if is_yes {
            (m.yes_pool + net) as u64
        } else {
            m.yes_pool
        },
        no_pool: if is_yes {
            m.no_pool
        } else {
            (m.no_pool + net) as u64
        },
        total_fees: (m.total_fees + fee) as u64,
        ..m
    }
}

/// The stake's two ledger additions fit in 64 bits.
pub open spec fn stake_fits(m: MarketAccount, is_yes: bool, net: u64, fee: u64) -> bool {
    &&& m.total_fees + fee <= u64::MAX
    &&& (if is_yes {
        m.yes_pool
    } else {
        m.no_pool
    }) + net <= u64::MAX
}

/// A sequence of accepted stakes `(is_yes, net, fee)` applied in order.
pub open spec fn replay_stakes(m: MarketAccount, stakes: Seq<(bool, u64, u64)>) -> MarketAccount
    decreases stakes.len(),
{
    if stakes.len() == 0 {
        m
    } else {
        apply_stake(
            replay_stakes(m, stakes.drop_last()),
            stakes.last().0,
            stakes.last().1,
            stakes.last().2,
        )
    }
}

/// Every stake in the sequence fits when applied in order.
pub open spec fn replay_fits(m: MarketAccount, stakes: Seq<(bool, u64, u64)>) -> bool
    decreases stakes.len(),
{
    if stakes.len() == 0 {
        true
    } else {
        replay_fits(m, stakes.drop_last()) && stake_fits(
            replay_stakes(m, stakes.drop_last()),
            stakes.last().0,
            stakes.last().1,
            stakes.last().2,
        )
    }
}

/// The gross value of a sequence of accepted stakes: net plus fee of each.
pub open spec fn gross_total(stakes: Seq<(bool, u64, u64)>) -> int
    decreases stakes.len(),
{
    if stakes.len() == 0 {
        0
    } else {
        gross_total(stakes.drop_last()) + stakes.last().1 + stakes.last().2
    }
}

/// Conservation: however a market's ledgers are grown by accepted stakes,
/// the pools plus the collected fees always hold exactly what was staked:
/// the starting total plus the gross value of every accepted stake.
pub proof fn lemma_conservation(m: MarketAccount, stakes: Seq<(bool, u64, u64)>)
    requires
        replay_fits(m, stakes),
    ensures
        staked_total(replay_stakes(m, stakes)) == staked_total(m) + gross_total(stakes),
    decreases stakes.len(),
{
    if stakes.len() > 0 {
        lemma_conservation(m, stakes.drop_last());
    }
}

/// The outcome of a claim against a resolved market: the winnings owed, or
/// the error that rejects it. Winnings are the claimant's proportional share
/// of the whole pool: `stake * (yes_pool + no_pool) / winning_pool`.
pub open spec fn claim_winnings_result(m: MarketAccount, p: Position) -> Result<u64, MarketError> {
    if m.status != MarketStatus::Resolved {
        Err(MarketError::NotResolved)
    } else if p.claimed {
        Err(MarketError::AlreadyClaimed)
    } else if m.yes_pool + m.no_pool > u64::MAX {
        Err(MarketError::Overflow)
    } else if m.outcome == Outcome::Yes && p.yes_amount > 0 {
        if m.yes_pool == 0 {
            Err(MarketError::NoWinnings)
        } else if p.yes_amount * (m.yes_pool + m.no_pool) > u64::MAX {
            Err(MarketError::Overflow)
        } else if p.yes_amount * (m.yes_pool + m.no_pool) / (m.yes_pool as int) == 0 {
            Err(MarketError::NoWinnings)
        } else {
            Ok((p.yes_amount * (m.yes_pool + m.no_pool) / (m.yes_pool as int)) as u64)
        }
    } else if m.outcome == Outcome::No && p.no_amount > 0 {
        if m.no_pool == 0 {
            Err(MarketError::NoWinnings)
        } else if p.no_amount * (m.yes_pool + m.no_pool) > u64::MAX {
            Err(MarketError::Overflow)
        } else if p.no_amount * (m.yes_pool + m.no_pool) / (m.no_pool as int) == 0 {
            Err(MarketError::NoWinnings)
        } else {
            Ok((p.no_amount * (m.yes_pool + m.no_pool) / (m.no_pool as int)) as u64)
        }
    } else {
        Err(MarketError::NoWinnings)
    }
}

/// The position after a claim: the claimed flag is set exactly when the
/// claim succeeds; nothing else ever changes.
pub open spec fn claim_winnings_post(m: MarketAccount, p: Position) -> Position {
    if claim_winnings_result(m, p) is Ok {
        Position { yes_amount: p.yes_amount, no_amount: p.no_amount, claimed: true }
    } else {
        p
    }
}

/// The outcome of a refund claim against a cancelled market: the claimant's
/// combined net stake, or the error that rejects it.
pub open spec fn claim_refund_result(m: MarketAccount, p: Position) -> Result<u64, MarketError> {
    if m.status != MarketStatus::Canceled {
        Err(MarketError::NotCanceled)
    } else if p.claimed {
        Err(MarketError::AlreadyClaimed)
    } else if p.yes_amount + p.no_amount > u64::MAX {
        Err(MarketError::Overflow)
    } else if p.yes_amount + p.no_amount == 0 {
        Err(MarketError::NoPosition)
    } else {
        Ok((p.yes_amount + p.no_amount) as u64)
    }
}

/// The position after a refund claim: the claimed flag is set exactly when
/// the refund succeeds; nothing else ever changes.
pub open spec fn claim_refund_post(m: MarketAccount, p: Position) -> Position {
    if claim_refund_result(m, p) is Ok {
        Position { yes_amount: p.yes_amount, no_amount: p.no_amount, claimed: true }
    } else {
        p
    }
}

/// At-most-once claim: once a claim has succeeded, every further claim on
/// the same position fails with the idempotency error and leaves the
/// position unchanged, so no further funds are ever released.
pub proof fn lemma_claim_at_most_once(m: MarketAccount, p: Position)
    requires
        claim_winnings_result(m, p) is Ok,
    ensures
        claim_winnings_result(m, claim_winnings_post(m, p)) == Err::<u64, MarketError>(
            MarketError::AlreadyClaimed,
        ),
        claim_winnings_post(m, claim_winnings_post(m, p)) == claim_winnings_post(m, p),
{
}

/// At-most-once refund: once a refund has succeeded, every further refund on
/// the same position fails with the idempotency error and leaves the
/// position unchanged.
pub proof fn lemma_refund_at_most_once(m: MarketAccount, p: Position)
    requires
        claim_refund_result(m, p) is Ok,
    ensures
        claim_refund_result(m, claim_refund_post(m, p)) == Err::<u64, MarketError>(
            MarketError::AlreadyClaimed,
        ),
        claim_refund_post(m, claim_refund_post(m, p)) == claim_refund_post(m, p),
{
}

/// Monotone resolution: a market that has reached a terminal state admits no
/// further stake, no resolution and no cancellation, whatever the time, the
/// amount or the oracle's answer.
pub proof fn lemma_terminal_is_final(m: MarketAccount, now: i64, bet: u64, confidence: u8)
    requires
        m.status == MarketStatus::Resolved || m.status == MarketStatus::Canceled,
    ensures
        !can_take_position(m, now, bet),
        !can_resolve(m, confidence, now),
        !can_cancel(m, confidence, now),
{
}

/// Sets up the deployment: the administrator, the oracle deployment to
/// consult, and the fee rate, which the administrator keeps within the
/// deployment's 10% ceiling.
pub fn initialize(authority: u64, oracle_program: u64, fee_percentage: u16) -> (s: MarketState)
    requires
        fee_percentage <= 1000,
    ensures
        s.authority == authority,
        s.oracle_program == oracle_program,
        s.market_counter == 0,
        s.fee_percentage == fee_percentage,
        s.accumulated_fees == 0,
{
    MarketState { authority, oracle_program, market_counter: 0, fee_percentage, accumulated_fees: 0 }
}

/// Creates a binary market under the next market id: the question must be
/// non-empty and at most 500 bytes of UTF-8, and the resolution time must lie in
/// the future.
pub fn create_market(
    state: &mut MarketState,
    question: String,
    resolution_time: i64,
    now: i64,
    creator: u64,
) -> (r: Result<(u64, MarketAccount), MarketError>)
    requires
        old(state).market_counter < u64::MAX,
    ensures
        r is Ok <==> 1 <= byte_len(question@) <= 500 && resolution_time > now,
        r == Err::<(u64, MarketAccount), MarketError>(MarketError::InvalidQuestion) <==> !(1
            <= byte_len(question@) <= 500),
        r == Err::<(u64, MarketAccount), MarketError>(MarketError::InvalidResolutionTime) <==> 1
            <= byte_len(question@) <= 500 && resolution_time <= now,
        r is Err ==> *final(state) == *old(state),
        r matches Ok(p) ==> {
            &&& p.0 == old(state).market_counter
            &&& final(state).market_counter == old(state).market_counter + 1
            &&& final(state).authority == old(state).authority
            &&& final(state).oracle_program == old(state).oracle_program
            &&& final(state).fee_percentage == old(state).fee_percentage
            &&& final(state).accumulated_fees == old(state).accumulated_fees
            &&& p.1.market_id == p.0
            &&& p.1.question == question
            &&& p.1.resolution_time == resolution_time
            &&& p.1.yes_pool == 0
            &&& p.1.no_pool == 0
            &&& p.1.status == MarketStatus::Open
            &&& p.1.outcome == Outcome::Unresolved
            &&& p.1.total_fees == 0
            &&& p.1.created_at == now
            &&& p.1.creator == creator
        },
{
    let len = str_byte_len(question.as_str());
    if len == 0 || len > 500 {
        return Err(MarketError::InvalidQuestion);
    }
    if resolution_time <= now {
        return Err(MarketError::InvalidResolutionTime);
    }
    let market_id = state.market_counter;
    state.market_counter = market_id + 1;
    let market = MarketAccount {
        market_id,
        question,
        resolution_time,
        yes_pool: 0,
        no_pool: 0,
        status: MarketStatus::Open,
        outcome: Outcome::Unresolved,
        total_fees: 0,
        created_at: now,
        creator,
    };
    Ok((market_id, market))
}

/// Accepts a stake of `bet_amount` on one side of an open market: the fee is
/// split off, the side's pool and the participant's position grow by the net
/// amount, and the market's fee total grows by the fee. The whole operation
/// applies or nothing does.
pub fn take_position(
    state: &MarketState,
    market: &mut MarketAccount,
    position: &mut Position,
    bet_amount: u64,
    is_yes: bool,
    now: i64,
) -> (r: Result<(), MarketError>)
    ensures
        r is Ok <==> can_take_position(*old(market), now, bet_amount) && take_position_fits(
            *state,
            *old(market),
            *old(position),
            bet_amount,
            is_yes,
        ),
        r == Err::<(), MarketError>(MarketError::MarketNotOpen) <==> old(market).status
            != MarketStatus::Open,
        r == Err::<(), MarketError>(MarketError::MarketExpired) <==> old(market).status
            == MarketStatus::Open && now >= old(market).resolution_time,
        r == Err::<(), MarketError>(MarketError::ZeroBet) <==> old(market).status
            == MarketStatus::Open && now < old(market).resolution_time && bet_amount == 0,
        r == Err::<(), MarketError>(MarketError::Overflow) <==> can_take_position(
            *old(market),
            now,
            bet_amount,
        ) && !take_position_fits(*state, *old(market), *old(position), bet_amount, is_yes),
        r is Err ==> *final(market) == *old(market) && *final(position) == *old(position),
        r is Ok ==> *final(market) == apply_stake(
            *old(market),
            is_yes,
            net_of(bet_amount, state.fee_percentage) as u64,
            fee_of(bet_amount, state.fee_percentage) as u64,
        ),
        r is Ok ==> staked_total(*final(market)) == staked_total(*old(market)) + bet_amount,
        r is Ok ==> final(position).claimed == old(position).claimed && final(position).yes_amount == old(
            position,
        ).yes_amount + (if is_yes {
            net_of(bet_amount, state.fee_percentage)
        } else {
            0
        }) && final(position).no_amount == old(position).no_amount + (if is_yes {
            0
        } else {
            net_of(bet_amount, state.fee_percentage)
        }),
{
    if market.status != MarketStatus::Open {
        return Err(MarketError::MarketNotOpen);
    }
    if now >= market.resolution_time {
        return Err(MarketError::MarketExpired);
    }
    if bet_amount == 0 {
        return Err(MarketError::ZeroBet);
    }
    let (net, f) = match compute_fee(bet_amount, state.fee_percentage) {
        Some(p) => p,
        None => {
            return Err(MarketError::Overflow);
        },
    };
    let new_fees = match market.total_fees.checked_add(f) {
        Some(v) => v,
        None => {
            return Err(MarketError::Overflow);
        },
    };
    let pool = if is_yes {
        market.yes_pool
    } else {
        market.no_pool
    };
    let new_pool = match pool.checked_add(net) {
        Some(v) => v,
        None => {
            return Err(MarketError::Overflow);
        },
    };
    let amount = if is_yes {
        position.yes_amount
    } else {
        position.no_amount
    };
    let new_amount = match amount.checked_add(net) {
        Some(v) => v,
        None => {
            return Err(MarketError::Overflow);
        },
    };
    market.total_fees = new_fees;
    if is_yes {
        market.yes_pool = new_pool;
        position.yes_amount = new_amount;
    } else {
        market.no_pool = new_pool;
        position.no_amount = new_amount;
    }
    Ok(())
}

/// Resolves an open market once its resolution time has passed and the
/// oracle has answered with positive confidence: the outcome follows the
/// oracle's boolean answer and the market's fees are moved into the
/// deployment's accumulated fees.
pub fn resolve_market(
    state: &mut MarketState,
    market: &mut MarketAccount,
    answer: &OracleAnswer,
    now: i64,
) -> (r: Result<(), MarketError>)
    ensures
        r is Ok <==> can_resolve(*old(market), answer.confidence_score, now) && old(
            state,
        ).accumulated_fees + old(market).total_fees <= u64::MAX,
        r == Err::<(), MarketError>(MarketError::MarketNotOpen) <==> old(market).status
            != MarketStatus::Open,
        r == Err::<(), MarketError>(MarketError::TooEarly) <==> old(market).status
            == MarketStatus::Open && now < old(market).resolution_time,
        r == Err::<(), MarketError>(MarketError::OracleNotAnswered) <==> old(market).status
            == MarketStatus::Open && now >= old(market).resolution_time
            && answer.confidence_score == 0,
        r == Err::<(), MarketError>(MarketError::Overflow) <==> can_resolve(
            *old(market),
            answer.confidence_score,
            now,
        ) && old(state).accumulated_fees + old(market).total_fees > u64::MAX,
        r is Err ==> *final(market) == *old(market) && *final(state) == *old(state),
        r is Ok ==> final(market).status == MarketStatus::Resolved && final(market).outcome == (
        if answer.bool_answer {
            Outcome::Yes
        } else {
            Outcome::No
        }),
        r is Ok ==> final(market).market_id == old(market).market_id && final(market).question == old(
            market,
        ).question && final(market).resolution_time == old(market).resolution_time && final(market).yes_pool
            == old(market).yes_pool && final(market).no_pool == old(market).no_pool && final(market).total_fees
            == old(market).total_fees && final(market).created_at == old(market).created_at
            && final(market).creator == old(market).creator,
        r is Ok ==> final(state).accumulated_fees == old(state).accumulated_fees + old(market).total_fees
            && final(state).authority == old(state).authority && final(state).oracle_program == old(
            state,
        ).oracle_program && final(state).market_counter == old(state).market_counter
            && final(state).fee_percentage == old(state).fee_percentage,
{
    if market.status != MarketStatus::Open {
        return Err(MarketError::MarketNotOpen);
    }
    if now < market.resolution_time {
        return Err(MarketError::TooEarly);
    }
    if answer.confidence_score == 0 {
        return Err(MarketError::OracleNotAnswered);
    }
    let new_accumulated = match state.accumulated_fees.checked_add(market.total_fees) {
        Some(v) => v,
        None => {
            return Err(MarketError::Overflow);
        },
    };
    market.outcome = if answer.bool_answer {
        Outcome::Yes
    } else {
        Outcome::No
    };
    market.status = MarketStatus::Resolved;
    state.accumulated_fees = new_accumulated;
    Ok(())
}

/// Pays a winner of a resolved market their proportional share of the whole
/// pool, marking the position claimed first; the caller transfers the
/// returned amount.
pub fn claim_winnings(market: &MarketAccount, position: &mut Position) -> (r: Result<
    u64,
    MarketError,
>)
    ensures
        r == claim_winnings_result(*market, *old(position)),
        *final(position) == claim_winnings_post(*market, *old(position)),
{
    if market.status != MarketStatus::Resolved {
        return Err(MarketError::NotResolved);
    }
    if position.claimed {
        return Err(MarketError::AlreadyClaimed);
    }
    let total_pool = match market.yes_pool.checked_add(market.no_pool) {
        Some(t) => t,
        None => {
            return Err(MarketError::Overflow);
        },
    };
    if market.outcome == Outcome::Yes && position.yes_amount > 0 {
        if market.yes_pool == 0 {
            return Err(MarketError::NoWinnings);
        }
        let winnings = match payout_proportional(position.yes_amount, market.yes_pool, total_pool) {
            Some(w) => w,
            None => {
                return Err(MarketError::Overflow);
            },
        };
        if winnings == 0 {
            return Err(MarketError::NoWinnings);
        }
        position.claimed = true;
        Ok(winnings)
    } else if market.outcome == Outcome::No && position.no_amount > 0 {
        if market.no_pool == 0 {
            return Err(MarketError::NoWinnings);
        }
        let winnings = match payout_proportional(position.no_amount, market.no_pool, total_pool) {
            Some(w) => w,
            None => {
                return Err(MarketError::Overflow);
            },
        };
        if winnings == 0 {
            return Err(MarketError::NoWinnings);
        }
        position.claimed = true;
        Ok(winnings)
    } else {
        Err(MarketError::NoWinnings)
    }
}

/// Cancels an open market whose oracle has not answered within the grace
/// period after its resolution time, opening the refund path.
pub fn cancel_market(market: &mut MarketAccount, answer: &OracleAnswer, now: i64) -> (r: Result<
    (),
    MarketError,
>)
    ensures
        r is Ok <==> can_cancel(*old(market), answer.confidence_score, now),
        r == Err::<(), MarketError>(MarketError::MarketNotOpen) <==> old(market).status
            != MarketStatus::Open,
        r == Err::<(), MarketError>(MarketError::TooEarlyToCancel) <==> old(market).status
            == MarketStatus::Open && now < old(market).resolution_time + REFUND_PERIOD_SECS,
        r == Err::<(), MarketError>(MarketError::AlreadyAnswered) <==> old(market).status
            == MarketStatus::Open && now >= old(market).resolution_time + REFUND_PERIOD_SECS
            && answer.confidence_score != 0,
        r is Err ==> *final(market) == *old(market),
        r is Ok ==> final(market).status == MarketStatus::Canceled && final(market).market_id == old(
            market,
        ).market_id && final(market).question == old(market).question && final(market).resolution_time == old(
            market,
        ).resolution_time && final(market).yes_pool == old(market).yes_pool && final(market).no_pool == old(
            market,
        ).no_pool && final(market).outcome == old(market).outcome && final(market).total_fees == old(
            market,
        ).total_fees && final(market).created_at == old(market).created_at && final(market).creator == old(
            market,
        ).creator,
{
    if market.status != MarketStatus::Open {
        return Err(MarketError::MarketNotOpen);
    }
    if (now as i128) < (market.resolution_time as i128) + (REFUND_PERIOD_SECS as i128) {
        return Err(MarketError::TooEarlyToCancel);
    }
    if answer.confidence_score != 0 {
        return Err(MarketError::AlreadyAnswered);
    }
    market.status = MarketStatus::Canceled;
    Ok(())
}

/// Refunds a participant of a cancelled market their combined net stake,
/// marking the position claimed first; the caller transfers the returned
/// amount. Fees taken at stake time are not refunded.
pub fn claim_refund(market: &MarketAccount, position: &mut Position) -> (r: Result<
    u64,
    MarketError,
>)
    ensures
        r == claim_refund_result(*market, *old(position)),
        *final(position) == claim_refund_post(*market, *old(position)),
{
    if market.status != MarketStatus::Canceled {
        return Err(MarketError::NotCanceled);
    }
    if position.claimed {
        return Err(MarketError::AlreadyClaimed);
    }
    let refund_amount = match position.yes_amount.checked_add(position.no_amount) {
        Some(v) => v,
        None => {
            return Err(MarketError::Overflow);
        },
    };
    if refund_amount == 0 {
        return Err(MarketError::NoPosition);
    }
    position.claimed = true;
    Ok(refund_amount)
}

/// Releases the deployment's accumulated fees to the administrator; the
/// caller transfers the returned amount.
pub fn withdraw_fees(state: &mut MarketState, caller: u64) -> (r: Result<u64, MarketError>)
    ensures
        r is Ok <==> caller == old(state).authority && old(state).accumulated_fees > 0,
        r == Err::<u64, MarketError>(MarketError::Unauthorized) <==> caller != old(
            state,
        ).authority,
        r == Err::<u64, MarketError>(MarketError::NoFees) <==> caller == old(state).authority
            && old(state).accumulated_fees == 0,
        r is Err ==> *final(state) == *old(state),
        r matches Ok(amount) ==> amount == old(state).accumulated_fees
            && final(state).accumulated_fees == 0 && final(state).authority == old(state).authority
            && final(state).oracle_program == old(state).oracle_program && final(state).market_counter == old(
            state,
        ).market_counter && final(state).fee_percentage == old(state).fee_percentage,
{
    if caller != state.authority {
        return Err(MarketError::Unauthorized);
    }
    let amount = state.accumulated_fees;
    if amount == 0 {
        return Err(MarketError::NoFees);
    }
    state.accumulated_fees = 0;
    Ok(amount)
}

} // verus!
