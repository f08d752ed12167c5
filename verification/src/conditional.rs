//! Parent-conditional prediction market.
//!
//! A market is bound to a parent market and a required parent outcome.
//! Before ordinary resolution, a distinct check step reads the parent's
//! terminal outcome: if it differs from the required value the market
//! transitions to `ConditionNotMet`, a terminal state that enables refunds
//! instead of payouts; otherwise the market proceeds through ordinary
//! resolution. Winners receive stake plus a proportional share of the
//! losing pool.

use vstd::prelude::*;
use crate::text::byte_len;
use crate::text::str_byte_len;
use crate::fee::compute_fee;
use crate::fee::fee_of;
use crate::fee::net_of;
use crate::payout::payout_stake_plus_share;
use crate::payout::share_of;

verus! {

#[derive(Clone, Copy, Debug, PartialEq, Eq, Structural)]
pub enum MarketStatus {
    Active,
    ParentUnresolved,
    ConditionNotMet,
    Resolved,
    Cancelled,
}

#[derive(Clone, Copy, Debug, PartialEq, Eq, Structural)]
pub enum MarketError {
    InvalidQuestion,
    InvalidParentMarket,
    MarketNotActive,
    ZeroBet,
    Overflow,
    ParentNotResolved,
    CannotResolve,
    NotResolved,
    AlreadyClaimed,
    NotWinner,
    NoWinnings,
    NotCancelled,
    NoPosition,
}

/// Deployment-wide state; this variant consults no oracle of its own.
pub struct MarketState {
    pub authority: u64,
    pub market_counter: u64,
    pub fee_percentage: u16,
}

/// One conditional market: the parent market it depends on, the parent
/// outcome it requires, one pool per side, and the resolution state.
pub struct MarketAccount {
    pub market_id: u64,
    pub question: String,
    pub parent_market: u64,
    pub required_parent_outcome: u8,
    pub yes_pool: u64,
    pub no_pool: u64,
    pub total_fees: u64,
    pub created_at: i64,
    pub resolved_at: i64,
    pub status: MarketStatus,
    pub final_outcome: bool,
}

/// One participant's accumulated net stake per side, and the one-shot
/// claimed flag.
pub struct Position {
    pub yes_amount: u64,
    pub no_amount: u64,
    pub claimed: bool,
}

/// The parent market's terminal state as read during the check step: its
/// outcome value (for a binary parent, 1 for yes and 0 for no) and whether
/// it is resolved at all.
pub struct ParentMarketOutcome {
    pub outcome: u8,
    pub resolved: bool,
}

/// Everything escrowed with the market: both pools plus the fees collected
/// from its stakes.
pub open spec fn staked_total(m: MarketAccount) -> int {
    m.yes_pool + m.no_pool + m.total_fees
}

/// A stake is accepted only on an active market, for a positive amount.
pub open spec fn can_take_position(m: MarketAccount, bet: u64) -> bool {
    m.status == MarketStatus::Active && bet > 0
}

/// The fee split of `bet` and the three ledger additions all fit in 64 bits.
pub open spec fn take_position_fits(
    state: MarketState,
    m: MarketAccount,
    p: Position,
    bet: u64,
    prediction: bool,
) -> bool {
    &&& fee_of(bet, state.fee_percentage) <= bet
    &&& m.total_fees + fee_of(bet, state.fee_percentage) <= u64::MAX
    &&& (if prediction {
        m.yes_pool
    } else {
        m.no_pool
    }) + net_of(bet, state.fee_percentage) <= u64::MAX
    &&& (if prediction {
        p.yes_amount
    } else {
        p.no_amount
    }) + net_of(bet, state.fee_percentage) <= u64::MAX
}

/// One accepted stake applied to the market's ledgers.
pub open spec fn apply_stake(
    m: MarketAccount,
    prediction: bool,
    net: u64,
    fee: u64,
) -> MarketAccount {
    MarketAccount {
        yes_pool: if prediction {
            (m.yes_pool + net) as u64
        } else {
            m.yes_pool
        },
        no_pool: if prediction {
            m.no_pool
        } else {
            (m.no_pool + net) as u64
        },
        total_fees: (m.total_fees + fee) as u64,
        ..m
    }
}

/// The stake's two ledger additions fit in 64 bits.
pub open spec fn stake_fits(m: MarketAccount, prediction: bool, net: u64, fee: u64) -> bool {
    &&& m.total_fees + fee <= u64::MAX
    &&& (if prediction {
        m.yes_pool
    } else {
        m.no_pool
    }) + net <= u64::MAX
}

/// A sequence of accepted stakes `(prediction, net, fee)` applied in order.
pub open spec fn replay_stakes(m: MarketAccount, stakes: Seq<(bool, u64, u64)>) -> MarketAccount
    decreases stakes.len(),
{
    if stakes.len() == 0 {
        m
    } else {
        apply_stake(
            replay_stakes(m, stakes.drop_last()),
            stakes.last().0,
            stakes.last().1,
            stakes.last().2,
        )
    }
}

/// Every stake in the sequence fits when applied in order.
pub open spec fn replay_fits(m: MarketAccount, stakes: Seq<(bool, u64, u64)>) -> bool
    decreases stakes.len(),
{
    if stakes.len() == 0 {
        true
    } else {
        replay_fits(m, stakes.drop_last()) && stake_fits(
            replay_stakes(m, stakes.drop_last()),
            stakes.last().0,
            stakes.last().1,
            stakes.last().2,
        )
    }
}

/// The gross value of a sequence of accepted stakes: net plus fee of each.
pub open spec fn gross_total(stakes: Seq<(bool, u64, u64)>) -> int
    decreases stakes.len(),
{
    if stakes.len() == 0 {
        0
    } else {
        gross_total(stakes.drop_last()) + stakes.last().1 + stakes.last().2
    }
}

/// Conservation: however a market's ledgers are grown by accepted stakes,
/// the pools plus the collected fees always hold exactly what was staked:
/// the starting total plus the gross value of every accepted stake.
pub proof fn lemma_conservation(m: MarketAccount, stakes: Seq<(bool, u64, u64)>)
    requires
        replay_fits(m, stakes),
    ensures
        staked_total(replay_stakes(m, stakes)) == staked_total(m) + gross_total(stakes),
    decreases stakes.len(),
{
    if stakes.len() > 0 {
        lemma_conservation(m, stakes.drop_last());
    }
}

/// The parent condition holds exactly when the parent's outcome equals
/// the required value.
pub open spec fn condition_met(parent_outcome: u8, required: u8) -> bool {
    parent_outcome == required
}

/// Ordinary resolution is permitted while the market is active or its
/// parent condition has been confirmed.
pub open spec fn can_resolve(m: MarketAccount) -> bool {
    m.status == MarketStatus::ParentUnresolved || m.status == MarketStatus::Active
}

/// The outcome of a claim against a resolved market: the claimant's stake
/// plus their proportional share of the losing pool, or the error that
/// rejects it.
pub open spec fn claim_winnings_result(m: MarketAccount, p: Position) -> Result<u64, MarketError> {
    let w_pool: u64 = if m.final_outcome {
        m.yes_pool
    } else {
        m.no_pool
    };
    let l_pool: u64 = if m.final_outcome {
        m.no_pool
    } else {
        m.yes_pool
    };
    let amount: u64 = if m.final_outcome {
        p.yes_amount
    } else {
        p.no_amount
    };
    if m.status != MarketStatus::Resolved {
        Err(MarketError::NotResolved)
    } else if p.claimed {
        Err(MarketError::AlreadyClaimed)
    } else if amount == 0 {
        Err(MarketError::NotWinner)
    } else if w_pool == 0 {
        Err(MarketError::NoWinnings)
    } else if amount * l_pool > u64::MAX || amount + share_of(amount, w_pool as int, l_pool as int)
        > u64::MAX {
        Err(MarketError::Overflow)
    } else {
        Ok((amount + share_of(amount, w_pool as int, l_pool as int)) as u64)
    }
}

/// The position after a claim: the claimed flag is set exactly when the
/// claim succeeds; nothing else ever changes.
pub open spec fn claim_winnings_post(m: MarketAccount, p: Position) -> Position {
    if claim_winnings_result(m, p) is Ok {
        Position { yes_amount: p.yes_amount, no_amount: p.no_amount, claimed: true }
    } else {
        p
    }
}

/// The outcome of a refund claim against a market whose condition failed or
/// that was cancelled: the claimant's combined net stake, or the error that
/// rejects it. Fees taken at stake time are not refunded.
pub open spec fn get_refund_result(m: MarketAccount, p: Position) -> Result<u64, MarketError> {
    if m.status != MarketStatus::ConditionNotMet && m.status != MarketStatus::Cancelled {
        Err(MarketError::NotCancelled)
    } else if p.claimed {
        Err(MarketError::AlreadyClaimed)
    } else if p.yes_amount + p.no_amount > u64::MAX {
        Err(MarketError::Overflow)
    } else if p.yes_amount + p.no_amount == 0 {
        Err(MarketError::NoPosition)
    } else {
        Ok((p.yes_amount + p.no_amount) as u64)
    }
}

/// The position after a refund claim: the claimed flag is set exactly when
/// the refund succeeds; nothing else ever changes.
pub open spec fn get_refund_post(m: MarketAccount, p: Position) -> Position {
    if get_refund_result(m, p) is Ok {
        Position { yes_amount: p.yes_amount, no_amount: p.no_amount, claimed: true }
    } else {
        p
    }
}

/// At-most-once claim: once a claim has succeeded, every further claim on
/// the same position fails with the idempotency error and leaves the
/// position unchanged.
pub proof fn lemma_claim_at_most_once(m: MarketAccount, p: Position)
    requires
        claim_winnings_result(m, p) is Ok,
    ensures
        claim_winnings_result(m, claim_winnings_post(m, p)) == Err::<u64, MarketError>(
            MarketError::AlreadyClaimed,
        ),
        claim_winnings_post(m, claim_winnings_post(m, p)) == claim_winnings_post(m, p),
{
}

/// At-most-once refund: once a refund has succeeded, every further refund
/// on the same position fails with the idempotency error and leaves the
/// position unchanged.
pub proof fn lemma_refund_at_most_once(m: MarketAccount, p: Position)
    requires
        get_refund_result(m, p) is Ok,
    ensures
        get_refund_result(m, get_refund_post(m, p)) == Err::<u64, MarketError>(
            MarketError::AlreadyClaimed,
        ),
        get_refund_post(m, get_refund_post(m, p)) == get_refund_post(m, p),
{
}

/// Monotone resolution: a market in a terminal state admits no further
/// stake, no parent check and no resolution.
pub proof fn lemma_terminal_is_final(m: MarketAccount, bet: u64)
    requires
        m.status == MarketStatus::Resolved || m.status == MarketStatus::Cancelled || m.status
            == MarketStatus::ConditionNotMet,
    ensures
        !can_take_position(m, bet),
        !can_resolve(m),
        m.status != MarketStatus::Active,
{
}

/// Sets up the deployment: the administrator and the fee rate, which the
/// administrator keeps within the deployment's 10% ceiling.
pub fn initialize(authority: u64, fee_percentage: u16) -> (s: MarketState)
    requires
        fee_percentage <= 1000,
    ensures
        s.authority == authority,
        s.market_counter == 0,
        s.fee_percentage == fee_percentage,
{
    MarketState { authority, market_counter: 0, fee_percentage }
}

/// Creates a conditional market under the next market id: the question must
/// be non-empty and at most 500 bytes of UTF-8, and the parent market reference
/// must not be the null identity (zero).
pub fn create_market(
    state: &mut MarketState,
    question: String,
    parent_market: u64,
    required_parent_outcome: u8,
    now: i64,
) -> (r: Result<(u64, MarketAccount), MarketError>)
    requires
        old(state).market_counter < u64::MAX,
    ensures
        r is Ok <==> 1 <= byte_len(question@) <= 500 && parent_market != 0,
        r == Err::<(u64, MarketAccount), MarketError>(MarketError::InvalidQuestion) <==> !(1
            <= byte_len(question@) <= 500),
        r == Err::<(u64, MarketAccount), MarketError>(MarketError::InvalidParentMarket) <==> 1
            <= byte_len(question@) <= 500 && parent_market == 0,
        r is Err ==> *final(state) == *old(state),
        r matches Ok(p) ==> {
            &&& p.0 == old(state).market_counter
            &&& final(state).market_counter == old(state).market_counter + 1
            &&& final(state).authority == old(state).authority
            &&& final(state).fee_percentage == old(state).fee_percentage
            &&& p.1.market_id == p.0
            &&& p.1.question == question
            &&& p.1.parent_market == parent_market
            &&& p.1.required_parent_outcome == required_parent_outcome
            &&& p.1.yes_pool == 0
            &&& p.1.no_pool == 0
            &&& p.1.total_fees == 0
            &&& p.1.created_at == now
            &&& p.1.resolved_at == 0
            &&& p.1.status == MarketStatus::Active
            &&& p.1.final_outcome == false
        },
{
    let len = str_byte_len(question.as_str());
    if len == 0 || len > 500 {
        return Err(MarketError::InvalidQuestion);
    }
    if parent_market == 0 {
        return Err(MarketError::InvalidParentMarket);
    }
    let market_id = state.market_counter;
    state.market_counter = market_id + 1;
    let market = MarketAccount {
        market_id,
        question,
        parent_market,
        required_parent_outcome,
        yes_pool: 0,
        no_pool: 0,
        total_fees: 0,
        created_at: now,
        resolved_at: 0,
        status: MarketStatus::Active,
        final_outcome: false,
    };
    Ok((market_id, market))
}

/// Accepts a stake of `bet_amount` on one side of an active market: the fee
/// is split off, the predicted side's pool and the participant's position
/// grow by the net amount, and the market's fee total grows by the fee. The
/// whole operation applies or nothing does.
pub fn take_position(
    state: &MarketState,
    market: &mut MarketAccount,
    position: &mut Position,
    bet_amount: u64,
    prediction: bool,
) -> (r: Result<(), MarketError>)
    ensures
        r is Ok <==> can_take_position(*old(market), bet_amount) && take_position_fits(
            *state,
            *old(market),
            *old(position),
            bet_amount,
            prediction,
        ),
        r == Err::<(), MarketError>(MarketError::MarketNotActive) <==> old(market).status
            != MarketStatus::Active,
        r == Err::<(), MarketError>(MarketError::ZeroBet) <==> old(market).status
            == MarketStatus::Active && bet_amount == 0,
        r == Err::<(), MarketError>(MarketError::Overflow) <==> can_take_position(
            *old(market),
            bet_amount,
        ) && !take_position_fits(*state, *old(market), *old(position), bet_amount, prediction),
        r is Err ==> *final(market) == *old(market) && *final(position) == *old(position),
        r is Ok ==> {
            &&& final(market).yes_pool == old(market).yes_pool + (if prediction {
                net_of(bet_amount, state.fee_percentage)
            } else {
                0
            })
            &&& final(market).no_pool == old(market).no_pool + (if prediction {
                0
            } else {
                net_of(bet_amount, state.fee_percentage)
            })
            &&& final(market).total_fees == old(market).total_fees + fee_of(
                bet_amount,
                state.fee_percentage,
            )
            &&& final(market).market_id == old(market).market_id
            &&& final(market).question == old(market).question
            &&& final(market).parent_market == old(market).parent_market
            &&& final(market).required_parent_outcome == old(market).required_parent_outcome
            &&& final(market).created_at == old(market).created_at
            &&& final(market).resolved_at == old(market).resolved_at
            &&& final(market).status == old(market).status
            &&& final(market).final_outcome == old(market).final_outcome
        },
        r is Ok ==> *final(market) == apply_stake(
            *old(market),
            prediction,
            net_of(bet_amount, state.fee_percentage) as u64,
            fee_of(bet_amount, state.fee_percentage) as u64,
        ),
        r is Ok ==> staked_total(*final(market)) == staked_total(*old(market)) + bet_amount,
        r is Ok ==> {
            &&& final(position).claimed == old(position).claimed
            &&& final(position).yes_amount == old(position).yes_amount + (if prediction {
                net_of(bet_amount, state.fee_percentage)
            } else {
                0
            })
            &&& final(position).no_amount == old(position).no_amount + (if prediction {
                0
            } else {
                net_of(bet_amount, state.fee_percentage)
            })
        },
{
    if market.status != MarketStatus::Active {
        return Err(MarketError::MarketNotActive);
    }
    if bet_amount == 0 {
        return Err(MarketError::ZeroBet);
    }
    let (net, f) = match compute_fee(bet_amount, state.fee_percentage) {
        Some(p) => p,
        None => {
            return Err(MarketError::Overflow);
        },
    };
    let new_fees = match market.total_fees.checked_add(f) {
        Some(v) => v,
        None => {
            return Err(MarketError::Overflow);
        },
    };
    let pool = if prediction {
        market.yes_pool
    } else {
        market.no_pool
    };
    let new_pool = match pool.checked_add(net) {
        Some(v) => v,
        None => {
            return Err(MarketError::Overflow);
        },
    };
    let amount = if prediction {
        position.yes_amount
    } else {
        position.no_amount
    };
    let new_amount = match amount.checked_add(net) {
        Some(v) => v,
        None => {
            return Err(MarketError::Overflow);
        },
    };
    market.total_fees = new_fees;
    if prediction {
        market.yes_pool = new_pool;
        position.yes_amount = new_amount;
    } else {
        market.no_pool = new_pool;
        position.no_amount = new_amount;
    }
    Ok(())
}

/// Reads the parent market's terminal outcome for an active market: if the
/// condition is met the market moves to `ParentUnresolved`, awaiting
/// ordinary resolution; if not, it moves to the terminal `ConditionNotMet`
/// state and participants take refunds instead of payouts.
pub fn check_parent_market(market: &mut MarketAccount, parent: &ParentMarketOutcome) -> (r: Result<
    (),
    MarketError,
>)
    ensures
        r is Ok <==> old(market).status == MarketStatus::Active && parent.resolved,
        r == Err::<(), MarketError>(MarketError::MarketNotActive) <==> old(market).status
            != MarketStatus::Active,
        r == Err::<(), MarketError>(MarketError::ParentNotResolved) <==> old(market).status
            == MarketStatus::Active && !parent.resolved,
        r is Err ==> *final(market) == *old(market),
        r is Ok ==> *final(market) == (MarketAccount {
            status: if condition_met(parent.outcome, old(market).required_parent_outcome) {
                MarketStatus::ParentUnresolved
            } else {
                MarketStatus::ConditionNotMet
            },
            ..*old(market)
        }),
{
    if market.status != MarketStatus::Active {
        return Err(MarketError::MarketNotActive);
    }
    if !parent.resolved {
        return Err(MarketError::ParentNotResolved);
    }
    let met = parent.outcome == market.required_parent_outcome;
    if met {
        market.status = MarketStatus::ParentUnresolved;
    } else {
        market.status = MarketStatus::ConditionNotMet;
    }
    Ok(())
}

/// Resolves a market that is active or whose parent condition has been
/// confirmed, settling it on the given outcome.
pub fn resolve_market(market: &mut MarketAccount, outcome: bool, now: i64) -> (r: Result<
    (),
    MarketError,
>)
    ensures
        r is Ok <==> can_resolve(*old(market)),
        r == Err::<(), MarketError>(MarketError::CannotResolve) <==> !can_resolve(*old(market)),
        r is Err ==> *final(market) == *old(market),
        r is Ok ==> *final(market) == (MarketAccount {
            status: MarketStatus::Resolved,
            final_outcome: outcome,
            resolved_at: now,
            ..*old(market)
        }),
{
    if !(market.status == MarketStatus::ParentUnresolved || market.status
        == MarketStatus::Active) {
        return Err(MarketError::CannotResolve);
    }
    market.final_outcome = outcome;
    market.resolved_at = now;
    market.status = MarketStatus::Resolved;
    Ok(())
}

/// Pays a winner of a resolved market their stake plus a proportional share
/// of the losing pool, marking the position claimed first; the caller
/// transfers the returned amount.
pub fn claim_winnings(market: &MarketAccount, position: &mut Position) -> (r: Result<
    u64,
    MarketError,
>)
    ensures
        r == claim_winnings_result(*market, *old(position)),
        *final(position) == claim_winnings_post(*market, *old(position)),
{
    if market.status != MarketStatus::Resolved {
        return Err(MarketError::NotResolved);
    }
    if position.claimed {
        return Err(MarketError::AlreadyClaimed);
    }
    let w_pool = if market.final_outcome {
        market.yes_pool
    } else {
        market.no_pool
    };
    let l_pool = if market.final_outcome {
        market.no_pool
    } else {
        market.yes_pool
    };
    let user_winning_amount = if market.final_outcome {
        position.yes_amount
    } else {
        position.no_amount
    };
    if user_winning_amount == 0 {
        return Err(MarketError::NotWinner);
    }
    if w_pool == 0 {
        return Err(MarketError::NoWinnings);
    }
    let payout = match payout_stake_plus_share(user_winning_amount, w_pool, l_pool) {
        Some(v) => v,
        None => {
            return Err(MarketError::Overflow);
        },
    };
    position.claimed = true;
    Ok(payout)
}

/// Refunds a participant of a market whose condition failed or that was
/// cancelled their combined net stake, marking the position claimed first;
/// the caller transfers the returned amount. Fees taken at stake time are
/// not refunded.
pub fn get_refund(market: &MarketAccount, position: &mut Position) -> (r: Result<u64, MarketError>)
    ensures
        r == get_refund_result(*market, *old(position)),
        *final(position) == get_refund_post(*market, *old(position)),
{
    if market.status != MarketStatus::ConditionNotMet && market.status != MarketStatus::Cancelled {
        return Err(MarketError::NotCancelled);
    }
    if position.claimed {
        return Err(MarketError::AlreadyClaimed);
    }
    let refund_amount = match position.yes_amount.checked_add(position.no_amount) {
        Some(v) => v,
        None => {
            return Err(MarketError::Overflow);
        },
    };
    if refund_amount == 0 {
        return Err(MarketError::NoPosition);
    }
    position.claimed = true;
    Ok(refund_amount)
}

} // verus!
