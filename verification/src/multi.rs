//! Multi-outcome prediction market.
//!
//! A market splits its pool across up to ten labelled outcomes. The oracle's
//! numeric answer names the winning outcome index; winners receive their
//! proportional share of the whole net pool:
//! `stake * total_pool / winning_pool`.

use vstd::prelude::*;
use crate::text::byte_len;
use crate::text::str_byte_len;
use crate::fee::compute_fee;
use crate::fee::fee_of;
use crate::fee::net_of;
use crate::payout::payout_proportional;
use crate::payout::sum64;
use crate::payout::sum_shares;
use crate::payout::lemma_sum64_element_le;
use crate::payout::lemma_sum64_push;
use crate::payout::lemma_sum64_update;
use crate::payout::lemma_payouts_bounded_stored_total;
use crate::oracle::AnswerAccount;

verus! {

#[derive(Clone, Copy, Debug, PartialEq, Eq, Structural)]
pub enum MarketStatus {
    Open,
    Closed,
    Resolved,
    Canceled,
}

#[derive(Clone, Copy, Debug, PartialEq, Eq, Structural)]
pub enum MarketError {
    InvalidQuestion,
    InvalidOutcomeCount,
    InvalidResolutionTime,
    InvalidOutcomeLabel,
    MarketNotOpen,
    MarketExpired,
    InvalidOutcome,
    ZeroBet,
    Overflow,
    TooEarly,
    OracleNotAnswered,
    NotResolved,
    AlreadyClaimed,
    NoWinnings,
    Unauthorized,
    NoFees,
}

/// Deployment-wide state, as for the binary variant.
pub struct MarketState {
    pub authority: u64,
    pub oracle_program: u64,
    pub market_counter: u64,
    pub fee_percentage: u16,
    pub accumulated_fees: u64,
}

/// One multi-outcome market: one pool and one label per outcome, the stored
/// sum of all pools net of fees, and the resolution state.
pub struct MarketAccount {
    pub market_id: u64,
    pub question: String,
    pub resolution_time: i64,
    pub num_outcomes: u8,
    pub outcome_labels: Vec<String>,
    pub outcome_pools: Vec<u64>,
    pub status: MarketStatus,
    pub winning_outcome: u8,
    pub total_pool: u64,
    pub total_fees: u64,
    pub created_at: i64,
}

/// One participant's accumulated net stake per outcome (the vector grows on
/// first contact with an outcome), and the one-shot claimed flag.
pub struct Position {
    pub amounts: Vec<u64>,
    pub claimed: bool,
}

/// The market's pool and label vectors each hold one entry per declared
/// outcome, and the stored pool total is the sum of the outcome pools.
pub open spec fn market_wf(m: MarketAccount) -> bool {
    &&& m.outcome_pools@.len() == m.num_outcomes
    &&& m.outcome_labels@.len() == m.num_outcomes
    &&& m.total_pool == sum64(m.outcome_pools@)
}

/// Everything escrowed with the market: every outcome pool plus the fees
/// collected from its stakes.
pub open spec fn staked_total(m: MarketAccount) -> int {
    sum64(m.outcome_pools@) + m.total_fees
}

/// The participant's recorded stake on one outcome: zero until the position
/// vector has grown past that index.
pub open spec fn position_amount(p: Position, outcome: int) -> int {
    if p.amounts@.len() > outcome {
        p.amounts@[outcome] as int
    } else {
        0
    }
}

/// A stake is accepted only on an open market, before its resolution time,
/// on a declared outcome, and for a positive amount.
pub open spec fn can_take_position(m: MarketAccount, now: i64, outcome: u8, bet: u64) -> bool {
    m.status == MarketStatus::Open && now < m.resolution_time && outcome < m.num_outcomes && bet
        > 0
}

/// The fee split of `bet` and the four ledger additions all fit in 64 bits.
pub open spec fn take_position_fits(
    state: MarketState,
    m: MarketAccount,
    p: Position,
    outcome: u8,
    bet: u64,
) -> bool {
    &&& fee_of(bet, state.fee_percentage) <= bet
    &&& m.outcome_pools@[outcome as int] + net_of(bet, state.fee_percentage) <= u64::MAX
    &&& m.total_pool + net_of(bet, state.fee_percentage) <= u64::MAX
    &&& m.total_fees + fee_of(bet, state.fee_percentage) <= u64::MAX
    &&& position_amount(p, outcome as int) + net_of(bet, state.fee_percentage) <= u64::MAX
}

/// One accepted net stake applied to the outcome pools.
pub open spec fn apply_stake(pools: Seq<u64>, outcome: u8, net: u64) -> Seq<u64> {
    pools.update(outcome as int, (pools[outcome as int] + net) as u64)
}

/// The stake lands on a declared outcome and the pool addition fits in 64
/// bits.
pub open spec fn stake_fits(pools: Seq<u64>, outcome: u8, net: u64) -> bool {
    outcome < pools.len() && pools[outcome as int] + net <= u64::MAX
}

/// A sequence of accepted net stakes `(outcome, net)` applied in order.
pub open spec fn replay_stakes(pools: Seq<u64>, stakes: Seq<(u8, u64)>) -> Seq<u64>
    decreases stakes.len(),
{
    if stakes.len() == 0 {
        pools
    } else {
        apply_stake(replay_stakes(pools, stakes.drop_last()), stakes.last().0, stakes.last().1)
    }
}

/// Every stake in the sequence fits when applied in order.
pub open spec fn replay_fits(pools: Seq<u64>, stakes: Seq<(u8, u64)>) -> bool
    decreases stakes.len(),
{
    if stakes.len() == 0 {
        true
    } else {
        replay_fits(pools, stakes.drop_last()) && stake_fits(
            replay_stakes(pools, stakes.drop_last()),
            stakes.last().0,
            stakes.last().1,
        )
    }
}

/// The combined net value of a sequence of accepted stakes.
pub open spec fn net_total(stakes: Seq<(u8, u64)>) -> int
    decreases stakes.len(),
{
    if stakes.len() == 0 {
        0
    } else {
        net_total(stakes.drop_last()) + stakes.last().1
    }
}

/// Conservation: however the outcome pools are grown by accepted stakes,
/// they always sum to the starting sum plus every net amount accepted; with
/// the fee total, which take-position grows by exactly the fee split off,
/// the market holds exactly what was staked.
pub proof fn lemma_conservation(pools: Seq<u64>, stakes: Seq<(u8, u64)>)
    requires
        replay_fits(pools, stakes),
    ensures
        sum64(replay_stakes(pools, stakes)) == sum64(pools) + net_total(stakes),
    decreases stakes.len(),
{
    if stakes.len() > 0 {
        lemma_conservation(pools, stakes.drop_last());
        let prev = replay_stakes(pools, stakes.drop_last());
        let o = stakes.last().0;
        let net = stakes.last().1;
        lemma_sum64_update(prev, o as int, (prev[o as int] + net) as u64);
    }
}

/// A market resolves only once it is open, its resolution time has passed,
/// the oracle's numeric answer names a declared outcome, and the oracle's
/// confidence is positive.
pub open spec fn can_resolve(m: MarketAccount, answer: AnswerAccount, now: i64) -> bool {
    m.status == MarketStatus::Open && now >= m.resolution_time && answer.numeric_answer
        < m.num_outcomes && answer.confidence_score > 0
}

/// The outcome of a claim against a resolved market: the claimant's
/// proportional share of the whole stored pool,
/// `stake * total_pool / winning_pool`, or the error that rejects it.
pub open spec fn claim_winnings_result(m: MarketAccount, p: Position) -> Result<u64, MarketError> {
    if m.status != MarketStatus::Resolved {
        Err(MarketError::NotResolved)
    } else if p.claimed {
        Err(MarketError::AlreadyClaimed)
    } else if position_amount(p, m.winning_outcome as int) == 0 {
        Err(MarketError::NoWinnings)
    } else if m.outcome_pools@[m.winning_outcome as int] == 0 {
        Err(MarketError::NoWinnings)
    } else if position_amount(p, m.winning_outcome as int) * m.total_pool > u64::MAX {
        Err(MarketError::Overflow)
    } else {
        Ok(
            (position_amount(p, m.winning_outcome as int) * m.total_pool / (
            m.outcome_pools@[m.winning_outcome as int] as int)) as u64,
        )
    }
}

/// The position after a claim: the claimed flag is set exactly when the
/// claim succeeds; nothing else ever changes.
pub open spec fn claim_winnings_post(m: MarketAccount, p: Position) -> Position {
    if claim_winnings_result(m, p) is Ok {
        Position { amounts: p.amounts, claimed: true }
    } else {
        p
    }
}

/// At-most-once claim: once a claim has succeeded, every further claim on
/// the same position fails with the idempotency error and leaves the
/// position unchanged.
pub proof fn lemma_claim_at_most_once(m: MarketAccount, p: Position)
    requires
        claim_winnings_result(m, p) is Ok,
    ensures
        claim_winnings_result(m, claim_winnings_post(m, p)) == Err::<u64, MarketError>(
            MarketError::AlreadyClaimed,
        ),
        claim_winnings_post(m, claim_winnings_post(m, p)) == claim_winnings_post(m, p),
{
}

/// Payout boundedness at the claim: in a well-formed market the winning
/// pool is part of the stored pool total, so the payouts
/// `stake * total_pool / winning_pool` of any claimants whose winning
/// stakes together fit in the winning pool never exceed the stored total.
pub proof fn lemma_claim_payouts_bounded(m: MarketAccount, stakes: Seq<u64>)
    requires
        market_wf(m),
        m.winning_outcome < m.num_outcomes,
        m.outcome_pools@[m.winning_outcome as int] > 0,
        sum64(stakes) <= m.outcome_pools@[m.winning_outcome as int],
    ensures
        sum_shares(
            stakes,
            m.outcome_pools@[m.winning_outcome as int] as int,
            m.total_pool as int,
        ) <= m.total_pool,
{
    lemma_sum64_element_le(m.outcome_pools@, m.winning_outcome as int);
    lemma_payouts_bounded_stored_total(
        stakes,
        m.outcome_pools@[m.winning_outcome as int],
        m.total_pool,
    );
}

/// Monotone resolution: a market that has reached a terminal state admits no
/// further stake and no resolution.
pub proof fn lemma_terminal_is_final(
    m: MarketAccount,
    now: i64,
    outcome: u8,
    bet: u64,
    answer: AnswerAccount,
)
    requires
        m.status == MarketStatus::Resolved || m.status == MarketStatus::Canceled,
    ensures
        !can_take_position(m, now, outcome, bet),
        !can_resolve(m, answer, now),
{
}

/// Sets up the deployment, as for the binary variant.
pub fn initialize(authority: u64, oracle_program: u64, fee_percentage: u16) -> (s: MarketState)
    requires
        fee_percentage <= 1000,
    ensures
        s.authority == authority,
        s.oracle_program == oracle_program,
        s.market_counter == 0,
        s.fee_percentage == fee_percentage,
        s.accumulated_fees == 0,
{
    MarketState { authority, oracle_program, market_counter: 0, fee_percentage, accumulated_fees: 0 }
}

/// Creates a multi-outcome market under the next market id: the question
/// must be non-empty and at most 500 bytes of UTF-8, there must be 2 to 10
/// outcome labels, each non-empty and at most 100 bytes of UTF-8, and the
/// resolution time must lie in the future.
pub fn create_market(
    state: &mut MarketState,
    question: String,
    outcome_labels: Vec<String>,
    resolution_time: i64,
    now: i64,
) -> (r: Result<(u64, MarketAccount), MarketError>)
    requires
        old(state).market_counter < u64::MAX,
    ensures
        r is Ok <==> {
            &&& 1 <= byte_len(question@) <= 500
            &&& 2 <= outcome_labels@.len() <= 10
            &&& resolution_time > now
            &&& forall|i: int|
                0 <= i < outcome_labels@.len() ==> 1 <= byte_len((#[trigger] outcome_labels@[i])@)
                    <= 100
        },
        r == Err::<(u64, MarketAccount), MarketError>(MarketError::InvalidQuestion) <==> !(1
            <= byte_len(question@) <= 500),
        r == Err::<(u64, MarketAccount), MarketError>(MarketError::InvalidOutcomeCount) <==> 1
            <= byte_len(question@) <= 500 && !(2 <= outcome_labels@.len() <= 10),
        r == Err::<(u64, MarketAccount), MarketError>(MarketError::InvalidResolutionTime) <==> 1
            <= byte_len(question@) <= 500 && 2 <= outcome_labels@.len() <= 10 && resolution_time
            <= now,
        r == Err::<(u64, MarketAccount), MarketError>(MarketError::InvalidOutcomeLabel) <==> {
            &&& 1 <= byte_len(question@) <= 500
            &&& 2 <= outcome_labels@.len() <= 10
            &&& resolution_time > now
            &&& exists|i: int|
                0 <= i < outcome_labels@.len() && !(1 <= byte_len((#[trigger] outcome_labels@[i])@)
                    <= 100)
        },
        r is Err ==> *final(state) == *old(state),
        r matches Ok(p) ==> {
            &&& p.0 == old(state).market_counter
            &&& final(state).market_counter == old(state).market_counter + 1
            &&& final(state).authority == old(state).authority
            &&& final(state).oracle_program == old(state).oracle_program
            &&& final(state).fee_percentage == old(state).fee_percentage
            &&& final(state).accumulated_fees == old(state).accumulated_fees
            &&& p.1.market_id == p.0
            &&& p.1.question == question
            &&& p.1.resolution_time == resolution_time
            &&& p.1.num_outcomes == outcome_labels@.len()
            &&& p.1.outcome_labels@ == outcome_labels@
            &&& p.1.outcome_pools@.len() == outcome_labels@.len()
            &&& forall|i: int|
                0 <= i < outcome_labels@.len() ==> #[trigger] p.1.outcome_pools@[i] == 0
            &&& p.1.status == MarketStatus::Open
            &&& p.1.winning_outcome == 0
            &&& p.1.total_pool == 0
            &&& p.1.total_fees == 0
            &&& p.1.created_at == now
            &&& market_wf(p.1)
        },
{
    let len = str_byte_len(question.as_str());
    if len == 0 || len > 500 {
        return Err(MarketError::InvalidQuestion);
    }
    let n = outcome_labels.len();
    if n < 2 || n > 10 {
        return Err(MarketError::InvalidOutcomeCount);
    }
    if resolution_time <= now {
        return Err(MarketError::InvalidResolutionTime);
    }
    let mut labels: Vec<String> = Vec::new();
    let mut pools: Vec<u64> = Vec::new();
    let mut i: usize = 0;
    while i < n
        invariant
            n == outcome_labels@.len(),
            1 <= byte_len(question@) <= 500,
            2 <= n <= 10,
            resolution_time > now,
            *state == *old(state),
            i <= n,
            labels@.len() == i,
            pools@.len() == i,
            labels@ == outcome_labels@.take(i as int),
            sum64(pools@) == 0,
            forall|j: int| 0 <= j < i ==> #[trigger] pools@[j] == 0,
            forall|j: int|
                0 <= j < i ==> 1 <= byte_len((#[trigger] outcome_labels@[j])@) <= 100,
        decreases n - i,
    {
        let label = &outcome_labels[i];
        let label_len = str_byte_len(label.as_str());
        if label_len == 0 || label_len > 100 {
            return Err(MarketError::InvalidOutcomeLabel);
        }
        labels.push(label.clone());
        let ghost pools_before = pools@;
        pools.push(0);
        proof {
            assert(labels@ =~= outcome_labels@.take(i + 1));
            lemma_sum64_push(pools_before, 0);
        }
        i = i + 1;
    }
    proof {
        assert(labels@ =~= outcome_labels@);
    }
    let market_id = state.market_counter;
    state.market_counter = market_id + 1;
    let num_outcomes = n as u8;
    let market = MarketAccount {
        market_id,
        question,
        resolution_time,
        num_outcomes,
        outcome_labels: labels,
        outcome_pools: pools,
        status: MarketStatus::Open,
        winning_outcome: 0,
        total_pool: 0,
        total_fees: 0,
        created_at: now,
    };
    Ok((market_id, market))
}

/// Accepts a stake of `bet_amount` on one declared outcome of an open
/// market: the fee is split off, the outcome's pool, the stored pool total
/// and the participant's position grow by the net amount, and the market's
/// fee total grows by the fee. The whole operation applies or nothing does.
pub fn take_position(
    state: &MarketState,
    market: &mut MarketAccount,
    position: &mut Position,
    outcome: u8,
    bet_amount: u64,
    now: i64,
) -> (r: Result<(), MarketError>)
    requires
        market_wf(*old(market)),
    ensures
        r is Ok <==> can_take_position(*old(market), now, outcome, bet_amount)
            && take_position_fits(*state, *old(market), *old(position), outcome, bet_amount),
        r == Err::<(), MarketError>(MarketError::MarketNotOpen) <==> old(market).status
            != MarketStatus::Open,
        r == Err::<(), MarketError>(MarketError::MarketExpired) <==> old(market).status
            == MarketStatus::Open && now >= old(market).resolution_time,
        r == Err::<(), MarketError>(MarketError::InvalidOutcome) <==> old(market).status
            == MarketStatus::Open && now < old(market).resolution_time && outcome >= old(
            market,
        ).num_outcomes,
        r == Err::<(), MarketError>(MarketError::ZeroBet) <==> old(market).status
            == MarketStatus::Open && now < old(market).resolution_time && outcome < old(
            market,
        ).num_outcomes && bet_amount == 0,
        r == Err::<(), MarketError>(MarketError::Overflow) <==> can_take_position(
            *old(market),
            now,
            outcome,
            bet_amount,
        ) && !take_position_fits(*state, *old(market), *old(position), outcome, bet_amount),
        r is Err ==> *final(market) == *old(market) && *final(position) == *old(position),
        r is Ok ==> {
            &&& final(market).outcome_pools@ == apply_stake(
                old(market).outcome_pools@,
                outcome,
                net_of(bet_amount, state.fee_percentage) as u64,
            )
            &&& final(market).total_pool == old(market).total_pool + net_of(
                bet_amount,
                state.fee_percentage,
            )
            &&& final(market).total_fees == old(market).total_fees + fee_of(
                bet_amount,
                state.fee_percentage,
            )
            &&& final(market).market_id == old(market).market_id
            &&& final(market).question == old(market).question
            &&& final(market).resolution_time == old(market).resolution_time
            &&& final(market).num_outcomes == old(market).num_outcomes
            &&& final(market).outcome_labels == old(market).outcome_labels
            &&& final(market).status == old(market).status
            &&& final(market).winning_outcome == old(market).winning_outcome
            &&& final(market).created_at == old(market).created_at
            &&& market_wf(*final(market))
        },
        r is Ok ==> staked_total(*final(market)) == staked_total(*old(market)) + bet_amount,
        r is Ok ==> {
            &&& final(position).claimed == old(position).claimed
            &&& position_amount(*final(position), outcome as int) == position_amount(
                *old(position),
                outcome as int,
            ) + net_of(bet_amount, state.fee_percentage)
            &&& forall|j: int|
                0 <= j < final(position).amounts@.len() && j != outcome ==> position_amount(
                    *final(position),
                    j,
                ) == position_amount(*old(position), j)
        },
{
    if market.status != MarketStatus::Open {
        return Err(MarketError::MarketNotOpen);
    }
    if now >= market.resolution_time {
        return Err(MarketError::MarketExpired);
    }
    if outcome >= market.num_outcomes {
        return Err(MarketError::InvalidOutcome);
    }
    if bet_amount == 0 {
        return Err(MarketError::ZeroBet);
    }
    let o = outcome as usize;
    let (net, f) = match compute_fee(bet_amount, state.fee_percentage) {
        Some(p) => p,
        None => {
            return Err(MarketError::Overflow);
        },
    };
    let new_pool = match market.outcome_pools[o].checked_add(net) {
        Some(v) => v,
        None => {
            return Err(MarketError::Overflow);
        },
    };
    let new_total_pool = match market.total_pool.checked_add(net) {
        Some(v) => v,
        None => {
            return Err(MarketError::Overflow);
        },
    };
    let new_fees = match market.total_fees.checked_add(f) {
        Some(v) => v,
        None => {
            return Err(MarketError::Overflow);
        },
    };
    let current_amount = if position.amounts.len() > o {
        position.amounts[o]
    } else {
        0
    };
    let new_amount = match current_amount.checked_add(net) {
        Some(v) => v,
        None => {
            return Err(MarketError::Overflow);
        },
    };
    proof {
        lemma_sum64_update(
            market.outcome_pools@,
            o as int,
            (market.outcome_pools@[o as int] + net) as u64,
        );
    }
    market.outcome_pools[o] = new_pool;
    market.total_pool = new_total_pool;
    market.total_fees = new_fees;
    let ghost old_amounts = position.amounts@;
    while position.amounts.len() <= o
        invariant
            position.claimed == old(position).claimed,
            position.amounts@.len() >= old_amounts.len(),
            position.amounts@.len() <= (if old_amounts.len() > o + 1 {
                old_amounts.len() as int
            } else {
                o + 1
            }),
            forall|j: int|
                0 <= j < position.amounts@.len() ==> #[trigger] position.amounts@[j] == (
                if j < old_amounts.len() {
                    old_amounts[j]
                } else {
                    0u64
                }),
        decreases o + 1 - position.amounts@.len(),
    {
        position.amounts.push(0);
    }
    position.amounts[o] = new_amount;
    Ok(())
}

/// Resolves an open market once its resolution time has passed and the
/// oracle has answered with positive confidence: the oracle's numeric
/// answer names the winning outcome and the market's fees are moved into
/// the deployment's accumulated fees.
pub fn resolve_market(
    state: &mut MarketState,
    market: &mut MarketAccount,
    answer: &AnswerAccount,
    now: i64,
) -> (r: Result<(), MarketError>)
    ensures
        r is Ok <==> can_resolve(*old(market), *answer, now) && old(state).accumulated_fees + old(
            market,
        ).total_fees <= u64::MAX,
        r == Err::<(), MarketError>(MarketError::MarketNotOpen) <==> old(market).status
            != MarketStatus::Open,
        r == Err::<(), MarketError>(MarketError::TooEarly) <==> old(market).status
            == MarketStatus::Open && now < old(market).resolution_time,
        r == Err::<(), MarketError>(MarketError::InvalidOutcome) <==> old(market).status
            == MarketStatus::Open && now >= old(market).resolution_time && answer.numeric_answer
            >= old(market).num_outcomes,
        r == Err::<(), MarketError>(MarketError::OracleNotAnswered) <==> old(market).status
            == MarketStatus::Open && now >= old(market).resolution_time && answer.numeric_answer
            < old(market).num_outcomes && answer.confidence_score == 0,
        r == Err::<(), MarketError>(MarketError::Overflow) <==> can_resolve(
            *old(market),
            *answer,
            now,
        ) && old(state).accumulated_fees + old(market).total_fees > u64::MAX,
        r is Err ==> *final(market) == *old(market) && *final(state) == *old(state),
        r is Ok ==> final(market).status == MarketStatus::Resolved && final(market).winning_outcome == answer.numeric_answer,
        r is Ok ==> final(market).market_id == old(market).market_id && final(market).question
            == old(market).question && final(market).resolution_time == old(
            market,
        ).resolution_time && final(market).num_outcomes == old(market).num_outcomes && final(market).outcome_labels == old(market).outcome_labels && final(market).outcome_pools == old(
            market,
        ).outcome_pools && final(market).total_pool == old(market).total_pool && final(market).total_fees == old(market).total_fees && final(market).created_at == old(
            market,
        ).created_at,
        r is Ok ==> final(state).accumulated_fees == old(state).accumulated_fees + old(
            market,
        ).total_fees && final(state).authority == old(state).authority && final(state).oracle_program == old(state).oracle_program && final(state).market_counter == old(
            state,
        ).market_counter && final(state).fee_percentage == old(state).fee_percentage,
{
    if market.status != MarketStatus::Open {
        return Err(MarketError::MarketNotOpen);
    }
    if now < market.resolution_time {
        return Err(MarketError::TooEarly);
    }
    if answer.numeric_answer >= market.num_outcomes as u64 {
        return Err(MarketError::InvalidOutcome);
    }
    if answer.confidence_score == 0 {
        return Err(MarketError::OracleNotAnswered);
    }
    let new_accumulated = match state.accumulated_fees.checked_add(market.total_fees) {
        Some(v) => v,
        None => {
            return Err(MarketError::Overflow);
        },
    };
    market.status = MarketStatus::Resolved;
    market.winning_outcome = answer.numeric_answer as u8;
    state.accumulated_fees = new_accumulated;
    Ok(())
}

/// Pays a winner of a resolved market their proportional share of the whole
/// stored pool, marking the position claimed first; the caller transfers
/// the returned amount.
pub fn claim_winnings(market: &MarketAccount, position: &mut Position) -> (r: Result<
    u64,
    MarketError,
>)
    requires
        market_wf(*market),
        market.status == MarketStatus::Resolved ==> market.winning_outcome < market.num_outcomes,
    ensures
        r == claim_winnings_result(*market, *old(position)),
        *final(position) == claim_winnings_post(*market, *old(position)),
{
    if market.status != MarketStatus::Resolved {
        return Err(MarketError::NotResolved);
    }
    if position.claimed {
        return Err(MarketError::AlreadyClaimed);
    }
    let w = market.winning_outcome as usize;
    let winning_amount = if position.amounts.len() > w {
        position.amounts[w]
    } else {
        0
    };
    if winning_amount == 0 {
        return Err(MarketError::NoWinnings);
    }
    let winning_pool = market.outcome_pools[w];
    if winning_pool == 0 {
        return Err(MarketError::NoWinnings);
    }
    let payout = match payout_proportional(winning_amount, winning_pool, market.total_pool) {
        Some(v) => v,
        None => {
            return Err(MarketError::Overflow);
        },
    };
    position.claimed = true;
    Ok(payout)
}

/// Releases the deployment's accumulated fees to the administrator; the
/// caller transfers the returned amount.
pub fn withdraw_fees(state: &mut MarketState, caller: u64) -> (r: Result<u64, MarketError>)
    ensures
        r is Ok <==> caller == old(state).authority && old(state).accumulated_fees > 0,
        r == Err::<u64, MarketError>(MarketError::Unauthorized) <==> caller != old(
            state,
        ).authority,
        r == Err::<u64, MarketError>(MarketError::NoFees) <==> caller == old(state).authority
            && old(state).accumulated_fees == 0,
        r is Err ==> *final(state) == *old(state),
        r matches Ok(amount) ==> amount == old(state).accumulated_fees && *final(state) == (
        MarketState { accumulated_fees: 0, ..*old(state) }),
{
    if caller != state.authority {
        return Err(MarketError::Unauthorized);
    }
    let amount = state.accumulated_fees;
    if amount == 0 {
        return Err(MarketError::NoFees);
    }
    state.accumulated_fees = 0;
    Ok(amount)
}

} // verus!
