//! One quoting cycle as a function of the controller's state and of what the
//! feeds returned: the run state, the phases it moves through, whether the
//! sample warrants a refresh, and the quote that follows if it does.

use vstd::prelude::*;
use crate::config::{BotConfig, SpreadPolicy};
use crate::fixed::PPM;
use crate::gate::{should_update, update_accepted};
use crate::market::{highest_price_of, lowest_price_of, L2Snapshot, MarketId};
use crate::orders::{cancel_and_place, quote_orders_of, CancelScope, OrderBatch, QuoteIntent};
use crate::quote::{
    l2_quote_of, lemma_l2_quote_never_crosses, lemma_oracle_quote_never_crosses, oracle_quote,
    oracle_quote_of, quote_from_snapshot, QuoteError,
};
use crate::skew::{linear_skew, linear_skew_of, position_ratio, position_ratio_of, QuoteParams};

verus! {

/// Where the controller stands in its cycle.
#[derive(Clone, Copy, Debug, PartialEq, Eq, Structural)]
pub enum Phase {
    /// Waiting for the next tick.
    Idle,
    /// The feeds have been asked and have not answered yet.
    Fetching,
    /// The feeds have answered and the sample is being judged.
    Evaluating,
    /// A quote has been handed out and its submission has not ended yet.
    Updating,
    /// Shutdown has begun. No cycle starts again.
    ShuttingDown,
}

/// What moves the controller from one phase to the next.
#[derive(Clone, Copy, Debug, PartialEq, Eq, Structural)]
pub enum Event {
    Tick,
    FeedResponse,
    FetchFailed,
    GateAccepted,
    GateRejected,
    QuoteFailed,
    SubmissionCompleted,
    Shutdown,
}

/// The phase that follows `phase` on `event`. Shutdown is reached from every
/// phase and never left. An event that a phase does not expect leaves it
/// where it is.
pub open spec fn next_phase(phase: Phase, event: Event) -> Phase {
    match (phase, event) {
        (Phase::ShuttingDown, _) => Phase::ShuttingDown,
        (_, Event::Shutdown) => Phase::ShuttingDown,
        (Phase::Idle, Event::Tick) => Phase::Fetching,
        (Phase::Fetching, Event::FeedResponse) => Phase::Evaluating,
        (Phase::Fetching, Event::FetchFailed) => Phase::Idle,
        (Phase::Evaluating, Event::GateAccepted) => Phase::Updating,
        (Phase::Evaluating, Event::GateRejected) => Phase::Idle,
        (Phase::Evaluating, Event::QuoteFailed) => Phase::Idle,
        (Phase::Updating, Event::SubmissionCompleted) => Phase::Idle,
        _ => phase,
    }
}

/// Computes the phase that follows `phase` on `event`.
pub fn transition(phase: Phase, event: Event) -> (p: Phase)
    ensures
        p == next_phase(phase, event),
{
    match (phase, event) {
        (Phase::ShuttingDown, _) => Phase::ShuttingDown,
        (_, Event::Shutdown) => Phase::ShuttingDown,
        (Phase::Idle, Event::Tick) => Phase::Fetching,
        (Phase::Fetching, Event::FeedResponse) => Phase::Evaluating,
        (Phase::Fetching, Event::FetchFailed) => Phase::Idle,
        (Phase::Evaluating, Event::GateAccepted) => Phase::Updating,
        (Phase::Evaluating, Event::GateRejected) => Phase::Idle,
        (Phase::Evaluating, Event::QuoteFailed) => Phase::Idle,
        (Phase::Updating, Event::SubmissionCompleted) => Phase::Idle,
        _ => phase,
    }
}

/// Everything the controller remembers from one cycle to the next.
#[derive(Clone, Copy, Debug, PartialEq, Eq, Structural)]
pub struct BotState {
    /// Oracle price at the last refresh that went through; zero before the first.
    pub prev_oracle_price: i64,
    /// Time of that refresh, in milliseconds; zero before the first.
    pub last_update_time: u64,
    /// Set from start until shutdown begins.
    pub is_running: bool,
    /// Set while a cycle is under way, so that no second one starts.
    pub is_processing: bool,
    /// Set once a quote has been placed.
    pub has_active_orders: bool,
    /// Where the controller stands in its cycle.
    pub phase: Phase,
    /// Oracle price of the quote whose submission is under way.
    pub pending_price: i64,
}

/// The state of a controller that has not run yet.
pub open spec fn fresh_state() -> BotState {
    BotState {
        prev_oracle_price: 0,
        last_update_time: 0,
        is_running: false,
        is_processing: false,
        has_active_orders: false,
        phase: Phase::Idle,
        pending_price: 0,
    }
}

/// A state is consistent when a cycle is marked as under way exactly in the
/// phases between a tick and the end of a submission, and when nothing runs
/// once shutdown has begun.
pub open spec fn consistent(state: BotState) -> bool {
    &&& state.is_processing == (state.phase == Phase::Fetching || state.phase == Phase::Evaluating
        || state.phase == Phase::Updating)
    &&& state.phase == Phase::ShuttingDown ==> !state.is_running
}

/// What the feeds returned for one cycle.
#[derive(Clone, Debug, PartialEq, Eq)]
pub struct CycleInputs {
    /// Oracle price in quote units.
    pub oracle_price: i64,
    /// Signed position in base units; zero when the account holds none.
    pub position: i64,
    /// Value of the skew curve for the position, in parts per million. Only
    /// the market-multiplier policy reads it.
    pub saturation: u64,
    /// The order book, where one was fetched.
    pub snapshot: Option<L2Snapshot>,
}

/// How a cycle ended.
#[derive(Clone, Copy, Debug, PartialEq, Eq, Structural)]
pub enum CycleOutcome {
    /// The inputs cannot be used: the oracle price is not positive, or the
    /// skew curve's value is above one.
    DataUnavailable,
    /// The sample was refused: too soon, or too small a move.
    Rejected,
    /// The sample was taken, but the book lacks a side to quote against.
    NoLiquidity,
    /// The sample was taken, and this is the quote to submit.
    Quote(QuoteIntent),
}

/// What the driver of the controller is to do next.
#[derive(Clone, Copy, Debug, PartialEq, Eq, Structural)]
pub enum Action {
    /// Nothing: the call came at a phase that does not expect it.
    Skip,
    /// Query the price feed and the position.
    Fetch,
    /// Submit this quote as one cancel-and-place transaction.
    Submit(QuoteIntent),
    /// Sleep for the ordinary interval between cycles.
    Sleep,
    /// Sleep for the longer interval that follows a failure.
    Cooldown,
}

/// Ordinary interval between two cycles, in milliseconds.
pub const POLL_INTERVAL_MS: u64 = 100;

/// Interval after a failed cycle, in milliseconds.
pub const COOLDOWN_MS: u64 = 5_000;

/// The spreads and size of the oracle-direct mode for a position.
pub open spec fn quote_params_of(
    base_spread_bps: u16,
    max_skew_bps: u16,
    order_size: u64,
    max_position_size: u64,
    position: i64,
) -> QuoteParams {
    let skew = linear_skew_of(
        base_spread_bps as int,
        max_skew_bps as int,
        position as int,
        position_ratio_of(position as int, max_position_size as int),
    );
    QuoteParams { bid_offset_bps: skew.0 as u128, ask_offset_bps: skew.1 as u128, size: order_size }
}

/// Computes the spreads and size of the oracle-direct mode: the linear
/// policy at the position's ratio, and the configured size on both sides.
pub fn calculate_quotes(
    base_spread_bps: u16,
    max_skew_bps: u16,
    order_size: u64,
    max_position_size: u64,
    position: i64,
) -> (q: QuoteParams)
    requires
        max_position_size > 0,
    ensures
        q == quote_params_of(base_spread_bps, max_skew_bps, order_size, max_position_size, position),
{
    let ratio: i64 = position_ratio(position, max_position_size);
    let skew: (u128, u128) = linear_skew(base_spread_bps, max_skew_bps, position, ratio);
    QuoteParams { bid_offset_bps: skew.0, ask_offset_bps: skew.1, size: order_size }
}

/// The batch of the oracle-direct mode: cancel what rests in the market, and
/// place the bid and the ask at the offsets that the spreads make at the
/// oracle price. The bid's offset is negative and the ask's positive.
pub fn update_orders(market: MarketId, oracle_price: i64, quotes: QuoteParams) -> (b: OrderBatch)
    requires
        oracle_price > 0,
    ensures
        b.cancel == (CancelScope::Market {
            market_index: market.market_index,
            market_type: market.kind,
        }),
        b.orders@ == quote_orders_of(market, oracle_quote_of(oracle_price as int, quotes)),
        b.orders@.len() == 2,
        b.orders@[0].oracle_price_offset is Some && b.orders@[1].oracle_price_offset is Some,
        b.orders@[0].oracle_price_offset->Some_0 <= -1,
        b.orders@[1].oracle_price_offset->Some_0 >= 1,
{
    cancel_and_place(market, oracle_quote(oracle_price, quotes))
}

/// The quote for a sample that was taken, or why there is none.
pub open spec fn quote_outcome_of(config: BotConfig, inputs: CycleInputs) -> CycleOutcome {
    match config.spread {
        SpreadPolicy::MarketMultiplier { spread_multiplier } => {
            if inputs.snapshot.is_none() || inputs.snapshot.unwrap().bids@.len() == 0
                || inputs.snapshot.unwrap().asks@.len() == 0 {
                CycleOutcome::NoLiquidity
            } else {
                CycleOutcome::Quote(
                    l2_quote_of(
                        inputs.oracle_price as int,
                        highest_price_of(inputs.snapshot.unwrap().bids@) as int,
                        lowest_price_of(inputs.snapshot.unwrap().asks@) as int,
                        spread_multiplier as int,
                        config.order_size as int,
                        position_ratio_of(inputs.position as int, config.max_position_size as int),
                        inputs.saturation as int,
                    ),
                )
            }
        },
        SpreadPolicy::OracleOffset { base_spread_bps, max_skew_bps } => CycleOutcome::Quote(
            oracle_quote_of(
                inputs.oracle_price as int,
                quote_params_of(
                    base_spread_bps,
                    max_skew_bps,
                    config.order_size,
                    config.max_position_size,
                    inputs.position,
                ),
            ),
        ),
    }
}

/// Whether the inputs of a cycle can be used at all.
pub open spec fn inputs_usable(config: BotConfig, inputs: CycleInputs) -> bool {
    &&& inputs.oracle_price > 0
    &&& config.spread is MarketMultiplier ==> inputs.saturation <= PPM
}

/// How the cycle ends for a state, a time and the feeds' answers: unusable
/// inputs first, then the update rules, then the quote.
pub open spec fn cycle_outcome_of(config: BotConfig, state: BotState, now: u64, inputs: CycleInputs) -> CycleOutcome {
    if !inputs_usable(config, inputs) {
        CycleOutcome::DataUnavailable
    } else if !update_accepted(
        now as int,
        inputs.oracle_price as int,
        state.last_update_time as int,
        state.prev_oracle_price as int,
        config.debounce_ms as int,
        config.oracle_change_threshold_bps as int,
    ) {
        CycleOutcome::Rejected
    } else {
        quote_outcome_of(config, inputs)
    }
}

/// Computes the quote for a sample that was taken.
pub fn process_update(config: &BotConfig, inputs: &CycleInputs) -> (r: Result<QuoteIntent, QuoteError>)
    requires
        config.max_position_size > 0,
        inputs_usable(*config, *inputs),
    ensures
        r is Err <==> quote_outcome_of(*config, *inputs) == CycleOutcome::NoLiquidity,
        r is Err ==> r == Err::<QuoteIntent, QuoteError>(QuoteError::NoLiquidity),
        r is Ok ==> quote_outcome_of(*config, *inputs) == CycleOutcome::Quote(r.unwrap()),
        r is Ok ==> r->Ok_0.ask_offset > r->Ok_0.bid_offset && r->Ok_0.bid_offset <= 0
            <= r->Ok_0.ask_offset,
{
    match config.spread {
        SpreadPolicy::MarketMultiplier { spread_multiplier } => {
            match &inputs.snapshot {
                None => Err(QuoteError::NoLiquidity),
                Some(snapshot) => {
                    let ratio: i64 = position_ratio(inputs.position, config.max_position_size);
                    quote_from_snapshot(
                        inputs.oracle_price,
                        snapshot,
                        spread_multiplier,
                        config.order_size,
                        ratio,
                        inputs.saturation,
                    )
                },
            }
        },
        SpreadPolicy::OracleOffset { base_spread_bps, max_skew_bps } => {
            let quotes: QuoteParams = calculate_quotes(
                base_spread_bps,
                max_skew_bps,
                config.order_size,
                config.max_position_size,
                inputs.position,
            );
            Ok(oracle_quote(inputs.oracle_price, quotes))
        },
    }
}

/// Decides one cycle: whether the inputs can be used, whether the sample
/// warrants a refresh, and the quote to submit if it does.
pub fn evaluate_cycle(config: &BotConfig, state: &BotState, now: u64, inputs: &CycleInputs) -> (o:
    CycleOutcome)
    requires
        config.max_position_size > 0,
    ensures
        o == cycle_outcome_of(*config, *state, now, *inputs),
        o matches CycleOutcome::Quote(q) ==> q.ask_offset > q.bid_offset && q.bid_offset <= 0
            <= q.ask_offset,
{
    if inputs.oracle_price <= 0 {
        return CycleOutcome::DataUnavailable;
    }
    match config.spread {
        SpreadPolicy::MarketMultiplier { spread_multiplier } => {
            if inputs.saturation > PPM {
                return CycleOutcome::DataUnavailable;
            }
        },
        SpreadPolicy::OracleOffset { base_spread_bps, max_skew_bps } => {},
    }
    if !should_update(
        now,
        inputs.oracle_price,
        state.last_update_time,
        state.prev_oracle_price,
        config.debounce_ms,
        config.oracle_change_threshold_bps,
    ) {
        return CycleOutcome::Rejected;
    }
    match process_update(config, inputs) {
        Ok(intent) => CycleOutcome::Quote(intent),
        Err(_) => CycleOutcome::NoLiquidity,
    }
}

/// Whatever quote a cycle ends in, under either policy, its ask lies above
/// its bid, its bid offset is not positive and its ask offset not negative:
/// for every state, every time and every answer of the feeds.
pub proof fn lemma_cycle_quote_never_crosses(
    config: BotConfig,
    state: BotState,
    now: u64,
    inputs: CycleInputs,
)
    ensures
        cycle_outcome_of(config, state, now, inputs) matches CycleOutcome::Quote(q) ==> q.ask_offset
            > q.bid_offset && q.bid_offset <= 0 <= q.ask_offset,
{
    match config.spread {
        SpreadPolicy::MarketMultiplier { spread_multiplier } => {
            if inputs.snapshot.is_some() {
                lemma_l2_quote_never_crosses(
                    inputs.oracle_price as int,
                    highest_price_of(inputs.snapshot.unwrap().bids@) as int,
                    lowest_price_of(inputs.snapshot.unwrap().asks@) as int,
                    spread_multiplier as int,
                    config.order_size as int,
                    position_ratio_of(inputs.position as int, config.max_position_size as int),
                    inputs.saturation as int,
                );
            }
        },
        SpreadPolicy::OracleOffset { base_spread_bps, max_skew_bps } => {
            lemma_oracle_quote_never_crosses(
                inputs.oracle_price as int,
                quote_params_of(
                    base_spread_bps,
                    max_skew_bps,
                    config.order_size,
                    config.max_position_size,
                    inputs.position,
                ),
            );
        },
    }
}

/// How long the driver pauses for an action, in milliseconds: the cooldown
/// after a failure; otherwise the debounce interval under the oracle-offset
/// policy, which has nothing to watch in between, and the poll interval
/// under the market-multiplier policy.
pub open spec fn pause_of(config: BotConfig, action: Action) -> u64 {
    if action == Action::Cooldown {
        COOLDOWN_MS
    } else if config.spread is OracleOffset {
        config.debounce_ms
    } else {
        POLL_INTERVAL_MS
    }
}

/// Computes how long the driver pauses for an action.
pub fn pause_after(config: &BotConfig, action: Action) -> (millis: u64)
    ensures
        millis == pause_of(*config, action),
{
    match action {
        Action::Cooldown => COOLDOWN_MS,
        _ => match config.spread {
            SpreadPolicy::OracleOffset { base_spread_bps, max_skew_bps } => config.debounce_ms,
            SpreadPolicy::MarketMultiplier { spread_multiplier } => POLL_INTERVAL_MS,
        },
    }
}

} // verus!
