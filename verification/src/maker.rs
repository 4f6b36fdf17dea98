//! The controller: it owns the run state, moves it through the phases of a
//! cycle as its driver reports ticks, feed answers and submission results,
//! and says after each report what the driver is to do next.
//!
//! The state advances only when a submission is confirmed. A failed
//! submission leaves the last price and time as they were, so the next
//! sample is judged against the same reference again.

use vstd::prelude::*;
use crate::config::{BotConfig, ConfigError};
use crate::cycle::{
    consistent, cycle_outcome_of, evaluate_cycle, fresh_state, next_phase, Action, BotState,
    CycleInputs, CycleOutcome, Event, Phase,
};
use crate::market::MarketId;
use crate::shutdown::{cancel_and_flatten, shutdown_plan_of, ShutdownStep};

verus! {

/// The state after a start request: running, unless shutdown has begun.
pub open spec fn state_after_start(s: BotState) -> BotState {
    if s.phase == Phase::ShuttingDown {
        s
    } else {
        BotState { is_running: true, ..s }
    }
}

/// Whether a tick starts a cycle: only while running and idle.
pub open spec fn tick_starts_cycle(s: BotState) -> bool {
    s.is_running && s.phase == Phase::Idle
}

/// The state after a tick.
pub open spec fn state_after_tick(s: BotState) -> BotState {
    if tick_starts_cycle(s) {
        BotState { phase: Phase::Fetching, is_processing: true, ..s }
    } else {
        s
    }
}

/// The state after the feeds failed to answer.
pub open spec fn state_after_fetch_failed(s: BotState) -> BotState {
    if s.phase == Phase::Fetching {
        BotState { phase: Phase::Idle, is_processing: false, ..s }
    } else {
        s
    }
}

/// The state after the feeds answered and the cycle was decided. A quote
/// moves the controller to updating and is remembered by its price; every
/// other outcome ends the cycle. Nothing else changes.
pub open spec fn state_after_cycle(s: BotState, outcome: CycleOutcome, oracle_price: i64) -> BotState {
    if s.phase != Phase::Fetching {
        s
    } else {
        match outcome {
            CycleOutcome::Quote(_) => BotState {
                phase: Phase::Updating,
                pending_price: oracle_price,
                ..s
            },
            _ => BotState { phase: Phase::Idle, is_processing: false, ..s },
        }
    }
}

/// What the driver does after the cycle was decided.
pub open spec fn action_after_cycle(s: BotState, outcome: CycleOutcome) -> Action {
    if s.phase != Phase::Fetching {
        Action::Skip
    } else {
        match outcome {
            CycleOutcome::Quote(intent) => Action::Submit(intent),
            CycleOutcome::Rejected => Action::Sleep,
            CycleOutcome::DataUnavailable => Action::Cooldown,
            CycleOutcome::NoLiquidity => Action::Cooldown,
        }
    }
}

/// The state after a submission ended at time `now`. Confirmed, it records
/// the quote's price and the time and marks orders as resting. Failed, it
/// leaves all three as they were. Either way the cycle is over.
pub open spec fn state_after_submission(s: BotState, now: u64, confirmed: bool) -> BotState {
    if s.phase != Phase::Updating {
        s
    } else if confirmed {
        BotState {
            prev_oracle_price: s.pending_price,
            last_update_time: now,
            has_active_orders: true,
            phase: Phase::Idle,
            is_processing: false,
            ..s
        }
    } else {
        BotState { phase: Phase::Idle, is_processing: false, ..s }
    }
}

/// What the driver does after a submission ended.
pub open spec fn action_after_submission(s: BotState, confirmed: bool) -> Action {
    if s.phase != Phase::Updating {
        Action::Skip
    } else if confirmed {
        Action::Sleep
    } else {
        Action::Cooldown
    }
}

/// The state after shutdown began.
pub open spec fn state_after_stop(s: BotState) -> BotState {
    BotState { is_running: false, is_processing: false, phase: Phase::ShuttingDown, ..s }
}

/// Computes the state after a tick.
pub fn advance_tick(s: BotState) -> (r: BotState)
    ensures
        r == state_after_tick(s),
        r.phase == (if s.is_running {
            next_phase(s.phase, Event::Tick)
        } else {
            s.phase
        }),
        consistent(s) ==> consistent(r),
{
    if s.is_running && s.phase == Phase::Idle {
        BotState { phase: Phase::Fetching, is_processing: true, ..s }
    } else {
        s
    }
}

/// Computes the state after the cycle was decided.
pub fn advance_cycle(s: BotState, outcome: CycleOutcome, oracle_price: i64) -> (r: BotState)
    ensures
        r == state_after_cycle(s, outcome, oracle_price),
        r.prev_oracle_price == s.prev_oracle_price,
        r.last_update_time == s.last_update_time,
        s.phase != Phase::Fetching ==> r == s,
        s.phase == Phase::Fetching ==> r.phase == (match outcome {
            CycleOutcome::DataUnavailable => next_phase(s.phase, Event::FetchFailed),
            CycleOutcome::Rejected => next_phase(
                next_phase(s.phase, Event::FeedResponse),
                Event::GateRejected,
            ),
            CycleOutcome::NoLiquidity => next_phase(
                next_phase(s.phase, Event::FeedResponse),
                Event::QuoteFailed,
            ),
            CycleOutcome::Quote(_) => next_phase(
                next_phase(s.phase, Event::FeedResponse),
                Event::GateAccepted,
            ),
        }),
        consistent(s) ==> consistent(r),
{
    if s.phase != Phase::Fetching {
        return s;
    }
    match outcome {
        CycleOutcome::Quote(_) => BotState { phase: Phase::Updating, pending_price: oracle_price, ..s },
        _ => BotState { phase: Phase::Idle, is_processing: false, ..s },
    }
}

/// Computes what the driver does after the cycle was decided.
pub fn cycle_action(s: BotState, outcome: CycleOutcome) -> (a: Action)
    ensures
        a == action_after_cycle(s, outcome),
{
    if s.phase != Phase::Fetching {
        return Action::Skip;
    }
    match outcome {
        CycleOutcome::Quote(intent) => Action::Submit(intent),
        CycleOutcome::Rejected => Action::Sleep,
        CycleOutcome::DataUnavailable => Action::Cooldown,
        CycleOutcome::NoLiquidity => Action::Cooldown,
    }
}

/// Computes the state after a submission ended.
pub fn advance_submission(s: BotState, now: u64, confirmed: bool) -> (r: BotState)
    ensures
        r == state_after_submission(s, now, confirmed),
        r.phase == next_phase(s.phase, Event::SubmissionCompleted),
        !confirmed ==> r.prev_oracle_price == s.prev_oracle_price && r.last_update_time
            == s.last_update_time && r.has_active_orders == s.has_active_orders,
        consistent(s) ==> consistent(r),
{
    if s.phase != Phase::Updating {
        s
    } else if confirmed {
        BotState {
            prev_oracle_price: s.pending_price,
            last_update_time: now,
            has_active_orders: true,
            phase: Phase::Idle,
            is_processing: false,
            ..s
        }
    } else {
        BotState { phase: Phase::Idle, is_processing: false, ..s }
    }
}

/// One sample of a replay: the time on the injected clock and what the feeds
/// return at that time.
#[derive(Clone, Debug, PartialEq, Eq)]
pub struct TimedSample {
    pub now: u64,
    pub inputs: CycleInputs,
}

/// How the cycle for one sample ends, when a tick comes first.
pub open spec fn sample_outcome_of(config: BotConfig, s: BotState, sample: TimedSample) -> CycleOutcome {
    cycle_outcome_of(config, state_after_tick(s), sample.now, sample.inputs)
}

/// The state after the cycle for one sample: a tick, the decision, and, for
/// a quote, its confirmation at the sample's time.
pub open spec fn state_after_sample(config: BotConfig, s: BotState, sample: TimedSample) -> BotState {
    state_after_submission(
        state_after_cycle(
            state_after_tick(s),
            sample_outcome_of(config, s, sample),
            sample.inputs.oracle_price,
        ),
        sample.now,
        true,
    )
}

/// The outcomes of the cycles for a sequence of samples, in order.
pub open spec fn replay_of(config: BotConfig, s: BotState, samples: Seq<TimedSample>) -> Seq<
    CycleOutcome,
>
    decreases samples.len(),
{
    if samples.len() == 0 {
        Seq::empty()
    } else {
        seq![sample_outcome_of(config, s, samples.first())] + replay_of(
            config,
            state_after_sample(config, s, samples.first()),
            samples.drop_first(),
        )
    }
}

/// The state that a sequence of samples leaves behind.
pub open spec fn state_after_replay(config: BotConfig, s: BotState, samples: Seq<TimedSample>) -> BotState
    decreases samples.len(),
{
    if samples.len() == 0 {
        s
    } else {
        state_after_replay(
            config,
            state_after_sample(config, s, samples.first()),
            samples.drop_first(),
        )
    }
}

/// What a controller is, seen from outside: its settings, its market and its
/// run state.
pub struct BotView {
    pub config: BotConfig,
    pub market: MarketId,
    pub state: BotState,
}

/// The quoting controller of one market.
pub struct OracleLimitMakerBot {
    config: BotConfig,
    market: MarketId,
    state: BotState,
}

impl View for OracleLimitMakerBot {
    type V = BotView;

    closed spec fn view(&self) -> BotView {
        BotView { config: self.config, market: self.market, state: self.state }
    }
}

impl OracleLimitMakerBot {
    #[verifier::type_invariant]
    spec fn well_formed(&self) -> bool {
        &&& self.config.max_position_size > 0
        &&& consistent(self.state)
    }

    /// Builds a controller that has not run yet, from the settings and from
    /// what the venue answered when the market and the signer were looked up.
    /// It fails, in this order, when the signer could not be resolved, when
    /// the market is unknown, and when the largest position is zero.
    pub fn new(config: BotConfig, market: Option<MarketId>, signer_resolved: bool) -> (r: Result<
        OracleLimitMakerBot,
        ConfigError,
    >)
        ensures
            !signer_resolved ==> r is Err && r->Err_0 == ConfigError::InvalidSigner,
            signer_resolved && market.is_none() ==> r is Err && r->Err_0
                == ConfigError::MarketNotFound,
            signer_resolved && market.is_some() && config.max_position_size == 0 ==> r is Err
                && r->Err_0 == ConfigError::InvalidMaxPosition,
            signer_resolved && market.is_some() && config.max_position_size > 0 ==> r is Ok
                && r->Ok_0@ == (BotView { config, market: market.unwrap(), state: fresh_state() }),
    {
        if !signer_resolved {
            return Err(ConfigError::InvalidSigner);
        }
        let market: MarketId = match market {
            Some(m) => m,
            None => {
                return Err(ConfigError::MarketNotFound);
            },
        };
        if config.max_position_size == 0 {
            return Err(ConfigError::InvalidMaxPosition);
        }
        Ok(
            OracleLimitMakerBot {
                config,
                market,
                state: BotState {
                    prev_oracle_price: 0,
                    last_update_time: 0,
                    is_running: false,
                    is_processing: false,
                    has_active_orders: false,
                    phase: Phase::Idle,
                    pending_price: 0,
                },
            },
        )
    }

    /// The controller's settings.
    pub fn config(&self) -> (c: &BotConfig)
        ensures
            *c == self@.config,
            c.max_position_size > 0,
    {
        proof {
            use_type_invariant(self);
        }
        &self.config
    }

    /// The market that the controller quotes.
    pub fn market(&self) -> (m: MarketId)
        ensures
            m == self@.market,
    {
        self.market
    }

    /// The controller's run state.
    pub fn state(&self) -> (s: BotState)
        ensures
            s == self@.state,
            consistent(s),
    {
        proof {
            use_type_invariant(self);
        }
        self.state
    }

    /// Marks the controller as running, so that ticks start cycles. After
    /// shutdown has begun this changes nothing.
    pub fn start(&mut self)
        ensures
            final(self)@.config == old(self)@.config,
            final(self)@.market == old(self)@.market,
            final(self)@.state == state_after_start(old(self)@.state),
    {
        proof {
            use_type_invariant(&*self);
        }
        if self.state.phase != Phase::ShuttingDown {
            self.state = BotState { is_running: true, ..self.state };
        }
    }

    /// Reports a tick of the timer. While running and idle this starts a
    /// cycle and asks the driver to query the feeds. At any other time it
    /// changes nothing and asks for nothing, so that cycles never overlap.
    pub fn process_cycle(&mut self) -> (a: Action)
        ensures
            final(self)@.config == old(self)@.config,
            final(self)@.market == old(self)@.market,
            final(self)@.state == state_after_tick(old(self)@.state),
            a == (if tick_starts_cycle(old(self)@.state) {
                Action::Fetch
            } else {
                Action::Skip
            }),
    {
        proof {
            use_type_invariant(&*self);
        }
        let before: BotState = self.state;
        self.state = advance_tick(before);
        if before.is_running && before.phase == Phase::Idle {
            Action::Fetch
        } else {
            Action::Skip
        }
    }

    /// Reports that the feeds did not answer. The cycle is given up and the
    /// driver is asked to cool down. Outside a fetch this changes nothing.
    pub fn on_fetch_failed(&mut self) -> (a: Action)
        ensures
            final(self)@.config == old(self)@.config,
            final(self)@.market == old(self)@.market,
            final(self)@.state == state_after_fetch_failed(old(self)@.state),
            final(self)@.state.phase == next_phase(old(self)@.state.phase, Event::FetchFailed),
            a == (if old(self)@.state.phase == Phase::Fetching {
                Action::Cooldown
            } else {
                Action::Skip
            }),
    {
        proof {
            use_type_invariant(&*self);
        }
        if self.state.phase == Phase::Fetching {
            self.state = BotState { phase: Phase::Idle, is_processing: false, ..self.state };
            Action::Cooldown
        } else {
            Action::Skip
        }
    }

    /// Reports the feeds' answer at time `now`. The cycle is decided: unusable
    /// inputs and a book without liquidity end it with a cooldown, a sample
    /// that is refused ends it with the ordinary sleep, and a sample
    /// that is taken yields the quote to submit, whose ask lies above its bid.
    /// The last price and time are never touched here. Outside a fetch this
    /// changes nothing.
    pub fn handle_oracle_update(&mut self, now: u64, inputs: &CycleInputs) -> (a: Action)
        ensures
            final(self)@.config == old(self)@.config,
            final(self)@.market == old(self)@.market,
            final(self)@.state == state_after_cycle(
                old(self)@.state,
                cycle_outcome_of(old(self)@.config, old(self)@.state, now, *inputs),
                inputs.oracle_price,
            ),
            a == action_after_cycle(
                old(self)@.state,
                cycle_outcome_of(old(self)@.config, old(self)@.state, now, *inputs),
            ),
            final(self)@.state.prev_oracle_price == old(self)@.state.prev_oracle_price,
            final(self)@.state.last_update_time == old(self)@.state.last_update_time,
            a matches Action::Submit(q) ==> q.ask_offset > q.bid_offset && q.bid_offset <= 0
                <= q.ask_offset,
    {
        proof {
            use_type_invariant(&*self);
        }
        let before: BotState = self.state;
        let outcome: CycleOutcome = evaluate_cycle(&self.config, &before, now, inputs);
        self.state = advance_cycle(before, outcome, inputs.oracle_price);
        cycle_action(before, outcome)
    }

    /// Reports that the submission ended at time `now`, confirmed or not.
    /// Confirmed, the quote's price and the time become the reference for
    /// the next sample. Failed, the reference stays as it was. Outside an
    /// update this changes nothing.
    pub fn on_submission(&mut self, now: u64, confirmed: bool) -> (a: Action)
        ensures
            final(self)@.config == old(self)@.config,
            final(self)@.market == old(self)@.market,
            final(self)@.state == state_after_submission(old(self)@.state, now, confirmed),
            final(self)@.state.phase == next_phase(
                old(self)@.state.phase,
                Event::SubmissionCompleted,
            ),
            a == action_after_submission(old(self)@.state, confirmed),
            !confirmed ==> final(self)@.state.prev_oracle_price == old(self)@.state.prev_oracle_price
                && final(self)@.state.last_update_time == old(self)@.state.last_update_time,
    {
        proof {
            use_type_invariant(&*self);
        }
        let before: BotState = self.state;
        self.state = advance_submission(before, now, confirmed);
        if before.phase != Phase::Updating {
            Action::Skip
        } else if confirmed {
            Action::Sleep
        } else {
            Action::Cooldown
        }
    }

    /// Begins shutdown and returns its steps: cancel every resting order, close
    /// the position with one reduce-only market order if one is held, and
    /// unsubscribe. The driver attempts each step whether or not the one
    /// before it succeeded. Shutdown begins once: a later call changes
    /// nothing and returns no steps.
    pub fn stop(&mut self, position: Option<i64>) -> (plan: Vec<ShutdownStep>)
        ensures
            final(self)@.config == old(self)@.config,
            final(self)@.market == old(self)@.market,
            final(self)@.state == state_after_stop(old(self)@.state),
            final(self)@.state.phase == next_phase(old(self)@.state.phase, Event::Shutdown),
            old(self)@.state.phase != Phase::ShuttingDown ==> plan@ == shutdown_plan_of(
                old(self)@.market.market_index,
                position,
            ),
            old(self)@.state.phase == Phase::ShuttingDown ==> plan@.len() == 0,
    {
        proof {
            use_type_invariant(&*self);
        }
        if self.state.phase == Phase::ShuttingDown {
            return Vec::new();
        }
        self.state = BotState {
            is_running: false,
            is_processing: false,
            phase: Phase::ShuttingDown,
            ..self.state
        };
        cancel_and_flatten(self.market.market_index, position)
    }

    /// Runs one cycle for each sample, in order, as if every quote were
    /// confirmed at its sample's time, and returns how each cycle ended.
    pub fn replay(&mut self, samples: &Vec<TimedSample>) -> (outcomes: Vec<CycleOutcome>)
        ensures
            final(self)@.config == old(self)@.config,
            final(self)@.market == old(self)@.market,
            outcomes@ == replay_of(old(self)@.config, old(self)@.state, samples@),
            final(self)@.state == state_after_replay(
                old(self)@.config,
                old(self)@.state,
                samples@,
            ),
    {
        proof {
            use_type_invariant(&*self);
        }
        let ghost start: BotState = self.state;
        let ghost config: BotConfig = self.config;
        let mut outcomes: Vec<CycleOutcome> = Vec::new();
        let mut state: BotState = self.state;
        let mut k: usize = 0;
        proof {
            assert(samples@.subrange(0, samples@.len() as int) =~= samples@);
            assert(outcomes@ + replay_of(config, start, samples@) =~= replay_of(
                config,
                start,
                samples@,
            ));
        }
        while k < samples.len()
            invariant
                k <= samples@.len(),
                self.config == config,
                config.max_position_size > 0,
                consistent(state),
                replay_of(config, start, samples@) == outcomes@ + replay_of(
                    config,
                    state,
                    samples@.subrange(k as int, samples@.len() as int),
                ),
                state_after_replay(config, start, samples@) == state_after_replay(
                    config,
                    state,
                    samples@.subrange(k as int, samples@.len() as int),
                ),
            decreases samples@.len() - k,
        {
            let ghost rest = samples@.subrange(k as int, samples@.len() as int);
            proof {
                assert(rest.first() == samples@[k as int]);
                assert(rest.drop_first() =~= samples@.subrange(k + 1, samples@.len() as int));
            }
            let sample: &TimedSample = &samples[k];
            let ticked: BotState = advance_tick(state);
            let outcome: CycleOutcome = evaluate_cycle(&self.config, &ticked, sample.now, &sample.inputs);
            let cycled: BotState = advance_cycle(ticked, outcome, sample.inputs.oracle_price);
            let ghost before = outcomes@;
            outcomes.push(outcome);
            state = advance_submission(cycled, sample.now, true);
            proof {
                assert(outcomes@ + replay_of(config, state, rest.drop_first()) =~= before + (
                seq![outcome] + replay_of(config, state, rest.drop_first())));
            }
            k = k + 1;
        }
        proof {
            assert(samples@.subrange(k as int, samples@.len() as int) =~= Seq::<TimedSample>::empty());
            assert(outcomes@ + Seq::<CycleOutcome>::empty() =~= outcomes@);
        }
        self.state = state;
        outcomes
    }
}

/// Two replays of the same samples with the same settings, each from a fresh
/// state, end every cycle the same way and leave the same state behind.
pub proof fn lemma_replay_is_deterministic(
    config_a: BotConfig,
    config_b: BotConfig,
    samples_a: Seq<TimedSample>,
    samples_b: Seq<TimedSample>,
)
    requires
        config_a == config_b,
        samples_a == samples_b,
    ensures
        replay_of(config_a, state_after_start(fresh_state()), samples_a) == replay_of(
            config_b,
            state_after_start(fresh_state()),
            samples_b,
        ),
        state_after_replay(config_a, state_after_start(fresh_state()), samples_a)
            == state_after_replay(config_b, state_after_start(fresh_state()), samples_b),
{
}

/// A failed submission leaves the reference price and time unchanged, so the
/// sample that follows is judged exactly as it would have been without the
/// attempt.
pub proof fn lemma_failed_submission_keeps_reference(
    config: BotConfig,
    s: BotState,
    now: u64,
    later: u64,
    inputs: CycleInputs,
)
    ensures
        state_after_submission(s, now, false).prev_oracle_price == s.prev_oracle_price,
        state_after_submission(s, now, false).last_update_time == s.last_update_time,
        cycle_outcome_of(config, state_after_submission(s, now, false), later, inputs)
            == cycle_outcome_of(config, s, later, inputs),
{
}

} // verus!
