use oracle_maker::config::{BotConfig, ConfigError, SpreadPolicy};
use oracle_maker::cycle::{
    calculate_quotes, evaluate_cycle, pause_after, process_update, transition, update_orders,
    Action, BotState, CycleInputs, CycleOutcome, Event, Phase, COOLDOWN_MS, POLL_INTERVAL_MS,
};
use oracle_maker::maker::{OracleLimitMakerBot, TimedSample};
use oracle_maker::market::{L2Snapshot, MarketId, MarketType, PriceLevel};
use oracle_maker::orders::{CancelScope, PositionDirection, QuoteIntent};
use oracle_maker::quote::{oracle_quote, QuoteError};
use oracle_maker::skew::QuoteParams;

fn book_config() -> BotConfig {
    BotConfig {
        target_market: String::from("BTC-PERP"),
        order_size: 1_000_000,
        max_position_size: 10_000_000,
        spread: SpreadPolicy::MarketMultiplier { spread_multiplier: 1_500_000 },
        debounce_ms: 1_000,
        oracle_change_threshold_bps: 500_000,
        authority: None,
        subaccount_id: 0,
    }
}

fn oracle_config() -> BotConfig {
    BotConfig {
        target_market: String::from("BTC-PERP"),
        order_size: 1_000_000,
        max_position_size: 10_000_000,
        spread: SpreadPolicy::OracleOffset { base_spread_bps: 2, max_skew_bps: 10 },
        debounce_ms: 500,
        oracle_change_threshold_bps: 2_000_000,
        authority: Some(String::from("delegate")),
        subaccount_id: 0,
    }
}

fn book() -> L2Snapshot {
    L2Snapshot {
        bids: vec![PriceLevel { price: 99_900_000, size: 3 }],
        asks: vec![PriceLevel { price: 100_100_000, size: 2 }],
    }
}

fn inputs(oracle_price: i64, position: i64) -> CycleInputs {
    CycleInputs { oracle_price, position, saturation: 0, snapshot: Some(book()) }
}

fn fresh() -> BotState {
    BotState {
        prev_oracle_price: 0,
        last_update_time: 0,
        is_running: false,
        is_processing: false,
        has_active_orders: false,
        phase: Phase::Idle,
        pending_price: 0,
    }
}

fn running(config: BotConfig) -> OracleLimitMakerBot {
    let mut bot = OracleLimitMakerBot::new(config, Some(MarketId::perp(1)), true).unwrap();
    bot.start();
    bot
}

const FLAT_QUOTE: QuoteIntent =
    QuoteIntent { bid_offset: -150_000, ask_offset: 150_000, bid_size: 1_000_000, ask_size: 1_000_000 };

#[test]
fn new_controller_is_idle_and_unset() {
    let bot = OracleLimitMakerBot::new(book_config(), Some(MarketId::perp(1)), true).unwrap();
    assert_eq!(bot.state(), fresh());
    assert_eq!(bot.market(), MarketId { market_index: 1, kind: MarketType::Perp });
    assert_eq!(*bot.config(), book_config());
}

#[test]
fn construction_reports_each_configuration_error() {
    let unresolved = OracleLimitMakerBot::new(book_config(), Some(MarketId::perp(1)), false);
    assert_eq!(unresolved.err(), Some(ConfigError::InvalidSigner));
    let unknown = OracleLimitMakerBot::new(book_config(), None, true);
    assert_eq!(unknown.err(), Some(ConfigError::MarketNotFound));
    let mut config = book_config();
    config.max_position_size = 0;
    let limitless = OracleLimitMakerBot::new(config, Some(MarketId::perp(1)), true);
    assert_eq!(limitless.err(), Some(ConfigError::InvalidMaxPosition));
    // The signer is looked at first, then the market.
    let both = OracleLimitMakerBot::new(book_config(), None, false);
    assert_eq!(both.err(), Some(ConfigError::InvalidSigner));
}

#[test]
fn delegation_follows_the_authority() {
    assert!(!book_config().is_delegated());
    assert!(oracle_config().is_delegated());
}

#[test]
fn tick_before_start_does_nothing() {
    let mut bot = OracleLimitMakerBot::new(book_config(), Some(MarketId::perp(1)), true).unwrap();
    assert_eq!(bot.process_cycle(), Action::Skip);
    assert_eq!(bot.state(), fresh());
}

#[test]
fn accepted_cycle_walks_idle_fetching_updating_idle() {
    let mut bot = running(book_config());
    assert_eq!(bot.process_cycle(), Action::Fetch);
    assert_eq!(bot.state().phase, Phase::Fetching);
    assert!(bot.state().is_processing);

    let action = bot.handle_oracle_update(10_000, &inputs(100_000_000, 0));
    assert_eq!(action, Action::Submit(FLAT_QUOTE));
    assert_eq!(bot.state().phase, Phase::Updating);
    assert_eq!(bot.state().pending_price, 100_000_000);
    assert_eq!(bot.state().prev_oracle_price, 0);
    assert_eq!(bot.state().last_update_time, 0);

    assert_eq!(bot.on_submission(10_250, true), Action::Sleep);
    let state = bot.state();
    assert_eq!(state.phase, Phase::Idle);
    assert!(!state.is_processing);
    assert!(state.has_active_orders);
    assert_eq!(state.prev_oracle_price, 100_000_000);
    assert_eq!(state.last_update_time, 10_250);
}

#[test]
fn failed_submission_leaves_price_and_time_unchanged() {
    let mut bot = running(book_config());
    bot.process_cycle();
    bot.handle_oracle_update(10_000, &inputs(100_000_000, 0));
    bot.on_submission(10_250, true);
    let before = bot.state();

    assert_eq!(bot.process_cycle(), Action::Fetch);
    let action = bot.handle_oracle_update(20_000, &inputs(100_060_000, 0));
    assert!(matches!(action, Action::Submit(_)));
    assert_eq!(bot.on_submission(20_400, false), Action::Cooldown);
    let after = bot.state();
    assert_eq!(after.prev_oracle_price, before.prev_oracle_price);
    assert_eq!(after.last_update_time, before.last_update_time);
    assert_eq!(after.has_active_orders, before.has_active_orders);
    assert_eq!(after.phase, Phase::Idle);

    // The retry is judged against the same reference and yields the same quote.
    assert_eq!(bot.process_cycle(), Action::Fetch);
    assert_eq!(bot.handle_oracle_update(20_000, &inputs(100_060_000, 0)), action);
}

#[test]
fn failed_first_submission_keeps_the_controller_unset() {
    let mut bot = running(book_config());
    bot.process_cycle();
    bot.handle_oracle_update(10_000, &inputs(100_000_000, 0));
    assert_eq!(bot.on_submission(10_100, false), Action::Cooldown);
    let state = bot.state();
    assert_eq!(state.prev_oracle_price, 0);
    assert_eq!(state.last_update_time, 0);
    assert!(!state.has_active_orders);
}

#[test]
fn rejected_sample_returns_to_idle_without_a_quote() {
    let mut bot = running(book_config());
    bot.process_cycle();
    bot.handle_oracle_update(10_000, &inputs(100_000_000, 0));
    bot.on_submission(10_000, true);
    let before = bot.state();

    bot.process_cycle();
    // Within the debounce interval.
    assert_eq!(bot.handle_oracle_update(10_500, &inputs(150_000_000, 0)), Action::Sleep);
    assert_eq!(bot.state(), before);
    bot.process_cycle();
    // Past the debounce, but the price has moved by less than the threshold.
    assert_eq!(bot.handle_oracle_update(12_000, &inputs(100_004_999, 0)), Action::Sleep);
    assert_eq!(bot.state(), before);
}

#[test]
fn empty_book_aborts_the_cycle_with_a_cooldown() {
    let mut bot = running(book_config());
    bot.process_cycle();
    let mut data = inputs(100_000_000, 0);
    data.snapshot = Some(L2Snapshot { bids: vec![], asks: book().asks });
    assert_eq!(bot.handle_oracle_update(10_000, &data), Action::Cooldown);
    assert_eq!(bot.state().phase, Phase::Idle);
    assert_eq!(bot.state().prev_oracle_price, 0);
    bot.process_cycle();
    data.snapshot = None;
    assert_eq!(bot.handle_oracle_update(10_000, &data), Action::Cooldown);
}

#[test]
fn unusable_inputs_abort_the_cycle_with_a_cooldown() {
    let mut bot = running(book_config());
    bot.process_cycle();
    assert_eq!(bot.handle_oracle_update(10_000, &inputs(0, 0)), Action::Cooldown);
    bot.process_cycle();
    assert_eq!(bot.handle_oracle_update(10_000, &inputs(-5, 0)), Action::Cooldown);
    bot.process_cycle();
    let mut data = inputs(100_000_000, 0);
    data.saturation = 1_000_001;
    assert_eq!(bot.handle_oracle_update(10_000, &data), Action::Cooldown);
    assert_eq!(bot.state().phase, Phase::Idle);
}

#[test]
fn fetch_failure_returns_to_idle_with_a_cooldown() {
    let mut bot = running(book_config());
    assert_eq!(bot.on_fetch_failed(), Action::Skip);
    bot.process_cycle();
    assert_eq!(bot.on_fetch_failed(), Action::Cooldown);
    assert_eq!(bot.state().phase, Phase::Idle);
    assert!(!bot.state().is_processing);
}

#[test]
fn reports_out_of_phase_are_skipped() {
    let mut bot = running(book_config());
    assert_eq!(bot.handle_oracle_update(10_000, &inputs(100_000_000, 0)), Action::Skip);
    assert_eq!(bot.on_submission(10_000, true), Action::Skip);
    assert_eq!(bot.state().prev_oracle_price, 0);
    bot.process_cycle();
    // A second tick while a cycle is under way starts nothing.
    assert_eq!(bot.process_cycle(), Action::Skip);
    assert_eq!(bot.state().phase, Phase::Fetching);
}

#[test]
fn oracle_offset_policy_needs_no_book() {
    let mut bot = running(oracle_config());
    bot.process_cycle();
    let data = CycleInputs { oracle_price: 100_000_000, position: 5_000_000, saturation: 0, snapshot: None };
    assert_eq!(
        bot.handle_oracle_update(10_000, &data),
        Action::Submit(QuoteIntent {
            bid_offset: -60_000,
            ask_offset: 10_000,
            bid_size: 1_000_000,
            ask_size: 1_000_000,
        })
    );
}

#[test]
fn calculate_quotes_applies_the_linear_policy_at_the_position_ratio() {
    assert_eq!(
        calculate_quotes(2, 10, 1_000_000, 10_000_000, 0),
        QuoteParams { bid_offset_bps: 1_000_000, ask_offset_bps: 1_000_000, size: 1_000_000 }
    );
    assert_eq!(
        calculate_quotes(2, 10, 1_000_000, 10_000_000, 5_000_000),
        QuoteParams { bid_offset_bps: 6_000_000, ask_offset_bps: 1_000_000, size: 1_000_000 }
    );
    assert_eq!(
        calculate_quotes(2, 10, 1_000_000, 10_000_000, -10_000_000),
        QuoteParams { bid_offset_bps: 1_000_000, ask_offset_bps: 11_000_000, size: 1_000_000 }
    );
}

#[test]
fn offset_policy_never_crosses_for_ratios_between_minus_one_and_one() {
    let mut position: i64 = -10_000_000;
    while position <= 10_000_000 {
        for (base_spread_bps, max_skew_bps) in [(2u16, 10u16), (1, 100), (20, 5), (0, 0)] {
            let quotes = calculate_quotes(base_spread_bps, max_skew_bps, 1_000_000, 10_000_000, position);
            for price in [5_000i64, 100_000_000] {
                let quote = oracle_quote(price, quotes);
                assert!(quote.ask_offset > quote.bid_offset, "crossed at position {}", position);
                assert!(quote.bid_offset <= 0 && quote.ask_offset >= 0);
            }
        }
        position += 250_000;
    }
}

#[test]
fn flat_position_at_a_small_price_still_quotes_one_unit_a_side() {
    // Two basis points of spread at a price of 5_000 units: half of it is
    // half a price unit.
    let quotes = calculate_quotes(2, 10, 1_000_000, 10_000_000, 0);
    let quote = oracle_quote(5_000, quotes);
    assert_eq!((quote.bid_offset, quote.ask_offset), (-1, 1));
    // No base spread at all.
    let quotes = calculate_quotes(0, 10, 1_000_000, 10_000_000, 0);
    let quote = oracle_quote(100_000_000, quotes);
    assert_eq!((quote.bid_offset, quote.ask_offset), (-1, 1));
}

#[test]
fn update_orders_builds_the_cancel_and_place_batch() {
    let quotes = calculate_quotes(2, 10, 1_000_000, 10_000_000, 5_000_000);
    let batch = update_orders(MarketId::perp(1), 100_000_000, quotes);
    assert_eq!(batch.cancel, CancelScope::Market { market_index: 1, market_type: MarketType::Perp });
    assert_eq!(batch.orders.len(), 2);
    assert_eq!(batch.orders[0].direction, PositionDirection::Long);
    assert_eq!(batch.orders[0].oracle_price_offset, Some(-60_000));
    assert_eq!(batch.orders[1].direction, PositionDirection::Short);
    assert_eq!(batch.orders[1].oracle_price_offset, Some(10_000));
    assert_eq!(batch.orders[0].base_asset_amount, 1_000_000);
}

#[test]
fn process_update_quotes_from_the_position() {
    let mut data = inputs(100_000_000, 6_000_000);
    data.saturation = 995_054;
    assert_eq!(
        process_update(&book_config(), &data),
        Ok(QuoteIntent { bid_offset: -269_406, ask_offset: 30_593, bid_size: 500_000, ask_size: 1_000_000 })
    );
    data.snapshot = None;
    assert_eq!(process_update(&book_config(), &data), Err(QuoteError::NoLiquidity));
}

#[test]
fn full_long_position_quotes_no_bid_size() {
    let mut data = inputs(100_000_000, 10_000_000);
    data.saturation = 999_909;
    let quote = process_update(&book_config(), &data).unwrap();
    assert_eq!((quote.bid_size, quote.ask_size), (0, 1_000_000));
}

#[test]
fn evaluate_cycle_orders_its_checks() {
    let config = book_config();
    let mut state = fresh();
    state.prev_oracle_price = 100_000_000;
    state.last_update_time = 10_000;
    // Unusable inputs come before the update rules.
    assert_eq!(evaluate_cycle(&config, &state, 10_100, &inputs(0, 0)), CycleOutcome::DataUnavailable);
    // The update rules come before the book.
    let mut empty = inputs(200_000_000, 0);
    empty.snapshot = None;
    assert_eq!(evaluate_cycle(&config, &state, 10_100, &empty), CycleOutcome::Rejected);
    assert_eq!(evaluate_cycle(&config, &state, 20_000, &empty), CycleOutcome::NoLiquidity);
    assert_eq!(
        evaluate_cycle(&config, &state, 20_000, &inputs(100_060_000, 0)),
        CycleOutcome::Quote(QuoteIntent {
            bid_offset: -210_000,
            ask_offset: 90_000,
            bid_size: 1_000_000,
            ask_size: 1_000_000,
        })
    );
}

#[test]
fn pause_follows_the_action_and_the_policy() {
    let intent = QuoteIntent { bid_offset: -1, ask_offset: 1, bid_size: 1, ask_size: 1 };
    for config in [book_config(), oracle_config()] {
        assert_eq!(pause_after(&config, Action::Cooldown), COOLDOWN_MS);
        assert_eq!(COOLDOWN_MS, 5_000);
    }
    for action in [Action::Sleep, Action::Skip, Action::Fetch, Action::Submit(intent)] {
        assert_eq!(pause_after(&book_config(), action), POLL_INTERVAL_MS);
        assert_eq!(pause_after(&oracle_config(), action), 500);
    }
    assert_eq!(POLL_INTERVAL_MS, 100);
}

#[test]
fn every_submitted_quote_has_its_ask_above_its_bid() {
    let mut prices: Vec<i64> = vec![1, 5_000, 90_000_000, 99_900_000, 100_000_000, 100_100_000];
    prices.push(110_000_000);
    for config in [book_config(), oracle_config()] {
        for price in prices.iter() {
            for position in [-10_000_000i64, -3_000_000, 0, 3_000_000, 10_000_000] {
                let mut bot = running(config.clone());
                bot.process_cycle();
                let mut data = inputs(*price, position);
                data.saturation = 900_000;
                match bot.handle_oracle_update(10_000, &data) {
                    Action::Submit(q) => {
                        assert!(q.ask_offset > q.bid_offset);
                        assert!(q.bid_offset <= 0 && q.ask_offset >= 0);
                    }
                    other => panic!("no quote: {:?}", other),
                }
            }
        }
    }
}

#[test]
fn transitions_follow_the_table() {
    assert_eq!(transition(Phase::Idle, Event::Tick), Phase::Fetching);
    assert_eq!(transition(Phase::Fetching, Event::FeedResponse), Phase::Evaluating);
    assert_eq!(transition(Phase::Fetching, Event::FetchFailed), Phase::Idle);
    assert_eq!(transition(Phase::Evaluating, Event::GateAccepted), Phase::Updating);
    assert_eq!(transition(Phase::Evaluating, Event::GateRejected), Phase::Idle);
    assert_eq!(transition(Phase::Evaluating, Event::QuoteFailed), Phase::Idle);
    assert_eq!(transition(Phase::Updating, Event::SubmissionCompleted), Phase::Idle);
    for phase in [Phase::Idle, Phase::Fetching, Phase::Evaluating, Phase::Updating, Phase::ShuttingDown] {
        assert_eq!(transition(phase, Event::Shutdown), Phase::ShuttingDown);
    }
    for event in [
        Event::Tick,
        Event::FeedResponse,
        Event::FetchFailed,
        Event::GateAccepted,
        Event::GateRejected,
        Event::QuoteFailed,
        Event::SubmissionCompleted,
        Event::Shutdown,
    ] {
        assert_eq!(transition(Phase::ShuttingDown, event), Phase::ShuttingDown);
    }
    // An event that a phase does not expect leaves it alone.
    assert_eq!(transition(Phase::Idle, Event::SubmissionCompleted), Phase::Idle);
    assert_eq!(transition(Phase::Updating, Event::Tick), Phase::Updating);
}

fn samples() -> Vec<TimedSample> {
    vec![
        TimedSample { now: 10_000, inputs: inputs(100_000_000, 0) },
        TimedSample { now: 10_400, inputs: inputs(100_500_000, 0) },
        TimedSample { now: 11_000, inputs: inputs(100_001_000, 0) },
        TimedSample { now: 12_000, inputs: inputs(100_060_000, 0) },
        TimedSample { now: 13_000, inputs: CycleInputs { oracle_price: 100_200_000, position: 0, saturation: 0, snapshot: None } },
        TimedSample { now: 14_000, inputs: inputs(0, 0) },
        TimedSample { now: 15_000, inputs: inputs(100_200_000, 0) },
    ]
}

#[test]
fn replay_records_every_decision() {
    let outcomes = running(book_config()).replay(&samples());
    assert_eq!(
        outcomes,
        vec![
            CycleOutcome::Quote(FLAT_QUOTE),
            CycleOutcome::Rejected,
            CycleOutcome::Rejected,
            CycleOutcome::Quote(QuoteIntent {
                bid_offset: -210_000,
                ask_offset: 90_000,
                bid_size: 1_000_000,
                ask_size: 1_000_000,
            }),
            CycleOutcome::NoLiquidity,
            CycleOutcome::DataUnavailable,
            // The oracle has run above the whole quote: the ask sits at it.
            CycleOutcome::Quote(QuoteIntent {
                bid_offset: -350_000,
                ask_offset: 0,
                bid_size: 1_000_000,
                ask_size: 1_000_000,
            }),
        ]
    );
}

#[test]
fn two_fresh_controllers_replay_identically() {
    let mut first = running(book_config());
    let mut second = running(book_config());
    assert_eq!(first.replay(&samples()), second.replay(&samples()));
    assert_eq!(first.state(), second.state());
    assert_eq!(first.state().prev_oracle_price, 100_200_000);
    assert_eq!(first.state().last_update_time, 15_000);
    let mut third = running(oracle_config());
    let mut fourth = running(oracle_config());
    assert_eq!(third.replay(&samples()), fourth.replay(&samples()));
}

#[test]
fn replay_matches_stepping_by_hand() {
    let mut stepped = running(book_config());
    let mut actions: Vec<Action> = Vec::new();
    for sample in samples() {
        stepped.process_cycle();
        let action = stepped.handle_oracle_update(sample.now, &sample.inputs);
        if matches!(action, Action::Submit(_)) {
            stepped.on_submission(sample.now, true);
        }
        actions.push(action);
    }
    let mut replayed = running(book_config());
    let outcomes = replayed.replay(&samples());
    assert_eq!(replayed.state(), stepped.state());
    for (outcome, action) in outcomes.iter().zip(actions.iter()) {
        match outcome {
            CycleOutcome::Quote(intent) => assert_eq!(*action, Action::Submit(*intent)),
            CycleOutcome::Rejected => assert_eq!(*action, Action::Sleep),
            _ => assert_eq!(*action, Action::Cooldown),
        }
    }
}
