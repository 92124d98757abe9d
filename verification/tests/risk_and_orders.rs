use trading_engine::algo_backtester::AlgoBacktester;
use trading_engine::algo_configurator::{
    AlgoConfigurationMetadata, AlgoConfigurator, HammerPatternAlgoConfiguration,
    ShootingStarPatternAlgoConfiguration,
};
use trading_engine::algo_dispatcher::{ingest_raw_stock_data, is_algo_listed};
use trading_engine::current_market_state::{CurrentMarketState, MarketStateSettings};
use trading_engine::enums::{AlgoTypes, TimeFrame, TradeType};
use trading_engine::hammer_pattern::{HammerPatternUtil, HammerThresholds};
use trading_engine::monitor_trade::{
    advance_order, book_closed_order, check_for_exit_opportunity, settle_orders, OrderStep,
    THRESHOLD_TRADE_END_TIME,
};
use trading_engine::order_dispatcher::{DispatchOutcome, Order, OrderManager, OrderPhase};
use trading_engine::pnl_state::{
    is_order_tradeable, CurrentPnLState, PnLConfiguration, TradeDecision,
};
use trading_engine::raw_stock::RawStock;
use trading_engine::trade_signal_keeper::{TradeSignal, TradeSignalsKeeper};

const MORNING: &str = "2022-10-18 09:30:00+05:30";
const NOW: &str = "2022-10-18 09:35:00+05:30";

fn configuration() -> PnLConfiguration {
    PnLConfiguration::new(
        NOW.to_string(),
        NOW.to_string(),
        MORNING.to_string(),
        "2022-10-18 15:30:00+05:30".to_string(),
        5,
        vec!["ADANIGREEN".to_string()],
        vec![AlgoTypes::HammerPatternAlgo],
        2,
        100000,
        10,
        4,
        -50000,
        10_000,
        true,
        "user-1".to_string(),
        TimeFrame::FiveMinutes,
        true,
        "cfg-1".to_string(),
    )
}

fn risk_state(user: &str, max_capital: u128, used: u128) -> CurrentPnLState {
    let mut settings = configuration();
    settings.max_trade_capital = max_capital;
    settings.user_id = user.to_string();
    let mut state = CurrentPnLState::new_static_current_pnl_state(
        &settings,
        false,
        MORNING,
        "2022-10-18 15:30:00+05:30",
        "state-1".to_string(),
        NOW,
    )
    .unwrap();
    state.current_used_trade_capital = used;
    state
}

fn candle(symbol: &str, date: &str, open: i64, high: i64, low: i64, close: i64) -> RawStock {
    RawStock::new(
        symbol.to_string(),
        date.to_string(),
        close,
        high,
        low,
        open,
        100,
        TimeFrame::FiveMinutes,
    )
}

fn signal(entry: i64, stop: i64, target: i64) -> TradeSignal {
    TradeSignal::create_trade_signal(
        "ADANIGREEN".to_string(),
        MORNING.to_string(),
        90,
        102,
        80,
        100,
        100,
        TimeFrame::FiveMinutes,
        TradeType::Long,
        AlgoTypes::HammerPatternAlgo,
        entry,
        stop,
        target,
        "candle-1".to_string(),
        NOW.to_string(),
        "signal-1".to_string(),
    )
    .unwrap()
}

fn order(position: TradeType, phase: OrderPhase, entry: i64, stop: i64, target: i64) -> Order {
    Order::new(
        "ADANIGREEN".to_string(),
        position,
        AlgoTypes::HammerPatternAlgo,
        "user-1".to_string(),
        entry,
        0,
        stop,
        target,
        phase,
        10,
        (entry as u128) * 10,
        NOW.to_string(),
        String::new(),
        String::new(),
        0,
        "ORDER_ADANIGREEN_HammerPatternAlgo_user-1".to_string(),
        0,
        false,
    )
}

#[test]
fn a_fresh_state_has_nothing_used_and_is_eligible() {
    let state = risk_state("user-1", 10_000, 0);
    assert!(state.is_eligible_for_trading);
    assert_eq!(state.not_eligible_trading_reason, "");
    assert_eq!(state.current_used_trade_capital, 0);
    assert_eq!(state.current_pnl, 0);
    assert_eq!(state.current_trade_count, 0);
    assert_eq!(state.current_sl_hit_count, 0);
    assert_eq!(state.current_target_hit_count, 0);
    assert_eq!(state.max_sl_hit_count, 2);
    assert_eq!(state.max_target_hit_count, 4);
    assert_eq!(state.max_sl_capacity, -50000);
    assert_eq!(state.max_trade_capital, 10_000);
    assert_eq!(state.symbol, "ADANIGREEN");
    assert_eq!(state.user_id, "user-1");
    assert_eq!(state.pnl_configuration_id, "cfg-1");
    assert_eq!(state.current_pnl_state_cache_key, "CPnL_2022_10_18_ADANIGREEN_cfg-1");
    assert_eq!(state.trading_algo_types, vec![AlgoTypes::HammerPatternAlgo]);
}

#[test]
fn a_day_that_has_a_state_gets_no_second_one() {
    let settings = configuration();
    let second = CurrentPnLState::new_static_current_pnl_state(
        &settings,
        true,
        MORNING,
        MORNING,
        "id".to_string(),
        NOW,
    );
    assert!(second.is_none());
    let undated = CurrentPnLState::new_static_current_pnl_state(
        &settings,
        false,
        "today",
        MORNING,
        "id".to_string(),
        NOW,
    );
    assert!(undated.is_none());
    let mut bare = configuration();
    bare.symbols = Vec::new();
    let symbolless = CurrentPnLState::new_static_current_pnl_state(
        &bare,
        false,
        MORNING,
        MORNING,
        "id".to_string(),
        NOW,
    );
    assert!(symbolless.is_none());
    assert!(CurrentPnLState::from_configuration(
        &bare,
        MORNING,
        MORNING,
        "k".to_string(),
        "id".to_string(),
        NOW
    )
    .is_none());
}

#[test]
fn both_keys_of_a_risk_state() {
    let keys = CurrentPnLState::get_current_pnl_cache_key(MORNING, "ADANIGREEN", "cfg-1").unwrap();
    assert_eq!(keys.0, "CPnL_2022_10_18_ADANIGREEN_cfg-1");
    assert_eq!(keys.1, "CPnL_AlgoTypes__2022_10_18_cfg-1");
    assert!(CurrentPnLState::get_current_pnl_cache_key("18/10/2022", "A", "c").is_none());
}

#[test]
fn an_order_over_the_ceiling_is_rejected_and_ends_eligibility() {
    let mut state = risk_state("user-1", 10_000, 8_000);
    let decision = state.is_order_tradeable(5_000);
    assert_eq!(
        decision,
        TradeDecision::Rejected("max trade capital limit reached".to_string())
    );
    assert!(!state.is_eligible_for_trading);
    assert_eq!(state.not_eligible_trading_reason, "max trade capital limit reached");
    assert_eq!(state.current_used_trade_capital, 8_000);
    assert_eq!(state.current_trade_count, 0);
    let later = state.is_order_tradeable(1);
    assert_eq!(
        later,
        TradeDecision::Rejected("max trade capital limit reached".to_string())
    );
    assert_eq!(state.current_used_trade_capital, 8_000);
}

#[test]
fn an_order_under_the_ceiling_binds_its_notional() {
    let mut state = risk_state("user-1", 10_000, 8_000);
    assert_eq!(state.is_order_tradeable(2_000), TradeDecision::Tradeable);
    assert_eq!(state.current_used_trade_capital, 10_000);
    assert_eq!(state.current_trade_count, 1);
    assert!(state.is_eligible_for_trading);
    assert_eq!(state.is_order_tradeable(0), TradeDecision::Tradeable);
    assert_eq!(state.current_trade_count, 2);
}

#[test]
fn used_capital_never_shrinks_and_stays_under_the_ceiling() {
    let mut state = risk_state("user-1", 10_000, 0);
    let mut before: u128 = 0;
    for notional in [3_000u128, 0, 4_000, 2_999, 2, 1, 5_000] {
        state.is_order_tradeable(notional);
        assert!(state.current_used_trade_capital >= before);
        assert!(state.current_used_trade_capital <= state.max_trade_capital);
        before = state.current_used_trade_capital;
    }
    assert_eq!(state.current_used_trade_capital, 9_999);
    assert!(!state.is_eligible_for_trading);
    state.apply_closure(true, 500, NOW.to_string());
    assert_eq!(state.current_used_trade_capital, 9_999);
    assert!(!state.is_eligible_for_trading);
}

#[test]
fn a_huge_notional_is_rejected_without_overflow() {
    let mut state = risk_state("user-1", u128::MAX, u128::MAX - 1);
    assert!(matches!(state.is_order_tradeable(2), TradeDecision::Rejected(_)));
    let mut other = risk_state("user-1", u128::MAX, u128::MAX - 1);
    assert_eq!(other.is_order_tradeable(1), TradeDecision::Tradeable);
    assert_eq!(other.current_used_trade_capital, u128::MAX);
}

#[test]
fn without_a_risk_state_nothing_is_tradeable() {
    let mut missing: Option<CurrentPnLState> = None;
    assert_eq!(
        is_order_tradeable(&mut missing, 1),
        TradeDecision::Rejected("current PnL state not found".to_string())
    );
    assert!(missing.is_none());
    let mut present = Some(risk_state("user-1", 10_000, 0));
    assert_eq!(is_order_tradeable(&mut present, 1), TradeDecision::Tradeable);
    assert_eq!(present.unwrap().current_used_trade_capital, 1);
}

#[test]
fn closings_count_hits_and_the_first_limit_wins() {
    let mut state = risk_state("user-1", 10_000, 0);
    state.apply_closure(false, -50, "t1".to_string());
    assert_eq!(state.current_sl_hit_count, 1);
    assert_eq!(state.current_target_hit_count, 0);
    assert_eq!(state.current_pnl, -50);
    assert!(state.is_eligible_for_trading);
    assert_eq!(state.updated_at, "t1");
    state.apply_closure(false, -60000, "t2".to_string());
    assert_eq!(state.current_sl_hit_count, 2);
    assert_eq!(state.current_pnl, -60050);
    assert!(!state.is_eligible_for_trading);
    assert_eq!(state.not_eligible_trading_reason, "Max SL hit count reached");
}

#[test]
fn target_hits_and_the_floor_end_eligibility_too() {
    let mut state = risk_state("user-1", 10_000, 0);
    state.max_target_hit_count = 1;
    state.apply_closure(true, 10, NOW.to_string());
    assert_eq!(state.current_target_hit_count, 1);
    assert!(!state.is_eligible_for_trading);
    assert_eq!(state.not_eligible_trading_reason, "Max target hit count reached");
    let mut floor = risk_state("user-1", 10_000, 0);
    floor.apply_closure(false, -50000, NOW.to_string());
    assert_eq!(floor.current_sl_hit_count, 1);
    assert!(!floor.is_eligible_for_trading);
    assert_eq!(floor.not_eligible_trading_reason, "Max SL capacity reached");
    floor.apply_closure(true, 100000, NOW.to_string());
    assert_eq!(floor.current_pnl, 50000);
    assert!(!floor.is_eligible_for_trading);
    assert_eq!(floor.not_eligible_trading_reason, "Max SL capacity reached");
}

#[test]
fn realized_profit_stops_at_the_ends() {
    let mut state = risk_state("user-1", 10_000, 0);
    state.max_target_hit_count = u32::MAX;
    state.current_pnl = i128::MAX - 1;
    state.current_target_hit_count = u32::MAX - 1;
    state.apply_closure(true, 5, NOW.to_string());
    assert_eq!(state.current_pnl, i128::MAX);
    assert_eq!(state.current_target_hit_count, u32::MAX);
    state.apply_closure(true, 5, NOW.to_string());
    assert_eq!(state.current_target_hit_count, u32::MAX);
}

#[test]
fn a_long_loss_is_booked_as_a_stop_loss_hit() {
    let mut executed = order(TradeType::Long, OrderPhase::Executed, 100, 90, 120);
    assert!(executed.exit_trade(95, NOW.to_string()));
    assert_eq!(executed.closing_profit, -50);
    assert!(!executed.is_profitable_trade);
    assert_eq!(executed.phase, OrderPhase::Closed);
    assert!(!executed.is_trade_open());
    assert!(executed.is_trade_executed());
    assert_eq!(executed.exit_price, 95);
    assert_eq!(executed.trade_closed_at, NOW);
    let mut state = risk_state("user-1", 10_000, 1_000);
    state.update_current_pnl_state_via_order(&executed, NOW.to_string());
    assert_eq!(state.current_sl_hit_count, 1);
    assert_eq!(state.current_target_hit_count, 0);
    assert_eq!(state.current_pnl, -50);
    assert_eq!(state.current_used_trade_capital, 1_000);
}

#[test]
fn an_open_order_is_not_booked() {
    let open = order(TradeType::Long, OrderPhase::Executed, 100, 90, 120);
    let mut state = risk_state("user-1", 10_000, 1_000);
    let before = state.clone();
    state.update_current_pnl_state_via_order(&open, "later".to_string());
    assert_eq!(state, before);
}

#[test]
fn profit_of_long_and_short() {
    let long = order(TradeType::Long, OrderPhase::Executed, 100, 90, 120);
    assert_eq!(OrderManager::calculate_profit(&long, 120), (200, true));
    assert_eq!(OrderManager::calculate_profit(&long, 100), (0, false));
    let short = order(TradeType::Short, OrderPhase::Executed, 100, 110, 80);
    assert_eq!(OrderManager::calculate_profit(&short, 80), (200, true));
    assert_eq!(OrderManager::calculate_profit(&short, 105), (-50, false));
    let mut wide = order(TradeType::Long, OrderPhase::Executed, i64::MIN, 0, 0);
    wide.qty = u32::MAX;
    assert_eq!(
        OrderManager::calculate_profit(&wide, i64::MAX),
        ((u64::MAX as i128) * (u32::MAX as i128), true)
    );
}

#[test]
fn an_order_only_moves_forward() {
    let mut placed = order(TradeType::Long, OrderPhase::Placed, 100, 90, 120);
    assert!(placed.is_trade_open());
    assert!(!placed.is_trade_executed());
    assert!(!placed.exit_trade(95, NOW.to_string()));
    assert_eq!(placed.phase, OrderPhase::Placed);
    assert!(placed.mark_executed(101, "t1".to_string()));
    assert_eq!(placed.phase, OrderPhase::Executed);
    assert_eq!(placed.entry_price, 101);
    assert_eq!(placed.order_executed_at, "t1");
    assert!(!placed.mark_executed(105, "t2".to_string()));
    assert_eq!(placed.entry_price, 101);
    assert!(placed.exit_trade(120, "t3".to_string()));
    let closed = placed.clone();
    assert!(!placed.exit_trade(1, "t4".to_string()));
    assert!(!placed.mark_executed(1, "t4".to_string()));
    assert_eq!(placed, closed);
    assert!(OrderManager::exit_and_update_order(&closed, 5, NOW.to_string()).is_none());
    let executed = order(TradeType::Long, OrderPhase::Executed, 100, 90, 120);
    let copy = OrderManager::exit_and_update_order(&executed, 130, NOW.to_string()).unwrap();
    assert_eq!(copy.closing_profit, 300);
    assert!(copy.is_profitable_trade);
    assert_eq!(executed.phase, OrderPhase::Executed);
}

#[test]
fn a_signal_becomes_one_placed_order_per_user() {
    let mut manager = OrderManager::new();
    let mut state = risk_state("user-1", 10_000, 0);
    let wish = signal(99, 88, 115);
    let first = manager.check_and_dispatch_order(&wish, "user-1", &mut state, false);
    assert_eq!(first, DispatchOutcome::Placed(0));
    assert_eq!(manager.get_orders().len(), 1);
    let placed = &manager.get_orders()[0];
    assert_eq!(placed.phase, OrderPhase::Placed);
    assert_eq!(placed.cache_key, "ORDER_ADANIGREEN_HammerPatternAlgo_user-1");
    assert_eq!(placed.entry_price, 99);
    assert_eq!(placed.trade_sl, 88);
    assert_eq!(placed.trade_target, 115);
    assert_eq!(placed.total_price, 990);
    assert_eq!(placed.qty, 10);
    assert_eq!(placed.user_id, "user-1");
    assert_eq!(placed.trade_taken_at, NOW);
    assert_eq!(state.current_used_trade_capital, 990);
    assert_eq!(state.current_trade_count, 1);
    let second = manager.check_and_dispatch_order(&wish, "user-1", &mut state, false);
    assert_eq!(second, DispatchOutcome::Duplicate);
    assert_eq!(manager.get_orders().len(), 1);
    assert_eq!(state.current_used_trade_capital, 990);
    assert!(manager.check_if_order_exists("ORDER_ADANIGREEN_HammerPatternAlgo_user-1"));
    assert!(!manager.check_if_order_exists("ORDER_ADANIGREEN_HammerPatternAlgo_user-2"));
}

#[test]
fn every_way_a_dispatch_can_end() {
    let wish = signal(99, 88, 115);
    let mut manager = OrderManager::new();
    let mut state = risk_state("user-1", 10_000, 0);
    assert_eq!(
        manager.check_and_dispatch_order(&wish, "user-1", &mut state, true),
        DispatchOutcome::Duplicate
    );
    let mut other_symbol = risk_state("user-1", 10_000, 0);
    other_symbol.symbol = "NIFTY".to_string();
    assert_eq!(
        manager.check_and_dispatch_order(&wish, "user-1", &mut other_symbol, false),
        DispatchOutcome::NotEligible
    );
    let mut other_algo = risk_state("user-1", 10_000, 0);
    other_algo.trading_algo_types = vec![AlgoTypes::ShootingStarPatternAlgo];
    assert_eq!(
        manager.check_and_dispatch_order(&wish, "user-1", &mut other_algo, false),
        DispatchOutcome::NotEligible
    );
    let mut poor = risk_state("user-1", 989, 0);
    assert_eq!(
        manager.check_and_dispatch_order(&wish, "user-1", &mut poor, false),
        DispatchOutcome::Rejected("max trade capital limit reached".to_string())
    );
    assert!(!poor.is_eligible_for_trading);
    assert!(manager.get_orders().is_empty());
    let mut full = OrderManager::new();
    full.next_order_id = u64::MAX;
    assert_eq!(
        full.check_and_dispatch_order(&wish, "user-1", &mut state, false),
        DispatchOutcome::Exhausted
    );
    assert_eq!(state.current_used_trade_capital, 0);
    assert_eq!(
        manager.check_and_dispatch_order(&wish, "user-1", &mut state, false),
        DispatchOutcome::Placed(0)
    );
}

#[test]
fn a_signal_is_dispatched_to_every_user_in_turn() {
    let mut manager = OrderManager::new();
    let mut states = vec![
        risk_state("user-1", 10_000, 0),
        risk_state("user-2", 500, 0),
        risk_state("user-1", 10_000, 0),
        risk_state("user-3", 990, 0),
    ];
    let outcomes = manager.dispatch(&signal(99, 88, 115), &mut states);
    assert_eq!(
        outcomes,
        vec![
            DispatchOutcome::Placed(0),
            DispatchOutcome::Rejected("max trade capital limit reached".to_string()),
            DispatchOutcome::Duplicate,
            DispatchOutcome::Placed(1),
        ]
    );
    assert_eq!(manager.get_orders().len(), 2);
    assert_eq!(manager.get_orders()[1].user_id, "user-3");
    assert_eq!(manager.get_orders()[1].order_id, 1);
    assert_eq!(manager.next_order_id, 2);
    assert_eq!(states[0].current_used_trade_capital, 990);
    assert_eq!(states[2].current_used_trade_capital, 0);
    assert_eq!(states[3].current_used_trade_capital, 990);
    assert!(!states[1].is_eligible_for_trading);
    let keys: Vec<String> = manager.get_orders().iter().map(|o| o.cache_key.clone()).collect();
    assert_ne!(keys[0], keys[1]);
}

#[test]
fn a_candle_fills_and_closes_orders() {
    let now = NOW.to_string();
    let mut placed = order(TradeType::Long, OrderPhase::Placed, 100, 90, 120);
    let low_open = candle("ADANIGREEN", MORNING, 99, 130, 80, 125);
    assert_eq!(advance_order(&mut placed, &low_open, Some(34200), 54900, &now), OrderStep::Unchanged);
    let reached = candle("ADANIGREEN", MORNING, 100, 130, 80, 125);
    assert_eq!(advance_order(&mut placed, &reached, Some(34200), 54900, &now), OrderStep::Executed);
    assert_eq!(placed.phase, OrderPhase::Executed);
    assert_eq!(placed.entry_price, 100);
    assert_eq!(placed.order_executed_at, NOW);
    let calm = candle("ADANIGREEN", MORNING, 100, 119, 91, 119);
    assert_eq!(advance_order(&mut placed, &calm, Some(54900), 54900, &now), OrderStep::Unchanged);
    let mut at_target = placed.clone();
    let target = candle("ADANIGREEN", MORNING, 100, 125, 91, 120);
    assert_eq!(advance_order(&mut at_target, &target, Some(34200), 54900, &now), OrderStep::Closed);
    assert_eq!(at_target.closing_profit, 200);
    assert!(at_target.is_profitable_trade);
    let mut at_stop = placed.clone();
    let stop = candle("ADANIGREEN", MORNING, 100, 125, 85, 90);
    assert_eq!(advance_order(&mut at_stop, &stop, None, 54900, &now), OrderStep::Closed);
    assert_eq!(at_stop.closing_profit, -100);
    let mut late = placed.clone();
    assert_eq!(advance_order(&mut late, &calm, Some(54901), 54900, &now), OrderStep::Closed);
    assert_eq!(late.exit_price, 119);
    assert_eq!(late.closing_profit, 190);
    let mut elsewhere = placed.clone();
    let other = candle("NIFTY", MORNING, 100, 125, 85, 90);
    assert_eq!(advance_order(&mut elsewhere, &other, Some(54901), 54900, &now), OrderStep::Unchanged);
    assert_eq!(elsewhere, placed);
    assert_eq!(advance_order(&mut at_stop, &stop, Some(54901), 54900, &now), OrderStep::Unchanged);
}

#[test]
fn a_short_order_is_never_filled_but_closes_the_other_way() {
    let now = NOW.to_string();
    let mut placed = order(TradeType::Short, OrderPhase::Placed, 100, 110, 80);
    let any = candle("ADANIGREEN", MORNING, 200, 200, 50, 60);
    assert_eq!(advance_order(&mut placed, &any, Some(1), 54900, &now), OrderStep::Unchanged);
    let mut executed = order(TradeType::Short, OrderPhase::Executed, 100, 110, 80);
    let between = candle("ADANIGREEN", MORNING, 100, 109, 81, 95);
    assert_eq!(advance_order(&mut executed, &between, Some(1), 54900, &now), OrderStep::Unchanged);
    let down = candle("ADANIGREEN", MORNING, 100, 109, 79, 80);
    assert_eq!(advance_order(&mut executed, &down, Some(1), 54900, &now), OrderStep::Closed);
    assert_eq!(executed.closing_profit, 200);
}

#[test]
fn closed_orders_are_booked_and_leave_the_ledger() {
    let mut manager = OrderManager::new();
    let mut states = vec![risk_state("user-2", 10_000, 0), risk_state("user-1", 10_000, 0)];
    manager.dispatch(&signal(100, 90, 120), &mut states);
    assert_eq!(manager.get_orders().len(), 2);
    let now = NOW.to_string();
    let fill = candle("ADANIGREEN", MORNING, 100, 119, 91, 110);
    let none = settle_orders(&mut manager, &fill, Some(34200), 54900, &mut states, &now);
    assert!(none.is_empty());
    assert_eq!(manager.get_orders().len(), 2);
    assert_eq!(manager.get_orders()[0].phase, OrderPhase::Executed);
    assert_eq!(manager.get_orders()[1].phase, OrderPhase::Executed);
    let above_stop = candle("ADANIGREEN", MORNING, 100, 119, 85, 95);
    let still = settle_orders(&mut manager, &above_stop, Some(34200), 54900, &mut states, &now);
    assert!(still.is_empty());
    assert_eq!(manager.get_orders().len(), 2);
    let stop = candle("ADANIGREEN", MORNING, 100, 119, 85, 95);
    let closed = settle_orders(&mut manager, &stop, Some(54901), 54900, &mut states, &now);
    assert!(manager.get_orders().is_empty());
    assert_eq!(closed.len(), 2);
    assert_eq!(closed[0].user_id, "user-2");
    assert_eq!(closed[0].closing_profit, -50);
    assert!(!closed[0].is_profitable_trade);
    assert_eq!(states[0].current_sl_hit_count, 1);
    assert_eq!(states[1].current_sl_hit_count, 1);
    assert_eq!(states[0].current_pnl, -50);
    assert_eq!(states[0].current_used_trade_capital, 1000);
    assert_eq!(manager.next_order_id, 2);
}

#[test]
fn the_day_ends_at_quarter_past_three() {
    assert_eq!(THRESHOLD_TRADE_END_TIME, 15 * 3600 + 15 * 60);
    let mut manager = OrderManager::new();
    let mut states = vec![risk_state("user-1", 10_000, 0)];
    manager.dispatch(&signal(100, 90, 120), &mut states);
    let now = NOW.to_string();
    let fill = candle("ADANIGREEN", "2022-10-18 15:15:00+05:30", 100, 119, 91, 110);
    assert!(check_for_exit_opportunity(&mut manager, &fill, &mut states, &now).is_empty());
    let calm = candle("ADANIGREEN", "2022-10-18 15:15:00+05:30", 100, 119, 91, 105);
    assert!(check_for_exit_opportunity(&mut manager, &calm, &mut states, &now).is_empty());
    let undated = candle("ADANIGREEN", "late", 100, 119, 91, 105);
    assert!(check_for_exit_opportunity(&mut manager, &undated, &mut states, &now).is_empty());
    let late = candle("ADANIGREEN", "2022-10-18 15:20:00+05:30", 100, 119, 91, 105);
    let closed = check_for_exit_opportunity(&mut manager, &late, &mut states, &now);
    assert_eq!(closed.len(), 1);
    assert_eq!(closed[0].exit_price, 105);
    assert_eq!(closed[0].closing_profit, 50);
    assert_eq!(states[0].current_target_hit_count, 1);
    assert!(manager.get_orders().is_empty());
}

#[test]
fn a_closed_order_is_booked_on_the_first_state_of_its_user() {
    let mut executed = order(TradeType::Long, OrderPhase::Executed, 100, 90, 120);
    executed.exit_trade(95, NOW.to_string());
    let mut states = vec![
        risk_state("user-2", 10_000, 0),
        risk_state("user-1", 10_000, 0),
        risk_state("user-1", 10_000, 0),
    ];
    assert_eq!(book_closed_order(&mut states, &executed, &NOW.to_string()), Some(1));
    assert_eq!(states[0].current_sl_hit_count, 0);
    assert_eq!(states[1].current_sl_hit_count, 1);
    assert_eq!(states[2].current_sl_hit_count, 0);
    let mut strangers = vec![risk_state("user-2", 10_000, 0)];
    assert_eq!(book_closed_order(&mut strangers, &executed, &NOW.to_string()), None);
    assert_eq!(strangers[0].current_sl_hit_count, 0);
}

#[test]
fn one_tick_detects_and_dispatches() {
    let stock = candle("ADANIGREEN", MORNING, 10000, 10200, 7000, 9000);
    let mut history: Vec<RawStock> = Vec::new();
    let mut snapshot: Option<CurrentMarketState> = None;
    for seen in [
        candle("ADANIGREEN", MORNING, 10300, 10350, 10150, 10200),
        candle("ADANIGREEN", MORNING, 10200, 10250, 9950, 10000),
        stock.clone(),
    ] {
        history.push(seen.clone());
        snapshot = Some(CurrentMarketState::calculate_market_state_for_fiveminutes(
            &seen,
            &history,
            "k".to_string(),
            snapshot,
            MarketStateSettings::standard(),
            "id".to_string(),
            MORNING.to_string(),
        ));
    }
    let snapshot = snapshot.unwrap();
    let limits = HammerThresholds {
        lower_wick_horizontal_support_tolerance: 2500,
        red_candles_count_threshold: 3,
        max_drop_threshold_value: 2000,
        max_drop_candle_count: 2,
        sl_margin_points: 100,
        target_margin_multiplier: 150,
    };
    let mut ledger = HammerPatternUtil::new();
    let mut keeper = TradeSignalsKeeper::new();
    let mut manager = OrderManager::new();
    let mut states = vec![risk_state("user-1", 200_000, 0)];
    let silent = ingest_raw_stock_data(
        &stock,
        &vec![AlgoTypes::ShootingStarPatternAlgo],
        &mut ledger,
        &mut keeper,
        &mut manager,
        Some(&snapshot),
        &limits,
        &mut states,
        NOW,
        "c".to_string(),
        "s".to_string(),
    );
    assert!(silent.0.is_none());
    assert!(silent.1.is_empty());
    assert!(ledger.fetch_hammer_pattern_ledger().is_empty());
    let found = ingest_raw_stock_data(
        &stock,
        &vec![AlgoTypes::ShootingStarPatternAlgo, AlgoTypes::HammerPatternAlgo],
        &mut ledger,
        &mut keeper,
        &mut manager,
        Some(&snapshot),
        &limits,
        &mut states,
        NOW,
        "c".to_string(),
        "s".to_string(),
    );
    assert_eq!(found.0.unwrap().entry_price, 9900);
    assert_eq!(found.1, vec![DispatchOutcome::Placed(0)]);
    assert_eq!(keeper.get_trade_signals().len(), 1);
    assert_eq!(manager.get_orders().len(), 1);
    assert_eq!(states[0].current_used_trade_capital, 99000);
    assert!(is_algo_listed(&vec![AlgoTypes::HammerPatternAlgo], AlgoTypes::HammerPatternAlgo));
    assert!(!is_algo_listed(&Vec::new(), AlgoTypes::HammerPatternAlgo));
}

#[test]
fn a_configurator_names_the_algorithm_of_its_metadata() {
    let hammer = AlgoConfigurator {
        algo_type: AlgoTypes::HammerPatternAlgo,
        algo_metadata: AlgoConfigurationMetadata::HammerPatternMetadata(
            HammerPatternAlgoConfiguration {},
        ),
    };
    assert_eq!(hammer.initiate_the_backtest(), AlgoTypes::HammerPatternAlgo);
    let star = AlgoConfigurator {
        algo_type: AlgoTypes::HammerPatternAlgo,
        algo_metadata: AlgoConfigurationMetadata::ShootingStarPatternMetadata(
            ShootingStarPatternAlgoConfiguration {},
        ),
    };
    assert_eq!(star.initiate_the_backtest(), AlgoTypes::ShootingStarPatternAlgo);
    assert_eq!(AlgoBacktester::new("cfg-1".to_string()).pnl_configuration_id, "cfg-1");
}
