use trading_engine::current_market_state::{CurrentMarketState, MarketStateSettings};
use trading_engine::enums::{AlgoTypes, TimeFrame, TradeType};
use trading_engine::hammer_pattern::{HammerCandle, HammerPatternUtil, HammerThresholds};
use trading_engine::raw_stock::RawStock;
use trading_engine::shooting_star_pattern::{calculate_shooting_star_candle, tick_receiver};
use trading_engine::trade_signal_keeper::{TradeSignal, TradeSignalsKeeper};

const CANDLE_TIME: &str = "2022-10-18 09:30:00+05:30";
const LATER: &str = "2022-10-18 09:35:00+05:30";

fn candle(open: i64, high: i64, low: i64, close: i64) -> RawStock {
    RawStock::new(
        "ADANIGREEN".to_string(),
        CANDLE_TIME.to_string(),
        close,
        high,
        low,
        open,
        100,
        TimeFrame::FiveMinutes,
    )
}

fn thresholds() -> HammerThresholds {
    HammerThresholds {
        lower_wick_horizontal_support_tolerance: 2500,
        red_candles_count_threshold: 3,
        max_drop_threshold_value: 2000,
        max_drop_candle_count: 2,
        sl_margin_points: 100,
        target_margin_multiplier: 150,
    }
}

fn snapshot_of(candles: &Vec<RawStock>) -> CurrentMarketState {
    let mut history: Vec<RawStock> = Vec::new();
    let mut state: Option<CurrentMarketState> = None;
    for stock in candles.iter() {
        history.push(stock.clone());
        state = Some(CurrentMarketState::calculate_market_state_for_fiveminutes(
            stock,
            &history,
            "CMS_2022_10_18_ADANIGREEN_FiveMinutes".to_string(),
            state,
            MarketStateSettings::standard(),
            "state-1".to_string(),
            CANDLE_TIME.to_string(),
        ));
    }
    state.unwrap()
}

fn judge(stock: &RawStock, state: Option<&CurrentMarketState>) -> (Option<TradeSignal>, usize) {
    let mut ledger = HammerPatternUtil::new();
    let signal = ledger.calculate_and_add_ledger(
        stock,
        state,
        &thresholds(),
        LATER,
        "candle-1".to_string(),
        "signal-1".to_string(),
    );
    (signal, ledger.fetch_hammer_pattern_ledger().len())
}

#[test]
fn the_shape_of_a_hammer() {
    assert!(!HammerPatternUtil::calculate_standalone_hammer(10000, 10200, 8000, 9000));
    assert!(HammerPatternUtil::calculate_standalone_hammer(10000, 10200, 7000, 9000));
    assert!(HammerPatternUtil::calculate_standalone_hammer(10000, 10200, 7250, 9000));
    assert!(!HammerPatternUtil::calculate_standalone_hammer(10000, 10200, 7251, 9000));
    assert!(HammerPatternUtil::calculate_standalone_hammer(10000, 10100, 6000, 9900));
    assert!(HammerPatternUtil::calculate_standalone_hammer(10000, 10000, 9000, 10000));
    assert!(!HammerPatternUtil::calculate_standalone_hammer(10000, 10000, 10000, 10000));
    assert!(!HammerPatternUtil::calculate_standalone_hammer(10000, 11000, 9900, 10000));
}

#[test]
fn either_shape_makes_a_hammer() {
    assert!(HammerPatternUtil::calculate_standalone_hammer(1000, 1100, 695, 900));
    assert!(!HammerPatternUtil::calculate_standalone_hammer(1000, 1100, 700, 900));
    let stock = candle(1000, 1100, 695, 900);
    let state = snapshot_of(&vec![
        candle(1030, 1035, 1015, 1020),
        candle(1020, 1025, 995, 1000),
        stock.clone(),
    ]);
    assert_eq!(state.last_consecutive_red_candle_count, 3);
    assert!(HammerPatternUtil::calculate_hammer_candle(&stock, Some(&state), &thresholds()));
}

#[test]
fn a_small_body_needs_a_wick_of_more_than_two_point_one() {
    assert!(!HammerPatternUtil::calculate_standalone_hammer(1000, 1100, 790, 1000));
    assert!(HammerPatternUtil::calculate_standalone_hammer(1000, 1100, 789, 1000));
}

#[test]
fn body_to_range_in_hundredths_of_a_percent() {
    assert_eq!(HammerPatternUtil::calculate_body_size_ratio(10000, 10200, 8000, 9000), 4545);
    assert_eq!(HammerPatternUtil::calculate_body_size_ratio(100, 100, 100, 100), 0);
    assert_eq!(HammerPatternUtil::calculate_body_size_ratio(100, 200, 100, 200), 10000);
}

#[test]
fn a_low_just_below_a_support_level_stands_at_it() {
    let levels = vec![5000, 8000];
    assert!(HammerPatternUtil::calculate_around_support(&levels, 7980, 2500));
    assert!(!HammerPatternUtil::calculate_around_support(&levels, 7979, 2500));
    assert!(!HammerPatternUtil::calculate_around_support(&levels, 8000, 2500));
    assert!(!HammerPatternUtil::calculate_around_support(&levels, 8020, 2500));
    assert!(HammerPatternUtil::calculate_around_support(&levels, 4990, 2500));
    assert!(!HammerPatternUtil::calculate_around_support(&Vec::new(), 7980, 2500));
}

#[test]
fn a_low_under_a_level_within_five_percent_matches() {
    let stock = candle(100, 102, 80, 102);
    let mut state = snapshot_of(&vec![stock.clone()]);
    state.support = vec![81];
    let mut wide = thresholds();
    wide.lower_wick_horizontal_support_tolerance = 50000;
    assert!(HammerPatternUtil::calculate_hammer_candle(&stock, Some(&state), &wide));
    state.support = vec![79];
    assert!(!HammerPatternUtil::calculate_hammer_candle(&stock, Some(&state), &wide));
    state.support = vec![85];
    assert!(!HammerPatternUtil::calculate_hammer_candle(&stock, Some(&state), &wide));
}

#[test]
fn without_a_snapshot_there_is_no_signal() {
    let stock = candle(10000, 10200, 7000, 9000);
    let (signal, ledger_len) = judge(&stock, None);
    assert!(signal.is_none());
    assert_eq!(ledger_len, 0);
}

#[test]
fn a_hammer_without_context_gives_no_signal() {
    let stock = candle(10000, 10200, 8000, 9000);
    let state = snapshot_of(&vec![stock.clone()]);
    let (signal, ledger_len) = judge(&stock, Some(&state));
    assert!(signal.is_none());
    assert_eq!(ledger_len, 0);
    let hammer = candle(10000, 10200, 7000, 9000);
    let alone = snapshot_of(&vec![hammer.clone()]);
    assert_eq!(alone.last_consecutive_red_candle_count, 1);
    let (no_signal, none_added) = judge(&hammer, Some(&alone));
    assert!(no_signal.is_none());
    assert_eq!(none_added, 0);
}

#[test]
fn a_hammer_after_three_red_candles_gives_a_long_signal() {
    let stock = candle(10000, 10200, 7000, 9000);
    let state = snapshot_of(&vec![
        candle(10300, 10350, 10150, 10200),
        candle(10200, 10250, 9950, 10000),
        stock.clone(),
    ]);
    assert_eq!(state.last_consecutive_red_candle_count, 3);
    let (signal, ledger_len) = judge(&stock, Some(&state));
    assert_eq!(ledger_len, 1);
    let signal = signal.unwrap();
    assert_eq!(signal.trade_position_type, TradeType::Long);
    assert_eq!(signal.trade_algo_type, AlgoTypes::HammerPatternAlgo);
    assert_eq!(signal.entry_price, 10000 - 100);
    assert_eq!(signal.trade_sl, 9900 - (2000 + 100));
    assert_eq!(signal.trade_target, 9900 + 3150);
    assert_eq!(signal.qty, 10);
    assert_eq!(signal.total_price, 99000);
    assert_eq!(signal.raw_stock, stock);
    assert_eq!(signal.created_at, LATER);
    assert_eq!(signal.id, "signal-1");
    assert_eq!(signal.algo_id, "candle-1");
}

#[test]
fn the_weaker_shape_needs_a_drop_not_only_red_candles() {
    let stock = candle(10000, 10200, 8000, 9000);
    let red_only = snapshot_of(&vec![
        candle(10300, 10350, 10150, 10200),
        candle(10200, 10250, 9950, 10000),
        stock.clone(),
    ]);
    assert_eq!(red_only.last_consecutive_red_candle_count, 3);
    let (none, not_added) = judge(&stock, Some(&red_only));
    assert!(none.is_none());
    assert_eq!(not_added, 0);
    let after_drop = snapshot_of(&vec![
        candle(12500, 12600, 10150, 10200),
        candle(10200, 10250, 9950, 10000),
        stock.clone(),
    ]);
    let (signal, added) = judge(&stock, Some(&after_drop));
    assert_eq!(added, 1);
    let signal = signal.unwrap();
    assert_eq!(signal.trade_position_type, TradeType::Long);
    assert_eq!(signal.entry_price, 10000 - 100);
    assert_eq!(signal.trade_sl, 9900 - (1000 + 100));
    assert_eq!(signal.trade_target, 9900 + 1650);
}

#[test]
fn a_green_hammer_enters_below_its_close() {
    let stock = candle(9000, 10100, 7000, 10000);
    let state = snapshot_of(&vec![candle(12500, 12600, 9000, 9100), stock.clone()]);
    let mut ledger = HammerPatternUtil::new();
    let signal = ledger
        .calculate_and_add_ledger(
            &stock,
            Some(&state),
            &thresholds(),
            LATER,
            "c".to_string(),
            "s".to_string(),
        )
        .unwrap();
    assert_eq!(signal.entry_price, 9900);
    assert_eq!(signal.trade_sl, 9900 - (2000 + 100));
    assert_eq!(signal.trade_target, 9900 + 3000);
    let kept = ledger.fetch_hammer_pattern_ledger();
    assert_eq!(kept.len(), 1);
    assert!(kept[0].is_green_candle);
    assert!(kept[0].is_hammer);
    assert_eq!(kept[0].body_size_ratio, 3225);
    assert_eq!(kept[0].id, "c");
    assert_eq!(kept[0].created_at, LATER);
}

#[test]
fn a_hammer_on_support_gives_a_signal() {
    let stock = candle(10000, 10200, 7000, 9000);
    let mut state = snapshot_of(&vec![stock.clone()]);
    state.support = vec![7010];
    let (signal, added) = judge(&stock, Some(&state));
    assert!(signal.is_some());
    assert_eq!(added, 1);
    state.support = vec![6990];
    let (under, not_under) = judge(&stock, Some(&state));
    assert!(under.is_none());
    assert_eq!(not_under, 0);
    state.support = vec![7100];
    let (none, not_added) = judge(&stock, Some(&state));
    assert!(none.is_none());
    assert_eq!(not_added, 0);
}

#[test]
fn a_signal_needs_a_look_after_the_candle() {
    let stock = candle(10000, 10200, 7000, 9000);
    let state = snapshot_of(&vec![
        candle(10300, 10350, 10150, 10200),
        candle(10200, 10250, 9950, 10000),
        stock.clone(),
    ]);
    let mut ledger = HammerPatternUtil::new();
    let at_once = ledger.calculate_and_add_ledger(
        &stock,
        Some(&state),
        &thresholds(),
        CANDLE_TIME,
        "c1".to_string(),
        "s1".to_string(),
    );
    assert!(at_once.is_none());
    assert_eq!(ledger.fetch_hammer_pattern_ledger().len(), 1);
    let before = ledger.calculate_and_add_ledger(
        &stock,
        Some(&state),
        &thresholds(),
        "2022-10-18 09:00:00+05:30",
        "c2".to_string(),
        "s2".to_string(),
    );
    assert!(before.is_none());
    assert_eq!(ledger.fetch_hammer_pattern_ledger().len(), 2);
}

#[test]
fn a_candle_without_a_time_stamp_is_skipped() {
    let mut stock = candle(10000, 10200, 7000, 9000);
    let state = snapshot_of(&vec![
        candle(10300, 10350, 10150, 10200),
        candle(10200, 10250, 9950, 10000),
        stock.clone(),
    ]);
    stock.date = "not a date".to_string();
    let (signal, added) = judge(&stock, Some(&state));
    assert!(signal.is_none());
    assert_eq!(added, 0);
}

#[test]
fn an_entry_at_or_below_zero_gives_no_signal() {
    let stock = candle(100, 102, 10, 90);
    let state = snapshot_of(&vec![
        candle(10300, 10350, 10150, 10200),
        candle(10200, 10250, 9950, 10000),
        stock.clone(),
    ]);
    let (signal, added) = judge(&stock, Some(&state));
    assert!(signal.is_none());
    assert_eq!(added, 1);
}

#[test]
fn prices_that_cannot_be_held_give_no_signal() {
    let stock = candle(i64::MAX - 10, i64::MAX, i64::MIN, i64::MAX - 20);
    let state = snapshot_of(&vec![
        candle(10300, 10350, 10150, 10200),
        candle(10200, 10250, 9950, 10000),
        stock.clone(),
    ]);
    let (signal, added) = judge(&stock, Some(&state));
    assert!(signal.is_none());
    assert_eq!(added, 1);
}

#[test]
fn detection_gives_the_same_answer_to_the_same_question() {
    let stock = candle(10000, 10200, 7000, 9000);
    let state = snapshot_of(&vec![
        candle(10300, 10350, 10150, 10200),
        candle(10200, 10250, 9950, 10000),
        stock.clone(),
    ]);
    let (first, _) = judge(&stock, Some(&state));
    let (second, _) = judge(&stock, Some(&state));
    assert_eq!(first, second);
    assert_eq!(
        HammerPatternUtil::calculate_hammer_candle(&stock, Some(&state), &thresholds()),
        HammerPatternUtil::calculate_hammer_candle(&stock, Some(&state), &thresholds())
    );
}

#[test]
fn evaluate_takes_the_two_moments_as_numbers() {
    let stock = candle(10000, 10200, 7000, 9000);
    let state = snapshot_of(&vec![
        candle(10300, 10350, 10150, 10200),
        candle(10200, 10250, 9950, 10000),
        stock.clone(),
    ]);
    let mut ledger = HammerPatternUtil::new();
    let late = ledger.evaluate(
        &stock,
        Some(&state),
        &thresholds(),
        100,
        101,
        LATER,
        "c".to_string(),
        "s".to_string(),
    );
    assert!(late.is_some());
    let same = ledger.evaluate(
        &stock,
        Some(&state),
        &thresholds(),
        100,
        100,
        LATER,
        "c".to_string(),
        "s".to_string(),
    );
    assert!(same.is_none());
}

#[test]
fn pattern_candles_can_be_corrected() {
    let mut kept = HammerCandle::new(
        "S".to_string(),
        CANDLE_TIME.to_string(),
        1,
        2,
        0,
        1,
        5,
        TimeFrame::FiveMinutes,
        false,
        false,
        0,
        LATER.to_string(),
        "id".to_string(),
    );
    kept.update_hammer(true);
    kept.update_body_size_ratio(2500);
    kept.update_is_green_candle(true);
    assert!(kept.is_hammer);
    assert!(kept.is_green_candle);
    assert_eq!(kept.body_size_ratio, 2500);
    assert_eq!(kept.open, 1);
}

#[test]
fn a_signal_without_a_positive_entry_is_not_made() {
    let made = TradeSignal::create_trade_signal(
        "S".to_string(),
        CANDLE_TIME.to_string(),
        90,
        102,
        80,
        100,
        7,
        TimeFrame::FiveMinutes,
        TradeType::Long,
        AlgoTypes::HammerPatternAlgo,
        99,
        88,
        115,
        "algo".to_string(),
        LATER.to_string(),
        "id".to_string(),
    )
    .unwrap();
    assert_eq!(made.total_price, 990);
    assert_eq!(made.qty, 10);
    assert_eq!(made.get_raw_stock().volume, 7);
    assert_eq!(*made.get_trade_algo_type(), AlgoTypes::HammerPatternAlgo);
    assert_eq!(made.get_created_at(), LATER);
    let none = TradeSignal::create_trade_signal(
        "S".to_string(),
        CANDLE_TIME.to_string(),
        90,
        102,
        80,
        100,
        7,
        TimeFrame::FiveMinutes,
        TradeType::Long,
        AlgoTypes::HammerPatternAlgo,
        0,
        88,
        115,
        "algo".to_string(),
        LATER.to_string(),
        "id".to_string(),
    );
    assert!(none.is_none());
    let mut keeper = TradeSignalsKeeper::new();
    keeper.add_trade_signal(&made);
    assert_eq!(keeper.get_trade_signals(), &vec![made]);
}

#[test]
fn the_shape_of_a_shooting_star() {
    assert!(calculate_shooting_star_candle(9000, 12000, 8800, 10000));
    assert!(!calculate_shooting_star_candle(10000, 10200, 7000, 9000));
    let star = candle(9000, 12000, 8800, 10000);
    let found = tick_receiver(&star, LATER.to_string()).unwrap();
    assert!(found.is_shooting_star);
    assert!(found.is_green_candle);
    assert_eq!(found.body_size_ratio, 3125);
    assert_eq!(found.identified_at, LATER);
    assert!(tick_receiver(&candle(10000, 10200, 7000, 9000), LATER.to_string()).is_none());
}
