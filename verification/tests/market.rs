use trading_engine::current_market_state::{CurrentMarketState, MarketStateSettings};
use trading_engine::enums::{MarketTrend, TimeFrame};
use trading_engine::previous_volatility_in_stocks::{previous_drop_in_stock, previous_peak_in_stocks};
use trading_engine::raw_stock::{divide_toward_zero, RawStock, RawStockLedger};
use trading_engine::support_resistance_fractol::find_support_resistance;

fn candle(open: i64, high: i64, low: i64, close: i64, volume: u32) -> RawStock {
    RawStock::new(
        "ADANIGREEN".to_string(),
        "2022-10-18 09:30:00+05:30".to_string(),
        close,
        high,
        low,
        open,
        volume,
        TimeFrame::FiveMinutes,
    )
}

fn replay(candles: &Vec<RawStock>) -> CurrentMarketState {
    let mut history: Vec<RawStock> = Vec::new();
    let mut state: Option<CurrentMarketState> = None;
    for stock in candles.iter() {
        history.push(stock.clone());
        state = Some(CurrentMarketState::calculate_market_state_for_fiveminutes(
            stock,
            &history,
            "CMS_2022_10_18_ADANIGREEN_FiveMinutes".to_string(),
            state,
            MarketStateSettings::standard(),
            "id-1".to_string(),
            "2022-10-18 09:30:00+05:30".to_string(),
        ));
    }
    state.unwrap()
}

#[test]
fn body_and_colour_of_a_candle() {
    assert_eq!(RawStock::candle_body_size(100, 90), 10);
    assert_eq!(RawStock::candle_body_size(90, 100), 10);
    assert_eq!(RawStock::candle_body_size(i64::MIN, i64::MAX), u64::MAX);
    assert!(RawStock::calculate_if_green_candle(90, 100));
    assert!(!RawStock::calculate_if_green_candle(100, 100));
    assert!(!RawStock::calculate_if_green_candle(100, 90));
}

#[test]
fn division_rounds_toward_zero() {
    assert_eq!(divide_toward_zero(7, 2), 3);
    assert_eq!(divide_toward_zero(-7, 2), -3);
    assert_eq!(divide_toward_zero(0, 5), 0);
    assert_eq!(divide_toward_zero(-1, 100), 0);
}

#[test]
fn the_ledger_keeps_candles_in_arrival_order() {
    let mut ledger = RawStockLedger::new();
    assert!(ledger.get_raw_stocks().is_empty());
    ledger.add_raw_stock(candle(1, 2, 0, 1, 5));
    ledger.add_raw_stock(candle(3, 4, 2, 3, 6));
    assert_eq!(ledger.get_raw_stocks().len(), 2);
    assert_eq!(ledger.get_raw_stocks()[1].open, 3);
}

#[test]
fn the_first_candle_seeds_the_snapshot() {
    let first = candle(10000, 10200, 8000, 9000, 500);
    let state = replay(&vec![first.clone()]);
    assert_eq!(state.current_candle_open, 10000);
    assert_eq!(state.current_candle_high, 10200);
    assert_eq!(state.current_candle_low, 8000);
    assert_eq!(state.current_candle_close, 9000);
    assert_eq!(state.current_candle_volume, 500);
    assert_eq!(state.previous_candle_volume, 0);
    assert_eq!(state.last_consecutive_green_candle_count, 0);
    assert_eq!(state.last_consecutive_red_candle_count, 1);
    assert_eq!(state.current_candle_market_trend, MarketTrend::Sideways);
    assert_eq!(state.previous_candle_market_trend, MarketTrend::Sideways);
    assert_eq!(state.current_sma, 0);
    assert_eq!(state.raw_stocks, vec![first]);
    assert!(state.support.is_empty());
    assert!(state.resistance.is_empty());
    assert_eq!(state.id, "id-1");
    assert_eq!(state.cache_key, "CMS_2022_10_18_ADANIGREEN_FiveMinutes");
}

#[test]
fn accumulated_volume_is_the_sum_of_the_candles() {
    let candles = vec![
        candle(100, 110, 95, 105, 1000),
        candle(105, 120, 100, 102, 250),
        candle(102, 103, 90, 91, 4_000_000_000),
        candle(91, 99, 91, 99, 4_000_000_000),
    ];
    let state = replay(&candles);
    assert_eq!(state.current_candle_volume, 8_000_001_250u128);
    assert_eq!(state.previous_candle_volume, 4_000_001_250u128);
    let again = replay(&candles);
    assert_eq!(again.current_candle_volume, state.current_candle_volume);
    assert_eq!(again.raw_stocks, state.raw_stocks);
}

#[test]
fn the_snapshot_keeps_the_extremes_and_the_worst_close() {
    let state = replay(&vec![
        candle(100, 110, 95, 105, 1),
        candle(105, 120, 100, 102, 1),
        candle(102, 103, 90, 104, 1),
    ]);
    assert_eq!(state.current_candle_open, 100);
    assert_eq!(state.current_candle_high, 120);
    assert_eq!(state.current_candle_low, 90);
    assert_eq!(state.current_candle_close, 102);
    assert_eq!(state.previous_candle_high, 120);
    assert_eq!(state.previous_candle_low, 95);
}

#[test]
fn streaks_count_up_and_start_again() {
    let state = replay(&vec![
        candle(100, 110, 95, 90, 1),
        candle(90, 110, 80, 85, 1),
        candle(85, 110, 80, 84, 1),
    ]);
    assert_eq!(state.last_consecutive_red_candle_count, 3);
    assert_eq!(state.last_consecutive_green_candle_count, 0);
    let turned = replay(&vec![
        candle(100, 110, 95, 90, 1),
        candle(90, 110, 80, 85, 1),
        candle(85, 110, 80, 95, 1),
        candle(95, 110, 80, 99, 1),
    ]);
    assert_eq!(turned.last_consecutive_red_candle_count, 0);
    assert_eq!(turned.last_consecutive_green_candle_count, 2);
    let doji = replay(&vec![candle(100, 110, 95, 90, 1), candle(90, 110, 80, 90, 1)]);
    assert_eq!(doji.last_consecutive_red_candle_count, 0);
    assert_eq!(doji.last_consecutive_green_candle_count, 0);
}

#[test]
fn only_five_minute_candles_are_tracked() {
    let stock = candle(100, 110, 95, 105, 1);
    let history = vec![stock.clone()];
    let followed = CurrentMarketState::calculate_market_state(
        &stock,
        TimeFrame::FiveMinutes,
        &history,
        "k".to_string(),
        None,
        MarketStateSettings::standard(),
        "id".to_string(),
        "now".to_string(),
    );
    assert!(followed.is_some());
    let other = CurrentMarketState::calculate_market_state(
        &stock,
        TimeFrame::OneDay,
        &history,
        "k".to_string(),
        None,
        MarketStateSettings::standard(),
        "id".to_string(),
        "now".to_string(),
    );
    assert!(other.is_none());
}

#[test]
fn the_trend_follows_the_moving_average() {
    let mut history: Vec<RawStock> = Vec::new();
    for close in [10, 20, 30, 40] {
        history.push(candle(close, close, close, close, 1));
    }
    let above = candle(0, 0, 0, 31, 1);
    assert_eq!(
        CurrentMarketState::identify_market_trend_sma(&history, &above, 3),
        (30, MarketTrend::Bullish)
    );
    let below = candle(0, 0, 0, 29, 1);
    assert_eq!(
        CurrentMarketState::identify_market_trend_sma(&history, &below, 3),
        (30, MarketTrend::Bearish)
    );
    let level = candle(0, 0, 0, 30, 1);
    assert_eq!(
        CurrentMarketState::identify_market_trend_sma(&history, &level, 3),
        (30, MarketTrend::Sideways)
    );
}

#[test]
fn a_short_history_has_no_trend() {
    let mut history: Vec<RawStock> = Vec::new();
    for close in [10, 20, 30] {
        history.push(candle(close, close, close, close, 1));
    }
    let stock = candle(0, 0, 0, 1000, 1);
    assert_eq!(
        CurrentMarketState::identify_market_trend_sma(&history, &stock, 3),
        (0, MarketTrend::Sideways)
    );
    assert_eq!(
        CurrentMarketState::identify_market_trend_sma(&history, &stock, 0),
        (0, MarketTrend::Sideways)
    );
}

#[test]
fn the_average_is_rounded_but_the_trend_is_exact() {
    let mut history: Vec<RawStock> = Vec::new();
    for close in [1, 10, 10, 11] {
        history.push(candle(close, close, close, close, 1));
    }
    let stock = candle(0, 0, 0, 10, 1);
    assert_eq!(
        CurrentMarketState::identify_market_trend_sma(&history, &stock, 3),
        (10, MarketTrend::Bearish)
    );
    let mut falling: Vec<RawStock> = Vec::new();
    for close in [0, -10, -10, -11] {
        falling.push(candle(close, close, close, close, 1));
    }
    let low = candle(0, 0, 0, -10, 1);
    assert_eq!(
        CurrentMarketState::identify_market_trend_sma(&falling, &low, 3),
        (-10, MarketTrend::Bullish)
    );
}

#[test]
fn a_drop_is_measured_before_the_latest_candle() {
    let stocks = vec![
        candle(12500, 12600, 10200, 10300, 1),
        candle(10300, 10400, 9900, 10000, 1),
        candle(10000, 10200, 8000, 9000, 1),
    ];
    assert!(previous_drop_in_stock(&stocks, 2, 2000));
    assert!(!previous_drop_in_stock(&stocks, 2, 2500));
    assert!(!previous_drop_in_stock(&stocks, 1, 2000));
    assert!(previous_drop_in_stock(&stocks, 1, 299));
    assert!(!previous_drop_in_stock(&stocks, 1, 300));
}

#[test]
fn without_a_former_candle_there_is_no_drop_and_no_peak() {
    let one = vec![candle(12500, 12600, 10200, 10300, 1)];
    assert!(!previous_drop_in_stock(&one, 2, 0));
    assert!(!previous_peak_in_stocks(&one, 2, 0));
    let none: Vec<RawStock> = Vec::new();
    assert!(!previous_drop_in_stock(&none, 2, 0));
    assert!(previous_drop_in_stock(&none, 2, -1));
    assert!(!previous_peak_in_stocks(&none, 2, -1));
}

#[test]
fn a_peak_is_measured_before_the_latest_candle() {
    let stocks = vec![
        candle(9000, 9500, 8900, 9400, 1),
        candle(9400, 12100, 9300, 12000, 1),
        candle(12000, 12200, 11000, 11900, 1),
    ];
    assert!(previous_peak_in_stocks(&stocks, 2, 2999));
    assert!(!previous_peak_in_stocks(&stocks, 2, 3000));
    assert!(previous_peak_in_stocks(&stocks, 1, 2599));
    assert!(!previous_peak_in_stocks(&stocks, 1, 2600));
    assert!(!previous_peak_in_stocks(&stocks, 0, 0));
}

#[test]
fn pivots_give_support_and_resistance() {
    let lows_and_highs = [(50, 60), (40, 70), (30, 80), (45, 75), (55, 65), (60, 90), (58, 70)];
    let mut stocks: Vec<RawStock> = Vec::new();
    for (low, high) in lows_and_highs {
        stocks.push(candle(low, high, low, high, 1));
    }
    let (support, resistance) = find_support_resistance(&stocks, 2);
    assert_eq!(support, vec![30]);
    assert_eq!(resistance, vec![80]);
    let (deep_support, deep_resistance) = find_support_resistance(&stocks, 3);
    assert!(deep_support.is_empty());
    assert!(deep_resistance.is_empty());
}

#[test]
fn a_pivot_is_held_against_every_candle_within_its_depth() {
    let mut stocks: Vec<RawStock> = Vec::new();
    for low in [0, 5, 3, 5, 0] {
        stocks.push(candle(low, 10, low, 10, 1));
    }
    let (support, resistance) = find_support_resistance(&stocks, 2);
    assert!(support.is_empty());
    assert_eq!(resistance, vec![10]);
    let (near_support, _) = find_support_resistance(&stocks, 1);
    assert_eq!(near_support, vec![3]);
}

#[test]
fn a_pivot_needs_candles_on_both_sides() {
    let mut stocks: Vec<RawStock> = Vec::new();
    for (low, high) in [(10, 90), (40, 70), (30, 80), (45, 75), (5, 95)] {
        stocks.push(candle(low, high, low, high, 1));
    }
    let (support, resistance) = find_support_resistance(&stocks, 3);
    assert!(support.is_empty());
    assert!(resistance.is_empty());
    let (every_low, every_high) = find_support_resistance(&stocks, 0);
    assert_eq!(every_low, vec![10, 40, 30, 45, 5]);
    assert_eq!(every_high, vec![90, 70, 80, 75, 95]);
    let (near_low, near_high) = find_support_resistance(&stocks, 1);
    assert_eq!(near_low, vec![30]);
    assert_eq!(near_high, vec![80]);
}

#[test]
fn equal_neighbours_do_not_stop_a_pivot() {
    let mut stocks: Vec<RawStock> = Vec::new();
    for (low, high) in [(30, 80), (30, 80), (30, 80), (30, 80), (30, 80), (30, 80)] {
        stocks.push(candle(low, high, low, high, 1));
    }
    let (support, resistance) = find_support_resistance(&stocks, 2);
    assert_eq!(support, vec![30, 30]);
    assert_eq!(resistance, vec![80, 80]);
}
