//! The rolling market snapshot of one symbol, time frame and day.
//!
//! The first candle of a day seeds the snapshot; every later candle adds to
//! it. All its aggregates are functions of the candles seen so far.

use vstd::prelude::*;
use vstd::string::*;
use vstd::arithmetic::div_mod::*;
use crate::enums::{MarketTrend, TimeFrame};
use crate::raw_stock::{duplicate_stocks, divide_toward_zero, quotient_toward_zero, RawStock};
use crate::support_resistance_fractol::{find_support_resistance, resistance_levels, support_levels};

verus! {

/// How the tracker is tuned.
#[derive(Debug, Clone, Copy, PartialEq, Eq, Structural)]
pub struct MarketStateSettings {
    /// How many closes the moving average covers.
    pub sma_window_size: usize,
    /// The depth of the scan for pivots.
    pub pivot_depth: usize,
}

impl MarketStateSettings {
    /// An average over nine closes and pivots of depth three.
    pub fn standard() -> (settings: MarketStateSettings)
        ensures
            settings.sma_window_size == 9,
            settings.pivot_depth == 3,
    {
        MarketStateSettings { sma_window_size: 9, pivot_depth: 3 }
    }
}

/// What identifies a snapshot for a query.
#[derive(Debug, Clone)]
pub struct CurrentMarketStateBodyParams {
    pub symbol: String,
    pub trade_date: String,
    pub time_frame: TimeFrame,
}

#[derive(Debug, Clone)]
pub struct CurrentMarketState {
    pub market_time_frame: TimeFrame,
    pub previous_candle_market_trend: MarketTrend,
    pub current_candle_market_trend: MarketTrend,
    pub current_sma: i64,
    pub previous_candle_open: i64,
    pub previous_candle_high: i64,
    pub previous_candle_low: i64,
    pub previous_candle_close: i64,
    pub previous_candle_volume: u128,
    pub current_candle_open: i64,
    pub current_candle_high: i64,
    pub current_candle_low: i64,
    pub current_candle_close: i64,
    pub current_candle_volume: u128,
    pub last_consecutive_green_candle_count: u64,
    pub last_consecutive_red_candle_count: u64,
    pub symbol: String,
    pub id: String,
    pub created_at: String,
    pub updated_at: String,
    pub cache_key: String,
    pub raw_stocks: Vec<RawStock>,
    pub support: Vec<i64>,
    pub resistance: Vec<i64>,
}

/// The sum of the volumes of a run of candles.
pub open spec fn volume_sum(stocks: Seq<RawStock>) -> nat
    decreases stocks.len(),
{
    if stocks.len() == 0 {
        0
    } else {
        volume_sum(stocks.drop_last()) + stocks.last().volume as nat
    }
}

/// The sum of the closes of a run of candles.
pub open spec fn close_sum(stocks: Seq<RawStock>) -> int
    decreases stocks.len(),
{
    if stocks.len() == 0 {
        0
    } else {
        close_sum(stocks.drop_last()) + stocks.last().close
    }
}

/// How many green candles a run ends with.
pub open spec fn green_streak(stocks: Seq<RawStock>) -> nat
    decreases stocks.len(),
{
    if stocks.len() > 0 && stocks.last().is_green() {
        1 + green_streak(stocks.drop_last())
    } else {
        0
    }
}

/// How many red candles a run ends with.
pub open spec fn red_streak(stocks: Seq<RawStock>) -> nat
    decreases stocks.len(),
{
    if stocks.len() > 0 && stocks.last().is_red() {
        1 + red_streak(stocks.drop_last())
    } else {
        0
    }
}

/// The highest high of a run that is not empty.
pub open spec fn highest_high(stocks: Seq<RawStock>) -> int
    decreases stocks.len(),
{
    if stocks.len() <= 1 {
        if stocks.len() == 1 {
            stocks[0].high as int
        } else {
            0
        }
    } else {
        let before = highest_high(stocks.drop_last());
        if stocks.last().high > before {
            stocks.last().high as int
        } else {
            before
        }
    }
}

/// The lowest low of a run that is not empty.
pub open spec fn lowest_low(stocks: Seq<RawStock>) -> int
    decreases stocks.len(),
{
    if stocks.len() <= 1 {
        if stocks.len() == 1 {
            stocks[0].low as int
        } else {
            0
        }
    } else {
        let before = lowest_low(stocks.drop_last());
        if stocks.last().low < before {
            stocks.last().low as int
        } else {
            before
        }
    }
}

/// The lowest close of a run that is not empty: the snapshot keeps the worst
/// close of the day, not the latest.
pub open spec fn lowest_close(stocks: Seq<RawStock>) -> int
    decreases stocks.len(),
{
    if stocks.len() <= 1 {
        if stocks.len() == 1 {
            stocks[0].close as int
        } else {
            0
        }
    } else {
        let before = lowest_close(stocks.drop_last());
        if stocks.last().close < before {
            stocks.last().close as int
        } else {
            before
        }
    }
}

/// Whether a history is long enough for an average over `window` closes.
pub open spec fn has_moving_average(history: Seq<RawStock>, window: int) -> bool {
    window > 0 && history.len() > window
}

/// The sum of the last `window` closes of a history.
pub open spec fn window_close_sum(history: Seq<RawStock>, window: int) -> int {
    close_sum(history.subrange(history.len() - window, history.len() as int))
}

/// The moving average, rounded toward zero; zero where the history is short.
pub open spec fn moving_average(history: Seq<RawStock>, window: int) -> int {
    if has_moving_average(history, window) {
        quotient_toward_zero(window_close_sum(history, window), window)
    } else {
        0
    }
}

/// The trend of a close against the exact moving average: sideways where the
/// history is short or the two are equal.
pub open spec fn trend_of(history: Seq<RawStock>, close: int, window: int) -> MarketTrend {
    if !has_moving_average(history, window) {
        MarketTrend::Sideways
    } else if close * window > window_close_sum(history, window) {
        MarketTrend::Bullish
    } else if close * window < window_close_sum(history, window) {
        MarketTrend::Bearish
    } else {
        MarketTrend::Sideways
    }
}

/// A counter after one more step; it stops at the largest value it can hold.
pub open spec fn counted_up(count: u64) -> u64 {
    if count < u64::MAX {
        (count + 1) as u64
    } else {
        count
    }
}

/// A volume after one more candle; it stops at the largest value it can hold.
pub open spec fn volume_added(volume: u128, more: u32) -> u128 {
    if volume + more <= u128::MAX {
        (volume + more) as u128
    } else {
        u128::MAX
    }
}

proof fn lemma_close_sum_bounds(stocks: Seq<RawStock>)
    ensures
        -(stocks.len() * 0x8000_0000_0000_0000) <= close_sum(stocks) <= stocks.len()
            * 0x7fff_ffff_ffff_ffff,
    decreases stocks.len(),
{
    if stocks.len() > 0 {
        lemma_close_sum_bounds(stocks.drop_last());
        let n = stocks.len() as int;
        assert((n - 1) * 0x8000_0000_0000_0000 + 0x8000_0000_0000_0000 == n
            * 0x8000_0000_0000_0000) by (nonlinear_arith);
        assert((n - 1) * 0x7fff_ffff_ffff_ffff + 0x7fff_ffff_ffff_ffff == n
            * 0x7fff_ffff_ffff_ffff) by (nonlinear_arith);
    }
}

proof fn lemma_volume_sum_bound(stocks: Seq<RawStock>)
    ensures
        volume_sum(stocks) <= stocks.len() * 0xffff_ffff,
    decreases stocks.len(),
{
    if stocks.len() > 0 {
        lemma_volume_sum_bound(stocks.drop_last());
        let n = stocks.len() as int;
        assert((n - 1) * 0xffff_ffff + 0xffff_ffff == n * 0xffff_ffff) by (nonlinear_arith);
    }
}

proof fn lemma_streaks_bound(stocks: Seq<RawStock>)
    ensures
        green_streak(stocks) <= stocks.len(),
        red_streak(stocks) <= stocks.len(),
    decreases stocks.len(),
{
    if stocks.len() > 0 {
        lemma_streaks_bound(stocks.drop_last());
    }
}

impl CurrentMarketState {
    /// Whether every aggregate is what the candles of the day give.
    pub open spec fn is_consistent(&self) -> bool {
        let seen = self.raw_stocks@;
        &&& seen.len() >= 1
        &&& self.current_candle_open == seen[0].open
        &&& self.current_candle_high == highest_high(seen)
        &&& self.current_candle_low == lowest_low(seen)
        &&& self.current_candle_close == lowest_close(seen)
        &&& self.current_candle_volume == volume_sum(seen)
        &&& self.last_consecutive_green_candle_count == green_streak(seen)
        &&& self.last_consecutive_red_candle_count == red_streak(seen)
    }

    /// Whether `self` is the seed that a first candle gives.
    pub open spec fn is_seed_of(
        &self,
        stock: RawStock,
        running_history: Seq<RawStock>,
        settings: MarketStateSettings,
    ) -> bool {
        &&& self.market_time_frame == stock.market_time_frame
        &&& self.previous_candle_market_trend == MarketTrend::Sideways
        &&& self.current_candle_market_trend == trend_of(
            running_history,
            stock.close as int,
            settings.sma_window_size as int,
        )
        &&& self.current_sma == moving_average(running_history, settings.sma_window_size as int)
        &&& self.previous_candle_open == stock.open
        &&& self.previous_candle_high == stock.high
        &&& self.previous_candle_low == stock.low
        &&& self.previous_candle_close == stock.close
        &&& self.previous_candle_volume == 0
        &&& self.current_candle_open == stock.open
        &&& self.current_candle_high == stock.high
        &&& self.current_candle_low == stock.low
        &&& self.current_candle_close == stock.close
        &&& self.current_candle_volume == stock.volume
        &&& self.last_consecutive_green_candle_count == (if stock.is_green() {
            1u64
        } else {
            0u64
        })
        &&& self.last_consecutive_red_candle_count == (if stock.is_red() {
            1u64
        } else {
            0u64
        })
        &&& self.symbol@ == stock.symbol@
        &&& self.raw_stocks@ == seq![stock]
        &&& self.support@ == support_levels(seq![stock], settings.pivot_depth as int)
        &&& self.resistance@ == resistance_levels(seq![stock], settings.pivot_depth as int)
    }

    /// Whether `self` is what `before` becomes with one more candle.
    pub open spec fn is_successor_of(
        &self,
        before: CurrentMarketState,
        stock: RawStock,
        running_history: Seq<RawStock>,
        settings: MarketStateSettings,
    ) -> bool {
        &&& self.market_time_frame == stock.market_time_frame
        &&& self.previous_candle_market_trend == before.current_candle_market_trend
        &&& self.current_candle_market_trend == trend_of(
            running_history,
            stock.close as int,
            settings.sma_window_size as int,
        )
        &&& self.current_sma == moving_average(running_history, settings.sma_window_size as int)
        &&& self.previous_candle_open == before.current_candle_open
        &&& self.previous_candle_high == before.current_candle_high
        &&& self.previous_candle_low == before.current_candle_low
        &&& self.previous_candle_close == before.current_candle_close
        &&& self.previous_candle_volume == before.current_candle_volume
        &&& self.current_candle_open == before.current_candle_open
        &&& self.current_candle_high == (if stock.high > before.current_candle_high {
            stock.high
        } else {
            before.current_candle_high
        })
        &&& self.current_candle_low == (if stock.low < before.current_candle_low {
            stock.low
        } else {
            before.current_candle_low
        })
        &&& self.current_candle_close == (if stock.close < before.current_candle_close {
            stock.close
        } else {
            before.current_candle_close
        })
        &&& self.current_candle_volume == volume_added(before.current_candle_volume, stock.volume)
        &&& self.last_consecutive_green_candle_count == (if stock.is_green() {
            counted_up(before.last_consecutive_green_candle_count)
        } else {
            0u64
        })
        &&& self.last_consecutive_red_candle_count == (if stock.is_red() {
            counted_up(before.last_consecutive_red_candle_count)
        } else {
            0u64
        })
        &&& self.symbol@ == stock.symbol@
        &&& self.id@ == before.id@
        &&& self.created_at@ == before.created_at@
        &&& self.raw_stocks@ == before.raw_stocks@.push(stock)
        &&& self.support@ == support_levels(self.raw_stocks@, settings.pivot_depth as int)
        &&& self.resistance@ == resistance_levels(self.raw_stocks@, settings.pivot_depth as int)
    }

    pub fn new(
        market_time_frame: TimeFrame,
        previous_candle_market_trend: MarketTrend,
        current_candle_market_trend: MarketTrend,
        current_sma: i64,
        previous_candle_open: i64,
        previous_candle_high: i64,
        previous_candle_low: i64,
        previous_candle_close: i64,
        previous_candle_volume: u128,
        current_candle_open: i64,
        current_candle_high: i64,
        current_candle_low: i64,
        current_candle_close: i64,
        current_candle_volume: u128,
        last_consecutive_green_candle_count: u64,
        last_consecutive_red_candle_count: u64,
        symbol: String,
        id: String,
        created_at: String,
        updated_at: String,
        cache_key: String,
        raw_stocks: Vec<RawStock>,
        support: Vec<i64>,
        resistance: Vec<i64>,
    ) -> (state: CurrentMarketState)
        ensures
            state == (CurrentMarketState {
                market_time_frame,
                previous_candle_market_trend,
                current_candle_market_trend,
                current_sma,
                previous_candle_open,
                previous_candle_high,
                previous_candle_low,
                previous_candle_close,
                previous_candle_volume,
                current_candle_open,
                current_candle_high,
                current_candle_low,
                current_candle_close,
                current_candle_volume,
                last_consecutive_green_candle_count,
                last_consecutive_red_candle_count,
                symbol,
                id,
                created_at,
                updated_at,
                cache_key,
                raw_stocks,
                support,
                resistance,
            }),
    {
        CurrentMarketState {
            market_time_frame,
            previous_candle_market_trend,
            current_candle_market_trend,
            current_sma,
            previous_candle_open,
            previous_candle_high,
            previous_candle_low,
            previous_candle_close,
            previous_candle_volume,
            current_candle_open,
            current_candle_high,
            current_candle_low,
            current_candle_close,
            current_candle_volume,
            last_consecutive_green_candle_count,
            last_consecutive_red_candle_count,
            symbol,
            id,
            created_at,
            updated_at,
            cache_key,
            raw_stocks,
            support,
            resistance,
        }
    }

    /// The moving average of the last `sma_window_size` closes of the
    /// running history, and the trend of the candle's close against it.
    pub fn identify_market_trend_sma(
        raw_stocks: &Vec<RawStock>,
        stock: &RawStock,
        sma_window_size: usize,
    ) -> (found: (i64, MarketTrend))
        ensures
            found.0 == moving_average(raw_stocks@, sma_window_size as int),
            found.1 == trend_of(raw_stocks@, stock.close as int, sma_window_size as int),
    {
        let len: usize = raw_stocks.len();
        if sma_window_size == 0 || len <= sma_window_size {
            return (0, MarketTrend::Sideways);
        }
        let start: usize = len - sma_window_size;
        let mut total: i128 = 0;
        let mut i: usize = start;
        while i < len
            invariant
                start <= i <= len,
                len == raw_stocks@.len(),
                total == close_sum(raw_stocks@.subrange(start as int, i as int)),
            decreases len - i,
        {
            proof {
                let next = raw_stocks@.subrange(start as int, i as int + 1);
                assert(next.drop_last() == raw_stocks@.subrange(start as int, i as int));
                lemma_close_sum_bounds(raw_stocks@.subrange(start as int, i as int));
                assert((i - start) * 0x8000_0000_0000_0000 <= 0xffff_ffff_ffff_ffff
                    * 0x8000_0000_0000_0000) by (nonlinear_arith)
                    requires
                        0 <= i - start < 0xffff_ffff_ffff_ffff,
                ;
                assert((i - start) * 0x7fff_ffff_ffff_ffff <= 0xffff_ffff_ffff_ffff
                    * 0x7fff_ffff_ffff_ffff) by (nonlinear_arith)
                    requires
                        0 <= i - start < 0xffff_ffff_ffff_ffff,
                ;
            }
            total = total + raw_stocks[i].close as i128;
            i += 1;
        }
        let window: i128 = sma_window_size as i128;
        proof {
            let covered = raw_stocks@.subrange(start as int, len as int);
            lemma_close_sum_bounds(covered);
            assert(covered.len() == window);
            assert(window * 0x8000_0000_0000_0000 <= 0xffff_ffff_ffff_ffff * 0x8000_0000_0000_0000)
                by (nonlinear_arith)
                requires
                    0 < window <= 0xffff_ffff_ffff_ffff,
            ;
            assert(-(window * 0x8000_0000_0000_0000) <= stock.close * window <= window
                * 0x7fff_ffff_ffff_ffff) by (nonlinear_arith)
                requires
                    window > 0,
                    -0x8000_0000_0000_0000 <= stock.close <= 0x7fff_ffff_ffff_ffff,
            ;
        }
        let average: i128 = divide_toward_zero(total, window);
        proof {
            if total >= 0 {
                lemma_div_is_ordered(total as int, window * 0x7fff_ffff_ffff_ffff, window as int);
                lemma_div_multiples_vanish(0x7fff_ffff_ffff_ffff, window as int);
                assert(window * 0x7fff_ffff_ffff_ffff == 0x7fff_ffff_ffff_ffff * window)
                    by (nonlinear_arith);
            } else {
                lemma_div_is_ordered(-total as int, window * 0x8000_0000_0000_0000, window as int);
                lemma_div_multiples_vanish(0x8000_0000_0000_0000, window as int);
                assert(window * 0x8000_0000_0000_0000 == 0x8000_0000_0000_0000 * window)
                    by (nonlinear_arith);
            }
        }
        let scaled_close: i128 = stock.close as i128 * window;
        let trend = if scaled_close > total {
            MarketTrend::Bullish
        } else if scaled_close < total {
            MarketTrend::Bearish
        } else {
            MarketTrend::Sideways
        };
        (average as i64, trend)
    }

    /// The snapshot after one candle: the seed where the day has none yet,
    /// and else the former snapshot with the candle added.
    pub fn calculate_market_state_for_fiveminutes(
        stock: &RawStock,
        running_history: &Vec<RawStock>,
        current_market_state_cache_key: String,
        previous_market_state: Option<CurrentMarketState>,
        settings: MarketStateSettings,
        new_id: String,
        updated_at: String,
    ) -> (state: CurrentMarketState)
        ensures
            state.cache_key@ == current_market_state_cache_key@,
            state.updated_at@ == updated_at@,
            match previous_market_state {
                Some(before) => state.is_successor_of(before, *stock, running_history@, settings),
                None => state.is_seed_of(*stock, running_history@, settings) && state.id@
                    == new_id@ && state.created_at@ == updated_at@,
            },
            match previous_market_state {
                Some(before) => before.is_consistent() ==> state.is_consistent(),
                None => state.is_consistent(),
            },
    {
        let (current_sma, current_trend) = Self::identify_market_trend_sma(
            running_history,
            stock,
            settings.sma_window_size,
        );
        match previous_market_state {
            Some(before) => {
                let ghost seen = before.raw_stocks@;
                let high: i64 = if stock.high > before.current_candle_high {
                    stock.high
                } else {
                    before.current_candle_high
                };
                let low: i64 = if stock.low < before.current_candle_low {
                    stock.low
                } else {
                    before.current_candle_low
                };
                let close: i64 = if stock.close < before.current_candle_close {
                    stock.close
                } else {
                    before.current_candle_close
                };
                let volume: u128 = if before.current_candle_volume <= u128::MAX
                    - stock.volume as u128 {
                    before.current_candle_volume + stock.volume as u128
                } else {
                    u128::MAX
                };
                let green: u64 = if stock.close > stock.open {
                    if before.last_consecutive_green_candle_count < u64::MAX {
                        before.last_consecutive_green_candle_count + 1
                    } else {
                        u64::MAX
                    }
                } else {
                    0
                };
                let red: u64 = if stock.close < stock.open {
                    if before.last_consecutive_red_candle_count < u64::MAX {
                        before.last_consecutive_red_candle_count + 1
                    } else {
                        u64::MAX
                    }
                } else {
                    0
                };
                let mut raw_stocks = before.raw_stocks;
                raw_stocks.push(stock.duplicate());
                let seen_count: usize = raw_stocks.len();
                let (support, resistance) = find_support_resistance(&raw_stocks, settings.pivot_depth);
                proof {
                    let now = raw_stocks@;
                    assert(now.drop_last() == seen);
                    assert(now.last() == *stock);
                    if before.is_consistent() {
                        lemma_volume_sum_bound(seen);
                        lemma_streaks_bound(seen);
                        assert(seen.len() * 0xffff_ffff <= 0xffff_ffff_ffff_ffff * 0xffff_ffff)
                            by (nonlinear_arith)
                            requires
                                seen.len() <= 0xffff_ffff_ffff_ffff,
                        ;
                        assert(now[0] == seen[0]);
                    }
                }
                CurrentMarketState {
                    market_time_frame: stock.market_time_frame,
                    previous_candle_market_trend: before.current_candle_market_trend,
                    current_candle_market_trend: current_trend,
                    current_sma,
                    previous_candle_open: before.current_candle_open,
                    previous_candle_high: before.current_candle_high,
                    previous_candle_low: before.current_candle_low,
                    previous_candle_close: before.current_candle_close,
                    previous_candle_volume: before.current_candle_volume,
                    current_candle_open: before.current_candle_open,
                    current_candle_high: high,
                    current_candle_low: low,
                    current_candle_close: close,
                    current_candle_volume: volume,
                    last_consecutive_green_candle_count: green,
                    last_consecutive_red_candle_count: red,
                    symbol: stock.symbol.clone(),
                    id: before.id,
                    created_at: before.created_at,
                    updated_at,
                    cache_key: current_market_state_cache_key,
                    raw_stocks,
                    support,
                    resistance,
                }
            },
            None => {
                let mut raw_stocks: Vec<RawStock> = Vec::new();
                raw_stocks.push(stock.duplicate());
                let (support, resistance) = find_support_resistance(&raw_stocks, settings.pivot_depth);
                proof {
                    let now = raw_stocks@;
                    assert(now == seq![*stock]);
                    assert(now.drop_last().len() == 0);
                    assert(now.last() == *stock);
                    assert(volume_sum(now.drop_last()) == 0);
                    assert(green_streak(now.drop_last()) == 0);
                    assert(red_streak(now.drop_last()) == 0);
                }
                CurrentMarketState {
                    market_time_frame: stock.market_time_frame,
                    previous_candle_market_trend: MarketTrend::Sideways,
                    current_candle_market_trend: current_trend,
                    current_sma,
                    previous_candle_open: stock.open,
                    previous_candle_high: stock.high,
                    previous_candle_low: stock.low,
                    previous_candle_close: stock.close,
                    previous_candle_volume: 0,
                    current_candle_open: stock.open,
                    current_candle_high: stock.high,
                    current_candle_low: stock.low,
                    current_candle_close: stock.close,
                    current_candle_volume: stock.volume as u128,
                    last_consecutive_green_candle_count: if stock.close > stock.open {
                        1
                    } else {
                        0
                    },
                    last_consecutive_red_candle_count: if stock.open > stock.close {
                        1
                    } else {
                        0
                    },
                    symbol: stock.symbol.clone(),
                    id: new_id,
                    created_at: updated_at.clone(),
                    updated_at,
                    cache_key: current_market_state_cache_key,
                    raw_stocks,
                    support,
                    resistance,
                }
            },
        }
    }

    /// The snapshot after one candle of the given time frame. Only candles of
    /// five minutes are tracked; of any other time frame there is no snapshot.
    pub fn calculate_market_state(
        stock: &RawStock,
        time_frame: TimeFrame,
        running_history: &Vec<RawStock>,
        current_market_state_cache_key: String,
        previous_market_state: Option<CurrentMarketState>,
        settings: MarketStateSettings,
        new_id: String,
        updated_at: String,
    ) -> (state: Option<CurrentMarketState>)
        ensures
            is_snapshot_after(
                state,
                *stock,
                time_frame,
                running_history@,
                current_market_state_cache_key@,
                previous_market_state,
                settings,
                new_id@,
                updated_at@,
            ),
    {
        match time_frame {
            TimeFrame::FiveMinutes => Some(
                Self::calculate_market_state_for_fiveminutes(
                    stock,
                    running_history,
                    current_market_state_cache_key,
                    previous_market_state,
                    settings,
                    new_id,
                    updated_at,
                ),
            ),
            _ => None,
        }
    }

    /// Whether every aggregate is what the candles of the day give: the
    /// test for a snapshot that comes from a store.
    pub fn check_consistency(&self) -> (consistent: bool)
        ensures
            consistent == self.is_consistent(),
    {
        let count: usize = self.raw_stocks.len();
        if count == 0 {
            return false;
        }
        let first = &self.raw_stocks[0];
        let mut high: i64 = first.high;
        let mut low: i64 = first.low;
        let mut close: i64 = first.close;
        let mut volume: u128 = first.volume as u128;
        let mut green: u64 = if first.close > first.open {
            1
        } else {
            0
        };
        let mut red: u64 = if first.close < first.open {
            1
        } else {
            0
        };
        proof {
            let one = self.raw_stocks@.take(1);
            assert(one.len() == 1);
            assert(one[0] == self.raw_stocks@[0]);
            assert(one.last() == self.raw_stocks@[0]);
            assert(one.drop_last().len() == 0);
            assert(volume_sum(one.drop_last()) == 0);
            assert(green_streak(one.drop_last()) == 0);
            assert(red_streak(one.drop_last()) == 0);
        }
        let mut i: usize = 1;
        while i < count
            invariant
                1 <= i <= count,
                count == self.raw_stocks@.len(),
                high == highest_high(self.raw_stocks@.take(i as int)),
                low == lowest_low(self.raw_stocks@.take(i as int)),
                close == lowest_close(self.raw_stocks@.take(i as int)),
                volume == volume_sum(self.raw_stocks@.take(i as int)),
                green == green_streak(self.raw_stocks@.take(i as int)),
                red == red_streak(self.raw_stocks@.take(i as int)),
            decreases count - i,
        {
            let stock = &self.raw_stocks[i];
            proof {
                let seen = self.raw_stocks@.take(i as int);
                let next = self.raw_stocks@.take(i as int + 1);
                assert(next.drop_last() == seen);
                assert(next.last() == self.raw_stocks@[i as int]);
                lemma_volume_sum_bound(seen);
                lemma_streaks_bound(seen);
                assert(seen.len() * 0xffff_ffff <= 0xffff_ffff_ffff_ffff * 0xffff_ffff)
                    by (nonlinear_arith)
                    requires
                        seen.len() <= 0xffff_ffff_ffff_ffff,
                ;
            }
            if stock.high > high {
                high = stock.high;
            }
            if stock.low < low {
                low = stock.low;
            }
            if stock.close < close {
                close = stock.close;
            }
            volume = volume + stock.volume as u128;
            green = if stock.close > stock.open {
                green + 1
            } else {
                0
            };
            red = if stock.close < stock.open {
                red + 1
            } else {
                0
            };
            i += 1;
        }
        proof {
            assert(self.raw_stocks@.take(count as int) == self.raw_stocks@);
        }
        self.current_candle_open == first.open && self.current_candle_high == high
            && self.current_candle_low == low && self.current_candle_close == close
            && self.current_candle_volume == volume && self.last_consecutive_green_candle_count
            == green && self.last_consecutive_red_candle_count == red
    }

    /// A second snapshot with the same fields.
    pub fn duplicate(&self) -> (copy: CurrentMarketState)
        ensures
            copy.market_time_frame == self.market_time_frame,
            copy.previous_candle_market_trend == self.previous_candle_market_trend,
            copy.current_candle_market_trend == self.current_candle_market_trend,
            copy.current_sma == self.current_sma,
            copy.previous_candle_open == self.previous_candle_open,
            copy.previous_candle_high == self.previous_candle_high,
            copy.previous_candle_low == self.previous_candle_low,
            copy.previous_candle_close == self.previous_candle_close,
            copy.previous_candle_volume == self.previous_candle_volume,
            copy.current_candle_open == self.current_candle_open,
            copy.current_candle_high == self.current_candle_high,
            copy.current_candle_low == self.current_candle_low,
            copy.current_candle_close == self.current_candle_close,
            copy.current_candle_volume == self.current_candle_volume,
            copy.last_consecutive_green_candle_count == self.last_consecutive_green_candle_count,
            copy.last_consecutive_red_candle_count == self.last_consecutive_red_candle_count,
            copy.symbol@ == self.symbol@,
            copy.id@ == self.id@,
            copy.created_at@ == self.created_at@,
            copy.updated_at@ == self.updated_at@,
            copy.cache_key@ == self.cache_key@,
            copy.raw_stocks@ == self.raw_stocks@,
            copy.support@ == self.support@,
            copy.resistance@ == self.resistance@,
    {
        CurrentMarketState {
            market_time_frame: self.market_time_frame,
            previous_candle_market_trend: self.previous_candle_market_trend,
            current_candle_market_trend: self.current_candle_market_trend,
            current_sma: self.current_sma,
            previous_candle_open: self.previous_candle_open,
            previous_candle_high: self.previous_candle_high,
            previous_candle_low: self.previous_candle_low,
            previous_candle_close: self.previous_candle_close,
            previous_candle_volume: self.previous_candle_volume,
            current_candle_open: self.current_candle_open,
            current_candle_high: self.current_candle_high,
            current_candle_low: self.current_candle_low,
            current_candle_close: self.current_candle_close,
            current_candle_volume: self.current_candle_volume,
            last_consecutive_green_candle_count: self.last_consecutive_green_candle_count,
            last_consecutive_red_candle_count: self.last_consecutive_red_candle_count,
            symbol: self.symbol.clone(),
            id: self.id.clone(),
            created_at: self.created_at.clone(),
            updated_at: self.updated_at.clone(),
            cache_key: self.cache_key.clone(),
            raw_stocks: duplicate_stocks(&self.raw_stocks),
            support: self.support.clone(),
            resistance: self.resistance.clone(),
        }
    }
}

/// Whether `state` is the snapshot after one candle of the given time frame.
/// Only candles of five minutes have one: the seed where the day had none,
/// which is consistent, and else the successor of the former snapshot, which
/// is consistent where that one was.
pub open spec fn is_snapshot_after(
    state: Option<CurrentMarketState>,
    stock: RawStock,
    time_frame: TimeFrame,
    running_history: Seq<RawStock>,
    cache_key: Seq<char>,
    previous_market_state: Option<CurrentMarketState>,
    settings: MarketStateSettings,
    new_id: Seq<char>,
    updated_at: Seq<char>,
) -> bool {
    &&& state is Some <==> time_frame == TimeFrame::FiveMinutes
    &&& match state {
        Some(next) => {
            &&& next.cache_key@ == cache_key
            &&& next.updated_at@ == updated_at
            &&& match previous_market_state {
                Some(before) => next.is_successor_of(before, stock, running_history, settings) && (
                before.is_consistent() ==> next.is_consistent()),
                None => next.is_seed_of(stock, running_history, settings) && next.is_consistent()
                    && next.id@ == new_id && next.created_at@ == updated_at,
            }
        },
        None => true,
    }
}

/// The accumulated volume of a consistent snapshot is the sum of the volumes
/// of all the candles applied to it, so two snapshots that saw the same
/// candles hold the same volume.
pub proof fn lemma_volume_is_sum_of_candles(first: CurrentMarketState, second: CurrentMarketState)
    requires
        first.is_consistent(),
        second.is_consistent(),
        first.raw_stocks@ == second.raw_stocks@,
    ensures
        first.current_candle_volume == volume_sum(first.raw_stocks@),
        first.current_candle_volume == second.current_candle_volume,
{
}

/// A consistent snapshot stays consistent with one more candle, and its
/// accumulated volume grows by exactly that candle's volume.
pub proof fn lemma_successor_adds_the_volume(
    before: CurrentMarketState,
    after: CurrentMarketState,
    stock: RawStock,
    running_history: Seq<RawStock>,
    settings: MarketStateSettings,
)
    requires
        before.is_consistent(),
        before.raw_stocks@.len() < usize::MAX,
        after.is_successor_of(before, stock, running_history, settings),
    ensures
        after.is_consistent(),
        after.current_candle_volume == before.current_candle_volume + stock.volume,
        after.current_candle_volume == volume_sum(after.raw_stocks@),
{
    let seen = before.raw_stocks@;
    let now = after.raw_stocks@;
    assert(now.drop_last() == seen);
    assert(now.last() == stock);
    assert(now[0] == seen[0]);
    lemma_volume_sum_bound(seen);
    lemma_streaks_bound(seen);
    assert(seen.len() * 0xffff_ffff <= 0xffff_ffff_ffff_ffff * 0xffff_ffff) by (nonlinear_arith)
        requires
            seen.len() <= 0xffff_ffff_ffff_ffff,
    ;
}

/// The accumulated volume never shrinks: the sum over a history with one more
/// candle is the former sum and that candle's volume.
pub proof fn lemma_volume_grows(seen: Seq<RawStock>, stock: RawStock)
    ensures
        volume_sum(seen.push(stock)) == volume_sum(seen) + stock.volume,
        volume_sum(seen.push(stock)) >= volume_sum(seen),
{
    assert(seen.push(stock).drop_last() == seen);
}

} // verus!
