//! The hammer: a candle with a long lower wick, in a place where a reversal
//! is likely.
//!
//! A candle matches when its shape is that of a hammer and the market
//! snapshot gives it a context: a support level just above its low, a drop
//! just before it, or a run of red candles.

use vstd::prelude::*;
use vstd::string::*;
use crate::current_market_state::CurrentMarketState;
use crate::date_parser::{parse_stock_datetime, stock_epoch_seconds};
use crate::enums::{AlgoTypes, TimeFrame, TradeType};
use crate::previous_volatility_in_stocks::{is_previous_drop, previous_drop_in_stock};
use crate::raw_stock::{
    body_size,
    divide_toward_zero,
    fits_price,
    lower_wick,
    quotient_toward_zero,
    upper_wick,
    RawStock,
};
use crate::trade_signal_keeper::{TradeSignal, QTY};

verus! {

/// The values that tune the detector.
#[derive(Debug, Clone, Copy, PartialEq, Eq, Structural)]
pub struct HammerThresholds {
    /// How far above a support level a low may lie, in millionths of the level.
    pub lower_wick_horizontal_support_tolerance: u32,
    /// How many red candles in a row make a context.
    pub red_candles_count_threshold: u64,
    /// By how much the price must have dropped, in ticks.
    pub max_drop_threshold_value: i64,
    /// Over how many candles the drop is looked for.
    pub max_drop_candle_count: usize,
    /// The margin kept below the entry and the stop, in ticks.
    pub sl_margin_points: i64,
    /// The target's distance as a share of the wick, in hundredths.
    pub target_margin_multiplier: u32,
}

/// A filter over stored pattern candles.
#[derive(Debug, Clone)]
pub struct HammerCandleBodyParams {
    pub start_trade_date: String,
    pub end_trade_date: String,
    pub symbol: Option<String>,
    pub market_time_frame: Option<TimeFrame>,
    pub is_green_candle: Option<bool>,
    pub volume: Option<u32>,
    pub volume_operator: Option<String>,
}

/// What a filter asks of a candle's volume.
#[derive(Debug, Clone, Copy, PartialEq, Eq, Structural)]
pub enum VolumeFilter {
    Any,
    AtLeast(u32),
    AtMost(u32),
}

/// The operator that asks for a volume of at least the given one.
pub open spec fn at_least_operator() -> Seq<char> {
    "$gte"@
}

impl HammerCandleBodyParams {
    /// What the filter asks of the volume: nothing without a volume; at
    /// least the volume with the operator `$gte`; and at most the volume
    /// with any other operator or none.
    pub open spec fn asked_volume(&self) -> VolumeFilter {
        match self.volume {
            None => VolumeFilter::Any,
            Some(volume) => if self.volume_operator is Some && self.volume_operator.unwrap()@
                == at_least_operator() {
                VolumeFilter::AtLeast(volume)
            } else {
                VolumeFilter::AtMost(volume)
            },
        }
    }

    pub fn volume_filter(&self) -> (filter: VolumeFilter)
        ensures
            filter == self.asked_volume(),
    {
        match self.volume {
            None => VolumeFilter::Any,
            Some(volume) => {
                let at_least: bool = match &self.volume_operator {
                    Some(operator) => *operator == String::from_str("$gte"),
                    None => false,
                };
                if at_least {
                    VolumeFilter::AtLeast(volume)
                } else {
                    VolumeFilter::AtMost(volume)
                }
            },
        }
    }
}

/// A candle that matched, with what was derived from it.
#[derive(Debug, Clone, PartialEq, Eq)]
pub struct HammerCandle {
    pub symbol: String,
    pub date: String,
    pub open: i64,
    pub high: i64,
    pub low: i64,
    pub close: i64,
    pub volume: u32,
    pub market_time_frame: TimeFrame,
    pub is_green_candle: bool,
    pub is_hammer: bool,
    /// The body as a share of the whole candle, in hundredths of a percent.
    pub body_size_ratio: u128,
    pub created_at: String,
    pub id: String,
}

/// The body as a share of the range from low to high, in hundredths of a
/// percent and rounded down; zero for a candle without a range.
pub open spec fn body_to_range_ratio(open: int, high: int, low: int, close: int) -> int {
    if high - low > 0 {
        body_size(open, close) * 10000 / (high - low)
    } else {
        0
    }
}

/// The shape of a hammer, one of two. The body is at most a quarter of the
/// range and the lower wick more than 2.1 times the upper one; or the lower
/// wick is at least 1.75 bodies, the upper wick at most 1.5 bodies, and the
/// lower wick more than twice the upper one.
pub open spec fn is_standalone_hammer(open: int, high: int, low: int, close: int) -> bool {
    let body = body_size(open, close);
    let lower = lower_wick(open, low, close);
    let upper = upper_wick(open, high, close);
    ||| (high - low > 0 && 4 * body <= high - low && 10 * lower > 21 * upper)
    ||| (body > 0 && 4 * lower >= 7 * body && 2 * upper <= 3 * body && lower > 2 * upper)
}

/// The weaker shape that is enough after a drop: a lower wick of at least
/// one body and an upper wick under 0.3 bodies.
pub open spec fn is_hammer_after_drop_shape(open: int, high: int, low: int, close: int) -> bool {
    let body = body_size(open, close);
    let lower = lower_wick(open, low, close);
    let upper = upper_wick(open, high, close);
    body > 0 && lower >= body && 10 * upper < 3 * body
}

/// A low stands at a support level when it lies below the level by no more
/// than the tolerance, a share of the level given in millionths.
pub open spec fn is_on_support(support_price: int, low: int, tolerance: int) -> bool {
    low < support_price && (support_price - low) * 1000000 <= support_price * tolerance
}

pub open spec fn is_around_support(levels: Seq<i64>, low: int, tolerance: int) -> bool {
    exists|i: int| 0 <= i < levels.len() && is_on_support(#[trigger] levels[i] as int, low, tolerance)
}

/// Whether a candle matches, given the snapshot of its day. Without a
/// snapshot nothing matches.
pub open spec fn is_hammer_match(
    stock: RawStock,
    state: Option<&CurrentMarketState>,
    thresholds: HammerThresholds,
) -> bool {
    match state {
        None => false,
        Some(snapshot) => {
            let around_support = is_around_support(
                snapshot.support@,
                stock.low as int,
                thresholds.lower_wick_horizontal_support_tolerance as int,
            );
            let after_drop = is_previous_drop(
                snapshot.raw_stocks@,
                thresholds.max_drop_candle_count as int,
                thresholds.max_drop_threshold_value as int,
            );
            let after_red_candles = snapshot.last_consecutive_red_candle_count
                >= thresholds.red_candles_count_threshold;
            let shape = is_standalone_hammer(
                stock.open as int,
                stock.high as int,
                stock.low as int,
                stock.close as int,
            ) || (after_drop && is_hammer_after_drop_shape(
                stock.open as int,
                stock.high as int,
                stock.low as int,
                stock.close as int,
            ));
            shape && (around_support || after_drop || after_red_candles)
        },
    }
}

impl HammerCandle {
    pub fn new(
        symbol: String,
        date: String,
        open: i64,
        high: i64,
        low: i64,
        close: i64,
        volume: u32,
        market_time_frame: TimeFrame,
        is_green_candle: bool,
        is_hammer: bool,
        body_size_ratio: u128,
        created_at: String,
        id: String,
    ) -> (candle: HammerCandle)
        ensures
            candle == (HammerCandle {
                symbol,
                date,
                open,
                high,
                low,
                close,
                volume,
                market_time_frame,
                is_green_candle,
                is_hammer,
                body_size_ratio,
                created_at,
                id,
            }),
    {
        HammerCandle {
            symbol,
            date,
            open,
            high,
            low,
            close,
            volume,
            market_time_frame,
            is_green_candle,
            is_hammer,
            body_size_ratio,
            created_at,
            id,
        }
    }

    pub fn update_hammer(&mut self, is_hammer: bool)
        ensures
            *final(self) == (HammerCandle { is_hammer, ..*old(self) }),
    {
        self.is_hammer = is_hammer;
    }

    pub fn update_body_size_ratio(&mut self, body_size_ratio: u128)
        ensures
            *final(self) == (HammerCandle { body_size_ratio, ..*old(self) }),
    {
        self.body_size_ratio = body_size_ratio;
    }

    pub fn update_is_green_candle(&mut self, is_green_candle: bool)
        ensures
            *final(self) == (HammerCandle { is_green_candle, ..*old(self) }),
    {
        self.is_green_candle = is_green_candle;
    }

    /// A second pattern candle with the same fields.
    pub fn duplicate(&self) -> (copy: HammerCandle)
        ensures
            copy == *self,
    {
        HammerCandle {
            symbol: self.symbol.clone(),
            date: self.date.clone(),
            open: self.open,
            high: self.high,
            low: self.low,
            close: self.close,
            volume: self.volume,
            market_time_frame: self.market_time_frame,
            is_green_candle: self.is_green_candle,
            is_hammer: self.is_hammer,
            body_size_ratio: self.body_size_ratio,
            created_at: self.created_at.clone(),
            id: self.id.clone(),
        }
    }

    /// The lower wick as the signal counts it.
    pub open spec fn signal_wick(&self) -> int {
        if self.is_green_candle {
            self.open - self.low
        } else {
            self.close - self.low
        }
    }

    /// The entry: the margin below the close of a green candle, or below the
    /// open of any other.
    pub open spec fn signal_entry(&self, thresholds: HammerThresholds) -> int {
        if self.is_green_candle {
            self.close - thresholds.sl_margin_points
        } else {
            self.open - thresholds.sl_margin_points
        }
    }

    /// The stop: the wick and the margin below the entry.
    pub open spec fn signal_stop(&self, thresholds: HammerThresholds) -> int {
        self.signal_entry(thresholds) - (self.signal_wick() + thresholds.sl_margin_points)
    }

    /// The target: above the entry by the multiplier's share of the wick; of
    /// a candle that is not green, of the wick and the margin.
    pub open spec fn signal_target(&self, thresholds: HammerThresholds) -> int {
        let reach = if self.is_green_candle {
            self.signal_wick()
        } else {
            self.signal_wick() + thresholds.sl_margin_points
        };
        self.signal_entry(thresholds) + quotient_toward_zero(
            reach * thresholds.target_margin_multiplier,
            100,
        )
    }

    /// Whether the candle gives a signal when looked at at `evaluated_epoch`:
    /// that moment is after the candle's own, the entry is above zero, and
    /// the three prices can be held.
    pub open spec fn gives_signal(
        &self,
        thresholds: HammerThresholds,
        candle_epoch: i64,
        evaluated_epoch: i64,
    ) -> bool {
        &&& evaluated_epoch > candle_epoch
        &&& self.signal_entry(thresholds) > 0
        &&& fits_price(self.signal_entry(thresholds))
        &&& fits_price(self.signal_stop(thresholds))
        &&& fits_price(self.signal_target(thresholds))
    }

    /// The signal that the candle gives: always a long one.
    pub open spec fn signal(
        &self,
        thresholds: HammerThresholds,
        created_at: String,
        signal_id: String,
    ) -> TradeSignal {
        TradeSignal {
            raw_stock: RawStock {
                symbol: self.symbol,
                date: self.date,
                close: self.close,
                high: self.high,
                low: self.low,
                open: self.open,
                volume: self.volume,
                market_time_frame: self.market_time_frame,
            },
            trade_position_type: TradeType::Long,
            trade_algo_type: AlgoTypes::HammerPatternAlgo,
            created_at,
            entry_price: self.signal_entry(thresholds) as i64,
            trade_sl: self.signal_stop(thresholds) as i64,
            trade_target: self.signal_target(thresholds) as i64,
            qty: QTY,
            total_price: (self.signal_entry(thresholds) * QTY) as u128,
            id: signal_id,
            algo_id: self.id,
        }
    }
}

/// What a matching candle becomes in the ledger.
pub open spec fn pattern_candle_of(stock: RawStock, created_at: String, id: String) -> HammerCandle {
    HammerCandle {
        symbol: stock.symbol,
        date: stock.date,
        open: stock.open,
        high: stock.high,
        low: stock.low,
        close: stock.close,
        volume: stock.volume,
        market_time_frame: stock.market_time_frame,
        is_green_candle: stock.is_green(),
        is_hammer: true,
        body_size_ratio: body_to_range_ratio(
            stock.open as int,
            stock.high as int,
            stock.low as int,
            stock.close as int,
        ) as u128,
        created_at,
        id,
    }
}

/// Whether a ledger and a signal are what the judging of one candle leaves.
/// A candle that matches is added to the ledger, as `pattern_candle_of` says
/// and stamped `evaluated_at`; no other candle is. There is a signal where
/// the candle matches and `gives_signal` holds of it, and it is the signal
/// of the added candle, stamped `evaluated_at`.
pub open spec fn is_evaluation_of(
    before: Seq<HammerCandle>,
    after: Seq<HammerCandle>,
    signal: Option<TradeSignal>,
    stock: RawStock,
    state: Option<&CurrentMarketState>,
    thresholds: HammerThresholds,
    candle_epoch: i64,
    evaluated_epoch: i64,
    evaluated_at: Seq<char>,
    candle_id: String,
    signal_id: String,
) -> bool {
    &&& after == (if is_hammer_match(stock, state, thresholds) {
        before.push(after.last())
    } else {
        before
    })
    &&& is_hammer_match(stock, state, thresholds) ==> ({
        let added = after.last();
        &&& added.created_at@ == evaluated_at
        &&& added == pattern_candle_of(stock, added.created_at, candle_id)
        &&& (signal is Some ==> signal.unwrap().created_at@ == evaluated_at && signal.unwrap()
            == added.signal(thresholds, signal.unwrap().created_at, signal_id))
    })
    &&& (signal is Some <==> is_hammer_match(stock, state, thresholds) && after.last().gives_signal(
        thresholds,
        candle_epoch,
        evaluated_epoch,
    ))
}

/// The same for a candle and a moment of evaluation given as text. Where one
/// of the two is no time stamp the candle is skipped: the ledger stays as it
/// is and there is no signal.
pub open spec fn is_dated_evaluation_of(
    before: Seq<HammerCandle>,
    after: Seq<HammerCandle>,
    signal: Option<TradeSignal>,
    stock: RawStock,
    state: Option<&CurrentMarketState>,
    thresholds: HammerThresholds,
    evaluated_at: Seq<char>,
    candle_id: String,
    signal_id: String,
) -> bool {
    match (stock_epoch_seconds(stock.date@), stock_epoch_seconds(evaluated_at)) {
        (Some(candle_epoch), Some(evaluated_epoch)) => is_evaluation_of(
            before,
            after,
            signal,
            stock,
            state,
            thresholds,
            candle_epoch,
            evaluated_epoch,
            evaluated_at,
            candle_id,
            signal_id,
        ),
        _ => signal is None && after == before,
    }
}

/// The product of a price distance and a configured factor.
fn scaled(value: i128, factor: u32) -> (product: i128)
    requires
        -0x8_0000_0000_0000_0000 <= value <= 0x8_0000_0000_0000_0000,
    ensures
        product == value * factor,
        -0x8_0000_0000_0000_0000_0000_0000 <= product <= 0x8_0000_0000_0000_0000_0000_0000,
{
    proof {
        assert(-0x8_0000_0000_0000_0000 * 0x1_0000_0000 <= value * factor <= 0x8_0000_0000_0000_0000
            * 0x1_0000_0000) by (nonlinear_arith)
            requires
                -0x8_0000_0000_0000_0000 <= value <= 0x8_0000_0000_0000_0000,
                0 <= factor <= 0xffff_ffff,
        ;
    }
    value * (factor as i128)
}

/// The pattern candles of one run, in the order in which they matched.
#[derive(Debug, Clone)]
pub struct HammerPatternUtil {
    pub hammer_pattern_ledger: Vec<HammerCandle>,
}

impl View for HammerPatternUtil {
    type V = Seq<HammerCandle>;

    /// The pattern candles, oldest first.
    open spec fn view(&self) -> Seq<HammerCandle> {
        self.hammer_pattern_ledger@
    }
}

impl HammerPatternUtil {
    pub fn new() -> (util: HammerPatternUtil)
        ensures
            util@ == Seq::<HammerCandle>::empty(),
    {
        HammerPatternUtil { hammer_pattern_ledger: Vec::new() }
    }

    fn add_into_hammer_pattern_ledger(&mut self, candle: HammerCandle)
        ensures
            final(self)@ == old(self)@.push(candle),
    {
        self.hammer_pattern_ledger.push(candle);
    }

    /// A copy of the ledger.
    pub fn fetch_hammer_pattern_ledger(&self) -> (ledger: Vec<HammerCandle>)
        ensures
            ledger@ == self@,
    {
        let mut ledger: Vec<HammerCandle> = Vec::new();
        let mut i: usize = 0;
        while i < self.hammer_pattern_ledger.len()
            invariant
                i <= self.hammer_pattern_ledger.len(),
                ledger@ == self.hammer_pattern_ledger@.take(i as int),
            decreases self.hammer_pattern_ledger.len() - i,
        {
            ledger.push(self.hammer_pattern_ledger[i].duplicate());
            proof {
                assert(self.hammer_pattern_ledger@.take(i as int + 1)
                    == self.hammer_pattern_ledger@.take(i as int).push(
                    self.hammer_pattern_ledger@[i as int],
                ));
            }
            i += 1;
        }
        proof {
            assert(self.hammer_pattern_ledger@.take(self.hammer_pattern_ledger.len() as int)
                == self.hammer_pattern_ledger@);
        }
        ledger
    }

    /// Whether the shape of a candle is that of a hammer.
    pub fn calculate_standalone_hammer(open: i64, high: i64, low: i64, close: i64) -> (hammer: bool)
        ensures
            hammer == is_standalone_hammer(open as int, high as int, low as int, close as int),
    {
        let body: i128 = if open >= close {
            open as i128 - close as i128
        } else {
            close as i128 - open as i128
        };
        let lower: i128 = if open > close {
            close as i128 - low as i128
        } else {
            open as i128 - low as i128
        };
        let upper: i128 = if open > close {
            high as i128 - open as i128
        } else {
            high as i128 - close as i128
        };
        let range: i128 = high as i128 - low as i128;
        (range > 0 && 4 * body <= range && 10 * lower > 21 * upper) || (body > 0 && 4 * lower >= 7
            * body && 2 * upper <= 3 * body && lower > 2 * upper)
    }

    /// Whether a low stands at one of the support levels.
    pub fn calculate_around_support(levels: &Vec<i64>, low: i64, tolerance: u32) -> (around: bool)
        ensures
            around == is_around_support(levels@, low as int, tolerance as int),
    {
        let mut i: usize = 0;
        while i < levels.len()
            invariant
                i <= levels.len(),
                forall|j: int|
                    0 <= j < i ==> !is_on_support(#[trigger] levels@[j] as int, low as int, tolerance as int),
            decreases levels.len() - i,
        {
            let support_price: i64 = levels[i];
            if low < support_price {
                let distance: i128 = support_price as i128 - low as i128;
                let allowed: i128 = scaled(support_price as i128, tolerance);
                if distance * 1000000 <= allowed {
                    return true;
                }
            }
            i += 1;
        }
        false
    }

    /// Whether a candle matches, given the snapshot of its day.
    pub fn calculate_hammer_candle(
        stock: &RawStock,
        state: Option<&CurrentMarketState>,
        thresholds: &HammerThresholds,
    ) -> (matched: bool)
        ensures
            matched == is_hammer_match(*stock, state, *thresholds),
    {
        match state {
            None => false,
            Some(snapshot) => {
                let standalone = Self::calculate_standalone_hammer(
                    stock.open,
                    stock.high,
                    stock.low,
                    stock.close,
                );
                let around_support = Self::calculate_around_support(
                    &snapshot.support,
                    stock.low,
                    thresholds.lower_wick_horizontal_support_tolerance,
                );
                let after_drop = previous_drop_in_stock(
                    &snapshot.raw_stocks,
                    thresholds.max_drop_candle_count,
                    thresholds.max_drop_threshold_value,
                );
                let body: i128 = if stock.open >= stock.close {
                    stock.open as i128 - stock.close as i128
                } else {
                    stock.close as i128 - stock.open as i128
                };
                let lower: i128 = if stock.open > stock.close {
                    stock.close as i128 - stock.low as i128
                } else {
                    stock.open as i128 - stock.low as i128
                };
                let upper: i128 = if stock.open > stock.close {
                    stock.high as i128 - stock.open as i128
                } else {
                    stock.high as i128 - stock.close as i128
                };
                let promoted = after_drop && body > 0 && lower >= body && 10 * upper < 3 * body;
                let after_red_candles = snapshot.last_consecutive_red_candle_count
                    >= thresholds.red_candles_count_threshold;
                (standalone || promoted) && (around_support || after_drop || after_red_candles)
            },
        }
    }

    /// The body of a candle as a share of its range.
    pub fn calculate_body_size_ratio(open: i64, high: i64, low: i64, close: i64) -> (ratio: u128)
        ensures
            ratio == body_to_range_ratio(open as int, high as int, low as int, close as int),
    {
        let range: i128 = high as i128 - low as i128;
        if range <= 0 {
            return 0;
        }
        let body: u128 = RawStock::candle_body_size(open, close) as u128;
        let quotient: u128 = (body * 10000) / (range as u128);
        quotient
    }

    /// Whether a candle matches, its body as a share of its range, and
    /// whether it is green.
    pub fn calculate_candle_metadata(
        stock: &RawStock,
        state: Option<&CurrentMarketState>,
        thresholds: &HammerThresholds,
    ) -> (metadata: (bool, u128, bool))
        ensures
            metadata.0 == is_hammer_match(*stock, state, *thresholds),
            metadata.1 == body_to_range_ratio(
                stock.open as int,
                stock.high as int,
                stock.low as int,
                stock.close as int,
            ),
            metadata.2 == stock.is_green(),
    {
        let matched = Self::calculate_hammer_candle(stock, state, thresholds);
        let ratio = Self::calculate_body_size_ratio(stock.open, stock.high, stock.low, stock.close);
        let green = RawStock::calculate_if_green_candle(stock.open, stock.close);
        (matched, ratio, green)
    }

    /// The signal of the latest pattern candle, looked at at
    /// `evaluated_epoch`. `candle_epoch` is the moment of that candle.
    pub fn analyse_and_create_trading_signal(
        &self,
        thresholds: &HammerThresholds,
        candle_epoch: i64,
        evaluated_epoch: i64,
        created_at: String,
        signal_id: String,
    ) -> (signal: Option<TradeSignal>)
        ensures
            signal is Some <==> self@.len() > 0 && self@.last().gives_signal(
                *thresholds,
                candle_epoch,
                evaluated_epoch,
            ),
            signal is Some ==> signal.unwrap() == self@.last().signal(
                *thresholds,
                created_at,
                signal_id,
            ),
    {
        let count: usize = self.hammer_pattern_ledger.len();
        if count == 0 {
            return None;
        }
        let candle = &self.hammer_pattern_ledger[count - 1];
        if evaluated_epoch <= candle_epoch {
            return None;
        }
        let margin: i128 = thresholds.sl_margin_points as i128;
        let wick: i128 = if candle.is_green_candle {
            candle.open as i128 - candle.low as i128
        } else {
            candle.close as i128 - candle.low as i128
        };
        let entry: i128 = if candle.is_green_candle {
            candle.close as i128 - margin
        } else {
            candle.open as i128 - margin
        };
        let stop: i128 = entry - (wick + margin);
        let reach: i128 = if candle.is_green_candle {
            wick
        } else {
            wick + margin
        };
        let stretched: i128 = scaled(reach, thresholds.target_margin_multiplier);
        let target: i128 = entry + divide_toward_zero(stretched, 100);
        let low_end: i128 = i64::MIN as i128;
        let high_end: i128 = i64::MAX as i128;
        if entry <= 0 || entry > high_end || stop < low_end || stop > high_end || target < low_end
            || target > high_end {
            return None;
        }
        TradeSignal::create_trade_signal(
            candle.symbol.clone(),
            candle.date.clone(),
            candle.close,
            candle.high,
            candle.low,
            candle.open,
            candle.volume,
            candle.market_time_frame,
            TradeType::Long,
            AlgoTypes::HammerPatternAlgo,
            entry as i64,
            stop as i64,
            target as i64,
            candle.id.clone(),
            created_at,
            signal_id,
        )
    }

    /// Judges one candle whose moment and whose moment of evaluation are
    /// known. A match is added to the ledger, and gives a signal where
    /// `gives_signal` holds of it.
    pub fn evaluate(
        &mut self,
        stock: &RawStock,
        state: Option<&CurrentMarketState>,
        thresholds: &HammerThresholds,
        candle_epoch: i64,
        evaluated_epoch: i64,
        evaluated_at: &str,
        candle_id: String,
        signal_id: String,
    ) -> (signal: Option<TradeSignal>)
        ensures
            is_evaluation_of(
                old(self)@,
                final(self)@,
                signal,
                *stock,
                state,
                *thresholds,
                candle_epoch,
                evaluated_epoch,
                evaluated_at@,
                candle_id,
                signal_id,
            ),
    {
        let (matched, ratio, green) = Self::calculate_candle_metadata(stock, state, thresholds);
        if !matched {
            return None;
        }
        let candle = HammerCandle::new(
            stock.symbol.clone(),
            stock.date.clone(),
            stock.open,
            stock.high,
            stock.low,
            stock.close,
            stock.volume,
            stock.market_time_frame,
            green,
            matched,
            ratio,
            String::from_str(evaluated_at),
            candle_id,
        );
        self.add_into_hammer_pattern_ledger(candle);
        self.analyse_and_create_trading_signal(
            thresholds,
            candle_epoch,
            evaluated_epoch,
            String::from_str(evaluated_at),
            signal_id,
        )
    }

    /// Judges one candle at the moment `evaluated_at`. Where the candle's
    /// date or `evaluated_at` is no time stamp, the candle is skipped: the
    /// ledger stays as it is and there is no signal.
    pub fn calculate_and_add_ledger(
        &mut self,
        stock: &RawStock,
        state: Option<&CurrentMarketState>,
        thresholds: &HammerThresholds,
        evaluated_at: &str,
        candle_id: String,
        signal_id: String,
    ) -> (signal: Option<TradeSignal>)
        ensures
            is_dated_evaluation_of(
                old(self)@,
                final(self)@,
                signal,
                *stock,
                state,
                *thresholds,
                evaluated_at@,
                candle_id,
                signal_id,
            ),
    {
        let candle_moment = parse_stock_datetime(stock.date.as_str());
        let evaluated_moment = parse_stock_datetime(evaluated_at);
        match (candle_moment, evaluated_moment) {
            (Some(candle_stamp), Some(evaluated_stamp)) => self.evaluate(
                stock,
                state,
                thresholds,
                candle_stamp.epoch_seconds,
                evaluated_stamp.epoch_seconds,
                evaluated_at,
                candle_id,
                signal_id,
            ),
            _ => None,
        }
    }
}

/// Detection reads of the snapshot only its support levels, its candles and
/// its count of red candles: two snapshots that agree on these give the same
/// verdict on the same candle, whatever else they hold.
pub proof fn lemma_detection_is_a_function_of_its_inputs(
    stock: RawStock,
    first: &CurrentMarketState,
    second: &CurrentMarketState,
    thresholds: HammerThresholds,
)
    requires
        first.support@ == second.support@,
        first.raw_stocks@ == second.raw_stocks@,
        first.last_consecutive_red_candle_count == second.last_consecutive_red_candle_count,
    ensures
        is_hammer_match(stock, Some(first), thresholds) == is_hammer_match(
            stock,
            Some(second),
            thresholds,
        ),
{
}

} // verus!
