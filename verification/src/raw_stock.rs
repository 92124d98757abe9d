//! Candles, and the ledger of the candles seen in one run.

use vstd::prelude::*;
use crate::enums::TimeFrame;

verus! {

/// One price bar of a symbol. Prices are whole numbers of price ticks.
#[derive(Debug, Clone, PartialEq, Eq)]
pub struct RawStock {
    pub symbol: String,
    pub date: String,
    pub close: i64,
    pub high: i64,
    pub low: i64,
    pub open: i64,
    pub volume: u32,
    pub market_time_frame: TimeFrame,
}

/// The distance between the open and the close.
pub open spec fn body_size(open: int, close: int) -> int {
    if open >= close {
        open - close
    } else {
        close - open
    }
}

/// The wick below the body.
pub open spec fn lower_wick(open: int, low: int, close: int) -> int {
    if open > close {
        close - low
    } else {
        open - low
    }
}

/// The wick above the body.
pub open spec fn upper_wick(open: int, high: int, close: int) -> int {
    if open > close {
        high - open
    } else {
        high - close
    }
}

/// Whether a value can be held as a price.
pub open spec fn fits_price(value: int) -> bool {
    i64::MIN <= value <= i64::MAX
}

/// The quotient of a division that rounds toward zero.
pub open spec fn quotient_toward_zero(value: int, divisor: int) -> int
    recommends
        divisor > 0,
{
    if value >= 0 {
        value / divisor
    } else {
        -((-value) / divisor)
    }
}

/// Divides and rounds toward zero.
pub fn divide_toward_zero(value: i128, divisor: i128) -> (quotient: i128)
    requires
        divisor > 0,
        value > i128::MIN,
    ensures
        quotient == quotient_toward_zero(value as int, divisor as int),
        value >= 0 ==> 0 <= quotient <= value,
        value < 0 ==> value <= quotient <= 0,
{
    if value >= 0 {
        let positive: u128 = value as u128;
        let step: u128 = divisor as u128;
        let q: u128 = positive / step;
        proof {
            vstd::arithmetic::div_mod::lemma_div_is_ordered_by_denominator(positive as int, 1, step as int);
            vstd::arithmetic::div_mod::lemma_div_pos_is_pos(positive as int, step as int);
        }
        q as i128
    } else {
        let positive: u128 = (-value) as u128;
        let step: u128 = divisor as u128;
        let q: u128 = positive / step;
        proof {
            vstd::arithmetic::div_mod::lemma_div_is_ordered_by_denominator(positive as int, 1, step as int);
            vstd::arithmetic::div_mod::lemma_div_pos_is_pos(positive as int, step as int);
        }
        -(q as i128)
    }
}

impl RawStock {
    pub fn new(
        symbol: String,
        date: String,
        close: i64,
        high: i64,
        low: i64,
        open: i64,
        volume: u32,
        market_time_frame: TimeFrame,
    ) -> (stock: RawStock)
        ensures
            stock == (RawStock { symbol, date, close, high, low, open, volume, market_time_frame }),
    {
        RawStock { symbol, date, close, high, low, open, volume, market_time_frame }
    }

    /// A second candle with the same fields.
    pub fn duplicate(&self) -> (copy: RawStock)
        ensures
            copy == *self,
    {
        RawStock {
            symbol: self.symbol.clone(),
            date: self.date.clone(),
            close: self.close,
            high: self.high,
            low: self.low,
            open: self.open,
            volume: self.volume,
            market_time_frame: self.market_time_frame,
        }
    }

    /// The size of the body between two prices.
    pub fn candle_body_size(open: i64, close: i64) -> (size: u64)
        ensures
            size == body_size(open as int, close as int),
    {
        if open >= close {
            (open as i128 - close as i128) as u64
        } else {
            (close as i128 - open as i128) as u64
        }
    }

    /// A candle is green when it closed above its open.
    pub fn calculate_if_green_candle(open: i64, close: i64) -> (green: bool)
        ensures
            green == (open < close),
    {
        open < close
    }

    pub open spec fn is_green(&self) -> bool {
        self.open < self.close
    }

    pub open spec fn is_red(&self) -> bool {
        self.close < self.open
    }
}

/// The candles of one run, in the order of their arrival.
#[derive(Debug, Clone)]
pub struct RawStockLedger {
    pub raw_stocks: Vec<RawStock>,
}

impl View for RawStockLedger {
    type V = Seq<RawStock>;

    /// The candles, oldest first.
    open spec fn view(&self) -> Seq<RawStock> {
        self.raw_stocks@
    }
}

impl RawStockLedger {
    pub fn new() -> (ledger: RawStockLedger)
        ensures
            ledger@ == Seq::<RawStock>::empty(),
    {
        RawStockLedger { raw_stocks: Vec::new() }
    }

    pub fn get_raw_stocks(&self) -> (stocks: &Vec<RawStock>)
        ensures
            stocks@ == self@,
    {
        &self.raw_stocks
    }

    pub fn add_raw_stock(&mut self, raw_stock: RawStock)
        ensures
            final(self)@ == old(self)@.push(raw_stock),
    {
        self.raw_stocks.push(raw_stock);
    }
}

/// Copies a run of candles.
pub fn duplicate_stocks(stocks: &Vec<RawStock>) -> (copy: Vec<RawStock>)
    ensures
        copy@ == stocks@,
{
    let mut copy: Vec<RawStock> = Vec::new();
    let mut i: usize = 0;
    while i < stocks.len()
        invariant
            i <= stocks.len(),
            copy@ == stocks@.take(i as int),
        decreases stocks.len() - i,
    {
        copy.push(stocks[i].duplicate());
        proof {
            assert(stocks@.take(i as int + 1) == stocks@.take(i as int).push(stocks@[i as int]));
        }
        i += 1;
    }
    proof {
        assert(stocks@.take(stocks.len() as int) == stocks@);
    }
    copy
}

} // verus!
