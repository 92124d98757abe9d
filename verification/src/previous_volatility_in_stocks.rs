//! Sharp moves in the candles just before the latest one.

use vstd::prelude::*;
use crate::raw_stock::RawStock;

verus! {

/// The highest open of a run of candles, and zero where none is above zero.
pub open spec fn max_open(stocks: Seq<RawStock>) -> int
    decreases stocks.len(),
{
    if stocks.len() == 0 {
        0
    } else {
        let rest = max_open(stocks.drop_last());
        if stocks.last().open > rest {
            stocks.last().open as int
        } else {
            rest
        }
    }
}

/// The lowest open of a run of candles that is not empty.
pub open spec fn min_open(stocks: Seq<RawStock>) -> int
    decreases stocks.len(),
{
    if stocks.len() <= 1 {
        if stocks.len() == 1 {
            stocks[0].open as int
        } else {
            0
        }
    } else {
        let rest = min_open(stocks.drop_last());
        if stocks.last().open < rest {
            stocks.last().open as int
        } else {
            rest
        }
    }
}

/// Where the window of candles before the latest one starts.
pub open spec fn window_start(len: int, max_depth_count: int) -> int {
    if len - 1 - max_depth_count > 0 {
        len - 1 - max_depth_count
    } else {
        0
    }
}

/// The candles before the latest one, at most `max_depth_count` of them.
pub open spec fn previous_window(stocks: Seq<RawStock>, max_depth_count: int) -> Seq<RawStock> {
    if stocks.len() == 0 {
        Seq::<RawStock>::empty()
    } else {
        stocks.subrange(window_start(stocks.len() as int, max_depth_count), stocks.len() - 1)
    }
}

/// The close of the candle just before the latest one, zero where there is none.
pub open spec fn previous_close(stocks: Seq<RawStock>) -> int {
    if stocks.len() >= 2 {
        stocks[stocks.len() - 2].close as int
    } else {
        0
    }
}

/// A drop: the highest open of the window stands above the previous close
/// by more than the threshold.
pub open spec fn is_previous_drop(
    stocks: Seq<RawStock>,
    max_depth_count: int,
    threshold_depth_value: int,
) -> bool {
    max_open(previous_window(stocks, max_depth_count)) - previous_close(stocks)
        > threshold_depth_value
}

/// A peak: the previous close stands above the lowest open of the window by
/// more than the threshold. Without a candle before the latest there is none.
pub open spec fn is_previous_peak(
    stocks: Seq<RawStock>,
    max_depth_count: int,
    threshold_depth_value: int,
) -> bool {
    let window = previous_window(stocks, max_depth_count);
    window.len() > 0 && previous_close(stocks) - min_open(window) > threshold_depth_value
}

proof fn lemma_window_grows(stocks: Seq<RawStock>, lo: int, i: int)
    requires
        0 <= lo <= i < stocks.len(),
    ensures
        stocks.subrange(lo, i + 1).drop_last() == stocks.subrange(lo, i),
        stocks.subrange(lo, i + 1).last() == stocks[i],
{
}

/// Whether the price dropped by more than `threshold_depth_value` over the
/// `max_depth_count` candles before the latest one.
pub fn previous_drop_in_stock(
    stocks: &Vec<RawStock>,
    max_depth_count: usize,
    threshold_depth_value: i64,
) -> (dropped: bool)
    ensures
        dropped == is_previous_drop(stocks@, max_depth_count as int, threshold_depth_value as int),
{
    let len: usize = stocks.len();
    if len == 0 {
        return 0 > threshold_depth_value;
    }
    let end: usize = len - 1;
    let start: usize = if end > max_depth_count {
        end - max_depth_count
    } else {
        0
    };
    let mut highest: i64 = 0;
    let mut i: usize = start;
    while i < end
        invariant
            start <= i <= end,
            end == stocks.len() - 1,
            highest == max_open(stocks@.subrange(start as int, i as int)),
        decreases end - i,
    {
        proof {
            lemma_window_grows(stocks@, start as int, i as int);
        }
        if stocks[i].open > highest {
            highest = stocks[i].open;
        }
        i += 1;
    }
    let before: i64 = if len >= 2 {
        stocks[len - 2].close
    } else {
        0
    };
    highest as i128 - before as i128 > threshold_depth_value as i128
}

/// Whether the price rose by more than `threshold_depth_value` over the
/// `max_depth_count` candles before the latest one.
pub fn previous_peak_in_stocks(
    stocks: &Vec<RawStock>,
    max_depth_count: usize,
    threshold_depth_value: i64,
) -> (peaked: bool)
    ensures
        peaked == is_previous_peak(stocks@, max_depth_count as int, threshold_depth_value as int),
{
    let len: usize = stocks.len();
    if len == 0 {
        return false;
    }
    let end: usize = len - 1;
    let start: usize = if end > max_depth_count {
        end - max_depth_count
    } else {
        0
    };
    if start >= end {
        return false;
    }
    let mut lowest: i64 = stocks[start].open;
    let mut i: usize = start + 1;
    proof {
        assert(stocks@.subrange(start as int, start as int + 1).len() == 1);
        assert(stocks@.subrange(start as int, start as int + 1)[0] == stocks@[start as int]);
    }
    while i < end
        invariant
            start < i <= end,
            end == stocks.len() - 1,
            lowest == min_open(stocks@.subrange(start as int, i as int)),
        decreases end - i,
    {
        proof {
            lemma_window_grows(stocks@, start as int, i as int);
        }
        if stocks[i].open < lowest {
            lowest = stocks[i].open;
        }
        i += 1;
    }
    let before: i64 = stocks[len - 2].close;
    before as i128 - lowest as i128 > threshold_depth_value as i128
}

} // verus!
