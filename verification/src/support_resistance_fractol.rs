//! Support and resistance by a scan for pivots.
//!
//! A candle is a pivot low when no candle within the pivot depth, on either
//! side, has a lower low; a pivot high likewise with the highs. A candle can
//! be judged once as many candles as the depth stand on each side of it.

use vstd::prelude::*;
use crate::raw_stock::RawStock;

verus! {

/// Whether the candle at `pivot` can be judged: enough candles stand before
/// it and after it.
pub open spec fn is_pivot_candidate(len: int, pivot_depth: int, pivot: int) -> bool {
    0 <= pivot_depth <= pivot && pivot + pivot_depth < len
}

pub open spec fn is_local_minimum(stocks: Seq<RawStock>, pivot_depth: int, pivot: int) -> bool {
    forall|k: int|
        1 <= k <= pivot_depth ==> stocks[pivot].low <= (#[trigger] stocks[pivot - k]).low
            && stocks[pivot].low <= stocks[pivot + k].low
}

pub open spec fn is_local_maximum(stocks: Seq<RawStock>, pivot_depth: int, pivot: int) -> bool {
    forall|k: int|
        1 <= k <= pivot_depth ==> stocks[pivot].high >= (#[trigger] stocks[pivot - k]).high
            && stocks[pivot].high >= stocks[pivot + k].high
}

/// The lows of the pivot lows among the first `count` candles, in order.
pub open spec fn support_levels_upto(stocks: Seq<RawStock>, pivot_depth: int, count: nat) -> Seq<i64>
    decreases count,
{
    if count == 0 {
        Seq::<i64>::empty()
    } else {
        let before = support_levels_upto(stocks, pivot_depth, (count - 1) as nat);
        let pivot = count - 1;
        if is_pivot_candidate(stocks.len() as int, pivot_depth, pivot) && is_local_minimum(
            stocks,
            pivot_depth,
            pivot,
        ) {
            before.push(stocks[pivot].low)
        } else {
            before
        }
    }
}

/// The highs of the pivot highs among the first `count` candles, in order.
pub open spec fn resistance_levels_upto(stocks: Seq<RawStock>, pivot_depth: int, count: nat) -> Seq<
    i64,
>
    decreases count,
{
    if count == 0 {
        Seq::<i64>::empty()
    } else {
        let before = resistance_levels_upto(stocks, pivot_depth, (count - 1) as nat);
        let pivot = count - 1;
        if is_pivot_candidate(stocks.len() as int, pivot_depth, pivot) && is_local_maximum(
            stocks,
            pivot_depth,
            pivot,
        ) {
            before.push(stocks[pivot].high)
        } else {
            before
        }
    }
}

pub open spec fn support_levels(stocks: Seq<RawStock>, pivot_depth: int) -> Seq<i64> {
    support_levels_upto(stocks, pivot_depth, stocks.len())
}

pub open spec fn resistance_levels(stocks: Seq<RawStock>, pivot_depth: int) -> Seq<i64> {
    resistance_levels_upto(stocks, pivot_depth, stocks.len())
}

fn is_local_minima(stocks: &Vec<RawStock>, pivot_depth: usize, pivot_index: usize) -> (found: bool)
    requires
        is_pivot_candidate(stocks@.len() as int, pivot_depth as int, pivot_index as int),
    ensures
        found == is_local_minimum(stocks@, pivot_depth as int, pivot_index as int),
{
    let len: usize = stocks.len();
    let mut k: usize = 1;
    while k <= pivot_depth
        invariant
            1 <= k <= pivot_depth + 1,
            len == stocks@.len(),
            is_pivot_candidate(stocks@.len() as int, pivot_depth as int, pivot_index as int),
            forall|j: int|
                1 <= j < k ==> stocks@[pivot_index as int].low <= (#[trigger] stocks@[pivot_index
                    - j]).low && stocks@[pivot_index as int].low <= stocks@[pivot_index + j].low,
        decreases pivot_depth + 1 - k,
    {
        if stocks[pivot_index].low > stocks[pivot_index - k].low || stocks[pivot_index].low
            > stocks[pivot_index + k].low {
            proof {
                let nearer = stocks@[pivot_index - k];
                assert(!is_local_minimum(stocks@, pivot_depth as int, pivot_index as int));
            }
            return false;
        }
        k += 1;
    }
    true
}

fn is_local_maxima(stocks: &Vec<RawStock>, pivot_depth: usize, pivot_index: usize) -> (found: bool)
    requires
        is_pivot_candidate(stocks@.len() as int, pivot_depth as int, pivot_index as int),
    ensures
        found == is_local_maximum(stocks@, pivot_depth as int, pivot_index as int),
{
    let len: usize = stocks.len();
    let mut k: usize = 1;
    while k <= pivot_depth
        invariant
            1 <= k <= pivot_depth + 1,
            len == stocks@.len(),
            is_pivot_candidate(stocks@.len() as int, pivot_depth as int, pivot_index as int),
            forall|j: int|
                1 <= j < k ==> stocks@[pivot_index as int].high >= (#[trigger] stocks@[pivot_index
                    - j]).high && stocks@[pivot_index as int].high >= stocks@[pivot_index + j].high,
        decreases pivot_depth + 1 - k,
    {
        if stocks[pivot_index].high < stocks[pivot_index + k].high || stocks[pivot_index].high
            < stocks[pivot_index - k].high {
            proof {
                let nearer = stocks@[pivot_index - k];
                assert(!is_local_maximum(stocks@, pivot_depth as int, pivot_index as int));
            }
            return false;
        }
        k += 1;
    }
    true
}

/// The support and the resistance levels of a day's candles: the lows of its
/// pivot lows and the highs of its pivot highs, each in the candles' order.
pub fn find_support_resistance(stocks: &Vec<RawStock>, pivot_depth: usize) -> (levels: (
    Vec<i64>,
    Vec<i64>,
))
    ensures
        levels.0@ == support_levels(stocks@, pivot_depth as int),
        levels.1@ == resistance_levels(stocks@, pivot_depth as int),
{
    let mut support: Vec<i64> = Vec::new();
    let mut resistance: Vec<i64> = Vec::new();
    let len: usize = stocks.len();
    let mut pivot: usize = 0;
    while pivot < len
        invariant
            pivot <= len,
            len == stocks@.len(),
            support@ == support_levels_upto(stocks@, pivot_depth as int, pivot as nat),
            resistance@ == resistance_levels_upto(stocks@, pivot_depth as int, pivot as nat),
        decreases len - pivot,
    {
        let candidate: bool = pivot_depth <= pivot && pivot_depth < len - pivot;
        if candidate {
            if is_local_minima(stocks, pivot_depth, pivot) {
                support.push(stocks[pivot].low);
            }
            if is_local_maxima(stocks, pivot_depth, pivot) {
                resistance.push(stocks[pivot].high);
            }
        }
        pivot += 1;
    }
    (support, resistance)
}

} // verus!
