//! The shooting star: the hammer turned upside down, a candle with a long
//! upper wick.

use vstd::prelude::*;
use vstd::string::*;
use crate::hammer_pattern::{body_to_range_ratio, HammerPatternUtil};
use crate::raw_stock::{body_size, lower_wick, upper_wick, RawStock};

verus! {

#[derive(Debug, Clone, PartialEq, Eq)]
pub struct ShootingStarPattern {
    pub date: String,
    pub open: i64,
    pub high: i64,
    pub low: i64,
    pub close: i64,
    pub volume: u32,
    pub is_green_candle: bool,
    pub is_shooting_star: bool,
    /// The body as a share of the whole candle, in hundredths of a percent.
    pub body_size_ratio: u128,
    pub identified_at: String,
}

/// The shape of a shooting star, one of two. The body is at most a quarter of
/// the range and the upper wick more than 2.1 times the lower one; or the
/// upper wick is at least 1.75 bodies, the lower wick at most 1.5 bodies, and
/// the upper wick more than twice the lower one.
pub open spec fn is_shooting_star(open: int, high: int, low: int, close: int) -> bool {
    let body = body_size(open, close);
    let lower = lower_wick(open, low, close);
    let upper = upper_wick(open, high, close);
    ||| (high - low > 0 && 4 * body <= high - low && 10 * upper > 21 * lower)
    ||| (body > 0 && 4 * upper >= 7 * body && 2 * lower <= 3 * body && upper > 2 * lower)
}

impl ShootingStarPattern {
    pub fn new(
        date: String,
        open: i64,
        high: i64,
        low: i64,
        close: i64,
        volume: u32,
        is_green_candle: bool,
        is_shooting_star: bool,
        body_size_ratio: u128,
        identified_at: String,
    ) -> (pattern: ShootingStarPattern)
        ensures
            pattern == (ShootingStarPattern {
                date,
                open,
                high,
                low,
                close,
                volume,
                is_green_candle,
                is_shooting_star,
                body_size_ratio,
                identified_at,
            }),
    {
        ShootingStarPattern {
            date,
            open,
            high,
            low,
            close,
            volume,
            is_green_candle,
            is_shooting_star,
            body_size_ratio,
            identified_at,
        }
    }

    pub fn update_shooting_star(&mut self, is_shooting_star: bool)
        ensures
            *final(self) == (ShootingStarPattern { is_shooting_star, ..*old(self) }),
    {
        self.is_shooting_star = is_shooting_star;
    }

    pub fn update_body_size_ratio(&mut self, body_size_ratio: u128)
        ensures
            *final(self) == (ShootingStarPattern { body_size_ratio, ..*old(self) }),
    {
        self.body_size_ratio = body_size_ratio;
    }

    pub fn update_is_green_candle(&mut self, is_green_candle: bool)
        ensures
            *final(self) == (ShootingStarPattern { is_green_candle, ..*old(self) }),
    {
        self.is_green_candle = is_green_candle;
    }
}

/// Whether the shape of a candle is that of a shooting star.
pub fn calculate_shooting_star_candle(open: i64, high: i64, low: i64, close: i64) -> (star: bool)
    ensures
        star == is_shooting_star(open as int, high as int, low as int, close as int),
{
    let body: i128 = if open >= close {
        open as i128 - close as i128
    } else {
        close as i128 - open as i128
    };
    let lower: i128 = if open > close {
        close as i128 - low as i128
    } else {
        open as i128 - low as i128
    };
    let upper: i128 = if open > close {
        high as i128 - open as i128
    } else {
        high as i128 - close as i128
    };
    let range: i128 = high as i128 - low as i128;
    (range > 0 && 4 * body <= range && 10 * upper > 21 * lower) || (body > 0 && 4 * upper >= 7
        * body && 2 * lower <= 3 * body && upper > 2 * lower)
}

/// Judges one candle: the pattern candle of a shooting star, and nothing of
/// any other candle.
pub fn tick_receiver(stock: &RawStock, identified_at: String) -> (pattern: Option<ShootingStarPattern>)
    ensures
        pattern is Some <==> is_shooting_star(
            stock.open as int,
            stock.high as int,
            stock.low as int,
            stock.close as int,
        ),
        pattern is Some ==> pattern.unwrap() == (ShootingStarPattern {
            date: stock.date,
            open: stock.open,
            high: stock.high,
            low: stock.low,
            close: stock.close,
            volume: stock.volume,
            is_green_candle: stock.is_green(),
            is_shooting_star: true,
            body_size_ratio: body_to_range_ratio(
                stock.open as int,
                stock.high as int,
                stock.low as int,
                stock.close as int,
            ) as u128,
            identified_at,
        }),
{
    if !calculate_shooting_star_candle(stock.open, stock.high, stock.low, stock.close) {
        return None;
    }
    let ratio = HammerPatternUtil::calculate_body_size_ratio(
        stock.open,
        stock.high,
        stock.low,
        stock.close,
    );
    Some(
        ShootingStarPattern::new(
            stock.date.clone(),
            stock.open,
            stock.high,
            stock.low,
            stock.close,
            stock.volume,
            RawStock::calculate_if_green_candle(stock.open, stock.close),
            true,
            ratio,
            identified_at,
        ),
    )
}

} // verus!
