//! Time stamps of candles.
//!
//! A candle carries its time as text, `2022-10-18 09:30:00+05:30`. The
//! calendar is chrono's: one private function hands the text to it and
//! brings back plain values, and everything else here works on those.

use vstd::prelude::*;
use vstd::string::*;
use crate::raw_stock::{divide_toward_zero, quotient_toward_zero};

verus! {

/// What a time stamp says, as plain values.
#[derive(Debug, Clone, PartialEq, Eq)]
pub struct StockDateTime {
    /// Seconds since the start of 1970, UTC.
    pub epoch_seconds: i64,
    /// Seconds since midnight on the clock of the stamp's own offset.
    pub seconds_of_day: u32,
    /// The day on that clock, as `2022_10_18`.
    pub date_key: String,
    /// The day on that clock, counted from the first day of the year 1.
    pub day_number: i32,
    /// The day of the week on that clock, counted from Monday as 0.
    pub weekday: u32,
}

/// What chrono reads in a time stamp of the form `%Y-%m-%d %H:%M:%S%z`: the
/// instant, the seconds since local midnight, the local day written as
/// `%Y_%m_%d`, the number of that day and its day of the week; nothing where
/// the text has another form.
pub uninterp spec fn parsed_stock_datetime(text: Seq<char>) -> Option<
    (i64, u32, Seq<char>, i32, u32),
>;

/// Whether a text is a time stamp.
pub open spec fn is_stock_datetime(text: Seq<char>) -> bool {
    parsed_stock_datetime(text) is Some
}

/// The instant of a time stamp, in seconds since the start of 1970.
pub open spec fn stock_epoch_seconds(text: Seq<char>) -> Option<i64> {
    match parsed_stock_datetime(text) {
        Some(parts) => Some(parts.0),
        None => None,
    }
}

/// The seconds since midnight of a time stamp.
pub open spec fn stock_seconds_of_day(text: Seq<char>) -> Option<u32> {
    match parsed_stock_datetime(text) {
        Some(parts) => Some(parts.1),
        None => None,
    }
}

/// The day of a time stamp, as it stands in cache keys.
pub open spec fn stock_date_key(text: Seq<char>) -> Option<Seq<char>> {
    match parsed_stock_datetime(text) {
        Some(parts) => Some(parts.2),
        None => None,
    }
}

/// The values of a time stamp, as `parsed_stock_datetime` names them.
pub open spec fn stamp_values(stamp: StockDateTime) -> (i64, u32, Seq<char>, i32, u32) {
    (stamp.epoch_seconds, stamp.seconds_of_day, stamp.date_key@, stamp.day_number, stamp.weekday)
}

/// chrono's `DateTime::parse_from_str` with the format
/// `%Y-%m-%d %H:%M:%S%z`. Of a text that it accepts, the result holds
/// `timestamp()`, `time().num_seconds_from_midnight()`, the text that
/// `format("%Y_%m_%d")` writes, and of `date_naive()` both
/// `num_days_from_ce()` and `weekday().num_days_from_monday()`. The contract
/// claims that these are the values named by `parsed_stock_datetime` for the
/// same text, and that the day of the week is one of seven.
#[verifier::external_body]
fn read_stock_datetime(date: &str) -> (parsed: Option<StockDateTime>)
    ensures
        match parsed {
            Some(stamp) => parsed_stock_datetime(date@) == Some(stamp_values(stamp))
                && stamp.weekday < 7,
            None => parsed_stock_datetime(date@) is None,
        },
{
    match chrono::DateTime::parse_from_str(date, "%Y-%m-%d %H:%M:%S%z") {
        Ok(moment) => Some(
            StockDateTime {
                epoch_seconds: moment.timestamp(),
                seconds_of_day: chrono::Timelike::num_seconds_from_midnight(&moment.time()),
                date_key: moment.format("%Y_%m_%d").to_string(),
                day_number: chrono::Datelike::num_days_from_ce(&moment.date_naive()),
                weekday: chrono::Datelike::weekday(&moment.date_naive()).num_days_from_monday(),
            },
        ),
        Err(_) => None,
    }
}

/// Reads a time stamp.
pub fn parse_stock_datetime(date: &str) -> (parsed: Option<StockDateTime>)
    ensures
        match parsed {
            Some(stamp) => parsed_stock_datetime(date@) == Some(stamp_values(stamp))
                && stamp.weekday < 7,
            None => !is_stock_datetime(date@),
        },
{
    read_stock_datetime(date)
}

/// Hands a time stamp back where it is one, and says so where it is not.
pub fn parse_date_in_stock_format(date: &str) -> (checked: Result<String, String>)
    ensures
        checked is Ok <==> is_stock_datetime(date@),
        match checked {
            Ok(text) => text@ == date@,
            Err(message) => message@ == "Error parsing date: "@ + date@,
        },
{
    match read_stock_datetime(date) {
        Some(_) => Ok(String::from_str(date)),
        None => {
            let mut message = String::from_str("Error parsing date: ");
            message.append(date);
            Err(message)
        },
    }
}

/// Whether the first time stamp is later than the second. Nothing where one
/// of them is no time stamp.
pub fn is_date1_greater_than_date2(date1: &str, date2: &str) -> (later: Option<bool>)
    ensures
        later == match (stock_epoch_seconds(date1@), stock_epoch_seconds(date2@)) {
            (Some(first), Some(second)) => Some(first > second),
            _ => None,
        },
{
    let first = read_stock_datetime(date1);
    let second = read_stock_datetime(date2);
    match (first, second) {
        (Some(a), Some(b)) => Some(a.epoch_seconds > b.epoch_seconds),
        _ => None,
    }
}

/// The seconds from the second time stamp to the first. Nothing where one of
/// them is no time stamp, or where the difference cannot be held.
pub fn date_time_difference_in_seconds(date1: &str, date2: &str) -> (seconds: Option<i64>)
    ensures
        seconds == match (stock_epoch_seconds(date1@), stock_epoch_seconds(date2@)) {
            (Some(first), Some(second)) => if i64::MIN <= first - second <= i64::MAX {
                Some((first - second) as i64)
            } else {
                None
            },
            _ => None,
        },
{
    let first = read_stock_datetime(date1);
    let second = read_stock_datetime(date2);
    match (first, second) {
        (Some(a), Some(b)) => {
            let difference: i128 = a.epoch_seconds as i128 - b.epoch_seconds as i128;
            if difference >= i64::MIN as i128 && difference <= i64::MAX as i128 {
                Some(difference as i64)
            } else {
                None
            }
        },
        _ => None,
    }
}

/// The day of a time stamp as it stands in cache keys, `2022_10_18`.
pub fn return_only_date_from_datetime(date: &str) -> (day: Option<String>)
    ensures
        match day {
            Some(text) => stock_date_key(date@) == Some(text@),
            None => stock_date_key(date@) is None,
        },
{
    match read_stock_datetime(date) {
        Some(stamp) => Some(stamp.date_key),
        None => None,
    }
}

/// The time of day of a time stamp, in seconds since midnight.
pub fn return_only_time_from_datetime(date: &str) -> (time: Option<u32>)
    ensures
        time == stock_seconds_of_day(date@),
{
    match read_stock_datetime(date) {
        Some(stamp) => Some(stamp.seconds_of_day),
        None => None,
    }
}

/// Whether both times are known and the first is later than the second.
pub fn if_first_time_greater_than_second_time(
    first_time: Option<u32>,
    second_time: Option<u32>,
) -> (later: bool)
    ensures
        later == (first_time is Some && second_time is Some && first_time.unwrap()
            > second_time.unwrap()),
{
    match (first_time, second_time) {
        (Some(first), Some(second)) => first > second,
        _ => false,
    }
}

/// How many days, each a whole day after the one before, start at the first
/// instant and are not after the second.
pub open spec fn day_count(first_epoch: int, second_epoch: int) -> nat {
    if first_epoch > second_epoch {
        0
    } else {
        ((second_epoch - first_epoch) / 86400 + 1) as nat
    }
}

/// Of `count` days in a row, those from Monday to Friday, by their numbers.
/// The first day has the number `first_day` and is the `first_weekday`-th day
/// after a Monday.
pub open spec fn trading_days(first_day: int, first_weekday: int, count: nat) -> Seq<i64>
    decreases count,
{
    if count == 0 {
        Seq::<i64>::empty()
    } else {
        let before = trading_days(first_day, first_weekday, (count - 1) as nat);
        if (first_weekday + count - 1) % 7 < 5 {
            before.push((first_day + count - 1) as i64)
        } else {
            before
        }
    }
}

/// The days between two time stamps. With `returns_days`, the days from
/// Monday to Friday among those that start at the first time stamp and are
/// not after the second, by their numbers, and how many they are. Without,
/// only the whole days from the second time stamp to the first, rounded
/// toward zero. Nothing where one of the two is no time stamp.
pub fn return_days_between_dates(date1: &str, date2: &str, returns_days: bool) -> (days: Option<
    (i64, Option<Vec<i64>>),
>)
    ensures
        match (parsed_stock_datetime(date1@), parsed_stock_datetime(date2@)) {
            (Some(first), Some(second)) => {
                &&& days is Some
                &&& if returns_days {
                    &&& days.unwrap().1 is Some
                    &&& days.unwrap().1.unwrap()@ == trading_days(
                        first.3 as int,
                        first.4 as int,
                        day_count(first.0 as int, second.0 as int),
                    )
                    &&& days.unwrap().0 == days.unwrap().1.unwrap()@.len()
                } else {
                    &&& days.unwrap().1 is None
                    &&& days.unwrap().0 == quotient_toward_zero(first.0 - second.0, 86400)
                }
            },
            _ => days is None,
        },
{
    let first = match read_stock_datetime(date1) {
        Some(stamp) => stamp,
        None => {
            return None;
        },
    };
    let second = match read_stock_datetime(date2) {
        Some(stamp) => stamp,
        None => {
            return None;
        },
    };
    if !returns_days {
        let apart: i128 = first.epoch_seconds as i128 - second.epoch_seconds as i128;
        let whole: i128 = divide_toward_zero(apart, 86400);
        return Some((whole as i64, None));
    }
    let count: u64 = if first.epoch_seconds > second.epoch_seconds {
        0
    } else {
        let apart: u128 = (second.epoch_seconds as i128 - first.epoch_seconds as i128) as u128;
        (apart / 86400 + 1) as u64
    };
    let mut found: Vec<i64> = Vec::new();
    let mut k: u64 = 0;
    while k < count
        invariant
            k <= count,
            count <= 0x1_0000_0000_0000,
            first.weekday < 7,
            found@ == trading_days(first.day_number as int, first.weekday as int, k as nat),
            found@.len() <= k,
        decreases count - k,
    {
        if (first.weekday as u64 + k) % 7 < 5 {
            found.push(first.day_number as i64 + k as i64);
        }
        k += 1;
    }
    let total: usize = found.len();
    Some((total as i64, Some(found)))
}

/// Seconds since midnight of a time on the clock.
pub open spec fn clock_seconds(hour: int, minute: int, second: int) -> int {
    hour * 3600 + minute * 60 + second
}

/// The session: trading starts at 09:15:00 and ends at 15:25:00.
pub fn return_trading_start_end_time() -> (session: (u32, u32))
    ensures
        session.0 == clock_seconds(9, 15, 0),
        session.1 == clock_seconds(15, 25, 0),
{
    (33300, 55500)
}

} // verus!
