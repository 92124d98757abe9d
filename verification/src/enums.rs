//! The small closed vocabularies shared by every component.

use vstd::prelude::*;
use vstd::string::*;

verus! {

/// The pattern families that can produce trade signals.
#[derive(Debug, Clone, Copy, PartialEq, Eq, Structural)]
pub enum AlgoTypes {
    HammerPatternAlgo,
    ShootingStarPatternAlgo,
}

impl AlgoTypes {
    /// The text under which the algorithm appears in keys and records.
    pub open spec fn label(self) -> Seq<char> {
        match self {
            AlgoTypes::HammerPatternAlgo => "HammerPatternAlgo"@,
            AlgoTypes::ShootingStarPatternAlgo => "ShootingStarPatternAlgo"@,
        }
    }

    pub fn to_string(&self) -> (text: String)
        ensures
            text@ == self.label(),
    {
        match self {
            AlgoTypes::HammerPatternAlgo => String::from_str("HammerPatternAlgo"),
            AlgoTypes::ShootingStarPatternAlgo => String::from_str("ShootingStarPatternAlgo"),
        }
    }
}

/// The side of a position.
#[derive(Debug, Clone, Copy, PartialEq, Eq, Structural)]
pub enum TradeType {
    Long,
    Short,
}

impl TradeType {
    pub open spec fn label(self) -> Seq<char> {
        match self {
            TradeType::Long => "Long"@,
            TradeType::Short => "Short"@,
        }
    }

    pub fn to_string(&self) -> (text: String)
        ensures
            text@ == self.label(),
    {
        match self {
            TradeType::Long => String::from_str("Long"),
            TradeType::Short => String::from_str("Short"),
        }
    }
}

/// How the latest close stands against the moving average.
#[derive(Debug, Clone, Copy, PartialEq, Eq, Structural)]
pub enum MarketTrend {
    Bullish,
    Bearish,
    Sideways,
    Flat,
}

impl MarketTrend {
    pub open spec fn label(self) -> Seq<char> {
        match self {
            MarketTrend::Bullish => "Bullish"@,
            MarketTrend::Bearish => "Bearish"@,
            MarketTrend::Sideways => "Sideways"@,
            MarketTrend::Flat => "Flat"@,
        }
    }

    pub fn to_string(&self) -> (text: String)
        ensures
            text@ == self.label(),
    {
        match self {
            MarketTrend::Bullish => String::from_str("Bullish"),
            MarketTrend::Bearish => String::from_str("Bearish"),
            MarketTrend::Sideways => String::from_str("Sideways"),
            MarketTrend::Flat => String::from_str("Flat"),
        }
    }
}

/// The width of one candle.
#[derive(Debug, Clone, Copy, PartialEq, Eq, Structural)]
pub enum TimeFrame {
    OneMinute,
    ThreeMinutes,
    FiveMinutes,
    FifteenMinutes,
    OneDay,
    OneWeek,
    OneMonth,
    OneYear,
    Infinity,
}

impl TimeFrame {
    pub open spec fn label(self) -> Seq<char> {
        match self {
            TimeFrame::OneMinute => "OneMinute"@,
            TimeFrame::ThreeMinutes => "ThreeMinutes"@,
            TimeFrame::FiveMinutes => "FiveMinutes"@,
            TimeFrame::FifteenMinutes => "FifteenMinutes"@,
            TimeFrame::OneDay => "OneDay"@,
            TimeFrame::OneWeek => "OneWeek"@,
            TimeFrame::OneMonth => "OneMonth"@,
            TimeFrame::OneYear => "OneYear"@,
            TimeFrame::Infinity => "Infinity"@,
        }
    }

    pub fn to_string(&self) -> (text: String)
        ensures
            text@ == self.label(),
    {
        match self {
            TimeFrame::OneMinute => String::from_str("OneMinute"),
            TimeFrame::ThreeMinutes => String::from_str("ThreeMinutes"),
            TimeFrame::FiveMinutes => String::from_str("FiveMinutes"),
            TimeFrame::FifteenMinutes => String::from_str("FifteenMinutes"),
            TimeFrame::OneDay => String::from_str("OneDay"),
            TimeFrame::OneWeek => String::from_str("OneWeek"),
            TimeFrame::OneMonth => String::from_str("OneMonth"),
            TimeFrame::OneYear => String::from_str("OneYear"),
            TimeFrame::Infinity => String::from_str("Infinity"),
        }
    }
}

/// What a worker of an ingestion run is for.
#[derive(Debug, Clone, Copy, PartialEq, Eq, Structural)]
pub enum ThreadJobType {
    DataConsumerViaSocket,
    TradeWatcherCron,
}

/// The side on which the engine currently stands in a market.
#[derive(Debug, Clone, Copy, PartialEq, Eq, Structural)]
pub enum CurrentMarketPosition {
    Long,
    Short,
    Flat,
}

} // verus!
