//! The risk budget of a user, a symbol and a day.
//!
//! A state starts eligible with nothing used. Placing an order binds
//! capital; closing one books its profit and counts the hit. A state that
//! has lost its eligibility does not get it back.

use vstd::prelude::*;
use vstd::string::*;
use crate::date_parser::{return_only_date_from_datetime, stock_date_key};
use crate::enums::{AlgoTypes, TimeFrame};
use crate::order_dispatcher::Order;
use crate::utils::{
    current_pnl_state_cache_key_algotypes_formatted,
    current_pnl_state_cache_key_formatted,
    pnl_algo_types_cache_key,
    pnl_state_cache_key,
};

verus! {

/// A filter over stored risk states.
#[derive(Debug, Clone)]
pub struct CurrentPnLStateBodyParams {
    pub start_trade_date: String,
    pub symbol: Option<String>,
    pub end_trade_date: Option<String>,
    pub user_id: Option<String>,
    pub pnl_congiguration_id: Option<String>,
}

/// The budget that a user sets.
#[derive(Debug, Clone, PartialEq, Eq)]
pub struct PnLConfiguration {
    pub created_at: String,
    pub updated_at: String,
    pub start_trade_date: String,
    pub end_trade_date: String,
    pub max_trade_count: u32,
    pub symbols: Vec<String>,
    pub trading_algo_types: Vec<AlgoTypes>,
    pub max_sl_hit_count: u32,
    pub targeted_pnl: i64,
    pub targeted_pnl_percentage: i64,
    pub max_target_hit_count: u32,
    /// The floor of the realized profit, a value below zero.
    pub max_sl_capacity: i64,
    pub max_trade_capital: u128,
    pub is_active: bool,
    pub user_id: String,
    pub time_frame: TimeFrame,
    pub is_backtest_config: bool,
    pub id: String,
}

#[derive(Debug, Clone, PartialEq, Eq)]
pub struct CurrentPnLState {
    pub start_trade_date: String,
    pub end_trade_date: String,
    pub current_pnl: i128,
    pub current_pnl_percentage: i64,
    pub targeted_pnl: i64,
    pub targeted_pnl_percentage: i64,
    pub current_sl_hit_count: u32,
    pub max_sl_hit_count: u32,
    pub current_trade_count: u32,
    pub max_trade_count: u32,
    pub current_target_hit_count: u32,
    pub max_target_hit_count: u32,
    pub target_hit_percentage: i64,
    pub max_sl_capacity: i64,
    pub max_trade_capital: u128,
    pub current_used_trade_capital: u128,
    pub is_eligible_for_trading: bool,
    pub not_eligible_trading_reason: String,
    pub current_pnl_state_cache_key: String,
    pub pnl_configuration_id: String,
    pub symbol: String,
    pub trading_algo_types: Vec<AlgoTypes>,
    pub time_frame: TimeFrame,
    pub id: String,
    pub created_at: String,
    pub updated_at: String,
    pub user_id: String,
}

/// How stored risk states are looked for.
#[derive(Debug, Clone, PartialEq, Eq)]
pub enum PnLStateQuery {
    /// The one state under a cache key.
    ByCacheKey(String),
    /// The states that start within a range of time stamps, both ends
    /// included, of a symbol and a user where these are given.
    ByRange { from: String, to: String, symbol: Option<String>, user_id: Option<String> },
    /// The states of a configuration, of a user where one is given.
    ByConfiguration { pnl_configuration_id: String, user_id: Option<String> },
    /// Nothing is looked for.
    Nothing,
}

/// How stored configurations are looked for: by each value that is given,
/// and for a user only among the active ones.
#[derive(Debug, Clone, PartialEq, Eq)]
pub struct PnLConfigurationQuery {
    pub pnl_configuration_id: Option<String>,
    pub active_user_id: Option<String>,
    pub symbol: Option<String>,
}

/// The text of an optional value.
pub open spec fn text_of(value: Option<String>) -> Option<Seq<char>> {
    match value {
        Some(text) => Some(text@),
        None => None,
    }
}

/// A copy of an optional text.
pub fn duplicate_text(value: &Option<String>) -> (copy: Option<String>)
    ensures
        text_of(copy) == text_of(*value),
{
    match value {
        Some(text) => Some(text.clone()),
        None => None,
    }
}

impl CurrentPnLStateBodyParams {
    /// Whether `query` is how the states that the filter asks for are looked
    /// for. With a configuration and a symbol it is the one state under their
    /// key for the day of the start, and nothing where the start is no time
    /// stamp. Else with an end it is the range from start to end; else with a
    /// configuration it is that configuration's states; and else nothing.
    pub open spec fn is_planned_as(&self, query: PnLStateQuery) -> bool {
        if self.pnl_congiguration_id is Some && self.symbol is Some {
            match stock_date_key(self.start_trade_date@) {
                Some(day) => query matches PnLStateQuery::ByCacheKey(key) && key@
                    == pnl_state_cache_key(
                    day,
                    self.symbol.unwrap()@,
                    self.pnl_congiguration_id.unwrap()@,
                ),
                None => query == PnLStateQuery::Nothing,
            }
        } else if self.end_trade_date is Some {
            query matches PnLStateQuery::ByRange { from, to, symbol, user_id } && from@
                == self.start_trade_date@ && to@ == self.end_trade_date.unwrap()@ && text_of(symbol)
                == text_of(self.symbol) && text_of(user_id) == text_of(self.user_id)
        } else if self.pnl_congiguration_id is Some {
            query matches PnLStateQuery::ByConfiguration { pnl_configuration_id, user_id }
                && pnl_configuration_id@ == self.pnl_congiguration_id.unwrap()@ && text_of(user_id)
                == text_of(self.user_id)
        } else {
            query == PnLStateQuery::Nothing
        }
    }

    /// How the states that the filter asks for are looked for.
    pub fn fetch_current_pnl_state_query(&self) -> (query: PnLStateQuery)
        ensures
            self.is_planned_as(query),
    {
        match (&self.pnl_congiguration_id, &self.symbol) {
            (Some(id), Some(symbol)) => {
                match CurrentPnLState::get_current_pnl_cache_key(
                    self.start_trade_date.as_str(),
                    symbol.as_str(),
                    id.as_str(),
                ) {
                    Some(keys) => PnLStateQuery::ByCacheKey(keys.0),
                    None => PnLStateQuery::Nothing,
                }
            },
            _ => {
                match &self.end_trade_date {
                    Some(end) => PnLStateQuery::ByRange {
                        from: self.start_trade_date.clone(),
                        to: end.clone(),
                        symbol: duplicate_text(&self.symbol),
                        user_id: duplicate_text(&self.user_id),
                    },
                    None => match &self.pnl_congiguration_id {
                        Some(id) => PnLStateQuery::ByConfiguration {
                            pnl_configuration_id: id.clone(),
                            user_id: duplicate_text(&self.user_id),
                        },
                        None => PnLStateQuery::Nothing,
                    },
                }
            },
        }
    }
}

/// The day that the built-in backtest budget is for.
pub const CURRENT_STOCK_DATE: &'static str = "2022-10-18 09:30:00+05:30";

pub const END_STOCK_DATE: &'static str = "2022-10-18 15:30:00+05:30";

/// The symbol that the built-in backtest budget trades.
pub const STATIC_SYMBOL: &'static str = "ADANIGREEN";

/// Whether an order may be placed.
#[derive(Debug, Clone, PartialEq, Eq)]
pub enum TradeDecision {
    Tradeable,
    /// Refused, for this reason.
    Rejected(String),
}

pub open spec fn capital_limit_reason() -> Seq<char> {
    "max trade capital limit reached"@
}

pub open spec fn sl_hit_reason() -> Seq<char> {
    "Max SL hit count reached"@
}

pub open spec fn target_hit_reason() -> Seq<char> {
    "Max target hit count reached"@
}

pub open spec fn sl_capacity_reason() -> Seq<char> {
    "Max SL capacity reached"@
}

pub open spec fn missing_state_reason() -> Seq<char> {
    "current PnL state not found"@
}

/// A count after one more hit; it stops at the largest value it can hold.
pub open spec fn hit_counted(count: u32) -> u32 {
    if count < u32::MAX {
        (count + 1) as u32
    } else {
        count
    }
}

/// A realized profit after one more closing; it stops at the ends of what
/// can be held.
pub open spec fn profit_booked(total: i128, profit: i128) -> i128 {
    if total + profit > i128::MAX {
        i128::MAX
    } else if total + profit < i128::MIN {
        i128::MIN
    } else {
        (total + profit) as i128
    }
}

impl PnLConfiguration {
    pub fn new(
        created_at: String,
        updated_at: String,
        start_trade_date: String,
        end_trade_date: String,
        max_trade_count: u32,
        symbols: Vec<String>,
        trading_algo_types: Vec<AlgoTypes>,
        max_sl_hit_count: u32,
        targeted_pnl: i64,
        targeted_pnl_percentage: i64,
        max_target_hit_count: u32,
        max_sl_capacity: i64,
        max_trade_capital: u128,
        is_active: bool,
        user_id: String,
        time_frame: TimeFrame,
        is_backtest_config: bool,
        id: String,
    ) -> (configuration: PnLConfiguration)
        ensures
            configuration == (PnLConfiguration {
                created_at,
                updated_at,
                start_trade_date,
                end_trade_date,
                max_trade_count,
                symbols,
                trading_algo_types,
                max_sl_hit_count,
                targeted_pnl,
                targeted_pnl_percentage,
                max_target_hit_count,
                max_sl_capacity,
                max_trade_capital,
                is_active,
                user_id,
                time_frame,
                is_backtest_config,
                id,
            }),
    {
        PnLConfiguration {
            created_at,
            updated_at,
            start_trade_date,
            end_trade_date,
            max_trade_count,
            symbols,
            trading_algo_types,
            max_sl_hit_count,
            targeted_pnl,
            targeted_pnl_percentage,
            max_target_hit_count,
            max_sl_capacity,
            max_trade_capital,
            is_active,
            user_id,
            time_frame,
            is_backtest_config,
            id,
        }
    }
}

impl PnLConfiguration {
    /// Whether `self` is the built-in budget for a backtest: five trades a
    /// day on the one symbol with the hammer, two stop-loss hits, four target
    /// hits, a floor of 500 below zero and a ceiling of 4,000,000, in price
    /// units of 100 ticks.
    pub open spec fn is_static_backtest_config(
        &self,
        created_at: Seq<char>,
        user_id: Seq<char>,
        id: Seq<char>,
    ) -> bool {
        &&& self.created_at@ == created_at
        &&& self.updated_at@ == created_at
        &&& self.start_trade_date@ == CURRENT_STOCK_DATE@
        &&& self.end_trade_date@ == END_STOCK_DATE@
        &&& self.max_trade_count == 5
        &&& self.symbols@.len() == 1
        &&& self.symbols@[0]@ == STATIC_SYMBOL@
        &&& self.trading_algo_types@ == seq![AlgoTypes::HammerPatternAlgo]
        &&& self.max_sl_hit_count == 2
        &&& self.targeted_pnl == 100000
        &&& self.targeted_pnl_percentage == 1000
        &&& self.max_target_hit_count == 4
        &&& self.max_sl_capacity == -50000
        &&& self.max_trade_capital == 400000000
        &&& self.is_active
        &&& self.user_id@ == user_id
        &&& self.time_frame == TimeFrame::FiveMinutes
        &&& self.is_backtest_config
        &&& self.id@ == id
    }

    /// How stored configurations are looked for. Without an identity, a user
    /// and a symbol nothing is looked for.
    pub fn fetch_current_pnl_configuration_query(
        pnl_configuration_id: Option<String>,
        user_id: Option<String>,
        symbol: Option<String>,
    ) -> (query: Option<PnLConfigurationQuery>)
        ensures
            query is Some <==> pnl_configuration_id is Some || user_id is Some || symbol is Some,
            query is Some ==> query.unwrap() == (PnLConfigurationQuery {
                pnl_configuration_id,
                active_user_id: user_id,
                symbol,
            }),
    {
        if pnl_configuration_id.is_none() && user_id.is_none() && symbol.is_none() {
            return None;
        }
        Some(PnLConfigurationQuery { pnl_configuration_id, active_user_id: user_id, symbol })
    }

    /// The built-in budget for a backtest.
    pub fn new_static_backtest_config(created_at: &str, user_id: &str, id: &str) -> (configuration:
        PnLConfiguration)
        ensures
            configuration.is_static_backtest_config(created_at@, user_id@, id@),
    {
        let mut symbols: Vec<String> = Vec::new();
        symbols.push(String::from_str(STATIC_SYMBOL));
        let mut trading_algo_types: Vec<AlgoTypes> = Vec::new();
        trading_algo_types.push(AlgoTypes::HammerPatternAlgo);
        PnLConfiguration {
            created_at: String::from_str(created_at),
            updated_at: String::from_str(created_at),
            start_trade_date: String::from_str(CURRENT_STOCK_DATE),
            end_trade_date: String::from_str(END_STOCK_DATE),
            max_trade_count: 5,
            symbols,
            trading_algo_types,
            max_sl_hit_count: 2,
            targeted_pnl: 100000,
            targeted_pnl_percentage: 1000,
            max_target_hit_count: 4,
            max_sl_capacity: -50000,
            max_trade_capital: 400000000,
            is_active: true,
            user_id: String::from_str(user_id),
            time_frame: TimeFrame::FiveMinutes,
            is_backtest_config: true,
            id: String::from_str(id),
        }
    }
}

impl CurrentPnLState {
    /// The capital in use is within the ceiling.
    pub open spec fn is_within_budget(&self) -> bool {
        self.current_used_trade_capital <= self.max_trade_capital
    }

    /// Whether an order of this notional would be placed.
    pub open spec fn admits(&self, notional: u128) -> bool {
        self.is_eligible_for_trading && self.current_used_trade_capital + notional
            <= self.max_trade_capital
    }

    /// Whether `self` is what `before` becomes when an order of this notional
    /// asks for admission: unchanged where `before` is not eligible; no
    /// longer eligible, with the reason, where the notional does not fit;
    /// and else with the notional bound and one more trade counted.
    pub open spec fn follows_admission(&self, before: CurrentPnLState, notional: u128) -> bool {
        if !before.is_eligible_for_trading {
            *self == before
        } else if before.current_used_trade_capital + notional > before.max_trade_capital {
            &&& *self == (CurrentPnLState {
                is_eligible_for_trading: false,
                not_eligible_trading_reason: self.not_eligible_trading_reason,
                ..before
            })
            &&& self.not_eligible_trading_reason@ == capital_limit_reason()
        } else {
            *self == (CurrentPnLState {
                current_used_trade_capital: (before.current_used_trade_capital + notional) as u128,
                current_trade_count: hit_counted(before.current_trade_count),
                ..before
            })
        }
    }

    /// Whether `self` is `before` or what an admission made of it.
    pub open spec fn follows_any_admission(&self, before: CurrentPnLState) -> bool {
        *self == before || exists|notional: u128| #[trigger] self.follows_admission(before, notional)
    }

    /// The reason that a closing gives for ending the eligibility, if any:
    /// the first of the three limits that is reached.
    pub open spec fn closure_verdict(
        sl_hits: u32,
        max_sl_hits: u32,
        target_hits: u32,
        max_target_hits: u32,
        pnl: i128,
        sl_capacity: i64,
    ) -> Option<Seq<char>> {
        if sl_hits >= max_sl_hits {
            Some(sl_hit_reason())
        } else if target_hits >= max_target_hits {
            Some(target_hit_reason())
        } else if pnl <= sl_capacity {
            Some(sl_capacity_reason())
        } else {
            None
        }
    }

    /// Whether `self` is what `before` becomes when an order closes with
    /// this outcome.
    pub open spec fn follows_closure(
        &self,
        before: CurrentPnLState,
        profitable: bool,
        profit: i128,
        updated_at: String,
    ) -> bool {
        let sl_hits = if profitable {
            before.current_sl_hit_count
        } else {
            hit_counted(before.current_sl_hit_count)
        };
        let target_hits = if profitable {
            hit_counted(before.current_target_hit_count)
        } else {
            before.current_target_hit_count
        };
        let pnl = profit_booked(before.current_pnl, profit);
        let verdict = Self::closure_verdict(
            sl_hits,
            before.max_sl_hit_count,
            target_hits,
            before.max_target_hit_count,
            pnl,
            before.max_sl_capacity,
        );
        &&& *self == (CurrentPnLState {
            current_sl_hit_count: sl_hits,
            current_target_hit_count: target_hits,
            current_pnl: pnl,
            is_eligible_for_trading: before.is_eligible_for_trading && verdict is None,
            not_eligible_trading_reason: self.not_eligible_trading_reason,
            updated_at,
            ..before
        })
        &&& self.not_eligible_trading_reason@ == (match verdict {
            Some(reason) => reason,
            None => before.not_eligible_trading_reason@,
        })
    }

    pub fn new(
        start_trade_date: String,
        end_trade_date: String,
        current_pnl: i128,
        current_pnl_percentage: i64,
        targeted_pnl: i64,
        targeted_pnl_percentage: i64,
        current_sl_hit_count: u32,
        max_sl_hit_count: u32,
        current_trade_count: u32,
        max_trade_count: u32,
        current_target_hit_count: u32,
        max_target_hit_count: u32,
        target_hit_percentage: i64,
        max_sl_capacity: i64,
        max_trade_capital: u128,
        is_eligible_for_trading: bool,
        not_eligible_trading_reason: String,
        current_used_trade_capital: u128,
        current_pnl_state_cache_key: String,
        pnl_configuration_id: String,
        symbol: String,
        trading_algo_types: Vec<AlgoTypes>,
        time_frame: TimeFrame,
        id: String,
        created_at: String,
        updated_at: String,
        user_id: String,
    ) -> (state: CurrentPnLState)
        ensures
            state == (CurrentPnLState {
                start_trade_date,
                end_trade_date,
                current_pnl,
                current_pnl_percentage,
                targeted_pnl,
                targeted_pnl_percentage,
                current_sl_hit_count,
                max_sl_hit_count,
                current_trade_count,
                max_trade_count,
                current_target_hit_count,
                max_target_hit_count,
                target_hit_percentage,
                max_sl_capacity,
                max_trade_capital,
                current_used_trade_capital,
                is_eligible_for_trading,
                not_eligible_trading_reason,
                current_pnl_state_cache_key,
                pnl_configuration_id,
                symbol,
                trading_algo_types,
                time_frame,
                id,
                created_at,
                updated_at,
                user_id,
            }),
    {
        CurrentPnLState {
            start_trade_date,
            end_trade_date,
            current_pnl,
            current_pnl_percentage,
            targeted_pnl,
            targeted_pnl_percentage,
            current_sl_hit_count,
            max_sl_hit_count,
            current_trade_count,
            max_trade_count,
            current_target_hit_count,
            max_target_hit_count,
            target_hit_percentage,
            max_sl_capacity,
            max_trade_capital,
            current_used_trade_capital,
            is_eligible_for_trading,
            not_eligible_trading_reason,
            current_pnl_state_cache_key,
            pnl_configuration_id,
            symbol,
            trading_algo_types,
            time_frame,
            id,
            created_at,
            updated_at,
            user_id,
        }
    }

    /// Whether `self` is the fresh state of a configuration for its first
    /// symbol: nothing used, nothing counted, eligible.
    pub open spec fn is_fresh_for(
        &self,
        configuration: PnLConfiguration,
        start_trade_date: Seq<char>,
        end_trade_date: Seq<char>,
        cache_key: Seq<char>,
        id: Seq<char>,
        created_at: Seq<char>,
    ) -> bool {
        &&& self.start_trade_date@ == start_trade_date
        &&& self.end_trade_date@ == end_trade_date
        &&& self.current_pnl == 0
        &&& self.current_pnl_percentage == 0
        &&& self.targeted_pnl == configuration.targeted_pnl
        &&& self.targeted_pnl_percentage == configuration.targeted_pnl_percentage
        &&& self.current_sl_hit_count == 0
        &&& self.max_sl_hit_count == configuration.max_sl_hit_count
        &&& self.current_trade_count == 0
        &&& self.max_trade_count == configuration.max_trade_count
        &&& self.current_target_hit_count == 0
        &&& self.max_target_hit_count == configuration.max_target_hit_count
        &&& self.target_hit_percentage == 0
        &&& self.max_sl_capacity == configuration.max_sl_capacity
        &&& self.max_trade_capital == configuration.max_trade_capital
        &&& self.current_used_trade_capital == 0
        &&& self.is_eligible_for_trading
        &&& self.not_eligible_trading_reason@ == Seq::<char>::empty()
        &&& self.current_pnl_state_cache_key@ == cache_key
        &&& self.pnl_configuration_id@ == configuration.id@
        &&& configuration.symbols@.len() > 0
        &&& self.symbol@ == configuration.symbols@[0]@
        &&& self.trading_algo_types@ == configuration.trading_algo_types@
        &&& self.time_frame == configuration.time_frame
        &&& self.id@ == id
        &&& self.created_at@ == created_at
        &&& self.updated_at@ == created_at
        &&& self.user_id@ == configuration.user_id@
    }

    /// The fresh state of a configuration for its first symbol, under a
    /// given key. A configuration without a symbol has none.
    pub fn from_configuration(
        configuration: &PnLConfiguration,
        start_trade_date: &str,
        end_trade_date: &str,
        cache_key: String,
        id: String,
        created_at: &str,
    ) -> (state: Option<CurrentPnLState>)
        ensures
            state is Some <==> configuration.symbols@.len() > 0,
            state is Some ==> state.unwrap().is_fresh_for(
                *configuration,
                start_trade_date@,
                end_trade_date@,
                cache_key@,
                id@,
                created_at@,
            ),
    {
        if configuration.symbols.len() == 0 {
            return None;
        }
        Some(
            CurrentPnLState {
                start_trade_date: String::from_str(start_trade_date),
                end_trade_date: String::from_str(end_trade_date),
                current_pnl: 0,
                current_pnl_percentage: 0,
                targeted_pnl: configuration.targeted_pnl,
                targeted_pnl_percentage: configuration.targeted_pnl_percentage,
                current_sl_hit_count: 0,
                max_sl_hit_count: configuration.max_sl_hit_count,
                current_trade_count: 0,
                max_trade_count: configuration.max_trade_count,
                current_target_hit_count: 0,
                max_target_hit_count: configuration.max_target_hit_count,
                target_hit_percentage: 0,
                max_sl_capacity: configuration.max_sl_capacity,
                max_trade_capital: configuration.max_trade_capital,
                current_used_trade_capital: 0,
                is_eligible_for_trading: true,
                not_eligible_trading_reason: String::new(),
                current_pnl_state_cache_key: cache_key,
                pnl_configuration_id: configuration.id.clone(),
                symbol: configuration.symbols[0].clone(),
                trading_algo_types: configuration.trading_algo_types.clone(),
                time_frame: configuration.time_frame,
                id,
                created_at: String::from_str(created_at),
                updated_at: String::from_str(created_at),
                user_id: configuration.user_id.clone(),
            },
        )
    }

    /// The fresh state of a configuration for a trading day, where the day
    /// has none yet. There is none where `existing` says the day has one,
    /// where the start is no time stamp, or where the configuration has no
    /// symbol.
    pub fn new_static_current_pnl_state(
        configuration: &PnLConfiguration,
        existing: bool,
        start_trading_date: &str,
        end_trading_date: &str,
        id: String,
        created_at: &str,
    ) -> (state: Option<CurrentPnLState>)
        ensures
            state is Some <==> !existing && stock_date_key(start_trading_date@) is Some
                && configuration.symbols@.len() > 0,
            state is Some ==> state.unwrap().is_fresh_for(
                *configuration,
                start_trading_date@,
                end_trading_date@,
                pnl_state_cache_key(
                    stock_date_key(start_trading_date@).unwrap(),
                    configuration.symbols@[0]@,
                    configuration.id@,
                ),
                id@,
                created_at@,
            ),
    {
        if existing || configuration.symbols.len() == 0 {
            return None;
        }
        match Self::get_current_pnl_cache_key(
            start_trading_date,
            configuration.symbols[0].as_str(),
            configuration.id.as_str(),
        ) {
            None => None,
            Some(keys) => Self::from_configuration(
                configuration,
                start_trading_date,
                end_trading_date,
                keys.0,
                id,
                created_at,
            ),
        }
    }

    /// The key of the risk state and the key of its list of algorithms, for
    /// the day of a time stamp. There are none where the text is no time stamp.
    pub fn get_current_pnl_cache_key(
        stock_date: &str,
        symbol: &str,
        pnl_configuration_id: &str,
    ) -> (keys: Option<(String, String)>)
        ensures
            keys is Some <==> stock_date_key(stock_date@) is Some,
            keys is Some ==> keys.unwrap().0@ == pnl_state_cache_key(
                stock_date_key(stock_date@).unwrap(),
                symbol@,
                pnl_configuration_id@,
            ) && keys.unwrap().1@ == pnl_algo_types_cache_key(
                stock_date_key(stock_date@).unwrap(),
                pnl_configuration_id@,
            ),
    {
        match return_only_date_from_datetime(stock_date) {
            None => None,
            Some(day) => {
                let state_key = current_pnl_state_cache_key_formatted(
                    day.as_str(),
                    symbol,
                    pnl_configuration_id,
                );
                let algo_types_key = current_pnl_state_cache_key_algotypes_formatted(
                    day.as_str(),
                    pnl_configuration_id,
                );
                Some((state_key, algo_types_key))
            },
        }
    }

    /// A second state with the same fields.
    pub fn duplicate(&self) -> (copy: CurrentPnLState)
        ensures
            copy == (CurrentPnLState { trading_algo_types: copy.trading_algo_types, ..*self }),
            copy.trading_algo_types@ == self.trading_algo_types@,
    {
        CurrentPnLState {
            start_trade_date: self.start_trade_date.clone(),
            end_trade_date: self.end_trade_date.clone(),
            current_pnl: self.current_pnl,
            current_pnl_percentage: self.current_pnl_percentage,
            targeted_pnl: self.targeted_pnl,
            targeted_pnl_percentage: self.targeted_pnl_percentage,
            current_sl_hit_count: self.current_sl_hit_count,
            max_sl_hit_count: self.max_sl_hit_count,
            current_trade_count: self.current_trade_count,
            max_trade_count: self.max_trade_count,
            current_target_hit_count: self.current_target_hit_count,
            max_target_hit_count: self.max_target_hit_count,
            target_hit_percentage: self.target_hit_percentage,
            max_sl_capacity: self.max_sl_capacity,
            max_trade_capital: self.max_trade_capital,
            current_used_trade_capital: self.current_used_trade_capital,
            is_eligible_for_trading: self.is_eligible_for_trading,
            not_eligible_trading_reason: self.not_eligible_trading_reason.clone(),
            current_pnl_state_cache_key: self.current_pnl_state_cache_key.clone(),
            pnl_configuration_id: self.pnl_configuration_id.clone(),
            symbol: self.symbol.clone(),
            trading_algo_types: self.trading_algo_types.clone(),
            time_frame: self.time_frame,
            id: self.id.clone(),
            created_at: self.created_at.clone(),
            updated_at: self.updated_at.clone(),
            user_id: self.user_id.clone(),
        }
    }

    /// Asks whether an order of this notional may be placed. A state that is
    /// not eligible refuses with its stored reason. A notional that does not
    /// fit under the ceiling is refused too, and that refusal ends the
    /// eligibility. Else the notional is bound and the trade counted.
    pub fn is_order_tradeable(&mut self, notional: u128) -> (decision: TradeDecision)
        ensures
            final(self).follows_admission(*old(self), notional),
            final(self).follows_any_admission(*old(self)),
            decision is Tradeable <==> old(self).admits(notional),
            decision matches TradeDecision::Rejected(reason) ==> reason@ == final(self).not_eligible_trading_reason@,
            final(self).current_used_trade_capital >= old(self).current_used_trade_capital,
            old(self).is_within_budget() ==> final(self).is_within_budget(),
            final(self).is_eligible_for_trading ==> old(self).is_eligible_for_trading,
    {
        if !self.is_eligible_for_trading {
            return TradeDecision::Rejected(self.not_eligible_trading_reason.clone());
        }
        let fits: bool = self.current_used_trade_capital <= self.max_trade_capital && notional
            <= self.max_trade_capital - self.current_used_trade_capital;
        if !fits {
            self.is_eligible_for_trading = false;
            self.not_eligible_trading_reason = String::from_str("max trade capital limit reached");
            return TradeDecision::Rejected(String::from_str("max trade capital limit reached"));
        }
        self.current_used_trade_capital = self.current_used_trade_capital + notional;
        if self.current_trade_count < u32::MAX {
            self.current_trade_count = self.current_trade_count + 1;
        }
        TradeDecision::Tradeable
    }

    /// Books the closing of an order: one more stop-loss hit for a loss, one
    /// more target hit for a profit, the profit added to the realized one;
    /// then the first limit that is reached ends the eligibility.
    pub fn apply_closure(&mut self, profitable: bool, profit: i128, updated_at: String)
        ensures
            final(self).follows_closure(*old(self), profitable, profit, updated_at),
            final(self).current_used_trade_capital == old(self).current_used_trade_capital,
            final(self).max_trade_capital == old(self).max_trade_capital,
            final(self).is_eligible_for_trading ==> old(self).is_eligible_for_trading,
    {
        if profitable {
            if self.current_target_hit_count < u32::MAX {
                self.current_target_hit_count = self.current_target_hit_count + 1;
            }
        } else {
            if self.current_sl_hit_count < u32::MAX {
                self.current_sl_hit_count = self.current_sl_hit_count + 1;
            }
        }
        self.current_pnl = if profit >= 0 {
            if self.current_pnl > i128::MAX - profit {
                i128::MAX
            } else {
                self.current_pnl + profit
            }
        } else {
            if self.current_pnl < i128::MIN - profit {
                i128::MIN
            } else {
                self.current_pnl + profit
            }
        };
        if self.current_sl_hit_count >= self.max_sl_hit_count {
            self.is_eligible_for_trading = false;
            self.not_eligible_trading_reason = String::from_str("Max SL hit count reached");
        } else if self.current_target_hit_count >= self.max_target_hit_count {
            self.is_eligible_for_trading = false;
            self.not_eligible_trading_reason = String::from_str("Max target hit count reached");
        } else if self.current_pnl <= self.max_sl_capacity as i128 {
            self.is_eligible_for_trading = false;
            self.not_eligible_trading_reason = String::from_str("Max SL capacity reached");
        }
        self.updated_at = updated_at;
    }

    /// Books a closed order. An order that is not closed changes nothing.
    pub fn update_current_pnl_state_via_order(&mut self, close_order: &Order, updated_at: String)
        ensures
            if close_order.is_open() {
                *final(self) == *old(self)
            } else {
                final(self).follows_closure(
                    *old(self),
                    close_order.is_profitable_trade,
                    close_order.closing_profit,
                    updated_at,
                )
            },
            final(self).current_used_trade_capital == old(self).current_used_trade_capital,
            final(self).is_eligible_for_trading ==> old(self).is_eligible_for_trading,
    {
        if close_order.is_trade_open() {
            return ;
        }
        self.apply_closure(close_order.is_profitable_trade, close_order.closing_profit, updated_at);
    }
}

/// Asks a risk state that may be missing. Without a state nothing is tradeable.
pub fn is_order_tradeable(risk_state: &mut Option<CurrentPnLState>, notional: u128) -> (decision:
    TradeDecision)
    ensures
        match *old(risk_state) {
            None => {
                &&& *final(risk_state) is None
                &&& decision matches TradeDecision::Rejected(reason) && reason@
                    == missing_state_reason()
            },
            Some(before) => {
                &&& *final(risk_state) is Some
                &&& final(risk_state).unwrap().follows_admission(before, notional)
                &&& decision is Tradeable <==> before.admits(notional)
                &&& decision matches TradeDecision::Rejected(reason) ==> reason@ == final(risk_state).unwrap().not_eligible_trading_reason@
            },
        },
{
    match risk_state {
        None => TradeDecision::Rejected(String::from_str("current PnL state not found")),
        Some(state) => state.is_order_tradeable(notional),
    }
}

/// Under admissions and closings the capital in use never shrinks, stays
/// within the ceiling where it was, and an eligibility once lost stays lost.
pub proof fn lemma_budget_is_kept(
    before: CurrentPnLState,
    after: CurrentPnLState,
    notional: u128,
    profitable: bool,
    profit: i128,
    updated_at: String,
)
    requires
        after.follows_admission(before, notional) || after.follows_closure(
            before,
            profitable,
            profit,
            updated_at,
        ),
    ensures
        after.current_used_trade_capital >= before.current_used_trade_capital,
        after.max_trade_capital == before.max_trade_capital,
        before.is_within_budget() ==> after.is_within_budget(),
        after.is_eligible_for_trading ==> before.is_eligible_for_trading,
        after.follows_admission(before, notional) && after.current_used_trade_capital
            > before.current_used_trade_capital ==> after.current_used_trade_capital
            == before.current_used_trade_capital + notional && before.admits(notional),
{
}

} // verus!
