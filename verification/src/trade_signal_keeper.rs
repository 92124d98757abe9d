//! Trade signals, and the signals raised in one run.

use vstd::prelude::*;
use vstd::string::*;
use crate::enums::{AlgoTypes, TimeFrame, TradeType};
use crate::raw_stock::RawStock;

verus! {

/// How many units every signal asks for.
pub const QTY: u32 = 10;

/// A filter over stored signals.
#[derive(Debug, Clone)]
pub struct TradeSignalBodyParams {
    pub start_trade_date: String,
    pub end_trade_date: String,
    pub trade_position_type: Option<TradeType>,
    pub trade_algo_type: Option<AlgoTypes>,
    pub symbol: Option<String>,
}

/// The wish to open a position, derived from one matched candle.
#[derive(Debug, Clone, PartialEq, Eq)]
pub struct TradeSignal {
    pub raw_stock: RawStock,
    pub trade_position_type: TradeType,
    pub trade_algo_type: AlgoTypes,
    pub created_at: String,
    pub entry_price: i64,
    pub trade_sl: i64,
    pub trade_target: i64,
    pub qty: u32,
    /// The notional: the entry price times the quantity.
    pub total_price: u128,
    pub id: String,
    /// The identity of the pattern candle that the signal came from.
    pub algo_id: String,
}

impl TradeSignal {
    pub fn new(
        raw_stock: RawStock,
        trade_position_type: TradeType,
        trade_algo_type: AlgoTypes,
        created_at: String,
        entry_price: i64,
        trade_sl: i64,
        trade_target: i64,
        qty: u32,
        total_price: u128,
        id: String,
        algo_id: String,
    ) -> (signal: TradeSignal)
        ensures
            signal == (TradeSignal {
                raw_stock,
                trade_position_type,
                trade_algo_type,
                created_at,
                entry_price,
                trade_sl,
                trade_target,
                qty,
                total_price,
                id,
                algo_id,
            }),
    {
        TradeSignal {
            raw_stock,
            trade_position_type,
            trade_algo_type,
            created_at,
            entry_price,
            trade_sl,
            trade_target,
            qty,
            total_price,
            id,
            algo_id,
        }
    }

    pub fn get_raw_stock(&self) -> (stock: &RawStock)
        ensures
            *stock == self.raw_stock,
    {
        &self.raw_stock
    }

    pub fn get_trade_algo_type(&self) -> (algo_type: &AlgoTypes)
        ensures
            *algo_type == self.trade_algo_type,
    {
        &self.trade_algo_type
    }

    pub fn get_created_at(&self) -> (created_at: &String)
        ensures
            *created_at == self.created_at,
    {
        &self.created_at
    }

    /// A second signal with the same fields.
    pub fn duplicate(&self) -> (copy: TradeSignal)
        ensures
            copy == *self,
    {
        TradeSignal {
            raw_stock: self.raw_stock.duplicate(),
            trade_position_type: self.trade_position_type,
            trade_algo_type: self.trade_algo_type,
            created_at: self.created_at.clone(),
            entry_price: self.entry_price,
            trade_sl: self.trade_sl,
            trade_target: self.trade_target,
            qty: self.qty,
            total_price: self.total_price,
            id: self.id.clone(),
            algo_id: self.algo_id.clone(),
        }
    }

    /// The signal for a candle and its prices: `QTY` units at the entry
    /// price. There is none where the entry price is not above zero.
    pub fn create_trade_signal(
        symbol: String,
        date: String,
        close: i64,
        high: i64,
        low: i64,
        open: i64,
        volume: u32,
        market_time_frame: TimeFrame,
        trade_position_type: TradeType,
        algo_type: AlgoTypes,
        entry_price: i64,
        trade_sl: i64,
        trade_target: i64,
        algo_id: String,
        created_at: String,
        id: String,
    ) -> (signal: Option<TradeSignal>)
        ensures
            signal is Some <==> entry_price > 0,
            entry_price > 0 ==> signal == Some(
                TradeSignal {
                    raw_stock: RawStock {
                        symbol,
                        date,
                        close,
                        high,
                        low,
                        open,
                        volume,
                        market_time_frame,
                    },
                    trade_position_type,
                    trade_algo_type: algo_type,
                    created_at,
                    entry_price,
                    trade_sl,
                    trade_target,
                    qty: QTY,
                    total_price: (entry_price * QTY) as u128,
                    id,
                    algo_id,
                },
            ),
    {
        if entry_price <= 0 {
            return None;
        }
        let total_price: u128 = entry_price as u128 * 10;
        Some(
            TradeSignal {
                raw_stock: RawStock::new(
                    symbol,
                    date,
                    close,
                    high,
                    low,
                    open,
                    volume,
                    market_time_frame,
                ),
                trade_position_type,
                trade_algo_type: algo_type,
                created_at,
                entry_price,
                trade_sl,
                trade_target,
                qty: QTY,
                total_price,
                id,
                algo_id,
            },
        )
    }
}

/// The signals of one run, in the order in which they were raised.
#[derive(Debug, Clone)]
pub struct TradeSignalsKeeper {
    pub trade_signals: Vec<TradeSignal>,
}

impl View for TradeSignalsKeeper {
    type V = Seq<TradeSignal>;

    /// The signals, oldest first.
    open spec fn view(&self) -> Seq<TradeSignal> {
        self.trade_signals@
    }
}

impl TradeSignalsKeeper {
    pub fn new() -> (keeper: TradeSignalsKeeper)
        ensures
            keeper@ == Seq::<TradeSignal>::empty(),
    {
        TradeSignalsKeeper { trade_signals: Vec::new() }
    }

    pub fn add_trade_signal(&mut self, trade_signal: &TradeSignal)
        ensures
            final(self)@ == old(self)@.push(*trade_signal),
    {
        self.trade_signals.push(trade_signal.duplicate());
    }

    pub fn get_trade_signals(&self) -> (signals: &Vec<TradeSignal>)
        ensures
            signals@ == self@,
    {
        &self.trade_signals
    }
}

} // verus!
