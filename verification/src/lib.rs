//! A candle-driven trading decision engine.
//!
//! Prices are fixed-point integers (a whole number of price ticks), so every
//! ratio test of the pattern detector is an exact comparison of products.

pub mod enums;
pub mod utils;
pub mod raw_stock;
pub mod previous_volatility_in_stocks;
pub mod support_resistance_fractol;
pub mod date_parser;
pub mod current_market_state;
pub mod trade_signal_keeper;
pub mod hammer_pattern;
pub mod pnl_state;
pub mod order_dispatcher;
pub mod monitor_trade;
pub mod shooting_star_pattern;
pub mod algo_configurator;
pub mod algo_backtester;
pub mod algo_dispatcher;
