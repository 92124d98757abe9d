//! Deterministic cache keys.
//!
//! Every record of the engine lives under a key built from the values that
//! identify it, so that the fast cache and the durable store agree on it.

use vstd::prelude::*;
use vstd::string::*;
use crate::enums::{AlgoTypes, TimeFrame};

verus! {

/// The characters that Unicode gives the property `White_Space`.
pub open spec fn is_white_space(c: char) -> bool {
    let code = c as u32;
    ||| 0x09 <= code <= 0x0D
    ||| code == 0x20
    ||| code == 0x85
    ||| code == 0xA0
    ||| code == 0x1680
    ||| 0x2000 <= code <= 0x200A
    ||| code == 0x2028
    ||| code == 0x2029
    ||| code == 0x202F
    ||| code == 0x205F
    ||| code == 0x3000
}

/// How many white-space characters a text starts with.
pub open spec fn leading_white_space(text: Seq<char>) -> nat
    decreases text.len(),
{
    if text.len() > 0 && is_white_space(text[0]) {
        1 + leading_white_space(text.skip(1))
    } else {
        0
    }
}

/// How many white-space characters a text ends with.
pub open spec fn trailing_white_space(text: Seq<char>) -> nat
    decreases text.len(),
{
    if text.len() > 0 && is_white_space(text.last()) {
        1 + trailing_white_space(text.drop_last())
    } else {
        0
    }
}

/// A text without the white space at its two ends.
pub open spec fn trimmed(text: Seq<char>) -> Seq<char> {
    let rest = text.skip(leading_white_space(text) as int);
    rest.take(rest.len() - trailing_white_space(rest))
}

/// `str::trim` of std: the text between the first and the last character
/// that is not white space, as a new `String`.
#[verifier::external_body]
fn trim_text(text: &str) -> (out: String)
    ensures
        out@ == trimmed(text@),
{
    text.trim().to_string()
}

pub open spec fn order_cache_key(symbol: Seq<char>, algo_type: AlgoTypes, user_id: Seq<char>) -> Seq<
    char,
> {
    "ORDER_"@ + symbol + "_"@ + algo_type.label() + "_"@ + user_id
}

pub open spec fn market_state_cache_key(
    trade_date_only: Seq<char>,
    symbol: Seq<char>,
    time_frame: TimeFrame,
) -> Seq<char> {
    "CMS"@ + "_"@ + trade_date_only + "_"@ + symbol + "_"@ + time_frame.label()
}

pub open spec fn pnl_state_cache_key(
    trade_date_only: Seq<char>,
    symbol: Seq<char>,
    pnl_configuration_id: Seq<char>,
) -> Seq<char> {
    "CPnL"@ + "_"@ + trade_date_only + "_"@ + trimmed(symbol) + "_"@ + pnl_configuration_id
}

pub open spec fn pnl_algo_types_cache_key(
    trade_date_only: Seq<char>,
    pnl_configuration_id: Seq<char>,
) -> Seq<char> {
    "CPnL_AlgoTypes_"@ + "_"@ + trade_date_only + "_"@ + pnl_configuration_id
}

/// The key under which the one open order of a symbol, an algorithm and a
/// user is known.
pub fn order_cache_key_formatter(symbol: &str, algo_type: &AlgoTypes, user_id: &str) -> (key: String)
    ensures
        key@ == order_cache_key(symbol@, *algo_type, user_id@),
{
    let algo_label = algo_type.to_string();
    let mut key = String::from_str("ORDER_");
    key.append(symbol);
    key.append("_");
    key.append(algo_label.as_str());
    key.append("_");
    key.append(user_id);
    key
}

/// The key of the market snapshot of a day, a symbol and a time frame.
pub fn current_market_state_cache_key_formatter(
    trade_date_only: &str,
    symbol: &str,
    market_time_frame: &TimeFrame,
) -> (key: String)
    ensures
        key@ == market_state_cache_key(trade_date_only@, symbol@, *market_time_frame),
{
    let frame_label = market_time_frame.to_string();
    let mut key = String::from_str("CMS");
    key.append("_");
    key.append(trade_date_only);
    key.append("_");
    key.append(symbol);
    key.append("_");
    key.append(frame_label.as_str());
    key
}

/// The key of the risk state of a day, a symbol and a configuration. White
/// space round the symbol does not count.
pub fn current_pnl_state_cache_key_formatted(
    trade_date_only: &str,
    symbol: &str,
    pnl_configuration_id: &str,
) -> (key: String)
    ensures
        key@ == pnl_state_cache_key(trade_date_only@, symbol@, pnl_configuration_id@),
{
    let bare_symbol = trim_text(symbol);
    let mut key = String::from_str("CPnL");
    key.append("_");
    key.append(trade_date_only);
    key.append("_");
    key.append(bare_symbol.as_str());
    key.append("_");
    key.append(pnl_configuration_id);
    key
}

/// The key of the list of algorithms that a configuration may trade on a day.
pub fn current_pnl_state_cache_key_algotypes_formatted(
    trade_date_only: &str,
    pnl_configuration_id: &str,
) -> (key: String)
    ensures
        key@ == pnl_algo_types_cache_key(trade_date_only@, pnl_configuration_id@),
{
    let mut key = String::from_str("CPnL_AlgoTypes_");
    key.append("_");
    key.append(trade_date_only);
    key.append("_");
    key.append(pnl_configuration_id);
    key
}

} // verus!
