//! A backtest over the budget of one configuration.

use vstd::prelude::*;

verus! {

#[derive(Debug, Clone, PartialEq, Eq)]
pub struct AlgoBacktester {
    pub pnl_configuration_id: String,
}

impl AlgoBacktester {
    pub fn new(pnl_configuration_id: String) -> (backtester: AlgoBacktester)
        ensures
            backtester.pnl_configuration_id == pnl_configuration_id,
    {
        AlgoBacktester { pnl_configuration_id }
    }
}

} // verus!
