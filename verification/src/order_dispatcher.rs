//! Orders and the ledger of open orders.
//!
//! An order is placed, then executed, then closed, and never goes back. The
//! ledger holds the orders that are not closed, at most one for a symbol, an
//! algorithm and a user.

use vstd::prelude::*;
use vstd::string::*;
use crate::enums::{AlgoTypes, TradeType};
use crate::pnl_state::{CurrentPnLState, TradeDecision};
use crate::trade_signal_keeper::TradeSignal;
use crate::utils::{order_cache_key, order_cache_key_formatter};

verus! {

/// Where an order stands in its life.
#[derive(Debug, Clone, Copy, PartialEq, Eq, Structural)]
pub enum OrderPhase {
    Placed,
    Executed,
    Closed,
}

#[derive(Debug, Clone, PartialEq, Eq)]
pub struct Order {
    pub symbol: String,
    pub trade_position_type: TradeType,
    pub trade_algo_type: AlgoTypes,
    pub user_id: String,
    pub entry_price: i64,
    pub exit_price: i64,
    pub trade_sl: i64,
    pub trade_target: i64,
    pub phase: OrderPhase,
    pub qty: u32,
    /// The notional that the order binds.
    pub total_price: u128,
    pub trade_taken_at: String,
    pub order_executed_at: String,
    pub trade_closed_at: String,
    /// The identity that the ledger gave the order; later orders have larger ones.
    pub order_id: u64,
    /// The key of the symbol, the algorithm and the user.
    pub cache_key: String,
    pub closing_profit: i128,
    pub is_profitable_trade: bool,
}

/// What closing a position brings: the way from entry to exit times the
/// quantity for a long position, and the way back for a short one.
pub open spec fn closing_profit_of(position: TradeType, entry: int, exit: int, qty: int) -> int {
    match position {
        TradeType::Long => (exit - entry) * qty,
        TradeType::Short => (entry - exit) * qty,
    }
}

impl Order {
    pub open spec fn is_open(&self) -> bool {
        self.phase != OrderPhase::Closed
    }

    pub open spec fn is_executed(&self) -> bool {
        self.phase != OrderPhase::Placed
    }

    /// The key that the order must carry.
    pub open spec fn dedup_key(&self) -> Seq<char> {
        order_cache_key(self.symbol@, self.trade_algo_type, self.user_id@)
    }

    pub fn new(
        symbol: String,
        trade_position_type: TradeType,
        trade_algo_type: AlgoTypes,
        user_id: String,
        entry_price: i64,
        exit_price: i64,
        trade_sl: i64,
        trade_target: i64,
        phase: OrderPhase,
        qty: u32,
        total_price: u128,
        trade_taken_at: String,
        order_executed_at: String,
        trade_closed_at: String,
        order_id: u64,
        cache_key: String,
        closing_profit: i128,
        is_profitable_trade: bool,
    ) -> (order: Order)
        ensures
            order == (Order {
                symbol,
                trade_position_type,
                trade_algo_type,
                user_id,
                entry_price,
                exit_price,
                trade_sl,
                trade_target,
                phase,
                qty,
                total_price,
                trade_taken_at,
                order_executed_at,
                trade_closed_at,
                order_id,
                cache_key,
                closing_profit,
                is_profitable_trade,
            }),
    {
        Order {
            symbol,
            trade_position_type,
            trade_algo_type,
            user_id,
            entry_price,
            exit_price,
            trade_sl,
            trade_target,
            phase,
            qty,
            total_price,
            trade_taken_at,
            order_executed_at,
            trade_closed_at,
            order_id,
            cache_key,
            closing_profit,
            is_profitable_trade,
        }
    }

    /// Whether the order is placed or executed, and not yet closed.
    pub fn is_trade_open(&self) -> (open: bool)
        ensures
            open == self.is_open(),
    {
        match self.phase {
            OrderPhase::Closed => false,
            _ => true,
        }
    }

    /// Whether the order was filled.
    pub fn is_trade_executed(&self) -> (executed: bool)
        ensures
            executed == self.is_executed(),
    {
        match self.phase {
            OrderPhase::Placed => false,
            _ => true,
        }
    }

    /// A second order with the same fields.
    pub fn duplicate(&self) -> (copy: Order)
        ensures
            copy == *self,
    {
        Order {
            symbol: self.symbol.clone(),
            trade_position_type: self.trade_position_type,
            trade_algo_type: self.trade_algo_type,
            user_id: self.user_id.clone(),
            entry_price: self.entry_price,
            exit_price: self.exit_price,
            trade_sl: self.trade_sl,
            trade_target: self.trade_target,
            phase: self.phase,
            qty: self.qty,
            total_price: self.total_price,
            trade_taken_at: self.trade_taken_at.clone(),
            order_executed_at: self.order_executed_at.clone(),
            trade_closed_at: self.trade_closed_at.clone(),
            order_id: self.order_id,
            cache_key: self.cache_key.clone(),
            closing_profit: self.closing_profit,
            is_profitable_trade: self.is_profitable_trade,
        }
    }

    /// The order after its fill at `fill_price`.
    pub open spec fn executed_at_price(self, fill_price: i64, executed_at: String) -> Order {
        Order {
            phase: OrderPhase::Executed,
            entry_price: fill_price,
            order_executed_at: executed_at,
            ..self
        }
    }

    /// The order after its exit at `exit_price`.
    pub open spec fn closed_at_price(self, exit_price: i64, closed_at: String) -> Order {
        Order {
            phase: OrderPhase::Closed,
            exit_price,
            trade_closed_at: closed_at,
            closing_profit: closing_profit_of(
                self.trade_position_type,
                self.entry_price as int,
                exit_price as int,
                self.qty as int,
            ) as i128,
            is_profitable_trade: closing_profit_of(
                self.trade_position_type,
                self.entry_price as int,
                exit_price as int,
                self.qty as int,
            ) > 0,
            ..self
        }
    }

    /// Fills a placed order. An order in another phase stays as it is.
    pub fn mark_executed(&mut self, fill_price: i64, executed_at: String) -> (done: bool)
        ensures
            done == (old(self).phase == OrderPhase::Placed),
            *final(self) == (if done {
                old(self).executed_at_price(fill_price, executed_at)
            } else {
                *old(self)
            }),
    {
        match self.phase {
            OrderPhase::Placed => {
                self.phase = OrderPhase::Executed;
                self.entry_price = fill_price;
                self.order_executed_at = executed_at;
                true
            },
            _ => false,
        }
    }

    /// Closes an executed order at `exit_price` and books its profit. An
    /// order in another phase stays as it is: a closed order is not closed
    /// again, and an order that was never filled has nothing to close.
    pub fn exit_trade(&mut self, exit_price: i64, trade_closed_at: String) -> (done: bool)
        ensures
            done == (old(self).phase == OrderPhase::Executed),
            *final(self) == (if done {
                old(self).closed_at_price(exit_price, trade_closed_at)
            } else {
                *old(self)
            }),
    {
        match self.phase {
            OrderPhase::Executed => {
                let (profit, profitable) = OrderManager::calculate_profit(self, exit_price);
                self.phase = OrderPhase::Closed;
                self.exit_price = exit_price;
                self.trade_closed_at = trade_closed_at;
                self.closing_profit = profit;
                self.is_profitable_trade = profitable;
                true
            },
            _ => false,
        }
    }
}

/// How a dispatch ended.
#[derive(Debug, Clone, PartialEq, Eq)]
pub enum DispatchOutcome {
    /// An order was placed under this identity.
    Placed(u64),
    /// The user already holds an open order for the symbol and the algorithm.
    Duplicate,
    /// The risk state is not for the signal's symbol or does not list its algorithm.
    NotEligible,
    /// The risk state refused the order, for this reason.
    Rejected(String),
    /// The ledger has no identity left to give.
    Exhausted,
}

/// Whether an algorithm stands in a list.
pub open spec fn lists_algo(algo_types: Seq<AlgoTypes>, algo_type: AlgoTypes) -> bool {
    exists|i: int| 0 <= i < algo_types.len() && #[trigger] algo_types[i] == algo_type
}

/// Whether a risk state is for the symbol and lists the algorithm.
pub open spec fn covers_signal(state: CurrentPnLState, signal: TradeSignal) -> bool {
    state.symbol@ == signal.raw_stock.symbol@ && lists_algo(
        state.trading_algo_types@,
        signal.trade_algo_type,
    )
}

/// The order that a signal becomes for a user.
pub open spec fn placed_order_matches(
    order: Order,
    signal: TradeSignal,
    user_id: Seq<char>,
    order_id: u64,
) -> bool {
    &&& order.symbol@ == signal.raw_stock.symbol@
    &&& order.trade_position_type == signal.trade_position_type
    &&& order.trade_algo_type == signal.trade_algo_type
    &&& order.user_id@ == user_id
    &&& order.entry_price == signal.entry_price
    &&& order.exit_price == 0
    &&& order.trade_sl == signal.trade_sl
    &&& order.trade_target == signal.trade_target
    &&& order.phase == OrderPhase::Placed
    &&& order.qty == signal.qty
    &&& order.total_price == signal.total_price
    &&& order.trade_taken_at@ == signal.created_at@
    &&& order.order_executed_at@ == Seq::<char>::empty()
    &&& order.trade_closed_at@ == Seq::<char>::empty()
    &&& order.order_id == order_id
    &&& order.cache_key@ == order.dedup_key()
    &&& order.closing_profit == 0
    &&& !order.is_profitable_trade
}

/// Whether a ledger, a risk state and an outcome are what the dispatch of a
/// signal for one user leaves. In this order: a user who already holds an
/// open order under the key gets none; a risk state that does not cover the
/// signal gets none; a ledger without a free identity places none; a risk
/// state that does not admit the notional refuses; and else the order is
/// placed at the end of the ledger. Only the last two touch the risk state.
pub open spec fn is_dispatch_of(
    orders_before: Seq<Order>,
    next_before: u64,
    orders_after: Seq<Order>,
    next_after: u64,
    risk_before: CurrentPnLState,
    risk_after: CurrentPnLState,
    signal: TradeSignal,
    user_id: Seq<char>,
    exists_in_store: bool,
    outcome: DispatchOutcome,
) -> bool {
    let key = order_cache_key(signal.raw_stock.symbol@, signal.trade_algo_type, user_id);
    let untouched = orders_after == orders_before && next_after == next_before;
    if exists_in_store || holds_key(orders_before, key) {
        outcome == DispatchOutcome::Duplicate && untouched && risk_after == risk_before
    } else if !covers_signal(risk_before, signal) {
        outcome == DispatchOutcome::NotEligible && untouched && risk_after == risk_before
    } else if next_before == u64::MAX {
        outcome == DispatchOutcome::Exhausted && untouched && risk_after == risk_before
    } else if !risk_before.admits(signal.total_price) {
        &&& outcome matches DispatchOutcome::Rejected(reason) && reason@
            == risk_after.not_eligible_trading_reason@
        &&& untouched
        &&& risk_after.follows_admission(risk_before, signal.total_price)
    } else {
        &&& outcome == DispatchOutcome::Placed(next_before)
        &&& next_after == next_before + 1
        &&& orders_after == orders_before.push(orders_after.last())
        &&& placed_order_matches(orders_after.last(), signal, user_id, next_before)
        &&& risk_after.follows_admission(risk_before, signal.total_price)
    }
}

/// Whether a ledger, the risk states and the outcomes are what the dispatch
/// of a signal to the first `count` risk states leaves, each for the user of
/// its state and one after the other.
pub open spec fn are_users_served(
    orders_before: Seq<Order>,
    next_before: u64,
    risk_before: Seq<CurrentPnLState>,
    orders_after: Seq<Order>,
    next_after: u64,
    risk_after: Seq<CurrentPnLState>,
    outcomes: Seq<DispatchOutcome>,
    signal: TradeSignal,
    count: nat,
) -> bool
    decreases count,
{
    if count == 0 {
        orders_after == orders_before && next_after == next_before && outcomes.len() == 0
    } else {
        &&& outcomes.len() == count
        &&& count <= risk_before.len()
        &&& count <= risk_after.len()
        &&& exists|orders_between: Seq<Order>, next_between: u64|
            are_users_served(
                orders_before,
                next_before,
                risk_before,
                orders_between,
                next_between,
                risk_after,
                outcomes.drop_last(),
                signal,
                (count - 1) as nat,
            ) && #[trigger] is_dispatch_of(
                orders_between,
                next_between,
                orders_after,
                next_after,
                risk_before[count - 1],
                risk_after[count - 1],
                signal,
                risk_before[count - 1].user_id@,
                false,
                outcomes.last(),
            )
    }
}

/// A dispatch leaves a ledger with at most one open order for a symbol, an
/// algorithm and a user as such a ledger.
pub proof fn lemma_dispatch_keeps_one_open_order(
    orders_before: Seq<Order>,
    next_before: u64,
    orders_after: Seq<Order>,
    next_after: u64,
    risk_before: CurrentPnLState,
    risk_after: CurrentPnLState,
    signal: TradeSignal,
    user_id: Seq<char>,
    exists_in_store: bool,
    outcome: DispatchOutcome,
)
    requires
        is_open_ledger(orders_before),
        is_dispatch_of(
            orders_before,
            next_before,
            orders_after,
            next_after,
            risk_before,
            risk_after,
            signal,
            user_id,
            exists_in_store,
            outcome,
        ),
    ensures
        is_open_ledger(orders_after),
        outcome is Placed ==> !holds_key(
            orders_before,
            order_cache_key(signal.raw_stock.symbol@, signal.trade_algo_type, user_id),
        ),
{
    if outcome is Placed {
        let key = order_cache_key(signal.raw_stock.symbol@, signal.trade_algo_type, user_id);
        let placed = orders_after.last();
        assert(orders_after.len() == orders_before.len() + 1);
        assert(forall|i: int| 0 <= i < orders_before.len() ==> orders_after[i] == orders_before[i]);
        assert(placed.cache_key@ == key);
        assert forall|i: int, j: int| 0 <= i < j < orders_after.len() implies (
        #[trigger] orders_after[i]).cache_key@ != (#[trigger] orders_after[j]).cache_key@ by {
            if j == orders_after.len() - 1 {
                assert(orders_before[i].cache_key@ != key);
            } else {
                assert(orders_before[i].cache_key@ != orders_before[j].cache_key@);
            }
        }
    }
}

/// What was left for the first `count` risk states does not depend on the
/// states after them.
pub proof fn lemma_served_users_stay_served(
    orders_before: Seq<Order>,
    next_before: u64,
    risk_before: Seq<CurrentPnLState>,
    orders_after: Seq<Order>,
    next_after: u64,
    risk_after: Seq<CurrentPnLState>,
    risk_later: Seq<CurrentPnLState>,
    outcomes: Seq<DispatchOutcome>,
    signal: TradeSignal,
    count: nat,
)
    requires
        are_users_served(
            orders_before,
            next_before,
            risk_before,
            orders_after,
            next_after,
            risk_after,
            outcomes,
            signal,
            count,
        ),
        count <= risk_later.len(),
        forall|i: int| 0 <= i < count ==> risk_later[i] == risk_after[i],
    ensures
        are_users_served(
            orders_before,
            next_before,
            risk_before,
            orders_after,
            next_after,
            risk_later,
            outcomes,
            signal,
            count,
        ),
    decreases count,
{
    if count > 0 {
        let (orders_between, next_between) = choose|orders_between: Seq<Order>, next_between: u64|
            are_users_served(
                orders_before,
                next_before,
                risk_before,
                orders_between,
                next_between,
                risk_after,
                outcomes.drop_last(),
                signal,
                (count - 1) as nat,
            ) && #[trigger] is_dispatch_of(
                orders_between,
                next_between,
                orders_after,
                next_after,
                risk_before[count - 1],
                risk_after[count - 1],
                signal,
                risk_before[count - 1].user_id@,
                false,
                outcomes.last(),
            );
        lemma_served_users_stay_served(
            orders_before,
            next_before,
            risk_before,
            orders_between,
            next_between,
            risk_after,
            risk_later,
            outcomes.drop_last(),
            signal,
            (count - 1) as nat,
        );
        assert(is_dispatch_of(
            orders_between,
            next_between,
            orders_after,
            next_after,
            risk_before[count - 1],
            risk_later[count - 1],
            signal,
            risk_before[count - 1].user_id@,
            false,
            outcomes.last(),
        ));
    }
}

/// The ledger of open orders.
#[derive(Debug, Clone)]
pub struct OrderManager {
    pub orders: Vec<Order>,
    /// The identity that the next order gets.
    pub next_order_id: u64,
}

/// Whether a run of orders holds an order under a key.
pub open spec fn holds_key(orders: Seq<Order>, key: Seq<char>) -> bool {
    exists|i: int| 0 <= i < orders.len() && (#[trigger] orders[i]).cache_key@ == key
}

/// Whether all orders of a run are open, carry their own key, and no two of
/// them the same.
pub open spec fn is_open_ledger(orders: Seq<Order>) -> bool {
    &&& forall|i: int|
        0 <= i < orders.len() ==> (#[trigger] orders[i]).is_open() && orders[i].cache_key@
            == orders[i].dedup_key()
    &&& forall|i: int, j: int|
        0 <= i < j < orders.len() ==> (#[trigger] orders[i]).cache_key@ != (
        #[trigger] orders[j]).cache_key@
}

impl OrderManager {
    /// At most one open order for a symbol, an algorithm and a user; no
    /// closed order; every identity below the next one.
    pub open spec fn is_consistent(&self) -> bool {
        &&& is_open_ledger(self.orders@)
        &&& forall|i: int|
            0 <= i < self.orders@.len() ==> (#[trigger] self.orders@[i]).order_id
                < self.next_order_id
    }

    pub fn new() -> (manager: OrderManager)
        ensures
            manager.orders@ == Seq::<Order>::empty(),
            manager.next_order_id == 0,
            manager.is_consistent(),
    {
        OrderManager { orders: Vec::new(), next_order_id: 0 }
    }

    /// Whether the ledger holds only open orders, each under its own key,
    /// no two under the same, and each with an identity below the next one:
    /// the test for a ledger that comes from a store.
    pub fn check_consistency(&self) -> (consistent: bool)
        ensures
            consistent == self.is_consistent(),
    {
        let count: usize = self.orders.len();
        let mut i: usize = 0;
        while i < count
            invariant
                i <= count,
                count == self.orders@.len(),
                forall|a: int|
                    0 <= a < i ==> (#[trigger] self.orders@[a]).is_open() && self.orders@[a].cache_key@
                        == self.orders@[a].dedup_key() && self.orders@[a].order_id
                        < self.next_order_id,
                forall|a: int, b: int|
                    0 <= a < b < i ==> (#[trigger] self.orders@[a]).cache_key@ != (
                    #[trigger] self.orders@[b]).cache_key@,
            decreases count - i,
        {
            let order = &self.orders[i];
            let key = order_cache_key_formatter(
                order.symbol.as_str(),
                &order.trade_algo_type,
                order.user_id.as_str(),
            );
            if !order.is_trade_open() || !(order.cache_key == key) || order.order_id
                >= self.next_order_id {
                return false;
            }
            let mut j: usize = 0;
            while j < i
                invariant
                    j <= i < count,
                    count == self.orders@.len(),
                    forall|a: int|
                        0 <= a < j ==> (#[trigger] self.orders@[a]).cache_key@
                            != self.orders@[i as int].cache_key@,
                decreases i - j,
            {
                if self.orders[j].cache_key == self.orders[i].cache_key {
                    return false;
                }
                j += 1;
            }
            i += 1;
        }
        true
    }

    pub fn get_orders(&self) -> (orders: &Vec<Order>)
        ensures
            orders@ == self.orders@,
    {
        &self.orders
    }

    /// Whether the ledger holds an order under the key.
    pub fn check_if_order_exists(&self, cache_key: &str) -> (exists: bool)
        ensures
            exists == holds_key(self.orders@, cache_key@),
    {
        let wanted = String::from_str(cache_key);
        let mut i: usize = 0;
        while i < self.orders.len()
            invariant
                i <= self.orders.len(),
                wanted@ == cache_key@,
                forall|j: int| 0 <= j < i ==> (#[trigger] self.orders@[j]).cache_key@ != cache_key@,
            decreases self.orders.len() - i,
        {
            if self.orders[i].cache_key == wanted {
                return true;
            }
            i += 1;
        }
        false
    }

    /// The profit of closing an order at `exit_price`, and whether it is one.
    pub fn calculate_profit(order: &Order, exit_price: i64) -> (profit: (i128, bool))
        ensures
            profit.0 == closing_profit_of(
                order.trade_position_type,
                order.entry_price as int,
                exit_price as int,
                order.qty as int,
            ),
            profit.1 == (profit.0 > 0),
    {
        let way: i128 = match order.trade_position_type {
            TradeType::Long => exit_price as i128 - order.entry_price as i128,
            TradeType::Short => order.entry_price as i128 - exit_price as i128,
        };
        proof {
            assert(-0x1_0000_0000_0000_0000 * 0x1_0000_0000 <= way * order.qty
                <= 0x1_0000_0000_0000_0000 * 0x1_0000_0000) by (nonlinear_arith)
                requires
                    -0x1_0000_0000_0000_0000 <= way <= 0x1_0000_0000_0000_0000,
                    0 <= order.qty <= 0xffff_ffff,
            ;
        }
        let profit: i128 = way * (order.qty as i128);
        (profit, profit > 0)
    }

    /// Whether the risk state is for the signal's symbol and lists its algorithm.
    pub fn is_signal_covered(state: &CurrentPnLState, signal: &TradeSignal) -> (covered: bool)
        ensures
            covered == covers_signal(*state, *signal),
    {
        if !(state.symbol == signal.raw_stock.symbol) {
            return false;
        }
        let mut i: usize = 0;
        while i < state.trading_algo_types.len()
            invariant
                i <= state.trading_algo_types.len(),
                state.symbol@ == signal.raw_stock.symbol@,
                forall|j: int|
                    0 <= j < i ==> #[trigger] state.trading_algo_types@[j]
                        != signal.trade_algo_type,
            decreases state.trading_algo_types.len() - i,
        {
            if state.trading_algo_types[i] == signal.trade_algo_type {
                return true;
            }
            i += 1;
        }
        false
    }

    /// Turns a signal into a placed order for one user, unless the user
    /// already holds an open order for the symbol and the algorithm
    /// (`exists_in_store` says what the stores know of one), the risk state
    /// does not cover the signal, or the risk state refuses the notional.
    /// Only the refusal and the placing touch the risk state.
    pub fn check_and_dispatch_order(
        &mut self,
        trade_signal: &TradeSignal,
        user_id: &str,
        risk_state: &mut CurrentPnLState,
        exists_in_store: bool,
    ) -> (outcome: DispatchOutcome)
        ensures
            old(self).is_consistent() ==> final(self).is_consistent(),
            final(risk_state).follows_any_admission(*old(risk_state)),
            is_dispatch_of(
                old(self).orders@,
                old(self).next_order_id,
                final(self).orders@,
                final(self).next_order_id,
                *old(risk_state),
                *final(risk_state),
                *trade_signal,
                user_id@,
                exists_in_store,
                outcome,
            ),
    {
        let key = order_cache_key_formatter(
            trade_signal.raw_stock.symbol.as_str(),
            &trade_signal.trade_algo_type,
            user_id,
        );
        if exists_in_store || self.check_if_order_exists(key.as_str()) {
            return DispatchOutcome::Duplicate;
        }
        if !Self::is_signal_covered(risk_state, trade_signal) {
            return DispatchOutcome::NotEligible;
        }
        if self.next_order_id == u64::MAX {
            return DispatchOutcome::Exhausted;
        }
        match risk_state.is_order_tradeable(trade_signal.total_price) {
            TradeDecision::Rejected(reason) => DispatchOutcome::Rejected(reason),
            TradeDecision::Tradeable => {
                let order_id: u64 = self.next_order_id;
                let order = Order::new(
                    trade_signal.raw_stock.symbol.clone(),
                    trade_signal.trade_position_type,
                    trade_signal.trade_algo_type,
                    String::from_str(user_id),
                    trade_signal.entry_price,
                    0,
                    trade_signal.trade_sl,
                    trade_signal.trade_target,
                    OrderPhase::Placed,
                    trade_signal.qty,
                    trade_signal.total_price,
                    trade_signal.created_at.clone(),
                    String::new(),
                    String::new(),
                    order_id,
                    key,
                    0,
                    false,
                );
                self.orders.push(order);
                self.next_order_id = order_id + 1;
                proof {
                    let before = old(self).orders@;
                    let after = self.orders@;
                    assert(forall|i: int| 0 <= i < before.len() ==> after[i] == before[i]);
                    if old(self).is_consistent() {
                        assert forall|i: int, j: int| 0 <= i < j < after.len() implies (
                        #[trigger] after[i]).cache_key@ != (#[trigger] after[j]).cache_key@ by {
                            if j == after.len() - 1 {
                                assert(before[i].cache_key@ != order.cache_key@);
                            } else {
                                assert(before[i].cache_key@ != before[j].cache_key@);
                            }
                        }
                    }
                }
                DispatchOutcome::Placed(order_id)
            },
        }
    }

    /// Dispatches a signal to every risk state in turn, each for the user of
    /// its state. The outcomes come in the order of the states.
    pub fn dispatch(&mut self, trade_signal: &TradeSignal, risk_states: &mut Vec<CurrentPnLState>) -> (outcomes:
        Vec<DispatchOutcome>)
        ensures
            outcomes@.len() == old(risk_states)@.len(),
            final(risk_states)@.len() == old(risk_states)@.len(),
            are_users_served(
                old(self).orders@,
                old(self).next_order_id,
                old(risk_states)@,
                final(self).orders@,
                final(self).next_order_id,
                final(risk_states)@,
                outcomes@,
                *trade_signal,
                old(risk_states)@.len(),
            ),
            forall|i: int|
                0 <= i < old(risk_states)@.len() ==> (#[trigger] final(risk_states)@[i]).follows_any_admission(old(risk_states)@[i]),
            old(self).is_consistent() ==> final(self).is_consistent(),
    {
        let mut outcomes: Vec<DispatchOutcome> = Vec::new();
        let count: usize = risk_states.len();
        let mut i: usize = 0;
        while i < count
            invariant
                i <= count,
                count == old(risk_states)@.len(),
                risk_states@.len() == count,
                outcomes@.len() == i,
                are_users_served(
                    old(self).orders@,
                    old(self).next_order_id,
                    old(risk_states)@,
                    self.orders@,
                    self.next_order_id,
                    risk_states@,
                    outcomes@,
                    *trade_signal,
                    i as nat,
                ),
                forall|j: int| i <= j < count ==> risk_states@[j] == old(risk_states)@[j],
                forall|j: int|
                    0 <= j < i ==> (#[trigger] risk_states@[j]).follows_any_admission(
                        old(risk_states)@[j],
                    ),
                old(self).is_consistent() ==> self.is_consistent(),
            decreases count - i,
        {
            let ghost orders_between = self.orders@;
            let ghost next_between = self.next_order_id;
            let ghost risk_between = risk_states@;
            let ghost outcomes_between = outcomes@;
            let mut state = risk_states.remove(i);
            let user_id = state.user_id.clone();
            let outcome = self.check_and_dispatch_order(trade_signal, user_id.as_str(), &mut state, false);
            risk_states.insert(i, state);
            outcomes.push(outcome);
            proof {
                lemma_served_users_stay_served(
                    old(self).orders@,
                    old(self).next_order_id,
                    old(risk_states)@,
                    orders_between,
                    next_between,
                    risk_between,
                    risk_states@,
                    outcomes_between,
                    *trade_signal,
                    i as nat,
                );
                assert(outcomes@.drop_last() == outcomes_between);
                assert(is_dispatch_of(
                    orders_between,
                    next_between,
                    self.orders@,
                    self.next_order_id,
                    old(risk_states)@[i as int],
                    risk_states@[i as int],
                    *trade_signal,
                    old(risk_states)@[i as int].user_id@,
                    false,
                    outcomes@.last(),
                ));
            }
            i += 1;
        }
        outcomes
    }

    /// The closed copy of an executed order that exits at `exit_price`. An
    /// order in another phase has none.
    pub fn exit_and_update_order(order: &Order, exit_price: i64, closed_at: String) -> (closed: Option<
        Order,
    >)
        ensures
            closed is Some <==> order.phase == OrderPhase::Executed,
            closed is Some ==> closed.unwrap() == order.closed_at_price(exit_price, closed_at),
    {
        let mut copy = order.duplicate();
        if copy.exit_trade(exit_price, closed_at) {
            Some(copy)
        } else {
            None
        }
    }
}

} // verus!
