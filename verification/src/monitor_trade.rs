//! The watch over open orders.
//!
//! Every candle may fill the placed orders of its symbol and close the
//! executed ones. A closed order is booked on the risk state of its user
//! and symbol, and only then leaves the ledger.

use vstd::prelude::*;
use vstd::string::*;
use crate::date_parser::{return_only_time_from_datetime, stock_seconds_of_day};
use crate::enums::TradeType;
use crate::order_dispatcher::{is_open_ledger, Order, OrderManager, OrderPhase};
use crate::pnl_state::CurrentPnLState;
use crate::raw_stock::RawStock;

verus! {

/// The end of the trading day for open positions: 15:15:00, in seconds since
/// midnight.
pub const THRESHOLD_TRADE_END_TIME: u32 = 54900;

/// What a candle does to an order.
#[derive(Debug, Clone, Copy, PartialEq, Eq, Structural)]
pub enum OrderStep {
    Unchanged,
    Executed,
    Closed,
}

/// A long entry is reached once a candle opens at the asked price or above.
pub open spec fn is_entry_reached(order: Order, stock: RawStock) -> bool {
    order.trade_position_type == TradeType::Long && stock.open >= order.entry_price
}

/// The close has crossed the stop or the target.
pub open spec fn is_exit_crossed(order: Order, stock: RawStock) -> bool {
    match order.trade_position_type {
        TradeType::Long => stock.close <= order.trade_sl || stock.close >= order.trade_target,
        TradeType::Short => stock.close >= order.trade_sl || stock.close <= order.trade_target,
    }
}

/// The candle's time of day is known and after the cutoff.
pub open spec fn is_past_cutoff(time_of_day: Option<u32>, cutoff: u32) -> bool {
    time_of_day is Some && time_of_day.unwrap() > cutoff
}

/// What a candle does to an order: nothing to an order of another symbol or
/// to a closed one; it fills a placed order whose entry is reached; it closes
/// an executed order whose exit is crossed or whose day is over.
pub open spec fn order_step(order: Order, stock: RawStock, time_of_day: Option<u32>, cutoff: u32)
    -> OrderStep {
    if order.symbol@ != stock.symbol@ {
        OrderStep::Unchanged
    } else {
        match order.phase {
            OrderPhase::Placed => if is_entry_reached(order, stock) {
                OrderStep::Executed
            } else {
                OrderStep::Unchanged
            },
            OrderPhase::Executed => if is_exit_crossed(order, stock) || is_past_cutoff(
                time_of_day,
                cutoff,
            ) {
                OrderStep::Closed
            } else {
                OrderStep::Unchanged
            },
            OrderPhase::Closed => OrderStep::Unchanged,
        }
    }
}

/// The order after the candle: filled at the candle's open, or closed at its
/// close.
pub open spec fn advanced_order(
    order: Order,
    stock: RawStock,
    time_of_day: Option<u32>,
    cutoff: u32,
    now: String,
) -> Order {
    match order_step(order, stock, time_of_day, cutoff) {
        OrderStep::Unchanged => order,
        OrderStep::Executed => order.executed_at_price(stock.open, now),
        OrderStep::Closed => order.closed_at_price(stock.close, now),
    }
}

/// The orders that are open after the candle, in their former order.
pub open spec fn open_after(
    orders: Seq<Order>,
    stock: RawStock,
    time_of_day: Option<u32>,
    cutoff: u32,
    now: String,
) -> Seq<Order>
    decreases orders.len(),
{
    if orders.len() == 0 {
        Seq::<Order>::empty()
    } else {
        let before = open_after(orders.drop_last(), stock, time_of_day, cutoff, now);
        let latest = advanced_order(orders.last(), stock, time_of_day, cutoff, now);
        if latest.is_open() {
            before.push(latest)
        } else {
            before
        }
    }
}

/// The orders that the candle closed, in their former order.
pub open spec fn closed_after(
    orders: Seq<Order>,
    stock: RawStock,
    time_of_day: Option<u32>,
    cutoff: u32,
    now: String,
) -> Seq<Order>
    decreases orders.len(),
{
    if orders.len() == 0 {
        Seq::<Order>::empty()
    } else {
        let before = closed_after(orders.drop_last(), stock, time_of_day, cutoff, now);
        let latest = advanced_order(orders.last(), stock, time_of_day, cutoff, now);
        if latest.is_open() {
            before
        } else {
            before.push(latest)
        }
    }
}

/// Whether a risk state is the one of an order's user and symbol.
pub open spec fn is_risk_state_of(state: CurrentPnLState, order: Order) -> bool {
    state.user_id@ == order.user_id@ && state.symbol@ == order.symbol@
}

/// The place of the first risk state of an order's user and symbol, from
/// `start` on.
pub open spec fn risk_state_index(states: Seq<CurrentPnLState>, order: Order, start: int) -> Option<
    int,
>
    decreases states.len() - start,
{
    if start < 0 || start >= states.len() {
        None
    } else if is_risk_state_of(states[start], order) {
        Some(start)
    } else {
        risk_state_index(states, order, start + 1)
    }
}

/// Whether `after` is `before` with one closed order booked: on the first
/// risk state of its user and symbol, and on no other.
pub open spec fn is_closure_booked(
    before: Seq<CurrentPnLState>,
    after: Seq<CurrentPnLState>,
    order: Order,
    now: String,
) -> bool {
    match risk_state_index(before, order, 0) {
        None => after == before,
        Some(place) => {
            &&& after.len() == before.len()
            &&& 0 <= place < before.len()
            &&& forall|i: int| 0 <= i < before.len() && i != place ==> after[i] == before[i]
            &&& after[place].follows_closure(
                before[place],
                order.is_profitable_trade,
                order.closing_profit,
                now,
            )
        },
    }
}

/// Whether `after` is `before` with a run of closed orders booked, one
/// after the other.
pub open spec fn are_closures_booked(
    before: Seq<CurrentPnLState>,
    after: Seq<CurrentPnLState>,
    closed: Seq<Order>,
    now: String,
) -> bool
    decreases closed.len(),
{
    if closed.len() == 0 {
        after == before
    } else {
        exists|between: Seq<CurrentPnLState>|
            are_closures_booked(before, between, closed.drop_last(), now) && #[trigger] is_closure_booked(
                between,
                after,
                closed.last(),
                now,
            )
    }
}

/// Lets one candle act on one order.
pub fn advance_order(
    order: &mut Order,
    stock: &RawStock,
    time_of_day: Option<u32>,
    cutoff: u32,
    now: &String,
) -> (step: OrderStep)
    ensures
        step == order_step(*old(order), *stock, time_of_day, cutoff),
        *final(order) == advanced_order(*old(order), *stock, time_of_day, cutoff, *now),
{
    if !(order.symbol == stock.symbol) {
        return OrderStep::Unchanged;
    }
    match order.phase {
        OrderPhase::Placed => {
            let reached: bool = match order.trade_position_type {
                TradeType::Long => stock.open >= order.entry_price,
                TradeType::Short => false,
            };
            if reached {
                order.mark_executed(stock.open, now.clone());
                OrderStep::Executed
            } else {
                OrderStep::Unchanged
            }
        },
        OrderPhase::Executed => {
            let crossed: bool = match order.trade_position_type {
                TradeType::Long => stock.close <= order.trade_sl || stock.close
                    >= order.trade_target,
                TradeType::Short => stock.close >= order.trade_sl || stock.close
                    <= order.trade_target,
            };
            let late: bool = match time_of_day {
                Some(seconds) => seconds > cutoff,
                None => false,
            };
            if crossed || late {
                order.exit_trade(stock.close, now.clone());
                OrderStep::Closed
            } else {
                OrderStep::Unchanged
            }
        },
        OrderPhase::Closed => OrderStep::Unchanged,
    }
}

/// The filled copy of a placed order whose entry the candle reaches. Any
/// other order has none.
pub fn advance_execution(order: &Order, stock: &RawStock, now: &String) -> (filled: Option<Order>)
    ensures
        filled is Some <==> order.symbol@ == stock.symbol@ && order.phase == OrderPhase::Placed
            && is_entry_reached(*order, *stock),
        filled is Some ==> filled.unwrap() == order.executed_at_price(stock.open, *now),
{
    match order.phase {
        OrderPhase::Placed => {
            let mut copy = order.duplicate();
            match advance_order(&mut copy, stock, None, 0, now) {
                OrderStep::Executed => Some(copy),
                _ => None,
            }
        },
        _ => None,
    }
}

/// The closed copy of an executed order whose exit the candle's close has
/// crossed, or whose day is over at the candle's time. Any other order has
/// none.
pub fn advance_closure(
    order: &Order,
    stock: &RawStock,
    time_of_day: Option<u32>,
    cutoff_time: u32,
    now: &String,
) -> (closed: Option<Order>)
    ensures
        closed is Some <==> order.symbol@ == stock.symbol@ && order.phase == OrderPhase::Executed
            && (is_exit_crossed(*order, *stock) || is_past_cutoff(time_of_day, cutoff_time)),
        closed is Some ==> closed.unwrap() == order.closed_at_price(stock.close, *now),
{
    match order.phase {
        OrderPhase::Executed => {
            let mut copy = order.duplicate();
            match advance_order(&mut copy, stock, time_of_day, cutoff_time, now) {
                OrderStep::Closed => Some(copy),
                _ => None,
            }
        },
        _ => None,
    }
}

/// Books one closed order on the first risk state of its user and symbol.
pub fn book_closed_order(risk_states: &mut Vec<CurrentPnLState>, order: &Order, now: &String) -> (place:
    Option<usize>)
    ensures
        is_closure_booked(old(risk_states)@, final(risk_states)@, *order, *now),
        match place {
            Some(index) => risk_state_index(old(risk_states)@, *order, 0) == Some(index as int),
            None => risk_state_index(old(risk_states)@, *order, 0) is None,
        },
{
    let mut i: usize = 0;
    while i < risk_states.len()
        invariant
            i <= risk_states.len(),
            risk_states@ == old(risk_states)@,
            risk_state_index(risk_states@, *order, 0) == risk_state_index(
                risk_states@,
                *order,
                i as int,
            ),
        decreases risk_states.len() - i,
    {
        if risk_states[i].user_id == order.user_id && risk_states[i].symbol == order.symbol {
            let mut state = risk_states.remove(i);
            state.apply_closure(order.is_profitable_trade, order.closing_profit, now.clone());
            risk_states.insert(i, state);
            return Some(i);
        }
        i += 1;
    }
    None
}

/// Lets one candle, whose time of day is known, act on every order of the
/// ledger. The orders that it closes are booked on the risk states, leave the
/// ledger and are handed back.
pub fn settle_orders(
    order_manager: &mut OrderManager,
    stock: &RawStock,
    time_of_day: Option<u32>,
    cutoff: u32,
    risk_states: &mut Vec<CurrentPnLState>,
    now: &String,
) -> (closed: Vec<Order>)
    ensures
        final(order_manager).orders@ == open_after(
            old(order_manager).orders@,
            *stock,
            time_of_day,
            cutoff,
            *now,
        ),
        closed@ == closed_after(old(order_manager).orders@, *stock, time_of_day, cutoff, *now),
        final(order_manager).next_order_id == old(order_manager).next_order_id,
        are_closures_booked(old(risk_states)@, final(risk_states)@, closed@, *now),
        old(order_manager).is_consistent() ==> final(order_manager).is_consistent(),
{
    let mut kept: Vec<Order> = Vec::new();
    let mut closed: Vec<Order> = Vec::new();
    let ghost mut sources: Seq<int> = Seq::empty();
    let ghost all = order_manager.orders@;
    let mut i: usize = 0;
    while i < order_manager.orders.len()
        invariant
            i <= order_manager.orders.len(),
            order_manager.orders@ == all,
            order_manager.next_order_id == old(order_manager).next_order_id,
            kept@ == open_after(all.take(i as int), *stock, time_of_day, cutoff, *now),
            closed@ == closed_after(all.take(i as int), *stock, time_of_day, cutoff, *now),
            are_closures_booked(old(risk_states)@, risk_states@, closed@, *now),
            sources.len() == kept@.len(),
            forall|a: int|
                0 <= a < sources.len() ==> 0 <= #[trigger] sources[a] < i && kept@[a].is_open()
                    && kept@[a] == advanced_order(
                    all[sources[a]],
                    *stock,
                    time_of_day,
                    cutoff,
                    *now,
                ),
            forall|a: int, b: int|
                0 <= a < b < sources.len() ==> #[trigger] sources[a] < #[trigger] sources[b],
        decreases order_manager.orders.len() - i,
    {
        let mut order = order_manager.orders[i].duplicate();
        let step = advance_order(&mut order, stock, time_of_day, cutoff, now);
        proof {
            assert(all.take(i as int + 1).drop_last() == all.take(i as int));
            assert(all.take(i as int + 1).last() == all[i as int]);
        }
        match order.phase {
            OrderPhase::Closed => {
                let ghost between = risk_states@;
                let ghost closed_before = closed@;
                book_closed_order(risk_states, &order, now);
                closed.push(order);
                proof {
                    assert(closed@.drop_last() == closed_before);
                    assert(closed@.last() == order);
                    assert(are_closures_booked(old(risk_states)@, between, closed@.drop_last(), *now));
                    assert(is_closure_booked(between, risk_states@, closed@.last(), *now));
                }
            },
            _ => {
                kept.push(order);
                proof {
                    sources = sources.push(i as int);
                }
            },
        }
        i += 1;
    }
    proof {
        assert(all.take(all.len() as int) == all);
        if old(order_manager).is_consistent() {
            assert forall|a: int| 0 <= a < kept@.len() implies (#[trigger] kept@[a]).is_open()
                && kept@[a].cache_key@ == kept@[a].dedup_key() && kept@[a].order_id < old(order_manager).next_order_id by {
                let from = all[sources[a]];
                assert(from.is_open());
            }
            assert forall|a: int, b: int| 0 <= a < b < kept@.len() implies (
            #[trigger] kept@[a]).cache_key@ != (#[trigger] kept@[b]).cache_key@ by {
                assert(sources[a] < sources[b]);
                assert(all[sources[a]].cache_key@ != all[sources[b]].cache_key@);
            }
        }
    }
    order_manager.orders = kept;
    closed
}

/// Lets one candle act on every order of the ledger. The time of day is
/// read from the candle's date; of a date that is no time stamp it is not
/// known, and then no order is closed for the hour alone.
pub fn check_for_exit_opportunity(
    order_manager: &mut OrderManager,
    stock: &RawStock,
    risk_states: &mut Vec<CurrentPnLState>,
    now: &String,
) -> (closed: Vec<Order>)
    ensures
        final(order_manager).orders@ == open_after(
            old(order_manager).orders@,
            *stock,
            stock_seconds_of_day(stock.date@),
            THRESHOLD_TRADE_END_TIME,
            *now,
        ),
        closed@ == closed_after(
            old(order_manager).orders@,
            *stock,
            stock_seconds_of_day(stock.date@),
            THRESHOLD_TRADE_END_TIME,
            *now,
        ),
        final(order_manager).next_order_id == old(order_manager).next_order_id,
        are_closures_booked(old(risk_states)@, final(risk_states)@, closed@, *now),
        old(order_manager).is_consistent() ==> final(order_manager).is_consistent(),
{
    let time_of_day = return_only_time_from_datetime(stock.date.as_str());
    settle_orders(order_manager, stock, time_of_day, THRESHOLD_TRADE_END_TIME, risk_states, now)
}

/// An order is never counted as open once it is closed, and no candle opens
/// it again: what a candle makes of a closed order is that same order.
pub proof fn lemma_closed_stays_closed(
    order: Order,
    stock: RawStock,
    time_of_day: Option<u32>,
    cutoff: u32,
    now: String,
)
    requires
        !order.is_open(),
    ensures
        advanced_order(order, stock, time_of_day, cutoff, now) == order,
{
}

/// A candle leaves a ledger with at most one open order for a symbol, an
/// algorithm and a user as such a ledger.
pub proof fn lemma_one_open_order_per_key(
    orders: Seq<Order>,
    stock: RawStock,
    time_of_day: Option<u32>,
    cutoff: u32,
    now: String,
)
    requires
        is_open_ledger(orders),
    ensures
        is_open_ledger(open_after(orders, stock, time_of_day, cutoff, now)),
        forall|a: int|
            0 <= a < open_after(orders, stock, time_of_day, cutoff, now).len() ==> exists|j: int|
                0 <= j < orders.len() && (#[trigger] open_after(
                    orders,
                    stock,
                    time_of_day,
                    cutoff,
                    now,
                )[a]).cache_key@ == (#[trigger] orders[j]).cache_key@,
    decreases orders.len(),
{
    if orders.len() > 0 {
        let front = orders.drop_last();
        lemma_one_open_order_per_key(front, stock, time_of_day, cutoff, now);
        let before = open_after(front, stock, time_of_day, cutoff, now);
        let after = open_after(orders, stock, time_of_day, cutoff, now);
        let latest = advanced_order(orders.last(), stock, time_of_day, cutoff, now);
        assert forall|a: int| 0 <= a < after.len() implies exists|j: int|
            0 <= j < orders.len() && (#[trigger] after[a]).cache_key@ == (
            #[trigger] orders[j]).cache_key@ by {
            if a < before.len() {
                let j = choose|j: int|
                    0 <= j < front.len() && before[a].cache_key@ == (#[trigger] front[j]).cache_key@;
                assert(orders[j] == front[j]);
            } else {
                assert(after[a].cache_key@ == orders[orders.len() - 1].cache_key@);
            }
        }
        assert forall|a: int, b: int| 0 <= a < b < after.len() implies (
        #[trigger] after[a]).cache_key@ != (#[trigger] after[b]).cache_key@ by {
            if b < before.len() {
            } else {
                let j = choose|j: int|
                    0 <= j < front.len() && before[a].cache_key@ == (#[trigger] front[j]).cache_key@;
                assert(orders[j] == front[j]);
                assert(orders[j].cache_key@ != orders[orders.len() - 1].cache_key@);
            }
        }
        assert forall|a: int| 0 <= a < after.len() implies (#[trigger] after[a]).is_open()
            && after[a].cache_key@ == after[a].dedup_key() by {
            if a < before.len() {
            } else {
                assert(orders[orders.len() - 1].is_open());
            }
        }
    }
}

} // verus!
