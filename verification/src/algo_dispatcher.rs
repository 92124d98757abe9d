//! One tick of ingestion: detection first, then the dispatch of what it found.

use vstd::prelude::*;
use vstd::string::*;
use crate::current_market_state::{is_snapshot_after, CurrentMarketState, MarketStateSettings};
use crate::date_parser::{
    return_only_date_from_datetime,
    stock_date_key,
    stock_epoch_seconds,
    stock_seconds_of_day,
};
use crate::enums::AlgoTypes;
use crate::hammer_pattern::{
    is_dated_evaluation_of,
    HammerCandle,
    HammerPatternUtil,
    HammerThresholds,
};
use crate::monitor_trade::{
    are_closures_booked,
    check_for_exit_opportunity,
    closed_after,
    open_after,
    THRESHOLD_TRADE_END_TIME,
};
use crate::order_dispatcher::{are_users_served, lists_algo, DispatchOutcome, Order, OrderManager};
use crate::pnl_state::CurrentPnLState;
use crate::raw_stock::{RawStock, RawStockLedger};
use crate::trade_signal_keeper::{TradeSignal, TradeSignalsKeeper};
use crate::utils::{current_market_state_cache_key_formatter, market_state_cache_key};

verus! {

/// Whether an algorithm stands in a list.
pub fn is_algo_listed(algo_types: &Vec<AlgoTypes>, algo_type: AlgoTypes) -> (listed: bool)
    ensures
        listed == lists_algo(algo_types@, algo_type),
{
    let mut i: usize = 0;
    while i < algo_types.len()
        invariant
            i <= algo_types.len(),
            forall|j: int| 0 <= j < i ==> #[trigger] algo_types@[j] != algo_type,
        decreases algo_types.len() - i,
    {
        if algo_types[i] == algo_type {
            return true;
        }
        i += 1;
    }
    false
}

/// Hands one candle to every algorithm of the run. Where the hammer is among
/// them, the candle is judged at the moment `evaluated_at`; a signal is kept
/// and then dispatched to every risk state in turn. The shooting star raises
/// no signal. Without the hammer nothing changes.
pub fn ingest_raw_stock_data(
    raw_stock: &RawStock,
    tradeable_algo_types: &Vec<AlgoTypes>,
    hammer_ledger: &mut HammerPatternUtil,
    trade_keeper: &mut TradeSignalsKeeper,
    order_manager: &mut OrderManager,
    state: Option<&CurrentMarketState>,
    thresholds: &HammerThresholds,
    risk_states: &mut Vec<CurrentPnLState>,
    evaluated_at: &str,
    candle_id: String,
    signal_id: String,
) -> (found: (Option<TradeSignal>, Vec<DispatchOutcome>))
    ensures
        final(risk_states)@.len() == old(risk_states)@.len(),
        forall|i: int|
            0 <= i < old(risk_states)@.len() ==> (#[trigger] final(risk_states)@[i]).follows_any_admission(old(risk_states)@[i]),
        old(order_manager).is_consistent() ==> final(order_manager).is_consistent(),
        if lists_algo(tradeable_algo_types@, AlgoTypes::HammerPatternAlgo) {
            is_dated_evaluation_of(
                old(hammer_ledger)@,
                final(hammer_ledger)@,
                found.0,
                *raw_stock,
                state,
                *thresholds,
                evaluated_at@,
                candle_id,
                signal_id,
            )
        } else {
            found.0 is None && final(hammer_ledger)@ == old(hammer_ledger)@
        },
        match found.0 {
            Some(signal) => {
                &&& final(trade_keeper)@ == old(trade_keeper)@.push(
                    signal,
                )
                &&& found.1@.len() == old(risk_states)@.len()
                &&& are_users_served(
                    old(order_manager).orders@,
                    old(order_manager).next_order_id,
                    old(risk_states)@,
                    final(order_manager).orders@,
                    final(order_manager).next_order_id,
                    final(risk_states)@,
                    found.1@,
                    signal,
                    old(risk_states)@.len(),
                )
            },
            None => {
                &&& final(trade_keeper)@ == old(trade_keeper)@
                &&& found.1@.len() == 0
                &&& final(order_manager).orders@ == old(order_manager).orders@
                &&& final(order_manager).next_order_id == old(order_manager).next_order_id
                &&& final(risk_states)@ == old(risk_states)@
            },
        },
{
    if !is_algo_listed(tradeable_algo_types, AlgoTypes::HammerPatternAlgo) {
        return (None, Vec::new());
    }
    let signal = hammer_ledger.calculate_and_add_ledger(
        raw_stock,
        state,
        thresholds,
        evaluated_at,
        candle_id,
        signal_id,
    );
    match signal {
        None => (None, Vec::new()),
        Some(trade_signal) => {
            trade_keeper.add_trade_signal(&trade_signal);
            let outcomes = order_manager.dispatch(&trade_signal, risk_states);
            (Some(trade_signal), outcomes)
        },
    }
}

/// What one tick brought.
#[derive(Debug, Clone)]
pub struct TickOutcome {
    /// The market snapshot after the candle, where its time frame has one.
    pub snapshot: Option<CurrentMarketState>,
    /// The signal that the candle raised.
    pub signal: Option<TradeSignal>,
    /// How the dispatch of the signal ended for each risk state.
    pub dispatched: Vec<DispatchOutcome>,
    /// The orders that the candle closed.
    pub closed: Vec<Order>,
}

/// The identities that a tick may give out.
#[derive(Debug, Clone)]
pub struct TickIdentities {
    pub snapshot_id: String,
    pub candle_id: String,
    pub signal_id: String,
}

/// The snapshot that detection reads.
pub open spec fn snapshot_read(snapshot: &Option<CurrentMarketState>) -> Option<&CurrentMarketState> {
    match snapshot {
        Some(state) => Some(state),
        None => None,
    }
}

/// Whether a ledger, the risk states and the outcomes are what the dispatch
/// of the tick's signal leaves; without a signal nothing changes.
pub open spec fn is_after_dispatch(
    orders_before: Seq<Order>,
    next_before: u64,
    risk_before: Seq<CurrentPnLState>,
    orders_after: Seq<Order>,
    next_after: u64,
    risk_after: Seq<CurrentPnLState>,
    signal: Option<TradeSignal>,
    dispatched: Seq<DispatchOutcome>,
) -> bool {
    match signal {
        Some(raised) => {
            &&& dispatched.len() == risk_before.len()
            &&& risk_after.len() == risk_before.len()
            &&& are_users_served(
                orders_before,
                next_before,
                risk_before,
                orders_after,
                next_after,
                risk_after,
                dispatched,
                raised,
                risk_before.len(),
            )
        },
        None => {
            &&& dispatched.len() == 0
            &&& orders_after == orders_before
            &&& next_after == next_before
            &&& risk_after == risk_before
        },
    }
}

/// Whether a ledger, the risk states, the outcomes and the closed orders are
/// what a tick leaves: first the dispatch of its signal, then the watch of the
/// candle over the orders that are open after that dispatch.
pub open spec fn is_dispatch_then_watch(
    orders_before: Seq<Order>,
    next_before: u64,
    risk_before: Seq<CurrentPnLState>,
    orders_after: Seq<Order>,
    next_after: u64,
    risk_after: Seq<CurrentPnLState>,
    signal: Option<TradeSignal>,
    dispatched: Seq<DispatchOutcome>,
    closed: Seq<Order>,
    stock: RawStock,
    now: String,
) -> bool {
    exists|orders_between: Seq<Order>, next_between: u64, risk_between: Seq<CurrentPnLState>|
        {
            &&& #[trigger] is_after_dispatch(
                orders_before,
                next_before,
                risk_before,
                orders_between,
                next_between,
                risk_between,
                signal,
                dispatched,
            )
            &&& orders_after == open_after(
                orders_between,
                stock,
                stock_seconds_of_day(stock.date@),
                THRESHOLD_TRADE_END_TIME,
                now,
            )
            &&& closed == closed_after(
                orders_between,
                stock,
                stock_seconds_of_day(stock.date@),
                THRESHOLD_TRADE_END_TIME,
                now,
            )
            &&& next_after == next_between
            &&& are_closures_booked(risk_between, risk_after, closed, now)
        }
}

/// The key of the snapshot that a candle belongs to: that of its day, its
/// symbol and its time frame. A candle whose date is no time stamp has none.
pub open spec fn tick_cache_key(stock: RawStock) -> Option<Seq<char>> {
    match stock_date_key(stock.date@) {
        Some(day) => Some(market_state_cache_key(day, stock.symbol@, stock.market_time_frame)),
        None => None,
    }
}

/// The former snapshot, where it stands under the key; a snapshot under
/// another key is that of another day or symbol and does not count.
pub open spec fn snapshot_under_key(previous: Option<CurrentMarketState>, key: Seq<char>) -> Option<
    CurrentMarketState,
> {
    match previous {
        Some(state) => if state.cache_key@ == key {
            Some(state)
        } else {
            None
        },
        None => None,
    }
}

/// Whether the ledgers, the risk states and the results are what one tick
/// leaves. A candle whose date is no time stamp is skipped: nothing changes
/// and there is no result. Else, in this order: the market snapshot takes
/// the candle in; detection reads that new snapshot; a signal is kept and
/// dispatched; and last the candle acts on the open orders, those of this
/// tick among them.
pub open spec fn is_tick_of(
    hammer_before: Seq<HammerCandle>,
    hammer_after: Seq<HammerCandle>,
    keeper_before: Seq<TradeSignal>,
    keeper_after: Seq<TradeSignal>,
    orders_before: Seq<Order>,
    next_before: u64,
    risk_before: Seq<CurrentPnLState>,
    orders_after: Seq<Order>,
    next_after: u64,
    risk_after: Seq<CurrentPnLState>,
    snapshot: Option<CurrentMarketState>,
    signal: Option<TradeSignal>,
    dispatched: Seq<DispatchOutcome>,
    closed: Seq<Order>,
    stock: RawStock,
    running_history: Seq<RawStock>,
    previous: Option<CurrentMarketState>,
    settings: MarketStateSettings,
    algo_types: Seq<AlgoTypes>,
    thresholds: HammerThresholds,
    now: String,
    identities: TickIdentities,
) -> bool {
    match tick_cache_key(stock) {
        None => {
            &&& snapshot is None
            &&& signal is None
            &&& dispatched.len() == 0
            &&& closed.len() == 0
            &&& hammer_after == hammer_before
            &&& keeper_after == keeper_before
            &&& orders_after == orders_before
            &&& next_after == next_before
            &&& risk_after == risk_before
        },
        Some(key) => {
            &&& is_snapshot_after(
                snapshot,
                stock,
                stock.market_time_frame,
                running_history,
                key,
                snapshot_under_key(previous, key),
                settings,
                identities.snapshot_id@,
                now@,
            )
            &&& if lists_algo(algo_types, AlgoTypes::HammerPatternAlgo) {
                is_dated_evaluation_of(
                    hammer_before,
                    hammer_after,
                    signal,
                    stock,
                    snapshot_read(&snapshot),
                    thresholds,
                    now@,
                    identities.candle_id,
                    identities.signal_id,
                )
            } else {
                signal is None && hammer_after == hammer_before
            }
            &&& keeper_after == (match signal {
                Some(raised) => keeper_before.push(raised),
                None => keeper_before,
            })
            &&& is_dispatch_then_watch(
                orders_before,
                next_before,
                risk_before,
                orders_after,
                next_after,
                risk_after,
                signal,
                dispatched,
                closed,
                stock,
                now,
            )
        },
    }
}

/// One tick. `running_history` is the run's candles with this one at their
/// end, `previous_market_state` the latest snapshot that the caller holds,
/// and `now` the moment of the tick.
pub fn process_tick(
    raw_stock: &RawStock,
    running_history: &Vec<RawStock>,
    previous_market_state: Option<CurrentMarketState>,
    settings: MarketStateSettings,
    tradeable_algo_types: &Vec<AlgoTypes>,
    hammer_ledger: &mut HammerPatternUtil,
    trade_keeper: &mut TradeSignalsKeeper,
    order_manager: &mut OrderManager,
    thresholds: &HammerThresholds,
    risk_states: &mut Vec<CurrentPnLState>,
    now: &String,
    identities: TickIdentities,
) -> (outcome: TickOutcome)
    ensures
        is_tick_of(
            old(hammer_ledger)@,
            final(hammer_ledger)@,
            old(trade_keeper)@,
            final(trade_keeper)@,
            old(order_manager).orders@,
            old(order_manager).next_order_id,
            old(risk_states)@,
            final(order_manager).orders@,
            final(order_manager).next_order_id,
            final(risk_states)@,
            outcome.snapshot,
            outcome.signal,
            outcome.dispatched@,
            outcome.closed@,
            *raw_stock,
            running_history@,
            previous_market_state,
            settings,
            tradeable_algo_types@,
            *thresholds,
            *now,
            identities,
        ),
        stock_epoch_seconds(raw_stock.date@) is None ==> {
            &&& outcome.snapshot is None
            &&& outcome.signal is None
            &&& outcome.dispatched@.len() == 0
            &&& outcome.closed@.len() == 0
            &&& final(hammer_ledger)@ == old(hammer_ledger)@
            &&& final(trade_keeper)@ == old(trade_keeper)@
            &&& final(order_manager).orders@ == old(order_manager).orders@
            &&& final(order_manager).next_order_id == old(order_manager).next_order_id
            &&& final(risk_states)@ == old(risk_states)@
        },
        old(order_manager).is_consistent() ==> final(order_manager).is_consistent(),
{
    let day = match return_only_date_from_datetime(raw_stock.date.as_str()) {
        Some(day) => day,
        None => {
            return TickOutcome {
                snapshot: None,
                signal: None,
                dispatched: Vec::new(),
                closed: Vec::new(),
            };
        },
    };
    let key = current_market_state_cache_key_formatter(
        day.as_str(),
        raw_stock.symbol.as_str(),
        &raw_stock.market_time_frame,
    );
    let previous = match previous_market_state {
        Some(state) => if state.cache_key == key {
            Some(state)
        } else {
            None
        },
        None => None,
    };
    let snapshot = CurrentMarketState::calculate_market_state(
        raw_stock,
        raw_stock.market_time_frame,
        running_history,
        key,
        previous,
        settings,
        identities.snapshot_id,
        now.clone(),
    );
    let found = ingest_raw_stock_data(
        raw_stock,
        tradeable_algo_types,
        hammer_ledger,
        trade_keeper,
        order_manager,
        snapshot.as_ref(),
        thresholds,
        risk_states,
        now.as_str(),
        identities.candle_id,
        identities.signal_id,
    );
    let ghost orders_between = order_manager.orders@;
    let ghost next_between = order_manager.next_order_id;
    let ghost risk_between = risk_states@;
    let closed = check_for_exit_opportunity(order_manager, raw_stock, risk_states, now);
    proof {
        assert(is_after_dispatch(
            old(order_manager).orders@,
            old(order_manager).next_order_id,
            old(risk_states)@,
            orders_between,
            next_between,
            risk_between,
            found.0,
            found.1@,
        ));
    }
    TickOutcome { snapshot, signal: found.0, dispatched: found.1, closed }
}

/// Everything that a replay carries from one candle to the next.
#[derive(Debug, Clone)]
pub struct BacktestRun {
    pub settings: MarketStateSettings,
    pub thresholds: HammerThresholds,
    pub tradeable_algo_types: Vec<AlgoTypes>,
    /// The candles handled so far.
    pub history: RawStockLedger,
    /// The latest market snapshot.
    pub snapshot: Option<CurrentMarketState>,
    pub hammer_ledger: HammerPatternUtil,
    pub trade_keeper: TradeSignalsKeeper,
    pub order_manager: OrderManager,
    pub risk_states: Vec<CurrentPnLState>,
}

/// What one candle of a replay brought.
#[derive(Debug, Clone)]
pub struct ReplayedTick {
    pub signal: Option<TradeSignal>,
    pub dispatched: Vec<DispatchOutcome>,
    pub closed: Vec<Order>,
}

/// Whether the identities are those of a candle in a run: the name of the
/// run, the candle's symbol and date, and what the identity is for.
pub open spec fn is_tick_identities(identities: TickIdentities, run_id: Seq<char>, stock: RawStock) -> bool {
    let stem = run_id + "_"@ + stock.symbol@ + "_"@ + stock.date@;
    &&& identities.snapshot_id@ == stem + "_snapshot"@
    &&& identities.candle_id@ == stem + "_candle"@
    &&& identities.signal_id@ == stem + "_signal"@
}

/// The identities of a candle in a run.
pub fn tick_identities(run_id: &str, stock: &RawStock) -> (identities: TickIdentities)
    ensures
        is_tick_identities(identities, run_id@, *stock),
{
    let mut stem = String::from_str(run_id);
    stem.append("_");
    stem.append(stock.symbol.as_str());
    stem.append("_");
    stem.append(stock.date.as_str());
    let mut snapshot_id = stem.clone();
    snapshot_id.append("_snapshot");
    let mut candle_id = stem.clone();
    candle_id.append("_candle");
    let mut signal_id = stem;
    signal_id.append("_signal");
    TickIdentities { snapshot_id, candle_id, signal_id }
}

/// Whether two runs are set up alike.
pub open spec fn is_same_setup(first: BacktestRun, second: BacktestRun) -> bool {
    &&& first.settings == second.settings
    &&& first.thresholds == second.thresholds
    &&& first.tradeable_algo_types@ == second.tradeable_algo_types@
}

/// Whether a run holds what another holds.
pub open spec fn is_run_unchanged(before: BacktestRun, after: BacktestRun) -> bool {
    &&& is_same_setup(before, after)
    &&& after.history@ == before.history@
    &&& after.snapshot == before.snapshot
    &&& after.hammer_ledger@ == before.hammer_ledger@
    &&& after.trade_keeper@ == before.trade_keeper@
    &&& after.order_manager.orders@ == before.order_manager.orders@
    &&& after.order_manager.next_order_id == before.order_manager.next_order_id
    &&& after.risk_states@ == before.risk_states@
}

/// Whether a run and a result are what one candle leaves of a run. A candle
/// whose date is no time stamp is skipped: the run holds what it held. Else
/// the candle joins the history, the tick is made on the run's latest
/// snapshot with the candle's identities, and its snapshot becomes the
/// run's latest.
pub open spec fn is_run_tick(
    before: BacktestRun,
    after: BacktestRun,
    tick: ReplayedTick,
    stock: RawStock,
    now: String,
    run_id: Seq<char>,
) -> bool {
    match tick_cache_key(stock) {
        None => {
            &&& is_run_unchanged(before, after)
            &&& tick.signal is None
            &&& tick.dispatched@.len() == 0
            &&& tick.closed@.len() == 0
        },
        Some(_) => {
            &&& is_same_setup(before, after)
            &&& after.history@ == before.history@.push(stock)
            &&& exists|identities: TickIdentities|
                is_tick_identities(identities, run_id, stock) && #[trigger] is_tick_of(
                    before.hammer_ledger@,
                    after.hammer_ledger@,
                    before.trade_keeper@,
                    after.trade_keeper@,
                    before.order_manager.orders@,
                    before.order_manager.next_order_id,
                    before.risk_states@,
                    after.order_manager.orders@,
                    after.order_manager.next_order_id,
                    after.risk_states@,
                    after.snapshot,
                    tick.signal,
                    tick.dispatched@,
                    tick.closed@,
                    stock,
                    after.history@,
                    before.snapshot,
                    before.settings,
                    before.tradeable_algo_types@,
                    before.thresholds,
                    now,
                    identities,
                )
        },
    }
}

/// Whether a run and its results are what a list of candles leaves of a
/// run: one result for each candle, each candle handled on what the candles
/// before it left, in the order of the list.
pub open spec fn is_replay_of(
    before: BacktestRun,
    after: BacktestRun,
    ticks: Seq<ReplayedTick>,
    candles: Seq<RawStock>,
    now: String,
    run_id: Seq<char>,
) -> bool
    decreases candles.len(),
{
    if candles.len() == 0 {
        is_run_unchanged(before, after) && ticks.len() == 0
    } else {
        &&& ticks.len() == candles.len()
        &&& exists|between: BacktestRun|
            is_replay_of(before, between, ticks.drop_last(), candles.drop_last(), now, run_id)
                && #[trigger] is_run_tick(between, after, ticks.last(), candles.last(), now, run_id)
    }
}

/// Hands one candle to a run.
pub fn run_tick(run: &mut BacktestRun, stock: &RawStock, now: &String, run_id: &str) -> (tick:
    ReplayedTick)
    ensures
        is_run_tick(*old(run), *final(run), tick, *stock, *now, run_id@),
        old(run).order_manager.is_consistent() ==> final(run).order_manager.is_consistent(),
{
    if return_only_date_from_datetime(stock.date.as_str()).is_none() {
        return ReplayedTick { signal: None, dispatched: Vec::new(), closed: Vec::new() };
    }
    run.history.add_raw_stock(stock.duplicate());
    let previous = run.snapshot.take();
    let identities = tick_identities(run_id, stock);
    let ghost given = identities;
    let outcome = process_tick(
        stock,
        &run.history.raw_stocks,
        previous,
        run.settings,
        &run.tradeable_algo_types,
        &mut run.hammer_ledger,
        &mut run.trade_keeper,
        &mut run.order_manager,
        &run.thresholds,
        &mut run.risk_states,
        now,
        identities,
    );
    run.snapshot = outcome.snapshot;
    let tick = ReplayedTick {
        signal: outcome.signal,
        dispatched: outcome.dispatched,
        closed: outcome.closed,
    };
    proof {
        assert(is_tick_identities(given, run_id@, *stock));
        assert(is_tick_of(
            old(run).hammer_ledger@,
            run.hammer_ledger@,
            old(run).trade_keeper@,
            run.trade_keeper@,
            old(run).order_manager.orders@,
            old(run).order_manager.next_order_id,
            old(run).risk_states@,
            run.order_manager.orders@,
            run.order_manager.next_order_id,
            run.risk_states@,
            run.snapshot,
            tick.signal,
            tick.dispatched@,
            tick.closed@,
            *stock,
            run.history@,
            old(run).snapshot,
            old(run).settings,
            old(run).tradeable_algo_types@,
            old(run).thresholds,
            *now,
            given,
        ));
    }
    tick
}

/// Replays a list of candles on a run, strictly in the order of the list,
/// each candle done with before the next is taken up. A run without a risk
/// state replays nothing: it holds what it held and there is no result.
pub fn backtest_strategy(run: &mut BacktestRun, candles: &Vec<RawStock>, now: &String, run_id: &str) -> (ticks:
    Vec<ReplayedTick>)
    ensures
        if old(run).risk_states@.len() == 0 {
            is_run_unchanged(*old(run), *final(run)) && ticks@.len() == 0
        } else {
            is_replay_of(*old(run), *final(run), ticks@, candles@, *now, run_id@)
        },
        old(run).order_manager.is_consistent() ==> final(run).order_manager.is_consistent(),
{
    let mut ticks: Vec<ReplayedTick> = Vec::new();
    if run.risk_states.len() == 0 {
        return ticks;
    }
    let mut i: usize = 0;
    while i < candles.len()
        invariant
            i <= candles.len(),
            ticks@.len() == i,
            is_replay_of(*old(run), *run, ticks@, candles@.take(i as int), *now, run_id@),
            old(run).order_manager.is_consistent() ==> run.order_manager.is_consistent(),
        decreases candles.len() - i,
    {
        let ghost between = *run;
        let ghost ticks_before = ticks@;
        let tick = run_tick(run, &candles[i], now, run_id);
        ticks.push(tick);
        proof {
            let taken = candles@.take(i as int + 1);
            assert(taken.drop_last() == candles@.take(i as int));
            assert(taken.last() == candles@[i as int]);
            assert(ticks@.drop_last() == ticks_before);
            assert(is_run_tick(between, *run, ticks@.last(), taken.last(), *now, run_id@));
        }
        i += 1;
    }
    proof {
        assert(candles@.take(candles@.len() as int) == candles@);
    }
    ticks
}

} // verus!
