//! The backend's state and the commands the dashboard invokes on it: starting
//! and stopping trading, the emergency stop, orders, positions and their
//! profit and loss, the signal list and the log.
use crate::decimal::{
    Dec, DecParts, dec_checked_add, dec_checked_div, dec_checked_mul, dec_checked_sub, dec_lt, dec_parse,
    decimal_checked_add, decimal_checked_div, decimal_checked_mul, decimal_checked_sub, decimal_parse, is_positive_value,
    opt_parts, pow10, signed_units, value_lt,
};
use crate::host::{new_uuid_text, utc_now_text, is_uuid_text};
use crate::models::{
    HealthStatus, LogEntry, LogLevel, Order, OrderSide, OrderStatus, OrderType, Portfolio, Position,
    SystemState, TradeSignal, TradingMode, duplicate_orders, duplicate_positions, duplicate_signals,
    lemma_push_bounded, push_bounded, push_bounded_vec,
};
use crate::text::{decimal_text, join2, join3, text_eq, u64_text};
use crate::websocket::{action_word, signal_announcement};
use vstd::prelude::*;

verus! {

/// The log keeps at most this many entries.
pub const LOG_CAPACITY: usize = 1000usize;

/// The signal list keeps at most this many signals.
pub const SIGNAL_CAPACITY: usize = 10usize;

/// How many log entries `get_logs` returns when no limit is given.
pub const DEFAULT_LOG_LIMIT: usize = 100usize;

/// How many orders `get_orders` returns when no limit is given.
pub const DEFAULT_ORDER_LIMIT: usize = 100usize;

/// How many candles chart history returns when no limit is given.
pub const DEFAULT_CANDLE_LIMIT: usize = 200usize;

pub struct StartTradingArgs {
    pub mode: String,
}

pub struct ClosePositionArgs {
    pub position_id: String,
}

pub struct PlaceOrderArgs {
    pub symbol: String,
    pub side: String,
    pub order_type: String,
    pub quantity: u32,
    pub price: Option<String>,
}

pub struct GetOrdersArgs {
    pub status: Option<String>,
    pub limit: Option<u32>,
}

pub struct GetLogsArgs {
    pub limit: Option<usize>,
}

/// What the emergency stop reports.
#[derive(Debug)]
pub struct StopResult {
    /// The number of positions closed.
    pub positions_closed: usize,
    /// The number of pending orders cancelled.
    pub orders_cancelled: usize,
    /// The closed positions' unrealized profit and loss added up (`None` where
    /// the sum overflows a `Decimal`).
    pub total_pnl: Option<Dec>,
}

/// A position's new stop loss, take profit and trailing stop, as the server
/// broadcasts them after a change.
#[derive(Debug)]
pub struct PositionLevels {
    pub id: String,
    pub stop_loss: Option<Dec>,
    pub take_profit: Option<Dec>,
    pub trailing_stop: Option<Dec>,
}

/// Everything the backend keeps about the bot.
pub struct BackendState {
    pub system: SystemState,
    pub portfolio: Portfolio,
    pub positions: Vec<Position>,
    pub orders: Vec<Order>,
    pub signals: Vec<TradeSignal>,
    pub logs: Vec<LogEntry>,
}

/// The mode that `start_trading` switches to for an accepted mode text.
pub open spec fn start_mode(mode: Seq<char>) -> TradingMode {
    if mode == "live"@ {
        TradingMode::Live
    } else {
        TradingMode::Paper
    }
}

/// Why `start_trading` refuses to start, if it does: trading already runs,
/// the mode is neither `paper` nor `live`, or no API token is configured.
pub open spec fn start_refusal(running: bool, mode: Seq<char>, token_configured: bool) -> Option<Seq<char>> {
    if running {
        Some("Already running"@)
    } else if mode != "paper"@ && mode != "live"@ {
        Some("Invalid mode"@)
    } else if !token_configured {
        Some("API token not configured"@)
    } else {
        None
    }
}

/// The side an order gets from its text.
pub open spec fn order_side_of(side: Seq<char>) -> OrderSide {
    if side == "buy"@ {
        OrderSide::Buy
    } else {
        OrderSide::Sell
    }
}

/// The order type an order gets from its text.
pub open spec fn order_type_of(t: Seq<char>) -> OrderType {
    if t == "limit"@ {
        OrderType::Limit
    } else if t == "stop"@ {
        OrderType::Stop
    } else {
        OrderType::Market
    }
}

/// `new` is `old` with one entry appended at level `level` with that message
/// and source, the oldest entry dropped if the log would exceed its capacity.
pub open spec fn logged(
    old: Seq<LogEntry>,
    new: Seq<LogEntry>,
    level: LogLevel,
    message: Seq<char>,
    source: Seq<char>,
) -> bool {
    &&& new.len() > 0
    &&& new == push_bounded(old, new.last(), LOG_CAPACITY as nat)
    &&& new.last().level == level
    &&& new.last().message@ == message
    &&& new.last().source@ == source
}

/// The unrealized profit and loss of `s` added up in order with `Decimal`'s
/// checked addition, from zero (`None` once a sum overflows).
pub open spec fn pnl_total(s: Seq<Position>) -> Option<DecParts>
    decreases s.len(),
{
    if s.len() == 0 {
        Some((false, 0nat, 0nat))
    } else {
        match pnl_total(s.drop_last()) {
            Some(t) => decimal_checked_add(t, s.last().unrealized_pnl@),
            None => None,
        }
    }
}

/// The number of pending orders in `s`.
pub open spec fn pending_count(s: Seq<Order>) -> nat
    decreases s.len(),
{
    if s.len() == 0 {
        0
    } else {
        pending_count(s.drop_last()) + if s.last().status == OrderStatus::Pending {
            1nat
        } else {
            0nat
        }
    }
}

/// `new` is `old`, cancelled if `old` was pending.
pub open spec fn order_cancelled_if_pending(old: Order, new: Order) -> bool {
    if old.status == OrderStatus::Pending {
        &&& new.status == OrderStatus::Cancelled
        &&& new.id == old.id
        &&& new.symbol == old.symbol
        &&& new.side == old.side
        &&& new.order_type == old.order_type
        &&& new.quantity == old.quantity
        &&& new.price == old.price
        &&& new.filled_quantity == old.filled_quantity
        &&& new.created_at == old.created_at
        &&& new.time_in_force == old.time_in_force
    } else {
        new == old
    }
}

/// `new` is `old` with every pending order cancelled and the others unchanged.
pub open spec fn pending_cancelled(old: Seq<Order>, new: Seq<Order>) -> bool {
    &&& new.len() == old.len()
    &&& forall|i: int| 0 <= i < old.len() ==> order_cancelled_if_pending(#[trigger] old[i], new[i])
}

/// The name a status filter gives for an order status.
pub open spec fn status_name(s: OrderStatus) -> Seq<char> {
    match s {
        OrderStatus::Pending => "pending"@,
        OrderStatus::Working => "working"@,
        OrderStatus::PartiallyFilled => "partially_filled"@,
        OrderStatus::Filled => "filled"@,
        OrderStatus::Cancelled => "cancelled"@,
        OrderStatus::Rejected => "rejected"@,
    }
}

/// The name a status filter gives for an order status.
pub fn order_status_name(s: OrderStatus) -> (r: &'static str)
    ensures
        r@ == status_name(s),
{
    match s {
        OrderStatus::Pending => "pending",
        OrderStatus::Working => "working",
        OrderStatus::PartiallyFilled => "partially_filled",
        OrderStatus::Filled => "filled",
        OrderStatus::Cancelled => "cancelled",
        OrderStatus::Rejected => "rejected",
    }
}

/// The orders of `s` whose status has the given name (all when none is
/// given), in order.
pub open spec fn orders_with_status(s: Seq<Order>, status: Option<Seq<char>>) -> Seq<Order>
    decreases s.len(),
{
    if s.len() == 0 {
        s
    } else {
        let rest = orders_with_status(s.drop_last(), status);
        let keep = match status {
            Some(st) => status_name(s.last().status) == st,
            None => true,
        };
        if keep {
            rest.push(s.last())
        } else {
            rest
        }
    }
}

/// The first `n` items of `s` (all of them when there are fewer).
pub open spec fn first_items<T>(s: Seq<T>, n: nat) -> Seq<T> {
    if n < s.len() {
        s.take(n as int)
    } else {
        s
    }
}

/// The view of an optional string.
pub open spec fn opt_text(o: Option<String>) -> Option<Seq<char>> {
    match o {
        Some(s) => Some(s@),
        None => None,
    }
}

/// The positions of `s` whose id is not `id`, in order.
pub open spec fn without_position(s: Seq<Position>, id: Seq<char>) -> Seq<Position>
    decreases s.len(),
{
    if s.len() == 0 {
        s
    } else {
        let rest = without_position(s.drop_last(), id);
        if s.last().id@ == id {
            rest
        } else {
            rest.push(s.last())
        }
    }
}

/// The first index of a position with this id (the length when none has it).
pub open spec fn position_index(s: Seq<Position>, id: Seq<char>) -> nat
    decreases s.len(),
{
    if s.len() == 0 {
        0
    } else if s[0].id@ == id {
        0
    } else {
        1 + position_index(s.drop_first(), id)
    }
}

/// The parts of a whole quantity as a decimal.
pub open spec fn quantity_parts(q: u32) -> DecParts {
    (false, q as nat, 0nat)
}

/// The new profit and loss of a position at `price`, as the backend computes
/// them with `Decimal`: `pnl = (price - entry) * quantity` for a buy and
/// `(entry - price) * quantity` for a sell; when `entry * quantity` is above
/// zero, also `pct = pnl / (entry * quantity) * 100`. `None` when one of these
/// operations overflows (where the backend's `Decimal` arithmetic panics).
pub open spec fn repriced_amounts(p: Position, price: DecParts) -> Option<(DecParts, Option<DecParts>)> {
    let q = quantity_parts(p.quantity);
    let diff = if p.side == OrderSide::Buy {
        decimal_checked_sub(price, p.entry_price@)
    } else {
        decimal_checked_sub(p.entry_price@, price)
    };
    match diff {
        None => None,
        Some(d) => match decimal_checked_mul(d, q) {
            None => None,
            Some(pnl) => match decimal_checked_mul(p.entry_price@, q) {
                None => None,
                Some(total) => if is_positive_value(total) {
                    match decimal_checked_div(pnl, total) {
                        None => None,
                        Some(ratio) => match decimal_checked_mul(ratio, (false, 100nat, 0nat)) {
                            None => None,
                            Some(pct) => Some((pnl, Some(pct))),
                        },
                    }
                } else {
                    Some((pnl, None))
                },
            },
        },
    }
}

/// `new` is `old` marked to `price`: the current price is `price`, the profit
/// and loss are `repriced_amounts` (the percentage kept when that gives none),
/// and nothing else changes.
pub open spec fn repriced(old: Position, new: Position, price: Dec) -> bool {
    match repriced_amounts(old, price@) {
        None => false,
        Some((pnl, pct)) => {
            &&& new.current_price == price
            &&& new.unrealized_pnl@ == pnl
            &&& new.unrealized_pnl_pct@ == match pct {
                Some(x) => x,
                None => old.unrealized_pnl_pct@,
            }
            &&& new.id == old.id
            &&& new.symbol == old.symbol
            &&& new.side == old.side
            &&& new.quantity == old.quantity
            &&& new.entry_price == old.entry_price
            &&& new.stop_loss == old.stop_loss
            &&& new.take_profit == old.take_profit
            &&& new.trailing_stop == old.trailing_stop
            &&& new.open_time == old.open_time
        },
    }
}

/// Every position on `symbol` can be marked to `price` without overflow.
pub open spec fn price_applies(positions: Seq<Position>, symbol: Seq<char>, price: Dec) -> bool {
    forall|i: int|
        0 <= i < positions.len() && (#[trigger] positions[i]).symbol@ == symbol
            ==> repriced_amounts(positions[i], price@) is Some
}

/// `new` is `old` with every position on `symbol` marked to `price` and the
/// others unchanged.
pub open spec fn prices_marked(
    old: Seq<Position>,
    new: Seq<Position>,
    symbol: Seq<char>,
    price: Dec,
) -> bool {
    &&& new.len() == old.len()
    &&& forall|i: int|
        0 <= i < old.len() ==> if (#[trigger] old[i]).symbol@ == symbol {
            repriced(old[i], new[i], price)
        } else {
            new[i] == old[i]
        }
}

/// The text of an order's log line: `Order placed: {side} {symbol} {quantity}`.
pub open spec fn order_placed_message(args: &PlaceOrderArgs) -> Seq<char> {
    "Order placed: "@ + args.side@ + " "@ + args.symbol@ + " "@ + decimal_text(args.quantity as nat)
}

/// The order's price is missing: none is given, or it is not a decimal.
pub open spec fn price_missing(args: &PlaceOrderArgs) -> bool {
    match args.price {
        Some(p) => decimal_parse(p@) is None,
        None => true,
    }
}

/// Why an order is refused, if it is: a zero quantity, or a limit or stop
/// order without a price.
pub open spec fn order_refusal(args: &PlaceOrderArgs) -> Option<Seq<char>> {
    if args.quantity == 0 {
        Some("Quantity must be > 0"@)
    } else if args.order_type@ == "limit"@ && price_missing(args) {
        Some("Limit order requires price"@)
    } else if args.order_type@ == "stop"@ && price_missing(args) {
        Some("Stop order requires price"@)
    } else {
        None
    }
}

/// Why an order is refused, if it is (see `order_refusal`).
pub fn order_refusal_of(args: &PlaceOrderArgs) -> (r: Option<String>)
    ensures
        opt_text(r) == order_refusal(args),
{
    if args.quantity == 0 {
        return Some(String::from_str("Quantity must be > 0"));
    }
    let missing = match &args.price {
        Some(p) => dec_parse(p.as_str()).is_none(),
        None => true,
    };
    if missing && text_eq(args.order_type.as_str(), "limit") {
        Some(String::from_str("Limit order requires price"))
    } else if missing && text_eq(args.order_type.as_str(), "stop") {
        Some(String::from_str("Stop order requires price"))
    } else {
        None
    }
}

/// The order `place_order` records for `args`, with that id and creation time.
pub open spec fn is_placed_order(o: Order, args: &PlaceOrderArgs, id: String, created_at: String) -> bool {
    &&& o.id == id
    &&& o.symbol == args.symbol
    &&& o.side == order_side_of(args.side@)
    &&& o.order_type == order_type_of(args.order_type@)
    &&& o.quantity == args.quantity
    &&& opt_parts(o.price) == match args.price {
        Some(p) => decimal_parse(p@),
        None => None,
    }
    &&& (o.price matches Some(d) ==> d.wf())
    &&& o.filled_quantity == 0
    &&& o.status == OrderStatus::Pending
    &&& o.created_at == created_at
    &&& o.time_in_force@ == "GTC"@
}

/// The `n` newest entries of `s`, newest first.
pub open spec fn newest_first<T>(s: Seq<T>, n: nat) -> Seq<T> {
    let k = if n < s.len() {
        n
    } else {
        s.len()
    };
    Seq::new(k, |i: int| s[s.len() - 1 - i])
}

/// The last `n` items of `s` in their order (all of them when there are fewer).
pub open spec fn last_items<T>(s: Seq<T>, n: nat) -> Seq<T> {
    if n < s.len() {
        s.subrange(s.len() - n, s.len() as int)
    } else {
        s
    }
}

/// Seconds per candle for a chart timeframe, written either in minutes (`1`,
/// `5`, `15`, `30`, `60`, `240`) or `D` for a day, or as `1m`, `5m`, `15m`,
/// `30m`, `1h`, `4h`, `1d`; unknown timeframes count as five minutes.
pub open spec fn timeframe_seconds(tf: Seq<char>) -> i64 {
    if tf == "1m"@ || tf == "1"@ {
        60
    } else if tf == "5m"@ || tf == "5"@ {
        300
    } else if tf == "15m"@ || tf == "15"@ {
        900
    } else if tf == "30m"@ || tf == "30"@ {
        1800
    } else if tf == "1h"@ || tf == "60"@ {
        3600
    } else if tf == "4h"@ || tf == "240"@ {
        14400
    } else if tf == "1d"@ || tf == "D"@ {
        86400
    } else {
        300
    }
}

/// The price the demo feed and the chart history start from for a symbol.
pub open spec fn base_price(symbol: Seq<char>) -> u32 {
    if symbol == "SBER"@ {
        250
    } else if symbol == "GAZP"@ {
        165
    } else if symbol == "LKOH"@ {
        6500
    } else if symbol == "YNDX"@ {
        3800
    } else if symbol == "TCSG"@ {
        2800
    } else if symbol == "MOEX"@ {
        3200
    } else if symbol == "PLZL"@ {
        12000
    } else if symbol == "MGNT"@ {
        7500
    } else {
        100
    }
}

/// Seconds per candle of a chart timeframe.
pub fn timeframe_to_seconds(tf: &str) -> (r: i64)
    ensures
        r == timeframe_seconds(tf@),
{
    if text_eq(tf, "1m") || text_eq(tf, "1") {
        60
    } else if text_eq(tf, "5m") || text_eq(tf, "5") {
        300
    } else if text_eq(tf, "15m") || text_eq(tf, "15") {
        900
    } else if text_eq(tf, "30m") || text_eq(tf, "30") {
        1800
    } else if text_eq(tf, "1h") || text_eq(tf, "60") {
        3600
    } else if text_eq(tf, "4h") || text_eq(tf, "240") {
        14400
    } else if text_eq(tf, "1d") || text_eq(tf, "D") {
        86400
    } else {
        300
    }
}

/// The base price of a symbol for generated demo data.
pub fn mock_base_price(symbol: &str) -> (r: u32)
    ensures
        r == base_price(symbol@),
{
    if text_eq(symbol, "SBER") {
        250
    } else if text_eq(symbol, "GAZP") {
        165
    } else if text_eq(symbol, "LKOH") {
        6500
    } else if text_eq(symbol, "YNDX") {
        3800
    } else if text_eq(symbol, "TCSG") {
        2800
    } else if text_eq(symbol, "MOEX") {
        3200
    } else if text_eq(symbol, "PLZL") {
        12000
    } else if text_eq(symbol, "MGNT") {
        7500
    } else {
        100
    }
}

/// The key of a symbol's chart history: `{symbol}_{timeframe}`.
pub fn history_key(symbol: &str, timeframe: &str) -> (r: String)
    ensures
        r@ == symbol@ + "_"@ + timeframe@,
{
    join3(symbol, "_", timeframe)
}

/// Opening times of `count` generated candles that end at `now`: the first at
/// `now - count * interval`, each next one `interval` later.
pub fn mock_candle_times(now: i64, count: usize, interval: i64) -> (r: Vec<i64>)
    requires
        interval >= 0,
        count <= i64::MAX,
        count * interval <= i64::MAX,
        now - count * interval >= i64::MIN,
    ensures
        r@.len() == count,
        forall|i: int| 0 <= i < count ==> r@[i] == now - count * interval + i * interval,
{
    proof {
        assert(0 <= count * interval) by (nonlinear_arith)
            requires
                interval >= 0,
        ;
    }
    let n: i64 = count as i64;
    let span: i64 = n * interval;
    let start: i64 = now - span;
    let mut out: Vec<i64> = Vec::new();
    let mut i: usize = 0;
    while i < count
        invariant
            i <= count,
            n == count,
            interval >= 0,
            0 <= span <= i64::MAX,
            span == count * interval,
            start == now - span,
            now - span >= i64::MIN,
            out@.len() == i,
            forall|j: int| 0 <= j < i ==> out@[j] == start + j * interval,
        decreases count - i,
    {
        proof {
            assert(0 <= i * interval <= count * interval) by (nonlinear_arith)
                requires
                    i <= count,
                    interval >= 0,
            ;
        }
        let k: i64 = i as i64;
        let step: i64 = k * interval;
        out.push(start + step);
        i = i + 1;
    }
    out
}

/// Whether a candle opening at `t` lies in the requested range: not before
/// `from` and not after `to`, each bound only where one is given.
pub open spec fn within_range(t: i64, from: Option<i64>, to: Option<i64>) -> bool {
    &&& (from matches Some(f) ==> f <= t)
    &&& (to matches Some(u) ==> t <= u)
}

/// Whether a candle opening at `t` lies in the requested range (see `within_range`).
pub fn in_time_range(t: i64, from: Option<i64>, to: Option<i64>) -> (r: bool)
    ensures
        r == within_range(t, from, to),
{
    let after = match from {
        Some(f) => f <= t,
        None => true,
    };
    let before = match to {
        Some(u) => t <= u,
        None => true,
    };
    after && before
}

/// The last `n` items of `items`, in their order.
pub fn last_n<T: Copy>(items: &Vec<T>, n: usize) -> (r: Vec<T>)
    ensures
        r@ == last_items(items@, n as nat),
{
    let len = items.len();
    let start = if n < len {
        len - n
    } else {
        0
    };
    let mut out: Vec<T> = Vec::new();
    let mut i = start;
    while i < len
        invariant
            start <= i <= len,
            len == items@.len(),
            out@ == items@.subrange(start as int, i as int),
        decreases len - i,
    {
        out.push(items[i]);
        assert(items@.subrange(start as int, i + 1) =~= items@.subrange(start as int, i as int).push(
            items@[i as int],
        ));
        i = i + 1;
    }
    assert(out@ =~= last_items(items@, n as nat));
    out
}

/// The new profit and loss of a position at `price` (see `repriced_amounts`).
pub fn reprice_amounts(p: &Position, price: Dec) -> (r: Option<(Dec, Option<Dec>)>)
    requires
        p.wf(),
        price.wf(),
    ensures
        match (r, repriced_amounts(*p, price@)) {
            (None, None) => true,
            (Some((pnl, pct)), Some((spnl, spct))) => pnl@ == spnl && pnl.wf() && opt_parts(pct)
                == spct && (pct matches Some(x) ==> x.wf()),
            _ => false,
        },
{
    let q = Dec::from_u32(p.quantity);
    let diff = if p.side == OrderSide::Buy {
        dec_checked_sub(price, p.entry_price)
    } else {
        dec_checked_sub(p.entry_price, price)
    };
    let d = match diff {
        None => return None,
        Some(d) => d,
    };
    let pnl = match dec_checked_mul(d, q) {
        None => return None,
        Some(x) => x,
    };
    let total = match dec_checked_mul(p.entry_price, q) {
        None => return None,
        Some(x) => x,
    };
    proof {
        lemma_zero_lt(total@);
    }
    if dec_lt(Dec::zero(), total) {
        let ratio = match dec_checked_div(pnl, total) {
            None => return None,
            Some(x) => x,
        };
        match dec_checked_mul(ratio, Dec::from_u32(100)) {
            None => None,
            Some(pct) => Some((pnl, Some(pct))),
        }
    } else {
        Some((pnl, None))
    }
}

impl BackendState {
    /// The log and the signal list are within their capacities, and every
    /// position's amounts fit a `Decimal`.
    pub open spec fn wf(&self) -> bool {
        &&& self.logs@.len() <= LOG_CAPACITY
        &&& self.signals@.len() <= SIGNAL_CAPACITY
        &&& forall|i: int| 0 <= i < self.positions@.len() ==> (#[trigger] self.positions@[i]).wf()
    }

    /// Whether the log and the signal list are within their capacities and
    /// every position's amounts fit a `Decimal`.
    pub fn is_well_formed(&self) -> (r: bool)
        ensures
            r == self.wf(),
    {
        if self.logs.len() > LOG_CAPACITY || self.signals.len() > SIGNAL_CAPACITY {
            return false;
        }
        let mut i: usize = 0;
        while i < self.positions.len()
            invariant
                i <= self.positions@.len(),
                forall|j: int| 0 <= j < i ==> (#[trigger] self.positions@[j]).wf(),
            decreases self.positions@.len() - i,
        {
            if !self.positions[i].is_well_formed() {
                return false;
            }
            i = i + 1;
        }
        true
    }

    /// The state the backend starts in: version 5.0.0, trading off, demo mode,
    /// health "initializing", equity and balance of 5000.00, nothing else.
    pub fn new(timestamp: String) -> (r: BackendState)
        ensures
            r.wf(),
            r.system.version@ == "5.0.0"@,
            r.system.mode == TradingMode::Off,
            !r.system.running,
            r.system.demo_mode,
            r.system.health.status@ == "initializing"@,
            r.system.health.latency_ms == 0,
            r.system.timestamp == timestamp,
            signed_units(r.portfolio.total_equity@) == 500000 && r.portfolio.total_equity.scale == 2,
            signed_units(r.portfolio.peak_equity@) == 500000 && r.portfolio.peak_equity.scale == 2,
            signed_units(r.portfolio.available_balance@) == 500000 && r.portfolio.available_balance.scale == 2,
            r.portfolio.daily_pnl@ == (false, 0nat, 0nat),
            r.portfolio.daily_pnl_pct@ == (false, 0nat, 0nat),
            r.portfolio.drawdown_pct@ == (false, 0nat, 0nat),
            r.positions@.len() == 0,
            r.orders@.len() == 0,
            r.signals@.len() == 0,
            r.logs@.len() == 0,
    {
        let equity = Dec::new(500000, 2);
        BackendState {
            system: SystemState {
                version: String::from_str("5.0.0"),
                mode: TradingMode::Off,
                running: false,
                demo_mode: true,
                health: HealthStatus { status: String::from_str("initializing"), latency_ms: 0 },
                timestamp,
            },
            portfolio: Portfolio {
                total_equity: equity,
                daily_pnl: Dec::zero(),
                daily_pnl_pct: Dec::zero(),
                peak_equity: equity,
                drawdown_pct: Dec::zero(),
                available_balance: equity,
            },
            positions: Vec::new(),
            orders: Vec::new(),
            signals: Vec::new(),
            logs: Vec::new(),
        }
    }

    /// The starting state, stamped with the current time.
    pub fn new_now() -> (r: BackendState)
        ensures
            r.wf(),
            r.system.version@ == "5.0.0"@,
            r.system.mode == TradingMode::Off,
            !r.system.running,
            r.system.demo_mode,
            r.system.health.status@ == "initializing"@,
            r.system.health.latency_ms == 0,
            signed_units(r.portfolio.total_equity@) == 500000 && r.portfolio.total_equity.scale == 2,
            signed_units(r.portfolio.peak_equity@) == 500000 && r.portfolio.peak_equity.scale == 2,
            signed_units(r.portfolio.available_balance@) == 500000 && r.portfolio.available_balance.scale == 2,
            r.portfolio.daily_pnl@ == (false, 0nat, 0nat),
            r.portfolio.daily_pnl_pct@ == (false, 0nat, 0nat),
            r.portfolio.drawdown_pct@ == (false, 0nat, 0nat),
            r.positions@.len() == 0,
            r.orders@.len() == 0,
            r.signals@.len() == 0,
            r.logs@.len() == 0,
    {
        BackendState::new(utc_now_text())
    }

    /// Appends a log entry with the given time, dropping the oldest entry when
    /// the log would exceed its capacity.
    pub fn add_log_at(&mut self, level: LogLevel, message: String, source: String, timestamp: String)
        requires
            old(self).wf(),
        ensures
            final(self).wf(),
            final(self).logs@ == push_bounded(
                old(self).logs@,
                LogEntry { timestamp, level, message, source },
                LOG_CAPACITY as nat,
            ),
            final(self).system == old(self).system,
            final(self).portfolio == old(self).portfolio,
            final(self).positions == old(self).positions,
            final(self).orders == old(self).orders,
            final(self).signals == old(self).signals,
    {
        let entry = LogEntry { timestamp, level, message, source };
        proof {
            lemma_push_bounded(self.logs@, entry, LOG_CAPACITY as nat);
        }
        push_bounded_vec(&mut self.logs, entry, LOG_CAPACITY);
    }

    /// Appends a log entry stamped with the current time (see `add_log_at`).
    pub fn add_log(&mut self, level: LogLevel, message: &str, source: &str)
        requires
            old(self).wf(),
        ensures
            final(self).wf(),
            logged(old(self).logs@, final(self).logs@, level, message@, source@),
            final(self).system == old(self).system,
            final(self).portfolio == old(self).portfolio,
            final(self).positions == old(self).positions,
            final(self).orders == old(self).orders,
            final(self).signals == old(self).signals,
    {
        let ts = utc_now_text();
        self.add_log_at(level, String::from_str(message), String::from_str(source), ts);
    }

    /// A copy of the bot's status.
    pub fn get_bot_status(&self) -> (r: SystemState)
        ensures
            r == self.system,
    {
        self.system.duplicate()
    }

    /// Starts trading in `paper` or `live` mode. It is refused, with nothing
    /// changed, when trading already runs (`Already running`), for any other
    /// mode (`Invalid mode`), and when no API token is configured (`API token
    /// not configured`), in that order. Otherwise trading runs in that mode,
    /// the start is logged, and the answer is `Trading started in {mode} mode`.
    pub fn start_trading(&mut self, args: &StartTradingArgs, token_configured: bool) -> (r: Result<String, String>)
        requires
            old(self).wf(),
        ensures
            final(self).wf(),
            match start_refusal(old(self).system.running, args.mode@, token_configured) {
                Some(e) => r matches Err(m) && m@ == e && *final(self) == *old(self),
                None => {
                    &&& final(self).system.mode == start_mode(args.mode@)
                    &&& final(self).system.running
                    &&& final(self).system.version == old(self).system.version
                    &&& final(self).system.demo_mode == old(self).system.demo_mode
                    &&& final(self).system.health == old(self).system.health
                    &&& final(self).system.timestamp == old(self).system.timestamp
                    &&& final(self).portfolio == old(self).portfolio
                    &&& final(self).positions == old(self).positions
                    &&& final(self).orders == old(self).orders
                    &&& final(self).signals == old(self).signals
                    &&& logged(
                        old(self).logs@,
                        final(self).logs@,
                        LogLevel::Info,
                        "Trading started in "@ + args.mode@ + " mode"@,
                        "api"@,
                    )
                    &&& r matches Ok(m) && m@ == "Trading started in "@ + args.mode@ + " mode"@
                },
            },
    {
        if self.system.running {
            return Err(String::from_str("Already running"));
        }
        let live = text_eq(args.mode.as_str(), "live");
        let paper = text_eq(args.mode.as_str(), "paper");
        if !live && !paper {
            return Err(String::from_str("Invalid mode"));
        }
        if !token_configured {
            return Err(String::from_str("API token not configured"));
        }
        self.system.mode = if live {
            TradingMode::Live
        } else {
            TradingMode::Paper
        };
        self.system.running = true;
        let message = join3("Trading started in ", args.mode.as_str(), " mode");
        self.add_log(LogLevel::Info, message.as_str(), "api");
        Ok(message)
    }

    /// Stops trading: not running, mode off; positions stay. Logged; the
    /// answer is `Trading stopped`.
    pub fn stop_trading(&mut self) -> (r: Result<String, String>)
        requires
            old(self).wf(),
        ensures
            final(self).wf(),
            final(self).system.mode == TradingMode::Off,
            !final(self).system.running,
            final(self).system.version == old(self).system.version,
            final(self).system.demo_mode == old(self).system.demo_mode,
            final(self).system.health == old(self).system.health,
            final(self).system.timestamp == old(self).system.timestamp,
            final(self).portfolio == old(self).portfolio,
            final(self).positions == old(self).positions,
            final(self).orders == old(self).orders,
            final(self).signals == old(self).signals,
            logged(old(self).logs@, final(self).logs@, LogLevel::Info, "Trading stopped"@, "api"@),
            r matches Ok(m) && m@ == "Trading stopped"@,
    {
        self.system.running = false;
        self.system.mode = TradingMode::Off;
        self.add_log(LogLevel::Info, "Trading stopped", "api");
        Ok(String::from_str("Trading stopped"))
    }

    /// The emergency stop: not running, mode off, every position closed and
    /// every pending order cancelled. Logged as an error; the answer counts
    /// the positions closed and the orders cancelled, with the closed
    /// positions' total profit and loss (see `StopResult`).
    pub fn emergency_stop(&mut self) -> (r: Result<StopResult, String>)
        requires
            old(self).wf(),
        ensures
            final(self).wf(),
            final(self).system.mode == TradingMode::Off,
            !final(self).system.running,
            final(self).system.version == old(self).system.version,
            final(self).system.demo_mode == old(self).system.demo_mode,
            final(self).system.health == old(self).system.health,
            final(self).system.timestamp == old(self).system.timestamp,
            final(self).portfolio == old(self).portfolio,
            final(self).positions@.len() == 0,
            pending_cancelled(old(self).orders@, final(self).orders@),
            final(self).signals == old(self).signals,
            logged(
                old(self).logs@,
                final(self).logs@,
                LogLevel::Error,
                "EMERGENCY STOP ACTIVATED - All positions closed"@,
                "api"@,
            ),
            r matches Ok(res) && res.positions_closed == old(self).positions@.len()
                && res.orders_cancelled == pending_count(old(self).orders@)
                && opt_parts(res.total_pnl) == pnl_total(old(self).positions@),
    {
        let ghost ps = self.positions@;
        let mut total: Option<Dec> = Some(Dec::zero());
        let mut i: usize = 0;
        while i < self.positions.len()
            invariant
                self.positions@ == ps,
                forall|j: int| 0 <= j < ps.len() ==> (#[trigger] ps[j]).wf(),
                i <= ps.len(),
                opt_parts(total) == pnl_total(ps.take(i as int)),
                total matches Some(t) ==> t.wf(),
            decreases ps.len() - i,
        {
            assert(ps.take(i + 1).drop_last() =~= ps.take(i as int));
            assert(ps.take(i + 1).last() == ps[i as int]);
            total = match total {
                Some(t) => dec_checked_add(t, self.positions[i].unrealized_pnl),
                None => None,
            };
            i = i + 1;
        }
        assert(ps.take(ps.len() as int) =~= ps);
        let closed = self.positions.len();
        let ghost os = self.orders@;
        let mut kept: Vec<Order> = Vec::new();
        let mut cancelled: usize = 0;
        let mut k: usize = 0;
        while k < self.orders.len()
            invariant
                self.orders@ == os,
                k <= os.len(),
                kept@.len() == k,
                cancelled == pending_count(os.take(k as int)),
                cancelled <= k,
                forall|j: int| 0 <= j < k ==> order_cancelled_if_pending(#[trigger] os[j], kept@[j]),
            decreases os.len() - k,
        {
            assert(os.take(k + 1).drop_last() =~= os.take(k as int));
            assert(os.take(k + 1).last() == os[k as int]);
            let o = &self.orders[k];
            if o.status == OrderStatus::Pending {
                kept.push(Order {
                    id: o.id.clone(),
                    symbol: o.symbol.clone(),
                    side: o.side,
                    order_type: o.order_type,
                    quantity: o.quantity,
                    price: o.price,
                    filled_quantity: o.filled_quantity,
                    status: OrderStatus::Cancelled,
                    created_at: o.created_at.clone(),
                    time_in_force: o.time_in_force.clone(),
                });
                cancelled = cancelled + 1;
            } else {
                kept.push(o.duplicate());
            }
            k = k + 1;
        }
        assert(os.take(os.len() as int) =~= os);
        self.orders = kept;
        self.system.running = false;
        self.system.mode = TradingMode::Off;
        self.positions.clear();
        self.add_log(LogLevel::Error, "EMERGENCY STOP ACTIVATED - All positions closed", "api");
        Ok(StopResult { positions_closed: closed, orders_cancelled: cancelled, total_pnl: total })
    }

    /// A copy of the open positions.
    pub fn get_positions(&self) -> (r: Vec<Position>)
        ensures
            r@ == self.positions@,
    {
        duplicate_positions(&self.positions)
    }

    /// The orders with the requested status (`pending`, `working`,
    /// `partially_filled`, `filled`, `cancelled`, `rejected`; all of them when
    /// none is given), in order, at most `limit` of them (100 when no limit is
    /// given).
    pub fn get_orders(&self, args: &GetOrdersArgs) -> (r: Vec<Order>)
        ensures
            r@ == first_items(
                orders_with_status(self.orders@, opt_text(args.status)),
                match args.limit {
                    Some(l) => l as nat,
                    None => DEFAULT_ORDER_LIMIT as nat,
                },
            ),
    {
        let ghost os = self.orders@;
        let ghost want = opt_text(args.status);
        let mut matching: Vec<Order> = Vec::new();
        let mut i: usize = 0;
        while i < self.orders.len()
            invariant
                self.orders@ == os,
                want == opt_text(args.status),
                i <= os.len(),
                matching@ == orders_with_status(os.take(i as int), want),
            decreases os.len() - i,
        {
            assert(os.take(i + 1).drop_last() =~= os.take(i as int));
            assert(os.take(i + 1).last() == os[i as int]);
            let o = &self.orders[i];
            let keep = match &args.status {
                Some(st) => text_eq(order_status_name(o.status), st.as_str()),
                None => true,
            };
            if keep {
                matching.push(o.duplicate());
            }
            i = i + 1;
        }
        assert(os.take(os.len() as int) =~= os);
        let limit: usize = match args.limit {
            Some(l) => l as usize,
            None => DEFAULT_ORDER_LIMIT,
        };
        let ghost all = matching@;
        let mut out: Vec<Order> = Vec::new();
        let mut k: usize = 0;
        while k < matching.len() && k < limit
            invariant
                matching@ == all,
                k <= all.len(),
                k <= limit,
                out@ == all.take(k as int),
            decreases all.len() - k,
        {
            out.push(matching[k].duplicate());
            assert(all.take(k + 1) =~= all.take(k as int).push(all[k as int]));
            k = k + 1;
        }
        assert(out@ =~= first_items(all, limit as nat));
        out
    }

    /// A copy of the recent signals.
    pub fn get_signals(&self) -> (r: Vec<TradeSignal>)
        ensures
            r@ == self.signals@,
    {
        duplicate_signals(&self.signals)
    }

    /// The index of the first position with this id (the number of
    /// positions when none has it).
    fn position_index_of(&self, id: &str) -> (r: usize)
        ensures
            r == position_index(self.positions@, id@),
            r <= self.positions@.len(),
    {
        let mut i: usize = 0;
        while i < self.positions.len()
            invariant
                i <= self.positions@.len(),
                forall|j: int| 0 <= j < i ==> (#[trigger] self.positions@[j]).id@ != id@,
            decreases self.positions@.len() - i,
        {
            if text_eq(self.positions[i].id.as_str(), id) {
                proof {
                    lemma_position_index(self.positions@, id@, i as int);
                }
                return i;
            }
            i = i + 1;
        }
        proof {
            lemma_position_index(self.positions@, id@, i as int);
        }
        i
    }

    /// Closes every position with this id (the others stay, in order), logs
    /// it, and answers `Position {id} closed`. When no position with this id
    /// is open, nothing changes and the answer is the not-found error
    /// `Position {id} not found`.
    pub fn close_position(&mut self, args: &ClosePositionArgs) -> (r: Result<String, String>)
        requires
            old(self).wf(),
        ensures
            final(self).wf(),
            position_index(old(self).positions@, args.position_id@) >= old(self).positions@.len() ==> {
                &&& r matches Err(m) && m@ == "Position "@ + args.position_id@ + " not found"@
                &&& *final(self) == *old(self)
            },
            position_index(old(self).positions@, args.position_id@) < old(self).positions@.len() ==> {
                &&& final(self).positions@ == without_position(old(self).positions@, args.position_id@)
                &&& final(self).system == old(self).system
                &&& final(self).portfolio == old(self).portfolio
                &&& final(self).orders == old(self).orders
                &&& final(self).signals == old(self).signals
                &&& logged(
                    old(self).logs@,
                    final(self).logs@,
                    LogLevel::Info,
                    "Position "@ + args.position_id@ + " closed"@,
                    "api"@,
                )
                &&& r matches Ok(m) && m@ == "Position "@ + args.position_id@ + " closed"@
            },
    {
        if self.position_index_of(args.position_id.as_str()) >= self.positions.len() {
            return Err(join3("Position ", args.position_id.as_str(), " not found"));
        }
        let ghost before = self.positions@;
        let mut kept: Vec<Position> = Vec::new();
        let mut i: usize = 0;
        while i < self.positions.len()
            invariant
                i <= self.positions@.len(),
                self.positions@ == before,
                kept@ == without_position(before.take(i as int), args.position_id@),
                forall|j: int| 0 <= j < kept@.len() ==> (#[trigger] kept@[j]).wf(),
                forall|j: int| 0 <= j < before.len() ==> (#[trigger] before[j]).wf(),
            decreases self.positions@.len() - i,
        {
            assert(before.take(i + 1).drop_last() =~= before.take(i as int));
            if self.positions[i].id != args.position_id {
                kept.push(self.positions[i].duplicate());
            }
            i = i + 1;
        }
        assert(before.take(before.len() as int) =~= before);
        self.positions = kept;
        let message = join3("Position ", args.position_id.as_str(), " closed");
        self.add_log(LogLevel::Info, message.as_str(), "api");
        Ok(message)
    }

    /// Records a new pending order with the given id and creation time (see
    /// `is_placed_order`), logs it, and answers `Order placed successfully`;
    /// an order that `order_refusal` rejects changes nothing and is answered
    /// with that error.
    pub fn place_order_with(
        &mut self,
        args: &PlaceOrderArgs,
        order_id: String,
        created_at: String,
    ) -> (r: Result<String, String>)
        requires
            old(self).wf(),
        ensures
            final(self).wf(),
            match order_refusal(args) {
                Some(e) => r matches Err(m) && m@ == e && *final(self) == *old(self),
                None => {
                    &&& final(self).orders@.len() == old(self).orders@.len() + 1
                    &&& final(self).orders@.drop_last() == old(self).orders@
                    &&& is_placed_order(final(self).orders@.last(), args, order_id, created_at)
                    &&& final(self).system == old(self).system
                    &&& final(self).portfolio == old(self).portfolio
                    &&& final(self).positions == old(self).positions
                    &&& final(self).signals == old(self).signals
                    &&& logged(old(self).logs@, final(self).logs@, LogLevel::Info, order_placed_message(args), "api"@)
                    &&& r matches Ok(m) && m@ == "Order placed successfully"@
                },
            },
    {
        match order_refusal_of(args) {
            Some(e) => {
                return Err(e);
            },
            None => {},
        }
        let side = if text_eq(args.side.as_str(), "buy") {
            OrderSide::Buy
        } else {
            OrderSide::Sell
        };
        let order_type = if text_eq(args.order_type.as_str(), "market") {
            OrderType::Market
        } else if text_eq(args.order_type.as_str(), "limit") {
            OrderType::Limit
        } else if text_eq(args.order_type.as_str(), "stop") {
            OrderType::Stop
        } else {
            OrderType::Market
        };
        proof {
            reveal_strlit("market");
            reveal_strlit("limit");
            reveal_strlit("stop");
            assert("market"@.len() == 6);
            assert("limit"@.len() == 5);
            assert("stop"@.len() == 4);
            assert("market"@ != "limit"@);
            assert("market"@ != "stop"@);
        }
        let price = match &args.price {
            Some(p) => dec_parse(p.as_str()),
            None => None,
        };
        let order = Order {
            id: order_id,
            symbol: args.symbol.clone(),
            side,
            order_type,
            quantity: args.quantity,
            price,
            filled_quantity: 0,
            status: OrderStatus::Pending,
            created_at,
            time_in_force: String::from_str("GTC"),
        };
        let ghost before = self.orders@;
        self.orders.push(order);
        assert(self.orders@.drop_last() =~= before);
        let mut message = join2("Order placed: ", args.side.as_str());
        message.append(" ");
        message.append(args.symbol.as_str());
        message.append(" ");
        let qty = u64_text(args.quantity as u64);
        message.append(qty.as_str());
        self.add_log(LogLevel::Info, message.as_str(), "api");
        Ok(String::from_str("Order placed successfully"))
    }

    /// Places an order (see `place_order_with`) whose id is `order-` followed by
    /// a fresh UUID and whose creation time is now; an order that
    /// `order_refusal` rejects changes nothing and is answered with that error.
    pub fn place_order(&mut self, args: &PlaceOrderArgs) -> (r: Result<String, String>)
        requires
            old(self).wf(),
        ensures
            final(self).wf(),
            match order_refusal(args) {
                Some(e) => r matches Err(m) && m@ == e && *final(self) == *old(self),
                None => {
                    &&& final(self).orders@.len() == old(self).orders@.len() + 1
                    &&& final(self).orders@.drop_last() == old(self).orders@
                    &&& is_placed_order(
                        final(self).orders@.last(),
                        args,
                        final(self).orders@.last().id,
                        final(self).orders@.last().created_at,
                    )
                    &&& final(self).orders@.last().id@.take(6) == "order-"@
                    &&& is_uuid_text(final(self).orders@.last().id@.skip(6))
                    &&& final(self).system == old(self).system
                    &&& final(self).portfolio == old(self).portfolio
                    &&& final(self).positions == old(self).positions
                    &&& final(self).signals == old(self).signals
                    &&& logged(old(self).logs@, final(self).logs@, LogLevel::Info, order_placed_message(args), "api"@)
                    &&& r matches Ok(m) && m@ == "Order placed successfully"@
                },
            },
    {
        match order_refusal_of(args) {
            Some(e) => {
                return Err(e);
            },
            None => {},
        }
        let uuid = new_uuid_text();
        let id = join2("order-", uuid.as_str());
        proof {
            reveal_strlit("order-");
            assert(id@.take(6) =~= "order-"@);
            assert(id@.skip(6) =~= uuid@);
        }
        let created_at = utc_now_text();
        self.place_order_with(args, id, created_at)
    }

    /// The newest `limit` log entries (100 when no limit is given), newest first.
    pub fn get_logs(&self, args: &GetLogsArgs) -> (r: Vec<LogEntry>)
        ensures
            r@ == newest_first(
                self.logs@,
                match args.limit {
                    Some(l) => l as nat,
                    None => DEFAULT_LOG_LIMIT as nat,
                },
            ),
    {
        let limit = match args.limit {
            Some(l) => l,
            None => DEFAULT_LOG_LIMIT,
        };
        let len = self.logs.len();
        let count = if limit < len {
            limit
        } else {
            len
        };
        let mut out: Vec<LogEntry> = Vec::new();
        let mut i: usize = 0;
        while i < count
            invariant
                count <= len,
                len == self.logs@.len(),
                i <= count,
                out@.len() == i,
                forall|j: int| 0 <= j < i ==> out@[j] == self.logs@[len - 1 - j],
            decreases count - i,
        {
            out.push(self.logs[len - 1 - i].duplicate());
            i = i + 1;
        }
        assert(out@ =~= newest_first(self.logs@, limit as nat));
        out
    }

    /// Appends a signal, keeping only the ten most recent.
    pub fn add_signal(&mut self, signal: TradeSignal)
        requires
            old(self).wf(),
        ensures
            final(self).wf(),
            final(self).signals@ == push_bounded(old(self).signals@, signal, SIGNAL_CAPACITY as nat),
            final(self).system == old(self).system,
            final(self).portfolio == old(self).portfolio,
            final(self).positions == old(self).positions,
            final(self).orders == old(self).orders,
            final(self).logs == old(self).logs,
    {
        proof {
            lemma_push_bounded(self.signals@, signal, SIGNAL_CAPACITY as nat);
        }
        push_bounded_vec(&mut self.signals, signal, SIGNAL_CAPACITY);
    }

    /// Records a signal from the trading bot: it joins the ten most recent
    /// signals, and the log notes `New signal: {BUY|SELL|HOLD} {symbol}` from
    /// the bot connection.
    pub fn record_bot_signal(&mut self, signal: TradeSignal)
        requires
            old(self).wf(),
        ensures
            final(self).wf(),
            final(self).signals@ == push_bounded(old(self).signals@, signal, SIGNAL_CAPACITY as nat),
            logged(
                old(self).logs@,
                final(self).logs@,
                LogLevel::Info,
                "New signal: "@ + action_word(signal.action) + " "@ + signal.symbol@,
                "websocket"@,
            ),
            final(self).system == old(self).system,
            final(self).portfolio == old(self).portfolio,
            final(self).positions == old(self).positions,
            final(self).orders == old(self).orders,
    {
        let line = signal_announcement(signal.action, signal.symbol.as_str());
        self.add_signal(signal);
        self.add_log(LogLevel::Info, line.as_str(), "websocket");
    }

    /// Whether every position on `symbol` can be marked to `price`.
    pub fn price_update_applies(&self, symbol: &str, price: Dec) -> (r: bool)
        requires
            self.wf(),
            price.wf(),
        ensures
            r == price_applies(self.positions@, symbol@, price),
    {
        let mut i: usize = 0;
        while i < self.positions.len()
            invariant
                self.wf(),
                price.wf(),
                i <= self.positions@.len(),
                forall|j: int|
                    0 <= j < i && (#[trigger] self.positions@[j]).symbol@ == symbol@
                        ==> repriced_amounts(self.positions@[j], price@) is Some,
            decreases self.positions@.len() - i,
        {
            if text_eq(self.positions[i].symbol.as_str(), symbol) {
                if reprice_amounts(&self.positions[i], price).is_none() {
                    return false;
                }
            }
            i = i + 1;
        }
        true
    }

    /// Marks every position on `symbol` to `price`: current price, profit and
    /// loss, and (when the entry value is above zero) its percentage.
    pub fn apply_price(&mut self, symbol: &str, price: Dec)
        requires
            old(self).wf(),
            price.wf(),
            price_applies(old(self).positions@, symbol@, price),
        ensures
            final(self).wf(),
            prices_marked(old(self).positions@, final(self).positions@, symbol@, price),
            final(self).system == old(self).system,
            final(self).portfolio == old(self).portfolio,
            final(self).orders == old(self).orders,
            final(self).signals == old(self).signals,
            final(self).logs == old(self).logs,
    {
        let ghost before = self.positions@;
        let mut out: Vec<Position> = Vec::new();
        let mut i: usize = 0;
        while i < self.positions.len()
            invariant
                self.positions@ == before,
                price.wf(),
                price_applies(before, symbol@, price),
                forall|j: int| 0 <= j < before.len() ==> (#[trigger] before[j]).wf(),
                i <= before.len(),
                out@.len() == i,
                forall|j: int| 0 <= j < out@.len() ==> (#[trigger] out@[j]).wf(),
                forall|j: int|
                    0 <= j < i ==> if (#[trigger] before[j]).symbol@ == symbol@ {
                        repriced(before[j], out@[j], price)
                    } else {
                        out@[j] == before[j]
                    },
            decreases before.len() - i,
        {
            let p = &self.positions[i];
            if text_eq(p.symbol.as_str(), symbol) {
                assert(before[i as int].symbol@ == symbol@);
                let (pnl, pct) = match reprice_amounts(p, price) {
                    Some(x) => x,
                    None => {
                        assert(false);
                        return;
                    },
                };
                let pct_value = match pct {
                    Some(x) => x,
                    None => p.unrealized_pnl_pct,
                };
                out.push(
                    Position {
                        id: p.id.clone(),
                        symbol: p.symbol.clone(),
                        side: p.side,
                        quantity: p.quantity,
                        entry_price: p.entry_price,
                        current_price: price,
                        unrealized_pnl: pnl,
                        unrealized_pnl_pct: pct_value,
                        stop_loss: p.stop_loss,
                        take_profit: p.take_profit,
                        trailing_stop: p.trailing_stop,
                        open_time: p.open_time.clone(),
                    },
                );
            } else {
                out.push(p.duplicate());
            }
            i = i + 1;
        }
        self.positions = out;
    }

    /// Marks every position on `symbol` to `price` when none of the arithmetic
    /// overflows and answers `true`; otherwise changes nothing and answers
    /// `false` (where the backend's `Decimal` arithmetic would have panicked).
    pub fn update_price(&mut self, symbol: &str, price: Dec) -> (applied: bool)
        requires
            old(self).wf(),
            price.wf(),
        ensures
            final(self).wf(),
            applied == price_applies(old(self).positions@, symbol@, price),
            applied ==> prices_marked(old(self).positions@, final(self).positions@, symbol@, price),
            !applied ==> final(self).positions == old(self).positions,
            final(self).system == old(self).system,
            final(self).portfolio == old(self).portfolio,
            final(self).orders == old(self).orders,
            final(self).signals == old(self).signals,
            final(self).logs == old(self).logs,
    {
        if self.price_update_applies(symbol, price) {
            self.apply_price(symbol, price);
            true
        } else {
            false
        }
    }

    /// Sets the stop loss, take profit and trailing stop that are given on the
    /// first position with this id (the others are kept) and answers
    /// `Position {id} SL/TP updated` together with the position's new levels,
    /// which the server broadcasts to every client; with no such position
    /// nothing changes and the answer is the error `Position {id} not found`.
    pub fn modify_position_sl_tp(
        &mut self,
        position_id: &str,
        stop_loss: Option<Dec>,
        take_profit: Option<Dec>,
        trailing_stop: Option<Dec>,
    ) -> (r: Result<(String, PositionLevels), String>)
        requires
            old(self).wf(),
            stop_loss matches Some(d) ==> d.wf(),
            take_profit matches Some(d) ==> d.wf(),
            trailing_stop matches Some(d) ==> d.wf(),
        ensures
            final(self).wf(),
            final(self).system == old(self).system,
            final(self).portfolio == old(self).portfolio,
            final(self).orders == old(self).orders,
            final(self).signals == old(self).signals,
            final(self).logs == old(self).logs,
            ({
                let k = position_index(old(self).positions@, position_id@) as int;
                let old_ps = old(self).positions@;
                let new_ps = final(self).positions@;
                if k < old_ps.len() {
                    &&& new_ps.len() == old_ps.len()
                    &&& forall|j: int| 0 <= j < old_ps.len() && j != k ==> new_ps[j] == old_ps[j]
                    &&& new_ps[k].stop_loss == match stop_loss {
                        Some(d) => Some(d),
                        None => old_ps[k].stop_loss,
                    }
                    &&& new_ps[k].take_profit == match take_profit {
                        Some(d) => Some(d),
                        None => old_ps[k].take_profit,
                    }
                    &&& new_ps[k].trailing_stop == match trailing_stop {
                        Some(d) => Some(d),
                        None => old_ps[k].trailing_stop,
                    }
                    &&& new_ps[k].id == old_ps[k].id
                    &&& new_ps[k].symbol == old_ps[k].symbol
                    &&& new_ps[k].side == old_ps[k].side
                    &&& new_ps[k].quantity == old_ps[k].quantity
                    &&& new_ps[k].entry_price == old_ps[k].entry_price
                    &&& new_ps[k].current_price == old_ps[k].current_price
                    &&& new_ps[k].unrealized_pnl == old_ps[k].unrealized_pnl
                    &&& new_ps[k].unrealized_pnl_pct == old_ps[k].unrealized_pnl_pct
                    &&& new_ps[k].open_time == old_ps[k].open_time
                    &&& r matches Ok((m, u)) && m@ == "Position "@ + position_id@ + " SL/TP updated"@
                        && u.id@ == position_id@ && u.stop_loss == new_ps[k].stop_loss
                        && u.take_profit == new_ps[k].take_profit && u.trailing_stop == new_ps[k].trailing_stop
                } else {
                    &&& new_ps == old_ps
                    &&& r matches Err(m) && m@ == "Position "@ + position_id@ + " not found"@
                }
            }),
    {
        let ghost before = self.positions@;
        let mut i: usize = 0;
        let mut found = false;
        while !found && i < self.positions.len()
            invariant
                self.positions@ == before,
                i <= before.len(),
                found ==> i < before.len() && before[i as int].id@ == position_id@,
                forall|j: int| 0 <= j < i ==> (#[trigger] before[j]).id@ != position_id@,
            decreases before.len() - i + if found { 0int } else { 1int },
        {
            if text_eq(self.positions[i].id.as_str(), position_id) {
                found = true;
            } else {
                i = i + 1;
            }
        }
        proof {
            lemma_position_index(before, position_id@, i as int);
        }
        if i < self.positions.len() {
            let p = &self.positions[i];
            let updated = Position {
                id: p.id.clone(),
                symbol: p.symbol.clone(),
                side: p.side,
                quantity: p.quantity,
                entry_price: p.entry_price,
                current_price: p.current_price,
                unrealized_pnl: p.unrealized_pnl,
                unrealized_pnl_pct: p.unrealized_pnl_pct,
                stop_loss: match stop_loss {
                    Some(d) => Some(d),
                    None => p.stop_loss,
                },
                take_profit: match take_profit {
                    Some(d) => Some(d),
                    None => p.take_profit,
                },
                trailing_stop: match trailing_stop {
                    Some(d) => Some(d),
                    None => p.trailing_stop,
                },
                open_time: p.open_time.clone(),
            };
            let levels = PositionLevels {
                id: String::from_str(position_id),
                stop_loss: updated.stop_loss,
                take_profit: updated.take_profit,
                trailing_stop: updated.trailing_stop,
            };
            self.positions.set(i, updated);
            Ok((join3("Position ", position_id, " SL/TP updated"), levels))
        } else {
            Err(join3("Position ", position_id, " not found"))
        }
    }
}

proof fn lemma_zero_lt(t: DecParts)
    ensures
        value_lt((false, 0nat, 0nat), t) == is_positive_value(t),
{
    let z: DecParts = (false, 0nat, 0nat);
    assert(pow10(0) == 1);
    assert(signed_units(z) == 0);
    assert(signed_units(z) * pow10(t.2) == 0);
    assert(z.2 == 0);
    assert(pow10(z.2) == 1);
    assert(signed_units(t) * pow10(z.2) == signed_units(t) * 1);
}

proof fn lemma_position_index(s: Seq<Position>, id: Seq<char>, k: int)
    requires
        0 <= k <= s.len(),
        k < s.len() ==> s[k].id@ == id,
        forall|j: int| 0 <= j < k ==> (#[trigger] s[j]).id@ != id,
    ensures
        position_index(s, id) == k,
    decreases s.len(),
{
    if s.len() > 0 && k > 0 {
        assert(s[0].id@ != id);
        assert forall|j: int| 0 <= j < k - 1 implies (#[trigger] s.drop_first()[j]).id@ != id by {
            assert(s.drop_first()[j] == s[j + 1]);
        }
        if k - 1 < s.drop_first().len() {
            assert(s.drop_first()[k - 1] == s[k]);
        }
        lemma_position_index(s.drop_first(), id, k - 1);
    }
}

} // verus!
