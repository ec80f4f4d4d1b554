//! The trading records the backend keeps and the dashboard shows. Amounts are
//! `Dec`; instants are kept as the text they are sent as.
use crate::decimal::Dec;
use vstd::prelude::*;

verus! {

#[derive(Clone, Copy, Debug, PartialEq, Eq, Structural)]
pub enum TradingMode {
    Live,
    Paper,
    Demo,
    Off,
}

#[derive(Debug)]
pub struct HealthStatus {
    pub status: String,
    pub latency_ms: u64,
}

/// The bot's status as the backend reports it.
#[derive(Debug)]
pub struct SystemState {
    pub version: String,
    pub mode: TradingMode,
    pub running: bool,
    pub demo_mode: bool,
    pub health: HealthStatus,
    pub timestamp: String,
}

#[derive(Clone, Copy, Debug)]
pub struct Portfolio {
    pub total_equity: Dec,
    pub daily_pnl: Dec,
    pub daily_pnl_pct: Dec,
    pub peak_equity: Dec,
    pub drawdown_pct: Dec,
    pub available_balance: Dec,
}

#[derive(Debug)]
pub struct Position {
    pub id: String,
    pub symbol: String,
    pub side: OrderSide,
    pub quantity: u32,
    pub entry_price: Dec,
    pub current_price: Dec,
    pub unrealized_pnl: Dec,
    pub unrealized_pnl_pct: Dec,
    pub stop_loss: Option<Dec>,
    pub take_profit: Option<Dec>,
    pub trailing_stop: Option<Dec>,
    pub open_time: String,
}

#[derive(Clone, Copy, Debug, PartialEq, Eq, Structural)]
pub enum OrderSide {
    Buy,
    Sell,
}

#[derive(Debug)]
pub struct Order {
    pub id: String,
    pub symbol: String,
    pub side: OrderSide,
    pub order_type: OrderType,
    pub quantity: u32,
    pub price: Option<Dec>,
    pub filled_quantity: u32,
    pub status: OrderStatus,
    pub created_at: String,
    pub time_in_force: String,
}

#[derive(Clone, Copy, Debug, PartialEq, Eq, Structural)]
pub enum OrderType {
    Market,
    Limit,
    Stop,
    StopLimit,
}

#[derive(Clone, Copy, Debug, PartialEq, Eq, Structural)]
pub enum OrderStatus {
    Pending,
    Working,
    PartiallyFilled,
    Filled,
    Cancelled,
    Rejected,
}

/// A trade suggestion; `confidence` is the percentage the bot sends.
#[derive(Debug)]
pub struct TradeSignal {
    pub symbol: String,
    pub action: SignalAction,
    pub confidence: Dec,
    pub price: Dec,
    pub stop_loss: Dec,
    pub take_profit: Dec,
    pub strategy: String,
    pub timeframe: String,
    pub generated_at: String,
}

#[derive(Clone, Copy, Debug, PartialEq, Eq, Structural)]
pub enum SignalAction {
    Buy,
    Sell,
    Hold,
}

#[derive(Clone, Copy, Debug)]
pub struct RiskStatus {
    pub daily_loss_used_pct: Dec,
    pub positions_used_pct: Dec,
    pub drawdown_pct: Dec,
    pub exposure_used_pct: Dec,
    pub status: RiskSystemStatus,
}

#[derive(Clone, Copy, Debug, PartialEq, Eq, Structural)]
pub enum RiskSystemStatus {
    AllSystemsGo,
    Caution,
    LimitApproaching,
    TradingLocked,
}

#[derive(Debug)]
pub struct MarketCondition {
    pub volatility: Dec,
    pub volatility_status: String,
    pub trend_strength: Dec,
    pub trend_direction: String,
    pub volume_status: String,
    pub correlations: Vec<CorrelationAlert>,
}

#[derive(Debug)]
pub struct CorrelationAlert {
    pub pair: String,
    pub correlation: Dec,
    pub message: String,
}

#[derive(Clone, Copy, Debug)]
pub struct IndicatorValues {
    pub rsi_14: Option<Dec>,
    pub macd_line: Option<Dec>,
    pub macd_signal: Option<Dec>,
    pub sma_20: Option<Dec>,
    pub sma_50: Option<Dec>,
    pub atr_14: Option<Dec>,
    pub bb_upper: Option<Dec>,
    pub bb_lower: Option<Dec>,
}

#[derive(Debug)]
pub struct LogEntry {
    pub timestamp: String,
    pub level: LogLevel,
    pub message: String,
    pub source: String,
}

#[derive(Clone, Copy, Debug, PartialEq, Eq, Structural)]
pub enum LogLevel {
    Info,
    Warn,
    Error,
    Debug,
}

#[derive(Debug)]
pub struct PriceUpdate {
    pub symbol: String,
    pub price: Dec,
    pub bid: Option<Dec>,
    pub ask: Option<Dec>,
    pub timestamp: String,
}

#[derive(Debug)]
pub struct CandleData {
    pub timestamp: String,
    pub open: Dec,
    pub high: Dec,
    pub low: Dec,
    pub close: Dec,
    pub volume: Dec,
}

/// Parameters of a request for chart history.
#[derive(Debug)]
pub struct HistoricalDataRequest {
    pub symbol: String,
    pub timeframe: String,
    pub limit: Option<usize>,
    pub from: Option<i64>,
    pub to: Option<i64>,
}

impl HealthStatus {
    /// An equal copy.
    pub fn duplicate(&self) -> (r: HealthStatus)
        ensures
            r == *self,
    {
        HealthStatus { status: self.status.clone(), latency_ms: self.latency_ms }
    }
}

impl SystemState {
    /// An equal copy.
    pub fn duplicate(&self) -> (r: SystemState)
        ensures
            r == *self,
    {
        SystemState {
            version: self.version.clone(),
            mode: self.mode,
            running: self.running,
            demo_mode: self.demo_mode,
            health: self.health.duplicate(),
            timestamp: self.timestamp.clone(),
        }
    }
}

impl Position {
    /// An equal copy.
    pub fn duplicate(&self) -> (r: Position)
        ensures
            r == *self,
    {
        Position {
            id: self.id.clone(),
            symbol: self.symbol.clone(),
            side: self.side,
            quantity: self.quantity,
            entry_price: self.entry_price,
            current_price: self.current_price,
            unrealized_pnl: self.unrealized_pnl,
            unrealized_pnl_pct: self.unrealized_pnl_pct,
            stop_loss: self.stop_loss,
            take_profit: self.take_profit,
            trailing_stop: self.trailing_stop,
            open_time: self.open_time.clone(),
        }
    }

    /// Whether every amount of the position fits a `Decimal`.
    pub fn is_well_formed(&self) -> (r: bool)
        ensures
            r == self.wf(),
    {
        self.entry_price.is_valid() && self.current_price.is_valid() && self.unrealized_pnl.is_valid()
            && self.unrealized_pnl_pct.is_valid() && match self.stop_loss {
            Some(d) => d.is_valid(),
            None => true,
        } && match self.take_profit {
            Some(d) => d.is_valid(),
            None => true,
        } && match self.trailing_stop {
            Some(d) => d.is_valid(),
            None => true,
        }
    }

    /// Every amount of the position fits a `Decimal`.
    pub open spec fn wf(&self) -> bool {
        &&& self.entry_price.wf()
        &&& self.current_price.wf()
        &&& self.unrealized_pnl.wf()
        &&& self.unrealized_pnl_pct.wf()
        &&& (self.stop_loss matches Some(d) ==> d.wf())
        &&& (self.take_profit matches Some(d) ==> d.wf())
        &&& (self.trailing_stop matches Some(d) ==> d.wf())
    }
}

impl Order {
    /// An equal copy.
    pub fn duplicate(&self) -> (r: Order)
        ensures
            r == *self,
    {
        Order {
            id: self.id.clone(),
            symbol: self.symbol.clone(),
            side: self.side,
            order_type: self.order_type,
            quantity: self.quantity,
            price: self.price,
            filled_quantity: self.filled_quantity,
            status: self.status,
            created_at: self.created_at.clone(),
            time_in_force: self.time_in_force.clone(),
        }
    }
}

impl TradeSignal {
    /// An equal copy.
    pub fn duplicate(&self) -> (r: TradeSignal)
        ensures
            r == *self,
    {
        TradeSignal {
            symbol: self.symbol.clone(),
            action: self.action,
            confidence: self.confidence,
            price: self.price,
            stop_loss: self.stop_loss,
            take_profit: self.take_profit,
            strategy: self.strategy.clone(),
            timeframe: self.timeframe.clone(),
            generated_at: self.generated_at.clone(),
        }
    }
}

impl LogEntry {
    /// An equal copy.
    pub fn duplicate(&self) -> (r: LogEntry)
        ensures
            r == *self,
    {
        LogEntry {
            timestamp: self.timestamp.clone(),
            level: self.level,
            message: self.message.clone(),
            source: self.source.clone(),
        }
    }
}

/// A copy of `items` made with `Position::duplicate`.
pub fn duplicate_positions(items: &Vec<Position>) -> (r: Vec<Position>)
    ensures
        r@ == items@,
{
    let mut out: Vec<Position> = Vec::new();
    let mut i: usize = 0;
    while i < items.len()
        invariant
            i <= items.len(),
            out@ == items@.take(i as int),
        decreases items.len() - i,
    {
        out.push(items[i].duplicate());
        assert(items@.take(i + 1) =~= items@.take(i as int).push(items@[i as int]));
        i = i + 1;
    }
    assert(items@.take(items.len() as int) =~= items@);
    out
}

/// A copy of `items` made with `Order::duplicate`.
pub fn duplicate_orders(items: &Vec<Order>) -> (r: Vec<Order>)
    ensures
        r@ == items@,
{
    let mut out: Vec<Order> = Vec::new();
    let mut i: usize = 0;
    while i < items.len()
        invariant
            i <= items.len(),
            out@ == items@.take(i as int),
        decreases items.len() - i,
    {
        out.push(items[i].duplicate());
        assert(items@.take(i + 1) =~= items@.take(i as int).push(items@[i as int]));
        i = i + 1;
    }
    assert(items@.take(items.len() as int) =~= items@);
    out
}

/// A copy of `items` made with `TradeSignal::duplicate`.
pub fn duplicate_signals(items: &Vec<TradeSignal>) -> (r: Vec<TradeSignal>)
    ensures
        r@ == items@,
{
    let mut out: Vec<TradeSignal> = Vec::new();
    let mut i: usize = 0;
    while i < items.len()
        invariant
            i <= items.len(),
            out@ == items@.take(i as int),
        decreases items.len() - i,
    {
        out.push(items[i].duplicate());
        assert(items@.take(i + 1) =~= items@.take(i as int).push(items@[i as int]));
        i = i + 1;
    }
    assert(items@.take(items.len() as int) =~= items@);
    out
}

/// `s` with `x` appended; when that makes it longer than `cap`, the oldest
/// (first) item is dropped.
pub open spec fn push_bounded<T>(s: Seq<T>, x: T, cap: nat) -> Seq<T> {
    let t = s.push(x);
    if t.len() > cap {
        t.subrange(1, t.len() as int)
    } else {
        t
    }
}

/// Appends `x` to `v`, then drops the first item if `v` is now longer than `cap`.
pub fn push_bounded_vec<T>(v: &mut Vec<T>, x: T, cap: usize)
    ensures
        final(v)@ == push_bounded(old(v)@, x, cap as nat),
{
    v.push(x);
    if v.len() > cap {
        let ghost before = v@;
        v.remove(0);
        assert(v@ =~= before.subrange(1, before.len() as int));
    }
}

/// `push_bounded` never leaves more than `cap` items when there were at most
/// `cap` before, and always keeps the new item last.
pub proof fn lemma_push_bounded<T>(s: Seq<T>, x: T, cap: nat)
    requires
        s.len() <= cap,
        cap > 0,
    ensures
        push_bounded(s, x, cap).len() <= cap,
        push_bounded(s, x, cap).last() == x,
        push_bounded(s, x, cap).len() == if s.len() < cap {
            s.len() + 1int
        } else {
            cap as int
        },
{
}

} // verus!
