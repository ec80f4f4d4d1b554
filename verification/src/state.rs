//! The dashboard's state and how each live update from the server changes it,
//! together with the sounds and notifications the update asks for.
use crate::decimal::{
    Dec, DecParts, dec_checked_mul, dec_checked_sub, dec_to_string, decimal_checked_mul,
    decimal_checked_sub, decimal_display,
};
use crate::host::local_clock_label;
use crate::models::{
    HealthStatus, LogEntry, LogLevel, Order, OrderSide, OrderStatus, Portfolio, Position,
    SignalAction, TradeSignal, TradingMode, push_bounded, push_bounded_vec,
};
use crate::text::{join2, join3, text_eq};
use crate::websocket::bot_log_level;
use vstd::prelude::*;

verus! {

/// The dashboard keeps at most this many log lines from the log stream.
pub const DASHBOARD_LOG_CAPACITY: usize = 1000usize;

/// The dashboard keeps at most this many signals.
pub const DASHBOARD_SIGNAL_CAPACITY: usize = 10usize;

/// The bot's status as the dashboard shows it.
#[derive(Debug)]
pub struct SystemState {
    pub version: String,
    pub mode: TradingMode,
    pub running: bool,
    pub demo_mode: bool,
    pub health: HealthStatus,
}

impl Default for SystemState {
    /// Version 5.0.0, demo mode, not running, health "ok" at 45 ms.
    fn default() -> (r: Self)
        ensures
            r.version@ == "5.0.0"@,
            r.mode == TradingMode::Demo,
            !r.running,
            r.demo_mode,
            r.health.status@ == "ok"@,
            r.health.latency_ms == 45,
    {
        SystemState {
            version: String::from_str("5.0.0"),
            mode: TradingMode::Demo,
            running: false,
            demo_mode: true,
            health: HealthStatus { status: String::from_str("ok"), latency_ms: 45 },
        }
    }
}

#[derive(Clone, Copy, Debug, PartialEq, Eq, Structural)]
pub enum Timeframe {
    M1,
    M5,
    M15,
    M30,
    H1,
    H4,
    D1,
    W1,
}

impl Default for Timeframe {
    /// Five minutes.
    fn default() -> (r: Self)
        ensures
            r == Timeframe::M5,
    {
        Timeframe::M5
    }
}

/// The text of a chart timeframe.
pub open spec fn timeframe_text(tf: Timeframe) -> Seq<char> {
    match tf {
        Timeframe::M1 => "1m"@,
        Timeframe::M5 => "5m"@,
        Timeframe::M15 => "15m"@,
        Timeframe::M30 => "30m"@,
        Timeframe::H1 => "1h"@,
        Timeframe::H4 => "4h"@,
        Timeframe::D1 => "1d"@,
        Timeframe::W1 => "1w"@,
    }
}

impl Timeframe {
    /// The text of the timeframe (`1m`, `5m`, `15m`, `30m`, `1h`, `4h`, `1d`, `1w`).
    pub fn as_str(&self) -> (r: &'static str)
        ensures
            r@ == timeframe_text(*self),
    {
        match self {
            Timeframe::M1 => "1m",
            Timeframe::M5 => "5m",
            Timeframe::M15 => "15m",
            Timeframe::M30 => "30m",
            Timeframe::H1 => "1h",
            Timeframe::H4 => "4h",
            Timeframe::D1 => "1d",
            Timeframe::W1 => "1w",
        }
    }
}

#[derive(Clone, Copy, Debug, PartialEq, Eq, Structural)]
pub enum TerminalTab {
    Logs,
    Terminal,
    Errors,
    Metrics,
    Orders,
    Performance,
}

impl Default for TerminalTab {
    /// The logs tab.
    fn default() -> (r: Self)
        ensures
            r == TerminalTab::Logs,
    {
        TerminalTab::Logs
    }
}

/// Everything the dashboard shows.
#[derive(Debug)]
pub struct DashboardState {
    pub system: SystemState,
    pub portfolio: Portfolio,
    pub positions: Vec<Position>,
    pub orders: Vec<Order>,
    pub signals: Vec<TradeSignal>,
    pub logs: Vec<LogEntry>,
    pub selected_symbol: String,
    pub selected_timeframe: Timeframe,
    pub terminal_collapsed: bool,
    pub active_tab: TerminalTab,
}

impl Default for DashboardState {
    /// The default status, a zero portfolio, nothing listed, no symbol
    /// selected, the five-minute chart, the terminal open on its logs tab.
    fn default() -> (r: Self)
        ensures
            r.wf(),
            r.system.version@ == "5.0.0"@,
            r.system.mode == TradingMode::Demo,
            !r.system.running,
            r.system.demo_mode,
            r.system.health.status@ == "ok"@,
            r.system.health.latency_ms == 45,
            r.portfolio.total_equity@ == (false, 0nat, 0nat),
            r.portfolio.daily_pnl@ == (false, 0nat, 0nat),
            r.portfolio.daily_pnl_pct@ == (false, 0nat, 0nat),
            r.portfolio.peak_equity@ == (false, 0nat, 0nat),
            r.portfolio.drawdown_pct@ == (false, 0nat, 0nat),
            r.portfolio.available_balance@ == (false, 0nat, 0nat),
            r.positions@.len() == 0,
            r.orders@.len() == 0,
            r.signals@.len() == 0,
            r.logs@.len() == 0,
            r.selected_symbol@.len() == 0,
            r.selected_timeframe == Timeframe::M5,
            !r.terminal_collapsed,
            r.active_tab == TerminalTab::Logs,
    {
        DashboardState {
            system: SystemState::default(),
            portfolio: Portfolio {
                total_equity: Dec::zero(),
                daily_pnl: Dec::zero(),
                daily_pnl_pct: Dec::zero(),
                peak_equity: Dec::zero(),
                drawdown_pct: Dec::zero(),
                available_balance: Dec::zero(),
            },
            positions: Vec::new(),
            orders: Vec::new(),
            signals: Vec::new(),
            logs: Vec::new(),
            selected_symbol: String::new(),
            selected_timeframe: Timeframe::default(),
            terminal_collapsed: false,
            active_tab: TerminalTab::default(),
        }
    }
}

/// A live update from the server, with its amounts as decimals (`None` where
/// the number sent could not be taken as a decimal).
#[derive(Debug)]
pub enum WsEvent {
    PriceUpdate { symbol: String, price: Option<Dec> },
    PositionUpdate { id: String, unrealized_pnl: Option<Dec>, current_price: Option<Dec> },
    SignalGenerated { signal: TradeSignal },
    SignalStale { symbol: String, age_seconds: u64 },
    OrderFilled { order_id: String, filled_qty: u32 },
    OrderUpdate { order: Order },
    RiskAlert { level: String, message: String },
    SystemStatus { mode: String, running: bool, health: String },
    LogAppend { level: String, message: String, source: String },
    Ping,
    Pong,
}

/// The sounds the dashboard plays.
#[derive(Clone, Copy, Debug, PartialEq, Eq, Structural)]
pub enum AlertSound {
    Signal,
    OrderFilled,
    Emergency,
    RiskAlert,
}

/// The name of a sound, as the page's audio player knows it.
pub open spec fn sound_name(s: AlertSound) -> Seq<char> {
    match s {
        AlertSound::Signal => "signal"@,
        AlertSound::OrderFilled => "order_filled"@,
        AlertSound::Emergency => "emergency"@,
        AlertSound::RiskAlert => "risk_alert"@,
    }
}

impl AlertSound {
    /// The sound's name (`signal`, `order_filled`, `emergency`, `risk_alert`).
    pub fn name(&self) -> (r: &'static str)
        ensures
            r@ == sound_name(*self),
    {
        match self {
            AlertSound::Signal => "signal",
            AlertSound::OrderFilled => "order_filled",
            AlertSound::Emergency => "emergency",
            AlertSound::RiskAlert => "risk_alert",
        }
    }
}

/// Something an update asks the page to do besides changing the state.
#[derive(Debug)]
pub enum UiEffect {
    PlaySound(AlertSound),
    /// A desktop notification.
    Notify { title: String, body: String },
    /// The order at this index has just been filled: a notification names it
    /// with the fill price that came with the update.
    OrderFilledNotice { index: usize },
}

/// The amounts of a position are valid decimals.
pub open spec fn positions_wf(s: Seq<Position>) -> bool {
    forall|i: int| 0 <= i < s.len() ==> (#[trigger] s[i]).wf()
}

/// The amounts of a signal are valid decimals.
pub open spec fn signal_wf(s: TradeSignal) -> bool {
    s.confidence.wf() && s.price.wf() && s.stop_loss.wf() && s.take_profit.wf()
}

/// The amounts an update carries are valid decimals.
pub open spec fn event_wf(ev: WsEvent) -> bool {
    match ev {
        WsEvent::PriceUpdate { price, .. } => price matches Some(d) ==> d.wf(),
        WsEvent::PositionUpdate { unrealized_pnl, current_price, .. } => (unrealized_pnl matches Some(
            d,
        ) ==> d.wf()) && (current_price matches Some(d) ==> d.wf()),
        WsEvent::SignalGenerated { signal } => signal_wf(signal),
        _ => true,
    }
}

/// The price a position is shown at after a price update.
pub open spec fn shown_price(p: Position, price: Option<Dec>) -> Dec {
    match price {
        Some(d) => d,
        None => p.current_price,
    }
}

/// The profit and loss the dashboard computes for a position after a price
/// update: `(price - entry) * quantity` for a buy, `(entry - price) * quantity`
/// for a sell; `None` when that overflows.
pub open spec fn dashboard_pnl(p: Position, price: Option<Dec>) -> Option<DecParts> {
    let cur = shown_price(p, price);
    let diff = if p.side == OrderSide::Buy {
        decimal_checked_sub(cur@, p.entry_price@)
    } else {
        decimal_checked_sub(p.entry_price@, cur@)
    };
    match diff {
        Some(d) => decimal_checked_mul(d, (false, p.quantity as nat, 0nat)),
        None => None,
    }
}

/// `new` is `old` after a price update: shown at the new price with the new
/// profit and loss, everything else the same.
pub open spec fn dashboard_repriced(old: Position, new: Position, price: Option<Dec>) -> bool {
    &&& dashboard_pnl(old, price) matches Some(pnl)
    &&& new.unrealized_pnl@ == pnl
    &&& new.current_price == shown_price(old, price)
    &&& new.id == old.id
    &&& new.symbol == old.symbol
    &&& new.side == old.side
    &&& new.quantity == old.quantity
    &&& new.entry_price == old.entry_price
    &&& new.unrealized_pnl_pct == old.unrealized_pnl_pct
    &&& new.stop_loss == old.stop_loss
    &&& new.take_profit == old.take_profit
    &&& new.trailing_stop == old.trailing_stop
    &&& new.open_time == old.open_time
}

/// An update can be applied: a price update does not overflow on any
/// position of its symbol.
pub open spec fn event_applies(positions: Seq<Position>, ev: WsEvent) -> bool {
    match ev {
        WsEvent::PriceUpdate { symbol, price } => forall|i: int|
            0 <= i < positions.len() && (#[trigger] positions[i]).symbol@ == symbol@ ==> dashboard_pnl(
                positions[i],
                price,
            ) is Some,
        _ => true,
    }
}

/// The mode a status update names: `live`/`LIVE`, `paper`/`PAPER`,
/// `demo`/`DEMO`; anything else is off.
pub open spec fn status_mode(m: Seq<char>) -> TradingMode {
    if m == "live"@ || m == "LIVE"@ {
        TradingMode::Live
    } else if m == "paper"@ || m == "PAPER"@ {
        TradingMode::Paper
    } else if m == "demo"@ || m == "DEMO"@ {
        TradingMode::Demo
    } else {
        TradingMode::Off
    }
}

/// The log level of a risk alert: `CRITICAL`/`ERROR` are errors,
/// `WARNING`/`WARN` warnings, anything else information.
pub open spec fn risk_level(level: Seq<char>) -> LogLevel {
    if level == "CRITICAL"@ || level == "ERROR"@ {
        LogLevel::Error
    } else if level == "WARNING"@ || level == "WARN"@ {
        LogLevel::Warn
    } else {
        LogLevel::Info
    }
}

/// The debug name of a signal action.
pub open spec fn action_debug_name(a: SignalAction) -> Seq<char> {
    match a {
        SignalAction::Buy => "Buy"@,
        SignalAction::Sell => "Sell"@,
        SignalAction::Hold => "Hold"@,
    }
}

/// The notices for the orders that an order fill completes: for each order
/// with this id whose quantity the filled quantity reaches, in order, a sound
/// and a notice naming the order.
pub open spec fn fill_notices(orders: Seq<Order>, id: Seq<char>, qty: u32) -> Seq<UiEffect>
    decreases orders.len(),
{
    if orders.len() == 0 {
        Seq::empty()
    } else {
        let rest = fill_notices(orders.drop_last(), id, qty);
        let last = orders.last();
        if last.id@ == id && qty >= last.quantity {
            rest + seq![
                UiEffect::PlaySound(AlertSound::OrderFilled),
                UiEffect::OrderFilledNotice { index: (orders.len() - 1) as usize },
            ]
        } else {
            rest
        }
    }
}

/// `new` is `old` with the fill applied to every order with this id: the
/// filled quantity set, and the status `Filled` when it reaches the order's
/// quantity, `PartiallyFilled` otherwise.
pub open spec fn fills_applied(old: Seq<Order>, new: Seq<Order>, id: Seq<char>, qty: u32) -> bool {
    &&& new.len() == old.len()
    &&& forall|i: int|
        0 <= i < old.len() ==> if (#[trigger] old[i]).id@ == id {
            &&& new[i].filled_quantity == qty
            &&& new[i].status == if qty >= old[i].quantity {
                OrderStatus::Filled
            } else {
                OrderStatus::PartiallyFilled
            }
            &&& new[i].id == old[i].id
            &&& new[i].symbol == old[i].symbol
            &&& new[i].side == old[i].side
            &&& new[i].order_type == old[i].order_type
            &&& new[i].quantity == old[i].quantity
            &&& new[i].price == old[i].price
            &&& new[i].created_at == old[i].created_at
            &&& new[i].time_in_force == old[i].time_in_force
        } else {
            new[i] == old[i]
        }
}

/// The first index of an order with this id (the length when there is none).
pub open spec fn order_index(s: Seq<Order>, id: Seq<char>) -> nat
    decreases s.len(),
{
    if s.len() == 0 {
        0
    } else if s[0].id@ == id {
        0
    } else {
        1 + order_index(s.drop_first(), id)
    }
}

/// `new` is `old` with `order` in place of the first order with its id, or
/// appended when there is none.
pub open spec fn order_upserted(old: Seq<Order>, new: Seq<Order>, order: Order) -> bool {
    let k = order_index(old, order.id@) as int;
    if k < old.len() {
        new == old.update(k, order)
    } else {
        new == old.push(order)
    }
}

/// `new` is `old` with, on every position with this id, the profit and loss
/// and the current price replaced by those given (kept where none is given).
pub open spec fn positions_updated(
    old: Seq<Position>,
    new: Seq<Position>,
    id: Seq<char>,
    pnl: Option<Dec>,
    price: Option<Dec>,
) -> bool {
    &&& new.len() == old.len()
    &&& forall|i: int|
        0 <= i < old.len() ==> if (#[trigger] old[i]).id@ == id {
            &&& new[i].unrealized_pnl == match pnl {
                Some(d) => d,
                None => old[i].unrealized_pnl,
            }
            &&& new[i].current_price == match price {
                Some(d) => d,
                None => old[i].current_price,
            }
            &&& new[i].id == old[i].id
            &&& new[i].symbol == old[i].symbol
            &&& new[i].side == old[i].side
            &&& new[i].quantity == old[i].quantity
            &&& new[i].entry_price == old[i].entry_price
            &&& new[i].unrealized_pnl_pct == old[i].unrealized_pnl_pct
            &&& new[i].stop_loss == old[i].stop_loss
            &&& new[i].take_profit == old[i].take_profit
            &&& new[i].trailing_stop == old[i].trailing_stop
            &&& new[i].open_time == old[i].open_time
        } else {
            new[i] == old[i]
        }
}

/// Only the positions changed between `old` and `new`.
pub open spec fn only_positions_changed(old: DashboardState, new: DashboardState) -> bool {
    &&& new.system == old.system
    &&& new.portfolio == old.portfolio
    &&& new.orders == old.orders
    &&& new.signals == old.signals
    &&& new.logs == old.logs
    &&& new.selected_timeframe == old.selected_timeframe
    &&& new.terminal_collapsed == old.terminal_collapsed
    &&& new.active_tab == old.active_tab
}

/// No live update touches the portfolio or the view settings.
pub open spec fn view_kept(old: DashboardState, new: DashboardState) -> bool {
    &&& new.portfolio == old.portfolio
    &&& new.selected_timeframe == old.selected_timeframe
    &&& new.terminal_collapsed == old.terminal_collapsed
    &&& new.active_tab == old.active_tab
}

/// What applying `ev` with the clock label `label` does to the dashboard and
/// which effects it asks for.
pub open spec fn event_outcome(
    old: DashboardState,
    ev: WsEvent,
    label: String,
    new: DashboardState,
    effects: Seq<UiEffect>,
) -> bool {
    &&& view_kept(old, new)
    &&& match ev {
        WsEvent::PriceUpdate { symbol, price } => {
            &&& only_positions_changed(old, new)
            &&& new.selected_symbol == symbol
            &&& new.positions@.len() == old.positions@.len()
            &&& forall|i: int|
                0 <= i < old.positions@.len() ==> if (#[trigger] old.positions@[i]).symbol@ == symbol@ {
                    dashboard_repriced(old.positions@[i], new.positions@[i], price)
                } else {
                    new.positions@[i] == old.positions@[i]
                }
            &&& effects.len() == 0
        },
        WsEvent::PositionUpdate { id, unrealized_pnl, current_price } => {
            &&& only_positions_changed(old, new)
            &&& new.selected_symbol == old.selected_symbol
            &&& positions_updated(old.positions@, new.positions@, id@, unrealized_pnl, current_price)
            &&& effects.len() == 0
        },
        WsEvent::SignalGenerated { signal } => {
            &&& new.signals@ == push_bounded(old.signals@, signal, DASHBOARD_SIGNAL_CAPACITY as nat)
            &&& new.system == old.system
            &&& new.positions == old.positions
            &&& new.orders == old.orders
            &&& new.logs == old.logs
            &&& new.selected_symbol == old.selected_symbol
            &&& effects.len() == 2
            &&& effects[0] == UiEffect::PlaySound(AlertSound::Signal)
            &&& effects[1] matches UiEffect::Notify { title, body }
            &&& title@ == "Signal: "@ + signal.symbol@
            &&& body@ == action_debug_name(signal.action) + " @ "@ + decimal_display(signal.price@)
        },
        WsEvent::OrderFilled { order_id, filled_qty } => {
            &&& fills_applied(old.orders@, new.orders@, order_id@, filled_qty)
            &&& new.system == old.system
            &&& new.positions == old.positions
            &&& new.signals == old.signals
            &&& new.logs == old.logs
            &&& new.selected_symbol == old.selected_symbol
            &&& effects == fill_notices(old.orders@, order_id@, filled_qty)
        },
        WsEvent::OrderUpdate { order } => {
            &&& order_upserted(old.orders@, new.orders@, order)
            &&& new.system == old.system
            &&& new.positions == old.positions
            &&& new.signals == old.signals
            &&& new.logs == old.logs
            &&& new.selected_symbol == old.selected_symbol
            &&& effects.len() == 0
        },
        WsEvent::RiskAlert { level, message } => {
            &&& new.logs@.len() == old.logs@.len() + 1
            &&& new.logs@.drop_last() == old.logs@
            &&& new.logs@.last().timestamp == label
            &&& new.logs@.last().level == risk_level(level@)
            &&& new.logs@.last().message@ == "[RISK "@ + level@ + "] "@ + message@
            &&& new.logs@.last().source@ == "risk"@
            &&& new.system == old.system
            &&& new.positions == old.positions
            &&& new.orders == old.orders
            &&& new.signals == old.signals
            &&& new.selected_symbol == old.selected_symbol
            &&& if level@ == "CRITICAL"@ || level@ == "ERROR"@ {
                &&& effects.len() == 2
                &&& effects[0] == UiEffect::PlaySound(AlertSound::Emergency)
                &&& effects[1] matches UiEffect::Notify { title, body }
                &&& title@ == "RISK ALERT"@
                &&& body@ == message@
            } else if level@ == "WARNING"@ || level@ == "WARN"@ {
                effects == seq![UiEffect::PlaySound(AlertSound::RiskAlert)]
            } else {
                effects.len() == 0
            }
        },
        WsEvent::SystemStatus { mode, running, health } => {
            &&& new.system.running == running
            &&& new.system.health.status == health
            &&& new.system.mode == status_mode(mode@)
            &&& new.system.version == old.system.version
            &&& new.system.demo_mode == old.system.demo_mode
            &&& new.system.health.latency_ms == old.system.health.latency_ms
            &&& new.positions == old.positions
            &&& new.orders == old.orders
            &&& new.signals == old.signals
            &&& new.logs == old.logs
            &&& new.selected_symbol == old.selected_symbol
            &&& effects.len() == 0
        },
        WsEvent::LogAppend { level, message, source } => {
            &&& new.logs@ == push_bounded(
                old.logs@,
                LogEntry { timestamp: label, level: bot_log_level(level@), message, source },
                DASHBOARD_LOG_CAPACITY as nat,
            )
            &&& new.system == old.system
            &&& new.positions == old.positions
            &&& new.orders == old.orders
            &&& new.signals == old.signals
            &&& new.selected_symbol == old.selected_symbol
            &&& effects.len() == 0
        },
        _ => {
            &&& new == old
            &&& effects.len() == 0
        },
    }
}

/// The dashboard's profit and loss for a position after a price update.
fn dashboard_pnl_of(p: &Position, price: Option<Dec>) -> (r: Option<Dec>)
    requires
        p.wf(),
        price matches Some(d) ==> d.wf(),
    ensures
        match r {
            Some(d) => dashboard_pnl(*p, price) == Some(d@) && d.wf(),
            None => dashboard_pnl(*p, price) is None,
        },
{
    let cur = match price {
        Some(d) => d,
        None => p.current_price,
    };
    let diff = if p.side == OrderSide::Buy {
        dec_checked_sub(cur, p.entry_price)
    } else {
        dec_checked_sub(p.entry_price, cur)
    };
    match diff {
        Some(d) => dec_checked_mul(d, Dec::from_u32(p.quantity)),
        None => None,
    }
}

impl DashboardState {
    /// The amounts shown are valid decimals.
    pub open spec fn wf(&self) -> bool {
        &&& positions_wf(self.positions@)
        &&& forall|i: int| 0 <= i < self.signals@.len() ==> signal_wf(#[trigger] self.signals@[i])
    }

    /// Whether an update can be applied without overflow.
    pub fn event_applies_to(&self, ev: &WsEvent) -> (r: bool)
        requires
            self.wf(),
            event_wf(*ev),
        ensures
            r == event_applies(self.positions@, *ev),
    {
        match ev {
            WsEvent::PriceUpdate { symbol, price } => {
                let mut i: usize = 0;
                while i < self.positions.len()
                    invariant
                        self.wf(),
                        *ev == (WsEvent::PriceUpdate { symbol: *symbol, price: *price }),
                        price matches Some(d) ==> d.wf(),
                        i <= self.positions@.len(),
                        forall|j: int|
                            0 <= j < i && (#[trigger] self.positions@[j]).symbol@ == symbol@
                                ==> dashboard_pnl(self.positions@[j], *price) is Some,
                    decreases self.positions@.len() - i,
                {
                    if text_eq(self.positions[i].symbol.as_str(), symbol.as_str()) {
                        if dashboard_pnl_of(&self.positions[i], *price).is_none() {
                            assert(self.positions@[i as int].symbol@ == symbol@);
                            assert(dashboard_pnl(self.positions@[i as int], *price) is None);
                            return false;
                        }
                    }
                    i = i + 1;
                }
                true
            },
            _ => true,
        }
    }

    /// Applies a live update, with `label` as the time of any log line it
    /// adds, and returns the effects it asks for (see `event_outcome`).
    pub fn apply_event(&mut self, ev: WsEvent, label: String) -> (effects: Vec<UiEffect>)
        requires
            old(self).wf(),
            event_wf(ev),
            event_applies(old(self).positions@, ev),
        ensures
            final(self).wf(),
            event_outcome(*old(self), ev, label, *final(self), effects@),
    {
        let mut effects: Vec<UiEffect> = Vec::new();
        match ev {
            WsEvent::PriceUpdate { symbol, price } => {
                let ghost before = self.positions@;
                let mut out: Vec<Position> = Vec::new();
                let mut i: usize = 0;
                while i < self.positions.len()
                    invariant
                        self.positions@ == before,
                        positions_wf(before),
                        price matches Some(d) ==> d.wf(),
                        forall|j: int|
                            0 <= j < before.len() && (#[trigger] before[j]).symbol@ == symbol@
                                ==> dashboard_pnl(before[j], price) is Some,
                        i <= before.len(),
                        out@.len() == i,
                        positions_wf(out@),
                        forall|j: int|
                            0 <= j < i ==> if (#[trigger] before[j]).symbol@ == symbol@ {
                                dashboard_repriced(before[j], out@[j], price)
                            } else {
                                out@[j] == before[j]
                            },
                    decreases before.len() - i,
                {
                    let p = &self.positions[i];
                    if text_eq(p.symbol.as_str(), symbol.as_str()) {
                        assert(before[i as int].symbol@ == symbol@);
                        let pnl = match dashboard_pnl_of(p, price) {
                            Some(d) => d,
                            None => {
                                assert(false);
                                return effects;
                            },
                        };
                        let cur = match price {
                            Some(d) => d,
                            None => p.current_price,
                        };
                        out.push(
                            Position {
                                id: p.id.clone(),
                                symbol: p.symbol.clone(),
                                side: p.side,
                                quantity: p.quantity,
                                entry_price: p.entry_price,
                                current_price: cur,
                                unrealized_pnl: pnl,
                                unrealized_pnl_pct: p.unrealized_pnl_pct,
                                stop_loss: p.stop_loss,
                                take_profit: p.take_profit,
                                trailing_stop: p.trailing_stop,
                                open_time: p.open_time.clone(),
                            },
                        );
                    } else {
                        out.push(p.duplicate());
                    }
                    i = i + 1;
                }
                self.positions = out;
                self.selected_symbol = symbol;
            },
            WsEvent::PositionUpdate { id, unrealized_pnl, current_price } => {
                let ghost before = self.positions@;
                let mut out: Vec<Position> = Vec::new();
                let mut i: usize = 0;
                while i < self.positions.len()
                    invariant
                        self.positions@ == before,
                        positions_wf(before),
                        unrealized_pnl matches Some(d) ==> d.wf(),
                        current_price matches Some(d) ==> d.wf(),
                        i <= before.len(),
                        out@.len() == i,
                        positions_wf(out@),
                        positions_updated(before.take(i as int), out@, id@, unrealized_pnl, current_price),
                    decreases before.len() - i,
                {
                    let p = &self.positions[i];
                    let ghost prev = out@;
                    if text_eq(p.id.as_str(), id.as_str()) {
                        out.push(
                            Position {
                                id: p.id.clone(),
                                symbol: p.symbol.clone(),
                                side: p.side,
                                quantity: p.quantity,
                                entry_price: p.entry_price,
                                current_price: match current_price {
                                    Some(d) => d,
                                    None => p.current_price,
                                },
                                unrealized_pnl: match unrealized_pnl {
                                    Some(d) => d,
                                    None => p.unrealized_pnl,
                                },
                                unrealized_pnl_pct: p.unrealized_pnl_pct,
                                stop_loss: p.stop_loss,
                                take_profit: p.take_profit,
                                trailing_stop: p.trailing_stop,
                                open_time: p.open_time.clone(),
                            },
                        );
                    } else {
                        out.push(p.duplicate());
                    }
                    assert forall|j: int| 0 <= j < i + 1 implies #[trigger] before.take(i + 1)[j] == before[j] by {}
                    i = i + 1;
                }
                assert(before.take(before.len() as int) =~= before);
                self.positions = out;
            },
            WsEvent::SignalGenerated { signal } => {
                let title = join2("Signal: ", signal.symbol.as_str());
                let action_name = match signal.action {
                    SignalAction::Buy => "Buy",
                    SignalAction::Sell => "Sell",
                    SignalAction::Hold => "Hold",
                };
                let price_text = dec_to_string(signal.price);
                let body = join3(action_name, " @ ", price_text.as_str());
                let ghost old_signals = self.signals@;
                push_bounded_vec(&mut self.signals, signal, DASHBOARD_SIGNAL_CAPACITY);
                assert forall|i: int| 0 <= i < self.signals@.len() implies signal_wf(#[trigger] self.signals@[i]) by {
                    if old_signals.len() + 1 > DASHBOARD_SIGNAL_CAPACITY {
                        assert(self.signals@[i] == old_signals.push(signal)[i + 1]);
                    } else {
                        assert(self.signals@[i] == old_signals.push(signal)[i]);
                    }
                }
                effects.push(UiEffect::PlaySound(AlertSound::Signal));
                effects.push(UiEffect::Notify { title, body });
            },
            WsEvent::OrderFilled { order_id, filled_qty } => {
                let ghost before = self.orders@;
                let mut out: Vec<Order> = Vec::new();
                let mut i: usize = 0;
                while i < self.orders.len()
                    invariant
                        self.orders@ == before,
                        i <= before.len(),
                        out@.len() == i,
                        fills_applied(before.take(i as int), out@, order_id@, filled_qty),
                        effects@ == fill_notices(before.take(i as int), order_id@, filled_qty),
                    decreases before.len() - i,
                {
                    let o = &self.orders[i];
                    assert(before.take(i + 1).drop_last() =~= before.take(i as int));
                    assert forall|j: int| 0 <= j < i + 1 implies #[trigger] before.take(i + 1)[j] == before[j] by {}
                    if text_eq(o.id.as_str(), order_id.as_str()) {
                        let filled = filled_qty >= o.quantity;
                        out.push(
                            Order {
                                id: o.id.clone(),
                                symbol: o.symbol.clone(),
                                side: o.side,
                                order_type: o.order_type,
                                quantity: o.quantity,
                                price: o.price,
                                filled_quantity: filled_qty,
                                status: if filled {
                                    OrderStatus::Filled
                                } else {
                                    OrderStatus::PartiallyFilled
                                },
                                created_at: o.created_at.clone(),
                                time_in_force: o.time_in_force.clone(),
                            },
                        );
                        if filled {
                            let ghost prev = effects@;
                            effects.push(UiEffect::PlaySound(AlertSound::OrderFilled));
                            effects.push(UiEffect::OrderFilledNotice { index: i });
                            assert(effects@ =~= prev + seq![
                                UiEffect::PlaySound(AlertSound::OrderFilled),
                                UiEffect::OrderFilledNotice { index: i },
                            ]);
                        }
                    } else {
                        out.push(o.duplicate());
                    }
                    i = i + 1;
                }
                assert(before.take(before.len() as int) =~= before);
                self.orders = out;
            },
            WsEvent::OrderUpdate { order } => {
                let ghost before = self.orders@;
                let mut i: usize = 0;
                let mut found = false;
                while !found && i < self.orders.len()
                    invariant
                        self.orders@ == before,
                        i <= before.len(),
                        found ==> i < before.len() && before[i as int].id@ == order.id@,
                        forall|j: int| 0 <= j < i ==> (#[trigger] before[j]).id@ != order.id@,
                    decreases before.len() - i + if found {
                        0int
                    } else {
                        1int
                    },
                {
                    if text_eq(self.orders[i].id.as_str(), order.id.as_str()) {
                        found = true;
                    } else {
                        i = i + 1;
                    }
                }
                proof {
                    lemma_order_index(before, order.id@, i as int);
                }
                if found {
                    self.orders.set(i, order);
                } else {
                    self.orders.push(order);
                }
            },
            WsEvent::RiskAlert { level, message } => {
                let log_level = if text_eq(level.as_str(), "CRITICAL") || text_eq(level.as_str(), "ERROR") {
                    LogLevel::Error
                } else if text_eq(level.as_str(), "WARNING") || text_eq(level.as_str(), "WARN") {
                    LogLevel::Warn
                } else {
                    LogLevel::Info
                };
                let mut text = join3("[RISK ", level.as_str(), "] ");
                text.append(message.as_str());
                let ghost before = self.logs@;
                self.logs.push(
                    LogEntry {
                        timestamp: label,
                        level: log_level,
                        message: text,
                        source: String::from_str("risk"),
                    },
                );
                assert(self.logs@.drop_last() =~= before);
                if text_eq(level.as_str(), "CRITICAL") || text_eq(level.as_str(), "ERROR") {
                    effects.push(UiEffect::PlaySound(AlertSound::Emergency));
                    effects.push(UiEffect::Notify { title: String::from_str("RISK ALERT"), body: message });
                } else if text_eq(level.as_str(), "WARNING") || text_eq(level.as_str(), "WARN") {
                    effects.push(UiEffect::PlaySound(AlertSound::RiskAlert));
                    assert(effects@ =~= seq![UiEffect::PlaySound(AlertSound::RiskAlert)]);
                }
            },
            WsEvent::SystemStatus { mode, running, health } => {
                self.system.running = running;
                self.system.health.status = health;
                self.system.mode = if text_eq(mode.as_str(), "live") || text_eq(mode.as_str(), "LIVE") {
                    TradingMode::Live
                } else if text_eq(mode.as_str(), "paper") || text_eq(mode.as_str(), "PAPER") {
                    TradingMode::Paper
                } else if text_eq(mode.as_str(), "demo") || text_eq(mode.as_str(), "DEMO") {
                    TradingMode::Demo
                } else {
                    TradingMode::Off
                };
            },
            WsEvent::LogAppend { level, message, source } => {
                let log_level = if text_eq(level.as_str(), "ERROR") {
                    LogLevel::Error
                } else if text_eq(level.as_str(), "WARN") {
                    LogLevel::Warn
                } else if text_eq(level.as_str(), "DEBUG") {
                    LogLevel::Debug
                } else {
                    LogLevel::Info
                };
                push_bounded_vec(
                    &mut self.logs,
                    LogEntry { timestamp: label, level: log_level, message, source },
                    DASHBOARD_LOG_CAPACITY,
                );
            },
            _ => {},
        }
        effects
    }

    /// Applies a live update when it can be applied without overflow and
    /// returns its effects; otherwise leaves the dashboard as it was and
    /// returns `None` (where the page's `Decimal` arithmetic would panic).
    pub fn apply_checked(&mut self, ev: WsEvent, label: String) -> (r: Option<Vec<UiEffect>>)
        requires
            old(self).wf(),
            event_wf(ev),
        ensures
            final(self).wf(),
            r is Some <==> event_applies(old(self).positions@, ev),
            r matches Some(effects) ==> event_outcome(*old(self), ev, label, *final(self), effects@),
            r is None ==> *final(self) == *old(self),
    {
        if self.event_applies_to(&ev) {
            Some(self.apply_event(ev, label))
        } else {
            None
        }
    }

    /// Applies a live update as `apply_checked` does, with the local wall-clock
    /// time as the time of any log line it adds.
    pub fn apply_now(&mut self, ev: WsEvent) -> (r: Option<Vec<UiEffect>>)
        requires
            old(self).wf(),
            event_wf(ev),
        ensures
            final(self).wf(),
            r is Some <==> event_applies(old(self).positions@, ev),
            r matches Some(effects) ==> exists|label: String| event_outcome(*old(self), ev, label, *final(self), effects@),
            r is None ==> *final(self) == *old(self),
    {
        let label = local_clock_label();
        let ghost stamp = label;
        let r = self.apply_checked(ev, label);
        proof {
            if r is Some {
                assert(event_outcome(*old(self), ev, stamp, *self, r->0@));
            }
        }
        r
    }
}

impl DashboardState {
    /// The terminal's collapse button: collapses an open terminal and opens a
    /// collapsed one; nothing else changes.
    pub fn toggle_terminal(&mut self)
        ensures
            final(self).terminal_collapsed == !old(self).terminal_collapsed,
            final(self).system == old(self).system,
            final(self).portfolio == old(self).portfolio,
            final(self).positions == old(self).positions,
            final(self).orders == old(self).orders,
            final(self).signals == old(self).signals,
            final(self).logs == old(self).logs,
            final(self).selected_symbol == old(self).selected_symbol,
            final(self).selected_timeframe == old(self).selected_timeframe,
            final(self).active_tab == old(self).active_tab,
    {
        self.terminal_collapsed = !self.terminal_collapsed;
    }

    /// A click on a terminal tab makes it the active one; nothing else changes.
    pub fn select_tab(&mut self, tab: TerminalTab)
        ensures
            final(self).active_tab == tab,
            final(self).system == old(self).system,
            final(self).portfolio == old(self).portfolio,
            final(self).positions == old(self).positions,
            final(self).orders == old(self).orders,
            final(self).signals == old(self).signals,
            final(self).logs == old(self).logs,
            final(self).selected_symbol == old(self).selected_symbol,
            final(self).selected_timeframe == old(self).selected_timeframe,
            final(self).terminal_collapsed == old(self).terminal_collapsed,
    {
        self.active_tab = tab;
    }

    /// The tab whose content the terminal shows: the active one, or none while
    /// the terminal is collapsed.
    pub fn shown_tab(&self) -> (r: Option<TerminalTab>)
        ensures
            r == if self.terminal_collapsed {
                None
            } else {
                Some(self.active_tab)
            },
    {
        if self.terminal_collapsed {
            None
        } else {
            Some(self.active_tab)
        }
    }
}

proof fn lemma_order_index(s: Seq<Order>, id: Seq<char>, k: int)
    requires
        0 <= k <= s.len(),
        k < s.len() ==> s[k].id@ == id,
        forall|j: int| 0 <= j < k ==> (#[trigger] s[j]).id@ != id,
    ensures
        order_index(s, id) == k,
    decreases s.len(),
{
    if s.len() > 0 && k > 0 {
        assert(s[0].id@ != id);
        assert forall|j: int| 0 <= j < k - 1 implies (#[trigger] s.drop_first()[j]).id@ != id by {
            assert(s.drop_first()[j] == s[j + 1]);
        }
        if k - 1 < s.drop_first().len() {
            assert(s.drop_first()[k - 1] == s[k]);
        }
        lemma_order_index(s.drop_first(), id, k - 1);
    }
}

} // verus!
