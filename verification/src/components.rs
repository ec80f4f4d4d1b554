//! The dashboard's display rules: how amounts are written, which colour and
//! label a value gets, the risk levels, the order form, chart line moves and
//! the built-in terminal.
use crate::api::PlaceOrderArgs;
use crate::decimal::{
    Dec, DecParts, opt_parts, dec_checked_add, dec_checked_div, dec_checked_sub, dec_lt, dec_to_string,
    dec_to_string_fixed2, decimal_display_fixed2, aligned_difference, abs_int, is_quotient, parts_of,
    max_nat, parts_wf, same_value, lemma_quotient_of_denoted, MAX_MAGNITUDE,
    decimal_checked_add, decimal_checked_div, decimal_checked_sub, decimal_display,
    is_negative_value, value_lt,
};
use crate::models::{LogLevel, OrderSide, OrderStatus, OrderType, Position, SignalAction, TradingMode};
use crate::state::{TerminalTab, Timeframe};
use crate::text::{cut_fraction, cut_fraction_text, join2, text_eq};
use crate::ws_server::texts;
use vstd::prelude::*;

verus! {

/// An amount as the dashboard writes it: `Decimal`'s text with at most two
/// fractional digits.
pub fn format_decimal(d: Dec) -> (r: String)
    requires
        d.wf(),
    ensures
        r@ == cut_fraction(decimal_display(d@)),
{
    let s = dec_to_string(d);
    cut_fraction_text(s.as_str())
}

/// The colour of a gain (at or above zero) or a loss.
pub fn pnl_class(d: Dec) -> (r: &'static str)
    ensures
        r@ == if is_negative_value(d@) {
            "text-danger"@
        } else {
            "text-success"@
        },
{
    if d.is_non_negative() {
        "text-success"
    } else {
        "text-danger"
    }
}

/// The arrow shown before the day's result.
pub fn pnl_arrow(d: Dec) -> (r: &'static str)
    ensures
        r@ == if is_negative_value(d@) {
            "▼"@
        } else {
            "▲"@
        },
{
    if d.is_non_negative() {
        "▲"
    } else {
        "▼"
    }
}

/// The sign written before a gain (`+`) or a loss (nothing: the amount has its `-`).
pub fn pnl_sign(d: Dec) -> (r: &'static str)
    ensures
        r@ == if is_negative_value(d@) {
            ""@
        } else {
            "+"@
        },
{
    if d.is_non_negative() {
        "+"
    } else {
        ""
    }
}

/// The card style of a position in profit or at a loss.
pub fn position_card_class(pnl: Dec) -> (r: &'static str)
    ensures
        r@ == if is_negative_value(pnl@) {
            "loss"@
        } else {
            "profit"@
        },
{
    if pnl.is_non_negative() {
        "profit"
    } else {
        "loss"
    }
}

/// The bar style for a drawdown: below 5% calm, from 5% a warning (caution),
/// from 8% critical.
pub fn drawdown_class(dd: Dec) -> (r: &'static str)
    requires
        dd.wf(),
    ensures
        r@ == if value_lt(dd@, (false, 5nat, 0nat)) {
            "bg-success"@
        } else if value_lt(dd@, (false, 8nat, 0nat)) {
            "bg-warning animate-pulse-warning"@
        } else {
            "bg-danger animate-flash-danger"@
        },
{
    if dec_lt(dd, Dec::from_u32(5)) {
        "bg-success"
    } else if dec_lt(dd, Dec::from_u32(8)) {
        "bg-warning animate-pulse-warning"
    } else {
        "bg-danger animate-flash-danger"
    }
}

/// The width of the drawdown bar: the drawdown, at most 100.
pub fn drawdown_width(dd: Dec) -> (r: Dec)
    requires
        dd.wf(),
    ensures
        r@ == if value_lt((false, 100nat, 0nat), dd@) {
            (false, 100nat, 0nat)
        } else {
            dd@
        },
        r.wf(),
{
    let hundred = Dec::from_u32(100);
    if dec_lt(hundred, dd) {
        hundred
    } else {
        dd
    }
}

/// The day's result as a percentage, as the balance card shows it: the
/// amount divided by 100 (`None` where `Decimal` gives no quotient).
pub fn daily_pnl_percent(daily_pnl: Dec) -> (r: Option<Dec>)
    requires
        daily_pnl.wf(),
    ensures
        opt_parts(r) == decimal_checked_div(daily_pnl@, (false, 100nat, 0nat)),
        r matches Some(d) ==> d.wf(),
{
    dec_checked_div(daily_pnl, Dec::from_u32(100))
}

/// The label of a position's side.
pub fn side_label(side: OrderSide) -> (r: &'static str)
    ensures
        r@ == match side {
            OrderSide::Buy => "LONG"@,
            OrderSide::Sell => "SHORT"@,
        },
{
    match side {
        OrderSide::Buy => "LONG",
        OrderSide::Sell => "SHORT",
    }
}

/// The word for an order's side.
pub fn side_word(side: OrderSide) -> (r: &'static str)
    ensures
        r@ == match side {
            OrderSide::Buy => "BUY"@,
            OrderSide::Sell => "SELL"@,
        },
{
    match side {
        OrderSide::Buy => "BUY",
        OrderSide::Sell => "SELL",
    }
}

/// The colour of a side.
pub fn side_class(side: OrderSide) -> (r: &'static str)
    ensures
        r@ == match side {
            OrderSide::Buy => "text-success"@,
            OrderSide::Sell => "text-danger"@,
        },
{
    match side {
        OrderSide::Buy => "text-success",
        OrderSide::Sell => "text-danger",
    }
}

/// The colour of an order's status.
pub fn order_status_class(status: OrderStatus) -> (r: &'static str)
    ensures
        r@ == match status {
            OrderStatus::Working => "text-warning"@,
            OrderStatus::Filled => "text-success"@,
            OrderStatus::Cancelled => "text-danger"@,
            OrderStatus::Rejected => "text-danger"@,
            _ => "text-muted"@,
        },
{
    match status {
        OrderStatus::Working => "text-warning",
        OrderStatus::Filled => "text-success",
        OrderStatus::Cancelled => "text-danger",
        OrderStatus::Rejected => "text-danger",
        _ => "text-muted",
    }
}

/// An order's status in capitals, as its debug name upper-cased.
pub fn order_status_label(status: OrderStatus) -> (r: &'static str)
    ensures
        r@ == match status {
            OrderStatus::Pending => "PENDING"@,
            OrderStatus::Working => "WORKING"@,
            OrderStatus::PartiallyFilled => "PARTIALLYFILLED"@,
            OrderStatus::Filled => "FILLED"@,
            OrderStatus::Cancelled => "CANCELLED"@,
            OrderStatus::Rejected => "REJECTED"@,
        },
{
    match status {
        OrderStatus::Pending => "PENDING",
        OrderStatus::Working => "WORKING",
        OrderStatus::PartiallyFilled => "PARTIALLYFILLED",
        OrderStatus::Filled => "FILLED",
        OrderStatus::Cancelled => "CANCELLED",
        OrderStatus::Rejected => "REJECTED",
    }
}

/// An order's type in capitals, as its debug name upper-cased.
pub fn order_type_label(t: OrderType) -> (r: &'static str)
    ensures
        r@ == match t {
            OrderType::Market => "MARKET"@,
            OrderType::Limit => "LIMIT"@,
            OrderType::Stop => "STOP"@,
            OrderType::StopLimit => "STOPLIMIT"@,
        },
{
    match t {
        OrderType::Market => "MARKET",
        OrderType::Limit => "LIMIT",
        OrderType::Stop => "STOP",
        OrderType::StopLimit => "STOPLIMIT",
    }
}

/// The colour of a log line's level.
pub fn log_level_class(level: LogLevel) -> (r: &'static str)
    ensures
        r@ == match level {
            LogLevel::Info => "text-info"@,
            LogLevel::Warn => "text-warning"@,
            LogLevel::Error => "text-danger"@,
            LogLevel::Debug => "text-muted"@,
        },
{
    match level {
        LogLevel::Info => "text-info",
        LogLevel::Warn => "text-warning",
        LogLevel::Error => "text-danger",
        LogLevel::Debug => "text-muted",
    }
}

/// The label of a log line's level.
pub fn log_level_label(level: LogLevel) -> (r: &'static str)
    ensures
        r@ == match level {
            LogLevel::Info => "INFO"@,
            LogLevel::Warn => "WARN"@,
            LogLevel::Error => "ERROR"@,
            LogLevel::Debug => "DEBUG"@,
        },
{
    match level {
        LogLevel::Info => "INFO",
        LogLevel::Warn => "WARN",
        LogLevel::Error => "ERROR",
        LogLevel::Debug => "DEBUG",
    }
}

/// The mode text the start button sends: the selected mode, demo when off.
pub fn start_mode_arg(mode: TradingMode) -> (r: &'static str)
    ensures
        r@ == match mode {
            TradingMode::Live => "live"@,
            TradingMode::Paper => "paper"@,
            _ => "demo"@,
        },
{
    match mode {
        TradingMode::Live => "live",
        TradingMode::Paper => "paper",
        TradingMode::Demo => "demo",
        TradingMode::Off => "demo",
    }
}

/// The style of a mode button, selected or not.
pub fn mode_radio_class(mode: TradingMode, selected: bool) -> (r: String)
    ensures
        r@ == if selected {
            "mode-radio selected "@ + match mode {
                TradingMode::Live => "live"@,
                TradingMode::Paper => "paper"@,
                TradingMode::Demo => "demo"@,
                TradingMode::Off => ""@,
            }
        } else {
            "mode-radio"@
        },
{
    if selected {
        let suffix = match mode {
            TradingMode::Live => "live",
            TradingMode::Paper => "paper",
            TradingMode::Demo => "demo",
            TradingMode::Off => "",
        };
        join2("mode-radio selected ", suffix)
    } else {
        String::from_str("mode-radio")
    }
}

/// The status dot of a mode button.
pub fn mode_dot_class(mode: TradingMode) -> (r: &'static str)
    ensures
        r@ == match mode {
            TradingMode::Live => "status-dot status-live"@,
            TradingMode::Paper => "status-dot status-paper"@,
            TradingMode::Demo => "status-dot status-demo"@,
            TradingMode::Off => "status-dot status-off"@,
        },
{
    match mode {
        TradingMode::Live => "status-dot status-live",
        TradingMode::Paper => "status-dot status-paper",
        TradingMode::Demo => "status-dot status-demo",
        TradingMode::Off => "status-dot status-off",
    }
}

/// The style of a terminal tab button.
pub fn tab_class(active: bool) -> (r: &'static str)
    ensures
        r@ == if active {
            "terminal-tab active"@
        } else {
            "terminal-tab"@
        },
{
    if active {
        "terminal-tab active"
    } else {
        "terminal-tab"
    }
}

/// The tab a tab button selects is the active one.
pub fn is_tab_active(active: TerminalTab, tab: TerminalTab) -> (r: bool)
    ensures
        r == (active == tab),
{
    active == tab
}

/// The height of the terminal, collapsed or open.
pub fn terminal_height_class(collapsed: bool) -> (r: &'static str)
    ensures
        r@ == if collapsed {
            "h-[40px]"@
        } else {
            "h-[200px]"@
        },
{
    if collapsed {
        "h-[40px]"
    } else {
        "h-[200px]"
    }
}

/// The colour of a metric's status word.
pub fn metric_status_class(status: &str) -> (r: &'static str)
    ensures
        r@ == if status@ == "good"@ {
            "text-success"@
        } else if status@ == "warning"@ {
            "text-warning"@
        } else if status@ == "danger"@ {
            "text-danger"@
        } else {
            "text-secondary"@
        },
{
    if text_eq(status, "good") {
        "text-success"
    } else if text_eq(status, "warning") {
        "text-warning"
    } else if text_eq(status, "danger") {
        "text-danger"
    } else {
        "text-secondary"
    }
}

/// The text and colour of a signal's action.
pub fn signal_action_text(action: SignalAction) -> (r: (&'static str, &'static str))
    ensures
        r.0@ == match action {
            SignalAction::Buy => "BUY ▲"@,
            SignalAction::Sell => "SELL ▼"@,
            SignalAction::Hold => "HOLD"@,
        },
        r.1@ == match action {
            SignalAction::Buy => "text-success"@,
            SignalAction::Sell => "text-danger"@,
            SignalAction::Hold => "text-muted"@,
        },
{
    match action {
        SignalAction::Buy => ("BUY ▲", "text-success"),
        SignalAction::Sell => ("SELL ▼", "text-danger"),
        SignalAction::Hold => ("HOLD", "text-muted"),
    }
}

/// The bar colour of a signal's confidence: from 70 up calm, from 50 up a
/// warning, below that danger.
pub fn confidence_class(confidence: Dec) -> (r: &'static str)
    requires
        confidence.wf(),
    ensures
        r@ == if !value_lt(confidence@, (false, 70nat, 0nat)) {
            "bg-success"@
        } else if !value_lt(confidence@, (false, 50nat, 0nat)) {
            "bg-warning"@
        } else {
            "bg-danger"@
        },
{
    if !dec_lt(confidence, Dec::from_u32(70)) {
        "bg-success"
    } else if !dec_lt(confidence, Dec::from_u32(50)) {
        "bg-warning"
    } else {
        "bg-danger"
    }
}

/// `(take_profit - price) / (price - stop_loss)` as `Decimal` computes it;
/// `None` when a step overflows or the risk is zero.
pub open spec fn risk_reward_parts(take_profit: DecParts, price: DecParts, stop_loss: DecParts) -> Option<DecParts> {
    match (decimal_checked_sub(take_profit, price), decimal_checked_sub(price, stop_loss)) {
        (Some(reward), Some(risk)) => decimal_checked_div(reward, risk),
        _ => None,
    }
}

/// A signal's reward-to-risk ratio, when it can be computed.
pub fn try_risk_reward(take_profit: Dec, price: Dec, stop_loss: Dec) -> (r: Option<Dec>)
    requires
        take_profit.wf(),
        price.wf(),
        stop_loss.wf(),
    ensures
        match r {
            Some(d) => risk_reward_parts(take_profit@, price@, stop_loss@) == Some(d@) && d.wf(),
            None => risk_reward_parts(take_profit@, price@, stop_loss@) is None,
        },
        ({
            let reward = aligned_difference(take_profit@, price@);
            let risk = aligned_difference(price@, stop_loss@);
            abs_int(reward) <= MAX_MAGNITUDE && abs_int(risk) <= MAX_MAGNITUDE ==> forall|q: DecParts|
                #[trigger] is_quotient(
                    parts_of(reward, max_nat(take_profit@.2, price@.2)),
                    parts_of(risk, max_nat(price@.2, stop_loss@.2)),
                    q,
                ) && parts_wf(q) ==> r is Some && same_value(r.unwrap()@, q)
        }),
{
    let reward = dec_checked_sub(take_profit, price);
    let risk = dec_checked_sub(price, stop_loss);
    match (reward, risk) {
        (Some(a), Some(b)) => {
            let r = dec_checked_div(a, b);
            proof {
                let rw = aligned_difference(take_profit@, price@);
                let rk = aligned_difference(price@, stop_loss@);
                let s1 = max_nat(take_profit@.2, price@.2);
                let s2 = max_nat(price@.2, stop_loss@.2);
                if abs_int(rw) <= MAX_MAGNITUDE && abs_int(rk) <= MAX_MAGNITUDE {
                    assert forall|q: DecParts|
                        #[trigger] is_quotient(parts_of(rw, s1), parts_of(rk, s2), q) && parts_wf(q)
                        implies r is Some && same_value(r.unwrap()@, q) by {
                        lemma_quotient_of_denoted(a@, b@, rw, s1, rk, s2, q);
                    }
                }
            }
            r
        },
        _ => None,
    }
}

/// A signal's reward-to-risk ratio `(take_profit - price) / (price - stop_loss)`.
pub fn risk_reward(take_profit: Dec, price: Dec, stop_loss: Dec) -> (r: Dec)
    requires
        take_profit.wf(),
        price.wf(),
        stop_loss.wf(),
        risk_reward_parts(take_profit@, price@, stop_loss@) is Some,
    ensures
        risk_reward_parts(take_profit@, price@, stop_loss@) == Some(r@),
        r.wf(),
{
    match try_risk_reward(take_profit, price, stop_loss) {
        Some(d) => d,
        None => {
            assert(false);
            Dec::zero()
        },
    }
}

/// `realized + unrealized - fees` as `Decimal` computes it; `None` when a step overflows.
pub open spec fn net_pnl_parts(realized: DecParts, unrealized: DecParts, fees: DecParts) -> Option<DecParts> {
    match decimal_checked_add(realized, unrealized) {
        Some(s) => decimal_checked_sub(s, fees),
        None => None,
    }
}

/// The day's net result, when it can be computed.
pub fn try_net_pnl(realized: Dec, unrealized: Dec, fees: Dec) -> (r: Option<Dec>)
    requires
        realized.wf(),
        unrealized.wf(),
        fees.wf(),
    ensures
        match r {
            Some(d) => net_pnl_parts(realized@, unrealized@, fees@) == Some(d@) && d.wf(),
            None => net_pnl_parts(realized@, unrealized@, fees@) is None,
        },
{
    match dec_checked_add(realized, unrealized) {
        Some(s) => dec_checked_sub(s, fees),
        None => None,
    }
}

/// The day's net result: realized plus unrealized, less fees.
pub fn net_pnl(realized: Dec, unrealized: Dec, fees: Dec) -> (r: Dec)
    requires
        realized.wf(),
        unrealized.wf(),
        fees.wf(),
        net_pnl_parts(realized@, unrealized@, fees@) is Some,
    ensures
        net_pnl_parts(realized@, unrealized@, fees@) == Some(r@),
        r.wf(),
{
    match try_net_pnl(realized, unrealized, fees) {
        Some(d) => d,
        None => {
            assert(false);
            Dec::zero()
        },
    }
}

/// How close a risk measure is to its limit.
#[derive(Clone, Copy, Debug, PartialEq, Eq, Structural)]
pub enum RiskLevel {
    Normal,
    Warning,
    Critical,
}

/// The price an order card shows: the limit price with two decimals, or
/// `MARKET` for an order without one.
pub fn order_price_text(price: Option<Dec>) -> (r: String)
    requires
        price matches Some(d) ==> d.wf(),
    ensures
        r@ == match price {
            Some(d) => decimal_display_fixed2(d@),
            None => "MARKET"@,
        },
{
    match price {
        Some(d) => dec_to_string_fixed2(d),
        None => String::from_str("MARKET"),
    }
}

/// The fill bar of an order card: complete once the filled quantity reaches a
/// non-zero order quantity (the fill percentage then reaches 100).
pub fn fill_bar_class(filled: u32, quantity: u32) -> (r: &'static str)
    ensures
        r@ == if quantity > 0 && filled >= quantity {
            "bg-success"@
        } else {
            "bg-info"@
        },
{
    if quantity > 0 && filled >= quantity {
        "bg-success"
    } else {
        "bg-info"
    }
}

/// The level of a risk bar at `percent` of its limit: critical from the
/// critical threshold up, a warning from the warning threshold up.
pub fn risk_bar_level(percent: Dec, warning: Dec, critical: Dec) -> (r: RiskLevel)
    requires
        percent.wf(),
        warning.wf(),
        critical.wf(),
    ensures
        r == if !value_lt(percent@, critical@) {
            RiskLevel::Critical
        } else if !value_lt(percent@, warning@) {
            RiskLevel::Warning
        } else {
            RiskLevel::Normal
        },
{
    if !dec_lt(percent, critical) {
        RiskLevel::Critical
    } else if !dec_lt(percent, warning) {
        RiskLevel::Warning
    } else {
        RiskLevel::Normal
    }
}

/// The bar and text styles of a risk level.
pub fn risk_level_classes(level: RiskLevel) -> (r: (&'static str, &'static str))
    ensures
        r.0@ == match level {
            RiskLevel::Critical => "bg-danger animate-flash-danger"@,
            RiskLevel::Warning => "bg-warning animate-pulse-warning"@,
            RiskLevel::Normal => "bg-success"@,
        },
        r.1@ == match level {
            RiskLevel::Critical => "text-danger"@,
            RiskLevel::Warning => "text-warning"@,
            RiskLevel::Normal => "text-success"@,
        },
{
    match level {
        RiskLevel::Critical => ("bg-danger animate-flash-danger", "text-danger"),
        RiskLevel::Warning => ("bg-warning animate-pulse-warning", "text-warning"),
        RiskLevel::Normal => ("bg-success", "text-success"),
    }
}

/// The overall risk state from the daily loss and the drawdown, each as a
/// percentage of its limit: trading is locked once either reaches 100, the
/// limit is approaching from 80, caution from 50.
pub fn overall_risk_status(daily_loss_pct_of_limit: Dec, drawdown_pct_of_limit: Dec) -> (r:
    crate::models::RiskSystemStatus)
    requires
        daily_loss_pct_of_limit.wf(),
        drawdown_pct_of_limit.wf(),
    ensures
        r == if !value_lt(daily_loss_pct_of_limit@, (false, 100nat, 0nat)) || !value_lt(
            drawdown_pct_of_limit@,
            (false, 100nat, 0nat),
        ) {
            crate::models::RiskSystemStatus::TradingLocked
        } else if !value_lt(daily_loss_pct_of_limit@, (false, 80nat, 0nat)) || !value_lt(
            drawdown_pct_of_limit@,
            (false, 80nat, 0nat),
        ) {
            crate::models::RiskSystemStatus::LimitApproaching
        } else if !value_lt(daily_loss_pct_of_limit@, (false, 50nat, 0nat)) || !value_lt(
            drawdown_pct_of_limit@,
            (false, 50nat, 0nat),
        ) {
            crate::models::RiskSystemStatus::Caution
        } else {
            crate::models::RiskSystemStatus::AllSystemsGo
        },
{
    let hundred = Dec::from_u32(100);
    let eighty = Dec::from_u32(80);
    let fifty = Dec::from_u32(50);
    if !dec_lt(daily_loss_pct_of_limit, hundred) || !dec_lt(drawdown_pct_of_limit, hundred) {
        crate::models::RiskSystemStatus::TradingLocked
    } else if !dec_lt(daily_loss_pct_of_limit, eighty) || !dec_lt(drawdown_pct_of_limit, eighty) {
        crate::models::RiskSystemStatus::LimitApproaching
    } else if !dec_lt(daily_loss_pct_of_limit, fifty) || !dec_lt(drawdown_pct_of_limit, fifty) {
        crate::models::RiskSystemStatus::Caution
    } else {
        crate::models::RiskSystemStatus::AllSystemsGo
    }
}

/// The most positions that may be open at once.
pub const MAX_OPEN_POSITIONS: u32 = 3u32;

/// The level of the open-positions counter against the limit of three: a
/// warning from 66% of the limit, critical from 90%.
pub fn position_limit_level(open: u32) -> (r: RiskLevel)
    ensures
        r == if 100 * open >= 90 * MAX_OPEN_POSITIONS {
            RiskLevel::Critical
        } else if 100 * open >= 66 * MAX_OPEN_POSITIONS {
            RiskLevel::Warning
        } else {
            RiskLevel::Normal
        },
{
    if open as u64 * 100 >= 90 * MAX_OPEN_POSITIONS as u64 {
        RiskLevel::Critical
    } else if open as u64 * 100 >= 66 * MAX_OPEN_POSITIONS as u64 {
        RiskLevel::Warning
    } else {
        RiskLevel::Normal
    }
}

/// The style of a timeframe button on the chart toolbar: highlighted for the
/// selected timeframe.
pub fn timeframe_button_class(selected: Timeframe, tf: Timeframe) -> (r: &'static str)
    ensures
        r@ == if selected == tf {
            "px-2 py-1 text-xs rounded bg-active text-primary border border-focus"@
        } else {
            "px-2 py-1 text-xs rounded bg-transparent text-secondary hover:text-primary"@
        },
{
    if selected == tf {
        "px-2 py-1 text-xs rounded bg-active text-primary border border-focus"
    } else {
        "px-2 py-1 text-xs rounded bg-transparent text-secondary hover:text-primary"
    }
}

/// The order the new-order form sends: the side as `buy` or `sell`, and no
/// price when the price field is empty.
pub fn order_form_args(
    symbol: String,
    side: OrderSide,
    order_type: String,
    quantity: u32,
    price: String,
) -> (r: PlaceOrderArgs)
    ensures
        r.symbol == symbol,
        r.side@ == match side {
            OrderSide::Buy => "buy"@,
            OrderSide::Sell => "sell"@,
        },
        r.order_type == order_type,
        r.quantity == quantity,
        r.price == if price@.len() == 0 {
            None
        } else {
            Some(price)
        },
{
    let side_text = match side {
        OrderSide::Buy => String::from_str("buy"),
        OrderSide::Sell => String::from_str("sell"),
    };
    let price_opt = if price.as_str().unicode_len() == 0 {
        None
    } else {
        Some(price)
    };
    PlaceOrderArgs { symbol, side: side_text, order_type, quantity, price: price_opt }
}

/// The levels a dragged chart line sets: a `sl` line the stop loss, a `tp`
/// line the take profit, a `trailing` line the trailing stop.
pub fn line_move_levels<T: Copy>(line_type: &str, price: T) -> (r: (Option<T>, Option<T>, Option<T>))
    ensures
        r.0 == if line_type@ == "sl"@ {
            Some(price)
        } else {
            None
        },
        r.1 == if line_type@ == "tp"@ {
            Some(price)
        } else {
            None
        },
        r.2 == if line_type@ == "trailing"@ {
            Some(price)
        } else {
            None
        },
{
    let sl = if text_eq(line_type, "sl") {
        Some(price)
    } else {
        None
    };
    let tp = if text_eq(line_type, "tp") {
        Some(price)
    } else {
        None
    };
    let trail = if text_eq(line_type, "trailing") {
        Some(price)
    } else {
        None
    };
    (sl, tp, trail)
}

/// The position whose levels the chart draws for `symbol`: the first one on
/// that symbol, if any.
pub fn chart_position_index(positions: &Vec<Position>, symbol: &str) -> (r: Option<usize>)
    ensures
        match r {
            Some(i) => {
                &&& i < positions@.len()
                &&& positions@[i as int].symbol@ == symbol@
                &&& forall|j: int| 0 <= j < i ==> (#[trigger] positions@[j]).symbol@ != symbol@
            },
            None => forall|j: int| 0 <= j < positions@.len() ==> (#[trigger] positions@[j]).symbol@ != symbol@,
        },
{
    let mut i: usize = 0;
    while i < positions.len()
        invariant
            i <= positions@.len(),
            forall|j: int| 0 <= j < i ==> (#[trigger] positions@[j]).symbol@ != symbol@,
        decreases positions@.len() - i,
    {
        if text_eq(positions[i].symbol.as_str(), symbol) {
            return Some(i);
        }
        i = i + 1;
    }
    None
}

/// What happens around the emergency-stop (kill) switch.
#[derive(Clone, Copy, Debug, PartialEq, Eq, Structural)]
pub enum KillEvent {
    /// The KILL button is clicked.
    Click,
    /// The confirmation dialog's "YES, STOP EVERYTHING" is clicked.
    Confirm,
    /// The confirmation dialog is cancelled.
    Cancel,
    /// The backend answered the emergency stop with success.
    StopSucceeded,
    /// The backend answered the emergency stop with an error.
    StopFailed,
}

/// One step of the kill switch's confirmation: from whether the dialog is
/// showing, whether it shows afterwards and whether the emergency stop is
/// requested. Only a confirmation while the dialog shows requests the stop; a
/// click shows the dialog; a cancel or a successful stop hides it; a failed
/// stop leaves it showing.
pub fn kill_switch_step(showing: bool, ev: KillEvent) -> (r: (bool, bool))
    ensures
        r.1 == (showing && ev == KillEvent::Confirm),
        r.0 == match ev {
            KillEvent::Click => true,
            KillEvent::Confirm => showing,
            KillEvent::Cancel => false,
            KillEvent::StopSucceeded => false,
            KillEvent::StopFailed => showing,
        },
{
    match ev {
        KillEvent::Click => (true, false),
        KillEvent::Confirm => (showing, showing),
        KillEvent::Cancel => (false, false),
        KillEvent::StopSucceeded => (false, false),
        KillEvent::StopFailed => (showing, false),
    }
}

/// The lines the terminal opens with.
pub open spec fn terminal_greeting_lines() -> Seq<Seq<char>> {
    seq!["AI Trading Bot Terminal v5.0.0"@, "Type 'help' for available commands"@, ""@]
}

/// What the terminal answers to a command (other than `clear`).
pub open spec fn terminal_reply(cmd: Seq<char>) -> Seq<Seq<char>> {
    if cmd == "help"@ {
        seq![
            "Available commands:"@,
            "  status     - Show current status"@,
            "  buy SYM Q  - Quick buy order"@,
            "  sell SYM Q - Quick sell order"@,
            "  close all  - Close all positions"@,
            "  set risk % - Change risk per trade"@,
            "  logs       - Show recent logs"@,
            "  clear      - Clear terminal"@,
        ]
    } else if cmd == "status"@ {
        seq!["Status: DEMO mode, Running"@, "Positions: 2 open, 0 pending"@, "Equity: ₽523,450"@]
    } else if cmd == "close all"@ {
        seq!["Closing all positions..."@]
    } else {
        seq!["Unknown command: "@ + cmd]
    }
}

/// The terminal's lines after entering `cmd`: an empty command does nothing;
/// `clear` empties the terminal; any other command is echoed after `> ` and
/// followed by its answer.
pub open spec fn terminal_after(history: Seq<Seq<char>>, cmd: Seq<char>) -> Seq<Seq<char>> {
    if cmd.len() == 0 {
        history
    } else if cmd == "clear"@ {
        Seq::empty()
    } else {
        history.push("> "@ + cmd) + terminal_reply(cmd)
    }
}

/// The lines the terminal opens with.
pub fn terminal_greeting() -> (r: Vec<String>)
    ensures
        texts(r@) == terminal_greeting_lines(),
{
    let mut v: Vec<String> = Vec::new();
    v.push(String::from_str("AI Trading Bot Terminal v5.0.0"));
    v.push(String::from_str("Type 'help' for available commands"));
    v.push(String::from_str(""));
    assert(texts(v@) =~= terminal_greeting_lines());
    v
}

fn push_line(history: &mut Vec<String>, line: &str)
    ensures
        texts(final(history)@) == texts(old(history)@).push(line@),
{
    let ghost before = history@;
    history.push(String::from_str(line));
    assert(texts(history@) =~= texts(before).push(line@));
}

/// Enters a command in the terminal (see `terminal_after`) and answers whether
/// the input box is cleared, which it is for any non-empty command.
pub fn run_terminal_command(history: &mut Vec<String>, cmd: &str) -> (cleared: bool)
    ensures
        texts(final(history)@) == terminal_after(texts(old(history)@), cmd@),
        cleared == (cmd@.len() > 0),
{
    if cmd.unicode_len() == 0 {
        return false;
    }
    let ghost start = texts(history@);
    let echo = join2("> ", cmd);
    push_line(history, echo.as_str());
    let ghost echoed = texts(history@);
    proof {
        reveal_strlit("clear");
    }
    if text_eq(cmd, "help") {
        push_line(history, "Available commands:");
        push_line(history, "  status     - Show current status");
        push_line(history, "  buy SYM Q  - Quick buy order");
        push_line(history, "  sell SYM Q - Quick sell order");
        push_line(history, "  close all  - Close all positions");
        push_line(history, "  set risk % - Change risk per trade");
        push_line(history, "  logs       - Show recent logs");
        push_line(history, "  clear      - Clear terminal");
        proof {
            reveal_strlit("help");
            assert(cmd@ != "clear"@);
        }
        assert(texts(history@) =~= echoed + terminal_reply(cmd@));
    } else if text_eq(cmd, "status") {
        push_line(history, "Status: DEMO mode, Running");
        push_line(history, "Positions: 2 open, 0 pending");
        push_line(history, "Equity: ₽523,450");
        proof {
            reveal_strlit("status");
            assert(cmd@ != "clear"@);
        }
        assert(texts(history@) =~= echoed + terminal_reply(cmd@));
    } else if text_eq(cmd, "close all") {
        push_line(history, "Closing all positions...");
        proof {
            reveal_strlit("close all");
            assert(cmd@ != "clear"@);
        }
        assert(texts(history@) =~= echoed + terminal_reply(cmd@));
    } else if text_eq(cmd, "clear") {
        history.clear();
        assert(texts(history@) =~= Seq::<Seq<char>>::empty());
    } else {
        let unknown = join2("Unknown command: ", cmd);
        push_line(history, unknown.as_str());
        assert(texts(history@) =~= echoed + terminal_reply(cmd@));
    }
    true
}

/// The style of a terminal line: echoed commands, indented help lines, other text.
pub fn terminal_line_class(line: &str) -> (r: &'static str)
    ensures
        r@ == if line@.len() >= 1 && line@[0] == '>' {
            "text-success"@
        } else if line@.len() >= 2 && line@[0] == ' ' && line@[1] == ' ' {
            "text-muted pl-4"@
        } else {
            "text-secondary"@
        },
{
    let n = line.unicode_len();
    if n >= 1 && line.get_char(0) == '>' {
        "text-success"
    } else if n >= 2 && line.get_char(0) == ' ' && line.get_char(1) == ' ' {
        "text-muted pl-4"
    } else {
        "text-secondary"
    }
}

} // verus!
