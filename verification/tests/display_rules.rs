use trading_dashboard::components::{
    chart_position_index, kill_switch_step, KillEvent, confidence_class, position_limit_level, timeframe_button_class, daily_pnl_percent, fill_bar_class, order_price_text, drawdown_class, drawdown_width, line_move_levels, log_level_class, log_level_label,
    metric_status_class, mode_dot_class, mode_radio_class, net_pnl, order_form_args, order_status_class,
    order_status_label, order_type_label, overall_risk_status, pnl_arrow, pnl_class, pnl_sign,
    position_card_class, risk_bar_level, risk_level_classes, risk_reward, run_terminal_command, side_label,
    signal_action_text, start_mode_arg, terminal_greeting, terminal_height_class, terminal_line_class,
    try_net_pnl, try_risk_reward, RiskLevel,
};
use trading_dashboard::decimal::{Dec, MAX_MAGNITUDE};
use trading_dashboard::state::Timeframe;
use trading_dashboard::models::{LogLevel, OrderSide, Position, OrderStatus, OrderType, RiskSystemStatus, SignalAction, TradingMode};
use trading_dashboard::ws_client::{
    on_connection_event, reconnect_delay_ms, schedule_reconnect, status_notification, ConnectionEvent, ConnectionStatus,
};

/// The text `rust_decimal` writes for an amount.
fn decimal_text(d: Dec) -> String {
    let mut x = rust_decimal::Decimal::from_i128_with_scale(d.magnitude as i128, d.scale);
    x.set_sign_negative(d.negative);
    x.to_string()
}

#[test]
fn gain_and_loss_styles() {
    assert_eq!(pnl_class(Dec::zero()), "text-success");
    assert_eq!(pnl_class(Dec::new(-1, 2)), "text-danger");
    assert_eq!(pnl_arrow(Dec::new(5, 0)), "▲");
    assert_eq!(pnl_arrow(Dec::new(-5, 0)), "▼");
    assert_eq!(pnl_sign(Dec::new(5, 0)), "+");
    assert_eq!(pnl_sign(Dec::new(-5, 0)), "");
    assert_eq!(position_card_class(Dec::new(-5, 0)), "loss");
    assert_eq!(position_card_class(Dec::new(5, 0)), "profit");
}

#[test]
fn drawdown_bands() {
    assert_eq!(drawdown_class(Dec::new(499, 2)), "bg-success");
    assert_eq!(drawdown_class(Dec::new(5, 0)), "bg-warning animate-pulse-warning");
    assert_eq!(drawdown_class(Dec::new(799, 2)), "bg-warning animate-pulse-warning");
    assert_eq!(drawdown_class(Dec::new(8, 0)), "bg-danger animate-flash-danger");
    assert_eq!(drawdown_class(Dec::new(9, 0)), "bg-danger animate-flash-danger");
    assert_eq!(decimal_text(drawdown_width(Dec::new(1234, 1))), "100");
    assert_eq!(decimal_text(drawdown_width(Dec::new(34, 1))), "3.4");
}

#[test]
fn labels() {
    assert_eq!(side_label(OrderSide::Buy), "LONG");
    assert_eq!(side_label(OrderSide::Sell), "SHORT");
    assert_eq!(order_status_label(OrderStatus::PartiallyFilled), "PARTIALLYFILLED");
    assert_eq!(order_status_class(OrderStatus::Pending), "text-muted");
    assert_eq!(order_status_class(OrderStatus::Rejected), "text-danger");
    assert_eq!(order_type_label(OrderType::StopLimit), "STOPLIMIT");
    assert_eq!(log_level_class(LogLevel::Warn), "text-warning");
    assert_eq!(log_level_label(LogLevel::Debug), "DEBUG");
    assert_eq!(start_mode_arg(TradingMode::Off), "demo");
    assert_eq!(start_mode_arg(TradingMode::Paper), "paper");
    assert_eq!(mode_radio_class(TradingMode::Live, true), "mode-radio selected live");
    assert_eq!(mode_radio_class(TradingMode::Off, true), "mode-radio selected ");
    assert_eq!(mode_radio_class(TradingMode::Live, false), "mode-radio");
    assert_eq!(mode_dot_class(TradingMode::Demo), "status-dot status-demo");
    assert_eq!(terminal_height_class(true), "h-[40px]");
    assert_eq!(metric_status_class("good"), "text-success");
    assert_eq!(metric_status_class("unknown"), "text-secondary");
    assert_eq!(signal_action_text(SignalAction::Sell), ("SELL ▼", "text-danger"));
}

#[test]
fn signal_card_numbers() {
    assert_eq!(confidence_class(Dec::from_u32(70)), "bg-success");
    assert_eq!(confidence_class(Dec::new(699, 1)), "bg-warning");
    assert_eq!(confidence_class(Dec::from_u32(49)), "bg-danger");
    let rr = risk_reward(Dec::from_u32(260), Dec::from_u32(250), Dec::from_u32(245));
    assert_eq!(decimal_text(rr), "2");
    assert!(try_risk_reward(Dec::from_u32(260), Dec::from_u32(250), Dec::from_u32(250)).is_none());
}

#[test]
fn net_result() {
    let n = net_pnl(Dec::new(2100, 2), Dec::new(-500, 2), Dec::new(45, 2));
    assert_eq!(decimal_text(n), "15.55");
    let huge = Dec::from_parts(false, MAX_MAGNITUDE, 0).unwrap();
    assert!(try_net_pnl(huge, huge, Dec::zero()).is_none());
}

#[test]
fn risk_levels() {
    assert_eq!(risk_bar_level(Dec::from_u32(80), Dec::from_u32(50), Dec::from_u32(80)), RiskLevel::Critical);
    assert_eq!(risk_bar_level(Dec::from_u32(50), Dec::from_u32(50), Dec::from_u32(80)), RiskLevel::Warning);
    assert_eq!(risk_bar_level(Dec::from_u32(25), Dec::from_u32(50), Dec::from_u32(80)), RiskLevel::Normal);
    assert_eq!(risk_level_classes(RiskLevel::Warning), ("bg-warning animate-pulse-warning", "text-warning"));
    assert_eq!(overall_risk_status(Dec::from_u32(25), Dec::from_u32(30)), RiskSystemStatus::AllSystemsGo);
    assert_eq!(overall_risk_status(Dec::from_u32(51), Dec::from_u32(30)), RiskSystemStatus::Caution);
    assert_eq!(overall_risk_status(Dec::from_u32(50), Dec::from_u32(30)), RiskSystemStatus::Caution);
    assert_eq!(overall_risk_status(Dec::new(4999, 2), Dec::from_u32(30)), RiskSystemStatus::AllSystemsGo);
    assert_eq!(overall_risk_status(Dec::from_u32(50), Dec::from_u32(81)), RiskSystemStatus::LimitApproaching);
    assert_eq!(overall_risk_status(Dec::from_u32(80), Dec::from_u32(10)), RiskSystemStatus::LimitApproaching);
    assert_eq!(overall_risk_status(Dec::from_u32(100), Dec::from_u32(10)), RiskSystemStatus::TradingLocked);
    assert_eq!(overall_risk_status(Dec::from_u32(10), Dec::from_u32(120)), RiskSystemStatus::TradingLocked);
}

#[test]
fn order_form_and_chart_lines() {
    let a = order_form_args("SBER".to_string(), OrderSide::Sell, "limit".to_string(), 3, "".to_string());
    assert_eq!(a.side, "sell");
    assert!(a.price.is_none());
    let b = order_form_args("SBER".to_string(), OrderSide::Buy, "stop".to_string(), 1, "249.5".to_string());
    assert_eq!(b.side, "buy");
    assert_eq!(b.price, Some("249.5".to_string()));
    assert_eq!(line_move_levels("tp", 260.5f64), (None, Some(260.5), None));
    assert_eq!(line_move_levels("trailing", 1u32), (None, None, Some(1)));
    assert_eq!(line_move_levels("entry", 1u32), (None, None, None));
}

#[test]
fn terminal_commands() {
    let mut h = terminal_greeting();
    assert_eq!(h.len(), 3);
    assert!(!run_terminal_command(&mut h, ""));
    assert_eq!(h.len(), 3);
    assert!(run_terminal_command(&mut h, "help"));
    assert_eq!(h.len(), 3 + 1 + 8);
    assert_eq!(h[3], "> help");
    assert_eq!(h[11], "  clear      - Clear terminal");
    run_terminal_command(&mut h, "status");
    assert_eq!(h[h.len() - 1], "Equity: ₽523,450");
    run_terminal_command(&mut h, "sell");
    assert_eq!(h[h.len() - 1], "Unknown command: sell");
    assert!(run_terminal_command(&mut h, "clear"));
    assert!(h.is_empty());
    assert_eq!(terminal_line_class("> help"), "text-success");
    assert_eq!(terminal_line_class("  status"), "text-muted pl-4");
    assert_eq!(terminal_line_class("Status"), "text-secondary");
}

#[test]
fn reconnect_backoff() {
    let delays: Vec<u32> = (0..8).map(reconnect_delay_ms).collect();
    assert_eq!(delays, vec![1000, 2000, 4000, 8000, 16000, 30000, 30000, 30000]);
    let (next, status) = schedule_reconnect(2);
    assert_eq!(next, 3);
    assert_eq!(status, ConnectionStatus::Reconnecting { attempt: 3, delay_ms: 4000 });
    assert!(status_notification(ConnectionStatus::Connected).is_none());
    let (t, b) = status_notification(ConnectionStatus::Error).unwrap();
    assert_eq!(t, "Connection Error");
    assert_eq!(b, "Failed to connect to trading server");
}

fn position_on(id: &str, symbol: &str) -> Position {
    Position {
        id: id.to_string(),
        symbol: symbol.to_string(),
        side: OrderSide::Buy,
        quantity: 1,
        entry_price: Dec::from_u32(250),
        current_price: Dec::from_u32(250),
        unrealized_pnl: Dec::zero(),
        unrealized_pnl_pct: Dec::zero(),
        stop_loss: None,
        take_profit: None,
        trailing_stop: None,
        open_time: "t".to_string(),
    }
}

#[test]
fn chart_draws_the_first_position_on_the_symbol() {
    let ps = vec![position_on("a", "GAZP"), position_on("b", "SBER"), position_on("c", "SBER")];
    assert_eq!(chart_position_index(&ps, "SBER"), Some(1));
    assert_eq!(chart_position_index(&ps, "GAZP"), Some(0));
    assert_eq!(chart_position_index(&ps, "LKOH"), None);
    assert_eq!(chart_position_index(&Vec::new(), "SBER"), None);
}

#[test]
fn balance_card_percentage_is_a_hundredth() {
    assert_eq!(decimal_text(daily_pnl_percent(Dec::new(12345, 2)).unwrap()), "1.2345");
    assert_eq!(decimal_text(daily_pnl_percent(Dec::from_u32(250)).unwrap()), "2.50");
    assert_eq!(decimal_text(daily_pnl_percent(Dec::new(-50, 0)).unwrap()), "-0.50");
}

#[test]
fn connection_events() {
    let start = on_connection_event(2, ConnectionEvent::Started);
    assert_eq!(start.attempt, 2);
    assert_eq!(start.statuses, vec![ConnectionStatus::Connecting]);
    assert!(!start.subscribe);
    assert!(start.reconnect_after_ms.is_none());
    let open = on_connection_event(4, ConnectionEvent::Opened);
    assert_eq!(open.attempt, 0);
    assert_eq!(open.statuses, vec![ConnectionStatus::Connected]);
    assert!(open.subscribe);
    assert!(open.reconnect_after_ms.is_none());
    let closed = on_connection_event(1, ConnectionEvent::Closed);
    assert_eq!(closed.attempt, 2);
    assert_eq!(closed.statuses, vec![ConnectionStatus::Reconnecting { attempt: 2, delay_ms: 2000 }]);
    assert_eq!(closed.reconnect_after_ms, Some(2000));
    assert!(!closed.subscribe);
    let failed = on_connection_event(7, ConnectionEvent::CreateFailed);
    assert_eq!(failed.attempt, 8);
    assert_eq!(
        failed.statuses,
        vec![ConnectionStatus::Error, ConnectionStatus::Reconnecting { attempt: 8, delay_ms: 30000 }]
    );
    assert_eq!(failed.reconnect_after_ms, Some(30000));
    let error = on_connection_event(3, ConnectionEvent::SocketError);
    assert_eq!(error.attempt, 3);
    assert_eq!(error.statuses, vec![ConnectionStatus::Error]);
    assert!(error.reconnect_after_ms.is_none());
}

#[test]
fn order_card_price_and_fill() {
    assert_eq!(order_price_text(Some(Dec::new(2504567, 4))), "250.45");
    assert_eq!(order_price_text(Some(Dec::from_u32(250))), "250.00");
    assert_eq!(order_price_text(Some(Dec::new(-15, 1))), "-1.50");
    assert_eq!(order_price_text(None), "MARKET");
    assert_eq!(fill_bar_class(10, 10), "bg-success");
    assert_eq!(fill_bar_class(12, 10), "bg-success");
    assert_eq!(fill_bar_class(9, 10), "bg-info");
    assert_eq!(fill_bar_class(0, 0), "bg-info");
}

#[test]
fn position_counter_and_timeframe_buttons() {
    assert_eq!(position_limit_level(0), RiskLevel::Normal);
    assert_eq!(position_limit_level(1), RiskLevel::Normal);
    assert_eq!(position_limit_level(2), RiskLevel::Warning);
    assert_eq!(position_limit_level(3), RiskLevel::Critical);
    assert_eq!(position_limit_level(7), RiskLevel::Critical);
    assert_eq!(
        timeframe_button_class(Timeframe::H1, Timeframe::H1),
        "px-2 py-1 text-xs rounded bg-active text-primary border border-focus"
    );
    assert_eq!(
        timeframe_button_class(Timeframe::H1, Timeframe::M5),
        "px-2 py-1 text-xs rounded bg-transparent text-secondary hover:text-primary"
    );
}

#[test]
fn kill_switch_confirmation() {
    assert_eq!(kill_switch_step(false, KillEvent::Click), (true, false));
    assert_eq!(kill_switch_step(true, KillEvent::Confirm), (true, true));
    assert_eq!(kill_switch_step(false, KillEvent::Confirm), (false, false));
    assert_eq!(kill_switch_step(true, KillEvent::Cancel), (false, false));
    assert_eq!(kill_switch_step(true, KillEvent::StopSucceeded), (false, false));
    assert_eq!(kill_switch_step(true, KillEvent::StopFailed), (true, false));
}
