use trading_dashboard::api::{timeframe_to_seconds, BackendState};
use trading_dashboard::decimal::{Dec, MAX_MAGNITUDE};
use trading_dashboard::models::{
    LogLevel, Order, OrderSide, OrderStatus, OrderType, Position, SignalAction, TradeSignal, TradingMode,
};
use trading_dashboard::state::{AlertSound, DashboardState, TerminalTab, Timeframe, UiEffect, WsEvent};

/// The text `rust_decimal` writes for an amount.
fn decimal_text(d: Dec) -> String {
    let mut x = rust_decimal::Decimal::from_i128_with_scale(d.magnitude as i128, d.scale);
    x.set_sign_negative(d.negative);
    x.to_string()
}

fn position(id: &str, symbol: &str, side: OrderSide, qty: u32, entry: u32) -> Position {
    Position {
        id: id.to_string(),
        symbol: symbol.to_string(),
        side,
        quantity: qty,
        entry_price: Dec::from_u32(entry),
        current_price: Dec::from_u32(entry),
        unrealized_pnl: Dec::zero(),
        unrealized_pnl_pct: Dec::zero(),
        stop_loss: None,
        take_profit: None,
        trailing_stop: None,
        open_time: "t".to_string(),
    }
}

fn order(id: &str, qty: u32) -> Order {
    Order {
        id: id.to_string(),
        symbol: "SBER".to_string(),
        side: OrderSide::Buy,
        order_type: OrderType::Limit,
        quantity: qty,
        price: None,
        filled_quantity: 0,
        status: OrderStatus::Working,
        created_at: "t".to_string(),
        time_in_force: "GTC".to_string(),
    }
}

fn signal(symbol: &str) -> TradeSignal {
    TradeSignal {
        symbol: symbol.to_string(),
        action: SignalAction::Sell,
        confidence: Dec::from_u32(75),
        price: Dec::new(25045, 2),
        stop_loss: Dec::from_u32(255),
        take_profit: Dec::from_u32(240),
        strategy: "s".to_string(),
        timeframe: "5m".to_string(),
        generated_at: "t".to_string(),
    }
}

fn apply(s: &mut DashboardState, ev: WsEvent) -> Vec<UiEffect> {
    s.apply_checked(ev, "12:00:00".to_string()).expect("update applies")
}

#[test]
fn defaults() {
    let s = DashboardState::default();
    assert_eq!(s.system.version, "5.0.0");
    assert_eq!(s.system.mode, TradingMode::Demo);
    assert!(!s.system.running);
    assert_eq!(s.system.health.status, "ok");
    assert_eq!(s.system.health.latency_ms, 45);
    assert_eq!(s.selected_timeframe, Timeframe::M5);
    assert_eq!(s.active_tab, TerminalTab::Logs);
    assert_eq!(s.selected_symbol, "");
    assert_eq!(Timeframe::H4.as_str(), "4h");
    assert_eq!(Timeframe::W1.as_str(), "1w");
}

#[test]
fn price_update_selects_symbol_and_recomputes_pnl() {
    let mut s = DashboardState::default();
    s.positions.push(position("a", "SBER", OrderSide::Buy, 10, 250));
    s.positions.push(position("b", "SBER", OrderSide::Sell, 2, 250));
    s.positions.push(position("c", "GAZP", OrderSide::Buy, 1, 165));
    let fx = apply(&mut s, WsEvent::PriceUpdate { symbol: "SBER".to_string(), price: Some(Dec::new(2525, 1)) });
    assert!(fx.is_empty());
    assert_eq!(s.selected_symbol, "SBER");
    assert_eq!(decimal_text(s.positions[0].unrealized_pnl), "25.0");
    assert_eq!(decimal_text(s.positions[1].unrealized_pnl), "-5.0");
    assert_eq!(decimal_text(s.positions[2].current_price), "165");
    // a price that could not be read keeps the shown price
    apply(&mut s, WsEvent::PriceUpdate { symbol: "GAZP".to_string(), price: None });
    assert_eq!(decimal_text(s.positions[2].current_price), "165");
    assert_eq!(decimal_text(s.positions[2].unrealized_pnl), "0");
}

#[test]
fn overflowing_price_update_is_refused() {
    let mut s = DashboardState::default();
    let mut p = position("a", "SBER", OrderSide::Buy, 3, 0);
    p.entry_price = Dec::from_parts(true, MAX_MAGNITUDE, 0).unwrap();
    s.positions.push(p);
    let r = s.apply_checked(WsEvent::PriceUpdate { symbol: "SBER".to_string(), price: Some(Dec::from_u32(1)) }, "x".to_string());
    assert!(r.is_none());
    assert_eq!(s.selected_symbol, "");
}

#[test]
fn position_update_replaces_given_amounts() {
    let mut s = DashboardState::default();
    s.positions.push(position("a", "SBER", OrderSide::Buy, 1, 250));
    apply(&mut s, WsEvent::PositionUpdate { id: "a".to_string(), unrealized_pnl: Some(Dec::from_u32(7)), current_price: None });
    assert_eq!(decimal_text(s.positions[0].unrealized_pnl), "7");
    assert_eq!(decimal_text(s.positions[0].current_price), "250");
}

#[test]
fn signals_keep_ten_and_notify() {
    let mut s = DashboardState::default();
    for i in 0..11 {
        let fx = apply(&mut s, WsEvent::SignalGenerated { signal: signal(&format!("S{}", i)) });
        assert_eq!(fx.len(), 2);
        assert!(matches!(fx[0], UiEffect::PlaySound(AlertSound::Signal)));
        match &fx[1] {
            UiEffect::Notify { title, body } => {
                assert_eq!(title, &format!("Signal: S{}", i));
                assert_eq!(body, "Sell @ 250.45");
            }
            other => panic!("unexpected {:?}", other),
        }
    }
    assert_eq!(s.signals.len(), 10);
    assert_eq!(s.signals[0].symbol, "S1");
}

#[test]
fn order_fill_sets_status_and_notifies_when_complete() {
    let mut s = DashboardState::default();
    s.orders.push(order("o1", 10));
    s.orders.push(order("o2", 5));
    let fx = apply(&mut s, WsEvent::OrderFilled { order_id: "o1".to_string(), filled_qty: 4 });
    assert!(fx.is_empty());
    assert_eq!(s.orders[0].status, OrderStatus::PartiallyFilled);
    assert_eq!(s.orders[0].filled_quantity, 4);
    let fx = apply(&mut s, WsEvent::OrderFilled { order_id: "o2".to_string(), filled_qty: 5 });
    assert_eq!(s.orders[1].status, OrderStatus::Filled);
    assert_eq!(fx.len(), 2);
    assert!(matches!(fx[0], UiEffect::PlaySound(AlertSound::OrderFilled)));
    assert!(matches!(fx[1], UiEffect::OrderFilledNotice { index: 1 }));
}

#[test]
fn order_update_replaces_or_appends() {
    let mut s = DashboardState::default();
    s.orders.push(order("o1", 10));
    let mut changed = order("o1", 20);
    changed.status = OrderStatus::Cancelled;
    apply(&mut s, WsEvent::OrderUpdate { order: changed });
    assert_eq!(s.orders.len(), 1);
    assert_eq!(s.orders[0].quantity, 20);
    assert_eq!(s.orders[0].status, OrderStatus::Cancelled);
    apply(&mut s, WsEvent::OrderUpdate { order: order("o2", 1) });
    assert_eq!(s.orders.len(), 2);
    assert_eq!(s.orders[1].id, "o2");
}

#[test]
fn risk_alerts_log_and_sound() {
    let mut s = DashboardState::default();
    let fx = apply(&mut s, WsEvent::RiskAlert { level: "CRITICAL".to_string(), message: "drawdown 9%".to_string() });
    assert_eq!(s.logs[0].message, "[RISK CRITICAL] drawdown 9%");
    assert_eq!(s.logs[0].level, LogLevel::Error);
    assert_eq!(s.logs[0].source, "risk");
    assert_eq!(s.logs[0].timestamp, "12:00:00");
    assert!(matches!(fx[0], UiEffect::PlaySound(AlertSound::Emergency)));
    match &fx[1] {
        UiEffect::Notify { title, body } => {
            assert_eq!(title, "RISK ALERT");
            assert_eq!(body, "drawdown 9%");
        }
        other => panic!("unexpected {:?}", other),
    }
    let fx = apply(&mut s, WsEvent::RiskAlert { level: "WARN".to_string(), message: "m".to_string() });
    assert_eq!(s.logs[1].level, LogLevel::Warn);
    assert_eq!(fx.len(), 1);
    assert!(matches!(fx[0], UiEffect::PlaySound(AlertSound::RiskAlert)));
    let fx = apply(&mut s, WsEvent::RiskAlert { level: "NOTE".to_string(), message: "m".to_string() });
    assert_eq!(s.logs[2].level, LogLevel::Info);
    assert!(fx.is_empty());
}

#[test]
fn system_status_updates_mode_running_health() {
    let mut s = DashboardState::default();
    apply(&mut s, WsEvent::SystemStatus { mode: "LIVE".to_string(), running: true, health: "degraded".to_string() });
    assert_eq!(s.system.mode, TradingMode::Live);
    assert!(s.system.running);
    assert_eq!(s.system.health.status, "degraded");
    apply(&mut s, WsEvent::SystemStatus { mode: "paper".to_string(), running: false, health: "ok".to_string() });
    assert_eq!(s.system.mode, TradingMode::Paper);
    apply(&mut s, WsEvent::SystemStatus { mode: "backtest".to_string(), running: false, health: "ok".to_string() });
    assert_eq!(s.system.mode, TradingMode::Off);
}

#[test]
fn log_stream_keeps_the_newest_thousand() {
    let mut s = DashboardState::default();
    for i in 0..1002 {
        apply(&mut s, WsEvent::LogAppend { level: "DEBUG".to_string(), message: format!("l{}", i), source: "bot".to_string() });
    }
    assert_eq!(s.logs.len(), 1000);
    assert_eq!(s.logs[0].message, "l2");
    assert_eq!(s.logs[0].level, LogLevel::Debug);
}

#[test]
fn heartbeats_change_nothing() {
    let mut s = DashboardState::default();
    assert!(apply(&mut s, WsEvent::Ping).is_empty());
    assert!(apply(&mut s, WsEvent::SignalStale { symbol: "SBER".to_string(), age_seconds: 90 }).is_empty());
    let fx = s.apply_now(WsEvent::LogAppend { level: "INFO".to_string(), message: "m".to_string(), source: "s".to_string() });
    assert!(fx.unwrap().is_empty());
    assert_eq!(s.logs[0].timestamp.len(), 8);
}

#[test]
fn dashboard_and_backend_agree_on_pnl() {
    let mut page = DashboardState::default();
    let mut backend = BackendState::new("t".to_string());
    for (id, side, qty) in [("a", OrderSide::Buy, 7), ("b", OrderSide::Sell, 3)] {
        page.positions.push(position(id, "LKOH", side, qty, 6500));
        backend.positions.push(position(id, "LKOH", side, qty, 6500));
    }
    apply(&mut page, WsEvent::PriceUpdate { symbol: "LKOH".to_string(), price: Some(Dec::new(64875, 1)) });
    assert!(backend.update_price("LKOH", Dec::new(64875, 1)));
    for i in 0..2 {
        assert_eq!(decimal_text(page.positions[i].unrealized_pnl), decimal_text(backend.positions[i].unrealized_pnl));
    }
    assert_eq!(decimal_text(page.positions[0].unrealized_pnl), "-87.5");
}

#[test]
fn every_offered_timeframe_has_its_candle_length() {
    let expected = [
        (Timeframe::M1, 60),
        (Timeframe::M5, 300),
        (Timeframe::M15, 900),
        (Timeframe::M30, 1800),
        (Timeframe::H1, 3600),
        (Timeframe::H4, 14400),
        (Timeframe::D1, 86400),
        (Timeframe::W1, 300),
    ];
    for (tf, secs) in expected {
        assert_eq!(timeframe_to_seconds(tf.as_str()), secs);
    }
}

#[test]
fn terminal_collapse_and_tabs() {
    let mut s = DashboardState::default();
    assert_eq!(s.shown_tab(), Some(TerminalTab::Logs));
    s.select_tab(TerminalTab::Metrics);
    assert_eq!(s.active_tab, TerminalTab::Metrics);
    s.toggle_terminal();
    assert!(s.terminal_collapsed);
    assert_eq!(s.shown_tab(), None);
    assert_eq!(s.active_tab, TerminalTab::Metrics);
    s.toggle_terminal();
    assert!(!s.terminal_collapsed);
    assert_eq!(s.shown_tab(), Some(TerminalTab::Metrics));
}
