use trading_dashboard::api::{
    history_key, in_time_range, last_n, mock_base_price, mock_candle_times, timeframe_to_seconds, BackendState,
    ClosePositionArgs, GetLogsArgs, GetOrdersArgs, PlaceOrderArgs, StartTradingArgs, LOG_CAPACITY,
};
use trading_dashboard::decimal::{Dec, MAX_MAGNITUDE};
use trading_dashboard::models::{
    LogLevel, OrderSide, OrderStatus, OrderType, Position, SignalAction, TradeSignal, TradingMode,
};

/// The text `rust_decimal` writes for an amount.
fn decimal_text(d: Dec) -> String {
    let mut x = rust_decimal::Decimal::from_i128_with_scale(d.magnitude as i128, d.scale);
    x.set_sign_negative(d.negative);
    x.to_string()
}

fn position(id: &str, symbol: &str, side: OrderSide, quantity: u32, entry: Dec) -> Position {
    Position {
        id: id.to_string(),
        symbol: symbol.to_string(),
        side,
        quantity,
        entry_price: entry,
        current_price: entry,
        unrealized_pnl: Dec::zero(),
        unrealized_pnl_pct: Dec::zero(),
        stop_loss: None,
        take_profit: None,
        trailing_stop: None,
        open_time: "2024-01-01T00:00:00+00:00".to_string(),
    }
}

fn signal(symbol: &str) -> TradeSignal {
    TradeSignal {
        symbol: symbol.to_string(),
        action: SignalAction::Buy,
        confidence: Dec::from_u32(80),
        price: Dec::new(25000, 2),
        stop_loss: Dec::new(24500, 2),
        take_profit: Dec::new(26000, 2),
        strategy: "trend".to_string(),
        timeframe: "5m".to_string(),
        generated_at: "t".to_string(),
    }
}

fn state() -> BackendState {
    BackendState::new("2024-01-01T00:00:00+00:00".to_string())
}

#[test]
fn starts_off_in_demo_with_five_thousand() {
    let s = state();
    assert_eq!(s.system.version, "5.0.0");
    assert_eq!(s.system.mode, TradingMode::Off);
    assert!(!s.system.running);
    assert!(s.system.demo_mode);
    assert_eq!(s.system.health.status, "initializing");
    assert_eq!(decimal_text(s.portfolio.total_equity), "5000.00");
    assert_eq!(decimal_text(s.portfolio.available_balance), "5000.00");
    assert!(s.positions.is_empty() && s.orders.is_empty() && s.logs.is_empty());
    let now = BackendState::new_now();
    assert!(!now.system.timestamp.is_empty());
}

#[test]
fn start_trading_selects_mode_and_logs() {
    let mut s = state();
    let r = s.start_trading(&StartTradingArgs { mode: "live".to_string() }, true);
    assert_eq!(r, Ok("Trading started in live mode".to_string()));
    assert_eq!(s.system.mode, TradingMode::Live);
    assert!(s.system.running);
    assert_eq!(s.logs.len(), 1);
    assert_eq!(s.logs[0].message, "Trading started in live mode");
    assert_eq!(s.logs[0].source, "api");
    assert_eq!(s.logs[0].level, LogLevel::Info);
    s.stop_trading().unwrap();
    s.start_trading(&StartTradingArgs { mode: "paper".to_string() }, true).unwrap();
    assert_eq!(s.system.mode, TradingMode::Paper);
    assert_eq!(s.get_bot_status().mode, TradingMode::Paper);
}

#[test]
fn start_trading_refusals_change_nothing() {
    let mut s = state();
    let r = s.start_trading(&StartTradingArgs { mode: "demo".to_string() }, true);
    assert_eq!(r, Err("Invalid mode".to_string()));
    let r = s.start_trading(&StartTradingArgs { mode: "backtest".to_string() }, true);
    assert_eq!(r, Err("Invalid mode".to_string()));
    let r = s.start_trading(&StartTradingArgs { mode: "live".to_string() }, false);
    assert_eq!(r, Err("API token not configured".to_string()));
    assert!(!s.system.running);
    assert_eq!(s.system.mode, TradingMode::Off);
    assert!(s.logs.is_empty());
    s.start_trading(&StartTradingArgs { mode: "paper".to_string() }, true).unwrap();
    let r = s.start_trading(&StartTradingArgs { mode: "live".to_string() }, true);
    assert_eq!(r, Err("Already running".to_string()));
    assert_eq!(s.system.mode, TradingMode::Paper);
    assert_eq!(s.logs.len(), 1);
}

#[test]
fn stop_keeps_positions_emergency_closes_them() {
    let mut s = state();
    s.positions.push(position("p1", "SBER", OrderSide::Buy, 10, Dec::from_u32(250)));
    s.positions.push(position("p2", "GAZP", OrderSide::Sell, 1, Dec::from_u32(165)));
    s.positions[0].unrealized_pnl = Dec::new(125, 1);
    s.positions[1].unrealized_pnl = Dec::new(-250, 2);
    s.start_trading(&StartTradingArgs { mode: "paper".to_string() }, true).unwrap();
    assert_eq!(s.stop_trading(), Ok("Trading stopped".to_string()));
    assert!(!s.system.running);
    assert_eq!(s.system.mode, TradingMode::Off);
    assert_eq!(s.positions.len(), 2);
    let args = PlaceOrderArgs {
        symbol: "SBER".to_string(),
        side: "buy".to_string(),
        order_type: "market".to_string(),
        quantity: 1,
        price: None,
    };
    s.place_order_with(&args, "o1".to_string(), "t".to_string()).unwrap();
    s.place_order_with(&args, "o2".to_string(), "t".to_string()).unwrap();
    s.orders[1].status = OrderStatus::Filled;
    s.place_order_with(&args, "o3".to_string(), "t".to_string()).unwrap();
    let res = s.emergency_stop().unwrap();
    assert_eq!(res.positions_closed, 2);
    assert_eq!(res.orders_cancelled, 2);
    assert_eq!(decimal_text(res.total_pnl.unwrap()), "10.00");
    assert!(s.positions.is_empty());
    assert_eq!(s.orders.len(), 3);
    assert_eq!(s.orders[0].status, OrderStatus::Cancelled);
    assert_eq!(s.orders[1].status, OrderStatus::Filled);
    assert_eq!(s.orders[2].status, OrderStatus::Cancelled);
    assert_eq!(s.orders[2].id, "o3");
    let last = s.logs.last().unwrap();
    assert_eq!(last.level, LogLevel::Error);
    assert_eq!(last.message, "EMERGENCY STOP ACTIVATED - All positions closed");
    let again = s.emergency_stop().unwrap();
    assert_eq!((again.positions_closed, again.orders_cancelled), (0, 0));
    assert_eq!(decimal_text(again.total_pnl.unwrap()), "0");
}

#[test]
fn close_position_removes_only_that_id_and_is_idempotent() {
    let mut s = state();
    s.positions.push(position("a", "SBER", OrderSide::Buy, 1, Dec::from_u32(1)));
    s.positions.push(position("b", "GAZP", OrderSide::Sell, 1, Dec::from_u32(1)));
    s.positions.push(position("a", "LKOH", OrderSide::Buy, 1, Dec::from_u32(1)));
    let r = s.close_position(&ClosePositionArgs { position_id: "a".to_string() });
    assert_eq!(r, Ok("Position a closed".to_string()));
    assert_eq!(s.positions.len(), 1);
    assert_eq!(s.positions[0].id, "b");
    assert_eq!(s.logs.len(), 1);
    let again = s.close_position(&ClosePositionArgs { position_id: "a".to_string() });
    assert_eq!(again, Err("Position a not found".to_string()));
    assert_eq!(s.positions.len(), 1);
    assert_eq!(s.logs.len(), 1);
    assert_eq!(s.get_positions().len(), 1);
}

#[test]
fn place_order_records_a_pending_order() {
    let mut s = state();
    let args = PlaceOrderArgs {
        symbol: "SBER".to_string(),
        side: "buy".to_string(),
        order_type: "limit".to_string(),
        quantity: 10,
        price: Some("250.45".to_string()),
    };
    assert_eq!(s.place_order(&args), Ok("Order placed successfully".to_string()));
    let o = &s.orders[0];
    assert!(o.id.starts_with("order-"));
    assert_eq!(o.id.len(), 42);
    assert_eq!(o.side, OrderSide::Buy);
    assert_eq!(o.order_type, OrderType::Limit);
    assert_eq!(o.status, OrderStatus::Pending);
    assert_eq!(o.filled_quantity, 0);
    assert_eq!(o.time_in_force, "GTC");
    assert_eq!(decimal_text(o.price.unwrap()), "250.45");
    assert_eq!(s.logs[0].message, "Order placed: buy SBER 10");
    assert_eq!(s.get_orders(&GetOrdersArgs { status: None, limit: None }).len(), 1);
}

#[test]
fn place_order_with_defaults_sell_market_and_no_price() {
    let mut s = state();
    let args = PlaceOrderArgs {
        symbol: "GAZP".to_string(),
        side: "short".to_string(),
        order_type: "iceberg".to_string(),
        quantity: 3,
        price: Some("not a number".to_string()),
    };
    s.place_order_with(&args, "order-x".to_string(), "now".to_string()).unwrap();
    let o = &s.orders[0];
    assert_eq!(o.id, "order-x");
    assert_eq!(o.created_at, "now");
    assert_eq!(o.side, OrderSide::Sell);
    assert_eq!(o.order_type, OrderType::Market);
    assert!(o.price.is_none());
    let stop = PlaceOrderArgs { order_type: "stop".to_string(), price: Some("240".to_string()), ..args };
    s.place_order_with(&stop, "order-y".to_string(), "now".to_string()).unwrap();
    assert_eq!(s.orders[1].order_type, OrderType::Stop);
    assert_eq!(decimal_text(s.orders[1].price.unwrap()), "240");
}

#[test]
fn invalid_orders_are_refused() {
    let mut s = state();
    let zero = PlaceOrderArgs {
        symbol: "SBER".to_string(),
        side: "buy".to_string(),
        order_type: "market".to_string(),
        quantity: 0,
        price: None,
    };
    assert_eq!(s.place_order(&zero), Err("Quantity must be > 0".to_string()));
    let limit = PlaceOrderArgs { quantity: 5, order_type: "limit".to_string(), ..zero };
    assert_eq!(s.place_order(&limit), Err("Limit order requires price".to_string()));
    let bad_price = PlaceOrderArgs { price: Some("abc".to_string()), ..limit };
    assert_eq!(s.place_order(&bad_price), Err("Limit order requires price".to_string()));
    let stop = PlaceOrderArgs { order_type: "stop".to_string(), price: None, ..bad_price };
    assert_eq!(s.place_order_with(&stop, "x".to_string(), "t".to_string()), Err("Stop order requires price".to_string()));
    assert!(s.orders.is_empty());
    assert!(s.logs.is_empty());
}

#[test]
fn get_orders_filters_by_status_and_limits() {
    let mut s = state();
    let args = PlaceOrderArgs {
        symbol: "SBER".to_string(),
        side: "buy".to_string(),
        order_type: "market".to_string(),
        quantity: 1,
        price: None,
    };
    for i in 0..120 {
        s.place_order_with(&args, format!("o{}", i), "t".to_string()).unwrap();
    }
    s.orders[3].status = OrderStatus::Filled;
    s.orders[7].status = OrderStatus::Filled;
    s.orders[9].status = OrderStatus::Cancelled;
    assert_eq!(s.get_orders(&GetOrdersArgs { status: None, limit: None }).len(), 100);
    let filled = s.get_orders(&GetOrdersArgs { status: Some("filled".to_string()), limit: None });
    assert_eq!(filled.len(), 2);
    assert_eq!(filled[0].id, "o3");
    assert_eq!(filled[1].id, "o7");
    let pending = s.get_orders(&GetOrdersArgs { status: Some("pending".to_string()), limit: Some(2) });
    assert_eq!(pending.len(), 2);
    assert_eq!(pending[0].id, "o0");
    assert_eq!(pending[1].id, "o1");
    assert_eq!(s.get_orders(&GetOrdersArgs { status: Some("cancelled".to_string()), limit: Some(500) }).len(), 1);
    assert!(s.get_orders(&GetOrdersArgs { status: Some("bogus".to_string()), limit: None }).is_empty());
    assert_eq!(s.get_orders(&GetOrdersArgs { status: None, limit: Some(500) }).len(), 120);
}

#[test]
fn log_keeps_the_newest_thousand() {
    let mut s = state();
    for i in 0..(LOG_CAPACITY + 5) {
        s.add_log_at(LogLevel::Debug, format!("m{}", i), "t".to_string(), "ts".to_string());
    }
    assert_eq!(s.logs.len(), LOG_CAPACITY);
    assert_eq!(s.logs[0].message, "m5");
    assert_eq!(s.logs[LOG_CAPACITY - 1].message, format!("m{}", LOG_CAPACITY + 4));
}

#[test]
fn get_logs_returns_newest_first() {
    let mut s = state();
    for i in 0..5 {
        s.add_log(LogLevel::Info, &format!("m{}", i), "api");
    }
    let two = s.get_logs(&GetLogsArgs { limit: Some(2) });
    assert_eq!(two.len(), 2);
    assert_eq!(two[0].message, "m4");
    assert_eq!(two[1].message, "m3");
    let all = s.get_logs(&GetLogsArgs { limit: None });
    assert_eq!(all.len(), 5);
    assert_eq!(all[4].message, "m0");
    assert!(s.get_logs(&GetLogsArgs { limit: Some(0) }).is_empty());
}

#[test]
fn signals_keep_the_newest_ten() {
    let mut s = state();
    for i in 0..12 {
        s.add_signal(signal(&format!("S{}", i)));
    }
    assert_eq!(s.signals.len(), 10);
    assert_eq!(s.signals[0].symbol, "S2");
    assert_eq!(s.get_signals()[9].symbol, "S11");
}

#[test]
fn price_update_marks_buys_and_sells() {
    let mut s = state();
    s.positions.push(position("long", "SBER", OrderSide::Buy, 10, Dec::from_u32(250)));
    s.positions.push(position("short", "SBER", OrderSide::Sell, 10, Dec::from_u32(250)));
    s.positions.push(position("other", "GAZP", OrderSide::Buy, 10, Dec::from_u32(165)));
    assert!(s.update_price("SBER", Dec::from_u32(255)));
    assert_eq!(decimal_text(s.positions[0].unrealized_pnl), "50");
    assert_eq!(decimal_text(s.positions[0].unrealized_pnl_pct), "2.00");
    assert_eq!(decimal_text(s.positions[0].current_price), "255");
    assert_eq!(decimal_text(s.positions[1].unrealized_pnl), "-50");
    assert_eq!(decimal_text(s.positions[1].unrealized_pnl_pct), "-2.00");
    assert_eq!(decimal_text(s.positions[2].current_price), "165");
    assert_eq!(decimal_text(s.positions[2].unrealized_pnl), "0");
    // marking again at the same price changes nothing
    assert!(s.update_price("SBER", Dec::from_u32(255)));
    assert_eq!(decimal_text(s.positions[0].unrealized_pnl), "50");
}

#[test]
fn price_update_with_zero_entry_keeps_percentage() {
    let mut s = state();
    let mut p = position("z", "SBER", OrderSide::Buy, 5, Dec::zero());
    p.unrealized_pnl_pct = Dec::new(7, 0);
    s.positions.push(p);
    assert!(s.update_price("SBER", Dec::from_u32(2)));
    assert_eq!(decimal_text(s.positions[0].unrealized_pnl), "10");
    assert_eq!(decimal_text(s.positions[0].unrealized_pnl_pct), "7");
}

#[test]
fn price_update_that_overflows_changes_nothing() {
    let mut s = state();
    let huge = Dec::from_parts(false, MAX_MAGNITUDE, 0).unwrap();
    s.positions.push(position("h", "SBER", OrderSide::Sell, 2, huge));
    assert!(!s.update_price("SBER", Dec::zero()));
    assert_eq!(decimal_text(s.positions[0].current_price), decimal_text(huge));
    assert!(s.update_price("GAZP", Dec::zero()));
}

#[test]
fn modify_levels_on_first_matching_position() {
    let mut s = state();
    s.positions.push(position("p", "SBER", OrderSide::Buy, 1, Dec::from_u32(250)));
    s.positions.push(position("p", "GAZP", OrderSide::Buy, 1, Dec::from_u32(165)));
    let (m, levels) = s.modify_position_sl_tp("p", Some(Dec::from_u32(240)), None, Some(Dec::from_u32(245))).unwrap();
    assert_eq!(m, "Position p SL/TP updated");
    assert_eq!(levels.id, "p");
    assert_eq!(decimal_text(levels.stop_loss.unwrap()), "240");
    assert!(levels.take_profit.is_none());
    assert_eq!(decimal_text(levels.trailing_stop.unwrap()), "245");
    assert_eq!(decimal_text(s.positions[0].stop_loss.unwrap()), "240");
    assert!(s.positions[0].take_profit.is_none());
    assert_eq!(decimal_text(s.positions[0].trailing_stop.unwrap()), "245");
    assert!(s.positions[1].stop_loss.is_none());
    let e = s.modify_position_sl_tp("q", None, Some(Dec::from_u32(1)), None);
    assert_eq!(e.unwrap_err(), "Position q not found");
}

#[test]
fn chart_helpers() {
    assert_eq!(timeframe_to_seconds("1m"), 60);
    assert_eq!(timeframe_to_seconds("4h"), 14400);
    assert_eq!(timeframe_to_seconds("1d"), 86400);
    assert_eq!(timeframe_to_seconds("1w"), 300);
    assert_eq!(timeframe_to_seconds("15"), 900);
    assert_eq!(timeframe_to_seconds("1"), 60);
    assert_eq!(timeframe_to_seconds("60"), 3600);
    assert_eq!(timeframe_to_seconds("240"), 14400);
    assert_eq!(timeframe_to_seconds("D"), 86400);
    assert_eq!(mock_base_price("SBER"), 250);
    assert_eq!(mock_base_price("PLZL"), 12000);
    assert_eq!(mock_base_price("AAPL"), 100);
    assert_eq!(history_key("SBER", "5m"), "SBER_5m");
    assert_eq!(mock_candle_times(1000, 3, 60), vec![820, 880, 940]);
    assert!(mock_candle_times(1000, 0, 60).is_empty());
    assert_eq!(last_n(&vec![1, 2, 3, 4], 2), vec![3, 4]);
    assert_eq!(last_n(&vec![1, 2], 5), vec![1, 2]);
    assert!(last_n(&vec![1, 2], 0).is_empty());
}

#[test]
fn bot_signals_are_kept_and_announced() {
    let mut s = state();
    let mut sig = signal("GAZP");
    sig.action = SignalAction::Sell;
    s.record_bot_signal(sig);
    assert_eq!(s.signals.len(), 1);
    assert_eq!(s.signals[0].symbol, "GAZP");
    assert_eq!(s.logs.len(), 1);
    assert_eq!(s.logs[0].message, "New signal: SELL GAZP");
    assert_eq!(s.logs[0].source, "websocket");
    assert_eq!(s.logs[0].level, LogLevel::Info);
}

#[test]
fn candle_time_ranges() {
    assert!(in_time_range(100, None, None));
    assert!(in_time_range(100, Some(100), Some(100)));
    assert!(!in_time_range(99, Some(100), None));
    assert!(!in_time_range(101, None, Some(100)));
}
