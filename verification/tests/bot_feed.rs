use trading_dashboard::decimal::Dec;
use trading_dashboard::models::{LogLevel, SignalAction};
use trading_dashboard::websocket::{bot_log_level_of, route_bot_message, signal_announcement, BotMessage};

/// The text `rust_decimal` writes for an amount.
fn decimal_text(d: Dec) -> String {
    let mut x = rust_decimal::Decimal::from_i128_with_scale(d.magnitude as i128, d.scale);
    x.set_sign_negative(d.negative);
    x.to_string()
}

#[test]
fn price_messages_carry_symbol_and_decimal_price() {
    match route_bot_message(r#"{"type":"price","symbol":"SBER","price":"250.45"}"#) {
        BotMessage::Price { symbol, price } => {
            assert_eq!(symbol, "SBER");
            assert_eq!(decimal_text(price), "250.45");
        }
        other => panic!("unexpected {:?}", other),
    }
}

#[test]
fn malformed_price_messages_are_ignored() {
    assert!(matches!(route_bot_message(r#"{"type":"price","symbol":"SBER"}"#), BotMessage::Ignored));
    assert!(matches!(route_bot_message(r#"{"type":"price","symbol":"SBER","price":250}"#), BotMessage::Ignored));
    assert!(matches!(route_bot_message(r#"{"type":"price","symbol":"SBER","price":"x"}"#), BotMessage::Ignored));
}

#[test]
fn signal_log_and_unhandled_types() {
    assert!(matches!(route_bot_message(r#"{"type":"signal","data":{}}"#), BotMessage::Signal));
    assert!(matches!(route_bot_message(r#"{"type":"position"}"#), BotMessage::Ignored));
    assert!(matches!(route_bot_message(r#"{"type":"order"}"#), BotMessage::Ignored));
    match route_bot_message(r#"{"type":"log","level":"WARN","message":"slow"}"#) {
        BotMessage::Log { level, message } => {
            assert_eq!(level, LogLevel::Warn);
            assert_eq!(message, "slow");
        }
        other => panic!("unexpected {:?}", other),
    }
    assert!(matches!(route_bot_message(r#"{"type":"log","level":"WARN"}"#), BotMessage::Ignored));
}

#[test]
fn untyped_json_may_be_a_snapshot_and_garbage_is_ignored() {
    assert!(matches!(route_bot_message(r#"{"version":"5.0.0","running":true}"#), BotMessage::Snapshot));
    assert!(matches!(route_bot_message(r#"{"type":"heartbeat"}"#), BotMessage::Snapshot));
    assert!(matches!(route_bot_message(r#"{"type":7}"#), BotMessage::Snapshot));
    assert!(matches!(route_bot_message("not json"), BotMessage::Ignored));
    assert!(matches!(route_bot_message(""), BotMessage::Ignored));
}

#[test]
fn bot_log_levels() {
    assert_eq!(bot_log_level_of("ERROR"), LogLevel::Error);
    assert_eq!(bot_log_level_of("WARN"), LogLevel::Warn);
    assert_eq!(bot_log_level_of("DEBUG"), LogLevel::Debug);
    assert_eq!(bot_log_level_of("INFO"), LogLevel::Info);
    assert_eq!(bot_log_level_of("error"), LogLevel::Info);
}

#[test]
fn signal_announcements() {
    assert_eq!(signal_announcement(SignalAction::Buy, "SBER"), "New signal: BUY SBER");
    assert_eq!(signal_announcement(SignalAction::Sell, "GAZP"), "New signal: SELL GAZP");
    assert_eq!(signal_announcement(SignalAction::Hold, "LKOH"), "New signal: HOLD LKOH");
}
