use trading_dashboard::models::LogLevel;
use trading_dashboard::ws_client::dashboard_subscription;
use trading_dashboard::ws_server::{
    client_id_for, log_level_wire_name, new_client_id, ClientRequest, ClientSession, HeartbeatAction,
    OutboundKind, SessionReply,
};

fn session() -> ClientSession {
    ClientSession::new("c1".to_string(), 1000)
}

#[test]
fn new_sessions_subscribe_to_the_default_channels() {
    let s = session();
    assert_eq!(s.channels, vec!["prices", "positions", "orders", "signals", "logs"]);
    assert!(s.should_send(OutboundKind::PriceUpdate));
    assert!(s.should_send(OutboundKind::OrderFilled));
    assert!(s.should_send(OutboundKind::OrderUpdate));
    assert!(s.should_send(OutboundKind::LogAppend));
    assert!(!s.should_send(OutboundKind::RiskAlert));
    assert!(s.should_send(OutboundKind::SystemStatus));
    assert!(s.should_send(OutboundKind::SignalStale));
}

#[test]
fn ping_pong_subscribe_unsubscribe() {
    let mut s = session();
    assert_eq!(s.on_request(ClientRequest::Ping, 5000), SessionReply::SendPong);
    assert_eq!(s.last_pong_ms, 1000);
    assert_eq!(s.on_request(ClientRequest::Pong, 5000), SessionReply::Nothing);
    assert_eq!(s.last_pong_ms, 5000);
    s.on_request(ClientRequest::Unsubscribe { channels: vec!["prices".to_string(), "logs".to_string()] }, 6000);
    assert_eq!(s.channels, vec!["positions", "orders", "signals"]);
    assert!(!s.should_send(OutboundKind::PriceUpdate));
    assert!(!s.should_send(OutboundKind::LogAppend));
    s.on_request(ClientRequest::Subscribe { channels: vec!["risks".to_string()] }, 7000);
    assert_eq!(s.channels, vec!["risks"]);
    assert!(s.should_send(OutboundKind::RiskAlert));
    assert!(!s.should_send(OutboundKind::SignalGenerated));
    assert_eq!(s.on_request(ClientRequest::Other, 8000), SessionReply::Nothing);
    assert_eq!(s.channels, vec!["risks"]);
}

#[test]
fn heartbeat_times_out_after_sixty_seconds() {
    let s = session();
    assert_eq!(s.on_heartbeat(61000), HeartbeatAction::SendPing);
    assert_eq!(s.on_heartbeat(61001), HeartbeatAction::TimedOut);
    assert_eq!(s.on_heartbeat(500), HeartbeatAction::SendPing);
}

#[test]
fn client_ids() {
    assert_eq!(
        client_id_for("127.0.0.1:5000", "1b4e28ba-2fa1-11d2-883f-0016d3cca427"),
        "127.0.0.1:5000-1b4e28ba"
    );
    let id = new_client_id("127.0.0.1:5000");
    assert_eq!(id.len(), "127.0.0.1:5000".len() + 9);
    assert!(id.starts_with("127.0.0.1:5000-"));
    assert!(id[15..].chars().all(|c| c.is_ascii_hexdigit() && !c.is_ascii_uppercase()));
}

#[test]
fn wire_level_names() {
    assert_eq!(log_level_wire_name(LogLevel::Info), "INFO");
    assert_eq!(log_level_wire_name(LogLevel::Warn), "WARN");
    assert_eq!(log_level_wire_name(LogLevel::Error), "ERROR");
    assert_eq!(log_level_wire_name(LogLevel::Debug), "DEBUG");
}

#[test]
fn dashboard_subscription_receives_every_kind() {
    let mut s = session();
    let channels = dashboard_subscription();
    assert_eq!(channels, vec!["prices", "positions", "orders", "signals", "logs", "risks"]);
    s.on_request(ClientRequest::Subscribe { channels }, 2000);
    for kind in [
        OutboundKind::PriceUpdate,
        OutboundKind::PositionUpdate,
        OutboundKind::PositionLevels,
        OutboundKind::SignalGenerated,
        OutboundKind::SignalStale,
        OutboundKind::OrderFilled,
        OutboundKind::OrderUpdate,
        OutboundKind::RiskAlert,
        OutboundKind::SystemStatus,
        OutboundKind::LogAppend,
        OutboundKind::Ping,
    ] {
        assert!(s.should_send(kind));
    }
}
