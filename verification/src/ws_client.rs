//! The dashboard's connection to the server: its states and the exponential
//! back-off between reconnection attempts.
use crate::ws_server::texts;
use vstd::prelude::*;

verus! {

/// The wait before the first reconnection attempt.
pub const RECONNECT_BASE_DELAY_MS: u32 = 1000u32;

/// The longest wait between reconnection attempts.
pub const MAX_RECONNECT_DELAY_MS: u32 = 30000u32;

/// How often the dashboard expects a heartbeat.
pub const CLIENT_HEARTBEAT_INTERVAL_MS: u32 = 30000u32;

/// The state of the connection.
#[derive(Clone, Copy, Debug, PartialEq, Eq, Structural)]
pub enum ConnectionStatus {
    Connecting,
    Connected,
    Disconnected,
    Reconnecting { attempt: u32, delay_ms: u32 },
    Error,
}

/// `2^n`.
pub open spec fn pow2(n: nat) -> nat
    decreases n,
{
    if n == 0 {
        1
    } else {
        2 * pow2((n - 1) as nat)
    }
}

/// The wait before reconnecting after `attempt` earlier attempts:
/// `min(1000 * 2^min(attempt, 5), 30000)` milliseconds.
pub open spec fn reconnect_delay(attempt: nat) -> nat {
    let e: nat = if attempt < 5 {
        attempt
    } else {
        5
    };
    let d = 1000 * pow2(e);
    if d < 30000 {
        d
    } else {
        30000
    }
}

/// The wait before reconnecting after `attempt` earlier attempts.
pub fn reconnect_delay_ms(attempt: u32) -> (r: u32)
    ensures
        r == reconnect_delay(attempt as nat),
{
    let e: u32 = if attempt < 5 {
        attempt
    } else {
        5
    };
    proof {
        assert(pow2(0) == 1);
        assert(pow2(1) == 2);
        assert(pow2(2) == 4);
        assert(pow2(3) == 8);
        assert(pow2(4) == 16);
        assert(pow2(5) == 32);
    }
    let factor: u32 = if e == 0 {
        1
    } else if e == 1 {
        2
    } else if e == 2 {
        4
    } else if e == 3 {
        8
    } else if e == 4 {
        16
    } else {
        32
    };
    let d = RECONNECT_BASE_DELAY_MS * factor;
    if d < MAX_RECONNECT_DELAY_MS {
        d
    } else {
        MAX_RECONNECT_DELAY_MS
    }
}

/// After a lost connection with `attempt` earlier attempts: the attempt count
/// becomes `attempt + 1` and the status says which attempt comes after how long.
pub fn schedule_reconnect(attempt: u32) -> (r: (u32, ConnectionStatus))
    requires
        attempt < u32::MAX,
    ensures
        r.0 == attempt + 1,
        r.1 == (ConnectionStatus::Reconnecting {
            attempt: (attempt + 1) as u32,
            delay_ms: reconnect_delay(attempt as nat) as u32,
        }),
{
    let delay = reconnect_delay_ms(attempt);
    (attempt + 1, ConnectionStatus::Reconnecting { attempt: attempt + 1, delay_ms: delay })
}

/// Something that happens to the dashboard's connection.
#[derive(Clone, Copy, Debug, PartialEq, Eq, Structural)]
pub enum ConnectionEvent {
    /// A connection attempt starts (before the socket is created).
    Started,
    /// The socket opened.
    Opened,
    /// The socket closed.
    Closed,
    /// The socket could not be created.
    CreateFailed,
    /// The socket reported an error.
    SocketError,
}

/// What the client does after a connection event.
#[derive(Debug)]
pub struct ConnectionStep {
    /// The reconnection attempt count afterwards.
    pub attempt: u32,
    /// The statuses reported, in order.
    pub statuses: Vec<ConnectionStatus>,
    /// Whether the channel subscription is sent.
    pub subscribe: bool,
    /// When to try to connect again, if at all.
    pub reconnect_after_ms: Option<u32>,
}

/// Decides what follows a connection event with `attempt` earlier attempts:
/// a starting attempt reports `Connecting`; an open connection resets the count, reports `Connected` and subscribes; a
/// closed one schedules the next attempt; a socket that could not be created
/// reports `Error` and schedules the next attempt; a socket error is only
/// reported.
pub fn on_connection_event(attempt: u32, ev: ConnectionEvent) -> (r: ConnectionStep)
    requires
        (ev == ConnectionEvent::Closed || ev == ConnectionEvent::CreateFailed) ==> attempt < u32::MAX,
    ensures
        match ev {
            ConnectionEvent::Started => {
                &&& r.attempt == attempt
                &&& r.statuses@ == seq![ConnectionStatus::Connecting]
                &&& !r.subscribe
                &&& r.reconnect_after_ms is None
            },
            ConnectionEvent::Opened => {
                &&& r.attempt == 0
                &&& r.statuses@ == seq![ConnectionStatus::Connected]
                &&& r.subscribe
                &&& r.reconnect_after_ms is None
            },
            ConnectionEvent::Closed => {
                &&& r.attempt == attempt + 1
                &&& r.statuses@ == seq![
                    ConnectionStatus::Reconnecting {
                        attempt: (attempt + 1) as u32,
                        delay_ms: reconnect_delay(attempt as nat) as u32,
                    },
                ]
                &&& !r.subscribe
                &&& r.reconnect_after_ms == Some(reconnect_delay(attempt as nat) as u32)
            },
            ConnectionEvent::CreateFailed => {
                &&& r.attempt == attempt + 1
                &&& r.statuses@ == seq![
                    ConnectionStatus::Error,
                    ConnectionStatus::Reconnecting {
                        attempt: (attempt + 1) as u32,
                        delay_ms: reconnect_delay(attempt as nat) as u32,
                    },
                ]
                &&& !r.subscribe
                &&& r.reconnect_after_ms == Some(reconnect_delay(attempt as nat) as u32)
            },
            ConnectionEvent::SocketError => {
                &&& r.attempt == attempt
                &&& r.statuses@ == seq![ConnectionStatus::Error]
                &&& !r.subscribe
                &&& r.reconnect_after_ms is None
            },
        },
{
    match ev {
        ConnectionEvent::Started => {
            let mut statuses: Vec<ConnectionStatus> = Vec::new();
            statuses.push(ConnectionStatus::Connecting);
            ConnectionStep { attempt, statuses, subscribe: false, reconnect_after_ms: None }
        },
        ConnectionEvent::Opened => {
            let mut statuses: Vec<ConnectionStatus> = Vec::new();
            statuses.push(ConnectionStatus::Connected);
            ConnectionStep { attempt: 0, statuses, subscribe: true, reconnect_after_ms: None }
        },
        ConnectionEvent::Closed => {
            let (next, status) = schedule_reconnect(attempt);
            let mut statuses: Vec<ConnectionStatus> = Vec::new();
            statuses.push(status);
            let delay = reconnect_delay_ms(attempt);
            ConnectionStep { attempt: next, statuses, subscribe: false, reconnect_after_ms: Some(delay) }
        },
        ConnectionEvent::CreateFailed => {
            let (next, status) = schedule_reconnect(attempt);
            let mut statuses: Vec<ConnectionStatus> = Vec::new();
            statuses.push(ConnectionStatus::Error);
            statuses.push(status);
            let delay = reconnect_delay_ms(attempt);
            ConnectionStep { attempt: next, statuses, subscribe: false, reconnect_after_ms: Some(delay) }
        },
        ConnectionEvent::SocketError => {
            let mut statuses: Vec<ConnectionStatus> = Vec::new();
            statuses.push(ConnectionStatus::Error);
            ConnectionStep { attempt, statuses, subscribe: false, reconnect_after_ms: None }
        },
    }
}

/// The channels the dashboard subscribes to once connected.
pub open spec fn dashboard_channels() -> Seq<Seq<char>> {
    seq!["prices"@, "positions"@, "orders"@, "signals"@, "logs"@, "risks"@]
}

/// The channel list of the dashboard's subscription message.
pub fn dashboard_subscription() -> (r: Vec<String>)
    ensures
        texts(r@) == dashboard_channels(),
{
    let mut v: Vec<String> = Vec::new();
    v.push(String::from_str("prices"));
    v.push(String::from_str("positions"));
    v.push(String::from_str("orders"));
    v.push(String::from_str("signals"));
    v.push(String::from_str("logs"));
    v.push(String::from_str("risks"));
    assert(texts(v@) =~= dashboard_channels());
    v
}

/// The desktop notification the dashboard shows for a connection status, if any:
/// only an error is notified.
pub fn status_notification(status: ConnectionStatus) -> (r: Option<(String, String)>)
    ensures
        match status {
            ConnectionStatus::Error => r matches Some((t, b)) && t@ == "Connection Error"@ && b@
                == "Failed to connect to trading server"@,
            _ => r is None,
        },
{
    match status {
        ConnectionStatus::Error => Some(
            (String::from_str("Connection Error"), String::from_str("Failed to connect to trading server")),
        ),
        _ => None,
    }
}

/// The waits never exceed 30 seconds, never shrink as attempts grow, start at
/// one second, double while below the cap, and stay at the cap from the sixth
/// attempt on.
pub proof fn lemma_reconnect_backoff(a: nat, b: nat)
    requires
        a <= b,
    ensures
        reconnect_delay(a) <= reconnect_delay(b),
        reconnect_delay(b) <= MAX_RECONNECT_DELAY_MS,
        reconnect_delay(0) == RECONNECT_BASE_DELAY_MS,
        a < 4 ==> reconnect_delay(a + 1) == 2 * reconnect_delay(a),
        a >= 5 ==> reconnect_delay(a) == MAX_RECONNECT_DELAY_MS,
{
    assert(pow2(0) == 1);
    assert(pow2(1) == 2);
    assert(pow2(2) == 4);
    assert(pow2(3) == 8);
    assert(pow2(4) == 16);
    assert(pow2(5) == 32);
}

} // verus!
