//! The WebSocket server's rules for one connected dashboard: its identifier,
//! the channels it subscribes to, which broadcasts it receives, its replies to
//! heartbeats and when it has timed out.
use crate::host::{is_lower_hex, is_uuid_text, new_uuid_text};
use crate::models::LogLevel;
use crate::text::{first_index_of, first_segment, first_segment_text, join3, lemma_first_index_exact, text_eq};
use vstd::prelude::*;

verus! {

/// A client that has not answered a ping for longer than this is dropped.
pub const HEARTBEAT_TIMEOUT_MS: u64 = 60000u64;

/// How often the server pings each client.
pub const HEARTBEAT_INTERVAL_MS: u64 = 30000u64;

/// The port the server listens on.
pub const WS_PORT: u16 = 8081u16;

/// A request a client sends.
#[derive(Debug)]
pub enum ClientRequest {
    Ping,
    Pong,
    Subscribe { channels: Vec<String> },
    Unsubscribe { channels: Vec<String> },
    /// Any other message (it is only noted).
    Other,
}

/// The kind of a message the server broadcasts.
#[derive(Clone, Copy, Debug, PartialEq, Eq, Structural)]
pub enum OutboundKind {
    PriceUpdate,
    PositionUpdate,
    PositionLevels,
    SignalGenerated,
    SignalStale,
    OrderFilled,
    OrderUpdate,
    RiskAlert,
    SystemStatus,
    LogAppend,
    Ping,
    Pong,
    Subscribe,
    Unsubscribe,
}

/// What the server sends back to a request.
#[derive(Clone, Copy, Debug, PartialEq, Eq, Structural)]
pub enum SessionReply {
    SendPong,
    Nothing,
}

/// What the server does when a heartbeat is due.
#[derive(Clone, Copy, Debug, PartialEq, Eq, Structural)]
pub enum HeartbeatAction {
    /// The client has been silent too long: the connection is closed.
    TimedOut,
    /// The client is alive: it is pinged.
    SendPing,
}

/// One connected client.
#[derive(Debug)]
pub struct ClientSession {
    pub client_id: String,
    pub channels: Vec<String>,
    /// When the client last answered a ping, in milliseconds on the server's clock.
    pub last_pong_ms: u64,
}

/// The texts of a list of strings.
pub open spec fn texts(v: Seq<String>) -> Seq<Seq<char>> {
    v.map_values(|s: String| s@)
}

/// The channels a new client receives.
pub open spec fn default_channels() -> Seq<Seq<char>> {
    seq!["prices"@, "positions"@, "orders"@, "signals"@, "logs"@]
}

/// The channels of `cur` that are not in `removed`, in order.
pub open spec fn without_channels(cur: Seq<Seq<char>>, removed: Seq<Seq<char>>) -> Seq<Seq<char>>
    decreases cur.len(),
{
    if cur.len() == 0 {
        cur
    } else {
        let rest = without_channels(cur.drop_last(), removed);
        if removed.contains(cur.last()) {
            rest
        } else {
            rest.push(cur.last())
        }
    }
}

/// The channel a broadcast kind belongs to; `None` for kinds every client gets.
pub open spec fn channel_of(kind: OutboundKind) -> Option<Seq<char>> {
    match kind {
        OutboundKind::PriceUpdate => Some("prices"@),
        OutboundKind::PositionUpdate => Some("positions"@),
        OutboundKind::PositionLevels => Some("positions"@),
        OutboundKind::SignalGenerated => Some("signals"@),
        OutboundKind::OrderFilled => Some("orders"@),
        OutboundKind::OrderUpdate => Some("orders"@),
        OutboundKind::RiskAlert => Some("risks"@),
        OutboundKind::LogAppend => Some("logs"@),
        _ => None,
    }
}

/// A client subscribed to `channels` receives a broadcast of this kind.
pub open spec fn receives(channels: Seq<Seq<char>>, kind: OutboundKind) -> bool {
    match channel_of(kind) {
        Some(c) => channels.contains(c),
        None => true,
    }
}

/// The client identifier: the address, `-`, and the first group of a UUID.
pub open spec fn client_id_text(addr: Seq<char>, uuid: Seq<char>) -> Seq<char> {
    addr + "-"@ + first_segment(uuid, '-')
}

/// The wire name of a log level.
pub open spec fn level_wire_name(level: LogLevel) -> Seq<char> {
    match level {
        LogLevel::Info => "INFO"@,
        LogLevel::Warn => "WARN"@,
        LogLevel::Error => "ERROR"@,
        LogLevel::Debug => "DEBUG"@,
    }
}

/// The wire name of a log level (`INFO`, `WARN`, `ERROR`, `DEBUG`).
pub fn log_level_wire_name(level: LogLevel) -> (r: &'static str)
    ensures
        r@ == level_wire_name(level),
{
    match level {
        LogLevel::Info => "INFO",
        LogLevel::Warn => "WARN",
        LogLevel::Error => "ERROR",
        LogLevel::Debug => "DEBUG",
    }
}

/// The identifier of a client at `addr` given a UUID's text.
pub fn client_id_for(addr: &str, uuid: &str) -> (r: String)
    ensures
        r@ == client_id_text(addr@, uuid@),
{
    let head = first_segment_text(uuid, '-');
    join3(addr, "-", head.as_str())
}

/// A fresh identifier for a client at `addr`: the address, `-`, and the first
/// eight hexadecimal digits of a new random UUID.
pub fn new_client_id(addr: &str) -> (r: String)
    ensures
        r@.len() == addr@.len() + 9,
        r@.take(addr@.len() as int + 1) == addr@ + "-"@,
        forall|i: int| addr@.len() + 1 <= i < r@.len() ==> is_lower_hex(#[trigger] r@[i]),
{
    let uuid = new_uuid_text();
    proof {
        lemma_uuid_first_segment(uuid@);
    }
    let r = client_id_for(addr, uuid.as_str());
    proof {
        reveal_strlit("-");
        assert(r@.take(addr@.len() as int + 1) =~= addr@ + "-"@);
        assert forall|i: int| addr@.len() + 1 <= i < r@.len() implies is_lower_hex(#[trigger] r@[i]) by {
            let k = i - addr@.len() - 1;
            assert(r@[i] == uuid@[k]);
            assert(k != 8 && k != 13 && k != 18 && k != 23);
        }
    }
    r
}

/// The first group of a UUID's text is its first eight characters.
pub proof fn lemma_uuid_first_segment(u: Seq<char>)
    requires
        is_uuid_text(u),
    ensures
        first_segment(u, '-') == u.take(8),
        first_index_of(u, '-') == 8,
{
    assert forall|j: int| 0 <= j < 8 implies u[j] != '-' by {
        assert(j != 8 && j != 13 && j != 18 && j != 23);
    }
    assert(u[8] == '-');
    lemma_first_index_exact(u, '-', 8);
}

/// Whether `channels` holds `c`.
fn has_channel(channels: &Vec<String>, c: &str) -> (r: bool)
    ensures
        r == texts(channels@).contains(c@),
{
    let mut i: usize = 0;
    while i < channels.len()
        invariant
            i <= channels@.len(),
            forall|j: int| 0 <= j < i ==> channels@[j]@ != c@,
        decreases channels@.len() - i,
    {
        if text_eq(channels[i].as_str(), c) {
            assert(texts(channels@)[i as int] == c@);
            return true;
        }
        i = i + 1;
    }
    assert forall|j: int| 0 <= j < texts(channels@).len() implies texts(channels@)[j] != c@ by {
        assert(texts(channels@)[j] == channels@[j]@);
    }
    false
}

impl ClientSession {
    /// A new session: subscribed to prices, positions, orders, signals and
    /// logs, last heard from at `now_ms`.
    pub fn new(client_id: String, now_ms: u64) -> (r: ClientSession)
        ensures
            r.client_id == client_id,
            texts(r.channels@) == default_channels(),
            r.last_pong_ms == now_ms,
    {
        let mut channels: Vec<String> = Vec::new();
        channels.push(String::from_str("prices"));
        channels.push(String::from_str("positions"));
        channels.push(String::from_str("orders"));
        channels.push(String::from_str("signals"));
        channels.push(String::from_str("logs"));
        assert(texts(channels@) =~= default_channels());
        ClientSession { client_id, channels, last_pong_ms: now_ms }
    }

    /// Handles a client's request at `now_ms`: a ping is answered with a pong;
    /// a pong records the time; a subscription replaces the channel list; an
    /// unsubscription removes the listed channels; anything else changes nothing.
    pub fn on_request(&mut self, request: ClientRequest, now_ms: u64) -> (r: SessionReply)
        ensures
            final(self).client_id == old(self).client_id,
            match request {
                ClientRequest::Ping => {
                    &&& r == SessionReply::SendPong
                    &&& final(self).channels == old(self).channels
                    &&& final(self).last_pong_ms == old(self).last_pong_ms
                },
                ClientRequest::Pong => {
                    &&& r == SessionReply::Nothing
                    &&& final(self).channels == old(self).channels
                    &&& final(self).last_pong_ms == now_ms
                },
                ClientRequest::Subscribe { channels } => {
                    &&& r == SessionReply::Nothing
                    &&& texts(final(self).channels@) == texts(channels@)
                    &&& final(self).last_pong_ms == old(self).last_pong_ms
                },
                ClientRequest::Unsubscribe { channels } => {
                    &&& r == SessionReply::Nothing
                    &&& texts(final(self).channels@) == without_channels(texts(old(self).channels@), texts(channels@))
                    &&& final(self).last_pong_ms == old(self).last_pong_ms
                },
                ClientRequest::Other => {
                    &&& r == SessionReply::Nothing
                    &&& final(self).channels == old(self).channels
                    &&& final(self).last_pong_ms == old(self).last_pong_ms
                },
            },
    {
        match request {
            ClientRequest::Ping => SessionReply::SendPong,
            ClientRequest::Pong => {
                self.last_pong_ms = now_ms;
                SessionReply::Nothing
            },
            ClientRequest::Subscribe { channels } => {
                self.channels = channels;
                SessionReply::Nothing
            },
            ClientRequest::Unsubscribe { channels } => {
                let ghost cur = texts(self.channels@);
                let mut kept: Vec<String> = Vec::new();
                let mut i: usize = 0;
                while i < self.channels.len()
                    invariant
                        i <= self.channels@.len(),
                        cur == texts(self.channels@),
                        texts(kept@) == without_channels(cur.take(i as int), texts(channels@)),
                    decreases self.channels@.len() - i,
                {
                    assert(cur.take(i + 1).drop_last() =~= cur.take(i as int));
                    assert(cur.take(i + 1).last() == self.channels@[i as int]@);
                    if !has_channel(&channels, self.channels[i].as_str()) {
                        let c = self.channels[i].clone();
                        let ghost before = kept@;
                        kept.push(c);
                        assert(texts(kept@) =~= texts(before).push(c@));
                    }
                    i = i + 1;
                }
                assert(cur.take(cur.len() as int) =~= cur);
                self.channels = kept;
                SessionReply::Nothing
            },
            ClientRequest::Other => SessionReply::Nothing,
        }
    }

    /// Whether this client receives a broadcast of this kind: price, position,
    /// signal, order, risk and log messages go to clients subscribed to
    /// `prices`, `positions`, `signals`, `orders`, `risks` and `logs`; every
    /// other kind goes to all clients.
    pub fn should_send(&self, kind: OutboundKind) -> (r: bool)
        ensures
            r == receives(texts(self.channels@), kind),
    {
        match kind {
            OutboundKind::PriceUpdate => has_channel(&self.channels, "prices"),
            OutboundKind::PositionUpdate => has_channel(&self.channels, "positions"),
            OutboundKind::PositionLevels => has_channel(&self.channels, "positions"),
            OutboundKind::SignalGenerated => has_channel(&self.channels, "signals"),
            OutboundKind::OrderFilled => has_channel(&self.channels, "orders"),
            OutboundKind::OrderUpdate => has_channel(&self.channels, "orders"),
            OutboundKind::RiskAlert => has_channel(&self.channels, "risks"),
            OutboundKind::LogAppend => has_channel(&self.channels, "logs"),
            _ => true,
        }
    }

    /// What to do when a heartbeat is due at `now_ms`: close the connection
    /// when more than 60 seconds have passed since the last pong, otherwise
    /// ping the client.
    pub fn on_heartbeat(&self, now_ms: u64) -> (r: HeartbeatAction)
        ensures
            r == if now_ms > self.last_pong_ms && now_ms - self.last_pong_ms > HEARTBEAT_TIMEOUT_MS {
                HeartbeatAction::TimedOut
            } else {
                HeartbeatAction::SendPing
            },
    {
        if now_ms > self.last_pong_ms && now_ms - self.last_pong_ms > HEARTBEAT_TIMEOUT_MS {
            HeartbeatAction::TimedOut
        } else {
            HeartbeatAction::SendPing
        }
    }
}

} // verus!
