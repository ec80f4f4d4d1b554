//! What the backend does with a text message from the trading bot: which kind
//! of update it is and the values the update carries. Reading the JSON is
//! done by `serde_json` through the trusted items below.
use crate::decimal::{Dec, dec_parse, decimal_parse};
use crate::models::{LogLevel, SignalAction};
use crate::text::{join3, text_eq};
use vstd::prelude::*;

verus! {

/// Whether `serde_json::from_str::<serde_json::Value>` accepts the text.
pub uninterp spec fn json_document(text: Seq<char>) -> bool;

/// The string member `key` of the JSON object in `text`, as
/// `serde_json::Value::get` and `as_str` find it (`None` when the text is not
/// JSON, the member is missing, or it is not a string).
pub uninterp spec fn json_string_member(text: Seq<char>, key: Seq<char>) -> Option<Seq<char>>;

/// The view of an optional string.
pub open spec fn opt_text(o: Option<String>) -> Option<Seq<char>> {
    match o {
        Some(s) => Some(s@),
        None => None,
    }
}

/// Whether `serde_json::from_str::<serde_json::Value>(text)` succeeds
/// (trusted, not proved): the answer is `json_document` of the text.
#[verifier::external_body]
fn json_is_document(text: &str) -> (r: bool)
    ensures
        r == json_document(text@),
{
    serde_json::from_str::<serde_json::Value>(text).is_ok()
}

/// The string member `key` of the JSON object in `text` (trusted, not
/// proved): `serde_json` parses the text, `Value::get` finds the member,
/// `Value::as_str` reads it. The answer is `json_string_member`, and a member
/// is only found in text that parses.
#[verifier::external_body]
fn json_text_field(text: &str, key: &str) -> (r: Option<String>)
    ensures
        opt_text(r) == json_string_member(text@, key@),
        r is Some ==> json_document(text@),
{
    match serde_json::from_str::<serde_json::Value>(text) {
        Ok(value) => match value.get(key) {
            Some(member) => match member.as_str() {
                Some(s) => Some(s.to_string()),
                None => None,
            },
            None => None,
        },
        Err(_) => None,
    }
}

/// A message from the trading bot, sorted by what the backend does with it.
#[derive(Debug)]
pub enum BotMessage {
    /// A price tick for a symbol: positions and charts are marked to it.
    Price { symbol: String, price: Dec },
    /// A new signal; its `data` member is read as a `TradeSignal`.
    Signal,
    /// A log line from the bot.
    Log { level: LogLevel, message: String },
    /// A message with no known type: it may be a full bot status.
    Snapshot,
    /// Nothing to do: not JSON, a type that is not handled, or a known type
    /// with a member missing or malformed.
    Ignored,
}

/// The log level a bot log line gets from its `level` text.
pub open spec fn bot_log_level(level: Seq<char>) -> LogLevel {
    if level == "ERROR"@ {
        LogLevel::Error
    } else if level == "WARN"@ {
        LogLevel::Warn
    } else if level == "DEBUG"@ {
        LogLevel::Debug
    } else {
        LogLevel::Info
    }
}

/// What a bot message in `text` is, by its `type` member: `price` with a
/// string `symbol` and a `price` that parses as a decimal is a price tick;
/// `signal` is a signal; `log` with string `level` and `message` is a log
/// line; `position` and `order` are not handled; a missing, non-string or
/// other type may be a status snapshot. Text that is not JSON, and known types
/// with members missing, are ignored.
pub open spec fn bot_message_of(text: Seq<char>, m: BotMessage) -> bool {
    if !json_document(text) {
        m is Ignored
    } else {
        match json_string_member(text, "type"@) {
            Some(t) => if t == "price"@ {
                match (json_string_member(text, "symbol"@), json_string_member(text, "price"@)) {
                    (Some(sym), Some(p)) => match decimal_parse(p) {
                        Some(d) => match m {
                            BotMessage::Price { symbol, price } => symbol@ == sym && price@ == d && price.wf(),
                            _ => false,
                        },
                        None => m is Ignored,
                    },
                    _ => m is Ignored,
                }
            } else if t == "signal"@ {
                m is Signal
            } else if t == "position"@ || t == "order"@ {
                m is Ignored
            } else if t == "log"@ {
                match (json_string_member(text, "level"@), json_string_member(text, "message"@)) {
                    (Some(lv), Some(msg)) => match m {
                        BotMessage::Log { level, message } => level == bot_log_level(lv) && message@ == msg,
                        _ => false,
                    },
                    _ => m is Ignored,
                }
            } else {
                m is Snapshot
            },
            None => m is Snapshot,
        }
    }
}

/// The log level of a bot log line.
pub fn bot_log_level_of(level: &str) -> (r: LogLevel)
    ensures
        r == bot_log_level(level@),
{
    if text_eq(level, "ERROR") {
        LogLevel::Error
    } else if text_eq(level, "WARN") {
        LogLevel::Warn
    } else if text_eq(level, "DEBUG") {
        LogLevel::Debug
    } else {
        LogLevel::Info
    }
}

/// Sorts a text message from the trading bot (see `bot_message_of`).
pub fn route_bot_message(text: &str) -> (r: BotMessage)
    ensures
        bot_message_of(text@, r),
{
    if !json_is_document(text) {
        return BotMessage::Ignored;
    }
    let kind = json_text_field(text, "type");
    match kind {
        None => BotMessage::Snapshot,
        Some(t) => {
            if text_eq(t.as_str(), "price") {
                let symbol = json_text_field(text, "symbol");
                let price = json_text_field(text, "price");
                match (symbol, price) {
                    (Some(sym), Some(p)) => match dec_parse(p.as_str()) {
                        Some(d) => BotMessage::Price { symbol: sym, price: d },
                        None => BotMessage::Ignored,
                    },
                    _ => BotMessage::Ignored,
                }
            } else if text_eq(t.as_str(), "signal") {
                BotMessage::Signal
            } else if text_eq(t.as_str(), "position") || text_eq(t.as_str(), "order") {
                BotMessage::Ignored
            } else if text_eq(t.as_str(), "log") {
                let level = json_text_field(text, "level");
                let message = json_text_field(text, "message");
                match (level, message) {
                    (Some(lv), Some(msg)) => BotMessage::Log {
                        level: bot_log_level_of(lv.as_str()),
                        message: msg,
                    },
                    _ => BotMessage::Ignored,
                }
            } else {
                BotMessage::Snapshot
            }
        },
    }
}

/// The name a signal's action is announced with.
pub open spec fn action_word(action: SignalAction) -> Seq<char> {
    match action {
        SignalAction::Buy => "BUY"@,
        SignalAction::Sell => "SELL"@,
        SignalAction::Hold => "HOLD"@,
    }
}

/// The log line for a new signal: `New signal: {BUY|SELL|HOLD} {symbol}`.
pub fn signal_announcement(action: SignalAction, symbol: &str) -> (r: String)
    ensures
        r@ == "New signal: "@ + action_word(action) + " "@ + symbol@,
{
    let word = match action {
        SignalAction::Buy => "BUY",
        SignalAction::Sell => "SELL",
        SignalAction::Hold => "HOLD",
    };
    let mut s = join3("New signal: ", word, " ");
    s.append(symbol);
    s
}

} // verus!
