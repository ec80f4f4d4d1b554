//! Properties that hold across the dashboard's operations.
use crate::api::{
    is_placed_order, last_items, newest_first, orders_with_status, repriced, repriced_amounts, status_name,
    timeframe_seconds, without_position, PlaceOrderArgs, LOG_CAPACITY,
};
use crate::decimal::{Dec, DecParts, decimal_checked_div, decimal_checked_mul, decimal_checked_sub, is_positive_value};
use crate::models::{OrderSide, OrderStatus};
use crate::state::{event_outcome, DashboardState, UiEffect, WsEvent};
use crate::models::{LogEntry, Position, lemma_push_bounded, push_bounded};
use crate::state::{dashboard_pnl, order_index, order_upserted, timeframe_text, Timeframe};
use crate::text::{count_char, cut_fraction, first_index_of};
use crate::models::Order;
use crate::ws_client::{dashboard_channels, lemma_reconnect_backoff, reconnect_delay, pow2};
use crate::ws_server::{receives, without_channels, OutboundKind, channel_of};
use vstd::prelude::*;

verus! {

/// Closing a position leaves no position with that id open.
pub proof fn law_close_removes_id(s: Seq<Position>, id: Seq<char>)
    ensures
        forall|i: int| 0 <= i < without_position(s, id).len() ==> (#[trigger] without_position(s, id)[i]).id@ != id,
    decreases s.len(),
{
    if s.len() > 0 {
        law_close_removes_id(s.drop_last(), id);
    }
}

/// Closing a position keeps every position with another id, and only those.
pub proof fn law_close_keeps_others(s: Seq<Position>, id: Seq<char>)
    ensures
        forall|i: int| 0 <= i < s.len() && (#[trigger] s[i]).id@ != id ==> without_position(s, id).contains(s[i]),
        forall|i: int| 0 <= i < without_position(s, id).len() ==> s.contains(#[trigger] without_position(s, id)[i]),
        without_position(s, id).len() <= s.len(),
    decreases s.len(),
{
    if s.len() > 0 {
        let t = s.drop_last();
        law_close_keeps_others(t, id);
        let rest = without_position(t, id);
        assert forall|i: int| 0 <= i < s.len() && (#[trigger] s[i]).id@ != id implies without_position(s, id).contains(s[i]) by {
            if i < s.len() - 1 {
                assert(t[i] == s[i]);
                let k = choose|k: int| 0 <= k < rest.len() && rest[k] == t[i];
                if s.last().id@ != id {
                    assert(rest.push(s.last())[k] == s[i]);
                }
            } else {
                assert(rest.push(s.last())[rest.len() as int] == s[i]);
            }
        }
        assert forall|i: int| 0 <= i < without_position(s, id).len() implies s.contains(#[trigger] without_position(s, id)[i]) by {
            if i < rest.len() {
                let k = choose|k: int| 0 <= k < t.len() && t[k] == rest[i];
                assert(s[k] == t[k]);
            } else {
                assert(s[s.len() - 1] == s.last());
            }
        }
    }
}

/// Closing the same position twice is the same as closing it once.
pub proof fn law_close_idempotent(s: Seq<Position>, id: Seq<char>)
    ensures
        without_position(without_position(s, id), id) == without_position(s, id),
    decreases s.len(),
{
    if s.len() > 0 {
        let t = s.drop_last();
        law_close_idempotent(t, id);
        let rest = without_position(t, id);
        if s.last().id@ != id {
            assert(rest.push(s.last()).drop_last() =~= rest);
        }
    }
}

/// Marking a position to a price a second time gives the same profit and loss:
/// they depend only on the side, the quantity, the entry and the price.
pub proof fn law_reprice_idempotent(old: Position, new: Position, price: Dec)
    requires
        repriced(old, new, price),
    ensures
        repriced_amounts(new, price@) == repriced_amounts(old, price@),
{
}

/// The dashboard and the backend compute the same profit and loss for a
/// position marked to a price.
pub proof fn law_dashboard_matches_backend(p: Position, price: Dec)
    requires
        repriced_amounts(p, price@) is Some,
    ensures
        dashboard_pnl(p, Some(price)) == Some(repriced_amounts(p, price@).unwrap().0),
{
}

/// After an order update the order is listed under its id, exactly as sent.
pub proof fn law_order_upsert_finds(old: Seq<Order>, new: Seq<Order>, order: Order)
    requires
        order_upserted(old, new, order),
    ensures
        order_index(new, order.id@) < new.len(),
        new[order_index(new, order.id@) as int] == order,
        new.len() == old.len() || new.len() == old.len() + 1,
{
    let k = order_index(old, order.id@) as int;
    lemma_order_index_bounds(old, order.id@);
    if k < old.len() {
        lemma_order_index_prefix(old, new, order.id@, k);
    } else {
        lemma_order_index_prefix(old, new, order.id@, k);
    }
}

proof fn lemma_order_index_bounds(s: Seq<Order>, id: Seq<char>)
    ensures
        order_index(s, id) <= s.len(),
        order_index(s, id) < s.len() ==> s[order_index(s, id) as int].id@ == id,
        forall|j: int| 0 <= j < order_index(s, id) ==> (#[trigger] s[j]).id@ != id,
    decreases s.len(),
{
    if s.len() > 0 && s[0].id@ != id {
        lemma_order_index_bounds(s.drop_first(), id);
        assert forall|j: int| 0 <= j < order_index(s, id) implies (#[trigger] s[j]).id@ != id by {
            if j > 0 {
                assert(s[j] == s.drop_first()[j - 1]);
            }
        }
    }
}

proof fn lemma_order_index_at(s: Seq<Order>, id: Seq<char>, k: int)
    requires
        0 <= k < s.len(),
        s[k].id@ == id,
        forall|j: int| 0 <= j < k ==> (#[trigger] s[j]).id@ != id,
    ensures
        order_index(s, id) == k,
    decreases s.len(),
{
    if k > 0 {
        assert(s[0].id@ != id);
        assert forall|j: int| 0 <= j < k - 1 implies (#[trigger] s.drop_first()[j]).id@ != id by {
            assert(s.drop_first()[j] == s[j + 1]);
        }
        assert(s.drop_first()[k - 1] == s[k]);
        lemma_order_index_at(s.drop_first(), id, k - 1);
    }
}

proof fn lemma_order_index_prefix(old: Seq<Order>, new: Seq<Order>, id: Seq<char>, k: int)
    requires
        k == order_index(old, id),
        order_index(old, id) <= old.len(),
        forall|j: int| 0 <= j < k ==> (#[trigger] old[j]).id@ != id,
        k < old.len() ==> new == old.update(k, new[k]) && new[k].id@ == id,
        k == old.len() ==> new == old.push(new[k]) && new[k].id@ == id,
    ensures
        order_index(new, id) == k,
{
    assert forall|j: int| 0 <= j < k implies (#[trigger] new[j]).id@ != id by {
        assert(new[j] == old[j]);
    }
    lemma_order_index_at(new, id, k);
}

/// A bounded list (the log, the signals) keeps exactly its newest items: after
/// an append it holds the last `cap` items of the list with the new one added,
/// in their order.
pub proof fn law_bounded_keeps_newest<T>(s: Seq<T>, x: T, cap: nat)
    requires
        s.len() <= cap,
    ensures
        push_bounded(s, x, cap) == last_items(s.push(x), cap),
{
    assert(push_bounded(s, x, cap) =~= last_items(s.push(x), cap));
}

/// Reading the log right after an entry was added gives that entry first, and
/// never more entries than the limit asked for.
pub proof fn law_log_read_after_write(logs: Seq<LogEntry>, e: LogEntry, n: nat)
    requires
        logs.len() <= LOG_CAPACITY,
        n >= 1,
    ensures
        newest_first(push_bounded(logs, e, LOG_CAPACITY as nat), n)[0] == e,
        newest_first(push_bounded(logs, e, LOG_CAPACITY as nat), n).len() <= n,
        newest_first(push_bounded(logs, e, LOG_CAPACITY as nat), n).len() >= 1,
{
    lemma_push_bounded(logs, e, LOG_CAPACITY as nat);
}

/// A client that unsubscribes from a channel no longer has it.
pub proof fn law_unsubscribe_removes(cur: Seq<Seq<char>>, removed: Seq<Seq<char>>, c: Seq<char>)
    requires
        removed.contains(c),
    ensures
        !without_channels(cur, removed).contains(c),
    decreases cur.len(),
{
    if cur.len() > 0 {
        law_unsubscribe_removes(cur.drop_last(), removed, c);
        let rest = without_channels(cur.drop_last(), removed);
        if !removed.contains(cur.last()) {
            assert(cur.last() != c);
            assert forall|i: int| 0 <= i < rest.push(cur.last()).len() implies rest.push(cur.last())[i] != c by {
                if i < rest.len() {
                    assert(rest.push(cur.last())[i] == rest[i]);
                }
            }
        }
    }
}

/// A client that has unsubscribed from a kind's channel no longer receives
/// broadcasts of that kind; kinds with no channel (status, heartbeats) still reach it.
pub proof fn law_unsubscribed_not_sent(cur: Seq<Seq<char>>, removed: Seq<Seq<char>>, kind: OutboundKind)
    ensures
        (channel_of(kind) matches Some(c) && removed.contains(c)) ==> !receives(without_channels(cur, removed), kind),
        channel_of(kind) is None ==> receives(without_channels(cur, removed), kind),
{
    if let Some(c) = channel_of(kind) {
        if removed.contains(c) {
            law_unsubscribe_removes(cur, removed, c);
        }
    }
}

/// Once the dashboard has subscribed with its channel list, it receives every
/// kind of broadcast the server sends, risk alerts included.
pub proof fn law_dashboard_receives_all(kind: OutboundKind)
    ensures
        receives(dashboard_channels(), kind),
{
    let d = dashboard_channels();
    match kind {
        OutboundKind::PriceUpdate => assert(d[0] == "prices"@),
        OutboundKind::PositionUpdate => assert(d[1] == "positions"@),
        OutboundKind::PositionLevels => assert(d[1] == "positions"@),
        OutboundKind::OrderFilled => assert(d[2] == "orders"@),
        OutboundKind::OrderUpdate => assert(d[2] == "orders"@),
        OutboundKind::SignalGenerated => assert(d[3] == "signals"@),
        OutboundKind::LogAppend => assert(d[4] == "logs"@),
        OutboundKind::RiskAlert => assert(d[5] == "risks"@),
        _ => {},
    }
}

/// While connection attempts keep failing from a fresh client, the waits
/// before the successive attempts are 1, 2, 4, 8 and 16 seconds and then 30
/// seconds from the sixth on: they never shrink and never exceed 30 seconds,
/// for every number of attempts.
pub proof fn law_reconnect_delays(n: nat)
    ensures
        reconnect_delay(0) == 1000,
        reconnect_delay(1) == 2000,
        reconnect_delay(2) == 4000,
        reconnect_delay(3) == 8000,
        reconnect_delay(4) == 16000,
        n >= 5 ==> reconnect_delay(n) == 30000,
        reconnect_delay(n) <= reconnect_delay(n + 1),
        reconnect_delay(n) <= 30000,
{
    lemma_reconnect_backoff(n, n + 1);
    assert(pow2(0) == 1);
    assert(pow2(1) == 2);
    assert(pow2(2) == 4);
    assert(pow2(3) == 8);
    assert(pow2(4) == 16);
}

/// Every chart timeframe the dashboard offers has its own candle length on the
/// backend; only the weekly one, which the backend does not know, falls back
/// to five minutes.
pub proof fn law_timeframe_seconds(tf: Timeframe)
    ensures
        timeframe_seconds(timeframe_text(tf)) == match tf {
            Timeframe::M1 => 60i64,
            Timeframe::M5 => 300i64,
            Timeframe::M15 => 900i64,
            Timeframe::M30 => 1800i64,
            Timeframe::H1 => 3600i64,
            Timeframe::H4 => 14400i64,
            Timeframe::D1 => 86400i64,
            Timeframe::W1 => 300i64,
        },
{
    reveal_strlit("1m");
    reveal_strlit("5m");
    reveal_strlit("15m");
    reveal_strlit("30m");
    reveal_strlit("1h");
    reveal_strlit("4h");
    reveal_strlit("1d");
    reveal_strlit("1w");
    reveal_strlit("1");
    reveal_strlit("5");
    reveal_strlit("15");
    reveal_strlit("30");
    reveal_strlit("60");
    reveal_strlit("240");
    reveal_strlit("D");
    assert("1"@.len() == 1 && "5"@.len() == 1 && "D"@.len() == 1 && "240"@.len() == 3);
    assert("15"@[0] == '1' && "15"@[1] == '5');
    assert("30"@[0] == '3' && "30"@[1] == '0');
    assert("60"@[0] == '6' && "60"@[1] == '0');
    assert("1m"@[0] == '1' && "1m"@[1] == 'm');
    assert("5m"@[0] == '5' && "5m"@[1] == 'm');
    assert("15m"@[0] == '1' && "15m"@[1] == '5');
    assert("30m"@[0] == '3' && "30m"@[1] == '0');
    assert("1h"@[0] == '1' && "1h"@[1] == 'h');
    assert("4h"@[0] == '4' && "4h"@[1] == 'h');
    assert("1d"@[0] == '1' && "1d"@[1] == 'd');
    assert("1w"@[0] == '1' && "1w"@[1] == 'w');
}

/// An amount written by the dashboard keeps everything before its point and
/// at most two digits after it.
pub proof fn law_cut_fraction(s: Seq<char>)
    ensures
        count_char(s, '.') == 1 ==> {
            let i = first_index_of(s, '.') as int;
            &&& cut_fraction(s).take(i) == s.take(i)
            &&& cut_fraction(s)[i] == '.'
            &&& cut_fraction(s).len() <= i + 3
        },
        count_char(s, '.') != 1 ==> cut_fraction(s) == s,
{
    if count_char(s, '.') == 1 {
        let i = first_index_of(s, '.') as int;
        lemma_first_index_le(s, '.');
        assert(cut_fraction(s).take(i) =~= s.take(i));
    }
}

proof fn lemma_first_index_le(s: Seq<char>, c: char)
    ensures
        first_index_of(s, c) <= s.len(),
    decreases s.len(),
{
    if s.len() > 0 && s[0] != c {
        lemma_first_index_le(s.drop_first(), c);
    }
}

/// Marking a position to a price: the profit and loss is the price move in
/// the position's favour times the quantity (`price - entry` for a buy,
/// `entry - price` for a sell), and the percentage, whatever the side, is that
/// profit and loss divided by the entry value `entry * quantity` and
/// multiplied by 100, each step done by `Decimal`; it is given exactly when the
/// entry value is above zero. So a losing long and a winning short get the
/// percentage of their own profit and loss, not one chosen by the side.
pub proof fn law_reprice_percentage_follows_pnl(p: Position, price: DecParts)
    requires
        repriced_amounts(p, price) is Some,
    ensures
        ({
            let (pnl, pct) = repriced_amounts(p, price).unwrap();
            let q = (false, p.quantity as nat, 0nat);
            let mv = if p.side == OrderSide::Buy {
                decimal_checked_sub(price, p.entry_price@)
            } else {
                decimal_checked_sub(p.entry_price@, price)
            };
            &&& mv is Some && decimal_checked_mul(mv.unwrap(), q) == Some(pnl)
            &&& decimal_checked_mul(p.entry_price@, q) is Some
            &&& match pct {
                Some(x) => {
                    let total = decimal_checked_mul(p.entry_price@, q).unwrap();
                    &&& is_positive_value(total)
                    &&& decimal_checked_div(pnl, total) is Some
                    &&& decimal_checked_mul(decimal_checked_div(pnl, total).unwrap(), (false, 100nat, 0nat)) == Some(x)
                },
                None => !is_positive_value(decimal_checked_mul(p.entry_price@, q).unwrap()),
            }
        }),
{
}

/// A position update that carries a current price (or a profit and loss)
/// shows exactly that price (that amount) on every position with its id, and
/// leaves every other position as it was.
pub proof fn law_position_update_shows_sent_values(
    old: DashboardState,
    id: String,
    pnl: Option<Dec>,
    price: Option<Dec>,
    label: String,
    new: DashboardState,
    effects: Seq<UiEffect>,
)
    requires
        event_outcome(old, WsEvent::PositionUpdate { id, unrealized_pnl: pnl, current_price: price }, label, new, effects),
    ensures
        new.positions@.len() == old.positions@.len(),
        forall|i: int| 0 <= i < new.positions@.len() && (#[trigger] new.positions@[i]).id@ == id@ ==> {
            &&& (price matches Some(c) ==> new.positions@[i].current_price == c)
            &&& (pnl matches Some(d) ==> new.positions@[i].unrealized_pnl == d)
        },
        forall|i: int| 0 <= i < old.positions@.len() && (#[trigger] old.positions@[i]).id@ != id@
            ==> new.positions@[i] == old.positions@[i],
{
    assert forall|i: int| 0 <= i < new.positions@.len() && (#[trigger] new.positions@[i]).id@ == id@ implies {
        &&& (price matches Some(c) ==> new.positions@[i].current_price == c)
        &&& (pnl matches Some(d) ==> new.positions@[i].unrealized_pnl == d)
    } by {
        assert(old.positions@[i].id@ == id@ || new.positions@[i] == old.positions@[i]);
    }
}

/// A placed order is a buy exactly when its side text is `buy`; any other
/// side text, `sell` included, gives a sell.
pub proof fn law_order_side_from_text(o: Order, args: &PlaceOrderArgs, id: String, created_at: String)
    requires
        is_placed_order(o, args, id, created_at),
    ensures
        o.side == OrderSide::Buy <==> args.side@ == "buy"@,
        args.side@ == "sell"@ ==> o.side == OrderSide::Sell,
{
    reveal_strlit("buy");
    reveal_strlit("sell");
    assert("buy"@[0] != "sell"@[0]);
}

/// Different order statuses have different filter names, and the filter
/// texts of the API (`filled`, `pending`, `cancelled`) name those statuses.
pub proof fn law_status_names_distinct(a: OrderStatus, b: OrderStatus)
    ensures
        status_name(a) == status_name(b) ==> a == b,
        status_name(OrderStatus::Filled) == "filled"@,
        status_name(OrderStatus::Pending) == "pending"@,
        status_name(OrderStatus::Cancelled) == "cancelled"@,
{
    reveal_strlit("pending");
    reveal_strlit("working");
    reveal_strlit("partially_filled");
    reveal_strlit("filled");
    reveal_strlit("cancelled");
    reveal_strlit("rejected");
    assert("pending"@.len() == 7 && "working"@.len() == 7 && "partially_filled"@.len() == 16);
    assert("filled"@.len() == 6 && "cancelled"@.len() == 9 && "rejected"@.len() == 8);
    assert("pending"@[0] == 'p' && "working"@[0] == 'w');
}

/// Filtering the orders by a status lists exactly the orders with that
/// status, in order: no order with another status is listed (a partially
/// filled order is not a filled one), and every order with it is.
pub proof fn law_status_filter_exact(s: Seq<Order>, st: OrderStatus)
    ensures
        forall|i: int| 0 <= i < orders_with_status(s, Some(status_name(st))).len()
            ==> (#[trigger] orders_with_status(s, Some(status_name(st)))[i]).status == st,
        forall|i: int| 0 <= i < s.len() && (#[trigger] s[i]).status == st
            ==> orders_with_status(s, Some(status_name(st))).contains(s[i]),
    decreases s.len(),
{
    if s.len() > 0 {
        let t = s.drop_last();
        law_status_filter_exact(t, st);
        law_status_names_distinct(s.last().status, st);
        let rest = orders_with_status(t, Some(status_name(st)));
        let f = orders_with_status(s, Some(status_name(st)));
        assert forall|i: int| 0 <= i < f.len() implies (#[trigger] f[i]).status == st by {
            if i < rest.len() {
                assert(f[i] == rest[i]);
            }
        }
        assert forall|i: int| 0 <= i < s.len() && (#[trigger] s[i]).status == st implies f.contains(s[i]) by {
            if i < s.len() - 1 {
                assert(t[i] == s[i]);
                let k = choose|k: int| 0 <= k < rest.len() && rest[k] == t[i];
                assert(f[k] == rest[k]);
            } else {
                assert(f[f.len() - 1] == s.last());
            }
        }
    }
}

/// Which broadcasts a client receives, for every channel list: price updates
/// exactly with `prices`, position updates and level changes exactly with
/// `positions`, new signals exactly with `signals`, fills and order updates
/// exactly with `orders`, risk alerts exactly with `risks`, log lines exactly
/// with `logs`; status, stale-signal and heartbeat messages always.
pub proof fn law_broadcast_routing(channels: Seq<Seq<char>>)
    ensures
        receives(channels, OutboundKind::PriceUpdate) <==> channels.contains("prices"@),
        receives(channels, OutboundKind::PositionUpdate) <==> channels.contains("positions"@),
        receives(channels, OutboundKind::PositionLevels) <==> channels.contains("positions"@),
        receives(channels, OutboundKind::SignalGenerated) <==> channels.contains("signals"@),
        receives(channels, OutboundKind::OrderFilled) <==> channels.contains("orders"@),
        receives(channels, OutboundKind::OrderUpdate) <==> channels.contains("orders"@),
        receives(channels, OutboundKind::RiskAlert) <==> channels.contains("risks"@),
        receives(channels, OutboundKind::LogAppend) <==> channels.contains("logs"@),
        receives(channels, OutboundKind::SystemStatus),
        receives(channels, OutboundKind::SignalStale),
        receives(channels, OutboundKind::Ping),
        receives(channels, OutboundKind::Pong),
{
}

} // verus!
