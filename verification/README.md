# trading_dashboard

The verified core of a desktop trading dashboard: a backend that keeps the
trading bot's state and answers the dashboard's commands, a WebSocket server
that relays live updates to subscribed clients, and the dashboard's own state
updates and display rules. The library's own functions carry `requires` /
`ensures` contracts that Verus proves. The calls into `rust_decimal`,
`serde_json`, `chrono` and `uuid` go through a few trusted wrappers in
`src/decimal.rs`, `src/websocket.rs` and `src/host.rs`, marked
`#[verifier::external_body]`: Verus believes their contracts without proof,
and the clock wrappers promise nothing of the time they return.

## Layout

- `src/decimal.rs` – exact decimal amounts (`Dec`), with `rust_decimal` doing
  the arithmetic, parsing, ordering and display behind trusted wrappers.
- `src/text.rs` – string helpers with exact contracts.
- `src/models.rs` – the trading records and the bounded-append rule.
- `src/host.rs` – the clock and random identifiers (`chrono`, `uuid`).
- `src/api.rs` – `BackendState` and its commands: start, stop, emergency stop,
  orders, positions, marking positions to a price, signals and the log.
- `src/websocket.rs` – sorting of the trading bot's messages (`serde_json`).
- `src/ws_server.rs` – the per-client session rules of the WebSocket server:
  subscriptions, heartbeats, which broadcasts a client receives.
- `src/state.rs` – the dashboard's state and how each live update changes it.
- `src/ws_client.rs` – the dashboard's connection states and reconnect back-off.
- `src/components.rs` – display rules: styles, labels, risk levels, the order
  form, chart lines and the built-in terminal.
- `src/laws.rs` – properties that span operations.
- The dashboard's browser front end (its Leptos components, rendering and
  WebAssembly bindings) is carried neither in `src/` nor in `app/`: only its
  decisions are here, as the state updates, display rules and step functions
  of `src/state.rs`, `src/components.rs` and `src/ws_client.rs`.
- `app/` – the backend program: Tokio tasks, the WebSocket I/O, the demo price
  feed and chart candles (floating point), and the JSON forms of the records.

## Tests

The tests under `tests/` exercise the library with the real outside crates
linked, on concrete values.
