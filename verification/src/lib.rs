//! Verified core of a trading dashboard: the backend's bot state and commands,
//! routing of messages from the trading bot, the WebSocket server's per-client
//! session rules, and the dashboard's state updates and display rules.
pub mod decimal;
pub mod text;
pub mod models;
pub mod host;
pub mod api;
pub mod websocket;
pub mod ws_server;
pub mod state;
pub mod ws_client;
pub mod components;
pub mod laws;
