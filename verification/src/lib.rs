//! Supervisor library for a game-server console bridged to a WebSocket API:
//! the message protocol, the console-line filter, the command framing and the
//! reconnect and session decisions, each with its contract.

pub mod config;
pub mod messages;
pub mod process;
pub mod signal;
pub mod websocket;
