//! Session orchestration and event-translation core for a chat-network bridge.
//!
//! The library holds the verified logic: the session registry, the command
//! dispatcher, the event translator with its wire-format parsers, and the
//! retry/backoff policies. I/O (sockets, files, the hooked client's HTTP
//! control API) lives outside the library and exchanges plain values with it.

pub mod constants;
pub mod error;
pub mod manager;
pub mod text;
pub mod transport;
pub mod utils;
pub mod wechat;
pub mod ws;
pub mod xml;
