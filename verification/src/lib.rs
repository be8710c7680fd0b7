//! Verified core of a WebSocket chat server: connection statistics, the
//! registry of taken usernames, the per-connection message protocol, the
//! status endpoint's access rule and the server configuration.

mod clock;
pub mod stats;
pub mod users;
pub mod session;
pub mod text;
pub mod config;
pub mod status;
