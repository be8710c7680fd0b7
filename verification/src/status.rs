//! The status endpoint: publishes the server's statistics, optionally behind a key.

use vstd::prelude::*;
use vstd::string::*;

use crate::stats::{Stats, WebSocketReport};

verus! {

/// The query of a status request.
#[derive(Debug, Clone)]
pub struct StatusOptions {
    /// The key the client offers; empty when it offers none.
    pub key: String,
}

/// The statistics the status endpoint publishes.
pub struct StatsReport {
    pub web_socket: WebSocketReport,
}

/// The answer to a status request.
pub enum StatusReply {
    /// The request is refused (HTTP 403), with this message.
    Forbidden(String),
    /// The statistics.
    Stats(StatsReport),
}

/// Whether a request offering `key` may read the statistics: it may when no status key
/// is set (`status_key` is empty), or when it offers exactly that key.
pub open spec fn status_allowed(status_key: Seq<char>, key: Seq<char>) -> bool {
    status_key.len() == 0 || key == status_key
}

/// Answers a status request. When the server has a status key, the request must offer
/// the same key; this is a kind of primitive password protection.
pub fn status(status_key: &String, opts: &StatusOptions, stats: &Stats) -> (reply: StatusReply)
    ensures
        status_allowed(status_key@, opts.key@) ==> (reply matches StatusReply::Stats(r)
            && r.web_socket.describes(stats.web_socket@)),
        !status_allowed(status_key@, opts.key@) ==> (reply matches StatusReply::Forbidden(m)
            && m@ == "key doesn't match STATUS_KEY"@),
{
    if !status_key.as_str().is_empty() {
        if opts.key != *status_key {
            return StatusReply::Forbidden(String::from_str("key doesn't match STATUS_KEY"));
        }
    }
    StatusReply::Stats(StatsReport { web_socket: stats.web_socket.report() })
}

} // verus!
