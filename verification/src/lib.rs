//! Client-side engine of a line-oriented cache / pub-sub protocol.
//!
//! The library turns one shared line stream into many independent
//! request/response conversations, correlated by an id echoed back by the
//! server, and fans unsolicited `MESSAGE` events out to per-topic
//! subscribers.

pub mod channels;
pub mod commands;
pub mod config;
pub mod frame;
pub mod idmap;
pub mod ids;
pub mod laws;
pub mod message_resolver;
pub mod messaging;
pub mod query;
pub mod resolver;
pub mod session;
pub mod table;
pub mod text;

use vstd::prelude::*;

verus! {

/// Errors a client operation can report.
#[derive(Clone, Copy, Debug, PartialEq, Eq, Structural)]
pub enum CacheError {
    /// An operation was attempted before a connection existed.
    NotConnected,
    /// Writing a command to the transport failed.
    TransportWriteFailure,
    /// The server answered a request with `ERROR`.
    RequestFailed,
    /// The channel carrying a reply was closed before a reply arrived.
    ChannelClosed,
    /// The connection was lost while requests were still outstanding.
    ConnectionLost,
}

} // verus!
