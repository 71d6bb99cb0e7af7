//! How the bot reaches the implementation.
use vstd::prelude::*;

verus! {

/// How the bot reaches the implementation.
pub enum Protocol {
    /// Forward WebSocket: (url, token).
    WebSocket(String, String),
    /// Reverse WebSocket: (port, token).
    ReserverWebSocket(String, String),
    /// HTTP: (url, token).
    Http(String, String),
    /// Reverse HTTP: (port, token).
    ReserverHttp(String, String),
}

} // verus!
