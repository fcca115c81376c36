//! What a client in a browser decides while its socket opens. The socket
//! and its callbacks stay with the caller.

use crate::error::ConnectionError;
use vstd::prelude::*;

verus! {

/// What happened first after a socket was asked to open.
#[derive(Debug, Clone, Copy, PartialEq, Eq, Structural)]
pub enum OpenEvent {
    /// The socket is open.
    Open,
    /// The socket reported an error.
    Error,
    /// The socket was closed.
    Close,
    /// Nothing will be reported any more.
    Dropped,
}

/// Whether a socket that was asked to open is open, by what happened first.
pub open spec fn open_verdict(event: OpenEvent, res: Result<(), ConnectionError>) -> bool {
    match event {
        OpenEvent::Open => res is Ok,
        OpenEvent::Error => res matches Err(ConnectionError::WebSocketError(text)) && text@
            == "WebSocket connection failed"@,
        OpenEvent::Close => res matches Err(ConnectionError::ConnectionClosed),
        OpenEvent::Dropped => res matches Err(ConnectionError::WebSocketError(text)) && text@
            == "open channel dropped"@,
    }
}

/// Wait for the `open` event, or fail on `error` or `close`: this decides
/// once the first of them is there.
pub fn wait_for_open(event: OpenEvent) -> (res: Result<(), ConnectionError>)
    ensures
        open_verdict(event, res),
{
    match event {
        OpenEvent::Open => Ok(()),
        OpenEvent::Error => Err(
            ConnectionError::WebSocketError("WebSocket connection failed".to_owned()),
        ),
        OpenEvent::Close => Err(ConnectionError::ConnectionClosed),
        OpenEvent::Dropped => Err(
            ConnectionError::WebSocketError("open channel dropped".to_owned()),
        ),
    }
}

} // verus!
