//! The error kinds. Only [`ToolError`] ever crosses the connection as data;
//! every other kind is local to one process.

use crate::connection::websocket::common::WsMessageType;
use vstd::prelude::*;

verus! {

/// Failure of `rmp_serde` to write a value; carried, never looked into.
#[verifier::external_type_specification]
#[verifier::external_body]
pub struct ExEncodeError(rmp_serde::encode::Error);

/// Failure of `rmp_serde` to read a value; carried, never looked into.
#[verifier::external_type_specification]
#[verifier::external_body]
pub struct ExDecodeError(rmp_serde::decode::Error);

/// An I/O failure of std; carried, never looked into.
#[verifier::external_type_specification]
#[verifier::external_body]
pub struct ExIoError(std::io::Error);

/// Failure of `tokio` to join a task; carried, never looked into.
#[verifier::external_type_specification]
#[verifier::external_body]
pub struct ExJoinError(tokio::task::JoinError);

/// Why a tool is asked to stop.
#[derive(Debug, Clone, PartialEq, Eq)]
pub enum AbortReason {
    RequestedByClient,
    /// The queue to the connection handler is gone; the text says why.
    ChannelError(String),
    ConnectionClosed,
}

/// Exclusively used when looking up a value by a path.
#[derive(Debug, Clone, Copy, PartialEq, Eq)]
pub enum ExtractionError {
    TypeMismatch { from: &'static str, into: &'static str },
    TooMuchNesting,
    IndexOutOfBounds,
    KeyNotFound,
    IndexForDict,
    KeyForList,
}

/// Exclusively used when taking a value out of a
/// [`ValueDict`](crate::value::dict::ValueDict).
#[derive(Debug, Clone, PartialEq, Eq)]
pub enum LookupError {
    KeyError(String),
    ConversionError(ExtractionError),
}

/// Created while a message is packed or unpacked, part of
/// [`ConnectionError`].
#[derive(Debug)]
pub enum ParseError {
    SerializationError(rmp_serde::encode::Error),
    DeserializationError(rmp_serde::decode::Error),
    CompressionError(std::io::Error),
    DecompressionError(std::io::Error),
    WrongMessageType { expected: WsMessageType, found: WsMessageType },
}

/// Returned by the channel ends when trying to connect, send or receive.
#[derive(Debug)]
pub enum ConnectionError {
    WebSocketError(String),
    ParseError(ParseError),
    ConnectionClosed,
    /// The tool crashed instead of returning.
    ToolPanic(tokio::task::JoinError),
}

impl ConnectionError {
    /// Whether the error says that the other end has left: the stream has
    /// ended, or a close frame came where a message was expected.
    pub open spec fn spec_is_disconnect(&self) -> bool {
        match self {
            ConnectionError::ConnectionClosed => true,
            ConnectionError::ParseError(ParseError::WrongMessageType { expected: _, found }) => found
                == WsMessageType::Close,
            _ => false,
        }
    }

    #[verifier::when_used_as_spec(spec_is_disconnect)]
    pub fn is_disconnect(&self) -> (res: bool)
        ensures
            res == self.spec_is_disconnect(),
    {
        match self {
            ConnectionError::ConnectionClosed => true,
            ConnectionError::ParseError(ParseError::WrongMessageType { expected: _, found }) => {
                match found {
                    WsMessageType::Close => true,
                    _ => false,
                }
            },
            _ => false,
        }
    }
}

/// Returned to the caller of a tool.
#[derive(Debug)]
pub enum ToolCallError {
    ConnectionError(ConnectionError),
    /// Either the tool is not sending a result or the connection ended
    /// before one arrived.
    ProtocolError,
    ToolError(String),
    /// The caller's own callback asked for the abort.
    OnMessageAbort,
    ToolReturnedError(ToolError),
}

/// Returned by the tool in the final result as reason if no value was
/// computed.
#[derive(Debug, Clone, PartialEq, Eq)]
pub enum ToolError {
    Abort(AbortReason),
    Custom(String),
}

/// A tool that was told to stop fails with the reason it was told.
impl From<AbortReason> for ToolError {
    fn from(value: AbortReason) -> (res: Self)
        ensures
            res == ToolError::Abort(value),
    {
        ToolError::Abort(value)
    }
}

impl vstd::std_specs::convert::FromSpecImpl<AbortReason> for ToolError {
    open spec fn obeys_from_spec() -> bool {
        true
    }

    open spec fn from_spec(value: AbortReason) -> Self {
        ToolError::Abort(value)
    }
}

impl From<ExtractionError> for LookupError {
    fn from(value: ExtractionError) -> (res: Self)
        ensures
            res == LookupError::ConversionError(value),
    {
        LookupError::ConversionError(value)
    }
}

impl vstd::std_specs::convert::FromSpecImpl<ExtractionError> for LookupError {
    open spec fn obeys_from_spec() -> bool {
        true
    }

    open spec fn from_spec(value: ExtractionError) -> Self {
        LookupError::ConversionError(value)
    }
}

impl From<ParseError> for ConnectionError {
    fn from(value: ParseError) -> (res: Self)
        ensures
            res == ConnectionError::ParseError(value),
    {
        ConnectionError::ParseError(value)
    }
}

impl vstd::std_specs::convert::FromSpecImpl<ParseError> for ConnectionError {
    open spec fn obeys_from_spec() -> bool {
        true
    }

    open spec fn from_spec(value: ParseError) -> Self {
        ConnectionError::ParseError(value)
    }
}

/// A tool whose thread could not be joined has crashed.
impl From<tokio::task::JoinError> for ConnectionError {
    fn from(value: tokio::task::JoinError) -> (res: Self)
        ensures
            res == ConnectionError::ToolPanic(value),
    {
        ConnectionError::ToolPanic(value)
    }
}

impl vstd::std_specs::convert::FromSpecImpl<tokio::task::JoinError> for ConnectionError {
    open spec fn obeys_from_spec() -> bool {
        true
    }

    open spec fn from_spec(value: tokio::task::JoinError) -> Self {
        ConnectionError::ToolPanic(value)
    }
}

impl From<ConnectionError> for ToolCallError {
    fn from(value: ConnectionError) -> (res: Self)
        ensures
            res == ToolCallError::ConnectionError(value),
    {
        ToolCallError::ConnectionError(value)
    }
}

impl vstd::std_specs::convert::FromSpecImpl<ConnectionError> for ToolCallError {
    open spec fn obeys_from_spec() -> bool {
        true
    }

    open spec fn from_spec(value: ConnectionError) -> Self {
        ToolCallError::ConnectionError(value)
    }
}

impl From<ToolError> for ToolCallError {
    fn from(value: ToolError) -> (res: Self)
        ensures
            res == ToolCallError::ToolReturnedError(value),
    {
        ToolCallError::ToolReturnedError(value)
    }
}

impl vstd::std_specs::convert::FromSpecImpl<ToolError> for ToolCallError {
    open spec fn obeys_from_spec() -> bool {
        true
    }

    open spec fn from_spec(value: ToolError) -> Self {
        ToolCallError::ToolReturnedError(value)
    }
}

} // verus!
