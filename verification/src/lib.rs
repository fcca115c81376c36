//! A tool is a long-running computation hosted by a server. A client invokes
//! it over a persistent connection as if it were a local call that can also
//! stream progress messages and be cancelled while it runs.
//!
//! This crate holds what both sides decide and compute; it touches no
//! socket and awaits nothing.
//!
//! - [`value`]: the dynamically typed payload, [`Value`] and [`ValueDict`],
//!   and the extraction of nested values by a path.
//! - [`connection::websocket`]: the frames and messages that both ends agree
//!   on, and the single-message buffer behind each end of a connection.
//! - [`connection::channel`]: the bridge between the thread that runs a tool
//!   and the task that serves its connection.
//! - [`session`]: how the server serves one connection, step by step.
//! - [`client`]: how the client calls a tool, step by step; starts with
//!   [`call`].
//!
//! The two step machines are told what happened and answer what to do next.
//! Whoever owns the socket performs the actions and runs the loop.

pub mod channel;
pub mod client;
pub mod connection;
pub mod error;
pub mod session;
pub mod value;

pub use client::call;
pub use error::{
    AbortReason, ConnectionError, ExtractionError, LookupError, ParseError, ToolCallError,
    ToolError,
};
pub use value::dict::ValueDict;
pub use value::Value;
