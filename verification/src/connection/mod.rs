//! Sending data between the client and the server, and between the task that
//! serves a connection and the thread that runs the tool.

pub mod channel;
pub mod websocket;
