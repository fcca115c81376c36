//! The two ends of a connection and what they agree on.

pub mod common;
pub mod server;
pub mod sync;
pub mod sync_wasm;

pub use common::WsMessageType;
pub use server::WsChannelServer;
pub use sync::WsChannelSync;
