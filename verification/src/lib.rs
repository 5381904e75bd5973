//! Local relay between browser WebSocket/HTTP clients and a UDP-based peer
//! process: byte-level frame codecs, the connection registry with its port
//! allocator, and the JSON-RPC-over-UDP relay decision logic.

pub mod frames;
pub mod jsonrpc;
pub mod numfmt;
pub mod portal;
pub mod registry;
pub mod relay;
pub mod state;
