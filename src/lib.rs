//! Peer-to-peer connection management for a blockchain node: the peer
//! registry, the decisions behind inbound and outbound handshakes, the
//! handshake deadline and the shutdown of all peers.

pub mod types;
pub mod registry;
pub mod server;
pub mod laws;
