//! Peer discovery and transfer coordination for devices that share files and
//! text on a local network.
//!
//! The crate holds the rules of the protocol: the registry of known peers and
//! its expiry, the reaction to each discovery message, the lifecycle of the
//! discovery service, and the construction and acceptance of transfer
//! messages. Sockets, timers, the HTTP client and server, and the encoding of
//! messages on the wire belong to the program that embeds the crate; it hands
//! plain values in and carries out the actions that come back.

pub mod discovery;
pub mod registry;
pub mod text;
pub mod transfer;
pub mod types;
