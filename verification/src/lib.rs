//! Verified core of the Msger chat relay.
//!
//! The crate holds the rules of the relay as plain, synchronous functions with
//! machine-checked contracts: the message envelope, the handshake, the session
//! registry and the per-connection relay state machine. Sockets, tasks and
//! serialisation to JSON live with the programs that use this library.

pub mod address;
pub mod base64_serialize;
pub mod client;
pub mod config;
pub mod crypt;
pub mod error;
pub mod frame;
pub mod handshake;
pub mod messages;
pub mod registry;
pub mod relay;
pub mod server;
pub mod text;
pub mod worker;
