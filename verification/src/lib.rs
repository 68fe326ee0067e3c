//! A rendezvous library for NAT hole-punching servers.
//!
//! Two peers that cannot address each other directly exchange their observed
//! network addresses through a small intermediary. One peer registers as a
//! host and receives a short join code; a second peer presents that code and
//! the server hands each side the other's address, then forgets the pairing.
//!
//! This crate holds the verified core: the message grammar, the join-code
//! generator, the registry of pending hosts, and the matching engine. The
//! transport (sockets, reads and writes) lives outside and feeds the engine
//! plain bytes.

pub mod code;
pub mod engine;
pub mod generator;
pub mod laws;
pub mod messages;
pub mod parse;
pub mod registry;
