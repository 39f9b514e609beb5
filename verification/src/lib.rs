//! A UDP signaling reflector for NAT traversal.
//!
//! A client sends a small fixed-format request that names a session. The
//! reflector records the address and port the request was seen to come from
//! against that session, and answers with that same address and port, so the
//! client learns how it appears from outside its own network.
//!
//! The crate holds everything the reflector decides: the wire format
//! ([`wire`]), the session records and the two-phase update of the shared
//! table ([`session`], [`table`]), the handling of one datagram
//! ([`reflector`]) and the life cycle of the server ([`server`]). Sockets,
//! timers and tasks belong to the caller, which feeds events in and carries
//! the directives out.

pub mod session;
pub mod wire;
pub mod table;
pub mod reflector;
pub mod server;
