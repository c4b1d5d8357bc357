//! A realtime chat relay: the connection registry, the broadcast hub, the
//! per-connection read and write state machines, and the plain-value side of
//! the message store and of the history endpoints.
//!
//! Everything here is synchronous and free of I/O. A server drives it: it owns
//! the sockets and the database pool, feeds events to the state machines and
//! carries out the actions they hand back.

pub mod clock;
pub mod data;
pub mod handlers;
pub mod hub;
pub mod ids;
pub mod model;
pub mod reader;
pub mod registry;
pub mod writer;
