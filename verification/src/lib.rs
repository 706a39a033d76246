//! A minimal application-layer ping protocol over an already-established,
//! multiplexed transport connection.
//!
//! One `Ping` instance holds a pair of monotonic counters and implements both
//! roles of the protocol: the outbound client exchange (send `PING`, read and
//! validate `PONG`, measure the round trip) and the inbound server exchange
//! (read and validate `PING`, answer with `PONG`, wait for the peer to close).
//! All transport work — connecting, opening and accepting streams, reading,
//! writing, closing — is a capability of the caller; this crate decides, step
//! by step, what the next transport action is and how the counters move.

pub mod client;
pub mod metrics;
pub mod ping;
pub mod server;
pub mod wire;
