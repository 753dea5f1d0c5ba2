//! Core of a client for the TWS / IB Gateway wire protocol: framing and the
//! start-up exchange, the typed message buffer, the decoders of the order
//! messages, whose layout depends on the negotiated version, the identifier
//! sequences, the subscription registry with the decisions of the router,
//! pacing, and the interaction trace.
//!
//! The library decides and computes; it never reads a socket, a clock or a
//! lock. Its contracts are stated over the mathematical content of its
//! types, which `@` gives.

pub mod contracts;
pub mod errors;
pub mod handshake;
pub mod id_generator;
pub mod messages;
pub mod numeric;
pub mod orders;
pub mod pacing;
pub mod reading;
pub mod router;
pub mod server_versions;
pub mod subscriptions;
pub mod text;
pub mod trace;
pub mod transport;
pub mod views;
