//! Consumer-side client session for a pub/sub message broker: the message
//! identifier codec, the client-facing error taxonomy, the connection and
//! subscription policy, and the session slot's state machine.

pub mod auth;
pub mod consumer;
pub mod decimal;
pub mod error;
pub mod payload;
pub mod types;
pub mod wrapper;
