//! The session over a persistent bidirectional connection.

pub mod message;
pub mod ws_protocol;
