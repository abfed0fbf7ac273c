//! The session with the remote service.

pub mod protocol;
pub mod websocket;
