//! Runtime core of a voice-assistant client device.

pub mod application;
pub mod audio;
pub mod boards;
pub mod common;
pub mod protocols;
pub mod utils;
pub mod wifi;
