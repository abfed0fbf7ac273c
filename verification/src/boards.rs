//! The boards that the device runs on.

pub mod board;
