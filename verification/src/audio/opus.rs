//! The library's side of the speech codec: how samples are cut into frames
//! for the encoder, and how large a decoded frame is.

pub mod decoder;
pub mod encoder;
