//! Driver for the ES7210 four-channel microphone converter.

pub mod enums;
pub mod es7210;
pub mod reg;
