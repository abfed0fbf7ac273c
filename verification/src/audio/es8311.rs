//! Driver for the ES8311 mono audio codec.

pub mod es8311;
pub mod reg;
