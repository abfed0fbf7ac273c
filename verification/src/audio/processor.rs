//! The front ends that turn captured samples into frames for the encoder.

pub mod afe_audio_processor;
pub mod audio_processor;
pub mod no_audio_processor;
