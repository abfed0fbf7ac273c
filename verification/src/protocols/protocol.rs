//! What the device asks of a session with the service, whatever carries it.

use vstd::prelude::*;

use crate::audio::AudioStreamPacket;
use crate::protocols::websocket::ws_protocol::ConnectRequest;

verus! {

/// A session with the service. It decides what may be sent; sending is the
/// transport's part.
pub trait Protocol {
    /// The text frame to hand to the transport for `text`, if any.
    fn send_text(&self, text: String) -> Option<String>;

    /// The binary frame to hand to the transport for `audio`, if any.
    fn send_audio(&self, audio: &AudioStreamPacket) -> Option<Vec<u8>>;

    /// Begins to open the audio channel and says what is needed to connect.
    fn open_audio_channel(&mut self) -> ConnectRequest;
}

} // verus!
