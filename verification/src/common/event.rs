//! The events that travel on the device's internal channel. Audio never
//! does: a packet goes through a queue, and only the signal that one is
//! ready goes through the channel.

use vstd::prelude::*;

verus! {

/// The identifier under which the arrival of the service's greeting is
/// posted on the system event loop.
pub const WEBSOCKET_PROTOCOL_SERVER_HELLO_EVENT: u32 = 1;

/// An event on the system event loop.
#[derive(Copy, Clone, Debug, PartialEq, Eq, Structural)]
pub enum CustomEvent {
    Start,
    WebSocketConnected,
    /// The service answered the device's greeting.
    ServerHelloMessageReceived,
    Tick(u32),
}

/// An event on the internal channel. The controller is its only consumer.
#[derive(Debug)]
pub enum XzEvent {
    /// The talk button was clicked: start or end a conversation.
    ToggleChat,
    /// Someone asks for the audio channel to be opened.
    OpenAudioChannel,
    /// Someone asks for the audio channel to be closed.
    CloseAudioChannel,
    /// The connection to the service is up.
    WebSocketConnected,
    /// The connection to the service is gone.
    WebSocketClosed,
    /// The service answered the device's greeting.
    ServerHelloMessageReceived,
    /// A packet was put into the outgoing queue.
    SendAudioEvent,
    /// A packet was put into the incoming queue.
    AudioDataReceived,
    /// The service sent this text message.
    WebsocketTextMessageReceived(String),
}

/// What an event is, as mathematics: its kind, and the characters of the
/// text that it carries.
pub enum EventView {
    ToggleChat,
    OpenAudioChannel,
    CloseAudioChannel,
    WebSocketConnected,
    WebSocketClosed,
    ServerHelloMessageReceived,
    SendAudioEvent,
    AudioDataReceived,
    WebsocketTextMessageReceived(Seq<char>),
}

impl View for XzEvent {
    type V = EventView;

    open spec fn view(&self) -> EventView {
        match self {
            XzEvent::ToggleChat => EventView::ToggleChat,
            XzEvent::OpenAudioChannel => EventView::OpenAudioChannel,
            XzEvent::CloseAudioChannel => EventView::CloseAudioChannel,
            XzEvent::WebSocketConnected => EventView::WebSocketConnected,
            XzEvent::WebSocketClosed => EventView::WebSocketClosed,
            XzEvent::ServerHelloMessageReceived => EventView::ServerHelloMessageReceived,
            XzEvent::SendAudioEvent => EventView::SendAudioEvent,
            XzEvent::AudioDataReceived => EventView::AudioDataReceived,
            XzEvent::WebsocketTextMessageReceived(text) => EventView::WebsocketTextMessageReceived(
                text@,
            ),
        }
    }
}

} // verus!
