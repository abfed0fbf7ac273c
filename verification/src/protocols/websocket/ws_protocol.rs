//! The session with the service: connecting, the exchange of greetings,
//! the liveness of an open session, and what may be sent when.
//!
//! The session decides; the transport acts. Every operation says what is
//! to be sent, and `handle_event` takes what the transport reports.

use vstd::prelude::*;

use crate::audio::queue::{accepts, after_push, BoundedPacketQueue};
use crate::audio::{AudioStreamPacket, PacketView};
use crate::common::enums::{AbortReason, ListeningMode};
use crate::common::event::{EventView, XzEvent};
use crate::protocols::protocol::Protocol;
use crate::protocols::websocket::message::{
    abort_message, abort_text, classify_message, connect_headers, header_text, json_compact,
    json_quoted, json_string_member, listen_message, listen_text, session_id_of, text_kind,
    ClientHelloMessage, MessageError, ServerMessage, HELLO_BODY,
};

verus! {

/// How long an open session may go without a message from the service
/// before it counts as dead, in milliseconds.
pub const LIVENESS_TIMEOUT_MS: u64 = 120_000;

/// How long a connection attempt may take, in seconds.
pub const CONNECT_TIMEOUT_SECS: u64 = 10;

/// Where the service listens.
pub const SERVICE_URL: &'static str = "ws://192.168.1.105:8000/xiaozhi/v1/";

/// The sample rate of the audio that the service sends.
pub const INBOUND_SAMPLE_RATE: i32 = 16000;

/// The duration of one frame of the audio that the service sends, in
/// milliseconds.
pub const INBOUND_FRAME_DURATION_MS: i32 = 60;

/// Where a session stands.
#[derive(Copy, Clone, Debug, PartialEq, Eq, Structural)]
pub enum SessionState {
    /// There is no connection.
    Disconnected,
    /// A connection is being made.
    Connecting,
    /// The connection is up and the device has sent its greeting.
    HandshakePending,
    /// The service has answered the greeting.
    Open,
}

/// The two kinds of frame on the connection.
#[derive(Copy, Clone, Debug, PartialEq, Eq, Structural)]
pub enum FrameType {
    Text,
    Binary,
}

/// The signal that ends the wait for the service's greeting.
#[derive(Copy, Clone, Debug, PartialEq, Eq, Structural)]
pub enum WebSocketHelloEvent {
    ServerHelloEvent,
}

/// What the transport reports.
#[derive(Debug)]
pub enum TransportEvent {
    BeforeConnect,
    Connected,
    Disconnected,
    /// The service announced that it closes the connection.
    Close,
    Closed,
    Text(String),
    Binary(Vec<u8>),
    Ping,
    Pong,
}

/// What is needed to connect.
#[derive(Debug)]
pub struct ConnectRequest {
    /// Whether an earlier connection has to be torn down first.
    pub close_first: bool,
    /// The headers that identify the device.
    pub headers: String,
}

/// What follows from one report of the transport.
#[derive(Debug)]
pub struct SessionOutput {
    /// A text frame to send at once.
    pub send_text: Option<String>,
    /// An event to post on the internal channel.
    pub forward: Option<XzEvent>,
    /// The signal for whoever waits for the service's greeting.
    pub handshake: Option<WebSocketHelloEvent>,
}

/// The session as mathematics.
pub struct SessionModel {
    pub state: SessionState,
    /// When the service was last heard of, in milliseconds.
    pub last_activity: Option<u64>,
    pub session_id: Seq<char>,
    pub device_id: Seq<char>,
}

/// Whether a session that last heard of the service at `last_activity` is
/// dead at the time `now`.
pub open spec fn timed_out(last_activity: Option<u64>, now: u64) -> bool {
    last_activity matches Some(last) && now > last && now - last > LIVENESS_TIMEOUT_MS
}

/// The state after the service's greeting has arrived.
pub open spec fn state_after_hello(state: SessionState) -> SessionState {
    if state == SessionState::HandshakePending {
        SessionState::Open
    } else {
        state
    }
}

/// The packet that wraps the bytes of one binary frame from the service.
pub open spec fn inbound_packet(payload: Seq<u8>) -> PacketView {
    PacketView {
        sample_rate: INBOUND_SAMPLE_RATE as int,
        frame_duration: INBOUND_FRAME_DURATION_MS as int,
        timestamp: 0,
        payload,
    }
}

/// The session with the service, for one device.
pub struct WebSocketProtocol {
    device_id: String,
    session_id: String,
    state: SessionState,
    last_activity: Option<u64>,
}

impl View for WebSocketProtocol {
    type V = SessionModel;

    closed spec fn view(&self) -> SessionModel {
        SessionModel {
            state: self.state,
            last_activity: self.last_activity,
            session_id: self.session_id@,
            device_id: self.device_id@,
        }
    }
}

impl WebSocketProtocol {
    /// A session for the device `device_id`. There is no connection yet.
    pub fn new(device_id: &str) -> (session: Self)
        ensures
            session@ == (SessionModel {
                state: SessionState::Disconnected,
                last_activity: None,
                session_id: Seq::<char>::empty(),
                device_id: device_id@,
            }),
    {
        WebSocketProtocol {
            device_id: device_id.to_owned(),
            session_id: String::new(),
            state: SessionState::Disconnected,
            last_activity: None,
        }
    }

    /// Where the session stands.
    pub fn state(&self) -> (state: SessionState)
        ensures
            state == self@.state,
    {
        self.state
    }

    /// The identifier under which the device is known to the service.
    pub fn device_id(&self) -> (device_id: &str)
        ensures
            device_id@ == self@.device_id,
    {
        self.device_id.as_str()
    }

    /// The identifier that the service gave to the session; empty while
    /// there is none.
    pub fn session_id(&self) -> (session_id: &str)
        ensures
            session_id@ == self@.session_id,
    {
        self.session_id.as_str()
    }

    /// Whether the connection is up and the service has answered the
    /// greeting.
    pub fn is_connected(&self) -> (connected: bool)
        ensures
            connected == (self@.state == SessionState::Open),
    {
        self.state == SessionState::Open
    }

    /// Whether the service has been silent for more than the liveness
    /// window at the time `now`, in milliseconds.
    pub fn is_timeout(&self, now: u64) -> (timeout: bool)
        ensures
            timeout == timed_out(self@.last_activity, now),
    {
        match self.last_activity {
            Some(last) => now > last && now - last > LIVENESS_TIMEOUT_MS,
            None => false,
        }
    }

    /// Whether audio can flow at the time `now`: the session is open and
    /// the service has been heard of within the liveness window.
    pub fn is_audio_channel_opened(&self, now: u64) -> (opened: bool)
        ensures
            opened == (self@.state == SessionState::Open && !timed_out(self@.last_activity, now)),
    {
        self.is_connected() && !self.is_timeout(now)
    }

    /// Begins to open the audio channel. A session that is not
    /// disconnected is closed first. The caller connects with the headers
    /// returned, passes what the transport reports to `handle_event`, and
    /// waits until the greeting is answered or the attempt fails.
    pub fn open_audio_channel(&mut self) -> (request: ConnectRequest)
        ensures
            request.close_first == (old(self)@.state != SessionState::Disconnected),
            request.headers@ == header_text(old(self)@.device_id),
            final(self)@ == (SessionModel {
                state: SessionState::Connecting,
                last_activity: None,
                session_id: Seq::<char>::empty(),
                device_id: old(self)@.device_id,
            }),
    {
        let close_first = self.close_audio_channel();
        self.state = SessionState::Connecting;
        ConnectRequest { close_first, headers: connect_headers(self.device_id.as_str()) }
    }

    /// Notes that the attempt to connect, or the wait for the greeting,
    /// has failed: the session is disconnected again.
    pub fn on_connect_failed(&mut self)
        ensures
            final(self)@ == (SessionModel {
                state: SessionState::Disconnected,
                last_activity: None,
                session_id: Seq::<char>::empty(),
                device_id: old(self)@.device_id,
            }),
    {
        let _ = self.close_audio_channel();
    }

    /// Closes the session: it is disconnected, and both the time of the
    /// last message and the session's identifier are forgotten. Returns
    /// whether there was a connection to tear down.
    pub fn close_audio_channel(&mut self) -> (had_connection: bool)
        ensures
            had_connection == (old(self)@.state != SessionState::Disconnected),
            final(self)@ == (SessionModel {
                state: SessionState::Disconnected,
                last_activity: None,
                session_id: Seq::<char>::empty(),
                device_id: old(self)@.device_id,
            }),
    {
        let had_connection = self.state != SessionState::Disconnected;
        self.state = SessionState::Disconnected;
        self.last_activity = None;
        self.session_id = String::new();
        had_connection
    }

    /// Notes that the service has answered the greeting: a session that
    /// waited for the answer is open now.
    pub fn on_server_hello_msg(&mut self)
        ensures
            final(self)@ == (SessionModel {
                state: state_after_hello(old(self)@.state),
                ..old(self)@
            }),
    {
        if self.state == SessionState::HandshakePending {
            self.state = SessionState::Open;
        }
    }

    /// The greeting to send, if there is a connection to send it on.
    pub fn send_hello_message(&self) -> (result: Result<Option<String>, MessageError>)
        ensures
            result is Ok <==> json_compact(HELLO_BODY@) is Some,
            result matches Ok(Some(message)) ==> Some(message@) == json_compact(HELLO_BODY@),
            result matches Ok(sent) ==> sent is Some == (self@.state
                != SessionState::Disconnected),
            result matches Err(e) ==> e == MessageError::Json,
    {
        let message = match ClientHelloMessage::new() {
            Ok(message) => message,
            Err(e) => {
                return Err(e);
            },
        };
        if self.state != SessionState::Disconnected {
            Ok(Some(message))
        } else {
            Ok(None)
        }
    }

    /// The frame to hand to the transport: the one given, while the
    /// session is connected; none otherwise.
    pub fn send(&self, frame_type: FrameType, frame_data: Vec<u8>) -> (frame: Option<
        (FrameType, Vec<u8>),
    >)
        ensures
            frame is Some == (self@.state == SessionState::Open),
            frame matches Some(sent) ==> sent.0 == frame_type && sent.1 == frame_data,
    {
        if self.is_connected() {
            Some((frame_type, frame_data))
        } else {
            None
        }
    }

    /// The text frame to hand to the transport: the text given, while the
    /// session is connected; none otherwise.
    pub fn send_text(&self, text: String) -> (frame: Option<String>)
        ensures
            frame is Some == (self@.state == SessionState::Open),
            frame matches Some(sent) ==> sent == text,
    {
        if self.is_connected() {
            Some(text)
        } else {
            None
        }
    }

    /// The text frame that asks the service to stop speaking; none while
    /// the session is not connected.
    pub fn send_abort_speaking(&self, reason: AbortReason) -> (result: Result<
        Option<String>,
        MessageError,
    >)
        ensures
            self@.state != SessionState::Open ==> result == Ok::<Option<String>, MessageError>(
                None,
            ),
            self@.state == SessionState::Open ==> (result matches Ok(Some(message)) && message@
                == abort_text(json_quoted(self@.session_id), reason)),
    {
        if !self.is_connected() {
            return Ok(None);
        }
        match abort_message(self.session_id.as_str(), reason) {
            Ok(message) => Ok(Some(message)),
            Err(e) => Err(e),
        }
    }

    /// The text frame that tells the service that the device listens in
    /// `mode`; none while the session is not connected.
    pub fn send_start_listening(&self, mode: ListeningMode) -> (result: Result<
        Option<String>,
        MessageError,
    >)
        ensures
            self@.state != SessionState::Open ==> result == Ok::<Option<String>, MessageError>(
                None,
            ),
            self@.state == SessionState::Open ==> (result matches Ok(Some(message)) && message@
                == listen_text(json_quoted(self@.session_id), mode)),
    {
        if !self.is_connected() {
            return Ok(None);
        }
        match listen_message(self.session_id.as_str(), mode) {
            Ok(message) => Ok(Some(message)),
            Err(e) => Err(e),
        }
    }

    /// Takes the report that the connection is up. A session that was
    /// connecting sends its greeting and waits for the answer; if the
    /// greeting cannot be made, nothing is sent and the session keeps
    /// connecting. The report is posted on the internal channel.
    pub fn on_connected(&mut self) -> (output: SessionOutput)
        ensures
            output.handshake is None,
            output.forward matches Some(event) && event@ == EventView::WebSocketConnected,
            old(self)@.state != SessionState::Connecting ==> final(self)@ == old(self)@
                && output.send_text is None,
            old(self)@.state == SessionState::Connecting ==> {
                &&& output.send_text is Some == json_compact(HELLO_BODY@) is Some
                &&& output.send_text matches Some(message) ==> Some(message@) == json_compact(
                    HELLO_BODY@,
                )
                &&& final(self)@ == (SessionModel {
                    state: if output.send_text is Some {
                        SessionState::HandshakePending
                    } else {
                        SessionState::Connecting
                    },
                    ..old(self)@
                })
            },
    {
        let mut send_text: Option<String> = None;
        if self.state == SessionState::Connecting {
            match ClientHelloMessage::new() {
                Ok(message) => {
                    send_text = Some(message);
                    self.state = SessionState::HandshakePending;
                },
                Err(_) => {},
            }
        }
        SessionOutput { send_text, forward: Some(XzEvent::WebSocketConnected), handshake: None }
    }

    /// Takes a text message that arrived at the time `now`. The service
    /// counts as alive. Its greeting ends the handshake and goes no
    /// further; every other message is posted on the internal channel.
    pub fn on_text(&mut self, text: String, now: u64) -> (output: SessionOutput)
        ensures
            output.send_text is None,
            final(self)@.last_activity == Some(now),
            final(self)@.device_id == old(self)@.device_id,
            text_kind(text@) == ServerMessage::Hello ==> {
                &&& output.handshake == Some(WebSocketHelloEvent::ServerHelloEvent)
                &&& output.forward is None
                &&& final(self)@.state == state_after_hello(old(self)@.state)
                &&& final(self)@.session_id == match json_string_member(text@, "session_id"@) {
                    Some(id) => id,
                    None => Seq::<char>::empty(),
                }
            },
            text_kind(text@) != ServerMessage::Hello ==> {
                &&& output.handshake is None
                &&& output.forward matches Some(event) && event@
                    == EventView::WebsocketTextMessageReceived(text@)
                &&& final(self)@.state == old(self)@.state
                &&& final(self)@.session_id == old(self)@.session_id
            },
    {
        self.last_activity = Some(now);
        match classify_message(text.as_str()) {
            ServerMessage::Hello => {
                self.session_id = session_id_of(text.as_str());
                self.on_server_hello_msg();
                SessionOutput {
                    send_text: None,
                    forward: None,
                    handshake: Some(WebSocketHelloEvent::ServerHelloEvent),
                }
            },
            _ => SessionOutput {
                send_text: None,
                forward: Some(XzEvent::WebsocketTextMessageReceived(text)),
                handshake: None,
            },
        }
    }

    /// Takes a binary frame that arrived at the time `now`. The service
    /// counts as alive. The frame is wrapped as a packet and put into the
    /// incoming queue; if the queue takes it, the signal that audio is
    /// ready is posted on the internal channel. A frame that finds the
    /// queue full is dropped.
    pub fn on_binary(&mut self, payload: Vec<u8>, now: u64, incoming: &mut BoundedPacketQueue) -> (output:
        SessionOutput)
        ensures
            output.send_text is None,
            output.handshake is None,
            final(self)@ == (SessionModel { last_activity: Some(now), ..old(self)@ }),
            final(incoming).spec_capacity() == old(incoming).spec_capacity(),
            final(incoming)@ == after_push(
                old(incoming)@,
                old(incoming).spec_capacity(),
                inbound_packet(payload@),
            ),
            output.forward is Some == accepts(old(incoming)@, old(incoming).spec_capacity()),
            output.forward matches Some(event) ==> event@ == EventView::AudioDataReceived,
    {
        self.last_activity = Some(now);
        let packet = AudioStreamPacket {
            sample_rate: INBOUND_SAMPLE_RATE,
            frame_duration: INBOUND_FRAME_DURATION_MS,
            timestamp: 0,
            payload,
        };
        let forward = if incoming.push(packet) {
            Some(XzEvent::AudioDataReceived)
        } else {
            None
        };
        SessionOutput { send_text: None, forward, handshake: None }
    }

    /// Takes the report that the connection is gone: the session is
    /// closed, and the report is posted on the internal channel.
    pub fn on_closed(&mut self) -> (output: SessionOutput)
        ensures
            output.send_text is None,
            output.handshake is None,
            output.forward matches Some(event) && event@ == EventView::WebSocketClosed,
            final(self)@ == (SessionModel {
                state: SessionState::Disconnected,
                last_activity: None,
                session_id: Seq::<char>::empty(),
                device_id: old(self)@.device_id,
            }),
    {
        let _ = self.close_audio_channel();
        SessionOutput { send_text: None, forward: Some(XzEvent::WebSocketClosed), handshake: None }
    }

    /// Takes one report of the transport, made at the time `now`, and says
    /// what follows from it. Reports that carry neither a message nor a
    /// change of the connection change nothing.
    pub fn handle_event(
        &mut self,
        event: TransportEvent,
        now: u64,
        incoming: &mut BoundedPacketQueue,
    ) -> (output: SessionOutput)
        ensures
            final(incoming).spec_capacity() == old(incoming).spec_capacity(),
            !(event is Binary) ==> final(incoming)@ == old(incoming)@,
            final(self)@.device_id == old(self)@.device_id,
            match event {
                TransportEvent::Connected => {
                    &&& output.handshake is None
                    &&& output.forward matches Some(e) && e@ == EventView::WebSocketConnected
                    &&& old(self)@.state != SessionState::Connecting ==> final(self)@ == old(
                        self,
                    )@ && output.send_text is None
                    &&& old(self)@.state == SessionState::Connecting ==> {
                        &&& output.send_text is Some == json_compact(HELLO_BODY@) is Some
                        &&& output.send_text matches Some(message) ==> Some(message@)
                            == json_compact(HELLO_BODY@)
                        &&& final(self)@ == (SessionModel {
                            state: if output.send_text is Some {
                                SessionState::HandshakePending
                            } else {
                                SessionState::Connecting
                            },
                            ..old(self)@
                        })
                    }
                },
                TransportEvent::Disconnected | TransportEvent::Closed => {
                    &&& output.send_text is None
                    &&& output.handshake is None
                    &&& output.forward matches Some(e) && e@ == EventView::WebSocketClosed
                    &&& final(self)@ == (SessionModel {
                        state: SessionState::Disconnected,
                        last_activity: None,
                        session_id: Seq::<char>::empty(),
                        device_id: old(self)@.device_id,
                    })
                },
                TransportEvent::Text(text) => {
                    &&& output.send_text is None
                    &&& final(self)@.last_activity == Some(now)
                    &&& text_kind(text@) == ServerMessage::Hello ==> {
                        &&& output.handshake == Some(WebSocketHelloEvent::ServerHelloEvent)
                        &&& output.forward is None
                        &&& final(self)@.state == state_after_hello(old(self)@.state)
                        &&& final(self)@.session_id == match json_string_member(
                            text@,
                            "session_id"@,
                        ) {
                            Some(id) => id,
                            None => Seq::<char>::empty(),
                        }
                    }
                    &&& text_kind(text@) != ServerMessage::Hello ==> {
                        &&& output.handshake is None
                        &&& output.forward matches Some(e) && e@
                            == EventView::WebsocketTextMessageReceived(text@)
                        &&& final(self)@.state == old(self)@.state
                        &&& final(self)@.session_id == old(self)@.session_id
                    }
                },
                TransportEvent::Binary(payload) => {
                    &&& output.send_text is None
                    &&& output.handshake is None
                    &&& final(self)@ == (SessionModel { last_activity: Some(now), ..old(self)@ })
                    &&& final(incoming)@ == after_push(
                        old(incoming)@,
                        old(incoming).spec_capacity(),
                        inbound_packet(payload@),
                    )
                    &&& output.forward is Some == accepts(
                        old(incoming)@,
                        old(incoming).spec_capacity(),
                    )
                    &&& output.forward matches Some(e) ==> e@ == EventView::AudioDataReceived
                },
                _ => {
                    &&& output.send_text is None
                    &&& output.handshake is None
                    &&& output.forward is None
                    &&& final(self)@ == old(self)@
                },
            },
    {
        match event {
            TransportEvent::Connected => self.on_connected(),
            TransportEvent::Disconnected => self.on_closed(),
            TransportEvent::Closed => self.on_closed(),
            TransportEvent::Text(text) => self.on_text(text, now),
            TransportEvent::Binary(payload) => self.on_binary(payload, now, incoming),
            TransportEvent::BeforeConnect => SessionOutput {
                send_text: None,
                forward: None,
                handshake: None,
            },
            TransportEvent::Close => SessionOutput {
                send_text: None,
                forward: None,
                handshake: None,
            },
            TransportEvent::Ping => SessionOutput { send_text: None, forward: None, handshake: None },
            TransportEvent::Pong => SessionOutput { send_text: None, forward: None, handshake: None },
        }
    }
}

impl Protocol for WebSocketProtocol {
    /// The text given, while the session is connected; none otherwise.
    fn send_text(&self, text: String) -> (frame: Option<String>)
        ensures
            frame is Some == (self@.state == SessionState::Open),
            frame matches Some(sent) ==> sent == text,
    {
        WebSocketProtocol::send_text(self, text)
    }

    /// The payload of the packet, while the session is connected; none
    /// otherwise.
    fn send_audio(&self, audio: &AudioStreamPacket) -> (frame: Option<Vec<u8>>)
        ensures
            frame is Some == (self@.state == SessionState::Open),
            frame matches Some(sent) ==> sent@ == audio@.payload,
    {
        if self.is_connected() {
            Some(audio.payload.clone())
        } else {
            None
        }
    }

    /// Begins to open the audio channel; a session that is not
    /// disconnected is closed first.
    fn open_audio_channel(&mut self) -> (request: ConnectRequest)
        ensures
            request.close_first == (old(self)@.state != SessionState::Disconnected),
            request.headers@ == header_text(old(self)@.device_id),
            final(self)@ == (SessionModel {
                state: SessionState::Connecting,
                last_activity: None,
                session_id: Seq::<char>::empty(),
                device_id: old(self)@.device_id,
            }),
    {
        WebSocketProtocol::open_audio_channel(self)
    }
}

} // verus!
