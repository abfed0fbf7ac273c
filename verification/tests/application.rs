use xiaoxin_esp32::application::{Application, ApplicationConfig, ApplicationState, Command};
use xiaoxin_esp32::audio::queue::BoundedPacketQueue;
use xiaoxin_esp32::audio::AudioStreamPacket;
use xiaoxin_esp32::common::enums::{AbortReason, AecMode, DeviceState, ListeningMode};
use xiaoxin_esp32::common::event::{CustomEvent, XzEvent, WEBSOCKET_PROTOCOL_SERVER_HELLO_EVENT};
use xiaoxin_esp32::protocols::websocket::message::ServerMessage;
use xiaoxin_esp32::protocols::websocket::ws_protocol::{SessionState, TransportEvent};

fn app(aec_mode: AecMode) -> Application {
    Application::new(ApplicationConfig { device_id: "AA:BB".to_string(), aec_mode })
}

fn complete_handshake(app: &mut Application, now: u64) {
    let mut incoming = BoundedPacketQueue::new(4);
    let _ = app.protocol_mut().open_audio_channel();
    let _ = app.protocol_mut().handle_event(TransportEvent::Connected, now, &mut incoming);
    let _ = app.protocol_mut().handle_event(
        TransportEvent::Text("{\"type\":\"hello\",\"session_id\":\"s\"}".to_string()),
        now,
        &mut incoming,
    );
}

fn listening(aec_mode: AecMode) -> Application {
    let mut app = app(aec_mode);
    assert_eq!(app.handle_event(XzEvent::ToggleChat, 0), vec![Command::OpenAudioChannel]);
    complete_handshake(&mut app, 0);
    let _ = app.on_open_finished();
    assert_eq!(app.device_state(), DeviceState::Listening);
    app
}

fn text(body: &str) -> XzEvent {
    XzEvent::WebsocketTextMessageReceived(body.to_string())
}

const ALL_STATES: [DeviceState; 8] = [
    DeviceState::Idle,
    DeviceState::Activating,
    DeviceState::WifiConfiguring,
    DeviceState::Connecting,
    DeviceState::DeviceStateAudioTesting,
    DeviceState::Speaking,
    DeviceState::Listening,
    DeviceState::Starting,
];

#[test]
fn new_application_is_idle() {
    let app = app(AecMode::Off);
    assert_eq!(app.device_state(), DeviceState::Idle);
    assert_eq!(app.state(), ApplicationState::Idle);
    assert!(!app.is_capturing());
    assert_eq!(app.protocol().state(), SessionState::Disconnected);
    assert_eq!(app.protocol().device_id(), "AA:BB");
    assert_eq!(app.listening_mode(), ListeningMode::AutoStop);
}

#[test]
fn start_enters_starting() {
    let mut app = app(AecMode::Off);
    assert_eq!(app.start(), vec![]);
    assert_eq!(app.device_state(), DeviceState::Starting);
    assert_eq!(app.state(), ApplicationState::Starting);
    assert_eq!(app.start(), vec![]);
    assert_eq!(app.handle_event(XzEvent::ToggleChat, 0), vec![]);
    assert_eq!(app.device_state(), DeviceState::Starting);
}

#[test]
fn same_state_transition_is_a_no_op() {
    for state in ALL_STATES {
        let mut app = app(AecMode::Off);
        let _ = app.set_device_state(state);
        let capturing = app.is_capturing();
        let mode = app.listening_mode();
        assert_eq!(app.set_device_state(state), vec![]);
        assert_eq!(app.device_state(), state);
        assert_eq!(app.is_capturing(), capturing);
        assert_eq!(app.listening_mode(), mode);
        assert_eq!(app.protocol().state(), SessionState::Disconnected);
    }
}

#[test]
fn entering_states_runs_side_effects_once() {
    let mut app = app(AecMode::On);
    assert_eq!(
        app.set_device_state(DeviceState::Listening),
        vec![Command::SendStartListening(ListeningMode::AutoStop), Command::StartCapture]
    );
    assert!(app.is_capturing());
    assert_eq!(app.state(), ApplicationState::Recording);
    assert_eq!(app.set_device_state(DeviceState::Listening), vec![]);
    assert_eq!(app.set_device_state(DeviceState::Speaking), vec![]);
    assert_eq!(app.state(), ApplicationState::Playing);
    assert!(app.is_capturing());
    assert_eq!(app.set_device_state(DeviceState::Listening), vec![]);
    assert_eq!(app.set_device_state(DeviceState::Idle), vec![Command::StopCapture]);
    assert!(!app.is_capturing());
    assert_eq!(app.set_device_state(DeviceState::Idle), vec![]);
    assert_eq!(app.set_device_state(DeviceState::Activating), vec![]);
    assert_eq!(app.set_device_state(DeviceState::Idle), vec![Command::StopCapture]);
}

#[test]
fn failed_open_leaves_device_idle() {
    let mut app = app(AecMode::Off);
    let commands = app.handle_event(XzEvent::ToggleChat, 0);
    assert_eq!(commands, vec![Command::OpenAudioChannel]);
    assert_eq!(app.device_state(), DeviceState::Connecting);
    let request = app.protocol_mut().open_audio_channel();
    assert!(!request.close_first);
    let after = app.on_open_finished();
    assert_eq!(app.device_state(), DeviceState::Idle);
    assert!(!after.contains(&Command::StartCapture));
    assert_eq!(after, vec![Command::StopCapture]);
    assert!(!app.is_capturing());
    assert_eq!(app.protocol().state(), SessionState::Disconnected);
}

#[test]
fn open_fails_when_greeting_is_not_answered() {
    let mut app = app(AecMode::Off);
    let _ = app.handle_event(XzEvent::ToggleChat, 0);
    let mut incoming = BoundedPacketQueue::new(4);
    let _ = app.protocol_mut().open_audio_channel();
    let _ = app.protocol_mut().handle_event(TransportEvent::Connected, 0, &mut incoming);
    assert_eq!(app.device_state(), DeviceState::Connecting);
    assert_eq!(app.on_open_finished(), vec![Command::StopCapture]);
    assert_eq!(app.device_state(), DeviceState::Idle);
    assert_eq!(app.protocol().state(), SessionState::Disconnected);
}

#[test]
fn toggle_from_idle_opens_and_listens() {
    let mut app = app(AecMode::Off);
    assert_eq!(app.handle_event(XzEvent::ToggleChat, 0), vec![Command::OpenAudioChannel]);
    complete_handshake(&mut app, 0);
    assert_eq!(
        app.on_open_finished(),
        vec![Command::SendStartListening(ListeningMode::AutoStop), Command::StartCapture]
    );
    assert_eq!(app.device_state(), DeviceState::Listening);
    assert_eq!(app.listening_mode(), ListeningMode::AutoStop);
    assert_eq!(app.on_open_finished(), vec![]);
    let mut with_aec = listening(AecMode::On);
    assert_eq!(with_aec.listening_mode(), ListeningMode::Realtime);
    assert_eq!(with_aec.on_open_finished(), vec![]);
}

#[test]
fn toggle_from_idle_reuses_open_channel() {
    let mut app = app(AecMode::On);
    complete_handshake(&mut app, 1_000);
    assert_eq!(
        app.handle_event(XzEvent::ToggleChat, 2_000),
        vec![Command::SendStartListening(ListeningMode::Realtime), Command::StartCapture]
    );
    assert_eq!(app.device_state(), DeviceState::Listening);
}

#[test]
fn toggle_from_idle_reopens_stale_channel() {
    let mut app = app(AecMode::Off);
    complete_handshake(&mut app, 1_000);
    assert_eq!(app.handle_event(XzEvent::ToggleChat, 122_000), vec![Command::OpenAudioChannel]);
    assert_eq!(app.device_state(), DeviceState::Connecting);
    assert!(app.protocol_mut().open_audio_channel().close_first);
}

#[test]
fn toggle_from_listening_closes() {
    let mut app = listening(AecMode::Off);
    assert_eq!(
        app.handle_event(XzEvent::ToggleChat, 10),
        vec![Command::CloseAudioChannel, Command::StopCapture]
    );
    assert_eq!(app.device_state(), DeviceState::Idle);
    assert_eq!(app.protocol().state(), SessionState::Disconnected);
    assert!(!app.is_capturing());
}

#[test]
fn toggle_while_speaking_aborts() {
    let mut app = listening(AecMode::Off);
    let _ = app.handle_event(text("{\"type\":\"tts\",\"state\":\"start\"}"), 5);
    assert_eq!(
        app.handle_event(XzEvent::ToggleChat, 10),
        vec![Command::SendAbortSpeaking(AbortReason::NoReason)]
    );
    assert_eq!(app.device_state(), DeviceState::Speaking);
    assert_eq!(app.protocol().state(), SessionState::Open);
}

#[test]
fn service_speech_starts_and_stops() {
    let mut app = listening(AecMode::Off);
    assert_eq!(app.listening_mode(), ListeningMode::AutoStop);
    assert_eq!(app.handle_event(text("{\"type\":\"tts\",\"state\":\"start\"}"), 5), vec![]);
    assert_eq!(app.device_state(), DeviceState::Speaking);
    assert_eq!(app.handle_event(text("{\"type\":\"tts\",\"state\":\"stop\"}"), 6), vec![]);
    assert_eq!(app.device_state(), DeviceState::Listening);
}

#[test]
fn tts_from_idle_and_manual_mode() {
    let mut app = app(AecMode::Off);
    assert_eq!(app.on_server_message(ServerMessage::TtsStart), vec![]);
    assert_eq!(app.device_state(), DeviceState::Speaking);
    assert_eq!(
        app.on_server_message(ServerMessage::TtsStop),
        vec![Command::SendStartListening(ListeningMode::AutoStop), Command::StartCapture]
    );
    assert_eq!(app.device_state(), DeviceState::Listening);
    assert_eq!(app.on_server_message(ServerMessage::TtsStop), vec![]);
    assert_eq!(app.device_state(), DeviceState::Listening);
}

#[test]
fn other_messages_are_ignored() {
    for body in [
        "{\"type\":\"tts\",\"state\":\"sentence_start\",\"text\":\"hi\"}",
        "{\"type\":\"stt\",\"text\":\"hi\"}",
        "{\"type\":\"hello\"}",
        "not json",
        "",
    ] {
        let mut app = listening(AecMode::Off);
        assert_eq!(app.handle_event(text(body), 5), vec![]);
        assert_eq!(app.device_state(), DeviceState::Listening);
    }
    let mut starting = app(AecMode::Off);
    let _ = starting.start();
    assert_eq!(starting.handle_event(text("{\"type\":\"tts\",\"state\":\"start\"}"), 0), vec![]);
    assert_eq!(starting.device_state(), DeviceState::Starting);
    assert_eq!(starting.handle_event(text("{\"type\":\"tts\",\"state\":\"stop\"}"), 0), vec![]);
    assert_eq!(starting.device_state(), DeviceState::Starting);
}

#[test]
fn audio_signals() {
    let mut app = listening(AecMode::Off);
    assert_eq!(app.handle_event(XzEvent::SendAudioEvent, 1), vec![Command::DrainOutgoing]);
    assert_eq!(app.handle_event(XzEvent::AudioDataReceived, 1), vec![Command::DiscardIncoming]);
    let _ = app.on_server_message(ServerMessage::TtsStart);
    assert_eq!(app.handle_event(XzEvent::AudioDataReceived, 1), vec![Command::TriggerPlayback]);
    assert_eq!(app.handle_event(XzEvent::WebSocketConnected, 1), vec![]);
    assert_eq!(app.handle_event(XzEvent::ServerHelloMessageReceived, 1), vec![]);
    assert_eq!(app.device_state(), DeviceState::Speaking);
}

#[test]
fn open_and_close_requests() {
    let mut app = app(AecMode::Off);
    assert_eq!(app.handle_event(XzEvent::CloseAudioChannel, 0), vec![]);
    assert_eq!(app.device_state(), DeviceState::Idle);
    assert_eq!(app.handle_event(XzEvent::OpenAudioChannel, 0), vec![Command::OpenAudioChannel]);
    assert_eq!(app.handle_event(XzEvent::OpenAudioChannel, 0), vec![]);
    complete_handshake(&mut app, 0);
    let _ = app.on_open_finished();
    assert_eq!(
        app.handle_event(XzEvent::CloseAudioChannel, 0),
        vec![Command::CloseAudioChannel, Command::StopCapture]
    );
    assert_eq!(app.device_state(), DeviceState::Idle);
}

#[test]
fn lost_connection_ends_conversation() {
    let mut app = listening(AecMode::Off);
    assert_eq!(app.handle_event(XzEvent::WebSocketClosed, 3), vec![Command::StopCapture]);
    assert_eq!(app.device_state(), DeviceState::Idle);
    assert_eq!(app.handle_event(XzEvent::WebSocketClosed, 3), vec![]);
    let mut starting = app_in_starting();
    assert_eq!(starting.handle_event(XzEvent::WebSocketClosed, 3), vec![]);
    assert_eq!(starting.device_state(), DeviceState::Starting);
}

fn app_in_starting() -> Application {
    let mut a = app(AecMode::Off);
    let _ = a.start();
    a
}

#[test]
fn audio_is_sent_only_on_open_session() {
    let packets = || {
        vec![
            AudioStreamPacket { sample_rate: 16000, frame_duration: 60, timestamp: 0, payload: vec![1] },
            AudioStreamPacket { sample_rate: 16000, frame_duration: 60, timestamp: 0, payload: vec![2, 3] },
            AudioStreamPacket { sample_rate: 16000, frame_duration: 60, timestamp: 0, payload: vec![] },
        ]
    };
    let idle = app(AecMode::Off);
    assert_eq!(idle.send_audio(packets()), Vec::<Vec<u8>>::new());
    let open = listening(AecMode::Off);
    assert_eq!(open.send_audio(packets()), vec![vec![1], vec![2, 3], vec![]]);
    assert_eq!(open.send_audio(vec![]), Vec::<Vec<u8>>::new());
}

#[test]
fn system_events() {
    assert_eq!(WEBSOCKET_PROTOCOL_SERVER_HELLO_EVENT, 1);
    let tick = CustomEvent::Tick(3);
    assert_eq!(tick, CustomEvent::Tick(3));
    assert_ne!(CustomEvent::Start, CustomEvent::WebSocketConnected);
    assert_ne!(CustomEvent::ServerHelloMessageReceived, CustomEvent::Start);
}

#[test]
fn manual_listening_ends_in_idle_after_speech() {
    let mut app = app(AecMode::Off);
    assert_eq!(
        app.start_listening(ListeningMode::Manual),
        vec![Command::SendStartListening(ListeningMode::Manual), Command::StartCapture]
    );
    assert_eq!(app.device_state(), DeviceState::Listening);
    assert_eq!(app.listening_mode(), ListeningMode::Manual);
    assert_eq!(app.start_listening(ListeningMode::Manual), vec![]);
    assert_eq!(app.on_server_message(ServerMessage::TtsStart), vec![]);
    assert_eq!(app.device_state(), DeviceState::Speaking);
    assert_eq!(app.on_server_message(ServerMessage::TtsStop), vec![Command::StopCapture]);
    assert_eq!(app.device_state(), DeviceState::Idle);
    assert!(!app.is_capturing());
    let mut realtime = self::app(AecMode::Off);
    let _ = realtime.start_listening(ListeningMode::Realtime);
    let _ = realtime.on_server_message(ServerMessage::TtsStart);
    assert_eq!(realtime.on_server_message(ServerMessage::TtsStop), vec![]);
    assert_eq!(realtime.device_state(), DeviceState::Listening);
    assert_eq!(realtime.listening_mode(), ListeningMode::Realtime);
}
