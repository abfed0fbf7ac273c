//! The device controller: the one place where the lifecycle state of the
//! device changes. It takes the events of the internal channel one by one
//! and answers each with the commands to carry out.

use vstd::prelude::*;

use crate::audio::{byte_frames, AudioStreamPacket};
use crate::common::enums::{AbortReason, AecMode, DeviceState, ListeningMode};
use crate::common::event::{EventView, XzEvent};
use crate::protocols::websocket::message::{classify_message, text_kind, ServerMessage};
use crate::protocols::websocket::ws_protocol::{
    timed_out, SessionModel, SessionState, WebSocketProtocol,
};

verus! {

/// What the device is doing, in the coarsest terms.
#[derive(Copy, Clone, Debug, PartialEq, Eq, Structural)]
pub enum ApplicationState {
    Idle,
    Playing,
    Recording,
    Starting,
}

/// What an application is made from.
#[derive(Debug)]
pub struct ApplicationConfig {
    /// The identifier under which the device is known to the service.
    pub device_id: String,
    /// Whether echo cancellation runs on the device.
    pub aec_mode: AecMode,
}

/// One thing for the surroundings of the controller to carry out.
#[derive(Copy, Clone, Debug, PartialEq, Eq, Structural)]
pub enum Command {
    /// Open the audio channel, wait for the outcome, then call
    /// `on_open_finished`.
    OpenAudioChannel,
    /// Tear the connection down.
    CloseAudioChannel,
    /// Tell the service that the device listens in this mode.
    SendStartListening(ListeningMode),
    /// Ask the service to stop speaking.
    SendAbortSpeaking(AbortReason),
    /// Start the audio front end.
    StartCapture,
    /// Stop the audio front end.
    StopCapture,
    /// Take all packets out of the outgoing queue and send them.
    DrainOutgoing,
    /// Wake the playback decoder.
    TriggerPlayback,
    /// Throw away what is in the incoming queue.
    DiscardIncoming,
}

/// The controller as mathematics.
pub struct ControllerModel {
    pub state: DeviceState,
    pub mode: ListeningMode,
    pub aec: AecMode,
    /// Whether the audio front end was last told to start.
    pub capturing: bool,
    pub session: SessionModel,
}

/// The coarse state that goes with a lifecycle state.
pub open spec fn activity_of(state: DeviceState) -> ApplicationState {
    match state {
        DeviceState::Starting => ApplicationState::Starting,
        DeviceState::Listening => ApplicationState::Recording,
        DeviceState::Speaking => ApplicationState::Playing,
        _ => ApplicationState::Idle,
    }
}

/// The listening mode that goes with the echo-cancellation mode: without
/// echo cancellation the device stops listening by itself, with it the
/// device listens all the time.
pub open spec fn mode_for(aec: AecMode) -> ListeningMode {
    if aec == AecMode::Off {
        ListeningMode::AutoStop
    } else {
        ListeningMode::Realtime
    }
}

/// The commands that go with a change of state to `target`. A change to
/// the state that is current is none and has no commands.
pub open spec fn entry_commands(model: ControllerModel, target: DeviceState) -> Seq<Command> {
    if target == model.state {
        Seq::<Command>::empty()
    } else if target == DeviceState::Idle {
        seq![Command::StopCapture]
    } else if target == DeviceState::Listening && !model.capturing {
        seq![Command::SendStartListening(model.mode), Command::StartCapture]
    } else {
        Seq::<Command>::empty()
    }
}

/// The controller after a change of state to `target`.
pub open spec fn entered(model: ControllerModel, target: DeviceState) -> ControllerModel {
    ControllerModel {
        state: target,
        capturing: if target == model.state {
            model.capturing
        } else if target == DeviceState::Idle {
            false
        } else if target == DeviceState::Listening {
            true
        } else {
            model.capturing
        },
        ..model
    }
}

/// Whether audio can flow on the session at the time `now`.
pub open spec fn channel_opened(session: SessionModel, now: u64) -> bool {
    session.state == SessionState::Open && !timed_out(session.last_activity, now)
}

/// The session after it was closed.
pub open spec fn closed_session(session: SessionModel) -> SessionModel {
    SessionModel {
        state: SessionState::Disconnected,
        last_activity: None,
        session_id: Seq::<char>::empty(),
        device_id: session.device_id,
    }
}

/// The controller after a request to start a conversation at the time
/// `now`. Only an idle device takes it up: with the channel open it goes on
/// to listen; otherwise it becomes connecting.
pub open spec fn after_open_request(model: ControllerModel, now: u64) -> ControllerModel {
    if model.state != DeviceState::Idle {
        model
    } else if channel_opened(model.session, now) {
        entered(ControllerModel { mode: mode_for(model.aec), ..model }, DeviceState::Listening)
    } else {
        entered(model, DeviceState::Connecting)
    }
}

/// The commands that go with a request to start a conversation.
pub open spec fn open_request_commands(model: ControllerModel, now: u64) -> Seq<Command> {
    if model.state != DeviceState::Idle {
        Seq::<Command>::empty()
    } else if channel_opened(model.session, now) {
        entry_commands(
            ControllerModel { mode: mode_for(model.aec), ..model },
            DeviceState::Listening,
        )
    } else {
        seq![Command::OpenAudioChannel]
    }
}

/// The controller after a request to end the conversation: the session is
/// closed and the device is idle.
pub open spec fn after_close_request(model: ControllerModel) -> ControllerModel {
    entered(
        ControllerModel { session: closed_session(model.session), ..model },
        DeviceState::Idle,
    )
}

/// The commands that go with a request to end the conversation.
pub open spec fn close_request_commands(model: ControllerModel) -> Seq<Command> {
    (if model.session.state != SessionState::Disconnected {
        seq![Command::CloseAudioChannel]
    } else {
        Seq::<Command>::empty()
    }) + entry_commands(model, DeviceState::Idle)
}

/// The controller after a click on the talk button at the time `now`.
pub open spec fn after_toggle(model: ControllerModel, now: u64) -> ControllerModel {
    match model.state {
        DeviceState::Idle => after_open_request(model, now),
        DeviceState::Listening => after_close_request(model),
        _ => model,
    }
}

/// The commands that go with a click on the talk button.
pub open spec fn toggle_commands(model: ControllerModel, now: u64) -> Seq<Command> {
    match model.state {
        DeviceState::Idle => open_request_commands(model, now),
        DeviceState::Listening => close_request_commands(model),
        DeviceState::Speaking => seq![Command::SendAbortSpeaking(AbortReason::NoReason)],
        _ => Seq::<Command>::empty(),
    }
}

/// The state that a message of the service leads to.
pub open spec fn message_target(model: ControllerModel, message: ServerMessage) -> DeviceState {
    match message {
        ServerMessage::TtsStart => if model.state == DeviceState::Idle || model.state
            == DeviceState::Listening {
            DeviceState::Speaking
        } else {
            model.state
        },
        ServerMessage::TtsStop => if model.state == DeviceState::Speaking {
            if model.mode == ListeningMode::Manual {
                DeviceState::Idle
            } else {
                DeviceState::Listening
            }
        } else {
            model.state
        },
        _ => model.state,
    }
}

/// The state that the end of an attempt to open the channel leads to: a
/// device that was connecting listens if the session is open and is idle
/// if not; any other device stays as it is.
pub open spec fn open_finished_target(model: ControllerModel) -> DeviceState {
    if model.state != DeviceState::Connecting {
        model.state
    } else if model.session.state == SessionState::Open {
        DeviceState::Listening
    } else {
        DeviceState::Idle
    }
}

/// The controller after the end of an attempt to open the channel.
pub open spec fn after_open_finished(model: ControllerModel) -> ControllerModel {
    if model.state != DeviceState::Connecting {
        model
    } else if model.session.state == SessionState::Open {
        entered(ControllerModel { mode: mode_for(model.aec), ..model }, DeviceState::Listening)
    } else {
        entered(
            ControllerModel { session: closed_session(model.session), ..model },
            DeviceState::Idle,
        )
    }
}

/// The commands that go with the end of an attempt to open the channel.
pub open spec fn open_finished_commands(model: ControllerModel) -> Seq<Command> {
    if model.state != DeviceState::Connecting {
        Seq::<Command>::empty()
    } else if model.session.state == SessionState::Open {
        entry_commands(
            ControllerModel { mode: mode_for(model.aec), ..model },
            DeviceState::Listening,
        )
    } else {
        entry_commands(model, DeviceState::Idle)
    }
}

/// The state that the loss of the connection leads to: a device in the
/// middle of a conversation, or on its way into one, becomes idle.
pub open spec fn closed_target(model: ControllerModel) -> DeviceState {
    if model.state == DeviceState::Connecting || model.state == DeviceState::Listening
        || model.state == DeviceState::Speaking {
        DeviceState::Idle
    } else {
        model.state
    }
}

/// The controller after the event `event`, taken at the time `now`.
pub open spec fn after_event(model: ControllerModel, event: EventView, now: u64) -> ControllerModel {
    match event {
        EventView::ToggleChat => after_toggle(model, now),
        EventView::OpenAudioChannel => after_open_request(model, now),
        EventView::CloseAudioChannel => after_close_request(model),
        EventView::WebSocketClosed => entered(model, closed_target(model)),
        EventView::WebsocketTextMessageReceived(text) => entered(
            model,
            message_target(model, text_kind(text)),
        ),
        _ => model,
    }
}

/// The commands that go with the event `event`, taken at the time `now`.
pub open spec fn event_commands(model: ControllerModel, event: EventView, now: u64) -> Seq<Command> {
    match event {
        EventView::ToggleChat => toggle_commands(model, now),
        EventView::OpenAudioChannel => open_request_commands(model, now),
        EventView::CloseAudioChannel => close_request_commands(model),
        EventView::WebSocketClosed => entry_commands(model, closed_target(model)),
        EventView::WebsocketTextMessageReceived(text) => entry_commands(
            model,
            message_target(model, text_kind(text)),
        ),
        EventView::SendAudioEvent => seq![Command::DrainOutgoing],
        EventView::AudioDataReceived => if model.state == DeviceState::Speaking {
            seq![Command::TriggerPlayback]
        } else {
            seq![Command::DiscardIncoming]
        },
        _ => Seq::<Command>::empty(),
    }
}

/// The payloads of `packets`, in the same order.
pub open spec fn payloads_of(packets: Seq<AudioStreamPacket>) -> Seq<Seq<u8>> {
    packets.map_values(|p: AudioStreamPacket| p.payload@)
}

/// A change of state to the state that is current changes nothing and has
/// no commands, whatever the state.
pub proof fn lemma_same_state_is_no_change(model: ControllerModel)
    ensures
        entered(model, model.state) == model,
        entry_commands(model, model.state) == Seq::<Command>::empty(),
{
}

/// Whether capture goes with the state: an idle device does not capture,
/// and a listening one does.
pub open spec fn capture_follows_state(model: ControllerModel) -> bool {
    &&& model.state == DeviceState::Idle ==> !model.capturing
    &&& model.state == DeviceState::Listening ==> model.capturing
}

/// Capture goes with the state through every change of state: an idle
/// device never captures and a listening one always does, and the front
/// end is started by no change but one that ends in the listening state.
pub proof fn lemma_entering_keeps_capture_in_step(model: ControllerModel, target: DeviceState)
    requires
        capture_follows_state(model),
    ensures
        capture_follows_state(entered(model, target)),
        entry_commands(model, target).contains(Command::StartCapture) ==> target
            == DeviceState::Listening,
{
    let commands = entry_commands(model, target);
    if commands.contains(Command::StartCapture) {
        let i = choose|i: int| 0 <= i < commands.len() && commands[i] == Command::StartCapture;
        assert(commands[i] == Command::StartCapture);
    }
}

/// Capture goes with the state, whatever happens: if it does before an
/// event, it does after it; and an event that leaves the device idle does
/// not start the front end.
pub proof fn lemma_events_keep_capture_in_step(model: ControllerModel, event: EventView, now: u64)
    requires
        capture_follows_state(model),
    ensures
        capture_follows_state(after_event(model, event, now)),
        after_event(model, event, now).state == DeviceState::Idle ==> !event_commands(
            model,
            event,
            now,
        ).contains(Command::StartCapture),
{
    let commands = event_commands(model, event, now);
    if commands.contains(Command::StartCapture) {
        let i = choose|i: int| 0 <= i < commands.len() && commands[i] == Command::StartCapture;
        assert(commands[i] == Command::StartCapture);
    }
}

/// A failed attempt to open the channel leaves an idle device idle and
/// starts nothing: the request makes the device connecting, and when the
/// attempt ends with the session in a state `session` that is not open,
/// the device is idle again and the front end is at rest.
pub proof fn lemma_failed_open_returns_to_idle(
    model: ControllerModel,
    now: u64,
    session: SessionModel,
)
    requires
        model.state == DeviceState::Idle,
        !channel_opened(model.session, now),
        session.state != SessionState::Open,
    ensures
        after_toggle(model, now).state == DeviceState::Connecting,
        toggle_commands(model, now) == seq![Command::OpenAudioChannel],
        after_open_finished(
            ControllerModel { session, ..after_toggle(model, now) },
        ).state == DeviceState::Idle,
        !after_open_finished(ControllerModel { session, ..after_toggle(model, now) }).capturing,
        open_finished_commands(ControllerModel { session, ..after_toggle(model, now) })
            == seq![Command::StopCapture],
{
}

/// A listening device that hears the service start to speak becomes
/// speaking, and when the service has finished it listens again, without
/// anything to be done, unless it listens only on request: then it
/// becomes idle and the front end is stopped.
pub proof fn lemma_speech_comes_and_goes(model: ControllerModel)
    requires
        model.state == DeviceState::Listening,
        model.capturing,
    ensures
        entered(model, message_target(model, ServerMessage::TtsStart)).state
            == DeviceState::Speaking,
        entry_commands(model, message_target(model, ServerMessage::TtsStart)).len() == 0,
        ({
            let speaking = entered(model, message_target(model, ServerMessage::TtsStart));
            let target = message_target(speaking, ServerMessage::TtsStop);
            if model.mode == ListeningMode::Manual {
                target == DeviceState::Idle && entry_commands(speaking, target)
                    == seq![Command::StopCapture]
            } else {
                target == DeviceState::Listening && entry_commands(speaking, target).len() == 0
                    && entered(speaking, target) == model
            }
        }),
{
}

/// The device controller.
pub struct Application {
    device_state: DeviceState,
    listening_mode: ListeningMode,
    aec_mode: AecMode,
    capturing: bool,
    protocol: WebSocketProtocol,
}

impl View for Application {
    type V = ControllerModel;

    closed spec fn view(&self) -> ControllerModel {
        ControllerModel {
            state: self.device_state,
            mode: self.listening_mode,
            aec: self.aec_mode,
            capturing: self.capturing,
            session: self.protocol@,
        }
    }
}

impl Application {
    /// A controller for the device that `config` describes: idle, with no
    /// connection, and with the audio front end at rest.
    pub fn new(config: ApplicationConfig) -> (app: Self)
        ensures
            app@ == (ControllerModel {
                state: DeviceState::Idle,
                mode: ListeningMode::AutoStop,
                aec: config.aec_mode,
                capturing: false,
                session: SessionModel {
                    state: SessionState::Disconnected,
                    last_activity: None,
                    session_id: Seq::<char>::empty(),
                    device_id: config.device_id@,
                },
            }),
    {
        Application {
            device_state: DeviceState::Idle,
            listening_mode: ListeningMode::AutoStop,
            aec_mode: config.aec_mode,
            capturing: false,
            protocol: WebSocketProtocol::new(config.device_id.as_str()),
        }
    }

    /// The lifecycle state.
    pub fn device_state(&self) -> (state: DeviceState)
        ensures
            state == self@.state,
    {
        self.device_state
    }

    /// The mode in which the device listens, or listened last.
    pub fn listening_mode(&self) -> (mode: ListeningMode)
        ensures
            mode == self@.mode,
    {
        self.listening_mode
    }

    /// Whether the audio front end was last told to start.
    pub fn is_capturing(&self) -> (capturing: bool)
        ensures
            capturing == self@.capturing,
    {
        self.capturing
    }

    /// What the device is doing, in the coarsest terms.
    pub fn state(&self) -> (activity: ApplicationState)
        ensures
            activity == activity_of(self@.state),
    {
        match self.device_state {
            DeviceState::Starting => ApplicationState::Starting,
            DeviceState::Listening => ApplicationState::Recording,
            DeviceState::Speaking => ApplicationState::Playing,
            _ => ApplicationState::Idle,
        }
    }

    /// The session with the service.
    pub fn protocol(&self) -> (protocol: &WebSocketProtocol)
        ensures
            protocol@ == self@.session,
    {
        &self.protocol
    }

    /// The session with the service, for the transport to report to.
    /// Nothing but the session can change through it.
    pub fn protocol_mut(&mut self) -> (protocol: &mut WebSocketProtocol)
        ensures
            protocol@ == old(self)@.session,
            final(self)@ == (ControllerModel { session: final(protocol)@, ..old(self)@ }),
    {
        &mut self.protocol
    }

    /// Brings the device into the starting state.
    pub fn start(&mut self) -> (commands: Vec<Command>)
        ensures
            final(self)@ == entered(old(self)@, DeviceState::Starting),
            commands@ == entry_commands(old(self)@, DeviceState::Starting),
    {
        self.set_device_state(DeviceState::Starting)
    }

    /// Changes the state to `state` and says what goes with the change.
    /// Entering the idle state stops the audio front end. Entering the
    /// listening state tells the service how the device listens and starts
    /// the front end, unless it runs already. A change to the state that is
    /// current is none: nothing changes and nothing is to be done.
    pub fn set_device_state(&mut self, state: DeviceState) -> (commands: Vec<Command>)
        ensures
            final(self)@ == entered(old(self)@, state),
            commands@ == entry_commands(old(self)@, state),
            state == old(self)@.state ==> final(self)@ == old(self)@ && commands@.len() == 0,
    {
        let mut commands: Vec<Command> = Vec::new();
        if self.device_state == state {
            return commands;
        }
        self.device_state = state;
        match state {
            DeviceState::Idle => {
                self.capturing = false;
                commands.push(Command::StopCapture);
                assert(commands@ =~= seq![Command::StopCapture]);
            },
            DeviceState::Listening => {
                if !self.capturing {
                    self.capturing = true;
                    commands.push(Command::SendStartListening(self.listening_mode));
                    commands.push(Command::StartCapture);
                    assert(commands@ =~= seq![
                        Command::SendStartListening(self.listening_mode),
                        Command::StartCapture,
                    ]);
                }
            },
            _ => {},
        }
        commands
    }

    /// Makes the device listen in the mode `mode`: the mode is taken, then
    /// the state changes to listening, with what goes with that change.
    pub fn start_listening(&mut self, mode: ListeningMode) -> (commands: Vec<Command>)
        ensures
            final(self)@ == entered(
                ControllerModel { mode, ..old(self)@ },
                DeviceState::Listening,
            ),
            commands@ == entry_commands(
                ControllerModel { mode, ..old(self)@ },
                DeviceState::Listening,
            ),
    {
        self.listening_mode = mode;
        self.set_device_state(DeviceState::Listening)
    }

    /// Takes up a request to start a conversation at the time `now`.
    pub fn request_open(&mut self, now: u64) -> (commands: Vec<Command>)
        ensures
            final(self)@ == after_open_request(old(self)@, now),
            commands@ == open_request_commands(old(self)@, now),
    {
        if self.device_state != DeviceState::Idle {
            return Vec::new();
        }
        if self.protocol.is_audio_channel_opened(now) {
            self.listening_mode = Self::pick_mode(self.aec_mode);
            self.set_device_state(DeviceState::Listening)
        } else {
            let _ = self.set_device_state(DeviceState::Connecting);
            let mut commands: Vec<Command> = Vec::new();
            commands.push(Command::OpenAudioChannel);
            assert(commands@ =~= seq![Command::OpenAudioChannel]);
            commands
        }
    }

    /// Takes up a request to end the conversation: the session is closed
    /// and the device becomes idle.
    pub fn request_close(&mut self) -> (commands: Vec<Command>)
        ensures
            final(self)@ == after_close_request(old(self)@),
            commands@ == close_request_commands(old(self)@),
    {
        let mut commands: Vec<Command> = Vec::new();
        if self.protocol.close_audio_channel() {
            commands.push(Command::CloseAudioChannel);
        }
        let ghost first = commands@;
        let mut entry = self.set_device_state(DeviceState::Idle);
        let ghost second = entry@;
        commands.append(&mut entry);
        assert(commands@ =~= first + second);
        assert(first =~= if old(self)@.session.state != SessionState::Disconnected {
            seq![Command::CloseAudioChannel]
        } else {
            Seq::<Command>::empty()
        });
        commands
    }

    /// Takes a click on the talk button at the time `now`. An idle device
    /// starts a conversation, a listening one ends it, and a speaking one
    /// asks the service to stop speaking and stays as it is.
    pub fn toggle(&mut self, now: u64) -> (commands: Vec<Command>)
        ensures
            final(self)@ == after_toggle(old(self)@, now),
            commands@ == toggle_commands(old(self)@, now),
    {
        match self.device_state {
            DeviceState::Idle => self.request_open(now),
            DeviceState::Listening => self.request_close(),
            DeviceState::Speaking => {
                let mut commands: Vec<Command> = Vec::new();
                commands.push(Command::SendAbortSpeaking(AbortReason::NoReason));
                assert(commands@ =~= seq![Command::SendAbortSpeaking(AbortReason::NoReason)]);
                commands
            },
            _ => Vec::new(),
        }
    }

    /// Takes the end of an attempt to open the audio channel. A device
    /// that was connecting starts to listen if the session is open now;
    /// if it is not, the session is closed and the device falls back to
    /// idle.
    pub fn on_open_finished(&mut self) -> (commands: Vec<Command>)
        ensures
            final(self)@ == after_open_finished(old(self)@),
            commands@ == open_finished_commands(old(self)@),
    {
        if self.device_state != DeviceState::Connecting {
            return Vec::new();
        }
        if self.protocol.is_connected() {
            self.listening_mode = Self::pick_mode(self.aec_mode);
            self.set_device_state(DeviceState::Listening)
        } else {
            self.protocol.on_connect_failed();
            self.set_device_state(DeviceState::Idle)
        }
    }

    /// Takes a message of the service. When the service starts to speak,
    /// an idle or listening device becomes speaking. When the service has
    /// finished, a speaking device listens again, or becomes idle if it
    /// listens only on request. Every other message is ignored.
    pub fn on_server_message(&mut self, message: ServerMessage) -> (commands: Vec<Command>)
        ensures
            final(self)@ == entered(old(self)@, message_target(old(self)@, message)),
            commands@ == entry_commands(old(self)@, message_target(old(self)@, message)),
    {
        let target = match message {
            ServerMessage::TtsStart => {
                if self.device_state == DeviceState::Idle || self.device_state
                    == DeviceState::Listening {
                    DeviceState::Speaking
                } else {
                    self.device_state
                }
            },
            ServerMessage::TtsStop => {
                if self.device_state == DeviceState::Speaking {
                    if self.listening_mode == ListeningMode::Manual {
                        DeviceState::Idle
                    } else {
                        DeviceState::Listening
                    }
                } else {
                    self.device_state
                }
            },
            _ => self.device_state,
        };
        self.set_device_state(target)
    }

    /// Takes one event of the internal channel at the time `now`, to
    /// completion, and says what is to be carried out, in order.
    pub fn handle_event(&mut self, event: XzEvent, now: u64) -> (commands: Vec<Command>)
        ensures
            final(self)@ == after_event(old(self)@, event@, now),
            commands@ == event_commands(old(self)@, event@, now),
    {
        match event {
            XzEvent::ToggleChat => self.toggle(now),
            XzEvent::OpenAudioChannel => self.request_open(now),
            XzEvent::CloseAudioChannel => self.request_close(),
            XzEvent::WebSocketClosed => {
                let target = if self.device_state == DeviceState::Connecting || self.device_state
                    == DeviceState::Listening || self.device_state == DeviceState::Speaking {
                    DeviceState::Idle
                } else {
                    self.device_state
                };
                self.set_device_state(target)
            },
            XzEvent::WebsocketTextMessageReceived(text) => {
                let message = classify_message(text.as_str());
                self.on_server_message(message)
            },
            XzEvent::SendAudioEvent => {
                let mut commands: Vec<Command> = Vec::new();
                commands.push(Command::DrainOutgoing);
                assert(commands@ =~= seq![Command::DrainOutgoing]);
                commands
            },
            XzEvent::AudioDataReceived => {
                let mut commands: Vec<Command> = Vec::new();
                if self.device_state == DeviceState::Speaking {
                    commands.push(Command::TriggerPlayback);
                    assert(commands@ =~= seq![Command::TriggerPlayback]);
                } else {
                    commands.push(Command::DiscardIncoming);
                    assert(commands@ =~= seq![Command::DiscardIncoming]);
                }
                commands
            },
            XzEvent::WebSocketConnected => Vec::new(),
            XzEvent::ServerHelloMessageReceived => Vec::new(),
        }
    }

    /// The binary frames to send for the packets that were taken out of
    /// the outgoing queue: the payload of each, in order, while the
    /// session is connected; none otherwise.
    pub fn send_audio(&self, packets: Vec<AudioStreamPacket>) -> (frames: Vec<Vec<u8>>)
        ensures
            byte_frames(frames@) == if self@.session.state == SessionState::Open {
                payloads_of(packets@)
            } else {
                Seq::<Seq<u8>>::empty()
            },
    {
        let mut frames: Vec<Vec<u8>> = Vec::new();
        if !self.protocol.is_connected() {
            assert(byte_frames(frames@) =~= Seq::<Seq<u8>>::empty());
            return frames;
        }
        let ghost all = packets@;
        let mut rest = packets;
        let mut reversed: Vec<Vec<u8>> = Vec::new();
        while rest.len() > 0
            invariant
                rest@.len() <= all.len(),
                rest@ == all.take(rest@.len() as int),
                reversed@.len() == all.len() - rest@.len(),
                forall|k: int|
                    0 <= k < reversed@.len() ==> (#[trigger] reversed@[k])@ == all[all.len() - 1
                        - k].payload@,
            decreases rest@.len(),
        {
            let ghost before = rest@;
            match rest.pop() {
                Some(packet) => {
                    assert(rest@ =~= all.take(rest@.len() as int));
                    reversed.push(packet.payload);
                },
                None => {},
            }
        }
        while reversed.len() > 0
            invariant
                reversed@.len() + frames@.len() == all.len(),
                forall|k: int|
                    0 <= k < reversed@.len() ==> (#[trigger] reversed@[k])@ == all[all.len() - 1
                        - k].payload@,
                forall|k: int| 0 <= k < frames@.len() ==> (#[trigger] frames@[k])@ == all[k].payload@,
            decreases reversed@.len(),
        {
            match reversed.pop() {
                Some(payload) => {
                    frames.push(payload);
                },
                None => {},
            }
        }
        assert(byte_frames(frames@) =~= payloads_of(all));
        frames
    }

    fn pick_mode(aec: AecMode) -> (mode: ListeningMode)
        ensures
            mode == mode_for(aec),
    {
        if aec == AecMode::Off {
            ListeningMode::AutoStop
        } else {
            ListeningMode::Realtime
        }
    }
}

} // verus!
