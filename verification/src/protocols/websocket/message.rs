//! The text messages that the device and the service exchange. Each is one
//! JSON object; its member `type` says what it is.

use vstd::prelude::*;
use vstd::string::StringExecFns;

use crate::common::enums::{AbortReason, ListeningMode};

verus! {

/// The string that the JSON text `text` holds under `key`: `Some` if the
/// text is well-formed JSON, its value is an object, the object has a
/// member `key`, and that member is a string; `None` in every other case.
pub uninterp spec fn json_string_member(text: Seq<char>, key: Seq<char>) -> Option<Seq<char>>;

/// The JSON text `text` written out again without insignificant white
/// space: `Some` if the text is well-formed JSON and can be written out,
/// `None` otherwise.
pub uninterp spec fn json_compact(text: Seq<char>) -> Option<Seq<char>>;

/// The characters `text` as a JSON string literal, quotes and escapes
/// included.
pub uninterp spec fn json_quoted(text: Seq<char>) -> Seq<char>;

/// Parses `text` with `serde_json::from_str` and looks the member `key` up
/// with `Value::get` and `Value::as_str`. The result is what the three
/// calls give: the member's string, or nothing where any of them fails.
#[verifier::external_body]
fn string_member(text: &str, key: &str) -> (member: Option<String>)
    ensures
        member is Some <==> json_string_member(text@, key@) is Some,
        member matches Some(found) ==> Some(found@) == json_string_member(text@, key@),
{
    let message: serde_json::Value = serde_json::from_str(text).ok()?;
    message.get(key)?.as_str().map(String::from)
}

/// Parses `text` with `serde_json::from_str` and writes the value out
/// again with `serde_json::to_string`. The result is what the two calls
/// give: the compact text, or nothing where one of them fails.
#[verifier::external_body]
fn compact(text: &str) -> (result: Option<String>)
    ensures
        result is Some <==> json_compact(text@) is Some,
        result matches Some(written) ==> Some(written@) == json_compact(text@),
{
    let value: serde_json::Value = serde_json::from_str(text).ok()?;
    serde_json::to_string(&value).ok()
}

/// Writes `text` out as a JSON string literal with
/// `serde_json::to_string`. The call succeeds on every string, and the
/// result is the literal: the function fails only where the value's own
/// serialisation decides to fail or where a map has a key that is no
/// string, and a string does neither; its bytes go into a vector, which
/// takes whatever is written to it.
#[verifier::external_body]
fn quoted(text: &str) -> (result: Option<String>)
    ensures
        result is Some,
        result matches Some(literal) ==> literal@ == json_quoted(text@),
{
    serde_json::to_string(text).ok()
}

/// Why a message could not be made.
#[derive(Copy, Clone, Debug, PartialEq, Eq, Structural)]
pub enum MessageError {
    /// The JSON library refused to parse or to write.
    Json,
}

/// What a text message from the service is.
#[derive(Copy, Clone, Debug, PartialEq, Eq, Structural)]
pub enum ServerMessage {
    /// The answer to the device's greeting.
    Hello,
    /// The service begins to speak.
    TtsStart,
    /// The service has finished speaking.
    TtsStop,
    /// The service begins a sentence.
    TtsSentenceStart,
    /// Anything else: a type that the device does not know, a speech
    /// message in a state that it does not know, or no JSON object with a
    /// type at all. Such a message is ignored.
    Unrecognized,
}

/// The greeting that the device sends, as it is written down.
pub const HELLO_BODY: &'static str = "{
    \"type\": \"hello\",
    \"version\": 1,
    \"transport\": \"websocket\",
    \"features\": {
        \"mcp\": true
    },
    \"audio_params\": {
        \"format\": \"opus\",
        \"sample_rate\": 16000,
        \"channels\": 1,
        \"frame_duration\": 60
    }
}";

/// What a message with the type `msg_type` and the state `state` is.
pub open spec fn message_kind(msg_type: Option<Seq<char>>, state: Option<Seq<char>>) -> ServerMessage {
    if msg_type == Some("hello"@) {
        ServerMessage::Hello
    } else if msg_type == Some("tts"@) {
        if state == Some("start"@) {
            ServerMessage::TtsStart
        } else if state == Some("stop"@) {
            ServerMessage::TtsStop
        } else if state == Some("sentence_start"@) {
            ServerMessage::TtsSentenceStart
        } else {
            ServerMessage::Unrecognized
        }
    } else {
        ServerMessage::Unrecognized
    }
}

/// What the text message `text` is.
pub open spec fn text_kind(text: Seq<char>) -> ServerMessage {
    message_kind(json_string_member(text, "type"@), json_string_member(text, "state"@))
}

/// The name of a listening mode on the wire.
pub open spec fn mode_name(mode: ListeningMode) -> Seq<char> {
    match mode {
        ListeningMode::AutoStop => "auto"@,
        ListeningMode::Realtime => "realtime"@,
        ListeningMode::Manual => "manual"@,
    }
}

/// The message that asks the service to stop speaking, for a session whose
/// identifier is the JSON string literal `session`.
pub open spec fn abort_text(session: Seq<char>, reason: AbortReason) -> Seq<char> {
    "{\"session_id\":"@ + session + ",\"type\":\"abort\""@ + match reason {
        AbortReason::WakeWordDetected => ",\"reason\":\"wake_word_detected\""@,
        AbortReason::NoReason => ""@,
    } + "}"@
}

/// The message that tells the service that the device listens in `mode`,
/// for a session whose identifier is the JSON string literal `session`.
pub open spec fn listen_text(session: Seq<char>, mode: ListeningMode) -> Seq<char> {
    "{\"session_id\":"@ + session + ",\"type\":\"listen\",\"mode\":\""@ + mode_name(mode)
        + "\"}"@
}

/// The headers that identify the device when it connects.
pub open spec fn header_text(device_id: Seq<char>) -> Seq<char> {
    "Protocol-Version: 1\r\ndevice-id: "@ + device_id + "\r\nClient-Id: "@ + device_id
        + "\r\n"@
}

fn is_text(found: &Option<String>, expected: &str) -> (same: bool)
    ensures
        same == (found matches Some(text) && text@ == expected@),
{
    match found {
        Some(text) => {
            let expected_owned = expected.to_owned();
            *text == expected_owned
        },
        None => false,
    }
}

/// What a message is whose member `type` is `msg_type` and whose member
/// `state` is `state`; `None` stands for a member that is missing or is no
/// string.
pub fn classify_fields(msg_type: &Option<String>, state: &Option<String>) -> (kind: ServerMessage)
    ensures
        kind == message_kind(
            match msg_type {
                Some(t) => Some(t@),
                None => None,
            },
            match state {
                Some(s) => Some(s@),
                None => None,
            },
        ),
{
    if is_text(msg_type, "hello") {
        ServerMessage::Hello
    } else if is_text(msg_type, "tts") {
        if is_text(state, "start") {
            ServerMessage::TtsStart
        } else if is_text(state, "stop") {
            ServerMessage::TtsStop
        } else if is_text(state, "sentence_start") {
            ServerMessage::TtsSentenceStart
        } else {
            ServerMessage::Unrecognized
        }
    } else {
        ServerMessage::Unrecognized
    }
}

/// What the text message `text` from the service is.
pub fn classify_message(text: &str) -> (kind: ServerMessage)
    ensures
        kind == text_kind(text@),
{
    let msg_type = string_member(text, "type");
    let state = string_member(text, "state");
    classify_fields(&msg_type, &state)
}

/// The identifier of the session that the greeting `text` of the service
/// opens: its member `session_id`, or the empty string if it has none.
pub fn session_id_of(text: &str) -> (session_id: String)
    ensures
        session_id@ == match json_string_member(text@, "session_id"@) {
            Some(id) => id,
            None => Seq::<char>::empty(),
        },
{
    match string_member(text, "session_id") {
        Some(id) => id,
        None => String::new(),
    }
}

/// The wire name of `mode`.
pub fn mode_text(mode: ListeningMode) -> (name: &'static str)
    ensures
        name@ == mode_name(mode),
{
    match mode {
        ListeningMode::AutoStop => "auto",
        ListeningMode::Realtime => "realtime",
        ListeningMode::Manual => "manual",
    }
}

/// The message that asks the service to stop speaking. `session` is the
/// session's identifier as a JSON string literal.
pub fn abort_message_for(session: &str, reason: AbortReason) -> (message: String)
    ensures
        message@ == abort_text(session@, reason),
{
    let mut message = String::from_str("{\"session_id\":");
    message.append(session);
    message.append(",\"type\":\"abort\"");
    match reason {
        AbortReason::WakeWordDetected => {
            message.append(",\"reason\":\"wake_word_detected\"");
        },
        AbortReason::NoReason => {
            message.append("");
        },
    }
    message.append("}");
    message
}

/// The message that tells the service that the device listens in `mode`.
/// `session` is the session's identifier as a JSON string literal.
pub fn listen_message_for(session: &str, mode: ListeningMode) -> (message: String)
    ensures
        message@ == listen_text(session@, mode),
{
    let mut message = String::from_str("{\"session_id\":");
    message.append(session);
    message.append(",\"type\":\"listen\",\"mode\":\"");
    message.append(mode_text(mode));
    message.append("\"}");
    message
}

/// The message that asks the service to stop speaking, for the session
/// `session_id`: the identifier is written as a JSON string literal and
/// put into the envelope. Every identifier gives a message.
pub fn abort_message(session_id: &str, reason: AbortReason) -> (result: Result<
    String,
    MessageError,
>)
    ensures
        result matches Ok(message) && message@ == abort_text(json_quoted(session_id@), reason),
{
    match quoted(session_id) {
        Some(session) => Ok(abort_message_for(session.as_str(), reason)),
        None => Err(MessageError::Json),
    }
}

/// The message that tells the service that the device listens in `mode`,
/// for the session `session_id`: the identifier is written as a JSON
/// string literal and put into the envelope. Every identifier gives a
/// message.
pub fn listen_message(session_id: &str, mode: ListeningMode) -> (result: Result<
    String,
    MessageError,
>)
    ensures
        result matches Ok(message) && message@ == listen_text(json_quoted(session_id@), mode),
{
    match quoted(session_id) {
        Some(session) => Ok(listen_message_for(session.as_str(), mode)),
        None => Err(MessageError::Json),
    }
}

/// The headers with which the device `device_id` identifies itself when it
/// connects.
pub fn connect_headers(device_id: &str) -> (headers: String)
    ensures
        headers@ == header_text(device_id@),
{
    let mut headers = String::from_str("Protocol-Version: 1\r\ndevice-id: ");
    headers.append(device_id);
    headers.append("\r\nClient-Id: ");
    headers.append(device_id);
    headers.append("\r\n");
    headers
}

/// The device's greeting to the service.
pub struct ClientHelloMessage;

impl ClientHelloMessage {
    /// The greeting as it goes over the wire: `HELLO_BODY` in compact
    /// form.
    pub fn new() -> (result: Result<String, MessageError>)
        ensures
            result is Ok <==> json_compact(HELLO_BODY@) is Some,
            result matches Ok(message) ==> Some(message@) == json_compact(HELLO_BODY@),
            result matches Err(e) ==> e == MessageError::Json,
    {
        match compact(HELLO_BODY) {
            Some(message) => Ok(message),
            None => Err(MessageError::Json),
        }
    }
}

} // verus!
