//! Realtime voice sessions via WebSocket.
//!
//! Connects to the QAI Realtime API (proxied xAI Realtime) for bidirectional
//! audio streaming with voice activity detection, transcription, and tool calling.

use vstd::prelude::*;

use tokio_tungstenite::tungstenite::http::Response;
use tokio_tungstenite::tungstenite::Error as WsError;

use crate::client::ClientSettings;
use crate::encoding::{debug_quoted, debug_str, url_encode, url_encoded, utf8_lossy, utf8_lossy_string};
use crate::error::{local_error, websocket_error_text, Error, Result};
use crate::json::{json_member_str, json_nested_str, member_str, nested_str, or_nothing, parse_json, parsed_json};
use crate::json::{
    array_json, json_array, json_object, json_string, json_u32, members_view, object_json, string_json,
    u32_json, value_json, value_to_json,
};
use crate::text::{
    chars_from, chars_of, has_prefix, push_chars, push_str, starts_with, str_eq, string_from_chars,
    unwrap_or_empty,
};

verus! {

broadcast use vstd::string::group_string_axioms;

/// Configuration for a realtime voice session.
#[derive(Debug, Clone)]
pub struct RealtimeConfig {
    /// Voice to use (e.g. "Sal", "Eve", "Vesper" on xAI).
    pub voice: String,

    /// System instructions for the AI.
    pub instructions: String,

    /// PCM sample rate in Hz.
    pub sample_rate: u32,

    /// Tool definitions (xAI Realtime API format).
    pub tools: Vec<serde_json::Value>,

    /// Model for the session (e.g. "grok-realtime-beta"). Sent to the gateway
    /// as the `model` query parameter, which it forwards upstream and bills
    /// against; empty means the gateway default. Also placed in the
    /// `session.update` frame.
    pub model: String,
}

impl Default for RealtimeConfig {
    /// Voice `Sal` at 24 kHz, no instructions, tools or model.
    fn default() -> (c: Self)
        ensures
            c.voice@ == "Sal"@,
            c.instructions@.len() == 0,
            c.sample_rate == 24000,
            c.tools@.len() == 0,
            c.model@.len() == 0,
    {
        RealtimeConfig {
            voice: "Sal".to_owned(),
            instructions: String::new(),
            sample_rate: 24000,
            tools: Vec::new(),
            model: String::new(),
        }
    }
}

/// Parsed incoming event from the realtime API.
#[derive(Debug, Clone)]
pub enum RealtimeEvent {
    /// Session configuration acknowledged.
    SessionReady,

    /// Base64-encoded PCM audio chunk from the assistant.
    AudioDelta { delta: String },

    /// Partial transcript text.
    TranscriptDelta {
        delta: String,
        /// "input" for user speech, "output" for assistant speech.
        source: String,
    },

    /// Final transcript for a completed utterance.
    TranscriptDone {
        transcript: String,
        /// "input" for user speech, "output" for assistant speech.
        source: String,
    },

    /// Voice activity detected — user started speaking.
    SpeechStarted,

    /// Voice activity ended — user stopped speaking.
    SpeechStopped,

    /// The model is requesting a function/tool call.
    FunctionCall { name: String, call_id: String, arguments: String },

    /// The model finished its response turn.
    ResponseDone,

    /// An error from the realtime API.
    Error { message: String },

    /// The peer closed the socket. `reason` carries the close frame's text,
    /// which the gateway uses to say why ("insufficient balance", "session
    /// duration limit reached"); empty on a plain hang-up.
    Closed { code: Option<u16>, reason: String },

    /// The socket failed while reading; nothing more will arrive.
    TransportError { message: String },

    /// An event type we don't explicitly handle.
    Unknown(serde_json::Value),
}

/// The frame types the parser recognises, and which event each becomes.
#[derive(Debug, Clone, Copy, PartialEq, Eq, Structural)]
pub enum FrameKind {
    SessionReady,
    AudioDelta,
    /// A partial transcript of the assistant's speech.
    OutputTranscriptDelta,
    /// A final transcript of the assistant's speech.
    OutputTranscriptDone,
    /// A final transcript of the user's speech.
    InputTranscriptDone,
    SpeechStarted,
    SpeechStopped,
    FunctionCall,
    ResponseDone,
    Error,
    Other,
}

/// The kind of a frame whose `type` is `t`.
pub open spec fn frame_kind(t: Seq<char>) -> FrameKind {
    if t == "session.updated"@ {
        FrameKind::SessionReady
    } else if t == "response.audio.delta"@ || t == "response.output_audio.delta"@ {
        FrameKind::AudioDelta
    } else if t == "response.audio_transcript.delta"@ || t
        == "response.output_audio_transcript.delta"@ {
        FrameKind::OutputTranscriptDelta
    } else if t == "response.audio_transcript.done"@ || t
        == "response.output_audio_transcript.done"@ {
        FrameKind::OutputTranscriptDone
    } else if t == "conversation.item.input_audio_transcription.completed"@ {
        FrameKind::InputTranscriptDone
    } else if t == "input_audio_buffer.speech_started"@ {
        FrameKind::SpeechStarted
    } else if t == "input_audio_buffer.speech_stopped"@ {
        FrameKind::SpeechStopped
    } else if t == "response.function_call_arguments.done"@ {
        FrameKind::FunctionCall
    } else if t == "response.done"@ {
        FrameKind::ResponseDone
    } else if t == "error"@ {
        FrameKind::Error
    } else {
        FrameKind::Other
    }
}

/// Classifies a frame `type`.
pub fn frame_kind_of(t: &str) -> (k: FrameKind)
    ensures
        k == frame_kind(t@),
{
    if str_eq(t, "session.updated") {
        FrameKind::SessionReady
    } else if str_eq(t, "response.audio.delta") || str_eq(t, "response.output_audio.delta") {
        FrameKind::AudioDelta
    } else if str_eq(t, "response.audio_transcript.delta") || str_eq(
        t,
        "response.output_audio_transcript.delta",
    ) {
        FrameKind::OutputTranscriptDelta
    } else if str_eq(t, "response.audio_transcript.done") || str_eq(
        t,
        "response.output_audio_transcript.done",
    ) {
        FrameKind::OutputTranscriptDone
    } else if str_eq(t, "conversation.item.input_audio_transcription.completed") {
        FrameKind::InputTranscriptDone
    } else if str_eq(t, "input_audio_buffer.speech_started") {
        FrameKind::SpeechStarted
    } else if str_eq(t, "input_audio_buffer.speech_stopped") {
        FrameKind::SpeechStopped
    } else if str_eq(t, "response.function_call_arguments.done") {
        FrameKind::FunctionCall
    } else if str_eq(t, "response.done") {
        FrameKind::ResponseDone
    } else if str_eq(t, "error") {
        FrameKind::Error
    } else {
        FrameKind::Other
    }
}

/// The message of an `error` frame: `error.message`, else the top-level
/// `message`, else `unknown error`.
pub open spec fn frame_error_message(text: Seq<char>) -> Seq<char> {
    match nested_str(text, "error"@, "message"@) {
        Some(m) => m,
        None => match member_str(text, "message"@) {
            Some(m) => m,
            None => "unknown error"@,
        },
    }
}

/// The event a text frame becomes. A frame that is not JSON is kept whole
/// as a JSON string; a JSON frame of a type the parser does not recognise
/// is kept as decoded. A missing string member reads as empty.
pub open spec fn parsed_event(text: Seq<char>, ev: RealtimeEvent) -> bool {
    let field = |k: Seq<char>| or_nothing(member_str(text, k));
    match parsed_json(text) {
        None => ev == RealtimeEvent::Unknown(string_json(text)),
        Some(v) => match frame_kind(or_nothing(member_str(text, "type"@))) {
            FrameKind::SessionReady => ev is SessionReady,
            FrameKind::AudioDelta => ev matches RealtimeEvent::AudioDelta { delta } && delta@
                == field("delta"@),
            FrameKind::OutputTranscriptDelta => ev matches RealtimeEvent::TranscriptDelta {
                delta,
                source,
            } && delta@ == field("delta"@) && source@ == "output"@,
            FrameKind::OutputTranscriptDone => ev matches RealtimeEvent::TranscriptDone {
                transcript,
                source,
            } && transcript@ == field("transcript"@) && source@ == "output"@,
            FrameKind::InputTranscriptDone => ev matches RealtimeEvent::TranscriptDone {
                transcript,
                source,
            } && transcript@ == field("transcript"@) && source@ == "input"@,
            FrameKind::SpeechStarted => ev is SpeechStarted,
            FrameKind::SpeechStopped => ev is SpeechStopped,
            FrameKind::FunctionCall => ev matches RealtimeEvent::FunctionCall {
                name,
                call_id,
                arguments,
            } && name@ == field("name"@) && call_id@ == field("call_id"@) && arguments@ == field(
                "arguments"@,
            ),
            FrameKind::ResponseDone => ev is ResponseDone,
            FrameKind::Error => ev matches RealtimeEvent::Error { message } && message@
                == frame_error_message(text),
            FrameKind::Other => ev == RealtimeEvent::Unknown(v),
        },
    }
}

/// A string member of the frame, empty when missing.
fn frame_field(text: &str, key: &str) -> (r: String)
    ensures
        r@ == or_nothing(member_str(text@, key@)),
{
    unwrap_or_empty(json_member_str(text, key))
}

/// Parses a text frame from the realtime socket into an event.
pub fn parse_event(text: &str) -> (ev: RealtimeEvent)
    ensures
        parsed_event(text@, ev),
        parsed_json(text@) is Some && (member_str(text@, "type"@) == Some(
            "response.audio_transcript.done"@,
        ) || member_str(text@, "type"@) == Some("response.output_audio_transcript.done"@))
            ==> (ev matches RealtimeEvent::TranscriptDone { transcript, source } && source@
            == "output"@ && transcript@ == or_nothing(member_str(text@, "transcript"@))),
        parsed_json(text@) is Some && member_str(text@, "type"@) == Some(
            "conversation.item.input_audio_transcription.completed"@,
        ) ==> (ev matches RealtimeEvent::TranscriptDone { transcript, source } && source@
            == "input"@ && transcript@ == or_nothing(member_str(text@, "transcript"@))),
        (ev matches RealtimeEvent::TranscriptDone { source, .. } && source@ == "input"@)
            ==> member_str(text@, "type"@) == Some(
            "conversation.item.input_audio_transcription.completed"@,
        ),
{
    let ev = parse_event_kind(text);
    proof {
        lemma_transcript_sources(text@, ev);
    }
    ev
}

/// Where a final transcript comes from is fixed by the frame's type alone:
/// `response.audio_transcript.done` and
/// `response.output_audio_transcript.done` carry the assistant's speech
/// (source `output`), and
/// `conversation.item.input_audio_transcription.completed`, and no other
/// type, carries the user's (source `input`). Either way the text is the
/// frame's `transcript`.
pub proof fn lemma_transcript_sources(text: Seq<char>, ev: RealtimeEvent)
    requires
        parsed_event(text, ev),
    ensures
        parsed_json(text) is Some && (member_str(text, "type"@) == Some(
            "response.audio_transcript.done"@,
        ) || member_str(text, "type"@) == Some("response.output_audio_transcript.done"@))
            ==> (ev matches RealtimeEvent::TranscriptDone { transcript, source } && source@
            == "output"@ && transcript@ == or_nothing(member_str(text, "transcript"@))),
        parsed_json(text) is Some && member_str(text, "type"@) == Some(
            "conversation.item.input_audio_transcription.completed"@,
        ) ==> (ev matches RealtimeEvent::TranscriptDone { transcript, source } && source@
            == "input"@ && transcript@ == or_nothing(member_str(text, "transcript"@))),
        (ev matches RealtimeEvent::TranscriptDone { source, .. } && source@ == "input"@)
            ==> member_str(text, "type"@) == Some(
            "conversation.item.input_audio_transcription.completed"@,
        ),
{
    lemma_frame_kinds();
    reveal_strlit("output");
    reveal_strlit("input");
    reveal_strlit("");
    reveal_strlit("conversation.item.input_audio_transcription.completed");
    assert("output"@.len() == 6);
    assert("input"@.len() == 5);
    let t = or_nothing(member_str(text, "type"@));
    if ev matches RealtimeEvent::TranscriptDone { source, .. } && source@ == "input"@ {
        assert(parsed_json(text) is Some);
        assert(frame_kind(t) == FrameKind::InputTranscriptDone);
        assert(t == "conversation.item.input_audio_transcription.completed"@);
        assert(member_str(text, "type"@) is Some);
    }
}

/// What each other recognised frame type becomes: `session.updated` the
/// session acknowledgement; `response.audio.delta` and
/// `response.output_audio.delta` an audio chunk carrying the frame's
/// `delta`; `response.audio_transcript.delta` and
/// `response.output_audio_transcript.delta` a partial transcript of the
/// assistant's speech; the two `input_audio_buffer` speech frames the
/// start and end of the user's speech; `response.function_call_arguments.done`
/// a tool call with the frame's name, call id and arguments;
/// `response.done` the end of the turn; `error` an error with the frame's
/// message.
pub proof fn lemma_frame_events(text: Seq<char>, ev: RealtimeEvent)
    requires
        parsed_event(text, ev),
        parsed_json(text) is Some,
    ensures
        member_str(text, "type"@) == Some("session.updated"@) ==> ev is SessionReady,
        member_str(text, "type"@) == Some("response.audio.delta"@) || member_str(text, "type"@)
            == Some("response.output_audio.delta"@) ==> (ev matches RealtimeEvent::AudioDelta {
            delta,
        } && delta@ == or_nothing(member_str(text, "delta"@))),
        member_str(text, "type"@) == Some("response.audio_transcript.delta"@) || member_str(
            text,
            "type"@,
        ) == Some("response.output_audio_transcript.delta"@) ==> (
        ev matches RealtimeEvent::TranscriptDelta { delta, source } && delta@ == or_nothing(
            member_str(text, "delta"@),
        ) && source@ == "output"@),
        member_str(text, "type"@) == Some("input_audio_buffer.speech_started"@)
            ==> ev is SpeechStarted,
        member_str(text, "type"@) == Some("input_audio_buffer.speech_stopped"@)
            ==> ev is SpeechStopped,
        member_str(text, "type"@) == Some("response.function_call_arguments.done"@) ==> (
        ev matches RealtimeEvent::FunctionCall { name, call_id, arguments } && name@ == or_nothing(
            member_str(text, "name"@),
        ) && call_id@ == or_nothing(member_str(text, "call_id"@)) && arguments@ == or_nothing(
            member_str(text, "arguments"@),
        )),
        member_str(text, "type"@) == Some("response.done"@) ==> ev is ResponseDone,
        member_str(text, "type"@) == Some("error"@) ==> (ev matches RealtimeEvent::Error {
            message,
        } && message@ == frame_error_message(text)),
{
    lemma_frame_kinds();
}

/// The kind of each frame type the parser recognises.
proof fn lemma_frame_kinds()
    ensures
        frame_kind("session.updated"@) == FrameKind::SessionReady,
        frame_kind("response.audio.delta"@) == FrameKind::AudioDelta,
        frame_kind("response.output_audio.delta"@) == FrameKind::AudioDelta,
        frame_kind("response.audio_transcript.delta"@) == FrameKind::OutputTranscriptDelta,
        frame_kind("response.output_audio_transcript.delta"@) == FrameKind::OutputTranscriptDelta,
        frame_kind("response.audio_transcript.done"@) == FrameKind::OutputTranscriptDone,
        frame_kind("response.output_audio_transcript.done"@) == FrameKind::OutputTranscriptDone,
        frame_kind("conversation.item.input_audio_transcription.completed"@) == FrameKind::InputTranscriptDone,
        frame_kind("input_audio_buffer.speech_started"@) == FrameKind::SpeechStarted,
        frame_kind("input_audio_buffer.speech_stopped"@) == FrameKind::SpeechStopped,
        frame_kind("response.function_call_arguments.done"@) == FrameKind::FunctionCall,
        frame_kind("response.done"@) == FrameKind::ResponseDone,
        frame_kind("error"@) == FrameKind::Error,
{
    reveal_strlit("session.updated");
    reveal_strlit("response.audio.delta");
    reveal_strlit("response.output_audio.delta");
    reveal_strlit("response.audio_transcript.delta");
    reveal_strlit("response.output_audio_transcript.delta");
    reveal_strlit("response.audio_transcript.done");
    reveal_strlit("response.output_audio_transcript.done");
    reveal_strlit("conversation.item.input_audio_transcription.completed");
    reveal_strlit("input_audio_buffer.speech_started");
    reveal_strlit("input_audio_buffer.speech_stopped");
    reveal_strlit("response.function_call_arguments.done");
    reveal_strlit("response.done");
    reveal_strlit("error");
    assert("session.updated"@.len() == 15);
    assert("response.audio.delta"@.len() == 20);
    assert("response.output_audio.delta"@.len() == 27);
    assert("response.audio_transcript.delta"@.len() == 31);
    assert("response.output_audio_transcript.delta"@.len() == 38);
    assert("response.audio_transcript.done"@.len() == 30);
    assert("response.output_audio_transcript.done"@.len() == 37);
    assert("conversation.item.input_audio_transcription.completed"@.len() == 53);
    assert("input_audio_buffer.speech_started"@.len() == 33);
    assert("input_audio_buffer.speech_stopped"@.len() == 33);
    assert("response.function_call_arguments.done"@.len() == 37);
    assert("response.done"@.len() == 13);
    assert("error"@.len() == 5);
    assert("response.output_audio_transcript.done"@[9] != "response.function_call_arguments.done"@[9]);
    assert("input_audio_buffer.speech_started"@[28] != "input_audio_buffer.speech_stopped"@[28]);
}

/// The event a text frame becomes, by the kind of its `type`.
fn parse_event_kind(text: &str) -> (ev: RealtimeEvent)
    ensures
        parsed_event(text@, ev),
{
    let v = match parse_json(text) {
        Some(v) => v,
        None => return RealtimeEvent::Unknown(json_string(text.to_owned())),
    };
    let t = frame_field(text, "type");
    match frame_kind_of(t.as_str()) {
        FrameKind::SessionReady => RealtimeEvent::SessionReady,
        FrameKind::AudioDelta => RealtimeEvent::AudioDelta { delta: frame_field(text, "delta") },
        FrameKind::OutputTranscriptDelta => RealtimeEvent::TranscriptDelta {
            delta: frame_field(text, "delta"),
            source: "output".to_owned(),
        },
        FrameKind::OutputTranscriptDone => RealtimeEvent::TranscriptDone {
            transcript: frame_field(text, "transcript"),
            source: "output".to_owned(),
        },
        FrameKind::InputTranscriptDone => RealtimeEvent::TranscriptDone {
            transcript: frame_field(text, "transcript"),
            source: "input".to_owned(),
        },
        FrameKind::SpeechStarted => RealtimeEvent::SpeechStarted,
        FrameKind::SpeechStopped => RealtimeEvent::SpeechStopped,
        FrameKind::FunctionCall => RealtimeEvent::FunctionCall {
            name: frame_field(text, "name"),
            call_id: frame_field(text, "call_id"),
            arguments: frame_field(text, "arguments"),
        },
        FrameKind::ResponseDone => RealtimeEvent::ResponseDone,
        FrameKind::Error => {
            let message = match json_nested_str(text, "error", "message") {
                Some(m) => m,
                None => match json_member_str(text, "message") {
                    Some(m) => m,
                    None => "unknown error".to_owned(),
                },
            };
            RealtimeEvent::Error { message }
        },
        FrameKind::Other => RealtimeEvent::Unknown(v),
    }
}

/// A message read from the realtime socket, as the receiver sees it.
pub enum SocketMessage {
    /// A text frame.
    Text(String),
    /// A close frame, with its code and reason when it carried them.
    Close(Option<(u16, String)>),
    /// A ping, pong, raw frame or binary message: skipped.
    Other,
}

/// What the receiver does with one socket message: the event to deliver,
/// or `None` to read on.
pub fn event_for_message(msg: SocketMessage) -> (r: Option<RealtimeEvent>)
    ensures
        match msg {
            SocketMessage::Text(t) => r matches Some(ev) && parsed_event(t@, ev),
            SocketMessage::Close(frame) => r matches Some(RealtimeEvent::Closed { code, reason })
                && code == (match frame {
                Some(f) => Some(f.0),
                None => None,
            }) && reason@ == (match frame {
                Some(f) => f.1@,
                None => Seq::empty(),
            }),
            SocketMessage::Other => r is None,
        },
{
    match msg {
        SocketMessage::Text(t) => Some(parse_event(t.as_str())),
        SocketMessage::Close(frame) => match frame {
            Some((code, reason)) => Some(RealtimeEvent::Closed { code: Some(code), reason }),
            None => Some(RealtimeEvent::Closed { code: None, reason: String::new() }),
        },
        SocketMessage::Other => None,
    }
}

/// The event a failed read becomes: a transport error carrying the
/// failure's own text (which can hold the operating system's message, so
/// nothing more is stated of it).
pub fn transport_error_event(err: &tokio_tungstenite::tungstenite::Error) -> (ev: RealtimeEvent)
    ensures
        ev is TransportError,
{
    RealtimeEvent::TransportError { message: websocket_error_text(err) }
}

// ---------------------------------------------------------------------------
// Frames the sender writes
// ---------------------------------------------------------------------------
//
// Each frame is a `serde_json` object, with its members given in the order
// below, written as compact JSON text by `serde_json::to_string`.

/// The JSON string for `s`.
pub open spec fn jstr(s: Seq<char>) -> serde_json::Value {
    string_json(s)
}

/// A member whose value is a JSON string.
fn text_member(name: &str, text: &str) -> (m: (String, serde_json::Value))
    ensures
        m.0@ == name@,
        m.1 == string_json(text@),
{
    (name.to_owned(), json_string(text.to_owned()))
}

/// A member with the given value.
fn member(name: &str, value: serde_json::Value) -> (m: (String, serde_json::Value))
    ensures
        m.0@ == name@,
        m.1 == value,
{
    (name.to_owned(), value)
}

/// An object of one string member.
fn object1(name: &str, text: &str) -> (v: serde_json::Value)
    ensures
        v == object_json(seq![(name@, jstr(text@))]),
{
    let m = vec![text_member(name, text)];
    assert(members_view(m@) =~= seq![(name@, jstr(text@))]);
    json_object(m)
}

/// An object of two members.
fn object2(a: (String, serde_json::Value), b: (String, serde_json::Value)) -> (v: serde_json::Value)
    ensures
        v == object_json(seq![(a.0@, a.1), (b.0@, b.1)]),
{
    let ghost (an, av) = (a.0@, a.1);
    let ghost (bn, bv) = (b.0@, b.1);
    let m = vec![a, b];
    assert(members_view(m@) =~= seq![(an, av), (bn, bv)]);
    json_object(m)
}

/// The frame appending one base64 PCM chunk to the input audio buffer.
pub open spec fn audio_frame_value(pcm: Seq<char>) -> serde_json::Value {
    object_json(seq![("type"@, jstr("input_audio_buffer.append"@)), ("audio"@, jstr(pcm))])
}

/// The frame that adds a user text message to the conversation.
pub open spec fn text_item_value(text: Seq<char>) -> serde_json::Value {
    object_json(
        seq![
            ("type"@, jstr("conversation.item.create"@)),
            (
                "item"@,
                object_json(
                    seq![
                        ("type"@, jstr("message"@)),
                        ("role"@, jstr("user"@)),
                        (
                            "content"@,
                            array_json(
                                seq![object_json(seq![("type"@, jstr("input_text"@)), ("text"@, jstr(text))])],
                            ),
                        ),
                    ],
                ),
            ),
        ],
    )
}

/// The frame that asks for a spoken and written response.
pub open spec fn text_response_value() -> serde_json::Value {
    object_json(
        seq![
            ("type"@, jstr("response.create"@)),
            ("response"@, object_json(seq![("modalities"@, array_json(seq![jstr("text"@), jstr("audio"@)]))])),
        ],
    )
}

/// The frame that hands a tool call's output back to the model.
pub open spec fn function_output_value(call_id: Seq<char>, output: Seq<char>) -> serde_json::Value {
    object_json(
        seq![
            ("type"@, jstr("conversation.item.create"@)),
            (
                "item"@,
                object_json(
                    seq![
                        ("type"@, jstr("function_call_output"@)),
                        ("call_id"@, jstr(call_id)),
                        ("output"@, jstr(output)),
                    ],
                ),
            ),
        ],
    )
}

/// The frame that asks for a response with the session's modalities.
pub open spec fn response_create_value() -> serde_json::Value {
    object_json(seq![("type"@, jstr("response.create"@))])
}

/// The frame that interrupts the current response.
pub open spec fn cancel_value() -> serde_json::Value {
    object_json(seq![("type"@, jstr("response.cancel"@))])
}

/// The frame carrying one microphone chunk on an ElevenLabs socket.
pub open spec fn elevenlabs_audio_value(pcm: Seq<char>) -> serde_json::Value {
    object_json(seq![("user_audio_chunk"@, jstr(pcm))])
}

/// The `input_audio_buffer.append` frame for one base64 PCM chunk.
pub fn audio_frame(base64_pcm: &str) -> (r: String)
    ensures
        r@ == value_json(audio_frame_value(base64_pcm@)),
{
    let v = object2(text_member("type", "input_audio_buffer.append"), text_member("audio", base64_pcm));
    value_to_json(&v)
}

/// The two frames of a text turn: the user message, then the request for
/// a response in text and audio.
pub fn text_frames(text: &str) -> (r: (String, String))
    ensures
        r.0@ == value_json(text_item_value(text@)),
        r.1@ == value_json(text_response_value()),
{
    let part = object2(text_member("type", "input_text"), text_member("text", text));
    let ghost part_v = part;
    let content = vec![part];
    assert(content@ =~= seq![part_v]);
    let content_v = json_array(content);
    let item_members = vec![
        text_member("type", "message"),
        text_member("role", "user"),
        member("content", content_v),
    ];
    assert(members_view(item_members@) =~= seq![
        ("type"@, jstr("message"@)),
        ("role"@, jstr("user"@)),
        ("content"@, array_json(seq![part_v])),
    ]);
    let item = json_object(item_members);
    let frame = object2(text_member("type", "conversation.item.create"), member("item", item));
    let modalities = vec![json_string("text".to_owned()), json_string("audio".to_owned())];
    assert(modalities@ =~= seq![jstr("text"@), jstr("audio"@)]);
    let m = vec![member("modalities", json_array(modalities))];
    assert(members_view(m@) =~= seq![("modalities"@, array_json(seq![jstr("text"@), jstr("audio"@)]))]);
    let response = object2(text_member("type", "response.create"), member("response", json_object(m)));
    (value_to_json(&frame), value_to_json(&response))
}

/// The two frames of a tool result: the call's output, then the request
/// for a response.
pub fn function_result_frames(call_id: &str, output: &str) -> (r: (String, String))
    ensures
        r.0@ == value_json(function_output_value(call_id@, output@)),
        r.1@ == value_json(response_create_value()),
{
    let item_members = vec![
        text_member("type", "function_call_output"),
        text_member("call_id", call_id),
        text_member("output", output),
    ];
    assert(members_view(item_members@) =~= seq![
        ("type"@, jstr("function_call_output"@)),
        ("call_id"@, jstr(call_id@)),
        ("output"@, jstr(output@)),
    ]);
    let item = json_object(item_members);
    let frame = object2(text_member("type", "conversation.item.create"), member("item", item));
    let response = object1("type", "response.create");
    (value_to_json(&frame), value_to_json(&response))
}

/// The `response.cancel` frame.
pub fn cancel_frame() -> (r: String)
    ensures
        r@ == value_json(cancel_value()),
{
    value_to_json(&object1("type", "response.cancel"))
}

/// The `user_audio_chunk` frame of an ElevenLabs conversational socket.
pub fn elevenlabs_audio_frame(base64_pcm: &str) -> (r: String)
    ensures
        r@ == value_json(elevenlabs_audio_value(base64_pcm@)),
{
    value_to_json(&object1("user_audio_chunk", base64_pcm))
}

/// Response from the QAI realtime session endpoint.
///
/// Two shapes share this type. An xAI session carries `ephemeral_token`,
/// `url` and no `provider`; an ElevenLabs session carries `signed_url`
/// (whose query string is the credential) and `provider = "elevenlabs"`.
/// [`ws_url`](Self::ws_url) picks whichever is set.
#[derive(Clone)]
pub struct RealtimeSession {
    /// Ephemeral token for a direct xAI WebSocket connection.
    pub ephemeral_token: String,
    /// WebSocket URL for an xAI session ("wss://api.x.ai/v1/realtime").
    pub url: String,
    /// Signed WebSocket URL for an ElevenLabs session; the credential is in
    /// the URL.
    pub signed_url: String,
    /// Session ID for billing (pass to realtime/end on disconnect).
    pub session_id: String,
    /// `"elevenlabs"` for ElevenLabs sessions; empty for xAI.
    pub provider: String,
}

/// What the debug text shows of a credential: nothing when it is empty,
/// `<redacted>` otherwise.
pub open spec fn masked(v: Seq<char>) -> Seq<char> {
    if v.len() == 0 {
        Seq::empty()
    } else {
        "<redacted>"@
    }
}

/// The debug text of a session: its fields in order, each as a quoted
/// string, with the token and the signed URL masked.
pub open spec fn session_debug(s: RealtimeSession) -> Seq<char> {
    "RealtimeSession { ephemeral_token: "@ + debug_quoted(masked(s.ephemeral_token@))
        + ", url: "@ + debug_quoted(s.url@) + ", signed_url: "@ + debug_quoted(
        masked(s.signed_url@),
    ) + ", session_id: "@ + debug_quoted(s.session_id@) + ", provider: "@ + debug_quoted(
        s.provider@,
    ) + " }"@
}

fn mask(v: &str) -> (r: &'static str)
    ensures
        r@ == masked(v@),
{
    proof {
        reveal_strlit("");
        reveal_strlit("<redacted>");
    }
    if v.is_empty() {
        ""
    } else {
        "<redacted>"
    }
}

impl RealtimeSession {
    /// Get the WebSocket URL — checks both `url` and `signed_url` fields.
    pub fn ws_url(&self) -> (r: &str)
        ensures
            r@ == (if self.signed_url@.len() > 0 {
                self.signed_url@
            } else {
                self.url@
            }),
    {
        if !self.signed_url.as_str().is_empty() {
            self.signed_url.as_str()
        } else {
            self.url.as_str()
        }
    }

    /// The session as debug text. The token and the signed URL are
    /// credentials, so the text shows only whether they are set.
    pub fn debug_text(&self) -> (r: String)
        ensures
            r@ == session_debug(*self),
    {
        let mut v: Vec<char> = Vec::new();
        push_str(&mut v, "RealtimeSession { ephemeral_token: ");
        push_str(&mut v, debug_str(mask(self.ephemeral_token.as_str())).as_str());
        push_str(&mut v, ", url: ");
        push_str(&mut v, debug_str(self.url.as_str()).as_str());
        push_str(&mut v, ", signed_url: ");
        push_str(&mut v, debug_str(mask(self.signed_url.as_str())).as_str());
        push_str(&mut v, ", session_id: ");
        push_str(&mut v, debug_str(self.session_id.as_str()).as_str());
        push_str(&mut v, ", provider: ");
        push_str(&mut v, debug_str(self.provider.as_str()).as_str());
        push_str(&mut v, " }");
        string_from_chars(v)
    }
}

/// The debug text of a session does not depend on its credentials, only on
/// whether each is set: two sessions that differ in their token or signed
/// URL alone, with the same ones empty, print alike.
pub proof fn lemma_debug_hides_credentials(a: RealtimeSession, b: RealtimeSession)
    requires
        a.url@ == b.url@,
        a.session_id@ == b.session_id@,
        a.provider@ == b.provider@,
        (a.ephemeral_token@.len() == 0) == (b.ephemeral_token@.len() == 0),
        (a.signed_url@.len() == 0) == (b.signed_url@.len() == 0),
    ensures
        session_debug(a) == session_debug(b),
{
}

/// Backwards-compatible alias for [`RealtimeSession`].
pub type RealtimeSessionResponse = RealtimeSession;

/// Connection parameters for the ElevenLabs conversational-voice proxy.
///
/// Every field is optional: the gateway falls back to its own default voice
/// and model, and creates a conversational agent on the fly when `agent_id` is
/// absent.
#[derive(Debug, Clone, Default)]
pub struct ElevenLabsProxyConfig {
    /// ElevenLabs voice id. Applied when the gateway creates the agent for
    /// this session; an existing `agent_id` keeps its own voice.
    pub voice_id: Option<String>,

    /// ElevenLabs model id. Applied when the gateway creates the agent for
    /// this session, like `voice_id`.
    pub model: Option<String>,

    /// An existing conversational agent to connect to. Omit to have the
    /// gateway create one for this session.
    pub agent_id: Option<String>,
}

/// `?voice_id=..&model=..&agent_id=..` with each value URL-encoded, for
/// the fields that are set, in that order; empty when none is.
pub open spec fn proxy_query(c: ElevenLabsProxyConfig) -> Seq<char> {
    let params = seq![
        ("voice_id"@, c.voice_id),
        ("model"@, c.model),
        ("agent_id"@, c.agent_id),
    ];
    query_of(params)
}

/// The query of the set parameters: `?` and `key=encoded value` pairs
/// joined by `&`; empty when none is set.
pub open spec fn query_of(params: Seq<(Seq<char>, Option<String>)>) -> Seq<char> {
    let body = joined_params(params);
    if body.len() == 0 {
        Seq::empty()
    } else {
        "?"@ + body
    }
}

/// The set parameters as `key=encoded value` joined by `&`.
pub open spec fn joined_params(params: Seq<(Seq<char>, Option<String>)>) -> Seq<char>
    decreases params.len(),
{
    if params.len() == 0 {
        Seq::empty()
    } else {
        let rest = joined_params(params.drop_last());
        match params.last().1 {
            None => rest,
            Some(v) => {
                let pair = params.last().0 + "="@ + url_encoded(v@);
                if rest.len() == 0 {
                    pair
                } else {
                    rest + "&"@ + pair
                }
            },
        }
    }
}

fn push_param(acc: &mut Vec<char>, key: &str, value: &Option<String>)
    ensures
        final(acc)@ == (match value {
            None => old(acc)@,
            Some(v) => {
                let pair = key@ + "="@ + url_encoded(v@);
                if old(acc)@.len() == 0 {
                    pair
                } else {
                    old(acc)@ + "&"@ + pair
                }
            },
        }),
{
    match value {
        None => {},
        Some(v) => {
            if acc.len() > 0 {
                push_str(acc, "&");
            }
            push_str(acc, key);
            push_str(acc, "=");
            push_str(acc, url_encode(v.as_str()).as_str());
        },
    }
}

impl ElevenLabsProxyConfig {
    /// Renders the config as the proxy's query string (empty when nothing is
    /// set).
    pub fn query(&self) -> (r: String)
        ensures
            r@ == proxy_query(*self),
    {
        let ghost params = seq![
            ("voice_id"@, self.voice_id),
            ("model"@, self.model),
            ("agent_id"@, self.agent_id),
        ];
        let mut body: Vec<char> = Vec::new();
        assert(params.take(1).drop_last() =~= params.take(0));
        assert(params.take(0) =~= Seq::<(Seq<char>, Option<String>)>::empty());
        assert(params.take(1).last() == params[0]);
        assert(joined_params(params.take(0)) =~= Seq::<char>::empty());
        push_param(&mut body, "voice_id", &self.voice_id);
        assert(body@ == joined_params(params.take(1)));
        assert(params.take(2).drop_last() =~= params.take(1));
        assert(params.take(2).last() == params[1]);
        push_param(&mut body, "model", &self.model);
        assert(body@ == joined_params(params.take(2)));
        assert(params.take(3).drop_last() =~= params.take(2));
        assert(params.take(3).last() == params[2]);
        push_param(&mut body, "agent_id", &self.agent_id);
        assert(body@ == joined_params(params.take(3)));
        assert(params.take(3) =~= params);
        if body.len() == 0 {
            String::new()
        } else {
            let mut q: Vec<char> = Vec::new();
            push_str(&mut q, "?");
            push_chars(&mut q, &body);
            string_from_chars(q)
        }
    }
}

/// The gateway path of a realtime session: `/qai/v1/realtime`, with the
/// model URL-encoded as the `model` query parameter when one is set.
pub open spec fn realtime_path_spec(model: Seq<char>) -> Seq<char> {
    if model.len() == 0 {
        "/qai/v1/realtime"@
    } else {
        "/qai/v1/realtime?model="@ + url_encoded(model)
    }
}

/// The gateway path a realtime session connects to.
pub fn realtime_path(config: &RealtimeConfig) -> (r: String)
    ensures
        r@ == realtime_path_spec(config.model@),
{
    if config.model.as_str().is_empty() {
        "/qai/v1/realtime".to_owned()
    } else {
        let mut v: Vec<char> = Vec::new();
        push_str(&mut v, "/qai/v1/realtime?model=");
        push_str(&mut v, url_encode(config.model.as_str()).as_str());
        string_from_chars(v)
    }
}

/// The gateway path of an ElevenLabs conversational session.
pub fn elevenlabs_path(config: &ElevenLabsProxyConfig) -> (r: String)
    ensures
        r@ == "/qai/v1/realtime/elevenlabs"@ + proxy_query(*config),
{
    let mut v: Vec<char> = Vec::new();
    push_str(&mut v, "/qai/v1/realtime/elevenlabs");
    push_str(&mut v, config.query().as_str());
    string_from_chars(v)
}

/// The audio conventions a `session.update` frame follows.
#[derive(Debug, Clone, Copy, PartialEq, Eq, Structural)]
pub enum SessionFormat {
    /// OpenAI's: text and audio modalities, `pcm16` both ways, and
    /// `gpt-4o-mini-transcribe` transcription.
    OpenAi,
    /// xAI's: `grok-2-audio` transcription and `audio/pcm` at the sample
    /// rate both ways.
    Xai { sample_rate: u32 },
}

/// What the `session.update` frame sent when a session opens carries,
/// besides `turn_detection: server_vad`.
#[derive(Debug, Clone)]
pub struct SessionUpdate {
    pub voice: String,
    pub instructions: String,
    pub tools: Vec<serde_json::Value>,
    /// The model, when the config names one.
    pub model: Option<String>,
    pub format: SessionFormat,
}

/// A copy of each tool definition.
fn copy_values(v: &Vec<serde_json::Value>) -> (r: Vec<serde_json::Value>)
    ensures
        r@ == v@,
{
    let mut r: Vec<serde_json::Value> = Vec::new();
    let mut i: usize = 0;
    while i < v.len()
        invariant
            i <= v@.len(),
            r@ == v@.take(i as int),
        decreases v@.len() - i,
    {
        r.push(v[i].clone());
        i = i + 1;
        assert(r@ =~= v@.take(i as int));
    }
    assert(v@.take(v@.len() as int) =~= v@);
    r
}

/// Builds the `session.update` contents from the config. A `gpt-` model
/// gets the OpenAI frame shape; everything else, including the gateway's
/// `grok-realtime` defaults, gets xAI's.
pub fn build_session_update(config: &RealtimeConfig) -> (u: SessionUpdate)
    ensures
        u.voice@ == config.voice@,
        u.instructions@ == config.instructions@,
        u.tools@ == config.tools@,
        u.model == (if config.model@.len() == 0 {
            None
        } else {
            Some(config.model)
        }),
        u.format == (if has_prefix(config.model@, "gpt-"@) {
            SessionFormat::OpenAi
        } else {
            SessionFormat::Xai { sample_rate: config.sample_rate }
        }),
{
    let model_chars = chars_of(config.model.as_str());
    let format = if starts_with(&model_chars, "gpt-") {
        SessionFormat::OpenAi
    } else {
        SessionFormat::Xai { sample_rate: config.sample_rate }
    };
    let model = if config.model.as_str().is_empty() {
        None
    } else {
        Some(config.model.clone())
    };
    SessionUpdate {
        voice: config.voice.clone(),
        instructions: config.instructions.clone(),
        tools: copy_values(&config.tools),
        model,
        format,
    }
}

/// The PCM format object at `rate` Hz.
pub open spec fn pcm_format_value(rate: u32) -> serde_json::Value {
    object_json(seq![("format"@, object_json(seq![("type"@, jstr("audio/pcm"@)), ("rate"@, u32_json(rate))]))])
}

/// The members both frame shapes share: the voice, the instructions,
/// server-side voice activity detection, the tools, and the model when
/// one is named.
pub open spec fn common_members(u: SessionUpdate) -> Seq<(Seq<char>, serde_json::Value)> {
    let base = seq![
        ("voice"@, jstr(u.voice@)),
        ("instructions"@, jstr(u.instructions@)),
        ("turn_detection"@, object_json(seq![("type"@, jstr("server_vad"@))])),
        ("tools"@, array_json(u.tools@)),
    ];
    match u.model {
        Some(m) => base.push(("model"@, jstr(m@))),
        None => base,
    }
}

/// The members of the session: the voice, the instructions, server-side
/// voice activity detection and the tools; the model when one is named;
/// then, for the OpenAI shape, text and audio modalities, PCM16 in both
/// directions and its transcription model, and for the xAI shape its
/// transcription model and the PCM rate of each direction.
pub open spec fn session_members(u: SessionUpdate) -> Seq<(Seq<char>, serde_json::Value)> {
    let with_model = common_members(u);
    match u.format {
        SessionFormat::OpenAi => with_model + seq![
            ("modalities"@, array_json(seq![jstr("text"@), jstr("audio"@)])),
            ("input_audio_format"@, jstr("pcm16"@)),
            ("output_audio_format"@, jstr("pcm16"@)),
            ("input_audio_transcription"@, object_json(seq![("model"@, jstr("gpt-4o-mini-transcribe"@))])),
        ],
        SessionFormat::Xai { sample_rate } => with_model + seq![
            ("input_audio_transcription"@, object_json(seq![("model"@, jstr("grok-2-audio"@))])),
            (
                "audio"@,
                object_json(
                    seq![("input"@, pcm_format_value(sample_rate)), ("output"@, pcm_format_value(sample_rate))],
                ),
            ),
        ],
    }
}

/// The `session.update` frame for `u`.
pub open spec fn session_update_value(u: SessionUpdate) -> serde_json::Value {
    object_json(seq![("type"@, jstr("session.update"@)), ("session"@, object_json(session_members(u)))])
}

fn pcm_format(rate: u32) -> (v: serde_json::Value)
    ensures
        v == pcm_format_value(rate),
{
    let inner = object2(text_member("type", "audio/pcm"), member("rate", json_u32(rate)));
    let ghost iv = inner;
    let m = vec![member("format", inner)];
    assert(members_view(m@) =~= seq![("format"@, iv)]);
    json_object(m)
}

/// The `session.update` frame the sender writes first on a new session.
pub fn session_update_frame(u: &SessionUpdate) -> (r: String)
    ensures
        r@ == value_json(session_update_value(*u)),
{
    let tools = json_array(copy_values(&u.tools));
    let mut members: Vec<(String, serde_json::Value)> = vec![
        text_member("voice", u.voice.as_str()),
        text_member("instructions", u.instructions.as_str()),
        member("turn_detection", object1("type", "server_vad")),
        member("tools", tools),
    ];
    let ghost base = seq![
        ("voice"@, jstr(u.voice@)),
        ("instructions"@, jstr(u.instructions@)),
        ("turn_detection"@, object_json(seq![("type"@, jstr("server_vad"@))])),
        ("tools"@, array_json(u.tools@)),
    ];
    assert(members_view(members@) =~= base);
    match &u.model {
        Some(m) => {
            members.push(text_member("model", m.as_str()));
        },
        None => {},
    }
    assert(members_view(members@) =~= common_members(*u));
    match u.format {
        SessionFormat::OpenAi => {
            let modalities = vec![json_string("text".to_owned()), json_string("audio".to_owned())];
            assert(modalities@ =~= seq![jstr("text"@), jstr("audio"@)]);
            members.push(member("modalities", json_array(modalities)));
            members.push(text_member("input_audio_format", "pcm16"));
            members.push(text_member("output_audio_format", "pcm16"));
            members.push(member("input_audio_transcription", object1("model", "gpt-4o-mini-transcribe")));
        },
        SessionFormat::Xai { sample_rate } => {
            members.push(member("input_audio_transcription", object1("model", "grok-2-audio")));
            let audio = object2(member("input", pcm_format(sample_rate)), member("output", pcm_format(sample_rate)));
            members.push(member("audio", audio));
        },
    }
    assert(members_view(members@) =~= session_members(*u));
    let session = json_object(members);
    let frame = object2(text_member("type", "session.update"), member("session", session));
    value_to_json(&frame)
}

/// `s` with every leading repetition of `p` removed.
pub open spec fn strip_repeated(s: Seq<char>, p: Seq<char>) -> Seq<char>
    decreases s.len(),
{
    if p.len() > 0 && has_prefix(s, p) {
        strip_repeated(s.skip(p.len() as int), p)
    } else {
        s
    }
}

/// `s` with every trailing `c` removed.
pub open spec fn trim_trailing(s: Seq<char>, c: char) -> Seq<char>
    decreases s.len(),
{
    if s.len() > 0 && s.last() == c {
        trim_trailing(s.drop_last(), c)
    } else {
        s
    }
}

/// `s` up to its first `c`, or all of it.
pub open spec fn until_char(s: Seq<char>, c: char) -> Seq<char>
    decreases s.len(),
{
    if s.len() == 0 || s[0] == c {
        Seq::empty()
    } else {
        seq![s[0]] + until_char(s.skip(1), c)
    }
}

/// `s` without `p` in front, when it starts with `p`.
pub open spec fn strip_once(s: Seq<char>, p: Seq<char>) -> Seq<char> {
    if has_prefix(s, p) {
        s.skip(p.len() as int)
    } else {
        s
    }
}

fn strip_repeated_chars(s: &Vec<char>, p: &str) -> (r: Vec<char>)
    ensures
        r@ == strip_repeated(s@, p@),
{
    let pv = chars_of(p);
    if pv.len() == 0 {
        return chars_from(s, 0);
    }
    let mut cur = chars_from(s, 0);
    assert(cur@ =~= s@);
    while starts_with(&cur, p)
        invariant
            pv@ == p@,
            p@.len() > 0,
            strip_repeated(cur@, p@) == strip_repeated(s@, p@),
        decreases cur@.len(),
    {
        cur = chars_from(&cur, pv.len());
    }
    cur
}

fn trim_trailing_chars(s: &Vec<char>, c: char) -> (r: Vec<char>)
    ensures
        r@ == trim_trailing(s@, c),
{
    let mut end: usize = s.len();
    assert(s@.take(end as int) =~= s@);
    while end > 0 && s[end - 1] == c
        invariant
            end <= s@.len(),
            trim_trailing(s@.take(end as int), c) == trim_trailing(s@, c),
        decreases end,
    {
        assert(s@.take(end as int).drop_last() =~= s@.take(end - 1));
        end = end - 1;
    }
    crate::text::chars_range(s, 0, end)
}

fn until_char_chars(s: &Vec<char>, c: char) -> (r: Vec<char>)
    ensures
        r@ == until_char(s@, c),
{
    let mut r: Vec<char> = Vec::new();
    let mut i: usize = 0;
    assert(s@.skip(0) =~= s@);
    assert(r@ + until_char(s@, c) =~= until_char(s@, c));
    while i < s.len() && s[i] != c
        invariant
            i <= s@.len(),
            forall|j: int| 0 <= j < i ==> s@[j] != c,
            r@ == s@.take(i as int),
            until_char(s@, c) == r@ + until_char(s@.skip(i as int), c),
        decreases s@.len() - i,
    {
        assert(s@.skip(i as int).skip(1) =~= s@.skip(i + 1));
        assert(s@.skip(i as int)[0] == s@[i as int]);
        r.push(s[i]);
        i = i + 1;
        assert(r@ =~= s@.take(i as int));
    }
    assert(until_char(s@.skip(i as int), c) =~= Seq::<char>::empty()) by {
        if i < s@.len() {
            assert(s@.skip(i as int)[0] == s@[i as int]);
        }
    }
    r
}

/// Whether every character may stand in a header read back as text.
pub open spec fn visible_text(s: Seq<char>) -> bool {
    forall|i: int| 0 <= i < s.len() ==> #[trigger] s[i] == '\t' || (' ' <= s[i] && s[i] < '\x7f')
}

pub fn is_visible(s: &Vec<char>) -> (r: bool)
    ensures
        r == visible_text(s@),
{
    let mut i: usize = 0;
    while i < s.len()
        invariant
            i <= s@.len(),
            forall|j: int| 0 <= j < i ==> #[trigger] s@[j] == '\t' || (' ' <= s@[j] && s@[j] < '\x7f'),
        decreases s@.len() - i,
    {
        let ch = s[i];
        if !(ch == '\t' || (' ' <= ch && ch < '\x7f')) {
            return false;
        }
        i = i + 1;
    }
    true
}

/// `wss://` or `ws://` in place of the base URL's `https://` or
/// `http://`; `None` for any other scheme.
pub open spec fn ws_base(base: Seq<char>) -> Option<Seq<char>> {
    if has_prefix(base, "https://"@) {
        Some("wss://"@ + base.skip(8))
    } else if has_prefix(base, "http://"@) {
        Some("ws://"@ + base.skip(7))
    } else {
        None
    }
}

/// The `Host` of a gateway socket: the base URL without its scheme and
/// trailing slashes.
pub open spec fn gateway_host(base: Seq<char>) -> Seq<char> {
    trim_trailing(strip_repeated(strip_repeated(base, "https://"@), "http://"@), '/')
}

/// Where and how to open a WebSocket to the gateway.
#[derive(Debug, Clone)]
pub struct GatewaySocket {
    /// `ws(s)://` URL of the path.
    pub url: String,
    /// `Host` header.
    pub host: String,
    /// `Authorization` header, as the client sends it.
    pub authorization: String,
    /// `X-API-Key` header: the bearer token alone.
    pub api_key: String,
}

impl ClientSettings {
    /// The WebSocket target for a gateway path, carrying this client's
    /// credentials. Fails with `invalid_base_url` when the base URL is
    /// neither `https://` nor `http://`.
    pub fn gateway_socket(&self, path: &str) -> (r: Result<GatewaySocket>)
        ensures
            match ws_base(self.base_url@) {
                None => r matches Err(Error::Api(e)) && e.status_code == 0 && e.code@
                    == "invalid_base_url"@ && e.message@ == "Cannot convert base URL to WebSocket: "@
                    + self.base_url@ && e.request_id@.len() == 0,
                Some(w) => r matches Ok(g) && g.url@ == w + path@ && g.host@ == gateway_host(
                    self.base_url@,
                ) && g.authorization@ == (if visible_text(self.auth_header@) {
                    self.auth_header@
                } else {
                    Seq::empty()
                }) && g.api_key@ == strip_once(g.authorization@, "Bearer "@),
            },
    {
        let base = chars_of(self.base_url.as_str());
        proof {
            reveal_strlit("https://");
            reveal_strlit("http://");
            reveal_strlit("Bearer ");
        }
        let mut url: Vec<char> = Vec::new();
        if starts_with(&base, "https://") {
            push_str(&mut url, "wss://");
            push_chars(&mut url, &chars_from(&base, 8));
        } else if starts_with(&base, "http://") {
            push_str(&mut url, "ws://");
            push_chars(&mut url, &chars_from(&base, 7));
        } else {
            let mut m: Vec<char> = Vec::new();
            push_str(&mut m, "Cannot convert base URL to WebSocket: ");
            push_chars(&mut m, &base);
            return Err(local_error("invalid_base_url", string_from_chars(m)));
        }
        push_str(&mut url, path);
        let host = trim_trailing_chars(
            &strip_repeated_chars(&strip_repeated_chars(&base, "https://"), "http://"),
            '/',
        );
        let auth_chars = chars_of(self.auth_header.as_str());
        let auth = if is_visible(&auth_chars) {
            auth_chars
        } else {
            Vec::new()
        };
        let token = if starts_with(&auth, "Bearer ") {
            chars_from(&auth, 7)
        } else {
            chars_from(&auth, 0)
        };
        assert(auth@.skip(0) =~= auth@);
        Ok(
            GatewaySocket {
                url: string_from_chars(url),
                host: string_from_chars(host),
                authorization: string_from_chars(auth),
                api_key: string_from_chars(token),
            },
        )
    }
}

/// The URL the direct-to-xAI connection uses.
pub const DIRECT_REALTIME_URL: &'static str = "wss://api.x.ai/v1/realtime";

/// The `Host` of a direct connection: the URL without its `wss://` or
/// `ws://` scheme, up to the first `/`.
pub open spec fn direct_host(url: Seq<char>) -> Seq<char> {
    until_char(strip_repeated(strip_repeated(url, "wss://"@), "ws://"@), '/')
}

/// The headers of a direct connection that the logic decides: `Host`
/// and `Authorization`.
pub fn direct_target(url: &str, token: &str) -> (r: (String, String))
    ensures
        r.0@ == direct_host(url@),
        r.1@ == "Bearer "@ + token@,
{
    let u = chars_of(url);
    let host = until_char_chars(&strip_repeated_chars(&strip_repeated_chars(&u, "wss://"), "ws://"), '/');
    let mut auth: Vec<char> = Vec::new();
    push_str(&mut auth, "Bearer ");
    push_str(&mut auth, token);
    (string_from_chars(host), string_from_chars(auth))
}

/// A member of a refused upgrade's error body: under `error`, else at the
/// top level.
pub open spec fn body_field(body: Seq<char>, key: Seq<char>) -> Option<Seq<char>> {
    match nested_str(body, "error"@, key) {
        Some(v) => Some(v),
        None => member_str(body, key),
    }
}

/// The text of a refused upgrade's body: decoded lossily, empty when there
/// was none.
pub open spec fn upgrade_body_text(body: Option<Seq<u8>>) -> Seq<char> {
    match body {
        Some(b) => utf8_lossy(b),
        None => Seq::empty(),
    }
}

/// The bytes of an optional body.
pub open spec fn body_bytes(body: Option<Vec<u8>>) -> Option<Seq<u8>> {
    match body {
        Some(b) => Some(b@),
        None => None,
    }
}

fn read_body_field(body: &str, key: &str) -> (r: Option<String>)
    ensures
        match r {
            Some(v) => body_field(body@, key@) == Some(v@),
            None => body_field(body@, key@) is None,
        },
{
    match json_nested_str(body, "error", key) {
        Some(v) => Some(v),
        None => json_member_str(body, key),
    }
}

/// The error a refused upgrade with this status and body becomes: the
/// status, and the code and message of its JSON error body
/// (`websocket_upgrade` and the raw body when it has none).
pub open spec fn upgrade_error(status: u16, body: Option<Seq<u8>>, e: Error) -> bool {
    let text = upgrade_body_text(body);
    e matches Error::Api(a) && a.status_code == status && a.code@ == (match body_field(
        text,
        "code"@,
    ) {
        Some(c) => c,
        None => "websocket_upgrade"@,
    }) && a.message@ == (match body_field(text, "message"@) {
        Some(m) => m,
        None => text,
    }) && a.request_id@.len() == 0
}

/// The error a refused upgrade becomes (see [`upgrade_error`]).
pub fn refused_upgrade_error(status: u16, body: Option<Vec<u8>>) -> (e: Error)
    ensures
        upgrade_error(status, body_bytes(body), e),
{
    let text = match &body {
        Some(b) => utf8_lossy_string(b.as_slice()),
        None => String::new(),
    };
    let code = match read_body_field(text.as_str(), "code") {
        Some(c) => c,
        None => "websocket_upgrade".to_owned(),
    };
    let message = match read_body_field(text.as_str(), "message") {
        Some(m) => m,
        None => text,
    };
    Error::Api(
        crate::error::ApiError { status_code: status, code, message, request_id: String::new() },
    )
}

/// The HTTP answer to an upgrade request: its status, and its body when it
/// had one.
pub type UpgradeAnswer = Response<Option<Vec<u8>>>;

/// The HTTP answer a refused upgrade carried: `Some` exactly when the
/// WebSocket failure is the server answering the upgrade with a status
/// other than 101.
pub uninterp spec fn refused_answer(e: WsError) -> Option<UpgradeAnswer>;

/// Tells a refused upgrade apart from other WebSocket failures: the
/// server's answer, or the failure as it was.
#[verifier::external_body]
fn split_refused_upgrade(e: WsError) -> (r: std::result::Result<UpgradeAnswer, WsError>)
    ensures
        match r {
            Ok(answer) => refused_answer(e) == Some(answer),
            Err(x) => refused_answer(e) is None && x == e,
        },
{
    match e {
        WsError::Http(answer) => Ok(answer),
        other => Err(other),
    }
}

/// The status code of an HTTP answer.
pub uninterp spec fn answer_status(answer: UpgradeAnswer) -> u16;

/// `Response::status`, as a number.
#[verifier::external_body]
fn upgrade_status(answer: &UpgradeAnswer) -> (r: u16)
    ensures
        r == answer_status(*answer),
{
    answer.status().as_u16()
}

/// The body of an HTTP answer, when it had one.
pub uninterp spec fn answer_body(answer: UpgradeAnswer) -> Option<Seq<u8>>;

/// `Response::into_body`.
#[verifier::external_body]
fn upgrade_body(answer: UpgradeAnswer) -> (r: Option<Vec<u8>>)
    ensures
        body_bytes(r) == answer_body(answer),
{
    answer.into_body()
}

/// Maps a failed upgrade onto the crate's error types. The gateway refuses
/// an upgrade with its usual JSON error body (401 unauthenticated, 402
/// insufficient balance, 503 not configured), which becomes an
/// [`Error::Api`] so `status_code` and `typed_code` work on this path too;
/// any other failure stays a WebSocket error.
pub fn handshake_error(e: WsError) -> (r: Error)
    ensures
        match refused_answer(e) {
            Some(answer) => upgrade_error(answer_status(answer), answer_body(answer), r),
            None => r == Error::WebSocket(e),
        },
{
    match split_refused_upgrade(e) {
        Ok(answer) => {
            let status = upgrade_status(&answer);
            refused_upgrade_error(status, upgrade_body(answer))
        },
        Err(other) => Error::WebSocket(other),
    }
}

} // verus!
