//! The V1 device protocol: client hello validation, listen/abort commands and server
//! replies.
use vstd::prelude::*;
use crate::text::{is_json_document, json_document_valid};
use crate::unicode::{chars_of, text_eq};
use serde_json::Value;

verus! {

/// Audio parameters a client announces in its hello.
#[derive(Clone, Debug, PartialEq, Eq)]
pub struct AudioParams {
    pub format: String,
    pub sample_rate: u32,
    pub channels: u8,
    pub frame_duration: u16,
}

/// A client hello.
#[derive(Clone, Debug, PartialEq, Eq)]
pub struct ClientHello {
    pub message_type: String,
    pub version: u8,
    pub transport: String,
    pub audio_params: AudioParams,
}

/// The hello version assumed when a client omits it.
pub fn default_v1_version() -> (v: u8)
    ensures
        v == 1,
{
    1
}

/// The transport assumed when a client omits it.
pub fn default_websocket_transport() -> (s: String)
    ensures
        s@ == "websocket"@,
{
    "websocket".to_owned()
}

/// The uplink audio profile assumed when a client omits it: Opus, 16 kHz, mono, 60 ms.
pub fn default_uplink_audio_params() -> (p: AudioParams)
    ensures
        p.format@ == "opus"@,
        p.sample_rate == 16000,
        p.channels == 1,
        p.frame_duration == 60,
{
    AudioParams { format: "opus".to_owned(), sample_rate: 16000, channels: 1, frame_duration: 60 }
}

#[derive(Clone, Debug, PartialEq, Eq)]
pub enum ProtocolError {
    MalformedJson,
    InvalidHello,
    InvalidAudioProfile,
}

/// The canonical V1 uplink audio profile.
pub open spec fn is_canonical_uplink(a: AudioParams) -> bool {
    a.format@ == "opus"@ && a.sample_rate == 16000 && a.channels == 1 && a.frame_duration == 60
}

impl ClientHello {
    /// A V1 hello over WebSocket with the canonical uplink profile.
    pub fn validate_v1(&self) -> (r: Result<(), ProtocolError>)
        ensures
            !(self.message_type@ == "hello"@ && self.version == 1 && self.transport@
                == "websocket"@) ==> r == Err::<(), ProtocolError>(ProtocolError::InvalidHello),
            (self.message_type@ == "hello"@ && self.version == 1 && self.transport@
                == "websocket"@) ==> if is_canonical_uplink(self.audio_params) {
                r is Ok
            } else {
                r == Err::<(), ProtocolError>(ProtocolError::InvalidAudioProfile)
            },
    {
        if !text_eq(self.message_type.as_str(), "hello") || self.version != 1 || !text_eq(
            self.transport.as_str(),
            "websocket",
        ) {
            return Err(ProtocolError::InvalidHello);
        }
        let audio = &self.audio_params;
        if !text_eq(audio.format.as_str(), "opus") || audio.sample_rate != 16000 || audio.channels
            != 1 || audio.frame_duration != 60 {
            return Err(ProtocolError::InvalidAudioProfile);
        }
        Ok(())
    }
}

#[derive(Clone, Copy, Debug, PartialEq, Eq, Structural)]
pub enum ListenMode {
    Manual,
    Auto,
    Realtime,
}

#[derive(Clone, Debug, PartialEq, Eq)]
pub enum ListenCommand {
    Start { mode: ListenMode },
    Stop,
    Detect { text: String },
}

#[derive(Clone, Debug, PartialEq, Eq)]
pub enum ClientMessage {
    Hello(ClientHello),
    Listen { session_id: Option<String>, command: ListenCommand },
    Abort { session_id: Option<String> },
    Unknown,
}

impl ClientMessage {
    /// An unscoped listen command.
    pub fn listen(command: ListenCommand) -> (m: Self)
        ensures
            m == (ClientMessage::Listen { session_id: None, command }),
    {
        ClientMessage::Listen { session_id: None, command }
    }
}

/// A top-level JSON member value, as far as the protocol reads it.
#[derive(Clone, Debug, PartialEq, Eq)]
pub enum JsonScalar {
    Null,
    Bool,
    Number,
    Str(String),
    Array,
    Object,
}

/// The value of the first member named `key`.
pub open spec fn field_value(fields: Seq<(String, JsonScalar)>, key: Seq<char>) -> Option<JsonScalar>
    decreases fields.len(),
{
    if fields.len() == 0 {
        None
    } else if fields[0].0@ == key {
        Some(fields[0].1)
    } else {
        field_value(fields.drop_first(), key)
    }
}

/// The string value of member `key`, if it is a string.
pub open spec fn field_str(fields: Seq<(String, JsonScalar)>, key: Seq<char>) -> Option<Seq<char>> {
    match field_value(fields, key) {
        Some(JsonScalar::Str(s)) => Some(s@),
        _ => None,
    }
}

/// A member value as text: a string's characters, `None` for any other JSON value.
pub open spec fn scalar_text(s: JsonScalar) -> Option<Seq<char>> {
    match s {
        JsonScalar::Str(t) => Some(t@),
        _ => None,
    }
}

/// The members of a top-level JSON object as character data: each name with its string
/// value, or `None` where the value is not a string.
pub open spec fn members_view(fields: Seq<(String, JsonScalar)>) -> Seq<(Seq<char>, Option<Seq<char>>)> {
    fields.map_values(|p: (String, JsonScalar)| (p.0@, scalar_text(p.1)))
}

/// The first member named `key`: absent (`None`), a string (`Some(Some(s))`) or another
/// JSON value (`Some(None)`).
pub open spec fn member(members: Seq<(Seq<char>, Option<Seq<char>>)>, key: Seq<char>) -> Option<Option<Seq<char>>>
    decreases members.len(),
{
    if members.len() == 0 {
        None
    } else if members[0].0 == key {
        Some(members[0].1)
    } else {
        member(members.drop_first(), key)
    }
}

/// The string value of member `key`, if it is a string.
pub open spec fn member_str(members: Seq<(Seq<char>, Option<Seq<char>>)>, key: Seq<char>) -> Option<Seq<char>> {
    match member(members, key) {
        Some(Some(s)) => Some(s),
        _ => None,
    }
}

proof fn lemma_member_view(fields: Seq<(String, JsonScalar)>, key: Seq<char>)
    ensures
        member(members_view(fields), key) == match field_value(fields, key) {
            None => None,
            Some(v) => Some(scalar_text(v)),
        },
        member_str(members_view(fields), key) == field_str(fields, key),
    decreases fields.len(),
{
    if fields.len() > 0 {
        assert(members_view(fields).drop_first() =~= members_view(fields.drop_first()));
        lemma_member_view(fields.drop_first(), key);
    }
}

/// Looks up a member of a top-level JSON object.
pub fn field<'a>(fields: &'a [(String, JsonScalar)], key: &str) -> (r: Option<&'a JsonScalar>)
    ensures
        match field_value(fields@, key@) {
            Some(v) => r == Some(&v),
            None => r is None,
        },
{
    let mut i: usize = 0;
    assert(fields@.skip(0) =~= fields@);
    while i < fields.len()
        invariant
            i <= fields@.len(),
            field_value(fields@, key@) == field_value(fields@.skip(i as int), key@),
        decreases fields.len() - i,
    {
        let ghost rest = fields@.skip(i as int);
        assert(rest[0] == fields@[i as int]);
        if text_eq(fields[i].0.as_str(), key) {
            return Some(&fields[i].1);
        }
        assert(rest.drop_first() =~= fields@.skip(i + 1));
        i = i + 1;
    }
    None
}

/// The string value of a member, if it is a string.
pub fn field_text<'a>(fields: &'a [(String, JsonScalar)], key: &str) -> (r: Option<&'a str>)
    ensures
        match field_str(fields@, key@) {
            Some(s) => r matches Some(t) && t@ == s,
            None => r is None,
        },
{
    match field(fields, key) {
        Some(JsonScalar::Str(s)) => Some(s.as_str()),
        _ => None,
    }
}

/// The session scope of a command: absent (`Some(None)`), a string (`Some(Some(id))`), or
/// malformed (`None`).
pub open spec fn session_id_of(members: Seq<(Seq<char>, Option<Seq<char>>)>) -> Option<Option<Seq<char>>> {
    match member(members, "session_id"@) {
        None => Some(None),
        Some(Some(s)) => Some(Some(s)),
        Some(None) => None,
    }
}

pub fn parse_session_id(fields: &[(String, JsonScalar)]) -> (r: Option<Option<String>>)
    ensures
        match session_id_of(members_view(fields@)) {
            None => r is None,
            Some(None) => r == Some(None::<String>),
            Some(Some(s)) => r matches Some(Some(t)) && t@ == s,
        },
{
    proof {
        lemma_member_view(fields@, "session_id"@);
    }
    match field(fields, "session_id") {
        None => Some(None),
        Some(JsonScalar::Str(s)) => Some(Some(s.clone())),
        Some(_) => None,
    }
}

/// The listen command a `{"type": "listen", ...}` message carries, if well-formed.
pub open spec fn listen_command_of(members: Seq<(Seq<char>, Option<Seq<char>>)>) -> Option<(Option<Seq<char>>, ListenCommandView)> {
    match session_id_of(members) {
        None => None,
        Some(session) => {
            let state = member_str(members, "state"@);
            let mode = member_str(members, "mode"@);
            let text = member_str(members, "text"@);
            if state == Some("start"@) {
                if mode == Some("manual"@) {
                    Some((session, ListenCommandView::Start(ListenMode::Manual)))
                } else if mode == Some("auto"@) {
                    Some((session, ListenCommandView::Start(ListenMode::Auto)))
                } else if mode == Some("realtime"@) {
                    Some((session, ListenCommandView::Start(ListenMode::Realtime)))
                } else {
                    None
                }
            } else if state == Some("stop"@) {
                Some((session, ListenCommandView::Stop))
            } else if state == Some("detect"@) {
                match text {
                    Some(t) => Some((session, ListenCommandView::Detect(t))),
                    None => None,
                }
            } else {
                None
            }
        },
    }
}

/// A listen command as character data.
pub enum ListenCommandView {
    Start(ListenMode),
    Stop,
    Detect(Seq<char>),
}

pub open spec fn listen_command_view(c: ListenCommand) -> ListenCommandView {
    match c {
        ListenCommand::Start { mode } => ListenCommandView::Start(mode),
        ListenCommand::Stop => ListenCommandView::Stop,
        ListenCommand::Detect { text } => ListenCommandView::Detect(text@),
    }
}

pub open spec fn option_text_view(o: Option<String>) -> Option<Seq<char>> {
    match o {
        Some(s) => Some(s@),
        None => None,
    }
}

/// Reads a listen message: a malformed session scope, state, mode or text makes it `Unknown`.
pub fn parse_listen_command(fields: &[(String, JsonScalar)]) -> (m: ClientMessage)
    ensures
        match listen_command_of(members_view(fields@)) {
            None => m == ClientMessage::Unknown,
            Some((session, command)) => m matches ClientMessage::Listen { session_id, command: c }
                && option_text_view(session_id) == session && listen_command_view(c) == command,
        },
{
    proof {
        lemma_member_view(fields@, "state"@);
        lemma_member_view(fields@, "mode"@);
        lemma_member_view(fields@, "text"@);
    }
    let session_id = match parse_session_id(fields) {
        Some(s) => s,
        None => return ClientMessage::Unknown,
    };
    let state = field_text(fields, "state");
    let command = match state {
        Some(st) => {
            if text_eq(st, "start") {
                match field_text(fields, "mode") {
                    Some(mode) => {
                        if text_eq(mode, "manual") {
                            ListenCommand::Start { mode: ListenMode::Manual }
                        } else if text_eq(mode, "auto") {
                            ListenCommand::Start { mode: ListenMode::Auto }
                        } else if text_eq(mode, "realtime") {
                            ListenCommand::Start { mode: ListenMode::Realtime }
                        } else {
                            return ClientMessage::Unknown;
                        }
                    },
                    None => return ClientMessage::Unknown,
                }
            } else if text_eq(st, "stop") {
                ListenCommand::Stop
            } else if text_eq(st, "detect") {
                match field_text(fields, "text") {
                    Some(t) => ListenCommand::Detect { text: t.to_owned() },
                    None => return ClientMessage::Unknown,
                }
            } else {
                return ClientMessage::Unknown;
            }
        },
        None => return ClientMessage::Unknown,
    };
    ClientMessage::Listen { session_id, command }
}

/// Reads an abort message: a malformed session scope makes it `Unknown`.
pub fn parse_abort(fields: &[(String, JsonScalar)]) -> (m: ClientMessage)
    ensures
        match session_id_of(members_view(fields@)) {
            None => m == ClientMessage::Unknown,
            Some(session) => m matches ClientMessage::Abort { session_id } && option_text_view(
                session_id,
            ) == session,
        },
{
    match parse_session_id(fields) {
        Some(session_id) => ClientMessage::Abort { session_id },
        None => ClientMessage::Unknown,
    }
}

/// Whether `m` is the message a non-hello object with `members` reads as: by its `type`
/// member, a listen command or an abort, each `Unknown` when malformed; any other type is
/// `Unknown`.
pub open spec fn command_matches(members: Seq<(Seq<char>, Option<Seq<char>>)>, m: ClientMessage) -> bool {
    &&& member_str(members, "type"@) == Some("listen"@) ==> (match listen_command_of(members) {
        None => m == ClientMessage::Unknown,
        Some((session, command)) => m matches ClientMessage::Listen { session_id, command: c }
            && option_text_view(session_id) == session && listen_command_view(c) == command,
    })
    &&& member_str(members, "type"@) == Some("abort"@) ==> (match session_id_of(members) {
        None => m == ClientMessage::Unknown,
        Some(session) => m matches ClientMessage::Abort { session_id } && option_text_view(
            session_id,
        ) == session,
    })
    &&& member_str(members, "type"@) != Some("listen"@) && member_str(members, "type"@) != Some(
        "abort"@,
    ) ==> m == ClientMessage::Unknown
}

/// Reads a non-hello message by its `type` member; anything unrecognised is `Unknown`.
pub fn parse_command_message(fields: &[(String, JsonScalar)]) -> (m: ClientMessage)
    ensures
        command_matches(members_view(fields@), m),
{
    proof {
        lemma_member_view(fields@, "type"@);
        reveal_strlit("listen");
        reveal_strlit("abort");
        assert("listen"@.len() != "abort"@.len());
        assert("listen"@ != "abort"@);
    }
    match field_text(fields, "type") {
        Some(t) => {
            if text_eq(t, "listen") {
                parse_listen_command(fields)
            } else if text_eq(t, "abort") {
                parse_abort(fields)
            } else {
                ClientMessage::Unknown
            }
        },
        None => ClientMessage::Unknown,
    }
}

/// The members of the JSON object that `serde_json::from_str::<serde_json::Map<String,
/// Value>>` reads from `text`, in the map's order: each name with its string value, or
/// `None` where the value is not a string. `None` when `text` is not one JSON object.
pub uninterp spec fn json_object_members(text: Seq<char>) -> Option<Seq<(Seq<char>, Option<Seq<char>>)>>;

/// Calls `serde_json::from_str::<serde_json::Map<String, Value>>`, which reads exactly one
/// JSON object, and hands over its members, each value by its kind and a string with its text.
#[verifier::external_body]
fn json_object_fields(text: &str) -> (r: Option<Vec<(String, JsonScalar)>>)
    ensures
        match r {
            Some(f) => json_object_members(text@) == Some(members_view(f@)),
            None => json_object_members(text@) is None,
        },
        r is Some ==> is_json_document(text@),
{
    let mut fields = Vec::new();
    for (name, value) in serde_json::from_str::<serde_json::Map<String, Value>>(text).ok()? {
        fields.push((name, match value {
            Value::Null => JsonScalar::Null,
            Value::Bool(_) => JsonScalar::Bool,
            Value::Number(_) => JsonScalar::Number,
            Value::String(text) => JsonScalar::Str(text),
            Value::Array(_) => JsonScalar::Array,
            Value::Object(_) => JsonScalar::Object,
        }));
    }
    Some(fields)
}

/// The top-level members a client frame is read by: those of its object, none when the
/// document is not an object.
pub open spec fn frame_members(text: Seq<char>) -> Seq<(Seq<char>, Option<Seq<char>>)> {
    match json_object_members(text) {
        Some(members) => members,
        None => Seq::empty(),
    }
}

/// A listen start is read with the mode its `mode` member names, each to its own: `manual`
/// (push to talk) to `Manual`, `auto` (voice activity) to `Auto`, `realtime` to `Realtime`;
/// any other or missing mode makes the message `Unknown`. The message keeps the session scope
/// of its `session_id` member.
pub proof fn law_listen_start_keeps_its_mode(members: Seq<(Seq<char>, Option<Seq<char>>)>, m: ClientMessage)
    requires
        command_matches(members, m),
        member_str(members, "type"@) == Some("listen"@),
        member_str(members, "state"@) == Some("start"@),
        session_id_of(members) is Some,
    ensures
        member_str(members, "mode"@) == Some("manual"@) ==> (m matches ClientMessage::Listen {
            session_id,
            command: ListenCommand::Start { mode },
        } && mode == ListenMode::Manual && option_text_view(session_id) == session_id_of(members)->0),
        member_str(members, "mode"@) == Some("auto"@) ==> (m matches ClientMessage::Listen {
            session_id,
            command: ListenCommand::Start { mode },
        } && mode == ListenMode::Auto && option_text_view(session_id) == session_id_of(members)->0),
        member_str(members, "mode"@) == Some("realtime"@) ==> (m matches ClientMessage::Listen {
            session_id,
            command: ListenCommand::Start { mode },
        } && mode == ListenMode::Realtime && option_text_view(session_id) == session_id_of(
            members,
        )->0),
        !(member_str(members, "mode"@) == Some("manual"@) || member_str(members, "mode"@) == Some(
            "auto"@,
        ) || member_str(members, "mode"@) == Some("realtime"@)) ==> m == ClientMessage::Unknown,
{
    reveal_strlit("manual");
    reveal_strlit("auto");
    reveal_strlit("realtime");
    reveal_strlit("start");
    reveal_strlit("stop");
    reveal_strlit("detect");
    reveal_strlit("listen");
    reveal_strlit("abort");
    assert("manual"@.len() != "auto"@.len() && "manual"@.len() != "realtime"@.len());
    assert("manual"@ != "auto"@);
    assert("manual"@ != "realtime"@);
    assert("auto"@ != "realtime"@);
    assert("start"@.len() != "stop"@.len() && "start"@.len() != "detect"@.len());
    assert("start"@ != "stop"@);
    assert("start"@ != "detect"@);
    assert("listen"@ != "abort"@);
}

/// The other listen states: `stop` reads as `Stop` and `detect` with a string `text` as
/// `Detect` carrying that text, each keeping the message's session scope; a `detect` without a
/// string `text`, or any other state, makes the message `Unknown`.
pub proof fn law_listen_stop_and_detect(members: Seq<(Seq<char>, Option<Seq<char>>)>, m: ClientMessage)
    requires
        command_matches(members, m),
        member_str(members, "type"@) == Some("listen"@),
        session_id_of(members) is Some,
    ensures
        member_str(members, "state"@) == Some("stop"@) ==> (m matches ClientMessage::Listen {
            session_id,
            command: ListenCommand::Stop,
        } && option_text_view(session_id) == session_id_of(members)->0),
        member_str(members, "state"@) == Some("detect"@) ==> match member_str(members, "text"@) {
            Some(t) => m matches ClientMessage::Listen {
                session_id,
                command: ListenCommand::Detect { text },
            } && text@ == t && option_text_view(session_id) == session_id_of(members)->0,
            None => m == ClientMessage::Unknown,
        },
        !(member_str(members, "state"@) == Some("start"@) || member_str(members, "state"@) == Some(
            "stop"@,
        ) || member_str(members, "state"@) == Some("detect"@)) ==> m == ClientMessage::Unknown,
{
    reveal_strlit("start");
    reveal_strlit("stop");
    reveal_strlit("detect");
    reveal_strlit("listen");
    reveal_strlit("abort");
    assert("start"@.len() != "stop"@.len() && "start"@.len() != "detect"@.len());
    assert("stop"@.len() != "detect"@.len());
    assert("listen"@ != "abort"@);
}

/// An abort reads as `Abort` with the session scope of its `session_id` member (none when the
/// member is absent), and as `Unknown` when that member is not a string.
pub proof fn law_abort_keeps_its_scope(members: Seq<(Seq<char>, Option<Seq<char>>)>, m: ClientMessage)
    requires
        command_matches(members, m),
        member_str(members, "type"@) == Some("abort"@),
    ensures
        member(members, "session_id"@) is None ==> m == (ClientMessage::Abort { session_id: None }),
        member(members, "session_id"@) matches Some(Some(s)) ==> (m matches ClientMessage::Abort {
            session_id: Some(t),
        } && t@ == s),
        member(members, "session_id"@) == Some(None::<Seq<char>>) ==> m == ClientMessage::Unknown,
{
    reveal_strlit("listen");
    reveal_strlit("abort");
    assert("listen"@.len() != "abort"@.len());
}

/// What a client text frame is: a hello, read further with the hello's own schema, or a
/// command message.
#[derive(Clone, Debug, PartialEq, Eq)]
pub enum ClientFrame {
    Hello,
    Message(ClientMessage),
}

/// Reads one client text frame. Text that is not one JSON document is `MalformedJson`; a
/// document whose `type` member is the string `hello` is a hello; anything else is read as a
/// command message from its top-level members.
pub fn parse_client_frame(text: &str) -> (r: Result<ClientFrame, ProtocolError>)
    ensures
        !is_json_document(text@) <==> r == Err::<ClientFrame, ProtocolError>(ProtocolError::MalformedJson),
        r is Err ==> r == Err::<ClientFrame, ProtocolError>(ProtocolError::MalformedJson),
        is_json_document(text@) && member_str(frame_members(text@), "type"@) == Some("hello"@)
            ==> r == Ok::<ClientFrame, ProtocolError>(ClientFrame::Hello),
        is_json_document(text@) && member_str(frame_members(text@), "type"@) != Some("hello"@)
            ==> (r matches Ok(ClientFrame::Message(m)) && command_matches(frame_members(text@), m)),
{
    let chars = chars_of(text);
    if !json_document_valid(&chars) {
        return Err(ProtocolError::MalformedJson);
    }
    let fields = match json_object_fields(text) {
        Some(fields) => fields,
        None => Vec::new(),
    };
    proof {
        assert(members_view(fields@) =~= frame_members(text@));
        lemma_member_view(fields@, "type"@);
    }
    let hello = match field_text(fields.as_slice(), "type") {
        Some(t) => text_eq(t, "hello"),
        None => false,
    };
    if hello {
        Ok(ClientFrame::Hello)
    } else {
        Ok(ClientFrame::Message(parse_command_message(fields.as_slice())))
    }
}

/// The server's audio parameters.
#[derive(Debug)]
pub struct ServerAudioParams {
    pub format: &'static str,
    pub sample_rate: u32,
    pub channels: u8,
    pub frame_duration: u16,
}

/// The server hello sent after a valid client hello.
#[derive(Debug)]
pub struct ServerHello<'a> {
    pub message_type: &'static str,
    pub transport: &'static str,
    pub session_id: &'a str,
    pub audio_params: ServerAudioParams,
}

impl<'a> ServerHello<'a> {
    /// The V1 hello: WebSocket transport, Opus downlink at 24 kHz mono in 60 ms frames.
    pub fn v1(session_id: &'a str) -> (h: Self)
        ensures
            h.message_type@ == "hello"@,
            h.transport@ == "websocket"@,
            h.session_id == session_id,
            h.audio_params.format@ == "opus"@,
            h.audio_params.sample_rate == 24000,
            h.audio_params.channels == 1,
            h.audio_params.frame_duration == 60,
    {
        ServerHello {
            message_type: "hello",
            transport: "websocket",
            session_id,
            audio_params: ServerAudioParams {
                format: "opus",
                sample_rate: 24000,
                channels: 1,
                frame_duration: 60,
            },
        }
    }
}

/// Server clock reported to a device.
#[derive(Debug)]
pub struct ServerTime {
    pub timestamp: i64,
    pub timezone_offset: i16,
}

/// Firmware offered to a device.
#[derive(Debug)]
pub struct Firmware {
    pub version: &'static str,
    pub url: &'static str,
}

/// Where a device connects and with which token.
#[derive(Debug)]
pub struct OtaWebsocket {
    pub url: String,
    pub token: String,
}

/// The OTA check-in response.
#[derive(Debug)]
pub struct OtaResponse {
    pub server_time: ServerTime,
    pub firmware: Firmware,
    pub websocket: OtaWebsocket,
}

} // verus!
