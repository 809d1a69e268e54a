//! WebSocket transport rules: who may upgrade, which frames are accepted, and which
//! outbound messages the writer may still deliver.
use vstd::prelude::*;
use crate::prompt::{utf8_len, utf8_width, width_of, lemma_seq_sum_prefix, lemma_seq_sum_step, seq_sum};
use crate::session::{gate_admits, GenerationGate, OutboundMessage};
use crate::unicode::{chars_of, concat_text, concat_views, text_eq};

verus! {

/// A request header as the upgrade handler sees it.
#[derive(Clone, Debug, PartialEq, Eq)]
pub enum HeaderText {
    Absent,
    /// Present, with this visible-ASCII text.
    Text(String),
    /// Present, but not readable as text.
    Unreadable,
}

/// The header, if present and readable, equals `expected`.
pub open spec fn header_is(h: HeaderText, expected: Seq<char>) -> bool {
    h matches HeaderText::Text(t) && t@ == expected
}

/// A header wins over the query parameter; with neither, the value counts as absent.
pub fn header_or_query_is_or_absent(header: &HeaderText, query: Option<&str>, expected: &str) -> (b: bool)
    ensures
        b == match header {
            HeaderText::Absent => match query {
                None => true,
                Some(q) => q@ == expected@,
            },
            _ => header_is(*header, expected@),
        },
{
    match header {
        HeaderText::Absent => match query {
            None => true,
            Some(q) => text_eq(q, expected),
        },
        HeaderText::Text(t) => text_eq(t.as_str(), expected),
        HeaderText::Unreadable => false,
    }
}

/// A header wins over the query parameter; one of them must equal `expected`.
pub fn header_or_query_is(header: &HeaderText, query: Option<&str>, expected: &str) -> (b: bool)
    ensures
        b == match header {
            HeaderText::Absent => match query {
                None => false,
                Some(q) => q@ == expected@,
            },
            _ => header_is(*header, expected@),
        },
{
    match header {
        HeaderText::Absent => match query {
            None => false,
            Some(q) => text_eq(q, expected),
        },
        HeaderText::Text(t) => text_eq(t.as_str(), expected),
        HeaderText::Unreadable => false,
    }
}

/// A header wins over the query parameter; the one that applies must be non-empty.
pub fn header_or_query_present(header: &HeaderText, query: Option<&str>) -> (b: bool)
    ensures
        b == match header {
            HeaderText::Absent => match query {
                None => false,
                Some(q) => q@.len() > 0,
            },
            HeaderText::Text(t) => t@.len() > 0,
            HeaderText::Unreadable => false,
        },
{
    match header {
        HeaderText::Absent => match query {
            None => false,
            Some(q) => chars_of(q).len() > 0,
        },
        HeaderText::Text(t) => chars_of(t.as_str()).len() > 0,
        HeaderText::Unreadable => false,
    }
}

/// What the upgrade request carries for identification and authorization.
#[derive(Clone, Debug)]
pub struct UpgradeRequest {
    pub protocol_version_header: HeaderText,
    pub protocol_version_query: Option<String>,
    pub device_id_header: HeaderText,
    pub device_id_query: Option<String>,
    pub client_id_header: HeaderText,
    pub client_id_query: Option<String>,
    pub authorization_header: HeaderText,
    pub authorization_query: Option<String>,
}

/// Why an upgrade is refused.
#[derive(Clone, Copy, Debug, PartialEq, Eq)]
pub enum UpgradeRejection {
    /// Protocol-Version must be 1 where given; Device-Id and Client-Id are required.
    MissingIdentity,
    /// The configured bearer token was not presented.
    InvalidToken,
}

pub open spec fn opt_view(q: Option<String>) -> Option<Seq<char>> {
    match q {
        Some(s) => Some(s@),
        None => None,
    }
}

pub open spec fn is_or_absent(h: HeaderText, q: Option<String>, expected: Seq<char>) -> bool {
    match h {
        HeaderText::Absent => match q {
            None => true,
            Some(v) => v@ == expected,
        },
        _ => header_is(h, expected),
    }
}

pub open spec fn is_given(h: HeaderText, q: Option<String>, expected: Seq<char>) -> bool {
    match h {
        HeaderText::Absent => match q {
            None => false,
            Some(v) => v@ == expected,
        },
        _ => header_is(h, expected),
    }
}

pub open spec fn is_present(h: HeaderText, q: Option<String>) -> bool {
    match h {
        HeaderText::Absent => match q {
            None => false,
            Some(v) => v@.len() > 0,
        },
        HeaderText::Text(t) => t@.len() > 0,
        HeaderText::Unreadable => false,
    }
}

/// The upgrade decision: identity first, then the bearer token when one is configured.
pub open spec fn upgrade_verdict(r: UpgradeRequest, token: Seq<char>) -> Result<(), UpgradeRejection> {
    if !is_or_absent(r.protocol_version_header, r.protocol_version_query, "1"@) || !is_present(
        r.device_id_header,
        r.device_id_query,
    ) || !is_present(r.client_id_header, r.client_id_query) {
        Err(UpgradeRejection::MissingIdentity)
    } else if token.len() > 0 && !is_given(
        r.authorization_header,
        r.authorization_query,
        "Bearer "@ + token,
    ) {
        Err(UpgradeRejection::InvalidToken)
    } else {
        Ok(())
    }
}

fn as_str_opt(q: &Option<String>) -> (r: Option<&str>)
    ensures
        match r {
            Some(s) => q is Some && s@ == q.unwrap()@,
            None => q is None,
        },
{
    match q {
        Some(s) => Some(s.as_str()),
        None => None,
    }
}

/// Decides whether a WebSocket upgrade may proceed.
pub fn check_upgrade(request: &UpgradeRequest, token: &str) -> (r: Result<(), UpgradeRejection>)
    ensures
        r == upgrade_verdict(*request, token@),
{
    if !header_or_query_is_or_absent(
        &request.protocol_version_header,
        as_str_opt(&request.protocol_version_query),
        "1",
    ) || !header_or_query_present(&request.device_id_header, as_str_opt(&request.device_id_query))
        || !header_or_query_present(
        &request.client_id_header,
        as_str_opt(&request.client_id_query),
    ) {
        return Err(UpgradeRejection::MissingIdentity);
    }
    if chars_of(token).len() > 0 {
        let parts = ["Bearer ", token];
        let expected = concat_text(&parts);
        proof {
            let ps = parts@;
            assert(ps.len() == 2);
            assert(ps[0] == "Bearer ");
            assert(ps[1] == token);
            let p1 = ps.drop_last();
            assert(p1.len() == 1 && p1.last() == "Bearer ");
            assert(p1.drop_last().len() == 0);
            assert(concat_views(p1.drop_last()) == Seq::<char>::empty());
            assert(concat_views(p1) =~= "Bearer "@);
            assert(concat_views(ps) == concat_views(p1) + ps.last()@);
        }
        if !header_or_query_is(
            &request.authorization_header,
            as_str_opt(&request.authorization_query),
            expected.as_str(),
        ) {
            return Err(UpgradeRejection::InvalidToken);
        }
    }
    Ok(())
}

/// Whether the UTF-8 length of `s` is at most `max` bytes.
pub fn utf8_within(s: &str, max: usize) -> (b: bool)
    ensures
        b == (utf8_len(s@) <= max),
{
    let v = chars_of(s);
    let mut n: usize = 0;
    let mut i: usize = 0;
    while i < v.len()
        invariant
            i <= v@.len(),
            v@ == s@,
            n == seq_sum(v@.take(i as int), width_of()),
            n <= max,
        decreases v.len() - i,
    {
        let code = v[i] as u32;
        let w: usize = if code < 0x80 {
            1
        } else if code < 0x800 {
            2
        } else if code < 0x10000 {
            3
        } else {
            4
        };
        proof {
            lemma_seq_sum_step(v@, width_of(), i as int);
        }
        i = i + 1;
        if w > max - n {
            proof {
                lemma_seq_sum_prefix(v@, width_of(), i as int);
            }
            return false;
        }
        n = n + w;
    }
    assert(v@.take(i as int) =~= v@);
    true
}

/// The first frame of a connection, as far as the hello check reads it.
#[derive(Clone, Debug, PartialEq, Eq)]
pub enum HelloFrame {
    Text(String),
    Binary,
    Other,
}

/// The hello frame's text, or the close code for a frame that cannot be a hello: 1009
/// for text over `max` bytes, 1002 for anything that is not text.
pub fn checked_text(frame: HelloFrame, max: usize) -> (r: Result<String, u16>)
    ensures
        match frame {
            HelloFrame::Text(t) => if utf8_len(t@) <= max {
                r matches Ok(s) && s@ == t@
            } else {
                r == Err::<String, u16>(1009)
            },
            _ => r == Err::<String, u16>(1002),
        },
{
    match frame {
        HelloFrame::Text(text) => {
            if utf8_within(text.as_str(), max) {
                Ok(text)
            } else {
                Err(1009)
            }
        },
        HelloFrame::Binary => Err(1002),
        HelloFrame::Other => Err(1002),
    }
}

impl OutboundMessage {
    /// The cancellation generation a turn-scoped message belongs to.
    pub fn generation(&self) -> (r: Option<u64>)
        ensures
            r == outbound_generation(*self),
    {
        match self {
            OutboundMessage::TurnText { generation, .. } => Some(*generation),
            OutboundMessage::BeginTurn { generation, .. } => Some(*generation),
            OutboundMessage::Binary { generation, .. } => Some(*generation),
            _ => None,
        }
    }
}

/// The generation of a turn-scoped message; session-scoped messages have none.
pub open spec fn outbound_generation(m: OutboundMessage) -> Option<u64> {
    match m {
        OutboundMessage::TurnText { generation, .. } => Some(generation),
        OutboundMessage::BeginTurn { generation, .. } => Some(generation),
        OutboundMessage::Binary { generation, .. } => Some(generation),
        _ => None,
    }
}

/// Whether the writer may still deliver `message`: session-scoped messages always, turn
/// output only while its generation has not been invalidated.
pub fn deliverable(gate: &GenerationGate, message: &OutboundMessage) -> (b: bool)
    ensures
        b == match outbound_generation(*message) {
            None => true,
            Some(g) => gate_admits(gate.spec_invalidated(), g),
        },
{
    match message.generation() {
        None => true,
        Some(g) => gate.admits(g),
    }
}

/// Whether the writer sends `message` now or holds it back: a normal TTS stop waits while
/// paced audio is still queued, so it follows the final packet.
pub fn defer_until_audio_drains(is_normal_tts_stop: bool, audio_queued: bool) -> (b: bool)
    ensures
        b == (is_normal_tts_stop && audio_queued),
{
    is_normal_tts_stop && audio_queued
}

/// Whether a text control message is a normal TTS stop: its `type` is `tts` and its
/// `state` is `stop`.
pub fn is_normal_tts_stop(message_type: Option<&str>, state: Option<&str>) -> (b: bool)
    ensures
        b == (message_type matches Some(t) && t@ == "tts"@ && (state matches Some(s) && s@
            == "stop"@)),
{
    match (message_type, state) {
        (Some(t), Some(s)) => text_eq(t, "tts") && text_eq(s, "stop"),
        _ => false,
    }
}

/// The host `url::Url::parse` finds in `origin`, as `host_str` gives it; `None` when the
/// origin does not parse or has no host.
pub uninterp spec fn origin_host_of(origin: Seq<char>) -> Option<Seq<char>>;

/// Calls `url::Url::parse` on a request's `Origin` and returns `host_str` of the result.
#[verifier::external_body]
fn origin_host(origin: &str) -> (r: Option<String>)
    ensures
        match origin_host_of(origin@) {
            Some(h) => r matches Some(s) && s@ == h,
            None => r is None,
        },
{
    url::Url::parse(origin).ok().and_then(|u| u.host_str().map(str::to_owned))
}

/// What a request's `Origin` means for reading the OTA response cross-origin, which only
/// local browser tooling may do.
#[derive(Clone, Debug, PartialEq, Eq)]
pub enum CorsOrigin {
    /// The origin does not parse as a URL with a host: no cross-origin access.
    NoHost,
    /// The origin is `localhost`: access is allowed.
    Localhost,
    /// Another host: access is allowed only if it is a loopback IP address (which the caller
    /// decides with `std::net`).
    OtherHost(String),
}

/// Classifies a request's `Origin` by its host.
pub fn classify_origin(origin: &str) -> (r: CorsOrigin)
    ensures
        match origin_host_of(origin@) {
            None => r == CorsOrigin::NoHost,
            Some(h) => if h == "localhost"@ {
                r == CorsOrigin::Localhost
            } else {
                r matches CorsOrigin::OtherHost(s) && s@ == h
            },
        },
{
    match origin_host(origin) {
        None => CorsOrigin::NoHost,
        Some(host) => if text_eq(host.as_str(), "localhost") {
            CorsOrigin::Localhost
        } else {
            CorsOrigin::OtherHost(host)
        },
    }
}

/// A close code the reader sends when a frame is larger than allowed.
pub const FRAME_TOO_LARGE_CODE: u16 = 1009;

/// A close code the reader sends when the session cannot take another message.
pub const SESSION_BUSY_CODE: u16 = 1013;

/// What the socket reader received after the handshake.
#[derive(Clone, Copy, Debug, PartialEq, Eq)]
pub enum ReaderEvent {
    /// A text frame of `bytes` bytes; `parsed` when it read as a client message.
    Text { bytes: usize, parsed: bool },
    /// A binary frame of `bytes` bytes.
    Binary { bytes: usize },
    /// A ping or pong.
    Control,
    /// The peer closed the connection.
    Closed,
    /// Receiving failed.
    Failed,
}

/// What the reader does with what it received.
#[derive(Clone, Copy, Debug, PartialEq, Eq)]
pub enum ReaderAction {
    /// Hand the message or audio to the session without waiting; report a refusal with
    /// `ingress_refused`.
    Deliver,
    /// Nothing: read the next frame.
    Ignore,
    /// Queue a close with this code on the urgent lane and stop reading.
    CloseWith(u16),
    /// Stop reading.
    Stop,
}

/// The reader's decision: an oversized frame closes the connection, a text frame that is
/// not a client message is ignored, everything else reaches the session; a close or a
/// receive failure ends reading.
pub fn reader_step(event: ReaderEvent, max_frame_bytes: usize) -> (a: ReaderAction)
    ensures
        a == match event {
            ReaderEvent::Text { bytes, parsed } => if bytes > max_frame_bytes {
                ReaderAction::CloseWith(FRAME_TOO_LARGE_CODE)
            } else if parsed {
                ReaderAction::Deliver
            } else {
                ReaderAction::Ignore
            },
            ReaderEvent::Binary { bytes } => if bytes > max_frame_bytes {
                ReaderAction::CloseWith(FRAME_TOO_LARGE_CODE)
            } else {
                ReaderAction::Deliver
            },
            ReaderEvent::Control => ReaderAction::Ignore,
            ReaderEvent::Closed => ReaderAction::Stop,
            ReaderEvent::Failed => ReaderAction::Stop,
        },
{
    match event {
        ReaderEvent::Text { bytes, parsed } => if bytes > max_frame_bytes {
            ReaderAction::CloseWith(FRAME_TOO_LARGE_CODE)
        } else if parsed {
            ReaderAction::Deliver
        } else {
            ReaderAction::Ignore
        },
        ReaderEvent::Binary { bytes } => if bytes > max_frame_bytes {
            ReaderAction::CloseWith(FRAME_TOO_LARGE_CODE)
        } else {
            ReaderAction::Deliver
        },
        ReaderEvent::Control => ReaderAction::Ignore,
        ReaderEvent::Closed => ReaderAction::Stop,
        ReaderEvent::Failed => ReaderAction::Stop,
    }
}

/// The session's bounded ingress refused a delivery: a message cannot be dropped, so the
/// connection closes as busy; audio is dropped and reading goes on.
pub fn ingress_refused(text: bool) -> (a: ReaderAction)
    ensures
        a == if text {
            ReaderAction::CloseWith(SESSION_BUSY_CODE)
        } else {
            ReaderAction::Ignore
        },
{
    if text {
        ReaderAction::CloseWith(SESSION_BUSY_CODE)
    } else {
        ReaderAction::Ignore
    }
}

} // verus!
