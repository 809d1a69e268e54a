//! Decisions of a voice session: which worker reports still count, where listen commands
//! and audio frames go, how VAD capture cycles are numbered and reset, and what the session
//! tells its workers and its writer when a turn is torn down.
//!
//! `SessionFlow` holds the session's bookkeeping as plain values. Each method takes one
//! event, moves the state, and returns what the caller must do with the outside workers;
//! when the caller needs the outcome of such work (a worker opened, a command admitted), it
//! reports it back through the method named for that outcome.
use vstd::prelude::*;
use crate::mcp::{json_quote, json_string_literal, push_str};
use crate::protocol::{ClientMessage, ListenMode};
use crate::session::{SessionPhase, TurnId};
use crate::unicode::{chars_of, string_of, text_eq, trim, trim_chars};

verus! {

/// One worker operation of a session: the generation it belongs to and its operation
/// number. (Every operation of one session carries that session's id.)
#[derive(Clone, Copy, Debug, PartialEq, Eq, Structural)]
pub struct WorkerToken {
    pub generation: u64,
    pub operation: u64,
}

/// The first sample fed to recognition for speech detected at `sample`: `pre_roll` samples
/// earlier, but not before the start of the stream.
pub open spec fn feed_start(sample: u64, pre_roll: u64) -> u64 {
    if sample >= pre_roll {
        (sample - pre_roll) as u64
    } else {
        0
    }
}

/// The session's bookkeeping of its listening cycle, its workers and its turn.
#[derive(Clone, Debug)]
pub struct SessionFlow {
    pub phase: SessionPhase,
    /// Cancellation epoch: bumped whenever the current work is abandoned.
    pub generation: u64,
    pub listening_mode: Option<ListenMode>,
    /// A listen start that arrived during a turn and waits for the turn to end.
    pub listen_arm_pending: bool,
    pub auto_speech_active: bool,
    pub auto_reset_pending: bool,
    pub asr_stream: Option<WorkerToken>,
    /// ASR streams that were cancelled and whose final report is still awaited.
    pub asr_cleanup_pending: Vec<WorkerToken>,
    pub vad_session: Option<WorkerToken>,
    pub vad_cycle: Option<u64>,
    pub pending_vad_cycle: Option<u64>,
    pub next_vad_cycle: u64,
    /// Samples of audio before a speech start that are handed to ASR with it.
    pub pre_roll_samples: u64,
    /// The generation of the current conversational turn, if one is running.
    pub turn: Option<u64>,
    pub llm_operation: Option<WorkerToken>,
    pub tts_started: bool,
    pub has_turn_permit: bool,
    /// The identity the next admitted turn receives.
    pub next_turn_id: u64,
    /// The operation number the next worker operation receives.
    pub next_operation_id: u64,
}

/// What tearing down the current work asks of the outside, performed in this order:
/// invalidate the outbound gate at `gate_generation`; cancel speech output, first queueing a
/// `tts` stop on the urgent lane when `announce_tts_stop`; cancel the turn's token when
/// `cancel_turn`; cancel the LLM operation; send `Cancel` to the ASR stream; release the
/// active-turn permit when `release_permit`; send `Close` to the VAD worker.
#[derive(Clone, Copy, Debug, PartialEq, Eq, Structural)]
pub struct Teardown {
    pub gate_generation: u64,
    pub announce_tts_stop: bool,
    pub cancel_turn: bool,
    pub cancel_llm: Option<WorkerToken>,
    pub cancel_asr: Option<WorkerToken>,
    pub release_permit: bool,
    pub close_vad: Option<WorkerToken>,
}

/// The close code a session sends when it fails closed.
pub const FAIL_CLOSED_CODE: u16 = 1011;

/// The close code a session sends when no VAD worker can be had.
pub const VAD_UNAVAILABLE_CODE: u16 = 1013;

/// Kinds of report an ASR worker sends.
#[derive(Clone, Copy, Debug, PartialEq, Eq, Structural)]
pub enum AsrEventKind {
    Opened,
    Final,
    Failed,
    Cancelled,
    FinalTimedOut,
    CleanupTimedOut,
}

/// What an ASR report means for the session.
#[derive(Clone, Copy, Debug, PartialEq, Eq, Structural)]
pub enum AsrDisposition {
    /// Nothing: the report is stale or carries no decision.
    Ignore,
    /// A cancelled stream finished; it is no longer awaited.
    CleanupFinished,
    /// A worker missed its deadline: the session must fail closed.
    FailClosed,
    /// The current stream's transcript arrived: commit it and begin the response.
    CommitFinal,
    /// The current stream failed: recognition ends without a transcript.
    RecognitionFailed,
    /// The current stream acknowledged its cancellation.
    StreamCancelled,
}

/// The cycle number handed out after `n`; numbering stops at the top of `u64`.
pub open spec fn cycle_after(n: u64) -> u64 {
    if n == u64::MAX {
        u64::MAX
    } else {
        (n + 1) as u64
    }
}

/// Kinds of report a VAD worker sends.
#[derive(Clone, Copy, Debug, PartialEq, Eq, Structural)]
pub enum VadEventKind {
    Opened,
    Probability,
    SpeechStart,
    SpeechEnd,
    ResetDone,
    Closed,
    Failed,
    ResetTimedOut,
    CleanupTimedOut,
}

/// What a VAD report means for the session.
#[derive(Clone, Copy, Debug, PartialEq, Eq, Structural)]
pub enum VadDisposition {
    /// Nothing: the report is stale or carries no decision.
    Ignore,
    /// Feed the speech probability to the segmenter. A boundary it finds comes back as a
    /// `SpeechStart` or `SpeechEnd` of the same worker and cycle; a segmenter integrity
    /// failure fails the session closed.
    Observe,
    /// Speech began: open an ASR stream under `asr`, report it with `asr_stream_opened`, and
    /// feed it the retained audio from sample `feed_from` on (missing audio fails the session
    /// closed; a refused push is reported with `asr_push_refused`). If the stream cannot be
    /// opened, clear the retained audio.
    BeginRecognition { asr: WorkerToken, feed_from: u64 },
    /// Speech ended while a stream runs: finish recognition with `finish_recognition`.
    FinishRecognition,
    /// Speech ended without a stream: call `complete_recognition`.
    CompleteRecognition,
    /// A capture-cycle reset finished: clear the PCM retention and the segmenter.
    CycleReset,
    /// The VAD worker closed.
    WorkerClosed,
    /// The worker failed or missed a deadline: the session must fail closed.
    FailClosed,
}

/// What ending a recognition asks of the caller, after it releases the permit if told to.
#[derive(Clone, Copy, Debug, PartialEq, Eq, Structural)]
pub enum Completion {
    /// Nothing more.
    Done,
    /// Send `Reset { cycle }` to the VAD worker `worker`; report success with
    /// `vad_reset_sent(false)`, and fail closed if it is refused.
    ResetVad { worker: WorkerToken, cycle: u64 },
    /// A listen start waited for the turn: enter its mode with `replace_listening_mode`.
    EnterArmedMode(ListenMode),
}

/// What finishing a recognition asks of the caller.
#[derive(Clone, Copy, Debug, PartialEq, Eq, Structural)]
pub enum Finish {
    /// No active turn was admitted: send `Cancel` to `cancel_asr`, release the permit when
    /// `release_permit`, and act on `completion`.
    Denied { cancel_asr: Option<WorkerToken>, release_permit: bool, completion: Completion },
    /// Admitted, but no stream is left: release the permit just taken.
    NoStream,
    /// Admitted: send `Finish` to this stream; if it is refused, report `finish_refused`.
    SendFinish(WorkerToken),
}

/// Where a listen start goes.
#[derive(Clone, Copy, Debug, PartialEq, Eq, Structural)]
pub enum StartRoute {
    /// The same automatic mode runs: restart its capture cycle with `begin_cycle_restart`.
    RestartCycle,
    /// A turn runs: the start is recorded and entered once the turn ends.
    Armed,
    /// Enter the mode now with `replace_listening_mode`.
    Replace,
}

/// What restarting the capture cycle of a running VAD worker asks of the caller.
#[derive(Clone, Copy, Debug, PartialEq, Eq, Structural)]
pub enum CycleRestart {
    /// No worker, or a reset is already awaited: nothing.
    Nothing,
    /// Send `Cancel` to this ASR stream first; fail closed if refused, else report
    /// `restart_after_cancel`.
    CancelAsrFirst(WorkerToken),
    /// Clear the PCM retention and the segmenter and send `Reset { cycle }` to `worker`;
    /// report success with `vad_reset_sent(true)`, and fail closed if it is refused.
    ResetVad { worker: WorkerToken, cycle: u64 },
}

/// What aborting the current turn asks of the caller.
#[derive(Clone, Copy, Debug, PartialEq, Eq, Structural)]
pub enum AbortRoute {
    /// The session is closed: nothing.
    Closed,
    /// Perform the teardown and abort manual capture; the session is `Ready`.
    Stopped(Teardown),
    /// Perform the teardown and abort manual capture; a capture-cycle reset is already
    /// awaited.
    AwaitingReset(Teardown),
    /// Perform the teardown, abort manual capture, clear the PCM retention and the
    /// segmenter, and send `Reset { cycle }` to `worker`; report success with
    /// `vad_reset_sent(true)`, and fail closed if it is refused.
    ResetVad { teardown: Teardown, worker: WorkerToken, cycle: u64 },
}

/// Where an admissible detect command goes.
#[derive(Clone, Copy, Debug, PartialEq, Eq, Structural)]
pub enum DetectRoute {
    /// The listening mode takes no typed text.
    Refuse,
    /// Manual listening without a stream: the session must fail closed.
    FailClose,
    /// Send `Cancel` to this stream; fail closed if refused, else report `asr_detached`
    /// and ask for admission.
    CancelAsr(WorkerToken),
    /// Ask the turn limiter for admission and report with `detect_admission`.
    Admit,
}

/// Where an uplink audio frame goes.
#[derive(Clone, Copy, Debug, PartialEq, Eq, Structural)]
pub enum BinaryRoute {
    /// Not taken.
    Drop,
    /// Retain it and push it to the VAD worker (a refused push fails the session closed);
    /// while `feed_asr`, push it to the ASR stream too (a refusal is reported with
    /// `asr_push_refused`).
    FeedVad { worker: WorkerToken, feed_asr: bool },
    /// Push it to manual capture (if capture refuses it, send `Cancel` to the stream) and
    /// then to the ASR stream (without one, report `manual_stream_missing`; if the push is
    /// refused, report `manual_push_refused`).
    FeedManual,
}

/// Kinds of report an LLM operation sends.
#[derive(Clone, Copy, Debug, PartialEq, Eq, Structural)]
pub enum LlmEventKind {
    TextDelta,
    UnexpectedToolCall,
    Finished,
    Failed,
    Cancelled,
}

/// What an LLM report means for the session.
#[derive(Clone, Copy, Debug, PartialEq, Eq, Structural)]
pub enum LlmDisposition {
    /// Nothing: the report belongs to an abandoned operation.
    Ignore,
    /// Append the delta to the response and push it to speech output.
    Speak,
    /// The operation finished: a blank response, or speech output refusing the end of
    /// input, fails the delivery (`fail_speech_delivery`).
    Finish,
    /// The operation ended without a deliverable response: `fail_speech_delivery`.
    Abandon,
}

/// What abandoning a response's delivery asks of the caller, in this order: cancel the
/// turn's token when `cancel_turn`; cancel the LLM operation; invalidate the outbound gate at
/// `gate_generation`; cancel speech output, queueing a `tts` stop on the urgent lane first
/// when `announce_tts_stop`; release the permit when `release_permit`; act on `completion`.
#[derive(Clone, Copy, Debug, PartialEq, Eq, Structural)]
pub struct DeliveryFailure {
    pub cancel_turn: bool,
    pub cancel_llm: Option<WorkerToken>,
    pub gate_generation: u64,
    pub announce_tts_stop: bool,
    pub release_permit: bool,
    pub completion: Completion,
}

/// What a client message asks of the session.
#[derive(Clone, Copy, Debug, PartialEq, Eq, Structural)]
pub enum ClientRoute {
    /// Act on the message's listen command.
    Listen,
    /// Abort the current turn.
    Abort,
    /// Nothing: a hello, an unknown message, or one addressed to another session.
    Ignore,
}

/// A message addressed to no session, or to the empty id, is this session's; otherwise the
/// id must be the session's own.
pub open spec fn addressed_to(session_id: Option<String>, own: Seq<char>) -> bool {
    match session_id {
        None => true,
        Some(s) => s@.len() == 0 || s@ == own,
    }
}

/// Whether a message carrying `session_id` is addressed to the session `own`.
pub fn inbound_session_matches(session_id: Option<&str>, own: &str) -> (b: bool)
    ensures
        b == match session_id {
            None => true,
            Some(s) => s@.len() == 0 || s@ == own@,
        },
{
    match session_id {
        None => true,
        Some(s) => s.unicode_len() == 0 || text_eq(s, own),
    }
}

/// Routes a client message for the session `own`.
pub fn route_client_message(message: &ClientMessage, own: &str) -> (r: ClientRoute)
    ensures
        r == match *message {
            ClientMessage::Listen { session_id, .. } => if addressed_to(session_id, own@) {
                ClientRoute::Listen
            } else {
                ClientRoute::Ignore
            },
            ClientMessage::Abort { session_id } => if addressed_to(session_id, own@) {
                ClientRoute::Abort
            } else {
                ClientRoute::Ignore
            },
            _ => ClientRoute::Ignore,
        },
{
    match message {
        ClientMessage::Listen { session_id, .. } => {
            let id = match session_id {
                Some(s) => Some(s.as_str()),
                None => None,
            };
            if inbound_session_matches(id, own) {
                ClientRoute::Listen
            } else {
                ClientRoute::Ignore
            }
        },
        ClientMessage::Abort { session_id } => {
            let id = match session_id {
                Some(s) => Some(s.as_str()),
                None => None,
            };
            if inbound_session_matches(id, own) {
                ClientRoute::Abort
            } else {
                ClientRoute::Ignore
            }
        },
        _ => ClientRoute::Ignore,
    }
}

/// The user text a final transcript commits: the transcript trimmed, unless nothing is
/// left, in which case nothing is committed.
pub fn committed_transcript(final_text: &str) -> (r: Option<String>)
    ensures
        match r {
            Some(t) => t@ == trim(final_text@) && t@.len() > 0,
            None => trim(final_text@).len() == 0,
        },
{
    let v = chars_of(final_text);
    let t = trim_chars(&v);
    if t.len() == 0 {
        None
    } else {
        Some(string_of(&t))
    }
}

/// The `stt` or `llm` message carrying `text` for session `session_id`.
pub open spec fn text_message(session_id: Seq<char>, kind: Seq<char>, text: Seq<char>) -> Seq<char> {
    "{\"session_id\":"@ + json_string_literal(session_id) + ",\"text\":"@ + json_string_literal(text)
        + ",\"type\":\""@ + kind + "\"}"@
}

/// The `tts` message announcing `state` for session `session_id`.
pub open spec fn tts_message(session_id: Seq<char>, state: Seq<char>) -> Seq<char> {
    "{\"session_id\":"@ + json_string_literal(session_id) + ",\"state\":\""@ + state
        + "\",\"type\":\"tts\"}"@
}

fn text_control(session_id: &str, kind: &str, text: &str) -> (r: String)
    ensures
        r@ == text_message(session_id@, kind@, text@),
{
    let mut out: Vec<char> = Vec::new();
    push_str(&mut out, "{\"session_id\":");
    let q = json_quote(session_id);
    push_str(&mut out, q.as_str());
    push_str(&mut out, ",\"text\":");
    let t = json_quote(text);
    push_str(&mut out, t.as_str());
    push_str(&mut out, ",\"type\":\"");
    push_str(&mut out, kind);
    push_str(&mut out, "\"}");
    assert(out@ =~= text_message(session_id@, kind@, text@));
    string_of(&out)
}

/// The message that reports a committed user transcript.
pub fn transcript_message(session_id: &str, text: &str) -> (r: String)
    ensures
        r@ == text_message(session_id@, "stt"@, text@),
{
    text_control(session_id, "stt", text)
}

/// The message that announces a response segment about to be spoken.
pub fn segment_message(session_id: &str, text: &str) -> (r: String)
    ensures
        r@ == text_message(session_id@, "llm"@, text@),
{
    text_control(session_id, "llm", text)
}

/// The message that announces that speech playback started (`started`) or stopped.
pub fn tts_state_message(session_id: &str, started: bool) -> (r: String)
    ensures
        r@ == tts_message(session_id@, if started { "start"@ } else { "stop"@ }),
{
    let state = if started { "start" } else { "stop" };
    let mut out: Vec<char> = Vec::new();
    push_str(&mut out, "{\"session_id\":");
    let q = json_quote(session_id);
    push_str(&mut out, q.as_str());
    push_str(&mut out, ",\"state\":\"");
    push_str(&mut out, state);
    push_str(&mut out, "\",\"type\":\"tts\"}");
    assert(out@ =~= tts_message(session_id@, state@));
    string_of(&out)
}

/// How the admission of an active turn ended.
#[derive(Clone, Copy, Debug, PartialEq, Eq)]
pub enum TurnAdmission {
    /// The turn limiter refused the turn.
    Refused,
    /// Turn identities ran out: the caller releases the permit it just took and fails the
    /// session closed.
    Exhausted,
    /// The turn runs under this identity in the current generation.
    Granted(TurnId),
}

/// `s` with `t` added unless it is there already.
pub open spec fn with_token(s: Seq<WorkerToken>, t: WorkerToken) -> Seq<WorkerToken> {
    if s.contains(t) {
        s
    } else {
        s.push(t)
    }
}

/// The tokens of `s` other than `t`, in order.
pub open spec fn without(s: Seq<WorkerToken>, t: WorkerToken) -> Seq<WorkerToken>
    decreases s.len(),
{
    if s.len() == 0 {
        s
    } else if s.last() == t {
        without(s.drop_last(), t)
    } else {
        without(s.drop_last(), t).push(s.last())
    }
}

proof fn lemma_push_contains(w: Seq<WorkerToken>, x: WorkerToken, u: WorkerToken)
    ensures
        w.push(x).contains(u) <==> (w.contains(u) || x == u),
{
    if w.push(x).contains(u) {
        let i = choose|i: int| 0 <= i < w.push(x).len() && w.push(x)[i] == u;
        if i < w.len() {
            assert(w[i] == u);
        }
    }
    if w.contains(u) {
        let i = choose|i: int| 0 <= i < w.len() && w[i] == u;
        assert(w.push(x)[i] == u);
    }
    if x == u {
        assert(w.push(x)[w.len() as int] == u);
    }
}

proof fn lemma_without_contains(s: Seq<WorkerToken>, t: WorkerToken, u: WorkerToken)
    ensures
        without(s, t).contains(u) <==> (s.contains(u) && u != t),
    decreases s.len(),
{
    if s.len() > 0 {
        let d = s.drop_last();
        lemma_without_contains(d, t, u);
        assert(s =~= d.push(s.last()));
        lemma_push_contains(d, s.last(), u);
        if s.last() != t {
            lemma_push_contains(without(d, t), s.last(), u);
        }
    }
}

/// Whether `t` is among `tokens`.
pub fn token_listed(tokens: &Vec<WorkerToken>, t: WorkerToken) -> (b: bool)
    ensures
        b == tokens@.contains(t),
{
    let mut i: usize = 0;
    while i < tokens.len()
        invariant
            i <= tokens@.len(),
            forall|j: int| 0 <= j < i ==> tokens@[j] != t,
        decreases tokens.len() - i,
    {
        if tokens[i] == t {
            return true;
        }
        i = i + 1;
    }
    false
}

/// `tokens` without `t`.
fn tokens_without(tokens: &Vec<WorkerToken>, t: WorkerToken) -> (r: Vec<WorkerToken>)
    ensures
        r@ == without(tokens@, t),
{
    let mut out: Vec<WorkerToken> = Vec::new();
    let mut i: usize = 0;
    while i < tokens.len()
        invariant
            i <= tokens@.len(),
            out@ == without(tokens@.take(i as int), t),
        decreases tokens.len() - i,
    {
        assert(tokens@.take(i as int + 1).drop_last() =~= tokens@.take(i as int));
        if tokens[i] != t {
            out.push(tokens[i]);
        }
        i = i + 1;
    }
    assert(tokens@.take(i as int) =~= tokens@);
    out
}

impl SessionFlow {
    /// A session that has not started listening.
    pub fn new(pre_roll_samples: u64) -> (s: Self)
        ensures
            s.phase == SessionPhase::Ready,
            s.generation == 0,
            s.listening_mode is None,
            !s.listen_arm_pending,
            !s.auto_speech_active,
            !s.auto_reset_pending,
            s.asr_stream is None,
            s.asr_cleanup_pending@.len() == 0,
            s.vad_session is None,
            s.vad_cycle is None,
            s.pending_vad_cycle is None,
            s.next_vad_cycle == 1,
            s.pre_roll_samples == pre_roll_samples,
            s.turn is None,
            s.llm_operation is None,
            !s.tts_started,
            !s.has_turn_permit,
            s.next_turn_id == 1,
            s.next_operation_id == 1,
    {
        SessionFlow {
            phase: SessionPhase::Ready,
            generation: 0,
            listening_mode: None,
            listen_arm_pending: false,
            auto_speech_active: false,
            auto_reset_pending: false,
            asr_stream: None,
            asr_cleanup_pending: Vec::new(),
            vad_session: None,
            vad_cycle: None,
            pending_vad_cycle: None,
            next_vad_cycle: 1,
            pre_roll_samples,
            turn: None,
            llm_operation: None,
            tts_started: false,
            has_turn_permit: false,
            next_turn_id: 1,
            next_operation_id: 1,
        }
    }

    /// What tearing down the current work asks of the outside, read from the state before
    /// it; the VAD worker is closed only when `close_vad`.
    pub open spec fn teardown_of(&self, close_vad: bool) -> Teardown {
        Teardown {
            gate_generation: self.generation,
            announce_tts_stop: self.tts_started,
            cancel_turn: self.turn is Some,
            cancel_llm: self.llm_operation,
            cancel_asr: self.asr_stream,
            release_permit: self.has_turn_permit,
            close_vad: if close_vad {
                self.vad_session
            } else {
                None
            },
        }
    }

    /// Interrupts the active turn: speech stops, the LLM operation and the turn are dropped
    /// and the permit is released. The ASR stream and VAD worker stay recorded until their
    /// workers report back.
    fn take_teardown(&mut self, close_vad: bool) -> (t: Teardown)
        ensures
            t == old(self).teardown_of(close_vad),
            *final(self) == (SessionFlow {
                tts_started: false,
                turn: None,
                llm_operation: None,
                has_turn_permit: false,
                ..*old(self)
            }),
    {
        let t = Teardown {
            gate_generation: self.generation,
            announce_tts_stop: self.tts_started,
            cancel_turn: self.turn.is_some(),
            cancel_llm: self.llm_operation,
            cancel_asr: self.asr_stream,
            release_permit: self.has_turn_permit,
            close_vad: if close_vad {
                self.vad_session
            } else {
                None
            },
        };
        self.tts_started = false;
        self.turn = None;
        self.llm_operation = None;
        self.has_turn_permit = false;
        t
    }

    /// Fails the session closed: everything running is torn down, the generation moves on
    /// and the session ends in `Closed`. The caller then queues a close with
    /// `FAIL_CLOSED_CODE` on the urgent lane. A closed session does nothing more.
    pub fn fail_closed(&mut self) -> (r: Option<Teardown>)
        requires
            old(self).phase != SessionPhase::Closed ==> old(self).generation < u64::MAX,
        ensures
            old(self).phase == SessionPhase::Closed ==> r is None && *final(self) == *old(self),
            old(self).phase != SessionPhase::Closed ==> r == Some(old(self).teardown_of(true))
                && *final(self) == (SessionFlow {
                phase: SessionPhase::Closed,
                generation: (old(self).generation + 1) as u64,
                auto_reset_pending: false,
                asr_stream: None,
                tts_started: false,
                turn: None,
                llm_operation: None,
                has_turn_permit: false,
                ..*old(self)
            }),
    {
        if self.phase == SessionPhase::Closed {
            return None;
        }
        let t = self.take_teardown(true);
        self.generation = self.generation + 1;
        self.auto_reset_pending = false;
        self.asr_stream = None;
        self.phase = SessionPhase::Closed;
        Some(t)
    }

    /// Hands out the next VAD capture cycle number; numbers stop growing at the top of `u64`.
    fn allocate_vad_cycle(&mut self) -> (c: u64)
        ensures
            c == old(self).next_vad_cycle,
            *final(self) == (SessionFlow {
                next_vad_cycle: cycle_after(old(self).next_vad_cycle),
                ..*old(self)
            }),
    {
        let c = self.next_vad_cycle;
        self.next_vad_cycle = self.next_vad_cycle.saturating_add(1);
        c
    }

    /// Enters `mode` afresh: the current turn and workers are torn down, the generation moves
    /// on and capture state is cleared. The caller performs the teardown, clears its PCM
    /// retention and VAD segmenter, and opens the worker the mode needs (ASR for manual, VAD
    /// otherwise) under the returned token, then reports through `listening_opened`.
    pub fn replace_listening_mode(&mut self, mode: ListenMode) -> (r: (Teardown, WorkerToken))
        requires
            old(self).generation < u64::MAX,
        ensures
            r.0 == old(self).teardown_of(true),
            r.1 == (WorkerToken {
                generation: (old(self).generation + 1) as u64,
                operation: (old(self).generation + 1) as u64,
            }),
            *final(self) == (SessionFlow {
                generation: (old(self).generation + 1) as u64,
                listening_mode: Some(mode),
                listen_arm_pending: false,
                auto_speech_active: false,
                auto_reset_pending: false,
                vad_cycle: None,
                pending_vad_cycle: None,
                tts_started: false,
                turn: None,
                llm_operation: None,
                has_turn_permit: false,
                ..*old(self)
            }),
    {
        self.listen_arm_pending = false;
        let t = self.take_teardown(true);
        self.generation = self.generation + 1;
        self.auto_speech_active = false;
        self.auto_reset_pending = false;
        self.vad_cycle = None;
        self.pending_vad_cycle = None;
        self.listening_mode = Some(mode);
        (t, WorkerToken { generation: self.generation, operation: self.generation })
    }

    /// Reports whether the worker opened for the current listening mode under `token` came
    /// up. Manual listening records its ASR stream (the caller restarts manual capture) or
    /// falls back to `Ready`; automatic listening records its VAD worker and arms a capture
    /// cycle, or closes the session, returning `VAD_UNAVAILABLE_CODE` for the caller to queue.
    pub fn listening_opened(&mut self, token: WorkerToken, opened: bool) -> (close: Option<u16>)
        requires
            old(self).listening_mode is Some,
        ensures
            old(self).listening_mode == Some(ListenMode::Manual) ==> close is None && *final(self)
                == (if opened {
                SessionFlow { asr_stream: Some(token), phase: SessionPhase::Listening, ..*old(self) }
            } else {
                SessionFlow { phase: SessionPhase::Ready, ..*old(self) }
            }),
            old(self).listening_mode != Some(ListenMode::Manual) && opened ==> close is None
                && *final(self) == (SessionFlow {
                vad_session: Some(token),
                vad_cycle: Some(old(self).next_vad_cycle),
                next_vad_cycle: cycle_after(old(self).next_vad_cycle),
                phase: SessionPhase::Listening,
                ..*old(self)
            }),
            old(self).listening_mode != Some(ListenMode::Manual) && !opened ==> close == Some(
                VAD_UNAVAILABLE_CODE,
            ) && *final(self) == (SessionFlow { phase: SessionPhase::Closed, ..*old(self) }),
    {
        match self.listening_mode {
            Some(ListenMode::Manual) => {
                if opened {
                    self.asr_stream = Some(token);
                    self.phase = SessionPhase::Listening;
                } else {
                    self.phase = SessionPhase::Ready;
                }
                None
            },
            _ => {
                if opened {
                    self.vad_session = Some(token);
                    let c = self.allocate_vad_cycle();
                    self.vad_cycle = Some(c);
                    self.phase = SessionPhase::Listening;
                    None
                } else {
                    self.phase = SessionPhase::Closed;
                    Some(VAD_UNAVAILABLE_CODE)
                }
            },
        }
    }

    /// Starts a fresh capture cycle on the VAD worker: the current cycle is closed and the
    /// next number awaits the worker's reset acknowledgement.
    fn prepare_cycle_reset(&mut self) -> (c: u64)
        ensures
            c == old(self).next_vad_cycle,
            *final(self) == (SessionFlow {
                vad_cycle: None,
                pending_vad_cycle: Some(old(self).next_vad_cycle),
                next_vad_cycle: cycle_after(old(self).next_vad_cycle),
                ..*old(self)
            }),
    {
        let c = self.allocate_vad_cycle();
        self.vad_cycle = None;
        self.pending_vad_cycle = Some(c);
        c
    }

    /// The listening mode keeps a VAD worker between utterances.
    pub open spec fn vad_armed(&self) -> bool {
        (self.listening_mode == Some(ListenMode::Auto) || self.listening_mode == Some(
            ListenMode::Realtime,
        )) && self.vad_session is Some
    }

    /// The completion of a recognition, read from the state before it (with the permit
    /// already released).
    pub open spec fn completion_of(&self) -> Completion {
        if self.vad_armed() {
            if self.auto_reset_pending {
                Completion::Done
            } else {
                Completion::ResetVad { worker: self.vad_session->0, cycle: self.next_vad_cycle }
            }
        } else if self.listen_arm_pending {
            Completion::EnterArmedMode(self.listening_mode->0)
        } else {
            Completion::Done
        }
    }

    /// The state after a recognition completes (permit release included).
    pub open spec fn completed(&self) -> SessionFlow {
        let s = SessionFlow { has_turn_permit: false, ..*self };
        if s.vad_armed() {
            if s.auto_reset_pending {
                s
            } else {
                SessionFlow {
                    vad_cycle: None,
                    pending_vad_cycle: Some(s.next_vad_cycle),
                    next_vad_cycle: cycle_after(s.next_vad_cycle),
                    ..s
                }
            }
        } else if s.listen_arm_pending {
            s
        } else {
            SessionFlow { phase: SessionPhase::Ready, ..s }
        }
    }

    /// Ends a recognition: the permit is released (the caller releases it when told to).
    /// With a VAD worker kept between utterances, its capture cycle is reset unless a reset
    /// is already pending; otherwise a listen start that waited is entered now, or the
    /// session becomes `Ready`.
    pub fn complete_recognition(&mut self) -> (r: (bool, Completion))
        requires
            old(self).listen_arm_pending ==> old(self).listening_mode is Some,
        ensures
            r.0 == old(self).has_turn_permit,
            r.1 == old(self).completion_of(),
            *final(self) == old(self).completed(),
    {
        let release = self.has_turn_permit;
        self.has_turn_permit = false;
        let armed = match self.listening_mode {
            Some(ListenMode::Auto) => self.vad_session.is_some(),
            Some(ListenMode::Realtime) => self.vad_session.is_some(),
            _ => false,
        };
        if armed {
            if self.auto_reset_pending {
                return (release, Completion::Done);
            }
            let worker = self.vad_session.unwrap();
            let cycle = self.prepare_cycle_reset();
            (release, Completion::ResetVad { worker, cycle })
        } else if self.listen_arm_pending {
            let mode = self.listening_mode.unwrap();
            (release, Completion::EnterArmedMode(mode))
        } else {
            self.phase = SessionPhase::Ready;
            (release, Completion::Done)
        }
    }

    /// The VAD worker admitted a capture-cycle reset; the session waits for its
    /// acknowledgement, in `Processing` when `enter_processing`.
    pub fn vad_reset_sent(&mut self, enter_processing: bool)
        ensures
            *final(self) == (SessionFlow {
                auto_reset_pending: true,
                phase: if enter_processing {
                    SessionPhase::Processing
                } else {
                    old(self).phase
                },
                ..*old(self)
            }),
    {
        self.auto_reset_pending = true;
        if enter_processing {
            self.phase = SessionPhase::Processing;
        }
    }

    /// The VAD report of `token` for `cycle` concerns the current worker and capture cycle.
    pub open spec fn vad_current_cycle(&self, token: WorkerToken, cycle: u64) -> bool {
        self.vad_session == Some(token) && self.vad_cycle == Some(cycle)
    }

    /// What a VAD report means, read from the state before it. Only reports of the current
    /// worker count, and those about speech only for the current capture cycle:
    /// - a probability is observed;
    /// - a speech start outside automatic speech and outside a turn begins recognition with
    ///   the next ASR token, fed from `feed_start(sample, pre_roll)`;
    /// - a speech end during automatic speech finishes the open ASR stream, or completes
    ///   recognition when there is none;
    /// - a reset acknowledgement for the pending cycle makes it the current one;
    /// - the worker closing forgets it, and its failure or timeouts fail the session closed;
    /// - everything else is ignored.
    pub open spec fn vad_disposition(&self, kind: VadEventKind, token: WorkerToken, cycle: u64, sample: u64) -> VadDisposition {
        let worker = self.vad_session == Some(token);
        let current = self.vad_current_cycle(token, cycle);
        match kind {
            VadEventKind::Probability => if current {
                VadDisposition::Observe
            } else {
                VadDisposition::Ignore
            },
            VadEventKind::SpeechStart => if current && !self.auto_speech_active && self.turn is None {
                VadDisposition::BeginRecognition {
                    asr: WorkerToken { generation: self.generation, operation: self.generation },
                    feed_from: feed_start(sample, self.pre_roll_samples),
                }
            } else {
                VadDisposition::Ignore
            },
            VadEventKind::SpeechEnd => if current && self.auto_speech_active {
                if self.asr_stream is Some {
                    VadDisposition::FinishRecognition
                } else {
                    VadDisposition::CompleteRecognition
                }
            } else {
                VadDisposition::Ignore
            },
            VadEventKind::ResetDone => if worker && self.pending_vad_cycle == Some(cycle) {
                VadDisposition::CycleReset
            } else {
                VadDisposition::Ignore
            },
            VadEventKind::Closed => if worker {
                VadDisposition::WorkerClosed
            } else {
                VadDisposition::Ignore
            },
            VadEventKind::Failed | VadEventKind::ResetTimedOut | VadEventKind::CleanupTimedOut => if worker {
                VadDisposition::FailClosed
            } else {
                VadDisposition::Ignore
            },
            VadEventKind::Opened => VadDisposition::Ignore,
        }
    }

    /// The state after a VAD report with disposition `d`.
    pub open spec fn after_vad(&self, d: VadDisposition, cycle: u64) -> SessionFlow {
        match d {
            VadDisposition::BeginRecognition { .. } => SessionFlow { auto_speech_active: true, ..*self },
            VadDisposition::FinishRecognition | VadDisposition::CompleteRecognition => SessionFlow {
                auto_speech_active: false,
                phase: SessionPhase::Processing,
                ..*self
            },
            VadDisposition::CycleReset => SessionFlow {
                auto_reset_pending: false,
                vad_cycle: Some(cycle),
                pending_vad_cycle: None,
                phase: if self.llm_operation is None && !self.tts_started {
                    SessionPhase::Listening
                } else {
                    self.phase
                },
                ..*self
            },
            VadDisposition::WorkerClosed => SessionFlow { vad_session: None, ..*self },
            _ => *self,
        }
    }

    /// Takes a VAD worker's report: `cycle` is the capture cycle the report names and
    /// `sample` the first sample of detected speech (each read only by the kinds that carry
    /// them). Reports of another worker or cycle change nothing; a speech start while a turn
    /// runs is not an interruption and is ignored.
    pub fn on_vad_event(&mut self, kind: VadEventKind, token: WorkerToken, cycle: u64, sample: u64) -> (d: VadDisposition)
        ensures
            d == old(self).vad_disposition(kind, token, cycle, sample),
            *final(self) == old(self).after_vad(d, cycle),
    {
        let worker = match self.vad_session {
            Some(w) => w == token,
            None => false,
        };
        let current = worker && match self.vad_cycle {
            Some(c) => c == cycle,
            None => false,
        };
        match kind {
            VadEventKind::Probability => if current {
                VadDisposition::Observe
            } else {
                VadDisposition::Ignore
            },
            VadEventKind::SpeechStart => {
                if current && !self.auto_speech_active && self.turn.is_none() {
                    self.auto_speech_active = true;
                    VadDisposition::BeginRecognition {
                        asr: WorkerToken { generation: self.generation, operation: self.generation },
                        feed_from: sample.saturating_sub(self.pre_roll_samples),
                    }
                } else {
                    VadDisposition::Ignore
                }
            },
            VadEventKind::SpeechEnd => {
                if current && self.auto_speech_active {
                    self.auto_speech_active = false;
                    self.phase = SessionPhase::Processing;
                    if self.asr_stream.is_some() {
                        VadDisposition::FinishRecognition
                    } else {
                        VadDisposition::CompleteRecognition
                    }
                } else {
                    VadDisposition::Ignore
                }
            },
            VadEventKind::ResetDone => {
                let pending = match self.pending_vad_cycle {
                    Some(p) => p == cycle,
                    None => false,
                };
                if worker && pending {
                    self.auto_reset_pending = false;
                    self.vad_cycle = Some(cycle);
                    self.pending_vad_cycle = None;
                    if self.llm_operation.is_none() && !self.tts_started {
                        self.phase = SessionPhase::Listening;
                    }
                    VadDisposition::CycleReset
                } else {
                    VadDisposition::Ignore
                }
            },
            VadEventKind::Closed => {
                if worker {
                    self.vad_session = None;
                    VadDisposition::WorkerClosed
                } else {
                    VadDisposition::Ignore
                }
            },
            VadEventKind::Failed | VadEventKind::ResetTimedOut | VadEventKind::CleanupTimedOut => {
                if worker {
                    VadDisposition::FailClosed
                } else {
                    VadDisposition::Ignore
                }
            },
            VadEventKind::Opened => VadDisposition::Ignore,
        }
    }

    /// The ASR stream opened for a speech start is now the session's stream.
    pub fn asr_stream_opened(&mut self, token: WorkerToken)
        ensures
            *final(self) == (SessionFlow { asr_stream: Some(token), ..*old(self) }),
    {
        self.asr_stream = Some(token);
    }

    /// The ASR stream refused pushed audio: recognition is void. The caller sends `Cancel`
    /// to the returned stream and waits for its cleanup; no `Finish` follows.
    pub fn asr_push_refused(&mut self) -> (cancel: Option<WorkerToken>)
        ensures
            cancel == old(self).asr_stream,
            *final(self) == (SessionFlow { asr_stream: None, ..*old(self) }),
    {
        let cancel = self.asr_stream;
        self.asr_stream = None;
        cancel
    }

    /// Finishes a recognition once the application-wide turn limiter has answered
    /// (`admitted`): a refused turn cancels the stream and completes the recognition; an
    /// admitted one holds the permit and asks the stream for its transcript.
    pub fn finish_recognition(&mut self, admitted: bool) -> (f: Finish)
        requires
            old(self).listen_arm_pending ==> old(self).listening_mode is Some,
        ensures
            !admitted ==> f == (Finish::Denied {
                cancel_asr: old(self).asr_stream,
                release_permit: old(self).has_turn_permit,
                completion: old(self).completion_of(),
            }) && *final(self) == old(self).completed(),
            admitted && old(self).asr_stream is None ==> f == Finish::NoStream && *final(self)
                == (SessionFlow { has_turn_permit: false, ..*old(self) }),
            admitted && old(self).asr_stream is Some ==> f == Finish::SendFinish(
                old(self).asr_stream->0,
            ) && *final(self) == (SessionFlow { has_turn_permit: true, ..*old(self) }),
    {
        if !admitted {
            let cancel = self.asr_stream;
            let (release, completion) = self.complete_recognition();
            return Finish::Denied { cancel_asr: cancel, release_permit: release, completion };
        }
        self.has_turn_permit = true;
        match self.asr_stream {
            None => {
                self.has_turn_permit = false;
                Finish::NoStream
            },
            Some(t) => Finish::SendFinish(t),
        }
    }

    /// The stream refused `Finish`: the caller sends it `Cancel` and releases the permit
    /// when told to; the session returns to `Ready`.
    pub fn finish_refused(&mut self) -> (r: (Option<WorkerToken>, bool))
        ensures
            r == (old(self).asr_stream, old(self).has_turn_permit),
            *final(self) == (SessionFlow {
                has_turn_permit: false,
                phase: SessionPhase::Ready,
                ..*old(self)
            }),
    {
        let r = (self.asr_stream, self.has_turn_permit);
        self.has_turn_permit = false;
        self.phase = SessionPhase::Ready;
        r
    }

    /// Where a listen start for `mode` goes, read from the state before it.
    pub open spec fn start_route(&self, mode: ListenMode) -> StartRoute {
        if (mode == ListenMode::Auto || mode == ListenMode::Realtime) && self.listening_mode == Some(
            mode,
        ) && self.vad_session is Some {
            StartRoute::RestartCycle
        } else if self.turn is Some || self.phase == SessionPhase::Processing {
            StartRoute::Armed
        } else {
            StartRoute::Replace
        }
    }

    /// Takes a listen start. Changing mode never interrupts a running turn: during a turn
    /// the start is only recorded.
    pub fn start_listening(&mut self, mode: ListenMode) -> (r: StartRoute)
        ensures
            r == old(self).start_route(mode),
            r == StartRoute::Armed ==> *final(self) == (SessionFlow {
                listening_mode: Some(mode),
                listen_arm_pending: true,
                ..*old(self)
            }),
            r != StartRoute::Armed ==> *final(self) == *old(self),
    {
        let automatic = match mode {
            ListenMode::Manual => false,
            _ => true,
        };
        let same = match (self.listening_mode, mode) {
            (Some(ListenMode::Auto), ListenMode::Auto) => true,
            (Some(ListenMode::Realtime), ListenMode::Realtime) => true,
            (Some(ListenMode::Manual), ListenMode::Manual) => true,
            _ => false,
        };
        if automatic && same && self.vad_session.is_some() {
            StartRoute::RestartCycle
        } else if self.turn.is_some() || self.phase == SessionPhase::Processing {
            self.listening_mode = Some(mode);
            self.listen_arm_pending = true;
            StartRoute::Armed
        } else {
            StartRoute::Replace
        }
    }

    /// Restarts capture on the running VAD worker without replacing it and without
    /// interrupting a response: a running ASR stream is cancelled first.
    pub fn begin_cycle_restart(&mut self) -> (r: CycleRestart)
        ensures
            old(self).vad_session is None || old(self).auto_reset_pending ==> r
                == CycleRestart::Nothing && *final(self) == *old(self),
            old(self).vad_session is Some && !old(self).auto_reset_pending && old(self).asr_stream is Some
                ==> r == CycleRestart::CancelAsrFirst(old(self).asr_stream->0) && *final(self) == (
            SessionFlow { asr_stream: None, ..*old(self) }),
            old(self).vad_session is Some && !old(self).auto_reset_pending && old(self).asr_stream is None
                ==> r == (CycleRestart::ResetVad {
                worker: old(self).vad_session->0,
                cycle: old(self).next_vad_cycle,
            }) && *final(self) == (SessionFlow {
                auto_speech_active: false,
                vad_cycle: None,
                pending_vad_cycle: Some(old(self).next_vad_cycle),
                next_vad_cycle: cycle_after(old(self).next_vad_cycle),
                ..*old(self)
            }),
    {
        let worker = match self.vad_session {
            Some(w) => w,
            None => return CycleRestart::Nothing,
        };
        if self.auto_reset_pending {
            return CycleRestart::Nothing;
        }
        match self.asr_stream {
            Some(t) => {
                self.asr_stream = None;
                CycleRestart::CancelAsrFirst(t)
            },
            None => {
                self.auto_speech_active = false;
                let cycle = self.prepare_cycle_reset();
                CycleRestart::ResetVad { worker, cycle }
            },
        }
    }

    /// The stream cancelled for a restart admitted its `Cancel`: it is awaited for cleanup,
    /// the permit is released (when the first result says so), and the capture cycle is reset.
    pub fn restart_after_cancel(&mut self, cancelled: WorkerToken) -> (r: (bool, CycleRestart))
        ensures
            r.0 == old(self).has_turn_permit,
            old(self).vad_session is None ==> r.1 == CycleRestart::Nothing && *final(self) == (
            SessionFlow {
                asr_cleanup_pending: final(self).asr_cleanup_pending,
                has_turn_permit: false,
                ..*old(self)
            }),
            old(self).vad_session is Some ==> r.1 == (CycleRestart::ResetVad {
                worker: old(self).vad_session->0,
                cycle: old(self).next_vad_cycle,
            }) && *final(self) == (SessionFlow {
                asr_cleanup_pending: final(self).asr_cleanup_pending,
                has_turn_permit: false,
                auto_speech_active: false,
                vad_cycle: None,
                pending_vad_cycle: Some(old(self).next_vad_cycle),
                next_vad_cycle: cycle_after(old(self).next_vad_cycle),
                ..*old(self)
            }),
            final(self).asr_cleanup_pending@ == with_token(old(self).asr_cleanup_pending@, cancelled),
    {
        self.note_cleanup(cancelled);
        let release = self.has_turn_permit;
        self.has_turn_permit = false;
        match self.vad_session {
            Some(worker) => {
                self.auto_speech_active = false;
                let cycle = self.prepare_cycle_reset();
                (release, CycleRestart::ResetVad { worker, cycle })
            },
            None => (release, CycleRestart::Nothing),
        }
    }

    /// Records a cancelled stream whose final report is awaited.
    fn note_cleanup(&mut self, t: WorkerToken)
        ensures
            *final(self) == (SessionFlow {
                asr_cleanup_pending: final(self).asr_cleanup_pending,
                ..*old(self)
            }),
            final(self).asr_cleanup_pending@ == with_token(old(self).asr_cleanup_pending@, t),
    {
        if !token_listed(&self.asr_cleanup_pending, t) {
            self.asr_cleanup_pending.push(t);
        }
    }

    /// Aborts the current turn at the client's request. Automatic listening keeps its VAD
    /// worker and resets its capture cycle; otherwise listening ends and the session is
    /// `Ready`.
    pub fn abort_current_turn(&mut self) -> (r: AbortRoute)
        requires
            old(self).phase != SessionPhase::Closed ==> old(self).generation < u64::MAX,
        ensures
            old(self).phase == SessionPhase::Closed ==> r == AbortRoute::Closed && *final(self)
                == *old(self),
            old(self).phase != SessionPhase::Closed && !old(self).vad_armed() ==> r
                == AbortRoute::Stopped(old(self).teardown_of(true)) && *final(self) == (SessionFlow {
                generation: (old(self).generation + 1) as u64,
                listening_mode: None,
                listen_arm_pending: false,
                auto_reset_pending: false,
                phase: SessionPhase::Ready,
                tts_started: false,
                turn: None,
                llm_operation: None,
                has_turn_permit: false,
                ..*old(self)
            }),
            old(self).phase != SessionPhase::Closed && old(self).vad_armed()
                && old(self).auto_reset_pending ==> r == AbortRoute::AwaitingReset(
                old(self).teardown_of(false),
            ) && *final(self) == (SessionFlow {
                generation: (old(self).generation + 1) as u64,
                auto_speech_active: false,
                tts_started: false,
                turn: None,
                llm_operation: None,
                has_turn_permit: false,
                ..*old(self)
            }),
            old(self).phase != SessionPhase::Closed && old(self).vad_armed()
                && !old(self).auto_reset_pending ==> r == (AbortRoute::ResetVad {
                teardown: old(self).teardown_of(false),
                worker: old(self).vad_session->0,
                cycle: old(self).next_vad_cycle,
            }) && *final(self) == (SessionFlow {
                generation: (old(self).generation + 1) as u64,
                auto_speech_active: false,
                vad_cycle: None,
                pending_vad_cycle: Some(old(self).next_vad_cycle),
                next_vad_cycle: cycle_after(old(self).next_vad_cycle),
                tts_started: false,
                turn: None,
                llm_operation: None,
                has_turn_permit: false,
                ..*old(self)
            }),
    {
        if self.phase == SessionPhase::Closed {
            return AbortRoute::Closed;
        }
        let armed = match self.listening_mode {
            Some(ListenMode::Auto) => self.vad_session.is_some(),
            Some(ListenMode::Realtime) => self.vad_session.is_some(),
            _ => false,
        };
        let t = self.take_teardown(!armed);
        self.generation = self.generation + 1;
        if armed {
            self.auto_speech_active = false;
            if self.auto_reset_pending {
                return AbortRoute::AwaitingReset(t);
            }
            let worker = self.vad_session.unwrap();
            let cycle = self.prepare_cycle_reset();
            return AbortRoute::ResetVad { teardown: t, worker, cycle };
        }
        self.listening_mode = None;
        self.listen_arm_pending = false;
        self.auto_reset_pending = false;
        self.phase = SessionPhase::Ready;
        AbortRoute::Stopped(t)
    }

    /// A detect command is taken while listening, or while an automatic cycle re-arms.
    pub open spec fn detect_admissible_spec(&self) -> bool {
        self.phase == SessionPhase::Listening || (self.listening_mode == Some(ListenMode::Auto)
            && self.auto_reset_pending && self.phase == SessionPhase::Processing)
    }

    /// Whether a detect command is taken now; its text is then normalized, and manual
    /// capture aborted, before `detect_route`.
    pub fn detect_admissible(&self) -> (b: bool)
        ensures
            b == self.detect_admissible_spec(),
    {
        let auto = match self.listening_mode {
            Some(ListenMode::Auto) => true,
            _ => false,
        };
        self.phase == SessionPhase::Listening || (auto && self.auto_reset_pending && self.phase
            == SessionPhase::Processing)
    }

    /// Routes typed text by listening mode: manual listening gives up its ASR stream to the
    /// text; automatic listening ends any speech in progress and gives up its stream if one
    /// runs; realtime listening takes no typed text.
    pub fn detect_route(&mut self) -> (r: DetectRoute)
        ensures
            old(self).listening_mode == Some(ListenMode::Manual) ==> (match old(self).asr_stream {
                Some(t) => r == DetectRoute::CancelAsr(t) && *final(self) == (SessionFlow {
                    asr_stream: None,
                    ..*old(self)
                }),
                None => r == DetectRoute::FailClose && *final(self) == *old(self),
            }),
            old(self).listening_mode == Some(ListenMode::Auto) ==> (match old(self).asr_stream {
                Some(t) => r == DetectRoute::CancelAsr(t) && *final(self) == (SessionFlow {
                    asr_stream: None,
                    auto_speech_active: false,
                    ..*old(self)
                }),
                None => r == DetectRoute::Admit && *final(self) == (SessionFlow {
                    auto_speech_active: false,
                    ..*old(self)
                }),
            }),
            old(self).listening_mode != Some(ListenMode::Manual) && old(self).listening_mode
                != Some(ListenMode::Auto) ==> r == DetectRoute::Refuse && *final(self) == *old(self),
    {
        match self.listening_mode {
            Some(ListenMode::Manual) => match self.asr_stream {
                Some(t) => {
                    self.asr_stream = None;
                    DetectRoute::CancelAsr(t)
                },
                None => DetectRoute::FailClose,
            },
            Some(ListenMode::Auto) => {
                self.auto_speech_active = false;
                match self.asr_stream {
                    Some(t) => {
                        self.asr_stream = None;
                        DetectRoute::CancelAsr(t)
                    },
                    None => DetectRoute::Admit,
                }
            },
            _ => DetectRoute::Refuse,
        }
    }

    /// The stream given up to typed text admitted its `Cancel`; it is awaited for cleanup.
    pub fn asr_detached(&mut self, cancelled: WorkerToken)
        ensures
            *final(self) == (SessionFlow {
                asr_cleanup_pending: final(self).asr_cleanup_pending,
                ..*old(self)
            }),
            final(self).asr_cleanup_pending@ == with_token(old(self).asr_cleanup_pending@, cancelled),
    {
        self.note_cleanup(cancelled);
    }

    /// The turn limiter's answer for typed text: refused, the session is `Ready`; admitted,
    /// it holds the permit and is `Processing` while the text is committed and answered.
    pub fn detect_admission(&mut self, admitted: bool)
        ensures
            *final(self) == (if admitted {
                SessionFlow { has_turn_permit: true, phase: SessionPhase::Processing, ..*old(self) }
            } else {
                SessionFlow { phase: SessionPhase::Ready, ..*old(self) }
            }),
    {
        if admitted {
            self.has_turn_permit = true;
            self.phase = SessionPhase::Processing;
        } else {
            self.phase = SessionPhase::Ready;
        }
    }

    /// A committed user utterance starts a response: the turn begins in the current
    /// generation and the caller starts the LLM operation under the returned token, then
    /// reports `llm_started` or `llm_start_refused`.
    pub fn begin_speech_delivery(&mut self) -> (t: WorkerToken)
        ensures
            t == (WorkerToken { generation: old(self).generation, operation: old(self).generation }),
            *final(self) == (SessionFlow { turn: Some(old(self).generation), ..*old(self) }),
    {
        self.turn = Some(self.generation);
        WorkerToken { generation: self.generation, operation: self.generation }
    }

    /// The LLM operation started under `token`.
    pub fn llm_started(&mut self, token: WorkerToken)
        ensures
            *final(self) == (SessionFlow { llm_operation: Some(token), ..*old(self) }),
    {
        self.llm_operation = Some(token);
    }

    /// The LLM operation could not start: the turn is dropped and the recognition completes.
    pub fn llm_start_refused(&mut self) -> (r: (bool, Completion))
        requires
            old(self).listen_arm_pending ==> old(self).listening_mode is Some,
        ensures
            r.0 == old(self).has_turn_permit,
            r.1 == (SessionFlow { turn: None, ..*old(self) }).completion_of(),
            *final(self) == (SessionFlow { turn: None, ..*old(self) }).completed(),
    {
        self.turn = None;
        self.complete_recognition()
    }

    /// The LLM report of `token` concerns the current operation of the current turn.
    pub open spec fn llm_current(&self, token: WorkerToken) -> bool {
        self.llm_operation == Some(token) && self.turn == Some(token.generation)
            && token.generation == self.generation
    }

    /// Takes an LLM operation's report; reports of abandoned operations change nothing.
    pub fn on_llm_event(&mut self, kind: LlmEventKind, token: WorkerToken) -> (d: LlmDisposition)
        ensures
            !old(self).llm_current(token) ==> d == LlmDisposition::Ignore && *final(self) == *old(self),
            old(self).llm_current(token) && kind == LlmEventKind::TextDelta ==> d
                == LlmDisposition::Speak && *final(self) == *old(self),
            old(self).llm_current(token) && kind == LlmEventKind::Finished ==> d
                == LlmDisposition::Finish && *final(self) == (SessionFlow {
                llm_operation: None,
                ..*old(self)
            }),
            old(self).llm_current(token) && kind != LlmEventKind::TextDelta && kind
                != LlmEventKind::Finished ==> d == LlmDisposition::Abandon && *final(self) == (
            SessionFlow { llm_operation: None, ..*old(self) }),
    {
        let op = match self.llm_operation {
            Some(o) => o == token,
            None => false,
        };
        let turn = match self.turn {
            Some(g) => g == token.generation && g == self.generation,
            None => false,
        };
        if !(op && turn) {
            return LlmDisposition::Ignore;
        }
        match kind {
            LlmEventKind::TextDelta => LlmDisposition::Speak,
            LlmEventKind::Finished => {
                self.llm_operation = None;
                LlmDisposition::Finish
            },
            _ => {
                self.llm_operation = None;
                LlmDisposition::Abandon
            },
        }
    }

    /// Abandons the response's delivery: the LLM operation and speech output are cancelled
    /// and the recognition completes.
    pub fn fail_speech_delivery(&mut self) -> (f: DeliveryFailure)
        requires
            old(self).listen_arm_pending ==> old(self).listening_mode is Some,
        ensures
            ({
                let s = SessionFlow {
                    turn: None,
                    llm_operation: None,
                    tts_started: false,
                    ..*old(self)
                };
                &&& f == (DeliveryFailure {
                    cancel_turn: old(self).turn is Some,
                    cancel_llm: old(self).llm_operation,
                    gate_generation: old(self).generation,
                    announce_tts_stop: old(self).tts_started,
                    release_permit: old(self).has_turn_permit,
                    completion: s.completion_of(),
                })
                &&& *final(self) == s.completed()
            }),
    {
        let cancel_turn = self.turn.is_some();
        let cancel_llm = self.llm_operation;
        let announce = self.tts_started;
        self.turn = None;
        self.llm_operation = None;
        self.tts_started = false;
        let (release, completion) = self.complete_recognition();
        DeliveryFailure {
            cancel_turn,
            cancel_llm,
            gate_generation: self.generation,
            announce_tts_stop: announce,
            release_permit: release,
            completion,
        }
    }

    /// Speech output started playing the response.
    pub fn speech_started(&mut self)
        ensures
            *final(self) == (SessionFlow { tts_started: true, ..*old(self) }),
    {
        self.tts_started = true;
    }

    /// Speech output played the whole response: the caller queues a `tts` stop when the
    /// first result says so and commits the response to the dialogue history; the turn ends
    /// and the recognition completes.
    pub fn speech_drained(&mut self) -> (r: (bool, bool, Completion))
        requires
            old(self).listen_arm_pending ==> old(self).listening_mode is Some,
        ensures
            ({
                let s = SessionFlow { tts_started: false, turn: None, ..*old(self) };
                &&& r.0 == old(self).tts_started
                &&& r.1 == old(self).has_turn_permit
                &&& r.2 == s.completion_of()
                &&& *final(self) == s.completed()
            }),
    {
        let stop = self.tts_started;
        self.tts_started = false;
        self.turn = None;
        let (release, completion) = self.complete_recognition();
        (stop, release, completion)
    }

    /// Where an uplink audio frame goes, read from the state before it.
    pub open spec fn binary_route_spec(&self) -> BinaryRoute {
        if self.phase != SessionPhase::Listening {
            BinaryRoute::Drop
        } else if self.listening_mode == Some(ListenMode::Auto) {
            if self.auto_reset_pending || self.vad_session is None {
                BinaryRoute::Drop
            } else {
                BinaryRoute::FeedVad { worker: self.vad_session->0, feed_asr: self.auto_speech_active }
            }
        } else {
            BinaryRoute::FeedManual
        }
    }

    /// Routes an uplink audio frame (once it decoded): only a listening session takes audio;
    /// automatic listening feeds its VAD worker unless a cycle reset is awaited.
    pub fn binary_route(&self) -> (r: BinaryRoute)
        ensures
            r == self.binary_route_spec(),
    {
        if self.phase != SessionPhase::Listening {
            return BinaryRoute::Drop;
        }
        match self.listening_mode {
            Some(ListenMode::Auto) => {
                if self.auto_reset_pending {
                    return BinaryRoute::Drop;
                }
                match self.vad_session {
                    Some(worker) => BinaryRoute::FeedVad { worker, feed_asr: self.auto_speech_active },
                    None => BinaryRoute::Drop,
                }
            },
            _ => BinaryRoute::FeedManual,
        }
    }

    /// Manual listening has no ASR stream for a frame: the session is `Ready`.
    pub fn manual_stream_missing(&mut self)
        ensures
            *final(self) == (SessionFlow { phase: SessionPhase::Ready, ..*old(self) }),
    {
        self.phase = SessionPhase::Ready;
    }

    /// The ASR stream refused a manual frame: the caller sends `Cancel` to the returned
    /// stream and aborts manual capture; the session is `Ready`.
    pub fn manual_push_refused(&mut self) -> (cancel: Option<WorkerToken>)
        ensures
            cancel == old(self).asr_stream,
            *final(self) == (SessionFlow {
                asr_stream: None,
                phase: SessionPhase::Ready,
                ..*old(self)
            }),
    {
        let cancel = self.asr_stream;
        self.asr_stream = None;
        self.phase = SessionPhase::Ready;
        cancel
    }

    /// A listen stop applies to manual listening only.
    pub fn stop_applies(&self) -> (b: bool)
        ensures
            b == (self.listening_mode == Some(ListenMode::Manual) && self.phase
                == SessionPhase::Listening),
    {
        let manual = match self.listening_mode {
            Some(ListenMode::Manual) => true,
            _ => false,
        };
        manual && self.phase == SessionPhase::Listening
    }

    /// Manual capture stopped; `utterance` says whether it held one. With an utterance the
    /// session is `Processing` and the caller finishes recognition (`finish_recognition`
    /// after asking the turn limiter); without, the caller sends `Cancel` to the returned
    /// stream and the session is `Ready`.
    pub fn manual_stopped(&mut self, utterance: bool) -> (cancel: Option<WorkerToken>)
        ensures
            utterance ==> cancel is None && *final(self) == (SessionFlow {
                phase: SessionPhase::Processing,
                ..*old(self)
            }),
            !utterance ==> cancel == old(self).asr_stream && *final(self) == (SessionFlow {
                phase: SessionPhase::Ready,
                ..*old(self)
            }),
    {
        if utterance {
            self.phase = SessionPhase::Processing;
            None
        } else {
            self.phase = SessionPhase::Ready;
            self.asr_stream
        }
    }

    /// Admits an active turn once the turn limiter has answered (`admitted`): the turn takes
    /// the next identity and belongs to the current generation.
    pub fn begin_active_turn(&mut self, admitted: bool) -> (r: TurnAdmission)
        ensures
            !admitted ==> r == TurnAdmission::Refused && *final(self) == *old(self),
            admitted && (old(self).next_turn_id == 0 || old(self).next_turn_id == u64::MAX) ==> r
                == TurnAdmission::Exhausted && *final(self) == *old(self),
            admitted && 0 < old(self).next_turn_id < u64::MAX ==> (r matches TurnAdmission::Granted(t)
                && t.spec_get() == old(self).next_turn_id) && *final(self) == (SessionFlow {
                next_turn_id: (old(self).next_turn_id + 1) as u64,
                turn: Some(old(self).generation),
                ..*old(self)
            }),
    {
        if !admitted {
            return TurnAdmission::Refused;
        }
        let raw = self.next_turn_id;
        let next = match raw.checked_add(1) {
            Some(n) => n,
            None => return TurnAdmission::Exhausted,
        };
        let id = match TurnId::new(raw) {
            Some(t) => t,
            None => return TurnAdmission::Exhausted,
        };
        self.next_turn_id = next;
        self.turn = Some(self.generation);
        TurnAdmission::Granted(id)
    }

    /// Hands out the next worker operation of the current generation; operation numbers run
    /// out at the top of `u64`.
    pub fn next_worker_identity(&mut self) -> (r: Option<WorkerToken>)
        ensures
            old(self).next_operation_id == u64::MAX ==> r is None && *final(self) == *old(self),
            old(self).next_operation_id < u64::MAX ==> r == Some(
                WorkerToken { generation: old(self).generation, operation: old(self).next_operation_id },
            ) && *final(self) == (SessionFlow {
                next_operation_id: (old(self).next_operation_id + 1) as u64,
                ..*old(self)
            }),
    {
        let operation = self.next_operation_id;
        match operation.checked_add(1) {
            Some(n) => {
                self.next_operation_id = n;
                Some(WorkerToken { generation: self.generation, operation })
            },
            None => None,
        }
    }

    /// Moves to the next cancellation epoch. The generation is never reused: at the top of
    /// `u64` the session closes instead, and the caller queues a close with
    /// `FAIL_CLOSED_CODE` on the urgent lane.
    pub fn advance_generation(&mut self) -> (moved: bool)
        ensures
            old(self).generation < u64::MAX ==> moved && *final(self) == (SessionFlow {
                generation: (old(self).generation + 1) as u64,
                ..*old(self)
            }),
            old(self).generation == u64::MAX ==> !moved && *final(self) == (SessionFlow {
                phase: SessionPhase::Closed,
                ..*old(self)
            }),
    {
        match self.generation.checked_add(1) {
            Some(n) => {
                self.generation = n;
                true
            },
            None => {
                self.phase = SessionPhase::Closed;
                false
            },
        }
    }

    /// The ASR report of `token` concerns the session's current stream.
    pub open spec fn asr_current(&self, token: WorkerToken) -> bool {
        self.asr_stream == Some(token) && token.generation == self.generation
    }

    /// What an ASR report means, given whether its stream awaits cleanup and whether it is
    /// the current stream.
    pub open spec fn asr_disposition(kind: AsrEventKind, cleanup: bool, current: bool) -> AsrDisposition {
        if cleanup {
            match kind {
                AsrEventKind::Final | AsrEventKind::Failed | AsrEventKind::Cancelled => AsrDisposition::CleanupFinished,
                AsrEventKind::FinalTimedOut | AsrEventKind::CleanupTimedOut => AsrDisposition::FailClosed,
                AsrEventKind::Opened => AsrDisposition::Ignore,
            }
        } else if !current {
            AsrDisposition::Ignore
        } else {
            match kind {
                AsrEventKind::Final => AsrDisposition::CommitFinal,
                AsrEventKind::Failed => AsrDisposition::RecognitionFailed,
                AsrEventKind::FinalTimedOut | AsrEventKind::CleanupTimedOut => AsrDisposition::FailClosed,
                AsrEventKind::Cancelled => AsrDisposition::StreamCancelled,
                AsrEventKind::Opened => AsrDisposition::Ignore,
            }
        }
    }

    /// Takes an ASR worker's report. A finished cleanup leaves the awaited set; the current
    /// stream ends on its transcript, its failure and its cancellation.
    pub fn on_asr_event(&mut self, kind: AsrEventKind, token: WorkerToken) -> (d: AsrDisposition)
        ensures
            d == Self::asr_disposition(
                kind,
                old(self).asr_cleanup_pending@.contains(token),
                old(self).asr_current(token),
            ),
            d == AsrDisposition::CleanupFinished ==> final(self).asr_cleanup_pending@ == without(
                old(self).asr_cleanup_pending@,
                token,
            ),
            d != AsrDisposition::CleanupFinished ==> final(self).asr_cleanup_pending@ == old(
                self,
            ).asr_cleanup_pending@,
            (d == AsrDisposition::CommitFinal || d == AsrDisposition::RecognitionFailed || d
                == AsrDisposition::StreamCancelled) ==> final(self).asr_stream is None,
            !(d == AsrDisposition::CommitFinal || d == AsrDisposition::RecognitionFailed || d
                == AsrDisposition::StreamCancelled) ==> final(self).asr_stream == old(self).asr_stream,
            final(self).phase == old(self).phase,
            final(self).generation == old(self).generation,
            final(self).listening_mode == old(self).listening_mode,
            final(self).listen_arm_pending == old(self).listen_arm_pending,
            final(self).auto_speech_active == old(self).auto_speech_active,
            final(self).auto_reset_pending == old(self).auto_reset_pending,
            final(self).vad_session == old(self).vad_session,
            final(self).vad_cycle == old(self).vad_cycle,
            final(self).pending_vad_cycle == old(self).pending_vad_cycle,
            final(self).next_vad_cycle == old(self).next_vad_cycle,
            final(self).pre_roll_samples == old(self).pre_roll_samples,
            final(self).turn == old(self).turn,
            final(self).llm_operation == old(self).llm_operation,
            final(self).tts_started == old(self).tts_started,
            final(self).has_turn_permit == old(self).has_turn_permit,
    {
        if token_listed(&self.asr_cleanup_pending, token) {
            match kind {
                AsrEventKind::Final | AsrEventKind::Failed | AsrEventKind::Cancelled => {
                    self.asr_cleanup_pending = tokens_without(&self.asr_cleanup_pending, token);
                    AsrDisposition::CleanupFinished
                },
                AsrEventKind::FinalTimedOut | AsrEventKind::CleanupTimedOut => AsrDisposition::FailClosed,
                AsrEventKind::Opened => AsrDisposition::Ignore,
            }
        } else {
            let current = match self.asr_stream {
                Some(s) => s == token && token.generation == self.generation,
                None => false,
            };
            if !current {
                return AsrDisposition::Ignore;
            }
            match kind {
                AsrEventKind::Final => {
                    self.asr_stream = None;
                    AsrDisposition::CommitFinal
                },
                AsrEventKind::Failed => {
                    self.asr_stream = None;
                    AsrDisposition::RecognitionFailed
                },
                AsrEventKind::FinalTimedOut | AsrEventKind::CleanupTimedOut => AsrDisposition::FailClosed,
                AsrEventKind::Cancelled => {
                    self.asr_stream = None;
                    AsrDisposition::StreamCancelled
                },
                AsrEventKind::Opened => AsrDisposition::Ignore,
            }
        }
    }
}

/// Once the generation has moved past an operation's, no report of that operation counts:
/// an ASR report that is not an awaited cleanup is ignored, and an LLM report is not current.
pub proof fn law_reports_of_earlier_generations_are_stale(
    s: SessionFlow,
    token: WorkerToken,
    kind: AsrEventKind,
)
    requires
        token.generation < s.generation,
    ensures
        !s.asr_current(token),
        !s.llm_current(token),
        SessionFlow::asr_disposition(kind, false, s.asr_current(token)) == AsrDisposition::Ignore,
{
}

/// A stream given up for cleanup never delivers a transcript: while it is awaited, none of
/// its reports is committed, and once its cleanup is reported it is no longer awaited.
pub proof fn law_cancelled_stream_never_commits(s: Seq<WorkerToken>, t: WorkerToken, kind: AsrEventKind, current: bool)
    ensures
        with_token(s, t).contains(t),
        SessionFlow::asr_disposition(kind, with_token(s, t).contains(t), current) != AsrDisposition::CommitFinal,
        !without(s, t).contains(t),
{
    lemma_push_contains(s, t, t);
    lemma_without_contains(s, t, t);
}

/// Capture never interrupts a running turn: a speech start is ignored and a listen start is
/// only recorded for later.
pub proof fn law_capture_never_interrupts_a_turn(s: SessionFlow, token: WorkerToken, cycle: u64, sample: u64, mode: ListenMode)
    requires
        s.turn is Some,
    ensures
        s.vad_disposition(VadEventKind::SpeechStart, token, cycle, sample) == VadDisposition::Ignore,
        s.after_vad(VadDisposition::Ignore, cycle) == s,
        s.start_route(mode) != StartRoute::Replace,
{
}

/// While a capture-cycle reset is awaited no speech report counts, whatever worker and cycle
/// it names; the acknowledgement of the awaited cycle arms exactly that cycle.
pub proof fn law_reset_closes_the_cycle(s: SessionFlow, token: WorkerToken, cycle: u64, sample: u64)
    requires
        s.vad_cycle is None,
    ensures
        s.vad_disposition(VadEventKind::Probability, token, cycle, sample) == VadDisposition::Ignore,
        s.vad_disposition(VadEventKind::SpeechStart, token, cycle, sample) == VadDisposition::Ignore,
        s.vad_disposition(VadEventKind::SpeechEnd, token, cycle, sample) == VadDisposition::Ignore,
        s.vad_session == Some(token) && s.pending_vad_cycle == Some(cycle) ==> s.vad_disposition(
            VadEventKind::ResetDone,
            token,
            cycle,
            sample,
        ) == VadDisposition::CycleReset && s.after_vad(VadDisposition::CycleReset, cycle).vad_cycle
            == Some(cycle) && s.after_vad(VadDisposition::CycleReset, cycle).pending_vad_cycle is None,
{
}

/// Capture cycle numbers grow with every reset until the top of `u64`, so a reset never
/// re-arms a cycle handed out before it.
pub proof fn law_cycle_numbers_grow(n: u64)
    requires
        n < u64::MAX,
    ensures
        cycle_after(n) > n,
{
}

/// Reports of a worker other than the session's VAD worker change nothing.
pub proof fn law_foreign_vad_reports_are_ignored(s: SessionFlow, kind: VadEventKind, token: WorkerToken, cycle: u64, sample: u64)
    requires
        s.vad_session != Some(token),
    ensures
        s.vad_disposition(kind, token, cycle, sample) == VadDisposition::Ignore,
        s.after_vad(VadDisposition::Ignore, cycle) == s,
{
}

/// Audio is taken only while listening, and never while an automatic cycle awaits its
/// reset.
pub proof fn law_audio_only_while_listening(s: SessionFlow)
    ensures
        s.phase != SessionPhase::Listening ==> s.binary_route_spec() == BinaryRoute::Drop,
        s.listening_mode == Some(ListenMode::Auto) && s.auto_reset_pending ==> s.binary_route_spec()
            == BinaryRoute::Drop,
{
}

} // verus!
