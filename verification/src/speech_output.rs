//! The decision state of speech output for one turn: which LLM text is admitted as speech
//! segments, when a segment is announced or handed to synthesis, and when an encoded audio
//! packet may leave under real-time pacing.
//!
//! Synthesis, resampling and Opus encoding are done by the caller: it performs the step
//! this state asks for and reports back (`set_synthesizing`, `push_packet`). Time enters as
//! a monotonic millisecond clock.
use vstd::prelude::*;
use crate::config::SpeechOutputConfig;
use crate::session::{SpeechOutputError, SpeechOutputEvent};
use crate::text::{
    json_run, sanitize_tts_text, sanitized, split_sentences, strings_view, JsonFilter, JsonScan,
    SentenceSegmenter,
};
use crate::unicode::{chars_of, string_of, trim, trim_chars};

verus! {

/// Duration of one downlink packet, in milliseconds.
pub const PACED_FRAME_MS: u64 = 60;

/// Packets sent at once, before real-time pacing begins.
pub const PREBUFFER_PACKETS: u64 = 5;

/// The high-water mark of encoded packets waiting to be sent.
pub const MAX_BUFFERED_PACKETS: usize = 32;

/// A speech segment awaiting synthesis.
pub struct SegmentView {
    /// The text shown to the client.
    pub display: Seq<char>,
    /// The text handed to synthesis.
    pub tts: Seq<char>,
    pub announced: bool,
}

/// The abstract state of a `SpeechOutput`.
pub struct SpeechOutputView {
    pub filter: JsonScan,
    pub buffered: Seq<char>,
    pub config: SpeechOutputConfig,
    pub pending: Seq<SegmentView>,
    pub packets: Seq<Seq<u8>>,
    pub packets_sent: u64,
    pub finish_input: bool,
    pub started: bool,
    pub synthesizing: bool,
    pub origin_ms: Option<u64>,
    pub end_deadline_ms: Option<u128>,
}

/// The segment a completed sentence becomes: trimmed for display, sanitized for speech;
/// none when nothing speakable remains.
pub open spec fn segment_of(text: Seq<char>) -> Option<SegmentView> {
    let display = trim(text);
    let tts = sanitized(display);
    if display.len() == 0 || tts.len() == 0 {
        None
    } else {
        Some(SegmentView { display, tts, announced: false })
    }
}

/// Admits sentences in order into a queue bounded by `max`; the first sentence that finds
/// the queue full stops admission (`false`).
pub open spec fn queue_segments(pending: Seq<SegmentView>, texts: Seq<Seq<char>>, max: nat) -> (Seq<SegmentView>, bool)
    decreases texts.len(),
{
    if texts.len() == 0 {
        (pending, true)
    } else {
        match segment_of(texts[0]) {
            None => queue_segments(pending, texts.drop_first(), max),
            Some(seg) => if pending.len() >= max {
                (pending, false)
            } else {
                queue_segments(pending.push(seg), texts.drop_first(), max)
            },
        }
    }
}

pub proof fn lemma_queue_step(p: Seq<SegmentView>, t: Seq<char>, rest: Seq<Seq<char>>, max: nat)
    requires
        rest.len() > 0,
        rest[0] == t,
    ensures
        ({
            let one = queue_segments(p, seq![t], max);
            &&& one.1 ==> queue_segments(p, rest, max) == queue_segments(one.0, rest.drop_first(), max)
            &&& !one.1 ==> queue_segments(p, rest, max) == (p, false) && one.0 == p
        }),
{
    let single = seq![t];
    assert(single[0] == t);
    assert(single.drop_first() =~= Seq::<Seq<char>>::empty());
    assert(queue_segments(p, Seq::<Seq<char>>::empty(), max) == (p, true));
    match segment_of(t) {
        None => {},
        Some(seg) => {
            assert(queue_segments(p.push(seg), Seq::<Seq<char>>::empty(), max) == (p.push(seg), true));
        },
    }
}

/// The emergency bound on held-back text: twice the longest segment, saturating.
pub open spec fn held_text_limit(max_chars: usize) -> nat {
    if max_chars > usize::MAX / 2 {
        usize::MAX as nat
    } else {
        (2 * max_chars) as nat
    }
}

/// The state and result after pushing `delta`.
pub open spec fn after_push(v: SpeechOutputView, delta: Seq<char>) -> (SpeechOutputView, Result<(), SpeechOutputError>) {
    let (filter, out) = json_run(v.filter, delta);
    let (segs, rest) = split_sentences(v.buffered + out);
    let (pending, ok) = queue_segments(v.pending, segs, v.config.pending_segments as nat);
    let next = SpeechOutputView { filter, buffered: rest, pending, ..v };
    if !ok {
        (next, Err(SpeechOutputError::Backpressure))
    } else if rest.len() + filter.candidate.len() > held_text_limit(v.config.max_chars) {
        (next, Err(SpeechOutputError::Backpressure))
    } else {
        (next, Ok(()))
    }
}

/// The filter state once the stream has ended.
pub open spec fn filter_finished(f: JsonScan) -> JsonScan {
    JsonScan { candidate: Seq::empty(), depth: 0, in_string: false, escaped: false, ..f }
}

/// The state and result after the LLM stream ends: held JSON text and the unfinished
/// sentence are admitted; a turn with nothing to say fails.
pub open spec fn after_finish(v: SpeechOutputView) -> (SpeechOutputView, Result<(), SpeechOutputError>) {
    let filter = filter_finished(v.filter);
    let (segs, rest) = split_sentences(v.buffered + v.filter.candidate);
    let max = v.config.pending_segments as nat;
    let (p1, ok1) = queue_segments(v.pending, segs, max);
    if !ok1 {
        (
            SpeechOutputView { filter, buffered: rest, pending: p1, ..v },
            Err(SpeechOutputError::Backpressure),
        )
    } else {
        let (p2, ok2) = queue_segments(p1, seq![trim(rest)], max);
        let next = SpeechOutputView { filter, buffered: Seq::empty(), pending: p2, ..v };
        if !ok2 {
            (next, Err(SpeechOutputError::Backpressure))
        } else if !v.started && p2.len() == 0 && !v.synthesizing && v.packets.len() == 0 {
            (next, Err(SpeechOutputError::Synthesis))
        } else {
            (SpeechOutputView { finish_input: true, ..next }, Ok(()))
        }
    }
}

/// The state after cancellation: everything of the turn is dropped.
pub open spec fn cancelled(v: SpeechOutputView) -> SpeechOutputView {
    SpeechOutputView {
        filter: crate::text::json_scan_initial(),
        buffered: Seq::empty(),
        config: v.config,
        pending: Seq::empty(),
        packets: Seq::empty(),
        packets_sent: 0,
        finish_input: false,
        started: false,
        synthesizing: false,
        origin_ms: None,
        end_deadline_ms: None,
    }
}

/// When the next packet may be sent: the first packets go out at once, later ones on a
/// cadence anchored to the first packet.
pub open spec fn send_deadline(v: SpeechOutputView) -> Option<int> {
    if v.packets_sent < PREBUFFER_PACKETS {
        None
    } else {
        Some(
            v.origin_ms.unwrap() + PACED_FRAME_MS * (v.packets_sent + 1 - PREBUFFER_PACKETS),
        )
    }
}

/// What a playback poll yields.
pub enum PlaybackOutcome {
    Wait,
    Started,
    Drained,
    Packet(Seq<u8>),
}

/// The pacing counter after one more packet, saturating.
pub open spec fn next_sent(sent: u64) -> u64 {
    if sent == u64::MAX {
        sent
    } else {
        (sent + 1) as u64
    }
}

/// The playback side of a poll at time `now`: drain once every queued packet has played,
/// hold playback until the initial buffer is ready, then release one packet when its
/// paced deadline has come.
pub open spec fn playback_step(v: SpeechOutputView, now: u64) -> (SpeechOutputView, PlaybackOutcome) {
    if v.packets.len() == 0 {
        if v.finish_input && v.pending.len() == 0 && !v.synthesizing && v.started && (
        v.end_deadline_ms matches Some(d) && now >= d) {
            (cancelled(v), PlaybackOutcome::Drained)
        } else {
            (v, PlaybackOutcome::Wait)
        }
    } else if !v.started {
        if v.packets.len() < MAX_BUFFERED_PACKETS && (v.synthesizing || v.pending.len() > 0) {
            (v, PlaybackOutcome::Wait)
        } else {
            (SpeechOutputView { started: true, ..v }, PlaybackOutcome::Started)
        }
    } else if send_deadline(v) matches Some(d) && now < d {
        (v, PlaybackOutcome::Wait)
    } else {
        let origin = match v.origin_ms {
            Some(o) => o,
            None => now,
        };
        let sent = next_sent(v.packets_sent);
        let expected = origin + PACED_FRAME_MS * sent;
        let earliest = now + PACED_FRAME_MS;
        let end = if expected >= earliest {
            expected
        } else {
            earliest
        };
        (
            SpeechOutputView {
                packets: v.packets.drop_first(),
                packets_sent: sent,
                origin_ms: Some(origin),
                end_deadline_ms: Some(end as u128),
                ..v
            },
            PlaybackOutcome::Packet(v.packets[0]),
        )
    }
}

/// The first packets of a turn are released as soon as playback has started, whatever
/// the time: real-time pacing starts only after the prebuffer.
pub proof fn law_prebuffer_is_not_paced(v: SpeechOutputView, now: u64)
    requires
        v.started,
        v.packets.len() > 0,
        v.packets_sent < PREBUFFER_PACKETS,
    ensures
        playback_step(v, now).1 == PlaybackOutcome::Packet(v.packets[0]),
{
}

/// After the prebuffer, a packet leaves exactly when its slot on the cadence anchored to
/// the first packet has come, however late earlier polls were.
pub proof fn law_paced_release_is_anchored(v: SpeechOutputView, now: u64)
    requires
        output_wf(v),
        v.started,
        v.packets.len() > 0,
        v.packets_sent >= PREBUFFER_PACKETS,
    ensures
        (playback_step(v, now).1 is Packet) <==> now >= v.origin_ms.unwrap() + PACED_FRAME_MS * (
        v.packets_sent + 1 - PREBUFFER_PACKETS),
{
}

/// Playback starts only on a full initial buffer, or once nothing more will be synthesized
/// before it: a short segment is never started while its synthesis still runs.
pub proof fn law_start_waits_for_initial_buffer(v: SpeechOutputView, now: u64)
    ensures
        playback_step(v, now).1 == PlaybackOutcome::Started ==> !v.started && (v.packets.len()
            >= MAX_BUFFERED_PACKETS || (!v.synthesizing && v.pending.len() == 0)),
{
}

/// The turn drains only after the last sent packet's nominal playback time, and only when
/// nothing is left to synthesize or send; draining resets the output.
pub proof fn law_drain_waits_for_playback(v: SpeechOutputView, now: u64)
    ensures
        playback_step(v, now).1 == PlaybackOutcome::Drained ==> {
            &&& v.packets.len() == 0 && v.pending.len() == 0 && !v.synthesizing
            &&& v.finish_input && v.started
            &&& v.end_deadline_ms matches Some(d) && now >= d
            &&& playback_step(v, now).0 == cancelled(v)
        },
{
}

/// Sending a packet moves the end of playback to at least the sent packets' nominal
/// duration after the first packet, and at least one frame after now.
pub proof fn law_packet_extends_playback_end(v: SpeechOutputView, now: u64)
    requires
        playback_step(v, now).1 is Packet,
    ensures
        ({
            let w = playback_step(v, now).0;
            &&& w.end_deadline_ms matches Some(d) && d >= w.origin_ms.unwrap() + PACED_FRAME_MS
                * w.packets_sent && d >= now + PACED_FRAME_MS
            &&& w.packets == v.packets.drop_first()
        }),
{
}

/// Only speakable, complete sentences are queued: every segment admitted carries text
/// that is trimmed for display and non-empty after sanitizing.
pub proof fn law_queued_segments_are_speakable(pending: Seq<SegmentView>, texts: Seq<Seq<char>>, max: nat)
    requires
        forall|i: int| 0 <= i < pending.len() ==> #[trigger] pending[i].tts.len() > 0,
    ensures
        forall|i: int|
            0 <= i < queue_segments(pending, texts, max).0.len() ==> #[trigger] queue_segments(
                pending,
                texts,
                max,
            ).0[i].tts.len() > 0,
        queue_segments(pending, texts, max).0.len() <= if pending.len() <= max {
            max
        } else {
            pending.len()
        },
    decreases texts.len(),
{
    if texts.len() > 0 {
        match segment_of(texts[0]) {
            None => law_queued_segments_are_speakable(pending, texts.drop_first(), max),
            Some(seg) => {
                if pending.len() < max {
                    let p = pending.push(seg);
                    assert forall|i: int| 0 <= i < p.len() implies #[trigger] p[i].tts.len() > 0 by {
                        if i < pending.len() {
                            assert(p[i] == pending[i]);
                        }
                    }
                    law_queued_segments_are_speakable(p, texts.drop_first(), max);
                }
            },
        }
    }
}

/// Whether an event is the one a playback outcome describes.
pub open spec fn event_is(r: Option<SpeechOutputEvent>, o: PlaybackOutcome) -> bool {
    match o {
        PlaybackOutcome::Wait => r is None,
        PlaybackOutcome::Started => r == Some(SpeechOutputEvent::Started),
        PlaybackOutcome::Drained => r == Some(SpeechOutputEvent::Drained),
        PlaybackOutcome::Packet(p) => r matches Some(SpeechOutputEvent::AudioPacket(q)) && q@ == p,
    }
}

/// The text side of a poll: announce the next segment, or hand it to synthesis once
/// announced, while no synthesis runs and the packet queue is below its high-water mark.
pub open spec fn text_step(v: SpeechOutputView) -> (SpeechOutputView, Option<(bool, Seq<char>)>) {
    if v.packets.len() < MAX_BUFFERED_PACKETS && !v.synthesizing && v.pending.len() > 0 {
        let front = v.pending[0];
        if !front.announced {
            (
                SpeechOutputView {
                    pending: v.pending.update(0, SegmentView { announced: true, ..front }),
                    ..v
                },
                Some((false, front.display)),
            )
        } else {
            (SpeechOutputView { pending: v.pending.drop_first(), ..v }, Some((true, front.tts)))
        }
    } else {
        (v, None)
    }
}

/// Whether a text step is the one `text_step` describes: `(false, t)` announces `t`,
/// `(true, t)` asks for the synthesis of `t`.
pub open spec fn step_is(r: TextStep, o: Option<(bool, Seq<char>)>) -> bool {
    match o {
        None => r is Idle,
        Some(x) => if x.0 {
            r matches TextStep::Synthesize(t) && t@ == x.1
        } else {
            r matches TextStep::Announce(t) && t@ == x.1
        },
    }
}

/// What the text side of a poll asks the caller to do.
pub enum TextStep {
    /// Show this segment's text; its synthesis comes on a later poll.
    Announce(String),
    /// Synthesize this text and deliver its packets.
    Synthesize(String),
    Idle,
}

struct Segment {
    display: String,
    tts: String,
    announced: bool,
}

impl View for Segment {
    type V = SegmentView;

    closed spec fn view(&self) -> SegmentView {
        SegmentView { display: self.display@, tts: self.tts@, announced: self.announced }
    }
}

spec fn segments_view(s: Seq<Segment>) -> Seq<SegmentView> {
    s.map_values(|x: Segment| x@)
}

spec fn packets_view(s: Seq<Vec<u8>>) -> Seq<Seq<u8>> {
    s.map_values(|x: Vec<u8>| x@)
}

/// Speech output state of one turn.
pub struct SpeechOutput {
    json_filter: JsonFilter,
    segmenter: SentenceSegmenter,
    pending: Vec<Segment>,
    packets: Vec<Vec<u8>>,
    packets_sent: u64,
    finish_input: bool,
    started: bool,
    synthesizing: bool,
    origin_ms: Option<u64>,
    end_deadline_ms: Option<u128>,
}

impl View for SpeechOutput {
    type V = SpeechOutputView;

    closed spec fn view(&self) -> SpeechOutputView {
        SpeechOutputView {
            filter: self.json_filter@,
            buffered: self.segmenter.buffered(),
            config: self.segmenter.spec_config(),
            pending: segments_view(self.pending@),
            packets: packets_view(self.packets@),
            packets_sent: self.packets_sent,
            finish_input: self.finish_input,
            started: self.started,
            synthesizing: self.synthesizing,
            origin_ms: self.origin_ms,
            end_deadline_ms: self.end_deadline_ms,
        }
    }
}

/// The state's own consistency: a sent packet fixed the pacing origin.
pub open spec fn output_wf(v: SpeechOutputView) -> bool {
    v.packets_sent > 0 ==> v.origin_ms is Some
}

impl SpeechOutput {
    pub closed spec fn wf(&self) -> bool {
        self.json_filter.wf() && output_wf(self@)
    }

    pub fn with_config(config: SpeechOutputConfig) -> (s: Self)
        ensures
            s.wf(),
            s@ == cancelled(s@),
            s@.config == config,
    {
        let s = SpeechOutput {
            json_filter: JsonFilter::new(),
            segmenter: SentenceSegmenter::new(config),
            pending: Vec::new(),
            packets: Vec::new(),
            packets_sent: 0,
            finish_input: false,
            started: false,
            synthesizing: false,
            origin_ms: None,
            end_deadline_ms: None,
        };
        assert(s@.pending =~= Seq::<SegmentView>::empty());
        assert(s@.packets =~= Seq::<Seq<u8>>::empty());
        s
    }

    /// Admits one completed sentence as a segment, unless the segment queue is full.
    fn enqueue(&mut self, text: String) -> (r: Result<(), SpeechOutputError>)
        requires
            old(self).wf(),
        ensures
            final(self).wf(),
            ({
                let a = queue_segments(old(self)@.pending, seq![text@], old(self)@.config.pending_segments as nat);
                &&& final(self)@ == (SpeechOutputView { pending: a.0, ..old(self)@ })
                &&& (r is Ok <==> a.1)
                &&& r is Err ==> r == Err::<(), SpeechOutputError>(SpeechOutputError::Backpressure)
            }),
    {
        let ghost max = self@.config.pending_segments as nat;
        let ghost texts = seq![text@];
        let ghost p = self@.pending;
        assert(texts[0] == text@);
        assert(texts.drop_first() =~= Seq::<Seq<char>>::empty());
        assert(queue_segments(p, Seq::<Seq<char>>::empty(), max) == (p, true));
        let chars = chars_of(text.as_str());
        let trimmed = trim_chars(&chars);
        let display = string_of(&trimmed);
        let tts = sanitize_tts_text(display.as_str());
        let tts_chars = chars_of(tts.as_str());
        if trimmed.len() == 0 || tts_chars.len() == 0 {
            return Ok(());
        }
        if self.pending.len() >= self.segmenter.config().pending_segments {
            return Err(SpeechOutputError::Backpressure);
        }
        let ghost before = self@;
        let seg = Segment { display, tts, announced: false };
        assert(seg@ == segment_of(text@).unwrap());
        assert(queue_segments(p.push(seg@), Seq::<Seq<char>>::empty(), max) == (p.push(seg@), true));
        self.pending.push(seg);
        assert(self@.pending =~= before.pending.push(segment_of(text@).unwrap()));
        Ok(())
    }

    /// Admits every sentence of `segs` in order, stopping at the first refusal.
    fn enqueue_all(&mut self, segs: Vec<String>) -> (r: Result<(), SpeechOutputError>)
        requires
            old(self).wf(),
        ensures
            final(self).wf(),
            ({
                let a = queue_segments(
                    old(self)@.pending,
                    strings_view(segs@),
                    old(self)@.config.pending_segments as nat,
                );
                &&& final(self)@ == (SpeechOutputView { pending: a.0, ..old(self)@ })
                &&& (r is Ok <==> a.1)
                &&& r is Err ==> r == Err::<(), SpeechOutputError>(SpeechOutputError::Backpressure)
            }),
    {
        let ghost texts = strings_view(segs@);
        let ghost max = self@.config.pending_segments as nat;
        let ghost target = queue_segments(self@.pending, texts, max);
        let mut i: usize = 0;
        let ghost all = segs@;
        assert(texts.skip(0) =~= texts);
        while i < segs.len()
            invariant
                segs@ == all,
                texts == strings_view(all),
                i <= all.len(),
                self.wf(),
                self@.config.pending_segments as nat == max,
                queue_segments(self@.pending, texts.skip(i as int), max) == target,
                target == queue_segments(old(self)@.pending, texts, max),
                max == old(self)@.config.pending_segments as nat,
                self@ == (SpeechOutputView { pending: self@.pending, ..old(self)@ }),
            decreases all.len() - i,
        {
            let text = segs[i].clone();
            let ghost rest = texts.skip(i as int);
            assert(rest[0] == text@);
            assert(rest.drop_first() =~= texts.skip(i + 1));
            let ghost p = self@.pending;
            proof {
                lemma_queue_step(p, text@, rest, max);
            }
            let r = self.enqueue(text);
            if r.is_err() {
                assert(queue_segments(p, rest, max) == (p, false));
                assert(target == (p, false));
                assert(self@.pending == p);
                assert(self@ == (SpeechOutputView { pending: target.0, ..old(self)@ }));
                return r;
            }
            i = i + 1;
        }
        assert(texts.skip(i as int) =~= Seq::<Seq<char>>::empty());
        Ok(())
    }

    /// Accepts LLM text incrementally; every completed sentence is admitted as a whole.
    /// Refused with `Backpressure` when the segment queue is full or the unfinished
    /// sentence outgrows twice the longest segment.
    pub fn push_delta(&mut self, text: &str) -> (r: Result<(), SpeechOutputError>)
        requires
            old(self).wf(),
        ensures
            final(self).wf(),
            (final(self)@, r) == after_push(old(self)@, text@),
    {
        let filtered = self.json_filter.push(text);
        let segs = self.segmenter.push(filtered.as_str());
        let r = self.enqueue_all(segs);
        if r.is_err() {
            return r;
        }
        let held = self.segmenter.buffered_chars();
        let candidate = self.json_filter.pending_chars();
        let max_chars = self.segmenter.config().max_chars;
        let limit: usize = if max_chars > usize::MAX / 2 {
            usize::MAX
        } else {
            max_chars * 2
        };
        if held > limit || candidate > limit - held {
            return Err(SpeechOutputError::Backpressure);
        }
        Ok(())
    }

    /// Ends the LLM text stream. Fails with `Synthesis` when the turn produced nothing to
    /// speak, and with `Backpressure` when the remaining text does not fit the queue.
    pub fn finish_input(&mut self) -> (r: Result<(), SpeechOutputError>)
        requires
            old(self).wf(),
        ensures
            final(self).wf(),
            (final(self)@, r) == after_finish(old(self)@),
    {
        let remaining = self.json_filter.finish();
        let segs = self.segmenter.push(remaining.as_str());
        let r = self.enqueue_all(segs);
        if r.is_err() {
            return r;
        }
        let ghost rest = self@.buffered;
        let last = self.segmenter.finish();
        match last {
            Some(t) => {
                let r = self.enqueue(t);
                if r.is_err() {
                    return r;
                }
            },
            None => {
                let ghost p = self@.pending;
                let ghost single = seq![trim(rest)];
                assert(single[0] == trim(rest));
                assert(single.drop_first() =~= Seq::<Seq<char>>::empty());
                assert(trim(rest) =~= Seq::<char>::empty());
                assert(trim(trim(rest)) =~= Seq::<char>::empty());
                assert(queue_segments(p, Seq::<Seq<char>>::empty(), self@.config.pending_segments as nat) == (p, true));
            },
        }
        if !self.started && self.pending.len() == 0 && !self.synthesizing && self.packets.len()
            == 0 {
            return Err(SpeechOutputError::Synthesis);
        }
        self.finish_input = true;
        Ok(())
    }

    /// The text side of a poll, as `text_step` describes.
    pub fn next_text_step(&mut self) -> (r: TextStep)
        requires
            old(self).wf(),
        ensures
            final(self).wf(),
            final(self)@ == text_step(old(self)@).0,
            step_is(r, text_step(old(self)@).1),
    {
        if self.packets.len() < MAX_BUFFERED_PACKETS && !self.synthesizing && self.pending.len()
            > 0 {
            let ghost before = self@;
            let front = self.pending.remove(0);
            if !front.announced {
                let text = front.display.clone();
                let seg = Segment { display: front.display, tts: front.tts, announced: true };
                self.pending.insert(0, seg);
                assert(self@.pending =~= before.pending.update(
                    0,
                    SegmentView { announced: true, ..before.pending[0] },
                ));
                TextStep::Announce(text)
            } else {
                assert(self@.pending =~= before.pending.drop_first());
                TextStep::Synthesize(front.tts)
            }
        } else {
            TextStep::Idle
        }
    }

    /// Records whether a synthesis is running for this output.
    pub fn set_synthesizing(&mut self, active: bool)
        requires
            old(self).wf(),
        ensures
            final(self).wf(),
            final(self)@ == (SpeechOutputView { synthesizing: active, ..old(self)@ }),
    {
        self.synthesizing = active;
    }

    /// Queues one encoded audio packet for paced delivery.
    pub fn push_packet(&mut self, packet: Vec<u8>)
        requires
            old(self).wf(),
        ensures
            final(self).wf(),
            final(self)@ == (SpeechOutputView { packets: old(self)@.packets.push(packet@), ..old(self)@ }),
    {
        let ghost before = self@;
        let ghost p = packet@;
        self.packets.push(packet);
        assert(self@.packets =~= before.packets.push(p));
    }

    /// Whether a running synthesis should be polled for more audio now.
    pub fn synthesis_poll_due(&self) -> (b: bool)
        ensures
            b == (self@.synthesizing && self@.packets.len() < MAX_BUFFERED_PACKETS),
    {
        self.synthesizing && self.packets.len() < MAX_BUFFERED_PACKETS
    }

    /// Whether the encoder's partial last frame should be flushed now: all text has been
    /// synthesized and every queued packet has left.
    pub fn tail_flush_due(&self) -> (b: bool)
        ensures
            b == (self@.packets.len() == 0 && self@.finish_input && self@.pending.len() == 0
                && !self@.synthesizing),
    {
        self.packets.len() == 0 && self.finish_input && self.pending.len() == 0
            && !self.synthesizing
    }

    /// The playback side of a poll at `now_ms`, as `playback_step` describes.
    pub fn poll_playback(&mut self, now_ms: u64) -> (r: Option<SpeechOutputEvent>)
        requires
            old(self).wf(),
        ensures
            final(self).wf(),
            final(self)@ == playback_step(old(self)@, now_ms).0,
            event_is(r, playback_step(old(self)@, now_ms).1),
    {
        if self.packets.len() == 0 {
            let drained = match self.end_deadline_ms {
                Some(d) => now_ms as u128 >= d,
                None => false,
            };
            if self.finish_input && self.pending.len() == 0 && !self.synthesizing && self.started
                && drained {
                self.cancel();
                return Some(SpeechOutputEvent::Drained);
            }
            return None;
        }
        if !self.started {
            if self.packets.len() < MAX_BUFFERED_PACKETS && (self.synthesizing
                || self.pending.len() > 0) {
                return None;
            }
            self.started = true;
            return Some(SpeechOutputEvent::Started);
        }
        if self.packets_sent >= PREBUFFER_PACKETS {
            let origin = match self.origin_ms {
                Some(o) => o,
                None => 0,
            };
            let paced: u128 = self.packets_sent as u128 + 1 - PREBUFFER_PACKETS as u128;
            let deadline: u128 = origin as u128 + 60 * paced;
            if (now_ms as u128) < deadline {
                return None;
            }
        }
        let ghost before = self@;
        let packet = self.packets.remove(0);
        let origin = match self.origin_ms {
            Some(o) => o,
            None => now_ms,
        };
        let sent: u64 = if self.packets_sent == u64::MAX {
            self.packets_sent
        } else {
            self.packets_sent + 1
        };
        let expected: u128 = origin as u128 + 60 * (sent as u128);
        let earliest: u128 = now_ms as u128 + 60;
        self.origin_ms = Some(origin);
        self.packets_sent = sent;
        self.end_deadline_ms = Some(
            if expected >= earliest {
                expected
            } else {
                earliest
            },
        );
        assert(self@.packets =~= before.packets.drop_first());
        Some(SpeechOutputEvent::AudioPacket(packet))
    }

    /// The earliest time the next packet may leave, in milliseconds on the caller's clock:
    /// none during the prebuffer, afterwards the packet's slot on the cadence anchored to
    /// the first packet sent.
    pub fn packet_send_deadline(&self) -> (r: Option<u128>)
        requires
            self.wf(),
        ensures
            match send_deadline(self@) {
                Some(d) => r == Some(d as u128),
                None => r is None,
            },
    {
        if self.packets_sent < PREBUFFER_PACKETS {
            return None;
        }
        let origin = match self.origin_ms {
            Some(o) => o,
            None => 0,
        };
        let paced: u128 = self.packets_sent as u128 + 1 - PREBUFFER_PACKETS as u128;
        Some(origin as u128 + 60 * paced)
    }

    /// Drops everything of the current turn.
    pub fn cancel(&mut self)
        ensures
            final(self).wf(),
            final(self)@ == cancelled(old(self)@),
    {
        self.json_filter.reset();
        self.segmenter.reset();
        self.pending = Vec::new();
        self.packets = Vec::new();
        self.packets_sent = 0;
        self.finish_input = false;
        self.started = false;
        self.synthesizing = false;
        self.origin_ms = None;
        self.end_deadline_ms = None;
        assert(self@.pending =~= Seq::<SegmentView>::empty());
        assert(self@.packets =~= Seq::<Seq<u8>>::empty());
    }
}

} // verus!
