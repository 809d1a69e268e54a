//! Canonical audio domain types, frame validation and manual capture state.
use vstd::prelude::*;

verus! {

pub const UPLINK_FRAME_SAMPLES: usize = 960;

pub const DOWNLINK_FRAME_SAMPLES: usize = 1440;

pub const MAX_UPLINK_OPUS_PACKET_BYTES: usize = 4000;

pub const DOWNLINK_ENCODE_BUFFER_BYTES: usize = 4000;

/// 16-bit mono PCM samples.
#[derive(Clone, Debug, PartialEq, Eq)]
pub struct Pcm16Mono(Vec<i16>);

impl View for Pcm16Mono {
    type V = Seq<i16>;

    closed spec fn view(&self) -> Seq<i16> {
        self.0@
    }
}

impl Pcm16Mono {
    pub fn new(samples: Vec<i16>) -> (p: Self)
        ensures
            p@ == samples@,
    {
        Pcm16Mono(samples)
    }

    pub fn as_slice(&self) -> (s: &[i16])
        ensures
            s@ == self@,
    {
        self.0.as_slice()
    }

    pub fn len(&self) -> (n: usize)
        ensures
            n == self@.len(),
    {
        self.0.len()
    }

    pub fn is_empty(&self) -> (b: bool)
        ensures
            b == (self@.len() == 0),
    {
        self.0.len() == 0
    }

    fn into_samples(self) -> (v: Vec<i16>)
        ensures
            v@ == self@,
    {
        self.0
    }
}

/// Errors of audio framing, capture and coding.
#[derive(Clone, Debug, PartialEq, Eq)]
pub enum AudioError {
    InvalidUplinkFrameSamples(usize),
    InvalidDownlinkFrameSamples(usize),
    CaptureCapacityOverflow,
    CaptureAllocation,
    DecoderInit,
    EncoderInit,
    EncodeFailed,
    EmptyEncodedPacket,
    EncodedPacketTooLarge { actual: usize, max: usize },
    InvalidDownlinkPcm,
}

/// One 60 ms uplink frame: exactly `UPLINK_FRAME_SAMPLES` samples at 16 kHz.
#[derive(Clone, Debug, PartialEq, Eq)]
pub struct UplinkPcmFrame(Pcm16Mono);

impl View for UplinkPcmFrame {
    type V = Seq<i16>;

    closed spec fn view(&self) -> Seq<i16> {
        self.0@
    }
}

impl UplinkPcmFrame {
    /// The frame always holds exactly one uplink frame of samples.
    pub closed spec fn wf(&self) -> bool {
        self.0@.len() == UPLINK_FRAME_SAMPLES
    }

    pub fn try_new(pcm: Pcm16Mono) -> (r: Result<Self, AudioError>)
        ensures
            pcm@.len() == UPLINK_FRAME_SAMPLES <==> r is Ok,
            r matches Ok(frame) ==> frame@ == pcm@ && frame.wf(),
            r matches Err(e) ==> e == AudioError::InvalidUplinkFrameSamples(pcm@.len() as usize),
    {
        if pcm.len() != UPLINK_FRAME_SAMPLES {
            return Err(AudioError::InvalidUplinkFrameSamples(pcm.len()));
        }
        Ok(UplinkPcmFrame(pcm))
    }

    fn into_pcm(self) -> (p: Pcm16Mono)
        ensures
            p@ == self@,
    {
        self.0
    }

    pub fn samples(&self) -> (s: &[i16])
        ensures
            s@ == self@,
    {
        self.0.as_slice()
    }
}

/// One 60 ms downlink frame: exactly `DOWNLINK_FRAME_SAMPLES` samples at 24 kHz.
#[derive(Clone, Debug, PartialEq, Eq)]
pub struct DownlinkPcmFrame(Pcm16Mono);

impl View for DownlinkPcmFrame {
    type V = Seq<i16>;

    closed spec fn view(&self) -> Seq<i16> {
        self.0@
    }
}

impl DownlinkPcmFrame {
    pub fn try_new(pcm: Pcm16Mono) -> (r: Result<Self, AudioError>)
        ensures
            pcm@.len() == DOWNLINK_FRAME_SAMPLES <==> r is Ok,
            r matches Ok(frame) ==> frame@ == pcm@,
            r matches Err(e) ==> e == AudioError::InvalidDownlinkFrameSamples(pcm@.len() as usize),
    {
        if pcm.len() != DOWNLINK_FRAME_SAMPLES {
            return Err(AudioError::InvalidDownlinkFrameSamples(pcm.len()));
        }
        Ok(DownlinkPcmFrame(pcm))
    }

    pub fn samples(&self) -> (s: &[i16])
        ensures
            s@ == self@,
    {
        self.0.as_slice()
    }
}

/// The samples of one completed manual capture.
#[derive(Clone, Debug, PartialEq, Eq)]
pub struct UplinkAudioUtterance(Pcm16Mono);

impl View for UplinkAudioUtterance {
    type V = Seq<i16>;

    closed spec fn view(&self) -> Seq<i16> {
        self.0@
    }
}

impl UplinkAudioUtterance {
    pub fn samples(&self) -> (s: &[i16])
        ensures
            s@ == self@,
    {
        self.0.as_slice()
    }
}

/// What stopping a manual capture yields.
#[derive(Clone, Debug, PartialEq, Eq)]
pub enum CaptureOutcome {
    Utterance(UplinkAudioUtterance),
    Empty,
    Overflowed,
}

/// The abstract state of a manual capture.
pub struct CaptureState {
    pub samples: Seq<i16>,
    pub max_frames: nat,
    pub received_frames: nat,
    pub active: bool,
    pub overflowed: bool,
}

/// The state of a capture that is not recording.
pub open spec fn capture_idle(max_frames: nat) -> CaptureState {
    CaptureState {
        samples: Seq::empty(),
        max_frames,
        received_frames: 0,
        active: false,
        overflowed: false,
    }
}

/// Bounded buffering of one push-to-talk utterance.
#[derive(Debug)]
pub struct ManualCapture {
    samples: Vec<i16>,
    max_frames: usize,
    received_frames: usize,
    active: bool,
    overflowed: bool,
}

impl View for ManualCapture {
    type V = CaptureState;

    closed spec fn view(&self) -> CaptureState {
        CaptureState {
            samples: self.samples@,
            max_frames: self.max_frames as nat,
            received_frames: self.received_frames as nat,
            active: self.active,
            overflowed: self.overflowed,
        }
    }
}

/// Calls `Vec::try_reserve_exact`. A reservation of nothing always fits the capacity and
/// succeeds; whether the allocator grants a larger one is not stated.
#[verifier::external_body]
fn reserve_exact(v: &mut Vec<i16>, additional: usize) -> (ok: bool)
    ensures
        final(v)@ == old(v)@,
        additional == 0 ==> ok,
{
    v.try_reserve_exact(additional).is_ok()
}

impl ManualCapture {
    /// The capture invariant: the buffered samples are exactly the accepted frames, an
    /// overflowed capture holds nothing, and an idle capture is empty.
    pub open spec fn wf(&self) -> bool {
        let s = self@;
        &&& s.max_frames * UPLINK_FRAME_SAMPLES <= usize::MAX
        &&& s.received_frames <= s.max_frames
        &&& !s.overflowed ==> s.samples.len() == s.received_frames * UPLINK_FRAME_SAMPLES
        &&& s.overflowed ==> s.samples.len() == 0
        &&& !s.active ==> s.received_frames == 0 && s.samples.len() == 0 && !s.overflowed
    }

    /// Reserves room for `max_frames` uplink frames. Fails when that size overflows, or
    /// when the allocator refuses the reservation.
    pub fn new(max_frames: usize) -> (r: Result<Self, AudioError>)
        ensures
            max_frames * UPLINK_FRAME_SAMPLES > usize::MAX <==> r == Err::<Self, AudioError>(
                AudioError::CaptureCapacityOverflow,
            ),
            r matches Ok(c) ==> c@ == capture_idle(max_frames as nat) && c.wf(),
            r matches Err(e) ==> e == AudioError::CaptureCapacityOverflow || e
                == AudioError::CaptureAllocation,
            max_frames == 0 ==> r is Ok,
    {
        let max_samples = match max_frames.checked_mul(UPLINK_FRAME_SAMPLES) {
            Some(n) => n,
            None => return Err(AudioError::CaptureCapacityOverflow),
        };
        let mut samples: Vec<i16> = Vec::new();
        if !reserve_exact(&mut samples, max_samples) {
            return Err(AudioError::CaptureAllocation);
        }
        Ok(ManualCapture {
            samples,
            max_frames,
            received_frames: 0,
            active: false,
            overflowed: false,
        })
    }

    fn reset(&mut self)
        requires
            old(self)@.max_frames * UPLINK_FRAME_SAMPLES <= usize::MAX,
        ensures
            final(self)@ == capture_idle(old(self)@.max_frames),
            final(self).wf(),
    {
        self.samples.clear();
        self.received_frames = 0;
        self.overflowed = false;
        self.active = false;
    }

    /// Starts a new, empty capture, discarding any previous one.
    pub fn start(&mut self)
        requires
            old(self).wf(),
        ensures
            final(self)@ == (CaptureState { active: true, ..capture_idle(old(self)@.max_frames) }),
            final(self).wf(),
    {
        self.reset();
        self.active = true;
    }

    pub fn restart(&mut self)
        requires
            old(self).wf(),
        ensures
            final(self)@ == (CaptureState { active: true, ..capture_idle(old(self)@.max_frames) }),
            final(self).wf(),
    {
        self.start();
    }

    /// Appends a frame. Returns false when not capturing or after the capture has
    /// overflowed; the frame beyond `max_frames` discards the buffered audio.
    pub fn push(&mut self, frame: UplinkPcmFrame) -> (accepted: bool)
        requires
            old(self).wf(),
            frame.wf(),
        ensures
            final(self).wf(),
            accepted == (old(self)@.active && !old(self)@.overflowed && old(self)@.received_frames
                < old(self)@.max_frames),
            accepted ==> final(self)@ == (CaptureState {
                samples: old(self)@.samples + frame@,
                received_frames: old(self)@.received_frames + 1,
                ..old(self)@
            }),
            !accepted && old(self)@.active && !old(self)@.overflowed ==> final(self)@ == (
            CaptureState { samples: Seq::empty(), overflowed: true, ..old(self)@ }),
            !(old(self)@.active && !old(self)@.overflowed) ==> final(self)@ == old(self)@,
    {
        if !self.active || self.overflowed {
            return false;
        }
        if self.received_frames == self.max_frames {
            self.samples.clear();
            self.overflowed = true;
            return false;
        }
        let pcm = frame.into_pcm().into_samples();
        let ghost before = self.samples@;
        proof {
            assert((self.received_frames + 1) * UPLINK_FRAME_SAMPLES <= self.max_frames
                * UPLINK_FRAME_SAMPLES) by (nonlinear_arith)
                requires
                    self.received_frames + 1 <= self.max_frames,
            ;
        }
        let mut i: usize = 0;
        while i < pcm.len()
            invariant
                i <= pcm@.len(),
                pcm@.len() == UPLINK_FRAME_SAMPLES,
                self.samples@ == before + pcm@.take(i as int),
                self.received_frames == old(self).received_frames,
                self.max_frames == old(self).max_frames,
                self.active == old(self).active,
                self.overflowed == old(self).overflowed,
            decreases pcm.len() - i,
        {
            self.samples.push(pcm[i]);
            i = i + 1;
            assert(self.samples@ =~= before + pcm@.take(i as int));
        }
        assert(pcm@.take(i as int) =~= pcm@);
        self.received_frames = self.received_frames + 1;
        proof {
            assert(self.samples@.len() == (self.received_frames as nat) * UPLINK_FRAME_SAMPLES) by (
            nonlinear_arith)
                requires
                    self.samples@.len() == before.len() + UPLINK_FRAME_SAMPLES,
                    before.len() == (self.received_frames - 1) * UPLINK_FRAME_SAMPLES,
            ;
        }
        true
    }

    /// Ends the capture: the buffered utterance, `Empty` when nothing was captured or no
    /// capture was running, or `Overflowed`.
    pub fn stop(&mut self) -> (outcome: CaptureOutcome)
        requires
            old(self).wf(),
        ensures
            final(self).wf(),
            final(self)@ == capture_idle(old(self)@.max_frames),
            !old(self)@.active ==> outcome == CaptureOutcome::Empty,
            old(self)@.active && old(self)@.overflowed ==> outcome == CaptureOutcome::Overflowed,
            old(self)@.active && !old(self)@.overflowed && old(self)@.samples.len() == 0
                ==> outcome == CaptureOutcome::Empty,
            old(self)@.active && !old(self)@.overflowed && old(self)@.samples.len() > 0
                ==> (outcome matches CaptureOutcome::Utterance(u) && u@ == old(self)@.samples),
    {
        if !self.active {
            assert(self.samples@ =~= Seq::<i16>::empty());
            return CaptureOutcome::Empty;
        }
        self.active = false;
        if self.overflowed {
            self.reset();
            return CaptureOutcome::Overflowed;
        }
        if self.samples.len() == 0 {
            self.received_frames = 0;
            assert(self.samples@ =~= Seq::<i16>::empty());
            return CaptureOutcome::Empty;
        }
        self.received_frames = 0;
        let mut taken: Vec<i16> = Vec::new();
        std::mem::swap(&mut taken, &mut self.samples);
        CaptureOutcome::Utterance(UplinkAudioUtterance(Pcm16Mono::new(taken)))
    }

    /// Hands back the storage of an utterance nobody consumed; the capture state is unchanged.
    pub fn recycle(&mut self, utterance: UplinkAudioUtterance)
        requires
            old(self).wf(),
        ensures
            final(self)@ == old(self)@,
            final(self).wf(),
    {
        if self.samples.len() == 0 {
            self.samples = utterance.0.into_samples();
            self.samples.clear();
            assert(self.samples@ =~= old(self).samples@);
        }
    }

    /// Discards the capture.
    pub fn abort(&mut self)
        requires
            old(self).wf(),
        ensures
            final(self)@ == capture_idle(old(self)@.max_frames),
            final(self).wf(),
    {
        self.reset();
    }
}

/// An encoded Opus packet.
#[derive(Clone, Debug, PartialEq, Eq)]
pub struct OpusPacket(Vec<u8>);

impl View for OpusPacket {
    type V = Seq<u8>;

    closed spec fn view(&self) -> Seq<u8> {
        self.0@
    }
}

impl OpusPacket {
    pub fn as_bytes(&self) -> (b: &[u8])
        ensures
            b@ == self@,
    {
        self.0.as_slice()
    }
}

/// Why an uplink packet produced no frame.
#[derive(Clone, Copy, Debug, PartialEq, Eq)]
pub enum AudioFrameDropReason {
    EmptyPacket,
    PacketTooLarge,
    DecodeError,
    InvalidSampleCount,
}

/// The result of decoding one uplink packet.
#[derive(Clone, Debug, PartialEq, Eq)]
pub enum DecodeOutcome {
    Frame(UplinkPcmFrame),
    Dropped(AudioFrameDropReason),
}

/// Rejects an uplink packet before decoding: empty, or above the packet cap.
pub fn uplink_packet_precheck(packet: &[u8]) -> (r: Option<AudioFrameDropReason>)
    ensures
        packet@.len() == 0 ==> r == Some(AudioFrameDropReason::EmptyPacket),
        0 < packet@.len() <= MAX_UPLINK_OPUS_PACKET_BYTES ==> r is None,
        packet@.len() > MAX_UPLINK_OPUS_PACKET_BYTES ==> r == Some(
            AudioFrameDropReason::PacketTooLarge,
        ),
{
    if packet.len() == 0 {
        Some(AudioFrameDropReason::EmptyPacket)
    } else if packet.len() > MAX_UPLINK_OPUS_PACKET_BYTES {
        Some(AudioFrameDropReason::PacketTooLarge)
    } else {
        None
    }
}

/// Turns what the Opus decoder produced into a frame: a decoder error or any sample count
/// other than one uplink frame drops the packet.
pub fn decoded_uplink_outcome(decoded: Result<Vec<i16>, ()>) -> (r: DecodeOutcome)
    ensures
        decoded is Err ==> r == DecodeOutcome::Dropped(AudioFrameDropReason::DecodeError),
        decoded matches Ok(s) ==> if s@.len() == UPLINK_FRAME_SAMPLES {
            (r matches DecodeOutcome::Frame(f) && f@ == s@ && f.wf())
        } else {
            r == DecodeOutcome::Dropped(AudioFrameDropReason::InvalidSampleCount)
        },
{
    match decoded {
        Err(()) => DecodeOutcome::Dropped(AudioFrameDropReason::DecodeError),
        Ok(samples) => match UplinkPcmFrame::try_new(Pcm16Mono::new(samples)) {
            Ok(frame) => DecodeOutcome::Frame(frame),
            Err(_) => DecodeOutcome::Dropped(AudioFrameDropReason::InvalidSampleCount),
        },
    }
}

/// Turns what the Opus encoder produced into a packet: an encoder error, an empty packet,
/// or a packet above `max_packet_bytes` is an error.
pub fn encoded_downlink_packet(encoded: Result<Vec<u8>, ()>, max_packet_bytes: usize) -> (r: Result<
    OpusPacket,
    AudioError,
>)
    ensures
        encoded is Err ==> r == Err::<OpusPacket, AudioError>(AudioError::EncodeFailed),
        encoded matches Ok(b) ==> if b@.len() == 0 {
            r == Err::<OpusPacket, AudioError>(AudioError::EmptyEncodedPacket)
        } else if b@.len() > max_packet_bytes {
            r == Err::<OpusPacket, AudioError>(
                AudioError::EncodedPacketTooLarge { actual: b@.len() as usize, max: max_packet_bytes },
            )
        } else {
            (r matches Ok(p) && p@ == b@)
        },
{
    match encoded {
        Err(()) => Err(AudioError::EncodeFailed),
        Ok(bytes) => {
            if bytes.len() == 0 {
                Err(AudioError::EmptyEncodedPacket)
            } else if bytes.len() > max_packet_bytes {
                Err(AudioError::EncodedPacketTooLarge { actual: bytes.len(), max: max_packet_bytes })
            } else {
                Ok(OpusPacket(bytes))
            }
        },
    }
}

/// A speech boundary found by voice activity segmentation, in absolute sample positions.
#[derive(Clone, Copy, Debug, PartialEq, Eq)]
pub enum VadBoundary {
    SpeechStart { start_sample: u64 },
    SpeechEnd { end_sample: u64 },
}

/// The probability stream no longer forms a contiguous timeline.
#[derive(Clone, Copy, Debug, PartialEq, Eq)]
pub enum VadSegmenterError {
    StreamIntegrity,
}

} // verus!
