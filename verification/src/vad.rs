//! Voice-activity segmentation: turns a contiguous stream of per-window speech levels
//! into stable utterance boundaries, with hysteresis in time.
//!
//! Each window's speech probability is compared with the configured thresholds by the
//! caller, which hands over the window's level; the timeline and the hysteresis are decided
//! here.
use vstd::prelude::*;
use crate::audio::{VadBoundary, VadSegmenterError};

verus! {

/// Where a window's speech probability lies against the thresholds.
#[derive(Clone, Copy, Debug, PartialEq, Eq)]
pub enum VadLevel {
    /// At or above the speech threshold.
    Speech,
    /// Between the exit and the speech threshold.
    Between,
    /// Below the exit threshold.
    Silence,
    /// Not a probability in `0.0..=1.0`.
    Invalid,
}

/// One window of the stream: its level and its sample range.
#[derive(Clone, Copy, Debug, PartialEq, Eq)]
pub struct VadWindow {
    pub level: VadLevel,
    pub start_sample: u64,
    pub end_sample: u64,
}

/// How long speech and silence must last before a boundary is reported, in samples.
#[derive(Clone, Copy, Debug, PartialEq, Eq)]
pub struct VadTiming {
    pub min_speech_samples: u64,
    pub end_silence_samples: u64,
}

/// The segmentation state.
#[derive(Clone, Copy, Debug, PartialEq, Eq)]
pub struct VadState {
    pub expected_start_sample: Option<u64>,
    pub speech_candidate_start: Option<u64>,
    pub silence_candidate_start: Option<u64>,
    pub speech_active: bool,
}

/// The state before any window.
pub open spec fn vad_initial() -> VadState {
    VadState {
        expected_start_sample: None,
        speech_candidate_start: None,
        silence_candidate_start: None,
        speech_active: false,
    }
}

/// One window observed: the next state and the boundary it completes, or the integrity
/// error for a window that does not continue the timeline.
pub open spec fn vad_step(t: VadTiming, s: VadState, w: VadWindow) -> Result<(VadState, Option<VadBoundary>), VadSegmenterError> {
    if w.level == VadLevel::Invalid || w.end_sample <= w.start_sample || (
    s.expected_start_sample matches Some(e) && e != w.start_sample) {
        Err(VadSegmenterError::StreamIntegrity)
    } else {
        let s1 = VadState { expected_start_sample: Some(w.end_sample), ..s };
        if !s.speech_active {
            if w.level == VadLevel::Speech {
                let onset = match s.speech_candidate_start {
                    Some(o) => o,
                    None => w.start_sample,
                };
                if w.end_sample - onset >= t.min_speech_samples {
                    Ok(
                        (
                            VadState { speech_active: true, speech_candidate_start: None, ..s1 },
                            Some(VadBoundary::SpeechStart { start_sample: onset }),
                        ),
                    )
                } else {
                    Ok((VadState { speech_candidate_start: Some(onset), ..s1 }, None))
                }
            } else if w.level == VadLevel::Silence {
                Ok((VadState { speech_candidate_start: None, ..s1 }, None))
            } else {
                Ok((s1, None))
            }
        } else {
            if w.level == VadLevel::Silence {
                let onset = match s.silence_candidate_start {
                    Some(o) => o,
                    None => w.start_sample,
                };
                if w.end_sample - onset >= t.end_silence_samples {
                    Ok(
                        (
                            VadState {
                                speech_active: false,
                                silence_candidate_start: None,
                                ..s1
                            },
                            Some(VadBoundary::SpeechEnd { end_sample: onset }),
                        ),
                    )
                } else {
                    Ok((VadState { silence_candidate_start: Some(onset), ..s1 }, None))
                }
            } else if w.level == VadLevel::Speech {
                Ok((VadState { silence_candidate_start: None, ..s1 }, None))
            } else {
                Ok((s1, None))
            }
        }
    }
}

/// Candidate onsets lie on the timeline already seen.
pub open spec fn vad_wf(s: VadState) -> bool {
    &&& s.speech_candidate_start matches Some(o) ==> (s.expected_start_sample matches Some(e)
        && o <= e)
    &&& s.silence_candidate_start matches Some(o) ==> (s.expected_start_sample matches Some(e)
        && o <= e)
}

/// Converts contiguous speech levels into utterance boundaries.
pub struct VadSegmenter {
    timing: VadTiming,
    state: VadState,
}

impl VadSegmenter {
    pub closed spec fn spec_timing(&self) -> VadTiming {
        self.timing
    }

    pub closed spec fn spec_state(&self) -> VadState {
        self.state
    }

    pub open spec fn wf(&self) -> bool {
        vad_wf(self.spec_state())
    }

    /// A segmenter at the start of a stream; both durations must be positive.
    pub fn new(timing: VadTiming) -> (s: Self)
        requires
            timing.min_speech_samples > 0,
            timing.end_silence_samples > 0,
        ensures
            s.spec_timing() == timing,
            s.spec_state() == vad_initial(),
            s.wf(),
    {
        VadSegmenter {
            timing,
            state: VadState {
                expected_start_sample: None,
                speech_candidate_start: None,
                silence_candidate_start: None,
                speech_active: false,
            },
        }
    }

    /// Observes the next window, as `vad_step` describes; after an error the state is
    /// unchanged.
    pub fn observe(&mut self, window: VadWindow) -> (r: Result<Option<VadBoundary>, VadSegmenterError>)
        requires
            old(self).wf(),
        ensures
            final(self).wf(),
            final(self).spec_timing() == old(self).spec_timing(),
            match vad_step(old(self).spec_timing(), old(self).spec_state(), window) {
                Err(e) => r == Err::<Option<VadBoundary>, VadSegmenterError>(e)
                    && final(self).spec_state() == old(self).spec_state(),
                Ok((s, b)) => r == Ok::<Option<VadBoundary>, VadSegmenterError>(b)
                    && final(self).spec_state() == s,
            },
    {
        let invalid = match window.level {
            VadLevel::Invalid => true,
            _ => false,
        };
        let out_of_line = match self.state.expected_start_sample {
            Some(e) => e != window.start_sample,
            None => false,
        };
        if invalid || window.end_sample <= window.start_sample || out_of_line {
            return Err(VadSegmenterError::StreamIntegrity);
        }
        self.state.expected_start_sample = Some(window.end_sample);
        if !self.state.speech_active {
            match window.level {
                VadLevel::Speech => {
                    let onset = match self.state.speech_candidate_start {
                        Some(o) => o,
                        None => window.start_sample,
                    };
                    if window.end_sample - onset >= self.timing.min_speech_samples {
                        self.state.speech_active = true;
                        self.state.speech_candidate_start = None;
                        return Ok(Some(VadBoundary::SpeechStart { start_sample: onset }));
                    }
                    self.state.speech_candidate_start = Some(onset);
                },
                VadLevel::Silence => {
                    self.state.speech_candidate_start = None;
                },
                _ => {},
            }
            return Ok(None);
        }
        match window.level {
            VadLevel::Silence => {
                let onset = match self.state.silence_candidate_start {
                    Some(o) => o,
                    None => window.start_sample,
                };
                if window.end_sample - onset >= self.timing.end_silence_samples {
                    self.state.speech_active = false;
                    self.state.silence_candidate_start = None;
                    return Ok(Some(VadBoundary::SpeechEnd { end_sample: onset }));
                }
                self.state.silence_candidate_start = Some(onset);
            },
            VadLevel::Speech => {
                self.state.silence_candidate_start = None;
            },
            _ => {},
        }
        Ok(None)
    }

    /// Forgets the stream: the next window starts a new timeline.
    pub fn reset(&mut self)
        ensures
            final(self).wf(),
            final(self).spec_timing() == old(self).spec_timing(),
            final(self).spec_state() == vad_initial(),
    {
        self.state = VadState {
            expected_start_sample: None,
            speech_candidate_start: None,
            silence_candidate_start: None,
            speech_active: false,
        };
    }

    /// Whether an utterance is in progress.
    pub fn speech_active(&self) -> (b: bool)
        ensures
            b == self.spec_state().speech_active,
    {
        self.state.speech_active
    }
}

/// Boundaries alternate: a start is reported only outside speech and enters it, an end
/// only inside speech and leaves it; a window without a boundary keeps the phase. A
/// reported start lies no later than the window that confirmed it, and so does an end.
pub proof fn law_boundaries_alternate(t: VadTiming, s: VadState, w: VadWindow)
    requires
        vad_wf(s),
    ensures
        match vad_step(t, s, w) {
            Err(_) => true,
            Ok((n, b)) => {
                &&& vad_wf(n)
                &&& match b {
                    Some(VadBoundary::SpeechStart { start_sample }) => !s.speech_active
                        && n.speech_active && start_sample <= w.start_sample,
                    Some(VadBoundary::SpeechEnd { end_sample }) => s.speech_active
                        && !n.speech_active && end_sample <= w.start_sample,
                    None => n.speech_active == s.speech_active,
                }
            },
        },
{
}

/// Speech is confirmed only after lasting at least the minimum duration, and silence only
/// after lasting the end-silence duration.
pub proof fn law_boundaries_respect_durations(t: VadTiming, s: VadState, w: VadWindow)
    requires
        vad_wf(s),
    ensures
        match vad_step(t, s, w) {
            Ok((_, Some(VadBoundary::SpeechStart { start_sample }))) => w.end_sample - start_sample
                >= t.min_speech_samples,
            Ok((_, Some(VadBoundary::SpeechEnd { end_sample }))) => w.end_sample - end_sample
                >= t.end_silence_samples,
            _ => true,
        },
{
}

/// The state after observing each of `ws` in turn from `s`, while none of them reports a
/// boundary; `None` once one fails or reports a boundary.
pub open spec fn vad_fold(t: VadTiming, s: VadState, ws: Seq<VadWindow>) -> Option<VadState>
    decreases ws.len(),
{
    if ws.len() == 0 {
        Some(s)
    } else {
        match vad_fold(t, s, ws.drop_last()) {
            None => None,
            Some(p) => match vad_step(t, p, ws.last()) {
                Ok((n, None)) => Some(n),
                _ => None,
            },
        }
    }
}

/// `ws` is a run of valid windows on one timeline from sample `o`, of speech and in-between
/// levels only, that starts with speech and in which no speech window yet reaches the
/// minimum duration from `o`.
pub open spec fn unconfirmed_speech_run(t: VadTiming, ws: Seq<VadWindow>, o: u64) -> bool {
    &&& ws.len() > 0
    &&& ws[0].start_sample == o
    &&& ws[0].level == VadLevel::Speech
    &&& forall|i: int| 0 <= i < ws.len() ==> (#[trigger] ws[i]).end_sample > ws[i].start_sample
        && (ws[i].level == VadLevel::Speech || ws[i].level == VadLevel::Between)
        && (ws[i].level == VadLevel::Speech ==> ws[i].end_sample - o < t.min_speech_samples)
    &&& forall|i: int| 0 < i < ws.len() ==> (#[trigger] ws[i]).start_sample == ws[i - 1].end_sample
}

proof fn lemma_run_step(t: VadTiming, p: VadState, w: VadWindow, o: u64)
    requires
        !p.speech_active,
        p.speech_candidate_start == Some(o) || (p.speech_candidate_start is None
            && w.level == VadLevel::Speech && w.start_sample == o),
        p.expected_start_sample is None || p.expected_start_sample == Some(w.start_sample),
        w.end_sample > w.start_sample,
        w.level == VadLevel::Speech || w.level == VadLevel::Between,
        w.level == VadLevel::Speech ==> w.end_sample - o < t.min_speech_samples,
    ensures
        vad_step(t, p, w) == Ok::<(VadState, Option<VadBoundary>), VadSegmenterError>(
            (
                VadState {
                    expected_start_sample: Some(w.end_sample),
                    speech_candidate_start: Some(o),
                    ..p
                },
                None,
            ),
        ),
{
}

#[verifier::spinoff_prover]
#[verifier::rlimit(60)]
proof fn lemma_unconfirmed_run_folds(t: VadTiming, s: VadState, ws: Seq<VadWindow>, o: u64)
    requires
        !s.speech_active,
        s.speech_candidate_start is None,
        s.expected_start_sample is None || s.expected_start_sample == Some(o),
        unconfirmed_speech_run(t, ws, o),
    ensures
        vad_fold(t, s, ws) == Some(
            VadState {
                expected_start_sample: Some(ws.last().end_sample),
                speech_candidate_start: Some(o),
                ..s
            },
        ),
    decreases ws.len(),
{
    let w = ws.last();
    assert(w == ws[ws.len() - 1]);
    let d = ws.drop_last();
    if ws.len() > 1 {
        assert forall|i: int| 0 <= i < d.len() implies (#[trigger] d[i]).end_sample > d[i].start_sample
            && (d[i].level == VadLevel::Speech || d[i].level == VadLevel::Between)
            && (d[i].level == VadLevel::Speech ==> d[i].end_sample - o < t.min_speech_samples) by {
            assert(d[i] == ws[i]);
        }
        assert forall|i: int| 0 < i < d.len() implies (#[trigger] d[i]).start_sample == d[i - 1].end_sample by {
            assert(d[i] == ws[i]);
            assert(d[i - 1] == ws[i - 1]);
        }
        assert(d[0] == ws[0]);
        lemma_unconfirmed_run_folds(t, s, d, o);
        assert(d.last() == ws[ws.len() - 2]);
        assert(w.start_sample == d.last().end_sample);
        let p = VadState {
            expected_start_sample: Some(d.last().end_sample),
            speech_candidate_start: Some(o),
            ..s
        };
        lemma_run_step(t, p, w, o);
    } else {
        assert(d.len() == 0);
        assert(vad_fold(t, s, d) == Some(s));
        lemma_run_step(t, s, w, o);
    }
}

/// A speech onset is reported at the start of the run of speech that confirms it: outside
/// speech and with no onset pending, after a run of speech and in-between windows from
/// sample `o` in which no speech window reached the minimum duration, the next window
/// reports `SpeechStart` at `o` exactly when it is speech whose end is at least the minimum
/// duration after `o`; a silent window instead drops the pending onset.
pub proof fn law_speech_onset_is_confirmed_by_duration(t: VadTiming, s: VadState, ws: Seq<VadWindow>, o: u64, w: VadWindow)
    requires
        !s.speech_active,
        s.speech_candidate_start is None,
        s.expected_start_sample is None || s.expected_start_sample == Some(o),
        unconfirmed_speech_run(t, ws, o),
        w.start_sample == ws.last().end_sample,
        w.end_sample > w.start_sample,
        w.level != VadLevel::Invalid,
    ensures
        vad_fold(t, s, ws) matches Some(p) && !p.speech_active && p.speech_candidate_start == Some(o)
            && match vad_step(t, p, w) {
            Ok((n, b)) => {
                &&& w.level == VadLevel::Speech ==> b == if w.end_sample - o >= t.min_speech_samples {
                    Some(VadBoundary::SpeechStart { start_sample: o })
                } else {
                    None
                }
                &&& w.level == VadLevel::Silence ==> b is None && n.speech_candidate_start is None
                &&& w.level == VadLevel::Between ==> b is None && n.speech_candidate_start == Some(o)
            },
            Err(_) => false,
        },
{
    lemma_unconfirmed_run_folds(t, s, ws, o);
}

} // verus!
