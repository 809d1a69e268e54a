//! Bounded retention of recent capture samples, so that an utterance detected by voice
//! activity can be replayed from shortly before its onset.
use vstd::prelude::*;

verus! {

/// Samples per uplink frame.
pub const FRAME_SAMPLES: usize = 960;

/// Slack for re-chunking between the decoder and voice-activity detection.
pub const RECHUNK_SLACK_SAMPLES: usize = 512;

/// `a * b`, saturating at `usize::MAX`.
pub open spec fn saturating_product(a: usize, b: usize) -> int {
    if a * b > usize::MAX {
        usize::MAX as int
    } else {
        a * b
    }
}

/// The samples the retention must hold: the pre-roll, the confirmation delay, every frame
/// the VAD command queue may still hold, and one frame and the re-chunking slack more.
pub open spec fn retention_capacity(vad_command_capacity: usize, confirmation_samples: u64, pre_roll_samples: u64) -> int {
    (pre_roll_samples as usize) + (confirmation_samples as usize) + saturating_product(
        vad_command_capacity,
        FRAME_SAMPLES,
    ) + FRAME_SAMPLES + RECHUNK_SLACK_SAMPLES
}

pub fn auto_retention_capacity(
    vad_command_capacity: usize,
    confirmation_samples: u64,
    pre_roll_samples: u64,
) -> (n: usize)
    requires
        retention_capacity(vad_command_capacity, confirmation_samples, pre_roll_samples)
            <= usize::MAX,
    ensures
        n == retention_capacity(vad_command_capacity, confirmation_samples, pre_roll_samples),
{
    let queued: usize = if vad_command_capacity > usize::MAX / FRAME_SAMPLES {
        proof {
            assert(vad_command_capacity * FRAME_SAMPLES > usize::MAX) by (nonlinear_arith)
                requires
                    vad_command_capacity > usize::MAX / FRAME_SAMPLES,
                    FRAME_SAMPLES == 960,
            ;
        }
        usize::MAX
    } else {
        proof {
            assert(vad_command_capacity * FRAME_SAMPLES <= usize::MAX) by (nonlinear_arith)
                requires
                    vad_command_capacity <= usize::MAX / FRAME_SAMPLES,
                    FRAME_SAMPLES == 960,
            ;
        }
        vad_command_capacity * FRAME_SAMPLES
    };
    (pre_roll_samples as usize) + (confirmation_samples as usize) + queued + FRAME_SAMPLES
        + RECHUNK_SLACK_SAMPLES
}

/// The abstract state of a retention: the retained samples, the stream position of the
/// first of them, the stream position after the last, and the bound.
pub struct RetentionView<T> {
    pub samples: Seq<T>,
    pub first_sample: u64,
    pub cursor: u64,
    pub capacity: usize,
}

/// Keeps the most recent `capacity` samples of a capture stream, addressed by stream
/// position.
pub struct AutoPcmRetention<T> {
    samples: Vec<T>,
    first_sample: u64,
    cursor: u64,
    capacity: usize,
}

impl<T: Copy> AutoPcmRetention<T> {
    pub closed spec fn view(&self) -> RetentionView<T> {
        RetentionView {
            samples: self.samples@,
            first_sample: self.first_sample,
            cursor: self.cursor,
            capacity: self.capacity,
        }
    }

    /// The retained samples end at the cursor.
    pub open spec fn wf(&self) -> bool {
        self.view().first_sample + self.view().samples.len() == self.view().cursor
    }

    pub fn new(capacity: usize) -> (r: Self)
        ensures
            r.wf(),
            r.view().samples.len() == 0,
            r.view().first_sample == 0,
            r.view().cursor == 0,
            r.view().capacity == capacity,
    {
        AutoPcmRetention { samples: Vec::new(), first_sample: 0, cursor: 0, capacity }
    }

    /// Appends captured samples, then drops the oldest beyond the capacity.
    pub fn push(&mut self, pcm: &[T])
        requires
            old(self).wf(),
            old(self).view().cursor + pcm@.len() <= u64::MAX,
        ensures
            final(self).wf(),
            ({
                let all = old(self).view().samples + pcm@;
                let over = if all.len() > old(self).view().capacity {
                    all.len() - old(self).view().capacity
                } else {
                    0
                };
                &&& final(self).view().samples == all.skip(over)
                &&& final(self).view().first_sample == old(self).view().first_sample + over
                &&& final(self).view().cursor == old(self).view().cursor + pcm@.len()
                &&& final(self).view().capacity == old(self).view().capacity
            }),
    {
        let ghost all = self.samples@ + pcm@;
        let mut i: usize = 0;
        let ghost start = self.samples@;
        while i < pcm.len()
            invariant
                i <= pcm@.len(),
                self.samples@ == start + pcm@.take(i as int),
                start == old(self).samples@,
                self.first_sample == old(self).first_sample,
                self.cursor == old(self).cursor,
                self.capacity == old(self).capacity,
            decreases pcm.len() - i,
        {
            self.samples.push(pcm[i]);
            i = i + 1;
            assert(self.samples@ =~= start + pcm@.take(i as int));
        }
        assert(pcm@.take(i as int) =~= pcm@);
        self.cursor = self.cursor + pcm.len() as u64;
        if self.samples.len() > self.capacity {
            let over = self.samples.len() - self.capacity;
            let mut kept: Vec<T> = Vec::new();
            let mut k: usize = over;
            while k < self.samples.len()
                invariant
                    over <= k <= self.samples@.len(),
                    self.samples@ == all,
                    kept@ == all.subrange(over as int, k as int),
                decreases self.samples.len() - k,
            {
                kept.push(self.samples[k]);
                k = k + 1;
                assert(kept@ =~= all.subrange(over as int, k as int));
            }
            assert(kept@ =~= all.skip(over as int));
            self.samples = kept;
            self.first_sample = self.first_sample + over as u64;
        } else {
            assert(all.skip(0) =~= all);
        }
    }

    /// The retained samples from stream position `start_sample` on, when that position is
    /// still retained or is the cursor.
    pub fn range(&self, start_sample: u64) -> (r: Option<Vec<T>>)
        requires
            self.wf(),
        ensures
            match r {
                None => start_sample < self.view().first_sample || start_sample > self.view().cursor,
                Some(v) => self.view().first_sample <= start_sample <= self.view().cursor && v@
                    == self.view().samples.skip(start_sample - self.view().first_sample),
            },
    {
        if start_sample < self.first_sample || start_sample > self.cursor {
            return None;
        }
        let len = self.samples.len();
        let gap: u64 = start_sample - self.first_sample;
        assert(gap <= len);
        let offset = gap as usize;
        assert(offset == gap);
        let mut out: Vec<T> = Vec::new();
        let mut k: usize = offset;
        while k < self.samples.len()
            invariant
                offset <= k <= self.samples@.len(),
                offset as int == start_sample - self.first_sample,
                out@ == self.samples@.subrange(offset as int, k as int),
            decreases self.samples.len() - k,
        {
            out.push(self.samples[k]);
            k = k + 1;
            assert(out@ =~= self.samples@.subrange(offset as int, k as int));
        }
        assert(out@ =~= self.samples@.skip(offset as int));
        Some(out)
    }

    /// Forgets everything retained and restarts stream positions at zero.
    pub fn reset(&mut self)
        ensures
            final(self).wf(),
            final(self).view().samples.len() == 0,
            final(self).view().first_sample == 0,
            final(self).view().cursor == 0,
            final(self).view().capacity == old(self).view().capacity,
    {
        self.samples = Vec::new();
        self.first_sample = 0;
        self.cursor = 0;
    }
}

/// A retention never holds more than its capacity after a push, and its samples are
/// always the most recent ones before the cursor.
pub proof fn law_retention_keeps_latest_samples<T>(
    old_samples: Seq<T>,
    pcm: Seq<T>,
    capacity: usize,
)
    ensures
        ({
            let all = old_samples + pcm;
            let over = if all.len() > capacity {
                all.len() - capacity
            } else {
                0
            };
            &&& all.skip(over).len() <= if all.len() > capacity {
                capacity as int
            } else {
                all.len() as int
            }
            &&& forall|i: int|
                0 <= i < all.skip(over).len() ==> #[trigger] all.skip(over)[i] == all[over + i]
        }),
{
}

} // verus!
