//! Voice session vocabulary: phases, turn identities, admission limits, cancellation
//! generations and outbound messages.
use vstd::prelude::*;
use crate::protocol::{ClientMessage, ListenMode};
use crate::unicode::{chars_of, string_of, trim, trim_chars};

verus! {

#[derive(Clone, Copy, Debug, PartialEq, Eq, Structural)]
pub enum SessionPhase {
    Ready,
    Listening,
    Processing,
    Closed,
}

/// What reader tasks hand to the session.
#[derive(Debug)]
pub enum SessionEvent {
    ClientMessage(ClientMessage),
    ClientAudio(Vec<u8>),
}

/// Identity of one accepted active turn; never zero.
#[derive(Clone, Copy, Debug, PartialEq, Eq, Structural, Hash, PartialOrd, Ord)]
pub struct TurnId(u64);

impl TurnId {
    #[verifier::type_invariant]
    spec fn nonzero(self) -> bool {
        self.0 != 0
    }

    pub closed spec fn spec_get(self) -> u64 {
        self.0
    }

    /// A turn identity for a nonzero value.
    pub fn new(value: u64) -> (r: Option<Self>)
        ensures
            value == 0 <==> r is None,
            r matches Some(t) ==> t.spec_get() == value,
    {
        if value == 0 {
            None
        } else {
            Some(TurnId(value))
        }
    }

    pub fn get(self) -> (v: u64)
        ensures
            v == self.spec_get(),
            v != 0,
    {
        proof {
            use_type_invariant(&self);
        }
        self.0
    }
}

/// Admission control for active turns: at most `capacity` turns hold a permit at once.
pub struct ActiveTurnLimiter {
    capacity: usize,
    active: usize,
}

impl ActiveTurnLimiter {
    #[verifier::type_invariant]
    spec fn bounded(self) -> bool {
        0 < self.capacity && self.active <= self.capacity
    }

    pub closed spec fn spec_capacity(&self) -> nat {
        self.capacity as nat
    }

    /// Turns currently admitted.
    pub closed spec fn spec_active(&self) -> nat {
        self.active as nat
    }

    pub fn new(capacity: usize) -> (l: Self)
        requires
            capacity > 0,
        ensures
            l.spec_capacity() == capacity,
            l.spec_active() == 0,
    {
        ActiveTurnLimiter { capacity, active: 0 }
    }

    /// Admits one more turn when below capacity.
    pub fn try_acquire(&mut self) -> (admitted: bool)
        ensures
            admitted == (old(self).spec_active() < old(self).spec_capacity()),
            final(self).spec_capacity() == old(self).spec_capacity(),
            final(self).spec_active() == if admitted {
                old(self).spec_active() + 1
            } else {
                old(self).spec_active()
            },
            final(self).spec_active() <= final(self).spec_capacity(),
    {
        proof {
            use_type_invariant(&*self);
        }
        if self.active < self.capacity {
            self.active = self.active + 1;
            true
        } else {
            false
        }
    }

    /// Returns the permit of one admitted turn.
    pub fn release(&mut self)
        requires
            old(self).spec_active() > 0,
        ensures
            final(self).spec_capacity() == old(self).spec_capacity(),
            final(self).spec_active() == old(self).spec_active() - 1,
    {
        proof {
            use_type_invariant(&*self);
        }
        self.active = self.active - 1;
    }

    pub fn active(&self) -> (n: usize)
        ensures
            n == self.spec_active(),
    {
        self.active
    }
}

/// The invalidation mark after invalidating `generation`.
pub open spec fn invalidated_after(mark: u64, generation: u64) -> u64 {
    if generation > mark {
        generation
    } else {
        mark
    }
}

/// Whether a gate with invalidation mark `mark` delivers `generation`.
pub open spec fn gate_admits(mark: u64, generation: u64) -> bool {
    generation > mark
}

/// The outbound linearization point for turn-scoped delivery: only generations above the
/// most recently invalidated one are delivered.
#[derive(Debug)]
pub struct GenerationGate {
    invalidated_through: u64,
}

impl GenerationGate {
    /// The highest generation invalidated so far.
    pub closed spec fn spec_invalidated(&self) -> u64 {
        self.invalidated_through
    }

    pub fn new() -> (g: Self)
        ensures
            g.spec_invalidated() == 0,
    {
        GenerationGate { invalidated_through: 0 }
    }

    /// Invalidates `generation` and everything below it.
    pub fn invalidate(&mut self, generation: u64)
        ensures
            final(self).spec_invalidated() == invalidated_after(old(self).spec_invalidated(), generation),
    {
        if generation > self.invalidated_through {
            self.invalidated_through = generation;
        }
    }

    pub fn admits(&self, generation: u64) -> (b: bool)
        ensures
            b == gate_admits(self.spec_invalidated(), generation),
    {
        generation > self.invalidated_through
    }
}

impl Default for GenerationGate {
    fn default() -> (g: Self)
        ensures
            g.spec_invalidated() == 0,
    {
        GenerationGate::new()
    }
}

/// The invalidation mark after invalidating each generation of `gs` in turn, from `mark`.
pub open spec fn invalidated_all(mark: u64, gs: Seq<u64>) -> u64
    decreases gs.len(),
{
    if gs.len() == 0 {
        mark
    } else {
        invalidated_after(invalidated_all(mark, gs.drop_last()), gs.last())
    }
}

proof fn lemma_invalidated_all_is_max(mark: u64, gs: Seq<u64>)
    ensures
        invalidated_all(mark, gs) >= mark,
        forall|i: int| 0 <= i < gs.len() ==> invalidated_all(mark, gs) >= #[trigger] gs[i],
        invalidated_all(mark, gs) == mark || gs.contains(invalidated_all(mark, gs)),
    decreases gs.len(),
{
    if gs.len() > 0 {
        let d = gs.drop_last();
        lemma_invalidated_all_is_max(mark, d);
        assert forall|i: int| 0 <= i < gs.len() implies invalidated_all(mark, gs) >= #[trigger] gs[i] by {
            if i < gs.len() - 1 {
                assert(gs[i] == d[i]);
            }
        }
        if invalidated_all(mark, d) != mark && invalidated_all(mark, gs) == invalidated_all(mark, d) {
            let j = choose|j: int| 0 <= j < d.len() && d[j] == invalidated_all(mark, d);
            assert(gs[j] == d[j]);
        }
        if invalidated_all(mark, gs) == gs.last() {
            assert(gs[gs.len() - 1] == gs.last());
        }
    }
}

/// A fresh gate that has invalidated any generations, in any order, delivers exactly the
/// generations above all of them (and above zero): the mark is the largest generation
/// invalidated, so a later smaller invalidation never re-admits anything and the order of
/// the invalidations does not matter.
pub proof fn law_gate_admits_above_every_invalidation(gs: Seq<u64>, others: Seq<u64>, h: u64)
    ensures
        gate_admits(invalidated_all(0, gs), h) <==> (h > 0 && forall|i: int|
            0 <= i < gs.len() ==> h > #[trigger] gs[i]),
        gs.to_set() == others.to_set() ==> invalidated_all(0, gs) == invalidated_all(0, others),
{
    lemma_invalidated_all_is_max(0, gs);
    lemma_invalidated_all_is_max(0, others);
    let m = invalidated_all(0, gs);
    if m != 0 {
        let j = choose|j: int| 0 <= j < gs.len() && gs[j] == m;
        assert(gs[j] == m);
    }
    if gs.to_set() == others.to_set() {
        let n = invalidated_all(0, others);
        if m != 0 {
            let j = choose|j: int| 0 <= j < gs.len() && gs[j] == m;
            assert(gs.to_set().contains(gs[j]));
            assert(others.to_set().contains(m));
            let k = choose|k: int| 0 <= k < others.len() && others[k] == m;
            assert(n >= others[k]);
        }
        if n != 0 {
            let k = choose|k: int| 0 <= k < others.len() && others[k] == n;
            assert(others.to_set().contains(others[k]));
            assert(gs.to_set().contains(n));
            let j = choose|j: int| 0 <= j < gs.len() && gs[j] == n;
            assert(m >= gs[j]);
        }
    }
}

/// The turns a limiter holds after `n` acquisitions from `active`, with no release between.
pub open spec fn active_after_acquires(active: nat, capacity: nat, n: nat) -> nat
    decreases n,
{
    if n == 0 {
        active
    } else {
        let before = active_after_acquires(active, capacity, (n - 1) as nat);
        if before < capacity {
            before + 1
        } else {
            before
        }
    }
}

/// On a new limiter, with no release in between, the first `capacity` acquisitions are
/// admitted and every later one is refused: acquisition number `n` (from zero) is admitted
/// exactly when `n < capacity`.
pub proof fn law_limiter_admits_exactly_capacity(capacity: nat, n: nat)
    ensures
        active_after_acquires(0, capacity, n) == if n < capacity {
            n
        } else {
            capacity
        },
        (active_after_acquires(0, capacity, n) < capacity) <==> n < capacity,
    decreases n,
{
    if n > 0 {
        law_limiter_admits_exactly_capacity(capacity, (n - 1) as nat);
    }
}

/// The same law read on a limiter: when a limiter made with its capacity has since seen `n`
/// acquisitions and no release (its active count is `active_after_acquires(0, capacity, n)`),
/// the next `try_acquire` admits exactly when `n < capacity`, and the limiter it leaves has
/// seen `n + 1` acquisitions. Chaining `try_acquire` therefore admits the first `capacity`
/// calls and refuses every later one.
pub proof fn law_limiter_next_acquisition(l: ActiveTurnLimiter, n: nat)
    requires
        l.spec_active() == active_after_acquires(0, l.spec_capacity(), n),
    ensures
        (l.spec_active() < l.spec_capacity()) <==> n < l.spec_capacity(),
        (if l.spec_active() < l.spec_capacity() {
            l.spec_active() + 1
        } else {
            l.spec_active()
        }) == active_after_acquires(0, l.spec_capacity(), n + 1),
{
    law_limiter_admits_exactly_capacity(l.spec_capacity(), n);
    assert(active_after_acquires(0, l.spec_capacity(), n + 1) == if active_after_acquires(
        0,
        l.spec_capacity(),
        n,
    ) < l.spec_capacity() {
        active_after_acquires(0, l.spec_capacity(), n) + 1
    } else {
        active_after_acquires(0, l.spec_capacity(), n)
    });
}

/// Once `invalidated` has been invalidated, it and every older generation stay rejected
/// whatever is invalidated afterwards, while a generation above everything invalidated so far
/// is still admitted.
pub proof fn law_invalidation_is_permanent(start: u64, invalidated: u64, later: u64, probe: u64)
    ensures
        probe <= invalidated ==> !gate_admits(invalidated_after(invalidated_after(start, invalidated), later), probe),
        probe > invalidated_after(invalidated_after(start, invalidated), later) ==> gate_admits(
            invalidated_after(invalidated_after(start, invalidated), later),
            probe,
        ),
{
}

/// Whether acoustic barge-in may interrupt a playing turn.
#[derive(Clone, Copy, Debug, Default, PartialEq, Eq)]
pub struct BargeInPolicy {
    pub enabled: bool,
    pub trust_client_aec_feature: bool,
}

impl BargeInPolicy {
    /// Barge-in needs the feature enabled, trust in the client's echo cancellation, the
    /// client asserting it, and an automatic listening mode.
    pub fn allows(&self, client_aec_asserted: bool, mode: Option<ListenMode>) -> (b: bool)
        ensures
            b == (self.enabled && self.trust_client_aec_feature && client_aec_asserted && (mode
                == Some(ListenMode::Auto) || mode == Some(ListenMode::Realtime))),
    {
        self.enabled && self.trust_client_aec_feature && client_aec_asserted && match mode {
            Some(ListenMode::Auto) => true,
            Some(ListenMode::Realtime) => true,
            _ => false,
        }
    }
}

/// How the writer closed a turn.
#[derive(Clone, Debug, PartialEq, Eq)]
pub enum WriterTurnOutcome {
    Normal,
    Aborted { start_was_sent: bool, stop_was_sent: bool },
}

/// What the socket writer reports back to the session.
#[derive(Clone, Debug, PartialEq, Eq)]
pub enum WriterEvent {
    TurnClosed { turn_id: TurnId, outcome: WriterTurnOutcome },
    Failed { turn_id: Option<TurnId> },
}

/// A message queued for the socket writer.
#[derive(Clone, Debug, PartialEq, Eq)]
pub enum OutboundMessage {
    Text(String),
    TurnText { generation: u64, turn_id: TurnId, text: String },
    BeginTurn { generation: u64, turn_id: TurnId, text: String },
    FinishTurn { turn_id: TurnId, text: String },
    AbortTurn { turn_id: TurnId, text: String },
    Binary { generation: u64, turn_id: TurnId, packet: Vec<u8> },
    Close(u16),
}

impl OutboundMessage {
    /// The text of a text message; binary and close messages have none.
    pub fn as_text(&self) -> (r: Option<&str>)
        ensures
            match *self {
                OutboundMessage::Text(t) => r matches Some(s) && s@ == t@,
                OutboundMessage::TurnText { text, .. } => r matches Some(s) && s@ == text@,
                OutboundMessage::BeginTurn { text, .. } => r matches Some(s) && s@ == text@,
                OutboundMessage::FinishTurn { text, .. } => r matches Some(s) && s@ == text@,
                OutboundMessage::AbortTurn { text, .. } => r matches Some(s) && s@ == text@,
                OutboundMessage::Binary { .. } => r is None,
                OutboundMessage::Close(_) => r is None,
            },
    {
        match self {
            OutboundMessage::Text(text) => Some(text.as_str()),
            OutboundMessage::TurnText { text, .. } => Some(text.as_str()),
            OutboundMessage::BeginTurn { text, .. } => Some(text.as_str()),
            OutboundMessage::FinishTurn { text, .. } => Some(text.as_str()),
            OutboundMessage::AbortTurn { text, .. } => Some(text.as_str()),
            OutboundMessage::Binary { .. } => None,
            OutboundMessage::Close(_) => None,
        }
    }
}

/// The most Unicode scalars a detect command may carry.
pub const MAX_DETECT_TEXT_SCALARS: usize = 4096;

/// A detect command's text, trimmed; empty or over-long text is refused.
pub fn normalize_detect_text(input: String) -> (r: Option<String>)
    ensures
        match r {
            Some(s) => s@ == trim(input@) && 0 < s@.len() <= MAX_DETECT_TEXT_SCALARS,
            None => trim(input@).len() == 0 || trim(input@).len() > MAX_DETECT_TEXT_SCALARS,
        },
{
    let v = chars_of(input.as_str());
    let t = trim_chars(&v);
    if t.len() == 0 || t.len() > MAX_DETECT_TEXT_SCALARS {
        return None;
    }
    Some(string_of(&t))
}

/// Events the speech output raises for the session.
#[derive(Clone, Debug, PartialEq, Eq)]
pub enum SpeechOutputEvent {
    SegmentReady { text: String },
    Started,
    AudioPacket(Vec<u8>),
    Drained,
}

#[derive(Clone, Copy, Debug, PartialEq, Eq)]
pub enum SpeechOutputError {
    Backpressure,
    Synthesis,
}

} // verus!
