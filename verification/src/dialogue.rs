//! Bounded, RAM-only dialogue history. Eviction always removes whole exchanges, oldest
//! first, and never the exchange of the turn being worked on.
use vstd::prelude::*;
use crate::llm::{
    calls_view, clone_calls, messages_view, ChatMessage, MessageView, ToolCall, ToolCallView,
};
use crate::prompt::{lemma_seq_sum_prefix, lemma_seq_sum_step, seq_sum};
use crate::session::TurnId;

verus! {

/// A completed tool round: the assistant's calls and one result per call.
pub struct RoundView {
    pub calls: Seq<ToolCallView>,
    pub results: Seq<MessageView>,
}

/// One user utterance with the tool rounds and the assistant reply it led to.
pub struct ExchangeView {
    pub turn_id: u64,
    pub user: Seq<char>,
    pub rounds: Seq<RoundView>,
    pub assistant: Option<Seq<char>>,
}

/// The abstract state of a `DialogueHistory`.
pub struct HistoryView {
    pub exchanges: Seq<ExchangeView>,
    /// The eviction target, in prompt messages.
    pub max_messages: nat,
    /// Committed user and assistant texts, in commit order.
    pub texts: Seq<Seq<char>>,
}

/// A round keeps the provider's boundary: every call is answered by one tool result.
pub open spec fn round_complete(r: RoundView) -> bool {
    &&& r.calls.len() > 0
    &&& r.calls.len() == r.results.len()
    &&& forall|i: int| 0 <= i < r.results.len() ==> #[trigger] r.results[i] is ToolResult
}

/// Prompt messages of one round: the call message and its results.
pub open spec fn round_count_of() -> spec_fn(RoundView) -> nat {
    |r: RoundView| 1 + r.results.len()
}

/// Prompt messages of one exchange.
pub open spec fn exchange_count(e: ExchangeView) -> nat {
    1 + seq_sum(e.rounds, round_count_of()) + if e.assistant is Some {
        1nat
    } else {
        0nat
    }
}

pub open spec fn exchange_count_of() -> spec_fn(ExchangeView) -> nat {
    |e: ExchangeView| exchange_count(e)
}

/// Prompt messages held by a history.
pub open spec fn message_count(xs: Seq<ExchangeView>) -> nat {
    seq_sum(xs, exchange_count_of())
}

/// Committed texts that leave with an evicted exchange: its user text and its reply.
pub open spec fn texts_removed(e: ExchangeView, available: nat) -> nat {
    let n: nat = if e.assistant is Some {
        2
    } else {
        1
    };
    if n <= available {
        n
    } else {
        available
    }
}

/// Drops the oldest exchanges while the history is over its target, more than one exchange
/// remains, and the oldest is not the exchange of `current`.
pub open spec fn evicted(xs: Seq<ExchangeView>, texts: Seq<Seq<char>>, max: nat, current: u64) -> (Seq<ExchangeView>, Seq<Seq<char>>)
    decreases xs.len(),
{
    if message_count(xs) > max && xs.len() > 1 && xs[0].turn_id != current {
        evicted(
            xs.drop_first(),
            texts.skip(texts_removed(xs[0], texts.len()) as int),
            max,
            current,
        )
    } else {
        (xs, texts)
    }
}

/// The history after an operation on `current`'s exchange, with eviction applied.
pub open spec fn settled(h: HistoryView, xs: Seq<ExchangeView>, texts: Seq<Seq<char>>, current: u64) -> HistoryView {
    let r = evicted(xs, texts, h.max_messages, current);
    HistoryView { exchanges: r.0, max_messages: h.max_messages, texts: r.1 }
}

/// The first exchange of turn `t` at or after position `from`.
pub open spec fn find_turn(xs: Seq<ExchangeView>, t: u64, from: int) -> Option<int>
    decreases xs.len() - from,
{
    if from < 0 || from >= xs.len() {
        None
    } else if xs[from].turn_id == t {
        Some(from)
    } else {
        find_turn(xs, t, from + 1)
    }
}

pub proof fn lemma_find_turn_bounds(xs: Seq<ExchangeView>, t: u64, from: int)
    ensures
        find_turn(xs, t, from) matches Some(i) ==> from <= i < xs.len() && xs[i].turn_id == t,
    decreases xs.len() - from,
{
    if !(from < 0 || from >= xs.len()) && xs[from].turn_id != t {
        lemma_find_turn_bounds(xs, t, from + 1);
    }
}

/// Prompt messages of a sequence of rounds.
pub open spec fn rounds_prompt(rs: Seq<RoundView>) -> Seq<MessageView>
    decreases rs.len(),
{
    if rs.len() == 0 {
        Seq::empty()
    } else {
        rounds_prompt(rs.drop_last()) + seq![MessageView::AssistantToolCalls(rs.last().calls)]
            + rs.last().results
    }
}

/// Prompt messages of one exchange: the user message, its tool rounds, then the reply.
pub open spec fn exchange_prompt(e: ExchangeView) -> Seq<MessageView> {
    seq![MessageView::User(e.user)] + rounds_prompt(e.rounds) + match e.assistant {
        Some(a) => seq![MessageView::AssistantText(a)],
        None => Seq::empty(),
    }
}

/// Prompt messages of a history, oldest exchange first.
pub open spec fn history_prompt(xs: Seq<ExchangeView>) -> Seq<MessageView>
    decreases xs.len(),
{
    if xs.len() == 0 {
        Seq::empty()
    } else {
        history_prompt(xs.drop_last()) + exchange_prompt(xs.last())
    }
}

/// The exchange a new user utterance opens.
pub open spec fn opened(t: u64, user: Seq<char>) -> ExchangeView {
    ExchangeView { turn_id: t, user, rounds: Seq::empty(), assistant: None }
}

/// A tool round built from its calls and results.
pub open spec fn round_of(calls: Seq<ToolCall>, results: Seq<ChatMessage>) -> RoundView {
    RoundView { calls: calls_view(calls), results: messages_view(results) }
}

/// Whether calls and results form a complete round.
pub open spec fn round_shape_ok(calls: Seq<ToolCall>, results: Seq<ChatMessage>) -> bool {
    round_complete(round_of(calls, results))
}

/// Eviction removes only a prefix of the history, never an exchange of the current turn,
/// never the newest exchange, and stops as soon as the history is within its target, down
/// to one exchange, or at the current turn's exchange.
pub proof fn law_eviction_drops_only_older_exchanges(
    xs: Seq<ExchangeView>,
    texts: Seq<Seq<char>>,
    max: nat,
    current: u64,
)
    ensures
        ({
            let r = evicted(xs, texts, max, current).0;
            &&& exists|k: int|
                0 <= k <= xs.len() && r == xs.skip(k) && forall|i: int|
                    0 <= i < k ==> #[trigger] xs[i].turn_id != current
            &&& message_count(r) <= max || r.len() <= 1 || r[0].turn_id == current
            &&& xs.len() > 0 ==> r.len() > 0 && r.last() == xs.last()
        }),
    decreases xs.len(),
{
    let r = evicted(xs, texts, max, current).0;
    if message_count(xs) > max && xs.len() > 1 && xs[0].turn_id != current {
        let rest = xs.drop_first();
        let rt = texts.skip(texts_removed(xs[0], texts.len()) as int);
        law_eviction_drops_only_older_exchanges(rest, rt, max, current);
        let k = choose|k: int|
            0 <= k <= rest.len() && r == rest.skip(k) && forall|i: int|
                0 <= i < k ==> #[trigger] rest[i].turn_id != current;
        assert(rest.skip(k) =~= xs.skip(k + 1));
        assert forall|i: int| 0 <= i < k + 1 implies #[trigger] xs[i].turn_id != current by {
            if i > 0 {
                assert(xs[i] == rest[i - 1]);
            }
        }
        assert(rest.last() == xs.last());
    } else {
        assert(r == xs.skip(0));
    }
}

/// A newly committed user utterance is always kept: it is the newest exchange afterwards.
pub proof fn law_new_exchange_survives_eviction(h: HistoryView, t: u64, user: Seq<char>)
    ensures
        ({
            let after = settled(h, h.exchanges.push(opened(t, user)), h.texts.push(user), t);
            after.exchanges.len() > 0 && after.exchanges.last() == opened(t, user)
        }),
{
    law_eviction_drops_only_older_exchanges(
        h.exchanges.push(opened(t, user)),
        h.texts.push(user),
        h.max_messages,
        t,
    );
}

proof fn lemma_rounds_count(rs: Seq<RoundView>)
    ensures
        rounds_prompt(rs).len() == seq_sum(rs, round_count_of()),
    decreases rs.len(),
{
    if rs.len() > 0 {
        lemma_rounds_count(rs.drop_last());
    }
}

/// The eviction target is counted in prompt messages: the count eviction compares with
/// the target is exactly the number of messages the history contributes to a prompt.
pub proof fn law_count_is_prompt_length(xs: Seq<ExchangeView>)
    ensures
        message_count(xs) == history_prompt(xs).len(),
    decreases xs.len(),
{
    if xs.len() > 0 {
        law_count_is_prompt_length(xs.drop_last());
        lemma_rounds_count(xs.last().rounds);
    }
}

fn push_message(out: &mut Vec<ChatMessage>, m: ChatMessage)
    ensures
        messages_view(final(out)@) == messages_view(old(out)@).push(m@),
{
    let ghost mv = m@;
    out.push(m);
    assert(messages_view(out@) =~= messages_view(old(out)@).push(mv));
}

struct CompletedToolRound {
    calls: Vec<ToolCall>,
    results: Vec<ChatMessage>,
}

impl View for CompletedToolRound {
    type V = RoundView;

    closed spec fn view(&self) -> RoundView {
        RoundView { calls: calls_view(self.calls@), results: messages_view(self.results@) }
    }
}

struct DialogueExchange {
    turn_id: TurnId,
    user: String,
    completed_rounds: Vec<CompletedToolRound>,
    assistant: Option<String>,
}

spec fn rounds_view(rs: Seq<CompletedToolRound>) -> Seq<RoundView> {
    rs.map_values(|r: CompletedToolRound| r@)
}

spec fn text_view(a: Option<String>) -> Option<Seq<char>> {
    match a {
        Some(s) => Some(s@),
        None => None,
    }
}

impl View for DialogueExchange {
    type V = ExchangeView;

    closed spec fn view(&self) -> ExchangeView {
        ExchangeView {
            turn_id: self.turn_id.spec_get(),
            user: self.user@,
            rounds: rounds_view(self.completed_rounds@),
            assistant: text_view(self.assistant),
        }
    }
}

spec fn exchanges_view(xs: Seq<DialogueExchange>) -> Seq<ExchangeView> {
    xs.map_values(|e: DialogueExchange| e@)
}

spec fn texts_view(ts: Seq<String>) -> Seq<Seq<char>> {
    ts.map_values(|s: String| s@)
}

/// Bounded dialogue history of one voice session.
pub struct DialogueHistory {
    exchanges: Vec<DialogueExchange>,
    max_messages: usize,
    texts: Vec<String>,
}

impl View for DialogueHistory {
    type V = HistoryView;

    closed spec fn view(&self) -> HistoryView {
        HistoryView {
            exchanges: exchanges_view(self.exchanges@),
            max_messages: self.max_messages as nat,
            texts: texts_view(self.texts@),
        }
    }
}

/// Every tool round held is complete.
pub open spec fn history_wf(h: HistoryView) -> bool {
    forall|i: int, j: int|
        0 <= i < h.exchanges.len() && 0 <= j < h.exchanges[i].rounds.len() ==> round_complete(
            #[trigger] h.exchanges[i].rounds[j],
        )
}

fn drop_front(v: &mut Vec<String>, k: usize)
    requires
        k <= old(v)@.len(),
    ensures
        final(v)@ == old(v)@.skip(k as int),
{
    let mut dropped: usize = 0;
    while dropped < k
        invariant
            dropped <= k <= old(v)@.len(),
            v@ == old(v)@.skip(dropped as int),
        decreases k - dropped,
    {
        v.remove(0);
        dropped = dropped + 1;
        assert(v@ =~= old(v)@.skip(dropped as int));
    }
}

impl DialogueHistory {
    /// An empty history that evicts down to `max_messages` prompt messages.
    pub fn new(max_messages: usize) -> (h: Self)
        ensures
            h@.exchanges.len() == 0,
            h@.max_messages == max_messages,
            h@.texts.len() == 0,
            history_wf(h@),
    {
        let h = DialogueHistory { exchanges: Vec::new(), max_messages, texts: Vec::new() };
        assert(h@.exchanges =~= Seq::<ExchangeView>::empty());
        h
    }

    /// Whether the history holds more than `limit` prompt messages.
    fn exceeds(&self, limit: usize) -> (b: bool)
        ensures
            b == (message_count(self@.exchanges) > limit),
    {
        let ghost xs = self@.exchanges;
        let mut total: usize = 0;
        let mut i: usize = 0;
        while i < self.exchanges.len()
            invariant
                xs == self@.exchanges,
                xs.len() == self.exchanges@.len(),
                i <= xs.len(),
                total == seq_sum(xs.take(i as int), exchange_count_of()),
                total <= limit,
            decreases self.exchanges.len() - i,
        {
            proof {
                lemma_seq_sum_step(xs, exchange_count_of(), i as int);
                lemma_seq_sum_prefix(xs, exchange_count_of(), i + 1);
            }
            let e = &self.exchanges[i];
            assert(xs[i as int] == e@);
            assert(total + exchange_count(e@) <= message_count(xs));
            let ghost rs = e@.rounds;
            let ghost rf = round_count_of();
            let mut part: usize = match total.checked_add(1) {
                Some(n) => n,
                None => return true,
            };
            if part > limit {
                return true;
            }
            let mut k: usize = 0;
            while k < e.completed_rounds.len()
                invariant
                    xs == self@.exchanges,
                    rs == e@.rounds,
                    rf == round_count_of(),
                    rs.len() == e.completed_rounds@.len(),
                    k <= rs.len(),
                    part == total + 1 + seq_sum(rs.take(k as int), rf),
                    part <= limit,
                    1 + seq_sum(rs, rf) <= exchange_count(e@),
                    total + exchange_count(e@) <= message_count(xs),
                decreases e.completed_rounds.len() - k,
            {
                proof {
                    lemma_seq_sum_step(rs, rf, k as int);
                    lemma_seq_sum_prefix(rs, rf, k + 1);
                }
                let round = &e.completed_rounds[k];
                assert(rs[k as int] == round@);
                let step = match round.results.len().checked_add(1) {
                    Some(n) => n,
                    None => return true,
                };
                part = match part.checked_add(step) {
                    Some(n) => n,
                    None => return true,
                };
                k = k + 1;
                if part > limit {
                    return true;
                }
            }
            assert(rs.take(k as int) =~= rs);
            if e.assistant.is_some() {
                part = match part.checked_add(1) {
                    Some(n) => n,
                    None => return true,
                };
            }
            total = part;
            i = i + 1;
            if total > limit {
                return true;
            }
        }
        assert(xs.take(i as int) =~= xs);
        false
    }

    fn find(&self, turn_id: TurnId) -> (r: Option<usize>)
        ensures
            match r {
                Some(i) => find_turn(self@.exchanges, turn_id.spec_get(), 0) == Some(i as int),
                None => find_turn(self@.exchanges, turn_id.spec_get(), 0) is None,
            },
    {
        let ghost xs = self@.exchanges;
        let mut i: usize = 0;
        while i < self.exchanges.len()
            invariant
                xs == self@.exchanges,
                xs.len() == self.exchanges@.len(),
                i <= xs.len(),
                find_turn(xs, turn_id.spec_get(), 0) == find_turn(xs, turn_id.spec_get(), i as int),
            decreases self.exchanges.len() - i,
        {
            assert(xs[i as int] == self.exchanges@[i as int]@);
            if self.exchanges[i].turn_id.get() == turn_id.get() {
                return Some(i);
            }
            i = i + 1;
        }
        None
    }

    /// Records the user text that opens `turn_id`'s exchange, then evicts.
    pub fn commit_user(&mut self, turn_id: TurnId, text: String)
        requires
            history_wf(old(self)@),
        ensures
            history_wf(final(self)@),
            final(self)@ == settled(
                old(self)@,
                old(self)@.exchanges.push(opened(turn_id.spec_get(), text@)),
                old(self)@.texts.push(text@),
                turn_id.spec_get(),
            ),
    {
        let ghost before = self@;
        let exchange = DialogueExchange {
            turn_id,
            user: text.clone(),
            completed_rounds: Vec::new(),
            assistant: None,
        };
        assert(exchange@.rounds =~= Seq::<RoundView>::empty());
        self.exchanges.push(exchange);
        self.texts.push(text);
        proof {
            assert(self@.exchanges =~= before.exchanges.push(opened(turn_id.spec_get(), text@)));
            assert(self@.texts =~= before.texts.push(text@));
            assert forall|i: int, j: int|
                0 <= i < self@.exchanges.len() && 0 <= j < self@.exchanges[i].rounds.len()
                    implies round_complete(#[trigger] self@.exchanges[i].rounds[j]) by {
                assert(self@.exchanges[i] == before.exchanges[i]);
            }
        }
        self.evict(turn_id);
    }

    /// Records the assistant reply of `turn_id`'s exchange, then evicts; without such an
    /// exchange nothing changes.
    pub fn commit_assistant(&mut self, turn_id: TurnId, text: String)
        requires
            history_wf(old(self)@),
        ensures
            history_wf(final(self)@),
            match find_turn(old(self)@.exchanges, turn_id.spec_get(), 0) {
                None => final(self)@ == old(self)@,
                Some(i) => final(self)@ == settled(
                    old(self)@,
                    old(self)@.exchanges.update(
                        i,
                        ExchangeView { assistant: Some(text@), ..old(self)@.exchanges[i] },
                    ),
                    old(self)@.texts.push(text@),
                    turn_id.spec_get(),
                ),
            },
    {
        let ghost before = self@;
        let i = match self.find(turn_id) {
            Some(i) => i,
            None => return,
        };
        proof {
            lemma_find_turn_bounds(before.exchanges, turn_id.spec_get(), 0);
        }
        let mut exchange = self.exchanges.remove(i);
        exchange.assistant = Some(text.clone());
        let ghost changed = exchange@;
        self.exchanges.insert(i, exchange);
        self.texts.push(text);
        proof {
            assert(changed == ExchangeView { assistant: Some(text@), ..before.exchanges[i as int] });
            assert(self@.exchanges =~= before.exchanges.update(i as int, changed));
            assert(self@.texts =~= before.texts.push(text@));
            assert forall|a: int, j: int|
                0 <= a < self@.exchanges.len() && 0 <= j < self@.exchanges[a].rounds.len()
                    implies round_complete(#[trigger] self@.exchanges[a].rounds[j]) by {
                assert(self@.exchanges[a].rounds == before.exchanges[a].rounds);
            }
        }
        self.evict(turn_id);
    }

    /// Adds a completed tool round to `turn_id`'s exchange, then evicts. Refused, with
    /// nothing changed, unless every call has exactly one tool result and the exchange exists.
    pub fn append_completed_round(
        &mut self,
        turn_id: TurnId,
        calls: Vec<ToolCall>,
        results: Vec<ChatMessage>,
    ) -> (accepted: bool)
        requires
            history_wf(old(self)@),
        ensures
            history_wf(final(self)@),
            accepted == (round_shape_ok(calls@, results@) && find_turn(
                old(self)@.exchanges,
                turn_id.spec_get(),
                0,
            ) is Some),
            !accepted ==> final(self)@ == old(self)@,
            accepted ==> ({
                let i = find_turn(old(self)@.exchanges, turn_id.spec_get(), 0).unwrap();
                final(self)@ == settled(
                    old(self)@,
                    old(self)@.exchanges.update(
                        i,
                        ExchangeView {
                            rounds: old(self)@.exchanges[i].rounds.push(round_of(calls@, results@)),
                            ..old(self)@.exchanges[i]
                        },
                    ),
                    old(self)@.texts,
                    turn_id.spec_get(),
                )
            }),
    {
        let ghost before = self@;
        let ghost round = round_of(calls@, results@);
        if calls.len() == 0 || calls.len() != results.len() {
            return false;
        }
        let mut k: usize = 0;
        while k < results.len()
            invariant
                k <= results@.len(),
                self@ == before,
                history_wf(before),
                round == round_of(calls@, results@),
                forall|j: int| 0 <= j < k ==> #[trigger] results@[j]@ is ToolResult,
            decreases results.len() - k,
        {
            match &results[k] {
                ChatMessage::ToolResult { .. } => {},
                _ => {
                    assert(!(round.results[k as int] is ToolResult));
                    return false;
                },
            }
            k = k + 1;
        }
        assert(round_complete(round)) by {
            assert forall|j: int| 0 <= j < round.results.len() implies #[trigger] round.results[j] is ToolResult by {
                assert(round.results[j] == results@[j]@);
            }
        }
        let i = match self.find(turn_id) {
            Some(i) => i,
            None => return false,
        };
        proof {
            lemma_find_turn_bounds(before.exchanges, turn_id.spec_get(), 0);
        }
        let mut exchange = self.exchanges.remove(i);
        let ghost rounds_before = exchange@.rounds;
        let completed = CompletedToolRound { calls, results };
        assert(completed@ == round);
        exchange.completed_rounds.push(completed);
        assert(exchange@.rounds =~= rounds_before.push(round));
        let ghost changed = exchange@;
        self.exchanges.insert(i, exchange);
        proof {
            assert(self@.exchanges =~= before.exchanges.update(i as int, changed));
            assert forall|a: int, j: int|
                0 <= a < self@.exchanges.len() && 0 <= j < self@.exchanges[a].rounds.len()
                    implies round_complete(#[trigger] self@.exchanges[a].rounds[j]) by {
                if a != i {
                    assert(self@.exchanges[a] == before.exchanges[a]);
                } else if j < rounds_before.len() {
                    assert(self@.exchanges[a].rounds[j] == before.exchanges[a].rounds[j]);
                }
            }
        }
        self.evict(turn_id);
        true
    }

    /// The prompt messages of the whole history, when `turn_id` owns the newest exchange.
    pub fn messages_for_prompt(&self, turn_id: TurnId) -> (r: Option<Vec<ChatMessage>>)
        ensures
            match r {
                None => self@.exchanges.len() == 0 || self@.exchanges.last().turn_id
                    != turn_id.spec_get(),
                Some(v) => self@.exchanges.len() > 0 && self@.exchanges.last().turn_id
                    == turn_id.spec_get() && messages_view(v@) == history_prompt(self@.exchanges),
            },
    {
        let ghost xs = self@.exchanges;
        let n = self.exchanges.len();
        if n == 0 {
            return None;
        }
        assert(xs.last() == self.exchanges@[n - 1]@);
        if self.exchanges[n - 1].turn_id.get() != turn_id.get() {
            return None;
        }
        let mut out: Vec<ChatMessage> = Vec::new();
        let mut i: usize = 0;
        assert(messages_view(out@) =~= history_prompt(xs.take(0)));
        while i < n
            invariant
                xs == self@.exchanges,
                n == xs.len(),
                i <= n,
                messages_view(out@) == history_prompt(xs.take(i as int)),
            decreases n - i,
        {
            let e = &self.exchanges[i];
            let ghost ev = e@;
            assert(ev == xs[i as int]);
            let ghost start = messages_view(out@);
            push_message(&mut out, ChatMessage::User { content: e.user.clone() });
            let ghost rs = ev.rounds;
            let mut k: usize = 0;
            assert(rounds_prompt(rs.take(0)) =~= Seq::<MessageView>::empty());
            assert(messages_view(out@) =~= start + seq![MessageView::User(ev.user)] + rounds_prompt(rs.take(0)));
            while k < e.completed_rounds.len()
                invariant
                    ev == e@,
                    rs == ev.rounds,
                    rs.len() == e.completed_rounds@.len(),
                    k <= rs.len(),
                    messages_view(out@) == start + seq![MessageView::User(ev.user)] + rounds_prompt(rs.take(k as int)),
                decreases e.completed_rounds.len() - k,
            {
                let round = &e.completed_rounds[k];
                assert(rs[k as int] == round@);
                let ghost mid = messages_view(out@);
                push_message(&mut out, ChatMessage::AssistantToolCalls { calls: clone_calls(&round.calls) });
                let mut j: usize = 0;
                assert(round@.results.take(0) =~= Seq::<MessageView>::empty());
                while j < round.results.len()
                    invariant
                        j <= round.results@.len(),
                        messages_view(out@) == mid + seq![MessageView::AssistantToolCalls(round@.calls)] + round@.results.take(j as int),
                    decreases round.results.len() - j,
                {
                    let copy = round.results[j].clone();
                    push_message(&mut out, copy);
                    j = j + 1;
                    assert(messages_view(out@) =~= mid + seq![MessageView::AssistantToolCalls(round@.calls)] + round@.results.take(j as int));
                }
                assert(round@.results.take(j as int) =~= round@.results);
                k = k + 1;
                assert(rs.take(k as int).drop_last() =~= rs.take(k - 1));
                assert(messages_view(out@) =~= start + seq![MessageView::User(ev.user)] + rounds_prompt(rs.take(k as int)));
            }
            assert(rs.take(k as int) =~= rs);
            match &e.assistant {
                Some(a) => {
                    push_message(&mut out, ChatMessage::AssistantText { content: a.clone() });
                },
                None => {},
            }
            assert(messages_view(out@) =~= start + exchange_prompt(ev));
            i = i + 1;
            assert(xs.take(i as int).drop_last() =~= xs.take(i - 1));
        }
        assert(xs.take(n as int) =~= xs);
        Some(out)
    }

    /// The committed user and assistant texts still held, oldest first.
    pub fn messages(&self) -> (r: &[String])
        ensures
            r@.map_values(|s: String| s@) == self@.texts,
    {
        self.texts.as_slice()
    }

    /// Evicts whole exchanges, oldest first, as `evicted` describes.
    fn evict(&mut self, current: TurnId)
        requires
            history_wf(old(self)@),
        ensures
            final(self)@ == settled(old(self)@, old(self)@.exchanges, old(self)@.texts, current.spec_get()),
            history_wf(final(self)@),
    {
        let ghost target = evicted(self@.exchanges, self@.texts, self@.max_messages, current.spec_get());
        loop
            invariant
                evicted(self@.exchanges, self@.texts, self@.max_messages, current.spec_get())
                    == target,
                self@.max_messages == old(self)@.max_messages,
                history_wf(self@),
            ensures
                history_wf(self@),
                self@.exchanges == target.0,
                self@.texts == target.1,
                self@.max_messages == old(self)@.max_messages,
            decreases self.exchanges.len(),
        {
            let over = self.exceeds(self.max_messages);
            if !over || self.exchanges.len() <= 1 {
                break;
            }
            if self.exchanges[0].turn_id.get() == current.get() {
                break;
            }
            let ghost before = self@;
            assert(evicted(before.exchanges, before.texts, before.max_messages, current.spec_get())
                == evicted(before.exchanges.drop_first(), before.texts.skip(texts_removed(before.exchanges[0], before.texts.len()) as int), before.max_messages, current.spec_get()));
            let removed = self.exchanges.remove(0);
            assert(exchanges_view(self.exchanges@) =~= before.exchanges.drop_first());
            let n: usize = if removed.assistant.is_some() {
                2
            } else {
                1
            };
            let k: usize = if n <= self.texts.len() {
                n
            } else {
                self.texts.len()
            };
            drop_front(&mut self.texts, k);
            assert(texts_view(self.texts@) =~= before.texts.skip(k as int));
            proof {
                assert(removed@ == before.exchanges[0]);
                assert(self@.exchanges == before.exchanges.drop_first());
                assert(self@.texts == before.texts.skip(texts_removed(before.exchanges[0], before.texts.len()) as int));
                assert forall|i: int, j: int|
                    0 <= i < self@.exchanges.len() && 0 <= j < self@.exchanges[i].rounds.len()
                        implies round_complete(#[trigger] self@.exchanges[i].rounds[j]) by {
                    assert(self@.exchanges[i] == before.exchanges[i + 1]);
                }
            }
        }
    }
}

} // verus!
