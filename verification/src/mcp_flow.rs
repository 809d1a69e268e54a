//! Decisions of a session's device tool channel: discovering the device's tools page by
//! page, keeping the requests that await an answer, and running the tool calls of a model
//! turn one at a time.
//!
//! `DeviceMcpFlow` holds the channel's bookkeeping as plain values. Its methods return the
//! request the caller must send (wrapped with `mcp_envelope`); the caller reports a request
//! the writer admitted with `record_request`, and one it refused by failing discovery (for
//! discovery requests) or the turn's delivery (for tool calls).
use vstd::prelude::*;
use crate::llm::{ChatMessage, ToolCall};
use crate::mcp::{failed_result, tool_failure_result, McpOutgoing};
use crate::unicode::text_eq;
use crate::tools::{DiscoveredTool, LlmVisibleTool, McpRequestId, is_candidate, visible_from, visible_tools, visible_view};

verus! {

/// What a request awaiting an answer was for.
#[derive(Debug, PartialEq, Eq)]
pub enum PendingKind {
    Initialize,
    ToolsList,
    ToolCall(ToolCall),
}

/// A request awaiting the device's answer; `generation` is set for requests that belong to
/// a turn.
#[derive(Debug, PartialEq, Eq)]
pub struct PendingRequest {
    pub id: McpRequestId,
    pub generation: Option<u64>,
    pub kind: PendingKind,
}

/// The tool calls of one model turn: `next` is the first call not yet sent, `results` the
/// answers so far, in call order.
#[derive(Debug)]
pub struct ToolBatch {
    pub generation: u64,
    pub calls: Vec<ToolCall>,
    pub next: usize,
    pub results: Vec<ChatMessage>,
}

/// The bookkeeping of a session's device tool channel.
#[derive(Debug)]
pub struct DeviceMcpFlow {
    pub enabled: bool,
    pub ready: bool,
    pub failed: bool,
    /// The last request id handed out.
    pub next_request_id: u64,
    /// Tool names a deployment allows; empty allows every tool that is not dangerous.
    pub allowed_tools: Vec<String>,
    pub discovered: Vec<DiscoveredTool>,
    pub visible: Vec<LlmVisibleTool>,
    pub pending: Vec<PendingRequest>,
    pub batch: Option<ToolBatch>,
}

/// What a request that timed out means.
#[derive(Debug, PartialEq, Eq)]
pub enum Expired {
    /// No such request is awaited.
    Unknown,
    /// A discovery request timed out: discovery failed.
    DiscoveryFailed,
    /// A tool call timed out: complete it with the `timeout` failure through
    /// `tool_call_completed`.
    ToolCall(ToolCall),
}

/// The requests of `s` without those for `id`, in order.
pub open spec fn without_id(s: Seq<PendingRequest>, id: McpRequestId) -> Seq<PendingRequest>
    decreases s.len(),
{
    if s.len() == 0 {
        s
    } else if s.last().id == id {
        without_id(s.drop_last(), id)
    } else {
        without_id(s.drop_last(), id).push(s.last())
    }
}

/// The position of the first request for `id` in `s`, or `s.len()` when there is none.
pub open spec fn first_for(s: Seq<PendingRequest>, id: McpRequestId) -> int
    decreases s.len(),
{
    if s.len() == 0 {
        0
    } else if s[0].id == id {
        0
    } else {
        1 + first_for(s.drop_first(), id)
    }
}

proof fn lemma_first_for(s: Seq<PendingRequest>, id: McpRequestId)
    ensures
        0 <= first_for(s, id) <= s.len(),
        forall|j: int| 0 <= j < first_for(s, id) ==> s[j].id != id,
        first_for(s, id) < s.len() ==> s[first_for(s, id)].id == id,
    decreases s.len(),
{
    if s.len() > 0 && s[0].id != id {
        lemma_first_for(s.drop_first(), id);
        assert forall|j: int| 0 <= j < first_for(s, id) implies s[j].id != id by {
            if j > 0 {
                assert(s[j] == s.drop_first()[j - 1]);
            }
        }
        if first_for(s, id) < s.len() {
            assert(s[first_for(s, id)] == s.drop_first()[first_for(s.drop_first(), id)]);
        }
    }
}

proof fn lemma_first_for_unique(s: Seq<PendingRequest>, id: McpRequestId, i: int)
    requires
        0 <= i <= s.len(),
        forall|j: int| 0 <= j < i ==> s[j].id != id,
        i < s.len() ==> s[i].id == id,
    ensures
        first_for(s, id) == i,
    decreases s.len(),
{
    lemma_first_for(s, id);
    if first_for(s, id) < i {
        assert(s[first_for(s, id)].id == id);
    }
    if i < first_for(s, id) {
        assert(s[i].id != id);
    }
}

/// What a model turn's tool batch does next.
#[derive(Debug)]
pub enum BatchStep {
    /// The channel is not ready or the model asked for no call: the turn's delivery fails.
    FailDelivery,
    /// Send this `tools/call` on the turn's lane. An admitted one is reported with
    /// `record_request(id, Some(generation), PendingKind::ToolCall(call))`; a refused one
    /// fails the turn's delivery.
    Send { request: McpOutgoing, call: ToolCall },
    /// Every call is answered: the batch, with its results in call order, goes back to the
    /// turn.
    Finished(ToolBatch),
    /// There is no batch.
    Idle,
}

/// How the answers of a tool batch reach the user.
#[derive(Clone, Copy, Debug, PartialEq, Eq, Structural)]
pub enum McpResultDelivery {
    /// The model reads the answers and speaks its reply.
    LlmThenTts,
    /// The answers' text is spoken as it is.
    DirectTts,
    /// Nothing is said.
    Silent,
}

/// The delivery of two answers together: the model's reply wins over speaking the answers
/// directly, which wins over silence.
pub open spec fn combined(a: McpResultDelivery, b: McpResultDelivery) -> McpResultDelivery {
    if a == McpResultDelivery::LlmThenTts || b == McpResultDelivery::LlmThenTts {
        McpResultDelivery::LlmThenTts
    } else if a == McpResultDelivery::DirectTts || b == McpResultDelivery::DirectTts {
        McpResultDelivery::DirectTts
    } else {
        McpResultDelivery::Silent
    }
}

/// The position of the first tool offered under `name` in `v`, or `v.len()`.
pub open spec fn first_offered(v: Seq<LlmVisibleTool>, name: Seq<char>) -> int
    decreases v.len(),
{
    if v.len() == 0 {
        0
    } else if v[0].llm_name@ == name {
        0
    } else {
        1 + first_offered(v.drop_first(), name)
    }
}

proof fn lemma_first_offered_unique(v: Seq<LlmVisibleTool>, name: Seq<char>, i: int)
    requires
        0 <= i <= v.len(),
        forall|j: int| 0 <= j < i ==> v[j].llm_name@ != name,
        i < v.len() ==> v[i].llm_name@ == name,
    ensures
        first_offered(v, name) == i,
    decreases v.len(),
{
    if v.len() > 0 && i > 0 {
        assert forall|j: int| 0 <= j < i - 1 implies v.drop_first()[j].llm_name@ != name by {
            assert(v.drop_first()[j] == v[j + 1]);
        }
        if i - 1 < v.len() - 1 {
            assert(v.drop_first()[i - 1] == v[i]);
        }
        lemma_first_offered_unique(v.drop_first(), name, i - 1);
    }
}

/// The delivery a deployment sets for the tool `original`, or `fallback`.
pub open spec fn override_for(
    overrides: Seq<(String, McpResultDelivery)>,
    original: Seq<char>,
    fallback: McpResultDelivery,
) -> McpResultDelivery
    decreases overrides.len(),
{
    if overrides.len() == 0 {
        fallback
    } else if overrides[0].0@ == original {
        overrides[0].1
    } else {
        override_for(overrides.drop_first(), original, fallback)
    }
}

/// The delivery of a call's answer: its offered tool's setting, or `fallback`.
pub open spec fn call_delivery(
    visible: Seq<LlmVisibleTool>,
    overrides: Seq<(String, McpResultDelivery)>,
    fallback: McpResultDelivery,
    name: Seq<char>,
) -> McpResultDelivery {
    let k = first_offered(visible, name);
    if k < visible.len() {
        override_for(overrides, visible[k].original_name@, fallback)
    } else {
        fallback
    }
}

/// The delivery of a whole batch, combined over its calls from silence.
pub open spec fn batch_delivery(
    visible: Seq<LlmVisibleTool>,
    overrides: Seq<(String, McpResultDelivery)>,
    fallback: McpResultDelivery,
    calls: Seq<ToolCall>,
) -> McpResultDelivery
    decreases calls.len(),
{
    if calls.len() == 0 {
        McpResultDelivery::Silent
    } else {
        combined(
            batch_delivery(visible, overrides, fallback, calls.drop_last()),
            call_delivery(visible, overrides, fallback, calls.last().name@),
        )
    }
}

fn find_offered(visible: &Vec<LlmVisibleTool>, name: &str) -> (k: usize)
    ensures
        k == first_offered(visible@, name@),
        k <= visible@.len(),
{
    let mut i: usize = 0;
    while i < visible.len()
        invariant
            i <= visible@.len(),
            forall|j: int| 0 <= j < i ==> visible@[j].llm_name@ != name@,
        decreases visible.len() - i,
    {
        if text_eq(visible[i].llm_name.as_str(), name) {
            proof {
                lemma_first_offered_unique(visible@, name@, i as int);
            }
            return i;
        }
        i = i + 1;
    }
    proof {
        lemma_first_offered_unique(visible@, name@, i as int);
    }
    i
}

fn find_override(overrides: &[(String, McpResultDelivery)], original: &str, fallback: McpResultDelivery) -> (d: McpResultDelivery)
    ensures
        d == override_for(overrides@, original@, fallback),
{
    let mut i: usize = 0;
    assert(overrides@.skip(0) =~= overrides@);
    while i < overrides.len()
        invariant
            i <= overrides@.len(),
            override_for(overrides@, original@, fallback) == override_for(
                overrides@.skip(i as int),
                original@,
                fallback,
            ),
        decreases overrides.len() - i,
    {
        assert(overrides@.skip(i as int).drop_first() =~= overrides@.skip(i + 1));
        assert(overrides@.skip(i as int)[0] == overrides@[i as int]);
        if text_eq(overrides[i].0.as_str(), original) {
            return overrides[i].1;
        }
        i = i + 1;
    }
    fallback
}

/// How the answers of `calls` reach the user: each call takes the setting of the tool it
/// names (`overrides`, by the device's tool name), or `fallback`; the batch takes the
/// strongest of them, the model's reply over direct speech over silence.
pub fn batch_result_delivery(
    visible: &Vec<LlmVisibleTool>,
    overrides: &[(String, McpResultDelivery)],
    fallback: McpResultDelivery,
    calls: &Vec<ToolCall>,
) -> (d: McpResultDelivery)
    ensures
        d == batch_delivery(visible@, overrides@, fallback, calls@),
{
    let mut d = McpResultDelivery::Silent;
    let mut i: usize = 0;
    while i < calls.len()
        invariant
            i <= calls@.len(),
            d == batch_delivery(visible@, overrides@, fallback, calls@.take(i as int)),
        decreases calls.len() - i,
    {
        let k = find_offered(visible, calls[i].name.as_str());
        let c = if k < visible.len() {
            find_override(overrides, visible[k].original_name.as_str(), fallback)
        } else {
            fallback
        };
        assert(calls@.take(i + 1).drop_last() =~= calls@.take(i as int));
        d = match (d, c) {
            (McpResultDelivery::LlmThenTts, _) => McpResultDelivery::LlmThenTts,
            (_, McpResultDelivery::LlmThenTts) => McpResultDelivery::LlmThenTts,
            (McpResultDelivery::DirectTts, _) => McpResultDelivery::DirectTts,
            (_, McpResultDelivery::DirectTts) => McpResultDelivery::DirectTts,
            _ => McpResultDelivery::Silent,
        };
        i = i + 1;
    }
    assert(calls@.take(i as int) =~= calls@);
    d
}

/// The requests of `s` that belong to no turn.
pub open spec fn unscoped(s: Seq<PendingRequest>) -> Seq<PendingRequest> {
    s.filter(|p: PendingRequest| p.generation is None)
}

/// The tool calls among the requests of `s`.
pub open spec fn tool_calls_of(s: Seq<PendingRequest>) -> Seq<PendingRequest> {
    s.filter(|p: PendingRequest| p.kind is ToolCall)
}

/// Whether a tool call's compact JSON arguments are an object.
pub open spec fn is_object_text(arguments: Seq<char>) -> bool {
    arguments.len() > 0 && arguments[0] == '{'
}

impl DeviceMcpFlow {
    /// `self` is `before` after discovery gave up.
    pub open spec fn gave_up_from(&self, before: &Self) -> bool {
        self.gave_up_with(before, before.pending@)
    }

    /// `self` is `before` after discovery gave up, with `pending` awaited just before.
    pub open spec fn gave_up_with(&self, before: &Self, pending: Seq<PendingRequest>) -> bool {
        &&& self.failed
        &&& !self.ready
        &&& self.visible@.len() == 0
        &&& self.pending@ == tool_calls_of(pending)
        &&& self.enabled == before.enabled
        &&& self.next_request_id == before.next_request_id
        &&& self.allowed_tools == before.allowed_tools
        &&& self.discovered == before.discovered
        &&& self.batch == before.batch
    }

    /// The call at the head of the batch, when the batch belongs to `generation` and has a
    /// call left to send.
    pub open spec fn head_call(&self, generation: u64) -> Option<ToolCall> {
        match self.batch {
            Some(b) => if b.generation == generation && b.next < b.calls@.len() {
                Some(b.calls@[b.next as int])
            } else {
                None
            },
            None => None,
        }
    }

    /// The head call can be sent: it names an offered tool, its arguments are an object, and
    /// a request id is left. Dispatching needs this; a caller checks it first.
    pub open spec fn head_sendable(&self, generation: u64) -> bool {
        match self.head_call(generation) {
            Some(c) => first_offered(self.visible@, c.name@) < self.visible@.len()
                && is_object_text(c.arguments@) && self.next_request_id < u64::MAX,
            None => true,
        }
    }

    /// `r` and `self` are what dispatching the batch of `before` for `generation` gives.
    pub open spec fn dispatched(&self, before: &Self, generation: u64, r: BatchStep) -> bool {
        match before.head_call(generation) {
            None => match before.batch {
                Some(b) => r == BatchStep::Finished(b) && *self == (DeviceMcpFlow { batch: None, ..*before }),
                None => r == BatchStep::Idle && *self == *before,
            },
            Some(c) => {
                let k = first_offered(before.visible@, c.name@);
                let id = McpRequestId((before.next_request_id + 1) as u64);
                let b = before.batch->0;
                &&& r == (BatchStep::Send {
                    request: McpOutgoing::ToolsCall {
                        id,
                        name: before.visible@[k].original_name,
                        arguments: c.arguments,
                    },
                    call: c,
                })
                &&& *self == (DeviceMcpFlow {
                    next_request_id: (before.next_request_id + 1) as u64,
                    batch: Some(ToolBatch { next: (b.next + 1) as usize, ..b }),
                    ..*before
                })
            },
        }
    }

    /// `self` is `before` with the next request id handed out.
    pub open spec fn took_id_from(&self, before: &Self) -> bool {
        &&& self.next_request_id == before.next_request_id + 1
        &&& self.enabled == before.enabled
        &&& self.ready == before.ready
        &&& self.failed == before.failed
        &&& self.allowed_tools == before.allowed_tools
        &&& self.discovered == before.discovered
        &&& self.visible == before.visible
        &&& self.pending == before.pending
        &&& self.batch == before.batch
    }

    /// Asks for the tools page at `cursor`, or gives discovery up when no request id is left.
    pub open spec fn page_request(&self, before: &Self, cursor: Option<String>, r: Option<McpOutgoing>) -> bool {
        if before.next_request_id < u64::MAX {
            r == Some(McpOutgoing::ToolsList { id: McpRequestId((before.next_request_id + 1) as u64), cursor })
                && self.took_id_from(before)
        } else {
            r is None && self.gave_up_from(before)
        }
    }

    /// A channel that has discovered nothing yet.
    pub fn new(enabled: bool, allowed_tools: Vec<String>) -> (f: Self)
        ensures
            f.enabled == enabled,
            !f.ready,
            !f.failed,
            f.next_request_id == 0,
            f.allowed_tools@ == allowed_tools@,
            f.discovered@.len() == 0,
            f.visible@.len() == 0,
            f.pending@.len() == 0,
            f.batch is None,
    {
        DeviceMcpFlow {
            enabled,
            ready: false,
            failed: false,
            next_request_id: 0,
            allowed_tools,
            discovered: Vec::new(),
            visible: Vec::new(),
            pending: Vec::new(),
            batch: None,
        }
    }

    /// Hands out the next request id; ids run out at the top of `u64`.
    fn take_request_id(&mut self) -> (r: Option<McpRequestId>)
        ensures
            old(self).next_request_id == u64::MAX ==> r is None && final(self).next_request_id
                == old(self).next_request_id,
            old(self).next_request_id < u64::MAX ==> r == Some(
                McpRequestId((old(self).next_request_id + 1) as u64),
            ) && final(self).next_request_id == old(self).next_request_id + 1,
            final(self).enabled == old(self).enabled,
            final(self).ready == old(self).ready,
            final(self).failed == old(self).failed,
            final(self).allowed_tools == old(self).allowed_tools,
            final(self).discovered == old(self).discovered,
            final(self).visible == old(self).visible,
            final(self).pending == old(self).pending,
            final(self).batch == old(self).batch,
    {
        match self.next_request_id.checked_add(1) {
            Some(n) => {
                self.next_request_id = n;
                Some(McpRequestId(n))
            },
            None => None,
        }
    }

    /// Discovery gives up: the channel is failed, offers no tools, and stops awaiting its
    /// discovery requests (tool calls already sent stay awaited).
    pub fn discovery_failed(&mut self)
        ensures
            final(self).failed,
            !final(self).ready,
            final(self).visible@.len() == 0,
            final(self).pending@ == tool_calls_of(old(self).pending@),
            final(self).enabled == old(self).enabled,
            final(self).next_request_id == old(self).next_request_id,
            final(self).allowed_tools == old(self).allowed_tools,
            final(self).discovered == old(self).discovered,
            final(self).batch == old(self).batch,
    {
        self.failed = true;
        self.ready = false;
        self.visible = Vec::new();
        let ghost before = self.pending@;
        let mut kept: Vec<PendingRequest> = Vec::new();
        let mut old_pending: Vec<PendingRequest> = Vec::new();
        std::mem::swap(&mut old_pending, &mut self.pending);
        let mut rest = old_pending;
        let mut i: usize = 0;
        let n = rest.len();
        while rest.len() > 0
            invariant
                i + rest@.len() == n,
                n == before.len(),
                rest@ == before.skip(i as int),
                kept@ == before.take(i as int).filter(|p: PendingRequest| p.kind is ToolCall),
            decreases rest.len(),
        {
            let p = rest.remove(0);
            proof {
                reveal(Seq::filter);
                assert(before.take(i + 1).drop_last() =~= before.take(i as int));
                assert(p == before[i as int]);
                assert(rest@ =~= before.skip(i + 1));
            }
            let keep = match p.kind {
                PendingKind::ToolCall(_) => true,
                _ => false,
            };
            if keep {
                kept.push(p);
            }
            i = i + 1;
        }
        assert(before.take(i as int) =~= before);
        self.pending = kept;
    }

    /// Starts discovery on an enabled channel that is neither ready nor failed: the caller
    /// sends the returned `initialize` request outside any turn. Without a request id left,
    /// discovery fails.
    pub fn begin_discovery(&mut self) -> (r: Option<McpOutgoing>)
        ensures
            !old(self).enabled || old(self).failed || old(self).ready ==> r is None && final(self).failed
                == old(self).failed && final(self).next_request_id == old(self).next_request_id,
            old(self).enabled && !old(self).failed && !old(self).ready ==> (if old(self).next_request_id
                < u64::MAX {
                r == Some(
                    McpOutgoing::Initialize { id: McpRequestId((old(self).next_request_id + 1) as u64) },
                ) && final(self).next_request_id == old(self).next_request_id + 1 && !final(self).failed
            } else {
                r is None && final(self).failed
            }),
            final(self).enabled == old(self).enabled,
            final(self).ready == old(self).ready,
            final(self).allowed_tools == old(self).allowed_tools,
            final(self).discovered == old(self).discovered,
            final(self).visible == old(self).visible,
            final(self).pending == old(self).pending,
            final(self).batch == old(self).batch,
    {
        if !self.enabled || self.failed || self.ready {
            return None;
        }
        match self.take_request_id() {
            Some(id) => Some(McpOutgoing::Initialize { id }),
            None => {
                self.failed = true;
                None
            },
        }
    }

    /// The writer admitted a request: it awaits its answer under `id`, replacing any
    /// request awaited under the same id.
    pub fn record_request(&mut self, id: McpRequestId, generation: Option<u64>, kind: PendingKind)
        ensures
            final(self).pending@ == without_id(old(self).pending@, id).push(
                PendingRequest { id, generation, kind },
            ),
            final(self).enabled == old(self).enabled,
            final(self).ready == old(self).ready,
            final(self).failed == old(self).failed,
            final(self).next_request_id == old(self).next_request_id,
            final(self).allowed_tools == old(self).allowed_tools,
            final(self).discovered == old(self).discovered,
            final(self).visible == old(self).visible,
            final(self).batch == old(self).batch,
    {
        let ghost before = self.pending@;
        let mut old_pending: Vec<PendingRequest> = Vec::new();
        std::mem::swap(&mut old_pending, &mut self.pending);
        let mut rest = old_pending;
        let mut kept: Vec<PendingRequest> = Vec::new();
        let mut i: usize = 0;
        let n = rest.len();
        while rest.len() > 0
            invariant
                i + rest@.len() == n,
                n == before.len(),
                rest@ == before.skip(i as int),
                kept@ == without_id(before.take(i as int), id),
            decreases rest.len(),
        {
            let p = rest.remove(0);
            proof {
                assert(before.take(i + 1).drop_last() =~= before.take(i as int));
                assert(p == before[i as int]);
                assert(rest@ =~= before.skip(i + 1));
            }
            if p.id != id {
                kept.push(p);
            }
            i = i + 1;
        }
        assert(before.take(i as int) =~= before);
        kept.push(PendingRequest { id, generation, kind });
        self.pending = kept;
    }

    /// Takes the request awaited under `id` off the list. A request of another turn than
    /// `generation` is dropped without effect; otherwise its purpose is returned for the
    /// caller to act on the answer.
    pub fn take_pending(&mut self, id: McpRequestId, generation: u64) -> (r: Option<PendingKind>)
        ensures
            ({
                let i = first_for(old(self).pending@, id);
                if i < old(self).pending@.len() {
                    &&& final(self).pending@ == old(self).pending@.remove(i)
                    &&& match old(self).pending@[i].generation {
                        Some(g) => if g != generation {
                            r is None
                        } else {
                            r == Some(old(self).pending@[i].kind)
                        },
                        None => r == Some(old(self).pending@[i].kind),
                    }
                } else {
                    r is None && final(self).pending@ == old(self).pending@
                }
            }),
            final(self).enabled == old(self).enabled,
            final(self).ready == old(self).ready,
            final(self).failed == old(self).failed,
            final(self).next_request_id == old(self).next_request_id,
            final(self).allowed_tools == old(self).allowed_tools,
            final(self).discovered == old(self).discovered,
            final(self).visible == old(self).visible,
            final(self).batch == old(self).batch,
    {
        let mut i: usize = 0;
        while i < self.pending.len()
            invariant
                *self == *old(self),
                i <= self.pending@.len(),
                forall|j: int| 0 <= j < i ==> self.pending@[j].id != id,
            decreases self.pending.len() - i,
        {
            if self.pending[i].id == id {
                proof {
                    lemma_first_for_unique(self.pending@, id, i as int);
                }
                let p = self.pending.remove(i);
                return match p.generation {
                    Some(g) => if g != generation {
                        None
                    } else {
                        Some(p.kind)
                    },
                    None => Some(p.kind),
                };
            }
            i = i + 1;
        }
        proof {
            lemma_first_for_unique(self.pending@, id, i as int);
        }
        None
    }

    fn request_page(&mut self, cursor: Option<String>) -> (r: Option<McpOutgoing>)
        ensures
            final(self).page_request(old(self), cursor, r),
    {
        match self.take_request_id() {
            Some(id) => Some(McpOutgoing::ToolsList { id, cursor }),
            None => {
                self.discovery_failed();
                None
            },
        }
    }

    /// Acts on the answer to `initialize` (`ok` when the device returned a result): the first
    /// tools page is asked for, or discovery gives up.
    pub fn initialized(&mut self, ok: bool) -> (r: Option<McpOutgoing>)
        ensures
            ok ==> final(self).page_request(old(self), None, r),
            !ok ==> r is None && final(self).gave_up_from(old(self)),
    {
        if ok {
            self.request_page(None)
        } else {
            self.discovery_failed();
            None
        }
    }

    /// Acts on the answer to a `tools/list` request: `page` is the page read from a result
    /// (`parse_tools_page`), `None` for an error or a malformed page, which gives discovery
    /// up. A page with a cursor asks for the next one; the last page makes the channel ready,
    /// offering the discovered tools the deployment allows.
    pub fn tools_page(&mut self, page: Option<(Vec<DiscoveredTool>, Option<String>)>) -> (r: Option<McpOutgoing>)
        ensures
            match page {
                None => r is None && final(self).gave_up_from(old(self)),
                Some((tools, Some(c))) => {
                    let mid = DeviceMcpFlow { discovered: final(self).discovered, ..*old(self) };
                    &&& final(self).discovered@ == old(self).discovered@ + tools@
                    &&& final(self).page_request(&mid, Some(c), r)
                },
                Some((tools, None)) => {
                    let all = old(self).discovered@ + tools@;
                    let cands = all.filter(|t: DiscoveredTool| is_candidate(t, old(self).allowed_tools@));
                    &&& r is None
                    &&& final(self).ready
                    &&& final(self).discovered@.len() == 0
                    &&& visible_view(final(self).visible@) == visible_from(cands, cands)
                    &&& final(self).enabled == old(self).enabled
                    &&& final(self).failed == old(self).failed
                    &&& final(self).next_request_id == old(self).next_request_id
                    &&& final(self).allowed_tools == old(self).allowed_tools
                    &&& final(self).pending == old(self).pending
                    &&& final(self).batch == old(self).batch
                },
            },
    {
        match page {
            None => {
                self.discovery_failed();
                None
            },
            Some((tools, cursor)) => {
                let mut tools = tools;
                self.discovered.append(&mut tools);
                match cursor {
                    Some(c) => self.request_page(Some(c)),
                    None => {
                        let mut found: Vec<DiscoveredTool> = Vec::new();
                        std::mem::swap(&mut found, &mut self.discovered);
                        self.visible = visible_tools(found, self.allowed_tools.as_slice());
                        self.ready = true;
                        None
                    },
                }
            },
        }
    }

    /// A turn was cancelled: its tool calls are no longer awaited (the device may still act
    /// on them, but their answers cannot resume the turn) and its batch is dropped.
    pub fn cancel_turn(&mut self)
        ensures
            final(self).pending@ == unscoped(old(self).pending@),
            final(self).batch is None,
            final(self).enabled == old(self).enabled,
            final(self).ready == old(self).ready,
            final(self).failed == old(self).failed,
            final(self).next_request_id == old(self).next_request_id,
            final(self).allowed_tools == old(self).allowed_tools,
            final(self).discovered == old(self).discovered,
            final(self).visible == old(self).visible,
    {
        let ghost before = self.pending@;
        let mut rest: Vec<PendingRequest> = Vec::new();
        std::mem::swap(&mut rest, &mut self.pending);
        let mut kept: Vec<PendingRequest> = Vec::new();
        let mut i: usize = 0;
        let n = rest.len();
        while rest.len() > 0
            invariant
                i + rest@.len() == n,
                n == before.len(),
                rest@ == before.skip(i as int),
                kept@ == before.take(i as int).filter(|p: PendingRequest| p.generation is None),
            decreases rest.len(),
        {
            let p = rest.remove(0);
            proof {
                reveal(Seq::filter);
                assert(before.take(i + 1).drop_last() =~= before.take(i as int));
                assert(p == before[i as int]);
                assert(rest@ =~= before.skip(i + 1));
            }
            if p.generation.is_none() {
                kept.push(p);
            }
            i = i + 1;
        }
        assert(before.take(i as int) =~= before);
        self.pending = kept;
        self.batch = None;
    }

    /// The request awaited under `id` timed out: it is no longer awaited; a discovery
    /// request gives discovery up, and a tool call is returned for completion with the
    /// `timeout` failure.
    pub fn expire(&mut self, id: McpRequestId) -> (r: Expired)
        ensures
            ({
                let i = first_for(old(self).pending@, id);
                if i < old(self).pending@.len() {
                    match old(self).pending@[i].kind {
                        PendingKind::ToolCall(call) => r == Expired::ToolCall(call) && *final(self) == (
                        DeviceMcpFlow { pending: final(self).pending, ..*old(self) })
                            && final(self).pending@ == old(self).pending@.remove(i),
                        _ => r == Expired::DiscoveryFailed && final(self).gave_up_with(
                            old(self),
                            old(self).pending@.remove(i),
                        ),
                    }
                } else {
                    r == Expired::Unknown && final(self).pending@ == old(self).pending@
                }
            }),
    {
        let mut i: usize = 0;
        while i < self.pending.len()
            invariant
                *self == *old(self),
                i <= self.pending@.len(),
                forall|j: int| 0 <= j < i ==> self.pending@[j].id != id,
            decreases self.pending.len() - i,
        {
            if self.pending[i].id == id {
                proof {
                    lemma_first_for_unique(self.pending@, id, i as int);
                }
                let p = self.pending.remove(i);
                return match p.kind {
                    PendingKind::ToolCall(call) => Expired::ToolCall(call),
                    _ => {
                        self.discovery_failed();
                        Expired::DiscoveryFailed
                    },
                };
            }
            i = i + 1;
        }
        proof {
            lemma_first_for_unique(self.pending@, id, i as int);
        }
        Expired::Unknown
    }

    /// Whether the head call of the batch of `generation` can be sent (see `head_sendable`).
    pub fn can_dispatch(&self, generation: u64) -> (b: bool)
        ensures
            b == self.head_sendable(generation),
    {
        match &self.batch {
            Some(b) => {
                if b.generation != generation || b.next >= b.calls.len() {
                    return true;
                }
                let call = &b.calls[b.next];
                let k = find_offered(&self.visible, call.name.as_str());
                let args = crate::unicode::chars_of(call.arguments.as_str());
                k < self.visible.len() && args.len() > 0 && args[0] == '{' && self.next_request_id
                    < u64::MAX
            },
            None => true,
        }
    }

    /// Sends the next call of the batch of `generation`, or hands the batch back once no
    /// call is left (or the batch belongs to another turn).
    pub fn dispatch_next_tool(&mut self, generation: u64) -> (r: BatchStep)
        requires
            old(self).head_sendable(generation),
        ensures
            final(self).dispatched(old(self), generation, r),
    {
        let head = match &self.batch {
            Some(b) => if b.generation == generation && b.next < b.calls.len() {
                Some(b.calls[b.next].clone())
            } else {
                None
            },
            None => None,
        };
        match head {
            None => {
                let mut taken: Option<ToolBatch> = None;
                std::mem::swap(&mut taken, &mut self.batch);
                match taken {
                    Some(b) => BatchStep::Finished(b),
                    None => BatchStep::Idle,
                }
            },
            Some(call) => {
                let k = find_offered(&self.visible, call.name.as_str());
                let name = self.visible[k].original_name.clone();
                let id = self.take_request_id().unwrap();
                let mut taken: Option<ToolBatch> = None;
                std::mem::swap(&mut taken, &mut self.batch);
                let mut b = taken.unwrap();
                b.next = b.next + 1;
                self.batch = Some(b);
                let arguments = call.arguments.clone();
                BatchStep::Send { request: McpOutgoing::ToolsCall { id, name, arguments }, call }
            },
        }
    }

    /// Starts the tool calls a model turn of `generation` asked for: the channel must be
    /// ready and the model must have asked for a call, else the turn's delivery fails.
    pub fn start_tool_batch(&mut self, calls: Vec<ToolCall>, generation: u64) -> (r: BatchStep)
        requires
            old(self).ready && calls@.len() > 0 ==> first_offered(old(self).visible@, calls@[0].name@)
                < old(self).visible@.len() && is_object_text(calls@[0].arguments@) && old(
                self,
            ).next_request_id < u64::MAX,
        ensures
            !old(self).ready || calls@.len() == 0 ==> r == BatchStep::FailDelivery && *final(self)
                == *old(self),
            old(self).ready && calls@.len() > 0 ==> final(self).dispatched(
                &DeviceMcpFlow {
                    batch: Some(ToolBatch { generation, calls, next: 0, results: final(self).batch->0.results }),
                    ..*old(self)
                },
                generation,
                r,
            ) && final(self).batch->0.results@.len() == 0,
    {
        if !self.ready || calls.len() == 0 {
            return BatchStep::FailDelivery;
        }
        self.batch = Some(ToolBatch { generation, calls, next: 0, results: Vec::new() });
        self.dispatch_next_tool(generation)
    }

    /// Why the head call `c` cannot be sent, in the order it is checked: it names no offered
    /// tool, its arguments are not an object, or no request id is left.
    pub open spec fn head_failure_code(&self, c: ToolCall) -> Seq<char> {
        if first_offered(self.visible@, c.name@) >= self.visible@.len() {
            "unknown_tool"@
        } else if !is_object_text(c.arguments@) {
            "invalid_arguments"@
        } else {
            "request_id_exhausted"@
        }
    }

    /// Completes a head call that cannot be sent with the failure that says why: its answer
    /// is the failure result, and the batch moves past it so that dispatching can go on.
    pub fn fail_head_call(&mut self, generation: u64)
        requires
            !old(self).head_sendable(generation),
        ensures
            ({
                let c = old(self).head_call(generation)->0;
                let b = old(self).batch->0;
                let a = final(self).batch->0;
                &&& final(self).batch is Some
                &&& a.results@.len() == b.results@.len() + 1
                &&& a.results@.drop_last() == b.results@
                &&& a.results@.last()@ == crate::llm::MessageView::ToolResult(
                    c.id@,
                    failed_result(old(self).head_failure_code(c)),
                )
                &&& *final(self) == (DeviceMcpFlow {
                    batch: Some(ToolBatch { next: (b.next + 1) as usize, results: a.results, ..b }),
                    ..*old(self)
                })
            }),
    {
        let mut taken: Option<ToolBatch> = None;
        std::mem::swap(&mut taken, &mut self.batch);
        let mut b = taken.unwrap();
        let n = b.calls.len();
        assert(b.next < n);
        let call = b.calls[b.next].clone();
        let k = find_offered(&self.visible, call.name.as_str());
        let args = crate::unicode::chars_of(call.arguments.as_str());
        let code = if k >= self.visible.len() {
            "unknown_tool"
        } else if args.len() == 0 || args[0] != '{' {
            "invalid_arguments"
        } else {
            "request_id_exhausted"
        };
        let ghost before = b.results@;
        b.results.push(ChatMessage::ToolResult { tool_call_id: call.id, content: tool_failure_result(code) });
        assert(b.results@.drop_last() =~= before);
        b.next = b.next + 1;
        self.batch = Some(b);
    }

    /// The answer to `call` arrived as `content` (the normalized result, or a failure with
    /// its code): it joins the batch's results. The caller then dispatches the next call.
    pub fn record_answer(&mut self, call: ToolCall, content: String)
        ensures
            old(self).batch is None ==> *final(self) == *old(self),
            old(self).batch is Some ==> ({
                let b = old(self).batch->0;
                let a = final(self).batch->0;
                &&& final(self).batch is Some
                &&& a.results@ == b.results@.push(ChatMessage::ToolResult { tool_call_id: call.id, content })
                &&& *final(self) == (DeviceMcpFlow {
                    batch: Some(ToolBatch { results: a.results, ..b }),
                    ..*old(self)
                })
            }),
    {
        let mut taken: Option<ToolBatch> = None;
        std::mem::swap(&mut taken, &mut self.batch);
        match taken {
            Some(mut b) => {
                b.results.push(ChatMessage::ToolResult { tool_call_id: call.id, content });
                self.batch = Some(b);
            },
            None => {},
        }
    }

}

proof fn lemma_without_id_lacks(s: Seq<PendingRequest>, id: McpRequestId)
    ensures
        forall|j: int| 0 <= j < without_id(s, id).len() ==> without_id(s, id)[j].id != id,
    decreases s.len(),
{
    if s.len() > 0 {
        lemma_without_id_lacks(s.drop_last(), id);
    }
}

/// An answer reaches the request recorded under its id: after a request is recorded, taking
/// the request awaited under that id yields it, and leaves the other requests as they were.
pub proof fn law_answer_reaches_its_request(
    s: Seq<PendingRequest>,
    id: McpRequestId,
    generation: Option<u64>,
    kind: PendingKind,
)
    ensures
        ({
            let t = without_id(s, id).push(PendingRequest { id, generation, kind });
            let i = first_for(t, id);
            &&& i == t.len() - 1
            &&& t[i].kind == kind
            &&& t[i].generation == generation
            &&& t.remove(i) == without_id(s, id)
        }),
{
    let w = without_id(s, id);
    let t = w.push(PendingRequest { id, generation, kind });
    lemma_without_id_lacks(s, id);
    assert forall|j: int| 0 <= j < w.len() implies t[j].id != id by {
        assert(t[j] == w[j]);
    }
    lemma_first_for_unique(t, id, w.len() as int);
    assert(t.remove(w.len() as int) =~= w);
}

/// After a turn is cancelled, no request of any turn is awaited any more, so no late answer
/// can resume it.
pub proof fn law_cancelled_turn_awaits_nothing(s: Seq<PendingRequest>)
    ensures
        forall|j: int| 0 <= j < unscoped(s).len() ==> (#[trigger] unscoped(s)[j]).generation is None,
{
    s.filter_lemma(|p: PendingRequest| p.generation is None);
}

/// When discovery gives up, only tool calls stay awaited.
pub proof fn law_failed_discovery_awaits_only_tool_calls(s: Seq<PendingRequest>)
    ensures
        forall|j: int| 0 <= j < tool_calls_of(s).len() ==> (#[trigger] tool_calls_of(s)[j]).kind is ToolCall,
{
    s.filter_lemma(|p: PendingRequest| p.kind is ToolCall);
}

/// One call whose answer needs the model's reply makes the whole batch go through the model.
pub proof fn law_model_reply_dominates(
    visible: Seq<LlmVisibleTool>,
    overrides: Seq<(String, McpResultDelivery)>,
    fallback: McpResultDelivery,
    calls: Seq<ToolCall>,
    j: int,
)
    requires
        0 <= j < calls.len(),
        call_delivery(visible, overrides, fallback, calls[j].name@) == McpResultDelivery::LlmThenTts,
    ensures
        batch_delivery(visible, overrides, fallback, calls) == McpResultDelivery::LlmThenTts,
    decreases calls.len(),
{
    if j < calls.len() - 1 {
        assert(calls.drop_last()[j] == calls[j]);
        law_model_reply_dominates(visible, overrides, fallback, calls.drop_last(), j);
    }
}

/// A batch is silent only when every call's answer is.
pub proof fn law_silence_needs_every_call_silent(
    visible: Seq<LlmVisibleTool>,
    overrides: Seq<(String, McpResultDelivery)>,
    fallback: McpResultDelivery,
    calls: Seq<ToolCall>,
    j: int,
)
    requires
        0 <= j < calls.len(),
        batch_delivery(visible, overrides, fallback, calls) == McpResultDelivery::Silent,
    ensures
        call_delivery(visible, overrides, fallback, calls[j].name@) == McpResultDelivery::Silent,
    decreases calls.len(),
{
    if j < calls.len() - 1 {
        assert(calls.drop_last()[j] == calls[j]);
        law_silence_needs_every_call_silent(visible, overrides, fallback, calls.drop_last(), j);
    }
}

} // verus!
