//! System prompt rendering and the hard size bound on LLM requests.
use vstd::prelude::*;
use crate::config::EffectiveAgentConfig;
use crate::llm::{ChatMessage, LlmRequest, MessageView, ToolCall, ToolCallView, ToolDefinition};
use crate::unicode::{chars_of, copy_range, string_of, text_eq};

verus! {

/// The largest request, in accounted bytes, that may be sent to an LLM.
pub const LLM_REQUEST_HARD_LIMIT_BYTES: usize = 256 * 1024;

pub const REQUEST_BASE_BYTES: usize = 32;

pub const MESSAGE_BYTES: usize = 32;

pub const TOOL_DEFINITION_BYTES: usize = 64;

pub const TOOL_CALL_BYTES: usize = 48;

pub const TOOL_RESULT_BYTES: usize = 48;

#[derive(Clone, Copy, Debug, PartialEq, Eq, Structural)]
pub enum PromptError {
    InvalidTemplate,
    MissingPersona,
    MissingCurrentUser,
    RequestTooLarge,
}

// ---------------------------------------------------------------------------------------
// Template rendering
// ---------------------------------------------------------------------------------------

/// `t[k]` and `t[k + 1]` are the two characters `a`, `b`.
pub open spec fn pair_at(t: Seq<char>, k: int, a: char, b: char) -> bool {
    0 <= k && k + 1 < t.len() && t[k] == a && t[k + 1] == b
}

/// The first position at or after `from` where the pair `a b` starts.
pub open spec fn find_pair(t: Seq<char>, from: int, a: char, b: char) -> Option<int>
    decreases t.len() - from,
{
    if from < 0 || from + 1 >= t.len() {
        None
    } else if pair_at(t, from, a, b) {
        Some(from)
    } else {
        find_pair(t, from + 1, a, b)
    }
}

/// The pair `a b` occurs wholly inside `t[lo..hi]`.
pub open spec fn has_pair_in(t: Seq<char>, lo: int, hi: int, a: char, b: char) -> bool {
    exists|k: int| lo <= k && k + 1 < hi && #[trigger] pair_at(t, k, a, b)
}

pub proof fn lemma_find_pair_bounds(t: Seq<char>, from: int, a: char, b: char)
    ensures
        find_pair(t, from, a, b) matches Some(i) ==> from <= i && pair_at(t, i, a, b),
    decreases t.len() - from,
{
    if !(from < 0 || from + 1 >= t.len()) && !pair_at(t, from, a, b) {
        lemma_find_pair_bounds(t, from + 1, a, b);
    }
}

/// What a template placeholder stands for, and whether it is the persona.
pub open spec fn token_value(agent: EffectiveAgentConfig, token: Seq<char>) -> Option<(Seq<char>, bool)> {
    if token == "agent_name"@ {
        Some((agent.name@, false))
    } else if token == "persona"@ {
        Some((agent.persona@, true))
    } else if token == "language"@ {
        Some((agent.language@, false))
    } else {
        None
    }
}

/// Renders `t[c..]` in one left-to-right pass: each `{{name}}` is replaced by its value,
/// whose own text is never expanded again. `None` for a malformed template: a stray `}}`,
/// an unclosed `{{` or an unknown placeholder. The flag tells whether `{{persona}}` was used.
pub open spec fn render_from(t: Seq<char>, c: int, agent: EffectiveAgentConfig) -> Option<(Seq<char>, bool)>
    decreases t.len() - c,
{
    if c < 0 || c > t.len() {
        None
    } else {
        match find_pair(t, c, '{', '{') {
            None => if has_pair_in(t, c, t.len() as int, '}', '}') {
                None
            } else {
                Some((t.subrange(c, t.len() as int), false))
            },
            Some(s) => if has_pair_in(t, c, s, '}', '}') {
                None
            } else {
                match find_pair(t, s + 2, '}', '}') {
                    None => None,
                    Some(e) => match token_value(agent, t.subrange(s + 2, e)) {
                        None => None,
                        Some(value) => {
                            proof {
                                lemma_find_pair_bounds(t, c, '{', '{');
                                lemma_find_pair_bounds(t, s + 2, '}', '}');
                            }
                            match render_from(t, e + 2, agent) {
                                None => None,
                                Some(rest) => Some(
                                    (t.subrange(c, s) + value.0 + rest.0, value.1 || rest.1),
                                ),
                            }
                        },
                    },
                }
            },
        }
    }
}

/// The system prompt for `agent`: its template with every placeholder filled, or the
/// reason the template is refused. `{%` is never allowed, and `{{persona}}` must be used.
pub open spec fn rendered_system(agent: EffectiveAgentConfig) -> Result<Seq<char>, PromptError> {
    let t = agent.prompt_template@;
    if has_pair_in(t, 0, t.len() as int, '{', '%') {
        Err(PromptError::InvalidTemplate)
    } else {
        match render_from(t, 0, agent) {
            None => Err(PromptError::InvalidTemplate),
            Some(r) => if r.1 {
                Ok(r.0)
            } else {
                Err(PromptError::MissingPersona)
            },
        }
    }
}

/// `r` with `pre` put in front of its text and `seen` joined to its flag.
pub open spec fn prefixed(pre: Seq<char>, seen: bool, r: Option<(Seq<char>, bool)>) -> Option<(Seq<char>, bool)> {
    match r {
        None => None,
        Some(x) => Some((pre + x.0, seen || x.1)),
    }
}

/// The view of a rendering result.
pub open spec fn result_view(r: Result<String, PromptError>) -> Result<Seq<char>, PromptError> {
    match r {
        Ok(s) => Ok(s@),
        Err(e) => Err(e),
    }
}

fn find_pair_from(t: &Vec<char>, from: usize, a: char, b: char) -> (r: Option<usize>)
    ensures
        match r {
            Some(i) => find_pair(t@, from as int, a, b) == Some(i as int),
            None => find_pair(t@, from as int, a, b) is None,
        },
{
    let mut i: usize = from;
    while i < t.len() && i + 1 < t.len()
        invariant
            from <= i,
            find_pair(t@, from as int, a, b) == find_pair(t@, i as int, a, b),
        decreases t.len() - i,
    {
        if t[i] == a && t[i + 1] == b {
            return Some(i);
        }
        i = i + 1;
    }
    None
}

fn has_pair_between(t: &Vec<char>, lo: usize, hi: usize, a: char, b: char) -> (r: bool)
    requires
        hi <= t@.len(),
    ensures
        r == has_pair_in(t@, lo as int, hi as int, a, b),
{
    let mut k: usize = lo;
    while k < hi && k + 1 < hi
        invariant
            lo <= k,
            hi <= t@.len(),
            forall|j: int| lo <= j < k ==> !#[trigger] pair_at(t@, j, a, b),
        decreases hi - k,
    {
        if t[k] == a && t[k + 1] == b {
            assert(pair_at(t@, k as int, a, b));
            return true;
        }
        k = k + 1;
    }
    false
}

fn push_range(out: &mut Vec<char>, src: &Vec<char>, lo: usize, hi: usize)
    requires
        lo <= hi <= src@.len(),
    ensures
        final(out)@ == old(out)@ + src@.subrange(lo as int, hi as int),
{
    let mut i: usize = lo;
    while i < hi
        invariant
            lo <= i <= hi <= src@.len(),
            out@ == old(out)@ + src@.subrange(lo as int, i as int),
        decreases hi - i,
    {
        out.push(src[i]);
        i = i + 1;
        assert(out@ =~= old(out)@ + src@.subrange(lo as int, i as int));
    }
}

fn push_text(out: &mut Vec<char>, s: &str)
    ensures
        final(out)@ == old(out)@ + s@,
{
    let v = chars_of(s);
    push_range(out, &v, 0, v.len());
    assert(v@.subrange(0, v@.len() as int) =~= v@);
}

/// Renders the system prompt of `agent` from its template in a single strict pass.
pub fn render_system(agent: &EffectiveAgentConfig) -> (r: Result<String, PromptError>)
    ensures
        result_view(r) == rendered_system(*agent),
{
    let t = chars_of(agent.prompt_template.as_str());
    if has_pair_between(&t, 0, t.len(), '{', '%') {
        return Err(PromptError::InvalidTemplate);
    }
    let mut output: Vec<char> = Vec::new();
    let mut cursor: usize = 0;
    let mut seen: bool = false;
    assert(output@ + Seq::<char>::empty() =~= output@);
    loop
        invariant
            t@ == agent.prompt_template@,
            cursor <= t@.len(),
            !has_pair_in(t@, 0, t@.len() as int, '{', '%'),
            render_from(t@, 0, *agent) == prefixed(
                output@,
                seen,
                render_from(t@, cursor as int, *agent),
            ),
        decreases t@.len() - cursor,
    {
        let ghost c = cursor as int;
        proof {
            lemma_find_pair_bounds(t@, c, '{', '{');
        }
        match find_pair_from(&t, cursor, '{', '{') {
            None => {
                if has_pair_between(&t, cursor, t.len(), '}', '}') {
                    return Err(PromptError::InvalidTemplate);
                }
                let ghost before = output@;
                push_range(&mut output, &t, cursor, t.len());
                assert(before + (t@.subrange(c, t@.len() as int)) == output@);
                if !seen {
                    return Err(PromptError::MissingPersona);
                }
                return Ok(string_of(&output));
            },
            Some(s) => {
                if has_pair_between(&t, cursor, s, '}', '}') {
                    return Err(PromptError::InvalidTemplate);
                }
                proof {
                    lemma_find_pair_bounds(t@, s + 2, '}', '}');
                }
                let end = find_pair_from(&t, s + 2, '}', '}');
                match end {
                    None => {
                        return Err(PromptError::InvalidTemplate);
                    },
                    Some(e) => {
                        let token = copy_range(&t, s + 2, e);
                        let name = string_of(&token);
                        let ghost before = output@;
                        let ghost value = token_value(*agent, t@.subrange(s + 2, e as int));
                        push_range(&mut output, &t, cursor, s);
                        if text_eq(name.as_str(), "agent_name") {
                            push_text(&mut output, agent.name.as_str());
                        } else if text_eq(name.as_str(), "persona") {
                            push_text(&mut output, agent.persona.as_str());
                            seen = true;
                        } else if text_eq(name.as_str(), "language") {
                            push_text(&mut output, agent.language.as_str());
                        } else {
                            return Err(PromptError::InvalidTemplate);
                        }
                        proof {
                            let v = value.unwrap();
                            assert(output@ == before + t@.subrange(c, s as int) + v.0);
                            assert(before + (t@.subrange(c, s as int) + v.0) =~= output@);
                            match render_from(t@, e + 2, *agent) {
                                None => {},
                                Some(rest) => {
                                    assert(before + (t@.subrange(c, s as int) + v.0 + rest.0)
                                        =~= output@ + rest.0);
                                },
                            }
                        }
                        cursor = e + 2;
                    },
                }
            },
        }
    }
}

// ---------------------------------------------------------------------------------------
// Request size accounting
// ---------------------------------------------------------------------------------------

/// The number of bytes `c` takes in UTF-8.
pub open spec fn utf8_width(c: char) -> nat {
    if (c as u32) < 0x80 {
        1
    } else if (c as u32) < 0x800 {
        2
    } else if (c as u32) < 0x10000 {
        3
    } else {
        4
    }
}

/// The sum of `f` over `s`.
pub open spec fn seq_sum<T>(s: Seq<T>, f: spec_fn(T) -> nat) -> nat
    decreases s.len(),
{
    if s.len() == 0 {
        0
    } else {
        seq_sum(s.drop_last(), f) + f(s.last())
    }
}

pub proof fn lemma_seq_sum_step<T>(s: Seq<T>, f: spec_fn(T) -> nat, i: int)
    requires
        0 <= i < s.len(),
    ensures
        seq_sum(s.take(i + 1), f) == seq_sum(s.take(i), f) + f(s[i]),
{
    assert(s.take(i + 1).drop_last() =~= s.take(i));
}

pub proof fn lemma_seq_sum_prefix<T>(s: Seq<T>, f: spec_fn(T) -> nat, i: int)
    requires
        0 <= i <= s.len(),
    ensures
        seq_sum(s.take(i), f) <= seq_sum(s, f),
    decreases s.len() - i,
{
    if i < s.len() {
        lemma_seq_sum_step(s, f, i);
        lemma_seq_sum_prefix(s, f, i + 1);
    } else {
        assert(s.take(i) =~= s);
    }
}

pub open spec fn width_of() -> spec_fn(char) -> nat {
    |c: char| utf8_width(c)
}

/// The length of `s` in UTF-8 bytes.
pub open spec fn utf8_len(s: Seq<char>) -> nat {
    seq_sum(s, width_of())
}

/// Accounted bytes of one tool call.
pub open spec fn call_bytes(c: ToolCallView) -> nat {
    (TOOL_CALL_BYTES as nat) + utf8_len(c.id) + utf8_len(c.name) + utf8_len(c.arguments)
}

pub open spec fn call_bytes_of() -> spec_fn(ToolCall) -> nat {
    |c: ToolCall| call_bytes(c@)
}

/// Accounted bytes of one message: a fixed overhead plus its text.
pub open spec fn message_bytes(m: MessageView) -> nat {
    (MESSAGE_BYTES as nat) + match m {
        MessageView::System(content) => utf8_len(content),
        MessageView::User(content) => utf8_len(content),
        MessageView::AssistantText(content) => utf8_len(content),
        MessageView::AssistantToolCalls(calls) => seq_sum(calls, |c: ToolCallView| call_bytes(c)),
        MessageView::ToolResult(id, content) => (TOOL_RESULT_BYTES as nat) + utf8_len(id) + utf8_len(
            content,
        ),
    }
}

pub open spec fn message_bytes_of() -> spec_fn(ChatMessage) -> nat {
    |m: ChatMessage| message_bytes(m@)
}

/// Accounted bytes of one tool definition.
pub open spec fn tool_bytes(t: ToolDefinition) -> nat {
    (TOOL_DEFINITION_BYTES as nat) + utf8_len(t.name@) + utf8_len(t.description@) + utf8_len(
        t.parameters@,
    )
}

pub open spec fn tool_bytes_of() -> spec_fn(ToolDefinition) -> nat {
    |t: ToolDefinition| tool_bytes(t)
}

/// Accounted bytes of a request: UTF-8 content plus fixed per-item overheads.
pub open spec fn request_bytes(r: LlmRequest) -> nat {
    (REQUEST_BASE_BYTES as nat) + seq_sum(r.messages@, message_bytes_of()) + seq_sum(
        r.tools@,
        tool_bytes_of(),
    )
}

/// Adds the UTF-8 length of `s` to `total`, unless that passes the hard limit.
fn add_text(total: usize, s: &str) -> (r: Option<usize>)
    requires
        total <= LLM_REQUEST_HARD_LIMIT_BYTES,
    ensures
        match r {
            Some(n) => n == total + utf8_len(s@) && n <= LLM_REQUEST_HARD_LIMIT_BYTES,
            None => total + utf8_len(s@) > LLM_REQUEST_HARD_LIMIT_BYTES,
        },
{
    let v = chars_of(s);
    let mut n: usize = total;
    let mut i: usize = 0;
    while i < v.len()
        invariant
            i <= v@.len(),
            v@ == s@,
            n == total + seq_sum(v@.take(i as int), width_of()),
            n <= LLM_REQUEST_HARD_LIMIT_BYTES,
        decreases v.len() - i,
    {
        let code = v[i] as u32;
        let w: usize = if code < 0x80 {
            1
        } else if code < 0x800 {
            2
        } else if code < 0x10000 {
            3
        } else {
            4
        };
        proof {
            lemma_seq_sum_step(v@, width_of(), i as int);
        }
        n = n + w;
        i = i + 1;
        if n > LLM_REQUEST_HARD_LIMIT_BYTES {
            proof {
                lemma_seq_sum_prefix(v@, width_of(), i as int);
            }
            return None;
        }
    }
    assert(v@.take(i as int) =~= v@);
    Some(n)
}

fn add_fixed(total: usize, bytes: usize) -> (r: Option<usize>)
    requires
        total <= LLM_REQUEST_HARD_LIMIT_BYTES,
        bytes <= 64,
    ensures
        match r {
            Some(n) => n == total + bytes && n <= LLM_REQUEST_HARD_LIMIT_BYTES,
            None => total + bytes > LLM_REQUEST_HARD_LIMIT_BYTES,
        },
{
    if total + bytes > LLM_REQUEST_HARD_LIMIT_BYTES {
        None
    } else {
        Some(total + bytes)
    }
}

fn add_call(total: usize, call: &ToolCall) -> (r: Option<usize>)
    requires
        total <= LLM_REQUEST_HARD_LIMIT_BYTES,
    ensures
        match r {
            Some(n) => n == total + call_bytes(call@) && n <= LLM_REQUEST_HARD_LIMIT_BYTES,
            None => total + call_bytes(call@) > LLM_REQUEST_HARD_LIMIT_BYTES,
        },
{
    let n = match add_fixed(total, TOOL_CALL_BYTES) {
        Some(n) => n,
        None => return None,
    };
    let n = match add_text(n, call.id.as_str()) {
        Some(n) => n,
        None => return None,
    };
    let n = match add_text(n, call.name.as_str()) {
        Some(n) => n,
        None => return None,
    };
    add_text(n, call.arguments.as_str())
}

fn add_calls(total: usize, calls: &Vec<ToolCall>) -> (r: Option<usize>)
    requires
        total <= LLM_REQUEST_HARD_LIMIT_BYTES,
    ensures
        match r {
            Some(n) => n == total + seq_sum(calls@, call_bytes_of()) && n
                <= LLM_REQUEST_HARD_LIMIT_BYTES,
            None => total + seq_sum(calls@, call_bytes_of()) > LLM_REQUEST_HARD_LIMIT_BYTES,
        },
{
    let mut n: usize = total;
    let mut i: usize = 0;
    while i < calls.len()
        invariant
            i <= calls@.len(),
            n == total + seq_sum(calls@.take(i as int), call_bytes_of()),
            n <= LLM_REQUEST_HARD_LIMIT_BYTES,
        decreases calls.len() - i,
    {
        proof {
            lemma_seq_sum_step(calls@, call_bytes_of(), i as int);
        }
        match add_call(n, &calls[i]) {
            Some(m) => {
                n = m;
            },
            None => {
                proof {
                    lemma_seq_sum_prefix(calls@, call_bytes_of(), i + 1);
                }
                return None;
            },
        }
        i = i + 1;
    }
    assert(calls@.take(i as int) =~= calls@);
    Some(n)
}

proof fn lemma_calls_sum_view(calls: Seq<ToolCall>)
    ensures
        seq_sum(calls, call_bytes_of()) == seq_sum(
            crate::llm::calls_view(calls),
            |c: ToolCallView| call_bytes(c),
        ),
    decreases calls.len(),
{
    if calls.len() > 0 {
        lemma_calls_sum_view(calls.drop_last());
        assert(crate::llm::calls_view(calls).drop_last() =~= crate::llm::calls_view(
            calls.drop_last(),
        ));
    }
}

fn add_message(total: usize, m: &ChatMessage) -> (r: Option<usize>)
    requires
        total <= LLM_REQUEST_HARD_LIMIT_BYTES,
    ensures
        match r {
            Some(n) => n == total + message_bytes(m@) && n <= LLM_REQUEST_HARD_LIMIT_BYTES,
            None => total + message_bytes(m@) > LLM_REQUEST_HARD_LIMIT_BYTES,
        },
{
    let n = match add_fixed(total, MESSAGE_BYTES) {
        Some(n) => n,
        None => return None,
    };
    match m {
        ChatMessage::System { content } => add_text(n, content.as_str()),
        ChatMessage::User { content } => add_text(n, content.as_str()),
        ChatMessage::AssistantText { content } => add_text(n, content.as_str()),
        ChatMessage::AssistantToolCalls { calls } => {
            proof {
                lemma_calls_sum_view(calls@);
            }
            add_calls(n, calls)
        },
        ChatMessage::ToolResult { tool_call_id, content } => {
            let n = match add_fixed(n, TOOL_RESULT_BYTES) {
                Some(n) => n,
                None => return None,
            };
            let n = match add_text(n, tool_call_id.as_str()) {
                Some(n) => n,
                None => return None,
            };
            add_text(n, content.as_str())
        },
    }
}

fn add_tool(total: usize, t: &ToolDefinition) -> (r: Option<usize>)
    requires
        total <= LLM_REQUEST_HARD_LIMIT_BYTES,
    ensures
        match r {
            Some(n) => n == total + tool_bytes(*t) && n <= LLM_REQUEST_HARD_LIMIT_BYTES,
            None => total + tool_bytes(*t) > LLM_REQUEST_HARD_LIMIT_BYTES,
        },
{
    let n = match add_fixed(total, TOOL_DEFINITION_BYTES) {
        Some(n) => n,
        None => return None,
    };
    let n = match add_text(n, t.name.as_str()) {
        Some(n) => n,
        None => return None,
    };
    let n = match add_text(n, t.description.as_str()) {
        Some(n) => n,
        None => return None,
    };
    add_text(n, t.parameters.as_str())
}

/// The accounted size of `request`: `Ok` with the size when it is within the hard limit,
/// `RequestTooLarge` when it is above.
pub fn llm_request_size_bytes(request: &LlmRequest) -> (r: Result<usize, PromptError>)
    ensures
        match r {
            Ok(n) => n == request_bytes(*request) && n <= LLM_REQUEST_HARD_LIMIT_BYTES,
            Err(e) => e == PromptError::RequestTooLarge && request_bytes(*request)
                > LLM_REQUEST_HARD_LIMIT_BYTES,
        },
{
    let ghost ms = request.messages@;
    let ghost ts = request.tools@;
    let mut n: usize = REQUEST_BASE_BYTES;
    let mut i: usize = 0;
    while i < request.messages.len()
        invariant
            ms == request.messages@,
            i <= ms.len(),
            n == REQUEST_BASE_BYTES + seq_sum(ms.take(i as int), message_bytes_of()),
            n <= LLM_REQUEST_HARD_LIMIT_BYTES,
        decreases request.messages.len() - i,
    {
        proof {
            lemma_seq_sum_step(ms, message_bytes_of(), i as int);
        }
        match add_message(n, &request.messages[i]) {
            Some(m) => {
                n = m;
            },
            None => {
                proof {
                    lemma_seq_sum_prefix(ms, message_bytes_of(), i + 1);
                }
                return Err(PromptError::RequestTooLarge);
            },
        }
        i = i + 1;
    }
    assert(ms.take(i as int) =~= ms);
    let ghost after_messages = n;
    let mut j: usize = 0;
    while j < request.tools.len()
        invariant
            ms == request.messages@,
            ts == request.tools@,
            j <= ts.len(),
            after_messages == REQUEST_BASE_BYTES + seq_sum(ms, message_bytes_of()),
            n == after_messages + seq_sum(ts.take(j as int), tool_bytes_of()),
            n <= LLM_REQUEST_HARD_LIMIT_BYTES,
        decreases request.tools.len() - j,
    {
        proof {
            lemma_seq_sum_step(ts, tool_bytes_of(), j as int);
        }
        match add_tool(n, &request.tools[j]) {
            Some(m) => {
                n = m;
            },
            None => {
                proof {
                    lemma_seq_sum_prefix(ts, tool_bytes_of(), j + 1);
                }
                return Err(PromptError::RequestTooLarge);
            },
        }
        j = j + 1;
    }
    assert(ts.take(j as int) =~= ts);
    Ok(n)
}

/// Appends one completed tool round: the assistant's calls, then their results. A round
/// without calls leaves `messages` unchanged.
pub fn append_completed_round(
    messages: &mut Vec<ChatMessage>,
    calls: Vec<ToolCall>,
    results: Vec<ChatMessage>,
)
    requires
        calls@.len() > 0 ==> calls@.len() == results@.len(),
    ensures
        calls@.len() == 0 ==> final(messages)@ == old(messages)@,
        calls@.len() > 0 ==> final(messages)@ == old(messages)@.push(
            ChatMessage::AssistantToolCalls { calls },
        ) + results@,
{
    if calls.len() == 0 {
        return;
    }
    let ghost c = calls;
    let ghost rs = results@;
    messages.push(ChatMessage::AssistantToolCalls { calls });
    let mut results = results;
    messages.append(&mut results);
    assert(messages@ == old(messages)@.push(ChatMessage::AssistantToolCalls { calls: c }) + rs);
}


/// Rendering is a single pass: with the template `{{persona}}` the result is the persona
/// text exactly as configured, even when that text itself looks like a placeholder.
pub proof fn law_persona_is_inserted_verbatim(agent: EffectiveAgentConfig)
    requires
        agent.prompt_template@ == "{{persona}}"@,
    ensures
        rendered_system(agent) == Ok::<Seq<char>, PromptError>(agent.persona@),
{
    reveal_strlit("{{persona}}");
    reveal_strlit("persona");
    reveal_strlit("agent_name");
    let t = agent.prompt_template@;
    assert(t.len() == 11);
    assert(!has_pair_in(t, 0, 11, '{', '%'));
    assert(find_pair(t, 0, '{', '{') == Some(0int));
    assert(!has_pair_in(t, 0, 0, '}', '}'));
    assert(find_pair(t, 2, '}', '}') == Some(9int)) by {
        reveal_with_fuel(find_pair, 10);
    }
    assert(t.subrange(2, 9) =~= "persona"@);
    assert(find_pair(t, 11, '{', '{') == None::<int>);
    assert(!has_pair_in(t, 11, 11, '}', '}'));
    assert(render_from(t, 11, agent) == Some((Seq::<char>::empty(), false)));
    assert(t.subrange(0, 0) + agent.persona@ + Seq::<char>::empty() =~= agent.persona@);
}

} // verus!
