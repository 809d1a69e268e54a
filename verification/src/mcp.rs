//! Device MCP messages: the JSON-RPC requests the server sends, how a device's replies are
//! classified, tool-list pages, and the tool results handed back to the LLM.
//!
//! JSON values the server only passes through are carried as their compact JSON text;
//! JSON the server reads arrives as the few plain fields the rules look at.
use vstd::prelude::*;
use crate::tools::{DiscoveredTool, McpRequestId};
use crate::unicode::{chars_of, string_of, trim, trim_chars};

verus! {

/// The lower-case hexadecimal digit of `n`, for `n < 16`.
pub open spec fn lower_hex_digit(n: u32) -> char {
    if n < 10 {
        ((48 + n) as u8) as char
    } else {
        ((87 + n) as u8) as char
    }
}

/// How one character stands inside a JSON string literal: the quote and the backslash
/// behind a backslash, backspace, tab, line feed, form feed and carriage return by their
/// short escapes, the other controls below `U+0020` as `\u00` and two lower-case hex
/// digits, and every other character as it is.
pub open spec fn json_escaped_char(c: char) -> Seq<char> {
    if c == '"' {
        seq!['\\', '"']
    } else if c == '\\' {
        seq!['\\', '\\']
    } else if c == '\u{8}' {
        seq!['\\', 'b']
    } else if c == '\t' {
        seq!['\\', 't']
    } else if c == '\n' {
        seq!['\\', 'n']
    } else if c == '\u{c}' {
        seq!['\\', 'f']
    } else if c == '\r' {
        seq!['\\', 'r']
    } else if (c as u32) < 0x20 {
        seq!['\\', 'u', '0', '0', lower_hex_digit((c as u32) / 16), lower_hex_digit((c as u32) % 16)]
    } else {
        seq![c]
    }
}

/// Each character of `s` as it stands inside a JSON string literal.
pub open spec fn json_escaped(s: Seq<char>) -> Seq<char>
    decreases s.len(),
{
    if s.len() == 0 {
        Seq::empty()
    } else {
        json_escaped(s.drop_last()) + json_escaped_char(s.last())
    }
}

/// The JSON string literal of a text: its escaped characters between double quotes.
pub open spec fn json_string_literal(s: Seq<char>) -> Seq<char> {
    seq!['"'] + json_escaped(s) + seq!['"']
}

/// Calls `serde_json::to_string` on a string slice, which writes the string literal that
/// `json_string_literal` describes (serde_json's escape table); serialising a `str` into
/// memory does not fail.
#[verifier::external_body]
pub(crate) fn json_quote(s: &str) -> (r: String)
    ensures
        r@ == json_string_literal(s@),
{
    serde_json::to_string(s).unwrap_or_default()
}

/// Decimal digits of `n`.
pub open spec fn decimal_text(n: nat) -> Seq<char>
    decreases n,
{
    if n < 10 {
        seq![((48 + n) as u8) as char]
    } else {
        decimal_text(n / 10).push(((48 + n % 10) as u8) as char)
    }
}

fn push_decimal(out: &mut Vec<char>, n: u64)
    ensures
        final(out)@ == old(out)@ + decimal_text(n as nat),
    decreases n,
{
    if n >= 10 {
        push_decimal(out, n / 10);
    }
    let d: u8 = (n % 10) as u8;
    out.push((48u8 + d) as char);
    assert(out@ =~= old(out)@ + decimal_text(n as nat));
}

pub(crate) fn push_str(out: &mut Vec<char>, s: &str)
    ensures
        final(out)@ == old(out)@ + s@,
{
    let v = chars_of(s);
    let mut i: usize = 0;
    while i < v.len()
        invariant
            i <= v@.len(),
            v@ == s@,
            out@ == old(out)@ + v@.take(i as int),
        decreases v.len() - i,
    {
        out.push(v[i]);
        i = i + 1;
        assert(out@ =~= old(out)@ + v@.take(i as int));
    }
    assert(v@.take(i as int) =~= v@);
}

/// A request the server sends to a device.
#[derive(Clone, Debug, PartialEq, Eq)]
pub enum McpOutgoing {
    Initialize { id: McpRequestId },
    ToolsList { id: McpRequestId, cursor: Option<String> },
    /// `arguments` is the compact JSON text of the call's argument object.
    ToolsCall { id: McpRequestId, name: String, arguments: String },
}

/// The compact JSON text of a request, members in key order.
pub open spec fn payload_text(m: McpOutgoing) -> Seq<char> {
    match m {
        McpOutgoing::Initialize { id } => "{\"id\":"@ + decimal_text(id.0 as nat)
            + ",\"jsonrpc\":\"2.0\",\"method\":\"initialize\",\"params\":{\"capabilities\":{},\"clientInfo\":{\"name\":\"voice-agent-server\",\"version\":\"0.1.0\"},\"protocolVersion\":\"2024-11-05\"}}"@,
        McpOutgoing::ToolsList { id, cursor } => "{\"id\":"@ + decimal_text(id.0 as nat)
            + ",\"jsonrpc\":\"2.0\",\"method\":\"tools/list\""@ + match cursor {
            Some(c) => ",\"params\":{\"cursor\":"@ + json_string_literal(c@) + "}"@,
            None => Seq::empty(),
        } + "}"@,
        McpOutgoing::ToolsCall { id, name, arguments } => "{\"id\":"@ + decimal_text(
            id.0 as nat,
        ) + ",\"jsonrpc\":\"2.0\",\"method\":\"tools/call\",\"params\":{\"arguments\":"@
            + arguments@ + ",\"name\":"@ + json_string_literal(name@) + "}}"@,
    }
}

impl McpOutgoing {
    /// The request id.
    pub fn id(&self) -> (r: McpRequestId)
        ensures
            r == match *self {
                McpOutgoing::Initialize { id } => id,
                McpOutgoing::ToolsList { id, .. } => id,
                McpOutgoing::ToolsCall { id, .. } => id,
            },
    {
        match self {
            McpOutgoing::Initialize { id } => *id,
            McpOutgoing::ToolsList { id, .. } => *id,
            McpOutgoing::ToolsCall { id, .. } => *id,
        }
    }

    /// The JSON-RPC 2.0 request as compact JSON text.
    pub fn payload(&self) -> (r: String)
        ensures
            r@ == payload_text(*self),
    {
        let mut out: Vec<char> = Vec::new();
        push_str(&mut out, "{\"id\":");
        match self {
            McpOutgoing::Initialize { id } => {
                push_decimal(&mut out, id.0);
                push_str(
                    &mut out,
                    ",\"jsonrpc\":\"2.0\",\"method\":\"initialize\",\"params\":{\"capabilities\":{},\"clientInfo\":{\"name\":\"voice-agent-server\",\"version\":\"0.1.0\"},\"protocolVersion\":\"2024-11-05\"}}",
                );
            },
            McpOutgoing::ToolsList { id, cursor } => {
                push_decimal(&mut out, id.0);
                push_str(&mut out, ",\"jsonrpc\":\"2.0\",\"method\":\"tools/list\"");
                let ghost mid = out@;
                match cursor {
                    Some(c) => {
                        push_str(&mut out, ",\"params\":{\"cursor\":");
                        let q = json_quote(c.as_str());
                        push_str(&mut out, q.as_str());
                        push_str(&mut out, "}");
                        assert(out@ =~= mid + (",\"params\":{\"cursor\":"@ + json_string_literal(
                            c@,
                        ) + "}"@));
                    },
                    None => {
                        assert(out@ =~= mid + Seq::<char>::empty());
                    },
                }
                push_str(&mut out, "}");
            },
            McpOutgoing::ToolsCall { id, name, arguments } => {
                push_decimal(&mut out, id.0);
                push_str(
                    &mut out,
                    ",\"jsonrpc\":\"2.0\",\"method\":\"tools/call\",\"params\":{\"arguments\":",
                );
                push_str(&mut out, arguments.as_str());
                push_str(&mut out, ",\"name\":");
                let q = json_quote(name.as_str());
                push_str(&mut out, q.as_str());
                push_str(&mut out, "}}");
            },
        }
        assert(out@ =~= payload_text(*self));
        string_of(&out)
    }
}

/// The text frame that carries an MCP request to the device in a session.
pub open spec fn envelope_text(session_id: Seq<char>, payload: Seq<char>) -> Seq<char> {
    "{\"payload\":"@ + payload + ",\"session_id\":"@ + json_string_literal(session_id)
        + ",\"type\":\"mcp\"}"@
}

/// Wraps a request payload in the session's `mcp` message.
pub fn mcp_envelope(session_id: &str, payload: &str) -> (r: String)
    ensures
        r@ == envelope_text(session_id@, payload@),
{
    let mut out: Vec<char> = Vec::new();
    push_str(&mut out, "{\"payload\":");
    push_str(&mut out, payload);
    push_str(&mut out, ",\"session_id\":");
    let q = json_quote(session_id);
    push_str(&mut out, q.as_str());
    push_str(&mut out, ",\"type\":\"mcp\"}");
    assert(out@ =~= envelope_text(session_id@, payload@));
    string_of(&out)
}

/// The members of a device's JSON-RPC message that classification reads. Each is present
/// only when the member exists with the type named.
#[derive(Clone, Debug, PartialEq, Eq)]
pub struct RpcFields {
    /// `jsonrpc`, when a string.
    pub jsonrpc: Option<String>,
    /// `method`, when a string.
    pub method: Option<String>,
    /// `params`, as JSON text, when present.
    pub params: Option<String>,
    /// `id`, when an unsigned integer.
    pub id: Option<u64>,
    /// `result`, as JSON text, when present.
    pub result: Option<String>,
    /// `error`, when an object.
    pub error: Option<RpcErrorFields>,
}

#[derive(Clone, Debug, PartialEq, Eq)]
pub struct RpcErrorFields {
    /// `code`, when a signed integer.
    pub code: Option<i64>,
    /// `message`, when a string.
    pub message: Option<String>,
}

/// A message from the device.
#[derive(Clone, Debug, PartialEq, Eq)]
pub enum McpIncoming {
    Result { id: McpRequestId, result: String },
    Error { id: McpRequestId, code: i64, message: String },
    Notification { method: String, params: Option<String> },
}

/// How a device message is classified: only JSON-RPC 2.0 is read; a `method` makes a
/// notification; otherwise an unsigned `id` with a `result`, or with an `error` object
/// carrying an integer code and a string message.
pub open spec fn classified(f: RpcFields) -> Option<McpIncoming> {
    if !(f.jsonrpc matches Some(v) && v@ == "2.0"@) {
        None
    } else if f.method is Some {
        Some(McpIncoming::Notification { method: f.method.unwrap(), params: f.params })
    } else if f.id is None {
        None
    } else if f.result is Some {
        Some(McpIncoming::Result { id: McpRequestId(f.id.unwrap()), result: f.result.unwrap() })
    } else {
        match f.error {
            Some(e) => if e.code is Some && e.message is Some {
                Some(
                    McpIncoming::Error {
                        id: McpRequestId(f.id.unwrap()),
                        code: e.code.unwrap(),
                        message: e.message.unwrap(),
                    },
                )
            } else {
                None
            },
            None => None,
        }
    }
}

/// Classifies a device message.
pub fn parse_incoming(payload: RpcFields) -> (r: Option<McpIncoming>)
    ensures
        r == classified(payload),
{
    let ok = match &payload.jsonrpc {
        Some(v) => crate::unicode::text_eq(v.as_str(), "2.0"),
        None => false,
    };
    if !ok {
        return None;
    }
    let RpcFields { jsonrpc: _, method, params, id, result, error } = payload;
    if let Some(method) = method {
        return Some(McpIncoming::Notification { method, params });
    }
    let id = match id {
        Some(id) => McpRequestId(id),
        None => return None,
    };
    if let Some(result) = result {
        return Some(McpIncoming::Result { id, result });
    }
    match error {
        Some(e) => match (e.code, e.message) {
            (Some(code), Some(message)) => Some(McpIncoming::Error { id, code, message }),
            _ => None,
        },
        None => None,
    }
}

/// One entry of a `tools/list` page, as far as discovery reads it.
#[derive(Clone, Debug, PartialEq, Eq)]
pub struct ToolEntryFields {
    /// `name`, when a string.
    pub name: Option<String>,
    /// `description`, when a string.
    pub description: Option<String>,
    /// `inputSchema`, as JSON text, when present.
    pub input_schema: Option<String>,
}

/// A `tools/list` result, as far as discovery reads it.
#[derive(Clone, Debug, PartialEq, Eq)]
pub struct ToolsPageFields {
    /// Whether the result is a JSON object.
    pub is_object: bool,
    /// `tools`, when an array.
    pub tools: Option<Vec<ToolEntryFields>>,
    /// `nextCursor`, when a string.
    pub next_cursor: Option<String>,
}

/// The tool an entry describes: it needs a name and a schema; a missing description is
/// empty.
pub open spec fn entry_tool(e: ToolEntryFields) -> Option<(Seq<char>, Seq<char>, Seq<char>)> {
    if e.name is Some && e.input_schema is Some {
        Some(
            (
                e.name.unwrap()@,
                match e.description {
                    Some(d) => d@,
                    None => Seq::empty(),
                },
                e.input_schema.unwrap()@,
            ),
        )
    } else {
        None
    }
}

pub open spec fn tool_view(t: DiscoveredTool) -> (Seq<char>, Seq<char>, Seq<char>) {
    (t.original_name@, t.description@, t.input_schema@)
}

/// Whether `r` is the page `f` describes: every entry is a tool, and a non-empty
/// `nextCursor` asks for another page.
pub open spec fn page_matches(f: ToolsPageFields, r: Option<(Vec<DiscoveredTool>, Option<String>)>) -> bool {
    let valid = f.is_object && f.tools is Some && forall|i: int|
        0 <= i < f.tools.unwrap()@.len() ==> #[trigger] entry_tool(f.tools.unwrap()@[i]) is Some;
    if !valid {
        r is None
    } else {
        r matches Some((tools, cursor)) && tools@.len() == f.tools.unwrap()@.len() && (forall|i: int|
            0 <= i < tools@.len() ==> Some(tool_view(#[trigger] tools@[i])) == entry_tool(
                f.tools.unwrap()@[i],
            )) && match f.next_cursor {
            Some(c) => if c@.len() > 0 {
                cursor matches Some(k) && k@ == c@
            } else {
                cursor is None
            },
            None => cursor is None,
        }
    }
}

/// Reads one page of a device's tool list.
pub fn parse_tools_page(result: ToolsPageFields) -> (r: Option<(Vec<DiscoveredTool>, Option<String>)>)
    ensures
        page_matches(result, r),
{
    if !result.is_object {
        return None;
    }
    let ghost f = result;
    let ToolsPageFields { is_object: _, tools, next_cursor } = result;
    let entries = match tools {
        Some(t) => t,
        None => return None,
    };
    let mut out: Vec<DiscoveredTool> = Vec::new();
    let mut i: usize = 0;
    while i < entries.len()
        invariant
            f == result,
            f.tools == Some(entries),
            f.is_object,
            i <= entries@.len(),
            out@.len() == i,
            forall|j: int| 0 <= j < i ==> #[trigger] entry_tool(entries@[j]) is Some,
            forall|j: int| 0 <= j < i ==> Some(tool_view(#[trigger] out@[j])) == entry_tool(entries@[j]),
        decreases entries.len() - i,
    {
        let e = &entries[i];
        match (&e.name, &e.input_schema) {
            (Some(name), Some(schema)) => {
                let description = match &e.description {
                    Some(d) => d.clone(),
                    None => String::new(),
                };
                out.push(DiscoveredTool {
                    original_name: name.clone(),
                    description,
                    input_schema: schema.clone(),
                });
            },
            _ => {
                assert(entry_tool(entries@[i as int]) is None);
                return None;
            },
        }
        i = i + 1;
    }
    let cursor = match next_cursor {
        Some(c) => if chars_of(c.as_str()).len() > 0 {
            Some(c)
        } else {
            None
        },
        None => None,
    };
    Some((out, cursor))
}

/// The most characters of tool output passed on.
pub const MAX_TOOL_RESULT_CHARS: usize = 4096;

/// What a device's `tools/call` result holds, as far as the LLM sees it.
#[derive(Clone, Debug, PartialEq, Eq)]
pub struct ToolResultFields {
    /// `isError`, when a boolean.
    pub is_error: Option<bool>,
    /// For each item of `content` (when an array), its `text` when that is a string.
    pub content: Option<Vec<Option<String>>>,
}

/// The first text item of the content, if any.
pub open spec fn first_text(items: Seq<Option<String>>) -> Option<Seq<char>>
    decreases items.len(),
{
    if items.len() == 0 {
        None
    } else if items[0] is Some {
        Some(items[0].unwrap()@)
    } else {
        first_text(items.drop_first())
    }
}

pub open spec fn bool_text(b: bool) -> Seq<char> {
    if b {
        "true"@
    } else {
        "false"@
    }
}

/// The tool result text the LLM receives: whether the call succeeded, the error code when
/// not, the first text content cut to `MAX_TOOL_RESULT_CHARS` characters, and whether it
/// reached that length.
pub open spec fn normalized_result(f: ToolResultFields) -> Seq<char> {
    let is_error = result_is_error(f);
    let content = result_content(f);
    "{\"code\":"@ + (if is_error {
        "\"device_tool_error\""@
    } else {
        "null"@
    }) + ",\"content\":"@ + json_string_literal(content) + ",\"ok\":"@ + bool_text(!is_error)
        + ",\"truncated\":"@ + bool_text(content.len() == MAX_TOOL_RESULT_CHARS) + "}"@
}

/// Whether the device reported the call as failed.
pub open spec fn result_is_error(f: ToolResultFields) -> bool {
    match f.is_error {
        Some(b) => b,
        None => false,
    }
}

/// The first text content of a result, cut to `MAX_TOOL_RESULT_CHARS` characters; empty
/// when there is none.
pub open spec fn result_content(f: ToolResultFields) -> Seq<char> {
    let text = match f.content {
        Some(items) => match first_text(items@) {
            Some(t) => t,
            None => Seq::empty(),
        },
        None => Seq::empty(),
    };
    if text.len() > MAX_TOOL_RESULT_CHARS {
        text.take(MAX_TOOL_RESULT_CHARS as int)
    } else {
        text
    }
}

/// What an answer contributes to speaking tool results directly: the content of a
/// successful answer, trimmed, unless that is empty or starts like JSON (`{` or `[`).
pub open spec fn spoken_part(f: ToolResultFields) -> Option<Seq<char>> {
    let t = trim(result_content(f));
    if result_is_error(f) || t.len() == 0 || t[0] == '{' || t[0] == '[' {
        None
    } else {
        Some(t)
    }
}

/// The parts of direct speech joined by line breaks, skipping answers without one; `None`
/// when no answer has one.
pub open spec fn joined_speech(parts: Seq<Option<String>>) -> Option<Seq<char>>
    decreases parts.len(),
{
    if parts.len() == 0 {
        None
    } else {
        let before = joined_speech(parts.drop_last());
        match parts.last() {
            None => before,
            Some(p) => match before {
                None => Some(p@),
                Some(b) => Some(b + "\n"@ + p@),
            },
        }
    }
}

fn content_chars(result: &ToolResultFields) -> (content: Vec<char>)
    ensures
        content@ == result_content(*result),
{
    let text: Vec<char> = match &result.content {
        Some(items) => match first_text_of(items) {
            Some(t) => chars_of(t.as_str()),
            None => Vec::new(),
        },
        None => Vec::new(),
    };
    let mut content: Vec<char> = Vec::new();
    let mut k: usize = 0;
    while k < text.len() && k < MAX_TOOL_RESULT_CHARS
        invariant
            k <= text@.len(),
            k <= MAX_TOOL_RESULT_CHARS,
            content@ == text@.take(k as int),
        decreases text.len() - k,
    {
        content.push(text[k]);
        k = k + 1;
        assert(content@ =~= text@.take(k as int));
    }
    assert(content@ == if text@.len() > MAX_TOOL_RESULT_CHARS {
        text@.take(MAX_TOOL_RESULT_CHARS as int)
    } else {
        text@
    });
    content
}

/// What a device answer contributes to speaking tool results directly.
pub fn spoken_answer(result: &ToolResultFields) -> (r: Option<String>)
    ensures
        match spoken_part(*result) {
            Some(t) => r matches Some(s) && s@ == t,
            None => r is None,
        },
{
    let is_error = match result.is_error {
        Some(b) => b,
        None => false,
    };
    let content = content_chars(result);
    let t = trim_chars(&content);
    if is_error || t.len() == 0 || t[0] == '{' || t[0] == '[' {
        None
    } else {
        Some(string_of(&t))
    }
}

/// The text spoken for a tool batch whose answers are spoken directly: each answer's part
/// (see `spoken_answer`; failed calls have none), joined by line breaks.
pub fn direct_tts_text(parts: &Vec<Option<String>>) -> (r: Option<String>)
    ensures
        match joined_speech(parts@) {
            Some(t) => r matches Some(s) && s@ == t,
            None => r is None,
        },
{
    let mut out: Vec<char> = Vec::new();
    let mut any = false;
    let mut i: usize = 0;
    while i < parts.len()
        invariant
            i <= parts@.len(),
            match joined_speech(parts@.take(i as int)) {
                Some(t) => any && out@ == t,
                None => !any && out@.len() == 0,
            },
        decreases parts.len() - i,
    {
        assert(parts@.take(i + 1).drop_last() =~= parts@.take(i as int));
        match &parts[i] {
            Some(p) => {
                let ghost b0 = out@;
                if any {
                    out.push('\n');
                }
                push_str(&mut out, p.as_str());
                any = true;
                proof {
                    reveal_strlit("\n");
                    if joined_speech(parts@.take(i as int)) is Some {
                        assert(out@ =~= b0 + "\n"@ + p@);
                    } else {
                        assert(out@ =~= p@);
                    }
                }
            },
            None => {},
        }
        i = i + 1;
    }
    assert(parts@.take(i as int) =~= parts@);
    if any {
        Some(string_of(&out))
    } else {
        None
    }
}

fn push_bool(out: &mut Vec<char>, b: bool)
    ensures
        final(out)@ == old(out)@ + bool_text(b),
{
    if b {
        push_str(out, "true");
    } else {
        push_str(out, "false");
    }
}

fn first_text_of(items: &Vec<Option<String>>) -> (r: Option<&String>)
    ensures
        match r {
            Some(s) => first_text(items@) == Some(s@),
            None => first_text(items@) is None,
        },
{
    let mut i: usize = 0;
    assert(items@.skip(0) =~= items@);
    while i < items.len()
        invariant
            i <= items@.len(),
            first_text(items@) == first_text(items@.skip(i as int)),
        decreases items.len() - i,
    {
        assert(items@.skip(i as int).drop_first() =~= items@.skip(i + 1));
        match &items[i] {
            Some(t) => {
                return Some(t);
            },
            None => {},
        }
        i = i + 1;
    }
    assert(items@.skip(i as int).len() == 0);
    None
}

/// Normalizes a device tool result into the JSON text given to the LLM.
pub fn normalize_tool_result(result: &ToolResultFields) -> (r: String)
    ensures
        r@ == normalized_result(*result),
{
    let is_error = match result.is_error {
        Some(b) => b,
        None => false,
    };
    let content = content_chars(result);
    let count = content.len();
    let content_text = string_of(&content);
    let mut out: Vec<char> = Vec::new();
    push_str(&mut out, "{\"code\":");
    if is_error {
        push_str(&mut out, "\"device_tool_error\"");
    } else {
        push_str(&mut out, "null");
    }
    push_str(&mut out, ",\"content\":");
    let q = json_quote(content_text.as_str());
    push_str(&mut out, q.as_str());
    push_str(&mut out, ",\"ok\":");
    push_bool(&mut out, !is_error);
    push_str(&mut out, ",\"truncated\":");
    push_bool(&mut out, count == MAX_TOOL_RESULT_CHARS);
    push_str(&mut out, "}");
    assert(out@ =~= normalized_result(*result));
    string_of(&out)
}

/// The tool result text for a call that failed before or at the device, with its code.
pub open spec fn failed_result(code: Seq<char>) -> Seq<char> {
    "{\"code\":"@ + json_string_literal(code) + ",\"ok\":false}"@
}

/// The tool result for a call that could not be completed.
pub fn tool_failure_result(code: &str) -> (r: String)
    ensures
        r@ == failed_result(code@),
{
    let mut out: Vec<char> = Vec::new();
    push_str(&mut out, "{\"code\":");
    let q = json_quote(code);
    push_str(&mut out, q.as_str());
    push_str(&mut out, ",\"ok\":false}");
    assert(out@ =~= failed_result(code@));
    string_of(&out)
}

} // verus!
