//! Vendor-neutral LLM vocabulary: chat messages, tool calls and requests.
//!
//! JSON payloads (tool arguments, tool parameter schemas) are carried as their compact
//! JSON text, which is all the library reads of them.
use vstd::prelude::*;
use crate::text::is_json_document;

verus! {

/// A tool invocation requested by the model.
#[derive(Debug, PartialEq, Eq)]
pub struct ToolCall {
    pub id: String,
    pub name: String,
    /// The call's arguments as compact JSON text.
    pub arguments: String,
}

/// The abstract content of a `ToolCall`.
pub struct ToolCallView {
    pub id: Seq<char>,
    pub name: Seq<char>,
    pub arguments: Seq<char>,
}

impl View for ToolCall {
    type V = ToolCallView;

    open spec fn view(&self) -> ToolCallView {
        ToolCallView { id: self.id@, name: self.name@, arguments: self.arguments@ }
    }
}

impl Clone for ToolCall {
    fn clone(&self) -> (r: Self)
        ensures
            r == *self,
    {
        ToolCall { id: self.id.clone(), name: self.name.clone(), arguments: self.arguments.clone() }
    }
}

/// The views of a sequence of tool calls.
pub open spec fn calls_view(calls: Seq<ToolCall>) -> Seq<ToolCallView> {
    calls.map_values(|c: ToolCall| c@)
}

/// Copies a list of tool calls.
pub fn clone_calls(calls: &Vec<ToolCall>) -> (r: Vec<ToolCall>)
    ensures
        r@ == calls@,
{
    let mut r: Vec<ToolCall> = Vec::new();
    let mut i: usize = 0;
    while i < calls.len()
        invariant
            i <= calls@.len(),
            r@ == calls@.take(i as int),
        decreases calls.len() - i,
    {
        r.push(calls[i].clone());
        i = i + 1;
        assert(r@ =~= calls@.take(i as int));
    }
    assert(calls@.take(i as int) =~= calls@);
    r
}

/// One message of a chat request.
#[derive(Debug, PartialEq, Eq)]
pub enum ChatMessage {
    System { content: String },
    User { content: String },
    AssistantText { content: String },
    AssistantToolCalls { calls: Vec<ToolCall> },
    ToolResult { tool_call_id: String, content: String },
}

/// The abstract content of a `ChatMessage`.
pub enum MessageView {
    System(Seq<char>),
    User(Seq<char>),
    AssistantText(Seq<char>),
    AssistantToolCalls(Seq<ToolCallView>),
    ToolResult(Seq<char>, Seq<char>),
}

impl View for ChatMessage {
    type V = MessageView;

    open spec fn view(&self) -> MessageView {
        match self {
            ChatMessage::System { content } => MessageView::System(content@),
            ChatMessage::User { content } => MessageView::User(content@),
            ChatMessage::AssistantText { content } => MessageView::AssistantText(content@),
            ChatMessage::AssistantToolCalls { calls } => MessageView::AssistantToolCalls(
                calls_view(calls@),
            ),
            ChatMessage::ToolResult { tool_call_id, content } => MessageView::ToolResult(
                tool_call_id@,
                content@,
            ),
        }
    }
}

impl Clone for ChatMessage {
    fn clone(&self) -> (r: Self)
        ensures
            r@ == self@,
    {
        match self {
            ChatMessage::System { content } => ChatMessage::System { content: content.clone() },
            ChatMessage::User { content } => ChatMessage::User { content: content.clone() },
            ChatMessage::AssistantText { content } => ChatMessage::AssistantText {
                content: content.clone(),
            },
            ChatMessage::AssistantToolCalls { calls } => {
                let copied = clone_calls(calls);
                ChatMessage::AssistantToolCalls { calls: copied }
            },
            ChatMessage::ToolResult { tool_call_id, content } => ChatMessage::ToolResult {
                tool_call_id: tool_call_id.clone(),
                content: content.clone(),
            },
        }
    }
}

/// The views of a sequence of messages.
pub open spec fn messages_view(ms: Seq<ChatMessage>) -> Seq<MessageView> {
    ms.map_values(|m: ChatMessage| m@)
}

/// Whether a message is the result of a tool call.
pub open spec fn is_tool_result(m: MessageView) -> bool {
    m is ToolResult
}

/// A tool the model may call.
#[derive(Clone, Debug, PartialEq, Eq)]
pub struct ToolDefinition {
    pub name: String,
    pub description: String,
    /// The parameter schema as compact JSON text.
    pub parameters: String,
}

/// A chat request: the conversation so far and the tools on offer.
#[derive(Debug, PartialEq, Eq)]
pub struct LlmRequest {
    pub messages: Vec<ChatMessage>,
    pub tools: Vec<ToolDefinition>,
}

impl LlmRequest {
    /// A request holding one user message and no tools.
    pub fn text_turn(text: String) -> (r: Self)
        ensures
            r.messages@.len() == 1,
            r.messages@[0]@ == MessageView::User(text@),
            r.tools@.len() == 0,
    {
        let mut messages: Vec<ChatMessage> = Vec::new();
        messages.push(ChatMessage::User { content: text });
        LlmRequest { messages, tools: Vec::new() }
    }
}

/// What a model stream yields.
#[derive(Debug, PartialEq, Eq)]
pub enum LlmEvent {
    TextDelta(String),
    ToolCall(ToolCall),
    Finished,
}

#[derive(Clone, Copy, Debug, PartialEq, Eq)]
pub enum LlmError {
    Failed,
}

/// The model used when no LLM provider is configured: every completion fails.
#[derive(Clone, Copy, Debug, Default)]
pub struct UnavailableLlm;

impl UnavailableLlm {
    pub fn adapter(&self) -> (r: &'static str)
        ensures
            r@ == "unavailable"@,
    {
        "unavailable"
    }

    pub fn complete(&self, request: &LlmRequest) -> (r: Result<String, LlmError>)
        ensures
            r == Err::<String, LlmError>(LlmError::Failed),
    {
        Err(LlmError::Failed)
    }
}

/// The compact JSON text `serde_json` writes for the document `text` reads as.
pub uninterp spec fn compact_json(text: Seq<char>) -> Seq<char>;

/// Calls `serde_json::from_str::<serde_json::Value>` and writes a document it reads back
/// with `Value::to_string`; `None` when `text` is not one JSON document.
#[verifier::external_body]
fn compact_json_text(text: &str) -> (r: Option<String>)
    ensures
        r is Some <==> is_json_document(text@),
        r matches Some(c) ==> c@ == compact_json(text@),
{
    serde_json::from_str::<serde_json::Value>(text).ok().map(|v| v.to_string())
}

/// One chunk of a chat provider's tool-aware stream, as the session reads it.
#[derive(Debug, PartialEq, Eq)]
pub enum StreamChunk {
    Text(String),
    ToolUseStart { index: usize },
    ToolUseInputDelta { index: usize },
    /// A tool call the provider finished assembling; `arguments` is its JSON text.
    ToolUseComplete { id: String, name: String, arguments: String },
    Done,
    /// The stream reported an error.
    Failed,
}

/// Maps a provider's stream chunk to the session's vocabulary. The start of a tool use
/// and its argument deltas are not events: the provider assembles them and hands over the
/// complete call later in the same stream. A complete call whose arguments are not one JSON
/// document, and a stream error, fail the round.
pub fn adapt_stream_chunk(chunk: StreamChunk) -> (r: Option<Result<LlmEvent, LlmError>>)
    ensures
        match chunk {
            StreamChunk::Text(t) => r matches Some(Ok(LlmEvent::TextDelta(d))) && d@ == t@,
            StreamChunk::ToolUseStart { .. } => r is None,
            StreamChunk::ToolUseInputDelta { .. } => r is None,
            StreamChunk::ToolUseComplete { id, name, arguments } => if is_json_document(arguments@) {
                r matches Some(Ok(LlmEvent::ToolCall(c))) && c.id@ == id@ && c.name@ == name@
                    && c.arguments@ == compact_json(arguments@)
            } else {
                r == Some(Err::<LlmEvent, LlmError>(LlmError::Failed))
            },
            StreamChunk::Done => r == Some(Ok::<LlmEvent, LlmError>(LlmEvent::Finished)),
            StreamChunk::Failed => r == Some(Err::<LlmEvent, LlmError>(LlmError::Failed)),
        },
{
    match chunk {
        StreamChunk::Text(t) => Some(Ok(LlmEvent::TextDelta(t))),
        StreamChunk::ToolUseStart { .. } => None,
        StreamChunk::ToolUseInputDelta { .. } => None,
        StreamChunk::ToolUseComplete { id, name, arguments } => match compact_json_text(arguments.as_str()) {
            Some(compact) => Some(Ok(LlmEvent::ToolCall(ToolCall { id, name, arguments: compact }))),
            None => Some(Err(LlmError::Failed)),
        },
        StreamChunk::Done => Some(Ok(LlmEvent::Finished)),
        StreamChunk::Failed => Some(Err(LlmError::Failed)),
    }
}

} // verus!
