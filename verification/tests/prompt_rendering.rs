use voice_agent_server::config::EffectiveAgentConfig;
use voice_agent_server::llm::{ChatMessage, LlmRequest, ToolCall, ToolDefinition};
use voice_agent_server::prompt::{
    append_completed_round, llm_request_size_bytes, render_system, PromptError,
    LLM_REQUEST_HARD_LIMIT_BYTES,
};

#[test]
fn template_is_strict_and_single_pass() {
    let mut agent = EffectiveAgentConfig::default();
    agent.prompt_template = "{{persona}} {{agent_name}}".into();
    agent.persona = "{{language}}".into();
    assert_eq!(render_system(&agent).unwrap(), "{{language}} Mây");
    agent.prompt_template = "{{ persona }}".into();
    assert_eq!(render_system(&agent), Err(PromptError::InvalidTemplate));
}

#[test]
fn request_bound_uses_utf8_content_and_fixed_overhead() {
    let request = LlmRequest {
        messages: vec![ChatMessage::System {
            content: "é".into(),
        }],
        tools: Vec::new(),
    };
    assert_eq!(llm_request_size_bytes(&request), Ok(32 + 32 + 2));
    let oversized = LlmRequest {
        messages: vec![ChatMessage::User {
            content: "x".repeat(LLM_REQUEST_HARD_LIMIT_BYTES),
        }],
        tools: Vec::new(),
    };
    assert_eq!(
        llm_request_size_bytes(&oversized),
        Err(PromptError::RequestTooLarge)
    );
}

fn agent(template: &str) -> EffectiveAgentConfig {
    EffectiveAgentConfig {
        name: "Bot".into(),
        persona: "kind".into(),
        language: "vi".into(),
        prompt_template: template.into(),
    }
}

#[test]
fn every_placeholder_is_filled() {
    assert_eq!(
        render_system(&agent("I am {{agent_name}}, {{persona}}, speaking {{language}}.")).unwrap(),
        "I am Bot, kind, speaking vi."
    );
}

#[test]
fn template_errors() {
    assert_eq!(render_system(&agent("{% if %}{{persona}}")), Err(PromptError::InvalidTemplate));
    assert_eq!(render_system(&agent("{{persona}")), Err(PromptError::InvalidTemplate));
    assert_eq!(render_system(&agent("a }} {{persona}}")), Err(PromptError::InvalidTemplate));
    assert_eq!(render_system(&agent("{{persona}} }}")), Err(PromptError::InvalidTemplate));
    assert_eq!(render_system(&agent("{{mood}} {{persona}}")), Err(PromptError::InvalidTemplate));
    assert_eq!(render_system(&agent("{{agent_name}}")), Err(PromptError::MissingPersona));
    assert_eq!(render_system(&agent("plain")), Err(PromptError::MissingPersona));
}

#[test]
fn default_agent_renders_its_persona() {
    let mut a = EffectiveAgentConfig::default();
    a.persona = "{{agent_name}}".into();
    assert_eq!(render_system(&a).unwrap(), "{{agent_name}}");
}

#[test]
fn request_size_counts_every_part() {
    let request = LlmRequest {
        messages: vec![
            ChatMessage::User { content: "hi".into() },
            ChatMessage::AssistantToolCalls {
                calls: vec![ToolCall {
                    id: "c1".into(),
                    name: "set".into(),
                    arguments: "{\"v\":5}".into(),
                }],
            },
            ChatMessage::ToolResult {
                tool_call_id: "c1".into(),
                content: "ok".into(),
            },
            ChatMessage::AssistantText { content: "xin chào".into() },
        ],
        tools: vec![ToolDefinition {
            name: "set".into(),
            description: "sets".into(),
            parameters: "{}".into(),
        }],
    };
    let expected = 32
        + (32 + 2)
        + (32 + 48 + 2 + 3 + 7)
        + (32 + 48 + 2 + 2)
        + (32 + "xin chào".len())
        + (64 + 3 + 4 + 2);
    assert_eq!(llm_request_size_bytes(&request), Ok(expected));
}

#[test]
fn request_at_the_limit_is_accepted() {
    let exact = LlmRequest {
        messages: vec![ChatMessage::User {
            content: "x".repeat(LLM_REQUEST_HARD_LIMIT_BYTES - 64),
        }],
        tools: Vec::new(),
    };
    assert_eq!(llm_request_size_bytes(&exact), Ok(LLM_REQUEST_HARD_LIMIT_BYTES));
    let over = LlmRequest {
        messages: vec![ChatMessage::User {
            content: "x".repeat(LLM_REQUEST_HARD_LIMIT_BYTES - 63),
        }],
        tools: Vec::new(),
    };
    assert_eq!(llm_request_size_bytes(&over), Err(PromptError::RequestTooLarge));
}

#[test]
fn completed_round_follows_its_calls() {
    let mut messages = vec![ChatMessage::User { content: "u".into() }];
    append_completed_round(&mut messages, Vec::new(), Vec::new());
    assert_eq!(messages.len(), 1);
    let call = ToolCall {
        id: "a".into(),
        name: "t".into(),
        arguments: "{}".into(),
    };
    let result = ChatMessage::ToolResult {
        tool_call_id: "a".into(),
        content: "{}".into(),
    };
    append_completed_round(&mut messages, vec![call.clone()], vec![result.clone()]);
    assert_eq!(
        messages,
        vec![
            ChatMessage::User { content: "u".into() },
            ChatMessage::AssistantToolCalls { calls: vec![call] },
            result,
        ]
    );
}
