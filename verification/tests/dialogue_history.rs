use voice_agent_server::dialogue::DialogueHistory;
use voice_agent_server::llm::{ChatMessage, ToolCall};
use voice_agent_server::session::TurnId;

fn call(id: &str) -> ToolCall {
    ToolCall {
        id: id.into(),
        name: "tool".into(),
        arguments: "{}".into(),
    }
}

fn result(id: &str) -> ChatMessage {
    ChatMessage::ToolResult {
        tool_call_id: id.into(),
        content: "{}".into(),
    }
}

fn user(text: &str) -> ChatMessage {
    ChatMessage::User {
        content: text.into(),
    }
}

#[test]
fn materializes_tool_rounds_without_dangling_calls() {
    let first = TurnId::new(1).unwrap();
    let mut history = DialogueHistory::new(20);
    history.commit_user(first, "u".into());
    assert!(history.append_completed_round(first, vec![call("a")], vec![result("a")]));
    assert!(history.append_completed_round(first, vec![call("c")], vec![result("c")]));
    assert_eq!(
        history.messages_for_prompt(first).unwrap(),
        vec![
            ChatMessage::User {
                content: "u".into()
            },
            ChatMessage::AssistantToolCalls {
                calls: vec![call("a")]
            },
            result("a"),
            ChatMessage::AssistantToolCalls {
                calls: vec![call("c")]
            },
            result("c"),
        ]
    );
}

#[test]
fn keeps_current_atom_when_it_exceeds_eviction_target() {
    let current = TurnId::new(2).unwrap();
    let mut history = DialogueHistory::new(1);
    history.commit_user(current, "u".into());
    assert!(history.append_completed_round(current, vec![call("a")], vec![result("a")]));
    assert_eq!(history.messages_for_prompt(current).unwrap().len(), 3);
}

#[test]
fn rejects_rounds_with_missing_or_foreign_results() {
    let turn = TurnId::new(3).unwrap();
    let mut history = DialogueHistory::new(20);
    history.commit_user(turn, "u".into());
    assert!(!history.append_completed_round(turn, vec![], vec![]));
    assert!(!history.append_completed_round(turn, vec![call("a"), call("b")], vec![result("a")]));
    assert!(!history.append_completed_round(turn, vec![call("a")], vec![user("not a result")]));
    let unknown = TurnId::new(9).unwrap();
    assert!(!history.append_completed_round(unknown, vec![call("a")], vec![result("a")]));
    assert_eq!(history.messages_for_prompt(turn).unwrap(), vec![user("u")]);
}

#[test]
fn prompt_is_only_given_to_the_newest_turn() {
    let old = TurnId::new(1).unwrap();
    let new = TurnId::new(2).unwrap();
    let mut history = DialogueHistory::new(20);
    assert_eq!(history.messages_for_prompt(old), None);
    history.commit_user(old, "first".into());
    history.commit_assistant(old, "reply".into());
    history.commit_user(new, "second".into());
    assert_eq!(history.messages_for_prompt(old), None);
    assert_eq!(
        history.messages_for_prompt(new).unwrap(),
        vec![
            user("first"),
            ChatMessage::AssistantText {
                content: "reply".into()
            },
            user("second"),
        ]
    );
    assert_eq!(history.messages(), ["first", "reply", "second"]);
}

#[test]
fn eviction_removes_whole_oldest_exchanges() {
    let mut history = DialogueHistory::new(3);
    for (n, text) in [(1u64, "one"), (2, "two"), (3, "three")] {
        let turn = TurnId::new(n).unwrap();
        history.commit_user(turn, text.into());
        history.commit_assistant(turn, format!("re {text}"));
    }
    let last = TurnId::new(3).unwrap();
    assert_eq!(
        history.messages_for_prompt(last).unwrap(),
        vec![
            user("three"),
            ChatMessage::AssistantText {
                content: "re three".into()
            },
        ]
    );
    assert_eq!(history.messages(), ["three", "re three"]);
}

#[test]
fn assistant_reply_for_an_unknown_turn_changes_nothing() {
    let turn = TurnId::new(4).unwrap();
    let mut history = DialogueHistory::new(20);
    history.commit_user(turn, "u".into());
    history.commit_assistant(TurnId::new(5).unwrap(), "stray".into());
    assert_eq!(history.messages(), ["u"]);
    assert_eq!(history.messages_for_prompt(turn).unwrap(), vec![user("u")]);
}
