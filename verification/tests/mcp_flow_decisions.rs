use voice_agent_server::llm::{ChatMessage, ToolCall};
use voice_agent_server::mcp::{
    direct_tts_text, normalize_tool_result, spoken_answer, tool_failure_result, McpOutgoing,
    ToolResultFields,
};
use voice_agent_server::mcp_flow::{
    batch_result_delivery, BatchStep, DeviceMcpFlow, Expired, McpResultDelivery, PendingKind,
};
use voice_agent_server::tools::{DiscoveredTool, McpRequestId};

fn tool(name: &str) -> DiscoveredTool {
    DiscoveredTool {
        original_name: name.into(),
        description: format!("{name} tool"),
        input_schema: "{\"type\":\"object\"}".into(),
    }
}

fn call(id: &str, name: &str, arguments: &str) -> ToolCall {
    ToolCall { id: id.into(), name: name.into(), arguments: arguments.into() }
}

/// A channel that discovered `self.light.set` and `self.volume.get` over two pages.
fn ready_channel() -> DeviceMcpFlow {
    let mut flow = DeviceMcpFlow::new(true, Vec::new());
    let init = flow.begin_discovery().unwrap();
    assert_eq!(init, McpOutgoing::Initialize { id: McpRequestId(1) });
    flow.record_request(McpRequestId(1), None, PendingKind::Initialize);
    assert_eq!(flow.take_pending(McpRequestId(1), 0), Some(PendingKind::Initialize));
    let first = flow.initialized(true).unwrap();
    assert_eq!(first, McpOutgoing::ToolsList { id: McpRequestId(2), cursor: None });
    flow.record_request(McpRequestId(2), None, PendingKind::ToolsList);
    assert_eq!(flow.take_pending(McpRequestId(2), 0), Some(PendingKind::ToolsList));
    let second = flow.tools_page(Some((vec![tool("self.light.set")], Some("p2".into())))).unwrap();
    assert_eq!(second, McpOutgoing::ToolsList { id: McpRequestId(3), cursor: Some("p2".into()) });
    assert!(!flow.ready);
    flow.record_request(McpRequestId(3), None, PendingKind::ToolsList);
    assert_eq!(flow.take_pending(McpRequestId(3), 0), Some(PendingKind::ToolsList));
    assert_eq!(flow.tools_page(Some((vec![tool("self.volume.get"), tool("self.reboot")], None))), None);
    assert!(flow.ready);
    flow
}

#[test]
fn discovery_walks_the_pages_and_offers_safe_tools() {
    let flow = ready_channel();
    assert!(flow.discovered.is_empty());
    let names: Vec<&str> = flow.visible.iter().map(|t| t.llm_name.as_str()).collect();
    assert_eq!(names, vec!["self_light_set", "self_volume_get"]);
    assert_eq!(flow.visible[0].original_name, "self.light.set");
    assert!(flow.pending.is_empty());
}

#[test]
fn discovery_starts_only_once_on_an_enabled_channel() {
    let mut disabled = DeviceMcpFlow::new(false, Vec::new());
    assert_eq!(disabled.begin_discovery(), None);
    assert_eq!(disabled.next_request_id, 0);
    let mut ready = ready_channel();
    assert_eq!(ready.begin_discovery(), None);
    let mut exhausted = DeviceMcpFlow::new(true, Vec::new());
    exhausted.next_request_id = u64::MAX;
    assert_eq!(exhausted.begin_discovery(), None);
    assert!(exhausted.failed);
}

#[test]
fn failed_discovery_keeps_only_tool_calls_awaited() {
    let mut flow = DeviceMcpFlow::new(true, Vec::new());
    flow.begin_discovery();
    flow.record_request(McpRequestId(1), None, PendingKind::Initialize);
    flow.record_request(McpRequestId(7), Some(3), PendingKind::ToolCall(call("c", "x", "{}")));
    assert_eq!(flow.initialized(false), None);
    assert!(flow.failed);
    assert!(!flow.ready);
    assert_eq!(flow.pending.len(), 1);
    assert_eq!(flow.pending[0].id, McpRequestId(7));
    let mut malformed = DeviceMcpFlow::new(true, Vec::new());
    assert_eq!(malformed.tools_page(None), None);
    assert!(malformed.failed);
}

#[test]
fn answers_of_another_turn_are_dropped() {
    let mut flow = DeviceMcpFlow::new(true, Vec::new());
    flow.record_request(McpRequestId(4), Some(2), PendingKind::ToolCall(call("c", "x", "{}")));
    assert_eq!(flow.take_pending(McpRequestId(4), 3), None);
    assert!(flow.pending.is_empty());
    assert_eq!(flow.take_pending(McpRequestId(4), 2), None);
}

#[test]
fn recording_replaces_a_request_under_the_same_id() {
    let mut flow = DeviceMcpFlow::new(true, Vec::new());
    flow.record_request(McpRequestId(5), None, PendingKind::Initialize);
    flow.record_request(McpRequestId(6), None, PendingKind::ToolsList);
    flow.record_request(McpRequestId(5), None, PendingKind::ToolsList);
    assert_eq!(flow.pending.len(), 2);
    assert_eq!(flow.take_pending(McpRequestId(5), 0), Some(PendingKind::ToolsList));
}

#[test]
fn a_tool_batch_runs_its_calls_in_order() {
    let mut flow = ready_channel();
    let calls = vec![
        call("a", "self_light_set", "{\"on\":true}"),
        call("b", "self_volume_get", "{}"),
    ];
    let step = flow.start_tool_batch(calls, 9);
    let first = match step {
        BatchStep::Send { request, call } => {
            assert_eq!(
                request,
                McpOutgoing::ToolsCall {
                    id: McpRequestId(4),
                    name: "self.light.set".into(),
                    arguments: "{\"on\":true}".into(),
                }
            );
            call
        }
        other => panic!("unexpected step {:?}", other),
    };
    flow.record_request(McpRequestId(4), Some(9), PendingKind::ToolCall(first.clone()));
    let answered = match flow.take_pending(McpRequestId(4), 9) {
        Some(PendingKind::ToolCall(c)) => c,
        other => panic!("unexpected pending {:?}", other),
    };
    flow.record_answer(answered, "{\"ok\":true}".into());
    let second = match flow.dispatch_next_tool(9) {
        BatchStep::Send { request, call } => {
            assert_eq!(request.id(), McpRequestId(5));
            call
        }
        other => panic!("unexpected step {:?}", other),
    };
    flow.record_request(McpRequestId(5), Some(9), PendingKind::ToolCall(second));
    let timed_out = match flow.expire(McpRequestId(5)) {
        Expired::ToolCall(c) => c,
        other => panic!("unexpected expiry {:?}", other),
    };
    flow.record_answer(timed_out, tool_failure_result("timeout"));
    match flow.dispatch_next_tool(9) {
        BatchStep::Finished(batch) => {
            assert_eq!(batch.calls.len(), 2);
            assert_eq!(batch.next, 2);
            assert_eq!(
                batch.results,
                vec![
                    ChatMessage::ToolResult { tool_call_id: "a".into(), content: "{\"ok\":true}".into() },
                    ChatMessage::ToolResult {
                        tool_call_id: "b".into(),
                        content: "{\"code\":\"timeout\",\"ok\":false}".into(),
                    },
                ]
            );
        }
        other => panic!("unexpected step {:?}", other),
    }
    assert!(matches!(flow.dispatch_next_tool(9), BatchStep::Idle));
}

#[test]
fn a_batch_needs_a_ready_channel_and_a_call() {
    let mut flow = DeviceMcpFlow::new(true, Vec::new());
    assert!(matches!(flow.start_tool_batch(vec![call("a", "x", "{}")], 1), BatchStep::FailDelivery));
    let mut ready = ready_channel();
    assert!(matches!(ready.start_tool_batch(Vec::new(), 1), BatchStep::FailDelivery));
}

#[test]
fn a_batch_of_another_turn_is_handed_back() {
    let mut flow = ready_channel();
    flow.start_tool_batch(vec![call("a", "self_light_set", "{}")], 1);
    assert!(matches!(flow.dispatch_next_tool(2), BatchStep::Finished(_)));
    assert!(flow.batch.is_none());
}

#[test]
fn cancelling_a_turn_forgets_its_requests() {
    let mut flow = ready_channel();
    flow.start_tool_batch(vec![call("a", "self_light_set", "{}")], 1);
    flow.record_request(McpRequestId(4), Some(1), PendingKind::ToolCall(call("a", "self_light_set", "{}")));
    flow.record_request(McpRequestId(5), None, PendingKind::ToolsList);
    flow.cancel_turn();
    assert!(flow.batch.is_none());
    assert_eq!(flow.pending.len(), 1);
    assert_eq!(flow.pending[0].id, McpRequestId(5));
    assert_eq!(flow.expire(McpRequestId(9)), Expired::Unknown);
    assert_eq!(flow.expire(McpRequestId(5)), Expired::DiscoveryFailed);
    assert!(flow.failed);
}

#[test]
fn batch_delivery_prefers_the_model_then_direct_speech() {
    let flow = ready_channel();
    let overrides = vec![
        ("self.light.set".to_string(), McpResultDelivery::Silent),
        ("self.volume.get".to_string(), McpResultDelivery::DirectTts),
    ];
    let light = vec![call("a", "self_light_set", "{}")];
    assert_eq!(
        batch_result_delivery(&flow.visible, &overrides, McpResultDelivery::LlmThenTts, &light),
        McpResultDelivery::Silent
    );
    let both = vec![call("a", "self_light_set", "{}"), call("b", "self_volume_get", "{}")];
    assert_eq!(
        batch_result_delivery(&flow.visible, &overrides, McpResultDelivery::LlmThenTts, &both),
        McpResultDelivery::DirectTts
    );
    let unknown = vec![call("a", "self_light_set", "{}"), call("c", "nope", "{}")];
    assert_eq!(
        batch_result_delivery(&flow.visible, &overrides, McpResultDelivery::LlmThenTts, &unknown),
        McpResultDelivery::LlmThenTts
    );
    assert_eq!(
        batch_result_delivery(&flow.visible, &overrides, McpResultDelivery::LlmThenTts, &Vec::new()),
        McpResultDelivery::Silent
    );
}

fn answer(is_error: Option<bool>, text: Option<&str>) -> ToolResultFields {
    ToolResultFields { is_error, content: Some(vec![None, text.map(String::from)]) }
}

#[test]
fn only_successful_plain_answers_are_spoken() {
    assert_eq!(spoken_answer(&answer(None, Some("  Đèn đã bật. "))), Some("Đèn đã bật.".to_string()));
    assert_eq!(spoken_answer(&answer(Some(true), Some("lỗi"))), None);
    assert_eq!(spoken_answer(&answer(Some(false), Some(" {\"a\":1}"))), None);
    assert_eq!(spoken_answer(&answer(None, Some("[1,2]"))), None);
    assert_eq!(spoken_answer(&answer(None, Some("   "))), None);
    assert_eq!(spoken_answer(&ToolResultFields { is_error: None, content: None }), None);
    // The spoken part is the content the normalized answer carries.
    let long = "x".repeat(5000);
    assert_eq!(spoken_answer(&answer(None, Some(&long))).unwrap().len(), 4096);
    assert!(normalize_tool_result(&answer(None, Some(&long))).ends_with("\"ok\":true,\"truncated\":true}"));
}

#[test]
fn direct_speech_joins_the_spoken_parts() {
    let parts = vec![Some("Một".to_string()), None, Some("Hai".to_string())];
    assert_eq!(direct_tts_text(&parts), Some("Một\nHai".to_string()));
    assert_eq!(direct_tts_text(&vec![None, None]), None);
    assert_eq!(direct_tts_text(&Vec::new()), None);
    assert_eq!(direct_tts_text(&vec![Some(String::new())]), Some(String::new()));
}

#[test]
fn dispatch_needs_an_offered_tool_object_arguments_and_an_id() {
    let mut flow = ready_channel();
    assert!(flow.can_dispatch(1));
    flow.start_tool_batch(vec![call("a", "self_light_set", "{}"), call("b", "missing", "{}")], 1);
    flow.record_answer(call("a", "self_light_set", "{}"), "{}".into());
    assert!(!flow.can_dispatch(1));
    assert!(flow.can_dispatch(2));
    let mut args = ready_channel();
    args.start_tool_batch(vec![call("a", "self_light_set", "{}"), call("b", "self_volume_get", "[1]")], 3);
    assert!(!args.can_dispatch(3));
    let mut ids = ready_channel();
    ids.start_tool_batch(vec![call("a", "self_light_set", "{}"), call("b", "self_volume_get", "{}")], 3);
    assert!(ids.can_dispatch(3));
    ids.next_request_id = u64::MAX;
    assert!(!ids.can_dispatch(3));
}

#[test]
fn an_unsendable_head_call_is_answered_with_its_failure() {
    let mut flow = ready_channel();
    flow.start_tool_batch(
        vec![
            call("a", "self_light_set", "{}"),
            call("b", "missing", "{}"),
            call("c", "self_volume_get", "[1]"),
            call("d", "self_volume_get", "{}"),
        ],
        4,
    );
    flow.record_answer(call("a", "self_light_set", "{}"), "{}".into());
    assert!(!flow.can_dispatch(4));
    flow.fail_head_call(4);
    assert!(!flow.can_dispatch(4));
    flow.fail_head_call(4);
    flow.next_request_id = u64::MAX;
    assert!(!flow.can_dispatch(4));
    flow.fail_head_call(4);
    let batch = flow.batch.as_ref().unwrap();
    assert_eq!(batch.next, 4);
    assert_eq!(
        batch.results[1..],
        [
            ChatMessage::ToolResult { tool_call_id: "b".into(), content: "{\"code\":\"unknown_tool\",\"ok\":false}".into() },
            ChatMessage::ToolResult { tool_call_id: "c".into(), content: "{\"code\":\"invalid_arguments\",\"ok\":false}".into() },
            ChatMessage::ToolResult { tool_call_id: "d".into(), content: "{\"code\":\"request_id_exhausted\",\"ok\":false}".into() },
        ]
    );
    assert!(matches!(flow.dispatch_next_tool(4), BatchStep::Finished(_)));
}
