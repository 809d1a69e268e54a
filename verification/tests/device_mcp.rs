use voice_agent_server::mcp::{
    mcp_envelope, normalize_tool_result, parse_incoming, parse_tools_page, tool_failure_result,
    McpIncoming, McpOutgoing, RpcErrorFields, RpcFields, ToolEntryFields, ToolResultFields,
    ToolsPageFields,
};
use voice_agent_server::tools::{DiscoveredTool, McpRequestId};

fn canonical(text: &str) -> String {
    serde_json::to_string(&serde_json::from_str::<serde_json::Value>(text).unwrap()).unwrap()
}

#[test]
fn payloads_are_canonical_json_rpc() {
    let init = McpOutgoing::Initialize { id: McpRequestId(1) }.payload();
    assert_eq!(init, canonical(&init));
    assert_eq!(
        init,
        "{\"id\":1,\"jsonrpc\":\"2.0\",\"method\":\"initialize\",\"params\":{\"capabilities\":{},\"clientInfo\":{\"name\":\"voice-agent-server\",\"version\":\"0.1.0\"},\"protocolVersion\":\"2024-11-05\"}}"
    );
    let list = McpOutgoing::ToolsList { id: McpRequestId(20), cursor: None }.payload();
    assert_eq!(list, "{\"id\":20,\"jsonrpc\":\"2.0\",\"method\":\"tools/list\"}");
    let paged = McpOutgoing::ToolsList {
        id: McpRequestId(3),
        cursor: Some("c\"1".into()),
    }
    .payload();
    assert_eq!(
        paged,
        "{\"id\":3,\"jsonrpc\":\"2.0\",\"method\":\"tools/list\",\"params\":{\"cursor\":\"c\\\"1\"}}"
    );
    assert_eq!(paged, canonical(&paged));
    let call = McpOutgoing::ToolsCall {
        id: McpRequestId(4),
        name: "self.audio_speaker.set_volume".into(),
        arguments: "{\"volume\":50}".into(),
    }
    .payload();
    assert_eq!(call, canonical(&call));
    assert_eq!(
        call,
        "{\"id\":4,\"jsonrpc\":\"2.0\",\"method\":\"tools/call\",\"params\":{\"arguments\":{\"volume\":50},\"name\":\"self.audio_speaker.set_volume\"}}"
    );
}

#[test]
fn envelope_wraps_payload() {
    let text = mcp_envelope("s-1", "{\"id\":1}");
    assert_eq!(text, "{\"payload\":{\"id\":1},\"session_id\":\"s-1\",\"type\":\"mcp\"}");
    assert_eq!(text, canonical(&text));
}

fn fields() -> RpcFields {
    RpcFields {
        jsonrpc: Some("2.0".into()),
        method: None,
        params: None,
        id: Some(7),
        result: None,
        error: None,
    }
}

#[test]
fn incoming_messages_are_classified() {
    let mut notification = fields();
    notification.method = Some("notifications/x".into());
    notification.params = Some("{}".into());
    assert_eq!(
        parse_incoming(notification),
        Some(McpIncoming::Notification {
            method: "notifications/x".into(),
            params: Some("{}".into())
        })
    );
    let mut result = fields();
    result.result = Some("{\"ok\":1}".into());
    assert_eq!(
        parse_incoming(result),
        Some(McpIncoming::Result {
            id: McpRequestId(7),
            result: "{\"ok\":1}".into()
        })
    );
    let mut error = fields();
    error.error = Some(RpcErrorFields {
        code: Some(-32601),
        message: Some("no".into()),
    });
    assert_eq!(
        parse_incoming(error),
        Some(McpIncoming::Error {
            id: McpRequestId(7),
            code: -32601,
            message: "no".into()
        })
    );
    let mut old_version = fields();
    old_version.jsonrpc = Some("1.0".into());
    old_version.result = Some("1".into());
    assert_eq!(parse_incoming(old_version), None);
    let mut no_id = fields();
    no_id.id = None;
    no_id.result = Some("1".into());
    assert_eq!(parse_incoming(no_id), None);
    let mut bad_error = fields();
    bad_error.error = Some(RpcErrorFields {
        code: None,
        message: Some("no".into()),
    });
    assert_eq!(parse_incoming(bad_error), None);
}

fn entry(name: Option<&str>, description: Option<&str>, schema: Option<&str>) -> ToolEntryFields {
    ToolEntryFields {
        name: name.map(str::to_owned),
        description: description.map(str::to_owned),
        input_schema: schema.map(str::to_owned),
    }
}

#[test]
fn tools_pages() {
    let page = ToolsPageFields {
        is_object: true,
        tools: Some(vec![
            entry(Some("a"), Some("does a"), Some("{}")),
            entry(Some("b"), None, Some("{\"type\":\"object\"}")),
        ]),
        next_cursor: Some("next".into()),
    };
    let (tools, cursor) = parse_tools_page(page).unwrap();
    assert_eq!(
        tools,
        vec![
            DiscoveredTool {
                original_name: "a".into(),
                description: "does a".into(),
                input_schema: "{}".into()
            },
            DiscoveredTool {
                original_name: "b".into(),
                description: "".into(),
                input_schema: "{\"type\":\"object\"}".into()
            },
        ]
    );
    assert_eq!(cursor, Some("next".into()));
    let last = ToolsPageFields {
        is_object: true,
        tools: Some(Vec::new()),
        next_cursor: Some(String::new()),
    };
    assert_eq!(parse_tools_page(last), Some((Vec::new(), None)));
    let broken = ToolsPageFields {
        is_object: true,
        tools: Some(vec![entry(Some("a"), None, None)]),
        next_cursor: None,
    };
    assert_eq!(parse_tools_page(broken), None);
    let not_object = ToolsPageFields {
        is_object: false,
        tools: Some(Vec::new()),
        next_cursor: None,
    };
    assert_eq!(parse_tools_page(not_object), None);
}

#[test]
fn tool_results_are_normalized() {
    let ok = ToolResultFields {
        is_error: None,
        content: Some(vec![None, Some("volume set".into()), Some("later".into())]),
    };
    let text = normalize_tool_result(&ok);
    assert_eq!(
        text,
        "{\"code\":null,\"content\":\"volume set\",\"ok\":true,\"truncated\":false}"
    );
    assert_eq!(text, canonical(&text));
    let failed = ToolResultFields {
        is_error: Some(true),
        content: None,
    };
    assert_eq!(
        normalize_tool_result(&failed),
        "{\"code\":\"device_tool_error\",\"content\":\"\",\"ok\":false,\"truncated\":false}"
    );
    let long = ToolResultFields {
        is_error: Some(false),
        content: Some(vec![Some("é".repeat(5000))]),
    };
    let text = normalize_tool_result(&long);
    let value: serde_json::Value = serde_json::from_str(&text).unwrap();
    assert_eq!(value["content"].as_str().unwrap().chars().count(), 4096);
    assert_eq!(value["truncated"], serde_json::Value::Bool(true));
    assert_eq!(
        tool_failure_result("timeout"),
        "{\"code\":\"timeout\",\"ok\":false}"
    );
}

#[test]
fn envelope_session_ids_are_escaped_as_json_strings() {
    let text = mcp_envelope("a\"b\\c\nd\u{1}e\u{1f}é", "{}");
    assert_eq!(
        text,
        "{\"payload\":{},\"session_id\":\"a\\\"b\\\\c\\nd\\u0001e\\u001fé\",\"type\":\"mcp\"}"
    );
    assert_eq!(tool_failure_result("x\ty"), "{\"code\":\"x\\ty\",\"ok\":false}");
}
