use voice_agent_server::llm::{adapt_stream_chunk, LlmError, LlmEvent, StreamChunk, ToolCall};

#[test]
fn tool_stream_intermediate_chunks_do_not_fail_the_round() {
    let chunks = vec![
        StreamChunk::ToolUseStart { index: 0 },
        StreamChunk::ToolUseInputDelta { index: 0 },
        StreamChunk::ToolUseComplete {
            id: "call-1".into(),
            name: "test_set_value".into(),
            arguments: r#"{"value":50}"#.into(),
        },
        StreamChunk::Done,
    ];

    let events = chunks.into_iter().filter_map(adapt_stream_chunk).collect::<Vec<_>>();

    assert_eq!(events.len(), 2);
    assert!(matches!(
        &events[0],
        Ok(LlmEvent::ToolCall(ToolCall { id, name, arguments }))
            if id == "call-1"
                && name == "test_set_value"
                && serde_json::from_str::<serde_json::Value>(arguments).unwrap()
                    == serde_json::from_str::<serde_json::Value>(r#"{"value": 50}"#).unwrap()
    ));
    assert!(matches!(&events[1], Ok(LlmEvent::Finished)));
}

#[test]
fn text_deltas_pass_through_and_arguments_are_compacted() {
    assert_eq!(
        adapt_stream_chunk(StreamChunk::Text("Xin chào".into())),
        Some(Ok(LlmEvent::TextDelta("Xin chào".into())))
    );
    assert_eq!(
        adapt_stream_chunk(StreamChunk::ToolUseComplete {
            id: "c".into(),
            name: "n".into(),
            arguments: "{ \"b\" : [1, 2],\n \"a\": true }".into(),
        }),
        Some(Ok(LlmEvent::ToolCall(ToolCall {
            id: "c".into(),
            name: "n".into(),
            arguments: r#"{"a":true,"b":[1,2]}"#.into(),
        })))
    );
}

#[test]
fn malformed_arguments_and_stream_errors_fail_the_round() {
    assert_eq!(
        adapt_stream_chunk(StreamChunk::ToolUseComplete {
            id: "c".into(),
            name: "n".into(),
            arguments: "{\"value\":".into(),
        }),
        Some(Err(LlmError::Failed))
    );
    assert_eq!(adapt_stream_chunk(StreamChunk::Failed), Some(Err(LlmError::Failed)));
}
