use voice_agent_server::protocol::{
    parse_client_frame, ClientFrame, ClientMessage, ListenCommand, ListenMode, ProtocolError,
};

fn message(text: &str) -> ClientMessage {
    match parse_client_frame(text) {
        Ok(ClientFrame::Message(m)) => m,
        other => panic!("unexpected frame {:?}", other),
    }
}

#[test]
fn malformed_json_is_refused() {
    assert_eq!(parse_client_frame("{\"type\":"), Err(ProtocolError::MalformedJson));
    assert_eq!(parse_client_frame(""), Err(ProtocolError::MalformedJson));
    assert_eq!(parse_client_frame("{} {}"), Err(ProtocolError::MalformedJson));
}

#[test]
fn hello_frames_are_recognised_by_type() {
    assert_eq!(
        parse_client_frame("{\"type\":\"hello\",\"version\":1}"),
        Ok(ClientFrame::Hello)
    );
    assert_eq!(parse_client_frame("{\"type\":\"hello\"}"), Ok(ClientFrame::Hello));
}

#[test]
fn listen_frames_carry_their_command_and_scope() {
    assert_eq!(
        message("{\"type\":\"listen\",\"state\":\"start\",\"mode\":\"auto\",\"session_id\":\"s\"}"),
        ClientMessage::Listen {
            session_id: Some("s".into()),
            command: ListenCommand::Start { mode: ListenMode::Auto },
        }
    );
    assert_eq!(
        message("{\"type\":\"listen\",\"state\":\"detect\",\"text\":\"bật đèn\"}"),
        ClientMessage::Listen {
            session_id: None,
            command: ListenCommand::Detect { text: "bật đèn".into() },
        }
    );
    assert_eq!(
        message("{\"type\":\"listen\",\"state\":\"stop\",\"session_id\":7}"),
        ClientMessage::Unknown
    );
    assert_eq!(message("{\"type\":\"listen\",\"state\":\"start\"}"), ClientMessage::Unknown);
}

#[test]
fn abort_and_other_frames() {
    assert_eq!(message("{\"type\":\"abort\"}"), ClientMessage::Abort { session_id: None });
    assert_eq!(message("{\"type\":\"abort\",\"session_id\":null}"), ClientMessage::Unknown);
    assert_eq!(message("{\"type\":\"mcp\",\"payload\":{}}"), ClientMessage::Unknown);
    assert_eq!(message("[\"listen\"]"), ClientMessage::Unknown);
    assert_eq!(message("{\"type\":5}"), ClientMessage::Unknown);
}
