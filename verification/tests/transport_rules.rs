use voice_agent_server::session::{GenerationGate, OutboundMessage, TurnId};
use voice_agent_server::transport::{
    check_upgrade, checked_text, classify_origin, deliverable, ingress_refused, reader_step,
    CorsOrigin, ReaderAction, ReaderEvent, header_or_query_is, header_or_query_is_or_absent,
    header_or_query_present, is_normal_tts_stop, HeaderText, HelloFrame, UpgradeRejection,
    UpgradeRequest,
};

fn request() -> UpgradeRequest {
    UpgradeRequest {
        protocol_version_header: HeaderText::Text("1".into()),
        protocol_version_query: None,
        device_id_header: HeaderText::Text("dev".into()),
        device_id_query: None,
        client_id_header: HeaderText::Absent,
        client_id_query: Some("client".into()),
        authorization_header: HeaderText::Absent,
        authorization_query: None,
    }
}

#[test]
fn header_takes_precedence_over_query() {
    let header = HeaderText::Text("2".into());
    assert!(!header_or_query_is_or_absent(&header, Some("1"), "1"));
    assert!(header_or_query_is_or_absent(&HeaderText::Absent, None, "1"));
    assert!(!header_or_query_is_or_absent(&HeaderText::Unreadable, None, "1"));
    assert!(!header_or_query_is(&HeaderText::Absent, None, "x"));
    assert!(header_or_query_is(&HeaderText::Absent, Some("x"), "x"));
    assert!(!header_or_query_present(&HeaderText::Text(String::new()), Some("q")));
    assert!(header_or_query_present(&HeaderText::Absent, Some("q")));
    assert!(!header_or_query_present(&HeaderText::Absent, Some("")));
}

#[test]
fn upgrade_requires_identity_and_token() {
    assert_eq!(check_upgrade(&request(), ""), Ok(()));
    let mut missing = request();
    missing.client_id_query = None;
    assert_eq!(check_upgrade(&missing, ""), Err(UpgradeRejection::MissingIdentity));
    let mut wrong_version = request();
    wrong_version.protocol_version_header = HeaderText::Absent;
    wrong_version.protocol_version_query = Some("2".into());
    assert_eq!(check_upgrade(&wrong_version, ""), Err(UpgradeRejection::MissingIdentity));
    assert_eq!(check_upgrade(&request(), "s3cret"), Err(UpgradeRejection::InvalidToken));
    let mut authorized = request();
    authorized.authorization_header = HeaderText::Text("Bearer s3cret".into());
    assert_eq!(check_upgrade(&authorized, "s3cret"), Ok(()));
    let mut by_query = request();
    by_query.authorization_query = Some("Bearer s3cret".into());
    assert_eq!(check_upgrade(&by_query, "s3cret"), Ok(()));
}

#[test]
fn hello_frame_checks() {
    assert_eq!(checked_text(HelloFrame::Text("hé".into()), 3), Ok("hé".into()));
    assert_eq!(checked_text(HelloFrame::Text("hé".into()), 2), Err(1009));
    assert_eq!(checked_text(HelloFrame::Binary, 10), Err(1002));
    assert_eq!(checked_text(HelloFrame::Other, 10), Err(1002));
}

#[test]
fn writer_drops_invalidated_turn_output_only() {
    let mut gate = GenerationGate::new();
    let turn = TurnId::new(1).unwrap();
    gate.invalidate(3);
    let stale = OutboundMessage::Binary {
        generation: 3,
        turn_id: turn,
        packet: vec![1],
    };
    let fresh = OutboundMessage::TurnText {
        generation: 4,
        turn_id: turn,
        text: "t".into(),
    };
    assert!(!deliverable(&gate, &stale));
    assert!(deliverable(&gate, &fresh));
    assert!(deliverable(&gate, &OutboundMessage::Close(1000)));
    assert!(deliverable(&gate, &OutboundMessage::Text("x".into())));
}

#[test]
fn tts_stop_recognition() {
    assert!(is_normal_tts_stop(Some("tts"), Some("stop")));
    assert!(!is_normal_tts_stop(Some("tts"), Some("start")));
    assert!(!is_normal_tts_stop(None, Some("stop")));
}

#[test]
fn origins_are_classified_by_host() {
    assert_eq!(classify_origin("http://localhost:3000"), CorsOrigin::Localhost);
    assert_eq!(classify_origin("https://127.0.0.1"), CorsOrigin::OtherHost("127.0.0.1".into()));
    assert_eq!(classify_origin("http://[::1]:8080"), CorsOrigin::OtherHost("[::1]".into()));
    assert_eq!(classify_origin("https://Example.COM/path"), CorsOrigin::OtherHost("example.com".into()));
    assert_eq!(classify_origin("http://LOCALHOST"), CorsOrigin::Localhost);
    assert_eq!(classify_origin("not a url"), CorsOrigin::NoHost);
    assert_eq!(classify_origin("data:text/plain,hi"), CorsOrigin::NoHost);
}

#[test]
fn reader_closes_on_oversized_frames_and_busy_sessions() {
    assert_eq!(reader_step(ReaderEvent::Text { bytes: 11, parsed: true }, 10), ReaderAction::CloseWith(1009));
    assert_eq!(reader_step(ReaderEvent::Binary { bytes: 11 }, 10), ReaderAction::CloseWith(1009));
    assert_eq!(reader_step(ReaderEvent::Text { bytes: 10, parsed: true }, 10), ReaderAction::Deliver);
    assert_eq!(reader_step(ReaderEvent::Text { bytes: 3, parsed: false }, 10), ReaderAction::Ignore);
    assert_eq!(reader_step(ReaderEvent::Binary { bytes: 10 }, 10), ReaderAction::Deliver);
    assert_eq!(reader_step(ReaderEvent::Control, 10), ReaderAction::Ignore);
    assert_eq!(reader_step(ReaderEvent::Closed, 10), ReaderAction::Stop);
    assert_eq!(reader_step(ReaderEvent::Failed, 10), ReaderAction::Stop);
    assert_eq!(ingress_refused(true), ReaderAction::CloseWith(1013));
    assert_eq!(ingress_refused(false), ReaderAction::Ignore);
}
