use voice_agent_server::protocol::{ClientMessage, ListenCommand, ListenMode};
use voice_agent_server::session::SessionPhase;
use voice_agent_server::session_flow::{
    committed_transcript, inbound_session_matches, TurnAdmission, route_client_message, segment_message, transcript_message,
    tts_state_message, AbortRoute, AsrDisposition, AsrEventKind, BinaryRoute, ClientRoute,
    Completion, CycleRestart, DetectRoute, Finish, LlmDisposition, LlmEventKind, SessionFlow,
    StartRoute, VadDisposition, VadEventKind, WorkerToken, FAIL_CLOSED_CODE,
    VAD_UNAVAILABLE_CODE,
};

fn token(generation: u64) -> WorkerToken {
    WorkerToken { generation, operation: generation }
}

fn manual_listening() -> (SessionFlow, WorkerToken) {
    let mut flow = SessionFlow::new(0);
    assert_eq!(flow.start_listening(ListenMode::Manual), StartRoute::Replace);
    let (_, asr) = flow.replace_listening_mode(ListenMode::Manual);
    assert_eq!(flow.listening_opened(asr, true), None);
    (flow, asr)
}

fn auto_listening(pre_roll: u64) -> (SessionFlow, WorkerToken) {
    let mut flow = SessionFlow::new(pre_roll);
    let (_, vad) = flow.replace_listening_mode(ListenMode::Auto);
    assert_eq!(flow.listening_opened(vad, true), None);
    (flow, vad)
}

#[test]
fn manual_listening_opens_a_stream_in_the_next_generation() {
    let (flow, asr) = manual_listening();
    assert_eq!(asr, token(1));
    assert_eq!(flow.generation, 1);
    assert_eq!(flow.phase, SessionPhase::Listening);
    assert_eq!(flow.asr_stream, Some(asr));
}

#[test]
fn manual_listening_falls_back_to_ready_without_a_stream() {
    let mut flow = SessionFlow::new(0);
    let (_, asr) = flow.replace_listening_mode(ListenMode::Manual);
    assert_eq!(flow.listening_opened(asr, false), None);
    assert_eq!(flow.phase, SessionPhase::Ready);
    assert_eq!(flow.asr_stream, None);
}

#[test]
fn automatic_listening_without_a_vad_worker_closes_the_session() {
    let mut flow = SessionFlow::new(0);
    let (_, vad) = flow.replace_listening_mode(ListenMode::Realtime);
    assert_eq!(flow.listening_opened(vad, false), Some(VAD_UNAVAILABLE_CODE));
    assert_eq!(flow.phase, SessionPhase::Closed);
}

#[test]
fn manual_stop_with_an_utterance_finishes_the_stream() {
    let (mut flow, asr) = manual_listening();
    assert!(flow.stop_applies());
    assert_eq!(flow.manual_stopped(true), None);
    assert_eq!(flow.phase, SessionPhase::Processing);
    assert_eq!(flow.finish_recognition(true), Finish::SendFinish(asr));
    assert!(flow.has_turn_permit);
    assert_eq!(flow.finish_refused(), (Some(asr), true));
    assert_eq!(flow.phase, SessionPhase::Ready);
    assert!(!flow.has_turn_permit);
}

#[test]
fn manual_stop_without_an_utterance_cancels_the_stream() {
    let (mut flow, asr) = manual_listening();
    assert_eq!(flow.manual_stopped(false), Some(asr));
    assert_eq!(flow.phase, SessionPhase::Ready);
}

#[test]
fn refused_turn_cancels_the_stream_and_completes() {
    let (mut flow, asr) = manual_listening();
    flow.manual_stopped(true);
    assert_eq!(
        flow.finish_recognition(false),
        Finish::Denied { cancel_asr: Some(asr), release_permit: false, completion: Completion::Done }
    );
    assert_eq!(flow.phase, SessionPhase::Ready);
}

#[test]
fn current_transcript_is_committed_and_stale_reports_are_ignored() {
    let (mut flow, asr) = manual_listening();
    assert_eq!(flow.on_asr_event(AsrEventKind::Final, token(7)), AsrDisposition::Ignore);
    assert_eq!(flow.asr_stream, Some(asr));
    assert_eq!(flow.on_asr_event(AsrEventKind::Opened, asr), AsrDisposition::Ignore);
    assert_eq!(flow.on_asr_event(AsrEventKind::Final, asr), AsrDisposition::CommitFinal);
    assert_eq!(flow.asr_stream, None);
    assert_eq!(flow.on_asr_event(AsrEventKind::Final, asr), AsrDisposition::Ignore);
}

#[test]
fn asr_deadline_misses_fail_the_session_closed() {
    let (mut flow, asr) = manual_listening();
    assert_eq!(flow.on_asr_event(AsrEventKind::FinalTimedOut, asr), AsrDisposition::FailClosed);
    let teardown = flow.fail_closed().unwrap();
    assert_eq!(teardown.cancel_asr, Some(asr));
    assert_eq!(teardown.gate_generation, 1);
    assert_eq!(flow.phase, SessionPhase::Closed);
    assert_eq!(flow.generation, 2);
    assert_eq!(flow.asr_stream, None);
    assert_eq!(flow.fail_closed(), None);
    assert_eq!(FAIL_CLOSED_CODE, 1011);
}

#[test]
fn detected_text_takes_over_a_manual_stream() {
    let (mut flow, asr) = manual_listening();
    assert!(flow.detect_admissible());
    assert_eq!(flow.detect_route(), DetectRoute::CancelAsr(asr));
    flow.asr_detached(asr);
    assert_eq!(flow.asr_cleanup_pending, vec![asr]);
    flow.detect_admission(true);
    assert_eq!(flow.phase, SessionPhase::Processing);
    assert!(flow.has_turn_permit);
    // The cancelled stream's late transcript only finishes its cleanup.
    assert_eq!(flow.on_asr_event(AsrEventKind::Final, asr), AsrDisposition::CleanupFinished);
    assert!(flow.asr_cleanup_pending.is_empty());
}

#[test]
fn realtime_listening_refuses_typed_text() {
    let (mut flow, _) = auto_listening(0);
    flow.listening_mode = Some(ListenMode::Realtime);
    assert_eq!(flow.detect_route(), DetectRoute::Refuse);
    let mut manual = SessionFlow::new(0);
    manual.listening_mode = Some(ListenMode::Manual);
    assert_eq!(manual.detect_route(), DetectRoute::FailClose);
}

#[test]
fn auto_cycle_numbers_speech_and_feeds_pre_roll() {
    let (mut flow, vad) = auto_listening(30);
    assert_eq!(flow.vad_cycle, Some(1));
    assert_eq!(flow.next_vad_cycle, 2);
    assert_eq!(flow.on_vad_event(VadEventKind::Probability, vad, 1, 0), VadDisposition::Observe);
    assert_eq!(flow.on_vad_event(VadEventKind::Probability, vad, 2, 0), VadDisposition::Ignore);
    assert_eq!(
        flow.on_vad_event(VadEventKind::SpeechStart, vad, 1, 100),
        VadDisposition::BeginRecognition { asr: token(1), feed_from: 70 }
    );
    assert!(flow.auto_speech_active);
    assert_eq!(flow.on_vad_event(VadEventKind::SpeechStart, vad, 1, 100), VadDisposition::Ignore);
    flow.asr_stream_opened(token(1));
    assert_eq!(flow.on_vad_event(VadEventKind::SpeechEnd, vad, 1, 0), VadDisposition::FinishRecognition);
    assert_eq!(flow.phase, SessionPhase::Processing);
    assert!(!flow.auto_speech_active);
}

#[test]
fn early_speech_start_feeds_from_the_first_sample() {
    let (mut flow, vad) = auto_listening(30);
    assert_eq!(
        flow.on_vad_event(VadEventKind::SpeechStart, vad, 1, 10),
        VadDisposition::BeginRecognition { asr: token(1), feed_from: 0 }
    );
    assert_eq!(flow.on_vad_event(VadEventKind::SpeechEnd, vad, 1, 0), VadDisposition::CompleteRecognition);
}

#[test]
fn completed_auto_recognition_resets_the_capture_cycle() {
    let (mut flow, vad) = auto_listening(0);
    flow.phase = SessionPhase::Processing;
    assert_eq!(flow.complete_recognition(), (false, Completion::ResetVad { worker: vad, cycle: 2 }));
    assert_eq!(flow.vad_cycle, None);
    assert_eq!(flow.pending_vad_cycle, Some(2));
    flow.vad_reset_sent(false);
    assert!(flow.auto_reset_pending);
    assert_eq!(flow.binary_route(), BinaryRoute::Drop);
    assert_eq!(flow.on_vad_event(VadEventKind::Probability, vad, 1, 0), VadDisposition::Ignore);
    assert_eq!(flow.on_vad_event(VadEventKind::ResetDone, vad, 1, 0), VadDisposition::Ignore);
    assert_eq!(flow.on_vad_event(VadEventKind::ResetDone, vad, 2, 0), VadDisposition::CycleReset);
    assert_eq!(flow.vad_cycle, Some(2));
    assert!(!flow.auto_reset_pending);
    assert_eq!(flow.phase, SessionPhase::Listening);
    assert_eq!(flow.complete_recognition().1, Completion::ResetVad { worker: vad, cycle: 3 });
    assert_eq!(flow.complete_recognition().1, Completion::ResetVad { worker: vad, cycle: 4 });
    flow.vad_reset_sent(true);
    assert_eq!(flow.complete_recognition().1, Completion::Done);
}

#[test]
fn vad_failures_of_the_current_worker_close_the_session() {
    let (mut flow, vad) = auto_listening(0);
    assert_eq!(flow.on_vad_event(VadEventKind::Failed, token(9), 1, 0), VadDisposition::Ignore);
    assert_eq!(flow.on_vad_event(VadEventKind::ResetTimedOut, vad, 1, 0), VadDisposition::FailClosed);
    assert_eq!(flow.on_vad_event(VadEventKind::Closed, vad, 1, 0), VadDisposition::WorkerClosed);
    assert_eq!(flow.vad_session, None);
}

#[test]
fn same_auto_start_restarts_the_cycle_and_cancels_the_stream_first() {
    let (mut flow, vad) = auto_listening(0);
    assert_eq!(flow.start_listening(ListenMode::Auto), StartRoute::RestartCycle);
    flow.asr_stream_opened(token(1));
    assert_eq!(flow.begin_cycle_restart(), CycleRestart::CancelAsrFirst(token(1)));
    assert_eq!(flow.asr_stream, None);
    assert_eq!(
        flow.restart_after_cancel(token(1)),
        (false, CycleRestart::ResetVad { worker: vad, cycle: 2 })
    );
    assert_eq!(flow.asr_cleanup_pending, vec![token(1)]);
    flow.vad_reset_sent(true);
    assert_eq!(flow.phase, SessionPhase::Processing);
    assert_eq!(flow.begin_cycle_restart(), CycleRestart::Nothing);
}

#[test]
fn listen_start_during_a_turn_waits_for_the_turn() {
    let (mut flow, _) = manual_listening();
    flow.manual_stopped(true);
    flow.finish_recognition(true);
    flow.on_asr_event(AsrEventKind::Final, token(1));
    let llm = flow.begin_speech_delivery();
    flow.llm_started(llm);
    assert_eq!(flow.start_listening(ListenMode::Auto), StartRoute::Armed);
    assert_eq!(flow.turn, Some(1));
    assert!(flow.listen_arm_pending);
    assert_eq!(flow.on_llm_event(LlmEventKind::TextDelta, llm), LlmDisposition::Speak);
    assert_eq!(flow.on_llm_event(LlmEventKind::Finished, llm), LlmDisposition::Finish);
    flow.speech_started();
    let (stop, release, completion) = flow.speech_drained();
    assert!(stop);
    assert!(release);
    assert_eq!(completion, Completion::EnterArmedMode(ListenMode::Auto));
    assert_eq!(flow.turn, None);
}

#[test]
fn llm_reports_of_an_aborted_turn_are_ignored() {
    let (mut flow, _) = manual_listening();
    let llm = flow.begin_speech_delivery();
    flow.llm_started(llm);
    flow.speech_started();
    match flow.abort_current_turn() {
        AbortRoute::Stopped(teardown) => {
            assert_eq!(teardown.cancel_llm, Some(llm));
            assert!(teardown.announce_tts_stop);
            assert!(teardown.cancel_turn);
            assert_eq!(teardown.gate_generation, 1);
        }
        other => panic!("unexpected abort route {:?}", other),
    }
    assert_eq!(flow.phase, SessionPhase::Ready);
    assert_eq!(flow.listening_mode, None);
    assert_eq!(flow.on_llm_event(LlmEventKind::Finished, llm), LlmDisposition::Ignore);
}

#[test]
fn abort_in_auto_keeps_the_worker_and_resets_its_cycle() {
    let (mut flow, vad) = auto_listening(0);
    match flow.abort_current_turn() {
        AbortRoute::ResetVad { teardown, worker, cycle } => {
            assert_eq!(teardown.close_vad, None);
            assert_eq!(worker, vad);
            assert_eq!(cycle, 2);
        }
        other => panic!("unexpected abort route {:?}", other),
    }
    flow.vad_reset_sent(true);
    assert!(matches!(flow.abort_current_turn(), AbortRoute::AwaitingReset(_)));
    flow.fail_closed();
    assert_eq!(flow.abort_current_turn(), AbortRoute::Closed);
}

#[test]
fn failed_delivery_cancels_the_llm_and_completes() {
    let (mut flow, _) = manual_listening();
    flow.detect_admission(true);
    let llm = flow.begin_speech_delivery();
    flow.llm_started(llm);
    assert_eq!(flow.on_llm_event(LlmEventKind::Failed, llm), LlmDisposition::Abandon);
    let failure = flow.fail_speech_delivery();
    assert!(failure.cancel_turn);
    assert_eq!(failure.cancel_llm, None);
    assert!(failure.release_permit);
    assert_eq!(failure.completion, Completion::Done);
    assert_eq!(flow.phase, SessionPhase::Ready);
}

#[test]
fn llm_start_refusal_drops_the_turn() {
    let (mut flow, _) = manual_listening();
    flow.begin_speech_delivery();
    assert_eq!(flow.llm_start_refused(), (false, Completion::Done));
    assert_eq!(flow.turn, None);
}

#[test]
fn audio_routes_follow_phase_and_mode() {
    let (mut flow, _) = manual_listening();
    assert_eq!(flow.binary_route(), BinaryRoute::FeedManual);
    assert_eq!(flow.manual_push_refused(), Some(token(1)));
    assert_eq!(flow.binary_route(), BinaryRoute::Drop);
    let (mut auto, vad) = auto_listening(0);
    assert_eq!(auto.binary_route(), BinaryRoute::FeedVad { worker: vad, feed_asr: false });
    auto.on_vad_event(VadEventKind::SpeechStart, vad, 1, 0);
    assert_eq!(auto.binary_route(), BinaryRoute::FeedVad { worker: vad, feed_asr: true });
    assert_eq!(auto.asr_push_refused(), None);
    auto.manual_stream_missing();
    assert_eq!(auto.binary_route(), BinaryRoute::Drop);
}

#[test]
fn messages_are_routed_by_session_id() {
    assert!(inbound_session_matches(None, "abc"));
    assert!(inbound_session_matches(Some(""), "abc"));
    assert!(inbound_session_matches(Some("abc"), "abc"));
    assert!(!inbound_session_matches(Some("abd"), "abc"));
    let listen = ClientMessage::Listen { session_id: Some("abc".into()), command: ListenCommand::Stop };
    assert_eq!(route_client_message(&listen, "abc"), ClientRoute::Listen);
    assert_eq!(route_client_message(&listen, "xyz"), ClientRoute::Ignore);
    let abort = ClientMessage::Abort { session_id: None };
    assert_eq!(route_client_message(&abort, "xyz"), ClientRoute::Abort);
    assert_eq!(route_client_message(&ClientMessage::Unknown, "xyz"), ClientRoute::Ignore);
}

#[test]
fn control_messages_have_sorted_keys() {
    assert_eq!(
        transcript_message("abc", "xin chào \"bạn\""),
        r#"{"session_id":"abc","text":"xin chào \"bạn\"","type":"stt"}"#
    );
    assert_eq!(segment_message("abc", "Chào."), r#"{"session_id":"abc","text":"Chào.","type":"llm"}"#);
    assert_eq!(tts_state_message("abc", true), r#"{"session_id":"abc","state":"start","type":"tts"}"#);
    assert_eq!(tts_state_message("abc", false), r#"{"session_id":"abc","state":"stop","type":"tts"}"#);
}

#[test]
fn control_messages_match_serde_json_values() {
    let mut map = serde_json::Map::new();
    map.insert("session_id".into(), serde_json::Value::String("s-1".into()));
    map.insert("type".into(), serde_json::Value::String("stt".into()));
    map.insert("text".into(), serde_json::Value::String("a\nb".into()));
    let expected = serde_json::to_string(&serde_json::Value::Object(map)).unwrap();
    assert_eq!(transcript_message("s-1", "a\nb"), expected);
}

#[test]
fn active_turns_take_consecutive_identities() {
    let mut flow = SessionFlow::new(0);
    assert_eq!(flow.begin_active_turn(false), TurnAdmission::Refused);
    assert_eq!(flow.turn, None);
    match flow.begin_active_turn(true) {
        TurnAdmission::Granted(id) => assert_eq!(id.get(), 1),
        other => panic!("unexpected admission {:?}", other),
    }
    assert_eq!(flow.turn, Some(0));
    match flow.begin_active_turn(true) {
        TurnAdmission::Granted(id) => assert_eq!(id.get(), 2),
        other => panic!("unexpected admission {:?}", other),
    }
    flow.next_turn_id = u64::MAX;
    assert_eq!(flow.begin_active_turn(true), TurnAdmission::Exhausted);
    flow.next_turn_id = 0;
    assert_eq!(flow.begin_active_turn(true), TurnAdmission::Exhausted);
}

#[test]
fn worker_identities_and_generations_never_repeat() {
    let mut flow = SessionFlow::new(0);
    assert_eq!(flow.next_worker_identity(), Some(WorkerToken { generation: 0, operation: 1 }));
    assert_eq!(flow.next_worker_identity(), Some(WorkerToken { generation: 0, operation: 2 }));
    flow.next_operation_id = u64::MAX;
    assert_eq!(flow.next_worker_identity(), None);
    assert!(flow.advance_generation());
    assert_eq!(flow.generation, 1);
    flow.generation = u64::MAX;
    assert!(!flow.advance_generation());
    assert_eq!(flow.phase, SessionPhase::Closed);
    assert_eq!(flow.generation, u64::MAX);
}

#[test]
fn transcripts_are_trimmed_before_commit() {
    assert_eq!(committed_transcript("  bật đèn \n"), Some("bật đèn".to_string()));
    assert_eq!(committed_transcript(" \t "), None);
    assert_eq!(committed_transcript(""), None);
}
