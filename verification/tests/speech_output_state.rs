use voice_agent_server::config::SpeechOutputConfig;
use voice_agent_server::session::{SpeechOutputError, SpeechOutputEvent};
use voice_agent_server::speech_output::{SpeechOutput, TextStep, MAX_BUFFERED_PACKETS};

fn small() -> SpeechOutputConfig {
    SpeechOutputConfig {
        min_chars: 4,
        soft_break_min_chars: 8,
        max_chars: 10,
        pending_segments: 2,
    }
}

#[test]
fn speech_output_rejects_a_token_too_long_to_split_safely() {
    let mut output = SpeechOutput::with_config(small());
    assert_eq!(
        output.push_delta("abcdefghijklmnopqrstu"),
        Err(SpeechOutputError::Backpressure)
    );
}

#[test]
fn tests_rejects_a_token_too_long_to_split_safely() {
    let mut output = SpeechOutput::with_config(small());
    assert_eq!(
        output.push_delta("abcdefghijklmnopqrstu"),
        Err(SpeechOutputError::Backpressure)
    );
}

#[test]
fn speech_output_unspeakable_response_fails_instead_of_waiting_forever() {
    let mut output = SpeechOutput::with_config(SpeechOutputConfig::default());
    output.push_delta("😊🚀").unwrap();
    assert_eq!(output.finish_input(), Err(SpeechOutputError::Synthesis));
}

#[test]
fn tests_unspeakable_response_fails_instead_of_waiting_forever() {
    let mut output = SpeechOutput::with_config(SpeechOutputConfig::default());
    output.push_delta("😊🚀").unwrap();
    assert_eq!(output.finish_input(), Err(SpeechOutputError::Synthesis));
}

#[test]
fn held_text_at_twice_the_longest_segment_is_accepted() {
    let mut output = SpeechOutput::with_config(small());
    assert_eq!(output.push_delta("abcdefghijklmnopqrst"), Ok(()));
    assert_eq!(output.push_delta("u"), Err(SpeechOutputError::Backpressure));
}

#[test]
fn full_segment_queue_refuses_the_next_sentence() {
    let mut output = SpeechOutput::with_config(small());
    assert_eq!(output.push_delta("One. Two."), Ok(()));
    assert_eq!(output.push_delta(" Three."), Err(SpeechOutputError::Backpressure));
}

#[test]
fn segment_is_announced_before_synthesis_with_sanitized_text() {
    let mut output = SpeechOutput::with_config(SpeechOutputConfig::default());
    output.push_delta("**Xin chào!** 😊").unwrap();
    output.finish_input().unwrap();
    match output.next_text_step() {
        TextStep::Announce(text) => assert_eq!(text, "**Xin chào!"),
        _ => panic!("expected an announcement"),
    }
    match output.next_text_step() {
        TextStep::Synthesize(text) => assert_eq!(text, "Xin chào!"),
        _ => panic!("expected a synthesis request"),
    }
    assert!(matches!(output.next_text_step(), TextStep::Idle));
}

#[test]
fn short_segment_starts_only_after_synthesis_finishes() {
    let mut output = SpeechOutput::with_config(SpeechOutputConfig::default());
    output.push_delta("Một câu ngắn.").unwrap();
    output.finish_input().unwrap();
    assert!(matches!(output.next_text_step(), TextStep::Announce(_)));
    assert!(matches!(output.next_text_step(), TextStep::Synthesize(_)));
    output.set_synthesizing(true);
    output.push_packet(vec![1]);
    assert_eq!(output.poll_playback(0), None);
    output.set_synthesizing(false);
    assert_eq!(output.poll_playback(0), Some(SpeechOutputEvent::Started));
}

#[test]
fn first_five_packets_go_out_then_pacing_holds_the_sixth() {
    let mut output = SpeechOutput::with_config(SpeechOutputConfig::default());
    output.push_delta("Một câu đủ dài.").unwrap();
    output.finish_input().unwrap();
    output.next_text_step();
    output.next_text_step();
    for packet in 0..10u8 {
        output.push_packet(vec![packet]);
    }
    assert_eq!(output.poll_playback(1_000), Some(SpeechOutputEvent::Started));
    for packet in 0..5u8 {
        assert_eq!(
            output.poll_playback(1_000),
            Some(SpeechOutputEvent::AudioPacket(vec![packet]))
        );
    }
    assert_eq!(output.poll_playback(1_059), None);
    assert_eq!(
        output.poll_playback(1_060),
        Some(SpeechOutputEvent::AudioPacket(vec![5]))
    );
    assert_eq!(output.poll_playback(1_119), None);
    assert_eq!(
        output.poll_playback(1_500),
        Some(SpeechOutputEvent::AudioPacket(vec![6]))
    );
    assert_eq!(
        output.poll_playback(1_500),
        Some(SpeechOutputEvent::AudioPacket(vec![7]))
    );
}

#[test]
fn drain_waits_for_nominal_playback_end() {
    let mut output = SpeechOutput::with_config(SpeechOutputConfig::default());
    output.push_delta("Một câu ngắn.").unwrap();
    output.finish_input().unwrap();
    output.next_text_step();
    output.next_text_step();
    output.push_packet(vec![9]);
    output.push_packet(vec![8]);
    assert!(output.tail_flush_due() == false);
    assert_eq!(output.poll_playback(0), Some(SpeechOutputEvent::Started));
    assert_eq!(output.poll_playback(0), Some(SpeechOutputEvent::AudioPacket(vec![9])));
    assert_eq!(output.poll_playback(0), Some(SpeechOutputEvent::AudioPacket(vec![8])));
    assert!(output.tail_flush_due());
    assert_eq!(output.poll_playback(119), None);
    assert_eq!(output.poll_playback(120), Some(SpeechOutputEvent::Drained));
    assert_eq!(output.poll_playback(500), None);
}

#[test]
fn cancel_drops_the_turn() {
    let mut output = SpeechOutput::with_config(SpeechOutputConfig::default());
    output.push_delta("{\"cmd\": \"x").unwrap();
    output.push_packet(vec![1]);
    output.cancel();
    assert!(matches!(output.next_text_step(), TextStep::Idle));
    assert_eq!(output.poll_playback(0), None);
    assert_eq!(output.finish_input(), Err(SpeechOutputError::Synthesis));
}

/// Plays the caller's part of a poll, as the server's driver does: an announced segment is
/// reported, a synthesized one is recorded and delivered as `frames` packets, and then the
/// playback side is polled at `now_ms`.
fn drive(
    output: &mut SpeechOutput,
    synthesized: &mut Vec<String>,
    frames: u8,
    now_ms: u64,
) -> Option<SpeechOutputEvent> {
    match output.next_text_step() {
        TextStep::Announce(text) => return Some(SpeechOutputEvent::SegmentReady { text }),
        TextStep::Synthesize(text) => {
            synthesized.push(text);
            for frame in 0..frames {
                output.push_packet(vec![frame]);
            }
        }
        TextStep::Idle => {}
    }
    output.poll_playback(now_ms)
}

fn first_five_packets_are_sent_before_realtime_pacing() {
    let mut output = SpeechOutput::with_config(SpeechOutputConfig::default());
    let mut synthesized = Vec::new();
    output.push_delta("Một câu đủ dài.").unwrap();
    output.finish_input().unwrap();
    assert!(matches!(
        drive(&mut output, &mut synthesized, 10, 1_000),
        Some(SpeechOutputEvent::SegmentReady { .. })
    ));
    assert_eq!(drive(&mut output, &mut synthesized, 10, 1_000), Some(SpeechOutputEvent::Started));
    for packet in 1..=5 {
        assert!(
            matches!(
                drive(&mut output, &mut synthesized, 10, 1_000),
                Some(SpeechOutputEvent::AudioPacket(_))
            ),
            "packet {packet} should prebuffer immediately"
        );
    }
    assert!(
        drive(&mut output, &mut synthesized, 10, 1_000).is_none(),
        "sixth packet must wait for pacing"
    );
    // 61 ms after the first packet left.
    assert!(matches!(
        drive(&mut output, &mut synthesized, 10, 1_061),
        Some(SpeechOutputEvent::AudioPacket(_))
    ));
    assert_eq!(
        output.packet_send_deadline(),
        Some(1_000 + 120),
        "late polls must retain the absolute cadence"
    );
}

#[test]
fn speech_output_first_five_packets_are_sent_before_realtime_pacing() {
    first_five_packets_are_sent_before_realtime_pacing();
}

#[test]
fn tests_first_five_packets_are_sent_before_realtime_pacing() {
    first_five_packets_are_sent_before_realtime_pacing();
}

fn paced_deadlines_are_anchored_to_first_packet_even_if_prebuffer_is_delayed() {
    let mut output = SpeechOutput::with_config(SpeechOutputConfig::default());
    let mut synthesized = Vec::new();
    output.push_delta("Một câu đủ dài.").unwrap();
    output.finish_input().unwrap();
    drive(&mut output, &mut synthesized, 10, 0);
    assert_eq!(drive(&mut output, &mut synthesized, 10, 0), Some(SpeechOutputEvent::Started));
    let first_packet_at = 500;
    assert_eq!(output.packet_send_deadline(), None);
    assert!(output.poll_playback(first_packet_at).is_some());
    // The rest of the prebuffer leaves late.
    for _ in 0..4 {
        assert!(output.poll_playback(700).is_some());
    }
    assert_eq!(output.packet_send_deadline(), Some(first_packet_at as u128 + 60));
    assert!(output.poll_playback(700).is_some());
    assert_eq!(output.packet_send_deadline(), Some(first_packet_at as u128 + 120));
}

#[test]
fn speech_output_paced_deadlines_are_anchored_to_first_packet_even_if_prebuffer_is_delayed() {
    paced_deadlines_are_anchored_to_first_packet_even_if_prebuffer_is_delayed();
}

#[test]
fn tests_paced_deadlines_are_anchored_to_first_packet_even_if_prebuffer_is_delayed() {
    paced_deadlines_are_anchored_to_first_packet_even_if_prebuffer_is_delayed();
}

fn next_segment_starts_while_previous_audio_is_queued() {
    let mut output = SpeechOutput::with_config(SpeechOutputConfig::default());
    let mut calls = Vec::new();
    output.push_delta("Câu thứ nhất. Câu thứ hai.").unwrap();
    assert!(matches!(
        drive(&mut output, &mut calls, 10, 0),
        Some(SpeechOutputEvent::SegmentReady { .. })
    ));
    assert!(drive(&mut output, &mut calls, 10, 0).is_none());
    assert_eq!(calls.len(), 1, "the first segment's audio is queued");
    assert!(
        matches!(
            drive(&mut output, &mut calls, 10, 0),
            Some(SpeechOutputEvent::SegmentReady { .. })
        ),
        "next segment must be announced before first audio queue drains"
    );
    assert_eq!(drive(&mut output, &mut calls, 10, 0), Some(SpeechOutputEvent::Started));
    assert!(matches!(
        drive(&mut output, &mut calls, 10, 0),
        Some(SpeechOutputEvent::AudioPacket(_))
    ));
    assert_eq!(calls.len(), 2, "second synthesis must overlap first playback");
}

#[test]
fn speech_output_next_segment_starts_while_previous_audio_is_queued() {
    next_segment_starts_while_previous_audio_is_queued();
}

#[test]
fn tests_next_segment_starts_while_previous_audio_is_queued() {
    next_segment_starts_while_previous_audio_is_queued();
}

fn prebuffered_audio_does_not_drain_before_nominal_playback_ends() {
    let mut output = SpeechOutput::with_config(SpeechOutputConfig::default());
    let mut synthesized = Vec::new();
    output.push_delta("Một câu ngắn.").unwrap();
    output.finish_input().unwrap();
    assert!(matches!(
        drive(&mut output, &mut synthesized, 2, 0),
        Some(SpeechOutputEvent::SegmentReady { .. })
    ));
    assert_eq!(drive(&mut output, &mut synthesized, 2, 0), Some(SpeechOutputEvent::Started));
    assert!(matches!(
        drive(&mut output, &mut synthesized, 2, 0),
        Some(SpeechOutputEvent::AudioPacket(_))
    ));
    assert!(matches!(
        drive(&mut output, &mut synthesized, 2, 0),
        Some(SpeechOutputEvent::AudioPacket(_))
    ));
    // Two 60 ms packets leave at once; playback ends 120 ms after the first.
    assert!(
        drive(&mut output, &mut synthesized, 2, 0).is_none(),
        "tts:stop must wait for buffered playback"
    );
    assert!(drive(&mut output, &mut synthesized, 2, 61).is_none());
    assert_eq!(drive(&mut output, &mut synthesized, 2, 121), Some(SpeechOutputEvent::Drained));
}

#[test]
fn speech_output_prebuffered_audio_does_not_drain_before_nominal_playback_ends() {
    prebuffered_audio_does_not_drain_before_nominal_playback_ends();
}

#[test]
fn tests_prebuffered_audio_does_not_drain_before_nominal_playback_ends() {
    prebuffered_audio_does_not_drain_before_nominal_playback_ends();
}

fn segment_ready_keeps_display_text_while_tts_receives_sanitized_text() {
    let mut output = SpeechOutput::with_config(SpeechOutputConfig::default());
    let mut inputs = Vec::new();
    output.push_delta("**Xin chào!** 😊").unwrap();
    output.finish_input().unwrap();
    assert!(
        matches!(drive(&mut output, &mut inputs, 1, 0), Some(SpeechOutputEvent::SegmentReady { text }) if text == "**Xin chào!")
    );
    assert_eq!(drive(&mut output, &mut inputs, 1, 0), Some(SpeechOutputEvent::Started));
    assert_eq!(inputs, ["Xin chào!"]);

    output.cancel();
    output.push_delta("{\"cmd\": \"date '+%A, %d/%m/").unwrap();
    output
        .push_delta("%Y %H:%M:%S %Z'\"}Hôm nay là Tuesday, 23/09/2026 12:54:56 UTC.")
        .unwrap();
    output.finish_input().unwrap();
    assert!(matches!(
        drive(&mut output, &mut inputs, 1, 0),
        Some(SpeechOutputEvent::SegmentReady { text })
            if text == "Hôm nay là Tuesday, 23/09/2026 12:54:56 UTC."
    ));
    assert_eq!(drive(&mut output, &mut inputs, 1, 0), Some(SpeechOutputEvent::Started));
    assert_eq!(inputs, ["Xin chào!", "Hôm nay là Tuesday, 23/09/2026 12:54:56 UTC."]);
}

#[test]
fn speech_output_segment_ready_keeps_display_text_while_tts_receives_sanitized_text() {
    segment_ready_keeps_display_text_while_tts_receives_sanitized_text();
}

#[test]
fn tests_segment_ready_keeps_display_text_while_tts_receives_sanitized_text() {
    segment_ready_keeps_display_text_while_tts_receives_sanitized_text();
}

fn short_streaming_segment_waits_for_completion_before_starting_playback() {
    let mut output = SpeechOutput::with_config(SpeechOutputConfig::default());
    output.push_delta("Một câu có âm thanh phát từng phần.").unwrap();
    assert!(matches!(output.next_text_step(), TextStep::Announce(_)));
    assert!(matches!(output.next_text_step(), TextStep::Synthesize(_)));
    // The worker streams five chunks; playback must not start while it runs.
    output.set_synthesizing(true);
    for packet in 1..=5u8 {
        output.push_packet(vec![packet]);
        assert!(output.synthesis_poll_due());
        assert_eq!(
            output.poll_playback(0),
            None,
            "Started with worker active at packet {packet}"
        );
    }
    output.set_synthesizing(false);
    assert_eq!(output.poll_playback(0), Some(SpeechOutputEvent::Started));
    for packet in 1..=5u8 {
        assert_eq!(output.poll_playback(0), Some(SpeechOutputEvent::AudioPacket(vec![packet])));
    }
}

#[test]
fn speech_output_short_streaming_segment_waits_for_completion_before_starting_playback() {
    short_streaming_segment_waits_for_completion_before_starting_playback();
}

#[test]
fn tests_short_streaming_segment_waits_for_completion_before_starting_playback() {
    short_streaming_segment_waits_for_completion_before_starting_playback();
}

fn long_streaming_segment_starts_at_bounded_initial_buffer() {
    let mut output = SpeechOutput::with_config(SpeechOutputConfig::default());
    output.push_delta("Một câu đủ dài để kiểm tra bộ đệm đầu lượt.").unwrap();
    assert!(matches!(output.next_text_step(), TextStep::Announce(_)));
    assert!(matches!(output.next_text_step(), TextStep::Synthesize(_)));
    output.set_synthesizing(true);
    for packet in 0..MAX_BUFFERED_PACKETS {
        output.push_packet(vec![packet as u8]);
    }
    assert!(!output.synthesis_poll_due());
    assert_eq!(
        output.poll_playback(0),
        Some(SpeechOutputEvent::Started),
        "bounded long segment must start without waiting for worker completion"
    );
}

#[test]
fn speech_output_long_streaming_segment_starts_at_bounded_initial_buffer() {
    long_streaming_segment_starts_at_bounded_initial_buffer();
}

#[test]
fn tests_long_streaming_segment_starts_at_bounded_initial_buffer() {
    long_streaming_segment_starts_at_bounded_initial_buffer();
}
