use voice_agent_server::config::SpeechOutputConfig;
use voice_agent_server::text::{JsonFilter, SentenceSegmenter, sanitize_tts_text};

#[test]
fn speech_output_splits_unicode_only_at_complete_sentence_boundary() {
    let mut segmenter = SentenceSegmenter::new(SpeechOutputConfig {
        min_chars: 4,
        soft_break_min_chars: 8,
        max_chars: 10,
        pending_segments: 2,
    });
    assert_eq!(segmenter.push("Xin chao。Tiep"), ["Xin chao。"]);
    assert!(segmenter.push(" tuc rat dai").is_empty());
    assert_eq!(segmenter.finish(), Some("Tiep tuc rat dai".into()));
}

#[test]
fn speech_output_holds_fragmented_vietnamese_deltas_until_the_complete_sentence_boundary() {
    let mut segmenter = SentenceSegmenter::new(SpeechOutputConfig::default());

    for delta in ["Xin", " ch", "ào"] {
        assert!(
            segmenter.push(delta).is_empty(),
            "fragment {delta:?} must not be submitted to TTS"
        );
    }
    assert_eq!(segmenter.push("!"), ["Xin chào!"]);
    for delta in [
        " M", "ình", " có", " thể", " giúp", " gì", " cho", " bạn", " hôm", " nay",
    ] {
        assert!(segmenter.push(delta).is_empty());
    }

    assert_eq!(
        segmenter.push("?"),
        ["Mình có thể giúp gì cho bạn hôm nay?"]
    );
    assert_eq!(segmenter.finish(), None);
}

#[test]
fn speech_output_does_not_send_a_partial_version_to_tts_when_decimal_dots_span_deltas() {
    let mut segmenter = SentenceSegmenter::new(SpeechOutputConfig::default());
    assert!(segmenter.push("Phiên bản phần mềm hiện là v1.").is_empty());
    assert_eq!(
        segmenter.push("2.3 và đã sẵn sàng."),
        ["Phiên bản phần mềm hiện là v1.2.3 và đã sẵn sàng."]
    );
    assert_eq!(segmenter.finish(), None);
}

#[test]
fn speech_output_emits_a_complete_sentence_before_the_llm_finishes() {
    let mut segmenter = SentenceSegmenter::new(SpeechOutputConfig::default());
    assert_eq!(
        segmenter.push("Phản hồi âm thanh hoàn chỉnh cho Reference Client."),
        ["Phản hồi âm thanh hoàn chỉnh cho Reference Client."]
    );
    assert_eq!(segmenter.finish(), None);
}

#[test]
fn speech_output_holds_a_long_sentence_until_eof() {
    let mut segmenter = SentenceSegmenter::new(SpeechOutputConfig {
        min_chars: 4,
        soft_break_min_chars: 8,
        max_chars: 10,
        pending_segments: 2,
    });
    assert!(segmenter.push("abcdefghij").is_empty());
    assert!(segmenter.push("klm next").is_empty());
    assert_eq!(segmenter.finish(), Some("abcdefghijklm next".into()));
}

#[test]
fn speech_output_short_hard_sentence_is_flushed_immediately() {
    let mut segmenter = SentenceSegmenter::new(SpeechOutputConfig::default());
    for delta in ["Xin", " ch", "ào"] {
        assert!(segmenter.push(delta).is_empty());
    }
    assert_eq!(segmenter.push("!"), ["Xin chào!"]);
    assert!(
        segmenter
            .push(" Mình có thể giúp gì cho bạn hôm nay")
            .is_empty()
    );
    assert_eq!(
        segmenter.push("?"),
        ["Mình có thể giúp gì cho bạn hôm nay?"]
    );
}

#[test]
fn speech_output_soft_punctuation_and_length_do_not_split_unfinished_sentence() {
    let mut segmenter = SentenceSegmenter::new(SpeechOutputConfig {
        min_chars: 4,
        soft_break_min_chars: 8,
        max_chars: 10,
        pending_segments: 2,
    });
    assert!(
        segmenter
            .push("Nếu bạn muốn, mình có thể kiểm tra")
            .is_empty()
    );
    assert_eq!(
        segmenter.push(" ngay bây giờ."),
        ["Nếu bạn muốn, mình có thể kiểm tra ngay bây giờ."]
    );
}

#[test]
fn speech_output_sanitizes_markdown_and_emoji_for_tts() {
    assert_eq!(sanitize_tts_text("**Xin chào!** 😊"), "Xin chào!");
    assert_eq!(
        sanitize_tts_text("### Kết quả:\n- Bạn có thể **khởi động lại** server 🚀"),
        "Kết quả: Bạn có thể khởi động lại server"
    );
    assert_eq!(
        sanitize_tts_text("Mình có thể giúp bạn #hôm_nay?"),
        "Mình có thể giúp bạn hôm nay?"
    );
}

#[test]
fn speech_output_keeps_date_and_time_separators_for_zerotts_normalization() {
    let text = sanitize_tts_text("Hôm nay là Tuesday, 23/09/2026 12:54:56 UTC.");
    assert_eq!(text, "Hôm nay là Tuesday, 23/09/2026 12:54:56 UTC.");
}

#[test]
fn speech_output_removes_json_command_across_deltas_before_sentence_delivery() {
    let mut filter = JsonFilter::default();
    let mut segmenter = SentenceSegmenter::new(SpeechOutputConfig::default());
    let mut segments = Vec::new();
    for delta in [
        "{\"cmd\": \"date '+%A, %d/%m/",
        "%Y %H:%M:%S %Z'\"}Hôm nay là Tuesday, ",
        "23/09/2026 12:54:56 UTC.",
    ] {
        segments.extend(segmenter.push(&filter.push(delta)));
    }
    segments.extend(segmenter.push(&filter.finish()));
    segments.extend(segmenter.finish());
    assert_eq!(segments, ["Hôm nay là Tuesday, 23/09/2026 12:54:56 UTC."]);
}

#[test]
fn speech_output_json_filter_handles_escaped_braces_and_keeps_non_json_braces() {
    let mut filter = JsonFilter::default();
    assert_eq!(
        filter.push("Xin {\"note\": \"brace } and \\\"quote\\\"\"}chào {bạn}."),
        "Xin chào {bạn}."
    );
    assert_eq!(filter.push("Mời [1, {\"cmd\": \"skip\"}] bạn."), "Mời bạn.");
    assert_eq!(filter.finish(), "");
}

#[test]
fn tests_splits_unicode_only_at_complete_sentence_boundary() {
    let mut segmenter = SentenceSegmenter::new(SpeechOutputConfig {
        min_chars: 4,
        soft_break_min_chars: 8,
        max_chars: 10,
        pending_segments: 2,
    });
    assert_eq!(segmenter.push("Xin chao。Tiep"), ["Xin chao。"]);
    assert!(segmenter.push(" tuc rat dai").is_empty());
    assert_eq!(segmenter.finish(), Some("Tiep tuc rat dai".into()));
}

#[test]
fn tests_holds_fragmented_vietnamese_deltas_until_the_complete_sentence_boundary() {
    let mut segmenter = SentenceSegmenter::new(SpeechOutputConfig::default());

    for delta in ["Xin", " ch", "ào"] {
        assert!(
            segmenter.push(delta).is_empty(),
            "fragment {delta:?} must not be submitted to TTS"
        );
    }
    assert_eq!(segmenter.push("!"), ["Xin chào!"]);
    for delta in [
        " M", "ình", " có", " thể", " giúp", " gì", " cho", " bạn", " hôm", " nay",
    ] {
        assert!(segmenter.push(delta).is_empty());
    }

    assert_eq!(
        segmenter.push("?"),
        ["Mình có thể giúp gì cho bạn hôm nay?"]
    );
    assert_eq!(segmenter.finish(), None);
}

#[test]
fn tests_does_not_send_a_partial_version_to_tts_when_decimal_dots_span_deltas() {
    let mut segmenter = SentenceSegmenter::new(SpeechOutputConfig::default());
    assert!(segmenter.push("Phiên bản phần mềm hiện là v1.").is_empty());
    assert_eq!(
        segmenter.push("2.3 và đã sẵn sàng."),
        ["Phiên bản phần mềm hiện là v1.2.3 và đã sẵn sàng."]
    );
    assert_eq!(segmenter.finish(), None);
}

#[test]
fn tests_emits_a_complete_sentence_before_the_llm_finishes() {
    let mut segmenter = SentenceSegmenter::new(SpeechOutputConfig::default());
    assert_eq!(
        segmenter.push("Phản hồi âm thanh hoàn chỉnh cho Reference Client."),
        ["Phản hồi âm thanh hoàn chỉnh cho Reference Client."]
    );
    assert_eq!(segmenter.finish(), None);
}

#[test]
fn tests_holds_a_long_sentence_until_eof() {
    let mut segmenter = SentenceSegmenter::new(SpeechOutputConfig {
        min_chars: 4,
        soft_break_min_chars: 8,
        max_chars: 10,
        pending_segments: 2,
    });
    assert!(segmenter.push("abcdefghij").is_empty());
    assert!(segmenter.push("klm next").is_empty());
    assert_eq!(segmenter.finish(), Some("abcdefghijklm next".into()));
}

#[test]
fn tests_short_hard_sentence_is_flushed_immediately() {
    let mut segmenter = SentenceSegmenter::new(SpeechOutputConfig::default());
    for delta in ["Xin", " ch", "ào"] {
        assert!(segmenter.push(delta).is_empty());
    }
    assert_eq!(segmenter.push("!"), ["Xin chào!"]);
    assert!(
        segmenter
            .push(" Mình có thể giúp gì cho bạn hôm nay")
            .is_empty()
    );
    assert_eq!(
        segmenter.push("?"),
        ["Mình có thể giúp gì cho bạn hôm nay?"]
    );
}

#[test]
fn tests_soft_punctuation_and_length_do_not_split_unfinished_sentence() {
    let mut segmenter = SentenceSegmenter::new(SpeechOutputConfig {
        min_chars: 4,
        soft_break_min_chars: 8,
        max_chars: 10,
        pending_segments: 2,
    });
    assert!(
        segmenter
            .push("Nếu bạn muốn, mình có thể kiểm tra")
            .is_empty()
    );
    assert_eq!(
        segmenter.push(" ngay bây giờ."),
        ["Nếu bạn muốn, mình có thể kiểm tra ngay bây giờ."]
    );
}

#[test]
fn tests_sanitizes_markdown_and_emoji_for_tts() {
    assert_eq!(sanitize_tts_text("**Xin chào!** 😊"), "Xin chào!");
    assert_eq!(
        sanitize_tts_text("### Kết quả:\n- Bạn có thể **khởi động lại** server 🚀"),
        "Kết quả: Bạn có thể khởi động lại server"
    );
    assert_eq!(
        sanitize_tts_text("Mình có thể giúp bạn #hôm_nay?"),
        "Mình có thể giúp bạn hôm nay?"
    );
}

#[test]
fn tests_keeps_date_and_time_separators_for_zerotts_normalization() {
    let text = sanitize_tts_text("Hôm nay là Tuesday, 23/09/2026 12:54:56 UTC.");
    assert_eq!(text, "Hôm nay là Tuesday, 23/09/2026 12:54:56 UTC.");
}

#[test]
fn tests_removes_json_command_across_deltas_before_sentence_delivery() {
    let mut filter = JsonFilter::default();
    let mut segmenter = SentenceSegmenter::new(SpeechOutputConfig::default());
    let mut segments = Vec::new();
    for delta in [
        "{\"cmd\": \"date '+%A, %d/%m/",
        "%Y %H:%M:%S %Z'\"}Hôm nay là Tuesday, ",
        "23/09/2026 12:54:56 UTC.",
    ] {
        segments.extend(segmenter.push(&filter.push(delta)));
    }
    segments.extend(segmenter.push(&filter.finish()));
    segments.extend(segmenter.finish());
    assert_eq!(segments, ["Hôm nay là Tuesday, 23/09/2026 12:54:56 UTC."]);
}

#[test]
fn tests_json_filter_handles_escaped_braces_and_keeps_non_json_braces() {
    let mut filter = JsonFilter::default();
    assert_eq!(
        filter.push("Xin {\"note\": \"brace } and \\\"quote\\\"\"}chào {bạn}."),
        "Xin chào {bạn}."
    );
    assert_eq!(filter.push("Mời [1, {\"cmd\": \"skip\"}] bạn."), "Mời bạn.");
    assert_eq!(filter.finish(), "");
}
