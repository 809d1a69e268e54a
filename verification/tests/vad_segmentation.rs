use voice_agent_server::audio::{VadBoundary, VadSegmenterError};
use voice_agent_server::vad::{VadLevel, VadSegmenter, VadTiming, VadWindow};

fn window(level: VadLevel, start: u64) -> VadWindow {
    VadWindow {
        level,
        start_sample: start,
        end_sample: start + 512,
    }
}

fn segmenter() -> VadSegmenter {
    VadSegmenter::new(VadTiming {
        min_speech_samples: 1_024,
        end_silence_samples: 1_536,
    })
}

#[test]
fn speech_starts_after_the_minimum_duration_at_its_onset() {
    let mut vad = segmenter();
    assert_eq!(vad.observe(window(VadLevel::Silence, 0)), Ok(None));
    assert_eq!(vad.observe(window(VadLevel::Speech, 512)), Ok(None));
    assert_eq!(
        vad.observe(window(VadLevel::Speech, 1_024)),
        Ok(Some(VadBoundary::SpeechStart { start_sample: 512 }))
    );
    assert!(vad.speech_active());
}

#[test]
fn hysteresis_keeps_candidates_between_thresholds() {
    let mut vad = segmenter();
    assert_eq!(vad.observe(window(VadLevel::Speech, 0)), Ok(None));
    assert_eq!(vad.observe(window(VadLevel::Between, 512)), Ok(None));
    assert_eq!(
        vad.observe(window(VadLevel::Speech, 1_024)),
        Ok(Some(VadBoundary::SpeechStart { start_sample: 0 }))
    );
    assert_eq!(vad.observe(window(VadLevel::Silence, 1_536)), Ok(None));
    assert_eq!(vad.observe(window(VadLevel::Speech, 2_048)), Ok(None));
    assert_eq!(vad.observe(window(VadLevel::Silence, 2_560)), Ok(None));
    assert_eq!(vad.observe(window(VadLevel::Between, 3_072)), Ok(None));
    assert_eq!(
        vad.observe(window(VadLevel::Silence, 3_584)),
        Ok(Some(VadBoundary::SpeechEnd { end_sample: 2_560 }))
    );
    assert!(!vad.speech_active());
}

#[test]
fn a_silent_window_cancels_a_speech_candidate() {
    let mut vad = segmenter();
    assert_eq!(vad.observe(window(VadLevel::Speech, 0)), Ok(None));
    assert_eq!(vad.observe(window(VadLevel::Silence, 512)), Ok(None));
    assert_eq!(vad.observe(window(VadLevel::Speech, 1_024)), Ok(None));
    assert_eq!(
        vad.observe(window(VadLevel::Speech, 1_536)),
        Ok(Some(VadBoundary::SpeechStart { start_sample: 1_024 }))
    );
}

#[test]
fn broken_timelines_are_refused() {
    let mut vad = segmenter();
    assert_eq!(vad.observe(window(VadLevel::Silence, 0)), Ok(None));
    assert_eq!(
        vad.observe(window(VadLevel::Silence, 1_000)),
        Err(VadSegmenterError::StreamIntegrity)
    );
    assert_eq!(
        vad.observe(window(VadLevel::Invalid, 512)),
        Err(VadSegmenterError::StreamIntegrity)
    );
    assert_eq!(
        vad.observe(VadWindow {
            level: VadLevel::Speech,
            start_sample: 512,
            end_sample: 512
        }),
        Err(VadSegmenterError::StreamIntegrity)
    );
    assert_eq!(vad.observe(window(VadLevel::Silence, 512)), Ok(None));
    vad.reset();
    assert_eq!(vad.observe(window(VadLevel::Silence, 99)), Ok(None));
}

#[test]
fn a_long_run_of_short_windows_reports_its_first_sample() {
    let mut vad = VadSegmenter::new(VadTiming {
        min_speech_samples: 1_000,
        end_silence_samples: 1_000,
    });
    let short = |level: VadLevel, start: u64| VadWindow {
        level,
        start_sample: start,
        end_sample: start + 200,
    };
    assert_eq!(vad.observe(short(VadLevel::Silence, 0)), Ok(None));
    assert_eq!(vad.observe(short(VadLevel::Speech, 200)), Ok(None));
    assert_eq!(vad.observe(short(VadLevel::Between, 400)), Ok(None));
    assert_eq!(vad.observe(short(VadLevel::Speech, 600)), Ok(None));
    assert_eq!(vad.observe(short(VadLevel::Between, 800)), Ok(None));
    assert_eq!(vad.observe(short(VadLevel::Between, 1_000)), Ok(None));
    assert!(!vad.speech_active());
    assert_eq!(
        vad.observe(short(VadLevel::Speech, 1_200)),
        Ok(Some(VadBoundary::SpeechStart { start_sample: 200 }))
    );
    assert!(vad.speech_active());
}
