use solo_conversation_core::config::{Direction, DirectionMode, HybridConfig};
use solo_conversation_core::pipeline::{ConversationState, PipelineEvent, PipelineManager};
use solo_conversation_core::vad::{ChunkLevel, GateEvent, VadConfig};

const AMPLITUDE_THRESHOLD: f32 = 0.061;
const ELEVATED_MULTIPLIER: f32 = 2.5;
const CONFIDENCE_TIE_EPSILON: f64 = 0.05;

/// Classifies a chunk the way the host does: peak amplitude against the
/// normal and the raised threshold.
fn level(pcm: &[f32]) -> ChunkLevel {
    let amplitude = pcm.iter().fold(0.0f32, |max, &sample| max.max(sample.abs()));
    ChunkLevel {
        above_threshold: amplitude >= AMPLITUDE_THRESHOLD,
        above_elevated_threshold: amplitude >= AMPLITUDE_THRESHOLD * ELEVATED_MULTIPLIER,
    }
}

/// The recognition-confidence comparison the host makes: a winner only when
/// the two scores differ by more than the tie margin.
fn confidence_winner(first_to_second: f64, second_to_first: f64) -> Option<Direction> {
    if (first_to_second - second_to_first).abs() > CONFIDENCE_TIE_EPSILON {
        if first_to_second > second_to_first {
            Some(Direction::FirstToSecond)
        } else {
            Some(Direction::SecondToFirst)
        }
    } else {
        None
    }
}

fn loud_chunk(len: usize) -> Vec<f32> {
    vec![0.5; len]
}

fn silent_chunk(len: usize) -> Vec<f32> {
    vec![0.0; len]
}

fn config(a: DirectionMode, b: DirectionMode) -> HybridConfig {
    HybridConfig::new("en".into(), "es".into(), a, b)
}

fn push(pipeline: &mut PipelineManager<f32>, config: &HybridConfig, pcm: &[f32]) -> Vec<PipelineEvent<f32>> {
    pipeline.process_chunk(config, pcm, level(pcm), 100)
}

#[test]
fn single_live_direction_reports_an_unambiguous_utterance() {
    let config = config(DirectionMode::Live, DirectionMode::Off);
    let mut pipeline = PipelineManager::new(VadConfig::default());

    let mut saw_ready = false;
    for _ in 0..20 {
        let events = push(&mut pipeline, &config, &loud_chunk(160));
        for event in events {
            assert!(
                !matches!(event, PipelineEvent::AmbiguousUtteranceReady { .. }),
                "only one direction is Live, there's nothing to disambiguate"
            );
            if let PipelineEvent::UtteranceReady { direction, pcm } = event {
                assert_eq!(direction, Direction::FirstToSecond);
                assert!(!pcm.is_empty());
                saw_ready = true;
            }
        }
    }
    for _ in 0..15 {
        let events = push(&mut pipeline, &config, &silent_chunk(160));
        for event in events {
            if let PipelineEvent::UtteranceReady { .. } = event {
                saw_ready = true;
            }
        }
    }
    assert!(
        saw_ready,
        "expected an UtteranceReady after voice then silence"
    );
}

#[test]
fn both_live_directions_report_one_ambiguous_event_not_two() {
    let config = config(DirectionMode::Live, DirectionMode::Live);
    let mut pipeline = PipelineManager::new(VadConfig::default());

    let mut ambiguous_count = 0;
    let mut unambiguous_count = 0;
    for _ in 0..35 {
        for event in push(&mut pipeline, &config, &loud_chunk(160)) {
            match event {
                PipelineEvent::AmbiguousUtteranceReady { .. } => ambiguous_count += 1,
                PipelineEvent::UtteranceReady { .. } => unambiguous_count += 1,
                _ => {}
            }
        }
    }
    for _ in 0..15 {
        for event in push(&mut pipeline, &config, &silent_chunk(160)) {
            match event {
                PipelineEvent::AmbiguousUtteranceReady { .. } => ambiguous_count += 1,
                PipelineEvent::UtteranceReady { .. } => unambiguous_count += 1,
                _ => {}
            }
        }
    }
    assert_eq!(ambiguous_count, 1);
    assert_eq!(unambiguous_count, 0);
}

#[test]
fn off_direction_never_buffers_or_reports() {
    let config = config(DirectionMode::Live, DirectionMode::Off);
    let mut pipeline = PipelineManager::new(VadConfig::default());

    for _ in 0..20 {
        for event in push(&mut pipeline, &config, &loud_chunk(160)) {
            if let PipelineEvent::Debug { direction, .. } = event {
                assert_ne!(
                    direction,
                    Direction::SecondToFirst,
                    "Off direction must never be touched"
                );
            }
        }
    }
}

#[test]
fn push_to_talk_only_buffers_while_armed() {
    let config = config(DirectionMode::Off, DirectionMode::PushToTalk);
    let mut pipeline = PipelineManager::new(VadConfig::default());

    // Audio arriving before begin_push_to_talk is discarded.
    push(&mut pipeline, &config, &loud_chunk(160));
    pipeline.begin_push_to_talk(Direction::SecondToFirst);
    push(&mut pipeline, &config, &loud_chunk(160));
    push(&mut pipeline, &config, &loud_chunk(160));
    let event = pipeline.end_push_to_talk(Direction::SecondToFirst);

    match event {
        Some(PipelineEvent::PushToTalkReady { direction, pcm }) => {
            assert_eq!(direction, Direction::SecondToFirst);
            assert_eq!(
                pcm.len(),
                320,
                "should only contain the two chunks captured while armed"
            );
        }
        other => panic!("expected PushToTalkReady, got {other:?}"),
    }
}

#[test]
fn end_push_to_talk_with_no_audio_returns_none() {
    let mut pipeline: PipelineManager<f32> = PipelineManager::new(VadConfig::default());
    pipeline.begin_push_to_talk(Direction::FirstToSecond);
    assert!(pipeline
        .end_push_to_talk(Direction::FirstToSecond)
        .is_none());
}

#[test]
fn resolve_ambiguous_prefers_langid_over_confidence_and_bias() {
    let config = config(DirectionMode::Live, DirectionMode::Live);
    let mut pipeline: PipelineManager<f32> = PipelineManager::new(VadConfig::default());

    let resolved = pipeline.resolve_ambiguous(
        &config,
        "Hola, como estas hoy? Espero que todo vaya muy bien.", // Spanish text in the "en" slot
        "Hola, como estas hoy? Espero que todo vaya muy bien.", // Spanish text in the "es" slot (correct)
        confidence_winner(0.5, 0.5), // tied confidence — langid should still resolve this
    );
    assert_eq!(resolved, Direction::SecondToFirst);
}

#[test]
fn resolve_ambiguous_falls_back_to_confidence_then_sticky_bias() {
    let config = config(DirectionMode::Live, DirectionMode::Live);
    let mut pipeline: PipelineManager<f32> = PipelineManager::new(VadConfig::default());

    let resolved = pipeline.resolve_ambiguous(&config, "xyz123", "xyz123", confidence_winner(0.9, 0.1));
    assert_eq!(resolved, Direction::FirstToSecond);

    let resolved = pipeline.resolve_ambiguous(&config, "xyz123", "xyz123", confidence_winner(0.5, 0.5));
    assert_eq!(resolved, Direction::FirstToSecond);
}

#[test]
fn resolve_ambiguous_with_no_prior_bias_defaults_to_first_to_second() {
    let config = config(DirectionMode::Live, DirectionMode::Live);
    let mut pipeline: PipelineManager<f32> = PipelineManager::new(VadConfig::default());
    let resolved = pipeline.resolve_ambiguous(&config, "xyz123", "xyz123", confidence_winner(0.5, 0.5));
    assert_eq!(resolved, Direction::FirstToSecond);
}

#[test]
fn sticky_bias_follows_the_last_resolution() {
    let config = config(DirectionMode::Live, DirectionMode::Live);
    let mut pipeline: PipelineManager<f32> = PipelineManager::new(VadConfig::default());
    assert_eq!(
        pipeline.resolve_ambiguous(&config, "xyz123", "xyz123", confidence_winner(0.1, 0.9)),
        Direction::SecondToFirst
    );
    assert_eq!(
        pipeline.resolve_ambiguous(&config, "xyz123", "xyz123", confidence_winner(0.52, 0.5)),
        Direction::SecondToFirst
    );
    assert_eq!(
        pipeline.resolve_from_signals(Some(true), Some(Direction::SecondToFirst)),
        Direction::FirstToSecond
    );
    assert_eq!(pipeline.resolve_from_signals(None, None), Direction::FirstToSecond);
}

#[test]
fn conversation_state_records_the_last_direction() {
    let mut state = ConversationState::new();
    assert_eq!(state.bias(), None);
    state.record(Direction::SecondToFirst);
    assert_eq!(state.bias(), Some(Direction::SecondToFirst));
    state.record(Direction::FirstToSecond);
    assert_eq!(state.bias(), Some(Direction::FirstToSecond));
}

#[test]
fn live_utterance_hands_off_exactly_the_buffered_audio() {
    let config = config(DirectionMode::Live, DirectionMode::PushToTalk);
    let mut pipeline = PipelineManager::new(VadConfig::default());
    let mut ready: Option<Vec<f32>> = None;
    // Voice: the first two 100 ms chunks ramp up, the third starts the
    // utterance and is buffered along with the next two.
    for _ in 0..5 {
        push(&mut pipeline, &config, &loud_chunk(160));
    }
    // 13 silent chunks close the utterance; the first 12 are buffered.
    for _ in 0..13 {
        for event in push(&mut pipeline, &config, &silent_chunk(160)) {
            if let PipelineEvent::UtteranceReady { direction, pcm } = event {
                assert_eq!(direction, Direction::FirstToSecond);
                ready = Some(pcm);
            }
        }
    }
    let pcm = ready.expect("utterance should have ended");
    assert_eq!(pcm.len(), (3 + 12) * 160);
}

#[test]
fn playback_notification_is_reported_for_its_direction() {
    let config = config(DirectionMode::Live, DirectionMode::Live);
    let mut pipeline = PipelineManager::new(VadConfig::default());
    push(&mut pipeline, &config, &silent_chunk(160));
    match pipeline.notify_playback_window(Direction::SecondToFirst, true) {
        PipelineEvent::Debug { direction, event, elapsed_ms } => {
            assert_eq!(direction, Direction::SecondToFirst);
            assert_eq!(event, GateEvent::PlaybackWindowStarted);
            assert_eq!(elapsed_ms, 100);
        }
        other => panic!("expected a debug event, got {other:?}"),
    }
    // Only the muted direction suppresses loud audio now.
    let events = push(&mut pipeline, &config, &loud_chunk(160));
    assert!(events.iter().any(|e| matches!(
        e,
        PipelineEvent::Debug { direction: Direction::SecondToFirst, event: GateEvent::SuppressedByPlayback, .. }
    )));
    assert!(!events.iter().any(|e| matches!(e, PipelineEvent::Debug { direction: Direction::FirstToSecond, .. })));
}

#[test]
fn live_direction_keeps_listening_while_the_other_is_held() {
    let config = config(DirectionMode::Live, DirectionMode::PushToTalk);
    let mut pipeline = PipelineManager::new(VadConfig::default());
    pipeline.begin_push_to_talk(Direction::SecondToFirst);
    let mut started = false;
    for _ in 0..3 {
        for event in push(&mut pipeline, &config, &loud_chunk(160)) {
            if let PipelineEvent::Debug { direction, event: GateEvent::UtteranceStarted, .. } = event {
                assert_eq!(direction, Direction::FirstToSecond);
                started = true;
            }
        }
    }
    assert!(started);
    match pipeline.end_push_to_talk(Direction::SecondToFirst) {
        Some(PipelineEvent::PushToTalkReady { pcm, .. }) => assert_eq!(pcm.len(), 480),
        other => panic!("expected PushToTalkReady, got {other:?}"),
    }
}

#[test]
fn rearming_push_to_talk_discards_the_earlier_capture() {
    let config = config(DirectionMode::PushToTalk, DirectionMode::Off);
    let mut pipeline: PipelineManager<f32> = PipelineManager::new(VadConfig::default());
    pipeline.begin_push_to_talk(Direction::FirstToSecond);
    let first = vec![0.25f32; 4];
    let _ = push(&mut pipeline, &config, &first);
    pipeline.begin_push_to_talk(Direction::FirstToSecond);
    assert!(pipeline.end_push_to_talk(Direction::FirstToSecond).is_none());
    assert!(pipeline.end_push_to_talk(Direction::SecondToFirst).is_none());
}
