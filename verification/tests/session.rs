use solo_conversation_core::config::{Direction, DirectionMode, HybridConfig};
use solo_conversation_core::error::HybridError;
use solo_conversation_core::session::{HybridSession, SessionOutput};
use solo_conversation_core::vad::{ChunkLevel, GateEvent};

const LOUD: ChunkLevel = ChunkLevel { above_threshold: true, above_elevated_threshold: true };
const SILENT: ChunkLevel = ChunkLevel { above_threshold: false, above_elevated_threshold: false };

fn config(a: DirectionMode, b: DirectionMode) -> HybridConfig {
    HybridConfig::new("en".into(), "es".into(), a, b)
}

#[test]
fn start_and_stop_follow_the_lifecycle() {
    let mut session: HybridSession<f32> = HybridSession::new();
    assert!(!session.is_running());
    assert_eq!(session.stop(), Err(HybridError::NotRunning));
    assert_eq!(session.start(), Ok(()));
    assert!(session.is_running());
    assert_eq!(session.start(), Err(HybridError::AlreadyRunning));
    assert!(session.is_running());
    assert_eq!(session.stop(), Ok(()));
    assert!(!session.is_running());
}

#[test]
fn a_stopped_session_refuses_audio_and_push_to_talk() {
    let config = config(DirectionMode::Live, DirectionMode::PushToTalk);
    let mut session: HybridSession<f32> = HybridSession::new();
    assert_eq!(
        session.push_audio_chunk(&config, &[0.5; 160], LOUD, 100),
        Err(HybridError::NotRunning)
    );
    assert_eq!(session.begin_push_to_talk(Direction::SecondToFirst), Err(HybridError::NotRunning));
    assert_eq!(session.end_push_to_talk(&config, Direction::SecondToFirst), Err(HybridError::NotRunning));
}

#[test]
fn a_live_utterance_becomes_translated_text() {
    let config = config(DirectionMode::Live, DirectionMode::Off);
    let mut session: HybridSession<f32> = HybridSession::new();
    session.start().unwrap();
    let mut outputs = Vec::new();
    for _ in 0..5 {
        outputs.extend(session.push_audio_chunk(&config, &[0.5; 160], LOUD, 100).unwrap());
    }
    for _ in 0..13 {
        outputs.extend(session.push_audio_chunk(&config, &[0.0; 160], SILENT, 100).unwrap());
    }
    assert_eq!(
        outputs,
        vec![
            SessionOutput::Debug {
                direction: Direction::FirstToSecond,
                event: GateEvent::UtteranceStarted,
                elapsed_ms: 300,
            },
            SessionOutput::Debug {
                direction: Direction::FirstToSecond,
                event: GateEvent::UtteranceEnded,
                elapsed_ms: 1800,
            },
            SessionOutput::Translated {
                direction: Direction::FirstToSecond,
                text: "[stub: 2400 samples captured for -> es]".to_string(),
            },
        ]
    );
}

#[test]
fn an_ambiguous_utterance_is_not_translated_yet() {
    let config = config(DirectionMode::Live, DirectionMode::Live);
    let mut session: HybridSession<f32> = HybridSession::new();
    session.start().unwrap();
    let mut outputs = Vec::new();
    for _ in 0..5 {
        outputs.extend(session.push_audio_chunk(&config, &[0.5; 160], LOUD, 100).unwrap());
    }
    for _ in 0..13 {
        outputs.extend(session.push_audio_chunk(&config, &[0.0; 160], SILENT, 100).unwrap());
    }
    assert_eq!(outputs.len(), 4);
    assert!(outputs.iter().all(|o| matches!(o, SessionOutput::Debug { .. })));
}

#[test]
fn push_to_talk_is_translated_on_release() {
    let config = config(DirectionMode::Off, DirectionMode::PushToTalk);
    let mut session: HybridSession<f32> = HybridSession::new();
    session.start().unwrap();
    session.begin_push_to_talk(Direction::SecondToFirst).unwrap();
    assert_eq!(session.push_audio_chunk(&config, &[0.5; 7], LOUD, 100), Ok(vec![]));
    assert_eq!(session.push_audio_chunk(&config, &[0.5; 5], SILENT, 100), Ok(vec![]));
    assert_eq!(
        session.end_push_to_talk(&config, Direction::SecondToFirst),
        Ok(Some(SessionOutput::Translated {
            direction: Direction::SecondToFirst,
            text: "[stub: 12 samples captured for -> en]".to_string(),
        }))
    );
    assert_eq!(session.end_push_to_talk(&config, Direction::SecondToFirst), Ok(None));
}

#[test]
fn playback_signal_is_reported_even_when_stopped() {
    let mut session: HybridSession<f32> = HybridSession::new();
    assert_eq!(
        session.notify_playback_window(Direction::FirstToSecond, true),
        Some(SessionOutput::Debug {
            direction: Direction::FirstToSecond,
            event: GateEvent::PlaybackWindowStarted,
            elapsed_ms: 0,
        })
    );
    assert_eq!(
        session.notify_playback_window(Direction::FirstToSecond, false),
        Some(SessionOutput::Debug {
            direction: Direction::FirstToSecond,
            event: GateEvent::PlaybackWindowEnded,
            elapsed_ms: 0,
        })
    );
}

#[test]
fn placeholder_text_counts_samples_in_decimal() {
    let config = config(DirectionMode::Live, DirectionMode::Live);
    let session: HybridSession<u8> = HybridSession::new();
    assert_eq!(
        session.resolve_utterance(&config, Direction::FirstToSecond, &[]),
        "[stub: 0 samples captured for -> es]"
    );
    assert_eq!(
        session.resolve_utterance(&config, Direction::SecondToFirst, &[1u8; 1090]),
        "[stub: 1090 samples captured for -> en]"
    );
}
