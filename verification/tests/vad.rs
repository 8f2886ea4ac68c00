use solo_conversation_core::vad::{ChunkLevel, GateEvent, VadConfig, VadGate};

const AMPLITUDE_THRESHOLD: f32 = 0.061;
const ELEVATED_MULTIPLIER: f32 = 2.5;

/// Classifies a chunk the way the host does: peak amplitude against the
/// normal and the raised threshold.
fn level_with(pcm: &[f32], threshold: f32, multiplier: f32) -> ChunkLevel {
    let amplitude = pcm.iter().fold(0.0f32, |max, &sample| max.max(sample.abs()));
    ChunkLevel {
        above_threshold: amplitude >= threshold,
        above_elevated_threshold: amplitude >= threshold * multiplier,
    }
}

fn level(pcm: &[f32]) -> ChunkLevel {
    level_with(pcm, AMPLITUDE_THRESHOLD, ELEVATED_MULTIPLIER)
}

fn loud_chunk(len: usize) -> Vec<f32> {
    vec![0.5; len]
}

fn silent_chunk(len: usize) -> Vec<f32> {
    vec![0.0; len]
}

#[test]
fn declares_an_utterance_after_sustained_voiced_audio() {
    let mut gate = VadGate::new(VadConfig::default());
    // Below min_voice_ms (250ms default): no event yet.
    assert_eq!(gate.process_chunk(level(&loud_chunk(160)), 100), None);
    assert_eq!(gate.process_chunk(level(&loud_chunk(160)), 100), None);
    // Crosses 250ms of contiguous voiced audio.
    assert_eq!(
        gate.process_chunk(level(&loud_chunk(160)), 100),
        Some(GateEvent::UtteranceStarted)
    );
    assert!(gate.is_in_utterance());
}

#[test]
fn ends_an_utterance_after_the_speech_timeout() {
    let mut gate = VadGate::new(VadConfig::default());
    for _ in 0..3 {
        gate.process_chunk(level(&loud_chunk(160)), 100);
    }
    assert!(gate.is_in_utterance());

    for _ in 0..12 {
        let event = gate.process_chunk(level(&silent_chunk(160)), 100);
        assert_ne!(event, Some(GateEvent::UtteranceEnded));
    }
    assert!(gate.is_in_utterance());

    assert_eq!(
        gate.process_chunk(level(&silent_chunk(160)), 100),
        Some(GateEvent::UtteranceEnded)
    );
    assert!(!gate.is_in_utterance());
}

#[test]
fn mutes_immediately_when_playback_starts() {
    let mut gate = VadGate::new(VadConfig::default());
    assert_eq!(
        gate.notify_playback_window(true),
        GateEvent::PlaybackWindowStarted
    );
    assert_eq!(
        gate.process_chunk(level(&loud_chunk(160)), 100),
        Some(GateEvent::SuppressedByPlayback)
    );
    assert!(!gate.is_in_utterance());
}

#[test]
fn graduates_from_muted_to_elevated_to_normal_after_playback_ends() {
    let config = VadConfig {
        muted_tail_ms: 200,
        elevated_tail_ms: 300,
        min_voice_ms: 50,
        ..VadConfig::default()
    };
    let multiplier = 3.0f32;
    let mut gate = VadGate::new(config);
    gate.notify_playback_window(true);
    gate.notify_playback_window(false);

    let moderately_loud = vec![0.1f32; 160];
    let moderate = level_with(&moderately_loud, AMPLITUDE_THRESHOLD, multiplier);
    assert_eq!(
        gate.process_chunk(moderate, 100),
        Some(GateEvent::SuppressedByPlayback)
    );
    assert_eq!(
        gate.process_chunk(moderate, 100),
        Some(GateEvent::SuppressedByPlayback)
    );

    let event = gate.process_chunk(moderate, 100);
    assert_eq!(event, Some(GateEvent::SuppressedByPlayback));

    let mut gate2 = VadGate::new(VadConfig {
        muted_tail_ms: 200,
        elevated_tail_ms: 300,
        min_voice_ms: 50,
        ..VadConfig::default()
    });
    gate2.notify_playback_window(true);
    gate2.notify_playback_window(false);
    gate2.process_chunk(level_with(&silent_chunk(160), AMPLITUDE_THRESHOLD, multiplier), 200);
    assert_eq!(
        gate2.process_chunk(level_with(&loud_chunk(160), AMPLITUDE_THRESHOLD, multiplier), 100),
        Some(GateEvent::UtteranceStarted)
    );
}

#[test]
fn default_timing_values() {
    let config = VadConfig::default();
    assert_eq!(config.min_voice_ms, 250);
    assert_eq!(config.speech_timeout_ms, 1300);
    assert_eq!(config.muted_tail_ms, 300);
    assert_eq!(config.elevated_tail_ms, 700);
}

#[test]
fn clock_advances_by_chunk_duration_only() {
    let mut gate = VadGate::new(VadConfig::default());
    assert_eq!(gate.elapsed_ms(), 0);
    gate.process_chunk(level(&silent_chunk(160)), 100);
    gate.process_chunk(level(&loud_chunk(160)), 40);
    assert_eq!(gate.elapsed_ms(), 140);
    gate.notify_playback_window(true);
    gate.notify_playback_window(false);
    assert_eq!(gate.elapsed_ms(), 140);
}

#[test]
fn nothing_starts_during_playback_however_long() {
    let mut gate = VadGate::new(VadConfig::default());
    gate.notify_playback_window(true);
    for _ in 0..50 {
        assert_eq!(
            gate.process_chunk(level(&loud_chunk(160)), 100),
            Some(GateEvent::SuppressedByPlayback)
        );
    }
    assert!(!gate.is_in_utterance());
}

#[test]
fn window_phases_after_playback_with_default_timing() {
    // Muted for 300 ms, Elevated for 700 ms, then Normal.
    let mut gate = VadGate::new(VadConfig { min_voice_ms: 100, ..VadConfig::default() });
    gate.notify_playback_window(true);
    gate.notify_playback_window(false);
    // Loud enough for both thresholds: gated out while Muted (0..300 ms).
    for _ in 0..3 {
        assert_eq!(
            gate.process_chunk(level(&loud_chunk(160)), 100),
            Some(GateEvent::SuppressedByPlayback)
        );
    }
    // Elevated (300..1000 ms): moderately loud audio is still suppressed.
    let moderate = vec![0.1f32; 160];
    for _ in 0..7 {
        assert_eq!(
            gate.process_chunk(level(&moderate), 100),
            Some(GateEvent::SuppressedByPlayback)
        );
    }
    // Normal from 1000 ms: the same audio starts an utterance.
    assert_eq!(
        gate.process_chunk(level(&moderate), 100),
        Some(GateEvent::UtteranceStarted)
    );
}

#[test]
fn overflow_guards_report_headroom() {
    let gate = VadGate::new(VadConfig::default());
    assert!(gate.can_process_chunk(100));
    assert!(gate.can_process_chunk(u32::MAX));
    assert!(gate.can_notify_playback_window(false));
}
