use solo_conversation_core::error::{model_file_error, HybridError};
use solo_conversation_core::harness::{
    parse_languages, take_full_chunks, trailing_silence_chunks, CHUNK_MS, CHUNK_SAMPLES, SAMPLE_RATE,
};
use solo_conversation_core::mt::sentencepiece_id_to_nllb_id;
use solo_conversation_core::runtime_guard::{check_runtime_library, runtime_library_path};

fn args(list: &[&str]) -> Vec<String> {
    list.iter().map(|s| s.to_string()).collect()
}

#[test]
fn languages_default_to_english_and_spanish() {
    assert_eq!(parse_languages(&args(&["harness", "wav", "x.wav"])), ("en".to_string(), "es".to_string()));
    assert_eq!(parse_languages(&args(&["harness"])), ("en".to_string(), "es".to_string()));
}

#[test]
fn language_flags_override_and_the_last_one_wins() {
    assert_eq!(
        parse_languages(&args(&["harness", "mic", "--first", "fr", "--second", "de", "--first", "it"])),
        ("it".to_string(), "de".to_string())
    );
    // A flag with nothing after it is skipped.
    assert_eq!(parse_languages(&args(&["harness", "mic", "--second"])), ("en".to_string(), "es".to_string()));
    // The mode argument itself is not read as a flag.
    assert_eq!(parse_languages(&args(&["harness", "--first", "fr"])), ("en".to_string(), "es".to_string()));
}

#[test]
fn chunking_keeps_the_remainder_pending() {
    assert_eq!(CHUNK_SAMPLES, (SAMPLE_RATE as usize * CHUNK_MS as usize) / 1000);
    let mut pending = vec![1, 2];
    let chunks = take_full_chunks(&mut pending, &[3, 4, 5, 6, 7], 3);
    assert_eq!(chunks, vec![vec![1, 2, 3], vec![4, 5, 6]]);
    assert_eq!(pending, vec![7]);
    let chunks = take_full_chunks(&mut pending, &[8], 3);
    assert!(chunks.is_empty());
    assert_eq!(pending, vec![7, 8]);
}

#[test]
fn runtime_library_path_prefers_the_explicit_one() {
    assert_eq!(runtime_library_path(Some("/a.so"), Some("/b.so".into())), Ok("/a.so".to_string()));
    assert_eq!(runtime_library_path(None, Some("/b.so".into())), Ok("/b.so".to_string()));
    assert_eq!(
        runtime_library_path(None, None),
        Err(HybridError::OrtRuntimeUnavailable("ORT_DYLIB_PATH is not set".to_string()))
    );
}

#[test]
fn runtime_library_must_be_a_file() {
    assert_eq!(check_runtime_library("/lib/x.so", true), Ok(()));
    let err = check_runtime_library("/nope", false).unwrap_err();
    assert_eq!(err, HybridError::OrtRuntimeUnavailable("/nope does not point at a file".to_string()));
    assert_eq!(
        err.message(),
        "ONNX Runtime shared library not available: /nope does not point at a file"
    );
}

#[test]
fn error_messages() {
    let err = model_file_error("NLLB_encoder.onnx", "file not found");
    assert_eq!(err, HybridError::ModelLoad("NLLB_encoder.onnx: file not found".to_string()));
    assert_eq!(err.message(), "failed to load model: NLLB_encoder.onnx: file not found");
    assert_eq!(HybridError::AlreadyRunning.message(), "session already running");
    assert_eq!(HybridError::NotRunning.message(), "session not running");
}

#[test]
fn token_ids_shift_by_one_outside_the_special_cases() {
    assert_eq!(sentencepiece_id_to_nllb_id(0), Some(1));
    assert_eq!(sentencepiece_id_to_nllb_id(4), Some(5));
    assert_eq!(sentencepiece_id_to_nllb_id(255_999), Some(256_000));
    assert_eq!(sentencepiece_id_to_nllb_id(1), None);
    assert_eq!(sentencepiece_id_to_nllb_id(2), None);
    assert_eq!(sentencepiece_id_to_nllb_id(3), None);
    assert_eq!(sentencepiece_id_to_nllb_id(u32::MAX), None);
}

#[test]
fn trailing_silence_outlasts_two_seconds() {
    assert_eq!(trailing_silence_chunks(), 21);
    assert!(trailing_silence_chunks() as u32 * CHUNK_MS > 2000);
}
