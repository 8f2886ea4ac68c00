use solo_conversation_core::config::{Direction, DirectionMode, HybridConfig};

#[test]
fn switching_one_direction_does_not_affect_the_other() {
    let mut config = HybridConfig::new(
        "en".into(),
        "es".into(),
        DirectionMode::Live,
        DirectionMode::PushToTalk,
    );

    assert_eq!(config.mode(Direction::FirstToSecond), DirectionMode::Live);
    assert_eq!(
        config.mode(Direction::SecondToFirst),
        DirectionMode::PushToTalk
    );

    config.set_mode(Direction::FirstToSecond, DirectionMode::PushToTalk);

    assert_eq!(
        config.mode(Direction::FirstToSecond),
        DirectionMode::PushToTalk
    );
    assert_eq!(
        config.mode(Direction::SecondToFirst),
        DirectionMode::PushToTalk
    );

    config.set_mode(Direction::SecondToFirst, DirectionMode::Off);
    assert_eq!(config.mode(Direction::SecondToFirst), DirectionMode::Off);
    assert_eq!(
        config.mode(Direction::FirstToSecond),
        DirectionMode::PushToTalk,
        "switching a direction to Off must not affect the other direction"
    );
}

#[test]
fn directions_mirror_their_languages() {
    let config = HybridConfig::new(
        "en".into(),
        "es".into(),
        DirectionMode::Live,
        DirectionMode::Live,
    );
    assert_eq!(config.source_language(Direction::FirstToSecond), "en");
    assert_eq!(config.target_language(Direction::FirstToSecond), "es");
    assert_eq!(config.source_language(Direction::SecondToFirst), "es");
    assert_eq!(config.target_language(Direction::SecondToFirst), "en");
}

#[test]
fn set_mode_keeps_language_codes() {
    let mut config = HybridConfig::new(
        "fr".into(),
        "de".into(),
        DirectionMode::Off,
        DirectionMode::Off,
    );
    config.set_mode(Direction::SecondToFirst, DirectionMode::Live);
    assert_eq!(config.mode(Direction::SecondToFirst), DirectionMode::Live);
    assert_eq!(config.mode(Direction::FirstToSecond), DirectionMode::Off);
    assert_eq!(config.source_language(Direction::SecondToFirst), "de");
    assert_eq!(config.target_language(Direction::SecondToFirst), "fr");
}

#[test]
fn many_mode_switches_keep_languages_mirrored() {
    let mut config = HybridConfig::new(
        "en".into(),
        "ja".into(),
        DirectionMode::Live,
        DirectionMode::Live,
    );
    config.set_mode(Direction::FirstToSecond, DirectionMode::PushToTalk);
    config.set_mode(Direction::SecondToFirst, DirectionMode::Off);
    config.set_mode(Direction::FirstToSecond, DirectionMode::Off);
    config.set_mode(Direction::FirstToSecond, DirectionMode::Live);
    assert_eq!(config.mode(Direction::FirstToSecond), DirectionMode::Live);
    assert_eq!(config.mode(Direction::SecondToFirst), DirectionMode::Off);
    assert_eq!(config.source_language(Direction::FirstToSecond), "en");
    assert_eq!(config.target_language(Direction::FirstToSecond), "ja");
    assert_eq!(config.source_language(Direction::SecondToFirst), "ja");
    assert_eq!(config.target_language(Direction::SecondToFirst), "en");
    assert_eq!(
        config.target_language(Direction::FirstToSecond),
        config.source_language(Direction::SecondToFirst)
    );
}
