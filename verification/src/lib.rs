//! Core of a two-direction speech-translation session: per-direction
//! live / push-to-talk / off configuration, an energy-gated voice-activity
//! detector with an echo-safety window around text-to-speech playback, the
//! per-direction capture pipeline, language disambiguation for the case where
//! both directions listen at once, and the session state machine that turns
//! pipeline events into translation and debug outputs.

pub mod config;
pub mod error;
pub mod vad;
pub mod text;
pub mod langid;
pub mod pipeline;
pub mod session;
pub mod mt;
pub mod runtime_guard;
pub mod harness;
