//! Core of the AVSpeechSynthesis bindings: the values that travel between
//! Rust and the platform speech bridge (markers, voices, events, audio
//! buffers, authorization states) and the decisions taken on them, with
//! their contracts proved by Verus.
//!
//! The calls into the platform bridge itself live outside this crate; the
//! functions here take what the bridge replies as plain values.

pub mod async_api;
pub mod buffer_callback;
pub mod error;
pub mod json;
pub mod marker;
pub mod personal_voice;
pub mod prelude;
pub mod status;
pub mod synthesizer;
pub mod text;
pub mod utterance;
pub mod voice;

pub use buffer_callback::SpeechAudioCommonFormat;
pub use error::AvSpeechError;
pub use marker::{SpeechSynthesisMarker, SpeechSynthesisMarkerMark, TextRange};
pub use personal_voice::{available_personal_voices, PersonalVoiceAuthorizationStatus};
pub use synthesizer::{SpeechBoundary, SpeechEvent, WrittenAudioFile};
pub use utterance::{AttributedSpeechString, SpeechAttributeRun, SpeechUtteranceKind};
pub use voice::{
    SpeechSynthesisVoice, SpeechSynthesisVoiceGender, SpeechSynthesisVoiceQuality,
    SpeechSynthesisVoiceTraits,
};
