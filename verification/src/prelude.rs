//! Convenience re-exports of the common types.

pub use crate::buffer_callback::SpeechAudioCommonFormat;
pub use crate::error::AvSpeechError;
pub use crate::marker::{SpeechSynthesisMarker, SpeechSynthesisMarkerMark, TextRange};
pub use crate::personal_voice::{available_personal_voices, PersonalVoiceAuthorizationStatus};
pub use crate::synthesizer::{SpeechBoundary, SpeechEvent, WrittenAudioFile};
pub use crate::utterance::{AttributedSpeechString, SpeechAttributeRun, SpeechUtteranceKind};
pub use crate::voice::{
    SpeechSynthesisVoice, SpeechSynthesisVoiceGender, SpeechSynthesisVoiceQuality,
    SpeechSynthesisVoiceTraits,
};
