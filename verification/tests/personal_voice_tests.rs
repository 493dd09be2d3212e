use avspeechsynthesizer::personal_voice::authorization_timeout_seconds;
use avspeechsynthesizer::{
    available_personal_voices, AvSpeechError, PersonalVoiceAuthorizationStatus, SpeechSynthesisVoice,
    SpeechSynthesisVoiceTraits,
};
use avspeechsynthesizer::voice::VoicePayload;

fn voice(name: &str, traits: u64) -> SpeechSynthesisVoice {
    SpeechSynthesisVoice::from_payload(VoicePayload {
        language: "en-US".to_owned(),
        identifier: format!("id.{name}"),
        name: name.to_owned(),
        quality: 1,
        gender: None,
        audio_file_settings_json: None,
        voice_traits: Some(traits),
    })
}

#[test]
fn authorization_raw_values() {
    assert_eq!(PersonalVoiceAuthorizationStatus::from_raw(0), PersonalVoiceAuthorizationStatus::NotDetermined);
    assert_eq!(PersonalVoiceAuthorizationStatus::from_raw(1), PersonalVoiceAuthorizationStatus::Denied);
    assert_eq!(PersonalVoiceAuthorizationStatus::from_raw(2), PersonalVoiceAuthorizationStatus::Unsupported);
    assert_eq!(PersonalVoiceAuthorizationStatus::from_raw(3), PersonalVoiceAuthorizationStatus::Authorized);
    assert_eq!(PersonalVoiceAuthorizationStatus::from_raw(9), PersonalVoiceAuthorizationStatus::Unknown(9));
    assert!(PersonalVoiceAuthorizationStatus::from_raw(3).is_authorized());
    assert!(!PersonalVoiceAuthorizationStatus::from_raw(1).is_authorized());
    assert!(!PersonalVoiceAuthorizationStatus::Unknown(3).is_authorized());
}

#[test]
fn authorization_replies() {
    assert_eq!(
        PersonalVoiceAuthorizationStatus::from_reply(0, 3, None),
        Ok(PersonalVoiceAuthorizationStatus::Authorized)
    );
    assert_eq!(
        PersonalVoiceAuthorizationStatus::from_reply(-2, 3, Some("macOS 14 required".to_owned())),
        Err(AvSpeechError::UnavailableOnThisMacOS("macOS 14 required".to_owned()))
    );
}

#[test]
fn authorization_timeout_rounds_up_and_saturates() {
    assert_eq!(authorization_timeout_seconds(0, 0), 0);
    assert_eq!(authorization_timeout_seconds(0, 1), 1);
    assert_eq!(authorization_timeout_seconds(5, 0), 5);
    assert_eq!(authorization_timeout_seconds(5, 500_000_000), 6);
    assert_eq!(authorization_timeout_seconds(2_147_483_646, 1), i32::MAX);
    assert_eq!(authorization_timeout_seconds(2_147_483_647, 1), i32::MAX);
    assert_eq!(authorization_timeout_seconds(u64::MAX, 999_999_999), i32::MAX);
}

#[test]
fn personal_voices_keep_catalog_order() {
    let catalog = vec![voice("a", 0), voice("b", 2), voice("c", 1), voice("d", 3), voice("e", 2)];
    let personal = available_personal_voices(catalog);
    let names: Vec<&str> = personal.iter().map(|v| v.name()).collect();
    assert_eq!(names, vec!["b", "d", "e"]);
    for v in &personal {
        assert!(v.voice_traits().contains(SpeechSynthesisVoiceTraits::personal_voice()));
    }
    assert!(available_personal_voices(Vec::new()).is_empty());
}
