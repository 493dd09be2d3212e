use avspeechsynthesizer::{
    AvSpeechError, SpeechSynthesisVoice, SpeechSynthesisVoiceGender, SpeechSynthesisVoiceQuality,
    SpeechSynthesisVoiceTraits,
};
use avspeechsynthesizer::voice::VoicePayload;

fn payload(traits: Option<u64>) -> VoicePayload {
    VoicePayload {
        language: "en-US".to_owned(),
        identifier: "com.apple.voice.compact.en-US.Samantha".to_owned(),
        name: "Samantha".to_owned(),
        quality: 2,
        gender: Some(2),
        audio_file_settings_json: Some("{\"AVSampleRateKey\":22050}".to_owned()),
        voice_traits: traits,
    }
}

#[test]
fn quality_and_gender_raw_values_round_trip() {
    assert_eq!(SpeechSynthesisVoiceQuality::from_raw(1), SpeechSynthesisVoiceQuality::Default);
    assert_eq!(SpeechSynthesisVoiceQuality::from_raw(3), SpeechSynthesisVoiceQuality::Premium);
    assert_eq!(SpeechSynthesisVoiceQuality::from_raw(0), SpeechSynthesisVoiceQuality::Unknown(0));
    assert_eq!(SpeechSynthesisVoiceQuality::Enhanced.as_raw(), 2);
    assert_eq!(SpeechSynthesisVoiceGender::from_raw(0), SpeechSynthesisVoiceGender::Unspecified);
    assert_eq!(SpeechSynthesisVoiceGender::from_raw(2), SpeechSynthesisVoiceGender::Female);
    assert_eq!(SpeechSynthesisVoiceGender::from_raw(-1), SpeechSynthesisVoiceGender::Unknown(-1));
    assert_eq!(SpeechSynthesisVoiceGender::Male.as_raw(), 1);
    for raw in [-3i64, 0, 1, 2, 3, 4, 1000] {
        assert_eq!(SpeechSynthesisVoiceQuality::from_raw(raw).as_raw(), raw);
        assert_eq!(SpeechSynthesisVoiceGender::from_raw(raw).as_raw(), raw);
    }
}

#[test]
fn voice_traits_behave_as_bit_flags() {
    let none = SpeechSynthesisVoiceTraits::none();
    let novelty = SpeechSynthesisVoiceTraits::novelty_voice();
    let personal = SpeechSynthesisVoiceTraits::personal_voice();
    assert!(none.is_empty());
    assert_eq!(novelty.bits(), 1);
    assert_eq!(personal.bits(), 2);
    let both = novelty | personal;
    assert_eq!(both.bits(), 3);
    assert!(both.contains(novelty));
    assert!(both.contains(personal));
    assert!(both.contains(none));
    assert!(!novelty.contains(personal));
    assert_eq!((both & personal).bits(), 2);
    let mut flags = SpeechSynthesisVoiceTraits::from_bits(0);
    flags |= personal;
    assert!(flags.contains(personal));
    flags &= novelty;
    assert!(flags.is_empty());
}

#[test]
fn voice_reads_its_payload() {
    let voice = SpeechSynthesisVoice::from_payload(payload(Some(2)));
    assert_eq!(voice.language(), "en-US");
    assert_eq!(voice.identifier(), "com.apple.voice.compact.en-US.Samantha");
    assert_eq!(voice.name(), "Samantha");
    assert_eq!(voice.quality(), SpeechSynthesisVoiceQuality::Enhanced);
    assert_eq!(voice.gender(), Some(SpeechSynthesisVoiceGender::Female));
    assert_eq!(voice.audio_file_settings_json(), Some("{\"AVSampleRateKey\":22050}"));
    assert_eq!(voice.traits().bits(), 2);
    assert_eq!(voice.voice_traits().bits(), 2);

    let without_traits = SpeechSynthesisVoice::from_payload(payload(None));
    assert!(without_traits.voice_traits().is_empty());
}

#[test]
fn voice_survives_payload_round_trip() {
    let voice = SpeechSynthesisVoice::from_payload(payload(Some(3)));
    let again = SpeechSynthesisVoice::from_payload(voice.to_payload());
    assert_eq!(voice, again);
    let p = voice.to_payload();
    assert_eq!(p.quality, 2);
    assert_eq!(p.gender, Some(2));
    assert_eq!(p.voice_traits, Some(3));
}

#[test]
fn audio_file_settings_parse_as_json() {
    let voice = SpeechSynthesisVoice::from_payload(payload(None));
    let settings = voice.audio_file_settings().unwrap().unwrap();
    assert_eq!(settings["AVSampleRateKey"], serde_json::Value::from(22050));

    let mut broken = payload(None);
    broken.audio_file_settings_json = Some("{not json".to_owned());
    match SpeechSynthesisVoice::from_payload(broken).audio_file_settings() {
        Err(AvSpeechError::Unknown(message)) => assert!(message.starts_with(
            "failed to decode speech synthesis voice audio file settings JSON payload: "
        )),
        other => panic!("expected a decode error, got {other:?}"),
    }

    let mut none = payload(None);
    none.audio_file_settings_json = None;
    assert!(SpeechSynthesisVoice::from_payload(none).audio_file_settings().unwrap().is_none());
}

#[test]
fn lookup_replies_become_voices_or_errors() {
    let found = SpeechSynthesisVoice::from_lookup_reply(None, Some(payload(None))).unwrap();
    assert_eq!(found.map(|v| v.name().to_owned()), Some("Samantha".to_owned()));
    assert!(SpeechSynthesisVoice::from_lookup_reply(None, None).unwrap().is_none());
    assert_eq!(
        SpeechSynthesisVoice::from_lookup_reply(Some("bad language".to_owned()), Some(payload(None))),
        Err(AvSpeechError::Unknown("bad language".to_owned()))
    );

    let voices = SpeechSynthesisVoice::from_catalog_reply(None, Some(vec![payload(None), payload(Some(2))])).unwrap();
    assert_eq!(voices.len(), 2);
    assert!(voices[1].traits().contains(SpeechSynthesisVoiceTraits::personal_voice()));
    assert!(SpeechSynthesisVoice::from_catalog_reply(None, None).unwrap().is_empty());
    assert!(SpeechSynthesisVoice::from_catalog_reply(Some("x".to_owned()), None).is_err());
}

#[test]
fn trait_sets_are_their_bits() {
    for bits in [0u64, 1, 2, 3, 0xff00] {
        let t = SpeechSynthesisVoiceTraits::from_bits(bits);
        assert_eq!(SpeechSynthesisVoiceTraits::from_bits(t.bits()), t);
        assert_eq!(t.is_empty(), t == SpeechSynthesisVoiceTraits::none());
    }
    assert_eq!(SpeechSynthesisVoiceTraits::none().bits(), 0);
    let voice = SpeechSynthesisVoice::from_payload(payload(Some(3)));
    assert_eq!(voice.voice_traits(), voice.traits());
    assert_eq!(voice.traits(), SpeechSynthesisVoiceTraits::from_bits(3));
}
