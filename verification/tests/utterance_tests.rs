use std::collections::BTreeMap;

use avspeechsynthesizer::utterance::AttributeRunPayload;

use avspeechsynthesizer::{AttributedSpeechString, AvSpeechError, SpeechAttributeRun, SpeechUtteranceKind, TextRange};

#[test]
fn attributed_strings_collect_runs_in_order() {
    let attributed = AttributedSpeechString::new("doom fish")
        .with_attribute_value(TextRange::new(0, 4), "ipa", serde_json::Value::from("ˈduːm"))
        .with_attribute_value(TextRange::new(5, 4), "ipa", serde_json::Value::from("fɪʃ"));
    assert_eq!(attributed.text(), "doom fish");
    assert_eq!(attributed.runs().len(), 2);
    assert_eq!(attributed.runs()[0].range, TextRange::new(0, 4));
    assert_eq!(attributed.runs()[1].attributes.get("ipa"), Some(&serde_json::Value::from("fɪʃ")));

    let mut attributes = BTreeMap::new();
    attributes.insert("rate".to_owned(), serde_json::Value::from(2));
    let more = attributed.with_attributes(TextRange::new(0, 9), attributes.clone());
    assert_eq!(more.runs().len(), 3);
    assert_eq!(more.runs()[2], SpeechAttributeRun::new(TextRange::new(0, 9), attributes));
    assert!(AttributedSpeechString::new("").runs().is_empty());
}

#[test]
fn utterance_kinds_are_distinct() {
    assert_ne!(SpeechUtteranceKind::PlainText, SpeechUtteranceKind::Ssml);
    assert_ne!(SpeechUtteranceKind::AttributedText, SpeechUtteranceKind::Ssml);
}

#[test]
fn attributed_strings_travel_as_json_runs() {
    let attributed = AttributedSpeechString::new("doom fish")
        .with_attribute_value(TextRange::new(0, 4), "ipa", serde_json::Value::from("x"));
    let runs = attributed.payload_runs().unwrap();
    assert_eq!(runs.len(), 1);
    assert_eq!(runs[0].range, TextRange::new(0, 4));
    assert_eq!(runs[0].attributes_json, "{\"ipa\":\"x\"}");

    let back = AttributedSpeechString::from_payload("doom fish".to_owned(), runs).unwrap();
    assert_eq!(back, attributed);

    let bad = vec![
        AttributeRunPayload { range: TextRange::new(0, 1), attributes_json: "{}".to_owned() },
        AttributeRunPayload { range: TextRange::new(1, 1), attributes_json: "[1]".to_owned() },
    ];
    match AttributedSpeechString::from_payload("ab".to_owned(), bad) {
        Err(AvSpeechError::Unknown(message)) => {
            assert!(message.starts_with("failed to decode speech attribute run JSON payload: "), "{message}")
        },
        other => panic!("expected a decode error, got {other:?}"),
    }
}

#[test]
fn attribute_runs_keep_their_parsed_attributes() {
    let runs = vec![
        AttributeRunPayload { range: TextRange::new(0, 2), attributes_json: "{\"rate\":2,\"ipa\":\"ab\"}".to_owned() },
        AttributeRunPayload { range: TextRange::new(2, 1), attributes_json: "{}".to_owned() },
    ];
    let attributed = AttributedSpeechString::from_payload("abc".to_owned(), runs).unwrap();
    let parsed = attributed.runs();
    assert_eq!(parsed.len(), 2);
    let mut expected = BTreeMap::new();
    expected.insert("ipa".to_owned(), serde_json::Value::from("ab"));
    expected.insert("rate".to_owned(), serde_json::Value::from(2));
    assert_eq!(parsed[0].attributes, expected);
    assert!(parsed[1].attributes.is_empty());

    let written = attributed.payload_runs().unwrap();
    assert_eq!(written[0].attributes_json, "{\"ipa\":\"ab\",\"rate\":2}");
    assert_eq!(written[1].attributes_json, "{}");
    let back = AttributedSpeechString::from_payload("abc".to_owned(), written).unwrap();
    assert_eq!(back, attributed);
}
