use avspeechsynthesizer::marker::MarkerPayload;
use avspeechsynthesizer::{SpeechBoundary, SpeechEvent, SpeechSynthesisMarkerMark, TextRange, WrittenAudioFile};
use avspeechsynthesizer::synthesizer::{decode_delegate_event, markers_from_payloads, WriteResultPayload};

fn marker_payload(mark: i64) -> MarkerPayload {
    MarkerPayload {
        mark,
        byte_sample_offset: 10,
        text_range: TextRange::new(0, 3),
        bookmark_name: None,
        phoneme: None,
    }
}

#[test]
fn boundary_raw_values() {
    assert_eq!(SpeechBoundary::Immediate.as_raw(), 0);
    assert_eq!(SpeechBoundary::Word.as_raw(), 1);
}

#[test]
fn delegate_events_decode_by_name() {
    assert_eq!(decode_delegate_event("didStart", "u", None, None), Some(SpeechEvent::DidStart("u")));
    assert_eq!(decode_delegate_event("didFinish", "u", None, None), Some(SpeechEvent::DidFinish("u")));
    assert_eq!(decode_delegate_event("didPause", "u", None, None), Some(SpeechEvent::DidPause("u")));
    assert_eq!(decode_delegate_event("didContinue", "u", None, None), Some(SpeechEvent::DidContinue("u")));
    assert_eq!(decode_delegate_event("didCancel", "u", None, None), Some(SpeechEvent::DidCancel("u")));
    assert_eq!(
        decode_delegate_event("willSpeakRangeOfSpeechString", "u", Some(TextRange::new(4, 2)), None),
        Some(SpeechEvent::WillSpeakRangeOfSpeechString { character_range: TextRange::new(4, 2), utterance: "u" })
    );
    assert_eq!(decode_delegate_event("willSpeakRangeOfSpeechString", "u", None, None), None);
    match decode_delegate_event("willSpeakMarker", "u", None, Some(marker_payload(1))) {
        Some(SpeechEvent::WillSpeakMarker { marker, utterance }) => {
            assert_eq!(marker.mark(), SpeechSynthesisMarkerMark::Word);
            assert_eq!(utterance, "u");
        },
        other => panic!("expected a marker event, got {other:?}"),
    }
    assert_eq!(decode_delegate_event("willSpeakMarker", "u", None, None), None);
    assert_eq!(decode_delegate_event("didstart", "u", None, None), None);
    assert_eq!(decode_delegate_event("", "u", None, None), None);
}

#[test]
fn written_file_reads_the_bridge_report() {
    let file = WrittenAudioFile::from_payload(WriteResultPayload {
        output_path: "/tmp/out.caf".to_owned(),
        markers: vec![marker_payload(1), marker_payload(2)],
    });
    assert_eq!(file.path(), "/tmp/out.caf");
    assert_eq!(file.markers().len(), 2);
    assert_eq!(file.markers()[1].mark(), SpeechSynthesisMarkerMark::Sentence);
}

#[test]
fn marker_batches_keep_their_order() {
    let markers = markers_from_payloads(vec![marker_payload(4), marker_payload(0), marker_payload(8)]);
    let marks: Vec<SpeechSynthesisMarkerMark> = markers.iter().map(|m| m.mark()).collect();
    assert_eq!(
        marks,
        vec![SpeechSynthesisMarkerMark::Bookmark, SpeechSynthesisMarkerMark::Phoneme, SpeechSynthesisMarkerMark::Unknown(8)]
    );
}
