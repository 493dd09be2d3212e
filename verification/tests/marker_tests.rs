use avspeechsynthesizer::marker::{MarkerConstructor, MarkerConstructorPayload, MarkerPayload};
use avspeechsynthesizer::{AvSpeechError, SpeechSynthesisMarker, SpeechSynthesisMarkerMark, TextRange};

/// The reply of a bridge that builds exactly the marker it was asked for.
fn echoed(request: &MarkerConstructorPayload) -> SpeechSynthesisMarker {
    SpeechSynthesisMarker::from_payload(MarkerPayload {
        mark: request.mark,
        byte_sample_offset: request.byte_sample_offset,
        text_range: request.text_range,
        bookmark_name: request.bookmark_name.clone(),
        phoneme: request.phoneme.clone(),
    })
}

#[test]
fn marker_constructors_round_trip_through_swift() -> Result<(), AvSpeechError> {
    let word = echoed(&MarkerConstructorPayload::word(TextRange::new(0, 4), 128));
    let sentence = echoed(&MarkerConstructorPayload::sentence(TextRange::new(0, 9), 256));
    let paragraph = echoed(&MarkerConstructorPayload::paragraph(TextRange::new(0, 18), 512));
    let phoneme = echoed(&MarkerConstructorPayload::phoneme("fɪʃ", 768));
    let bookmark = echoed(&MarkerConstructorPayload::bookmark("chapter-1", 1024));

    assert_eq!(word.mark(), SpeechSynthesisMarkerMark::Word);
    assert_eq!(sentence.mark(), SpeechSynthesisMarkerMark::Sentence);
    assert_eq!(paragraph.mark(), SpeechSynthesisMarkerMark::Paragraph);
    assert_eq!(phoneme.mark(), SpeechSynthesisMarkerMark::Phoneme);
    assert_eq!(bookmark.mark(), SpeechSynthesisMarkerMark::Bookmark);
    Ok(())
}

#[test]
fn marker_requests_keep_their_fields() {
    let word = MarkerConstructorPayload::word(TextRange::new(3, 4), 128);
    assert_eq!(word.constructor, MarkerConstructor::Word);
    assert_eq!(word.mark, 1);
    assert_eq!(word.text_range, TextRange::new(3, 4));
    assert_eq!(word.byte_sample_offset, 128);
    assert_eq!(word.bookmark_name, None);
    assert_eq!(word.phoneme, None);

    let paragraph = MarkerConstructorPayload::paragraph(TextRange::new(0, 18), 512);
    assert_eq!(paragraph.constructor, MarkerConstructor::Paragraph);
    assert_eq!(paragraph.mark, 3);

    let phoneme = MarkerConstructorPayload::phoneme("fɪʃ", 768);
    assert_eq!(phoneme.constructor, MarkerConstructor::Phoneme);
    assert_eq!(phoneme.mark, 0);
    assert_eq!(phoneme.phoneme.as_deref(), Some("fɪʃ"));
    assert_eq!(phoneme.bookmark_name, None);
    assert_eq!(phoneme.text_range, TextRange::new(0, 0));
    assert_eq!(phoneme.byte_sample_offset, 768);

    let bookmark = echoed(&MarkerConstructorPayload::bookmark("chapter-1", 1024));
    assert_eq!(bookmark.bookmark_name(), Some("chapter-1"));
    assert_eq!(bookmark.phoneme_text(), None);
    assert_eq!(bookmark.text_range(), TextRange::new(0, 0));
}

#[test]
fn generic_marker_reply_normalizes_its_kind() {
    let marker = echoed(&MarkerConstructorPayload::generic(SpeechSynthesisMarkerMark::Unknown(1), TextRange::new(2, 5), 64));
    assert_eq!(marker.mark(), SpeechSynthesisMarkerMark::Word);
    assert_eq!(marker.text_range(), TextRange::new(2, 5));
    let odd = echoed(&MarkerConstructorPayload::generic(SpeechSynthesisMarkerMark::Unknown(42), TextRange::new(0, 1), 8));
    assert_eq!(odd.mark(), SpeechSynthesisMarkerMark::Unknown(42));
    let sentence = echoed(&MarkerConstructorPayload::generic(SpeechSynthesisMarkerMark::Sentence, TextRange::new(0, 9), 1));
    assert_eq!(sentence.mark, SpeechSynthesisMarkerMark::Sentence);
}

#[test]
fn marker_raw_values_round_trip() {
    for raw in [-5i64, 0, 1, 2, 3, 4, 5, 99] {
        assert_eq!(SpeechSynthesisMarkerMark::from_raw(raw).as_raw(), raw);
    }
    assert_eq!(SpeechSynthesisMarkerMark::from_raw(0), SpeechSynthesisMarkerMark::Phoneme);
    assert_eq!(SpeechSynthesisMarkerMark::from_raw(4), SpeechSynthesisMarkerMark::Bookmark);
    assert_eq!(SpeechSynthesisMarkerMark::from_raw(7), SpeechSynthesisMarkerMark::Unknown(7));
    assert_eq!(SpeechSynthesisMarkerMark::Paragraph.as_raw(), 3);
}

#[test]
fn text_range_end_checks_overflow() {
    assert_eq!(TextRange::new(5, 4).end(), Some(9));
    assert_eq!(TextRange::new(0, 0).end(), Some(0));
    assert_eq!(TextRange::new(usize::MAX, 0).end(), Some(usize::MAX));
    assert_eq!(TextRange::new(usize::MAX, 1).end(), None);
    let range = TextRange::new(7, 2);
    assert_eq!(range.location, 7);
    assert_eq!(range.length, 2);
}

#[test]
fn marker_requests_describe_the_constructor() {
    let request = MarkerConstructorPayload::sentence(TextRange::new(1, 2), 9);
    assert_eq!(request.constructor, MarkerConstructor::Sentence);
    assert_eq!(request.mark, 2);
    let request = MarkerConstructorPayload::bookmark("b", 3);
    assert_eq!(request.mark, 4);
    assert_eq!(request.bookmark_name.as_deref(), Some("b"));
    let request = MarkerConstructorPayload::generic(SpeechSynthesisMarkerMark::Unknown(11), TextRange::new(0, 1), 0);
    assert_eq!(request.constructor, MarkerConstructor::Generic);
    assert_eq!(request.mark, 11);
}

#[test]
fn marker_payload_becomes_a_marker() {
    let marker = SpeechSynthesisMarker::from_payload(MarkerPayload {
        mark: 2,
        byte_sample_offset: 77,
        text_range: TextRange::new(4, 6),
        bookmark_name: Some("here".to_owned()),
        phoneme: None,
    });
    assert_eq!(marker.mark(), SpeechSynthesisMarkerMark::Sentence);
    assert_eq!(marker.byte_sample_offset(), 77);
    assert_eq!(marker.text_range(), TextRange::new(4, 6));
    assert_eq!(marker.bookmark_name(), Some("here"));
}
