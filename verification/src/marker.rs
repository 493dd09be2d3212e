//! Speech markers: the text range and byte offset of a word, sentence,
//! paragraph, phoneme or bookmark in synthesized audio.
use vstd::prelude::*;

verus! {

/// A range of characters in the spoken text.
#[derive(Debug, Clone, Copy, PartialEq, Eq, Structural, Hash, Default)]
pub struct TextRange {
    /// The first character of the range.
    pub location: usize,
    /// The number of characters in the range.
    pub length: usize,
}

impl TextRange {
    /// Creates a text range.
    pub fn new(location: usize, length: usize) -> (r: Self)
        ensures
            r.location == location,
            r.length == length,
    {
        TextRange { location, length }
    }

    /// The exclusive end of the range, or `None` when `location + length`
    /// does not fit in a `usize`.
    pub fn end(self) -> (r: Option<usize>)
        ensures
            self.location + self.length <= usize::MAX ==> r == Some((self.location + self.length) as usize),
            self.location + self.length > usize::MAX ==> r is None,
    {
        self.location.checked_add(self.length)
    }
}

/// The kind of a speech marker.
#[derive(Debug, Clone, Copy, PartialEq, Eq, Structural, Hash)]
pub enum SpeechSynthesisMarkerMark {
    /// A phoneme marker.
    Phoneme,
    /// A word marker.
    Word,
    /// A sentence marker.
    Sentence,
    /// A paragraph marker.
    Paragraph,
    /// A bookmark marker.
    Bookmark,
    /// A raw marker value that no other variant stands for.
    Unknown(i64),
}

/// The marker kind that a raw value stands for.
pub open spec fn mark_of_raw(raw: i64) -> SpeechSynthesisMarkerMark {
    if raw == 0 {
        SpeechSynthesisMarkerMark::Phoneme
    } else if raw == 1 {
        SpeechSynthesisMarkerMark::Word
    } else if raw == 2 {
        SpeechSynthesisMarkerMark::Sentence
    } else if raw == 3 {
        SpeechSynthesisMarkerMark::Paragraph
    } else if raw == 4 {
        SpeechSynthesisMarkerMark::Bookmark
    } else {
        SpeechSynthesisMarkerMark::Unknown(raw)
    }
}

/// The raw value of a marker kind.
pub open spec fn raw_of_mark(mark: SpeechSynthesisMarkerMark) -> i64 {
    match mark {
        SpeechSynthesisMarkerMark::Phoneme => 0,
        SpeechSynthesisMarkerMark::Word => 1,
        SpeechSynthesisMarkerMark::Sentence => 2,
        SpeechSynthesisMarkerMark::Paragraph => 3,
        SpeechSynthesisMarkerMark::Bookmark => 4,
        SpeechSynthesisMarkerMark::Unknown(other) => other,
    }
}

impl SpeechSynthesisMarkerMark {
    /// Whether the kind is the one its raw value decodes to: `Unknown` only
    /// ever carries a raw value that no named variant has.
    pub open spec fn is_canonical(self) -> bool {
        match self {
            SpeechSynthesisMarkerMark::Unknown(raw) => !(0 <= raw <= 4),
            _ => true,
        }
    }

    /// Converts a raw marker value into a marker kind.
    pub fn from_raw(raw: i64) -> (r: Self)
        ensures
            r == mark_of_raw(raw),
    {
        match raw {
            0 => SpeechSynthesisMarkerMark::Phoneme,
            1 => SpeechSynthesisMarkerMark::Word,
            2 => SpeechSynthesisMarkerMark::Sentence,
            3 => SpeechSynthesisMarkerMark::Paragraph,
            4 => SpeechSynthesisMarkerMark::Bookmark,
            other => SpeechSynthesisMarkerMark::Unknown(other),
        }
    }

    /// Returns the raw marker value.
    pub fn as_raw(self) -> (r: i64)
        ensures
            r == raw_of_mark(self),
    {
        match self {
            SpeechSynthesisMarkerMark::Phoneme => 0,
            SpeechSynthesisMarkerMark::Word => 1,
            SpeechSynthesisMarkerMark::Sentence => 2,
            SpeechSynthesisMarkerMark::Paragraph => 3,
            SpeechSynthesisMarkerMark::Bookmark => 4,
            SpeechSynthesisMarkerMark::Unknown(other) => other,
        }
    }
}

/// Every raw marker value survives decoding and encoding unchanged.
pub proof fn lemma_mark_raw_round_trip(raw: i64)
    ensures
        raw_of_mark(mark_of_raw(raw)) == raw,
        mark_of_raw(raw).is_canonical(),
{
}

/// Every canonical marker kind survives encoding and decoding unchanged.
pub proof fn lemma_mark_round_trip(mark: SpeechSynthesisMarkerMark)
    requires
        mark.is_canonical(),
    ensures
        mark_of_raw(raw_of_mark(mark)) == mark,
{
}

/// A speech marker.
#[derive(Debug, Clone, PartialEq, Eq, Hash)]
pub struct SpeechSynthesisMarker {
    /// The marker kind.
    pub mark: SpeechSynthesisMarkerMark,
    /// The byte-sample offset of the marker in the audio.
    pub byte_sample_offset: u64,
    /// The text range of the marker.
    pub text_range: TextRange,
    /// The bookmark name, if any.
    pub bookmark_name: Option<String>,
    /// The phoneme text, if any.
    pub phoneme: Option<String>,
}

/// The constructor of the platform marker that a request asks for.
#[derive(Debug, Clone, Copy, PartialEq, Eq, Structural)]
pub enum MarkerConstructor {
    /// A marker of any kind over a text range.
    Generic,
    /// A word marker.
    Word,
    /// A sentence marker.
    Sentence,
    /// A paragraph marker.
    Paragraph,
    /// A phoneme marker.
    Phoneme,
    /// A bookmark marker.
    Bookmark,
}

/// A request for the platform framework to build a marker. The framework
/// answers with a `MarkerPayload`, which `SpeechSynthesisMarker::from_payload`
/// decodes; the framework may also refuse the request (on macOS 13 it
/// refuses the word, sentence, paragraph, phoneme and bookmark requests).
#[derive(Debug, Clone)]
pub struct MarkerConstructorPayload {
    /// The constructor to use.
    pub constructor: MarkerConstructor,
    /// The raw marker kind.
    pub mark: i64,
    /// The byte-sample offset.
    pub byte_sample_offset: u64,
    /// The text range.
    pub text_range: TextRange,
    /// The bookmark name, for a bookmark.
    pub bookmark_name: Option<String>,
    /// The phoneme text, for a phoneme.
    pub phoneme: Option<String>,
}

/// A marker as the bridge reports it.
#[derive(Debug, Clone)]
pub struct MarkerPayload {
    /// The raw marker kind.
    pub mark: i64,
    /// The byte-sample offset.
    pub byte_sample_offset: u64,
    /// The text range.
    pub text_range: TextRange,
    /// The bookmark name, if any.
    pub bookmark_name: Option<String>,
    /// The phoneme text, if any.
    pub phoneme: Option<String>,
}

/// The marker that a reported payload describes.
pub open spec fn marker_of_payload(p: MarkerPayload) -> SpeechSynthesisMarker {
    SpeechSynthesisMarker {
        mark: mark_of_raw(p.mark),
        byte_sample_offset: p.byte_sample_offset,
        text_range: p.text_range,
        bookmark_name: p.bookmark_name,
        phoneme: p.phoneme,
    }
}

/// A reported marker keeps everything the bridge reported: its kind is the
/// one its raw value stands for (and gives that raw value back), and its
/// offset, text range, bookmark name and phoneme are the reported ones.
pub proof fn lemma_payload_marker_keeps_fields(p: MarkerPayload)
    ensures
        marker_of_payload(p).mark == mark_of_raw(p.mark),
        raw_of_mark(marker_of_payload(p).mark) == p.mark,
        marker_of_payload(p).byte_sample_offset == p.byte_sample_offset,
        marker_of_payload(p).text_range == p.text_range,
        marker_of_payload(p).bookmark_name == p.bookmark_name,
        marker_of_payload(p).phoneme == p.phoneme,
{
}

impl MarkerConstructorPayload {
    /// The request for a marker of kind `mark` over `text_range`.
    pub fn generic(mark: SpeechSynthesisMarkerMark, text_range: TextRange, byte_sample_offset: u64) -> (q: Self)
        ensures
            q.constructor == MarkerConstructor::Generic,
            q.mark == raw_of_mark(mark),
            q.byte_sample_offset == byte_sample_offset,
            q.text_range == text_range,
            q.bookmark_name is None,
            q.phoneme is None,
    {
        MarkerConstructorPayload {
            constructor: MarkerConstructor::Generic,
            mark: mark.as_raw(),
            byte_sample_offset,
            text_range,
            bookmark_name: None,
            phoneme: None,
        }
    }

    /// The request for a word marker over `text_range`.
    pub fn word(text_range: TextRange, byte_sample_offset: u64) -> (q: Self)
        ensures
            q.constructor == MarkerConstructor::Word,
            q.mark == raw_of_mark(SpeechSynthesisMarkerMark::Word),
            q.byte_sample_offset == byte_sample_offset,
            q.text_range == text_range,
            q.bookmark_name is None,
            q.phoneme is None,
    {
        MarkerConstructorPayload {
            constructor: MarkerConstructor::Word,
            mark: SpeechSynthesisMarkerMark::Word.as_raw(),
            byte_sample_offset,
            text_range,
            bookmark_name: None,
            phoneme: None,
        }
    }

    /// The request for a sentence marker over `text_range`.
    pub fn sentence(text_range: TextRange, byte_sample_offset: u64) -> (q: Self)
        ensures
            q.constructor == MarkerConstructor::Sentence,
            q.mark == raw_of_mark(SpeechSynthesisMarkerMark::Sentence),
            q.byte_sample_offset == byte_sample_offset,
            q.text_range == text_range,
            q.bookmark_name is None,
            q.phoneme is None,
    {
        MarkerConstructorPayload {
            constructor: MarkerConstructor::Sentence,
            mark: SpeechSynthesisMarkerMark::Sentence.as_raw(),
            byte_sample_offset,
            text_range,
            bookmark_name: None,
            phoneme: None,
        }
    }

    /// The request for a paragraph marker over `text_range`.
    pub fn paragraph(text_range: TextRange, byte_sample_offset: u64) -> (q: Self)
        ensures
            q.constructor == MarkerConstructor::Paragraph,
            q.mark == raw_of_mark(SpeechSynthesisMarkerMark::Paragraph),
            q.byte_sample_offset == byte_sample_offset,
            q.text_range == text_range,
            q.bookmark_name is None,
            q.phoneme is None,
    {
        MarkerConstructorPayload {
            constructor: MarkerConstructor::Paragraph,
            mark: SpeechSynthesisMarkerMark::Paragraph.as_raw(),
            byte_sample_offset,
            text_range,
            bookmark_name: None,
            phoneme: None,
        }
    }

    /// The request for a phoneme marker.
    pub fn phoneme(phoneme: &str, byte_sample_offset: u64) -> (q: Self)
        ensures
            q.constructor == MarkerConstructor::Phoneme,
            q.mark == 0,
            q.byte_sample_offset == byte_sample_offset,
            q.text_range == (TextRange { location: 0, length: 0 }),
            q.bookmark_name is None,
            q.phoneme matches Some(p) && p@ == phoneme@,
    {
        MarkerConstructorPayload {
            constructor: MarkerConstructor::Phoneme,
            mark: SpeechSynthesisMarkerMark::Phoneme.as_raw(),
            byte_sample_offset,
            text_range: TextRange::new(0, 0),
            bookmark_name: None,
            phoneme: Some(phoneme.to_owned()),
        }
    }

    /// The request for a bookmark marker.
    pub fn bookmark(bookmark_name: &str, byte_sample_offset: u64) -> (q: Self)
        ensures
            q.constructor == MarkerConstructor::Bookmark,
            q.mark == 4,
            q.byte_sample_offset == byte_sample_offset,
            q.text_range == (TextRange { location: 0, length: 0 }),
            q.bookmark_name matches Some(b) && b@ == bookmark_name@,
            q.phoneme is None,
    {
        MarkerConstructorPayload {
            constructor: MarkerConstructor::Bookmark,
            mark: SpeechSynthesisMarkerMark::Bookmark.as_raw(),
            byte_sample_offset,
            text_range: TextRange::new(0, 0),
            bookmark_name: Some(bookmark_name.to_owned()),
            phoneme: None,
        }
    }
}

impl SpeechSynthesisMarker {
    /// The marker that a payload reported by the bridge describes.
    pub fn from_payload(payload: MarkerPayload) -> (m: Self)
        ensures
            m == marker_of_payload(payload),
            m.mark == mark_of_raw(payload.mark),
            raw_of_mark(m.mark) == payload.mark,
            m.byte_sample_offset == payload.byte_sample_offset,
            m.text_range == payload.text_range,
            m.bookmark_name == payload.bookmark_name,
            m.phoneme == payload.phoneme,
    {
        SpeechSynthesisMarker {
            mark: SpeechSynthesisMarkerMark::from_raw(payload.mark),
            byte_sample_offset: payload.byte_sample_offset,
            text_range: payload.text_range,
            bookmark_name: payload.bookmark_name,
            phoneme: payload.phoneme,
        }
    }

    /// Returns the marker kind.
    pub fn mark(&self) -> (r: SpeechSynthesisMarkerMark)
        ensures
            r == self.mark,
    {
        self.mark
    }

    /// Returns the byte-sample offset.
    pub fn byte_sample_offset(&self) -> (r: u64)
        ensures
            r == self.byte_sample_offset,
    {
        self.byte_sample_offset
    }

    /// Returns the text range.
    pub fn text_range(&self) -> (r: TextRange)
        ensures
            r == self.text_range,
    {
        self.text_range
    }

    /// Returns the bookmark name, if any.
    pub fn bookmark_name(&self) -> (r: Option<&str>)
        ensures
            r is Some <==> self.bookmark_name is Some,
            r matches Some(b) ==> b@ == self.bookmark_name->0@,
    {
        match &self.bookmark_name {
            Some(b) => Some(b.as_str()),
            None => None,
        }
    }

    /// Returns the phoneme text, if any.
    pub fn phoneme_text(&self) -> (r: Option<&str>)
        ensures
            r is Some <==> self.phoneme is Some,
            r matches Some(p) ==> p@ == self.phoneme->0@,
    {
        match &self.phoneme {
            Some(p) => Some(p.as_str()),
            None => None,
        }
    }
}

} // verus!
