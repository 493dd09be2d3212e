//! Synthesizer values: pause/stop boundaries, files written offline, the
//! delegate events and the order in which a buffer write hands its results
//! to the callbacks.
use vstd::prelude::*;

use crate::marker::{mark_of_raw, marker_of_payload, MarkerPayload, SpeechSynthesisMarker, TextRange};
use crate::text::str_equals;

verus! {

/// Where speech pauses or stops.
#[derive(Debug, Clone, Copy, PartialEq, Eq, Structural, Hash)]
pub enum SpeechBoundary {
    /// At once.
    Immediate,
    /// At the end of the current word.
    Word,
}

impl SpeechBoundary {
    /// Returns the raw boundary value.
    pub fn as_raw(self) -> (r: i32)
        ensures
            r == (match self {
                SpeechBoundary::Immediate => 0i32,
                SpeechBoundary::Word => 1i32,
            }),
    {
        match self {
            SpeechBoundary::Immediate => 0,
            SpeechBoundary::Word => 1,
        }
    }
}

/// The markers that a batch of payloads describes, in order.
pub open spec fn markers_of_payloads(payloads: Seq<MarkerPayload>) -> Seq<SpeechSynthesisMarker> {
    payloads.map_values(|p: MarkerPayload| marker_of_payload(p))
}

/// A batch of reported markers keeps one marker per payload, in order, and
/// each marker keeps everything its payload reported.
pub proof fn lemma_payload_markers_keep_fields(payloads: Seq<MarkerPayload>)
    ensures
        markers_of_payloads(payloads).len() == payloads.len(),
        forall|i: int| 0 <= i < payloads.len() ==> {
            let m = #[trigger] markers_of_payloads(payloads)[i];
            let p = payloads[i];
            m.mark == mark_of_raw(p.mark)
                && m.byte_sample_offset == p.byte_sample_offset
                && m.text_range == p.text_range
                && m.bookmark_name == p.bookmark_name
                && m.phoneme == p.phoneme
        },
{
}

/// Converts a batch of marker payloads into markers, keeping their order.
pub fn markers_from_payloads(payloads: Vec<MarkerPayload>) -> (markers: Vec<SpeechSynthesisMarker>)
    ensures
        markers@ == markers_of_payloads(payloads@),
        markers@.len() == payloads@.len(),
        forall|i: int| 0 <= i < payloads@.len() ==> {
            let m = #[trigger] markers@[i];
            let p = payloads@[i];
            m.mark == mark_of_raw(p.mark)
                && m.byte_sample_offset == p.byte_sample_offset
                && m.text_range == p.text_range
                && m.bookmark_name == p.bookmark_name
                && m.phoneme == p.phoneme
        },
{
    broadcast use vstd::std_specs::vec::axiom_spec_into_iter;
    let ghost ps = payloads@;
    let mut markers: Vec<SpeechSynthesisMarker> = Vec::new();
    for p in it: payloads.into_iter()
        invariant
            it.seq() == ps,
            markers@.len() == it.index(),
            forall|i: int| 0 <= i < it.index() ==> #[trigger] markers@[i] == marker_of_payload(ps[i]),
    {
        markers.push(SpeechSynthesisMarker::from_payload(p));
    }
    assert(markers@ =~= markers_of_payloads(ps));
    proof {
        lemma_payload_markers_keep_fields(ps);
    }
    markers
}

/// An utterance written to an audio file, with the markers collected while
/// writing it.
#[derive(Debug, Clone, PartialEq, Eq)]
pub struct WrittenAudioFile {
    path: String,
    markers: Vec<SpeechSynthesisMarker>,
}

/// What the bridge reports after writing a file.
#[derive(Debug, Clone)]
pub struct WriteResultPayload {
    /// The path of the written file.
    pub output_path: String,
    /// The markers collected while writing.
    pub markers: Vec<MarkerPayload>,
}

impl WrittenAudioFile {
    /// The path of the file.
    pub closed spec fn spec_path(&self) -> Seq<char> {
        self.path@
    }

    /// The markers collected while writing.
    pub closed spec fn spec_markers(&self) -> Seq<SpeechSynthesisMarker> {
        self.markers@
    }

    /// The written file that the bridge's report describes.
    pub fn from_payload(payload: WriteResultPayload) -> (w: Self)
        ensures
            w.spec_path() == payload.output_path@,
            w.spec_markers() == markers_of_payloads(payload.markers@),
            w.spec_markers().len() == payload.markers@.len(),
            forall|i: int| 0 <= i < payload.markers@.len() ==> {
                let m = #[trigger] w.spec_markers()[i];
                let p = payload.markers@[i];
                m.mark == mark_of_raw(p.mark)
                && m.byte_sample_offset == p.byte_sample_offset
                && m.text_range == p.text_range
                && m.bookmark_name == p.bookmark_name
                && m.phoneme == p.phoneme
            },
    {
        WrittenAudioFile { path: payload.output_path, markers: markers_from_payloads(payload.markers) }
    }

    /// Returns the path of the written file.
    pub fn path(&self) -> (r: &str)
        ensures
            r@ == self.spec_path(),
    {
        self.path.as_str()
    }

    /// Returns the markers collected while writing.
    pub fn markers(&self) -> (r: &[SpeechSynthesisMarker])
        ensures
            r@ == self.spec_markers(),
    {
        self.markers.as_slice()
    }
}

/// A delegate event of the synthesizer, about an utterance of type `U`.
#[derive(Debug, Clone, PartialEq)]
pub enum SpeechEvent<U> {
    /// Speaking of the utterance started.
    DidStart(U),
    /// Speaking of the utterance finished.
    DidFinish(U),
    /// Speaking of the utterance paused.
    DidPause(U),
    /// Speaking of the utterance resumed.
    DidContinue(U),
    /// Speaking of the utterance was canceled.
    DidCancel(U),
    /// A range of characters is about to be spoken.
    WillSpeakRangeOfSpeechString {
        /// The characters about to be spoken.
        character_range: TextRange,
        /// The utterance that holds them.
        utterance: U,
    },
    /// A marker is about to be spoken.
    WillSpeakMarker {
        /// The marker about to be spoken.
        marker: SpeechSynthesisMarker,
        /// The utterance that holds it.
        utterance: U,
    },
}

/// The delegate event that the bridge's event name and fields describe:
/// the five lifecycle names give their event, a range event needs a range,
/// a marker event needs a marker, and any other name gives no event.
pub open spec fn delegate_event_of<U>(
    name: Seq<char>,
    utterance: U,
    character_range: Option<TextRange>,
    marker: Option<MarkerPayload>,
) -> Option<SpeechEvent<U>> {
    if name == "didStart"@ {
        Some(SpeechEvent::DidStart(utterance))
    } else if name == "didFinish"@ {
        Some(SpeechEvent::DidFinish(utterance))
    } else if name == "didPause"@ {
        Some(SpeechEvent::DidPause(utterance))
    } else if name == "didContinue"@ {
        Some(SpeechEvent::DidContinue(utterance))
    } else if name == "didCancel"@ {
        Some(SpeechEvent::DidCancel(utterance))
    } else if name == "willSpeakRangeOfSpeechString"@ {
        match character_range {
            Some(r) => Some(SpeechEvent::WillSpeakRangeOfSpeechString { character_range: r, utterance }),
            None => None,
        }
    } else if name == "willSpeakMarker"@ {
        match marker {
            Some(m) => Some(SpeechEvent::WillSpeakMarker { marker: marker_of_payload(m), utterance }),
            None => None,
        }
    } else {
        None
    }
}

/// A marker event reported by name carries the reported utterance and a
/// marker that keeps everything its payload reported; without a payload
/// there is no event.
pub proof fn lemma_delegate_marker_event<U>(utterance: U, character_range: Option<TextRange>, marker: Option<MarkerPayload>)
    ensures
        match marker {
            Some(p) => delegate_event_of("willSpeakMarker"@, utterance, character_range, marker) matches Some(
                SpeechEvent::WillSpeakMarker { marker: m, utterance: u },
            ) && u == utterance && m.mark == mark_of_raw(p.mark)
                && m.byte_sample_offset == p.byte_sample_offset
                && m.text_range == p.text_range
                && m.bookmark_name == p.bookmark_name
                && m.phoneme == p.phoneme,
            None => delegate_event_of("willSpeakMarker"@, utterance, character_range, marker) is None,
        },
{
    reveal_strlit("willSpeakMarker");
    reveal_strlit("didStart");
    reveal_strlit("didFinish");
    reveal_strlit("didPause");
    reveal_strlit("didContinue");
    reveal_strlit("didCancel");
    reveal_strlit("willSpeakRangeOfSpeechString");
    assert("willSpeakMarker"@[0] != "didStart"@[0]);
    assert("willSpeakMarker"@.len() != "willSpeakRangeOfSpeechString"@.len());
}

/// Decodes a delegate event that the bridge reports by name.
pub fn decode_delegate_event<U>(
    name: &str,
    utterance: U,
    character_range: Option<TextRange>,
    marker: Option<MarkerPayload>,
) -> (r: Option<SpeechEvent<U>>)
    ensures
        r == delegate_event_of(name@, utterance, character_range, marker),
        name@ == "willSpeakMarker"@ ==> match marker {
            Some(p) => r matches Some(SpeechEvent::WillSpeakMarker { marker: m, utterance: u }) && u == utterance
                && m.mark == mark_of_raw(p.mark)
                && m.byte_sample_offset == p.byte_sample_offset
                && m.text_range == p.text_range
                && m.bookmark_name == p.bookmark_name
                && m.phoneme == p.phoneme,
            None => r is None,
        },
{
    proof {
        lemma_delegate_marker_event(utterance, character_range, marker);
    }
    if str_equals(name, "didStart") {
        Some(SpeechEvent::DidStart(utterance))
    } else if str_equals(name, "didFinish") {
        Some(SpeechEvent::DidFinish(utterance))
    } else if str_equals(name, "didPause") {
        Some(SpeechEvent::DidPause(utterance))
    } else if str_equals(name, "didContinue") {
        Some(SpeechEvent::DidContinue(utterance))
    } else if str_equals(name, "didCancel") {
        Some(SpeechEvent::DidCancel(utterance))
    } else if str_equals(name, "willSpeakRangeOfSpeechString") {
        match character_range {
            Some(r) => Some(SpeechEvent::WillSpeakRangeOfSpeechString { character_range: r, utterance }),
            None => None,
        }
    } else if str_equals(name, "willSpeakMarker") {
        match marker {
            Some(m) => Some(SpeechEvent::WillSpeakMarker { marker: SpeechSynthesisMarker::from_payload(m), utterance }),
            None => None,
        }
    } else {
        None
    }
}

} // verus!
