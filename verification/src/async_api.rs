//! Values of the event stream: the capacity check of a subscription and the
//! decoding of the events that the bridge reports by numeric kind.
use vstd::prelude::*;
use vstd::string::*;

use crate::error::AvSpeechError;
use crate::marker::{mark_of_raw, marker_of_payload, MarkerPayload, SpeechSynthesisMarker, TextRange};

verus! {

/// The text of the error for a stream subscription with no room for events.
pub open spec fn zero_capacity_message() -> Seq<char> {
    "event stream capacity must be greater than zero"@
}

/// Checks the buffer capacity of a new event stream: a capacity of zero is
/// rejected with `InvalidArgument`, any other is accepted.
pub fn check_stream_capacity(capacity: usize) -> (r: Result<(), AvSpeechError>)
    ensures
        r is Ok <==> capacity > 0,
        r matches Err(e) ==> (e matches AvSpeechError::InvalidArgument(m) && m@ == zero_capacity_message()),
{
    if capacity == 0 {
        Err(AvSpeechError::InvalidArgument("event stream capacity must be greater than zero".to_owned()))
    } else {
        Ok(())
    }
}

/// An event of the event stream, about an utterance of type `U`.
#[derive(Debug, Clone)]
pub enum SpeechSynthesisEvent<U> {
    /// Speaking of the utterance started.
    DidStart(U),
    /// Speaking of the utterance finished.
    DidFinish(U),
    /// Speaking paused.
    DidPause(U),
    /// Speaking resumed after a pause.
    DidContinue(U),
    /// Speaking was canceled.
    DidCancel(U),
    /// A range of characters is about to be spoken.
    WillSpeakRange {
        /// The characters about to be spoken.
        character_range: TextRange,
        /// The utterance that holds them.
        utterance: U,
    },
    /// A marker is about to be spoken.
    WillSpeakMarker {
        /// The marker about to be spoken.
        marker: SpeechSynthesisMarker,
        /// The utterance that holds it.
        utterance: U,
    },
}

/// The stream event that a numeric event code and the event's fields
/// describe: codes 0 through 4 are start, finish, pause, continue and cancel;
/// code 5 is a range (empty at the start when none is reported); code 6 is a
/// marker (no event without a marker); any other code gives no event.
pub open spec fn stream_event_of<U>(
    kind: i32,
    utterance: U,
    character_range: Option<TextRange>,
    marker: Option<MarkerPayload>,
) -> Option<SpeechSynthesisEvent<U>> {
    if kind == 0 {
        Some(SpeechSynthesisEvent::DidStart(utterance))
    } else if kind == 1 {
        Some(SpeechSynthesisEvent::DidFinish(utterance))
    } else if kind == 2 {
        Some(SpeechSynthesisEvent::DidPause(utterance))
    } else if kind == 3 {
        Some(SpeechSynthesisEvent::DidContinue(utterance))
    } else if kind == 4 {
        Some(SpeechSynthesisEvent::DidCancel(utterance))
    } else if kind == 5 {
        Some(SpeechSynthesisEvent::WillSpeakRange {
            character_range: match character_range {
                Some(r) => r,
                None => TextRange { location: 0, length: 0 },
            },
            utterance,
        })
    } else if kind == 6 {
        match marker {
            Some(m) => Some(SpeechSynthesisEvent::WillSpeakMarker { marker: marker_of_payload(m), utterance }),
            None => None,
        }
    } else {
        None
    }
}

/// A marker event (code 6) carries the reported utterance and a marker that
/// keeps everything its payload reported; without a payload there is no
/// event.
pub proof fn lemma_stream_marker_event<U>(utterance: U, character_range: Option<TextRange>, marker: Option<MarkerPayload>)
    ensures
        match marker {
            Some(p) => stream_event_of(6, utterance, character_range, marker) matches Some(
                SpeechSynthesisEvent::WillSpeakMarker { marker: m, utterance: u },
            ) && u == utterance && m.mark == mark_of_raw(p.mark)
                && m.byte_sample_offset == p.byte_sample_offset
                && m.text_range == p.text_range
                && m.bookmark_name == p.bookmark_name
                && m.phoneme == p.phoneme,
            None => stream_event_of(6, utterance, character_range, marker) is None,
        },
{
}

/// Decodes an event that the bridge reports to the stream by numeric kind.
pub fn decode_stream_event<U>(
    kind: i32,
    utterance: U,
    character_range: Option<TextRange>,
    marker: Option<MarkerPayload>,
) -> (r: Option<SpeechSynthesisEvent<U>>)
    ensures
        r == stream_event_of(kind, utterance, character_range, marker),
        kind == 6 ==> match marker {
            Some(p) => r matches Some(SpeechSynthesisEvent::WillSpeakMarker { marker: m, utterance: u })
                && u == utterance && m.mark == mark_of_raw(p.mark)
                && m.byte_sample_offset == p.byte_sample_offset
                && m.text_range == p.text_range
                && m.bookmark_name == p.bookmark_name
                && m.phoneme == p.phoneme,
            None => r is None,
        },
{
    proof {
        lemma_stream_marker_event(utterance, character_range, marker);
    }
    match kind {
        0 => Some(SpeechSynthesisEvent::DidStart(utterance)),
        1 => Some(SpeechSynthesisEvent::DidFinish(utterance)),
        2 => Some(SpeechSynthesisEvent::DidPause(utterance)),
        3 => Some(SpeechSynthesisEvent::DidContinue(utterance)),
        4 => Some(SpeechSynthesisEvent::DidCancel(utterance)),
        5 => {
            let range = match character_range {
                Some(r) => r,
                None => TextRange::new(0, 0),
            };
            Some(SpeechSynthesisEvent::WillSpeakRange { character_range: range, utterance })
        },
        6 => match marker {
            Some(m) => Some(SpeechSynthesisEvent::WillSpeakMarker { marker: SpeechSynthesisMarker::from_payload(m), utterance }),
            None => None,
        },
        _ => None,
    }
}

} // verus!
