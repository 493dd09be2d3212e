//! Audio buffers of offline writes: their sample format, the decoding of
//! their audio planes, and the order in which a write hands buffers and
//! marker batches to the callbacks.
use base64::Engine;
use vstd::prelude::*;
use vstd::string::*;

use crate::error::AvSpeechError;
use crate::text::str_equals;

verus! {

/// The common sample format of an audio buffer.
#[derive(Debug, Clone, Copy, PartialEq, Eq, Structural, Hash)]
pub enum SpeechAudioCommonFormat {
    /// A format that is not PCM.
    Other,
    /// 32-bit floating-point PCM.
    PcmFloat32,
    /// 64-bit floating-point PCM.
    PcmFloat64,
    /// 16-bit integer PCM.
    PcmInt16,
    /// 32-bit integer PCM.
    PcmInt32,
    /// A format name that none of the others stands for.
    Unknown,
}

/// The sample format that a bridge format name stands for.
pub open spec fn format_of_name(name: Seq<char>) -> SpeechAudioCommonFormat {
    if name == "pcmFormatFloat32"@ {
        SpeechAudioCommonFormat::PcmFloat32
    } else if name == "pcmFormatFloat64"@ {
        SpeechAudioCommonFormat::PcmFloat64
    } else if name == "pcmFormatInt16"@ {
        SpeechAudioCommonFormat::PcmInt16
    } else if name == "pcmFormatInt32"@ {
        SpeechAudioCommonFormat::PcmInt32
    } else if name == "otherFormat"@ {
        SpeechAudioCommonFormat::Other
    } else {
        SpeechAudioCommonFormat::Unknown
    }
}

impl SpeechAudioCommonFormat {
    /// Converts a bridge format name into a sample format.
    pub fn from_name(value: &str) -> (r: Self)
        ensures
            r == format_of_name(value@),
    {
        if str_equals(value, "pcmFormatFloat32") {
            SpeechAudioCommonFormat::PcmFloat32
        } else if str_equals(value, "pcmFormatFloat64") {
            SpeechAudioCommonFormat::PcmFloat64
        } else if str_equals(value, "pcmFormatInt16") {
            SpeechAudioCommonFormat::PcmInt16
        } else if str_equals(value, "pcmFormatInt32") {
            SpeechAudioCommonFormat::PcmInt32
        } else if str_equals(value, "otherFormat") {
            SpeechAudioCommonFormat::Other
        } else {
            SpeechAudioCommonFormat::Unknown
        }
    }
}

/// What `base64::engine::general_purpose::STANDARD.decode` gives for
/// `text`: the decoded bytes, or the displayed text of its error.
pub uninterp spec fn base64_standard_decode(text: Seq<char>) -> Result<Seq<u8>, Seq<char>>;

/// Decodes `text` with the standard base64 engine (`STANDARD.decode`).
///
/// Trusted: the contract claims that the outcome, the decoded bytes or the
/// text of the error, depends on `text` alone (`base64_standard_decode`
/// names it); which texts decode, and to what, is not stated.
#[verifier::external_body]
fn decode_base64_standard(text: &str) -> (r: Result<Vec<u8>, String>)
    ensures
        base64_standard_decode(text@) == (match r {
            Ok(bytes) => Ok::<Seq<u8>, Seq<char>>(bytes@),
            Err(m) => Err::<Seq<u8>, Seq<char>>(m@),
        }),
{
    match base64::engine::general_purpose::STANDARD.decode(text) {
        Ok(bytes) => Ok(bytes),
        Err(error) => Err(error.to_string()),
    }
}

/// The views of a sequence of strings.
pub open spec fn string_views(s: Seq<String>) -> Seq<Seq<char>> {
    s.map_values(|t: String| t@)
}

/// The planes that a sequence of base64 texts decodes to, or the error of
/// the first text that does not decode.
pub open spec fn planes_decoded(texts: Seq<Seq<char>>) -> Result<Seq<Seq<u8>>, Seq<char>>
    decreases texts.len(),
{
    if texts.len() == 0 {
        Ok(Seq::empty())
    } else {
        match planes_decoded(texts.drop_last()) {
            Err(m) => Err(m),
            Ok(prefix) => match base64_standard_decode(texts.last()) {
                Ok(bytes) => Ok(prefix.push(bytes)),
                Err(m) => Err(m),
            },
        }
    }
}

/// The text of the error for an audio plane that is not base64.
pub open spec fn plane_decode_message(error: Seq<char>) -> Seq<char> {
    "failed to decode audio plane from base64: "@ + error
}

/// The views of a sequence of byte vectors.
pub open spec fn byte_views(planes: Seq<Vec<u8>>) -> Seq<Seq<u8>> {
    planes.map_values(|p: Vec<u8>| p@)
}

/// Once a prefix of the texts fails to decode, every longer prefix fails
/// with the same error.
proof fn lemma_decode_error_persists(texts: Seq<Seq<char>>, k: int, n: int)
    requires
        0 <= k <= n <= texts.len(),
        planes_decoded(texts.take(k)) is Err,
    ensures
        planes_decoded(texts.take(n)) == planes_decoded(texts.take(k)),
    decreases n - k,
{
    if n > k {
        lemma_decode_error_persists(texts, k, n - 1);
        assert(texts.take(n).drop_last() =~= texts.take(n - 1));
    }
}

/// Decodes the base64 audio planes of a buffer, in order; the first plane
/// that is not base64 makes the whole buffer an `Unknown` error.
pub fn decode_audio_planes(planes_base64: Vec<String>) -> (r: Result<Vec<Vec<u8>>, AvSpeechError>)
    ensures
        match planes_decoded(string_views(planes_base64@)) {
            Ok(planes) => r matches Ok(v) && byte_views(v@) == planes,
            Err(m) => r matches Err(e) && (e matches AvSpeechError::Unknown(msg) && msg@ == plane_decode_message(m)),
        },
{
    broadcast use vstd::std_specs::vec::axiom_spec_into_iter;
    let ghost texts = string_views(planes_base64@);
    let ghost all = planes_base64@;
    let mut planes: Vec<Vec<u8>> = Vec::new();
    assert(texts.take(0) =~= Seq::<Seq<char>>::empty());
    assert(byte_views(planes@) =~= Seq::<Seq<u8>>::empty());
    for plane in it: planes_base64.into_iter()
        invariant
            it.seq() == all,
            texts == string_views(all),
            planes_decoded(texts.take(it.index() as int)) == Ok::<Seq<Seq<u8>>, Seq<char>>(byte_views(planes@)),
    {
        let ghost i = it.index() as int;
        proof {
            assert(texts.take(i + 1).drop_last() =~= texts.take(i));
            assert(texts.take(i + 1).last() == plane@);
        }
        let ghost before = planes@;
        match decode_base64_standard(plane.as_str()) {
            Ok(bytes) => {
                planes.push(bytes);
                assert(byte_views(planes@) =~= byte_views(before).push(bytes@));
            },
            Err(error) => {
                proof {
                    lemma_decode_error_persists(texts, i + 1, texts.len() as int);
                    assert(texts.take(texts.len() as int) =~= texts);
                }
                let mut m = "failed to decode audio plane from base64: ".to_owned();
                m.append(error.as_str());
                return Err(AvSpeechError::Unknown(m));
            },
        }
    }
    assert(texts.take(texts.len() as int) =~= texts);
    Ok(planes)
}

/// The kind of an event that a buffer write collects.
#[derive(Debug, Clone, Copy, PartialEq, Eq, Structural)]
pub enum CollectedBufferWriteEventKind {
    /// An audio buffer.
    Buffer,
    /// A batch of markers.
    MarkerBatch,
}

/// An event collected by a buffer write: its kind, the buffer it carries
/// (already decoded, successfully or not) and the marker batch it carries.
#[derive(Debug)]
pub struct CollectedBufferWriteEvent<B, M> {
    /// The event kind.
    pub kind: CollectedBufferWriteEventKind,
    /// The decoded buffer, if the event carries one.
    pub buffer: Option<Result<B, AvSpeechError>>,
    /// The marker batch, if the event carries one.
    pub marker_batch: Option<M>,
}

/// What a buffer write hands to a callback.
#[derive(Debug)]
pub enum WriteDispatch<B, M> {
    /// A buffer for the buffer callback.
    Buffer(B),
    /// A marker batch for the marker callback.
    Markers(M),
}

/// What one collected event hands to the callbacks: a buffer event its
/// buffer when it decoded, a marker event its batch when it has one, and
/// nothing otherwise.
pub open spec fn dispatch_of<B, M>(event: CollectedBufferWriteEvent<B, M>) -> Option<WriteDispatch<B, M>> {
    match event.kind {
        CollectedBufferWriteEventKind::Buffer => match event.buffer {
            Some(Ok(b)) => Some(WriteDispatch::Buffer(b)),
            _ => None,
        },
        CollectedBufferWriteEventKind::MarkerBatch => match event.marker_batch {
            Some(m) => Some(WriteDispatch::Markers(m)),
            None => None,
        },
    }
}

/// The hand-overs of a buffer write, in the order of its events: each event
/// gives what `dispatch_of` says, buffers that did not decode are skipped.
pub fn plan_write_dispatch<B, M>(events: Vec<CollectedBufferWriteEvent<B, M>>) -> (plan: Vec<WriteDispatch<B, M>>)
    ensures
        plan@ == events@.filter_map(|e: CollectedBufferWriteEvent<B, M>| dispatch_of(e)),
{
    broadcast use vstd::std_specs::vec::axiom_spec_into_iter;
    let ghost all = events@;
    let ghost f = |e: CollectedBufferWriteEvent<B, M>| dispatch_of(e);
    let mut plan: Vec<WriteDispatch<B, M>> = Vec::new();
    assert(all.take(0) =~= Seq::<CollectedBufferWriteEvent<B, M>>::empty());
    for event in it: events.into_iter()
        invariant
            it.seq() == all,
            f == (|e: CollectedBufferWriteEvent<B, M>| dispatch_of(e)),
            plan@ == all.take(it.index() as int).filter_map(f),
    {
        let ghost i = it.index() as int;
        proof {
            assert(all.take(i + 1).drop_last() =~= all.take(i));
            assert(all.take(i + 1).last() == event);
        }
        let ghost before = plan@;
        let ghost step = f(event);
        match event.kind {
            CollectedBufferWriteEventKind::Buffer => {
                if let Some(Ok(b)) = event.buffer {
                    plan.push(WriteDispatch::Buffer(b));
                }
            },
            CollectedBufferWriteEventKind::MarkerBatch => {
                if let Some(m) = event.marker_batch {
                    plan.push(WriteDispatch::Markers(m));
                }
            },
        }
        proof {
            match step {
                Some(d) => assert(plan@ =~= before + seq![d]),
                None => assert(plan@ =~= before),
            }
        }
    }
    assert(all.take(all.len() as int) =~= all);
    plan
}

} // verus!
