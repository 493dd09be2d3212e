//! Voices: quality, gender and trait values, voice metadata, and the
//! handling of the voice catalog replies of the bridge.
use vstd::prelude::*;
use vstd::std_specs::ops::{BitAndSpecImpl, BitOrSpecImpl};

use crate::error::{opt_view, optional_reply, AvSpeechError};
use crate::json::{json_decode_message, json_value_parse, parse_json_text};

verus! {

/// The quality of a voice.
#[derive(Debug, Clone, Copy, PartialEq, Eq, Structural, Hash)]
pub enum SpeechSynthesisVoiceQuality {
    /// The default quality.
    Default,
    /// The enhanced quality.
    Enhanced,
    /// The premium quality.
    Premium,
    /// A raw quality value that no other variant stands for.
    Unknown(i64),
}

/// The voice quality that a raw value stands for.
pub open spec fn quality_of_raw(raw: i64) -> SpeechSynthesisVoiceQuality {
    if raw == 1 {
        SpeechSynthesisVoiceQuality::Default
    } else if raw == 2 {
        SpeechSynthesisVoiceQuality::Enhanced
    } else if raw == 3 {
        SpeechSynthesisVoiceQuality::Premium
    } else {
        SpeechSynthesisVoiceQuality::Unknown(raw)
    }
}

/// The raw value of a voice quality.
pub open spec fn raw_of_quality(q: SpeechSynthesisVoiceQuality) -> i64 {
    match q {
        SpeechSynthesisVoiceQuality::Default => 1,
        SpeechSynthesisVoiceQuality::Enhanced => 2,
        SpeechSynthesisVoiceQuality::Premium => 3,
        SpeechSynthesisVoiceQuality::Unknown(other) => other,
    }
}

impl SpeechSynthesisVoiceQuality {
    /// Whether `Unknown` carries only a raw value that no named variant has.
    pub open spec fn is_canonical(self) -> bool {
        match self {
            SpeechSynthesisVoiceQuality::Unknown(raw) => !(1 <= raw <= 3),
            _ => true,
        }
    }

    /// Converts a raw quality value into a voice quality.
    pub fn from_raw(raw: i64) -> (r: Self)
        ensures
            r == quality_of_raw(raw),
    {
        match raw {
            1 => SpeechSynthesisVoiceQuality::Default,
            2 => SpeechSynthesisVoiceQuality::Enhanced,
            3 => SpeechSynthesisVoiceQuality::Premium,
            other => SpeechSynthesisVoiceQuality::Unknown(other),
        }
    }

    /// Returns the raw quality value.
    pub fn as_raw(self) -> (r: i64)
        ensures
            r == raw_of_quality(self),
    {
        match self {
            SpeechSynthesisVoiceQuality::Default => 1,
            SpeechSynthesisVoiceQuality::Enhanced => 2,
            SpeechSynthesisVoiceQuality::Premium => 3,
            SpeechSynthesisVoiceQuality::Unknown(other) => other,
        }
    }
}

/// The gender of a voice.
#[derive(Debug, Clone, Copy, PartialEq, Eq, Structural, Hash)]
pub enum SpeechSynthesisVoiceGender {
    /// No gender is specified.
    Unspecified,
    /// A male voice.
    Male,
    /// A female voice.
    Female,
    /// A raw gender value that no other variant stands for.
    Unknown(i64),
}

/// The voice gender that a raw value stands for.
pub open spec fn gender_of_raw(raw: i64) -> SpeechSynthesisVoiceGender {
    if raw == 0 {
        SpeechSynthesisVoiceGender::Unspecified
    } else if raw == 1 {
        SpeechSynthesisVoiceGender::Male
    } else if raw == 2 {
        SpeechSynthesisVoiceGender::Female
    } else {
        SpeechSynthesisVoiceGender::Unknown(raw)
    }
}

/// The raw value of a voice gender.
pub open spec fn raw_of_gender(g: SpeechSynthesisVoiceGender) -> i64 {
    match g {
        SpeechSynthesisVoiceGender::Unspecified => 0,
        SpeechSynthesisVoiceGender::Male => 1,
        SpeechSynthesisVoiceGender::Female => 2,
        SpeechSynthesisVoiceGender::Unknown(other) => other,
    }
}

impl SpeechSynthesisVoiceGender {
    /// Whether `Unknown` carries only a raw value that no named variant has.
    pub open spec fn is_canonical(self) -> bool {
        match self {
            SpeechSynthesisVoiceGender::Unknown(raw) => !(0 <= raw <= 2),
            _ => true,
        }
    }

    /// Converts a raw gender value into a voice gender.
    pub fn from_raw(raw: i64) -> (r: Self)
        ensures
            r == gender_of_raw(raw),
    {
        match raw {
            0 => SpeechSynthesisVoiceGender::Unspecified,
            1 => SpeechSynthesisVoiceGender::Male,
            2 => SpeechSynthesisVoiceGender::Female,
            other => SpeechSynthesisVoiceGender::Unknown(other),
        }
    }

    /// Returns the raw gender value.
    pub fn as_raw(self) -> (r: i64)
        ensures
            r == raw_of_gender(self),
    {
        match self {
            SpeechSynthesisVoiceGender::Unspecified => 0,
            SpeechSynthesisVoiceGender::Male => 1,
            SpeechSynthesisVoiceGender::Female => 2,
            SpeechSynthesisVoiceGender::Unknown(other) => other,
        }
    }
}

/// Every raw quality and gender value survives decoding and encoding
/// unchanged, and decodes to a canonical value.
pub proof fn lemma_voice_raw_round_trip(raw: i64)
    ensures
        raw_of_quality(quality_of_raw(raw)) == raw,
        quality_of_raw(raw).is_canonical(),
        raw_of_gender(gender_of_raw(raw)) == raw,
        gender_of_raw(raw).is_canonical(),
{
}

/// Every canonical quality and gender survives encoding and decoding
/// unchanged.
pub proof fn lemma_voice_value_round_trip(q: SpeechSynthesisVoiceQuality, g: SpeechSynthesisVoiceGender)
    requires
        q.is_canonical(),
        g.is_canonical(),
    ensures
        quality_of_raw(raw_of_quality(q)) == q,
        gender_of_raw(raw_of_gender(g)) == g,
{
}

/// A set of voice traits, held as bit flags.
#[derive(Debug, Clone, Copy, PartialEq, Eq, Structural, Hash, Default)]
pub struct SpeechSynthesisVoiceTraits(u64);

impl View for SpeechSynthesisVoiceTraits {
    type V = u64;

    closed spec fn view(&self) -> u64 {
        self.0
    }
}

impl SpeechSynthesisVoiceTraits {
    /// The empty trait set.
    pub fn none() -> (r: Self)
        ensures
            r@ == 0,
            r == Self::from_bits_spec(0),
    {
        SpeechSynthesisVoiceTraits(0)
    }

    /// The set holding only the novelty-voice trait (bit 0).
    pub fn novelty_voice() -> (r: Self)
        ensures
            r@ == 1,
            r == Self::from_bits_spec(1),
    {
        SpeechSynthesisVoiceTraits(1)
    }

    /// The set holding only the personal-voice trait (bit 1).
    pub fn personal_voice() -> (r: Self)
        ensures
            r@ == 2,
            r == Self::from_bits_spec(2),
    {
        SpeechSynthesisVoiceTraits(2)
    }

    /// Creates a trait set from raw bits.
    pub fn from_bits(bits: u64) -> (r: Self)
        ensures
            r@ == bits,
            r == Self::from_bits_spec(bits),
    {
        SpeechSynthesisVoiceTraits(bits)
    }

    /// Returns the raw bits.
    pub fn bits(self) -> (r: u64)
        ensures
            r == self@,
            Self::from_bits_spec(r) == self,
    {
        self.0
    }

    /// Whether every trait of `other` is in this set.
    pub fn contains(self, other: Self) -> (r: bool)
        ensures
            r == (self@ & other@ == other@),
    {
        (self.0 & other.0) == other.0
    }

    /// Whether the set holds no trait.
    pub fn is_empty(self) -> (r: bool)
        ensures
            r == (self@ == 0),
            r == (self == Self::from_bits_spec(0)),
    {
        self.0 == 0
    }
}

impl core::ops::BitOr for SpeechSynthesisVoiceTraits {
    type Output = Self;

    fn bitor(self, rhs: Self) -> (r: Self)
        ensures
            r@ == self@ | rhs@,
    {
        SpeechSynthesisVoiceTraits(self.0 | rhs.0)
    }
}

impl BitOrSpecImpl for SpeechSynthesisVoiceTraits {
    open spec fn obeys_bitor_spec() -> bool {
        true
    }

    open spec fn bitor_req(self, rhs: Self) -> bool {
        true
    }

    open spec fn bitor_spec(self, rhs: Self) -> Self {
        SpeechSynthesisVoiceTraits::from_bits_spec(self@ | rhs@)
    }
}

impl core::ops::BitAnd for SpeechSynthesisVoiceTraits {
    type Output = Self;

    fn bitand(self, rhs: Self) -> (r: Self)
        ensures
            r@ == self@ & rhs@,
    {
        SpeechSynthesisVoiceTraits(self.0 & rhs.0)
    }
}

impl BitAndSpecImpl for SpeechSynthesisVoiceTraits {
    open spec fn obeys_bitand_spec() -> bool {
        true
    }

    open spec fn bitand_req(self, rhs: Self) -> bool {
        true
    }

    open spec fn bitand_spec(self, rhs: Self) -> Self {
        SpeechSynthesisVoiceTraits::from_bits_spec(self@ & rhs@)
    }
}

impl SpeechSynthesisVoiceTraits {
    /// The trait set with the given bits.
    pub closed spec fn from_bits_spec(bits: u64) -> Self {
        SpeechSynthesisVoiceTraits(bits)
    }

    /// The trait set with the given bits has those bits.
    pub proof fn lemma_from_bits_view(bits: u64)
        ensures
            Self::from_bits_spec(bits)@ == bits,
    {
    }

    /// A trait set is its bits: two sets are equal exactly when their bits
    /// are, and the set with a set's bits is that set.
    pub proof fn lemma_traits_are_their_bits(a: Self, b: Self)
        ensures
            (a@ == b@) <==> (a == b),
            Self::from_bits_spec(a@) == a,
    {
    }
}

impl core::ops::BitOrAssign for SpeechSynthesisVoiceTraits {
    fn bitor_assign(&mut self, rhs: Self)
        ensures
            final(self)@ == old(self)@ | rhs@,
    {
        self.0 = self.0 | rhs.0;
    }
}

impl core::ops::BitAndAssign for SpeechSynthesisVoiceTraits {
    fn bitand_assign(&mut self, rhs: Self)
        ensures
            final(self)@ == old(self)@ & rhs@,
    {
        self.0 = self.0 & rhs.0;
    }
}

/// Trait sets as `contains`, `|`, `&` and `is_empty` see them: a union
/// contains both operands, each operand contains an intersection, every set
/// contains itself and the empty set, and a union is empty exactly when both
/// operands are.
pub proof fn lemma_traits_algebra(a: SpeechSynthesisVoiceTraits, b: SpeechSynthesisVoiceTraits)
    ensures
        (a@ | b@) & a@ == a@,
        (a@ | b@) & b@ == b@,
        a@ & (a@ & b@) == a@ & b@,
        b@ & (a@ & b@) == a@ & b@,
        a@ & a@ == a@,
        a@ & 0u64 == 0u64,
        (a@ | b@) == 0u64 <==> (a@ == 0u64 && b@ == 0u64),
{
    let x = a@;
    let y = b@;
    assert((x | y) & x == x) by (bit_vector);
    assert((x | y) & y == y) by (bit_vector);
    assert(x & (x & y) == x & y) by (bit_vector);
    assert(y & (x & y) == x & y) by (bit_vector);
    assert(x & x == x) by (bit_vector);
    assert(x & 0u64 == 0u64) by (bit_vector);
    assert((x | y) == 0u64 <==> (x == 0u64 && y == 0u64)) by (bit_vector);
}

/// A voice, as the bridge describes it.
#[derive(Debug, Clone, PartialEq, Eq, Hash)]
pub struct SpeechSynthesisVoice {
    language: String,
    identifier: String,
    name: String,
    quality: SpeechSynthesisVoiceQuality,
    gender: Option<SpeechSynthesisVoiceGender>,
    audio_file_settings_json: Option<String>,
    voice_traits: SpeechSynthesisVoiceTraits,
}

/// A voice as the bridge reports it: raw quality, gender and trait values.
#[derive(Debug, Clone)]
pub struct VoicePayload {
    /// The language code.
    pub language: String,
    /// The identifier.
    pub identifier: String,
    /// The display name.
    pub name: String,
    /// The raw quality value.
    pub quality: i64,
    /// The raw gender value, if any.
    pub gender: Option<i64>,
    /// The audio file settings as JSON text, if any.
    pub audio_file_settings_json: Option<String>,
    /// The raw trait bits, if reported.
    pub voice_traits: Option<u64>,
}

/// The gender that an optional raw value stands for.
pub open spec fn opt_gender_of_raw(raw: Option<i64>) -> Option<SpeechSynthesisVoiceGender> {
    match raw {
        Some(r) => Some(gender_of_raw(r)),
        None => None,
    }
}

/// The raw value of an optional gender.
pub open spec fn opt_raw_of_gender(g: Option<SpeechSynthesisVoiceGender>) -> Option<i64> {
    match g {
        Some(v) => Some(raw_of_gender(v)),
        None => None,
    }
}

/// The trait bits that a payload reports; none reported means no trait.
pub open spec fn traits_of_payload(bits: Option<u64>) -> u64 {
    match bits {
        Some(b) => b,
        None => 0,
    }
}

impl SpeechSynthesisVoice {
    /// The language code.
    pub closed spec fn spec_language(&self) -> Seq<char> {
        self.language@
    }

    /// The identifier.
    pub closed spec fn spec_identifier(&self) -> Seq<char> {
        self.identifier@
    }

    /// The display name.
    pub closed spec fn spec_name(&self) -> Seq<char> {
        self.name@
    }

    /// The quality.
    pub closed spec fn spec_quality(&self) -> SpeechSynthesisVoiceQuality {
        self.quality
    }

    /// The gender, if known.
    pub closed spec fn spec_gender(&self) -> Option<SpeechSynthesisVoiceGender> {
        self.gender
    }

    /// The audio file settings as JSON text, if any.
    pub closed spec fn spec_audio_file_settings_json(&self) -> Option<Seq<char>> {
        opt_view(self.audio_file_settings_json)
    }

    /// The trait bits.
    pub closed spec fn spec_traits(&self) -> u64 {
        self.voice_traits@
    }

    /// Whether quality and gender are canonical (see their `is_canonical`).
    pub open spec fn is_canonical(&self) -> bool {
        &&& self.spec_quality().is_canonical()
        &&& (self.spec_gender() matches Some(g) ==> g.is_canonical())
    }

    /// The voice that a payload describes.
    pub closed spec fn of_payload(p: VoicePayload) -> Self {
        SpeechSynthesisVoice {
            language: p.language,
            identifier: p.identifier,
            name: p.name,
            quality: quality_of_raw(p.quality),
            gender: opt_gender_of_raw(p.gender),
            audio_file_settings_json: p.audio_file_settings_json,
            voice_traits: SpeechSynthesisVoiceTraits(traits_of_payload(p.voice_traits)),
        }
    }

    /// The payload that describes a voice.
    pub closed spec fn payload_of(self) -> VoicePayload {
        VoicePayload {
            language: self.language,
            identifier: self.identifier,
            name: self.name,
            quality: raw_of_quality(self.quality),
            gender: opt_raw_of_gender(self.gender),
            audio_file_settings_json: self.audio_file_settings_json,
            voice_traits: Some(self.voice_traits.0),
        }
    }

    /// Whether the voice holds the values that the payload reports.
    pub open spec fn describes(&self, p: VoicePayload) -> bool {
        &&& self.spec_language() == p.language@
        &&& self.spec_identifier() == p.identifier@
        &&& self.spec_name() == p.name@
        &&& self.spec_quality() == quality_of_raw(p.quality)
        &&& self.spec_gender() == opt_gender_of_raw(p.gender)
        &&& self.spec_audio_file_settings_json() == opt_view(p.audio_file_settings_json)
        &&& self.spec_traits() == traits_of_payload(p.voice_traits)
    }

    /// The voice that a payload reported by the bridge describes; trait bits
    /// that the payload leaves out count as no trait.
    pub fn from_payload(payload: VoicePayload) -> (v: Self)
        ensures
            v == Self::of_payload(payload),
            v.describes(payload),
    {
        let gender = match payload.gender {
            Some(raw) => Some(SpeechSynthesisVoiceGender::from_raw(raw)),
            None => None,
        };
        let bits = match payload.voice_traits {
            Some(b) => b,
            None => 0,
        };
        SpeechSynthesisVoice {
            language: payload.language,
            identifier: payload.identifier,
            name: payload.name,
            quality: SpeechSynthesisVoiceQuality::from_raw(payload.quality),
            gender,
            audio_file_settings_json: payload.audio_file_settings_json,
            voice_traits: SpeechSynthesisVoiceTraits::from_bits(bits),
        }
    }

    /// The payload that describes this voice, as it is sent to the bridge.
    pub fn to_payload(&self) -> (p: VoicePayload)
        ensures
            p == self.payload_of(),
            p.language@ == self.spec_language(),
            p.identifier@ == self.spec_identifier(),
            p.name@ == self.spec_name(),
            p.quality == raw_of_quality(self.spec_quality()),
            p.gender == opt_raw_of_gender(self.spec_gender()),
            opt_view(p.audio_file_settings_json) == self.spec_audio_file_settings_json(),
            p.voice_traits == Some(self.spec_traits()),
    {
        let gender = match self.gender {
            Some(g) => Some(g.as_raw()),
            None => None,
        };
        let settings = match &self.audio_file_settings_json {
            Some(json) => Some(json.clone()),
            None => None,
        };
        VoicePayload {
            language: self.language.clone(),
            identifier: self.identifier.clone(),
            name: self.name.clone(),
            quality: self.quality.as_raw(),
            gender,
            audio_file_settings_json: settings,
            voice_traits: Some(self.voice_traits.bits()),
        }
    }

    /// Returns the language code.
    pub fn language(&self) -> (r: &str)
        ensures
            r@ == self.spec_language(),
    {
        self.language.as_str()
    }

    /// Returns the identifier.
    pub fn identifier(&self) -> (r: &str)
        ensures
            r@ == self.spec_identifier(),
    {
        self.identifier.as_str()
    }

    /// Returns the display name.
    pub fn name(&self) -> (r: &str)
        ensures
            r@ == self.spec_name(),
    {
        self.name.as_str()
    }

    /// Returns the quality.
    pub fn quality(&self) -> (r: SpeechSynthesisVoiceQuality)
        ensures
            r == self.spec_quality(),
    {
        self.quality
    }

    /// Returns the gender, if known.
    pub fn gender(&self) -> (r: Option<SpeechSynthesisVoiceGender>)
        ensures
            r == self.spec_gender(),
    {
        self.gender
    }

    /// Returns the audio file settings as JSON text, if any.
    pub fn audio_file_settings_json(&self) -> (r: Option<&str>)
        ensures
            r is Some <==> self.spec_audio_file_settings_json() is Some,
            r matches Some(j) ==> j@ == self.spec_audio_file_settings_json()->0,
    {
        match &self.audio_file_settings_json {
            Some(json) => Some(json.as_str()),
            None => None,
        }
    }

    /// Parses the audio file settings into a JSON value: `None` when the
    /// voice has none, an `Unknown` error when their text is not JSON.
    pub fn audio_file_settings(&self) -> (r: Result<Option<serde_json::Value>, AvSpeechError>)
        ensures
            self.spec_audio_file_settings_json() is None ==> r matches Ok(None),
            self.spec_audio_file_settings_json() matches Some(j) ==> match json_value_parse(j) {
                Ok(v) => r == Ok::<Option<serde_json::Value>, AvSpeechError>(Some(v)),
                Err(m) => r matches Err(e) && e matches AvSpeechError::Unknown(msg) && msg@
                    == json_decode_message("speech synthesis voice audio file settings"@, m),
            },
    {
        match &self.audio_file_settings_json {
            None => Ok(None),
            Some(json) => {
                match parse_json_text(json.as_str(), "speech synthesis voice audio file settings") {
                    Ok(value) => Ok(Some(value)),
                    Err(e) => Err(e),
                }
            },
        }
    }

    /// Returns the trait set.
    pub fn traits(&self) -> (r: SpeechSynthesisVoiceTraits)
        ensures
            r@ == self.spec_traits(),
            r == SpeechSynthesisVoiceTraits::from_bits_spec(self.spec_traits()),
    {
        self.voice_traits
    }

    /// Returns the trait set (the name that earlier releases used); it is
    /// always the set that `traits` returns.
    pub fn voice_traits(&self) -> (r: SpeechSynthesisVoiceTraits)
        ensures
            r@ == self.spec_traits(),
            r == SpeechSynthesisVoiceTraits::from_bits_spec(self.spec_traits()),
    {
        self.voice_traits
    }
}

/// A canonical voice survives the trip to a payload and back unchanged, and
/// a payload that reports its trait bits survives the trip to a voice and
/// back unchanged.
pub proof fn lemma_voice_payload_round_trip(v: SpeechSynthesisVoice, p: VoicePayload)
    requires
        v.is_canonical(),
        p.voice_traits is Some,
    ensures
        SpeechSynthesisVoice::of_payload(v.payload_of()) == v,
        SpeechSynthesisVoice::of_payload(p).payload_of() == p,
{
    lemma_voice_value_round_trip(v.quality, SpeechSynthesisVoiceGender::Unspecified);
    if let Some(g) = v.gender {
        lemma_voice_value_round_trip(v.quality, g);
    }
    lemma_voice_raw_round_trip(p.quality);
    if let Some(r) = p.gender {
        lemma_voice_raw_round_trip(r);
    }
}

impl SpeechSynthesisVoice {
    /// The voices that a catalog of payloads describes, in catalog order.
    pub fn from_payloads(payloads: Vec<VoicePayload>) -> (voices: Vec<Self>)
        ensures
            voices@.len() == payloads@.len(),
            forall|i: int| 0 <= i < payloads@.len() ==> #[trigger] voices@[i] == Self::of_payload(payloads@[i]),
    {
        broadcast use vstd::std_specs::vec::axiom_spec_into_iter;
        let ghost ps = payloads@;
        let mut voices: Vec<Self> = Vec::new();
        for p in it: payloads.into_iter()
            invariant
                it.seq() == ps,
                voices@.len() == it.index(),
                forall|i: int| 0 <= i < it.index() ==> #[trigger] voices@[i] == Self::of_payload(ps[i]),
        {
            voices.push(Self::from_payload(p));
        }
        voices
    }

    /// The outcome of a bridge lookup of one voice (by language or by
    /// identifier): the bridge's error message, when there is one, as an
    /// `Unknown` error; otherwise the voice that the payload describes, or
    /// `None` when no voice matched.
    pub fn from_lookup_reply(error: Option<String>, payload: Option<VoicePayload>) -> (r: Result<Option<Self>, AvSpeechError>)
        ensures
            error matches Some(m) ==> r == Err::<Option<Self>, AvSpeechError>(AvSpeechError::Unknown(m)),
            error is None ==> (r matches Ok(o) && match payload {
                Some(p) => o == Some(Self::of_payload(p)),
                None => o is None,
            }),
    {
        match optional_reply(error, payload) {
            Err(e) => Err(e),
            Ok(None) => Ok(None),
            Ok(Some(p)) => Ok(Some(Self::from_payload(p))),
        }
    }

    /// The outcome of a bridge query for the voices of a language: the
    /// bridge's error message, when there is one, as an `Unknown` error;
    /// otherwise the voices that the catalog describes, none when it sent no
    /// catalog.
    pub fn from_catalog_reply(error: Option<String>, payloads: Option<Vec<VoicePayload>>) -> (r: Result<Vec<Self>, AvSpeechError>)
        ensures
            error matches Some(m) ==> r == Err::<Vec<Self>, AvSpeechError>(AvSpeechError::Unknown(m)),
            error is None ==> (r matches Ok(voices) && match payloads {
                Some(ps) => voices@.len() == ps@.len() && forall|i: int| 0 <= i < ps@.len()
                    ==> #[trigger] voices@[i] == Self::of_payload(ps@[i]),
                None => voices@.len() == 0,
            }),
    {
        match optional_reply(error, payloads) {
            Err(e) => Err(e),
            Ok(None) => Ok(Vec::new()),
            Ok(Some(ps)) => Ok(Self::from_payloads(ps)),
        }
    }
}

} // verus!
