//! Personal Voice: authorization status values, the timeout of an
//! authorization request, and the selection of personal voices.
use vstd::prelude::*;

use crate::error::{is_status_error, opt_view, result_from_status, AvSpeechError};
use crate::status;
use crate::voice::{SpeechSynthesisVoice, SpeechSynthesisVoiceTraits};

verus! {

/// The state of the Personal Voice authorization.
#[derive(Debug, Clone, Copy, PartialEq, Eq, Structural, Hash)]
pub enum PersonalVoiceAuthorizationStatus {
    /// Authorization has not been requested yet.
    NotDetermined,
    /// Authorization was denied.
    Denied,
    /// Personal Voice is unsupported.
    Unsupported,
    /// Authorization is granted.
    Authorized,
    /// A raw status value that no other variant stands for.
    Unknown(i32),
}

/// The authorization status that a raw value stands for.
pub open spec fn authorization_of_raw(raw: i32) -> PersonalVoiceAuthorizationStatus {
    if raw == 0 {
        PersonalVoiceAuthorizationStatus::NotDetermined
    } else if raw == 1 {
        PersonalVoiceAuthorizationStatus::Denied
    } else if raw == 2 {
        PersonalVoiceAuthorizationStatus::Unsupported
    } else if raw == 3 {
        PersonalVoiceAuthorizationStatus::Authorized
    } else {
        PersonalVoiceAuthorizationStatus::Unknown(raw)
    }
}

impl PersonalVoiceAuthorizationStatus {
    /// Converts a raw status value into an authorization status.
    pub fn from_raw(raw: i32) -> (r: Self)
        ensures
            r == authorization_of_raw(raw),
    {
        match raw {
            0 => PersonalVoiceAuthorizationStatus::NotDetermined,
            1 => PersonalVoiceAuthorizationStatus::Denied,
            2 => PersonalVoiceAuthorizationStatus::Unsupported,
            3 => PersonalVoiceAuthorizationStatus::Authorized,
            other => PersonalVoiceAuthorizationStatus::Unknown(other),
        }
    }

    /// Whether authorization is granted.
    pub fn is_authorized(self) -> (r: bool)
        ensures
            r == (self == PersonalVoiceAuthorizationStatus::Authorized),
    {
        match self {
            PersonalVoiceAuthorizationStatus::Authorized => true,
            _ => false,
        }
    }

    /// The outcome of a bridge query of the authorization status: the error
    /// for a failed call, otherwise the status that the raw value stands for.
    pub fn from_reply(call_status: i32, raw_status: i32, error: Option<String>) -> (r: Result<Self, AvSpeechError>)
        ensures
            call_status == status::OK ==> r == Ok::<Self, AvSpeechError>(authorization_of_raw(raw_status)),
            call_status != status::OK ==> (r matches Err(e) && is_status_error(e, call_status, opt_view(error))),
    {
        match result_from_status(call_status, error) {
            Ok(()) => Ok(Self::from_raw(raw_status)),
            Err(e) => Err(e),
        }
    }
}

/// Exactly the raw value 3 is authorized.
pub proof fn lemma_authorized_raw(raw: i32)
    ensures
        (authorization_of_raw(raw) == PersonalVoiceAuthorizationStatus::Authorized) <==> raw == 3,
{
}

/// The number of whole seconds the bridge waits for an authorization
/// request: the timeout rounded up to a whole second, at most `i32::MAX`.
pub open spec fn authorization_timeout_spec(secs: u64, subsec_nanos: u32) -> int {
    let rounded = secs + if subsec_nanos > 0 { 1int } else { 0int };
    if rounded > i32::MAX {
        i32::MAX as int
    } else {
        rounded
    }
}

/// The whole seconds that an authorization request with a timeout of
/// `secs` seconds and `subsec_nanos` nanoseconds waits for.
pub fn authorization_timeout_seconds(secs: u64, subsec_nanos: u32) -> (r: i32)
    ensures
        r as int == authorization_timeout_spec(secs, subsec_nanos),
{
    let extra: u64 = if subsec_nanos > 0 { 1 } else { 0 };
    let rounded = secs.saturating_add(extra);
    let limit: u64 = 2147483647;
    if rounded > limit {
        i32::MAX
    } else {
        rounded as i32
    }
}

/// Whether a voice carries the personal-voice trait.
pub open spec fn is_personal_voice(v: SpeechSynthesisVoice) -> bool {
    v.spec_traits() & 2u64 == 2u64
}

/// The voices of a catalog that carry the personal-voice trait, in catalog
/// order.
pub open spec fn personal_part(catalog: Seq<SpeechSynthesisVoice>) -> Seq<SpeechSynthesisVoice> {
    catalog.filter(|v: SpeechSynthesisVoice| is_personal_voice(v))
}

/// The personal part of a catalog is decided by the trait bits alone: it is
/// the catalog's voices whose bit 1 (the personal-voice trait) is set, in
/// catalog order, whatever their other fields hold.
pub proof fn lemma_personal_part_by_trait_bits(catalog: Seq<SpeechSynthesisVoice>)
    ensures
        personal_part(catalog) == catalog.filter(|v: SpeechSynthesisVoice| v.spec_traits() & 2u64 == 2u64),
{
    assert((|v: SpeechSynthesisVoice| is_personal_voice(v)) =~= (|v: SpeechSynthesisVoice| v.spec_traits() & 2u64
        == 2u64));
}

/// The personal voices of a voice catalog: those that carry the
/// personal-voice trait, in catalog order.
pub fn available_personal_voices(catalog: Vec<SpeechSynthesisVoice>) -> (voices: Vec<SpeechSynthesisVoice>)
    ensures
        voices@ == personal_part(catalog@),
        voices@ == catalog@.filter(|v: SpeechSynthesisVoice| v.spec_traits() & 2u64 == 2u64),
{
    broadcast use vstd::std_specs::vec::axiom_spec_into_iter;
    let ghost all = catalog@;
    let ghost pred = |v: SpeechSynthesisVoice| is_personal_voice(v);
    let personal = SpeechSynthesisVoiceTraits::personal_voice();
    let mut voices: Vec<SpeechSynthesisVoice> = Vec::new();
    for voice in it: catalog.into_iter()
        invariant
            it.seq() == all,
            personal@ == 2u64,
            pred == (|v: SpeechSynthesisVoice| is_personal_voice(v)),
            voices@ == all.take(it.index() as int).filter(pred),
    {
        let ghost i = it.index() as int;
        proof {
            reveal_with_fuel(Seq::<SpeechSynthesisVoice>::filter, 1);
            assert(all.take(i + 1).drop_last() =~= all.take(i));
            assert(all.take(i + 1).last() == voice);
            assert(all.take(i + 1).filter(pred) == if pred(voice) {
                all.take(i).filter(pred).push(voice)
            } else {
                all.take(i).filter(pred)
            });
        }
        if voice.voice_traits().contains(personal) {
            voices.push(voice);
        }
    }
    proof {
        assert(all.take(all.len() as int) =~= all);
        lemma_personal_part_by_trait_bits(all);
    }
    voices
}

/// What `available_personal_voices` returns is exactly the personal part of
/// the catalog: every voice it returns carries the personal-voice trait and
/// comes from the catalog, every personal voice of the catalog is returned,
/// and no more voices come back than the catalog holds.
pub proof fn lemma_personal_voices_are_personal(catalog: Seq<SpeechSynthesisVoice>)
    ensures
        forall|i: int| 0 <= i < personal_part(catalog).len()
            ==> is_personal_voice(#[trigger] personal_part(catalog)[i])
                && catalog.contains(personal_part(catalog)[i]),
        forall|i: int| 0 <= i < catalog.len() && is_personal_voice(#[trigger] catalog[i])
            ==> personal_part(catalog).contains(catalog[i]),
        personal_part(catalog).len() <= catalog.len(),
{
    let pred = |v: SpeechSynthesisVoice| is_personal_voice(v);
    let kept = catalog.filter(pred);
    assert forall|i: int| 0 <= i < kept.len() implies is_personal_voice(#[trigger] kept[i]) && catalog.contains(kept[i]) by {
        catalog.lemma_filter_pred(pred, i);
        assert(kept.contains(kept[i]));
        catalog.lemma_filter_contains_rev(pred, kept[i]);
    }
    assert forall|i: int| 0 <= i < catalog.len() && is_personal_voice(#[trigger] catalog[i]) implies kept.contains(catalog[i]) by {
        catalog.lemma_filter_contains(pred, i);
    }
    catalog.lemma_filter_len(pred);
}

} // verus!
