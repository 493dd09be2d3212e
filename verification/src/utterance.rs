//! Utterance values that carry no sample rates or other numbers of
//! floating-point kind: the kind of an utterance and attributed text.
use std::collections::BTreeMap;
use vstd::prelude::*;
use vstd::string::*;

use crate::error::AvSpeechError;
use crate::json::json_decode_message;
use crate::marker::TextRange;

verus! {

/// How an utterance gives its text.
#[derive(Debug, Clone, Copy, PartialEq, Eq, Structural, Hash)]
pub enum SpeechUtteranceKind {
    /// Plain text.
    PlainText,
    /// Attributed text.
    AttributedText,
    /// An SSML document.
    Ssml,
}

/// A run of attributes over a range of an attributed string.
#[derive(Debug, Clone, PartialEq, Eq)]
pub struct SpeechAttributeRun {
    /// The characters that the attributes apply to.
    pub range: TextRange,
    /// The attributes, by name.
    pub attributes: BTreeMap<String, serde_json::Value>,
}

impl SpeechAttributeRun {
    /// Creates an attribute run.
    pub fn new(range: TextRange, attributes: BTreeMap<String, serde_json::Value>) -> (r: Self)
        ensures
            r.range == range,
            r.attributes == attributes,
    {
        SpeechAttributeRun { range, attributes }
    }
}

/// Text with runs of attributes, kept in the order they were added.
#[derive(Debug, Clone, PartialEq, Eq)]
pub struct AttributedSpeechString {
    text: String,
    runs: Vec<SpeechAttributeRun>,
}

impl AttributedSpeechString {
    /// The text.
    pub closed spec fn spec_text(&self) -> Seq<char> {
        self.text@
    }

    /// The attribute runs, in the order they were added.
    pub closed spec fn spec_runs(&self) -> Seq<SpeechAttributeRun> {
        self.runs@
    }

    /// Creates an attributed string with no attribute run.
    pub fn new(text: &str) -> (r: Self)
        ensures
            r.spec_text() == text@,
            r.spec_runs().len() == 0,
    {
        AttributedSpeechString { text: text.to_owned(), runs: Vec::new() }
    }

    /// Creates an attributed string from its text and runs.
    pub fn from_parts(text: String, runs: Vec<SpeechAttributeRun>) -> (r: Self)
        ensures
            r.spec_text() == text@,
            r.spec_runs() == runs@,
    {
        AttributedSpeechString { text, runs }
    }

    /// Returns the text.
    pub fn text(&self) -> (r: &str)
        ensures
            r@ == self.spec_text(),
    {
        self.text.as_str()
    }

    /// Returns the attribute runs.
    pub fn runs(&self) -> (r: &[SpeechAttributeRun])
        ensures
            r@ == self.spec_runs(),
    {
        self.runs.as_slice()
    }

    /// Adds a run that sets the single attribute `key` to `value` over
    /// `range`; the text and the earlier runs stay as they are.
    pub fn with_attribute_value(self, range: TextRange, key: &str, value: serde_json::Value) -> (r: Self)
        ensures
            r.spec_text() == self.spec_text(),
            r.spec_runs().len() == self.spec_runs().len() + 1,
            r.spec_runs().drop_last() == self.spec_runs(),
            r.spec_runs().last().range == range,
            vstd::laws_cmp::obeys_cmp::<String>() ==> exists|k: String|
                k@ == key@ && #[trigger] r.spec_runs().last().attributes@ == map![k => value],
    {
        let mut attributes: BTreeMap<String, serde_json::Value> = BTreeMap::new();
        let k = key.to_owned();
        attributes.insert(k, value);
        assert(vstd::laws_cmp::obeys_cmp::<String>() ==> attributes@ =~= map![k => value]);
        self.with_attributes(range, attributes)
    }

    /// Adds a run of `attributes` over `range`; the text and the earlier
    /// runs stay as they are.
    pub fn with_attributes(self, range: TextRange, attributes: BTreeMap<String, serde_json::Value>) -> (r: Self)
        ensures
            r.spec_text() == self.spec_text(),
            r.spec_runs() == self.spec_runs().push((SpeechAttributeRun { range, attributes })),
    {
        let mut runs = self.runs;
        runs.push(SpeechAttributeRun::new(range, attributes));
        AttributedSpeechString { text: self.text, runs }
    }
}

/// What `serde_json::from_str::<BTreeMap<String, serde_json::Value>>`
/// gives on `text`: the entries of the parsed map, or the displayed text of
/// its error.
pub uninterp spec fn json_attribute_map_parse(text: Seq<char>) -> Result<Map<String, serde_json::Value>, Seq<char>>;

/// Parses `text` as a JSON object of attributes with
/// `serde_json::from_str::<BTreeMap<String, serde_json::Value>>`.
///
/// Trusted: the contract claims that the outcome (the entries of the parsed
/// map, or the displayed text of the error) depends on `text` alone;
/// `json_attribute_map_parse` names it.
#[verifier::external_body]
fn parse_attribute_map(text: &str) -> (r: Result<BTreeMap<String, serde_json::Value>, String>)
    ensures
        match r {
            Ok(m) => json_attribute_map_parse(text@) == Ok::<Map<String, serde_json::Value>, Seq<char>>(m@),
            Err(e) => json_attribute_map_parse(text@) == Err::<Map<String, serde_json::Value>, Seq<char>>(e@),
        },
{
    match serde_json::from_str::<BTreeMap<String, serde_json::Value>>(text) {
        Ok(map) => Ok(map),
        Err(error) => Err(error.to_string()),
    }
}

/// The JSON text that `serde_json::to_string` writes for a map of
/// attributes with the entries `attributes`.
pub uninterp spec fn attribute_map_text(attributes: Map<String, serde_json::Value>) -> Seq<char>;

/// Serializes a map of attributes to JSON text with `serde_json::to_string`.
///
/// Trusted: the contract claims that the call succeeds, and that the text
/// depends on the map's entries alone (`attribute_map_text` names it; a
/// `BTreeMap` is written in key order). `serde_json` reports an error only
/// when its writer fails or a map key does not serialize as a string; its
/// writer here is a `Vec`, which never fails, and every key is a `String`.
#[verifier::external_body]
fn attribute_map_json(attributes: &BTreeMap<String, serde_json::Value>) -> (r: Result<String, String>)
    ensures
        r is Ok,
        r matches Ok(t) ==> t@ == attribute_map_text(attributes@),
{
    match serde_json::to_string(attributes) {
        Ok(text) => Ok(text),
        Err(error) => Err(error.to_string()),
    }
}

/// An attribute run as the bridge exchanges it: the attributes as one
/// JSON object in text.
#[derive(Debug, Clone)]
pub struct AttributeRunPayload {
    /// The characters that the attributes apply to.
    pub range: TextRange,
    /// The attributes as a JSON object.
    pub attributes_json: String,
}

/// The error of the first run whose attributes are not a JSON object, if
/// any.
pub open spec fn first_run_error(runs: Seq<AttributeRunPayload>) -> Option<Seq<char>>
    decreases runs.len(),
{
    if runs.len() == 0 {
        None
    } else {
        match first_run_error(runs.drop_last()) {
            Some(m) => Some(m),
            None => match json_attribute_map_parse(runs.last().attributes_json@) {
                Ok(_) => None,
                Err(m) => Some(m),
            },
        }
    }
}

/// Once a prefix of the runs has an error, every longer prefix has the same
/// first error.
proof fn lemma_run_error_persists(runs: Seq<AttributeRunPayload>, k: int, n: int)
    requires
        0 <= k <= n <= runs.len(),
        first_run_error(runs.take(k)) is Some,
    ensures
        first_run_error(runs.take(n)) == first_run_error(runs.take(k)),
    decreases n - k,
{
    if n > k {
        lemma_run_error_persists(runs, k, n - 1);
        assert(runs.take(n).drop_last() =~= runs.take(n - 1));
    }
}

/// Whether `runs` are the runs that `payloads` describe: one per payload, in
/// order, each over the payload's range with the entries that its JSON
/// object parses to.
pub open spec fn reads_runs(payloads: Seq<AttributeRunPayload>, runs: Seq<SpeechAttributeRun>) -> bool {
    &&& runs.len() == payloads.len()
    &&& forall|i: int| 0 <= i < payloads.len() ==> {
        &&& (#[trigger] runs[i]).range == payloads[i].range
        &&& json_attribute_map_parse(payloads[i].attributes_json@)
            == Ok::<Map<String, serde_json::Value>, Seq<char>>(runs[i].attributes@)
    }
}

/// Whether `payloads` are `runs` as they are written for the bridge: one per
/// run, in order, each over the run's range with its entries as JSON text.
pub open spec fn writes_runs(runs: Seq<SpeechAttributeRun>, payloads: Seq<AttributeRunPayload>) -> bool {
    &&& payloads.len() == runs.len()
    &&& forall|i: int| 0 <= i < runs.len() ==> {
        &&& (#[trigger] payloads[i]).range == runs[i].range
        &&& payloads[i].attributes_json@ == attribute_map_text(runs[i].attributes@)
    }
}

/// Payloads whose JSON objects all parse have no first error.
proof fn lemma_no_run_error(runs: Seq<AttributeRunPayload>)
    requires
        forall|i: int| 0 <= i < runs.len() ==> (#[trigger] json_attribute_map_parse(runs[i].attributes_json@)) is Ok,
    ensures
        first_run_error(runs) is None,
    decreases runs.len(),
{
    if runs.len() > 0 {
        let init = runs.drop_last();
        assert forall|i: int| 0 <= i < init.len() implies (#[trigger] json_attribute_map_parse(init[i].attributes_json@)) is Ok by {
            assert(init[i] == runs[i]);
        }
        lemma_no_run_error(init);
        assert(json_attribute_map_parse(runs[runs.len() - 1].attributes_json@) is Ok);
    }
}

/// Runs written for the bridge and read back keep their ranges and their
/// entries, and reading them back succeeds, wherever `serde_json` reads
/// each written object back as the entries it wrote.
pub proof fn lemma_runs_survive_json(
    runs: Seq<SpeechAttributeRun>,
    payloads: Seq<AttributeRunPayload>,
    back: Seq<SpeechAttributeRun>,
)
    requires
        writes_runs(runs, payloads),
        forall|i: int| 0 <= i < runs.len() ==> json_attribute_map_parse(
            attribute_map_text((#[trigger] runs[i]).attributes@),
        ) == Ok::<Map<String, serde_json::Value>, Seq<char>>(runs[i].attributes@),
    ensures
        first_run_error(payloads) is None,
        reads_runs(payloads, back) ==> back.len() == runs.len() && forall|i: int| 0 <= i < runs.len()
            ==> (#[trigger] back[i]).range == runs[i].range && back[i].attributes@ == runs[i].attributes@,
{
    assert forall|i: int| 0 <= i < payloads.len() implies (#[trigger] json_attribute_map_parse(payloads[i].attributes_json@)) is Ok by {
        assert(payloads[i].attributes_json@ == attribute_map_text(runs[i].attributes@));
    }
    lemma_no_run_error(payloads);
    if reads_runs(payloads, back) {
        assert forall|i: int| 0 <= i < runs.len() implies (#[trigger] back[i]).range == runs[i].range
            && back[i].attributes@ == runs[i].attributes@ by {
            assert(payloads[i].attributes_json@ == attribute_map_text(runs[i].attributes@));
            assert(back[i].range == payloads[i].range);
        }
    }
}

impl AttributedSpeechString {
    /// Rebuilds an attributed string from what the bridge exchanges: the
    /// text and the runs keep their order; the first run whose attributes
    /// are not a JSON object makes the whole string an `Unknown` error.
    pub fn from_payload(text: String, runs: Vec<AttributeRunPayload>) -> (r: Result<Self, AvSpeechError>)
        ensures
            first_run_error(runs@) is None ==> (r matches Ok(a) && a.spec_text() == text@
                && reads_runs(runs@, a.spec_runs())),
            first_run_error(runs@) matches Some(m) ==> (r matches Err(e) && (e matches AvSpeechError::Unknown(msg)
                && msg@ == json_decode_message("speech attribute run"@, m))),
    {
        broadcast use vstd::std_specs::vec::axiom_spec_into_iter;
        let ghost all = runs@;
        let mut parsed: Vec<SpeechAttributeRun> = Vec::new();
        assert(all.take(0) =~= Seq::<AttributeRunPayload>::empty());
        for run in it: runs.into_iter()
            invariant
                it.seq() == all,
                first_run_error(all.take(it.index() as int)) is None,
                parsed@.len() == it.index(),
                forall|i: int| 0 <= i < it.index() ==> (#[trigger] parsed@[i]).range == all[i].range
                    && json_attribute_map_parse(all[i].attributes_json@)
                    == Ok::<Map<String, serde_json::Value>, Seq<char>>(parsed@[i].attributes@),
        {
            let ghost i = it.index() as int;
            proof {
                assert(all.take(i + 1).drop_last() =~= all.take(i));
                assert(all.take(i + 1).last() == run);
            }
            match parse_attribute_map(run.attributes_json.as_str()) {
                Ok(attributes) => {
                    parsed.push(SpeechAttributeRun::new(run.range, attributes));
                },
                Err(error) => {
                    proof {
                        lemma_run_error_persists(all, i + 1, all.len() as int);
                        assert(all.take(all.len() as int) =~= all);
                    }
                    let mut m = "failed to decode ".to_owned();
                    m.append("speech attribute run");
                    m.append(" JSON payload: ");
                    m.append(error.as_str());
                    return Err(AvSpeechError::Unknown(m));
                },
            }
        }
        assert(all.take(all.len() as int) =~= all);
        Ok(AttributedSpeechString { text, runs: parsed })
    }

    /// The runs as the bridge exchanges them, in order, each with its
    /// attributes serialized as a JSON object. Serializing a map of string
    /// keys cannot fail, so the result is always `Ok`.
    pub fn payload_runs(&self) -> (r: Result<Vec<AttributeRunPayload>, AvSpeechError>)
        ensures
            r matches Ok(runs) && writes_runs(self.spec_runs(), runs@),
    {
        let mut out: Vec<AttributeRunPayload> = Vec::new();
        let n = self.runs.len();
        let mut i: usize = 0;
        while i < n
            invariant
                n == self.runs@.len(),
                i <= n,
                out@.len() == i,
                forall|j: int| 0 <= j < i ==> (#[trigger] out@[j]).range == self.runs@[j].range
                    && out@[j].attributes_json@ == attribute_map_text(self.runs@[j].attributes@),
            decreases n - i,
        {
            let run = &self.runs[i];
            match attribute_map_json(&run.attributes) {
                Ok(text) => {
                    out.push(AttributeRunPayload { range: run.range, attributes_json: text });
                },
                Err(error) => {
                    let mut m = "failed to encode speech attribute run JSON payload: ".to_owned();
                    m.append(error.as_str());
                    return Err(AvSpeechError::Unknown(m));
                },
            }
            i = i + 1;
        }
        Ok(out)
    }
}

} // verus!
