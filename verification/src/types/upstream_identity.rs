//! Bounded upstream model evidence, distinct from a client's requested model.

use vstd::prelude::*;

use crate::text;

verus! {

/// Maximum decoded UTF-8 bytes retained for one upstream-reported model identifier.
pub const MAX_UPSTREAM_MODEL_BYTES: usize = 1024;

/// Whether `model` can stand as evidence: it says something and it is not too long.
pub open spec fn is_model_evidence(model: Seq<char>) -> bool {
    &&& text::utf8_len(model) <= MAX_UPSTREAM_MODEL_BYTES
    &&& !text::is_blank(model)
}

/// An exact, nonempty model identifier observed in an upstream response.
///
/// This is evidence of what the provider reported, not proof of backend identity
/// or permission to replay opaque reasoning. No formatting shows it.
#[derive(PartialEq, Eq)]
pub struct UpstreamModelId {
    model: String,
}

impl View for UpstreamModelId {
    type V = Seq<char>;

    closed spec fn view(&self) -> Seq<char> {
        self.model@
    }
}

impl UpstreamModelId {
    #[verifier::type_invariant]
    spec fn well_formed(self) -> bool {
        is_model_evidence(self.model@)
    }

    /// Validate without normalizing, trimming, or resolving an alias.
    ///
    /// # Errors
    /// Rejects empty/whitespace-only identifiers or more than 1024 UTF-8 bytes.
    pub fn new(model: String) -> (r: Result<Self, UpstreamModelError>)
        ensures
            match r {
                Ok(id) => is_model_evidence(model@) && id@ == model@,
                Err(error) => !is_model_evidence(model@) && error == UpstreamModelError::Invalid,
            },
    {
        if text::byte_len(model.as_str()) > MAX_UPSTREAM_MODEL_BYTES || model.as_str().trim().is_empty() {
            return Err(UpstreamModelError::Invalid);
        }
        Ok(UpstreamModelId { model })
    }

    /// The identifier as it was reported.
    pub fn as_str(&self) -> (model: &str)
        ensures
            model@ == self@,
            is_model_evidence(model@),
    {
        proof {
            use_type_invariant(self);
        }
        self.model.as_str()
    }

    /// What diagnostics show in place of the identifier.
    pub fn debug_text(&self) -> (text: &'static str)
        ensures
            text@ == "UpstreamModelId(<redacted>)"@,
    {
        "UpstreamModelId(<redacted>)"
    }
}

impl Clone for UpstreamModelId {
    fn clone(&self) -> (copy: Self)
        ensures
            copy@ == self@,
    {
        proof {
            use_type_invariant(self);
        }
        UpstreamModelId { model: self.model.clone() }
    }
}

/// Safe diagnostics: never retain a rejected model string or upstream payload.
#[derive(Debug, Clone, Copy, PartialEq, Eq, Structural)]
pub enum UpstreamModelError {
    Invalid,
    Changed,
}

impl UpstreamModelError {
    /// The diagnostic text.
    pub fn message(self) -> (text: &'static str)
        ensures
            text@ == match self {
                UpstreamModelError::Invalid =>
                    "upstream response has an invalid 'model'; expected a nonempty string of at most 1024 bytes"@,
                UpstreamModelError::Changed =>
                    "upstream response changes its reported model during an inference round"@,
            },
    {
        match self {
            UpstreamModelError::Invalid => {
                "upstream response has an invalid 'model'; expected a nonempty string of at most 1024 bytes"
            },
            UpstreamModelError::Changed => {
                "upstream response changes its reported model during an inference round"
            },
        }
    }
}

proof fn lemma_blank_means_white_space(model: Seq<char>)
    ensures
        text::is_blank(model) <==> forall|i: int| 0 <= i < model.len() ==> text::is_white_space(#[trigger] model[i]),
{
    text::law_trimmed_text(model);
    let (from, to) = choose|from: int, to: int|
        {
            &&& 0 <= from <= to <= model.len()
            &&& text::trimmed(model) == #[trigger] model.subrange(from, to)
            &&& forall|i: int| 0 <= i < from ==> text::is_white_space(#[trigger] model[i])
            &&& forall|i: int| to <= i < model.len() ==> text::is_white_space(#[trigger] model[i])
        };
    if from < to {
        assert(text::trimmed(model)[0] == model[from]);
    }
}

/// An identifier stands as evidence exactly where it has a character other than white
/// space and no more than a kibibyte of text, and is then kept as it was reported.
pub proof fn law_evidence_says_something_and_is_bounded(
    model: String,
    r: Result<UpstreamModelId, UpstreamModelError>,
    id: UpstreamModelId,
    shown: &str,
)
    requires
        call_ensures(UpstreamModelId::new, (model,), r),
        r == Ok::<UpstreamModelId, UpstreamModelError>(id),
        call_ensures(UpstreamModelId::as_str, (&id,), shown),
    ensures
        shown@ == model@,
        vstd::utf8::encode_utf8(model@).len() <= 1024,
        exists|i: int| 0 <= i < model@.len() && !text::is_white_space(#[trigger] model@[i]),
{
    lemma_blank_means_white_space(model@);
}

/// An identifier is refused only where it is blank or too long, and always as invalid.
pub proof fn law_refused_evidence_is_blank_or_too_long(
    model: String,
    r: Result<UpstreamModelId, UpstreamModelError>,
    failure: UpstreamModelError,
)
    requires
        call_ensures(UpstreamModelId::new, (model,), r),
        r == Err::<UpstreamModelId, UpstreamModelError>(failure),
    ensures
        failure is Invalid,
        vstd::utf8::encode_utf8(model@).len() > 1024 || forall|i: int|
            0 <= i < model@.len() ==> text::is_white_space(#[trigger] model@[i]),
{
    lemma_blank_means_white_space(model@);
}

/// A copy of an identifier is the same identifier.
pub proof fn law_copied_evidence_is_the_same(id: UpstreamModelId, copy: UpstreamModelId)
    requires
        call_ensures(UpstreamModelId::clone, (&id,), copy),
    ensures
        copy@ == id@,
{
}

/// Neither diagnostic quotes what was reported.
pub proof fn law_evidence_diagnostics_are_fixed(
    failure: UpstreamModelError,
    text: &'static str,
    id: UpstreamModelId,
    shown: &'static str,
)
    requires
        call_ensures(UpstreamModelError::message, (failure,), text),
        call_ensures(UpstreamModelId::debug_text, (&id,), shown),
    ensures
        failure is Invalid ==> text@
            == "upstream response has an invalid 'model'; expected a nonempty string of at most 1024 bytes"@,
        failure is Changed ==> text@ == "upstream response changes its reported model during an inference round"@,
        shown@ == "UpstreamModelId(<redacted>)"@,
{
}

} // verus!
