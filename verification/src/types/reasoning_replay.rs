//! Server-owned reasoning replay policy and versioned, non-wire provenance.
//!
//! Provenance records an observation, not permission to replay opaque state.
//! It is persisted separately from public items and cannot be supplied over HTTP/WS.

use vstd::prelude::*;

use crate::types::reasoning_profile::{OpaqueReasoningProfile, OpaqueReplayRequestField};

verus! {

/// Maximum serialized provenance per stored reasoning item, including JSON overhead.
pub const MAX_REASONING_PROVENANCE_BYTES: usize = 512;

/// Reasoning projection selected by the server, never by a request's model name.
#[derive(Debug, Clone, Copy, PartialEq, Eq, Structural)]
pub enum ReasoningReplayPolicy {
    /// Existing vLLM plaintext projection; opaque-only continuations are rejected.
    VllmPlaintext,
    /// Reserved for qualified opaque Responses replay. Not executable yet.
    OpaqueResponses,
}

impl Default for ReasoningReplayPolicy {
    fn default() -> (policy: Self)
        ensures
            policy == ReasoningReplayPolicy::VllmPlaintext,
    {
        ReasoningReplayPolicy::VllmPlaintext
    }
}

/// The verdict on a policy alone: only the plaintext projection is executable.
pub open spec fn policy_verdict(policy: ReasoningReplayPolicy) -> Result<(), ReasoningReplayError> {
    match policy {
        ReasoningReplayPolicy::VllmPlaintext => Ok(()),
        ReasoningReplayPolicy::OpaqueResponses => Err(ReasoningReplayError::OpaqueNotEnabled),
    }
}

/// The verdict on a policy together with its configured profile: the two must fit
/// each other before availability is considered.
pub open spec fn selection_verdict(
    policy: ReasoningReplayPolicy,
    profile: Option<OpaqueReasoningProfile>,
) -> Result<(), ReasoningReplayError> {
    match (policy, profile) {
        (ReasoningReplayPolicy::VllmPlaintext, Some(_)) => Err(ReasoningReplayError::UnexpectedProfile),
        (ReasoningReplayPolicy::OpaqueResponses, None) => Err(ReasoningReplayError::MissingProfile),
        _ => policy_verdict(policy),
    }
}

impl ReasoningReplayPolicy {
    /// Validate availability before storage, tool discovery, or upstream inference.
    ///
    /// # Errors
    /// Returns an error for an unqualified replay policy. Defining a policy or
    /// retaining provenance does not enable its execution.
    pub fn validate(self) -> (r: Result<(), ReasoningReplayError>)
        ensures
            r == policy_verdict(self),
    {
        match self {
            ReasoningReplayPolicy::VllmPlaintext => Ok(()),
            ReasoningReplayPolicy::OpaqueResponses => Err(ReasoningReplayError::OpaqueNotEnabled),
        }
    }

    /// Validate a configured policy together with its optional candidate profile.
    ///
    /// # Errors
    /// An opaque policy needs a profile and the plaintext policy takes none; a
    /// consistent selection is then held to [`Self::validate`].
    pub fn validate_selection(self, profile: Option<OpaqueReasoningProfile>) -> (r: Result<
        (),
        ReasoningReplayError,
    >)
        ensures
            r == selection_verdict(self, profile),
    {
        match (self, profile) {
            (ReasoningReplayPolicy::VllmPlaintext, Some(_)) => Err(ReasoningReplayError::UnexpectedProfile),
            (ReasoningReplayPolicy::OpaqueResponses, None) => Err(ReasoningReplayError::MissingProfile),
            _ => self.validate(),
        }
    }
}

/// Replay failures deliberately contain neither credentials nor opaque state.
#[derive(Debug, Clone, Copy, PartialEq, Eq, Structural)]
pub enum ReasoningReplayError {
    OpaqueNotEnabled,
    /// The opaque policy was configured without a profile.
    MissingProfile,
    /// A profile was configured under the plaintext policy.
    UnexpectedProfile,
    EndpointMismatch,
    ModelMismatch,
    /// The request sets a parameter outside the profile's request surface.
    UnsupportedParameter(OpaqueReplayRequestField),
}

/// The diagnostic of each failure.
pub open spec fn replay_error_message(error: ReasoningReplayError) -> Seq<char> {
    match error {
        ReasoningReplayError::OpaqueNotEnabled =>
            "opaque reasoning replay is not enabled; provider qualification is incomplete"@,
        ReasoningReplayError::MissingProfile => "opaque reasoning replay requires a configured profile"@,
        ReasoningReplayError::UnexpectedProfile =>
            "a reasoning replay profile requires the opaque reasoning replay policy"@,
        ReasoningReplayError::EndpointMismatch => "configured endpoint does not match the reasoning replay profile"@,
        ReasoningReplayError::ModelMismatch => "requested model does not match the reasoning replay profile"@,
        ReasoningReplayError::UnsupportedParameter(_) =>
            "request parameter is not supported by the reasoning replay profile"@,
    }
}

impl ReasoningReplayError {
    /// The diagnostic text; it is static, so nothing of a request can enter it.
    pub fn message(self) -> (text: &'static str)
        ensures
            text@ == replay_error_message(self),
    {
        match self {
            ReasoningReplayError::OpaqueNotEnabled => {
                "opaque reasoning replay is not enabled; provider qualification is incomplete"
            },
            ReasoningReplayError::MissingProfile => "opaque reasoning replay requires a configured profile",
            ReasoningReplayError::UnexpectedProfile => {
                "a reasoning replay profile requires the opaque reasoning replay policy"
            },
            ReasoningReplayError::EndpointMismatch => {
                "configured endpoint does not match the reasoning replay profile"
            },
            ReasoningReplayError::ModelMismatch => "requested model does not match the reasoning replay profile",
            ReasoningReplayError::UnsupportedParameter(_) => {
                "request parameter is not supported by the reasoning replay profile"
            },
        }
    }
}

/// Fixed-size fingerprint of the effective upstream routing and model identity.
///
/// The executor binds policy, endpoint, effective bearer credential, requested model,
/// and optional authoritative reported model. This is not an authentication credential
/// or a cross-provider compatibility claim. No original identity components are
/// retained here, and there is no formatting that shows the digest.
#[derive(Clone, Copy, PartialEq, Eq)]
pub struct ReasoningReplayIdentity {
    digest: [u8; 32],
}

impl ReasoningReplayIdentity {
    /// The digest that the fingerprint consists of.
    pub closed spec fn digest_spec(self) -> [u8; 32] {
        self.digest
    }

    /// Wrap a digest.
    pub fn from_digest(digest: [u8; 32]) -> (identity: Self)
        ensures
            identity.digest_spec() == digest,
    {
        ReasoningReplayIdentity { digest }
    }

    /// The digest, for storage.
    pub fn digest(&self) -> (digest: [u8; 32])
        ensures
            digest == self.digest_spec(),
    {
        self.digest
    }

    /// What diagnostics show in place of the digest.
    pub fn debug_text(&self) -> (text: &'static str)
        ensures
            text@ == "ReasoningReplayIdentity(<redacted>)"@,
    {
        "ReasoningReplayIdentity(<redacted>)"
    }
}

/// Where this particular reasoning item entered canonical history.
#[derive(Clone, Copy, PartialEq, Eq)]
pub enum ReasoningSource {
    /// Manually supplied input or externally committed output, not gateway-observed.
    /// Successful inference must not upgrade this to `Upstream`.
    ClientSubmitted,
    /// Observed through this gateway's inference path under the recorded policy.
    Upstream { policy: ReasoningReplayPolicy, identity: ReasoningReplayIdentity },
}

/// Versioned per-item provenance stored outside the public Responses schema.
///
/// A missing value on legacy items means unknown provenance, not client-submitted or
/// provider-issued state. Unknown versions and fields must fail closed on load.
#[derive(Clone, Copy, PartialEq, Eq)]
pub enum ReasoningProvenance {
    V1 { source: ReasoningSource },
}

impl ReasoningProvenance {
    /// Provenance of items that this gateway did not observe itself.
    pub fn client_submitted() -> (provenance: Self)
        ensures
            provenance == (ReasoningProvenance::V1 { source: ReasoningSource::ClientSubmitted }),
    {
        ReasoningProvenance::V1 { source: ReasoningSource::ClientSubmitted }
    }

    /// Provenance of items observed through the inference path.
    pub fn upstream(policy: ReasoningReplayPolicy, identity: ReasoningReplayIdentity) -> (provenance: Self)
        ensures
            provenance == (ReasoningProvenance::V1 { source: ReasoningSource::Upstream { policy, identity } }),
    {
        ReasoningProvenance::V1 { source: ReasoningSource::Upstream { policy, identity } }
    }
}

/// Inline provenance space reserved for every reasoning item, even before the engine
/// records its origin. The charge covers the discriminant of missing provenance.
pub fn reasoning_provenance_retained_bytes() -> (n: usize)
    ensures
        n == vstd::layout::size_of::<Option<ReasoningProvenance>>(),
{
    core::mem::size_of::<Option<ReasoningProvenance>>()
}

/// An identity is its digest: equal digests are equal identities, and no others are.
pub proof fn law_identities_are_their_digests(one: ReasoningReplayIdentity, other: ReasoningReplayIdentity)
    ensures
        one.digest_spec() == other.digest_spec() <==> one == other,
{
}

/// No configuration enables opaque replay: a selection is accepted exactly when it is
/// the plaintext policy without a profile.
pub proof fn law_opaque_replay_is_never_enabled(
    policy: ReasoningReplayPolicy,
    profile: Option<OpaqueReasoningProfile>,
)
    ensures
        selection_verdict(policy, profile) is Ok <==> policy == ReasoningReplayPolicy::VllmPlaintext
            && profile is None,
        policy == ReasoningReplayPolicy::OpaqueResponses ==> policy_verdict(policy)
            == Err::<(), ReasoningReplayError>(ReasoningReplayError::OpaqueNotEnabled),
{
}

/// Each selection has its own answer: a profile has no place under the plaintext policy,
/// the opaque policy needs one, and even with one it is not enabled.
pub proof fn law_every_selection_has_its_answer(
    policy: ReasoningReplayPolicy,
    profile: Option<OpaqueReasoningProfile>,
    alone: Result<(), ReasoningReplayError>,
    selected: Result<(), ReasoningReplayError>,
    default: ReasoningReplayPolicy,
)
    requires
        call_ensures(ReasoningReplayPolicy::validate, (policy,), alone),
        call_ensures(ReasoningReplayPolicy::validate_selection, (policy, profile), selected),
        call_ensures(ReasoningReplayPolicy::default, (), default),
    ensures
        default is VllmPlaintext,
        alone is Ok <==> policy is VllmPlaintext,
        alone matches Err(error) ==> error is OpaqueNotEnabled,
        selected is Ok <==> policy is VllmPlaintext && profile is None,
        selected == Err::<(), ReasoningReplayError>(ReasoningReplayError::UnexpectedProfile) <==> policy
            is VllmPlaintext && profile is Some,
        selected == Err::<(), ReasoningReplayError>(ReasoningReplayError::MissingProfile) <==> policy
            is OpaqueResponses && profile is None,
        selected == Err::<(), ReasoningReplayError>(ReasoningReplayError::OpaqueNotEnabled) <==> policy
            is OpaqueResponses && profile is Some,
{
}

/// Each kind of failure has its own fixed text, whatever the request held.
pub proof fn law_failures_have_fixed_texts(error: ReasoningReplayError, text: &'static str)
    requires
        call_ensures(ReasoningReplayError::message, (error,), text),
    ensures
        error is OpaqueNotEnabled ==> text@
            == "opaque reasoning replay is not enabled; provider qualification is incomplete"@,
        error is MissingProfile ==> text@ == "opaque reasoning replay requires a configured profile"@,
        error is UnexpectedProfile ==> text@ == "a reasoning replay profile requires the opaque reasoning replay policy"@,
        error is EndpointMismatch ==> text@ == "configured endpoint does not match the reasoning replay profile"@,
        error is ModelMismatch ==> text@ == "requested model does not match the reasoning replay profile"@,
        error is UnsupportedParameter ==> text@
            == "request parameter is not supported by the reasoning replay profile"@,
{
}

/// An identity gives back the digest that it was made of, and a provenance says where
/// its item came from: from a client, or from upstream under a policy and an identity.
pub proof fn law_provenance_says_where_it_came_from(
    digest: [u8; 32],
    identity: ReasoningReplayIdentity,
    given_back: [u8; 32],
    policy: ReasoningReplayPolicy,
    submitted: ReasoningProvenance,
    observed: ReasoningProvenance,
)
    requires
        call_ensures(ReasoningReplayIdentity::from_digest, (digest,), identity),
        call_ensures(ReasoningReplayIdentity::digest, (&identity,), given_back),
        call_ensures(ReasoningProvenance::client_submitted, (), submitted),
        call_ensures(ReasoningProvenance::upstream, (policy, identity), observed),
    ensures
        given_back == digest,
        submitted == (ReasoningProvenance::V1 { source: ReasoningSource::ClientSubmitted }),
        observed == (ReasoningProvenance::V1 { source: ReasoningSource::Upstream { policy, identity } }),
        submitted != observed,
{
}

/// The space reserved for provenance is that of a provenance that may be missing, and an
/// identity is shown by its kind alone.
pub proof fn law_provenance_space_and_diagnostics(bytes: usize, identity: ReasoningReplayIdentity, shown: &'static str)
    requires
        call_ensures(reasoning_provenance_retained_bytes, (), bytes),
        call_ensures(ReasoningReplayIdentity::debug_text, (&identity,), shown),
    ensures
        bytes == vstd::layout::size_of::<Option<ReasoningProvenance>>(),
        shown@ == "ReasoningReplayIdentity(<redacted>)"@,
{
}

} // verus!
