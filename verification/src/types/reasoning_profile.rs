//! Closed, server-owned candidate profiles for opaque reasoning replay.
//!
//! A profile names a gateway compatibility contract, not a provider ciphertext
//! version or a claim of qualification. No profile is executable yet.

use vstd::prelude::*;

use crate::text;
use crate::types::reasoning_replay::ReasoningReplayError;

verus! {

/// A pinned candidate. Aliases, regional endpoints, proxies with another URL,
/// compatible model families, and arbitrary user-defined profiles are not implied.
#[derive(Debug, Clone, Copy, PartialEq, Eq, Structural)]
#[allow(non_camel_case_types)]
pub enum OpaqueReasoningProfile {
    /// `OpenAI` Responses `reasoning.encrypted_content`, exact snapshot, contract v1.
    /// This revision describes the gateway contract; the opaque bytes are never decoded.
    OpenAiGpt54_20260305V1,
}

/// A request parameter that a pinned profile constrains.
#[derive(Debug, Clone, Copy, PartialEq, Eq, Structural)]
pub enum OpaqueReplayRequestField {
    ReasoningContext,
    ReasoningEffort,
    ReasoningGenerateSummary,
    ReasoningMode,
    ReasoningSummary,
    Include,
    Text,
    Temperature,
    TopP,
    MaxOutputTokens,
    IgnoreEos,
    Truncation,
    Metadata,
    ParallelToolCalls,
    CacheSalt,
    Tools,
    ToolChoice,
}

/// The endpoint that a profile pins.
pub open spec fn profile_endpoint(profile: OpaqueReasoningProfile) -> Seq<char> {
    match profile {
        OpaqueReasoningProfile::OpenAiGpt54_20260305V1 => "https://api.openai.com/v1/responses"@,
    }
}

/// The model that a profile pins.
pub open spec fn profile_model(profile: OpaqueReasoningProfile) -> Seq<char> {
    match profile {
        OpaqueReasoningProfile::OpenAiGpt54_20260305V1 => "gpt-5.4-2026-03-05"@,
    }
}

/// The verdict on a configured endpoint and requested model: each must be the pinned
/// one, spelled exactly, and the endpoint is looked at first.
pub open spec fn target_verdict(
    profile: OpaqueReasoningProfile,
    endpoint: Seq<char>,
    model: Seq<char>,
) -> Result<(), ReasoningReplayError> {
    if endpoint != profile_endpoint(profile) {
        Err(ReasoningReplayError::EndpointMismatch)
    } else if model != profile_model(profile) {
        Err(ReasoningReplayError::ModelMismatch)
    } else {
        Ok(())
    }
}

impl OpaqueReasoningProfile {
    /// Exact configured endpoint. Redirects must be disabled before qualification.
    pub fn endpoint(self) -> (endpoint: &'static str)
        ensures
            endpoint@ == profile_endpoint(self),
    {
        match self {
            OpaqueReasoningProfile::OpenAiGpt54_20260305V1 => "https://api.openai.com/v1/responses",
        }
    }

    /// Both the requested model and consistently reported terminal model must match.
    pub fn model(self) -> (model: &'static str)
        ensures
            model@ == profile_model(self),
    {
        match self {
            OpaqueReasoningProfile::OpenAiGpt54_20260305V1 => "gpt-5.4-2026-03-05",
        }
    }

    /// Stable identity domain. A changed wire contract requires a new profile.
    pub fn identity_domain(self) -> (domain: &'static [u8])
        ensures
            domain@ == vstd::utf8::encode_utf8(
                "openai/responses/reasoning.encrypted_content/gpt-5.4-2026-03-05/v1"@,
            ),
    {
        match self {
            OpaqueReasoningProfile::OpenAiGpt54_20260305V1 => {
                "openai/responses/reasoning.encrypted_content/gpt-5.4-2026-03-05/v1".as_bytes()
            },
        }
    }

    /// Check exact routing without retaining or echoing potentially sensitive URLs.
    ///
    /// # Errors
    /// Returns a redacted error for any endpoint or requested-model mismatch.
    pub fn validate_target(self, endpoint: &str, model: &str) -> (r: Result<(), ReasoningReplayError>)
        ensures
            r == target_verdict(self, endpoint@, model@),
    {
        if !text::same_text(endpoint, self.endpoint()) {
            return Err(ReasoningReplayError::EndpointMismatch);
        }
        if !text::same_text(model, self.model()) {
            return Err(ReasoningReplayError::ModelMismatch);
        }
        Ok(())
    }
}

/// A target is accepted exactly where endpoint and model are the pinned ones, letter for
/// letter; a wrong endpoint is reported before a wrong model.
pub proof fn law_only_the_pinned_target_is_accepted(
    profile: OpaqueReasoningProfile,
    endpoint: &str,
    model: &str,
    r: Result<(), ReasoningReplayError>,
)
    requires
        call_ensures(OpaqueReasoningProfile::validate_target, (profile, endpoint, model), r),
    ensures
        r is Ok <==> endpoint@ == "https://api.openai.com/v1/responses"@ && model@ == "gpt-5.4-2026-03-05"@,
        r == Err::<(), ReasoningReplayError>(ReasoningReplayError::EndpointMismatch) <==> endpoint@
            != "https://api.openai.com/v1/responses"@,
        r == Err::<(), ReasoningReplayError>(ReasoningReplayError::ModelMismatch) <==> endpoint@
            == "https://api.openai.com/v1/responses"@ && model@ != "gpt-5.4-2026-03-05"@,
{
}

/// A profile accepts the target that it names itself, and its domain spells its contract.
pub proof fn law_profiles_accept_their_own_target(
    profile: OpaqueReasoningProfile,
    endpoint: &'static str,
    model: &'static str,
    domain: &'static [u8],
    r: Result<(), ReasoningReplayError>,
)
    requires
        call_ensures(OpaqueReasoningProfile::endpoint, (profile,), endpoint),
        call_ensures(OpaqueReasoningProfile::model, (profile,), model),
        call_ensures(OpaqueReasoningProfile::identity_domain, (profile,), domain),
        call_ensures(OpaqueReasoningProfile::validate_target, (profile, endpoint, model), r),
    ensures
        r is Ok,
        endpoint@ == "https://api.openai.com/v1/responses"@,
        model@ == "gpt-5.4-2026-03-05"@,
        domain@ == vstd::utf8::encode_utf8("openai/responses/reasoning.encrypted_content/gpt-5.4-2026-03-05/v1"@),
{
}

} // verus!
