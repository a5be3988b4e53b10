//! Request-surface validation for the exact pinned opaque profile.
//!
//! Only preflight calls this. It never normalizes or mutates public input, and
//! must run before rehydration or gateway tool discovery can do external work.

use vstd::prelude::*;

use crate::text;
use crate::types::reasoning_profile::{OpaqueReasoningProfile, OpaqueReplayRequestField};
use crate::types::reasoning_replay::ReasoningReplayError;
use crate::types::request_response::{ReasoningConfig, RequestPayload, ResponsesTool, ToolChoice};

verus! {

/// The largest output that the pinned model produces.
pub const MAX_PINNED_OUTPUT_TOKENS: i64 = 128_000;

/// An optional text is set to anything but `allowed`.
pub open spec fn set_to_other(value: Option<String>, allowed: Seq<char>) -> bool {
    match value {
        Some(text) => text@ != allowed,
        None => false,
    }
}

/// A tool is outside the profile: deferred, not fully described, in need of
/// approval, or of a kind that the profile does not know.
pub open spec fn tool_unsupported(tool: ResponsesTool) -> bool {
    match tool {
        ResponsesTool::Function(function) => function.defer_loading == Some(true) || function.extra@.len() > 0,
        ResponsesTool::Mcp(mcp) => mcp.defer_loading == Some(true) || text::opt_text(mcp.require_approval)
            != Some("never"@),
        ResponsesTool::Other(_) => true,
    }
}

/// A choice is outside the profile: a namespaced function or an unknown kind.
pub open spec fn choice_unsupported(choice: ToolChoice) -> bool {
    match choice {
        ToolChoice::Auto => false,
        ToolChoice::NoTools => false,
        ToolChoice::Required => false,
        ToolChoice::Function { name: _, namespace } => namespace is Some,
        ToolChoice::Other(_) => true,
    }
}

/// Whether the reasoning options take a field outside the profile.
pub open spec fn reasoning_offends(reasoning: ReasoningConfig, field: OpaqueReplayRequestField) -> bool {
    match field {
        OpaqueReplayRequestField::ReasoningContext => reasoning.context is Some,
        OpaqueReplayRequestField::ReasoningEffort => set_to_other(reasoning.effort, "low"@),
        OpaqueReplayRequestField::ReasoningGenerateSummary => reasoning.generate_summary is Some,
        OpaqueReplayRequestField::ReasoningMode => reasoning.mode is Some,
        OpaqueReplayRequestField::ReasoningSummary => set_to_other(reasoning.summary, "concise"@),
        _ => false,
    }
}

/// Whether a request takes a field outside the profile's request surface.
pub open spec fn offends(request: RequestPayload, field: OpaqueReplayRequestField) -> bool {
    match field {
        OpaqueReplayRequestField::Include => match request.include_fields {
            Some(fields) => exists|i: int|
                0 <= i < fields@.len() && (#[trigger] fields@[i])@ != "reasoning.encrypted_content"@,
            None => false,
        },
        OpaqueReplayRequestField::Text => request.text is Some,
        OpaqueReplayRequestField::Temperature => request.temperature is Some,
        OpaqueReplayRequestField::TopP => request.top_p is Some,
        OpaqueReplayRequestField::MaxOutputTokens => match request.max_output_tokens {
            Some(tokens) => !(1 <= tokens <= MAX_PINNED_OUTPUT_TOKENS),
            None => false,
        },
        OpaqueReplayRequestField::IgnoreEos => request.ignore_eos is Some,
        OpaqueReplayRequestField::Truncation => set_to_other(request.truncation, "disabled"@),
        OpaqueReplayRequestField::Metadata => request.metadata is Some,
        OpaqueReplayRequestField::ParallelToolCalls => request.parallel_tool_calls == Some(true),
        OpaqueReplayRequestField::CacheSalt => request.cache_salt is Some,
        OpaqueReplayRequestField::Tools => match request.tools {
            Some(tools) => exists|i: int| 0 <= i < tools@.len() && tool_unsupported(#[trigger] tools@[i]),
            None => false,
        },
        OpaqueReplayRequestField::ToolChoice => match request.tool_choice {
            Some(choice) => choice_unsupported(choice),
            None => false,
        },
        _ => match request.reasoning {
            Some(reasoning) => reasoning_offends(*reasoning, field),
            None => false,
        },
    }
}

/// The place of a field in the order in which fields are reported.
pub open spec fn report_order(field: OpaqueReplayRequestField) -> int {
    match field {
        OpaqueReplayRequestField::ReasoningContext => 0,
        OpaqueReplayRequestField::ReasoningEffort => 1,
        OpaqueReplayRequestField::ReasoningGenerateSummary => 2,
        OpaqueReplayRequestField::ReasoningMode => 3,
        OpaqueReplayRequestField::ReasoningSummary => 4,
        OpaqueReplayRequestField::Include => 5,
        OpaqueReplayRequestField::Text => 6,
        OpaqueReplayRequestField::Temperature => 7,
        OpaqueReplayRequestField::TopP => 8,
        OpaqueReplayRequestField::MaxOutputTokens => 9,
        OpaqueReplayRequestField::IgnoreEos => 10,
        OpaqueReplayRequestField::Truncation => 11,
        OpaqueReplayRequestField::Metadata => 12,
        OpaqueReplayRequestField::ParallelToolCalls => 13,
        OpaqueReplayRequestField::CacheSalt => 14,
        OpaqueReplayRequestField::Tools => 15,
        OpaqueReplayRequestField::ToolChoice => 16,
    }
}

/// A verdict on a request: accepted where no field is outside the profile, and else
/// refused for the first such field, and for no other reason.
pub open spec fn is_surface_verdict(request: RequestPayload, r: Result<(), ReasoningReplayError>) -> bool {
    match r {
        Ok(()) => forall|field: OpaqueReplayRequestField| !offends(request, field),
        Err(ReasoningReplayError::UnsupportedParameter(first)) => {
            &&& offends(request, first)
            &&& forall|field: OpaqueReplayRequestField| #[trigger]
                report_order(field) < report_order(first) ==> !offends(request, field)
        },
        Err(_) => false,
    }
}

fn unsupported(field: OpaqueReplayRequestField) -> (error: ReasoningReplayError)
    ensures
        error == ReasoningReplayError::UnsupportedParameter(field),
{
    ReasoningReplayError::UnsupportedParameter(field)
}

fn is_set_to_other(value: &Option<String>, allowed: &str) -> (r: bool)
    ensures
        r == set_to_other(*value, allowed@),
{
    match value {
        Some(text) => !text::same_text(text.as_str(), allowed),
        None => false,
    }
}

fn takes_other_include(fields: &Vec<String>) -> (r: bool)
    ensures
        r == exists|i: int| 0 <= i < fields@.len() && (#[trigger] fields@[i])@ != "reasoning.encrypted_content"@,
{
    let mut i: usize = 0;
    while i < fields.len()
        invariant
            i <= fields.len(),
            forall|j: int| 0 <= j < i ==> (#[trigger] fields@[j])@ == "reasoning.encrypted_content"@,
        decreases fields.len() - i,
    {
        if !text::same_text(fields[i].as_str(), "reasoning.encrypted_content") {
            return true;
        }
        i = i + 1;
    }
    false
}

fn is_tool_unsupported(tool: &ResponsesTool) -> (r: bool)
    ensures
        r == tool_unsupported(*tool),
{
    match tool {
        ResponsesTool::Function(function) => function.defer_loading == Some(true) || function.extra.len() > 0,
        ResponsesTool::Mcp(mcp) => mcp.defer_loading == Some(true) || match &mcp.require_approval {
            Some(approval) => !text::same_text(approval.as_str(), "never"),
            None => true,
        },
        ResponsesTool::Other(_) => true,
    }
}

fn takes_unsupported_tool(tools: &Vec<ResponsesTool>) -> (r: bool)
    ensures
        r == exists|i: int| 0 <= i < tools@.len() && tool_unsupported(#[trigger] tools@[i]),
{
    let mut i: usize = 0;
    while i < tools.len()
        invariant
            i <= tools.len(),
            forall|j: int| 0 <= j < i ==> !tool_unsupported(#[trigger] tools@[j]),
        decreases tools.len() - i,
    {
        if is_tool_unsupported(&tools[i]) {
            return true;
        }
        i = i + 1;
    }
    false
}

fn is_choice_unsupported(choice: &ToolChoice) -> (r: bool)
    ensures
        r == choice_unsupported(*choice),
{
    match choice {
        ToolChoice::Auto => false,
        ToolChoice::NoTools => false,
        ToolChoice::Required => false,
        ToolChoice::Function { name: _, namespace } => namespace.is_some(),
        ToolChoice::Other(_) => true,
    }
}

/// Hold a request to the surface of its profile.
///
/// # Errors
/// Names the first parameter that the profile does not support.
pub fn validate(profile: OpaqueReasoningProfile, request: &RequestPayload) -> (r: Result<(), ReasoningReplayError>)
    ensures
        is_surface_verdict(*request, r),
{
    match profile {
        OpaqueReasoningProfile::OpenAiGpt54_20260305V1 => validate_gpt54(request),
    }
}

/// Hold a request to the surface of the pinned snapshot.
///
/// # Errors
/// Names the first parameter that the snapshot's profile does not support.
pub fn validate_gpt54(request: &RequestPayload) -> (r: Result<(), ReasoningReplayError>)
    ensures
        is_surface_verdict(*request, r),
{
    if let Some(reasoning) = &request.reasoning {
        if reasoning.context.is_some() {
            return Err(unsupported(OpaqueReplayRequestField::ReasoningContext));
        }
        if is_set_to_other(&reasoning.effort, "low") {
            return Err(unsupported(OpaqueReplayRequestField::ReasoningEffort));
        }
        if reasoning.generate_summary.is_some() {
            return Err(unsupported(OpaqueReplayRequestField::ReasoningGenerateSummary));
        }
        if reasoning.mode.is_some() {
            return Err(unsupported(OpaqueReplayRequestField::ReasoningMode));
        }
        if is_set_to_other(&reasoning.summary, "concise") {
            return Err(unsupported(OpaqueReplayRequestField::ReasoningSummary));
        }
    }
    if let Some(fields) = &request.include_fields {
        if takes_other_include(fields) {
            return Err(unsupported(OpaqueReplayRequestField::Include));
        }
    }
    if request.text.is_some() {
        return Err(unsupported(OpaqueReplayRequestField::Text));
    }
    if request.temperature.is_some() {
        return Err(unsupported(OpaqueReplayRequestField::Temperature));
    }
    if request.top_p.is_some() {
        return Err(unsupported(OpaqueReplayRequestField::TopP));
    }
    if let Some(tokens) = request.max_output_tokens {
        if tokens < 1 || tokens > MAX_PINNED_OUTPUT_TOKENS {
            return Err(unsupported(OpaqueReplayRequestField::MaxOutputTokens));
        }
    }
    if request.ignore_eos.is_some() {
        return Err(unsupported(OpaqueReplayRequestField::IgnoreEos));
    }
    if is_set_to_other(&request.truncation, "disabled") {
        return Err(unsupported(OpaqueReplayRequestField::Truncation));
    }
    if request.metadata.is_some() {
        return Err(unsupported(OpaqueReplayRequestField::Metadata));
    }
    if request.parallel_tool_calls == Some(true) {
        return Err(unsupported(OpaqueReplayRequestField::ParallelToolCalls));
    }
    if request.cache_salt.is_some() {
        return Err(unsupported(OpaqueReplayRequestField::CacheSalt));
    }
    if let Some(tools) = &request.tools {
        if takes_unsupported_tool(tools) {
            return Err(unsupported(OpaqueReplayRequestField::Tools));
        }
    }
    if let Some(choice) = &request.tool_choice {
        if is_choice_unsupported(choice) {
            return Err(unsupported(OpaqueReplayRequestField::ToolChoice));
        }
    }
    Ok(())
}

/// A request has one verdict only.
pub proof fn law_surface_verdict_is_unique(
    request: RequestPayload,
    first: Result<(), ReasoningReplayError>,
    second: Result<(), ReasoningReplayError>,
)
    requires
        is_surface_verdict(request, first),
        is_surface_verdict(request, second),
    ensures
        first == second,
{
    if let (
        Err(ReasoningReplayError::UnsupportedParameter(one)),
        Err(ReasoningReplayError::UnsupportedParameter(other)),
    ) = (first, second) {
        assert(!(report_order(one) < report_order(other)));
        assert(!(report_order(other) < report_order(one)));
        assert(one == other);
    } else if first is Ok && second is Ok {
        assert(first->Ok_0 == second->Ok_0);
    }
}

/// What an accepted request is, parameter by parameter and over every position of its
/// lists: the reasoning options are unset or the pinned ones, nothing but encrypted
/// reasoning is asked for, sampling and text options are unset, the output is bounded,
/// every tool is fully described and needs no approval, and the choice names no
/// namespace. Nothing else is accepted.
pub proof fn law_accepted_requests_stay_within_the_profile(request: RequestPayload)
    ensures
        is_surface_verdict(request, Ok(())) <==> {
            &&& request.reasoning matches Some(reasoning) ==> {
                &&& reasoning.context is None
                &&& reasoning.effort matches Some(effort) ==> effort@ == "low"@
                &&& reasoning.generate_summary is None
                &&& reasoning.mode is None
                &&& reasoning.summary matches Some(summary) ==> summary@ == "concise"@
            }
            &&& request.include_fields matches Some(fields) ==> forall|i: int|
                0 <= i < fields@.len() ==> (#[trigger] fields@[i])@ == "reasoning.encrypted_content"@
            &&& request.text is None
            &&& request.temperature is None
            &&& request.top_p is None
            &&& request.max_output_tokens matches Some(tokens) ==> 1 <= tokens <= 128_000
            &&& request.ignore_eos is None
            &&& request.truncation matches Some(mode) ==> mode@ == "disabled"@
            &&& request.metadata is None
            &&& request.parallel_tool_calls != Some(true)
            &&& request.cache_salt is None
            &&& request.tools matches Some(tools) ==> forall|i: int|
                0 <= i < tools@.len() ==> match #[trigger] tools@[i] {
                    ResponsesTool::Function(function) => function.defer_loading != Some(true)
                        && function.extra@.len() == 0,
                    ResponsesTool::Mcp(mcp) => mcp.defer_loading != Some(true) && (mcp.require_approval matches Some(
                        approval,
                    ) && approval@ == "never"@),
                    ResponsesTool::Other(_) => false,
                }
            &&& request.tool_choice matches Some(choice) ==> match choice {
                ToolChoice::Auto | ToolChoice::NoTools | ToolChoice::Required => true,
                ToolChoice::Function { name: _, namespace } => namespace is None,
                ToolChoice::Other(_) => false,
            }
        },
{
    let all = [
        OpaqueReplayRequestField::ReasoningContext,
        OpaqueReplayRequestField::ReasoningEffort,
        OpaqueReplayRequestField::ReasoningGenerateSummary,
        OpaqueReplayRequestField::ReasoningMode,
        OpaqueReplayRequestField::ReasoningSummary,
        OpaqueReplayRequestField::Include,
        OpaqueReplayRequestField::Text,
        OpaqueReplayRequestField::Temperature,
        OpaqueReplayRequestField::TopP,
        OpaqueReplayRequestField::MaxOutputTokens,
        OpaqueReplayRequestField::IgnoreEos,
        OpaqueReplayRequestField::Truncation,
        OpaqueReplayRequestField::Metadata,
        OpaqueReplayRequestField::ParallelToolCalls,
        OpaqueReplayRequestField::CacheSalt,
        OpaqueReplayRequestField::Tools,
        OpaqueReplayRequestField::ToolChoice,
    ];
    if is_surface_verdict(request, Ok(())) {
        assert(forall|i: int| 0 <= i < 17 ==> !offends(request, #[trigger] all@[i]));
    }
}

/// The parameter that each place of the reporting order is for.
pub open spec fn parameter_at(place: int) -> OpaqueReplayRequestField {
    if place == 0 {
        OpaqueReplayRequestField::ReasoningContext
    } else if place == 1 {
        OpaqueReplayRequestField::ReasoningEffort
    } else if place == 2 {
        OpaqueReplayRequestField::ReasoningGenerateSummary
    } else if place == 3 {
        OpaqueReplayRequestField::ReasoningMode
    } else if place == 4 {
        OpaqueReplayRequestField::ReasoningSummary
    } else if place == 5 {
        OpaqueReplayRequestField::Include
    } else if place == 6 {
        OpaqueReplayRequestField::Text
    } else if place == 7 {
        OpaqueReplayRequestField::Temperature
    } else if place == 8 {
        OpaqueReplayRequestField::TopP
    } else if place == 9 {
        OpaqueReplayRequestField::MaxOutputTokens
    } else if place == 10 {
        OpaqueReplayRequestField::IgnoreEos
    } else if place == 11 {
        OpaqueReplayRequestField::Truncation
    } else if place == 12 {
        OpaqueReplayRequestField::Metadata
    } else if place == 13 {
        OpaqueReplayRequestField::ParallelToolCalls
    } else if place == 14 {
        OpaqueReplayRequestField::CacheSalt
    } else if place == 15 {
        OpaqueReplayRequestField::Tools
    } else {
        OpaqueReplayRequestField::ToolChoice
    }
}

/// A request breaks the rule of a place of the reporting order.
pub open spec fn breaks_rule(request: RequestPayload, place: int) -> bool {
    if place == 0 {
        request.reasoning matches Some(reasoning) && reasoning.context is Some
    } else if place == 1 {
        request.reasoning matches Some(reasoning) && (reasoning.effort matches Some(effort) && effort@ != "low"@)
    } else if place == 2 {
        request.reasoning matches Some(reasoning) && reasoning.generate_summary is Some
    } else if place == 3 {
        request.reasoning matches Some(reasoning) && reasoning.mode is Some
    } else if place == 4 {
        request.reasoning matches Some(reasoning) && (reasoning.summary matches Some(summary) && summary@
            != "concise"@)
    } else if place == 5 {
        request.include_fields matches Some(fields) && exists|i: int|
            0 <= i < fields@.len() && (#[trigger] fields@[i])@ != "reasoning.encrypted_content"@
    } else if place == 6 {
        request.text is Some
    } else if place == 7 {
        request.temperature is Some
    } else if place == 8 {
        request.top_p is Some
    } else if place == 9 {
        request.max_output_tokens matches Some(tokens) && (tokens < 1 || tokens > 128_000)
    } else if place == 10 {
        request.ignore_eos is Some
    } else if place == 11 {
        request.truncation matches Some(mode) && mode@ != "disabled"@
    } else if place == 12 {
        request.metadata is Some
    } else if place == 13 {
        request.parallel_tool_calls == Some(true)
    } else if place == 14 {
        request.cache_salt is Some
    } else if place == 15 {
        request.tools matches Some(tools) && exists|i: int|
            0 <= i < tools@.len() && match #[trigger] tools@[i] {
                ResponsesTool::Function(function) => function.defer_loading == Some(true) || function.extra@.len() > 0,
                ResponsesTool::Mcp(mcp) => mcp.defer_loading == Some(true) || match mcp.require_approval {
                    Some(approval) => approval@ != "never"@,
                    None => true,
                },
                ResponsesTool::Other(_) => true,
            }
    } else {
        request.tool_choice matches Some(choice) && match choice {
            ToolChoice::Auto | ToolChoice::NoTools | ToolChoice::Required => false,
            ToolChoice::Function { name: _, namespace } => namespace is Some,
            ToolChoice::Other(_) => true,
        }
    }
}

/// A refusal names the first parameter, in reporting order, whose rule the request
/// breaks: it breaks that one and none before it, whatever stands after it.
pub proof fn law_refusals_name_the_first_broken_rule(request: RequestPayload, place: int)
    requires
        0 <= place < 17,
    ensures
        is_surface_verdict(request, Err(ReasoningReplayError::UnsupportedParameter(parameter_at(place)))) <==> {
            &&& breaks_rule(request, place)
            &&& forall|earlier: int| 0 <= earlier < place ==> !#[trigger] breaks_rule(request, earlier)
        },
{
    assert forall|at: int| 0 <= at < 17 implies #[trigger] breaks_rule(request, at) == offends(
        request,
        parameter_at(at),
    ) && report_order(parameter_at(at)) == at by {}
    assert forall|field: OpaqueReplayRequestField|
        0 <= #[trigger] report_order(field) < 17 && field == parameter_at(report_order(field)) by {}
    let verdict: Result<(), ReasoningReplayError> = Err(
        ReasoningReplayError::UnsupportedParameter(parameter_at(place)),
    );
    if is_surface_verdict(request, verdict) {
        assert forall|earlier: int| 0 <= earlier < place implies !#[trigger] breaks_rule(request, earlier) by {
            assert(report_order(parameter_at(earlier)) < report_order(parameter_at(place)));
        }
    }
    if breaks_rule(request, place) && (forall|earlier: int|
        0 <= earlier < place ==> !#[trigger] breaks_rule(request, earlier)) {
        assert forall|field: OpaqueReplayRequestField| #[trigger]
            report_order(field) < report_order(parameter_at(place)) implies !offends(request, field) by {
            assert(!breaks_rule(request, report_order(field)));
        }
    }
}

/// What is returned for a request is the verdict on it: acceptance where no rule is
/// broken, and else the first parameter whose rule is.
pub proof fn law_returned_verdicts_name_the_first_broken_rule(
    profile: OpaqueReasoningProfile,
    request: RequestPayload,
    r: Result<(), ReasoningReplayError>,
    direct: Result<(), ReasoningReplayError>,
    place: int,
)
    requires
        0 <= place < 17,
        call_ensures(validate, (profile, &request), r),
        call_ensures(validate_gpt54, (&request,), direct),
    ensures
        r == direct,
        r is Ok <==> forall|at: int| 0 <= at < 17 ==> !#[trigger] breaks_rule(request, at),
        r == Err::<(), ReasoningReplayError>(ReasoningReplayError::UnsupportedParameter(parameter_at(place))) <==> {
            &&& breaks_rule(request, place)
            &&& forall|earlier: int| 0 <= earlier < place ==> !#[trigger] breaks_rule(request, earlier)
        },
        r matches Err(error) ==> error is UnsupportedParameter,
{
    law_surface_verdict_is_unique(request, r, direct);
    law_refusals_name_the_first_broken_rule(request, place);
    assert forall|at: int| 0 <= at < 17 implies #[trigger] breaks_rule(request, at) == offends(
        request,
        parameter_at(at),
    ) by {}
    assert forall|field: OpaqueReplayRequestField|
        0 <= #[trigger] report_order(field) < 17 && field == parameter_at(report_order(field)) by {}
    if let Err(ReasoningReplayError::UnsupportedParameter(first)) = r {
        assert(breaks_rule(request, report_order(first)));
        if breaks_rule(request, place) && (forall|earlier: int|
            0 <= earlier < place ==> !#[trigger] breaks_rule(request, earlier)) {
            law_surface_verdict_is_unique(
                request,
                r,
                Err(ReasoningReplayError::UnsupportedParameter(parameter_at(place))),
            );
        }
    }
    if r is Ok {
        assert forall|at: int| 0 <= at < 17 implies !#[trigger] breaks_rule(request, at) by {
            assert(!offends(request, parameter_at(at)));
        }
    }
}

} // verus!
