use agentic_server::executor::replay::{
    identity_preimage, mark_client_input, mark_client_items, mark_external_output, record_round_provenance,
    record_upstream_provenance, upstream_identity, ExecutionContext, RequestContext, ResponsesConfig,
};
use agentic_server::json::JsonValue;
use agentic_server::types::io::{InputItem, OutputItem, ReasoningOutput, ResponsePayload, ResponsesInput};
use agentic_server::types::reasoning_profile::{OpaqueReasoningProfile, OpaqueReplayRequestField};
use agentic_server::types::reasoning_replay::{
    reasoning_provenance_retained_bytes, ReasoningProvenance, ReasoningReplayError, ReasoningReplayIdentity,
    ReasoningReplayPolicy, ReasoningSource, MAX_REASONING_PROVENANCE_BYTES,
};
use agentic_server::types::request_response::RequestPayload;
use agentic_server::types::upstream_identity::{UpstreamModelError, UpstreamModelId, MAX_UPSTREAM_MODEL_BYTES};

const ENDPOINT: &str = "https://upstream.example/v1/responses";

fn reasoning(id: &str, provenance: Option<ReasoningProvenance>) -> ReasoningOutput {
    ReasoningOutput {
        id: id.to_owned(),
        status: None,
        content: vec![],
        summary: vec![],
        encrypted_content: None,
        replay_provenance: provenance,
    }
}

fn provenance_of(item: &OutputItem) -> Option<ReasoningProvenance> {
    match item {
        OutputItem::Reasoning(reasoning) => reasoning.replay_provenance,
        _ => None,
    }
}

fn request(model: &str) -> RequestContext {
    RequestContext {
        enriched_request: RequestPayload {
            model: model.to_owned(),
            reasoning: None,
            include_fields: None,
            text: None,
            temperature: None,
            top_p: None,
            max_output_tokens: None,
            ignore_eos: None,
            truncation: None,
            metadata: None,
            parallel_tool_calls: None,
            cache_salt: None,
            tools: None,
            tool_choice: None,
        },
    }
}

fn context() -> ExecutionContext {
    ExecutionContext {
        responses_config: ResponsesConfig {
            reasoning_replay_policy: ReasoningReplayPolicy::VllmPlaintext,
        },
        responses_url: ENDPOINT.to_owned(),
    }
}

fn payload(output: Vec<OutputItem>) -> ResponsePayload {
    ResponsePayload {
        id: "resp".to_owned(),
        object: "response".to_owned(),
        created_at: 1,
        model: "requested".to_owned(),
        status: "completed".to_owned(),
        output,
        usage: None,
        incomplete_details: None,
        error: None,
        previous_response_id: None,
        conversation_id: None,
        instructions: None,
        tools: None,
        tool_choice: None,
    }
}

#[test]
fn identity_is_the_digest_of_the_routing_inputs() {
    let identity = upstream_identity(
        ReasoningReplayPolicy::VllmPlaintext,
        ENDPOINT,
        Some("token"),
        "requested",
        Some("reported"),
    );
    assert_eq!(
        identity.digest(),
        [
            70, 203, 83, 188, 55, 223, 5, 111, 68, 80, 81, 176, 144, 234, 205, 35, 133, 156, 236, 53, 202, 65, 202, 7,
            109, 72, 155, 103, 206, 18, 231, 112
        ]
    );
    let bare = upstream_identity(ReasoningReplayPolicy::OpaqueResponses, "e", None, "m", None);
    assert_eq!(
        bare.digest(),
        [
            249, 137, 122, 231, 71, 35, 1, 195, 109, 128, 190, 52, 104, 179, 133, 3, 107, 210, 3, 142, 60, 42, 65, 96,
            159, 35, 5, 176, 58, 237, 104, 169
        ]
    );
}

#[test]
fn identity_binds_every_input() {
    let base = || {
        upstream_identity(
            ReasoningReplayPolicy::VllmPlaintext,
            ENDPOINT,
            Some(""),
            "requested",
            Some(""),
        )
        .digest()
    };
    let policy = ReasoningReplayPolicy::VllmPlaintext;
    assert_eq!(base(), base());
    let others = [
        upstream_identity(ReasoningReplayPolicy::OpaqueResponses, ENDPOINT, Some(""), "requested", Some("")),
        upstream_identity(policy, "https://other.example", Some(""), "requested", Some("")),
        upstream_identity(policy, ENDPOINT, None, "requested", Some("")),
        upstream_identity(policy, ENDPOINT, Some("token"), "requested", Some("")),
        upstream_identity(policy, ENDPOINT, Some(""), "other", Some("")),
        upstream_identity(policy, ENDPOINT, Some(""), "requested", None),
        upstream_identity(policy, ENDPOINT, Some(""), "requested", Some("other")),
    ];
    for (i, one) in others.iter().enumerate() {
        assert_ne!(one.digest(), base());
        for other in &others[i + 1..] {
            assert_ne!(one.digest(), other.digest());
        }
    }
}

#[test]
fn identity_layout_has_fixed_widths() {
    let bytes = identity_preimage(
        ReasoningReplayPolicy::OpaqueResponses,
        [1; 32],
        true,
        [2; 32],
        [3; 32],
        false,
        [4; 32],
    );
    let domain = b"agentic-api/reasoning-replay/identity/v1\0";
    assert_eq!(bytes.len(), domain.len() + 1 + 32 + 1 + 32 + 32 + 1 + 32);
    assert!(bytes.starts_with(domain));
    assert_eq!(bytes[domain.len()], 1);
    assert_eq!(bytes[domain.len() + 33], 1);
    assert_eq!(bytes[domain.len() + 98], 0);
    assert_eq!(bytes[bytes.len() - 1], 4);
}

#[test]
fn round_provenance_stamps_reasoning_alone() {
    let mut round = payload(vec![
        OutputItem::Unknown,
        OutputItem::Reasoning(reasoning("rs_1", None)),
        OutputItem::Reasoning(reasoning("rs_2", Some(ReasoningProvenance::client_submitted()))),
    ]);
    let model = UpstreamModelId::new("reported".to_owned()).expect("valid model");
    record_round_provenance(&mut round, Some(&model), &context(), &request("requested"), Some("token"));
    let identity = upstream_identity(
        ReasoningReplayPolicy::VllmPlaintext,
        ENDPOINT,
        Some("token"),
        "requested",
        Some("reported"),
    );
    let expected = ReasoningProvenance::upstream(ReasoningReplayPolicy::VllmPlaintext, identity);
    assert!(matches!(round.output[0], OutputItem::Unknown));
    assert!(provenance_of(&round.output[1]) == Some(expected));
    assert!(provenance_of(&round.output[2]) == Some(expected));
    assert_eq!(round.id, "resp");
}

#[test]
fn round_without_reasoning_is_left_alone() {
    let mut round = payload(vec![OutputItem::Unknown]);
    record_round_provenance(&mut round, None, &context(), &request("requested"), None);
    assert_eq!(round.output.len(), 1);
    assert!(matches!(round.output[0], OutputItem::Unknown));
}

#[test]
fn last_output_stamp_counts() {
    let identity = ReasoningReplayIdentity::from_digest([7; 32]);
    let mut output = vec![OutputItem::Reasoning(reasoning("rs", None))];
    record_upstream_provenance(&mut output, ReasoningReplayPolicy::VllmPlaintext, identity);
    assert!(matches!(
        provenance_of(&output[0]),
        Some(ReasoningProvenance::V1 { source: ReasoningSource::Upstream { .. } })
    ));
    mark_external_output(&mut output);
    assert!(provenance_of(&output[0]) == Some(ReasoningProvenance::client_submitted()));
}

#[test]
fn client_items_keep_no_claim() {
    let identity = ReasoningReplayIdentity::from_digest([7; 32]);
    let claim = ReasoningProvenance::upstream(ReasoningReplayPolicy::OpaqueResponses, identity);
    let mut items = vec![
        InputItem::Other(JsonValue::Null),
        InputItem::Reasoning(reasoning("rs", Some(claim))),
    ];
    mark_client_items(&mut items);
    assert!(matches!(items[0], InputItem::Other(JsonValue::Null)));
    assert!(
        matches!(&items[1], InputItem::Reasoning(r) if r.replay_provenance == Some(ReasoningProvenance::client_submitted()) && r.id == "rs")
    );
    let mut input = ResponsesInput::Items(vec![InputItem::Reasoning(reasoning("rs", Some(claim)))]);
    mark_client_input(&mut input);
    assert!(
        matches!(&input, ResponsesInput::Items(items) if matches!(&items[0], InputItem::Reasoning(r) if r.replay_provenance == Some(ReasoningProvenance::client_submitted())))
    );
    let mut text = ResponsesInput::Text("hello".to_owned());
    mark_client_input(&mut text);
    assert!(matches!(text, ResponsesInput::Text(text) if text == "hello"));
}

#[test]
fn opaque_replay_is_never_enabled() {
    let profile = OpaqueReasoningProfile::OpenAiGpt54_20260305V1;
    assert_eq!(ReasoningReplayPolicy::default().validate(), Ok(()));
    assert_eq!(
        ReasoningReplayPolicy::OpaqueResponses.validate(),
        Err(ReasoningReplayError::OpaqueNotEnabled)
    );
    assert_eq!(ReasoningReplayPolicy::VllmPlaintext.validate_selection(None), Ok(()));
    assert_eq!(
        ReasoningReplayPolicy::VllmPlaintext.validate_selection(Some(profile)),
        Err(ReasoningReplayError::UnexpectedProfile)
    );
    assert_eq!(
        ReasoningReplayPolicy::OpaqueResponses.validate_selection(None),
        Err(ReasoningReplayError::MissingProfile)
    );
    assert_eq!(
        ReasoningReplayPolicy::OpaqueResponses.validate_selection(Some(profile)),
        Err(ReasoningReplayError::OpaqueNotEnabled)
    );
}

#[test]
fn profile_targets_match_exactly() {
    let profile = OpaqueReasoningProfile::OpenAiGpt54_20260305V1;
    assert_eq!(profile.endpoint(), "https://api.openai.com/v1/responses");
    assert_eq!(profile.model(), "gpt-5.4-2026-03-05");
    assert_eq!(
        profile.identity_domain(),
        b"openai/responses/reasoning.encrypted_content/gpt-5.4-2026-03-05/v1"
    );
    assert_eq!(profile.validate_target(profile.endpoint(), profile.model()), Ok(()));
    assert_eq!(
        profile.validate_target("https://api.openai.com/v1/responses/", profile.model()),
        Err(ReasoningReplayError::EndpointMismatch)
    );
    assert_eq!(
        profile.validate_target(profile.endpoint(), "gpt-5.4"),
        Err(ReasoningReplayError::ModelMismatch)
    );
    assert_eq!(
        profile.validate_target("x", "y"),
        Err(ReasoningReplayError::EndpointMismatch)
    );
}

#[test]
fn diagnostics_are_static_and_redacted() {
    assert_eq!(
        ReasoningReplayError::OpaqueNotEnabled.message(),
        "opaque reasoning replay is not enabled; provider qualification is incomplete"
    );
    for error in [
        ReasoningReplayError::MissingProfile,
        ReasoningReplayError::UnexpectedProfile,
        ReasoningReplayError::EndpointMismatch,
        ReasoningReplayError::ModelMismatch,
        ReasoningReplayError::UnsupportedParameter(OpaqueReplayRequestField::Tools),
    ] {
        assert!(!error.message().is_empty());
    }
    let identity = ReasoningReplayIdentity::from_digest([9; 32]);
    assert_eq!(identity.debug_text(), "ReasoningReplayIdentity(<redacted>)");
    let model = UpstreamModelId::new("secret-model".to_owned()).expect("valid model");
    assert_eq!(model.debug_text(), "UpstreamModelId(<redacted>)");
}

#[test]
fn model_evidence_is_bounded_and_exact() {
    assert_eq!(
        UpstreamModelId::new(" spaced ".to_owned()).expect("kept").as_str(),
        " spaced "
    );
    assert!(matches!(UpstreamModelId::new(String::new()), Err(UpstreamModelError::Invalid)));
    assert!(matches!(
        UpstreamModelId::new(" \u{2003}\n".to_owned()),
        Err(UpstreamModelError::Invalid)
    ));
    let longest = "m".repeat(MAX_UPSTREAM_MODEL_BYTES);
    assert_eq!(UpstreamModelId::new(longest.clone()).expect("kept").clone().as_str(), longest);
    assert!(UpstreamModelId::new("m".repeat(MAX_UPSTREAM_MODEL_BYTES + 1)).is_err());
    assert!(UpstreamModelId::new("\u{e9}".repeat(513)).is_err());
    assert_eq!(
        UpstreamModelError::Invalid.message(),
        "upstream response has an invalid 'model'; expected a nonempty string of at most 1024 bytes"
    );
    assert_eq!(
        UpstreamModelError::Changed.message(),
        "upstream response changes its reported model during an inference round"
    );
}

#[test]
fn identities_are_their_digests() {
    let one = ReasoningReplayIdentity::from_digest([1; 32]);
    assert!(one == ReasoningReplayIdentity::from_digest(one.digest()));
    assert!(one != ReasoningReplayIdentity::from_digest([2; 32]));
}

#[test]
fn provenance_space_is_bounded() {
    let bytes = reasoning_provenance_retained_bytes();
    assert!(bytes >= 32 && bytes <= MAX_REASONING_PROVENANCE_BYTES);
}
