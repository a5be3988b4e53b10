use agentic_server::executor::parameters::{validate, validate_gpt54};
use agentic_server::json::JsonValue;
use agentic_server::types::reasoning_profile::{OpaqueReasoningProfile, OpaqueReplayRequestField};
use agentic_server::types::reasoning_replay::ReasoningReplayError;
use agentic_server::types::request_response::{
    FunctionTool, McpTool, ReasoningConfig, RequestPayload, ResponsesTool, ToolChoice,
};

fn bare() -> RequestPayload {
    RequestPayload {
        model: "gpt-5.4-2026-03-05".to_owned(),
        reasoning: None,
        include_fields: None,
        text: None,
        temperature: None,
        top_p: None,
        max_output_tokens: None,
        ignore_eos: None,
        truncation: None,
        metadata: None,
        parallel_tool_calls: None,
        cache_salt: None,
        tools: None,
        tool_choice: None,
    }
}

fn options() -> ReasoningConfig {
    ReasoningConfig {
        context: None,
        effort: None,
        generate_summary: None,
        mode: None,
        summary: None,
    }
}

fn refused(field: OpaqueReplayRequestField) -> Result<(), ReasoningReplayError> {
    Err(ReasoningReplayError::UnsupportedParameter(field))
}

fn function(defer_loading: Option<bool>, extra: Vec<(String, JsonValue)>) -> ResponsesTool {
    ResponsesTool::Function(FunctionTool {
        name: "f".to_owned(),
        defer_loading,
        extra,
    })
}

fn mcp(defer_loading: Option<bool>, require_approval: Option<&str>) -> ResponsesTool {
    ResponsesTool::Mcp(McpTool {
        server_label: "s".to_owned(),
        defer_loading,
        require_approval: require_approval.map(str::to_owned),
    })
}

#[test]
fn supported_surface_is_accepted() {
    assert_eq!(validate_gpt54(&bare()), Ok(()));
    let mut request = bare();
    request.reasoning = Some(Box::new(ReasoningConfig {
        effort: Some("low".to_owned()),
        summary: Some("concise".to_owned()),
        ..options()
    }));
    request.include_fields = Some(vec!["reasoning.encrypted_content".to_owned()]);
    request.max_output_tokens = Some(128_000);
    request.truncation = Some("disabled".to_owned());
    request.parallel_tool_calls = Some(false);
    request.tools = Some(vec![function(Some(false), vec![]), mcp(None, Some("never"))]);
    request.tool_choice = Some(ToolChoice::Function {
        name: "f".to_owned(),
        namespace: None,
    });
    assert_eq!(validate(OpaqueReasoningProfile::OpenAiGpt54_20260305V1, &request), Ok(()));
    for choice in [ToolChoice::Auto, ToolChoice::NoTools, ToolChoice::Required] {
        request.tool_choice = Some(choice);
        assert_eq!(validate_gpt54(&request), Ok(()));
    }
}

#[test]
fn reasoning_options_outside_the_profile_are_named() {
    let with = |reasoning: ReasoningConfig| {
        validate_gpt54(&RequestPayload {
            reasoning: Some(Box::new(reasoning)),
            ..bare()
        })
    };
    assert_eq!(
        with(ReasoningConfig { context: Some(JsonValue::Null), ..options() }),
        refused(OpaqueReplayRequestField::ReasoningContext)
    );
    assert_eq!(
        with(ReasoningConfig { effort: Some("high".to_owned()), ..options() }),
        refused(OpaqueReplayRequestField::ReasoningEffort)
    );
    assert_eq!(
        with(ReasoningConfig { generate_summary: Some(JsonValue::Null), ..options() }),
        refused(OpaqueReplayRequestField::ReasoningGenerateSummary)
    );
    assert_eq!(
        with(ReasoningConfig { mode: Some(JsonValue::Null), ..options() }),
        refused(OpaqueReplayRequestField::ReasoningMode)
    );
    assert_eq!(
        with(ReasoningConfig { summary: Some("auto".to_owned()), ..options() }),
        refused(OpaqueReplayRequestField::ReasoningSummary)
    );
}

#[test]
fn parameters_outside_the_profile_are_named() {
    let verdict = |change: fn(&mut RequestPayload)| {
        let mut request = bare();
        change(&mut request);
        validate_gpt54(&request)
    };
    assert_eq!(
        verdict(|r| r.include_fields = Some(vec!["reasoning.encrypted_content".to_owned(), "x".to_owned()])),
        refused(OpaqueReplayRequestField::Include)
    );
    assert_eq!(verdict(|r| r.text = Some(JsonValue::Null)), refused(OpaqueReplayRequestField::Text));
    assert_eq!(
        verdict(|r| r.temperature = Some("1.0".to_owned())),
        refused(OpaqueReplayRequestField::Temperature)
    );
    assert_eq!(verdict(|r| r.top_p = Some("0.5".to_owned())), refused(OpaqueReplayRequestField::TopP));
    assert_eq!(
        verdict(|r| r.max_output_tokens = Some(0)),
        refused(OpaqueReplayRequestField::MaxOutputTokens)
    );
    assert_eq!(
        verdict(|r| r.max_output_tokens = Some(128_001)),
        refused(OpaqueReplayRequestField::MaxOutputTokens)
    );
    assert_eq!(verdict(|r| r.max_output_tokens = Some(1)), Ok(()));
    assert_eq!(verdict(|r| r.ignore_eos = Some(false)), refused(OpaqueReplayRequestField::IgnoreEos));
    assert_eq!(
        verdict(|r| r.truncation = Some("auto".to_owned())),
        refused(OpaqueReplayRequestField::Truncation)
    );
    assert_eq!(
        verdict(|r| r.metadata = Some(JsonValue::Object(vec![]))),
        refused(OpaqueReplayRequestField::Metadata)
    );
    assert_eq!(
        verdict(|r| r.parallel_tool_calls = Some(true)),
        refused(OpaqueReplayRequestField::ParallelToolCalls)
    );
    assert_eq!(
        verdict(|r| r.cache_salt = Some(String::new())),
        refused(OpaqueReplayRequestField::CacheSalt)
    );
    assert_eq!(
        verdict(|r| r.tool_choice = Some(ToolChoice::Other(JsonValue::Null))),
        refused(OpaqueReplayRequestField::ToolChoice)
    );
    assert_eq!(
        verdict(|r| {
            r.tool_choice = Some(ToolChoice::Function {
                name: "f".to_owned(),
                namespace: Some("n".to_owned()),
            })
        }),
        refused(OpaqueReplayRequestField::ToolChoice)
    );
}

#[test]
fn tools_outside_the_profile_are_refused() {
    let verdict = |tool: ResponsesTool| {
        validate_gpt54(&RequestPayload {
            tools: Some(vec![function(None, vec![]), tool]),
            ..bare()
        })
    };
    let tools = refused(OpaqueReplayRequestField::Tools);
    assert_eq!(verdict(function(Some(true), vec![])), tools);
    assert_eq!(verdict(function(None, vec![("x".to_owned(), JsonValue::Null)])), tools);
    assert_eq!(verdict(mcp(Some(true), Some("never"))), tools);
    assert_eq!(verdict(mcp(None, Some("always"))), tools);
    assert_eq!(verdict(mcp(None, None)), tools);
    assert_eq!(verdict(ResponsesTool::Other(JsonValue::Null)), tools);
}

#[test]
fn first_offence_in_order_is_the_one_named() {
    let mut request = bare();
    request.cache_salt = Some("salt".to_owned());
    request.temperature = Some("1".to_owned());
    request.tools = Some(vec![ResponsesTool::Other(JsonValue::Null)]);
    assert_eq!(validate_gpt54(&request), refused(OpaqueReplayRequestField::Temperature));
    request.reasoning = Some(Box::new(ReasoningConfig {
        summary: Some("auto".to_owned()),
        ..options()
    }));
    assert_eq!(validate_gpt54(&request), refused(OpaqueReplayRequestField::ReasoningSummary));
}
