//! Requests as the engine sees them before inference.

use vstd::prelude::*;

use crate::json::JsonValue;

verus! {

/// The reasoning options of a request.
pub struct ReasoningConfig {
    pub context: Option<JsonValue>,
    pub effort: Option<String>,
    pub generate_summary: Option<JsonValue>,
    pub mode: Option<JsonValue>,
    pub summary: Option<String>,
}

/// A function tool; `extra` holds the members that no known field takes.
pub struct FunctionTool {
    pub name: String,
    pub defer_loading: Option<bool>,
    pub extra: Vec<(String, JsonValue)>,
}

/// An MCP server offered as a tool.
pub struct McpTool {
    pub server_label: String,
    pub defer_loading: Option<bool>,
    pub require_approval: Option<String>,
}

/// A tool of a request; any kind but these two is kept as its JSON form.
pub enum ResponsesTool {
    Function(FunctionTool),
    Mcp(McpTool),
    Other(JsonValue),
}

/// Which tools the model may or must call.
pub enum ToolChoice {
    Auto,
    /// `none` on the wire.
    NoTools,
    Required,
    Function { name: String, namespace: Option<String> },
    Other(JsonValue),
}

/// A request. A sampling number is kept as its JSON text.
pub struct RequestPayload {
    pub model: String,
    pub reasoning: Option<Box<ReasoningConfig>>,
    pub include_fields: Option<Vec<String>>,
    pub text: Option<JsonValue>,
    pub temperature: Option<String>,
    pub top_p: Option<String>,
    pub max_output_tokens: Option<i64>,
    pub ignore_eos: Option<bool>,
    pub truncation: Option<String>,
    pub metadata: Option<JsonValue>,
    pub parallel_tool_calls: Option<bool>,
    pub cache_salt: Option<String>,
    pub tools: Option<Vec<ResponsesTool>>,
    pub tool_choice: Option<ToolChoice>,
}

} // verus!
