//! Items of a Responses conversation.

use vstd::prelude::*;

use crate::json::JsonValue;
use crate::types::reasoning_replay::ReasoningProvenance;
use crate::types::request_response::{ResponsesTool, ToolChoice};

verus! {

/// A text part of an assistant message.
pub struct OutputTextContent {
    pub text: String,
}

/// An assistant message.
pub struct OutputMessage {
    pub id: String,
    pub content: Vec<OutputTextContent>,
}

/// A call of a function tool.
pub struct FunctionToolCall {
    pub id: String,
    pub call_id: String,
    pub name: String,
    pub arguments: String,
}

/// A call of a custom tool.
pub struct CustomToolCall {
    pub id: String,
    pub call_id: String,
    pub name: String,
    pub input: String,
}

/// The commands of a shell call.
pub struct ShellAction {
    pub commands: Vec<String>,
}

/// A shell call.
pub struct ShellCall {
    pub id: Option<String>,
    pub call_id: String,
    pub action: ShellAction,
}

/// A plaintext reasoning part.
pub struct ReasoningTextContent {
    pub text: String,
}

impl ReasoningTextContent {
    /// A part that holds `text`.
    pub fn new(text: &str) -> (part: Self)
        ensures
            part.text@ == text@,
    {
        ReasoningTextContent { text: text.to_owned() }
    }
}

/// A reasoning item. Its provenance is server-owned and never part of its wire form.
pub struct ReasoningOutput {
    pub id: String,
    pub status: Option<String>,
    pub content: Vec<ReasoningTextContent>,
    pub summary: Vec<JsonValue>,
    pub encrypted_content: Option<JsonValue>,
    pub replay_provenance: Option<ReasoningProvenance>,
}

/// A tool search.
pub struct ToolSearchCall {
    pub id: String,
    pub call_id: String,
    pub arguments: JsonValue,
}

/// A batch of search queries.
pub struct WebSearchActionSearch {
    pub queries: Vec<String>,
}

/// A page visit.
pub struct WebSearchActionOpenPage {
    pub url: Option<String>,
}

/// A search within a page.
pub struct WebSearchActionFindInPage {
    pub pattern: String,
    pub url: String,
}

/// What a web search call does.
pub enum WebSearchAction {
    Search(WebSearchActionSearch),
    OpenPage(WebSearchActionOpenPage),
    FindInPage(WebSearchActionFindInPage),
}

/// A web search call.
pub struct WebSearchCall {
    pub id: String,
    pub status: String,
    pub action: WebSearchAction,
}

/// A text part of a failed MCP tool execution.
pub struct McpToolErrorContent {
    pub text: String,
}

/// A failed MCP tool execution.
pub struct McpToolExecutionError {
    pub content: Vec<McpToolErrorContent>,
}

/// Why an MCP call failed.
pub enum McpCallError {
    Text(String),
    ToolExecution(McpToolExecutionError),
    Unknown(JsonValue),
}

/// A call of an MCP tool.
pub struct McpCall {
    pub id: String,
    pub server_label: String,
    pub name: String,
    pub arguments: String,
    pub status: Option<String>,
    pub approval_request_id: Option<String>,
    pub output: Option<String>,
    pub error: Option<McpCallError>,
}

/// A tool that an MCP server lists.
pub struct McpListTool {
    pub name: String,
    pub description: Option<String>,
    pub input_schema: JsonValue,
    pub annotations: Option<JsonValue>,
}

/// The tools of an MCP server.
pub struct McpListTools {
    pub id: String,
    pub server_label: String,
    pub tools: Vec<McpListTool>,
    pub error: Option<String>,
}

/// A compaction checkpoint.
pub struct Compaction {
    pub id: Option<String>,
}

/// An item of a response's output.
pub enum OutputItem {
    Message(OutputMessage),
    FunctionCall(FunctionToolCall),
    CustomToolCall(CustomToolCall),
    ShellCall(ShellCall),
    Reasoning(ReasoningOutput),
    ToolSearchCall(ToolSearchCall),
    WebSearchCall(WebSearchCall),
    McpCall(McpCall),
    McpListTools(McpListTools),
    Compaction(Compaction),
    Unknown,
}

/// An item of a request's input: a reasoning item, or anything else as its JSON form.
pub enum InputItem {
    Reasoning(ReasoningOutput),
    Other(JsonValue),
}

/// The input of a request.
pub enum ResponsesInput {
    Text(String),
    Items(Vec<InputItem>),
}

/// A response under assembly.
pub struct ResponsePayload {
    pub id: String,
    pub object: String,
    pub created_at: i64,
    pub model: String,
    pub status: String,
    pub output: Vec<OutputItem>,
    pub usage: Option<JsonValue>,
    pub incomplete_details: Option<JsonValue>,
    pub error: Option<JsonValue>,
    pub previous_response_id: Option<String>,
    pub conversation_id: Option<String>,
    pub instructions: Option<String>,
    pub tools: Option<Vec<ResponsesTool>>,
    pub tool_choice: Option<ToolChoice>,
}

/// A reasoning part holds the text that it is made of.
pub proof fn law_reasoning_parts_hold_their_text(text: &str, part: ReasoningTextContent)
    requires
        call_ensures(ReasoningTextContent::new, (text,), part),
    ensures
        part.text@ == text@,
{
}

} // verus!
