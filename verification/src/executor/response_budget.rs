//! Byte accounting for responses that the engine retains.

use std::sync::Arc;

use vstd::prelude::*;
use vstd::rwlock::{ReadHandle, RwLock, RwLockPredicate, WriteHandle};

use crate::executor::error::{ExecutorError, ResourceLimit};
use crate::json;
use crate::json::{JsonValue, RETAINED_CONTAINER_OVERHEAD_BYTES};
use crate::text;
use crate::types::io::{
    Compaction, CustomToolCall, FunctionToolCall, McpCall, McpCallError, McpListTool, McpListTools,
    McpToolErrorContent, McpToolExecutionError, OutputItem, OutputMessage, OutputTextContent, ReasoningOutput,
    ReasoningTextContent, ResponsePayload, ShellCall, ToolSearchCall, WebSearchAction, WebSearchActionSearch,
    WebSearchCall,
};

verus! {

// ---------------------------------------------------------------------------
// Model of the retained size
// ---------------------------------------------------------------------------

/// The weights of a list's elements, added up.
pub open spec fn sum<T>(items: Seq<T>, weight: spec_fn(T) -> nat) -> nat
    decreases items.len(),
{
    if items.len() == 0 {
        0
    } else {
        sum(items.drop_last(), weight) + weight(items.last())
    }
}

/// The structural charge of one container.
pub open spec fn overhead() -> nat {
    RETAINED_CONTAINER_OVERHEAD_BYTES as nat
}

/// The UTF-8 bytes of an optional text.
pub open spec fn opt_len(value: Option<String>) -> nat {
    match value {
        Some(s) => text::utf8_len(s@),
        None => 0,
    }
}

pub open spec fn message_part_bytes() -> spec_fn(OutputTextContent) -> nat {
    |part: OutputTextContent| overhead() + text::utf8_len(part.text@)
}

pub open spec fn reasoning_part_bytes() -> spec_fn(ReasoningTextContent) -> nat {
    |part: ReasoningTextContent| overhead() + text::utf8_len(part.text@)
}

pub open spec fn error_part_bytes() -> spec_fn(McpToolErrorContent) -> nat {
    |part: McpToolErrorContent| text::utf8_len(part.text@)
}

/// A text with a fixed charge on top.
pub open spec fn text_bytes(charge: nat) -> spec_fn(String) -> nat {
    |s: String| charge + text::utf8_len(s@)
}

/// A summary part is charged for its structure and for its `text`, if it has one.
pub open spec fn summary_part_bytes() -> spec_fn(JsonValue) -> nat {
    |part: JsonValue|
        overhead() + match json::held_text(part@, "text"@) {
            Some(t) => text::utf8_len(t),
            None => 0,
        }
}

/// An argument that is a string counts by its length, any other by a fixed charge.
pub open spec fn argument_value_bytes(value: JsonValue) -> nat {
    match json::string_text(value@) {
        Some(t) => text::utf8_len(t),
        None => 32,
    }
}

pub open spec fn argument_bytes() -> spec_fn((String, JsonValue)) -> nat {
    |argument: (String, JsonValue)| text::utf8_len(argument.0@) + argument_value_bytes(argument.1)
}

pub open spec fn arguments_bytes(arguments: JsonValue) -> nat {
    match arguments {
        JsonValue::Object(members) => sum(members@, argument_bytes()),
        _ => argument_value_bytes(arguments),
    }
}

pub open spec fn web_search_action_bytes(action: WebSearchAction) -> nat {
    match action {
        WebSearchAction::Search(search) => sum(search.queries@, text_bytes(0)),
        WebSearchAction::OpenPage(page) => opt_len(page.url),
        WebSearchAction::FindInPage(find) => text::utf8_len(find.pattern@) + text::utf8_len(find.url@),
    }
}

pub open spec fn mcp_error_bytes(error: Option<McpCallError>) -> nat {
    match error {
        Some(McpCallError::Text(t)) => text::utf8_len(t@),
        Some(McpCallError::ToolExecution(failure)) => sum(failure.content@, error_part_bytes()),
        Some(McpCallError::Unknown(value)) => json::json_bytes(value),
        None => 0,
    }
}

pub open spec fn listed_tool_bytes() -> spec_fn(McpListTool) -> nat {
    |tool: McpListTool|
        overhead() + text::utf8_len(tool.name@) + opt_len(tool.description) + json::json_bytes(tool.input_schema)
}

/// The bytes that one output item is charged with: a structural charge, and the text
/// that it retains.
pub open spec fn item_bytes(item: OutputItem) -> nat {
    match item {
        OutputItem::Message(msg) => overhead() + text::utf8_len(msg.id@) + sum(msg.content@, message_part_bytes()),
        OutputItem::FunctionCall(call) => overhead() + text::utf8_len(call.id@) + text::utf8_len(call.call_id@)
            + text::utf8_len(call.name@) + text::utf8_len(call.arguments@),
        OutputItem::CustomToolCall(call) => overhead() + text::utf8_len(call.id@) + text::utf8_len(call.call_id@)
            + text::utf8_len(call.name@) + text::utf8_len(call.input@),
        OutputItem::ShellCall(call) => overhead() + opt_len(call.id) + text::utf8_len(call.call_id@) + sum(
            call.action.commands@,
            text_bytes(overhead()),
        ),
        OutputItem::Reasoning(reasoning) => overhead() + text::utf8_len(reasoning.id@) + (
        match reasoning.encrypted_content {
            Some(state) => json::json_bytes(state),
            None => 0,
        }) + sum(reasoning.content@, reasoning_part_bytes()) + sum(reasoning.summary@, summary_part_bytes()),
        OutputItem::ToolSearchCall(call) => overhead() + text::utf8_len(call.id@) + text::utf8_len(call.call_id@)
            + arguments_bytes(call.arguments),
        OutputItem::WebSearchCall(call) => overhead() + text::utf8_len(call.id@) + web_search_action_bytes(
            call.action,
        ),
        OutputItem::McpCall(call) => overhead() + text::utf8_len(call.id@) + text::utf8_len(call.server_label@)
            + text::utf8_len(call.name@) + text::utf8_len(call.arguments@) + opt_len(call.output)
            + mcp_error_bytes(call.error),
        OutputItem::McpListTools(list) => overhead() + text::utf8_len(list.id@) + text::utf8_len(
            list.server_label@,
        ) + opt_len(list.error) + sum(list.tools@, listed_tool_bytes()),
        OutputItem::Compaction(compaction) => overhead() + opt_len(compaction.id),
        OutputItem::Unknown => overhead(),
    }
}

pub open spec fn output_item_bytes() -> spec_fn(OutputItem) -> nat {
    |item: OutputItem| item_bytes(item)
}

/// The bytes that a response with this identifier and output is charged with.
pub open spec fn response_bytes(response_id: Seq<char>, output: Seq<OutputItem>) -> nat {
    overhead() + text::utf8_len(response_id) + sum(output, output_item_bytes())
}

/// A prefix of a list weighs one element more than the prefix before it, and no more
/// than the whole list.
proof fn lemma_sum_prefix<T>(items: Seq<T>, weight: spec_fn(T) -> nat, i: int)
    requires
        0 <= i < items.len(),
    ensures
        sum(items.take(i + 1), weight) == sum(items.take(i), weight) + weight(items[i]),
        sum(items.take(i + 1), weight) <= sum(items, weight),
    decreases items.len() - i,
{
    assert(items.take(i + 1).drop_last() =~= items.take(i));
    if i + 1 < items.len() {
        lemma_sum_prefix(items, weight, i + 1);
    } else {
        assert(items.take(i + 1) =~= items);
    }
}

// ---------------------------------------------------------------------------
// Measuring
// ---------------------------------------------------------------------------

fn opt_string_bytes(value: &Option<String>) -> (n: usize)
    ensures
        n == opt_len(*value),
{
    match value {
        Some(s) => text::byte_len(s.as_str()),
        None => 0,
    }
}

fn message_content_bytes(content: &Vec<OutputTextContent>) -> (n: usize)
    requires
        sum(content@, message_part_bytes()) <= usize::MAX,
    ensures
        n == sum(content@, message_part_bytes()),
{
    let mut bytes: usize = 0;
    let mut i: usize = 0;
    while i < content.len()
        invariant
            i <= content.len(),
            sum(content@, message_part_bytes()) <= usize::MAX,
            bytes == sum(content@.take(i as int), message_part_bytes()),
        decreases content.len() - i,
    {
        proof {
            lemma_sum_prefix(content@, message_part_bytes(), i as int);
        }
        bytes = bytes + (RETAINED_CONTAINER_OVERHEAD_BYTES + text::byte_len(content[i].text.as_str()));
        i = i + 1;
    }
    assert(content@.take(i as int) =~= content@);
    bytes
}

fn reasoning_content_bytes(parts: &Vec<ReasoningTextContent>) -> (n: usize)
    requires
        sum(parts@, reasoning_part_bytes()) <= usize::MAX,
    ensures
        n == sum(parts@, reasoning_part_bytes()),
{
    let mut bytes: usize = 0;
    let mut i: usize = 0;
    while i < parts.len()
        invariant
            i <= parts.len(),
            sum(parts@, reasoning_part_bytes()) <= usize::MAX,
            bytes == sum(parts@.take(i as int), reasoning_part_bytes()),
        decreases parts.len() - i,
    {
        proof {
            lemma_sum_prefix(parts@, reasoning_part_bytes(), i as int);
        }
        bytes = bytes + (RETAINED_CONTAINER_OVERHEAD_BYTES + text::byte_len(parts[i].text.as_str()));
        i = i + 1;
    }
    assert(parts@.take(i as int) =~= parts@);
    bytes
}

fn error_content_bytes(parts: &Vec<McpToolErrorContent>) -> (n: usize)
    requires
        sum(parts@, error_part_bytes()) <= usize::MAX,
    ensures
        n == sum(parts@, error_part_bytes()),
{
    let mut bytes: usize = 0;
    let mut i: usize = 0;
    while i < parts.len()
        invariant
            i <= parts.len(),
            sum(parts@, error_part_bytes()) <= usize::MAX,
            bytes == sum(parts@.take(i as int), error_part_bytes()),
        decreases parts.len() - i,
    {
        proof {
            lemma_sum_prefix(parts@, error_part_bytes(), i as int);
        }
        bytes = bytes + text::byte_len(parts[i].text.as_str());
        i = i + 1;
    }
    assert(parts@.take(i as int) =~= parts@);
    bytes
}

fn text_list_bytes(parts: &Vec<String>, charge: usize) -> (n: usize)
    requires
        sum(parts@, text_bytes(charge as nat)) <= usize::MAX,
    ensures
        n == sum(parts@, text_bytes(charge as nat)),
{
    let mut bytes: usize = 0;
    let mut i: usize = 0;
    while i < parts.len()
        invariant
            i <= parts.len(),
            sum(parts@, text_bytes(charge as nat)) <= usize::MAX,
            bytes == sum(parts@.take(i as int), text_bytes(charge as nat)),
        decreases parts.len() - i,
    {
        proof {
            lemma_sum_prefix(parts@, text_bytes(charge as nat), i as int);
        }
        bytes = bytes + (charge + text::byte_len(parts[i].as_str()));
        i = i + 1;
    }
    assert(parts@.take(i as int) =~= parts@);
    bytes
}

fn summary_bytes(parts: &Vec<JsonValue>) -> (n: usize)
    requires
        sum(parts@, summary_part_bytes()) <= usize::MAX,
    ensures
        n == sum(parts@, summary_part_bytes()),
{
    let mut bytes: usize = 0;
    let mut i: usize = 0;
    while i < parts.len()
        invariant
            i <= parts.len(),
            sum(parts@, summary_part_bytes()) <= usize::MAX,
            bytes == sum(parts@.take(i as int), summary_part_bytes()),
        decreases parts.len() - i,
    {
        proof {
            lemma_sum_prefix(parts@, summary_part_bytes(), i as int);
        }
        bytes = bytes + (RETAINED_CONTAINER_OVERHEAD_BYTES + member_text_bytes(&parts[i], "text"));
        i = i + 1;
    }
    assert(parts@.take(i as int) =~= parts@);
    bytes
}

fn argument_list_bytes(parts: &Vec<(String, JsonValue)>) -> (n: usize)
    requires
        sum(parts@, argument_bytes()) <= usize::MAX,
    ensures
        n == sum(parts@, argument_bytes()),
{
    let mut bytes: usize = 0;
    let mut i: usize = 0;
    while i < parts.len()
        invariant
            i <= parts.len(),
            sum(parts@, argument_bytes()) <= usize::MAX,
            bytes == sum(parts@.take(i as int), argument_bytes()),
        decreases parts.len() - i,
    {
        proof {
            lemma_sum_prefix(parts@, argument_bytes(), i as int);
        }
        bytes = bytes + (text::byte_len(parts[i].0.as_str()) + argument_text_bytes(&parts[i].1));
        i = i + 1;
    }
    assert(parts@.take(i as int) =~= parts@);
    bytes
}

fn listed_tools_bytes(parts: &Vec<McpListTool>) -> (n: usize)
    requires
        sum(parts@, listed_tool_bytes()) <= usize::MAX,
    ensures
        n == sum(parts@, listed_tool_bytes()),
{
    let mut bytes: usize = 0;
    let mut i: usize = 0;
    while i < parts.len()
        invariant
            i <= parts.len(),
            sum(parts@, listed_tool_bytes()) <= usize::MAX,
            bytes == sum(parts@.take(i as int), listed_tool_bytes()),
        decreases parts.len() - i,
    {
        proof {
            lemma_sum_prefix(parts@, listed_tool_bytes(), i as int);
        }
        bytes = bytes + (RETAINED_CONTAINER_OVERHEAD_BYTES + text::byte_len(parts[i].name.as_str()) + opt_string_bytes(
            &parts[i].description,
        ) + json::estimate_json_value_bytes(&parts[i].input_schema));
        i = i + 1;
    }
    assert(parts@.take(i as int) =~= parts@);
    bytes
}

/// The length of the string that an object holds under `name`, zero if it holds none.
fn member_text_bytes(value: &JsonValue, name: &str) -> (n: usize)
    ensures
        n == match json::held_text(value@, name@) {
            Some(t) => text::utf8_len(t),
            None => 0,
        },
{
    match value.get(name) {
        Some(found) => match found.as_str() {
            Some(t) => text::byte_len(t),
            None => 0,
        },
        None => 0,
    }
}

fn argument_text_bytes(value: &JsonValue) -> (n: usize)
    ensures
        n == argument_value_bytes(*value),
{
    match value.as_str() {
        Some(t) => text::byte_len(t),
        None => 32,
    }
}

fn tool_search_arguments_bytes(arguments: &JsonValue) -> (n: usize)
    requires
        arguments_bytes(*arguments) <= usize::MAX,
    ensures
        n == arguments_bytes(*arguments),
{
    match arguments {
        JsonValue::Object(members) => argument_list_bytes(members),
        _ => argument_text_bytes(arguments),
    }
}

fn action_bytes(action: &WebSearchAction) -> (n: usize)
    requires
        web_search_action_bytes(*action) <= usize::MAX,
    ensures
        n == web_search_action_bytes(*action),
{
    match action {
        WebSearchAction::Search(search) => text_list_bytes(&search.queries, 0),
        WebSearchAction::OpenPage(page) => opt_string_bytes(&page.url),
        WebSearchAction::FindInPage(find) => {
            text::byte_len(find.pattern.as_str()) + text::byte_len(find.url.as_str())
        },
    }
}

fn call_error_bytes(error: &Option<McpCallError>) -> (n: usize)
    requires
        mcp_error_bytes(*error) <= usize::MAX,
    ensures
        n == mcp_error_bytes(*error),
{
    match error {
        Some(McpCallError::Text(t)) => text::byte_len(t.as_str()),
        Some(McpCallError::ToolExecution(failure)) => error_content_bytes(&failure.content),
        Some(McpCallError::Unknown(value)) => json::estimate_json_value_bytes(value),
        None => 0,
    }
}

/// The bytes that one output item is charged with.
///
/// The charge must fit the address space.
pub fn retained_output_item_bytes(item: &OutputItem) -> (n: usize)
    requires
        item_bytes(*item) <= usize::MAX,
    ensures
        n == item_bytes(*item),
{
    match item {
        OutputItem::Message(msg) => {
            RETAINED_CONTAINER_OVERHEAD_BYTES + text::byte_len(msg.id.as_str()) + message_content_bytes(&msg.content)
        },
        OutputItem::FunctionCall(call) => {
            RETAINED_CONTAINER_OVERHEAD_BYTES + text::byte_len(call.id.as_str()) + text::byte_len(
                call.call_id.as_str(),
            ) + text::byte_len(call.name.as_str()) + text::byte_len(call.arguments.as_str())
        },
        OutputItem::CustomToolCall(call) => {
            RETAINED_CONTAINER_OVERHEAD_BYTES + text::byte_len(call.id.as_str()) + text::byte_len(
                call.call_id.as_str(),
            ) + text::byte_len(call.name.as_str()) + text::byte_len(call.input.as_str())
        },
        OutputItem::ShellCall(call) => {
            RETAINED_CONTAINER_OVERHEAD_BYTES + opt_string_bytes(&call.id) + text::byte_len(call.call_id.as_str())
                + text_list_bytes(&call.action.commands, RETAINED_CONTAINER_OVERHEAD_BYTES)
        },
        OutputItem::Reasoning(reasoning) => {
            let state: usize = match &reasoning.encrypted_content {
                Some(state) => json::estimate_json_value_bytes(state),
                None => 0,
            };
            RETAINED_CONTAINER_OVERHEAD_BYTES + text::byte_len(reasoning.id.as_str()) + state
                + reasoning_content_bytes(&reasoning.content) + summary_bytes(&reasoning.summary)
        },
        OutputItem::ToolSearchCall(call) => {
            RETAINED_CONTAINER_OVERHEAD_BYTES + text::byte_len(call.id.as_str()) + text::byte_len(
                call.call_id.as_str(),
            ) + tool_search_arguments_bytes(&call.arguments)
        },
        OutputItem::WebSearchCall(call) => {
            RETAINED_CONTAINER_OVERHEAD_BYTES + text::byte_len(call.id.as_str()) + action_bytes(&call.action)
        },
        OutputItem::McpCall(call) => {
            RETAINED_CONTAINER_OVERHEAD_BYTES + text::byte_len(call.id.as_str()) + text::byte_len(
                call.server_label.as_str(),
            ) + text::byte_len(call.name.as_str()) + text::byte_len(call.arguments.as_str()) + opt_string_bytes(
                &call.output,
            ) + call_error_bytes(&call.error)
        },
        OutputItem::McpListTools(list) => {
            RETAINED_CONTAINER_OVERHEAD_BYTES + text::byte_len(list.id.as_str()) + text::byte_len(
                list.server_label.as_str(),
            ) + opt_string_bytes(&list.error) + listed_tools_bytes(&list.tools)
        },
        OutputItem::Compaction(compaction) => {
            RETAINED_CONTAINER_OVERHEAD_BYTES + opt_string_bytes(&compaction.id)
        },
        OutputItem::Unknown => RETAINED_CONTAINER_OVERHEAD_BYTES,
    }
}

/// The bytes that a response with this identifier and output is charged with.
///
/// The charge must fit the address space.
pub fn retained_response_parts_bytes(response_id: &str, output: &[OutputItem]) -> (n: usize)
    requires
        response_bytes(response_id@, output@) <= usize::MAX,
    ensures
        n == response_bytes(response_id@, output@),
{
    let mut bytes: usize = RETAINED_CONTAINER_OVERHEAD_BYTES + text::byte_len(response_id);
    let mut i: usize = 0;
    while i < output.len()
        invariant
            i <= output.len(),
            response_bytes(response_id@, output@) <= usize::MAX,
            bytes == response_bytes(response_id@, output@.take(i as int)),
        decreases output.len() - i,
    {
        proof {
            lemma_sum_prefix(output@, output_item_bytes(), i as int);
        }
        bytes = bytes + retained_output_item_bytes(&output[i]);
        i = i + 1;
    }
    assert(output@.take(i as int) =~= output@);
    bytes
}

/// The bytes that a whole response is charged with.
///
/// The charge must fit the address space.
pub fn retained_response_bytes(response: &ResponsePayload) -> (n: usize)
    requires
        response_bytes(response.id@, response.output@) <= usize::MAX,
    ensures
        n == response_bytes(response.id@, response.output@),
{
    retained_response_parts_bytes(response.id.as_str(), response.output.as_slice())
}

// ---------------------------------------------------------------------------
// Budget
// ---------------------------------------------------------------------------

/// What a budget of `limit` bytes has used after a request for `bytes` more: the
/// request is granted in full where it fits, and not at all where it does not.
pub open spec fn charged(limit: nat, used: nat, bytes: nat) -> nat {
    if used + bytes <= limit {
        used + bytes
    } else {
        used
    }
}

/// What a budget of `limit` bytes has used after a series of requests.
pub open spec fn charged_all(limit: nat, used: nat, requests: Seq<nat>) -> nat
    decreases requests.len(),
{
    if requests.len() == 0 {
        used
    } else {
        charged(limit, charged_all(limit, used, requests.drop_last()), requests.last())
    }
}

/// The bytes granted out of a series of requests: those of each request that fits
/// beside what is used before it.
pub open spec fn granted_bytes(limit: nat, used: nat, requests: Seq<nat>) -> nat
    decreases requests.len(),
{
    if requests.len() == 0 {
        0
    } else {
        granted_bytes(limit, used, requests.drop_last()) + if charged_all(limit, used, requests.drop_last())
            + requests.last() <= limit {
            requests.last()
        } else {
            0
        }
    }
}

/// Bytes used out of a limit.
pub struct ResponseLedger {
    limit: usize,
    used: usize,
}

impl ResponseLedger {
    /// The limit, which never changes.
    pub closed spec fn limit(self) -> nat {
        self.limit as nat
    }

    /// The bytes used so far.
    pub closed spec fn used_bytes(self) -> nat {
        self.used as nat
    }

    /// No more is used than the limit allows.
    pub open spec fn well_formed(self) -> bool {
        self.used_bytes() <= self.limit() <= usize::MAX
    }

    /// A ledger with nothing used.
    pub fn with_limit(limit: usize) -> (ledger: Self)
        ensures
            ledger.well_formed(),
            ledger.limit() == limit,
            ledger.used_bytes() == 0,
    {
        ResponseLedger { limit, used: 0 }
    }

    /// The bytes used so far.
    pub fn used(&self) -> (used: usize)
        ensures
            used == self.used_bytes(),
    {
        self.used
    }

    /// Charge `bytes`, or refuse and charge nothing where they do not fit.
    ///
    /// # Errors
    /// Names the limit when `bytes` more would exceed it.
    pub fn consume(&mut self, bytes: usize) -> (r: Result<(), ExecutorError>)
        requires
            old(self).well_formed(),
        ensures
            final(self).well_formed(),
            final(self).limit() == old(self).limit(),
            final(self).used_bytes() == charged(old(self).limit(), old(self).used_bytes(), bytes as nat),
            r is Ok <==> old(self).used_bytes() + bytes <= old(self).limit(),
            r matches Err(error) ==> (error matches ExecutorError::ResourceLimitExceeded { limit, max_bytes }
                && limit == ResourceLimit::ResponseBudget && max_bytes == old(self).limit()),
    {
        let exhausted: ExecutorError = ExecutorError::ResourceLimitExceeded {
            limit: ResourceLimit::ResponseBudget,
            max_bytes: self.limit,
        };
        match self.used.checked_add(bytes) {
            Some(next) => {
                if next > self.limit {
                    return Err(exhausted);
                }
                self.used = next;
                Ok(())
            },
            None => Err(exhausted),
        }
    }
}

/// What every state of a shared ledger satisfies.
pub struct LedgerInvariant {
    pub limit: nat,
}

impl RwLockPredicate<ResponseLedger> for LedgerInvariant {
    open spec fn inv(self, ledger: ResponseLedger) -> bool {
        ledger.well_formed() && ledger.limit() == self.limit
    }
}

/// A response budget that concurrent parts of the engine share: a clone draws on the
/// same ledger.
pub struct ExecutorResponseBudget {
    ledger: Arc<RwLock<ResponseLedger, LedgerInvariant>>,
}

/// A request for `bytes` takes a ledger from `before` to `after`: it is granted exactly
/// where it fits, charged in full where it is granted and not at all where it is not.
pub open spec fn is_charge(before: ResponseLedger, after: ResponseLedger, bytes: nat, granted: bool) -> bool {
    &&& before.well_formed()
    &&& after.well_formed()
    &&& after.limit() == before.limit()
    &&& after.used_bytes() == charged(before.limit(), before.used_bytes(), bytes)
    &&& granted <==> before.used_bytes() + bytes <= before.limit()
}

impl ExecutorResponseBudget {
    /// The limit, which never changes.
    pub closed spec fn limit(self) -> nat {
        self.ledger.pred().limit
    }

    /// The lock that the shared ledger is kept under.
    pub closed spec fn is_kept_under(self, lock: RwLock<ResponseLedger, LedgerInvariant>) -> bool {
        *self.ledger == lock
    }

    /// The shared ledger was opened with nothing used.
    pub closed spec fn opened_unused(self) -> bool {
        exists|opening: ResponseLedger, kept: Ghost<LedgerInvariant>| #[trigger]
            call_ensures(RwLock::<ResponseLedger, LedgerInvariant>::new, (opening, kept), *self.ledger)
                && opening.limit() == self.limit() && opening.used_bytes() == 0
    }

    /// The shared ledger, read at some moment, had this much used.
    pub closed spec fn was_seen_using(self, used: usize) -> bool {
        exists|held: ReadHandle<ResponseLedger, LedgerInvariant>| #[trigger]
            call_ensures(RwLock::<ResponseLedger, LedgerInvariant>::acquire_read, (&*self.ledger,), held)
                && held.view().used_bytes() == used
    }

    /// The shared ledger was taken, charged with a request for `bytes` and put back; the
    /// request was granted or not, as told.
    pub closed spec fn was_charged(self, bytes: usize, granted: bool) -> bool {
        exists|
            before: ResponseLedger,
            held: WriteHandle<ResponseLedger, LedgerInvariant>,
            after: ResponseLedger,
        |
            #[trigger] call_ensures(
                RwLock::<ResponseLedger, LedgerInvariant>::acquire_write,
                (&*self.ledger,),
                (before, held),
            ) && #[trigger] call_ensures(
                WriteHandle::<ResponseLedger, LedgerInvariant>::release_write,
                (held, after),
                (),
            ) && before.limit() == self.limit() && is_charge(before, after, bytes as nat, granted)
    }

    /// A budget of `limit` bytes, none of them used.
    pub fn with_limit(limit: usize) -> (budget: Self)
        ensures
            budget.limit() == limit,
            budget.opened_unused(),
    {
        let kept: Ghost<LedgerInvariant> = Ghost(LedgerInvariant { limit: limit as nat });
        let opening: ResponseLedger = ResponseLedger::with_limit(limit);
        let ghost opened = opening;
        let ledger: RwLock<ResponseLedger, LedgerInvariant> = RwLock::new(opening, kept);
        let budget: ExecutorResponseBudget = ExecutorResponseBudget { ledger: Arc::new(ledger) };
        assert(call_ensures(RwLock::<ResponseLedger, LedgerInvariant>::new, (opened, kept), *budget.ledger)
            && opened.limit() == budget.limit() && opened.used_bytes() == 0);
        budget
    }

    /// The bytes used at some moment of the call.
    pub fn used(&self) -> (used: usize)
        ensures
            self.was_seen_using(used),
            used <= self.limit(),
    {
        let handle = self.ledger.acquire_read();
        assert(call_ensures(RwLock::<ResponseLedger, LedgerInvariant>::acquire_read, (&*self.ledger,), handle));
        let used: usize = handle.borrow().used();
        handle.release_read();
        used
    }

    /// Charge `bytes` to the shared ledger, or refuse and charge nothing where they do
    /// not fit beside what is used by then; see [`ResponseLedger::consume`].
    ///
    /// # Errors
    /// Names the limit when `bytes` more would exceed it.
    pub fn consume(&self, bytes: usize) -> (r: Result<(), ExecutorError>)
        ensures
            self.was_charged(bytes, r is Ok),
            bytes == 0 ==> r is Ok,
            bytes > self.limit() ==> r is Err,
            r matches Err(error) ==> (error matches ExecutorError::ResourceLimitExceeded { limit, max_bytes }
                && limit == ResourceLimit::ResponseBudget && max_bytes == self.limit()),
    {
        let (mut ledger, handle) = self.ledger.acquire_write();
        let ghost before = ledger;
        let ghost held = handle;
        assert(call_ensures(
            RwLock::<ResponseLedger, LedgerInvariant>::acquire_write,
            (&*self.ledger,),
            (before, held),
        ));
        let r: Result<(), ExecutorError> = ledger.consume(bytes);
        let ghost after = ledger;
        handle.release_write(ledger);
        assert(call_ensures(WriteHandle::<ResponseLedger, LedgerInvariant>::release_write, (held, after), ()));
        r
    }
}

impl Clone for ExecutorResponseBudget {
    fn clone(&self) -> (copy: Self)
        ensures
            copy == *self,
    {
        ExecutorResponseBudget { ledger: Arc::clone(&self.ledger) }
    }
}

// ---------------------------------------------------------------------------
// Laws
// ---------------------------------------------------------------------------

/// Every item carries a structural charge, whatever it holds, and so does the
/// response itself: an output of many empty items is never free.
pub proof fn law_every_item_is_charged(response_id: Seq<char>, output: Seq<OutputItem>)
    ensures
        forall|i: int| 0 <= i < output.len() ==> item_bytes(#[trigger] output[i]) >= overhead(),
        response_bytes(response_id, output) >= overhead() * (output.len() + 1),
    decreases output.len(),
{
    assert(overhead() == 32);
    if output.len() > 0 {
        law_every_item_is_charged(response_id, output.drop_last());
        assert(item_bytes(output.last()) >= overhead());
    }
}

/// Every part of a reasoning item carries a structural charge, an empty part too.
pub proof fn law_every_reasoning_part_is_charged(reasoning: ReasoningOutput)
    ensures
        item_bytes(OutputItem::Reasoning(reasoning)) >= overhead() * (1 + reasoning.content@.len()
            + reasoning.summary@.len()),
{
    assert(overhead() == 32);
    lemma_sum_of_charges(reasoning.content@, reasoning_part_bytes());
    lemma_sum_of_charges(reasoning.summary@, summary_part_bytes());
}

proof fn lemma_sum_of_charges<T>(items: Seq<T>, weight: spec_fn(T) -> nat)
    requires
        forall|item: T| #[trigger] weight(item) >= overhead(),
    ensures
        sum(items, weight) >= overhead() * items.len(),
    decreases items.len(),
{
    assert(overhead() == 32);
    if items.len() > 0 {
        lemma_sum_of_charges(items.drop_last(), weight);
    }
}

/// Appending output adds exactly the charges of the appended items.
pub proof fn law_appended_output_adds_its_own_charges(
    response_id: Seq<char>,
    output: Seq<OutputItem>,
    more: Seq<OutputItem>,
)
    ensures
        response_bytes(response_id, output + more) == response_bytes(response_id, output) + sum(
            more,
            output_item_bytes(),
        ),
    decreases more.len(),
{
    if more.len() == 0 {
        assert(output + more =~= output);
    } else {
        assert((output + more).drop_last() =~= output + more.drop_last());
        law_appended_output_adds_its_own_charges(response_id, output, more.drop_last());
    }
}

/// A budget that starts within its limit stays within it under any series of
/// requests, and what was granted is never given back.
pub proof fn law_budget_is_never_exceeded(limit: nat, used: nat, requests: Seq<nat>)
    requires
        used <= limit,
    ensures
        used <= charged_all(limit, used, requests) <= limit,
    decreases requests.len(),
{
    if requests.len() > 0 {
        law_budget_is_never_exceeded(limit, used, requests.drop_last());
    }
}

/// What is used is what was used at first and every request granted since, and no
/// request that was not.
pub proof fn law_used_bytes_are_the_granted_bytes(limit: nat, used: nat, requests: Seq<nat>)
    ensures
        charged_all(limit, used, requests) == used + granted_bytes(limit, used, requests),
    decreases requests.len(),
{
    if requests.len() > 0 {
        law_used_bytes_are_the_granted_bytes(limit, used, requests.drop_last());
    }
}

/// The bytes of the requests that were granted.
pub open spec fn sum_of_granted(requests: Seq<nat>, granted: Seq<bool>) -> nat
    decreases requests.len(),
{
    if requests.len() == 0 {
        0
    } else {
        sum_of_granted(requests.drop_last(), granted.drop_last()) + if granted.last() {
            requests.last()
        } else {
            0
        }
    }
}

/// Whoever makes the requests, through whichever clone and however they interleave: a
/// ledger that starts unused and goes from hand to hand, one charge at a time, has at
/// every moment used exactly the requests granted by then, never more than its limit,
/// and never less than before.
pub proof fn law_interleaved_charges_add_up(states: Seq<ResponseLedger>, requests: Seq<nat>, granted: Seq<bool>)
    requires
        states.len() == requests.len() + 1,
        granted.len() == requests.len(),
        states[0].well_formed(),
        states[0].used_bytes() == 0,
        forall|i: int|
            0 <= i < requests.len() ==> is_charge(states[i], states[i + 1], #[trigger] requests[i], granted[i]),
    ensures
        states.last().used_bytes() == sum_of_granted(requests, granted),
        states.last().limit() == states[0].limit(),
        states.last().used_bytes() <= states[0].limit(),
        forall|i: int|
            0 <= i < states.len() ==> (#[trigger] states[i]).used_bytes() <= states.last().used_bytes(),
    decreases requests.len(),
{
    if requests.len() > 0 {
        let states_before = states.drop_last();
        let requests_before = requests.drop_last();
        let granted_before = granted.drop_last();
        let last = requests.len() - 1;
        assert forall|i: int| 0 <= i < requests_before.len() implies is_charge(
            states_before[i],
            states_before[i + 1],
            #[trigger] requests_before[i],
            granted_before[i],
        ) by {
            assert(requests_before[i] == requests[i]);
        }
        law_interleaved_charges_add_up(states_before, requests_before, granted_before);
        assert(is_charge(states[last], states[last + 1], requests[last], granted[last]));
        assert(states_before.last() == states[last]);
        assert forall|i: int| 0 <= i < states.len() implies (#[trigger] states[i]).used_bytes()
            <= states.last().used_bytes() by {
            if i < states_before.len() {
                assert(states_before[i] == states[i]);
            }
        }
    }
}

/// A request to a shared budget is one charge of a ledger with the budget's limit.
pub proof fn law_shared_requests_are_ledger_charges(budget: ExecutorResponseBudget, bytes: usize, granted: bool)
    requires
        budget.was_charged(bytes, granted),
    ensures
        exists|before: ResponseLedger, after: ResponseLedger| #[trigger]
            is_charge(before, after, bytes as nat, granted) && before.limit() == budget.limit(),
{
}

/// A clone is the same budget: what is true of a call through one is true of it through
/// the other, and they have one limit.
pub proof fn law_clones_are_one_budget(
    one: ExecutorResponseBudget,
    clone: ExecutorResponseBudget,
    used: usize,
    bytes: usize,
    granted: bool,
)
    requires
        call_ensures(ExecutorResponseBudget::clone, (&one,), clone),
    ensures
        one.limit() == clone.limit(),
        one.opened_unused() == clone.opened_unused(),
        one.was_seen_using(used) == clone.was_seen_using(used),
        one.was_charged(bytes, granted) == clone.was_charged(bytes, granted),
{
}

/// A series of requests that fits in total is granted in full, request by request.
pub proof fn law_requests_that_fit_are_all_granted(limit: nat, used: nat, requests: Seq<nat>)
    requires
        used + sum(requests, |bytes: nat| bytes) <= limit,
    ensures
        charged_all(limit, used, requests) == used + sum(requests, |bytes: nat| bytes),
    decreases requests.len(),
{
    if requests.len() > 0 {
        law_requests_that_fit_are_all_granted(limit, used, requests.drop_last());
    }
}

/// Bytes of a text as the laws below count them.
pub open spec fn bytes_of(text: String) -> nat {
    vstd::utf8::encode_utf8(text@).len()
}

/// Bytes of an optional text as the laws below count them: none for none.
pub open spec fn bytes_if_any(text: Option<String>) -> nat {
    match text {
        Some(text) => bytes_of(text),
        None => 0,
    }
}

/// An item without lists is charged its structure and every text that it holds, once.
pub proof fn law_plain_items_are_charged_their_texts(
    function: FunctionToolCall,
    custom: CustomToolCall,
    compaction: Compaction,
)
    ensures
        item_bytes(OutputItem::FunctionCall(function)) == 32 + bytes_of(function.id) + bytes_of(function.call_id)
            + bytes_of(function.name) + bytes_of(function.arguments),
        item_bytes(OutputItem::CustomToolCall(custom)) == 32 + bytes_of(custom.id) + bytes_of(custom.call_id)
            + bytes_of(custom.name) + bytes_of(custom.input),
        item_bytes(OutputItem::Compaction(compaction)) == 32 + bytes_if_any(compaction.id),
        item_bytes(OutputItem::Unknown) == 32,
{
}

/// A tool listing without tools is charged its structure, its identifier, its label and
/// its error; one more tool raises the charge by exactly a structural charge, the tool's
/// name and description, and the estimate of its schema, however many came before.
pub proof fn law_every_listed_tool_is_charged(list: McpListTools, longer: McpListTools, tool: McpListTool)
    requires
        longer.tools@ == list.tools@.push(tool),
        longer.id@ == list.id@,
        longer.server_label@ == list.server_label@,
        bytes_if_any(longer.error) == bytes_if_any(list.error),
    ensures
        list.tools@.len() == 0 ==> item_bytes(OutputItem::McpListTools(list)) == 32 + bytes_of(list.id) + bytes_of(
            list.server_label,
        ) + bytes_if_any(list.error),
        item_bytes(OutputItem::McpListTools(longer)) == item_bytes(OutputItem::McpListTools(list)) + 32 + bytes_of(
            tool.name,
        ) + bytes_if_any(tool.description) + json::json_bytes(tool.input_schema),
        item_bytes(OutputItem::McpListTools(list)) >= 32 * (1 + list.tools@.len()),
{
    assert(longer.tools@.drop_last() =~= list.tools@);
    lemma_sum_of_charges(list.tools@, listed_tool_bytes());
}

/// Two measurements, of a tool listing and of the same listing with one more tool, differ
/// by exactly what that tool retains, and neither falls below a structural charge for the
/// listing and one for each of its tools.
pub proof fn law_measured_listings_count_every_tool(
    list: McpListTools,
    longer: McpListTools,
    tool: McpListTool,
    measured: usize,
    measured_longer: usize,
)
    requires
        longer.tools@ == list.tools@.push(tool),
        longer.id@ == list.id@,
        longer.server_label@ == list.server_label@,
        bytes_if_any(longer.error) == bytes_if_any(list.error),
        call_ensures(retained_output_item_bytes, (&OutputItem::McpListTools(list),), measured),
        call_ensures(retained_output_item_bytes, (&OutputItem::McpListTools(longer),), measured_longer),
    ensures
        measured_longer == measured + 32 + bytes_of(tool.name) + bytes_if_any(tool.description) + json::json_bytes(
            tool.input_schema,
        ),
        measured >= 32 * (1 + list.tools@.len()),
        measured_longer >= 32 * (1 + longer.tools@.len()),
{
    law_every_listed_tool_is_charged(list, longer, tool);
}

/// What is measured is what is charged: an item by itself, and a response by its
/// identifier and its items, whether handed over whole or in parts.
pub proof fn law_measurements_are_the_charges(
    item: OutputItem,
    item_measured: usize,
    response: ResponsePayload,
    whole: usize,
    response_id: &str,
    output: &[OutputItem],
    in_parts: usize,
)
    requires
        call_ensures(retained_output_item_bytes, (&item,), item_measured),
        call_ensures(retained_response_bytes, (&response,), whole),
        call_ensures(retained_response_parts_bytes, (response_id, output), in_parts),
    ensures
        item_measured == item_bytes(item),
        whole == response_bytes(response.id@, response.output@),
        in_parts == response_bytes(response_id@, output@),
{
}

/// A message without parts is charged its structure and identifier; one more part
/// raises the charge by exactly a structural charge and the part's text.
pub proof fn law_every_message_part_is_charged(
    message: OutputMessage,
    longer: OutputMessage,
    part: OutputTextContent,
)
    requires
        longer.content@ == message.content@.push(part),
        longer.id@ == message.id@,
    ensures
        message.content@.len() == 0 ==> item_bytes(OutputItem::Message(message)) == 32 + bytes_of(message.id),
        item_bytes(OutputItem::Message(longer)) == item_bytes(OutputItem::Message(message)) + 32 + bytes_of(part.text),
{
    assert(longer.content@.drop_last() =~= message.content@);
}

/// A shell call without commands is charged its structure and identifiers; one more
/// command raises the charge by exactly a structural charge and the command.
pub proof fn law_every_shell_command_is_charged(call: ShellCall, longer: ShellCall, command: String)
    requires
        longer.action.commands@ == call.action.commands@.push(command),
        longer.call_id@ == call.call_id@,
        bytes_if_any(longer.id) == bytes_if_any(call.id),
    ensures
        call.action.commands@.len() == 0 ==> item_bytes(OutputItem::ShellCall(call)) == 32 + bytes_if_any(call.id)
            + bytes_of(call.call_id),
        item_bytes(OutputItem::ShellCall(longer)) == item_bytes(OutputItem::ShellCall(call)) + 32 + bytes_of(command),
{
    assert(longer.action.commands@.drop_last() =~= call.action.commands@);
}

/// Reasoning without parts is charged its structure, its identifier and the estimate of
/// its opaque state; one more plaintext part raises the charge by exactly a structural
/// charge and the part's text, whatever else the item holds.
pub proof fn law_every_plaintext_part_is_charged(
    reasoning: ReasoningOutput,
    longer: ReasoningOutput,
    part: ReasoningTextContent,
)
    requires
        longer == (ReasoningOutput { content: longer.content, ..reasoning }),
        longer.content@ == reasoning.content@.push(part),
    ensures
        reasoning.content@.len() == 0 && reasoning.summary@.len() == 0 ==> item_bytes(OutputItem::Reasoning(reasoning))
            == 32 + bytes_of(reasoning.id) + match reasoning.encrypted_content {
            Some(state) => json::json_bytes(state),
            None => 0,
        },
        item_bytes(OutputItem::Reasoning(longer)) == item_bytes(OutputItem::Reasoning(reasoning)) + 32 + bytes_of(
            part.text,
        ),
{
    assert(longer.content@.drop_last() =~= reasoning.content@);
}

/// One more summary part raises the charge of reasoning by exactly a structural charge
/// and, where the part is an object with a string under `text`, that string.
pub proof fn law_every_summary_part_is_charged(
    reasoning: ReasoningOutput,
    longer: ReasoningOutput,
    part: JsonValue,
)
    requires
        longer == (ReasoningOutput { summary: longer.summary, ..reasoning }),
        longer.summary@ == reasoning.summary@.push(part),
    ensures
        item_bytes(OutputItem::Reasoning(longer)) == item_bytes(OutputItem::Reasoning(reasoning)) + 32 + match json::held(
            part@,
            "text"@,
        ) {
            Some(json::Json::Text(text)) => vstd::utf8::encode_utf8(text).len(),
            _ => 0,
        },
{
    assert(longer.summary@.drop_last() =~= reasoning.summary@);
}

/// The arguments of a tool search count by their text: a string by its length, an
/// object by each name and each value, anything else and any value that is no string by
/// a fixed charge.
pub proof fn law_tool_search_arguments_are_charged(
    call: ToolSearchCall,
    longer: ToolSearchCall,
    members: Vec<(String, JsonValue)>,
    more: Vec<(String, JsonValue)>,
    name: String,
    value: JsonValue,
)
    requires
        longer.id@ == call.id@,
        longer.call_id@ == call.call_id@,
        more@ == members@.push((name, value)),
    ensures
        call.arguments matches JsonValue::Text(query) ==> item_bytes(OutputItem::ToolSearchCall(call)) == 32 + bytes_of(
            call.id,
        ) + bytes_of(call.call_id) + bytes_of(query),
        !(call.arguments is Text) && !(call.arguments is Object) ==> item_bytes(OutputItem::ToolSearchCall(call)) == 32
            + bytes_of(call.id) + bytes_of(call.call_id) + 32,
        call.arguments == JsonValue::Object(members) && members@.len() == 0 ==> item_bytes(
            OutputItem::ToolSearchCall(call),
        ) == 32 + bytes_of(call.id) + bytes_of(call.call_id),
        call.arguments == JsonValue::Object(members) && longer.arguments == JsonValue::Object(more) ==> item_bytes(
            OutputItem::ToolSearchCall(longer),
        ) == item_bytes(OutputItem::ToolSearchCall(call)) + bytes_of(name) + match value {
            JsonValue::Text(text) => bytes_of(text),
            _ => 32,
        },
{
    assert(more@.drop_last() =~= members@);
}

/// A web search is charged its structure, its identifier and what it looks for: every
/// query of a batch, the page, or the pattern and the page.
pub proof fn law_web_search_actions_are_charged(
    call: WebSearchCall,
    longer: WebSearchCall,
    queries: WebSearchActionSearch,
    more: WebSearchActionSearch,
    query: String,
)
    requires
        longer.id@ == call.id@,
        more.queries@ == queries.queries@.push(query),
    ensures
        call.action == WebSearchAction::Search(queries) && queries.queries@.len() == 0 ==> item_bytes(
            OutputItem::WebSearchCall(call),
        ) == 32 + bytes_of(call.id),
        call.action == WebSearchAction::Search(queries) && longer.action == WebSearchAction::Search(more) ==> item_bytes(
            OutputItem::WebSearchCall(longer),
        ) == item_bytes(OutputItem::WebSearchCall(call)) + bytes_of(query),
        call.action matches WebSearchAction::OpenPage(page) ==> item_bytes(OutputItem::WebSearchCall(call)) == 32
            + bytes_of(call.id) + bytes_if_any(page.url),
        call.action matches WebSearchAction::FindInPage(find) ==> item_bytes(OutputItem::WebSearchCall(call)) == 32
            + bytes_of(call.id) + bytes_of(find.pattern) + bytes_of(find.url),
{
    assert(more.queries@.drop_last() =~= queries.queries@);
}

/// An MCP call is charged its structure, every text that it holds, and its failure: a
/// text by its length, a failed execution by every part of it, any other by its
/// estimate.
pub proof fn law_mcp_calls_are_charged(
    call: McpCall,
    longer: McpCall,
    failure: McpToolExecutionError,
    more: McpToolExecutionError,
    part: McpToolErrorContent,
)
    requires
        longer == (McpCall { error: longer.error, ..call }),
        more.content@ == failure.content@.push(part),
    ensures
        ({
            let texts = 32 + bytes_of(call.id) + bytes_of(call.server_label) + bytes_of(call.name) + bytes_of(
                call.arguments,
            ) + bytes_if_any(call.output);
            &&& call.error is None ==> item_bytes(OutputItem::McpCall(call)) == texts
            &&& call.error matches Some(McpCallError::Text(text)) ==> item_bytes(OutputItem::McpCall(call)) == texts
                + bytes_of(text)
            &&& call.error matches Some(McpCallError::Unknown(value)) ==> item_bytes(OutputItem::McpCall(call))
                == texts + json::json_bytes(value)
            &&& call.error == Some(McpCallError::ToolExecution(failure)) && failure.content@.len() == 0 ==> item_bytes(
                OutputItem::McpCall(call),
            ) == texts
        }),
        call.error == Some(McpCallError::ToolExecution(failure)) && longer.error == Some(
            McpCallError::ToolExecution(more),
        ) ==> item_bytes(OutputItem::McpCall(longer)) == item_bytes(OutputItem::McpCall(call)) + bytes_of(part.text),
{
    assert(more.content@.drop_last() =~= failure.content@);
}

/// A response without output is charged its structure and its identifier; one more item
/// raises the charge by exactly that item's.
pub proof fn law_every_output_item_adds_its_charge(response_id: Seq<char>, output: Seq<OutputItem>, item: OutputItem)
    ensures
        response_bytes(response_id, Seq::empty()) == 32 + vstd::utf8::encode_utf8(response_id).len(),
        response_bytes(response_id, output.push(item)) == response_bytes(response_id, output) + item_bytes(item),
{
    assert(output.push(item).drop_last() =~= output);
}

/// One request to a budget: granted and charged in full where it fits, refused and not
/// charged at all where it does not, with no third outcome.
pub proof fn law_requests_are_charged_whole_or_not_at_all(
    before: ResponseLedger,
    after: ResponseLedger,
    bytes: nat,
    granted: bool,
)
    requires
        is_charge(before, after, bytes, granted),
    ensures
        granted ==> after.used_bytes() == before.used_bytes() + bytes && after.used_bytes() <= before.limit(),
        !granted ==> after.used_bytes() == before.used_bytes() && before.used_bytes() + bytes > before.limit(),
        after.limit() == before.limit(),
{
}

/// A ledger opens with its whole limit unused; a request that fits is granted and charged
/// in full, and one that does not is refused with the limit named and charged not at all.
pub proof fn law_ledgers_grant_what_fits(
    limit: usize,
    opened: ResponseLedger,
    ledger: &mut ResponseLedger,
    bytes: usize,
    r: Result<(), ExecutorError>,
    used: usize,
)
    requires
        call_ensures(ResponseLedger::with_limit, (limit,), opened),
        call_ensures(ResponseLedger::consume, (ledger, bytes), r),
        call_ensures(ResponseLedger::used, (&*final(ledger),), used),
    ensures
        opened.limit() == limit && opened.used_bytes() == 0,
        final(ledger).limit() == old(ledger).limit(),
        r is Ok <==> old(ledger).used_bytes() + bytes <= old(ledger).limit(),
        r is Ok ==> used == old(ledger).used_bytes() + bytes,
        r is Err ==> used == old(ledger).used_bytes(),
        r matches Err(error) ==> (error matches ExecutorError::ResourceLimitExceeded { limit, max_bytes } && (limit
            is ResponseBudget && max_bytes == old(ledger).limit())),
{
}

/// A shared budget opens unused under its one lock, is read under that lock, and is
/// charged under it: what is returned of a request says whether the ledger that was taken
/// had room for it, and the ledger that is put back has it charged in full or not at all.
pub proof fn law_shared_budgets_go_through_their_lock(
    limit: usize,
    opened: ExecutorResponseBudget,
    budget: ExecutorResponseBudget,
    lock: RwLock<ResponseLedger, LedgerInvariant>,
    bytes: usize,
    r: Result<(), ExecutorError>,
    used: usize,
)
    requires
        call_ensures(ExecutorResponseBudget::with_limit, (limit,), opened),
        budget.is_kept_under(lock),
        call_ensures(ExecutorResponseBudget::consume, (&budget, bytes), r),
        call_ensures(ExecutorResponseBudget::used, (&budget,), used),
    ensures
        opened.limit() == limit,
        exists|fresh: RwLock<ResponseLedger, LedgerInvariant>, opening: ResponseLedger, kept: Ghost<LedgerInvariant>|
            {
                &&& opened.is_kept_under(fresh)
                &&& #[trigger] call_ensures(RwLock::<ResponseLedger, LedgerInvariant>::new, (opening, kept), fresh)
                &&& opening.limit() == limit
                &&& opening.used_bytes() == 0
            },
        exists|held: ReadHandle<ResponseLedger, LedgerInvariant>|
            {
                &&& #[trigger] call_ensures(RwLock::<ResponseLedger, LedgerInvariant>::acquire_read, (&lock,), held)
                &&& held.view().used_bytes() == used
            },
        exists|
            before: ResponseLedger,
            held: WriteHandle<ResponseLedger, LedgerInvariant>,
            after: ResponseLedger,
        |
            {
                &&& #[trigger] call_ensures(
                    RwLock::<ResponseLedger, LedgerInvariant>::acquire_write,
                    (&lock,),
                    (before, held),
                )
                &&& #[trigger] call_ensures(
                    WriteHandle::<ResponseLedger, LedgerInvariant>::release_write,
                    (held, after),
                    (),
                )
                &&& before.limit() == budget.limit()
                &&& after.limit() == budget.limit()
                &&& r is Ok <==> before.used_bytes() + bytes <= budget.limit()
                &&& r is Ok ==> after.used_bytes() == before.used_bytes() + bytes
                &&& r is Err ==> after.used_bytes() == before.used_bytes()
            },
        used <= budget.limit(),
        r matches Err(error) ==> (error matches ExecutorError::ResourceLimitExceeded { limit, max_bytes } && (limit
            is ResponseBudget && max_bytes == budget.limit())),
        bytes == 0 ==> r is Ok,
        bytes > budget.limit() ==> r is Err,
{
    assert(opened.is_kept_under(*opened.ledger));
    let (opening, kept) = choose|opening: ResponseLedger, kept: Ghost<LedgerInvariant>| #[trigger]
        call_ensures(RwLock::<ResponseLedger, LedgerInvariant>::new, (opening, kept), *opened.ledger)
            && opening.limit() == opened.limit() && opening.used_bytes() == 0;
    assert(call_ensures(RwLock::<ResponseLedger, LedgerInvariant>::new, (opening, kept), *opened.ledger));
}

/// A clone of a budget is kept under the same lock.
pub proof fn law_clones_share_their_lock(
    one: ExecutorResponseBudget,
    clone: ExecutorResponseBudget,
    lock: RwLock<ResponseLedger, LedgerInvariant>,
)
    requires
        call_ensures(ExecutorResponseBudget::clone, (&one,), clone),
    ensures
        one.is_kept_under(lock) <==> clone.is_kept_under(lock),
{
}

} // verus!
