use agentic_server::executor::error::{ExecutorError, ResourceLimit};
use agentic_server::executor::response_budget::{
    retained_output_item_bytes, retained_response_bytes, retained_response_parts_bytes, ExecutorResponseBudget,
    ResponseLedger,
};
use agentic_server::json::{estimate_json_value_bytes, JsonValue, RETAINED_CONTAINER_OVERHEAD_BYTES};
use agentic_server::types::io::{
    Compaction, CustomToolCall, FunctionToolCall, McpCall, McpCallError, McpListTool, McpListTools,
    McpToolErrorContent, McpToolExecutionError, OutputItem, OutputMessage, OutputTextContent, ReasoningOutput,
    ReasoningTextContent, ResponsePayload, ShellAction, ShellCall, ToolSearchCall, WebSearchAction,
    WebSearchActionFindInPage, WebSearchActionOpenPage, WebSearchActionSearch, WebSearchCall,
};

fn text(value: &str) -> JsonValue {
    JsonValue::Text(value.to_owned())
}

fn object(members: Vec<(&str, JsonValue)>) -> JsonValue {
    JsonValue::Object(members.into_iter().map(|(name, value)| (name.to_owned(), value)).collect())
}

fn payload(id: &str, output: Vec<OutputItem>) -> ResponsePayload {
    ResponsePayload {
        id: id.to_owned(),
        object: "response".to_owned(),
        created_at: 1000,
        model: "test".to_owned(),
        status: "completed".to_owned(),
        output,
        usage: None,
        incomplete_details: None,
        error: None,
        previous_response_id: None,
        conversation_id: None,
        instructions: None,
        tools: None,
        tool_choice: None,
    }
}

#[test]
fn retained_response_bytes_accounts_for_id_and_items() {
    let payload = payload("resp_test", vec![OutputItem::Unknown]);
    let expected = RETAINED_CONTAINER_OVERHEAD_BYTES + "resp_test".len() + RETAINED_CONTAINER_OVERHEAD_BYTES;
    assert_eq!(retained_response_bytes(&payload), expected);
    assert_eq!(retained_response_parts_bytes(&payload.id, &payload.output), expected);
}

#[test]
fn retained_accounting_for_web_search_mcp_and_reasoning() {
    // WebSearchCall Search
    let ws_search = OutputItem::WebSearchCall(WebSearchCall {
        id: "ws_1".to_owned(),
        status: "completed".to_owned(),
        action: WebSearchAction::Search(WebSearchActionSearch {
            queries: vec!["query1".to_owned(), "q2".to_owned()],
        }),
    });
    assert_eq!(
        retained_output_item_bytes(&ws_search),
        RETAINED_CONTAINER_OVERHEAD_BYTES + "ws_1".len() + ("query1".len() + "q2".len())
    );

    // WebSearchCall OpenPage
    let ws_open = OutputItem::WebSearchCall(WebSearchCall {
        id: "ws_2".to_owned(),
        status: "completed".to_owned(),
        action: WebSearchAction::OpenPage(WebSearchActionOpenPage {
            url: Some("https://example.com".to_owned()),
        }),
    });
    assert_eq!(
        retained_output_item_bytes(&ws_open),
        RETAINED_CONTAINER_OVERHEAD_BYTES + "ws_2".len() + "https://example.com".len()
    );

    // McpCall with output and text error
    let mcp_call = OutputItem::McpCall(McpCall {
        id: "mcp_1".to_owned(),
        server_label: "srv".to_owned(),
        name: "tool1".to_owned(),
        arguments: "{}".to_owned(),
        status: Some("completed".to_owned()),
        approval_request_id: None,
        output: Some("result_output".to_owned()),
        error: Some(McpCallError::Text("error_msg".to_owned())),
    });
    assert_eq!(
        retained_output_item_bytes(&mcp_call),
        RETAINED_CONTAINER_OVERHEAD_BYTES
            + "mcp_1".len()
            + "srv".len()
            + "tool1".len()
            + "{}".len()
            + "result_output".len()
            + "error_msg".len()
    );

    // McpListTools
    let mcp_list = OutputItem::McpListTools(McpListTools {
        id: "list_1".to_owned(),
        server_label: "srv".to_owned(),
        tools: vec![McpListTool {
            name: "test_tool".to_owned(),
            description: Some("a tool".to_owned()),
            input_schema: object(vec![("type", text("object")), ("prop", text("val"))]),
            annotations: None,
        }],
        error: Some("list_err".to_owned()),
    });
    assert!(retained_output_item_bytes(&mcp_list) > RETAINED_CONTAINER_OVERHEAD_BYTES + "list_1".len());

    // Reasoning with encrypted content
    let reasoning = OutputItem::Reasoning(ReasoningOutput {
        id: "rs_1".to_owned(),
        status: Some("completed".to_owned()),
        content: vec![ReasoningTextContent::new("thought")],
        summary: vec![],
        encrypted_content: Some(text("encrypted_blob")),
        replay_provenance: None,
    });
    assert_eq!(
        retained_output_item_bytes(&reasoning),
        RETAINED_CONTAINER_OVERHEAD_BYTES
            + "rs_1".len()
            + "encrypted_blob".len()
            + RETAINED_CONTAINER_OVERHEAD_BYTES
            + "thought".len()
    );
}

#[test]
fn listed_tools_are_charged_exactly() {
    let list = OutputItem::McpListTools(McpListTools {
        id: "list_1".to_owned(),
        server_label: "srv".to_owned(),
        tools: vec![McpListTool {
            name: "test_tool".to_owned(),
            description: Some("a tool".to_owned()),
            input_schema: object(vec![("type", text("object")), ("prop", text("val"))]),
            annotations: None,
        }],
        error: Some("list_err".to_owned()),
    });
    // The list, its tool and the schema each carry a structural charge of 32.
    assert_eq!(
        retained_output_item_bytes(&list),
        32 + 6 + 3 + 8 + (32 + 9 + 6 + (4 + 6 + 4 + 3 + 32))
    );
}

#[test]
fn calls_and_messages_are_charged_exactly() {
    let message = OutputItem::Message(OutputMessage {
        id: "msg".to_owned(),
        content: vec![
            OutputTextContent { text: "ab".to_owned() },
            OutputTextContent { text: "\u{e9}".to_owned() },
        ],
    });
    assert_eq!(retained_output_item_bytes(&message), 32 + 3 + (32 + 2) + (32 + 2));

    let function = OutputItem::FunctionCall(FunctionToolCall {
        id: "f".to_owned(),
        call_id: "cc".to_owned(),
        name: "nnn".to_owned(),
        arguments: "{}".to_owned(),
    });
    assert_eq!(retained_output_item_bytes(&function), 32 + 1 + 2 + 3 + 2);

    let custom = OutputItem::CustomToolCall(CustomToolCall {
        id: "f".to_owned(),
        call_id: "cc".to_owned(),
        name: "nnn".to_owned(),
        input: "four".to_owned(),
    });
    assert_eq!(retained_output_item_bytes(&custom), 32 + 1 + 2 + 3 + 4);

    let shell = OutputItem::ShellCall(ShellCall {
        id: None,
        call_id: "cc".to_owned(),
        action: ShellAction {
            commands: vec!["ls".to_owned(), "pwd".to_owned()],
        },
    });
    assert_eq!(retained_output_item_bytes(&shell), 32 + 2 + (32 + 2) + (32 + 3));

    assert_eq!(
        retained_output_item_bytes(&OutputItem::Compaction(Compaction {
            id: Some("cmp".to_owned())
        })),
        32 + 3
    );
}

#[test]
fn tool_search_page_search_and_tool_errors_are_charged() {
    let search = |arguments: JsonValue| {
        retained_output_item_bytes(&OutputItem::ToolSearchCall(ToolSearchCall {
            id: "t".to_owned(),
            call_id: "cc".to_owned(),
            arguments,
        }))
    };
    assert_eq!(search(JsonValue::Null), 32 + 1 + 2 + 32);
    assert_eq!(search(text("query")), 32 + 1 + 2 + 5);
    assert_eq!(
        search(object(vec![("q", text("abc")), ("limit", JsonValue::Bool(true))])),
        32 + 1 + 2 + (1 + 3) + (5 + 32)
    );

    let find = OutputItem::WebSearchCall(WebSearchCall {
        id: "w".to_owned(),
        status: "completed".to_owned(),
        action: WebSearchAction::FindInPage(WebSearchActionFindInPage {
            pattern: "pat".to_owned(),
            url: "https://x".to_owned(),
        }),
    });
    assert_eq!(retained_output_item_bytes(&find), 32 + 1 + 3 + 9);

    let failed = |error: McpCallError| {
        retained_output_item_bytes(&OutputItem::McpCall(McpCall {
            id: String::new(),
            server_label: String::new(),
            name: String::new(),
            arguments: String::new(),
            status: None,
            approval_request_id: None,
            output: None,
            error: Some(error),
        }))
    };
    assert_eq!(
        failed(McpCallError::ToolExecution(McpToolExecutionError {
            content: vec![
                McpToolErrorContent { text: "boom".to_owned() },
                McpToolErrorContent { text: "no".to_owned() },
            ],
        })),
        32 + 4 + 2
    );
    assert_eq!(failed(McpCallError::Unknown(text("boom"))), 32 + 4);
}

#[test]
fn summary_parts_are_charged_for_their_text() {
    let reasoning = OutputItem::Reasoning(ReasoningOutput {
        id: String::new(),
        status: None,
        content: vec![],
        summary: vec![
            object(vec![("type", text("summary_text")), ("text", text("short"))]),
            object(vec![("text", JsonValue::Null)]),
            JsonValue::Null,
        ],
        encrypted_content: None,
        replay_provenance: None,
    });
    assert_eq!(retained_output_item_bytes(&reasoning), 32 + (32 + 5) + 32 + 32);
}

#[test]
fn json_estimates_follow_the_formula() {
    assert_eq!(estimate_json_value_bytes(&JsonValue::Null), 4);
    assert_eq!(estimate_json_value_bytes(&JsonValue::Bool(true)), 5);
    assert_eq!(estimate_json_value_bytes(&JsonValue::Number("123456789".to_owned())), 8);
    assert_eq!(estimate_json_value_bytes(&text("\u{e9}\u{1f600}")), 2 + 4);
    assert_eq!(
        estimate_json_value_bytes(&JsonValue::Array(vec![JsonValue::Null, JsonValue::Bool(false)])),
        4 + 5 + 32
    );
    assert_eq!(
        estimate_json_value_bytes(&object(vec![("ab", JsonValue::Array(vec![])), ("c", text("d"))])),
        (2 + 32) + (1 + 1) + 32
    );
}

#[test]
fn appended_output_adds_its_own_charges() {
    let alone = retained_response_parts_bytes("resp", &[OutputItem::Unknown]);
    let more = [OutputItem::Unknown, OutputItem::Unknown, OutputItem::Unknown];
    assert_eq!(
        retained_response_parts_bytes("resp", &more),
        alone + 2 * retained_output_item_bytes(&OutputItem::Unknown)
    );
}

#[test]
fn every_item_is_charged() {
    let empty: Vec<OutputItem> = (0..5).map(|_| OutputItem::Unknown).collect();
    assert_eq!(retained_response_parts_bytes("", &empty), 6 * RETAINED_CONTAINER_OVERHEAD_BYTES);
}

#[test]
fn empty_reasoning_parts_are_charged() {
    let reasoning = OutputItem::Reasoning(ReasoningOutput {
        id: String::new(),
        status: None,
        content: vec![ReasoningTextContent::new(""), ReasoningTextContent::new("")],
        summary: vec![JsonValue::Null],
        encrypted_content: None,
        replay_provenance: None,
    });
    assert_eq!(retained_output_item_bytes(&reasoning), 4 * RETAINED_CONTAINER_OVERHEAD_BYTES);
}

#[test]
fn ledger_grants_what_fits_and_refuses_the_rest_whole() {
    let mut ledger = ResponseLedger::with_limit(10);
    assert_eq!(ledger.consume(4), Ok(()));
    assert_eq!(ledger.consume(6), Ok(()));
    assert_eq!(ledger.used(), 10);
    assert_eq!(
        ledger.consume(1),
        Err(ExecutorError::ResourceLimitExceeded {
            limit: ResourceLimit::ResponseBudget,
            max_bytes: 10,
        })
    );
    assert_eq!(ledger.used(), 10);
    assert_eq!(ledger.consume(0), Ok(()));
}

#[test]
fn ledger_refuses_a_request_that_overflows() {
    let mut ledger = ResponseLedger::with_limit(usize::MAX);
    assert_eq!(ledger.consume(1), Ok(()));
    assert!(ledger.consume(usize::MAX).is_err());
    assert_eq!(ledger.used(), 1);
}

#[test]
fn budget_clones_share_one_ledger() {
    let budget = ExecutorResponseBudget::with_limit(8);
    let clone = budget.clone();
    assert_eq!(budget.consume(5), Ok(()));
    assert_eq!(clone.used(), 5);
    assert!(clone.consume(4).is_err());
    assert_eq!(clone.consume(3), Ok(()));
    assert_eq!(budget.used(), 8);
}

#[test]
fn used_bytes_are_the_granted_bytes() {
    let budget = ExecutorResponseBudget::with_limit(10);
    let other = ExecutorResponseBudget::with_limit(10);
    let clone = budget.clone();
    assert_eq!(budget.used(), 0);
    let mut granted = 0;
    for (i, bytes) in [4, 7, 0, 5, 2, 1, 1].into_iter().enumerate() {
        let through = if i % 2 == 0 { &budget } else { &clone };
        if through.consume(bytes).is_ok() {
            granted += bytes;
        }
        assert_eq!(budget.used(), granted);
        assert_eq!(clone.used(), granted);
    }
    assert_eq!(granted, 10);
    assert_eq!(other.used(), 0);
}
