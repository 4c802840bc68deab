//! Reading the model's answers, and offering it tools.

use lexi::ai_interaction::openai_chat::{
    determine_turn_tools, parse_api_response_output, DEFAULT_OPENAI_MODEL_ID,
};
use lexi::ai_interaction::tools::conversation_admin;
use lexi::openai_api::types::{
    ApiToolType, OutputFunctionCall, OutputItem, OutputMessage, OutputTextContent, ToolDefinition,
    WebSearchToolConfig,
};

const TEST_GPT_5_MODEL_ID: &str = "gpt-5.2";
const TEST_GPT_5_MINI_MODEL_ID: &str = "gpt-5-mini";

#[test]
fn test_parse_empty_output_items() {
    let items: Vec<OutputItem> = Vec::new();
    let (fcs, text) = parse_api_response_output(items);
    assert!(fcs.is_empty());
    assert!(text.is_none());
}

#[test]
fn test_parse_assistant_text_message() {
    let items = vec![OutputItem::Message(OutputMessage {
        id: "msg_1".to_string(),
        kind: "message".to_string(),
        status: "completed".to_string(),
        role: "assistant".to_string(),
        content: vec![OutputTextContent {
            kind: "output_text".to_string(),
            text: "hello from assistant".to_string(),
        }],
    })];
    let (fcs, text) = parse_api_response_output(items);
    assert!(fcs.is_empty());
    assert_eq!(text, Some("hello from assistant".to_string()));
}

#[test]
fn test_parse_single_function_call() {
    let items = vec![OutputItem::FunctionCall(OutputFunctionCall {
        kind: "function_call".to_string(),
        id: "fc_1".to_string(),
        call_id: "call_id_1".to_string(),
        name: "test_tool".to_string(),
        arguments: "{{\"arg1\": \"val1\"}}".to_string(),
    })];
    let (fcs, text) = parse_api_response_output(items);
    assert_eq!(fcs.len(), 1);
    assert_eq!(fcs[0].name, "test_tool");
    assert_eq!(fcs[0].arguments, "{{\"arg1\": \"val1\"}}");
    assert!(text.is_none());
}

#[test]
fn test_parse_assistant_message_then_function_call() {
    let items = vec![
        OutputItem::Message(OutputMessage {
            id: "msg_leading".to_string(),
            kind: "message".to_string(),
            status: "completed".to_string(),
            role: "assistant".to_string(),
            content: vec![OutputTextContent {
                kind: "output_text".to_string(),
                text: "okay, i will call a tool.".to_string(),
            }],
        }),
        OutputItem::FunctionCall(OutputFunctionCall {
            kind: "function_call".to_string(),
            id: "fc_2".to_string(),
            call_id: "call_id_2".to_string(),
            name: "another_tool".to_string(),
            arguments: "{}".to_string(),
        }),
    ];
    let (fcs, text) = parse_api_response_output(items);
    assert_eq!(fcs.len(), 1);
    assert_eq!(fcs[0].name, "another_tool");
    assert_eq!(text, Some("okay, i will call a tool.".to_string()));
}

#[test]
fn test_parse_multiple_function_calls() {
    let items = vec![
        OutputItem::FunctionCall(OutputFunctionCall {
            kind: "function_call".to_string(),
            id: "fc_a".to_string(),
            call_id: "call_id_a".to_string(),
            name: "tool_one".to_string(),
            arguments: "{\"a\":1}".to_string(),
        }),
        OutputItem::FunctionCall(OutputFunctionCall {
            kind: "function_call".to_string(),
            id: "fc_b".to_string(),
            call_id: "call_id_b".to_string(),
            name: "tool_two".to_string(),
            arguments: "{\"b\":2}".to_string(),
        }),
    ];
    let (fcs, text) = parse_api_response_output(items);
    assert_eq!(fcs.len(), 2);
    assert_eq!(fcs[0].name, "tool_one");
    assert_eq!(fcs[1].name, "tool_two");
    assert!(text.is_none());
}

#[test]
fn test_parse_assistant_message_non_output_text() {
    let items = vec![OutputItem::Message(OutputMessage {
        id: "msg_other".to_string(),
        kind: "message".to_string(),
        status: "completed".to_string(),
        role: "assistant".to_string(),
        content: vec![OutputTextContent {
            kind: "other_type".to_string(), // Not output_text
            text: "this should be ignored".to_string(),
        }],
    })];
    let (fcs, text) = parse_api_response_output(items);
    assert!(fcs.is_empty());
    assert!(text.is_none()); // No output_text content should result in None
}

#[test]
fn test_parse_multiple_assistant_messages_concatenated() {
    let items = vec![
        OutputItem::Message(OutputMessage {
            id: "msg_part1".to_string(),
            kind: "message".to_string(),
            status: "completed".to_string(),
            role: "assistant".to_string(),
            content: vec![OutputTextContent {
                kind: "output_text".to_string(),
                text: "part one.".to_string(),
            }],
        }),
        OutputItem::Message(OutputMessage {
            id: "msg_part2".to_string(),
            kind: "message".to_string(),
            status: "completed".to_string(),
            role: "assistant".to_string(),
            content: vec![OutputTextContent {
                kind: "output_text".to_string(),
                text: "part two.".to_string(),
            }],
        }),
    ];
    let (fcs, text) = parse_api_response_output(items);
    assert!(fcs.is_empty());
    assert_eq!(text, Some("part one.\npart two.".to_string()));
}

// --- tests for determine_turn_tools ---
// helper to create a dummy tool definition
fn dummy_tool(name: &str) -> ApiToolType {
    ApiToolType::Function(ToolDefinition::new(
        name.to_string(),
        Some("description".to_string()),
        None,
    ))
}

#[test]
fn dtt_admin_tools_excluded_when_session_inactive() {
    let base_tools = vec![
        dummy_tool("base_tool_1"),
        ApiToolType::Function(conversation_admin::conversation_admin_tool()),
    ];

    let determined_tools = determine_turn_tools(&base_tools, false, TEST_GPT_5_MODEL_ID);
    assert_eq!(determined_tools.len(), 1);
    assert!(determined_tools.iter().any(|t| match t {
        ApiToolType::Function(f) => f.name == "base_tool_1",
        _ => false,
    }));
    assert!(!determined_tools.iter().any(|t| match t {
        ApiToolType::Function(f) => f.name == conversation_admin::CONVERSATION_ADMIN_TOOL_NAME,
        _ => false,
    }));
}

#[test]
fn dtt_admin_tools_included_when_session_active() {
    let base_tools = vec![
        dummy_tool("base_tool_2"),
        ApiToolType::Function(conversation_admin::conversation_admin_tool()),
    ];

    let determined_tools = determine_turn_tools(&base_tools, true, TEST_GPT_5_MODEL_ID);
    assert_eq!(
        determined_tools.len(),
        2,
        "expected base_tool_2 and admin_tool"
    );
    assert!(determined_tools.iter().any(|t| match t {
        ApiToolType::Function(f) => f.name == "base_tool_2",
        _ => false,
    }));
    assert!(determined_tools.iter().any(|t| match t {
        ApiToolType::Function(f) => f.name == conversation_admin::CONVERSATION_ADMIN_TOOL_NAME,
        _ => false,
    }));
}

// --- new tests for websearch tool based on model_id ---
fn web_search_tool() -> ApiToolType {
    ApiToolType::WebSearch(WebSearchToolConfig::new())
}

#[test]
fn dtt_web_search_included_for_gpt_5_if_in_base() {
    let base_tools = vec![dummy_tool("base_tool"), web_search_tool()];
    let determined_tools = determine_turn_tools(&base_tools, false, DEFAULT_OPENAI_MODEL_ID);
    assert_eq!(determined_tools.len(), 2);
    assert!(determined_tools
        .iter()
        .any(|t| matches!(t, ApiToolType::WebSearch(_))));
    assert!(determined_tools.iter().any(|t| match t {
        ApiToolType::Function(f) => f.name == "base_tool",
        _ => false,
    }));
}

#[test]
fn dtt_web_search_included_for_gpt_5_mini_if_in_base() {
    let base_tools = vec![dummy_tool("base_tool"), web_search_tool()];
    let determined_tools = determine_turn_tools(&base_tools, false, TEST_GPT_5_MINI_MODEL_ID);
    assert_eq!(determined_tools.len(), 2);
    assert!(determined_tools
        .iter()
        .any(|t| matches!(t, ApiToolType::WebSearch(_))));
    assert!(determined_tools.iter().any(|t| match t {
        ApiToolType::Function(f) => f.name == "base_tool",
        _ => false,
    }));
}

#[test]
fn dtt_web_search_excluded_for_other_model_even_if_in_base() {
    let base_tools = vec![dummy_tool("base_tool"), web_search_tool()];
    let determined_tools = determine_turn_tools(&base_tools, false, "some-other-model-id");
    assert_eq!(
        determined_tools.len(),
        1,
        "websearch should be removed for other models"
    );
    assert!(!determined_tools
        .iter()
        .any(|t| matches!(t, ApiToolType::WebSearch(_))));
    assert!(determined_tools.iter().any(|t| match t {
        ApiToolType::Function(f) => f.name == "base_tool",
        _ => false,
    }));
}

#[test]
fn dtt_web_search_not_present_in_base_tools_gpt_5() {
    let base_tools = vec![dummy_tool("base_tool")]; // websearch not in base
    let determined_tools = determine_turn_tools(&base_tools, false, DEFAULT_OPENAI_MODEL_ID);
    assert_eq!(determined_tools.len(), 1);
    assert!(!determined_tools
        .iter()
        .any(|t| matches!(t, ApiToolType::WebSearch(_))));
}

#[test]
fn dtt_web_search_with_admin_tool_gpt_5() {
    let base_tools = vec![
        dummy_tool("base_tool"),
        web_search_tool(),
        ApiToolType::Function(conversation_admin::conversation_admin_tool()),
    ];
    let determined_tools = determine_turn_tools(&base_tools, true, DEFAULT_OPENAI_MODEL_ID);
    assert_eq!(
        determined_tools.len(),
        3,
        "should have base_tool, websearch, and admin_tool"
    );
    assert!(determined_tools
        .iter()
        .any(|t| matches!(t, ApiToolType::WebSearch(_))));
    assert!(determined_tools.iter().any(|t| match t {
        ApiToolType::Function(f) =>
            f.name == conversation_admin::CONVERSATION_ADMIN_TOOL_NAME,
        _ => false,
    }));
}

#[test]
fn dtt_web_search_with_admin_tool_gpt_5_mini() {
    let base_tools = vec![
        dummy_tool("base_tool"),
        web_search_tool(),
        ApiToolType::Function(conversation_admin::conversation_admin_tool()),
    ];
    let determined_tools = determine_turn_tools(&base_tools, true, TEST_GPT_5_MINI_MODEL_ID);
    assert_eq!(
        determined_tools.len(),
        3,
        "should have base_tool, websearch, and admin_tool"
    );
    assert!(determined_tools
        .iter()
        .any(|t| matches!(t, ApiToolType::WebSearch(_))));
    assert!(determined_tools.iter().any(|t| match t {
        ApiToolType::Function(f) =>
            f.name == conversation_admin::CONVERSATION_ADMIN_TOOL_NAME,
        _ => false,
    }));
}
