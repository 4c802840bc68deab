//! The loop that calls tools until the model answers with a text.

use lexi::ai_interaction::openai_chat::{
    execute_tool_call, failed_call_output, openai_call_config, LoopStep, ResponseLoop, Tool,
};
use lexi::ai_interaction::{
    conversation_args, drive_ai_conversation, process_single_prompt_for_cli,
    AiConversationOutcome, Settings,
};
use lexi::openai_api::types::{
    input_message, InputItem, OutputFunctionCall, OutputItem, OutputMessage, OutputTextContent,
};
use lexi::openai_api::{call_responses_api, ApiEvent, ApiStep};

fn said(text: &str) -> OutputItem {
    OutputItem::Message(OutputMessage {
        id: "msg".to_string(),
        kind: "message".to_string(),
        status: "completed".to_string(),
        role: "assistant".to_string(),
        content: vec![OutputTextContent {
            kind: "output_text".to_string(),
            text: text.to_string(),
        }],
    })
}

fn call(name: &str, call_id: &str) -> OutputItem {
    OutputItem::FunctionCall(OutputFunctionCall {
        kind: "function_call".to_string(),
        id: "fc".to_string(),
        call_id: call_id.to_string(),
        name: name.to_string(),
        arguments: "{}".to_string(),
    })
}

fn history(response_loop: &ResponseLoop) -> Vec<String> {
    response_loop
        .history()
        .iter()
        .map(|item: &InputItem| item.to_json().to_string())
        .collect()
}

fn new_loop() -> ResponseLoop {
    ResponseLoop::new(vec![input_message("user", "hello")])
}

#[test]
fn a_text_ends_the_loop() {
    let mut response_loop = new_loop();
    match response_loop.process_openai_response_loop("r1".to_string(), vec![said("hi")]) {
        LoopStep::Finish(AiConversationOutcome::TextMessage(text, id)) => {
            assert_eq!((text.as_str(), id.as_str()), ("hi", "r1"))
        }
        _ => panic!("the loop goes on"),
    }
    match new_loop().process_openai_response_loop("r1".to_string(), Vec::new()) {
        LoopStep::Finish(AiConversationOutcome::TextMessage(text, _)) => assert_eq!(text, ""),
        _ => panic!("the loop goes on"),
    }
}

#[test]
fn every_call_is_answered_under_its_id() {
    let mut response_loop = new_loop();
    let output = vec![call("retrieve_manual", "c1"), call("nothing", "c2")];
    match response_loop.process_openai_response_loop("r1".to_string(), output) {
        LoopStep::CallTool(asked) => assert_eq!(asked.call_id, "c1"),
        _ => panic!("no tool is called"),
    }
    match response_loop.take_tool_result(Ok("{\"a\":1}".to_string())) {
        LoopStep::CallTool(asked) => assert_eq!(asked.call_id, "c2"),
        _ => panic!("the second tool is not called"),
    }
    match response_loop.take_tool_result(Err("it \"broke\"".to_string())) {
        LoopStep::AskModel { previous_response_id, with_instructions } => {
            assert_eq!(previous_response_id, "r1");
            assert!(with_instructions);
        }
        _ => panic!("the model is not asked"),
    }
    assert_eq!(
        history(&response_loop),
        vec![
            "{\"content\":\"hello\",\"role\":\"user\"}".to_string(),
            "{\"content\":\"\",\"role\":\"assistant\"}".to_string(),
            "{\"call_id\":\"c1\",\"output\":\"{\\\"a\\\":1}\",\"type\":\"function_call_output\"}"
                .to_string(),
            "{\"call_id\":\"c2\",\"output\":\"{\\\"error\\\": \\\"tool_execution_failed\\\", \\\"tool_name\\\": \\\"nothing\\\", \\\"details\\\": \\\"it \\\\\\\"broke\\\\\\\"\\\"}\",\"type\":\"function_call_output\"}"
                .to_string(),
        ]
    );
    response_loop.process_openai_response_loop("r2".to_string(), vec![call("x", "c3")]);
    match response_loop.take_tool_result(Ok("{}".to_string())) {
        LoopStep::AskModel { with_instructions, .. } => assert!(!with_instructions),
        _ => panic!("the model is not asked"),
    }
}

fn concluded(tool: &str, output: &str) -> LoopStep {
    let mut response_loop = new_loop();
    response_loop.process_openai_response_loop("r1".to_string(), vec![call(tool, "c1")]);
    response_loop.take_tool_result(Ok(output.to_string()))
}

#[test]
fn the_admin_tool_ends_the_loop() {
    let tool = "conversation_admin_tool";
    assert!(matches!(
        concluded(tool, "{\"action\":\"reset_conversation\"}"),
        LoopStep::Finish(AiConversationOutcome::ResetConversation(_, _))
    ));
    match concluded(tool, "{\"action\":\"model_updated\",\"new_model_id\":\"gpt-5\"}") {
        LoopStep::Finish(AiConversationOutcome::ChangeModel(_, id, model)) => {
            assert_eq!((id.as_str(), model.as_str()), ("r1", "gpt-5"))
        }
        _ => panic!("the model is not changed"),
    }
    assert!(matches!(
        concluded(tool, "{\"action\":\"verbosity_updated\",\"new_verbosity\":\"low\"}"),
        LoopStep::Finish(AiConversationOutcome::ChangeVerbosity(_, _, _))
    ));
    assert!(matches!(
        concluded(
            tool,
            "{\"action\":\"reasoning_effort_updated\",\"new_reasoning_effort\":\"high\"}"
        ),
        LoopStep::Finish(AiConversationOutcome::ChangeReasoningEffort(_, _, _))
    ));
    assert!(matches!(
        concluded("end_admin_session", "{\"action\":\"end_admin_session\"}"),
        LoopStep::Finish(AiConversationOutcome::EndAdminSession(_, _))
    ));
    assert!(matches!(
        concluded(tool, "{\"action\":\"model_updated\"}"),
        LoopStep::AskModel { .. }
    ));
    assert!(matches!(concluded(tool, "not json"), LoopStep::AskModel { .. }));
    assert!(matches!(
        concluded("retrieve_manual", "{\"action\":\"reset_conversation\"}"),
        LoopStep::AskModel { .. }
    ));
}

#[test]
fn tools_are_found_by_name() {
    let named = |name: &str| match call(name, "c") {
        OutputItem::FunctionCall(asked) => execute_tool_call(&asked),
        _ => panic!("no call"),
    };
    assert_eq!(named("scheduled_jobs"), Ok(Tool::ScheduledJobs));
    assert_eq!(named("execute_globaldb_query"), Ok(Tool::GlobaldbQuery));
    assert_eq!(
        named("made_up"),
        Err("{\"error\": \"unexpected_tool_name\", \"tool_name\": \"made_up\"}".to_string())
    );
    assert_eq!(
        failed_call_output("t", "a \"b\""),
        "{\"error\": \"tool_execution_failed\", \"tool_name\": \"t\", \"details\": \"a \\\"b\\\"\"}"
    );
}

#[test]
fn a_request_says_what_is_given() {
    let config = openai_call_config();
    let start = drive_ai_conversation(&config, "hello", "gpt-5.2", true);
    assert_eq!(start.tools.len(), 10);
    let verbosity = Some("low".to_string());
    let args = conversation_args(
        "gpt-5.2",
        Some("r0"),
        &start.tools,
        Some("be kind"),
        &verbosity,
        &None,
    );
    let begin = ApiEvent::Begin { input_items: &start.input_items, args };
    let payload = match call_responses_api(begin) {
        ApiStep::Post { url, payload } => {
            assert_eq!(url, "https://api.openai.com/v1/responses");
            payload
        }
        ApiStep::Finish(_) => panic!("nothing is asked"),
    };
    assert_eq!(payload["model"], "gpt-5.2");
    assert_eq!(payload["previous_response_id"], "r0");
    assert_eq!(payload["instructions"], "be kind");
    assert_eq!(payload["store"], true);
    assert_eq!(payload["text"]["verbosity"], "low");
    assert_eq!(payload["input"][0]["content"], "hello");
    assert_eq!(payload["tools"][1]["name"], "check_beacon_slot_missed");
    assert_eq!(payload["tools"][8]["name"], "scheduled_jobs");
    assert_eq!(
        payload["tools"][8]["parameters"]["properties"]["command"]["enum"][1],
        "add"
    );
    assert!(payload["tools"][8]["description"].is_string());
    assert_eq!(payload["tools"][9]["type"], "web_search_preview");
    assert!(payload.get("temperature").is_none());
    assert!(payload.get("tool_choice").is_none());
}

fn failed(event: ApiEvent<'_>) -> String {
    match call_responses_api(event) {
        ApiStep::Finish(Err(message)) => message,
        _ => panic!("the request did not fail"),
    }
}

#[test]
fn a_failed_request_is_told_with_its_status() {
    let message = failed(ApiEvent::Answered {
        status: 429,
        body: "slow down",
        parsed: Err("unused".to_string()),
    });
    assert_eq!(
        message,
        "openai /v1/responses api call failed with status 429 Too Many Requests: Too Many Requests. response: slow down"
    );
    let message = failed(ApiEvent::Answered {
        status: 200,
        body: "{}",
        parsed: Err("missing field `id`".to_string()),
    });
    assert_eq!(
        message,
        "failed to deserialize openai api response (status 200 OK): missing field `id`. response body: {}"
    );
    assert_eq!(failed(ApiEvent::Unsent), "failed to send request to openai api");
    assert_eq!(
        failed(ApiEvent::Unreceived),
        "failed to read response text from openai api"
    );
}

#[test]
fn settings_follow_the_outcomes_on_the_command_line() {
    let mut settings = Settings::new();
    assert_eq!(settings.get_current_model_id(), "gpt-5.2");
    let (shown, id) = process_single_prompt_for_cli(
        &mut settings,
        AiConversationOutcome::ChangeVerbosity(
            "ok".to_string(),
            "r1".to_string(),
            "low".to_string(),
        ),
    );
    assert_eq!(
        shown,
        "openai verbosity change to 'low' requested by ai/tool. confirmation: \"ok\""
    );
    assert_eq!(id, "r1");
    assert_eq!(settings.get_current_verbosity().as_deref(), Some("low"));
    process_single_prompt_for_cli(
        &mut settings,
        AiConversationOutcome::ChangeModel("ok".to_string(), "r1".to_string(), "m".to_string()),
    );
    assert_eq!(settings.get_current_model_id(), "gpt-5.2");
    settings.set_current_model_id("m".to_string());
    assert_eq!(settings.get_current_model_id(), "m");
}
