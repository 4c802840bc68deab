//! The bot with one tool.

use lexi::bot::reply::{ReplyAction, ReplyEvent, ReplyState};
use lexi::handler::{
    create_direct_sql_query_tool, extract_prompt_from_mention, generate_and_send_ai_reply,
    process_update, read_first_output, request_args, request_input, second_request,
    send_reply_and_update_state, FirstOutput, Generation, GenerationAction, GenerationEvent,
    HandlerAction, HandlerEvent, HandlerState,
};
use lexi::message_processor::tools::common::{
    handle_tool_call_step2_openai_response, step2_args, step2_input_items, ToolStep2Context,
};
use lexi::message_processor::tools::execute_sql_query::finish_sql_query_tool_call;
use lexi::openai_api::types::{
    input_message, OpenAiApiResponse, OutputFunctionCall, OutputItem, OutputMessage, OutputTextContent,
};
use lexi::telegram::types::{Chat, Message, MessageEntity, Update, User};

fn incoming(chat_type: &str, text: Option<&str>) -> Message {
    Message {
        message_id: 33,
        message_thread_id: None,
        from: Some(User {
            id: 11,
            is_bot: false,
            first_name: "Ada".to_string(),
            last_name: None,
            username: None,
        }),
        chat: Chat {
            id: 22,
            chat_type: chat_type.to_string(),
            title: None,
            username: None,
            first_name: None,
            last_name: None,
        },
        date: 1_704_067_200,
        text: text.map(String::from),
        entities: None,
    }
}

fn bot_mention(offset: usize) -> Option<Vec<MessageEntity>> {
    Some(vec![MessageEntity {
        entity_type: "mention".to_string(),
        offset,
        length: 14,
        url: None,
        user: None,
    }])
}

fn stored(message: Message) -> (Update, HandlerState, HandlerAction) {
    let update = Update { update_id: 1, message: Some(message) };
    let (state, _) = process_update(&update, HandlerState::Start, HandlerEvent::Begin);
    let (state, _) = process_update(&update, state, HandlerEvent::Stored(4));
    let (state, action) = process_update(&update, state, HandlerEvent::Stored(6));
    assert!(matches!(
        action,
        HandlerAction::StoreMessage { chat_id: 6, user_id: 4 }
    ));
    let (state, action) = process_update(&update, state, HandlerEvent::Done);
    (update, state, action)
}

#[test]
fn the_mention_is_cut_and_the_rest_kept() {
    assert_eq!(
        extract_prompt_from_mention(" @lexi_alex_bot  what  now? ", &bot_mention(1)),
        "what  now?"
    );
    assert_eq!(extract_prompt_from_mention("plain ", &None), "plain ");
}

#[test]
fn a_prompt_is_answered() {
    let (_, _, action) = stored(incoming("private", Some("how many users?")));
    match action {
        HandlerAction::Generate { chat_id, prompt } => {
            assert_eq!((chat_id, prompt.as_str()), (6, "how many users?"))
        }
        _ => panic!("no reply is generated"),
    }
    let (_, _, action) = stored(incoming("group", Some("how many users?")));
    assert!(matches!(action, HandlerAction::LogOtherMentions));
}

#[test]
fn nothing_is_acknowledged_with_a_greeting() {
    let mut message = incoming("group", Some("@lexi_alex_bot"));
    message.entities = bot_mention(0);
    let (update, state, action) = stored(message);
    match action {
        HandlerAction::SendAcknowledgement(text) => assert_eq!(text, "Hi Ada! You mentioned me, but your message seemed empty after processing. What can I help you with?"),
        _ => panic!("nothing is acknowledged"),
    }
    let (state, action) = process_update(&update, state, HandlerEvent::Sent(78));
    assert!(matches!(
        action,
        HandlerAction::StoreAcknowledgement { chat_id: 6 }
    ));
    match process_update(&update, state, HandlerEvent::Failed).1 {
        HandlerAction::Fail { heading } => assert_eq!(
            heading.as_deref(),
            Some("failed to insert bot acknowledgement (id: 78) into database")
        ),
        _ => panic!("the failure is passed over"),
    }
}

fn call(name: &str, arguments: &str) -> OutputFunctionCall {
    OutputFunctionCall {
        kind: "function_call".to_string(),
        id: "fc_1".to_string(),
        call_id: "call_1".to_string(),
        name: name.to_string(),
        arguments: arguments.to_string(),
    }
}

fn answered(first: FirstOutput) -> GenerationEvent {
    GenerationEvent::Answered { response_id: "r1".to_string(), first }
}

fn replied(action: GenerationAction) -> (String, String) {
    match action {
        GenerationAction::Reply { text, response_id } => (text, response_id),
        _ => panic!("nothing is replied"),
    }
}

#[test]
fn a_query_is_run_and_summed_up() {
    let first = FirstOutput::Call(call("execute_sql_query", "{\"sql_query\":\"select 1\"}"));
    let (state, action) = generate_and_send_ai_reply(None, Generation::Asking, answered(first));
    match action {
        GenerationAction::RunQuery(query) => assert_eq!(query, "select 1"),
        _ => panic!("no query is run"),
    }
    let rows = GenerationEvent::QueryRun(Ok(Vec::new()));
    let (state, action) = generate_and_send_ai_reply(None, state, rows);
    match action {
        GenerationAction::AskAgain { call, response_id, output } => {
            assert_eq!((call.call_id.as_str(), response_id.as_str()), ("call_1", "r1"));
            assert_eq!(
                output,
                "{\"message\":\"query executed successfully. no rows returned.\",\"results\":[],\"status\":\"success\"}"
            );
        }
        _ => panic!("the model is not asked again"),
    }
    let (_, action) =
        generate_and_send_ai_reply(None, state, answered(FirstOutput::Text("one".to_string())));
    assert_eq!(replied(action), ("one".to_string(), "r1".to_string()));
    let (_, action) = generate_and_send_ai_reply(
        None,
        Generation::AskingAgain,
        answered(FirstOutput::Empty),
    );
    assert_eq!(
        replied(action).0,
        "i processed the database query but couldn't form a final summary in the expected format."
    );
}

#[test]
fn a_query_that_selects_nothing_is_not_run() {
    let first = FirstOutput::Call(call(
        "execute_sql_query",
        "{\"sql_query\":\"delete from users\"}",
    ));
    let (state, action) = generate_and_send_ai_reply(None, Generation::Asking, answered(first));
    match action {
        GenerationAction::AskAgain { call, response_id, output } => {
            assert_eq!((call.call_id.as_str(), response_id.as_str()), ("call_1", "r1"));
            assert_eq!(
                output,
                "{\"details\":\"query was: delete from users\",\"message\":\"invalid query type. only select queries are permitted.\",\"status\":\"error\"}"
            );
        }
        _ => panic!("the model is not asked again"),
    }
    let (_, action) =
        generate_and_send_ai_reply(None, state, answered(FirstOutput::Text("no".to_string())));
    assert_eq!(replied(action).0, "no");
}

#[test]
fn other_answers_have_their_replies() {
    let said = |first: FirstOutput| {
        replied(generate_and_send_ai_reply(None, Generation::Asking, answered(first)).1).0
    };
    assert_eq!(said(FirstOutput::Text("hi".to_string())), "hi");
    assert_eq!(
        said(FirstOutput::Unclear),
        "i received a response from the ai, but couldn't understand it fully."
    );
    assert_eq!(
        said(FirstOutput::Empty),
        "i received an empty response from the ai."
    );
    assert_eq!(
        said(FirstOutput::Call(call("made_up", "{}"))),
        "i tried to use an unexpected tool: made_up. something went wrong."
    );
}

fn apologized(previous: Option<&str>, state: Generation, event: GenerationEvent) -> (String, String) {
    match generate_and_send_ai_reply(previous, state, event).1 {
        GenerationAction::ReplyAndFail { text, response_id } => (text, response_id),
        _ => panic!("nothing is apologized for"),
    }
}

#[test]
fn failures_are_told_and_keep_the_conversation() {
    assert_eq!(
        apologized(Some("r0"), Generation::Asking, GenerationEvent::Failed),
        (
            "sorry, i encountered an issue calling the ai service.".to_string(),
            "r0".to_string()
        )
    );
    assert_eq!(
        apologized(None, Generation::Asking, GenerationEvent::Failed).1,
        "error_no_id_initial_call"
    );
    let broken = FirstOutput::Call(call("execute_sql_query", "not json"));
    assert_eq!(
        apologized(None, Generation::Asking, answered(broken)),
        (
            "sorry, an error occurred while processing your request with ai tools: failed to parse args for tool execute_sql_query".to_string(),
            "error_no_id_processing".to_string()
        )
    );
    let missing = FirstOutput::Call(call("execute_sql_query", "{}"));
    assert_eq!(
        apologized(None, Generation::Asking, answered(missing)).0,
        "sorry, an error occurred while processing your request with ai tools: argument 'sql_query' missing for tool execute_sql_query"
    );
    assert_eq!(
        apologized(None, Generation::AskingAgain, GenerationEvent::Failed).0,
        "sorry, an error occurred while processing your request with ai tools: tool call step 2 api call failed"
    );
}

fn response(id: &str, output: Vec<OutputItem>) -> OpenAiApiResponse {
    OpenAiApiResponse {
        id: id.to_string(),
        object: "response".to_string(),
        created_at: 0,
        model: "gpt-4.1".to_string(),
        status: "completed".to_string(),
        output,
        background: None,
        error: None,
        incomplete_details: None,
        instructions: None,
        max_output_tokens: None,
        parallel_tool_calls: None,
        previous_response_id: None,
        reasoning: None,
        service_tier: None,
        store: None,
        temperature: None,
        text: None,
        tool_choice: None,
        usage: None,
        user: None,
        metadata: None,
    }
}

#[test]
fn the_first_item_of_an_answer_counts() {
    let message = OutputItem::Message(OutputMessage {
        id: "m".to_string(),
        kind: "message".to_string(),
        status: "completed".to_string(),
        role: "assistant".to_string(),
        content: vec![OutputTextContent {
            kind: "output_text".to_string(),
            text: "hi".to_string(),
        }],
    });
    let output = vec![message, OutputItem::FunctionCall(call("x", "{}"))];
    assert!(matches!(read_first_output(&output), FirstOutput::Text(_)));
    let answer = response("r2", output);
    let empty = response("r3", Vec::new());
    assert_eq!(
        handle_tool_call_step2_openai_response("x", Some(&answer)),
        Ok(("hi".to_string(), "r2".to_string()))
    );
    assert_eq!(
        handle_tool_call_step2_openai_response("x", Some(&empty)),
        Ok((
            "i used the x tool, but couldn't form a final summary in the expected format.".to_string(),
            "r3".to_string()
        ))
    );
    assert_eq!(
        handle_tool_call_step2_openai_response("x", None),
        Err("step 2 api call failed for tool x".to_string())
    );
    assert_eq!(
        finish_sql_query_tool_call(Some(&answer)),
        Ok(("hi".to_string(), "r2".to_string()))
    );
    assert_eq!(
        finish_sql_query_tool_call(Some(&empty)),
        Ok((
            "i processed the database query but couldn't form a final summary in the expected format.".to_string(),
            "r3".to_string()
        ))
    );
    assert_eq!(
        finish_sql_query_tool_call(None),
        Err("tool call step 2 api call failed".to_string())
    );
    assert!(matches!(read_first_output(&Vec::new()), FirstOutput::Empty));
}

#[test]
fn the_second_request_holds_the_call_and_its_output() {
    let step2 = ToolStep2Context {
        function_name: "x",
        function_id: "fc_1",
        function_call_id: "call_1",
        function_arguments: "{}",
        original_input_items: vec![input_message("user", "hello")],
        initial_api_response_id: "r1",
        available_tools: Vec::new(),
        instructions: "be kind",
        tool_output_json_string: "[1]".to_string(),
    };
    let items = step2_input_items(&step2);
    assert_eq!(items.len(), 3);
    assert_eq!(
        items[1].to_json()["content"],
        "tool_call: name=x, id=fc_1, call_id=call_1, args={}"
    );
    assert_eq!(items[2].to_json()["output"], "[1]");
    let args = step2_args("gpt-4.1", &step2);
    assert_eq!(args.previous_response_id, Some("r1"));
    assert_eq!(args.store, None);
}

#[test]
fn the_tool_is_offered() {
    assert_eq!(create_direct_sql_query_tool().name, "execute_sql_query");
    let args = request_args(Some("r0"));
    assert_eq!(args.model_id, "gpt-4.1-nano");
    assert_eq!(args.tools.map(|tools| tools.len()), Some(1));
    assert!(args.instructions.unwrap().contains("'execute_sql_query'"));
}

#[test]
fn every_response_is_remembered() {
    let (_, action) = send_reply_and_update_state(
        5,
        "error_no_id_processing",
        ReplyState::Storing { message_id: 7 },
        ReplyEvent::Done,
    );
    match action {
        ReplyAction::StoreResponse(id) => assert_eq!(id, "error_no_id_processing"),
        _ => panic!("the response is not remembered"),
    }
}

#[test]
fn the_second_request_goes_on_from_the_first() {
    let input = request_input("how many users?");
    let asked = call("execute_sql_query", "{}");
    let step2 = second_request(&input, &asked, "r1", "[]".to_string());
    let told: Vec<String> =
        step2_input_items(&step2).iter().map(|item| item.to_json().to_string()).collect();
    assert_eq!(
        told,
        vec![
            "{\"content\":\"how many users?\",\"role\":\"user\"}",
            "{\"content\":\"tool_call: name=execute_sql_query, id=fc_1, call_id=call_1, args={}\",\"role\":\"assistant\"}",
            "{\"call_id\":\"call_1\",\"output\":\"[]\",\"type\":\"function_call_output\"}",
        ]
    );
    let args = step2_args("gpt-4.1-nano", &step2);
    assert_eq!(args.previous_response_id, Some("r1"));
    assert_eq!(args.instructions, request_args(None).instructions);
}
