//! The small conversation and its tools.

use lexi::ai_interaction::openai_chat::{LoopStep, ResponseLoop};
use lexi::ai_interaction::tools::db_schema::GetDatabaseSchemaArgs;
use lexi::ai_interaction::tools::retrieve_manual::RetrieveManualArgs;
use lexi::ai_interaction::AiConversationOutcome;
use lexi::message_processor::openai_chat::{
    execute_tool_call, failed_request_error, loop_args, openai_call_config,
    process_openai_response_loop, summarize_conversation_history, Tool,
};
use lexi::message_processor::tools::beacon_slot_check::{
    execute_beacon_slot_check, fetch_beacon_header, NodeAnswer, SlotCheck,
};
use lexi::message_processor::tools::database_schema;
use lexi::message_processor::tools::database_schema::SchemaFile;
use lexi::message_processor::tools::db_schema::{
    execute_get_database_schema, get_schema_from_file,
};
use lexi::message_processor::tools::mevdb_schema::{execute_get_mevdb_schema, mevdb_schema_tool};
use lexi::message_processor::tools::retrieve_manual::{
    execute_retrieve_manual, get_manual_content_from_file, retrieve_manual_tool, ManualFile,
};
use lexi::message_processor::{drive_ai_conversation, process_single_prompt_for_cli};
use lexi::openai_api::types::{
    input_call_output, input_message, ApiToolType, InputItem, OutputFunctionCall, OutputItem,
};
use serde_json::Value;

fn read(text: &str) -> Value {
    serde_json::from_str(text).unwrap()
}

fn call(name: &str) -> OutputFunctionCall {
    OutputFunctionCall {
        kind: "function_call".to_string(),
        id: "fc".to_string(),
        call_id: "c1".to_string(),
        name: name.to_string(),
        arguments: "{}".to_string(),
    }
}

fn concluded(tool: &str, output: &str) -> LoopStep {
    let mut response_loop = ResponseLoop::new(vec![input_message("user", "hello")]);
    response_loop.process_openai_response_loop(
        "r1".to_string(),
        vec![OutputItem::FunctionCall(call(tool))],
    );
    process_openai_response_loop(&mut response_loop, Ok(output.to_string()))
}

#[test]
fn only_a_reset_ends_the_loop() {
    let tool = "conversation_admin_tool";
    match concluded(tool, "{\"action\":\"reset_conversation\"}") {
        LoopStep::Finish(AiConversationOutcome::ResetConversation(_, id)) => assert_eq!(id, "r1"),
        _ => panic!("the loop goes on"),
    }
    assert!(matches!(
        concluded(tool, "{\"action\":\"model_updated\",\"new_model_id\":\"gpt-5\"}"),
        LoopStep::AskModel { .. }
    ));
    assert!(matches!(concluded(tool, "not json"), LoopStep::AskModel { .. }));
    assert!(matches!(
        concluded("get_database_schema", "{\"action\":\"reset_conversation\"}"),
        LoopStep::AskModel { .. }
    ));
}

#[test]
fn requests_say_what_is_given() {
    let config = openai_call_config();
    assert_eq!(config.available_tools.len(), 5);
    let (items, args) = drive_ai_conversation(&config, "hello", Some("r0"));
    assert_eq!(items.len(), 1);
    assert_eq!(args.model_id, "gpt-4.1");
    assert_eq!(args.previous_response_id, Some("r0"));
    assert_eq!(
        args.instructions,
        Some("you are a helpful ai assistant named lexi.")
    );
    let (_, args) = process_single_prompt_for_cli(&config, "hello");
    assert_eq!(args.previous_response_id, None);
    assert_eq!(loop_args(&config, "r1", false).instructions, None);
    assert!(loop_args(&config, "r1", true).instructions.is_some());
    assert_eq!(
        failed_request_error("timeout"),
        "api call after tool results failed: timeout"
    );
}

#[test]
fn a_history_is_summed_up() {
    let history: Vec<InputItem> = vec![
        input_message("user", "a"),
        input_message("assistant", "b"),
        input_message("tool", "c"),
        input_message("system", "d"),
        input_call_output("c1", "e"),
        InputItem::Text("f".to_string()),
    ];
    assert_eq!(
        summarize_conversation_history(&history),
        vec![
            "user_message",
            "assistant_message",
            "tool_message_generic",
            "message_role_system",
            "tool_call_output",
            "text_input_item",
        ]
    );
}

#[test]
fn the_tools_are_five() {
    assert_eq!(execute_tool_call(&call("execute_mevdb_query")), Ok(Tool::MevdbQuery));
    assert!(execute_tool_call(&call("retrieve_manual")).is_err());
}

#[test]
fn test_fetch_beacon_header_slot_not_missed() {
    let slot_not_missed = 11805092;
    let answer = NodeAnswer::Response { code: 200, body: String::new() };
    let reply = read(&fetch_beacon_header(slot_not_missed, answer));
    assert_eq!(reply["status"], "not_missed");
}

#[test]
fn test_fetch_beacon_header_slot_missed() {
    let slot_missed = 11805091;
    let answer = NodeAnswer::Response { code: 404, body: String::new() };
    let reply = read(&fetch_beacon_header(slot_missed, answer));
    assert_eq!(reply["status"], "missed");
}

#[test]
fn a_failing_node_is_told_of() {
    let answer = NodeAnswer::Response { code: 503, body: "syncing".to_string() };
    assert_eq!(
        read(&fetch_beacon_header(5, answer))["details"],
        "beacon node returned status 503 Service Unavailable - syncing"
    );
    assert_eq!(
        read(&fetch_beacon_header(5, NodeAnswer::Unreachable))["details"],
        "error checking slot 5: failed to connect to beacon node"
    );
}

#[test]
fn a_check_needs_an_address_and_a_slot() {
    let url = Some("http://node".to_string());
    match execute_beacon_slot_check(&url, "{\"slot_number\":5}") {
        SlotCheck::Ask { beacon_url, slot } => assert_eq!((beacon_url, slot), ("http://node", 5)),
        SlotCheck::Reply(reply) => panic!("unexpected reply {reply}"),
    }
    let details = |url: &Option<String>, arguments: &str| {
        match execute_beacon_slot_check(url, arguments) {
            SlotCheck::Ask { .. } => panic!("the node would be asked"),
            SlotCheck::Reply(reply) => read(&reply)["details"].as_str().unwrap().to_string(),
        }
    };
    assert_eq!(
        details(&None, "{\"slot_number\":5}"),
        "BEACON_URL environment variable not set. cannot check beacon slot."
    );
    assert_eq!(details(&url, "{}"), "argument 'slot_number' missing");
}

fn schema_of(name: &str) -> SchemaFile {
    execute_get_database_schema(Ok(GetDatabaseSchemaArgs { database_name: name.to_string() }))
}

#[test]
fn test_execute_get_database_schema_mevdb_success() {
    match schema_of("mevdb") {
        SchemaFile::Read(path) => assert_eq!(
            path,
            "src/message_processor/tools/db_schema/schemas/mevdb_schema.txt"
        ),
        SchemaFile::Reply(reply) => panic!("unexpected reply {reply}"),
    }
}

#[test]
fn test_execute_get_database_schema_globaldb_success() {
    match schema_of("globaldb") {
        SchemaFile::Read(path) => assert_eq!(
            path,
            "src/message_processor/tools/db_schema/schemas/globaldb_schema.txt"
        ),
        SchemaFile::Reply(reply) => panic!("unexpected reply {reply}"),
    }
}

fn refused(file: SchemaFile) -> Value {
    match file {
        SchemaFile::Read(path) => panic!("{path} would be read"),
        SchemaFile::Reply(reply) => read(&reply),
    }
}

#[test]
fn test_execute_get_database_schema_invalid_name() {
    let result_json = refused(schema_of("nonexistentdb"));
    assert_eq!(result_json["status"], "error");
    assert_eq!(result_json["message"], "invalid_database_name");
    assert!(result_json["details"]
        .as_str()
        .unwrap()
        .contains("nonexistentdb"));
}

#[test]
fn test_execute_get_database_schema_malformed_json_args() {
    let error = "expected `,` or `}` at line 1 column 27".to_string();
    let result_json = refused(execute_get_database_schema(Err(error)));
    assert_eq!(result_json["status"], "error");
    assert_eq!(result_json["message"], "failed_to_parse_arguments");
}

#[test]
fn test_execute_get_database_schema_missing_database_name_arg() {
    let error = "missing field `database_name` at line 1 column 2".to_string();
    let result_json = refused(execute_get_database_schema(Err(error)));
    assert_eq!(result_json["status"], "error");
    assert_eq!(result_json["message"], "failed_to_parse_arguments");
}

#[test]
fn test_get_schema_from_file_success() {
    let content = "test schema content here";
    assert_eq!(
        get_schema_from_file("testdb", Ok(format!("{}\n", content))),
        format!("{}\n", content)
    );
}

#[test]
fn test_get_schema_from_file_not_found() {
    let reply = read(&get_schema_from_file("testdb", Err("no such file".to_string())));
    assert_eq!(reply["message"], "failed_to_read_schema");
    assert!(reply["details"]
        .as_str()
        .unwrap()
        .contains("failed to read testdb schema file"));
}

#[test]
fn the_small_chat_has_its_schemas_elsewhere() {
    let path_of = |name: &str| {
        let args = GetDatabaseSchemaArgs { database_name: name.to_string() };
        match database_schema::execute_get_database_schema(Ok(args)) {
            SchemaFile::Read(path) => path,
            SchemaFile::Reply(reply) => panic!("unexpected reply {reply}"),
        }
    };
    assert_eq!(
        path_of("mevdb"),
        "src/message_processor/tools/schemas/mevdb_schema.txt"
    );
    assert_eq!(
        path_of("globaldb"),
        "src/message_processor/tools/schemas/globaldb_schema.txt"
    );
    let args = GetDatabaseSchemaArgs { database_name: "other".to_string() };
    assert_eq!(
        refused(database_schema::execute_get_database_schema(Ok(args)))["message"],
        "invalid_database_name"
    );
}

#[test]
fn the_schema_of_mevdb_is_told_as_it_is() {
    assert_eq!(
        execute_get_mevdb_schema(Ok("create table x".to_string())),
        "create table x"
    );
    assert_eq!(
        execute_get_mevdb_schema(Err("no \"such\" file".to_string())),
        "{\"error\": \"failed_to_read_schema\", \"details\": \"failed to read mevdb schema file: no \\\"such\\\" file\"}"
    );
    let tool = mevdb_schema_tool();
    assert_eq!(tool.parameters.unwrap().required, Some(Vec::new()));
}

#[test]
fn the_one_manual_is_offered() {
    let tool = retrieve_manual_tool();
    assert_eq!(tool.name, "retrieve_manual");
    let parameters = tool.parameters.unwrap();
    assert_eq!(parameters.required, Some(vec!["manual_name".to_string()]));
    let value = ApiToolType::Function(retrieve_manual_tool()).to_json();
    assert_eq!(
        value["parameters"]["properties"]["manual_name"]["enum"].to_string(),
        "[\"generate_proposer_reimbursement_manual\"]"
    );
    assert_eq!(value["strict"], true);
}

#[test]
fn a_manual_is_told_from_its_file() {
    let asked = |name: &str| {
        execute_retrieve_manual(Ok(RetrieveManualArgs { manual_name: name.to_string() }))
    };
    let name = "generate_proposer_reimbursement_manual";
    match asked(name) {
        ManualFile::Read(path) => assert_eq!(
            path,
            "src/message_processor/tools/manuals/generate_proposer_reimbursement_manual.md"
        ),
        ManualFile::Reply(reply) => panic!("unexpected reply {reply}"),
    }
    match asked("other") {
        ManualFile::Read(path) => panic!("{path} would be read"),
        ManualFile::Reply(reply) => assert_eq!(read(&reply)["message"], "invalid_manual_name"),
    }
    let told = read(&get_manual_content_from_file(name, Ok("# how".to_string())));
    assert_eq!(told["manual_content"], "# how");
    let failed = read(&get_manual_content_from_file(name, Err("gone".to_string())));
    assert_eq!(failed["message"], "failed_to_read_manual_file");
}
