//! The tools that the model may call.

use lexi::ai_interaction::tools::admin_session_end::execute_admin_session_end_tool;
use lexi::ai_interaction::tools::beacon_slot_check::{
    execute_beacon_slot_check, header_url, parse_slot_number_arg, read_slot_answer,
    slot_check_reply, SlotCheck,
};
use lexi::ai_interaction::tools::conversation_admin::{
    execute_conversation_admin_command, expected_admin_code, ADMIN_CODE_PARAM_NAME,
    GPT_5_MINI_MODEL_ID, GPT_5_MODEL_ID, MODEL_ID_PARAM_NAME, RESET_CONVERSATION_COMMAND_NAME,
    SET_OPENAI_MODEL_COMMAND_NAME,
};
use lexi::ai_interaction::tools::db_schema::{
    cache_key, execute_get_database_schema, read_schema, LiveSchemaFetcher, SchemaAnswer,
    SchemaFetch, SchemaStep,
};
use lexi::ai_interaction::tools::relay_circuit_breaker::{
    execute_relay_circuit_breaker_tool, parse_circuit_breaker_args, request_failed_reply,
    set_state, BreakerStep, RelayCircuitBreaker, ADJUSTMENT_CIRCUIT_BREAKER_PATH,
    AUCTION_CIRCUIT_BREAKER_PATH, COMMAND_PARAM, ENABLED_PARAM,
    SET_ADJUSTMENT_CIRCUIT_BREAKER_COMMAND, SET_AUCTION_CIRCUIT_BREAKER_COMMAND,
};
use lexi::ai_interaction::tools::retrieve_manual::{
    execute_retrieve_manual, get_manual_content, Manuals, RetrieveManualArgs,
    GENERATE_PROPOSER_REIMBURSEMENT_MANUAL_NAME, RELAY_DYNAMICS_MANUAL_NAME,
};
use lexi::time::Timestamp;
use serde_json::Value;

fn read(text: &str) -> Value {
    serde_json::from_str(text).unwrap()
}

fn object(members: &[(&str, Value)]) -> String {
    let mut map = serde_json::Map::new();
    for (name, value) in members {
        map.insert(name.to_string(), value.clone());
    }
    Value::Object(map).to_string()
}

fn string(text: &str) -> Value {
    Value::String(text.to_string())
}

// ---------------------------------------------------------------------------------------------
// Slot checks

#[test]
fn test_parse_valid_slot_number() {
    let args_json = object(&[("slot_number", Value::from(12345))]);
    assert_eq!(parse_slot_number_arg(&args_json), Ok(12345u64));
}

#[test]
fn test_parse_slot_number_not_u64() {
    let args_json = object(&[("slot_number", string("not_a_number"))]);
    match parse_slot_number_arg(&args_json) {
        Ok(_) => panic!("expected error for non-u64 slot_number"),
        Err(e) => assert!(e.contains("argument 'slot_number' was not a valid u64")),
    }
}

#[test]
fn test_parse_slot_number_negative_integer() {
    let args_json = object(&[("slot_number", Value::from(-10))]);
    match parse_slot_number_arg(&args_json) {
        Ok(_) => panic!("expected error for negative slot_number"),
        Err(e) => assert!(e.contains("argument 'slot_number' was not a valid u64")),
    }
}

#[test]
fn test_parse_slot_number_missing() {
    let args_json = object(&[("other_arg", Value::from(123))]);
    match parse_slot_number_arg(&args_json) {
        Ok(_) => panic!("expected error for missing slot_number"),
        Err(e) => assert!(e.contains("argument 'slot_number' missing")),
    }
}

#[test]
fn test_parse_malformed_json() {
    let args_json = "this is not json";
    match parse_slot_number_arg(args_json) {
        Ok(_) => panic!("expected error for malformed json"),
        Err(e) => assert!(e.contains("failed to parse arguments json")),
    }
}

#[test]
fn test_parse_empty_json_object() {
    let args_json = object(&[]);
    match parse_slot_number_arg(&args_json) {
        Ok(_) => panic!("expected error for empty json object (missing slot_number)"),
        Err(e) => assert!(e.contains("argument 'slot_number' missing")),
    }
}

fn checked(slot_number: u64, answer: Result<u16, String>) -> String {
    let args = object(&[("slot_number", Value::from(slot_number))]);
    match execute_beacon_slot_check(&args) {
        SlotCheck::Ask(slot) => {
            assert_eq!(slot, slot_number);
            slot_check_reply(slot, answer)
        }
        SlotCheck::Reply(reply) => panic!("unexpected reply {reply}"),
    }
}

#[test]
fn test_execute_slot_check_not_missed() {
    let expected_json = object(&[
        ("status", string("not_missed")),
        ("message", string("a block header was found for the specified slot.")),
    ]);
    assert_eq!(checked(12345, Ok(200)), expected_json);
}

#[test]
fn test_execute_slot_check_missed() {
    let expected_json = object(&[
        ("status", string("missed")),
        ("message", string("the specified slot was missed (no block header found).")),
    ]);
    assert_eq!(checked(54321, Ok(404)), expected_json);
}

#[test]
fn test_execute_slot_check_other_status_code() {
    let expected_json = object(&[
        ("status", string("error")),
        ("message", string("an error occurred while checking the slot.")),
        (
            "details",
            string("beacon node responded with http status: 500 internal server error"),
        ),
    ]);
    assert_eq!(checked(67890, Ok(500)), expected_json);
}

#[test]
fn test_execute_slot_check_beacon_node_service_error() {
    let slot_number = 91011u64;
    let error_msg = "network connection failed".to_string();
    let expected_json = object(&[
        ("status", string("error")),
        ("message", string("an error occurred while checking the slot.")),
        (
            "details",
            string(&format!(
                "failed to query beacon node for slot {}: {}",
                slot_number, error_msg
            )),
        ),
    ]);
    assert_eq!(checked(slot_number, Err(error_msg)), expected_json);
}

fn refused(args: &str) -> String {
    match execute_beacon_slot_check(args) {
        SlotCheck::Ask(slot) => panic!("the node would be asked for {slot}"),
        SlotCheck::Reply(reply) => reply,
    }
}

#[test]
fn test_execute_invalid_slot_arg_handled() {
    let args = object(&[("slot_number", string("not_a_number"))]);
    let expected_json = object(&[
        ("status", string("error")),
        ("message", string("invalid_argument")),
        ("details", string("argument 'slot_number' was not a valid u64")),
    ]);
    assert_eq!(refused(&args), expected_json);
}

#[test]
fn test_execute_missing_slot_arg_handled() {
    let args = object(&[("other_arg", Value::from(123))]);
    let expected_json = object(&[
        ("status", string("error")),
        ("message", string("invalid_argument")),
        ("details", string("argument 'slot_number' missing")),
    ]);
    assert_eq!(refused(&args), expected_json);
}

#[test]
fn test_execute_malformed_json_arg_handled() {
    let result_json = read(&refused("not json"));
    assert_eq!(result_json["status"], "error");
    assert_eq!(result_json["message"], "argument_parsing_error");
    assert!(result_json["details"]
        .as_str()
        .unwrap()
        .contains("failed to parse arguments json"));
}

#[test]
fn the_largest_slot_is_a_slot() {
    let args_json = object(&[("slot_number", Value::from(u64::MAX))]);
    assert_eq!(parse_slot_number_arg(&args_json), Ok(u64::MAX));
    let args_json = "{\"slot_number\": 18446744073709551616}";
    assert!(parse_slot_number_arg(args_json).is_err());
}

#[test]
fn a_status_without_a_phrase_is_unknown() {
    let reply = read(&read_slot_answer(7, Ok(599), &None));
    assert_eq!(
        reply["details"],
        "beacon node responded with http status: 599 <unknown status code>"
    );
    assert_eq!(
        header_url("http://node", 7),
        "http://node/eth/v1/beacon/headers/7"
    );
}

// ---------------------------------------------------------------------------------------------
// Admin commands

fn admin(members: &[(&str, Value)]) -> Value {
    read(&execute_conversation_admin_command(&object(members), "vatu"))
}

#[test]
fn test_execute_conversation_admin_command_success() {
    let result_json = admin(&[
        ("command", string(RESET_CONVERSATION_COMMAND_NAME)),
        (ADMIN_CODE_PARAM_NAME, string("vatu")),
    ]);
    assert_eq!(result_json["action"], "reset_conversation");
    assert_eq!(result_json["status"], "success");
}

#[test]
fn test_execute_conversation_admin_invalid_command() {
    let result_json = admin(&[
        ("command", string("wrong_command")),
        (ADMIN_CODE_PARAM_NAME, string("vatu")),
    ]);
    assert_eq!(result_json["status"], "error");
    assert!(result_json["message"]
        .as_str()
        .unwrap()
        .contains("invalid command"));
}

#[test]
fn test_execute_conversation_admin_invalid_code() {
    let result_json = admin(&[
        ("command", string(RESET_CONVERSATION_COMMAND_NAME)),
        (ADMIN_CODE_PARAM_NAME, string("wrong_code")),
    ]);
    assert_eq!(result_json["status"], "error");
    assert_eq!(result_json["message"], "invalid admin_code provided.");
}

#[test]
fn test_execute_conversation_admin_missing_command() {
    let result_json = admin(&[(ADMIN_CODE_PARAM_NAME, string("vatu"))]);
    assert_eq!(result_json["status"], "error");
    assert_eq!(
        result_json["message"].as_str().unwrap(),
        "missing required argument: 'command'"
    );
}

#[test]
fn test_execute_conversation_admin_missing_code() {
    let result_json = admin(&[("command", string(RESET_CONVERSATION_COMMAND_NAME))]);
    assert_eq!(result_json["status"], "error");
    let msg = result_json["message"].as_str().unwrap();
    assert!(!msg.contains("'command'"));
    assert_eq!(
        msg,
        &format!("missing required argument: '{ADMIN_CODE_PARAM_NAME}'")
    );
}

#[test]
fn test_execute_conversation_admin_malformed_json() {
    let result_json = read(&execute_conversation_admin_command("not a json string", "vatu"));
    assert_eq!(result_json["status"], "error");
    assert_eq!(
        result_json["message"],
        "failed to parse tool arguments as json."
    );
}

#[test]
fn test_execute_conversation_admin_empty_json_object() {
    let result_json = read(&execute_conversation_admin_command("{}", "vatu"));
    assert_eq!(result_json["status"], "error");
    let msg = result_json["message"].as_str().unwrap();
    assert!(!msg.contains("'command'"));
    assert_eq!(
        msg,
        &format!("missing required argument: '{ADMIN_CODE_PARAM_NAME}'")
    );
}

#[test]
fn test_set_model_success() {
    let model_id = GPT_5_MINI_MODEL_ID;
    let result_json = admin(&[
        ("command", string(SET_OPENAI_MODEL_COMMAND_NAME)),
        (ADMIN_CODE_PARAM_NAME, string("vatu")),
        (MODEL_ID_PARAM_NAME, string(model_id)),
    ]);
    assert_eq!(result_json["status"], "success");
    assert_eq!(result_json["action"], "model_updated");
    assert_eq!(result_json["new_model_id"], model_id);
    assert!(result_json["message"].as_str().unwrap().contains(model_id));
}

#[test]
fn test_set_model_invalid_model_id() {
    let model_id = "gpt-invalid";
    let result_json = admin(&[
        ("command", string(SET_OPENAI_MODEL_COMMAND_NAME)),
        (ADMIN_CODE_PARAM_NAME, string("vatu")),
        (MODEL_ID_PARAM_NAME, string(model_id)),
    ]);
    assert_eq!(result_json["status"], "error");
    assert_eq!(result_json["message"], "invalid_parameter_value");
    let details = result_json["details"].as_str().unwrap();
    assert!(details.contains(model_id));
    assert!(details.contains(GPT_5_MODEL_ID));
    assert!(details.contains(GPT_5_MINI_MODEL_ID));
}

#[test]
fn test_set_model_missing_model_id_param() {
    let result_json = admin(&[
        ("command", string(SET_OPENAI_MODEL_COMMAND_NAME)),
        (ADMIN_CODE_PARAM_NAME, string("vatu")),
    ]);
    assert_eq!(result_json["status"], "error");
    assert_eq!(
        result_json["message"],
        "missing_required_argument_for_command"
    );
    let details = result_json["details"].as_str().unwrap();
    assert!(details.contains(MODEL_ID_PARAM_NAME));
    assert!(details.contains(SET_OPENAI_MODEL_COMMAND_NAME));
}

#[test]
fn test_set_model_invalid_admin_code() {
    let result_json = admin(&[
        ("command", string(SET_OPENAI_MODEL_COMMAND_NAME)),
        (ADMIN_CODE_PARAM_NAME, string("wrong_admin_code")),
        (MODEL_ID_PARAM_NAME, string(GPT_5_MODEL_ID)),
    ]);
    assert_eq!(result_json["status"], "error");
    assert_eq!(result_json["message"], "invalid admin_code provided.");
}

#[test]
fn the_admin_code_is_the_configured_one() {
    assert_eq!(expected_admin_code(Some("sesame")), "sesame");
    assert_eq!(expected_admin_code(None), "vatu");
}

#[test]
fn ending_a_session_is_an_action() {
    let reply = read(&execute_admin_session_end_tool("{}"));
    assert_eq!(reply["action"], "end_admin_session");
    assert_eq!(reply["status"], "success");
}

// ---------------------------------------------------------------------------------------------
// Circuit breakers

fn switched(command: &str, enabled: bool) -> (&'static str, bool) {
    let args_json = object(&[
        (COMMAND_PARAM, string(command)),
        (ENABLED_PARAM, Value::Bool(enabled)),
    ]);
    match execute_relay_circuit_breaker_tool(&args_json) {
        BreakerStep::Switch { relative_path, enabled, command: _ } => (relative_path, enabled),
        BreakerStep::Reply(reply) => panic!("unexpected reply {reply}"),
    }
}

fn breaker_refused(args_json: &str) -> Value {
    match execute_relay_circuit_breaker_tool(args_json) {
        BreakerStep::Switch { relative_path, .. } => panic!("{relative_path} would be switched"),
        BreakerStep::Reply(reply) => read(&reply),
    }
}

#[test]
fn test_execute_set_adjustment_breaker_success() {
    let breaker = RelayCircuitBreaker::new(
        "test_token_success".to_string(),
        "http://127.0.0.1:1234".to_string(),
    );
    assert_eq!(
        breaker.state_url(ADJUSTMENT_CIRCUIT_BREAKER_PATH, true),
        "http://127.0.0.1:1234/ultrasound/v1/admin/adjustment_circuit_breaker?token=test_token_success&enable=true"
    );
    let result_json = read(&set_state(
        ADJUSTMENT_CIRCUIT_BREAKER_PATH,
        true,
        200,
        Some("{\"message\": \"adjustment circuit breaker enabled\"}".to_string()),
    ));
    assert_eq!(result_json["status"], "success");
    assert!(result_json["message"]
        .as_str()
        .unwrap()
        .contains(ADJUSTMENT_CIRCUIT_BREAKER_PATH));
    assert!(result_json["message"].as_str().unwrap().contains("true"));
}

#[test]
fn test_execute_set_auction_breaker_disabled_success() {
    let breaker = RelayCircuitBreaker::new(
        "test_token_auction_disabled".to_string(),
        "http://127.0.0.1:1234".to_string(),
    );
    assert_eq!(
        breaker.state_url(AUCTION_CIRCUIT_BREAKER_PATH, false),
        "http://127.0.0.1:1234/ultrasound/v1/admin/auction_circuit_breaker?token=test_token_auction_disabled&enable=false"
    );
    let result_json = read(&set_state(
        AUCTION_CIRCUIT_BREAKER_PATH,
        false,
        200,
        Some("{\"message\": \"auction circuit breaker disabled\"}".to_string()),
    ));
    assert_eq!(result_json["status"], "success");
    assert!(result_json["message"]
        .as_str()
        .unwrap()
        .contains(AUCTION_CIRCUIT_BREAKER_PATH));
    assert!(result_json["message"].as_str().unwrap().contains("false"));
}

#[test]
fn test_execute_tool_with_valid_args_adjustment_enabled() {
    assert_eq!(
        switched(SET_ADJUSTMENT_CIRCUIT_BREAKER_COMMAND, true),
        (ADJUSTMENT_CIRCUIT_BREAKER_PATH, true)
    );
    let breaker = RelayCircuitBreaker::new(
        "test_token_execute_adj".to_string(),
        "http://127.0.0.1:1234".to_string(),
    );
    assert_eq!(
        breaker.state_url(ADJUSTMENT_CIRCUIT_BREAKER_PATH, true),
        "http://127.0.0.1:1234/ultrasound/v1/admin/adjustment_circuit_breaker?token=test_token_execute_adj&enable=true"
    );
    let result_json = read(&set_state(
        ADJUSTMENT_CIRCUIT_BREAKER_PATH,
        true,
        200,
        Some("{\"message\": \"adjustment cb enabled\"}".to_string()),
    ));
    assert_eq!(result_json["status"], "success");
    assert!(result_json["message"]
        .as_str()
        .unwrap()
        .contains(ADJUSTMENT_CIRCUIT_BREAKER_PATH));
}

#[test]
fn test_execute_tool_with_valid_args_auction_disabled() {
    assert_eq!(
        switched(SET_AUCTION_CIRCUIT_BREAKER_COMMAND, false),
        (AUCTION_CIRCUIT_BREAKER_PATH, false)
    );
    let breaker = RelayCircuitBreaker::new(
        "test_token_execute_auc".to_string(),
        "http://127.0.0.1:1234".to_string(),
    );
    assert_eq!(
        breaker.state_url(AUCTION_CIRCUIT_BREAKER_PATH, false),
        "http://127.0.0.1:1234/ultrasound/v1/admin/auction_circuit_breaker?token=test_token_execute_auc&enable=false"
    );
    let result_json = read(&set_state(
        AUCTION_CIRCUIT_BREAKER_PATH,
        false,
        200,
        Some("{\"message\": \"auction cb disabled\"}".to_string()),
    ));
    assert_eq!(result_json["status"], "success");
    assert!(result_json["message"]
        .as_str()
        .unwrap()
        .contains(AUCTION_CIRCUIT_BREAKER_PATH));
}

#[test]
fn test_relay_returns_error_status() {
    let result_json = read(&set_state(
        AUCTION_CIRCUIT_BREAKER_PATH,
        true,
        500,
        Some("{\"error\": \"internal server blew up\"}".to_string()),
    ));
    assert_eq!(result_json["status"], "error");
    assert!(result_json["message"]
        .as_str()
        .unwrap()
        .contains("responded with status 500"));
    assert!(result_json["details"]
        .as_str()
        .unwrap()
        .contains("internal server blew up"));
}

#[test]
fn test_http_request_failure() {
    let reply = read(&request_failed_reply(
        SET_ADJUSTMENT_CIRCUIT_BREAKER_COMMAND,
        ADJUSTMENT_CIRCUIT_BREAKER_PATH,
    ));
    assert_eq!(reply["status"], "error");
    assert!(reply.to_string().contains("http request failed"));
    assert!(reply.to_string().contains(ADJUSTMENT_CIRCUIT_BREAKER_PATH));
}

#[test]
fn test_invalid_command_argument_in_execute_tool() {
    let result_json = breaker_refused(&object(&[
        (COMMAND_PARAM, string("invalid_command_name")),
        (ENABLED_PARAM, Value::Bool(true)),
    ]));
    assert_eq!(result_json["status"], "error");
    assert_eq!(result_json["message"], "invalid_argument");
    assert!(result_json["details"]
        .as_str()
        .unwrap()
        .contains("invalid command 'invalid_command_name'"));
}

#[test]
fn test_missing_enabled_argument_in_execute_tool() {
    let result_json = breaker_refused(&object(&[(
        COMMAND_PARAM,
        string(SET_ADJUSTMENT_CIRCUIT_BREAKER_COMMAND),
    )]));
    assert_eq!(result_json["status"], "error");
    assert_eq!(result_json["message"], "invalid_argument");
    let details = result_json["details"].as_str().unwrap();
    assert!(details.contains("missing or invalid argument(s)"));
    assert!(details.contains(ENABLED_PARAM));
}

#[test]
fn test_malformed_arguments_json_in_execute_tool() {
    let result_json = breaker_refused("this is not json");
    assert_eq!(result_json["status"], "error");
    assert_eq!(result_json["message"], "argument_parsing_error");
    assert!(result_json["details"]
        .as_str()
        .unwrap()
        .contains("failed to parse arguments json"));
}

#[test]
fn test_parse_args_valid() {
    let args_json = object(&[
        (COMMAND_PARAM, string(SET_AUCTION_CIRCUIT_BREAKER_COMMAND)),
        (ENABLED_PARAM, Value::Bool(true)),
    ]);
    let parsed = parse_circuit_breaker_args(&args_json).unwrap();
    assert_eq!(parsed.command, SET_AUCTION_CIRCUIT_BREAKER_COMMAND);
    assert!(parsed.enabled);
}

#[test]
fn test_parse_args_missing_command() {
    let args_json = object(&[(ENABLED_PARAM, Value::Bool(false))]);
    let err = parse_circuit_breaker_args(&args_json).err().unwrap();
    assert!(err.contains(COMMAND_PARAM));
    assert!(err.contains("missing or invalid argument(s)"));
}

#[test]
fn test_parse_args_missing_enabled() {
    let args_json = object(&[(COMMAND_PARAM, string(SET_ADJUSTMENT_CIRCUIT_BREAKER_COMMAND))]);
    let err = parse_circuit_breaker_args(&args_json).err().unwrap();
    assert!(err.contains(ENABLED_PARAM));
    assert!(err.contains("missing or invalid argument(s)"));
}

#[test]
fn test_parse_args_invalid_command_type() {
    let args_json = object(&[
        (COMMAND_PARAM, Value::from(123)),
        (ENABLED_PARAM, Value::Bool(true)),
    ]);
    let err = parse_circuit_breaker_args(&args_json).err().unwrap();
    assert!(err.contains(COMMAND_PARAM));
    assert!(err.contains("must be a string"));
}

#[test]
fn test_parse_args_invalid_enabled_type() {
    let args_json = object(&[
        (COMMAND_PARAM, string(SET_AUCTION_CIRCUIT_BREAKER_COMMAND)),
        (ENABLED_PARAM, string("true_string")),
    ]);
    let err = parse_circuit_breaker_args(&args_json).err().unwrap();
    assert!(err.contains(ENABLED_PARAM));
    assert!(err.contains("must be a boolean"));
}

#[test]
fn test_parse_args_malformed_json() {
    let args_json = "not a json {";
    let err = parse_circuit_breaker_args(args_json).err().unwrap();
    assert!(err.contains("failed to parse arguments json"));
}

// ---------------------------------------------------------------------------------------------
// Manuals

fn manuals() -> Manuals {
    Manuals {
        generate_proposer_reimbursement: "# how to reimburse".to_string(),
        relay_dynamics: "# how the relay works".to_string(),
    }
}

#[test]
fn test_execute_retrieve_manual_success() {
    let manual_name = GENERATE_PROPOSER_REIMBURSEMENT_MANUAL_NAME;
    let args = RetrieveManualArgs { manual_name: manual_name.to_string() };
    let result_json = read(&execute_retrieve_manual(&manuals(), Ok(args)));
    assert_eq!(result_json["manual_name"], manual_name);
    assert_eq!(result_json["manual_content"], "# how to reimburse");
}

#[test]
fn test_execute_retrieve_manual_invalid_name() {
    let manual_name = "non_existent_manual";
    let args = RetrieveManualArgs { manual_name: manual_name.to_string() };
    let result_json = read(&execute_retrieve_manual(&manuals(), Ok(args)));
    assert_eq!(result_json["status"], "error");
    assert_eq!(result_json["message"], "invalid_manual_name");
    assert!(result_json["details"]
        .as_str()
        .unwrap()
        .contains(manual_name));
}

#[test]
fn test_execute_retrieve_manual_malformed_json_args() {
    let result_json = read(&execute_retrieve_manual(
        &manuals(),
        Err("expected `,` or `}` at line 1 column 24".to_string()),
    ));
    assert_eq!(result_json["status"], "error");
    assert_eq!(result_json["message"], "argument_parsing_error");
}

#[test]
fn test_get_manual_content_success() {
    let manual_name = GENERATE_PROPOSER_REIMBURSEMENT_MANUAL_NAME;
    let result = get_manual_content(&manuals(), manual_name);
    assert!(result.is_ok());
    assert_eq!(result.unwrap(), "# how to reimburse");
    assert_eq!(
        get_manual_content(&manuals(), RELAY_DYNAMICS_MANUAL_NAME),
        Ok("# how the relay works".to_string())
    );
}

#[test]
fn test_get_manual_content_not_found() {
    let manual_name = "surely_this_manual_does_not_exist_for_test";
    let result = get_manual_content(&manuals(), manual_name);
    assert!(result.is_err());
    let err_msg = result.err().unwrap().to_string();
    assert!(err_msg.contains("unknown manual name"));
    assert!(err_msg.contains(manual_name));
}

// ---------------------------------------------------------------------------------------------
// Schemas

fn at(seconds: i64) -> Timestamp {
    Timestamp { seconds, nanos: 0 }
}

#[test]
fn test_get_schema_cached() {
    let cached_schema = "{\"tables\":[]}".to_string();
    assert_eq!(cache_key("mevdb"), "db_schema_mevdb");
    let kept = Ok(Some((cached_schema.clone(), at(1_000_000))));
    match execute_get_database_schema(kept, at(1_000_000)) {
        SchemaStep::Reply(schema) => assert_eq!(schema, cached_schema),
        SchemaStep::Fetch => panic!("what is fresh is not fetched"),
    }
}

#[test]
fn test_stale_cache_is_refetched() {
    let stale_schema = "{\"tables\":[\"stale\"]}".to_string();
    let kept = Ok(Some((stale_schema, at(1_000_000))));
    let eight_days_later = at(1_000_000 + 8 * 86_400);
    assert!(matches!(
        execute_get_database_schema(kept, eight_days_later),
        SchemaStep::Fetch
    ));
    let mut schema = serde_json::Map::new();
    schema.insert("tables".to_string(), Value::Array(vec![string("new")]));
    let (reply, keep) = read_schema("testdb_stale", SchemaAnswer::Schema(Value::Object(schema)));
    assert_eq!(reply, "{\"tables\":[\"new\"]}");
    assert!(keep);
}

#[test]
fn a_schema_counts_for_seven_days() {
    let kept = Ok(Some(("{}".to_string(), at(0))));
    assert!(matches!(
        execute_get_database_schema(kept, at(7 * 86_400)),
        SchemaStep::Reply(_)
    ));
    let kept = Ok(Some(("{}".to_string(), at(0))));
    assert!(matches!(
        execute_get_database_schema(kept, at(7 * 86_400 + 1)),
        SchemaStep::Fetch
    ));
    assert!(matches!(
        execute_get_database_schema(Ok(None), at(0)),
        SchemaStep::Fetch
    ));
}

#[test]
fn a_failed_fetch_is_told_and_not_kept() {
    let (reply, keep) = read_schema("mevdb", SchemaAnswer::QueryFailed("no such table".to_string()));
    assert!(!keep);
    assert_eq!(read(&reply)["message"], "database_query_failed");
    let (_, keep) = read_schema("mevdb", SchemaAnswer::ConnectionFailed("refused".to_string()));
    assert!(!keep);
}

#[test]
fn only_known_databases_are_fetched() {
    let fetcher = LiveSchemaFetcher::new(Some("postgres://mev".to_string()), None);
    match fetcher.fetch("mevdb") {
        SchemaFetch::Connect(url) => assert_eq!(url, "postgres://mev"),
        SchemaFetch::Reply(reply) => panic!("unexpected reply {reply}"),
    }
    match fetcher.fetch("globaldb") {
        SchemaFetch::Connect(url) => panic!("{url} is not known"),
        SchemaFetch::Reply(reply) => assert_eq!(read(&reply)["status"], "error"),
    }
    match fetcher.fetch("otherdb") {
        SchemaFetch::Connect(url) => panic!("{url} is not known"),
        SchemaFetch::Reply(reply) => {
            assert_eq!(read(&reply)["message"], "invalid_database_name")
        }
    }
}
