//! Queries, and how their rows are told.

use lexi::ai_interaction::tools::db_query::{
    connection_failed_reply, execute_db_query_common, execute_mevdb_query_tool, query_reply, Cell,
    Column, QueryAnswer, QueryStep, Readings,
};
use lexi::message_processor::tools::db_utils;
use lexi::message_processor::tools::mevdb_query::{check_mevdb_query, execute_mevdb_db_query};
use lexi::tools::sql_query_tool::{
    get_sql_tool_parameters, process_instruction_with_sql_tool, ChatMessage, Choice,
    SqlConversation, SqlEvent, SqlStep, ToolCall,
};
use lexi::time::Timestamp;
use lexi::tools::sql_select::{check_query, execute_db_query, screen_query, QueryVerdict};
use serde_json::Value;

fn read(text: &str) -> Value {
    serde_json::from_str(text).unwrap()
}

fn nothing() -> Readings {
    Readings {
        json: None,
        texts: None,
        text: None,
        big: None,
        small: None,
        fraction: None,
        decimal: None,
        flag: None,
        time: None,
    }
}

fn column(name: &str, cell: Cell) -> Column {
    Column {
        name: name.to_string(),
        sql_type: "TEXT".to_string(),
        sql_type_debug: "PgTypeInfo(Text)".to_string(),
        cell,
    }
}

fn text(value: &str) -> Cell {
    Cell::Value(Readings { text: Some(value.to_string()), ..nothing() })
}

#[test]
fn test_execute_db_query_common_all_types() {
    let row = vec![
        column("name", text("alice")),
        column("big", Cell::Value(Readings { big: Some(-5), ..nothing() })),
        column("small", Cell::Value(Readings { small: Some(7), ..nothing() })),
        column("ratio", Cell::Value(Readings { fraction: Some(Value::from(0.5)), ..nothing() })),
        column("price", Cell::Value(Readings { decimal: Some("1.20".to_string()), ..nothing() })),
        column("flag", Cell::Value(Readings { flag: Some(true), ..nothing() })),
        column(
            "at",
            Cell::Value(Readings {
                time: Some("2024-01-01T00:00:00+00:00".to_string()),
                ..nothing()
            }),
        ),
        column("nothing", Cell::Null),
        column("doc", Cell::Value(Readings { json: Some(read("{\"k\":[1]}")), ..nothing() })),
    ];
    let value = execute_db_query_common(QueryAnswer::Rows(vec![row]), "mevdb");
    assert_eq!(
        value.to_string(),
        "[{\"at\":\"2024-01-01T00:00:00+00:00\",\"big\":-5,\"doc\":{\"k\":[1]},\"flag\":true,\"name\":\"alice\",\"nothing\":null,\"price\":\"1.20\",\"ratio\":0.5,\"small\":7}]"
    );
}

#[test]
fn test_execute_db_query_common_with_enum() {
    let row = vec![column("mood", Cell::Enumerated(Ok("happy".to_string())))];
    let value = execute_db_query_common(QueryAnswer::Rows(vec![row]), "mevdb");
    assert_eq!(value[0]["mood"], "happy");
    let row = vec![column("mood", Cell::Enumerated(Err("bad utf-8".to_string())))];
    let value = execute_db_query_common(QueryAnswer::Rows(vec![row]), "mevdb");
    assert_eq!(value["status"], "error");
    assert_eq!(
        value["details"],
        "failed to convert enum column 'mood' (type: TEXT) to string using as_str(): bad utf-8. row: 0. application error."
    );
}

#[test]
fn test_execute_db_query_common_with_text_array() {
    let texts = Some(vec!["a".to_string(), "b".to_string()]);
    let row = vec![column("tags", Cell::Value(Readings { texts, ..nothing() }))];
    let value = execute_db_query_common(QueryAnswer::Rows(vec![row]), "mevdb");
    assert_eq!(value.to_string(), "[{\"tags\":[\"a\",\"b\"]}]");
}

#[test]
fn what_cannot_be_told_is_an_error() {
    let rows = vec![
        vec![column("a", text("x"))],
        vec![column("a", Cell::Value(nothing()))],
    ];
    let value = execute_db_query_common(QueryAnswer::Rows(rows), "mevdb");
    assert_eq!(
        value["details"],
        "unhandled or failed conversion for non-null sql type for column 'a' (type: TEXT) in row 1. this is an application error."
    );
    let rows = vec![vec![column("a", Cell::Unreadable("gone".to_string()))]];
    let value = execute_db_query_common(QueryAnswer::Rows(rows), "mevdb");
    assert_eq!(
        value["details"],
        "failed to retrieve raw value for column 'a' (type: PgTypeInfo(Text)) in row 0: gone. this might indicate a problem with the query or db connection."
    );
}

#[test]
fn queries_without_rows_or_luck_are_told_of() {
    assert_eq!(
        query_reply(QueryAnswer::Rows(Vec::new()), "mevdb"),
        "{\"message\":\"mevdb query executed successfully. no rows returned.\"}"
    );
    let failed = read(&query_reply(QueryAnswer::Failed("syntax".to_string()), "globaldb"));
    assert_eq!(failed["message"], "failed to execute globaldb sql query.");
    assert_eq!(failed["details"], "syntax");
    let late = read(&query_reply(QueryAnswer::TimedOut, "mevdb"));
    assert_eq!(late["message"], "mevdb sql query execution timed out.");
    assert_eq!(
        read(&connection_failed_reply("mevdb", "refused"))["message"],
        "mevdb query tool failed to connect to its database."
    );
}

#[test]
fn a_query_needs_its_arguments_and_an_address() {
    let url = Some("postgres://mev".to_string());
    match execute_mevdb_query_tool("{\"sql_query\":\"SELECT 1\"}", &url) {
        QueryStep::Run { db_url, sql_query } => {
            assert_eq!((db_url, sql_query.as_str()), ("postgres://mev", "SELECT 1"))
        }
        QueryStep::Reply(reply) => panic!("unexpected reply {reply}"),
    }
    let refused = |arguments: &str, url: &Option<String>| {
        match execute_mevdb_query_tool(arguments, url) {
            QueryStep::Run { .. } => panic!("the query would be run"),
            QueryStep::Reply(reply) => read(&reply),
        }
    };
    assert_eq!(
        refused("{\"sql_query\":\"SELECT 1\"}", &None)["message"],
        "mevdb query tool is not configured (missing MEVDB_DATABASE_URL)."
    );
    assert_eq!(
        refused("{}", &url)["details"],
        "expected json with a 'sql_query' key, got: {}"
    );
    assert_eq!(
        refused("{\"sql_query\":5}", &url)["message"],
        "failed to parse tool arguments as json."
    );
}

// ---------------------------------------------------------------------------------------------
// SELECT queries

#[test]
fn sql_select_test_execute_db_query_valid_select() {
    let query = "SELECT username, email FROM tool_test_users WHERE username = 'simple_alpha' ORDER BY id;";
    assert!(check_query(query).is_none());
    let row = vec![
        column("username", text("simple_alpha")),
        column("email", text("alpha@simpletest.com")),
    ];
    let result = execute_db_query(&Ok(vec![row]));
    assert_eq!(result["status"], "success");
    assert!(result["results"].is_array());
    let results_arr = result["results"].as_array().unwrap();
    assert_eq!(results_arr.len(), 1);
    assert_eq!(results_arr[0]["username"], "simple_alpha");
    assert_eq!(results_arr[0]["email"], "alpha@simpletest.com");
}

#[test]
fn sql_select_test_execute_db_query_non_select_rejected() {
    let query =
        "INSERT INTO tool_test_users (username, email) VALUES ('test_insert', 'insert@test.com');";
    let result = check_query(query).unwrap();
    assert_eq!(result["status"], "error");
    assert_eq!(
        result["message"],
        "invalid query type. only select queries are permitted."
    );
    assert_eq!(result["details"], format!("query was: {query}"));
}

#[test]
fn sql_select_test_execute_db_query_sql_error() {
    let result = execute_db_query(&Err("column \"non_existent_column\" does not exist".to_string()));
    assert_eq!(result["status"], "error");
    assert_eq!(result["message"], "failed to execute sql query.");
    assert!(result["details"]
        .as_str()
        .unwrap()
        .contains("column \"non_existent_column\" does not exist"));
}

#[test]
fn a_select_is_known_by_its_first_word() {
    assert!(check_query("  \n SeLeCt 1").is_none());
    assert!(check_query("selection").is_none());
    assert!(check_query("with x as (select 1) select * from x").is_some());
    assert!(check_query("").is_some());
}

#[test]
fn unknown_values_are_null() {
    let row = vec![
        column("a", Cell::Value(Readings { decimal: Some("1".to_string()), ..nothing() })),
        column("b", Cell::Unreadable("gone".to_string())),
        column("c", Cell::Value(Readings { small: Some(3), ..nothing() })),
    ];
    let result = execute_db_query(&Ok(vec![row]));
    assert_eq!(result["results"].to_string(), "[{\"a\":null,\"b\":null,\"c\":3}]");
    let empty = execute_db_query(&Ok(Vec::new()));
    assert_eq!(
        empty["message"],
        "query executed successfully. no rows returned."
    );
    assert_eq!(empty["results"].to_string(), "[]");
}

#[test]
fn mevdb_takes_selects_only() {
    match check_mevdb_query("select 1".to_string(), None) {
        QueryVerdict::Run(query) => assert_eq!(query, "select 1"),
        QueryVerdict::Refuse(reply) => panic!("unexpected reply {reply}"),
    }
    let refused_for = |connection: Option<&str>| {
        match check_mevdb_query("drop table x".to_string(), connection) {
            QueryVerdict::Run(query) => panic!("{query} would be run"),
            QueryVerdict::Refuse(reply) => read(&reply),
        }
    };
    let refused = refused_for(None);
    assert_eq!(
        refused["message"],
        "invalid query type. only select queries are permitted for mevdb."
    );
    let failed = refused_for(Some("refused"));
    assert_eq!(failed["message"], "failed to connect to the mevdb database.");
    assert_eq!(
        execute_mevdb_db_query(&Ok(vec![vec![column("a", text("x"))]])),
        "[{\"a\":\"x\"}]"
    );
    assert_eq!(
        execute_mevdb_db_query(&Ok(Vec::new())),
        "{\"message\":\"mevdb query executed successfully. no rows returned.\"}"
    );
}

#[test]
fn plain_rows_are_told_with_both_type_names() {
    let good = vec![
        column("price", Cell::Value(Readings { decimal: Some("1.5".to_string()), ..nothing() })),
        column("none", Cell::Null),
    ];
    let value = db_utils::execute_db_query_common(&Ok(vec![good]), "mevdb");
    assert_eq!(value.to_string(), "[{\"none\":null,\"price\":\"1.5\"}]");
    let bad = vec![column("doc", Cell::Value(Readings { json: Some(Value::Null), ..nothing() }))];
    let value = db_utils::execute_db_query_common(&Ok(vec![bad]), "mevdb");
    assert_eq!(
        value["details"],
        "unhandled or failed conversion for non-null sql type for column 'doc' (type: PgTypeInfo(Text), reported type name: TEXT) in row 0. this is an application error."
    );
    let value = db_utils::execute_db_query_common(&Err("syntax".to_string()), "globaldb");
    assert_eq!(value["message"], "failed to execute globaldb sql query.");
}

// ---------------------------------------------------------------------------------------------
// An instruction answered by way of SQL

fn tool_call(id: &str, name: &str, arguments: &str) -> ToolCall {
    ToolCall {
        id: id.to_string(),
        is_function: true,
        name: name.to_string(),
        arguments: arguments.to_string(),
    }
}

fn next(conversation: &mut SqlConversation, event: SqlEvent) -> SqlStep {
    process_instruction_with_sql_tool(conversation, event)
}

#[test]
fn calls_are_answered_in_order() {
    let mut conversation = SqlConversation::new("how many users?".to_string());
    assert!(matches!(next(&mut conversation, SqlEvent::Begin), SqlStep::Ask));
    let calls = vec![
        tool_call("c1", "other_tool", "{}"),
        tool_call("c2", "execute_sql_query", "not json"),
        tool_call("c3", "execute_sql_query", "{\"sql_query\":\"select 1\"}"),
        tool_call("c4", "execute_sql_query", "{}"),
        tool_call("c5", "execute_sql_query", "{\"sql_query\":\"drop table users\"}"),
    ];
    let choice = Choice { content: None, tool_calls: Some(calls) };
    match next(&mut conversation, SqlEvent::First(Some(choice))) {
        SqlStep::RunQuery(query) => assert_eq!(query, "select 1"),
        _ => panic!("no query is run"),
    }
    let step = next(&mut conversation, SqlEvent::Rows(Ok(Vec::new())));
    assert!(matches!(step, SqlStep::AskAgain));
    let answered: Vec<(String, String)> = conversation
        .messages()
        .iter()
        .filter_map(|message| match message {
            ChatMessage::Tool { call_id, content } => Some((call_id.clone(), content.clone())),
            _ => None,
        })
        .collect();
    assert_eq!(answered.len(), 4);
    assert_eq!(answered[0].0, "c2");
    assert!(answered[0].1.contains("(sql tool) failed to parse tool args: "));
    assert_eq!(
        answered[1],
        ("c3".to_string(), execute_db_query(&Ok(Vec::new())).to_string())
    );
    assert_eq!(
        answered[2],
        (
            "c4".to_string(),
            "{\"message\":\"(sql tool) 'sql_query' missing/invalid.\",\"status\":\"error\"}"
                .to_string()
        )
    );
    assert_eq!(
        answered[3],
        (
            "c5".to_string(),
            "{\"details\":\"query was: drop table users\",\"message\":\"invalid query type. only select queries are permitted.\",\"status\":\"error\"}"
                .to_string()
        )
    );
}

fn finished(event: SqlEvent) -> Result<String, String> {
    let mut conversation = SqlConversation::new("hello".to_string());
    match next(&mut conversation, event) {
        SqlStep::Finish(result) => result,
        _ => panic!("the conversation goes on"),
    }
}

#[test]
fn a_direct_answer_needs_no_query() {
    let choice = Choice { content: Some("hi".to_string()), tool_calls: None };
    assert_eq!(finished(SqlEvent::First(Some(choice))), Ok("hi".to_string()));
    let choice = Choice { content: None, tool_calls: None };
    assert_eq!(
        finished(SqlEvent::First(Some(choice))),
        Err("(sql tool) first ai response had no content or tool calls.".to_string())
    );
    assert_eq!(
        finished(SqlEvent::First(None)),
        Err("(sql tool) no choices in first openai response.".to_string())
    );
}

#[test]
fn the_second_answer_is_the_result() {
    assert_eq!(
        finished(SqlEvent::Second(Some(Some("two".to_string())))),
        Ok("two".to_string())
    );
    assert_eq!(
        finished(SqlEvent::Second(Some(None))),
        Err("(sql tool) second ai response had no content.".to_string())
    );
    assert_eq!(
        finished(SqlEvent::Second(None)),
        Err("(sql tool) no choices in second openai response.".to_string())
    );
    assert_eq!(get_sql_tool_parameters()["required"][0], "sql_query");
}

#[test]
fn rows_that_nothing_waits_for_are_passed_over() {
    let mut conversation = SqlConversation::new("hello".to_string());
    let step = next(&mut conversation, SqlEvent::Rows(Ok(Vec::new())));
    assert!(matches!(step, SqlStep::AskAgain));
    assert_eq!(conversation.messages().len(), 2);
}

#[test]
fn a_query_is_run_or_refused() {
    match screen_query(" SELECT 1".to_string()) {
        QueryVerdict::Run(query) => assert_eq!(query, " SELECT 1"),
        QueryVerdict::Refuse(reply) => panic!("unexpected reply {reply}"),
    }
    match screen_query("update users set id = 1".to_string()) {
        QueryVerdict::Run(query) => panic!("{query} would be run"),
        QueryVerdict::Refuse(reply) => {
            assert_eq!(read(&reply)["details"], "query was: update users set id = 1")
        }
    }
}

#[test]
fn a_time_is_told_as_a_text() {
    let text_of = |seconds: i64, nanos: u32| Timestamp { seconds, nanos }.text();
    assert_eq!(
        text_of(1_704_067_200, 0).as_deref(),
        Some("2024-01-01T00:00:00+00:00")
    );
    assert_eq!(
        text_of(1_706_869_800, 500_000_000).as_deref(),
        Some("2024-02-02T10:30:00.500+00:00")
    );
    assert_eq!(text_of(8_210_266_876_800, 0), None);
}
