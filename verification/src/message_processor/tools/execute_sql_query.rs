//! The tool that runs SELECT queries, and how the model is told of them.

use super::common::leading_assistant_text;
use super::common;
use crate::ai_interaction::tools;
use crate::ai_interaction::tools::function_tool;
use crate::json;
use crate::json::asked_string;
use crate::openai_api::types;
use crate::openai_api::types::{
    OpenAiApiResponse, OutputFunctionCall, ToolDefinition, ToolFunctionParameterPropertyBuilder,
    ToolProperties,
};
use crate::text;
use crate::tools::sql_select;
use crate::tools::sql_select::{screen_query, QueryVerdict, SQL_TOOL_NAME};
use vstd::prelude::*;

verus! {

/// The tool, which takes a query.
pub open spec fn sql_tool() -> types::ToolView {
    tools::tool_with(
        "execute_sql_query"@,
        "executes a sql select query against the postgresql database and returns the results. only select queries are permitted. attempts to use other query types will result in an error."@,
        types::with_property(
            seq![],
            (
                "sql_query"@,
                tools::described(
                    "string"@,
                    "the sql select query to execute. example: SELECT * FROM users WHERE id = 1. must start with 'select'."@,
                ),
            ),
        ),
    )
}

/// The tool, which takes a query.
pub fn sql_query_tool() -> (r: ToolDefinition)
    ensures
        r@ == sql_tool(),
{
    let query = ToolFunctionParameterPropertyBuilder::new_string().description(
        "the sql select query to execute. example: SELECT * FROM users WHERE id = 1. must start with 'select'.",
    ).build();
    function_tool(
        SQL_TOOL_NAME,
        "executes a sql select query against the postgresql database and returns the results. only select queries are permitted. attempts to use other query types will result in an error.",
        ToolProperties::new().insert("sql_query", query),
    )
}

/// The query that a call asks for, or why it asks for none.
pub open spec fn call_query(
    tool_name: Seq<char>,
    asked: Result<Option<Seq<char>>, Seq<char>>,
) -> Result<Seq<char>, Seq<char>> {
    match asked {
        Ok(Some(query)) => Ok(query),
        Ok(None) => Err("argument 'sql_query' missing for tool "@ + tool_name),
        Err(_) => Err("failed to parse args for tool "@ + tool_name),
    }
}

/// The result behind its strings.
pub open spec fn strings_view(result: Result<String, String>) -> Result<Seq<char>, Seq<char>> {
    match result {
        Ok(value) => Ok(value@),
        Err(error) => Err(error@),
    }
}

/// The query that a call asks for, from what its arguments say under `sql_query`.
pub fn read_call_query(tool_name: &str, asked: Result<Option<String>, String>) -> (r: Result<
    String,
    String,
>)
    ensures
        strings_view(r) == call_query(tool_name@, json::asked_view(asked)),
{
    match asked {
        Ok(Some(query)) => Ok(query),
        Ok(None) => {
            let mut message = "argument 'sql_query' missing for tool ".to_owned();
            message.append(tool_name);
            Err(message)
        },
        Err(_) => {
            let mut message = "failed to parse args for tool ".to_owned();
            message.append(tool_name);
            Err(message)
        },
    }
}

/// The query that a call asks for, or why it asks for none.
pub open spec fn query_of_call(call: types::CallView) -> Result<Seq<char>, Seq<char>> {
    call_query(
        call.name,
        json::string_asked(json::parsed_strings(call.arguments), "sql_query"@),
    )
}

/// What becomes of a call: its query is run or refused; or why it asks for none.
pub open spec fn step_of_call(call: types::CallView) -> Result<QueryVerdict<Seq<char>>, Seq<char>> {
    match query_of_call(call) {
        Ok(query) => Ok(sql_select::query_verdict(query)),
        Err(error) => Err(error),
    }
}

/// What becomes of a call: its query is run or refused; or why it asks for none.
pub fn handle_execute_sql_query_tool_call(function_call: &OutputFunctionCall) -> (r: Result<
    QueryVerdict,
    String,
>)
    ensures
        match step_of_call(function_call@) {
            Ok(step) => r matches Ok(s) && s@ == step,
            Err(error) => r matches Err(e) && e@ == error,
        },
{
    match read_call_query(
        function_call.name.as_str(),
        asked_string(function_call.arguments.as_str(), "sql_query"),
    ) {
        Ok(query) => Ok(screen_query(query)),
        Err(error) => Err(error),
    }
}

/// The final text, from the assistant's text in the model's second answer.
pub open spec fn summary(said: Option<Seq<char>>) -> Seq<char> {
    match said {
        Some(t) => t,
        None =>
            "i processed the database query but couldn't form a final summary in the expected format."@,
    }
}

/// The final text, from the assistant's text in the model's second answer.
pub fn final_summary(said: Option<String>) -> (r: String)
    ensures
        r@ == summary(text::text_view(said)),
{
    match said {
        Some(t) => t,
        None => {
            "i processed the database query but couldn't form a final summary in the expected format.".to_owned()
        },
    }
}

/// The final text of a call and the response it came in, which is the one to remember. Where the
/// model could not be asked, the heading of the error.
pub fn finish_sql_query_tool_call(response: Option<&OpenAiApiResponse>) -> (r: Result<
    (String, String),
    String,
>)
    ensures
        match response {
            Some(answer) => r matches Ok((said, id)) && said@ == summary(
                common::leading_text(answer.output@),
            ) && id@ == answer.id@,
            None => r matches Err(heading) && heading@ == "tool call step 2 api call failed"@,
        },
{
    match response {
        Some(answer) => Ok(
            (final_summary(leading_assistant_text(&answer.output)), answer.id.clone()),
        ),
        None => Err("tool call step 2 api call failed".to_owned()),
    }
}

/// A query is run just where a call gives one and it is a SELECT, and it is run as it was given;
/// where a call gives none, it is told of which tool.
pub proof fn law_calls_are_followed(call: types::CallView, query: Seq<char>)
    ensures
        step_of_call(call) == Ok::<QueryVerdict<Seq<char>>, Seq<char>>(QueryVerdict::Run(query))
            <==> json::string_asked(json::parsed_strings(call.arguments), "sql_query"@) == Ok::<
            Option<Seq<char>>,
            Seq<char>,
        >(Some(query)) && sql_select::is_select(query),
        json::parsed_strings(call.arguments) is Err ==> step_of_call(call) == Err::<
            QueryVerdict<Seq<char>>,
            Seq<char>,
        >("failed to parse args for tool "@ + call.name),
        json::parsed_strings(call.arguments) matches Ok(strings) ==> !strings.dom().contains(
            "sql_query"@,
        ) ==> step_of_call(call) == Err::<QueryVerdict<Seq<char>>, Seq<char>>(
            "argument 'sql_query' missing for tool "@ + call.name,
        ),
        json::parsed_strings(call.arguments) matches Ok(strings) ==> strings.dom().contains(
            "sql_query"@,
        ) && !sql_select::is_select(strings["sql_query"@]) ==> step_of_call(call) == Ok::<
            QueryVerdict<Seq<char>>,
            Seq<char>,
        >(
            QueryVerdict::Refuse(
                json::json_text(sql_select::rejected_json(strings["sql_query"@])),
            ),
        ),
{
}

/// The final text is what the assistant said, where that is known.
pub proof fn law_the_summary_is_what_was_said(said: Seq<char>)
    ensures
        summary(Some(said)) == said,
        summary(None)
            == "i processed the database query but couldn't form a final summary in the expected format."@,
{
}

/// What stands for a result is what it holds.
pub proof fn law_views_keep_every_part(s: String)
    ensures
        strings_view(Ok(s)) == Ok::<Seq<char>, Seq<char>>(s@),
        strings_view(Err(s)) == Err::<Seq<char>, Seq<char>>(s@),
{
}

} // verus!
