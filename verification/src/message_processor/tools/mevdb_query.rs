//! The tool that runs SELECT queries on mevdb.

use crate::ai_interaction::tools;
use crate::ai_interaction::tools::db_query;
use crate::ai_interaction::tools::db_query::{no_rows_value, Column};
use crate::ai_interaction::tools::function_tool;
use crate::json;
use crate::json::{error_reply, error_value, to_text};
use crate::openai_api::types;
use crate::openai_api::types::{
    ToolDefinition, ToolFunctionParameterPropertyBuilder, ToolProperties,
};
use crate::text;
use crate::tools::sql_select;
use crate::tools::sql_select::{lenient_rows_value, query_is_select, QueryVerdict};
use vstd::prelude::*;

pub use crate::ai_interaction::tools::db_query::execute_mevdb_query_tool;

verus! {

pub const MEVDB_TOOL_NAME: &'static str = "execute_mevdb_query";

/// The tool, which takes a query.
pub open spec fn tool_view() -> types::ToolView {
    tools::tool_with(
        "execute_mevdb_query"@,
        "executes a sql select query against a read-only mev (maximal extractable value) database. provide the complete sql query. important tables and columns will be described by the assistant if known."@,
        types::with_property(
            seq![],
            (
                "sql_query"@,
                tools::described(
                    "string"@,
                    "the sql select query to execute against the mev-specific database. must start with 'select'. provide the full query."@,
                ),
            ),
        ),
    )
}

/// The tool, which takes a query.
pub fn mevdb_query_tool() -> (r: ToolDefinition)
    ensures
        r@ == tool_view(),
{
    let query = ToolFunctionParameterPropertyBuilder::new_string().description(
        "the sql select query to execute against the mev-specific database. must start with 'select'. provide the full query.",
    ).build();
    function_tool(
        MEVDB_TOOL_NAME,
        "executes a sql select query against a read-only mev (maximal extractable value) database. provide the complete sql query. important tables and columns will be described by the assistant if known.",
        ToolProperties::new().insert("sql_query", query),
    )
}

/// What becomes of a query once connecting was tried: a SELECT is run, and any other is refused, as
/// all are where the connection failed.
pub open spec fn mevdb_verdict(query: Seq<char>, connection: Option<Seq<char>>) -> QueryVerdict<
    Seq<char>,
> {
    match connection {
        Some(error) => QueryVerdict::Refuse(
            json::json_text(json::error_json("failed to connect to the mevdb database."@, error)),
        ),
        None => if sql_select::is_select(query) {
            QueryVerdict::Run(query)
        } else {
            QueryVerdict::Refuse(
                json::json_text(
                    json::error_json(
                        "invalid query type. only select queries are permitted for mevdb."@,
                        "query was: "@ + query,
                    ),
                ),
            )
        },
    }
}

/// Decides what becomes of a query once connecting was tried: `connection` is what that failed
/// with.
pub fn check_mevdb_query(query: String, connection: Option<&str>) -> (r: QueryVerdict)
    ensures
        r@ == mevdb_verdict(query@, text::slice_view(connection)),
{
    if let Some(error) = connection {
        return QueryVerdict::Refuse(
            error_reply("failed to connect to the mevdb database.", error),
        );
    }
    if query_is_select(query.as_str()) {
        return QueryVerdict::Run(query);
    }
    let mut details = "query was: ".to_owned();
    details.append(query.as_str());
    QueryVerdict::Refuse(
        error_reply(
            "invalid query type. only select queries are permitted for mevdb.",
            details.as_str(),
        ),
    )
}

/// Only a SELECT is handed to mevdb, and only the query that was asked for.
pub proof fn law_mevdb_runs_selects_only(query: Seq<char>, connection: Option<Seq<char>>)
    ensures
        mevdb_verdict(query, connection) matches QueryVerdict::Run(run) ==> run == query
            && sql_select::is_select(run),
{
}

/// What is told of a query that was run.
pub open spec fn mevdb_answer_json(answer: Result<Seq<Vec<Column>>, Seq<char>>) -> json::Json {
    match answer {
        Ok(rows) => if rows.len() == 0 {
            db_query::no_rows_json("mevdb"@)
        } else {
            json::Json::Array(sql_select::lenient_rows(rows))
        },
        Err(error) => json::error_json("failed to execute mevdb sql query."@, error),
    }
}

/// The reply to a query that was run: its rows, or what went wrong.
pub fn execute_mevdb_db_query(answer: &Result<Vec<Vec<Column>>, String>) -> (r: String)
    ensures
        json::writes(r@, mevdb_answer_json(sql_select::answer_view(*answer))),
{
    let value = match answer {
        Ok(rows) => {
            if rows.len() == 0 {
                no_rows_value("mevdb")
            } else {
                lenient_rows_value(rows)
            }
        },
        Err(error) => error_value("failed to execute mevdb sql query.", error.as_str()),
    };
    to_text(&value)
}

/// A query is run just where the database could be reached and the query is a SELECT; where either
/// fails, the reply is an error that says which.
pub proof fn law_mevdb_runs_every_select(query: Seq<char>, error: Seq<char>)
    ensures
        mevdb_verdict(query, None) == QueryVerdict::Run(query) <==> sql_select::is_select(query),
        !sql_select::is_select(query) ==> mevdb_verdict(query, None) == QueryVerdict::Refuse(
            json::json_text(
                json::error_json(
                    "invalid query type. only select queries are permitted for mevdb."@,
                    "query was: "@ + query,
                ),
            ),
        ),
        mevdb_verdict(query, Some(error)) == QueryVerdict::<Seq<char>>::Refuse(
            json::json_text(json::error_json("failed to connect to the mevdb database."@, error)),
        ),
{
}

/// A query that gave rows is told by all of them, in order; one that gave none, and one that failed,
/// as what they are.
pub proof fn law_each_outcome_of_a_query_is_told(rows: Seq<Vec<Column>>, error: Seq<char>)
    ensures
        rows.len() > 0 ==> (mevdb_answer_json(Ok(rows)) matches json::Json::Array(told)
            && told.len() == rows.len() && forall|i: int|
            0 <= i < rows.len() ==> #[trigger] told[i] == json::Json::Object(
                sql_select::lenient_members(rows[i]@),
            )),
        rows.len() == 0 ==> json::text_member(mevdb_answer_json(Ok(rows)), "message"@) == Some(
            "mevdb"@ + " query executed successfully. no rows returned."@,
        ),
        json::text_member(mevdb_answer_json(Err(error)), "status"@) == Some("error"@),
        json::text_member(mevdb_answer_json(Err(error)), "message"@) == Some(
            "failed to execute mevdb sql query."@,
        ),
        json::text_member(mevdb_answer_json(Err(error)), "details"@) == Some(error),
{
    json::lemma_reply_names();
}

/// The tool takes one argument, the query, which is a string and must be given.
pub proof fn law_the_tool_takes_a_query()
    ensures
        ({
            let parameters = tool_view().parameters->0;
            &&& tool_view().parameters is Some
            &&& types::names(parameters.properties) == seq!["sql_query"@]
            &&& parameters.required == Some(seq!["sql_query"@])
            &&& parameters.properties[0].1.kind == "string"@
            &&& parameters.properties[0].1.enum_values is None
        }),
{
    let properties = tool_view().parameters->0.properties;
    reveal_with_fuel(types::name_position, 2);
    assert(Seq::<types::PropertyEntry>::empty().len() == 0);
    assert(types::names(properties) =~= seq!["sql_query"@]);
}

} // verus!
