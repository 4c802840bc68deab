//! Telling the rows of a query, their values read as plain types.

use crate::ai_interaction::tools::db_query;
use crate::ai_interaction::tools::db_query::{no_rows_value, rows_value, Column, Conversion};
use crate::json;
use crate::json::error_value;
use crate::tools::sql_select;
use vstd::prelude::*;

verus! {

/// What is told of a query.
pub open spec fn plain_query_json(
    tool_name: Seq<char>,
    answer: Result<Seq<Vec<Column>>, Seq<char>>,
) -> json::Json {
    match answer {
        Ok(rows) => if rows.len() == 0 {
            db_query::no_rows_json(tool_name)
        } else {
            db_query::told_rows(rows, Conversion::Plain)
        },
        Err(error) => json::error_json("failed to execute "@ + tool_name + " sql query."@, error),
    }
}

/// Tells what a query came to: its rows, or what went wrong.
pub fn execute_db_query_common(
    answer: &Result<Vec<Vec<Column>>, String>,
    tool_name: &str,
) -> (r: serde_json::Value)
    ensures
        json::json_of(r) == plain_query_json(tool_name@, sql_select::answer_view(*answer)),
{
    match answer {
        Ok(rows) => {
            if rows.len() == 0 {
                no_rows_value(tool_name)
            } else {
                rows_value(rows, Conversion::Plain)
            }
        },
        Err(error) => {
            let mut message = "failed to execute ".to_owned();
            message.append(tool_name);
            message.append(" sql query.");
            error_value(message.as_str(), error.as_str())
        },
    }
}

/// A query that gave rows is told by them, read plainly; one that gave none, and one that failed, as
/// what they are, with the name of the tool.
pub proof fn law_each_outcome_of_a_query_is_told(
    tool_name: Seq<char>,
    rows: Seq<Vec<Column>>,
    error: Seq<char>,
)
    ensures
        rows.len() > 0 ==> plain_query_json(tool_name, Ok(rows)) == db_query::told_rows(
            rows,
            Conversion::Plain,
        ),
        rows.len() == 0 ==> json::text_member(plain_query_json(tool_name, Ok(rows)), "message"@)
            == Some(tool_name + " query executed successfully. no rows returned."@),
        json::text_member(plain_query_json(tool_name, Err(error)), "status"@) == Some("error"@),
        json::text_member(plain_query_json(tool_name, Err(error)), "message"@) == Some(
            "failed to execute "@ + tool_name + " sql query."@,
        ),
        json::text_member(plain_query_json(tool_name, Err(error)), "details"@) == Some(error),
{
    json::lemma_reply_names();
}

} // verus!
