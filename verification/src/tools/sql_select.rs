//! The tool that runs SELECT queries, and tells whatever rows it gets.

use crate::ai_interaction::tools::db_query;
use crate::ai_interaction::tools::db_query::{Cell, Column, Readings};
use crate::json;
use crate::json::{
    array_value, bool_value, copy_value, error_value, integer_value, new_members, null_value,
    object_value, put, reply_members, text_value, to_text,
};
use crate::text;
use crate::text::{starts_with, to_lowercase_text, trim_text};
use vstd::prelude::*;

verus! {

pub const SQL_TOOL_NAME: &'static str = "execute_sql_query";

// ---------------------------------------------------------------------------------------------
// Which queries are run

/// Whether a query, in lower case, is a SELECT.
pub open spec fn begins_with_select(lowered: Seq<char>) -> bool {
    text::has_prefix(lowered, "select"@)
}

/// Whether a query is a SELECT: whether it begins so, white space and the case of its letters
/// aside.
pub open spec fn is_select(query: Seq<char>) -> bool {
    begins_with_select(text::lowercase(text::trim(query)))
}

/// Whether a query, in lower case, is a SELECT.
pub fn lowered_is_select(lowered: &str) -> (r: bool)
    ensures
        r == begins_with_select(lowered@),
{
    starts_with(lowered, "select")
}

/// Whether a query is a SELECT.
pub fn query_is_select(query: &str) -> (r: bool)
    ensures
        r == is_select(query@),
{
    lowered_is_select(to_lowercase_text(trim_text(query)).as_str())
}

/// The reply to a query that is not a SELECT.
pub open spec fn rejected_json(query: Seq<char>) -> json::Json {
    json::error_json(
        "invalid query type. only select queries are permitted."@,
        "query was: "@ + query,
    )
}

/// Looks at a query before it is run: the reply to one that is not a SELECT, and nothing for one
/// that is.
pub fn check_query(query: &str) -> (r: Option<serde_json::Value>)
    ensures
        match r {
            None => is_select(query@),
            Some(reply) => !is_select(query@) && json::json_of(reply) == rejected_json(query@),
        },
{
    if query_is_select(query) {
        return None;
    }
    let mut details = "query was: ".to_owned();
    details.append(query);
    Some(
        error_value(
            "invalid query type. only select queries are permitted.",
            details.as_str(),
        ),
    )
}

/// What becomes of a query: it is run, or refused with a reply.
pub enum QueryVerdict<S = String> {
    Run(S),
    Refuse(S),
}

impl View for QueryVerdict {
    type V = QueryVerdict<Seq<char>>;

    open spec fn view(&self) -> QueryVerdict<Seq<char>> {
        match self {
            QueryVerdict::Run(query) => QueryVerdict::Run(query@),
            QueryVerdict::Refuse(reply) => QueryVerdict::Refuse(reply@),
        }
    }
}

/// What becomes of a query: a SELECT is run, and any other is refused.
pub open spec fn query_verdict(query: Seq<char>) -> QueryVerdict<Seq<char>> {
    if is_select(query) {
        QueryVerdict::Run(query)
    } else {
        QueryVerdict::Refuse(json::json_text(rejected_json(query)))
    }
}

/// Decides what becomes of a query.
pub fn screen_query(query: String) -> (r: QueryVerdict)
    ensures
        r@ == query_verdict(query@),
{
    match check_query(query.as_str()) {
        None => QueryVerdict::Run(query),
        Some(reply) => QueryVerdict::Refuse(to_text(&reply)),
    }
}

// ---------------------------------------------------------------------------------------------
// Rows

/// The first of the readings that there is: a text, an integer, a fraction, a truth value, a time;
/// null where there is none.
pub open spec fn lenient_reading_json(readings: Readings) -> json::Json {
    if readings.text is Some {
        json::Json::Text(readings.text->0@)
    } else if readings.big is Some {
        json::Json::Integer(readings.big->0 as int)
    } else if readings.small is Some {
        json::Json::Integer(readings.small->0 as int)
    } else if readings.fraction is Some {
        json::json_of(readings.fraction->0)
    } else if readings.flag is Some {
        json::Json::Bool(readings.flag->0)
    } else if readings.time is Some {
        json::Json::Text(readings.time->0@)
    } else {
        json::Json::Null
    }
}

/// The value of a column as JSON; null where it has none, or none that can be read.
pub open spec fn lenient_cell_json(cell: Cell) -> json::Json {
    match cell {
        Cell::Value(readings) => lenient_reading_json(readings),
        _ => json::Json::Null,
    }
}

fn lenient_value(cell: &Cell) -> (r: serde_json::Value)
    ensures
        json::json_of(r) == lenient_cell_json(*cell),
{
    match cell {
        Cell::Value(readings) => {
            if let Some(s) = &readings.text {
                text_value(s.as_str())
            } else if let Some(n) = readings.big {
                integer_value(n)
            } else if let Some(n) = readings.small {
                integer_value(n as i64)
            } else if let Some(v) = &readings.fraction {
                copy_value(v)
            } else if let Some(b) = readings.flag {
                bool_value(b)
            } else if let Some(s) = &readings.time {
                text_value(s.as_str())
            } else {
                null_value()
            }
        },
        _ => null_value(),
    }
}

/// The members that tell a row; of several columns of one name, the last counts.
pub open spec fn lenient_members(columns: Seq<Column>) -> Map<Seq<char>, json::Json>
    decreases columns.len(),
{
    if columns.len() == 0 {
        json::no_members()
    } else {
        lenient_members(columns.drop_last()).insert(
            columns.last().name@,
            lenient_cell_json(columns.last().cell),
        )
    }
}

/// What tells rows.
pub open spec fn lenient_rows(rows: Seq<Vec<Column>>) -> Seq<json::Json> {
    rows.map_values(|columns: Vec<Column>| json::Json::Object(lenient_members(columns@)))
}

fn lenient_row_value(columns: &Vec<Column>) -> (r: serde_json::Value)
    ensures
        json::json_of(r) == json::Json::Object(lenient_members(columns@)),
{
    let mut members = new_members();
    let mut i: usize = 0;
    while i < columns.len()
        invariant
            i <= columns@.len(),
            json::members_of(members) == lenient_members(columns@.take(i as int)),
        decreases columns@.len() - i,
    {
        proof {
            assert(columns@.take(i + 1).drop_last() =~= columns@.take(i as int));
        }
        put(&mut members, columns[i].name.as_str(), lenient_value(&columns[i].cell));
        i += 1;
    }
    proof {
        assert(columns@.take(i as int) =~= columns@);
    }
    object_value(members)
}

/// Tells rows.
pub(crate) fn lenient_rows_value(rows: &Vec<Vec<Column>>) -> (r: serde_json::Value)
    ensures
        json::json_of(r) == json::Json::Array(lenient_rows(rows@)),
{
    let mut values: Vec<serde_json::Value> = Vec::new();
    let mut i: usize = 0;
    while i < rows.len()
        invariant
            i <= rows@.len(),
            values@.len() == i,
            forall|j: int|
                0 <= j < i ==> json::json_of(#[trigger] values@[j]) == json::Json::Object(
                    lenient_members(rows@[j]@),
                ),
        decreases rows@.len() - i,
    {
        values.push(lenient_row_value(&rows[i]));
        i += 1;
    }
    proof {
        assert(json::jsons(values@) =~= lenient_rows(rows@));
    }
    array_value(values)
}

// ---------------------------------------------------------------------------------------------
// Replies

/// What is told of a query that was run: its rows, or what went wrong.
pub open spec fn results_json(answer: Result<Seq<Vec<Column>>, Seq<char>>) -> json::Json {
    match answer {
        Ok(rows) => json::Json::Object(
            json::status_members(
                "success"@,
                if rows.len() == 0 {
                    "query executed successfully. no rows returned."@
                } else {
                    "query executed successfully."@
                },
            ).insert("results"@, json::Json::Array(lenient_rows(rows))),
        ),
        Err(error) => json::error_json("failed to execute sql query."@, error),
    }
}

/// What a query came to, behind its lists.
pub open spec fn answer_view(answer: Result<Vec<Vec<Column>>, String>) -> Result<
    Seq<Vec<Column>>,
    Seq<char>,
> {
    match answer {
        Ok(rows) => Ok(rows@),
        Err(error) => Err(error@),
    }
}

/// Tells what a query came to.
pub fn execute_db_query(answer: &Result<Vec<Vec<Column>>, String>) -> (r: serde_json::Value)
    ensures
        json::json_of(r) == results_json(answer_view(*answer)),
{
    match answer {
        Ok(rows) => {
            let message = if rows.len() == 0 {
                "query executed successfully. no rows returned."
            } else {
                "query executed successfully."
            };
            let mut members = reply_members("success", message);
            put(&mut members, "results", lenient_rows_value(rows));
            object_value(members)
        },
        Err(error) => error_value("failed to execute sql query.", error.as_str()),
    }
}

// ---------------------------------------------------------------------------------------------
// Laws

/// A query is run, as it is, just where it begins with the word that a SELECT begins with, white
/// space and case aside; any other is refused with an error that gives the query.
pub proof fn law_selects_are_run_as_they_are(query: Seq<char>, run: Seq<char>)
    ensures
        query_verdict(query) == QueryVerdict::Run(run) <==> run == query && "select"@.is_prefix_of(
            text::lowercase(text::trim(query)),
        ),
        query_verdict(query) matches QueryVerdict::Refuse(reply) ==> reply == json::json_text(
            rejected_json(query),
        ),
        json::text_member(rejected_json(query), "status"@) == Some("error"@),
        json::text_member(rejected_json(query), "details"@) == Some("query was: "@ + query),
{
    json::lemma_reply_names();
    text::law_prefix_and_suffix(text::lowercase(text::trim(query)), "select"@);
}

/// A value is told as what it is: the first way in which it can be read decides, and under it the
/// value itself is told; whatever cannot be read is told as null.
pub proof fn law_values_are_told_as_they_are(readings: Readings, cell: Cell)
    ensures
        ({
            let told = lenient_cell_json(Cell::Value(readings));
            &&& readings.text matches Some(s) ==> told == json::Json::Text(s@)
            &&& readings.text is None ==> (readings.big matches Some(n) ==> told
                == json::Json::Integer(n as int))
            &&& readings.text is None && readings.big is None ==> (readings.small matches Some(n)
                ==> told == json::Json::Integer(n as int))
            &&& readings.text is None && readings.big is None && readings.small is None ==> (
            readings.fraction matches Some(v) ==> told == json::json_of(v))
            &&& readings.text is None && readings.big is None && readings.small is None
                && readings.fraction is None ==> (readings.flag matches Some(b) ==> told
                == json::Json::Bool(b))
            &&& readings.text is None && readings.big is None && readings.small is None
                && readings.fraction is None && readings.flag is None ==> (
            readings.time matches Some(s) ==> told == json::Json::Text(s@))
            &&& readings.text is None && readings.big is None && readings.small is None
                && readings.fraction is None && readings.flag is None && readings.time is None
                ==> told == json::Json::Null
        }),
        !(cell is Value) ==> lenient_cell_json(cell) == json::Json::Null,
{
}

/// A row is told by an object that has just the names of its columns, and under each name the value
/// of the last column of that name.
pub proof fn law_every_column_is_told(columns: Seq<Column>)
    ensures
        ({
            let members = lenient_members(columns);
            &&& forall|name: Seq<char>| #[trigger]
                members.dom().contains(name) ==> exists|k: int|
                    0 <= k < columns.len() && (#[trigger] columns[k]).name@ == name
            &&& forall|k: int|
                0 <= k < columns.len() ==> members.dom().contains((#[trigger] columns[k]).name@)
            &&& forall|k: int|
                0 <= k < columns.len() && db_query::is_last_of_its_name(columns, k) ==> members[(
                #[trigger] columns[k]).name@] == lenient_cell_json(columns[k].cell)
        }),
    decreases columns.len(),
{
    if columns.len() > 0 {
        let before = columns.drop_last();
        law_every_column_is_told(before);
        let members = lenient_members(columns);
        let last = columns.last();
        assert forall|name: Seq<char>| #[trigger] members.dom().contains(name) implies exists|
            k: int,
        |
            0 <= k < columns.len() && (#[trigger] columns[k]).name@ == name by {
            if name == last.name@ {
                assert(columns[columns.len() - 1].name@ == name);
            } else {
                assert(lenient_members(before).dom().contains(name));
                let k = choose|k: int|
                    0 <= k < before.len() && (#[trigger] before[k]).name@ == name;
                assert(columns[k] == before[k]);
                assert(columns[k].name@ == name);
            }
        }
        assert forall|k: int| 0 <= k < columns.len() implies members.dom().contains(
            (#[trigger] columns[k]).name@,
        ) by {
            if k < before.len() {
                assert(before[k] == columns[k]);
            }
        }
        assert forall|k: int|
            0 <= k < columns.len() && db_query::is_last_of_its_name(columns, k) implies members[(
        #[trigger] columns[k]).name@] == lenient_cell_json(columns[k].cell) by {
            if k < before.len() {
                assert(columns[columns.len() - 1].name@ != columns[k].name@);
                assert(before[k] == columns[k]);
                assert forall|j: int| k < j < before.len() implies (#[trigger] before[j]).name@
                    != before[k].name@ by {
                    assert(columns[j] == before[j]);
                }
                assert(db_query::is_last_of_its_name(before, k));
            }
        }
    }
}

/// All rows are told, one object for each and in their order.
pub proof fn law_every_row_is_told(rows: Seq<Vec<Column>>)
    ensures
        lenient_rows(rows).len() == rows.len(),
        forall|i: int|
            0 <= i < rows.len() ==> #[trigger] lenient_rows(rows)[i] == json::Json::Object(
                lenient_members(rows[i]@),
            ),
{
}

/// A query that was run is told as a success with all its rows, and the message says whether there
/// are any; one that failed is told as an error with what went wrong.
pub proof fn law_each_outcome_of_a_query_is_told(
    rows: Seq<Vec<Column>>,
    error: Seq<char>,
)
    ensures
        json::text_member(results_json(Ok(rows)), "status"@) == Some("success"@),
        json::member(results_json(Ok(rows)), "results"@) == Some(
            json::Json::Array(lenient_rows(rows)),
        ),
        json::text_member(results_json(Ok(rows)), "message"@) == Some(
            if rows.len() > 0 {
                "query executed successfully."@
            } else {
                "query executed successfully. no rows returned."@
            },
        ),
        json::text_member(results_json(Err(error)), "status"@) == Some("error"@),
        json::text_member(results_json(Err(error)), "message"@) == Some(
            "failed to execute sql query."@,
        ),
        json::text_member(results_json(Err(error)), "details"@) == Some(error),
{
    json::lemma_reply_names();
    reveal_strlit("results");
    reveal_strlit("status");
    reveal_strlit("message");
    assert("results"@[0] == 'r');
    assert("status"@[0] == 's');
    assert("message"@[0] == 'm');
}

/// What stands for a verdict or for an answer is what it holds.
pub proof fn law_views_keep_every_part(s: String, rows: Vec<Vec<Column>>)
    ensures
        QueryVerdict::Run(s)@ == QueryVerdict::Run(s@),
        QueryVerdict::Refuse(s)@ == QueryVerdict::Refuse(s@),
        answer_view(Ok(rows)) == Ok::<Seq<Vec<Column>>, Seq<char>>(rows@),
        answer_view(Err(s)) == Err::<Seq<Vec<Column>>, Seq<char>>(s@),
{
}

} // verus!
