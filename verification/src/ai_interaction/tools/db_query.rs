//! The tools that run SQL queries, and how rows become JSON.

use super::function_tool;
use crate::json;
use crate::json::{
    array_value, asked_string, bool_value, copy_value, error_reply, error_value, integer_value,
    new_members, null_value, object_value, put, put_text, text_value, to_text,
};
use crate::openai_api::types;
use crate::openai_api::types::{
    text_array_value, ToolDefinition, ToolFunctionParameterPropertyBuilder, ToolProperties,
};
use crate::text;
use crate::text::decimal_text;
use vstd::prelude::*;

verus! {

pub const MEVDB_TOOL_NAME: &'static str = "execute_mevdb_query";

pub const GLOBALDB_TOOL_NAME: &'static str = "execute_globaldb_query";

/// How long a query may take, in seconds.
pub const QUERY_TIMEOUT_SECS: u64 = 60;

/// The tool that queries mevdb.
pub open spec fn mevdb_tool_view() -> types::ToolView {
    super::tool_with(
        "execute_mevdb_query"@,
        "executes a sql query against a read-only mev (maximal extractable value) database. provide the complete sql query. important tables and columns will be described by the assistant if known."@,
        types::with_property(
            seq![],
            (
                "sql_query"@,
                super::described(
                    "string"@,
                    "the sql query to execute against the mev-specific database. provide the full query."@,
                ),
            ),
        ),
    )
}

/// The tool that queries mevdb.
pub fn mevdb_query_tool() -> (r: ToolDefinition)
    ensures
        r@ == mevdb_tool_view(),
{
    let query = ToolFunctionParameterPropertyBuilder::new_string().description(
        "the sql query to execute against the mev-specific database. provide the full query.",
    ).build();
    function_tool(
        MEVDB_TOOL_NAME,
        "executes a sql query against a read-only mev (maximal extractable value) database. provide the complete sql query. important tables and columns will be described by the assistant if known.",
        ToolProperties::new().insert("sql_query", query),
    )
}

/// The tool that queries globaldb.
pub open spec fn globaldb_tool_view() -> types::ToolView {
    super::tool_with(
        "execute_globaldb_query"@,
        "executes a sql query against a read-only global database. provide the complete sql query. important tables and columns will be described by the assistant if known."@,
        types::with_property(
            seq![],
            (
                "sql_query"@,
                super::described(
                    "string"@,
                    "the sql query to execute against the global database. provide the full query."@,
                ),
            ),
        ),
    )
}

/// The tool that queries globaldb.
pub fn globaldb_query_tool() -> (r: ToolDefinition)
    ensures
        r@ == globaldb_tool_view(),
{
    let query = ToolFunctionParameterPropertyBuilder::new_string().description(
        "the sql query to execute against the global database. provide the full query.",
    ).build();
    function_tool(
        GLOBALDB_TOOL_NAME,
        "executes a sql query against a read-only global database. provide the complete sql query. important tables and columns will be described by the assistant if known.",
        ToolProperties::new().insert("sql_query", query),
    )
}

// ---------------------------------------------------------------------------------------------
// Arguments

/// What a query tool does next: run a query on the database at an address, or reply.
pub enum QueryStep<'a> {
    Run { db_url: &'a str, sql_query: String },
    Reply(String),
}

/// The reply where a call gives no query.
pub open spec fn no_query_json(arguments: Seq<char>) -> json::Json {
    json::error_json(
        "argument 'sql_query' missing"@,
        "expected json with a 'sql_query' key, got: "@ + arguments,
    )
}

/// The reply where the arguments cannot be read.
pub open spec fn unreadable_arguments_json(error: Seq<char>) -> json::Json {
    json::error_json(
        "failed to parse tool arguments as json."@,
        "failed to parse arguments json: "@ + error,
    )
}

/// The reply where the address of a database is not known.
pub open spec fn not_configured_json(db_name: Seq<char>, variable: Seq<char>) -> json::Json {
    json::error_json(
        db_name + " query tool is not configured (missing "@ + variable + ")."@,
        "The "@ + variable + " environment variable must be set to use this tool."@,
    )
}

/// The query to run and the address to run it at, or the reply.
pub open spec fn query_request(
    arguments: Seq<char>,
    asked: Result<Option<Seq<char>>, Seq<char>>,
    db_url: Option<Seq<char>>,
    missing: json::Json,
) -> Result<(Seq<char>, Seq<char>), json::Json> {
    match asked {
        Ok(Some(query)) => match db_url {
            Some(url) => Ok((url, query)),
            None => Err(missing),
        },
        Ok(None) => Err(no_query_json(arguments)),
        Err(error) => Err(unreadable_arguments_json(error)),
    }
}

/// Whether a step is what a request comes to.
pub open spec fn is_query_step(
    step: QueryStep,
    request: Result<(Seq<char>, Seq<char>), json::Json>,
) -> bool {
    match request {
        Ok((url, query)) => step matches QueryStep::Run { db_url, sql_query } && db_url@ == url
            && sql_query@ == query,
        Err(reply) => step matches QueryStep::Reply(text) && json::writes(text@, reply),
    }
}

/// The reply where a call gives no query.
pub(crate) fn no_query_reply(arguments: &str) -> (r: String)
    ensures
        json::writes(r@, no_query_json(arguments@)),
{
    let mut details = "expected json with a 'sql_query' key, got: ".to_owned();
    details.append(arguments);
    error_reply("argument 'sql_query' missing", details.as_str())
}

/// The reply where the arguments cannot be read.
pub(crate) fn unreadable_arguments_reply(error: &str) -> (r: String)
    ensures
        json::writes(r@, unreadable_arguments_json(error@)),
{
    let mut details = "failed to parse arguments json: ".to_owned();
    details.append(error);
    error_reply("failed to parse tool arguments as json.", details.as_str())
}

/// The reply where the address of a database is not known.
fn not_configured_reply(db_name: &str, variable: &str) -> (r: String)
    ensures
        json::writes(r@, not_configured_json(db_name@, variable@)),
{
    let mut message = db_name.to_owned();
    message.append(" query tool is not configured (missing ");
    message.append(variable);
    message.append(").");
    let mut details = "The ".to_owned();
    details.append(variable);
    details.append(" environment variable must be set to use this tool.");
    error_reply(message.as_str(), details.as_str())
}

/// Starts a tool that queries a database, from what its arguments say under `sql_query`. The
/// address comes from a variable of the environment.
pub fn start_query<'a>(
    arguments_json_str: &str,
    asked: Result<Option<String>, String>,
    db_url: &'a Option<String>,
    db_name: &str,
    variable: &str,
) -> (r: QueryStep<'a>)
    ensures
        is_query_step(
            r,
            query_request(
                arguments_json_str@,
                json::asked_view(asked),
                text::text_view(*db_url),
                not_configured_json(db_name@, variable@),
            ),
        ),
{
    match asked {
        Ok(Some(query)) => match db_url {
            Some(url) => QueryStep::Run { db_url: url.as_str(), sql_query: query },
            None => QueryStep::Reply(not_configured_reply(db_name, variable)),
        },
        Ok(None) => QueryStep::Reply(no_query_reply(arguments_json_str)),
        Err(error) => QueryStep::Reply(unreadable_arguments_reply(error.as_str())),
    }
}

/// Starts the tool that queries mevdb.
pub fn execute_mevdb_query_tool<'a>(arguments_json_str: &str, db_url: &'a Option<String>) -> (r:
    QueryStep<'a>)
    ensures
        is_query_step(
            r,
            query_request(
                arguments_json_str@,
                json::string_asked(json::parsed_strings(arguments_json_str@), "sql_query"@),
                text::text_view(*db_url),
                not_configured_json("mevdb"@, "MEVDB_DATABASE_URL"@),
            ),
        ),
{
    start_query(
        arguments_json_str,
        asked_string(arguments_json_str, "sql_query"),
        db_url,
        "mevdb",
        "MEVDB_DATABASE_URL",
    )
}

/// Starts the tool that queries globaldb.
pub fn execute_globaldb_query_tool<'a>(
    arguments_json_str: &str,
    db_url: &'a Option<String>,
) -> (r: QueryStep<'a>)
    ensures
        is_query_step(
            r,
            query_request(
                arguments_json_str@,
                json::string_asked(json::parsed_strings(arguments_json_str@), "sql_query"@),
                text::text_view(*db_url),
                not_configured_json("globaldb"@, "GLOBALDB_DATABASE_URL"@),
            ),
        ),
{
    start_query(
        arguments_json_str,
        asked_string(arguments_json_str, "sql_query"),
        db_url,
        "globaldb",
        "GLOBALDB_DATABASE_URL",
    )
}

/// The reply where a database cannot be reached.
pub fn connection_failed_reply(db_name: &str, error: &str) -> (r: String)
    ensures
        json::writes(
            r@,
            json::error_json(
                db_name@ + " query tool failed to connect to its database."@,
                error@,
            ),
        ),
{
    let mut message = db_name.to_owned();
    message.append(" query tool failed to connect to its database.");
    error_reply(message.as_str(), error)
}

// ---------------------------------------------------------------------------------------------
// Rows

/// A value of a row as each of the types it can be read as. A fraction is read as a JSON number,
/// a decimal and a time as their texts.
pub struct Readings {
    pub json: Option<serde_json::Value>,
    pub texts: Option<Vec<String>>,
    pub text: Option<String>,
    pub big: Option<i64>,
    pub small: Option<i32>,
    pub fraction: Option<serde_json::Value>,
    pub decimal: Option<String>,
    pub flag: Option<bool>,
    pub time: Option<String>,
}

/// A value of a row: it cannot be got at, or is null, or is of an enumeration, or is another value.
pub enum Cell {
    Unreadable(String),
    Null,
    Enumerated(Result<String, String>),
    Value(Readings),
}

/// A column of a row: its name, its type by name and in full, and its value.
pub struct Column {
    pub name: String,
    pub sql_type: String,
    pub sql_type_debug: String,
    pub cell: Cell,
}

/// The first of the readings that there is: JSON, a list of texts, a text, an integer, a fraction,
/// a decimal, a truth value, a time.
pub open spec fn reading_json(readings: Readings) -> Option<json::Json> {
    if readings.json is Some {
        Some(json::json_of(readings.json->0))
    } else if readings.texts is Some {
        Some(types::text_array(text::texts(readings.texts->0@)))
    } else {
        plain_reading_json(readings)
    }
}

/// The first of the readings that there is, JSON and lists of texts left out.
pub open spec fn plain_reading_json(readings: Readings) -> Option<json::Json> {
    if readings.text is Some {
        Some(json::Json::Text(readings.text->0@))
    } else if readings.big is Some {
        Some(json::Json::Integer(readings.big->0 as int))
    } else if readings.small is Some {
        Some(json::Json::Integer(readings.small->0 as int))
    } else if readings.fraction is Some {
        Some(json::json_of(readings.fraction->0))
    } else if readings.decimal is Some {
        Some(json::Json::Text(readings.decimal->0@))
    } else if readings.flag is Some {
        Some(json::Json::Bool(readings.flag->0))
    } else if readings.time is Some {
        Some(json::Json::Text(readings.time->0@))
    } else {
        None
    }
}

/// The first of the readings that there is, JSON and lists of texts left out.
pub(crate) fn plain_reading(readings: &Readings) -> (r: Option<serde_json::Value>)
    ensures
        match r {
            Some(value) => plain_reading_json(*readings) == Some(json::json_of(value)),
            None => plain_reading_json(*readings) is None,
        },
{
    if let Some(s) = &readings.text {
        Some(text_value(s.as_str()))
    } else if let Some(n) = readings.big {
        Some(integer_value(n))
    } else if let Some(n) = readings.small {
        Some(integer_value(n as i64))
    } else if let Some(v) = &readings.fraction {
        Some(copy_value(v))
    } else if let Some(s) = &readings.decimal {
        Some(text_value(s.as_str()))
    } else if let Some(b) = readings.flag {
        Some(bool_value(b))
    } else if let Some(s) = &readings.time {
        Some(text_value(s.as_str()))
    } else {
        None
    }
}

fn reading(readings: &Readings) -> (r: Option<serde_json::Value>)
    ensures
        match r {
            Some(value) => reading_json(*readings) == Some(json::json_of(value)),
            None => reading_json(*readings) is None,
        },
{
    if let Some(v) = &readings.json {
        Some(copy_value(v))
    } else if let Some(list) = &readings.texts {
        Some(text_array_value(list))
    } else {
        plain_reading(readings)
    }
}

/// What is told of an enumerated value: its text, or that it has none.
pub open spec fn enumerated_json(
    value: Result<Seq<char>, Seq<char>>,
    column_name: Seq<char>,
    sql_type: Seq<char>,
    row: nat,
) -> Result<json::Json, json::Json> {
    match value {
        Ok(s) => Ok(json::Json::Text(s)),
        Err(error) => Err(
            json::error_json(
                "failed to process database results due to an enum conversion issue (as_str failed)."@,
                "failed to convert enum column '"@ + column_name + "' (type: "@ + sql_type
                    + ") to string using as_str(): "@ + error + ". row: "@ + text::decimal(row)
                    + ". application error."@,
            ),
        ),
    }
}

/// The result with its texts.
pub open spec fn texts_view(value: Result<String, String>) -> Result<Seq<char>, Seq<char>> {
    match value {
        Ok(s) => Ok(s@),
        Err(e) => Err(e@),
    }
}

/// The value of a column as JSON, or the reply that tells why it has none.
pub open spec fn column_json(column: Column, row: nat) -> Result<json::Json, json::Json> {
    match column.cell {
        Cell::Unreadable(error) => Err(
            json::error_json(
                "failed to retrieve data from database for a column."@,
                "failed to retrieve raw value for column '"@ + column.name@ + "' (type: "@
                    + column.sql_type_debug@ + ") in row "@ + text::decimal(row) + ": "@ + error@
                    + ". this might indicate a problem with the query or db connection."@,
            ),
        ),
        Cell::Null => Ok(json::Json::Null),
        Cell::Enumerated(value) => enumerated_json(
            texts_view(value),
            column.name@,
            column.sql_type@,
            row,
        ),
        Cell::Value(readings) => match reading_json(readings) {
            Some(value) => Ok(value),
            None => Err(
                json::error_json(
                    "failed to process database results due to an unsupported or unparseable data type."@,
                    "unhandled or failed conversion for non-null sql type for column '"@
                        + column.name@ + "' (type: "@ + column.sql_type@ + ") in row "@
                        + text::decimal(row) + ". this is an application error."@,
                ),
            ),
        },
    }
}

/// The result with what its values hold.
pub open spec fn values_view(result: Result<serde_json::Value, serde_json::Value>) -> Result<
    json::Json,
    json::Json,
> {
    match result {
        Ok(value) => Ok(json::json_of(value)),
        Err(value) => Err(json::json_of(value)),
    }
}

/// Tells an enumerated value.
pub fn try_parse_enum_value_as_json(
    value: &Result<String, String>,
    column_name: &str,
    column_type_info_name: &str,
    row_idx: usize,
) -> (r: Result<serde_json::Value, serde_json::Value>)
    ensures
        values_view(r) == enumerated_json(
            texts_view(*value),
            column_name@,
            column_type_info_name@,
            row_idx as nat,
        ),
{
    match value {
        Ok(s) => Ok(text_value(s.as_str())),
        Err(error) => {
            let mut details = "failed to convert enum column '".to_owned();
            details.append(column_name);
            details.append("' (type: ");
            details.append(column_type_info_name);
            details.append(") to string using as_str(): ");
            details.append(error.as_str());
            details.append(". row: ");
            details.append(decimal_text(row_idx as u128).as_str());
            details.append(". application error.");
            Err(
                error_value(
                    "failed to process database results due to an enum conversion issue (as_str failed).",
                    details.as_str(),
                ),
            )
        },
    }
}

/// Converts the value of a column to JSON.
pub fn convert_db_value_to_json(column: &Column, row_idx: usize) -> (r: Result<
    serde_json::Value,
    serde_json::Value,
>)
    ensures
        values_view(r) == column_json(*column, row_idx as nat),
{
    match &column.cell {
        Cell::Unreadable(error) => {
            let mut details = "failed to retrieve raw value for column '".to_owned();
            details.append(column.name.as_str());
            details.append("' (type: ");
            details.append(column.sql_type_debug.as_str());
            details.append(") in row ");
            details.append(decimal_text(row_idx as u128).as_str());
            details.append(": ");
            details.append(error.as_str());
            details.append(". this might indicate a problem with the query or db connection.");
            Err(
                error_value(
                    "failed to retrieve data from database for a column.",
                    details.as_str(),
                ),
            )
        },
        Cell::Null => Ok(null_value()),
        Cell::Enumerated(value) => try_parse_enum_value_as_json(
            value,
            column.name.as_str(),
            column.sql_type.as_str(),
            row_idx,
        ),
        Cell::Value(readings) => match reading(readings) {
            Some(value) => Ok(value),
            None => {
                let mut details =
                    "unhandled or failed conversion for non-null sql type for column '".to_owned();
                details.append(column.name.as_str());
                details.append("' (type: ");
                details.append(column.sql_type.as_str());
                details.append(") in row ");
                details.append(decimal_text(row_idx as u128).as_str());
                details.append(". this is an application error.");
                Err(
                    error_value(
                        "failed to process database results due to an unsupported or unparseable data type.",
                        details.as_str(),
                    ),
                )
            },
        },
    }
}

/// How the value of a column becomes JSON: with or without those that are JSON, lists or of an
/// enumeration.
#[derive(Debug, Clone, Copy, PartialEq, Eq, Structural)]
pub enum Conversion {
    Full,
    Plain,
}

/// The types of a column, by their full and their plain names.
pub open spec fn both_types(column: Column) -> Seq<char> {
    "' (type: "@ + column.sql_type_debug@ + ", reported type name: "@ + column.sql_type@
}

/// The value of a column as JSON, JSON, lists and enumerations left out, or the reply that tells
/// why it has none.
pub open spec fn plain_column_json(column: Column, row: nat) -> Result<json::Json, json::Json> {
    let unsupported = json::error_json(
        "failed to process database results due to an unsupported or unparseable data type."@,
        "unhandled or failed conversion for non-null sql type for column '"@ + column.name@
            + both_types(column) + ") in row "@ + text::decimal(row)
            + ". this is an application error."@,
    );
    match column.cell {
        Cell::Unreadable(error) => Err(
            json::error_json(
                "failed to retrieve data from database for a column."@,
                "failed to retrieve raw value for column '"@ + column.name@ + both_types(column)
                    + ") in row "@ + text::decimal(row) + ": "@ + error@
                    + ". this might indicate a problem with the query or db connection."@,
            ),
        ),
        Cell::Null => Ok(json::Json::Null),
        Cell::Enumerated(_) => Err(unsupported),
        Cell::Value(readings) => match plain_reading_json(readings) {
            Some(value) => Ok(value),
            None => Err(unsupported),
        },
    }
}

fn both_types_text(column: &Column) -> (r: String)
    ensures
        r@ == both_types(*column),
{
    let mut out = "' (type: ".to_owned();
    out.append(column.sql_type_debug.as_str());
    out.append(", reported type name: ");
    out.append(column.sql_type.as_str());
    out
}

fn unsupported_value(column: &Column, row_idx: usize) -> (r: serde_json::Value)
    ensures
        json::json_of(r) == json::error_json(
            "failed to process database results due to an unsupported or unparseable data type."@,
            "unhandled or failed conversion for non-null sql type for column '"@ + column.name@
                + both_types(*column) + ") in row "@ + text::decimal(row_idx as nat)
                + ". this is an application error."@,
        ),
{
    let mut details =
        "unhandled or failed conversion for non-null sql type for column '".to_owned();
    details.append(column.name.as_str());
    details.append(both_types_text(column).as_str());
    details.append(") in row ");
    details.append(decimal_text(row_idx as u128).as_str());
    details.append(". this is an application error.");
    error_value(
        "failed to process database results due to an unsupported or unparseable data type.",
        details.as_str(),
    )
}

/// Converts the value of a column to JSON, JSON, lists and enumerations left out.
pub fn convert_plain_value_to_json(column: &Column, row_idx: usize) -> (r: Result<
    serde_json::Value,
    serde_json::Value,
>)
    ensures
        values_view(r) == plain_column_json(*column, row_idx as nat),
{
    match &column.cell {
        Cell::Unreadable(error) => {
            let mut details = "failed to retrieve raw value for column '".to_owned();
            details.append(column.name.as_str());
            details.append(both_types_text(column).as_str());
            details.append(") in row ");
            details.append(decimal_text(row_idx as u128).as_str());
            details.append(": ");
            details.append(error.as_str());
            details.append(". this might indicate a problem with the query or db connection.");
            Err(
                error_value(
                    "failed to retrieve data from database for a column.",
                    details.as_str(),
                ),
            )
        },
        Cell::Null => Ok(null_value()),
        Cell::Enumerated(_) => Err(unsupported_value(column, row_idx)),
        Cell::Value(readings) => match plain_reading(readings) {
            Some(value) => Ok(value),
            None => Err(unsupported_value(column, row_idx)),
        },
    }
}

/// The value of a column as JSON, or the reply that tells why it has none.
pub open spec fn converted(column: Column, row: nat, conversion: Conversion) -> Result<
    json::Json,
    json::Json,
> {
    match conversion {
        Conversion::Full => column_json(column, row),
        Conversion::Plain => plain_column_json(column, row),
    }
}

/// The members that tell the first `n` columns of a row, or the first reply that tells why a
/// column has no value.
pub open spec fn row_members(
    columns: Seq<Column>,
    row: nat,
    conversion: Conversion,
    n: nat,
) -> Result<Map<Seq<char>, json::Json>, json::Json>
    decreases n,
{
    if n == 0 {
        Ok(json::no_members())
    } else {
        match row_members(columns, row, conversion, (n - 1) as nat) {
            Err(reply) => Err(reply),
            Ok(members) => match converted(columns[n - 1], row, conversion) {
                Err(reply) => Err(reply),
                Ok(value) => Ok(members.insert(columns[n - 1].name@, value)),
            },
        }
    }
}

/// What tells the first `n` rows, or the first reply that tells why a column has no value.
pub open spec fn rows_json(rows: Seq<Vec<Column>>, conversion: Conversion, n: nat) -> Result<
    Seq<json::Json>,
    json::Json,
>
    decreases n,
{
    if n == 0 {
        Ok(seq![])
    } else {
        match rows_json(rows, conversion, (n - 1) as nat) {
            Err(reply) => Err(reply),
            Ok(told) => match row_members(
                rows[n - 1]@,
                (n - 1) as nat,
                conversion,
                rows[n - 1]@.len(),
            ) {
                Err(reply) => Err(reply),
                Ok(members) => Ok(told.push(json::Json::Object(members))),
            },
        }
    }
}

/// Once a row cannot be told, no longer list of rows can.
proof fn lemma_rows_fail_early(
    rows: Seq<Vec<Column>>,
    conversion: Conversion,
    i: nat,
    n: nat,
)
    requires
        i <= n,
        rows_json(rows, conversion, i) is Err,
    ensures
        rows_json(rows, conversion, n) == rows_json(rows, conversion, i),
    decreases n,
{
    if i < n {
        lemma_rows_fail_early(rows, conversion, i, (n - 1) as nat);
    }
}

proof fn lemma_row_fails_early(
    columns: Seq<Column>,
    row: nat,
    conversion: Conversion,
    i: nat,
    n: nat,
)
    requires
        i <= n,
        row_members(columns, row, conversion, i) is Err,
    ensures
        row_members(columns, row, conversion, n) == row_members(columns, row, conversion, i),
    decreases n,
{
    if i < n {
        lemma_row_fails_early(columns, row, conversion, i, (n - 1) as nat);
    }
}

fn row_value(columns: &Vec<Column>, row_idx: usize, conversion: Conversion) -> (r: Result<
    serde_json::Map<String, serde_json::Value>,
    serde_json::Value,
>)
    ensures
        match row_members(columns@, row_idx as nat, conversion, columns@.len()) {
            Ok(members) => r matches Ok(m) && json::members_of(m) == members,
            Err(reply) => r matches Err(value) && json::json_of(value) == reply,
        },
{
    let mut members = new_members();
    let mut i: usize = 0;
    while i < columns.len()
        invariant
            i <= columns@.len(),
            row_members(columns@, row_idx as nat, conversion, i as nat) == Ok::<
                Map<Seq<char>, json::Json>,
                json::Json,
            >(json::members_of(members)),
        decreases columns@.len() - i,
    {
        let value_or_reply = match conversion {
            Conversion::Full => convert_db_value_to_json(&columns[i], row_idx),
            Conversion::Plain => convert_plain_value_to_json(&columns[i], row_idx),
        };
        match value_or_reply {
            Ok(value) => put(&mut members, columns[i].name.as_str(), value),
            Err(reply) => {
                proof {
                    lemma_row_fails_early(
                        columns@,
                        row_idx as nat,
                        conversion,
                        (i + 1) as nat,
                        columns@.len(),
                    );
                }
                return Err(reply);
            },
        }
        i += 1;
    }
    Ok(members)
}

/// What a query came to.
pub enum QueryAnswer {
    Rows(Vec<Vec<Column>>),
    Failed(String),
    TimedOut,
}

/// What is told of rows.
pub open spec fn told_rows(rows: Seq<Vec<Column>>, conversion: Conversion) -> json::Json {
    match rows_json(rows, conversion, rows.len()) {
        Ok(told) => json::Json::Array(told),
        Err(reply) => reply,
    }
}

/// Tells rows.
pub(crate) fn rows_value(rows: &Vec<Vec<Column>>, conversion: Conversion) -> (r: serde_json::Value)
    ensures
        json::json_of(r) == told_rows(rows@, conversion),
{
    let mut values: Vec<serde_json::Value> = Vec::new();
    let mut i: usize = 0;
    proof {
        assert(json::jsons(values@) =~= Seq::<json::Json>::empty());
    }
    while i < rows.len()
        invariant
            i <= rows@.len(),
            rows_json(rows@, conversion, i as nat) == Ok::<Seq<json::Json>, json::Json>(
                json::jsons(values@),
            ),
        decreases rows@.len() - i,
    {
        let ghost before = json::jsons(values@);
        match row_value(&rows[i], i, conversion) {
            Ok(members) => {
                let value = object_value(members);
                values.push(value);
                proof {
                    assert(json::jsons(values@) =~= before.push(json::json_of(value)));
                }
            },
            Err(reply) => {
                proof {
                    lemma_rows_fail_early(rows@, conversion, (i + 1) as nat, rows@.len());
                }
                return reply;
            },
        }
        i += 1;
    }
    array_value(values)
}

/// What is told of a query without rows.
pub open spec fn no_rows_json(tool_name: Seq<char>) -> json::Json {
    json::Json::Object(
        json::no_members().insert(
            "message"@,
            json::Json::Text(tool_name + " query executed successfully. no rows returned."@),
        ),
    )
}

/// Tells of a query without rows.
pub(crate) fn no_rows_value(tool_name: &str) -> (r: serde_json::Value)
    ensures
        json::json_of(r) == no_rows_json(tool_name@),
{
    let mut message = tool_name.to_owned();
    message.append(" query executed successfully. no rows returned.");
    let mut members = new_members();
    put_text(&mut members, "message", message.as_str());
    object_value(members)
}

/// What is told of a query.
pub open spec fn query_json(tool_name: Seq<char>, answer: QueryAnswer) -> json::Json {
    match answer {
        QueryAnswer::Rows(rows) => if rows@.len() == 0 {
            no_rows_json(tool_name)
        } else {
            told_rows(rows@, Conversion::Full)
        },
        QueryAnswer::Failed(error) => json::error_json(
            "failed to execute "@ + tool_name + " sql query."@,
            error@,
        ),
        QueryAnswer::TimedOut => json::error_json(
            tool_name + " sql query execution timed out."@,
            "The query took longer than 60 seconds to execute and was cancelled to prevent the system from hanging indefinitely."@,
        ),
    }
}

/// Tells what a query came to: its rows, or what went wrong.
pub fn execute_db_query_common(answer: QueryAnswer, tool_name: &str) -> (r: serde_json::Value)
    ensures
        json::json_of(r) == query_json(tool_name@, answer),
{
    match answer {
        QueryAnswer::Rows(rows) => {
            if rows.len() == 0 {
                no_rows_value(tool_name)
            } else {
                rows_value(&rows, Conversion::Full)
            }
        },
        QueryAnswer::Failed(error) => {
            let mut message = "failed to execute ".to_owned();
            message.append(tool_name);
            message.append(" sql query.");
            error_value(message.as_str(), error.as_str())
        },
        QueryAnswer::TimedOut => {
            let mut message = tool_name.to_owned();
            message.append(" sql query execution timed out.");
            error_value(
                message.as_str(),
                "The query took longer than 60 seconds to execute and was cancelled to prevent the system from hanging indefinitely.",
            )
        },
    }
}

/// The reply to a query, as a text.
pub fn query_reply(answer: QueryAnswer, tool_name: &str) -> (r: String)
    ensures
        json::writes(r@, query_json(tool_name@, answer)),
{
    to_text(&execute_db_query_common(answer, tool_name))
}

// ---------------------------------------------------------------------------------------------
// Laws

/// Whether every column of a row has a value.
pub open spec fn is_tellable(columns: Seq<Column>, row: nat, conversion: Conversion) -> bool {
    forall|k: int|
        0 <= k < columns.len() ==> converted(#[trigger] columns[k], row, conversion) is Ok
}

/// Whether an object tells a row: it has just the names of the columns, and under each name the
/// value of the last column of that name.
pub open spec fn tells_row(
    told: json::Json,
    columns: Seq<Column>,
    row: nat,
    conversion: Conversion,
) -> bool {
    &&& told is Object
    &&& forall|name: Seq<char>| #[trigger]
        told->Object_0.dom().contains(name) ==> exists|k: int|
            0 <= k < columns.len() && (#[trigger] columns[k]).name@ == name
    &&& forall|k: int|
        0 <= k < columns.len() ==> told->Object_0.dom().contains(
            (#[trigger] columns[k]).name@,
        )
    &&& forall|k: int|
        0 <= k < columns.len() && is_last_of_its_name(columns, k) ==> Ok::<json::Json, json::Json>(
            told->Object_0[(#[trigger] columns[k]).name@],
        ) == converted(columns[k], row, conversion)
}

/// Whether no later column has the name of this one.
pub open spec fn is_last_of_its_name(columns: Seq<Column>, k: int) -> bool {
    forall|j: int| k < j < columns.len() ==> (#[trigger] columns[j]).name@ != columns[k].name@
}

proof fn lemma_row_is_told(columns: Seq<Column>, row: nat, conversion: Conversion, n: nat)
    requires
        n <= columns.len(),
        is_tellable(columns, row, conversion),
    ensures
        row_members(columns, row, conversion, n) is Ok,
        tells_row(
            json::Json::Object(row_members(columns, row, conversion, n)->Ok_0),
            columns.take(n as int),
            row,
            conversion,
        ),
    decreases n,
{
    if n > 0 {
        let m = (n - 1) as nat;
        lemma_row_is_told(columns, row, conversion, m);
        let before = columns.take(m as int);
        let all = columns.take(n as int);
        let old_members = row_members(columns, row, conversion, m)->Ok_0;
        let members = row_members(columns, row, conversion, n)->Ok_0;
        let last = columns[m as int];
        assert(converted(columns[m as int], row, conversion) is Ok);
        assert(all[m as int] == last);
        assert forall|name: Seq<char>| #[trigger] members.dom().contains(name) implies exists|
            k: int,
        |
            0 <= k < all.len() && (#[trigger] all[k]).name@ == name by {
            if name == last.name@ {
                assert(all[m as int].name@ == name);
            } else {
                assert(json::Json::Object(old_members)->Object_0.dom().contains(name));
                let k = choose|k: int|
                    0 <= k < before.len() && (#[trigger] before[k]).name@ == name;
                assert(all[k] == before[k]);
                assert(all[k].name@ == name);
            }
        }
        assert forall|k: int| 0 <= k < all.len() implies members.dom().contains(
            (#[trigger] all[k]).name@,
        ) by {
            if k < m {
                assert(before[k] == all[k]);
            }
        }
        assert forall|k: int| 0 <= k < all.len() && is_last_of_its_name(all, k) implies Ok::<
            json::Json,
            json::Json,
        >(members[(#[trigger] all[k]).name@]) == converted(all[k], row, conversion) by {
            if k < m {
                assert(before[k] == all[k]);
                assert(all[m as int].name@ != all[k].name@);
                assert forall|j: int| k < j < before.len() implies (#[trigger] before[j]).name@
                    != before[k].name@ by {
                    assert(all[j] == before[j]);
                }
                assert(is_last_of_its_name(before, k));
            }
        }
    }
}

/// Where every column of every row can be told, all rows are told: the result is an array with one
/// object for each row, in their order, and each object tells its row.
pub proof fn law_every_row_is_told(rows: Seq<Vec<Column>>, conversion: Conversion)
    requires
        forall|i: int|
            0 <= i < rows.len() ==> is_tellable((#[trigger] rows[i])@, i as nat, conversion),
    ensures
        told_rows(rows, conversion) matches json::Json::Array(told) && told.len() == rows.len()
            && forall|i: int|
            0 <= i < rows.len() ==> tells_row(#[trigger] told[i], rows[i]@, i as nat, conversion),
{
    lemma_rows_are_told(rows, conversion, rows.len());
}

proof fn lemma_rows_are_told(rows: Seq<Vec<Column>>, conversion: Conversion, n: nat)
    requires
        n <= rows.len(),
        forall|i: int|
            0 <= i < n ==> is_tellable((#[trigger] rows[i])@, i as nat, conversion),
    ensures
        rows_json(rows, conversion, n) matches Ok(told) && told.len() == n && forall|i: int|
            0 <= i < n ==> tells_row(#[trigger] told[i], rows[i]@, i as nat, conversion),
    decreases n,
{
    if n > 0 {
        let m = (n - 1) as nat;
        lemma_rows_are_told(rows, conversion, m);
        let columns = rows[m as int]@;
        assert(is_tellable(rows[m as int]@, m, conversion));
        lemma_row_is_told(columns, m, conversion, columns.len());
        assert(columns.take(columns.len() as int) =~= columns);
        let before = rows_json(rows, conversion, m)->Ok_0;
        let told = rows_json(rows, conversion, n)->Ok_0;
        assert forall|i: int| 0 <= i < n implies tells_row(
            #[trigger] told[i],
            rows[i]@,
            i as nat,
            conversion,
        ) by {
            if i < m {
                assert(told[i] == before[i]);
            }
        }
    }
}

/// Where a column cannot be told, the first such column of the first such row is what the reply is
/// about, and no row is told.
pub proof fn law_the_first_failure_is_told(
    rows: Seq<Vec<Column>>,
    conversion: Conversion,
    i: int,
    k: int,
    reply: json::Json,
)
    requires
        0 <= i < rows.len(),
        0 <= k < rows[i]@.len(),
        forall|j: int|
            0 <= j < i ==> is_tellable((#[trigger] rows[j])@, j as nat, conversion),
        is_tellable(rows[i]@.take(k), i as nat, conversion),
        converted(rows[i]@[k], i as nat, conversion) == Err::<json::Json, json::Json>(reply),
    ensures
        told_rows(rows, conversion) == reply,
{
    let columns = rows[i]@;
    let row = i as nat;
    lemma_rows_are_told(rows, conversion, row);
    lemma_row_is_told(columns.take(k), row, conversion, k as nat);
    lemma_row_starts_alike(columns, row, conversion, k as nat, k as nat);
    lemma_row_fails_early(columns, row, conversion, (k + 1) as nat, columns.len());
    lemma_rows_fail_early(rows, conversion, (row + 1) as nat, rows.len());
}

proof fn lemma_row_starts_alike(
    columns: Seq<Column>,
    row: nat,
    conversion: Conversion,
    k: nat,
    n: nat,
)
    requires
        n <= k <= columns.len(),
    ensures
        row_members(columns.take(k as int), row, conversion, n) == row_members(
            columns,
            row,
            conversion,
            n,
        ),
    decreases n,
{
    if n > 0 {
        lemma_row_starts_alike(columns, row, conversion, k, (n - 1) as nat);
        assert(columns.take(k as int)[n - 1] == columns[n - 1]);
    }
}

/// A value that is not there is null in every reading of the rows.
pub proof fn law_null_is_told_as_null(column: Column, row: nat, conversion: Conversion)
    requires
        column.cell is Null,
    ensures
        converted(column, row, conversion) == Ok::<json::Json, json::Json>(json::Json::Null),
{
}

/// A value is told as what it is: the first way in which it can be read decides, and under it
/// the value itself is told.
pub proof fn law_values_are_told_as_they_are(
    column: Column,
    row: nat,
    conversion: Conversion,
    readings: Readings,
)
    requires
        column.cell == Cell::Value(readings),
        conversion == Conversion::Plain || readings.json is None && readings.texts is None,
    ensures
        readings.text matches Some(s) ==> converted(column, row, conversion) == Ok::<
            json::Json,
            json::Json,
        >(json::Json::Text(s@)),
        readings.text is None ==> (readings.big matches Some(n) ==> converted(
            column,
            row,
            conversion,
        ) == Ok::<json::Json, json::Json>(json::Json::Integer(n as int))),
        readings.text is None && readings.big is None ==> (readings.small matches Some(n)
            ==> converted(column, row, conversion) == Ok::<json::Json, json::Json>(
            json::Json::Integer(n as int),
        )),
        readings.text is None && readings.big is None && readings.small is None ==> (
        readings.fraction matches Some(v) ==> converted(column, row, conversion) == Ok::<
            json::Json,
            json::Json,
        >(json::json_of(v))),
        readings.text is None && readings.big is None && readings.small is None
            && readings.fraction is None ==> (readings.decimal matches Some(s) ==> converted(
            column,
            row,
            conversion,
        ) == Ok::<json::Json, json::Json>(json::Json::Text(s@))),
        readings.text is None && readings.big is None && readings.small is None
            && readings.fraction is None && readings.decimal is None ==> (
        readings.flag matches Some(b) ==> converted(column, row, conversion) == Ok::<
            json::Json,
            json::Json,
        >(json::Json::Bool(b))),
        readings.text is None && readings.big is None && readings.small is None
            && readings.fraction is None && readings.decimal is None && readings.flag is None ==> (
        readings.time matches Some(s) ==> converted(column, row, conversion) == Ok::<
            json::Json,
            json::Json,
        >(json::Json::Text(s@))),
        readings.text is None && readings.big is None && readings.small is None
            && readings.fraction is None && readings.decimal is None && readings.flag is None
            && readings.time is None ==> converted(column, row, conversion) is Err,
{
}

/// In the full reading, JSON is told as it is, a list of texts as the array of them, and the value
/// of an enumeration as its text; the plain reading tells none of an enumeration.
pub proof fn law_json_lists_and_enumerations_are_told(column: Column, row: nat)
    ensures
        column.cell matches Cell::Value(readings) ==> {
            &&& readings.json matches Some(v) ==> converted(column, row, Conversion::Full) == Ok::<
                json::Json,
                json::Json,
            >(json::json_of(v))
            &&& readings.json is None ==> (readings.texts matches Some(list) ==> (converted(
                column,
                row,
                Conversion::Full,
            ) matches Ok(json::Json::Array(told)) && told.len() == list@.len() && forall|i: int|
                0 <= i < told.len() ==> #[trigger] told[i] == json::Json::Text(list@[i]@)))
        },
        column.cell matches Cell::Enumerated(value) ==> {
            &&& value matches Ok(s) ==> converted(column, row, Conversion::Full) == Ok::<
                json::Json,
                json::Json,
            >(json::Json::Text(s@))
            &&& value is Err ==> converted(column, row, Conversion::Full) is Err
            &&& converted(column, row, Conversion::Plain) is Err
        },
        column.cell is Unreadable ==> converted(column, row, Conversion::Full) is Err && converted(
            column,
            row,
            Conversion::Plain,
        ) is Err,
{
}

/// The reply about a column that cannot be told is an error, and its details give the column's
/// name, the number of the row and, where there is one, the error.
pub proof fn law_failures_name_the_column(column: Column, row: nat, conversion: Conversion)
    ensures
        converted(column, row, conversion) matches Err(reply) ==> {
            &&& json::text_member(reply, "status"@) == Some("error"@)
            &&& json::text_member(reply, "details"@) matches Some(details)
                && text::contains_text(details, column.name@) && text::contains_text(
                details,
                text::decimal(row),
            ) && (column.cell matches Cell::Unreadable(error) ==> text::contains_text(
                details,
                error@,
            )) && (column.cell matches Cell::Enumerated(Err(error)) ==> conversion
                == Conversion::Full ==> text::contains_text(details, error@))
        },
{
    json::lemma_reply_names();
    if let Err(reply) = converted(column, row, conversion) {
        let details = json::text_member(reply, "details"@)->0;
        let number = text::decimal(row);
        let name = column.name@;
        match column.cell {
            Cell::Unreadable(error) => {
                let kind = match conversion {
                    Conversion::Full => "' (type: "@ + column.sql_type_debug@,
                    Conversion::Plain => both_types(column),
                };
                let a = "failed to retrieve raw value for column '"@;
                let b = kind + ") in row "@;
                let c = ": "@;
                let d = ". this might indicate a problem with the query or db connection."@;
                assert(details =~= a + name + (b + number + c + error@ + d));
                assert(details =~= (a + name + b) + number + (c + error@ + d));
                assert(details =~= (a + name + b + number + c) + error@ + d);
                lemma_part(a, name, b + number + c + error@ + d);
                lemma_part(a + name + b, number, c + error@ + d);
                lemma_part(a + name + b + number + c, error@, d);
            },
            Cell::Enumerated(Err(error)) if conversion == Conversion::Full => {
                let a = "failed to convert enum column '"@;
                let b = "' (type: "@ + column.sql_type@ + ") to string using as_str(): "@;
                let c = ". row: "@;
                let d = ". application error."@;
                assert(details =~= a + name + (b + error@ + c + number + d));
                assert(details =~= (a + name + b) + error@ + (c + number + d));
                assert(details =~= (a + name + b + error@ + c) + number + d);
                lemma_part(a, name, b + error@ + c + number + d);
                lemma_part(a + name + b, error@, c + number + d);
                lemma_part(a + name + b + error@ + c, number, d);
            },
            _ => {
                let kind = match conversion {
                    Conversion::Full => "' (type: "@ + column.sql_type@,
                    Conversion::Plain => both_types(column),
                };
                let a = "unhandled or failed conversion for non-null sql type for column '"@;
                let b = kind + ") in row "@;
                let d = ". this is an application error."@;
                assert(details =~= a + name + (b + number + d));
                assert(details =~= (a + name + b) + number + d);
                lemma_part(a, name, b + number + d);
                lemma_part(a + name + b, number, d);
            },
        }
    }
}

proof fn lemma_part(a: Seq<char>, part: Seq<char>, b: Seq<char>)
    ensures
        text::contains_text(a + part + b, part),
{
    text::law_contained_text_is_a_part(a + part + b, part);
}

/// A query is run just where it is given and the address of the database is known, and it is run
/// at that address as it was given. Whatever is not run is replied to with an error.
pub proof fn law_queries_are_run_as_given(
    arguments: Seq<char>,
    asked: Result<Option<Seq<char>>, Seq<char>>,
    db_url: Option<Seq<char>>,
    db_name: Seq<char>,
    variable: Seq<char>,
    url: Seq<char>,
    query: Seq<char>,
)
    ensures
        query_request(arguments, asked, db_url, not_configured_json(db_name, variable)) == Ok::<
            (Seq<char>, Seq<char>),
            json::Json,
        >((url, query)) <==> asked == Ok::<Option<Seq<char>>, Seq<char>>(Some(query)) && db_url
            == Some(url),
        query_request(
            arguments,
            asked,
            db_url,
            not_configured_json(db_name, variable),
        ) matches Err(reply) ==> json::text_member(reply, "status"@) == Some("error"@) && (
        asked matches Err(error) ==> json::text_member(reply, "details"@) == Some(
            "failed to parse arguments json: "@ + error,
        )) && (asked is Ok && asked->Ok_0 is None ==> json::text_member(reply, "message"@) == Some(
            "argument 'sql_query' missing"@,
        )) && (asked is Ok && asked->Ok_0 is Some ==> json::text_member(reply, "message"@) == Some(
            db_name + " query tool is not configured (missing "@ + variable + ")."@,
        )),
{
    json::lemma_reply_names();
}

/// A query that gave rows is told by them; one that gave none, one that failed and one that took
/// too long are each told as what they are, with the name of the tool.
pub proof fn law_each_outcome_of_a_query_is_told(tool_name: Seq<char>, answer: QueryAnswer)
    ensures
        match answer {
            QueryAnswer::Rows(rows) => if rows@.len() > 0 {
                query_json(tool_name, answer) == told_rows(rows@, Conversion::Full)
            } else {
                json::text_member(query_json(tool_name, answer), "message"@) == Some(
                    tool_name + " query executed successfully. no rows returned."@,
                ) && json::member(query_json(tool_name, answer), "status"@) is None
            },
            QueryAnswer::Failed(error) => {
                &&& json::text_member(query_json(tool_name, answer), "status"@) == Some("error"@)
                &&& json::text_member(query_json(tool_name, answer), "message"@) == Some(
                    "failed to execute "@ + tool_name + " sql query."@,
                )
                &&& json::text_member(query_json(tool_name, answer), "details"@) == Some(error@)
            },
            QueryAnswer::TimedOut => {
                &&& json::text_member(query_json(tool_name, answer), "status"@) == Some("error"@)
                &&& json::text_member(query_json(tool_name, answer), "message"@) == Some(
                    tool_name + " sql query execution timed out."@,
                )
            },
        },
{
    json::lemma_reply_names();
}

/// A step is to run the query that is asked for at the address that is known, or to reply.
pub proof fn law_steps_are_what_is_asked(
    step: QueryStep,
    request: Result<(Seq<char>, Seq<char>), json::Json>,
)
    requires
        is_query_step(step, request),
    ensures
        request matches Ok((url, query)) ==> (step matches QueryStep::Run { db_url, sql_query }
            && db_url@ == url && sql_query@ == query),
        request matches Err(reply) ==> (step matches QueryStep::Reply(written) && written@
            == json::json_text(reply)),
{
}

/// What stands for a result is what it holds.
pub proof fn law_views_keep_every_part(
    value: serde_json::Value,
    s: String,
)
    ensures
        values_view(Ok(value)) == Ok::<json::Json, json::Json>(json::json_of(value)),
        values_view(Err(value)) == Err::<json::Json, json::Json>(json::json_of(value)),
        texts_view(Ok(s)) == Ok::<Seq<char>, Seq<char>>(s@),
        texts_view(Err(s)) == Err::<Seq<char>, Seq<char>>(s@),
{
}

/// The reply about a column that cannot be told says what kind of failure it was, and its details
/// give the type of the column: by its full name where the value could not be got at, by its plain
/// name where it could not be converted, and by both in the plain reading.
pub proof fn law_failures_give_the_type(column: Column, row: nat)
    ensures
        converted(column, row, Conversion::Full) matches Err(reply) ==> {
            let details = json::text_member(reply, "details"@)->0;
            match column.cell {
                Cell::Unreadable(_) => json::text_member(reply, "message"@) == Some(
                    "failed to retrieve data from database for a column."@,
                ) && text::contains_text(details, column.sql_type_debug@),
                Cell::Enumerated(_) => json::text_member(reply, "message"@) == Some(
                    "failed to process database results due to an enum conversion issue (as_str failed)."@,
                ) && text::contains_text(details, column.sql_type@),
                _ => json::text_member(reply, "message"@) == Some(
                    "failed to process database results due to an unsupported or unparseable data type."@,
                ) && text::contains_text(details, column.sql_type@),
            }
        },
        converted(column, row, Conversion::Plain) matches Err(reply) ==> {
            let details = json::text_member(reply, "details"@)->0;
            &&& json::text_member(reply, "message"@) == Some(
                if column.cell is Unreadable {
                    "failed to retrieve data from database for a column."@
                } else {
                    "failed to process database results due to an unsupported or unparseable data type."@
                },
            )
            &&& text::contains_text(details, column.sql_type@)
            &&& text::contains_text(details, column.sql_type_debug@)
        },
{
    json::lemma_reply_names();
    let number = text::decimal(row);
    let name = column.name@;
    let kind = column.sql_type@;
    let debug = column.sql_type_debug@;
    let unread = "failed to retrieve raw value for column '"@ + name + "' (type: "@;
    let unhandled = "unhandled or failed conversion for non-null sql type for column '"@ + name
        + "' (type: "@;
    if let Err(reply) = converted(column, row, Conversion::Full) {
        let details = json::text_member(reply, "details"@)->0;
        match column.cell {
            Cell::Unreadable(error) => {
                let b = ") in row "@ + number + ": "@ + error@
                    + ". this might indicate a problem with the query or db connection."@;
                assert(details =~= unread + debug + b);
                lemma_part(unread, debug, b);
            },
            Cell::Enumerated(value) => {
                let a = "failed to convert enum column '"@ + name + "' (type: "@;
                let b = ") to string using as_str(): "@ + value->Err_0@ + ". row: "@ + number
                    + ". application error."@;
                assert(details =~= a + kind + b);
                lemma_part(a, kind, b);
            },
            _ => {
                let b = ") in row "@ + number + ". this is an application error."@;
                assert(details =~= unhandled + kind + b);
                lemma_part(unhandled, kind, b);
            },
        }
    }
    if let Err(reply) = converted(column, row, Conversion::Plain) {
        let details = json::text_member(reply, "details"@)->0;
        let (head, tail) = match column.cell {
            Cell::Unreadable(error) => (
                unread,
                ") in row "@ + number + ": "@ + error@
                    + ". this might indicate a problem with the query or db connection."@,
            ),
            _ => (unhandled, ") in row "@ + number + ". this is an application error."@),
        };
        let mid = ", reported type name: "@;
        assert(details =~= head + debug + (mid + kind + tail));
        assert(details =~= (head + debug + mid) + kind + tail);
        lemma_part(head, debug, mid + kind + tail);
        lemma_part(head + debug + mid, kind, tail);
    }
}

} // verus!
