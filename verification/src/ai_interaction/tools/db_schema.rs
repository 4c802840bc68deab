//! The tool that tells the schema of a database, so that the model can write queries for it.

use super::function_tool;
use crate::json;
use crate::json::{error_reply, error_value, get_text, to_text};
use crate::openai_api::types;
use crate::openai_api::types::{
    ToolDefinition, ToolFunctionParameterPropertyBuilder, ToolProperties,
};
use crate::text;
use crate::text::same_text;
use crate::time::Timestamp;
use vstd::prelude::*;

verus! {

pub const DATABASE_SCHEMA_TOOL_NAME: &'static str = "get_database_schema";

/// The arguments of a call.
#[derive(Debug)]
pub struct GetDatabaseSchemaArgs {
    pub database_name: String,
}

/// The tool, which takes the name of a database.
pub open spec fn tool_view() -> types::ToolView {
    super::tool_with(
        "get_database_schema"@,
        "retrieves the schema definition for a specified database. this can be used to understand table structures before forming a query for the corresponding 'execute_<db_name>_query' tool."@,
        types::with_property(
            seq![],
            (
                "database_name"@,
                super::choice(
                    "the name of the database to get the schema for. must be one of 'mevdb' or 'globaldb'."@,
                    seq!["mevdb"@, "globaldb"@],
                ),
            ),
        ),
    )
}

/// The tool, which takes the name of a database.
pub fn database_schema_tool() -> (r: ToolDefinition)
    ensures
        r@ == tool_view(),
{
    let names = ["mevdb", "globaldb"];
    let name = ToolFunctionParameterPropertyBuilder::new_string().description(
        "the name of the database to get the schema for. must be one of 'mevdb' or 'globaldb'.",
    ).enum_string(&names).build();
    proof {
        assert(types::slice_texts(names@) =~= seq!["mevdb"@, "globaldb"@]);
    }
    function_tool(
        DATABASE_SCHEMA_TOOL_NAME,
        "retrieves the schema definition for a specified database. this can be used to understand table structures before forming a query for the corresponding 'execute_<db_name>_query' tool.",
        ToolProperties::new().insert("database_name", name),
    )
}

/// Fetches schemas from live databases, where their addresses are known.
#[derive(Debug)]
pub struct LiveSchemaFetcher {
    mevdb_url: Option<String>,
    globaldb_url: Option<String>,
}

/// What a fetch does next: connect to a database, or reply.
pub enum SchemaFetch<'a> {
    Connect(&'a str),
    Reply(String),
}

impl LiveSchemaFetcher {
    /// The address of mevdb, if it is known.
    pub closed spec fn mevdb(self) -> Option<Seq<char>> {
        text::text_view(self.mevdb_url)
    }

    /// The address of globaldb, if it is known.
    pub closed spec fn globaldb(self) -> Option<Seq<char>> {
        text::text_view(self.globaldb_url)
    }

    /// A fetcher that knows the given addresses.
    pub fn new(mevdb_url: Option<String>, globaldb_url: Option<String>) -> (r: Self)
        ensures
            r.mevdb() == text::text_view(mevdb_url),
            r.globaldb() == text::text_view(globaldb_url),
    {
        LiveSchemaFetcher { mevdb_url, globaldb_url }
    }

    /// The address under which the schema of a database is fetched, or the reply where there is
    /// none.
    pub open spec fn fetch_target(self, db_name: Seq<char>) -> Result<Seq<char>, json::Json> {
        if db_name != "mevdb"@ && db_name != "globaldb"@ {
            Err(
                json::error_json(
                    "invalid_database_name"@,
                    "invalid database name for schema fetcher: "@ + db_name,
                ),
            )
        } else {
            match (if db_name == "mevdb"@ {
                self.mevdb()
            } else {
                self.globaldb()
            }) {
                Some(url) => Ok(url),
                None => Err(
                    json::error_json(
                        "database_not_configured"@,
                        "database url for "@ + db_name + " not configured"@,
                    ),
                ),
            }
        }
    }

    /// Starts to fetch the schema of a database.
    pub fn fetch<'a>(&'a self, db_name: &str) -> (r: SchemaFetch<'a>)
        ensures
            match self.fetch_target(db_name@) {
                Ok(url) => r matches SchemaFetch::Connect(u) && u@ == url,
                Err(reply) => r matches SchemaFetch::Reply(text) && json::writes(text@, reply),
            },
    {
        let url = if same_text(db_name, "mevdb") {
            &self.mevdb_url
        } else if same_text(db_name, "globaldb") {
            &self.globaldb_url
        } else {
            let mut details = "invalid database name for schema fetcher: ".to_owned();
            details.append(db_name);
            return SchemaFetch::Reply(error_reply("invalid_database_name", details.as_str()));
        };
        match url {
            Some(u) => SchemaFetch::Connect(u.as_str()),
            None => {
                let mut details = "database url for ".to_owned();
                details.append(db_name);
                details.append(" not configured");
                SchemaFetch::Reply(error_reply("database_not_configured", details.as_str()))
            },
        }
    }
}

/// The key under which the schema of a database is kept.
pub fn cache_key(db_name: &str) -> (r: String)
    ensures
        r@ == "db_schema_"@ + db_name@,
{
    let mut out = "db_schema_".to_owned();
    out.append(db_name);
    out
}

/// What asking a database for its schema gave.
pub enum SchemaAnswer {
    Schema(serde_json::Value),
    QueryFailed(String),
    ConnectionFailed(String),
}

/// What is told of the answer.
pub open spec fn schema_json(db_name: Seq<char>, answer: SchemaAnswer) -> json::Json {
    match answer {
        SchemaAnswer::Schema(value) => json::json_of(value),
        SchemaAnswer::QueryFailed(error) => json::error_json(
            "database_query_failed"@,
            "failed to execute schema query for "@ + db_name + ": "@ + error@,
        ),
        SchemaAnswer::ConnectionFailed(error) => json::error_json(
            "database_connection_failed"@,
            "failed to connect to "@ + db_name + " database: "@ + error@,
        ),
    }
}

/// Whether what is told is worth keeping: it is not an error.
pub open spec fn worth_keeping(schema: json::Json) -> bool {
    json::text_member(schema, "status"@) != Some("error"@)
}

/// The text of the schema, and whether it is to be kept.
pub fn read_schema(db_name: &str, answer: SchemaAnswer) -> (r: (String, bool))
    ensures
        json::writes(r.0@, schema_json(db_name@, answer)),
        r.1 == worth_keeping(schema_json(db_name@, answer)),
{
    let value = match answer {
        SchemaAnswer::Schema(value) => value,
        SchemaAnswer::QueryFailed(error) => {
            let mut details = "failed to execute schema query for ".to_owned();
            details.append(db_name);
            details.append(": ");
            details.append(error.as_str());
            error_value("database_query_failed", details.as_str())
        },
        SchemaAnswer::ConnectionFailed(error) => {
            let mut details = "failed to connect to ".to_owned();
            details.append(db_name);
            details.append(" database: ");
            details.append(error.as_str());
            error_value("database_connection_failed", details.as_str())
        },
    };
    let keep = match get_text(&value, "status") {
        Some(status) => !same_text(status, "error"),
        None => true,
    };
    (to_text(&value), keep)
}

/// A failure to fetch a schema is never kept.
pub proof fn law_failures_are_not_kept(db_name: Seq<char>, answer: SchemaAnswer)
    requires
        !(answer is Schema),
    ensures
        !worth_keeping(schema_json(db_name, answer)),
{
    reveal_strlit("status");
    reveal_strlit("message");
    reveal_strlit("details");
    assert("status"@[0] == 's');
    assert("message"@[0] == 'm');
    assert("details"@[0] == 'd');
}

/// What the tool does next: fetch the schema, or reply.
pub enum SchemaStep {
    Fetch,
    Reply(String),
}

/// How long a kept schema counts, in seconds: seven days.
pub const SCHEMA_LIFETIME_SECS: u32 = 604_800;

/// Whether a schema that was kept at one point in time no longer counts at another.
pub open spec fn is_stale(kept_at: Timestamp, now: Timestamp) -> bool {
    now.instant() - kept_at.instant() > SCHEMA_LIFETIME_SECS * 1_000_000_000
}

/// Starts the tool on what is kept of the schema: what is fresh is told as it is, what is stale or
/// missing is fetched.
pub fn execute_get_database_schema(
    kept: Result<Option<(String, Timestamp)>, String>,
    now: Timestamp,
) -> (r: SchemaStep)
    ensures
        match kept {
            Ok(Some((schema, kept_at))) => if is_stale(kept_at, now) {
                r is Fetch
            } else {
                r == SchemaStep::Reply(schema)
            },
            Ok(None) => r is Fetch,
            Err(error) => r matches SchemaStep::Reply(reply) && json::writes(
                reply@,
                json::error_json("failed_to_read_schema_from_cache"@, error@),
            ),
        },
{
    match kept {
        Ok(Some((schema, kept_at))) => if Timestamp::is_older_than(
            kept_at,
            now,
            SCHEMA_LIFETIME_SECS,
        ) {
            SchemaStep::Fetch
        } else {
            SchemaStep::Reply(schema)
        },
        Ok(None) => SchemaStep::Fetch,
        Err(error) => SchemaStep::Reply(
            error_reply("failed_to_read_schema_from_cache", error.as_str()),
        ),
    }
}

proof fn lemma_database_names()
    ensures
        "mevdb"@ != "globaldb"@,
{
    reveal_strlit("mevdb");
    reveal_strlit("globaldb");
    assert("mevdb"@.len() == 5);
    assert("globaldb"@.len() == 8);
}

/// The schema of each database is fetched at its own address, where that is known; else, and for any
/// other name, it is told why not.
pub proof fn law_each_database_is_fetched_at_its_own_address(
    fetcher: LiveSchemaFetcher,
    name: Seq<char>,
)
    ensures
        fetcher.mevdb() matches Some(url) ==> fetcher.fetch_target("mevdb"@) == Ok::<
            Seq<char>,
            json::Json,
        >(url),
        fetcher.globaldb() matches Some(url) ==> fetcher.fetch_target("globaldb"@) == Ok::<
            Seq<char>,
            json::Json,
        >(url),
        name == "mevdb"@ && fetcher.mevdb() is None || name == "globaldb"@ && fetcher.globaldb()
            is None ==> (fetcher.fetch_target(name) matches Err(reply) && json::text_member(
            reply,
            "message"@,
        ) == Some("database_not_configured"@) && json::text_member(reply, "details"@) == Some(
            "database url for "@ + name + " not configured"@,
        )),
        name != "mevdb"@ && name != "globaldb"@ ==> (fetcher.fetch_target(name) matches Err(reply)
            && json::text_member(reply, "message"@) == Some("invalid_database_name"@)
            && json::text_member(reply, "details"@) == Some(
            "invalid database name for schema fetcher: "@ + name,
        )),
{
    lemma_database_names();
    json::lemma_reply_names();
}

/// A schema is told as it is; a failure is told as an error with the database and the error.
pub proof fn law_schemas_are_told_as_they_are(
    db_name: Seq<char>,
    value: serde_json::Value,
    error: String,
)
    ensures
        schema_json(db_name, SchemaAnswer::Schema(value)) == json::json_of(value),
        ({
            let reply = schema_json(db_name, SchemaAnswer::QueryFailed(error));
            json::text_member(reply, "message"@) == Some("database_query_failed"@)
                && json::text_member(reply, "details"@) == Some(
                "failed to execute schema query for "@ + db_name + ": "@ + error@,
            )
        }),
        ({
            let reply = schema_json(db_name, SchemaAnswer::ConnectionFailed(error));
            json::text_member(reply, "message"@) == Some("database_connection_failed"@)
                && json::text_member(reply, "details"@) == Some(
                "failed to connect to "@ + db_name + " database: "@ + error@,
            )
        }),
{
    json::lemma_reply_names();
}

/// A schema is kept unless it is itself an error.
pub proof fn law_schemas_are_kept(schema: json::Json)
    ensures
        worth_keeping(schema) <==> json::text_member(schema, "status"@) != Some("error"@),
{
}

/// A schema that was kept counts for seven days, to the nanosecond.
pub proof fn law_schemas_count_for_seven_days(kept_at: Timestamp, now: Timestamp)
    ensures
        is_stale(kept_at, now) <==> now.instant() > kept_at.instant() + 7 * 24 * 60 * 60
            * 1_000_000_000,
{
}

/// What was kept is told as it is for seven days, and behind them it is fetched anew, as is what was
/// never kept; each database is kept under a name of its own.
pub proof fn law_what_is_kept_is_told_until_it_is_stale(
    schema: String,
    kept_at: Timestamp,
    now: Timestamp,
    kept: SchemaStep,
    missing: SchemaStep,
    one: &str,
    other: &str,
    key: String,
    other_key: String,
)
    requires
        call_ensures(execute_get_database_schema, (Ok(Some((schema, kept_at))), now), kept),
        call_ensures(execute_get_database_schema, (Ok(None), now), missing),
        call_ensures(cache_key, (one,), key),
        call_ensures(cache_key, (other,), other_key),
    ensures
        now.instant() - kept_at.instant() <= 7 * 24 * 60 * 60 * 1_000_000_000 ==> kept
            == SchemaStep::Reply(schema),
        now.instant() - kept_at.instant() > 7 * 24 * 60 * 60 * 1_000_000_000 ==> kept is Fetch,
        missing is Fetch,
        key@ == other_key@ ==> one@ == other@,
{
    let n = "db_schema_"@.len() as int;
    assert(key@.skip(n) =~= one@);
    assert(other_key@.skip(n) =~= other@);
}

} // verus!
