//! The tool that tells the schema of mevdb from a file.

use crate::ai_interaction::tools;
use crate::ai_interaction::tools::function_tool;
use crate::openai_api::types::{ToolDefinition, ToolProperties};
use crate::text;
use crate::text::replace;
use vstd::prelude::*;

verus! {

pub const MEVDB_SCHEMA_TOOL_NAME: &'static str = "get_mevdb_schema";

pub const MEVDB_SCHEMA_FILE_PATH: &'static str =
    "src/message_processor/tools/mevdb_schema.txt";

/// The tool, which takes nothing.
pub fn mevdb_schema_tool() -> (r: ToolDefinition)
    ensures
        r@ == tools::tool_with(
            "get_mevdb_schema"@,
            "retrieves the schema definition for the mev (maximal extractable value) database. this can be used to understand table structures before forming a query for the 'execute_mevdb_query' tool."@,
            seq![],
        ),
{
    function_tool(
        MEVDB_SCHEMA_TOOL_NAME,
        "retrieves the schema definition for the mev (maximal extractable value) database. this can be used to understand table structures before forming a query for the 'execute_mevdb_query' tool.",
        ToolProperties::new(),
    )
}

/// The reply to a call: what the file holds, or the error with its quotes escaped.
pub open spec fn schema_reply(content: Result<Seq<char>, Seq<char>>) -> Seq<char> {
    match content {
        Ok(schema) => schema,
        Err(error) => "{\"error\": \"failed_to_read_schema\", \"details\": \""@
            + text::replace_all(
            "failed to read mevdb schema file: "@ + error,
            "\""@,
            "\\\""@,
        ) + "\"}"@,
    }
}

/// The reply to a call, from what the file holds or why it could not be read.
pub fn execute_get_mevdb_schema(content: Result<String, String>) -> (r: String)
    ensures
        r@ == schema_reply(
            match content {
                Ok(schema) => Ok(schema@),
                Err(error) => Err(error@),
            },
        ),
{
    match content {
        Ok(schema) => schema,
        Err(error) => {
            let mut message = "failed to read mevdb schema file: ".to_owned();
            message.append(error.as_str());
            proof {
                reveal_strlit("\"");
            }
            let escaped = replace(message.as_str(), "\"", "\\\"");
            let mut out = "{\"error\": \"failed_to_read_schema\", \"details\": \"".to_owned();
            out.append(escaped.as_str());
            out.append("\"}");
            out
        },
    }
}

/// What the file holds is told as it is; an error is told as one, as it is where it holds no quote.
pub proof fn law_the_schema_is_told_as_it_is(schema: Seq<char>, error: Seq<char>)
    ensures
        schema_reply(Ok(schema)) == schema,
        !text::contains_text("failed to read mevdb schema file: "@ + error, "\""@) ==> schema_reply(
            Err(error),
        ) == "{\"error\": \"failed_to_read_schema\", \"details\": \""@ + (
        "failed to read mevdb schema file: "@ + error) + "\"}"@,
{
    if !text::contains_text("failed to read mevdb schema file: "@ + error, "\""@) {
        text::law_replacing_what_is_not_there_changes_nothing(
            "failed to read mevdb schema file: "@ + error,
            "\""@,
            "\\\""@,
        );
    }
}

} // verus!
