//! The tool that tells the schema of a database from a file.
//!
//! The files lie in [`SCHEMAS_DIR_PATH`]; [`super::db_schema`] has those of another directory.

use crate::ai_interaction::tools::db_schema::GetDatabaseSchemaArgs;
use crate::json;
use crate::json::error_reply;
use crate::text;
use crate::text::same_text;
use vstd::prelude::*;

verus! {

pub const DATABASE_SCHEMA_TOOL_NAME: &'static str = "get_database_schema";

/// Where the schemas lie.
pub const SCHEMAS_DIR_PATH: &'static str = "src/message_processor/tools/schemas/";

/// What the tool does next: read a file, or reply.
pub enum SchemaFile {
    Read(String),
    Reply(String),
}

/// The file in a directory that holds the schema of a database, or the reply where there is none.
pub open spec fn schema_file(
    directory: Seq<char>,
    args: Result<Seq<char>, Seq<char>>,
) -> Result<Seq<char>, json::Json> {
    match args {
        Ok(name) => if name == "mevdb"@ {
            Ok(directory + "mevdb_schema.txt"@)
        } else if name == "globaldb"@ {
            Ok(directory + "globaldb_schema.txt"@)
        } else {
            Err(
                json::error_json(
                    "invalid_database_name"@,
                    "database_name must be 'mevdb' or 'globaldb', got: "@ + name,
                ),
            )
        },
        Err(error) => Err(
            json::error_json(
                "failed_to_parse_arguments"@,
                "failed to parse arguments json: "@ + error,
            ),
        ),
    }
}

/// The arguments of a call, or why they could not be read, behind their strings.
pub open spec fn schema_args_view(args: Result<GetDatabaseSchemaArgs, String>) -> Result<
    Seq<char>,
    Seq<char>,
> {
    match args {
        Ok(a) => Ok(a.database_name@),
        Err(error) => Err(error@),
    }
}

/// Whether a step is the one to take on the arguments of a call, where the files lie in a directory.
pub open spec fn is_schema_step(
    step: SchemaFile,
    directory: Seq<char>,
    args: Result<GetDatabaseSchemaArgs, String>,
) -> bool {
    match schema_file(directory, schema_args_view(args)) {
        Ok(path) => step matches SchemaFile::Read(p) && p@ == path,
        Err(reply) => step matches SchemaFile::Reply(text) && json::writes(text@, reply),
    }
}

/// Starts the tool on the arguments of a call, or on why they could not be read.
pub fn execute_get_database_schema(args: Result<GetDatabaseSchemaArgs, String>) -> (r: SchemaFile)
    ensures
        is_schema_step(r, SCHEMAS_DIR_PATH@, args),
{
    find_schema(SCHEMAS_DIR_PATH, args)
}

/// Starts the tool where the files lie in a directory.
pub(crate) fn find_schema(
    directory: &str,
    args: Result<GetDatabaseSchemaArgs, String>,
) -> (r: SchemaFile)
    ensures
        is_schema_step(r, directory@, args),
{
    match args {
        Ok(a) => {
            let mut path = directory.to_owned();
            if same_text(a.database_name.as_str(), "mevdb") {
                path.append("mevdb_schema.txt");
                SchemaFile::Read(path)
            } else if same_text(a.database_name.as_str(), "globaldb") {
                path.append("globaldb_schema.txt");
                SchemaFile::Read(path)
            } else {
                let mut details =
                    "database_name must be 'mevdb' or 'globaldb', got: ".to_owned();
                details.append(a.database_name.as_str());
                SchemaFile::Reply(error_reply("invalid_database_name", details.as_str()))
            }
        },
        Err(error) => {
            let mut details = "failed to parse arguments json: ".to_owned();
            details.append(error.as_str());
            SchemaFile::Reply(error_reply("failed_to_parse_arguments", details.as_str()))
        },
    }
}

/// Whether a reply is what a file that was read comes to: its content, or the error.
pub open spec fn is_schema_reply(
    reply: Seq<char>,
    db_name: Seq<char>,
    content: Result<Seq<char>, Seq<char>>,
) -> bool {
    match content {
        Ok(schema) => reply == schema,
        Err(error) => json::writes(
            reply,
            json::error_json(
                "failed_to_read_schema"@,
                "failed to read "@ + db_name + " schema file: "@ + error,
            ),
        ),
    }
}

/// The reply to a call, from what the file holds or why it could not be read.
pub fn get_schema_from_file(db_name: &str, content: Result<String, String>) -> (r: String)
    ensures
        is_schema_reply(
            r@,
            db_name@,
            match content {
                Ok(schema) => Ok(schema@),
                Err(error) => Err(error@),
            },
        ),
{
    match content {
        Ok(schema) => schema,
        Err(error) => {
            let mut details = "failed to read ".to_owned();
            details.append(db_name);
            details.append(" schema file: ");
            details.append(error.as_str());
            error_reply("failed_to_read_schema", details.as_str())
        },
    }
}

/// Each database has a file of its own, and there is none for any other name.
pub proof fn law_each_database_has_its_own_file(
    directory: Seq<char>,
    name: Seq<char>,
    error: Seq<char>,
)
    ensures
        schema_file(directory, Ok("mevdb"@)) == Ok::<Seq<char>, json::Json>(
            directory + "mevdb_schema.txt"@,
        ),
        schema_file(directory, Ok("globaldb"@)) == Ok::<Seq<char>, json::Json>(
            directory + "globaldb_schema.txt"@,
        ),
        name != "mevdb"@ && name != "globaldb"@ ==> (schema_file(
            directory,
            Ok(name),
        ) matches Err(reply) && json::text_member(reply, "status"@) == Some("error"@)
            && json::text_member(reply, "details"@) == Some(
            "database_name must be 'mevdb' or 'globaldb', got: "@ + name,
        )),
        schema_file(directory, Err(error)) matches Err(reply) && json::text_member(
            reply,
            "status"@,
        ) == Some("error"@) && json::text_member(reply, "details"@) == Some(
            "failed to parse arguments json: "@ + error,
        ),
{
    json::lemma_reply_names();
    reveal_strlit("mevdb");
    reveal_strlit("globaldb");
    assert("mevdb"@.len() == 5);
    assert("globaldb"@.len() == 8);
}

/// What a file holds is told as it is.
pub proof fn law_files_are_told_as_they_are(
    reply: Seq<char>,
    db_name: Seq<char>,
    schema: Seq<char>,
    error: Seq<char>,
)
    ensures
        is_schema_reply(reply, db_name, Ok(schema)) <==> reply == schema,
        is_schema_reply(reply, db_name, Err(error)) ==> reply == json::json_text(
            json::error_json(
                "failed_to_read_schema"@,
                "failed to read "@ + db_name + " schema file: "@ + error,
            ),
        ),
{
}

/// A step is to read the file of the database that is named, or to reply why not.
pub proof fn law_steps_are_what_is_asked(
    step: SchemaFile,
    directory: Seq<char>,
    args: GetDatabaseSchemaArgs,
    error: String,
)
    ensures
        is_schema_step(step, directory, Ok(args)) ==> match schema_file(
            directory,
            Ok(args.database_name@),
        ) {
            Ok(path) => step matches SchemaFile::Read(p) && p@ == path,
            Err(reply) => step matches SchemaFile::Reply(written) && written@ == json::json_text(
                reply,
            ),
        },
        is_schema_step(step, directory, Err(error)) ==> step is Reply,
{
}

} // verus!
