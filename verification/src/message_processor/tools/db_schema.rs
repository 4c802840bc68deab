//! The tool that tells the schema of a database from a file, with the files beside the tool.

use super::database_schema;
use super::database_schema::{find_schema, SchemaFile};
use crate::ai_interaction::tools::db_schema::GetDatabaseSchemaArgs;
use vstd::prelude::*;

pub use super::database_schema::get_schema_from_file;

verus! {

/// Where the schemas lie.
pub const SCHEMAS_DIR_PATH: &'static str = "src/message_processor/tools/db_schema/schemas/";

/// Starts the tool on the arguments of a call, or on why they could not be read.
pub fn execute_get_database_schema(args: Result<GetDatabaseSchemaArgs, String>) -> (r: SchemaFile)
    ensures
        database_schema::is_schema_step(r, SCHEMAS_DIR_PATH@, args),
{
    find_schema(SCHEMAS_DIR_PATH, args)
}

} // verus!
