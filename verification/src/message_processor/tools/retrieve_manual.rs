//! The tool that tells a manual from a file.

use crate::ai_interaction::tools;
use crate::ai_interaction::tools::function_tool;
use crate::ai_interaction::tools::retrieve_manual::RetrieveManualArgs;
use crate::json;
use crate::json::{error_reply, new_members, put_text, write_members};
use crate::openai_api::types;
use crate::openai_api::types::{
    ToolDefinition, ToolFunctionParameterPropertyBuilder, ToolProperties,
};
use crate::text;
use crate::text::same_text;
use vstd::prelude::*;

verus! {

pub const RETRIEVE_MANUAL_TOOL_NAME: &'static str = "retrieve_manual";

pub const GENERATE_PROPOSER_REIMBURSEMENT_MANUAL_NAME: &'static str =
    "generate_proposer_reimbursement_manual";

pub const MANUALS_DIR_PATH: &'static str = "src/message_processor/tools/manuals/";

/// The tool, which takes the name of the one manual there is.
pub open spec fn tool_view() -> types::ToolView {
    tools::tool_with(
        "retrieve_manual"@,
        "retrieves the content of a specified manual. this tool provides access to instructional documents for various tasks."@,
        types::with_property(
            seq![],
            (
                "manual_name"@,
                tools::choice(
                    "the name of the manual to retrieve. available manuals: 'generate_proposer_reimbursement_manual' (explains how to generate a proposer reimbursement)."@,
                    seq!["generate_proposer_reimbursement_manual"@],
                ),
            ),
        ),
    )
}

/// The tool, which takes the name of the one manual there is.
pub fn retrieve_manual_tool() -> (r: ToolDefinition)
    ensures
        r@ == tool_view(),
{
    let manuals = [GENERATE_PROPOSER_REIMBURSEMENT_MANUAL_NAME];
    let name = ToolFunctionParameterPropertyBuilder::new_string().description(
        "the name of the manual to retrieve. available manuals: 'generate_proposer_reimbursement_manual' (explains how to generate a proposer reimbursement).",
    ).enum_string(&manuals).build();
    proof {
        assert(types::slice_texts(manuals@) =~= seq!["generate_proposer_reimbursement_manual"@]);
    }
    function_tool(
        RETRIEVE_MANUAL_TOOL_NAME,
        "retrieves the content of a specified manual. this tool provides access to instructional documents for various tasks.",
        ToolProperties::new().insert("manual_name", name),
    )
}

/// What the tool does next: read a file, or reply.
pub enum ManualFile {
    Read(String),
    Reply(String),
}

/// The file that holds a manual.
pub open spec fn manual_path(name: Seq<char>) -> Seq<char> {
    MANUALS_DIR_PATH@ + name + ".md"@
}

/// The file that holds a manual.
pub fn manual_file_path(manual_name: &str) -> (r: String)
    ensures
        r@ == manual_path(manual_name@),
{
    let mut path = MANUALS_DIR_PATH.to_owned();
    path.append(manual_name);
    path.append(".md");
    path
}

/// The file to read, or the reply where there is none.
pub open spec fn manual_request(args: Result<Seq<char>, Seq<char>>) -> Result<
    Seq<char>,
    json::Json,
> {
    match args {
        Ok(name) => if name == GENERATE_PROPOSER_REIMBURSEMENT_MANUAL_NAME@ {
            Ok(manual_path(name))
        } else {
            Err(
                json::error_json(
                    "invalid_manual_name"@,
                    "manual_name must be one of the defined enum values, got: "@ + name,
                ),
            )
        },
        Err(error) => Err(
            json::error_json(
                "argument_parsing_error"@,
                "failed to parse arguments for retrieve_manual: "@ + error,
            ),
        ),
    }
}

/// Starts the tool on the arguments of a call, or on why they could not be read.
pub fn execute_retrieve_manual(args: Result<RetrieveManualArgs, String>) -> (r: ManualFile)
    ensures
        match manual_request(
            match args {
                Ok(a) => Ok(a.manual_name@),
                Err(error) => Err(error@),
            },
        ) {
            Ok(path) => r matches ManualFile::Read(p) && p@ == path,
            Err(reply) => r matches ManualFile::Reply(text) && json::writes(text@, reply),
        },
{
    match args {
        Ok(a) => {
            if same_text(
                a.manual_name.as_str(),
                GENERATE_PROPOSER_REIMBURSEMENT_MANUAL_NAME,
            ) {
                ManualFile::Read(manual_file_path(a.manual_name.as_str()))
            } else {
                let mut details =
                    "manual_name must be one of the defined enum values, got: ".to_owned();
                details.append(a.manual_name.as_str());
                ManualFile::Reply(error_reply("invalid_manual_name", details.as_str()))
            }
        },
        Err(error) => {
            let mut details = "failed to parse arguments for retrieve_manual: ".to_owned();
            details.append(error.as_str());
            ManualFile::Reply(error_reply("argument_parsing_error", details.as_str()))
        },
    }
}

/// What is told of a manual whose file was read, or could not be.
pub open spec fn told_manual_json(name: Seq<char>, content: Result<Seq<char>, Seq<char>>) -> json::Json {
    match content {
        Ok(manual) => json::Json::Object(
            json::no_members().insert("manual_name"@, json::Json::Text(name)).insert(
                "manual_content"@,
                json::Json::Text(manual),
            ),
        ),
        Err(error) => json::error_json(
            "failed_to_read_manual_file"@,
            "failed to read manual file '"@ + manual_path(name) + "': "@ + error,
        ),
    }
}

/// The reply to a call, from what the file holds or why it could not be read.
pub fn get_manual_content_from_file(manual_name: &str, content: Result<String, String>) -> (r:
    String)
    ensures
        json::writes(
            r@,
            told_manual_json(
                manual_name@,
                match content {
                    Ok(manual) => Ok(manual@),
                    Err(error) => Err(error@),
                },
            ),
        ),
{
    match content {
        Ok(manual) => {
            let mut members = new_members();
            put_text(&mut members, "manual_name", manual_name);
            put_text(&mut members, "manual_content", manual.as_str());
            write_members(members)
        },
        Err(error) => {
            let mut details = "failed to read manual file '".to_owned();
            details.append(manual_file_path(manual_name).as_str());
            details.append("': ");
            details.append(error.as_str());
            error_reply("failed_to_read_manual_file", details.as_str())
        },
    }
}

/// The one manual there is is read from its file; any other name, and arguments that cannot be read,
/// are told as errors.
pub proof fn law_one_manual_is_read(name: Seq<char>, error: Seq<char>)
    ensures
        manual_request(Ok("generate_proposer_reimbursement_manual"@)) == Ok::<
            Seq<char>,
            json::Json,
        >(
            "src/message_processor/tools/manuals/"@ + "generate_proposer_reimbursement_manual"@
                + ".md"@,
        ),
        name != "generate_proposer_reimbursement_manual"@ ==> (manual_request(Ok(name)) matches Err(
            reply,
        ) && json::text_member(reply, "status"@) == Some("error"@) && json::text_member(
            reply,
            "details"@,
        ) == Some("manual_name must be one of the defined enum values, got: "@ + name)),
        manual_request(Err(error)) matches Err(reply) && json::text_member(reply, "status"@)
            == Some("error"@),
{
    json::lemma_reply_names();
}

/// A manual is told by its name and as its file holds it; a file that cannot be read is told as an
/// error.
pub proof fn law_manuals_are_told_as_they_are(
    name: Seq<char>,
    manual: Seq<char>,
    error: Seq<char>,
)
    ensures
        json::text_member(told_manual_json(name, Ok(manual)), "manual_name"@) == Some(name),
        json::text_member(told_manual_json(name, Ok(manual)), "manual_content"@) == Some(manual),
        json::text_member(told_manual_json(name, Err(error)), "status"@) == Some("error"@),
        json::text_member(told_manual_json(name, Err(error)), "details"@) == Some(
            "failed to read manual file '"@ + ("src/message_processor/tools/manuals/"@ + name
                + ".md"@) + "': "@ + error,
        ),
{
    json::lemma_reply_names();
    reveal_strlit("manual_name");
    reveal_strlit("manual_content");
    assert("manual_name"@.len() == 11);
    assert("manual_content"@.len() == 14);
}

/// The tool takes one argument, the name of a manual, which must be given and can only be that of
/// the one manual there is.
pub proof fn law_the_tool_takes_the_name_of_a_manual()
    ensures
        ({
            let parameters = tool_view().parameters->0;
            &&& tool_view().parameters is Some
            &&& types::names(parameters.properties) == seq!["manual_name"@]
            &&& parameters.required == Some(seq!["manual_name"@])
            &&& parameters.properties[0].1.kind == "string"@
            &&& parameters.properties[0].1.enum_values == Some(
                seq!["generate_proposer_reimbursement_manual"@],
            )
        }),
{
    let properties = tool_view().parameters->0.properties;
    reveal_with_fuel(types::name_position, 2);
    assert(Seq::<types::PropertyEntry>::empty().len() == 0);
    assert(types::names(properties) =~= seq!["manual_name"@]);
}

} // verus!
