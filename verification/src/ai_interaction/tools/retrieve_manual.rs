//! The tool that hands out manuals.

use super::function_tool;
use crate::json;
use crate::json::{error_reply, new_members, put_text, write_members};
use crate::openai_api::types;
use crate::openai_api::types::{
    ToolDefinition, ToolFunctionParameterPropertyBuilder, ToolProperties,
};
use crate::text::same_text;
use vstd::prelude::*;

verus! {

pub const RETRIEVE_MANUAL_TOOL_NAME: &'static str = "retrieve_manual";

pub const GENERATE_PROPOSER_REIMBURSEMENT_MANUAL_NAME: &'static str =
    "generate_proposer_reimbursement";

pub const RELAY_DYNAMICS_MANUAL_NAME: &'static str = "relay_dynamics";

/// The arguments of a call.
#[derive(Debug)]
pub struct RetrieveManualArgs {
    pub manual_name: String,
}

/// The texts of the manuals.
pub struct Manuals {
    pub generate_proposer_reimbursement: String,
    pub relay_dynamics: String,
}

/// The tool, which takes the name of a manual.
pub open spec fn tool_view() -> types::ToolView {
    super::tool_with(
        "retrieve_manual"@,
        "retrieves the content of a specified manual. this tool provides access to instructional documents for various tasks."@,
        types::with_property(
            seq![],
            (
                "manual_name"@,
                super::choice(
                    "the name of the manual to retrieve. available manuals:\n'generate_proposer_reimbursement' (explains how to generate a proposer reimbursement).\n'relay_dynamics' (explains the ultra sound relay, and gives context on bids, headers, block builders, adjustments, optimistic simulation, node operators, and proposers).\n"@,
                    seq!["generate_proposer_reimbursement"@, "relay_dynamics"@],
                ),
            ),
        ),
    )
}

/// The tool, which takes the name of a manual.
pub fn retrieve_manual_tool() -> (r: ToolDefinition)
    ensures
        r@ == tool_view(),
{
    let manuals = [GENERATE_PROPOSER_REIMBURSEMENT_MANUAL_NAME, RELAY_DYNAMICS_MANUAL_NAME];
    let name = ToolFunctionParameterPropertyBuilder::new_string().description(
        "the name of the manual to retrieve. available manuals:\n'generate_proposer_reimbursement' (explains how to generate a proposer reimbursement).\n'relay_dynamics' (explains the ultra sound relay, and gives context on bids, headers, block builders, adjustments, optimistic simulation, node operators, and proposers).\n",
    ).enum_string(&manuals).build();
    proof {
        assert(types::slice_texts(manuals@) =~= seq![
            "generate_proposer_reimbursement"@,
            "relay_dynamics"@,
        ]);
    }
    function_tool(
        RETRIEVE_MANUAL_TOOL_NAME,
        "retrieves the content of a specified manual. this tool provides access to instructional documents for various tasks.",
        ToolProperties::new().insert("manual_name", name),
    )
}

/// The text of the manual of a name, or that there is none.
pub open spec fn manual_content(manuals: Manuals, name: Seq<char>) -> Result<Seq<char>, Seq<char>> {
    if name == "generate_proposer_reimbursement"@ {
        Ok(manuals.generate_proposer_reimbursement@)
    } else if name == "relay_dynamics"@ {
        Ok(manuals.relay_dynamics@)
    } else {
        Err("unknown manual name: "@ + name)
    }
}

/// Looks a manual up by its name.
pub fn get_manual_content(manuals: &Manuals, manual_name: &str) -> (r: Result<String, String>)
    ensures
        match r {
            Ok(content) => manual_content(*manuals, manual_name@) == Ok::<Seq<char>, Seq<char>>(
                content@,
            ),
            Err(message) => manual_content(*manuals, manual_name@) == Err::<Seq<char>, Seq<char>>(
                message@,
            ),
        },
{
    if same_text(manual_name, GENERATE_PROPOSER_REIMBURSEMENT_MANUAL_NAME) {
        Ok(manuals.generate_proposer_reimbursement.clone())
    } else if same_text(manual_name, RELAY_DYNAMICS_MANUAL_NAME) {
        Ok(manuals.relay_dynamics.clone())
    } else {
        let mut message = "unknown manual name: ".to_owned();
        message.append(manual_name);
        Err(message)
    }
}

/// The reply to a call.
pub open spec fn manual_json(
    manuals: Manuals,
    args: Result<RetrieveManualArgs, String>,
) -> json::Json {
    match args {
        Ok(a) => match manual_content(manuals, a.manual_name@) {
            Ok(content) => json::Json::Object(
                json::no_members().insert("manual_name"@, json::Json::Text(a.manual_name@)).insert(
                    "manual_content"@,
                    json::Json::Text(content),
                ),
            ),
            Err(message) => json::error_json("invalid_manual_name"@, message),
        },
        Err(error) => json::error_json(
            "argument_parsing_error"@,
            "failed to parse arguments for retrieve_manual: "@ + error@,
        ),
    }
}

/// Runs the tool on the arguments of a call, or on why they could not be read.
pub fn execute_retrieve_manual(
    manuals: &Manuals,
    args: Result<RetrieveManualArgs, String>,
) -> (r: String)
    ensures
        json::writes(r@, manual_json(*manuals, args)),
{
    match args {
        Ok(a) => match get_manual_content(manuals, a.manual_name.as_str()) {
            Ok(content) => {
                let mut members = new_members();
                put_text(&mut members, "manual_name", a.manual_name.as_str());
                put_text(&mut members, "manual_content", content.as_str());
                write_members(members)
            },
            Err(message) => error_reply("invalid_manual_name", message.as_str()),
        },
        Err(error) => {
            let mut details = "failed to parse arguments for retrieve_manual: ".to_owned();
            details.append(error.as_str());
            error_reply("argument_parsing_error", details.as_str())
        },
    }
}

/// Every manual that the tool offers can be retrieved.
pub proof fn law_offered_manuals_exist(manuals: Manuals, name: Seq<char>)
    requires
        seq!["generate_proposer_reimbursement"@, "relay_dynamics"@].contains(name),
    ensures
        manual_content(manuals, name) is Ok,
{
}

/// Each manual is retrieved by its own name, as it is, and there is none under any other name; what
/// goes wrong is told as an error.
pub proof fn law_each_name_has_its_own_manual(
    manuals: Manuals,
    args: RetrieveManualArgs,
    error: String,
)
    ensures
        ({
            let name = args.manual_name@;
            let reply = manual_json(manuals, Ok(args));
            let failed = manual_json(manuals, Err(error));
            &&& name == "generate_proposer_reimbursement"@ ==> json::text_member(
                reply,
                "manual_content"@,
            ) == Some(manuals.generate_proposer_reimbursement@)
            &&& name == "relay_dynamics"@ ==> json::text_member(reply, "manual_content"@) == Some(
                manuals.relay_dynamics@,
            )
            &&& name == "generate_proposer_reimbursement"@ || name == "relay_dynamics"@
                ==> json::text_member(reply, "manual_name"@) == Some(name) && json::member(
                reply,
                "status"@,
            ) is None
            &&& name != "generate_proposer_reimbursement"@ && name != "relay_dynamics"@
                ==> json::text_member(reply, "status"@) == Some("error"@) && json::text_member(
                reply,
                "details"@,
            ) == Some("unknown manual name: "@ + name)
            &&& json::text_member(failed, "status"@) == Some("error"@)
            &&& json::text_member(failed, "details"@) == Some(
                "failed to parse arguments for retrieve_manual: "@ + error@,
            )
        }),
{
    json::lemma_reply_names();
    reveal_strlit("manual_name");
    reveal_strlit("manual_content");
    reveal_strlit("status");
    reveal_strlit("generate_proposer_reimbursement");
    reveal_strlit("relay_dynamics");
    assert("manual_name"@.len() == 11);
    assert("manual_content"@.len() == 14);
    assert("status"@.len() == 6);
    assert("generate_proposer_reimbursement"@.len() == 31);
    assert("relay_dynamics"@.len() == 14);
}

} // verus!
