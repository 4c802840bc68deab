//! The tool that ends an admin session.

use crate::json;
use crate::json::{put_text, reply_members, write_members};
use crate::openai_api::types;
use crate::openai_api::types::ToolDefinition;
use vstd::prelude::*;

verus! {

pub const ADMIN_SESSION_END_TOOL_NAME: &'static str = "end_admin_session";

const DESCRIPTION: &'static str =
    "ends the current admin session and restores normal conversation context.";

/// The tool, which takes no parameters.
pub open spec fn tool_view() -> types::ToolView {
    types::strict_tool(
        "end_admin_session"@,
        Some("ends the current admin session and restores normal conversation context."@),
        None,
    )
}

/// The tool, which takes no parameters.
pub fn admin_session_end_tool() -> (r: ToolDefinition)
    ensures
        r@ == tool_view(),
{
    ToolDefinition::new(
        ADMIN_SESSION_END_TOOL_NAME.to_owned(),
        Some(DESCRIPTION.to_owned()),
        None,
    )
}

/// What the tool replies.
pub open spec fn session_end_json() -> json::Json {
    json::Json::Object(
        json::status_members(
            "success"@,
            "admin session ended; returning to normal mode."@,
        ).insert("action"@, json::Json::Text("end_admin_session"@)),
    )
}

/// Runs the tool, which asks that the session be ended whatever it is given.
pub fn execute_admin_session_end_tool(_arguments_json_str: &str) -> (r: String)
    ensures
        json::writes(r@, session_end_json()),
{
    let mut members = reply_members("success", "admin session ended; returning to normal mode.");
    put_text(&mut members, "action", "end_admin_session");
    write_members(members)
}

/// The reply is a success that asks for the end of the session.
pub proof fn law_the_end_of_the_session_is_asked_for()
    ensures
        json::text_member(session_end_json(), "status"@) == Some("success"@),
        json::text_member(session_end_json(), "action"@) == Some("end_admin_session"@),
        json::text_member(session_end_json(), "message"@) == Some(
            "admin session ended; returning to normal mode."@,
        ),
{
    json::lemma_reply_names();
    reveal_strlit("action");
    reveal_strlit("status");
    reveal_strlit("message");
    assert("action"@[0] == 'a');
    assert("status"@[0] == 's');
    assert("message"@[0] == 'm');
}

} // verus!
