//! The web search tool under its name as a function.

use crate::openai_api::types;
use crate::openai_api::types::ToolDefinition;
use vstd::prelude::*;

verus! {

pub const WEB_SEARCH_TOOL_NAME: &'static str = "web_search_enabled";

/// The tool: neither description nor parameters nor strictness apply to it.
pub fn web_search_tool() -> (r: ToolDefinition)
    ensures
        r@ == (types::ToolView {
            kind: "web_search"@,
            name: "web_search_enabled"@,
            description: None,
            parameters: None,
            strict: None,
        }),
{
    ToolDefinition {
        kind: "web_search".to_owned(),
        name: WEB_SEARCH_TOOL_NAME.to_owned(),
        description: None,
        parameters: None,
        strict: None,
    }
}

} // verus!
