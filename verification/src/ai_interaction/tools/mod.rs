//! The tools that the model may call.

pub mod admin_session_end;
pub mod beacon_slot_check;
pub mod conversation_admin;
pub mod db_query;
pub mod db_schema;
pub mod relay_circuit_breaker;
pub mod retrieve_manual;
pub mod scheduled_jobs;
pub mod web_search;

use crate::openai_api::types;
use crate::openai_api::types::{ApiToolType, ToolDefinition, ToolFunctionParameters, ToolProperties};
use crate::text::same_text;
use vstd::prelude::*;

verus! {

/// A parameter of a type with a description.
pub open spec fn described(kind: Seq<char>, description: Seq<char>) -> types::PropertyView {
    types::PropertyView { kind, description: Some(description), enum_values: None }
}

/// A string parameter with a description and the values it may take.
pub open spec fn choice(description: Seq<char>, values: Seq<Seq<char>>) -> types::PropertyView {
    types::PropertyView {
        kind: "string"@,
        description: Some(description),
        enum_values: Some(values),
    }
}

/// A strict function tool with parameters.
pub open spec fn tool_with(
    name: Seq<char>,
    description: Seq<char>,
    properties: Seq<types::PropertyEntry>,
) -> types::ToolView {
    types::ToolView {
        kind: "function"@,
        name,
        description: Some(description),
        parameters: Some(
            types::ParametersView {
                kind: "object"@,
                properties,
                required: Some(types::names(properties)),
                additional_properties: false,
            },
        ),
        strict: Some(true),
    }
}

/// A strict function tool with parameters.
pub(crate) fn function_tool(
    name: &str,
    description: &str,
    properties: ToolProperties,
) -> (r: ToolDefinition)
    ensures
        r@ == tool_with(name@, description@, properties@),
{
    let required = properties.keys();
    ToolDefinition::new(
        name.to_owned(),
        Some(description.to_owned()),
        Some(
            ToolFunctionParameters {
                kind: "object".to_owned(),
                properties,
                required: Some(required),
                additional_properties: false,
            },
        ),
    )
}

/// Whether a tool of this name is only for admin sessions.
pub open spec fn is_admin_only_name(name: Seq<char>) -> bool {
    name == "end_admin_session"@ || name == "conversation_admin_tool"@ || name
        == "relay_circuit_breaker"@
}

/// Whether a tool is only for admin sessions.
pub open spec fn is_admin_only(tool: types::ApiToolView) -> bool {
    match tool {
        types::ApiToolView::Function(f) => is_admin_only_name(f.name),
        types::ApiToolView::WebSearch(_) => false,
    }
}

/// Whether a tool is only for admin sessions.
pub fn is_admin_only_tool(tool: &ApiToolType) -> (r: bool)
    ensures
        r == is_admin_only(tool@),
{
    match tool {
        ApiToolType::Function(f) => same_text(
            f.name.as_str(),
            admin_session_end::ADMIN_SESSION_END_TOOL_NAME,
        ) || same_text(f.name.as_str(), conversation_admin::CONVERSATION_ADMIN_TOOL_NAME)
            || same_text(f.name.as_str(), relay_circuit_breaker::RELAY_CIRCUIT_BREAKER_TOOL_NAME),
        ApiToolType::WebSearch(_) => false,
    }
}

} // verus!
