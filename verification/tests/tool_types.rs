//! The types of tools.

use lexi::ai_interaction::tools::is_admin_only_tool;
use lexi::ai_interaction::tools::web_search::{web_search_tool, WEB_SEARCH_TOOL_NAME};
use lexi::ai_interaction::tools::{admin_session_end, beacon_slot_check, relay_circuit_breaker};
use lexi::openai_api::types::{
    ApiToolType, InputItem, ToolChoice, ToolDefinition, ToolFunctionParameterPropertyBuilder,
    ToolFunctionParameters, ToolProperties, WebSearchToolConfig,
};

#[test]
fn tool_definition_new_sets_required_to_all_keys_for_strict() {
    let props = ToolProperties::new()
        .insert("a", ToolFunctionParameterPropertyBuilder::new_string().build())
        .insert("b", ToolFunctionParameterPropertyBuilder::integer().build());
    let params = ToolFunctionParameters {
        kind: "object".to_string(),
        properties: props.clone(),
        required: Some(vec!["a".to_string()]), // intentionally incomplete
        additional_properties: true,           // will be overridden
    };

    let def = ToolDefinition::new("t".to_string(), Some("d".to_string()), Some(params));

    assert_eq!(def.kind, "function");
    assert_eq!(def.strict, Some(true));
    let built_params = def.parameters.expect("parameters expected");
    assert_eq!(built_params.kind, "object");
    // required must be all keys, not just ["a"]
    let mut expected: Vec<String> = props.keys();
    expected.sort();
    let mut actual = built_params.required.unwrap();
    actual.sort();
    assert_eq!(actual, expected);
    assert!(!built_params.additional_properties);
}

#[test]
fn test_web_search_tool_definition() {
    let tool = web_search_tool();
    assert_eq!(tool.kind, "web_search");
    assert_eq!(tool.name, WEB_SEARCH_TOOL_NAME);
    assert!(tool.description.is_none());
    assert!(tool.parameters.is_none());
    assert!(tool.strict.is_none());
}

#[test]
fn a_property_of_the_same_name_takes_the_place_of_the_former() {
    let props = ToolProperties::new()
        .insert("a", ToolFunctionParameterPropertyBuilder::new_string().build())
        .insert("a", ToolFunctionParameterPropertyBuilder::new_boolean().build());
    assert_eq!(props.len(), 1);
    assert_eq!(props.get("a").unwrap().kind, "boolean");
    assert!(props.get("b").is_none());
}

#[test]
fn builder_builds_what_it_was_told() {
    let property = ToolFunctionParameterPropertyBuilder::new_string()
        .description("which one")
        .enum_string(&["x", "y"])
        .build();
    assert_eq!(property.kind, "string");
    assert_eq!(property.description.as_deref(), Some("which one"));
    assert_eq!(
        property.enum_values,
        Some(vec!["x".to_string(), "y".to_string()])
    );
}

#[test]
fn a_tool_is_written_as_the_api_takes_it() {
    let tool = ApiToolType::Function(beacon_slot_check::beacon_slot_check_tool());
    let value = tool.to_json();
    assert_eq!(value["type"], "function");
    assert_eq!(value["name"], "check_beacon_slot_missed");
    assert_eq!(value["strict"], true);
    assert_eq!(value["parameters"]["type"], "object");
    assert_eq!(value["parameters"]["required"][0], "slot_number");
    assert_eq!(value["parameters"]["additionalProperties"], false);
    assert_eq!(
        value["parameters"]["properties"]["slot_number"]["type"],
        "integer"
    );
    let search = ApiToolType::WebSearch(WebSearchToolConfig::new()).to_json();
    assert_eq!(search.to_string(), "{\"type\":\"web_search_preview\"}");
}

#[test]
fn a_bare_text_is_written_as_a_string() {
    let item: InputItem = InputItem::Text("hello".to_string());
    assert_eq!(item.to_json().to_string(), "\"hello\"");
}

#[test]
fn tools_for_admins_are_told_apart() {
    assert!(is_admin_only_tool(&ApiToolType::Function(
        admin_session_end::admin_session_end_tool()
    )));
    assert!(is_admin_only_tool(&ApiToolType::Function(
        relay_circuit_breaker::relay_circuit_breaker_tool()
    )));
    assert!(!is_admin_only_tool(&ApiToolType::Function(
        beacon_slot_check::beacon_slot_check_tool()
    )));
    assert!(!is_admin_only_tool(&ApiToolType::WebSearch(
        WebSearchToolConfig::default()
    )));
}

#[test]
fn choices_have_their_names() {
    assert_eq!(ToolChoice::Auto.name(), "auto");
    assert_eq!(ToolChoice::Forbidden.name(), "none");
    assert_eq!(ToolChoice::Required.name(), "required");
}
