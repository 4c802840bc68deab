//! The turns of the conversation.

use super::tools::mevdb_query::mevdb_query_tool;
use crate::ai_interaction::openai_chat;
use crate::ai_interaction::openai_chat::{failed_call_output, LoopStep, ResponseLoop};
use crate::ai_interaction::tools;
use crate::ai_interaction::AiConversationOutcome;
use crate::json;
use crate::json::{get_text, parse};
use crate::openai_api;
use crate::openai_api::types;
use crate::openai_api::types::{
    copy_tools, ApiToolType, InputItem, OutputFunctionCall,
};
use crate::openai_api::CallResponsesApiOptionalArgs;
use crate::text;
use crate::text::same_text;
use vstd::prelude::*;

verus! {

pub const OPENAI_RESPONSES_MODEL_ID: &'static str = "gpt-4.1";

pub const INSTRUCTIONS: &'static str = "you are a helpful ai assistant named lexi.";

/// What every conversation offers and says.
pub struct OpenAiCallConfig {
    pub available_tools: Vec<ApiToolType>,
    pub instructions: String,
}

/// The tools there are, in the order in which they are offered.
pub open spec fn available_tools_view() -> Seq<types::ApiToolView> {
    seq![
        types::ApiToolView::Function(tools::beacon_slot_check::tool_view()),
        types::ApiToolView::Function(tools::db_schema::tool_view()),
        types::ApiToolView::Function(super::tools::mevdb_query::tool_view()),
        types::ApiToolView::Function(tools::db_query::globaldb_tool_view()),
        types::ApiToolView::Function(tools::conversation_admin::tool_view()),
    ]
}

/// What every conversation offers and says.
pub fn openai_call_config() -> (r: OpenAiCallConfig)
    ensures
        types::tool_views(r.available_tools@) == available_tools_view(),
        r.instructions@ == INSTRUCTIONS@,
{
    let mut available_tools: Vec<ApiToolType> = Vec::new();
    available_tools.push(
        ApiToolType::Function(tools::beacon_slot_check::beacon_slot_check_tool()),
    );
    available_tools.push(ApiToolType::Function(tools::db_schema::database_schema_tool()));
    available_tools.push(ApiToolType::Function(mevdb_query_tool()));
    available_tools.push(ApiToolType::Function(tools::db_query::globaldb_query_tool()));
    available_tools.push(
        ApiToolType::Function(tools::conversation_admin::conversation_admin_tool()),
    );
    proof {
        assert(types::tool_views(available_tools@) =~= available_tools_view());
    }
    OpenAiCallConfig { available_tools, instructions: INSTRUCTIONS.to_owned() }
}

// ---------------------------------------------------------------------------------------------
// The history in the log

/// What the log says of an item.
pub open spec fn item_label(item: types::ItemView) -> Seq<char> {
    match item {
        InputItem::Message(m) => if m.role == "user"@ {
            "user_message"@
        } else if m.role == "assistant"@ {
            "assistant_message"@
        } else if m.role == "tool"@ {
            "tool_message_generic"@
        } else {
            "message_role_"@ + m.role
        },
        InputItem::FunctionCallOutput(_) => "tool_call_output"@,
        InputItem::FunctionCallEcho(_) => "tool_call_echo"@,
        InputItem::Text(_) => "text_input_item"@,
    }
}

fn label_of(item: &InputItem) -> (r: String)
    ensures
        r@ == item_label(item@),
{
    match item {
        InputItem::Message(m) => {
            if same_text(m.role.as_str(), "user") {
                "user_message".to_owned()
            } else if same_text(m.role.as_str(), "assistant") {
                "assistant_message".to_owned()
            } else if same_text(m.role.as_str(), "tool") {
                "tool_message_generic".to_owned()
            } else {
                let mut out = "message_role_".to_owned();
                out.append(m.role.as_str());
                out
            }
        },
        InputItem::FunctionCallOutput(_) => "tool_call_output".to_owned(),
        InputItem::FunctionCallEcho(_) => "tool_call_echo".to_owned(),
        InputItem::Text(_) => "text_input_item".to_owned(),
    }
}

/// What the log says of a history: a label for each item.
pub fn summarize_conversation_history(history: &Vec<InputItem>) -> (r: Vec<String>)
    ensures
        text::texts(r@) == types::item_views(history@).map_values(
            |item: types::ItemView| item_label(item),
        ),
{
    let mut out: Vec<String> = Vec::new();
    let mut i: usize = 0;
    while i < history.len()
        invariant
            i <= history@.len(),
            out@.len() == i,
            forall|j: int| 0 <= j < i ==> (#[trigger] out@[j])@ == item_label(history@[j]@),
        decreases history@.len() - i,
    {
        out.push(label_of(&history[i]));
        i += 1;
    }
    proof {
        assert(text::texts(out@) =~= types::item_views(history@).map_values(
            |item: types::ItemView| item_label(item),
        ));
    }
    out
}

// ---------------------------------------------------------------------------------------------
// The tools

/// The tools there are.
#[derive(Debug, Clone, Copy, PartialEq, Eq, Structural)]
pub enum Tool {
    BeaconSlotCheck,
    DatabaseSchema,
    MevdbQuery,
    GlobaldbQuery,
    ConversationAdmin,
}

/// The tool of a name.
pub open spec fn tool_named(name: Seq<char>) -> Option<Tool> {
    if name == "check_beacon_slot_missed"@ {
        Some(Tool::BeaconSlotCheck)
    } else if name == "get_database_schema"@ {
        Some(Tool::DatabaseSchema)
    } else if name == "execute_mevdb_query"@ {
        Some(Tool::MevdbQuery)
    } else if name == "execute_globaldb_query"@ {
        Some(Tool::GlobaldbQuery)
    } else if name == "conversation_admin_tool"@ {
        Some(Tool::ConversationAdmin)
    } else {
        None
    }
}

/// The tool that a call is for, or the output for a call of a tool that there is not.
pub fn execute_tool_call(call: &OutputFunctionCall) -> (r: Result<Tool, String>)
    ensures
        match tool_named(call.name@) {
            Some(tool) => r == Ok::<Tool, String>(tool),
            None => r matches Err(output) && output@ == openai_chat::unexpected_tool(call.name@),
        },
{
    let name = call.name.as_str();
    if same_text(name, tools::beacon_slot_check::BEACON_SLOT_CHECK_TOOL_NAME) {
        Ok(Tool::BeaconSlotCheck)
    } else if same_text(name, tools::db_schema::DATABASE_SCHEMA_TOOL_NAME) {
        Ok(Tool::DatabaseSchema)
    } else if same_text(name, tools::db_query::MEVDB_TOOL_NAME) {
        Ok(Tool::MevdbQuery)
    } else if same_text(name, tools::db_query::GLOBALDB_TOOL_NAME) {
        Ok(Tool::GlobaldbQuery)
    } else if same_text(name, tools::conversation_admin::CONVERSATION_ADMIN_TOOL_NAME) {
        Ok(Tool::ConversationAdmin)
    } else {
        let mut out = "{\"error\": \"unexpected_tool_name\", \"tool_name\": \"".to_owned();
        out.append(name);
        out.append("\"}");
        Err(out)
    }
}

// ---------------------------------------------------------------------------------------------
// The loop

/// Whether the output of a tool, read where it could be, asks for a reset.
pub open spec fn reset_asked(parsed: Result<json::Json, Seq<char>>) -> bool {
    match parsed {
        Ok(value) => json::text_member(value, "action"@) == Some("reset_conversation"@),
        Err(_) => false,
    }
}

/// Whether the output of a tool, read where it could be, asks for a reset.
pub fn asks_for_reset(parsed: &Result<serde_json::Value, String>) -> (r: bool)
    ensures
        r == reset_asked(
            match parsed {
                Ok(value) => Ok(json::json_of(*value)),
                Err(e) => Err(e@),
            },
        ),
{
    if let Ok(value) = parsed {
        if let Some(action) = get_text(value, "action") {
            return same_text(action, "reset_conversation");
        }
    }
    false
}

/// The loop once the first of the calls has given its result: it ends where the output of the
/// admin tool asks for a reset, and goes on with the call answered otherwise.
pub open spec fn after_result(
    state: openai_chat::LoopView,
    result: Result<Seq<char>, Seq<char>>,
) -> (openai_chat::LoopView, openai_chat::StepView) {
    let call = state.pending[0];
    match result {
        Ok(output) if call.name == "conversation_admin_tool"@ && reset_asked(
            json::parsed_json(output),
        ) => (
            state,
            openai_chat::StepView::Finish(
                AiConversationOutcome::ResetConversation(output, state.response_id),
            ),
        ),
        _ => openai_chat::after_call_answer(state, openai_chat::call_answer(call.name, result)),
    }
}

/// Takes the result of the call that was asked for.
pub fn process_openai_response_loop(
    response_loop: &mut ResponseLoop,
    result: Result<String, String>,
) -> (r: LoopStep)
    requires
        old(response_loop)@.pending.len() > 0,
    ensures
        (final(response_loop)@, r@) == after_result(
            old(response_loop)@,
            match result {
                Ok(output) => Ok(output@),
                Err(error) => Err(error@),
            },
        ),
{
    let answer = match result {
        Ok(output) => {
            if same_text(
                response_loop.pending_call().name.as_str(),
                tools::conversation_admin::CONVERSATION_ADMIN_TOOL_NAME,
            ) {
                let parsed = parse(output.as_str());
                if asks_for_reset(&parsed) {
                    let id = response_loop.response_id().clone();
                    return LoopStep::Finish(AiConversationOutcome::ResetConversation(output, id));
                }
            }
            output
        },
        Err(error) => failed_call_output(
            response_loop.pending_call().name.as_str(),
            error.as_str(),
        ),
    };
    response_loop.answer_call(answer.as_str())
}

/// What a request of the loop says beside its input: the instructions go with the first one only.
pub open spec fn loop_request_args(
    config: OpenAiCallConfig,
    previous_response_id: Seq<char>,
    with_instructions: bool,
) -> openai_api::ArgsView {
    openai_api::ArgsView {
        model_id: "gpt-4.1"@,
        previous_response_id: Some(previous_response_id),
        tools: Some(types::tool_views(config.available_tools@)),
        tool_choice: None,
        instructions: if with_instructions {
            Some(config.instructions@)
        } else {
            None
        },
        temperature: None,
        store: Some(true),
        verbosity: None,
        reasoning_effort: None,
    }
}

/// What a request of the loop says beside its input.
pub fn loop_args<'a>(
    config: &'a OpenAiCallConfig,
    previous_response_id: &'a str,
    with_instructions: bool,
) -> (r: CallResponsesApiOptionalArgs<'a>)
    ensures
        r@ == loop_request_args(*config, previous_response_id@, with_instructions),
{
    CallResponsesApiOptionalArgs {
        model_id: OPENAI_RESPONSES_MODEL_ID,
        previous_response_id: Some(previous_response_id),
        tools: Some(copy_tools(&config.available_tools)),
        tool_choice: None,
        instructions: if with_instructions {
            Some(config.instructions.as_str())
        } else {
            None
        },
        temperature: None,
        store: Some(true),
        verbosity: None,
        reasoning_effort: None,
    }
}

/// The error where the model could not be asked again.
pub fn failed_request_error(error: &str) -> (r: String)
    ensures
        r@ == "api call after tool results failed: "@ + error@,
{
    let mut out = "api call after tool results failed: ".to_owned();
    out.append(error);
    out
}

/// Only a reset ends the loop early: whatever else a tool gives, it is handed to the model.
pub proof fn law_only_a_reset_ends_the_loop(
    state: openai_chat::LoopView,
    result: Result<Seq<char>, Seq<char>>,
)
    requires
        state.pending.len() > 0,
    ensures
        after_result(state, result).1 matches openai_chat::StepView::Finish(outcome)
            ==> outcome is ResetConversation,
{
}

// ---------------------------------------------------------------------------------------------
// Laws

proof fn lemma_tool_names()
    ensures
        "check_beacon_slot_missed"@.len() == 24,
        "get_database_schema"@.len() == 19,
        "get_database_schema"@[0] == 'g',
        "execute_mevdb_query"@.len() == 19,
        "execute_mevdb_query"@[0] == 'e',
        "execute_globaldb_query"@.len() == 22,
        "conversation_admin_tool"@.len() == 23,
{
    reveal_strlit("check_beacon_slot_missed");
    reveal_strlit("get_database_schema");
    reveal_strlit("execute_mevdb_query");
    reveal_strlit("execute_globaldb_query");
    reveal_strlit("conversation_admin_tool");
}

/// Each tool is reached by its own name, and by no other.
pub proof fn law_each_name_reaches_its_own_tool(name: Seq<char>)
    ensures
        tool_named(name) == Some(Tool::BeaconSlotCheck) <==> name == "check_beacon_slot_missed"@,
        tool_named(name) == Some(Tool::DatabaseSchema) <==> name == "get_database_schema"@,
        tool_named(name) == Some(Tool::MevdbQuery) <==> name == "execute_mevdb_query"@,
        tool_named(name) == Some(Tool::GlobaldbQuery) <==> name == "execute_globaldb_query"@,
        tool_named(name) == Some(Tool::ConversationAdmin) <==> name == "conversation_admin_tool"@,
{
    lemma_tool_names();
}

/// Every tool that is offered under a name is the one that a call of that name is dispatched to,
/// and all of them are offered.
pub proof fn law_offered_tools_are_dispatched()
    ensures
        available_tools_view().len() == 5,
        openai_chat::is_function_named(available_tools_view()[0], "check_beacon_slot_missed"@),
        openai_chat::is_function_named(available_tools_view()[1], "get_database_schema"@),
        openai_chat::is_function_named(available_tools_view()[2], "execute_mevdb_query"@),
        openai_chat::is_function_named(available_tools_view()[3], "execute_globaldb_query"@),
        openai_chat::is_function_named(available_tools_view()[4], "conversation_admin_tool"@),
        forall|i: int|
            0 <= i < available_tools_view().len() ==> (
            #[trigger] available_tools_view()[i] matches types::ApiToolView::Function(f)
                && tool_named(f.name) is Some),
{
    lemma_tool_names();
}

/// The log tells the sides of the conversation apart: each role has its own label, and so have
/// the calls of tools and what they gave.
pub proof fn law_labels_tell_items_apart(role: Seq<char>, content: Seq<char>)
    ensures
        item_label(types::message_item("user"@, content)) == "user_message"@,
        item_label(types::message_item("assistant"@, content)) == "assistant_message"@,
        item_label(types::message_item("tool"@, content)) == "tool_message_generic"@,
        role != "user"@ && role != "assistant"@ && role != "tool"@ ==> item_label(
            types::message_item(role, content),
        ) == "message_role_"@ + role,
        item_label(types::call_output_item(role, content)) == "tool_call_output"@,
        item_label(InputItem::Text(content)) == "text_input_item"@,
        forall|e: types::FunctionCallEchoItem<Seq<char>>| #[trigger]
            item_label(InputItem::FunctionCallEcho(e)) == "tool_call_echo"@,
{
    reveal_strlit("user");
    reveal_strlit("assistant");
    reveal_strlit("tool");
    assert("user"@.len() == 4);
    assert("user"@[0] == 'u');
    assert("assistant"@.len() == 9);
    assert("tool"@.len() == 4);
    assert("tool"@[0] == 't');
}

/// The loop ends in a reset just where the admin tool's output asks for one; every other result is
/// handed to the model under the call's id, a failure with its error.
pub proof fn law_results_are_heeded_or_handed_on(
    state: openai_chat::LoopView,
    result: Result<Seq<char>, Seq<char>>,
)
    requires
        state.pending.len() > 0,
    ensures
        ({
            let (next, step) = after_result(state, result);
            let asks = result matches Ok(output) && state.pending[0].name
                == "conversation_admin_tool"@ && (json::parsed_json(output) matches Ok(value)
                && json::text_member(value, "action"@) == Some("reset_conversation"@));
            let answer = match result {
                Ok(output) => output,
                Err(error) => openai_chat::failed_call(state.pending[0].name, error),
            };
            if asks {
                next == state && step == openai_chat::StepView::Finish(
                    AiConversationOutcome::ResetConversation(result->Ok_0, state.response_id),
                )
            } else {
                &&& next.history == state.history.push(
                    InputItem::FunctionCallOutput(
                        types::FunctionCallOutputItem {
                            kind: "function_call_output"@,
                            call_id: state.pending[0].call_id,
                            output: answer,
                        },
                    ),
                )
                &&& next.pending == state.pending.skip(1)
                &&& next.response_id == state.response_id
                &&& state.pending.len() > 1 ==> step == openai_chat::StepView::CallTool(
                    state.pending[1],
                )
                &&& state.pending.len() == 1 ==> step == openai_chat::StepView::AskModel {
                    previous_response_id: state.response_id,
                    with_instructions: state.first_iteration,
                }
            }
        }),
{
    assert(state.pending.drop_first() =~= state.pending.skip(1));
}

/// A request of the loop follows on the response it is given, offers all tools, is stored, and
/// repeats the instructions just where it is told to.
pub proof fn law_requests_follow_on(
    config: OpenAiCallConfig,
    previous_response_id: Seq<char>,
    with_instructions: bool,
)
    ensures
        ({
            let args = loop_request_args(config, previous_response_id, with_instructions);
            &&& args.model_id == "gpt-4.1"@
            &&& args.previous_response_id == Some(previous_response_id)
            &&& args.tools == Some(types::tool_views(config.available_tools@))
            &&& with_instructions ==> args.instructions == Some(config.instructions@)
            &&& !with_instructions ==> args.instructions is None
            &&& args.store == Some(true)
            &&& args.tool_choice is None && args.temperature is None && args.verbosity is None
                && args.reasoning_effort is None
        }),
{
}

} // verus!
