//! The turns of a conversation: which tools are offered, what an answer of the model says, and the
//! loop that calls tools and hands their output back until the model answers with a text.

use super::tools;
use super::AiConversationOutcome;
use crate::json;
use crate::json::{get_text, parse};
use crate::openai_api::types;
use crate::openai_api::types::{
    input_call_output, input_message, ApiToolType, InputItem, OutputFunctionCall, OutputItem,
    WebSearchToolConfig,
};
use crate::text;
use crate::text::{replace, same_text};
use vstd::prelude::*;

verus! {

pub const DEFAULT_OPENAI_MODEL_ID: &'static str = "gpt-5.2";

/// What every conversation offers and says: the tools there are, and the instructions.
pub struct OpenAiCallConfig {
    pub available_tools: Vec<ApiToolType>,
    pub instructions: String,
}

/// The instructions to the model.
pub const INSTRUCTIONS: &'static str =
    "you are a helpful ai assistant named lexi.\nyour main mode of communication is through telegram, responses will automatically be sent to the telegram chat.\nformat your responses using markdown (bold, italic, code blocks, lists) for better readability.\nyou are part of the team running the ultra sound relay, and in this context may be asked to lend a hand.\nwhenever functioning as the ultra sound relay assistant, the manual `relay_context` is available to provide more context.\n";

/// The tools there are, in the order in which they are offered.
pub open spec fn available_tools_view() -> Seq<types::ApiToolView> {
    seq![
        types::ApiToolView::Function(tools::admin_session_end::tool_view()),
        types::ApiToolView::Function(tools::beacon_slot_check::tool_view()),
        types::ApiToolView::Function(tools::db_schema::tool_view()),
        types::ApiToolView::Function(tools::db_query::mevdb_tool_view()),
        types::ApiToolView::Function(tools::db_query::globaldb_tool_view()),
        types::ApiToolView::Function(tools::retrieve_manual::tool_view()),
        types::ApiToolView::Function(tools::relay_circuit_breaker::tool_view()),
        types::ApiToolView::Function(tools::conversation_admin::tool_view()),
        types::ApiToolView::Function(tools::scheduled_jobs::tool_view()),
        types::ApiToolView::WebSearch("web_search_preview"@),
    ]
}

/// What every conversation offers and says.
pub fn openai_call_config() -> (r: OpenAiCallConfig)
    ensures
        types::tool_views(r.available_tools@) == available_tools_view(),
        r.instructions@ == INSTRUCTIONS@,
{
    let mut available_tools: Vec<ApiToolType> = Vec::new();
    available_tools.push(
        ApiToolType::Function(tools::admin_session_end::admin_session_end_tool()),
    );
    available_tools.push(
        ApiToolType::Function(tools::beacon_slot_check::beacon_slot_check_tool()),
    );
    available_tools.push(ApiToolType::Function(tools::db_schema::database_schema_tool()));
    available_tools.push(ApiToolType::Function(tools::db_query::mevdb_query_tool()));
    available_tools.push(ApiToolType::Function(tools::db_query::globaldb_query_tool()));
    available_tools.push(ApiToolType::Function(tools::retrieve_manual::retrieve_manual_tool()));
    available_tools.push(
        ApiToolType::Function(tools::relay_circuit_breaker::relay_circuit_breaker_tool()),
    );
    available_tools.push(
        ApiToolType::Function(tools::conversation_admin::conversation_admin_tool()),
    );
    available_tools.push(ApiToolType::Function(tools::scheduled_jobs::scheduled_jobs_tool()));
    available_tools.push(ApiToolType::WebSearch(WebSearchToolConfig::new()));
    proof {
        assert(types::tool_views(available_tools@) =~= available_tools_view());
    }
    OpenAiCallConfig { available_tools, instructions: INSTRUCTIONS.to_owned() }
}

// ---------------------------------------------------------------------------------------------
// What an answer says

/// The calls of tools among the items of an answer, in order.
pub open spec fn calls_in(items: Seq<OutputItem>) -> Seq<OutputFunctionCall>
    decreases items.len(),
{
    if items.len() == 0 {
        seq![]
    } else {
        match items.last() {
            OutputItem::FunctionCall(call) => calls_in(items.drop_last()).push(call),
            _ => calls_in(items.drop_last()),
        }
    }
}

/// The texts of the assistant's messages among the items of an answer, a line break between
/// neighbours; nothing where there is none.
pub open spec fn text_in(items: Seq<OutputItem>) -> Option<Seq<char>>
    decreases items.len(),
{
    if items.len() == 0 {
        None
    } else {
        let before = text_in(items.drop_last());
        match items.last() {
            OutputItem::Message(message) => match types::assistant_text(message) {
                Some(added) => Some(
                    match before {
                        Some(said) => said + "\n"@ + added,
                        None => added,
                    },
                ),
                None => before,
            },
            _ => before,
        }
    }
}

/// Reads the items of an answer: the tools to call, and the assistant's text.
pub fn parse_api_response_output(output_items: Vec<OutputItem>) -> (r: (
    Vec<OutputFunctionCall>,
    Option<String>,
))
    ensures
        r.0@ == calls_in(output_items@),
        text::text_view(r.1) == text_in(output_items@),
{
    let mut calls: Vec<OutputFunctionCall> = Vec::new();
    let mut said: Option<String> = None;
    let mut i: usize = 0;
    while i < output_items.len()
        invariant
            i <= output_items@.len(),
            calls@ == calls_in(output_items@.take(i as int)),
            text::text_view(said) == text_in(output_items@.take(i as int)),
        decreases output_items@.len() - i,
    {
        proof {
            let next = output_items@.take(i + 1);
            assert(next.drop_last() =~= output_items@.take(i as int));
            assert(next.last() == output_items@[i as int]);
        }
        match &output_items[i] {
            OutputItem::FunctionCall(call) => calls.push(call.clone()),
            OutputItem::Message(message) => {
                if let Some(added) = message.assistant_text() {
                    said = match said {
                        Some(before) => {
                            let mut joined = before;
                            joined.append("\n");
                            joined.append(added.as_str());
                            Some(joined)
                        },
                        None => Some(added.clone()),
                    };
                }
            },
            OutputItem::Reasoning(_) => {},
            OutputItem::WebSearchCall(_) => {},
        }
        i += 1;
    }
    proof {
        assert(output_items@.take(i as int) =~= output_items@);
    }
    (calls, said)
}

// ---------------------------------------------------------------------------------------------
// Which tools are offered

/// Whether a model can search the web.
pub open spec fn can_search(model: Seq<char>) -> bool {
    model == "gpt-5.2"@ || model == "gpt-5-mini"@
}

/// Whether a tool is offered in a turn.
pub open spec fn is_offered(tool: types::ApiToolView, admin: bool, model: Seq<char>) -> bool {
    (admin || !tools::is_admin_only(tool)) && (can_search(model) || !(tool is WebSearch))
}

/// The tools that are offered in a turn, in their order.
pub open spec fn turn_tools(
    base: Seq<types::ApiToolView>,
    admin: bool,
    model: Seq<char>,
) -> Seq<types::ApiToolView>
    decreases base.len(),
{
    if base.len() == 0 {
        seq![]
    } else if is_offered(base.last(), admin, model) {
        turn_tools(base.drop_last(), admin, model).push(base.last())
    } else {
        turn_tools(base.drop_last(), admin, model)
    }
}

/// Determines the tools of a turn: those only for admins are left out unless an admin session is
/// active, and the web search is left out for a model that cannot search.
pub fn determine_turn_tools(
    base_available_tools: &Vec<ApiToolType>,
    admin_session_active: bool,
    current_model_id: &str,
) -> (r: Vec<ApiToolType>)
    ensures
        types::tool_views(r@) == turn_tools(
            types::tool_views(base_available_tools@),
            admin_session_active,
            current_model_id@,
        ),
{
    let searches = same_text(current_model_id, DEFAULT_OPENAI_MODEL_ID) || same_text(
        current_model_id,
        "gpt-5-mini",
    );
    let ghost base = types::tool_views(base_available_tools@);
    let mut out: Vec<ApiToolType> = Vec::new();
    let mut i: usize = 0;
    proof {
        assert(types::tool_views(out@) =~= Seq::empty());
    }
    while i < base_available_tools.len()
        invariant
            i <= base_available_tools@.len(),
            base == types::tool_views(base_available_tools@),
            searches == can_search(current_model_id@),
            types::tool_views(out@) == turn_tools(
                base.take(i as int),
                admin_session_active,
                current_model_id@,
            ),
        decreases base_available_tools@.len() - i,
    {
        let tool = &base_available_tools[i];
        let ghost before = types::tool_views(out@);
        proof {
            assert(base.take(i + 1).drop_last() =~= base.take(i as int));
            assert(base.take(i + 1).last() == tool@);
        }
        let is_search = match tool {
            ApiToolType::WebSearch(_) => true,
            _ => false,
        };
        if (admin_session_active || !tools::is_admin_only_tool(tool)) && (searches || !is_search) {
            let copy = tool.clone();
            out.push(copy);
            proof {
                assert(types::tool_views(out@) =~= before.push(tool@));
            }
        }
        i += 1;
    }
    proof {
        assert(base.take(i as int) =~= base);
    }
    out
}

/// Outside an admin session no tool that is only for admins is offered.
pub proof fn law_admin_tools_need_a_session(base: Seq<types::ApiToolView>, model: Seq<char>)
    ensures
        forall|i: int|
            0 <= i < turn_tools(base, false, model).len() ==> !tools::is_admin_only(
                #[trigger] turn_tools(base, false, model)[i],
            ),
    decreases base.len(),
{
    if base.len() > 0 {
        let before = turn_tools(base.drop_last(), false, model);
        let all = turn_tools(base, false, model);
        law_admin_tools_need_a_session(base.drop_last(), model);
        assert forall|i: int| 0 <= i < all.len() implies !tools::is_admin_only(#[trigger] all[i]) by {
            if i < before.len() {
                assert(all[i] == before[i]);
            }
        }
    }
}

/// In an admin session, a model that can search the web is offered every tool.
pub proof fn law_admin_sessions_offer_everything(base: Seq<types::ApiToolView>, model: Seq<char>)
    requires
        can_search(model),
    ensures
        turn_tools(base, true, model) == base,
    decreases base.len(),
{
    if base.len() > 0 {
        law_admin_sessions_offer_everything(base.drop_last(), model);
        assert(base =~= base.drop_last().push(base.last()));
    } else {
        assert(turn_tools(base, true, model) =~= base);
    }
}

/// A tool is offered if and only if it is there and nothing speaks against it.
pub proof fn law_a_tool_is_offered_unless_ruled_out(
    base: Seq<types::ApiToolView>,
    admin: bool,
    model: Seq<char>,
    tool: types::ApiToolView,
)
    ensures
        turn_tools(base, admin, model).contains(tool) <==> base.contains(tool) && is_offered(
            tool,
            admin,
            model,
        ),
    decreases base.len(),
{
    if base.len() > 0 {
        let before = base.drop_last();
        law_a_tool_is_offered_unless_ruled_out(before, admin, model, tool);
        let rest = turn_tools(before, admin, model);
        let all = turn_tools(base, admin, model);
        assert(base =~= before.push(base.last()));
        if base.contains(tool) {
            let k = choose|k: int| 0 <= k < base.len() && base[k] == tool;
            if k < before.len() {
                assert(before[k] == tool);
            }
        }
        if before.contains(tool) {
            let k = choose|k: int| 0 <= k < before.len() && before[k] == tool;
            assert(base[k] == tool);
        }
        if is_offered(base.last(), admin, model) {
            assert(all[all.len() - 1] == base.last());
            if rest.contains(tool) {
                let k = choose|k: int| 0 <= k < rest.len() && rest[k] == tool;
                assert(all[k] == tool);
            }
            if all.contains(tool) {
                let k = choose|k: int| 0 <= k < all.len() && all[k] == tool;
                if k < rest.len() {
                    assert(rest[k] == tool);
                } else {
                    assert(base[base.len() - 1] == tool);
                }
            }
        }
        if tool == base.last() {
            assert(base[base.len() - 1] == tool);
        }
    }
}

// ---------------------------------------------------------------------------------------------
// Calling tools

/// The tools that the bot can run.
#[derive(Debug, Clone, Copy, PartialEq, Eq, Structural)]
pub enum Tool {
    BeaconSlotCheck,
    DatabaseSchema,
    MevdbQuery,
    GlobaldbQuery,
    AdminSessionEnd,
    ConversationAdmin,
    RetrieveManual,
    RelayCircuitBreaker,
    ScheduledJobs,
}

/// The tool of a name.
pub open spec fn tool_named(name: Seq<char>) -> Option<Tool> {
    if name == "check_beacon_slot_missed"@ {
        Some(Tool::BeaconSlotCheck)
    } else if name == "get_database_schema"@ {
        Some(Tool::DatabaseSchema)
    } else if name == "execute_mevdb_query"@ {
        Some(Tool::MevdbQuery)
    } else if name == "execute_globaldb_query"@ {
        Some(Tool::GlobaldbQuery)
    } else if name == "end_admin_session"@ {
        Some(Tool::AdminSessionEnd)
    } else if name == "conversation_admin_tool"@ {
        Some(Tool::ConversationAdmin)
    } else if name == "retrieve_manual"@ {
        Some(Tool::RetrieveManual)
    } else if name == "relay_circuit_breaker"@ {
        Some(Tool::RelayCircuitBreaker)
    } else if name == "scheduled_jobs"@ {
        Some(Tool::ScheduledJobs)
    } else {
        None
    }
}

/// The output for a call of a tool that there is not.
pub open spec fn unexpected_tool(name: Seq<char>) -> Seq<char> {
    "{\"error\": \"unexpected_tool_name\", \"tool_name\": \""@ + name + "\"}"@
}

/// The tool that a call is for, or the output for a call of a tool that there is not.
pub fn execute_tool_call(call: &OutputFunctionCall) -> (r: Result<Tool, String>)
    ensures
        match tool_named(call.name@) {
            Some(tool) => r == Ok::<Tool, String>(tool),
            None => r matches Err(output) && output@ == unexpected_tool(call.name@),
        },
{
    let name = call.name.as_str();
    if same_text(name, tools::beacon_slot_check::BEACON_SLOT_CHECK_TOOL_NAME) {
        Ok(Tool::BeaconSlotCheck)
    } else if same_text(name, tools::db_schema::DATABASE_SCHEMA_TOOL_NAME) {
        Ok(Tool::DatabaseSchema)
    } else if same_text(name, tools::db_query::MEVDB_TOOL_NAME) {
        Ok(Tool::MevdbQuery)
    } else if same_text(name, tools::db_query::GLOBALDB_TOOL_NAME) {
        Ok(Tool::GlobaldbQuery)
    } else if same_text(name, tools::admin_session_end::ADMIN_SESSION_END_TOOL_NAME) {
        Ok(Tool::AdminSessionEnd)
    } else if same_text(name, tools::conversation_admin::CONVERSATION_ADMIN_TOOL_NAME) {
        Ok(Tool::ConversationAdmin)
    } else if same_text(name, tools::retrieve_manual::RETRIEVE_MANUAL_TOOL_NAME) {
        Ok(Tool::RetrieveManual)
    } else if same_text(name, tools::relay_circuit_breaker::RELAY_CIRCUIT_BREAKER_TOOL_NAME) {
        Ok(Tool::RelayCircuitBreaker)
    } else if same_text(name, tools::scheduled_jobs::SCHEDULED_JOBS_TOOL_NAME) {
        Ok(Tool::ScheduledJobs)
    } else {
        let mut out = "{\"error\": \"unexpected_tool_name\", \"tool_name\": \"".to_owned();
        out.append(name);
        out.append("\"}");
        Err(out)
    }
}

/// The output for a call that failed: the tool's name, and the error with its quotes escaped.
pub open spec fn failed_call(name: Seq<char>, error: Seq<char>) -> Seq<char> {
    "{\"error\": \"tool_execution_failed\", \"tool_name\": \""@ + name + "\", \"details\": \""@
        + text::replace_all(error, "\""@, "\\\""@) + "\"}"@
}

/// Writes the output for a call that failed.
pub fn failed_call_output(name: &str, error: &str) -> (r: String)
    ensures
        r@ == failed_call(name@, error@),
{
    proof {
        reveal_strlit("\"");
    }
    let escaped = replace(error, "\"", "\\\"");
    let mut out = "{\"error\": \"tool_execution_failed\", \"tool_name\": \"".to_owned();
    out.append(name);
    out.append("\", \"details\": \"");
    out.append(escaped.as_str());
    out.append("\"}");
    out
}

// ---------------------------------------------------------------------------------------------
// What a tool asks of the conversation

/// What the output of a tool for admins asks of the conversation, if it asks for anything: `said`
/// is the output, and `response_id` the response that called the tool.
pub open spec fn asked_outcome(
    output: json::Json,
    said: Seq<char>,
    response_id: Seq<char>,
) -> Option<super::OutcomeView> {
    let action = json::text_member(output, "action"@);
    if action == Some("reset_conversation"@) {
        Some(AiConversationOutcome::ResetConversation(said, response_id))
    } else if action == Some("model_updated"@) {
        match json::text_member(output, "new_model_id"@) {
            Some(model) => Some(AiConversationOutcome::ChangeModel(said, response_id, model)),
            None => None,
        }
    } else if action == Some("verbosity_updated"@) {
        match json::text_member(output, "new_verbosity"@) {
            Some(v) => Some(AiConversationOutcome::ChangeVerbosity(said, response_id, v)),
            None => None,
        }
    } else if action == Some("reasoning_effort_updated"@) {
        match json::text_member(output, "new_reasoning_effort"@) {
            Some(e) => Some(AiConversationOutcome::ChangeReasoningEffort(said, response_id, e)),
            None => None,
        }
    } else if action == Some("end_admin_session"@) {
        Some(AiConversationOutcome::EndAdminSession(said, response_id))
    } else {
        None
    }
}

/// The optional outcome behind its strings.
pub open spec fn outcome_view(outcome: Option<AiConversationOutcome>) -> Option<
    super::OutcomeView,
> {
    match outcome {
        Some(o) => Some(o@),
        None => None,
    }
}

/// Reads what the output of a tool for admins asks of the conversation.
pub fn read_asked_outcome(output: &serde_json::Value, said: &str, response_id: &str) -> (r: Option<
    AiConversationOutcome,
>)
    ensures
        outcome_view(r) == asked_outcome(json::json_of(*output), said@, response_id@),
{
    let action = match get_text(output, "action") {
        Some(a) => a,
        None => {
            return None;
        },
    };
    if same_text(action, "reset_conversation") {
        Some(AiConversationOutcome::ResetConversation(said.to_owned(), response_id.to_owned()))
    } else if same_text(action, "model_updated") {
        match get_text(output, "new_model_id") {
            Some(model) => Some(
                AiConversationOutcome::ChangeModel(
                    said.to_owned(),
                    response_id.to_owned(),
                    model.to_owned(),
                ),
            ),
            None => None,
        }
    } else if same_text(action, "verbosity_updated") {
        match get_text(output, "new_verbosity") {
            Some(v) => Some(
                AiConversationOutcome::ChangeVerbosity(
                    said.to_owned(),
                    response_id.to_owned(),
                    v.to_owned(),
                ),
            ),
            None => None,
        }
    } else if same_text(action, "reasoning_effort_updated") {
        match get_text(output, "new_reasoning_effort") {
            Some(e) => Some(
                AiConversationOutcome::ChangeReasoningEffort(
                    said.to_owned(),
                    response_id.to_owned(),
                    e.to_owned(),
                ),
            ),
            None => None,
        }
    } else if same_text(action, "end_admin_session") {
        Some(AiConversationOutcome::EndAdminSession(said.to_owned(), response_id.to_owned()))
    } else {
        None
    }
}

/// Whether the output of a tool of this name is looked at for what it asks.
pub open spec fn may_ask(name: Seq<char>) -> bool {
    name == "conversation_admin_tool"@ || name == "end_admin_session"@
}

/// What the output of a call asks of the conversation.
pub open spec fn call_outcome(
    name: Seq<char>,
    output: Seq<char>,
    response_id: Seq<char>,
) -> Option<super::OutcomeView> {
    if may_ask(name) {
        match json::parsed_json(output) {
            Ok(value) => asked_outcome(value, output, response_id),
            Err(_) => None,
        }
    } else {
        None
    }
}

fn asked_by_call(name: &str, output: &str, response_id: &str) -> (r: Option<AiConversationOutcome>)
    ensures
        outcome_view(r) == call_outcome(name@, output@, response_id@),
{
    if same_text(name, tools::conversation_admin::CONVERSATION_ADMIN_TOOL_NAME) || same_text(
        name,
        tools::admin_session_end::ADMIN_SESSION_END_TOOL_NAME,
    ) {
        match parse(output) {
            Ok(value) => read_asked_outcome(&value, output, response_id),
            Err(_) => None,
        }
    } else {
        None
    }
}

// ---------------------------------------------------------------------------------------------
// The loop

/// Where the loop stands: what has been said, the response that is being worked on, the calls of
/// it that have not been answered yet, and whether the next request is the first of the loop.
pub struct ResponseLoop {
    history: Vec<InputItem>,
    response_id: String,
    pending: Vec<OutputFunctionCall>,
    first_iteration: bool,
}

/// The view of a [`ResponseLoop`].
#[verifier::ext_equal]
pub struct LoopView {
    pub history: Seq<types::ItemView>,
    pub response_id: Seq<char>,
    pub pending: Seq<types::CallView>,
    pub first_iteration: bool,
}

/// What the loop does next: call a tool, ask the model with what has been said (and with the
/// instructions, the first time), or end.
pub enum LoopStep {
    CallTool(OutputFunctionCall),
    AskModel { previous_response_id: String, with_instructions: bool },
    Finish(AiConversationOutcome),
}

/// What a [`LoopStep`] says.
pub enum StepView {
    CallTool(types::CallView),
    AskModel { previous_response_id: Seq<char>, with_instructions: bool },
    Finish(super::OutcomeView),
}

/// What calls say.
pub open spec fn call_views(calls: Seq<OutputFunctionCall>) -> Seq<types::CallView> {
    calls.map_values(|call: OutputFunctionCall| call@)
}

impl View for ResponseLoop {
    type V = LoopView;

    closed spec fn view(&self) -> LoopView {
        LoopView {
            history: types::item_views(self.history@),
            response_id: self.response_id@,
            pending: call_views(self.pending@),
            first_iteration: self.first_iteration,
        }
    }
}

impl View for LoopStep {
    type V = StepView;

    open spec fn view(&self) -> StepView {
        match self {
            LoopStep::CallTool(call) => StepView::CallTool(call@),
            LoopStep::AskModel { previous_response_id, with_instructions } => StepView::AskModel {
                previous_response_id: previous_response_id@,
                with_instructions: *with_instructions,
            },
            LoopStep::Finish(outcome) => StepView::Finish(outcome@),
        }
    }
}

/// What has been said, once the assistant has spoken or called tools.
pub open spec fn history_with_answer(
    history: Seq<types::ItemView>,
    said: Option<Seq<char>>,
    calls: nat,
) -> Seq<types::ItemView> {
    match said {
        Some(s) => history.push(types::message_item("assistant"@, s)),
        None => if calls > 0 {
            history.push(types::message_item("assistant"@, seq![]))
        } else {
            history
        },
    }
}

/// The loop once an answer of the model came, and what it does next: the first of the calls the
/// answer asks for, or the end with the answer's text, which may be empty.
pub open spec fn after_answer(state: LoopView, id: Seq<char>, output: Seq<OutputItem>) -> (
    LoopView,
    StepView,
) {
    let calls = call_views(calls_in(output));
    let said = text_in(output);
    let next = LoopView {
        history: history_with_answer(state.history, said, calls.len()),
        response_id: id,
        pending: calls,
        first_iteration: state.first_iteration,
    };
    if calls.len() > 0 {
        (next, StepView::CallTool(calls[0]))
    } else {
        (
            next,
            StepView::Finish(
                AiConversationOutcome::TextMessage(
                    match said {
                        Some(s) => s,
                        None => seq![],
                    },
                    id,
                ),
            ),
        )
    }
}

/// The output that a call is answered with.
pub open spec fn call_answer(name: Seq<char>, result: Result<Seq<char>, Seq<char>>) -> Seq<char> {
    match result {
        Ok(output) => output,
        Err(error) => failed_call(name, error),
    }
}

/// The outcome that the result of a call ends the loop with, if it does.
pub open spec fn result_outcome(
    call: types::CallView,
    result: Result<Seq<char>, Seq<char>>,
    response_id: Seq<char>,
) -> Option<super::OutcomeView> {
    match result {
        Ok(output) => call_outcome(call.name, output, response_id),
        Err(_) => None,
    }
}

/// The loop once the first of the calls has been answered, and what it does next: the next call,
/// else the model.
pub open spec fn after_call_answer(state: LoopView, answer: Seq<char>) -> (LoopView, StepView)
    recommends
        state.pending.len() > 0,
{
    let rest = state.pending.drop_first();
    let history = state.history.push(types::call_output_item(state.pending[0].call_id, answer));
    if rest.len() > 0 {
        (LoopView { history, pending: rest, ..state }, StepView::CallTool(rest[0]))
    } else {
        (
            LoopView { history, pending: rest, first_iteration: false, ..state },
            StepView::AskModel {
                previous_response_id: state.response_id,
                with_instructions: state.first_iteration,
            },
        )
    }
}

/// The loop once the first of the calls has given its result, and what it does next: the end where
/// the output asks for it, else it goes on with the call answered.
pub open spec fn after_call(state: LoopView, result: Result<Seq<char>, Seq<char>>) -> (
    LoopView,
    StepView,
)
    recommends
        state.pending.len() > 0,
{
    let call = state.pending[0];
    match result_outcome(call, result, state.response_id) {
        Some(outcome) => (state, StepView::Finish(outcome)),
        None => after_call_answer(state, call_answer(call.name, result)),
    }
}

impl ResponseLoop {
    /// The loop at its start, with what has been said so far.
    pub fn new(history: Vec<InputItem>) -> (r: Self)
        ensures
            r@ == (LoopView {
                history: types::item_views(history@),
                response_id: seq![],
                pending: seq![],
                first_iteration: true,
            }),
    {
        let r = ResponseLoop {
            history,
            response_id: String::new(),
            pending: Vec::new(),
            first_iteration: true,
        };
        proof {
            assert(r@.pending =~= Seq::<types::CallView>::empty());
            assert(r@.response_id =~= Seq::<char>::empty());
        }
        r
    }

    /// What has been said.
    pub fn history(&self) -> (r: &Vec<InputItem>)
        ensures
            types::item_views(r@) == self@.history,
    {
        &self.history
    }

    fn say(&mut self, item: InputItem)
        ensures
            final(self)@ == (LoopView {
                history: old(self)@.history.push(item@),
                ..old(self)@
            }),
    {
        let ghost before = self@.history;
        self.history.push(item);
        proof {
            assert(self@.history =~= before.push(item@));
        }
    }

    /// Takes an answer of the model.
    pub fn process_openai_response_loop(&mut self, id: String, output: Vec<OutputItem>) -> (r:
        LoopStep)
        ensures
            (final(self)@, r@) == after_answer(old(self)@, id@, output@),
    {
        let ghost start = self@;
        let (calls, said) = parse_api_response_output(output);
        match &said {
            Some(s) => self.say(input_message("assistant", s.as_str())),
            None => {
                if calls.len() > 0 {
                    proof {
                        reveal_strlit("");
                        assert(""@ =~= Seq::<char>::empty());
                    }
                    self.say(input_message("assistant", ""));
                }
            },
        }
        self.response_id = id.clone();
        let step = if calls.len() > 0 {
            LoopStep::CallTool(calls[0].clone())
        } else {
            match said {
                Some(s) => LoopStep::Finish(AiConversationOutcome::TextMessage(s, id)),
                None => {
                    let empty = String::new();
                    proof {
                        assert(empty@ =~= Seq::<char>::empty());
                    }
                    LoopStep::Finish(AiConversationOutcome::TextMessage(empty, id))
                },
            }
        };
        self.pending = calls;
        step
    }

    /// The call that was asked for.
    pub fn pending_call(&self) -> (r: &OutputFunctionCall)
        requires
            self@.pending.len() > 0,
        ensures
            r@ == self@.pending[0],
    {
        &self.pending[0]
    }

    /// The response that is being worked on.
    pub fn response_id(&self) -> (r: &String)
        ensures
            r@ == self@.response_id,
    {
        &self.response_id
    }

    /// Takes the answer to the call that was asked for.
    pub fn answer_call(&mut self, answer: &str) -> (r: LoopStep)
        requires
            old(self)@.pending.len() > 0,
        ensures
            (final(self)@, r@) == after_call_answer(old(self)@, answer@),
    {
        let ghost start = self@;
        proof {
            assert(self.pending@[0]@ == start.pending[0]);
        }
        let item = input_call_output(self.pending[0].call_id.as_str(), answer);
        self.say(item);
        self.pending.remove(0);
        proof {
            assert(call_views(self.pending@) =~= start.pending.drop_first());
        }
        if self.pending.len() > 0 {
            LoopStep::CallTool(self.pending[0].clone())
        } else {
            let with_instructions = self.first_iteration;
            self.first_iteration = false;
            LoopStep::AskModel {
                previous_response_id: self.response_id.clone(),
                with_instructions,
            }
        }
    }

    /// Takes the result of the call that was asked for.
    pub fn take_tool_result(&mut self, result: Result<String, String>) -> (r: LoopStep)
        requires
            old(self)@.pending.len() > 0,
        ensures
            (final(self)@, r@) == after_call(
                old(self)@,
                match result {
                    Ok(output) => Ok(output@),
                    Err(error) => Err(error@),
                },
            ),
    {
        let answer = match result {
            Ok(output) => {
                if let Some(outcome) = asked_by_call(
                    self.pending_call().name.as_str(),
                    output.as_str(),
                    self.response_id.as_str(),
                ) {
                    return LoopStep::Finish(outcome);
                }
                output
            },
            Err(error) => failed_call_output(self.pending_call().name.as_str(), error.as_str()),
        };
        self.answer_call(answer.as_str())
    }
}

// ---------------------------------------------------------------------------------------------
// Laws of the loop

/// The loop after a run of results of calls.
pub open spec fn after_calls(state: LoopView, results: Seq<Result<Seq<char>, Seq<char>>>) -> (
    LoopView,
    StepView,
)
    decreases results.len(),
{
    if results.len() == 0 {
        (state, StepView::CallTool(state.pending[0]))
    } else {
        after_call(after_calls(state, results.drop_last()).0, results.last())
    }
}

/// Every call of an answer is answered once, in order, under its own id: once all calls have been
/// answered and none of them ended the loop, what has been said has grown by exactly their
/// outputs, and the model is asked with reference to the response that made the calls.
pub proof fn law_every_call_is_answered_once(
    state: LoopView,
    results: Seq<Result<Seq<char>, Seq<char>>>,
)
    requires
        0 < results.len() <= state.pending.len(),
        forall|i: int|
            0 <= i < results.len() ==> result_outcome(
                #[trigger] state.pending[i],
                results[i],
                state.response_id,
            ) is None,
    ensures
        ({
            let after = after_calls(state, results).0;
            &&& after.response_id == state.response_id
            &&& after.pending == state.pending.skip(results.len() as int)
            &&& after.history == state.history + Seq::new(
                results.len(),
                |i: int|
                    types::call_output_item(
                        state.pending[i].call_id,
                        call_answer(state.pending[i].name, results[i]),
                    ),
            )
            &&& results.len() < state.pending.len() ==> after.first_iteration
                == state.first_iteration && after_calls(state, results).1 == StepView::CallTool(
                state.pending[results.len() as int],
            )
            &&& results.len() == state.pending.len() ==> after_calls(state, results).1
                == StepView::AskModel {
                previous_response_id: state.response_id,
                with_instructions: state.first_iteration,
            }
        }),
    decreases results.len(),
{
    let before = results.drop_last();
    let n = results.len() as int;
    let answers = Seq::new(
        results.len(),
        |i: int|
            types::call_output_item(
                state.pending[i].call_id,
                call_answer(state.pending[i].name, results[i]),
            ),
    );
    if before.len() == 0 {
        assert(state.pending.skip(1) =~= state.pending.drop_first());
        assert(state.history + answers =~= state.history.push(answers[0]));
        reveal_with_fuel(after_calls, 2);
    } else {
        assert forall|i: int| 0 <= i < before.len() implies result_outcome(
            #[trigger] state.pending[i],
            before[i],
            state.response_id,
        ) is None by {
            assert(before[i] == results[i]);
        }
        law_every_call_is_answered_once(state, before);
        let middle = after_calls(state, before).0;
        assert(middle.pending[0] == state.pending[n - 1]);
        assert(middle.pending.drop_first() =~= state.pending.skip(n));
        assert(middle.history.push(answers[n - 1]) =~= state.history + answers);
    }
}

/// What has been said is never changed or dropped, only added to.
pub proof fn law_history_only_grows(
    state: LoopView,
    id: Seq<char>,
    output: Seq<OutputItem>,
    result: Result<Seq<char>, Seq<char>>,
)
    ensures
        state.history.is_prefix_of(after_answer(state, id, output).0.history),
        state.history.is_prefix_of(after_call(state, result).0.history),
{
}

proof fn lemma_action_names()
    ensures
        "action"@ != "status"@,
        "action"@ != "message"@,
        "action"@ != "new_model_id"@,
        "new_model_id"@ != "status"@,
        "new_model_id"@ != "message"@,
        "end_admin_session"@ != "reset_conversation"@,
        "end_admin_session"@ != "model_updated"@,
        "end_admin_session"@ != "verbosity_updated"@,
        "end_admin_session"@ != "reasoning_effort_updated"@,
        "model_updated"@ != "reset_conversation"@,
        "action"@ != json::raw_text_name(),
        "status"@ != json::raw_text_name(),
        "message"@ != json::raw_text_name(),
        "details"@ != json::raw_text_name(),
        "new_model_id"@ != json::raw_text_name(),
{
    reveal_strlit("$serde_json::private::RawValue");
    reveal_strlit("details");
    reveal_strlit("action");
    reveal_strlit("status");
    reveal_strlit("message");
    reveal_strlit("new_model_id");
    reveal_strlit("end_admin_session");
    reveal_strlit("reset_conversation");
    reveal_strlit("model_updated");
    reveal_strlit("verbosity_updated");
    reveal_strlit("reasoning_effort_updated");
    assert(json::raw_text_name()[0] == '$');
    assert("details"@[0] == 'd');
    assert("action"@[0] == 'a');
    assert("status"@[0] == 's');
    assert("message"@[0] == 'm');
    assert("new_model_id"@[0] == 'n');
    assert("end_admin_session"@[0] == 'e');
    assert("reset_conversation"@[0] == 'r');
    assert("model_updated"@[0] == 'm');
    assert("verbosity_updated"@[0] == 'v');
    assert("reasoning_effort_updated"@[0] == 'r');
}

/// When the tool that ends an admin session replies, the loop ends in the end of the session.
pub proof fn law_session_end_is_heeded(state: LoopView, reply: Seq<char>)
    requires
        state.pending.len() > 0,
        state.pending[0].name == "end_admin_session"@,
        json::writes(reply, tools::admin_session_end::session_end_json()),
    ensures
        after_call(state, Ok(reply)).1 == StepView::Finish(
            AiConversationOutcome::EndAdminSession(reply, state.response_id),
        ),
{
    lemma_action_names();
    lemma_session_end_is_flat();
}

proof fn lemma_session_end_is_flat()
    ensures
        tools::admin_session_end::session_end_json() matches json::Json::Object(members)
            && json::is_flat(members),
{
}

/// When the tool for administrative actions replies to the command that resets the conversation,
/// given with the right code, the loop ends in the reset.
pub proof fn law_reset_is_heeded(
    state: LoopView,
    code: Seq<char>,
    model: Option<Seq<char>>,
    reply: Seq<char>,
)
    requires
        state.pending.len() > 0,
        state.pending[0].name == "conversation_admin_tool"@,
        json::writes(
            reply,
            tools::conversation_admin::admin_command_json(
                Some("reset_conversation"@),
                Some(code),
                model,
                code,
            ),
        ),
    ensures
        after_call(state, Ok(reply)).1 == StepView::Finish(
            AiConversationOutcome::ResetConversation(reply, state.response_id),
        ),
{
    lemma_action_names();
    assert(tools::conversation_admin::reset_json() matches json::Json::Object(members)
        && json::is_flat(members));
}

/// When the tool for administrative actions replies to the command that sets an allowed model,
/// given with the right code, the loop ends in the change to that model.
pub proof fn law_model_change_is_heeded(
    state: LoopView,
    code: Seq<char>,
    model: Seq<char>,
    reply: Seq<char>,
)
    requires
        state.pending.len() > 0,
        state.pending[0].name == "conversation_admin_tool"@,
        tools::conversation_admin::is_allowed_model(model),
        json::writes(
            reply,
            tools::conversation_admin::admin_command_json(
                Some("set_openai_model"@),
                Some(code),
                Some(model),
                code,
            ),
        ),
    ensures
        after_call(state, Ok(reply)).1 == StepView::Finish(
            AiConversationOutcome::ChangeModel(reply, state.response_id, model),
        ),
{
    lemma_action_names();
    reveal_strlit("set_openai_model");
    reveal_strlit("reset_conversation");
    assert("set_openai_model"@[0] == 's');
    assert(tools::conversation_admin::model_set_json(model) matches json::Json::Object(members)
        && json::is_flat(members));
}

/// Without the right code the tool for administrative actions never ends the loop.
pub proof fn law_wrong_code_is_not_heeded(
    state: LoopView,
    command: Option<Seq<char>>,
    code: Option<Seq<char>>,
    model: Option<Seq<char>>,
    expected: Seq<char>,
    reply: Seq<char>,
)
    requires
        state.pending.len() > 0,
        state.pending[0].name == "conversation_admin_tool"@,
        code != Some(expected),
        json::writes(
            reply,
            tools::conversation_admin::admin_command_json(command, code, model, expected),
        ),
    ensures
        !(after_call(state, Ok(reply)).1 is Finish),
{
    lemma_action_names();
    tools::conversation_admin::law_commands_need_the_code(command, code, model, expected);
    assert(tools::conversation_admin::admin_command_json(
        command,
        code,
        model,
        expected,
    ) matches json::Json::Object(members) && json::is_flat(members));
}

// ---------------------------------------------------------------------------------------------
// Laws of the dispatch

proof fn lemma_tool_names()
    ensures
        "check_beacon_slot_missed"@.len() == 24,
        "get_database_schema"@.len() == 19,
        "get_database_schema"@[0] == 'g',
        "execute_mevdb_query"@.len() == 19,
        "execute_mevdb_query"@[0] == 'e',
        "execute_globaldb_query"@.len() == 22,
        "end_admin_session"@.len() == 17,
        "conversation_admin_tool"@.len() == 23,
        "retrieve_manual"@.len() == 15,
        "relay_circuit_breaker"@.len() == 21,
        "scheduled_jobs"@.len() == 14,
{
    reveal_strlit("check_beacon_slot_missed");
    reveal_strlit("get_database_schema");
    reveal_strlit("execute_mevdb_query");
    reveal_strlit("execute_globaldb_query");
    reveal_strlit("end_admin_session");
    reveal_strlit("conversation_admin_tool");
    reveal_strlit("retrieve_manual");
    reveal_strlit("relay_circuit_breaker");
    reveal_strlit("scheduled_jobs");
}

/// Each tool is reached by its own name, and by no other.
pub proof fn law_each_name_reaches_its_own_tool(name: Seq<char>)
    ensures
        tool_named(name) == Some(Tool::BeaconSlotCheck) <==> name == "check_beacon_slot_missed"@,
        tool_named(name) == Some(Tool::DatabaseSchema) <==> name == "get_database_schema"@,
        tool_named(name) == Some(Tool::MevdbQuery) <==> name == "execute_mevdb_query"@,
        tool_named(name) == Some(Tool::GlobaldbQuery) <==> name == "execute_globaldb_query"@,
        tool_named(name) == Some(Tool::AdminSessionEnd) <==> name == "end_admin_session"@,
        tool_named(name) == Some(Tool::ConversationAdmin) <==> name == "conversation_admin_tool"@,
        tool_named(name) == Some(Tool::RetrieveManual) <==> name == "retrieve_manual"@,
        tool_named(name) == Some(Tool::RelayCircuitBreaker) <==> name == "relay_circuit_breaker"@,
        tool_named(name) == Some(Tool::ScheduledJobs) <==> name == "scheduled_jobs"@,
{
    lemma_tool_names();
}

/// No two names reach the same tool.
pub proof fn law_dispatch_is_injective(a: Seq<char>, b: Seq<char>)
    requires
        tool_named(a) is Some,
        tool_named(a) == tool_named(b),
    ensures
        a == b,
{
    law_each_name_reaches_its_own_tool(a);
    law_each_name_reaches_its_own_tool(b);
}

/// Whether a tool is offered as a function under a name.
pub open spec fn is_function_named(tool: types::ApiToolView, name: Seq<char>) -> bool {
    tool matches types::ApiToolView::Function(f) && f.name == name
}

/// Every tool that is offered under a name is the one that a call of that name is dispatched to;
/// the web search is the only tool that is not called by a name.
pub proof fn law_offered_tools_are_dispatched()
    ensures
        available_tools_view().len() == 10,
        is_function_named(available_tools_view()[0], "end_admin_session"@),
        is_function_named(available_tools_view()[1], "check_beacon_slot_missed"@),
        is_function_named(available_tools_view()[2], "get_database_schema"@),
        is_function_named(available_tools_view()[3], "execute_mevdb_query"@),
        is_function_named(available_tools_view()[4], "execute_globaldb_query"@),
        is_function_named(available_tools_view()[5], "retrieve_manual"@),
        is_function_named(available_tools_view()[6], "relay_circuit_breaker"@),
        is_function_named(available_tools_view()[7], "conversation_admin_tool"@),
        is_function_named(available_tools_view()[8], "scheduled_jobs"@),
        available_tools_view()[9] == types::ApiToolView::WebSearch("web_search_preview"@),
        forall|i: int|
            0 <= i < available_tools_view().len() ==> (
            #[trigger] available_tools_view()[i] matches types::ApiToolView::Function(f)
                ==> tool_named(f.name) is Some),
{
    lemma_tool_names();
}

/// Every tool that a call can be dispatched to is offered under the name that reaches it.
pub proof fn law_dispatched_tools_are_offered(name: Seq<char>)
    requires
        tool_named(name) is Some,
    ensures
        exists|i: int|
            0 <= i < available_tools_view().len() && is_function_named(
                #[trigger] available_tools_view()[i],
                name,
            ),
{
    law_offered_tools_are_dispatched();
    let i: int = if name == "end_admin_session"@ {
        0
    } else if name == "check_beacon_slot_missed"@ {
        1
    } else if name == "get_database_schema"@ {
        2
    } else if name == "execute_mevdb_query"@ {
        3
    } else if name == "execute_globaldb_query"@ {
        4
    } else if name == "retrieve_manual"@ {
        5
    } else if name == "relay_circuit_breaker"@ {
        6
    } else if name == "conversation_admin_tool"@ {
        7
    } else {
        8
    };
    assert(is_function_named(available_tools_view()[i], name));
}

/// Where there is no tool of a name, the output says so and gives the name; where a call failed,
/// the output gives the name of the tool and, unless it holds a quote, the error as it is.
pub proof fn law_failures_name_the_tool(name: Seq<char>, error: Seq<char>)
    ensures
        unexpected_tool(name) == "{\"error\": \"unexpected_tool_name\", \"tool_name\": \""@ + (name
            + "\"}"@),
        !error.contains('"') ==> failed_call(name, error)
            == "{\"error\": \"tool_execution_failed\", \"tool_name\": \""@ + (name
            + "\", \"details\": \""@ + (error + "\"}"@)),
        text::has_suffix(failed_call(name, error), "\"}"@),
{
    assert(unexpected_tool(name) =~= "{\"error\": \"unexpected_tool_name\", \"tool_name\": \""@ + (
    name + "\"}"@));
    let whole = failed_call(name, error);
    assert(whole.subrange(whole.len() - "\"}"@.len(), whole.len() as int) =~= "\"}"@);
    if !error.contains('"') {
        reveal_strlit("\"");
        assert("\""@ =~= seq!['"']);
        if text::contains_text(error, "\""@) {
            let i = choose|i: int| text::occurs_at(error, "\""@, i);
            assert(error.subrange(i, i + 1)[0] == '"');
            assert(error[i] == '"');
        }
        text::law_replacing_what_is_not_there_changes_nothing(error, "\""@, "\\\""@);
        assert(whole =~= "{\"error\": \"tool_execution_failed\", \"tool_name\": \""@ + (name
            + "\", \"details\": \""@ + (error + "\"}"@)));
    }
}

// ---------------------------------------------------------------------------------------------
// Laws of the answers

/// What two runs of items say is said by both together: all the calls of the first and then all
/// those of the second, and their texts with a line break between.
pub proof fn law_answers_add_up(a: Seq<OutputItem>, b: Seq<OutputItem>)
    ensures
        calls_in(a + b) == calls_in(a) + calls_in(b),
        text_in(a + b) == match (text_in(a), text_in(b)) {
            (Some(x), Some(y)) => Some(x + "\n"@ + y),
            (Some(x), None) => Some(x),
            (None, y) => y,
        },
    decreases b.len(),
{
    if b.len() == 0 {
        assert(a + b =~= a);
        assert(calls_in(a) + calls_in(b) =~= calls_in(a));
    } else {
        law_answers_add_up(a, b.drop_last());
        assert((a + b).drop_last() =~= a + b.drop_last());
        assert((a + b).last() == b.last());
        if let OutputItem::FunctionCall(call) = b.last() {
            assert((calls_in(a) + calls_in(b.drop_last())).push(call) =~= calls_in(a) + calls_in(
                b.drop_last(),
            ).push(call));
        }
        if let (Some(x), Some(y)) = (text_in(a), text_in(b.drop_last())) {
            if let OutputItem::Message(message) = b.last() {
                if let Some(added) = types::assistant_text(message) {
                    assert(x + "\n"@ + y + "\n"@ + added =~= x + "\n"@ + (y + "\n"@ + added));
                }
            }
        }
    }
}

/// One item that is a call is that call and says nothing; one that is a message is no call, and
/// says its first piece where it is text of the assistant; any other is and says nothing.
pub proof fn law_each_item_is_read(item: OutputItem)
    ensures
        match item {
            OutputItem::FunctionCall(call) => calls_in(seq![item]) == seq![call] && text_in(
                seq![item],
            ) is None,
            OutputItem::Message(m) => calls_in(seq![item]).len() == 0 && text_in(seq![item]) == if {
                &&& m.role@ == "assistant"@
                &&& m.content@.len() > 0
                &&& m.content@[0].kind@ == "output_text"@
            } {
                Some(m.content@[0].text@)
            } else {
                None
            },
            _ => calls_in(seq![item]).len() == 0 && text_in(seq![item]) is None,
        },
        calls_in(seq![]).len() == 0,
        text_in(seq![]) is None,
{
    reveal_with_fuel(calls_in, 2);
    reveal_with_fuel(text_in, 2);
    assert(seq![item].drop_last() =~= Seq::<OutputItem>::empty());
    if let OutputItem::FunctionCall(call) = item {
        assert(calls_in(seq![item]) =~= seq![call]);
    }
}

/// The tools of a turn are those of the list that nothing speaks against, each once and in their
/// order: outside an admin session the three tools for admins are left out, and so is the web
/// search for every model but two.
pub proof fn law_turn_tools_are_picked_in_order(
    base: Seq<types::ApiToolView>,
    admin: bool,
    model: Seq<char>,
)
    ensures
        turn_tools(base, admin, model) == base.filter(
            |tool: types::ApiToolView|
                match tool {
                    types::ApiToolView::Function(f) => admin || (f.name != "end_admin_session"@
                        && f.name != "conversation_admin_tool"@ && f.name
                        != "relay_circuit_breaker"@),
                    types::ApiToolView::WebSearch(_) => model == "gpt-5.2"@ || model
                        == "gpt-5-mini"@,
                },
        ),
    decreases base.len(),
{
    reveal(Seq::filter);
    if base.len() > 0 {
        law_turn_tools_are_picked_in_order(base.drop_last(), admin, model);
    }
}

/// What an answer calls for is done: its calls wait in order, the first of them is made at once,
/// and where there are none the loop ends in the answer's text and its id. What the assistant said
/// is kept as a message of the assistant, which is empty where there were only calls.
pub proof fn law_answers_are_taken(state: LoopView, id: Seq<char>, output: Seq<OutputItem>)
    ensures
        ({
            let (next, step) = after_answer(state, id, output);
            let calls = calls_in(output);
            let said = match text_in(output) {
                Some(s) => s,
                None => seq![],
            };
            let item = InputItem::Message(
                types::InputMessageObject { role: "assistant"@, content: said },
            );
            &&& next.response_id == id
            &&& next.first_iteration == state.first_iteration
            &&& next.pending.len() == calls.len()
            &&& forall|i: int| 0 <= i < calls.len() ==> #[trigger] next.pending[i] == calls[i]@
            &&& next.history == if text_in(output) is Some || calls.len() > 0 {
                state.history.push(item)
            } else {
                state.history
            }
            &&& calls.len() > 0 ==> step == StepView::CallTool(calls[0]@)
            &&& calls.len() == 0 ==> step == StepView::Finish(
                AiConversationOutcome::TextMessage(said, id),
            )
        }),
{
}

/// The result of a call is handed to the model as it is, under the call's id; a failure is told.
/// The next call follows, or else the model is asked again about the same response, with the
/// instructions just where it is the first time.
pub proof fn law_results_are_handed_on(state: LoopView, result: Result<Seq<char>, Seq<char>>)
    requires
        state.pending.len() > 0,
        result_outcome(state.pending[0], result, state.response_id) is None,
    ensures
        ({
            let (next, step) = after_call(state, result);
            let item = InputItem::FunctionCallOutput(
                types::FunctionCallOutputItem {
                    kind: "function_call_output"@,
                    call_id: state.pending[0].call_id,
                    output: match result {
                        Ok(output) => output,
                        Err(error) => failed_call(state.pending[0].name, error),
                    },
                },
            );
            &&& next.history == state.history.push(item)
            &&& next.response_id == state.response_id
            &&& next.pending == state.pending.skip(1)
            &&& state.pending.len() > 1 ==> step == StepView::CallTool(state.pending[1])
                && next.first_iteration == state.first_iteration
            &&& state.pending.len() == 1 ==> !next.first_iteration && step == StepView::AskModel {
                previous_response_id: state.response_id,
                with_instructions: state.first_iteration,
            }
        }),
{
    assert(state.pending.drop_first() =~= state.pending.skip(1));
}

// ---------------------------------------------------------------------------------------------
// Laws of what tools ask

proof fn lemma_asked_names()
    ensures
        "reset_conversation"@.len() == 18,
        "model_updated"@.len() == 13,
        "verbosity_updated"@.len() == 17,
        "verbosity_updated"@[0] == 'v',
        "reasoning_effort_updated"@.len() == 24,
        "end_admin_session"@.len() == 17,
        "end_admin_session"@[0] == 'e',
{
    reveal_strlit("reset_conversation");
    reveal_strlit("model_updated");
    reveal_strlit("verbosity_updated");
    reveal_strlit("reasoning_effort_updated");
    reveal_strlit("end_admin_session");
}

/// Each action that an output gives is the one that is asked of the conversation, with the value
/// that goes with it, and nothing is asked otherwise. The output itself confirms it.
pub proof fn law_each_action_is_asked(
    output: json::Json,
    said: Seq<char>,
    response_id: Seq<char>,
    value: Seq<char>,
)
    ensures
        asked_outcome(output, said, response_id) == Some(
            AiConversationOutcome::ResetConversation(said, response_id),
        ) <==> json::text_member(output, "action"@) == Some("reset_conversation"@),
        asked_outcome(output, said, response_id) == Some(
            AiConversationOutcome::EndAdminSession(said, response_id),
        ) <==> json::text_member(output, "action"@) == Some("end_admin_session"@),
        asked_outcome(output, said, response_id) == Some(
            AiConversationOutcome::ChangeModel(said, response_id, value),
        ) <==> json::text_member(output, "action"@) == Some("model_updated"@)
            && json::text_member(output, "new_model_id"@) == Some(value),
        asked_outcome(output, said, response_id) == Some(
            AiConversationOutcome::ChangeVerbosity(said, response_id, value),
        ) <==> json::text_member(output, "action"@) == Some("verbosity_updated"@)
            && json::text_member(output, "new_verbosity"@) == Some(value),
        asked_outcome(output, said, response_id) == Some(
            AiConversationOutcome::ChangeReasoningEffort(said, response_id, value),
        ) <==> json::text_member(output, "action"@) == Some("reasoning_effort_updated"@)
            && json::text_member(output, "new_reasoning_effort"@) == Some(value),
        json::text_member(output, "action"@) is None ==> asked_outcome(output, said, response_id)
            is None,
        !(asked_outcome(output, said, response_id) matches Some(
            AiConversationOutcome::TextMessage(..),
        )),
{
    lemma_asked_names();
}

/// Only the two tools that act on the conversation are heeded, and what they ask is heeded as their
/// output says it.
pub proof fn law_only_admin_tools_are_heeded(
    name: Seq<char>,
    output: Seq<char>,
    response_id: Seq<char>,
)
    ensures
        call_outcome(name, output, response_id) is Some ==> name == "conversation_admin_tool"@
            || name == "end_admin_session"@,
        name == "conversation_admin_tool"@ || name == "end_admin_session"@ ==> call_outcome(
            name,
            output,
            response_id,
        ) == match json::parsed_json(output) {
            Ok(value) => asked_outcome(value, output, response_id),
            Err(_) => None,
        },
{
}

// ---------------------------------------------------------------------------------------------
// Laws of the views

/// What stands for a step of the loop, an outcome or a list of calls keeps every part of it.
pub proof fn law_views_keep_every_part(
    call: OutputFunctionCall,
    calls: Seq<OutputFunctionCall>,
    outcome: AiConversationOutcome,
    previous_response_id: String,
    with_instructions: bool,
)
    ensures
        call_views(calls).len() == calls.len(),
        forall|i: int| 0 <= i < calls.len() ==> #[trigger] call_views(calls)[i] == calls[i]@,
        outcome_view(Some(outcome)) == Some(outcome@),
        outcome_view(None) is None,
        LoopStep::CallTool(call)@ == StepView::CallTool(call@),
        (LoopStep::AskModel { previous_response_id, with_instructions })@ == (StepView::AskModel {
            previous_response_id: previous_response_id@,
            with_instructions,
        }),
        LoopStep::Finish(outcome)@ == StepView::Finish(outcome@),
{
}

/// A quote in the error of a failed call is escaped, and what stands around it is written as it
/// would be without.
pub proof fn law_quotes_in_errors_are_escaped(name: Seq<char>, a: Seq<char>, b: Seq<char>)
    requires
        !a.contains('"'),
    ensures
        ({
            let head = "{\"error\": \"tool_execution_failed\", \"tool_name\": \""@ + name
                + "\", \"details\": \""@;
            let rest = failed_call(name, b).skip(head.len() as int);
            &&& failed_call(name, b) == head + rest
            &&& failed_call(name, a + "\""@ + b) == head + a + "\\\""@ + rest
        }),
{
    reveal_strlit("\"");
    let quote = "\""@;
    let head = "{\"error\": \"tool_execution_failed\", \"tool_name\": \""@ + name
        + "\", \"details\": \""@;
    let rest = text::replace_all(b, quote, "\\\""@) + "\"}"@;
    assert(failed_call(name, b) =~= head + rest);
    assert(failed_call(name, b).skip(head.len() as int) =~= rest);
    let whole = a + quote + b;
    assert forall|i: int| 0 <= i < a.len() implies !#[trigger] text::occurs_at(whole, quote, i) by {
        if text::occurs_at(whole, quote, i) {
            assert(whole.subrange(i, i + 1)[0] == quote[0]);
            assert(a[i] == '"');
            assert(a.contains(a[i]));
        }
    }
    text::law_each_occurrence_is_replaced(a, b, quote, "\\\""@);
    assert(failed_call(name, whole) =~= head + a + "\\\""@ + rest);
}

/// Each tool asks for the arguments that it reads, and for no others: the slot, the name of a
/// database, the query, the name of a manual, the breaker and its state, the command with its code
/// and model, and the command with its job.
pub proof fn law_tools_ask_for_what_they_read()
    ensures
        types::names(tools::beacon_slot_check::tool_view().parameters->0.properties) == seq![
            "slot_number"@,
        ],
        types::names(tools::db_schema::tool_view().parameters->0.properties) == seq![
            "database_name"@,
        ],
        types::names(tools::db_query::mevdb_tool_view().parameters->0.properties) == seq![
            "sql_query"@,
        ],
        types::names(tools::db_query::globaldb_tool_view().parameters->0.properties) == seq![
            "sql_query"@,
        ],
        types::names(tools::retrieve_manual::tool_view().parameters->0.properties) == seq![
            "manual_name"@,
        ],
        types::names(tools::relay_circuit_breaker::tool_view().parameters->0.properties) == seq![
            "command"@,
            "enabled"@,
        ],
        types::names(tools::conversation_admin::tool_view().parameters->0.properties) == seq![
            "command"@,
            "admin_code"@,
            "model_id"@,
        ],
        types::names(tools::scheduled_jobs::tool_view().parameters->0.properties) == seq![
            "command"@,
            "name"@,
            "cron_schedule"@,
            "prompt"@,
        ],
        types::names(tools::admin_session_end::tool_view().parameters->0.properties).len() == 0,
{
    lemma_argument_names();
    reveal_with_fuel(types::name_position, 5);
    let empty = Seq::<types::PropertyEntry>::empty();
    assert(empty.len() == 0);
    let beacon = tools::beacon_slot_check::tool_view().parameters->0.properties;
    assert(types::names(beacon) =~= seq!["slot_number"@]);
    let schema = tools::db_schema::tool_view().parameters->0.properties;
    assert(types::names(schema) =~= seq!["database_name"@]);
    let mevdb = tools::db_query::mevdb_tool_view().parameters->0.properties;
    assert(types::names(mevdb) =~= seq!["sql_query"@]);
    let globaldb = tools::db_query::globaldb_tool_view().parameters->0.properties;
    assert(types::names(globaldb) =~= seq!["sql_query"@]);
    let manual = tools::retrieve_manual::tool_view().parameters->0.properties;
    assert(types::names(manual) =~= seq!["manual_name"@]);
    let breaker = tools::relay_circuit_breaker::tool_view().parameters->0.properties;
    assert(types::names(breaker) =~= seq!["command"@, "enabled"@]);
    let admin = tools::conversation_admin::tool_view().parameters->0.properties;
    assert(types::names(admin) =~= seq!["command"@, "admin_code"@, "model_id"@]);
    let jobs = tools::scheduled_jobs::tool_view().parameters->0.properties;
    assert(types::names(jobs) =~= seq!["command"@, "name"@, "cron_schedule"@, "prompt"@]);
}

proof fn lemma_argument_names()
    ensures
        "command"@.len() == 7,
        "command"@[0] == 'c',
        "enabled"@.len() == 7,
        "enabled"@[0] == 'e',
        "admin_code"@.len() == 10,
        "model_id"@.len() == 8,
        "name"@.len() == 4,
        "cron_schedule"@.len() == 13,
        "prompt"@.len() == 6,
{
    reveal_strlit("command");
    reveal_strlit("enabled");
    reveal_strlit("admin_code");
    reveal_strlit("model_id");
    reveal_strlit("name");
    reveal_strlit("cron_schedule");
    reveal_strlit("prompt");
}

/// A choice that a tool offers lists the values that it knows.
pub proof fn law_tools_offer_the_values_they_know()
    ensures
        tools::db_schema::tool_view().parameters->0.properties[0].1.enum_values == Some(
            seq!["mevdb"@, "globaldb"@],
        ),
        tools::retrieve_manual::tool_view().parameters->0.properties[0].1.enum_values == Some(
            seq!["generate_proposer_reimbursement"@, "relay_dynamics"@],
        ),
        tools::relay_circuit_breaker::tool_view().parameters->0.properties[0].1.enum_values == Some(
            seq!["set_adjustment_circuit_breaker"@, "set_auction_circuit_breaker"@],
        ),
        tools::relay_circuit_breaker::tool_view().parameters->0.properties[1].1.kind
            == "boolean"@,
        tools::beacon_slot_check::tool_view().parameters->0.properties[0].1.kind == "integer"@,
        tools::conversation_admin::tool_view().parameters->0.properties[0].1.enum_values == Some(
            seq!["reset_conversation"@, "set_openai_model"@],
        ),
        tools::conversation_admin::tool_view().parameters->0.properties[2].1.enum_values == Some(
            seq!["gpt-5"@, "gpt-5-mini"@],
        ),
        tools::scheduled_jobs::tool_view().parameters->0.properties[0].1.enum_values == Some(
            seq!["list"@, "add"@, "edit"@, "delete"@, "enable"@, "disable"@],
        ),
{
    lemma_argument_names();
    reveal_with_fuel(types::name_position, 5);
}

/// Every function that is offered is strict: it requires all its parameters and allows no others.
pub proof fn law_offered_functions_are_strict(i: int)
    requires
        0 <= i < available_tools_view().len(),
    ensures
        available_tools_view()[i] matches types::ApiToolView::Function(f) ==> f.kind
            == "function"@ && f.strict == Some(true) && (f.parameters matches Some(p)
            && !p.additional_properties && p.kind == "object"@ && p.required == Some(
            types::names(p.properties),
        )),
{
}

} // verus!
