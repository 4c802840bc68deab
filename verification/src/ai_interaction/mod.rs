//! The conversation with the model: a prompt goes in, and tools are called until a final answer
//! comes out.

pub mod admin_session;
pub mod openai_chat;
pub mod tools;
pub mod topic_context;

use crate::openai_api;
use crate::openai_api::types;
use crate::openai_api::types::{copy_tools, input_message, ApiToolType, InputItem};
use crate::openai_api::CallResponsesApiOptionalArgs;
use crate::text;
use openai_chat::{determine_turn_tools, OpenAiCallConfig, DEFAULT_OPENAI_MODEL_ID};
use vstd::prelude::*;

verus! {

/// What a conversation with the model came to. Each outcome ends in the response that brought it
/// about, and behind that what is to be changed.
pub enum AiConversationOutcome<S = String> {
    /// The model answered with a text.
    TextMessage(S, S),
    /// The conversation is to begin anew; the text confirms it.
    ResetConversation(S, S),
    /// Another model is to be used from now on; the text confirms it.
    ChangeModel(S, S, S),
    /// Another verbosity is to be used from now on; the text confirms it.
    ChangeVerbosity(S, S, S),
    /// Another reasoning effort is to be used from now on; the text confirms it.
    ChangeReasoningEffort(S, S, S),
    /// The admin session is to end; the text confirms it.
    EndAdminSession(S, S),
}

/// What an outcome says.
pub type OutcomeView = AiConversationOutcome<Seq<char>>;

impl View for AiConversationOutcome {
    type V = OutcomeView;

    open spec fn view(&self) -> OutcomeView {
        match self {
            AiConversationOutcome::TextMessage(a, b) => AiConversationOutcome::TextMessage(a@, b@),
            AiConversationOutcome::ResetConversation(
                a,
                b,
            ) => AiConversationOutcome::ResetConversation(a@, b@),
            AiConversationOutcome::ChangeModel(a, b, c) => AiConversationOutcome::ChangeModel(
                a@,
                b@,
                c@,
            ),
            AiConversationOutcome::ChangeVerbosity(
                a,
                b,
                c,
            ) => AiConversationOutcome::ChangeVerbosity(a@, b@, c@),
            AiConversationOutcome::ChangeReasoningEffort(
                a,
                b,
                c,
            ) => AiConversationOutcome::ChangeReasoningEffort(a@, b@, c@),
            AiConversationOutcome::EndAdminSession(
                a,
                b,
            ) => AiConversationOutcome::EndAdminSession(a@, b@),
        }
    }
}

// ---------------------------------------------------------------------------------------------
// Settings

/// The model that is used, and how it is asked to answer.
pub struct Settings {
    model_id: String,
    verbosity: Option<String>,
    reasoning_effort: Option<String>,
}

/// The view of [`Settings`].
#[verifier::ext_equal]
pub struct SettingsView {
    pub model_id: Seq<char>,
    pub verbosity: Option<Seq<char>>,
    pub reasoning_effort: Option<Seq<char>>,
}

impl View for Settings {
    type V = SettingsView;

    closed spec fn view(&self) -> SettingsView {
        SettingsView {
            model_id: self.model_id@,
            verbosity: text::text_view(self.verbosity),
            reasoning_effort: text::text_view(self.reasoning_effort),
        }
    }
}

/// The settings at the start.
pub open spec fn initial_settings() -> SettingsView {
    SettingsView { model_id: "gpt-5.2"@, verbosity: None, reasoning_effort: None }
}

impl Settings {
    /// The settings at the start: the default model, and nothing said of how it answers.
    pub fn new() -> (r: Self)
        ensures
            r@ == initial_settings(),
    {
        Settings {
            model_id: DEFAULT_OPENAI_MODEL_ID.to_owned(),
            verbosity: None,
            reasoning_effort: None,
        }
    }

    /// The model that is used.
    pub fn get_current_model_id(&self) -> (r: String)
        ensures
            r@ == self@.model_id,
    {
        self.model_id.clone()
    }

    /// Uses another model from now on.
    pub fn set_current_model_id(&mut self, new_model_id: String)
        ensures
            final(self)@ == (SettingsView { model_id: new_model_id@, ..old(self)@ }),
    {
        self.model_id = new_model_id;
    }

    /// The verbosity that is asked for.
    pub fn get_current_verbosity(&self) -> (r: Option<String>)
        ensures
            text::text_view(r) == self@.verbosity,
    {
        types::copy_option(&self.verbosity)
    }

    /// Asks for another verbosity from now on.
    pub fn set_current_verbosity(&mut self, new_verbosity: Option<String>)
        ensures
            final(self)@ == (SettingsView {
                verbosity: text::text_view(new_verbosity),
                ..old(self)@
            }),
    {
        self.verbosity = new_verbosity;
    }

    /// The reasoning effort that is asked for.
    pub fn get_current_reasoning_effort(&self) -> (r: Option<String>)
        ensures
            text::text_view(r) == self@.reasoning_effort,
    {
        types::copy_option(&self.reasoning_effort)
    }

    /// Asks for another reasoning effort from now on.
    pub fn set_current_reasoning_effort(&mut self, new_effort: Option<String>)
        ensures
            final(self)@ == (SettingsView {
                reasoning_effort: text::text_view(new_effort),
                ..old(self)@
            }),
    {
        self.reasoning_effort = new_effort;
    }
}

/// The settings once an outcome has been heeded.
pub open spec fn settings_after(settings: SettingsView, outcome: OutcomeView) -> SettingsView {
    match outcome {
        AiConversationOutcome::ChangeModel(_, _, model) => SettingsView {
            model_id: model,
            ..settings
        },
        AiConversationOutcome::ChangeVerbosity(_, _, verbosity) => SettingsView {
            verbosity: Some(verbosity),
            ..settings
        },
        AiConversationOutcome::ChangeReasoningEffort(_, _, effort) => SettingsView {
            reasoning_effort: Some(effort),
            ..settings
        },
        _ => settings,
    }
}

// ---------------------------------------------------------------------------------------------
// Requests

/// A conversation at its start: what is said to the model, and the tools it may call.
pub struct ConversationStart {
    pub input_items: Vec<InputItem>,
    pub tools: Vec<ApiToolType>,
}

/// Starts a conversation with a prompt. Which tools the model may call depends on the model and on
/// whether an admin session is active.
pub fn drive_ai_conversation(
    config: &OpenAiCallConfig,
    prompt_text: &str,
    current_model_id: &str,
    admin_session_active: bool,
) -> (r: ConversationStart)
    ensures
        types::item_views(r.input_items@) == seq![types::message_item("user"@, prompt_text@)],
        types::tool_views(r.tools@) == openai_chat::turn_tools(
            types::tool_views(config.available_tools@),
            admin_session_active,
            current_model_id@,
        ),
{
    let mut input_items: Vec<InputItem> = Vec::new();
    input_items.push(input_message("user", prompt_text));
    let tools = determine_turn_tools(
        &config.available_tools,
        admin_session_active,
        current_model_id,
    );
    proof {
        assert(types::item_views(input_items@) =~= seq![
            types::message_item("user"@, prompt_text@),
        ]);
    }
    ConversationStart { input_items, tools }
}

fn borrowed<'a>(value: &'a Option<String>) -> (r: Option<&'a str>)
    ensures
        text::slice_view(r) == text::text_view(*value),
{
    match value {
        Some(s) => Some(s.as_str()),
        None => None,
    }
}

/// What a request says beside its input: the model, the response it follows, the tools, the
/// instructions where they are given, that it is stored, and how the model is to answer.
pub open spec fn request_args(
    model_id: Seq<char>,
    previous_response_id: Option<Seq<char>>,
    tools: Seq<types::ApiToolView>,
    instructions: Option<Seq<char>>,
    verbosity: Option<Seq<char>>,
    reasoning_effort: Option<Seq<char>>,
) -> openai_api::ArgsView {
    openai_api::ArgsView {
        model_id,
        previous_response_id,
        tools: Some(tools),
        tool_choice: None,
        instructions,
        temperature: None,
        store: Some(true),
        verbosity,
        reasoning_effort,
    }
}

/// Builds what a request of the conversation says beside its input.
pub fn conversation_args<'a>(
    model_id: &'a str,
    previous_response_id: Option<&'a str>,
    tools: &Vec<ApiToolType>,
    instructions: Option<&'a str>,
    verbosity: &'a Option<String>,
    reasoning_effort: &'a Option<String>,
) -> (r: CallResponsesApiOptionalArgs<'a>)
    ensures
        r@ == request_args(
            model_id@,
            text::slice_view(previous_response_id),
            types::tool_views(tools@),
            text::slice_view(instructions),
            text::text_view(*verbosity),
            text::text_view(*reasoning_effort),
        ),
{
    CallResponsesApiOptionalArgs {
        model_id,
        previous_response_id,
        tools: Some(copy_tools(tools)),
        tool_choice: None,
        instructions,
        temperature: None,
        store: Some(true),
        verbosity: borrowed(verbosity),
        reasoning_effort: borrowed(reasoning_effort),
    }
}

// ---------------------------------------------------------------------------------------------
// Outcomes

/// What is shown of an outcome on the command line, and the response that brought it about.
pub open spec fn cli_view(outcome: OutcomeView) -> (Seq<char>, Seq<char>) {
    match outcome {
        AiConversationOutcome::TextMessage(message, id) => (message, id),
        AiConversationOutcome::ResetConversation(message, id) => (
            "conversation reset requested by ai/tool, message: \""@ + message + "\""@,
            id,
        ),
        AiConversationOutcome::ChangeModel(message, id, model) => (
            "openai model change to '"@ + model + "' requested by ai/tool. confirmation: \""@
                + message + "\""@,
            id,
        ),
        AiConversationOutcome::ChangeVerbosity(message, id, verbosity) => (
            "openai verbosity change to '"@ + verbosity
                + "' requested by ai/tool. confirmation: \""@ + message + "\""@,
            id,
        ),
        AiConversationOutcome::ChangeReasoningEffort(message, id, effort) => (
            "openai reasoning effort change to '"@ + effort
                + "' requested by ai/tool. confirmation: \""@ + message + "\""@,
            id,
        ),
        AiConversationOutcome::EndAdminSession(message, id) => (
            "admin session end requested by ai/tool, message: \""@ + message + "\""@,
            id,
        ),
    }
}

fn change_requested(what: &str, value: &str, message: &str) -> (r: String)
    ensures
        r@ == what@ + value@ + "' requested by ai/tool. confirmation: \""@ + message@ + "\""@,
{
    let mut out = what.to_owned();
    out.append(value);
    out.append("' requested by ai/tool. confirmation: \"");
    out.append(message);
    out.append("\"");
    out
}

/// What is shown of an outcome on the command line. Another verbosity or reasoning effort is
/// heeded; another model is only told.
pub fn process_single_prompt_for_cli(
    settings: &mut Settings,
    outcome: AiConversationOutcome,
) -> (r: (String, String))
    ensures
        (r.0@, r.1@) == cli_view(outcome@),
        final(settings)@ == if outcome is ChangeModel {
            old(settings)@
        } else {
            settings_after(old(settings)@, outcome@)
        },
{
    match outcome {
        AiConversationOutcome::TextMessage(message, id) => (message, id),
        AiConversationOutcome::ResetConversation(message, id) => {
            let mut out = "conversation reset requested by ai/tool, message: \"".to_owned();
            out.append(message.as_str());
            out.append("\"");
            (out, id)
        },
        AiConversationOutcome::ChangeModel(message, id, model) => (
            change_requested("openai model change to '", model.as_str(), message.as_str()),
            id,
        ),
        AiConversationOutcome::ChangeVerbosity(message, id, verbosity) => {
            let out = change_requested(
                "openai verbosity change to '",
                verbosity.as_str(),
                message.as_str(),
            );
            settings.set_current_verbosity(Some(verbosity));
            (out, id)
        },
        AiConversationOutcome::ChangeReasoningEffort(message, id, effort) => {
            let out = change_requested(
                "openai reasoning effort change to '",
                effort.as_str(),
                message.as_str(),
            );
            settings.set_current_reasoning_effort(Some(effort));
            (out, id)
        },
        AiConversationOutcome::EndAdminSession(message, id) => {
            let mut out = "admin session end requested by ai/tool, message: \"".to_owned();
            out.append(message.as_str());
            out.append("\"");
            (out, id)
        },
    }
}

// ---------------------------------------------------------------------------------------------
// Laws

/// At the start the default model is used, and nothing is said of how it answers. Each change sets
/// what it is about to the value it gives, and leaves the rest; no other outcome changes anything.
pub proof fn law_each_change_sets_its_own(
    settings: SettingsView,
    confirmation: Seq<char>,
    id: Seq<char>,
    value: Seq<char>,
)
    ensures
        initial_settings().model_id == "gpt-5.2"@,
        initial_settings().verbosity is None,
        initial_settings().reasoning_effort is None,
        ({
            let after = settings_after(
                settings,
                AiConversationOutcome::ChangeModel(confirmation, id, value),
            );
            after.model_id == value && after.verbosity == settings.verbosity
                && after.reasoning_effort == settings.reasoning_effort
        }),
        ({
            let after = settings_after(
                settings,
                AiConversationOutcome::ChangeVerbosity(confirmation, id, value),
            );
            after.model_id == settings.model_id && after.verbosity == Some(value)
                && after.reasoning_effort == settings.reasoning_effort
        }),
        ({
            let after = settings_after(
                settings,
                AiConversationOutcome::ChangeReasoningEffort(confirmation, id, value),
            );
            after.model_id == settings.model_id && after.verbosity == settings.verbosity
                && after.reasoning_effort == Some(value)
        }),
        settings_after(settings, AiConversationOutcome::TextMessage(confirmation, id)) == settings,
        settings_after(settings, AiConversationOutcome::ResetConversation(confirmation, id))
            == settings,
        settings_after(settings, AiConversationOutcome::EndAdminSession(confirmation, id))
            == settings,
{
}

/// A request says what the conversation is: the model, the response it follows, the tools, the
/// instructions and how the model is to answer, each as given; and that the answer is stored.
pub proof fn law_requests_say_what_the_conversation_is(
    model_id: Seq<char>,
    previous_response_id: Option<Seq<char>>,
    tools: Seq<types::ApiToolView>,
    instructions: Option<Seq<char>>,
    verbosity: Option<Seq<char>>,
    reasoning_effort: Option<Seq<char>>,
)
    ensures
        ({
            let args = request_args(
                model_id,
                previous_response_id,
                tools,
                instructions,
                verbosity,
                reasoning_effort,
            );
            &&& args.model_id == model_id
            &&& args.previous_response_id == previous_response_id
            &&& args.tools == Some(tools)
            &&& args.instructions == instructions
            &&& args.verbosity == verbosity
            &&& args.reasoning_effort == reasoning_effort
            &&& args.store == Some(true)
            &&& args.tool_choice is None && args.temperature is None
        }),
{
}

/// On the command line an answer is shown as it is, and what is asked of the conversation is told:
/// what it is, the value that goes with it, and the confirmation. The response is given with it.
pub proof fn law_outcomes_are_shown(message: Seq<char>, id: Seq<char>, value: Seq<char>)
    ensures
        cli_view(AiConversationOutcome::TextMessage(message, id)) == (message, id),
        cli_view(AiConversationOutcome::ResetConversation(message, id)) == (
            "conversation reset requested by ai/tool, message: \""@ + message + "\""@,
            id,
        ),
        cli_view(AiConversationOutcome::EndAdminSession(message, id)) == (
            "admin session end requested by ai/tool, message: \""@ + message + "\""@,
            id,
        ),
        cli_view(AiConversationOutcome::ChangeModel(message, id, value)) == (
            "openai model change to '"@ + value + "' requested by ai/tool. confirmation: \""@
                + message + "\""@,
            id,
        ),
        cli_view(AiConversationOutcome::ChangeVerbosity(message, id, value)) == (
            "openai verbosity change to '"@ + value + "' requested by ai/tool. confirmation: \""@
                + message + "\""@,
            id,
        ),
        cli_view(AiConversationOutcome::ChangeReasoningEffort(message, id, value)) == (
            "openai reasoning effort change to '"@ + value
                + "' requested by ai/tool. confirmation: \""@ + message + "\""@,
            id,
        ),
{
}

/// What stands for an outcome is that outcome, with each of its texts in its place.
pub proof fn law_views_keep_every_part(a: String, b: String, c: String)
    ensures
        AiConversationOutcome::TextMessage(a, b)@ == AiConversationOutcome::TextMessage(a@, b@),
        AiConversationOutcome::ResetConversation(a, b)@ == AiConversationOutcome::ResetConversation(
            a@,
            b@,
        ),
        AiConversationOutcome::ChangeModel(a, b, c)@ == AiConversationOutcome::ChangeModel(
            a@,
            b@,
            c@,
        ),
        AiConversationOutcome::ChangeVerbosity(a, b, c)@ == AiConversationOutcome::ChangeVerbosity(
            a@,
            b@,
            c@,
        ),
        AiConversationOutcome::ChangeReasoningEffort(a, b, c)@
            == AiConversationOutcome::ChangeReasoningEffort(a@, b@, c@),
        AiConversationOutcome::EndAdminSession(a, b)@ == AiConversationOutcome::EndAdminSession(
            a@,
            b@,
        ),
{
}

} // verus!
