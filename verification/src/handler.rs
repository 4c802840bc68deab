//! A bot that answers with one tool: a SELECT query on its own database.

use crate::ai_interaction::tools::db_query::Column;
use crate::bot;
use crate::bot::mentions_bot;
use crate::bot::reply;
use crate::bot::reply::{ReplyAction, ReplyEvent, ReplyState};
use crate::json;
use crate::json::to_text;
use crate::message_processor::tools::common;
use crate::message_processor::tools::common::ToolStep2Context;
use crate::message_processor::tools::execute_sql_query;
use crate::message_processor::tools::execute_sql_query::{
    final_summary, handle_execute_sql_query_tool_call, sql_query_tool,
};
use crate::openai_api;
use crate::openai_api::types;
use crate::openai_api::types::{
    copy_items, input_message, ApiToolType, InputItem, OutputFunctionCall, OutputItem,
    ToolDefinition,
};
use crate::openai_api::CallResponsesApiOptionalArgs;
use crate::telegram::types::{Message, MessageEntity, Update, User};
use crate::text;
use crate::text::{replace, same_text, signed_decimal_text, slice_bytes, trim_text};
use crate::tools::sql_select;
use crate::tools::sql_select::{execute_db_query, QueryVerdict, SQL_TOOL_NAME};
use vstd::prelude::*;

verus! {

pub const OPENAI_RESPONSES_MODEL_ID: &'static str = "gpt-4.1-nano";

/// The instructions to the model.
pub const INSTRUCTIONS: &'static str =
    "you are a helpful ai assistant named lexi. use tools if appropriate. you have one tool available: 'execute_sql_query'. its purpose is to execute a sql select query you provide against the database. you must formulate the sql query yourself. only select queries are permitted. the available tables are (focus on querying 'users', 'chats', 'messages'): 1. 'users' (stores telegram user information): columns: id (serial primary key), telegram_id (bigint unique not null), username (text), first_name (text not null), last_name (text), is_bot (boolean not null default false), created_at (timestamptz not null default now()), updated_at (timestamptz not null default now()). 2. 'chats' (stores chat information): columns: id (serial primary key), telegram_id (bigint unique not null), type (text not null - e.g., 'private', 'group'), title (text), username (text), created_at (timestamptz not null default now()), updated_at (timestamptz not null default now()). 3. 'messages' (stores messages from chats): columns: id (serial primary key), telegram_message_id (bigint not null), chat_id (integer not null, references chats.id), sender_id (integer not null, references users.id), text (text), sent_at (timestamptz not null), raw_message (text), created_at (timestamptz not null default now()). ensure your queries target these tables and their specified columns correctly. if you use the tool, you will provide the exact sql query to execute.";

/// The tool that the model may call.
pub fn create_direct_sql_query_tool() -> (r: ToolDefinition)
    ensures
        r@ == execute_sql_query::sql_tool(),
{
    sql_query_tool()
}

/// What the first request says beside its input: the tool is offered.
pub open spec fn first_request_args(previous_response_id: Option<Seq<char>>) -> openai_api::ArgsView {
    openai_api::ArgsView {
        model_id: "gpt-4.1-nano"@,
        previous_response_id,
        tools: Some(seq![types::ApiToolView::Function(execute_sql_query::sql_tool())]),
        tool_choice: None,
        instructions: Some(INSTRUCTIONS@),
        temperature: None,
        store: None,
        verbosity: None,
        reasoning_effort: None,
    }
}

/// What the first request says beside its input.
pub fn request_args<'a>(previous_response_id: Option<&'a str>) -> (r: CallResponsesApiOptionalArgs<
    'a,
>)
    ensures
        r@ == first_request_args(text::slice_view(previous_response_id)),
{
    let mut tools: Vec<ApiToolType> = Vec::new();
    tools.push(ApiToolType::Function(create_direct_sql_query_tool()));
    proof {
        assert(types::tool_views(tools@) =~= seq![
            types::ApiToolView::Function(execute_sql_query::sql_tool()),
        ]);
    }
    CallResponsesApiOptionalArgs {
        model_id: OPENAI_RESPONSES_MODEL_ID,
        previous_response_id,
        tools: Some(tools),
        tool_choice: None,
        instructions: Some(INSTRUCTIONS),
        temperature: None,
        store: None,
        verbosity: None,
        reasoning_effort: None,
    }
}

/// The input of the first request: the prompt.
pub fn request_input(prompt: &str) -> (r: Vec<InputItem>)
    ensures
        types::item_views(r@) == seq![types::message_item("user"@, prompt@)],
{
    let mut items: Vec<InputItem> = Vec::new();
    items.push(input_message("user", prompt));
    proof {
        assert(types::item_views(items@) =~= seq![types::message_item("user"@, prompt@)]);
    }
    items
}

/// What the second request is made of. It says what the first one said, then the call and what it
/// gave, and goes on from the response that made the call.
pub fn second_request<'a>(
    input_items: &Vec<InputItem>,
    call: &'a OutputFunctionCall,
    response_id: &'a str,
    output: String,
) -> (r: ToolStep2Context<'a>)
    ensures
        common::step2_input(r) == types::item_views(input_items@).push(
            types::message_item(
                "assistant"@,
                common::call_note(call.name@, call.id@, call.call_id@, call.arguments@),
            ),
        ).push(types::call_output_item(call.call_id@, output@)),
        common::step2_args_view(OPENAI_RESPONSES_MODEL_ID@, r) == first_request_args(
            Some(response_id@),
        ),
{
    let mut tools: Vec<ApiToolType> = Vec::new();
    tools.push(ApiToolType::Function(create_direct_sql_query_tool()));
    proof {
        assert(types::tool_views(tools@) =~= seq![
            types::ApiToolView::Function(execute_sql_query::sql_tool()),
        ]);
    }
    ToolStep2Context {
        function_name: call.name.as_str(),
        function_id: call.id.as_str(),
        function_call_id: call.call_id.as_str(),
        function_arguments: call.arguments.as_str(),
        original_input_items: copy_items(input_items),
        initial_api_response_id: response_id,
        available_tools: tools,
        instructions: INSTRUCTIONS,
        tool_output_json_string: output,
    }
}

// ---------------------------------------------------------------------------------------------
// What a message says to the bot

/// A text without the mention of the bot and the white space around it; a text that does not
/// mention the bot stays as it is.
pub open spec fn trimmed_prompt(text: Seq<char>, entities: Option<Seq<MessageEntity>>) -> Seq<char> {
    match entities {
        Some(list) => match bot::first_bot_mention(text, list) {
            Some(entity) => text::trim(
                text::replace_all(text, bot::marked(text, entity), seq![]),
            ),
            None => text,
        },
        None => text,
    }
}

/// A text without the mention of the bot and the white space around it.
pub fn extract_prompt_from_mention(text: &str, entities: &Option<Vec<MessageEntity>>) -> (r: String)
    requires
        match entities {
            Some(list) => bot::readable(text@, list@),
            None => true,
        },
    ensures
        r@ == trimmed_prompt(text@, bot::entities_view(*entities)),
{
    if let Some(list) = entities {
        if let Some(i) = bot::find_bot_mention(text, list) {
            let mention = slice_bytes(text, list[i].offset, list[i].length);
            proof {
                reveal_strlit("@lexi_alex_bot");
                reveal_strlit("");
                assert(""@ =~= Seq::<char>::empty());
                assert(text::ascii_lower_text(bot::BOT_USERNAME@).len() == 14);
                assert(mention@.len() == text::ascii_lower_text(mention@).len());
            }
            let without = replace(text, mention, "");
            return trim_text(without.as_str()).to_owned();
        }
    }
    text.to_owned()
}

/// What a message says to the bot.
pub open spec fn handler_prompt(message: Message) -> Seq<char> {
    match message.text {
        Some(t) => if bot::update::is_private(message) {
            t@
        } else {
            trimmed_prompt(t@, bot::entities_view(message.entities))
        },
        None => ""@,
    }
}

fn handler_prompt_text(message: &Message) -> (r: String)
    requires
        bot::update::mentions_are_readable(*message),
    ensures
        r@ == handler_prompt(*message),
{
    match &message.text {
        Some(t) => {
            if same_text(message.chat.chat_type.as_str(), "private") {
                t.clone()
            } else {
                extract_prompt_from_mention(t.as_str(), &message.entities)
            }
        },
        None => "".to_owned(),
    }
}

/// The answer to a prompt that holds nothing.
pub open spec fn handler_acknowledgement(message: Message) -> Seq<char> {
    "Hi "@ + (match message.from {
        Some(user) => user.first_name@,
        None => "there"@,
    }) + "! You "@ + (if bot::update::is_private(message) {
        "messaged"@
    } else {
        "mentioned"@
    })
        + " me, but your message seemed empty after processing. What can I help you with?"@
}

fn acknowledge(message: &Message) -> (r: String)
    ensures
        r@ == handler_acknowledgement(*message),
{
    let mut out = "Hi ".to_owned();
    match &message.from {
        Some(user) => out.append(user.first_name.as_str()),
        None => out.append("there"),
    }
    out.append("! You ");
    if same_text(message.chat.chat_type.as_str(), "private") {
        out.append("messaged");
    } else {
        out.append("mentioned");
    }
    out.append(" me, but your message seemed empty after processing. What can I help you with?");
    out
}

// ---------------------------------------------------------------------------------------------
// Handling an update

/// How far the handling of an update has come. `chat_id` is the chat's number in the database.
#[derive(Debug, Clone, Copy, PartialEq, Eq, Structural)]
pub enum HandlerState {
    Start,
    StoringUser,
    StoringChat { user_id: i32 },
    StoringMessage { chat_id: i32 },
    SendingAcknowledgement { chat_id: i32 },
    StoringAcknowledgement { message_id: i64 },
    Generating,
    LoggingMentions,
    Finished,
}

/// What happened since the last step.
#[derive(Debug, Clone, Copy, PartialEq, Eq, Structural)]
pub enum HandlerEvent {
    Begin,
    /// A row was stored, under this number.
    Stored(i32),
    /// A message was sent, under this number.
    Sent(i64),
    /// A message could not be written as JSON.
    Unwritable,
    Done,
    Failed,
}

/// What is to be done next.
pub enum HandlerAction<S = String> {
    StoreUser,
    StoreChat,
    StoreMessage { chat_id: i32, user_id: i32 },
    SendAcknowledgement(S),
    StoreAcknowledgement { chat_id: i32 },
    /// A reply to the prompt is generated and sent.
    Generate { chat_id: i32, prompt: S },
    LogOtherMentions,
    Finish,
    /// The last error is reported, under a heading where there is one.
    Fail { heading: Option<S> },
}

impl View for HandlerAction {
    type V = HandlerAction<Seq<char>>;

    open spec fn view(&self) -> HandlerAction<Seq<char>> {
        match self {
            HandlerAction::StoreUser => HandlerAction::StoreUser,
            HandlerAction::StoreChat => HandlerAction::StoreChat,
            HandlerAction::StoreMessage { chat_id, user_id } => HandlerAction::StoreMessage {
                chat_id: *chat_id,
                user_id: *user_id,
            },
            HandlerAction::SendAcknowledgement(text) => HandlerAction::SendAcknowledgement(text@),
            HandlerAction::StoreAcknowledgement { chat_id } => HandlerAction::StoreAcknowledgement {
                chat_id: *chat_id,
            },
            HandlerAction::Generate { chat_id, prompt } => HandlerAction::Generate {
                chat_id: *chat_id,
                prompt: prompt@,
            },
            HandlerAction::LogOtherMentions => HandlerAction::LogOtherMentions,
            HandlerAction::Finish => HandlerAction::Finish,
            HandlerAction::Fail { heading } => HandlerAction::Fail {
                heading: text::text_view(*heading),
            },
        }
    }
}

/// The step once a message is stored: a message that is not meant for the bot gets no reply, one
/// that says nothing is acknowledged, and any other goes to the model.
pub open spec fn content_step(message: Message, chat_id: i32) -> (
    HandlerState,
    HandlerAction<Seq<char>>,
) {
    let prompt = handler_prompt(message);
    if !bot::update::is_addressed(message) {
        (HandlerState::LoggingMentions, HandlerAction::LogOtherMentions)
    } else if prompt.len() > 0 {
        (HandlerState::Generating, HandlerAction::Generate { chat_id, prompt })
    } else if message.text is Some {
        (
            HandlerState::SendingAcknowledgement { chat_id },
            HandlerAction::SendAcknowledgement(handler_acknowledgement(message)),
        )
    } else {
        (HandlerState::Finished, HandlerAction::Finish)
    }
}

/// Takes the step once a message is stored.
pub fn process_message_content(message: &Message, chat_id: i32) -> (r: (
    HandlerState,
    HandlerAction,
))
    requires
        bot::update::mentions_are_readable(*message),
    ensures
        (r.0, r.1@) == content_step(*message, chat_id),
{
    if !same_text(message.chat.chat_type.as_str(), "private") && !mentions_bot(
        &message.text,
        &message.entities,
    ) {
        return (HandlerState::LoggingMentions, HandlerAction::LogOtherMentions);
    }
    let prompt = handler_prompt_text(message);
    if !prompt.as_str().is_empty() {
        (HandlerState::Generating, HandlerAction::Generate { chat_id, prompt })
    } else if message.text.is_some() {
        (
            HandlerState::SendingAcknowledgement { chat_id },
            HandlerAction::SendAcknowledgement(acknowledge(message)),
        )
    } else {
        (HandlerState::Finished, HandlerAction::Finish)
    }
}

pub open spec fn stop_under(heading: Seq<char>) -> (HandlerState, HandlerAction<Seq<char>>) {
    (HandlerState::Finished, HandlerAction::Fail { heading: Some(heading) })
}

/// The next step in handling a message with a sender. An event that the state does not wait for
/// ends it.
pub open spec fn next_handler_step(
    message: Message,
    sender: User,
    state: HandlerState,
    event: HandlerEvent,
) -> (HandlerState, HandlerAction<Seq<char>>) {
    match (state, event) {
        (HandlerState::Start, HandlerEvent::Begin) => (
            HandlerState::StoringUser,
            HandlerAction::StoreUser,
        ),
        (HandlerState::StoringUser, HandlerEvent::Stored(user_id)) => (
            HandlerState::StoringChat { user_id },
            HandlerAction::StoreChat,
        ),
        (HandlerState::StoringUser, HandlerEvent::Failed) => stop_under(
            "upserting user (telegram_id: "@ + text::signed_decimal(sender.id as int) + ") failed"@,
        ),
        (HandlerState::StoringChat { user_id }, HandlerEvent::Stored(chat_id)) => (
            HandlerState::StoringMessage { chat_id },
            HandlerAction::StoreMessage { chat_id, user_id },
        ),
        (HandlerState::StoringChat { .. }, HandlerEvent::Failed) => stop_under(
            "upserting chat (telegram_id: "@ + text::signed_decimal(message.chat.id as int)
                + ") failed"@,
        ),
        (HandlerState::StoringMessage { .. }, HandlerEvent::Unwritable) => stop_under(
            "serializing message (id: "@ + text::signed_decimal(message.message_id as int)
                + ") to json failed"@,
        ),
        (HandlerState::StoringMessage { .. }, HandlerEvent::Failed) => stop_under(
            "inserting incoming message (id: "@ + text::signed_decimal(message.message_id as int)
                + ") failed"@,
        ),
        (HandlerState::StoringMessage { chat_id }, HandlerEvent::Done) => content_step(
            message,
            chat_id,
        ),
        (HandlerState::SendingAcknowledgement { chat_id }, HandlerEvent::Sent(message_id)) => (
            HandlerState::StoringAcknowledgement { message_id },
            HandlerAction::StoreAcknowledgement { chat_id },
        ),
        (HandlerState::SendingAcknowledgement { .. }, HandlerEvent::Failed) => stop_under(
            "failed to send acknowledgement for empty prompt"@,
        ),
        (HandlerState::StoringAcknowledgement { .. }, HandlerEvent::Unwritable) => stop_under(
            "failed to serialize bot acknowledgement message to JSON"@,
        ),
        (HandlerState::StoringAcknowledgement { message_id }, HandlerEvent::Failed) => stop_under(
            "failed to insert bot acknowledgement (id: "@ + text::signed_decimal(message_id as int)
                + ") into database"@,
        ),
        (HandlerState::Generating, HandlerEvent::Failed) => (
            HandlerState::Finished,
            HandlerAction::Fail { heading: None },
        ),
        _ => (HandlerState::Finished, HandlerAction::Finish),
    }
}

fn stop(before: &str, number: i64, after: &str) -> (r: (HandlerState, HandlerAction))
    ensures
        (r.0, r.1@) == stop_under(before@ + text::signed_decimal(number as int) + after@),
{
    let mut heading = before.to_owned();
    heading.append(signed_decimal_text(number).as_str());
    heading.append(after);
    (HandlerState::Finished, HandlerAction::Fail { heading: Some(heading) })
}

fn take_handler_step(
    message: &Message,
    sender: &User,
    state: HandlerState,
    event: HandlerEvent,
) -> (r: (HandlerState, HandlerAction))
    requires
        state is StoringMessage && event is Done ==> bot::update::mentions_are_readable(*message),
    ensures
        (r.0, r.1@) == next_handler_step(*message, *sender, state, event),
{
    match (state, event) {
        (HandlerState::Start, HandlerEvent::Begin) => (
            HandlerState::StoringUser,
            HandlerAction::StoreUser,
        ),
        (HandlerState::StoringUser, HandlerEvent::Stored(user_id)) => (
            HandlerState::StoringChat { user_id },
            HandlerAction::StoreChat,
        ),
        (HandlerState::StoringUser, HandlerEvent::Failed) => stop(
            "upserting user (telegram_id: ",
            sender.id,
            ") failed",
        ),
        (HandlerState::StoringChat { user_id }, HandlerEvent::Stored(chat_id)) => (
            HandlerState::StoringMessage { chat_id },
            HandlerAction::StoreMessage { chat_id, user_id },
        ),
        (HandlerState::StoringChat { user_id: _ }, HandlerEvent::Failed) => stop(
            "upserting chat (telegram_id: ",
            message.chat.id,
            ") failed",
        ),
        (HandlerState::StoringMessage { chat_id: _ }, HandlerEvent::Unwritable) => stop(
            "serializing message (id: ",
            message.message_id,
            ") to json failed",
        ),
        (HandlerState::StoringMessage { chat_id: _ }, HandlerEvent::Failed) => stop(
            "inserting incoming message (id: ",
            message.message_id,
            ") failed",
        ),
        (HandlerState::StoringMessage { chat_id }, HandlerEvent::Done) => process_message_content(
            message,
            chat_id,
        ),
        (HandlerState::SendingAcknowledgement { chat_id }, HandlerEvent::Sent(message_id)) => (
            HandlerState::StoringAcknowledgement { message_id },
            HandlerAction::StoreAcknowledgement { chat_id },
        ),
        (HandlerState::SendingAcknowledgement { chat_id: _ }, HandlerEvent::Failed) => (
            HandlerState::Finished,
            HandlerAction::Fail {
                heading: Some("failed to send acknowledgement for empty prompt".to_owned()),
            },
        ),
        (HandlerState::StoringAcknowledgement { message_id: _ }, HandlerEvent::Unwritable) => (
            HandlerState::Finished,
            HandlerAction::Fail {
                heading: Some("failed to serialize bot acknowledgement message to JSON".to_owned()),
            },
        ),
        (HandlerState::StoringAcknowledgement { message_id }, HandlerEvent::Failed) => stop(
            "failed to insert bot acknowledgement (id: ",
            message_id,
            ") into database",
        ),
        (HandlerState::Generating, HandlerEvent::Failed) => (
            HandlerState::Finished,
            HandlerAction::Fail { heading: None },
        ),
        _ => (HandlerState::Finished, HandlerAction::Finish),
    }
}

/// The next step in handling an update: one without a message is passed over, and so is a message
/// without a sender.
pub open spec fn next_update_step(update: Update, state: HandlerState, event: HandlerEvent) -> (
    HandlerState,
    HandlerAction<Seq<char>>,
) {
    match update.message {
        Some(message) => match message.from {
            Some(sender) => next_handler_step(message, sender, state, event),
            None => if state is Start && event is Begin {
                (HandlerState::LoggingMentions, HandlerAction::LogOtherMentions)
            } else {
                (HandlerState::Finished, HandlerAction::Finish)
            },
        },
        None => (HandlerState::Finished, HandlerAction::Finish),
    }
}

/// Takes the next step in handling an update. The mentions in a message are read once it is stored.
pub fn process_update(update: &Update, state: HandlerState, event: HandlerEvent) -> (r: (
    HandlerState,
    HandlerAction,
))
    requires
        update.message matches Some(message) ==> message.from is Some && state is StoringMessage
            && event is Done ==> bot::update::mentions_are_readable(message),
    ensures
        (r.0, r.1@) == next_update_step(*update, state, event),
{
    if let Some(message) = &update.message {
        if let Some(sender) = &message.from {
            return take_handler_step(message, sender, state, event);
        }
        if let HandlerState::Start = state {
            if let HandlerEvent::Begin = event {
                return (HandlerState::LoggingMentions, HandlerAction::LogOtherMentions);
            }
        }
    }
    (HandlerState::Finished, HandlerAction::Finish)
}

// ---------------------------------------------------------------------------------------------
// Generating a reply

/// What the first item of an answer is.
pub enum FirstOutput<S = String> {
    Text(S),
    Call(OutputFunctionCall<S>),
    Unclear,
    Empty,
}

impl View for FirstOutput {
    type V = FirstOutput<Seq<char>>;

    open spec fn view(&self) -> FirstOutput<Seq<char>> {
        match self {
            FirstOutput::Text(said) => FirstOutput::Text(said@),
            FirstOutput::Call(call) => FirstOutput::Call(call@),
            FirstOutput::Unclear => FirstOutput::Unclear,
            FirstOutput::Empty => FirstOutput::Empty,
        }
    }
}

/// What the first item of an answer is.
pub open spec fn first_output(output: Seq<OutputItem>) -> FirstOutput<Seq<char>> {
    if output.len() == 0 {
        FirstOutput::Empty
    } else {
        match output[0] {
            OutputItem::Message(message) => match types::assistant_text(message) {
                Some(said) => FirstOutput::Text(said),
                None => FirstOutput::Unclear,
            },
            OutputItem::FunctionCall(call) => FirstOutput::Call(call@),
            _ => FirstOutput::Unclear,
        }
    }
}

/// What the first item of an answer is.
pub fn read_first_output(output: &Vec<OutputItem>) -> (r: FirstOutput)
    ensures
        r@ == first_output(output@),
{
    if output.len() == 0 {
        return FirstOutput::Empty;
    }
    match &output[0] {
        OutputItem::Message(message) => match message.assistant_text() {
            Some(said) => FirstOutput::Text(said.clone()),
            None => FirstOutput::Unclear,
        },
        OutputItem::FunctionCall(call) => FirstOutput::Call(call.clone()),
        OutputItem::Reasoning(_) => FirstOutput::Unclear,
        OutputItem::WebSearchCall(_) => FirstOutput::Unclear,
    }
}

/// How far the generation of a reply has come.
pub enum Generation<S = String> {
    Asking,
    Querying { call: OutputFunctionCall<S>, response_id: S },
    AskingAgain,
    Finished,
}

/// What happened since: the model answered, a query was run, or the model could not be asked.
pub enum GenerationEvent<S = String, R = Vec<Vec<Column>>> {
    Answered { response_id: S, first: FirstOutput<S> },
    QueryRun(Result<R, S>),
    Failed,
}

/// What an event says.
pub type GenerationEventView = GenerationEvent<Seq<char>, Seq<Vec<Column>>>;

/// What is to be done next.
pub enum GenerationAction<S = String> {
    RunQuery(S),
    /// The model is asked again, with the output of the call.
    AskAgain { call: OutputFunctionCall<S>, response_id: S, output: S },
    /// The reply is sent.
    Reply { text: S, response_id: S },
    /// The reply is sent, and then the error is reported, whatever came of sending.
    ReplyAndFail { text: S, response_id: S },
    Finish,
}

impl View for Generation {
    type V = Generation<Seq<char>>;

    open spec fn view(&self) -> Generation<Seq<char>> {
        match self {
            Generation::Asking => Generation::Asking,
            Generation::Querying { call, response_id } => Generation::Querying {
                call: call@,
                response_id: response_id@,
            },
            Generation::AskingAgain => Generation::AskingAgain,
            Generation::Finished => Generation::Finished,
        }
    }
}

impl View for GenerationEvent {
    type V = GenerationEventView;

    open spec fn view(&self) -> GenerationEventView {
        match self {
            GenerationEvent::Answered { response_id, first } => GenerationEvent::Answered {
                response_id: response_id@,
                first: first@,
            },
            GenerationEvent::QueryRun(answer) => GenerationEvent::QueryRun(
                sql_select::answer_view(*answer),
            ),
            GenerationEvent::Failed => GenerationEvent::Failed,
        }
    }
}

impl View for GenerationAction {
    type V = GenerationAction<Seq<char>>;

    open spec fn view(&self) -> GenerationAction<Seq<char>> {
        match self {
            GenerationAction::RunQuery(query) => GenerationAction::RunQuery(query@),
            GenerationAction::AskAgain {
                call,
                response_id,
                output,
            } => GenerationAction::AskAgain {
                call: call@,
                response_id: response_id@,
                output: output@,
            },
            GenerationAction::Reply { text, response_id } => GenerationAction::Reply {
                text: text@,
                response_id: response_id@,
            },
            GenerationAction::ReplyAndFail { text, response_id } => GenerationAction::ReplyAndFail {
                text: text@,
                response_id: response_id@,
            },
            GenerationAction::Finish => GenerationAction::Finish,
        }
    }
}

/// The response that the next message goes on from after a failure: the one before, if any.
pub open spec fn kept_response(previous: Option<Seq<char>>, otherwise: Seq<char>) -> Seq<char> {
    match previous {
        Some(id) => id,
        None => otherwise,
    }
}

/// The step where the tool or the second answer failed.
pub open spec fn apology(previous: Option<Seq<char>>, error: Seq<char>) -> (
    Generation<Seq<char>>,
    GenerationAction<Seq<char>>,
) {
    (
        Generation::Finished,
        GenerationAction::ReplyAndFail {
            text: "sorry, an error occurred while processing your request with ai tools: "@ + error,
            response_id: kept_response(previous, "error_no_id_processing"@),
        },
    )
}

/// The step once the model has answered first.
pub open spec fn first_answer_step(
    previous: Option<Seq<char>>,
    response_id: Seq<char>,
    first: FirstOutput<Seq<char>>,
) -> (Generation<Seq<char>>, GenerationAction<Seq<char>>) {
    match first {
        FirstOutput::Text(text) => (
            Generation::Finished,
            GenerationAction::Reply { text, response_id },
        ),
        FirstOutput::Unclear => (
            Generation::Finished,
            GenerationAction::Reply {
                text: "i received a response from the ai, but couldn't understand it fully."@,
                response_id,
            },
        ),
        FirstOutput::Empty => (
            Generation::Finished,
            GenerationAction::Reply {
                text: "i received an empty response from the ai."@,
                response_id,
            },
        ),
        FirstOutput::Call(call) => if call.name == "execute_sql_query"@ {
            match execute_sql_query::step_of_call(call) {
                Ok(QueryVerdict::Run(query)) => (
                    Generation::Querying { call, response_id },
                    GenerationAction::RunQuery(query),
                ),
                Ok(QueryVerdict::Refuse(output)) => (
                    Generation::AskingAgain,
                    GenerationAction::AskAgain { call, response_id, output },
                ),
                Err(error) => apology(previous, error),
            }
        } else {
            (
                Generation::Finished,
                GenerationAction::Reply {
                    text: "i tried to use an unexpected tool: "@ + call.name
                        + ". something went wrong."@,
                    response_id,
                },
            )
        },
    }
}

fn kept_response_id(previous: Option<&str>, otherwise: &str) -> (r: String)
    ensures
        r@ == kept_response(text::slice_view(previous), otherwise@),
{
    match previous {
        Some(id) => id.to_owned(),
        None => otherwise.to_owned(),
    }
}

fn apologize(previous: Option<&str>, error: &str) -> (r: (Generation, GenerationAction))
    ensures
        (r.0@, r.1@) == apology(text::slice_view(previous), error@),
{
    let mut text =
        "sorry, an error occurred while processing your request with ai tools: ".to_owned();
    text.append(error);
    (
        Generation::Finished,
        GenerationAction::ReplyAndFail {
            text,
            response_id: kept_response_id(previous, "error_no_id_processing"),
        },
    )
}

/// Takes the step once the model has answered first: its text is the reply, and a call of the tool
/// is followed.
pub fn process_openai_response(
    previous: Option<&str>,
    response_id: String,
    first: FirstOutput,
) -> (r: (Generation, GenerationAction))
    ensures
        (r.0@, r.1@) == first_answer_step(text::slice_view(previous), response_id@, first@),
{
    match first {
        FirstOutput::Text(text) => (
            Generation::Finished,
            GenerationAction::Reply { text, response_id },
        ),
        FirstOutput::Unclear => (
            Generation::Finished,
            GenerationAction::Reply {
                text:
                    "i received a response from the ai, but couldn't understand it fully.".to_owned(),
                response_id,
            },
        ),
        FirstOutput::Empty => (
            Generation::Finished,
            GenerationAction::Reply {
                text: "i received an empty response from the ai.".to_owned(),
                response_id,
            },
        ),
        FirstOutput::Call(call) => {
            if same_text(call.name.as_str(), SQL_TOOL_NAME) {
                match handle_execute_sql_query_tool_call(&call) {
                    Ok(QueryVerdict::Run(query)) => (
                        Generation::Querying { call, response_id },
                        GenerationAction::RunQuery(query),
                    ),
                    Ok(QueryVerdict::Refuse(output)) => (
                        Generation::AskingAgain,
                        GenerationAction::AskAgain { call, response_id, output },
                    ),
                    Err(error) => apologize(previous, error.as_str()),
                }
            } else {
                let mut text = "i tried to use an unexpected tool: ".to_owned();
                text.append(call.name.as_str());
                text.append(". something went wrong.");
                (Generation::Finished, GenerationAction::Reply { text, response_id })
            }
        },
    }
}

/// The text that an answer leads with.
pub open spec fn said_first(first: FirstOutput<Seq<char>>) -> Option<Seq<char>> {
    match first {
        FirstOutput::Text(said) => Some(said),
        _ => None,
    }
}

/// The next step in generating a reply. An event that the state does not wait for ends it.
pub open spec fn next_generation(
    previous: Option<Seq<char>>,
    state: Generation<Seq<char>>,
    event: GenerationEventView,
) -> (Generation<Seq<char>>, GenerationAction<Seq<char>>) {
    match (state, event) {
        (Generation::Asking, GenerationEvent::Answered { response_id, first }) => first_answer_step(
            previous,
            response_id,
            first,
        ),
        (Generation::Asking, GenerationEvent::Failed) => (
            Generation::Finished,
            GenerationAction::ReplyAndFail {
                text: "sorry, i encountered an issue calling the ai service."@,
                response_id: kept_response(previous, "error_no_id_initial_call"@),
            },
        ),
        (Generation::Querying { call, response_id }, GenerationEvent::QueryRun(answer)) => (
            Generation::AskingAgain,
            GenerationAction::AskAgain {
                call,
                response_id,
                output: json::json_text(sql_select::results_json(answer)),
            },
        ),
        (Generation::AskingAgain, GenerationEvent::Answered { response_id, first }) => (
            Generation::Finished,
            GenerationAction::Reply {
                text: execute_sql_query::summary(said_first(first)),
                response_id,
            },
        ),
        (Generation::AskingAgain, GenerationEvent::Failed) => apology(
            previous,
            "tool call step 2 api call failed"@,
        ),
        _ => (Generation::Finished, GenerationAction::Finish),
    }
}

/// Takes the next step in generating a reply: the model is asked, a query that it calls for is run,
/// and it is asked again with what that gave. A failure is told to the user before it is reported.
pub fn generate_and_send_ai_reply(
    previous: Option<&str>,
    state: Generation,
    event: GenerationEvent,
) -> (r: (Generation, GenerationAction))
    ensures
        (r.0@, r.1@) == next_generation(text::slice_view(previous), state@, event@),
{
    match (state, event) {
        (Generation::Asking, GenerationEvent::Answered { response_id, first }) => {
            process_openai_response(previous, response_id, first)
        },
        (Generation::Asking, GenerationEvent::Failed) => (
            Generation::Finished,
            GenerationAction::ReplyAndFail {
                text: "sorry, i encountered an issue calling the ai service.".to_owned(),
                response_id: kept_response_id(previous, "error_no_id_initial_call"),
            },
        ),
        (Generation::Querying { call, response_id }, GenerationEvent::QueryRun(answer)) => (
            Generation::AskingAgain,
            GenerationAction::AskAgain {
                call,
                response_id,
                output: to_text(&execute_db_query(&answer)),
            },
        ),
        (Generation::AskingAgain, GenerationEvent::Answered { response_id, first }) => {
            let said = match first {
                FirstOutput::Text(text) => Some(text),
                _ => None,
            };
            (
                Generation::Finished,
                GenerationAction::Reply { text: final_summary(said), response_id },
            )
        },
        (Generation::AskingAgain, GenerationEvent::Failed) => apologize(
            previous,
            "tool call step 2 api call failed",
        ),
        _ => (Generation::Finished, GenerationAction::Finish),
    }
}

/// The next step in sending a reply: the response it came from is stored, whatever it is.
pub open spec fn next_sending_step(
    telegram_chat_id: i64,
    response_id: Seq<char>,
    state: ReplyState,
    event: ReplyEvent,
) -> (ReplyState, ReplyAction<Seq<char>>) {
    let (next, action) = reply::next_reply_step(telegram_chat_id, None, state, event);
    if action is ClearResponse {
        (next, ReplyAction::StoreResponse(response_id))
    } else {
        (next, action)
    }
}

/// Takes the next step in sending a reply.
pub fn send_reply_and_update_state(
    telegram_chat_id: i64,
    response_id_to_store: &str,
    state: ReplyState,
    event: ReplyEvent,
) -> (r: (ReplyState, ReplyAction))
    ensures
        (r.0, r.1@) == next_sending_step(
            telegram_chat_id,
            response_id_to_store@,
            state,
            event,
        ),
{
    let (next, action) = reply::send_reply_and_update_state(telegram_chat_id, None, state, event);
    match action {
        ReplyAction::ClearResponse => (
            next,
            ReplyAction::StoreResponse(response_id_to_store.to_owned()),
        ),
        other => (next, other),
    }
}

// ---------------------------------------------------------------------------------------------
// Laws

/// Nothing is said before the message is stored.
pub proof fn law_handler_stores_first(update: Update, state: HandlerState, event: HandlerEvent)
    ensures
        ({
            let (next, action) = next_update_step(update, state, event);
            action is SendAcknowledgement || action is Generate ==> state is StoringMessage && event
                is Done
        }),
{
}

/// Only a SELECT is handed to the database.
pub proof fn law_only_selects_are_run(
    previous: Option<Seq<char>>,
    state: Generation<Seq<char>>,
    event: GenerationEventView,
)
    ensures
        ({
            let (next, action) = next_generation(previous, state, event);
            action matches GenerationAction::RunQuery(query) ==> sql_select::is_select(query)
        }),
{
}

/// A query that is not a SELECT is refused, and the model is asked again with the refusal as what
/// its call gave.
pub proof fn law_other_queries_are_refused(
    previous: Option<Seq<char>>,
    response_id: Seq<char>,
    call: types::CallView,
    query: Seq<char>,
)
    requires
        call.name == "execute_sql_query"@,
        execute_sql_query::query_of_call(call) == Ok::<Seq<char>, Seq<char>>(query),
        !sql_select::is_select(query),
    ensures
        next_generation(
            previous,
            Generation::Asking,
            (GenerationEvent::Answered { response_id, first: FirstOutput::Call(call) }),
        ) == (
            Generation::<Seq<char>>::AskingAgain,
            (GenerationAction::AskAgain {
                call,
                response_id,
                output: json::json_text(sql_select::rejected_json(query)),
            }),
        ),
{
}

/// A generation that does not end runs a query and then asks again; one that ends has a reply,
/// unless the event was not waited for. So the user is always told something.
pub proof fn law_user_is_told(
    previous: Option<Seq<char>>,
    state: Generation<Seq<char>>,
    event: GenerationEventView,
)
    requires
        match state {
            Generation::Asking => event is Answered || event is Failed,
            Generation::Querying { .. } => event is QueryRun,
            Generation::AskingAgain => event is Answered || event is Failed,
            Generation::Finished => false,
        },
    ensures
        ({
            let (next, action) = next_generation(previous, state, event);
            if next is Finished {
                action is Reply || action is ReplyAndFail
            } else {
                action is RunQuery || action is AskAgain
            }
        }),
{
}

/// An update is stored from its sender to its message, each under the numbers that the database
/// gave the former ones. A message that is meant for the bot then goes to the model with what it
/// says, or is acknowledged where it says nothing; of any other the mentions are logged.
pub proof fn law_updates_are_stored_and_taken_up(update: Update, user_id: i32, chat_id: i32)
    requires
        update.message matches Some(message) && message.from is Some,
    ensures
        ({
            let message = update.message->0;
            let (s1, a1) = next_update_step(update, HandlerState::Start, HandlerEvent::Begin);
            let (s2, a2) = next_update_step(update, s1, HandlerEvent::Stored(user_id));
            let (s3, a3) = next_update_step(update, s2, HandlerEvent::Stored(chat_id));
            let (s4, a4) = next_update_step(update, s3, HandlerEvent::Done);
            let prompt = handler_prompt(message);
            let addressed = message.chat.chat_type@ == "private"@ || bot::mentioned(
                text::text_view(message.text),
                bot::entities_view(message.entities),
            );
            let how = if message.chat.chat_type@ == "private"@ {
                "messaged"@
            } else {
                "mentioned"@
            };
            let greeting = "Hi "@ + message.from->0.first_name@ + "! You "@ + how
                + " me, but your message seemed empty after processing. What can I help you with?"@;
            &&& a1 == HandlerAction::<Seq<char>>::StoreUser
            &&& a2 == HandlerAction::<Seq<char>>::StoreChat
            &&& a3 == (HandlerAction::<Seq<char>>::StoreMessage { chat_id, user_id })
            &&& if !addressed {
                a4 == HandlerAction::<Seq<char>>::LogOtherMentions && s4
                    == HandlerState::LoggingMentions
            } else if prompt.len() > 0 {
                a4 == (HandlerAction::Generate { chat_id, prompt }) && s4
                    == HandlerState::Generating
            } else if message.text is Some {
                a4 == HandlerAction::SendAcknowledgement(greeting) && s4
                    == (HandlerState::SendingAcknowledgement { chat_id })
            } else {
                a4 == HandlerAction::<Seq<char>>::Finish
            }
        }),
{
}

/// What a private message says is its text. Elsewhere it is the text without the mention of the bot
/// and the white space at its ends, or the text as it is where the bot is not mentioned.
pub proof fn law_prompts_are_what_is_said(message: Message)
    ensures
        message.text matches Some(t) ==> {
            &&& message.chat.chat_type@ == "private"@ ==> handler_prompt(message) == t@
            &&& message.chat.chat_type@ != "private"@ ==> handler_prompt(message)
                == trimmed_prompt(t@, bot::entities_view(message.entities))
        },
        message.text is None ==> handler_prompt(message).len() == 0,
{
    reveal_strlit("");
}

/// The mention of the bot is taken out of the text, and nothing else but the white space that is
/// then at its ends.
pub proof fn law_the_mention_is_taken_out(
    a: Seq<char>,
    part: Seq<char>,
    b: Seq<char>,
    entities: Seq<MessageEntity>,
    i: int,
)
    requires
        0 <= i < entities.len(),
        entities[i].offset == text::byte_len(a),
        entities[i].length == text::byte_len(part),
        entities[i].entity_type@ == "mention"@,
        text::same_ignoring_case(part, "@lexi_alex_bot"@),
        forall|j: int| 0 <= j < i ==> !bot::names_bot(a + part + b, #[trigger] entities[j]),
        forall|k: int| 0 <= k < a.len() ==> !#[trigger] text::occurs_at(a + part + b, part, k),
        !text::contains_text(b, part),
    ensures
        trimmed_prompt(a + part + b, Some(entities)) == text::trim(a + b),
{
    let whole = a + part + b;
    bot::law_the_bot_is_named_by_its_user_name(a, part, b, entities[i]);
    bot::law_the_first_mention_is_found(whole, entities, i);
    reveal_strlit("@lexi_alex_bot");
    assert(part.len() == text::ascii_lower_text(part).len());
    assert(text::ascii_lower_text("@lexi_alex_bot"@).len() == 14);
    text::law_each_occurrence_is_replaced(a, b, part, seq![]);
    text::law_replacing_what_is_not_there_changes_nothing(b, part, seq![]);
    assert(a + Seq::<char>::empty() + b =~= a + b);
}

/// A text without a mention of the bot stays as it is.
pub proof fn law_other_texts_stay_as_they_are(text: Seq<char>, entities: Seq<MessageEntity>)
    requires
        forall|i: int| 0 <= i < entities.len() ==> !bot::names_bot(text, #[trigger] entities[i]),
    ensures
        trimmed_prompt(text, Some(entities)) == text,
        trimmed_prompt(text, None) == text,
{
    bot::lemma_first_mention(text, entities);
}

/// An acknowledgement that was sent is stored in its chat. What fails is reported under a heading
/// that says what it was, with its number where it has one; a reply that failed has its own.
pub proof fn law_failures_are_reported(
    update: Update,
    user_id: i32,
    chat_id: i32,
    message_id: i64,
)
    requires
        update.message matches Some(message) && message.from is Some,
    ensures
        ({
            let message = update.message->0;
            let fails = |state: HandlerState, event: HandlerEvent, heading: Seq<char>|
                next_update_step(update, state, event) == (
                    HandlerState::Finished,
                    HandlerAction::Fail { heading: Some(heading) },
                );
            &&& fails(
                HandlerState::StoringUser,
                HandlerEvent::Failed,
                "upserting user (telegram_id: "@ + text::signed_decimal(message.from->0.id as int)
                    + ") failed"@,
            )
            &&& fails(
                HandlerState::StoringChat { user_id },
                HandlerEvent::Failed,
                "upserting chat (telegram_id: "@ + text::signed_decimal(message.chat.id as int)
                    + ") failed"@,
            )
            &&& fails(
                HandlerState::StoringMessage { chat_id },
                HandlerEvent::Unwritable,
                "serializing message (id: "@ + text::signed_decimal(message.message_id as int)
                    + ") to json failed"@,
            )
            &&& fails(
                HandlerState::StoringMessage { chat_id },
                HandlerEvent::Failed,
                "inserting incoming message (id: "@ + text::signed_decimal(
                    message.message_id as int,
                ) + ") failed"@,
            )
            &&& fails(
                HandlerState::SendingAcknowledgement { chat_id },
                HandlerEvent::Failed,
                "failed to send acknowledgement for empty prompt"@,
            )
            &&& fails(
                HandlerState::StoringAcknowledgement { message_id },
                HandlerEvent::Unwritable,
                "failed to serialize bot acknowledgement message to JSON"@,
            )
            &&& fails(
                HandlerState::StoringAcknowledgement { message_id },
                HandlerEvent::Failed,
                "failed to insert bot acknowledgement (id: "@ + text::signed_decimal(
                    message_id as int,
                ) + ") into database"@,
            )
            &&& next_update_step(
                update,
                HandlerState::SendingAcknowledgement { chat_id },
                HandlerEvent::Sent(message_id),
            ) == (
                HandlerState::StoringAcknowledgement { message_id },
                HandlerAction::<Seq<char>>::StoreAcknowledgement { chat_id },
            )
            &&& next_update_step(update, HandlerState::Generating, HandlerEvent::Failed).1
                == (HandlerAction::Fail { heading: None::<Seq<char>> })
        }),
{
}

/// An update without a message is passed over, and of one without a sender only the mentions are
/// logged.
pub proof fn law_updates_without_a_sender_are_not_answered(
    update: Update,
    state: HandlerState,
    event: HandlerEvent,
)
    ensures
        update.message is None ==> next_update_step(update, state, event).1 == HandlerAction::<
            Seq<char>,
        >::Finish,
        update.message matches Some(message) ==> message.from is None ==> next_update_step(
            update,
            state,
            event,
        ).1 == if state is Start && event is Begin {
            HandlerAction::<Seq<char>>::LogOtherMentions
        } else {
            HandlerAction::<Seq<char>>::Finish
        },
{
}

/// An answer is judged by its first item: the assistant's text, a call, something else, or nothing.
pub proof fn law_the_first_item_decides(output: Seq<OutputItem>)
    ensures
        first_output(seq![]) == FirstOutput::<Seq<char>>::Empty,
        output.len() > 0 ==> first_output(output) == match output[0] {
            OutputItem::Message(m) => if m.role@ == "assistant"@ && m.content@.len() > 0
                && m.content@[0].kind@ == "output_text"@ {
                FirstOutput::Text(m.content@[0].text@)
            } else {
                FirstOutput::Unclear
            },
            OutputItem::FunctionCall(call) => FirstOutput::Call(call@),
            _ => FirstOutput::Unclear,
        },
{
}

/// What the model says first is the reply, with its response. A SELECT that it calls for is run, and
/// what that gave goes back to the model under the call; what the model says then is the reply.
pub proof fn law_answers_are_followed(
    previous: Option<Seq<char>>,
    response_id: Seq<char>,
    said: Seq<char>,
    call: types::CallView,
    query: Seq<char>,
    answer: Result<Seq<Vec<Column>>, Seq<char>>,
    last_id: Seq<char>,
)
    requires
        call.name == "execute_sql_query"@,
        execute_sql_query::query_of_call(call) == Ok::<Seq<char>, Seq<char>>(query),
        sql_select::is_select(query),
    ensures
        ({
            let asking = Generation::<Seq<char>>::Asking;
            let text = FirstOutput::Text(said);
            let (s1, a1) = next_generation(
                previous,
                asking,
                GenerationEvent::Answered { response_id, first: FirstOutput::Call(call) },
            );
            let (s2, a2) = next_generation(previous, s1, GenerationEvent::QueryRun(answer));
            let (s3, a3) = next_generation(
                previous,
                s2,
                GenerationEvent::Answered { response_id: last_id, first: text },
            );
            &&& next_generation(
                previous,
                asking,
                GenerationEvent::Answered { response_id, first: text },
            ).1 == (GenerationAction::Reply { text: said, response_id })
            &&& a1 == GenerationAction::RunQuery(query)
            &&& a2 == (GenerationAction::AskAgain {
                call,
                response_id,
                output: json::json_text(sql_select::results_json(answer)),
            })
            &&& a3 == (GenerationAction::Reply { text: said, response_id: last_id })
        }),
{
}

/// An answer that cannot be followed is told as such: one that is unclear, one that is empty, and
/// one that calls for a tool that there is not.
pub proof fn law_unclear_answers_are_told(
    previous: Option<Seq<char>>,
    response_id: Seq<char>,
    call: types::CallView,
    last_id: Seq<char>,
)
    ensures
        ({
            let after = |first: FirstOutput<Seq<char>>|
                next_generation(
                    previous,
                    Generation::Asking,
                    GenerationEvent::Answered { response_id, first },
                ).1;
            &&& after(FirstOutput::Unclear) == (GenerationAction::Reply {
                text: "i received a response from the ai, but couldn't understand it fully."@,
                response_id,
            })
            &&& after(FirstOutput::Empty) == (GenerationAction::Reply {
                text: "i received an empty response from the ai."@,
                response_id,
            })
            &&& call.name != "execute_sql_query"@ ==> after(FirstOutput::Call(call))
                == (GenerationAction::Reply {
                text: "i tried to use an unexpected tool: "@ + call.name
                    + ". something went wrong."@,
                response_id,
            })
            &&& forall|first: FirstOutput<Seq<char>>|
                !(first is Text) ==> #[trigger] next_generation(
                    previous,
                    Generation::AskingAgain,
                    GenerationEvent::Answered { response_id: last_id, first },
                ).1 == (GenerationAction::Reply {
                    text:
                        "i processed the database query but couldn't form a final summary in the expected format."@,
                    response_id: last_id,
                })
        }),
{
}

/// A failure is told to the user before it is reported, and the next message goes on from the
/// response before it, where there is one.
pub proof fn law_failures_are_told(
    previous: Option<Seq<char>>,
    response_id: Seq<char>,
    call: types::CallView,
    error: Seq<char>,
)
    ensures
        ({
            let kept = |otherwise: Seq<char>|
                match previous {
                    Some(id) => id,
                    None => otherwise,
                };
            let sorry =
                "sorry, an error occurred while processing your request with ai tools: "@;
            &&& next_generation(previous, Generation::Asking, GenerationEvent::Failed).1
                == (GenerationAction::ReplyAndFail {
                text: "sorry, i encountered an issue calling the ai service."@,
                response_id: kept("error_no_id_initial_call"@),
            })
            &&& next_generation(previous, Generation::AskingAgain, GenerationEvent::Failed).1
                == (GenerationAction::ReplyAndFail {
                text: sorry + "tool call step 2 api call failed"@,
                response_id: kept("error_no_id_processing"@),
            })
            &&& call.name == "execute_sql_query"@ && execute_sql_query::query_of_call(call)
                == Err::<Seq<char>, Seq<char>>(error) ==> next_generation(
                previous,
                Generation::Asking,
                GenerationEvent::Answered { response_id, first: FirstOutput::Call(call) },
            ).1 == (GenerationAction::ReplyAndFail {
                text: sorry + error,
                response_id: kept("error_no_id_processing"@),
            })
        }),
{
}

/// A reply is sent, then stored, and then the response that it came from is remembered, whatever it
/// is.
pub proof fn law_replies_are_sent_stored_and_remembered(
    telegram_chat_id: i64,
    response_id: Seq<char>,
    message_id: i64,
)
    ensures
        ({
            let (s1, a1) = next_sending_step(
                telegram_chat_id,
                response_id,
                ReplyState::Start,
                ReplyEvent::Begin,
            );
            let (s2, a2) = next_sending_step(
                telegram_chat_id,
                response_id,
                s1,
                ReplyEvent::Sent { message_id },
            );
            let (s3, a3) = next_sending_step(telegram_chat_id, response_id, s2, ReplyEvent::Done);
            &&& a1 == ReplyAction::<Seq<char>>::Send
            &&& a2 == ReplyAction::<Seq<char>>::StoreMessage
            &&& a3 == ReplyAction::StoreResponse(response_id)
        }),
{
}

/// The first request offers the one tool, instructs the model, and follows on the response before
/// it, where there is one.
pub proof fn law_the_first_request_offers_the_tool(previous_response_id: Option<Seq<char>>)
    ensures
        ({
            let args = first_request_args(previous_response_id);
            &&& args.model_id == "gpt-4.1-nano"@
            &&& args.previous_response_id == previous_response_id
            &&& args.instructions == Some(INSTRUCTIONS@)
            &&& args.tools matches Some(tools) && tools.len() == 1 && (
            tools[0] matches types::ApiToolView::Function(f) && f.name == "execute_sql_query"@)
        }),
{
}

/// What stands for an action of the handling, or for the first item of an answer, keeps every part
/// of it.
pub proof fn law_views_keep_every_part(
    chat_id: i32,
    user_id: i32,
    s: String,
    option: Option<String>,
    call: OutputFunctionCall,
)
    ensures
        HandlerAction::<String>::StoreUser@ == HandlerAction::<Seq<char>>::StoreUser,
        HandlerAction::<String>::StoreChat@ == HandlerAction::<Seq<char>>::StoreChat,
        (HandlerAction::<String>::StoreMessage { chat_id, user_id })@ == (HandlerAction::<
            Seq<char>,
        >::StoreMessage { chat_id, user_id }),
        HandlerAction::SendAcknowledgement(s)@ == HandlerAction::SendAcknowledgement(s@),
        (HandlerAction::<String>::StoreAcknowledgement { chat_id })@ == (HandlerAction::<
            Seq<char>,
        >::StoreAcknowledgement { chat_id }),
        (HandlerAction::Generate { chat_id, prompt: s })@ == (HandlerAction::Generate {
            chat_id,
            prompt: s@,
        }),
        HandlerAction::<String>::LogOtherMentions@ == HandlerAction::<Seq<char>>::LogOtherMentions,
        HandlerAction::<String>::Finish@ == HandlerAction::<Seq<char>>::Finish,
        (HandlerAction::Fail { heading: option })@ == (HandlerAction::Fail {
            heading: text::text_view(option),
        }),
        FirstOutput::Text(s)@ == FirstOutput::Text(s@),
        FirstOutput::Call(call)@ == FirstOutput::Call(call@),
        FirstOutput::<String>::Unclear@ == FirstOutput::<Seq<char>>::Unclear,
        FirstOutput::<String>::Empty@ == FirstOutput::<Seq<char>>::Empty,
{
}

/// What stands for the generation of a reply, for what happened since or for what is to be done
/// keeps every part of it.
pub proof fn law_views_of_generation_keep_every_part(
    call: OutputFunctionCall,
    id: String,
    s: String,
    first: FirstOutput,
    answer: Result<Vec<Vec<Column>>, String>,
)
    ensures
        Generation::<String>::Asking@ == Generation::<Seq<char>>::Asking,
        (Generation::Querying { call, response_id: id })@ == (Generation::Querying {
            call: call@,
            response_id: id@,
        }),
        Generation::<String>::AskingAgain@ == Generation::<Seq<char>>::AskingAgain,
        Generation::<String>::Finished@ == Generation::<Seq<char>>::Finished,
        (GenerationEvent::<String>::Answered { response_id: id, first })@
            == (GenerationEventView::Answered { response_id: id@, first: first@ }),
        GenerationEvent::<String>::QueryRun(answer)@ == GenerationEventView::QueryRun(
            sql_select::answer_view(answer),
        ),
        GenerationEvent::<String>::Failed@ == GenerationEventView::Failed,
        GenerationAction::RunQuery(s)@ == GenerationAction::RunQuery(s@),
        (GenerationAction::AskAgain { call, response_id: id, output: s })@
            == (GenerationAction::AskAgain { call: call@, response_id: id@, output: s@ }),
        (GenerationAction::Reply { text: s, response_id: id })@ == (GenerationAction::Reply {
            text: s@,
            response_id: id@,
        }),
        (GenerationAction::ReplyAndFail { text: s, response_id: id })@
            == (GenerationAction::ReplyAndFail { text: s@, response_id: id@ }),
        GenerationAction::<String>::Finish@ == GenerationAction::<Seq<char>>::Finish,
{
}

/// A message that is meant for the bot and says nothing is acknowledged to its sender, by first name
/// where there is one; one without a text is passed over.
pub proof fn law_empty_messages_are_acknowledged(message: Message, chat_id: i32)
    requires
        bot::update::is_addressed(message),
        handler_prompt(message).len() == 0,
    ensures
        ({
            let name = match message.from {
                Some(user) => user.first_name@,
                None => "there"@,
            };
            let how = if message.chat.chat_type@ == "private"@ {
                "messaged"@
            } else {
                "mentioned"@
            };
            if message.text is Some {
                content_step(message, chat_id) == (
                    HandlerState::SendingAcknowledgement { chat_id },
                    HandlerAction::SendAcknowledgement(
                        "Hi "@ + name + "! You "@ + how
                            + " me, but your message seemed empty after processing. What can I help you with?"@,
                    ),
                )
            } else {
                content_step(message, chat_id) == (
                    HandlerState::Finished,
                    HandlerAction::<Seq<char>>::Finish,
                )
            }
        }),
{
}

} // verus!
