//! Handling an update, step by step: each step says what is to be done next, and takes what came
//! of it.

use super::proactive;
use super::proactive::maybe_schedule_proactive_slot_check;
use super::{can_read_mentions, extract_prompt_from_mention, mentions_bot, strip_admin_code};
use crate::ai_interaction::admin_session::AdminSessionState;
use crate::ai_interaction::AiConversationOutcome;
use crate::json;
use crate::json::{get_text, parse};
use crate::openai_api::types::copy_option;
use crate::telegram::types::{Message, MessageEntity, Update, User};
use crate::text;
use crate::text::{same_text, signed_decimal_text};
use vstd::prelude::*;

verus! {

// ---------------------------------------------------------------------------------------------
// The message

/// Whether a message came in a private chat.
pub open spec fn is_private(message: Message) -> bool {
    message.chat.chat_type@ == "private"@
}

/// Whether a message is meant for the bot.
pub open spec fn is_addressed(message: Message) -> bool {
    is_private(message) || super::mentioned(
        text::text_view(message.text),
        super::entities_view(message.entities),
    )
}

/// What a message says to the bot.
pub open spec fn prompt_of(message: Message) -> Seq<char> {
    match message.text {
        Some(t) => if is_private(message) {
            t@
        } else {
            super::prompt_in(t@, super::entities_view(message.entities))
        },
        None => ""@,
    }
}

/// Whether the mentions in a message mark parts of its text, as far as they are read: in a private
/// chat none is, and elsewhere they are up to the first one of the bot.
pub open spec fn mentions_are_readable(message: Message) -> bool {
    match (message.text, message.entities) {
        (Some(t), Some(list)) => is_private(message) || super::readable(t@, list@),
        _ => true,
    }
}

/// Whether the mentions in a message mark parts of its text, as far as they are read.
pub fn mentions_can_be_read(message: &Message) -> (r: bool)
    ensures
        r == mentions_are_readable(*message),
{
    if let Some(t) = &message.text {
        if let Some(list) = &message.entities {
            return same_text(message.chat.chat_type.as_str(), "private") || can_read_mentions(
                t.as_str(),
                list,
            );
        }
    }
    true
}

/// Where the bot is not addressed, each mention in the message can be read, as logging them asks
/// for.
pub proof fn law_other_mentions_can_be_logged(message: Message)
    requires
        mentions_are_readable(message),
        !is_addressed(message),
    ensures
        super::can_be_logged(message),
{
    if let (Some(t), Some(list)) = (message.text, message.entities) {
        lemma_all_are_read(t@, list@);
    }
}

proof fn lemma_all_are_read(text: Seq<char>, entities: Seq<MessageEntity>)
    requires
        super::readable(text, entities),
        !super::mentioned_in(text, entities),
    ensures
        super::all_readable(text, entities),
    decreases entities.len(),
{
    if entities.len() > 0 {
        let rest = entities.drop_first();
        assert(!super::names_bot(text, entities[0]));
        assert(!super::mentioned_in(text, rest)) by {
            if super::mentioned_in(text, rest) {
                let i = choose|i: int|
                    0 <= i < rest.len() && super::names_bot(text, #[trigger] rest[i]);
                assert(super::names_bot(text, entities[i + 1]));
            }
        }
        lemma_all_are_read(text, rest);
        assert forall|i: int|
            0 <= i < entities.len() && super::is_mention(#[trigger] entities[i]) implies super::marks(
            text,
            entities[i],
        ) by {
            if i > 0 {
                assert(entities[i] == rest[i - 1]);
            }
        }
    }
}

// ---------------------------------------------------------------------------------------------
// The steps

/// What a confirmation is of.
#[derive(Debug, Clone, Copy, PartialEq, Eq, Structural)]
pub enum Confirmed {
    Model,
    Verbosity,
    ReasoningEffort,
    SessionEnd,
}

/// How far the handling of an update has come. `chat_id` is the chat's number in the database.
pub enum UpdateState<S = String> {
    Start,
    StoringUser,
    StoringChat { user_id: i32 },
    StoringMessage { chat_id: i32 },
    SchedulingCheck { chat_id: i32 },
    ReadingResponse { chat_id: i32 },
    ReadingSession { chat_id: i32, previous: Option<S> },
    StartingSession { chat_id: i32, previous: Option<S> },
    Acknowledging,
    Conversing { chat_id: i32 },
    Replying,
    ConfirmingReset { chat_id: i32 },
    ForgettingResponse,
    Changing { message: S, confirmed: Confirmed },
    Confirming { confirmed: Confirmed },
    ReadingEndedSession { chat_id: i32, message: S },
    RestoringResponse { chat_id: i32, message: S },
    EndingSession { message: S },
    Apologizing,
    LoggingMentions,
    Finished,
}

/// What was read of an admin session.
pub enum SessionRead<S = String> {
    Unreadable,
    Missing,
    Found { active: bool, last_response_before: Option<S> },
}

/// What happened since the last step.
pub enum UpdateEvent<S = String> {
    Begin,
    /// A row was stored, under this number.
    Stored(i32),
    /// The message could not be written as JSON.
    Unwritable,
    ResponseRead(Option<S>),
    SessionRead(SessionRead<S>),
    Concluded(AiConversationOutcome<S>),
    Done,
    Failed(S),
}

/// What is to be done next.
pub enum UpdateAction<S = String> {
    StoreUser,
    StoreChat,
    StoreMessage { chat_id: i32, user_id: i32 },
    ScheduleSlotCheck,
    ReadResponse { chat_id: i32 },
    ReadSession { chat_id: i32 },
    StartSession { chat_id: i32, last_response_before: Option<S> },
    Converse { prompt: S, previous: Option<S>, admin: bool },
    /// A final reply is sent and stored, and the response it came from is remembered.
    Reply { chat_id: i32, text: S, response_id: Option<S> },
    SetModel(S),
    SetVerbosity(S),
    SetReasoningEffort(S),
    /// A message is sent, and that is all.
    Notify(S),
    StoreResponse { chat_id: i32, response_id: S },
    ClearResponse { chat_id: i32 },
    EndSession { chat_id: i32 },
    LogOtherMentions,
    Finish,
    /// The last error is reported, under a heading where there is one.
    Fail { heading: Option<S> },
    /// The error of the conversation is reported.
    FailAsConversation,
}

pub open spec fn state_view(state: UpdateState) -> UpdateState<Seq<char>> {
    match state {
        UpdateState::Start => UpdateState::Start,
        UpdateState::StoringUser => UpdateState::StoringUser,
        UpdateState::StoringChat { user_id } => UpdateState::StoringChat { user_id },
        UpdateState::StoringMessage { chat_id } => UpdateState::StoringMessage { chat_id },
        UpdateState::SchedulingCheck { chat_id } => UpdateState::SchedulingCheck { chat_id },
        UpdateState::ReadingResponse { chat_id } => UpdateState::ReadingResponse { chat_id },
        UpdateState::ReadingSession { chat_id, previous } => UpdateState::ReadingSession {
            chat_id,
            previous: text::text_view(previous),
        },
        UpdateState::StartingSession { chat_id, previous } => UpdateState::StartingSession {
            chat_id,
            previous: text::text_view(previous),
        },
        UpdateState::Acknowledging => UpdateState::Acknowledging,
        UpdateState::Conversing { chat_id } => UpdateState::Conversing { chat_id },
        UpdateState::Replying => UpdateState::Replying,
        UpdateState::ConfirmingReset { chat_id } => UpdateState::ConfirmingReset { chat_id },
        UpdateState::ForgettingResponse => UpdateState::ForgettingResponse,
        UpdateState::Changing { message, confirmed } => UpdateState::Changing {
            message: message@,
            confirmed,
        },
        UpdateState::Confirming { confirmed } => UpdateState::Confirming { confirmed },
        UpdateState::ReadingEndedSession { chat_id, message } => UpdateState::ReadingEndedSession {
            chat_id,
            message: message@,
        },
        UpdateState::RestoringResponse { chat_id, message } => UpdateState::RestoringResponse {
            chat_id,
            message: message@,
        },
        UpdateState::EndingSession { message } => UpdateState::EndingSession { message: message@ },
        UpdateState::Apologizing => UpdateState::Apologizing,
        UpdateState::LoggingMentions => UpdateState::LoggingMentions,
        UpdateState::Finished => UpdateState::Finished,
    }
}

impl View for UpdateState {
    type V = UpdateState<Seq<char>>;

    open spec fn view(&self) -> UpdateState<Seq<char>> {
        state_view(*self)
    }
}

impl View for SessionRead {
    type V = SessionRead<Seq<char>>;

    open spec fn view(&self) -> SessionRead<Seq<char>> {
        match self {
            SessionRead::Unreadable => SessionRead::Unreadable,
            SessionRead::Missing => SessionRead::Missing,
            SessionRead::Found { active, last_response_before } => SessionRead::Found {
                active: *active,
                last_response_before: text::text_view(*last_response_before),
            },
        }
    }
}

impl View for UpdateEvent {
    type V = UpdateEvent<Seq<char>>;

    open spec fn view(&self) -> UpdateEvent<Seq<char>> {
        match self {
            UpdateEvent::Begin => UpdateEvent::Begin,
            UpdateEvent::Stored(id) => UpdateEvent::Stored(*id),
            UpdateEvent::Unwritable => UpdateEvent::Unwritable,
            UpdateEvent::ResponseRead(id) => UpdateEvent::ResponseRead(text::text_view(*id)),
            UpdateEvent::SessionRead(read) => UpdateEvent::SessionRead(read@),
            UpdateEvent::Concluded(outcome) => UpdateEvent::Concluded(outcome@),
            UpdateEvent::Done => UpdateEvent::Done,
            UpdateEvent::Failed(error) => UpdateEvent::Failed(error@),
        }
    }
}

pub open spec fn action_view(action: UpdateAction) -> UpdateAction<Seq<char>> {
    match action {
        UpdateAction::StoreUser => UpdateAction::StoreUser,
        UpdateAction::StoreChat => UpdateAction::StoreChat,
        UpdateAction::StoreMessage { chat_id, user_id } => UpdateAction::StoreMessage {
            chat_id,
            user_id,
        },
        UpdateAction::ScheduleSlotCheck => UpdateAction::ScheduleSlotCheck,
        UpdateAction::ReadResponse { chat_id } => UpdateAction::ReadResponse { chat_id },
        UpdateAction::ReadSession { chat_id } => UpdateAction::ReadSession { chat_id },
        UpdateAction::StartSession { chat_id, last_response_before } => UpdateAction::StartSession {
            chat_id,
            last_response_before: text::text_view(last_response_before),
        },
        UpdateAction::Converse { prompt, previous, admin } => UpdateAction::Converse {
            prompt: prompt@,
            previous: text::text_view(previous),
            admin,
        },
        UpdateAction::Reply { chat_id, text, response_id } => UpdateAction::Reply {
            chat_id,
            text: text@,
            response_id: text::text_view(response_id),
        },
        UpdateAction::SetModel(value) => UpdateAction::SetModel(value@),
        UpdateAction::SetVerbosity(value) => UpdateAction::SetVerbosity(value@),
        UpdateAction::SetReasoningEffort(value) => UpdateAction::SetReasoningEffort(value@),
        UpdateAction::Notify(text) => UpdateAction::Notify(text@),
        UpdateAction::StoreResponse { chat_id, response_id } => UpdateAction::StoreResponse {
            chat_id,
            response_id: response_id@,
        },
        UpdateAction::ClearResponse { chat_id } => UpdateAction::ClearResponse { chat_id },
        UpdateAction::EndSession { chat_id } => UpdateAction::EndSession { chat_id },
        UpdateAction::LogOtherMentions => UpdateAction::LogOtherMentions,
        UpdateAction::Finish => UpdateAction::Finish,
        UpdateAction::Fail { heading } => UpdateAction::Fail { heading: text::text_view(heading) },
        UpdateAction::FailAsConversation => UpdateAction::FailAsConversation,
    }
}

impl View for UpdateAction {
    type V = UpdateAction<Seq<char>>;

    open spec fn view(&self) -> UpdateAction<Seq<char>> {
        action_view(*self)
    }
}

/// What was read of an admin session, from what is stored.
pub open spec fn session_read_of(stored: Result<Option<AdminSessionState>, String>) -> SessionRead<
    Seq<char>,
> {
    match stored {
        Ok(Some(state)) => SessionRead::Found {
            active: state.active,
            last_response_before: text::text_view(state.last_response_id_before_admin),
        },
        Ok(None) => SessionRead::Missing,
        Err(_) => SessionRead::Unreadable,
    }
}

/// What was read of an admin session, from what is stored.
pub fn read_session(stored: Result<Option<AdminSessionState>, String>) -> (r: SessionRead)
    ensures
        r@ == session_read_of(stored),
{
    match stored {
        Ok(Some(state)) => SessionRead::Found {
            active: state.active,
            last_response_before: state.last_response_id_before_admin,
        },
        Ok(None) => SessionRead::Missing,
        Err(_) => SessionRead::Unreadable,
    }
}

// ---------------------------------------------------------------------------------------------
// What is said

/// What the user is told of a change, from the JSON that confirms it: its message, or the whole
/// where it has none.
pub open spec fn confirmation_text(
    parsed: Result<json::Json, Seq<char>>,
    confirmation: Seq<char>,
) -> Seq<char> {
    match parsed {
        Ok(value) => match json::text_member(value, "message"@) {
            Some(message) => "system message: "@ + message,
            None => confirmation,
        },
        Err(_) => confirmation,
    }
}

/// What the user is told of a change, from the JSON that confirms it, read where it could be.
pub fn read_confirmation(
    parsed: &Result<serde_json::Value, String>,
    confirmation: String,
) -> (r: String)
    ensures
        r@ == confirmation_text(
            match parsed {
                Ok(value) => Ok(json::json_of(*value)),
                Err(e) => Err(e@),
            },
            confirmation@,
        ),
{
    if let Ok(value) = parsed {
        if let Some(message) = get_text(value, "message") {
            let mut out = "system message: ".to_owned();
            out.append(message);
            return out;
        }
    }
    confirmation
}

/// What the user is told of a change.
pub open spec fn confirmed_text(confirmation: Seq<char>) -> Seq<char> {
    confirmation_text(json::parsed_json(confirmation), confirmation)
}

/// What the user is told of a change, from the JSON that confirms it.
pub fn confirmation_message(confirmation: String) -> (r: String)
    ensures
        r@ == confirmed_text(confirmation@),
{
    let parsed = parse(confirmation.as_str());
    read_confirmation(&parsed, confirmation)
}

/// The answer to a prompt that holds nothing.
pub open spec fn acknowledgement(message: Message) -> Seq<char> {
    "hi "@ + (match message.from {
        Some(user) => user.first_name@,
        None => "there"@,
    }) + "! you "@ + (if is_private(message) {
        "messaged"@
    } else {
        "mentioned"@
    })
        + " me, but your message seemed empty after processing. what can i help you with?"@
}

fn acknowledge(message: &Message) -> (r: String)
    ensures
        r@ == acknowledgement(*message),
{
    let mut out = "hi ".to_owned();
    match &message.from {
        Some(user) => out.append(user.first_name.as_str()),
        None => out.append("there"),
    }
    out.append("! you ");
    if same_text(message.chat.chat_type.as_str(), "private") {
        out.append("messaged");
    } else {
        out.append("mentioned");
    }
    out.append(" me, but your message seemed empty after processing. what can i help you with?");
    out
}

/// The heading of an error in sending a confirmation.
pub open spec fn unconfirmed(confirmed: Confirmed) -> Seq<char> {
    match confirmed {
        Confirmed::Model => "failed to send model change confirmation message"@,
        Confirmed::Verbosity => "failed to send verbosity change confirmation message"@,
        Confirmed::ReasoningEffort =>
            "failed to send reasoning effort change confirmation message"@,
        Confirmed::SessionEnd => "failed to send admin session end confirmation message"@,
    }
}

fn unconfirmed_heading(confirmed: Confirmed) -> (r: String)
    ensures
        r@ == unconfirmed(confirmed),
{
    match confirmed {
        Confirmed::Model => "failed to send model change confirmation message".to_owned(),
        Confirmed::Verbosity => "failed to send verbosity change confirmation message".to_owned(),
        Confirmed::ReasoningEffort => {
            "failed to send reasoning effort change confirmation message".to_owned()
        },
        Confirmed::SessionEnd => "failed to send admin session end confirmation message".to_owned(),
    }
}

/// The heading of an error that concerns something with a number.
pub open spec fn numbered(before: Seq<char>, number: i64, after: Seq<char>) -> Seq<char> {
    before + text::signed_decimal(number as int) + after
}

fn numbered_heading(before: &str, number: i64, after: &str) -> (r: String)
    ensures
        r@ == numbered(before@, number, after@),
{
    let mut out = before.to_owned();
    out.append(signed_decimal_text(number).as_str());
    out.append(after);
    out
}

// ---------------------------------------------------------------------------------------------
// One step

/// The step once the message is stored and a check is scheduled where one is due: a message that
/// is not meant for the bot gets no reply.
pub open spec fn consider(message: Message, chat_id: i32) -> (
    UpdateState<Seq<char>>,
    UpdateAction<Seq<char>>,
) {
    if is_addressed(message) {
        (UpdateState::ReadingResponse { chat_id }, UpdateAction::ReadResponse { chat_id })
    } else {
        (UpdateState::LoggingMentions, UpdateAction::LogOtherMentions)
    }
}

fn take_up(message: &Message, chat_id: i32) -> (r: (UpdateState, UpdateAction))
    requires
        mentions_are_readable(*message),
    ensures
        (r.0@, r.1@) == consider(*message, chat_id),
{
    if same_text(message.chat.chat_type.as_str(), "private") || mentions_bot(
        &message.text,
        &message.entities,
    ) {
        (UpdateState::ReadingResponse { chat_id }, UpdateAction::ReadResponse { chat_id })
    } else {
        (UpdateState::LoggingMentions, UpdateAction::LogOtherMentions)
    }
}

/// The step once it is known whether an admin session is active.
pub open spec fn answer(
    message: Message,
    prompt: Seq<char>,
    chat_id: i32,
    previous: Option<Seq<char>>,
    admin: bool,
) -> (UpdateState<Seq<char>>, UpdateAction<Seq<char>>) {
    if prompt.len() > 0 {
        (UpdateState::Conversing { chat_id }, UpdateAction::Converse { prompt, previous, admin })
    } else if message.text is Some {
        (
            UpdateState::Acknowledging,
            UpdateAction::Reply { chat_id, text: acknowledgement(message), response_id: None },
        )
    } else {
        (UpdateState::Finished, UpdateAction::Finish)
    }
}

fn give_answer(
    message: &Message,
    prompt: String,
    chat_id: i32,
    previous: Option<String>,
    admin: bool,
) -> (r: (UpdateState, UpdateAction))
    ensures
        (r.0@, r.1@) == answer(*message, prompt@, chat_id, text::text_view(previous), admin),
{
    if !prompt.as_str().is_empty() {
        (UpdateState::Conversing { chat_id }, UpdateAction::Converse { prompt, previous, admin })
    } else if message.text.is_some() {
        (
            UpdateState::Acknowledging,
            UpdateAction::Reply { chat_id, text: acknowledge(message), response_id: None },
        )
    } else {
        (UpdateState::Finished, UpdateAction::Finish)
    }
}

/// The step once the conversation with the model has come to something.
pub open spec fn conclude(chat_id: i32, outcome: AiConversationOutcome<Seq<char>>) -> (
    UpdateState<Seq<char>>,
    UpdateAction<Seq<char>>,
) {
    match outcome {
        AiConversationOutcome::TextMessage(text, response_id) => (
            UpdateState::Replying,
            UpdateAction::Reply { chat_id, text, response_id: Some(response_id) },
        ),
        AiConversationOutcome::ResetConversation(confirmation, _) => (
            UpdateState::ConfirmingReset { chat_id },
            UpdateAction::Notify(confirmed_text(confirmation)),
        ),
        AiConversationOutcome::ChangeModel(confirmation, _, value) => (
            UpdateState::Changing {
                message: confirmed_text(confirmation),
                confirmed: Confirmed::Model,
            },
            UpdateAction::SetModel(value),
        ),
        AiConversationOutcome::ChangeVerbosity(confirmation, _, value) => (
            UpdateState::Changing {
                message: confirmed_text(confirmation),
                confirmed: Confirmed::Verbosity,
            },
            UpdateAction::SetVerbosity(value),
        ),
        AiConversationOutcome::ChangeReasoningEffort(confirmation, _, value) => (
            UpdateState::Changing {
                message: confirmed_text(confirmation),
                confirmed: Confirmed::ReasoningEffort,
            },
            UpdateAction::SetReasoningEffort(value),
        ),
        AiConversationOutcome::EndAdminSession(confirmation, _) => (
            UpdateState::ReadingEndedSession { chat_id, message: confirmed_text(confirmation) },
            UpdateAction::ReadSession { chat_id },
        ),
    }
}

fn conclude_conversation(chat_id: i32, outcome: AiConversationOutcome) -> (r: (
    UpdateState,
    UpdateAction,
))
    ensures
        (r.0@, r.1@) == conclude(chat_id, outcome@),
{
    match outcome {
        AiConversationOutcome::TextMessage(text, response_id) => (
            UpdateState::Replying,
            UpdateAction::Reply { chat_id, text, response_id: Some(response_id) },
        ),
        AiConversationOutcome::ResetConversation(confirmation, _) => (
            UpdateState::ConfirmingReset { chat_id },
            UpdateAction::Notify(confirmation_message(confirmation)),
        ),
        AiConversationOutcome::ChangeModel(confirmation, _, value) => (
            UpdateState::Changing {
                message: confirmation_message(confirmation),
                confirmed: Confirmed::Model,
            },
            UpdateAction::SetModel(value),
        ),
        AiConversationOutcome::ChangeVerbosity(confirmation, _, value) => (
            UpdateState::Changing {
                message: confirmation_message(confirmation),
                confirmed: Confirmed::Verbosity,
            },
            UpdateAction::SetVerbosity(value),
        ),
        AiConversationOutcome::ChangeReasoningEffort(confirmation, _, value) => (
            UpdateState::Changing {
                message: confirmation_message(confirmation),
                confirmed: Confirmed::ReasoningEffort,
            },
            UpdateAction::SetReasoningEffort(value),
        ),
        AiConversationOutcome::EndAdminSession(confirmation, _) => (
            UpdateState::ReadingEndedSession {
                chat_id,
                message: confirmation_message(confirmation),
            },
            UpdateAction::ReadSession { chat_id },
        ),
    }
}

/// The step once the session that is to end was read: the conversation goes back to where it was
/// before the session.
pub open spec fn restore(chat_id: i32, message: Seq<char>, read: SessionRead<Seq<char>>) -> (
    UpdateState<Seq<char>>,
    UpdateAction<Seq<char>>,
) {
    match read {
        SessionRead::Found { active: _, last_response_before: Some(response_id) } => (
            UpdateState::RestoringResponse { chat_id, message },
            UpdateAction::StoreResponse { chat_id, response_id },
        ),
        SessionRead::Found { active: _, last_response_before: None } => (
            UpdateState::RestoringResponse { chat_id, message },
            UpdateAction::ClearResponse { chat_id },
        ),
        _ => (UpdateState::EndingSession { message }, UpdateAction::EndSession { chat_id }),
    }
}

/// Whether something was tried, whatever came of it.
pub open spec fn is_over(event: UpdateEvent<Seq<char>>) -> bool {
    event is Done || event is Failed
}

pub open spec fn failed_under(heading: Seq<char>) -> (
    UpdateState<Seq<char>>,
    UpdateAction<Seq<char>>,
) {
    (UpdateState::Finished, UpdateAction::Fail { heading: Some(heading) })
}

/// The steps that store the sender, the chat and the message.
pub open spec fn storing_step(
    message: Message,
    sender: User,
    state: UpdateState<Seq<char>>,
    event: UpdateEvent<Seq<char>>,
) -> (UpdateState<Seq<char>>, UpdateAction<Seq<char>>) {
    match (state, event) {
        (UpdateState::Start, UpdateEvent::Begin) => (
            UpdateState::StoringUser,
            UpdateAction::StoreUser,
        ),
        (UpdateState::StoringUser, UpdateEvent::Stored(user_id)) => (
            UpdateState::StoringChat { user_id },
            UpdateAction::StoreChat,
        ),
        (UpdateState::StoringUser, UpdateEvent::Failed(_)) => failed_under(
            numbered("upserting user (telegram_id: "@, sender.id, ") failed"@),
        ),
        (UpdateState::StoringChat { user_id }, UpdateEvent::Stored(chat_id)) => (
            UpdateState::StoringMessage { chat_id },
            UpdateAction::StoreMessage { chat_id, user_id },
        ),
        (UpdateState::StoringChat { user_id: _ }, UpdateEvent::Failed(_)) => failed_under(
            numbered("upserting chat (telegram_id: "@, message.chat.id, ") failed"@),
        ),
        (UpdateState::StoringMessage { chat_id: _ }, UpdateEvent::Unwritable) => failed_under(
            numbered("serializing message (id: "@, message.message_id, ") to json failed"@),
        ),
        (UpdateState::StoringMessage { chat_id: _ }, UpdateEvent::Failed(_)) => failed_under(
            numbered("inserting incoming message (id: "@, message.message_id, ") failed"@),
        ),
        (UpdateState::StoringMessage { chat_id }, UpdateEvent::Done) => match message.text {
            Some(t) if proactive::calls_for_check(message.chat.id, t@) => (
                UpdateState::SchedulingCheck { chat_id },
                UpdateAction::ScheduleSlotCheck,
            ),
            _ => consider(message, chat_id),
        },
        (UpdateState::SchedulingCheck { chat_id }, UpdateEvent::Done) => consider(message, chat_id),
        _ => (UpdateState::Finished, UpdateAction::Finish),
    }
}

/// The steps that answer the message.
pub open spec fn answering_step(
    message: Message,
    admin_code: Option<Seq<char>>,
    state: UpdateState<Seq<char>>,
    event: UpdateEvent<Seq<char>>,
) -> (UpdateState<Seq<char>>, UpdateAction<Seq<char>>) {
    let prompt = super::without_code(prompt_of(message), admin_code);
    match (state, event) {
        (UpdateState::ReadingResponse { chat_id }, UpdateEvent::ResponseRead(previous)) => (
            UpdateState::ReadingSession { chat_id, previous },
            UpdateAction::ReadSession { chat_id },
        ),
        (UpdateState::ReadingResponse { chat_id }, UpdateEvent::Failed(_)) => (
            UpdateState::ReadingSession { chat_id, previous: None },
            UpdateAction::ReadSession { chat_id },
        ),
        (UpdateState::ReadingSession { chat_id, previous }, UpdateEvent::SessionRead(read)) => {
            let active = read matches SessionRead::Found { active, .. } && active;
            if !active && super::holds_code(prompt_of(message), admin_code) {
                (
                    UpdateState::StartingSession { chat_id, previous },
                    UpdateAction::StartSession { chat_id, last_response_before: previous },
                )
            } else {
                answer(message, prompt, chat_id, previous, active)
            }
        },
        (UpdateState::StartingSession { chat_id, previous }, UpdateEvent::Done) => answer(
            message,
            prompt,
            chat_id,
            previous,
            true,
        ),
        (UpdateState::StartingSession { chat_id, previous }, UpdateEvent::Failed(_)) => answer(
            message,
            prompt,
            chat_id,
            previous,
            false,
        ),
        (UpdateState::Acknowledging, UpdateEvent::Failed(_)) => failed_under(
            "failed to send/store acknowledgement for empty prompt"@,
        ),
        (UpdateState::Conversing { chat_id }, UpdateEvent::Concluded(outcome)) => conclude(
            chat_id,
            outcome,
        ),
        (UpdateState::Conversing { chat_id }, UpdateEvent::Failed(error)) => (
            UpdateState::Apologizing,
            UpdateAction::Reply {
                chat_id,
                text: "sorry, an error occurred while generating the ai reply: "@ + error,
                response_id: None,
            },
        ),
        (UpdateState::Replying, UpdateEvent::Failed(_)) => (
            UpdateState::Finished,
            UpdateAction::Fail { heading: None },
        ),
        (UpdateState::Apologizing, e) => (UpdateState::Finished, UpdateAction::FailAsConversation),
        _ => (UpdateState::Finished, UpdateAction::Finish),
    }
}

/// The steps that carry out what the model asked for, and tell the user of it.
pub open spec fn changing_step(state: UpdateState<Seq<char>>, event: UpdateEvent<Seq<char>>) -> (
    UpdateState<Seq<char>>,
    UpdateAction<Seq<char>>,
) {
    match (state, event) {
        (UpdateState::ConfirmingReset { chat_id }, UpdateEvent::Done) => (
            UpdateState::ForgettingResponse,
            UpdateAction::ClearResponse { chat_id },
        ),
        (UpdateState::ConfirmingReset { chat_id: _ }, UpdateEvent::Failed(_)) => failed_under(
            "failed to send conversation reset confirmation message"@,
        ),
        (UpdateState::Changing { message, confirmed }, UpdateEvent::Done) => (
            UpdateState::Confirming { confirmed },
            UpdateAction::Notify(message),
        ),
        (UpdateState::Confirming { confirmed }, UpdateEvent::Failed(_)) => failed_under(
            unconfirmed(confirmed),
        ),
        (
            UpdateState::ReadingEndedSession { chat_id, message },
            UpdateEvent::SessionRead(read),
        ) => restore(chat_id, message, read),
        (UpdateState::RestoringResponse { chat_id, message }, e) if is_over(e) => (
            UpdateState::EndingSession { message },
            UpdateAction::EndSession { chat_id },
        ),
        (UpdateState::EndingSession { message }, e) if is_over(e) => (
            UpdateState::Confirming { confirmed: Confirmed::SessionEnd },
            UpdateAction::Notify(message),
        ),
        _ => (UpdateState::Finished, UpdateAction::Finish),
    }
}

/// Whether a state is one of those in which the sender, the chat and the message are stored.
pub open spec fn is_storing(state: UpdateState<Seq<char>>) -> bool {
    state is Start || state is StoringUser || state is StoringChat || state is StoringMessage
        || state is SchedulingCheck
}

/// Whether a state is one of those in which what the model asked for is carried out.
pub open spec fn is_changing(state: UpdateState<Seq<char>>) -> bool {
    state is ConfirmingReset || state is Changing || state is Confirming
        || state is ReadingEndedSession || state is RestoringResponse || state is EndingSession
}

/// The next step in handling an update. An event that the state does not wait for ends it. A
/// message without a sender, as in a channel, is passed over.
pub open spec fn next_step(
    update: Update,
    admin_code: Option<Seq<char>>,
    state: UpdateState<Seq<char>>,
    event: UpdateEvent<Seq<char>>,
) -> (UpdateState<Seq<char>>, UpdateAction<Seq<char>>) {
    match update.message {
        Some(message) => match message.from {
            Some(sender) => if is_storing(state) {
                storing_step(message, sender, state, event)
            } else if is_changing(state) {
                changing_step(state, event)
            } else {
                answering_step(message, admin_code, state, event)
            },
            None => if state is Start && event is Begin {
                (UpdateState::LoggingMentions, UpdateAction::LogOtherMentions)
            } else {
                (UpdateState::Finished, UpdateAction::Finish)
            },
        },
        None => (UpdateState::Finished, UpdateAction::Finish),
    }
}

fn fail_under(heading: String) -> (r: (UpdateState, UpdateAction))
    ensures
        (r.0@, r.1@) == failed_under(heading@),
{
    (UpdateState::Finished, UpdateAction::Fail { heading: Some(heading) })
}

fn prompt_text(message: &Message) -> (r: String)
    requires
        mentions_are_readable(*message),
    ensures
        r@ == prompt_of(*message),
{
    match &message.text {
        Some(t) => {
            if same_text(message.chat.chat_type.as_str(), "private") {
                t.clone()
            } else {
                extract_prompt_from_mention(t.as_str(), &message.entities)
            }
        },
        None => "".to_owned(),
    }
}

fn take_storing_step(
    message: &Message,
    sender: &User,
    state: UpdateState,
    event: UpdateEvent,
) -> (r: (UpdateState, UpdateAction))
    requires
        reads_mentions(*message, state@, event@) ==> mentions_are_readable(*message),
    ensures
        (r.0@, r.1@) == storing_step(*message, *sender, state@, event@),
{
    match (state, event) {
        (UpdateState::Start, UpdateEvent::Begin) => (
            UpdateState::StoringUser,
            UpdateAction::StoreUser,
        ),
        (UpdateState::StoringUser, UpdateEvent::Stored(user_id)) => (
            UpdateState::StoringChat { user_id },
            UpdateAction::StoreChat,
        ),
        (UpdateState::StoringUser, UpdateEvent::Failed(_)) => fail_under(
            numbered_heading("upserting user (telegram_id: ", sender.id, ") failed"),
        ),
        (UpdateState::StoringChat { user_id }, UpdateEvent::Stored(chat_id)) => (
            UpdateState::StoringMessage { chat_id },
            UpdateAction::StoreMessage { chat_id, user_id },
        ),
        (UpdateState::StoringChat { user_id: _ }, UpdateEvent::Failed(_)) => fail_under(
            numbered_heading("upserting chat (telegram_id: ", message.chat.id, ") failed"),
        ),
        (UpdateState::StoringMessage { chat_id: _ }, UpdateEvent::Unwritable) => fail_under(
            numbered_heading("serializing message (id: ", message.message_id, ") to json failed"),
        ),
        (UpdateState::StoringMessage { chat_id: _ }, UpdateEvent::Failed(_)) => fail_under(
            numbered_heading("inserting incoming message (id: ", message.message_id, ") failed"),
        ),
        (UpdateState::StoringMessage { chat_id }, UpdateEvent::Done) => {
            if let Some(t) = &message.text {
                if maybe_schedule_proactive_slot_check(message.chat.id, t.as_str()) {
                    return (
                        UpdateState::SchedulingCheck { chat_id },
                        UpdateAction::ScheduleSlotCheck,
                    );
                }
            }
            take_up(message, chat_id)
        },
        (UpdateState::SchedulingCheck { chat_id }, UpdateEvent::Done) => take_up(message, chat_id),
        _ => (UpdateState::Finished, UpdateAction::Finish),
    }
}

fn take_answering_step(
    message: &Message,
    admin_code: Option<&str>,
    state: UpdateState,
    event: UpdateEvent,
) -> (r: (UpdateState, UpdateAction))
    requires
        reads_mentions(*message, state@, event@) ==> mentions_are_readable(*message),
    ensures
        (r.0@, r.1@) == answering_step(*message, text::slice_view(admin_code), state@, event@),
{
    match (state, event) {
        (UpdateState::ReadingResponse { chat_id }, UpdateEvent::ResponseRead(previous)) => (
            UpdateState::ReadingSession { chat_id, previous },
            UpdateAction::ReadSession { chat_id },
        ),
        (UpdateState::ReadingResponse { chat_id }, UpdateEvent::Failed(_)) => (
            UpdateState::ReadingSession { chat_id, previous: None },
            UpdateAction::ReadSession { chat_id },
        ),
        (UpdateState::ReadingSession { chat_id, previous }, UpdateEvent::SessionRead(read)) => {
            let (code_found, prompt) = strip_admin_code(prompt_text(message).as_str(), admin_code);
            let active = match read {
                SessionRead::Found { active, last_response_before: _ } => active,
                _ => false,
            };
            if !active && code_found {
                (
                    UpdateState::StartingSession { chat_id, previous: copy_option(&previous) },
                    UpdateAction::StartSession { chat_id, last_response_before: previous },
                )
            } else {
                give_answer(message, prompt, chat_id, previous, active)
            }
        },
        (UpdateState::StartingSession { chat_id, previous }, UpdateEvent::Done) => {
            let (_, prompt) = strip_admin_code(prompt_text(message).as_str(), admin_code);
            give_answer(message, prompt, chat_id, previous, true)
        },
        (UpdateState::StartingSession { chat_id, previous }, UpdateEvent::Failed(_)) => {
            let (_, prompt) = strip_admin_code(prompt_text(message).as_str(), admin_code);
            give_answer(message, prompt, chat_id, previous, false)
        },
        (UpdateState::Acknowledging, UpdateEvent::Failed(_)) => fail_under(
            "failed to send/store acknowledgement for empty prompt".to_owned(),
        ),
        (UpdateState::Conversing { chat_id }, UpdateEvent::Concluded(outcome)) => {
            conclude_conversation(chat_id, outcome)
        },
        (UpdateState::Conversing { chat_id }, UpdateEvent::Failed(error)) => {
            let mut text = "sorry, an error occurred while generating the ai reply: ".to_owned();
            text.append(error.as_str());
            (UpdateState::Apologizing, UpdateAction::Reply { chat_id, text, response_id: None })
        },
        (UpdateState::Replying, UpdateEvent::Failed(_)) => (
            UpdateState::Finished,
            UpdateAction::Fail { heading: None },
        ),
        (UpdateState::Apologizing, _) => (UpdateState::Finished, UpdateAction::FailAsConversation),
        _ => (UpdateState::Finished, UpdateAction::Finish),
    }
}

fn restore_response(chat_id: i32, message: String, read: SessionRead) -> (r: (
    UpdateState,
    UpdateAction,
))
    ensures
        (r.0@, r.1@) == restore(chat_id, message@, read@),
{
    match read {
        SessionRead::Found { active: _, last_response_before: Some(response_id) } => (
            UpdateState::RestoringResponse { chat_id, message },
            UpdateAction::StoreResponse { chat_id, response_id },
        ),
        SessionRead::Found { active: _, last_response_before: None } => (
            UpdateState::RestoringResponse { chat_id, message },
            UpdateAction::ClearResponse { chat_id },
        ),
        _ => (UpdateState::EndingSession { message }, UpdateAction::EndSession { chat_id }),
    }
}

fn has_ended(event: &UpdateEvent) -> (r: bool)
    ensures
        r == is_over(event@),
{
    match event {
        UpdateEvent::Done => true,
        UpdateEvent::Failed(_) => true,
        _ => false,
    }
}

fn take_changing_step(state: UpdateState, event: UpdateEvent) -> (r: (UpdateState, UpdateAction))
    ensures
        (r.0@, r.1@) == changing_step(state@, event@),
{
    let over = has_ended(&event);
    match (state, event) {
        (UpdateState::ConfirmingReset { chat_id }, UpdateEvent::Done) => (
            UpdateState::ForgettingResponse,
            UpdateAction::ClearResponse { chat_id },
        ),
        (UpdateState::ConfirmingReset { chat_id: _ }, UpdateEvent::Failed(_)) => fail_under(
            "failed to send conversation reset confirmation message".to_owned(),
        ),
        (UpdateState::Changing { message, confirmed }, UpdateEvent::Done) => (
            UpdateState::Confirming { confirmed },
            UpdateAction::Notify(message),
        ),
        (UpdateState::Confirming { confirmed }, UpdateEvent::Failed(_)) => fail_under(
            unconfirmed_heading(confirmed),
        ),
        (
            UpdateState::ReadingEndedSession { chat_id, message },
            UpdateEvent::SessionRead(read),
        ) => restore_response(chat_id, message, read),
        (UpdateState::RestoringResponse { chat_id, message }, _) => {
            if over {
                (UpdateState::EndingSession { message }, UpdateAction::EndSession { chat_id })
            } else {
                (UpdateState::Finished, UpdateAction::Finish)
            }
        },
        (UpdateState::EndingSession { message }, _) => {
            if over {
                (
                    UpdateState::Confirming { confirmed: Confirmed::SessionEnd },
                    UpdateAction::Notify(message),
                )
            } else {
                (UpdateState::Finished, UpdateAction::Finish)
            }
        },
        _ => (UpdateState::Finished, UpdateAction::Finish),
    }
}

fn state_is_storing(state: &UpdateState) -> (r: bool)
    ensures
        r == is_storing(state@),
{
    match state {
        UpdateState::Start => true,
        UpdateState::StoringUser => true,
        UpdateState::StoringChat { user_id: _ } => true,
        UpdateState::StoringMessage { chat_id: _ } => true,
        UpdateState::SchedulingCheck { chat_id: _ } => true,
        _ => false,
    }
}

fn state_is_changing(state: &UpdateState) -> (r: bool)
    ensures
        r == is_changing(state@),
{
    match state {
        UpdateState::ConfirmingReset { chat_id: _ } => true,
        UpdateState::Changing { message: _, confirmed: _ } => true,
        UpdateState::Confirming { confirmed: _ } => true,
        UpdateState::ReadingEndedSession { chat_id: _, message: _ } => true,
        UpdateState::RestoringResponse { chat_id: _, message: _ } => true,
        UpdateState::EndingSession { message: _ } => true,
        _ => false,
    }
}

/// Whether a step reads the mentions in a message: none does before the message is stored and a
/// check is scheduled where one is due.
pub open spec fn reads_mentions(
    message: Message,
    state: UpdateState<Seq<char>>,
    event: UpdateEvent<Seq<char>>,
) -> bool {
    match (state, event) {
        (UpdateState::StoringMessage { .. }, UpdateEvent::Done) => match message.text {
            Some(t) => !proactive::calls_for_check(message.chat.id, t@),
            None => true,
        },
        (UpdateState::SchedulingCheck { .. }, UpdateEvent::Done) => true,
        (UpdateState::ReadingSession { .. }, UpdateEvent::SessionRead(_)) => true,
        (UpdateState::StartingSession { .. }, UpdateEvent::Done) => true,
        (UpdateState::StartingSession { .. }, UpdateEvent::Failed(_)) => true,
        _ => false,
    }
}

/// Whether a step reads the mentions in a message.
pub fn step_reads_mentions(message: &Message, state: &UpdateState, event: &UpdateEvent) -> (r: bool)
    ensures
        r == reads_mentions(*message, state@, event@),
{
    match (state, event) {
        (UpdateState::StoringMessage { chat_id: _ }, UpdateEvent::Done) => match &message.text {
            Some(t) => !maybe_schedule_proactive_slot_check(message.chat.id, t.as_str()),
            None => true,
        },
        (UpdateState::SchedulingCheck { chat_id: _ }, UpdateEvent::Done) => true,
        (
            UpdateState::ReadingSession { chat_id: _, previous: _ },
            UpdateEvent::SessionRead(_),
        ) => true,
        (UpdateState::StartingSession { chat_id: _, previous: _ }, UpdateEvent::Done) => true,
        (UpdateState::StartingSession { chat_id: _, previous: _ }, UpdateEvent::Failed(_)) => true,
        _ => false,
    }
}

/// Takes the next step in handling an update.
///
/// The sender, the chat and the message are stored first. A message in a private chat, or one that
/// mentions the bot, is then answered: what it says goes to the model, and what comes of that is
/// sent, or carried out and confirmed. The admin code in a message starts an admin session.
pub fn handle_telegram_update(
    update: &Update,
    admin_code: Option<&str>,
    state: UpdateState,
    event: UpdateEvent,
) -> (r: (UpdateState, UpdateAction))
    requires
        update.message matches Some(message) ==> message.from is Some && reads_mentions(
            message,
            state@,
            event@,
        ) ==> mentions_are_readable(message),
    ensures
        (r.0@, r.1@) == next_step(*update, text::slice_view(admin_code), state@, event@),
{
    let message = match &update.message {
        Some(m) => m,
        None => {
            return (UpdateState::Finished, UpdateAction::Finish);
        },
    };
    match &message.from {
        Some(sender) => {
            if state_is_storing(&state) {
                take_storing_step(message, sender, state, event)
            } else if state_is_changing(&state) {
                take_changing_step(state, event)
            } else {
                take_answering_step(message, admin_code, state, event)
            }
        },
        None => match (state, event) {
            (UpdateState::Start, UpdateEvent::Begin) => (
                UpdateState::LoggingMentions,
                UpdateAction::LogOtherMentions,
            ),
            _ => (UpdateState::Finished, UpdateAction::Finish),
        },
    }
}

// ---------------------------------------------------------------------------------------------
// Laws

/// Whether a state lies behind the storing of the message and before the end.
pub open spec fn is_stored(state: UpdateState<Seq<char>>) -> bool {
    state is SchedulingCheck || !is_storing(state) && !(state is LoggingMentions)
        && !(state is Finished)
}

/// Whether something is said to the user or to the model.
pub open spec fn speaks(action: UpdateAction<Seq<char>>) -> bool {
    action is Reply || action is Notify || action is Converse
}

/// Nothing is said, and no session is started or ended, before the message is stored: a step that
/// does so leads to a state behind that, and only the success of storing leads there.
pub proof fn law_messages_are_stored_first(
    update: Update,
    admin_code: Option<Seq<char>>,
    state: UpdateState<Seq<char>>,
    event: UpdateEvent<Seq<char>>,
)
    ensures
        ({
            let (next, action) = next_step(update, admin_code, state, event);
            &&& speaks(action) || action is StartSession || action is EndSession ==> is_stored(state)
            &&& is_stored(next) ==> is_stored(state) || (state is StoringMessage && event is Done)
        }),
{
}

/// A message that is neither in a private chat nor mentions the bot gets no reply: once it is
/// stored, nothing but the log follows.
pub proof fn law_others_are_not_answered(
    update: Update,
    admin_code: Option<Seq<char>>,
    state: UpdateState<Seq<char>>,
    event: UpdateEvent<Seq<char>>,
)
    requires
        update.message matches Some(message) && !is_addressed(message),
        is_storing(state),
    ensures
        ({
            let (next, action) = next_step(update, admin_code, state, event);
            &&& !speaks(action)
            &&& is_storing(next) || next is LoggingMentions || next is Finished
        }),
{
}

/// The model may call the tools for admins only while a session is active: either one was found
/// active, or the message holds the admin code and one was started.
pub proof fn law_admins_have_a_session(
    update: Update,
    admin_code: Option<Seq<char>>,
    state: UpdateState<Seq<char>>,
    event: UpdateEvent<Seq<char>>,
)
    ensures
        ({
            let (next, action) = next_step(update, admin_code, state, event);
            &&& action matches UpdateAction::Converse { admin: true, .. } ==> {
                ||| state is ReadingSession && (event matches UpdateEvent::SessionRead(
                    SessionRead::Found { active: true, .. },
                ))
                ||| state is StartingSession && event is Done
            }
            &&& next is StartingSession ==> {
                &&& state is ReadingSession
                &&& super::holds_code(prompt_of(update.message->0), admin_code)
            }
        }),
{
}

/// Without an admin code there is none, so no session is ever started.
pub proof fn law_no_code_starts_no_session(
    update: Update,
    state: UpdateState<Seq<char>>,
    event: UpdateEvent<Seq<char>>,
)
    ensures
        !(next_step(update, None, state, event).1 is StartSession),
{
}

/// After a reset that the user was told of, the response is forgotten, so the next conversation
/// begins anew.
pub proof fn law_reset_forgets(
    update: Update,
    admin_code: Option<Seq<char>>,
    chat_id: i32,
    confirmation: Seq<char>,
    response_id: Seq<char>,
)
    requires
        update.message matches Some(message) && message.from is Some,
    ensures
        ({
            let outcome = AiConversationOutcome::ResetConversation(confirmation, response_id);
            let (told, first) = next_step(
                update,
                admin_code,
                UpdateState::Conversing { chat_id },
                UpdateEvent::Concluded(outcome),
            );
            &&& first == UpdateAction::Notify(confirmed_text(confirmation))
            &&& next_step(update, admin_code, told, UpdateEvent::Done).1
                == (UpdateAction::<Seq<char>>::ClearResponse { chat_id })
        }),
{
}

/// What a session changes of the conversation is undone when it ends: the response that was the
/// last one when the session started, and was kept with it, is the last one again. Then the session
/// is ended, and the user is told, whatever came of the former.
pub proof fn law_session_end_restores(
    update: Update,
    admin_code: Option<Seq<char>>,
    chat_id: i32,
    confirmation: Seq<char>,
    response_id: Seq<char>,
    active: bool,
    last_response_before: Option<Seq<char>>,
    restored: UpdateEvent<Seq<char>>,
    ended: UpdateEvent<Seq<char>>,
)
    requires
        update.message matches Some(message) && message.from is Some,
        is_over(restored),
        is_over(ended),
    ensures
        ({
            let outcome = AiConversationOutcome::EndAdminSession(confirmation, response_id);
            let read = SessionRead::Found { active, last_response_before };
            let (s1, a1) = next_step(
                update,
                admin_code,
                UpdateState::Conversing { chat_id },
                UpdateEvent::Concluded(outcome),
            );
            let (s2, a2) = next_step(update, admin_code, s1, UpdateEvent::SessionRead(read));
            let (s3, a3) = next_step(update, admin_code, s2, restored);
            let (s4, a4) = next_step(update, admin_code, s3, ended);
            &&& a1 == (UpdateAction::<Seq<char>>::ReadSession { chat_id })
            &&& a2 == match last_response_before {
                Some(id) => UpdateAction::StoreResponse { chat_id, response_id: id },
                None => UpdateAction::ClearResponse { chat_id },
            }
            &&& a3 == (UpdateAction::<Seq<char>>::EndSession { chat_id })
            &&& a4 == UpdateAction::Notify(confirmed_text(confirmation))
        }),
{
}

// ---------------------------------------------------------------------------------------------
// Laws of single steps

/// The chat in which certain messages call for a slot check, and how these begin.
proof fn lemma_check_is_called_for(chat_id: i64, t: Seq<char>)
    ensures
        proactive::calls_for_check(chat_id, t) <==> chat_id == -702100346 && text::has_prefix(
            t,
            "Proposer bid failed simulation in slot"@,
        ),
{
}

/// An update is stored from its sender to its message, each under the numbers that the database
/// gave the former ones. Then a slot check is scheduled where the message calls for one, and after
/// that, or at once, the last response is read where the message is in a private chat or mentions
/// the bot; the other mentions in it are logged otherwise.
pub proof fn law_updates_are_stored_and_taken_up(
    update: Update,
    admin_code: Option<Seq<char>>,
    user_id: i32,
    chat_id: i32,
)
    requires
        update.message matches Some(message) && message.from is Some,
    ensures
        ({
            let message = update.message->0;
            let (s1, a1) = next_step(update, admin_code, UpdateState::Start, UpdateEvent::Begin);
            let (s2, a2) = next_step(update, admin_code, s1, UpdateEvent::Stored(user_id));
            let (s3, a3) = next_step(update, admin_code, s2, UpdateEvent::Stored(chat_id));
            let (s4, a4) = next_step(update, admin_code, s3, UpdateEvent::Done);
            let (s5, a5) = next_step(update, admin_code, s4, UpdateEvent::Done);
            let check = message.chat.id == -702100346 && (message.text matches Some(t)
                && text::has_prefix(t@, "Proposer bid failed simulation in slot"@));
            let addressed = message.chat.chat_type@ == "private"@ || super::mentioned(
                text::text_view(message.text),
                super::entities_view(message.entities),
            );
            let (s, a) = if check {
                (s5, a5)
            } else {
                (s4, a4)
            };
            &&& a1 == UpdateAction::<Seq<char>>::StoreUser
            &&& a2 == UpdateAction::<Seq<char>>::StoreChat
            &&& a3 == (UpdateAction::<Seq<char>>::StoreMessage { chat_id, user_id })
            &&& check ==> a4 == UpdateAction::<Seq<char>>::ScheduleSlotCheck
            &&& if addressed {
                a == (UpdateAction::<Seq<char>>::ReadResponse { chat_id }) && s == (UpdateState::<
                    Seq<char>,
                >::ReadingResponse { chat_id })
            } else {
                a == UpdateAction::<Seq<char>>::LogOtherMentions && s == UpdateState::<
                    Seq<char>,
                >::LoggingMentions
            }
        }),
{
    if let Some(t) = update.message->0.text {
        lemma_check_is_called_for(update.message->0.chat.id, t@);
    }
}

/// What cannot be stored ends the handling, under a heading that says what it was and gives its
/// number.
pub proof fn law_failures_to_store_are_reported(
    update: Update,
    admin_code: Option<Seq<char>>,
    user_id: i32,
    chat_id: i32,
    error: Seq<char>,
)
    requires
        update.message matches Some(message) && message.from is Some,
    ensures
        ({
            let message = update.message->0;
            let fails = |state: UpdateState<Seq<char>>, event: UpdateEvent<Seq<char>>, h: Seq<char>|
                next_step(update, admin_code, state, event) == (
                    UpdateState::<Seq<char>>::Finished,
                    UpdateAction::Fail { heading: Some(h) },
                );
            &&& fails(
                UpdateState::StoringUser,
                UpdateEvent::Failed(error),
                "upserting user (telegram_id: "@ + text::signed_decimal(message.from->0.id as int)
                    + ") failed"@,
            )
            &&& fails(
                UpdateState::StoringChat { user_id },
                UpdateEvent::Failed(error),
                "upserting chat (telegram_id: "@ + text::signed_decimal(message.chat.id as int)
                    + ") failed"@,
            )
            &&& fails(
                UpdateState::StoringMessage { chat_id },
                UpdateEvent::Unwritable,
                "serializing message (id: "@ + text::signed_decimal(message.message_id as int)
                    + ") to json failed"@,
            )
            &&& fails(
                UpdateState::StoringMessage { chat_id },
                UpdateEvent::Failed(error),
                "inserting incoming message (id: "@ + text::signed_decimal(
                    message.message_id as int,
                ) + ") failed"@,
            )
        }),
{
}

/// An update without a message is passed over, and of one without a sender only the mentions are
/// logged.
pub proof fn law_updates_without_a_sender_are_not_answered(
    update: Update,
    admin_code: Option<Seq<char>>,
    state: UpdateState<Seq<char>>,
    event: UpdateEvent<Seq<char>>,
)
    ensures
        update.message is None ==> next_step(update, admin_code, state, event).1 == UpdateAction::<
            Seq<char>,
        >::Finish,
        update.message matches Some(message) ==> message.from is None ==> next_step(
            update,
            admin_code,
            state,
            event,
        ).1 == if state is Start && event is Begin {
            UpdateAction::<Seq<char>>::LogOtherMentions
        } else {
            UpdateAction::<Seq<char>>::Finish
        },
{
}

/// The response that was read goes with the prompt; where none could be read, the conversation
/// follows on none. The session is read next.
pub proof fn law_the_session_is_read_behind_the_response(
    update: Update,
    admin_code: Option<Seq<char>>,
    chat_id: i32,
    previous: Option<Seq<char>>,
    error: Seq<char>,
)
    requires
        update.message matches Some(message) && message.from is Some,
    ensures
        next_step(
            update,
            admin_code,
            UpdateState::ReadingResponse { chat_id },
            UpdateEvent::ResponseRead(previous),
        ) == (
            UpdateState::ReadingSession { chat_id, previous },
            UpdateAction::<Seq<char>>::ReadSession { chat_id },
        ),
        next_step(
            update,
            admin_code,
            UpdateState::ReadingResponse { chat_id },
            UpdateEvent::Failed(error),
        ) == (
            UpdateState::ReadingSession { chat_id, previous: None::<Seq<char>> },
            UpdateAction::<Seq<char>>::ReadSession { chat_id },
        ),
{
}

/// What is said to the model: the prompt without the admin code, behind the last response, with the
/// rights of an admin where `admin` says so.
pub open spec fn speaks_with_model(
    update: Update,
    admin_code: Option<Seq<char>>,
    chat_id: i32,
    previous: Option<Seq<char>>,
    admin: bool,
    step: (UpdateState<Seq<char>>, UpdateAction<Seq<char>>),
) -> bool {
    let prompt = super::without_code(prompt_of(update.message->0), admin_code);
    prompt.len() > 0 ==> step == (
        UpdateState::<Seq<char>>::Conversing { chat_id },
        UpdateAction::Converse { prompt, previous, admin },
    )
}

/// A message that holds the admin code starts a session, unless one is active, and the last
/// response is kept with it. What the message says beside the code goes to the model: with the
/// rights of an admin where a session is active or was started, and without them where none is or
/// starting it failed.
pub proof fn law_prompts_go_to_the_model(
    update: Update,
    admin_code: Option<Seq<char>>,
    chat_id: i32,
    previous: Option<Seq<char>>,
    read: SessionRead<Seq<char>>,
    error: Seq<char>,
)
    requires
        update.message matches Some(message) && message.from is Some,
    ensures
        ({
            let active = read matches SessionRead::Found { active: true, .. };
            let coded = super::holds_code(prompt_of(update.message->0), admin_code);
            let reading = UpdateState::ReadingSession { chat_id, previous };
            let starting = UpdateState::StartingSession { chat_id, previous };
            let first = next_step(update, admin_code, reading, UpdateEvent::SessionRead(read));
            let started = next_step(update, admin_code, starting, UpdateEvent::Done);
            let failed = next_step(update, admin_code, starting, UpdateEvent::Failed(error));
            &&& coded && !active ==> first == (
                starting,
                UpdateAction::StartSession { chat_id, last_response_before: previous },
            )
            &&& !coded || active ==> speaks_with_model(
                update,
                admin_code,
                chat_id,
                previous,
                active,
                first,
            )
            &&& speaks_with_model(update, admin_code, chat_id, previous, true, started)
            &&& speaks_with_model(update, admin_code, chat_id, previous, false, failed)
        }),
{
}

/// A message that says nothing to the bot is answered with a greeting by the sender's first name,
/// where it has a text at all.
pub proof fn law_empty_prompts_are_acknowledged(
    update: Update,
    admin_code: Option<Seq<char>>,
    chat_id: i32,
    previous: Option<Seq<char>>,
)
    requires
        update.message matches Some(message) && message.from is Some && super::without_code(
            prompt_of(message),
            admin_code,
        ).len() == 0,
    ensures
        ({
            let message = update.message->0;
            let step = next_step(
                update,
                admin_code,
                UpdateState::StartingSession { chat_id, previous },
                UpdateEvent::Done,
            );
            let how = if message.chat.chat_type@ == "private"@ {
                "messaged"@
            } else {
                "mentioned"@
            };
            let told = "hi "@ + message.from->0.first_name@ + "! you "@ + how
                + " me, but your message seemed empty after processing. what can i help you with?"@;
            &&& message.text is Some ==> step == (
                UpdateState::<Seq<char>>::Acknowledging,
                UpdateAction::Reply { chat_id, text: told, response_id: None },
            )
            &&& message.text is None ==> step.1 == UpdateAction::<Seq<char>>::Finish
        }),
{
}

/// What a private message says to the bot is its text; elsewhere it is the text without the mention
/// of the bot; a message without a text says nothing.
pub proof fn law_prompts_are_what_is_said(message: Message)
    ensures
        message.text matches Some(t) ==> {
            &&& message.chat.chat_type@ == "private"@ ==> prompt_of(message) == t@
            &&& message.chat.chat_type@ != "private"@ ==> prompt_of(message) == super::prompt_in(
                t@,
                super::entities_view(message.entities),
            )
        },
        message.text is None ==> prompt_of(message).len() == 0,
{
    reveal_strlit("");
}

/// What the model answered is sent as it is, and the response it came from goes with it. Where the
/// conversation failed, the user is told the error, and it is reported whatever comes of that.
pub proof fn law_answers_are_sent(
    update: Update,
    admin_code: Option<Seq<char>>,
    chat_id: i32,
    said: Seq<char>,
    response_id: Seq<char>,
    error: Seq<char>,
    event: UpdateEvent<Seq<char>>,
)
    requires
        update.message matches Some(message) && message.from is Some,
    ensures
        ({
            let conversing = UpdateState::<Seq<char>>::Conversing { chat_id };
            let sent = next_step(
                update,
                admin_code,
                conversing,
                UpdateEvent::Concluded(AiConversationOutcome::TextMessage(said, response_id)),
            );
            let sorry = next_step(update, admin_code, conversing, UpdateEvent::Failed(error));
            &&& sent.1 == (UpdateAction::Reply {
                chat_id,
                text: said,
                response_id: Some(response_id),
            })
            &&& next_step(update, admin_code, sent.0, UpdateEvent::Failed(error)).1
                == (UpdateAction::Fail { heading: None::<Seq<char>> })
            &&& next_step(update, admin_code, sent.0, UpdateEvent::Done).1 == UpdateAction::<
                Seq<char>,
            >::Finish
            &&& sorry.1 == (UpdateAction::Reply {
                chat_id,
                text: "sorry, an error occurred while generating the ai reply: "@ + error,
                response_id: None,
            })
            &&& next_step(update, admin_code, sorry.0, event).1 == UpdateAction::<
                Seq<char>,
            >::FailAsConversation
        }),
{
}

/// What the model asks to change is changed to the value it gave, each setting on its own; then the
/// user is told, and where that fails, it is reported of which change.
pub proof fn law_changes_are_made_and_told(
    update: Update,
    admin_code: Option<Seq<char>>,
    chat_id: i32,
    confirmation: Seq<char>,
    response_id: Seq<char>,
    value: Seq<char>,
    error: Seq<char>,
)
    requires
        update.message matches Some(message) && message.from is Some,
    ensures
        ({
            let after = |outcome: AiConversationOutcome<Seq<char>>|
                next_step(
                    update,
                    admin_code,
                    UpdateState::Conversing { chat_id },
                    UpdateEvent::Concluded(outcome),
                );
            let told = |state: UpdateState<Seq<char>>, heading: Seq<char>|
                {
                    let (next, action) = next_step(update, admin_code, state, UpdateEvent::Done);
                    &&& action == UpdateAction::Notify(confirmed_text(confirmation))
                    &&& next_step(update, admin_code, next, UpdateEvent::Failed(error)).1
                        == (UpdateAction::Fail { heading: Some(heading) })
                    &&& next_step(update, admin_code, next, UpdateEvent::Done).1 == UpdateAction::<
                        Seq<char>,
                    >::Finish
                };
            let model = after(
                AiConversationOutcome::ChangeModel(confirmation, response_id, value),
            );
            let verbosity = after(
                AiConversationOutcome::ChangeVerbosity(confirmation, response_id, value),
            );
            let effort = after(
                AiConversationOutcome::ChangeReasoningEffort(confirmation, response_id, value),
            );
            &&& model.1 == UpdateAction::SetModel(value)
            &&& told(model.0, "failed to send model change confirmation message"@)
            &&& verbosity.1 == UpdateAction::SetVerbosity(value)
            &&& told(verbosity.0, "failed to send verbosity change confirmation message"@)
            &&& effort.1 == UpdateAction::SetReasoningEffort(value)
            &&& told(effort.0, "failed to send reasoning effort change confirmation message"@)
        }),
{
}

/// A change is told in the words of its confirmation: by the message in it where there is one, and
/// by the whole of it otherwise.
pub proof fn law_confirmations_are_told(confirmation: Seq<char>)
    ensures
        json::parsed_json(confirmation) matches Ok(value) ==> (json::text_member(
            value,
            "message"@,
        ) matches Some(message) ==> confirmed_text(confirmation) == "system message: "@ + message),
        json::parsed_json(confirmation) is Err || json::text_member(
            json::parsed_json(confirmation)->Ok_0,
            "message"@,
        ) is None ==> confirmed_text(confirmation) == confirmation,
{
}

/// What is stored of a session is what is read of it.
pub proof fn law_sessions_are_read_as_stored(
    state: AdminSessionState,
    error: String,
)
    ensures
        session_read_of(Ok(Some(state))) == (SessionRead::Found {
            active: state.active,
            last_response_before: text::text_view(state.last_response_id_before_admin),
        }),
        session_read_of(Ok(None)) == SessionRead::<Seq<char>>::Missing,
        session_read_of(Err(error)) == SessionRead::<Seq<char>>::Unreadable,
{
}

/// Where the confirmation of a reset cannot be sent, it is reported, and the response is not
/// forgotten; where the greeting cannot be, that is.
pub proof fn law_unsent_confirmations_are_reported(
    update: Update,
    admin_code: Option<Seq<char>>,
    chat_id: i32,
    error: Seq<char>,
)
    requires
        update.message matches Some(message) && message.from is Some,
    ensures
        next_step(
            update,
            admin_code,
            UpdateState::ConfirmingReset { chat_id },
            UpdateEvent::Failed(error),
        ).1 == (UpdateAction::Fail {
            heading: Some("failed to send conversation reset confirmation message"@),
        }),
        next_step(
            update,
            admin_code,
            UpdateState::Acknowledging,
            UpdateEvent::Failed(error),
        ).1 == (UpdateAction::Fail {
            heading: Some("failed to send/store acknowledgement for empty prompt"@),
        }),
        next_step(
            update,
            admin_code,
            UpdateState::Confirming { confirmed: Confirmed::SessionEnd },
            UpdateEvent::Failed(error),
        ).1 == (UpdateAction::Fail {
            heading: Some("failed to send admin session end confirmation message"@),
        }),
{
}

/// Where the session that is to end cannot be found, it is ended all the same, and nothing of the
/// conversation is changed.
pub proof fn law_unknown_sessions_are_ended(
    update: Update,
    admin_code: Option<Seq<char>>,
    chat_id: i32,
    message: Seq<char>,
    read: SessionRead<Seq<char>>,
)
    requires
        update.message matches Some(m) && m.from is Some,
        !(read is Found),
    ensures
        next_step(
            update,
            admin_code,
            UpdateState::ReadingEndedSession { chat_id, message },
            UpdateEvent::SessionRead(read),
        ) == (
            UpdateState::EndingSession { message },
            UpdateAction::<Seq<char>>::EndSession { chat_id },
        ),
{
}

// ---------------------------------------------------------------------------------------------
// Laws of the views

/// What stands for an action keeps every part of it.
pub proof fn law_views_of_actions_keep_every_part(
    chat_id: i32,
    user_id: i32,
    s: String,
    t: String,
    option: Option<String>,
    admin: bool,
)
    ensures
        UpdateAction::<String>::StoreUser@ == UpdateAction::<Seq<char>>::StoreUser,
        UpdateAction::<String>::StoreChat@ == UpdateAction::<Seq<char>>::StoreChat,
        (UpdateAction::<String>::StoreMessage { chat_id, user_id })@ == (UpdateAction::<
            Seq<char>,
        >::StoreMessage { chat_id, user_id }),
        UpdateAction::<String>::ScheduleSlotCheck@ == UpdateAction::<Seq<char>>::ScheduleSlotCheck,
        (UpdateAction::<String>::ReadResponse { chat_id })@ == (UpdateAction::<
            Seq<char>,
        >::ReadResponse { chat_id }),
        (UpdateAction::<String>::ReadSession { chat_id })@ == (UpdateAction::<
            Seq<char>,
        >::ReadSession { chat_id }),
        (UpdateAction::StartSession { chat_id, last_response_before: option })@
            == (UpdateAction::StartSession {
            chat_id,
            last_response_before: text::text_view(option),
        }),
        (UpdateAction::Converse { prompt: s, previous: option, admin })@
            == (UpdateAction::Converse {
            prompt: s@,
            previous: text::text_view(option),
            admin,
        }),
        (UpdateAction::Reply { chat_id, text: s, response_id: option })@ == (UpdateAction::Reply {
            chat_id,
            text: s@,
            response_id: text::text_view(option),
        }),
        UpdateAction::SetModel(s)@ == UpdateAction::SetModel(s@),
        UpdateAction::SetVerbosity(s)@ == UpdateAction::SetVerbosity(s@),
        UpdateAction::SetReasoningEffort(s)@ == UpdateAction::SetReasoningEffort(s@),
        UpdateAction::Notify(s)@ == UpdateAction::Notify(s@),
        (UpdateAction::StoreResponse { chat_id, response_id: t })@
            == (UpdateAction::StoreResponse { chat_id, response_id: t@ }),
        (UpdateAction::<String>::ClearResponse { chat_id })@ == (UpdateAction::<
            Seq<char>,
        >::ClearResponse { chat_id }),
        (UpdateAction::<String>::EndSession { chat_id })@ == (UpdateAction::<
            Seq<char>,
        >::EndSession { chat_id }),
        UpdateAction::<String>::LogOtherMentions@ == UpdateAction::<Seq<char>>::LogOtherMentions,
        UpdateAction::<String>::Finish@ == UpdateAction::<Seq<char>>::Finish,
        (UpdateAction::Fail { heading: option })@ == (UpdateAction::Fail {
            heading: text::text_view(option),
        }),
        UpdateAction::<String>::FailAsConversation@ == UpdateAction::<
            Seq<char>,
        >::FailAsConversation,
{
}

/// What stands for an event, or for what was read of a session, keeps every part of it.
pub proof fn law_views_of_events_keep_every_part(
    id: i32,
    option: Option<String>,
    active: bool,
    read: SessionRead,
    outcome: AiConversationOutcome,
    error: String,
)
    ensures
        UpdateEvent::<String>::Begin@ == UpdateEvent::<Seq<char>>::Begin,
        UpdateEvent::<String>::Stored(id)@ == UpdateEvent::<Seq<char>>::Stored(id),
        UpdateEvent::<String>::Unwritable@ == UpdateEvent::<Seq<char>>::Unwritable,
        UpdateEvent::ResponseRead(option)@ == UpdateEvent::ResponseRead(text::text_view(option)),
        UpdateEvent::SessionRead(read)@ == UpdateEvent::SessionRead(read@),
        UpdateEvent::Concluded(outcome)@ == UpdateEvent::Concluded(outcome@),
        UpdateEvent::<String>::Done@ == UpdateEvent::<Seq<char>>::Done,
        UpdateEvent::Failed(error)@ == UpdateEvent::Failed(error@),
        SessionRead::<String>::Unreadable@ == SessionRead::<Seq<char>>::Unreadable,
        SessionRead::<String>::Missing@ == SessionRead::<Seq<char>>::Missing,
        (SessionRead::Found { active, last_response_before: option })@ == (SessionRead::Found {
            active,
            last_response_before: text::text_view(option),
        }),
{
}

/// What stands for a state keeps every part of it, so that no two states are taken for each other.
pub proof fn law_views_of_states_keep_every_part(
    id: i32,
    option: Option<String>,
    s: String,
    confirmed: Confirmed,
)
    ensures
        UpdateState::<String>::Start@ == UpdateState::<Seq<char>>::Start,
        UpdateState::<String>::StoringUser@ == UpdateState::<Seq<char>>::StoringUser,
        (UpdateState::<String>::StoringChat { user_id: id })@ == (UpdateState::<
            Seq<char>,
        >::StoringChat { user_id: id }),
        (UpdateState::<String>::StoringMessage { chat_id: id })@ == (UpdateState::<
            Seq<char>,
        >::StoringMessage { chat_id: id }),
        (UpdateState::<String>::SchedulingCheck { chat_id: id })@ == (UpdateState::<
            Seq<char>,
        >::SchedulingCheck { chat_id: id }),
        (UpdateState::<String>::ReadingResponse { chat_id: id })@ == (UpdateState::<
            Seq<char>,
        >::ReadingResponse { chat_id: id }),
        (UpdateState::ReadingSession { chat_id: id, previous: option })@
            == (UpdateState::ReadingSession { chat_id: id, previous: text::text_view(option) }),
        (UpdateState::StartingSession { chat_id: id, previous: option })@
            == (UpdateState::StartingSession { chat_id: id, previous: text::text_view(option) }),
        UpdateState::<String>::Acknowledging@ == UpdateState::<Seq<char>>::Acknowledging,
        (UpdateState::<String>::Conversing { chat_id: id })@ == (UpdateState::<
            Seq<char>,
        >::Conversing { chat_id: id }),
        UpdateState::<String>::Replying@ == UpdateState::<Seq<char>>::Replying,
        (UpdateState::<String>::ConfirmingReset { chat_id: id })@ == (UpdateState::<
            Seq<char>,
        >::ConfirmingReset { chat_id: id }),
        UpdateState::<String>::ForgettingResponse@ == UpdateState::<Seq<char>>::ForgettingResponse,
        (UpdateState::Changing { message: s, confirmed })@ == (UpdateState::Changing {
            message: s@,
            confirmed,
        }),
        (UpdateState::<String>::Confirming { confirmed })@ == (UpdateState::<
            Seq<char>,
        >::Confirming { confirmed }),
        (UpdateState::ReadingEndedSession { chat_id: id, message: s })@
            == (UpdateState::ReadingEndedSession { chat_id: id, message: s@ }),
        (UpdateState::RestoringResponse { chat_id: id, message: s })@
            == (UpdateState::RestoringResponse { chat_id: id, message: s@ }),
        (UpdateState::EndingSession { message: s })@ == (UpdateState::EndingSession {
            message: s@,
        }),
        UpdateState::<String>::Apologizing@ == UpdateState::<Seq<char>>::Apologizing,
        UpdateState::<String>::LoggingMentions@ == UpdateState::<Seq<char>>::LoggingMentions,
        UpdateState::<String>::Finished@ == UpdateState::<Seq<char>>::Finished,
{
}

/// A message whose mentions all mark parts of its text can be read, and so can any in a private
/// chat, without a text or without entities.
pub proof fn law_sound_messages_can_be_read(message: Message)
    ensures
        message.chat.chat_type@ == "private"@ ==> mentions_are_readable(message),
        message.text is None || message.entities is None ==> mentions_are_readable(message),
        super::can_be_logged(message) ==> mentions_are_readable(message),
{
    if let (Some(t), Some(list)) = (message.text, message.entities) {
        if super::can_be_logged(message) {
            super::law_sound_mentions_can_be_read(t@, list@);
        }
    }
}

/// The mentions in a message are read only behind its storing: to take it up, or to find the prompt
/// in it.
pub proof fn law_mentions_are_read_behind_the_storing(
    message: Message,
    state: UpdateState<Seq<char>>,
    event: UpdateEvent<Seq<char>>,
)
    requires
        reads_mentions(message, state, event),
    ensures
        state is StoringMessage && event is Done || state is SchedulingCheck && event is Done
            || state is ReadingSession && event is SessionRead || state is StartingSession && (
        event is Done || event is Failed),
{
}

/// The mentions are read wherever the message is taken up or the prompt is found in it: once the
/// session was read or started, or could not be started, once a check was scheduled, and once the
/// message was stored where none is called for.
pub proof fn law_mentions_are_read_to_find_the_prompt(
    message: Message,
    state: UpdateState<Seq<char>>,
    event: UpdateEvent<Seq<char>>,
)
    requires
        state is StoringMessage && event is Done && !(message.text matches Some(t)
            && proactive::calls_for_check(message.chat.id, t@)) || state is SchedulingCheck
            && event is Done || state is ReadingSession && event is SessionRead || state
            is StartingSession && (event is Done || event is Failed),
    ensures
        reads_mentions(message, state, event),
{
}

} // verus!
