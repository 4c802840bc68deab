//! Sending a final reply, and remembering the response it came from.

use crate::text;
use crate::text::{signed_decimal_text, starts_with};
use vstd::prelude::*;

verus! {

/// How far the sending of a reply has come.
pub enum ReplyState {
    Start,
    Sending,
    Storing { message_id: i64 },
    Remembering,
    Finished,
}

/// What happened since.
pub enum ReplyEvent {
    Begin,
    /// The reply was sent, as a message of that number.
    Sent { message_id: i64 },
    /// The message that was sent could not be written as JSON.
    Unwritable,
    Done,
    Failed,
}

/// What is to be done next.
pub enum ReplyAction<S = String> {
    Send,
    StoreMessage,
    StoreResponse(S),
    ClearResponse,
    Finish,
    /// The error that occurred is reported, under this heading.
    Fail(S),
}

impl View for ReplyAction {
    type V = ReplyAction<Seq<char>>;

    open spec fn view(&self) -> ReplyAction<Seq<char>> {
        match self {
            ReplyAction::Send => ReplyAction::Send,
            ReplyAction::StoreMessage => ReplyAction::StoreMessage,
            ReplyAction::StoreResponse(id) => ReplyAction::StoreResponse(id@),
            ReplyAction::ClearResponse => ReplyAction::ClearResponse,
            ReplyAction::Finish => ReplyAction::Finish,
            ReplyAction::Fail(heading) => ReplyAction::Fail(heading@),
        }
    }
}

/// What is remembered of the response that a reply came from: one without a number, or none at
/// all, makes the conversation begin anew.
pub open spec fn remembering(response_id: Option<Seq<char>>) -> ReplyAction<Seq<char>> {
    match response_id {
        Some(id) if !text::has_prefix(id, "error_no_id"@) => ReplyAction::StoreResponse(id),
        _ => ReplyAction::ClearResponse,
    }
}

/// The next step in sending a reply. An event that the state does not wait for ends it.
pub open spec fn next_reply_step(
    telegram_chat_id: i64,
    response_id: Option<Seq<char>>,
    state: ReplyState,
    event: ReplyEvent,
) -> (ReplyState, ReplyAction<Seq<char>>) {
    match (state, event) {
        (ReplyState::Start, ReplyEvent::Begin) => (ReplyState::Sending, ReplyAction::Send),
        (ReplyState::Sending, ReplyEvent::Sent { message_id }) => (
            ReplyState::Storing { message_id },
            ReplyAction::StoreMessage,
        ),
        (ReplyState::Sending, ReplyEvent::Failed) => (
            ReplyState::Finished,
            ReplyAction::Fail(
                "failed to send final reply to chat_id "@ + text::signed_decimal(
                    telegram_chat_id as int,
                ),
            ),
        ),
        (ReplyState::Storing { message_id }, ReplyEvent::Unwritable) => (
            ReplyState::Finished,
            ReplyAction::Fail("failed to serialize bot reply message to json"@),
        ),
        (ReplyState::Storing { message_id }, ReplyEvent::Done) => (
            ReplyState::Remembering,
            remembering(response_id),
        ),
        (ReplyState::Storing { message_id }, ReplyEvent::Failed) => (
            ReplyState::Finished,
            ReplyAction::Fail(
                "failed to insert bot final reply (id: "@ + text::signed_decimal(message_id as int)
                    + ") into database"@,
            ),
        ),
        _ => (ReplyState::Finished, ReplyAction::Finish),
    }
}

/// Takes the next step in sending a reply: it is sent, then stored, and then the response it came
/// from is remembered, whether or not that succeeds.
pub fn send_reply_and_update_state(
    telegram_chat_id: i64,
    response_id_to_store: Option<&str>,
    state: ReplyState,
    event: ReplyEvent,
) -> (r: (ReplyState, ReplyAction))
    ensures
        (r.0, r.1@) == next_reply_step(
            telegram_chat_id,
            text::slice_view(response_id_to_store),
            state,
            event,
        ),
{
    match (state, event) {
        (ReplyState::Start, ReplyEvent::Begin) => (ReplyState::Sending, ReplyAction::Send),
        (ReplyState::Sending, ReplyEvent::Sent { message_id }) => (
            ReplyState::Storing { message_id },
            ReplyAction::StoreMessage,
        ),
        (ReplyState::Sending, ReplyEvent::Failed) => {
            let mut heading = "failed to send final reply to chat_id ".to_owned();
            heading.append(signed_decimal_text(telegram_chat_id).as_str());
            (ReplyState::Finished, ReplyAction::Fail(heading))
        },
        (ReplyState::Storing { message_id: _ }, ReplyEvent::Unwritable) => (
            ReplyState::Finished,
            ReplyAction::Fail("failed to serialize bot reply message to json".to_owned()),
        ),
        (ReplyState::Storing { message_id: _ }, ReplyEvent::Done) => {
            if let Some(id) = response_id_to_store {
                if !starts_with(id, "error_no_id") {
                    return (ReplyState::Remembering, ReplyAction::StoreResponse(id.to_owned()));
                }
            }
            (ReplyState::Remembering, ReplyAction::ClearResponse)
        },
        (ReplyState::Storing { message_id }, ReplyEvent::Failed) => {
            let mut heading = "failed to insert bot final reply (id: ".to_owned();
            heading.append(signed_decimal_text(message_id).as_str());
            heading.append(") into database");
            (ReplyState::Finished, ReplyAction::Fail(heading))
        },
        _ => (ReplyState::Finished, ReplyAction::Finish),
    }
}

/// Only a reply that was sent is stored, and only after that is a response remembered or
/// forgotten.
pub proof fn law_nothing_is_remembered_of_an_unsent_reply(
    telegram_chat_id: i64,
    response_id: Option<Seq<char>>,
    state: ReplyState,
    event: ReplyEvent,
)
    ensures
        ({
            let (next, action) = next_reply_step(telegram_chat_id, response_id, state, event);
            &&& action is StoreMessage ==> state is Sending && event is Sent
            &&& next is Storing ==> state is Sending && event is Sent
            &&& action is StoreResponse || action is ClearResponse ==> state is Storing
                && event is Done
        }),
{
}

/// A reply is sent, then stored, and then the response that it came from is remembered, or
/// forgotten where there is none or it has no number; then it is done.
pub proof fn law_replies_are_sent_stored_and_remembered(
    telegram_chat_id: i64,
    response_id: Option<Seq<char>>,
    message_id: i64,
    event: ReplyEvent,
)
    ensures
        ({
            let (s1, a1) = next_reply_step(
                telegram_chat_id,
                response_id,
                ReplyState::Start,
                ReplyEvent::Begin,
            );
            let (s2, a2) = next_reply_step(
                telegram_chat_id,
                response_id,
                s1,
                ReplyEvent::Sent { message_id },
            );
            let (s3, a3) = next_reply_step(telegram_chat_id, response_id, s2, ReplyEvent::Done);
            let (s4, a4) = next_reply_step(telegram_chat_id, response_id, s3, event);
            &&& a1 == ReplyAction::<Seq<char>>::Send
            &&& a2 == ReplyAction::<Seq<char>>::StoreMessage
            &&& a3 == match response_id {
                Some(id) => if "error_no_id"@.is_prefix_of(id) {
                    ReplyAction::<Seq<char>>::ClearResponse
                } else {
                    ReplyAction::StoreResponse(id)
                },
                None => ReplyAction::<Seq<char>>::ClearResponse,
            }
            &&& a4 == ReplyAction::<Seq<char>>::Finish
        }),
{
    if let Some(id) = response_id {
        text::law_prefix_and_suffix(id, "error_no_id"@);
    }
}

/// What fails on the way is reported under a heading that says what it was: the chat that the reply
/// could not be sent to, or the message that could not be stored.
pub proof fn law_failures_on_the_way_are_reported(
    telegram_chat_id: i64,
    response_id: Option<Seq<char>>,
    message_id: i64,
)
    ensures
        next_reply_step(telegram_chat_id, response_id, ReplyState::Sending, ReplyEvent::Failed).1
            == ReplyAction::Fail(
            "failed to send final reply to chat_id "@ + text::signed_decimal(
                telegram_chat_id as int,
            ),
        ),
        next_reply_step(
            telegram_chat_id,
            response_id,
            ReplyState::Storing { message_id },
            ReplyEvent::Unwritable,
        ).1 == ReplyAction::Fail("failed to serialize bot reply message to json"@),
        next_reply_step(
            telegram_chat_id,
            response_id,
            ReplyState::Storing { message_id },
            ReplyEvent::Failed,
        ).1 == ReplyAction::Fail(
            "failed to insert bot final reply (id: "@ + text::signed_decimal(message_id as int)
                + ") into database"@,
        ),
{
}

/// What stands for an action keeps every part of it.
pub proof fn law_views_keep_every_part(s: String)
    ensures
        ReplyAction::<String>::Send@ == ReplyAction::<Seq<char>>::Send,
        ReplyAction::<String>::StoreMessage@ == ReplyAction::<Seq<char>>::StoreMessage,
        ReplyAction::StoreResponse(s)@ == ReplyAction::StoreResponse(s@),
        ReplyAction::<String>::ClearResponse@ == ReplyAction::<Seq<char>>::ClearResponse,
        ReplyAction::<String>::Finish@ == ReplyAction::<Seq<char>>::Finish,
        ReplyAction::Fail(s)@ == ReplyAction::Fail(s@),
{
}

} // verus!
