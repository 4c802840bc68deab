//! Admin sessions: while one is active, the model may call the tools that are only for admins.

use crate::text;
use crate::text::signed_decimal_text;
use crate::time::Timestamp;
use vstd::prelude::*;

verus! {

/// What is stored of the admin session of a chat. The last response before the session is where
/// the conversation goes on when it ends.
#[derive(Debug)]
pub struct AdminSessionState {
    pub active: bool,
    pub started_at: Option<Timestamp>,
    pub last_response_id_before_admin: Option<String>,
}

impl AdminSessionState {
    /// No session.
    #[must_use]
    pub fn inactive() -> (r: Self)
        ensures
            !r.active,
            r.started_at is None,
            r.last_response_id_before_admin is None,
    {
        AdminSessionState { active: false, started_at: None, last_response_id_before_admin: None }
    }
}

impl Clone for AdminSessionState {
    fn clone(&self) -> (r: Self)
        ensures
            r == *self,
    {
        AdminSessionState {
            active: self.active,
            started_at: self.started_at,
            last_response_id_before_admin: crate::openai_api::types::copy_option(
                &self.last_response_id_before_admin,
            ),
        }
    }
}

/// The key under which the session of a chat is stored.
pub open spec fn session_key(local_chat_id: int) -> Seq<char> {
    "admin_session:chat:"@ + text::signed_decimal(local_chat_id)
}

/// The key under which the session of a chat is stored.
pub fn admin_session_key(local_chat_id: i32) -> (r: String)
    ensures
        r@ == session_key(local_chat_id as int),
{
    let mut out = "admin_session:chat:".to_owned();
    out.append(signed_decimal_text(local_chat_id as i64).as_str());
    out
}

/// What is stored when a session starts.
pub fn start_admin_session(now: Timestamp, last_response_id_before_admin: Option<String>) -> (r:
    AdminSessionState)
    ensures
        r == (AdminSessionState {
            active: true,
            started_at: Some(now),
            last_response_id_before_admin,
        }),
{
    AdminSessionState { active: true, started_at: Some(now), last_response_id_before_admin }
}

/// What is stored when a session ends.
pub fn end_admin_session() -> (r: AdminSessionState)
    ensures
        !r.active,
        r.started_at is None,
        r.last_response_id_before_admin is None,
{
    AdminSessionState::inactive()
}

/// What is stored when another response becomes the last before the session.
pub fn update_admin_session_last_response_id(
    stored: Option<AdminSessionState>,
    last_response_id_before_admin: Option<String>,
) -> (r: AdminSessionState)
    ensures
        r.last_response_id_before_admin == last_response_id_before_admin,
        match stored {
            Some(state) => r.active == state.active && r.started_at == state.started_at,
            None => !r.active && r.started_at is None,
        },
{
    let state = match stored {
        Some(s) => s,
        None => AdminSessionState::inactive(),
    };
    AdminSessionState {
        active: state.active,
        started_at: state.started_at,
        last_response_id_before_admin,
    }
}

/// Whether a session is active, from what is stored; where that cannot be read, none is.
pub open spec fn session_active(stored: Result<Option<AdminSessionState>, String>) -> bool {
    match stored {
        Ok(Some(state)) => state.active,
        _ => false,
    }
}

/// Whether a session is active, from what is stored; where that cannot be read, none is.
pub fn admin_session_is_active(stored: &Result<Option<AdminSessionState>, String>) -> (r: bool)
    ensures
        r == session_active(*stored),
{
    match stored {
        Ok(Some(state)) => state.active,
        _ => false,
    }
}

/// Two chats never share a session: the keys are different unless the chats are the same.
pub proof fn law_sessions_are_kept_apart(chat_a: int, chat_b: int)
    requires
        session_key(chat_a) == session_key(chat_b),
    ensures
        chat_a == chat_b,
{
    let prefix = "admin_session:chat:"@;
    let whole = session_key(chat_a);
    assert(text::signed_decimal(chat_a) =~= whole.skip(prefix.len() as int));
    assert(text::signed_decimal(chat_b) =~= whole.skip(prefix.len() as int));
    text::law_signed_decimal_is_unique(chat_a, chat_b);
}

/// Only what is stored as active is an active session.
pub proof fn law_sessions_are_active_as_stored(state: AdminSessionState, error: String)
    ensures
        session_active(Ok(Some(state))) <==> state.active,
        !session_active(Ok(None)),
        !session_active(Err(error)),
{
}

/// A session is stored under a name of its own kind, with the number of its chat.
pub proof fn law_sessions_are_stored_by_chat(local_chat_id: int)
    ensures
        session_key(local_chat_id) == "admin_session:chat:"@ + text::signed_decimal(local_chat_id),
{
}

/// A session that was started is active until it is ended, whatever response is noted meanwhile:
/// noting one keeps whether the session is active and since when, and puts the response in.
pub proof fn law_sessions_last_until_they_are_ended(
    now: Timestamp,
    id: Option<String>,
    other: Option<String>,
    stored: AdminSessionState,
    started: AdminSessionState,
    noted: AdminSessionState,
    ended: AdminSessionState,
)
    requires
        call_ensures(start_admin_session, (now, id), started),
        call_ensures(update_admin_session_last_response_id, (Some(stored), other), noted),
        call_ensures(end_admin_session, (), ended),
    ensures
        session_active(Ok(Some(started))),
        started.started_at == Some(now),
        started.last_response_id_before_admin == id,
        session_active(Ok(Some(noted))) == session_active(Ok(Some(stored))),
        noted.started_at == stored.started_at,
        noted.last_response_id_before_admin == other,
        !session_active(Ok(Some(ended))),
        ended.started_at is None,
        ended.last_response_id_before_admin is None,
{
}

} // verus!
