//! Where the last response of a conversation is kept: with the chat, or, for a forum topic, with
//! the topic.

use crate::ai_interaction::topic_context;
use crate::ai_interaction::topic_context::topic_response_key;
use vstd::prelude::*;

verus! {

/// A conversation: a chat, or a topic of it.
#[derive(Debug, Clone, Copy, PartialEq, Eq, Structural)]
pub struct ConversationKey {
    pub local_chat_id: i32,
    pub message_thread_id: Option<i64>,
}

/// Where the last response of a conversation is kept.
pub enum ResponsePlace<S = String> {
    Chat(i32),
    Topic(S),
}

/// The place behind its string.
pub open spec fn place_view(place: ResponsePlace) -> ResponsePlace<Seq<char>> {
    match place {
        ResponsePlace::Chat(id) => ResponsePlace::Chat(id),
        ResponsePlace::Topic(key) => ResponsePlace::Topic(key@),
    }
}

impl ConversationKey {
    /// The conversation of a chat, or of a topic of it.
    pub fn new(local_chat_id: i32, message_thread_id: Option<i64>) -> (r: Self)
        ensures
            r.local_chat_id == local_chat_id,
            r.message_thread_id == message_thread_id,
    {
        ConversationKey { local_chat_id, message_thread_id }
    }

    /// Whether it is the conversation of a topic.
    pub fn is_topic(&self) -> (r: bool)
        ensures
            r == (self.message_thread_id is Some),
    {
        self.message_thread_id.is_some()
    }

    /// Where the last response is kept.
    pub open spec fn place(self) -> ResponsePlace<Seq<char>> {
        match self.message_thread_id {
            Some(thread_id) => ResponsePlace::Topic(
                topic_context::topic_key(self.local_chat_id as int, thread_id as int),
            ),
            None => ResponsePlace::Chat(self.local_chat_id),
        }
    }
}

fn response_place(key: &ConversationKey) -> (r: ResponsePlace)
    ensures
        place_view(r) == key.place(),
{
    match key.message_thread_id {
        Some(thread_id) => ResponsePlace::Topic(topic_response_key(key.local_chat_id, thread_id)),
        None => ResponsePlace::Chat(key.local_chat_id),
    }
}

/// Where the last response of a conversation is read.
pub fn get_response_id(key: &ConversationKey) -> (r: ResponsePlace)
    ensures
        place_view(r) == key.place(),
{
    response_place(key)
}

/// Where the last response of a conversation is stored.
pub fn update_response_id(key: &ConversationKey) -> (r: ResponsePlace)
    ensures
        place_view(r) == key.place(),
{
    response_place(key)
}

/// Where the last response of a conversation is cleared.
pub fn clear_response_id(key: &ConversationKey) -> (r: ResponsePlace)
    ensures
        place_view(r) == key.place(),
{
    response_place(key)
}

/// Two conversations never share a place, so none ever reads what another stored.
pub proof fn law_conversations_are_kept_apart(a: ConversationKey, b: ConversationKey)
    requires
        a.place() == b.place(),
    ensures
        a == b,
{
    if let (Some(x), Some(y)) = (a.message_thread_id, b.message_thread_id) {
        topic_context::law_topics_are_kept_apart(
            a.local_chat_id as int,
            x as int,
            b.local_chat_id as int,
            y as int,
        );
    }
}

/// The last response of a topic is kept with the topic, and that of a chat with the chat.
pub proof fn law_topics_have_places_of_their_own(key: ConversationKey)
    ensures
        key.message_thread_id matches Some(thread_id) ==> key.place() == ResponsePlace::Topic(
            topic_context::topic_key(key.local_chat_id as int, thread_id as int),
        ),
        key.message_thread_id is None ==> key.place() == ResponsePlace::<Seq<char>>::Chat(
            key.local_chat_id,
        ),
{
}

/// What stands for a place keeps every part of it.
pub proof fn law_views_keep_every_part(id: i32, key: String)
    ensures
        place_view(ResponsePlace::Chat(id)) == ResponsePlace::<Seq<char>>::Chat(id),
        place_view(ResponsePlace::Topic(key)) == ResponsePlace::Topic(key@),
{
}

} // verus!
