//! The objects of Telegram's bot API that the bot reads.

use vstd::prelude::*;

verus! {

/// The envelope of every answer of the API.
#[derive(Debug, Clone)]
pub struct ApiResponse<T> {
    pub ok: bool,
    pub result: Option<T>,
    pub description: Option<String>,
    pub error_code: Option<i32>,
}

/// One incoming update.
#[derive(Debug, Clone)]
pub struct Update {
    pub update_id: i64,
    pub message: Option<Message>,
}

/// A message. `message_thread_id` is the forum topic it belongs to, `from` is missing for posts in
/// channels, and `date` counts seconds since 1970.
#[derive(Debug, Clone)]
pub struct Message {
    pub message_id: i64,
    pub message_thread_id: Option<i64>,
    pub from: Option<User>,
    pub chat: Chat,
    pub date: i64,
    pub text: Option<String>,
    pub entities: Option<Vec<MessageEntity>>,
}

/// A user or bot.
#[derive(Debug, Clone)]
pub struct User {
    pub id: i64,
    pub is_bot: bool,
    pub first_name: String,
    pub last_name: Option<String>,
    pub username: Option<String>,
}

/// A chat; its type is "private", "group", "supergroup" or "channel".
#[derive(Debug, Clone)]
pub struct Chat {
    pub id: i64,
    pub chat_type: String,
    pub title: Option<String>,
    pub username: Option<String>,
    pub first_name: Option<String>,
    pub last_name: Option<String>,
}

/// A marked part of a message's text, by the offset and the length of its bytes.
#[derive(Debug, Clone)]
pub struct MessageEntity {
    pub entity_type: String,
    pub offset: usize,
    pub length: usize,
    pub url: Option<String>,
    pub user: Option<User>,
}

} // verus!
