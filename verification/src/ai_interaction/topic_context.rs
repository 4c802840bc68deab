//! The conversation of each forum topic, which is kept apart from that of its chat: where the last
//! response of a topic is stored, and as what.

use crate::text;
use crate::text::signed_decimal_text;
use vstd::prelude::*;

verus! {

/// What is stored of the conversation of a topic.
#[derive(Debug)]
pub struct TopicResponseState {
    pub last_openai_response_id: Option<String>,
}

/// The key under which the conversation of a topic is stored.
pub open spec fn topic_key(local_chat_id: int, thread_id: int) -> Seq<char> {
    "topic_response_id:chat:"@ + text::signed_decimal(local_chat_id) + ":thread:"@
        + text::signed_decimal(thread_id)
}

/// The key under which the conversation of a topic is stored.
pub fn topic_response_key(local_chat_id: i32, thread_id: i64) -> (r: String)
    ensures
        r@ == topic_key(local_chat_id as int, thread_id as int),
{
    let mut out = "topic_response_id:chat:".to_owned();
    out.append(signed_decimal_text(local_chat_id as i64).as_str());
    out.append(":thread:");
    out.append(signed_decimal_text(thread_id).as_str());
    out
}

/// The last response of a topic, from what is stored of it.
pub fn get_topic_response_id(stored: Option<TopicResponseState>) -> (r: Option<String>)
    ensures
        r == (match stored {
            Some(state) => state.last_openai_response_id,
            None => None,
        }),
{
    match stored {
        Some(state) => state.last_openai_response_id,
        None => None,
    }
}

/// What is stored once a response is the last of its topic.
pub fn set_topic_response_id(response_id: &str) -> (r: TopicResponseState)
    ensures
        text::text_view(r.last_openai_response_id) == Some(response_id@),
{
    TopicResponseState { last_openai_response_id: Some(response_id.to_owned()) }
}

/// What is stored once a topic begins anew.
pub fn clear_topic_response_id() -> (r: TopicResponseState)
    ensures
        r.last_openai_response_id is None,
{
    TopicResponseState { last_openai_response_id: None }
}

/// Two topics never share what is stored: the keys are different unless chat and thread are the
/// same.
pub proof fn law_topics_are_kept_apart(chat_a: int, thread_a: int, chat_b: int, thread_b: int)
    requires
        topic_key(chat_a, thread_a) == topic_key(chat_b, thread_b),
    ensures
        chat_a == chat_b,
        thread_a == thread_b,
{
    reveal_strlit(":thread:");
    let prefix = "topic_response_id:chat:"@;
    let a = text::signed_decimal(chat_a);
    let b = text::signed_decimal(chat_b);
    let x = text::signed_decimal(thread_a);
    let y = text::signed_decimal(thread_b);
    let mid = ":thread:"@;
    let whole = topic_key(chat_a, thread_a);
    let rest = whole.skip(prefix.len() as int);
    assert(rest =~= a + mid + x);
    assert(rest =~= b + mid + y);
    text::lemma_decimal_has_no(chat_a, ':');
    text::lemma_decimal_has_no(chat_b, ':');
    if a.len() < b.len() {
        assert(rest[a.len() as int] == ':');
        assert(rest[a.len() as int] == b[a.len() as int]);
    }
    if b.len() < a.len() {
        assert(rest[b.len() as int] == ':');
        assert(rest[b.len() as int] == a[b.len() as int]);
    }
    assert(a =~= rest.take(a.len() as int));
    assert(b =~= rest.take(b.len() as int));
    assert(x =~= rest.skip(a.len() as int + mid.len() as int));
    assert(y =~= rest.skip(b.len() as int + mid.len() as int));
    text::law_signed_decimal_is_unique(chat_a, chat_b);
    text::law_signed_decimal_is_unique(thread_a, thread_b);
}

/// A topic is stored under a name of its own kind, with the numbers of its chat and thread, which no
/// admin session is stored under.
pub proof fn law_topics_are_stored_by_chat_and_thread(local_chat_id: int, thread_id: int, chat: int)
    ensures
        topic_key(local_chat_id, thread_id) == "topic_response_id:chat:"@ + text::signed_decimal(
            local_chat_id,
        ) + ":thread:"@ + text::signed_decimal(thread_id),
        topic_key(local_chat_id, thread_id) != super::admin_session::session_key(chat),
{
    reveal_strlit("topic_response_id:chat:");
    reveal_strlit("admin_session:chat:");
    assert(topic_key(local_chat_id, thread_id)[0] == 't');
    assert(super::admin_session::session_key(chat)[0] == 'a');
}

/// What was stored of a topic is read back: the response that was set, or none once the topic was
/// begun anew; a topic of which nothing is stored has none.
pub proof fn law_responses_are_read_back(
    response_id: &str,
    set: TopicResponseState,
    cleared: TopicResponseState,
    read: Option<String>,
    read_cleared: Option<String>,
    read_nothing: Option<String>,
)
    requires
        call_ensures(set_topic_response_id, (response_id,), set),
        call_ensures(clear_topic_response_id, (), cleared),
        call_ensures(get_topic_response_id, (Some(set),), read),
        call_ensures(get_topic_response_id, (Some(cleared),), read_cleared),
        call_ensures(get_topic_response_id, (None,), read_nothing),
    ensures
        text::text_view(read) == Some(response_id@),
        read_cleared is None,
        read_nothing is None,
{
}

} // verus!
