//! What the database holds of messages.

use crate::telegram::types::Message;
use crate::text;
use crate::text::signed_decimal_text;
use crate::time;
use crate::time::{from_unix, Timestamp};
use vstd::prelude::*;

verus! {

/// A message of the history of a chat.
#[derive(Debug)]
pub struct MessageFromHistory {
    pub sender_id: i32,
    pub text: Option<String>,
}

/// A message with what is known of its sender.
#[derive(Debug)]
pub struct MessageWithSender {
    pub text: Option<String>,
    pub sender_username: Option<String>,
    pub sender_first_name: String,
    pub sender_id: i32,
    pub is_bot: bool,
    pub sent_at: Timestamp,
}

/// The history in the order in which it was sent, from rows that give the latest first.
pub fn get_message_history(latest_first: Vec<MessageFromHistory>) -> (r: Vec<MessageFromHistory>)
    ensures
        r@ == latest_first@.reverse(),
{
    let ghost rows = latest_first@;
    let mut rest = latest_first;
    let mut out: Vec<MessageFromHistory> = Vec::new();
    while rest.len() > 0
        invariant
            out@.len() + rest@.len() == rows.len(),
            rest@ == rows.take(rest@.len() as int),
            forall|i: int| 0 <= i < out@.len() ==> out@[i] == rows[rows.len() - 1 - i],
        decreases rest@.len(),
    {
        let ghost k = rest@.len() - 1;
        if let Some(message) = rest.pop() {
            proof {
                assert(message == rows[k]);
            }
            out.push(message);
        }
    }
    proof {
        assert(out@ =~= rows.reverse());
    }
    out
}

/// When a message was sent, as it is stored, or why it cannot be.
pub open spec fn sent_at(date: i64) -> Result<Timestamp, Seq<char>> {
    if time::in_calendar(date as int) {
        Ok((Timestamp { seconds: date, nanos: 0 }))
    } else {
        Err(
            "failed to convert telegram message date "@ + text::signed_decimal(date as int)
                + " to naivedatetime"@,
        )
    }
}

/// When a message was sent, as it is stored with it, or why it cannot be.
pub fn insert_message(message_data: &Message) -> (r: Result<Timestamp, String>)
    ensures
        text::message_view(r) == sent_at(message_data.date),
{
    match from_unix(message_data.date) {
        Some(at) => Ok(at),
        None => {
            let mut message = "failed to convert telegram message date ".to_owned();
            message.append(signed_decimal_text(message_data.date).as_str());
            message.append(" to naivedatetime");
            Err(message)
        },
    }
}

/// A message is stored with the second in which it was sent, where the calendar has it; else it is
/// told that it cannot be, with the date.
pub proof fn law_messages_are_stored_when_they_were_sent(date: i64)
    ensures
        -8_334_601_228_800 <= date <= 8_210_266_876_799 ==> sent_at(date) == Ok::<
            Timestamp,
            Seq<char>,
        >((Timestamp { seconds: date, nanos: 0 })),
        !(-8_334_601_228_800 <= date <= 8_210_266_876_799) ==> sent_at(date) == Err::<
            Timestamp,
            Seq<char>,
        >(
            "failed to convert telegram message date "@ + text::signed_decimal(date as int)
                + " to naivedatetime"@,
        ),
{
}

} // verus!
