//! What the bot tells the model of the messages that it missed.

use crate::db::MessageWithSender;
use crate::text;
use crate::text::join_texts;
use crate::time;
use crate::time::{from_unix, Timestamp};
use vstd::prelude::*;

verus! {

/// How many missed messages are looked at.
pub const MAX_MISSED_MESSAGES: i64 = 50;

/// The name under which a sender is shown: the user name, else the first name.
pub open spec fn display_name(message: MessageWithSender) -> Seq<char> {
    match message.sender_username {
        Some(name) => "@"@ + name@,
        None => message.sender_first_name@,
    }
}

/// The name under which a sender is shown.
pub fn get_sender_display_name(msg: &MessageWithSender) -> (r: String)
    ensures
        r@ == display_name(*msg),
{
    match &msg.sender_username {
        Some(name) => {
            let mut out = "@".to_owned();
            out.append(name.as_str());
            out
        },
        None => msg.sender_first_name.clone(),
    }
}

/// How a message is shown.
pub open spec fn message_line(message: MessageWithSender) -> Seq<char> {
    display_name(message) + ": "@ + match message.text {
        Some(s) => s@,
        None => seq![],
    }
}

/// The lines that show messages, behind a heading.
pub open spec fn context_lines(messages: Seq<MessageWithSender>) -> Seq<Seq<char>> {
    seq!["[Recent conversation in this chat:]"@] + messages.map_values(
        |m: MessageWithSender| message_line(m),
    )
}

/// The messages that are referred to.
pub open spec fn referred(messages: Seq<&MessageWithSender>) -> Seq<MessageWithSender> {
    messages.map_values(|m: &MessageWithSender| *m)
}

/// Shows messages, one a line, behind a heading.
pub fn format_context_block(messages: &Vec<&MessageWithSender>) -> (r: String)
    ensures
        r@ == text::join(context_lines(referred(messages@)), "\n"@),
{
    let mut lines: Vec<String> = Vec::new();
    lines.push("[Recent conversation in this chat:]".to_owned());
    let mut i: usize = 0;
    proof {
        assert(text::texts(lines@) =~= context_lines(referred(messages@)).take(1));
    }
    while i < messages.len()
        invariant
            i <= messages@.len(),
            text::texts(lines@) == context_lines(referred(messages@)).take(i + 1),
        decreases messages@.len() - i,
    {
        let ghost before = text::texts(lines@);
        let msg: &MessageWithSender = messages[i];
        let mut line = get_sender_display_name(msg);
        line.append(": ");
        match &msg.text {
            Some(s) => line.append(s.as_str()),
            None => {
                proof {
                    assert(line@ + Seq::<char>::empty() =~= line@);
                }
            },
        }
        lines.push(line);
        proof {
            assert(text::texts(lines@) =~= before.push(message_line(*messages@[i as int])));
            assert(context_lines(referred(messages@)).take(i + 2) =~= before.push(
                message_line(*messages@[i as int]),
            ));
        }
        i += 1;
    }
    proof {
        assert(context_lines(referred(messages@)).take(i + 1) =~= context_lines(referred(messages@)));
    }
    join_texts(&lines, "\n")
}

/// Whether a missed message is worth showing: it has a text and is not of the bot.
pub open spec fn is_shown(message: MessageWithSender, bot_db_id: i32) -> bool {
    message.sender_id != bot_db_id && message.text is Some
}

/// The missed messages that are shown, in order.
pub open spec fn shown(messages: Seq<MessageWithSender>, bot_db_id: i32) -> Seq<MessageWithSender>
    decreases messages.len(),
{
    if messages.len() == 0 {
        seq![]
    } else if is_shown(messages.last(), bot_db_id) {
        shown(messages.drop_last(), bot_db_id).push(messages.last())
    } else {
        shown(messages.drop_last(), bot_db_id)
    }
}

/// The prompt behind the missed messages that are shown, or the prompt alone where there are none.
/// `missed` is nothing where the bot has never spoken before.
pub open spec fn prompt_in_context(
    missed: Option<Seq<MessageWithSender>>,
    prompt: Seq<char>,
    bot_db_id: i32,
) -> Seq<char> {
    match missed {
        None => prompt,
        Some(messages) => {
            let list = shown(messages, bot_db_id);
            if list.len() == 0 {
                prompt
            } else {
                text::join(context_lines(list), "\n"@) + "\n\n[Your message:]\n"@ + prompt
            }
        },
    }
}

/// Puts the missed messages before a prompt.
pub fn build_context_with_missed_messages(
    missed: &Option<Vec<MessageWithSender>>,
    current_prompt: &str,
    bot_db_id: i32,
) -> (r: String)
    ensures
        r@ == prompt_in_context(
            match missed {
                Some(messages) => Some(messages@),
                None => None,
            },
            current_prompt@,
            bot_db_id,
        ),
{
    let messages = match missed {
        Some(m) => m,
        None => {
            return current_prompt.to_owned();
        },
    };
    let mut list: Vec<&MessageWithSender> = Vec::new();
    let mut i: usize = 0;
    while i < messages.len()
        invariant
            i <= messages@.len(),
            referred(list@) == shown(messages@.take(i as int), bot_db_id),
        decreases messages@.len() - i,
    {
        proof {
            assert(messages@.take(i + 1).drop_last() =~= messages@.take(i as int));
        }
        if messages[i].sender_id != bot_db_id && messages[i].text.is_some() {
            let ghost before = list@;
            list.push(&messages[i]);
            proof {
                assert(referred(list@) =~= referred(before).push(messages@[i as int]));
            }
        }
        i += 1;
    }
    proof {
        assert(messages@.take(i as int) =~= messages@);
    }
    if list.len() == 0 {
        return current_prompt.to_owned();
    }
    let mut out = format_context_block(&list);
    out.append("\n\n[Your message:]\n");
    out.append(current_prompt);
    out
}

/// The point in time that lies a number of seconds behind 1970, where the calendar has it.
pub fn unix_to_datetime(timestamp: i64) -> (r: Option<Timestamp>)
    ensures
        r == (if time::in_calendar(timestamp as int) {
            Some((Timestamp { seconds: timestamp, nanos: 0 }))
        } else {
            None
        }),
{
    from_unix(timestamp)
}

/// The bot is never told its own messages: every message that is shown is another sender's and
/// has a text.
pub proof fn law_own_messages_are_not_shown(messages: Seq<MessageWithSender>, bot_db_id: i32)
    ensures
        forall|i: int|
            0 <= i < shown(messages, bot_db_id).len() ==> is_shown(
                #[trigger] shown(messages, bot_db_id)[i],
                bot_db_id,
            ),
    decreases messages.len(),
{
    if messages.len() > 0 {
        law_own_messages_are_not_shown(messages.drop_last(), bot_db_id);
        let before = shown(messages.drop_last(), bot_db_id);
        let all = shown(messages, bot_db_id);
        assert forall|i: int| 0 <= i < all.len() implies is_shown(#[trigger] all[i], bot_db_id) by {
            if i < before.len() {
                assert(all[i] == before[i]);
            }
        }
    }
}

/// Nothing worth showing is left out: the messages that are shown are just those that have a text
/// and another sender than the bot, each once and in the order given.
pub proof fn law_everything_worth_showing_is_shown(
    messages: Seq<MessageWithSender>,
    bot_db_id: i32,
)
    ensures
        shown(messages, bot_db_id) == messages.filter(
            |m: MessageWithSender| m.sender_id != bot_db_id && m.text is Some,
        ),
        forall|i: int|
            0 <= i < messages.len() && (#[trigger] messages[i]).sender_id != bot_db_id
                && messages[i].text is Some ==> shown(messages, bot_db_id).contains(messages[i]),
    decreases messages.len(),
{
    reveal(Seq::filter);
    if messages.len() > 0 {
        let before = messages.drop_last();
        law_everything_worth_showing_is_shown(before, bot_db_id);
        let some = shown(before, bot_db_id);
        let all = shown(messages, bot_db_id);
        assert forall|i: int|
            0 <= i < messages.len() && (#[trigger] messages[i]).sender_id != bot_db_id
                && messages[i].text is Some implies all.contains(messages[i]) by {
            if i < before.len() {
                assert(before[i] == messages[i]);
                let k = choose|k: int| 0 <= k < some.len() && some[k] == messages[i];
                assert(all[k] == messages[i]);
            } else {
                assert(all[all.len() - 1] == messages[i]);
            }
        }
    }
}

/// A prompt that follows on nothing is left as it is.
pub proof fn law_without_missed_messages_the_prompt_stays(prompt: Seq<char>, bot_db_id: i32)
    ensures
        prompt_in_context(None, prompt, bot_db_id) == prompt,
        prompt_in_context(Some(seq![]), prompt, bot_db_id) == prompt,
{
}

/// One more missed message adds its line behind those already told and before the prompt: the
/// sender's user name with an at sign, or else the first name, a colon and the text. The first one
/// brings the two headings with it. A message of the bot, or one without a text, adds nothing.
pub proof fn law_each_message_adds_its_line(
    messages: Seq<MessageWithSender>,
    message: MessageWithSender,
    prompt: Seq<char>,
    bot_db_id: i32,
)
    ensures
        ({
            let before = prompt_in_context(Some(messages), prompt, bot_db_id);
            let after = prompt_in_context(Some(messages.push(message)), prompt, bot_db_id);
            let tail = "\n\n[Your message:]\n"@ + prompt;
            let head = before.take(before.len() - tail.len());
            let name = match message.sender_username {
                Some(username) => "@"@ + username@,
                None => message.sender_first_name@,
            };
            if message.sender_id == bot_db_id || message.text is None {
                after == before
            } else if forall|i: int|
                0 <= i < messages.len() ==> (#[trigger] messages[i]).sender_id == bot_db_id
                    || messages[i].text is None {
                before == prompt && after == "[Recent conversation in this chat:]"@ + "\n"@ + (name
                    + ": "@ + message.text->0@) + tail
            } else {
                before == head + tail && after == head + "\n"@ + (name + ": "@
                    + message.text->0@) + tail
            }
        }),
{
    let before = prompt_in_context(Some(messages), prompt, bot_db_id);
    let after = prompt_in_context(Some(messages.push(message)), prompt, bot_db_id);
    let tail = "\n\n[Your message:]\n"@ + prompt;
    let some = shown(messages, bot_db_id);
    let all = shown(messages.push(message), bot_db_id);
    assert(messages.push(message).drop_last() =~= messages);
    law_everything_worth_showing_is_shown(messages, bot_db_id);
    law_own_messages_are_not_shown(messages, bot_db_id);
    if message.sender_id != bot_db_id && message.text is Some {
        let line = message_line(message);
        assert(all == some.push(message));
        let lines = context_lines(all);
        assert(lines.drop_last() =~= context_lines(some));
        assert(lines.last() == line);
        let block = text::join(context_lines(some), "\n"@);
        assert(text::join(lines, "\n"@) == block + "\n"@ + line);
        assert(after =~= block + "\n"@ + line + tail);
        if some.len() == 0 {
            assert(context_lines(some) =~= seq!["[Recent conversation in this chat:]"@]);
            assert(block == "[Recent conversation in this chat:]"@);
            assert forall|i: int| 0 <= i < messages.len() implies (
            #[trigger] messages[i]).sender_id == bot_db_id || messages[i].text is None by {
                if messages[i].sender_id != bot_db_id && messages[i].text is Some {
                    assert(some.contains(messages[i]));
                }
            }
        } else {
            assert(before =~= block + tail);
            assert(before.take(before.len() - tail.len()) =~= block);
            let m = some[0];
            assert(messages.contains(m)) by {
                lemma_shown_are_given(messages, bot_db_id, 0);
            }
            let k = choose|k: int| 0 <= k < messages.len() && messages[k] == m;
            assert(messages[k].sender_id != bot_db_id && messages[k].text is Some);
        }
    }
}

proof fn lemma_shown_are_given(messages: Seq<MessageWithSender>, bot_db_id: i32, i: int)
    requires
        0 <= i < shown(messages, bot_db_id).len(),
    ensures
        messages.contains(shown(messages, bot_db_id)[i]),
    decreases messages.len(),
{
    if messages.len() > 0 {
        let before = messages.drop_last();
        let m = shown(messages, bot_db_id)[i];
        if i < shown(before, bot_db_id).len() {
            lemma_shown_are_given(before, bot_db_id, i);
            let k = choose|k: int| 0 <= k < before.len() && before[k] == m;
            assert(messages[k] == m);
        } else {
            assert(messages[messages.len() - 1] == m);
        }
    }
}

} // verus!
