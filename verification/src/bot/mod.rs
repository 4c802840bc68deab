//! The bot: what it makes of the updates that Telegram sends.

pub mod context_builder;
pub mod conversation_context;
pub mod polling;
pub mod proactive;
pub mod reply;
pub mod update;

pub use reply::send_reply_and_update_state;
pub use update::handle_telegram_update;

use crate::telegram::types::{Message, MessageEntity};
use crate::text;
use crate::text::{
    can_slice, collapse_white_space, contains, eq_ignore_ascii_case, replace, same_text, slice_bytes,
};
use vstd::prelude::*;

verus! {

pub const BOT_USERNAME: &'static str = "@lexi_alex_bot";

/// Whether an entity marks a mention of some user.
pub open spec fn is_mention(entity: MessageEntity) -> bool {
    entity.entity_type@ == "mention"@
}

/// The part of a text that an entity marks.
pub open spec fn marked(text: Seq<char>, entity: MessageEntity) -> Seq<char> {
    text::byte_slice(text, entity.offset as int, entity.length as int)
}

/// Whether an entity marks a part of a text at all.
pub open spec fn marks(text: Seq<char>, entity: MessageEntity) -> bool {
    text::sliceable(text, entity.offset as int, entity.length as int)
}

/// Whether an entity marks a mention of the bot.
pub open spec fn names_bot(text: Seq<char>, entity: MessageEntity) -> bool {
    is_mention(entity) && text::same_ignoring_case(marked(text, entity), BOT_USERNAME@)
}

/// The first entity that marks a mention of the bot.
pub open spec fn first_bot_mention(text: Seq<char>, entities: Seq<MessageEntity>) -> Option<
    MessageEntity,
>
    decreases entities.len(),
{
    if entities.len() == 0 {
        None
    } else if names_bot(text, entities[0]) {
        Some(entities[0])
    } else {
        first_bot_mention(text, entities.drop_first())
    }
}

/// Whether every mention up to the first one of the bot marks a part of the text.
pub open spec fn readable(text: Seq<char>, entities: Seq<MessageEntity>) -> bool
    decreases entities.len(),
{
    entities.len() == 0 || {
        &&& is_mention(entities[0]) ==> marks(text, entities[0])
        &&& names_bot(text, entities[0]) || readable(text, entities.drop_first())
    }
}

/// Whether every mention marks a part of the text.
pub open spec fn all_readable(text: Seq<char>, entities: Seq<MessageEntity>) -> bool {
    forall|i: int|
        0 <= i < entities.len() && is_mention(#[trigger] entities[i]) ==> marks(text, entities[i])
}

/// Whether every mention up to the first one of the bot marks a part of the text.
pub fn can_read_mentions(text: &str, entities: &Vec<MessageEntity>) -> (r: bool)
    ensures
        r == readable(text@, entities@),
{
    let mut i: usize = 0;
    proof {
        assert(entities@.skip(0) =~= entities@);
    }
    while i < entities.len()
        invariant
            i <= entities@.len(),
            readable(text@, entities@) == readable(text@, entities@.skip(i as int)),
        decreases entities@.len() - i,
    {
        proof {
            assert(entities@.skip(i as int)[0] == entities@[i as int]);
            assert(entities@.skip(i as int).drop_first() =~= entities@.skip(i + 1));
        }
        if same_text(entities[i].entity_type.as_str(), "mention") {
            if !can_slice(text, entities[i].offset, entities[i].length) {
                return false;
            }
            let mention = slice_bytes(text, entities[i].offset, entities[i].length);
            if eq_ignore_ascii_case(mention, BOT_USERNAME) {
                return true;
            }
        }
        i += 1;
    }
    true
}

/// Finds the first entity that marks a mention of the bot.
pub(crate) fn find_bot_mention(text: &str, entities: &Vec<MessageEntity>) -> (r: Option<usize>)
    requires
        readable(text@, entities@),
    ensures
        match r {
            Some(i) => i < entities@.len() && first_bot_mention(text@, entities@) == Some(
                entities@[i as int],
            ) && names_bot(text@, entities@[i as int]) && marks(text@, entities@[i as int]),
            None => first_bot_mention(text@, entities@) is None,
        },
{
    let mut i: usize = 0;
    proof {
        assert(entities@.skip(0) =~= entities@);
    }
    while i < entities.len()
        invariant
            i <= entities@.len(),
            readable(text@, entities@.skip(i as int)),
            first_bot_mention(text@, entities@) == first_bot_mention(
                text@,
                entities@.skip(i as int),
            ),
        decreases entities@.len() - i,
    {
        proof {
            assert(entities@.skip(i as int)[0] == entities@[i as int]);
            assert(entities@.skip(i as int).drop_first() =~= entities@.skip(i + 1));
        }
        if same_text(entities[i].entity_type.as_str(), "mention") {
            let mention = slice_bytes(text, entities[i].offset, entities[i].length);
            if eq_ignore_ascii_case(mention, BOT_USERNAME) {
                return Some(i);
            }
        }
        i += 1;
    }
    None
}

/// The entities behind their list.
pub open spec fn entities_view(entities: Option<Vec<MessageEntity>>) -> Option<Seq<MessageEntity>> {
    match entities {
        Some(list) => Some(list@),
        None => None,
    }
}

/// Whether some entity marks a mention of the bot.
pub open spec fn mentioned_in(text: Seq<char>, entities: Seq<MessageEntity>) -> bool {
    exists|i: int| 0 <= i < entities.len() && names_bot(text, #[trigger] entities[i])
}

/// Whether a text mentions the bot.
pub open spec fn mentioned(
    text: Option<Seq<char>>,
    entities: Option<Seq<MessageEntity>>,
) -> bool {
    match (text, entities) {
        (Some(t), Some(list)) => mentioned_in(t, list),
        _ => false,
    }
}

/// There is a first mention of the bot just where there is one.
pub proof fn lemma_first_mention(text: Seq<char>, entities: Seq<MessageEntity>)
    ensures
        first_bot_mention(text, entities) is Some == mentioned_in(text, entities),
        first_bot_mention(text, entities) matches Some(entity) ==> names_bot(text, entity),
    decreases entities.len(),
{
    if entities.len() > 0 {
        let rest = entities.drop_first();
        lemma_first_mention(text, rest);
        if names_bot(text, entities[0]) {
            assert(mentioned_in(text, entities));
        } else if mentioned_in(text, rest) {
            let i = choose|i: int| 0 <= i < rest.len() && names_bot(text, #[trigger] rest[i]);
            assert(names_bot(text, entities[i + 1]));
        } else if mentioned_in(text, entities) {
            let i = choose|i: int|
                0 <= i < entities.len() && names_bot(text, #[trigger] entities[i]);
            assert(names_bot(text, rest[i - 1]));
        }
    }
}

/// Whether a text mentions the bot.
pub fn mentions_bot(text: &Option<String>, entities: &Option<Vec<MessageEntity>>) -> (r: bool)
    requires
        match (text, entities) {
            (Some(t), Some(list)) => readable(t@, list@),
            _ => true,
        },
    ensures
        r == mentioned(text::text_view(*text), entities_view(*entities)),
{
    if let Some(t) = text {
        if let Some(list) = entities {
            proof {
                lemma_first_mention(t@, list@);
            }
            return find_bot_mention(t.as_str(), list).is_some();
        }
    }
    false
}

/// A text without the mention of the bot, and with single spaces between its words; a text that
/// does not mention the bot stays as it is.
pub open spec fn prompt_in(text: Seq<char>, entities: Option<Seq<MessageEntity>>) -> Seq<char> {
    match entities {
        Some(list) => match first_bot_mention(text, list) {
            Some(entity) => text::collapsed(
                text::replace_all(text, marked(text, entity), seq![]),
            ),
            None => text,
        },
        None => text,
    }
}

/// A text without the mention of the bot.
#[must_use]
pub fn extract_prompt_from_mention(text: &str, entities: &Option<Vec<MessageEntity>>) -> (r: String)
    requires
        match entities {
            Some(list) => readable(text@, list@),
            None => true,
        },
    ensures
        r@ == prompt_in(text@, entities_view(*entities)),
{
    if let Some(list) = entities {
        if let Some(i) = find_bot_mention(text, list) {
            let mention = slice_bytes(text, list[i].offset, list[i].length);
            proof {
                reveal_strlit("@lexi_alex_bot");
                reveal_strlit("");
                assert(""@ =~= Seq::<char>::empty());
                assert(text::ascii_lower_text(BOT_USERNAME@).len() == 14);
                assert(mention@.len() == text::ascii_lower_text(mention@).len());
            }
            let without = replace(text, mention, "");
            return collapse_white_space(without.as_str());
        }
    }
    text.to_owned()
}

/// The mentions in a text that are not of the bot.
pub open spec fn other_mentions(text: Seq<char>, entities: Seq<MessageEntity>) -> Seq<Seq<char>>
    decreases entities.len(),
{
    if entities.len() == 0 {
        seq![]
    } else {
        let before = other_mentions(text, entities.drop_last());
        if is_mention(entities.last()) && !names_bot(text, entities.last()) {
            before.push(marked(text, entities.last()))
        } else {
            before
        }
    }
}

/// Whether every mention in a message marks a part of its text, so that all can be logged.
pub open spec fn can_be_logged(message: Message) -> bool {
    match (message.text, message.entities) {
        (Some(t), Some(list)) => all_readable(t@, list@),
        _ => true,
    }
}

/// Whether every mention in a message marks a part of its text.
pub fn can_log_mentions(message: &Message) -> (r: bool)
    ensures
        r == can_be_logged(*message),
{
    if let Some(t) = &message.text {
        if let Some(list) = &message.entities {
            return can_read_all_mentions(t.as_str(), list);
        }
    }
    true
}

fn can_read_all_mentions(text: &str, entities: &Vec<MessageEntity>) -> (r: bool)
    ensures
        r == all_readable(text@, entities@),
{
    let mut i: usize = 0;
    while i < entities.len()
        invariant
            i <= entities@.len(),
            forall|j: int|
                0 <= j < i && is_mention(#[trigger] entities@[j]) ==> marks(text@, entities@[j]),
        decreases entities@.len() - i,
    {
        if same_text(entities[i].entity_type.as_str(), "mention") && !can_slice(
            text,
            entities[i].offset,
            entities[i].length,
        ) {
            return false;
        }
        i += 1;
    }
    true
}

/// The mentions in a message that are worth a line in the log: those that are not of the bot.
pub fn log_other_mentions(message: &Message) -> (r: Vec<String>)
    requires
        can_be_logged(*message),
    ensures
        text::texts(r@) == match (message.text, message.entities) {
            (Some(t), Some(list)) => other_mentions(t@, list@),
            _ => seq![],
        },
{
    let mut out: Vec<String> = Vec::new();
    if let Some(t) = &message.text {
        if let Some(list) = &message.entities {
            let mut i: usize = 0;
            proof {
                assert(text::texts(out@) =~= seq![]);
            }
            while i < list.len()
                invariant
                    i <= list@.len(),
                    all_readable(t@, list@),
                    text::texts(out@) == other_mentions(t@, list@.take(i as int)),
                decreases list@.len() - i,
            {
                let ghost before = text::texts(out@);
                proof {
                    assert(list@.take(i + 1).drop_last() =~= list@.take(i as int));
                }
                if same_text(list[i].entity_type.as_str(), "mention") {
                    let mention = slice_bytes(t.as_str(), list[i].offset, list[i].length);
                    if !eq_ignore_ascii_case(mention, BOT_USERNAME) {
                        out.push(mention.to_owned());
                        proof {
                            assert(text::texts(out@) =~= before.push(mention@));
                        }
                    }
                }
                i += 1;
            }
            proof {
                assert(list@.take(i as int) =~= list@);
            }
            return out;
        }
    }
    proof {
        assert(text::texts(out@) =~= seq![]);
    }
    out
}

/// The words that start an admin session.
pub open spec fn admin_phrase(code: Seq<char>) -> Seq<char> {
    "admin code "@ + code
}

/// Whether a prompt holds the words that start an admin session.
pub open spec fn holds_code(prompt: Seq<char>, code: Option<Seq<char>>) -> bool {
    match code {
        Some(c) => text::contains_text(prompt, admin_phrase(c)),
        None => false,
    }
}

/// A prompt without the words that start an admin session.
pub open spec fn without_code(prompt: Seq<char>, code: Option<Seq<char>>) -> Seq<char> {
    if holds_code(prompt, code) {
        text::collapsed(text::replace_all(prompt, admin_phrase(code->0), seq![]))
    } else {
        prompt
    }
}

/// Takes the words that start an admin session out of a prompt, and says whether they were there.
pub fn strip_admin_code(prompt_text: &str, bot_admin_code: Option<&str>) -> (r: (bool, String))
    ensures
        r.0 == holds_code(prompt_text@, text::slice_view(bot_admin_code)),
        r.1@ == without_code(prompt_text@, text::slice_view(bot_admin_code)),
{
    let code = match bot_admin_code {
        Some(c) => c,
        None => {
            return (false, prompt_text.to_owned());
        },
    };
    let mut phrase = "admin code ".to_owned();
    phrase.append(code);
    if contains(prompt_text, phrase.as_str()) {
        proof {
            reveal_strlit("admin code ");
            reveal_strlit("");
            assert(""@ =~= Seq::<char>::empty());
        }
        let cleaned = replace(prompt_text, phrase.as_str(), "");
        (true, collapse_white_space(cleaned.as_str()))
    } else {
        (false, prompt_text.to_owned())
    }
}

// ---------------------------------------------------------------------------------------------
// Laws

/// A part of a text is a mention of the bot just where an entity marks it as a mention and it is
/// the bot's user name, whatever the case of its letters.
pub proof fn law_the_bot_is_named_by_its_user_name(
    a: Seq<char>,
    part: Seq<char>,
    b: Seq<char>,
    entity: MessageEntity,
)
    requires
        entity.offset == text::byte_len(a),
        entity.length == text::byte_len(part),
    ensures
        marks(a + part + b, entity),
        marked(a + part + b, entity) == part,
        names_bot(a + part + b, entity) <==> entity.entity_type@ == "mention"@
            && text::same_ignoring_case(part, "@lexi_alex_bot"@),
{
    text::law_slices_are_parts(a, part, b);
}

/// A text mentions the bot just where it has entities and one of them does.
pub proof fn law_one_mention_is_enough(text: Seq<char>, entities: Seq<MessageEntity>)
    ensures
        mentioned(Some(text), Some(entities)) <==> exists|i: int|
            0 <= i < entities.len() && names_bot(text, #[trigger] entities[i]),
        !mentioned(None, Some(entities)),
        !mentioned(Some(text), None),
        !mentioned(None, None),
{
}

/// The mention of the bot that is found is the first there is.
pub proof fn law_the_first_mention_is_found(text: Seq<char>, entities: Seq<MessageEntity>, i: int)
    requires
        0 <= i < entities.len(),
        names_bot(text, entities[i]),
        forall|j: int| 0 <= j < i ==> !names_bot(text, #[trigger] entities[j]),
    ensures
        first_bot_mention(text, entities) == Some(entities[i]),
    decreases entities.len(),
{
    if i > 0 {
        let rest = entities.drop_first();
        assert(!names_bot(text, entities[0]));
        assert forall|j: int| 0 <= j < i - 1 implies !names_bot(text, #[trigger] rest[j]) by {
            assert(rest[j] == entities[j + 1]);
        }
        law_the_first_mention_is_found(text, rest, i - 1);
    }
}

/// The prompt is the text without the mention of the bot, its words one space apart; a text that
/// does not mention the bot is the prompt as it is.
pub proof fn law_the_mention_is_taken_out(
    a: Seq<char>,
    part: Seq<char>,
    b: Seq<char>,
    entities: Seq<MessageEntity>,
    i: int,
)
    requires
        0 <= i < entities.len(),
        entities[i].offset == text::byte_len(a),
        entities[i].length == text::byte_len(part),
        entities[i].entity_type@ == "mention"@,
        text::same_ignoring_case(part, "@lexi_alex_bot"@),
        forall|j: int| 0 <= j < i ==> !names_bot(a + part + b, #[trigger] entities[j]),
        forall|k: int| 0 <= k < a.len() ==> !#[trigger] text::occurs_at(a + part + b, part, k),
        !text::contains_text(b, part),
    ensures
        prompt_in(a + part + b, Some(entities)) == text::collapsed(a + b),
{
    let whole = a + part + b;
    law_the_bot_is_named_by_its_user_name(a, part, b, entities[i]);
    law_the_first_mention_is_found(whole, entities, i);
    lemma_user_name_is_not_empty(part);
    text::law_each_occurrence_is_replaced(a, b, part, seq![]);
    text::law_replacing_what_is_not_there_changes_nothing(b, part, seq![]);
    assert(a + Seq::<char>::empty() + b =~= a + b);
}

proof fn lemma_user_name_is_not_empty(part: Seq<char>)
    requires
        text::same_ignoring_case(part, "@lexi_alex_bot"@),
    ensures
        part.len() == 14,
{
    reveal_strlit("@lexi_alex_bot");
    assert(part.len() == text::ascii_lower_text(part).len());
    assert(text::ascii_lower_text("@lexi_alex_bot"@).len() == 14);
}

/// A text without a mention of the bot is the prompt as it is.
pub proof fn law_other_texts_are_prompts_as_they_are(text: Seq<char>, entities: Seq<MessageEntity>)
    requires
        forall|i: int| 0 <= i < entities.len() ==> !names_bot(text, #[trigger] entities[i]),
    ensures
        prompt_in(text, Some(entities)) == text,
        prompt_in(text, None) == text,
{
    lemma_first_mention(text, entities);
}

/// The mentions that are logged are all those that are not of the bot, in order.
pub proof fn law_all_other_mentions_are_logged(text: Seq<char>, entities: Seq<MessageEntity>)
    ensures
        other_mentions(text, entities) == entities.filter(
            |e: MessageEntity|
                e.entity_type@ == "mention"@ && !text::same_ignoring_case(
                    text::byte_slice(text, e.offset as int, e.length as int),
                    "@lexi_alex_bot"@,
                ),
        ).map_values(
            |e: MessageEntity| text::byte_slice(text, e.offset as int, e.length as int),
        ),
    decreases entities.len(),
{
    reveal(Seq::filter);
    let other = |e: MessageEntity|
        e.entity_type@ == "mention"@ && !text::same_ignoring_case(
            text::byte_slice(text, e.offset as int, e.length as int),
            "@lexi_alex_bot"@,
        );
    let part = |e: MessageEntity| text::byte_slice(text, e.offset as int, e.length as int);
    if entities.len() > 0 {
        law_all_other_mentions_are_logged(text, entities.drop_last());
        let before = entities.drop_last().filter(other);
        if other(entities.last()) {
            assert(before.push(entities.last()).map_values(part) =~= before.map_values(part).push(
                part(entities.last()),
            ));
        }
    } else {
        assert(other_mentions(text, entities) =~= entities.filter(other).map_values(part));
    }
}

/// The words that start an admin session are found wherever they stand, and are taken out of what
/// is said to the model.
pub proof fn law_the_admin_code_is_taken_out(a: Seq<char>, code: Seq<char>, b: Seq<char>)
    ensures
        ({
            let phrase = "admin code "@ + code;
            let prompt = a + phrase + b;
            &&& holds_code(prompt, Some(code))
            &&& (forall|k: int| 0 <= k < a.len() ==> !#[trigger] text::occurs_at(prompt, phrase, k))
                && !text::contains_text(b, phrase) ==> without_code(prompt, Some(code))
                == text::collapsed(a + b)
        }),
{
    reveal_strlit("admin code ");
    let phrase = "admin code "@ + code;
    let prompt = a + phrase + b;
    text::law_contained_text_is_a_part(prompt, phrase);
    if (forall|k: int| 0 <= k < a.len() ==> !#[trigger] text::occurs_at(prompt, phrase, k))
        && !text::contains_text(b, phrase) {
        text::law_each_occurrence_is_replaced(a, b, phrase, seq![]);
        text::law_replacing_what_is_not_there_changes_nothing(b, phrase, seq![]);
        assert(a + Seq::<char>::empty() + b =~= a + b);
    }
}

/// A prompt without these words, or where no code is set, starts nothing and is left as it is.
pub proof fn law_other_prompts_are_left_as_they_are(prompt: Seq<char>, code: Seq<char>)
    ensures
        !holds_code(prompt, None),
        without_code(prompt, None) == prompt,
        !text::contains_text(prompt, "admin code "@ + code) ==> !holds_code(prompt, Some(code))
            && without_code(prompt, Some(code)) == prompt,
{
}

/// Where every mention marks a part of the text, the mentions can be read; where they can be, each
/// mention up to the first one of the bot does.
pub proof fn law_sound_mentions_can_be_read(text: Seq<char>, entities: Seq<MessageEntity>)
    ensures
        (forall|i: int|
            0 <= i < entities.len() && (#[trigger] entities[i]).entity_type@ == "mention"@
                ==> text::sliceable(text, entities[i].offset as int, entities[i].length as int))
            ==> readable(text, entities) && all_readable(text, entities),
        readable(text, entities) ==> forall|i: int|
            0 <= i < entities.len() && is_mention(#[trigger] entities[i]) && (forall|j: int|
                0 <= j < i ==> !names_bot(text, #[trigger] entities[j])) ==> text::sliceable(
                text,
                entities[i].offset as int,
                entities[i].length as int,
            ),
    decreases entities.len(),
{
    if entities.len() > 0 {
        let rest = entities.drop_first();
        law_sound_mentions_can_be_read(text, rest);
        if forall|i: int|
            0 <= i < entities.len() && (#[trigger] entities[i]).entity_type@ == "mention"@
                ==> text::sliceable(text, entities[i].offset as int, entities[i].length as int) {
            assert forall|i: int|
                0 <= i < rest.len() && (#[trigger] rest[i]).entity_type@
                    == "mention"@ implies text::sliceable(
                text,
                rest[i].offset as int,
                rest[i].length as int,
            ) by {
                assert(rest[i] == entities[i + 1]);
            }
        }
        if readable(text, entities) {
            assert forall|i: int|
                0 <= i < entities.len() && is_mention(#[trigger] entities[i]) && (forall|j: int|
                    0 <= j < i ==> !names_bot(text, #[trigger] entities[j])) implies text::sliceable(
                text,
                entities[i].offset as int,
                entities[i].length as int,
            ) by {
                if i > 0 {
                    assert(!names_bot(text, entities[0]));
                    assert(rest[i - 1] == entities[i]);
                    assert forall|j: int| 0 <= j < i - 1 implies !names_bot(
                        text,
                        #[trigger] rest[j],
                    ) by {
                        assert(rest[j] == entities[j + 1]);
                    }
                }
            }
        }
    }
}

/// The mentions in a message can be logged just where each marks a part of its text.
pub proof fn law_sound_mentions_can_be_logged(message: Message)
    ensures
        can_be_logged(message) <==> (message.text matches Some(t) ==> (
        message.entities matches Some(list) ==> forall|i: int|
            0 <= i < list@.len() && (#[trigger] list@[i]).entity_type@ == "mention"@
                ==> text::sliceable(t@, list@[i].offset as int, list@[i].length as int))),
{
}

} // verus!
