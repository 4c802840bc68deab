//! Slot checks that the bot makes unasked, when a certain message comes in a certain chat.

use crate::ai_interaction::tools::beacon_slot_check;
use crate::json;
use crate::json::{get_text, new_members, parse, put, unsigned_value, write_members};
use crate::text;
use crate::text::{
    chars_of, decimal_text, parse_unsigned, same_text, split_words, starts_with,
};
use vstd::prelude::*;

verus! {

pub const PROACTIVE_CHAT_ID: i64 = -702100346;

pub const PROACTIVE_PREFIX: &'static str = "Proposer bid failed simulation in slot";

pub const PROACTIVE_DELAY_SECS: u64 = 36;

/// `s` from its first digit on.
pub open spec fn from_digit(s: Seq<char>) -> Seq<char>
    decreases s.len(),
{
    if s.len() > 0 && !text::ascii_digit(s[0]) {
        from_digit(s.drop_first())
    } else {
        s
    }
}

/// The digits at the start of `s`.
pub open spec fn leading_digits(s: Seq<char>) -> Seq<char>
    decreases s.len(),
{
    if s.len() > 0 && text::ascii_digit(s[0]) {
        seq![s[0]] + leading_digits(s.drop_first())
    } else {
        seq![]
    }
}

/// The first word that is a number.
pub open spec fn first_number(words: Seq<Seq<char>>) -> Option<u64>
    decreases words.len(),
{
    if words.len() == 0 {
        None
    } else {
        match text::unsigned_number(words[0]) {
            Some(n) => Some(n),
            None => first_number(words.drop_first()),
        }
    }
}

/// The slot that a message speaks of: behind the known beginning, its first run of digits; else
/// its first word that is a number.
pub open spec fn slot_in(message: Seq<char>) -> Option<u64> {
    let digits = leading_digits(from_digit(message.skip(PROACTIVE_PREFIX@.len() as int)));
    if text::has_prefix(message, PROACTIVE_PREFIX@) && digits.len() > 0 {
        text::unsigned_number(digits)
    } else {
        first_number(text::words(message))
    }
}

/// The first run of digits behind a position.
fn run_of_digits(chars: &Vec<char>, start: usize) -> (r: Vec<char>)
    requires
        start <= chars@.len(),
    ensures
        r@ == leading_digits(from_digit(chars@.skip(start as int))),
{
    let mut i: usize = start;
    while i < chars.len() && (chars[i] < '0' || chars[i] > '9')
        invariant
            start <= i <= chars@.len(),
            from_digit(chars@.skip(start as int)) == from_digit(chars@.skip(i as int)),
        decreases chars@.len() - i,
    {
        proof {
            assert(chars@.skip(i as int).drop_first() =~= chars@.skip(i + 1));
        }
        i += 1;
    }
    let ghost rest = chars@.skip(i as int);
    let ghost first = i;
    let mut out: Vec<char> = Vec::new();
    proof {
        assert(from_digit(rest) =~= rest);
        assert(out@ + leading_digits(rest) =~= leading_digits(rest));
    }
    while i < chars.len() && '0' <= chars[i] && chars[i] <= '9'
        invariant
            first <= i <= chars@.len(),
            rest == chars@.skip(first as int),
            out@ + leading_digits(chars@.skip(i as int)) == leading_digits(rest),
        decreases chars@.len() - i,
    {
        proof {
            let here = chars@.skip(i as int);
            assert(here.drop_first() =~= chars@.skip(i + 1));
            assert(out@ + (seq![here[0]] + leading_digits(here.drop_first())) =~= out@.push(
                chars@[i as int],
            ) + leading_digits(chars@.skip(i + 1)));
        }
        out.push(chars[i]);
        i += 1;
    }
    proof {
        assert(leading_digits(chars@.skip(i as int)) =~= Seq::<char>::empty());
        assert(out@ + Seq::<char>::empty() =~= out@);
    }
    out
}

/// Finds the slot that a message speaks of.
pub fn extract_slot_number_from_message(message: &str) -> (r: Option<u64>)
    ensures
        r == slot_in(message@),
{
    if starts_with(message, PROACTIVE_PREFIX) {
        let chars = chars_of(message);
        let start: usize = PROACTIVE_PREFIX.unicode_len();
        let digits = run_of_digits(&chars, start);
        if digits.len() > 0 {
            return parse_unsigned(&digits);
        }
    }
    let words = split_words(message);
    let ghost all = text::words(message@);
    let mut i: usize = 0;
    proof {
        assert(all.skip(0) =~= all);
    }
    while i < words.len()
        invariant
            i <= words@.len(),
            text::texts(words@) == all,
            slot_in(message@) == first_number(all.skip(i as int)),
        decreases words@.len() - i,
    {
        proof {
            assert(all.skip(i as int)[0] == words@[i as int]@);
            assert(all.skip(i as int).drop_first() =~= all.skip(i + 1));
        }
        let chars = chars_of(words[i].as_str());
        if let Some(n) = parse_unsigned(&chars) {
            return Some(n);
        }
        i += 1;
    }
    None
}

/// Whether a message calls for a slot check.
pub open spec fn calls_for_check(chat_id: i64, message: Seq<char>) -> bool {
    chat_id == PROACTIVE_CHAT_ID && text::has_prefix(message, PROACTIVE_PREFIX@)
}

/// Whether a message calls for a slot check.
pub fn maybe_schedule_proactive_slot_check(telegram_chat_id: i64, message_text: &str) -> (r: bool)
    ensures
        r == calls_for_check(telegram_chat_id, message_text@),
{
    telegram_chat_id == PROACTIVE_CHAT_ID && starts_with(message_text, PROACTIVE_PREFIX)
}

/// The arguments of a slot check.
pub open spec fn check_arguments(slot: u64) -> json::Json {
    json::Json::Object(
        json::no_members().insert("slot_number"@, json::Json::Integer(slot as int)),
    )
}

/// Writes the arguments of a slot check.
pub fn slot_check_arguments(slot: u64) -> (r: String)
    ensures
        json::writes(r@, check_arguments(slot)),
{
    let mut members = new_members();
    put(&mut members, "slot_number", unsigned_value(slot));
    write_members(members)
}

/// The check that the bot makes is for the slot that the message speaks of: the tool reads the
/// slot back from the arguments.
pub proof fn law_check_is_for_the_slot(slot: u64, arguments: Seq<char>)
    requires
        json::writes(arguments, check_arguments(slot)),
    ensures
        beacon_slot_check::slot_argument(json::parsed_members(arguments)) == Ok::<u64, Seq<char>>(
            slot,
        ),
{
}

/// What is said of a slot, from what the tool replied.
pub open spec fn reply_to(slot: u64, replied: Option<json::Json>) -> Seq<char> {
    let number = text::decimal(slot as nat);
    match replied {
        Some(value) => match json::text_member(value, "status"@) {
            Some(status) if status == "not_missed"@ => "slot "@ + number + " not missed"@,
            Some(status) if status == "missed"@ => "slot "@ + number + " missed"@,
            _ => match json::text_member(value, "details"@) {
                Some(details) if details.len() > 0 => "error checking slot "@ + number + ": "@
                    + details,
                _ => "error checking slot "@ + number,
            },
        },
        None => "error checking slot "@ + number,
    }
}

/// The text with the number of a slot in it.
fn with_slot(before: &str, slot: u64) -> (r: String)
    ensures
        r@ == before@ + text::decimal(slot as nat),
{
    let mut out = before.to_owned();
    out.append(decimal_text(slot as u128).as_str());
    out
}

/// What is said of a slot, from what the tool replied, read as JSON where it could be.
pub fn read_slot_reply(slot: u64, replied: Option<&serde_json::Value>) -> (r: String)
    ensures
        r@ == reply_to(
            slot,
            match replied {
                Some(value) => Some(json::json_of(*value)),
                None => None,
            },
        ),
{
    let value = match replied {
        Some(v) => v,
        None => {
            return with_slot("error checking slot ", slot);
        },
    };
    if let Some(status) = get_text(value, "status") {
        if same_text(status, "not_missed") {
            let mut out = with_slot("slot ", slot);
            out.append(" not missed");
            return out;
        }
        if same_text(status, "missed") {
            let mut out = with_slot("slot ", slot);
            out.append(" missed");
            return out;
        }
    }
    let mut out = with_slot("error checking slot ", slot);
    if let Some(details) = get_text(value, "details") {
        if !details.is_empty() {
            out.append(": ");
            out.append(details);
        }
    }
    out
}

/// What the bot says after a check: `slot` is the slot that the message speaks of, and `result`
/// what the tool replied, or why it could not.
pub open spec fn proactive_text(slot: Option<u64>, result: Result<Seq<char>, Seq<char>>) -> Seq<
    char,
> {
    match slot {
        None => "could not extract slot number from message"@,
        Some(number) => match result {
            Ok(reply) => reply_to(
                number,
                match json::parsed_json(reply) {
                    Ok(value) => Some(value),
                    Err(_) => None,
                },
            ),
            Err(error) => "error checking slot "@ + text::decimal(number as nat) + ": "@ + error,
        },
    }
}

/// What the bot says after a check.
pub fn run_proactive_slot_check(slot: Option<u64>, result: Result<String, String>) -> (r: String)
    ensures
        r@ == proactive_text(
            slot,
            match result {
                Ok(reply) => Ok(reply@),
                Err(error) => Err(error@),
            },
        ),
{
    let number = match slot {
        Some(n) => n,
        None => {
            return "could not extract slot number from message".to_owned();
        },
    };
    match result {
        Ok(reply) => match parse(reply.as_str()) {
            Ok(value) => read_slot_reply(number, Some(&value)),
            Err(_) => read_slot_reply(number, None),
        },
        Err(error) => {
            let mut out = with_slot("error checking slot ", number);
            out.append(": ");
            out.append(error.as_str());
            out
        },
    }
}

// ---------------------------------------------------------------------------------------------
// Laws

proof fn lemma_from_digit(x: Seq<char>, s: Seq<char>)
    requires
        forall|i: int| 0 <= i < x.len() ==> !('0' <= #[trigger] x[i] <= '9'),
        s.len() == 0 || '0' <= s[0] <= '9',
    ensures
        from_digit(x + s) == s,
    decreases x.len(),
{
    if x.len() == 0 {
        assert(x + s =~= s);
    } else {
        let rest = x.drop_first();
        assert forall|i: int| 0 <= i < rest.len() implies !('0' <= #[trigger] rest[i] <= '9') by {
            assert(rest[i] == x[i + 1]);
        }
        lemma_from_digit(rest, s);
        assert((x + s).drop_first() =~= rest + s);
        assert((x + s)[0] == x[0]);
    }
}

proof fn lemma_leading_digits(digits: Seq<char>, s: Seq<char>)
    requires
        forall|i: int| 0 <= i < digits.len() ==> '0' <= #[trigger] digits[i] <= '9',
        s.len() == 0 || !('0' <= s[0] <= '9'),
    ensures
        leading_digits(digits + s) == digits,
    decreases digits.len(),
{
    if digits.len() == 0 {
        assert(digits + s =~= s);
        assert(leading_digits(s) =~= digits);
    } else {
        let rest = digits.drop_first();
        assert forall|i: int| 0 <= i < rest.len() implies '0' <= #[trigger] rest[i] <= '9' by {
            assert(rest[i] == digits[i + 1]);
        }
        lemma_leading_digits(rest, s);
        assert((digits + s).drop_first() =~= rest + s);
        assert((digits + s)[0] == digits[0]);
        assert(seq![digits[0]] + rest =~= digits);
    }
}

/// Behind the known beginning of a message, the first run of digits is the slot it speaks of,
/// whatever stands before and behind it.
pub proof fn law_the_first_digits_are_the_slot(x: Seq<char>, slot: u64, y: Seq<char>)
    requires
        forall|i: int| 0 <= i < x.len() ==> !('0' <= #[trigger] x[i] <= '9'),
        y.len() == 0 || !('0' <= y[0] <= '9'),
    ensures
        slot_in(
            "Proposer bid failed simulation in slot"@ + (x + (text::decimal(slot as nat) + y)),
        ) == Some(slot),
{
    let prefix = "Proposer bid failed simulation in slot"@;
    let digits = text::decimal(slot as nat);
    let rest = x + (digits + y);
    let message = prefix + rest;
    text::law_numbers_read_back(slot, 0);
    text::lemma_decimal_shape(slot as nat);
    text::law_prefix_and_suffix(rest, prefix);
    assert(message.skip(prefix.len() as int) =~= rest);
    assert(digits[0] == (digits + y)[0]);
    lemma_from_digit(x, digits + y);
    lemma_leading_digits(digits, y);
}

/// In any other message, and in one with no digit behind that beginning, the slot is the first word
/// that is a number; where no word is one, there is none.
pub proof fn law_else_the_first_number_is_the_slot(message: Seq<char>, i: int)
    requires
        !text::has_prefix(message, "Proposer bid failed simulation in slot"@) || forall|k: int|
            "Proposer bid failed simulation in slot"@.len() <= k < message.len() ==> !('0'
                <= #[trigger] message[k] <= '9'),
        0 <= i <= text::words(message).len(),
        forall|j: int|
            0 <= j < i ==> text::unsigned_number(#[trigger] text::words(message)[j]) is None,
    ensures
        i < text::words(message).len() && text::unsigned_number(text::words(message)[i]) is Some
            ==> slot_in(message) == text::unsigned_number(text::words(message)[i]),
        i == text::words(message).len() ==> slot_in(message) is None,
{
    let prefix = "Proposer bid failed simulation in slot"@;
    if text::has_prefix(message, prefix) {
        let rest = message.skip(prefix.len() as int);
        assert forall|k: int| 0 <= k < rest.len() implies !('0' <= #[trigger] rest[k] <= '9') by {
            assert(rest[k] == message[prefix.len() + k]);
        }
        lemma_from_digit(rest, seq![]);
        assert(rest + Seq::<char>::empty() =~= rest);
    }
    lemma_first_number(text::words(message), i);
}

proof fn lemma_first_number(words: Seq<Seq<char>>, i: int)
    requires
        0 <= i <= words.len(),
        forall|j: int| 0 <= j < i ==> text::unsigned_number(#[trigger] words[j]) is None,
    ensures
        i < words.len() && text::unsigned_number(words[i]) is Some ==> first_number(words)
            == text::unsigned_number(words[i]),
        i == words.len() ==> first_number(words) is None,
    decreases words.len(),
{
    if i > 0 {
        let rest = words.drop_first();
        assert(text::unsigned_number(words[0]) is None);
        assert forall|j: int| 0 <= j < i - 1 implies text::unsigned_number(
            #[trigger] rest[j],
        ) is None by {
            assert(rest[j] == words[j + 1]);
        }
        lemma_first_number(rest, i - 1);
    }
}

/// A check is called for by just the messages of one chat that begin in the known way.
pub proof fn law_checks_are_called_for_in_one_chat(chat_id: i64, message: Seq<char>)
    ensures
        calls_for_check(chat_id, message) <==> chat_id == -702100346
            && "Proposer bid failed simulation in slot"@.is_prefix_of(message),
{
    text::law_prefix_and_suffix(message, "Proposer bid failed simulation in slot"@);
}

proof fn lemma_statuses()
    ensures
        "not_missed"@ != "missed"@,
        "status"@ != "message"@,
        "status"@ != "details"@,
        "message"@ != "details"@,
        "error"@ != "missed"@,
        "error"@ != "not_missed"@,
{
    reveal_strlit("not_missed");
    reveal_strlit("missed");
    reveal_strlit("error");
    reveal_strlit("status");
    reveal_strlit("message");
    reveal_strlit("details");
    assert("not_missed"@.len() == 10);
    assert("missed"@.len() == 6);
    assert("error"@.len() == 5);
    assert("status"@[0] == 's');
    assert("message"@[0] == 'm');
    assert("details"@[0] == 'd');
}

/// What the tool says of a slot is what the bot says of it: that it was missed, that it was not, or
/// that it could not be checked and why.
pub proof fn law_the_reply_is_passed_on(slot: u64, error: String)
    ensures
        reply_to(slot, Some(beacon_slot_check::SlotStatus::Missed.json())) == "slot "@
            + text::decimal(slot as nat) + " missed"@,
        reply_to(slot, Some(beacon_slot_check::SlotStatus::NotMissed.json())) == "slot "@
            + text::decimal(slot as nat) + " not missed"@,
        error@.len() > 0 ==> reply_to(slot, Some(beacon_slot_check::SlotStatus::Error(error).json()))
            == "error checking slot "@ + text::decimal(slot as nat) + ": "@ + error@,
        reply_to(slot, None) == "error checking slot "@ + text::decimal(slot as nat),
{
    lemma_statuses();
}

/// A reply with neither status tells of an error, and of its details where there are any.
pub proof fn law_other_replies_are_errors(slot: u64, value: json::Json)
    requires
        json::text_member(value, "status"@) != Some("missed"@),
        json::text_member(value, "status"@) != Some("not_missed"@),
    ensures
        reply_to(slot, Some(value)) == "error checking slot "@ + text::decimal(slot as nat)
            + match json::text_member(value, "details"@) {
            Some(details) => if details.len() > 0 {
                ": "@ + details
            } else {
                seq![]
            },
            None => seq![],
        },
{
    let head = "error checking slot "@ + text::decimal(slot as nat);
    assert(head + Seq::<char>::empty() =~= head);
    if let Some(details) = json::text_member(value, "details"@) {
        assert(head + ": "@ + details =~= head + (": "@ + details));
    }
}

/// After a check the bot says what the tool replied, or why it could not, or that the message gives
/// no slot.
pub proof fn law_each_outcome_of_a_check_is_said(slot: u64, reply: Seq<char>, error: Seq<char>)
    ensures
        proactive_text(None, Ok(reply)) == "could not extract slot number from message"@,
        proactive_text(None, Err(error)) == "could not extract slot number from message"@,
        proactive_text(Some(slot), Err(error)) == "error checking slot "@ + text::decimal(
            slot as nat,
        ) + ": "@ + error,
        json::parsed_json(reply) matches Ok(value) ==> proactive_text(Some(slot), Ok(reply))
            == reply_to(slot, Some(value)),
        json::parsed_json(reply) is Err ==> proactive_text(Some(slot), Ok(reply)) == reply_to(
            slot,
            None,
        ),
{
}

} // verus!
