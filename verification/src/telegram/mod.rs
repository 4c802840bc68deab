//! Telegram messages: their shape, their formatting and their delivery.

pub mod fmt;
pub mod markup;
pub mod types;

use crate::http_status;
use crate::http_status::status_text;
use crate::json;
use crate::json::{integer_value, new_members, object_value, put, put_text};
use crate::text;
use crate::text::{chars_of, contains, signed_decimal_text, trim_start_text};
use types::ApiResponse;
use vstd::prelude::*;
use vstd::utf8::*;

verus! {

/// The longest message that Telegram takes, in bytes.
pub const MAX_MESSAGE_LENGTH: usize = 4096;

// ---------------------------------------------------------------------------------------------
// Splitting

/// The last position of `c` in `s`, if it occurs.
pub open spec fn last_position(s: Seq<char>, c: char) -> Option<int>
    decreases s.len(),
{
    if s.len() == 0 {
        None
    } else if s.last() == c {
        Some(s.len() - 1)
    } else {
        last_position(s.drop_last(), c)
    }
}

/// Where a piece that fills a message is cut: at its last line break, else at its last space, else
/// at its end.
pub open spec fn cut_position(piece: Seq<char>) -> int {
    match last_position(piece, '\n') {
        Some(k) => k,
        None => match last_position(piece, ' ') {
            Some(k) => k,
            None => piece.len() as int,
        },
    }
}

/// Whether `s` fits one message.
pub open spec fn fits(s: Seq<char>) -> bool {
    text::byte_len(s) <= MAX_MESSAGE_LENGTH
}

/// How long the longest start of `s` is that fits one message, among those of at most `limit`
/// characters.
pub open spec fn longest_fit(s: Seq<char>, limit: nat) -> nat
    decreases limit,
{
    if limit == 0 || fits(s.take(limit as int)) {
        limit
    } else {
        longest_fit(s, (limit - 1) as nat)
    }
}

/// What fills one message at the start of `s`: as many whole characters as fit.
pub open spec fn first_piece(s: Seq<char>) -> Seq<char> {
    s.take(longest_fit(s, s.len()) as int)
}

/// What is left of `s` behind its first chunk.
pub open spec fn after_cut(s: Seq<char>) -> Seq<char> {
    text::trim_start(s.skip(cut_position(first_piece(s))))
}

/// The chunks of `s`: each is cut off where [`cut_position`] says, and the white space behind a
/// cut is dropped.
pub open spec fn chunks_of(s: Seq<char>) -> Seq<Seq<char>>
    decreases s.len(),
{
    if s.len() == 0 {
        seq![]
    } else if fits(s) {
        seq![s]
    } else {
        proof {
            lemma_first_piece(s);
        }
        seq![s.take(cut_position(first_piece(s)))] + chunks_of(after_cut(s))
    }
}

/// The messages that a text is sent as: the text itself where it fits one.
pub open spec fn messages_of(s: Seq<char>) -> Seq<Seq<char>> {
    if fits(s) {
        seq![s]
    } else {
        chunks_of(s)
    }
}

/// The texts of a list of string slices.
pub open spec fn slices(list: Seq<&str>) -> Seq<Seq<char>> {
    list.map_values(|s: &str| s@)
}

proof fn lemma_trim_start_shortens(s: Seq<char>)
    ensures
        text::trim_start(s).len() <= s.len(),
        s.len() > 0 && text::white_space(s[0]) ==> text::trim_start(s).len() < s.len(),
    decreases s.len(),
{
    if s.len() > 0 && text::white_space(s[0]) {
        lemma_trim_start_shortens(s.drop_first());
    }
}

proof fn lemma_last_position(s: Seq<char>, c: char)
    ensures
        last_position(s, c) matches Some(k) ==> 0 <= k < s.len() && s[k] == c,
    decreases s.len(),
{
    if s.len() > 0 && s.last() != c {
        lemma_last_position(s.drop_last(), c);
    }
}

proof fn lemma_start_is_shorter(s: Seq<char>, k: int)
    requires
        0 <= k <= s.len(),
    ensures
        text::byte_len(s.take(k)) <= text::byte_len(s),
{
    text::lemma_encode_concat(s.take(k), s.skip(k));
    assert(s.take(k) + s.skip(k) =~= s);
}

/// One more character takes as many bytes as its encoding has.
proof fn lemma_next_byte_len(s: Seq<char>, k: int)
    requires
        0 <= k < s.len(),
    ensures
        text::byte_len(s.take(k + 1)) == text::byte_len(s.take(k)) + encode_scalar(
            s[k] as u32,
        ).len(),
{
    reveal_with_fuel(encode_utf8, 2);
    text::lemma_encode_concat(s.take(k), seq![s[k]]);
    assert(s.take(k) + seq![s[k]] =~= s.take(k + 1));
    assert(seq![s[k]].drop_first() =~= Seq::<char>::empty());
    assert(encode_utf8(seq![s[k]]) =~= encode_scalar(s[k] as u32));
}

/// A start that fits, and that no longer fits with one more character, is the longest that fits.
proof fn lemma_longest_fit(s: Seq<char>, k: int, limit: nat)
    requires
        0 <= k <= limit <= s.len(),
        fits(s.take(k)),
        k == s.len() || !fits(s.take(k + 1)),
    ensures
        longest_fit(s, limit) == k,
    decreases limit,
{
    if limit > k {
        lemma_start_is_shorter(s.take(limit as int), k + 1);
        assert(s.take(limit as int).take(k + 1) =~= s.take(k + 1));
        lemma_longest_fit(s, k, (limit - 1) as nat);
    }
}

proof fn lemma_longest_fit_fits(s: Seq<char>, limit: nat)
    requires
        1 <= limit <= s.len(),
    ensures
        1 <= longest_fit(s, limit) <= limit,
        fits(s.take(longest_fit(s, limit) as int)),
    decreases limit,
{
    if limit == 1 {
        lemma_next_byte_len(s, 0);
        assert(s.take(0) =~= Seq::<char>::empty());
    } else if !fits(s.take(limit as int)) {
        lemma_longest_fit_fits(s, (limit - 1) as nat);
    }
}

/// The piece that is looked at for a cut is the start of the text, is not empty and fits a
/// message, and behind the cut there is less text than before.
pub proof fn lemma_first_piece(s: Seq<char>)
    requires
        s.len() > 0,
    ensures
        0 < first_piece(s).len() <= s.len(),
        first_piece(s) == s.take(first_piece(s).len() as int),
        fits(first_piece(s)),
        0 <= cut_position(first_piece(s)) <= first_piece(s).len(),
        after_cut(s).len() < s.len(),
{
    lemma_longest_fit_fits(s, s.len());
    let piece = first_piece(s);
    lemma_last_position(piece, '\n');
    lemma_last_position(piece, ' ');
    let cut = cut_position(piece);
    lemma_trim_start_shortens(s.skip(cut));
    if cut == 0 {
        assert(piece[0] == s[0]);
        assert(s.skip(0) =~= s);
    }
}

/// How many bytes a character takes.
fn char_width(c: char) -> (r: usize)
    ensures
        r == encode_scalar(c as u32).len(),
        1 <= r <= 4,
{
    let code: u32 = c as u32;
    if code < 0x80 {
        1
    } else if code < 0x800 {
        2
    } else if code < 0x10000 {
        3
    } else {
        4
    }
}

/// The characters that fill one message at the start of a text.
fn fill_message(chars: &Vec<char>) -> (r: Vec<char>)
    ensures
        r@ == first_piece(chars@),
{
    let mut piece: Vec<char> = Vec::new();
    let mut used: usize = 0;
    proof {
        assert(chars@.take(0) =~= Seq::<char>::empty());
    }
    while piece.len() < chars.len() && used + char_width(chars[piece.len()]) <= MAX_MESSAGE_LENGTH
        invariant
            piece@.len() <= chars@.len(),
            piece@ == chars@.take(piece@.len() as int),
            used == text::byte_len(piece@),
            used <= MAX_MESSAGE_LENGTH,
        decreases chars@.len() - piece@.len(),
    {
        let c: char = chars[piece.len()];
        proof {
            lemma_next_byte_len(chars@, piece@.len() as int);
        }
        used += char_width(c);
        piece.push(c);
        proof {
            assert(piece@ =~= chars@.take(piece@.len() as int));
        }
    }
    proof {
        if piece@.len() < chars@.len() {
            lemma_next_byte_len(chars@, piece@.len() as int);
        }
        lemma_longest_fit(chars@, piece@.len() as int, chars@.len());
    }
    piece
}

/// Finds the last position of a character.
fn find_last(chars: &Vec<char>, c: char) -> (r: Option<usize>)
    ensures
        match r {
            Some(k) => last_position(chars@, c) == Some(k as int) && k < chars@.len(),
            None => last_position(chars@, c) is None,
        },
{
    let mut n: usize = chars.len();
    proof {
        assert(chars@.take(n as int) =~= chars@);
    }
    while n > 0
        invariant
            n <= chars@.len(),
            last_position(chars@, c) == last_position(chars@.take(n as int), c),
        decreases n,
    {
        proof {
            assert(chars@.take(n as int).drop_last() =~= chars@.take(n - 1));
        }
        if chars[n - 1] == c {
            return Some(n - 1);
        }
        n -= 1;
    }
    None
}

/// Cuts the first chunk off a text that does not fit one message.
fn cut_first<'a>(text: &'a str) -> (r: (&'a str, &'a str))
    requires
        text@.len() > 0,
    ensures
        r.0@ == text@.take(cut_position(first_piece(text@))),
        r.1@ == after_cut(text@),
{
    proof {
        lemma_first_piece(text@);
    }
    let piece = fill_message(&chars_of(text));
    let cut: usize = match find_last(&piece, '\n') {
        Some(k) => k,
        None => match find_last(&piece, ' ') {
            Some(k) => k,
            None => piece.len(),
        },
    };
    let total: usize = text.unicode_len();
    let head = text.substring_char(0, cut);
    let tail = text.substring_char(cut, total);
    proof {
        assert(tail@ =~= text@.skip(cut as int));
    }
    (head, trim_start_text(tail))
}

/// Splits a long message into chunks that fit Telegram's limit, at line breaks or spaces where it
/// can, and never inside a character.
pub fn split_message<'a>(text: &'a str) -> (r: Vec<&'a str>)
    ensures
        slices(r@) == messages_of(text@),
{
    let mut chunks: Vec<&'a str> = Vec::new();
    if text.as_bytes().len() <= MAX_MESSAGE_LENGTH {
        chunks.push(text);
        proof {
            assert(slices(chunks@) =~= seq![text@]);
        }
        return chunks;
    }
    let mut remaining = text;
    proof {
        assert(slices(chunks@) + chunks_of(remaining@) =~= chunks_of(text@));
    }
    while !remaining.is_empty()
        invariant
            slices(chunks@) + chunks_of(remaining@) == chunks_of(text@),
        decreases remaining@.len(),
    {
        let ghost before = slices(chunks@);
        let ghost whole = remaining@;
        if remaining.as_bytes().len() <= MAX_MESSAGE_LENGTH {
            chunks.push(remaining);
            proof {
                assert(slices(chunks@) =~= before + seq![whole]);
            }
            return chunks;
        }
        proof {
            lemma_first_piece(whole);
        }
        let (chunk, rest) = cut_first(remaining);
        chunks.push(chunk);
        remaining = rest;
        proof {
            assert(slices(chunks@) =~= before + seq![chunk@]);
            assert(before + (seq![chunk@] + chunks_of(rest@)) =~= before + seq![chunk@] + chunks_of(
                rest@,
            ));
        }
    }
    proof {
        assert(slices(chunks@) + chunks_of(remaining@) =~= slices(chunks@));
    }
    chunks
}

/// Every message that a text is sent as fits Telegram's limit.
pub proof fn law_messages_fit(s: Seq<char>)
    ensures
        forall|i: int| 0 <= i < messages_of(s).len() ==> fits(#[trigger] messages_of(s)[i]),
{
    if !fits(s) {
        lemma_chunks_fit(s);
    }
}

proof fn lemma_chunks_fit(s: Seq<char>)
    ensures
        forall|i: int| 0 <= i < chunks_of(s).len() ==> fits(#[trigger] chunks_of(s)[i]),
    decreases s.len(),
{
    if s.len() > 0 && !fits(s) {
        lemma_first_piece(s);
        lemma_chunks_fit(after_cut(s));
        let piece = first_piece(s);
        let cut = cut_position(piece);
        let head = s.take(cut);
        assert(piece =~= head + piece.skip(cut));
        text::lemma_encode_concat(head, piece.skip(cut));
        assert(fits(head));
        let rest = chunks_of(after_cut(s));
        assert forall|i: int| 0 <= i < chunks_of(s).len() implies fits(#[trigger] chunks_of(s)[i]) by {
            if i > 0 {
                assert(chunks_of(s)[i] == rest[i - 1]);
            }
        }
    }
}

/// The characters of `s` that are not white space.
pub open spec fn solid(s: Seq<char>) -> Seq<char>
    decreases s.len(),
{
    if s.len() == 0 {
        seq![]
    } else if text::white_space(s.last()) {
        solid(s.drop_last())
    } else {
        solid(s.drop_last()).push(s.last())
    }
}

/// The parts, one behind the other.
pub open spec fn joined(parts: Seq<Seq<char>>) -> Seq<char>
    decreases parts.len(),
{
    if parts.len() == 0 {
        seq![]
    } else {
        parts[0] + joined(parts.drop_first())
    }
}

proof fn lemma_solid_concat(a: Seq<char>, b: Seq<char>)
    ensures
        solid(a + b) == solid(a) + solid(b),
    decreases b.len(),
{
    if b.len() == 0 {
        assert(a + b =~= a);
        assert(solid(a) + solid(b) =~= solid(a));
    } else {
        assert((a + b).drop_last() =~= a + b.drop_last());
        lemma_solid_concat(a, b.drop_last());
        assert(solid(a) + solid(b.drop_last()).push(b.last()) =~= (solid(a) + solid(
            b.drop_last(),
        )).push(b.last()));
    }
}

proof fn lemma_trim_start_keeps_solid(s: Seq<char>)
    ensures
        solid(text::trim_start(s)) == solid(s),
    decreases s.len(),
{
    if s.len() > 0 && text::white_space(s[0]) {
        lemma_trim_start_keeps_solid(s.drop_first());
        assert(s =~= seq![s[0]] + s.drop_first());
        lemma_solid_concat(seq![s[0]], s.drop_first());
        reveal_with_fuel(solid, 2);
        assert(seq![s[0]].drop_last() =~= Seq::empty());
        assert(solid(seq![s[0]]) =~= Seq::empty());
        assert(solid(s) =~= solid(s.drop_first()));
    }
}

/// Splitting loses nothing but white space: the messages, one behind the other, hold the same
/// other characters in the same order as the text.
pub proof fn law_only_white_space_is_lost(s: Seq<char>)
    ensures
        solid(joined(messages_of(s))) == solid(s),
{
    if fits(s) {
        reveal_with_fuel(joined, 2);
        assert(messages_of(s).drop_first() =~= Seq::empty());
        assert(joined(messages_of(s)) =~= s);
    } else {
        lemma_chunks_keep_solid(s);
    }
}

proof fn lemma_chunks_keep_solid(s: Seq<char>)
    ensures
        solid(joined(chunks_of(s))) == solid(s),
    decreases s.len(),
{
    if s.len() == 0 {
        assert(chunks_of(s).len() == 0);
        assert(joined(chunks_of(s)) =~= s);
    } else if fits(s) {
        reveal_with_fuel(joined, 2);
        assert(chunks_of(s).drop_first() =~= Seq::empty());
        assert(joined(chunks_of(s)) =~= s);
    } else {
        lemma_first_piece(s);
        let cut = cut_position(first_piece(s));
        let rest = after_cut(s);
        lemma_chunks_keep_solid(rest);
        assert(chunks_of(s).drop_first() =~= chunks_of(rest));
        lemma_solid_concat(s.take(cut), joined(chunks_of(rest)));
        lemma_trim_start_keeps_solid(s.skip(cut));
        lemma_solid_concat(s.take(cut), s.skip(cut));
        assert(s.take(cut) + s.skip(cut) =~= s);
    }
}

/// Whether `s` holds white space.
pub open spec fn holds_white_space(s: Seq<char>) -> bool {
    exists|i: int| 0 <= i < s.len() && text::white_space(#[trigger] s[i])
}

/// A text without white space is kept whole: its messages, one behind the other, are the text.
pub proof fn law_unbroken_text_is_kept(s: Seq<char>)
    requires
        !holds_white_space(s),
    ensures
        joined(messages_of(s)) == s,
{
    if fits(s) {
        reveal_with_fuel(joined, 2);
        assert(messages_of(s).drop_first() =~= Seq::empty());
        assert(joined(messages_of(s)) =~= s);
    } else {
        lemma_chunks_join(s);
    }
}

proof fn lemma_chunks_join(s: Seq<char>)
    requires
        !holds_white_space(s),
    ensures
        joined(chunks_of(s)) == s,
    decreases s.len(),
{
    if s.len() == 0 {
        assert(joined(chunks_of(s)) =~= s);
    } else if fits(s) {
        reveal_with_fuel(joined, 2);
        assert(chunks_of(s).drop_first() =~= Seq::empty());
        assert(joined(chunks_of(s)) =~= s);
    } else {
        lemma_first_piece(s);
        let piece = first_piece(s);
        lemma_last_position(piece, '\n');
        lemma_last_position(piece, ' ');
        let cut = cut_position(piece);
        assert(cut == piece.len()) by {
            if cut < piece.len() {
                assert(piece[cut] == s[cut]);
                assert(text::white_space(s[cut]));
            }
        }
        let tail = s.skip(cut);
        assert(!holds_white_space(tail)) by {
            if holds_white_space(tail) {
                let i = choose|i: int| 0 <= i < tail.len() && text::white_space(#[trigger] tail[i]);
                assert(text::white_space(s[cut + i]));
            }
        }
        if tail.len() > 0 {
            assert(!text::white_space(tail[0]));
        }
        assert(after_cut(s) == tail);
        lemma_chunks_join(tail);
        assert(chunks_of(s).drop_first() =~= chunks_of(tail));
        assert(s.take(cut) + tail =~= s);
    }
}

/// A text is sent as at least one message.
pub proof fn law_something_is_sent(s: Seq<char>)
    ensures
        messages_of(s).len() > 0,
{
    if !fits(s) {
        assert(s.len() > 0) by {
            if s.len() == 0 {
                assert(encode_utf8(s).len() == 0);
            }
        }
    }
}

// ---------------------------------------------------------------------------------------------
// Calls of the API

/// The address of a method of the bot API.
pub fn method_url(api_base_url: &str, bot_token: &str, method: &str) -> (r: String)
    ensures
        r@ == api_base_url@ + bot_token@ + "/"@ + method@,
{
    let mut out = api_base_url.to_owned();
    out.append(bot_token);
    out.append("/");
    out.append(method);
    out
}

/// The parameters of `sendMessage`: the thread and the parse mode are there only where they are
/// given.
pub open spec fn send_message_members(
    chat_id: i64,
    text: Seq<char>,
    message_thread_id: Option<i64>,
    parse_mode: Option<Seq<char>>,
) -> Map<Seq<char>, json::Json> {
    let base = json::no_members().insert("chat_id"@, json::Json::Integer(chat_id as int)).insert(
        "text"@,
        json::Json::Text(text),
    );
    let threaded = match message_thread_id {
        Some(id) => base.insert("message_thread_id"@, json::Json::Integer(id as int)),
        None => base,
    };
    match parse_mode {
        Some(mode) => threaded.insert("parse_mode"@, json::Json::Text(mode)),
        None => threaded,
    }
}

/// Builds the parameters of `sendMessage`.
pub fn send_message_params(
    chat_id: i64,
    text: &str,
    message_thread_id: Option<i64>,
    parse_mode: Option<&str>,
) -> (r: serde_json::Value)
    ensures
        json::json_of(r) == json::Json::Object(
            send_message_members(chat_id, text@, message_thread_id, text::slice_view(parse_mode)),
        ),
{
    let mut members = new_members();
    put(&mut members, "chat_id", integer_value(chat_id));
    put_text(&mut members, "text", text);
    if let Some(id) = message_thread_id {
        put(&mut members, "message_thread_id", integer_value(id));
    }
    if let Some(mode) = parse_mode {
        put_text(&mut members, "parse_mode", mode);
    }
    object_value(members)
}

/// How a call of the API was answered: by an envelope, or by an HTTP status that is no success and
/// a body.
pub enum ApiReply<T> {
    Answer(ApiResponse<T>),
    HttpError { status: u16, body: String },
}

/// The message for an envelope that reports an error.
pub open spec fn api_error(
    method: Seq<char>,
    code: Option<i32>,
    description: Option<String>,
) -> Seq<char> {
    "telegram "@ + method + " API error ("@ + text::signed_decimal(
        match code {
            Some(c) => c as int,
            None => -1,
        },
    ) + "): "@ + match description {
        Some(d) => d@,
        None => "unknown telegram api error"@,
    }
}

/// The message for a status that is no success.
pub open spec fn http_error(method: Seq<char>, status: Seq<char>, body: Seq<char>) -> Seq<char> {
    "http error "@ + status + " during "@ + method + ": "@ + body
}

/// What a call comes to: the result of the envelope, or the message of the error. `missing` is the
/// message for an envelope that reports success and holds no result.
pub open spec fn api_outcome<T>(
    method: Seq<char>,
    missing: Seq<char>,
    reply: ApiReply<T>,
    outcome: Result<T, String>,
) -> bool {
    match reply {
        ApiReply::Answer(answer) => if answer.ok {
            match answer.result {
                Some(value) => outcome == Ok::<T, String>(value),
                None => outcome matches Err(message) && message@ == missing,
            }
        } else {
            outcome matches Err(message) && message@ == api_error(
                method,
                answer.error_code,
                answer.description,
            )
        },
        ApiReply::HttpError { status, body } => outcome matches Err(message) && message@
            == http_error(
            method,
            http_status::status_line(status, http_status::status_reason(status)),
            body@,
        ),
    }
}

fn read_reply<T>(method: &str, missing: &str, reply: ApiReply<T>) -> (r: Result<T, String>)
    ensures
        api_outcome(method@, missing@, reply, r),
{
    match reply {
        ApiReply::Answer(answer) => if answer.ok {
            match answer.result {
                Some(value) => Ok(value),
                None => Err(missing.to_owned()),
            }
        } else {
            let code: i64 = match answer.error_code {
                Some(c) => c as i64,
                None => -1,
            };
            let mut message = "telegram ".to_owned();
            message.append(method);
            message.append(" API error (");
            message.append(signed_decimal_text(code).as_str());
            message.append("): ");
            match answer.description {
                Some(d) => message.append(d.as_str()),
                None => message.append("unknown telegram api error"),
            }
            Err(message)
        },
        ApiReply::HttpError { status, body } => {
            let mut message = "http error ".to_owned();
            message.append(status_text(status).as_str());
            message.append(" during ");
            message.append(method);
            message.append(": ");
            message.append(body.as_str());
            Err(message)
        },
    }
}

/// What a call of `sendMessage` comes to.
pub fn send_message(reply: ApiReply<types::Message>) -> (r: Result<types::Message, String>)
    ensures
        api_outcome(
            "sendMessage"@,
            "sendMessage API call was ok but no message was returned in result"@,
            reply,
            r,
        ),
{
    read_reply(
        "sendMessage",
        "sendMessage API call was ok but no message was returned in result",
        reply,
    )
}

/// What a call of `getMe` comes to.
pub fn get_me(reply: ApiReply<types::User>) -> (r: Result<types::User, String>)
    ensures
        api_outcome(
            "getMe"@,
            "getMe API call was ok but no user was returned in result"@,
            reply,
            r,
        ),
{
    read_reply("getMe", "getMe API call was ok but no user was returned in result", reply)
}

// ---------------------------------------------------------------------------------------------
// Delivery of long messages

/// Where the delivery of a text in several messages stands: one message is to be sent, with or
/// without formatting, or all are sent, or the delivery failed.
#[derive(Clone, Copy, PartialEq, Eq, Structural)]
pub enum Delivery {
    Send { index: usize, formatted: bool },
    Sent,
    Failed,
}

/// The start of a delivery of `count` messages.
pub open spec fn delivery_start(count: nat, formatted: bool) -> Delivery {
    if count == 0 {
        Delivery::Failed
    } else {
        Delivery::Send { index: 0, formatted }
    }
}

/// Whether an error says that Telegram could not read the formatting.
pub open spec fn is_formatting_error(error: Seq<char>) -> bool {
    text::contains_text(error, "can't parse entities"@)
}

/// The delivery once a message was sent, or sending it failed with `error`. A message whose
/// formatting could not be read is sent once more without.
pub open spec fn delivery_next(
    delivery: Delivery,
    count: nat,
    formatted: bool,
    error: Option<Seq<char>>,
) -> Delivery {
    match delivery {
        Delivery::Send { index, formatted: was_formatted } => match error {
            None => if index + 1 < count {
                Delivery::Send { index: (index + 1) as usize, formatted }
            } else {
                Delivery::Sent
            },
            Some(message) => if was_formatted && is_formatting_error(message) {
                Delivery::Send { index, formatted: false }
            } else {
                Delivery::Failed
            },
        },
        done => done,
    }
}

/// Starts the delivery of `count` messages.
pub fn start_delivery(count: usize, formatted: bool) -> (r: Delivery)
    ensures
        r == delivery_start(count as nat, formatted),
{
    if count == 0 {
        Delivery::Failed
    } else {
        Delivery::Send { index: 0, formatted }
    }
}

/// Goes on with a delivery: `error` is what sending the current message failed with.
pub fn send_long_message(
    delivery: Delivery,
    count: usize,
    formatted: bool,
    error: Option<&str>,
) -> (r: Delivery)
    ensures
        r == delivery_next(delivery, count as nat, formatted, text::slice_view(error)),
{
    match delivery {
        Delivery::Send { index, formatted: was_formatted } => match error {
            None => if index < count && index + 1 < count {
                Delivery::Send { index: index + 1, formatted }
            } else {
                Delivery::Sent
            },
            Some(message) => if was_formatted && contains(message, "can't parse entities") {
                Delivery::Send { index, formatted: false }
            } else {
                Delivery::Failed
            },
        },
        done => done,
    }
}

/// The delivery after a run of answers.
pub open spec fn delivery_after(
    count: nat,
    formatted: bool,
    answers: Seq<Option<Seq<char>>>,
) -> Delivery
    decreases answers.len(),
{
    if answers.len() == 0 {
        delivery_start(count, formatted)
    } else {
        delivery_next(
            delivery_after(count, formatted, answers.drop_last()),
            count,
            formatted,
            answers.last(),
        )
    }
}

/// How many messages a run of answers reports as sent.
pub open spec fn sent_count(answers: Seq<Option<Seq<char>>>) -> nat
    decreases answers.len(),
{
    if answers.len() == 0 {
        0
    } else {
        sent_count(answers.drop_last()) + if answers.last() is None {
            1nat
        } else {
            0nat
        }
    }
}

/// Messages go out in order and none is left out: the message to be sent is always the one behind
/// those already sent, and where the delivery first comes to its end all of them were sent.
pub proof fn law_delivery_is_in_order(
    count: nat,
    formatted: bool,
    answers: Seq<Option<Seq<char>>>,
)
    requires
        count <= usize::MAX,
        forall|k: int|
            0 <= k < answers.len() ==> delivery_after(count, formatted, #[trigger] answers.take(k))
                is Send,
    ensures
        delivery_after(count, formatted, answers) matches Delivery::Send { index, .. }
            ==> index == sent_count(answers) && index < count,
        delivery_after(count, formatted, answers) is Sent ==> sent_count(answers) == count,
    decreases answers.len(),
{
    if answers.len() > 0 {
        let before = answers.drop_last();
        assert(answers.take(answers.len() - 1) =~= before);
        assert forall|k: int| 0 <= k < before.len() implies delivery_after(
            count,
            formatted,
            #[trigger] before.take(k),
        ) is Send by {
            assert(before.take(k) =~= answers.take(k));
        }
        law_delivery_is_in_order(count, formatted, before);
    }
}

// ---------------------------------------------------------------------------------------------
// Laws of splitting

proof fn lemma_last_position_is_last(s: Seq<char>, c: char)
    ensures
        match last_position(s, c) {
            Some(k) => 0 <= k < s.len() && s[k] == c && forall|j: int|
                k < j < s.len() ==> #[trigger] s[j] != c,
            None => forall|j: int| 0 <= j < s.len() ==> #[trigger] s[j] != c,
        },
    decreases s.len(),
{
    if s.len() > 0 && s.last() != c {
        let t = s.drop_last();
        lemma_last_position_is_last(t, c);
        assert forall|j: int|
            (match last_position(t, c) {
                Some(k) => k < j,
                None => 0 <= j,
            }) && j < s.len() implies #[trigger] s[j] != c by {
            if j < t.len() {
                assert(t[j] == s[j]);
            }
        }
    }
}

proof fn lemma_longest_fit_is_longest(s: Seq<char>, limit: nat, k: int)
    requires
        longest_fit(s, limit) < k <= limit <= s.len(),
    ensures
        !fits(s.take(k)),
    decreases limit,
{
    if k < limit {
        lemma_longest_fit_is_longest(s, (limit - 1) as nat, k);
    }
}

/// A text of at most 4096 bytes is sent as it is, and no message that a longer one is sent as has
/// more.
pub proof fn law_messages_have_at_most_4096_bytes(s: Seq<char>)
    ensures
        text::byte_len(s) <= 4096 ==> messages_of(s) == seq![s],
        forall|i: int|
            0 <= i < messages_of(s).len() ==> text::byte_len(#[trigger] messages_of(s)[i]) <= 4096,
{
    law_messages_fit(s);
    assert forall|i: int| 0 <= i < messages_of(s).len() implies text::byte_len(
        #[trigger] messages_of(s)[i],
    ) <= 4096 by {
        assert(fits(messages_of(s)[i]));
    }
}

/// A longer text is cut at the last line break that lies in its first 4096 bytes; where there is
/// none, at the last space that does; where there is none either, behind as many characters as
/// have room. What is left, without the white space at its start, is sent in the same way.
pub proof fn law_long_texts_are_cut_at_the_last_break(s: Seq<char>)
    requires
        text::byte_len(s) > 4096,
    ensures
        ({
            let first = messages_of(s)[0];
            let cut = first.len() as int;
            let rest = text::trim_start(s.skip(cut));
            let in_reach = |c: char, j: int|
                0 <= j < s.len() && s[j] == c && text::byte_len(s.take(j + 1)) <= 4096;
            &&& messages_of(s).len() > 0
            &&& first == s.take(cut)
            &&& messages_of(s).skip(1) == if rest.len() == 0 {
                seq![]
            } else {
                messages_of(rest)
            }
            &&& if exists|j: int| #[trigger] in_reach('\n', j) {
                in_reach('\n', cut) && forall|j: int| #[trigger] in_reach('\n', j) ==> j <= cut
            } else if exists|j: int| #[trigger] in_reach(' ', j) {
                in_reach(' ', cut) && forall|j: int| #[trigger] in_reach(' ', j) ==> j <= cut
            } else {
                cut < s.len() && text::byte_len(s.take(cut)) <= 4096 && text::byte_len(
                    s.take(cut + 1),
                ) > 4096
            }
        }),
{
    assert(s.len() > 0) by {
        if s.len() == 0 {
            assert(encode_utf8(s).len() == 0);
        }
    }
    lemma_first_piece(s);
    lemma_longest_fit_fits(s, s.len());
    let piece = first_piece(s);
    let n = piece.len() as int;
    let cut = cut_position(piece);
    lemma_last_position_is_last(piece, '\n');
    lemma_last_position_is_last(piece, ' ');
    assert(!fits(s));
    assert(s.take(s.len() as int) =~= s);
    assert(n < s.len());
    let first = messages_of(s)[0];
    assert(first.len() == cut);
    assert(messages_of(s).skip(1) =~= chunks_of(after_cut(s)));
    let in_reach = |c: char, j: int|
        0 <= j < s.len() && s[j] == c && text::byte_len(s.take(j + 1)) <= 4096;
    assert forall|c: char, j: int| #[trigger] in_reach(c, j) <==> 0 <= j < n && piece[j] == c by {
        if 0 <= j < n {
            lemma_start_is_shorter(piece, j + 1);
            assert(piece.take(j + 1) =~= s.take(j + 1));
            assert(piece[j] == s[j]);
        } else if n <= j < s.len() {
            lemma_longest_fit_is_longest(s, s.len(), j + 1);
        }
    }
    if last_position(piece, '\n') is Some {
        assert(in_reach('\n', cut));
    } else if last_position(piece, ' ') is Some {
        assert(in_reach(' ', cut));
    } else {
        lemma_longest_fit_is_longest(s, s.len(), n + 1);
    }
}

// ---------------------------------------------------------------------------------------------
// Laws of the API

proof fn lemma_parameter_names()
    ensures
        "chat_id"@.len() == 7,
        "text"@.len() == 4,
        "message_thread_id"@.len() == 17,
        "parse_mode"@.len() == 10,
{
    reveal_strlit("chat_id");
    reveal_strlit("text");
    reveal_strlit("message_thread_id");
    reveal_strlit("parse_mode");
}

/// A message is sent to the chat that it is for, with its text as it is, and to a thread or under a
/// parse mode just where they are given; nothing else is sent.
pub proof fn law_messages_are_sent_as_given(
    chat_id: i64,
    text: Seq<char>,
    message_thread_id: Option<i64>,
    parse_mode: Option<Seq<char>>,
    name: Seq<char>,
)
    ensures
        ({
            let members = send_message_members(chat_id, text, message_thread_id, parse_mode);
            &&& json::map_entry(members, "chat_id"@) == Some(json::Json::Integer(chat_id as int))
            &&& json::map_entry(members, "text"@) == Some(json::Json::Text(text))
            &&& json::map_entry(members, "message_thread_id"@) == match message_thread_id {
                Some(id) => Some(json::Json::Integer(id as int)),
                None => None,
            }
            &&& json::map_entry(members, "parse_mode"@) == match parse_mode {
                Some(mode) => Some(json::Json::Text(mode)),
                None => None,
            }
            &&& members.dom().contains(name) ==> name == "chat_id"@ || name == "text"@ || name
                == "message_thread_id"@ || name == "parse_mode"@
        }),
{
    lemma_parameter_names();
}

/// A call succeeds just where the envelope says so and holds a result, and with that result. What
/// goes wrong is told: the error of the envelope with its code and description, or the status with
/// the body.
pub proof fn law_calls_come_to_what_is_answered<T>(
    method: Seq<char>,
    missing: Seq<char>,
    reply: ApiReply<T>,
    outcome: Result<T, String>,
)
    requires
        api_outcome(method, missing, reply, outcome),
    ensures
        match reply {
            ApiReply::Answer(answer) => {
                &&& outcome is Ok <==> answer.ok && answer.result is Some
                &&& outcome is Ok ==> answer.result == Some(outcome->Ok_0)
                &&& answer.ok && answer.result is None ==> outcome->Err_0@ == missing
                &&& !answer.ok ==> {
                    &&& text::contains_text(outcome->Err_0@, method)
                    &&& answer.error_code matches Some(code) ==> text::contains_text(
                        outcome->Err_0@,
                        text::signed_decimal(code as int),
                    )
                    &&& answer.description matches Some(d) ==> text::has_suffix(
                        outcome->Err_0@,
                        d@,
                    )
                }
            },
            ApiReply::HttpError { status, body } => {
                &&& outcome is Err
                &&& text::contains_text(outcome->Err_0@, method)
                &&& text::contains_text(outcome->Err_0@, text::decimal(status as nat))
                &&& text::has_suffix(outcome->Err_0@, body@)
            },
        },
{
    match reply {
        ApiReply::Answer(answer) => {
            if !answer.ok {
                let m = outcome->Err_0@;
                let code: int = match answer.error_code {
                    Some(c) => c as int,
                    None => -1,
                };
                let number = text::signed_decimal(code);
                let description = match answer.description {
                    Some(d) => d@,
                    None => "unknown telegram api error"@,
                };
                let a = "telegram "@;
                let b = " API error ("@;
                let c = "): "@;
                assert(m =~= a + method + (b + number + c + description));
                assert(m =~= (a + method + b) + number + (c + description));
                assert(m =~= (a + method + b + number + c) + description);
                text::law_contained_text_is_a_part(m, method);
                text::law_contained_text_is_a_part(m, number);
                text::law_prefix_and_suffix(a + method + b + number + c, description);
            }
        },
        ApiReply::HttpError { status, body } => {
            let m = outcome->Err_0@;
            let number = text::decimal(status as nat);
            let phrase = match http_status::status_reason(status) {
                Some(p) => p,
                None => "<unknown status code>"@,
            };
            let a = "http error "@;
            let b = " "@ + phrase + " during "@;
            let c = ": "@;
            assert(m =~= a + number + (b + method + c + body@));
            assert(m =~= (a + number + b) + method + (c + body@));
            assert(m =~= (a + number + b + method + c) + body@);
            text::law_contained_text_is_a_part(m, method);
            text::law_contained_text_is_a_part(m, number);
            text::law_prefix_and_suffix(a + number + b + method + c, body@);
        },
    }
}

// ---------------------------------------------------------------------------------------------
// Laws of the delivery

/// A delivery begins with the first message; what was sent is followed by the next one, formatted
/// as asked, until there is none. A message whose formatting could not be read is sent once more
/// without; any other failure ends the delivery, and what has ended stays so.
pub proof fn law_each_message_is_followed_by_the_next(
    count: nat,
    formatted: bool,
    index: usize,
    was_formatted: bool,
    error: Option<Seq<char>>,
)
    requires
        index < count <= usize::MAX,
    ensures
        delivery_start(count, formatted) == (Delivery::Send { index: 0, formatted }),
        delivery_start(0, formatted) == Delivery::Failed,
        ({
            let now = Delivery::Send { index, formatted: was_formatted };
            let next = delivery_next(now, count, formatted, error);
            match error {
                None => if index + 1 == count {
                    next == Delivery::Sent
                } else {
                    next == (Delivery::Send { index: (index + 1) as usize, formatted })
                },
                Some(message) => if was_formatted && text::contains_text(
                    message,
                    "can't parse entities"@,
                ) {
                    next == (Delivery::Send { index, formatted: false })
                } else {
                    next == Delivery::Failed
                },
            }
        }),
        delivery_next(Delivery::Sent, count, formatted, error) == Delivery::Sent,
        delivery_next(Delivery::Failed, count, formatted, error) == Delivery::Failed,
{
}

/// The texts of a list of slices are those of the slices, each in its place.
pub proof fn law_slices_stand_for_their_texts(list: Seq<&str>)
    ensures
        slices(list).len() == list.len(),
        forall|i: int| 0 <= i < list.len() ==> #[trigger] slices(list)[i] == list[i]@,
{
}

} // verus!
