//! JSON values, as `serde_json` holds, reads and writes them.
//!
//! A value of `serde_json::Value` is opaque; what it holds is the [`Json`] that [`json_of`] gives.
//! Objects are finite maps: of two members with one name the later one counts.

use std::collections::HashMap;
use vstd::prelude::*;

verus! {

/// What a JSON value holds. A number that is not an integer of 64 bits is known by the text that
/// writes it.
pub enum Json {
    Null,
    Bool(bool),
    Integer(int),
    Fraction(Seq<char>),
    Text(Seq<char>),
    Array(Seq<Json>),
    Object(Map<Seq<char>, Json>),
}

/// `serde_json::Value`.
#[verifier::external_type_specification]
#[verifier::external_body]
pub struct ExValue(serde_json::Value);

/// `serde_json::Map`, the members of an object.
#[verifier::external_type_specification]
#[verifier::external_body]
#[verifier::reject_recursive_types(K)]
#[verifier::reject_recursive_types(V)]
pub struct ExMembers<K, V>(serde_json::Map<K, V>);

/// What a `serde_json::Value` holds.
pub uninterp spec fn json_of(value: serde_json::Value) -> Json;

/// The members that a `serde_json::Map` holds, by name.
pub uninterp spec fn members_of(
    members: serde_json::Map<String, serde_json::Value>,
) -> Map<Seq<char>, Json>;

/// The compact text that `serde_json` writes for a value.
pub uninterp spec fn json_text(value: Json) -> Seq<char>;

/// What `serde_json` reads from a text: a value, or the message of its error.
pub uninterp spec fn parsed_json(text: Seq<char>) -> Result<Json, Seq<char>>;

/// What `serde_json` reads from a text as a map from strings to values.
pub uninterp spec fn parsed_members(text: Seq<char>) -> Result<Map<Seq<char>, Json>, Seq<char>>;

/// What `serde_json` reads from a text as a map from strings to strings.
pub uninterp spec fn parsed_strings(
    text: Seq<char>,
) -> Result<Map<Seq<char>, Seq<char>>, Seq<char>>;

/// Whether `value` is neither an array nor an object nor a fraction.
pub open spec fn is_scalar(value: Json) -> bool {
    value is Null || value is Bool || value is Integer || value is Text
}

/// Whether `members` holds nothing but scalars.
pub open spec fn is_flat(members: Map<Seq<char>, Json>) -> bool {
    forall|name: Seq<char>| members.dom().contains(name) ==> is_scalar(#[trigger] members[name])
}

/// The member of an object by its name; nothing where there is none or `value` is no object.
pub open spec fn member(value: Json, name: Seq<char>) -> Option<Json> {
    match value {
        Json::Object(members) => if members.dom().contains(name) {
            Some(members[name])
        } else {
            None
        },
        _ => None,
    }
}

/// The text that `value` is, if it is one.
pub open spec fn as_text(value: Json) -> Option<Seq<char>> {
    match value {
        Json::Text(text) => Some(text),
        _ => None,
    }
}

/// The text under `name` in an object, if there is one.
pub open spec fn text_member(value: Json, name: Seq<char>) -> Option<Seq<char>> {
    match member(value, name) {
        Some(found) => as_text(found),
        None => None,
    }
}

// ---------------------------------------------------------------------------------------------
// Reading

/// `serde_json::from_str` to a `serde_json::Value`: the value the text writes, or the message of
/// the error, as [`parsed_json`] names them.
#[verifier::external_body]
pub(crate) fn parse(text: &str) -> (r: Result<serde_json::Value, String>)
    ensures
        match r {
            Ok(value) => parsed_json(text@) matches Ok(json) && json == json_of(value),
            Err(message) => parsed_json(text@) matches Err(m) && m == message@,
        },
{
    serde_json::from_str::<serde_json::Value>(text).map_err(|e| e.to_string())
}

/// The entry under `name` in a list of entries, the first where there are several.
pub open spec fn entry<T>(entries: Seq<(String, T)>, name: Seq<char>) -> Option<T>
    decreases entries.len(),
{
    if entries.len() == 0 {
        None
    } else if entries[0].0@ == name {
        Some(entries[0].1)
    } else {
        entry(entries.drop_first(), name)
    }
}

/// The value under `name` in a map, if there is one.
pub open spec fn map_entry<T>(map: Map<Seq<char>, T>, name: Seq<char>) -> Option<T> {
    if map.dom().contains(name) {
        Some(map[name])
    } else {
        None
    }
}

/// `serde_json::from_str` to a `HashMap<String, Value>`, its entries handed out as a list in the
/// order in which the map is walked, which is left open: looking a name up gives what
/// [`parsed_members`] has under it.
#[verifier::external_body]
pub(crate) fn parse_members(text: &str) -> (r: Result<Vec<(String, serde_json::Value)>, String>)
    ensures
        match r {
            Ok(entries) => {
                &&& parsed_members(text@) is Ok
                &&& forall|name: Seq<char>| #[trigger]
                    map_entry(parsed_members(text@)->Ok_0, name) == match entry(entries@, name) {
                        Some(value) => Some(json_of(value)),
                        None => None,
                    }
            },
            Err(message) => parsed_members(text@) matches Err(m) && m == message@,
        },
{
    match serde_json::from_str::<HashMap<String, serde_json::Value>>(text) {
        Ok(map) => Ok(map.into_iter().collect()),
        Err(e) => Err(e.to_string()),
    }
}

/// `serde_json::from_str` to a `HashMap<String, String>`, its entries handed out as a list in the
/// order in which the map is walked, which is left open: looking a name up gives what
/// [`parsed_strings`] has under it.
#[verifier::external_body]
pub(crate) fn parse_strings(text: &str) -> (r: Result<Vec<(String, String)>, String>)
    ensures
        match r {
            Ok(entries) => {
                &&& parsed_strings(text@) is Ok
                &&& forall|name: Seq<char>| #[trigger]
                    map_entry(parsed_strings(text@)->Ok_0, name) == match entry(entries@, name) {
                        Some(string) => Some(string@),
                        None => None,
                    }
            },
            Err(message) => parsed_strings(text@) matches Err(m) && m == message@,
        },
{
    match serde_json::from_str::<HashMap<String, String>>(text) {
        Ok(map) => Ok(map.into_iter().collect()),
        Err(e) => Err(e.to_string()),
    }
}

/// Looks an entry up by its name.
pub(crate) fn find_entry<'a, T>(entries: &'a Vec<(String, T)>, name: &str) -> (r: Option<&'a T>)
    ensures
        match r {
            Some(found) => entry(entries@, name@) == Some(*found),
            None => entry(entries@, name@) is None,
        },
{
    let mut i: usize = 0;
    proof {
        assert(entries@.skip(0) =~= entries@);
    }
    while i < entries.len()
        invariant
            i <= entries@.len(),
            entry(entries@, name@) == entry(entries@.skip(i as int), name@),
        decreases entries@.len() - i,
    {
        proof {
            assert(entries@.skip(i as int)[0] == entries@[i as int]);
            assert(entries@.skip(i as int).drop_first() =~= entries@.skip(i + 1));
        }
        if crate::text::same_text(entries[i].0.as_str(), name) {
            return Some(&entries[i].1);
        }
        i += 1;
    }
    None
}

/// What a list of arguments says under a name: nothing where it says nothing, and the error where
/// the arguments cannot be read.
pub open spec fn string_asked(
    parsed: Result<Map<Seq<char>, Seq<char>>, Seq<char>>,
    name: Seq<char>,
) -> Result<Option<Seq<char>>, Seq<char>> {
    match parsed {
        Ok(strings) => Ok(map_entry(strings, name)),
        Err(error) => Err(error),
    }
}

/// What was asked for, behind its strings.
pub open spec fn asked_view(asked: Result<Option<String>, String>) -> Result<
    Option<Seq<char>>,
    Seq<char>,
> {
    match asked {
        Ok(Some(value)) => Ok(Some(value@)),
        Ok(None) => Ok(None),
        Err(error) => Err(error@),
    }
}

/// Reads arguments that are all strings, and finds what they say under a name.
pub(crate) fn asked_string(arguments: &str, name: &str) -> (r: Result<Option<String>, String>)
    ensures
        asked_view(r) == string_asked(parsed_strings(arguments@), name@),
{
    match parse_strings(arguments) {
        Ok(entries) => {
            proof {
                let found = map_entry(parsed_strings(arguments@)->Ok_0, name@);
            }
            match find_entry(&entries, name) {
                Some(value) => Ok(Some(value.clone())),
                None => Ok(None),
            }
        },
        Err(error) => Err(error),
    }
}

/// `serde_json::Value::get` by a member's name: the member of an object, and nothing for a name
/// that it does not have or for a value that is no object.
#[verifier::external_body]
pub(crate) fn get<'a>(value: &'a serde_json::Value, name: &str) -> (r: Option<
    &'a serde_json::Value,
>)
    ensures
        match r {
            Some(found) => member(json_of(*value), name@) == Some(json_of(*found)),
            None => member(json_of(*value), name@) is None,
        },
{
    value.get(name)
}

/// `serde_json::Value::as_str`: the text that the value is, and nothing for any other value.
#[verifier::external_body]
pub(crate) fn as_str<'a>(value: &'a serde_json::Value) -> (r: Option<&'a str>)
    ensures
        match r {
            Some(text) => json_of(*value) == Json::Text(text@),
            None => !(json_of(*value) is Text),
        },
{
    value.as_str()
}

/// `serde_json::Value::as_u64`: the number that the value is, where it is an integer of the range
/// of `u64`, and nothing for any other value.
#[verifier::external_body]
pub(crate) fn as_u64(value: &serde_json::Value) -> (r: Option<u64>)
    ensures
        match r {
            Some(number) => json_of(*value) == Json::Integer(number as int),
            None => !(json_of(*value) matches Json::Integer(n) && 0 <= n <= u64::MAX),
        },
{
    value.as_u64()
}

/// `serde_json::Value::as_bool`: the truth value that the value is, and nothing for any other
/// value.
#[verifier::external_body]
pub(crate) fn as_bool(value: &serde_json::Value) -> (r: Option<bool>)
    ensures
        match r {
            Some(flag) => json_of(*value) == Json::Bool(flag),
            None => !(json_of(*value) is Bool),
        },
{
    value.as_bool()
}

/// The text under `name`, if the value is an object that has one.
pub(crate) fn get_text<'a>(value: &'a serde_json::Value, name: &str) -> (r: Option<&'a str>)
    ensures
        match r {
            Some(text) => text_member(json_of(*value), name@) == Some(text@),
            None => text_member(json_of(*value), name@) is None,
        },
{
    match get(value, name) {
        Some(found) => as_str(found),
        None => None,
    }
}

// ---------------------------------------------------------------------------------------------
// Building

/// `serde_json::Value::Null`.
#[verifier::external_body]
pub(crate) fn null_value() -> (r: serde_json::Value)
    ensures
        json_of(r) == Json::Null,
{
    serde_json::Value::Null
}

/// `serde_json::Value::Bool`, which holds the given truth value.
#[verifier::external_body]
pub(crate) fn bool_value(flag: bool) -> (r: serde_json::Value)
    ensures
        json_of(r) == Json::Bool(flag),
{
    serde_json::Value::Bool(flag)
}

/// `serde_json::Value::from` on an `i64`: the number.
#[verifier::external_body]
pub(crate) fn integer_value(number: i64) -> (r: serde_json::Value)
    ensures
        json_of(r) == Json::Integer(number as int),
{
    serde_json::Value::from(number)
}

/// `serde_json::Value::from` on a `u64`: the number.
#[verifier::external_body]
pub(crate) fn unsigned_value(number: u64) -> (r: serde_json::Value)
    ensures
        json_of(r) == Json::Integer(number as int),
{
    serde_json::Value::from(number)
}

/// `serde_json::Value::String`, which holds the given text.
#[verifier::external_body]
pub(crate) fn text_value(text: &str) -> (r: serde_json::Value)
    ensures
        json_of(r) == Json::Text(text@),
{
    serde_json::Value::String(text.to_string())
}

/// `serde_json::Value::clone`: a value that holds the same.
#[verifier::external_body]
pub(crate) fn copy_value(value: &serde_json::Value) -> (r: serde_json::Value)
    ensures
        json_of(r) == json_of(*value),
{
    value.clone()
}

/// What each of a list of values holds.
pub open spec fn jsons(values: Seq<serde_json::Value>) -> Seq<Json> {
    values.map_values(|value: serde_json::Value| json_of(value))
}

/// `serde_json::Value::Array`, which holds the given values in order.
#[verifier::external_body]
pub(crate) fn array_value(values: Vec<serde_json::Value>) -> (r: serde_json::Value)
    ensures
        json_of(r) == Json::Array(jsons(values@)),
{
    serde_json::Value::Array(values)
}

/// An object without members.
pub open spec fn no_members() -> Map<Seq<char>, Json> {
    Map::empty()
}

/// `serde_json::Map::new`: no members.
#[verifier::external_body]
pub(crate) fn new_members() -> (r: serde_json::Map<String, serde_json::Value>)
    ensures
        members_of(r) == no_members(),
{
    serde_json::Map::new()
}

/// `serde_json::Map::insert`: puts the member in, in place of one of the same name.
#[verifier::external_body]
pub(crate) fn put(
    members: &mut serde_json::Map<String, serde_json::Value>,
    name: &str,
    value: serde_json::Value,
)
    ensures
        members_of(*final(members)) == members_of(*old(members)).insert(name@, json_of(value)),
{
    members.insert(name.to_string(), value);
}

/// `serde_json::Value::Object`, which holds the given members.
#[verifier::external_body]
pub(crate) fn object_value(
    members: serde_json::Map<String, serde_json::Value>,
) -> (r: serde_json::Value)
    ensures
        json_of(r) == Json::Object(members_of(members)),
{
    serde_json::Value::Object(members)
}

/// Puts a text in under `name`.
pub(crate) fn put_text(
    members: &mut serde_json::Map<String, serde_json::Value>,
    name: &str,
    text: &str,
)
    ensures
        members_of(*final(members)) == members_of(*old(members)).insert(name@, Json::Text(text@)),
{
    put(members, name, text_value(text));
}

// ---------------------------------------------------------------------------------------------
// Writing

/// The member name by which `serde_json` marks raw text: an object that begins with it is read as
/// what the text under it writes.
pub open spec fn raw_text_name() -> Seq<char> {
    "$serde_json::private::RawValue"@
}

/// Whether `text` reads as `value`, if `value` is an object whose members are all scalars; as a
/// value only where no member has the name that marks raw text.
pub open spec fn reads_back(text: Seq<char>, value: Json) -> bool {
    match value {
        Json::Object(members) => is_flat(members) ==> {
            &&& parsed_members(text) == Ok::<Map<Seq<char>, Json>, Seq<char>>(members)
            &&& !members.dom().contains(raw_text_name()) ==> parsed_json(text) == Ok::<
                Json,
                Seq<char>,
            >(value)
        },
        _ => true,
    }
}

/// `serde_json::Value::to_string`, the compact text of the value, as [`json_text`] names it. Of an
/// object whose members are all scalars, reading it as a map of values gives back what was
/// written, and so does reading it as a value, unless a member has the name that marks raw text.
#[verifier::external_body]
pub(crate) fn to_text(value: &serde_json::Value) -> (r: String)
    ensures
        r@ == json_text(json_of(*value)),
        reads_back(r@, json_of(*value)),
{
    value.to_string()
}

/// Whether `text` is the writing of `value`, and reads as it where it is flat.
pub open spec fn writes(text: Seq<char>, value: Json) -> bool {
    text == json_text(value) && reads_back(text, value)
}

/// The compact text of an object.
pub(crate) fn write_members(members: serde_json::Map<String, serde_json::Value>) -> (r: String)
    ensures
        writes(r@, Json::Object(members_of(members))),
{
    to_text(&object_value(members))
}

// ---------------------------------------------------------------------------------------------
// Replies of tools

/// A reply that gives a status and a message.
pub open spec fn status_members(status: Seq<char>, message: Seq<char>) -> Map<Seq<char>, Json> {
    no_members().insert("status"@, Json::Text(status)).insert("message"@, Json::Text(message))
}

/// A reply that gives a status, a message and details.
pub open spec fn detailed_members(
    status: Seq<char>,
    message: Seq<char>,
    details: Seq<char>,
) -> Map<Seq<char>, Json> {
    status_members(status, message).insert("details"@, Json::Text(details))
}

/// A reply that gives a status and a message.
pub open spec fn status_json(status: Seq<char>, message: Seq<char>) -> Json {
    Json::Object(status_members(status, message))
}

/// A reply that reports an error with its details.
pub open spec fn error_json(message: Seq<char>, details: Seq<char>) -> Json {
    Json::Object(detailed_members("error"@, message, details))
}

/// The members of a reply that gives a status and a message.
pub(crate) fn reply_members(status: &str, message: &str) -> (r: serde_json::Map<
    String,
    serde_json::Value,
>)
    ensures
        members_of(r) == status_members(status@, message@),
{
    let mut members = new_members();
    put_text(&mut members, "status", status);
    put_text(&mut members, "message", message);
    members
}

/// Writes a reply that gives a status and a message.
pub(crate) fn status_reply(status: &str, message: &str) -> (r: String)
    ensures
        writes(r@, status_json(status@, message@)),
{
    write_members(reply_members(status, message))
}

/// A reply that reports an error with its details.
pub(crate) fn error_value(message: &str, details: &str) -> (r: serde_json::Value)
    ensures
        json_of(r) == error_json(message@, details@),
{
    let mut members = reply_members("error", message);
    put_text(&mut members, "details", details);
    object_value(members)
}

/// Writes a reply that reports an error with its details.
pub(crate) fn error_reply(message: &str, details: &str) -> (r: String)
    ensures
        writes(r@, error_json(message@, details@)),
{
    to_text(&error_value(message, details))
}

// ---------------------------------------------------------------------------------------------
// Laws

/// The names of the members of a reply are different.
pub proof fn lemma_reply_names()
    ensures
        "status"@ != "message"@,
        "status"@ != "details"@,
        "message"@ != "details"@,
{
    reveal_strlit("status");
    reveal_strlit("message");
    reveal_strlit("details");
    assert("status"@[0] == 's');
    assert("message"@[0] == 'm');
    assert("details"@[0] == 'd');
}

/// A reply gives its status and its message under their names and nothing else; one that reports an
/// error gives the details as well, and its status says that it is an error.
pub proof fn law_replies_have_their_members(
    status: Seq<char>,
    message: Seq<char>,
    details: Seq<char>,
    name: Seq<char>,
)
    ensures
        member(status_json(status, message), name) == if name == "status"@ {
            Some(Json::Text(status))
        } else if name == "message"@ {
            Some(Json::Text(message))
        } else {
            None
        },
        member(error_json(message, details), name) == if name == "status"@ {
            Some(Json::Text("error"@))
        } else if name == "message"@ {
            Some(Json::Text(message))
        } else if name == "details"@ {
            Some(Json::Text(details))
        } else {
            None
        },
        member(Json::Object(detailed_members(status, message, details)), "status"@) == Some(
            Json::Text(status),
        ),
        member(Json::Object(detailed_members(status, message, details)), "message"@) == Some(
            Json::Text(message),
        ),
        member(Json::Object(detailed_members(status, message, details)), "details"@) == Some(
            Json::Text(details),
        ),
{
    lemma_reply_names();
}

/// A member is found under its name as it was put in, the last one put in counting; only a text is
/// found as a text, and only an object has members.
pub proof fn law_members_are_found(
    members: Map<Seq<char>, Json>,
    name: Seq<char>,
    other: Seq<char>,
    value: Json,
    text: Seq<char>,
)
    ensures
        member(Json::Object(members.insert(name, value)), name) == Some(value),
        name != other ==> member(Json::Object(members.insert(name, value)), other) == member(
            Json::Object(members),
            other,
        ),
        member(Json::Object(no_members()), name) is None,
        !(value is Object) ==> member(value, name) is None,
        text_member(Json::Object(members.insert(name, Json::Text(text))), name) == Some(text),
        !(value is Text) ==> text_member(Json::Object(members.insert(name, value)), name) is None,
        map_entry(members, name) == member(Json::Object(members), name),
{
}

/// Of the entries under a name the first counts, and what stands under other names does not.
pub proof fn law_the_first_entry_counts<T>(
    a: Seq<(String, T)>,
    b: Seq<(String, T)>,
    name: Seq<char>,
)
    ensures
        entry(a + b, name) == if entry(a, name) is Some {
            entry(a, name)
        } else {
            entry(b, name)
        },
        a.len() == 1 ==> entry(a, name) == if a[0].0@ == name {
            Some(a[0].1)
        } else {
            None
        },
        a.len() == 0 ==> entry(a, name) is None,
    decreases a.len(),
{
    reveal_with_fuel(entry, 2);
    if a.len() == 0 {
        assert(a + b =~= b);
    } else {
        law_the_first_entry_counts(a.drop_first(), b, name);
        assert((a + b).drop_first() =~= a.drop_first() + b);
    }
}

/// What is asked for under a name is what the arguments have there, where they can be read.
pub proof fn law_what_is_asked_is_found(
    strings: Map<Seq<char>, Seq<char>>,
    error: Seq<char>,
    name: Seq<char>,
    value: Seq<char>,
)
    ensures
        string_asked(Ok(strings.insert(name, value)), name) == Ok::<
            Option<Seq<char>>,
            Seq<char>,
        >(Some(value)),
        string_asked(Ok(strings.remove(name)), name) == Ok::<Option<Seq<char>>, Seq<char>>(None),
        string_asked(Err(error), name) == Err::<Option<Seq<char>>, Seq<char>>(error),
{
}

/// What stands for a list of values is what each of them holds, in its place; what stands for what
/// was asked is its text.
pub proof fn law_values_stand_for_what_they_hold(
    values: Seq<serde_json::Value>,
    value: String,
    error: String,
)
    ensures
        jsons(values).len() == values.len(),
        forall|i: int| 0 <= i < values.len() ==> #[trigger] jsons(values)[i] == json_of(values[i]),
        asked_view(Ok(Some(value))) == Ok::<Option<Seq<char>>, Seq<char>>(Some(value@)),
        asked_view(Ok(None)) == Ok::<Option<Seq<char>>, Seq<char>>(None),
        asked_view(Err(error)) == Err::<Option<Seq<char>>, Seq<char>>(error@),
{
}

} // verus!
