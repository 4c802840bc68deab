//! Reading the environment.

use crate::text;
use crate::text::{byte_count, same_text, slice_bytes, to_lowercase_text};
use vstd::prelude::*;

verus! {

/// The variables whose values are not logged in full.
pub const LOG_BLACKLIST: [&'static str; 1] = ["DATABASE_URL"];

/// The variables of the environment, by name.
pub struct Environment {
    vars: Vec<(String, String)>,
}

/// The value of the first variable of a name.
pub open spec fn value_of(vars: Seq<(String, String)>, key: Seq<char>) -> Option<Seq<char>>
    decreases vars.len(),
{
    if vars.len() == 0 {
        None
    } else if vars[0].0@ == key {
        Some(vars[0].1@)
    } else {
        value_of(vars.drop_first(), key)
    }
}

impl Environment {
    /// The variables.
    pub closed spec fn vars(self) -> Seq<(String, String)> {
        self.vars@
    }

    /// The value of a variable, where it is set.
    pub open spec fn value(self, key: Seq<char>) -> Option<Seq<char>> {
        value_of(self.vars(), key)
    }

    /// An environment of the given variables; of several of one name, the first counts.
    pub fn new(vars: Vec<(String, String)>) -> (r: Self)
        ensures
            r.vars() == vars@,
    {
        Environment { vars }
    }
}

/// Whether a name is one of a list.
pub open spec fn is_listed(list: Seq<&str>, key: Seq<char>) -> bool {
    exists|i: int| 0 <= i < list.len() && (#[trigger] list[i])@ == key
}

/// How many bytes come before the last four.
pub open spec fn hidden_len(value: Seq<char>) -> int {
    if text::byte_len(value) > 4 {
        text::byte_len(value) - 4
    } else {
        0
    }
}

/// Whether the last four bytes are whole characters.
pub open spec fn can_be_hidden(value: Seq<char>) -> bool {
    text::sliceable(value, hidden_len(value), text::byte_len(value) - hidden_len(value))
}

/// What is shown of a value: of a secret one, its last four bytes.
pub open spec fn shown_value(secret: bool, value: Seq<char>) -> Seq<char> {
    if secret {
        "****"@ + text::byte_slice(value, hidden_len(value), text::byte_len(value) - hidden_len(value))
    } else {
        value
    }
}

/// What is shown of the value of a variable: of one that is on the list, its last four bytes.
pub fn obfuscate_if_secret(blacklist: &[&str], key: &str, value: &str) -> (r: String)
    requires
        is_listed(blacklist@, key@) ==> can_be_hidden(value@),
    ensures
        r@ == shown_value(is_listed(blacklist@, key@), value@),
{
    let mut i: usize = 0;
    while i < blacklist.len()
        invariant
            i <= blacklist@.len(),
            is_listed(blacklist@, key@) ==> can_be_hidden(value@),
            forall|j: int| 0 <= j < i ==> (#[trigger] blacklist@[j])@ != key@,
        decreases blacklist@.len() - i,
    {
        if same_text(blacklist[i], key) {
            proof {
                assert(is_listed(blacklist@, key@)) by {
                    assert(blacklist@[i as int]@ == key@);
                }
            }
            let len: usize = byte_count(value);
            let hidden: usize = if len > 4 {
                len - 4
            } else {
                0
            };
            let mut out = "****".to_owned();
            out.append(slice_bytes(value, hidden, len - hidden));
            return out;
        }
        i += 1;
    }
    value.to_owned()
}

/// The line that is logged when a variable is read.
pub open spec fn log_line(key: Seq<char>, value: Option<Seq<char>>) -> Seq<char> {
    match value {
        Some(v) => "env var "@ + key + ": "@ + shown_value(key == "DATABASE_URL"@, v),
        None => "env var "@ + key + " requested but not found"@,
    }
}

/// The line that is logged when a variable is read.
pub fn env_var_log_line(key: &str, value: &Option<String>) -> (r: String)
    requires
        key@ == "DATABASE_URL"@ ==> (value matches Some(v) ==> can_be_hidden(v@)),
    ensures
        r@ == log_line(key@, text::text_view(*value)),
{
    let mut out = "env var ".to_owned();
    out.append(key);
    match value {
        Some(v) => {
            let blacklist = LOG_BLACKLIST;
            proof {
                assert(blacklist@[0]@ == "DATABASE_URL"@);
                assert(is_listed(blacklist@, key@) == (key@ == "DATABASE_URL"@));
            }
            out.append(": ");
            out.append(obfuscate_if_secret(&blacklist, key, v.as_str()).as_str());
        },
        None => out.append(" requested but not found"),
    }
    out
}

/// The value of a variable, where it is set.
pub fn get_env_var(environment: &Environment, key: &str) -> (r: Option<String>)
    ensures
        text::text_view(r) == environment.value(key@),
{
    let ghost all = environment.vars();
    let mut i: usize = 0;
    proof {
        assert(all.skip(0) =~= all);
    }
    while i < environment.vars.len()
        invariant
            i <= environment.vars@.len(),
            all == environment.vars@,
            all == environment.vars(),
            value_of(all, key@) == value_of(all.skip(i as int), key@),
        decreases environment.vars@.len() - i,
    {
        proof {
            assert(all.skip(i as int)[0] == all[i as int]);
            assert(all.skip(i as int).drop_first() =~= all.skip(i + 1));
        }
        if same_text(environment.vars[i].0.as_str(), key) {
            return Some(environment.vars[i].1.clone());
        }
        i += 1;
    }
    None
}

/// The truth value that a word in lower case stands for.
pub open spec fn truth_value(word: Seq<char>) -> Option<bool> {
    if word == "true"@ || word == "t"@ || word == "1"@ {
        Some(true)
    } else if word == "false"@ || word == "f"@ || word == "0"@ {
        Some(false)
    } else {
        None
    }
}

/// Reads a word in lower case as a truth value.
pub fn read_truth_value(word: &str) -> (r: Option<bool>)
    ensures
        r == truth_value(word@),
{
    if same_text(word, "true") || same_text(word, "t") || same_text(word, "1") {
        Some(true)
    } else if same_text(word, "false") || same_text(word, "f") || same_text(word, "0") {
        Some(false)
    } else {
        None
    }
}

/// Whether a variable is not set, or stands for a truth value.
pub open spec fn is_flag(value: Option<Seq<char>>) -> bool {
    value matches Some(v) ==> truth_value(text::lowercase(v)) is Some
}

/// The truth value that a variable stands for, where it is set.
pub open spec fn flag(value: Option<Seq<char>>) -> Option<bool> {
    match value {
        Some(v) => truth_value(text::lowercase(v)),
        None => None,
    }
}

/// The truth value that a variable stands for, where it is set. The case of its letters does not
/// matter.
pub fn get_env_bool(environment: &Environment, key: &str) -> (r: Option<bool>)
    requires
        is_flag(environment.value(key@)),
    ensures
        r == flag(environment.value(key@)),
{
    match get_env_var(environment, key) {
        Some(value) => read_truth_value(to_lowercase_text(value.as_str()).as_str()),
        None => None,
    }
}

/// Why a variable cannot be read as a truth value.
pub open spec fn invalid_flag(value: Seq<char>, key: Seq<char>) -> Seq<char> {
    "invalid bool value "@ + text::lowercase(value) + " for "@ + key
}

/// The truth value that a variable stands for, where it is set, or why it stands for none.
pub fn check_env_bool(environment: &Environment, key: &str) -> (r: Result<Option<bool>, String>)
    ensures
        text::message_view(r) == if is_flag(environment.value(key@)) {
            Ok(flag(environment.value(key@)))
        } else {
            Err(invalid_flag(environment.value(key@)->0, key@))
        },
{
    if let Some(value) = get_env_var(environment, key) {
        let lowered = to_lowercase_text(value.as_str());
        if read_truth_value(lowered.as_str()).is_none() {
            let mut message = "invalid bool value ".to_owned();
            message.append(lowered.as_str());
            message.append(" for ");
            message.append(key);
            return Err(message);
        }
    }
    Ok(get_env_bool(environment, key))
}

/// What the program is told by its environment.
pub struct EnvConfig {
    /// The address of the database.
    pub database_url: String,
    /// Whether the log is written as JSON.
    pub log_json: bool,
    /// Whether the log says how long each span took.
    pub log_perf: bool,
}

/// A flag, which is off where it is not set.
pub open spec fn flag_or_off(value: Option<Seq<char>>) -> bool {
    flag(value) == Some(true)
}

/// Whether the environment says all that it must, in a form that can be read.
pub open spec fn is_complete(environment: Environment) -> bool {
    &&& environment.value("DATABASE_URL"@) is Some
    &&& is_flag(environment.value("LOG_JSON"@))
    &&& is_flag(environment.value("LOG_PERF"@))
}

/// Whether a configuration is what the environment says.
pub open spec fn is_config_of(config: EnvConfig, environment: Environment) -> bool {
    &&& environment.value("DATABASE_URL"@) == Some(config.database_url@)
    &&& config.log_json == flag_or_off(environment.value("LOG_JSON"@))
    &&& config.log_perf == flag_or_off(environment.value("LOG_PERF"@))
}

/// What the environment says.
pub fn get_env_config(environment: &Environment) -> (r: EnvConfig)
    requires
        is_complete(*environment),
    ensures
        is_config_of(r, *environment),
{
    let database_url = match get_env_var(environment, "DATABASE_URL") {
        Some(url) => url,
        None => String::new(),
    };
    EnvConfig {
        database_url,
        log_json: get_env_bool(environment, "LOG_JSON").unwrap_or(false),
        log_perf: get_env_bool(environment, "LOG_PERF").unwrap_or(false),
    }
}

/// Why an environment cannot be used: the address of the database is missing, or a flag stands for
/// no truth value.
pub open spec fn config_error(environment: Environment) -> Seq<char> {
    if environment.value("DATABASE_URL"@) is None {
        "DATABASE_URL is required"@
    } else if !is_flag(environment.value("LOG_JSON"@)) {
        invalid_flag(environment.value("LOG_JSON"@)->0, "LOG_JSON"@)
    } else {
        invalid_flag(environment.value("LOG_PERF"@)->0, "LOG_PERF"@)
    }
}

/// What the environment says, or why it cannot be used.
pub fn load_env_config(environment: &Environment) -> (r: Result<EnvConfig, String>)
    ensures
        match r {
            Ok(config) => is_complete(*environment) && is_config_of(config, *environment),
            Err(message) => !is_complete(*environment) && message@ == config_error(*environment),
        },
{
    if get_env_var(environment, "DATABASE_URL").is_none() {
        return Err("DATABASE_URL is required".to_owned());
    }
    if let Err(message) = check_env_bool(environment, "LOG_JSON") {
        return Err(message);
    }
    if let Err(message) = check_env_bool(environment, "LOG_PERF") {
        return Err(message);
    }
    Ok(get_env_config(environment))
}

// ---------------------------------------------------------------------------------------------
// Laws

/// Of the variables of one name the first counts, and those of other names do not.
pub proof fn law_the_first_variable_counts(
    a: Seq<(String, String)>,
    b: Seq<(String, String)>,
    key: Seq<char>,
)
    ensures
        value_of(a + b, key) == if value_of(a, key) is Some {
            value_of(a, key)
        } else {
            value_of(b, key)
        },
        a.len() == 1 ==> value_of(a, key) == if a[0].0@ == key {
            Some(a[0].1@)
        } else {
            None
        },
        a.len() == 0 ==> value_of(a, key) is None,
    decreases a.len(),
{
    reveal_with_fuel(value_of, 2);
    if a.len() == 0 {
        assert(a + b =~= b);
    } else {
        law_the_first_variable_counts(a.drop_first(), b, key);
        assert((a + b).drop_first() =~= a.drop_first() + b);
    }
}

/// Of a secret value just its last four bytes are shown, behind four stars; of a shorter one all
/// of them; any other value is shown as it is.
pub proof fn law_secrets_are_hidden_but_for_their_end(hidden: Seq<char>, end: Seq<char>)
    ensures
        text::byte_len(end) == 4 ==> can_be_hidden(hidden + end) && shown_value(true, hidden + end)
            == "****"@ + end,
        text::byte_len(end) <= 4 ==> can_be_hidden(end) && shown_value(true, end) == "****"@ + end,
        shown_value(false, end) == end,
{
    text::lemma_encode_concat(hidden, end);
    let none = Seq::<char>::empty();
    text::law_slices_are_parts(hidden, end, none);
    text::law_slices_are_parts(none, end, none);
    assert(hidden + end + none =~= hidden + end);
    assert(none + end + none =~= end);
    assert(text::byte_len(none) == 0);
}

/// The log gives every variable that is read with its value, but for the address of the database,
/// of which only the end is shown; one that is not set is said not to be there.
pub proof fn law_only_the_database_address_is_hidden(key: Seq<char>, value: Seq<char>)
    ensures
        key != "DATABASE_URL"@ ==> log_line(key, Some(value)) == "env var "@ + key + ": "@ + value,
        log_line("DATABASE_URL"@, Some(value)) == "env var "@ + "DATABASE_URL"@ + ": "@
            + shown_value(true, value),
        log_line(key, None) == "env var "@ + key + " requested but not found"@,
{
}

/// Just three words stand for yes and three for no.
pub proof fn law_truth_values_are_read(word: Seq<char>)
    ensures
        truth_value(word) == Some(true) <==> word == "true"@ || word == "t"@ || word == "1"@,
        truth_value(word) == Some(false) <==> word == "false"@ || word == "f"@ || word == "0"@,
{
    reveal_strlit("true");
    reveal_strlit("t");
    reveal_strlit("1");
    reveal_strlit("false");
    reveal_strlit("f");
    reveal_strlit("0");
    assert("true"@.len() == 4);
    assert("false"@.len() == 5);
    assert("t"@[0] == 't' && "t"@.len() == 1);
    assert("1"@[0] == '1' && "1"@.len() == 1);
    assert("f"@[0] == 'f' && "f"@.len() == 1);
    assert("0"@[0] == '0' && "0"@.len() == 1);
}

/// A variable is a flag that is on just where it is set to one of the words for yes, whatever the
/// case of their letters; where it is set to no word for either, it is none.
pub proof fn law_flags_are_read(v: Seq<char>)
    ensures
        flag(None) is None && is_flag(None) && !flag_or_off(None),
        is_flag(Some(v)) <==> truth_value(text::lowercase(v)) is Some,
        is_flag(Some(v)) ==> flag(Some(v)) == truth_value(text::lowercase(v)),
        flag_or_off(Some(v)) <==> text::lowercase(v) == "true"@ || text::lowercase(v) == "t"@
            || text::lowercase(v) == "1"@,
{
    law_truth_values_are_read(text::lowercase(v));
}

/// What the program is told is what the environment says: each setting comes from the variable of
/// its own.
pub proof fn law_settings_come_from_their_variables(config: EnvConfig, environment: Environment)
    requires
        is_config_of(config, environment),
    ensures
        value_of(environment.vars(), "DATABASE_URL"@) == Some(config.database_url@),
        config.log_json <==> flag(value_of(environment.vars(), "LOG_JSON"@)) == Some(true),
        config.log_perf <==> flag(value_of(environment.vars(), "LOG_PERF"@)) == Some(true),
{
}

/// An environment can be used just where the address of the database is set and both flags are
/// ones or not set; where it cannot be, the first of these that fails is told.
pub proof fn law_what_is_wrong_is_told(environment: Environment)
    ensures
        is_complete(environment) <==> {
            &&& value_of(environment.vars(), "DATABASE_URL"@) is Some
            &&& is_flag(value_of(environment.vars(), "LOG_JSON"@))
            &&& is_flag(value_of(environment.vars(), "LOG_PERF"@))
        },
        !is_complete(environment) ==> config_error(environment) == if value_of(
            environment.vars(),
            "DATABASE_URL"@,
        ) is None {
            "DATABASE_URL is required"@
        } else if !is_flag(value_of(environment.vars(), "LOG_JSON"@)) {
            "invalid bool value "@ + text::lowercase(
                value_of(environment.vars(), "LOG_JSON"@)->0,
            ) + " for "@ + "LOG_JSON"@
        } else {
            "invalid bool value "@ + text::lowercase(
                value_of(environment.vars(), "LOG_PERF"@)->0,
            ) + " for "@ + "LOG_PERF"@
        },
{
}

/// A name is on a list just where it is one of the names there; the value of a variable is the one
/// that counts among those that are set.
pub proof fn law_names_are_looked_up(list: Seq<&str>, key: Seq<char>, environment: Environment)
    ensures
        is_listed(list, key) <==> exists|i: int| 0 <= i < list.len() && (#[trigger] list[i])@ == key,
        environment.value(key) == value_of(environment.vars(), key),
{
}

} // verus!
