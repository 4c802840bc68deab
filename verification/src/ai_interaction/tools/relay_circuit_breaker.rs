//! The tool that switches the circuit breakers of the relay.

use super::function_tool;
use crate::http_status;
use crate::http_status::{canonical_reason, is_success, write_status};
use crate::json;
use crate::json::{
    as_bool, as_str, error_reply, find_entry, parse_members, put_text, reply_members, write_members,
};
use crate::openai_api::types;
use crate::openai_api::types::{
    ToolDefinition, ToolFunctionParameterPropertyBuilder, ToolProperties,
};
use crate::text;
use crate::text::{join_texts, same_text, starts_with};
use vstd::prelude::*;

verus! {

pub const RELAY_CIRCUIT_BREAKER_TOOL_NAME: &'static str = "relay_circuit_breaker";

pub const SET_ADJUSTMENT_CIRCUIT_BREAKER_COMMAND: &'static str = "set_adjustment_circuit_breaker";

pub const SET_AUCTION_CIRCUIT_BREAKER_COMMAND: &'static str = "set_auction_circuit_breaker";

pub const COMMAND_PARAM: &'static str = "command";

pub const ENABLED_PARAM: &'static str = "enabled";

pub const ADJUSTMENT_CIRCUIT_BREAKER_PATH: &'static str = "adjustment_circuit_breaker";

pub const AUCTION_CIRCUIT_BREAKER_PATH: &'static str = "auction_circuit_breaker";

/// The tool: which breaker, and whether it is to be on.
pub open spec fn tool_view() -> types::ToolView {
    super::tool_with(
        "relay_circuit_breaker"@,
        "sets the state (enabled/disabled) of a specific relay circuit breaker (adjustment or auction). requires admin privileges."@,
        types::with_property(
            types::with_property(
                seq![],
                (
                    "command"@,
                    super::choice(
                        "the specific circuit breaker to control: 'set_adjustment_circuit_breaker' or 'set_auction_circuit_breaker'."@,
                        seq!["set_adjustment_circuit_breaker"@, "set_auction_circuit_breaker"@],
                    ),
                ),
            ),
            (
                "enabled"@,
                super::described(
                    "boolean"@,
                    "the desired state for the circuit breaker. set to true to enable (activate/close) the circuit breaker (stopping operations), or false to disable (deactivate/open) it (resuming operations)."@,
                ),
            ),
        ),
    )
}

/// The tool: which breaker, and whether it is to be on.
pub fn relay_circuit_breaker_tool() -> (r: ToolDefinition)
    ensures
        r@ == tool_view(),
{
    let commands = [SET_ADJUSTMENT_CIRCUIT_BREAKER_COMMAND, SET_AUCTION_CIRCUIT_BREAKER_COMMAND];
    let command = ToolFunctionParameterPropertyBuilder::new_string().description(
        "the specific circuit breaker to control: 'set_adjustment_circuit_breaker' or 'set_auction_circuit_breaker'.",
    ).enum_string(&commands).build();
    let enabled = ToolFunctionParameterPropertyBuilder::new_boolean().description(
        "the desired state for the circuit breaker. set to true to enable (activate/close) the circuit breaker (stopping operations), or false to disable (deactivate/open) it (resuming operations).",
    ).build();
    proof {
        assert(types::slice_texts(commands@) =~= seq![
            "set_adjustment_circuit_breaker"@,
            "set_auction_circuit_breaker"@,
        ]);
    }
    function_tool(
        RELAY_CIRCUIT_BREAKER_TOOL_NAME,
        "sets the state (enabled/disabled) of a specific relay circuit breaker (adjustment or auction). requires admin privileges.",
        ToolProperties::new().insert(COMMAND_PARAM, command).insert(ENABLED_PARAM, enabled),
    )
}

/// Where the relay is and what it asks for.
#[derive(Debug)]
pub struct RelayCircuitBreaker {
    admin_token: String,
    base_url: String,
}

/// A truth value as it is written.
pub open spec fn flag_text(flag: bool) -> Seq<char> {
    if flag {
        "true"@
    } else {
        "false"@
    }
}

/// A truth value as it is written.
pub fn write_flag(flag: bool) -> (r: &'static str)
    ensures
        r@ == flag_text(flag),
{
    if flag {
        "true"
    } else {
        "false"
    }
}

impl RelayCircuitBreaker {
    /// The token that the relay asks for.
    pub closed spec fn token(self) -> Seq<char> {
        self.admin_token@
    }

    /// Where the relay is.
    pub closed spec fn base(self) -> Seq<char> {
        self.base_url@
    }

    /// A relay.
    pub fn new(admin_token: String, base_url: String) -> (r: Self)
        ensures
            r.token() == admin_token@,
            r.base() == base_url@,
    {
        RelayCircuitBreaker { admin_token, base_url }
    }

    /// The address that sets a breaker.
    pub fn state_url(&self, relative_path: &str, enabled: bool) -> (r: String)
        ensures
            r@ == self.base() + "/ultrasound/v1/admin/"@ + relative_path@ + "?token="@
                + self.token() + "&enable="@ + flag_text(enabled),
    {
        let mut out = self.base_url.clone();
        out.append("/ultrasound/v1/admin/");
        out.append(relative_path);
        out.append("?token=");
        out.append(self.admin_token.as_str());
        out.append("&enable=");
        out.append(write_flag(enabled));
        out
    }
}

/// What the relay's answer comes to, from its status and that status's phrase, and its body where
/// it could be read.
pub open spec fn state_json(
    relative_path: Seq<char>,
    enabled: bool,
    status: u16,
    reason: Option<Seq<char>>,
    body: Option<Seq<char>>,
) -> json::Json {
    if http_status::success(status) {
        json::Json::Object(
            json::detailed_members(
                "success"@,
                "circuit breaker '"@ + relative_path + "' state set to "@ + flag_text(enabled)
                    + "."@,
                match body {
                    Some(b) => b,
                    None => "no response body"@,
                },
            ),
        )
    } else {
        json::error_json(
            "failed to set circuit breaker '"@ + relative_path
                + "' state. relay responded with status "@ + http_status::status_line(
                status,
                reason,
            ) + "."@,
            match body {
                Some(b) => b,
                None => "failed to get error body"@,
            },
        )
    }
}

/// Judges the relay's answer, given the phrase of its status.
pub fn read_state_answer(
    relative_path: &str,
    enabled: bool,
    status: u16,
    reason: &Option<String>,
    body: Option<String>,
) -> (r: String)
    ensures
        json::writes(
            r@,
            state_json(
                relative_path@,
                enabled,
                status,
                text::text_view(*reason),
                text::text_view(body),
            ),
        ),
{
    if is_success(status) {
        let mut message = "circuit breaker '".to_owned();
        message.append(relative_path);
        message.append("' state set to ");
        message.append(write_flag(enabled));
        message.append(".");
        let mut members = reply_members("success", message.as_str());
        match body {
            Some(b) => put_text(&mut members, "details", b.as_str()),
            None => put_text(&mut members, "details", "no response body"),
        }
        write_members(members)
    } else {
        let line = write_status(status, reason);
        let mut message = "failed to set circuit breaker '".to_owned();
        message.append(relative_path);
        message.append("' state. relay responded with status ");
        message.append(line.as_str());
        message.append(".");
        match body {
            Some(b) => error_reply(message.as_str(), b.as_str()),
            None => error_reply(message.as_str(), "failed to get error body"),
        }
    }
}

/// The reply once the relay has answered.
pub fn set_state(
    relative_path: &str,
    enabled: bool,
    status: u16,
    body: Option<String>,
) -> (r: String)
    ensures
        json::writes(
            r@,
            state_json(
                relative_path@,
                enabled,
                status,
                http_status::status_reason(status),
                text::text_view(body),
            ),
        ),
{
    let reason = canonical_reason(status);
    read_state_answer(relative_path, enabled, status, &reason, body)
}

/// The arguments of a call.
#[derive(Debug)]
pub struct ParsedArgs {
    pub command: String,
    pub enabled: bool,
}

/// The arguments of a call as texts, or what is wrong with them.
pub open spec fn args_view(parsed: Result<ParsedArgs, String>) -> Result<
    (Seq<char>, bool),
    Seq<char>,
> {
    match parsed {
        Ok(args) => Ok((args.command@, args.enabled)),
        Err(message) => Err(message@),
    }
}

/// What is said of the arguments that are missing or of the wrong type.
pub open spec fn wrong_args(command_ok: bool, enabled_ok: bool) -> Seq<Seq<char>> {
    (if command_ok {
        seq![]
    } else {
        seq!["'command' (must be a string)"@]
    }) + (if enabled_ok {
        seq![]
    } else {
        seq!["'enabled' (must be a boolean)"@]
    })
}

/// The command and the state that the members of a call give, or what is wrong with them.
pub open spec fn breaker_args(
    command: Option<json::Json>,
    enabled: Option<json::Json>,
) -> Result<(Seq<char>, bool), Seq<char>> {
    match (command, enabled) {
        (Some(json::Json::Text(name)), Some(json::Json::Bool(flag))) => Ok((name, flag)),
        _ => Err(
            "missing or invalid argument(s): "@ + text::join(
                wrong_args(
                    command matches Some(c) && c is Text,
                    enabled matches Some(e) && e is Bool,
                ),
                ", "@,
            ) + ". expected a 'command' (string) and an 'enabled' (boolean)."@,
        ),
    }
}

/// What an optional value holds.
pub open spec fn value_view(value: Option<&serde_json::Value>) -> Option<json::Json> {
    match value {
        Some(v) => Some(json::json_of(*v)),
        None => None,
    }
}

/// Reads the command and the state from the members of a call.
pub fn read_breaker_args(
    command: Option<&serde_json::Value>,
    enabled: Option<&serde_json::Value>,
) -> (r: Result<ParsedArgs, String>)
    ensures
        args_view(r) == breaker_args(value_view(command), value_view(enabled)),
{
    let name = match command {
        Some(value) => as_str(value),
        None => None,
    };
    let flag = match enabled {
        Some(value) => as_bool(value),
        None => None,
    };
    match (name, flag) {
        (Some(n), Some(f)) => Ok(ParsedArgs { command: n.to_owned(), enabled: f }),
        _ => {
            let mut wrong: Vec<String> = Vec::new();
            if name.is_none() {
                wrong.push("'command' (must be a string)".to_owned());
            }
            if flag.is_none() {
                wrong.push("'enabled' (must be a boolean)".to_owned());
            }
            proof {
                assert(text::texts(wrong@) =~= wrong_args(name is Some, flag is Some));
            }
            let mut message = "missing or invalid argument(s): ".to_owned();
            message.append(join_texts(&wrong, ", ").as_str());
            message.append(". expected a 'command' (string) and an 'enabled' (boolean).");
            Err(message)
        },
    }
}

/// The command and the state that arguments give, or what is wrong with them.
pub open spec fn breaker_arguments(
    arguments: Result<Map<Seq<char>, json::Json>, Seq<char>>,
) -> Result<(Seq<char>, bool), Seq<char>> {
    match arguments {
        Ok(members) => breaker_args(
            json::map_entry(members, "command"@),
            json::map_entry(members, "enabled"@),
        ),
        Err(error) => Err(
            "failed to parse arguments json for relay_circuit_breaker_tool: "@ + error,
        ),
    }
}

/// Reads the arguments of a call.
pub fn parse_circuit_breaker_args(arguments_json_str: &str) -> (r: Result<ParsedArgs, String>)
    ensures
        args_view(r) == breaker_arguments(json::parsed_members(arguments_json_str@)),
{
    match parse_members(arguments_json_str) {
        Ok(entries) => {
            let command = find_entry(&entries, COMMAND_PARAM);
            let enabled = find_entry(&entries, ENABLED_PARAM);
            proof {
                let members = json::parsed_members(arguments_json_str@)->Ok_0;
                assert(json::map_entry(members, "command"@) == value_view(command));
                assert(json::map_entry(members, "enabled"@) == value_view(enabled));
            }
            read_breaker_args(command, enabled)
        },
        Err(error) => {
            let mut message =
                "failed to parse arguments json for relay_circuit_breaker_tool: ".to_owned();
            message.append(error.as_str());
            Err(message)
        },
    }
}

/// What the tool does next: set a breaker for a command, or reply.
pub enum BreakerStep {
    Switch { relative_path: &'static str, enabled: bool, command: String },
    Reply(String),
}

/// The path of the breaker that a command sets.
pub open spec fn breaker_path(command: Seq<char>) -> Option<Seq<char>> {
    if command == "set_adjustment_circuit_breaker"@ {
        Some("adjustment_circuit_breaker"@)
    } else if command == "set_auction_circuit_breaker"@ {
        Some("auction_circuit_breaker"@)
    } else {
        None
    }
}

/// The reply to arguments that cannot be used.
pub open spec fn bad_breaker_json(problem: Seq<char>) -> json::Json {
    json::error_json(
        if text::has_prefix(problem, "failed to parse arguments json"@) {
            "argument_parsing_error"@
        } else {
            "invalid_argument"@
        },
        problem,
    )
}

/// Starts the tool: a known command sets its breaker as asked; anything else is replied to at
/// once.
pub fn execute_relay_circuit_breaker_tool(arguments_json_str: &str) -> (r: BreakerStep)
    ensures
        match breaker_arguments(json::parsed_members(arguments_json_str@)) {
            Ok((command, enabled)) => match breaker_path(command) {
                Some(path) => r matches BreakerStep::Switch {
                    relative_path,
                    enabled: e,
                    command: c,
                } && relative_path@ == path && e == enabled && c@ == command,
                None => r matches BreakerStep::Reply(reply) && json::writes(
                    reply@,
                    json::error_json(
                        "invalid_argument"@,
                        "invalid command '"@ + command + "' specified."@,
                    ),
                ),
            },
            Err(problem) => r matches BreakerStep::Reply(reply) && json::writes(
                reply@,
                bad_breaker_json(problem),
            ),
        },
{
    match parse_circuit_breaker_args(arguments_json_str) {
        Ok(args) => if same_text(args.command.as_str(), SET_ADJUSTMENT_CIRCUIT_BREAKER_COMMAND) {
            BreakerStep::Switch {
                relative_path: ADJUSTMENT_CIRCUIT_BREAKER_PATH,
                enabled: args.enabled,
                command: args.command,
            }
        } else if same_text(args.command.as_str(), SET_AUCTION_CIRCUIT_BREAKER_COMMAND) {
            BreakerStep::Switch {
                relative_path: AUCTION_CIRCUIT_BREAKER_PATH,
                enabled: args.enabled,
                command: args.command,
            }
        } else {
            let mut details = "invalid command '".to_owned();
            details.append(args.command.as_str());
            details.append("' specified.");
            BreakerStep::Reply(error_reply("invalid_argument", details.as_str()))
        },
        Err(problem) => {
            let key = if starts_with(problem.as_str(), "failed to parse arguments json") {
                "argument_parsing_error"
            } else {
                "invalid_argument"
            };
            BreakerStep::Reply(error_reply(key, problem.as_str()))
        },
    }
}

/// The reply where the relay could not be reached.
pub fn request_failed_reply(command: &str, relative_path: &str) -> (r: String)
    ensures
        json::writes(
            r@,
            json::error_json(
                "http_request_failed"@,
                "error setting circuit breaker for "@ + command@ + ": http request failed for "@
                    + relative_path@,
            ),
        ),
{
    let mut details = "error setting circuit breaker for ".to_owned();
    details.append(command);
    details.append(": http request failed for ");
    details.append(relative_path);
    error_reply("http_request_failed", details.as_str())
}

// ---------------------------------------------------------------------------------------------
// Laws

proof fn lemma_names()
    ensures
        "set_adjustment_circuit_breaker"@ != "set_auction_circuit_breaker"@,
        "adjustment_circuit_breaker"@ != "auction_circuit_breaker"@,
        "true"@ != "false"@,
        "status"@ != "message"@,
        "status"@ != "details"@,
        "message"@ != "details"@,
        "command"@ != "enabled"@,
{
    reveal_strlit("set_adjustment_circuit_breaker");
    reveal_strlit("set_auction_circuit_breaker");
    reveal_strlit("adjustment_circuit_breaker");
    reveal_strlit("auction_circuit_breaker");
    reveal_strlit("true");
    reveal_strlit("false");
    reveal_strlit("status");
    reveal_strlit("message");
    reveal_strlit("details");
    reveal_strlit("command");
    reveal_strlit("enabled");
    assert("set_adjustment_circuit_breaker"@.len() == 30);
    assert("set_auction_circuit_breaker"@.len() == 27);
    assert("adjustment_circuit_breaker"@.len() == 26);
    assert("auction_circuit_breaker"@.len() == 23);
    assert("true"@.len() == 4);
    assert("false"@.len() == 5);
    assert("status"@[0] == 's');
    assert("message"@[0] == 'm');
    assert("details"@[0] == 'd');
    assert("command"@[0] == 'c');
    assert("enabled"@[0] == 'e');
}

/// Each command sets the breaker that it names, and no other; any other command sets none.
pub proof fn law_each_command_sets_its_own_breaker(command: Seq<char>)
    ensures
        breaker_path(command) == Some("adjustment_circuit_breaker"@) <==> command
            == "set_adjustment_circuit_breaker"@,
        breaker_path(command) == Some("auction_circuit_breaker"@) <==> command
            == "set_auction_circuit_breaker"@,
        breaker_path(command) matches Some(path) ==> command == "set_"@ + path,
{
    lemma_names();
    reveal_strlit("set_");
    reveal_strlit("set_adjustment_circuit_breaker");
    reveal_strlit("set_auction_circuit_breaker");
    reveal_strlit("adjustment_circuit_breaker");
    reveal_strlit("auction_circuit_breaker");
    assert("set_adjustment_circuit_breaker"@ =~= "set_"@ + "adjustment_circuit_breaker"@);
    assert("set_auction_circuit_breaker"@ =~= "set_"@ + "auction_circuit_breaker"@);
}

/// A truth value is written as the word for it, which tells the two apart.
pub proof fn law_flags_are_written()
    ensures
        flag_text(true) == "true"@,
        flag_text(false) == "false"@,
        flag_text(true) != flag_text(false),
{
    lemma_names();
}

/// A breaker is set just where the arguments give a command that is a text and a state that is a
/// truth value, and it is set to that state. What is wrong is told otherwise: each of the two that
/// is missing or of another type, and none that is not.
pub proof fn law_the_state_is_set_as_asked(
    members: Map<Seq<char>, json::Json>,
    error: Seq<char>,
    command: Seq<char>,
    enabled: bool,
)
    ensures
        breaker_arguments(Ok(members)) == Ok::<(Seq<char>, bool), Seq<char>>((command, enabled))
            <==> json::map_entry(members, "command"@) == Some(json::Json::Text(command))
            && json::map_entry(members, "enabled"@) == Some(json::Json::Bool(enabled)),
        breaker_arguments(Err(error)) == Err::<(Seq<char>, bool), Seq<char>>(
            "failed to parse arguments json for relay_circuit_breaker_tool: "@ + error,
        ),
        breaker_arguments(Ok(members)) matches Err(problem) ==> {
            let named = json::map_entry(members, "command"@) matches Some(c) && c is Text;
            let flagged = json::map_entry(members, "enabled"@) matches Some(e) && e is Bool;
            let a = "missing or invalid argument(s): "@;
            let b = ". expected a 'command' (string) and an 'enabled' (boolean)."@;
            &&& !named && flagged ==> problem == a + "'command' (must be a string)"@ + b
            &&& named && !flagged ==> problem == a + "'enabled' (must be a boolean)"@ + b
            &&& !named && !flagged ==> problem == a + ("'command' (must be a string)"@ + ", "@
                + "'enabled' (must be a boolean)"@) + b
        },
{
    lemma_names();
    let one = wrong_args(false, true);
    let other = wrong_args(true, false);
    let both = wrong_args(false, false);
    assert(one =~= seq!["'command' (must be a string)"@]);
    assert(other =~= seq!["'enabled' (must be a boolean)"@]);
    assert(both.drop_last() =~= one);
    assert(both.last() == "'enabled' (must be a boolean)"@);
    reveal_with_fuel(text::join, 2);
}

/// The relay's answer is a success just where its status is one of success, and then the state that
/// was set is told; else it is an error with the status. Either way the body goes with it.
pub proof fn law_the_relay_decides(
    relative_path: Seq<char>,
    enabled: bool,
    status: u16,
    reason: Option<Seq<char>>,
    body: Option<Seq<char>>,
)
    ensures
        ({
            let reply = state_json(relative_path, enabled, status, reason, body);
            let state = if enabled {
                "true"@
            } else {
                "false"@
            };
            &&& body matches Some(b) ==> json::text_member(reply, "details"@) == Some(b)
            &&& if 200 <= status < 300 {
                &&& json::text_member(reply, "status"@) == Some("success"@)
                &&& json::text_member(reply, "message"@) == Some(
                    "circuit breaker '"@ + relative_path + "' state set to "@ + state + "."@,
                )
                &&& body is None ==> json::text_member(reply, "details"@) == Some(
                    "no response body"@,
                )
            } else {
                &&& json::text_member(reply, "status"@) == Some("error"@)
                &&& json::text_member(reply, "message"@) == Some(
                    "failed to set circuit breaker '"@ + relative_path
                        + "' state. relay responded with status "@ + http_status::status_line(
                        status,
                        reason,
                    ) + "."@,
                )
                &&& body is None ==> json::text_member(reply, "details"@) == Some(
                    "failed to get error body"@,
                )
            }
        }),
{
    lemma_names();
}

/// Arguments that cannot be used are replied to with an error that gives the problem, and says
/// whether they could be read at all.
pub proof fn law_unusable_arguments_are_errors(problem: Seq<char>, rest: Seq<char>)
    ensures
        json::text_member(bad_breaker_json(problem), "status"@) == Some("error"@),
        json::text_member(bad_breaker_json(problem), "details"@) == Some(problem),
        json::text_member(
            bad_breaker_json("failed to parse arguments json"@ + rest),
            "message"@,
        ) == Some("argument_parsing_error"@),
        !"failed to parse arguments json"@.is_prefix_of(problem) ==> json::text_member(
            bad_breaker_json(problem),
            "message"@,
        ) == Some("invalid_argument"@),
{
    lemma_names();
    text::law_prefix_and_suffix(rest, "failed to parse arguments json"@);
    text::law_prefix_and_suffix(problem, "failed to parse arguments json"@);
}

/// What stands for the arguments of a call, or for a value, is what they hold.
pub proof fn law_views_keep_every_part(args: ParsedArgs, error: String, value: &serde_json::Value)
    ensures
        args_view(Ok(args)) == Ok::<(Seq<char>, bool), Seq<char>>((args.command@, args.enabled)),
        args_view(Err(error)) == Err::<(Seq<char>, bool), Seq<char>>(error@),
        value_view(Some(value)) == Some(json::json_of(*value)),
        value_view(None) is None,
{
}

} // verus!
