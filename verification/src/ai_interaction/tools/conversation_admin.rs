//! The tool for administrative actions on the conversation.

use super::function_tool;
use crate::json;
use crate::json::{
    error_reply, find_entry, parse_strings, put_text, reply_members, status_reply, write_members,
};
use crate::openai_api::types;
use crate::openai_api::types::{
    ToolDefinition, ToolFunctionParameterPropertyBuilder, ToolProperties,
};
use crate::text::same_text;
use vstd::prelude::*;

verus! {

pub const CONVERSATION_ADMIN_TOOL_NAME: &'static str = "conversation_admin_tool";

pub const RESET_CONVERSATION_COMMAND_NAME: &'static str = "reset_conversation";

pub const SET_OPENAI_MODEL_COMMAND_NAME: &'static str = "set_openai_model";

pub const ADMIN_CODE_PARAM_NAME: &'static str = "admin_code";

pub const MODEL_ID_PARAM_NAME: &'static str = "model_id";

pub const GPT_5_MODEL_ID: &'static str = "gpt-5";

pub const GPT_5_MINI_MODEL_ID: &'static str = "gpt-5-mini";

/// The tool: a command, the admin code, and a model where the command takes one.
pub open spec fn tool_view() -> types::ToolView {
    super::tool_with(
        "conversation_admin_tool"@,
        "performs administrative actions on the conversation. can reset the conversation or set the openai model. requires a valid admin_code."@,
        types::with_property(
            types::with_property(
                types::with_property(
                    seq![],
                    (
                        "command"@,
                        super::choice(
                            "the command to execute. can be 'reset_conversation' or 'set_openai_model'."@,
                            seq!["reset_conversation"@, "set_openai_model"@],
                        ),
                    ),
                ),
                (
                    "admin_code"@,
                    super::described(
                        "string"@,
                        "the secret 4-character alphanumeric code required to authorize the command."@,
                    ),
                ),
            ),
            (
                "model_id"@,
                super::choice(
                    "the identifier of the openai model to use. required if command is 'set_openai_model'."@,
                    seq!["gpt-5"@, "gpt-5-mini"@],
                ),
            ),
        ),
    )
}

/// The tool: a command, the admin code, and a model where the command takes one.
pub fn conversation_admin_tool() -> (r: ToolDefinition)
    ensures
        r@ == tool_view(),
{
    let commands = [RESET_CONVERSATION_COMMAND_NAME, SET_OPENAI_MODEL_COMMAND_NAME];
    let models = [GPT_5_MODEL_ID, GPT_5_MINI_MODEL_ID];
    let command = ToolFunctionParameterPropertyBuilder::new_string().description(
        "the command to execute. can be 'reset_conversation' or 'set_openai_model'.",
    ).enum_string(&commands).build();
    let code = ToolFunctionParameterPropertyBuilder::new_string().description(
        "the secret 4-character alphanumeric code required to authorize the command.",
    ).build();
    let model = ToolFunctionParameterPropertyBuilder::new_string().description(
        "the identifier of the openai model to use. required if command is 'set_openai_model'.",
    ).enum_string(&models).build();
    proof {
        assert(types::slice_texts(commands@) =~= seq!["reset_conversation"@, "set_openai_model"@]);
        assert(types::slice_texts(models@) =~= seq!["gpt-5"@, "gpt-5-mini"@]);
    }
    let properties = ToolProperties::new().insert("command", command).insert(
        ADMIN_CODE_PARAM_NAME,
        code,
    ).insert(MODEL_ID_PARAM_NAME, model);
    function_tool(
        CONVERSATION_ADMIN_TOOL_NAME,
        "performs administrative actions on the conversation. can reset the conversation or set the openai model. requires a valid admin_code.",
        properties,
    )
}

/// The code that authorizes commands: the configured one, else a default.
pub fn expected_admin_code<'a>(configured: Option<&'a str>) -> (r: &'a str)
    ensures
        r@ == match configured {
            Some(code) => code@,
            None => "vatu"@,
        },
{
    match configured {
        Some(code) => code,
        None => "vatu",
    }
}

/// The reply that starts a new conversation.
pub open spec fn reset_json() -> json::Json {
    json::Json::Object(
        json::status_members(
            "success"@,
            "conversation reset has been initiated. the next message will start a new conversation."@,
        ).insert("action"@, json::Json::Text("reset_conversation"@)),
    )
}

/// The reply that changes the model.
pub open spec fn model_set_json(model: Seq<char>) -> json::Json {
    json::Json::Object(
        json::status_members(
            "success"@,
            "openai model for future responses set to '"@ + model + "'."@,
        ).insert("action"@, json::Json::Text("model_updated"@)).insert(
            "new_model_id"@,
            json::Json::Text(model),
        ),
    )
}

/// Whether a model may be set.
pub open spec fn is_allowed_model(model: Seq<char>) -> bool {
    model == "gpt-5"@ || model == "gpt-5-mini"@
}

/// The reply to the command that sets the model.
pub open spec fn set_model_json(model: Option<Seq<char>>) -> json::Json {
    match model {
        Some(id) => if is_allowed_model(id) {
            model_set_json(id)
        } else {
            json::error_json(
                "invalid_parameter_value"@,
                "invalid 'model_id': '"@ + id
                    + "' for command 'set_openai_model'. allowed values are: [\"gpt-5\", \"gpt-5-mini\"]"@,
            )
        },
        None => json::error_json(
            "missing_required_argument_for_command"@,
            "missing required argument: 'model_id' for command 'set_openai_model'"@,
        ),
    }
}

/// The reply to a command that is authorized.
pub open spec fn authorized_json(
    command: Option<Seq<char>>,
    model: Option<Seq<char>>,
) -> json::Json {
    match command {
        Some(name) => if name == "reset_conversation"@ {
            reset_json()
        } else if name == "set_openai_model"@ {
            set_model_json(model)
        } else {
            json::status_json(
                "error"@,
                "invalid command '"@ + name
                    + "' specified. supported commands are: 'reset_conversation', 'set_openai_model'."@,
            )
        },
        None => json::error_json(
            "missing required argument: 'command'"@,
            "expected json with at least a 'command' key and a 'admin_code' key."@,
        ),
    }
}

/// The reply to a command with a code, where `expected` is the code that authorizes.
pub open spec fn admin_command_json(
    command: Option<Seq<char>>,
    code: Option<Seq<char>>,
    model: Option<Seq<char>>,
    expected: Seq<char>,
) -> json::Json {
    match code {
        Some(given) => if given == expected {
            authorized_json(command, model)
        } else {
            json::status_json("error"@, "invalid admin_code provided."@)
        },
        None => json::error_json(
            "missing required argument: 'admin_code'"@,
            "expected json with at least 'command' and 'admin_code' keys."@,
        ),
    }
}

/// The reply to the arguments of a call.
pub open spec fn admin_reply_json(
    arguments: Result<Map<Seq<char>, Seq<char>>, Seq<char>>,
    expected: Seq<char>,
) -> json::Json {
    match arguments {
        Ok(strings) => admin_command_json(
            json::map_entry(strings, "command"@),
            json::map_entry(strings, "admin_code"@),
            json::map_entry(strings, "model_id"@),
            expected,
        ),
        Err(error) => json::error_json("failed to parse tool arguments as json."@, error),
    }
}

fn set_model(model: Option<&String>) -> (r: String)
    ensures
        json::writes(
            r@,
            set_model_json(
                match model {
                    Some(s) => Some(s@),
                    None => None,
                },
            ),
        ),
{
    match model {
        Some(id) => if same_text(id.as_str(), GPT_5_MODEL_ID) || same_text(
            id.as_str(),
            GPT_5_MINI_MODEL_ID,
        ) {
            let mut message = "openai model for future responses set to '".to_owned();
            message.append(id.as_str());
            message.append("'.");
            let mut members = reply_members("success", message.as_str());
            put_text(&mut members, "action", "model_updated");
            put_text(&mut members, "new_model_id", id.as_str());
            write_members(members)
        } else {
            let mut details = "invalid 'model_id': '".to_owned();
            details.append(id.as_str());
            details.append(
                "' for command 'set_openai_model'. allowed values are: [\"gpt-5\", \"gpt-5-mini\"]",
            );
            error_reply("invalid_parameter_value", details.as_str())
        },
        None => error_reply(
            "missing_required_argument_for_command",
            "missing required argument: 'model_id' for command 'set_openai_model'",
        ),
    }
}

/// Runs a command, if the code authorizes it.
pub fn run_admin_command(
    command: Option<&String>,
    code: Option<&String>,
    model: Option<&String>,
    expected: &str,
) -> (r: String)
    ensures
        json::writes(
            r@,
            admin_command_json(
                match command {
                    Some(s) => Some(s@),
                    None => None,
                },
                match code {
                    Some(s) => Some(s@),
                    None => None,
                },
                match model {
                    Some(s) => Some(s@),
                    None => None,
                },
                expected@,
            ),
        ),
{
    match code {
        Some(given) => {
            if !same_text(given.as_str(), expected) {
                return status_reply("error", "invalid admin_code provided.");
            }
        },
        None => {
            return error_reply(
                "missing required argument: 'admin_code'",
                "expected json with at least 'command' and 'admin_code' keys.",
            );
        },
    }
    match command {
        Some(name) => if same_text(name.as_str(), RESET_CONVERSATION_COMMAND_NAME) {
            let mut members = reply_members(
                "success",
                "conversation reset has been initiated. the next message will start a new conversation.",
            );
            put_text(&mut members, "action", "reset_conversation");
            write_members(members)
        } else if same_text(name.as_str(), SET_OPENAI_MODEL_COMMAND_NAME) {
            set_model(model)
        } else {
            let mut message = "invalid command '".to_owned();
            message.append(name.as_str());
            message.append(
                "' specified. supported commands are: 'reset_conversation', 'set_openai_model'.",
            );
            status_reply("error", message.as_str())
        },
        None => error_reply(
            "missing required argument: 'command'",
            "expected json with at least a 'command' key and a 'admin_code' key.",
        ),
    }
}

/// Runs the tool on the arguments of a call, where `expected` is the code that authorizes.
pub fn execute_conversation_admin_command(arguments_json_str: &str, expected: &str) -> (r: String)
    ensures
        json::writes(
            r@,
            admin_reply_json(json::parsed_strings(arguments_json_str@), expected@),
        ),
{
    match parse_strings(arguments_json_str) {
        Ok(entries) => {
            let command = find_entry(&entries, "command");
            let code = find_entry(&entries, ADMIN_CODE_PARAM_NAME);
            let model = find_entry(&entries, MODEL_ID_PARAM_NAME);
            proof {
                let strings = json::parsed_strings(arguments_json_str@)->Ok_0;
                let a = json::map_entry(strings, "command"@);
                let b = json::map_entry(strings, "admin_code"@);
                let c = json::map_entry(strings, "model_id"@);
            }
            run_admin_command(command, code, model, expected)
        },
        Err(error) => error_reply("failed to parse tool arguments as json.", error.as_str()),
    }
}

proof fn lemma_member_names()
    ensures
        "status"@ != "action"@,
        "message"@ != "action"@,
        "details"@ != "action"@,
        "new_model_id"@ != "action"@,
        "success"@ != "error"@,
        "status"@ != "message"@,
        "status"@ != "details"@,
{
    reveal_strlit("status");
    reveal_strlit("action");
    reveal_strlit("message");
    reveal_strlit("details");
    reveal_strlit("new_model_id");
    reveal_strlit("success");
    reveal_strlit("error");
    assert("status"@[0] == 's');
    assert("action"@[0] == 'a');
    assert("message"@[0] == 'm');
    assert("details"@[0] == 'd');
    assert("success"@.len() == 7);
    assert("error"@.len() == 5);
}

/// Without the right code nothing happens: the reply is an error and asks for no action, whatever
/// the command.
pub proof fn law_commands_need_the_code(
    command: Option<Seq<char>>,
    code: Option<Seq<char>>,
    model: Option<Seq<char>>,
    expected: Seq<char>,
)
    requires
        code != Some(expected),
    ensures
        json::text_member(admin_command_json(command, code, model, expected), "action"@) is None,
        json::text_member(admin_command_json(command, code, model, expected), "status"@) == Some(
            "error"@,
        ),
{
    lemma_member_names();
}

/// The only models that a command ever asks to change to are the allowed ones.
pub proof fn law_only_allowed_models_are_set(
    command: Option<Seq<char>>,
    code: Option<Seq<char>>,
    model: Option<Seq<char>>,
    expected: Seq<char>,
)
    ensures
        json::text_member(
            admin_command_json(command, code, model, expected),
            "new_model_id"@,
        ) matches Some(id) ==> is_allowed_model(id) && model == Some(id),
{
    lemma_member_names();
    reveal_strlit("new_model_id");
    reveal_strlit("status");
    reveal_strlit("message");
    reveal_strlit("details");
    reveal_strlit("action");
    assert("new_model_id"@.len() == 12);
}

proof fn lemma_command_names()
    ensures
        "reset_conversation"@ != "set_openai_model"@,
        "new_model_id"@ != "status"@,
        "new_model_id"@ != "message"@,
        "new_model_id"@ != "action"@,
        "message"@ != "details"@,
{
    reveal_strlit("reset_conversation");
    reveal_strlit("set_openai_model");
    reveal_strlit("new_model_id");
    reveal_strlit("status");
    reveal_strlit("message");
    reveal_strlit("action");
    reveal_strlit("details");
    assert("reset_conversation"@[0] == 'r');
    assert("set_openai_model"@[0] == 's');
    assert("new_model_id"@.len() == 12);
    assert("message"@[0] == 'm');
    assert("details"@[0] == 'd');
}

/// Just two models may be set.
pub proof fn law_two_models_are_allowed(model: Seq<char>)
    ensures
        is_allowed_model(model) <==> model == "gpt-5"@ || model == "gpt-5-mini"@,
{
}

/// With the right code, the command that resets the conversation is replied to with a success that
/// asks for the reset.
pub proof fn law_resets_are_asked_for(code: Seq<char>, model: Option<Seq<char>>)
    ensures
        ({
            let reply = admin_command_json(Some("reset_conversation"@), Some(code), model, code);
            &&& json::text_member(reply, "status"@) == Some("success"@)
            &&& json::text_member(reply, "action"@) == Some("reset_conversation"@)
            &&& json::member(reply, "new_model_id"@) is None
            &&& json::text_member(reply, "message"@) == Some(
                "conversation reset has been initiated. the next message will start a new conversation."@,
            )
        }),
{
    lemma_member_names();
    lemma_command_names();
}

/// With the right code, the command that sets the model is replied to with a success that asks for
/// the change to that model, where it is allowed, and with an error that asks for nothing where it
/// is not, or where none is given.
pub proof fn law_models_are_asked_for(code: Seq<char>, model: Option<Seq<char>>)
    ensures
        ({
            let reply = admin_command_json(Some("set_openai_model"@), Some(code), model, code);
            if model == Some("gpt-5"@) || model == Some("gpt-5-mini"@) {
                &&& json::text_member(reply, "status"@) == Some("success"@)
                &&& json::text_member(reply, "action"@) == Some("model_updated"@)
                &&& json::text_member(reply, "new_model_id"@) == model
                &&& json::text_member(reply, "message"@) == Some(
                    "openai model for future responses set to '"@ + model->0 + "'."@,
                )
            } else {
                &&& json::text_member(reply, "status"@) == Some("error"@)
                &&& json::member(reply, "action"@) is None
                &&& json::text_member(reply, "message"@) == Some(
                    if model is Some {
                        "invalid_parameter_value"@
                    } else {
                        "missing_required_argument_for_command"@
                    },
                )
                &&& json::text_member(reply, "details"@) == Some(
                    match model {
                        Some(id) => "invalid 'model_id': '"@ + id
                            + "' for command 'set_openai_model'. allowed values are: [\"gpt-5\", \"gpt-5-mini\"]"@,
                        None => "missing required argument: 'model_id' for command 'set_openai_model'"@,
                    },
                )
            }
        }),
{
    lemma_member_names();
    lemma_command_names();
}

/// Any other command asks for nothing, even with the right code: it is told to be none, or to be
/// missing.
pub proof fn law_other_commands_ask_for_nothing(
    code: Seq<char>,
    command: Seq<char>,
    model: Option<Seq<char>>,
)
    requires
        command != "reset_conversation"@,
        command != "set_openai_model"@,
    ensures
        ({
            let reply = admin_command_json(Some(command), Some(code), model, code);
            let nothing = admin_command_json(None, Some(code), model, code);
            &&& json::text_member(reply, "status"@) == Some("error"@)
            &&& json::member(reply, "action"@) is None
            &&& json::text_member(reply, "message"@) == Some(
                "invalid command '"@ + command
                    + "' specified. supported commands are: 'reset_conversation', 'set_openai_model'."@,
            )
            &&& json::text_member(nothing, "status"@) == Some("error"@)
            &&& json::member(nothing, "action"@) is None
        }),
{
    lemma_member_names();
    lemma_command_names();
}

/// The command, the code and the model are those that the arguments give under these names.
pub proof fn law_arguments_are_read_by_name(
    strings: Map<Seq<char>, Seq<char>>,
    expected: Seq<char>,
    error: Seq<char>,
)
    ensures
        admin_reply_json(Ok(strings), expected) == admin_command_json(
            json::map_entry(strings, "command"@),
            json::map_entry(strings, "admin_code"@),
            json::map_entry(strings, "model_id"@),
            expected,
        ),
        json::text_member(admin_reply_json(Err(error), expected), "status"@) == Some("error"@),
        json::text_member(admin_reply_json(Err(error), expected), "details"@) == Some(error),
{
    lemma_member_names();
    lemma_command_names();
}

/// Where the code is missing or wrong, the reply says which.
pub proof fn law_wrong_codes_are_told(
    command: Option<Seq<char>>,
    code: Seq<char>,
    model: Option<Seq<char>>,
    expected: Seq<char>,
)
    ensures
        code != expected ==> json::text_member(
            admin_command_json(command, Some(code), model, expected),
            "message"@,
        ) == Some("invalid admin_code provided."@),
        json::text_member(admin_command_json(command, None, model, expected), "message"@) == Some(
            "missing required argument: 'admin_code'"@,
        ),
        json::text_member(admin_command_json(None, Some(expected), model, expected), "message"@)
            == Some("missing required argument: 'command'"@),
{
    lemma_member_names();
    lemma_command_names();
}

/// The code that is asked for is the one that was configured, and only without one the default.
pub proof fn law_the_configured_code_is_asked_for(code: &str, set: &str, unset: &str)
    requires
        call_ensures(expected_admin_code, (Some(code),), set),
        call_ensures(expected_admin_code, (None,), unset),
    ensures
        set@ == code@,
        unset@ == "vatu"@,
{
}

} // verus!
