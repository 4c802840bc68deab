//! The tool that asks a beacon node whether a slot was missed.

use super::function_tool;
use crate::http_status;
use crate::http_status::canonical_reason;
use crate::http_status::write_status;
use crate::json;
use crate::json::{as_u64, error_reply, find_entry, parse_members, status_reply};
use crate::openai_api::types;
use crate::openai_api::types::{
    ToolDefinition, ToolFunctionParameterPropertyBuilder, ToolProperties,
};
use crate::text;
use crate::text::{decimal_text, starts_with, to_ascii_lower_text};
use vstd::prelude::*;

verus! {

pub const BEACON_SLOT_CHECK_TOOL_NAME: &'static str = "check_beacon_slot_missed";

/// The tool, which takes the number of a slot.
pub open spec fn tool_view() -> types::ToolView {
    super::tool_with(
        "check_beacon_slot_missed"@,
        "checks if a specific beacon chain slot was missed by querying a beacon node. returns if the slot was missed, not missed, or if an error occurred."@,
        types::with_property(
            seq![],
            (
                "slot_number"@,
                super::described("integer"@, "the beacon chain slot number to check."@),
            ),
        ),
    )
}

/// The tool, which takes the number of a slot.
pub fn beacon_slot_check_tool() -> (r: ToolDefinition)
    ensures
        r@ == tool_view(),
{
    let properties = ToolProperties::new().insert(
        "slot_number",
        ToolFunctionParameterPropertyBuilder::integer().description(
            "the beacon chain slot number to check.",
        ).build(),
    );
    function_tool(
        BEACON_SLOT_CHECK_TOOL_NAME,
        "checks if a specific beacon chain slot was missed by querying a beacon node. returns if the slot was missed, not missed, or if an error occurred.",
        properties,
    )
}

/// What is known of a slot.
#[derive(Debug)]
pub enum SlotStatus {
    NotMissed,
    Missed,
    Error(String),
}

impl SlotStatus {
    /// How the status is told to the model.
    pub open spec fn json(self) -> json::Json {
        match self {
            SlotStatus::NotMissed => json::status_json(
                "not_missed"@,
                "a block header was found for the specified slot."@,
            ),
            SlotStatus::Missed => json::status_json(
                "missed"@,
                "the specified slot was missed (no block header found)."@,
            ),
            SlotStatus::Error(e) => json::error_json(
                "an error occurred while checking the slot."@,
                e@,
            ),
        }
    }

    /// Writes the status for the model.
    pub fn to_json_string(&self) -> (r: String)
        ensures
            json::writes(r@, self.json()),
    {
        match self {
            SlotStatus::NotMissed => status_reply(
                "not_missed",
                "a block header was found for the specified slot.",
            ),
            SlotStatus::Missed => status_reply(
                "missed",
                "the specified slot was missed (no block header found).",
            ),
            SlotStatus::Error(e) => error_reply(
                "an error occurred while checking the slot.",
                e.as_str(),
            ),
        }
    }
}

/// The slot that an argument names, or what is wrong with it.
pub open spec fn slot_number(argument: Option<json::Json>) -> Result<u64, Seq<char>> {
    match argument {
        Some(json::Json::Integer(n)) if 0 <= n <= u64::MAX => Ok(n as u64),
        Some(_) => Err("argument 'slot_number' was not a valid u64"@),
        None => Err("argument 'slot_number' missing"@),
    }
}

/// Reads the slot number from the argument.
pub fn read_slot_number(argument: Option<&serde_json::Value>) -> (r: Result<u64, String>)
    ensures
        text::message_view(r) == slot_number(
            match argument {
                Some(value) => Some(json::json_of(*value)),
                None => None,
            },
        ),
{
    match argument {
        Some(value) => match as_u64(value) {
            Some(number) => Ok(number),
            None => Err("argument 'slot_number' was not a valid u64".to_owned()),
        },
        None => Err("argument 'slot_number' missing".to_owned()),
    }
}

/// The slot that arguments name, or what is wrong with them.
pub open spec fn slot_argument(
    arguments: Result<Map<Seq<char>, json::Json>, Seq<char>>,
) -> Result<u64, Seq<char>> {
    match arguments {
        Ok(members) => slot_number(json::map_entry(members, "slot_number"@)),
        Err(error) => Err("failed to parse arguments json: "@ + error),
    }
}

/// Reads the slot number from the arguments of the tool.
pub fn parse_slot_number_arg(arguments_json_str: &str) -> (r: Result<u64, String>)
    ensures
        text::message_view(r) == slot_argument(json::parsed_members(arguments_json_str@)),
{
    match parse_members(arguments_json_str) {
        Ok(entries) => {
            let found = find_entry(&entries, "slot_number");
            proof {
                let members = json::parsed_members(arguments_json_str@)->Ok_0;
                let asked = json::map_entry(members, "slot_number"@);
                assert(asked == match json::entry(entries@, "slot_number"@) {
                    Some(value) => Some(json::json_of(value)),
                    None => None,
                });
            }
            read_slot_number(found)
        },
        Err(error) => {
            let mut message = "failed to parse arguments json: ".to_owned();
            message.append(error.as_str());
            Err(message)
        },
    }
}

/// What the tool does next: ask the node, or reply.
pub enum SlotCheck {
    Ask(u64),
    Reply(String),
}

/// The reply to arguments that name no slot.
pub open spec fn bad_slot_json(problem: Seq<char>) -> json::Json {
    json::error_json(
        if text::has_prefix(problem, "failed to parse arguments json"@) {
            "argument_parsing_error"@
        } else {
            "invalid_argument"@
        },
        problem,
    )
}

/// Starts the tool: the node is asked for the slot that the arguments name; arguments that name
/// none are replied to at once.
pub fn execute_beacon_slot_check(arguments_json_str: &str) -> (r: SlotCheck)
    ensures
        match slot_argument(json::parsed_members(arguments_json_str@)) {
            Ok(slot) => r == SlotCheck::Ask(slot),
            Err(problem) => r matches SlotCheck::Reply(reply) && json::writes(
                reply@,
                bad_slot_json(problem),
            ),
        },
{
    match parse_slot_number_arg(arguments_json_str) {
        Ok(slot) => SlotCheck::Ask(slot),
        Err(problem) => {
            let key = if starts_with(problem.as_str(), "failed to parse arguments json") {
                "argument_parsing_error"
            } else {
                "invalid_argument"
            };
            SlotCheck::Reply(error_reply(key, problem.as_str()))
        },
    }
}

/// The address at which a beacon node tells of a slot.
pub fn header_url(node_url: &str, slot: u64) -> (r: String)
    ensures
        r@ == node_url@ + "/eth/v1/beacon/headers/"@ + text::decimal(slot as nat),
{
    let mut out = node_url.to_owned();
    out.append("/eth/v1/beacon/headers/");
    out.append(decimal_text(slot as u128).as_str());
    out
}

/// What an answer of the node says of a slot: the status of the answer and its phrase, or why
/// there was no answer.
pub open spec fn slot_answer_json(
    slot: u64,
    answer: Result<u16, Seq<char>>,
    reason: Option<Seq<char>>,
) -> json::Json {
    match answer {
        Ok(code) => if code == 200 {
            json::status_json("not_missed"@, "a block header was found for the specified slot."@)
        } else if code == 404 {
            json::status_json(
                "missed"@,
                "the specified slot was missed (no block header found)."@,
            )
        } else {
            json::error_json(
                "an error occurred while checking the slot."@,
                "beacon node responded with http status: "@ + text::ascii_lower_text(
                    http_status::status_line(code, reason),
                ),
            )
        },
        Err(error) => json::error_json(
            "an error occurred while checking the slot."@,
            "failed to query beacon node for slot "@ + text::decimal(slot as nat) + ": "@ + error,
        ),
    }
}

/// Judges the answer of the node, given the phrase of its status.
pub fn read_slot_answer(
    slot: u64,
    answer: Result<u16, String>,
    reason: &Option<String>,
) -> (r: String)
    ensures
        json::writes(
            r@,
            slot_answer_json(slot, text::message_view(answer), text::text_view(*reason)),
        ),
{
    let status = match answer {
        Ok(code) => if code == 200 {
            SlotStatus::NotMissed
        } else if code == 404 {
            SlotStatus::Missed
        } else {
            let line = write_status(code, reason);
            let mut details = "beacon node responded with http status: ".to_owned();
            details.append(to_ascii_lower_text(line.as_str()).as_str());
            SlotStatus::Error(details)
        },
        Err(error) => {
            let mut details = "failed to query beacon node for slot ".to_owned();
            details.append(decimal_text(slot as u128).as_str());
            details.append(": ");
            details.append(error.as_str());
            SlotStatus::Error(details)
        },
    };
    status.to_json_string()
}

/// The reply to the model once the node was asked for a slot.
pub fn slot_check_reply(slot: u64, answer: Result<u16, String>) -> (r: String)
    ensures
        json::writes(
            r@,
            slot_answer_json(
                slot,
                text::message_view(answer),
                match answer {
                    Ok(code) => http_status::status_reason(code),
                    Err(_) => None,
                },
            ),
        ),
{
    let reason = match &answer {
        Ok(code) => canonical_reason(*code),
        Err(_) => None,
    };
    read_slot_answer(slot, answer, &reason)
}

// ---------------------------------------------------------------------------------------------
// Laws

proof fn lemma_names()
    ensures
        "status"@ != "message"@,
        "status"@ != "details"@,
        "message"@ != "details"@,
        "missed"@ != "not_missed"@,
{
    reveal_strlit("status");
    reveal_strlit("message");
    reveal_strlit("details");
    reveal_strlit("missed");
    reveal_strlit("not_missed");
    assert("status"@[0] == 's');
    assert("message"@[0] == 'm');
    assert("details"@[0] == 'd');
    assert("missed"@.len() == 6);
    assert("not_missed"@.len() == 10);
}

/// A slot is told as not missed just where the node has its header, as missed just where the node
/// has none, and else as one that could not be checked, with the status or the error.
pub proof fn law_the_node_decides(
    slot: u64,
    answer: Result<u16, Seq<char>>,
    reason: Option<Seq<char>>,
)
    ensures
        ({
            let reply = slot_answer_json(slot, answer, reason);
            &&& json::text_member(reply, "status"@) == Some("not_missed"@) <==> answer == Ok::<
                u16,
                Seq<char>,
            >(200)
            &&& json::text_member(reply, "status"@) == Some("missed"@) <==> answer == Ok::<
                u16,
                Seq<char>,
            >(404)
            &&& answer matches Ok(code) ==> code != 200 && code != 404 ==> json::text_member(
                reply,
                "status"@,
            ) == Some("error"@) && json::text_member(reply, "details"@) == Some(
                "beacon node responded with http status: "@ + text::ascii_lower_text(
                    http_status::status_line(code, reason),
                ),
            )
            &&& answer matches Err(error) ==> json::text_member(reply, "status"@) == Some("error"@)
                && json::text_member(reply, "details"@) == Some(
                "failed to query beacon node for slot "@ + text::decimal(slot as nat) + ": "@
                    + error,
            )
        }),
{
    lemma_names();
    reveal_strlit("error");
    reveal_strlit("missed");
    reveal_strlit("not_missed");
    assert("error"@.len() == 5);
    assert("missed"@.len() == 6);
    assert("not_missed"@.len() == 10);
}

/// What is known of a slot is what is told of it.
pub proof fn law_statuses_are_told(error: String)
    ensures
        json::text_member(SlotStatus::NotMissed.json(), "status"@) == Some("not_missed"@),
        json::text_member(SlotStatus::Missed.json(), "status"@) == Some("missed"@),
        json::text_member(SlotStatus::Error(error).json(), "status"@) == Some("error"@),
        json::text_member(SlotStatus::Error(error).json(), "details"@) == Some(error@),
        json::text_member(SlotStatus::NotMissed.json(), "message"@) == Some(
            "a block header was found for the specified slot."@,
        ),
        json::text_member(SlotStatus::Missed.json(), "message"@) == Some(
            "the specified slot was missed (no block header found)."@,
        ),
        json::text_member(SlotStatus::Error(error).json(), "message"@) == Some(
            "an error occurred while checking the slot."@,
        ),
{
    lemma_names();
    json::lemma_reply_names();
}

/// The slot that is asked for is the one that the arguments give, where they give one that fits 64
/// bits; else it is told what is wrong.
pub proof fn law_the_slot_is_the_one_given(
    members: Map<Seq<char>, json::Json>,
    error: Seq<char>,
    slot: u64,
)
    ensures
        slot_argument(Ok(members)) == Ok::<u64, Seq<char>>(slot) <==> json::map_entry(
            members,
            "slot_number"@,
        ) == Some(json::Json::Integer(slot as int)),
        json::map_entry(members, "slot_number"@) is None ==> slot_argument(Ok(members)) == Err::<
            u64,
            Seq<char>,
        >("argument 'slot_number' missing"@),
        json::map_entry(members, "slot_number"@) matches Some(value) ==> !(
        value matches json::Json::Integer(n) && 0 <= n <= u64::MAX) ==> slot_argument(Ok(members))
            == Err::<u64, Seq<char>>("argument 'slot_number' was not a valid u64"@),
        slot_argument(Err(error)) == Err::<u64, Seq<char>>(
            "failed to parse arguments json: "@ + error,
        ),
{
}

/// Arguments that name no slot are replied to with an error that gives the problem, and says
/// whether they could be read at all.
pub proof fn law_unusable_arguments_are_errors(problem: Seq<char>, rest: Seq<char>)
    ensures
        json::text_member(bad_slot_json(problem), "status"@) == Some("error"@),
        json::text_member(bad_slot_json(problem), "details"@) == Some(problem),
        json::text_member(
            bad_slot_json("failed to parse arguments json"@ + rest),
            "message"@,
        ) == Some("argument_parsing_error"@),
        !"failed to parse arguments json"@.is_prefix_of(problem) ==> json::text_member(
            bad_slot_json(problem),
            "message"@,
        ) == Some("invalid_argument"@),
{
    lemma_names();
    text::law_prefix_and_suffix(rest, "failed to parse arguments json"@);
    text::law_prefix_and_suffix(problem, "failed to parse arguments json"@);
}

} // verus!
