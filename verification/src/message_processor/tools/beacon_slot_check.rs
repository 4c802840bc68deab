//! The tool that asks a beacon node whether a slot was missed; whatever goes wrong is told as the
//! status of the slot.

use crate::ai_interaction::tools::beacon_slot_check;
use crate::ai_interaction::tools::beacon_slot_check::{parse_slot_number_arg, SlotStatus};
use crate::http_status;
use crate::http_status::{canonical_reason, is_success, write_status};
use crate::json;
use crate::text;
use crate::text::decimal_text;
use vstd::prelude::*;

verus! {

/// What the tool does next: ask the node at an address for a slot, or reply.
pub enum SlotCheck<'a> {
    Ask { beacon_url: &'a str, slot: u64 },
    Reply(String),
}

/// What is told of a slot that could not be checked.
pub open spec fn unchecked_json(problem: Seq<char>) -> json::Json {
    json::error_json("an error occurred while checking the slot."@, problem)
}

/// The address and the slot to ask for, or why the slot cannot be checked.
pub open spec fn check_request(
    beacon_url: Option<Seq<char>>,
    slot: Result<u64, Seq<char>>,
) -> Result<(Seq<char>, u64), Seq<char>> {
    match beacon_url {
        Some(url) => match slot {
            Ok(n) => Ok((url, n)),
            Err(problem) => Err(problem),
        },
        None => Err("BEACON_URL environment variable not set. cannot check beacon slot."@),
    }
}

/// Whether a step is what a request comes to.
pub open spec fn is_slot_check(step: SlotCheck, request: Result<(Seq<char>, u64), Seq<char>>) -> bool {
    match request {
        Ok((url, n)) => step matches SlotCheck::Ask { beacon_url, slot } && beacon_url@ == url && slot
            == n,
        Err(problem) => step matches SlotCheck::Reply(reply) && json::writes(
            reply@,
            unchecked_json(problem),
        ),
    }
}

/// Starts the tool, from the slot that its arguments name or what is wrong with them.
pub fn start_slot_check<'a>(beacon_url: &'a Option<String>, slot: Result<u64, String>) -> (r:
    SlotCheck<'a>)
    ensures
        is_slot_check(
            r,
            check_request(text::text_view(*beacon_url), text::message_view(slot)),
        ),
{
    match beacon_url {
        Some(url) => match slot {
            Ok(n) => SlotCheck::Ask { beacon_url: url.as_str(), slot: n },
            Err(problem) => SlotCheck::Reply(SlotStatus::Error(problem).to_json_string()),
        },
        None => {
            let problem =
                "BEACON_URL environment variable not set. cannot check beacon slot.".to_owned();
            SlotCheck::Reply(SlotStatus::Error(problem).to_json_string())
        },
    }
}

/// Starts the tool.
pub fn execute_beacon_slot_check<'a>(
    beacon_url: &'a Option<String>,
    arguments_json_str: &str,
) -> (r: SlotCheck<'a>)
    ensures
        is_slot_check(
            r,
            check_request(
                text::text_view(*beacon_url),
                beacon_slot_check::slot_argument(json::parsed_members(arguments_json_str@)),
            ),
        ),
{
    start_slot_check(beacon_url, parse_slot_number_arg(arguments_json_str))
}

/// How a node answered: with a status and a body, or not at all.
pub enum NodeAnswer {
    Response { code: u16, body: String },
    Unreachable,
}

/// What an answer of the node says of a slot, given the phrase of its status.
pub open spec fn node_answer_json(
    slot: u64,
    answer: NodeAnswer,
    reason: Option<Seq<char>>,
) -> json::Json {
    match answer {
        NodeAnswer::Response { code, body } => if http_status::success(code) {
            json::status_json("not_missed"@, "a block header was found for the specified slot."@)
        } else if code == 404 {
            json::status_json(
                "missed"@,
                "the specified slot was missed (no block header found)."@,
            )
        } else {
            unchecked_json(
                "beacon node returned status "@ + http_status::status_line(code, reason) + " - "@
                    + body@,
            )
        },
        NodeAnswer::Unreachable => unchecked_json(
            "error checking slot "@ + text::decimal(slot as nat)
                + ": failed to connect to beacon node"@,
        ),
    }
}

/// Judges an answer of the node, given the phrase of its status.
pub fn read_node_answer(slot: u64, answer: NodeAnswer, reason: &Option<String>) -> (r: String)
    ensures
        json::writes(r@, node_answer_json(slot, answer, text::text_view(*reason))),
{
    let status = match answer {
        NodeAnswer::Response { code, body } => if is_success(code) {
            SlotStatus::NotMissed
        } else if code == 404 {
            SlotStatus::Missed
        } else {
            let mut details = "beacon node returned status ".to_owned();
            details.append(write_status(code, reason).as_str());
            details.append(" - ");
            details.append(body.as_str());
            SlotStatus::Error(details)
        },
        NodeAnswer::Unreachable => {
            let mut details = "error checking slot ".to_owned();
            details.append(decimal_text(slot as u128).as_str());
            details.append(": failed to connect to beacon node");
            SlotStatus::Error(details)
        },
    };
    status.to_json_string()
}

/// The reply to the model once the node was asked for a slot.
pub fn fetch_beacon_header(slot: u64, answer: NodeAnswer) -> (r: String)
    ensures
        json::writes(
            r@,
            node_answer_json(
                slot,
                answer,
                match answer {
                    NodeAnswer::Response { code, .. } => http_status::status_reason(code),
                    NodeAnswer::Unreachable => None,
                },
            ),
        ),
{
    let reason = match &answer {
        NodeAnswer::Response { code, body: _ } => canonical_reason(*code),
        NodeAnswer::Unreachable => None,
    };
    read_node_answer(slot, answer, &reason)
}

/// The node is asked just where its address is known and the arguments name a slot, and for that
/// slot; else it is told why not, the address first.
pub proof fn law_the_node_is_asked_for_the_slot(
    beacon_url: Option<Seq<char>>,
    slot: Result<u64, Seq<char>>,
    url: Seq<char>,
    n: u64,
)
    ensures
        check_request(beacon_url, slot) == Ok::<(Seq<char>, u64), Seq<char>>((url, n))
            <==> beacon_url == Some(url) && slot == Ok::<u64, Seq<char>>(n),
        beacon_url is None ==> check_request(beacon_url, slot) == Err::<
            (Seq<char>, u64),
            Seq<char>,
        >("BEACON_URL environment variable not set. cannot check beacon slot."@),
        beacon_url is Some ==> (slot matches Err(problem) ==> check_request(beacon_url, slot)
            == Err::<(Seq<char>, u64), Seq<char>>(problem)),
{
}

/// A slot is told as not missed just where the node answers with a success, as missed just where it
/// answers that there is none, and else as one that could not be checked, with the status and body
/// or with the slot.
pub proof fn law_the_node_decides(
    slot: u64,
    code: u16,
    body: String,
    reason: Option<Seq<char>>,
)
    ensures
        ({
            let reply = node_answer_json(slot, NodeAnswer::Response { code, body }, reason);
            let none = node_answer_json(slot, NodeAnswer::Unreachable, reason);
            &&& json::text_member(reply, "status"@) == Some(
                if 200 <= code < 300 {
                    "not_missed"@
                } else if code == 404 {
                    "missed"@
                } else {
                    "error"@
                },
            )
            &&& !(200 <= code < 300) && code != 404 ==> json::text_member(reply, "details"@) == Some(
                "beacon node returned status "@ + http_status::status_line(code, reason) + " - "@
                    + body@,
            )
            &&& json::text_member(none, "status"@) == Some("error"@)
            &&& json::text_member(none, "details"@) == Some(
                "error checking slot "@ + text::decimal(slot as nat)
                    + ": failed to connect to beacon node"@,
            )
        }),
{
    json::lemma_reply_names();
}

/// Why a slot could not be checked is told as an error with the problem.
pub proof fn law_problems_are_told(problem: Seq<char>)
    ensures
        json::text_member(unchecked_json(problem), "status"@) == Some("error"@),
        json::text_member(unchecked_json(problem), "message"@) == Some(
            "an error occurred while checking the slot."@,
        ),
        json::text_member(unchecked_json(problem), "details"@) == Some(problem),
{
    json::lemma_reply_names();
}

/// A step is to ask the node at the address for the slot, or to reply why not.
pub proof fn law_steps_are_what_is_asked(
    step: SlotCheck,
    request: Result<(Seq<char>, u64), Seq<char>>,
)
    requires
        is_slot_check(step, request),
    ensures
        request matches Ok((url, n)) ==> (step matches SlotCheck::Ask { beacon_url, slot }
            && beacon_url@ == url && slot == n),
        request matches Err(problem) ==> (step matches SlotCheck::Reply(written) && written@
            == json::json_text(unchecked_json(problem))),
{
}

} // verus!
