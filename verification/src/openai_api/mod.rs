//! The OpenAI responses API: what is sent to it and what comes back.

pub mod types;

use crate::http_status;
use crate::http_status::{canonical_reason, is_success, write_status};
use crate::json;
use crate::json::{
    array_value, bool_value, new_members, object_value, put, put_text,
};
use crate::text;
use types::{ApiToolType, InputItem, OpenAiApiResponse, ToolChoice};
use vstd::prelude::*;

verus! {

/// The address of the responses API.
pub const OPENAI_RESPONSES_API_URL: &'static str = "https://api.openai.com/v1/responses";

/// What may be said of a request beside its input. The temperature is a JSON number.
pub struct CallResponsesApiOptionalArgs<'a> {
    pub model_id: &'a str,
    pub previous_response_id: Option<&'a str>,
    pub tools: Option<Vec<ApiToolType>>,
    pub tool_choice: Option<ToolChoice>,
    pub instructions: Option<&'a str>,
    pub temperature: Option<serde_json::Value>,
    pub store: Option<bool>,
    pub verbosity: Option<&'a str>,
    pub reasoning_effort: Option<&'a str>,
}

/// The view of [`CallResponsesApiOptionalArgs`].
pub struct ArgsView {
    pub model_id: Seq<char>,
    pub previous_response_id: Option<Seq<char>>,
    pub tools: Option<Seq<types::ApiToolView>>,
    pub tool_choice: Option<ToolChoice>,
    pub instructions: Option<Seq<char>>,
    pub temperature: Option<json::Json>,
    pub store: Option<bool>,
    pub verbosity: Option<Seq<char>>,
    pub reasoning_effort: Option<Seq<char>>,
}

impl<'a> View for CallResponsesApiOptionalArgs<'a> {
    type V = ArgsView;

    open spec fn view(&self) -> ArgsView {
        ArgsView {
            model_id: self.model_id@,
            previous_response_id: text::slice_view(self.previous_response_id),
            tools: match self.tools {
                Some(list) => Some(types::tool_views(list@)),
                None => None,
            },
            tool_choice: self.tool_choice,
            instructions: text::slice_view(self.instructions),
            temperature: match self.temperature {
                Some(number) => Some(json::json_of(number)),
                None => None,
            },
            store: self.store,
            verbosity: text::slice_view(self.verbosity),
            reasoning_effort: text::slice_view(self.reasoning_effort),
        }
    }
}

/// `members` with one more, where there is one.
pub open spec fn with_member(
    members: Map<Seq<char>, json::Json>,
    name: Seq<char>,
    value: Option<json::Json>,
) -> Map<Seq<char>, json::Json> {
    match value {
        Some(v) => members.insert(name, v),
        None => members,
    }
}

/// An optional text as JSON.
pub open spec fn optional_text(value: Option<Seq<char>>) -> Option<json::Json> {
    match value {
        Some(s) => Some(json::Json::Text(s)),
        None => None,
    }
}

/// An object with one text in it, where there is one.
pub open spec fn nested_text(name: Seq<char>, value: Option<Seq<char>>) -> Option<json::Json> {
    match value {
        Some(s) => Some(json::Json::Object(json::no_members().insert(name, json::Json::Text(s)))),
        None => None,
    }
}

/// The body of a request: the input, the model, and of the rest what is given. The verbosity
/// stands under `text`, the effort under `reasoning`.
pub open spec fn request_members(
    input: Seq<types::ItemView>,
    args: ArgsView,
) -> Map<Seq<char>, json::Json> {
    let base = json::no_members().insert(
        "input"@,
        json::Json::Array(input.map_values(|item: types::ItemView| types::item_json(item))),
    ).insert("model"@, json::Json::Text(args.model_id));
    let previous = with_member(
        base,
        "previous_response_id"@,
        optional_text(args.previous_response_id),
    );
    let tools = with_member(
        previous,
        "tools"@,
        match args.tools {
            Some(list) => Some(
                json::Json::Array(
                    list.map_values(|tool: types::ApiToolView| types::tool_json(tool)),
                ),
            ),
            None => None,
        },
    );
    let choice = with_member(
        tools,
        "tool_choice"@,
        match args.tool_choice {
            Some(c) => Some(json::Json::Text(c.spec_name())),
            None => None,
        },
    );
    let instructions = with_member(choice, "instructions"@, optional_text(args.instructions));
    let temperature = with_member(instructions, "temperature"@, args.temperature);
    let store = with_member(
        temperature,
        "store"@,
        match args.store {
            Some(flag) => Some(json::Json::Bool(flag)),
            None => None,
        },
    );
    let verbosity = with_member(store, "text"@, nested_text("verbosity"@, args.verbosity));
    with_member(verbosity, "reasoning"@, nested_text("effort"@, args.reasoning_effort))
}

fn items_value(items: &Vec<InputItem>) -> (r: serde_json::Value)
    ensures
        json::json_of(r) == json::Json::Array(
            types::item_views(items@).map_values(|item: types::ItemView| types::item_json(item)),
        ),
{
    let mut values: Vec<serde_json::Value> = Vec::new();
    let mut i: usize = 0;
    while i < items.len()
        invariant
            i <= items@.len(),
            values@.len() == i,
            forall|j: int|
                0 <= j < i ==> json::json_of(#[trigger] values@[j]) == types::item_json(
                    items@[j]@,
                ),
        decreases items@.len() - i,
    {
        values.push(items[i].to_json());
        i += 1;
    }
    proof {
        assert(json::jsons(values@) =~= types::item_views(items@).map_values(
            |item: types::ItemView| types::item_json(item),
        ));
    }
    array_value(values)
}

fn tools_value(tools: &Vec<ApiToolType>) -> (r: serde_json::Value)
    ensures
        json::json_of(r) == json::Json::Array(
            types::tool_views(tools@).map_values(
                |tool: types::ApiToolView| types::tool_json(tool),
            ),
        ),
{
    let mut values: Vec<serde_json::Value> = Vec::new();
    let mut i: usize = 0;
    while i < tools.len()
        invariant
            i <= tools@.len(),
            values@.len() == i,
            forall|j: int|
                0 <= j < i ==> json::json_of(#[trigger] values@[j]) == types::tool_json(
                    tools@[j]@,
                ),
        decreases tools@.len() - i,
    {
        values.push(tools[i].to_json());
        i += 1;
    }
    proof {
        assert(json::jsons(values@) =~= types::tool_views(tools@).map_values(
            |tool: types::ApiToolView| types::tool_json(tool),
        ));
    }
    array_value(values)
}

/// Builds the body of a request to the responses API.
pub fn request_payload(
    input_items: &Vec<InputItem>,
    args: CallResponsesApiOptionalArgs<'_>,
) -> (r: serde_json::Value)
    ensures
        json::json_of(r) == json::Json::Object(
            request_members(types::item_views(input_items@), args@),
        ),
{
    let mut root = new_members();
    put(&mut root, "input", items_value(input_items));
    put_text(&mut root, "model", args.model_id);
    if let Some(id) = args.previous_response_id {
        put_text(&mut root, "previous_response_id", id);
    }
    if let Some(tools) = &args.tools {
        put(&mut root, "tools", tools_value(tools));
    }
    if let Some(choice) = args.tool_choice {
        put_text(&mut root, "tool_choice", choice.name());
    }
    if let Some(instructions) = args.instructions {
        put_text(&mut root, "instructions", instructions);
    }
    if let Some(temperature) = args.temperature {
        put(&mut root, "temperature", temperature);
    }
    if let Some(store) = args.store {
        put(&mut root, "store", bool_value(store));
    }
    if let Some(verbosity) = args.verbosity {
        let mut text_members = new_members();
        put_text(&mut text_members, "verbosity", verbosity);
        put(&mut root, "text", object_value(text_members));
    }
    if let Some(effort) = args.reasoning_effort {
        let mut reasoning_members = new_members();
        put_text(&mut reasoning_members, "effort", effort);
        put(&mut root, "reasoning", object_value(reasoning_members));
    }
    object_value(root)
}

proof fn lemma_request_names_differ()
    ensures
        "input"@.len() == 5,
        "model"@.len() == 5,
        "tools"@.len() == 5,
        "store"@.len() == 5,
        "text"@.len() == 4,
        "reasoning"@.len() == 9,
        "temperature"@.len() == 11,
        "tool_choice"@.len() == 11,
        "instructions"@.len() == 12,
        "previous_response_id"@.len() == 20,
        "input"@[0] == 'i',
        "model"@[0] == 'm',
        "tools"@[0] == 't',
        "store"@[0] == 's',
        "temperature"@[1] == 'e',
        "tool_choice"@[1] == 'o',
{
    reveal_strlit("input");
    reveal_strlit("model");
    reveal_strlit("tools");
    reveal_strlit("store");
    reveal_strlit("text");
    reveal_strlit("reasoning");
    reveal_strlit("temperature");
    reveal_strlit("tool_choice");
    reveal_strlit("instructions");
    reveal_strlit("previous_response_id");
}

/// A request says only what is given: each optional part is there if and only if it is given, as
/// it is given, and nothing else is there.
pub proof fn law_request_says_what_is_given(input: Seq<types::ItemView>, args: ArgsView)
    ensures
        ({
            let members = request_members(input, args);
            &&& members.dom().contains("input"@)
            &&& json::map_entry(members, "model"@) == Some(json::Json::Text(args.model_id))
            &&& json::map_entry(members, "previous_response_id"@) == optional_text(
                args.previous_response_id,
            )
            &&& members.dom().contains("tools"@) <==> args.tools is Some
            &&& members.dom().contains("tool_choice"@) <==> args.tool_choice is Some
            &&& json::map_entry(members, "instructions"@) == optional_text(args.instructions)
            &&& json::map_entry(members, "temperature"@) == args.temperature
            &&& members.dom().contains("store"@) <==> args.store is Some
            &&& json::map_entry(members, "text"@) == nested_text("verbosity"@, args.verbosity)
            &&& json::map_entry(members, "reasoning"@) == nested_text(
                "effort"@,
                args.reasoning_effort,
            )
            &&& forall|name: Seq<char>| #[trigger]
                members.dom().contains(name) ==> name == "input"@ || name == "model"@ || name
                    == "previous_response_id"@ || name == "tools"@ || name == "tool_choice"@ || name
                    == "instructions"@ || name == "temperature"@ || name == "store"@ || name
                    == "text"@ || name == "reasoning"@
        }),
{
    lemma_request_names_differ();
}

/// The message for an answer that is a success and cannot be read.
pub open spec fn unreadable_response(
    status: Seq<char>,
    error: Seq<char>,
    body: Seq<char>,
) -> Seq<char> {
    "failed to deserialize openai api response (status "@ + status + "): "@ + error
        + ". response body: "@ + body
}

/// The message for an answer that is no success.
pub open spec fn failed_response(
    status: Seq<char>,
    reason: Option<Seq<char>>,
    body: Seq<char>,
) -> Seq<char> {
    "openai /v1/responses api call failed with status "@ + status + ": "@ + match reason {
        Some(phrase) => phrase,
        None => "unknown status"@,
    } + ". response: "@ + body
}

/// What a call comes to, from its status, the phrase of that status, the body of the answer, and
/// the body read as an answer.
pub open spec fn response_outcome(
    status: u16,
    reason: Option<Seq<char>>,
    body: Seq<char>,
    parsed: Result<OpenAiApiResponse, String>,
    outcome: Result<OpenAiApiResponse, String>,
) -> bool {
    let line = http_status::status_line(status, reason);
    if http_status::success(status) {
        match parsed {
            Ok(response) => outcome == Ok::<OpenAiApiResponse, String>(response),
            Err(error) => outcome matches Err(message) && message@ == unreadable_response(
                line,
                error@,
                body,
            ),
        }
    } else {
        outcome matches Err(message) && message@ == failed_response(line, reason, body)
    }
}

/// Judges the answer to a request, given the phrase of its status.
pub fn read_response(
    status: u16,
    reason: Option<String>,
    body: &str,
    parsed: Result<OpenAiApiResponse, String>,
) -> (r: Result<OpenAiApiResponse, String>)
    ensures
        response_outcome(status, text::text_view(reason), body@, parsed, r),
{
    let line = write_status(status, &reason);
    if is_success(status) {
        match parsed {
            Ok(response) => Ok(response),
            Err(error) => {
                let mut message = "failed to deserialize openai api response (status ".to_owned();
                message.append(line.as_str());
                message.append("): ");
                message.append(error.as_str());
                message.append(". response body: ");
                message.append(body);
                Err(message)
            },
        }
    } else {
        let mut message = "openai /v1/responses api call failed with status ".to_owned();
        message.append(line.as_str());
        message.append(": ");
        match reason {
            Some(phrase) => message.append(phrase.as_str()),
            None => message.append("unknown status"),
        }
        message.append(". response: ");
        message.append(body);
        Err(message)
    }
}

/// What happened since the last step of a call of the responses API.
pub enum ApiEvent<'a> {
    Begin { input_items: &'a Vec<InputItem>, args: CallResponsesApiOptionalArgs<'a> },
    /// The request could not be sent.
    Unsent,
    /// The body of the answer could not be received.
    Unreceived,
    /// The answer came, and its body was read as one where that could be.
    Answered { status: u16, body: &'a str, parsed: Result<OpenAiApiResponse, String> },
}

/// What is to be done next.
pub enum ApiStep {
    /// The payload is posted to an address, as JSON.
    Post { url: &'static str, payload: serde_json::Value },
    Finish(Result<OpenAiApiResponse, String>),
}

/// Whether a step is the one to take: the request says what is given, and a call that failed on its
/// way ends under a heading.
pub open spec fn api_step(event: ApiEvent<'_>, step: ApiStep) -> bool {
    match event {
        ApiEvent::Begin { input_items, args } => step matches ApiStep::Post { url, payload } && url@
            == OPENAI_RESPONSES_API_URL@ && json::json_of(payload) == json::Json::Object(
            request_members(types::item_views(input_items@), args@),
        ),
        ApiEvent::Unsent => step matches ApiStep::Finish(Err(heading)) && heading@
            == "failed to send request to openai api"@,
        ApiEvent::Unreceived => step matches ApiStep::Finish(Err(heading)) && heading@
            == "failed to read response text from openai api"@,
        ApiEvent::Answered { status, body, parsed } => step matches ApiStep::Finish(outcome)
            && response_outcome(status, http_status::status_reason(status), body@, parsed, outcome),
    }
}

/// Takes the next step of a call of the responses API.
pub fn call_responses_api(event: ApiEvent<'_>) -> (r: ApiStep)
    ensures
        api_step(event, r),
{
    match event {
        ApiEvent::Begin { input_items, args } => ApiStep::Post {
            url: OPENAI_RESPONSES_API_URL,
            payload: request_payload(input_items, args),
        },
        ApiEvent::Unsent => ApiStep::Finish(
            Err("failed to send request to openai api".to_owned()),
        ),
        ApiEvent::Unreceived => ApiStep::Finish(
            Err("failed to read response text from openai api".to_owned()),
        ),
        ApiEvent::Answered { status, body, parsed } => {
            let reason = canonical_reason(status);
            ApiStep::Finish(read_response(status, reason, body, parsed))
        },
    }
}

/// Every item of the input and every tool is in the request, one for one and in order; the choice
/// of tools, whether the answer is stored, the verbosity and the effort are there as given.
pub proof fn law_nothing_given_is_left_out(input: Seq<types::ItemView>, args: ArgsView)
    ensures
        ({
            let members = request_members(input, args);
            &&& json::map_entry(members, "input"@) matches Some(json::Json::Array(list))
                && list.len() == input.len() && forall|i: int|
                0 <= i < input.len() ==> #[trigger] list[i] == types::item_json(input[i])
            &&& args.tools matches Some(tools) ==> (json::map_entry(
                members,
                "tools"@,
            ) matches Some(json::Json::Array(list)) && list.len() == tools.len() && forall|i: int|
                0 <= i < tools.len() ==> #[trigger] list[i] == types::tool_json(tools[i]))
            &&& args.tool_choice matches Some(choice) ==> json::map_entry(members, "tool_choice"@)
                == Some(
                json::Json::Text(
                    match choice {
                        ToolChoice::Auto => "auto"@,
                        ToolChoice::Required => "required"@,
                        ToolChoice::Forbidden => "none"@,
                    },
                ),
            )
            &&& args.store matches Some(flag) ==> json::map_entry(members, "store"@) == Some(
                json::Json::Bool(flag),
            )
            &&& args.previous_response_id matches Some(id) ==> json::map_entry(
                members,
                "previous_response_id"@,
            ) == Some(json::Json::Text(id))
            &&& args.instructions matches Some(s) ==> json::map_entry(members, "instructions"@)
                == Some(json::Json::Text(s))
            &&& args.verbosity matches Some(s) ==> (json::map_entry(members, "text"@) matches Some(
                value,
            ) && json::text_member(value, "verbosity"@) == Some(s))
            &&& args.reasoning_effort matches Some(s) ==> (json::map_entry(
                members,
                "reasoning"@,
            ) matches Some(value) && json::text_member(value, "effort"@) == Some(s))
        }),
{
    lemma_request_names_differ();
}

/// A call succeeds just where its status is one of success and the answer could be read, and with
/// that answer. What goes wrong is told with the status and the body, and with the error in reading
/// it.
pub proof fn law_calls_come_to_what_is_answered(
    status: u16,
    reason: Option<Seq<char>>,
    body: Seq<char>,
    parsed: Result<OpenAiApiResponse, String>,
    outcome: Result<OpenAiApiResponse, String>,
)
    requires
        response_outcome(status, reason, body, parsed, outcome),
    ensures
        outcome is Ok <==> 200 <= status < 300 && parsed is Ok,
        outcome is Ok ==> outcome == parsed,
        outcome matches Err(message) ==> text::contains_text(
            message@,
            text::decimal(status as nat),
        ) && text::has_suffix(message@, body) && (200 <= status < 300 ==> (
        parsed matches Err(error) ==> text::contains_text(message@, error@))),
{
    if let Err(message) = outcome {
        let m = message@;
        let number = text::decimal(status as nat);
        let phrase = match reason {
            Some(p) => p,
            None => "<unknown status code>"@,
        };
        if http_status::success(status) {
            let error = parsed->Err_0@;
            let a = "failed to deserialize openai api response (status "@;
            let b = " "@ + phrase + "): "@;
            let c = ". response body: "@;
            assert(m =~= a + number + (b + error + c + body));
            assert(m =~= (a + number + b) + error + (c + body));
            assert(m =~= (a + number + b + error + c) + body);
            text::law_contained_text_is_a_part(m, number);
            text::law_contained_text_is_a_part(m, error);
            text::law_prefix_and_suffix(a + number + b + error + c, body);
        } else {
            let known = match reason {
                Some(p) => p,
                None => "unknown status"@,
            };
            let a = "openai /v1/responses api call failed with status "@;
            let b = " "@ + phrase + ": "@ + known + ". response: "@;
            assert(m =~= a + number + (b + body));
            assert(m =~= (a + number + b) + body);
            text::law_contained_text_is_a_part(m, number);
            text::law_prefix_and_suffix(a + number + b, body);
        }
    }
}

/// A call begins with the request to the responses API, and ends in the answer or in why there is
/// none.
pub proof fn law_each_event_of_a_call_has_its_step(event: ApiEvent<'_>, step: ApiStep)
    requires
        api_step(event, step),
    ensures
        event is Begin <==> step is Post,
        step matches ApiStep::Post { url, .. } ==> url@ == "https://api.openai.com/v1/responses"@,
        event is Unsent ==> (step matches ApiStep::Finish(Err(heading)) && heading@
            == "failed to send request to openai api"@),
        event is Unreceived ==> (step matches ApiStep::Finish(Err(heading)) && heading@
            == "failed to read response text from openai api"@),
        event matches ApiEvent::Begin { input_items, args } ==> (step matches ApiStep::Post {
            payload,
            ..
        } && json::json_of(payload) == json::Json::Object(
            request_members(types::item_views(input_items@), args@),
        )),
        event matches ApiEvent::Answered { status, body, parsed } ==> (step matches ApiStep::Finish(
            outcome,
        ) && response_outcome(
            status,
            http_status::status_reason(status),
            body@,
            parsed,
            outcome,
        )),
{
}

/// What stands for what a request says keeps every part of it.
pub proof fn law_views_keep_every_part(args: CallResponsesApiOptionalArgs<'_>)
    ensures
        args@.model_id == args.model_id@,
        args@.previous_response_id == text::slice_view(args.previous_response_id),
        args.tools matches Some(list) ==> args@.tools == Some(types::tool_views(list@)),
        args.tools is None ==> args@.tools is None,
        args@.tool_choice == args.tool_choice,
        args@.instructions == text::slice_view(args.instructions),
        args.temperature matches Some(number) ==> args@.temperature == Some(
            json::json_of(number),
        ),
        args.temperature is None ==> args@.temperature is None,
        args@.store == args.store,
        args@.verbosity == text::slice_view(args.verbosity),
        args@.reasoning_effort == text::slice_view(args.reasoning_effort),
{
}

} // verus!
