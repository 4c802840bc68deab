//! The second step of a tool call: what the tool gave goes back to the model.

use crate::openai_api;
use crate::openai_api::types;
use crate::openai_api::types::{
    copy_tools, input_call_output, input_message, ApiToolType, InputItem, OpenAiApiResponse,
    OutputItem,
};
use crate::openai_api::CallResponsesApiOptionalArgs;
use crate::text;
use vstd::prelude::*;

verus! {

/// What is known of a tool call once the tool has run.
pub struct ToolStep2Context<'a> {
    pub function_name: &'a str,
    pub function_id: &'a str,
    pub function_call_id: &'a str,
    pub function_arguments: &'a str,
    pub original_input_items: Vec<InputItem>,
    pub initial_api_response_id: &'a str,
    pub available_tools: Vec<ApiToolType>,
    pub instructions: &'a str,
    pub tool_output_json_string: String,
}

/// How a call is told to the model.
pub open spec fn call_note(
    name: Seq<char>,
    id: Seq<char>,
    call_id: Seq<char>,
    arguments: Seq<char>,
) -> Seq<char> {
    "tool_call: name="@ + name + ", id="@ + id + ", call_id="@ + call_id + ", args="@ + arguments
}

/// What goes back to the model: what went to it before, the call, and its output.
pub open spec fn step2_input(step2: ToolStep2Context) -> Seq<types::ItemView> {
    types::item_views(step2.original_input_items@).push(
        types::message_item(
            "assistant"@,
            call_note(
                step2.function_name@,
                step2.function_id@,
                step2.function_call_id@,
                step2.function_arguments@,
            ),
        ),
    ).push(types::call_output_item(step2.function_call_id@, step2.tool_output_json_string@))
}

/// What goes back to the model.
pub fn step2_input_items(step2: &ToolStep2Context) -> (r: Vec<InputItem>)
    ensures
        types::item_views(r@) == step2_input(*step2),
{
    let mut items = types::copy_items(&step2.original_input_items);
    let ghost before = items@;
    let mut note = "tool_call: name=".to_owned();
    note.append(step2.function_name);
    note.append(", id=");
    note.append(step2.function_id);
    note.append(", call_id=");
    note.append(step2.function_call_id);
    note.append(", args=");
    note.append(step2.function_arguments);
    items.push(input_message("assistant", note.as_str()));
    items.push(
        input_call_output(step2.function_call_id, step2.tool_output_json_string.as_str()),
    );
    proof {
        assert(types::item_views(items@) =~= step2_input(*step2));
    }
    items
}

/// What the request says beside its input: it follows the response that made the call.
pub open spec fn step2_args_view(model_id: Seq<char>, step2: ToolStep2Context) -> openai_api::ArgsView {
    openai_api::ArgsView {
        model_id,
        previous_response_id: Some(step2.initial_api_response_id@),
        tools: Some(types::tool_views(step2.available_tools@)),
        tool_choice: None,
        instructions: Some(step2.instructions@),
        temperature: None,
        store: None,
        verbosity: None,
        reasoning_effort: None,
    }
}

/// What the request says beside its input.
pub fn step2_args<'a>(
    model_id: &'a str,
    step2: &ToolStep2Context<'a>,
) -> (r: CallResponsesApiOptionalArgs<'a>)
    ensures
        r@ == step2_args_view(model_id@, *step2),
{
    CallResponsesApiOptionalArgs {
        model_id,
        previous_response_id: Some(step2.initial_api_response_id),
        tools: Some(copy_tools(&step2.available_tools)),
        tool_choice: None,
        instructions: Some(step2.instructions),
        temperature: None,
        store: None,
        verbosity: None,
        reasoning_effort: None,
    }
}

/// The assistant's text, where the first item of an answer is one.
pub open spec fn leading_text(output: Seq<OutputItem>) -> Option<Seq<char>> {
    if output.len() > 0 {
        match output[0] {
            OutputItem::Message(message) => types::assistant_text(message),
            _ => None,
        }
    } else {
        None
    }
}

/// The assistant's text, where the first item of an answer is one.
pub fn leading_assistant_text(output: &Vec<OutputItem>) -> (r: Option<String>)
    ensures
        text::text_view(r) == leading_text(output@),
{
    if output.len() > 0 {
        if let OutputItem::Message(message) = &output[0] {
            if let Some(said) = message.assistant_text() {
                return Some(said.clone());
            }
        }
    }
    None
}

/// The final text of a tool call, from the model's second response: the text it leads with, or
/// that there is none.
pub open spec fn step2_text(function_name: Seq<char>, output: Seq<OutputItem>) -> Seq<char> {
    match leading_text(output) {
        Some(said) => said,
        None => "i used the "@ + function_name
            + " tool, but couldn't form a final summary in the expected format."@,
    }
}

/// The final text of a tool call and the response it came in, which is the one to remember. Where
/// the model could not be asked, the heading of the error.
pub fn handle_tool_call_step2_openai_response(
    function_name: &str,
    response: Option<&OpenAiApiResponse>,
) -> (r: Result<(String, String), String>)
    ensures
        match response {
            Some(answer) => r matches Ok((said, id)) && said@ == step2_text(
                function_name@,
                answer.output@,
            ) && id@ == answer.id@,
            None => r matches Err(heading) && heading@ == "step 2 api call failed for tool "@
                + function_name@,
        },
{
    match response {
        Some(answer) => {
            let id = answer.id.clone();
            if let Some(said) = leading_assistant_text(&answer.output) {
                return Ok((said, id));
            }
            let mut out = "i used the ".to_owned();
            out.append(function_name);
            out.append(" tool, but couldn't form a final summary in the expected format.");
            Ok((out, id))
        },
        None => {
            let mut heading = "step 2 api call failed for tool ".to_owned();
            heading.append(function_name);
            Err(heading)
        },
    }
}

/// What was said to the model before is said again, in order, and behind it the call that it made,
/// with its name, ids and arguments, and what the call gave, under the call's id.
pub proof fn law_the_call_is_told_behind_what_was_said(step2: ToolStep2Context)
    ensures
        ({
            let before = step2.original_input_items@;
            let input = step2_input(step2);
            &&& input.len() == before.len() + 2
            &&& forall|i: int| 0 <= i < before.len() ==> #[trigger] input[i] == before[i]@
            &&& input[before.len() as int] == InputItem::Message(
                types::InputMessageObject {
                    role: "assistant"@,
                    content: "tool_call: name="@ + step2.function_name@ + ", id="@
                        + step2.function_id@ + ", call_id="@ + step2.function_call_id@ + ", args="@
                        + step2.function_arguments@,
                },
            )
            &&& input[before.len() as int + 1] == InputItem::FunctionCallOutput(
                types::FunctionCallOutputItem {
                    kind: "function_call_output"@,
                    call_id: step2.function_call_id@,
                    output: step2.tool_output_json_string@,
                },
            )
        }),
{
}

/// The second request follows on the response that made the call, and offers and instructs as the
/// first one did.
pub proof fn law_the_second_request_follows_on_the_first(
    model_id: Seq<char>,
    step2: ToolStep2Context,
)
    ensures
        ({
            let args = step2_args_view(model_id, step2);
            &&& args.model_id == model_id
            &&& args.previous_response_id == Some(step2.initial_api_response_id@)
            &&& args.tools == Some(types::tool_views(step2.available_tools@))
            &&& args.instructions == Some(step2.instructions@)
            &&& args.store is None && args.tool_choice is None && args.temperature is None
                && args.verbosity is None && args.reasoning_effort is None
        }),
{
}

/// The final text is the one that the assistant leads with; where the answer leads with anything
/// else, it is said which tool was used and that no summary came of it.
pub proof fn law_the_leading_text_is_the_last_word(name: Seq<char>, output: Seq<OutputItem>)
    ensures
        leading_text(seq![]) is None,
        output.len() > 0 ==> leading_text(output) == match output[0] {
            OutputItem::Message(m) => if m.role@ == "assistant"@ && m.content@.len() > 0
                && m.content@[0].kind@ == "output_text"@ {
                Some(m.content@[0].text@)
            } else {
                None
            },
            _ => None,
        },
        leading_text(output) matches Some(said) ==> step2_text(name, output) == said,
        leading_text(output) is None ==> step2_text(name, output) == "i used the "@ + name
            + " tool, but couldn't form a final summary in the expected format."@,
{
}

} // verus!
