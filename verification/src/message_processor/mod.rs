//! A small conversation with the model: few tools, and nothing but a reset to ask for.

pub mod openai_chat;
pub mod tools;

use crate::openai_api;
use crate::openai_api::types;
use crate::openai_api::types::{copy_tools, input_message, InputItem};
use crate::openai_api::CallResponsesApiOptionalArgs;
use crate::text;
use openai_chat::{OpenAiCallConfig, OPENAI_RESPONSES_MODEL_ID};
use vstd::prelude::*;

verus! {

/// What the first request says beside its input.
pub open spec fn first_request_args(
    config: OpenAiCallConfig,
    previous_response_id: Option<Seq<char>>,
) -> openai_api::ArgsView {
    openai_api::ArgsView {
        model_id: "gpt-4.1"@,
        previous_response_id,
        tools: Some(types::tool_views(config.available_tools@)),
        tool_choice: None,
        instructions: Some(config.instructions@),
        temperature: None,
        store: Some(true),
        verbosity: None,
        reasoning_effort: None,
    }
}

/// Starts a conversation: what goes to the model, and what the request says beside it.
pub fn drive_ai_conversation<'a>(
    config: &'a OpenAiCallConfig,
    prompt_text: &str,
    previous_response_id: Option<&'a str>,
) -> (r: (Vec<InputItem>, CallResponsesApiOptionalArgs<'a>))
    ensures
        types::item_views(r.0@) == seq![types::message_item("user"@, prompt_text@)],
        r.1@ == first_request_args(*config, text::slice_view(previous_response_id)),
{
    let mut input_items: Vec<InputItem> = Vec::new();
    input_items.push(input_message("user", prompt_text));
    proof {
        assert(types::item_views(input_items@) =~= seq![
            types::message_item("user"@, prompt_text@),
        ]);
    }
    let args = CallResponsesApiOptionalArgs {
        model_id: OPENAI_RESPONSES_MODEL_ID,
        previous_response_id,
        tools: Some(copy_tools(&config.available_tools)),
        tool_choice: None,
        instructions: Some(config.instructions.as_str()),
        temperature: None,
        store: Some(true),
        verbosity: None,
        reasoning_effort: None,
    };
    (input_items, args)
}

/// Starts a conversation of a single prompt, which follows none.
pub fn process_single_prompt_for_cli<'a>(config: &'a OpenAiCallConfig, prompt_text: &str) -> (r: (
    Vec<InputItem>,
    CallResponsesApiOptionalArgs<'a>,
))
    ensures
        types::item_views(r.0@) == seq![types::message_item("user"@, prompt_text@)],
        r.1@ == first_request_args(*config, None),
{
    drive_ai_conversation(config, prompt_text, None)
}

/// The first request offers all tools, instructs the model, is stored, and follows on the response
/// before it, where there is one.
pub proof fn law_the_first_request_says_what_the_conversation_is(
    config: OpenAiCallConfig,
    previous_response_id: Option<Seq<char>>,
)
    ensures
        ({
            let args = first_request_args(config, previous_response_id);
            &&& args.model_id == "gpt-4.1"@
            &&& args.previous_response_id == previous_response_id
            &&& args.tools == Some(types::tool_views(config.available_tools@))
            &&& args.instructions == Some(config.instructions@)
            &&& args.store == Some(true)
            &&& args.tool_choice is None && args.temperature is None && args.verbosity is None
                && args.reasoning_effort is None
        }),
{
}

} // verus!
