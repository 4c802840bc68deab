//! Running a scheduled job: its prompt goes to the model, outside of any conversation and without
//! the rights of an admin, and what comes of it goes to the job's chat.

use super::types::ScheduledJob;
use crate::ai_interaction::openai_chat;
use crate::ai_interaction::openai_chat::OpenAiCallConfig;
use crate::ai_interaction::{drive_ai_conversation, AiConversationOutcome, ConversationStart};
use crate::openai_api::types;
use vstd::prelude::*;

verus! {

/// How the messages of a job are marked up.
pub const JOB_PARSE_MODE: &'static str = "Markdown";

/// Starts the conversation of a job: its prompt, and the tools that are not only for admins.
pub fn start_scheduled_job(
    config: &OpenAiCallConfig,
    job: &ScheduledJob,
    current_model_id: &str,
) -> (r: ConversationStart)
    ensures
        types::item_views(r.input_items@) == seq![types::message_item("user"@, job.prompt@)],
        types::tool_views(r.tools@) == openai_chat::turn_tools(
            types::tool_views(config.available_tools@),
            false,
            current_model_id@,
        ),
{
    drive_ai_conversation(config, job.prompt.as_str(), current_model_id, false)
}

/// What a job's chat is sent: the text of the outcome, whatever it is. What an outcome asks to
/// change is not changed.
pub open spec fn job_text(outcome: AiConversationOutcome<Seq<char>>) -> Seq<char> {
    match outcome {
        AiConversationOutcome::TextMessage(text, _) => text,
        AiConversationOutcome::ResetConversation(text, _) => text,
        AiConversationOutcome::ChangeModel(text, _, _) => text,
        AiConversationOutcome::ChangeVerbosity(text, _, _) => text,
        AiConversationOutcome::ChangeReasoningEffort(text, _, _) => text,
        AiConversationOutcome::EndAdminSession(text, _) => text,
    }
}

/// What a job's chat is sent, from what its prompt came to.
pub fn execute_scheduled_job(outcome: AiConversationOutcome) -> (r: String)
    ensures
        r@ == job_text(outcome@),
{
    match outcome {
        AiConversationOutcome::TextMessage(text, _) => text,
        AiConversationOutcome::ResetConversation(text, _) => text,
        AiConversationOutcome::ChangeModel(text, _, _) => text,
        AiConversationOutcome::ChangeVerbosity(text, _, _) => text,
        AiConversationOutcome::ChangeReasoningEffort(text, _, _) => text,
        AiConversationOutcome::EndAdminSession(text, _) => text,
    }
}

/// Whatever the prompt of a job came to, its chat is sent the text that was said.
pub proof fn law_the_chat_is_sent_what_was_said(
    said: Seq<char>,
    id: Seq<char>,
    value: Seq<char>,
)
    ensures
        job_text(AiConversationOutcome::TextMessage(said, id)) == said,
        job_text(AiConversationOutcome::ResetConversation(said, id)) == said,
        job_text(AiConversationOutcome::ChangeModel(said, id, value)) == said,
        job_text(AiConversationOutcome::ChangeVerbosity(said, id, value)) == said,
        job_text(AiConversationOutcome::ChangeReasoningEffort(said, id, value)) == said,
        job_text(AiConversationOutcome::EndAdminSession(said, id)) == said,
{
}

} // verus!
