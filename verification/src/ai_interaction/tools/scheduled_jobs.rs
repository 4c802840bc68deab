//! The tool that manages the scheduled jobs of a chat.

use super::function_tool;
use crate::json;
use crate::json::{
    array_value, bool_value, error_reply, get_text, integer_value, new_members, object_value, parse,
    put, put_text, reply_members, status_reply, unsigned_value, write_members,
};
use crate::openai_api::types;
use crate::openai_api::types::{
    ToolDefinition, ToolFunctionParameterPropertyBuilder, ToolProperties,
};
use crate::scheduler::cron;
use crate::scheduler::cron::parse_error;
use crate::scheduler::types::ScheduledJob;
use crate::text;
use crate::text::{join_texts, same_text};
use vstd::prelude::*;

verus! {

pub const SCHEDULED_JOBS_TOOL_NAME: &'static str = "scheduled_jobs";

/// The tool: a command, and of the job what the command needs.
pub open spec fn tool_view() -> types::ToolView {
    super::tool_with(
        "scheduled_jobs"@,
        "Manages scheduled jobs for this chat. Jobs run on a cron schedule and send the specified prompt to the AI, with the response sent back to this chat."@,
        types::with_property(
            types::with_property(
                types::with_property(
                    types::with_property(
                        seq![],
                        (
                            "command"@,
                            super::choice(
                                "The operation to perform: 'list' to show all scheduled jobs, 'add' to create a new job, 'edit' to modify an existing job's schedule or prompt, 'delete' to remove a job, 'enable' or 'disable' to toggle a job's active status."@,
                                seq![
                                    "list"@,
                                    "add"@,
                                    "edit"@,
                                    "delete"@,
                                    "enable"@,
                                    "disable"@,
                                ],
                            ),
                        ),
                    ),
                    (
                        "name"@,
                        super::described(
                            "string"@,
                            "The unique name for the scheduled job. Required for add/edit/delete/enable/disable commands."@,
                        ),
                    ),
                ),
                (
                    "cron_schedule"@,
                    super::described(
                        "string"@,
                        "Cron schedule expression (e.g., '0 9 * * *' for daily at 9am UTC, '*/5 * * * *' for every 5 minutes). Required for add command, optional for edit command."@,
                    ),
                ),
            ),
            (
                "prompt"@,
                super::described(
                    "string"@,
                    "The prompt to send to the AI when the scheduled job runs. Required for add command, optional for edit command."@,
                ),
            ),
        ),
    )
}

/// The tool: a command, and of the job what the command needs.
pub fn scheduled_jobs_tool() -> (r: ToolDefinition)
    ensures
        r@ == tool_view(),
{
    let commands = ["list", "add", "edit", "delete", "enable", "disable"];
    let command = ToolFunctionParameterPropertyBuilder::new_string().description(
        "The operation to perform: 'list' to show all scheduled jobs, 'add' to create a new job, 'edit' to modify an existing job's schedule or prompt, 'delete' to remove a job, 'enable' or 'disable' to toggle a job's active status.",
    ).enum_string(&commands).build();
    proof {
        assert(types::slice_texts(commands@) =~= seq![
            "list"@,
            "add"@,
            "edit"@,
            "delete"@,
            "enable"@,
            "disable"@,
        ]);
    }
    let name = ToolFunctionParameterPropertyBuilder::new_string().description(
        "The unique name for the scheduled job. Required for add/edit/delete/enable/disable commands.",
    ).build();
    let schedule = ToolFunctionParameterPropertyBuilder::new_string().description(
        "Cron schedule expression (e.g., '0 9 * * *' for daily at 9am UTC, '*/5 * * * *' for every 5 minutes). Required for add command, optional for edit command.",
    ).build();
    let prompt = ToolFunctionParameterPropertyBuilder::new_string().description(
        "The prompt to send to the AI when the scheduled job runs. Required for add command, optional for edit command.",
    ).build();
    let properties = ToolProperties::new().insert("command", command).insert("name", name).insert(
        "cron_schedule",
        schedule,
    ).insert("prompt", prompt);
    function_tool(
        SCHEDULED_JOBS_TOOL_NAME,
        "Manages scheduled jobs for this chat. Jobs run on a cron schedule and send the specified prompt to the AI, with the response sent back to this chat.",
        properties,
    )
}

// ---------------------------------------------------------------------------------------------
// What a call asks for

/// What a call asks of the stored jobs of the chat.
#[allow(inconsistent_fields)]
pub enum JobsRequest<S = String> {
    List,
    Add { name: S, cron_schedule: S, prompt: S },
    Edit { name: S, cron_schedule: Option<S>, prompt: Option<S> },
    Delete { name: S },
    SetEnabled { name: S, enabled: bool },
}

/// What the tool does next: look into the stored jobs of a chat, or of a thread of it, or reply.
pub enum JobsStep {
    Store { chat_id: i64, thread_id: Option<i64>, request: JobsRequest },
    Reply(String),
}

/// The request behind its strings.
pub open spec fn request_view(request: JobsRequest) -> JobsRequest<Seq<char>> {
    match request {
        JobsRequest::List => JobsRequest::List,
        JobsRequest::Add { name, cron_schedule, prompt } => JobsRequest::Add {
            name: name@,
            cron_schedule: cron_schedule@,
            prompt: prompt@,
        },
        JobsRequest::Edit { name, cron_schedule, prompt } => JobsRequest::Edit {
            name: name@,
            cron_schedule: text::text_view(cron_schedule),
            prompt: text::text_view(prompt),
        },
        JobsRequest::Delete { name } => JobsRequest::Delete { name: name@ },
        JobsRequest::SetEnabled { name, enabled } => JobsRequest::SetEnabled {
            name: name@,
            enabled,
        },
    }
}

/// A text under a name that is there and not empty.
pub open spec fn given(args: json::Json, name: Seq<char>) -> Option<Seq<char>> {
    match json::text_member(args, name) {
        Some(s) => if s.len() > 0 {
            Some(s)
        } else {
            None
        },
        None => None,
    }
}

/// The reply where a command lacks a parameter.
pub open spec fn missing_json(parameter: Seq<char>, command: Seq<char>) -> json::Json {
    json::error_json(
        "missing_parameter"@,
        "'"@ + parameter + "' is required for "@ + command + " command"@,
    )
}

/// The reply where a schedule is none.
pub open spec fn bad_schedule_json(schedule: Seq<char>, error: Seq<char>) -> json::Json {
    json::error_json(
        "invalid_cron_schedule"@,
        "Invalid cron expression '"@ + schedule + "': "@ + error,
    )
}

/// What the command to add a job asks for, or the reply. `error` is what is wrong with the
/// schedule.
pub open spec fn add_request(
    args: json::Json,
    error: Option<Seq<char>>,
) -> Result<JobsRequest<Seq<char>>, json::Json> {
    match given(args, "name"@) {
        None => Err(missing_json("name"@, "add"@)),
        Some(name) => match given(args, "cron_schedule"@) {
            None => Err(missing_json("cron_schedule"@, "add"@)),
            Some(cron_schedule) => match given(args, "prompt"@) {
                None => Err(missing_json("prompt"@, "add"@)),
                Some(prompt) => match error {
                    Some(e) => Err(bad_schedule_json(cron_schedule, e)),
                    None => Ok(JobsRequest::Add { name, cron_schedule, prompt }),
                },
            },
        },
    }
}

/// What the command to edit a job asks for, or the reply. `error` is what is wrong with the
/// schedule.
pub open spec fn edit_request(
    args: json::Json,
    error: Option<Seq<char>>,
) -> Result<JobsRequest<Seq<char>>, json::Json> {
    let cron_schedule = given(args, "cron_schedule"@);
    let prompt = given(args, "prompt"@);
    match given(args, "name"@) {
        None => Err(missing_json("name"@, "edit"@)),
        Some(name) => if cron_schedule is None && prompt is None {
            Err(
                json::error_json(
                    "missing_parameter"@,
                    "At least one of 'cron_schedule' or 'prompt' must be provided for edit command"@,
                ),
            )
        } else if cron_schedule is Some && error is Some {
            Err(bad_schedule_json(cron_schedule->0, error->0))
        } else {
            Ok(JobsRequest::Edit { name, cron_schedule, prompt })
        },
    }
}

/// What is wrong with the schedule that arguments give, if they give one.
pub open spec fn schedule_error(args: json::Json) -> Option<Seq<char>> {
    match given(args, "cron_schedule"@) {
        Some(schedule) => cron::cron_error(schedule),
        None => None,
    }
}

/// What a command that needs only the name of a job asks for, or the reply.
pub open spec fn named_request(args: json::Json, command: Seq<char>) -> Result<
    Seq<char>,
    json::Json,
> {
    match given(args, "name"@) {
        None => Err(missing_json("name"@, command)),
        Some(name) => Ok(name),
    }
}

/// What a command asks for, or the reply. `error` is what is wrong with the schedule.
pub open spec fn command_request(
    args: json::Json,
    error: Option<Seq<char>>,
) -> Result<JobsRequest<Seq<char>>, json::Json> {
    let command = match json::text_member(args, "command"@) {
        Some(s) => s,
        None => seq![],
    };
    if command == "list"@ {
        Ok(JobsRequest::List)
    } else if command == "add"@ {
        add_request(args, error)
    } else if command == "edit"@ {
        edit_request(args, error)
    } else if command == "delete"@ {
        match named_request(args, "delete"@) {
            Ok(name) => Ok(JobsRequest::Delete { name }),
            Err(reply) => Err(reply),
        }
    } else if command == "enable"@ {
        match named_request(args, "enable"@) {
            Ok(name) => Ok(JobsRequest::SetEnabled { name, enabled: true }),
            Err(reply) => Err(reply),
        }
    } else if command == "disable"@ {
        match named_request(args, "disable"@) {
            Ok(name) => Ok(JobsRequest::SetEnabled { name, enabled: false }),
            Err(reply) => Err(reply),
        }
    } else {
        Err(json::error_json("unknown_command"@, "unknown command: '"@ + command + "'"@))
    }
}

/// The result with its request as texts, its reply written.
pub open spec fn request_matches(
    result: Result<JobsRequest, String>,
    wanted: Result<JobsRequest<Seq<char>>, json::Json>,
) -> bool {
    match wanted {
        Ok(request) => result matches Ok(r) && request_view(r) == request,
        Err(reply) => result matches Err(r) && json::writes(r@, reply),
    }
}

fn given_text<'a>(args: &'a serde_json::Value, name: &str) -> (r: Option<&'a str>)
    ensures
        text::slice_view(r) == given(json::json_of(*args), name@),
{
    match get_text(args, name) {
        Some(s) => if s.is_empty() {
            None
        } else {
            Some(s)
        },
        None => None,
    }
}

fn missing_reply(parameter: &str, command: &str) -> (r: String)
    ensures
        json::writes(r@, missing_json(parameter@, command@)),
{
    let mut details = "'".to_owned();
    details.append(parameter);
    details.append("' is required for ");
    details.append(command);
    details.append(" command");
    error_reply("missing_parameter", details.as_str())
}

fn bad_schedule_reply(schedule: &str, error: &str) -> (r: String)
    ensures
        json::writes(r@, bad_schedule_json(schedule@, error@)),
{
    let mut details = "Invalid cron expression '".to_owned();
    details.append(schedule);
    details.append("': ");
    details.append(error);
    error_reply("invalid_cron_schedule", details.as_str())
}

/// Reads what the command to add a job asks for, given what is wrong with the schedule.
pub fn execute_add(args: &serde_json::Value, error: Option<String>) -> (r: Result<
    JobsRequest,
    String,
>)
    ensures
        request_matches(r, add_request(json::json_of(*args), text::text_view(error))),
{
    let name = match given_text(args, "name") {
        Some(s) => s,
        None => {
            return Err(missing_reply("name", "add"));
        },
    };
    let schedule = match given_text(args, "cron_schedule") {
        Some(s) => s,
        None => {
            return Err(missing_reply("cron_schedule", "add"));
        },
    };
    let prompt = match given_text(args, "prompt") {
        Some(s) => s,
        None => {
            return Err(missing_reply("prompt", "add"));
        },
    };
    match error {
        Some(e) => Err(bad_schedule_reply(schedule, e.as_str())),
        None => Ok(
            JobsRequest::Add {
                name: name.to_owned(),
                cron_schedule: schedule.to_owned(),
                prompt: prompt.to_owned(),
            },
        ),
    }
}

fn owned(text: Option<&str>) -> (r: Option<String>)
    ensures
        text::text_view(r) == text::slice_view(text),
{
    match text {
        Some(s) => Some(s.to_owned()),
        None => None,
    }
}

/// Reads what the command to edit a job asks for, given what is wrong with the schedule.
pub fn execute_edit(args: &serde_json::Value, error: Option<String>) -> (r: Result<
    JobsRequest,
    String,
>)
    ensures
        request_matches(r, edit_request(json::json_of(*args), text::text_view(error))),
{
    let name = match given_text(args, "name") {
        Some(s) => s,
        None => {
            return Err(missing_reply("name", "edit"));
        },
    };
    let schedule = given_text(args, "cron_schedule");
    let prompt = given_text(args, "prompt");
    if schedule.is_none() && prompt.is_none() {
        return Err(
            error_reply(
                "missing_parameter",
                "At least one of 'cron_schedule' or 'prompt' must be provided for edit command",
            ),
        );
    }
    match (schedule, error) {
        (Some(s), Some(e)) => Err(bad_schedule_reply(s, e.as_str())),
        _ => Ok(
            JobsRequest::Edit {
                name: name.to_owned(),
                cron_schedule: owned(schedule),
                prompt: owned(prompt),
            },
        ),
    }
}

fn named(args: &serde_json::Value, command: &str) -> (r: Result<String, String>)
    ensures
        match named_request(json::json_of(*args), command@) {
            Ok(name) => r matches Ok(n) && n@ == name,
            Err(reply) => r matches Err(text) && json::writes(text@, reply),
        },
{
    match given_text(args, "name") {
        Some(s) => Ok(s.to_owned()),
        None => Err(missing_reply("name", command)),
    }
}

/// Reads what the command to delete a job asks for.
pub fn execute_delete(args: &serde_json::Value) -> (r: Result<JobsRequest, String>)
    ensures
        request_matches(
            r,
            match named_request(json::json_of(*args), "delete"@) {
                Ok(name) => Ok(JobsRequest::Delete { name }),
                Err(reply) => Err(reply),
            },
        ),
{
    match named(args, "delete") {
        Ok(name) => Ok(JobsRequest::Delete { name }),
        Err(reply) => Err(reply),
    }
}

/// Reads what the commands to enable and to disable a job ask for.
pub fn execute_set_enabled(args: &serde_json::Value, enabled: bool) -> (r: Result<
    JobsRequest,
    String,
>)
    ensures
        request_matches(
            r,
            match named_request(
                json::json_of(*args),
                if enabled {
                    "enable"@
                } else {
                    "disable"@
                },
            ) {
                Ok(name) => Ok(JobsRequest::SetEnabled { name, enabled }),
                Err(reply) => Err(reply),
            },
        ),
{
    let command = if enabled {
        "enable"
    } else {
        "disable"
    };
    match named(args, command) {
        Ok(name) => Ok(JobsRequest::SetEnabled { name, enabled }),
        Err(reply) => Err(reply),
    }
}

/// Reads what a command asks for, given what is wrong with the schedule.
pub fn read_command(args: &serde_json::Value, error: Option<String>) -> (r: Result<
    JobsRequest,
    String,
>)
    ensures
        request_matches(r, command_request(json::json_of(*args), text::text_view(error))),
{
    let command = match get_text(args, "command") {
        Some(s) => s,
        None => {
            proof {
                reveal_strlit("");
                assert(""@ =~= Seq::<char>::empty());
            }
            ""
        },
    };
    if same_text(command, "list") {
        Ok(JobsRequest::List)
    } else if same_text(command, "add") {
        execute_add(args, error)
    } else if same_text(command, "edit") {
        execute_edit(args, error)
    } else if same_text(command, "delete") {
        execute_delete(args)
    } else if same_text(command, "enable") {
        execute_set_enabled(args, true)
    } else if same_text(command, "disable") {
        execute_set_enabled(args, false)
    } else {
        let mut details = "unknown command: '".to_owned();
        details.append(command);
        details.append("'");
        Err(error_reply("unknown_command", details.as_str()))
    }
}

/// What a call asks for, or the reply: it needs a chat, and arguments that can be read.
pub open spec fn jobs_request(
    chat_id: Option<i64>,
    arguments: Result<json::Json, Seq<char>>,
) -> Result<JobsRequest<Seq<char>>, json::Json> {
    if chat_id is None {
        Err(
            json::status_json(
                "error"@,
                "cannot manage scheduled jobs: no chat context available"@,
            ),
        )
    } else {
        match arguments {
            Err(error) => Err(
                json::error_json(
                    "malformed_json"@,
                    "failed to parse arguments JSON: "@ + error,
                ),
            ),
            Ok(args) => command_request(args, schedule_error(args)),
        }
    }
}

/// Starts the tool: only the jobs of the chat and the thread it is called in are looked into.
pub fn execute_scheduled_jobs(
    telegram_chat_id: Option<i64>,
    message_thread_id: Option<i64>,
    arguments_json_str: &str,
) -> (r: JobsStep)
    ensures
        match jobs_request(telegram_chat_id, json::parsed_json(arguments_json_str@)) {
            Ok(wanted) => r matches JobsStep::Store { chat_id, thread_id, request }
                && telegram_chat_id == Some(chat_id) && thread_id == message_thread_id
                && request_view(request) == wanted,
            Err(reply) => r matches JobsStep::Reply(text) && json::writes(text@, reply),
        },
{
    let chat_id = match telegram_chat_id {
        Some(id) => id,
        None => {
            return JobsStep::Reply(
                status_reply("error", "cannot manage scheduled jobs: no chat context available"),
            );
        },
    };
    let args = match parse(arguments_json_str) {
        Ok(v) => v,
        Err(error) => {
            let mut details = "failed to parse arguments JSON: ".to_owned();
            details.append(error.as_str());
            return JobsStep::Reply(error_reply("malformed_json", details.as_str()));
        },
    };
    let error = match given_text(&args, "cron_schedule") {
        Some(schedule) => parse_error(schedule),
        None => None,
    };
    match read_command(&args, error) {
        Ok(request) => JobsStep::Store { chat_id, thread_id: message_thread_id, request },
        Err(reply) => JobsStep::Reply(reply),
    }
}

/// No job is ever stored or changed with a schedule that is none, and every stored job has a name
/// and, when it is added, a prompt.
pub proof fn law_stored_jobs_are_complete(
    chat_id: Option<i64>,
    arguments: Result<json::Json, Seq<char>>,
)
    ensures
        match jobs_request(chat_id, arguments) {
            Ok(JobsRequest::Add { name, cron_schedule, prompt }) => cron::cron_error(
                cron_schedule,
            ) is None && name.len() > 0 && cron_schedule.len() > 0 && prompt.len() > 0,
            Ok(JobsRequest::Edit { name, cron_schedule, prompt }) => name.len() > 0 && (
            cron_schedule matches Some(s) ==> s.len() > 0 && cron::cron_error(s) is None) && (
            cron_schedule is Some || prompt is Some),
            Ok(JobsRequest::Delete { name }) => name.len() > 0,
            Ok(JobsRequest::SetEnabled { name, .. }) => name.len() > 0,
            _ => true,
        },
{
}

// ---------------------------------------------------------------------------------------------
// What came of it

/// A reply about the database.
pub open spec fn database_error_json(what: Seq<char>, error: Seq<char>) -> json::Json {
    json::error_json("database_error"@, what + error)
}

fn database_error_reply(what: &str, error: &str) -> (r: String)
    ensures
        json::writes(r@, database_error_json(what@, error@)),
{
    let mut details = what.to_owned();
    details.append(error);
    error_reply("database_error", details.as_str())
}

/// How a job is shown.
pub open spec fn job_json(job: ScheduledJob) -> json::Json {
    json::Json::Object(
        json::no_members().insert("name"@, json::Json::Text(job.name@)).insert(
            "cron_schedule"@,
            json::Json::Text(job.cron_schedule@),
        ).insert("prompt"@, json::Json::Text(job.prompt@)).insert(
            "enabled"@,
            json::Json::Bool(job.enabled),
        ),
    )
}

/// How jobs are shown.
pub open spec fn jobs_json(jobs: Seq<ScheduledJob>) -> json::Json {
    json::Json::Object(
        json::no_members().insert("status"@, json::Json::Text("success"@)).insert(
            "jobs"@,
            json::Json::Array(jobs.map_values(|job: ScheduledJob| job_json(job))),
        ).insert("count"@, json::Json::Integer(jobs.len() as int)),
    )
}

/// The reply with the jobs of the chat.
pub fn list_reply(result: Result<Vec<ScheduledJob>, String>) -> (r: String)
    ensures
        json::writes(
            r@,
            match result {
                Ok(jobs) => jobs_json(jobs@),
                Err(error) => database_error_json("failed to fetch scheduled jobs: "@, error@),
            },
        ),
{
    match result {
        Ok(jobs) => {
            let mut values: Vec<serde_json::Value> = Vec::new();
            let mut i: usize = 0;
            while i < jobs.len()
                invariant
                    i <= jobs@.len(),
                    values@.len() == i,
                    forall|j: int|
                        0 <= j < i ==> json::json_of(#[trigger] values@[j]) == job_json(jobs@[j]),
                decreases jobs@.len() - i,
            {
                let job = &jobs[i];
                let mut members = new_members();
                put_text(&mut members, "name", job.name.as_str());
                put_text(&mut members, "cron_schedule", job.cron_schedule.as_str());
                put_text(&mut members, "prompt", job.prompt.as_str());
                put(&mut members, "enabled", bool_value(job.enabled));
                values.push(object_value(members));
                i += 1;
            }
            proof {
                assert(json::jsons(values@) =~= jobs@.map_values(
                    |job: ScheduledJob| job_json(job),
                ));
            }
            let mut reply = new_members();
            put_text(&mut reply, "status", "success");
            put(&mut reply, "jobs", array_value(values));
            put(&mut reply, "count", unsigned_value(jobs.len() as u64));
            write_members(reply)
        },
        Err(error) => database_error_reply("failed to fetch scheduled jobs: ", error.as_str()),
    }
}

/// The reply once a job was added.
pub open spec fn added_json(name: Seq<char>, schedule: Seq<char>, job_id: i32) -> json::Json {
    json::Json::Object(
        json::status_members(
            "success"@,
            "Created scheduled job '"@ + name + "' with schedule '"@ + schedule + "'"@,
        ).insert("job_id"@, json::Json::Integer(job_id as int)),
    )
}

/// The reply to the command to add a job.
pub fn add_reply(name: &str, schedule: &str, result: Result<i32, String>) -> (r: String)
    ensures
        json::writes(
            r@,
            match result {
                Ok(job_id) => added_json(name@, schedule@, job_id),
                Err(error) => database_error_json("failed to create scheduled job: "@, error@),
            },
        ),
{
    match result {
        Ok(job_id) => {
            let mut message = "Created scheduled job '".to_owned();
            message.append(name);
            message.append("' with schedule '");
            message.append(schedule);
            message.append("'");
            let mut members = reply_members("success", message.as_str());
            put(&mut members, "job_id", integer_value(job_id as i64));
            write_members(members)
        },
        Err(error) => database_error_reply("failed to create scheduled job: ", error.as_str()),
    }
}

/// The reply where the chat has no job of a name.
pub open spec fn not_found_json(name: Seq<char>) -> json::Json {
    json::error_json("not_found"@, "No scheduled job named '"@ + name + "' found in this chat"@)
}

fn not_found_reply(name: &str) -> (r: String)
    ensures
        json::writes(r@, not_found_json(name@)),
{
    let mut details = "No scheduled job named '".to_owned();
    details.append(name);
    details.append("' found in this chat");
    error_reply("not_found", details.as_str())
}

/// What an edit changed.
pub open spec fn changes(schedule: Option<Seq<char>>, prompt: bool) -> Seq<Seq<char>> {
    (match schedule {
        Some(s) => seq!["schedule: '"@ + s + "'"@],
        None => seq![],
    }) + (if prompt {
        seq!["prompt"@]
    } else {
        seq![]
    })
}

/// The reply once a job was changed.
pub open spec fn edited_json(
    name: Seq<char>,
    schedule: Option<Seq<char>>,
    prompt: bool,
) -> json::Json {
    json::status_json(
        "success"@,
        "Updated scheduled job '"@ + name + "' ("@ + text::join(changes(schedule, prompt), ", "@)
            + ")"@,
    )
}

/// The reply to the command to edit a job, where `result` tells whether there was one.
pub fn edit_reply(
    name: &str,
    schedule: &Option<String>,
    prompt: bool,
    result: Result<bool, String>,
) -> (r: String)
    ensures
        json::writes(
            r@,
            match result {
                Ok(true) => edited_json(name@, text::text_view(*schedule), prompt),
                Ok(false) => not_found_json(name@),
                Err(error) => database_error_json("failed to update scheduled job: "@, error@),
            },
        ),
{
    match result {
        Ok(true) => {
            let mut list: Vec<String> = Vec::new();
            if let Some(s) = schedule {
                let mut change = "schedule: '".to_owned();
                change.append(s.as_str());
                change.append("'");
                list.push(change);
            }
            if prompt {
                list.push("prompt".to_owned());
            }
            proof {
                assert(text::texts(list@) =~= changes(text::text_view(*schedule), prompt));
            }
            let mut message = "Updated scheduled job '".to_owned();
            message.append(name);
            message.append("' (");
            message.append(join_texts(&list, ", ").as_str());
            message.append(")");
            status_reply("success", message.as_str())
        },
        Ok(false) => not_found_reply(name),
        Err(error) => database_error_reply("failed to update scheduled job: ", error.as_str()),
    }
}

/// The reply to the command to delete a job, where `result` tells whether there was one.
pub fn delete_reply(name: &str, result: Result<bool, String>) -> (r: String)
    ensures
        json::writes(
            r@,
            match result {
                Ok(true) => json::status_json(
                    "success"@,
                    "Deleted scheduled job '"@ + name@ + "'"@,
                ),
                Ok(false) => not_found_json(name@),
                Err(error) => database_error_json("failed to delete scheduled job: "@, error@),
            },
        ),
{
    match result {
        Ok(true) => {
            let mut message = "Deleted scheduled job '".to_owned();
            message.append(name);
            message.append("'");
            status_reply("success", message.as_str())
        },
        Ok(false) => not_found_reply(name),
        Err(error) => database_error_reply("failed to delete scheduled job: ", error.as_str()),
    }
}

/// The reply to the commands to enable and to disable a job, where `result` tells whether there
/// was one.
pub fn set_enabled_reply(name: &str, enabled: bool, result: Result<bool, String>) -> (r: String)
    ensures
        json::writes(
            r@,
            match result {
                Ok(true) => json::status_json(
                    "success"@,
                    "Scheduled job '"@ + name@ + "' has been "@ + if enabled {
                        "enabled"@
                    } else {
                        "disabled"@
                    },
                ),
                Ok(false) => not_found_json(name@),
                Err(error) => database_error_json("failed to update scheduled job: "@, error@),
            },
        ),
{
    match result {
        Ok(true) => {
            let mut message = "Scheduled job '".to_owned();
            message.append(name);
            message.append("' has been ");
            if enabled {
                message.append("enabled");
            } else {
                message.append("disabled");
            }
            status_reply("success", message.as_str())
        },
        Ok(false) => not_found_reply(name),
        Err(error) => database_error_reply("failed to update scheduled job: ", error.as_str()),
    }
}

// ---------------------------------------------------------------------------------------------
// Laws

proof fn lemma_member_names()
    ensures
        "name"@ != "cron_schedule"@,
        "name"@ != "prompt"@,
        "name"@ != "enabled"@,
        "cron_schedule"@ != "prompt"@,
        "cron_schedule"@ != "enabled"@,
        "prompt"@ != "enabled"@,
        "status"@ != "jobs"@,
        "status"@ != "count"@,
        "jobs"@ != "count"@,
        "status"@ != "message"@,
        "status"@ != "details"@,
        "message"@ != "details"@,
        "job_id"@ != "status"@,
        "job_id"@ != "message"@,
{
    reveal_strlit("name");
    reveal_strlit("cron_schedule");
    reveal_strlit("prompt");
    reveal_strlit("enabled");
    reveal_strlit("status");
    reveal_strlit("jobs");
    reveal_strlit("count");
    reveal_strlit("message");
    reveal_strlit("details");
    reveal_strlit("job_id");
    assert("name"@.len() == 4);
    assert("jobs"@.len() == 4);
    assert("count"@.len() == 5);
    assert("prompt"@.len() == 6);
    assert("status"@[0] == 's');
    assert("job_id"@[0] == 'j');
    assert("enabled"@[0] == 'e');
    assert("message"@[0] == 'm');
    assert("details"@[0] == 'd');
    assert("cron_schedule"@.len() == 13);
}

proof fn lemma_command_names()
    ensures
        "list"@ != "add"@,
        "list"@ != "edit"@,
        "list"@ != "delete"@,
        "list"@ != "enable"@,
        "list"@ != "disable"@,
        "add"@ != "edit"@,
        "add"@ != "delete"@,
        "add"@ != "enable"@,
        "add"@ != "disable"@,
        "edit"@ != "delete"@,
        "edit"@ != "enable"@,
        "edit"@ != "disable"@,
        "delete"@ != "enable"@,
        "delete"@ != "disable"@,
        "enable"@ != "disable"@,
        "list"@ != Seq::<char>::empty(),
        "add"@ != Seq::<char>::empty(),
        "edit"@ != Seq::<char>::empty(),
        "delete"@ != Seq::<char>::empty(),
        "enable"@ != Seq::<char>::empty(),
        "disable"@ != Seq::<char>::empty(),
{
    reveal_strlit("list");
    reveal_strlit("add");
    reveal_strlit("edit");
    reveal_strlit("delete");
    reveal_strlit("enable");
    reveal_strlit("disable");
    assert("list"@.len() == 4);
    assert("list"@[0] == 'l');
    assert("add"@.len() == 3);
    assert("edit"@.len() == 4);
    assert("edit"@[0] == 'e');
    assert("delete"@[0] == 'd');
    assert("delete"@.len() == 6);
    assert("enable"@[0] == 'e');
    assert("enable"@.len() == 6);
    assert("disable"@.len() == 7);
}

/// Each listed object says of its job what is stored, and nothing else: there is one for each job,
/// in their order, with the job's name, schedule and prompt, and it is told as enabled just where
/// the job is enabled.
pub proof fn law_jobs_are_listed_as_stored(jobs: Seq<ScheduledJob>)
    ensures
        json::member(jobs_json(jobs), "status"@) == Some(json::Json::Text("success"@)),
        json::member(jobs_json(jobs), "count"@) == Some(json::Json::Integer(jobs.len() as int)),
        json::member(jobs_json(jobs), "jobs"@) matches Some(json::Json::Array(listed))
            && listed.len() == jobs.len() && forall|i: int|
            0 <= i < jobs.len() ==> {
                &&& json::member(#[trigger] listed[i], "name"@) == Some(
                    json::Json::Text(jobs[i].name@),
                )
                &&& json::member(listed[i], "cron_schedule"@) == Some(
                    json::Json::Text(jobs[i].cron_schedule@),
                )
                &&& json::member(listed[i], "prompt"@) == Some(json::Json::Text(jobs[i].prompt@))
                &&& json::member(listed[i], "enabled"@) == Some(
                    json::Json::Bool(jobs[i].enabled),
                )
                &&& listed[i] matches json::Json::Object(members) && members.dom()
                    == set!["name"@, "cron_schedule"@, "prompt"@, "enabled"@]
            },
{
    lemma_member_names();
    let listed = jobs.map_values(|job: ScheduledJob| job_json(job));
    assert forall|i: int| 0 <= i < jobs.len() implies (
    #[trigger] listed[i] matches json::Json::Object(members) && members.dom() == set![
        "name"@,
        "cron_schedule"@,
        "prompt"@,
        "enabled"@,
    ]) by {
        let members = listed[i]->Object_0;
        assert(members.dom() =~= set!["name"@, "cron_schedule"@, "prompt"@, "enabled"@]);
    }
}

/// The jobs are listed just where the command is the one that lists them.
pub proof fn law_jobs_are_listed_when_asked(chat_id: i64, args: json::Json)
    ensures
        jobs_request(Some(chat_id), Ok(args)) == Ok::<JobsRequest<Seq<char>>, json::Json>(
            JobsRequest::List,
        ) <==> json::text_member(args, "command"@) == Some("list"@),
{
    lemma_command_names();
}

/// A job is added just where the command is the one that adds, with a name, a schedule and a
/// prompt that are given and not empty and a schedule that is one, and it is added with these.
pub proof fn law_jobs_are_added_as_asked(
    chat_id: i64,
    args: json::Json,
    name: Seq<char>,
    cron_schedule: Seq<char>,
    prompt: Seq<char>,
)
    ensures
        jobs_request(Some(chat_id), Ok(args)) == Ok::<JobsRequest<Seq<char>>, json::Json>(
            JobsRequest::Add { name, cron_schedule, prompt },
        ) <==> {
            &&& json::text_member(args, "command"@) == Some("add"@)
            &&& json::text_member(args, "name"@) == Some(name) && name.len() > 0
            &&& json::text_member(args, "cron_schedule"@) == Some(cron_schedule)
                && cron_schedule.len() > 0
            &&& json::text_member(args, "prompt"@) == Some(prompt) && prompt.len() > 0
            &&& cron::cron_error(cron_schedule) is None
        },
{
    lemma_command_names();
}

/// Whether a call says a text under a name, which is not empty, or says none.
pub open spec fn says(args: json::Json, name: Seq<char>, said: Option<Seq<char>>) -> bool {
    match said {
        Some(s) => s.len() > 0 && json::text_member(args, name) == Some(s),
        None => json::text_member(args, name) matches Some(s) ==> s.len() == 0,
    }
}

/// A job is changed just where the command is the one that changes, with a name and a schedule or
/// a prompt or both, and a schedule that is one, and it is changed in these alone.
pub proof fn law_jobs_are_edited_as_asked(
    chat_id: i64,
    args: json::Json,
    name: Seq<char>,
    cron_schedule: Option<Seq<char>>,
    prompt: Option<Seq<char>>,
)
    ensures
        jobs_request(Some(chat_id), Ok(args)) == Ok::<JobsRequest<Seq<char>>, json::Json>(
            JobsRequest::Edit { name, cron_schedule, prompt },
        ) <==> {
            &&& json::text_member(args, "command"@) == Some("edit"@)
            &&& json::text_member(args, "name"@) == Some(name) && name.len() > 0
            &&& says(args, "cron_schedule"@, cron_schedule)
            &&& says(args, "prompt"@, prompt)
            &&& cron_schedule is Some || prompt is Some
            &&& cron_schedule matches Some(s) ==> cron::cron_error(s) is None
        },
{
    lemma_command_names();
    lemma_given(args, "cron_schedule"@, cron_schedule);
    lemma_given(args, "prompt"@, prompt);
}

proof fn lemma_given(args: json::Json, name: Seq<char>, said: Option<Seq<char>>)
    ensures
        given(args, name) == said <==> says(args, name, said),
{
}

/// A job is deleted just where the command is the one that deletes, and it is the one that is
/// named.
pub proof fn law_jobs_are_deleted_as_asked(chat_id: i64, args: json::Json, name: Seq<char>)
    ensures
        jobs_request(Some(chat_id), Ok(args)) == Ok::<JobsRequest<Seq<char>>, json::Json>(
            JobsRequest::Delete { name },
        ) <==> json::text_member(args, "command"@) == Some("delete"@) && json::text_member(
            args,
            "name"@,
        ) == Some(name) && name.len() > 0,
{
    lemma_command_names();
}

/// A job is switched on just where the command is the one that enables, and off just where it is
/// the one that disables, and it is the one that is named.
pub proof fn law_jobs_are_switched_as_asked(chat_id: i64, args: json::Json, name: Seq<char>)
    ensures
        jobs_request(Some(chat_id), Ok(args)) == Ok::<JobsRequest<Seq<char>>, json::Json>(
            JobsRequest::SetEnabled { name, enabled: true },
        ) <==> json::text_member(args, "command"@) == Some("enable"@) && json::text_member(
            args,
            "name"@,
        ) == Some(name) && name.len() > 0,
        jobs_request(Some(chat_id), Ok(args)) == Ok::<JobsRequest<Seq<char>>, json::Json>(
            JobsRequest::SetEnabled { name, enabled: false },
        ) <==> json::text_member(args, "command"@) == Some("disable"@) && json::text_member(
            args,
            "name"@,
        ) == Some(name) && name.len() > 0,
{
    lemma_command_names();
}

/// Where no chat is known, or the arguments cannot be read, nothing is asked of the stored jobs;
/// whatever is not asked of them is told as an error.
pub proof fn law_what_is_not_asked_is_told_as_an_error(
    chat_id: Option<i64>,
    arguments: Result<json::Json, Seq<char>>,
)
    ensures
        chat_id is None || arguments is Err ==> jobs_request(chat_id, arguments) is Err,
        jobs_request(chat_id, arguments) matches Err(reply) ==> json::member(reply, "status"@)
            == Some(json::Json::Text("error"@)),
{
    lemma_member_names();
}

/// Where a command lacks the name of a job, the reply says that the name is missing and for which
/// command; a command that there is not is told by its name.
pub proof fn law_what_is_missing_is_told(chat_id: i64, args: json::Json, command: Seq<char>)
    requires
        json::text_member(args, "command"@) == Some(command),
    ensures
        (command == "add"@ || command == "edit"@ || command == "delete"@ || command == "enable"@
            || command == "disable"@) && says(args, "name"@, None) ==> (jobs_request(
            Some(chat_id),
            Ok(args),
        ) matches Err(reply) && json::text_member(reply, "message"@) == Some(
            "missing_parameter"@,
        ) && json::text_member(reply, "details"@) == Some(
            "'"@ + "name"@ + "' is required for "@ + command + " command"@,
        )),
        command != "list"@ && command != "add"@ && command != "edit"@ && command != "delete"@
            && command != "enable"@ && command != "disable"@ ==> (jobs_request(
            Some(chat_id),
            Ok(args),
        ) matches Err(reply) && json::text_member(reply, "message"@) == Some("unknown_command"@)
            && json::text_member(reply, "details"@) == Some(
            "unknown command: '"@ + command + "'"@,
        )),
{
    lemma_member_names();
    lemma_command_names();
    lemma_given(args, "name"@, None);
}

/// A job that was added is told with its number, its name and its schedule; what an edit changed
/// is told, and nothing that it did not; a job that is not there is told by its name.
pub proof fn law_replies_tell_what_was_done(
    name: Seq<char>,
    schedule: Seq<char>,
    job_id: i32,
    error: Seq<char>,
    what: Seq<char>,
)
    ensures
        json::member(added_json(name, schedule, job_id), "status"@) == Some(
            json::Json::Text("success"@),
        ),
        json::member(added_json(name, schedule, job_id), "job_id"@) == Some(
            json::Json::Integer(job_id as int),
        ),
        json::text_member(added_json(name, schedule, job_id), "message"@) == Some(
            "Created scheduled job '"@ + name + "' with schedule '"@ + schedule + "'"@,
        ),
        json::text_member(edited_json(name, Some(schedule), true), "message"@) == Some(
            "Updated scheduled job '"@ + name + "' ("@ + ("schedule: '"@ + schedule + "'"@ + ", "@
                + "prompt"@) + ")"@,
        ),
        json::text_member(edited_json(name, Some(schedule), false), "message"@) == Some(
            "Updated scheduled job '"@ + name + "' ("@ + ("schedule: '"@ + schedule + "'"@) + ")"@,
        ),
        json::text_member(edited_json(name, None, true), "message"@) == Some(
            "Updated scheduled job '"@ + name + "' ("@ + "prompt"@ + ")"@,
        ),
        forall|s: Option<Seq<char>>, p: bool|
            json::text_member(#[trigger] edited_json(name, s, p), "status"@) == Some("success"@),
        json::text_member(not_found_json(name), "status"@) == Some("error"@),
        json::text_member(not_found_json(name), "details"@) == Some(
            "No scheduled job named '"@ + name + "' found in this chat"@,
        ),
        json::text_member(not_found_json(name), "message"@) == Some("not_found"@),
        json::text_member(database_error_json(what, error), "status"@) == Some("error"@),
        json::text_member(database_error_json(what, error), "message"@) == Some("database_error"@),
        json::text_member(database_error_json(what, error), "details"@) == Some(what + error),
{
    lemma_member_names();
    let one = changes(Some(schedule), false);
    let both = changes(Some(schedule), true);
    let other = changes(None, true);
    assert(one =~= seq!["schedule: '"@ + schedule + "'"@]);
    assert(other =~= seq!["prompt"@]);
    assert(both.drop_last() =~= one);
    assert(both.last() == "prompt"@);
    reveal_with_fuel(text::join, 2);
    assert(text::join(one, ", "@) == "schedule: '"@ + schedule + "'"@);
    assert(text::join(both, ", "@) =~= "schedule: '"@ + schedule + "'"@ + ", "@ + "prompt"@);
}

/// What stands for a request is that request, with each of its parts in its place.
pub proof fn law_views_keep_every_part(
    name: String,
    cron_schedule: String,
    prompt: String,
    schedule: Option<String>,
    text: Option<String>,
    enabled: bool,
)
    ensures
        request_view(JobsRequest::List) == JobsRequest::<Seq<char>>::List,
        request_view(JobsRequest::Add { name, cron_schedule, prompt }) == (JobsRequest::Add {
            name: name@,
            cron_schedule: cron_schedule@,
            prompt: prompt@,
        }),
        request_view(JobsRequest::Edit { name, cron_schedule: schedule, prompt: text })
            == (JobsRequest::Edit {
            name: name@,
            cron_schedule: text::text_view(schedule),
            prompt: text::text_view(text),
        }),
        request_view(JobsRequest::Delete { name }) == (JobsRequest::Delete { name: name@ }),
        request_view(JobsRequest::SetEnabled { name, enabled }) == (JobsRequest::SetEnabled {
            name: name@,
            enabled,
        }),
{
}

/// What a command comes to is what it asks for, or the reply where it asks for nothing.
pub proof fn law_commands_come_to_what_is_asked(
    result: Result<JobsRequest, String>,
    wanted: Result<JobsRequest<Seq<char>>, json::Json>,
)
    requires
        request_matches(result, wanted),
    ensures
        result is Ok <==> wanted is Ok,
        result is Ok ==> request_view(result->Ok_0) == wanted->Ok_0,
        result is Err ==> result->Err_0@ == json::json_text(wanted->Err_0),
{
}

/// The replies say what was done to the job that was named: switched on or off as asked, deleted, or
/// that there is none; what the database could not do is told with its error.
pub proof fn law_replies_follow_what_the_database_did(
    name: &str,
    jobs: Vec<ScheduledJob>,
    error: String,
    listed: String,
    enabled: String,
    disabled: String,
    not_switched: String,
    deleted: String,
    not_deleted: String,
    failed: String,
)
    requires
        call_ensures(list_reply, (Ok(jobs),), listed),
        call_ensures(set_enabled_reply, (name, true, Ok(true)), enabled),
        call_ensures(set_enabled_reply, (name, false, Ok(true)), disabled),
        call_ensures(set_enabled_reply, (name, true, Ok(false)), not_switched),
        call_ensures(delete_reply, (name, Ok(true)), deleted),
        call_ensures(delete_reply, (name, Ok(false)), not_deleted),
        call_ensures(delete_reply, (name, Err(error)), failed),
    ensures
        json::writes(listed@, jobs_json(jobs@)),
        json::writes(
            enabled@,
            json::status_json("success"@, "Scheduled job '"@ + name@ + "' has been "@ + "enabled"@),
        ),
        json::writes(
            disabled@,
            json::status_json("success"@, "Scheduled job '"@ + name@ + "' has been "@ + "disabled"@),
        ),
        json::writes(not_switched@, not_found_json(name@)),
        json::writes(
            deleted@,
            json::status_json("success"@, "Deleted scheduled job '"@ + name@ + "'"@),
        ),
        json::writes(not_deleted@, not_found_json(name@)),
        json::writes(
            failed@,
            database_error_json("failed to delete scheduled job: "@, error@),
        ),
{
}

/// What keeps a request from being made is told: arguments that cannot be read with their error, no
/// chat, a parameter that the command needs by its name, and a schedule that is none with what is
/// wrong with it.
pub proof fn law_each_failing_of_a_request_is_told(
    chat_id: i64,
    args: json::Json,
    name: Seq<char>,
    schedule: Seq<char>,
    prompt: Seq<char>,
    error: Seq<char>,
    wrong: Seq<char>,
)
    requires
        says(args, "name"@, Some(name)),
        cron::cron_error(schedule) == Some(wrong),
    ensures
        jobs_request(Some(chat_id), Err(error)) matches Err(reply) && json::text_member(
            reply,
            "message"@,
        ) == Some("malformed_json"@) && json::text_member(reply, "details"@) == Some(
            "failed to parse arguments JSON: "@ + error,
        ),
        jobs_request(None, Ok(args)) matches Err(reply) && json::text_member(reply, "message"@)
            == Some("cannot manage scheduled jobs: no chat context available"@),
        json::text_member(args, "command"@) == Some("add"@) && says(args, "cron_schedule"@, None)
            ==> (jobs_request(Some(chat_id), Ok(args)) matches Err(reply) && json::text_member(
            reply,
            "details"@,
        ) == Some("'"@ + "cron_schedule"@ + "' is required for "@ + "add"@ + " command"@)),
        json::text_member(args, "command"@) == Some("add"@) && says(
            args,
            "cron_schedule"@,
            Some(schedule),
        ) && says(args, "prompt"@, None) ==> (jobs_request(Some(chat_id), Ok(args)) matches Err(reply)
            && json::text_member(reply, "details"@) == Some(
            "'"@ + "prompt"@ + "' is required for "@ + "add"@ + " command"@,
        )),
        json::text_member(args, "command"@) == Some("edit"@) && says(args, "cron_schedule"@, None)
            && says(args, "prompt"@, None) ==> (jobs_request(Some(chat_id), Ok(args)) matches Err(
            reply,
        ) && json::text_member(reply, "message"@) == Some("missing_parameter"@)
            && json::text_member(reply, "details"@) == Some(
            "At least one of 'cron_schedule' or 'prompt' must be provided for edit command"@,
        )),
        (json::text_member(args, "command"@) == Some("add"@) && says(args, "prompt"@, Some(prompt))
            || json::text_member(args, "command"@) == Some("edit"@)) && says(
            args,
            "cron_schedule"@,
            Some(schedule),
        ) ==> (jobs_request(Some(chat_id), Ok(args)) matches Err(reply) && json::text_member(
            reply,
            "message"@,
        ) == Some("invalid_cron_schedule"@) && json::text_member(reply, "details"@) == Some(
            "Invalid cron expression '"@ + schedule + "': "@ + wrong,
        )),
{
    lemma_member_names();
    lemma_command_names();
    lemma_given(args, "name"@, Some(name));
    lemma_given(args, "cron_schedule"@, Some(schedule));
    lemma_given(args, "cron_schedule"@, None);
    lemma_given(args, "prompt"@, Some(prompt));
    lemma_given(args, "prompt"@, None);
}

} // verus!
