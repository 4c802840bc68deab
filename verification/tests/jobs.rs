//! Scheduled jobs: the tool that manages them, and when they run.

use lexi::ai_interaction::tools::scheduled_jobs::{
    add_reply, delete_reply, edit_reply, execute_scheduled_jobs, list_reply, set_enabled_reply,
    JobsRequest, JobsStep,
};
use lexi::ai_interaction::AiConversationOutcome;
use lexi::scheduler::executor::{execute_scheduled_job, start_scheduled_job};
use lexi::scheduler::service::{can_be_noted, failure_notice, should_run_job, Scheduler};
use lexi::scheduler::types::ScheduledJob;
use lexi::time::Timestamp;
use serde_json::Value;

fn read(text: &str) -> Value {
    serde_json::from_str(text).unwrap()
}

fn at(seconds: i64) -> Timestamp {
    Timestamp { seconds, nanos: 0 }
}

fn make_test_job(name: &str, enabled: bool) -> ScheduledJob {
    ScheduledJob {
        id: 1,
        name: name.to_string(),
        cron_schedule: "0 9 * * *".to_string(),
        prompt: "Test prompt".to_string(),
        telegram_chat_id: 123,
        message_thread_id: None,
        enabled,
        created_at: at(1_704_067_200),
        updated_at: at(1_704_067_200),
    }
}

fn asked(arguments: &str) -> JobsRequest {
    match execute_scheduled_jobs(Some(123), None, arguments) {
        JobsStep::Store { chat_id, thread_id, request } => {
            assert_eq!((chat_id, thread_id), (123, None));
            request
        }
        JobsStep::Reply(reply) => panic!("unexpected reply {reply}"),
    }
}

fn refused(chat_id: Option<i64>, arguments: &str) -> Value {
    match execute_scheduled_jobs(chat_id, None, arguments) {
        JobsStep::Store { .. } => panic!("the jobs would be looked into"),
        JobsStep::Reply(reply) => read(&reply),
    }
}

#[test]
fn test_list_jobs_success() {
    assert!(matches!(asked("{\"command\": \"list\"}"), JobsRequest::List));
    let parsed = read(&list_reply(Ok(vec![make_test_job("daily_check", true)])));
    assert_eq!(parsed["status"], "success");
    assert_eq!(parsed["count"], 1);
    assert!(parsed.to_string().contains("daily_check"));
}

#[test]
fn test_add_job_success() {
    match asked("{\"command\": \"add\", \"name\": \"test_job\", \"cron_schedule\": \"0 9 * * *\", \"prompt\": \"Check status\"}") {
        JobsRequest::Add { name, cron_schedule, prompt } => {
            assert_eq!(name, "test_job");
            assert_eq!(cron_schedule, "0 9 * * *");
            assert_eq!(prompt, "Check status");
        }
        _ => panic!("a job is to be added"),
    }
    let parsed = read(&add_reply("test_job", "0 9 * * *", Ok(1)));
    assert_eq!(parsed["status"], "success");
}

#[test]
fn test_add_job_invalid_cron() {
    let parsed = refused(Some(123), "{\"command\": \"add\", \"name\": \"test_job\", \"cron_schedule\": \"invalid\", \"prompt\": \"Check status\"}");
    assert_eq!(parsed["status"], "error");
    assert_eq!(parsed["message"], "invalid_cron_schedule");
}

#[test]
fn test_add_job_missing_name() {
    let parsed = refused(Some(123), "{\"command\": \"add\", \"cron_schedule\": \"0 9 * * *\", \"prompt\": \"Check status\"}");
    assert_eq!(parsed["status"], "error");
    assert_eq!(parsed["message"], "missing_parameter");
}

#[test]
fn test_delete_job_success() {
    match asked("{\"command\": \"delete\", \"name\": \"test_job\"}") {
        JobsRequest::Delete { name } => assert_eq!(name, "test_job"),
        _ => panic!("a job is to be deleted"),
    }
    assert_eq!(read(&delete_reply("test_job", Ok(true)))["status"], "success");
}

#[test]
fn test_delete_job_not_found() {
    let name = match asked("{\"command\": \"delete\", \"name\": \"nonexistent\"}") {
        JobsRequest::Delete { name } => name,
        _ => panic!("a job is to be deleted"),
    };
    assert_eq!(name, "nonexistent");
    let parsed = read(&delete_reply(&name, Ok(false)));
    assert_eq!(parsed["status"], "error");
    assert_eq!(parsed["message"], "not_found");
}

#[test]
fn test_enable_job_success() {
    match asked("{\"command\": \"enable\", \"name\": \"test_job\"}") {
        JobsRequest::SetEnabled { name, enabled } => {
            assert_eq!(name, "test_job");
            assert!(enabled);
        }
        _ => panic!("a job is to be enabled"),
    }
    assert_eq!(
        read(&set_enabled_reply("test_job", true, Ok(true)))["status"],
        "success"
    );
}

#[test]
fn test_disable_job_success() {
    match asked("{\"command\": \"disable\", \"name\": \"test_job\"}") {
        JobsRequest::SetEnabled { name, enabled } => {
            assert_eq!(name, "test_job");
            assert!(!enabled);
        }
        _ => panic!("a job is to be disabled"),
    }
    assert_eq!(
        read(&set_enabled_reply("test_job", false, Ok(true)))["status"],
        "success"
    );
}

#[test]
fn test_no_chat_context() {
    let parsed = refused(None, "{\"command\": \"list\"}");
    assert_eq!(parsed["status"], "error");
}

#[test]
fn test_malformed_json() {
    let parsed = refused(Some(123), "not valid json");
    assert_eq!(parsed["status"], "error");
    assert_eq!(parsed["message"], "malformed_json");
}

#[test]
fn test_unknown_command() {
    let parsed = refused(Some(123), "{\"command\": \"unknown\"}");
    assert_eq!(parsed["status"], "error");
    assert_eq!(parsed["message"], "unknown_command");
}

fn edited(arguments: &str) -> (String, Option<String>, Option<String>) {
    match asked(arguments) {
        JobsRequest::Edit { name, cron_schedule, prompt } => (name, cron_schedule, prompt),
        _ => panic!("a job is to be edited"),
    }
}

#[test]
fn test_edit_job_schedule_success() {
    let (name, schedule, prompt) =
        edited("{\"command\": \"edit\", \"name\": \"test_job\", \"cron_schedule\": \"0 10 * * *\"}");
    assert_eq!(name, "test_job");
    assert_eq!(schedule.as_deref(), Some("0 10 * * *"));
    assert_eq!(prompt, None);
    let parsed = read(&edit_reply("test_job", &schedule, false, Ok(true)));
    assert_eq!(parsed["status"], "success");
}

#[test]
fn test_edit_job_prompt_success() {
    let (name, schedule, prompt) =
        edited("{\"command\": \"edit\", \"name\": \"test_job\", \"prompt\": \"New prompt\"}");
    assert_eq!(name, "test_job");
    assert_eq!(schedule, None);
    assert_eq!(prompt.as_deref(), Some("New prompt"));
    let parsed = read(&edit_reply("test_job", &schedule, true, Ok(true)));
    assert_eq!(parsed["status"], "success");
}

#[test]
fn test_edit_job_both_success() {
    let (name, schedule, prompt) = edited("{\"command\": \"edit\", \"name\": \"test_job\", \"cron_schedule\": \"0 12 * * *\", \"prompt\": \"Updated prompt\"}");
    assert_eq!(name, "test_job");
    assert_eq!(schedule.as_deref(), Some("0 12 * * *"));
    assert_eq!(prompt.as_deref(), Some("Updated prompt"));
    let parsed = read(&edit_reply("test_job", &schedule, true, Ok(true)));
    assert_eq!(parsed["status"], "success");
}

#[test]
fn test_edit_job_not_found() {
    let (name, schedule, prompt) =
        edited("{\"command\": \"edit\", \"name\": \"nonexistent\", \"cron_schedule\": \"0 10 * * *\"}");
    assert_eq!(name, "nonexistent");
    assert_eq!(schedule.as_deref(), Some("0 10 * * *"));
    let parsed = read(&edit_reply(&name, &schedule, prompt.is_some(), Ok(false)));
    assert_eq!(parsed["status"], "error");
    assert_eq!(parsed["message"], "not_found");
}

#[test]
fn test_edit_job_missing_name() {
    let parsed = refused(Some(123), "{\"command\": \"edit\", \"cron_schedule\": \"0 10 * * *\"}");
    assert_eq!(parsed["status"], "error");
    assert_eq!(parsed["message"], "missing_parameter");
}

#[test]
fn test_edit_job_missing_changes() {
    let parsed = refused(Some(123), "{\"command\": \"edit\", \"name\": \"test_job\"}");
    assert_eq!(parsed["status"], "error");
    assert_eq!(parsed["message"], "missing_parameter");
}

#[test]
fn test_edit_job_invalid_cron() {
    let parsed = refused(
        Some(123),
        "{\"command\": \"edit\", \"name\": \"test_job\", \"cron_schedule\": \"invalid\"}",
    );
    assert_eq!(parsed["status"], "error");
    assert_eq!(parsed["message"], "invalid_cron_schedule");
}

// ---------------------------------------------------------------------------------------------
// The schedule

/// The first of January 2024, midnight.
const NEW_YEAR: i64 = 1_704_067_200;

#[test]
fn a_job_runs_when_its_time_has_come() {
    let job = make_test_job("daily_check", true);
    let nine = NEW_YEAR + 9 * 3600;
    assert!(!should_run_job(&job, Some(at(NEW_YEAR)), at(nine - 1)));
    assert!(should_run_job(&job, Some(at(NEW_YEAR)), at(nine)));
    assert!(should_run_job(&job, Some(at(NEW_YEAR)), at(nine + 60)));
}

#[test]
fn a_job_that_never_ran_runs_at_once() {
    let job = make_test_job("daily_check", true);
    assert!(should_run_job(&job, None, at(NEW_YEAR)));
}

#[test]
fn a_job_does_not_run_twice_at_once() {
    let job = make_test_job("daily_check", true);
    let nine = NEW_YEAR + 9 * 3600;
    assert!(!should_run_job(&job, Some(at(nine)), at(nine)));
    assert!(!should_run_job(&job, Some(at(nine)), at(nine + 3600)));
    assert!(should_run_job(&job, Some(at(nine)), at(nine + 86_400)));
}

#[test]
fn a_job_without_a_schedule_never_runs() {
    let mut job = make_test_job("daily_check", true);
    job.cron_schedule = "whenever".to_string();
    assert!(!should_run_job(&job, None, at(NEW_YEAR)));
}

#[test]
fn a_run_is_noted_only_inside_the_calendar() {
    assert!(can_be_noted(at(NEW_YEAR)));
    assert!(!can_be_noted(at(i64::MAX)));
    assert!(!can_be_noted(Timestamp { seconds: 0, nanos: 1_000_000_000 }));
}

#[test]
fn reloading_keeps_the_last_run_and_drops_what_is_gone() {
    let mut scheduler = Scheduler::new();
    let mut other = make_test_job("other", true);
    other.id = 2;
    scheduler.reload(&vec![make_test_job("daily_check", true), other]);
    assert_eq!(scheduler.len(), 2);
    let now = at(NEW_YEAR);
    let mut due = scheduler.due_jobs(now);
    due.sort();
    assert_eq!(due, vec![1, 2]);
    scheduler.record_run(1, now);
    scheduler.record_run(3, now);
    assert_eq!(scheduler.due_jobs(now), vec![2]);
    assert!(scheduler.job(3).is_none());

    let mut renamed = make_test_job("renamed", true);
    renamed.prompt = "Another prompt".to_string();
    scheduler.reload(&vec![renamed]);
    assert_eq!(scheduler.len(), 1);
    let state = scheduler.job(1).unwrap();
    assert_eq!(state.job.name, "renamed");
    assert_eq!(state.last_run, Some(now));
    assert!(scheduler.job(2).is_none());
    assert!(scheduler.due_jobs(now).is_empty());
}

#[test]
fn of_jobs_with_one_number_the_last_counts() {
    let mut scheduler = Scheduler::new();
    scheduler.reload(&vec![make_test_job("first", true), make_test_job("second", true)]);
    assert_eq!(scheduler.len(), 1);
    assert_eq!(scheduler.job(1).unwrap().job.name, "second");
}

#[test]
fn a_search_stays_inside_the_calendar() {
    assert!(can_be_noted(at(-8_334_601_142_401)));
    assert!(!can_be_noted(at(-8_334_601_142_402)));
    assert!(can_be_noted(at(8_210_264_198_398)));
    assert!(!can_be_noted(at(8_210_264_198_399)));
    let mut job = make_test_job("daily_check", true);
    job.cron_schedule = "* * * * *".to_string();
    let start = at(-8_334_601_142_401);
    assert!(!should_run_job(&job, Some(start), start));
    let end = at(8_210_264_198_398);
    should_run_job(&job, Some(end), end);
    job.cron_schedule = "0 0 L * *".to_string();
    should_run_job(&job, Some(start), start);
    should_run_job(&job, Some(end), end);
}

#[test]
fn a_thread_has_its_own_jobs() {
    match execute_scheduled_jobs(Some(123), Some(7), "{\"command\": \"list\"}") {
        JobsStep::Store { chat_id, thread_id, request } => {
            assert_eq!((chat_id, thread_id), (123, Some(7)));
            assert!(matches!(request, JobsRequest::List));
        }
        JobsStep::Reply(reply) => panic!("unexpected reply {reply}"),
    }
}

#[test]
fn the_database_is_read_every_five_minutes() {
    let mut scheduler = Scheduler::new();
    let due: Vec<bool> = (0..10).map(|_| scheduler.take_check()).collect();
    assert_eq!(
        due,
        vec![false, false, false, false, true, false, false, false, false, true]
    );
}

#[test]
fn a_failed_job_is_told_of() {
    assert_eq!(
        failure_notice("daily_check", "no answer"),
        "⚠️ Scheduled job 'daily_check' failed:\nno answer"
    );
}

#[test]
fn a_job_sends_the_text_of_whatever_came_of_it() {
    let reset = AiConversationOutcome::ResetConversation("done".to_string(), "r1".to_string());
    assert_eq!(execute_scheduled_job(reset), "done");
    let text = AiConversationOutcome::TextMessage("hello".to_string(), "r2".to_string());
    assert_eq!(execute_scheduled_job(text), "hello");
}

#[test]
fn a_job_gets_no_tools_for_admins() {
    let config = lexi::ai_interaction::openai_chat::openai_call_config();
    let job = make_test_job("daily_check", true);
    let start = start_scheduled_job(&config, &job, "gpt-5.2");
    assert_eq!(start.tools.len(), 7);
    assert_eq!(start.input_items.len(), 1);
    assert_eq!(
        start.input_items[0].to_json().to_string(),
        "{\"content\":\"Test prompt\",\"role\":\"user\"}"
    );
}
