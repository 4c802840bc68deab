//! Scheduled jobs as the database holds them.

use crate::time::Timestamp;
use vstd::prelude::*;

verus! {

/// A scheduled job stored in the database.
#[derive(Debug)]
pub struct ScheduledJob {
    pub id: i32,
    pub name: String,
    pub cron_schedule: String,
    pub prompt: String,
    pub telegram_chat_id: i64,
    pub message_thread_id: Option<i64>,
    pub enabled: bool,
    pub created_at: Timestamp,
    pub updated_at: Timestamp,
}

impl Clone for ScheduledJob {
    fn clone(&self) -> (r: Self)
        ensures
            r == *self,
    {
        ScheduledJob {
            id: self.id,
            name: self.name.clone(),
            cron_schedule: self.cron_schedule.clone(),
            prompt: self.prompt.clone(),
            telegram_chat_id: self.telegram_chat_id,
            message_thread_id: self.message_thread_id,
            enabled: self.enabled,
            created_at: self.created_at,
            updated_at: self.updated_at,
        }
    }
}

} // verus!
