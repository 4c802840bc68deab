//! Jobs that run on a schedule.

pub mod cron;
pub mod executor;
pub mod service;
pub mod types;
