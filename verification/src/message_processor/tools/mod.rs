//! The tools of the message processor.

pub mod beacon_slot_check;
pub mod common;
pub mod database_schema;
pub mod db_schema;
pub mod db_utils;
pub mod execute_sql_query;
pub mod mevdb_query;
pub mod mevdb_schema;
pub mod retrieve_manual;
