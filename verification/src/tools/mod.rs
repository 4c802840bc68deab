//! Tools that stand on their own.

pub mod sql_query_tool;
pub mod sql_select;
