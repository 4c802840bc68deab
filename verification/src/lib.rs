//! The verified core of lexi, a Telegram assistant backed by the OpenAI responses API.

pub mod ai_interaction;
pub mod bot;
pub mod db;
pub mod env;
pub mod handler;
pub mod http_status;
pub mod json;
pub mod message_processor;
pub mod openai_api;
pub mod scheduler;
pub mod telegram;
pub mod text;
pub mod time;
pub mod tools;
