//! Conversation orchestration: context assembly and fitting, `<defer>` tag
//! handling, and the proactivity scheduler.

pub mod adapter;
pub mod context;
pub mod conversation;
pub mod defer;
pub mod scheduler;
