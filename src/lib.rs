//! Completion orchestration for a terminal chat client: prompt formatting,
//! provider registry, streamed chunk accumulation, the conversation store and
//! the send-message flow.

pub mod accumulator;
pub mod action;
pub mod completion;
pub mod config;
pub mod conversation;
pub mod flow;
pub mod ids;
pub mod manager;
pub mod mode;
pub mod ordered;
pub mod prompt;
pub mod providers;
pub mod registry;
pub mod request;
pub mod session;
pub mod text;
pub mod title;
