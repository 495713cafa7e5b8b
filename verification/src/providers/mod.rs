//! The providers' request and stream formats.
pub mod anthropic;
pub mod calls;
pub mod common;
pub mod openai_chat;
pub mod openai_responses;
pub mod registry;
