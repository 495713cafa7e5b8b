//! Tool servers: those that the agent uses, and the agent as one.

pub mod client;
pub mod server;
