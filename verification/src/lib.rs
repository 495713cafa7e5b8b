//! The decision logic of a coding agent: permissions, patches, the wire
//! protocol, provider codecs, the turn loop and the session log, each with a
//! contract that the verifier checks.

pub mod acp;
pub mod agent;
pub mod agents;
pub mod apply_patch;
pub mod checkpoint;
pub mod codec;
pub mod commands;
pub mod compact;
pub mod config;
pub mod content;
pub mod dup;
pub mod event;
pub mod exec;
pub mod form;
pub mod front;
pub mod hooks;
pub mod ids;
pub mod instructions;
pub mod json;
pub mod laws;
pub mod log;
pub mod mcp;
pub mod model;
pub mod op;
pub mod order;
pub mod paths;
pub mod permission;
pub mod permissions;
pub mod providers;
pub mod rebuild;
pub mod recorder;
pub mod replay;
pub mod rpc;
pub mod runs;
pub mod server;
pub mod session;
pub mod show;
pub mod skills;
pub mod table;
pub mod task;
pub mod text;
pub mod tools;
pub mod tui;
pub mod wire;
