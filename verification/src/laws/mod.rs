//! What holds of the library's operations, told by what goes in and what comes out.
pub mod chat_api;
pub mod compaction;
pub mod definitions;
pub mod display;
pub mod failures;
pub mod file_tools;
pub mod hook_runs;
pub mod instruction_files;
pub mod journals;
pub mod limits;
pub mod messages_api;
pub mod patches;
pub mod path_names;
pub mod peers;
pub mod permissions;
pub mod plans;
pub mod replays;
pub mod responses_api;
pub mod running;
pub mod search_tools;
pub mod served;
pub mod serving;
pub mod settings;
pub mod shell_output;
pub mod terminal;
pub mod texts;
pub mod tool_calls;
pub mod turns;
pub mod wire_names;
