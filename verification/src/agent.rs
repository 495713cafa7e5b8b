//! A handle on a session.
use vstd::prelude::*;

use crate::ids::SessionId;

verus! {

/// What a session is started with.
#[derive(Debug)]
pub struct SessionConfig {
    pub cwd: String,
    pub model: String,
}

/// A session.
pub struct Agent;

/// A handle on a session; copies of it share the session.
#[derive(Debug, Clone, Copy)]
pub struct AgentHandle;

impl AgentHandle {
    /// Start a session. Sessions are driven turn by turn, so there is none to start
    /// this way, and the answer says so.
    pub fn spawn(_config: &SessionConfig) -> (r: Result<(Self, SessionId), String>)
        ensures
            r matches Err(e) && e@
                == "tao-core 尚未实现:Agent::spawn 将在 M1(模型接入)落地,见 docs/design/roadmap.md"@,
    {
        Err(
            "tao-core 尚未实现:Agent::spawn 将在 M1(模型接入)落地,见 docs/design/roadmap.md".to_owned(),
        )
    }
}

} // verus!
