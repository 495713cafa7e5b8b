//! What a client sends.
use vstd::prelude::*;

use crate::codec::Wire;
use crate::codec::default_to;
use crate::codec::maybe;
use crate::codec::need;
use crate::codec::take_bool_or;
use crate::codec::take_maybe;
use crate::codec::take_needed;
use crate::codec::with_some;
use crate::dup::Dup;
use crate::ids::CheckpointId;
use crate::ids::SessionId;
use crate::json::Json;
use crate::json::JsonView;
use crate::json::Members;
use crate::json::text_in;
use crate::permission::PermissionMode;
use crate::permission::PermissionRule;
use crate::permission::PermissionRuleView;
use crate::permission::RuleScope;
use crate::text::same;

verus! {

/// The model of `UserInput`.
pub enum UserInputView {
    Text { text: Seq<char> },
    Image { path: Seq<char> },
}

/// A block of what the user entered.
#[derive(Debug, PartialEq)]
pub enum UserInput {
    Text { text: String },
    Image { path: String },
}

impl DeepView for UserInput {
    type V = UserInputView;

    open spec fn deep_view(&self) -> UserInputView {
        match *self {
            UserInput::Text { text } => UserInputView::Text { text: text.deep_view() },
            UserInput::Image { path } => UserInputView::Image { path: path.deep_view() },
        }
    }
}

impl Dup for UserInput {
    fn dup(&self) -> (r: Self) {
        match self {
            UserInput::Text { text } => UserInput::Text { text: text.dup() },
            UserInput::Image { path } => UserInput::Image { path: path.dup() },
        }
    }
}

impl Clone for UserInput {
    fn clone(&self) -> (r: Self)
        ensures
            r.deep_view() == self.deep_view(),
    {
        self.dup()
    }
}

impl Wire for UserInput {
    open spec fn json(v: UserInputView) -> JsonView {
        JsonView::Object(
            match v {
                UserInputView::Text { text } => Map::empty().insert("type"@, JsonView::Text("text"@)).insert("text"@, String::json(text)),
                UserInputView::Image { path } => Map::empty().insert("type"@, JsonView::Text("image"@)).insert("path"@, String::json(path)),
            },
        )
    }

    open spec fn read(j: JsonView) -> Option<UserInputView> {
        match need::<String>(j, "type"@) {
            None => None,
            Some(t) => if t == "text"@ {
                match need::<String>(j, "text"@) {
                    Some(text) => Some(UserInputView::Text { text }),
                    None => None,
                }
            } else if t == "image"@ {
                match need::<String>(j, "path"@) {
                    Some(path) => Some(UserInputView::Image { path }),
                    None => None,
                }
            } else {
                None
            },
        }
    }

    fn to_json(&self) -> (r: Json) {
        let mut m = Members::new();
        match self {
            UserInput::Text { text } => {
                m.put_text("type", "text");
                m.put("text", text.to_json());
            },
            UserInput::Image { path } => {
                m.put_text("type", "image");
                m.put("path", path.to_json());
            },
        }
        m.done()
    }

    fn from_json(j: &Json) -> (r: Option<Self>) {
        let t = match take_needed::<String>(j, "type") {
            Some(t) => t,
            None => return None,
        };
        if same(t.as_str(), "text") {
            match take_needed::<String>(j, "text") {
                Some(text) => Some(UserInput::Text { text }),
                None => None,
            }
        } else if same(t.as_str(), "image") {
            match take_needed::<String>(j, "path") {
                Some(path) => Some(UserInput::Image { path }),
                None => None,
            }
        } else {
            None
        }
    }

    open spec fn faithful(v: UserInputView) -> bool {
        true
    }

    proof fn round_trip(v: UserInputView) {
        reveal_strlit("text");
        reveal_strlit("image");
        assert("text"@.len() == 4 && "image"@.len() == 5);
        match v {
            UserInputView::Text { text } => {
                reveal_strlit("type");
                reveal_strlit("text");
                assert("type"@[1] != "text"@[1]);
                String::round_trip(text);
            },
            UserInputView::Image { path } => {
                reveal_strlit("type");
                reveal_strlit("path");
                assert("type"@[0] != "path"@[0]);
                String::round_trip(path);
            },
        }
    }
}

/// The user's answer to a request for approval.
#[derive(Debug, Clone, Copy, PartialEq, Eq, Structural)]
pub enum ReviewDecision {
    /// Allow this call.
    Approve,
    /// Allow this call, and calls like it in this session.
    ApproveForSession,
    /// Refuse the call; the model is told.
    Deny,
    /// Refuse the call and end the turn.
    Abort,
}

impl DeepView for ReviewDecision {
    type V = ReviewDecision;

    open spec fn deep_view(&self) -> ReviewDecision {
        *self
    }
}

impl Dup for ReviewDecision {
    fn dup(&self) -> (r: Self) {
        *self
    }
}

impl ReviewDecision {
    /// The name on the wire.
    pub open spec fn name(self) -> Seq<char> {
        match self {
            ReviewDecision::Approve => "approve"@,
            ReviewDecision::ApproveForSession => "approve_for_session"@,
            ReviewDecision::Deny => "deny"@,
            ReviewDecision::Abort => "abort"@,
        }
    }

    /// The value with a given name.
    pub open spec fn named(s: Seq<char>) -> Option<ReviewDecision> {
        if s == "approve"@ {
            Some(ReviewDecision::Approve)
        } else if s == "approve_for_session"@ {
            Some(ReviewDecision::ApproveForSession)
        } else if s == "deny"@ {
            Some(ReviewDecision::Deny)
        } else if s == "abort"@ {
            Some(ReviewDecision::Abort)
        } else {
            None
        }
    }

    /// The name on the wire.
    pub fn as_str(&self) -> (r: &'static str)
        ensures
            r@ == self.name(),
    {
        match self {
            ReviewDecision::Approve => "approve",
            ReviewDecision::ApproveForSession => "approve_for_session",
            ReviewDecision::Deny => "deny",
            ReviewDecision::Abort => "abort",
        }
    }

    /// The value with a given name.
    pub fn from_name(s: &str) -> (r: Option<ReviewDecision>)
        ensures
            r == ReviewDecision::named(s@),
    {
        if same(s, "approve") {
            Some(ReviewDecision::Approve)
        } else if same(s, "approve_for_session") {
            Some(ReviewDecision::ApproveForSession)
        } else if same(s, "deny") {
            Some(ReviewDecision::Deny)
        } else if same(s, "abort") {
            Some(ReviewDecision::Abort)
        } else {
            None
        }
    }
}

impl Wire for ReviewDecision {
    open spec fn json(v: ReviewDecision) -> JsonView {
        JsonView::Text(v.name())
    }

    open spec fn read(j: JsonView) -> Option<ReviewDecision> {
        match text_in(Some(j)) {
            Some(s) => ReviewDecision::named(s),
            None => None,
        }
    }

    fn to_json(&self) -> (r: Json) {
        Json::text(self.as_str())
    }

    fn from_json(j: &Json) -> (r: Option<Self>) {
        match j.as_str() {
            Some(s) => ReviewDecision::from_name(s),
            None => None,
        }
    }

    open spec fn faithful(v: ReviewDecision) -> bool {
        true
    }

    proof fn round_trip(v: ReviewDecision) {
        reveal_strlit("approve");
        reveal_strlit("approve_for_session");
        reveal_strlit("deny");
        reveal_strlit("abort");
        assert("approve"@.len() == 7 && "approve_for_session"@.len() == 19 && "deny"@.len() == 4 && "abort"@.len() == 5);
    }
}

/// The model of `Op`.
pub enum OpView {
    Hello { protocol_version: u32 },
    UserTurn { turn_id: Seq<char>, input: Seq<UserInputView> },
    Interrupt { abandon_queued: bool },
    Compact { instruction: Option<Seq<char>> },
    Shutdown,
    ApprovalResponse { call_id: Seq<char>, decision: ReviewDecision },
    ListSessions,
    ResumeSession { session_id: Seq<char>, fork: bool },
    CheckpointRollback { checkpoint_id: Seq<char> },
    SetPermissionMode { mode: PermissionMode },
    AddPermissionRule { rule: PermissionRuleView, scope: RuleScope },
    SetModel { model: Seq<char> },
    GetHistory { after_seq: u64, limit: u32 },
    ResumeEvents { after_seq: u64 },
    ListMcpTools,
    ListModels,
}

/// What a client asks for.
#[derive(Debug, PartialEq)]
pub enum Op {
    /// The first message of a connection.
    Hello { protocol_version: u32 },
    /// Start a turn.
    UserTurn { turn_id: String, input: Vec<UserInput> },
    /// Interrupt the running turn, and unless told otherwise drop the queued ones.
    Interrupt { abandon_queued: bool },
    /// Compact the context.
    Compact { instruction: Option<String> },
    Shutdown,
    /// The answer to the request for approval with the same call.
    ApprovalResponse { call_id: String, decision: ReviewDecision },
    ListSessions,
    ResumeSession { session_id: SessionId, fork: bool },
    /// Take files and conversation back to a checkpoint.
    CheckpointRollback { checkpoint_id: CheckpointId },
    SetPermissionMode { mode: PermissionMode },
    AddPermissionRule { rule: PermissionRule, scope: RuleScope },
    SetModel { model: String },
    GetHistory { after_seq: u64, limit: u32 },
    /// What a client missed while it was away.
    ResumeEvents { after_seq: u64 },
    ListMcpTools,
    ListModels,
}

impl DeepView for Op {
    type V = OpView;

    open spec fn deep_view(&self) -> OpView {
        match *self {
            Op::Hello { protocol_version } => OpView::Hello { protocol_version: protocol_version.deep_view() },
            Op::UserTurn { turn_id, input } => OpView::UserTurn { turn_id: turn_id.deep_view(), input: input.deep_view() },
            Op::Interrupt { abandon_queued } => OpView::Interrupt { abandon_queued: abandon_queued.deep_view() },
            Op::Compact { instruction } => OpView::Compact { instruction: instruction.deep_view() },
            Op::Shutdown => OpView::Shutdown,
            Op::ApprovalResponse { call_id, decision } => OpView::ApprovalResponse { call_id: call_id.deep_view(), decision: decision.deep_view() },
            Op::ListSessions => OpView::ListSessions,
            Op::ResumeSession { session_id, fork } => OpView::ResumeSession { session_id: session_id.deep_view(), fork: fork.deep_view() },
            Op::CheckpointRollback { checkpoint_id } => OpView::CheckpointRollback { checkpoint_id: checkpoint_id.deep_view() },
            Op::SetPermissionMode { mode } => OpView::SetPermissionMode { mode: mode.deep_view() },
            Op::AddPermissionRule { rule, scope } => OpView::AddPermissionRule { rule: rule.deep_view(), scope: scope.deep_view() },
            Op::SetModel { model } => OpView::SetModel { model: model.deep_view() },
            Op::GetHistory { after_seq, limit } => OpView::GetHistory { after_seq: after_seq.deep_view(), limit: limit.deep_view() },
            Op::ResumeEvents { after_seq } => OpView::ResumeEvents { after_seq: after_seq.deep_view() },
            Op::ListMcpTools => OpView::ListMcpTools,
            Op::ListModels => OpView::ListModels,
        }
    }
}

impl Dup for Op {
    fn dup(&self) -> (r: Self) {
        match self {
            Op::Hello { protocol_version } => Op::Hello { protocol_version: protocol_version.dup() },
            Op::UserTurn { turn_id, input } => Op::UserTurn { turn_id: turn_id.dup(), input: input.dup() },
            Op::Interrupt { abandon_queued } => Op::Interrupt { abandon_queued: abandon_queued.dup() },
            Op::Compact { instruction } => Op::Compact { instruction: instruction.dup() },
            Op::Shutdown => Op::Shutdown,
            Op::ApprovalResponse { call_id, decision } => Op::ApprovalResponse { call_id: call_id.dup(), decision: decision.dup() },
            Op::ListSessions => Op::ListSessions,
            Op::ResumeSession { session_id, fork } => Op::ResumeSession { session_id: session_id.dup(), fork: fork.dup() },
            Op::CheckpointRollback { checkpoint_id } => Op::CheckpointRollback { checkpoint_id: checkpoint_id.dup() },
            Op::SetPermissionMode { mode } => Op::SetPermissionMode { mode: mode.dup() },
            Op::AddPermissionRule { rule, scope } => Op::AddPermissionRule { rule: rule.dup(), scope: scope.dup() },
            Op::SetModel { model } => Op::SetModel { model: model.dup() },
            Op::GetHistory { after_seq, limit } => Op::GetHistory { after_seq: after_seq.dup(), limit: limit.dup() },
            Op::ResumeEvents { after_seq } => Op::ResumeEvents { after_seq: after_seq.dup() },
            Op::ListMcpTools => Op::ListMcpTools,
            Op::ListModels => Op::ListModels,
        }
    }
}

impl Clone for Op {
    fn clone(&self) -> (r: Self)
        ensures
            r.deep_view() == self.deep_view(),
    {
        self.dup()
    }
}

impl Wire for Op {
    open spec fn json(v: OpView) -> JsonView {
        JsonView::Object(
            match v {
                OpView::Hello { protocol_version } => Map::empty().insert("type"@, JsonView::Text("hello"@)).insert("protocol_version"@, u32::json(protocol_version)),
                OpView::UserTurn { turn_id, input } => Map::empty().insert("type"@, JsonView::Text("user_turn"@)).insert("turn_id"@, String::json(turn_id)).insert("input"@, <Vec<UserInput> as Wire>::json(input)),
                OpView::Interrupt { abandon_queued } => Map::empty().insert("type"@, JsonView::Text("interrupt"@)).insert("abandon_queued"@, bool::json(abandon_queued)),
                OpView::Compact { instruction } => with_some::<String>(
                    Map::empty().insert("type"@, JsonView::Text("compact"@)),
                    "instruction"@,
                    instruction,
                ),
                OpView::Shutdown => Map::empty().insert("type"@, JsonView::Text("shutdown"@)),
                OpView::ApprovalResponse { call_id, decision } => Map::empty().insert("type"@, JsonView::Text("approval_response"@)).insert("call_id"@, String::json(call_id)).insert("decision"@, ReviewDecision::json(decision)),
                OpView::ListSessions => Map::empty().insert("type"@, JsonView::Text("list_sessions"@)),
                OpView::ResumeSession { session_id, fork } => Map::empty().insert("type"@, JsonView::Text("resume_session"@)).insert("session_id"@, SessionId::json(session_id)).insert("fork"@, bool::json(fork)),
                OpView::CheckpointRollback { checkpoint_id } => Map::empty().insert("type"@, JsonView::Text("checkpoint_rollback"@)).insert("checkpoint_id"@, CheckpointId::json(checkpoint_id)),
                OpView::SetPermissionMode { mode } => Map::empty().insert("type"@, JsonView::Text("set_permission_mode"@)).insert("mode"@, PermissionMode::json(mode)),
                OpView::AddPermissionRule { rule, scope } => Map::empty().insert("type"@, JsonView::Text("add_permission_rule"@)).insert("rule"@, PermissionRule::json(rule)).insert("scope"@, RuleScope::json(scope)),
                OpView::SetModel { model } => Map::empty().insert("type"@, JsonView::Text("set_model"@)).insert("model"@, String::json(model)),
                OpView::GetHistory { after_seq, limit } => Map::empty().insert("type"@, JsonView::Text("get_history"@)).insert("after_seq"@, u64::json(after_seq)).insert("limit"@, u32::json(limit)),
                OpView::ResumeEvents { after_seq } => Map::empty().insert("type"@, JsonView::Text("resume_events"@)).insert("after_seq"@, u64::json(after_seq)),
                OpView::ListMcpTools => Map::empty().insert("type"@, JsonView::Text("list_mcp_tools"@)),
                OpView::ListModels => Map::empty().insert("type"@, JsonView::Text("list_models"@)),
            },
        )
    }

    open spec fn read(j: JsonView) -> Option<OpView> {
        match need::<String>(j, "type"@) {
            None => None,
            Some(t) => if t == "hello"@ {
                match need::<u32>(j, "protocol_version"@) {
                    Some(protocol_version) => Some(OpView::Hello { protocol_version }),
                    None => None,
                }
            } else if t == "user_turn"@ {
                match (
                    need::<String>(j, "turn_id"@),
                    need::<Vec<UserInput>>(j, "input"@),
                ) {
                    (Some(turn_id), Some(input)) => Some(
                        OpView::UserTurn { turn_id, input },
                    ),
                    _ => None,
                }
            } else if t == "interrupt"@ {
                match default_to::<bool>(j, "abandon_queued"@, true) {
                    Some(abandon_queued) => Some(OpView::Interrupt { abandon_queued }),
                    None => None,
                }
            } else if t == "compact"@ {
                match maybe::<String>(j, "instruction"@) {
                    Some(instruction) => Some(OpView::Compact { instruction }),
                    None => None,
                }
            } else if t == "shutdown"@ {
                Some(OpView::Shutdown)
            } else if t == "approval_response"@ {
                match (
                    need::<String>(j, "call_id"@),
                    need::<ReviewDecision>(j, "decision"@),
                ) {
                    (Some(call_id), Some(decision)) => Some(
                        OpView::ApprovalResponse { call_id, decision },
                    ),
                    _ => None,
                }
            } else if t == "list_sessions"@ {
                Some(OpView::ListSessions)
            } else if t == "resume_session"@ {
                match (
                    need::<SessionId>(j, "session_id"@),
                    need::<bool>(j, "fork"@),
                ) {
                    (Some(session_id), Some(fork)) => Some(
                        OpView::ResumeSession { session_id, fork },
                    ),
                    _ => None,
                }
            } else if t == "checkpoint_rollback"@ {
                match need::<CheckpointId>(j, "checkpoint_id"@) {
                    Some(checkpoint_id) => Some(OpView::CheckpointRollback { checkpoint_id }),
                    None => None,
                }
            } else if t == "set_permission_mode"@ {
                match need::<PermissionMode>(j, "mode"@) {
                    Some(mode) => Some(OpView::SetPermissionMode { mode }),
                    None => None,
                }
            } else if t == "add_permission_rule"@ {
                match (
                    need::<PermissionRule>(j, "rule"@),
                    need::<RuleScope>(j, "scope"@),
                ) {
                    (Some(rule), Some(scope)) => Some(
                        OpView::AddPermissionRule { rule, scope },
                    ),
                    _ => None,
                }
            } else if t == "set_model"@ {
                match need::<String>(j, "model"@) {
                    Some(model) => Some(OpView::SetModel { model }),
                    None => None,
                }
            } else if t == "get_history"@ {
                match (
                    need::<u64>(j, "after_seq"@),
                    need::<u32>(j, "limit"@),
                ) {
                    (Some(after_seq), Some(limit)) => Some(
                        OpView::GetHistory { after_seq, limit },
                    ),
                    _ => None,
                }
            } else if t == "resume_events"@ {
                match need::<u64>(j, "after_seq"@) {
                    Some(after_seq) => Some(OpView::ResumeEvents { after_seq }),
                    None => None,
                }
            } else if t == "list_mcp_tools"@ {
                Some(OpView::ListMcpTools)
            } else if t == "list_models"@ {
                Some(OpView::ListModels)
            } else {
                None
            },
        }
    }

    fn to_json(&self) -> (r: Json) {
        let mut m = Members::new();
        match self {
            Op::Hello { protocol_version } => {
                m.put_text("type", "hello");
                m.put("protocol_version", protocol_version.to_json());
            },
            Op::UserTurn { turn_id, input } => {
                m.put_text("type", "user_turn");
                m.put("turn_id", turn_id.to_json());
                m.put("input", input.to_json());
            },
            Op::Interrupt { abandon_queued } => {
                m.put_text("type", "interrupt");
                m.put("abandon_queued", abandon_queued.to_json());
            },
            Op::Compact { instruction } => {
                m.put_text("type", "compact");
                m.put_some::<String>("instruction", instruction);
            },
            Op::Shutdown => {
                m.put_text("type", "shutdown");
            },
            Op::ApprovalResponse { call_id, decision } => {
                m.put_text("type", "approval_response");
                m.put("call_id", call_id.to_json());
                m.put("decision", decision.to_json());
            },
            Op::ListSessions => {
                m.put_text("type", "list_sessions");
            },
            Op::ResumeSession { session_id, fork } => {
                m.put_text("type", "resume_session");
                m.put("session_id", session_id.to_json());
                m.put("fork", fork.to_json());
            },
            Op::CheckpointRollback { checkpoint_id } => {
                m.put_text("type", "checkpoint_rollback");
                m.put("checkpoint_id", checkpoint_id.to_json());
            },
            Op::SetPermissionMode { mode } => {
                m.put_text("type", "set_permission_mode");
                m.put("mode", mode.to_json());
            },
            Op::AddPermissionRule { rule, scope } => {
                m.put_text("type", "add_permission_rule");
                m.put("rule", rule.to_json());
                m.put("scope", scope.to_json());
            },
            Op::SetModel { model } => {
                m.put_text("type", "set_model");
                m.put("model", model.to_json());
            },
            Op::GetHistory { after_seq, limit } => {
                m.put_text("type", "get_history");
                m.put("after_seq", after_seq.to_json());
                m.put("limit", limit.to_json());
            },
            Op::ResumeEvents { after_seq } => {
                m.put_text("type", "resume_events");
                m.put("after_seq", after_seq.to_json());
            },
            Op::ListMcpTools => {
                m.put_text("type", "list_mcp_tools");
            },
            Op::ListModels => {
                m.put_text("type", "list_models");
            },
        }
        m.done()
    }

    fn from_json(j: &Json) -> (r: Option<Self>) {
        let t = match take_needed::<String>(j, "type") {
            Some(t) => t,
            None => return None,
        };
        if same(t.as_str(), "hello") {
            match take_needed::<u32>(j, "protocol_version") {
                Some(protocol_version) => Some(Op::Hello { protocol_version }),
                None => None,
            }
        } else if same(t.as_str(), "user_turn") {
            match (
                take_needed::<String>(j, "turn_id"),
                take_needed::<Vec<UserInput>>(j, "input"),
            ) {
                (Some(turn_id), Some(input)) => Some(
                    Op::UserTurn { turn_id, input },
                ),
                _ => None,
            }
        } else if same(t.as_str(), "interrupt") {
            match take_bool_or(j, "abandon_queued", true) {
                Some(abandon_queued) => Some(Op::Interrupt { abandon_queued }),
                None => None,
            }
        } else if same(t.as_str(), "compact") {
            match take_maybe::<String>(j, "instruction") {
                Some(instruction) => Some(Op::Compact { instruction }),
                None => None,
            }
        } else if same(t.as_str(), "shutdown") {
            Some(Op::Shutdown)
        } else if same(t.as_str(), "approval_response") {
            match (
                take_needed::<String>(j, "call_id"),
                take_needed::<ReviewDecision>(j, "decision"),
            ) {
                (Some(call_id), Some(decision)) => Some(
                    Op::ApprovalResponse { call_id, decision },
                ),
                _ => None,
            }
        } else if same(t.as_str(), "list_sessions") {
            Some(Op::ListSessions)
        } else if same(t.as_str(), "resume_session") {
            match (
                take_needed::<SessionId>(j, "session_id"),
                take_needed::<bool>(j, "fork"),
            ) {
                (Some(session_id), Some(fork)) => Some(
                    Op::ResumeSession { session_id, fork },
                ),
                _ => None,
            }
        } else if same(t.as_str(), "checkpoint_rollback") {
            match take_needed::<CheckpointId>(j, "checkpoint_id") {
                Some(checkpoint_id) => Some(Op::CheckpointRollback { checkpoint_id }),
                None => None,
            }
        } else if same(t.as_str(), "set_permission_mode") {
            match take_needed::<PermissionMode>(j, "mode") {
                Some(mode) => Some(Op::SetPermissionMode { mode }),
                None => None,
            }
        } else if same(t.as_str(), "add_permission_rule") {
            match (
                take_needed::<PermissionRule>(j, "rule"),
                take_needed::<RuleScope>(j, "scope"),
            ) {
                (Some(rule), Some(scope)) => Some(
                    Op::AddPermissionRule { rule, scope },
                ),
                _ => None,
            }
        } else if same(t.as_str(), "set_model") {
            match take_needed::<String>(j, "model") {
                Some(model) => Some(Op::SetModel { model }),
                None => None,
            }
        } else if same(t.as_str(), "get_history") {
            match (
                take_needed::<u64>(j, "after_seq"),
                take_needed::<u32>(j, "limit"),
            ) {
                (Some(after_seq), Some(limit)) => Some(
                    Op::GetHistory { after_seq, limit },
                ),
                _ => None,
            }
        } else if same(t.as_str(), "resume_events") {
            match take_needed::<u64>(j, "after_seq") {
                Some(after_seq) => Some(Op::ResumeEvents { after_seq }),
                None => None,
            }
        } else if same(t.as_str(), "list_mcp_tools") {
            Some(Op::ListMcpTools)
        } else if same(t.as_str(), "list_models") {
            Some(Op::ListModels)
        } else {
            None
        }
    }

    open spec fn faithful(v: OpView) -> bool {
        true
    }

    proof fn round_trip(v: OpView) {
        reveal_strlit("hello");
        reveal_strlit("user_turn");
        reveal_strlit("interrupt");
        reveal_strlit("compact");
        reveal_strlit("shutdown");
        reveal_strlit("approval_response");
        reveal_strlit("list_sessions");
        reveal_strlit("resume_session");
        reveal_strlit("checkpoint_rollback");
        reveal_strlit("set_permission_mode");
        reveal_strlit("add_permission_rule");
        reveal_strlit("set_model");
        reveal_strlit("get_history");
        reveal_strlit("resume_events");
        reveal_strlit("list_mcp_tools");
        reveal_strlit("list_models");
        assert("hello"@.len() == 5 && "user_turn"@.len() == 9 && "interrupt"@.len() == 9 && "compact"@.len() == 7 && "shutdown"@.len() == 8 && "approval_response"@.len() == 17 && "list_sessions"@.len() == 13 && "resume_session"@.len() == 14 && "checkpoint_rollback"@.len() == 19 && "set_permission_mode"@.len() == 19 && "add_permission_rule"@.len() == 19 && "set_model"@.len() == 9 && "get_history"@.len() == 11 && "resume_events"@.len() == 13 && "list_mcp_tools"@.len() == 14 && "list_models"@.len() == 11);
        assert("user_turn"@[0] != "interrupt"@[0]);
        assert("checkpoint_rollback"@[0] != "set_permission_mode"@[0]);
        assert("checkpoint_rollback"@[0] != "add_permission_rule"@[0]);
        assert("set_permission_mode"@[0] != "add_permission_rule"@[0]);
        assert("user_turn"@[0] != "set_model"@[0]);
        assert("interrupt"@[0] != "set_model"@[0]);
        assert("list_sessions"@[0] != "resume_events"@[0]);
        assert("resume_session"@[0] != "list_mcp_tools"@[0]);
        assert("get_history"@[0] != "list_models"@[0]);
        match v {
            OpView::Hello { protocol_version } => {
                reveal_strlit("type");
                reveal_strlit("protocol_version");
                assert("type"@.len() == 4 && "protocol_version"@.len() == 16);
                u32::round_trip(protocol_version);
            },
            OpView::UserTurn { turn_id, input } => {
                reveal_strlit("type");
                reveal_strlit("turn_id");
                reveal_strlit("input");
                assert("type"@.len() == 4 && "turn_id"@.len() == 7 && "input"@.len() == 5);
                String::round_trip(turn_id);
                <Vec<UserInput> as Wire>::round_trip(input);
            },
            OpView::Interrupt { abandon_queued } => {
                reveal_strlit("type");
                reveal_strlit("abandon_queued");
                assert("type"@.len() == 4 && "abandon_queued"@.len() == 14);
                bool::round_trip(abandon_queued);
            },
            OpView::Compact { instruction } => {
                reveal_strlit("type");
                reveal_strlit("instruction");
                assert("type"@.len() == 4 && "instruction"@.len() == 11);
                if let Some(x) = instruction {
                    String::round_trip(x);
                }
            },
            OpView::Shutdown => {},
            OpView::ApprovalResponse { call_id, decision } => {
                reveal_strlit("type");
                reveal_strlit("call_id");
                reveal_strlit("decision");
                assert("type"@.len() == 4 && "call_id"@.len() == 7 && "decision"@.len() == 8);
                String::round_trip(call_id);
                ReviewDecision::round_trip(decision);
            },
            OpView::ListSessions => {},
            OpView::ResumeSession { session_id, fork } => {
                reveal_strlit("type");
                reveal_strlit("session_id");
                reveal_strlit("fork");
                assert("type"@.len() == 4 && "session_id"@.len() == 10 && "fork"@.len() == 4);
                assert("type"@[0] != "fork"@[0]);
                SessionId::round_trip(session_id);
                bool::round_trip(fork);
            },
            OpView::CheckpointRollback { checkpoint_id } => {
                reveal_strlit("type");
                reveal_strlit("checkpoint_id");
                assert("type"@.len() == 4 && "checkpoint_id"@.len() == 13);
                CheckpointId::round_trip(checkpoint_id);
            },
            OpView::SetPermissionMode { mode } => {
                reveal_strlit("type");
                reveal_strlit("mode");
                assert("type"@[0] != "mode"@[0]);
                PermissionMode::round_trip(mode);
            },
            OpView::AddPermissionRule { rule, scope } => {
                reveal_strlit("type");
                reveal_strlit("rule");
                reveal_strlit("scope");
                assert("type"@.len() == 4 && "rule"@.len() == 4 && "scope"@.len() == 5);
                assert("type"@[0] != "rule"@[0]);
                PermissionRule::round_trip(rule);
                RuleScope::round_trip(scope);
            },
            OpView::SetModel { model } => {
                reveal_strlit("type");
                reveal_strlit("model");
                assert("type"@.len() == 4 && "model"@.len() == 5);
                String::round_trip(model);
            },
            OpView::GetHistory { after_seq, limit } => {
                reveal_strlit("type");
                reveal_strlit("after_seq");
                reveal_strlit("limit");
                assert("type"@.len() == 4 && "after_seq"@.len() == 9 && "limit"@.len() == 5);
                u64::round_trip(after_seq);
                u32::round_trip(limit);
            },
            OpView::ResumeEvents { after_seq } => {
                reveal_strlit("type");
                reveal_strlit("after_seq");
                assert("type"@.len() == 4 && "after_seq"@.len() == 9);
                u64::round_trip(after_seq);
            },
            OpView::ListMcpTools => {},
            OpView::ListModels => {},
        }
    }
}

/// The model of `Submission`.
pub struct SubmissionView {
    pub id: Seq<char>,
    pub op: OpView,
}

/// A request, with the identifier that its answers echo.
#[derive(Debug, PartialEq)]
pub struct Submission {
    pub id: String,
    pub op: Op,
}

impl DeepView for Submission {
    type V = SubmissionView;

    open spec fn deep_view(&self) -> SubmissionView {
        SubmissionView {
            id: self.id.deep_view(),
            op: self.op.deep_view(),
        }
    }
}

impl Dup for Submission {
    fn dup(&self) -> (r: Self) {
        Submission {
            id: self.id.dup(),
            op: self.op.dup(),
        }
    }
}

impl Clone for Submission {
    fn clone(&self) -> (r: Self)
        ensures
            r.deep_view() == self.deep_view(),
    {
        self.dup()
    }
}

impl Wire for Submission {
    open spec fn json(v: SubmissionView) -> JsonView {
        JsonView::Object(
            Map::empty().insert("id"@, String::json(v.id)).insert("op"@, Op::json(v.op)),
        )
    }

    open spec fn read(j: JsonView) -> Option<SubmissionView> {
        match (
            need::<String>(j, "id"@),
            need::<Op>(j, "op"@),
        ) {
            (Some(id), Some(op)) => Some(
                SubmissionView { id, op },
            ),
            _ => None,
        }
    }

    fn to_json(&self) -> (r: Json) {
        let mut m = Members::new();
        m.put("id", self.id.to_json());
        m.put("op", self.op.to_json());
        m.done()
    }

    fn from_json(j: &Json) -> (r: Option<Self>) {
        match (
            take_needed::<String>(j, "id"),
            take_needed::<Op>(j, "op"),
        ) {
            (Some(id), Some(op)) => Some(
                Submission { id, op },
            ),
            _ => None,
        }
    }

    open spec fn faithful(v: SubmissionView) -> bool {
        true
    }

    proof fn round_trip(v: SubmissionView) {
        reveal_strlit("id");
        reveal_strlit("op");
        assert("id"@[0] != "op"@[0]);
        String::round_trip(v.id);
        Op::round_trip(v.op);
    }
}

impl Submission {
    /// A request.
    pub fn new(id: &str, op: Op) -> (r: Self)
        ensures
            r.deep_view() == (SubmissionView { id: id@, op: op.deep_view() }),
    {
        Submission { id: id.to_owned(), op }
    }
}

} // verus!
