//! The session log: one event per line, append only.
use vstd::prelude::*;

use crate::codec::Wire;
use crate::codec::maybe;
use crate::codec::need;
use crate::codec::take_maybe;
use crate::codec::take_needed;
use crate::codec::with_some;
use crate::content::Content;
use crate::content::ContentView;
use crate::content::StopReason;
use crate::content::TokenUsage;
use crate::content::TokenUsageView;
use crate::dup::Dup;
use crate::ids::CallId;
use crate::ids::CheckpointId;
use crate::ids::SessionId;
use crate::ids::TurnId;
use crate::json::Json;
use crate::json::JsonView;
use crate::json::Members;
use crate::op::ReviewDecision;
use crate::permission::Decision;
use crate::permission::DecisionView;
use crate::permission::PermissionMode;
use crate::text::same;

verus! {

/// The model of `LogEvent`.
pub enum LogEventView {
    SessionMeta { id: Seq<char>, parent: Option<Seq<char>>, cwd: Seq<char>, git_head: Option<Seq<char>>, config_fingerprint: Seq<char>, created_at_ms: u64 },
    SessionTitle { title: Seq<char> },
    UserInput { content: Seq<ContentView>, turn_id: Seq<char> },
    AssistantMessage { content: Seq<ContentView>, usage: TokenUsageView, turn_id: Seq<char> },
    ToolCall { call_id: Seq<char>, tool: Seq<char>, args: JsonView },
    ToolResult { call_id: Seq<char>, output: JsonView, duration_ms: u64 },
    Approval { call_id: Seq<char>, verdict: ReviewDecision, rule_suggestion: Option<Seq<char>> },
    PermissionGrant { tool: Seq<char>, pattern: Seq<char> },
    PermissionDecision { tool: Seq<char>, decision: DecisionView },
    ModeChange { mode: PermissionMode },
    Compaction { summary: Seq<ContentView>, covers_through_seq: u64 },
    Checkpoint { checkpoint_id: Seq<char>, shadow_commit: Seq<char> },
    TurnBoundary { turn_id: Seq<char>, stop_reason: StopReason },
    Error { message: Seq<char>, retryable: bool },
}

/// What a line of the session log records.
#[derive(Debug, PartialEq)]
pub enum LogEvent {
    /// The first line: which session this is, and which it was forked from.
    SessionMeta { id: SessionId, parent: Option<SessionId>, cwd: String, git_head: Option<String>, config_fingerprint: String, created_at_ms: u64 },
    SessionTitle { title: String },
    UserInput { content: Vec<Content>, turn_id: TurnId },
    AssistantMessage { content: Vec<Content>, usage: TokenUsage, turn_id: TurnId },
    /// What the model asked for, before it is decided.
    ToolCall { call_id: CallId, tool: String, args: Json },
    ToolResult { call_id: CallId, output: Json, duration_ms: u64 },
    Approval { call_id: CallId, verdict: ReviewDecision, rule_suggestion: Option<String> },
    /// A grant for the session.
    PermissionGrant { tool: String, pattern: String },
    PermissionDecision { tool: String, decision: Decision },
    ModeChange { mode: PermissionMode },
    /// A summary that stands for the lines up to a sequence number.
    Compaction { summary: Vec<Content>, covers_through_seq: u64 },
    Checkpoint { checkpoint_id: CheckpointId, shadow_commit: String },
    TurnBoundary { turn_id: TurnId, stop_reason: StopReason },
    Error { message: String, retryable: bool },
}

impl DeepView for LogEvent {
    type V = LogEventView;

    open spec fn deep_view(&self) -> LogEventView {
        match *self {
            LogEvent::SessionMeta { id, parent, cwd, git_head, config_fingerprint, created_at_ms } => LogEventView::SessionMeta { id: id.deep_view(), parent: parent.deep_view(), cwd: cwd.deep_view(), git_head: git_head.deep_view(), config_fingerprint: config_fingerprint.deep_view(), created_at_ms: created_at_ms.deep_view() },
            LogEvent::SessionTitle { title } => LogEventView::SessionTitle { title: title.deep_view() },
            LogEvent::UserInput { content, turn_id } => LogEventView::UserInput { content: content.deep_view(), turn_id: turn_id.deep_view() },
            LogEvent::AssistantMessage { content, usage, turn_id } => LogEventView::AssistantMessage { content: content.deep_view(), usage: usage.deep_view(), turn_id: turn_id.deep_view() },
            LogEvent::ToolCall { call_id, tool, args } => LogEventView::ToolCall { call_id: call_id.deep_view(), tool: tool.deep_view(), args: args.deep_view() },
            LogEvent::ToolResult { call_id, output, duration_ms } => LogEventView::ToolResult { call_id: call_id.deep_view(), output: output.deep_view(), duration_ms: duration_ms.deep_view() },
            LogEvent::Approval { call_id, verdict, rule_suggestion } => LogEventView::Approval { call_id: call_id.deep_view(), verdict: verdict.deep_view(), rule_suggestion: rule_suggestion.deep_view() },
            LogEvent::PermissionGrant { tool, pattern } => LogEventView::PermissionGrant { tool: tool.deep_view(), pattern: pattern.deep_view() },
            LogEvent::PermissionDecision { tool, decision } => LogEventView::PermissionDecision { tool: tool.deep_view(), decision: decision.deep_view() },
            LogEvent::ModeChange { mode } => LogEventView::ModeChange { mode: mode.deep_view() },
            LogEvent::Compaction { summary, covers_through_seq } => LogEventView::Compaction { summary: summary.deep_view(), covers_through_seq: covers_through_seq.deep_view() },
            LogEvent::Checkpoint { checkpoint_id, shadow_commit } => LogEventView::Checkpoint { checkpoint_id: checkpoint_id.deep_view(), shadow_commit: shadow_commit.deep_view() },
            LogEvent::TurnBoundary { turn_id, stop_reason } => LogEventView::TurnBoundary { turn_id: turn_id.deep_view(), stop_reason: stop_reason.deep_view() },
            LogEvent::Error { message, retryable } => LogEventView::Error { message: message.deep_view(), retryable: retryable.deep_view() },
        }
    }
}

impl Dup for LogEvent {
    fn dup(&self) -> (r: Self) {
        match self {
            LogEvent::SessionMeta { id, parent, cwd, git_head, config_fingerprint, created_at_ms } => LogEvent::SessionMeta { id: id.dup(), parent: parent.dup(), cwd: cwd.dup(), git_head: git_head.dup(), config_fingerprint: config_fingerprint.dup(), created_at_ms: created_at_ms.dup() },
            LogEvent::SessionTitle { title } => LogEvent::SessionTitle { title: title.dup() },
            LogEvent::UserInput { content, turn_id } => LogEvent::UserInput { content: content.dup(), turn_id: turn_id.dup() },
            LogEvent::AssistantMessage { content, usage, turn_id } => LogEvent::AssistantMessage { content: content.dup(), usage: usage.dup(), turn_id: turn_id.dup() },
            LogEvent::ToolCall { call_id, tool, args } => LogEvent::ToolCall { call_id: call_id.dup(), tool: tool.dup(), args: args.dup() },
            LogEvent::ToolResult { call_id, output, duration_ms } => LogEvent::ToolResult { call_id: call_id.dup(), output: output.dup(), duration_ms: duration_ms.dup() },
            LogEvent::Approval { call_id, verdict, rule_suggestion } => LogEvent::Approval { call_id: call_id.dup(), verdict: verdict.dup(), rule_suggestion: rule_suggestion.dup() },
            LogEvent::PermissionGrant { tool, pattern } => LogEvent::PermissionGrant { tool: tool.dup(), pattern: pattern.dup() },
            LogEvent::PermissionDecision { tool, decision } => LogEvent::PermissionDecision { tool: tool.dup(), decision: decision.dup() },
            LogEvent::ModeChange { mode } => LogEvent::ModeChange { mode: mode.dup() },
            LogEvent::Compaction { summary, covers_through_seq } => LogEvent::Compaction { summary: summary.dup(), covers_through_seq: covers_through_seq.dup() },
            LogEvent::Checkpoint { checkpoint_id, shadow_commit } => LogEvent::Checkpoint { checkpoint_id: checkpoint_id.dup(), shadow_commit: shadow_commit.dup() },
            LogEvent::TurnBoundary { turn_id, stop_reason } => LogEvent::TurnBoundary { turn_id: turn_id.dup(), stop_reason: stop_reason.dup() },
            LogEvent::Error { message, retryable } => LogEvent::Error { message: message.dup(), retryable: retryable.dup() },
        }
    }
}

impl Clone for LogEvent {
    fn clone(&self) -> (r: Self)
        ensures
            r.deep_view() == self.deep_view(),
    {
        self.dup()
    }
}

/// The members that an event adds to an object.
pub open spec fn log_event_members(
    v: LogEventView,
    base: Map<Seq<char>, JsonView>,
) -> Map<Seq<char>, JsonView> {
    match v {
        LogEventView::SessionMeta { id, parent, cwd, git_head, config_fingerprint, created_at_ms } => with_some::<String>(
            with_some::<SessionId>(
            base.insert("type"@, JsonView::Text("session_meta"@)).insert("id"@, SessionId::json(id)),
            "parent"@,
            parent,
        ).insert("cwd"@, String::json(cwd)),
            "git_head"@,
            git_head,
        ).insert("config_fingerprint"@, String::json(config_fingerprint)).insert("created_at_ms"@, u64::json(created_at_ms)),
        LogEventView::SessionTitle { title } => base.insert("type"@, JsonView::Text("session_title"@)).insert("title"@, String::json(title)),
        LogEventView::UserInput { content, turn_id } => base.insert("type"@, JsonView::Text("user_input"@)).insert("content"@, <Vec<Content> as Wire>::json(content)).insert("turn_id"@, TurnId::json(turn_id)),
        LogEventView::AssistantMessage { content, usage, turn_id } => base.insert("type"@, JsonView::Text("assistant_message"@)).insert("content"@, <Vec<Content> as Wire>::json(content)).insert("usage"@, TokenUsage::json(usage)).insert("turn_id"@, TurnId::json(turn_id)),
        LogEventView::ToolCall { call_id, tool, args } => base.insert("type"@, JsonView::Text("tool_call"@)).insert("call_id"@, CallId::json(call_id)).insert("tool"@, String::json(tool)).insert("args"@, Json::json(args)),
        LogEventView::ToolResult { call_id, output, duration_ms } => base.insert("type"@, JsonView::Text("tool_result"@)).insert("call_id"@, CallId::json(call_id)).insert("output"@, Json::json(output)).insert("duration_ms"@, u64::json(duration_ms)),
        LogEventView::Approval { call_id, verdict, rule_suggestion } => with_some::<String>(
            base.insert("type"@, JsonView::Text("approval"@)).insert("call_id"@, CallId::json(call_id)).insert("verdict"@, ReviewDecision::json(verdict)),
            "rule_suggestion"@,
            rule_suggestion,
        ),
        LogEventView::PermissionGrant { tool, pattern } => base.insert("type"@, JsonView::Text("permission_grant"@)).insert("tool"@, String::json(tool)).insert("pattern"@, String::json(pattern)),
        LogEventView::PermissionDecision { tool, decision } => base.insert("type"@, JsonView::Text("permission_decision"@)).insert("tool"@, String::json(tool)).insert("decision"@, Decision::json(decision)),
        LogEventView::ModeChange { mode } => base.insert("type"@, JsonView::Text("mode_change"@)).insert("mode"@, PermissionMode::json(mode)),
        LogEventView::Compaction { summary, covers_through_seq } => base.insert("type"@, JsonView::Text("compaction"@)).insert("summary"@, <Vec<Content> as Wire>::json(summary)).insert("covers_through_seq"@, u64::json(covers_through_seq)),
        LogEventView::Checkpoint { checkpoint_id, shadow_commit } => base.insert("type"@, JsonView::Text("checkpoint"@)).insert("checkpoint_id"@, CheckpointId::json(checkpoint_id)).insert("shadow_commit"@, String::json(shadow_commit)),
        LogEventView::TurnBoundary { turn_id, stop_reason } => base.insert("type"@, JsonView::Text("turn_boundary"@)).insert("turn_id"@, TurnId::json(turn_id)).insert("stop_reason"@, StopReason::json(stop_reason)),
        LogEventView::Error { message, retryable } => base.insert("type"@, JsonView::Text("error"@)).insert("message"@, String::json(message)).insert("retryable"@, bool::json(retryable)),
    }
}

/// Add the members of an event to an object.
pub fn put_log_event(m: &mut Members, e: &LogEvent)
    ensures
        final(m)@ == log_event_members(e.deep_view(), old(m)@),
{
    match e {
        LogEvent::SessionMeta { id, parent, cwd, git_head, config_fingerprint, created_at_ms } => {
            m.put_text("type", "session_meta");
            m.put("id", id.to_json());
            m.put_some::<SessionId>("parent", parent);
            m.put("cwd", cwd.to_json());
            m.put_some::<String>("git_head", git_head);
            m.put("config_fingerprint", config_fingerprint.to_json());
            m.put("created_at_ms", created_at_ms.to_json());
        },
        LogEvent::SessionTitle { title } => {
            m.put_text("type", "session_title");
            m.put("title", title.to_json());
        },
        LogEvent::UserInput { content, turn_id } => {
            m.put_text("type", "user_input");
            m.put("content", content.to_json());
            m.put("turn_id", turn_id.to_json());
        },
        LogEvent::AssistantMessage { content, usage, turn_id } => {
            m.put_text("type", "assistant_message");
            m.put("content", content.to_json());
            m.put("usage", usage.to_json());
            m.put("turn_id", turn_id.to_json());
        },
        LogEvent::ToolCall { call_id, tool, args } => {
            m.put_text("type", "tool_call");
            m.put("call_id", call_id.to_json());
            m.put("tool", tool.to_json());
            m.put("args", args.to_json());
        },
        LogEvent::ToolResult { call_id, output, duration_ms } => {
            m.put_text("type", "tool_result");
            m.put("call_id", call_id.to_json());
            m.put("output", output.to_json());
            m.put("duration_ms", duration_ms.to_json());
        },
        LogEvent::Approval { call_id, verdict, rule_suggestion } => {
            m.put_text("type", "approval");
            m.put("call_id", call_id.to_json());
            m.put("verdict", verdict.to_json());
            m.put_some::<String>("rule_suggestion", rule_suggestion);
        },
        LogEvent::PermissionGrant { tool, pattern } => {
            m.put_text("type", "permission_grant");
            m.put("tool", tool.to_json());
            m.put("pattern", pattern.to_json());
        },
        LogEvent::PermissionDecision { tool, decision } => {
            m.put_text("type", "permission_decision");
            m.put("tool", tool.to_json());
            m.put("decision", decision.to_json());
        },
        LogEvent::ModeChange { mode } => {
            m.put_text("type", "mode_change");
            m.put("mode", mode.to_json());
        },
        LogEvent::Compaction { summary, covers_through_seq } => {
            m.put_text("type", "compaction");
            m.put("summary", summary.to_json());
            m.put("covers_through_seq", covers_through_seq.to_json());
        },
        LogEvent::Checkpoint { checkpoint_id, shadow_commit } => {
            m.put_text("type", "checkpoint");
            m.put("checkpoint_id", checkpoint_id.to_json());
            m.put("shadow_commit", shadow_commit.to_json());
        },
        LogEvent::TurnBoundary { turn_id, stop_reason } => {
            m.put_text("type", "turn_boundary");
            m.put("turn_id", turn_id.to_json());
            m.put("stop_reason", stop_reason.to_json());
        },
        LogEvent::Error { message, retryable } => {
            m.put_text("type", "error");
            m.put("message", message.to_json());
            m.put("retryable", retryable.to_json());
        },
    }
}

/// An event is read back from an object that it was added to.
pub proof fn log_event_round_trip(v: LogEventView, base: Map<Seq<char>, JsonView>)
    requires
        !base.contains_key("git_head"@),
        !base.contains_key("parent"@),
        !base.contains_key("rule_suggestion"@),
    ensures
        LogEvent::read(JsonView::Object(log_event_members(v, base))) == Some(v),
{
    reveal_strlit("session_meta");
    reveal_strlit("session_title");
    reveal_strlit("user_input");
    reveal_strlit("assistant_message");
    reveal_strlit("tool_call");
    reveal_strlit("tool_result");
    reveal_strlit("approval");
    reveal_strlit("permission_grant");
    reveal_strlit("permission_decision");
    reveal_strlit("mode_change");
    reveal_strlit("compaction");
    reveal_strlit("checkpoint");
    reveal_strlit("turn_boundary");
    reveal_strlit("error");
    assert("session_meta"@.len() == 12 && "session_title"@.len() == 13 && "user_input"@.len() == 10 && "assistant_message"@.len() == 17 && "tool_call"@.len() == 9 && "tool_result"@.len() == 11 && "approval"@.len() == 8 && "permission_grant"@.len() == 16 && "permission_decision"@.len() == 19 && "mode_change"@.len() == 11 && "compaction"@.len() == 10 && "checkpoint"@.len() == 10 && "turn_boundary"@.len() == 13 && "error"@.len() == 5);
    assert("tool_result"@[0] != "mode_change"@[0]);
    assert("user_input"@[0] != "compaction"@[0]);
    assert("user_input"@[0] != "checkpoint"@[0]);
    assert("compaction"@[1] != "checkpoint"@[1]);
    assert("session_title"@[0] != "turn_boundary"@[0]);
    match v {
        LogEventView::SessionMeta { id, parent, cwd, git_head, config_fingerprint, created_at_ms } => {
            reveal_strlit("type");
            reveal_strlit("id");
            reveal_strlit("parent");
            reveal_strlit("cwd");
            reveal_strlit("git_head");
            reveal_strlit("config_fingerprint");
            reveal_strlit("created_at_ms");
            assert("type"@.len() == 4 && "id"@.len() == 2 && "parent"@.len() == 6 && "cwd"@.len() == 3 && "git_head"@.len() == 8 && "config_fingerprint"@.len() == 18 && "created_at_ms"@.len() == 13);
            SessionId::round_trip(id);
            if let Some(x) = parent {
                SessionId::round_trip(x);
            }
            String::round_trip(cwd);
            if let Some(x) = git_head {
                String::round_trip(x);
            }
            String::round_trip(config_fingerprint);
            u64::round_trip(created_at_ms);
        },
        LogEventView::SessionTitle { title } => {
            reveal_strlit("type");
            reveal_strlit("title");
            assert("type"@.len() == 4 && "title"@.len() == 5);
            String::round_trip(title);
        },
        LogEventView::UserInput { content, turn_id } => {
            reveal_strlit("type");
            reveal_strlit("content");
            reveal_strlit("turn_id");
            assert("type"@.len() == 4 && "content"@.len() == 7 && "turn_id"@.len() == 7);
            assert("content"@[0] != "turn_id"@[0]);
            <Vec<Content> as Wire>::round_trip(content);
            TurnId::round_trip(turn_id);
        },
        LogEventView::AssistantMessage { content, usage, turn_id } => {
            reveal_strlit("type");
            reveal_strlit("content");
            reveal_strlit("usage");
            reveal_strlit("turn_id");
            assert("type"@.len() == 4 && "content"@.len() == 7 && "usage"@.len() == 5 && "turn_id"@.len() == 7);
            assert("content"@[0] != "turn_id"@[0]);
            <Vec<Content> as Wire>::round_trip(content);
            TokenUsage::round_trip(usage);
            TurnId::round_trip(turn_id);
        },
        LogEventView::ToolCall { call_id, tool, args } => {
            reveal_strlit("type");
            reveal_strlit("call_id");
            reveal_strlit("tool");
            reveal_strlit("args");
            assert("type"@.len() == 4 && "call_id"@.len() == 7 && "tool"@.len() == 4 && "args"@.len() == 4);
            assert("type"@[1] != "tool"@[1]);
            assert("type"@[0] != "args"@[0]);
            assert("tool"@[0] != "args"@[0]);
            CallId::round_trip(call_id);
            String::round_trip(tool);
            Json::round_trip(args);
        },
        LogEventView::ToolResult { call_id, output, duration_ms } => {
            reveal_strlit("type");
            reveal_strlit("call_id");
            reveal_strlit("output");
            reveal_strlit("duration_ms");
            assert("type"@.len() == 4 && "call_id"@.len() == 7 && "output"@.len() == 6 && "duration_ms"@.len() == 11);
            CallId::round_trip(call_id);
            Json::round_trip(output);
            u64::round_trip(duration_ms);
        },
        LogEventView::Approval { call_id, verdict, rule_suggestion } => {
            reveal_strlit("type");
            reveal_strlit("call_id");
            reveal_strlit("verdict");
            reveal_strlit("rule_suggestion");
            assert("type"@.len() == 4 && "call_id"@.len() == 7 && "verdict"@.len() == 7 && "rule_suggestion"@.len() == 15);
            assert("call_id"@[0] != "verdict"@[0]);
            CallId::round_trip(call_id);
            ReviewDecision::round_trip(verdict);
            if let Some(x) = rule_suggestion {
                String::round_trip(x);
            }
        },
        LogEventView::PermissionGrant { tool, pattern } => {
            reveal_strlit("type");
            reveal_strlit("tool");
            reveal_strlit("pattern");
            assert("type"@.len() == 4 && "tool"@.len() == 4 && "pattern"@.len() == 7);
            assert("type"@[1] != "tool"@[1]);
            String::round_trip(tool);
            String::round_trip(pattern);
        },
        LogEventView::PermissionDecision { tool, decision } => {
            reveal_strlit("type");
            reveal_strlit("tool");
            reveal_strlit("decision");
            assert("type"@.len() == 4 && "tool"@.len() == 4 && "decision"@.len() == 8);
            assert("type"@[1] != "tool"@[1]);
            String::round_trip(tool);
            Decision::round_trip(decision);
        },
        LogEventView::ModeChange { mode } => {
            reveal_strlit("type");
            reveal_strlit("mode");
            assert("type"@[0] != "mode"@[0]);
            PermissionMode::round_trip(mode);
        },
        LogEventView::Compaction { summary, covers_through_seq } => {
            reveal_strlit("type");
            reveal_strlit("summary");
            reveal_strlit("covers_through_seq");
            assert("type"@.len() == 4 && "summary"@.len() == 7 && "covers_through_seq"@.len() == 18);
            <Vec<Content> as Wire>::round_trip(summary);
            u64::round_trip(covers_through_seq);
        },
        LogEventView::Checkpoint { checkpoint_id, shadow_commit } => {
            reveal_strlit("type");
            reveal_strlit("checkpoint_id");
            reveal_strlit("shadow_commit");
            assert("type"@.len() == 4 && "checkpoint_id"@.len() == 13 && "shadow_commit"@.len() == 13);
            assert("checkpoint_id"@[0] != "shadow_commit"@[0]);
            CheckpointId::round_trip(checkpoint_id);
            String::round_trip(shadow_commit);
        },
        LogEventView::TurnBoundary { turn_id, stop_reason } => {
            reveal_strlit("type");
            reveal_strlit("turn_id");
            reveal_strlit("stop_reason");
            assert("type"@.len() == 4 && "turn_id"@.len() == 7 && "stop_reason"@.len() == 11);
            TurnId::round_trip(turn_id);
            StopReason::round_trip(stop_reason);
        },
        LogEventView::Error { message, retryable } => {
            reveal_strlit("type");
            reveal_strlit("message");
            reveal_strlit("retryable");
            assert("type"@.len() == 4 && "message"@.len() == 7 && "retryable"@.len() == 9);
            String::round_trip(message);
            bool::round_trip(retryable);
        },
    }
}

impl Wire for LogEvent {
    open spec fn json(v: LogEventView) -> JsonView {
        JsonView::Object(log_event_members(v, Map::empty()))
    }

    open spec fn read(j: JsonView) -> Option<LogEventView> {
        match need::<String>(j, "type"@) {
            None => None,
            Some(t) => if t == "session_meta"@ {
                match (
                    need::<SessionId>(j, "id"@),
                    maybe::<SessionId>(j, "parent"@),
                    need::<String>(j, "cwd"@),
                    maybe::<String>(j, "git_head"@),
                    need::<String>(j, "config_fingerprint"@),
                    need::<u64>(j, "created_at_ms"@),
                ) {
                    (Some(id), Some(parent), Some(cwd), Some(git_head), Some(config_fingerprint), Some(created_at_ms)) => Some(
                        LogEventView::SessionMeta { id, parent, cwd, git_head, config_fingerprint, created_at_ms },
                    ),
                    _ => None,
                }
            } else if t == "session_title"@ {
                match need::<String>(j, "title"@) {
                    Some(title) => Some(LogEventView::SessionTitle { title }),
                    None => None,
                }
            } else if t == "user_input"@ {
                match (
                    need::<Vec<Content>>(j, "content"@),
                    need::<TurnId>(j, "turn_id"@),
                ) {
                    (Some(content), Some(turn_id)) => Some(
                        LogEventView::UserInput { content, turn_id },
                    ),
                    _ => None,
                }
            } else if t == "assistant_message"@ {
                match (
                    need::<Vec<Content>>(j, "content"@),
                    need::<TokenUsage>(j, "usage"@),
                    need::<TurnId>(j, "turn_id"@),
                ) {
                    (Some(content), Some(usage), Some(turn_id)) => Some(
                        LogEventView::AssistantMessage { content, usage, turn_id },
                    ),
                    _ => None,
                }
            } else if t == "tool_call"@ {
                match (
                    need::<CallId>(j, "call_id"@),
                    need::<String>(j, "tool"@),
                    need::<Json>(j, "args"@),
                ) {
                    (Some(call_id), Some(tool), Some(args)) => Some(
                        LogEventView::ToolCall { call_id, tool, args },
                    ),
                    _ => None,
                }
            } else if t == "tool_result"@ {
                match (
                    need::<CallId>(j, "call_id"@),
                    need::<Json>(j, "output"@),
                    need::<u64>(j, "duration_ms"@),
                ) {
                    (Some(call_id), Some(output), Some(duration_ms)) => Some(
                        LogEventView::ToolResult { call_id, output, duration_ms },
                    ),
                    _ => None,
                }
            } else if t == "approval"@ {
                match (
                    need::<CallId>(j, "call_id"@),
                    need::<ReviewDecision>(j, "verdict"@),
                    maybe::<String>(j, "rule_suggestion"@),
                ) {
                    (Some(call_id), Some(verdict), Some(rule_suggestion)) => Some(
                        LogEventView::Approval { call_id, verdict, rule_suggestion },
                    ),
                    _ => None,
                }
            } else if t == "permission_grant"@ {
                match (
                    need::<String>(j, "tool"@),
                    need::<String>(j, "pattern"@),
                ) {
                    (Some(tool), Some(pattern)) => Some(
                        LogEventView::PermissionGrant { tool, pattern },
                    ),
                    _ => None,
                }
            } else if t == "permission_decision"@ {
                match (
                    need::<String>(j, "tool"@),
                    need::<Decision>(j, "decision"@),
                ) {
                    (Some(tool), Some(decision)) => Some(
                        LogEventView::PermissionDecision { tool, decision },
                    ),
                    _ => None,
                }
            } else if t == "mode_change"@ {
                match need::<PermissionMode>(j, "mode"@) {
                    Some(mode) => Some(LogEventView::ModeChange { mode }),
                    None => None,
                }
            } else if t == "compaction"@ {
                match (
                    need::<Vec<Content>>(j, "summary"@),
                    need::<u64>(j, "covers_through_seq"@),
                ) {
                    (Some(summary), Some(covers_through_seq)) => Some(
                        LogEventView::Compaction { summary, covers_through_seq },
                    ),
                    _ => None,
                }
            } else if t == "checkpoint"@ {
                match (
                    need::<CheckpointId>(j, "checkpoint_id"@),
                    need::<String>(j, "shadow_commit"@),
                ) {
                    (Some(checkpoint_id), Some(shadow_commit)) => Some(
                        LogEventView::Checkpoint { checkpoint_id, shadow_commit },
                    ),
                    _ => None,
                }
            } else if t == "turn_boundary"@ {
                match (
                    need::<TurnId>(j, "turn_id"@),
                    need::<StopReason>(j, "stop_reason"@),
                ) {
                    (Some(turn_id), Some(stop_reason)) => Some(
                        LogEventView::TurnBoundary { turn_id, stop_reason },
                    ),
                    _ => None,
                }
            } else if t == "error"@ {
                match (
                    need::<String>(j, "message"@),
                    need::<bool>(j, "retryable"@),
                ) {
                    (Some(message), Some(retryable)) => Some(
                        LogEventView::Error { message, retryable },
                    ),
                    _ => None,
                }
            } else {
                None
            },
        }
    }

    fn to_json(&self) -> (r: Json) {
        let mut m = Members::new();
        put_log_event(&mut m, self);
        m.done()
    }

    fn from_json(j: &Json) -> (r: Option<Self>) {
        let t = match take_needed::<String>(j, "type") {
            Some(t) => t,
            None => return None,
        };
        if same(t.as_str(), "session_meta") {
            match (
                take_needed::<SessionId>(j, "id"),
                take_maybe::<SessionId>(j, "parent"),
                take_needed::<String>(j, "cwd"),
                take_maybe::<String>(j, "git_head"),
                take_needed::<String>(j, "config_fingerprint"),
                take_needed::<u64>(j, "created_at_ms"),
            ) {
                (Some(id), Some(parent), Some(cwd), Some(git_head), Some(config_fingerprint), Some(created_at_ms)) => Some(
                    LogEvent::SessionMeta { id, parent, cwd, git_head, config_fingerprint, created_at_ms },
                ),
                _ => None,
            }
        } else if same(t.as_str(), "session_title") {
            match take_needed::<String>(j, "title") {
                Some(title) => Some(LogEvent::SessionTitle { title }),
                None => None,
            }
        } else if same(t.as_str(), "user_input") {
            match (
                take_needed::<Vec<Content>>(j, "content"),
                take_needed::<TurnId>(j, "turn_id"),
            ) {
                (Some(content), Some(turn_id)) => Some(
                    LogEvent::UserInput { content, turn_id },
                ),
                _ => None,
            }
        } else if same(t.as_str(), "assistant_message") {
            match (
                take_needed::<Vec<Content>>(j, "content"),
                take_needed::<TokenUsage>(j, "usage"),
                take_needed::<TurnId>(j, "turn_id"),
            ) {
                (Some(content), Some(usage), Some(turn_id)) => Some(
                    LogEvent::AssistantMessage { content, usage, turn_id },
                ),
                _ => None,
            }
        } else if same(t.as_str(), "tool_call") {
            match (
                take_needed::<CallId>(j, "call_id"),
                take_needed::<String>(j, "tool"),
                take_needed::<Json>(j, "args"),
            ) {
                (Some(call_id), Some(tool), Some(args)) => Some(
                    LogEvent::ToolCall { call_id, tool, args },
                ),
                _ => None,
            }
        } else if same(t.as_str(), "tool_result") {
            match (
                take_needed::<CallId>(j, "call_id"),
                take_needed::<Json>(j, "output"),
                take_needed::<u64>(j, "duration_ms"),
            ) {
                (Some(call_id), Some(output), Some(duration_ms)) => Some(
                    LogEvent::ToolResult { call_id, output, duration_ms },
                ),
                _ => None,
            }
        } else if same(t.as_str(), "approval") {
            match (
                take_needed::<CallId>(j, "call_id"),
                take_needed::<ReviewDecision>(j, "verdict"),
                take_maybe::<String>(j, "rule_suggestion"),
            ) {
                (Some(call_id), Some(verdict), Some(rule_suggestion)) => Some(
                    LogEvent::Approval { call_id, verdict, rule_suggestion },
                ),
                _ => None,
            }
        } else if same(t.as_str(), "permission_grant") {
            match (
                take_needed::<String>(j, "tool"),
                take_needed::<String>(j, "pattern"),
            ) {
                (Some(tool), Some(pattern)) => Some(
                    LogEvent::PermissionGrant { tool, pattern },
                ),
                _ => None,
            }
        } else if same(t.as_str(), "permission_decision") {
            match (
                take_needed::<String>(j, "tool"),
                take_needed::<Decision>(j, "decision"),
            ) {
                (Some(tool), Some(decision)) => Some(
                    LogEvent::PermissionDecision { tool, decision },
                ),
                _ => None,
            }
        } else if same(t.as_str(), "mode_change") {
            match take_needed::<PermissionMode>(j, "mode") {
                Some(mode) => Some(LogEvent::ModeChange { mode }),
                None => None,
            }
        } else if same(t.as_str(), "compaction") {
            match (
                take_needed::<Vec<Content>>(j, "summary"),
                take_needed::<u64>(j, "covers_through_seq"),
            ) {
                (Some(summary), Some(covers_through_seq)) => Some(
                    LogEvent::Compaction { summary, covers_through_seq },
                ),
                _ => None,
            }
        } else if same(t.as_str(), "checkpoint") {
            match (
                take_needed::<CheckpointId>(j, "checkpoint_id"),
                take_needed::<String>(j, "shadow_commit"),
            ) {
                (Some(checkpoint_id), Some(shadow_commit)) => Some(
                    LogEvent::Checkpoint { checkpoint_id, shadow_commit },
                ),
                _ => None,
            }
        } else if same(t.as_str(), "turn_boundary") {
            match (
                take_needed::<TurnId>(j, "turn_id"),
                take_needed::<StopReason>(j, "stop_reason"),
            ) {
                (Some(turn_id), Some(stop_reason)) => Some(
                    LogEvent::TurnBoundary { turn_id, stop_reason },
                ),
                _ => None,
            }
        } else if same(t.as_str(), "error") {
            match (
                take_needed::<String>(j, "message"),
                take_needed::<bool>(j, "retryable"),
            ) {
                (Some(message), Some(retryable)) => Some(
                    LogEvent::Error { message, retryable },
                ),
                _ => None,
            }
        } else {
            None
        }
    }

    open spec fn faithful(v: LogEventView) -> bool {
        true
    }

    proof fn round_trip(v: LogEventView) {
        log_event_round_trip(v, Map::empty());
    }
}

/// The model of `LogLine`.
pub struct LogLineView {
    pub seq: u64,
    pub ts: u64,
    pub event: LogEventView,
}

/// A line of the session log.
#[derive(Debug, PartialEq)]
pub struct LogLine {
    pub seq: u64,
    /// Milliseconds since the epoch.
    pub ts: u64,
    pub event: LogEvent,
}

impl DeepView for LogLine {
    type V = LogLineView;

    open spec fn deep_view(&self) -> LogLineView {
        LogLineView { seq: self.seq, ts: self.ts, event: self.event.deep_view() }
    }
}

impl Dup for LogLine {
    fn dup(&self) -> (r: Self) {
        LogLine { seq: self.seq, ts: self.ts, event: self.event.dup() }
    }
}

impl Wire for LogLine {
    /// The members of the event stand beside `seq` and `ts`.
    open spec fn json(v: LogLineView) -> JsonView {
        JsonView::Object(
            log_event_members(
                v.event,
                Map::empty().insert("seq"@, u64::json(v.seq)).insert("ts"@, u64::json(v.ts)),
            ),
        )
    }

    open spec fn read(j: JsonView) -> Option<LogLineView> {
        match (need::<u64>(j, "seq"@), need::<u64>(j, "ts"@), LogEvent::read(j)) {
            (Some(seq), Some(ts), Some(event)) => Some(LogLineView { seq, ts, event }),
            _ => None,
        }
    }

    fn to_json(&self) -> (r: Json) {
        let mut m = Members::new();
        m.put("seq", self.seq.to_json());
        m.put("ts", self.ts.to_json());
        put_log_event(&mut m, &self.event);
        m.done()
    }

    fn from_json(j: &Json) -> (r: Option<Self>) {
        match (
            take_needed::<u64>(j, "seq"),
            take_needed::<u64>(j, "ts"),
            LogEvent::from_json(j),
        ) {
            (Some(seq), Some(ts), Some(event)) => Some(LogLine { seq, ts, event }),
            _ => None,
        }
    }

    open spec fn faithful(v: LogLineView) -> bool {
        true
    }

    proof fn round_trip(v: LogLineView) {
        let base = Map::<Seq<char>, JsonView>::empty().insert("seq"@, u64::json(v.seq)).insert(
            "ts"@,
            u64::json(v.ts),
        );
        reveal_strlit("seq");
        reveal_strlit("ts");
        reveal_strlit("type");
        reveal_strlit("args");
        reveal_strlit("call_id");
        reveal_strlit("checkpoint_id");
        reveal_strlit("config_fingerprint");
        reveal_strlit("content");
        reveal_strlit("covers_through_seq");
        reveal_strlit("created_at_ms");
        reveal_strlit("cwd");
        reveal_strlit("decision");
        reveal_strlit("duration_ms");
        reveal_strlit("git_head");
        reveal_strlit("id");
        reveal_strlit("message");
        reveal_strlit("mode");
        reveal_strlit("output");
        reveal_strlit("parent");
        reveal_strlit("pattern");
        reveal_strlit("retryable");
        reveal_strlit("rule_suggestion");
        reveal_strlit("shadow_commit");
        reveal_strlit("stop_reason");
        reveal_strlit("summary");
        reveal_strlit("title");
        reveal_strlit("tool");
        reveal_strlit("turn_id");
        reveal_strlit("usage");
        reveal_strlit("verdict");
        assert("seq"@.len() == 3 && "ts"@.len() == 2 && "type"@.len() == 4 && "args"@.len() == 4 && "call_id"@.len() == 7 && "checkpoint_id"@.len() == 13 && "config_fingerprint"@.len() == 18 && "content"@.len() == 7 && "covers_through_seq"@.len() == 18 && "created_at_ms"@.len() == 13 && "cwd"@.len() == 3 && "decision"@.len() == 8 && "duration_ms"@.len() == 11 && "git_head"@.len() == 8 && "id"@.len() == 2 && "message"@.len() == 7 && "mode"@.len() == 4 && "output"@.len() == 6 && "parent"@.len() == 6 && "pattern"@.len() == 7 && "retryable"@.len() == 9 && "rule_suggestion"@.len() == 15 && "shadow_commit"@.len() == 13 && "stop_reason"@.len() == 11 && "summary"@.len() == 7 && "title"@.len() == 5 && "tool"@.len() == 4 && "turn_id"@.len() == 7 && "usage"@.len() == 5 && "verdict"@.len() == 7);
        assert("id"@[0] != "ts"@[0]);
        assert("cwd"@[0] != "seq"@[0]);
        log_event_round_trip(v.event, base);
        let m = log_event_members(v.event, base);
        assert(m.contains_key("seq"@) && m["seq"@] == u64::json(v.seq));
        assert(m.contains_key("ts"@) && m["ts"@] == u64::json(v.ts));
    }
}

} // verus!
