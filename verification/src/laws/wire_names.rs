//! What stands on the wire and in the log.
use vstd::prelude::*;

use crate::codec::Wire;
use crate::config::AnthropicAuth;
use crate::config::WireApi;
use crate::content::Content;
use crate::content::ContentView;
use crate::content::PlanItem;
use crate::content::PlanItemStatus;
use crate::content::PlanItemView;
use crate::content::ReasoningEffort;
use crate::content::StopReason;
use crate::content::TokenUsage;
use crate::content::TokenUsageView;
use crate::event::ApprovalDetail;
use crate::event::ApprovalDetailView;
use crate::event::ApprovalKind;
use crate::event::EventMsgView;
use crate::event::ExecStream;
use crate::event::McpServerHealth;
use crate::event::McpServerHealthView;
use crate::event::McpServerStatus;
use crate::event::McpToolInfo;
use crate::event::McpToolInfoView;
use crate::event::ModelInfo;
use crate::event::ModelInfoView;
use crate::event::SessionSummary;
use crate::event::event_msg_json;
use crate::event::events_json;
use crate::json::JsonView;
use crate::json::member;
use crate::log::LogEvent;
use crate::log::LogEventView;
use crate::model::CacheBreakpoint;
use crate::op::Op;
use crate::op::OpView;
use crate::op::ReviewDecision;
use crate::op::Submission;
use crate::op::SubmissionView;
use crate::op::UserInput;
use crate::op::UserInputView;
use crate::permission::Decision;
use crate::permission::DecisionView;
use crate::permission::PermissionMode;
use crate::permission::PermissionRule;
use crate::permission::PermissionRuleView;
use crate::permission::RuleAction;
use crate::permission::RuleScope;
use crate::permission::Verdict;
use crate::permission::VerdictSource;

verus! {

/// On the wire, the events of the log are objects of their own types with what they hold, each
/// under its name: session meta, session title, user input and assistant message.
pub proof fn law_logged_events_from_session_meta(v: LogEventView)
    ensures
        ({
            let j = <LogEvent as Wire>::json(v);
            match v {
                LogEventView::SessionMeta { id, parent, cwd, git_head, config_fingerprint, created_at_ms } => {
                    &&& member(j, "type"@) == Some(JsonView::Text("session_meta"@))
                    &&& member(j, "id"@) == Some(JsonView::Text(id))
                    &&& member(j, "cwd"@) == Some(JsonView::Text(cwd))
                    &&& member(j, "config_fingerprint"@) == Some(JsonView::Text(config_fingerprint))
                    &&& member(j, "created_at_ms"@) == Some(JsonView::Int(created_at_ms as int))
                    &&& member(j, "parent"@) == match parent {
                        Some(x) => Some(JsonView::Text(x)),
                        None => None,
                    }
                    &&& member(j, "git_head"@) == match git_head {
                        Some(x) => Some(JsonView::Text(x)),
                        None => None,
                    }
                },
                LogEventView::SessionTitle { title } => {
                    &&& member(j, "type"@) == Some(JsonView::Text("session_title"@))
                    &&& member(j, "title"@) == Some(JsonView::Text(title))
                },
                LogEventView::UserInput { content, turn_id } => {
                    &&& member(j, "type"@) == Some(JsonView::Text("user_input"@))
                    &&& member(j, "content"@) == Some(<Vec<Content> as Wire>::json(content))
                    &&& member(j, "turn_id"@) == Some(JsonView::Text(turn_id))
                },
                LogEventView::AssistantMessage { content, usage, turn_id } => {
                    &&& member(j, "type"@) == Some(JsonView::Text("assistant_message"@))
                    &&& member(j, "content"@) == Some(<Vec<Content> as Wire>::json(content))
                    &&& member(j, "usage"@) == Some(<TokenUsage as Wire>::json(usage))
                    &&& member(j, "turn_id"@) == Some(JsonView::Text(turn_id))
                },
                _ => true,
            }
        }),
{
    reveal_strlit("type");
    reveal_strlit("id");
    reveal_strlit("cwd");
    reveal_strlit("config_fingerprint");
    reveal_strlit("created_at_ms");
    reveal_strlit("parent");
    reveal_strlit("git_head");
    reveal_strlit("title");
    reveal_strlit("content");
    reveal_strlit("turn_id");
    reveal_strlit("usage");
    assert("type"@.len() == 4 && "id"@.len() == 2 && "cwd"@.len() == 3 && "config_fingerprint"@.len() == 18 && "created_at_ms"@.len() == 13 && "parent"@.len() == 6 && "git_head"@.len() == 8 && "title"@.len() == 5 && "content"@.len() == 7 && "turn_id"@.len() == 7 && "usage"@.len() == 5);
    assert("title"@[0] != "usage"@[0]);
    assert("content"@[0] != "turn_id"@[0]);
}

/// On the wire, the events of the log are objects of their own types with what they hold, each
/// under its name: tool call, tool result, approval and permission grant.
pub proof fn law_logged_events_from_tool_call(v: LogEventView)
    ensures
        ({
            let j = <LogEvent as Wire>::json(v);
            match v {
                LogEventView::ToolCall { call_id, tool, args } => {
                    &&& member(j, "type"@) == Some(JsonView::Text("tool_call"@))
                    &&& member(j, "call_id"@) == Some(JsonView::Text(call_id))
                    &&& member(j, "tool"@) == Some(JsonView::Text(tool))
                    &&& member(j, "args"@) == Some(args)
                },
                LogEventView::ToolResult { call_id, output, duration_ms } => {
                    &&& member(j, "type"@) == Some(JsonView::Text("tool_result"@))
                    &&& member(j, "call_id"@) == Some(JsonView::Text(call_id))
                    &&& member(j, "output"@) == Some(output)
                    &&& member(j, "duration_ms"@) == Some(JsonView::Int(duration_ms as int))
                },
                LogEventView::Approval { call_id, verdict, rule_suggestion } => {
                    &&& member(j, "type"@) == Some(JsonView::Text("approval"@))
                    &&& member(j, "call_id"@) == Some(JsonView::Text(call_id))
                    &&& member(j, "verdict"@) == Some(<ReviewDecision as Wire>::json(verdict))
                    &&& member(j, "rule_suggestion"@) == match rule_suggestion {
                        Some(x) => Some(JsonView::Text(x)),
                        None => None,
                    }
                },
                LogEventView::PermissionGrant { tool, pattern } => {
                    &&& member(j, "type"@) == Some(JsonView::Text("permission_grant"@))
                    &&& member(j, "tool"@) == Some(JsonView::Text(tool))
                    &&& member(j, "pattern"@) == Some(JsonView::Text(pattern))
                },
                _ => true,
            }
        }),
{
    reveal_strlit("type");
    reveal_strlit("call_id");
    reveal_strlit("tool");
    reveal_strlit("args");
    reveal_strlit("output");
    reveal_strlit("duration_ms");
    reveal_strlit("verdict");
    reveal_strlit("rule_suggestion");
    reveal_strlit("pattern");
    assert("type"@.len() == 4 && "call_id"@.len() == 7 && "tool"@.len() == 4 && "args"@.len() == 4 && "output"@.len() == 6 && "duration_ms"@.len() == 11 && "verdict"@.len() == 7 && "rule_suggestion"@.len() == 15 && "pattern"@.len() == 7);
    assert("type"@[1] != "tool"@[1]);
    assert("type"@[0] != "args"@[0]);
    assert("call_id"@[0] != "verdict"@[0]);
    assert("call_id"@[0] != "pattern"@[0]);
    assert("tool"@[0] != "args"@[0]);
    assert("verdict"@[0] != "pattern"@[0]);
}

/// On the wire, the events of the log are objects of their own types with what they hold, each
/// under its name: permission decision, mode change, compaction and checkpoint.
pub proof fn law_logged_events_from_permission_decision(v: LogEventView)
    ensures
        ({
            let j = <LogEvent as Wire>::json(v);
            match v {
                LogEventView::PermissionDecision { tool, decision } => {
                    &&& member(j, "type"@) == Some(JsonView::Text("permission_decision"@))
                    &&& member(j, "tool"@) == Some(JsonView::Text(tool))
                    &&& member(j, "decision"@) == Some(<Decision as Wire>::json(decision))
                },
                LogEventView::ModeChange { mode } => {
                    &&& member(j, "type"@) == Some(JsonView::Text("mode_change"@))
                    &&& member(j, "mode"@) == Some(<PermissionMode as Wire>::json(mode))
                },
                LogEventView::Compaction { summary, covers_through_seq } => {
                    &&& member(j, "type"@) == Some(JsonView::Text("compaction"@))
                    &&& member(j, "summary"@) == Some(<Vec<Content> as Wire>::json(summary))
                    &&& member(j, "covers_through_seq"@) == Some(JsonView::Int(covers_through_seq as int))
                },
                LogEventView::Checkpoint { checkpoint_id, shadow_commit } => {
                    &&& member(j, "type"@) == Some(JsonView::Text("checkpoint"@))
                    &&& member(j, "checkpoint_id"@) == Some(JsonView::Text(checkpoint_id))
                    &&& member(j, "shadow_commit"@) == Some(JsonView::Text(shadow_commit))
                },
                _ => true,
            }
        }),
{
    reveal_strlit("type");
    reveal_strlit("tool");
    reveal_strlit("decision");
    reveal_strlit("mode");
    reveal_strlit("summary");
    reveal_strlit("covers_through_seq");
    reveal_strlit("checkpoint_id");
    reveal_strlit("shadow_commit");
    assert("type"@.len() == 4 && "tool"@.len() == 4 && "decision"@.len() == 8 && "mode"@.len() == 4 && "summary"@.len() == 7 && "covers_through_seq"@.len() == 18 && "checkpoint_id"@.len() == 13 && "shadow_commit"@.len() == 13);
    assert("type"@[1] != "tool"@[1]);
    assert("type"@[0] != "mode"@[0]);
    assert("tool"@[0] != "mode"@[0]);
    assert("checkpoint_id"@[0] != "shadow_commit"@[0]);
}

/// On the wire, the events of the log are objects of their own types with what they hold, each
/// under its name: turn boundary and error.
pub proof fn law_logged_events_from_turn_boundary(v: LogEventView)
    ensures
        ({
            let j = <LogEvent as Wire>::json(v);
            match v {
                LogEventView::TurnBoundary { turn_id, stop_reason } => {
                    &&& member(j, "type"@) == Some(JsonView::Text("turn_boundary"@))
                    &&& member(j, "turn_id"@) == Some(JsonView::Text(turn_id))
                    &&& member(j, "stop_reason"@) == Some(<StopReason as Wire>::json(stop_reason))
                },
                LogEventView::Error { message, retryable } => {
                    &&& member(j, "type"@) == Some(JsonView::Text("error"@))
                    &&& member(j, "message"@) == Some(JsonView::Text(message))
                    &&& member(j, "retryable"@) == Some(JsonView::Bool(retryable))
                },
                _ => true,
            }
        }),
{
    reveal_strlit("type");
    reveal_strlit("turn_id");
    reveal_strlit("stop_reason");
    reveal_strlit("message");
    reveal_strlit("retryable");
    assert("type"@.len() == 4 && "turn_id"@.len() == 7 && "stop_reason"@.len() == 11 && "message"@.len() == 7 && "retryable"@.len() == 9);
    assert("turn_id"@[0] != "message"@[0]);
}

/// On the wire, the events of a session are objects of their own types with what they hold, each
/// under its name: session configured, turn started, turn complete and agent message delta.
pub proof fn law_session_events_from_session_configured(v: EventMsgView)
    ensures
        ({
            let j = event_msg_json(v);
            match v {
                EventMsgView::SessionConfigured { protocol_version, session_id, model, permission_mode, cwd } => {
                    &&& member(j, "type"@) == Some(JsonView::Text("session_configured"@))
                    &&& member(j, "protocol_version"@) == Some(JsonView::Int(protocol_version as int))
                    &&& member(j, "session_id"@) == Some(JsonView::Text(session_id))
                    &&& member(j, "model"@) == Some(JsonView::Text(model))
                    &&& member(j, "permission_mode"@) == Some(<PermissionMode as Wire>::json(permission_mode))
                    &&& member(j, "cwd"@) == Some(JsonView::Text(cwd))
                },
                EventMsgView::TurnStarted { turn_id } => {
                    &&& member(j, "type"@) == Some(JsonView::Text("turn_started"@))
                    &&& member(j, "turn_id"@) == Some(JsonView::Text(turn_id))
                },
                EventMsgView::TurnComplete { turn_id, usage, stop_reason } => {
                    &&& member(j, "type"@) == Some(JsonView::Text("turn_complete"@))
                    &&& member(j, "turn_id"@) == Some(JsonView::Text(turn_id))
                    &&& member(j, "usage"@) == Some(<TokenUsage as Wire>::json(usage))
                    &&& member(j, "stop_reason"@) == Some(<StopReason as Wire>::json(stop_reason))
                },
                EventMsgView::AgentMessageDelta { text } => {
                    &&& member(j, "type"@) == Some(JsonView::Text("agent_message_delta"@))
                    &&& member(j, "text"@) == Some(JsonView::Text(text))
                },
                _ => true,
            }
        }),
{
    reveal_strlit("type");
    reveal_strlit("protocol_version");
    reveal_strlit("session_id");
    reveal_strlit("model");
    reveal_strlit("permission_mode");
    reveal_strlit("cwd");
    reveal_strlit("turn_id");
    reveal_strlit("usage");
    reveal_strlit("stop_reason");
    reveal_strlit("text");
    assert("type"@.len() == 4 && "protocol_version"@.len() == 16 && "session_id"@.len() == 10 && "model"@.len() == 5 && "permission_mode"@.len() == 15 && "cwd"@.len() == 3 && "turn_id"@.len() == 7 && "usage"@.len() == 5 && "stop_reason"@.len() == 11 && "text"@.len() == 4);
    assert("type"@[1] != "text"@[1]);
    assert("model"@[0] != "usage"@[0]);
}

/// On the wire, the events of a session are objects of their own types with what they hold, each
/// under its name: agent message, reasoning delta, reasoning and exec command begin.
pub proof fn law_session_events_from_agent_message(v: EventMsgView)
    ensures
        ({
            let j = event_msg_json(v);
            match v {
                EventMsgView::AgentMessage { text } => {
                    &&& member(j, "type"@) == Some(JsonView::Text("agent_message"@))
                    &&& member(j, "text"@) == Some(JsonView::Text(text))
                },
                EventMsgView::ReasoningDelta { text } => {
                    &&& member(j, "type"@) == Some(JsonView::Text("reasoning_delta"@))
                    &&& member(j, "text"@) == Some(JsonView::Text(text))
                },
                EventMsgView::Reasoning { text } => {
                    &&& member(j, "type"@) == Some(JsonView::Text("reasoning"@))
                    &&& member(j, "text"@) == Some(JsonView::Text(text))
                },
                EventMsgView::ExecCommandBegin { call_id, command, cwd } => {
                    &&& member(j, "type"@) == Some(JsonView::Text("exec_command_begin"@))
                    &&& member(j, "call_id"@) == Some(JsonView::Text(call_id))
                    &&& member(j, "command"@) == Some(<Vec<String> as Wire>::json(command))
                    &&& member(j, "cwd"@) == Some(JsonView::Text(cwd))
                },
                _ => true,
            }
        }),
{
    reveal_strlit("type");
    reveal_strlit("text");
    reveal_strlit("call_id");
    reveal_strlit("command");
    reveal_strlit("cwd");
    assert("type"@.len() == 4 && "text"@.len() == 4 && "call_id"@.len() == 7 && "command"@.len() == 7 && "cwd"@.len() == 3);
    assert("type"@[1] != "text"@[1]);
    assert("call_id"@[1] != "command"@[1]);
}

/// On the wire, the events of a session are objects of their own types with what they hold, each
/// under its name: exec command output delta, exec command end, patch apply begin and patch apply end.
pub proof fn law_session_events_from_exec_command_output_delta(v: EventMsgView)
    ensures
        ({
            let j = event_msg_json(v);
            match v {
                EventMsgView::ExecCommandOutputDelta { call_id, stream, chunk } => {
                    &&& member(j, "type"@) == Some(JsonView::Text("exec_command_output_delta"@))
                    &&& member(j, "call_id"@) == Some(JsonView::Text(call_id))
                    &&& member(j, "stream"@) == Some(<ExecStream as Wire>::json(stream))
                    &&& member(j, "chunk"@) == Some(JsonView::Text(chunk))
                },
                EventMsgView::ExecCommandEnd { call_id, exit_code, duration_ms, truncated } => {
                    &&& member(j, "type"@) == Some(JsonView::Text("exec_command_end"@))
                    &&& member(j, "call_id"@) == Some(JsonView::Text(call_id))
                    &&& member(j, "exit_code"@) == Some(JsonView::Int(exit_code as int))
                    &&& member(j, "duration_ms"@) == Some(JsonView::Int(duration_ms as int))
                    &&& member(j, "truncated"@) == Some(JsonView::Bool(truncated))
                },
                EventMsgView::PatchApplyBegin { call_id, files } => {
                    &&& member(j, "type"@) == Some(JsonView::Text("patch_apply_begin"@))
                    &&& member(j, "call_id"@) == Some(JsonView::Text(call_id))
                    &&& member(j, "files"@) == Some(<Vec<String> as Wire>::json(files))
                },
                EventMsgView::PatchApplyEnd { call_id, success, diff } => {
                    &&& member(j, "type"@) == Some(JsonView::Text("patch_apply_end"@))
                    &&& member(j, "call_id"@) == Some(JsonView::Text(call_id))
                    &&& member(j, "success"@) == Some(JsonView::Bool(success))
                    &&& member(j, "diff"@) == Some(JsonView::Text(diff))
                },
                _ => true,
            }
        }),
{
    reveal_strlit("type");
    reveal_strlit("call_id");
    reveal_strlit("stream");
    reveal_strlit("chunk");
    reveal_strlit("exit_code");
    reveal_strlit("duration_ms");
    reveal_strlit("truncated");
    reveal_strlit("files");
    reveal_strlit("success");
    reveal_strlit("diff");
    assert("type"@.len() == 4 && "call_id"@.len() == 7 && "stream"@.len() == 6 && "chunk"@.len() == 5 && "exit_code"@.len() == 9 && "duration_ms"@.len() == 11 && "truncated"@.len() == 9 && "files"@.len() == 5 && "success"@.len() == 7 && "diff"@.len() == 4);
    assert("type"@[0] != "diff"@[0]);
    assert("call_id"@[0] != "success"@[0]);
    assert("chunk"@[0] != "files"@[0]);
    assert("exit_code"@[0] != "truncated"@[0]);
}

/// On the wire, the events of a session are objects of their own types with what they hold, each
/// under its name: tool call begin, tool call end, approval request and plan updated.
pub proof fn law_session_events_from_tool_call_begin(v: EventMsgView)
    ensures
        ({
            let j = event_msg_json(v);
            match v {
                EventMsgView::ToolCallBegin { call_id, tool, summary } => {
                    &&& member(j, "type"@) == Some(JsonView::Text("tool_call_begin"@))
                    &&& member(j, "call_id"@) == Some(JsonView::Text(call_id))
                    &&& member(j, "tool"@) == Some(JsonView::Text(tool))
                    &&& member(j, "summary"@) == Some(JsonView::Text(summary))
                },
                EventMsgView::ToolCallEnd { call_id, ok, summary } => {
                    &&& member(j, "type"@) == Some(JsonView::Text("tool_call_end"@))
                    &&& member(j, "call_id"@) == Some(JsonView::Text(call_id))
                    &&& member(j, "ok"@) == Some(JsonView::Bool(ok))
                    &&& member(j, "summary"@) == Some(JsonView::Text(summary))
                },
                EventMsgView::ApprovalRequest { call_id, kind, detail } => {
                    &&& member(j, "type"@) == Some(JsonView::Text("approval_request"@))
                    &&& member(j, "call_id"@) == Some(JsonView::Text(call_id))
                    &&& member(j, "kind"@) == Some(<ApprovalKind as Wire>::json(kind))
                    &&& member(j, "detail"@) == Some(<ApprovalDetail as Wire>::json(detail))
                },
                EventMsgView::PlanUpdated { items } => {
                    &&& member(j, "type"@) == Some(JsonView::Text("plan_updated"@))
                    &&& member(j, "items"@) == Some(<Vec<PlanItem> as Wire>::json(items))
                },
                _ => true,
            }
        }),
{
    reveal_strlit("type");
    reveal_strlit("call_id");
    reveal_strlit("tool");
    reveal_strlit("summary");
    reveal_strlit("ok");
    reveal_strlit("kind");
    reveal_strlit("detail");
    reveal_strlit("items");
    assert("type"@.len() == 4 && "call_id"@.len() == 7 && "tool"@.len() == 4 && "summary"@.len() == 7 && "ok"@.len() == 2 && "kind"@.len() == 4 && "detail"@.len() == 6 && "items"@.len() == 5);
    assert("type"@[1] != "tool"@[1]);
    assert("type"@[0] != "kind"@[0]);
    assert("call_id"@[0] != "summary"@[0]);
    assert("tool"@[0] != "kind"@[0]);
}

/// On the wire, the events of a session are objects of their own types with what they hold, each
/// under its name: token count, background event, permission mode changed and error.
pub proof fn law_session_events_from_token_count(v: EventMsgView)
    ensures
        ({
            let j = event_msg_json(v);
            match v {
                EventMsgView::TokenCount { used, window } => {
                    &&& member(j, "type"@) == Some(JsonView::Text("token_count"@))
                    &&& member(j, "used"@) == Some(JsonView::Int(used as int))
                    &&& member(j, "window"@) == Some(JsonView::Int(window as int))
                },
                EventMsgView::BackgroundEvent { message } => {
                    &&& member(j, "type"@) == Some(JsonView::Text("background_event"@))
                    &&& member(j, "message"@) == Some(JsonView::Text(message))
                },
                EventMsgView::PermissionModeChanged { mode } => {
                    &&& member(j, "type"@) == Some(JsonView::Text("permission_mode_changed"@))
                    &&& member(j, "mode"@) == Some(<PermissionMode as Wire>::json(mode))
                },
                EventMsgView::Error { message, retryable } => {
                    &&& member(j, "type"@) == Some(JsonView::Text("error"@))
                    &&& member(j, "message"@) == Some(JsonView::Text(message))
                    &&& member(j, "retryable"@) == Some(JsonView::Bool(retryable))
                },
                _ => true,
            }
        }),
{
    reveal_strlit("type");
    reveal_strlit("used");
    reveal_strlit("window");
    reveal_strlit("message");
    reveal_strlit("mode");
    reveal_strlit("retryable");
    assert("type"@.len() == 4 && "used"@.len() == 4 && "window"@.len() == 6 && "message"@.len() == 7 && "mode"@.len() == 4 && "retryable"@.len() == 9);
    assert("type"@[0] != "used"@[0]);
    assert("type"@[0] != "mode"@[0]);
    assert("used"@[0] != "mode"@[0]);
}

/// On the wire, the events of a session are objects of their own types with what they hold, each
/// under its name: stream error, session query history, session query sessions and session query mcp tools.
pub proof fn law_session_events_from_stream_error(v: EventMsgView)
    ensures
        ({
            let j = event_msg_json(v);
            match v {
                EventMsgView::StreamError { message } => {
                    &&& member(j, "type"@) == Some(JsonView::Text("stream_error"@))
                    &&& member(j, "message"@) == Some(JsonView::Text(message))
                },
                EventMsgView::SessionQueryHistory { events, done } => {
                    &&& member(j, "type"@) == Some(JsonView::Text("session_query_history"@))
                    &&& member(j, "done"@) == Some(JsonView::Bool(done))
                    &&& member(j, "events"@) == Some(JsonView::List(events_json(events)))
                },
                EventMsgView::SessionQuerySessions { sessions } => {
                    &&& member(j, "type"@) == Some(JsonView::Text("session_query_sessions"@))
                    &&& member(j, "sessions"@) == Some(<Vec<SessionSummary> as Wire>::json(sessions))
                },
                EventMsgView::SessionQueryMcpTools { tools, health } => {
                    &&& member(j, "type"@) == Some(JsonView::Text("session_query_mcp_tools"@))
                    &&& member(j, "tools"@) == Some(<Vec<McpToolInfo> as Wire>::json(tools))
                    &&& member(j, "health"@) == Some(<Vec<McpServerHealth> as Wire>::json(health))
                },
                _ => true,
            }
        }),
{
    reveal_strlit("type");
    reveal_strlit("message");
    reveal_strlit("done");
    reveal_strlit("events");
    reveal_strlit("sessions");
    reveal_strlit("tools");
    reveal_strlit("health");
    assert("type"@.len() == 4 && "message"@.len() == 7 && "done"@.len() == 4 && "events"@.len() == 6 && "sessions"@.len() == 8 && "tools"@.len() == 5 && "health"@.len() == 6);
    assert("type"@[0] != "done"@[0]);
    assert("events"@[0] != "health"@[0]);
}

/// On the wire, the events of a session are objects of their own types with what they hold, each
/// under its name: session query models.
pub proof fn law_session_events_from_session_query_models(v: EventMsgView)
    ensures
        ({
            let j = event_msg_json(v);
            match v {
                EventMsgView::SessionQueryModels { models } => {
                    &&& member(j, "type"@) == Some(JsonView::Text("session_query_models"@))
                    &&& member(j, "models"@) == Some(<Vec<ModelInfo> as Wire>::json(models))
                },
                _ => true,
            }
        }),
{
    reveal_strlit("type");
    reveal_strlit("models");
    assert("type"@.len() == 4 && "models"@.len() == 6);
}

/// On the wire, requests are objects of their own types with what they hold, each
/// under its name: hello, user turn, interrupt and compact.
pub proof fn law_requests_from_hello(v: OpView)
    ensures
        ({
            let j = <Op as Wire>::json(v);
            match v {
                OpView::Hello { protocol_version } => {
                    &&& member(j, "type"@) == Some(JsonView::Text("hello"@))
                    &&& member(j, "protocol_version"@) == Some(JsonView::Int(protocol_version as int))
                },
                OpView::UserTurn { turn_id, input } => {
                    &&& member(j, "type"@) == Some(JsonView::Text("user_turn"@))
                    &&& member(j, "turn_id"@) == Some(JsonView::Text(turn_id))
                    &&& member(j, "input"@) == Some(<Vec<UserInput> as Wire>::json(input))
                },
                OpView::Interrupt { abandon_queued } => {
                    &&& member(j, "type"@) == Some(JsonView::Text("interrupt"@))
                    &&& member(j, "abandon_queued"@) == Some(JsonView::Bool(abandon_queued))
                },
                OpView::Compact { instruction } => {
                    &&& member(j, "type"@) == Some(JsonView::Text("compact"@))
                    &&& member(j, "instruction"@) == match instruction {
                        Some(x) => Some(JsonView::Text(x)),
                        None => None,
                    }
                },
                _ => true,
            }
        }),
{
    reveal_strlit("type");
    reveal_strlit("protocol_version");
    reveal_strlit("turn_id");
    reveal_strlit("input");
    reveal_strlit("abandon_queued");
    reveal_strlit("instruction");
    assert("type"@.len() == 4 && "protocol_version"@.len() == 16 && "turn_id"@.len() == 7 && "input"@.len() == 5 && "abandon_queued"@.len() == 14 && "instruction"@.len() == 11);
}

/// On the wire, requests are objects of their own types with what they hold, each
/// under its name: shutdown, approval response, list sessions and resume session.
pub proof fn law_requests_from_shutdown(v: OpView)
    ensures
        ({
            let j = <Op as Wire>::json(v);
            match v {
                OpView::Shutdown => {
                    &&& member(j, "type"@) == Some(JsonView::Text("shutdown"@))
                },
                OpView::ApprovalResponse { call_id, decision } => {
                    &&& member(j, "type"@) == Some(JsonView::Text("approval_response"@))
                    &&& member(j, "call_id"@) == Some(JsonView::Text(call_id))
                    &&& member(j, "decision"@) == Some(<ReviewDecision as Wire>::json(decision))
                },
                OpView::ListSessions => {
                    &&& member(j, "type"@) == Some(JsonView::Text("list_sessions"@))
                },
                OpView::ResumeSession { session_id, fork } => {
                    &&& member(j, "type"@) == Some(JsonView::Text("resume_session"@))
                    &&& member(j, "session_id"@) == Some(JsonView::Text(session_id))
                    &&& member(j, "fork"@) == Some(JsonView::Bool(fork))
                },
                _ => true,
            }
        }),
{
    reveal_strlit("type");
    reveal_strlit("call_id");
    reveal_strlit("decision");
    reveal_strlit("session_id");
    reveal_strlit("fork");
    assert("type"@.len() == 4 && "call_id"@.len() == 7 && "decision"@.len() == 8 && "session_id"@.len() == 10 && "fork"@.len() == 4);
    assert("type"@[0] != "fork"@[0]);
}

/// On the wire, requests are objects of their own types with what they hold, each
/// under its name: checkpoint rollback, set permission mode, add permission rule and set model.
pub proof fn law_requests_from_checkpoint_rollback(v: OpView)
    ensures
        ({
            let j = <Op as Wire>::json(v);
            match v {
                OpView::CheckpointRollback { checkpoint_id } => {
                    &&& member(j, "type"@) == Some(JsonView::Text("checkpoint_rollback"@))
                    &&& member(j, "checkpoint_id"@) == Some(JsonView::Text(checkpoint_id))
                },
                OpView::SetPermissionMode { mode } => {
                    &&& member(j, "type"@) == Some(JsonView::Text("set_permission_mode"@))
                    &&& member(j, "mode"@) == Some(<PermissionMode as Wire>::json(mode))
                },
                OpView::AddPermissionRule { rule, scope } => {
                    &&& member(j, "type"@) == Some(JsonView::Text("add_permission_rule"@))
                    &&& member(j, "rule"@) == Some(<PermissionRule as Wire>::json(rule))
                    &&& member(j, "scope"@) == Some(<RuleScope as Wire>::json(scope))
                },
                OpView::SetModel { model } => {
                    &&& member(j, "type"@) == Some(JsonView::Text("set_model"@))
                    &&& member(j, "model"@) == Some(JsonView::Text(model))
                },
                _ => true,
            }
        }),
{
    reveal_strlit("type");
    reveal_strlit("checkpoint_id");
    reveal_strlit("mode");
    reveal_strlit("rule");
    reveal_strlit("scope");
    reveal_strlit("model");
    assert("type"@.len() == 4 && "checkpoint_id"@.len() == 13 && "mode"@.len() == 4 && "rule"@.len() == 4 && "scope"@.len() == 5 && "model"@.len() == 5);
    assert("type"@[0] != "mode"@[0]);
    assert("type"@[0] != "rule"@[0]);
    assert("mode"@[0] != "rule"@[0]);
    assert("scope"@[0] != "model"@[0]);
}

/// On the wire, requests are objects of their own types with what they hold, each
/// under its name: get history, resume events, list mcp tools and list models.
pub proof fn law_requests_from_get_history(v: OpView)
    ensures
        ({
            let j = <Op as Wire>::json(v);
            match v {
                OpView::GetHistory { after_seq, limit } => {
                    &&& member(j, "type"@) == Some(JsonView::Text("get_history"@))
                    &&& member(j, "after_seq"@) == Some(JsonView::Int(after_seq as int))
                    &&& member(j, "limit"@) == Some(JsonView::Int(limit as int))
                },
                OpView::ResumeEvents { after_seq } => {
                    &&& member(j, "type"@) == Some(JsonView::Text("resume_events"@))
                    &&& member(j, "after_seq"@) == Some(JsonView::Int(after_seq as int))
                },
                OpView::ListMcpTools => {
                    &&& member(j, "type"@) == Some(JsonView::Text("list_mcp_tools"@))
                },
                OpView::ListModels => {
                    &&& member(j, "type"@) == Some(JsonView::Text("list_models"@))
                },
                _ => true,
            }
        }),
{
    reveal_strlit("type");
    reveal_strlit("after_seq");
    reveal_strlit("limit");
    assert("type"@.len() == 4 && "after_seq"@.len() == 9 && "limit"@.len() == 5);
}

/// On the wire, each value goes by a name of its own.
pub proof fn law_names_of_permission_mode(v: PermissionMode)
    ensures
        <PermissionMode as Wire>::json(v) == JsonView::Text(
            match v {
                PermissionMode::Default => "default"@,
                PermissionMode::Plan => "plan"@,
                PermissionMode::AcceptEdits => "accept-edits"@,
                PermissionMode::Bypass => "bypass"@,
            },
        ),
{
}

/// On the wire, each value goes by a name of its own.
pub proof fn law_names_of_rule_action(v: RuleAction)
    ensures
        <RuleAction as Wire>::json(v) == JsonView::Text(
            match v {
                RuleAction::Allow => "allow"@,
                RuleAction::Ask => "ask"@,
                RuleAction::Deny => "deny"@,
            },
        ),
{
}

/// On the wire, each value goes by a name of its own.
pub proof fn law_names_of_rule_scope(v: RuleScope)
    ensures
        <RuleScope as Wire>::json(v) == JsonView::Text(
            match v {
                RuleScope::Session => "session"@,
                RuleScope::Project => "project"@,
                RuleScope::User => "user"@,
            },
        ),
{
}

/// On the wire, each value goes by a name of its own.
pub proof fn law_names_of_verdict(v: Verdict)
    ensures
        <Verdict as Wire>::json(v) == JsonView::Text(
            match v {
                Verdict::Allow => "allow"@,
                Verdict::Ask => "ask"@,
                Verdict::Deny => "deny"@,
            },
        ),
{
}

/// On the wire, each value goes by a name of its own.
pub proof fn law_names_of_review_decision(v: ReviewDecision)
    ensures
        <ReviewDecision as Wire>::json(v) == JsonView::Text(
            match v {
                ReviewDecision::Approve => "approve"@,
                ReviewDecision::ApproveForSession => "approve_for_session"@,
                ReviewDecision::Deny => "deny"@,
                ReviewDecision::Abort => "abort"@,
            },
        ),
{
}

/// On the wire, each value goes by a name of its own.
pub proof fn law_names_of_exec_stream(v: ExecStream)
    ensures
        <ExecStream as Wire>::json(v) == JsonView::Text(
            match v {
                ExecStream::Stdout => "stdout"@,
                ExecStream::Stderr => "stderr"@,
            },
        ),
{
}

/// On the wire, each value goes by a name of its own.
pub proof fn law_names_of_approval_kind(v: ApprovalKind)
    ensures
        <ApprovalKind as Wire>::json(v) == JsonView::Text(
            match v {
                ApprovalKind::Exec => "exec"@,
                ApprovalKind::Patch => "patch"@,
                ApprovalKind::Tool => "tool"@,
                ApprovalKind::McpTool => "mcp_tool"@,
            },
        ),
{
}

/// On the wire, each value goes by a name of its own.
pub proof fn law_names_of_mcp_server_status(v: McpServerStatus)
    ensures
        <McpServerStatus as Wire>::json(v) == JsonView::Text(
            match v {
                McpServerStatus::Connected => "connected"@,
                McpServerStatus::Connecting => "connecting"@,
                McpServerStatus::Failed => "failed"@,
                McpServerStatus::Disabled => "disabled"@,
            },
        ),
{
}

/// On the wire, each value goes by a name of its own.
pub proof fn law_names_of_reasoning_effort(v: ReasoningEffort)
    ensures
        <ReasoningEffort as Wire>::json(v) == JsonView::Text(
            match v {
                ReasoningEffort::Minimal => "minimal"@,
                ReasoningEffort::Low => "low"@,
                ReasoningEffort::Medium => "medium"@,
                ReasoningEffort::High => "high"@,
                ReasoningEffort::Max => "max"@,
            },
        ),
{
}

/// On the wire, each value goes by a name of its own.
pub proof fn law_names_of_stop_reason(v: StopReason)
    ensures
        <StopReason as Wire>::json(v) == JsonView::Text(
            match v {
                StopReason::EndTurn => "end_turn"@,
                StopReason::MaxTokens => "max_tokens"@,
                StopReason::ToolUse => "tool_use"@,
                StopReason::Refused => "refused"@,
                StopReason::Interrupted => "interrupted"@,
                StopReason::Error => "error"@,
                StopReason::MaxSteps => "max_steps"@,
            },
        ),
{
}

/// On the wire, each value goes by a name of its own.
pub proof fn law_names_of_plan_item_status(v: PlanItemStatus)
    ensures
        <PlanItemStatus as Wire>::json(v) == JsonView::Text(
            match v {
                PlanItemStatus::Pending => "pending"@,
                PlanItemStatus::InProgress => "in_progress"@,
                PlanItemStatus::Completed => "completed"@,
            },
        ),
{
}

/// On the wire, each value goes by a name of its own.
pub proof fn law_names_of_wire_api(v: WireApi)
    ensures
        <WireApi as Wire>::json(v) == JsonView::Text(
            match v {
                WireApi::Anthropic => "anthropic"@,
                WireApi::OpenaiResponses => "openai-responses"@,
                WireApi::OpenaiChat => "openai-chat"@,
            },
        ),
{
}

/// On the wire, each value goes by a name of its own.
pub proof fn law_names_of_anthropic_auth(v: AnthropicAuth)
    ensures
        <AnthropicAuth as Wire>::json(v) == JsonView::Text(
            match v {
                AnthropicAuth::ApiKey => "api-key"@,
                AnthropicAuth::Bearer => "bearer"@,
            },
        ),
{
}

/// On the wire, each value goes by a name of its own.
pub proof fn law_names_of_cache_breakpoint(v: CacheBreakpoint)
    ensures
        <CacheBreakpoint as Wire>::json(v) == JsonView::Text(
            match v {
                CacheBreakpoint::Ephemeral => "ephemeral"@,
                CacheBreakpoint::OneHour => "one_hour"@,
            },
        ),
{
}

/// On the wire, blocks are objects of their own types with what they hold, each
/// under its name: text, thinking, tool use and image.
pub proof fn law_blocks_from_text(v: ContentView)
    ensures
        ({
            let j = <Content as Wire>::json(v);
            match v {
                ContentView::Text { text } => {
                    &&& member(j, "type"@) == Some(JsonView::Text("text"@))
                    &&& member(j, "text"@) == Some(JsonView::Text(text))
                },
                ContentView::Thinking { text, signature } => {
                    &&& member(j, "type"@) == Some(JsonView::Text("thinking"@))
                    &&& member(j, "text"@) == Some(JsonView::Text(text))
                    &&& member(j, "signature"@) == match signature {
                        Some(x) => Some(JsonView::Text(x)),
                        None => None,
                    }
                },
                ContentView::ToolUse { call_id, name, input } => {
                    &&& member(j, "type"@) == Some(JsonView::Text("tool_use"@))
                    &&& member(j, "call_id"@) == Some(JsonView::Text(call_id))
                    &&& member(j, "name"@) == Some(JsonView::Text(name))
                    &&& member(j, "input"@) == Some(input)
                },
                ContentView::Image { mime, data_base64 } => {
                    &&& member(j, "type"@) == Some(JsonView::Text("image"@))
                    &&& member(j, "mime"@) == Some(JsonView::Text(mime))
                    &&& member(j, "data_base64"@) == Some(JsonView::Text(data_base64))
                },
            }
        }),
{
    reveal_strlit("type");
    reveal_strlit("text");
    reveal_strlit("signature");
    reveal_strlit("call_id");
    reveal_strlit("name");
    reveal_strlit("input");
    reveal_strlit("mime");
    reveal_strlit("data_base64");
    assert("type"@.len() == 4 && "text"@.len() == 4 && "signature"@.len() == 9 && "call_id"@.len() == 7 && "name"@.len() == 4 && "input"@.len() == 5 && "mime"@.len() == 4 && "data_base64"@.len() == 11);
    assert("type"@[1] != "text"@[1]);
    assert("type"@[0] != "name"@[0]);
    assert("type"@[0] != "mime"@[0]);
    assert("text"@[0] != "name"@[0]);
    assert("text"@[0] != "mime"@[0]);
    assert("name"@[0] != "mime"@[0]);
}

/// On the wire, what users enter are objects of their own types with what they hold, each
/// under its name: text and image.
pub proof fn law_entries_from_text(v: UserInputView)
    ensures
        ({
            let j = <UserInput as Wire>::json(v);
            match v {
                UserInputView::Text { text } => {
                    &&& member(j, "type"@) == Some(JsonView::Text("text"@))
                    &&& member(j, "text"@) == Some(JsonView::Text(text))
                },
                UserInputView::Image { path } => {
                    &&& member(j, "type"@) == Some(JsonView::Text("image"@))
                    &&& member(j, "path"@) == Some(JsonView::Text(path))
                },
            }
        }),
{
    reveal_strlit("type");
    reveal_strlit("text");
    reveal_strlit("path");
    assert("type"@.len() == 4 && "text"@.len() == 4 && "path"@.len() == 4);
    assert("type"@[1] != "text"@[1]);
    assert("type"@[0] != "path"@[0]);
    assert("text"@[0] != "path"@[0]);
}

/// On the wire, each part stands under its name.
pub proof fn law_parts_of_token_usage(v: TokenUsageView)
    ensures
        ({
            let j = <TokenUsage as Wire>::json(v);
            &&& member(j, "input"@) == Some(JsonView::Int(v.input as int))
            &&& member(j, "cached_input"@) == Some(JsonView::Int(v.cached_input as int))
            &&& member(j, "output"@) == Some(JsonView::Int(v.output as int))
            &&& member(j, "reasoning"@) == Some(JsonView::Int(v.reasoning as int))
        }),
{
    reveal_strlit("input");
    reveal_strlit("cached_input");
    reveal_strlit("output");
    reveal_strlit("reasoning");
    assert("input"@.len() == 5 && "cached_input"@.len() == 12 && "output"@.len() == 6 && "reasoning"@.len() == 9);
}

/// On the wire, each part stands under its name.
pub proof fn law_parts_of_plan_item(v: PlanItemView)
    ensures
        ({
            let j = <PlanItem as Wire>::json(v);
            &&& member(j, "content"@) == Some(JsonView::Text(v.content))
            &&& member(j, "status"@) == Some(<PlanItemStatus as Wire>::json(v.status))
        }),
{
    reveal_strlit("content");
    reveal_strlit("status");
    assert("content"@.len() == 7 && "status"@.len() == 6);
}

/// On the wire, each part stands under its name.
pub proof fn law_parts_of_approval_detail(v: ApprovalDetailView)
    ensures
        ({
            let j = <ApprovalDetail as Wire>::json(v);
            &&& member(j, "rule_matched"@) == match v.rule_matched {
                Some(x) => Some(JsonView::Text(x)),
                None => None,
            }
            &&& member(j, "command"@) == match v.command {
                Some(x) => Some(<Vec<String> as Wire>::json(x)),
                None => None,
            }
            &&& member(j, "files"@) == match v.files {
                Some(x) => Some(<Vec<String> as Wire>::json(x)),
                None => None,
            }
            &&& member(j, "tool"@) == match v.tool {
                Some(x) => Some(JsonView::Text(x)),
                None => None,
            }
            &&& member(j, "args_summary"@) == match v.args_summary {
                Some(x) => Some(x),
                None => None,
            }
            &&& member(j, "pattern_suggestion"@) == match v.pattern_suggestion {
                Some(x) => Some(JsonView::Text(x)),
                None => None,
            }
        }),
{
    reveal_strlit("rule_matched");
    reveal_strlit("command");
    reveal_strlit("files");
    reveal_strlit("tool");
    reveal_strlit("args_summary");
    reveal_strlit("pattern_suggestion");
    assert("rule_matched"@.len() == 12 && "command"@.len() == 7 && "files"@.len() == 5 && "tool"@.len() == 4 && "args_summary"@.len() == 12 && "pattern_suggestion"@.len() == 18);
    assert("rule_matched"@[0] != "args_summary"@[0]);
}

/// On the wire, each part stands under its name.
pub proof fn law_parts_of_mcp_tool_info(v: McpToolInfoView)
    ensures
        ({
            let j = <McpToolInfo as Wire>::json(v);
            &&& member(j, "server"@) == Some(JsonView::Text(v.server))
            &&& member(j, "name"@) == Some(JsonView::Text(v.name))
            &&& member(j, "description"@) == Some(JsonView::Text(v.description))
        }),
{
    reveal_strlit("server");
    reveal_strlit("name");
    reveal_strlit("description");
    assert("server"@.len() == 6 && "name"@.len() == 4 && "description"@.len() == 11);
}

/// On the wire, each part stands under its name.
pub proof fn law_parts_of_mcp_server_health(v: McpServerHealthView)
    ensures
        ({
            let j = <McpServerHealth as Wire>::json(v);
            &&& member(j, "server"@) == Some(JsonView::Text(v.server))
            &&& member(j, "status"@) == Some(<McpServerStatus as Wire>::json(v.status))
            &&& member(j, "error"@) == match v.error {
                Some(x) => Some(JsonView::Text(x)),
                None => None,
            }
        }),
{
    reveal_strlit("server");
    reveal_strlit("status");
    reveal_strlit("error");
    assert("server"@.len() == 6 && "status"@.len() == 6 && "error"@.len() == 5);
    assert("server"@[1] != "status"@[1]);
}

/// On the wire, each part stands under its name.
pub proof fn law_parts_of_model_info(v: ModelInfoView)
    ensures
        ({
            let j = <ModelInfo as Wire>::json(v);
            &&& member(j, "id"@) == Some(JsonView::Text(v.id))
            &&& member(j, "provider"@) == Some(JsonView::Text(v.provider))
            &&& member(j, "display"@) == Some(JsonView::Text(v.display))
            &&& member(j, "context_window"@) == Some(JsonView::Int(v.context_window as int))
            &&& member(j, "supports_thinking"@) == Some(JsonView::Bool(v.supports_thinking))
            &&& member(j, "supports_images"@) == Some(JsonView::Bool(v.supports_images))
        }),
{
    reveal_strlit("id");
    reveal_strlit("provider");
    reveal_strlit("display");
    reveal_strlit("context_window");
    reveal_strlit("supports_thinking");
    reveal_strlit("supports_images");
    assert("id"@.len() == 2 && "provider"@.len() == 8 && "display"@.len() == 7 && "context_window"@.len() == 14 && "supports_thinking"@.len() == 17 && "supports_images"@.len() == 15);
}

/// On the wire, each part stands under its name.
pub proof fn law_parts_of_submission(v: SubmissionView)
    ensures
        ({
            let j = <Submission as Wire>::json(v);
            &&& member(j, "id"@) == Some(JsonView::Text(v.id))
            &&& member(j, "op"@) == Some(<Op as Wire>::json(v.op))
        }),
{
    reveal_strlit("id");
    reveal_strlit("op");
    assert("id"@.len() == 2 && "op"@.len() == 2);
    assert("id"@[0] != "op"@[0]);
}

/// On the wire, each part stands under its name.
pub proof fn law_parts_of_permission_rule(v: PermissionRuleView)
    ensures
        ({
            let j = <PermissionRule as Wire>::json(v);
            &&& member(j, "tool"@) == Some(JsonView::Text(v.tool))
            &&& member(j, "pattern"@) == Some(JsonView::Text(v.pattern))
            &&& member(j, "action"@) == Some(<RuleAction as Wire>::json(v.action))
        }),
{
    reveal_strlit("tool");
    reveal_strlit("pattern");
    reveal_strlit("action");
    assert("tool"@.len() == 4 && "pattern"@.len() == 7 && "action"@.len() == 6);
}

/// On the wire, each part stands under its name.
pub proof fn law_parts_of_decision(v: DecisionView)
    ensures
        ({
            let j = <Decision as Wire>::json(v);
            &&& member(j, "verdict"@) == Some(<Verdict as Wire>::json(v.verdict))
            &&& member(j, "source"@) == Some(<VerdictSource as Wire>::json(v.source))
        }),
{
    reveal_strlit("verdict");
    reveal_strlit("source");
    assert("verdict"@.len() == 7 && "source"@.len() == 6);
}

} // verus!
