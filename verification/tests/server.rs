//! Sessions that clients drive, editors, and tool servers.

use tao::acp::{AcpServer, AcpStep, NotOpened};
use tao::config::{McpServerConfig, WireApi};
use tao::content::{Content, StopReason, TokenUsage};
use tao::event::{ApprovalDetail, ApprovalKind, Event, EventMsg};
use tao::exec::{event_json, event_text, result_json, result_text, OnAsk};
use tao::hooks::{
    aggregate, hook_env, hook_result, hook_stdin, hook_timed_out, matches_event, select_hooks,
    HookConfig, HookCtx, HookEvent, HookExecResult, HookOutcome,
};
use tao::ids::{CallId, CheckpointId, SessionId, TurnId};
use tao::json::{parse, print, Json};
use tao::log::LogEvent;
use tao::mcp::client::{
    after_call, load_lazily, read_result, read_tools, search_output, search_server, CallStep,
    Listed, Loader, McpCallTool, McpTool, McpToolInfo, McpToolResult, ToolSearchTool,
};
use tao::mcp::server::{
    handle, message_role_text, parse_cwd, reply, sessions, text_result, tools_list, transcript,
    ServerStep,
};
use tao::model::{ModelContent, ModelMessage};
use tao::op::{Op, ReviewDecision, Submission, UserInput};
use tao::permission::{PermissionMode, PermissionRule, RuleAction, RuleScope};
use tao::permissions::PermissionEngine;
use tao::recorder::Journal;
use tao::rpc::{answer, read_call, read_reply, request, Reply};
use tao::server::{
    find_checkpoint_commit, list_sessions, replay_history_events, turn_event_to_msg, Resumed,
    RolledBack, StoredLog, WireAction, WireSession,
};
use tao::session::TurnEvent;
use tao::table::Table;
use tao::task::{plan_task, task_report};
use tao::agents::parse_agent;
use tao::tools::ToolRegistry;

fn json(s: &str) -> Json {
    parse(s).unwrap()
}

fn detail() -> ApprovalDetail {
    ApprovalDetail {
        rule_matched: None,
        command: None,
        files: None,
        tool: Some("Bash".into()),
        args_summary: None,
        pattern_suggestion: None,
    }
}

#[test]
fn approval_request_translates() {
    let ev = TurnEvent::ApprovalRequest {
        call_id: CallId::new("c1"),
        kind: ApprovalKind::Tool,
        detail: detail(),
    };
    assert!(matches!(turn_event_to_msg(&ev), Some(EventMsg::ApprovalRequest { .. })));
}

#[test]
fn text_delta_translates() {
    let ev = TurnEvent::TextDelta("hi".into());
    assert!(matches!(turn_event_to_msg(&ev), Some(EventMsg::AgentMessageDelta { .. })));
}

#[test]
fn approval_resolved_skipped() {
    let ev = TurnEvent::ApprovalResolved {
        call_id: CallId::new("c1"),
        decision: ReviewDecision::Approve,
    };
    assert!(turn_event_to_msg(&ev).is_none());
}

// ---- the session ----

fn session() -> WireSession {
    WireSession::new(
        "/p",
        "m",
        None,
        "anthropic",
        WireApi::Anthropic,
        SessionId::new("s1"),
        PermissionEngine::new(PermissionMode::Default, vec![]),
        ToolRegistry::builtin(),
    )
}

fn turn(id: &str) -> Submission {
    Submission {
        id: id.into(),
        op: Op::UserTurn {
            turn_id: format!("t-{id}"),
            input: vec![
                UserInput::Text { text: "a".into() },
                UserInput::Image { path: "x.png".into() },
                UserInput::Text { text: "b".into() },
            ],
        },
    }
}

fn sub(op: Op) -> Submission {
    Submission { id: "q".into(), op }
}

fn sent(actions: Vec<WireAction>) -> Event {
    match actions.into_iter().next() {
        Some(WireAction::Send(e)) => e,
        _ => panic!("expected an event"),
    }
}

#[test]
fn turns_wait_in_line() {
    let mut s = session();
    assert!(matches!(&s.dispatch(turn("1"))[..], [WireAction::StartTurn(x)] if x.id == "1"));
    assert!(s.dispatch(turn("2")).is_empty());
    assert!(s.dispatch(turn("3")).is_empty());
    assert!(matches!(&s.turn_done()[..], [WireAction::StartTurn(x)] if x.id == "2"));
    assert!(s.running);
    assert!(matches!(&s.turn_done()[..], [WireAction::StartTurn(x)] if x.id == "3"));
    assert!(s.turn_done().is_empty());
    assert!(!s.running);
}

#[test]
fn interrupts_drop_what_waits() {
    let mut s = session();
    s.dispatch(turn("1"));
    s.dispatch(turn("2"));
    let actions = s.dispatch(sub(Op::Interrupt { abandon_queued: true }));
    assert!(matches!(&actions[..], [WireAction::Cancel]));
    assert!(s.turn_done().is_empty());
    assert!(s.dispatch(sub(Op::Interrupt { abandon_queued: false })).is_empty());
}

#[test]
fn verdicts_are_used_once() {
    let mut s = session();
    s.ask("c1");
    let verdict =
        || sub(Op::ApprovalResponse { call_id: "c1".into(), decision: ReviewDecision::Approve });
    assert!(matches!(&s.dispatch(verdict())[..], [WireAction::Answer { .. }]));
    assert!(s.dispatch(verdict()).is_empty());
}

#[test]
fn requests_are_answered_and_numbered() {
    let mut s = session();
    let first = sent(s.dispatch(sub(Op::Hello { protocol_version: 1 })));
    assert_eq!((first.id.as_str(), first.seq), ("q", 0));
    assert!(matches!(first.msg, EventMsg::SessionConfigured { .. }));
    let second = sent(s.dispatch(sub(Op::SetPermissionMode { mode: PermissionMode::Plan })));
    assert_eq!(second.seq, 1);
    assert_eq!(s.engine.mode(), PermissionMode::Plan);
    let third = sent(s.dispatch(sub(Op::SetModel { model: "n".into() })));
    assert_eq!(third.msg, EventMsg::BackgroundEvent { message: "model → n".into() });
    let rule = PermissionRule {
        tool: "Bash".into(),
        pattern: "ls *".into(),
        action: RuleAction::Allow,
    };
    s.dispatch(sub(Op::AddPermissionRule { rule, scope: RuleScope::Session }));
    assert!(matches!(
        sent(s.dispatch(sub(Op::ListModels))).msg,
        EventMsg::SessionQueryModels { models } if models[0].id == "n"
            && models[0].context_window == 200_000
    ));
    assert!(matches!(
        sent(s.dispatch(sub(Op::ListMcpTools))).msg,
        EventMsg::SessionQueryMcpTools { tools, .. } if tools.is_empty()
    ));
    assert!(matches!(&s.dispatch(sub(Op::Shutdown))[..], [WireAction::Stop]));
    assert!(matches!(
        &s.dispatch(sub(Op::Compact { instruction: None }))[..],
        [WireAction::Compact { model, .. }] if model == "n"
    ));
    s.dispatch(turn("1"));
    assert!(matches!(
        sent(s.dispatch(sub(Op::Compact { instruction: None }))).msg,
        EventMsg::Error { retryable: true, .. }
    ));
}

#[test]
fn turns_begin_and_end() {
    let mut s = session();
    let start = s.begin_turn(&turn("1"), &vec![], None).unwrap();
    assert_eq!(start.turn_id, TurnId::new("t-1"));
    assert!(matches!(
        &start.record,
        LogEvent::UserInput { content, .. } if content[..] == [Content::text("a b")]
    ));
    assert_eq!(start.messages.len(), 1);
    assert_eq!(start.request.tools.len(), 8);
    assert!(s.begin_turn(&sub(Op::ListModels), &vec![], None).is_none());
    let e = s.end_turn(
        "1",
        &start.turn_id,
        start.messages,
        Ok((TokenUsage::default(), StopReason::EndTurn)),
    );
    assert!(matches!(e.msg, EventMsg::TurnComplete { .. }));
    assert_eq!(s.messages.len(), 1);
    let e = s.end_turn("1", &TurnId::new("t"), vec![], Err("boom".into()));
    assert_eq!(e.msg, EventMsg::Error { message: "boom".into(), retryable: false });
}

#[test]
fn outside_work_is_told_of() {
    let mut s = session();
    let e = s.compacted("q", Ok(vec![]));
    assert_eq!(e.msg, EventMsg::BackgroundEvent { message: "compacted → 0 messages".into() });
    let e = s.compacted("q", Err("x".into()));
    assert!(matches!(e.msg, EventMsg::Error { message, .. } if message == "compact 失败: x"));
    let id = CheckpointId::new("k");
    let e = s.rolled_back("q", &id, RolledBack::NotFound);
    assert!(matches!(e.msg, EventMsg::Error { message, .. } if message == "checkpoint k 未找到"));
    let e = s.rolled_back("q", &id, RolledBack::NoRepository);
    assert!(matches!(e.msg, EventMsg::Error { .. }));
    let e = s.rolled_back("q", &id, RolledBack::Failed("x".into()));
    assert!(matches!(e.msg, EventMsg::Error { message, .. } if message == "rollback 失败: x"));
    let e = s.rolled_back("q", &id, RolledBack::Done(None));
    assert!(matches!(e.msg, EventMsg::BackgroundEvent { .. }));
    for (r, m) in [
        (Resumed::NoHome, "HOME 未设置,无法定位会话日志"),
        (Resumed::NotReplayed("x".into()), "重放会话失败: x"),
        (Resumed::NotForked("x".into()), "创建 fork 会话失败: x"),
        (Resumed::NotOpened("x".into()), "打开会话失败: x"),
    ] {
        let e = s.resumed("q", r);
        assert!(matches!(e.msg, EventMsg::Error { message, .. } if message == m));
    }
    let e = s.resumed("q", Resumed::Done { session_id: SessionId::new("s2"), messages: vec![] });
    assert!(matches!(e.msg, EventMsg::SessionConfigured { .. }));
    assert_eq!(s.session_id, SessionId::new("s2"));
}

fn said(t: &str) -> LogEvent {
    LogEvent::AssistantMessage {
        content: vec![Content::text(t)],
        usage: TokenUsage::default(),
        turn_id: TurnId::new("t"),
    }
}

fn log() -> String {
    let (mut j, first) = Journal::create(SessionId::new("s1"), None, "/p", "", 0);
    let mut text = first.text;
    for e in [
        said("one"),
        LogEvent::Checkpoint {
            checkpoint_id: CheckpointId::new("k"),
            shadow_commit: "abc".into(),
        },
        said("two"),
        said(""),
        said("three"),
    ] {
        text += &j.append(e, 0).text;
    }
    text
}

#[test]
fn history_is_what_the_model_said() {
    let seqs = |after, limit| -> Vec<u64> {
        replay_history_events(&log(), "q", after, limit).iter().map(|e| e.seq).collect()
    };
    assert_eq!(seqs(0, 0), [1, 3, 5]);
    assert_eq!(seqs(1, 0), [3, 5]);
    assert_eq!(seqs(0, 2), [1, 3]);
    assert_eq!(
        find_checkpoint_commit(&log(), &CheckpointId::new("k")),
        Some(("abc".to_string(), 2))
    );
    assert_eq!(find_checkpoint_commit(&log(), &CheckpointId::new("z")), None);
    let mut s = session();
    assert!(matches!(
        s.history_read("q", &Some(log()), 3, 0).msg,
        EventMsg::SessionQueryHistory { events, done: true } if events.len() == 1
    ));
}

#[test]
fn newest_sessions_come_first() {
    let file = |id: &str, at: u64| StoredLog {
        text: Journal::create(SessionId::new(id), None, "/p", "", 0).1.text,
        updated_at_ms: at,
        size_bytes: 1,
    };
    let bad = StoredLog { text: "junk\n".into(), updated_at_ms: 9, size_bytes: 1 };
    let files = vec![file("a", 1), bad, file("b", 3), file("c", 1)];
    let ids: Vec<String> = list_sessions(&files).iter().map(|s| s.id.as_str().into()).collect();
    assert_eq!(ids, ["b", "a", "c"]);
    let text = print(&sessions(&files));
    assert!(text.find("\\\"b\\\"") < text.find("\\\"a\\\""), "{text}");
    assert!(text.contains("(无标题)"));
    let mut s = session();
    assert!(matches!(
        s.sessions_listed("q", &files).msg,
        EventMsg::SessionQuerySessions { sessions } if sessions.len() == 3
    ));
}

// ---- one task without a screen ----

#[test]
fn events_as_json_and_text() {
    let ev = TurnEvent::ToolExecEnd { call_id: CallId::new("c"), ok: true, summary: "s".into() };
    assert_eq!(
        print(&event_json(&ev).unwrap()),
        r#"{"call_id":"c","ok":true,"summary":"s","type":"tool_exec_end"}"#
    );
    assert_eq!(event_text(&ev, true), "[✓ s]\n");
    assert_eq!(event_text(&ev, false), "");
    assert_eq!(event_text(&TurnEvent::TextDelta("t".into()), false), "t");
    assert_eq!(event_text(&TurnEvent::Error("e".into()), false), "\n[error: e]\n");
    assert!(event_json(&TurnEvent::BackgroundEvent("x".into())).is_none());
    assert_eq!(
        print(&result_json(StopReason::EndTurn, 2)),
        r#"{"steps":2,"stop_reason":"EndTurn","type":"turn_result"}"#
    );
    assert_eq!(result_text(StopReason::MaxSteps, 2), "\n[turn complete: MaxSteps, 2 steps]\n");
}

#[test]
fn requests_without_a_user() {
    assert_eq!(OnAsk::default().answer(), ReviewDecision::Deny);
    assert_eq!(OnAsk::parse("approve").unwrap().answer(), ReviewDecision::Approve);
    assert_eq!(OnAsk::parse("x").unwrap_err(), "--on-ask 无效: x(可选: deny/approve)");
}

// ---- sub-agents ----

#[test]
fn subagents_only_read() {
    let agents = vec![parse_agent("e", "---\ntools: Read, Bash, Grep\nmodel: h\n---\nprompt\n")];
    let tools = ToolRegistry::builtin();
    let args = json(r#"{"subagent":"e","prompt":"look"}"#);
    let p = plan_task(&args, 0, &agents, &tools, "m").ok().unwrap();
    assert_eq!(p.tools.names(), ["Read", "Grep"]);
    assert_eq!(p.request.model, "h");
    assert_eq!(p.mode, PermissionMode::Plan);
    assert_eq!(p.max_steps, 20);
    let why = |args: &str, depth| {
        plan_task(&json(args), depth, &agents, &tools, "m").err().unwrap().content
    };
    assert_eq!(why("{}", 0), "Task 缺少 subagent 参数");
    assert_eq!(why(r#"{"subagent":"x"}"#, 0), "未知子 agent: x");
    assert_eq!(why(r#"{"subagent":"e"}"#, 9), "子 agent 嵌套深度超限(9),已拒绝");
    let said = vec![ModelMessage::Assistant { content: vec![ModelContent::Text("r".into())] }];
    assert_eq!(task_report(&said, &Ok(StopReason::EndTurn)).content, "r");
    assert_eq!(
        task_report(&vec![], &Ok(StopReason::EndTurn)).content,
        "[子 agent 无文本输出: EndTurn]"
    );
    assert_eq!(task_report(&vec![], &Err("x".into())).content, "[子 agent 错误: x]");
}

// ---- hooks ----

fn hook(matcher: &str) -> HookConfig {
    HookConfig { matcher: matcher.into(), command: "c".into(), timeout_ms: 5000 }
}

#[test]
fn pass_on_exit_0() {
    let r = hook_result(true, Some(0), "");
    assert_eq!(aggregate(&vec![r]), HookOutcome::Pass);
}

#[test]
fn block_on_exit_2() {
    let r = hook_result(false, Some(2), " no \n");
    assert_eq!(aggregate(&vec![r]), HookOutcome::Block("no".into()));
}

#[test]
fn timeout_is_non_blocking() {
    assert_eq!(aggregate(&vec![hook_timed_out(100)]), HookOutcome::Pass);
    assert_eq!(hook_timed_out(100), HookExecResult::Error("超时(100ms)".into()));
}

#[test]
fn matcher_filters_tool() {
    let ev = HookEvent::PreToolUse { tool: "Bash".into() };
    assert!(!matches_event(&ev, "Edit"));
    assert!(matches_event(&ev, "Edit|Bash"));
    assert_eq!(select_hooks(&ev, &vec![hook("Edit"), hook("*")]).len(), 1);
    assert_eq!((ev.name(), ev.tool()), ("PreToolUse", Some("Bash")));
}

#[test]
fn block_short_circuits() {
    let results = vec![
        hook_result(false, Some(1), "x"),
        hook_result(false, Some(2), "first"),
        hook_result(false, Some(2), "second"),
    ];
    assert_eq!(aggregate(&results), HookOutcome::Block("first".into()));
}

#[test]
fn hooks_are_told_and_see_no_keys() {
    let ev = HookEvent::PreToolUse { tool: "Bash".into() };
    let ctx = HookCtx {
        session_id: "s".into(),
        cwd: "/p".into(),
        tool_name: Some("Bash".into()),
        tool_input: None,
    };
    assert_eq!(
        hook_stdin(&ev, &ctx),
        r#"{"cwd":"/p","event":"PreToolUse","session_id":"s","tool_input":null,"tool_name":"Bash"}"#
    );
    let names: Vec<String> = hook_env(&ev, &ctx, &Some("/bin".into()), &None)
        .into_iter()
        .map(|(k, _)| k)
        .collect();
    assert_eq!(names, ["PATH", "TAO_HOOK_EVENT", "TAO_TOOL_NAME"]);
}

// ---- calls and answers ----

#[test]
fn calls_are_read_and_answered() {
    let c = read_call(r#" {"id":1,"method":"m","params":{"a":2}} "#).unwrap();
    assert_eq!((c.method.as_str(), print(&c.params).as_str()), ("m", "{\"a\":2}"));
    assert_eq!(
        answer(&c.id, Ok(Json::Null)).unwrap(),
        "{\"id\":1,\"jsonrpc\":\"2.0\",\"result\":null}\n"
    );
    assert_eq!(
        answer(&c.id, Err("x".into())).unwrap(),
        "{\"error\":{\"code\":-32603,\"message\":\"x\"},\"id\":1,\"jsonrpc\":\"2.0\"}\n"
    );
    assert!(answer(&None, Ok(Json::Null)).is_none());
    assert!(read_call("  ").is_none());
    assert!(read_call("nope").is_none());
    assert_eq!(
        print(&request(3, "tools/list", json("{}"))),
        r#"{"id":3,"jsonrpc":"2.0","method":"tools/list","params":{}}"#
    );
}

#[test]
fn answers_find_their_call() {
    let line = r#"{"jsonrpc":"2.0","id":7,"result":{"x":1}}"#;
    assert!(matches!(read_reply(7, line), Ok(Reply::Done(j)) if print(&j) == "{\"x\":1}"));
    assert!(matches!(read_reply(8, line), Ok(Reply::Other)));
    assert!(matches!(
        read_reply(7, r#"{"id":7,"error":{"code":1}}"#),
        Ok(Reply::Failed(e)) if e == "MCP 错误: {\"code\":1}"
    ));
    assert!(read_reply(7, "junk").is_err());
}

// ---- the agent inside an editor ----

#[test]
fn editors_open_and_prompt() {
    let mut s = AcpServer::new();
    let step = s.handle("initialize", &Json::Null, "0.1.0");
    assert!(matches!(step, AcpStep::Answer(j) if print(&j).contains("\"protocolVersion\":\"0.1\"")));
    let prompt = json(r#"{"message":[{"type":"text","text":"hi"}]}"#);
    assert!(matches!(
        s.handle("session/prompt", &prompt, ""),
        AcpStep::Answer(j) if print(&j) == "{\"error\":\"no session\"}"
    ));
    assert!(matches!(s.handle("session/new", &json("{}"), ""), AcpStep::Open { cwd } if cwd == "."));
    assert_eq!(print(&s.opened("/p", "m", "s1")), "{\"sessionId\":\"s1\"}");
    assert!(matches!(s.handle("session/prompt", &prompt, ""), AcpStep::Prompt { text } if text == "hi"));
    assert!(matches!(s.handle("session/cancel", &Json::Null, ""), AcpStep::Answer(Json::Null)));
    s.begin("hi");
    assert!(matches!(s.handle("session/cancel", &Json::Null, ""), AcpStep::Cancel));
    let j = s.ended(vec![], Ok(StopReason::EndTurn));
    assert_eq!(print(&j), "{\"stopReason\":\"EndTurn\"}");
    assert_eq!(
        print(&s.not_opened(&NotOpened::Config("x".into()))),
        "{\"error\":\"config 加载失败: x\"}"
    );
    let u = tao::acp::session_update(
        "s1",
        &TurnEvent::TurnComplete { stop_reason: StopReason::EndTurn, steps: 1 },
    );
    assert!(print(&u.unwrap()).contains("\"stop_reason\":\"endturn\""));
}

// ---- the agent as a tool server ----

#[test]
fn tools_list_has_three_tools() {
    let v = tools_list();
    let tools = v.get("tools").and_then(|t| t.as_list()).expect("tools");
    let names: Vec<&str> =
        tools.iter().map(|t| t.get("name").and_then(|n| n.as_str()).unwrap_or("")).collect();
    assert_eq!(names, ["list_sessions", "send_message", "read_session"]);
    for t in tools {
        assert!(t.get("inputSchema").is_some());
    }
}

#[test]
fn text_result_shape() {
    let v = text_result("hi");
    assert_eq!(v.get("isError").and_then(|b| b.as_bool()), Some(false));
    let c = &v.get("content").and_then(|c| c.as_list()).unwrap()[0];
    assert_eq!(c.get("type").and_then(|t| t.as_str()), Some("text"));
    assert_eq!(c.get("text").and_then(|t| t.as_str()), Some("hi"));
}

#[test]
fn parse_cwd_defaults_to_current() {
    assert_eq!(parse_cwd(&json("{}"), Some("/here")), "/here");
    assert_eq!(parse_cwd(&json("{}"), None), ".");
}

#[test]
fn parse_cwd_uses_arg() {
    assert_eq!(parse_cwd(&json(r#"{"cwd":"/tmp/tao-test"}"#), Some("/here")), "/tmp/tao-test");
}

#[test]
fn calls_of_the_server() {
    let call = |m: &str, p: &str| handle(m, &json(p));
    assert!(matches!(call("initialize", "{}"), ServerStep::Answer(Ok(_))));
    assert!(matches!(call("tools/list", "{}"), ServerStep::Answer(Ok(_))));
    assert!(matches!(call("nope", "{}"), ServerStep::Answer(Err(e)) if e == "未知方法: nope"));
    assert!(matches!(
        call("tools/call", r#"{"name":"send_message","arguments":{"message":"m","session_id":"s"}}"#),
        ServerStep::SendMessage { message, fork_of: Some(s), .. } if message == "m" && s == "s"
    ));
    assert!(matches!(
        call("tools/call", r#"{"name":"send_message"}"#),
        ServerStep::Answer(Err(e)) if e == "缺少 message"
    ));
    assert!(matches!(
        call("tools/call", r#"{"name":"read_session","arguments":{}}"#),
        ServerStep::Answer(Err(e)) if e == "缺少 session_id"
    ));
    assert!(matches!(
        call("tools/call", r#"{"name":"x"}"#),
        ServerStep::Answer(Err(e)) if e == "未知工具: x"
    ));
}

#[test]
fn transcripts_and_replies() {
    let m = ModelMessage::ToolResult {
        call_id: CallId::new("c"),
        content: vec![ModelContent::Text("x".into()), ModelContent::Text("y".into())],
        is_error: true,
    };
    assert_eq!(message_role_text(&m), ("tool", "[✗] x y".to_string()));
    let text = print(&transcript(&vec![m]));
    assert!(text.contains("\\\"role\\\": \\\"tool\\\""), "{text}");
    let a = ModelMessage::Assistant { content: vec![ModelContent::Text("last".into())] };
    assert!(print(&reply("", &vec![a])).contains("last"));
    assert!(print(&reply("said", &vec![])).contains("said"));
}

// ---- tools of tool servers ----

fn info(name: &str, description: &str) -> McpToolInfo {
    McpToolInfo { name: name.into(), description: description.into(), input_schema: json("{}") }
}

#[test]
fn servers_list_and_answer() {
    let tools = read_tools(&json(
        r#"{"tools":[{"name":"a","description":"d","inputSchema":{"type":"object"}},{}]}"#,
    ));
    assert_eq!(tools.len(), 2);
    assert_eq!((tools[0].name.as_str(), tools[1].name.as_str()), ("a", ""));
    let r = read_result(&json(
        r#"{"isError":true,"content":[{"type":"text","text":"x"},{"type":"image"},{"type":"text","text":"y"}]}"#,
    ));
    assert_eq!((r.content.as_str(), r.is_error), ("x\ny", true));
    let spec = McpTool::new("srv", &tools[0]).spec();
    assert_eq!(spec.name, "mcp__srv__a");
    assert_eq!(after_call(Err("e".into()), false), CallStep::Restart);
    assert!(matches!(after_call(Err("e".into()), true), CallStep::GiveUp(_)));
    let ok = McpToolResult { content: "c".into(), is_error: false };
    assert!(matches!(after_call(Ok(ok), false), CallStep::Give(o) if o.content == "c"));
}

fn servers() -> Table<McpServerConfig> {
    let mut t = Table::new();
    t.put("srv", McpServerConfig::default());
    t
}

#[test]
fn budgets_hold() {
    let mut reg = ToolRegistry::new();
    let mut l = Loader::new();
    let tools = vec![info("a", ""), info("b", ""), info("c", "")];
    l.add_server(&mut reg, &servers(), "srv", &tools, 2);
    assert!(l.full);
    assert_eq!(reg.names(), ["mcp__srv__a", "mcp__srv__b", "mcp__toolsearch"]);
    let mut reg = ToolRegistry::new();
    let mut l = Loader::new();
    l.add_server(&mut reg, &servers(), "srv", &tools, 0);
    assert!(!l.full);
    assert_eq!(reg.names().len(), 3);
    let mut reg = ToolRegistry::new();
    load_lazily(&mut reg, &servers());
    assert_eq!(reg.names(), ["mcp__toolsearch", "mcp__call"]);
}

#[test]
fn searches_pay_no_heed_to_case() {
    let listed = Listed::Tools(vec![info("GetIssue", "reads"), info("list", "All ISSUES")]);
    let hits = search_server("issue", "srv", &listed);
    assert_eq!(hits.len(), 2);
    assert!(hits[0].starts_with("mcp__srv__GetIssue — reads\n  schema: {}"));
    assert_eq!(search_server("nothing", "srv", &listed).len(), 0);
    assert_eq!(search_server("", "srv", &listed).len(), 2);
    assert_eq!(
        search_server("x", "srv", &Listed::NotStarted("e".into())),
        ["[srv: spawn 失败: e]"]
    );
    assert_eq!(search_output("q", &vec![]).content, "未匹配到 MCP 工具(query=q)");
    assert_eq!(ToolSearchTool::new(servers()).server_names(), ["srv"]);
}

#[test]
fn calls_by_name() {
    let t = McpCallTool::new(servers());
    assert_eq!(t.spec().name, "mcp__call");
    let c = t.plan(&json(r#"{"server":"srv","tool":"a"}"#)).ok().unwrap();
    assert_eq!((c.tool.as_str(), print(&c.arguments).as_str()), ("a", "{}"));
    assert_eq!(c.failed("e").content, "MCP srv/a 调用失败: e");
    assert_eq!(c.not_started("e").content, "MCP server srv 启动失败: e");
    let why = |a: &str| t.plan(&json(a)).err().unwrap().content;
    assert_eq!(why("{}"), "缺少 server 或 tool 参数(需同时提供 server 与 tool)");
    assert_eq!(why(r#"{"server":"z","tool":"a"}"#), "未知 MCP server: z(可用: srv)");
}
