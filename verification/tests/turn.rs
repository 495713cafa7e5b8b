//! Turns, step by step.

use std::collections::VecDeque;

use tao::content::{Content, StopReason, TokenUsage};
use tao::exec::turn_request;
use tao::hooks::HookOutcome;
use tao::ids::{CallId, SessionId, TurnId};
use tao::json::{parse, print, Json};
use tao::log::LogEvent;
use tao::model::{ModelContent, ModelError, ModelMessage, ModelStreamEvent};
use tao::op::ReviewDecision;
use tao::permission::PermissionMode;
use tao::permissions::PermissionEngine;
use tao::recorder::Journal;
use tao::replay::replay;
use tao::session::{
    arguments_from, find_reply, find_user_text, model_content_to_content, parse_arguments,
    summarize, Action, Input, Reply, Turn, TurnConfig, TurnEvent,
};
use tao::tools::{ToolError, ToolOutput, ToolRegistry};

fn json(s: &str) -> Json {
    parse(s).unwrap()
}

fn usage() -> TokenUsage {
    TokenUsage::default()
}

fn text_turn(text: &str, stop: StopReason) -> Vec<ModelStreamEvent> {
    vec![
        ModelStreamEvent::TextDelta(text.into()),
        ModelStreamEvent::MessageEnd { stop_reason: stop, usage: usage() },
    ]
}

fn tool_turn(call_id: &str, name: &str, input: &str) -> Vec<ModelStreamEvent> {
    vec![
        ModelStreamEvent::ToolUseBegin { call_id: CallId::new(call_id), name: name.into() },
        ModelStreamEvent::ToolUseInputDelta {
            call_id: CallId::new(call_id),
            json_fragment: input.into(),
        },
        ModelStreamEvent::ToolUseEnd { call_id: CallId::new(call_id) },
        ModelStreamEvent::MessageEnd { stop_reason: StopReason::ToolUse, usage: usage() },
    ]
}

struct Ran {
    events: Vec<TurnEvent>,
    log: Vec<LogEvent>,
    ran: Vec<String>,
    asked: usize,
    end: Result<(StopReason, u32), ModelError>,
    messages: Vec<ModelMessage>,
}

struct World {
    mode: PermissionMode,
    answer: ReviewDecision,
    refuse_prompt: bool,
    refuse_tools: bool,
    cancelled: bool,
}

fn world() -> World {
    World {
        mode: PermissionMode::Bypass,
        answer: ReviewDecision::Approve,
        refuse_prompt: false,
        refuse_tools: false,
        cancelled: false,
    }
}

fn run(turns: Vec<Vec<ModelStreamEvent>>, w: World) -> Ran {
    let mut turns: VecDeque<Vec<ModelStreamEvent>> = turns.into();
    let config = TurnConfig { max_steps: 10, trusted_projects: vec![] };
    let mut engine = PermissionEngine::new(w.mode, vec![]);
    let mut turn = Turn::new(
        &config,
        ToolRegistry::builtin().names(),
        TurnId::new("t1"),
        ".".into(),
        false,
        false,
        vec![],
    );
    let mut ran = Ran {
        events: vec![],
        log: vec![],
        ran: vec![],
        asked: 0,
        end: Ok((StopReason::Error, 0)),
        messages: vec![],
    };
    let mut inputs: VecDeque<Input> = VecDeque::from([Input::Start]);
    while let Some(input) = inputs.pop_front() {
        for action in turn.step(&mut engine, input, w.cancelled) {
            match action {
                Action::Emit(e) => ran.events.push(e),
                Action::Record(l) => ran.log.push(l),
                Action::Hook { .. } => {}
                Action::CheckPrompt { .. } => inputs.push_back(Input::PromptChecked(
                    if w.refuse_prompt {
                        HookOutcome::Block("no".into())
                    } else {
                        HookOutcome::Pass
                    },
                )),
                Action::Stream => match turns.pop_front() {
                    Some(events) => inputs.extend(events.into_iter().map(Input::Chunk)),
                    None => inputs.push_back(Input::Refused(ModelError::Fatal("no more".into()))),
                },
                Action::RunTask { .. } => {
                    inputs.push_back(Input::TaskDone(Reply::Output(ToolOutput::ok("report"))))
                }
                Action::TakeSnapshot { .. } => inputs.push_back(Input::SnapshotTaken(None)),
                Action::CheckTool { .. } => inputs.push_back(Input::ToolChecked(
                    if w.refuse_tools {
                        HookOutcome::Block("not now".into())
                    } else {
                        HookOutcome::Pass
                    },
                )),
                Action::Ask { .. } => {
                    ran.asked += 1;
                    inputs.push_back(Input::Answered(w.answer));
                }
                Action::Exec { tool, .. } => {
                    ran.ran.push(tool);
                    inputs.push_back(Input::ToolDone {
                        reply: Reply::Output(ToolOutput::ok("done")),
                        duration_ms: 1,
                    });
                }
                Action::Finish { stop_reason, steps, .. } => ran.end = Ok((stop_reason, steps)),
                Action::Fail(e) => ran.end = Err(e),
            }
        }
    }
    ran.messages = turn.messages;
    ran
}

fn texts(r: &Ran) -> Vec<String> {
    r.events
        .iter()
        .filter_map(|e| match e {
            TurnEvent::TextDelta(t) => Some(t.clone()),
            _ => None,
        })
        .collect()
}

#[test]
fn text_only_turn() {
    let r = run(vec![text_turn("hello", StopReason::EndTurn)], world());
    assert_eq!(r.end, Ok((StopReason::EndTurn, 1)));
    assert_eq!(texts(&r), vec!["hello"]);
    assert_eq!(r.messages.len(), 1);
}

#[test]
fn tool_call_then_text() {
    let r = run(
        vec![
            tool_turn("c1", "Bash", r#"{"command":["echo","done"]}"#),
            text_turn("all good", StopReason::EndTurn),
        ],
        world(),
    );
    assert_eq!(r.end, Ok((StopReason::EndTurn, 2)));
    assert!(r
        .events
        .iter()
        .any(|e| matches!(e, TurnEvent::ToolCallBegin { tool, .. } if tool == "Bash")));
    assert!(r.events.iter().any(|e| matches!(e, TurnEvent::ToolExecEnd { ok: true, .. })));
    assert_eq!(texts(&r), vec!["all good"]);
    assert_eq!(r.messages.len(), 3);
    assert_eq!(r.ran, ["Bash"]);
}

#[test]
fn unknown_tool_produces_error_result() {
    let r = run(
        vec![
            tool_turn("c1", "Nonexistent", "{}"),
            text_turn("recovered", StopReason::EndTurn),
        ],
        world(),
    );
    assert_eq!(r.end, Ok((StopReason::EndTurn, 2)));
    assert!(r.events.iter().any(|e| matches!(e, TurnEvent::ToolExecEnd { ok: false, .. })));
    if let ModelMessage::ToolResult { is_error, .. } = &r.messages[1] {
        assert!(*is_error);
    } else {
        panic!("expected a tool result");
    }
    assert!(r.ran.is_empty());
}

#[test]
fn max_steps_terminates() {
    let turns = (0..20)
        .map(|i| tool_turn(&format!("c{i}"), "Bash", r#"{"command":["echo","x"]}"#))
        .collect();
    let r = run(turns, world());
    assert_eq!(r.end.unwrap().0, StopReason::MaxSteps);
    assert!(r
        .events
        .iter()
        .any(|e| matches!(e, TurnEvent::Error(msg) if msg.contains("max_steps"))));
    assert_eq!(r.ran.len(), 10);
}

#[test]
fn cancellation_during_turn() {
    let r = run(
        vec![tool_turn("c1", "Bash", r#"{"command":["sleep","30"]}"#)],
        World { cancelled: true, ..world() },
    );
    assert_eq!(r.end.unwrap().0, StopReason::Interrupted);
    assert!(r.ran.is_empty());
}

#[test]
fn calls_that_need_leave_are_asked_for() {
    let turns = || {
        vec![
            tool_turn("c1", "Bash", r#"{"command":["ls"]}"#),
            text_turn("ok", StopReason::EndTurn),
        ]
    };
    let w = |answer| World { mode: PermissionMode::Default, answer, ..world() };
    let yes = run(turns(), w(ReviewDecision::Approve));
    assert_eq!((yes.asked, yes.ran.len()), (1, 1));
    let no = run(turns(), w(ReviewDecision::Deny));
    assert_eq!((no.asked, no.ran.len()), (1, 0));
    assert_eq!(no.end, Ok((StopReason::EndTurn, 2)));
    let abort = run(turns(), w(ReviewDecision::Abort));
    assert_eq!(abort.ran.len(), 0);
    assert_eq!(abort.end.unwrap().0, StopReason::Interrupted);
    let plan = run(turns(), World { mode: PermissionMode::Plan, ..world() });
    assert_eq!((plan.asked, plan.ran.len()), (0, 0));
}

#[test]
fn session_grants_are_recorded_and_last() {
    let r = run(
        vec![
            tool_turn("c1", "Bash", r#"{"command":["ls"]}"#),
            tool_turn("c2", "Bash", r#"{"command":["ls"]}"#),
            text_turn("ok", StopReason::EndTurn),
        ],
        World {
            mode: PermissionMode::Default,
            answer: ReviewDecision::ApproveForSession,
            ..world()
        },
    );
    assert_eq!((r.asked, r.ran.len()), (1, 2));
    assert!(r.log.iter().any(
        |l| matches!(l, LogEvent::PermissionGrant { tool, pattern } if tool == "Bash" && pattern == "ls")
    ));
}

#[test]
fn hooks_may_refuse() {
    let r = run(vec![text_turn("x", StopReason::EndTurn)], World { refuse_prompt: true, ..world() });
    assert!(texts(&r).is_empty());
    let r = run(
        vec![
            tool_turn("c1", "Bash", r#"{"command":["ls"]}"#),
            text_turn("ok", StopReason::EndTurn),
        ],
        World { refuse_tools: true, ..world() },
    );
    assert!(r.ran.is_empty());
    assert!(matches!(&r.messages[1], ModelMessage::ToolResult { is_error: true, .. }));
}

#[test]
fn models_that_cannot_be_reached_fail_the_turn() {
    let r = run(vec![], world());
    assert_eq!(r.end, Err(ModelError::Fatal("no more".into())));
}

#[test]
fn ends_are_recorded() {
    let r = run(vec![text_turn("hello", StopReason::EndTurn)], world());
    assert!(r.log.iter().any(
        |l| matches!(l, LogEvent::TurnBoundary { stop_reason: StopReason::EndTurn, .. })
    ));
    assert!(r.log.iter().any(|l| matches!(l, LogEvent::AssistantMessage { .. })));
}

#[test]
fn calls_are_made_however_the_message_ends() {
    let mut calls = tool_turn("c1", "Nonexistent", "{}");
    calls.pop();
    calls.push(ModelStreamEvent::MessageEnd {
        stop_reason: StopReason::EndTurn,
        usage: TokenUsage::zero(),
    });
    let r = run(vec![calls, text_turn("ok", StopReason::EndTurn)], world());
    assert_eq!(r.end, Ok((StopReason::EndTurn, 2)));
    assert_eq!(r.messages.len(), 3);
    assert!(matches!(
        &r.messages[1],
        ModelMessage::ToolResult { call_id, is_error: true, .. } if call_id.as_str() == "c1"
    ));
}

#[test]
fn the_model_is_asked_with_all_that_there_is() {
    let said = vec![ModelMessage::Assistant { content: vec![] }];
    let tools = ToolRegistry::builtin();
    let turn = Turn::new(
        &TurnConfig::default(),
        tools.names(),
        TurnId::new("t1"),
        ".".into(),
        false,
        false,
        said.clone(),
    );
    let base = turn_request(
        "m",
        vec![],
        vec![],
        None,
        &SessionId::new("s"),
        &TurnId::new("t1"),
    );
    let r = turn.request(&base, &tools);
    assert_eq!((r.messages, r.tools), (said, tools.specs()));
    assert_eq!((r.model.as_str(), r.max_output_tokens), ("m", 4096));
    assert_eq!(r.metadata.session_id.as_deref(), Some("s"));
}

#[test]
fn one_call_one_question() {
    let calls = || {
        let mut v = tool_turn("c1", "Bash", r#"{"command":["ls"]}"#);
        v.pop();
        v.extend(tool_turn("c2", "Write", r#"{"path":"f"}"#));
        v
    };
    let turns = || vec![calls(), text_turn("ok", StopReason::EndTurn)];
    let asked = run(turns(), World { mode: PermissionMode::Default, ..world() });
    assert_eq!((asked.asked, asked.ran.len()), (2, 2));
    let no = run(
        turns(),
        World { mode: PermissionMode::Default, answer: ReviewDecision::Deny, ..world() },
    );
    assert_eq!((no.asked, no.ran.len(), no.messages.len()), (2, 0, 4));
    let denied = run(turns(), World { mode: PermissionMode::Plan, ..world() });
    assert_eq!((denied.asked, denied.ran.len(), denied.messages.len()), (0, 0, 4));
    let allowed = run(turns(), world());
    assert_eq!((allowed.asked, allowed.ran.len()), (0, 2));
}

#[test]
fn memory_is_what_the_log_says() {
    let mut both = tool_turn("c1", "Bash", r#"{"command":["ls"]}"#);
    both.pop();
    both.extend(tool_turn("c2", "Nope", "{}"));
    let r = run(
        vec![both, text_turn("done", StopReason::EndTurn)],
        World {
            mode: PermissionMode::Default,
            answer: ReviewDecision::ApproveForSession,
            ..world()
        },
    );
    let (mut j, first) = Journal::create(SessionId::new("s"), None, ".", "", 0);
    let mut text = first.text;
    for l in r.log {
        text += &j.append(l, 0).text;
    }
    let state = replay(&text).unwrap();
    assert_eq!(state.messages, r.messages);
    assert_eq!(state.session_grants, vec![("Bash".to_string(), "ls".to_string())]);
    let answered: Vec<&str> = state
        .messages
        .iter()
        .filter_map(|m| match m {
            ModelMessage::ToolResult { call_id, .. } => Some(call_id.as_str()),
            _ => None,
        })
        .collect();
    assert_eq!(answered, ["c1", "c2"]);
}

#[test]
fn arguments_that_are_no_json() {
    assert_eq!(print(&parse_arguments("{\"a\":1}")), "{\"a\":1}");
    assert_eq!(print(&parse_arguments("")), "{}");
    assert_eq!(
        arguments_from("{oops", Err("why".into())),
        Json::Text("[参数解析失败: why]\n原始: {oops".into())
    );
    assert!(matches!(parse_arguments("{oops"), Json::Text(t) if t.ends_with("原始: {oops")));
}

#[test]
fn summaries_are_short() {
    assert_eq!(summarize("one"), "one");
    assert_eq!(summarize("one\ntwo"), "one ...");
    let long = "x".repeat(100);
    assert_eq!(summarize(&long), format!("{}...", "x".repeat(77)));
    assert_eq!(summarize(""), "");
}

#[test]
fn texts_of_messages() {
    let messages = vec![
        ModelMessage::User { content: vec![ModelContent::Text("q".into())] },
        ModelMessage::Assistant { content: vec![ModelContent::Text("a".into())] },
        ModelMessage::Assistant {
            content: vec![ModelContent::ToolUse {
                call_id: CallId::new("c"),
                name: "Bash".into(),
                input: json("{}"),
            }],
        },
    ];
    assert_eq!(find_user_text(&messages).as_deref(), Some("q"));
    assert_eq!(find_reply(&messages).as_deref(), Some("a"));
    assert_eq!(
        model_content_to_content(&ModelContent::Text("t".into())),
        Content::Text { text: "t".into() }
    );
}

#[test]
fn tool_errors_have_words() {
    assert!(ToolError::Timeout(100).message().contains("100"));
    assert!(ToolError::Failed("x".into()).message().contains("x"));
}
