//! The screen: keys, events, and what is shown.

use tao::commands::{parse_builtin, parse_command, Builtin};
use tao::config::HooksConfig;
use tao::content::{StopReason, TokenUsage};
use tao::event::{ApprovalDetail, ApprovalKind};
use tao::ids::CallId;
use tao::op::ReviewDecision;
use tao::permission::PermissionMode;
use tao::session::TurnEvent;
use tao::tools::ToolRegistry;
use tao::tui::markdown::{assistant_lines, diff_lines, markdown_to_lines, render_events, MdEvent, MdTag};
use tao::tui::screen::{draw, scroll_position, RenderState};
use tao::tui::state::{
    find_template, list_sessions, page_height, HistoryCell, Key, KeyCode,
    SessionFile, UiAction, UiState,
};
use tao::tui::style::{Color, Line, Style};

fn joined(lines: &[Line]) -> String {
    lines.iter().flat_map(|l| l.spans.iter().map(|s| s.text.clone())).collect()
}

#[test]
fn markdown_heading_and_text() {
    let lines = markdown_to_lines("# 标题\n正文");
    assert!(lines.len() >= 2);
    let text = joined(&lines);
    assert!(text.contains("标题"));
    assert!(text.contains("正文"));
}

#[test]
fn markdown_code_block() {
    let lines = markdown_to_lines("```\nfn main() {}\n```");
    assert!(joined(&lines).contains("fn main() {}"));
}

#[test]
fn markdown_inline_code() {
    let lines = markdown_to_lines("用 `cargo` 构建");
    assert!(joined(&lines).contains("cargo"));
}

#[test]
fn diff_lines_coloring() {
    let lines = diff_lines("+added\n-removed\n ctx");
    assert_eq!(lines.len(), 3);
    assert_eq!(lines[0].spans[0].style.fg, Some(Color::Green));
    assert_eq!(lines[1].spans[0].style.fg, Some(Color::Red));
}

#[test]
fn markdown_lines_exactly() {
    let show = |text: &str| -> Vec<String> {
        markdown_to_lines(text).iter().map(|l| joined(std::slice::from_ref(l))).collect()
    };
    assert_eq!(show("- a\n  - b\n- c"), ["• a", "  • b", "• c"]);
    assert_eq!(show("a\nb"), ["a", "b"]);
    assert_eq!(show("a\n\n---\n\nb"), ["a", "─", "b"]);
    assert_eq!(show("```\nx\n\ny\n```"), ["  x", "  y"]);
    let bold = markdown_to_lines("a **b** c");
    assert!(bold[0].spans[1].style.bold);
    assert!(bold[0].spans[2].style.not_bold);
}

#[test]
fn events_become_lines() {
    let lines = render_events(&vec![
        MdEvent::Start(MdTag::Heading),
        MdEvent::Text("h".into()),
        MdEvent::End(MdTag::Heading),
        MdEvent::Code("c".into()),
        MdEvent::Other,
    ]);
    assert_eq!(lines.len(), 2);
    assert_eq!(lines[0].spans[0].style, Style::bold(Color::Cyan));
    assert_eq!(lines[1].spans[0].style, Style::colored(Color::Yellow));
    let said = assistant_lines("hi");
    assert_eq!(joined(&said), "tao hi");
    assert_eq!(joined(&assistant_lines("")), "tao ");
}

// ---- keys ----

fn key(code: KeyCode) -> Key {
    Key { code, control: false }
}

fn screen() -> UiState {
    UiState::new(PermissionMode::Default, vec![])
}

fn type_in(s: &mut UiState, text: &str) {
    for c in text.chars() {
        s.handle_key(key(KeyCode::Char(c)), 10);
    }
}

fn send(s: &mut UiState, text: &str) -> UiAction {
    type_in(s, text);
    s.handle_key(key(KeyCode::Enter), 10)
}

fn shown(s: &UiState) -> String {
    match s.history.last() {
        Some(HistoryCell::Tool(t)) => t.clone(),
        _ => panic!("nothing shown"),
    }
}

#[test]
fn typing_and_sending() {
    let mut s = screen();
    type_in(&mut s, "hix");
    s.handle_key(key(KeyCode::Backspace), 10);
    assert_eq!(s.input, "hi");
    assert!(matches!(s.handle_key(key(KeyCode::Enter), 10), UiAction::Submit { text } if text == "hi"));
    assert_eq!(s.input, "");
    assert!(matches!(s.handle_key(key(KeyCode::Enter), 10), UiAction::Nothing));
    s.submit("hi");
    assert!(s.running);
    type_in(&mut s, "x");
    assert_eq!(s.input, "");
    assert!(matches!(s.handle_key(key(KeyCode::Esc), 10), UiAction::Cancel));
    assert!(matches!(s.handle_key(key(KeyCode::Esc), 10), UiAction::Nothing));
    let quit = Key { code: KeyCode::Char('c'), control: true };
    assert!(matches!(s.handle_key(quit, 10), UiAction::Quit));
    assert!(matches!(&s.history[0], HistoryCell::User(t) if t == "hi"));
    assert_eq!(s.messages.len(), 1);
}

#[test]
fn modes_go_round() {
    let mut s = screen();
    let mut seen = vec![];
    for _ in 0..3 {
        match s.handle_key(key(KeyCode::BackTab), 10) {
            UiAction::SetMode(m) => seen.push(m),
            _ => panic!("expected a mode"),
        }
    }
    assert_eq!(
        seen,
        [PermissionMode::Plan, PermissionMode::AcceptEdits, PermissionMode::Default]
    );
    let mut b = UiState::new(PermissionMode::Bypass, vec![]);
    b.handle_key(key(KeyCode::BackTab), 10);
    assert_eq!(b.mode, PermissionMode::Bypass);
}

#[test]
fn scrolling() {
    let mut s = screen();
    s.handle_key(key(KeyCode::PageUp), 10);
    s.handle_key(key(KeyCode::PageUp), 10);
    assert_eq!(s.scroll_offset, 20);
    s.handle_key(key(KeyCode::PageDown), 15);
    assert_eq!(s.scroll_offset, 5);
    s.handle_key(key(KeyCode::PageDown), 15);
    assert_eq!(s.scroll_offset, 0);
    s.handle_key(key(KeyCode::PageUp), 10);
    s.handle_turn_event(TurnEvent::TextDelta("x".into()));
    assert_eq!(s.scroll_offset, 0);
    assert_eq!(page_height(Some(24)), 20);
    assert_eq!(page_height(Some(3)), 1);
    assert_eq!(page_height(None), 20);
    assert_eq!(scroll_position(100, 20, 0), 80);
    assert_eq!(scroll_position(100, 20, 90), 0);
    assert_eq!(scroll_position(10, 20, 3), 0);
}

fn ask(s: &mut UiState) {
    s.handle_turn_event(TurnEvent::ApprovalRequest {
        call_id: CallId::new("c1"),
        kind: ApprovalKind::Exec,
        detail: ApprovalDetail {
            rule_matched: None,
            command: Some(vec!["ls".into(), "-l".into()]),
            files: None,
            tool: Some("Bash".into()),
            args_summary: None,
            pattern_suggestion: Some("Bash(ls *)".into()),
        },
    });
}

#[test]
fn waiting_calls_take_all_keys() {
    for (c, d) in [
        ('y', ReviewDecision::Approve),
        ('s', ReviewDecision::ApproveForSession),
        ('n', ReviewDecision::Deny),
        ('a', ReviewDecision::Abort),
    ] {
        let mut s = screen();
        ask(&mut s);
        let quit = Key { code: KeyCode::Char('c'), control: true };
        assert!(matches!(s.handle_key(quit, 10), UiAction::Nothing));
        assert!(matches!(
            s.handle_key(key(KeyCode::Char(c)), 10),
            UiAction::Respond { call_id, decision } if call_id.as_str() == "c1" && decision == d
        ));
        assert!(s.pending_approval.is_none());
        assert_eq!(s.input, "");
    }
}

#[test]
fn events_change_the_screen() {
    let mut s = screen();
    s.submit("q");
    s.handle_turn_event(TurnEvent::TextDelta("an".into()));
    s.handle_turn_event(TurnEvent::TextDelta("swer".into()));
    assert_eq!(s.live_text, "answer");
    s.handle_turn_event(TurnEvent::ToolCallBegin { call_id: CallId::new("c"), tool: "Bash".into() });
    assert_eq!(s.tool_status, Some(("▶ Bash".to_string(), true)));
    s.handle_turn_event(TurnEvent::ToolExecEnd {
        call_id: CallId::new("c"),
        ok: false,
        summary: "bad".into(),
    });
    assert!(matches!(&s.history[1], HistoryCell::Assistant(t) if t == "answer"));
    assert_eq!(shown(&s), "✗ bad");
    s.handle_turn_event(TurnEvent::Usage(TokenUsage {
        input: 1,
        cached_input: 2,
        output: 3,
        reasoning: 4,
    }));
    s.handle_turn_event(TurnEvent::TurnComplete { stop_reason: StopReason::EndTurn, steps: 1 });
    assert!(!s.running);
    assert_eq!(s.tool_status, None);
    send(&mut s, "/cost");
    assert_eq!(shown(&s), "usage: input=1 (cached=2), output=3 (reasoning=4), total=4");
    s.handle_turn_event(TurnEvent::Error("boom".into()));
    assert_eq!(s.error.as_deref(), Some("boom"));
}

#[test]
fn commands_of_the_screen() {
    let mut s = screen();
    assert!(matches!(send(&mut s, "/mode plan"), UiAction::SetMode(PermissionMode::Plan)));
    assert_eq!(s.mode, PermissionMode::Plan);
    s.show_model("m");
    assert_eq!(shown(&s), "model: m");
    assert!(matches!(send(&mut s, "/clear"), UiAction::Nothing));
    assert!(s.history.is_empty());
    assert!(matches!(send(&mut s, "/diff"), UiAction::Run(Builtin::Diff)));
    assert!(matches!(send(&mut s, "/compact"), UiAction::Run(_)));
    assert!(s.running);
    s.compacted(Ok(vec![]));
    assert!(!s.running);
    assert_eq!(shown(&s), "已压缩上下文");
    s.compacted(Err("x".into()));
    assert_eq!(s.error.as_deref(), Some("压缩失败: x"));
    assert!(matches!(
        send(&mut s, "/deploy now please"),
        UiAction::Expand { name, args, .. } if name == "deploy" && args == "now please"
    ));
    s.unknown_command("/deploy");
    assert_eq!(s.error.as_deref(), Some("未知命令: /deploy"));
    assert_eq!(parse_builtin("/nope"), None);
    assert_eq!(
        parse_builtin("/plan"),
        Some(Builtin::Mode(PermissionMode::Plan))
    );
    let commands = vec![parse_command("deploy", "---\ndescription: d\n---\nbody")];
    s.show_help(&commands);
    assert!(shown(&s).ends_with("自定义:\n  /deploy: d"));
    assert_eq!(find_template(&commands, "deploy").as_deref(), Some("body\n"));
    assert_eq!(find_template(&commands, "x"), None);
}

#[test]
fn what_commands_show() {
    let mut s = screen();
    s.show_hooks(&HooksConfig::none());
    assert_eq!(
        shown(&s),
        "pre_tool_use:0 post_tool_use:0 session_start:0 session_end:0 user_prompt_submit:0 notification:0 subagent_stop:0 stop:0"
    );
    s.show_mcp(&ToolRegistry::builtin());
    assert_eq!(shown(&s), "无 MCP 工具");
    s.show_agents(&vec![]);
    assert_eq!(shown(&s), "无子 agent");
    s.show_checkpoints(Ok(vec![("abc".into(), "now".into())]));
    assert_eq!(
        shown(&s),
        "checkpoint 栈:\n   1. abc  now  tao checkpoint\n\n回退到最近 checkpoint 用 /rollback"
    );
    s.show_checkpoints(Ok(vec![]));
    assert_eq!(shown(&s), "无 checkpoint(Edit/Write 前自动快照)");
    s.rolled_back(Ok(Some("0123456789".into())));
    assert_eq!(shown(&s), "已回滚到最近 checkpoint 01234567");
    s.show_diff(Ok("".into()));
    assert_eq!(shown(&s), "无 checkpoint diff(Edit/Write 前自动快照)");
    s.template_written(true, Ok(()));
    assert_eq!(shown(&s), "overwrote AGENTS.md(模板,请编辑)");
    s.no_repository("e");
    assert_eq!(s.error.as_deref(), Some("shadow 仓库初始化失败: e"));
    s.show_sessions(&None);
    assert_eq!(shown(&s), "HOME 未设置,无法定位会话");
}

#[test]
fn sessions_are_listed() {
    let file = |stem: &str, modified| SessionFile {
        stem: stem.into(),
        modified,
        size: 7,
        text: None,
    };
    assert_eq!(
        list_sessions(&vec![file("old-session", 1), file("new", 2)]),
        "(无标题)  [new]  7B\n(无标题)  [old-sess]  7B\n"
    );
    assert_eq!(list_sessions(&vec![]), "(无会话)");
}

// ---- the picture ----

#[test]
fn pictures_of_the_screen() {
    let mut s = screen();
    let picture = |s: &UiState| {
        draw(&RenderState {
            input: &s.input,
            history: &s.history,
            live_text: &s.live_text,
            tool_status: &s.tool_status,
            running: s.running,
            error: &s.error,
            model: "m",
            mode: s.mode,
            pending_approval: &s.pending_approval,
        })
    };
    let p = picture(&s);
    assert!(joined(&p.history).starts_with("tao 已就绪"));
    assert_eq!(joined(std::slice::from_ref(&p.status)), " m  │  Default  │ ○ idle │ ");
    assert_eq!(p.cursor, Some(0));
    assert!(p.error.is_none() && p.popup.is_none());
    s.submit("hi");
    ask(&mut s);
    s.error = Some("e".into());
    let p = picture(&s);
    assert_eq!(joined(&p.history), "你 hi");
    assert_eq!(p.cursor, None);
    assert_eq!(joined(&[p.error.unwrap()]), " [error] e");
    let w = p.popup.unwrap();
    assert_eq!(w.title.text, " 审批请求 Exec ");
    assert_eq!(
        joined(&w.lines),
        "工具: Bash命令: ls -l建议规则: Bash(ls *)y=批准  s=本次+会话  n=拒绝  a=中止"
    );
}
