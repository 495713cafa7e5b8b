//! Logs: what is written, what is read back, and what is made short.

use tao::codec::Wire;
use tao::compact::{
    approx_tokens, compact, compaction_event, is_too_long, messages_to_text, plan_compaction,
    summary_of_stream, Summary, DEFAULT_CONTEXT_WINDOW, DEFAULT_KEEP_LAST,
};
use tao::content::{Content, StopReason, TokenUsage};
use tao::ids::{CallId, SessionId, TurnId};
use tao::json::{parse, print};
use tao::log::{LogEvent, LogLine};
use tao::model::{ModelContent, ModelMessage, ModelStreamEvent};
use tao::permission::PermissionMode;
use tao::recorder::{
    find_latest_segment, numbers_to_drop, plan_truncation, read_log, read_max_seq, segment_filename,
    session_dir, session_file_path, sessions_dir, slugify, Journal, NullRecorder, ROTATE_MAX_BYTES,
};
use tao::replay::replay;

fn mode(m: PermissionMode) -> LogEvent {
    LogEvent::ModeChange { mode: m }
}

fn line(seq: u64, event: LogEvent) -> String {
    print(&LogLine { seq, ts: 0, event }.to_json()) + "\n"
}

fn meta(id: &str, parent: Option<&str>) -> LogEvent {
    LogEvent::SessionMeta {
        id: SessionId::new(id),
        parent: parent.map(SessionId::new),
        cwd: "/proj".into(),
        git_head: None,
        config_fingerprint: String::new(),
        created_at_ms: 0,
    }
}

#[test]
fn slugify_strips_separators() {
    assert_eq!(slugify("/tmp/foo bar"), "tmp-foo-bar");
    assert_eq!(slugify("/Users/x/github/tao"), "Users-x-github-tao");
}

#[test]
fn paths_of_logs() {
    let id = SessionId::new("s1");
    assert_eq!(
        session_dir("/a/b", Some("/home/x")).as_deref(),
        Some("/home/x/.tao/projects/a-b/sessions")
    );
    assert_eq!(session_dir("/a/b", None), None);
    assert_eq!(
        session_file_path("/a/b", &id, Some("/home/x")).as_deref(),
        Some("/home/x/.tao/projects/a-b/sessions/s1.jsonl")
    );
    assert_eq!(session_file_path("/a/b", &id, None), None);
    assert_eq!(sessions_dir("/a/b", "/base"), "/base/projects/a-b/sessions");
    assert_eq!(segment_filename(&id, 0), "s1.jsonl");
    assert_eq!(segment_filename(&id, 3), "s1.3.jsonl");
    assert_eq!(find_latest_segment(&vec![true, true, false, true]), 1);
    assert_eq!(find_latest_segment(&vec![false, true]), 0);
    assert_eq!(find_latest_segment(&vec![true, true, true]), 2);
}

#[test]
fn create_writes_session_meta_and_record_appends() {
    let (mut j, first) = Journal::create(SessionId::new("s1"), None, "/proj", "", 7);
    let second = j.append(mode(PermissionMode::Plan), 8);
    let text = format!("{}{}", first.text, second.text);
    let lines = read_log(&text);
    assert_eq!(lines.len(), 2);
    assert!(matches!(lines[0].event, LogEvent::SessionMeta { .. }));
    assert_eq!(lines[0].seq, 0);
    assert!(matches!(lines[1].event, LogEvent::ModeChange { .. }));
    assert_eq!(lines[1].seq, 1);
    assert!(j.file_name().contains("s1"));
    assert_eq!(second.offset, first.text.len() as u64);
    assert_eq!(j.current_seq(), 2);
}

#[test]
fn open_existing_continues_seq() {
    let (mut j, first) = Journal::create(SessionId::new("s1"), None, "/proj", "", 0);
    let second = j.append(mode(PermissionMode::Plan), 0);
    let text = format!("{}{}", first.text, second.text);
    let mut r2 = Journal::open(
        SessionId::new("s1"),
        "/proj",
        "",
        0,
        text.len() as u64,
        read_max_seq(&text),
    );
    let third = r2.append(mode(PermissionMode::Default), 0);
    assert_eq!(third.seq, 2);
    assert_eq!(third.offset, text.len() as u64);
}

#[test]
fn read_max_seq_from_file() {
    let text = "{\"seq\":1,\"ts\":0,\"type\":\"mode_change\",\"mode\":\"plan\"}\n\
         {\"seq\":5,\"ts\":0,\"type\":\"mode_change\",\"mode\":\"default\"}\n";
    assert_eq!(read_max_seq(text), Some(5));
    assert_eq!(read_max_seq("garbage\n"), None);
}

#[test]
fn truncate_cross_segment() {
    let seg0 = line(0, meta("s1", None))
        + &line(1, mode(PermissionMode::Plan))
        + &line(2, mode(PermissionMode::Default));
    let seg1 = line(3, meta("s1", Some("s1")))
        + &line(4, mode(PermissionMode::Plan))
        + &line(5, mode(PermissionMode::Default));
    let files = vec![Some(seg0), Some(seg1)];
    let cut = plan_truncation(&files, 1).unwrap();
    let lines = read_log(&cut.text);
    assert_eq!(lines.len(), 2);
    assert_eq!(lines[0].seq, 0);
    assert_eq!(lines[1].seq, 1);
    assert_eq!(cut.segment, 0);
    assert_eq!(cut.next_seq, 2);
    let mut j = Journal::open(SessionId::new("s1"), "/proj", "", 1, 9, Some(5));
    j.resume_at(&cut);
    assert_eq!((j.segment, j.current_seq(), j.offset), (0, 2, cut.text.len() as u64));
    let later = plan_truncation(&files, 4).unwrap();
    assert_eq!((later.segment, later.kept, later.next_seq), (1, 2, 5));
    assert!(plan_truncation(&vec![None], 1).is_none());
}

#[test]
fn truncate_to_current_segment_latest_seq() {
    let (mut j, first) = Journal::create(SessionId::new("s1"), None, "/proj", "", 0);
    let second = j.append(mode(PermissionMode::Plan), 0);
    let before = j.current_seq();
    let text = format!("{}{}", first.text, second.text);
    let cut = plan_truncation(&vec![Some(text.clone())], 1).unwrap();
    assert_eq!(cut.text, text);
    j.resume_at(&cut);
    assert_eq!(j.current_seq(), before);
    assert_eq!(j.segment, 0);
}

#[test]
fn full_files_are_followed_by_others() {
    let mut j = Journal::open(SessionId::new("s1"), "/proj", "f", 0, ROTATE_MAX_BYTES, Some(8));
    assert!(!j.is_full());
    j.append(mode(PermissionMode::Plan), 0);
    assert!(j.is_full());
    j.next_segment();
    let first = j.begin_segment(5);
    assert_eq!((first.seq, first.offset), (10, 0));
    assert_eq!(j.file_name(), "s1.1.jsonl");
    assert!(!j.is_full());
    let l = &read_log(&first.text)[0];
    assert!(matches!(&l.event, LogEvent::SessionMeta { parent: Some(p), .. } if p.as_str() == "s1"));
    assert_eq!(numbers_to_drop(&vec![1, 5, 3, 9], 3), vec![5, 9]);
    assert_eq!(NullRecorder.current_seq(), 0);
}

// ---- replay ----

#[test]
fn replay_reconstructs_state() {
    let (mut j, first) = Journal::create(SessionId::new("s1"), None, "/proj", "", 0);
    let mut text = first.text;
    text += &j
        .append(
            LogEvent::UserInput { content: vec![Content::text("hi")], turn_id: TurnId::new("t1") },
            0,
        )
        .text;
    text += &j.append(mode(PermissionMode::Plan), 0).text;
    for _ in 0..2 {
        text += &j
            .append(
                LogEvent::PermissionGrant { tool: "Bash".into(), pattern: "cargo *".into() },
                0,
            )
            .text;
    }
    let state = replay(&text).unwrap();
    assert_eq!(state.id, SessionId::new("s1"));
    assert_eq!(state.mode, PermissionMode::Plan);
    assert_eq!(state.session_grants, vec![("Bash".to_string(), "cargo *".to_string())]);
    assert_eq!(state.messages.len(), 1);
}

#[test]
fn replay_tool_result_and_assistant() {
    let text = line(0, meta("s1", None))
        + &line(
            1,
            LogEvent::AssistantMessage {
                content: vec![Content::ToolUse {
                    call_id: CallId::new("c1"),
                    name: "Bash".into(),
                    input: parse("{\"command\":[\"echo\",\"x\"]}").unwrap(),
                }],
                usage: TokenUsage::default(),
                turn_id: TurnId::new("t1"),
            },
        )
        + "\n"
        + &line(
            2,
            LogEvent::ToolResult {
                call_id: CallId::new("c1"),
                output: parse("{\"content\":\"done\",\"is_error\":false}").unwrap(),
                duration_ms: 10,
            },
        );
    let state = replay(&text).unwrap();
    assert_eq!(state.messages.len(), 2);
    assert!(matches!(state.messages[0], ModelMessage::Assistant { .. }));
    if let ModelMessage::ToolResult { is_error, content, .. } = &state.messages[1] {
        assert!(!*is_error);
        assert!(content.iter().any(|c| matches!(c, ModelContent::Text(t) if t == "done")));
    } else {
        panic!("expected a tool result");
    }
}

#[test]
fn lines_that_are_none_of_a_log_are_told() {
    let text = line(0, meta("s1", None)) + "nonsense\n";
    assert_eq!(replay(&text).unwrap_err(), "解析日志行失败: nonsense");
}

#[test]
fn cut_logs_bring_back_earlier_states() {
    let early = line(0, meta("s1", None)) + &line(1, mode(PermissionMode::Plan));
    let all = early.clone() + &line(2, mode(PermissionMode::Bypass));
    let cut = plan_truncation(&vec![Some(all)], 1).unwrap();
    assert_eq!(replay(&cut.text).unwrap().mode, PermissionMode::Plan);
    assert_eq!(cut.text, early);
}

// ---- compaction ----

fn user(t: &str) -> ModelMessage {
    ModelMessage::User { content: vec![ModelContent::Text(t.into())] }
}

fn assistant(t: &str) -> ModelMessage {
    ModelMessage::Assistant { content: vec![ModelContent::Text(t.into())] }
}

#[test]
fn approx_tokens_counts_chars() {
    let msgs = vec![user("hello world")];
    assert_eq!(approx_tokens(&msgs), 2);
}

#[test]
fn tokens_are_those_of_the_encoding() {
    assert_eq!(approx_tokens(&vec![user("tiktoken is great!")]), 6);
    assert_eq!(approx_tokens(&vec![user("hello world"), assistant("hello world")]), 4);
    assert_eq!(approx_tokens(&vec![]), 0);
    assert!(is_too_long(&vec![user("hello world")], 1));
    assert!(!is_too_long(&vec![user("hello world")], 2));
    assert_eq!(DEFAULT_CONTEXT_WINDOW, 200_000);
    assert_eq!(DEFAULT_KEEP_LAST, 4);
}

#[test]
fn compact_summarizes_and_keeps_last() {
    let messages = vec![
        user("msg1"),
        assistant("a1"),
        user("msg2"),
        assistant("a2"),
        user("msg3"),
        assistant("a3"),
    ];
    let request = plan_compaction("mock", &messages, 2).unwrap();
    assert_eq!(request.model, "mock");
    assert_eq!(request.max_output_tokens, 1024);
    assert_eq!(
        request.messages,
        vec![user("用户: msg1 \n助手: a1 \n用户: msg2 \n助手: a2 \n")]
    );
    let summary = summary_of_stream(&vec![
        ModelStreamEvent::TextDelta("摘要内容".into()),
        ModelStreamEvent::MessageEnd {
            stop_reason: StopReason::EndTurn,
            usage: TokenUsage::default(),
        },
        ModelStreamEvent::TextDelta("later".into()),
    ]);
    let new = compact(&messages, 2, &summary);
    assert_eq!(new, vec![assistant("摘要内容"), user("msg3"), assistant("a3")]);
    let event = compaction_event(&summary, 9);
    assert!(line(9, event).contains("compaction"));
}

#[test]
fn compact_noop_when_too_few() {
    let messages = vec![user("only")];
    assert!(plan_compaction("mock", &messages, 4).is_none());
    assert_eq!(compact(&messages, 4, "x").len(), 1);
}

#[test]
fn conversations_as_text() {
    let messages = vec![
        ModelMessage::Assistant {
            content: vec![
                ModelContent::Thinking { text: "hm".into(), signature: None },
                ModelContent::ToolUse {
                    call_id: CallId::new("c"),
                    name: "Bash".into(),
                    input: parse("{\"a\":1}").unwrap(),
                },
                ModelContent::Image { mime: "m".into(), data_base64: "d".into() },
            ],
        },
        ModelMessage::ToolResult {
            call_id: CallId::new("c"),
            content: vec![ModelContent::Text("out".into())],
            is_error: false,
        },
    ];
    assert_eq!(
        messages_to_text(&messages),
        "助手: [思考] hm [调用 Bash {\"a\":1}] [图片] \n工具结果: out \n"
    );
    let mut s = Summary::new();
    s.take(&ModelStreamEvent::ThinkingDelta("x".into()));
    assert_eq!((s.text.as_str(), s.done), ("", false));
}

#[test]
fn a_log_holds_what_was_recorded() {
    let (mut j, first) = Journal::create(SessionId::new("s"), None, "/proj", "fp", 7);
    let mut text = first.text;
    for m in [PermissionMode::Plan, PermissionMode::Default, PermissionMode::Bypass] {
        let before = text.clone();
        let e = j.append(mode(m), 9);
        assert_eq!(e.offset, before.len() as u64);
        text += &e.text;
        assert!(text.starts_with(&before));
    }
    let lines = read_log(&text);
    assert_eq!(text.lines().count(), 4);
    assert_eq!(lines.iter().map(|l| l.seq).collect::<Vec<u64>>(), [0, 1, 2, 3]);
    assert!(matches!(&lines[0].event, LogEvent::SessionMeta { id, .. } if id.as_str() == "s"));
    assert_eq!(lines[2].event, mode(PermissionMode::Default));
    assert_eq!(j.current_seq(), 4);
}

#[test]
fn cutting_spans_files() {
    let one = line(0, meta("s", None)) + &line(1, mode(PermissionMode::Plan));
    let two = line(2, meta("s", Some("s"))) + &line(3, mode(PermissionMode::Default));
    let three = line(4, meta("s", Some("s")));
    let files = vec![Some(one.clone()), Some(two), Some(three)];
    let cut = plan_truncation(&files, 2).unwrap();
    assert_eq!((cut.segment, cut.kept, cut.next_seq), (1, 1, 3));
    let now = vec![Some(one), Some(cut.text.clone())];
    let seqs: Vec<u64> =
        now.iter().flatten().flat_map(|t| read_log(t)).map(|l| l.seq).collect();
    assert_eq!(seqs, [0, 1, 2]);
    let again = plan_truncation(&now, 2).unwrap();
    assert_eq!((again.segment, again.text, again.next_seq), (1, cut.text, 3));
}

#[test]
fn a_cut_keeps_lines_as_they_are_written() {
    let call = |n: u64, args: &str| {
        line(
            n,
            LogEvent::ToolCall {
                call_id: CallId::new("c"),
                tool: "t".into(),
                args: parse(args).unwrap(),
            },
        )
    };
    let one = call(0, r#"{"x":0.1,"y":1.7976931348623157e300}"#);
    let two = call(1, "[2.5e-7]");
    let all = format!("{one}{two}{}", call(2, "3"));
    let cut = plan_truncation(&vec![Some(all)], 1).unwrap();
    assert_eq!(cut.text, format!("{one}{two}"));
    assert_eq!((cut.kept, cut.next_seq), (2, 2));
    let spaced = " {\"seq\": 0, \"ts\": 0, \"type\": \"mode_change\", \"mode\": \"plan\"}\r\nx\n";
    let cut = plan_truncation(&vec![Some(format!("{spaced}{two}"))], 0).unwrap();
    assert_eq!(cut.text, spaced.trim_end_matches("x\n"));
    let open = two.trim_end().to_string();
    assert_eq!(plan_truncation(&vec![Some(open)], 1).unwrap().text, two);
}

#[test]
fn replay_keeps_what_was_compacted() {
    let said = |t: &str| LogEvent::UserInput {
        content: vec![Content::Text { text: t.into() }],
        turn_id: TurnId::new("t"),
    };
    let log = line(0, meta("s", None)) + &line(1, said("a")) + &line(2, said("b"));
    let before = replay(&log).unwrap().messages;
    let memory = compact(&before, 1, "short");
    assert_eq!(memory.len(), 2);
    let log = log + &line(3, compaction_event("short", 2)) + &line(4, said("c"));
    let after = replay(&log).unwrap().messages;
    assert_eq!(after.len(), 3);
    assert_eq!(after[..2], before[..]);
    assert_eq!(after[1], memory[1]);
}
