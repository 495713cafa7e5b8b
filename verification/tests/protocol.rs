//! The forms of messages on the wire and in logs.

use tao::codec::Wire;
use tao::content::{Content, ReasoningEffort, StopReason, TokenUsage};
use tao::event::{ApprovalDetail, ApprovalKind, Event, EventMsg};
use tao::ids::{CallId, SessionId, TurnId};
use tao::json::{parse, print, Json};
use tao::log::{LogEvent, LogLine};
use tao::op::{Op, ReviewDecision, Submission, UserInput};
use tao::permission::{PermissionMode, PermissionRule, RuleAction};
use tao::wire::{
    decode_event, decode_submission, encode_event, encode_submission, hello, ProtocolError,
    PROTOCOL_VERSION,
};

fn written<T: Wire>(v: &T) -> String {
    print(&v.to_json())
}

fn read<T: Wire>(s: &str) -> Option<T> {
    T::from_json(&parse(s).ok()?)
}

fn roundtrip<T: Wire + PartialEq + std::fmt::Debug>(json: &str, expected: &T) {
    let parsed: T = read(json).expect("literal must parse");
    assert_eq!(&parsed, expected);
    let reparsed: T = read(&written(expected)).unwrap();
    assert_eq!(&reparsed, expected);
}

#[test]
fn content_tagged_lowercase() {
    let c = Content::Thinking { text: "hmm".into(), signature: None };
    let s = written(&c);
    assert!(s.contains("\"type\":\"thinking\""), "got: {s}");
    assert!(!s.contains("signature"), "got: {s}");
}

#[test]
fn reasoning_effort_kebab() {
    assert_eq!(written(&ReasoningEffort::Minimal), "\"minimal\"");
}

#[test]
fn usage_total() {
    let u = TokenUsage { input: 10, cached_input: 4, output: 5, reasoning: 2 };
    assert_eq!(u.total(), 15);
}

#[test]
fn event_new_defaults() {
    let e = Event::new("req-1", EventMsg::AgentMessageDelta { text: "hi".into() });
    assert_eq!(e.seq, 0);
    assert_eq!(e.turn, None);
}

#[test]
fn event_msg_tagged() {
    let m = EventMsg::TurnStarted { turn_id: TurnId::new("t-9") };
    let s = written(&m);
    assert!(s.contains("\"type\":\"turn_started\""), "got: {s}");
}

#[test]
fn optional_fields_skipped() {
    let d = ApprovalDetail {
        rule_matched: None,
        command: Some(vec!["cargo".into(), "test".into()]),
        files: None,
        tool: None,
        args_summary: None,
        pattern_suggestion: None,
    };
    let s = written(&d);
    assert!(s.contains("command"));
    assert!(!s.contains("rule_matched"), "got: {s}");
}

#[test]
fn id_serializes_transparently() {
    let id = SessionId::new("s-1");
    assert_eq!(written(&id), "\"s-1\"");
    let back: SessionId = read("\"s-1\"").unwrap();
    assert_eq!(back, id);
}

#[test]
fn log_line_flatten_shape() {
    let line = LogLine {
        seq: 3,
        ts: 1_720_000_000_000,
        event: LogEvent::ModeChange { mode: PermissionMode::Plan },
    };
    let s = written(&line);
    assert!(s.contains("\"seq\":3"), "got: {s}");
    assert!(s.contains("\"type\":\"mode_change\""), "got: {s}");
    assert!(!s.contains("\"event\""), "got: {s}");
    let back: LogLine = read(&s).unwrap();
    assert_eq!(back, line);
}

#[test]
fn op_tagged_snake_case() {
    let op = Op::SetPermissionMode { mode: PermissionMode::Plan };
    let s = written(&op);
    assert!(s.contains("\"type\":\"set_permission_mode\""), "got: {s}");
}

#[test]
fn interrupt_default_abandon_true() {
    let op: Op = read("{\"type\":\"interrupt\"}").unwrap();
    assert_eq!(op, Op::Interrupt { abandon_queued: true });
}

#[test]
fn review_decision_roundtrip() {
    for d in [
        ReviewDecision::Approve,
        ReviewDecision::ApproveForSession,
        ReviewDecision::Deny,
        ReviewDecision::Abort,
    ] {
        let s = written(&d);
        let back: ReviewDecision = read(&s).unwrap();
        assert_eq!(back, d);
    }
}

#[test]
fn action_ordering_deny_highest() {
    assert!(RuleAction::Deny > RuleAction::Ask);
    assert!(RuleAction::Ask > RuleAction::Allow);
}

#[test]
fn mode_kebab_serde() {
    assert_eq!(written(&PermissionMode::AcceptEdits), "\"accept-edits\"");
}

#[test]
fn submission_wire_roundtrip() {
    let sub = Submission {
        id: "r-1".into(),
        op: Op::UserTurn {
            turn_id: "t-1".into(),
            input: vec![UserInput::Text { text: "你好".into() }],
        },
    };
    let line = encode_submission(&sub).unwrap();
    assert!(!line.contains('\n'));
    let back = decode_submission(&line).unwrap();
    assert_eq!(back, sub);
}

#[test]
fn event_wire_roundtrip_with_trailing_newline() {
    let ev = Event::new("r-1", EventMsg::StreamError { message: "boom".into() });
    let line = encode_event(&ev).unwrap() + "\n";
    let back = decode_event(&line).unwrap();
    assert_eq!(back, ev);
}

#[test]
fn hello_uses_current_version() {
    let h = hello();
    match h.op {
        Op::Hello { protocol_version } => assert_eq!(protocol_version, PROTOCOL_VERSION),
        other => panic!("expected Hello, got {other:?}"),
    }
}

#[test]
fn decode_rejects_garbage() {
    assert!(decode_submission("{not json").is_err());
    assert!(decode_event("{\"id\":\"x\"}").is_err());
}

#[test]
fn decode_errors_are_codec_errors() {
    assert!(matches!(decode_submission("{not json"), Err(ProtocolError::Codec(_))));
}

#[test]
fn submission_user_turn_wire() {
    roundtrip::<Submission>(
        r#"{"id":"req-1","op":{"type":"user_turn","turn_id":"t-1","input":[{"type":"text","text":"hi"}]}}"#,
        &Submission {
            id: "req-1".into(),
            op: Op::UserTurn {
                turn_id: "t-1".into(),
                input: vec![UserInput::Text { text: "hi".into() }],
            },
        },
    );
}

#[test]
fn submission_approval_response_wire() {
    roundtrip::<Submission>(
        r#"{"id":"req-2","op":{"type":"approval_response","call_id":"c-1","decision":"approve_for_session"}}"#,
        &Submission {
            id: "req-2".into(),
            op: Op::ApprovalResponse {
                call_id: "c-1".into(),
                decision: ReviewDecision::ApproveForSession,
            },
        },
    );
}

#[test]
fn event_turn_complete_wire() {
    roundtrip::<Event>(
        r#"{"id":"req-1","seq":42,"turn":"t-1","msg":{"type":"turn_complete","turn_id":"t-1","usage":{"input":100,"cached_input":20,"output":30,"reasoning":5},"stop_reason":"end_turn"}}"#,
        &Event {
            id: "req-1".into(),
            seq: 42,
            turn: Some(TurnId::new("t-1")),
            msg: EventMsg::TurnComplete {
                turn_id: TurnId::new("t-1"),
                usage: TokenUsage { input: 100, cached_input: 20, output: 30, reasoning: 5 },
                stop_reason: StopReason::EndTurn,
            },
        },
    );
}

#[test]
fn event_approval_request_wire() {
    roundtrip::<Event>(
        r#"{"id":"req-3","seq":7,"msg":{"type":"approval_request","call_id":"c-2","kind":"exec","detail":{"command":["cargo","test"],"pattern_suggestion":"Bash(cargo test *)"}}}"#,
        &Event {
            id: "req-3".into(),
            seq: 7,
            turn: None,
            msg: EventMsg::ApprovalRequest {
                call_id: CallId::new("c-2"),
                kind: ApprovalKind::Exec,
                detail: ApprovalDetail {
                    rule_matched: None,
                    command: Some(vec!["cargo".into(), "test".into()]),
                    files: None,
                    tool: None,
                    args_summary: None,
                    pattern_suggestion: Some("Bash(cargo test *)".into()),
                },
            },
        },
    );
}

#[test]
fn logline_session_meta_wire() {
    roundtrip::<LogLine>(
        r#"{"seq":0,"ts":1720000000000,"type":"session_meta","id":"s-1","cwd":"/repo","config_fingerprint":"abc","created_at_ms":1720000000000}"#,
        &LogLine {
            seq: 0,
            ts: 1_720_000_000_000,
            event: LogEvent::SessionMeta {
                id: SessionId::new("s-1"),
                parent: None,
                cwd: "/repo".into(),
                git_head: None,
                config_fingerprint: "abc".into(),
                created_at_ms: 1_720_000_000_000,
            },
        },
    );
}

#[test]
fn logline_assistant_message_wire() {
    roundtrip::<LogLine>(
        r#"{"seq":5,"ts":1720000001000,"type":"assistant_message","content":[{"type":"text","text":"done"}],"usage":{"input":1,"cached_input":0,"output":2,"reasoning":0},"turn_id":"t-1"}"#,
        &LogLine {
            seq: 5,
            ts: 1_720_000_001_000,
            event: LogEvent::AssistantMessage {
                content: vec![Content::text("done")],
                usage: TokenUsage { input: 1, cached_input: 0, output: 2, reasoning: 0 },
                turn_id: TurnId::new("t-1"),
            },
        },
    );
}

#[test]
fn permission_rule_wire() {
    roundtrip::<PermissionRule>(
        r#"{"tool":"Bash","pattern":"cargo *","action":"allow"}"#,
        &PermissionRule {
            tool: "Bash".into(),
            pattern: "cargo *".into(),
            action: RuleAction::Allow,
        },
    );
}

#[test]
fn set_permission_mode_op_wire() {
    roundtrip::<Op>(
        r#"{"type":"set_permission_mode","mode":"plan"}"#,
        &Op::SetPermissionMode { mode: PermissionMode::Plan },
    );
}

#[test]
fn json_is_read_and_printed() {
    let j = parse(" {\"b\": [1, -2, true, null], \"a\": \"x\\ny\"} ").unwrap();
    assert_eq!(j.get("a").and_then(|v| v.as_str()), Some("x\ny"));
    assert_eq!(print(&j), "{\"a\":\"x\\ny\",\"b\":[1,-2,true,null]}");
    let b = j.get("b").and_then(|v| v.as_list()).unwrap();
    assert_eq!(b[0].as_u64(), Some(1));
    assert_eq!(b[1].as_u64(), None);
    assert_eq!(b[2].as_bool(), Some(true));
}

#[test]
fn fractions_are_kept() {
    let j = parse("{\"t\":0.25}").unwrap();
    assert!(matches!(j.get("t"), Some(Json::Float(_))));
    assert_eq!(print(&j), "{\"t\":0.25}");
}

#[test]
fn refused_json_says_why() {
    let e = parse("{not json").unwrap_err();
    assert!(e.contains("line 1"), "got: {e}");
}

#[test]
fn pretty_json_is_indented() {
    let j = parse("{\"a\":1}").unwrap();
    assert_eq!(tao::json::pretty(&j), "{\n  \"a\": 1\n}");
    assert_eq!(tao::json::debug(&j), "Object {\"a\": Number(1)}");
}
