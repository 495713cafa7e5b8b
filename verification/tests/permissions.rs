//! What calls are allowed.

use tao::event::ApprovalKind;
use tao::ids::CallId;
use tao::permission::{PermissionMode, PermissionRule, RuleAction, Verdict, VerdictSource};
use tao::permissions::{
    analyze_bash, approval_kind, approval_request, glob_match, is_dangerous_wrapper, mode_default,
    pattern_suggestion, split_segments, tool_class, tool_matches, PermissionEngine, PermissionKey,
    ToolClass,
};

fn rule(tool: &str, pattern: &str, action: RuleAction) -> PermissionRule {
    PermissionRule {
        tool: tool.into(),
        pattern: pattern.into(),
        action,
    }
}

#[test]
fn searching_is_reading() {
    for t in ["Grep", "Glob"] {
        assert_eq!(mode_default(PermissionMode::Default, t), Verdict::Allow);
        assert_eq!(mode_default(PermissionMode::Plan, t), Verdict::Allow);
        assert_eq!(mode_default(PermissionMode::AcceptEdits, t), Verdict::Allow);
    }
}

#[test]
fn scripts_of_one_command_meet_rules() {
    let engine = PermissionEngine::new(
        PermissionMode::Default,
        vec![rule("Bash", "rm *", RuleAction::Deny), rule("Bash", "ls*", RuleAction::Allow)],
    );
    for (script, verdict) in [
        ("rm -rf x", Verdict::Deny),
        ("  rm   -rf x ; ", Verdict::Deny),
        ("ls -l", Verdict::Allow),
        ("pwd", Verdict::Ask),
    ] {
        let key = PermissionKey::Bash {
            command: vec!["bash".into(), "-lc".into(), script.into()],
        };
        assert_eq!(engine.decide("Bash", Some(&key)).verdict, verdict, "{script}");
    }
}

#[test]
fn mode_default_matrix() {

    assert_eq!(
        mode_default(PermissionMode::Default, "Read"),
        Verdict::Allow
    );
    assert_eq!(mode_default(PermissionMode::Default, "Bash"), Verdict::Ask);
    assert_eq!(mode_default(PermissionMode::Default, "Write"), Verdict::Ask);
    assert_eq!(
        mode_default(PermissionMode::Default, "WebFetch"),
        Verdict::Ask
    );

    assert_eq!(mode_default(PermissionMode::Plan, "Read"), Verdict::Allow);
    assert_eq!(mode_default(PermissionMode::Plan, "Bash"), Verdict::Deny);
    assert_eq!(mode_default(PermissionMode::Plan, "Write"), Verdict::Deny);

    assert_eq!(
        mode_default(PermissionMode::AcceptEdits, "Write"),
        Verdict::Allow
    );
    assert_eq!(
        mode_default(PermissionMode::AcceptEdits, "Bash"),
        Verdict::Ask
    );

    assert_eq!(mode_default(PermissionMode::Bypass, "Bash"), Verdict::Allow);
    assert_eq!(
        mode_default(PermissionMode::Bypass, "Write"),
        Verdict::Allow
    );

    assert_eq!(
        mode_default(PermissionMode::Default, "McpFoo"),
        Verdict::Ask
    );
    assert_eq!(mode_default(PermissionMode::Plan, "McpFoo"), Verdict::Deny);
}

#[test]
fn deny_beats_allow() {
    let engine = PermissionEngine::new(
        PermissionMode::Default,
        vec![
            rule("Bash", "cargo *", RuleAction::Allow),
            rule("Bash", "cargo *", RuleAction::Deny),
        ],
    );
    let key = PermissionKey::Bash {
        command: vec!["cargo".into(), "test".into()],
    };
    let d = engine.decide("Bash", Some(&key));
    assert_eq!(d.verdict, Verdict::Deny);
}

#[test]
fn ask_beats_allow() {
    let engine = PermissionEngine::new(
        PermissionMode::Default,
        vec![
            rule("Bash", "cargo *", RuleAction::Allow),
            rule("Bash", "rm *", RuleAction::Ask),
        ],
    );
    let key = PermissionKey::Bash {
        command: vec!["rm".into(), "-rf".into(), "x".into()],
    };
    assert_eq!(engine.decide("Bash", Some(&key)).verdict, Verdict::Ask);
}

#[test]
fn more_specific_pattern_wins() {

    let engine = PermissionEngine::new(
        PermissionMode::Default,
        vec![
            rule("Bash", "cargo *", RuleAction::Allow),
            rule("Bash", "cargo test *", RuleAction::Ask),
        ],
    );
    let key = PermissionKey::Bash {
        command: vec!["cargo".into(), "test".into(), "--release".into()],
    };

    assert_eq!(engine.decide("Bash", Some(&key)).verdict, Verdict::Ask);
}

#[test]
fn tool_pipe_alternatives() {
    let engine = PermissionEngine::new(
        PermissionMode::Default,
        vec![rule("Edit|Patch", "src/**", RuleAction::Allow)],
    );
    let key = PermissionKey::Path {
        path: String::from("src/main.rs"),
    };
    assert_eq!(engine.decide("Edit", Some(&key)).verdict, Verdict::Allow);
    assert_eq!(engine.decide("Patch", Some(&key)).verdict, Verdict::Allow);
}

#[test]
fn path_glob_deny() {
    let engine = PermissionEngine::new(
        PermissionMode::Default,
        vec![rule("Write", "src/generated/**", RuleAction::Deny)],
    );
    let key = PermissionKey::Path {
        path: String::from("src/generated/gen.rs"),
    };
    assert_eq!(engine.decide("Write", Some(&key)).verdict, Verdict::Deny);

    let other = PermissionKey::Path {
        path: String::from("src/main.rs"),
    };
    assert_eq!(engine.decide("Write", Some(&other)).verdict, Verdict::Ask);
}

#[test]
fn domain_match() {
    let engine = PermissionEngine::new(
        PermissionMode::Default,
        vec![rule("WebFetch", "docs.rs", RuleAction::Allow)],
    );
    let exact = PermissionKey::Domain {
        host: "docs.rs".into(),
    };
    assert_eq!(
        engine.decide("WebFetch", Some(&exact)).verdict,
        Verdict::Allow
    );
    let sub = PermissionKey::Domain {
        host: "sub.docs.rs".into(),
    };
    assert_eq!(
        engine.decide("WebFetch", Some(&sub)).verdict,
        Verdict::Allow
    );
}

#[test]
fn session_grant_overrides_mode() {
    let mut engine = PermissionEngine::new(PermissionMode::Default, vec![]);
    let key = PermissionKey::Bash {
        command: vec!["cargo".into(), "test".into()],
    };

    assert_eq!(engine.decide("Bash", Some(&key)).verdict, Verdict::Ask);
    engine.grant("Bash", "cargo test");

    assert_eq!(engine.decide("Bash", Some(&key)).verdict, Verdict::Allow);
}

#[test]
fn bash_plain_argv_matches_prefix() {
    let engine = PermissionEngine::new(
        PermissionMode::Default,
        vec![rule("Bash", "cargo *", RuleAction::Allow)],
    );
    let key = PermissionKey::Bash {
        command: vec!["cargo".into(), "test".into()],
    };
    assert_eq!(engine.decide("Bash", Some(&key)).verdict, Verdict::Allow);
}

#[test]
fn bash_lc_splits_segments() {

    let engine = PermissionEngine::new(
        PermissionMode::Default,
        vec![rule("Bash", "cargo *", RuleAction::Allow)],
    );
    let key = PermissionKey::Bash {
        command: vec!["bash".into(), "-lc".into(), "cargo test && rm -f x".into()],
    };
    assert_eq!(engine.decide("Bash", Some(&key)).verdict, Verdict::Ask);
}

#[test]
fn bash_lc_all_segments_allow_passes() {
    let engine = PermissionEngine::new(
        PermissionMode::Default,
        vec![
            rule("Bash", "cargo *", RuleAction::Allow),
            rule("Bash", "echo *", RuleAction::Allow),
        ],
    );
    let key = PermissionKey::Bash {
        command: vec![
            "bash".into(),
            "-lc".into(),
            "cargo test && echo done".into(),
        ],
    };
    assert_eq!(engine.decide("Bash", Some(&key)).verdict, Verdict::Allow);
}

#[test]
fn bash_lc_unanalyzable_upgrades_to_ask() {
    let engine = PermissionEngine::new(
        PermissionMode::Default,
        vec![rule("Bash", "cargo *", RuleAction::Allow)],
    );
    let key = PermissionKey::Bash {
        command: vec![
            "bash".into(),
            "-lc".into(),
            "cargo test && $(rm -f x)".into(),
        ],
    };
    assert_eq!(engine.decide("Bash", Some(&key)).verdict, Verdict::Ask);
}

#[test]
fn dangerous_wrapper_upgrades_to_ask() {
    let engine = PermissionEngine::new(
        PermissionMode::Default,
        vec![rule("Bash", "cargo *", RuleAction::Allow)],
    );

    let key = PermissionKey::Bash {
        command: vec!["sudo".into(), "cargo".into(), "test".into()],
    };
    assert_eq!(engine.decide("Bash", Some(&key)).verdict, Verdict::Ask);

    let git_key = PermissionKey::Bash {
        command: vec!["git".into(), "-c".into(), "x=y".into(), "status".into()],
    };
    assert_eq!(engine.decide("Bash", Some(&git_key)).verdict, Verdict::Ask);
}

#[test]
fn plan_mode_denies_write_even_if_rule_absent() {
    let engine = PermissionEngine::new(PermissionMode::Plan, vec![]);
    let key = PermissionKey::Path {
        path: String::from("src/main.rs"),
    };
    assert_eq!(engine.decide("Write", Some(&key)).verdict, Verdict::Deny);
}

#[test]
fn suggestion_format() {
    let bash = PermissionKey::Bash {
        command: vec!["cargo".into(), "test".into()],
    };
    assert_eq!(
        pattern_suggestion("Bash", Some(&bash)).as_deref(),
        Some("Bash(cargo test *)")
    );
    let path = PermissionKey::Path {
        path: String::from("src/main.rs"),
    };
    assert_eq!(
        pattern_suggestion("Write", Some(&path)).as_deref(),
        Some("Write(src/main.rs)")
    );
    assert_eq!(pattern_suggestion("Bash", None), None);
}

#[test]
fn set_mode_at_runtime() {
    let mut engine = PermissionEngine::new(PermissionMode::Default, vec![]);
    assert_eq!(engine.mode(), PermissionMode::Default);
    engine.set_mode(PermissionMode::Plan);
    assert_eq!(engine.mode(), PermissionMode::Plan);
    let key = PermissionKey::Bash {
        command: vec!["echo".into()],
    };
    assert_eq!(engine.decide("Bash", Some(&key)).verdict, Verdict::Deny);
}

fn bash(words: &[&str]) -> PermissionKey {
    PermissionKey::Bash { command: words.iter().map(|w| w.to_string()).collect() }
}

#[test]
fn grant_is_narrow() {
    let mut engine = PermissionEngine::new(PermissionMode::Default, vec![]);
    engine.grant("Bash", "cargo test");
    assert_eq!(engine.decide("Bash", Some(&bash(&["cargo", "test"]))).verdict, Verdict::Allow);
    assert_eq!(engine.decide("Bash", Some(&bash(&["cargo", "build"]))).verdict, Verdict::Ask);
    assert_eq!(engine.decide("Write", Some(&bash(&["cargo", "test"]))).verdict, Verdict::Ask);
    assert!(matches!(
        engine.decide("Bash", Some(&bash(&["cargo", "test"]))).source,
        VerdictSource::SessionGrant
    ));
}

#[test]
fn added_rules_count() {
    let mut engine = PermissionEngine::new(PermissionMode::Bypass, vec![]);
    assert_eq!(engine.decide("Bash", Some(&bash(&["rm", "x"]))).verdict, Verdict::Allow);
    engine.add_rule(rule("Bash", "rm *", RuleAction::Deny));
    assert_eq!(engine.decide("Bash", Some(&bash(&["rm", "x"]))).verdict, Verdict::Deny);
}

#[test]
fn scripts_take_the_strictest_verdict() {
    let engine = PermissionEngine::new(
        PermissionMode::Default,
        vec![
            rule("Bash", "cargo *", RuleAction::Allow),
            rule("Bash", "rm *", RuleAction::Deny),
        ],
    );
    let d = engine.decide("Bash", Some(&bash(&["bash", "-c", "cargo test; rm -f x"])));
    assert_eq!(d.verdict, Verdict::Deny);
}

#[test]
fn segments_of_scripts() {
    let (segs, obscure) = split_segments("a && b || c; d | e\nf");
    assert!(!obscure);
    let trimmed: Vec<&str> = segs.iter().map(|s| s.trim()).collect();
    assert_eq!(trimmed, ["a", "b", "c", "d", "e", "f"]);
    assert_eq!(split_segments("echo 'a' && b"), (vec![], true));
    assert_eq!(split_segments("echo 'a'"), (vec!["echo 'a'".to_string()], false));
}

#[test]
fn analysis_of_command_lines() {
    let words = |w: &[&str]| -> Vec<String> { w.iter().map(|s| s.to_string()).collect() };
    let a = analyze_bash(&words(&["bash", "-lc", "ls; $(x)"]));
    assert!(a.unanalyzable && !a.dangerous_wrapper);
    assert_eq!(a.segments, ["bash -lc ls; $(x)"]);
    let b = analyze_bash(&words(&["sh", "-c", " ls ;; pwd "]));
    assert!(!b.unanalyzable);
    assert_eq!(b.segments, ["ls", "pwd"]);
    let c = analyze_bash(&words(&["ls", "-l"]));
    assert_eq!(c.segments, ["ls -l"]);
    assert!(is_dangerous_wrapper(&words(&["sudo", "ls"])));
    assert!(!is_dangerous_wrapper(&words(&["ls"])));
}

#[test]
fn globs_match_as_globset_does() {
    assert!(glob_match("src/**", "src/a/b.rs"));
    assert!(glob_match("*.rs", "a.rs"));
    assert!(!glob_match("src/*.rs", "lib/a.rs"));
    assert!(!glob_match("[", "["));
}

#[test]
fn tools_and_classes() {
    assert!(tool_matches("Edit|Patch", "Patch"));
    assert!(tool_matches("Edit | Patch", "Patch"));
    assert!(!tool_matches("*", "Anything"));
    assert!(!tool_matches("Edit|Patch", "Write"));
    assert_eq!(tool_class("Bash"), ToolClass::Exec);
    assert_eq!(tool_class("Read"), ToolClass::Read);
    assert_eq!(approval_kind("Bash"), ApprovalKind::Exec);
    assert_eq!(approval_kind("Edit"), ApprovalKind::Patch);
}

#[test]
fn requests_for_approval() {
    let key = bash(&["cargo", "test"]);
    let r = approval_request(CallId::new("c1"), "Bash", Some(&key), Some("Bash(cargo *)"));
    assert_eq!(r.call_id, CallId::new("c1"));
    assert_eq!(r.kind, ApprovalKind::Exec);
    assert_eq!(r.detail.command, Some(vec!["cargo".to_string(), "test".to_string()]));
    assert_eq!(r.detail.pattern_suggestion.as_deref(), Some("Bash(cargo test *)"));
    assert_eq!(r.detail.rule_matched.as_deref(), Some("Bash(cargo *)"));
}
