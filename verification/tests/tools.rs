//! Tools: what they are asked, what they do, and what the model is told.

use tao::json::{parse, Json};
use tao::permissions::PermissionKey;
use tao::tools::specs::{BashTool, TaskTool};
use tao::tools::{
    bash, edit, fs, glob, grep, parse_command, patch, permission_key, ToolError, ToolOutput,
    ToolRegistry,
};

fn json(s: &str) -> Json {
    parse(s).unwrap()
}

#[test]
fn bash_success() {
    let plan = bash::plan(&json(r#"{"command":["echo","hello"]}"#), ".").unwrap();
    assert_eq!(plan.command, ["echo", "hello"]);
    let out = bash::report(0, true, 5, "hello\n", "");
    assert!(!out.is_error);
    assert!(out.content.contains("Exit: 0"));
    assert!(out.content.contains("hello"));
}

#[test]
fn bash_nonzero_exit() {
    let out = bash::report(3, false, 5, "", "");
    assert!(out.is_error);
    assert!(out.content.contains("Exit: 3"));
}

#[test]
fn bash_stderr_captured() {
    let out = bash::report(0, true, 1, "to-out\n", "to-err\n");
    assert!(out.content.contains("to-out"));
    assert!(out.content.contains("to-err"));
}

#[test]
fn bash_timeout() {
    let plan =
        bash::plan(&json(r#"{"command":["bash","-c","sleep 30"],"timeout_ms":100}"#), ".").unwrap();
    assert_eq!(plan.timeout_ms, 100);
}

#[test]
fn bash_output_truncation() {
    let all: String = (1..=50000).map(|i| format!("{i}\n")).collect();
    let out = bash::report(0, true, 1, &all, "").content;
    assert!(out.contains("[... truncated ...]"));
    assert!(out.contains("1\n"));
    assert!(out.contains("50000\n"));
    assert!(out.len() < all.len());
    assert_eq!(bash::truncate("short").0, "short");
}

#[test]
fn bash_command_must_be_array() {
    let err = bash::plan(&json(r#"{"command":"echo hello"}"#), ".").err().unwrap();
    assert!(matches!(err, ToolError::InvalidArgs(_)));
    assert_eq!(parse_command(&json(r#"{"command":["a","b"]}"#)).unwrap(), ["a", "b"]);
}

#[test]
fn read_with_line_numbers() {
    let plan = fs::plan_read(&json(r#"{"path":"a.txt"}"#), "/d").unwrap();
    assert_eq!(plan.path, "/d/a.txt");
    let out = fs::show(&plan, &b"line1\nline2\nline3\n".to_vec()).content;
    assert!(out.contains("     1\tline1"));
    assert!(out.contains("     2\tline2"));
    assert!(out.contains("[1-3 of 3 lines]"));
}

#[test]
fn read_offset_limit() {
    let content: String = (1..=10).map(|i| format!("line{i}\n")).collect();
    let plan = fs::plan_read(&json(r#"{"path":"b.txt","offset":3,"limit":2}"#), "/d").unwrap();
    let out = fs::show(&plan, &content.into_bytes()).content;
    assert!(out.contains("     3\tline3"));
    assert!(out.contains("     4\tline4"));
    assert!(!out.contains("line5"));
    assert!(out.contains("[3-4 of 10 lines]"));
}

#[test]
fn read_missing_file() {
    match fs::missing("/d/nope.txt") {
        ToolError::Failed(msg) => assert!(msg.contains("文件不存在")),
        other => panic!("expected Failed, got {other:?}"),
    }
}

#[test]
fn read_directory_is_error() {
    let out = fs::directory("/d/sub");
    assert!(out.is_error);
    assert!(out.content.contains("目录"));
    let plan = fs::plan_read(&json(r#"{"path":"sub"}"#), "/d").unwrap();
    assert_eq!(fs::answer(&plan, &fs::AtPath::Directory), Ok(out));
    assert_eq!(fs::answer(&plan, &fs::AtPath::Nothing), Err(fs::missing("/d/sub")));
    assert!(fs::answer(&plan, &fs::AtPath::File(b"x\n".to_vec())).unwrap().content.contains("x"));
}

#[test]
fn read_binary_file() {
    let plan = fs::plan_read(&json(r#"{"path":"bin.dat"}"#), "/d").unwrap();
    let bytes = b"\x00\x01\x02 binary \xff".to_vec();
    assert!(fs::is_binary(&bytes));
    assert!(fs::show(&plan, &bytes).content.contains("二进制文件"));
}

#[test]
fn bytes_that_are_no_text_are_replaced() {
    let plan = fs::plan_read(&json(r#"{"path":"x"}"#), "/d").unwrap();
    assert!(fs::show(&plan, &vec![b'a', 0xff, b'b']).content.contains("a\u{fffd}b"));
}

#[test]
fn write_creates_file() {
    let plan = fs::plan_write(&json(r#"{"path":"new.txt","content":"hello\n"}"#), "/d").unwrap();
    assert_eq!((plan.path.as_str(), plan.content.as_str()), ("/d/new.txt", "hello\n"));
    let out = fs::written(false, &plan);
    assert!(!out.is_error);
    assert!(out.content.contains("created"));
}

#[test]
fn write_overwrites_existing() {
    let plan = fs::plan_write(&json(r#"{"path":"exist.txt","content":"new"}"#), "/d").unwrap();
    assert!(fs::written(true, &plan).content.contains("overwrote"));
}

#[test]
fn write_needs_its_arguments() {
    assert!(matches!(
        fs::plan_write(&json(r#"{"path":"x"}"#), "/d"),
        Err(ToolError::InvalidArgs(_))
    ));
    assert!(matches!(fs::plan_read(&json("{}"), "/d"), Err(ToolError::InvalidArgs(_))));
}

#[test]
fn registry_dispatch_by_name() {
    let reg = ToolRegistry::builtin();
    assert!(reg.get("Bash").is_some());
    assert!(reg.get("Nope").is_none());
    let names = reg.names();
    for n in ["Bash", "Read", "Write", "Edit", "Patch", "Grep", "Glob", "Task"] {
        assert!(names.iter().any(|x| x == n), "{n}");
    }
    assert_eq!(reg.specs().len(), 8);
}

#[test]
fn registry_keeps_names_apart() {
    let mut reg = ToolRegistry::new();
    reg.register(BashTool.spec());
    reg.register(BashTool.spec());
    reg.register(TaskTool.spec());
    assert_eq!(reg.names(), ["Bash", "Task"]);
    let asked: Vec<String> = ["Read", "Bash", "Glob"].iter().map(|s| s.to_string()).collect();
    assert_eq!(ToolRegistry::builtin().readonly_subset(&asked).names(), ["Read", "Glob"]);
}

#[test]
fn keys_of_calls() {
    assert_eq!(
        permission_key("Bash", &json(r#"{"command":["ls","-l"]}"#), "/d"),
        Some(PermissionKey::Bash { command: vec!["ls".into(), "-l".into()] })
    );
    for p in ["src/a.rs", "./src//a.rs", "/d/src/a.rs"] {
        let args = json(&format!(r#"{{"path":"{p}"}}"#));
        assert_eq!(
            permission_key("Edit", &args, "/d"),
            Some(PermissionKey::Path { path: "src/a.rs".into() })
        );
    }
    assert_eq!(
        permission_key("Edit", &json(r#"{"path":"/e/a.rs"}"#), "/d"),
        Some(PermissionKey::Path { path: "/e/a.rs".into() })
    );
    assert_eq!(permission_key("Glob", &json(r#"{"pattern":"*"}"#), "/d"), None);
}

// ---- edit ----

fn edit_plan(args: &str) -> edit::EditPlan {
    edit::plan(&json(args), "/d").unwrap().ok().unwrap()
}

#[test]
fn edit_unique_replace() {
    let plan = edit_plan(
        r#"{"path":"f.rs","old_string":"fn a() {}","new_string":"fn a() { return; }"}"#,
    );
    let old = "fn a() {}\nfn b() {}\n";
    let new = edit::edit(old, &plan).unwrap();
    assert!(new.contains("fn a() { return; }"));
    let out = edit::report(&plan.path, old, &new);
    assert!(!out.is_error);
    assert!(out.content.contains("-fn a() {}"));
    assert!(out.content.contains("+fn a() { return; }"));
}

#[test]
fn edit_non_unique_rejected() {
    let plan = edit_plan(r#"{"path":"f.rs","old_string":"x","new_string":"y"}"#);
    assert_eq!(edit::edit("x\nx\n", &plan), Err(2));
    assert!(edit::refuse(2, "f.rs").is_error);
    assert!(edit::unread("f.rs").is_error);
    assert!(edit::absent("f.rs").is_error);
}

#[test]
fn edit_replace_all() {
    let plan =
        edit_plan(r#"{"path":"f.rs","old_string":"x","new_string":"y","replace_all":true}"#);
    assert_eq!(edit::edit("x\nx\n", &plan), Ok("y\ny\n".to_string()));
}

#[test]
fn edit_not_found_error() {
    let plan = edit_plan(r#"{"path":"f.rs","old_string":"nope","new_string":"y"}"#);
    assert_eq!(edit::edit("fn a() {}\n", &plan), Err(0));
    assert!(edit::refuse(0, "f.rs").is_error);
}

#[test]
fn unread_files_are_not_edited() {
    let plan = edit_plan(r#"{"path":"f.rs","old_string":"x","new_string":"y"}"#);
    assert!(matches!(edit::run(&plan, false, Some("x")), edit::EditStep::Answer(o) if o.is_error));
    assert!(matches!(edit::run(&plan, true, None), edit::EditStep::Answer(o) if o.is_error));
    assert!(matches!(edit::run(&plan, true, Some("xx")), edit::EditStep::Answer(o) if o.is_error));
    assert!(matches!(
        edit::run(&plan, true, Some("ax")),
        edit::EditStep::Write { text, output } if text == "ay" && !output.is_error
    ));
}

#[test]
fn edit_refuses_to_change_nothing() {
    let r = edit::plan(&json(r#"{"path":"f","old_string":"x","new_string":"x"}"#), "/d").unwrap();
    assert!(r.err().unwrap().is_error);
    assert!(edit::plan(&json(r#"{"path":"f"}"#), "/d").is_err());
}

// ---- glob ----

#[test]
fn glob_finds_rs_files() {
    let found = vec![
        glob::Found { path: "/d/a.rs".into(), changed_ms: 1 },
        glob::Found { path: "/d/sub/c.rs".into(), changed_ms: 2 },
    ];
    let out = glob::report("**/*.rs", "/d", &found);
    assert!(!out.is_error, "{}", out.content);
    assert!(out.content.contains("a.rs"));
    assert!(out.content.contains("sub/c.rs"));
    assert!(out.content.find("sub/c.rs") < out.content.find("a.rs"));
}

#[test]
fn glob_lists_the_newest() {
    let found: Vec<glob::Found> = (0..150u64)
        .map(|i| glob::Found { path: format!("/d/{i}.rs"), changed_ms: (i * 7) % 150 })
        .collect();
    let out = glob::report("*.rs", "/d", &found);
    let lines: Vec<&str> = out.content.lines().collect();
    assert_eq!(lines[0], "找到 100 个匹配:");
    assert_eq!(lines.len(), 101);
    let times: Vec<u64> = lines[1..]
        .iter()
        .map(|l| l.trim_end_matches(".rs").parse::<u64>().unwrap() * 7 % 150)
        .collect();
    assert_eq!(times, (50..150).rev().collect::<Vec<u64>>());
}

#[test]
fn files_that_were_read() {
    let mut files = fs::ReadFiles::new();
    files.note("/d/a", &fs::AtPath::Nothing);
    files.note("/d/b", &fs::AtPath::Directory);
    assert!(!files.holds("/d/a") && !files.holds("/d/b"));
    files.note("/d/a", &fs::AtPath::File(vec![]));
    files.note("/d/a", &fs::AtPath::Nothing);
    assert!(files.holds("/d/a") && !files.holds("/d/b"));
}

#[test]
fn glob_invalid_pattern() {
    let (_, full) = glob::plan(&json(r#"{"pattern":"[unclosed"}"#), "/d").unwrap();
    assert_eq!(
        glob::check_pattern(&full),
        Err(ToolError::InvalidArgs(
            "glob pattern 无效: Pattern syntax error near position 3: invalid range pattern".into()
        ))
    );
    assert_eq!(glob::check_pattern("/d/**/*.rs"), Ok(()));
    assert_eq!(glob::refuse_pattern(None), Ok(()));
}

#[test]
fn glob_no_matches() {
    let out = glob::report("**/*.nonexistent", "/d", &vec![]);
    assert!(!out.is_error);
    assert!(out.content.contains("未找到"));
    assert!(glob::plan(&json("{}"), "/d").is_err());
    assert_eq!(tao::paths::relative_to("/d", "/d/x/y"), "x/y");
}

// ---- grep ----

fn grep_plan(args: &str) -> grep::GrepPlan {
    grep::plan(&json(args), "/d").ok().unwrap()
}

#[test]
fn grep_fallback_finds_matches() {
    let plan = grep_plan(r#"{"pattern":"fn main"}"#);
    let out = grep::search_file(
        &plan.regex,
        "a.rs",
        "fn main() {}\nfn other() {}\n",
        grep::OutputMode::Content,
    );
    assert!(out.contains("a.rs:1:fn main() {}"));
    assert!(!out.contains("other"));
    assert_eq!(
        grep::search_file(&plan.regex, "b.txt", "nope\n", grep::OutputMode::Content),
        ""
    );
}

#[test]
fn grep_fallback_files_mode() {
    let plan = grep_plan(r#"{"pattern":"main"}"#);
    let out =
        grep::search_file(&plan.regex, "a.rs", "fn main() {}\n", grep::OutputMode::Files);
    assert!(out.contains("a.rs"));
    assert!(!out.contains(":1:"));
}

#[test]
fn grep_tool_runs_or_fallback() {
    let plan = grep_plan(r#"{"pattern":"fn main","path":"."}"#);
    let args = grep::rg_args(&plan);
    assert!(args.iter().any(|a| a == "fn main"));
    let out = grep::rg_result(0, "a.rs:1:fn main() {}\n", "").ok().unwrap();
    assert!(!out.is_error, "{}", out.content);
    assert!(out.content.contains("fn main"));
    assert!(grep::rg_result(1, "", "").is_ok());
    assert!(grep::skips(".git"));
    assert!(!grep::skips("src"));
}

#[test]
fn grep_invalid_regex_error() {
    assert!(matches!(
        grep::plan(&json(r#"{"pattern":"(unclosed"}"#), "/d"),
        Err(ToolError::InvalidArgs(m)) if m.starts_with("正则无效: ")
    ));
}

#[test]
fn grep_wants_what_the_glob_fits() {
    assert!(grep::wanted(&Some("*.rs".into()), "a.rs"));
    assert!(!grep::wanted(&Some("*.rs".into()), "a.txt"));
    assert!(grep::wanted(&None, "a.txt"));
    assert!(grep::check_glob(&Some("*.rs".into())).is_ok());
    assert!(matches!(
        grep::check_glob(&Some("[".into())),
        Err(ToolError::InvalidArgs(m)) if m.starts_with("glob 无效: ")
    ));
}

// ---- patch ----

#[test]
fn patch_update_and_add() {
    let text = "*** Begin Patch\n*** Update File: a.rs\n-fn old() {}\n+fn new() {}\n*** Add File: b.rs\n+fn added() {}\n*** End Patch\n";
    let mut m = tao::json::Members::new();
    m.put_text("patch", text);
    let hunks = patch::read_patch(&m.done()).unwrap().ok().unwrap();
    assert_eq!(hunks.len(), 2);
    let out = patch::applied(2, "diff");
    assert!(!out.is_error, "{}", out.content);
    assert!(out.content.contains("diff"));
}

#[test]
fn patch_parse_error_reported() {
    let out = patch::read_patch(&json(r#"{"patch":"not a patch"}"#)).unwrap().err().unwrap();
    assert!(out.is_error);
    assert!(patch::read_patch(&json("{}")).is_err());
}

#[test]
fn patch_apply_failure_no_write() {
    let e = tao::apply_patch::ApplyError::NotFoundInFile("a.rs".into());
    let out = patch::refused(&e);
    assert!(out.is_error);
    assert!(out.content.contains("a.rs"));
}

#[test]
fn outputs() {
    assert_eq!(ToolOutput::ok("x"), ToolOutput { content: "x".into(), is_error: false });
    assert_eq!(ToolOutput::error("x"), ToolOutput { content: "x".into(), is_error: true });
}
