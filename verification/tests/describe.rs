//! Commands, skills, sub-agents and instructions that files describe.

use tao::agents::{load_agents, parse_agent};
use tao::commands::{
    command_failure, command_output, expand, load_commands, parse_builtin, parse_command, pieces,
    plan_expansion, split_name_args, Builtin, Piece,
};
use tao::front::split_frontmatter;
use tao::instructions::{
    assemble, dirs_from_repo_root_to, expand_at_refs, instruction_files, read_first,
    referred_paths, Referred,
};
use tao::permission::PermissionMode;
use tao::skills::{load_skills, parse_skill, skills_prompt, SkillDef};

#[test]
fn parse_builtin_basic() {
    assert!(matches!(parse_builtin("/help"), Some(Builtin::Help)));
    assert!(matches!(parse_builtin("/clear"), Some(Builtin::Clear)));
    assert!(matches!(parse_builtin("/compact"), Some(Builtin::Compact)));
    assert!(matches!(parse_builtin("/sessions"), Some(Builtin::Sessions)));
    assert!(matches!(
        parse_builtin("/mode plan"),
        Some(Builtin::Mode(PermissionMode::Plan))
    ));
    assert!(matches!(parse_builtin("/mode"), Some(Builtin::ModeCycle)));
    assert!(parse_builtin("/unknown").is_none());
    assert!(parse_builtin("/mode bad").is_none());
}

#[test]
fn commands_that_are_built_in() {
    for c in [
        "/help", "/clear", "/compact", "/plan", "/mode", "/model", "/sessions", "/rewind",
        "/rollback", "/diff", "/cost", "/hooks", "/mcp", "/agent", "/init",
    ] {
        assert!(parse_builtin(c).is_some(), "{c}");
    }
    assert_eq!(parse_builtin("/plan"), Some(Builtin::Mode(PermissionMode::Plan)));
    assert_eq!(parse_builtin(" /diff HEAD "), Some(Builtin::Diff));
}

#[test]
fn split_name_args_basic() {
    assert_eq!(
        split_name_args("/commit --amend"),
        ("commit".to_string(), "--amend".to_string())
    );
    assert_eq!(split_name_args("/help"), ("help".to_string(), String::new()));
}

#[test]
fn expand_arguments() {
    let parts = plan_expansion("args: $ARGUMENTS", "hello world");
    let out = expand(&parts, &vec![]);
    assert!(out.contains("args: hello world"));
}

#[test]
fn expand_command_injection() {
    let parts = plan_expansion("result: !`echo hi`", "");
    assert_eq!(
        parts,
        vec![Piece::Text("result: ".into()), Piece::Command("echo hi".into())]
    );
    let hi = command_output(true, Some(0), &b"hi\n".to_vec(), &vec![]);
    let out = expand(&parts, &vec![hi]);
    assert!(out.contains("result: hi"));
}

#[test]
fn templates_come_apart_at_commands() {
    assert_eq!(pieces("no commands"), vec![Piece::Text("no commands".into())]);
    assert_eq!(pieces(""), vec![]);
    assert_eq!(pieces("!``"), vec![Piece::Text("!``".into())]);
    assert_eq!(pieces("!`open"), vec![Piece::Text("!`open".into())]);
    assert_eq!(
        pieces("a!`b`!`c`d"),
        vec![
            Piece::Text("a".into()),
            Piece::Command("b".into()),
            Piece::Command("c".into()),
            Piece::Text("d".into()),
        ]
    );
    assert_eq!(
        command_output(false, Some(3), &vec![], &b"bad".to_vec()),
        "[命令失败(3): bad]"
    );
    assert_eq!(command_output(false, None, &vec![], &vec![]), "[命令失败(-1): ]");
    assert_eq!(command_failure("x"), "[命令执行失败: x]");
}

#[test]
fn load_commands_from_dir() {
    let test = parse_command(
        "test",
        "---\ndescription: test cmd\nargument_hint: \"[x]\"\n---\nbody $ARGUMENTS",
    );
    assert_eq!(test.description, "test cmd");
    assert_eq!(test.argument_hint.as_deref(), Some("[x]"));
    assert!(test.body.contains("body"));
    let project = parse_command("test", "from the project");
    assert_eq!(project.description, "from the project");
    let other = parse_command("other", "x");
    let all = load_commands(&vec![test, other, project]);
    assert_eq!(all.len(), 2);
    assert_eq!(all.iter().find(|c| c.name == "test").unwrap().body, "from the project");
}

#[test]
fn split_frontmatter_no_fm() {
    let (fm, body) = split_frontmatter("just body\n");
    assert!(fm.is_empty());
    assert!(body.contains("just body"));
}

#[test]
fn heads_end_at_the_second_mark() {
    assert_eq!(
        split_frontmatter("--- \na: 1\n ---\nb\n---\nc"),
        ("a: 1\n".to_string(), "b\n---\nc\n".to_string())
    );
    assert_eq!(split_frontmatter("---\na"), ("a\n".to_string(), String::new()));
    assert_eq!(split_frontmatter(""), (String::new(), String::new()));
}

#[test]
fn load_skills_from_dir() {
    let s = parse_skill(
        "/p/.tao/skills/rust-test/SKILL.md",
        "rust-test",
        "---\nname: rust-test\ndescription: Rust 测试最佳实践\n---\n# 方法论\n",
    );
    assert_eq!(s.name, "rust-test");
    assert_eq!(s.description, "Rust 测试最佳实践");
    assert!(s.path.ends_with("SKILL.md"));
    let t = parse_skill("/p/x/SKILL.md", "x", "nothing");
    assert_eq!((t.name.as_str(), t.description.as_str()), ("x", "（无描述）"));
    assert_eq!(load_skills(&vec![s, t]).len(), 2);
}

#[test]
fn skills_prompt_format() {
    let skills = vec![SkillDef {
        name: "rust-test".into(),
        description: "Rust 测试".into(),
        path: "/tmp/skills/rust-test/SKILL.md".into(),
    }];
    let p = skills_prompt(&skills).unwrap();
    assert!(p.contains("rust-test"));
    assert!(p.contains("Rust 测试"));
    assert!(p.contains("Read /tmp/skills/rust-test/SKILL.md"));
}

#[test]
fn skills_prompt_empty() {
    assert!(skills_prompt(&vec![]).is_none());
}

#[test]
fn load_agents_from_dir() {
    let exp = parse_agent(
        "explorer",
        "---\nname: explorer\ndescription: 只读探索\ntools: [Read, Grep, Glob]\nmodel: haiku\n---\n你是探索专家。\n",
    );
    assert_eq!(exp.name, "explorer");
    assert_eq!(exp.description, "只读探索");
    assert_eq!(exp.tools, vec!["Read", "Grep", "Glob"]);
    assert_eq!(exp.model.as_deref(), Some("haiku"));
    assert!(exp.system_prompt.contains("探索专家"));
    assert_eq!(load_agents(&vec![exp]).len(), 1);
}

#[test]
fn default_tools_when_empty() {
    let basic = parse_agent("basic", "---\ndescription: basic\n---\n系统提示\n");
    assert_eq!(basic.tools, vec!["Read", "Grep", "Glob"]);
    assert_eq!(basic.name, "basic");
    assert_eq!(basic.model, None);
}

// ---- instructions ----

fn names() -> Vec<String> {
    instruction_files(&vec!["OTHER.md".to_string()])
}

fn no_refs() -> Vec<Referred> {
    vec![]
}

fn known(path: &str, content: &str) -> Referred {
    Referred {
        path: path.into(),
        canonical: Some(path.into()),
        is_file: true,
        content: Some(content.into()),
        parent: "/p".into(),
    }
}

#[test]
fn load_project_agents_md() {
    let text = read_first("/p", &names(), &vec![Some("用 4 空格缩进".into()), None, None]).unwrap();
    assert_eq!(text, "# 来自 /p/AGENTS.md\n用 4 空格缩进");
}

#[test]
fn instructions_of_other_agents_come_second() {
    let text = read_first("/p", &names(), &vec![None, Some("项目约定".into()), None]).unwrap();
    assert!(text.contains("项目约定"));
    assert!(text.contains("OTHER.md"));
    let text = read_first(
        "/p",
        &names(),
        &vec![Some("新指令".into()), Some("老指令".into()), None],
    )
    .unwrap();
    assert!(text.contains("新指令"));
    assert!(!text.contains("老指令"));
    assert_eq!(read_first("/p", &names(), &vec![None, None, None]), None);
    assert_eq!(names(), ["AGENTS.md", "OTHER.md", "TAO.md"]);
    let old = read_first("/p", &names(), &vec![None, None, Some("x".into())]);
    assert_eq!(old.as_deref(), Some("# 来自 /p/TAO.md\nx"));
}

#[test]
fn at_ref_expands_file_content() {
    let files = vec![known("/p/notes.md", "重要约定")];
    let text = expand_at_refs("参见 @notes.md 结束", "/p", 0, &files);
    assert!(text.contains("重要约定"));
    assert!(!text.contains("@notes.md"));
    assert_eq!(referred_paths("参见 @notes.md 结束 @", "/p"), ["/p/notes.md"]);
}

#[test]
fn at_ref_recursive() {
    let files = vec![known("/p/b.md", "B内容"), known("/p/a.md", "A开头 @b.md A尾")];
    let text = expand_at_refs("@a.md", "/p", 0, &files);
    assert!(text.contains("A开头"));
    assert!(text.contains("B内容"));
    assert!(text.contains("A尾"));
}

#[test]
fn at_ref_cycle_breaks() {
    let files = vec![known("/p/a.md", "A @b.md"), known("/p/b.md", "B @a.md")];
    let text = expand_at_refs("@a.md", "/p", 0, &files);
    assert!(text.contains("A"));
    assert!(text.contains("B"));
    assert_eq!(expand_at_refs("@a.md", "/p", 9, &files), "@a.md");
}

#[test]
fn at_ref_missing_kept_literal() {
    let text = expand_at_refs("参见 @nonexistent.md", "/p", 0, &no_refs());
    assert_eq!(text, "参见 @nonexistent.md \n");
    let twice = expand_at_refs("@n.md @n.md", "/p", 0, &vec![known("/p/n.md", "x")]);
    assert_eq!(twice, "x \n\n@n.md \n");
}

#[test]
fn dirs_from_repo_root_walks_up() {
    let up = |v: &[&str]| -> Vec<String> { v.iter().map(|s| s.to_string()).collect() };
    let above = up(&["/r/crates/tao-core", "/r/crates", "/r", "/"]);
    let chain = dirs_from_repo_root_to(&above, &vec![false, false, true, true]);
    assert_eq!(chain, ["/r", "/r/crates", "/r/crates/tao-core"]);
    let alone = dirs_from_repo_root_to(&above, &vec![false, false, false, false]);
    assert_eq!(alone, ["/r/crates/tao-core"]);
    assert_eq!(
        assemble(&vec!["root".to_string(), "sub".to_string()]).unwrap(),
        "root\n\nsub"
    );
    assert_eq!(assemble(&vec![]), None);
}
