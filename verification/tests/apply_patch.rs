//! Patches: reading them, and what they come to.

use tao::apply_patch::{
    apply_update, parse, plan, ApplyError, FileFact, Hunk, HunkAction, ParseError, PendingOp,
    Refusal,
};

fn words(v: &[&str]) -> Vec<String> {
    v.iter().map(|s| s.to_string()).collect()
}

fn hunk_update(path: &str, seek: &[&str], remove: &[&str], add: &[&str]) -> Hunk {
    Hunk {
        action: HunkAction::Update,
        path: path.into(),
        seek_context: words(seek),
        remove: words(remove),
        add: words(add),
    }
}

fn hunk(action: HunkAction, path: &str, seek: &[&str], remove: &[&str], add: &[&str]) -> Hunk {
    Hunk { action, ..hunk_update(path, seek, remove, add) }
}

fn file(text: &str) -> FileFact {
    FileFact { exists: true, text: Ok(text.into()) }
}

fn no_file() -> FileFact {
    FileFact { exists: false, text: Err("missing".into()) }
}

#[test]
fn two_updates_of_one_file() {
    let hunks = vec![
        hunk(HunkAction::Update, "f.rs", &[], &["a"], &["A"]),
        hunk(HunkAction::Update, "./f.rs", &[], &["c"], &["C"]),
    ];
    let (ops, _) =
        plan(&hunks, "/d", &vec![file("a\nb\nc\n"), file("a\nb\nc\n")]).unwrap();
    assert_eq!(
        ops.last(),
        Some(&PendingOp::Write { path: "/d/./f.rs".into(), new: "A\nb\nC\n".into() })
    );
}

#[test]
fn hunks_see_what_earlier_ones_left() {
    let hunks = vec![
        hunk(HunkAction::Move { to: "g.rs".into() }, "f.rs", &[], &[], &[]),
        hunk(HunkAction::Update, "g.rs", &[], &["a"], &["A"]),
    ];
    let (ops, _) = plan(&hunks, "/d", &vec![file("a\n"), no_file()]).unwrap();
    assert_eq!(ops[1], PendingOp::Write { path: "/d/g.rs".into(), new: "A\n".into() });
    let hunks = vec![
        hunk(HunkAction::Delete, "f.rs", &[], &[], &[]),
        hunk(HunkAction::Delete, "f.rs", &[], &[], &[]),
    ];
    assert_eq!(
        plan(&hunks, "/d", &vec![file("a\n"), file("a\n")]),
        Err(ApplyError::NotFound("/d/f.rs".into()))
    );
    let hunks = vec![
        hunk(HunkAction::Add, "n.rs", &[], &[], &["x"]),
        hunk(HunkAction::Add, "n.rs", &[], &[], &["y"]),
    ];
    assert_eq!(
        plan(&hunks, "/d", &vec![no_file(), no_file()]),
        Err(ApplyError::AlreadyExists("/d/n.rs".into()))
    );
}

#[test]
fn parse_add_update_delete() {
    let input = "*** Begin Patch\n*** Add File: a.rs\n+fn main() {}\n*** Update File: b.rs\n@@ fn existing\n context\n-old\n+new\n*** Delete File: c.rs\n*** End Patch\n";
    let hunks = parse(input).unwrap();
    assert_eq!(hunks.len(), 3);
    assert_eq!(hunks[0].action, HunkAction::Add);
    assert_eq!(hunks[0].add, vec!["fn main() {}"]);
    assert_eq!(hunks[1].action, HunkAction::Update);
    assert_eq!(hunks[1].seek_context, vec!["fn existing", "context"]);
    assert_eq!(hunks[1].remove, vec!["old"]);
    assert_eq!(hunks[1].add, vec!["new"]);
    assert_eq!(hunks[2].action, HunkAction::Delete);
}

#[test]
fn parse_move() {
    let input = "*** Begin Patch\n\
        *** Move File: a.rs to b.rs\n\
        *** End Patch\n";
    let hunks = parse(input).unwrap();
    assert_eq!(hunks.len(), 1);
    assert_eq!(hunks[0].action, HunkAction::Move { to: "b.rs".into() });
}

#[test]
fn parse_rejects_missing_begin() {
    assert!(parse("*** Add File: x\n").is_err());
}

#[test]
fn parse_errors() {
    assert_eq!(parse("*** Add File: x\n").unwrap_err(), ParseError::ExpectedBegin);
    assert_eq!(parse("").unwrap_err(), ParseError::UnexpectedEof);
    assert_eq!(
        parse("*** Begin Patch\n@@ here\n*** End Patch\n").unwrap_err(),
        ParseError::AnchorOutsideHunk
    );
    assert!(matches!(
        parse("*** Begin Patch\n+x\n*** End Patch\n").unwrap_err(),
        ParseError::LineOutsideHunk(_)
    ));
    assert!(matches!(
        parse("*** Begin Patch\n*** Move File: a\n*** End Patch\n").unwrap_err(),
        ParseError::BadMove(_)
    ));
    assert!(matches!(
        parse("*** Begin Patch\n*** Update File: a\nnonsense\n*** End Patch\n").unwrap_err(),
        ParseError::UnknownLine(_)
    ));
}

#[test]
fn apply_update_unique_match() {
    let hunks = vec![hunk_update("f.rs", &[], &["fn b() {}"], &["fn B() {}"])];
    let facts = vec![file("fn a() {}\nfn b() {}\nfn c() {}\n")];
    let (ops, diff) = plan(&hunks, "/p", &facts).unwrap();
    assert_eq!(
        ops,
        vec![PendingOp::Write {
            path: "/p/f.rs".into(),
            new: "fn a() {}\nfn B() {}\nfn c() {}\n".into(),
        }]
    );
    assert!(diff.contains("--- f.rs"));
    assert!(diff.contains("-fn b() {}"));
    assert!(diff.contains("+fn B() {}"));
}

#[test]
fn apply_update_whitespace_tolerant() {
    let hunk = hunk_update("f.rs", &[], &["fn a() {}"], &["fn a() { return; }"]);
    let new = apply_update("    fn a() {}\n", &hunk).unwrap();
    assert!(new.contains("fn a() { return; }"));
}

#[test]
fn apply_update_ambiguous_rejected() {
    let hunks = vec![hunk_update("f.rs", &[], &["x"], &["y"])];
    let err = plan(&hunks, "/p", &vec![file("x\nx\n")]).unwrap_err();
    assert!(matches!(err, ApplyError::Ambiguous(_)));
}

#[test]
fn apply_update_not_found_rejected() {
    let hunks = vec![hunk_update("f.rs", &[], &["nope"], &["y"])];
    let err = plan(&hunks, "/p", &vec![file("fn a() {}\n")]).unwrap_err();
    assert!(matches!(err, ApplyError::NotFoundInFile(_)));
}

#[test]
fn apply_add_creates_file() {
    let hunk = Hunk {
        action: HunkAction::Add,
        path: "new.rs".into(),
        seek_context: vec![],
        remove: vec![],
        add: vec!["fn main() {}".into()],
    };
    let (ops, _) = plan(&vec![hunk], "/p", &vec![no_file()]).unwrap();
    assert_eq!(
        ops,
        vec![PendingOp::Write { path: "/p/new.rs".into(), new: "fn main() {}\n".into() }]
    );
}

#[test]
fn apply_add_rejects_existing() {
    let hunk = Hunk {
        action: HunkAction::Add,
        path: "old.rs".into(),
        seek_context: vec![],
        remove: vec![],
        add: vec!["y".into()],
    };
    let err = plan(&vec![hunk], "/p", &vec![file("x\n")]).unwrap_err();
    assert!(matches!(err, ApplyError::AlreadyExists(_)));
}

#[test]
fn apply_delete_removes_file() {
    let hunk = Hunk {
        action: HunkAction::Delete,
        path: "gone.rs".into(),
        seek_context: vec![],
        remove: vec![],
        add: vec![],
    };
    let (ops, _) = plan(&vec![hunk], "/p", &vec![file("x\n")]).unwrap();
    assert_eq!(ops, vec![PendingOp::Delete { path: "/p/gone.rs".into() }]);
}

#[test]
fn apply_move_renames() {
    let hunk = Hunk {
        action: HunkAction::Move { to: "b.rs".into() },
        path: "a.rs".into(),
        seek_context: vec![],
        remove: vec![],
        add: vec![],
    };
    let (ops, _) = plan(&vec![hunk], "/p", &vec![file("content\n")]).unwrap();
    assert_eq!(
        ops,
        vec![PendingOp::Move { from: "/p/a.rs".into(), to: "/p/b.rs".into() }]
    );
}

#[test]
fn apply_transactional_partial_failure_no_write() {
    let h1 = hunk_update("f.rs", &[], &["keep"], &["changed"]);
    let h2 = hunk_update("f.rs", &[], &["nope"], &["x"]);
    let err = plan(&vec![h1, h2], "/p", &vec![file("keep\n"), file("keep\n")]).unwrap_err();
    assert!(matches!(err, ApplyError::NotFoundInFile(_)));
}

#[test]
fn missing_files_and_empty_hunks_are_refused() {
    let h = Hunk { action: HunkAction::Delete, ..hunk_update("f.rs", &[], &[], &[]) };
    assert!(matches!(
        plan(&vec![h], "/p", &vec![no_file()]).unwrap_err(),
        ApplyError::NotFound(_)
    ));
    let h = hunk_update("f.rs", &[], &["a"], &["b"]);
    assert!(matches!(
        plan(&vec![h], "/p", &vec![no_file()]).unwrap_err(),
        ApplyError::Io(_, e) if e == "missing"
    ));
    let h = hunk_update("f.rs", &[], &[], &["b"]);
    assert!(matches!(
        plan(&vec![h], "/p", &vec![file("a\n")]).unwrap_err(),
        ApplyError::EmptyHunk(_)
    ));
    let h = hunk_update("f.rs", &[], &["a"], &["b"]);
    let unread = FileFact { exists: true, text: Err("denied".into()) };
    assert!(matches!(
        plan(&vec![h], "/p", &vec![unread]).unwrap_err(),
        ApplyError::Io(_, e) if e == "denied"
    ));
}

#[test]
fn context_stays_as_it_is_in_the_file() {
    let h = hunk_update("f.rs", &["fn a() {"], &["old"], &["    new"]);
    assert_eq!(
        apply_update("x\n  fn  a() {\n    old\n}\n", &h),
        Ok("x\n  fn  a() {\n    new\n}\n".to_string())
    );
    assert_eq!(apply_update("old\nold\n", &hunk_update("f", &[], &["old"], &[])), Err(Refusal::Ambiguous));
}

#[test]
fn nothing_behind_the_end_is_read() {
    let head = "*** Begin Patch\n*** Delete File: a\n*** End Patch\n";
    let tail = "*** Delete File: b\nanything\n";
    assert_eq!(parse(&format!("{head}{tail}")).unwrap(), parse(head).unwrap());
}
