//! The permission engine: session grants, then rules, then the mode's default.
//!
//! For a shell command the rules see each part of the script. What cannot be
//! taken apart, and what hands the command on to another program, is asked
//! about whatever the rules say.
use vstd::prelude::*;

use crate::dup::Dup;
use crate::event::ApprovalDetail;
use crate::event::ApprovalDetailView;
use crate::event::ApprovalKind;
use crate::ids::CallId;
use crate::permission::Decision;
use crate::permission::DecisionView;
use crate::permission::PermissionMode;
use crate::permission::PermissionRule;
use crate::permission::PermissionRuleView;
use crate::permission::RuleAction;
use crate::permission::Verdict;
use crate::permission::VerdictSource;
use crate::permission::VerdictSourceView;
use crate::text::byte_len;
use crate::text::bytes_len;
use crate::text::cat3;
use crate::text::cat;
use crate::text::chars_of;
use crate::text::contains;
use crate::text::ends_with;
use crate::text::join;
use crate::text::joined;
use crate::text::occurs;
use crate::text::same;
use crate::text::split;
use crate::text::split_list;
use crate::text::split_whitespace;
use crate::text::starts_with;
use crate::text::trim;
use crate::text::trimmed;
use crate::text::views;
use crate::text::words;

verus! {

// ---- what a call touches ----

/// The model of `PermissionKey`.
pub enum PermissionKeyView {
    Bash { command: Seq<Seq<char>> },
    Path { path: Seq<char> },
    Domain { host: Seq<char> },
}

/// What a tool call touches.
#[derive(Debug, PartialEq, Eq)]
pub enum PermissionKey {
    /// A command and its arguments.
    Bash { command: Vec<String> },
    /// A file as seen from the working directory, where it lies below it; any
    /// other file by its whole path.
    Path { path: String },
    /// A host on the network.
    Domain { host: String },
}

impl DeepView for PermissionKey {
    type V = PermissionKeyView;

    open spec fn deep_view(&self) -> PermissionKeyView {
        match *self {
            PermissionKey::Bash { command } => PermissionKeyView::Bash { command: views(command@) },
            PermissionKey::Path { path } => PermissionKeyView::Path { path: path@ },
            PermissionKey::Domain { host } => PermissionKeyView::Domain { host: host@ },
        }
    }
}

/// A key that may be missing.
pub open spec fn key_view(key: Option<&PermissionKey>) -> Option<PermissionKeyView> {
    match key {
        Some(k) => Some(k.deep_view()),
        None => None,
    }
}

/// The text of a key: the command with single spaces, the path, or the host.
pub open spec fn key_text(k: PermissionKeyView) -> Seq<char> {
    match k {
        PermissionKeyView::Bash { command } => joined(command, " "@),
        PermissionKeyView::Path { path } => path,
        PermissionKeyView::Domain { host } => host,
    }
}

impl PermissionKey {
    /// The text that grants and suggestions use.
    pub fn pattern_string(&self) -> (r: String)
        ensures
            r@ == key_text(self.deep_view()),
    {
        match self {
            PermissionKey::Bash { command } => join(command, " "),
            PermissionKey::Path { path } => path.clone(),
            PermissionKey::Domain { host } => host.clone(),
        }
    }
}

// ---- the mode's default ----

/// What kind of tool it is.
#[derive(Debug, Clone, Copy, PartialEq, Eq, Structural)]
pub enum ToolClass {
    Read,
    Write,
    Exec,
    Net,
    Other,
}

/// The kind of a tool, by its name.
pub open spec fn class_of(tool: Seq<char>) -> ToolClass {
    if tool == "Bash"@ {
        ToolClass::Exec
    } else if tool == "Read"@ || tool == "Grep"@ || tool == "Glob"@ {
        ToolClass::Read
    } else if tool == "Write"@ || tool == "Edit"@ || tool == "Patch"@ {
        ToolClass::Write
    } else if tool == "WebFetch"@ {
        ToolClass::Net
    } else {
        ToolClass::Other
    }
}

/// What a mode says of a kind of tool.
pub open spec fn class_default(mode: PermissionMode, class: ToolClass) -> Verdict {
    match mode {
        PermissionMode::Bypass => Verdict::Allow,
        PermissionMode::Plan => if class == ToolClass::Read {
            Verdict::Allow
        } else {
            Verdict::Deny
        },
        PermissionMode::AcceptEdits => if class == ToolClass::Read || class == ToolClass::Write {
            Verdict::Allow
        } else {
            Verdict::Ask
        },
        PermissionMode::Default => if class == ToolClass::Read {
            Verdict::Allow
        } else {
            Verdict::Ask
        },
    }
}

/// The kind of a tool, by its name.
pub fn tool_class(tool: &str) -> (r: ToolClass)
    ensures
        r == class_of(tool@),
{
    if same(tool, "Bash") {
        ToolClass::Exec
    } else if same(tool, "Read") || same(tool, "Grep") || same(tool, "Glob") {
        ToolClass::Read
    } else if same(tool, "Write") || same(tool, "Edit") || same(tool, "Patch") {
        ToolClass::Write
    } else if same(tool, "WebFetch") {
        ToolClass::Net
    } else {
        ToolClass::Other
    }
}

/// What a mode says of a tool.
pub fn mode_default(mode: PermissionMode, tool: &str) -> (r: Verdict)
    ensures
        r == class_default(mode, class_of(tool@)),
{
    let class = tool_class(tool);
    match mode {
        PermissionMode::Bypass => Verdict::Allow,
        PermissionMode::Plan => match class {
            ToolClass::Read => Verdict::Allow,
            _ => Verdict::Deny,
        },
        PermissionMode::AcceptEdits => match class {
            ToolClass::Read => Verdict::Allow,
            ToolClass::Write => Verdict::Allow,
            _ => Verdict::Ask,
        },
        PermissionMode::Default => match class {
            ToolClass::Read => Verdict::Allow,
            _ => Verdict::Ask,
        },
    }
}

// ---- rules ----

/// Whether a text is a glob that `globset::Glob::new` takes and whose regular
/// expression `regex` compiles.
pub uninterp spec fn glob_valid(pattern: Seq<char>) -> bool;

/// Whether a glob that compiles matches a text.
pub uninterp spec fn glob_matches(pattern: Seq<char>, s: Seq<char>) -> bool;

/// Whether `pattern` is a glob that matches `s`.
pub open spec fn glob_hits(pattern: Seq<char>, s: Seq<char>) -> bool {
    glob_valid(pattern) && glob_matches(pattern, s)
}

/// Whether `globset::Glob::new` takes the pattern and the regular expression that
/// the glob stands for compiles, which `compile_matcher` counts on.
#[verifier::external_body]
fn glob_compiles(pattern: &str) -> (r: bool)
    ensures
        r == glob_valid(pattern@),
{
    match globset::Glob::new(pattern) {
        Ok(g) => regex::bytes::RegexBuilder::new(g.regex()).dot_matches_new_line(true).build().is_ok(),
        Err(_) => false,
    }
}

/// `globset::GlobMatcher::is_match` of the compiled pattern. The outcome is a
/// function of the pattern and the text.
#[verifier::external_body]
fn glob_is_match(pattern: &str, s: &str) -> (r: bool)
    requires
        glob_valid(pattern@),
    ensures
        r == glob_matches(pattern@, s@),
{
    match globset::Glob::new(pattern) {
        Ok(g) => g.compile_matcher().is_match(s),
        Err(_) => false,
    }
}

/// Whether `pattern` is a glob that matches `s`.
pub fn glob_match(pattern: &str, s: &str) -> (r: bool)
    ensures
        r == glob_hits(pattern@, s@),
{
    glob_compiles(pattern) && glob_is_match(pattern, s)
}

/// Whether a rule's list of tools, separated by `|`, names the tool.
pub open spec fn tool_listed(list: Seq<char>, tool: Seq<char>) -> bool {
    exists|i: int|
        0 <= i < split_list(list, "|"@).len() && trimmed(#[trigger] split_list(list, "|"@)[i])
            == tool
}

/// Whether a pattern covers a key. Nothing covers a call without one.
pub open spec fn pattern_covers(pattern: Seq<char>, key: Option<PermissionKeyView>) -> bool {
    match key {
        None => false,
        Some(PermissionKeyView::Domain { host }) => host == pattern || ("."@
            + pattern).is_suffix_of(host),
        Some(k) => glob_hits(pattern, key_text(k)),
    }
}

/// Whether a rule speaks of a call.
pub open spec fn rule_hits(
    rule: PermissionRuleView,
    tool: Seq<char>,
    key: Option<PermissionKeyView>,
) -> bool {
    tool_listed(rule.tool, tool) && pattern_covers(rule.pattern, key)
}

/// Denying is stronger than asking, and asking than allowing.
pub open spec fn strength(a: RuleAction) -> int {
    match a {
        RuleAction::Allow => 0,
        RuleAction::Ask => 1,
        RuleAction::Deny => 2,
    }
}

/// Whether rule `a` goes before rule `b`: it is stronger, or as strong and more
/// specific, which is to say longer.
pub open spec fn outranks(a: PermissionRuleView, b: PermissionRuleView) -> bool {
    ||| strength(a.action) > strength(b.action)
    ||| a.action == b.action && byte_len(a.pattern) > byte_len(b.pattern)
}

/// The rule that decides a call: of those that speak of it, the first that no
/// other outranks.
pub open spec fn winner(
    rules: Seq<PermissionRuleView>,
    tool: Seq<char>,
    key: Option<PermissionKeyView>,
) -> Option<PermissionRuleView>
    decreases rules.len(),
{
    if rules.len() == 0 {
        None
    } else {
        let before = winner(rules.drop_last(), tool, key);
        let last = rules.last();
        if !rule_hits(last, tool, key) {
            before
        } else {
            match before {
                None => Some(last),
                Some(b) => if outranks(last, b) {
                    Some(last)
                } else {
                    Some(b)
                },
            }
        }
    }
}

/// The verdict that an action stands for.
pub open spec fn verdict_of(a: RuleAction) -> Verdict {
    match a {
        RuleAction::Allow => Verdict::Allow,
        RuleAction::Ask => Verdict::Ask,
        RuleAction::Deny => Verdict::Deny,
    }
}

/// The decision of one rule.
pub open spec fn ruling(rule: Option<PermissionRuleView>) -> Option<DecisionView> {
    match rule {
        Some(r) => Some(
            DecisionView {
                verdict: verdict_of(r.action),
                source: VerdictSourceView::Rule { rule: r },
            },
        ),
        None => None,
    }
}

fn action_to_verdict(a: RuleAction) -> (r: Verdict)
    ensures
        r == verdict_of(a),
{
    match a {
        RuleAction::Allow => Verdict::Allow,
        RuleAction::Ask => Verdict::Ask,
        RuleAction::Deny => Verdict::Deny,
    }
}

fn rank(a: RuleAction) -> (r: u8)
    ensures
        r == strength(a),
{
    match a {
        RuleAction::Allow => 0,
        RuleAction::Ask => 1,
        RuleAction::Deny => 2,
    }
}

/// Whether a list of tools, separated by `|`, names the tool.
pub fn tool_matches(list: &str, tool: &str) -> (r: bool)
    ensures
        r == tool_listed(list@, tool@),
{
    proof {
        reveal_strlit("|");
        assert("|"@.len() == 1);
    }
    let parts = split(list, "|");
    let mut i: usize = 0;
    assert(views(parts@) == split_list(list@, "|"@));
    while i < parts.len()
        invariant
            i <= parts@.len(),
            views(parts@) == split_list(list@, "|"@),
            forall|k: int| 0 <= k < i ==> trimmed(#[trigger] split_list(list@, "|"@)[k]) != tool@,
        decreases parts@.len() - i,
    {
        let t = trim(parts[i].as_str());
        assert(split_list(list@, "|"@)[i as int] == parts@[i as int]@);
        if same(t.as_str(), tool) {
            return true;
        }
        i = i + 1;
    }
    false
}

fn pattern_matches(pattern: &str, key: Option<&PermissionKey>) -> (r: bool)
    ensures
        r == pattern_covers(pattern@, key_view(key)),
{
    match key {
        None => false,
        Some(PermissionKey::Domain { host }) => {
            same(host.as_str(), pattern) || {
                let suffix = cat(".", pattern);
                ends_with(host.as_str(), suffix.as_str())
            }
        },
        Some(k) => {
            let s = k.pattern_string();
            glob_match(pattern, s.as_str())
        },
    }
}

// ---- shell commands ----

/// Programs that hand their arguments on to be run.
pub open spec fn hands_on(command: Seq<Seq<char>>) -> bool {
    if command.len() == 0 {
        false
    } else if command[0] == "sudo"@ || command[0] == "env"@ || command[0] == "xargs"@ {
        true
    } else if command[0] == "find"@ {
        exists|i: int| 0 <= i < command.len() && "-exec"@.is_prefix_of(#[trigger] command[i])
    } else if command[0] == "git"@ {
        exists|i: int| 0 <= i < command.len() && #[trigger] command[i] == "-c"@
    } else {
        false
    }
}

/// The names of shells.
pub open spec fn is_shell(s: Seq<char>) -> bool {
    s == "bash"@ || s == "sh"@ || s == "zsh"@ || s == "dash"@ || s == "ash"@ || s == "/bin/bash"@
        || s == "/bin/sh"@
}

/// The options that a script follows.
pub open spec fn is_script_option(s: Seq<char>) -> bool {
    s == "-c"@ || s == "-lc"@
}

/// The index of the first option that a script follows, or the length.
pub open spec fn script_option(command: Seq<Seq<char>>) -> int
    decreases command.len(),
{
    if command.len() == 0 {
        0
    } else if is_script_option(command[0]) {
        0
    } else {
        1 + script_option(command.skip(1))
    }
}

/// The script that a shell is given.
pub open spec fn script_of(command: Seq<Seq<char>>) -> Option<Seq<char>> {
    if command.len() > 0 && is_shell(command[0]) && script_option(command) + 1 < command.len() {
        Some(command[script_option(command) + 1])
    } else {
        None
    }
}

/// Whether a script substitutes commands or variables.
pub open spec fn substitutes(script: Seq<char>) -> bool {
    occurs(script, "$("@) || occurs(script, "`"@) || occurs(script, "${"@)
}

/// Whether a script quotes text while it also holds what may separate commands.
pub open spec fn quotes_and_separates(script: Seq<char>) -> bool {
    (script.contains('"') || script.contains('\'')) && (script.contains('&') || script.contains('|')
        || script.contains(';') || script.contains('\n'))
}

/// Whether a script is not taken apart.
pub open spec fn is_obscure(script: Seq<char>) -> bool {
    substitutes(script) || quotes_and_separates(script)
}

/// How many characters at the head of `s` separate two commands.
pub open spec fn separator(s: Seq<char>) -> int {
    if s.len() > 1 && s[0] == '&' && s[1] == '&' {
        2
    } else if s.len() > 1 && s[0] == '|' && s[1] == '|' {
        2
    } else if s.len() > 0 && (s[0] == '|' || s[0] == ';' || s[0] == '\n') {
        1
    } else {
        0
    }
}

/// The parts of `s` between separators, with `open` before the first.
pub open spec fn parts_after(open: Seq<char>, s: Seq<char>) -> Seq<Seq<char>>
    decreases s.len(),
{
    if s.len() == 0 {
        seq![open]
    } else if separator(s) > 0 {
        seq![open] + parts_after(Seq::empty(), s.skip(separator(s)))
    } else {
        parts_after(open.push(s[0]), s.skip(1))
    }
}

/// The parts that are more than white space, trimmed.
pub open spec fn filled(s: Seq<Seq<char>>) -> Seq<Seq<char>>
    decreases s.len(),
{
    if s.len() == 0 {
        Seq::empty()
    } else if trimmed(s.last()).len() == 0 {
        filled(s.drop_last())
    } else {
        filled(s.drop_last()).push(trimmed(s.last()))
    }
}

/// The commands of a script.
pub open spec fn commands_of(script: Seq<char>) -> Seq<Seq<char>> {
    filled(parts_after(Seq::empty(), script))
}

/// Whether a command is asked about whatever the rules say.
pub open spec fn must_ask(command: Seq<Seq<char>>) -> bool {
    hands_on(command) || (script_of(command) matches Some(s) && is_obscure(s))
}

/// The commands that a command line runs.
pub open spec fn segments_of(command: Seq<Seq<char>>) -> Seq<Seq<char>> {
    match script_of(command) {
        Some(s) => commands_of(s),
        None => seq![joined(command, " "@)],
    }
}

/// What a command line comes to.
pub struct BashAnalysis {
    /// The commands that it runs.
    pub segments: Vec<String>,
    /// It cannot be taken apart.
    pub unanalyzable: bool,
    /// It hands a command on to another program.
    pub dangerous_wrapper: bool,
}

fn any_same(v: &Vec<String>, s: &str) -> (r: bool)
    ensures
        r == exists|i: int| 0 <= i < v@.len() && #[trigger] views(v@)[i] == s@,
{
    let mut i: usize = 0;
    while i < v.len()
        invariant
            i <= v@.len(),
            forall|k: int| 0 <= k < i ==> #[trigger] views(v@)[k] != s@,
        decreases v@.len() - i,
    {
        assert(views(v@)[i as int] == v@[i as int]@);
        if same(v[i].as_str(), s) {
            return true;
        }
        i = i + 1;
    }
    false
}

fn any_prefixed(v: &Vec<String>, s: &str) -> (r: bool)
    ensures
        r == exists|i: int| 0 <= i < v@.len() && s@.is_prefix_of(#[trigger] views(v@)[i]),
{
    let mut i: usize = 0;
    while i < v.len()
        invariant
            i <= v@.len(),
            forall|k: int| 0 <= k < i ==> !s@.is_prefix_of(#[trigger] views(v@)[k]),
        decreases v@.len() - i,
    {
        assert(views(v@)[i as int] == v@[i as int]@);
        if starts_with(v[i].as_str(), s) {
            return true;
        }
        i = i + 1;
    }
    false
}

/// Whether a command hands its arguments on to be run.
pub fn is_dangerous_wrapper(command: &Vec<String>) -> (r: bool)
    ensures
        r == hands_on(views(command@)),
{
    if command.len() == 0 {
        return false;
    }
    let first = command[0].as_str();
    assert(views(command@)[0] == first@);
    if same(first, "sudo") || same(first, "env") || same(first, "xargs") {
        true
    } else if same(first, "find") {
        any_prefixed(command, "-exec")
    } else if same(first, "git") {
        any_same(command, "-c")
    } else {
        false
    }
}

proof fn lemma_script_option(command: Seq<Seq<char>>, i: int)
    requires
        0 <= i <= command.len(),
        forall|k: int| 0 <= k < i ==> !is_script_option(#[trigger] command[k]),
        i < command.len() ==> is_script_option(command[i]),
    ensures
        script_option(command) == i,
    decreases i,
{
    if i > 0 {
        let t = command.skip(1);
        assert forall|k: int| 0 <= k < i - 1 implies !is_script_option(#[trigger] t[k]) by {
            assert(t[k] == command[k + 1]);
        }
        lemma_script_option(t, i - 1);
    }
}

/// The script that a shell is given.
pub fn extract_shell_script(command: &Vec<String>) -> (r: Option<String>)
    ensures
        match r {
            Some(s) => script_of(views(command@)) == Some(s@),
            None => script_of(views(command@)) is None,
        },
{
    if command.len() == 0 {
        return None;
    }
    let first = command[0].as_str();
    assert(views(command@)[0] == first@);
    if !(same(first, "bash") || same(first, "sh") || same(first, "zsh") || same(first, "dash")
        || same(first, "ash") || same(first, "/bin/bash") || same(first, "/bin/sh")) {
        return None;
    }
    let n: usize = command.len();
    let mut i: usize = 0;
    let ghost c = views(command@);
    while i < n
        invariant
            i <= n,
            n == command@.len(),
            c == views(command@),
            c.len() > 0,
            is_shell(c[0]),
            forall|k: int| 0 <= k < i ==> !is_script_option(#[trigger] c[k]),
        decreases n - i,
    {
        assert(c[i as int] == command@[i as int]@);
        if same(command[i].as_str(), "-c") || same(command[i].as_str(), "-lc") {
            proof {
                lemma_script_option(c, i as int);
            }
            if i + 1 < n {
                return Some(command[i + 1].clone());
            }
            return None;
        }
        i = i + 1;
    }
    proof {
        lemma_script_option(c, n as int);
    }
    None
}

fn has_char(s: &Vec<char>, c: char) -> (r: bool)
    ensures
        r == s@.contains(c),
{
    let mut i: usize = 0;
    while i < s.len()
        invariant
            i <= s@.len(),
            forall|k: int| 0 <= k < i ==> s@[k] != c,
        decreases s@.len() - i,
    {
        if s[i] == c {
            assert(s@.contains(s@[i as int]));
            return true;
        }
        i = i + 1;
    }
    false
}

/// The parts of a script between separators.
fn script_parts(chars: &Vec<char>) -> (r: Vec<String>)
    ensures
        views(r@) == parts_after(Seq::empty(), chars@),
{
    let mut segs: Vec<String> = Vec::new();
    let mut cur = String::new();
    let mut i: usize = 0;
    let n: usize = chars.len();
    assert(chars@.skip(0) =~= chars@);
    assert(views(segs@) + parts_after(cur@, chars@.skip(0)) =~= parts_after(Seq::empty(), chars@));
    while i < n
        invariant
            i <= n,
            n == chars@.len(),
            views(segs@) + parts_after(cur@, chars@.skip(i as int)) == parts_after(
                Seq::empty(),
                chars@,
            ),
        decreases n - i,
    {
        let c = chars[i];
        let ghost rest = chars@.skip(i as int);
        let ghost before = segs@;
        let ghost open = cur@;
        let step: usize = if (c == '&' || c == '|') && i + 1 < n && chars[i + 1] == c {
            2
        } else if c == '|' || c == ';' || c == '\n' {
            1
        } else {
            0
        };
        assert(step as int == separator(rest)) by {
            if i + 1 < n {
                assert(rest[1] == chars@[i + 1]);
            }
        }
        if step > 0 {
            segs.push(cur);
            cur = String::new();
            i = i + step;
            proof {
                assert(rest.skip(step as int) =~= chars@.skip(i as int));
                assert(views(segs@) =~= views(before) + seq![open]);
                assert(views(segs@) + parts_after(Seq::empty(), chars@.skip(i as int)) =~= views(
                    before,
                ) + (seq![open] + parts_after(Seq::empty(), chars@.skip(i as int))));
            }
        } else {
            cur.push(c);
            i = i + 1;
            assert(rest.skip(1) =~= chars@.skip(i as int));
        }
    }
    let ghost before = segs@;
    let ghost open = cur@;
    segs.push(cur);
    assert(chars@.skip(n as int).len() == 0);
    assert(views(segs@) =~= views(before) + seq![open]);
    segs
}

/// The commands of a script, or word that it cannot be taken apart.
pub fn split_segments(script: &str) -> (r: (Vec<String>, bool))
    ensures
        r.1 == quotes_and_separates(script@),
        r.1 ==> r.0@.len() == 0,
        !r.1 ==> views(r.0@) == parts_after(Seq::empty(), script@),
{
    let chars = chars_of(script);
    let has_quote = has_char(&chars, '"') || has_char(&chars, '\'');
    let has_sep = has_char(&chars, '&') || has_char(&chars, '|') || has_char(&chars, ';')
        || has_char(&chars, '\n');
    if has_quote && has_sep {
        (Vec::new(), true)
    } else {
        (script_parts(&chars), false)
    }
}

fn keep_filled(parts: &Vec<String>) -> (r: Vec<String>)
    ensures
        views(r@) == filled(views(parts@)),
{
    let mut out: Vec<String> = Vec::new();
    let mut i: usize = 0;
    let ghost all = views(parts@);
    assert(views(out@) =~= filled(all.take(0)));
    while i < parts.len()
        invariant
            i <= parts@.len(),
            all == views(parts@),
            views(out@) == filled(all.take(i as int)),
        decreases parts@.len() - i,
    {
        let ghost before = out@;
        let t = trim(parts[i].as_str());
        assert(all.take(i + 1).drop_last() =~= all.take(i as int));
        assert(all.take(i + 1).last() == parts@[i as int]@);
        if !t.as_str().is_empty() {
            out.push(t);
            assert(views(out@) =~= views(before).push(t@));
        }
        i = i + 1;
    }
    assert(all.take(all.len() as int) =~= all);
    out
}

/// Take a command line apart.
pub fn analyze_bash(command: &Vec<String>) -> (r: BashAnalysis)
    ensures
        r.dangerous_wrapper == hands_on(views(command@)),
        r.unanalyzable == (script_of(views(command@)) matches Some(s) && is_obscure(s)),
        must_ask(views(command@)) == (r.dangerous_wrapper || r.unanalyzable),
        !r.unanalyzable ==> views(r.segments@) == segments_of(views(command@)),
        script_of(views(command@)) matches Some(s) ==> if substitutes(s) {
            views(r.segments@) == seq![joined(views(command@), " "@)]
        } else {
            quotes_and_separates(s) ==> r.segments@.len() == 0
        },
{
    let dangerous = is_dangerous_wrapper(command);
    match extract_shell_script(command) {
        Some(script) => {
            if contains(script.as_str(), "$(") || contains(script.as_str(), "`") || contains(
                script.as_str(),
                "${",
            ) {
                let mut segments: Vec<String> = Vec::new();
                segments.push(join(command, " "));
                assert(views(segments@) =~= seq![joined(views(command@), " "@)]);
                return BashAnalysis { segments, unanalyzable: true, dangerous_wrapper: dangerous };
            }
            let (parts, unanalyzable) = split_segments(script.as_str());
            let segments = keep_filled(&parts);
            assert(parts@.len() == 0 ==> views(parts@).len() == 0);
            assert(views(segments@).len() == segments@.len());
            BashAnalysis { segments, unanalyzable, dangerous_wrapper: dangerous }
        },
        None => {
            let mut segments: Vec<String> = Vec::new();
            segments.push(join(command, " "));
            assert(views(segments@) =~= seq![joined(views(command@), " "@)]);
            BashAnalysis { segments, unanalyzable: false, dangerous_wrapper: dangerous }
        },
    }
}

// ---- the engine ----

/// The model of `PermissionEngine`.
pub struct EngineView {
    pub mode: PermissionMode,
    pub rules: Seq<PermissionRuleView>,
    pub grants: Set<(Seq<char>, Seq<char>)>,
}

/// The strictest of several verdicts: deny if any denies, allow if all allow,
/// and ask otherwise.
pub open spec fn strictest(vs: Seq<Verdict>) -> Verdict {
    if vs.contains(Verdict::Deny) {
        Verdict::Deny
    } else if forall|i: int| 0 <= i < vs.len() ==> vs[i] == Verdict::Allow {
        Verdict::Allow
    } else {
        Verdict::Ask
    }
}

/// The rule that decides one command of a script.
pub open spec fn segment_winner(
    rules: Seq<PermissionRuleView>,
    tool: Seq<char>,
    segment: Seq<char>,
) -> Option<PermissionRuleView> {
    winner(rules, tool, Some(PermissionKeyView::Bash { command: words(segment) }))
}

/// The verdict on one command of a script.
pub open spec fn segment_verdict(
    rules: Seq<PermissionRuleView>,
    mode: PermissionMode,
    tool: Seq<char>,
    segment: Seq<char>,
) -> Verdict {
    match segment_winner(rules, tool, segment) {
        Some(r) => verdict_of(r.action),
        None => class_default(mode, class_of(tool)),
    }
}

/// The verdicts on the commands of a script.
pub open spec fn segment_verdicts(
    rules: Seq<PermissionRuleView>,
    mode: PermissionMode,
    tool: Seq<char>,
    segments: Seq<Seq<char>>,
) -> Seq<Verdict> {
    Seq::new(segments.len(), |i: int| segment_verdict(rules, mode, tool, segments[i]))
}

/// The first rule that decides a command of a script.
pub open spec fn first_winner(
    rules: Seq<PermissionRuleView>,
    tool: Seq<char>,
    segments: Seq<Seq<char>>,
) -> Option<PermissionRuleView>
    decreases segments.len(),
{
    if segments.len() == 0 {
        None
    } else {
        match first_winner(rules, tool, segments.drop_last()) {
            Some(r) => Some(r),
            None => segment_winner(rules, tool, segments.last()),
        }
    }
}

/// What rules are held against where a command line is at most one command: the
/// command of a script, or else the line itself.
pub open spec fn plain_key(command: Seq<Seq<char>>) -> PermissionKeyView {
    if script_of(command) is Some && segments_of(command).len() == 1 {
        PermissionKeyView::Bash { command: words(segments_of(command)[0]) }
    } else {
        PermissionKeyView::Bash { command }
    }
}

/// What the rules decide, if they do.
pub open spec fn by_rules(
    rules: Seq<PermissionRuleView>,
    mode: PermissionMode,
    tool: Seq<char>,
    key: Option<PermissionKeyView>,
) -> Option<DecisionView> {
    match key {
        Some(PermissionKeyView::Bash { command }) => {
            let segments = segments_of(command);
            if must_ask(command) {
                Some(
                    DecisionView {
                        verdict: Verdict::Ask,
                        source: VerdictSourceView::ModeDefault { mode },
                    },
                )
            } else if segments.len() <= 1 {
                ruling(winner(rules, tool, Some(plain_key(command))))
            } else {
                Some(
                    DecisionView {
                        verdict: strictest(segment_verdicts(rules, mode, tool, segments)),
                        source: match first_winner(rules, tool, segments) {
                            Some(rule) => VerdictSourceView::Rule { rule },
                            None => VerdictSourceView::ModeDefault { mode },
                        },
                    },
                )
            }
        },
        _ => ruling(winner(rules, tool, key)),
    }
}

/// What the engine decides: a grant allows, otherwise the rules decide, and
/// where they do not the mode does.
pub open spec fn decision(
    e: EngineView,
    tool: Seq<char>,
    key: Option<PermissionKeyView>,
) -> DecisionView {
    if key matches Some(k) && e.grants.contains((tool, key_text(k))) {
        DecisionView { verdict: Verdict::Allow, source: VerdictSourceView::SessionGrant }
    } else {
        match by_rules(e.rules, e.mode, tool, key) {
            Some(d) => d,
            None => DecisionView {
                verdict: class_default(e.mode, class_of(tool)),
                source: VerdictSourceView::ModeDefault { mode: e.mode },
            },
        }
    }
}

/// A mode, rules, and what the user has granted for the session.
pub struct PermissionEngine {
    mode: PermissionMode,
    rules: Vec<PermissionRule>,
    session_grants: Vec<(String, String)>,
}

/// The grants that a list holds.
pub open spec fn grant_set(s: Seq<(String, String)>) -> Set<(Seq<char>, Seq<char>)>
    decreases s.len(),
{
    if s.len() == 0 {
        Set::empty()
    } else {
        grant_set(s.drop_last()).insert((s.last().0@, s.last().1@))
    }
}

impl DeepView for PermissionEngine {
    type V = EngineView;

    closed spec fn deep_view(&self) -> EngineView {
        EngineView {
            mode: self.mode,
            rules: self.rules.deep_view(),
            grants: grant_set(self.session_grants@),
        }
    }
}

impl PermissionEngine {
    /// No grant is kept twice.
    pub closed spec fn inv(&self) -> bool {
        forall|i: int, j: int|
            0 <= i < j < self.session_grants@.len() ==> (
            #[trigger] self.session_grants@[i].0@ != #[trigger] self.session_grants@[j].0@
                || self.session_grants@[i].1@ != self.session_grants@[j].1@)
    }

    /// An engine without grants.
    pub fn new(mode: PermissionMode, rules: Vec<PermissionRule>) -> (r: Self)
        ensures
            r.inv(),
            r.deep_view() == (EngineView { mode, rules: rules.deep_view(), grants: Set::empty() }),
    {
        PermissionEngine { mode, rules, session_grants: Vec::new() }
    }

    /// The mode.
    pub fn mode(&self) -> (r: PermissionMode)
        ensures
            r == self.deep_view().mode,
    {
        self.mode
    }

    /// Change the mode.
    pub fn set_mode(&mut self, mode: PermissionMode)
        requires
            old(self).inv(),
        ensures
            final(self).inv(),
            final(self).deep_view() == (EngineView { mode, ..old(self).deep_view() }),
    {
        self.mode = mode;
    }

    /// Add a rule, behind the others.
    pub fn add_rule(&mut self, rule: PermissionRule)
        requires
            old(self).inv(),
        ensures
            final(self).inv(),
            final(self).deep_view() == (EngineView {
                rules: old(self).deep_view().rules.push(rule.deep_view()),
                ..old(self).deep_view()
            }),
    {
        self.rules.push(rule);
        assert(self.rules.deep_view() =~= old(self).rules.deep_view().push(rule.deep_view()));
    }

    fn granted(&self, tool: &str, pattern: &str) -> (r: bool)
        ensures
            r == self.deep_view().grants.contains((tool@, pattern@)),
            !r ==> forall|k: int|
                0 <= k < self.session_grants@.len() ==> (#[trigger] self.session_grants@[k].0@
                    != tool@ || self.session_grants@[k].1@ != pattern@),
    {
        let n: usize = self.session_grants.len();
        let mut i: usize = 0;
        assert(self.session_grants@.take(0) =~= Seq::<(String, String)>::empty());
        while i < n
            invariant
                i <= n,
                n == self.session_grants@.len(),
                !grant_set(self.session_grants@.take(i as int)).contains((tool@, pattern@)),
                forall|k: int|
                    0 <= k < i ==> (#[trigger] self.session_grants@[k].0@ != tool@
                        || self.session_grants@[k].1@ != pattern@),
            decreases n - i,
        {
            assert(self.session_grants@.take(i + 1).drop_last() =~= self.session_grants@.take(
                i as int,
            ));
            if same(self.session_grants[i].0.as_str(), tool) && same(
                self.session_grants[i].1.as_str(),
                pattern,
            ) {
                proof {
                    lemma_grant_listed(self.session_grants@, i as int);
                }
                return true;
            }
            i = i + 1;
        }
        assert(self.session_grants@.take(n as int) =~= self.session_grants@);
        false
    }

    /// Allow a tool's calls with this text for the rest of the session.
    pub fn grant(&mut self, tool: &str, pattern: &str)
        requires
            old(self).inv(),
        ensures
            final(self).inv(),
            final(self).deep_view() == (EngineView {
                grants: old(self).deep_view().grants.insert((tool@, pattern@)),
                ..old(self).deep_view()
            }),
    {
        if self.granted(tool, pattern) {
            assert(self.deep_view().grants.insert((tool@, pattern@)) =~= self.deep_view().grants);
        } else {
            let ghost before = self.session_grants@;
            self.session_grants.push((tool.to_owned(), pattern.to_owned()));
            assert(self.session_grants@.drop_last() =~= before);
            assert forall|i: int, j: int| 0 <= i < j < self.session_grants@.len() implies (
            #[trigger] self.session_grants@[i].0@ != #[trigger] self.session_grants@[j].0@
                || self.session_grants@[i].1@ != self.session_grants@[j].1@) by {
                assert(self.session_grants@[i] == before[i]);
                if j < before.len() {
                    assert(self.session_grants@[j] == before[j]);
                }
            }
        }
    }

    fn match_one(&self, tool: &str, key: Option<&PermissionKey>) -> (r: Option<PermissionRule>)
        ensures
            match r {
                Some(x) => winner(self.deep_view().rules, tool@, key_view(key)) == Some(
                    x.deep_view(),
                ),
                None => winner(self.deep_view().rules, tool@, key_view(key)) is None,
            },
    {
        let mut best: Option<usize> = None;
        let mut i: usize = 0;
        let ghost rules = self.deep_view().rules;
        while i < self.rules.len()
            invariant
                i <= self.rules@.len(),
                rules == self.rules.deep_view(),
                match best {
                    Some(b) => b < i && winner(rules.take(i as int), tool@, key_view(key)) == Some(
                        rules[b as int],
                    ),
                    None => winner(rules.take(i as int), tool@, key_view(key)) is None,
                },
            decreases self.rules@.len() - i,
        {
            let rule = &self.rules[i];
            assert(rules.take(i + 1).drop_last() =~= rules.take(i as int));
            assert(rules.take(i + 1).last() == rule.deep_view());
            if tool_matches(rule.tool.as_str(), tool) && pattern_matches(
                rule.pattern.as_str(),
                key,
            ) {
                match best {
                    None => {
                        best = Some(i);
                    },
                    Some(b) => {
                        let held = &self.rules[b];
                        let x: u8 = rank(rule.action);
                        let y: u8 = rank(held.action);
                        let a: usize = bytes_len(rule.pattern.as_str());
                        let c: usize = bytes_len(held.pattern.as_str());
                        if x > y || (x == y && a > c) {
                            best = Some(i);
                        }
                    },
                }
            }
            i = i + 1;
        }
        assert(rules.take(rules.len() as int) =~= rules);
        match best {
            Some(b) => Some(self.rules[b].dup()),
            None => None,
        }
    }

    fn decide_by_rules(
        &self,
        mode: PermissionMode,
        tool: &str,
        key: Option<&PermissionKey>,
    ) -> (r: Option<Decision>)
        ensures
            match r {
                Some(d) => by_rules(self.deep_view().rules, mode, tool@, key_view(key)) == Some(
                    d.deep_view(),
                ),
                None => by_rules(self.deep_view().rules, mode, tool@, key_view(key)) is None,
            },
    {
        match key {
            Some(PermissionKey::Bash { command }) => {
                let analysis = analyze_bash(command);
                if analysis.dangerous_wrapper || analysis.unanalyzable {
                    return Some(
                        Decision {
                            verdict: Verdict::Ask,
                            source: VerdictSource::ModeDefault { mode },
                        },
                    );
                }
                let ghost segs = views(analysis.segments@);
                if analysis.segments.len() > 1 {
                    let (verdict, rule) = self.decide_segments(mode, tool, &analysis.segments);
                    return Some(
                        Decision {
                            verdict,
                            source: match rule {
                                Some(rule) => VerdictSource::Rule { rule },
                                None => VerdictSource::ModeDefault { mode },
                            },
                        },
                    );
                }
                if analysis.segments.len() == 1 && extract_shell_script(command).is_some() {
                    assert(segs[0] == analysis.segments@[0]@);
                    let words = split_whitespace(analysis.segments[0].as_str());
                    return self.rule_on(tool, Some(&PermissionKey::Bash { command: words }));
                }
            },
            _ => {},
        }
        self.rule_on(tool, key)
    }

    fn rule_on(&self, tool: &str, key: Option<&PermissionKey>) -> (r: Option<Decision>)
        ensures
            match r {
                Some(d) => ruling(winner(self.deep_view().rules, tool@, key_view(key))) == Some(
                    d.deep_view(),
                ),
                None => ruling(winner(self.deep_view().rules, tool@, key_view(key))) is None,
            },
    {
        match self.match_one(tool, key) {
            Some(rule) => Some(
                Decision {
                    verdict: action_to_verdict(rule.action),
                    source: VerdictSource::Rule { rule },
                },
            ),
            None => None,
        }
    }

    fn decide_segments(&self, mode: PermissionMode, tool: &str, segments: &Vec<String>) -> (r: (
        Verdict,
        Option<PermissionRule>,
    ))
        ensures
            r.0 == strictest(
                segment_verdicts(self.deep_view().rules, mode, tool@, views(segments@)),
            ),
            match r.1 {
                Some(x) => first_winner(self.deep_view().rules, tool@, views(segments@)) == Some(
                    x.deep_view(),
                ),
                None => first_winner(self.deep_view().rules, tool@, views(segments@)) is None,
            },
    {
        let mut denied = false;
        let mut asked = false;
        let mut first_rule: Option<PermissionRule> = None;
        let mut i: usize = 0;
        let ghost rules = self.deep_view().rules;
        let ghost segs = views(segments@);
        let ghost vs = segment_verdicts(rules, mode, tool@, segs);
        while i < segments.len()
            invariant
                i <= segments@.len(),
                rules == self.deep_view().rules,
                segs == views(segments@),
                vs == segment_verdicts(rules, mode, tool@, segs),
                denied == exists|k: int| 0 <= k < i && #[trigger] vs[k] == Verdict::Deny,
                asked == exists|k: int| 0 <= k < i && #[trigger] vs[k] == Verdict::Ask,
                match first_rule {
                    Some(x) => first_winner(rules, tool@, segs.take(i as int)) == Some(
                        x.deep_view(),
                    ),
                    None => first_winner(rules, tool@, segs.take(i as int)) is None,
                },
            decreases segments@.len() - i,
        {
            let seg_argv = split_whitespace(segments[i].as_str());
            let seg_key = PermissionKey::Bash { command: seg_argv };
            assert(segs.take(i + 1).drop_last() =~= segs.take(i as int));
            let ghost seen = vs[i as int];
            let v = match self.match_one(tool, Some(&seg_key)) {
                Some(rule) => {
                    let v = action_to_verdict(rule.action);
                    if first_rule.is_none() {
                        first_rule = Some(rule);
                    }
                    v
                },
                None => mode_default(mode, tool),
            };
            assert(v == seen);
            match v {
                Verdict::Deny => {
                    denied = true;
                },
                Verdict::Ask => {
                    asked = true;
                },
                Verdict::Allow => {},
            }
            i = i + 1;
        }
        assert(segs.take(segs.len() as int) =~= segs);
        let verdict = if denied {
            Verdict::Deny
        } else if asked {
            Verdict::Ask
        } else {
            Verdict::Allow
        };
        proof {
            if !denied {
                assert(!vs.contains(Verdict::Deny));
            }
        }
        (verdict, first_rule)
    }

    /// Decide a call.
    pub fn decide(&self, tool: &str, key: Option<&PermissionKey>) -> (r: Decision)
        ensures
            r.deep_view() == decision(self.deep_view(), tool@, key_view(key)),
    {
        match key {
            Some(k) => {
                let pat = k.pattern_string();
                if self.granted(tool, pat.as_str()) {
                    return Decision {
                        verdict: Verdict::Allow,
                        source: VerdictSource::SessionGrant,
                    };
                }
            },
            None => {},
        }
        match self.decide_by_rules(self.mode, tool, key) {
            Some(d) => d,
            None => Decision {
                verdict: mode_default(self.mode, tool),
                source: VerdictSource::ModeDefault { mode: self.mode },
            },
        }
    }
}

proof fn lemma_grant_listed(s: Seq<(String, String)>, i: int)
    requires
        0 <= i < s.len(),
    ensures
        grant_set(s).contains((s[i].0@, s[i].1@)),
    decreases s.len(),
{
    if i < s.len() - 1 {
        lemma_grant_listed(s.drop_last(), i);
    }
}

// ---- approval ----

/// A request for the user's approval.
#[derive(Debug, PartialEq)]
pub struct ApprovalRequest {
    pub call_id: CallId,
    pub tool: String,
    pub kind: ApprovalKind,
    pub detail: ApprovalDetail,
}

/// What approval of a tool is about.
pub open spec fn kind_of(tool: Seq<char>) -> ApprovalKind {
    if tool == "Bash"@ {
        ApprovalKind::Exec
    } else if tool == "Write"@ || tool == "Edit"@ || tool == "Patch"@ {
        ApprovalKind::Patch
    } else {
        ApprovalKind::Tool
    }
}

/// An allow rule that would cover the key.
pub open spec fn suggestion(tool: Seq<char>, key: Option<PermissionKeyView>) -> Option<Seq<char>> {
    match key {
        None => None,
        Some(PermissionKeyView::Bash { command }) => Some(
            "Bash("@ + joined(command, " "@) + " *)"@,
        ),
        Some(PermissionKeyView::Path { path }) => Some(tool + "("@ + path + ")"@),
        Some(PermissionKeyView::Domain { host }) => Some("WebFetch("@ + host + ")"@),
    }
}

/// What a request for approval shows.
pub open spec fn detail_for(
    tool: Seq<char>,
    key: Option<PermissionKeyView>,
    rule_matched: Option<Seq<char>>,
) -> ApprovalDetailView {
    ApprovalDetailView {
        rule_matched,
        command: match key {
            Some(PermissionKeyView::Bash { command }) => Some(command),
            _ => None,
        },
        files: match key {
            Some(PermissionKeyView::Path { path }) => Some(seq![path]),
            _ => None,
        },
        tool: Some(tool),
        args_summary: None,
        pattern_suggestion: suggestion(tool, key),
    }
}

/// What approval of a tool is about.
pub fn approval_kind(tool: &str) -> (r: ApprovalKind)
    ensures
        r == kind_of(tool@),
{
    if same(tool, "Bash") {
        ApprovalKind::Exec
    } else if same(tool, "Write") || same(tool, "Edit") || same(tool, "Patch") {
        ApprovalKind::Patch
    } else {
        ApprovalKind::Tool
    }
}

/// An allow rule that would cover the key.
pub fn pattern_suggestion(tool: &str, key: Option<&PermissionKey>) -> (r: Option<String>)
    ensures
        r.deep_view() == suggestion(tool@, key_view(key)),
{
    match key {
        None => None,
        Some(PermissionKey::Bash { command }) => {
            let c = join(command, " ");
            Some(cat3("Bash(", c.as_str(), " *)"))
        },
        Some(PermissionKey::Path { path }) => {
            let head = cat3(tool, "(", path.as_str());
            Some(cat(head.as_str(), ")"))
        },
        Some(PermissionKey::Domain { host }) => Some(cat3("WebFetch(", host.as_str(), ")")),
    }
}

/// The request for approval of a call.
pub fn approval_request(
    call_id: CallId,
    tool: &str,
    key: Option<&PermissionKey>,
    rule_matched: Option<&str>,
) -> (r: ApprovalRequest)
    ensures
        r.call_id.deep_view() == call_id.deep_view(),
        r.tool@ == tool@,
        r.kind == kind_of(tool@),
        r.detail.deep_view() == detail_for(
            tool@,
            key_view(key),
            match rule_matched {
                Some(s) => Some(s@),
                None => None,
            },
        ),
{
    let command = match key {
        Some(PermissionKey::Bash { command }) => {
            let c = command.dup();
            assert(c.deep_view() =~= views(command@));
            Some(c)
        },
        _ => None,
    };
    let files = match key {
        Some(PermissionKey::Path { path }) => {
            let mut v: Vec<String> = Vec::new();
            v.push(path.clone());
            assert(v.deep_view() =~= seq![path@]);
            Some(v)
        },
        _ => None,
    };
    ApprovalRequest {
        call_id,
        tool: tool.to_owned(),
        kind: approval_kind(tool),
        detail: ApprovalDetail {
            rule_matched: match rule_matched {
                Some(s) => Some(s.to_owned()),
                None => None,
            },
            command,
            files,
            tool: Some(tool.to_owned()),
            args_summary: None,
            pattern_suggestion: pattern_suggestion(tool, key),
        },
    }
}

// ---- laws ----

/// A grant allows every call of its tool with its text, whatever the mode and the
/// rules.
pub proof fn law_grant_allows(e: EngineView, tool: Seq<char>, key: PermissionKeyView)
    ensures
        decision(
            EngineView { grants: e.grants.insert((tool, key_text(key))), ..e },
            tool,
            Some(key),
        ) == (DecisionView { verdict: Verdict::Allow, source: VerdictSourceView::SessionGrant }),
{
}

/// A grant changes no decision but the ones that it is for.
pub proof fn law_grant_is_narrow(
    e: EngineView,
    granted: (Seq<char>, Seq<char>),
    tool: Seq<char>,
    key: Option<PermissionKeyView>,
)
    requires
        !(key matches Some(k) && (tool, key_text(k)) == granted),
    ensures
        decision(EngineView { grants: e.grants.insert(granted), ..e }, tool, key) == decision(
            e,
            tool,
            key,
        ),
{
}

/// The rule that decides speaks of the call, and no rule that speaks of the call
/// outranks it; of equals it is the first.
pub proof fn law_winner_is_strongest(
    rules: Seq<PermissionRuleView>,
    tool: Seq<char>,
    key: Option<PermissionKeyView>,
)
    ensures
        match winner(rules, tool, key) {
            Some(w) => exists|i: int|
                {
                    &&& 0 <= i < rules.len()
                    &&& #[trigger] rules[i] == w
                    &&& rule_hits(w, tool, key)
                    &&& forall|j: int|
                        0 <= j < rules.len() && rule_hits(#[trigger] rules[j], tool, key)
                            ==> !outranks(rules[j], w) && (j < i ==> outranks(w, rules[j]))
                },
            None => forall|j: int|
                0 <= j < rules.len() ==> !rule_hits(#[trigger] rules[j], tool, key),
        },
    decreases rules.len(),
{
    if rules.len() > 0 {
        let t = rules.drop_last();
        let last = rules.last();
        law_winner_is_strongest(t, tool, key);
        assert forall|j: int| 0 <= j < rules.len() - 1 implies #[trigger] rules[j] == t[j] by {}
        match winner(t, tool, key) {
            None => {
                if rule_hits(last, tool, key) {
                    assert(rules[rules.len() - 1] == last);
                }
            },
            Some(b) => {
                let i = choose|i: int|
                    {
                        &&& 0 <= i < t.len()
                        &&& #[trigger] t[i] == b
                        &&& rule_hits(b, tool, key)
                        &&& forall|j: int|
                            0 <= j < t.len() && rule_hits(#[trigger] t[j], tool, key) ==> !outranks(
                                t[j],
                                b,
                            ) && (j < i ==> outranks(b, t[j]))
                    };
                if rule_hits(last, tool, key) && outranks(last, b) {
                    assert(rules[rules.len() - 1] == last);
                    assert forall|j: int|
                        0 <= j < rules.len() && rule_hits(
                            #[trigger] rules[j],
                            tool,
                            key,
                        ) implies !outranks(rules[j], last) && (j < rules.len() - 1 ==> outranks(
                        last,
                        rules[j],
                    )) by {
                        if j < rules.len() - 1 {
                            assert(rules[j] == t[j]);
                        }
                    }
                } else {
                    assert(rules[i] == b);
                    assert forall|j: int|
                        0 <= j < rules.len() && rule_hits(
                            #[trigger] rules[j],
                            tool,
                            key,
                        ) implies !outranks(rules[j], b) && (j < i ==> outranks(b, rules[j])) by {
                        if j < rules.len() - 1 {
                            assert(rules[j] == t[j]);
                        }
                    }
                }
            },
        }
    }
}

/// A deny rule that speaks of a call denies it, whatever other rules allow. (Shell
/// scripts have a law of their own.)
pub proof fn law_deny_beats_all(
    e: EngineView,
    tool: Seq<char>,
    key: PermissionKeyView,
    i: int,
)
    requires
        0 <= i < e.rules.len(),
        e.rules[i].action == RuleAction::Deny,
        rule_hits(e.rules[i], tool, Some(key)),
        !e.grants.contains((tool, key_text(key))),
        key matches PermissionKeyView::Bash { command } ==> !must_ask(command) && script_of(
            command,
        ) is None,
    ensures
        decision(e, tool, Some(key)).verdict == Verdict::Deny,
{
    law_winner_is_strongest(e.rules, tool, Some(key));
    assert(rule_hits(e.rules[i], tool, Some(key)));
}

/// A deny rule that speaks of one command of a script denies the script, whatever
/// other rules allow and however many commands there are.
pub proof fn law_deny_reaches_into_scripts(
    e: EngineView,
    tool: Seq<char>,
    command: Seq<Seq<char>>,
    k: int,
    i: int,
)
    requires
        script_of(command) is Some,
        !must_ask(command),
        0 <= k < segments_of(command).len(),
        0 <= i < e.rules.len(),
        e.rules[i].action == RuleAction::Deny,
        rule_hits(
            e.rules[i],
            tool,
            Some(PermissionKeyView::Bash { command: words(segments_of(command)[k]) }),
        ),
        !e.grants.contains((tool, joined(command, " "@))),
    ensures
        decision(e, tool, Some(PermissionKeyView::Bash { command })).verdict == Verdict::Deny,
{
    let s = segments_of(command);
    let key = PermissionKeyView::Bash { command: words(s[k]) };
    law_winner_is_strongest(e.rules, tool, Some(key));
    assert(rule_hits(e.rules[i], tool, Some(key)));
    if s.len() > 1 {
        let vs = segment_verdicts(e.rules, e.mode, tool, s);
        assert(vs[k] == Verdict::Deny);
        assert(vs.contains(Verdict::Deny));
    }
}

/// A command that hands its arguments on, or a script that cannot be taken apart,
/// is asked about whatever the mode and the rules, unless it was granted.
pub proof fn law_opaque_commands_are_asked(e: EngineView, tool: Seq<char>, command: Seq<Seq<char>>)
    requires
        must_ask(command),
        !e.grants.contains((tool, joined(command, " "@))),
    ensures
        decision(e, tool, Some(PermissionKeyView::Bash { command })).verdict == Verdict::Ask,
{
}

/// A script of several commands is allowed only if every command is, and denied
/// if any is.
pub proof fn law_script_takes_strictest(
    e: EngineView,
    tool: Seq<char>,
    command: Seq<Seq<char>>,
)
    requires
        !must_ask(command),
        segments_of(command).len() > 1,
        !e.grants.contains((tool, joined(command, " "@))),
    ensures
        ({
            let d = decision(e, tool, Some(PermissionKeyView::Bash { command })).verdict;
            let s = segments_of(command);
            &&& d == Verdict::Allow <==> forall|i: int|
                0 <= i < s.len() ==> segment_verdict(e.rules, e.mode, tool, #[trigger] s[i])
                    == Verdict::Allow
            &&& d == Verdict::Deny <==> exists|i: int|
                0 <= i < s.len() && segment_verdict(e.rules, e.mode, tool, #[trigger] s[i])
                    == Verdict::Deny
        }),
{
    let s = segments_of(command);
    let vs = segment_verdicts(e.rules, e.mode, tool, s);
    assert forall|i: int| 0 <= i < s.len() implies #[trigger] vs[i] == segment_verdict(
        e.rules,
        e.mode,
        tool,
        s[i],
    ) by {}
    if exists|i: int|
        0 <= i < s.len() && segment_verdict(e.rules, e.mode, tool, #[trigger] s[i])
            == Verdict::Deny {
        let i = choose|i: int|
            0 <= i < s.len() && segment_verdict(e.rules, e.mode, tool, #[trigger] s[i])
                == Verdict::Deny;
        assert(vs[i] == Verdict::Deny);
        assert(vs.contains(Verdict::Deny));
    } else {
        assert(!vs.contains(Verdict::Deny)) by {
            if vs.contains(Verdict::Deny) {
                let i = choose|i: int| 0 <= i < vs.len() && vs[i] == Verdict::Deny;
                assert(segment_verdict(e.rules, e.mode, tool, s[i]) == Verdict::Deny);
            }
        }
        if forall|i: int|
            0 <= i < s.len() ==> segment_verdict(e.rules, e.mode, tool, #[trigger] s[i])
                == Verdict::Allow {
            assert(forall|i: int| 0 <= i < vs.len() ==> vs[i] == Verdict::Allow);
        } else {
            let i = choose|i: int|
                0 <= i < s.len() && segment_verdict(e.rules, e.mode, tool, #[trigger] s[i])
                    != Verdict::Allow;
            assert(vs[i] != Verdict::Allow);
        }
    }
}

/// Where neither a grant nor a rule speaks of a call, the mode decides.
pub proof fn law_mode_decides_the_rest(e: EngineView, tool: Seq<char>, key: Option<
    PermissionKeyView,
>)
    requires
        !(key matches Some(k) && e.grants.contains((tool, key_text(k)))),
        by_rules(e.rules, e.mode, tool, key) is None,
    ensures
        decision(e, tool, key).verdict == class_default(e.mode, class_of(tool)),
{
}

/// In plan mode, a file tool other than reading is denied unless a rule or a
/// grant speaks of the call; what no rule speaks of is never allowed.
pub proof fn law_plan_changes_nothing(e: EngineView, tool: Seq<char>, key: Option<
    PermissionKeyView,
>)
    requires
        e.mode == PermissionMode::Plan,
        class_of(tool) != ToolClass::Read,
        e.rules.len() == 0,
        e.grants == Set::<(Seq<char>, Seq<char>)>::empty(),
    ensures
        decision(e, tool, key).verdict != Verdict::Allow,
        !(key matches Some(PermissionKeyView::Bash { command }) && must_ask(command))
            ==> decision(e, tool, key).verdict == Verdict::Deny,
{
    if let Some(PermissionKeyView::Bash { command }) = key {
        let s = segments_of(command);
        if !must_ask(command) && s.len() > 1 {
            let vs = segment_verdicts(e.rules, e.mode, tool, s);
            assert(vs[0] == Verdict::Deny);
            assert(vs.contains(Verdict::Deny));
        }
    }
}

} // verus!
