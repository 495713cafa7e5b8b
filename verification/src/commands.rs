//! Slash commands: those that are built in, and templates in markdown files.
use vstd::prelude::*;
use vstd::string::*;

use crate::dup::Dup;
use crate::front::Named;
use crate::front::by_name;
use crate::front::first_line;
use crate::front::first_line_of;
use crate::front::front_and_body;
use crate::front::if_empty;
use crate::front::last_of_each;
use crate::front::last_said;
use crate::front::lists_each;
use crate::front::split_frontmatter;
use crate::front::value_of;
use crate::permission::PermissionMode;
use crate::providers::calls::or_text;
use crate::providers::calls::text_or;
use crate::text::after_prefix;
use crate::text::cat3;
use crate::text::chars_of;
use crate::text::cut;
use crate::text::lemma_run_len;
use crate::text::line_list;
use crate::text::replace;
use crate::text::replaced;
use crate::text::run_len;
use crate::text::same;
use crate::text::signed_decimal;
use crate::text::signed_decimal_of;
use crate::text::split_once;
use crate::text::string_of;
use crate::text::strip_prefix;
use crate::text::trim;
use crate::text::trimmed;
use crate::text::views;
use crate::tools::fs::lossy;
use crate::tools::fs::lossy_text;

verus! {

/// The model of `CommandDef`.
pub struct CommandDefView {
    pub name: Seq<char>,
    pub description: Seq<char>,
    pub argument_hint: Option<Seq<char>>,
    pub body: Seq<char>,
}

/// A command that a file describes.
#[derive(Debug, PartialEq)]
pub struct CommandDef {
    pub name: String,
    pub description: String,
    pub argument_hint: Option<String>,
    pub body: String,
}

impl DeepView for CommandDef {
    type V = CommandDefView;

    open spec fn deep_view(&self) -> CommandDefView {
        CommandDefView {
            name: self.name@,
            description: self.description@,
            argument_hint: self.argument_hint.deep_view(),
            body: self.body@,
        }
    }
}

impl Dup for CommandDef {
    fn dup(&self) -> (r: Self) {
        CommandDef {
            name: self.name.clone(),
            description: self.description.clone(),
            argument_hint: self.argument_hint.dup(),
            body: self.body.clone(),
        }
    }
}

impl Clone for CommandDef {
    fn clone(&self) -> (r: Self)
        ensures
            r.deep_view() == self.deep_view(),
    {
        self.dup()
    }
}

impl Named for CommandDef {
    open spec fn name_of(v: CommandDefView) -> Seq<char> {
        v.name
    }

    fn name(&self) -> (r: &str) {
        self.name.as_str()
    }
}

// ---- files ----

/// The command that a file describes.
pub open spec fn command_in(name: Seq<char>, text: Seq<char>) -> CommandDefView {
    let (head, body) = front_and_body(text);
    let all = line_list(head);
    CommandDefView {
        name,
        description: if_empty(or_text(last_said(all, "description:"@), ""@), first_line_of(body)),
        argument_hint: last_said(all, "argument_hint:"@),
        body,
    }
}

/// The command that a file describes.
pub fn parse_command(name: &str, text: &str) -> (r: CommandDef)
    ensures
        r.deep_view() == command_in(name@, text@),
{
    let (head, body) = split_frontmatter(text);
    let d = text_or(value_of(head.as_str(), "description:"), "");
    let description = if d.as_str().unicode_len() == 0 {
        first_line(body.as_str())
    } else {
        d
    };
    let argument_hint = value_of(head.as_str(), "argument_hint:");
    CommandDef { name: name.to_owned(), description, argument_hint, body }
}

/// The commands among those that were found, first the user's and then the
/// project's: under each name the last.
pub fn load_commands(found: &Vec<CommandDef>) -> (r: Vec<CommandDef>)
    ensures
        lists_each::<CommandDef>(r.deep_view(), by_name::<CommandDef>(found.deep_view())),
{
    last_of_each(found)
}

// ---- templates ----

/// The model of `Piece`.
pub enum PieceView {
    Text(Seq<char>),
    Command(Seq<char>),
}

/// A part of a template: text, or a command whose output goes there.
#[derive(Debug, PartialEq)]
pub enum Piece {
    Text(String),
    Command(String),
}

impl DeepView for Piece {
    type V = PieceView;

    open spec fn deep_view(&self) -> PieceView {
        match *self {
            Piece::Text(t) => PieceView::Text(t@),
            Piece::Command(c) => PieceView::Command(c@),
        }
    }
}

/// How long the command is that begins at an index, behind an exclamation mark and a
/// backtick and before another backtick; zero where none begins there.
pub open spec fn command_len(s: Seq<char>, i: int) -> nat {
    if 0 <= i && i + 2 <= s.len() && s[i] == '!' && s[i + 1] == '`' {
        let n = run_len(s.skip(i + 2), '`');
        if i + 2 + n < s.len() {
            n
        } else {
            0
        }
    } else {
        0
    }
}

/// The parts of a template from `from` on, where the search for a command goes on at
/// `i`.
pub open spec fn pieces_from(s: Seq<char>, from: int, i: int) -> Seq<PieceView>
    decreases s.len() - i,
{
    if i >= s.len() {
        if from < s.len() {
            seq![PieceView::Text(s.skip(from))]
        } else {
            Seq::empty()
        }
    } else {
        let n = command_len(s, i) as int;
        if n > 0 {
            (if from < i {
                seq![PieceView::Text(s.subrange(from, i))]
            } else {
                Seq::empty()
            }) + seq![PieceView::Command(s.subrange(i + 2, i + 2 + n))] + pieces_from(
                s,
                i + 3 + n,
                i + 3 + n,
            )
        } else {
            pieces_from(s, from, i + 1)
        }
    }
}

/// The parts of a template.
pub open spec fn pieces_of(s: Seq<char>) -> Seq<PieceView> {
    pieces_from(s, 0, 0)
}

fn find_command(v: &Vec<char>, i: usize) -> (r: usize)
    requires
        i < v@.len(),
    ensures
        r == command_len(v@, i as int),
        r > 0 ==> i + 2 + r < v@.len(),
{
    if v.len() - i < 2 || v[i] != '!' || v[i + 1] != '`' {
        return 0;
    }
    let ghost tail = v@.skip(i + 2);
    let mut j: usize = i + 2;
    assert(tail.skip(0) =~= tail);
    while j < v.len() && v[j] != '`'
        invariant
            i + 2 <= j <= v@.len(),
            tail == v@.skip(i + 2),
            run_len(tail, '`') == (j - i - 2) + run_len(tail.skip(j - i - 2), '`'),
        decreases v@.len() - j,
    {
        assert(tail.skip(j - i - 2)[0] == v@[j as int]);
        assert(tail.skip(j - i - 2).skip(1) =~= tail.skip(j + 1 - i - 2));
        j = j + 1;
    }
    assert(run_len(tail, '`') == j - i - 2) by {
        if j < v@.len() {
            assert(tail.skip(j - i - 2)[0] == v@[j as int]);
        }
    }
    if j < v.len() {
        j - i - 2
    } else {
        0
    }
}

/// The parts of a template.
pub fn pieces(text: &str) -> (r: Vec<Piece>)
    ensures
        r.deep_view() == pieces_of(text@),
{
    let v = chars_of(text);
    let ghost s = text@;
    let mut out: Vec<Piece> = Vec::new();
    let mut from: usize = 0;
    let mut i: usize = 0;
    assert(out.deep_view() + pieces_from(s, 0, 0) =~= pieces_of(s));
    while i < v.len()
        invariant
            from <= i <= v@.len(),
            v@ == s,
            out.deep_view() + pieces_from(s, from as int, i as int) == pieces_of(s),
        decreases v@.len() - i,
    {
        let n: usize = find_command(&v, i);
        if n > 0 {
            let ghost rest = pieces_from(s, i + 3 + n, i + 3 + n);
            let ghost start = out.deep_view();
            let ghost lead = if from < i {
                seq![PieceView::Text(s.subrange(from as int, i as int))]
            } else {
                Seq::empty()
            };
            if from < i {
                let t = string_of(v.as_slice(), from, i);
                out.push(Piece::Text(t));
            }
            assert(out.deep_view() =~= start + lead);
            let c = string_of(v.as_slice(), i + 2, i + 2 + n);
            out.push(Piece::Command(c));
            let ghost cmd = seq![PieceView::Command(s.subrange(i + 2, i + 2 + n))];
            assert(out.deep_view() =~= start + lead + cmd);
            assert(start + (lead + cmd + rest) =~= start + lead + cmd + rest);
            i = i + 3 + n;
            from = i;
        } else {
            i = i + 1;
        }
    }
    let ghost before = out.deep_view();
    if from < v.len() {
        let t = string_of(v.as_slice(), from, v.len());
        assert(t@ =~= s.skip(from as int));
        out.push(Piece::Text(t));
        assert(out.deep_view() =~= before + seq![PieceView::Text(s.skip(from as int))]);
    } else {
        assert(before + Seq::<PieceView>::empty() =~= before);
    }
    out
}

/// A template with its arguments filled in, taken apart.
pub fn plan_expansion(body: &str, args: &str) -> (r: Vec<Piece>)
    ensures
        r.deep_view() == pieces_of(replaced(body@, "$ARGUMENTS"@, args@)),
{
    proof {
        reveal_strlit("$ARGUMENTS");
    }
    let text = replace(body, "$ARGUMENTS", args);
    pieces(text.as_str())
}

/// How many commands there are among parts.
pub open spec fn command_count(s: Seq<PieceView>) -> nat
    decreases s.len(),
{
    if s.len() == 0 {
        0
    } else {
        command_count(s.drop_last()) + if s.last() is Command {
            1nat
        } else {
            0nat
        }
    }
}

/// Parts put together again, with the outputs of their commands, in order.
pub open spec fn filled(s: Seq<PieceView>, outputs: Seq<Seq<char>>) -> Seq<char>
    decreases s.len(),
{
    if s.len() == 0 {
        Seq::empty()
    } else {
        let before = s.drop_last();
        filled(before, outputs) + match s.last() {
            PieceView::Text(t) => t,
            PieceView::Command(_) => outputs[command_count(before) as int],
        }
    }
}

/// Put a template together with the outputs of its commands, one for each.
pub fn expand(parts: &Vec<Piece>, outputs: &Vec<String>) -> (r: String)
    requires
        outputs@.len() == command_count(parts.deep_view()),
    ensures
        r@ == filled(parts.deep_view(), views(outputs@)),
{
    let ghost all = parts.deep_view();
    let mut out = String::new();
    let most: usize = outputs.len();
    let mut n: usize = 0;
    let mut i: usize = 0;
    while i < parts.len()
        invariant
            i <= parts@.len(),
            all == parts.deep_view(),
            most == outputs@.len(),
            n <= most,
            outputs@.len() == command_count(all),
            n == command_count(all.take(i as int)),
            out@ == filled(all.take(i as int), views(outputs@)),
        decreases parts@.len() - i,
    {
        assert(all.take(i + 1).drop_last() =~= all.take(i as int));
        assert(all.take(i + 1).last() == parts@[i as int].deep_view());
        proof {
            lemma_command_count(all, i + 1);
        }
        match &parts[i] {
            Piece::Text(t) => {
                out.append(t.as_str());
            },
            Piece::Command(_) => {
                let o = &outputs[n];
                out.append(o.as_str());
                n = n + 1;
            },
        }
        i = i + 1;
    }
    assert(all.take(all.len() as int) =~= all);
    out
}

proof fn lemma_command_count(s: Seq<PieceView>, n: int)
    requires
        0 <= n <= s.len(),
    ensures
        command_count(s.take(n)) <= command_count(s),
    decreases s.len() - n,
{
    if n < s.len() {
        assert(s.take(n + 1).drop_last() =~= s.take(n));
        lemma_command_count(s, n + 1);
    } else {
        assert(s.take(n) =~= s);
    }
}

/// What goes where a command stood: its output, or what went wrong.
pub open spec fn output_of(success: bool, code: Option<i32>, stdout: Seq<char>, stderr: Seq<char>) -> Seq<
    char,
> {
    if success {
        stdout
    } else {
        "[命令失败("@ + signed_decimal_of(
            match code {
                Some(c) => c as int,
                None => -1,
            },
        ) + "): "@ + stderr + "]"@
    }
}

/// What goes where a command stood.
pub fn command_output(success: bool, code: Option<i32>, stdout: &Vec<u8>, stderr: &Vec<u8>) -> (r:
    String)
    ensures
        r@ == output_of(success, code, lossy(stdout@), lossy(stderr@)),
{
    if success {
        lossy_text(stdout)
    } else {
        let n: i32 = match code {
            Some(c) => c,
            None => -1,
        };
        let d = signed_decimal(n);
        let e = lossy_text(stderr);
        let head = cat3("[命令失败(", d.as_str(), "): ");
        cat3(head.as_str(), e.as_str(), "]")
    }
}

/// What goes where a command stood that could not be run.
pub fn command_failure(e: &str) -> (r: String)
    ensures
        r@ == "[命令执行失败: "@ + e@ + "]"@,
{
    cat3("[命令执行失败: ", e, "]")
}

// ---- built in ----

/// A command that is built in.
#[derive(Debug, Clone, Copy, PartialEq, Eq, Structural)]
pub enum Builtin {
    Help,
    Clear,
    Mode(PermissionMode),
    /// On to the next mode.
    ModeCycle,
    Compact,
    Sessions,
    /// Write a file of instructions for the project.
    Init,
    Hooks,
    Mcp,
    Agent,
    Model,
    Cost,
    /// List the snapshots.
    Rewind,
    /// Go back to the last snapshot.
    Rollback,
    /// What has changed since the last snapshot.
    Diff,
}

/// What stands before the first space.
pub open spec fn first_word(s: Seq<char>) -> Seq<char> {
    match cut(s, " "@) {
        Some((a, _)) => a,
        None => s,
    }
}

/// The command that is built in under a name.
pub open spec fn builtin_of(input: Seq<char>) -> Option<Builtin> {
    let s = trimmed(input);
    let cmd = first_word(s);
    if cmd == "/help"@ {
        Some(Builtin::Help)
    } else if cmd == "/clear"@ {
        Some(Builtin::Clear)
    } else if cmd == "/compact"@ {
        Some(Builtin::Compact)
    } else if cmd == "/sessions"@ {
        Some(Builtin::Sessions)
    } else if cmd == "/mode"@ {
        match cut(s, " "@) {
            Some((_, mode)) => if trimmed(mode) == "default"@ {
                Some(Builtin::Mode(PermissionMode::Default))
            } else if trimmed(mode) == "plan"@ {
                Some(Builtin::Mode(PermissionMode::Plan))
            } else if trimmed(mode) == "accept-edits"@ {
                Some(Builtin::Mode(PermissionMode::AcceptEdits))
            } else {
                None
            },
            None => Some(Builtin::ModeCycle),
        }
    } else if cmd == "/plan"@ {
        Some(Builtin::Mode(PermissionMode::Plan))
    } else if cmd == "/init"@ {
        Some(Builtin::Init)
    } else if cmd == "/hooks"@ {
        Some(Builtin::Hooks)
    } else if cmd == "/mcp"@ {
        Some(Builtin::Mcp)
    } else if cmd == "/agent"@ {
        Some(Builtin::Agent)
    } else if cmd == "/model"@ {
        Some(Builtin::Model)
    } else if cmd == "/cost"@ {
        Some(Builtin::Cost)
    } else if cmd == "/rewind"@ {
        Some(Builtin::Rewind)
    } else if cmd == "/rollback"@ {
        Some(Builtin::Rollback)
    } else if cmd == "/diff"@ {
        Some(Builtin::Diff)
    } else {
        None
    }
}

/// The command that is built in and that an input asks for.
pub fn parse_builtin(input: &str) -> (r: Option<Builtin>)
    ensures
        r == builtin_of(input@),
{
    let s = trim(input);
    let parts = split_once(s.as_str(), " ");
    let cmd = match &parts {
        Some((a, _)) => a.as_str(),
        None => s.as_str(),
    };
    if same(cmd, "/help") {
        Some(Builtin::Help)
    } else if same(cmd, "/clear") {
        Some(Builtin::Clear)
    } else if same(cmd, "/compact") {
        Some(Builtin::Compact)
    } else if same(cmd, "/sessions") {
        Some(Builtin::Sessions)
    } else if same(cmd, "/mode") {
        match &parts {
            Some((_, mode)) => {
                let m = trim(mode.as_str());
                if same(m.as_str(), "default") {
                    Some(Builtin::Mode(PermissionMode::Default))
                } else if same(m.as_str(), "plan") {
                    Some(Builtin::Mode(PermissionMode::Plan))
                } else if same(m.as_str(), "accept-edits") {
                    Some(Builtin::Mode(PermissionMode::AcceptEdits))
                } else {
                    None
                }
            },
            None => Some(Builtin::ModeCycle),
        }
    } else if same(cmd, "/plan") {
        Some(Builtin::Mode(PermissionMode::Plan))
    } else if same(cmd, "/init") {
        Some(Builtin::Init)
    } else if same(cmd, "/hooks") {
        Some(Builtin::Hooks)
    } else if same(cmd, "/mcp") {
        Some(Builtin::Mcp)
    } else if same(cmd, "/agent") {
        Some(Builtin::Agent)
    } else if same(cmd, "/model") {
        Some(Builtin::Model)
    } else if same(cmd, "/cost") {
        Some(Builtin::Cost)
    } else if same(cmd, "/rewind") {
        Some(Builtin::Rewind)
    } else if same(cmd, "/rollback") {
        Some(Builtin::Rollback)
    } else if same(cmd, "/diff") {
        Some(Builtin::Diff)
    } else {
        None
    }
}

/// The name and the arguments in an input.
pub open spec fn name_and_args(input: Seq<char>) -> (Seq<char>, Seq<char>) {
    let s = trimmed(input);
    let s = match after_prefix(s, "/"@) {
        Some(t) => t,
        None => s,
    };
    match cut(s, " "@) {
        Some(p) => p,
        None => (s, Seq::empty()),
    }
}

/// The name and the arguments in an input.
pub fn split_name_args(input: &str) -> (r: (String, String))
    ensures
        (r.0@, r.1@) == name_and_args(input@),
{
    let s = trim(input);
    let s = match strip_prefix(s.as_str(), "/") {
        Some(t) => t,
        None => s,
    };
    match split_once(s.as_str(), " ") {
        Some(p) => p,
        None => {
            let none = String::new();
            assert(none@ =~= Seq::<char>::empty());
            (s, none)
        },
    }
}

// ---- laws ----

/// A part as it stood in the template.
pub open spec fn written_piece(p: PieceView) -> Seq<char> {
    match p {
        PieceView::Text(t) => t,
        PieceView::Command(c) => "!`"@ + c + "`"@,
    }
}

/// Parts as they stood in the template.
pub open spec fn written_pieces(s: Seq<PieceView>) -> Seq<char>
    decreases s.len(),
{
    if s.len() == 0 {
        Seq::empty()
    } else {
        written_piece(s[0]) + written_pieces(s.drop_first())
    }
}

proof fn lemma_written_first(p: PieceView, s: Seq<PieceView>)
    ensures
        written_pieces(seq![p] + s) == written_piece(p) + written_pieces(s),
{
    let t = seq![p] + s;
    assert(t[0] == p);
    assert(t.drop_first() =~= s);
}

proof fn lemma_pieces_from(s: Seq<char>, from: int, i: int)
    requires
        0 <= from <= i <= s.len(),
    ensures
        written_pieces(pieces_from(s, from, i)) == s.skip(from),
    decreases s.len() - i,
{
    reveal_strlit("!`");
    reveal_strlit("`");
    if i >= s.len() {
        if from < s.len() {
            lemma_written_first(PieceView::Text(s.skip(from)), Seq::empty());
            assert(seq![PieceView::Text(s.skip(from))] + Seq::<PieceView>::empty() =~= seq![
                PieceView::Text(s.skip(from)),
            ]);
            assert(written_pieces(Seq::<PieceView>::empty()) =~= Seq::<char>::empty());
            assert(s.skip(from) + Seq::<char>::empty() =~= s.skip(from));
        } else {
            assert(s.skip(from) =~= Seq::<char>::empty());
        }
    } else {
        let n = command_len(s, i) as int;
        if n > 0 {
            let tail = s.skip(i + 2);
            lemma_run_len(tail, '`');
            let rest = pieces_from(s, i + 3 + n, i + 3 + n);
            lemma_pieces_from(s, i + 3 + n, i + 3 + n);
            let c = PieceView::Command(s.subrange(i + 2, i + 2 + n));
            lemma_written_first(c, rest);
            assert(tail[n] == s[i + 2 + n]);
            assert(written_piece(c) + s.skip(i + 3 + n) =~= s.skip(i));
            if from < i {
                let t = PieceView::Text(s.subrange(from, i));
                lemma_written_first(t, seq![c] + rest);
                assert(seq![t] + seq![c] + rest =~= seq![t] + (seq![c] + rest));
                assert(s.subrange(from, i) + s.skip(i) =~= s.skip(from));
            } else {
                assert(Seq::<PieceView>::empty() + seq![c] + rest =~= seq![c] + rest);
            }
        } else {
            lemma_pieces_from(s, from, i + 1);
        }
    }
}

/// Taking a template apart loses nothing: its parts, written as they stood, are the
/// template.
pub proof fn law_pieces_are_the_template(s: Seq<char>)
    ensures
        written_pieces(pieces_of(s)) == s,
{
    lemma_pieces_from(s, 0, 0);
    assert(s.skip(0) =~= s);
}

/// Where no command stands in a template, it is expanded to itself.
pub proof fn law_plain_text_stays(s: Seq<char>)
    requires
        command_count(pieces_of(s)) == 0,
    ensures
        filled(pieces_of(s), Seq::empty()) == s,
{
    law_pieces_are_the_template(s);
    lemma_filled_texts(pieces_of(s));
}

proof fn lemma_filled_texts(s: Seq<PieceView>)
    requires
        command_count(s) == 0,
    ensures
        filled(s, Seq::empty()) == written_pieces(s),
    decreases s.len(),
{
    if s.len() > 0 {
        lemma_filled_texts(s.drop_last());
        lemma_written_last(s);
    }
}

proof fn lemma_written_last(s: Seq<PieceView>)
    requires
        s.len() > 0,
    ensures
        written_pieces(s) == written_pieces(s.drop_last()) + written_piece(s.last()),
    decreases s.len(),
{
    if s.len() == 1 {
        assert(s.drop_first() =~= Seq::<PieceView>::empty());
        assert(s.drop_last() =~= Seq::<PieceView>::empty());
        assert(written_piece(s[0]) + Seq::<char>::empty() =~= Seq::<char>::empty() + written_piece(
            s[0],
        ));
    } else {
        let t = s.drop_first();
        lemma_written_last(t);
        assert(t.last() == s.last());
        assert(t.drop_last() =~= s.drop_last().drop_first());
        let a = written_piece(s[0]);
        let b = written_pieces(t.drop_last());
        let c = written_piece(s.last());
        assert(a + (b + c) =~= (a + b) + c);
    }
}

} // verus!
