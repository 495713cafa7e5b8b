//! The tools that a model may call.
pub mod bash;
pub mod edit;
pub mod fs;
pub mod glob;
pub mod grep;
pub mod patch;
pub mod specs;
use vstd::prelude::*;

use crate::dup::Dup;
use crate::json::Json;
use crate::json::JsonView;
use crate::json::lemma_list_view;
use crate::json::list_in;
use crate::json::list_view;
use crate::json::member;
use crate::json::text_in;
use crate::model::ToolSpec;
use crate::model::ToolSpecView;
use crate::paths::join_path;
use crate::paths::joined_path;
use crate::paths::relative_to;
use crate::paths::seen_from;
use crate::permissions::PermissionKey;
use crate::permissions::PermissionKeyView;
use crate::providers::calls::text_at;
use crate::text::cat3;
use crate::text::cat;
use crate::text::decimal;
use crate::text::decimal_of;
use crate::text::same;
use crate::text::views;
use crate::tools::specs::BashTool;
use crate::tools::specs::EditTool;
use crate::tools::specs::GlobTool;
use crate::tools::specs::GrepTool;
use crate::tools::specs::PatchTool;
use crate::tools::specs::ReadTool;
use crate::tools::specs::TaskTool;
use crate::tools::specs::WriteTool;
use crate::tools::specs::bash_description;
use crate::tools::specs::bash_schema;
use crate::tools::specs::edit_description;
use crate::tools::specs::edit_schema;
use crate::tools::specs::glob_description;
use crate::tools::specs::glob_schema;
use crate::tools::specs::grep_description;
use crate::tools::specs::grep_schema;
use crate::tools::specs::patch_description;
use crate::tools::specs::patch_schema;
use crate::tools::specs::read_description;
use crate::tools::specs::read_schema;
use crate::tools::specs::task_description;
use crate::tools::specs::task_schema;
use crate::tools::specs::write_description;
use crate::tools::specs::write_schema;

verus! {

/// The model of `ToolOutput`.
pub struct ToolOutputView {
    pub content: Seq<char>,
    pub is_error: bool,
}

/// What a tool gives back to the model.
#[derive(Debug, PartialEq)]
pub struct ToolOutput {
    pub content: String,
    pub is_error: bool,
}

impl DeepView for ToolOutput {
    type V = ToolOutputView;

    open spec fn deep_view(&self) -> ToolOutputView {
        ToolOutputView {
            content: self.content.deep_view(),
            is_error: self.is_error.deep_view(),
        }
    }
}

impl Dup for ToolOutput {
    fn dup(&self) -> (r: Self) {
        ToolOutput {
            content: self.content.dup(),
            is_error: self.is_error.dup(),
        }
    }
}

impl Clone for ToolOutput {
    fn clone(&self) -> (r: Self)
        ensures
            r.deep_view() == self.deep_view(),
    {
        self.dup()
    }
}

impl ToolOutput {
    /// A success.
    pub fn ok(content: &str) -> (r: Self)
        ensures
            r.deep_view() == (ToolOutputView { content: content@, is_error: false }),
    {
        ToolOutput { content: content.to_owned(), is_error: false }
    }

    /// A failure that the model is told of.
    pub fn error(content: &str) -> (r: Self)
        ensures
            r.deep_view() == (ToolOutputView { content: content@, is_error: true }),
    {
        ToolOutput { content: content.to_owned(), is_error: true }
    }
}

/// The model of `ToolError`.
pub enum ToolErrorView {
    InvalidArgs(Seq<char>),
    Io(Seq<char>),
    Timeout(u64),
    Cancelled,
    Failed(Seq<char>),
}

/// Why a tool could not be run.
#[derive(Debug, PartialEq)]
pub enum ToolError {
    InvalidArgs(String),
    Io(String),
    /// After this many milliseconds.
    Timeout(u64),
    Cancelled,
    Failed(String),
}

impl DeepView for ToolError {
    type V = ToolErrorView;

    open spec fn deep_view(&self) -> ToolErrorView {
        match *self {
            ToolError::InvalidArgs(x) => ToolErrorView::InvalidArgs(x.deep_view()),
            ToolError::Io(x) => ToolErrorView::Io(x.deep_view()),
            ToolError::Timeout(x) => ToolErrorView::Timeout(x.deep_view()),
            ToolError::Cancelled => ToolErrorView::Cancelled,
            ToolError::Failed(x) => ToolErrorView::Failed(x.deep_view()),
        }
    }
}

impl Dup for ToolError {
    fn dup(&self) -> (r: Self) {
        match self {
            ToolError::InvalidArgs(x) => ToolError::InvalidArgs(x.dup()),
            ToolError::Io(x) => ToolError::Io(x.dup()),
            ToolError::Timeout(x) => ToolError::Timeout(x.dup()),
            ToolError::Cancelled => ToolError::Cancelled,
            ToolError::Failed(x) => ToolError::Failed(x.dup()),
        }
    }
}

impl Clone for ToolError {
    fn clone(&self) -> (r: Self)
        ensures
            r.deep_view() == self.deep_view(),
    {
        self.dup()
    }
}

/// An error in words.
pub open spec fn error_words(e: ToolErrorView) -> Seq<char> {
    match e {
        ToolErrorView::InvalidArgs(s) => "参数无效: "@ + s,
        ToolErrorView::Io(s) => "IO 错误: "@ + s,
        ToolErrorView::Timeout(n) => "超时("@ + decimal_of(n as nat) + "ms)"@,
        ToolErrorView::Cancelled => "已取消"@,
        ToolErrorView::Failed(s) => "工具内部错误: "@ + s,
    }
}

impl ToolError {
    /// The error in words.
    pub fn message(&self) -> (r: String)
        ensures
            r@ == error_words(self.deep_view()),
    {
        match self {
            ToolError::InvalidArgs(s) => cat("参数无效: ", s.as_str()),
            ToolError::Io(s) => cat("IO 错误: ", s.as_str()),
            ToolError::Timeout(n) => {
                let d = decimal(*n);
                cat3("超时(", d.as_str(), "ms)")
            },
            ToolError::Cancelled => "已取消".to_owned(),
            ToolError::Failed(s) => cat("工具内部错误: ", s.as_str()),
        }
    }
}

// ---- what a call touches ----

/// The texts of a list that holds nothing else.
pub open spec fn texts_in(s: Seq<JsonView>) -> Option<Seq<Seq<char>>>
    decreases s.len(),
{
    if s.len() == 0 {
        Some(Seq::empty())
    } else {
        match (texts_in(s.drop_last()), text_in(Some(s.last()))) {
            (Some(a), Some(b)) => Some(a.push(b)),
            _ => None,
        }
    }
}

/// The command of a call: a list of texts.
pub open spec fn command_of(args: JsonView) -> Option<Seq<Seq<char>>> {
    match list_in(member(args, "command"@)) {
        Some(s) => texts_in(s),
        None => None,
    }
}

proof fn lemma_texts_prefix(s: Seq<JsonView>, k: int)
    requires
        0 <= k <= s.len(),
        texts_in(s.take(k)) is None,
    ensures
        texts_in(s) is None,
    decreases s.len() - k,
{
    if k < s.len() {
        assert(s.take(k + 1).drop_last() =~= s.take(k));
        lemma_texts_prefix(s, k + 1);
    } else {
        assert(s.take(k) =~= s);
    }
}

/// The command of a call.
pub fn parse_command(args: &Json) -> (r: Option<Vec<String>>)
    ensures
        match r {
            Some(v) => command_of(args@) == Some(views(v@)),
            None => command_of(args@) is None,
        },
{
    let v = match args.get("command") {
        Some(x) => match x.as_list() {
            Some(v) => v,
            None => return None,
        },
        None => return None,
    };
    let mut out: Vec<String> = Vec::new();
    let mut i: usize = 0;
    let ghost all = list_view(v@);
    proof {
        lemma_list_view(v@);
        assert(all.take(0) =~= Seq::<JsonView>::empty());
        assert(views(out@) =~= Seq::<Seq<char>>::empty());
    }
    while i < v.len()
        invariant
            i <= v@.len(),
            all == list_view(v@),
            all.len() == v@.len(),
            command_of(args@) == texts_in(all),
            forall|k: int| 0 <= k < v@.len() ==> #[trigger] all[k] == v@[k]@,
            texts_in(all.take(i as int)) == Some(views(out@)),
        decreases v@.len() - i,
    {
        let ghost before = out@;
        assert(all.take(i + 1).drop_last() =~= all.take(i as int));
        assert(all.take(i + 1).last() == v@[i as int]@);
        match v[i].as_str() {
            Some(s) => {
                out.push(s.to_owned());
                assert(views(out@) =~= views(before).push(s@));
            },
            None => {
                proof {
                    lemma_texts_prefix(all, i + 1);
                }
                return None;
            },
        }
        i = i + 1;
    }
    assert(all.take(all.len() as int) =~= all);
    Some(out)
}

/// What a call of a tool touches: a command, or a file as seen from the working
/// directory. Of the other tools nothing is known.
pub open spec fn touched(tool: Seq<char>, args: JsonView, cwd: Seq<char>) -> Option<
    PermissionKeyView,
> {
    if tool == "Bash"@ {
        match command_of(args) {
            Some(command) => if command.len() == 0 {
                None
            } else {
                Some(PermissionKeyView::Bash { command })
            },
            None => None,
        }
    } else if tool == "Read"@ || tool == "Write"@ || tool == "Edit"@ {
        match text_in(member(args, "path"@)) {
            Some(p) => Some(PermissionKeyView::Path { path: seen_from(cwd, joined_path(cwd, p)) }),
            None => None,
        }
    } else {
        None
    }
}

/// What a call of a tool touches.
pub fn permission_key(tool: &str, args: &Json, cwd: &str) -> (r: Option<PermissionKey>)
    ensures
        match r {
            Some(k) => touched(tool@, args@, cwd@) == Some(k.deep_view()),
            None => touched(tool@, args@, cwd@) is None,
        },
{
    if same(tool, "Bash") {
        match parse_command(args) {
            Some(command) => if command.len() == 0 {
                None
            } else {
                Some(PermissionKey::Bash { command })
            },
            None => None,
        }
    } else if same(tool, "Read") || same(tool, "Write") || same(tool, "Edit") {
        match text_at(args, "path") {
            Some(p) => {
                let full = join_path(cwd, p.as_str());
                Some(PermissionKey::Path { path: relative_to(cwd, full.as_str()) })
            },
            None => None,
        }
    } else {
        None
    }
}

// ---- the registry ----

/// The tools that the model may call, by name.
pub struct ToolRegistry {
    tools: Vec<ToolSpec>,
}

/// The place of a name among tools, or their number.
pub open spec fn named_at(s: Seq<ToolSpecView>, name: Seq<char>) -> int
    decreases s.len(),
{
    if s.len() == 0 {
        0
    } else if s[0].name == name {
        0
    } else {
        1 + named_at(s.drop_first(), name)
    }
}

/// The tools with one more; a tool of the same name gives way.
pub open spec fn registered(s: Seq<ToolSpecView>, t: ToolSpecView) -> Seq<ToolSpecView> {
    if named_at(s, t.name) < s.len() {
        s.update(named_at(s, t.name), t)
    } else {
        s.push(t)
    }
}

/// No name occurs twice.
pub open spec fn distinct_names(s: Seq<ToolSpecView>) -> bool {
    forall|i: int, j: int|
        0 <= i < j < s.len() ==> (#[trigger] s[i]).name != (#[trigger] s[j]).name
}

/// The names that a sub-agent may have, of those asked for, as far as they are
/// registered: it may only read.
pub open spec fn readable(s: Seq<ToolSpecView>, names: Seq<Seq<char>>) -> Seq<ToolSpecView>
    decreases names.len(),
{
    if names.len() == 0 {
        Seq::empty()
    } else {
        let before = readable(s, names.drop_last());
        let n = names.last();
        if (n == "Read"@ || n == "Grep"@ || n == "Glob"@) && named_at(s, n) < s.len() {
            registered(before, s[named_at(s, n)])
        } else {
            before
        }
    }
}

proof fn lemma_named_at(s: Seq<ToolSpecView>, name: Seq<char>)
    ensures
        0 <= named_at(s, name) <= s.len(),
        named_at(s, name) < s.len() ==> s[named_at(s, name)].name == name,
        forall|i: int| 0 <= i < named_at(s, name) ==> (#[trigger] s[i]).name != name,
    decreases s.len(),
{
    if s.len() > 0 && s[0].name != name {
        let t = s.drop_first();
        lemma_named_at(t, name);
        assert forall|i: int| 0 <= i < named_at(s, name) implies (#[trigger] s[i]).name
            != name by {
            if i > 0 {
                assert(s[i] == t[i - 1]);
            }
        }
    }
}

proof fn lemma_registered_distinct(s: Seq<ToolSpecView>, t: ToolSpecView)
    requires
        distinct_names(s),
    ensures
        distinct_names(registered(s, t)),
{
    lemma_named_at(s, t.name);
}

impl DeepView for ToolRegistry {
    type V = Seq<ToolSpecView>;

    closed spec fn deep_view(&self) -> Seq<ToolSpecView> {
        self.tools.deep_view()
    }
}

impl ToolRegistry {
    /// No tool is registered twice.
    pub open spec fn inv(&self) -> bool {
        distinct_names(self.deep_view())
    }

    /// No tools.
    pub fn new() -> (r: Self)
        ensures
            r.inv(),
            r.deep_view() == Seq::<ToolSpecView>::empty(),
    {
        let r = ToolRegistry { tools: Vec::new() };
        assert(r.deep_view() =~= Seq::<ToolSpecView>::empty());
        r
    }

    fn find(&self, name: &str) -> (r: usize)
        ensures
            r == named_at(self.deep_view(), name@),
            r <= self.tools@.len(),
            self.deep_view().len() == self.tools@.len(),
    {
        let mut i: usize = 0;
        let ghost all = self.deep_view();
        assert(all.skip(0) =~= all);
        while i < self.tools.len()
            invariant
                i <= self.tools@.len(),
                all == self.deep_view(),
                named_at(all, name@) == i + named_at(all.skip(i as int), name@),
            decreases self.tools@.len() - i,
        {
            assert(all.skip(i as int)[0] == self.tools@[i as int].deep_view());
            if same(self.tools[i].name.as_str(), name) {
                return i;
            }
            assert(all.skip(i as int).drop_first() =~= all.skip(i + 1));
            i = i + 1;
        }
        i
    }

    /// Register a tool; one of the same name gives way.
    pub fn register(&mut self, tool: ToolSpec)
        requires
            old(self).inv(),
        ensures
            final(self).inv(),
            final(self).deep_view() == registered(old(self).deep_view(), tool.deep_view()),
    {
        let p: usize = self.find(tool.name.as_str());
        let ghost before = self.deep_view();
        proof {
            lemma_registered_distinct(before, tool.deep_view());
        }
        if p < self.tools.len() {
            self.tools.set(p, tool);
            assert(self.deep_view() =~= before.update(p as int, tool.deep_view()));
        } else {
            self.tools.push(tool);
            assert(self.deep_view() =~= before.push(tool.deep_view()));
        }
    }

    /// The built-in tools.
    pub fn builtin() -> (r: Self)
        ensures
            r.inv(),
            r.deep_view() == builtin_tools(),
    {
        let mut r = ToolRegistry::new();
        r.register(BashTool.spec());
        r.register(ReadTool.spec());
        r.register(WriteTool.spec());
        r.register(EditTool.spec());
        r.register(PatchTool.spec());
        r.register(GrepTool.spec());
        r.register(GlobTool.spec());
        r.register(TaskTool.spec());
        r
    }

    /// The tool with a name.
    pub fn get(&self, name: &str) -> (r: Option<ToolSpec>)
        ensures
            r.deep_view() == (if named_at(self.deep_view(), name@) < self.deep_view().len() {
                Some(self.deep_view()[named_at(self.deep_view(), name@)])
            } else {
                None
            }),
    {
        let p: usize = self.find(name);
        if p < self.tools.len() {
            Some(self.tools[p].dup())
        } else {
            None
        }
    }

    /// All tools.
    pub fn specs(&self) -> (r: Vec<ToolSpec>)
        ensures
            r.deep_view() == self.deep_view(),
    {
        self.tools.dup()
    }

    /// The names of all tools.
    pub fn names(&self) -> (r: Vec<String>)
        ensures
            views(r@) == Seq::new(self.deep_view().len(), |i: int| self.deep_view()[i].name),
    {
        let mut out: Vec<String> = Vec::new();
        let mut i: usize = 0;
        while i < self.tools.len()
            invariant
                i <= self.tools@.len(),
                out@.len() == i,
                forall|k: int| 0 <= k < i ==> (#[trigger] out@[k])@ == self.tools@[k].name@,
            decreases self.tools@.len() - i,
        {
            out.push(self.tools[i].name.clone());
            i = i + 1;
        }
        assert(views(out@) =~= Seq::new(
            self.deep_view().len(),
            |i: int| self.deep_view()[i].name,
        ));
        out
    }

    /// The tools that a sub-agent may have.
    pub fn readonly_subset(&self, names: &Vec<String>) -> (r: Self)
        ensures
            r.inv(),
            r.deep_view() == readable(self.deep_view(), views(names@)),
    {
        let mut r = ToolRegistry::new();
        let mut i: usize = 0;
        let ghost all = views(names@);
        while i < names.len()
            invariant
                i <= names@.len(),
                all == views(names@),
                r.inv(),
                r.deep_view() == readable(self.deep_view(), all.take(i as int)),
            decreases names@.len() - i,
        {
            assert(all.take(i + 1).drop_last() =~= all.take(i as int));
            assert(all.take(i + 1).last() == names@[i as int]@);
            let n = names[i].as_str();
            if same(n, "Read") || same(n, "Grep") || same(n, "Glob") {
                match self.get(n) {
                    Some(t) => r.register(t),
                    None => {},
                }
            }
            i = i + 1;
        }
        assert(all.take(all.len() as int) =~= all);
        r
    }
}

/// The built-in tools.
pub open spec fn builtin_tools() -> Seq<ToolSpecView> {
    let s = Seq::<ToolSpecView>::empty();
    let s = registered(s, told_of("Bash"@, bash_description(), bash_schema()));
    let s = registered(s, told_of("Read"@, read_description(), read_schema()));
    let s = registered(s, told_of("Write"@, write_description(), write_schema()));
    let s = registered(s, told_of("Edit"@, edit_description(), edit_schema()));
    let s = registered(s, told_of("Patch"@, patch_description(), patch_schema()));
    let s = registered(s, told_of("Grep"@, grep_description(), grep_schema()));
    let s = registered(s, told_of("Glob"@, glob_description(), glob_schema()));
    registered(s, told_of("Task"@, task_description(), task_schema()))
}

/// A tool as the model is told of it.
pub open spec fn told_of(name: Seq<char>, description: Seq<char>, schema: JsonView) -> ToolSpecView {
    ToolSpecView { name, description, schema }
}

// ---- laws ----

/// A tool that is registered is there.
pub proof fn law_registered_is_there(s: Seq<ToolSpecView>, t: ToolSpecView)
    ensures
        registered(s, t).contains(t),
{
    lemma_named_at(s, t.name);
    let r = registered(s, t);
    assert(r[named_at(s, t.name)] == t);
}

/// A sub-agent's tools are among those that only read.
pub proof fn law_subset_only_reads(s: Seq<ToolSpecView>, names: Seq<Seq<char>>)
    ensures
        forall|i: int|
            0 <= i < readable(s, names).len() ==> ({
                let n = (#[trigger] readable(s, names)[i]).name;
                n == "Read"@ || n == "Grep"@ || n == "Glob"@
            }),
    decreases names.len(),
{
    if names.len() > 0 {
        law_subset_only_reads(s, names.drop_last());
        let n = names.last();
        let before = readable(s, names.drop_last());
        lemma_named_at(s, n);
        if (n == "Read"@ || n == "Grep"@ || n == "Glob"@) && named_at(s, n) < s.len() {
            let t = s[named_at(s, n)];
            lemma_named_at(before, t.name);
            let after = registered(before, t);
            assert forall|i: int| 0 <= i < after.len() implies ({
                let m = (#[trigger] after[i]).name;
                m == "Read"@ || m == "Grep"@ || m == "Glob"@
            }) by {
                if i < before.len() && i != named_at(before, t.name) {
                    assert(after[i] == before[i]);
                } else {
                    assert(after[i] == t);
                }
            }
        }
    }
}

} // verus!
