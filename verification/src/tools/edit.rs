//! Replacing a text in a file.
use vstd::prelude::*;
use vstd::string::*;

use crate::apply_patch::diff_text;
use crate::apply_patch::make_diff;
use crate::json::Json;
use crate::json::bool_in;
use crate::json::member;
use crate::json::text_in;
use crate::paths::join_path;
use crate::paths::joined_path;
use crate::providers::calls::text_at;
use crate::text::cat3;
use crate::text::cat;
use crate::text::chars_of;
use crate::text::cut;
use crate::text::decimal;
use crate::text::decimal_of;
use crate::text::find;
use crate::text::lemma_find_from;
use crate::text::matches_at;
use crate::text::occurs;
use crate::text::replace;
use crate::text::replaced;
use crate::text::same;
use crate::text::split;
use crate::text::split_list;
use crate::text::split_once;
use crate::text::views;
use crate::tools::ToolError;
use crate::tools::ToolErrorView;
use crate::tools::ToolOutput;
use crate::tools::ToolOutputView;
use crate::tools::fs::AtPath;
use crate::tools::fs::noted;

verus! {

/// What is to be replaced.
#[derive(Debug, PartialEq)]
pub struct EditPlan {
    pub path: String,
    pub old_string: String,
    pub new_string: String,
    pub replace_all: bool,
}

/// Work out what is to be replaced. Arguments of the wrong kind are an error;
/// replacing a text by itself is refused.
pub fn plan(args: &Json, cwd: &str) -> (r: Result<Result<EditPlan, ToolOutput>, ToolError>)
    ensures
        match (
            text_in(member(args@, "path"@)),
            text_in(member(args@, "old_string"@)),
            text_in(member(args@, "new_string"@)),
        ) {
            (None, _, _) => r matches Err(e) && e.deep_view() == ToolErrorView::InvalidArgs(
                "path 必须是字符串"@,
            ),
            (Some(_), None, _) => r matches Err(e) && e.deep_view() == ToolErrorView::InvalidArgs(
                "old_string 必须是字符串"@,
            ),
            (Some(_), Some(_), None) => r matches Err(e) && e.deep_view()
                == ToolErrorView::InvalidArgs("new_string 必须是字符串"@),
            (Some(p), Some(a), Some(b)) => if a == b {
                r matches Ok(Err(o)) && o.deep_view() == (ToolOutputView {
                    content: "old_string 与 new_string 相同,无需编辑"@,
                    is_error: true,
                })
            } else {
                r matches Ok(Ok(plan)) && {
                    &&& plan.path@ == joined_path(cwd@, p)
                    &&& plan.old_string@ == a
                    &&& plan.new_string@ == b
                    &&& plan.replace_all == (bool_in(member(args@, "replace_all"@)) == Some(true))
                }
            },
        },
{
    let path = match text_at(args, "path") {
        Some(p) => join_path(cwd, p.as_str()),
        None => {
            return Err(ToolError::InvalidArgs("path 必须是字符串".to_owned()));
        },
    };
    let old_string = match text_at(args, "old_string") {
        Some(s) => s,
        None => {
            return Err(ToolError::InvalidArgs("old_string 必须是字符串".to_owned()));
        },
    };
    let new_string = match text_at(args, "new_string") {
        Some(s) => s,
        None => {
            return Err(ToolError::InvalidArgs("new_string 必须是字符串".to_owned()));
        },
    };
    let replace_all = match args.get("replace_all") {
        Some(x) => match x.as_bool() {
            Some(b) => b,
            None => false,
        },
        None => false,
    };
    if same(old_string.as_str(), new_string.as_str()) {
        return Ok(Err(ToolOutput::error("old_string 与 new_string 相同,无需编辑")));
    }
    Ok(Ok(EditPlan { path, old_string, new_string, replace_all }))
}

/// How often `p` occurs in `s`, one occurrence after the other. Nothing occurs
/// before every character and at the end.
pub open spec fn occurrences(s: Seq<char>, p: Seq<char>) -> int {
    if p.len() == 0 {
        s.len() as int + 1
    } else {
        split_list(s, p).len() - 1
    }
}

/// `s` with `to` before every character and at the end.
pub open spec fn interleaved(s: Seq<char>, to: Seq<char>) -> Seq<char>
    decreases s.len(),
{
    if s.len() == 0 {
        to
    } else {
        interleaved(s.drop_last(), to).push(s.last()) + to
    }
}

/// `s` with every `p` replaced.
pub open spec fn all_replaced(s: Seq<char>, p: Seq<char>, to: Seq<char>) -> Seq<char> {
    if p.len() == 0 {
        interleaved(s, to)
    } else {
        replaced(s, p, to)
    }
}

/// `s` with the first `p` replaced.
pub open spec fn first_replaced(s: Seq<char>, p: Seq<char>, to: Seq<char>) -> Seq<char> {
    match cut(s, p) {
        Some((a, b)) => a + to + b,
        None => s,
    }
}

/// What an edit comes to: the new text, or why not. The old text must occur, and
/// only once unless all of its occurrences are to go.
pub open spec fn edited(s: Seq<char>, old: Seq<char>, new: Seq<char>, all: bool) -> Result<
    Seq<char>,
    int,
> {
    let n = occurrences(s, old);
    if n == 0 || (n > 1 && !all) {
        Err(n)
    } else if all {
        Ok(all_replaced(s, old, new))
    } else {
        Ok(first_replaced(s, old, new))
    }
}

fn count(s: &str, p: &str) -> (r: usize)
    requires
        s@.len() < usize::MAX,
    ensures
        r == occurrences(s@, p@),
{
    if p.is_empty() {
        s.unicode_len() + 1
    } else {
        let parts = split(s, p);
        proof {
            lemma_split_some(s@, p@);
            assert(views(parts@).len() == parts@.len());
        }
        parts.len() - 1
    }
}

proof fn lemma_split_some(s: Seq<char>, p: Seq<char>)
    ensures
        split_list(s, p).len() >= 1,
{
}

fn replace_everything(s: &str, p: &str, to: &str) -> (r: String)
    ensures
        r@ == all_replaced(s@, p@, to@),
{
    if !p.is_empty() {
        return replace(s, p, to);
    }
    let v = chars_of(s);
    let mut r = to.to_owned();
    let mut i: usize = 0;
    assert(v@.take(0) =~= Seq::<char>::empty());
    while i < v.len()
        invariant
            i <= v@.len(),
            r@ == interleaved(v@.take(i as int), to@),
        decreases v@.len() - i,
    {
        assert(v@.take(i + 1).drop_last() =~= v@.take(i as int));
        r.push(v[i]);
        r.append(to);
        i = i + 1;
    }
    assert(v@.take(v@.len() as int) =~= v@);
    r
}

/// Work out the new text, or how often the old one occurs where that is not as it
/// should be.
pub fn edit(s: &str, plan: &EditPlan) -> (r: Result<String, usize>)
    requires
        s@.len() < usize::MAX,
    ensures
        match edited(s@, plan.old_string@, plan.new_string@, plan.replace_all) {
            Ok(t) => r matches Ok(x) && x@ == t,
            Err(n) => r matches Err(m) && m == n,
        },
{
    let old = plan.old_string.as_str();
    let n: usize = count(s, old);
    if n == 0 || (n > 1 && !plan.replace_all) {
        return Err(n);
    }
    if plan.replace_all {
        Ok(replace_everything(s, old, plan.new_string.as_str()))
    } else {
        match split_once(s, old) {
            Some((a, b)) => Ok(cat3(a.as_str(), plan.new_string.as_str(), b.as_str())),
            None => Ok(s.to_owned()),
        }
    }
}

/// What the model is told where the file was not read before.
pub fn unread(path: &str) -> (r: ToolOutput)
    ensures
        r.deep_view() == (ToolOutputView {
            content: "编辑前须先 Read 该文件(防盲改): "@ + path@,
            is_error: true,
        }),
{
    ToolOutput { content: cat("编辑前须先 Read 该文件(防盲改): ", path), is_error: true }
}

/// What the model is told where there is no such file.
pub fn absent(path: &str) -> (r: ToolOutput)
    ensures
        r.deep_view() == (ToolOutputView { content: "文件不存在: "@ + path@, is_error: true }),
{
    ToolOutput { content: cat("文件不存在: ", path), is_error: true }
}

/// What the model is told where the old text does not occur as it should.
pub open spec fn refusal_of(n: int, path: Seq<char>) -> Seq<char> {
    if n == 0 {
        "old_string 未在文件中找到: "@ + path
            + "\n请先 Read 确认内容,或检查空白/缩进。"@
    } else {
        "old_string 在文件中出现 "@ + decimal_of(n as nat)
            + " 次,无法唯一定位。请提供更多上下文使 old_string 唯一,或设 replace_all=true 替换全部。"@
    }
}

/// What the model is told where the old text does not occur as it should.
pub fn refuse(n: usize, path: &str) -> (r: ToolOutput)
    ensures
        r.deep_view() == (ToolOutputView { content: refusal_of(n as int, path@), is_error: true }),
{
    let text = if n == 0 {
        cat3(
            "old_string 未在文件中找到: ",
            path,
            "\n请先 Read 确认内容,或检查空白/缩进。",
        )
    } else {
        let d = decimal(n as u64);
        cat3(
            "old_string 在文件中出现 ",
            d.as_str(),
            " 次,无法唯一定位。请提供更多上下文使 old_string 唯一,或设 replace_all=true 替换全部。",
        )
    };
    ToolOutput { content: text, is_error: true }
}

/// What the model is told of a file that was edited.
pub fn report(path: &str, old: &str, new: &str) -> (r: ToolOutput)
    ensures
        r.deep_view() == (ToolOutputView {
            content: "已编辑 "@ + path@ + "\n"@ + diff_text(path@, old@, new@),
            is_error: false,
        }),
{
    let d = make_diff(path, old, new);
    let head = cat3("已编辑 ", path, "\n");
    ToolOutput { content: cat(head.as_str(), d.as_str()), is_error: false }
}

/// The model of `EditStep`.
pub enum EditStepView {
    Answer(ToolOutputView),
    Write { text: Seq<char>, output: ToolOutputView },
}

/// What is to be done about a file that is to be edited.
#[derive(Debug, PartialEq)]
pub enum EditStep {
    /// Nothing: the model is told why.
    Answer(ToolOutput),
    /// Write the new text, and tell the model.
    Write { text: String, output: ToolOutput },
}

impl DeepView for EditStep {
    type V = EditStepView;

    open spec fn deep_view(&self) -> EditStepView {
        match *self {
            EditStep::Answer(o) => EditStepView::Answer(o.deep_view()),
            EditStep::Write { text, output } => EditStepView::Write {
                text: text@,
                output: output.deep_view(),
            },
        }
    }
}

/// What is to be done about a file: it must have been read before, it must be there,
/// and the old text must occur as it should.
pub open spec fn edit_step(
    path: Seq<char>,
    old: Seq<char>,
    new: Seq<char>,
    all: bool,
    was_read: bool,
    text: Option<Seq<char>>,
) -> EditStepView {
    let refused = |why: Seq<char>|
        EditStepView::Answer(ToolOutputView { content: why, is_error: true });
    if !was_read {
        refused("编辑前须先 Read 该文件(防盲改): "@ + path)
    } else {
        match text {
            None => refused("文件不存在: "@ + path),
            Some(t) => match edited(t, old, new, all) {
                Err(n) => refused(refusal_of(n, path)),
                Ok(after) => EditStepView::Write {
                    text: after,
                    output: ToolOutputView {
                        content: "已编辑 "@ + path + "\n"@ + diff_text(path, t, after),
                        is_error: false,
                    },
                },
            },
        }
    }
}

/// What is to be done about a file, given whether it was read before and what it
/// holds, where it is there.
pub fn run(plan: &EditPlan, was_read: bool, text: Option<&str>) -> (r: EditStep)
    requires
        text matches Some(t) ==> t@.len() < usize::MAX,
    ensures
        r.deep_view() == edit_step(
            plan.path@,
            plan.old_string@,
            plan.new_string@,
            plan.replace_all,
            was_read,
            match text {
                Some(t) => Some(t@),
                None => None,
            },
        ),
{
    if !was_read {
        return EditStep::Answer(unread(plan.path.as_str()));
    }
    match text {
        None => EditStep::Answer(absent(plan.path.as_str())),
        Some(t) => match edit(t, plan) {
            Err(n) => EditStep::Answer(refuse(n, plan.path.as_str())),
            Ok(after) => {
                let output = report(plan.path.as_str(), t, after.as_str());
                EditStep::Write { text: after, output }
            },
        },
    }
}

// ---- laws ----

/// A text that occurs once is replaced there, and what stands around it is kept.
pub proof fn law_edit_replaces_the_one(s: Seq<char>, old: Seq<char>, new: Seq<char>)
    requires
        old.len() > 0,
        edited(s, old, new, false) is Ok,
    ensures
        cut(s, old) matches Some((a, b)) && s == a + old + b && edited(s, old, new, false) == Ok::<
            Seq<char>,
            int,
        >(a + new + b) && !occurs(a, old) && !occurs(b, old),
{
    lemma_find_from(s, old, 0);
    assert(find(s, old) is Some);
    let i = find(s, old)->0;
    let a = s.take(i);
    let b = s.skip(i + old.len());
    assert(s =~= a + old + b);
    let rest = split_list(b, old);
    assert(split_list(s, old) == seq![a] + rest);
    assert(rest.len() == 1);
    assert(!occurs(b, old)) by {
        if occurs(b, old) {
            let j = find(b, old)->0;
            assert(rest == seq![b.take(j)] + split_list(b.skip(j + old.len()), old));
            lemma_split_some(b.skip(j + old.len()), old);
        }
    }
    assert(!occurs(a, old)) by {
        if occurs(a, old) {
            lemma_find_from(a, old, 0);
            let j = find(a, old)->0;
            assert(a.subrange(j, j + old.len()) =~= s.subrange(j, j + old.len()));
            assert(matches_at(s, old, j));
        }
    }
}

/// Nothing is edited blindly: a file that was not read before is not written.
pub proof fn law_unread_files_stay(
    path: Seq<char>,
    old: Seq<char>,
    new: Seq<char>,
    all: bool,
    text: Option<Seq<char>>,
)
    ensures
        edit_step(path, old, new, all, false, text) is Answer,
{
}

/// A file can be edited once it was read, and stays so: where the old text occurs as it
/// should, it is written. A look at a path where no file is changes nothing.
pub proof fn law_read_files_can_be_edited(
    files: Set<Seq<char>>,
    path: Seq<char>,
    found: AtPath,
    old: Seq<char>,
    new: Seq<char>,
    all: bool,
    text: Seq<char>,
)
    requires
        found is File || files.contains(path),
        edited(text, old, new, all) is Ok,
    ensures
        edit_step(path, old, new, all, noted(files, path, found).contains(path), Some(text)) is Write,
        !(found is File) ==> noted(files, path, found) == files,
{
}

} // verus!
