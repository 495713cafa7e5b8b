//! Searching files by content.
use vstd::prelude::*;
use vstd::string::*;

use crate::content::Content;
use crate::json::Json;
use crate::json::member;
use crate::json::text_in;
use crate::paths::join_path;
use crate::paths::joined_path;
use crate::permissions::glob_hits;
use crate::permissions::glob_match;
use crate::providers::calls::is_text;
use crate::providers::calls::text_at;
use crate::text::byte_len;
use crate::text::bytes_len;
use crate::text::cat3;
use crate::text::cat;
use crate::text::clip;
use crate::text::clipped;
use crate::text::decimal;
use crate::text::decimal_of;
use crate::text::fit;
use crate::text::lemma_byte_len_split;
use crate::text::lemma_fit;
use crate::text::line_list;
use crate::text::lines;
use crate::text::same;
use crate::text::signed_decimal;
use crate::text::signed_decimal_of;
use crate::text::views;
use crate::tools::ToolError;
use crate::tools::ToolErrorView;
use crate::tools::ToolOutput;
use crate::tools::ToolOutputView;

verus! {

/// The milliseconds that a search may take.
pub const GREP_TIMEOUT_MS: u64 = 30_000;

/// How many bytes of a result are kept.
pub const OUTPUT_HEAD: usize = 10_000;

/// `regex`'s compiled expressions.
#[verifier::external_type_specification]
#[verifier::external_body]
pub struct ExRegex(regex::Regex);

/// What `regex` reports of an expression that does not compile.
#[verifier::external_type_specification]
#[verifier::external_body]
pub struct ExRegexError(regex::Error);

/// The expression that a compiled one was made from.
pub uninterp spec fn regex_source(r: regex::Regex) -> Seq<char>;

/// Whether a text is an expression that `regex` compiles.
pub uninterp spec fn regex_valid(p: Seq<char>) -> bool;

/// Whether an expression that compiles matches somewhere in a text.
pub uninterp spec fn regex_hits(p: Seq<char>, s: Seq<char>) -> bool;

/// `regex::Regex::new`. The compiled expression knows what it was made from.
#[verifier::external_body]
fn regex_new(p: &str) -> (r: Result<regex::Regex, regex::Error>)
    ensures
        r is Ok == regex_valid(p@),
        r matches Ok(x) ==> regex_source(x) == p@,
{
    regex::Regex::new(p)
}

/// `regex::Regex::is_match`.
#[verifier::external_body]
fn regex_is_match(re: &regex::Regex, s: &str) -> (r: bool)
    ensures
        r == regex_hits(regex_source(*re), s@),
{
    re.is_match(s)
}

/// What `regex::Regex::new` says of an expression that it does not compile.
pub uninterp spec fn regex_refusal(p: Seq<char>) -> Seq<char>;

/// The text of the error of `regex::Regex::new`, for an expression that it does not
/// compile.
#[verifier::external_body]
fn regex_error_text(p: &str) -> (r: String)
    ensures
        !regex_valid(p@) ==> r@ == regex_refusal(p@),
{
    regex::Regex::new(p).err().map(|e| e.to_string()).unwrap_or_default()
}

/// How matches are listed.
#[derive(Debug, Clone, Copy, PartialEq, Eq, Structural)]
pub enum OutputMode {
    Content,
    Files,
}

/// What is to be searched for.
pub struct GrepPlan {
    pub pattern: String,
    pub regex: regex::Regex,
    pub path: String,
    pub glob: Option<String>,
    pub mode: OutputMode,
}

/// Work out what is to be searched for.
pub fn plan(args: &Json, cwd: &str) -> (r: Result<GrepPlan, ToolError>)
    ensures
        match text_in(member(args@, "pattern"@)) {
            None => r matches Err(e) && e.deep_view() == ToolErrorView::InvalidArgs(
                "pattern 必须是字符串"@,
            ),
            Some(p) => if !regex_valid(p) {
                r matches Err(e) && e.deep_view() == ToolErrorView::InvalidArgs(
                    "正则无效: "@ + regex_refusal(p),
                )
            } else {
                r matches Ok(plan) && {
                    &&& plan.pattern@ == p
                    &&& regex_source(plan.regex) == p
                    &&& plan.path@ == (match text_in(member(args@, "path"@)) {
                        Some(d) => joined_path(cwd@, d),
                        None => cwd@,
                    })
                    &&& plan.glob.deep_view() == text_in(member(args@, "glob"@))
                    &&& plan.mode == (if text_in(member(args@, "output_mode"@)) == Some(
                        "files_with_matches"@,
                    ) {
                        OutputMode::Files
                    } else {
                        OutputMode::Content
                    })
                }
            },
        },
{
    let pattern = match text_at(args, "pattern") {
        Some(p) => p,
        None => {
            return Err(ToolError::InvalidArgs("pattern 必须是字符串".to_owned()));
        },
    };
    let path = match text_at(args, "path") {
        Some(d) => join_path(cwd, d.as_str()),
        None => cwd.to_owned(),
    };
    let glob = text_at(args, "glob");
    let asked = text_at(args, "output_mode");
    let mode = if is_text(&asked, "files_with_matches") {
        OutputMode::Files
    } else {
        OutputMode::Content
    };
    match regex_new(pattern.as_str()) {
        Ok(regex) => Ok(GrepPlan { pattern, regex, path, glob, mode }),
        Err(_) => {
            let text = regex_error_text(pattern.as_str());
            Err(ToolError::InvalidArgs(cat("正则无效: ", text.as_str())))
        },
    }
}

/// The arguments with which ripgrep is run.
pub open spec fn rg_arguments(
    pattern: Seq<char>,
    path: Seq<char>,
    glob: Option<Seq<char>>,
    mode: OutputMode,
) -> Seq<Seq<char>> {
    let s = seq![pattern, "-n"@, "--color=never"@];
    let s = if mode == OutputMode::Files {
        s.push("-l"@)
    } else {
        s
    };
    let s = match glob {
        Some(g) => s.push("--glob"@).push(g),
        None => s,
    };
    s.push(path)
}

/// The arguments with which ripgrep is run.
pub fn rg_args(plan: &GrepPlan) -> (r: Vec<String>)
    ensures
        views(r@) == rg_arguments(
            plan.pattern@,
            plan.path@,
            plan.glob.deep_view(),
            plan.mode,
        ),
{
    let mut v: Vec<String> = Vec::new();
    v.push(plan.pattern.clone());
    v.push("-n".to_owned());
    v.push("--color=never".to_owned());
    match plan.mode {
        OutputMode::Files => v.push("-l".to_owned()),
        OutputMode::Content => {},
    }
    match &plan.glob {
        Some(g) => {
            v.push("--glob".to_owned());
            v.push(g.clone());
        },
        None => {},
    }
    v.push(plan.path.clone());
    assert(views(v@) =~= rg_arguments(
        plan.pattern@,
        plan.path@,
        plan.glob.deep_view(),
        plan.mode,
    ));
    v
}

/// A result, cut short where it is long.
pub open spec fn cut_short(s: Seq<char>) -> Seq<char> {
    let head = clipped(s, OUTPUT_HEAD as int);
    let dropped = byte_len(s) - byte_len(head);
    if dropped > 0 {
        head + "\n[... "@ + decimal_of(dropped as nat) + " bytes truncated ...]"@
    } else {
        s
    }
}

/// A result, cut short where it is long.
pub fn shorten(s: &str) -> (r: String)
    ensures
        r@ == cut_short(s@),
{
    let head = clip(s, OUTPUT_HEAD);
    let total: usize = bytes_len(s);
    proof {
        lemma_fit(s@, OUTPUT_HEAD as int);
        lemma_byte_len_split(s@, fit(s@, OUTPUT_HEAD as int) as int);
    }
    let dropped: usize = total - bytes_len(head.as_str());
    if dropped > 0 {
        let n = decimal(dropped as u64);
        let note = cat3("\n[... ", n.as_str(), " bytes truncated ...]");
        cat(head.as_str(), note.as_str())
    } else {
        s.to_owned()
    }
}

/// What the model is told of what ripgrep found. It ends with one where nothing
/// matched, and with more where it failed.
pub fn rg_result(code: i32, stdout: &str, stderr: &str) -> (r: Result<ToolOutput, ToolError>)
    ensures
        if code > 1 {
            r matches Err(e) && e.deep_view() == ToolErrorView::Failed(
                "rg 错误(退出码 "@ + signed_decimal_of(code as int) + "): "@ + stderr@,
            )
        } else {
            r matches Ok(o) && o.deep_view() == (ToolOutputView {
                content: cut_short(stdout@),
                is_error: false,
            })
        },
{
    if code > 1 {
        let n = signed_decimal(code);
        let head = cat3("rg 错误(退出码 ", n.as_str(), "): ");
        return Err(ToolError::Failed(cat(head.as_str(), stderr)));
    }
    Ok(ToolOutput { content: shorten(stdout), is_error: false })
}

/// The directories that a search passes over.
pub open spec fn is_skipped(name: Seq<char>) -> bool {
    name == ".git"@ || name == "target"@ || name == "node_modules"@ || name == ".next"@ || name
        == "dist"@ || name == ".cache"@ || name == "__pycache__"@ || name == ".venv"@
}

/// Whether a search passes over a directory.
pub fn skips(name: &str) -> (r: bool)
    ensures
        r == is_skipped(name@),
{
    same(name, ".git") || same(name, "target") || same(name, "node_modules") || same(name, ".next")
        || same(name, "dist") || same(name, ".cache") || same(name, "__pycache__") || same(
        name,
        ".venv",
    )
}

/// Whether a search has found so much that it goes into no more directories.
pub fn is_full(found: &str) -> (r: bool)
    ensures
        r == (byte_len(found@) > 20_000),
{
    bytes_len(found) > 20_000
}

/// The lines that a file adds to the result, up to its line `n`.
pub open spec fn hits_up_to(
    pattern: Seq<char>,
    path: Seq<char>,
    lines: Seq<Seq<char>>,
    n: int,
) -> Seq<char>
    decreases n,
{
    if n <= 0 {
        Seq::empty()
    } else if regex_hits(pattern, lines[n - 1]) {
        hits_up_to(pattern, path, lines, n - 1) + path + ":"@ + decimal_of(n as nat) + ":"@ + lines[
        n - 1] + "\n"@
    } else {
        hits_up_to(pattern, path, lines, n - 1)
    }
}

/// What a file adds to the result: its lines that match, or its name where any
/// does.
pub open spec fn file_hits(
    pattern: Seq<char>,
    path: Seq<char>,
    content: Seq<char>,
    mode: OutputMode,
) -> Seq<char> {
    let lines = line_list(content);
    if mode == OutputMode::Files {
        if exists|i: int| 0 <= i < lines.len() && regex_hits(pattern, #[trigger] lines[i]) {
            path + "\n"@
        } else {
            Seq::empty()
        }
    } else {
        hits_up_to(pattern, path, lines, lines.len() as int)
    }
}

/// What a file adds to the result.
pub fn search_file(re: &regex::Regex, path: &str, content: &str, mode: OutputMode) -> (r: String)
    ensures
        r@ == file_hits(regex_source(*re), path@, content@, mode),
{
    let all = lines(content);
    let ghost ls = line_list(content@);
    let ghost p = regex_source(*re);
    assert(ls.len() == all@.len());
    let mut out = String::new();
    let mut i: usize = 0;
    while i < all.len()
        invariant
            i <= all@.len(),
            ls == views(all@),
            ls == line_list(content@),
            p == regex_source(*re),
            mode == OutputMode::Files ==> out@.len() == 0,
            mode == OutputMode::Files ==> forall|k: int|
                0 <= k < i ==> !regex_hits(p, #[trigger] ls[k]),
            mode == OutputMode::Content ==> out@ == hits_up_to(p, path@, ls, i as int),
        decreases all@.len() - i,
    {
        assert(ls[i as int] == all@[i as int]@);
        if regex_is_match(re, all[i].as_str()) {
            match mode {
                OutputMode::Files => {
                    let r = cat(path, "\n");
                    return r;
                },
                OutputMode::Content => {
                    let n = decimal((i + 1) as u64);
                    let ghost before = out@;
                    out.append(path);
                    out.append(":");
                    out.append(n.as_str());
                    out.append(":");
                    out.append(all[i].as_str());
                    out.append("\n");
                    assert(out@ =~= hits_up_to(p, path@, ls, i + 1));
                },
            }
        }
        i = i + 1;
    }
    assert(mode == OutputMode::Files ==> out@ =~= Seq::<char>::empty());
    out
}

/// What `globset::Glob::new` says is wrong with a glob, where anything is.
pub uninterp spec fn glob_refusal(pattern: Seq<char>) -> Option<Seq<char>>;

/// The text of the error of `globset::Glob::new`, where it gives one.
#[verifier::external_body]
fn glob_error(pattern: &str) -> (r: Option<String>)
    ensures
        r.deep_view() == glob_refusal(pattern@),
{
    globset::Glob::new(pattern).err().map(|e| e.to_string())
}

/// Whether the files that are searched can be told by a glob.
pub fn check_glob(glob: &Option<String>) -> (r: Result<(), ToolError>)
    ensures
        match *glob {
            None => r is Ok,
            Some(g) => match glob_refusal(g@) {
                None => r is Ok,
                Some(why) => r matches Err(e) && e.deep_view() == ToolErrorView::InvalidArgs(
                    "glob 无效: "@ + why,
                ),
            },
        },
{
    match glob {
        None => Ok(()),
        Some(g) => match glob_error(g.as_str()) {
            None => Ok(()),
            Some(why) => Err(ToolError::InvalidArgs(cat("glob 无效: ", why.as_str()))),
        },
    }
}

/// Whether a file's name is one that is searched.
pub fn wanted(glob: &Option<String>, path: &str) -> (r: bool)
    ensures
        r == (glob matches Some(g) ==> glob_hits(g@, path@)),
{
    match glob {
        Some(g) => glob_match(g.as_str(), path),
        None => true,
    }
}

} // verus!
