//! Reading and writing files: what the model is told of them.
use vstd::prelude::*;
use vstd::string::*;

use crate::json::Json;
use crate::json::member;
use crate::json::text_in;
use crate::json::u64_in;
use crate::paths::join_path;
use crate::paths::joined_path;
use crate::providers::calls::text_at;
use crate::text::byte_len;
use crate::text::bytes_len;
use crate::text::cat3;
use crate::text::cat;
use crate::text::decimal;
use crate::text::decimal_of;
use crate::text::line_list;
use crate::text::lines;
use crate::text::pad_left;
use crate::text::padded;
use crate::text::same;
use crate::text::views;
use crate::tools::ToolError;
use crate::tools::ToolErrorView;
use crate::tools::ToolOutput;
use crate::tools::ToolOutputView;

verus! {

/// The text that bytes stand for, where what is not UTF-8 is replaced.
pub uninterp spec fn lossy(b: Seq<u8>) -> Seq<char>;

/// `String::from_utf8_lossy`. Bytes that are UTF-8 are kept as they are.
#[verifier::external_body]
pub(crate) fn lossy_text(b: &Vec<u8>) -> (r: String)
    ensures
        r@ == lossy(b@),
        vstd::utf8::valid_utf8(b@) ==> vstd::utf8::encode_utf8(r@) == b@,
{
    String::from_utf8_lossy(b).into_owned()
}

/// What is to be read.
#[derive(Debug, PartialEq)]
pub struct ReadPlan {
    pub path: String,
    /// The first line, counted from one.
    pub offset: u64,
    pub limit: u64,
}

/// Work out what is to be read.
pub fn plan_read(args: &Json, cwd: &str) -> (r: Result<ReadPlan, ToolError>)
    ensures
        match text_in(member(args@, "path"@)) {
            None => r matches Err(e) && e.deep_view() == ToolErrorView::InvalidArgs(
                "path 必须是字符串"@,
            ),
            Some(p) => r matches Ok(plan) && {
                &&& plan.path@ == joined_path(cwd@, p)
                &&& plan.offset == (match u64_in(member(args@, "offset"@)) {
                    Some(n) => if n >= 1 {
                        n
                    } else {
                        1
                    },
                    None => 1,
                })
                &&& plan.limit == (match u64_in(member(args@, "limit"@)) {
                    Some(n) => n,
                    None => 2000,
                })
            },
        },
{
    let p = match text_at(args, "path") {
        Some(p) => p,
        None => {
            return Err(ToolError::InvalidArgs("path 必须是字符串".to_owned()));
        },
    };
    let offset: u64 = match args.get("offset") {
        Some(x) => match x.as_u64() {
            Some(n) => if n >= 1 {
                n
            } else {
                1
            },
            None => 1,
        },
        None => 1,
    };
    let limit: u64 = match args.get("limit") {
        Some(x) => match x.as_u64() {
            Some(n) => n,
            None => 2000,
        },
        None => 2000,
    };
    Ok(ReadPlan { path: join_path(cwd, p.as_str()), offset, limit })
}

/// Whether bytes are taken for binary: a zero among the first 8192.
pub open spec fn looks_binary(b: Seq<u8>) -> bool {
    exists|i: int| 0 <= i < b.len() && i < 8192 && b[i] == 0
}

/// Whether bytes are taken for binary.
pub fn is_binary(b: &Vec<u8>) -> (r: bool)
    ensures
        r == looks_binary(b@),
{
    let mut i: usize = 0;
    while i < b.len() && i < 8192
        invariant
            i <= b@.len(),
            i <= 8192,
            forall|k: int| 0 <= k < i ==> b@[k] != 0,
        decreases b@.len() - i,
    {
        if b[i] == 0 {
            return true;
        }
        i = i + 1;
    }
    false
}

/// The index of the first line shown.
pub open spec fn first_shown(total: int, offset: u64) -> int {
    if offset - 1 <= total {
        offset - 1
    } else {
        total
    }
}

/// The index after the last line shown.
pub open spec fn end_shown(total: int, offset: u64, limit: u64) -> int {
    if first_shown(total, offset) + limit <= total {
        first_shown(total, offset) + limit
    } else {
        total
    }
}

/// Lines with their numbers.
pub open spec fn numbered(lines: Seq<Seq<char>>, from: int, to: int) -> Seq<char>
    decreases to - from,
{
    if to <= from {
        Seq::empty()
    } else {
        numbered(lines, from, to - 1) + padded(decimal_of(to as nat), 6) + "\t"@ + lines[to - 1]
            + "\n"@
    }
}

/// A page of a text: its lines with their numbers, and which of how many they are.
pub open spec fn page_of(text: Seq<char>, offset: u64, limit: u64) -> Seq<char> {
    let lines = line_list(text);
    let from = first_shown(lines.len() as int, offset);
    let to = end_shown(lines.len() as int, offset, limit);
    numbered(lines, from, to) + "\n["@ + decimal_of((from + 1) as nat) + "-"@ + decimal_of(
        to as nat,
    ) + " of "@ + decimal_of(lines.len()) + " lines]"@
}

/// A page of a text.
pub fn page(text: &str, offset: u64, limit: u64) -> (r: String)
    requires
        offset >= 1,
    ensures
        r@ == page_of(text@, offset, limit),
{
    let all = lines(text);
    let ghost ls = line_list(text@);
    assert(ls.len() == all@.len());
    let total: usize = all.len();
    let from: usize = if offset - 1 <= total as u64 {
        (offset - 1) as usize
    } else {
        total
    };
    let to: usize = if limit <= (total - from) as u64 {
        from + limit as usize
    } else {
        total
    };
    let mut out = String::new();
    let mut i: usize = from;
    while i < to
        invariant
            from <= i <= to <= all@.len(),
            ls == views(all@),
            out@ == numbered(ls, from as int, i as int),
        decreases to - i,
    {
        let n = decimal((i + 1) as u64);
        let n = pad_left(n.as_str(), 6);
        let ghost before = out@;
        out.append(n.as_str());
        out.append("\t");
        out.append(all[i].as_str());
        out.append("\n");
        assert(ls[i as int] == all@[i as int]@);
        assert(out@ =~= numbered(ls, from as int, i + 1));
        i = i + 1;
    }
    let ghost body = out@;
    let a = decimal(from as u64 + 1);
    let b = decimal(to as u64);
    let c = decimal(total as u64);
    out.append("\n[");
    out.append(a.as_str());
    out.append("-");
    out.append(b.as_str());
    out.append(" of ");
    out.append(c.as_str());
    out.append(" lines]");
    assert(out@ =~= page_of(text@, offset, limit));
    out
}

/// What the model is told of a file's bytes.
pub open spec fn shown(path: Seq<char>, bytes: Seq<u8>, offset: u64, limit: u64) -> Seq<char> {
    if looks_binary(bytes) {
        "[二进制文件,"@ + decimal_of(bytes.len()) + " bytes,不显示内容]\n路径: "@ + path
    } else {
        page_of(lossy(bytes), offset, limit)
    }
}

/// What the model is told of a file's bytes: a page of its text, or that it is no
/// text.
pub fn show(plan: &ReadPlan, bytes: &Vec<u8>) -> (r: ToolOutput)
    requires
        plan.offset >= 1,
    ensures
        r.deep_view() == (ToolOutputView {
            content: shown(plan.path@, bytes@, plan.offset, plan.limit),
            is_error: false,
        }),
{
    if is_binary(bytes) {
        let n = decimal(bytes.len() as u64);
        let head = cat3("[二进制文件,", n.as_str(), " bytes,不显示内容]\n路径: ");
        let text = cat(head.as_str(), plan.path.as_str());
        return ToolOutput { content: text, is_error: false };
    }
    let text = lossy_text(bytes);
    ToolOutput { content: page(text.as_str(), plan.offset, plan.limit), is_error: false }
}

/// What the model is told where there is no such file.
pub fn missing(path: &str) -> (r: ToolError)
    ensures
        r.deep_view() == ToolErrorView::Failed("文件不存在: "@ + path@),
{
    ToolError::Failed(cat("文件不存在: ", path))
}

/// What the model is told of a directory.
pub fn directory(path: &str) -> (r: ToolOutput)
    ensures
        r.deep_view() == (ToolOutputView {
            content: "路径是目录,不是文件: "@ + path@,
            is_error: true,
        }),
{
    ToolOutput { content: cat("路径是目录,不是文件: ", path), is_error: true }
}

/// What lies at a path.
pub enum AtPath {
    Nothing,
    Directory,
    File(Vec<u8>),
}

/// What the model is told of what lies at a path.
pub fn answer(plan: &ReadPlan, found: &AtPath) -> (r: Result<ToolOutput, ToolError>)
    requires
        plan.offset >= 1,
    ensures
        match *found {
            AtPath::Nothing => r matches Err(e) && e.deep_view() == ToolErrorView::Failed(
                "文件不存在: "@ + plan.path@,
            ),
            AtPath::Directory => r matches Ok(o) && o.deep_view() == (ToolOutputView {
                content: "路径是目录,不是文件: "@ + plan.path@,
                is_error: true,
            }),
            AtPath::File(b) => r matches Ok(o) && o.deep_view() == (ToolOutputView {
                content: shown(plan.path@, b@, plan.offset, plan.limit),
                is_error: false,
            }),
        },
{
    match found {
        AtPath::Nothing => Err(missing(plan.path.as_str())),
        AtPath::Directory => Ok(directory(plan.path.as_str())),
        AtPath::File(b) => Ok(show(plan, b)),
    }
}

/// The files that were read, after it was seen what lies at a path: a file that is
/// there counts as read from then on.
pub open spec fn noted(files: Set<Seq<char>>, path: Seq<char>, found: AtPath) -> Set<Seq<char>> {
    if found is File {
        files.insert(path)
    } else {
        files
    }
}

/// The paths of files, as a set.
pub open spec fn path_set(s: Seq<String>) -> Set<Seq<char>> {
    Set::new(|p: Seq<char>| exists|i: int| 0 <= i < s.len() && #[trigger] s[i]@ == p)
}

/// The files that were read in a turn.
pub struct ReadFiles {
    paths: Vec<String>,
}

impl View for ReadFiles {
    type V = Set<Seq<char>>;

    closed spec fn view(&self) -> Set<Seq<char>> {
        path_set(self.paths@)
    }
}

impl ReadFiles {
    /// No files.
    pub fn new() -> (r: Self)
        ensures
            r@ == Set::<Seq<char>>::empty(),
    {
        let r = ReadFiles { paths: Vec::new() };
        assert(r@ =~= Set::<Seq<char>>::empty());
        r
    }

    /// Whether a file was read.
    pub fn holds(&self, path: &str) -> (r: bool)
        ensures
            r == self@.contains(path@),
    {
        let mut i: usize = 0;
        while i < self.paths.len()
            invariant
                i <= self.paths@.len(),
                forall|k: int| 0 <= k < i ==> #[trigger] self.paths@[k]@ != path@,
            decreases self.paths@.len() - i,
        {
            if same(self.paths[i].as_str(), path) {
                assert(self.paths@[i as int]@ == path@);
                return true;
            }
            i = i + 1;
        }
        false
    }

    /// It was seen what lies at a path.
    pub fn note(&mut self, path: &str, found: &AtPath)
        ensures
            final(self)@ == noted(old(self)@, path@, *found),
    {
        match found {
            AtPath::File(_) => {
                let ghost before = self.paths@;
                self.paths.push(path.to_owned());
                assert(self.paths@[before.len() as int]@ == path@);
                assert forall|p: Seq<char>| self@.contains(p) == path_set(before).insert(
                    path@,
                ).contains(p) by {
                    if path_set(before).contains(p) {
                        let i = choose|i: int| 0 <= i < before.len() && #[trigger] before[i]@ == p;
                        assert(self.paths@[i]@ == p);
                    }
                    if self@.contains(p) && p != path@ {
                        let i = choose|i: int|
                            0 <= i < self.paths@.len() && #[trigger] self.paths@[i]@ == p;
                        assert(before[i]@ == p);
                    }
                }
                assert(self@ =~= path_set(before).insert(path@));
            },
            _ => {},
        }
    }
}

/// What is to be written.
#[derive(Debug, PartialEq)]
pub struct WritePlan {
    pub path: String,
    pub content: String,
}

/// Work out what is to be written.
pub fn plan_write(args: &Json, cwd: &str) -> (r: Result<WritePlan, ToolError>)
    ensures
        match (text_in(member(args@, "path"@)), text_in(member(args@, "content"@))) {
            (None, _) => r matches Err(e) && e.deep_view() == ToolErrorView::InvalidArgs(
                "path 必须是字符串"@,
            ),
            (Some(_), None) => r matches Err(e) && e.deep_view() == ToolErrorView::InvalidArgs(
                "content 必须是字符串"@,
            ),
            (Some(p), Some(c)) => r matches Ok(plan) && plan.path@ == joined_path(cwd@, p)
                && plan.content@ == c,
        },
{
    match (text_at(args, "path"), text_at(args, "content")) {
        (None, _) => Err(ToolError::InvalidArgs("path 必须是字符串".to_owned())),
        (Some(_), None) => Err(ToolError::InvalidArgs("content 必须是字符串".to_owned())),
        (Some(p), Some(content)) => Ok(WritePlan { path: join_path(cwd, p.as_str()), content }),
    }
}

/// What the model is told of a file that was written.
pub fn written(existed: bool, plan: &WritePlan) -> (r: ToolOutput)
    ensures
        r.deep_view() == (ToolOutputView {
            content: (if existed {
                "overwrote"@
            } else {
                "created"@
            }) + " "@ + plan.path@ + " ("@ + decimal_of(byte_len(plan.content@)) + " bytes)"@,
            is_error: false,
        }),
{
    let word = if existed {
        "overwrote"
    } else {
        "created"
    };
    let n = decimal(bytes_len(plan.content.as_str()) as u64);
    let mut r = cat3(word, " ", plan.path.as_str());
    r.append(" (");
    r.append(n.as_str());
    r.append(" bytes)");
    ToolOutput { content: r, is_error: false }
}

} // verus!
