//! Patches to several files, as text.
//!
//! `parse` reads the patch language. `plan` works out, in memory, what every
//! hunk does to its file; only where all of them succeed is there anything to
//! write. An update finds its place by its context and the lines that it
//! removes, white space aside, and is refused where there is no place or more
//! than one.
use vstd::prelude::*;
use vstd::string::*;

use crate::paths::join_path;
use crate::paths::joined_path;
use crate::paths::paths_equal;
use crate::paths::same_path;
use crate::text::after_prefix;
use crate::text::cat3;
use crate::text::copy_strings;
use crate::text::cut;
use crate::text::ends_with;
use crate::text::join;
use crate::text::joined;
use crate::text::lemma_lines_before;
use crate::text::line_list;
use crate::text::lines;
use crate::text::same;
use crate::text::split_once;
use crate::text::split_whitespace;
use crate::text::strip_prefix;
use crate::text::trim;
use crate::text::trimmed;
use crate::text::views;
use crate::text::words;

verus! {

// ---- data ----

/// The model of `HunkAction`.
pub enum HunkActionView {
    Add,
    Update,
    Delete,
    Move { to: Seq<char> },
}

/// What a hunk does.
#[derive(Debug, PartialEq, Eq)]
pub enum HunkAction {
    Add,
    Update,
    Delete,
    Move { to: String },
}

/// The model of `Hunk`.
#[verifier::ext_equal]
pub struct HunkView {
    pub action: HunkActionView,
    pub path: Seq<char>,
    pub seek_context: Seq<Seq<char>>,
    pub remove: Seq<Seq<char>>,
    pub add: Seq<Seq<char>>,
}

/// One change to one file.
#[derive(Debug, PartialEq, Eq)]
pub struct Hunk {
    pub action: HunkAction,
    pub path: String,
    /// For an update: the lines by which its place is found.
    pub seek_context: Vec<String>,
    /// For an update: the lines that go.
    pub remove: Vec<String>,
    /// For an update: the lines that come; for a new file: all of it.
    pub add: Vec<String>,
}

impl DeepView for HunkAction {
    type V = HunkActionView;

    open spec fn deep_view(&self) -> HunkActionView {
        match *self {
            HunkAction::Add => HunkActionView::Add,
            HunkAction::Update => HunkActionView::Update,
            HunkAction::Delete => HunkActionView::Delete,
            HunkAction::Move { to } => HunkActionView::Move { to: to@ },
        }
    }
}

impl DeepView for Hunk {
    type V = HunkView;

    open spec fn deep_view(&self) -> HunkView {
        HunkView {
            action: self.action.deep_view(),
            path: self.path@,
            seek_context: views(self.seek_context@),
            remove: views(self.remove@),
            add: views(self.add@),
        }
    }
}

/// The hunks of a list.
pub open spec fn hunk_views(s: Seq<Hunk>) -> Seq<HunkView> {
    Seq::new(s.len(), |i: int| s[i].deep_view())
}

/// The model of `ParseError`.
pub enum ParseErrorView {
    ExpectedBegin,
    UnexpectedEof,
    AnchorOutsideHunk,
    LineOutsideHunk(Seq<char>),
    BadMove(Seq<char>),
    UnknownLine(Seq<char>),
}

/// Why a text is not a patch.
#[derive(Debug, PartialEq, Eq)]
pub enum ParseError {
    ExpectedBegin,
    UnexpectedEof,
    AnchorOutsideHunk,
    LineOutsideHunk(String),
    BadMove(String),
    UnknownLine(String),
}

impl DeepView for ParseError {
    type V = ParseErrorView;

    open spec fn deep_view(&self) -> ParseErrorView {
        match *self {
            ParseError::ExpectedBegin => ParseErrorView::ExpectedBegin,
            ParseError::UnexpectedEof => ParseErrorView::UnexpectedEof,
            ParseError::AnchorOutsideHunk => ParseErrorView::AnchorOutsideHunk,
            ParseError::LineOutsideHunk(s) => ParseErrorView::LineOutsideHunk(s@),
            ParseError::BadMove(s) => ParseErrorView::BadMove(s@),
            ParseError::UnknownLine(s) => ParseErrorView::UnknownLine(s@),
        }
    }
}

// ---- parsing ----

/// A hunk without lines.
pub open spec fn bare(action: HunkActionView, path: Seq<char>) -> HunkView {
    HunkView {
        action,
        path,
        seek_context: Seq::empty(),
        remove: Seq::empty(),
        add: Seq::empty(),
    }
}

/// What has been read so far: the finished hunks, and the one whose lines may go
/// on.
#[verifier::ext_equal]
pub struct Reading {
    pub done: Seq<HunkView>,
    pub open: Option<HunkView>,
}

/// The hunks, the open one among them.
pub open spec fn closed(r: Reading) -> Seq<HunkView> {
    match r.open {
        Some(h) => r.done.push(h),
        None => r.done,
    }
}

/// Read one line.
pub open spec fn read_line(r: Reading, line: Seq<char>) -> Result<Reading, ParseErrorView> {
    match after_prefix(line, "*** Add File: "@) {
        Some(rest) => Ok(
            Reading { done: closed(r), open: Some(bare(HunkActionView::Add, rest)) },
        ),
        None => match after_prefix(line, "*** Update File: "@) {
            Some(rest) => Ok(
                Reading { done: closed(r), open: Some(bare(HunkActionView::Update, rest)) },
            ),
            None => match after_prefix(line, "*** Delete File: "@) {
                Some(rest) => Ok(
                    Reading {
                        done: closed(r).push(bare(HunkActionView::Delete, rest)),
                        open: None,
                    },
                ),
                None => match after_prefix(line, "*** Move File: "@) {
                    Some(rest) => match cut(rest, " to "@) {
                        Some((from, to)) => Ok(
                            Reading {
                                done: closed(r).push(bare(HunkActionView::Move { to }, from)),
                                open: None,
                            },
                        ),
                        None => Err(ParseErrorView::BadMove(rest)),
                    },
                    None => read_body(r, line),
                },
            },
        },
    }
}

/// Read a line that belongs to the open hunk.
pub open spec fn read_body(r: Reading, line: Seq<char>) -> Result<Reading, ParseErrorView> {
    match after_prefix(line, "@@ "@) {
        Some(anchor) => match r.open {
            Some(h) => Ok(
                Reading {
                    open: Some(HunkView { seek_context: h.seek_context.push(anchor), ..h }),
                    ..r
                },
            ),
            None => Err(ParseErrorView::AnchorOutsideHunk),
        },
        None => if line.len() == 0 {
            Ok(r)
        } else if line[0] == '+' || line[0] == '-' || line[0] == ' ' {
            let content = line.skip(1);
            match r.open {
                Some(h) => Ok(
                    Reading {
                        open: Some(
                            if line[0] == '+' {
                                HunkView { add: h.add.push(content), ..h }
                            } else if line[0] == '-' {
                                HunkView { remove: h.remove.push(content), ..h }
                            } else {
                                HunkView { seek_context: h.seek_context.push(content), ..h }
                            },
                        ),
                        ..r
                    },
                ),
                None => Err(ParseErrorView::LineOutsideHunk(line)),
            }
        } else {
            Err(ParseErrorView::UnknownLine(line))
        },
    }
}

/// Read lines up to the one that ends the patch, or to the last.
pub open spec fn read_lines(r: Reading, rest: Seq<Seq<char>>) -> Result<
    Seq<HunkView>,
    ParseErrorView,
>
    decreases rest.len(),
{
    if rest.len() == 0 || trimmed(rest[0]) == "*** End Patch"@ {
        Ok(closed(r))
    } else {
        match read_line(r, rest[0]) {
            Ok(next) => read_lines(next, rest.skip(1)),
            Err(e) => Err(e),
        }
    }
}

/// The hunks of a patch.
pub open spec fn patch_of(input: Seq<char>) -> Result<Seq<HunkView>, ParseErrorView> {
    let all = line_list(input);
    if all.len() == 0 {
        Err(ParseErrorView::UnexpectedEof)
    } else if trimmed(all[0]) != "*** Begin Patch"@ {
        Err(ParseErrorView::ExpectedBegin)
    } else {
        read_lines(Reading { done: Seq::empty(), open: None }, all.skip(1))
    }
}

/// What has been read so far.
struct Reader {
    done: Vec<Hunk>,
    open: Option<Hunk>,
}

impl Reader {
    spec fn reading(&self) -> Reading {
        Reading {
            done: hunk_views(self.done@),
            open: match self.open {
                Some(h) => Some(h.deep_view()),
                None => None,
            },
        }
    }

    /// Finish the open hunk.
    fn close(&mut self)
        ensures
            final(self).reading() == (Reading { done: closed(old(self).reading()), open: None }),
    {
        let ghost before = self.done@;
        match self.open.take() {
            Some(h) => {
                self.done.push(h);
                assert(hunk_views(self.done@) =~= hunk_views(before).push(h.deep_view()));
            },
            None => {},
        }
    }

    /// Start a hunk that has lines.
    fn start(&mut self, action: HunkAction, path: String)
        ensures
            final(self).reading() == (Reading {
                done: closed(old(self).reading()),
                open: Some(bare(action.deep_view(), path@)),
            }),
    {
        self.close();
        let h = new_hunk(action, path);
        self.open = Some(h);
    }

    /// Add a hunk that has no lines.
    fn whole(&mut self, action: HunkAction, path: String)
        ensures
            final(self).reading() == (Reading {
                done: closed(old(self).reading()).push(bare(action.deep_view(), path@)),
                open: None,
            }),
    {
        self.close();
        let ghost before = self.done@;
        let h = new_hunk(action, path);
        self.done.push(h);
        assert(hunk_views(self.done@) =~= hunk_views(before).push(h.deep_view()));
    }

    /// Read one line.
    fn line(&mut self, line: &String) -> (r: Result<(), ParseError>)
        ensures
            match r {
                Ok(_) => read_line(old(self).reading(), line@) == Ok::<_, ParseErrorView>(
                    final(self).reading(),
                ),
                Err(e) => read_line(old(self).reading(), line@) == Err::<Reading, _>(e.deep_view()),
            },
    {
        match strip_prefix(line.as_str(), "*** Add File: ") {
            Some(rest) => {
                self.start(HunkAction::Add, rest);
                return Ok(());
            },
            None => {},
        }
        match strip_prefix(line.as_str(), "*** Update File: ") {
            Some(rest) => {
                self.start(HunkAction::Update, rest);
                return Ok(());
            },
            None => {},
        }
        match strip_prefix(line.as_str(), "*** Delete File: ") {
            Some(rest) => {
                self.whole(HunkAction::Delete, rest);
                return Ok(());
            },
            None => {},
        }
        match strip_prefix(line.as_str(), "*** Move File: ") {
            Some(rest) => match split_once(rest.as_str(), " to ") {
                Some((from, to)) => {
                    self.whole(HunkAction::Move { to }, from);
                    return Ok(());
                },
                None => {
                    return Err(ParseError::BadMove(rest));
                },
            },
            None => {},
        }
        self.body(line)
    }

    /// Read a line that belongs to the open hunk.
    fn body(&mut self, line: &String) -> (r: Result<(), ParseError>)
        ensures
            match r {
                Ok(_) => read_body(old(self).reading(), line@) == Ok::<_, ParseErrorView>(
                    final(self).reading(),
                ),
                Err(e) => read_body(old(self).reading(), line@) == Err::<Reading, _>(e.deep_view()),
            },
    {
        match strip_prefix(line.as_str(), "@@ ") {
            Some(anchor) => {
                return match self.open.take() {
                    Some(mut h) => {
                        let ghost before = h.seek_context@;
                        h.seek_context.push(anchor);
                        assert(views(h.seek_context@) =~= views(before).push(anchor@));
                        self.open = Some(h);
                        Ok(())
                    },
                    None => Err(ParseError::AnchorOutsideHunk),
                };
            },
            None => {},
        }
        if line.as_str().is_empty() {
            return Ok(());
        }
        let c = line.as_str().get_char(0);
        if c != '+' && c != '-' && c != ' ' {
            return Err(ParseError::UnknownLine(line.clone()));
        }
        match self.open.take() {
            Some(mut h) => {
                let all = crate::text::chars_of(line.as_str());
                let content = crate::text::string_of(all.as_slice(), 1, all.len());
                assert(content@ =~= line@.skip(1));
                let ghost was = h;
                if c == '+' {
                    h.add.push(content);
                    assert(views(h.add@) =~= views(was.add@).push(content@));
                } else if c == '-' {
                    h.remove.push(content);
                    assert(views(h.remove@) =~= views(was.remove@).push(content@));
                } else {
                    h.seek_context.push(content);
                    assert(views(h.seek_context@) =~= views(was.seek_context@).push(content@));
                }
                self.open = Some(h);
                Ok(())
            },
            None => Err(ParseError::LineOutsideHunk(line.clone())),
        }
    }
}

fn new_hunk(action: HunkAction, path: String) -> (r: Hunk)
    ensures
        r.deep_view() == bare(action.deep_view(), path@),
{
    let h = Hunk {
        action,
        path,
        seek_context: Vec::new(),
        remove: Vec::new(),
        add: Vec::new(),
    };
    assert(h.deep_view() =~= bare(action.deep_view(), path@));
    h
}

/// Read a patch.
pub fn parse(input: &str) -> (r: Result<Vec<Hunk>, ParseError>)
    ensures
        match r {
            Ok(h) => patch_of(input@) == Ok::<_, ParseErrorView>(hunk_views(h@)),
            Err(e) => patch_of(input@) == Err::<Seq<HunkView>, _>(e.deep_view()),
        },
{
    let all = lines(input);
    if all.len() == 0 {
        return Err(ParseError::UnexpectedEof);
    }
    assert(line_list(input@)[0] == all@[0]@);
    let first = trim(all[0].as_str());
    if !same(first.as_str(), "*** Begin Patch") {
        return Err(ParseError::ExpectedBegin);
    }
    let mut reader = Reader { done: Vec::new(), open: None };
    let ghost ls = views(all@);
    assert(reader.reading() =~= Reading { done: Seq::empty(), open: None });
    let mut i: usize = 1;
    while i < all.len()
        invariant
            1 <= i <= all@.len(),
            ls == views(all@),
            ls == line_list(input@),
            patch_of(input@) == read_lines(reader.reading(), ls.skip(i as int)),
        decreases all@.len() - i,
    {
        let ghost rest = ls.skip(i as int);
        assert(rest[0] == all@[i as int]@);
        assert(rest.skip(1) =~= ls.skip(i + 1));
        let t = trim(all[i].as_str());
        if same(t.as_str(), "*** End Patch") {
            reader.close();
            return Ok(reader.done);
        }
        match reader.line(&all[i]) {
            Ok(_) => {},
            Err(e) => {
                return Err(e);
            },
        }
        i = i + 1;
    }
    reader.close();
    Ok(reader.done)
}

// ---- addressing ----

/// A line with its words one space apart.
pub open spec fn normal(s: Seq<char>) -> Seq<char> {
    joined(words(s), " "@)
}

/// The lines by which an update finds its place: context, and what it removes.
pub open spec fn block_of(h: HunkView) -> Seq<Seq<char>> {
    h.seek_context + h.remove
}

/// Whether the block stands at line `i`, white space aside.
pub open spec fn block_at(lines: Seq<Seq<char>>, block: Seq<Seq<char>>, i: int) -> bool {
    &&& 0 <= i
    &&& i + block.len() <= lines.len()
    &&& forall|j: int|
        0 <= j < block.len() ==> normal(#[trigger] lines[i + j]) == normal(block[j])
}

/// Why an update is refused.
#[derive(Debug, Clone, Copy, PartialEq, Eq, Structural)]
pub enum Refusal {
    Empty,
    Missing,
    Ambiguous,
}

/// The lines after an update whose block stands at line `i`: the context stays as
/// it is in the file, the removed lines give way to the added ones.
pub open spec fn lines_after(lines: Seq<Seq<char>>, h: HunkView, i: int) -> Seq<Seq<char>> {
    lines.take(i + h.seek_context.len()) + h.add + lines.skip(i + block_of(h).len())
}

/// Lines as text, with a line feed at the end where the old text had one.
pub open spec fn text_like(old: Seq<char>, lines: Seq<Seq<char>>) -> Seq<char> {
    joined(lines, "\n"@) + if "\n"@.is_suffix_of(old) {
        "\n"@
    } else {
        Seq::empty()
    }
}

/// The text after an update: the block must stand in exactly one place.
pub open spec fn updated(old: Seq<char>, h: HunkView) -> Result<Seq<char>, Refusal> {
    let lines = line_list(old);
    let block = block_of(h);
    if block.len() == 0 {
        Err(Refusal::Empty)
    } else if !exists|i: int| block_at(lines, block, i) {
        Err(Refusal::Missing)
    } else if exists|i: int, j: int| i != j && block_at(lines, block, i) && block_at(lines, block, j) {
        Err(Refusal::Ambiguous)
    } else {
        Ok(text_like(old, lines_after(lines, h, choose|i: int| block_at(lines, block, i))))
    }
}

/// A line with its words one space apart.
fn normalize(s: &str) -> (r: String)
    ensures
        r@ == normal(s@),
{
    let w = split_whitespace(s);
    join(&w, " ")
}

fn normalize_all(v: &Vec<String>) -> (r: Vec<String>)
    ensures
        r@.len() == v@.len(),
        forall|i: int| 0 <= i < v@.len() ==> (#[trigger] r@[i])@ == normal(v@[i]@),
{
    let mut out: Vec<String> = Vec::new();
    let mut i: usize = 0;
    while i < v.len()
        invariant
            i <= v@.len(),
            out@.len() == i,
            forall|k: int| 0 <= k < i ==> (#[trigger] out@[k])@ == normal(v@[k]@),
        decreases v@.len() - i,
    {
        out.push(normalize(v[i].as_str()));
        i = i + 1;
    }
    out
}

/// Whether the normal lines of `block` stand at `i` in the normal lines of a file.
fn stands_at(file: &Vec<String>, block: &Vec<String>, i: usize) -> (r: bool)
    requires
        i + block@.len() <= file@.len(),
    ensures
        r == forall|j: int| 0 <= j < block@.len() ==> (#[trigger] file@[i + j])@ == block@[j]@,
{
    let n: usize = file.len();
    let mut j: usize = 0;
    while j < block.len()
        invariant
            j <= block@.len(),
            n == file@.len(),
            i + block@.len() <= n,
            forall|k: int| 0 <= k < j ==> (#[trigger] file@[i + k])@ == block@[k]@,
        decreases block@.len() - j,
    {
        if !same(file[i + j].as_str(), block[j].as_str()) {
            assert(file@[i + j as int]@ != block@[j as int]@);
            return false;
        }
        j = j + 1;
    }
    true
}

fn push_range(out: &mut Vec<String>, v: &Vec<String>, from: usize, to: usize)
    requires
        from <= to <= v@.len(),
    ensures
        views(final(out)@) == views(old(out)@) + views(v@).subrange(from as int, to as int),
{
    let mut i: usize = from;
    assert(views(out@) =~= views(old(out)@) + views(v@).subrange(from as int, from as int));
    while i < to
        invariant
            from <= i <= to <= v@.len(),
            views(out@) == views(old(out)@) + views(v@).subrange(from as int, i as int),
        decreases to - i,
    {
        let ghost before = out@;
        out.push(v[i].clone());
        assert(views(out@) =~= views(before).push(v@[i as int]@));
        assert(views(v@).subrange(from as int, i + 1) =~= views(v@).subrange(
            from as int,
            i as int,
        ).push(v@[i as int]@));
        assert(views(out@) =~= views(old(out)@) + views(v@).subrange(from as int, i + 1));
        i = i + 1;
    }
}

/// The text after an update.
pub fn apply_update(old: &str, hunk: &Hunk) -> (r: Result<String, Refusal>)
    ensures
        match r {
            Ok(s) => updated(old@, hunk.deep_view()) == Ok::<_, Refusal>(s@),
            Err(e) => updated(old@, hunk.deep_view()) == Err::<Seq<char>, _>(e),
        },
{
    let file = lines(old);
    let mut block = copy_strings(&hunk.seek_context);
    let seek_len: usize = block.len();
    push_range(&mut block, &hunk.remove, 0, hunk.remove.len());
    let ghost h = hunk.deep_view();
    let ghost ls = line_list(old@);
    let ghost b = block_of(h);
    proof {
        assert(views(block@) =~= b);
        assert(forall|k: int| 0 <= k < b.len() ==> b[k] == #[trigger] block@[k]@) by {
            assert forall|k: int| 0 <= k < b.len() implies b[k] == #[trigger] block@[k]@ by {
                assert(views(block@)[k] == block@[k]@);
            }
        }
        assert(views(block@).len() == block@.len());
    }
    let block_len: usize = block.len();
    if block_len == 0 {
        return Err(Refusal::Empty);
    }
    let file_n = normalize_all(&file);
    let block_n = normalize_all(&block);
    let n: usize = file.len();
    assert(forall|k: int| 0 <= k < ls.len() ==> ls[k] == #[trigger] file@[k]@) by {
        assert forall|k: int| 0 <= k < ls.len() implies ls[k] == #[trigger] file@[k]@ by {
            assert(views(file@)[k] == file@[k]@);
        }
    }
    assert(views(file@).len() == file@.len());
    let mut found: Option<usize> = None;
    let mut i: usize = 0;
    while i < n && block_len <= n - i
        invariant
            i <= n,
            n == file@.len(),
            n == ls.len(),
            n == file_n@.len(),
            0 < block_len == b.len(),
            block_len == block_n@.len(),
            b == block_of(h),
            h == hunk.deep_view(),
            ls == line_list(old@),
            forall|k: int| 0 <= k < n ==> (#[trigger] file_n@[k])@ == normal(ls[k]),
            forall|k: int| 0 <= k < block_len ==> (#[trigger] block_n@[k])@ == normal(b[k]),
            match found {
                Some(f) => f < i && block_at(ls, b, f as int) && forall|k: int|
                    0 <= k < i && k != f ==> !block_at(ls, b, k),
                None => forall|k: int| 0 <= k < i ==> !block_at(ls, b, k),
            },
        decreases n - i,
    {
        let here = stands_at(&file_n, &block_n, i);
        proof {
            if here {
                assert forall|j: int| 0 <= j < b.len() implies normal(#[trigger] ls[i + j])
                    == normal(b[j]) by {
                    assert(file_n@[i + j]@ == block_n@[j]@);
                }
            } else if block_at(ls, b, i as int) {
                assert forall|j: int| 0 <= j < block_n@.len() implies (#[trigger] file_n@[i
                    + j])@ == block_n@[j]@ by {
                    assert(normal(ls[i + j]) == normal(b[j]));
                }
            }
            assert(here == block_at(ls, b, i as int));
        }
        if here {
            match found {
                Some(f) => {
                    assert(f as int != i as int && block_at(ls, b, f as int) && block_at(
                        ls,
                        b,
                        i as int,
                    ));
                    return Err(Refusal::Ambiguous);
                },
                None => {
                    found = Some(i);
                },
            }
        }
        i = i + 1;
    }
    match found {
        None => {
            assert(forall|k: int| !block_at(ls, b, k));
            Err(Refusal::Missing)
        },
        Some(start) => {
            let mut out: Vec<String> = Vec::new();
            push_range(&mut out, &file, 0, start + seek_len);
            push_range(&mut out, &hunk.add, 0, hunk.add.len());
            push_range(&mut out, &file, start + block_len, n);
            let mut result = join(&out, "\n");
            if ends_with(old, "\n") {
                result.append("\n");
            }
            proof {
                assert(forall|k: int| block_at(ls, b, k) ==> k == start as int);
                assert(block_at(ls, b, start as int));
                let c = choose|k: int| block_at(ls, b, k);
                assert(c == start as int);
                assert(views(out@) =~= lines_after(ls, h, start as int));
                assert(result@ =~= text_like(old@, lines_after(ls, h, start as int)));
            }
            Ok(result)
        },
    }
}

// ---- planning ----

/// What was found on disk for a hunk's file.
pub struct FileFact {
    /// Whether there is such a file.
    pub exists: bool,
    /// Its text, or why it could not be read.
    pub text: Result<String, String>,
}

/// The model of `FileFact`.
pub struct FileFactView {
    pub exists: bool,
    pub text: Result<Seq<char>, Seq<char>>,
}

impl DeepView for FileFact {
    type V = FileFactView;

    open spec fn deep_view(&self) -> FileFactView {
        FileFactView {
            exists: self.exists,
            text: match self.text {
                Ok(s) => Ok(s@),
                Err(s) => Err(s@),
            },
        }
    }
}

/// The model of `PendingOp`.
pub enum PendingOpView {
    Write { path: Seq<char>, new: Seq<char> },
    Delete { path: Seq<char> },
    Move { from: Seq<char>, to: Seq<char> },
}

/// What is to be done on disk.
#[derive(Debug, PartialEq, Eq)]
pub enum PendingOp {
    Write { path: String, new: String },
    Delete { path: String },
    Move { from: String, to: String },
}

impl DeepView for PendingOp {
    type V = PendingOpView;

    open spec fn deep_view(&self) -> PendingOpView {
        match *self {
            PendingOp::Write { path, new } => PendingOpView::Write { path: path@, new: new@ },
            PendingOp::Delete { path } => PendingOpView::Delete { path: path@ },
            PendingOp::Move { from, to } => PendingOpView::Move { from: from@, to: to@ },
        }
    }
}

/// The model of `ApplyError`.
pub enum ApplyErrorView {
    Io(Seq<char>, Seq<char>),
    NotFound(Seq<char>),
    AlreadyExists(Seq<char>),
    EmptyHunk(Seq<char>),
    Ambiguous(Seq<char>),
    NotFoundInFile(Seq<char>),
}

/// Why a patch does not apply. Each names the file.
#[derive(Debug, PartialEq, Eq)]
pub enum ApplyError {
    Io(String, String),
    NotFound(String),
    AlreadyExists(String),
    EmptyHunk(String),
    Ambiguous(String),
    NotFoundInFile(String),
}

impl DeepView for ApplyError {
    type V = ApplyErrorView;

    open spec fn deep_view(&self) -> ApplyErrorView {
        match *self {
            ApplyError::Io(p, e) => ApplyErrorView::Io(p@, e@),
            ApplyError::NotFound(p) => ApplyErrorView::NotFound(p@),
            ApplyError::AlreadyExists(p) => ApplyErrorView::AlreadyExists(p@),
            ApplyError::EmptyHunk(p) => ApplyErrorView::EmptyHunk(p@),
            ApplyError::Ambiguous(p) => ApplyErrorView::Ambiguous(p@),
            ApplyError::NotFoundInFile(p) => ApplyErrorView::NotFoundInFile(p@),
        }
    }
}

/// The unified diff from `old` to `new` under the name `path`.
pub uninterp spec fn diff_text(path: Seq<char>, old: Seq<char>, new: Seq<char>) -> Seq<char>;

/// `similar::udiff::unified_diff` by Myers' algorithm with three lines of context
/// and the path as both names. The text is a function of the three arguments.
#[verifier::external_body]
pub(crate) fn make_diff(path: &str, old: &str, new: &str) -> (r: String)
    ensures
        r@ == diff_text(path@, old@, new@),
{
    similar::udiff::unified_diff(similar::Algorithm::Myers, old, new, 3, Some((path, path)))
}

/// Lines as text, each ended by a line feed.
pub open spec fn file_text(lines: Seq<Seq<char>>) -> Seq<char> {
    joined(lines, "\n"@) + if lines.len() > 0 {
        "\n"@
    } else {
        Seq::empty()
    }
}

/// Added lines as a diff shows them.
pub open spec fn plus_lines(lines: Seq<Seq<char>>) -> Seq<char>
    decreases lines.len(),
{
    if lines.len() == 0 {
        Seq::empty()
    } else {
        plus_lines(lines.drop_last()) + "+"@ + lines.last() + "\n"@
    }
}

/// The error for a refused update.
pub open spec fn refused(e: Refusal, path: Seq<char>) -> ApplyErrorView {
    match e {
        Refusal::Empty => ApplyErrorView::EmptyHunk(path),
        Refusal::Missing => ApplyErrorView::NotFoundInFile(path),
        Refusal::Ambiguous => ApplyErrorView::Ambiguous(path),
    }
}

/// What one hunk comes to, given what is there of its file when its turn comes: the
/// operation and its part of the diff.
pub open spec fn hunk_plan(h: HunkView, base: Seq<char>, fact: FileFactView) -> Result<
    (PendingOpView, Seq<char>),
    ApplyErrorView,
> {
    let path = joined_path(base, h.path);
    match h.action {
        HunkActionView::Add => if fact.exists {
            Err(ApplyErrorView::AlreadyExists(path))
        } else {
            Ok(
                (
                    PendingOpView::Write { path, new: file_text(h.add) },
                    "*** Add File: "@ + h.path + "\n"@ + plus_lines(h.add),
                ),
            )
        },
        HunkActionView::Update => match fact.text {
            Err(e) => Err(ApplyErrorView::Io(path, e)),
            Ok(old) => match updated(old, h) {
                Ok(new) => Ok((PendingOpView::Write { path, new }, diff_text(h.path, old, new))),
                Err(e) => Err(refused(e, path)),
            },
        },
        HunkActionView::Delete => if !fact.exists {
            Err(ApplyErrorView::NotFound(path))
        } else {
            Ok((PendingOpView::Delete { path }, "*** Delete File: "@ + h.path + "\n"@))
        },
        HunkActionView::Move { to } => if !fact.exists {
            Err(ApplyErrorView::NotFound(path))
        } else {
            Ok(
                (
                    PendingOpView::Move { from: path, to: joined_path(base, to) },
                    "*** Move File: "@ + h.path + " to "@ + joined_path(base, to) + "\n"@,
                ),
            )
        },
    }
}

/// A file that an earlier hunk took away.
pub open spec fn gone() -> FileFactView {
    FileFactView { exists: false, text: Err("文件已被先前的 hunk 移除"@) }
}

/// What is there of a file after earlier hunks left some files as `left` says; the
/// last word counts. Of a file that they did not touch `fact` says it.
pub open spec fn fact_now(
    left: Seq<(Seq<char>, FileFactView)>,
    path: Seq<char>,
    fact: FileFactView,
) -> FileFactView
    decreases left.len(),
{
    if left.len() == 0 {
        fact
    } else if same_path(left.last().0, path) {
        left.last().1
    } else {
        fact_now(left.drop_last(), path, fact)
    }
}

/// How an operation on a file, of which `fact` says what was there, leaves files.
pub open spec fn left_by(
    left: Seq<(Seq<char>, FileFactView)>,
    op: PendingOpView,
    fact: FileFactView,
) -> Seq<(Seq<char>, FileFactView)> {
    match op {
        PendingOpView::Write { path, new } => left.push(
            (path, FileFactView { exists: true, text: Ok(new) }),
        ),
        PendingOpView::Delete { path } => left.push((path, gone())),
        PendingOpView::Move { from, to } => left.push((from, gone())).push((to, fact)),
    }
}

/// What hunks come to.
pub struct PlanView {
    /// Every operation, in order.
    pub ops: Seq<PendingOpView>,
    pub diff: Seq<char>,
    /// How the files are left.
    pub left: Seq<(Seq<char>, FileFactView)>,
}

/// What is there of the file of a hunk when its turn comes.
pub open spec fn fact_for(p: PlanView, h: HunkView, base: Seq<char>, fact: FileFactView) -> FileFactView {
    fact_now(p.left, joined_path(base, h.path), fact)
}

/// What all hunks come to, each worked out from what the ones before it left, or the
/// first error.
pub open spec fn patch_plan(
    hunks: Seq<HunkView>,
    base: Seq<char>,
    facts: Seq<FileFactView>,
) -> Result<PlanView, ApplyErrorView>
    decreases hunks.len(),
{
    if hunks.len() == 0 {
        Ok(PlanView { ops: Seq::empty(), diff: Seq::empty(), left: Seq::empty() })
    } else {
        match patch_plan(hunks.drop_last(), base, facts) {
            Err(e) => Err(e),
            Ok(p) => {
                let fact = fact_for(p, hunks.last(), base, facts[hunks.len() - 1]);
                match hunk_plan(hunks.last(), base, fact) {
                    Ok((op, part)) => Ok(
                        PlanView {
                            ops: p.ops.push(op),
                            diff: p.diff + part,
                            left: left_by(p.left, op, fact),
                        },
                    ),
                    Err(e) => Err(e),
                }
            },
        }
    }
}

/// How files are left, as a list.
pub open spec fn left_views(s: Seq<(String, FileFact)>) -> Seq<(Seq<char>, FileFactView)> {
    Seq::new(s.len(), |i: int| (s[i].0@, s[i].1.deep_view()))
}

fn copy_fact(f: &FileFact) -> (r: FileFact)
    ensures
        r.deep_view() == f.deep_view(),
{
    FileFact {
        exists: f.exists,
        text: match &f.text {
            Ok(s) => Ok(s.clone()),
            Err(s) => Err(s.clone()),
        },
    }
}

fn find_fact(left: &Vec<(String, FileFact)>, path: &str, fact: &FileFact) -> (r: FileFact)
    ensures
        r.deep_view() == fact_now(left_views(left@), path@, fact.deep_view()),
{
    let ghost all = left_views(left@);
    let mut i: usize = left.len();
    assert(all.take(i as int) =~= all);
    while i > 0
        invariant
            i <= left@.len(),
            all == left_views(left@),
            fact_now(all, path@, fact.deep_view()) == fact_now(
                all.take(i as int),
                path@,
                fact.deep_view(),
            ),
        decreases i,
    {
        assert(all.take(i as int).last() == all[i - 1]);
        assert(all.take(i as int).drop_last() =~= all.take(i - 1));
        if paths_equal(left[i - 1].0.as_str(), path) {
            return copy_fact(&left[i - 1].1);
        }
        i = i - 1;
    }
    copy_fact(fact)
}

fn note(left: &mut Vec<(String, FileFact)>, op: &PendingOp, fact: FileFact)
    ensures
        left_views(final(left)@) == left_by(
            left_views(old(left)@),
            op.deep_view(),
            fact.deep_view(),
        ),
{
    let ghost before = left_views(left@);
    match op {
        PendingOp::Write { path, new } => {
            left.push((path.clone(), FileFact { exists: true, text: Ok(new.clone()) }));
        },
        PendingOp::Delete { path } => {
            left.push((path.clone(), no_longer()));
        },
        PendingOp::Move { from, to } => {
            left.push((from.clone(), no_longer()));
            left.push((to.clone(), fact));
        },
    }
    assert(left_views(left@) =~= left_by(before, op.deep_view(), fact.deep_view()));
}

fn no_longer() -> (r: FileFact)
    ensures
        r.deep_view() == gone(),
{
    FileFact { exists: false, text: Err("文件已被先前的 hunk 移除".to_owned()) }
}

fn plan_hunk(h: &Hunk, base: &str, fact: &FileFact) -> (r: Result<
    (PendingOp, String),
    ApplyError,
>)
    ensures
        match r {
            Ok((op, part)) => hunk_plan(h.deep_view(), base@, fact.deep_view()) == Ok::<
                _,
                ApplyErrorView,
            >((op.deep_view(), part@)),
            Err(e) => hunk_plan(h.deep_view(), base@, fact.deep_view()) == Err::<
                (PendingOpView, Seq<char>),
                _,
            >(e.deep_view()),
        },
{
    let path = join_path(base, h.path.as_str());
    match &h.action {
        HunkAction::Add => {
            if fact.exists {
                return Err(ApplyError::AlreadyExists(path));
            }
            let mut new = join(&h.add, "\n");
            if h.add.len() > 0 {
                new.append("\n");
            }
            assert(new@ =~= file_text(views(h.add@)));
            let mut part = cat3("*** Add File: ", h.path.as_str(), "\n");
            let ghost head = part@;
            let ghost all = views(h.add@);
            let mut i: usize = 0;
            assert(part@ =~= head + plus_lines(all.take(0)));
            while i < h.add.len()
                invariant
                    i <= h.add@.len(),
                    all == views(h.add@),
                    part@ == head + plus_lines(all.take(i as int)),
                decreases h.add@.len() - i,
            {
                assert(all.take(i + 1).drop_last() =~= all.take(i as int));
                assert(all.take(i + 1).last() == h.add@[i as int]@);
                let ghost before = part@;
                part.append("+");
                part.append(h.add[i].as_str());
                part.append("\n");
                assert(part@ =~= head + plus_lines(all.take(i + 1)));
                i = i + 1;
            }
            assert(all.take(all.len() as int) =~= all);
            Ok((PendingOp::Write { path, new }, part))
        },
        HunkAction::Update => match &fact.text {
            Err(e) => Err(ApplyError::Io(path, e.clone())),
            Ok(old) => match apply_update(old.as_str(), h) {
                Ok(new) => {
                    let part = make_diff(h.path.as_str(), old.as_str(), new.as_str());
                    Ok((PendingOp::Write { path, new }, part))
                },
                Err(e) => Err(
                    match e {
                        Refusal::Empty => ApplyError::EmptyHunk(path),
                        Refusal::Missing => ApplyError::NotFoundInFile(path),
                        Refusal::Ambiguous => ApplyError::Ambiguous(path),
                    },
                ),
            },
        },
        HunkAction::Delete => {
            if !fact.exists {
                return Err(ApplyError::NotFound(path));
            }
            let part = cat3("*** Delete File: ", h.path.as_str(), "\n");
            Ok((PendingOp::Delete { path }, part))
        },
        HunkAction::Move { to } => {
            if !fact.exists {
                return Err(ApplyError::NotFound(path));
            }
            let to = join_path(base, to.as_str());
            let head = cat3("*** Move File: ", h.path.as_str(), " to ");
            let part = cat3(head.as_str(), to.as_str(), "\n");
            Ok((PendingOp::Move { from: path, to }, part))
        },
    }
}

/// The operations of a list.
pub open spec fn op_views(s: Seq<PendingOp>) -> Seq<PendingOpView> {
    Seq::new(s.len(), |i: int| s[i].deep_view())
}

/// The facts of a list.
pub open spec fn fact_views(s: Seq<FileFact>) -> Seq<FileFactView> {
    Seq::new(s.len(), |i: int| s[i].deep_view())
}

proof fn lemma_plan_prefix(
    hunks: Seq<HunkView>,
    base: Seq<char>,
    facts: Seq<FileFactView>,
    k: int,
)
    requires
        0 <= k <= hunks.len(),
        patch_plan(hunks.take(k), base, facts) is Err,
    ensures
        patch_plan(hunks, base, facts) == patch_plan(hunks.take(k), base, facts),
    decreases hunks.len() - k,
{
    if k < hunks.len() {
        assert(hunks.take(k + 1).drop_last() =~= hunks.take(k));
        lemma_plan_prefix(hunks, base, facts, k + 1);
    } else {
        assert(hunks.take(k) =~= hunks);
    }
}

/// Work out what a patch does, given what is on disk for each hunk. There is
/// something to do only if every hunk succeeds.
pub fn plan(hunks: &Vec<Hunk>, base: &str, facts: &Vec<FileFact>) -> (r: Result<
    (Vec<PendingOp>, String),
    ApplyError,
>)
    requires
        facts@.len() == hunks@.len(),
    ensures
        match r {
            Ok((ops, diff)) => patch_plan(hunk_views(hunks@), base@, fact_views(facts@)) matches Ok(p)
                && p.ops == op_views(ops@) && p.diff == diff@,
            Err(e) => patch_plan(hunk_views(hunks@), base@, fact_views(facts@)) == Err::<PlanView, _>(
                e.deep_view(),
            ),
        },
{
    let mut ops: Vec<PendingOp> = Vec::new();
    let mut diff = String::new();
    let mut left: Vec<(String, FileFact)> = Vec::new();
    let ghost hs = hunk_views(hunks@);
    let ghost fs = fact_views(facts@);
    let mut i: usize = 0;
    assert(op_views(ops@) =~= Seq::<PendingOpView>::empty());
    assert(left_views(left@) =~= Seq::<(Seq<char>, FileFactView)>::empty());
    assert(hs.take(0) =~= Seq::<HunkView>::empty());
    while i < hunks.len()
        invariant
            i <= hunks@.len(),
            facts@.len() == hunks@.len(),
            hs == hunk_views(hunks@),
            fs == fact_views(facts@),
            patch_plan(hs.take(i as int), base@, fs) == Ok::<_, ApplyErrorView>(
                PlanView { ops: op_views(ops@), diff: diff@, left: left_views(left@) },
            ),
        decreases hunks@.len() - i,
    {
        let ghost next = hs.take(i + 1);
        assert(next.drop_last() =~= hs.take(i as int));
        assert(next.last() == hunks@[i as int].deep_view());
        assert(fs[i as int] == facts@[i as int].deep_view());
        let ghost before = ops@;
        let path = join_path(base, hunks[i].path.as_str());
        let fact = find_fact(&left, path.as_str(), &facts[i]);
        match plan_hunk(&hunks[i], base, &fact) {
            Ok((op, part)) => {
                note(&mut left, &op, fact);
                diff.append(part.as_str());
                ops.push(op);
                assert(op_views(ops@) =~= op_views(before).push(op.deep_view()));
            },
            Err(e) => {
                proof {
                    lemma_plan_prefix(hs, base@, fs, i + 1);
                }
                return Err(e);
            },
        }
        i = i + 1;
    }
    assert(hs.take(hs.len() as int) =~= hs);
    Ok((ops, diff))
}

// ---- laws ----

/// What is there of each file after an operation was carried out. Files whose paths
/// have the same parts are one file.
pub open spec fn carried_out(disk: spec_fn(Seq<char>) -> FileFactView, op: PendingOpView) -> spec_fn(
    Seq<char>,
) -> FileFactView {
    match op {
        PendingOpView::Write { path, new } => |p: Seq<char>|
            if same_path(path, p) {
                FileFactView { exists: true, text: Ok(new) }
            } else {
                disk(p)
            },
        PendingOpView::Delete { path } => |p: Seq<char>|
            if same_path(path, p) {
                gone()
            } else {
                disk(p)
            },
        PendingOpView::Move { from, to } => |p: Seq<char>|
            if same_path(to, p) {
                disk(from)
            } else if same_path(from, p) {
                gone()
            } else {
                disk(p)
            },
    }
}

/// What is there of each file after operations were carried out in order.
pub open spec fn all_carried_out(
    disk: spec_fn(Seq<char>) -> FileFactView,
    ops: Seq<PendingOpView>,
) -> spec_fn(Seq<char>) -> FileFactView
    decreases ops.len(),
{
    if ops.len() == 0 {
        disk
    } else {
        carried_out(all_carried_out(disk, ops.drop_last()), ops.last())
    }
}

/// Whether `facts` say of the file of each hunk what is on disk.
pub open spec fn facts_hold(
    hunks: Seq<HunkView>,
    base: Seq<char>,
    facts: Seq<FileFactView>,
    disk: spec_fn(Seq<char>) -> FileFactView,
) -> bool {
    forall|i: int|
        0 <= i < hunks.len() ==> #[trigger] facts[i] == disk(joined_path(base, hunks[i].path))
}

/// What the operations leave on disk is what the hunks left in memory.
proof fn lemma_memory_is_disk(
    hunks: Seq<HunkView>,
    base: Seq<char>,
    facts: Seq<FileFactView>,
    disk: spec_fn(Seq<char>) -> FileFactView,
    path: Seq<char>,
)
    requires
        facts_hold(hunks, base, facts, disk),
        patch_plan(hunks, base, facts) is Ok,
    ensures
        fact_now(patch_plan(hunks, base, facts)->Ok_0.left, path, disk(path)) == all_carried_out(
            disk,
            patch_plan(hunks, base, facts)->Ok_0.ops,
        )(path),
    decreases hunks.len(),
{
    if hunks.len() > 0 {
        let t = hunks.drop_last();
        let h = hunks.last();
        let own = joined_path(base, h.path);
        assert forall|i: int| 0 <= i < t.len() implies #[trigger] facts[i] == disk(
            joined_path(base, t[i].path),
        ) by {
            assert(t[i] == hunks[i]);
        }
        lemma_memory_is_disk(t, base, facts, disk, path);
        lemma_memory_is_disk(t, base, facts, disk, own);
        let p = patch_plan(t, base, facts)->Ok_0;
        let q = patch_plan(hunks, base, facts)->Ok_0;
        assert(facts[hunks.len() - 1] == disk(own));
        let fact = fact_for(p, h, base, facts[hunks.len() - 1]);
        let op = q.ops.last();
        let now = all_carried_out(disk, p.ops);
        assert(q.ops.drop_last() =~= p.ops);
        assert(all_carried_out(disk, q.ops) == carried_out(now, op));
        assert(fact == now(own));
        assert(q.left == left_by(p.left, op, fact));
        match op {
            PendingOpView::Write { path: written, new } => {
                assert(q.left.drop_last() =~= p.left);
                assert(written == own);
            },
            PendingOpView::Delete { path: taken } => {
                assert(q.left.drop_last() =~= p.left);
                assert(taken == own);
            },
            PendingOpView::Move { from, to } => {
                let one = p.left.push((from, gone()));
                assert(q.left.drop_last() =~= one);
                assert(one.drop_last() =~= p.left);
                assert(from == own);
                assert(fact_now(one, path, disk(path)) == if same_path(from, path) {
                    gone()
                } else {
                    now(path)
                });
            },
        }
    }
}

/// Whether a hunk comes to an operation, or where that is missing to an error, by what
/// carrying out `before` leaves of its file.
pub open spec fn comes_to(
    h: HunkView,
    base: Seq<char>,
    disk: spec_fn(Seq<char>) -> FileFactView,
    before: Seq<PendingOpView>,
    op: Option<PendingOpView>,
) -> bool {
    match hunk_plan(h, base, all_carried_out(disk, before)(joined_path(base, h.path))) {
        Ok((o, _)) => op == Some(o),
        Err(_) => op is None,
    }
}

/// There is either one operation for every hunk or none at all. Each is worked out from
/// what carrying out the ones before it leaves of its file, so that no hunk undoes
/// another one of the same file.
pub proof fn law_all_or_nothing(
    hunks: Seq<HunkView>,
    base: Seq<char>,
    facts: Seq<FileFactView>,
    disk: spec_fn(Seq<char>) -> FileFactView,
)
    requires
        facts_hold(hunks, base, facts, disk),
    ensures
        match patch_plan(hunks, base, facts) {
            Ok(p) => {
                &&& p.ops.len() == hunks.len()
                &&& forall|i: int|
                    0 <= i < hunks.len() ==> comes_to(
                        hunks[i],
                        base,
                        disk,
                        p.ops.take(i),
                        Some(#[trigger] p.ops[i]),
                    )
            },
            Err(_) => exists|i: int|
                {
                    &&& 0 <= i < hunks.len()
                    &&& #[trigger] patch_plan(hunks.take(i), base, facts) matches Ok(p)
                        && comes_to(hunks[i], base, disk, p.ops, None)
                },
        },
    decreases hunks.len(),
{
    if hunks.len() > 0 {
        let t = hunks.drop_last();
        let n = hunks.len() - 1;
        assert forall|i: int| 0 <= i < t.len() implies #[trigger] facts[i] == disk(
            joined_path(base, t[i].path),
        ) by {
            assert(t[i] == hunks[i]);
        }
        law_all_or_nothing(t, base, facts, disk);
        assert(hunks.take(n) =~= t);
        if let Ok(p) = patch_plan(t, base, facts) {
            let own = joined_path(base, hunks[n].path);
            assert(facts[n] == disk(own));
            lemma_memory_is_disk(t, base, facts, disk, own);
            lemma_last_hunk(hunks, base, facts, disk, p);
        } else {
            let i = choose|i: int|
                {
                    &&& 0 <= i < t.len()
                    &&& #[trigger] patch_plan(t.take(i), base, facts) matches Ok(p) && comes_to(
                        t[i],
                        base,
                        disk,
                        p.ops,
                        None,
                    )
                };
            assert(t.take(i) =~= hunks.take(i));
            assert(patch_plan(hunks.take(i), base, facts) is Ok);
        }
    }
}

proof fn lemma_last_hunk(
    hunks: Seq<HunkView>,
    base: Seq<char>,
    facts: Seq<FileFactView>,
    disk: spec_fn(Seq<char>) -> FileFactView,
    p: PlanView,
)
    requires
        hunks.len() > 0,
        patch_plan(hunks.drop_last(), base, facts) == Ok::<_, ApplyErrorView>(p),
        p.ops.len() == hunks.len() - 1,
        forall|i: int|
            0 <= i < hunks.len() - 1 ==> comes_to(
                hunks.drop_last()[i],
                base,
                disk,
                p.ops.take(i),
                Some(#[trigger] p.ops[i]),
            ),
        fact_for(p, hunks.last(), base, facts[hunks.len() - 1]) == all_carried_out(disk, p.ops)(
            joined_path(base, hunks.last().path),
        ),
    ensures
        match patch_plan(hunks, base, facts) {
            Ok(q) => {
                &&& q.ops.len() == hunks.len()
                &&& forall|i: int|
                    0 <= i < hunks.len() ==> comes_to(
                        hunks[i],
                        base,
                        disk,
                        q.ops.take(i),
                        Some(#[trigger] q.ops[i]),
                    )
            },
            Err(_) => comes_to(hunks[hunks.len() - 1], base, disk, p.ops, None),
        },
{
    let n = hunks.len() - 1;
    let fact = fact_for(p, hunks.last(), base, facts[n]);
    if let Ok((op, part)) = hunk_plan(hunks.last(), base, fact) {
        let q = patch_plan(hunks, base, facts)->Ok_0;
        assert(q.ops == p.ops.push(op));
        assert forall|i: int| 0 <= i < hunks.len() implies comes_to(
            hunks[i],
            base,
            disk,
            q.ops.take(i),
            Some(#[trigger] q.ops[i]),
        ) by {
            if i < n {
                assert(hunks.drop_last()[i] == hunks[i]);
                assert(p.ops[i] == q.ops[i]);
                assert(q.ops.take(i) =~= p.ops.take(i));
            } else {
                assert(q.ops.take(i) =~= p.ops);
            }
        }
    }
}

/// Where an update goes depends on its context and removed lines only up to white
/// space.
pub proof fn law_white_space_does_not_matter(old: Seq<char>, a: HunkView, b: HunkView)
    requires
        a.add == b.add,
        a.seek_context.len() == b.seek_context.len(),
        a.remove.len() == b.remove.len(),
        forall|i: int|
            0 <= i < block_of(a).len() ==> normal(#[trigger] block_of(a)[i]) == normal(
                block_of(b)[i],
            ),
    ensures
        updated(old, a) == updated(old, b),
{
    let lines = line_list(old);
    let x = block_of(a);
    let y = block_of(b);
    assert forall|i: int| #[trigger] block_at(lines, x, i) == block_at(lines, y, i) by {
        if block_at(lines, x, i) {
            assert forall|j: int| 0 <= j < y.len() implies normal(#[trigger] lines[i + j])
                == normal(y[j]) by {
                assert(normal(x[j]) == normal(y[j]));
            }
        }
        if block_at(lines, y, i) {
            assert forall|j: int| 0 <= j < x.len() implies normal(#[trigger] lines[i + j])
                == normal(x[j]) by {
                assert(normal(x[j]) == normal(y[j]));
            }
        }
    }
    let one = exists|i: int| block_at(lines, x, i);
    let two = exists|i: int, j: int|
        i != j && block_at(lines, x, i) && block_at(lines, x, j);
    assert(one == exists|i: int| block_at(lines, y, i)) by {
        if one {
            let i = choose|i: int| block_at(lines, x, i);
            assert(block_at(lines, y, i));
        } else if exists|i: int| block_at(lines, y, i) {
            let i = choose|i: int| block_at(lines, y, i);
            assert(block_at(lines, x, i));
        }
    }
    assert(two == exists|i: int, j: int|
        i != j && block_at(lines, y, i) && block_at(lines, y, j)) by {
        if two {
            let (i, j) = choose|i: int, j: int|
                i != j && block_at(lines, x, i) && block_at(lines, x, j);
            assert(block_at(lines, y, i) && block_at(lines, y, j));
        } else if exists|i: int, j: int|
            i != j && block_at(lines, y, i) && block_at(lines, y, j) {
            let (i, j) = choose|i: int, j: int|
                i != j && block_at(lines, y, i) && block_at(lines, y, j);
            assert(block_at(lines, x, i) && block_at(lines, x, j));
        }
    }
    if one && !two {
        let i = choose|i: int| block_at(lines, x, i);
        let j = choose|i: int| block_at(lines, y, i);
        assert(block_at(lines, x, i) && block_at(lines, x, j));
        assert(i == j);
        assert(lines_after(lines, a, i) == lines_after(lines, b, i));
    }
}

/// An update that succeeds leaves the lines before its place, its context and the
/// lines behind it as they are.
pub proof fn law_update_is_local(lines: Seq<Seq<char>>, h: HunkView, i: int)
    requires
        block_at(lines, block_of(h), i),
    ensures
        ({
            let after = lines_after(lines, h, i);
            &&& after.len() == lines.len() - h.remove.len() + h.add.len()
            &&& after.take(i + h.seek_context.len()) == lines.take(i + h.seek_context.len())
            &&& after.skip(i + h.seek_context.len() + h.add.len()) == lines.skip(
                i + block_of(h).len(),
            )
        }),
{
    let after = lines_after(lines, h, i);
    let k = i + h.seek_context.len();
    assert(after.take(k) =~= lines.take(k));
    assert(after.skip(k + h.add.len()) =~= lines.skip(i + block_of(h).len()));
}

proof fn lemma_read_up_to(r: Reading, a: Seq<Seq<char>>, b: Seq<Seq<char>>, k: int)
    requires
        0 <= k < a.len(),
        k < b.len(),
        forall|i: int| 0 <= i <= k ==> #[trigger] a[i] == b[i],
        trimmed(a[k]) == "*** End Patch"@,
    ensures
        read_lines(r, a) == read_lines(r, b),
    decreases k,
{
    assert(a[0] == b[0]);
    assert(a[k] == b[k]);
    if k > 0 && trimmed(a[0]) != "*** End Patch"@ {
        if let Ok(next) = read_line(r, a[0]) {
            assert forall|i: int| 0 <= i <= k - 1 implies #[trigger] a.skip(1)[i] == b.skip(1)[i] by {
                assert(a[i + 1] == b[i + 1]);
            }
            lemma_read_up_to(next, a.skip(1), b.skip(1), k - 1);
        }
    }
}

/// Nothing behind the line that ends a patch is read: whatever follows it, the patch is
/// the same.
pub proof fn law_nothing_behind_the_end(head: Seq<char>, tail: Seq<char>, k: int)
    requires
        head.len() > 0,
        head.last() == '\n',
        0 < k < line_list(head).len(),
        trimmed(line_list(head)[k]) == "*** End Patch"@,
    ensures
        patch_of(head + tail) == patch_of(head),
{
    lemma_lines_before(head, tail);
    let a = line_list(head);
    let b = line_list(head + tail);
    assert(a[0] == b[0]);
    assert(a.skip(1)[k - 1] == a[k]);
    assert forall|i: int| 0 <= i <= k - 1 implies #[trigger] a.skip(1)[i] == b.skip(1)[i] by {
        assert(a[i + 1] == b[i + 1]);
    }
    lemma_read_up_to(Reading { done: Seq::empty(), open: None }, a.skip(1), b.skip(1), k - 1);
}

} // verus!
