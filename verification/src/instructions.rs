//! Instructions of the user and of the project: which files hold them, and what they
//! come to.
use vstd::prelude::*;
use vstd::string::*;

use crate::paths::join_path;
use crate::paths::joined_path;
use crate::table::among_texts;
use crate::text::after_prefix;
use crate::text::cat3;
use crate::text::cat;
use crate::text::copy_strings;
use crate::text::join;
use crate::text::joined;
use crate::text::line_list;
use crate::text::lines;
use crate::text::same;
use crate::text::split_whitespace;
use crate::text::strip_prefix;
use crate::text::views;
use crate::text::words;

verus! {

/// References in files that are referred to are followed this deep.
pub const MAX_AT_DEPTH: u32 = 8;

/// The files that may hold instructions; the first that is there counts. Between the
/// agent's own two names stand those of other agents that are honoured as well. They are
/// not spelled out in this crate: whoever runs the agent names them.
pub open spec fn file_names(others: Seq<Seq<char>>) -> Seq<Seq<char>> {
    seq!["AGENTS.md"@] + others + seq!["TAO.md"@]
}

/// The files that may hold instructions; the first that is there counts.
pub fn instruction_files(others: &Vec<String>) -> (r: Vec<String>)
    ensures
        views(r@) == file_names(views(others@)),
{
    let mut v: Vec<String> = Vec::new();
    v.push("AGENTS.md".to_owned());
    let mut more = copy_strings(others);
    v.append(&mut more);
    v.push("TAO.md".to_owned());
    assert(views(v@) =~= file_names(views(others@)));
    v
}

/// The first file that could be read.
pub open spec fn first_there(texts: Seq<Option<Seq<char>>>) -> Option<int>
    decreases texts.len(),
{
    if texts.len() == 0 {
        None
    } else {
        match first_there(texts.drop_last()) {
            Some(i) => Some(i),
            None => if texts.last() is Some {
                Some(texts.len() - 1)
            } else {
                None
            },
        }
    }
}

/// The instructions in a directory, with where they come from.
pub open spec fn instructions_in(
    dir: Seq<char>,
    names: Seq<Seq<char>>,
    texts: Seq<Option<Seq<char>>>,
) -> Option<Seq<char>> {
    match first_there(texts) {
        Some(i) => Some(
            "# 来自 "@ + joined_path(dir, names[i]) + "\n"@ + texts[i]->0,
        ),
        None => None,
    }
}

proof fn lemma_first_there(s: Seq<Option<Seq<char>>>, n: int)
    requires
        0 <= n <= s.len(),
        first_there(s.take(n)) is Some,
    ensures
        first_there(s) == first_there(s.take(n)),
    decreases s.len() - n,
{
    if n < s.len() {
        assert(s.take(n + 1).drop_last() =~= s.take(n));
        lemma_first_there(s, n + 1);
    } else {
        assert(s.take(n) =~= s);
    }
}

/// The instructions in a directory, given what could be read of the files that may
/// hold them.
pub fn read_first(dir: &str, names: &Vec<String>, texts: &Vec<Option<String>>) -> (r: Option<String>)
    requires
        texts@.len() == names@.len(),
    ensures
        r.deep_view() == instructions_in(dir@, views(names@), texts.deep_view()),
{
    let ghost all = texts.deep_view();
    let mut i: usize = 0;
    while i < texts.len()
        invariant
            i <= texts@.len(),
            texts@.len() == names@.len(),
            all == texts.deep_view(),
            first_there(all.take(i as int)) is None,
        decreases texts@.len() - i,
    {
        assert(all.take(i + 1).drop_last() =~= all.take(i as int));
        assert(all.take(i + 1).last() == texts@[i as int].deep_view());
        match &texts[i] {
            Some(t) => {
                proof {
                    lemma_first_there(all, i + 1);
                    assert(views(names@)[i as int] == names@[i as int]@);
                }
                let p = join_path(dir, names[i].as_str());
                let head = cat3("# 来自 ", p.as_str(), "\n");
                return Some(cat(head.as_str(), t.as_str()));
            },
            None => {},
        }
        i = i + 1;
    }
    assert(all.take(all.len() as int) =~= all);
    None
}

// ---- directories ----

/// The index of the first directory that is the root of a repository, or zero.
pub open spec fn root_at(has_git: Seq<bool>) -> int
    decreases has_git.len(),
{
    if has_git.len() == 0 {
        0
    } else if has_git[0] {
        0
    } else if exists|i: int| 0 <= i < has_git.len() && #[trigger] has_git[i] {
        1 + root_at(has_git.drop_first())
    } else {
        0
    }
}

/// The directories from the root of the repository down, given a directory with those
/// above it, the nearest first. Outside a repository it is the directory alone.
pub fn dirs_from_repo_root_to(above: &Vec<String>, has_git: &Vec<bool>) -> (r: Vec<String>)
    requires
        0 < above@.len(),
        above@.len() == has_git@.len(),
    ensures
        views(r@) == views(above@).take(root_at(has_git@) + 1).reverse(),
{
    let mut root: usize = 0;
    let mut i: usize = 0;
    assert(has_git@.skip(0) =~= has_git@);
    while i < has_git.len() && !has_git[i]
        invariant
            i <= has_git@.len(),
            forall|k: int| 0 <= k < i ==> !has_git@[k],
        decreases has_git@.len() - i,
    {
        i = i + 1;
    }
    if i < has_git.len() {
        root = i;
    }
    proof {
        lemma_root_at(has_git@);
    }
    let mut out: Vec<String> = Vec::new();
    let mut j: usize = root + 1;
    while j > 0
        invariant
            0 <= j <= root + 1,
            root < above@.len(),
            out@.len() == root + 1 - j,
            forall|k: int| 0 <= k < out@.len() ==> (#[trigger] out@[k])@ == above@[root - k]@,
        decreases j,
    {
        j = j - 1;
        out.push(above[j].clone());
    }
    assert(views(out@) =~= views(above@).take(root_at(has_git@) + 1).reverse());
    out
}

proof fn lemma_root_at(s: Seq<bool>)
    ensures
        0 <= root_at(s),
        s.len() > 0 ==> root_at(s) < s.len(),
        (forall|i: int| 0 <= i < s.len() ==> !s[i]) ==> root_at(s) == 0,
        (exists|i: int| 0 <= i < s.len() && #[trigger] s[i]) ==> s[root_at(s)] && forall|k: int|
            0 <= k < root_at(s) ==> !s[k],
    decreases s.len(),
{
    if s.len() > 0 && !s[0] && exists|i: int| 0 <= i < s.len() && #[trigger] s[i] {
        let t = s.drop_first();
        let i = choose|i: int| 0 <= i < s.len() && #[trigger] s[i];
        assert(t[i - 1]);
        lemma_root_at(t);
        assert forall|k: int| 0 <= k < root_at(s) implies !s[k] by {
            if k > 0 {
                assert(t[k - 1] == s[k]);
            }
        }
    }
}

// ---- references ----

/// The model of `Referred`.
pub struct ReferredView {
    pub path: Seq<char>,
    pub canonical: Option<Seq<char>>,
    pub is_file: bool,
    pub content: Option<Seq<char>>,
    pub parent: Seq<char>,
}

/// What is known of a file that a reference may name.
#[derive(Debug, PartialEq)]
pub struct Referred {
    pub path: String,
    /// The one path under which the file is known, where it is there.
    pub canonical: Option<String>,
    pub is_file: bool,
    /// What could be read of it.
    pub content: Option<String>,
    /// The directory that holds it.
    pub parent: String,
}

impl DeepView for Referred {
    type V = ReferredView;

    open spec fn deep_view(&self) -> ReferredView {
        ReferredView {
            path: self.path@,
            canonical: self.canonical.deep_view(),
            is_file: self.is_file,
            content: self.content.deep_view(),
            parent: self.parent@,
        }
    }
}

/// The file at a path, among those that are known and there.
pub open spec fn known(files: Seq<ReferredView>, path: Seq<char>) -> Option<ReferredView>
    decreases files.len(),
{
    if files.len() == 0 {
        None
    } else if files.last().path == path && files.last().canonical is Some {
        Some(files.last())
    } else {
        known(files.drop_last(), path)
    }
}

/// The path that a word refers to.
pub open spec fn reference(word: Seq<char>, dir: Seq<char>) -> Option<Seq<char>> {
    match after_prefix(word, "@"@) {
        Some(p) => if p.len() > 0 {
            Some(joined_path(dir, p))
        } else {
            None
        },
        None => None,
    }
}

/// The words of lines, with nothing for the end of each line.
pub open spec fn words_and_ends(s: Seq<Seq<char>>) -> Seq<Option<Seq<char>>>
    decreases s.len(),
{
    if s.len() == 0 {
        Seq::empty()
    } else {
        (words_and_ends(s.drop_last()) + words(s.last()).map_values(
            |w: Seq<char>| Some(w),
        )).push(None)
    }
}

/// Words with their references replaced, and the files that were read so far. Each
/// file is read once.
pub open spec fn resolved(
    s: Seq<Option<Seq<char>>>,
    dir: Seq<char>,
    depth: int,
    files: Seq<ReferredView>,
) -> (Seq<char>, Seq<Seq<char>>)
    decreases MAX_AT_DEPTH + 1 - depth, s.len(),
{
    if s.len() == 0 || depth > MAX_AT_DEPTH {
        (Seq::empty(), Seq::empty())
    } else {
        let (out, seen) = resolved(s.drop_last(), dir, depth, files);
        match s.last() {
            None => (out + "\n"@, seen),
            Some(w) => {
                let file = match reference(w, dir) {
                    Some(p) => known(files, p),
                    None => None,
                };
                match file {
                    None => (out + w + " "@, seen),
                    Some(f) => if !f.is_file || seen.contains(f.canonical->0) {
                        (out + w + " "@, seen)
                    } else {
                        match f.content {
                            None => (out + w + " "@, seen.push(f.canonical->0)),
                            Some(c) => (
                                out + expanded(c, f.parent, depth + 1, files) + "\n"@,
                                seen.push(f.canonical->0),
                            ),
                        }
                    },
                }
            },
        }
    }
}

/// A text with its references replaced by what they refer to, and so on, but not
/// deeper than the limit.
pub open spec fn expanded(text: Seq<char>, dir: Seq<char>, depth: int, files: Seq<ReferredView>) -> Seq<
    char,
>
    decreases MAX_AT_DEPTH + 1 - depth, words_and_ends(line_list(text)).len() + 1,
{
    if depth > MAX_AT_DEPTH {
        text
    } else {
        resolved(words_and_ends(line_list(text)), dir, depth, files).0
    }
}

fn find_known<'a>(files: &'a Vec<Referred>, path: &str) -> (r: Option<&'a Referred>)
    ensures
        match r {
            Some(f) => known(files.deep_view(), path@) == Some(f.deep_view())
                && f.canonical is Some,
            None => known(files.deep_view(), path@) is None,
        },
{
    let ghost all = files.deep_view();
    let mut i: usize = files.len();
    assert(all.take(i as int) =~= all);
    while i > 0
        invariant
            i <= files@.len(),
            all == files.deep_view(),
            known(all, path@) == known(all.take(i as int), path@),
        decreases i,
    {
        i = i - 1;
        assert(all.take(i + 1).drop_last() =~= all.take(i as int));
        assert(all.take(i + 1).last() == files@[i as int].deep_view());
        if same(files[i].path.as_str(), path) && files[i].canonical.is_some() {
            return Some(&files[i]);
        }
    }
    None
}

/// The path that a word refers to, as seen from a directory.
pub fn referred_path(word: &str, dir: &str) -> (r: Option<String>)
    ensures
        r.deep_view() == reference(word@, dir@),
{
    match strip_prefix(word, "@") {
        Some(p) => if p.as_str().unicode_len() > 0 {
            Some(join_path(dir, p.as_str()))
        } else {
            None
        },
        None => None,
    }
}

/// The paths that words refer to.
pub open spec fn references(s: Seq<Seq<char>>, dir: Seq<char>) -> Seq<Seq<char>>
    decreases s.len(),
{
    if s.len() == 0 {
        Seq::empty()
    } else {
        match reference(s.last(), dir) {
            Some(p) => references(s.drop_last(), dir).push(p),
            None => references(s.drop_last(), dir),
        }
    }
}

/// The paths that a text refers to, as seen from a directory.
pub fn referred_paths(text: &str, dir: &str) -> (r: Vec<String>)
    ensures
        views(r@) == references(words(text@), dir@),
{
    let v = split_whitespace(text);
    let ghost all = words(text@);
    let mut out: Vec<String> = Vec::new();
    let mut i: usize = 0;
    assert(views(out@) =~= references(all.take(0), dir@));
    while i < v.len()
        invariant
            i <= v@.len(),
            all == views(v@),
            views(out@) == references(all.take(i as int), dir@),
        decreases v@.len() - i,
    {
        assert(all.take(i + 1).drop_last() =~= all.take(i as int));
        assert(all.take(i + 1).last() == v@[i as int]@);
        let ghost before = views(out@);
        match referred_path(v[i].as_str(), dir) {
            Some(p) => {
                out.push(p);
                assert(views(out@) =~= before.push(p@));
            },
            None => {},
        }
        i = i + 1;
    }
    assert(all.take(all.len() as int) =~= all);
    out
}

fn items_of(text: &str) -> (r: Vec<Option<String>>)
    ensures
        r.deep_view() == words_and_ends(line_list(text@)),
{
    let v = lines(text);
    let ghost all = line_list(text@);
    let mut out: Vec<Option<String>> = Vec::new();
    let mut i: usize = 0;
    assert(out.deep_view() =~= words_and_ends(all.take(0)));
    while i < v.len()
        invariant
            i <= v@.len(),
            all == views(v@),
            out.deep_view() == words_and_ends(all.take(i as int)),
        decreases v@.len() - i,
    {
        assert(all.take(i + 1).drop_last() =~= all.take(i as int));
        assert(all.take(i + 1).last() == v@[i as int]@);
        let ghost before = out.deep_view();
        let w = split_whitespace(v[i].as_str());
        let ghost wv = words(v@[i as int]@).map_values(|w: Seq<char>| Some(w));
        let mut j: usize = 0;
        assert(out.deep_view() =~= before + wv.take(0));
        while j < w.len()
            invariant
                j <= w@.len(),
                views(w@) == words(v@[i as int]@),
                wv == words(v@[i as int]@).map_values(|w: Seq<char>| Some(w)),
                out.deep_view() == before + wv.take(j as int),
            decreases w@.len() - j,
        {
            let ghost now = out.deep_view();
            let x = w[j].clone();
            assert(views(w@)[j as int] == x@);
            out.push(Some(x));
            assert(out.deep_view() =~= now.push(Some(x@)));
            assert(wv.take(j + 1) =~= wv.take(j as int).push(Some(x@)));
            assert(out.deep_view() =~= before + wv.take(j + 1));
            j = j + 1;
        }
        assert(wv.take(wv.len() as int) =~= wv);
        assert(views(w@).len() == w@.len());
        out.push(None);
        assert(out.deep_view() =~= (before + wv).push(None));
        i = i + 1;
    }
    assert(all.take(all.len() as int) =~= all);
    out
}

/// Replace the references in a text by what they refer to. A reference is a word
/// behind an at sign; one that leads nowhere, or to a file that was read before,
/// stays as it is.
pub fn expand_at_refs(text: &str, dir: &str, depth: u32, files: &Vec<Referred>) -> (r: String)
    ensures
        r@ == expanded(text@, dir@, depth as int, files.deep_view()),
    decreases MAX_AT_DEPTH + 1 - depth,
{
    if depth > MAX_AT_DEPTH {
        return text.to_owned();
    }
    let items = items_of(text);
    let ghost all = words_and_ends(line_list(text@));
    let ghost fs = files.deep_view();
    let mut out = String::new();
    let mut seen: Vec<String> = Vec::new();
    let mut i: usize = 0;
    assert(out@ =~= Seq::<char>::empty());
    assert(views(seen@) =~= Seq::<Seq<char>>::empty());
    while i < items.len()
        invariant
            i <= items@.len(),
            depth <= MAX_AT_DEPTH,
            all == items.deep_view(),
            fs == files.deep_view(),
            (out@, views(seen@)) == resolved(all.take(i as int), dir@, depth as int, fs),
        decreases items@.len() - i,
    {
        assert(all.take(i + 1).drop_last() =~= all.take(i as int));
        assert(all.take(i + 1).last() == items@[i as int].deep_view());
        let ghost before = views(seen@);
        match &items[i] {
            None => {
                out.append("\n");
            },
            Some(w) => {
                let file = match referred_path(w.as_str(), dir) {
                    Some(p) => find_known(files, p.as_str()),
                    None => None,
                };
                match file {
                    None => {
                        out.append(w.as_str());
                        out.append(" ");
                    },
                    Some(f) => {
                        match &f.canonical {
                            None => {},
                            Some(c) => {
                                if !f.is_file || among_texts(&seen, c.as_str()) {
                                    out.append(w.as_str());
                                    out.append(" ");
                                } else {
                                    seen.push(c.clone());
                                    assert(views(seen@) =~= before.push(c@));
                                    match &f.content {
                                        None => {
                                            out.append(w.as_str());
                                            out.append(" ");
                                        },
                                        Some(t) => {
                                            let inner = expand_at_refs(
                                                t.as_str(),
                                                f.parent.as_str(),
                                                depth + 1,
                                                files,
                                            );
                                            out.append(inner.as_str());
                                            out.append("\n");
                                        },
                                    }
                                }
                            },
                        }
                    },
                }
            },
        }
        i = i + 1;
    }
    assert(all.take(all.len() as int) =~= all);
    out
}

/// All instructions, the user's first and then from the root of the repository
/// down. Nothing where there are none.
pub fn assemble(parts: &Vec<String>) -> (r: Option<String>)
    ensures
        match r {
            None => parts@.len() == 0,
            Some(t) => parts@.len() > 0 && t@ == joined(views(parts@), "\n\n"@),
        },
{
    if parts.len() == 0 {
        None
    } else {
        Some(join(parts, "\n\n"))
    }
}

// ---- laws ----

/// The directories whose instructions count end with the one in which the work is
/// done, and begin with the nearest root of a repository.
pub proof fn law_nearest_root_comes_first(above: Seq<Seq<char>>, has_git: Seq<bool>)
    requires
        0 < above.len(),
        above.len() == has_git.len(),
    ensures
        ({
            let dirs = above.take(root_at(has_git) + 1).reverse();
            &&& dirs.last() == above[0]
            &&& dirs[0] == above[root_at(has_git)]
            &&& (exists|i: int| 0 <= i < has_git.len() && #[trigger] has_git[i])
                ==> has_git[root_at(has_git)]
            &&& (forall|i: int| 0 <= i < has_git.len() ==> !has_git[i]) ==> dirs == seq![above[0]]
        }),
{
    lemma_root_at(has_git);
    let dirs = above.take(root_at(has_git) + 1).reverse();
    if forall|i: int| 0 <= i < has_git.len() ==> !has_git[i] {
        assert(dirs =~= seq![above[0]]);
    }
}

/// Files that refer to each other do not go on for ever: below the limit a text
/// stands as it is, whatever it refers to.
pub proof fn law_references_end(text: Seq<char>, dir: Seq<char>, files: Seq<ReferredView>)
    ensures
        expanded(text, dir, MAX_AT_DEPTH + 1, files) == text,
{
}

/// A reference that leads nowhere stays as it is written.
pub proof fn law_dead_references_stay(
    s: Seq<Option<Seq<char>>>,
    w: Seq<char>,
    dir: Seq<char>,
    depth: int,
    files: Seq<ReferredView>,
)
    requires
        depth <= MAX_AT_DEPTH,
        reference(w, dir) matches Some(p) ==> known(files, p) is None,
    ensures
        resolved(s.push(Some(w)), dir, depth, files).0 == resolved(s, dir, depth, files).0 + w
            + " "@,
{
    assert(s.push(Some(w)).drop_last() =~= s);
}

} // verus!
