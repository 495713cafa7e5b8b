//! Unix paths as text.
use vstd::prelude::*;
use vstd::string::*;

use crate::text::cat3;
use crate::text::cat;
use crate::text::ends_with;
use crate::text::join;
use crate::text::joined;
use crate::text::same;
use crate::text::split;
use crate::text::split_list;
use crate::text::starts_with;
use crate::text::views;

verus! {

/// Whether a path starts at the root.
pub open spec fn is_absolute(p: Seq<char>) -> bool {
    "/"@.is_prefix_of(p)
}

/// `p` as seen from `base`: an absolute path stands for itself.
pub open spec fn joined_path(base: Seq<char>, p: Seq<char>) -> Seq<char> {
    if is_absolute(p) {
        p
    } else if base.len() == 0 || "/"@.is_suffix_of(base) {
        base + p
    } else {
        base + "/"@ + p
    }
}

/// `p` as seen from `base`.
pub fn join_path(base: &str, p: &str) -> (r: String)
    ensures
        r@ == joined_path(base@, p@),
{
    if starts_with(p, "/") {
        p.to_owned()
    } else if base.is_empty() || ends_with(base, "/") {
        cat(base, p)
    } else {
        cat3(base, "/", p)
    }
}

/// The named parts of a path: empty parts and dots do not count, but for a dot at
/// the head of a relative path.
pub open spec fn parts_from(s: Seq<Seq<char>>) -> Seq<Seq<char>>
    decreases s.len(),
{
    if s.len() == 0 {
        Seq::empty()
    } else if s.last().len() == 0 || (s.last() == "."@ && s.len() > 1) {
        parts_from(s.drop_last())
    } else {
        parts_from(s.drop_last()).push(s.last())
    }
}

/// The parts of a path.
pub open spec fn path_parts(p: Seq<char>) -> Seq<Seq<char>> {
    parts_from(split_list(p, "/"@))
}

/// Whether two paths are made of the same parts.
pub open spec fn same_path(a: Seq<char>, b: Seq<char>) -> bool {
    is_absolute(a) == is_absolute(b) && path_parts(a) == path_parts(b)
}

/// Whether a path is among others.
pub open spec fn is_among(paths: Seq<Seq<char>>, p: Seq<char>) -> bool {
    exists|i: int| 0 <= i < paths.len() && same_path(#[trigger] paths[i], p)
}

/// The parts of a path.
pub fn parts(p: &str) -> (r: Vec<String>)
    ensures
        views(r@) == path_parts(p@),
{
    proof {
        reveal_strlit("/");
        assert("/"@.len() == 1);
    }
    let all = split(p, "/");
    let ghost s = views(all@);
    let mut out: Vec<String> = Vec::new();
    let mut i: usize = 0;
    assert(views(out@) =~= parts_from(s.take(0)));
    while i < all.len()
        invariant
            i <= all@.len(),
            s == views(all@),
            views(out@) == parts_from(s.take(i as int)),
        decreases all@.len() - i,
    {
        let ghost before = out@;
        assert(s.take(i + 1).drop_last() =~= s.take(i as int));
        assert(s.take(i + 1).last() == all@[i as int]@);
        if !all[i].as_str().is_empty() && !(same(all[i].as_str(), ".") && i > 0) {
            out.push(all[i].clone());
            assert(views(out@) =~= views(before).push(all@[i as int]@));
        }
        i = i + 1;
    }
    assert(s.take(s.len() as int) =~= s);
    out
}

fn same_texts(a: &Vec<String>, b: &Vec<String>) -> (r: bool)
    ensures
        r == (views(a@) == views(b@)),
{
    assert(views(a@).len() == a@.len() && views(b@).len() == b@.len());
    if a.len() != b.len() {
        return false;
    }
    let mut i: usize = 0;
    while i < a.len()
        invariant
            i <= a@.len(),
            a@.len() == b@.len(),
            forall|k: int| 0 <= k < i ==> (#[trigger] a@[k])@ == b@[k]@,
        decreases a@.len() - i,
    {
        if !same(a[i].as_str(), b[i].as_str()) {
            assert(views(a@)[i as int] != views(b@)[i as int]);
            return false;
        }
        i = i + 1;
    }
    assert(views(a@) =~= views(b@));
    true
}

/// Whether two paths are made of the same parts.
pub fn paths_equal(a: &str, b: &str) -> (r: bool)
    ensures
        r == same_path(a@, b@),
{
    let x = parts(a);
    let y = parts(b);
    starts_with(a, "/") == starts_with(b, "/") && same_texts(&x, &y)
}

/// Whether a path is among others.
pub fn among(paths: &Vec<String>, p: &str) -> (r: bool)
    ensures
        r == is_among(views(paths@), p@),
{
    let mut i: usize = 0;
    while i < paths.len()
        invariant
            i <= paths@.len(),
            forall|k: int| 0 <= k < i ==> !same_path(#[trigger] views(paths@)[k], p@),
        decreases paths@.len() - i,
    {
        assert(views(paths@)[i as int] == paths@[i as int]@);
        if paths_equal(paths[i].as_str(), p) {
            return true;
        }
        i = i + 1;
    }
    false
}

/// A path as seen from a directory above it; any other path is kept whole.
pub open spec fn seen_from(dir: Seq<char>, p: Seq<char>) -> Seq<char> {
    let a = path_parts(dir);
    let b = path_parts(p);
    if is_absolute(dir) == is_absolute(p) && a.is_prefix_of(b) {
        joined(b.skip(a.len() as int), "/"@)
    } else {
        p
    }
}

/// A path as seen from a directory above it.
pub fn relative_to(dir: &str, p: &str) -> (r: String)
    ensures
        r@ == seen_from(dir@, p@),
{
    let a = parts(dir);
    let b = parts(p);
    let ghost x = path_parts(dir@);
    let ghost y = path_parts(p@);
    assert(x.len() == a@.len() && y.len() == b@.len());
    if starts_with(dir, "/") != starts_with(p, "/") || a.len() > b.len() {
        return p.to_owned();
    }
    let mut i: usize = 0;
    while i < a.len()
        invariant
            i <= a@.len() <= b@.len(),
            x == views(a@),
            y == views(b@),
            x == path_parts(dir@),
            y == path_parts(p@),
            forall|k: int| 0 <= k < i ==> #[trigger] x[k] == y[k],
        decreases a@.len() - i,
    {
        assert(x[i as int] == a@[i as int]@ && y[i as int] == b@[i as int]@);
        if !same(a[i].as_str(), b[i].as_str()) {
            assert(!x.is_prefix_of(y)) by {
                if x.is_prefix_of(y) {
                    assert(y.subrange(0, x.len() as int)[i as int] == y[i as int]);
                }
            }
            return p.to_owned();
        }
        i = i + 1;
    }
    assert(x =~= y.subrange(0, x.len() as int));
    let mut rest: Vec<String> = Vec::new();
    let mut j: usize = a.len();
    assert(views(rest@) =~= y.subrange(x.len() as int, x.len() as int));
    while j < b.len()
        invariant
            a@.len() <= j <= b@.len(),
            y == views(b@),
            x.len() == a@.len(),
            views(rest@) == y.subrange(x.len() as int, j as int),
        decreases b@.len() - j,
    {
        let ghost before = rest@;
        rest.push(b[j].clone());
        assert(views(rest@) =~= views(before).push(y[j as int]));
        assert(views(rest@) =~= y.subrange(x.len() as int, j + 1));
        j = j + 1;
    }
    assert(y.subrange(x.len() as int, y.len() as int) =~= y.skip(x.len() as int));
    join(&rest, "/")
}

} // verus!
