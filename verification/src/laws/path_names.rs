//! Paths as seen from directories.
use vstd::prelude::*;

use crate::laws::instruction_files::law_paths_are_joined;
use crate::laws::texts::law_splitting_loses_nothing;
use crate::laws::texts::lemma_first_at;
use crate::laws::texts::lemma_first_missing;
use crate::paths::is_absolute;
use crate::paths::joined_path;
use crate::paths::parts_from;
use crate::paths::path_parts;
use crate::paths::seen_from;
use crate::text::find;
use crate::text::lemma_find_from;
use crate::text::matches_at;
use crate::text::split_list;

verus! {

/// Whether every part of a path is a name: none is empty, and none stands for the
/// directory itself.
pub open spec fn is_plain(p: Seq<char>) -> bool {
    forall|i: int|
        0 <= i < split_list(p, "/"@).len() ==> (#[trigger] split_list(p, "/"@)[i]).len() > 0
            && split_list(p, "/"@)[i] != "."@
}

/// A plain path below a directory, seen from that directory, is the path itself.
pub proof fn law_paths_below_are_seen_from_there(dir: Seq<char>, p: Seq<char>)
    requires
        dir.len() > 0,
        dir.last() != '/',
        is_plain(p),
    ensures
        seen_from(dir, joined_path(dir, p)) == p,
{
    reveal_strlit("/");
    let sl = "/"@;
    let parts = split_list(p, sl);
    law_splitting_loses_nothing(p, sl);
    assert(!(p.len() > 0 && p[0] == '/')) by {
        if p.len() > 0 && p[0] == '/' {
            lemma_first_at(Seq::empty(), sl, p.skip(1));
            assert(Seq::<char>::empty() + sl + p.skip(1) =~= p);
            assert(p.take(0) =~= Seq::<char>::empty());
            assert(parts[0].len() == 0);
        }
    }
    law_paths_are_joined(dir, p);
    let all = dir + sl + p;
    assert(joined_path(dir, p) == all);
    lemma_split_at_slash(dir, p);
    let a = split_list(dir, sl);
    law_splitting_loses_nothing(dir, sl);
    lemma_parts_over(a, parts);
    assert(path_parts(all) == path_parts(dir) + parts);
    assert(path_parts(dir).is_prefix_of(path_parts(all))) by {
        assert(path_parts(all).take(path_parts(dir).len() as int) =~= path_parts(dir));
    }
    assert(path_parts(all).skip(path_parts(dir).len() as int) =~= parts);
    assert(is_absolute(dir) == is_absolute(all)) by {
        assert(dir[0] == all[0]);
        if is_absolute(dir) {
            assert(dir.subrange(0, 1)[0] == '/');
            assert(all.subrange(0, 1) =~= sl);
        }
        if is_absolute(all) {
            assert(all.subrange(0, 1)[0] == '/');
            assert(dir.subrange(0, 1) =~= sl);
        }
    }
}

/// A path elsewhere stays whole: it is not below the directory unless it begins with
/// all of the directory's parts.
pub proof fn law_paths_elsewhere_stay_whole(dir: Seq<char>, p: Seq<char>, i: int)
    requires
        0 <= i < path_parts(dir).len(),
        i >= path_parts(p).len() || path_parts(p)[i] != path_parts(dir)[i],
    ensures
        seen_from(dir, p) == p,
{
    let a = path_parts(dir);
    let b = path_parts(p);
    if a.is_prefix_of(b) {
        assert(b.subrange(0, a.len() as int)[i] == b[i]);
    }
}

/// Slashes in a row, slashes at the end and dots between make no difference to which
/// file a path names.
pub proof fn law_dots_and_slashes_do_not_count(a: Seq<char>, b: Seq<char>)
    requires
        a.len() > 0,
    ensures
        path_parts(a + "//"@ + b) == path_parts(a + "/"@ + b),
        path_parts(a + "/"@) == path_parts(a),
        path_parts(a + "/./"@ + b) == path_parts(a + "/"@ + b),
{
    reveal_strlit("/");
    reveal_strlit("//");
    reveal_strlit("/./");
    reveal_strlit(".");
    assert("/"@.len() == 1 && "//"@.len() == 2 && "/./"@.len() == 3 && "."@.len() == 1);
    assert("/"@[0] != "."@[0]);
    let sl = "/"@;
    let none = Seq::<char>::empty();
    let x = split_list(a, sl);
    let y = split_list(b, sl);
    law_splitting_loses_nothing(a, sl);
    law_splitting_loses_nothing(b, sl);
    lemma_split_at_slash(a, b);
    lemma_split_at_slash(a, none);
    lemma_first_missing(none, sl);
    assert(split_list(none, sl) =~= seq![none]);
    assert(a + sl + none =~= a + sl);
    assert((x + seq![none]).drop_last() =~= x);
    assert((x + seq![none]).last() == none);
    assert(parts_from(x + seq![none]) == parts_from(x));
    // an empty part between
    let c = sl + b;
    lemma_split_at_slash(none, b);
    assert(none + sl + b =~= c);
    lemma_split_at_slash(a, c);
    assert(a + sl + c =~= a + "//"@ + b);
    assert(split_list(c, sl) =~= seq![none] + y);
    assert(x + (seq![none] + y) =~= (x + seq![none]) + y);
    lemma_parts_drop(x, none, y);
    // a dot between
    let d = "."@ + sl + b;
    lemma_first_missing("."@, sl);
    assert(split_list("."@, sl) =~= seq!["."@]);
    lemma_split_at_slash("."@, b);
    lemma_split_at_slash(a, d);
    assert(a + sl + d =~= a + "/./"@ + b);
    assert(split_list(d, sl) =~= seq!["."@] + y);
    assert(x + (seq!["."@] + y) =~= (x + seq!["."@]) + y);
    lemma_parts_drop(x, "."@, y);
}

// ---- lemmas ----

proof fn lemma_parts_drop(x: Seq<Seq<char>>, m: Seq<char>, y: Seq<Seq<char>>)
    requires
        x.len() > 0,
        m.len() == 0 || m == "."@,
    ensures
        parts_from(x + seq![m] + y) == parts_from(x + y),
    decreases y.len(),
{
    let s = x + seq![m] + y;
    if y.len() == 0 {
        assert(s.drop_last() =~= x);
        assert(s.last() == m);
        assert(x + y =~= x);
    } else {
        let t = y.drop_last();
        lemma_parts_drop(x, m, t);
        assert(s.drop_last() =~= x + seq![m] + t);
        assert((x + y).drop_last() =~= x + t);
        assert(s.last() == y.last() && (x + y).last() == y.last());
    }
}

proof fn lemma_parts_over(a: Seq<Seq<char>>, b: Seq<Seq<char>>)
    requires
        forall|i: int| 0 <= i < b.len() ==> (#[trigger] b[i]).len() > 0 && b[i] != "."@,
    ensures
        parts_from(a + b) == parts_from(a) + b,
    decreases b.len(),
{
    if b.len() == 0 {
        assert(a + b =~= a);
        assert(parts_from(a) + b =~= parts_from(a));
    } else {
        let t = b.drop_last();
        assert forall|i: int| 0 <= i < t.len() implies (#[trigger] t[i]).len() > 0 && t[i] != "."@ by {
            assert(t[i] == b[i]);
        }
        lemma_parts_over(a, t);
        assert((a + b).drop_last() =~= a + t);
        assert((a + b).last() == b[b.len() - 1]);
        assert(parts_from(a + b) =~= parts_from(a) + b);
    }
}

/// A text with a slash in the middle is split there.
pub proof fn lemma_split_at_slash(a: Seq<char>, b: Seq<char>)
    ensures
        split_list(a + "/"@ + b, "/"@) == split_list(a, "/"@) + split_list(b, "/"@),
    decreases a.len(),
{
    reveal_strlit("/");
    let sl = "/"@;
    let all = a + sl + b;
    lemma_find_from(a, sl, 0);
    match find(a, sl) {
        None => {
            assert(!a.contains('/')) by {
                if a.contains('/') {
                    let i = choose|i: int| 0 <= i < a.len() && a[i] == '/';
                    assert(a.subrange(i, i + 1) =~= sl);
                    assert(matches_at(a, sl, i));
                }
            }
            lemma_first_at(a, sl, b);
            assert(all.take(a.len() as int) =~= a);
            assert(all.skip(a.len() as int + 1) =~= b);
        },
        Some(k) => {
            let head = a.take(k);
            let rest = a.skip(k + 1);
            assert(a.subrange(k, k + 1) =~= sl);
            assert(a =~= head + sl + rest);
            assert(!head.contains('/')) by {
                if head.contains('/') {
                    let i = choose|i: int| 0 <= i < head.len() && head[i] == '/';
                    assert(a.subrange(i, i + 1) =~= sl);
                    assert(matches_at(a, sl, i));
                }
            }
            lemma_split_at_slash(rest, b);
            let tail = rest + sl + b;
            assert(all =~= head + sl + tail);
            lemma_first_at(head, sl, tail);
            assert(all.take(k) =~= head);
            assert(all.skip(k + 1) =~= tail);
            assert(split_list(all, sl) =~= split_list(a, sl) + split_list(b, sl));
        },
    }
}

} // verus!
