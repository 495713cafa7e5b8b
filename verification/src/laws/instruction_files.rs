//! Which instructions are found, and what their references come to.
use vstd::prelude::*;

use crate::instructions::ReferredView;
use crate::instructions::expanded;
use crate::instructions::file_names;
use crate::instructions::first_there;
use crate::instructions::instructions_in;
use crate::instructions::known;
use crate::instructions::reference;
use crate::instructions::references;
use crate::instructions::resolved;
use crate::instructions::root_at;
use crate::instructions::words_and_ends;
use crate::laws::texts::law_lines_end_at_feeds;
use crate::laws::texts::law_words_are_parted_by_space;
use crate::paths::joined_path;
use crate::text::after_prefix;
use crate::text::is_space;
use crate::text::line_list;
use crate::text::words;

verus! {

/// Where a word refers to a file that is known, can be read and was not read before,
/// what stands in its place is the file's text with its own references followed, as
/// seen from the directory that holds the file and one level deeper. What came before
/// the word stays.
pub proof fn law_references_are_seen_from_their_file(
    before: Seq<Option<Seq<char>>>,
    p: Seq<char>,
    dir: Seq<char>,
    depth: int,
    files: Seq<ReferredView>,
    f: ReferredView,
    c: Seq<char>,
    name: Seq<char>,
)
    requires
        depth <= 8,
        p.len() > 0,
        known(files, joined_path(dir, p)) == Some(f),
        f.is_file,
        f.canonical == Some(name),
        f.content == Some(c),
        !resolved(before, dir, depth, files).1.contains(name),
    ensures
        resolved(before.push(Some("@"@ + p)), dir, depth, files) == (
            resolved(before, dir, depth, files).0 + expanded(c, f.parent, depth + 1, files) + "\n"@,
            resolved(before, dir, depth, files).1.push(name),
        ),
{
    let s = before.push(Some("@"@ + p));
    assert(s.drop_last() =~= before);
    lemma_at(p, dir);
}

/// A text that is nothing but a reference becomes the text that it refers to, as seen
/// from the directory of that text.
pub proof fn law_lone_references_give_way(
    p: Seq<char>,
    dir: Seq<char>,
    depth: int,
    files: Seq<ReferredView>,
    f: ReferredView,
    c: Seq<char>,
    name: Seq<char>,
)
    requires
        depth <= 8,
        p.len() > 0,
        forall|i: int| 0 <= i < p.len() ==> !is_space(#[trigger] p[i]),
        known(files, joined_path(dir, p)) == Some(f),
        f.is_file,
        f.canonical == Some(name),
        f.content == Some(c),
    ensures
        expanded("@"@ + p, dir, depth, files) == expanded(c, f.parent, depth + 1, files) + "\n"@
            + "\n"@,
{
    reveal_strlit("@");
    let w = "@"@ + p;
    let none = Seq::<char>::empty();
    assert forall|i: int| 0 <= i < w.len() implies !is_space(#[trigger] w[i]) by {
        if i > 0 {
            assert(w[i] == p[i - 1]);
        }
    }
    assert(!w.contains('\n')) by {
        if w.contains('\n') {
            let i = choose|i: int| 0 <= i < w.len() && w[i] == '\n';
            assert(is_space(w[i]));
        }
    }
    law_lines_end_at_feeds(w, none);
    law_words_are_parted_by_space(w, none, none);
    assert(w + none + none =~= w);
    assert(line_list(w) == seq![w]);
    assert(words(w) =~= seq![w]);
    let start = Seq::<Option<Seq<char>>>::empty();
    let l = seq![w];
    assert(l.drop_last() =~= Seq::<Seq<char>>::empty());
    assert(words_and_ends(l.drop_last()) =~= start);
    assert(seq![w].map_values(|x: Seq<char>| Some(x)) =~= seq![Some(w)]);
    let s = words_and_ends(l);
    assert(s =~= seq![Some(w), None]);
    assert(s.drop_last() =~= start.push(Some(w)));
    assert(s.last() == None::<Seq<char>>);
    assert(resolved(start, dir, depth, files) == (none, Seq::<Seq<char>>::empty()));
    law_references_are_seen_from_their_file(start, p, dir, depth, files, f, c, name);
    assert(none + expanded(c, f.parent, depth + 1, files) =~= expanded(c, f.parent, depth + 1, files));
}

/// References are followed eight levels deep: a text below that stands as it is.
pub proof fn law_eight_levels_are_followed(text: Seq<char>, dir: Seq<char>, depth: int, files: Seq<ReferredView>)
    requires
        depth > 8,
    ensures
        expanded(text, dir, depth, files) == text,
{
}

/// Any other word stays as it is, with a space behind it, and the end of a line ends
/// the line: words that do not begin with an at sign, an at sign alone, references to
/// files that are not known or are no files, and references to what was read before.
pub proof fn law_other_words_stay(
    before: Seq<Option<Seq<char>>>,
    w: Seq<char>,
    dir: Seq<char>,
    depth: int,
    files: Seq<ReferredView>,
)
    requires
        depth <= 8,
    ensures
        ({
            let was = resolved(before, dir, depth, files);
            let now = resolved(before.push(Some(w)), dir, depth, files);
            let p = w.skip(1);
            let stays = {
                ||| w.len() < 2
                ||| w[0] != '@'
                ||| known(files, joined_path(dir, p)) is None
                ||| known(files, joined_path(dir, p)) matches Some(f) && (!f.is_file
                    || was.1.contains(f.canonical->0))
            };
            &&& stays ==> now == (was.0 + w + " "@, was.1)
            &&& resolved(before.push(None), dir, depth, files) == (was.0 + "\n"@, was.1)
        }),
{
    let s = before.push(Some(w));
    assert(s.drop_last() =~= before);
    assert(before.push(None).drop_last() =~= before);
    reveal_strlit("@");
    if w.len() > 0 && w[0] == '@' {
        assert(w =~= "@"@ + w.skip(1));
        if w.len() > 1 {
            lemma_at(w.skip(1), dir);
        } else {
            assert(w.skip(1) =~= Seq::<char>::empty());
            assert(w.take(1) =~= "@"@);
            assert(reference(w, dir) is None);
        }
    } else {
        assert(after_prefix(w, "@"@) is None) by {
            if "@"@.is_prefix_of(w) {
                assert(w.subrange(0, 1)[0] == w[0]);
            }
        }
    }
}

/// A reference names a path as seen from the directory of its text: below it, unless
/// the path is absolute.
pub proof fn law_references_start_from_their_directory(s: Seq<Seq<char>>, dir: Seq<char>, p: Seq<char>)
    requires
        dir.len() > 0,
        dir.last() != '/',
        p.len() > 0,
    ensures
        p[0] != '/' ==> references(s.push("@"@ + p), dir) == references(s, dir).push(dir + "/"@ + p),
        p[0] == '/' ==> references(s.push("@"@ + p), dir) == references(s, dir).push(p),
{
    let w = "@"@ + p;
    assert(s.push(w).drop_last() =~= s);
    lemma_at(p, dir);
    law_paths_are_joined(dir, p);
}

/// A relative path lies below the base, one slash between the two; an absolute path
/// stands for itself.
pub proof fn law_paths_are_joined(base: Seq<char>, p: Seq<char>)
    ensures
        p.len() > 0 && p[0] == '/' ==> joined_path(base, p) == p,
        !(p.len() > 0 && p[0] == '/') && base.len() > 0 && base.last() != '/' ==> joined_path(base, p)
            == base + "/"@ + p,
        !(p.len() > 0 && p[0] == '/') && (base.len() == 0 || base.last() == '/') ==> joined_path(
            base,
            p,
        ) == base + p,
{
    reveal_strlit("/");
    if p.len() > 0 && p[0] == '/' {
        assert(p.subrange(0, 1) =~= "/"@);
        assert("/"@.is_prefix_of(p));
    } else if "/"@.is_prefix_of(p) {
        assert(p.subrange(0, 1)[0] == p[0]);
    }
    if base.len() > 0 {
        let tail = base.subrange(base.len() - 1, base.len() as int);
        assert(tail.len() == 1 && tail[0] == base.last());
        if base.last() == '/' {
            assert(tail =~= "/"@);
        }
        assert("/"@.is_suffix_of(base) <==> base.last() == '/');
    }
}

/// Of the files that may hold instructions the first that is there counts, under a
/// heading that says where it comes from; the agent's own names are the first and
/// the last.
pub proof fn law_first_file_counts(
    dir: Seq<char>,
    names: Seq<Seq<char>>,
    texts: Seq<Option<Seq<char>>>,
    others: Seq<Seq<char>>,
    i: int,
)
    requires
        names.len() == texts.len(),
    ensures
        0 <= i < texts.len() && texts[i] is Some && (forall|j: int| 0 <= j < i ==> texts[j] is None)
            ==> instructions_in(dir, names, texts) == Some(
            "# 来自 "@ + joined_path(dir, names[i]) + "\n"@ + texts[i]->0,
        ),
        (forall|j: int| 0 <= j < texts.len() ==> texts[j] is None) ==> instructions_in(
            dir,
            names,
            texts,
        ) is None,
        file_names(others)[0] == "AGENTS.md"@,
        file_names(others).last() == "TAO.md"@,
        file_names(others).len() == others.len() + 2,
        file_names(others).subrange(1, others.len() as int + 1) == others,
{
    lemma_first(texts, i);
    assert(file_names(others).subrange(1, others.len() as int + 1) =~= others);
}

/// The directories run from the nearest root of a repository down to the directory
/// itself, each above the next.
pub proof fn law_nearest_repository_counts(above: Seq<Seq<char>>, has_git: Seq<bool>, k: int)
    requires
        above.len() == has_git.len(),
        0 <= k < above.len(),
        has_git[k],
        forall|j: int| 0 <= j < k ==> !has_git[j],
    ensures
        root_at(has_git) == k,
    decreases has_git.len(),
{
    if k > 0 {
        assert(!has_git[0]);
        let t = has_git.drop_first();
        assert(t[k - 1]);
        assert forall|j: int| 0 <= j < k - 1 implies !t[j] by {
            assert(t[j] == has_git[j + 1]);
        }
        law_nearest_repository_counts(above.drop_first(), t, k - 1);
    }
}

/// What is known of a path is what was said of it last, provided the file is there.
pub proof fn law_last_word_on_a_file_counts(
    files: Seq<ReferredView>,
    f: ReferredView,
    path: Seq<char>,
)
    ensures
        f.path == path && f.canonical is Some ==> known(files.push(f), path) == Some(f),
        f.path != path || f.canonical is None ==> known(files.push(f), path) == known(files, path),
        known(Seq::empty(), path) is None,
{
    assert(files.push(f).drop_last() =~= files);
}

// ---- lemmas ----

proof fn lemma_at(p: Seq<char>, dir: Seq<char>)
    requires
        p.len() > 0,
    ensures
        reference("@"@ + p, dir) == Some(joined_path(dir, p)),
{
    reveal_strlit("@");
    let w = "@"@ + p;
    assert(w.subrange(0, 1) =~= "@"@);
    assert("@"@.is_prefix_of(w));
    assert(w.skip(1) =~= p);
}

proof fn lemma_first(texts: Seq<Option<Seq<char>>>, i: int)
    ensures
        0 <= i < texts.len() && texts[i] is Some && (forall|j: int| 0 <= j < i ==> texts[j] is None)
            ==> first_there(texts) == Some(i),
        (forall|j: int| 0 <= j < texts.len() ==> texts[j] is None) ==> first_there(texts) is None,
    decreases texts.len(),
{
    if texts.len() > 0 {
        let t = texts.drop_last();
        lemma_first(t, i);
        assert(forall|j: int| 0 <= j < t.len() ==> t[j] == texts[j]);
        if 0 <= i < texts.len() && texts[i] is Some && (forall|j: int| 0 <= j < i ==> texts[j] is None) {
            if i == t.len() {
                assert(forall|j: int| 0 <= j < t.len() ==> t[j] is None);
            } else {
                assert(t[i] is Some);
                assert(forall|j: int| 0 <= j < i ==> t[j] is None);
            }
        }
    }
}

} // verus!
