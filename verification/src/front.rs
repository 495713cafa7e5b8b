//! Markdown files with a head of settings between two lines of dashes.
use vstd::prelude::*;
use vstd::string::*;

use crate::dup::Dup;
use crate::text::after_prefix;
use crate::text::line_list;
use crate::text::lines;
use crate::text::same;
use crate::text::strip;
use crate::text::strip_prefix;
use crate::text::stripped;
use crate::text::trim;
use crate::text::trimmed;
use crate::text::views;

verus! {

/// Whether a line opens or closes a head.
pub open spec fn is_mark(line: Seq<char>) -> bool {
    trimmed(line) == "---"@
}

/// The index of the first mark, or the number of lines.
pub open spec fn first_mark(s: Seq<Seq<char>>) -> nat
    decreases s.len(),
{
    if s.len() == 0 || is_mark(s[0]) {
        0
    } else {
        1 + first_mark(s.drop_first())
    }
}

/// Lines, each with a line feed behind it.
pub open spec fn ended_lines(s: Seq<Seq<char>>) -> Seq<char>
    decreases s.len(),
{
    if s.len() == 0 {
        Seq::empty()
    } else {
        ended_lines(s.drop_last()) + s.last() + "\n"@
    }
}

/// The head and the body of a file. A file that does not begin with a mark is all
/// body.
pub open spec fn front_and_body(text: Seq<char>) -> (Seq<char>, Seq<char>) {
    let all = line_list(text);
    if all.len() == 0 || !is_mark(all[0]) {
        (Seq::empty(), text)
    } else {
        let rest = all.drop_first();
        let k = first_mark(rest) as int;
        (
            ended_lines(rest.take(k)),
            ended_lines(
                if k < rest.len() {
                    rest.skip(k + 1)
                } else {
                    Seq::empty()
                },
            ),
        )
    }
}

proof fn lemma_first_mark(s: Seq<Seq<char>>)
    ensures
        first_mark(s) <= s.len(),
        first_mark(s) < s.len() ==> is_mark(s[first_mark(s) as int]),
        forall|i: int| 0 <= i < first_mark(s) ==> !is_mark(#[trigger] s[i]),
    decreases s.len(),
{
    if s.len() > 0 && !is_mark(s[0]) {
        let t = s.drop_first();
        lemma_first_mark(t);
        assert forall|i: int| 0 <= i < first_mark(s) implies !is_mark(#[trigger] s[i]) by {
            if i > 0 {
                assert(t[i - 1] == s[i]);
            }
        }
    }
}

fn write_lines(v: &Vec<String>, from: usize, to: usize) -> (r: String)
    requires
        from <= to <= v@.len(),
    ensures
        r@ == ended_lines(views(v@).subrange(from as int, to as int)),
{
    let ghost all = views(v@).subrange(from as int, to as int);
    let mut out = String::new();
    let mut i: usize = from;
    while i < to
        invariant
            from <= i <= to <= v@.len(),
            all == views(v@).subrange(from as int, to as int),
            out@ == ended_lines(all.take(i - from)),
        decreases to - i,
    {
        assert(all.take(i + 1 - from).drop_last() =~= all.take(i - from));
        assert(all.take(i + 1 - from).last() == v@[i as int]@);
        out.append(v[i].as_str());
        out.append("\n");
        i = i + 1;
    }
    assert(all.take(all.len() as int) =~= all);
    out
}

fn marks(line: &str) -> (r: bool)
    ensures
        r == is_mark(line@),
{
    let t = trim(line);
    same(t.as_str(), "---")
}

/// The head and the body of a file.
pub fn split_frontmatter(text: &str) -> (r: (String, String))
    ensures
        (r.0@, r.1@) == front_and_body(text@),
{
    let v = lines(text);
    let ghost all = line_list(text@);
    if v.len() == 0 || !marks(v[0].as_str()) {
        let none = String::new();
        assert(none@ =~= Seq::<char>::empty());
        assert(views(v@).len() == v@.len());
        return (none, text.to_owned());
    }
    let ghost rest = all.drop_first();
    proof {
        lemma_first_mark(rest);
    }
    let mut k: usize = 1;
    while k < v.len() && !marks(v[k].as_str())
        invariant
            1 <= k <= v@.len(),
            all == views(v@),
            rest == all.drop_first(),
            first_mark(rest) <= rest.len(),
            first_mark(rest) < rest.len() ==> is_mark(rest[first_mark(rest) as int]),
            k - 1 <= first_mark(rest),
        decreases v@.len() - k,
    {
        assert(rest[k - 1] == v@[k as int]@);
        k = k + 1;
    }
    proof {
        if k < v@.len() {
            assert(rest[k - 1] == v@[k as int]@);
        }
        assert(k - 1 == first_mark(rest));
    }
    let head = write_lines(&v, 1, k);
    assert(all.subrange(1, k as int) =~= rest.take(k - 1));
    let body = if k < v.len() {
        let b = write_lines(&v, k + 1, v.len());
        assert(all.subrange(k + 1, v@.len() as int) =~= rest.skip(k as int));
        b
    } else {
        let b = String::new();
        assert(b@ =~= Seq::<char>::empty());
        b
    };
    (head, body)
}

/// What a line of a head says behind a key: without white space around it, and
/// then without quotation marks.
pub open spec fn said_behind(line: Seq<char>, key: Seq<char>) -> Option<Seq<char>> {
    match after_prefix(line, key) {
        Some(v) => Some(stripped(trimmed(v), '"')),
        None => None,
    }
}

/// What the last line with a key says.
pub open spec fn last_said(s: Seq<Seq<char>>, key: Seq<char>) -> Option<Seq<char>>
    decreases s.len(),
{
    if s.len() == 0 {
        None
    } else if after_prefix(s.last(), key) is Some {
        said_behind(s.last(), key)
    } else {
        last_said(s.drop_last(), key)
    }
}

/// What the last line with a key and something behind it says.
pub open spec fn last_told(s: Seq<Seq<char>>, key: Seq<char>) -> Option<Seq<char>>
    decreases s.len(),
{
    if s.len() == 0 {
        None
    } else if said_behind(s.last(), key) matches Some(v) && v.len() > 0 {
        said_behind(s.last(), key)
    } else {
        last_told(s.drop_last(), key)
    }
}

/// The last line with a key, as it stands behind the key.
pub open spec fn last_raw(s: Seq<Seq<char>>, key: Seq<char>) -> Option<Seq<char>>
    decreases s.len(),
{
    if s.len() == 0 {
        None
    } else if after_prefix(s.last(), key) is Some {
        after_prefix(s.last(), key)
    } else {
        last_raw(s.drop_last(), key)
    }
}

fn behind(line: &str, key: &str) -> (r: Option<String>)
    ensures
        r.deep_view() == said_behind(line@, key@),
{
    match strip_prefix(line, key) {
        Some(v) => {
            let t = trim(v.as_str());
            Some(strip(t.as_str(), '"'))
        },
        None => None,
    }
}

/// What the last line of a head with a key says.
pub fn value_of(head: &str, key: &str) -> (r: Option<String>)
    ensures
        r.deep_view() == last_said(line_list(head@), key@),
{
    let v = lines(head);
    let ghost all = line_list(head@);
    let mut i: usize = v.len();
    assert(all.take(i as int) =~= all);
    while i > 0
        invariant
            i <= v@.len(),
            all == views(v@),
            last_said(all, key@) == last_said(all.take(i as int), key@),
            all == line_list(head@),
        decreases i,
    {
        i = i - 1;
        assert(all.take(i + 1).drop_last() =~= all.take(i as int));
        assert(all.take(i + 1).last() == v@[i as int]@);
        let said = behind(v[i].as_str(), key);
        if said.is_some() {
            return said;
        }
    }
    None
}

/// What the last line of a head with a key and something behind it says.
pub fn told_value_of(head: &str, key: &str) -> (r: Option<String>)
    ensures
        r.deep_view() == last_told(line_list(head@), key@),
{
    let v = lines(head);
    let ghost all = line_list(head@);
    let mut i: usize = v.len();
    assert(all.take(i as int) =~= all);
    while i > 0
        invariant
            i <= v@.len(),
            all == views(v@),
            last_told(all, key@) == last_told(all.take(i as int), key@),
            all == line_list(head@),
        decreases i,
    {
        i = i - 1;
        assert(all.take(i + 1).drop_last() =~= all.take(i as int));
        assert(all.take(i + 1).last() == v@[i as int]@);
        match behind(v[i].as_str(), key) {
            Some(t) => if t.as_str().unicode_len() > 0 {
                return Some(t);
            },
            None => {},
        }
    }
    None
}

/// What stands behind a key in the last line of a head with it.
pub fn raw_value_of(head: &str, key: &str) -> (r: Option<String>)
    ensures
        r.deep_view() == last_raw(line_list(head@), key@),
{
    let v = lines(head);
    let ghost all = line_list(head@);
    let mut i: usize = v.len();
    assert(all.take(i as int) =~= all);
    while i > 0
        invariant
            i <= v@.len(),
            all == views(v@),
            last_raw(all, key@) == last_raw(all.take(i as int), key@),
            all == line_list(head@),
        decreases i,
    {
        i = i - 1;
        assert(all.take(i + 1).drop_last() =~= all.take(i as int));
        assert(all.take(i + 1).last() == v@[i as int]@);
        let said = strip_prefix(v[i].as_str(), key);
        if said.is_some() {
            return said;
        }
    }
    None
}

/// The first line of a text, or nothing.
pub open spec fn first_line_of(s: Seq<char>) -> Seq<char> {
    let all = line_list(s);
    if all.len() > 0 {
        all[0]
    } else {
        Seq::empty()
    }
}

/// The first line of a text, or nothing.
pub fn first_line(s: &str) -> (r: String)
    ensures
        r@ == first_line_of(s@),
{
    let v = lines(s);
    assert(views(v@).len() == v@.len());
    if v.len() > 0 {
        assert(views(v@)[0] == v@[0]@);
        v[0].clone()
    } else {
        let r = String::new();
        assert(r@ =~= Seq::<char>::empty());
        r
    }
}

/// `d`, or what stands in its place where it is empty.
pub open spec fn if_empty(d: Seq<char>, other: Seq<char>) -> Seq<char> {
    if d.len() == 0 {
        other
    } else {
        d
    }
}

// ---- things with names ----

/// What a file describes has a name.
pub trait Named: Dup {
    /// The name.
    spec fn name_of(v: Self::V) -> Seq<char>;

    /// The name.
    fn name(&self) -> (r: &str)
        ensures
            r@ == Self::name_of(self.deep_view()),
    ;
}

/// Under each name, what came last.
pub open spec fn by_name<T: Named>(s: Seq<T::V>) -> Map<Seq<char>, T::V>
    decreases s.len(),
{
    if s.len() == 0 {
        Map::empty()
    } else {
        by_name::<T>(s.drop_last()).insert(T::name_of(s.last()), s.last())
    }
}

/// Whether a list holds what a map says, each name once.
pub open spec fn lists_each<T: Named>(s: Seq<T::V>, m: Map<Seq<char>, T::V>) -> bool {
    &&& forall|i: int|
        0 <= i < s.len() ==> m.contains_key(T::name_of(#[trigger] s[i])) && m[T::name_of(s[i])]
            == s[i]
    &&& forall|i: int, j: int|
        0 <= i < j < s.len() ==> T::name_of(#[trigger] s[i]) != T::name_of(#[trigger] s[j])
    &&& forall|k: Seq<char>| #[trigger]
        m.contains_key(k) ==> exists|i: int| 0 <= i < s.len() && T::name_of(#[trigger] s[i]) == k
}

/// Of what was found, in the order in which it was found, what came last under each
/// name.
pub fn last_of_each<T: Named>(found: &Vec<T>) -> (r: Vec<T>)
    ensures
        lists_each::<T>(r.deep_view(), by_name::<T>(found.deep_view())),
{
    let ghost all = found.deep_view();
    let mut out: Vec<T> = Vec::new();
    let mut i: usize = 0;
    assert(out.deep_view() =~= Seq::<T::V>::empty());
    assert(lists_each::<T>(out.deep_view(), by_name::<T>(all.take(0))));
    while i < found.len()
        invariant
            i <= found@.len(),
            all == found.deep_view(),
            lists_each::<T>(out.deep_view(), by_name::<T>(all.take(i as int))),
        decreases found@.len() - i,
    {
        assert(all.take(i + 1).drop_last() =~= all.take(i as int));
        let x = found[i].dup();
        let ghost xv = x.deep_view();
        assert(all.take(i + 1).last() == xv);
        let ghost before = out.deep_view();
        let ghost m = by_name::<T>(all.take(i as int));
        let ghost now = m.insert(T::name_of(xv), xv);
        let mut j: usize = 0;
        while j < out.len() && !same(out[j].name(), x.name())
            invariant
                j <= out@.len(),
                forall|k: int|
                    0 <= k < j ==> T::name_of((#[trigger] out@[k]).deep_view()) != T::name_of(
                        x.deep_view(),
                    ),
            decreases out@.len() - j,
        {
            j = j + 1;
        }
        if j < out.len() {
            out.set(j, x);
            let ghost after = out.deep_view();
            proof {
                assert(after =~= before.update(j as int, xv));
                assert forall|k: Seq<char>| #[trigger] now.contains_key(k) implies exists|n: int|
                    0 <= n < after.len() && T::name_of(#[trigger] after[n]) == k by {
                    if k == T::name_of(xv) {
                        assert(T::name_of(after[j as int]) == k);
                    } else {
                        assert(m.contains_key(k));
                        let n = choose|n: int|
                            0 <= n < before.len() && T::name_of(#[trigger] before[n]) == k;
                        assert(T::name_of(after[n]) == k);
                    }
                }
                assert forall|n: int| 0 <= n < after.len() implies now.contains_key(
                    T::name_of(#[trigger] after[n]),
                ) && now[T::name_of(after[n])] == after[n] by {
                    if n != j {
                        assert(after[n] == before[n]);
                        if n < j {
                            assert(T::name_of(before[n]) != T::name_of(before[j as int]));
                        } else {
                            assert(T::name_of(before[j as int]) != T::name_of(before[n]));
                        }
                    }
                }
                assert forall|a: int, b: int| 0 <= a < b < after.len() implies T::name_of(
                    #[trigger] after[a],
                ) != T::name_of(#[trigger] after[b]) by {
                    assert(T::name_of(after[a]) == T::name_of(before[a]));
                    assert(T::name_of(after[b]) == T::name_of(before[b]));
                }
            }
        } else {
            out.push(x);
            let ghost after = out.deep_view();
            proof {
                assert(after =~= before.push(xv));
                assert forall|n: int| 0 <= n < before.len() implies T::name_of(
                    #[trigger] before[n],
                ) != T::name_of(xv) by {
                    assert(before[n] == out@[n].deep_view());
                }
                assert forall|k: Seq<char>| #[trigger] now.contains_key(k) implies exists|n: int|
                    0 <= n < after.len() && T::name_of(#[trigger] after[n]) == k by {
                    if k == T::name_of(xv) {
                        assert(T::name_of(after[after.len() - 1]) == k);
                    } else {
                        assert(m.contains_key(k));
                        let n = choose|n: int|
                            0 <= n < before.len() && T::name_of(#[trigger] before[n]) == k;
                        assert(T::name_of(after[n]) == k);
                    }
                }
                assert forall|n: int| 0 <= n < after.len() implies now.contains_key(
                    T::name_of(#[trigger] after[n]),
                ) && now[T::name_of(after[n])] == after[n] by {
                    if n < before.len() {
                        assert(after[n] == before[n]);
                    }
                }
            }
        }
        i = i + 1;
    }
    assert(all.take(all.len() as int) =~= all);
    out
}

// ---- laws ----

/// What a project describes wins over what the user describes under the same name:
/// what comes later in the order of search is what stands there.
pub proof fn law_later_wins<T: Named>(global: Seq<T::V>, project: Seq<T::V>, i: int)
    requires
        0 <= i < project.len(),
        forall|j: int|
            i < j < project.len() ==> T::name_of(#[trigger] project[j]) != T::name_of(project[i]),
    ensures
        by_name::<T>(global + project).contains_key(T::name_of(project[i])),
        by_name::<T>(global + project)[T::name_of(project[i])] == project[i],
    decreases project.len(),
{
    let all = global + project;
    assert(all.last() == project.last());
    assert(all.drop_last() =~= global + project.drop_last());
    if i < project.len() - 1 {
        law_later_wins::<T>(global, project.drop_last(), i);
        assert(T::name_of(project[project.len() - 1]) != T::name_of(project[i]));
    }
}

} // verus!
