//! Reading and editing files.
use vstd::prelude::*;

use crate::laws::texts::law_splitting_loses_nothing;
use crate::laws::texts::lemma_joined_first;
use crate::text::cut;
use crate::text::decimal_of;
use crate::text::find;
use crate::text::joined;
use crate::text::lemma_find_from;
use crate::text::line_list;
use crate::text::occurs;
use crate::text::padded;
use crate::text::repeated;
use crate::text::split_list;
use crate::tools::edit::EditStepView;
use crate::tools::edit::edit_step;
use crate::tools::edit::edited;
use crate::tools::fs::AtPath;
use crate::tools::fs::lossy;
use crate::tools::fs::noted;
use crate::tools::fs::numbered;
use crate::tools::fs::page_of;
use crate::tools::fs::shown;

verus! {

/// A page shows the lines from the offset on, as many as the limit allows and the file
/// has, each with its number, and says which of how many lines they are.
pub proof fn law_pages_show_their_lines(text: Seq<char>, offset: u64, limit: u64)
    requires
        offset >= 1,
    ensures
        ({
            let lines = line_list(text);
            let n = lines.len() as int;
            let from = if offset - 1 < n {
                offset - 1
            } else {
                n
            };
            let to = if from + limit < n {
                from + limit
            } else {
                n
            };
            page_of(text, offset, limit) == numbered(lines, from, to) + "\n["@ + decimal_of(
                (from + 1) as nat,
            ) + "-"@ + decimal_of(to as nat) + " of "@ + decimal_of(n as nat) + " lines]"@
        }),
{
}

/// Numbered lines stand in order; each is its number, counted from one and six wide, a
/// tab, and the line.
pub proof fn law_lines_are_numbered(lines: Seq<Seq<char>>, a: int, b: int, c: int)
    requires
        0 <= a <= b <= c <= lines.len(),
    ensures
        numbered(lines, a, a) == Seq::<char>::empty(),
        numbered(lines, a, b) + numbered(lines, b, c) == numbered(lines, a, c),
        a < lines.len() ==> numbered(lines, a, a + 1) == padded(decimal_of((a + 1) as nat), 6) + "\t"@
            + lines[a] + "\n"@,
    decreases c,
{
    if a < lines.len() {
        assert(numbered(lines, a, a) =~= Seq::<char>::empty());
        assert(numbered(lines, a, a + 1) =~= padded(decimal_of((a + 1) as nat), 6) + "\t"@
            + lines[a] + "\n"@);
    }
    if b == c {
        assert(numbered(lines, a, b) + numbered(lines, b, c) =~= numbered(lines, a, c));
    } else {
        law_lines_are_numbered(lines, a, b, c - 1);
        assert(numbered(lines, a, b) + numbered(lines, b, c) =~= numbered(lines, a, c));
    }
}

/// A number is padded with blanks on the left.
pub proof fn law_padding_is_blank(s: Seq<char>)
    ensures
        s.len() >= 6 ==> padded(s, 6) == s,
        s.len() < 6 ==> padded(s, 6).len() == 6 && s.is_suffix_of(padded(s, 6)) && forall|i: int|
            0 <= i < 6 - s.len() ==> padded(s, 6)[i] == ' ',
{
    if s.len() < 6 {
        let k = (6 - s.len()) as nat;
        lemma_blanks(k);
        assert(padded(s, 6) =~= repeated(" "@, k) + s);
        assert(padded(s, 6).subrange(k as int, 6) =~= s);
    }
}

proof fn lemma_blanks(n: nat)
    ensures
        repeated(" "@, n).len() == n,
        forall|i: int| 0 <= i < n ==> repeated(" "@, n)[i] == ' ',
    decreases n,
{
    reveal_strlit(" ");
    if n > 0 {
        lemma_blanks((n - 1) as nat);
    }
}

/// A file with a zero byte among its first 8192 is announced by its size and not shown;
/// any other is shown as text.
pub proof fn law_binary_files_are_not_shown(
    path: Seq<char>,
    bytes: Seq<u8>,
    offset: u64,
    limit: u64,
    i: int,
)
    ensures
        0 <= i < bytes.len() && i < 8192 && bytes[i] == 0 ==> shown(path, bytes, offset, limit)
            == "[二进制文件,"@ + decimal_of(bytes.len()) + " bytes,不显示内容]\n路径: "@ + path,
        (forall|j: int| 0 <= j < bytes.len() && j < 8192 ==> bytes[j] != 0) ==> shown(
            path,
            bytes,
            offset,
            limit,
        ) == page_of(lossy(bytes), offset, limit),
{
}

/// A file that was read can be edited; nothing else counts as reading.
pub proof fn law_reading_is_noted(files: Set<Seq<char>>, path: Seq<char>, other: Seq<char>, bytes: Vec<u8>)
    ensures
        noted(files, path, AtPath::File(bytes)).contains(path),
        other != path ==> (noted(files, path, AtPath::File(bytes)).contains(other) <==> files.contains(other)),
        noted(files, path, AtPath::Directory) == files,
        noted(files, path, AtPath::Nothing) == files,
{
}

/// Where the old text stands once, an edit puts the new text in its place; where it does
/// not stand at all, or stands again behind its first place, a single edit is refused.
pub proof fn law_edits_need_one_place(
    path: Seq<char>,
    a: Seq<char>,
    old: Seq<char>,
    b: Seq<char>,
    new: Seq<char>,
)
    requires
        old.len() > 0,
        cut(a + old + b, old) == Some((a, b)),
    ensures
        ({
            let s = a + old + b;
            &&& !occurs(b, old) ==> edited(s, old, new, false) == Ok::<_, int>(a + new + b)
            &&& occurs(b, old) ==> (edited(s, old, new, false) matches Err(n) && n >= 2)
            &&& !occurs(b, old) ==> (edit_step(path, old, new, false, true, Some(s)) matches EditStepView::Write {
                text,
                output,
            } && text == a + new + b && !output.is_error)
            &&& occurs(b, old) ==> (edit_step(path, old, new, false, true, Some(s)) matches EditStepView::Answer(o)
                && o.is_error)
        }),
{
    let s = a + old + b;
    lemma_find_from(s, old, 0);
    let k = find(s, old)->0;
    assert(s.take(k) == a);
    assert(k == a.len());
    assert(s.skip(k + old.len()) == b);
    law_splitting_loses_nothing(b, old);
    if !occurs(b, old) {
        assert(split_list(b, old) =~= seq![b]);
    } else {
        lemma_find_from(b, old, 0);
        let j = find(b, old)->0;
        law_splitting_loses_nothing(b.skip(j + old.len()), old);
    }
}

/// Text that is not there cannot be replaced, one by one or all at once.
pub proof fn law_missing_text_is_refused(path: Seq<char>, s: Seq<char>, old: Seq<char>, new: Seq<char>, all: bool)
    requires
        old.len() > 0,
        !occurs(s, old),
    ensures
        edited(s, old, new, all) == Err::<Seq<char>, int>(0),
        edit_step(path, old, new, all, true, Some(s)) matches EditStepView::Answer(o) && o.is_error,
        edit_step(path, old, new, all, true, None) matches EditStepView::Answer(o) && o.is_error,
        edit_step(path, old, new, all, false, Some(s)) matches EditStepView::Answer(o) && o.is_error,
{
    assert(split_list(s, old) =~= seq![s]);
}

/// Replacing all replaces the first, and then all behind it.
pub proof fn law_all_places_are_replaced(a: Seq<char>, old: Seq<char>, b: Seq<char>, new: Seq<char>)
    requires
        old.len() > 0,
        cut(a + old + b, old) == Some((a, b)),
    ensures
        edited(a + old + b, old, new, true) == Ok::<_, int>(
            a + new + match edited(b, old, new, true) {
                Ok(t) => t,
                Err(_) => b,
            },
        ),
{
    let s = a + old + b;
    lemma_find_from(s, old, 0);
    let k = find(s, old)->0;
    assert(s.take(k) == a);
    assert(s.skip(k + old.len()) == b);
    law_splitting_loses_nothing(b, old);
    let q = split_list(b, old);
    lemma_joined_first(a, q, new);
    if q.len() == 1 {
        law_splitting_loses_nothing(b, old);
        assert(q =~= seq![b]) by {
            assert(joined(q, old) == q[0]);
        }
    }
}

} // verus!
