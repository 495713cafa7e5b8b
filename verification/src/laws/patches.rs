//! What patches read as, and what they do to files.
use vstd::prelude::*;

use crate::apply_patch::ApplyErrorView;
use crate::apply_patch::FileFactView;
use crate::apply_patch::HunkActionView;
use crate::apply_patch::HunkView;
use crate::apply_patch::ParseErrorView;
use crate::apply_patch::PendingOpView;
use crate::apply_patch::PlanView;
use crate::apply_patch::Reading;
use crate::apply_patch::bare;
use crate::apply_patch::block_at;
use crate::apply_patch::block_of;
use crate::apply_patch::closed;
use crate::apply_patch::diff_text;
use crate::apply_patch::fact_now;
use crate::apply_patch::gone;
use crate::apply_patch::hunk_plan;
use crate::apply_patch::left_by;
use crate::apply_patch::lines_after;
use crate::apply_patch::normal;
use crate::apply_patch::patch_of;
use crate::apply_patch::patch_plan;
use crate::apply_patch::plus_lines;
use crate::apply_patch::read_line;
use crate::apply_patch::read_lines;
use crate::laws::texts::law_lines_end_at_feeds;
use crate::laws::texts::law_words_are_parted_by_space;
use crate::laws::texts::law_written_lines_are_read_back;
use crate::laws::texts::lemma_joined_first;
use crate::paths::joined_path;
use crate::paths::same_path;
use crate::text::after_prefix;
use crate::text::find;
use crate::text::is_space;
use crate::text::joined;
use crate::text::lemma_lines_before;
use crate::text::lemma_trim_start_len;
use crate::text::lemma_word_len;
use crate::text::line_list;
use crate::text::occurs;
use crate::text::trim_start;
use crate::text::trimmed;
use crate::text::word_len;
use crate::text::words;

verus! {

/// Whether a text can stand as one line: it holds no line feed, and no carriage
/// return at its end.
pub open spec fn is_line(s: Seq<char>) -> bool {
    !s.contains('\n') && !(s.len() > 0 && s.last() == '\r')
}

/// Whether texts can all stand as lines.
pub open spec fn are_lines(s: Seq<Seq<char>>) -> bool {
    forall|i: int| 0 <= i < s.len() ==> is_line(#[trigger] s[i])
}

/// An added file holds exactly the added lines, in order, each with a line feed
/// behind it, and lies at the hunk's path below the base. A file that is there
/// already is left alone.
pub proof fn law_added_lines_are_written(h: HunkView, base: Seq<char>, fact: FileFactView)
    requires
        h.action == HunkActionView::Add,
        are_lines(h.add),
    ensures
        fact.exists ==> hunk_plan(h, base, fact) == Err::<(PendingOpView, Seq<char>), _>(
            ApplyErrorView::AlreadyExists(joined_path(base, h.path)),
        ),
        !fact.exists ==> (hunk_plan(h, base, fact) matches Ok((op, _)) && op matches PendingOpView::Write {
            path,
            new,
        } && path == joined_path(base, h.path) && line_list(new) == h.add && (h.add.len() > 0
            ==> new.last() == '\n') && (h.add.len() == 0 ==> new.len() == 0)),
{
    reveal_strlit("\n");
    if !fact.exists {
        law_written_lines_are_read_back(h.add);
        if h.add.len() == 0 {
            assert(joined(h.add, "\n"@) + Seq::<char>::empty() =~= Seq::<char>::empty());
            assert(line_list(Seq::<char>::empty()) =~= h.add);
        }
    }
}

/// The part of the diff for an added file is a heading with its path, and behind it
/// each line with a plus sign before it.
pub proof fn law_added_lines_are_shown(h: HunkView, base: Seq<char>, fact: FileFactView)
    requires
        h.action == HunkActionView::Add,
        !fact.exists,
        is_line(h.path),
        are_lines(h.add),
    ensures
        hunk_plan(h, base, fact) matches Ok((_, part)) && line_list(part) == seq![
            "*** Add File: "@ + h.path,
        ] + Seq::new(h.add.len(), |i: int| "+"@ + h.add[i]),
{
    reveal_strlit("\n");
    assert("\n"@ =~= seq!['\n']);
    reveal_strlit("*** Add File: ");
    let first = "*** Add File: "@ + h.path;
    assert(is_line(first)) by {
        lemma_line_behind("*** Add File: "@, h.path);
    }
    lemma_plus_lines(h.add);
    law_lines_end_at_feeds(first, plus_lines(h.add));
    assert("*** Add File: "@ + h.path + "\n"@ + plus_lines(h.add) =~= first + seq!['\n'] + plus_lines(h.add));
}

/// A deletion takes the hunk's file away and a move carries it to the new path, both
/// below the base; either fails where there is no such file.
pub proof fn law_files_go_and_move(h: HunkView, to: Seq<char>, base: Seq<char>, fact: FileFactView)
    ensures
        ({
            let del = hunk_plan(HunkView { action: HunkActionView::Delete, ..h }, base, fact);
            let moved = hunk_plan(HunkView { action: HunkActionView::Move { to }, ..h }, base, fact);
            let path = joined_path(base, h.path);
            &&& !fact.exists ==> del == Err::<(PendingOpView, Seq<char>), _>(
                ApplyErrorView::NotFound(path),
            ) && moved == Err::<(PendingOpView, Seq<char>), _>(ApplyErrorView::NotFound(path))
            &&& fact.exists ==> del == Ok::<_, ApplyErrorView>(
                (PendingOpView::Delete { path }, "*** Delete File: "@ + h.path + "\n"@),
            )
            &&& fact.exists ==> moved == Ok::<_, ApplyErrorView>(
                (
                    PendingOpView::Move { from: path, to: joined_path(base, to) },
                    "*** Move File: "@ + h.path + " to "@ + joined_path(base, to) + "\n"@,
                ),
            )
        }),
{
}

/// Whether two lines have the same words.
pub open spec fn alike(a: Seq<char>, b: Seq<char>) -> bool {
    words(a) == words(b)
}

/// Whether lines stand among others from index `i` on, white space aside.
pub open spec fn stand_at(lines: Seq<Seq<char>>, block: Seq<Seq<char>>, i: int) -> bool {
    &&& 0 <= i
    &&& i + block.len() <= lines.len()
    &&& forall|j: int| 0 <= j < block.len() ==> alike(#[trigger] lines[i + j], block[j])
}

/// An update finds the place where its context, and behind it the lines that it
/// removes, stand; there, the removed lines give way to the added ones and every
/// other line stays. Without such a place, or with more than one, it is refused.
pub proof fn law_updates_change_their_place(
    old: Seq<char>,
    h: HunkView,
    base: Seq<char>,
    exists: bool,
    i: int,
)
    requires
        h.action == HunkActionView::Update,
    ensures
        ({
            let lines = line_list(old);
            let block = h.seek_context + h.remove;
            let path = joined_path(base, h.path);
            let r = hunk_plan(h, base, FileFactView { exists, text: Ok(old) });
            let now = lines.take(i + h.seek_context.len()) + h.add + lines.skip(i + block.len());
            &&& block.len() == 0 ==> r == Err::<(PendingOpView, Seq<char>), _>(
                ApplyErrorView::EmptyHunk(path),
            )
            &&& block.len() > 0 && (forall|j: int| !stand_at(lines, block, j)) ==> r == Err::<
                (PendingOpView, Seq<char>),
                _,
            >(ApplyErrorView::NotFoundInFile(path))
            &&& block.len() > 0 && stand_at(lines, block, i) && (exists|j: int| j != i && stand_at(lines, block, j))
                ==> r == Err::<(PendingOpView, Seq<char>), _>(ApplyErrorView::Ambiguous(path))
            &&& block.len() > 0 && stand_at(lines, block, i) && (forall|j: int|
                stand_at(lines, block, j) ==> j == i) ==> (r matches Ok((op, diff)) && op matches PendingOpView::Write { path: at, new }
                && at == path && diff == diff_text(h.path, old, new)
                && (now.len() > 0 && are_lines(now) && (now.last().len() > 0 || (old.len() > 0 && old.last() == '\n'))
                    ==> line_list(new) == now && ((old.len() > 0 && old.last() == '\n') <==> new.last() == '\n')))
        }),
{
    let lines = line_list(old);
    let block = h.seek_context + h.remove;
    assert(block =~= block_of(h));
    assert forall|j: int| #[trigger] stand_at(lines, block, j) <==> block_at(lines, block, j) by {
        lemma_same_place(lines, block, j);
    }
    assert forall|j: int| block_at(lines, block, j) implies #[trigger] stand_at(lines, block, j) by {
        lemma_same_place(lines, block, j);
    }
    reveal_strlit("\n");
    assert("\n"@ =~= seq!['\n']);
    if block.len() > 0 && stand_at(lines, block, i) {
        assert(block_at(lines, block, i));
        if forall|j: int| stand_at(lines, block, j) ==> j == i {
            assert forall|j: int| #[trigger] block_at(lines, block, j) implies j == i by {
                assert(stand_at(lines, block, j));
            }
            let k = choose|k: int| block_at(lines, block, k);
            assert(k == i);
            let now = lines.take(i + h.seek_context.len()) + h.add + lines.skip(i + block.len());
            assert(lines_after(lines, h, i) == now);
            if now.len() > 0 && are_lines(now) {
                law_written_lines_are_read_back(now);
                let fed = old.len() > 0 && old.last() == '\n';
                assert("\n"@.is_suffix_of(old) <==> fed) by {
                    if fed {
                        assert(old.subrange(old.len() - 1, old.len() as int) =~= seq!['\n']);
                    }
                    if "\n"@.is_suffix_of(old) {
                        assert(old.subrange(old.len() - 1, old.len() as int)[0] == '\n');
                    }
                }
                if !fed && now.last().len() > 0 {
                    let body = joined(now, "\n"@);
                    assert(body + Seq::<char>::empty() =~= body);
                    lemma_joined_last(now, "\n"@);
                    let l = now.last();
                    assert(is_line(now[now.len() - 1]));
                    assert(l.contains(l[l.len() - 1]));
                    assert(body.last() == l.last());
                }
            }
        } else {
            let j = choose|j: int| stand_at(lines, block, j) && j != i;
            assert(block_at(lines, block, j));
        }
    }
    if block.len() > 0 && exists|j: int| block_at(lines, block, j) {
        let j = choose|j: int| block_at(lines, block, j);
        assert(stand_at(lines, block, j));
    }
}

/// An update of a file that cannot be read fails with the reason.
pub proof fn law_unreadable_files_fail(h: HunkView, base: Seq<char>, exists: bool, why: Seq<char>)
    requires
        h.action == HunkActionView::Update,
    ensures
        hunk_plan(h, base, FileFactView { exists, text: Err(why) }) == Err::<
            (PendingOpView, Seq<char>),
            _,
        >(ApplyErrorView::Io(joined_path(base, h.path), why)),
{
}

/// The parts of the diff stand in the order of the hunks.
pub proof fn law_diffs_follow_each_other(hunks: Seq<HunkView>, base: Seq<char>, facts: Seq<FileFactView>, n: int)
    requires
        0 <= n <= hunks.len(),
        patch_plan(hunks, base, facts) is Ok,
    ensures
        patch_plan(hunks.take(n), base, facts) is Ok,
        patch_plan(hunks.take(n), base, facts)->Ok_0.diff.is_prefix_of(
            patch_plan(hunks, base, facts)->Ok_0.diff,
        ),
        patch_plan(hunks.take(n), base, facts)->Ok_0.ops == patch_plan(
            hunks,
            base,
            facts,
        )->Ok_0.ops.take(n),
    decreases hunks.len(),
{
    law_counts(hunks, base, facts);
    if n == hunks.len() {
        assert(hunks.take(n) =~= hunks);
        let p = patch_plan(hunks, base, facts)->Ok_0;
        assert(p.ops.take(n) =~= p.ops);
    } else {
        let t = hunks.drop_last();
        law_diffs_follow_each_other(t, base, facts, n);
        assert(t.take(n) =~= hunks.take(n));
        let p = patch_plan(t, base, facts)->Ok_0;
        let q = patch_plan(hunks, base, facts)->Ok_0;
        let a = patch_plan(hunks.take(n), base, facts)->Ok_0;
        law_counts(t, base, facts);
        assert(q.ops.take(n) =~= p.ops.take(n));
        assert(a.diff.is_prefix_of(p.diff));
        assert(p.diff =~= q.diff.take(p.diff.len() as int));
        assert(q.diff.subrange(0, a.diff.len() as int) =~= p.diff.subrange(0, a.diff.len() as int));
    }
}

proof fn law_counts(hunks: Seq<HunkView>, base: Seq<char>, facts: Seq<FileFactView>)
    requires
        patch_plan(hunks, base, facts) is Ok,
    ensures
        patch_plan(hunks, base, facts)->Ok_0.ops.len() == hunks.len(),
    decreases hunks.len(),
{
    if hunks.len() > 0 {
        law_counts(hunks.drop_last(), base, facts);
    }
}

/// Texts with the same characters before each.
pub open spec fn marked(mark: Seq<char>, lines: Seq<Seq<char>>) -> Seq<Seq<char>> {
    Seq::new(lines.len(), |i: int| mark + lines[i])
}

/// A hunk as lines of a patch: its heading, then the context, what is removed and
/// what is added.
pub open spec fn written(h: HunkView) -> Seq<Seq<char>> {
    match h.action {
        HunkActionView::Add => seq!["*** Add File: "@ + h.path] + marked(" "@, h.seek_context) + marked(
            "-"@,
            h.remove,
        ) + marked("+"@, h.add),
        HunkActionView::Update => seq!["*** Update File: "@ + h.path] + marked(" "@, h.seek_context)
            + marked("-"@, h.remove) + marked("+"@, h.add),
        HunkActionView::Delete => seq!["*** Delete File: "@ + h.path],
        HunkActionView::Move { to } => seq!["*** Move File: "@ + h.path + " to "@ + to],
    }
}

/// Whether a hunk can be written down: its path says where a heading ends, and no
/// context line looks like the end of the patch.
pub open spec fn can_be_written(h: HunkView) -> bool {
    &&& h.action is Move ==> !occurs(h.path, " to "@) && find(h.path + " to "@ + h.action->to, " to "@) == Some(h.path.len() as int)
    &&& (h.action is Delete || h.action is Move) ==> h.seek_context.len() == 0 && h.remove.len()
        == 0 && h.add.len() == 0
    &&& forall|i: int|
        0 <= i < written(h).len() ==> trimmed(#[trigger] written(h)[i]) != "*** End Patch"@
}

/// A hunk that was written down is read as it was, and what was read before it
/// stays.
pub proof fn law_hunks_are_read_back(r: Reading, h: HunkView, rest: Seq<Seq<char>>)
    requires
        can_be_written(h),
    ensures
        read_lines(r, written(h) + rest) == match h.action {
            HunkActionView::Add => read_lines(Reading { done: closed(r), open: Some(h) }, rest),
            HunkActionView::Update => read_lines(Reading { done: closed(r), open: Some(h) }, rest),
            HunkActionView::Delete => read_lines(
                Reading { done: closed(r).push(h), open: None },
                rest,
            ),
            HunkActionView::Move { .. } => read_lines(
                Reading { done: closed(r).push(h), open: None },
                rest,
            ),
        },
{
    reveal_strlit("*** Add File: ");
    reveal_strlit("*** Update File: ");
    reveal_strlit("*** Delete File: ");
    reveal_strlit("*** Move File: ");
    reveal_strlit("*** End Patch");
    reveal_strlit(" to ");
    reveal_strlit("+");
    reveal_strlit("-");
    assert("*** Add File: "@.len() == 14 && "*** Update File: "@.len() == 17 && "*** Delete File: "@.len() == 17 && "*** Move File: "@.len() == 15 && "*** End Patch"@.len() == 13 && " to "@.len() == 4 && "+"@.len() == 1 && "-"@.len() == 1);
    assert("*** Update File: "@[4] != "*** Delete File: "@[4]);
    assert("+"@[0] != "-"@[0]);
    reveal_strlit("@@ ");
    reveal_strlit(" ");
    assert(" "@.len() == 1 && "@@ "@.len() == 3);
    let all = written(h) + rest;
    let first = written(h)[0];
    assert(all[0] == first);
    let start = Reading { done: closed(r), open: Some(bare(h.action, h.path)) };
    match h.action {
        HunkActionView::Delete => {
            lemma_prefix_is("*** Delete File: "@, h.path);
            lemma_other_prefix("*** Add File: "@, first, 4);
            lemma_other_prefix("*** Update File: "@, first, 4);
            assert(all.skip(1) =~= rest);
            assert(bare(h.action, h.path) =~= h);
        },
        HunkActionView::Move { to } => {
            let line = h.path + " to "@ + to;
            assert(first =~= "*** Move File: "@ + line);
            lemma_prefix_is("*** Move File: "@, line);
            lemma_other_prefix("*** Add File: "@, first, 4);
            lemma_other_prefix("*** Update File: "@, first, 4);
            lemma_other_prefix("*** Delete File: "@, first, 4);
            assert(line.take(h.path.len() as int) =~= h.path);
            assert(line.skip(h.path.len() as int + 4) =~= to);
            assert(all.skip(1) =~= rest);
            assert(bare(h.action, h.path) =~= h);
        },
        _ => {
            let c = marked(" "@, h.seek_context);
            let m = marked("-"@, h.remove);
            let p = marked("+"@, h.add);
            if h.action is Add {
                lemma_prefix_is("*** Add File: "@, h.path);
            } else {
                lemma_prefix_is("*** Update File: "@, h.path);
                lemma_other_prefix("*** Add File: "@, first, 4);
            }
            assert(read_line(r, first) == Ok::<Reading, ParseErrorView>(start));
            assert(all.skip(1) =~= c + (m + (p + rest)));
            let w = written(h);
            assert forall|i: int| 0 <= i < c.len() implies trimmed(#[trigger] c[i]) != "*** End Patch"@ by {
                assert(w[1 + i] == c[i]);
            }
            assert forall|i: int| 0 <= i < m.len() implies trimmed(#[trigger] m[i]) != "*** End Patch"@ by {
                assert(w[1 + c.len() + i] == m[i]);
            }
            assert forall|i: int| 0 <= i < p.len() implies trimmed(#[trigger] p[i]) != "*** End Patch"@ by {
                assert(w[1 + c.len() + m.len() + i] == p[i]);
            }
            let h0 = bare(h.action, h.path);
            lemma_body_lines(closed(r), h0, " "@, h.seek_context, m + (p + rest));
            let h1 = HunkView { seek_context: h0.seek_context + h.seek_context, ..h0 };
            assert(h1.seek_context =~= h.seek_context);
            lemma_body_lines(closed(r), h1, "-"@, h.remove, p + rest);
            let h2 = HunkView { remove: h1.remove + h.remove, ..h1 };
            assert(h2.remove =~= h.remove);
            lemma_body_lines(closed(r), h2, "+"@, h.add, rest);
            let h3 = HunkView { add: h2.add + h.add, ..h2 };
            assert(h3.add =~= h.add);
            assert(h3 == h);
        },
    }
}

/// Anchors are context as well. Lines before the first hunk, moves that do not say where to,
/// and lines of no known kind are refused; empty lines say nothing.
pub proof fn law_other_lines_of_patches(r: Reading, h: HunkView, a: Seq<char>, line: Seq<char>)
    requires
        line.len() > 0,
        line[0] != '*' && line[0] != '@',
    ensures
        r.open == Some(h) ==> read_line(r, "@@ "@ + a) == Ok::<_, ParseErrorView>(
            Reading {
                done: r.done,
                open: Some(HunkView { seek_context: h.seek_context.push(a), ..h }),
            },
        ),
        r.open is None ==> read_line(r, "@@ "@ + a) == Err::<Reading, _>(
            ParseErrorView::AnchorOutsideHunk,
        ),
        read_line(r, Seq::empty()) == Ok::<_, ParseErrorView>(r),
        line[0] != '+' && line[0] != '-' && line[0] != ' ' ==> read_line(r, line) == Err::<Reading, _>(
            ParseErrorView::UnknownLine(line),
        ),
        r.open is None && (line[0] == '+' || line[0] == '-' || line[0] == ' ') ==> read_line(r, line)
            == Err::<Reading, _>(ParseErrorView::LineOutsideHunk(line)),
        !occurs(a, " to "@) ==> read_line(r, "*** Move File: "@ + a) == Err::<Reading, _>(
            ParseErrorView::BadMove(a),
        ),
{
    reveal_strlit("*** Add File: ");
    reveal_strlit("*** Update File: ");
    reveal_strlit("*** Delete File: ");
    reveal_strlit("*** Move File: ");
    reveal_strlit("+");
    assert("*** Add File: "@.len() == 14 && "*** Update File: "@.len() == 17 && "*** Delete File: "@.len() == 17 && "*** Move File: "@.len() == 15 && "+"@.len() == 1);
    assert("*** Update File: "@[4] != "*** Delete File: "@[4]);
    reveal_strlit("@@ ");
    let at = "@@ "@ + a;
    let none = Seq::<char>::empty();
    lemma_prefix_is("@@ "@, a);
    lemma_other_prefix("*** Add File: "@, at, 0);
    lemma_other_prefix("*** Update File: "@, at, 0);
    lemma_other_prefix("*** Delete File: "@, at, 0);
    lemma_other_prefix("*** Move File: "@, at, 0);
    lemma_other_prefix("*** Add File: "@, none, 0);
    lemma_other_prefix("*** Update File: "@, none, 0);
    lemma_other_prefix("*** Delete File: "@, none, 0);
    lemma_other_prefix("*** Move File: "@, none, 0);
    lemma_other_prefix("@@ "@, none, 0);
    lemma_other_prefix("*** Add File: "@, line, 0);
    lemma_other_prefix("*** Update File: "@, line, 0);
    lemma_other_prefix("*** Delete File: "@, line, 0);
    lemma_other_prefix("*** Move File: "@, line, 0);
    lemma_other_prefix("@@ "@, line, 0);
    let m = "*** Move File: "@ + a;
    lemma_prefix_is("*** Move File: "@, a);
    lemma_other_prefix("*** Add File: "@, m, 4);
    lemma_other_prefix("*** Update File: "@, m, 4);
    lemma_other_prefix("*** Delete File: "@, m, 4);
}

/// A patch is what stands between the line that begins it and the line that ends
/// it; without the first there is no patch.
pub proof fn law_patches_have_a_frame(input: Seq<char>, h: HunkView)
    ensures
        line_list(input).len() == 0 ==> patch_of(input) == Err::<Seq<HunkView>, _>(
            ParseErrorView::UnexpectedEof,
        ),
        line_list(input).len() > 0 && trimmed(line_list(input)[0]) != "*** Begin Patch"@
            ==> patch_of(input) == Err::<Seq<HunkView>, _>(ParseErrorView::ExpectedBegin),
        can_be_written(h) && line_list(input) == seq!["*** Begin Patch"@] + written(h) + seq![
            "*** End Patch"@,
        ] ==> patch_of(input) == Ok::<_, ParseErrorView>(seq![h]),
{
    if can_be_written(h) && line_list(input) == seq!["*** Begin Patch"@] + written(h) + seq![
        "*** End Patch"@,
    ] {
        let start = Reading { done: Seq::empty(), open: None };
        law_hunks_are_read_back(start, h, seq!["*** End Patch"@]);
        assert(line_list(input).skip(1) =~= written(h) + seq!["*** End Patch"@]);
        reveal_strlit("*** Begin Patch");
        reveal_strlit("*** End Patch");
        assert("*** Begin Patch"@.len() == 15 && "*** End Patch"@.len() == 13);
        lemma_no_space_around("*** Begin Patch"@);
        lemma_no_space_around("*** End Patch"@);
        assert(start.done.push(h) =~= seq![h]);
    }
}

// ---- lemmas ----

proof fn lemma_line_behind(a: Seq<char>, b: Seq<char>)
    requires
        is_line(b),
        a.len() > 0,
        forall|i: int| 0 <= i < a.len() ==> a[i] != '\n' && a[i] != '\r',
    ensures
        is_line(a + b),
{
    let s = a + b;
    assert forall|i: int| 0 <= i < s.len() implies s[i] != '\n' by {
        if i >= a.len() {
            assert(b.contains(b[i - a.len()]));
        }
    }
}

proof fn lemma_plus_lines(lines: Seq<Seq<char>>)
    requires
        are_lines(lines),
    ensures
        line_list(plus_lines(lines)) == Seq::new(lines.len(), |i: int| "+"@ + lines[i]),
        plus_lines(lines).len() > 0 ==> plus_lines(lines).last() == '\n',
    decreases lines.len(),
{
    reveal_strlit("+");
    reveal_strlit("\n");
    assert("+"@.len() == 1 && "\n"@.len() == 1);
    assert("+"@[0] != "\n"@[0]);
    assert("\n"@ =~= seq!['\n']);
    let want = Seq::new(lines.len(), |i: int| "+"@ + lines[i]);
    if lines.len() == 0 {
        assert(line_list(plus_lines(lines)) =~= want);
    } else {
        let t = lines.drop_last();
        let l = lines.last();
        assert forall|i: int| 0 <= i < t.len() implies is_line(#[trigger] t[i]) by {
            assert(t[i] == lines[i]);
        }
        lemma_plus_lines(t);
        assert(is_line(lines[lines.len() - 1]));
        lemma_line_behind("+"@, l);
        let last = "+"@ + l + "\n"@;
        lemma_lines_before(plus_lines(t), last);
        assert(plus_lines(lines) =~= plus_lines(t) + last);
        law_lines_end_at_feeds("+"@ + l, Seq::empty());
        assert("+"@ + l + seq!['\n'] + Seq::<char>::empty() =~= last);
        assert(line_list(Seq::<char>::empty()) =~= Seq::<Seq<char>>::empty());
        assert(line_list(last) =~= seq!["+"@ + l]);
        assert(line_list(plus_lines(lines)) =~= want);
    }
}

proof fn lemma_joined_last(lines: Seq<Seq<char>>, p: Seq<char>)
    requires
        lines.len() > 0,
        lines.last().len() > 0,
    ensures
        joined(lines, p).len() > 0,
        joined(lines, p).last() == lines.last().last(),
{
}

/// The words of words one space apart are those words.
proof fn lemma_words_of_words(ws: Seq<Seq<char>>)
    requires
        forall|i: int| 0 <= i < ws.len() ==> is_word(#[trigger] ws[i]),
    ensures
        words(joined(ws, " "@)) == ws,
    decreases ws.len(),
{
    reveal_strlit(" ");
    let none = Seq::<char>::empty();
    if ws.len() == 0 {
        assert(words(none) =~= ws);
    } else {
        let w = ws[0];
        let rest = ws.skip(1);
        assert(is_word(w));
        if rest.len() == 0 {
            law_words_are_parted_by_space(w, none, none);
            assert(w + none + none =~= w);
            assert(seq![w] + Seq::<Seq<char>>::empty() =~= ws);
        } else {
            assert forall|i: int| 0 <= i < rest.len() implies is_word(#[trigger] rest[i]) by {
                assert(rest[i] == ws[i + 1]);
            }
            lemma_words_of_words(rest);
            lemma_joined_first(w, rest, " "@);
            assert(seq![w] + rest =~= ws);
            law_words_are_parted_by_space(w, " "@, joined(rest, " "@));
        }
    }
}

/// Whether a text is one word.
pub open spec fn is_word(s: Seq<char>) -> bool {
    s.len() > 0 && forall|i: int| 0 <= i < s.len() ==> !is_space(#[trigger] s[i])
}

proof fn lemma_words_are_words(s: Seq<char>)
    ensures
        forall|i: int| 0 <= i < words(s).len() ==> is_word(#[trigger] words(s)[i]),
    decreases s.len(),
{
    let t = trim_start(s);
    lemma_trim_start_len(s);
    lemma_word_len(t);
    lemma_trim_head(s);
    if t.len() > 0 {
        let k = word_len(t) as int;
        let w = t.take(k);
        let rest = words(t.skip(k));
        lemma_words_are_words(t.skip(k));
        assert(is_word(w)) by {
            assert(k > 0);
            assert forall|i: int| 0 <= i < w.len() implies !is_space(#[trigger] w[i]) by {
                assert(w[i] == t[i]);
            }
        }
        assert(words(s) == seq![w] + rest);
        assert forall|i: int| 0 <= i < words(s).len() implies is_word(#[trigger] words(s)[i]) by {
            if i > 0 {
                assert(words(s)[i] == rest[i - 1]);
            }
        }
    }
}

proof fn lemma_trim_head(s: Seq<char>)
    ensures
        trim_start(s).len() > 0 ==> !is_space(trim_start(s)[0]),
    decreases s.len(),
{
    if s.len() > 0 && is_space(s[0]) {
        lemma_trim_head(s.skip(1));
    }
}

proof fn lemma_same_place(lines: Seq<Seq<char>>, block: Seq<Seq<char>>, i: int)
    ensures
        stand_at(lines, block, i) <==> block_at(lines, block, i),
{
    if block_at(lines, block, i) {
        assert forall|j: int| 0 <= j < block.len() implies alike(#[trigger] lines[i + j], block[j]) by {
            lemma_words_are_words(lines[i + j]);
            lemma_words_are_words(block[j]);
            lemma_words_of_words(words(lines[i + j]));
            lemma_words_of_words(words(block[j]));
            assert(normal(lines[i + j]) == normal(block[j]));
        }
    }
    if stand_at(lines, block, i) {
        assert forall|j: int| 0 <= j < block.len() implies normal(#[trigger] lines[i + j]) == normal(
            block[j],
        ) by {
            assert(alike(lines[i + j], block[j]));
        }
    }
}

proof fn lemma_prefix_is(p: Seq<char>, rest: Seq<char>)
    ensures
        after_prefix(p + rest, p) == Some(rest),
{
    assert((p + rest).take(p.len() as int) =~= p);
    assert((p + rest).skip(p.len() as int) =~= rest);
    assert(p.is_prefix_of(p + rest));
}

proof fn lemma_other_prefix(p: Seq<char>, s: Seq<char>, i: int)
    requires
        0 <= i < p.len(),
        i >= s.len() || s[i] != p[i],
    ensures
        after_prefix(s, p) is None,
{
    if p.is_prefix_of(s) {
        assert(s.subrange(0, p.len() as int)[i] == s[i]);
    }
}

proof fn lemma_body_lines(
    done: Seq<HunkView>,
    h: HunkView,
    mark: Seq<char>,
    lines: Seq<Seq<char>>,
    rest: Seq<Seq<char>>,
)
    requires
        mark == " "@ || mark == "-"@ || mark == "+"@,
        forall|i: int|
            0 <= i < lines.len() ==> trimmed(#[trigger] marked(mark, lines)[i]) != "*** End Patch"@,
    ensures
        read_lines(Reading { done, open: Some(h) }, marked(mark, lines) + rest) == read_lines(
            Reading {
                done,
                open: Some(
                    if mark == " "@ {
                        HunkView { seek_context: h.seek_context + lines, ..h }
                    } else if mark == "-"@ {
                        HunkView { remove: h.remove + lines, ..h }
                    } else {
                        HunkView { add: h.add + lines, ..h }
                    },
                ),
            },
            rest,
        ),
    decreases lines.len(),
{
    reveal_strlit("*** Add File: ");
    reveal_strlit("*** Update File: ");
    reveal_strlit("*** Delete File: ");
    reveal_strlit("*** Move File: ");
    reveal_strlit("*** End Patch");
    reveal_strlit("+");
    reveal_strlit("-");
    assert("*** Add File: "@.len() == 14 && "*** Update File: "@.len() == 17 && "*** Delete File: "@.len() == 17 && "*** Move File: "@.len() == 15 && "*** End Patch"@.len() == 13 && "+"@.len() == 1 && "-"@.len() == 1);
    assert("*** Update File: "@[4] != "*** Delete File: "@[4]);
    assert("+"@[0] != "-"@[0]);
    reveal_strlit("@@ ");
    reveal_strlit(" ");
    assert(" "@.len() == 1 && "@@ "@.len() == 3);
    let all = marked(mark, lines) + rest;
    if lines.len() == 0 {
        assert(all =~= rest);
        assert(h.seek_context + lines =~= h.seek_context);
        assert(h.remove + lines =~= h.remove);
        assert(h.add + lines =~= h.add);
    } else {
        let t = lines.skip(1);
        let first = mark + lines[0];
        assert(all[0] == marked(mark, lines)[0]);
        assert(all[0] == first);
        assert(first[0] == mark[0]);
        lemma_other_prefix("*** Add File: "@, first, 0);
        lemma_other_prefix("*** Update File: "@, first, 0);
        lemma_other_prefix("*** Delete File: "@, first, 0);
        lemma_other_prefix("*** Move File: "@, first, 0);
        lemma_other_prefix("@@ "@, first, 0);
        assert(first.skip(1) =~= lines[0]);
        let next = if mark == " "@ {
            HunkView { seek_context: h.seek_context.push(lines[0]), ..h }
        } else if mark == "-"@ {
            HunkView { remove: h.remove.push(lines[0]), ..h }
        } else {
            HunkView { add: h.add.push(lines[0]), ..h }
        };
        assert forall|i: int| 0 <= i < t.len() implies trimmed(#[trigger] marked(mark, t)[i]) != "*** End Patch"@ by {
            assert(marked(mark, t)[i] == marked(mark, lines)[i + 1]);
        }
        lemma_body_lines(done, next, mark, t, rest);
        assert(all.skip(1) =~= marked(mark, t) + rest);
        assert(h.seek_context.push(lines[0]) + t =~= h.seek_context + lines);
        assert(h.remove.push(lines[0]) + t =~= h.remove + lines);
        assert(h.add.push(lines[0]) + t =~= h.add + lines);
    }
}

/// A text that neither starts nor ends with white space is trimmed.
pub proof fn lemma_no_space_around(s: Seq<char>)
    requires
        s.len() > 0,
        !is_space(s[0]),
        !is_space(s.last()),
    ensures
        trimmed(s) == s,
{
}

// ---- several hunks ----

/// Each hunk finds its file as the hunks before it left it: what was deleted or moved away is
/// gone and can be added, what was added is there, with the lines that it was given, and what
/// was moved is at its new path with what it held.
pub proof fn law_later_hunks_see_earlier_ones(
    a: HunkView,
    b: HunkView,
    base: Seq<char>,
    facts: Seq<FileFactView>,
)
    requires
        facts.len() == 2,
    ensures
        ({
            let p = patch_plan(seq![a, b], base, facts);
            let first = hunk_plan(a, base, facts[0]);
            let same = joined_path(base, a.path) == joined_path(base, b.path);
            &&& first is Err ==> p is Err
            &&& same && a.action is Delete && first is Ok && b.action is Add ==> p is Ok
            &&& same && a.action is Delete && first is Ok && b.action is Delete ==> p
                == Err::<PlanView, _>(ApplyErrorView::NotFound(joined_path(base, b.path)))
            &&& same && a.action is Add && first is Ok && b.action is Add ==> p == Err::<PlanView, _>(
                ApplyErrorView::AlreadyExists(joined_path(base, b.path)),
            )
            &&& same && a.action is Add && first is Ok && b.action is Delete ==> p is Ok
            &&& same && a.action is Move && first is Ok && !same_path(
                joined_path(base, a.action->to),
                joined_path(base, a.path),
            ) && b.action is Add ==> p is Ok
            &&& a.action is Move && first is Ok && joined_path(base, a.action->to) == joined_path(
                base,
                b.path,
            ) && b.action is Update ==> (p is Ok <==> hunk_plan(b, base, facts[0]) is Ok) && (
            p matches Ok(x) ==> x.ops[1] == hunk_plan(b, base, facts[0])->Ok_0.0)
        }),
{
    lemma_two_hunks(a, b, base, facts);
    reveal_with_fuel(fact_now, 4);
    if let Ok((op, part)) = hunk_plan(a, base, facts[0]) {
        let left = left_by(Seq::empty(), op, facts[0]);
        let path = joined_path(base, b.path);
        let none = Seq::<(Seq<char>, FileFactView)>::empty();
        if a.action is Move {
            let to = joined_path(base, a.action->to);
            let from = joined_path(base, a.path);
            assert(left.drop_last() =~= none.push((from, gone())));
            assert(left.drop_last().drop_last() =~= none);
            assert(left.last().0 == to);
        } else {
            assert(left.drop_last() =~= none);
        }
    }
}

/// An update behind the hunk that adds its file works on the lines that were added.
pub proof fn law_added_files_can_be_updated(
    a: HunkView,
    b: HunkView,
    base: Seq<char>,
    facts: Seq<FileFactView>,
    text: Seq<char>,
    path: Seq<char>,
)
    requires
        facts.len() == 2,
        a.action is Add,
        b.action is Update,
        path == joined_path(base, a.path),
        path == joined_path(base, b.path),
        hunk_plan(a, base, facts[0]) matches Ok((op, _)) && op == (PendingOpView::Write {
            path,
            new: text,
        }),
    ensures
        ({
            let p = patch_plan(seq![a, b], base, facts);
            let alone = hunk_plan(b, base, FileFactView { exists: true, text: Ok(text) });
            &&& p is Ok <==> alone is Ok
            &&& p matches Ok(x) ==> x.ops[1] == alone->Ok_0.0
        }),
{
    lemma_two_hunks(a, b, base, facts);
    reveal_with_fuel(fact_now, 3);
    let op = hunk_plan(a, base, facts[0])->Ok_0.0;
    let left = left_by(Seq::empty(), op, facts[0]);
    assert(left.drop_last() =~= Seq::<(Seq<char>, FileFactView)>::empty());
}

/// Hunks of different files do not see each other.
pub proof fn law_hunks_of_other_files_do_not_matter(
    a: HunkView,
    b: HunkView,
    base: Seq<char>,
    facts: Seq<FileFactView>,
)
    requires
        facts.len() == 2,
        hunk_plan(a, base, facts[0]) is Ok,
        !same_path(joined_path(base, a.path), joined_path(base, b.path)),
        a.action is Move ==> !same_path(joined_path(base, a.action->to), joined_path(base, b.path)),
    ensures
        ({
            let p = patch_plan(seq![a, b], base, facts);
            &&& p is Ok <==> hunk_plan(b, base, facts[1]) is Ok
            &&& p matches Ok(x) ==> x.ops == seq![
                hunk_plan(a, base, facts[0])->Ok_0.0,
                hunk_plan(b, base, facts[1])->Ok_0.0,
            ]
        }),
{
    lemma_two_hunks(a, b, base, facts);
    reveal_with_fuel(fact_now, 4);
    let op = hunk_plan(a, base, facts[0])->Ok_0.0;
    let left = left_by(Seq::empty(), op, facts[0]);
    let none = Seq::<(Seq<char>, FileFactView)>::empty();
    if a.action is Move {
        assert(left.drop_last() =~= none.push((joined_path(base, a.path), gone())));
        assert(left.drop_last().drop_last() =~= none);
    } else {
        assert(left.drop_last() =~= none);
    }
    if let Ok(x) = patch_plan(seq![a, b], base, facts) {
        assert(x.ops =~= seq![
            hunk_plan(a, base, facts[0])->Ok_0.0,
            hunk_plan(b, base, facts[1])->Ok_0.0,
        ]);
    }
}

proof fn lemma_two_hunks(a: HunkView, b: HunkView, base: Seq<char>, facts: Seq<FileFactView>)
    requires
        facts.len() == 2,
    ensures
        patch_plan(seq![a, b], base, facts) == match hunk_plan(a, base, facts[0]) {
            Err(e) => Err(e),
            Ok((op, part)) => {
                let left = left_by(Seq::empty(), op, facts[0]);
                let fact = fact_now(left, joined_path(base, b.path), facts[1]);
                match hunk_plan(b, base, fact) {
                    Err(e) => Err(e),
                    Ok((op2, part2)) => Ok(
                        PlanView {
                            ops: Seq::empty().push(op).push(op2),
                            diff: Seq::empty() + part + part2,
                            left: left_by(left, op2, fact),
                        },
                    ),
                }
            },
        },
{
    let two = seq![a, b];
    let one = seq![a];
    assert(two.drop_last() =~= one);
    assert(one.drop_last() =~= Seq::<HunkView>::empty());
    reveal_with_fuel(patch_plan, 3);
    reveal_with_fuel(fact_now, 1);
}

} // verus!
