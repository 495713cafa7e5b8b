//! Where sessions are kept, and how their logs are numbered and cut.
use vstd::prelude::*;

use crate::laws::instruction_files::law_paths_are_joined;
use crate::log::LogEventView;
use crate::log::LogLineView;
use crate::recorder::JournalView;
use crate::recorder::base_of;
use crate::recorder::dashed;
use crate::recorder::last_segment;
use crate::recorder::log_line_of;
use crate::recorder::log_of;
use crate::recorder::max_seq;
use crate::recorder::meta_line;
use crate::recorder::next_behind;
use crate::recorder::segment_name;
use crate::recorder::sessions_below;
use crate::recorder::slug_of;
use crate::recorder::target_of;
use crate::recorder::up_to;
use crate::text::decimal_of;
use crate::text::line_list;
use crate::text::stripped;
use crate::text::without_head;
use crate::text::without_tail;

verus! {

/// Sessions lie below the agent's directory in the home directory, under a name made of the
/// working directory.
pub proof fn law_sessions_have_a_place(home: Seq<char>, cwd: Seq<char>, id: Seq<char>, n: u32)
    requires
        home.len() > 0,
        home.last() != '/',
        slug_of(cwd).len() > 0,
        slug_of(cwd)[0] != '/',
        slug_of(cwd).last() != '/',
    ensures
        sessions_below(base_of(home), cwd) == home + "/.tao/projects/"@ + slug_of(cwd)
            + "/sessions"@,
        segment_name(id, 0) == id + ".jsonl"@,
        n > 0 ==> segment_name(id, n) == id + "."@ + decimal_of(n as nat) + ".jsonl"@,
{
    reveal_strlit(".tao");
    reveal_strlit("projects");
    reveal_strlit("sessions");
    reveal_strlit("/");
    reveal_strlit("/.tao/projects/");
    reveal_strlit("/sessions");
    assert(".tao"@.len() == 4 && "projects"@.len() == 8 && "sessions"@.len() == 8 && "/"@.len() == 1 && "/.tao/projects/"@.len() == 15 && "/sessions"@.len() == 9);
    assert("projects"@[0] != "sessions"@[0]);
    law_paths_are_joined(home, ".tao"@);
    let base = home + "/"@ + ".tao"@;
    law_paths_are_joined(base, "projects"@);
    let p = base + "/"@ + "projects"@;
    law_paths_are_joined(p, slug_of(cwd));
    let q = p + "/"@ + slug_of(cwd);
    law_paths_are_joined(q, "sessions"@);
    assert(sessions_below(base_of(home), cwd) == q + "/"@ + "sessions"@);
    assert("/"@ + ".tao"@ + "/"@ + "projects"@ + "/"@ =~= "/.tao/projects/"@);
    assert("/"@ + "sessions"@ =~= "/sessions"@);
    assert(q + "/"@ + "sessions"@ =~= home + ("/"@ + ".tao"@ + "/"@ + "projects"@ + "/"@) + slug_of(
        cwd,
    ) + ("/"@ + "sessions"@));
}

/// In that name slashes, backslashes, blanks and colons are dashes, every other character
/// stays, and no dash stands at an end.
pub proof fn law_names_have_dashes(cwd: Seq<char>, i: int)
    requires
        0 <= i < cwd.len(),
    ensures
        dashed(cwd).len() == cwd.len(),
        cwd[i] == '/' || cwd[i] == ' ' || cwd[i] == ':' || cwd[i] == '\\' ==> dashed(cwd)[i] == '-',
        !(cwd[i] == '/' || cwd[i] == ' ' || cwd[i] == ':' || cwd[i] == '\\') ==> dashed(cwd)[i]
            == cwd[i],
        slug_of(cwd).len() > 0 ==> slug_of(cwd)[0] != '-' && slug_of(cwd).last() != '-',
{
    lemma_stripped_ends(dashed(cwd), '-');
}

/// Nothing is left at either end of a text of what was stripped from it, and what stands
/// between stays.
pub proof fn law_stripping_takes_the_ends(s: Seq<char>, c: char)
    requires
        s.len() > 0,
        s[0] != c,
        s.last() != c,
    ensures
        stripped(s, c) == s,
        stripped(seq![c] + s, c) == s,
        stripped(s.push(c), c) == s,
{
    let a = seq![c] + s;
    assert(a.drop_first() =~= s);
    let b = s.push(c);
    assert(b.drop_last() =~= s);
    assert(b[0] == s[0]);
    assert(without_head(s, c) == s);
    assert(without_head(b, c) == b);
    assert(without_tail(s, c) == s);
}

/// A line is read into the log exactly if it is one, and lines keep their order.
pub proof fn law_logs_are_read_in_order(text: Seq<char>, more: Seq<char>, line: Seq<char>)
    requires
        line_list(more) == line_list(text).push(line),
    ensures
        log_line_of(line) matches Some(l) ==> log_of(more) == log_of(text).push(l),
        log_line_of(line) is None ==> log_of(more) == log_of(text),
        log_of(Seq::empty()) == Seq::<LogLineView>::empty(),
{
    assert(line_list(text).push(line).drop_last() =~= line_list(text));
    assert(line_list(Seq::<char>::empty()) =~= Seq::<Seq<char>>::empty());
}

/// The largest number of a log is the number of some line, and no line has a larger one.
pub proof fn law_largest_number(s: Seq<LogLineView>)
    ensures
        max_seq(s) is None <==> s.len() == 0,
        max_seq(s) matches Some(m) ==> (exists|i: int| 0 <= i < s.len() && (#[trigger] s[i]).seq == m) && (
        forall|i: int| 0 <= i < s.len() ==> (#[trigger] s[i]).seq <= m),
    decreases s.len(),
{
    if s.len() > 0 {
        let t = s.drop_last();
        law_largest_number(t);
        assert(s[s.len() - 1] == s.last());
        assert forall|i: int| 0 <= i < t.len() implies #[trigger] t[i] == s[i] by {}
        let m = max_seq(s)->0;
        assert forall|i: int| 0 <= i < s.len() implies (#[trigger] s[i]).seq <= m by {
            if i < t.len() {
                assert(t[i].seq <= max_seq(t)->0);
            }
        }
        if t.len() > 0 && max_seq(t) == Some(m) {
            let i = choose|i: int| 0 <= i < t.len() && (#[trigger] t[i]).seq == m;
            assert(s[i].seq == m);
        }
    }
}

/// A log cut at a number keeps the lines up to it, in order, and no other.
pub proof fn law_cut_logs_keep_what_is_before(s: Seq<LogLineView>, l: LogLineView, seq: u64)
    ensures
        l.seq <= seq ==> up_to(s.push(l), seq) == up_to(s, seq).push(l),
        l.seq > seq ==> up_to(s.push(l), seq) == up_to(s, seq),
        up_to(Seq::empty(), seq) == Seq::<LogLineView>::empty(),
{
    assert(s.push(l).drop_last() =~= s);
}

/// A log that is cut goes on in the last file that has a line left, and with the number
/// behind that of its last line.
pub proof fn law_cut_logs_go_on(files: Seq<Option<Seq<char>>>, f: Option<Seq<char>>, seq: u64, s: Seq<LogLineView>, l: LogLineView)
    ensures
        f matches Some(t) ==> up_to(log_of(t), seq).len() > 0 ==> target_of(files.push(f), seq) == files.len(),
        f is None ==> target_of(files.push(f), seq) == target_of(files, seq),
        f matches Some(t) ==> up_to(log_of(t), seq).len() == 0 ==> target_of(files.push(f), seq) == target_of(files, seq),
        l.seq < u64::MAX ==> next_behind(s.push(l)) == l.seq + 1,
        next_behind(Seq::empty()) == 0,
{
    assert(files.push(f).drop_last() =~= files);
}

/// The segments of a log are numbered without a gap; the last is the one before the first that
/// is missing.
pub proof fn law_last_segment_is_before_the_gap(there: Seq<bool>, k: int)
    requires
        0 <= k < there.len(),
        forall|i: int| 0 <= i <= k ==> there[i],
        k + 1 < there.len() ==> !there[k + 1],
    ensures
        last_segment(there) == k,
    decreases there.len(),
{
    assert(there[0]);
    if k > 0 {
        assert(there[1]);
        let t = there.drop_first();
        assert forall|i: int| 0 <= i <= k - 1 implies t[i] by {
            assert(t[i] == there[i + 1]);
        }
        law_last_segment_is_before_the_gap(t, k - 1);
    }
}

/// A session's first line says which session it is, where it runs, and what it was forked
/// from.
pub proof fn law_first_lines_name_the_session(j: JournalView, parent: Option<Seq<char>>, seq: u64, ts: u64)
    ensures
        meta_line(j, parent, seq, ts).seq == seq,
        meta_line(j, parent, seq, ts).ts == ts,
        meta_line(j, parent, seq, ts).event matches LogEventView::SessionMeta {
            id,
            parent: p,
            cwd,
            config_fingerprint,
            created_at_ms,
            ..
        } && id == j.id && p == parent && cwd == j.cwd && config_fingerprint == j.config_fingerprint
            && created_at_ms == ts,
{
}

proof fn lemma_stripped_ends(s: Seq<char>, c: char)
    ensures
        stripped(s, c).len() > 0 ==> stripped(s, c)[0] != c && stripped(s, c).last() != c,
{
    let h = without_head(s, c);
    lemma_head_gone(s, c);
    lemma_tail_gone(h, c);
}

proof fn lemma_head_gone(s: Seq<char>, c: char)
    ensures
        without_head(s, c).len() > 0 ==> without_head(s, c)[0] != c,
    decreases s.len(),
{
    if s.len() > 0 && s[0] == c {
        lemma_head_gone(s.drop_first(), c);
    }
}

proof fn lemma_tail_gone(s: Seq<char>, c: char)
    ensures
        without_tail(s, c).len() > 0 ==> without_tail(s, c).last() != c && without_tail(s, c)[0]
            == s[0],
    decreases s.len(),
{
    if s.len() > 0 && s.last() == c {
        lemma_tail_gone(s.drop_last(), c);
    }
}

} // verus!
