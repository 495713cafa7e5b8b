//! Searching, trimming, splitting and joining text.
use vstd::prelude::*;

use crate::text::cut;
use crate::text::decimal_of;
use crate::text::digit;
use crate::text::find;
use crate::text::find_from;
use crate::text::is_space;
use crate::text::joined;
use crate::text::lemma_find_from;
use crate::text::lemma_lines_before;
use crate::text::lemma_run_len;
use crate::text::line_list;
use crate::text::matches_at;
use crate::text::occurs;
use crate::text::run_len;
use crate::text::split_list;
use crate::text::trim_end;
use crate::text::trim_start;
use crate::text::trimmed;
use crate::text::word_len;
use crate::text::words;

verus! {

/// The place found is the first at which the text stands: cutting there gives what
/// stands before and behind, and what stands before does not hold it.
pub proof fn law_cut_is_at_the_first(s: Seq<char>, p: Seq<char>)
    ensures
        match cut(s, p) {
            Some((a, b)) => s == a + p + b && forall|i: int|
                0 <= i < a.len() && i + p.len() <= s.len() ==> #[trigger] s.subrange(i, i + p.len()) != p,
            None => forall|a: Seq<char>, b: Seq<char>| s != #[trigger] ((a + p) + b),
        },
{
    lemma_find_from(s, p, 0);
    match find(s, p) {
        Some(k) => {
            assert(s =~= s.take(k) + s.subrange(k, k + p.len()) + s.skip(k + p.len()));
            assert forall|i: int| 0 <= i < k && i + p.len() <= s.len() implies #[trigger] s.subrange(i, i + p.len()) != p by {
                assert(!matches_at(s, p, i));
            }
        },
        None => {
            assert forall|a: Seq<char>, b: Seq<char>| s != #[trigger] ((a + p) + b) by {
                if s == a + p + b {
                    lemma_stands_in(a, p, b);
                }
            }
        },
    }
}

/// Trimming takes white space away at both ends and nothing else, and leaves none
/// there.
pub proof fn law_trimming_takes_the_ends(s: Seq<char>)
    ensures
        exists|a: Seq<char>, b: Seq<char>| s == #[trigger] ((a + trimmed(s)) + b) && all_space(a) && all_space(b),
        trimmed(s).len() > 0 ==> !is_space(trimmed(s)[0]) && !is_space(trimmed(s).last()),
{
    let t = trim_start(s);
    let r = trim_end(t);
    lemma_trim_start_is(s);
    lemma_trim_end_is(t);
    let a = s.take(s.len() - t.len());
    let b = t.skip(r.len() as int);
    assert(s =~= a + r + b);
    assert(all_space(a) && all_space(b));
    assert(s == (a + trimmed(s)) + b);
    if r.len() > 0 {
        assert(r[0] == t[0]);
    }
}

/// Whether a text is white space throughout: tabs, line feeds, carriage returns,
/// blanks and the like.
pub open spec fn all_space(s: Seq<char>) -> bool {
    forall|i: int| 0 <= i < s.len() ==> is_space(#[trigger] s[i])
}

/// Blanks, tabs, line feeds and carriage returns are white space; a visible ASCII
/// character is not.
pub proof fn law_blanks_are_space(c: char)
    ensures
        is_space(' ') && is_space('\t') && is_space('\n') && is_space('\r'),
        0x21 <= c as u32 <= 0x7e ==> !is_space(c),
{
}

/// White space parts words: a word free of it, with white space behind it, comes
/// before the words of the rest.
pub proof fn law_words_are_parted_by_space(word: Seq<char>, gap: Seq<char>, rest: Seq<char>)
    requires
        word.len() > 0,
        forall|i: int| 0 <= i < word.len() ==> !is_space(#[trigger] word[i]),
        all_space(gap),
        gap.len() > 0 || rest.len() == 0,
    ensures
        words(word + gap + rest) == seq![word] + words(rest),
        words(gap + rest) == words(rest),
        words(Seq::empty()) == Seq::<Seq<char>>::empty(),
{
    let s = word + gap + rest;
    lemma_words_over_space(gap, rest);
    lemma_word_len_is(word, gap + rest);
    assert(s =~= word + (gap + rest));
    assert(s[0] == word[0]);
    assert(trim_start(s) == s);
    assert(s.take(word.len() as int) =~= word);
    assert(s.skip(word.len() as int) =~= gap + rest);
}

/// What stands before a line feed is a line, less a carriage return at its end, and
/// the lines of the rest follow; what no line feed follows is a line unless it is
/// empty.
pub proof fn law_lines_end_at_feeds(l: Seq<char>, rest: Seq<char>)
    requires
        !l.contains('\n'),
    ensures
        line_list(l + seq!['\n'] + rest) == seq![
            if l.len() > 0 && l.last() == '\r' {
                l.drop_last()
            } else {
                l
            },
        ] + line_list(rest),
        line_list(l) == if l.len() == 0 {
            Seq::empty()
        } else {
            seq![l]
        },
{
    let s = l + seq!['\n'] + rest;
    lemma_run_before(l, seq!['\n'] + rest);
    assert(s =~= l + (seq!['\n'] + rest));
    assert(s.take(l.len() as int) =~= l);
    assert(s.skip(l.len() as int + 1) =~= rest);
    lemma_run_before(l, Seq::empty());
    assert(l + Seq::<char>::empty() =~= l);
    lemma_run_len(l, '\n');
}

/// Lines written one after another, each with a line feed behind it, are read back
/// as they were, provided that none holds a line feed or ends with a carriage
/// return.
pub proof fn law_written_lines_are_read_back(lines: Seq<Seq<char>>)
    requires
        forall|i: int|
            0 <= i < lines.len() ==> !(#[trigger] lines[i]).contains('\n') && !(lines[i].len() > 0
                && lines[i].last() == '\r'),
    ensures
        lines.len() > 0 ==> line_list(joined(lines, "\n"@) + "\n"@) == lines,
        lines.len() > 0 && lines.last().len() > 0 ==> line_list(joined(lines, "\n"@)) == lines,
    decreases lines.len(),
{
    reveal_strlit("\n");
    assert("\n"@ =~= seq!['\n']);
    let none = Seq::<char>::empty();
    if lines.len() == 1 {
        let l = lines[0];
        law_lines_end_at_feeds(l, none);
        assert(l + seq!['\n'] + none =~= l + "\n"@);
        assert(line_list(none) =~= Seq::<Seq<char>>::empty());
        assert(line_list(l + "\n"@) =~= lines);
        assert(seq![l] =~= lines);
    } else if lines.len() > 1 {
        let t = lines.drop_last();
        let l = lines.last();
        let head = joined(t, "\n"@) + "\n"@;
        assert forall|i: int| 0 <= i < t.len() implies !(#[trigger] t[i]).contains('\n') && !(
        t[i].len() > 0 && t[i].last() == '\r') by {
            assert(t[i] == lines[i]);
        }
        law_written_lines_are_read_back(t);
        assert(joined(lines, "\n"@) =~= head + l);
        assert(joined(lines, "\n"@) + "\n"@ =~= head + (l + "\n"@));
        lemma_lines_before(head, l);
        lemma_lines_before(head, l + "\n"@);
        law_lines_end_at_feeds(l, none);
        assert(l + seq!['\n'] + none =~= l + "\n"@);
        assert(line_list(none) =~= Seq::<Seq<char>>::empty());
        assert(line_list(l + "\n"@) =~= seq![l]);
        assert(t + seq![l] =~= lines);
    }
}

/// A text is split at each occurrence of a separator, from the first on, and
/// nothing is lost: joining the parts again gives the text.
pub proof fn law_splitting_loses_nothing(s: Seq<char>, p: Seq<char>)
    requires
        p.len() > 0,
    ensures
        joined(split_list(s, p), p) == s,
        forall|i: int| 0 <= i < split_list(s, p).len() ==> !occurs(#[trigger] split_list(s, p)[i], p),
        split_list(s, p).len() > 0,
    decreases s.len(),
{
    lemma_find_from(s, p, 0);
    match find(s, p) {
        Some(k) => {
            let rest = s.skip(k + p.len());
            let q = split_list(rest, p);
            let all = split_list(s, p);
            law_splitting_loses_nothing(rest, p);
            lemma_joined_first(s.take(k), q, p);
            assert(s =~= s.take(k) + s.subrange(k, k + p.len()) + rest);
            assert(all == seq![s.take(k)] + q);
            assert forall|i: int| 0 <= i < all.len() implies !occurs(#[trigger] all[i], p) by {
                if i > 0 {
                    assert(all[i] == q[i - 1]);
                } else {
                    let t = s.take(k);
                    lemma_find_from(t, p, 0);
                    if let Some(j) = find(t, p) {
                        assert(t.subrange(j, j + p.len()) =~= s.subrange(j, j + p.len()));
                        assert(matches_at(s, p, j));
                    }
                }
            }
        },
        None => {},
    }
}

/// Joined, the parts stand in order with the separator between each two.
pub proof fn law_joining_keeps_order(a: Seq<Seq<char>>, b: Seq<Seq<char>>, part: Seq<char>, p: Seq<char>)
    ensures
        joined(Seq::empty(), p) == Seq::<char>::empty(),
        joined(seq![part], p) == part,
        a.len() > 0 && b.len() > 0 ==> joined(a + b, p) == joined(a, p) + p + joined(b, p),
    decreases b.len(),
{
    if a.len() > 0 && b.len() == 1 {
        assert((a + b).drop_last() =~= a);
        assert((a + b).last() == b[0]);
    } else if a.len() > 0 && b.len() > 1 {
        law_joining_keeps_order(a, b.drop_last(), part, p);
        assert((a + b).drop_last() =~= a + b.drop_last());
        assert((a + b).last() == b.last());
        assert(joined(a + b, p) =~= joined(a, p) + p + joined(b, p));
    }
}

/// A number in decimal: one digit below ten, and otherwise the digits of its tenth
/// followed by its last digit, of which no two are alike.
pub proof fn law_decimals(n: nat, a: int, b: int)
    ensures
        decimal_of(n).len() > 0,
        decimal_of(10 * n + 7) == if n == 0 {
            seq!['7']
        } else {
            decimal_of(n).push('7')
        },
        0 <= a < b < 10 ==> digit(a) as u32 + (b - a) == digit(b) as u32,
        digit(0) == '0',
{
    assert((10 * n + 7) / 10 == n && (10 * n + 7) % 10 == 7);
}

// ---- lemmas ----

/// A text holds what was written into it.
pub proof fn lemma_stands_in(a: Seq<char>, p: Seq<char>, b: Seq<char>)
    ensures
        occurs(a + p + b, p),
{
    let s = a + p + b;
    lemma_find_from(s, p, 0);
    assert(s.subrange(a.len() as int, a.len() as int + p.len()) =~= p);
    assert(matches_at(s, p, a.len() as int));
}

/// Nothing occurs whose first character does not.
pub proof fn lemma_first_missing(s: Seq<char>, p: Seq<char>)
    requires
        p.len() > 0,
        !s.contains(p[0]),
    ensures
        !occurs(s, p),
        find(s, p) is None,
{
    lemma_find_from(s, p, 0);
    if let Some(k) = find(s, p) {
        assert(s.subrange(k, k + p.len())[0] == s[k]);
        assert(s.contains(s[k]));
    }
}

/// The first place of a text behind another that does not hold its first
/// character.
pub proof fn lemma_first_at(a: Seq<char>, p: Seq<char>, b: Seq<char>)
    requires
        p.len() > 0,
        !a.contains(p[0]),
    ensures
        find(a + p + b, p) == Some(a.len() as int),
{
    let s = a + p + b;
    assert(s.subrange(a.len() as int, a.len() as int + p.len()) =~= p);
    assert forall|k: int| 0 <= k < a.len() implies #[trigger] s[k] != p[0] by {
        assert(s[k] == a[k]);
        assert(a.contains(a[k]));
    }
    lemma_found(s, p, a.len() as int, 0);
}


proof fn lemma_trim_start_is(s: Seq<char>)
    ensures
        trim_start(s).len() <= s.len(),
        trim_start(s) == s.skip(s.len() - trim_start(s).len()),
        all_space(s.take(s.len() - trim_start(s).len())),
        trim_start(s).len() > 0 ==> !is_space(trim_start(s)[0]),
    decreases s.len(),
{
    if s.len() > 0 && is_space(s[0]) {
        let t = s.skip(1);
        lemma_trim_start_is(t);
        let k = t.len() - trim_start(t).len();
        assert(t.skip(k) =~= s.skip(k + 1));
        assert forall|i: int| 0 <= i < k + 1 implies is_space(#[trigger] s.take(k + 1)[i]) by {
            if i > 0 {
                assert(t.take(k)[i - 1] == s[i]);
            }
        }
    } else {
        assert(s.skip(0) =~= s);
    }
}

proof fn lemma_trim_end_is(s: Seq<char>)
    ensures
        trim_end(s).len() <= s.len(),
        trim_end(s) == s.take(trim_end(s).len() as int),
        all_space(s.skip(trim_end(s).len() as int)),
        trim_end(s).len() > 0 ==> !is_space(trim_end(s).last()),
    decreases s.len(),
{
    if s.len() > 0 && is_space(s.last()) {
        let t = s.drop_last();
        lemma_trim_end_is(t);
        let k = trim_end(t).len() as int;
        assert(t.take(k) =~= s.take(k));
        assert forall|i: int| 0 <= i < s.len() - k implies is_space(#[trigger] s.skip(k)[i]) by {
            if i + k < t.len() {
                assert(t.skip(k)[i] == s[i + k]);
            } else {
                assert(s[i + k] == s.last());
            }
        }
    } else {
        assert(s.take(s.len() as int) =~= s);
    }
}

proof fn lemma_words_over_space(gap: Seq<char>, rest: Seq<char>)
    requires
        all_space(gap),
    ensures
        words(gap + rest) == words(rest),
    decreases gap.len(),
{
    if gap.len() == 0 {
        assert(gap + rest =~= rest);
    } else {
        let t = gap.skip(1);
        assert forall|i: int| 0 <= i < t.len() implies is_space(#[trigger] t[i]) by {
            assert(t[i] == gap[i + 1]);
        }
        lemma_words_over_space(t, rest);
        let s = gap + rest;
        assert(is_space(gap[0]) && s[0] == gap[0]);
        assert(s.skip(1) =~= t + rest);
        assert(trim_start(s) == trim_start(t + rest));
    }
}

proof fn lemma_word_len_is(word: Seq<char>, rest: Seq<char>)
    requires
        forall|i: int| 0 <= i < word.len() ==> !is_space(#[trigger] word[i]),
        rest.len() == 0 || is_space(rest[0]),
    ensures
        word_len(word + rest) == word.len(),
    decreases word.len(),
{
    let s = word + rest;
    if word.len() > 0 {
        let t = word.skip(1);
        assert(!is_space(word[0]) && s[0] == word[0]);
        assert forall|i: int| 0 <= i < t.len() implies !is_space(#[trigger] t[i]) by {
            assert(t[i] == word[i + 1]);
        }
        lemma_word_len_is(t, rest);
        assert(s.skip(1) =~= t + rest);
    } else {
        assert(s =~= rest);
    }
}

proof fn lemma_run_before(l: Seq<char>, rest: Seq<char>)
    requires
        !l.contains('\n'),
        rest.len() == 0 || rest[0] == '\n',
    ensures
        run_len(l + rest, '\n') == l.len(),
    decreases l.len(),
{
    let s = l + rest;
    if l.len() > 0 {
        let t = l.skip(1);
        assert(l.contains(l[0]));
        assert forall|i: int| 0 <= i < t.len() implies t[i] != '\n' by {
            assert(l.contains(l[i + 1]));
        }
        lemma_run_before(t, rest);
        assert(s.skip(1) =~= t + rest);
    } else {
        assert(s =~= rest);
    }
}

/// Parts joined behind a first one.
pub proof fn lemma_joined_first(first: Seq<char>, rest: Seq<Seq<char>>, p: Seq<char>)
    requires
        rest.len() > 0,
    ensures
        joined(seq![first] + rest, p) == first + p + joined(rest, p),
{
    law_joining_keeps_order(seq![first], rest, first, p);
}

proof fn lemma_found(s: Seq<char>, p: Seq<char>, n: int, i: int)
    requires
        p.len() > 0,
        0 <= i <= n,
        matches_at(s, p, n),
        forall|k: int| 0 <= k < n ==> #[trigger] s[k] != p[0],
    ensures
        find_from(s, p, i) == Some(n),
    decreases n - i,
{
    if i < n {
        assert(!matches_at(s, p, i)) by {
            if matches_at(s, p, i) {
                assert(s.subrange(i, i + p.len())[0] == s[i]);
            }
        }
        lemma_found(s, p, n, i + 1);
    }
}

} // verus!
