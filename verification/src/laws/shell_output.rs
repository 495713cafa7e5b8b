//! What a command's output is shown as.
use vstd::prelude::*;

use crate::laws::failures::lemma_width;
use crate::text::byte_len;
use crate::text::clipped;
use crate::text::decimal_of;
use crate::text::fit;
use crate::text::lemma_byte_len_split;
use crate::text::lemma_fit;
use crate::text::signed_decimal_of;
use crate::text::width;
use crate::tools::bash::kept;
use crate::tools::bash::lost;
use crate::tools::bash::report_of;

verus! {

/// Output of at most thirty thousand bytes is shown whole. Of longer output the head, as
/// many characters as fit into ten thousand bytes, and the tail, the shortest that takes
/// at least twenty thousand, stay, with a mark between.
pub proof fn law_long_output_keeps_head_and_tail(s: Seq<char>)
    ensures
        byte_len(s) <= 30000 ==> kept(s) == s && lost(s) == 0,
        byte_len(s) > 30000 ==> exists|h: Seq<char>, t: Seq<char>|
            {
                &&& kept(s) == #[trigger] (h + "\n[... truncated ...]\n"@ + t)
                &&& h.is_prefix_of(s)
                &&& byte_len(h) <= 10000
                &&& byte_len(s.take(h.len() as int + 1)) > 10000
                &&& t.is_suffix_of(s)
                &&& byte_len(t) >= 20000
                &&& byte_len(t.skip(1)) < 20000
                &&& lost(s) == byte_len(s) - byte_len(h) - byte_len(t)
            },
{
    if byte_len(s) > 30000 {
        let h = clipped(s, 10000);
        let n = byte_len(s) - 20000;
        let at = fit(s, n) as int;
        let t = s.skip(at);
        lemma_fit(s, 10000);
        lemma_fit(s, n);
        lemma_fit_is_most(s, 10000);
        lemma_fit_is_most(s, n);
        lemma_byte_len_split(s, at);
        assert(kept(s) == h + "\n[... truncated ...]\n"@ + t);
        assert(h =~= s.subrange(0, h.len() as int));
        assert(t =~= s.subrange(s.len() - t.len(), s.len() as int));
        lemma_byte_len_split(s, at + 1);
        assert(s.skip(at + 1) =~= t.skip(1));
    }
}

/// A report starts with the exit code and the time, and shows what was printed and what
/// was reported as errors under their own headings, each where there is any, the former
/// first. Short output is shown whole.
pub proof fn law_reports_show_both_outputs(code: i32, ms: u64, out: Seq<char>, err: Seq<char>)
    requires
        byte_len(out) <= 30000,
        byte_len(err) <= 30000,
    ensures
        ({
            let head = "Exit: "@ + signed_decimal_of(code as int) + "\n"@ + "Duration: "@ + decimal_of(
                ms as nat,
            ) + "ms\n\n"@;
            let none = Seq::<char>::empty();
            &&& report_of(code, ms, none, none) == head
            &&& out.len() > 0 ==> report_of(code, ms, out, none) == head + "=== stdout ===\n"@ + out
                + "\n"@
            &&& err.len() > 0 ==> report_of(code, ms, none, err) == head + "\n=== stderr ===\n"@ + err
                + "\n"@
            &&& out.len() > 0 && err.len() > 0 ==> report_of(code, ms, out, err) == head
                + "=== stdout ===\n"@ + out + "\n"@ + "\n=== stderr ===\n"@ + err + "\n"@
        }),
{
    let none = Seq::<char>::empty();
    law_long_output_keeps_head_and_tail(out);
    law_long_output_keeps_head_and_tail(err);
    assert(byte_len(none) == 0);
    law_long_output_keeps_head_and_tail(none);
    let head = "Exit: "@ + signed_decimal_of(code as int) + "\n"@ + "Duration: "@ + decimal_of(
        ms as nat,
    ) + "ms\n\n"@;
    assert(report_of(code, ms, none, none) =~= head);
    if out.len() > 0 {
        assert(report_of(code, ms, out, none) =~= head + "=== stdout ===\n"@ + out + "\n"@);
        assert(err.len() > 0 ==> report_of(code, ms, out, err) =~= head + "=== stdout ===\n"@ + out
            + "\n"@ + "\n=== stderr ===\n"@ + err + "\n"@);
    }
    if err.len() > 0 {
        assert(report_of(code, ms, none, err) =~= head + "\n=== stderr ===\n"@ + err + "\n"@);
    }
}

/// Where some of the output is lost, the report says how many bytes.
pub proof fn law_losses_are_told(code: i32, ms: u64, out: Seq<char>)
    requires
        byte_len(out) > 30000,
        lost(out) > 0,
    ensures
        ({
            let said = "\n[... "@ + decimal_of(lost(out) as nat) + " bytes truncated ...]"@ + "\n"@;
            said.is_suffix_of(report_of(code, ms, out, Seq::empty()))
        }),
{
    let none = Seq::<char>::empty();
    assert(byte_len(none) == 0);
    reveal_strlit("\n[... truncated ...]\n");
    assert(kept(out).len() > 0);
    let said = "\n[... "@ + decimal_of(lost(out) as nat) + " bytes truncated ...]"@ + "\n"@;
    let r = report_of(code, ms, out, none);
    let head = "Exit: "@ + signed_decimal_of(code as int) + "\n"@ + "Duration: "@ + decimal_of(
        ms as nat,
    ) + "ms\n\n"@ + "=== stdout ===\n"@ + kept(out);
    assert(r =~= head + said);
    assert(r.subrange(r.len() - said.len(), r.len() as int) =~= said);
}

proof fn lemma_fit_is_most(s: Seq<char>, n: int)
    requires
        0 <= n < byte_len(s),
    ensures
        fit(s, n) < s.len(),
        byte_len(s.take(fit(s, n) as int + 1)) > n,
    decreases s.len(),
{
    if s.len() == 0 {
        assert(byte_len(s) == 0);
    } else {
        lemma_byte_len_split(s, 1);
        assert(s.take(1) =~= seq![s[0]]);
        assert(s.skip(1) =~= s.drop_first());
        lemma_width(s[0]);
        if width(s[0]) <= n {
            lemma_fit_is_most(s.drop_first(), n - width(s[0]));
            let k = fit(s, n) as int;
            let more = s.take(k + 1);
            lemma_byte_len_split(more, 1);
            assert(more.take(1) =~= seq![s[0]]);
            assert(more.skip(1) =~= s.drop_first().take(k));
        } else {
            assert(fit(s, n) == 0);
        }
    }
}

} // verus!
