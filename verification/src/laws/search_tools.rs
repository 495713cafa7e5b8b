//! Searching files and listing them.
use vstd::prelude::*;

use crate::laws::texts::law_lines_end_at_feeds;
use crate::paths::seen_from;
use crate::text::byte_len;
use crate::text::clipped;
use crate::text::decimal_of;
use crate::text::joined;
use crate::text::lemma_fit;
use crate::text::lemma_lines_before;
use crate::text::line_list;
use crate::text::quoted;
use crate::tools::glob::Found;
use crate::tools::glob::list_text;
use crate::tools::glob::listing;
use crate::tools::grep::OutputMode;
use crate::tools::grep::cut_short;
use crate::tools::grep::file_hits;
use crate::tools::grep::hits_up_to;
use crate::tools::grep::is_skipped;
use crate::tools::grep::regex_hits;
use crate::tools::grep::rg_arguments;

verus! {

/// A further line of a file is shown with the path and its number exactly if the pattern
/// hits it; what was shown of the lines before stays. Where only files are asked for, the
/// path is shown exactly if some line is hit.
pub proof fn law_hits_are_shown(
    pattern: Seq<char>,
    path: Seq<char>,
    text: Seq<char>,
    line: Seq<char>,
)
    requires
        text.len() > 0 ==> text.last() == '\n',
        !line.contains('\n'),
        !(line.len() > 0 && line.last() == '\r'),
    ensures
        ({
            let more = text + line + seq!['\n'];
            let n = line_list(text).len() + 1;
            &&& file_hits(pattern, path, Seq::empty(), OutputMode::Content) == Seq::<char>::empty()
            &&& regex_hits(pattern, line) ==> file_hits(pattern, path, more, OutputMode::Content)
                == file_hits(pattern, path, text, OutputMode::Content) + path + ":"@ + decimal_of(n)
                + ":"@ + line + "\n"@
            &&& !regex_hits(pattern, line) ==> file_hits(pattern, path, more, OutputMode::Content)
                == file_hits(pattern, path, text, OutputMode::Content)
            &&& file_hits(pattern, path, Seq::empty(), OutputMode::Files) == Seq::<char>::empty()
            &&& regex_hits(pattern, line) ==> file_hits(pattern, path, more, OutputMode::Files) == path
                + "\n"@
            &&& !regex_hits(pattern, line) ==> file_hits(pattern, path, more, OutputMode::Files)
                == file_hits(pattern, path, text, OutputMode::Files)
        }),
{
    let none = Seq::<char>::empty();
    let last = line + seq!['\n'];
    let more = text + line + seq!['\n'];
    assert(more =~= text + last);
    lemma_lines_before(text, last);
    law_lines_end_at_feeds(line, none);
    assert(line + seq!['\n'] + none =~= last);
    assert(line_list(none) =~= Seq::<Seq<char>>::empty());
    assert(line_list(last) =~= seq![line]);
    let a = line_list(text);
    let b = line_list(more);
    assert(b =~= a.push(line));
    lemma_hits_before(pattern, path, a, b, a.len() as int);
    assert(hits_up_to(pattern, path, line_list(none), 0) == none);
    if exists|i: int| 0 <= i < a.len() && regex_hits(pattern, #[trigger] a[i]) {
        let i = choose|i: int| 0 <= i < a.len() && regex_hits(pattern, #[trigger] a[i]);
        assert(b[i] == a[i]);
    }
    if regex_hits(pattern, line) {
        assert(b[a.len() as int] == line);
    } else if exists|i: int| 0 <= i < b.len() && regex_hits(pattern, #[trigger] b[i]) {
        let i = choose|i: int| 0 <= i < b.len() && regex_hits(pattern, #[trigger] b[i]);
        assert(i < a.len());
        assert(a[i] == b[i]);
    }
}

proof fn lemma_hits_before(
    pattern: Seq<char>,
    path: Seq<char>,
    a: Seq<Seq<char>>,
    b: Seq<Seq<char>>,
    n: int,
)
    requires
        n <= a.len() <= b.len(),
        forall|i: int| 0 <= i < a.len() ==> a[i] == b[i],
    ensures
        hits_up_to(pattern, path, a, n) == hits_up_to(pattern, path, b, n),
    decreases n,
{
    if n > 0 {
        lemma_hits_before(pattern, path, a, b, n - 1);
    }
}

/// The search program is given the pattern first and the path last, with line numbers and
/// without colours; it lists files exactly where that is asked for, and keeps to a glob
/// exactly where there is one.
pub proof fn law_search_arguments(pattern: Seq<char>, path: Seq<char>, glob: Seq<char>, mode: OutputMode)
    ensures
        rg_arguments(pattern, path, None, OutputMode::Content) == seq![
            pattern,
            "-n"@,
            "--color=never"@,
            path,
        ],
        rg_arguments(pattern, path, None, OutputMode::Files) == seq![
            pattern,
            "-n"@,
            "--color=never"@,
            "-l"@,
            path,
        ],
        rg_arguments(pattern, path, Some(glob), mode) == rg_arguments(
            pattern,
            path,
            None,
            mode,
        ).drop_last() + seq!["--glob"@, glob, path],
{
    assert(rg_arguments(pattern, path, None, OutputMode::Content) =~= seq![
        pattern,
        "-n"@,
        "--color=never"@,
        path,
    ]);
    assert(rg_arguments(pattern, path, None, OutputMode::Files) =~= seq![
        pattern,
        "-n"@,
        "--color=never"@,
        "-l"@,
        path,
    ]);
    assert(rg_arguments(pattern, path, Some(glob), mode) =~= rg_arguments(
        pattern,
        path,
        None,
        mode,
    ).drop_last() + seq!["--glob"@, glob, path]);
}

/// What was found is shown whole where it takes at most ten thousand bytes; of more, the
/// head is shown, and how many bytes are not.
pub proof fn law_findings_are_cut_short(s: Seq<char>)
    ensures
        byte_len(s) <= 10000 ==> cut_short(s) == s,
        byte_len(s) > 10000 ==> exists|h: Seq<char>|
            {
                &&& h.is_prefix_of(s)
                &&& byte_len(h) <= 10000
                &&& cut_short(s) == #[trigger] (h + "\n[... "@) + decimal_of(
                    (byte_len(s) - byte_len(h)) as nat,
                ) + " bytes truncated ...]"@
            },
{
    lemma_fit(s, 10000);
    let h = clipped(s, 10000);
    if byte_len(s) <= 10000 {
        assert(h =~= s);
    } else {
        assert(h =~= s.subrange(0, h.len() as int));
        assert(cut_short(s) == (h + "\n[... "@) + decimal_of((byte_len(s) - byte_len(h)) as nat)
            + " bytes truncated ...]"@);
    }
}

/// A search does not go into what is built, fetched or cached, nor into the repository's
/// own data; it goes into everything else.
pub proof fn law_skipped_directories(name: Seq<char>)
    ensures
        is_skipped(name) <==> seq![
            ".git"@,
            "target"@,
            "node_modules"@,
            ".next"@,
            "dist"@,
            ".cache"@,
            "__pycache__"@,
            ".venv"@,
        ].contains(name),
{
    let all = seq![
        ".git"@,
        "target"@,
        "node_modules"@,
        ".next"@,
        "dist"@,
        ".cache"@,
        "__pycache__"@,
        ".venv"@,
    ];
    assert(all[0] == ".git"@ && all[1] == "target"@ && all[2] == "node_modules"@ && all[3]
        == ".next"@ && all[4] == "dist"@ && all[5] == ".cache"@ && all[6] == "__pycache__"@
        && all[7] == ".venv"@);
}

/// The files that match are counted and listed one to a line, as seen from the working
/// directory; where there are none, the pattern is named.
pub proof fn law_matches_are_listed(
    s: Seq<Found>,
    order: Seq<usize>,
    x: usize,
    cwd: Seq<char>,
    pattern: Seq<char>,
)
    ensures
        s.len() == 0 ==> list_text(s, order, cwd, pattern) == "未找到匹配 "@ + quoted(pattern)
            + " 的文件"@,
        s.len() > 0 ==> list_text(s, seq![x], cwd, pattern) == "找到 "@ + decimal_of(1)
            + " 个匹配:\n"@ + seen_from(cwd, s[x as int].path@),
        order.len() > 0 ==> joined(listing(s, order.push(x), cwd), "\n"@) == joined(
            listing(s, order, cwd),
            "\n"@,
        ) + "\n"@ + seen_from(cwd, s[x as int].path@),
        s.len() > 0 ==> list_text(s, order, cwd, pattern) == "找到 "@ + decimal_of(order.len())
            + " 个匹配:\n"@ + joined(listing(s, order, cwd), "\n"@),
{
    let one = listing(s, seq![x], cwd);
    assert(one =~= seq![seen_from(cwd, s[x as int].path@)]);
    let more = listing(s, order.push(x), cwd);
    assert(more.drop_last() =~= listing(s, order, cwd));
    assert(more.last() == seen_from(cwd, s[x as int].path@));
}

} // verus!
