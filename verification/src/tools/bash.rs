//! Running a command: what to run, and what the model is told of it.
use vstd::prelude::*;
use vstd::string::*;

use crate::json::Json;
use crate::json::member;
use crate::json::text_in;
use crate::json::u64_in;
use crate::paths::join_path;
use crate::paths::joined_path;
use crate::providers::calls::text_at;
use crate::text::byte_len;
use crate::text::bytes_len;
use crate::text::cat3;
use crate::text::cat;
use crate::text::char_width;
use crate::text::chars_of;
use crate::text::clip;
use crate::text::clipped;
use crate::text::decimal;
use crate::text::decimal_of;
use crate::text::fit;
use crate::text::lemma_byte_len_split;
use crate::text::lemma_fit;
use crate::text::signed_decimal;
use crate::text::signed_decimal_of;
use crate::text::string_of;
use crate::text::views;
use crate::text::width;
use crate::tools::ToolError;
use crate::tools::ToolErrorView;
use crate::tools::ToolOutput;
use crate::tools::ToolOutputView;
use crate::tools::command_of;
use crate::tools::parse_command;

verus! {

/// The milliseconds that a command may take unless told otherwise.
pub const DEFAULT_TIMEOUT_MS: u64 = 120_000;

/// The milliseconds that a command may take at most.
pub const MAX_TIMEOUT_MS: u64 = 600_000;

/// How many bytes of the head of an output are kept.
pub const OUTPUT_HEAD: usize = 10_000;

/// How many bytes of the tail of an output are kept.
pub const OUTPUT_TAIL: usize = 20_000;

/// What is to be run.
#[derive(Debug, PartialEq)]
pub struct BashPlan {
    pub command: Vec<String>,
    pub timeout_ms: u64,
    pub cwd: String,
}

/// Work out what is to be run.
pub fn plan(args: &Json, cwd: &str) -> (r: Result<BashPlan, ToolError>)
    ensures
        match command_of(args@) {
            None => r matches Err(e) && e.deep_view() == ToolErrorView::InvalidArgs(
                "command 必须是字符串数组"@,
            ),
            Some(c) => if c.len() == 0 {
                r matches Err(e) && e.deep_view() == ToolErrorView::InvalidArgs("command 不能为空"@)
            } else {
                r matches Ok(p) && {
                    &&& views(p.command@) == c
                    &&& p.timeout_ms == (match u64_in(member(args@, "timeout_ms"@)) {
                        Some(n) => if n <= MAX_TIMEOUT_MS {
                            n
                        } else {
                            MAX_TIMEOUT_MS
                        },
                        None => DEFAULT_TIMEOUT_MS,
                    })
                    &&& p.cwd@ == (match text_in(member(args@, "cwd"@)) {
                        Some(d) => joined_path(cwd@, d),
                        None => cwd@,
                    })
                }
            },
        },
{
    let command = match parse_command(args) {
        Some(c) => c,
        None => {
            return Err(ToolError::InvalidArgs("command 必须是字符串数组".to_owned()));
        },
    };
    assert(views(command@).len() == command@.len());
    if command.len() == 0 {
        return Err(ToolError::InvalidArgs("command 不能为空".to_owned()));
    }
    let asked: u64 = match args.get("timeout_ms") {
        Some(x) => match x.as_u64() {
            Some(n) => n,
            None => DEFAULT_TIMEOUT_MS,
        },
        None => DEFAULT_TIMEOUT_MS,
    };
    let timeout_ms: u64 = if asked <= MAX_TIMEOUT_MS {
        asked
    } else {
        MAX_TIMEOUT_MS
    };
    let dir = match text_at(args, "cwd") {
        Some(d) => join_path(cwd, d.as_str()),
        None => cwd.to_owned(),
    };
    Ok(BashPlan { command, timeout_ms, cwd: dir })
}

/// Whether an output is too long to be kept whole.
pub open spec fn is_long(s: Seq<char>) -> bool {
    byte_len(s) > OUTPUT_HEAD + OUTPUT_TAIL
}

/// Where the tail of a long output begins, in characters: at the character that
/// holds the byte from which the tail is counted.
pub open spec fn tail_at(s: Seq<char>) -> int {
    fit(s, byte_len(s) - OUTPUT_TAIL) as int
}

/// What is kept of an output: all of it, or its head and its tail.
pub open spec fn kept(s: Seq<char>) -> Seq<char> {
    if is_long(s) {
        clipped(s, OUTPUT_HEAD as int) + "\n[... truncated ...]\n"@ + s.skip(tail_at(s))
    } else {
        s
    }
}

/// How many bytes of an output are not kept.
pub open spec fn lost(s: Seq<char>) -> int {
    if is_long(s) {
        byte_len(s) - byte_len(clipped(s, OUTPUT_HEAD as int)) - byte_len(s.skip(tail_at(s)))
    } else {
        0
    }
}

fn fitting(v: &Vec<char>, n: usize) -> (r: usize)
    ensures
        r == fit(v@, n as int),
        r <= v@.len(),
{
    let mut i: usize = 0;
    let mut left: usize = n;
    assert(v@.skip(0) =~= v@);
    while i < v.len() && char_width(v[i]) <= left
        invariant
            i <= v@.len(),
            left <= n,
            fit(v@, n as int) == i + fit(v@.skip(i as int), left as int),
        decreases v@.len() - i,
    {
        assert(v@.skip(i as int).drop_first() =~= v@.skip(i + 1));
        left = left - char_width(v[i]);
        i = i + 1;
    }
    i
}

proof fn lemma_fit_grows(s: Seq<char>, a: int, b: int)
    requires
        0 <= a <= b,
    ensures
        fit(s, a) <= fit(s, b),
    decreases s.len(),
{
    if s.len() > 0 && width(s[0]) <= a {
        lemma_fit_grows(s.drop_first(), a - width(s[0]), b - width(s[0]));
    }
}

/// What is kept of an output, and how many bytes are not.
pub fn truncate(s: &str) -> (r: (String, usize))
    ensures
        r.0@ == kept(s@),
        r.1 == lost(s@),
{
    let total: usize = bytes_len(s);
    if total <= OUTPUT_HEAD + OUTPUT_TAIL {
        return (s.to_owned(), 0);
    }
    let v = chars_of(s);
    let head = clip(s, OUTPUT_HEAD);
    let at: usize = fitting(&v, total - OUTPUT_TAIL);
    let tail = string_of(v.as_slice(), at, v.len());
    proof {
        assert(tail@ =~= s@.skip(tail_at(s@)));
        let k = fit(s@, OUTPUT_HEAD as int) as int;
        lemma_fit(s@, OUTPUT_HEAD as int);
        lemma_fit_grows(s@, OUTPUT_HEAD as int, total - OUTPUT_TAIL);
        lemma_byte_len_split(s@, at as int);
        lemma_byte_len_split(s@.take(at as int), k);
        assert(s@.take(at as int).take(k) =~= clipped(s@, OUTPUT_HEAD as int));
    }
    let a: usize = bytes_len(head.as_str());
    let b: usize = bytes_len(tail.as_str());
    let dropped: usize = total - a - b;
    let out = cat3(head.as_str(), "\n[... truncated ...]\n", tail.as_str());
    (out, dropped)
}

/// One stream of the output, where there is any.
pub open spec fn section(title: Seq<char>, s: Seq<char>) -> Seq<char> {
    if kept(s).len() == 0 {
        Seq::empty()
    } else {
        title + kept(s) + (if lost(s) > 0 {
            "\n[... "@ + decimal_of(lost(s) as nat) + " bytes truncated ...]"@
        } else {
            Seq::empty()
        }) + "\n"@
    }
}

/// What the model is told of a command that ended.
pub open spec fn report_of(
    exit_code: i32,
    duration_ms: u64,
    stdout: Seq<char>,
    stderr: Seq<char>,
) -> Seq<char> {
    "Exit: "@ + signed_decimal_of(exit_code as int) + "\n"@ + "Duration: "@ + decimal_of(
        duration_ms as nat,
    ) + "ms\n\n"@ + section("=== stdout ===\n"@, stdout) + section(
        "\n=== stderr ===\n"@,
        stderr,
    )
}

fn write_section(title: &str, s: &str) -> (r: String)
    ensures
        r@ == section(title@, s@),
{
    let (text, dropped) = truncate(s);
    if text.as_str().is_empty() {
        return String::new();
    }
    let mut r = cat(title, text.as_str());
    if dropped > 0 {
        let n = decimal(dropped as u64);
        let note = cat3("\n[... ", n.as_str(), " bytes truncated ...]");
        r.append(note.as_str());
    }
    r.append("\n");
    assert(r@ =~= section(title@, s@));
    r
}

/// What the model is told of a command that ended. A command that failed is told
/// of as an error; `exit_code` is -1 where there is none.
pub fn report(
    exit_code: i32,
    success: bool,
    duration_ms: u64,
    stdout: &str,
    stderr: &str,
) -> (r: ToolOutput)
    ensures
        r.deep_view() == (ToolOutputView {
            content: report_of(exit_code, duration_ms, stdout@, stderr@),
            is_error: !success,
        }),
{
    let code = signed_decimal(exit_code);
    let ms = decimal(duration_ms);
    let mut r = cat3("Exit: ", code.as_str(), "\n");
    r.append("Duration: ");
    r.append(ms.as_str());
    r.append("ms\n\n");
    let a = write_section("=== stdout ===\n", stdout);
    let b = write_section("\n=== stderr ===\n", stderr);
    r.append(a.as_str());
    r.append(b.as_str());
    assert(r@ =~= report_of(exit_code, duration_ms, stdout@, stderr@));
    ToolOutput { content: r, is_error: !success }
}

// ---- laws ----

/// Nothing of a short output is lost, and of a long one at most what lies between
/// its head and its tail.
pub proof fn law_truncation_keeps_ends(s: Seq<char>)
    ensures
        byte_len(s) <= OUTPUT_HEAD + OUTPUT_TAIL ==> kept(s) == s && lost(s) == 0,
        is_long(s) ==> byte_len(s.skip(tail_at(s))) >= OUTPUT_TAIL,
        0 <= lost(s) <= byte_len(s),
{
    if is_long(s) {
        let n = byte_len(s) - OUTPUT_TAIL;
        lemma_fit(s, n);
        lemma_fit(s, OUTPUT_HEAD as int);
        lemma_fit_grows(s, OUTPUT_HEAD as int, n);
        let at = tail_at(s);
        lemma_byte_len_split(s, at);
        let k = fit(s, OUTPUT_HEAD as int) as int;
        lemma_byte_len_split(s.take(at), k);
        assert(s.take(at).take(k) =~= clipped(s, OUTPUT_HEAD as int));
    }
}

} // verus!
