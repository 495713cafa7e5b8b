//! Finding files by name: what the model is told of them.
use vstd::prelude::*;
use vstd::string::*;

use crate::json::Json;
use crate::json::member;
use crate::json::text_in;
use crate::order::goes_before;
use crate::order::largest_among;
use crate::order::newest_some;
use crate::paths::join_path;
use crate::paths::joined_path;
use crate::paths::relative_to;
use crate::paths::seen_from;
use crate::providers::calls::text_at;
use crate::text::cat3;
use crate::text::cat;
use crate::text::decimal;
use crate::text::decimal_of;
use crate::text::join;
use crate::text::joined;
use crate::text::quote;
use crate::text::quoted;
use crate::text::views;
use crate::tools::ToolError;
use crate::tools::ToolErrorView;
use crate::tools::ToolOutput;

verus! {

/// How many files are listed at most.
pub const MAX_MATCHES: usize = 100;

/// The pattern, as seen from the working directory.
pub fn plan(args: &Json, cwd: &str) -> (r: Result<(String, String), ToolError>)
    ensures
        match text_in(member(args@, "pattern"@)) {
            None => r matches Err(e) && e.deep_view() == ToolErrorView::InvalidArgs(
                "pattern 必须是字符串"@,
            ),
            Some(p) => r matches Ok((pattern, full)) && pattern@ == p && full@ == joined_path(
                cwd@,
                p,
            ),
        },
{
    match text_at(args, "pattern") {
        None => Err(ToolError::InvalidArgs("pattern 必须是字符串".to_owned())),
        Some(p) => {
            let full = join_path(cwd, p.as_str());
            Ok((p, full))
        },
    }
}

/// What `glob::Pattern::new` says is wrong with a pattern, where anything is.
pub uninterp spec fn pattern_refusal(pattern: Seq<char>) -> Option<Seq<char>>;

/// The text of the error of `glob::Pattern::new`, where it gives one.
#[verifier::external_body]
fn pattern_error(pattern: &str) -> (r: Option<String>)
    ensures
        r.deep_view() == pattern_refusal(pattern@),
{
    ::glob::Pattern::new(pattern).err().map(|e| e.to_string())
}

/// What the model is told of a pattern of which something is said to be wrong.
pub fn refuse_pattern(why: Option<String>) -> (r: Result<(), ToolError>)
    ensures
        match why {
            None => r is Ok,
            Some(why) => r matches Err(e) && e.deep_view() == ToolErrorView::InvalidArgs(
                "glob pattern 无效: "@ + why@,
            ),
        },
{
    match why {
        None => Ok(()),
        Some(why) => Err(ToolError::InvalidArgs(cat("glob pattern 无效: ", why.as_str()))),
    }
}

/// Whether files can be found by a pattern.
pub fn check_pattern(full: &str) -> (r: Result<(), ToolError>)
    ensures
        match pattern_refusal(full@) {
            None => r is Ok,
            Some(why) => r matches Err(e) && e.deep_view() == ToolErrorView::InvalidArgs(
                "glob pattern 无效: "@ + why,
            ),
        },
{
    refuse_pattern(pattern_error(full))
}

/// A file that was found, and when it was last changed.
pub struct Found {
    pub path: String,
    pub changed_ms: u64,
}

/// When the files were last changed.
pub open spec fn change_times(s: Seq<Found>) -> Seq<u64> {
    Seq::new(s.len(), |i: int| s[i].changed_ms)
}

/// The lines that list files in a given order.
pub open spec fn listing(s: Seq<Found>, order: Seq<usize>, cwd: Seq<char>) -> Seq<Seq<char>> {
    Seq::new(order.len(), |i: int| seen_from(cwd, s[order[i] as int].path@))
}

/// What the model is told of the files that were found, of which some are listed in
/// a given order.
pub open spec fn list_text(s: Seq<Found>, order: Seq<usize>, cwd: Seq<char>, pattern: Seq<char>) -> Seq<
    char,
> {
    if s.len() == 0 {
        "未找到匹配 "@ + quoted(pattern) + " 的文件"@
    } else {
        "找到 "@ + decimal_of(order.len()) + " 个匹配:\n"@ + joined(listing(s, order, cwd), "\n"@)
    }
}

/// What the model is told of the files that were found: those changed last come
/// first. No more than `MAX_MATCHES` are listed, and none that is left out was
/// changed after one that is listed.
pub fn report(pattern: &str, cwd: &str, found: &Vec<Found>) -> (r: ToolOutput)
    ensures
        !r.is_error,
        exists|order: Seq<usize>|
            largest_among(order, change_times(found@), found@.len(), MAX_MATCHES as nat)
                && r.content@ == list_text(found@, order, cwd@, pattern@),
{
    let mut keys: Vec<u64> = Vec::new();
    let mut i: usize = 0;
    while i < found.len()
        invariant
            i <= found@.len(),
            keys@.len() == i,
            forall|k: int| 0 <= k < i ==> #[trigger] keys@[k] == found@[k].changed_ms,
        decreases found@.len() - i,
    {
        keys.push(found[i].changed_ms);
        i = i + 1;
    }
    assert(keys@ =~= change_times(found@));
    let order = newest_some(&keys, MAX_MATCHES);
    if found.len() == 0 {
        let q = quote(pattern);
        let text = cat3("未找到匹配 ", q.as_str(), " 的文件");
        assert(largest_among(order@, change_times(found@), found@.len(), MAX_MATCHES as nat)
            && text@ == list_text(found@, order@, cwd@, pattern@));
        return ToolOutput { content: text, is_error: false };
    }
    let mut out: Vec<String> = Vec::new();
    let mut j: usize = 0;
    while j < order.len()
        invariant
            j <= order@.len(),
            forall|k: int| 0 <= k < order@.len() ==> (#[trigger] order@[k]) < found@.len(),
            out@.len() == j,
            forall|k: int|
                0 <= k < j ==> (#[trigger] out@[k])@ == seen_from(
                    cwd@,
                    found@[order@[k] as int].path@,
                ),
        decreases order@.len() - j,
    {
        out.push(relative_to(cwd, found[order[j]].path.as_str()));
        j = j + 1;
    }
    assert(views(out@) =~= listing(found@, order@, cwd@));
    let n = decimal(order.len() as u64);
    let head = cat3("找到 ", n.as_str(), " 个匹配:\n");
    let body = join(&out, "\n");
    let text = cat(head.as_str(), body.as_str());
    assert(largest_among(order@, change_times(found@), found@.len(), MAX_MATCHES as nat) && text@
        == list_text(found@, order@, cwd@, pattern@));
    ToolOutput { content: text, is_error: false }
}

/// However many files are found, those that were changed last are listed: no file is
/// listed twice, and none that is left out was changed after one that is listed.
pub proof fn law_newest_are_listed(s: Seq<Found>, order: Seq<usize>, n: nat)
    requires
        largest_among(order, change_times(s), s.len(), n),
    ensures
        order.len() == if s.len() < n {
            s.len()
        } else {
            n
        },
        forall|i: int, j: int|
            0 <= i < j < order.len() ==> order[i] != order[j] && s[order[i] as int].changed_ms
                >= s[order[j] as int].changed_ms,
        forall|i: int, x: usize|
            #![trigger order[i], s[x as int]]
            0 <= i < order.len() && x < s.len() && !order.contains(x) ==> s[order[i] as int].changed_ms
                >= s[x as int].changed_ms,
{
    let keys = change_times(s);
    assert forall|i: int, j: int| 0 <= i < j < order.len() implies order[i] != order[j]
        && s[order[i] as int].changed_ms >= s[order[j] as int].changed_ms by {
        assert(goes_before(keys, order[i], order[j]));
        assert(order[i] < s.len() && order[j] < s.len());
    }
    assert forall|i: int, x: usize|
        #![trigger order[i], s[x as int]]
        0 <= i < order.len() && x < s.len() && !order.contains(x) implies s[order[i] as int].changed_ms
        >= s[x as int].changed_ms by {
        assert(goes_before(keys, order[i], x));
        assert(order[i] < s.len());
    }
}

} // verus!
