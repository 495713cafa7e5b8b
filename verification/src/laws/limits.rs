//! Limits, and small things that other parts rest on.
use vstd::prelude::*;

use crate::apply_patch::patch_of;
use crate::checkpoint::git_line;
use crate::codec::Wire;
use crate::codec::default_to;
use crate::codec::maybe;
use crate::codec::need;
use crate::compact::DEFAULT_CONTEXT_WINDOW;
use crate::compact::DEFAULT_KEEP_LAST;
use crate::hooks::DEFAULT_HOOK_TIMEOUT_MS;
use crate::json::JsonView;
use crate::json::json_read;
use crate::json::member;
use crate::laws::failures::lemma_width;
use crate::laws::path_names::law_dots_and_slashes_do_not_count;
use crate::mcp::client::Listed;
use crate::mcp::client::hits_of;
use crate::paths::is_absolute;
use crate::paths::is_among;
use crate::paths::same_path;
use crate::providers::anthropic::data_of;
use crate::recorder::ROTATE_MAX_BYTES;
use crate::task::MAX_TASK_DEPTH;
use crate::task::TASK_MAX_STEPS;
use crate::text::byte_len;
use crate::text::lemma_byte_len_split;
use crate::tools::ToolOutputView;
use crate::tools::bash::DEFAULT_TIMEOUT_MS;
use crate::tools::bash::MAX_TIMEOUT_MS;
use crate::tools::edit::edited;
use crate::tools::glob::MAX_MATCHES;
use crate::tools::grep::GREP_TIMEOUT_MS;
use crate::tools::patch::hunks_of;
use crate::wire::PROTOCOL_VERSION;

verus! {

/// How long commands and searches may run, how much is kept of what they print, how many
/// files are listed, how deep sub-agents go and how many steps they take, how long hooks may
/// run, when a log goes on in a new file, how many messages a summary leaves as they are, how
/// much a context holds unless more is known, and which version of the protocol is spoken.
pub proof fn law_limits()
    ensures
        DEFAULT_TIMEOUT_MS == 2 * 60 * 1000,
        MAX_TIMEOUT_MS == 10 * 60 * 1000,
        GREP_TIMEOUT_MS == 30 * 1000,
        MAX_MATCHES == 100,
        MAX_TASK_DEPTH == 8,
        TASK_MAX_STEPS == 20,
        DEFAULT_HOOK_TIMEOUT_MS == 5 * 1000,
        ROTATE_MAX_BYTES == 1024 * 1024,
        DEFAULT_KEEP_LAST == 4,
        DEFAULT_CONTEXT_WINDOW == 200 * 1000,
        PROTOCOL_VERSION == 1,
{
}

/// The state of a project is kept in a repository of its own below the agent's directory, and
/// every command on it names that repository and the project.
pub proof fn law_states_are_kept_apart(git_dir: Seq<char>, tree: Seq<char>, args: Seq<Seq<char>>)
    ensures
        git_line(git_dir, tree, args).len() == args.len() + 4,
        git_line(git_dir, tree, args)[0] == "--git-dir"@,
        git_line(git_dir, tree, args)[1] == git_dir,
        git_line(git_dir, tree, args)[2] == "--work-tree"@,
        git_line(git_dir, tree, args)[3] == tree,
        git_line(git_dir, tree, args).skip(4) == args,
{
    assert(git_line(git_dir, tree, args).skip(4) =~= args);
}

/// A patch is refused with a reason where it cannot be read, and where it holds no hunk.
pub proof fn law_bad_patches_are_refused(patch: Seq<char>)
    ensures
        patch_of(patch) is Err ==> (hunks_of(patch) matches Err(o) && o.is_error),
        patch_of(patch) matches Ok(h) ==> (h.len() == 0 ==> hunks_of(patch) is Err) && (h.len() > 0
            ==> hunks_of(patch) == Ok::<_, ToolOutputView>(h)),
{
}

/// The data of an event is what it reads as; no data stands for an empty object.
pub proof fn law_no_data_is_an_empty_object(data: Seq<char>)
    ensures
        data_of(Seq::empty()) == Some(JsonView::Object(Map::empty())),
        data.len() > 0 ==> data_of(data) == json_read(data),
{
}

/// Two paths are the same where both or neither is absolute and their parts agree.
pub proof fn law_same_paths(a: Seq<char>, b: Seq<char>, c: Seq<char>)
    requires
        a.len() > 0,
    ensures
        same_path(a, a),
        same_path(a, b) == same_path(b, a),
        same_path(a, b) && same_path(b, c) ==> same_path(a, c),
        same_path(a + "/"@, a),
        !same_path("/"@ + a, a) || a[0] == '/',
        is_among(seq![a], b) <==> same_path(a, b),
{
    reveal_strlit("/");
    assert("/"@.len() == 1);
    law_dots_and_slashes_do_not_count(a, Seq::empty());
    let s = a + "/"@;
    assert(s[0] == a[0]);
    lemma_absolute(s);
    lemma_absolute(a);
    lemma_absolute("/"@ + a);
    assert(seq![a][0] == a);
}

proof fn lemma_absolute(p: Seq<char>)
    requires
        p.len() > 0,
    ensures
        is_absolute(p) <==> p[0] == '/',
{
    reveal_strlit("/");
    assert(p.subrange(0, 1).len() == 1 && p.subrange(0, 1)[0] == p[0]);
    if p[0] == '/' {
        assert(p.subrange(0, 1) =~= "/"@);
    }
}

/// Failures of servers stand among the hits of a search in their place.
pub proof fn law_failed_servers_are_told(query: Seq<char>, server: Seq<char>, e: String)
    ensures
        hits_of(query, server, Listed::NotListed(e)).len() == 1,
        hits_of(query, server, Listed::NotStarted(e)).len() == 1,
        hits_of(query, server, Listed::NotListed(e))[0] == "["@ + server + ": list_tools 失败: "@ + e@
            + "]"@,
        hits_of(query, server, Listed::NotStarted(e))[0] == "["@ + server + ": spawn 失败: "@ + e@
            + "]"@,
{
}

/// The members of an object that must be there, that may be missing, and that have a default.
pub proof fn law_members_are_read<T: Wire>(j: JsonView, k: Seq<char>, d: T::V, x: JsonView)
    ensures
        member(j, k) is None ==> need::<T>(j, k) is None && maybe::<T>(j, k) == Some(None::<T::V>)
            && default_to::<T>(j, k, d) == Some(d),
        member(j, k) == Some(JsonView::Null) ==> maybe::<T>(j, k) == Some(None::<T::V>),
        member(j, k) == Some(x) ==> need::<T>(j, k) == T::read(x) && default_to::<T>(j, k, d)
            == T::read(x),
        member(j, k) == Some(x) && !(x is Null) ==> (T::read(x) is None ==> maybe::<T>(j, k) is None)
            && (T::read(x) matches Some(v) ==> maybe::<T>(j, k) == Some(Some(v))),
{
}

/// Replacing an empty text puts the new text before, between and behind all characters.
pub proof fn law_empty_text_is_everywhere(s: Seq<char>, c: char, new: Seq<char>)
    ensures
        edited(Seq::empty(), Seq::empty(), new, true) == Ok::<_, int>(new),
        edited(s.push(c), Seq::empty(), new, true) == Ok::<_, int>(
            edited(s, Seq::empty(), new, true)->Ok_0.push(c) + new,
        ),
        s.len() > 0 ==> edited(s, Seq::empty(), new, false) is Err,
{
    assert(s.push(c).drop_last() =~= s);
}

/// Bytes add up: the bytes of two texts one behind the other are those of both, and an ASCII
/// character takes one.
pub proof fn law_bytes_add_up(a: Seq<char>, b: Seq<char>, c: char)
    ensures
        byte_len(a + b) == byte_len(a) + byte_len(b),
        byte_len(Seq::empty()) == 0,
        c as u32 <= 0x7f ==> byte_len(seq![c]) == 1,
{
    lemma_byte_len_split(a + b, a.len() as int);
    assert((a + b).take(a.len() as int) =~= a);
    assert((a + b).skip(a.len() as int) =~= b);
    lemma_width(c);
    vstd::utf8::char_is_scalar(c);
}

} // verus!
