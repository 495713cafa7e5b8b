//! Which hooks run, what they are told and what they decide.
use vstd::prelude::*;

use crate::hooks::HookConfigView;
use crate::hooks::HookCtxView;
use crate::hooks::HookEventView;
use crate::hooks::HookExecResultView;
use crate::hooks::HookOutcomeView;
use crate::hooks::applying;
use crate::hooks::ended;
use crate::hooks::hook_applies;
use crate::hooks::hook_environment;
use crate::hooks::hook_name;
use crate::hooks::outcome_of;
use crate::hooks::told;
use crate::json::JsonView;
use crate::json::member;
use crate::laws::permissions::law_bars_part_tools;
use crate::permissions::tool_listed;
use crate::text::trimmed;

verus! {

/// A hook for everything, and a hook of an event that is about no tool, always applies. A
/// hook for named tools applies to a call of a tool exactly if it names the tool.
pub proof fn law_hooks_apply_by_tool(tool: Seq<char>, matcher: Seq<char>, e: HookEventView)
    requires
        !matcher.contains('|'),
        trimmed(matcher) == matcher,
    ensures
        hook_applies(e, "*"@),
        e is SessionStart || e is SessionEnd || e is UserPromptSubmit || e is Notification || e is SubagentStop
            || e is Stop ==> hook_applies(e, matcher),
        hook_applies(HookEventView::PreToolUse { tool }, matcher) <==> matcher == "*"@ || matcher
            == tool,
        hook_applies(HookEventView::PostToolUse { tool }, matcher) <==> matcher == "*"@ || matcher
            == tool,
{
    law_bars_part_tools(matcher, Seq::empty(), tool);
}

/// A hook for several tools applies to each of them.
pub proof fn law_hooks_may_name_several_tools(tool: Seq<char>, a: Seq<char>, b: Seq<char>)
    requires
        !a.contains('|'),
    ensures
        hook_applies(HookEventView::PreToolUse { tool }, a + "|"@ + b) <==> trimmed(a) == tool
            || tool_listed(b, tool),
{
    law_bars_part_tools(a, b, tool);
    reveal_strlit("|");
    reveal_strlit("*");
    assert("|"@.len() == 1 && "*"@.len() == 1);
    assert("|"@[0] != "*"@[0]);
    assert((a + "|"@ + b)[a.len() as int] == '|');
    if a + "|"@ + b == "*"@ {
        assert("*"@[a.len() as int] == '|');
    }
}

/// The hooks that apply run in the order in which they are configured.
pub proof fn law_hooks_keep_their_order(e: HookEventView, s: Seq<HookConfigView>, h: HookConfigView)
    ensures
        applying(e, Seq::empty()) == Seq::<HookConfigView>::empty(),
        hook_applies(e, h.matcher) ==> applying(e, s.push(h)) == applying(e, s).push(h),
        !hook_applies(e, h.matcher) ==> applying(e, s.push(h)) == applying(e, s),
{
    assert(s.push(h).drop_last() =~= s);
}

/// The first hook that refuses gives the reason; hooks that fail refuse nothing.
pub proof fn law_first_refusal_counts(
    before: Seq<HookExecResultView>,
    reason: Seq<char>,
    rest: Seq<HookExecResultView>,
)
    requires
        forall|i: int| 0 <= i < before.len() ==> !(#[trigger] before[i] is Block),
    ensures
        outcome_of(before) == HookOutcomeView::Pass,
        outcome_of(before + seq![HookExecResultView::Block(reason)] + rest)
            == HookOutcomeView::Block(reason),
    decreases before.len(),
{
    let all = before + seq![HookExecResultView::Block(reason)] + rest;
    if before.len() == 0 {
        assert(all[0] == HookExecResultView::Block(reason));
    } else {
        let t = before.drop_first();
        assert forall|i: int| 0 <= i < t.len() implies !(#[trigger] t[i] is Block) by {
            assert(t[i] == before[i + 1]);
        }
        law_first_refusal_counts(t, reason, rest);
        assert(!(before[0] is Block));
        assert(all.drop_first() =~= t + seq![HookExecResultView::Block(reason)] + rest);
        assert(all[0] == before[0]);
    }
}

/// A hook refuses by exit code 2, with what it wrote to its error output as the reason; by
/// any other failure it refuses nothing.
pub proof fn law_exit_codes_decide(code: Option<i32>, stderr: Seq<char>)
    ensures
        ended(true, code, stderr) is Pass,
        ended(false, Some(2i32), stderr) == HookExecResultView::Block(trimmed(stderr)),
        code != Some(2i32) ==> ended(false, code, stderr) is Error,
{
}

/// A hook is told the event, the session, the directory, and the tool with its input where
/// there is one.
pub proof fn law_hooks_are_told_the_call(e: HookEventView, ctx: HookCtxView)
    ensures
        ({
            let j = told(e, ctx);
            &&& member(j, "event"@) == Some(
                JsonView::Text(
                    match e {
                        HookEventView::SessionStart => "SessionStart"@,
                        HookEventView::SessionEnd => "SessionEnd"@,
                        HookEventView::PreToolUse { .. } => "PreToolUse"@,
                        HookEventView::PostToolUse { .. } => "PostToolUse"@,
                        HookEventView::UserPromptSubmit { .. } => "UserPromptSubmit"@,
                        HookEventView::Notification { .. } => "Notification"@,
                        HookEventView::SubagentStop { .. } => "SubagentStop"@,
                        HookEventView::Stop => "Stop"@,
                    },
                ),
            )
            &&& member(j, "session_id"@) == Some(JsonView::Text(ctx.session_id))
            &&& member(j, "cwd"@) == Some(JsonView::Text(ctx.cwd))
            &&& member(j, "tool_name"@) == Some(
                match ctx.tool_name {
                    Some(t) => JsonView::Text(t),
                    None => JsonView::Null,
                },
            )
            &&& member(j, "tool_input"@) == Some(
                match ctx.tool_input {
                    Some(i) => i,
                    None => JsonView::Null,
                },
            )
        }),
{
    reveal_strlit("event");
    reveal_strlit("session_id");
    reveal_strlit("cwd");
    reveal_strlit("tool_name");
    reveal_strlit("tool_input");
    assert("event"@.len() == 5 && "session_id"@.len() == 10 && "cwd"@.len() == 3 && "tool_name"@.len() == 9 && "tool_input"@.len() == 10);
    assert("session_id"@[0] != "tool_input"@[0]);
}

/// A hook's environment holds the search path and the home directory, where there are any,
/// the event and the tool, and nothing else.
pub proof fn law_hooks_have_a_small_environment(
    e: HookEventView,
    tool: Seq<char>,
    path: Seq<char>,
    home: Seq<char>,
)
    ensures
        hook_environment(e, Some(tool), Some(path), Some(home)) == seq![
            ("PATH"@, path),
            ("HOME"@, home),
            ("TAO_HOOK_EVENT"@, hook_name(e)),
            ("TAO_TOOL_NAME"@, tool),
        ],
        hook_environment(e, None, None, None) == seq![("TAO_HOOK_EVENT"@, hook_name(e))],
        hook_environment(e, None, Some(path), None) == seq![
            ("PATH"@, path),
            ("TAO_HOOK_EVENT"@, hook_name(e)),
        ],
        hook_environment(e, None, None, Some(home)) == seq![
            ("HOME"@, home),
            ("TAO_HOOK_EVENT"@, hook_name(e)),
        ],
{
    assert(hook_environment(e, Some(tool), Some(path), Some(home)) =~= seq![
        ("PATH"@, path),
        ("HOME"@, home),
        ("TAO_HOOK_EVENT"@, hook_name(e)),
        ("TAO_TOOL_NAME"@, tool),
    ]);
    assert(hook_environment(e, None, None, None) =~= seq![("TAO_HOOK_EVENT"@, hook_name(e))]);
    assert(hook_environment(e, None, Some(path), None) =~= seq![
        ("PATH"@, path),
        ("TAO_HOOK_EVENT"@, hook_name(e)),
    ]);
    assert(hook_environment(e, None, None, Some(home)) =~= seq![
        ("HOME"@, home),
        ("TAO_HOOK_EVENT"@, hook_name(e)),
    ]);
}

} // verus!
