//! What keys do and what the screen shows.
use vstd::prelude::*;

use crate::commands::Builtin;
use crate::commands::CommandDefView;
use crate::commands::builtin_of;
use crate::commands::name_and_args;
use crate::content::StopReason;
use crate::content::TokenUsageView;
use crate::event::ApprovalDetailView;
use crate::event::ApprovalKind;
use crate::op::ReviewDecision;
use crate::permission::PermissionMode;
use crate::session::TurnEventView;
use crate::session::answered;
use crate::tui::state::HistoryCellView;
use crate::tui::state::Key;
use crate::tui::state::KeyCode;
use crate::tui::state::PendingApprovalView;
use crate::tui::state::UiActionView;
use crate::tui::state::UiStateView;
use crate::tui::state::after_event;
use crate::tui::state::commanded;
use crate::tui::state::pressed;
use crate::tui::state::template_named;

verus! {

/// While a call waits for an answer, `y` approves it, `s` approves it for the session, `n`
/// denies it and `a` aborts the turn; no other key does anything.
pub proof fn law_keys_answer(s: UiStateView, p: PendingApprovalView, k: Key, page: usize)
    requires
        s.pending_approval == Some(p),
    ensures
        ({
            let (t, a) = pressed(s, k, page);
            let answered = |d: ReviewDecision|
                t == (UiStateView { pending_approval: None, ..s }) && a == (UiActionView::Respond {
                    call_id: p.call_id,
                    decision: d,
                });
            &&& k.code == KeyCode::Char('y') ==> answered(ReviewDecision::Approve)
            &&& k.code == KeyCode::Char('s') ==> answered(ReviewDecision::ApproveForSession)
            &&& k.code == KeyCode::Char('n') ==> answered(ReviewDecision::Deny)
            &&& k.code == KeyCode::Char('a') ==> answered(ReviewDecision::Abort)
            &&& k.code != KeyCode::Char('y') && k.code != KeyCode::Char('s') && k.code
                != KeyCode::Char('n') && k.code != KeyCode::Char('a') ==> t == s && a is Nothing
        }),
{
}

/// Letters are typed and taken back while nothing runs; control with `c` or `d` quits.
pub proof fn law_keys_type(s: UiStateView, c: char, control: bool, page: usize)
    requires
        s.pending_approval is None,
    ensures
        control && (c == 'c' || c == 'd') ==> pressed(s, Key { code: KeyCode::Char(c), control }, page)
            == (s, UiActionView::Quit),
        !s.running && !(control && (c == 'c' || c == 'd')) ==> pressed(
            s,
            Key { code: KeyCode::Char(c), control },
            page,
        ) == (UiStateView { input: s.input.push(c), ..s }, UiActionView::Nothing),
        !s.running && s.input.len() > 0 ==> pressed(
            s,
            Key { code: KeyCode::Backspace, control },
            page,
        ) == (UiStateView { input: s.input.drop_last(), ..s }, UiActionView::Nothing),
        !s.running ==> pressed(
            UiStateView { input: s.input.push(c), ..s },
            Key { code: KeyCode::Backspace, control },
            page,
        ) == (s, UiActionView::Nothing),
{
    assert(s.input.push(c).drop_last() =~= s.input);
}

/// Escape cancels what runs, once; the tab key backwards goes from asking to planning, to
/// accepting edits, and round again; and paging scrolls up and back down.
pub proof fn law_keys_steer(s: UiStateView, control: bool, page: usize)
    requires
        s.pending_approval is None,
    ensures
        ({
            let (t, a) = pressed(s, Key { code: KeyCode::Esc, control }, page);
            &&& a is Cancel <==> s.running && s.cancellable
            &&& a is Cancel ==> !(pressed(t, Key { code: KeyCode::Esc, control }, page).1 is Cancel)
        }),
        ({
            let (t, a) = pressed(s, Key { code: KeyCode::BackTab, control }, page);
            &&& a == UiActionView::SetMode(t.mode)
            &&& s.mode == PermissionMode::Default ==> t.mode == PermissionMode::Plan
            &&& s.mode == PermissionMode::Plan ==> t.mode == PermissionMode::AcceptEdits
            &&& s.mode == PermissionMode::AcceptEdits ==> t.mode == PermissionMode::Default
            &&& s.mode == PermissionMode::Bypass ==> t.mode == PermissionMode::Bypass
        }),
        s.scroll_offset + page <= usize::MAX ==> {
            let up = pressed(s, Key { code: KeyCode::PageUp, control }, page).0;
            &&& up.scroll_offset == s.scroll_offset + page
            &&& pressed(up, Key { code: KeyCode::PageDown, control }, page).0 == s
        },
        s.scroll_offset < page ==> pressed(
            s,
            Key { code: KeyCode::PageDown, control },
            page,
        ).0.scroll_offset == 0,
{
}

/// A line that is entered is submitted as it is; one that starts with a slash is a command,
/// either built in or by name with its arguments. The line is taken out of the input.
pub proof fn law_lines_are_entered(s: UiStateView, control: bool, page: usize)
    requires
        s.pending_approval is None,
        !s.running,
    ensures
        ({
            let (t, a) = pressed(s, Key { code: KeyCode::Enter, control }, page);
            &&& s.input.len() == 0 ==> t == s && a is Nothing
            &&& s.input.len() > 0 && s.input[0] != '/' ==> a == (UiActionView::Submit {
                text: s.input,
            }) && t == (UiStateView { input: Seq::empty(), ..s })
            &&& s.input.len() > 0 && s.input[0] == '/' && builtin_of(s.input) is None ==> a == (
            UiActionView::Expand {
                prompt: s.input,
                name: name_and_args(s.input).0,
                args: name_and_args(s.input).1,
            }) && t == (UiStateView { input: Seq::empty(), ..s })
            &&& s.input.len() > 0 ==> t.input.len() == 0
        }),
{
    reveal_strlit("/");
    if s.input.len() > 0 {
        if s.input[0] == '/' {
            assert(s.input.subrange(0, 1) =~= "/"@);
            assert("/"@.is_prefix_of(s.input));
        } else if "/"@.is_prefix_of(s.input) {
            assert(s.input.subrange(0, 1)[0] == s.input[0]);
        }
    }
}

/// Commands that change the screen do so at once: clearing forgets what was said and shown,
/// the mode is set or goes round, and compacting runs.
pub proof fn law_commands_take_effect(s: UiStateView, m: PermissionMode)
    ensures
        commanded(s, Builtin::Clear) == (
            UiStateView { history: Seq::empty(), messages: Seq::empty(), error: None, ..s },
            UiActionView::Nothing,
        ),
        commanded(s, Builtin::Mode(m)) == (
            UiStateView { mode: m, ..s },
            UiActionView::SetMode(m),
        ),
        commanded(s, Builtin::Compact) == (
            UiStateView { running: true, ..s },
            UiActionView::Run(Builtin::Compact),
        ),
        ({
            let (r, a) = commanded(s, Builtin::ModeCycle);
            &&& a == UiActionView::SetMode(r.mode)
            &&& s.mode == PermissionMode::Default ==> r.mode == PermissionMode::Plan
            &&& s.mode == PermissionMode::Plan ==> r.mode == PermissionMode::AcceptEdits
            &&& s.mode == PermissionMode::AcceptEdits ==> r.mode == PermissionMode::Default
        }),
        ({
            let (r, a) = commanded(s, Builtin::Cost);
            &&& a is Nothing && r.usage == s.usage && r.messages == s.messages
            &&& r.history.drop_last() == s.history && r.history.last() is Tool
        }),
        commanded(s, Builtin::Help) == (s, UiActionView::Run(Builtin::Help)),
        commanded(s, Builtin::Rollback) == (s, UiActionView::Run(Builtin::Rollback)),
        commanded(s, Builtin::Diff) == (s, UiActionView::Run(Builtin::Diff)),
{
    assert(commanded(s, Builtin::Cost).0.history.drop_last() =~= s.history);
}

/// Text grows as it comes, and stands in the history once a call or the turn is over; how a
/// call went is shown behind it.
pub proof fn law_screen_shows_what_comes(
    s: UiStateView,
    t: Seq<char>,
    id: Seq<char>,
    tool: Seq<char>,
    ok: bool,
    stop_reason: StopReason,
    steps: u32,
)
    ensures
        after_event(s, TurnEventView::TextDelta(t)) == (UiStateView {
            live_text: s.live_text + t,
            scroll_offset: 0,
            ..s
        }),
        after_event(s, TurnEventView::ToolCallBegin { call_id: id, tool }).tool_status == Some(
            ("▶ "@ + tool, true),
        ),
        ({
            let r = after_event(s, TurnEventView::ToolExecEnd { call_id: id, ok, summary: t });
            let status = (if ok {
                "✓"@
            } else {
                "✗"@
            }) + " "@ + t;
            &&& r.history == if s.live_text.len() > 0 {
                s.history.push(HistoryCellView::Assistant(s.live_text)).push(
                    HistoryCellView::Tool(status),
                )
            } else {
                s.history.push(HistoryCellView::Tool(status))
            }
            &&& r.live_text.len() == 0
            &&& r.tool_status == Some((status, ok))
            &&& r.messages == s.messages && r.running == s.running && r.mode == s.mode
        }),
        ({
            let r = after_event(s, TurnEventView::TurnComplete { stop_reason, steps });
            &&& !r.running && !r.cancellable && r.tool_status is None && r.live_text.len() == 0
            &&& r.history == if s.live_text.len() > 0 {
                s.history.push(HistoryCellView::Assistant(s.live_text))
            } else {
                s.history
            }
        }),
        ({
            let r = after_event(s, TurnEventView::Error(t));
            &&& r.error == Some(t) && !r.running && !r.cancellable
            &&& r.history == s.history && r.messages == s.messages
        }),
{
}

/// A request for approval is shown with what it is about, and gone once it is answered.
pub proof fn law_screen_asks(
    s: UiStateView,
    id: Seq<char>,
    kind: ApprovalKind,
    detail: ApprovalDetailView,
    decision: ReviewDecision,
)
    ensures
        ({
            let r = after_event(s, TurnEventView::ApprovalRequest { call_id: id, kind, detail });
            &&& r.pending_approval matches Some(p) && p.call_id == id && p.kind == kind && p.command
                == detail.command && p.pattern_suggestion == detail.pattern_suggestion && (
            detail.tool matches Some(t) ==> p.tool == t)
            &&& r.history == s.history && r.running == s.running
        }),
        after_event(s, TurnEventView::ApprovalResolved { call_id: id, decision }) == (UiStateView {
            pending_approval: None,
            ..s
        }),
{
}

/// What is used adds up, each kind of token by itself.
pub proof fn law_usage_adds_up(s: UiStateView, u: TokenUsageView)
    requires
        s.usage.input + u.input <= u64::MAX,
        s.usage.cached_input + u.cached_input <= u64::MAX,
        s.usage.output + u.output <= u64::MAX,
        s.usage.reasoning + u.reasoning <= u64::MAX,
    ensures
        after_event(s, TurnEventView::Usage(u)) == (UiStateView {
            usage: TokenUsageView {
                input: (s.usage.input + u.input) as u64,
                cached_input: (s.usage.cached_input + u.cached_input) as u64,
                output: (s.usage.output + u.output) as u64,
                reasoning: (s.usage.reasoning + u.reasoning) as u64,
            },
            ..s
        }),
{
}

/// A template is found under its name: the first of that name.
pub proof fn law_templates_are_found(before: Seq<CommandDefView>, c: CommandDefView, rest: Seq<CommandDefView>)
    requires
        forall|i: int| 0 <= i < before.len() ==> (#[trigger] before[i]).name != c.name,
    ensures
        template_named(before + seq![c] + rest, c.name) == Some(c.body),
        template_named(before, c.name) is None,
    decreases before.len(),
{
    let all = before + seq![c] + rest;
    if before.len() == 0 {
        assert(all[0] == c);
    } else {
        let t = before.drop_first();
        assert forall|i: int| 0 <= i < t.len() implies (#[trigger] t[i]).name != c.name by {
            assert(t[i] == before[i + 1]);
        }
        law_templates_are_found(t, c, rest);
        assert(before[0].name != c.name);
        assert(all[0] == before[0]);
        assert(all.drop_first() =~= t + seq![c] + rest);
    }
}

} // verus!
