//! What a session has in memory is what its log says.
use vstd::prelude::*;

use crate::content::ContentView;
use crate::content::StopReason;
use crate::content::TokenUsageView;
use crate::exec::asked;
use crate::hooks::HookEventView;
use crate::hooks::HookOutcomeView;
use crate::log::LogEventView;
use crate::model::ModelContentView;
use crate::model::ModelMessageView;
use crate::op::ReviewDecision;
use crate::permission::Verdict;
use crate::permissions::EngineView;
use crate::permissions::decision;
use crate::permissions::key_text;
use crate::permissions::kind_of;
use crate::permissions::suggestion;
use crate::providers::calls::or_text;
use crate::replay::SessionStateView;
use crate::replay::all_recalled;
use crate::replay::applied;
use crate::replay::law_blocks_are_recalled;
use crate::replay::law_results_are_recalled;
use crate::session::ActionView;
use crate::session::InputView;
use crate::session::Moved;
use crate::session::Phase;
use crate::session::ReplyView;
use crate::session::TurnEventView;
use crate::session::TurnView;
use crate::session::all_logged;
use crate::session::answered;
use crate::session::boundary;
use crate::session::checked;
use crate::session::checking;
use crate::session::closed;
use crate::session::ended;
use crate::session::engine_after;
use crate::session::engine_moved;
use crate::session::gathered;
use crate::session::hook;
use crate::session::key_of;
use crate::session::last_user_text;
use crate::session::logged_result;
use crate::session::message_of;
use crate::session::moved;
use crate::session::next_call;
use crate::session::next_step;
use crate::session::no_usage;
use crate::session::ran;
use crate::session::reply_content;
use crate::session::request_for;
use crate::session::requests_of;
use crate::session::settled;
use crate::session::told;
use crate::session::wants_snapshot;
use crate::text::decimal_of;
use crate::tools::ToolOutputView;

verus! {

/// A session's state after what is recorded among actions.
pub open spec fn recorded(s: SessionStateView, actions: Seq<ActionView>) -> SessionStateView
    decreases actions.len(),
{
    if actions.len() == 0 {
        s
    } else {
        match actions.last() {
            ActionView::Record(e) => applied(recorded(s, actions.drop_last()), e),
            _ => recorded(s, actions.drop_last()),
        }
    }
}

/// Whether the log says what there is in memory: the messages, what was granted, and
/// the mode.
pub open spec fn agrees(s: SessionStateView, m: Moved, e: EngineView) -> bool {
    let r = recorded(s, m.actions);
    &&& r.messages == m.turn.messages
    &&& r.session_grants.to_set() == e.grants
    &&& r.mode == e.mode
}

/// One more action.
proof fn lemma_one_more(s: SessionStateView, m: Moved, a: ActionView)
    ensures
        recorded(s, m.actions.push(a)) == (match a {
            ActionView::Record(e) => applied(recorded(s, m.actions), e),
            _ => recorded(s, m.actions),
        }),
{
    assert(m.actions.push(a).drop_last() =~= m.actions);
}

/// An action that records nothing of the session's state.
pub open spec fn is_quiet(a: ActionView) -> bool {
    match a {
        ActionView::Record(e) => match e {
            LogEventView::ToolCall { .. } => true,
            LogEventView::Approval { .. } => true,
            LogEventView::Checkpoint { .. } => true,
            LogEventView::TurnBoundary { .. } => true,
            _ => false,
        },
        _ => true,
    }
}

proof fn lemma_quiet(s: SessionStateView, m: Moved, a: ActionView, e: EngineView)
    requires
        is_quiet(a),
        agrees(s, m, e),
    ensures
        agrees(s, Moved { actions: m.actions.push(a), ..m }, e),
{
    lemma_one_more(s, m, a);
}

proof fn lemma_ended(
    s: SessionStateView,
    m: Moved,
    e: EngineView,
    message: Seq<char>,
    stop: StopReason,
    steps: u32,
    usage: TokenUsageView,
)
    requires
        agrees(s, m, e),
    ensures
        agrees(s, ended(m, message, stop, steps, usage), e),
{
    let a = hook(HookEventView::Notification { message });
    let b = boundary(m.turn, stop);
    let c = ActionView::Finish { stop_reason: stop, steps, usage };
    lemma_quiet(s, m, a, e);
    let m1 = Moved { actions: m.actions.push(a), ..m };
    lemma_quiet(s, m1, b, e);
    let m2 = Moved { actions: m1.actions.push(b), ..m1 };
    lemma_quiet(s, m2, c, e);
}

proof fn lemma_next_step(s: SessionStateView, m: Moved, e: EngineView, cancelled: bool)
    requires
        agrees(s, m, e),
    ensures
        agrees(s, next_step(m, cancelled), e),
{
    let t = m.turn;
    if t.steps >= t.max_steps {
        let a = ActionView::Emit(
            TurnEventView::Error("max_steps("@ + decimal_of(t.max_steps as nat) + ") 超限"@),
        );
        lemma_quiet(s, m, a, e);
        lemma_ended(
            s,
            Moved { actions: m.actions.push(a), ..m },
            e,
            Seq::empty(),
            StopReason::MaxSteps,
            t.steps,
            no_usage(),
        );
    } else if cancelled {
        lemma_ended(s, m, e, Seq::empty(), StopReason::Interrupted, t.steps, no_usage());
    } else {
        lemma_quiet(s, m, ActionView::Stream, e);
    }
}

proof fn lemma_settled(
    s: SessionStateView,
    m: Moved,
    e: EngineView,
    content: Seq<char>,
    is_error: bool,
    summary: Seq<char>,
    ms: u64,
)
    requires
        agrees(s, m, e),
    ensures
        agrees(s, settled(m, content, is_error, summary, ms), e),
{
    let c = m.turn.queue[0];
    let a = ActionView::Emit(
        TurnEventView::ToolExecEnd { call_id: c.call_id, ok: !is_error, summary },
    );
    lemma_quiet(s, m, a, e);
    let m1 = Moved { actions: m.actions.push(a), ..m };
    let r = recorded(s, m1.actions);
    let ev = LogEventView::ToolResult {
        call_id: c.call_id,
        output: logged_result(content, is_error),
        duration_ms: ms,
    };
    lemma_one_more(s, m1, ActionView::Record(ev));
    law_results_are_recalled(r, c.call_id, content, is_error, ms);
}

proof fn lemma_checking(s: SessionStateView, m: Moved, e: EngineView)
    requires
        agrees(s, m, e),
    ensures
        agrees(s, checking(m), e),
{
    let c = m.turn.queue[0];
    lemma_quiet(s, m, ActionView::CheckTool { tool: c.tool, input: c.input }, e);
}

proof fn lemma_next_call(s: SessionStateView, m: Moved, e: EngineView, cancelled: bool)
    requires
        agrees(s, m, e),
    ensures
        agrees(s, next_call(m, e, cancelled), e),
    decreases m.turn.queue.len(),
{
    let t = m.turn;
    if t.queue.len() == 0 {
        lemma_next_step(s, m, e, cancelled);
    } else {
        let c = t.queue[0];
        let a = ActionView::Record(
            LogEventView::ToolCall { call_id: c.call_id, tool: c.tool, args: c.input },
        );
        lemma_quiet(s, m, a, e);
        let m1 = Moved { actions: m.actions.push(a), ..m };
        if c.tool == "Task"@ {
            lemma_quiet(s, m1, ActionView::RunTask { input: c.input }, e);
        } else {
            match decision(e, c.tool, key_of(t, c)).verdict {
                Verdict::Deny => {
                    let text = "被权限策略拒绝(工具: "@ + c.tool + ")"@;
                    lemma_settled(s, m1, e, text, true, "权限拒绝"@, 0);
                    let m2 = settled(m1, text, true, "权限拒绝"@, 0);
                    lemma_next_call(s, m2, e, cancelled);
                },
                Verdict::Allow => {
                    if wants_snapshot(t) {
                        let b = ActionView::TakeSnapshot { path: key_of(t, c)->0->Path_path };
                        lemma_quiet(s, m1, b, e);
                    } else {
                        lemma_checking(s, m1, e);
                    }
                },
                Verdict::Ask => {
                    let b = ActionView::Emit(
                        TurnEventView::ApprovalRequest {
                            call_id: c.call_id,
                            kind: kind_of(c.tool),
                            detail: request_for(t, e),
                        },
                    );
                    lemma_quiet(s, m1, b, e);
                    let m2 = Moved { actions: m1.actions.push(b), ..m1 };
                    let d = ActionView::Ask {
                        call_id: c.call_id,
                        tool: c.tool,
                        kind: kind_of(c.tool),
                        detail: request_for(t, e),
                    };
                    lemma_quiet(s, m2, d, e);
                },
            }
        }
    }
}

proof fn lemma_closed(s: SessionStateView, m: Moved, e: EngineView, cancelled: bool)
    requires
        agrees(s, m, e),
    ensures
        agrees(s, closed(m, e, cancelled), e),
{
    let t = m.turn;
    let g = t.gathered;
    let calls = requests_of(g.calls);
    let content = message_of(g, calls);
    let ev = LogEventView::AssistantMessage {
        content: all_logged(content),
        usage: g.usage,
        turn_id: t.turn_id,
    };
    lemma_one_more(s, m, ActionView::Record(ev));
    law_blocks_are_recalled(content);
    let ma = Moved {
        turn: TurnView {
            messages: t.messages.push(ModelMessageView::Assistant { content }),
            queue: calls,
            ..t
        },
        actions: m.actions.push(ActionView::Record(ev)),
    };
    assert(agrees(s, ma, e));
    let a = ActionView::Emit(TurnEventView::ModelMessageEnd { stop_reason: g.stop_reason });
    lemma_quiet(s, ma, a, e);
    let mb = Moved { actions: ma.actions.push(a), ..ma };
    let b = ActionView::Emit(TurnEventView::Usage(g.usage));
    lemma_quiet(s, mb, b, e);
    let m1 = Moved { actions: mb.actions.push(b), ..mb };
    if calls.len() == 0 {
        let h1 = hook(HookEventView::Notification { message: g.text });
        lemma_quiet(s, m1, h1, e);
        let m2 = Moved { actions: m1.actions.push(h1), ..m1 };
        let h2 = hook(HookEventView::SessionEnd);
        lemma_quiet(s, m2, h2, e);
        let m3 = Moved { actions: m2.actions.push(h2), ..m2 };
        let h3 = hook(HookEventView::Stop);
        lemma_quiet(s, m3, h3, e);
        let m4 = Moved { actions: m3.actions.push(h3), ..m3 };
        let h4 = boundary(t, g.stop_reason);
        lemma_quiet(s, m4, h4, e);
        let m5 = Moved { actions: m4.actions.push(h4), ..m4 };
        let h5 = ActionView::Finish {
            stop_reason: g.stop_reason,
            steps: t.steps,
            usage: g.usage,
        };
        lemma_quiet(s, m5, h5, e);
    } else {
        lemma_next_call(s, m1, e, cancelled);
    }
}

proof fn lemma_ran(
    s: SessionStateView,
    m: Moved,
    e: EngineView,
    r: ReplyView,
    ms: u64,
    cancelled: bool,
)
    requires
        agrees(s, m, e),
    ensures
        agrees(s, ran(m, e, r, ms, cancelled), e),
{
    let c = m.turn.queue[0];
    let (content, is_error, summary) = reply_content(r, "[工具执行失败: "@);
    lemma_settled(s, m, e, content, is_error, summary, ms);
    let m1 = settled(m, content, is_error, summary, ms);
    let a = ActionView::Hook {
        event: HookEventView::PostToolUse { tool: c.tool },
        tool_input: Some(c.input),
    };
    lemma_quiet(s, m1, a, e);
    lemma_next_call(s, Moved { actions: m1.actions.push(a), ..m1 }, e, cancelled);
}

proof fn lemma_checked(
    s: SessionStateView,
    m: Moved,
    e: EngineView,
    o: HookOutcomeView,
    cancelled: bool,
)
    requires
        agrees(s, m, e),
    ensures
        agrees(s, checked(m, e, o, cancelled), e),
{
    let t = m.turn;
    let c = t.queue[0];
    match o {
        HookOutcomeView::Block(reason) => {
            let text = "被 hook 阻断: "@ + reason;
            lemma_settled(s, m, e, text, true, "hook 阻断"@, 0);
            lemma_next_call(s, settled(m, text, true, "hook 阻断"@, 0), e, cancelled);
        },
        HookOutcomeView::Pass => {
            let a = ActionView::Emit(TurnEventView::ToolExecBegin { call_id: c.call_id });
            lemma_quiet(s, m, a, e);
            let m1 = Moved { actions: m.actions.push(a), ..m };
            if t.tools.contains(c.tool) {
                lemma_quiet(s, m1, ActionView::Exec { tool: c.tool, input: c.input }, e);
            } else {
                let r = ReplyView::Output(
                    ToolOutputView { content: "未知工具: "@ + c.tool, is_error: true },
                );
                lemma_ran(s, m1, e, r, 0, cancelled);
            }
        },
    }
}

proof fn lemma_answered(
    s: SessionStateView,
    m: Moved,
    e: EngineView,
    d: ReviewDecision,
    cancelled: bool,
)
    requires
        agrees(s, m, e),
    ensures
        agrees(
            s,
            answered(m, engine_after(m.turn, e, d), d, cancelled),
            engine_after(m.turn, e, d),
        ),
{
    let t = m.turn;
    let c = t.queue[0];
    let a = ActionView::Emit(
        TurnEventView::ApprovalResolved { call_id: c.call_id, decision: d },
    );
    lemma_quiet(s, m, a, e);
    let ma = Moved { actions: m.actions.push(a), ..m };
    let b = ActionView::Record(
        LogEventView::Approval {
            call_id: c.call_id,
            verdict: d,
            rule_suggestion: suggestion(c.tool, key_of(t, c)),
        },
    );
    lemma_quiet(s, ma, b, e);
    let m1 = Moved { actions: ma.actions.push(b), ..ma };
    match d {
        ReviewDecision::Approve => {
            lemma_checking(s, m1, e);
        },
        ReviewDecision::ApproveForSession => match key_of(t, c) {
            Some(k) => {
                let g = LogEventView::PermissionGrant { tool: c.tool, pattern: key_text(k) };
                lemma_one_more(s, m1, ActionView::Record(g));
                let before = recorded(s, m1.actions);
                lemma_granted(before, c.tool, key_text(k));
                let m2 = Moved { actions: m1.actions.push(ActionView::Record(g)), ..m1 };
                lemma_checking(s, m2, engine_after(t, e, d));
            },
            None => {
                lemma_checking(s, m1, e);
            },
        },
        ReviewDecision::Deny => {
            let text = "用户拒绝执行(工具: "@ + c.tool + ")"@;
            lemma_settled(s, m1, e, text, true, "用户拒绝"@, 0);
            lemma_next_call(s, settled(m1, text, true, "用户拒绝"@, 0), e, cancelled);
        },
        ReviewDecision::Abort => {
            lemma_ended(
                s,
                m1,
                e,
                t.gathered.text,
                StopReason::Interrupted,
                t.steps,
                t.gathered.usage,
            );
        },
    }
}

proof fn lemma_granted(s: SessionStateView, tool: Seq<char>, pattern: Seq<char>)
    ensures
        applied(s, LogEventView::PermissionGrant { tool, pattern }).session_grants.to_set()
            == s.session_grants.to_set().insert((tool, pattern)),
{
    let g = (tool, pattern);
    let before = s.session_grants;
    let now = applied(s, LogEventView::PermissionGrant { tool, pattern }).session_grants;
    assert forall|x: (Seq<char>, Seq<char>)|
        now.to_set().contains(x) == before.to_set().insert(g).contains(x) by {
        if before.contains(x) {
            let k = choose|k: int| 0 <= k < before.len() && before[k] == x;
            assert(now[k] == x);
        }
        if x == g && !before.contains(g) {
            assert(now[now.len() - 1] == g);
        }
    }
    assert(now.to_set() =~= before.to_set().insert(g));
}

/// A session is what its log says: whatever comes in, replaying what a turn records
/// brings back the messages, the grants and the mode that it leaves in memory.
pub proof fn law_memory_is_what_the_log_says(
    s: SessionStateView,
    t: TurnView,
    e: EngineView,
    input: InputView,
    cancelled: bool,
)
    requires
        s.messages == t.messages,
        s.session_grants.to_set() == e.grants,
        s.mode == e.mode,
    ensures
        ({
            let m = moved(t, e, input, cancelled);
            let now = engine_moved(t, e, input);
            let r = recorded(s, m.actions);
            &&& r.messages == m.turn.messages
            &&& r.session_grants.to_set() == now.grants
            &&& r.mode == now.mode
        }),
{
    let m = Moved { turn: t, actions: Seq::<ActionView>::empty() };
    assert(agrees(s, m, e));
    match (t.phase, input) {
        (Phase::Ready, InputView::Start) => {
            let a = ActionView::CheckPrompt {
                text: or_text(last_user_text(t.messages), Seq::empty()),
            };
            lemma_quiet(s, m, a, e);
        },
        (Phase::Prompting, InputView::PromptChecked(o)) => match o {
            HookOutcomeView::Block(reason) => {
                let a = ActionView::Emit(
                    TurnEventView::Error("UserPromptSubmit hook 阻断: "@ + reason),
                );
                lemma_quiet(s, m, a, e);
                let m1 = Moved { actions: m.actions.push(a), ..m };
                let b = boundary(t, StopReason::Interrupted);
                lemma_quiet(s, m1, b, e);
                let m2 = Moved { actions: m1.actions.push(b), ..m1 };
                let c = ActionView::Finish {
                    stop_reason: StopReason::Interrupted,
                    steps: 0,
                    usage: no_usage(),
                };
                lemma_quiet(s, m2, c, e);
            },
            HookOutcomeView::Pass => {
                let w = ActionView::Emit(
                    TurnEventView::BackgroundEvent(
                        "⚠ 未信任项目: "@ + t.cwd
                            + "。session_start hooks 将执行,请确认项目安全。"@,
                    ),
                );
                lemma_quiet(s, m, w, e);
                let m1 = if !t.trusted && t.start_hooks {
                    Moved { actions: m.actions.push(w), ..m }
                } else {
                    m
                };
                let h = hook(HookEventView::SessionStart);
                lemma_quiet(s, m1, h, e);
                lemma_next_step(s, Moved { actions: m1.actions.push(h), ..m1 }, e, cancelled);
            },
        },
        (Phase::Streaming, InputView::Chunk(ev)) => {
            if cancelled {
                lemma_ended(
                    s,
                    m,
                    e,
                    t.gathered.text,
                    StopReason::Interrupted,
                    (t.steps - 1) as u32,
                    t.gathered.usage,
                );
            } else {
                let m1 = Moved {
                    turn: TurnView { gathered: gathered(t.gathered, ev), ..t },
                    actions: match told(ev) {
                        Some(x) => m.actions.push(ActionView::Emit(x)),
                        None => m.actions,
                    },
                };
                if let Some(x) = told(ev) {
                    lemma_quiet(s, m, ActionView::Emit(x), e);
                }
                assert(agrees(s, m1, e));
                if ev is MessageEnd {
                    lemma_closed(s, m1, e, cancelled);
                }
            }
        },
        (Phase::Streaming, InputView::StreamEnd) => {
            lemma_closed(s, m, e, cancelled);
        },
        (Phase::Streaming, InputView::Refused(err)) => {
            lemma_quiet(s, m, ActionView::Fail(err), e);
        },
        (Phase::Streaming, InputView::Broke(err)) => {
            if cancelled {
                lemma_ended(
                    s,
                    m,
                    e,
                    t.gathered.text,
                    StopReason::Interrupted,
                    (t.steps - 1) as u32,
                    t.gathered.usage,
                );
            } else {
                lemma_quiet(s, m, ActionView::Fail(err), e);
            }
        },
        (Phase::Tasking, InputView::TaskDone(r)) => {
            let (content, is_error, summary) = reply_content(r, "[子 agent 失败: "@);
            lemma_settled(s, m, e, content, is_error, summary, 0);
            lemma_next_call(s, settled(m, content, is_error, summary, 0), e, cancelled);
        },
        (Phase::Snapshotting, InputView::SnapshotTaken(x)) => match x {
            Some(x) => {
                let a = ActionView::Record(
                    LogEventView::Checkpoint {
                        checkpoint_id: x.checkpoint_id,
                        shadow_commit: x.commit,
                    },
                );
                lemma_quiet(s, m, a, e);
                lemma_checking(s, Moved { actions: m.actions.push(a), ..m }, e);
            },
            None => {
                lemma_checking(s, m, e);
            },
        },
        (Phase::Checking, InputView::ToolChecked(o)) => {
            lemma_checked(s, m, e, o, cancelled);
        },
        (Phase::Asking, InputView::Answered(d)) => {
            lemma_answered(s, m, e, d, cancelled);
        },
        (Phase::Running, InputView::ToolDone { reply, duration_ms }) => {
            lemma_ran(s, m, e, reply, duration_ms, cancelled);
        },
        _ => {},
    }
}

/// What a client asks for is in the log before the turn starts: replaying the record
/// of the user's message brings back the messages that the turn starts with.
pub proof fn law_prompts_are_recorded(s: SessionStateView, text: Seq<char>, turn_id: Seq<char>)
    ensures
        applied(
            s,
            LogEventView::UserInput { content: seq![ContentView::Text { text }], turn_id },
        ).messages == s.messages.push(asked(text)),
{
    let c = seq![ContentView::Text { text }];
    assert(all_recalled(c) =~= seq![ModelContentView::Text(text)]);
}

} // verus!
