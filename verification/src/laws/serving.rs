//! What a session that is served does with what it is sent.
use vstd::prelude::*;

use crate::config::WireApi;
use crate::content::ContentView;
use crate::content::TokenUsageView;
use crate::event::ApprovalDetailView;
use crate::event::ApprovalKind;
use crate::event::EventMsgView;
use crate::event::EventView;
use crate::event::SessionSummaryView;
use crate::laws::texts::lemma_first_at;
use crate::laws::texts::lemma_first_missing;
use crate::laws::texts::lemma_stands_in;
use crate::log::LogEventView;
use crate::log::LogLineView;
use crate::model::ModelMessage;
use crate::op::OpView;
use crate::op::SubmissionView;
use crate::op::UserInputView;
use crate::permission::PermissionMode;
use crate::permission::PermissionRuleView;
use crate::permission::RuleScope;
use crate::permissions::EngineView;
use crate::providers::registry::window_of;
use crate::replay::replayed;
use crate::server::Resumed;
use crate::server::RolledBack;
use crate::server::StoredLogView;
use crate::server::WireActionView;
use crate::server::WireSessionView;
use crate::server::after_compaction;
use crate::server::after_resume;
use crate::server::after_rollback;
use crate::server::checkpoint_in;
use crate::server::dispatched;
use crate::server::entered;
use crate::server::history_of;
use crate::server::limited;
use crate::server::served_tool;
use crate::server::summaries_in;
use crate::server::texts_of;
use crate::server::told_of;
use crate::server::turn_ended;
use crate::session::TurnEventView;
use crate::text::joined;
use crate::wire::PROTOCOL_VERSION;

verus! {

/// What a turn tells goes out as it is: text, thoughts, calls as they begin and end, requests
/// for approval, errors, and how many tokens went in and out.
pub proof fn law_turn_events_go_out(
    t: Seq<char>,
    id: Seq<char>,
    tool: Seq<char>,
    ok: bool,
    kind: ApprovalKind,
    detail: ApprovalDetailView,
    u: TokenUsageView,
)
    ensures
        told_of(TurnEventView::TextDelta(t)) == Some(EventMsgView::AgentMessageDelta { text: t }),
        told_of(TurnEventView::ThinkingDelta(t)) == Some(EventMsgView::ReasoningDelta { text: t }),
        told_of(TurnEventView::ToolCallBegin { call_id: id, tool }) == Some(
            EventMsgView::ToolCallBegin { call_id: id, tool, summary: Seq::empty() },
        ),
        told_of(TurnEventView::ToolExecEnd { call_id: id, ok, summary: t }) == Some(
            EventMsgView::ToolCallEnd { call_id: id, ok, summary: t },
        ),
        told_of(TurnEventView::ApprovalRequest { call_id: id, kind, detail }) == Some(
            EventMsgView::ApprovalRequest { call_id: id, kind, detail },
        ),
        told_of(TurnEventView::Error(t)) == Some(
            EventMsgView::Error { message: t, retryable: false },
        ),
        told_of(TurnEventView::BackgroundEvent(t)) == Some(
            EventMsgView::BackgroundEvent { message: t },
        ),
        u.input + u.output <= u64::MAX ==> told_of(TurnEventView::Usage(u)) == Some(
            EventMsgView::TokenCount { used: (u.input + u.output) as u64, window: 0 },
        ),
{
}

/// History is what the model said, message by message, each under the number of its line; what
/// lies at or before the given number is left out.
pub proof fn law_history_is_what_was_said(
    s: Seq<LogLineView>,
    l: LogLineView,
    id: Seq<char>,
    after_seq: u64,
)
    ensures
        ({
            let now = history_of(s.push(l), id, after_seq);
            let old = history_of(s, id, after_seq);
            let text = joined(texts_of(l.event->AssistantMessage_content), " "@);
            &&& !(l.event is AssistantMessage) ==> now == old
            &&& after_seq > 0 && l.seq <= after_seq ==> now == old
            &&& l.event is AssistantMessage && text.len() == 0 ==> now == old
            &&& l.event is AssistantMessage && text.len() > 0 && (after_seq == 0 || l.seq > after_seq)
                ==> now == old.push(
                EventView { id, seq: l.seq, turn: None, msg: EventMsgView::AgentMessage { text } },
            )
        }),
{
    assert(s.push(l).drop_last() =~= s);
}

/// The text of blocks is their texts with blanks between; other blocks say nothing.
pub proof fn law_texts_are_picked_out(s: Seq<ContentView>, c: ContentView)
    ensures
        texts_of(Seq::empty()) == Seq::<Seq<char>>::empty(),
        c matches ContentView::Text { text } ==> texts_of(s.push(c)) == texts_of(s).push(text),
        !(c is Text) ==> texts_of(s.push(c)) == texts_of(s),
{
    assert(s.push(c).drop_last() =~= s);
}

/// No more events are sent than were asked for; without a limit all are.
pub proof fn law_history_is_limited(s: Seq<EventView>, limit: u32)
    ensures
        limited(s, 0) == s,
        limit > 0 && s.len() > limit ==> limited(s, limit) == s.take(limit as int),
        s.len() <= limit ==> limited(s, limit) == s,
{
}

/// A checkpoint is found under its id: the first that was recorded, with the number of its
/// line.
pub proof fn law_checkpoints_are_found(
    before: Seq<LogLineView>,
    l: LogLineView,
    rest: Seq<LogLineView>,
    id: Seq<char>,
    commit: Seq<char>,
)
    requires
        forall|i: int|
            0 <= i < before.len() ==> !((#[trigger] before[i]).event matches LogEventView::Checkpoint { checkpoint_id, .. } && checkpoint_id == id),
        l.event == (LogEventView::Checkpoint { checkpoint_id: id, shadow_commit: commit }),
    ensures
        checkpoint_in(before + seq![l] + rest, id) == Some((commit, l.seq)),
        checkpoint_in(before, id) is None,
    decreases before.len(),
{
    let all = before + seq![l] + rest;
    if before.len() == 0 {
        assert(all[0] == l);
    } else {
        let t = before.drop_first();
        assert forall|i: int| 0 <= i < t.len() implies !((#[trigger] t[i]).event matches LogEventView::Checkpoint { checkpoint_id, .. } && checkpoint_id == id) by {
            assert(t[i] == before[i + 1]);
        }
        law_checkpoints_are_found(t, l, rest, id, commit);
        assert(all.drop_first() =~= t + seq![l] + rest);
        assert(all[0] == before[0]);
    }
}

/// A stored session is listed by what its log says of it and what is known of the file; a log
/// that cannot be replayed is not listed.
pub proof fn law_stored_sessions_are_listed(s: Seq<StoredLogView>, f: StoredLogView)
    ensures
        replayed(f.text) is Err ==> summaries_in(s.push(f)) == summaries_in(s),
        replayed(f.text) is Ok ==> summaries_in(s.push(f)) == summaries_in(s).push(
            SessionSummaryView {
                id: replayed(f.text)->Ok_0.id,
                parent: replayed(f.text)->Ok_0.parent,
                title: replayed(f.text)->Ok_0.title,
                cwd: replayed(f.text)->Ok_0.cwd,
                updated_at_ms: f.updated_at_ms,
                size_bytes: f.size_bytes,
            },
        ),
{
    assert(s.push(f).drop_last() =~= s);
}

/// Tools of servers are known by their full names; the agent's own are not among them.
pub proof fn law_served_tools_are_told_apart(server: Seq<char>, name: Seq<char>, own: Seq<char>)
    requires
        !server.contains('_'),
        !own.contains('_'),
    ensures
        served_tool("mcp__"@ + server + "__"@ + name) == Some((server, name)),
        served_tool(own) is None,
{
    reveal_strlit("mcp__");
    reveal_strlit("__");
    reveal_strlit("mcp");
    assert("mcp__"@.len() == 5 && "__"@.len() == 2 && "mcp"@.len() == 3);
    let rest = server + "__"@ + name;
    let all = "mcp__"@ + server + "__"@ + name;
    assert(all =~= "mcp"@ + "__"@ + rest);
    lemma_first_at("mcp"@, "__"@, rest);
    assert(all.take(3) =~= "mcp"@);
    assert(all.skip(5) =~= rest);
    lemma_first_at(server, "__"@, name);
    assert(rest.take(server.len() as int) =~= server);
    assert(rest.skip(server.len() as int + 2) =~= name);
    lemma_first_missing(own, "__"@);
}

/// What is sent changes what it is about and nothing else, and is answered under its own id:
/// the mode, the model, and the rules of the session.
pub proof fn law_settings_are_changed_and_told(
    s: WireSessionView,
    id: Seq<char>,
    mode: PermissionMode,
    model: Seq<char>,
    rule: PermissionRuleView,
    scope: RuleScope,
)
    ensures
        ({
            let (t, acts) = dispatched(
                s,
                SubmissionView { id, op: OpView::SetPermissionMode { mode } },
            );
            &&& t == (WireSessionView {
                engine: EngineView { mode, ..s.engine },
                seq: t.seq,
                ..s
            })
            &&& acts == seq![
                WireActionView::Send(
                    EventView {
                        id,
                        seq: s.seq,
                        turn: None,
                        msg: EventMsgView::PermissionModeChanged { mode },
                    },
                ),
            ]
        }),
        ({
            let (t, acts) = dispatched(s, SubmissionView { id, op: OpView::SetModel { model } });
            &&& t == (WireSessionView { model, seq: t.seq, ..s })
            &&& acts.len() == 1 && acts[0] is Send
        }),
        ({
            let (t, acts) = dispatched(
                s,
                SubmissionView { id, op: OpView::AddPermissionRule { rule, scope } },
            );
            &&& t.engine == (EngineView { rules: s.engine.rules.push(rule), ..s.engine })
            &&& t.messages == s.messages && t.queue == s.queue && t.model == s.model
            &&& acts.len() == 1 && acts[0] is Send
        }),
{
}

/// Greeting a session tells which it is, where it runs, with which model and in which mode.
pub proof fn law_greetings_are_answered(s: WireSessionView, sub: SubmissionView)
    requires
        sub.op is Hello,
    ensures
        dispatched(s, sub).1 == seq![
            WireActionView::Send(
                EventView {
                    id: sub.id,
                    seq: s.seq,
                    turn: None,
                    msg: EventMsgView::SessionConfigured {
                        protocol_version: PROTOCOL_VERSION,
                        session_id: s.session_id,
                        model: s.model,
                        permission_mode: s.engine.mode,
                        cwd: s.cwd,
                    },
                },
            ),
        ],
        dispatched(s, sub).0.seq == if s.seq == u64::MAX {
            0
        } else {
            s.seq + 1
        },
{
}

/// What needs the disk is handed on with what it needs: which history, from where and how
/// much; which checkpoint; which session, and whether as a fork; and a summary by the small
/// model, where there is one, but not while a turn runs.
pub proof fn law_requests_are_handed_on(
    s: WireSessionView,
    id: Seq<char>,
    n: u64,
    limit: u32,
    what: Seq<char>,
    fork: bool,
    sub: SubmissionView,
)
    ensures
        dispatched(s, SubmissionView { id, op: OpView::GetHistory { after_seq: n, limit } }) == (
            s,
            seq![WireActionView::ReadHistory { id, after_seq: n, limit }],
        ),
        dispatched(s, SubmissionView { id, op: OpView::ResumeEvents { after_seq: n } }) == (
            s,
            seq![WireActionView::ReadHistory { id, after_seq: n, limit: 0 }],
        ),
        dispatched(s, SubmissionView { id, op: OpView::CheckpointRollback { checkpoint_id: what } })
            == (s, seq![WireActionView::Rollback { id, checkpoint_id: what }]),
        dispatched(
            s,
            SubmissionView { id, op: OpView::ResumeSession { session_id: what, fork } },
        ) == (s, seq![WireActionView::Resume { id, session_id: what, fork }]),
        dispatched(s, SubmissionView { id, op: OpView::ListSessions }) == (
            s,
            seq![WireActionView::ListSessions { id }],
        ),
        dispatched(s, SubmissionView { id, op: OpView::Shutdown }) == (
            s,
            seq![WireActionView::Stop],
        ),
        sub.op is Compact && !s.running ==> dispatched(s, sub) == (
            s,
            seq![
                WireActionView::Compact {
                    id: sub.id,
                    model: match s.small_model {
                        Some(m) => m,
                        None => s.model,
                    },
                },
            ],
        ),
        sub.op is Compact && s.running ==> dispatched(s, sub).1.len() == 1 && (dispatched(
            s,
            sub,
        ).1[0] matches WireActionView::Send(e) && e.msg is Error),
{
}

/// A turn starts at once where none runs, and waits where one does; the next in line starts
/// when it is over.
pub proof fn law_turns_start_in_order(s: WireSessionView, sub: SubmissionView, next: SubmissionView)
    requires
        sub.op is UserTurn,
    ensures
        !s.running ==> dispatched(s, sub) == (
            WireSessionView { running: true, ..s },
            seq![WireActionView::StartTurn(sub)],
        ),
        s.running ==> dispatched(s, sub) == (
            WireSessionView { queue: s.queue.push(sub), ..s },
            Seq::<WireActionView>::empty(),
        ),
        s.running && s.queue.len() > 0 && s.queue[0] == next ==> turn_ended(s) == (
            WireSessionView { queue: s.queue.drop_first(), ..s },
            seq![WireActionView::StartTurn(next)],
        ),
        s.queue.len() == 0 ==> turn_ended(s) == (
            WireSessionView { running: false, ..s },
            Seq::<WireActionView>::empty(),
        ),
{
}

/// An interrupt cancels what runs; what waits is dropped only if that is asked for.
pub proof fn law_interrupts_cancel(s: WireSessionView, id: Seq<char>, abandon_queued: bool)
    ensures
        ({
            let (t, acts) = dispatched(
                s,
                SubmissionView { id, op: OpView::Interrupt { abandon_queued } },
            );
            &&& acts.contains(WireActionView::Cancel) <==> s.running
            &&& !abandon_queued ==> t == s
            &&& abandon_queued ==> t == (WireSessionView { queue: Seq::empty(), ..s })
        }),
{
    let (t, acts) = dispatched(
        s,
        SubmissionView { id, op: OpView::Interrupt { abandon_queued } },
    );
    if s.running {
        assert(acts[0] == WireActionView::Cancel);
    }
}

/// What the user enters is the texts of the input with blanks between; other input says
/// nothing.
pub proof fn law_entered_texts_are_picked_out(s: Seq<UserInputView>, u: UserInputView)
    ensures
        entered(Seq::empty()) == Seq::<Seq<char>>::empty(),
        u matches UserInputView::Text { text } ==> entered(s.push(u)) == entered(s).push(text),
        !(u is Text) ==> entered(s.push(u)) == entered(s),
{
    assert(s.push(u).drop_last() =~= s);
}

/// A session that is taken up again goes on with the messages of the log, under its id; one
/// that cannot be stays as it was, and an error is told.
pub proof fn law_sessions_are_taken_up(s: WireSessionView, r: Resumed)
    ensures
        ({
            let (t, msg) = after_resume(s, r);
            &&& r matches Resumed::Done { session_id, messages } ==> t == (WireSessionView {
                session_id: session_id.deep_view(),
                messages: messages.deep_view(),
                ..s
            }) && msg is SessionConfigured
            &&& !(r is Done) ==> t == s && msg is Error
        }),
{
}

/// Going back to a checkpoint brings back the messages of that time, and compacting puts the
/// shorter conversation in place; where either fails, nothing changes and an error is told.
pub proof fn law_going_back_and_compacting(
    s: WireSessionView,
    id: Seq<char>,
    r: RolledBack,
    c: Result<Vec<ModelMessage>, String>,
)
    ensures
        ({
            let (t, msg) = after_rollback(s, id, r);
            &&& r is Done && r->Done_0 is Some ==> t == (WireSessionView {
                messages: r->Done_0->0.deep_view(),
                ..s
            })
            &&& r is Done && r->Done_0 is None ==> t == s
            &&& r is Done ==> msg is BackgroundEvent
            &&& !(r is Done) ==> t == s && msg is Error
        }),
        ({
            let (t, msg) = after_compaction(s, c);
            &&& c matches Ok(v) ==> t == (WireSessionView { messages: v.deep_view(), ..s }) && msg is BackgroundEvent
            &&& c is Err ==> t == s && msg is Error
        }),
{
}

/// A context holds 128000 tokens for one family of models and 200000 for any other, in the
/// messages format.
pub proof fn law_windows_go_by_model(a: Seq<char>, b: Seq<char>, model: Seq<char>)
    ensures
        window_of(WireApi::Anthropic, a + "glm"@ + b) == 128000,
        !model.contains('g') ==> window_of(WireApi::Anthropic, model) == 200000,
{
    reveal_strlit("glm");
    lemma_stands_in(a, "glm"@, b);
    if !model.contains('g') {
        lemma_first_missing(model, "glm"@);
    }
}

} // verus!
