//! What holds of a turn from its start to its end.
use vstd::prelude::*;

use crate::compact::compacted;
use crate::compact::said;
use crate::content::ContentView;
use crate::content::StopReason;
use crate::log::LogEventView;
use crate::model::ModelContentView;
use crate::model::ModelMessageView;
use crate::op::ReviewDecision;
use crate::permission::Verdict;
use crate::permissions::EngineView;
use crate::permissions::decision;
use crate::rebuild::law_memory_is_what_the_log_says;
use crate::rebuild::recorded;
use crate::replay::SessionStateView;
use crate::replay::applied;
use crate::session::ActionView;
use crate::session::GatheredView;
use crate::session::InputView;
use crate::session::Moved;
use crate::session::Phase;
use crate::session::ToolRequestView;
use crate::session::TurnEventView;
use crate::session::TurnView;
use crate::session::all_logged;
use crate::session::answers_calls;
use crate::session::call_blocks;
use crate::session::closed;
use crate::session::engine_moved;
use crate::session::gathered;
use crate::session::key_of;
use crate::session::law_calls_are_answered_in_order;
use crate::session::law_runs_only_what_was_checked;
use crate::session::lemma_moved_inv;
use crate::session::lemma_next_call;
use crate::session::lemma_next_call_inv;
use crate::session::message_of;
use crate::session::moved;
use crate::session::next_call;
use crate::session::requests_of;
use crate::session::runs_nothing;
use crate::session::settled;
use crate::session::told;
use crate::session::turn_inv;

verus! {

// ---- a run ----

/// A turn and the permissions after all that came in. With each thing that came in
/// stands whether the turn had been cancelled by then.
pub open spec fn run_of(t: TurnView, e: EngineView, inputs: Seq<(InputView, bool)>) -> (
    TurnView,
    EngineView,
)
    decreases inputs.len(),
{
    if inputs.len() == 0 {
        (t, e)
    } else {
        let (t1, e1) = run_of(t, e, inputs.drop_last());
        let (input, cancelled) = inputs.last();
        (moved(t1, e1, input, cancelled).turn, engine_moved(t1, e1, input))
    }
}

/// What is done for the `k`-th thing that came in.
pub open spec fn done_at(
    t: TurnView,
    e: EngineView,
    inputs: Seq<(InputView, bool)>,
    k: int,
) -> Seq<ActionView> {
    let (t1, e1) = run_of(t, e, inputs.take(k));
    moved(t1, e1, inputs[k].0, inputs[k].1).actions
}

proof fn lemma_run_next(t: TurnView, e: EngineView, inputs: Seq<(InputView, bool)>, k: int)
    requires
        0 <= k < inputs.len(),
    ensures
        ({
            let (t1, e1) = run_of(t, e, inputs.take(k));
            run_of(t, e, inputs.take(k + 1)) == (
                moved(t1, e1, inputs[k].0, inputs[k].1).turn,
                engine_moved(t1, e1, inputs[k].0),
            )
        }),
{
    assert(inputs.take(k + 1).drop_last() =~= inputs.take(k));
}

proof fn lemma_run_inv(t: TurnView, e: EngineView, inputs: Seq<(InputView, bool)>)
    requires
        turn_inv(t),
    ensures
        turn_inv(run_of(t, e, inputs).0),
    decreases inputs.len(),
{
    if inputs.len() > 0 {
        lemma_run_inv(t, e, inputs.drop_last());
        let (t1, e1) = run_of(t, e, inputs.drop_last());
        lemma_moved_inv(t1, e1, inputs.last().0, inputs.last().1);
    }
}

// ---- answers ----

/// The calls that a message asks for, in order.
pub open spec fn calls_in(s: Seq<ModelContentView>) -> Seq<Seq<char>>
    decreases s.len(),
{
    if s.len() == 0 {
        Seq::empty()
    } else {
        match s.last() {
            ModelContentView::ToolUse { call_id, .. } => calls_in(s.drop_last()).push(call_id),
            _ => calls_in(s.drop_last()),
        }
    }
}

/// The calls that are not answered yet where a turn has added these messages. There
/// are none of which this can be said, where a message of the model comes before all
/// calls of the one before are answered, or where a result answers another call than
/// the first that waits.
pub open spec fn waiting(s: Seq<ModelMessageView>) -> Option<Seq<Seq<char>>>
    decreases s.len(),
{
    if s.len() == 0 {
        Some(Seq::empty())
    } else {
        match (waiting(s.drop_last()), s.last()) {
            (Some(w), ModelMessageView::Assistant { content }) => if w.len() == 0 {
                Some(calls_in(content))
            } else {
                None
            },
            (Some(w), ModelMessageView::ToolResult { call_id, .. }) => if w.len() > 0 && w[0]
                == call_id {
                Some(w.drop_first())
            } else {
                None
            },
            _ => None,
        }
    }
}

/// The ids of calls.
pub open spec fn ids_of(s: Seq<ToolRequestView>) -> Seq<Seq<char>> {
    Seq::new(s.len(), |i: int| s[i].call_id)
}

/// Whether a turn has left the messages that it began with as they were, and of the
/// calls in those that it added exactly the ones in its queue are not answered.
pub open spec fn keeps_up(base: Seq<ModelMessageView>, t: TurnView) -> bool {
    &&& base.is_prefix_of(t.messages)
    &&& waiting(t.messages.skip(base.len() as int)) == Some(ids_of(t.queue))
}

/// Whether a turn that is not at a call has none in its queue.
spec fn is_clean(t: TurnView) -> bool {
    t.phase == Phase::Ready || t.phase == Phase::Prompting || t.phase == Phase::Streaming
        ==> t.queue.len() == 0
}

proof fn lemma_one_more(base: Seq<ModelMessageView>, s: Seq<ModelMessageView>, x: ModelMessageView)
    requires
        base.is_prefix_of(s),
    ensures
        base.is_prefix_of(s.push(x)),
        s.push(x).skip(base.len() as int) == s.skip(base.len() as int).push(x),
        s.push(x).skip(base.len() as int).drop_last() == s.skip(base.len() as int),
{
    let n = base.len() as int;
    assert(s.push(x).subrange(0, n) =~= s.subrange(0, n));
    assert(s.push(x).skip(n) =~= s.skip(n).push(x));
    assert(s.skip(n).push(x).drop_last() =~= s.skip(n));
}

proof fn lemma_answers_keep(base: Seq<ModelMessageView>, a: TurnView, b: TurnView)
    requires
        keeps_up(base, a),
        answers_calls(a, b),
    ensures
        keeps_up(base, b),
    decreases a.queue.len() - b.queue.len(),
{
    let k = a.queue.len() - b.queue.len();
    let n = a.messages.len() as int;
    if k == 0 {
        assert(b.messages.take(n) =~= b.messages);
        assert(a.queue.skip(0) =~= a.queue);
    } else {
        let c = TurnView { messages: b.messages.drop_last(), queue: a.queue.skip(k - 1), ..b };
        assert(c.messages.take(n) =~= b.messages.take(n));
        assert forall|i: int| 0 <= i < k - 1 implies (
        #[trigger] c.messages[n + i] matches ModelMessageView::ToolResult {
            call_id,
            content,
            is_error,
        } && call_id == a.queue[i].call_id) by {
            assert(b.messages[n + i] is ToolResult);
        }
        lemma_answers_keep(base, a, c);
        let x = b.messages[n + (k - 1)];
        assert(x is ToolResult);
        assert(b.messages =~= c.messages.push(x));
        lemma_one_more(base, c.messages, x);
        assert(ids_of(c.queue)[0] == a.queue[k - 1].call_id);
        assert(ids_of(c.queue).drop_first() =~= ids_of(b.queue)) by {
            assert(b.queue =~= c.queue.drop_first());
        }
    }
}

proof fn lemma_calls_in_blocks(s: Seq<ModelContentView>, calls: Seq<ToolRequestView>, n: int)
    requires
        0 <= n <= calls.len(),
        calls_in(s) == Seq::<Seq<char>>::empty(),
    ensures
        calls_in(s + call_blocks(calls).take(n)) == ids_of(calls).take(n),
    decreases n,
{
    let all = call_blocks(calls);
    if n == 0 {
        assert(s + all.take(0) =~= s);
        assert(ids_of(calls).take(0) =~= Seq::<Seq<char>>::empty());
    } else {
        lemma_calls_in_blocks(s, calls, n - 1);
        assert((s + all.take(n)).drop_last() =~= s + all.take(n - 1));
        assert((s + all.take(n)).last() == all[n - 1]);
        assert(ids_of(calls).take(n) =~= ids_of(calls).take(n - 1).push(calls[n - 1].call_id));
    }
}

proof fn lemma_calls_in_message(g: GatheredView, calls: Seq<ToolRequestView>)
    ensures
        calls_in(message_of(g, calls)) == ids_of(calls),
{
    let all = call_blocks(calls);
    let none = Seq::<ModelContentView>::empty();
    assert(all.take(calls.len() as int) =~= all);
    assert(ids_of(calls).take(calls.len() as int) =~= ids_of(calls));
    let think = ModelContentView::Thinking { text: g.thinking, signature: None };
    let text = ModelContentView::Text(g.text);
    assert(calls_in(none) == Seq::<Seq<char>>::empty());
    assert(seq![think].drop_last() =~= none);
    assert(seq![text].drop_last() =~= none);
    assert((seq![think] + seq![text]).drop_last() =~= seq![think]);
    assert(calls_in(seq![think]) == Seq::<Seq<char>>::empty());
    assert(calls_in(seq![text]) == Seq::<Seq<char>>::empty());
    assert(calls_in(seq![think] + seq![text]) == Seq::<Seq<char>>::empty());
    lemma_calls_in_blocks(none, calls, calls.len() as int);
    lemma_calls_in_blocks(seq![think], calls, calls.len() as int);
    lemma_calls_in_blocks(seq![text], calls, calls.len() as int);
    lemma_calls_in_blocks(seq![think] + seq![text], calls, calls.len() as int);
    assert(none + all =~= all);
    let m = message_of(g, calls);
    assert(m =~= none + all || m =~= seq![think] + all || m =~= seq![text] + all || m =~= seq![
        think,
    ] + seq![text] + all);
}

proof fn lemma_closed_keeps(base: Seq<ModelMessageView>, m: Moved, e: EngineView, cancelled: bool)
    requires
        m.turn.steps <= m.turn.max_steps,
        m.turn.queue.len() == 0,
        keeps_up(base, m.turn),
    ensures
        ({
            let n = closed(m, e, cancelled).turn;
            keeps_up(base, n) && is_clean(n) && (n.phase == Phase::Done ==> n.queue.len() == 0)
        }),
{
    let t = m.turn;
    let g = t.gathered;
    let calls = requests_of(g.calls);
    let content = message_of(g, calls);
    let x = ModelMessageView::Assistant { content };
    lemma_calls_in_message(g, calls);
    lemma_one_more(base, t.messages, x);
    assert(ids_of(t.queue) =~= Seq::<Seq<char>>::empty());
    let t1 = TurnView { messages: t.messages.push(x), queue: calls, ..t };
    assert(keeps_up(base, t1));
    let actions = m.actions.push(
        ActionView::Record(
            LogEventView::AssistantMessage {
                content: all_logged(content),
                usage: g.usage,
                turn_id: t.turn_id,
            },
        ),
    ).push(
        ActionView::Emit(TurnEventView::ModelMessageEnd { stop_reason: g.stop_reason }),
    ).push(ActionView::Emit(TurnEventView::Usage(g.usage)));
    let m1 = Moved { turn: t1, actions };
    if calls.len() > 0 {
        lemma_next_call(m1, e, cancelled);
        lemma_answers_keep(base, t1, next_call(m1, e, cancelled).turn);
    }
}

/// Whether what is done ends a turn for another reason than that it was interrupted.
pub open spec fn ends_freely(s: Seq<ActionView>) -> bool {
    s.len() > 0 && (s.last() matches ActionView::Finish { stop_reason, steps, usage }
        && stop_reason != StopReason::Interrupted)
}

#[verifier::rlimit(60)]
proof fn lemma_step_keeps(
    base: Seq<ModelMessageView>,
    t: TurnView,
    e: EngineView,
    input: InputView,
    cancelled: bool,
)
    requires
        turn_inv(t),
        keeps_up(base, t),
        is_clean(t),
    ensures
        ({
            let n = moved(t, e, input, cancelled);
            &&& keeps_up(base, n.turn)
            &&& is_clean(n.turn)
            &&& ends_freely(n.actions) ==> n.turn.queue.len() == 0
        }),
{
    let m = Moved { turn: t, actions: Seq::<ActionView>::empty() };
    let n = moved(t, e, input, cancelled);
    assert forall|x: Moved, e2: EngineView|
        x.turn.steps <= x.turn.max_steps implies is_clean(
        (#[trigger] next_call(x, e2, cancelled)).turn,
    ) && (ends_freely(next_call(x, e2, cancelled).actions) && next_call(
        x,
        e2,
        cancelled,
    ).turn.phase == Phase::Done ==> next_call(x, e2, cancelled).turn.queue.len() == 0) && (next_call(
        x,
        e2,
        cancelled,
    ).turn.phase != Phase::Done ==> !ends_freely(next_call(x, e2, cancelled).actions)) by {
        lemma_next_call(x, e2, cancelled);
        lemma_waiting_ends_nothing(x, e2, cancelled);
    }
    if t.phase == Phase::Streaming {
        match input {
            InputView::Chunk(ev) => {
                if !cancelled && ev is MessageEnd {
                    let m1 = Moved {
                        turn: TurnView { gathered: gathered(t.gathered, ev), ..t },
                        actions: match told(ev) {
                            Some(x) => m.actions.push(ActionView::Emit(x)),
                            None => m.actions,
                        },
                    };
                    lemma_closed_keeps(base, m1, e, cancelled);
                }
            },
            InputView::StreamEnd => lemma_closed_keeps(base, m, e, cancelled),
            _ => {},
        }
    } else {
        law_calls_are_answered_in_order(t, e, input, cancelled);
        lemma_answers_keep(base, t, n.turn);
    }
}

proof fn lemma_waiting_ends_nothing(m: Moved, e: EngineView, cancelled: bool)
    ensures
        next_call(m, e, cancelled).turn.phase != Phase::Done ==> !ends_freely(
            next_call(m, e, cancelled).actions,
        ),
    decreases m.turn.queue.len(),
{
    let t = m.turn;
    if t.queue.len() > 0 {
        lemma_waiting_ends_nothing(denied(m), e, cancelled);
    }
}

/// From its start to its end, a turn leaves the messages that it began with as they
/// were. In those that it adds, the calls of each message of the model are answered by
/// one result each, in the order in which they were asked for, before the next message
/// of the model, and there is no other result. What is not answered yet is in the
/// queue; a turn that ends has answered all, unless it was interrupted.
pub proof fn law_runs_answer_all_calls(
    t: TurnView,
    e: EngineView,
    inputs: Seq<(InputView, bool)>,
)
    requires
        turn_inv(t),
        t.phase == Phase::Ready,
        t.queue.len() == 0,
    ensures
        ({
            let after = run_of(t, e, inputs).0;
            &&& t.messages.is_prefix_of(after.messages)
            &&& waiting(after.messages.skip(t.messages.len() as int)) == Some(ids_of(after.queue))
            &&& inputs.len() > 0 && ends_freely(done_at(t, e, inputs, inputs.len() - 1)) ==> waiting(
                after.messages.skip(t.messages.len() as int),
            ) == Some(Seq::<Seq<char>>::empty())
        }),
{
    lemma_run_keeps(t, e, inputs);
    let after = run_of(t, e, inputs).0;
    if inputs.len() > 0 {
        assert(inputs.take(inputs.len() - 1) =~= inputs.drop_last());
        if after.queue.len() == 0 {
            assert(ids_of(after.queue) =~= Seq::<Seq<char>>::empty());
        }
    }
}

proof fn lemma_run_keeps(t: TurnView, e: EngineView, inputs: Seq<(InputView, bool)>)
    requires
        turn_inv(t),
        t.phase == Phase::Ready,
        t.queue.len() == 0,
    ensures
        keeps_up(t.messages, run_of(t, e, inputs).0),
        is_clean(run_of(t, e, inputs).0),
        inputs.len() > 0 && ends_freely(done_at(t, e, inputs, inputs.len() - 1)) ==> run_of(
            t,
            e,
            inputs,
        ).0.queue.len() == 0,
    decreases inputs.len(),
{
    if inputs.len() == 0 {
        assert(t.messages.subrange(0, t.messages.len() as int) =~= t.messages);
        assert(t.messages.skip(t.messages.len() as int) =~= Seq::<ModelMessageView>::empty());
        assert(ids_of(t.queue) =~= Seq::<Seq<char>>::empty());
    } else {
        let rest = inputs.drop_last();
        assert(inputs.take(inputs.len() - 1) =~= rest);
        lemma_run_keeps(t, e, rest);
        lemma_run_inv(t, e, rest);
        let (t1, e1) = run_of(t, e, rest);
        lemma_step_keeps(t.messages, t1, e1, inputs.last().0, inputs.last().1);
    }
}

// ---- the log ----

/// All that is done in a run, in order.
pub open spec fn all_done(t: TurnView, e: EngineView, inputs: Seq<(InputView, bool)>) -> Seq<
    ActionView,
>
    decreases inputs.len(),
{
    if inputs.len() == 0 {
        Seq::empty()
    } else {
        let (t1, e1) = run_of(t, e, inputs.drop_last());
        all_done(t, e, inputs.drop_last()) + moved(
            t1,
            e1,
            inputs.last().0,
            inputs.last().1,
        ).actions
    }
}

proof fn lemma_recorded_sum(s: SessionStateView, a: Seq<ActionView>, b: Seq<ActionView>)
    ensures
        recorded(s, a + b) == recorded(recorded(s, a), b),
    decreases b.len(),
{
    if b.len() == 0 {
        assert(a + b =~= a);
    } else {
        assert((a + b).drop_last() =~= a + b.drop_last());
        lemma_recorded_sum(s, a, b.drop_last());
    }
}

/// A session is what its log says at every point of a run: replaying all that was
/// recorded brings back the messages, the grants and the mode that are in memory.
pub proof fn law_log_brings_back_a_run(
    s: SessionStateView,
    t: TurnView,
    e: EngineView,
    inputs: Seq<(InputView, bool)>,
)
    requires
        s.messages == t.messages,
        s.session_grants.to_set() == e.grants,
        s.mode == e.mode,
    ensures
        ({
            let (t1, e1) = run_of(t, e, inputs);
            let r = recorded(s, all_done(t, e, inputs));
            &&& r.messages == t1.messages
            &&& r.session_grants.to_set() == e1.grants
            &&& r.mode == e1.mode
        }),
    decreases inputs.len(),
{
    if inputs.len() > 0 {
        let rest = inputs.drop_last();
        law_log_brings_back_a_run(s, t, e, rest);
        let (t1, e1) = run_of(t, e, rest);
        let (input, cancelled) = inputs.last();
        let now = recorded(s, all_done(t, e, rest));
        law_memory_is_what_the_log_says(now, t1, e1, input, cancelled);
        lemma_recorded_sum(s, all_done(t, e, rest), moved(t1, e1, input, cancelled).actions);
    }
}

/// The same state with other messages.
spec fn with_messages(s: SessionStateView, m: Seq<ModelMessageView>) -> SessionStateView {
    SessionStateView { messages: m, ..s }
}

/// What is recorded adds messages behind those that there are, whichever these are.
proof fn lemma_recorded_behind(
    s: SessionStateView,
    m: Seq<ModelMessageView>,
    actions: Seq<ActionView>,
)
    ensures
        ({
            let none = recorded(with_messages(s, Seq::empty()), actions);
            recorded(with_messages(s, m), actions) == with_messages(none, m + none.messages)
        }),
    decreases actions.len(),
{
    if actions.len() == 0 {
        assert(m + Seq::<ModelMessageView>::empty() =~= m);
    } else {
        lemma_recorded_behind(s, m, actions.drop_last());
        let none = recorded(with_messages(s, Seq::empty()), actions.drop_last());
        match actions.last() {
            ActionView::Record(e) => {
                let a = applied(none, e);
                let b = applied(with_messages(none, m + none.messages), e);
                assert(b.messages =~= m + a.messages);
            },
            _ => {},
        }
    }
}

/// What replay gives for a log that holds a compaction. The compaction itself is passed
/// over: replay brings back the whole conversation, and behind it all that was said
/// later. In memory a summary stands for all but the last `keep` messages of the
/// conversation, and from there on the messages are the same. Grants and mode are the
/// same in both.
pub proof fn law_replay_keeps_what_was_compacted(
    s: SessionStateView,
    keep: nat,
    summary: Seq<char>,
    covers_through_seq: u64,
    t: TurnView,
    e: EngineView,
    inputs: Seq<(InputView, bool)>,
)
    requires
        keep < s.messages.len(),
        t.messages == compacted(s.messages, keep, summary),
        s.session_grants.to_set() == e.grants,
        s.mode == e.mode,
    ensures
        ({
            let c = LogEventView::Compaction {
                summary: seq![ContentView::Text { text: summary }],
                covers_through_seq,
            };
            let (t1, e1) = run_of(t, e, inputs);
            let r = recorded(applied(s, c), all_done(t, e, inputs));
            &&& applied(s, c) == s
            &&& s.messages.is_prefix_of(r.messages)
            &&& t1.messages.len() > 0
            &&& t1.messages[0] == said(summary)
            &&& t1.messages.skip(1) == r.messages.skip(s.messages.len() - keep)
            &&& r.session_grants.to_set() == e1.grants
            &&& r.mode == e1.mode
        }),
{
    let m = s.messages;
    let short = t.messages;
    let actions = all_done(t, e, inputs);
    let (t1, e1) = run_of(t, e, inputs);
    law_log_brings_back_a_run(with_messages(s, short), t, e, inputs);
    lemma_recorded_behind(s, short, actions);
    lemma_recorded_behind(s, m, actions);
    assert(with_messages(s, m) == s);
    let new = recorded(with_messages(s, Seq::empty()), actions).messages;
    let r = recorded(s, actions);
    assert(r.messages == m + new);
    assert(t1.messages == short + new);
    assert(m =~= r.messages.subrange(0, m.len() as int));
    assert(short =~= seq![said(summary)] + m.skip(m.len() - keep));
    assert(t1.messages.skip(1) =~= r.messages.skip(m.len() - keep));
}

// ---- one call ----

/// What is done about a call that the permissions deny.
pub open spec fn denied(m: Moved) -> Moved {
    let c = m.turn.queue[0];
    settled(
        Moved {
            actions: m.actions.push(
                ActionView::Record(
                    LogEventView::ToolCall { call_id: c.call_id, tool: c.tool, args: c.input },
                ),
            ),
            ..m
        },
        "被权限策略拒绝(工具: "@ + c.tool + ")"@,
        true,
        "权限拒绝"@,
        0,
    )
}

/// Whether nobody is asked.
pub open spec fn asks_nothing(s: Seq<ActionView>) -> bool {
    forall|i: int| 0 <= i < s.len() ==> !(#[trigger] s[i] is Ask)
}

/// Whether somebody is asked once, at last, and about the first of some calls.
pub open spec fn asks_about_first(s: Seq<ActionView>, q: Seq<ToolRequestView>) -> bool {
    &&& s.len() > 0 && q.len() > 0
    &&& asks_nothing(s.drop_last())
    &&& s.last() matches ActionView::Ask { call_id, tool, kind, detail } && call_id == q[0].call_id
        && tool == q[0].tool
}

proof fn lemma_next_call_asks(m: Moved, e: EngineView, cancelled: bool)
    requires
        asks_nothing(m.actions),
    ensures
        ({
            let n = next_call(m, e, cancelled);
            &&& n.turn.phase == Phase::Asking ==> asks_about_first(n.actions, n.turn.queue)
            &&& n.turn.phase != Phase::Asking ==> asks_nothing(n.actions)
            &&& n.turn.queue.len() <= m.turn.queue.len()
        }),
    decreases m.turn.queue.len(),
{
    let t = m.turn;
    if t.queue.len() > 0 {
        let c = t.queue[0];
        assert(asks_nothing(denied(m).actions));
        lemma_next_call_asks(denied(m), e, cancelled);
        let n = next_call(m, e, cancelled);
        if n.turn.phase == Phase::Asking && n.turn.queue == t.queue {
            assert(asks_nothing(n.actions.drop_last()));
        }
    }
}

/// Whoever approves is asked about a call when it is taken up, and about no other: at
/// most once in a step, at last, and only about the call that is then waited for.
/// Where a call was already being dealt with, it is over by then.
#[verifier::rlimit(60)]
pub proof fn law_asked_about_what_is_next(
    t: TurnView,
    e: EngineView,
    input: InputView,
    cancelled: bool,
)
    requires
        turn_inv(t),
    ensures
        ({
            let n = moved(t, e, input, cancelled);
            ||| asks_nothing(n.actions)
            ||| {
                &&& n.turn.phase == Phase::Asking
                &&& asks_about_first(n.actions, n.turn.queue)
                &&& t.phase != Phase::Streaming ==> n.turn.queue.len() < t.queue.len()
            }
        }),
{
    assert forall|x: Moved, e2: EngineView| asks_nothing(x.actions) implies ({
        let n = #[trigger] next_call(x, e2, cancelled);
        &&& n.turn.phase == Phase::Asking ==> asks_about_first(n.actions, n.turn.queue)
        &&& n.turn.phase != Phase::Asking ==> asks_nothing(n.actions)
        &&& n.turn.queue.len() <= x.turn.queue.len()
    }) by {
        lemma_next_call_asks(x, e2, cancelled);
    }
}

/// Whether the user approves.
pub open spec fn approves(input: InputView) -> bool {
    input == InputView::Answered(ReviewDecision::Approve) || input == InputView::Answered(
        ReviewDecision::ApproveForSession,
    )
}

/// Whether the call that a turn is at stays the one that it is at, up to the `k`-th
/// thing that comes in.
pub open spec fn stays(t: TurnView, e: EngineView, inputs: Seq<(InputView, bool)>, k: int) -> bool {
    forall|i: int|
        0 <= i <= k ==> (#[trigger] run_of(t, e, inputs.take(i))).0.queue == t.queue
}

proof fn lemma_needs_leave(t: TurnView, e: EngineView, inputs: Seq<(InputView, bool)>, k: int)
    requires
        turn_inv(t),
        t.phase == Phase::Asking,
        0 <= k <= inputs.len(),
        stays(t, e, inputs, k),
        forall|i: int| 0 <= i < k ==> !approves(#[trigger] inputs[i].0),
    ensures
        run_of(t, e, inputs.take(k)).0.phase == Phase::Asking || run_of(
            t,
            e,
            inputs.take(k),
        ).0.phase == Phase::Done,
    decreases k,
{
    if k > 0 {
        assert(stays(t, e, inputs, k - 1));
        lemma_needs_leave(t, e, inputs, k - 1);
        lemma_run_inv(t, e, inputs.take(k - 1));
        lemma_run_next(t, e, inputs, k - 1);
        let (t1, e1) = run_of(t, e, inputs.take(k - 1));
        let (input, cancelled) = inputs[k - 1];
        assert(!approves(inputs[k - 1].0));
        assert(run_of(t, e, inputs.take(k - 1)).0.queue == t.queue);
        assert(run_of(t, e, inputs.take(k)).0.queue == t.queue);
        if t1.phase == Phase::Asking && input == InputView::Answered(ReviewDecision::Deny) {
            lemma_denied_is_over(t1, e1, cancelled);
        }
    }
}

proof fn lemma_denied_is_over(t: TurnView, e: EngineView, cancelled: bool)
    requires
        turn_inv(t),
        t.phase == Phase::Asking,
    ensures
        moved(
            t,
            e,
            InputView::Answered(ReviewDecision::Deny),
            cancelled,
        ).turn.queue.len() < t.queue.len(),
{
    assert forall|x: Moved, e2: EngineView| (
    #[trigger] next_call(x, e2, cancelled)).turn.queue.len() <= x.turn.queue.len() by {
        lemma_next_call_shorter(x, e2, cancelled);
    }
}

proof fn lemma_next_call_shorter(m: Moved, e: EngineView, cancelled: bool)
    ensures
        next_call(m, e, cancelled).turn.queue.len() <= m.turn.queue.len(),
    decreases m.turn.queue.len(),
{
    if m.turn.queue.len() > 0 {
        lemma_next_call_shorter(denied(m), e, cancelled);
    }
}

/// What becomes of a call, by what the permissions say when its turn comes. Denied, it
/// gets a result that is an error, and nobody is asked and nothing is run for it. Where
/// they say to ask, one request is made, for this call, and while it is dealt with there
/// is no other; it is run only after the user has approved. Allowed, it is dealt with
/// and nobody is asked about it. (Tasks are not decided by permissions.)
pub proof fn law_calls_follow_their_verdict(
    m: Moved,
    e: EngineView,
    cancelled: bool,
    inputs: Seq<(InputView, bool)>,
    k: int,
)
    requires
        m.turn.steps <= m.turn.max_steps,
        m.turn.queue.len() > 0,
        m.turn.queue[0].tool != "Task"@,
        0 <= k < inputs.len(),
    ensures
        ({
            let c = m.turn.queue[0];
            let n = next_call(m, e, cancelled);
            let added = n.actions.skip(m.actions.len() as int);
            let later = done_at(n.turn, e, inputs, k);
            let over = run_of(n.turn, e, inputs.take(k + 1)).0.queue.len() < n.turn.queue.len();
            match decision(e, c.tool, key_of(m.turn, c)).verdict {
                Verdict::Deny => {
                    let d = denied(m);
                    &&& n == next_call(d, e, cancelled)
                    &&& d.turn.queue == m.turn.queue.drop_first()
                    &&& d.turn.messages.len() == m.turn.messages.len() + 1
                    &&& d.turn.messages.last() matches ModelMessageView::ToolResult {
                        call_id,
                        content,
                        is_error,
                    } && call_id == c.call_id && is_error
                    &&& asks_nothing(d.actions.skip(m.actions.len() as int))
                    &&& runs_nothing(d.actions.skip(m.actions.len() as int))
                },
                Verdict::Ask => {
                    &&& n.turn.queue == m.turn.queue
                    &&& n.turn.phase == Phase::Asking
                    &&& asks_about_first(added, m.turn.queue)
                    &&& runs_nothing(added)
                    &&& stays(n.turn, e, inputs, k) ==> asks_nothing(later) || over
                    &&& stays(n.turn, e, inputs, k) && !runs_nothing(later) ==> exists|i: int|
                        0 <= i < k && approves(#[trigger] inputs[i].0)
                },
                Verdict::Allow => {
                    &&& n.turn.queue == m.turn.queue
                    &&& n.turn.phase == Phase::Checking || n.turn.phase == Phase::Snapshotting
                    &&& asks_nothing(added)
                    &&& runs_nothing(added)
                    &&& stays(n.turn, e, inputs, k) ==> asks_nothing(later) || over
                },
            }
        }),
{
    let c = m.turn.queue[0];
    let n = next_call(m, e, cancelled);
    lemma_taken_up(m, e, cancelled);
    match decision(e, c.tool, key_of(m.turn, c)).verdict {
        Verdict::Deny => {},
        _ => {
            if stays(n.turn, e, inputs, k) {
                lemma_later(n.turn, e, inputs, k);
            }
        },
    }
}

proof fn lemma_taken_up(m: Moved, e: EngineView, cancelled: bool)
    requires
        m.turn.steps <= m.turn.max_steps,
        m.turn.queue.len() > 0,
        m.turn.queue[0].tool != "Task"@,
    ensures
        ({
            let c = m.turn.queue[0];
            let n = next_call(m, e, cancelled);
            let added = n.actions.skip(m.actions.len() as int);
            &&& turn_inv(n.turn)
            &&& match decision(e, c.tool, key_of(m.turn, c)).verdict {
                Verdict::Deny => {
                    let d = denied(m);
                    &&& n == next_call(d, e, cancelled)
                    &&& d.turn.queue == m.turn.queue.drop_first()
                    &&& d.turn.messages.len() == m.turn.messages.len() + 1
                    &&& d.turn.messages.last() matches ModelMessageView::ToolResult {
                        call_id,
                        content,
                        is_error,
                    } && call_id == c.call_id && is_error
                    &&& asks_nothing(d.actions.skip(m.actions.len() as int))
                    &&& runs_nothing(d.actions.skip(m.actions.len() as int))
                },
                Verdict::Ask => {
                    &&& n.turn.queue == m.turn.queue
                    &&& n.turn.phase == Phase::Asking
                    &&& asks_about_first(added, m.turn.queue)
                    &&& runs_nothing(added)
                },
                Verdict::Allow => {
                    &&& n.turn.queue == m.turn.queue
                    &&& n.turn.phase == Phase::Checking || n.turn.phase == Phase::Snapshotting
                    &&& asks_nothing(added)
                    &&& runs_nothing(added)
                },
            }
        }),
{
    let t = m.turn;
    let c = t.queue[0];
    let n = next_call(m, e, cancelled);
    let len = m.actions.len() as int;
    lemma_next_call_inv(m, e, cancelled);
    match decision(e, c.tool, key_of(t, c)).verdict {
        Verdict::Deny => {
            let s = denied(m).actions.skip(len);
            assert(s.len() == 3);
            assert(s[0] is Record && s[1] is Emit && s[2] is Record);
        },
        Verdict::Ask => {
            let s = n.actions.skip(len);
            assert(s.len() == 3);
            assert(s[0] is Record && s[1] is Emit && s[2] is Ask);
            assert(asks_nothing(s.drop_last()));
        },
        Verdict::Allow => {
            let s = n.actions.skip(len);
            assert(s.len() == 2);
            assert(s[0] is Record);
            assert(s[1] is TakeSnapshot || s[1] is CheckTool);
        },
    }
}

proof fn lemma_later(t: TurnView, e: EngineView, inputs: Seq<(InputView, bool)>, k: int)
    requires
        turn_inv(t),
        t.queue.len() > 0,
        t.phase == Phase::Asking || t.phase == Phase::Checking || t.phase == Phase::Snapshotting,
        0 <= k < inputs.len(),
        stays(t, e, inputs, k),
    ensures
        ({
            let later = done_at(t, e, inputs, k);
            &&& asks_nothing(later) || run_of(t, e, inputs.take(k + 1)).0.queue.len()
                < t.queue.len()
            &&& t.phase == Phase::Asking && !runs_nothing(later) ==> exists|i: int|
                0 <= i < k && approves(#[trigger] inputs[i].0)
        }),
{
    lemma_stays_at_call(t, e, inputs, k);
    lemma_run_next(t, e, inputs, k);
    let (t1, e1) = run_of(t, e, inputs.take(k));
    assert(run_of(t, e, inputs.take(k)).0.queue == t.queue);
    lemma_run_inv(t, e, inputs.take(k));
    law_asked_about_what_is_next(t1, e1, inputs[k].0, inputs[k].1);
    let later = done_at(t, e, inputs, k);
    if t.phase == Phase::Asking && !runs_nothing(later) {
        let j = choose|j: int| 0 <= j < later.len() && later[j] is Exec;
        law_runs_only_what_was_checked(t1, e1, inputs[k].0, inputs[k].1, j);
        if forall|i: int| 0 <= i < k ==> !approves(#[trigger] inputs[i].0) {
            lemma_needs_leave(t, e, inputs, k);
        }
    }
}

proof fn lemma_stays_at_call(t: TurnView, e: EngineView, inputs: Seq<(InputView, bool)>, k: int)
    requires
        turn_inv(t),
        t.queue.len() > 0,
        t.phase == Phase::Asking || t.phase == Phase::Checking || t.phase == Phase::Snapshotting,
        0 <= k <= inputs.len(),
        stays(t, e, inputs, k),
    ensures
        run_of(t, e, inputs.take(k)).0.phase != Phase::Streaming,
        run_of(t, e, inputs.take(k)).0.phase != Phase::Prompting,
        run_of(t, e, inputs.take(k)).0.phase != Phase::Ready,
    decreases k,
{
    if k > 0 {
        assert(stays(t, e, inputs, k - 1));
        lemma_stays_at_call(t, e, inputs, k - 1);
        lemma_run_inv(t, e, inputs.take(k - 1));
        lemma_run_next(t, e, inputs, k - 1);
        let (t1, e1) = run_of(t, e, inputs.take(k - 1));
        let (input, cancelled) = inputs[k - 1];
        assert(run_of(t, e, inputs.take(k - 1)).0.queue == t.queue);
        assert(run_of(t, e, inputs.take(k)).0.queue == t.queue);
        lemma_no_stream(t1, e1, input, cancelled);
    } else {
        assert(inputs.take(0) =~= Seq::<(InputView, bool)>::empty());
    }
}

#[verifier::rlimit(60)]
proof fn lemma_no_stream(t: TurnView, e: EngineView, input: InputView, cancelled: bool)
    requires
        turn_inv(t),
        t.queue.len() > 0,
        t.phase != Phase::Streaming,
        t.phase != Phase::Prompting,
        t.phase != Phase::Ready,
        moved(t, e, input, cancelled).turn.queue == t.queue,
    ensures
        moved(t, e, input, cancelled).turn.phase != Phase::Streaming,
        moved(t, e, input, cancelled).turn.phase != Phase::Prompting,
        moved(t, e, input, cancelled).turn.phase != Phase::Ready,
{
    assert forall|x: Moved, e2: EngineView|
        x.turn.steps <= x.turn.max_steps && (#[trigger] next_call(x, e2, cancelled)).turn.phase
            == Phase::Streaming implies next_call(x, e2, cancelled).turn.queue.len() == 0 by {
        lemma_next_call(x, e2, cancelled);
    }
    assert forall|x: Moved, e2: EngineView|
        x.turn.steps <= x.turn.max_steps implies (#[trigger] next_call(
        x,
        e2,
        cancelled,
    )).turn.phase != Phase::Prompting && next_call(x, e2, cancelled).turn.phase
        != Phase::Ready by {
        lemma_next_call(x, e2, cancelled);
    }
}

} // verus!
