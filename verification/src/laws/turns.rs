//! How a turn goes on.
use vstd::prelude::*;

use crate::content::StopReason;
use crate::content::TokenUsageView;
use crate::form::obj2;
use crate::hooks::HookEventView;
use crate::hooks::HookOutcomeView;
use crate::json::JsonView;
use crate::json::json_read;
use crate::log::LogEventView;
use crate::model::ModelContentView;
use crate::model::ModelErrorView;
use crate::model::ModelMessageView;
use crate::model::ModelStreamEventView;
use crate::op::ReviewDecision;
use crate::permission::Verdict;
use crate::permission::VerdictSourceView;
use crate::permissions::EngineView;
use crate::permissions::PermissionKeyView;
use crate::permissions::ToolClass;
use crate::permissions::class_of;
use crate::permissions::decision;
use crate::permissions::detail_for;
use crate::permissions::key_text;
use crate::permissions::kind_of;
use crate::session::ActionView;
use crate::session::GatheredView;
use crate::session::InputView;
use crate::session::Phase;
use crate::session::ReplyView;
use crate::session::SnapshotView;
use crate::session::ToolInputView;
use crate::session::ToolRequestView;
use crate::session::TurnEventView;
use crate::session::TurnView;
use crate::session::all_logged;
use crate::session::call_place;
use crate::session::engine_moved;
use crate::session::first_text;
use crate::session::gathered;
use crate::session::last_user_text;
use crate::session::logged_result;
use crate::session::message_of;
use crate::session::moved;
use crate::session::next_call;
use crate::session::requests_of;
use crate::session::summary_of;
use crate::session::told;
use crate::session::turn_inv;
use crate::text::byte_len;
use crate::text::clipped;
use crate::text::line_list;
use crate::tools::ToolErrorView;
use crate::tools::ToolOutputView;
use crate::tools::error_words;
use crate::tools::touched;

verus! {

/// What the model streams is gathered piece by piece: text behind text, thought behind
/// thought, and the input of each call behind what there is of that call.
pub proof fn law_pieces_are_gathered(
    g: GatheredView,
    t: Seq<char>,
    id: Seq<char>,
    name: Seq<char>,
    k: int,
    stop_reason: StopReason,
    usage: TokenUsageView,
)
    ensures
        gathered(g, ModelStreamEventView::TextDelta(t)) == (GatheredView { text: g.text + t, ..g }),
        gathered(g, ModelStreamEventView::ThinkingDelta(t)) == (GatheredView {
            thinking: g.thinking + t,
            ..g
        }),
        (forall|i: int| 0 <= i < g.calls.len() ==> (#[trigger] g.calls[i]).call_id != id) ==> gathered(
            g,
            ModelStreamEventView::ToolUseBegin { call_id: id, name },
        ) == (GatheredView {
            calls: g.calls.push(ToolInputView { call_id: id, name, json: Seq::empty() }),
            ..g
        }),
        0 <= k < g.calls.len() && g.calls[k].call_id == id && (forall|i: int|
            0 <= i < k ==> (#[trigger] g.calls[i]).call_id != id) ==> gathered(
            g,
            ModelStreamEventView::ToolUseInputDelta { call_id: id, json_fragment: t },
        ) == (GatheredView {
            calls: g.calls.update(
                k,
                ToolInputView {
                    call_id: id,
                    name: g.calls[k].name,
                    json: g.calls[k].json + t,
                },
            ),
            ..g
        }),
        gathered(g, ModelStreamEventView::MessageEnd { stop_reason, usage }) == (GatheredView {
            stop_reason,
            usage,
            ..g
        }),
        gathered(g, ModelStreamEventView::ToolUseEnd { call_id: id }) == g,
{
    lemma_call_place(g.calls, id);
}

/// What is gathered is told as it comes: text, thoughts, and calls as they begin and end.
pub proof fn law_pieces_are_told(t: Seq<char>, id: Seq<char>, name: Seq<char>)
    ensures
        told(ModelStreamEventView::TextDelta(t)) == Some(TurnEventView::TextDelta(t)),
        told(ModelStreamEventView::ThinkingDelta(t)) == Some(TurnEventView::ThinkingDelta(t)),
        told(ModelStreamEventView::ToolUseBegin { call_id: id, name }) == Some(
            TurnEventView::ToolCallBegin { call_id: id, tool: name },
        ),
        told(ModelStreamEventView::ToolUseEnd { call_id: id }) == Some(
            TurnEventView::ToolCallEnd { call_id: id },
        ),
        told(ModelStreamEventView::ToolUseInputDelta { call_id: id, json_fragment: t }) is None,
{
}

/// The model's message is its thought, its text and its calls, in this order, each where
/// there is any; the input of a call is what its pieces read as.
pub proof fn law_messages_are_put_together(g: GatheredView, i: int)
    ensures
        ({
            let calls = requests_of(g.calls);
            let m = message_of(g, calls);
            let a: int = if g.thinking.len() > 0 {
                1
            } else {
                0
            };
            let b: int = if g.text.len() > 0 {
                1
            } else {
                0
            };
            &&& m.len() == a + b + g.calls.len()
            &&& g.thinking.len() > 0 ==> m[0] == (ModelContentView::Thinking {
                text: g.thinking,
                signature: None,
            })
            &&& g.text.len() > 0 ==> m[a] == ModelContentView::Text(g.text)
            &&& calls.len() == g.calls.len()
            &&& 0 <= i < g.calls.len() ==> calls[i].call_id == g.calls[i].call_id && calls[i].tool
                == g.calls[i].name && m[a + b + i] == (ModelContentView::ToolUse {
                call_id: g.calls[i].call_id,
                name: g.calls[i].name,
                input: calls[i].input,
            })
            &&& 0 <= i < g.calls.len() && g.calls[i].json.len() == 0 ==> calls[i].input
                == JsonView::Object(Map::empty())
            &&& 0 <= i < g.calls.len() && g.calls[i].json.len() > 0 ==> (json_read(g.calls[i].json) matches Some(j)
                ==> calls[i].input == j)
        }),
{
}

/// Whether a turn waits for what its model streams, and nothing has been gathered but `g`.
pub open spec fn waits_for_model(t: TurnView, g: GatheredView) -> bool {
    t.phase == Phase::Streaming && t.gathered == g && turn_inv(t)
}

/// A message without calls ends the turn: it is kept and recorded, and the last thing done
/// is to say that the turn is over, for the model's reason and with what it used.
pub proof fn law_last_message_ends_the_turn(t: TurnView, e: EngineView, cancelled: bool)
    requires
        waits_for_model(t, t.gathered),
        t.gathered.calls.len() == 0,
    ensures
        ({
            let m = moved(t, e, InputView::StreamEnd, cancelled);
            let content = message_of(t.gathered, Seq::empty());
            &&& m.turn.phase == Phase::Done
            &&& m.turn.messages == t.messages.push(ModelMessageView::Assistant { content })
            &&& m.actions.last() == (ActionView::Finish {
                stop_reason: t.gathered.stop_reason,
                steps: t.steps,
                usage: t.gathered.usage,
            })
            &&& m.actions[0] == ActionView::Record(
                LogEventView::AssistantMessage {
                    content: all_logged(content),
                    usage: t.gathered.usage,
                    turn_id: t.turn_id,
                },
            )
            &&& m.actions.contains(
                ActionView::Record(
                    LogEventView::TurnBoundary {
                        turn_id: t.turn_id,
                        stop_reason: t.gathered.stop_reason,
                    },
                ),
            )
            &&& m.actions.contains(
                ActionView::Hook { event: HookEventView::Stop, tool_input: None },
            )
        }),
{
    let m = moved(t, e, InputView::StreamEnd, cancelled);
    assert(requests_of(t.gathered.calls) =~= Seq::<ToolRequestView>::empty());
    assert(m.actions.len() == 8);
    assert(m.actions[6] == ActionView::Record(
        LogEventView::TurnBoundary { turn_id: t.turn_id, stop_reason: t.gathered.stop_reason },
    ));
    assert(m.actions[5] == ActionView::Hook { event: HookEventView::Stop, tool_input: None });
}

/// A piece of the stream changes what is gathered, and is told; the turn goes on waiting. A
/// turn that is cancelled is over with the next piece, as interrupted.
pub proof fn law_turns_follow_the_stream(t: TurnView, e: EngineView, ev: ModelStreamEventView)
    requires
        waits_for_model(t, t.gathered),
        !(ev is MessageEnd),
    ensures
        ({
            let m = moved(t, e, InputView::Chunk(ev), false);
            &&& m.turn == (TurnView { gathered: gathered(t.gathered, ev), ..t })
            &&& m.actions == match told(ev) {
                Some(x) => seq![ActionView::Emit(x)],
                None => Seq::empty(),
            }
        }),
        ({
            let m = moved(t, e, InputView::Chunk(ev), true);
            &&& m.turn.phase == Phase::Done && m.turn.messages == t.messages
            &&& m.actions.last() matches ActionView::Finish { stop_reason, .. } && stop_reason
                == StopReason::Interrupted
        }),
{
    let m = moved(t, e, InputView::Chunk(ev), false);
    assert(m.actions =~= match told(ev) {
        Some(x) => seq![ActionView::Emit(x)],
        None => Seq::empty(),
    });
}

/// The end of the message closes it, with the reason and the use that it gives.
pub proof fn law_message_end_closes_the_message(
    t: TurnView,
    e: EngineView,
    stop_reason: StopReason,
    usage: TokenUsageView,
)
    requires
        waits_for_model(t, t.gathered),
    ensures
        moved(
            t,
            e,
            InputView::Chunk(ModelStreamEventView::MessageEnd { stop_reason, usage }),
            false,
        ) == moved(
            TurnView { gathered: GatheredView { stop_reason, usage, ..t.gathered }, ..t },
            e,
            InputView::StreamEnd,
            false,
        ),
{
}

/// Each call goes by what the permissions decide: what is allowed is handed to
/// the hooks, what must be asked about is put to the user, with the tool and what it touches,
/// and what is denied is answered with an error. The call is recorded in any case.
pub proof fn law_calls_go_by_verdict(t: TurnView, e: EngineView, c: ToolInputView)
    requires
        waits_for_model(t, t.gathered),
        t.gathered.calls == seq![c],
        t.tools.contains(c.name),
        c.name != "Task"@,
        t.steps < t.max_steps,
        !t.snapshots,
    ensures
        ({
            let m = moved(t, e, InputView::StreamEnd, false);
            let input = requests_of(t.gathered.calls)[0].input;
            let key = touched(c.name, input, t.cwd);
            let d = decision(e, c.name, key);
            let said = message_of(t.gathered, requests_of(t.gathered.calls));
            &&& m.actions.contains(
                ActionView::Record(
                    LogEventView::ToolCall { call_id: c.call_id, tool: c.name, args: input },
                ),
            )
            &&& d.verdict == Verdict::Allow ==> m.turn.phase == Phase::Checking && m.actions.last()
                == (ActionView::CheckTool { tool: c.name, input })
            &&& d.verdict == Verdict::Ask ==> m.turn.phase == Phase::Asking && m.actions.last() == (
            ActionView::Ask {
                call_id: c.call_id,
                tool: c.name,
                kind: kind_of(c.name),
                detail: detail_for(
                    c.name,
                    key,
                    match d.source {
                        VerdictSourceView::Rule { rule } => Some(rule.pattern),
                        _ => None,
                    },
                ),
            })
            &&& d.verdict == Verdict::Deny ==> m.turn.phase == Phase::Streaming && m.actions.last()
                == ActionView::Stream && m.turn.messages == t.messages.push(
                ModelMessageView::Assistant { content: said },
            ).push(
                ModelMessageView::ToolResult {
                    call_id: c.call_id,
                    content: seq![
                        ModelContentView::Text("被权限策略拒绝(工具: "@ + c.name + ")"@),
                    ],
                    is_error: true,
                },
            )
        }),
{
    let m = moved(t, e, InputView::StreamEnd, false);
    let calls = requests_of(t.gathered.calls);
    let r = calls[0];
    assert(calls.len() == 1);
    assert(r.tool == c.name && r.call_id == c.call_id);
    assert(calls.drop_first() =~= Seq::<ToolRequestView>::empty());
    reveal_with_fuel(next_call, 2);
    assert(m.actions[3] == ActionView::Record(
        LogEventView::ToolCall { call_id: c.call_id, tool: c.name, args: r.input },
    ));
}

/// Before a file is written, its state is kept where states are kept at all.
pub proof fn law_writes_are_preceded_by_a_snapshot(
    t: TurnView,
    e: EngineView,
    c: ToolInputView,
    path: Seq<char>,
)
    requires
        waits_for_model(t, t.gathered),
        t.gathered.calls == seq![c],
        t.tools.contains(c.name),
        t.snapshots,
        c.name == "Write"@ || c.name == "Edit"@,
        touched(c.name, requests_of(t.gathered.calls)[0].input, t.cwd) == Some(
            PermissionKeyView::Path { path },
        ),
        decision(e, c.name, Some(PermissionKeyView::Path { path })).verdict == Verdict::Allow,
    ensures
        ({
            let m = moved(t, e, InputView::StreamEnd, false);
            &&& m.turn.phase == Phase::Snapshotting
            &&& m.turn.queue == requests_of(t.gathered.calls)
            &&& m.actions.last() == (ActionView::TakeSnapshot { path })
        }),
{
    lemma_writers(c.name);
    let calls = requests_of(t.gathered.calls);
    assert(calls.len() == 1);
    assert(calls[0].tool == c.name);
}

proof fn lemma_writers(name: Seq<char>)
    requires
        name == "Write"@ || name == "Edit"@,
    ensures
        name != "Task"@,
        class_of(name) == ToolClass::Write,
{
    reveal_strlit("Write");
    reveal_strlit("Edit");
    reveal_strlit("Task");
    reveal_strlit("Read");
    reveal_strlit("Grep");
    reveal_strlit("Glob");
    reveal_strlit("Bash");
    reveal_strlit("Patch");
    assert("Write"@.len() == 5 && "Edit"@.len() == 4 && "Task"@.len() == 4 && "Read"@.len() == 4 && "Grep"@.len() == 4 && "Glob"@.len() == 4 && "Bash"@.len() == 4 && "Patch"@.len() == 5);
    assert("Write"@[0] != "Patch"@[0]);
    assert("Edit"@[0] != "Task"@[0]);
    assert("Edit"@[0] != "Read"@[0]);
    assert("Edit"@[0] != "Grep"@[0]);
    assert("Edit"@[0] != "Glob"@[0]);
    assert("Edit"@[0] != "Bash"@[0]);
    assert("Task"@[0] != "Read"@[0]);
    assert("Task"@[0] != "Grep"@[0]);
    assert("Task"@[0] != "Glob"@[0]);
    assert("Task"@[0] != "Bash"@[0]);
    assert("Read"@[0] != "Grep"@[0]);
    assert("Read"@[0] != "Glob"@[0]);
    assert("Read"@[0] != "Bash"@[0]);
    assert("Grep"@[1] != "Glob"@[1]);
    assert("Grep"@[0] != "Bash"@[0]);
    assert("Glob"@[0] != "Bash"@[0]);
}

/// Once the state of the file is kept, which is recorded, or cannot be, the call goes on to
/// the hooks.
pub proof fn law_snapshots_are_recorded(t: TurnView, e: EngineView, c: ToolRequestView, s: SnapshotView)
    requires
        is_at(t, Phase::Snapshotting, c),
    ensures
        ({
            let n = moved(t, e, InputView::SnapshotTaken(Some(s)), false);
            let o = moved(t, e, InputView::SnapshotTaken(None), false);
            &&& n.actions == seq![
                ActionView::Record(
                    LogEventView::Checkpoint {
                        checkpoint_id: s.checkpoint_id,
                        shadow_commit: s.commit,
                    },
                ),
                ActionView::CheckTool { tool: c.tool, input: c.input },
            ]
            &&& o.actions == seq![ActionView::CheckTool { tool: c.tool, input: c.input }]
            &&& n.turn.phase == Phase::Checking && o.turn.phase == Phase::Checking
        }),
{
    let n = moved(t, e, InputView::SnapshotTaken(Some(s)), false);
    let o = moved(t, e, InputView::SnapshotTaken(None), false);
    assert(n.actions =~= seq![
        ActionView::Record(
            LogEventView::Checkpoint { checkpoint_id: s.checkpoint_id, shadow_commit: s.commit },
        ),
        ActionView::CheckTool { tool: c.tool, input: c.input },
    ]);
    assert(o.actions =~= seq![ActionView::CheckTool { tool: c.tool, input: c.input }]);
}

/// Whether a turn has come to the one call that waits, in the given phase.
pub open spec fn is_at(t: TurnView, phase: Phase, c: ToolRequestView) -> bool {
    t.phase == phase && t.queue == seq![c] && turn_inv(t) && t.steps < t.max_steps
}

/// What the hooks let pass is run; what they refuse is answered with an error that gives the
/// reason; a tool that is not there is answered with an error.
pub proof fn law_hooks_come_before_running(
    t: TurnView,
    e: EngineView,
    c: ToolRequestView,
    reason: Seq<char>,
)
    requires
        is_at(t, Phase::Checking, c),
    ensures
        ({
            let pass = moved(t, e, InputView::ToolChecked(HookOutcomeView::Pass), false);
            let block = moved(t, e, InputView::ToolChecked(HookOutcomeView::Block(reason)), false);
            &&& t.tools.contains(c.tool) ==> pass.turn.phase == Phase::Running && pass.actions
                == seq![
                ActionView::Emit(TurnEventView::ToolExecBegin { call_id: c.call_id }),
                ActionView::Exec { tool: c.tool, input: c.input },
            ]
            &&& !t.tools.contains(c.tool) ==> pass.turn.messages == t.messages.push(
                ModelMessageView::ToolResult {
                    call_id: c.call_id,
                    content: seq![ModelContentView::Text("未知工具: "@ + c.tool)],
                    is_error: true,
                },
            )
            &&& block.turn.messages == t.messages.push(
                ModelMessageView::ToolResult {
                    call_id: c.call_id,
                    content: seq![ModelContentView::Text("被 hook 阻断: "@ + reason)],
                    is_error: true,
                },
            )
            &&& block.turn.phase == Phase::Streaming && block.actions.last() == ActionView::Stream
        }),
{
    assert(t.queue.drop_first() =~= Seq::<ToolRequestView>::empty());
    let pass = moved(t, e, InputView::ToolChecked(HookOutcomeView::Pass), false);
    if t.tools.contains(c.tool) {
        assert(pass.actions =~= seq![
            ActionView::Emit(TurnEventView::ToolExecBegin { call_id: c.call_id }),
            ActionView::Exec { tool: c.tool, input: c.input },
        ]);
    }
}

/// What a tool returns is what the model is told of its call, as an error exactly if it is
/// one; it is recorded as such, with how long it took, the hooks behind the call run, and the
/// model is asked again.
pub proof fn law_results_go_to_the_model(
    t: TurnView,
    e: EngineView,
    c: ToolRequestView,
    o: ToolOutputView,
    err: ToolErrorView,
    ms: u64,
)
    requires
        is_at(t, Phase::Running, c),
    ensures
        ({
            let m = moved(
                t,
                e,
                InputView::ToolDone { reply: ReplyView::Output(o), duration_ms: ms },
                false,
            );
            let f = moved(
                t,
                e,
                InputView::ToolDone { reply: ReplyView::Failed(err), duration_ms: ms },
                false,
            );
            &&& m.turn.messages == t.messages.push(
                ModelMessageView::ToolResult {
                    call_id: c.call_id,
                    content: seq![ModelContentView::Text(o.content)],
                    is_error: o.is_error,
                },
            )
            &&& m.actions == seq![
                ActionView::Emit(
                    TurnEventView::ToolExecEnd {
                        call_id: c.call_id,
                        ok: !o.is_error,
                        summary: summary_of(o.content),
                    },
                ),
                ActionView::Record(
                    LogEventView::ToolResult {
                        call_id: c.call_id,
                        output: obj2(
                            "content"@,
                            JsonView::Text(o.content),
                            "is_error"@,
                            JsonView::Bool(o.is_error),
                        ),
                        duration_ms: ms,
                    },
                ),
                ActionView::Hook {
                    event: HookEventView::PostToolUse { tool: c.tool },
                    tool_input: Some(c.input),
                },
                ActionView::Stream,
            ]
            &&& m.turn.phase == Phase::Streaming && m.turn.steps == t.steps + 1
            &&& f.turn.messages == t.messages.push(
                ModelMessageView::ToolResult {
                    call_id: c.call_id,
                    content: seq![
                        ModelContentView::Text("[工具执行失败: "@ + error_words(err) + "]"@),
                    ],
                    is_error: true,
                },
            )
        }),
{
    assert(t.queue.drop_first() =~= Seq::<ToolRequestView>::empty());
    let m = moved(
        t,
        e,
        InputView::ToolDone { reply: ReplyView::Output(o), duration_ms: ms },
        false,
    );
    assert(m.actions =~= seq![
        ActionView::Emit(
            TurnEventView::ToolExecEnd {
                call_id: c.call_id,
                ok: !o.is_error,
                summary: summary_of(o.content),
            },
        ),
        ActionView::Record(
            LogEventView::ToolResult {
                call_id: c.call_id,
                output: logged_result(o.content, o.is_error),
                duration_ms: ms,
            },
        ),
        ActionView::Hook {
            event: HookEventView::PostToolUse { tool: c.tool },
            tool_input: Some(c.input),
        },
        ActionView::Stream,
    ]);
}

/// The user's answer decides: approved, the call goes on to the hooks; approved for the
/// session, what the call touches is granted and recorded as well; denied, the model is told
/// so; and to abort ends the turn. The answer is told and recorded in any case.
pub proof fn law_answers_decide(
    t: TurnView,
    e: EngineView,
    c: ToolRequestView,
    k: PermissionKeyView,
    d: ReviewDecision,
)
    requires
        is_at(t, Phase::Asking, c),
        t.tools.contains(c.tool),
        touched(c.tool, c.input, t.cwd) == Some(k),
    ensures
        ({
            let m = moved(t, e, InputView::Answered(d), false);
            let after = engine_moved(t, e, InputView::Answered(d));
            let grant = ActionView::Record(
                LogEventView::PermissionGrant { tool: c.tool, pattern: key_text(k) },
            );
            &&& m.actions[0] == ActionView::Emit(
                TurnEventView::ApprovalResolved { call_id: c.call_id, decision: d },
            )
            &&& m.actions[1] matches ActionView::Record(LogEventView::Approval {
                call_id,
                verdict,
                rule_suggestion,
            }) && call_id == c.call_id && verdict == d
            &&& d == ReviewDecision::Approve || d == ReviewDecision::ApproveForSession
                ==> m.turn.phase == Phase::Checking && m.actions.last() == (ActionView::CheckTool {
                tool: c.tool,
                input: c.input,
            }) && m.turn.queue == t.queue && m.turn.messages == t.messages
            &&& d == ReviewDecision::ApproveForSession ==> m.actions[2] == grant && after == (
            EngineView { grants: e.grants.insert((c.tool, key_text(k))), ..e })
            &&& d != ReviewDecision::ApproveForSession ==> after == e
            &&& d == ReviewDecision::Approve ==> m.actions.len() == 3
            &&& d == ReviewDecision::Deny ==> m.turn.phase == Phase::Streaming && m.turn.messages
                == t.messages.push(
                ModelMessageView::ToolResult {
                    call_id: c.call_id,
                    content: seq![ModelContentView::Text("用户拒绝执行(工具: "@ + c.tool + ")"@)],
                    is_error: true,
                },
            )
            &&& d == ReviewDecision::Abort ==> m.turn.phase == Phase::Done && m.actions.last() == (
            ActionView::Finish {
                stop_reason: StopReason::Interrupted,
                steps: t.steps,
                usage: t.gathered.usage,
            })
        }),
{
    assert(t.queue.drop_first() =~= Seq::<ToolRequestView>::empty());
}

/// A turn begins by having the last words of the user checked. A refusal ends it before the
/// model is asked, with the reason; otherwise the hooks of the start run, after a warning
/// where the project is not trusted and has some, and the model is asked.
pub proof fn law_prompts_are_checked_first(t: TurnView, e: EngineView, reason: Seq<char>, text: Seq<char>)
    requires
        turn_inv(t),
    ensures
        t.phase == Phase::Ready && last_user_text(t.messages) == Some(text) ==> moved(
            t,
            e,
            InputView::Start,
            false,
        ).actions == seq![ActionView::CheckPrompt { text }],
        t.phase == Phase::Prompting ==> {
            let m = moved(t, e, InputView::PromptChecked(HookOutcomeView::Block(reason)), false);
            &&& m.turn.phase == Phase::Done && m.turn.messages == t.messages
            &&& m.actions[0] == ActionView::Emit(
                TurnEventView::Error("UserPromptSubmit hook 阻断: "@ + reason),
            )
            &&& m.actions.last() matches ActionView::Finish { stop_reason, .. } && stop_reason
                == StopReason::Interrupted
            &&& !m.actions.contains(ActionView::Stream)
        },
        t.phase == Phase::Prompting && t.steps < t.max_steps ==> {
            let m = moved(t, e, InputView::PromptChecked(HookOutcomeView::Pass), false);
            &&& m.turn.phase == Phase::Streaming && m.turn.steps == t.steps + 1
            &&& m.actions.last() == ActionView::Stream
            &&& m.actions.contains(
                ActionView::Hook { event: HookEventView::SessionStart, tool_input: None },
            )
            &&& m.actions[0] is Emit <==> !t.trusted && t.start_hooks
        },
        t.phase == Phase::Prompting && t.steps >= t.max_steps ==> {
            let m = moved(t, e, InputView::PromptChecked(HookOutcomeView::Pass), false);
            &&& m.turn.phase == Phase::Done
            &&& m.actions.last() matches ActionView::Finish { stop_reason, .. } && stop_reason
                == StopReason::MaxSteps
        },
{
    if t.phase == Phase::Ready && last_user_text(t.messages) == Some(text) {
        assert(moved(t, e, InputView::Start, false).actions =~= seq![
            ActionView::CheckPrompt { text },
        ]);
    }
    if t.phase == Phase::Prompting {
        let b = moved(t, e, InputView::PromptChecked(HookOutcomeView::Block(reason)), false);
        assert(b.actions.len() == 3);
        let m = moved(t, e, InputView::PromptChecked(HookOutcomeView::Pass), false);
        if t.steps < t.max_steps {
            let start = ActionView::Hook { event: HookEventView::SessionStart, tool_input: None };
            if !t.trusted && t.start_hooks {
                assert(m.actions[1] == start);
            } else {
                assert(m.actions[0] == start);
            }
        }
    }
}

/// A turn that was cancelled asks the model no more: it ends as interrupted before its next
/// step, unless its steps are used up.
pub proof fn law_cancelled_turns_ask_no_more(
    t: TurnView,
    e: EngineView,
    c: ToolRequestView,
    o: ToolOutputView,
    ms: u64,
)
    requires
        is_at(t, Phase::Running, c),
    ensures
        ({
            let m = moved(
                t,
                e,
                InputView::ToolDone { reply: ReplyView::Output(o), duration_ms: ms },
                true,
            );
            &&& m.turn.phase == Phase::Done && m.turn.steps == t.steps
            &&& m.turn.messages.len() == t.messages.len() + 1
            &&& m.actions.last() matches ActionView::Finish { stop_reason, steps, .. } && stop_reason
                == StopReason::Interrupted && steps == t.steps
            &&& !m.actions.contains(ActionView::Stream)
        }),
{
    assert(t.queue.drop_first() =~= Seq::<ToolRequestView>::empty());
    let m = moved(
        t,
        e,
        InputView::ToolDone { reply: ReplyView::Output(o), duration_ms: ms },
        true,
    );
    assert(m.actions.len() == 6);
}

/// A task is handed to a sub-agent whatever the rules say, and what it reports is what the
/// model is told of the call.
pub proof fn law_tasks_are_handed_on(
    t: TurnView,
    e: EngineView,
    c: ToolInputView,
    r: ToolRequestView,
    u: TurnView,
    o: ToolOutputView,
)
    requires
        waits_for_model(t, t.gathered),
        t.gathered.calls == seq![c],
        c.name == "Task"@,
        is_at(u, Phase::Tasking, r),
    ensures
        ({
            let m = moved(t, e, InputView::StreamEnd, false);
            &&& m.turn.phase == Phase::Tasking
            &&& m.actions.last() == (ActionView::RunTask {
                input: requests_of(t.gathered.calls)[0].input,
            })
        }),
        moved(u, e, InputView::TaskDone(ReplyView::Output(o)), false).turn.messages
            == u.messages.push(
            ModelMessageView::ToolResult {
                call_id: r.call_id,
                content: seq![ModelContentView::Text(o.content)],
                is_error: o.is_error,
            },
        ),
{
    let calls = requests_of(t.gathered.calls);
    assert(calls.len() == 1 && calls[0].tool == c.name);
    assert(u.queue.drop_first() =~= Seq::<ToolRequestView>::empty());
}

/// A provider that fails fails the turn with its error; a stream that breaks because the turn
/// was cancelled interrupts it.
pub proof fn law_failures_fail_the_turn(t: TurnView, e: EngineView, err: ModelErrorView)
    requires
        waits_for_model(t, t.gathered),
    ensures
        moved(t, e, InputView::Refused(err), false).actions == seq![ActionView::Fail(err)],
        moved(t, e, InputView::Broke(err), false).actions == seq![ActionView::Fail(err)],
        moved(t, e, InputView::Broke(err), true).actions.last() matches ActionView::Finish {
            stop_reason,
            ..
        } && stop_reason == StopReason::Interrupted,
{
    assert(moved(t, e, InputView::Refused(err), false).actions =~= seq![ActionView::Fail(err)]);
    assert(moved(t, e, InputView::Broke(err), false).actions =~= seq![ActionView::Fail(err)]);
}

/// A summary is the first line, with dots where more follows, and cut at 77 bytes where it
/// takes more than eighty.
pub proof fn law_summaries_are_first_lines(s: Seq<char>)
    ensures
        ({
            let all = line_list(s);
            &&& all.len() == 0 ==> summary_of(s) == Seq::<char>::empty()
            &&& all.len() == 1 && byte_len(all[0]) <= 80 ==> summary_of(s) == all[0]
            &&& all.len() > 1 && byte_len(all[0]) <= 80 ==> summary_of(s) == all[0] + " ..."@
            &&& all.len() > 0 && byte_len(all[0]) > 80 ==> summary_of(s) == clipped(all[0], 77) + "..."@
        }),
{
    assert(byte_len(Seq::<char>::empty()) == 0);
}

/// The last words of the user are the first text of their last message that has any.
pub proof fn law_last_words_of_the_user(
    s: Seq<ModelMessageView>,
    t: Seq<char>,
    rest: Seq<ModelContentView>,
    other: ModelMessageView,
)
    requires
        !(other is User),
    ensures
        last_user_text(
            s.push(ModelMessageView::User { content: seq![ModelContentView::Text(t)] + rest }),
        ) == Some(t),
        last_user_text(s.push(other)) == last_user_text(s),
        last_user_text(Seq::empty()) is None,
{
    let m = ModelMessageView::User { content: seq![ModelContentView::Text(t)] + rest };
    assert(s.push(m).drop_last() =~= s);
    assert(s.push(other).drop_last() =~= s);
    let c = seq![ModelContentView::Text(t)] + rest;
    assert(c[0] == ModelContentView::Text(t));
    reveal_with_fuel(first_text, 2);
}

proof fn lemma_call_place(s: Seq<ToolInputView>, id: Seq<char>)
    ensures
        0 <= call_place(s, id) <= s.len(),
        call_place(s, id) < s.len() ==> s[call_place(s, id)].call_id == id,
        forall|i: int| 0 <= i < call_place(s, id) ==> (#[trigger] s[i]).call_id != id,
    decreases s.len(),
{
    if s.len() > 0 && s[0].call_id != id {
        let t = s.drop_first();
        lemma_call_place(t, id);
        assert forall|i: int| 0 <= i < call_place(s, id) implies (#[trigger] s[i]).call_id != id by {
            if i > 0 {
                assert(s[i] == t[i - 1]);
            }
        }
    }
}

} // verus!
