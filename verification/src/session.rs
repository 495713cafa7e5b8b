//! One turn: from the user's input to the point where the model asks for no more
//! tools.
//!
//! `Turn::step` takes what came in and says what is to be done next; whoever runs
//! the turn does it and hands back what came of it. Nothing here touches the
//! outside.
use vstd::prelude::*;
use vstd::string::*;

use crate::config::Config;
use crate::content::Content;
use crate::content::ContentView;
use crate::content::StopReason;
use crate::content::TokenUsage;
use crate::content::TokenUsageView;
use crate::dup::Dup;
use crate::event::ApprovalDetail;
use crate::event::ApprovalDetailView;
use crate::event::ApprovalKind;
use crate::form::obj2;
use crate::form::object2;
use crate::hooks::HookEvent;
use crate::hooks::HookEventView;
use crate::hooks::HookOutcome;
use crate::hooks::HookOutcomeView;
use crate::ids::CallId;
use crate::ids::CheckpointId;
use crate::ids::TurnId;
use crate::json::Json;
use crate::json::JsonView;
use crate::json::Members;
use crate::json::json_read;
use crate::json::json_refusal;
use crate::json::parse;
use crate::log::LogEvent;
use crate::log::LogEventView;
use crate::model::ModelContent;
use crate::model::ModelContentView;
use crate::model::ModelError;
use crate::model::ModelErrorView;
use crate::model::ModelMessage;
use crate::model::ModelMessageView;
use crate::model::ModelRequest;
use crate::model::ModelRequestView;
use crate::model::ModelStreamEvent;
use crate::model::ModelStreamEventView;
use crate::op::ReviewDecision;
use crate::paths::among;
use crate::paths::is_among;
use crate::permission::DecisionView;
use crate::permission::Verdict;
use crate::permission::VerdictSource;
use crate::permission::VerdictSourceView;
use crate::permissions::ApprovalRequest;
use crate::permissions::EngineView;
use crate::permissions::PermissionEngine;
use crate::permissions::PermissionKey;
use crate::permissions::PermissionKeyView;
use crate::permissions::ToolClass;
use crate::permissions::approval_request;
use crate::permissions::class_of;
use crate::permissions::decision;
use crate::permissions::detail_for;
use crate::permissions::key_text;
use crate::permissions::key_view;
use crate::permissions::kind_of;
use crate::permissions::pattern_suggestion;
use crate::permissions::suggestion;
use crate::permissions::tool_class;
use crate::providers::calls::or_text;
use crate::text::byte_len;
use crate::text::bytes_len;
use crate::text::cat3;
use crate::text::cat;
use crate::text::clip;
use crate::text::clipped;
use crate::text::decimal;
use crate::text::decimal_of;
use crate::text::line_list;
use crate::text::lines;
use crate::text::same;
use crate::text::views;
use crate::tools::ToolError;
use crate::tools::ToolErrorView;
use crate::tools::ToolOutput;
use crate::tools::ToolOutputView;
use crate::tools::ToolRegistry;
use crate::tools::error_words;
use crate::tools::permission_key;
use crate::tools::touched;

verus! {

/// The model of `TurnEvent`.
pub enum TurnEventView {
    TextDelta(Seq<char>),
    ThinkingDelta(Seq<char>),
    ToolCallBegin { call_id: Seq<char>, tool: Seq<char> },
    ToolCallEnd { call_id: Seq<char> },
    ToolExecBegin { call_id: Seq<char> },
    ToolExecEnd { call_id: Seq<char>, ok: bool, summary: Seq<char> },
    ModelMessageEnd { stop_reason: StopReason },
    Usage(TokenUsageView),
    TurnComplete { stop_reason: StopReason, steps: u32 },
    ApprovalRequest { call_id: Seq<char>, kind: ApprovalKind, detail: ApprovalDetailView },
    ApprovalResolved { call_id: Seq<char>, decision: ReviewDecision },
    Error(Seq<char>),
    BackgroundEvent(Seq<char>),
}

/// What a turn tells its front end.
#[derive(Debug, PartialEq)]
pub enum TurnEvent {
    TextDelta(String),
    ThinkingDelta(String),
    /// The model asks for a tool.
    ToolCallBegin { call_id: CallId, tool: String },
    /// The arguments are complete.
    ToolCallEnd { call_id: CallId },
    ToolExecBegin { call_id: CallId },
    ToolExecEnd { call_id: CallId, ok: bool, summary: String },
    ModelMessageEnd { stop_reason: StopReason },
    Usage(TokenUsage),
    TurnComplete { stop_reason: StopReason, steps: u32 },
    ApprovalRequest { call_id: CallId, kind: ApprovalKind, detail: ApprovalDetail },
    ApprovalResolved { call_id: CallId, decision: ReviewDecision },
    Error(String),
    BackgroundEvent(String),
}

impl DeepView for TurnEvent {
    type V = TurnEventView;

    open spec fn deep_view(&self) -> TurnEventView {
        match *self {
            TurnEvent::TextDelta(x) => TurnEventView::TextDelta(x.deep_view()),
            TurnEvent::ThinkingDelta(x) => TurnEventView::ThinkingDelta(x.deep_view()),
            TurnEvent::ToolCallBegin { call_id, tool } => TurnEventView::ToolCallBegin { call_id: call_id.deep_view(), tool: tool.deep_view() },
            TurnEvent::ToolCallEnd { call_id } => TurnEventView::ToolCallEnd { call_id: call_id.deep_view() },
            TurnEvent::ToolExecBegin { call_id } => TurnEventView::ToolExecBegin { call_id: call_id.deep_view() },
            TurnEvent::ToolExecEnd { call_id, ok, summary } => TurnEventView::ToolExecEnd { call_id: call_id.deep_view(), ok: ok.deep_view(), summary: summary.deep_view() },
            TurnEvent::ModelMessageEnd { stop_reason } => TurnEventView::ModelMessageEnd { stop_reason: stop_reason.deep_view() },
            TurnEvent::Usage(x) => TurnEventView::Usage(x.deep_view()),
            TurnEvent::TurnComplete { stop_reason, steps } => TurnEventView::TurnComplete { stop_reason: stop_reason.deep_view(), steps: steps.deep_view() },
            TurnEvent::ApprovalRequest { call_id, kind, detail } => TurnEventView::ApprovalRequest { call_id: call_id.deep_view(), kind: kind.deep_view(), detail: detail.deep_view() },
            TurnEvent::ApprovalResolved { call_id, decision } => TurnEventView::ApprovalResolved { call_id: call_id.deep_view(), decision: decision.deep_view() },
            TurnEvent::Error(x) => TurnEventView::Error(x.deep_view()),
            TurnEvent::BackgroundEvent(x) => TurnEventView::BackgroundEvent(x.deep_view()),
        }
    }
}

impl Dup for TurnEvent {
    fn dup(&self) -> (r: Self) {
        match self {
            TurnEvent::TextDelta(x) => TurnEvent::TextDelta(x.dup()),
            TurnEvent::ThinkingDelta(x) => TurnEvent::ThinkingDelta(x.dup()),
            TurnEvent::ToolCallBegin { call_id, tool } => TurnEvent::ToolCallBegin { call_id: call_id.dup(), tool: tool.dup() },
            TurnEvent::ToolCallEnd { call_id } => TurnEvent::ToolCallEnd { call_id: call_id.dup() },
            TurnEvent::ToolExecBegin { call_id } => TurnEvent::ToolExecBegin { call_id: call_id.dup() },
            TurnEvent::ToolExecEnd { call_id, ok, summary } => TurnEvent::ToolExecEnd { call_id: call_id.dup(), ok: ok.dup(), summary: summary.dup() },
            TurnEvent::ModelMessageEnd { stop_reason } => TurnEvent::ModelMessageEnd { stop_reason: stop_reason.dup() },
            TurnEvent::Usage(x) => TurnEvent::Usage(x.dup()),
            TurnEvent::TurnComplete { stop_reason, steps } => TurnEvent::TurnComplete { stop_reason: stop_reason.dup(), steps: steps.dup() },
            TurnEvent::ApprovalRequest { call_id, kind, detail } => TurnEvent::ApprovalRequest { call_id: call_id.dup(), kind: kind.dup(), detail: detail.dup() },
            TurnEvent::ApprovalResolved { call_id, decision } => TurnEvent::ApprovalResolved { call_id: call_id.dup(), decision: decision.dup() },
            TurnEvent::Error(x) => TurnEvent::Error(x.dup()),
            TurnEvent::BackgroundEvent(x) => TurnEvent::BackgroundEvent(x.dup()),
        }
    }
}

impl Clone for TurnEvent {
    fn clone(&self) -> (r: Self)
        ensures
            r.deep_view() == self.deep_view(),
    {
        self.dup()
    }
}

/// The model of `ToolRequest`.
pub struct ToolRequestView {
    pub call_id: Seq<char>,
    pub tool: Seq<char>,
    pub input: JsonView,
}

/// A tool call that the model asks for.
#[derive(Debug, PartialEq)]
pub struct ToolRequest {
    pub call_id: CallId,
    pub tool: String,
    pub input: Json,
}

impl DeepView for ToolRequest {
    type V = ToolRequestView;

    open spec fn deep_view(&self) -> ToolRequestView {
        ToolRequestView {
            call_id: self.call_id.deep_view(),
            tool: self.tool.deep_view(),
            input: self.input.deep_view(),
        }
    }
}

impl Dup for ToolRequest {
    fn dup(&self) -> (r: Self) {
        ToolRequest {
            call_id: self.call_id.dup(),
            tool: self.tool.dup(),
            input: self.input.dup(),
        }
    }
}

impl Clone for ToolRequest {
    fn clone(&self) -> (r: Self)
        ensures
            r.deep_view() == self.deep_view(),
    {
        self.dup()
    }
}

/// The model of `Reply`.
pub enum ReplyView {
    Output(ToolOutputView),
    Failed(ToolErrorView),
}

/// What running a tool came to.
#[derive(Debug, PartialEq)]
pub enum Reply {
    Output(ToolOutput),
    Failed(ToolError),
}

impl DeepView for Reply {
    type V = ReplyView;

    open spec fn deep_view(&self) -> ReplyView {
        match *self {
            Reply::Output(x) => ReplyView::Output(x.deep_view()),
            Reply::Failed(x) => ReplyView::Failed(x.deep_view()),
        }
    }
}

impl Dup for Reply {
    fn dup(&self) -> (r: Self) {
        match self {
            Reply::Output(x) => Reply::Output(x.dup()),
            Reply::Failed(x) => Reply::Failed(x.dup()),
        }
    }
}

impl Clone for Reply {
    fn clone(&self) -> (r: Self)
        ensures
            r.deep_view() == self.deep_view(),
    {
        self.dup()
    }
}

/// The model of `Snapshot`.
pub struct SnapshotView {
    pub checkpoint_id: Seq<char>,
    pub commit: Seq<char>,
}

/// A snapshot of files that was taken.
#[derive(Debug, PartialEq)]
pub struct Snapshot {
    pub checkpoint_id: CheckpointId,
    pub commit: String,
}

impl DeepView for Snapshot {
    type V = SnapshotView;

    open spec fn deep_view(&self) -> SnapshotView {
        SnapshotView {
            checkpoint_id: self.checkpoint_id.deep_view(),
            commit: self.commit.deep_view(),
        }
    }
}

impl Dup for Snapshot {
    fn dup(&self) -> (r: Self) {
        Snapshot {
            checkpoint_id: self.checkpoint_id.dup(),
            commit: self.commit.dup(),
        }
    }
}

impl Clone for Snapshot {
    fn clone(&self) -> (r: Self)
        ensures
            r.deep_view() == self.deep_view(),
    {
        self.dup()
    }
}

/// The model of `Input`.
pub enum InputView {
    Start,
    PromptChecked(HookOutcomeView),
    Chunk(ModelStreamEventView),
    StreamEnd,
    Refused(ModelErrorView),
    Broke(ModelErrorView),
    TaskDone(ReplyView),
    SnapshotTaken(Option<SnapshotView>),
    ToolChecked(HookOutcomeView),
    Answered(ReviewDecision),
    ToolDone { reply: ReplyView, duration_ms: u64 },
}

/// What a turn waits for.
#[derive(Debug, PartialEq)]
pub enum Input {
    Start,
    PromptChecked(HookOutcome),
    Chunk(ModelStreamEvent),
    StreamEnd,
    /// The model could not be reached.
    Refused(ModelError),
    /// The stream broke.
    Broke(ModelError),
    TaskDone(Reply),
    SnapshotTaken(Option<Snapshot>),
    ToolChecked(HookOutcome),
    Answered(ReviewDecision),
    ToolDone { reply: Reply, duration_ms: u64 },
}

impl DeepView for Input {
    type V = InputView;

    open spec fn deep_view(&self) -> InputView {
        match *self {
            Input::Start => InputView::Start,
            Input::PromptChecked(x) => InputView::PromptChecked(x.deep_view()),
            Input::Chunk(x) => InputView::Chunk(x.deep_view()),
            Input::StreamEnd => InputView::StreamEnd,
            Input::Refused(x) => InputView::Refused(x.deep_view()),
            Input::Broke(x) => InputView::Broke(x.deep_view()),
            Input::TaskDone(x) => InputView::TaskDone(x.deep_view()),
            Input::SnapshotTaken(x) => InputView::SnapshotTaken(x.deep_view()),
            Input::ToolChecked(x) => InputView::ToolChecked(x.deep_view()),
            Input::Answered(x) => InputView::Answered(x.deep_view()),
            Input::ToolDone { reply, duration_ms } => InputView::ToolDone { reply: reply.deep_view(), duration_ms: duration_ms.deep_view() },
        }
    }
}

impl Dup for Input {
    fn dup(&self) -> (r: Self) {
        match self {
            Input::Start => Input::Start,
            Input::PromptChecked(x) => Input::PromptChecked(x.dup()),
            Input::Chunk(x) => Input::Chunk(x.dup()),
            Input::StreamEnd => Input::StreamEnd,
            Input::Refused(x) => Input::Refused(x.dup()),
            Input::Broke(x) => Input::Broke(x.dup()),
            Input::TaskDone(x) => Input::TaskDone(x.dup()),
            Input::SnapshotTaken(x) => Input::SnapshotTaken(x.dup()),
            Input::ToolChecked(x) => Input::ToolChecked(x.dup()),
            Input::Answered(x) => Input::Answered(x.dup()),
            Input::ToolDone { reply, duration_ms } => Input::ToolDone { reply: reply.dup(), duration_ms: duration_ms.dup() },
        }
    }
}

impl Clone for Input {
    fn clone(&self) -> (r: Self)
        ensures
            r.deep_view() == self.deep_view(),
    {
        self.dup()
    }
}

/// The model of `Action`.
pub enum ActionView {
    Emit(TurnEventView),
    Record(LogEventView),
    Hook { event: HookEventView, tool_input: Option<JsonView> },
    CheckPrompt { text: Seq<char> },
    Stream,
    RunTask { input: JsonView },
    TakeSnapshot { path: Seq<char> },
    CheckTool { tool: Seq<char>, input: JsonView },
    Ask { call_id: Seq<char>, tool: Seq<char>, kind: ApprovalKind, detail: ApprovalDetailView },
    Exec { tool: Seq<char>, input: JsonView },
    Finish { stop_reason: StopReason, steps: u32, usage: TokenUsageView },
    Fail(ModelErrorView),
}

/// What is to be done next.
#[derive(Debug, PartialEq)]
pub enum Action {
    Emit(TurnEvent),
    Record(LogEvent),
    /// Run hooks; what they come to does not matter.
    Hook { event: HookEvent, tool_input: Option<Json> },
    /// Run the hooks that may refuse the prompt.
    CheckPrompt { text: String },
    /// Send the model what `Turn::request` says.
    Stream,
    /// Run a sub-agent.
    RunTask { input: Json },
    /// Take a snapshot of a file. The path is as seen from the working directory.
    TakeSnapshot { path: String },
    /// Run the hooks that may refuse the call.
    CheckTool { tool: String, input: Json },
    /// Ask the user.
    Ask { call_id: CallId, tool: String, kind: ApprovalKind, detail: ApprovalDetail },
    /// Run the tool.
    Exec { tool: String, input: Json },
    Finish { stop_reason: StopReason, steps: u32, usage: TokenUsage },
    Fail(ModelError),
}

impl DeepView for Action {
    type V = ActionView;

    open spec fn deep_view(&self) -> ActionView {
        match *self {
            Action::Emit(x) => ActionView::Emit(x.deep_view()),
            Action::Record(x) => ActionView::Record(x.deep_view()),
            Action::Hook { event, tool_input } => ActionView::Hook { event: event.deep_view(), tool_input: tool_input.deep_view() },
            Action::CheckPrompt { text } => ActionView::CheckPrompt { text: text.deep_view() },
            Action::Stream => ActionView::Stream,
            Action::RunTask { input } => ActionView::RunTask { input: input.deep_view() },
            Action::TakeSnapshot { path } => ActionView::TakeSnapshot { path: path.deep_view() },
            Action::CheckTool { tool, input } => ActionView::CheckTool { tool: tool.deep_view(), input: input.deep_view() },
            Action::Ask { call_id, tool, kind, detail } => ActionView::Ask { call_id: call_id.deep_view(), tool: tool.deep_view(), kind: kind.deep_view(), detail: detail.deep_view() },
            Action::Exec { tool, input } => ActionView::Exec { tool: tool.deep_view(), input: input.deep_view() },
            Action::Finish { stop_reason, steps, usage } => ActionView::Finish { stop_reason: stop_reason.deep_view(), steps: steps.deep_view(), usage: usage.deep_view() },
            Action::Fail(x) => ActionView::Fail(x.deep_view()),
        }
    }
}

impl Dup for Action {
    fn dup(&self) -> (r: Self) {
        match self {
            Action::Emit(x) => Action::Emit(x.dup()),
            Action::Record(x) => Action::Record(x.dup()),
            Action::Hook { event, tool_input } => Action::Hook { event: event.dup(), tool_input: tool_input.dup() },
            Action::CheckPrompt { text } => Action::CheckPrompt { text: text.dup() },
            Action::Stream => Action::Stream,
            Action::RunTask { input } => Action::RunTask { input: input.dup() },
            Action::TakeSnapshot { path } => Action::TakeSnapshot { path: path.dup() },
            Action::CheckTool { tool, input } => Action::CheckTool { tool: tool.dup(), input: input.dup() },
            Action::Ask { call_id, tool, kind, detail } => Action::Ask { call_id: call_id.dup(), tool: tool.dup(), kind: kind.dup(), detail: detail.dup() },
            Action::Exec { tool, input } => Action::Exec { tool: tool.dup(), input: input.dup() },
            Action::Finish { stop_reason, steps, usage } => Action::Finish { stop_reason: stop_reason.dup(), steps: steps.dup(), usage: usage.dup() },
            Action::Fail(x) => Action::Fail(x.dup()),
        }
    }
}

impl Clone for Action {
    fn clone(&self) -> (r: Self)
        ensures
            r.deep_view() == self.deep_view(),
    {
        self.dup()
    }
}

/// What a turn waits for.
#[derive(Debug, Clone, Copy, PartialEq, Eq, Structural)]
pub enum Phase {
    Ready,
    Prompting,
    Streaming,
    Tasking,
    Snapshotting,
    Checking,
    Asking,
    Running,
    Done,
}

/// The model of `ToolInput`.
pub struct ToolInputView {
    pub call_id: Seq<char>,
    pub name: Seq<char>,
    pub json: Seq<char>,
}

/// A tool call under construction.
#[derive(Debug, PartialEq)]
pub struct ToolInput {
    pub call_id: CallId,
    pub name: String,
    /// The pieces of the arguments so far.
    pub json: String,
}

impl DeepView for ToolInput {
    type V = ToolInputView;

    open spec fn deep_view(&self) -> ToolInputView {
        ToolInputView {
            call_id: self.call_id.deep_view(),
            name: self.name.deep_view(),
            json: self.json.deep_view(),
        }
    }
}

impl Dup for ToolInput {
    fn dup(&self) -> (r: Self) {
        ToolInput {
            call_id: self.call_id.dup(),
            name: self.name.dup(),
            json: self.json.dup(),
        }
    }
}

impl Clone for ToolInput {
    fn clone(&self) -> (r: Self)
        ensures
            r.deep_view() == self.deep_view(),
    {
        self.dup()
    }
}

/// The model of `Gathered`.
pub struct GatheredView {
    pub text: Seq<char>,
    pub thinking: Seq<char>,
    pub calls: Seq<ToolInputView>,
    pub stop_reason: StopReason,
    pub usage: TokenUsageView,
}

/// What a stream has brought so far.
#[derive(Debug, PartialEq)]
pub struct Gathered {
    pub text: String,
    pub thinking: String,
    pub calls: Vec<ToolInput>,
    pub stop_reason: StopReason,
    pub usage: TokenUsage,
}

impl DeepView for Gathered {
    type V = GatheredView;

    open spec fn deep_view(&self) -> GatheredView {
        GatheredView {
            text: self.text.deep_view(),
            thinking: self.thinking.deep_view(),
            calls: self.calls.deep_view(),
            stop_reason: self.stop_reason.deep_view(),
            usage: self.usage.deep_view(),
        }
    }
}

impl Dup for Gathered {
    fn dup(&self) -> (r: Self) {
        Gathered {
            text: self.text.dup(),
            thinking: self.thinking.dup(),
            calls: self.calls.dup(),
            stop_reason: self.stop_reason.dup(),
            usage: self.usage.dup(),
        }
    }
}

impl Clone for Gathered {
    fn clone(&self) -> (r: Self)
        ensures
            r.deep_view() == self.deep_view(),
    {
        self.dup()
    }
}

// ---- gathering a stream ----

/// Nothing gathered yet.
pub open spec fn nothing_gathered() -> GatheredView {
    GatheredView {
        text: Seq::empty(),
        thinking: Seq::empty(),
        calls: Seq::empty(),
        stop_reason: StopReason::EndTurn,
        usage: no_usage(),
    }
}

/// Nothing used.
pub open spec fn no_usage() -> TokenUsageView {
    TokenUsageView { input: 0, cached_input: 0, output: 0, reasoning: 0 }
}

/// The place of a call among those under construction, or their number.
pub open spec fn call_place(s: Seq<ToolInputView>, id: Seq<char>) -> int
    decreases s.len(),
{
    if s.len() == 0 {
        0
    } else if s[0].call_id == id {
        0
    } else {
        1 + call_place(s.drop_first(), id)
    }
}

/// What a stream has brought, with one event more. A call that began twice counts
/// once, and pieces of a call that never began do not count.
pub open spec fn gathered(g: GatheredView, ev: ModelStreamEventView) -> GatheredView {
    match ev {
        ModelStreamEventView::TextDelta(t) => GatheredView { text: g.text + t, ..g },
        ModelStreamEventView::ThinkingDelta(t) => GatheredView { thinking: g.thinking + t, ..g },
        ModelStreamEventView::ToolUseBegin { call_id, name } => if call_place(g.calls, call_id)
            < g.calls.len() {
            g
        } else {
            GatheredView {
                calls: g.calls.push(ToolInputView { call_id, name, json: Seq::empty() }),
                ..g
            }
        },
        ModelStreamEventView::ToolUseInputDelta { call_id, json_fragment } => {
            let p = call_place(g.calls, call_id);
            if p < g.calls.len() {
                GatheredView {
                    calls: g.calls.update(
                        p,
                        ToolInputView { json: g.calls[p].json + json_fragment, ..g.calls[p] },
                    ),
                    ..g
                }
            } else {
                g
            }
        },
        ModelStreamEventView::ToolUseEnd { call_id } => g,
        ModelStreamEventView::MessageEnd { stop_reason, usage } => GatheredView {
            stop_reason,
            usage,
            ..g
        },
    }
}

/// What the front end is told of an event of the stream.
pub open spec fn told(ev: ModelStreamEventView) -> Option<TurnEventView> {
    match ev {
        ModelStreamEventView::TextDelta(t) => Some(TurnEventView::TextDelta(t)),
        ModelStreamEventView::ThinkingDelta(t) => Some(TurnEventView::ThinkingDelta(t)),
        ModelStreamEventView::ToolUseBegin { call_id, name } => Some(
            TurnEventView::ToolCallBegin { call_id, tool: name },
        ),
        ModelStreamEventView::ToolUseEnd { call_id } => Some(
            TurnEventView::ToolCallEnd { call_id },
        ),
        _ => None,
    }
}

impl Gathered {
    /// Nothing gathered yet.
    pub fn new() -> (r: Self)
        ensures
            r.deep_view() == nothing_gathered(),
    {
        let r = Gathered {
            text: String::new(),
            thinking: String::new(),
            calls: Vec::new(),
            stop_reason: StopReason::EndTurn,
            usage: TokenUsage::zero(),
        };
        assert(r.calls.deep_view() =~= Seq::<ToolInputView>::empty());
        r
    }

    fn find(&self, id: &str) -> (r: usize)
        ensures
            r == call_place(self.deep_view().calls, id@),
            r <= self.calls@.len(),
            self.deep_view().calls.len() == self.calls@.len(),
    {
        let mut i: usize = 0;
        let ghost all = self.deep_view().calls;
        assert(all.skip(0) =~= all);
        while i < self.calls.len()
            invariant
                i <= self.calls@.len(),
                all == self.calls.deep_view(),
                call_place(all, id@) == i + call_place(all.skip(i as int), id@),
            decreases self.calls@.len() - i,
        {
            assert(all.skip(i as int)[0] == self.calls@[i as int].deep_view());
            if same(self.calls[i].call_id.as_str(), id) {
                return i;
            }
            assert(all.skip(i as int).drop_first() =~= all.skip(i + 1));
            i = i + 1;
        }
        i
    }

    /// Take in one event of the stream; what the front end is told of it.
    pub fn take(&mut self, ev: ModelStreamEvent) -> (r: Option<TurnEvent>)
        ensures
            final(self).deep_view() == gathered(old(self).deep_view(), ev.deep_view()),
            r.deep_view() == told(ev.deep_view()),
    {
        let ghost before = self.deep_view();
        match ev {
            ModelStreamEvent::TextDelta(t) => {
                self.text.append(t.as_str());
                Some(TurnEvent::TextDelta(t))
            },
            ModelStreamEvent::ThinkingDelta(t) => {
                self.thinking.append(t.as_str());
                Some(TurnEvent::ThinkingDelta(t))
            },
            ModelStreamEvent::ToolUseBegin { call_id, name } => {
                let p: usize = self.find(call_id.as_str());
                if p == self.calls.len() {
                    let c = ToolInput {
                        call_id: call_id.clone(),
                        name: name.clone(),
                        json: String::new(),
                    };
                    self.calls.push(c);
                    assert(self.calls.deep_view() =~= before.calls.push(c.deep_view()));
                }
                Some(TurnEvent::ToolCallBegin { call_id, tool: name })
            },
            ModelStreamEvent::ToolUseInputDelta { call_id, json_fragment } => {
                let p: usize = self.find(call_id.as_str());
                if p < self.calls.len() {
                    let mut c = self.calls[p].dup();
                    c.json.append(json_fragment.as_str());
                    self.calls.set(p, c);
                    assert(self.calls.deep_view() =~= before.calls.update(
                        p as int,
                        c.deep_view(),
                    ));
                }
                None
            },
            ModelStreamEvent::ToolUseEnd { call_id } => Some(TurnEvent::ToolCallEnd { call_id }),
            ModelStreamEvent::MessageEnd { stop_reason, usage } => {
                self.stop_reason = stop_reason;
                self.usage = usage;
                None
            },
        }
    }
}

/// The arguments that a text stands for: none is an empty object, and what is not
/// JSON is handed on as a text that says so.
pub open spec fn arguments_of(json: Seq<char>) -> JsonView {
    if json.len() == 0 {
        JsonView::Object(Map::empty())
    } else {
        match json_read(json) {
            Some(j) => j,
            None => JsonView::Text(
                "[参数解析失败: "@ + json_refusal(json) + "]\n原始: "@ + json,
            ),
        }
    }
}

/// The arguments that a text stands for, where reading it came to `read`.
pub fn arguments_from(json: &str, read: Result<Json, String>) -> (r: Json)
    ensures
        r@ == (match read {
            Ok(j) => j@,
            Err(e) => JsonView::Text("[参数解析失败: "@ + e@ + "]\n原始: "@ + json@),
        }),
{
    match read {
        Ok(j) => j,
        Err(e) => {
            let head = cat3("[参数解析失败: ", e.as_str(), "]\n原始: ");
            let text = cat(head.as_str(), json);
            Json::Text(text)
        },
    }
}

/// The arguments that a text stands for.
pub fn parse_arguments(json: &str) -> (r: Json)
    ensures
        r@ == arguments_of(json@),
{
    if json.is_empty() {
        Members::new().done()
    } else {
        arguments_from(json, parse(json))
    }
}

/// The tool calls that a stream brought.
pub open spec fn requests_of(s: Seq<ToolInputView>) -> Seq<ToolRequestView> {
    Seq::new(
        s.len(),
        |i: int|
            ToolRequestView {
                call_id: s[i].call_id,
                tool: s[i].name,
                input: arguments_of(s[i].json),
            },
    )
}

/// The blocks of tool calls.
pub open spec fn call_blocks(s: Seq<ToolRequestView>) -> Seq<ModelContentView> {
    Seq::new(
        s.len(),
        |i: int|
            ModelContentView::ToolUse {
                call_id: s[i].call_id,
                name: s[i].tool,
                input: s[i].input,
            },
    )
}

/// The model's message: its thoughts, its text and its tool calls, as far as there
/// are any.
pub open spec fn message_of(g: GatheredView, calls: Seq<ToolRequestView>) -> Seq<ModelContentView> {
    let thinking = if g.thinking.len() == 0 {
        Seq::empty()
    } else {
        seq![ModelContentView::Thinking { text: g.thinking, signature: None }]
    };
    let text = if g.text.len() == 0 {
        Seq::empty()
    } else {
        seq![ModelContentView::Text(g.text)]
    };
    thinking + text + call_blocks(calls)
}

/// The tool calls that a stream brought.
pub fn tool_requests(calls: &Vec<ToolInput>) -> (r: Vec<ToolRequest>)
    ensures
        r.deep_view() == requests_of(calls.deep_view()),
{
    let mut out: Vec<ToolRequest> = Vec::new();
    let mut i: usize = 0;
    while i < calls.len()
        invariant
            i <= calls@.len(),
            out@.len() == i,
            forall|k: int|
                0 <= k < i ==> (#[trigger] out@[k]).deep_view() == requests_of(
                    calls.deep_view(),
                )[k],
        decreases calls@.len() - i,
    {
        let input = parse_arguments(calls[i].json.as_str());
        out.push(
            ToolRequest {
                call_id: calls[i].call_id.clone(),
                tool: calls[i].name.clone(),
                input,
            },
        );
        i = i + 1;
    }
    assert(out.deep_view() =~= requests_of(calls.deep_view()));
    out
}

/// The model's message.
pub fn assistant_content(g: &Gathered, calls: &Vec<ToolRequest>) -> (r: Vec<ModelContent>)
    ensures
        r.deep_view() == message_of(g.deep_view(), calls.deep_view()),
{
    let mut out: Vec<ModelContent> = Vec::new();
    if !g.thinking.as_str().is_empty() {
        out.push(ModelContent::Thinking { text: g.thinking.clone(), signature: None });
    }
    if !g.text.as_str().is_empty() {
        out.push(ModelContent::Text(g.text.clone()));
    }
    let ghost head = out.deep_view();
    let ghost blocks = call_blocks(calls.deep_view());
    let mut i: usize = 0;
    assert(out.deep_view() =~= head + blocks.take(0));
    while i < calls.len()
        invariant
            i <= calls@.len(),
            blocks == call_blocks(calls.deep_view()),
            out.deep_view() == head + blocks.take(i as int),
        decreases calls@.len() - i,
    {
        let ghost before = out.deep_view();
        let c = ModelContent::ToolUse {
            call_id: calls[i].call_id.clone(),
            name: calls[i].tool.clone(),
            input: calls[i].input.clone(),
        };
        out.push(c);
        assert(out.deep_view() =~= before.push(c.deep_view()));
        assert(calls.deep_view()[i as int] == calls@[i as int].deep_view());
        assert(out.deep_view() =~= head + blocks.take(i + 1));
        i = i + 1;
    }
    assert(calls.deep_view().len() == calls@.len());
    assert(blocks.take(blocks.len() as int) =~= blocks);
    assert(out.deep_view() =~= message_of(g.deep_view(), calls.deep_view()));
    out
}

// ---- blocks in the log ----

/// A block as the log has it.
pub open spec fn logged(c: ModelContentView) -> ContentView {
    match c {
        ModelContentView::Text(t) => ContentView::Text { text: t },
        ModelContentView::Thinking { text, signature } => ContentView::Thinking {
            text,
            signature,
        },
        ModelContentView::ToolUse { call_id, name, input } => ContentView::ToolUse {
            call_id,
            name,
            input,
        },
        ModelContentView::Image { mime, data_base64 } => ContentView::Image { mime, data_base64 },
    }
}

/// Blocks as the log has them.
pub open spec fn all_logged(s: Seq<ModelContentView>) -> Seq<ContentView> {
    Seq::new(s.len(), |i: int| logged(s[i]))
}

/// A block as the log has it.
pub fn model_content_to_content(c: &ModelContent) -> (r: Content)
    ensures
        r.deep_view() == logged(c.deep_view()),
{
    match c {
        ModelContent::Text(t) => Content::Text { text: t.clone() },
        ModelContent::Thinking { text, signature } => Content::Thinking {
            text: text.clone(),
            signature: signature.dup(),
        },
        ModelContent::ToolUse { call_id, name, input } => Content::ToolUse {
            call_id: call_id.clone(),
            name: name.clone(),
            input: input.clone(),
        },
        ModelContent::Image { mime, data_base64 } => Content::Image {
            mime: mime.clone(),
            data_base64: data_base64.clone(),
        },
    }
}

fn contents_for_log(v: &Vec<ModelContent>) -> (r: Vec<Content>)
    ensures
        r.deep_view() == all_logged(v.deep_view()),
{
    let mut out: Vec<Content> = Vec::new();
    let mut i: usize = 0;
    while i < v.len()
        invariant
            i <= v@.len(),
            out@.len() == i,
            forall|k: int|
                0 <= k < i ==> (#[trigger] out@[k]).deep_view() == logged(v@[k].deep_view()),
        decreases v@.len() - i,
    {
        out.push(model_content_to_content(&v[i]));
        i = i + 1;
    }
    assert(out.deep_view() =~= all_logged(v.deep_view()));
    out
}

/// A tool's result as the log has it.
pub open spec fn logged_result(content: Seq<char>, is_error: bool) -> JsonView {
    obj2("content"@, JsonView::Text(content), "is_error"@, JsonView::Bool(is_error))
}

/// A short form of a tool's output: its first line, cut short where it is long,
/// and marked where there are more.
pub open spec fn summary_of(s: Seq<char>) -> Seq<char> {
    let all = line_list(s);
    let first = if all.len() == 0 {
        Seq::empty()
    } else {
        all[0]
    };
    if byte_len(first) > 80 {
        clipped(first, 77) + "..."@
    } else if all.len() > 1 {
        first + " ..."@
    } else {
        first
    }
}

/// A short form of a tool's output.
pub fn summarize(s: &str) -> (r: String)
    ensures
        r@ == summary_of(s@),
{
    let all = lines(s);
    let first = if all.len() == 0 {
        String::new()
    } else {
        assert(line_list(s@)[0] == all@[0]@);
        all[0].clone()
    };
    assert(line_list(s@).len() == all@.len());
    if bytes_len(first.as_str()) > 80 {
        let c = clip(first.as_str(), 77);
        cat(c.as_str(), "...")
    } else if all.len() > 1 {
        cat(first.as_str(), " ...")
    } else {
        first
    }
}

/// The first text of a message's blocks.
pub open spec fn first_text(s: Seq<ModelContentView>) -> Option<Seq<char>>
    decreases s.len(),
{
    if s.len() == 0 {
        None
    } else {
        match s[0] {
            ModelContentView::Text(t) => Some(t),
            _ => first_text(s.drop_first()),
        }
    }
}

/// The first text of a message's blocks.
pub fn find_text(v: &Vec<ModelContent>) -> (r: Option<String>)
    ensures
        r.deep_view() == first_text(v.deep_view()),
{
    let mut i: usize = 0;
    let ghost all = v.deep_view();
    assert(all.skip(0) =~= all);
    while i < v.len()
        invariant
            i <= v@.len(),
            all == v.deep_view(),
            first_text(all) == first_text(all.skip(i as int)),
        decreases v@.len() - i,
    {
        assert(all.skip(i as int)[0] == v@[i as int].deep_view());
        match &v[i] {
            ModelContent::Text(t) => {
                return Some(t.clone());
            },
            _ => {},
        }
        assert(all.skip(i as int).drop_first() =~= all.skip(i + 1));
        i = i + 1;
    }
    None
}

/// The text of the last user's message that has any.
pub open spec fn last_user_text(s: Seq<ModelMessageView>) -> Option<Seq<char>>
    decreases s.len(),
{
    if s.len() == 0 {
        None
    } else {
        match s.last() {
            ModelMessageView::User { content } => match first_text(content) {
                Some(t) => Some(t),
                None => last_user_text(s.drop_last()),
            },
            _ => last_user_text(s.drop_last()),
        }
    }
}

/// The text of the last user's message that has any.
pub fn find_user_text(v: &Vec<ModelMessage>) -> (r: Option<String>)
    ensures
        r.deep_view() == last_user_text(v.deep_view()),
{
    let mut n: usize = v.len();
    let ghost all = v.deep_view();
    assert(all.take(n as int) =~= all);
    while n > 0
        invariant
            n <= v@.len(),
            all == v.deep_view(),
            last_user_text(all) == last_user_text(all.take(n as int)),
        decreases n,
    {
        assert(all.take(n as int).last() == v@[n - 1].deep_view());
        assert(all.take(n as int).drop_last() =~= all.take(n - 1));
        match &v[n - 1] {
            ModelMessage::User { content } => {
                let t = find_text(content);
                if t.is_some() {
                    return t;
                }
            },
            _ => {},
        }
        n = n - 1;
    }
    None
}

/// The text of the last model's message that has any.
pub open spec fn last_reply(s: Seq<ModelMessageView>) -> Option<Seq<char>>
    decreases s.len(),
{
    if s.len() == 0 {
        None
    } else {
        match s.last() {
            ModelMessageView::Assistant { content } => match first_text(content) {
                Some(t) => Some(t),
                None => last_reply(s.drop_last()),
            },
            _ => last_reply(s.drop_last()),
        }
    }
}

/// The text of the last model's message that has any.
pub fn find_reply(v: &Vec<ModelMessage>) -> (r: Option<String>)
    ensures
        r.deep_view() == last_reply(v.deep_view()),
{
    let mut n: usize = v.len();
    let ghost all = v.deep_view();
    assert(all.take(n as int) =~= all);
    while n > 0
        invariant
            n <= v@.len(),
            all == v.deep_view(),
            last_reply(all) == last_reply(all.take(n as int)),
        decreases n,
    {
        assert(all.take(n as int).last() == v@[n - 1].deep_view());
        assert(all.take(n as int).drop_last() =~= all.take(n - 1));
        match &v[n - 1] {
            ModelMessage::Assistant { content } => {
                let t = find_text(content);
                if t.is_some() {
                    return t;
                }
            },
            _ => {},
        }
        n = n - 1;
    }
    None
}

// ---- the turn ----

/// How a turn is run.
#[derive(Debug, PartialEq)]
pub struct TurnConfig {
    /// How often the model may be asked.
    pub max_steps: u32,
    /// The directories in which session hooks run without a word.
    pub trusted_projects: Vec<String>,
}

impl Default for TurnConfig {
    fn default() -> (r: Self)
        ensures
            r.max_steps == 100,
            r.trusted_projects@.len() == 0,
    {
        TurnConfig { max_steps: 100, trusted_projects: Vec::new() }
    }
}

impl TurnConfig {
    /// How the settings have a turn run.
    pub fn from_settings(c: &Config) -> (r: Self)
        ensures
            r.max_steps == c.deep_view().max_turn_steps,
            r.trusted_projects.deep_view() == c.deep_view().trusted_projects,
    {
        TurnConfig { max_steps: c.max_turn_steps, trusted_projects: c.trusted_projects.dup() }
    }
}

/// What a turn came to.
#[derive(Debug, PartialEq)]
pub struct TurnResult {
    pub stop_reason: StopReason,
    pub steps: u32,
    pub usage: TokenUsage,
    pub messages: Vec<ModelMessage>,
}

/// The model of `Turn`.
pub struct TurnView {
    pub max_steps: u32,
    pub tools: Seq<Seq<char>>,
    pub turn_id: Seq<char>,
    pub cwd: Seq<char>,
    pub trusted: bool,
    pub start_hooks: bool,
    pub snapshots: bool,
    pub steps: u32,
    pub messages: Seq<ModelMessageView>,
    pub gathered: GatheredView,
    pub queue: Seq<ToolRequestView>,
    pub phase: Phase,
}

/// A turn under way.
pub struct Turn {
    /// How often the model may be asked.
    pub max_steps: u32,
    /// The names of the tools that there are.
    pub tools: Vec<String>,
    pub turn_id: TurnId,
    pub cwd: String,
    /// Whether the directory is trusted.
    pub trusted: bool,
    /// Whether there are hooks for the start of a session.
    pub start_hooks: bool,
    /// Whether files are snapshot before they change.
    pub snapshots: bool,
    /// How often the model has been asked.
    pub steps: u32,
    pub messages: Vec<ModelMessage>,
    /// What the current or last stream brought.
    pub gathered: Gathered,
    /// The calls that are still to be made, the current one first.
    pub queue: Vec<ToolRequest>,
    pub phase: Phase,
}

impl DeepView for Turn {
    type V = TurnView;

    open spec fn deep_view(&self) -> TurnView {
        TurnView {
            max_steps: self.max_steps,
            tools: views(self.tools@),
            turn_id: self.turn_id.deep_view(),
            cwd: self.cwd@,
            trusted: self.trusted,
            start_hooks: self.start_hooks,
            snapshots: self.snapshots,
            steps: self.steps,
            messages: self.messages.deep_view(),
            gathered: self.gathered.deep_view(),
            queue: self.queue.deep_view(),
            phase: self.phase,
        }
    }
}

/// A turn, and what has been decided to be done so far.
pub struct Moved {
    pub turn: TurnView,
    pub actions: Seq<ActionView>,
}

/// Run hooks whose outcome does not matter.
pub open spec fn hook(e: HookEventView) -> ActionView {
    ActionView::Hook { event: e, tool_input: None }
}

/// Record the end of a turn.
pub open spec fn boundary(t: TurnView, stop: StopReason) -> ActionView {
    ActionView::Record(LogEventView::TurnBoundary { turn_id: t.turn_id, stop_reason: stop })
}

/// End the turn: tell the hooks, record the end, and finish.
pub open spec fn ended(
    m: Moved,
    message: Seq<char>,
    stop_reason: StopReason,
    steps: u32,
    usage: TokenUsageView,
) -> Moved {
    Moved {
        turn: TurnView { phase: Phase::Done, ..m.turn },
        actions: m.actions.push(hook(HookEventView::Notification { message })).push(
            boundary(m.turn, stop_reason),
        ).push(ActionView::Finish { stop_reason, steps, usage }),
    }
}

/// Ask the model, unless it has been asked often enough or the turn is cancelled.
pub open spec fn next_step(m: Moved, cancelled: bool) -> Moved {
    let t = m.turn;
    if t.steps >= t.max_steps {
        ended(
            Moved {
                actions: m.actions.push(
                    ActionView::Emit(
                        TurnEventView::Error(
                            "max_steps("@ + decimal_of(t.max_steps as nat) + ") 超限"@,
                        ),
                    ),
                ),
                ..m
            },
            Seq::empty(),
            StopReason::MaxSteps,
            t.steps,
            no_usage(),
        )
    } else if cancelled {
        ended(m, Seq::empty(), StopReason::Interrupted, t.steps, no_usage())
    } else {
        Moved {
            turn: TurnView {
                steps: (t.steps + 1) as u32,
                gathered: nothing_gathered(),
                phase: Phase::Streaming,
                ..t
            },
            actions: m.actions.push(ActionView::Stream),
        }
    }
}

/// The current call is over: its result goes to the model and into the log.
pub open spec fn settled(
    m: Moved,
    content: Seq<char>,
    is_error: bool,
    summary: Seq<char>,
    duration_ms: u64,
) -> Moved {
    let t = m.turn;
    let c = t.queue[0];
    Moved {
        turn: TurnView {
            messages: t.messages.push(
                ModelMessageView::ToolResult {
                    call_id: c.call_id,
                    content: seq![ModelContentView::Text(content)],
                    is_error,
                },
            ),
            queue: t.queue.drop_first(),
            ..t
        },
        actions: m.actions.push(
            ActionView::Emit(
                TurnEventView::ToolExecEnd { call_id: c.call_id, ok: !is_error, summary },
            ),
        ).push(
            ActionView::Record(
                LogEventView::ToolResult {
                    call_id: c.call_id,
                    output: logged_result(content, is_error),
                    duration_ms,
                },
            ),
        ),
    }
}

/// What a call touches; nothing is known of a tool that there is not.
pub open spec fn key_of(t: TurnView, c: ToolRequestView) -> Option<PermissionKeyView> {
    if t.tools.contains(c.tool) {
        touched(c.tool, c.input, t.cwd)
    } else {
        None
    }
}

/// The pattern of the rule that a decision rests on.
pub open spec fn pattern_of(d: DecisionView) -> Option<Seq<char>> {
    match d.source {
        VerdictSourceView::Rule { rule } => Some(rule.pattern),
        _ => None,
    }
}

/// The request for approval of the current call.
pub open spec fn request_for(t: TurnView, e: EngineView) -> ApprovalDetailView {
    let c = t.queue[0];
    detail_for(c.tool, key_of(t, c), pattern_of(decision(e, c.tool, key_of(t, c))))
}

/// Whether files are snapshot before the current call.
pub open spec fn wants_snapshot(t: TurnView) -> bool {
    let c = t.queue[0];
    t.snapshots && class_of(c.tool) == ToolClass::Write && (key_of(t, c) matches Some(
        PermissionKeyView::Path { path },
    ))
}

/// Take up the next call: record it, and let the permissions decide. Denied calls
/// are settled on the spot. When there is no call left, the model is asked again.
pub open spec fn next_call(m: Moved, e: EngineView, cancelled: bool) -> Moved
    decreases m.turn.queue.len(),
{
    let t = m.turn;
    if t.queue.len() == 0 {
        next_step(m, cancelled)
    } else {
        let c = t.queue[0];
        let m1 = Moved {
            actions: m.actions.push(
                ActionView::Record(
                    LogEventView::ToolCall { call_id: c.call_id, tool: c.tool, args: c.input },
                ),
            ),
            ..m
        };
        if c.tool == "Task"@ {
            Moved {
                turn: TurnView { phase: Phase::Tasking, ..t },
                actions: m1.actions.push(ActionView::RunTask { input: c.input }),
            }
        } else {
            match decision(e, c.tool, key_of(t, c)).verdict {
                Verdict::Deny => next_call(
                    settled(
                        m1,
                        "被权限策略拒绝(工具: "@ + c.tool + ")"@,
                        true,
                        "权限拒绝"@,
                        0,
                    ),
                    e,
                    cancelled,
                ),
                Verdict::Allow => if wants_snapshot(t) {
                    Moved {
                        turn: TurnView { phase: Phase::Snapshotting, ..t },
                        actions: m1.actions.push(
                            ActionView::TakeSnapshot { path: key_of(t, c)->0->Path_path },
                        ),
                    }
                } else {
                    checking(m1)
                },
                Verdict::Ask => Moved {
                    turn: TurnView { phase: Phase::Asking, ..t },
                    actions: m1.actions.push(
                        ActionView::Emit(
                            TurnEventView::ApprovalRequest {
                                call_id: c.call_id,
                                kind: kind_of(c.tool),
                                detail: request_for(t, e),
                            },
                        ),
                    ).push(
                        ActionView::Ask {
                            call_id: c.call_id,
                            tool: c.tool,
                            kind: kind_of(c.tool),
                            detail: request_for(t, e),
                        },
                    ),
                },
            }
        }
    }
}

/// Let the hooks check the current call.
pub open spec fn checking(m: Moved) -> Moved {
    let c = m.turn.queue[0];
    Moved {
        turn: TurnView { phase: Phase::Checking, ..m.turn },
        actions: m.actions.push(ActionView::CheckTool { tool: c.tool, input: c.input }),
    }
}

/// The model's message is complete: it is recorded, and its calls are taken up. A
/// message without calls ends the turn.
pub open spec fn closed(m: Moved, e: EngineView, cancelled: bool) -> Moved {
    let t = m.turn;
    let g = t.gathered;
    let calls = requests_of(g.calls);
    let content = message_of(g, calls);
    let m1 = Moved {
        turn: TurnView {
            messages: t.messages.push(ModelMessageView::Assistant { content }),
            queue: calls,
            ..t
        },
        actions: m.actions.push(
            ActionView::Record(
                LogEventView::AssistantMessage {
                    content: all_logged(content),
                    usage: g.usage,
                    turn_id: t.turn_id,
                },
            ),
        ).push(
            ActionView::Emit(TurnEventView::ModelMessageEnd { stop_reason: g.stop_reason }),
        ).push(ActionView::Emit(TurnEventView::Usage(g.usage))),
    };
    if calls.len() == 0 {
        Moved {
            turn: TurnView { phase: Phase::Done, ..m1.turn },
            actions: m1.actions.push(hook(HookEventView::Notification { message: g.text })).push(
                hook(HookEventView::SessionEnd),
            ).push(hook(HookEventView::Stop)).push(boundary(t, g.stop_reason)).push(
                ActionView::Finish { stop_reason: g.stop_reason, steps: t.steps, usage: g.usage },
            ),
        }
    } else {
        next_call(m1, e, cancelled)
    }
}

/// The content, error mark and summary of a reply, where a failure reads `head`.
pub open spec fn reply_content(r: ReplyView, head: Seq<char>) -> (Seq<char>, bool, Seq<char>) {
    match r {
        ReplyView::Output(o) => (o.content, o.is_error, summary_of(o.content)),
        ReplyView::Failed(e) => (head + error_words(e) + "]"@, true, error_words(e)),
    }
}

/// The current call has been run.
pub open spec fn ran(m: Moved, e: EngineView, r: ReplyView, duration_ms: u64, cancelled: bool) -> Moved {
    let c = m.turn.queue[0];
    let (content, is_error, summary) = reply_content(r, "[工具执行失败: "@);
    let m1 = settled(m, content, is_error, summary, duration_ms);
    next_call(
        Moved {
            actions: m1.actions.push(
                ActionView::Hook {
                    event: HookEventView::PostToolUse { tool: c.tool },
                    tool_input: Some(c.input),
                },
            ),
            ..m1
        },
        e,
        cancelled,
    )
}

/// The hooks have checked the current call.
pub open spec fn checked(m: Moved, e: EngineView, o: HookOutcomeView, cancelled: bool) -> Moved {
    let t = m.turn;
    let c = t.queue[0];
    match o {
        HookOutcomeView::Block(reason) => next_call(
            settled(m, "被 hook 阻断: "@ + reason, true, "hook 阻断"@, 0),
            e,
            cancelled,
        ),
        HookOutcomeView::Pass => {
            let m1 = Moved {
                actions: m.actions.push(
                    ActionView::Emit(TurnEventView::ToolExecBegin { call_id: c.call_id }),
                ),
                ..m
            };
            if t.tools.contains(c.tool) {
                Moved {
                    turn: TurnView { phase: Phase::Running, ..t },
                    actions: m1.actions.push(ActionView::Exec { tool: c.tool, input: c.input }),
                }
            } else {
                ran(
                    m1,
                    e,
                    ReplyView::Output(
                        ToolOutputView { content: "未知工具: "@ + c.tool, is_error: true },
                    ),
                    0,
                    cancelled,
                )
            }
        },
    }
}

/// The engine after the user's answer about the current call.
pub open spec fn engine_after(t: TurnView, e: EngineView, d: ReviewDecision) -> EngineView {
    let c = t.queue[0];
    match (d, key_of(t, c)) {
        (ReviewDecision::ApproveForSession, Some(k)) => EngineView {
            grants: e.grants.insert((c.tool, key_text(k))),
            ..e
        },
        _ => e,
    }
}

/// The user has answered about the current call.
pub open spec fn answered(m: Moved, e: EngineView, d: ReviewDecision, cancelled: bool) -> Moved {
    let t = m.turn;
    let c = t.queue[0];
    let m1 = Moved {
        actions: m.actions.push(
            ActionView::Emit(TurnEventView::ApprovalResolved { call_id: c.call_id, decision: d }),
        ).push(
            ActionView::Record(
                LogEventView::Approval {
                    call_id: c.call_id,
                    verdict: d,
                    rule_suggestion: suggestion(c.tool, key_of(t, c)),
                },
            ),
        ),
        ..m
    };
    match d {
        ReviewDecision::Approve => checking(m1),
        ReviewDecision::ApproveForSession => match key_of(t, c) {
            Some(k) => checking(
                Moved {
                    actions: m1.actions.push(
                        ActionView::Record(
                            LogEventView::PermissionGrant { tool: c.tool, pattern: key_text(k) },
                        ),
                    ),
                    ..m1
                },
            ),
            None => checking(m1),
        },
        ReviewDecision::Deny => next_call(
            settled(m1, "用户拒绝执行(工具: "@ + c.tool + ")"@, true, "用户拒绝"@, 0),
            e,
            cancelled,
        ),
        ReviewDecision::Abort => ended(
            m1,
            t.gathered.text,
            StopReason::Interrupted,
            t.steps,
            t.gathered.usage,
        ),
    }
}

/// The prompt has been checked.
pub open spec fn prompted(m: Moved, o: HookOutcomeView, cancelled: bool) -> Moved {
    let t = m.turn;
    match o {
        HookOutcomeView::Block(reason) => Moved {
            turn: TurnView { phase: Phase::Done, ..t },
            actions: m.actions.push(
                ActionView::Emit(TurnEventView::Error("UserPromptSubmit hook 阻断: "@ + reason)),
            ).push(boundary(t, StopReason::Interrupted)).push(
                ActionView::Finish {
                    stop_reason: StopReason::Interrupted,
                    steps: 0,
                    usage: no_usage(),
                },
            ),
        },
        HookOutcomeView::Pass => {
            let warned = if !t.trusted && t.start_hooks {
                m.actions.push(
                    ActionView::Emit(
                        TurnEventView::BackgroundEvent(
                            "⚠ 未信任项目: "@ + t.cwd
                                + "。session_start hooks 将执行,请确认项目安全。"@,
                        ),
                    ),
                )
            } else {
                m.actions
            };
            next_step(
                Moved { actions: warned.push(hook(HookEventView::SessionStart)), ..m },
                cancelled,
            )
        },
    }
}

/// An event of the stream has come.
pub open spec fn streamed(m: Moved, e: EngineView, ev: ModelStreamEventView, cancelled: bool) -> Moved {
    let t = m.turn;
    if cancelled {
        ended(
            m,
            t.gathered.text,
            StopReason::Interrupted,
            (t.steps - 1) as u32,
            t.gathered.usage,
        )
    } else {
        let m1 = Moved {
            turn: TurnView { gathered: gathered(t.gathered, ev), ..t },
            actions: match told(ev) {
                Some(x) => m.actions.push(ActionView::Emit(x)),
                None => m.actions,
            },
        };
        match ev {
            ModelStreamEventView::MessageEnd { stop_reason, usage } => closed(m1, e, cancelled),
            _ => m1,
        }
    }
}

/// What a turn does with what came in. What it does not wait for leaves it as it
/// is.
pub open spec fn moved(t: TurnView, e: EngineView, input: InputView, cancelled: bool) -> Moved {
    let m = Moved { turn: t, actions: Seq::empty() };
    match (t.phase, input) {
        (Phase::Ready, InputView::Start) => Moved {
            turn: TurnView { phase: Phase::Prompting, ..t },
            actions: m.actions.push(
                ActionView::CheckPrompt { text: or_text(last_user_text(t.messages), Seq::empty()) },
            ),
        },
        (Phase::Prompting, InputView::PromptChecked(o)) => prompted(m, o, cancelled),
        (Phase::Streaming, InputView::Chunk(ev)) => streamed(m, e, ev, cancelled),
        (Phase::Streaming, InputView::StreamEnd) => closed(m, e, cancelled),
        (Phase::Streaming, InputView::Refused(err)) => Moved {
            turn: TurnView { phase: Phase::Done, ..t },
            actions: m.actions.push(ActionView::Fail(err)),
        },
        (Phase::Streaming, InputView::Broke(err)) => if cancelled {
            ended(
                m,
                t.gathered.text,
                StopReason::Interrupted,
                (t.steps - 1) as u32,
                t.gathered.usage,
            )
        } else {
            Moved {
                turn: TurnView { phase: Phase::Done, ..t },
                actions: m.actions.push(ActionView::Fail(err)),
            }
        },
        (Phase::Tasking, InputView::TaskDone(r)) => {
            let (content, is_error, summary) = reply_content(r, "[子 agent 失败: "@);
            next_call(settled(m, content, is_error, summary, 0), e, cancelled)
        },
        (Phase::Snapshotting, InputView::SnapshotTaken(s)) => checking(
            match s {
                Some(s) => Moved {
                    actions: m.actions.push(
                        ActionView::Record(
                            LogEventView::Checkpoint {
                                checkpoint_id: s.checkpoint_id,
                                shadow_commit: s.commit,
                            },
                        ),
                    ),
                    ..m
                },
                None => m,
            },
        ),
        (Phase::Checking, InputView::ToolChecked(o)) => checked(m, e, o, cancelled),
        (Phase::Asking, InputView::Answered(d)) => answered(m, engine_after(t, e, d), d, cancelled),
        (Phase::Running, InputView::ToolDone { reply, duration_ms }) => ran(
            m,
            e,
            reply,
            duration_ms,
            cancelled,
        ),
        _ => m,
    }
}

/// What the engine is after what came in.
pub open spec fn engine_moved(t: TurnView, e: EngineView, input: InputView) -> EngineView {
    match (t.phase, input) {
        (Phase::Asking, InputView::Answered(d)) => engine_after(t, e, d),
        _ => e,
    }
}

/// A turn waits for something about a call only while there is one, and for the
/// model only after asking it.
pub open spec fn turn_inv(t: TurnView) -> bool {
    &&& t.steps <= t.max_steps
    &&& t.phase == Phase::Streaming ==> t.steps > 0
    &&& (t.phase == Phase::Tasking || t.phase == Phase::Snapshotting || t.phase == Phase::Checking
        || t.phase == Phase::Asking || t.phase == Phase::Running) ==> t.queue.len() > 0
}

fn act(out: &mut Vec<Action>, a: Action)
    ensures
        final(out).deep_view() == old(out).deep_view().push(a.deep_view()),
{
    out.push(a);
    assert(out.deep_view() =~= old(out).deep_view().push(a.deep_view()));
}

/// A turn and what has been decided so far.
spec fn at(t: Turn, out: Vec<Action>) -> Moved {
    Moved { turn: t.deep_view(), actions: out.deep_view() }
}

impl Turn {
    /// A turn that is about to start.
    pub fn new(
        config: &TurnConfig,
        tools: Vec<String>,
        turn_id: TurnId,
        cwd: String,
        start_hooks: bool,
        snapshots: bool,
        messages: Vec<ModelMessage>,
    ) -> (r: Self)
        ensures
            turn_inv(r.deep_view()),
            r.deep_view() == (TurnView {
                max_steps: config.max_steps,
                tools: views(tools@),
                turn_id: turn_id.deep_view(),
                cwd: cwd@,
                trusted: is_among(views(config.trusted_projects@), cwd@),
                start_hooks,
                snapshots,
                steps: 0,
                messages: messages.deep_view(),
                gathered: nothing_gathered(),
                queue: Seq::empty(),
                phase: Phase::Ready,
            }),
    {
        let trusted = among(&config.trusted_projects, cwd.as_str());
        let r = Turn {
            max_steps: config.max_steps,
            tools,
            turn_id,
            cwd,
            trusted,
            start_hooks,
            snapshots,
            steps: 0,
            messages,
            gathered: Gathered::new(),
            queue: Vec::new(),
            phase: Phase::Ready,
        };
        assert(r.queue.deep_view() =~= Seq::<ToolRequestView>::empty());
        r
    }

    fn end(
        &mut self,
        out: &mut Vec<Action>,
        message: &str,
        stop_reason: StopReason,
        steps: u32,
        usage: TokenUsage,
    )
        ensures
            at(*final(self), *final(out)) == ended(
                at(*old(self), *old(out)),
                message@,
                stop_reason,
                steps,
                usage.deep_view(),
            ),
    {
        act(
            out,
            Action::Hook {
                event: HookEvent::Notification { message: message.to_owned() },
                tool_input: None,
            },
        );
        self.bound(out, stop_reason);
        act(out, Action::Finish { stop_reason, steps, usage });
        self.phase = Phase::Done;
    }

    fn bound(&self, out: &mut Vec<Action>, stop_reason: StopReason)
        ensures
            final(out).deep_view() == old(out).deep_view().push(
                boundary(self.deep_view(), stop_reason),
            ),
    {
        act(
            out,
            Action::Record(
                LogEvent::TurnBoundary { turn_id: self.turn_id.clone(), stop_reason },
            ),
        );
    }

    fn ask_model(&mut self, out: &mut Vec<Action>, cancelled: bool)
        requires
            old(self).steps <= old(self).max_steps,
        ensures
            at(*final(self), *final(out)) == next_step(at(*old(self), *old(out)), cancelled),
    {
        if self.steps >= self.max_steps {
            let n = decimal(self.max_steps as u64);
            let text = cat3("max_steps(", n.as_str(), ") 超限");
            act(out, Action::Emit(TurnEvent::Error(text)));
            let steps: u32 = self.steps;
            proof {
                reveal_strlit("");
                assert(""@ =~= Seq::<char>::empty());
            }
            self.end(out, "", StopReason::MaxSteps, steps, TokenUsage::zero());
        } else if cancelled {
            let steps: u32 = self.steps;
            proof {
                reveal_strlit("");
                assert(""@ =~= Seq::<char>::empty());
            }
            self.end(out, "", StopReason::Interrupted, steps, TokenUsage::zero());
        } else {
            self.steps = self.steps + 1;
            self.gathered = Gathered::new();
            self.phase = Phase::Streaming;
            act(out, Action::Stream);
        }
    }

    fn settle(
        &mut self,
        out: &mut Vec<Action>,
        content: String,
        is_error: bool,
        summary: String,
        duration_ms: u64,
    )
        requires
            old(self).queue@.len() > 0,
        ensures
            at(*final(self), *final(out)) == settled(
                at(*old(self), *old(out)),
                content@,
                is_error,
                summary@,
                duration_ms,
            ),
            final(self).steps == old(self).steps,
            final(self).max_steps == old(self).max_steps,
            final(self).queue@.len() == old(self).queue@.len() - 1,
    {
        let ghost before = self.deep_view();
        assert(before.queue[0] == self.queue@[0].deep_view());
        let c = self.queue.remove(0);
        assert(self.queue.deep_view() =~= before.queue.drop_first());
        act(
            out,
            Action::Emit(
                TurnEvent::ToolExecEnd { call_id: c.call_id.clone(), ok: !is_error, summary },
            ),
        );
        let output = object2(
            "content",
            Json::text(content.as_str()),
            "is_error",
            Json::Bool(is_error),
        );
        act(
            out,
            Action::Record(
                LogEvent::ToolResult { call_id: c.call_id.clone(), output, duration_ms },
            ),
        );
        let mut blocks: Vec<ModelContent> = Vec::new();
        let block = ModelContent::Text(content);
        blocks.push(block);
        assert(blocks.deep_view() =~= seq![block.deep_view()]);
        let msg = ModelMessage::ToolResult { call_id: c.call_id, content: blocks, is_error };
        self.messages.push(msg);
        assert(self.messages.deep_view() =~= before.messages.push(msg.deep_view()));
    }

    fn knows(&self, tool: &str) -> (r: bool)
        ensures
            r == self.deep_view().tools.contains(tool@),
    {
        let mut i: usize = 0;
        while i < self.tools.len()
            invariant
                i <= self.tools@.len(),
                forall|k: int| 0 <= k < i ==> #[trigger] self.deep_view().tools[k] != tool@,
            decreases self.tools@.len() - i,
        {
            assert(self.deep_view().tools[i as int] == self.tools@[i as int]@);
            if same(self.tools[i].as_str(), tool) {
                return true;
            }
            i = i + 1;
        }
        assert(self.deep_view().tools.len() == self.tools@.len());
        false
    }

    fn key(&self, c: &ToolRequest) -> (r: Option<PermissionKey>)
        ensures
            match r {
                Some(k) => key_of(self.deep_view(), c.deep_view()) == Some(k.deep_view()),
                None => key_of(self.deep_view(), c.deep_view()) is None,
            },
    {
        if self.knows(c.tool.as_str()) {
            permission_key(c.tool.as_str(), &c.input, self.cwd.as_str())
        } else {
            None
        }
    }

    fn check(&mut self, out: &mut Vec<Action>)
        requires
            old(self).queue@.len() > 0,
        ensures
            at(*final(self), *final(out)) == checking(at(*old(self), *old(out))),
    {
        assert(self.deep_view().queue[0] == self.queue@[0].deep_view());
        let tool = self.queue[0].tool.clone();
        let input = self.queue[0].input.clone();
        act(out, Action::CheckTool { tool, input });
        self.phase = Phase::Checking;
    }

    /// Take up the current call; true where it was denied and settled.
    fn take_up(&mut self, out: &mut Vec<Action>, engine: &PermissionEngine) -> (r: bool)
        requires
            old(self).queue@.len() > 0,
        ensures
            r ==> final(self).queue@.len() == old(self).queue@.len() - 1,
            r ==> final(self).steps == old(self).steps,
            r ==> final(self).max_steps == old(self).max_steps,
            forall|cancelled: bool|
                #![trigger next_call(at(*old(self), *old(out)), engine.deep_view(), cancelled)]
                {
                    let whole = next_call(at(*old(self), *old(out)), engine.deep_view(), cancelled);
                    &&& r ==> whole == next_call(
                        at(*final(self), *final(out)),
                        engine.deep_view(),
                        cancelled,
                    )
                    &&& !r ==> whole == at(*final(self), *final(out))
                },
    {
        let ghost before = self.deep_view();
        assert(before.queue[0] == self.queue@[0].deep_view());
        let c = self.queue[0].dup();
        act(
            out,
            Action::Record(
                LogEvent::ToolCall {
                    call_id: c.call_id.clone(),
                    tool: c.tool.clone(),
                    args: c.input.clone(),
                },
            ),
        );
        if same(c.tool.as_str(), "Task") {
            act(out, Action::RunTask { input: c.input });
            self.phase = Phase::Tasking;
            return false;
        }
        let key = self.key(&c);
        let k = key.as_ref();
        assert(key_view(k) == key_of(before, c.deep_view()));
        let d = engine.decide(c.tool.as_str(), k);
        match d.verdict {
            Verdict::Deny => {
                let text = cat3("被权限策略拒绝(工具: ", c.tool.as_str(), ")");
                self.settle(out, text, true, "权限拒绝".to_owned(), 0);
                true
            },
            Verdict::Allow => {
                match (&key, tool_class(c.tool.as_str())) {
                    (Some(PermissionKey::Path { path }), ToolClass::Write) => {
                        if self.snapshots {
                            act(out, Action::TakeSnapshot { path: path.clone() });
                            self.phase = Phase::Snapshotting;
                            return false;
                        }
                    },
                    _ => {},
                }
                self.check(out);
                false
            },
            Verdict::Ask => {
                let pattern = match &d.source {
                    VerdictSource::Rule { rule } => Some(rule.pattern.as_str()),
                    _ => None,
                };
                let req = approval_request(
                    c.call_id.clone(),
                    c.tool.as_str(),
                    k,
                    pattern,
                );
                act(
                    out,
                    Action::Emit(
                        TurnEvent::ApprovalRequest {
                            call_id: c.call_id,
                            kind: req.kind,
                            detail: req.detail.dup(),
                        },
                    ),
                );
                act(
                    out,
                    Action::Ask {
                        call_id: req.call_id,
                        tool: req.tool,
                        kind: req.kind,
                        detail: req.detail,
                    },
                );
                self.phase = Phase::Asking;
                false
            },
        }
    }

    fn go_on(&mut self, out: &mut Vec<Action>, engine: &PermissionEngine, cancelled: bool)
        requires
            old(self).steps <= old(self).max_steps,
        ensures
            at(*final(self), *final(out)) == next_call(
                at(*old(self), *old(out)),
                engine.deep_view(),
                cancelled,
            ),
    {
        let ghost whole = next_call(at(*self, *out), engine.deep_view(), cancelled);
        while self.queue.len() > 0
            invariant
                self.steps <= self.max_steps,
                whole == next_call(at(*self, *out), engine.deep_view(), cancelled),
                whole == next_call(at(*old(self), *old(out)), engine.deep_view(), cancelled),
            decreases self.queue@.len(),
        {
            if !self.take_up(out, engine) {
                return;
            }
        }
        assert(self.deep_view().queue.len() == 0);
        self.ask_model(out, cancelled);
    }

    fn close(&mut self, out: &mut Vec<Action>, engine: &PermissionEngine, cancelled: bool)
        requires
            old(self).steps <= old(self).max_steps,
        ensures
            at(*final(self), *final(out)) == closed(
                at(*old(self), *old(out)),
                engine.deep_view(),
                cancelled,
            ),
    {
        let ghost before = self.deep_view();
        let calls = tool_requests(&self.gathered.calls);
        let content = assistant_content(&self.gathered, &calls);
        act(
            out,
            Action::Record(
                LogEvent::AssistantMessage {
                    content: contents_for_log(&content),
                    usage: self.gathered.usage,
                    turn_id: self.turn_id.clone(),
                },
            ),
        );
        let msg = ModelMessage::Assistant { content };
        self.messages.push(msg);
        assert(self.messages.deep_view() =~= before.messages.push(msg.deep_view()));
        self.queue = calls;
        let stop_reason = self.gathered.stop_reason;
        act(out, Action::Emit(TurnEvent::ModelMessageEnd { stop_reason }));
        act(out, Action::Emit(TurnEvent::Usage(self.gathered.usage)));
        assert(self.queue.deep_view().len() == self.queue@.len());
        if self.queue.len() == 0 {
            act(
                out,
                Action::Hook {
                    event: HookEvent::Notification { message: self.gathered.text.clone() },
                    tool_input: None,
                },
            );
            act(out, Action::Hook { event: HookEvent::SessionEnd, tool_input: None });
            act(out, Action::Hook { event: HookEvent::Stop, tool_input: None });
            self.bound(out, stop_reason);
            act(
                out,
                Action::Finish { stop_reason, steps: self.steps, usage: self.gathered.usage },
            );
            self.phase = Phase::Done;
        } else {
            self.go_on(out, engine, cancelled);
        }
    }

    fn interrupt(&mut self, out: &mut Vec<Action>)
        requires
            old(self).steps > 0,
        ensures
            at(*final(self), *final(out)) == ended(
                at(*old(self), *old(out)),
                old(self).deep_view().gathered.text,
                StopReason::Interrupted,
                (old(self).steps - 1) as u32,
                old(self).deep_view().gathered.usage,
            ),
    {
        let text = self.gathered.text.clone();
        let usage = self.gathered.usage;
        let steps: u32 = self.steps - 1;
        self.end(out, text.as_str(), StopReason::Interrupted, steps, usage);
    }

    fn finish_call(
        &mut self,
        out: &mut Vec<Action>,
        engine: &PermissionEngine,
        reply: Reply,
        duration_ms: u64,
        cancelled: bool,
    )
        requires
            old(self).steps <= old(self).max_steps,
            old(self).queue@.len() > 0,
        ensures
            at(*final(self), *final(out)) == ran(
                at(*old(self), *old(out)),
                engine.deep_view(),
                reply.deep_view(),
                duration_ms,
                cancelled,
            ),
    {
        assert(self.deep_view().queue[0] == self.queue@[0].deep_view());
        let tool = self.queue[0].tool.clone();
        let input = self.queue[0].input.clone();
        let (content, is_error, summary) = reply_parts(reply, "[工具执行失败: ");
        self.settle(out, content, is_error, summary, duration_ms);
        act(
            out,
            Action::Hook { event: HookEvent::PostToolUse { tool }, tool_input: Some(input) },
        );
        self.go_on(out, engine, cancelled);
    }

    fn on_checked(
        &mut self,
        out: &mut Vec<Action>,
        engine: &PermissionEngine,
        o: HookOutcome,
        cancelled: bool,
    )
        requires
            old(self).steps <= old(self).max_steps,
            old(self).queue@.len() > 0,
        ensures
            at(*final(self), *final(out)) == checked(
                at(*old(self), *old(out)),
                engine.deep_view(),
                o.deep_view(),
                cancelled,
            ),
    {
        assert(self.deep_view().queue[0] == self.queue@[0].deep_view());
        match o {
            HookOutcome::Block(reason) => {
                let text = cat("被 hook 阻断: ", reason.as_str());
                self.settle(out, text, true, "hook 阻断".to_owned(), 0);
                self.go_on(out, engine, cancelled);
            },
            HookOutcome::Pass => {
                let c = self.queue[0].dup();
                act(out, Action::Emit(TurnEvent::ToolExecBegin { call_id: c.call_id }));
                if self.knows(c.tool.as_str()) {
                    act(out, Action::Exec { tool: c.tool, input: c.input });
                    self.phase = Phase::Running;
                } else {
                    let text = cat("未知工具: ", c.tool.as_str());
                    let reply = Reply::Output(ToolOutput::error(text.as_str()));
                    self.finish_call(out, engine, reply, 0, cancelled);
                }
            },
        }
    }

    fn on_answer(
        &mut self,
        out: &mut Vec<Action>,
        engine: &mut PermissionEngine,
        d: ReviewDecision,
        cancelled: bool,
    )
        requires
            old(engine).inv(),
            old(self).steps <= old(self).max_steps,
            old(self).queue@.len() > 0,
        ensures
            final(engine).inv(),
            final(engine).deep_view() == engine_after(
                old(self).deep_view(),
                old(engine).deep_view(),
                d,
            ),
            at(*final(self), *final(out)) == answered(
                at(*old(self), *old(out)),
                final(engine).deep_view(),
                d,
                cancelled,
            ),
    {
        assert(self.deep_view().queue[0] == self.queue@[0].deep_view());
        let c = self.queue[0].dup();
        let key = self.key(&c);
        let k = key.as_ref();
        assert(key_view(k) == key_of(self.deep_view(), c.deep_view()));
        act(
            out,
            Action::Emit(
                TurnEvent::ApprovalResolved { call_id: c.call_id.clone(), decision: d },
            ),
        );
        let rule_suggestion = pattern_suggestion(c.tool.as_str(), k);
        act(
            out,
            Action::Record(LogEvent::Approval { call_id: c.call_id, verdict: d, rule_suggestion }),
        );
        match d {
            ReviewDecision::Approve => {
                self.check(out);
            },
            ReviewDecision::ApproveForSession => {
                match &key {
                    Some(k) => {
                        let pattern = k.pattern_string();
                        engine.grant(c.tool.as_str(), pattern.as_str());
                        act(
                            out,
                            Action::Record(LogEvent::PermissionGrant { tool: c.tool, pattern }),
                        );
                    },
                    None => {},
                }
                self.check(out);
            },
            ReviewDecision::Deny => {
                let text = cat3("用户拒绝执行(工具: ", c.tool.as_str(), ")");
                self.settle(out, text, true, "用户拒绝".to_owned(), 0);
                self.go_on(out, engine, cancelled);
            },
            ReviewDecision::Abort => {
                let text = self.gathered.text.clone();
                let usage = self.gathered.usage;
                let steps: u32 = self.steps;
                self.end(out, text.as_str(), StopReason::Interrupted, steps, usage);
            },
        }
    }

    fn on_prompt(&mut self, out: &mut Vec<Action>, o: HookOutcome, cancelled: bool)
        requires
            old(self).steps <= old(self).max_steps,
        ensures
            at(*final(self), *final(out)) == prompted(
                at(*old(self), *old(out)),
                o.deep_view(),
                cancelled,
            ),
    {
        match o {
            HookOutcome::Block(reason) => {
                let text = cat("UserPromptSubmit hook 阻断: ", reason.as_str());
                act(out, Action::Emit(TurnEvent::Error(text)));
                self.bound(out, StopReason::Interrupted);
                act(
                    out,
                    Action::Finish {
                        stop_reason: StopReason::Interrupted,
                        steps: 0,
                        usage: TokenUsage::zero(),
                    },
                );
                self.phase = Phase::Done;
            },
            HookOutcome::Pass => {
                if !self.trusted && self.start_hooks {
                    let text = cat3(
                        "⚠ 未信任项目: ",
                        self.cwd.as_str(),
                        "。session_start hooks 将执行,请确认项目安全。",
                    );
                    act(out, Action::Emit(TurnEvent::BackgroundEvent(text)));
                }
                act(out, Action::Hook { event: HookEvent::SessionStart, tool_input: None });
                self.ask_model(out, cancelled);
            },
        }
    }

    fn on_chunk(
        &mut self,
        out: &mut Vec<Action>,
        engine: &PermissionEngine,
        ev: ModelStreamEvent,
        cancelled: bool,
    )
        requires
            0 < old(self).steps <= old(self).max_steps,
        ensures
            at(*final(self), *final(out)) == streamed(
                at(*old(self), *old(out)),
                engine.deep_view(),
                ev.deep_view(),
                cancelled,
            ),
    {
        if cancelled {
            self.interrupt(out);
            return;
        }
        let is_end = match &ev {
            ModelStreamEvent::MessageEnd { stop_reason: _, usage: _ } => true,
            _ => false,
        };
        match self.gathered.take(ev) {
            Some(x) => act(out, Action::Emit(x)),
            None => {},
        }
        if is_end {
            self.close(out, engine, cancelled);
        }
    }

    /// What the model is asked: all that was said so far, and all tools that there
    /// are, with the rest as in `base`.
    pub fn request(&self, base: &ModelRequest, tools: &ToolRegistry) -> (r: ModelRequest)
        ensures
            r.deep_view() == (ModelRequestView {
                messages: self.deep_view().messages,
                tools: tools.deep_view(),
                ..base.deep_view()
            }),
    {
        ModelRequest {
            model: base.model.dup(),
            system: base.system.dup(),
            messages: self.messages.dup(),
            tools: tools.specs(),
            reasoning: base.reasoning.dup(),
            max_output_tokens: base.max_output_tokens,
            temperature: base.temperature.dup(),
            metadata: base.metadata.dup(),
        }
    }

    /// Take in what came, and say what is to be done next. `cancelled` is whether
    /// the turn has been cancelled meanwhile.
    #[verifier::rlimit(60)]
    pub fn step(&mut self, engine: &mut PermissionEngine, input: Input, cancelled: bool) -> (r: Vec<
        Action,
    >)
        requires
            turn_inv(old(self).deep_view()),
            old(engine).inv(),
        ensures
            turn_inv(final(self).deep_view()),
            final(engine).inv(),
            final(self).deep_view() == moved(
                old(self).deep_view(),
                old(engine).deep_view(),
                input.deep_view(),
                cancelled,
            ).turn,
            r.deep_view() == moved(
                old(self).deep_view(),
                old(engine).deep_view(),
                input.deep_view(),
                cancelled,
            ).actions,
            final(engine).deep_view() == engine_moved(
                old(self).deep_view(),
                old(engine).deep_view(),
                input.deep_view(),
            ),
    {
        let ghost t = self.deep_view();
        let ghost e = engine.deep_view();
        let mut out: Vec<Action> = Vec::new();
        assert(out.deep_view() =~= Seq::<ActionView>::empty());
        assert(t.queue.len() == self.queue@.len());
        proof {
            lemma_moved_inv(t, e, input.deep_view(), cancelled);
        }
        match (self.phase, input) {
            (Phase::Ready, Input::Start) => {
                let text = match find_user_text(&self.messages) {
                    Some(s) => s,
                    None => String::new(),
                };
                act(&mut out, Action::CheckPrompt { text });
                self.phase = Phase::Prompting;
            },
            (Phase::Prompting, Input::PromptChecked(o)) => {
                self.on_prompt(&mut out, o, cancelled);
            },
            (Phase::Streaming, Input::Chunk(ev)) => {
                self.on_chunk(&mut out, engine, ev, cancelled);
            },
            (Phase::Streaming, Input::StreamEnd) => {
                self.close(&mut out, engine, cancelled);
            },
            (Phase::Streaming, Input::Refused(err)) => {
                act(&mut out, Action::Fail(err));
                self.phase = Phase::Done;
            },
            (Phase::Streaming, Input::Broke(err)) => {
                if cancelled {
                    self.interrupt(&mut out);
                } else {
                    act(&mut out, Action::Fail(err));
                    self.phase = Phase::Done;
                }
            },
            (Phase::Tasking, Input::TaskDone(reply)) => {
                let (content, is_error, summary) = reply_parts(reply, "[子 agent 失败: ");
                self.settle(&mut out, content, is_error, summary, 0);
                self.go_on(&mut out, engine, cancelled);
            },
            (Phase::Snapshotting, Input::SnapshotTaken(s)) => {
                match s {
                    Some(s) => act(
                        &mut out,
                        Action::Record(
                            LogEvent::Checkpoint {
                                checkpoint_id: s.checkpoint_id,
                                shadow_commit: s.commit,
                            },
                        ),
                    ),
                    None => {},
                }
                self.check(&mut out);
            },
            (Phase::Checking, Input::ToolChecked(o)) => {
                self.on_checked(&mut out, engine, o, cancelled);
            },
            (Phase::Asking, Input::Answered(d)) => {
                self.on_answer(&mut out, engine, d, cancelled);
            },
            (Phase::Running, Input::ToolDone { reply, duration_ms }) => {
                self.finish_call(&mut out, engine, reply, duration_ms, cancelled);
            },
            _ => {},
        }
        out
    }
}

/// The content, error mark and summary of a reply.
fn reply_parts(r: Reply, head: &str) -> (p: (String, bool, String))
    ensures
        (p.0@, p.1, p.2@) == reply_content(r.deep_view(), head@),
{
    match r {
        Reply::Output(o) => {
            let s = summarize(o.content.as_str());
            (o.content, o.is_error, s)
        },
        Reply::Failed(e) => {
            let msg = e.message();
            (cat3(head, msg.as_str(), "]"), true, msg)
        },
    }
}

// ---- laws ----

pub proof fn lemma_next_call_inv(m: Moved, e: EngineView, cancelled: bool)
    requires
        m.turn.steps <= m.turn.max_steps,
    ensures
        turn_inv(next_call(m, e, cancelled).turn),
    decreases m.turn.queue.len(),
{
    let t = m.turn;
    if t.queue.len() > 0 {
        let c = t.queue[0];
        let m1 = Moved {
            actions: m.actions.push(
                ActionView::Record(
                    LogEventView::ToolCall { call_id: c.call_id, tool: c.tool, args: c.input },
                ),
            ),
            ..m
        };
        let m2 = settled(
            m1,
            "被权限策略拒绝(工具: "@ + c.tool + ")"@,
            true,
            "权限拒绝"@,
            0,
        );
        lemma_next_call_inv(m2, e, cancelled);
    }
}

proof fn lemma_closed_inv(m: Moved, e: EngineView, cancelled: bool)
    requires
        m.turn.steps <= m.turn.max_steps,
    ensures
        turn_inv(closed(m, e, cancelled).turn),
{
    assert forall|x: Moved| x.turn.steps <= x.turn.max_steps implies turn_inv(
        (#[trigger] next_call(x, e, cancelled)).turn,
    ) by {
        lemma_next_call_inv(x, e, cancelled);
    }
}

proof fn lemma_ran_inv(m: Moved, e: EngineView, r: ReplyView, duration_ms: u64, cancelled: bool)
    requires
        m.turn.steps <= m.turn.max_steps,
    ensures
        turn_inv(ran(m, e, r, duration_ms, cancelled).turn),
{
    assert forall|x: Moved| x.turn.steps <= x.turn.max_steps implies turn_inv(
        (#[trigger] next_call(x, e, cancelled)).turn,
    ) by {
        lemma_next_call_inv(x, e, cancelled);
    }
}

proof fn lemma_checked_inv(m: Moved, e: EngineView, o: HookOutcomeView, cancelled: bool)
    requires
        m.turn.steps <= m.turn.max_steps,
        m.turn.queue.len() > 0,
    ensures
        turn_inv(checked(m, e, o, cancelled).turn),
{
    assert forall|x: Moved| x.turn.steps <= x.turn.max_steps implies turn_inv(
        (#[trigger] next_call(x, e, cancelled)).turn,
    ) by {
        lemma_next_call_inv(x, e, cancelled);
    }
}

proof fn lemma_answered_inv(m: Moved, e: EngineView, d: ReviewDecision, cancelled: bool)
    requires
        m.turn.steps <= m.turn.max_steps,
        m.turn.queue.len() > 0,
    ensures
        turn_inv(answered(m, e, d, cancelled).turn),
{
    assert forall|x: Moved| x.turn.steps <= x.turn.max_steps implies turn_inv(
        (#[trigger] next_call(x, e, cancelled)).turn,
    ) by {
        lemma_next_call_inv(x, e, cancelled);
    }
}

/// Whatever comes in, a turn only ever waits for something about a call while
/// there is one, and never counts more steps than it may.
#[verifier::rlimit(40)]
pub proof fn lemma_moved_inv(t: TurnView, e: EngineView, input: InputView, cancelled: bool)
    requires
        turn_inv(t),
    ensures
        turn_inv(moved(t, e, input, cancelled).turn),
{
    let m = Moved { turn: t, actions: Seq::empty() };
    match (t.phase, input) {
        (Phase::Streaming, InputView::Chunk(ev)) => {
            assert forall|x: Moved| x.turn.steps <= x.turn.max_steps implies turn_inv(
                (#[trigger] closed(x, e, cancelled)).turn,
            ) by {
                lemma_closed_inv(x, e, cancelled);
            }
        },
        (Phase::Streaming, InputView::StreamEnd) => lemma_closed_inv(m, e, cancelled),
        (Phase::Tasking, InputView::TaskDone(r)) => {
            let (content, is_error, summary) = reply_content(r, "[子 agent 失败: "@);
            lemma_next_call_inv(settled(m, content, is_error, summary, 0), e, cancelled);
        },
        (Phase::Checking, InputView::ToolChecked(o)) => lemma_checked_inv(m, e, o, cancelled),
        (Phase::Asking, InputView::Answered(d)) => lemma_answered_inv(
            m,
            engine_after(t, e, d),
            d,
            cancelled,
        ),
        (Phase::Running, InputView::ToolDone { reply, duration_ms }) => lemma_ran_inv(
            m,
            e,
            reply,
            duration_ms,
            cancelled,
        ),
        _ => {},
    }
}

/// Whether nothing is to be run.
pub open spec fn runs_nothing(s: Seq<ActionView>) -> bool {
    forall|i: int| 0 <= i < s.len() ==> !(#[trigger] s[i] is Exec)
}

/// Whether the turn is about to run its current call, or has begun to.
pub open spec fn is_cleared(p: Phase) -> bool {
    p == Phase::Snapshotting || p == Phase::Checking || p == Phase::Running
}

/// Whether the permissions allow the current call.
pub open spec fn allows_current(t: TurnView, e: EngineView) -> bool {
    t.queue.len() > 0 && decision(e, t.queue[0].tool, key_of(t, t.queue[0])).verdict
        == Verdict::Allow
}

/// Whether the last thing to be done is to finish, right after the end of the turn
/// was recorded, or to fail.
pub open spec fn ends_properly(t: TurnView, s: Seq<ActionView>) -> bool {
    &&& s.len() > 0
    &&& s.last() is Fail || (s.last() matches ActionView::Finish { stop_reason, steps, usage }
        && s.len() > 1 && s[s.len() - 2] == boundary(t, stop_reason))
}

/// Whether the messages of `b` are those of `a` and one result for each of the
/// calls by which its queue is shorter, in order.
pub open spec fn answers_calls(a: TurnView, b: TurnView) -> bool {
    let k = a.queue.len() - b.queue.len();
    &&& 0 <= k
    &&& b.queue == a.queue.skip(k)
    &&& b.messages.len() == a.messages.len() + k
    &&& b.messages.take(a.messages.len() as int) == a.messages
    &&& forall|i: int|
        0 <= i < k ==> (#[trigger] b.messages[a.messages.len() + i] matches ModelMessageView::ToolResult {
            call_id,
            content,
            is_error,
        } && call_id == a.queue[i].call_id)
}

proof fn lemma_answers_more(a: TurnView, b: TurnView, c: TurnView)
    requires
        answers_calls(a, b),
        answers_calls(b, c),
    ensures
        answers_calls(a, c),
{
    let k = a.queue.len() - b.queue.len();
    let l = b.queue.len() - c.queue.len();
    assert(c.queue =~= a.queue.skip(k + l));
    assert(c.messages.take(a.messages.len() as int) =~= b.messages.take(a.messages.len() as int))
        by {
        assert(c.messages.take(b.messages.len() as int) == b.messages);
        assert forall|i: int| 0 <= i < a.messages.len() implies c.messages[i] == b.messages[i] by {
            assert(c.messages.take(b.messages.len() as int)[i] == c.messages[i]);
        }
    }
    assert forall|i: int| 0 <= i < k + l implies (
    #[trigger] c.messages[a.messages.len() + i] matches ModelMessageView::ToolResult {
        call_id,
        content,
        is_error,
    } && call_id == a.queue[i].call_id) by {
        if i < k {
            assert(c.messages.take(b.messages.len() as int)[a.messages.len() + i]
                == c.messages[a.messages.len() + i]);
            assert(b.messages[a.messages.len() + i] is ToolResult);
        } else {
            assert(c.messages[b.messages.len() + (i - k)] is ToolResult);
            assert(b.queue[i - k] == a.queue[i]);
        }
    }
}

proof fn lemma_settled_answers(m: Moved, content: Seq<char>, is_error: bool, s: Seq<char>, d: u64)
    requires
        m.turn.queue.len() > 0,
    ensures
        answers_calls(m.turn, settled(m, content, is_error, s, d).turn),
        runs_nothing(m.actions) ==> runs_nothing(settled(m, content, is_error, s, d).actions),
{
    let b = settled(m, content, is_error, s, d).turn;
    assert(b.queue =~= m.turn.queue.skip(1));
    assert(b.messages.take(m.turn.messages.len() as int) =~= m.turn.messages);
}

/// What `next_call` does, on the whole.
pub proof fn lemma_next_call(m: Moved, e: EngineView, cancelled: bool)
    requires
        m.turn.steps <= m.turn.max_steps,
    ensures
        ({
            let n = next_call(m, e, cancelled);
            &&& runs_nothing(m.actions) ==> runs_nothing(n.actions)
            &&& is_cleared(n.turn.phase) ==> allows_current(n.turn, e)
            &&& n.turn.phase != Phase::Running
            &&& n.turn.phase == Phase::Done ==> ends_properly(n.turn, n.actions)
            &&& n.turn.phase != Phase::Ready && n.turn.phase != Phase::Prompting
            &&& n.turn.phase == Phase::Streaming || n.turn.phase == Phase::Done
                ==> n.turn.queue.len() == 0
            &&& answers_calls(m.turn, n.turn)
        }),
    decreases m.turn.queue.len(),
{
    let t = m.turn;
    let n = next_call(m, e, cancelled);
    if t.queue.len() == 0 {
        assert(n.turn.queue =~= t.queue.skip(0));
        assert(n.turn.messages.take(t.messages.len() as int) =~= t.messages);
    } else {
        let c = t.queue[0];
        let m1 = Moved {
            actions: m.actions.push(
                ActionView::Record(
                    LogEventView::ToolCall { call_id: c.call_id, tool: c.tool, args: c.input },
                ),
            ),
            ..m
        };
        let content = "被权限策略拒绝(工具: "@ + c.tool + ")"@;
        let m2 = settled(m1, content, true, "权限拒绝"@, 0);
        if c.tool != "Task"@ && decision(e, c.tool, key_of(t, c)).verdict == Verdict::Deny {
            lemma_settled_answers(m1, content, true, "权限拒绝"@, 0);
            lemma_next_call(m2, e, cancelled);
            lemma_answers_more(t, m2.turn, n.turn);
        } else {
            assert(n.turn.queue =~= t.queue.skip(0));
            assert(n.turn.messages.take(t.messages.len() as int) =~= t.messages);
        }
    }
}

/// A tool is run only when the hooks have just passed it, and it is the current
/// call that is run.
#[verifier::rlimit(60)]
pub proof fn law_runs_only_what_was_checked(
    t: TurnView,
    e: EngineView,
    input: InputView,
    cancelled: bool,
    i: int,
)
    requires
        turn_inv(t),
        0 <= i < moved(t, e, input, cancelled).actions.len(),
        moved(t, e, input, cancelled).actions[i] is Exec,
    ensures
        t.phase == Phase::Checking,
        input == InputView::ToolChecked(HookOutcomeView::Pass),
        moved(t, e, input, cancelled).actions[i] == (ActionView::Exec {
            tool: t.queue[0].tool,
            input: t.queue[0].input,
        }),
        t.tools.contains(t.queue[0].tool),
{
    let m = Moved { turn: t, actions: Seq::empty() };
    assert forall|x: Moved, e2: EngineView|
        x.turn.steps <= x.turn.max_steps && runs_nothing(x.actions) implies runs_nothing(
        (#[trigger] next_call(x, e2, cancelled)).actions,
    ) by {
        lemma_next_call(x, e2, cancelled);
    }
    if t.phase == Phase::Checking && input == InputView::ToolChecked(HookOutcomeView::Pass) {
        if !t.tools.contains(t.queue[0].tool) {
            assert(runs_nothing(moved(t, e, input, cancelled).actions));
        }
    } else {
        assert(runs_nothing(moved(t, e, input, cancelled).actions));
    }
}

/// A call is cleared to run only if the permissions allow it, or the user has just
/// approved it, or it had been cleared already.
#[verifier::rlimit(60)]
pub proof fn law_calls_need_leave(
    t: TurnView,
    e: EngineView,
    input: InputView,
    cancelled: bool,
)
    requires
        turn_inv(t),
        is_cleared(moved(t, e, input, cancelled).turn.phase),
    ensures
        ({
            let after = moved(t, e, input, cancelled).turn;
            ||| is_cleared(t.phase) && after.queue == t.queue
            ||| t.phase == Phase::Asking && after.queue == t.queue && (input
                == InputView::Answered(ReviewDecision::Approve) || input == InputView::Answered(
                ReviewDecision::ApproveForSession,
            ))
            ||| allows_current(after, engine_moved(t, e, input))
        }),
{
    assert forall|x: Moved, e2: EngineView|
        x.turn.steps <= x.turn.max_steps && is_cleared(
            (#[trigger] next_call(x, e2, cancelled)).turn.phase,
        ) implies allows_current(next_call(x, e2, cancelled).turn, e2) by {
        lemma_next_call(x, e2, cancelled);
    }
}

/// A turn that is over says so last, and has recorded its end right before.
#[verifier::rlimit(60)]
pub proof fn law_ends_are_recorded(t: TurnView, e: EngineView, input: InputView, cancelled: bool)
    requires
        turn_inv(t),
        t.phase != Phase::Done,
        moved(t, e, input, cancelled).turn.phase == Phase::Done,
    ensures
        ends_properly(t, moved(t, e, input, cancelled).actions),
{
    assert forall|x: Moved, e2: EngineView|
        x.turn.steps <= x.turn.max_steps && (#[trigger] next_call(x, e2, cancelled)).turn.phase
            == Phase::Done implies ends_properly(
        next_call(x, e2, cancelled).turn,
        next_call(x, e2, cancelled).actions,
    ) && next_call(x, e2, cancelled).turn.turn_id == x.turn.turn_id by {
        lemma_next_call(x, e2, cancelled);
        lemma_same_turn(x, e2, cancelled);
    }
}

proof fn lemma_same_turn(m: Moved, e: EngineView, cancelled: bool)
    ensures
        next_call(m, e, cancelled).turn.turn_id == m.turn.turn_id,
    decreases m.turn.queue.len(),
{
    let t = m.turn;
    if t.queue.len() > 0 {
        let c = t.queue[0];
        let m1 = Moved {
            actions: m.actions.push(
                ActionView::Record(
                    LogEventView::ToolCall { call_id: c.call_id, tool: c.tool, args: c.input },
                ),
            ),
            ..m
        };
        let m2 = settled(
            m1,
            "被权限策略拒绝(工具: "@ + c.tool + ")"@,
            true,
            "权限拒绝"@,
            0,
        );
        lemma_same_turn(m2, e, cancelled);
    }
}

/// Every call gets one result, in the order in which the model asked: whatever
/// comes in about a call, the calls that are no longer waiting are those for which
/// a result has been added.
#[verifier::rlimit(60)]
pub proof fn law_calls_are_answered_in_order(
    t: TurnView,
    e: EngineView,
    input: InputView,
    cancelled: bool,
)
    requires
        turn_inv(t),
        t.phase != Phase::Streaming,
    ensures
        answers_calls(t, moved(t, e, input, cancelled).turn),
{
    let m = Moved { turn: t, actions: Seq::empty() };
    let n = moved(t, e, input, cancelled).turn;
    assert(t.queue.skip(0) =~= t.queue);
    assert(t.messages.take(t.messages.len() as int) =~= t.messages);
    match (t.phase, input) {
        (Phase::Tasking, InputView::TaskDone(r)) => {
            let (content, is_error, summary) = reply_content(r, "[子 agent 失败: "@);
            lemma_settled_answers(m, content, is_error, summary, 0);
            let s = settled(m, content, is_error, summary, 0);
            lemma_next_call(s, e, cancelled);
            lemma_answers_more(t, s.turn, n);
        },
        (Phase::Checking, InputView::ToolChecked(o)) => lemma_checked_answers(m, e, o, cancelled),
        (Phase::Asking, InputView::Answered(d)) => lemma_answered_answers(
            m,
            engine_after(t, e, d),
            d,
            cancelled,
        ),
        (Phase::Running, InputView::ToolDone { reply, duration_ms }) => lemma_ran_answers(
            m,
            e,
            reply,
            duration_ms,
            cancelled,
        ),
        _ => {},
    }
}

proof fn lemma_ran_answers(m: Moved, e: EngineView, r: ReplyView, duration_ms: u64, cancelled: bool)
    requires
        m.turn.steps <= m.turn.max_steps,
        m.turn.queue.len() > 0,
    ensures
        answers_calls(m.turn, ran(m, e, r, duration_ms, cancelled).turn),
{
    let c = m.turn.queue[0];
    let (content, is_error, summary) = reply_content(r, "[工具执行失败: "@);
    lemma_settled_answers(m, content, is_error, summary, duration_ms);
    let m1 = settled(m, content, is_error, summary, duration_ms);
    let m2 = Moved {
        actions: m1.actions.push(
            ActionView::Hook {
                event: HookEventView::PostToolUse { tool: c.tool },
                tool_input: Some(c.input),
            },
        ),
        ..m1
    };
    lemma_next_call(m2, e, cancelled);
    lemma_answers_more(m.turn, m2.turn, ran(m, e, r, duration_ms, cancelled).turn);
}

proof fn lemma_checked_answers(m: Moved, e: EngineView, o: HookOutcomeView, cancelled: bool)
    requires
        m.turn.steps <= m.turn.max_steps,
        m.turn.queue.len() > 0,
    ensures
        answers_calls(m.turn, checked(m, e, o, cancelled).turn),
{
    let t = m.turn;
    let c = t.queue[0];
    assert(t.queue.skip(0) =~= t.queue);
    assert(t.messages.take(t.messages.len() as int) =~= t.messages);
    match o {
        HookOutcomeView::Block(reason) => {
            let content = "被 hook 阻断: "@ + reason;
            lemma_settled_answers(m, content, true, "hook 阻断"@, 0);
            let s = settled(m, content, true, "hook 阻断"@, 0);
            lemma_next_call(s, e, cancelled);
            lemma_answers_more(t, s.turn, checked(m, e, o, cancelled).turn);
        },
        HookOutcomeView::Pass => {
            let m1 = Moved {
                actions: m.actions.push(
                    ActionView::Emit(TurnEventView::ToolExecBegin { call_id: c.call_id }),
                ),
                ..m
            };
            let r = ReplyView::Output(
                ToolOutputView { content: "未知工具: "@ + c.tool, is_error: true },
            );
            lemma_ran_answers(m1, e, r, 0, cancelled);
        },
    }
}

proof fn lemma_answered_answers(m: Moved, e: EngineView, d: ReviewDecision, cancelled: bool)
    requires
        m.turn.steps <= m.turn.max_steps,
        m.turn.queue.len() > 0,
    ensures
        answers_calls(m.turn, answered(m, e, d, cancelled).turn),
{
    let t = m.turn;
    let c = t.queue[0];
    assert(t.queue.skip(0) =~= t.queue);
    assert(t.messages.take(t.messages.len() as int) =~= t.messages);
    if d == ReviewDecision::Deny {
        let m1 = Moved {
            actions: m.actions.push(
                ActionView::Emit(
                    TurnEventView::ApprovalResolved { call_id: c.call_id, decision: d },
                ),
            ).push(
                ActionView::Record(
                    LogEventView::Approval {
                        call_id: c.call_id,
                        verdict: d,
                        rule_suggestion: suggestion(c.tool, key_of(t, c)),
                    },
                ),
            ),
            ..m
        };
        let content = "用户拒绝执行(工具: "@ + c.tool + ")"@;
        lemma_settled_answers(m1, content, true, "用户拒绝"@, 0);
        let s = settled(m1, content, true, "用户拒绝"@, 0);
        lemma_next_call(s, e, cancelled);
        lemma_answers_more(t, s.turn, answered(m, e, d, cancelled).turn);
    }
}

/// The model is asked at most as often as the turn allows: asking it counts as a
/// step, and no step is counted beyond the bound.
#[verifier::rlimit(60)]
pub proof fn law_steps_are_bounded(t: TurnView, e: EngineView, input: InputView, cancelled: bool)
    requires
        turn_inv(t),
    ensures
        ({
            let after = moved(t, e, input, cancelled).turn;
            &&& after.max_steps == t.max_steps
            &&& after.steps <= t.max_steps
            &&& t.steps <= after.steps <= t.steps + 1
            &&& after.phase == Phase::Streaming && t.phase != Phase::Streaming ==> after.steps
                == t.steps + 1
        }),
{
    assert forall|x: Moved, e2: EngineView|
        x.turn.steps <= x.turn.max_steps implies ({
        let n = (#[trigger] next_call(x, e2, cancelled)).turn;
        &&& n.max_steps == x.turn.max_steps
        &&& n.steps <= n.max_steps
        &&& x.turn.steps <= n.steps <= x.turn.steps + 1
        &&& n.phase == Phase::Streaming ==> n.steps == x.turn.steps + 1
    }) by {
        lemma_next_call_steps(x, e2, cancelled);
    }
}

proof fn lemma_next_call_steps(m: Moved, e: EngineView, cancelled: bool)
    requires
        m.turn.steps <= m.turn.max_steps,
    ensures
        ({
            let n = next_call(m, e, cancelled).turn;
            &&& n.max_steps == m.turn.max_steps
            &&& n.steps <= n.max_steps
            &&& m.turn.steps <= n.steps <= m.turn.steps + 1
            &&& n.phase == Phase::Streaming ==> n.steps == m.turn.steps + 1
        }),
    decreases m.turn.queue.len(),
{
    let t = m.turn;
    if t.queue.len() > 0 {
        let c = t.queue[0];
        let m1 = Moved {
            actions: m.actions.push(
                ActionView::Record(
                    LogEventView::ToolCall { call_id: c.call_id, tool: c.tool, args: c.input },
                ),
            ),
            ..m
        };
        let m2 = settled(
            m1,
            "被权限策略拒绝(工具: "@ + c.tool + ")"@,
            true,
            "权限拒绝"@,
            0,
        );
        lemma_next_call_steps(m2, e, cancelled);
    }
}

} // verus!
