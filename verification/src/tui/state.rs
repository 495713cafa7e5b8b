//! What the screen knows, and what keys and events do to it.
use vstd::prelude::*;
use vstd::string::*;

use crate::agents::SubagentDef;
use crate::agents::SubagentDefView;
use crate::commands::Builtin;
use crate::commands::CommandDef;
use crate::commands::CommandDefView;
use crate::commands::builtin_of;
use crate::commands::name_and_args;
use crate::commands::parse_builtin;
use crate::commands::split_name_args;
use crate::config::HooksConfig;
use crate::config::HooksConfigView;
use crate::config::LoadOpts;
use crate::content::StopReason;
use crate::content::TokenUsage;
use crate::content::TokenUsageView;
use crate::dup::Dup;
use crate::event::ApprovalKind;
use crate::event::McpToolInfo;
use crate::event::McpToolInfoView;
use crate::exec::asked;
use crate::exec::user_message;
use crate::hooks::HookConfig;
use crate::ids::CallId;
use crate::mcp::server::first_user_text;
use crate::mcp::server::title_of;
use crate::model::ModelMessage;
use crate::model::ModelMessageView;
use crate::op::ReviewDecision;
use crate::order::largest_first;
use crate::order::lists_all;
use crate::order::newest_first;
use crate::permission::PermissionMode;
use crate::providers::calls::or_text;
use crate::providers::calls::text_or;
use crate::recorder::capped;
use crate::replay::pairs_view;
use crate::replay::replay;
use crate::replay::replayed;
use crate::server::list_mcp_tools;
use crate::server::served_tools;
use crate::session::TurnEvent;
use crate::session::TurnEventView;
use crate::text::cat3;
use crate::text::cat;
use crate::text::chars_of;
use crate::text::clip;
use crate::text::clipped;
use crate::text::decimal;
use crate::text::decimal_of;
use crate::text::join;
use crate::text::joined;
use crate::text::pad_left;
use crate::text::padded;
use crate::text::same;
use crate::text::starts_with;
use crate::text::string_of;
use crate::text::views;
use crate::tools::ToolRegistry;

verus! {

/// The model of `HistoryCell`.
pub enum HistoryCellView {
    User(Seq<char>),
    Assistant(Seq<char>),
    Tool(Seq<char>),
}

/// A part of what the screen shows of the past.
#[derive(Debug, PartialEq)]
pub enum HistoryCell {
    User(String),
    Assistant(String),
    Tool(String),
}

impl DeepView for HistoryCell {
    type V = HistoryCellView;

    open spec fn deep_view(&self) -> HistoryCellView {
        match *self {
            HistoryCell::User(x) => HistoryCellView::User(x.deep_view()),
            HistoryCell::Assistant(x) => HistoryCellView::Assistant(x.deep_view()),
            HistoryCell::Tool(x) => HistoryCellView::Tool(x.deep_view()),
        }
    }
}

impl Dup for HistoryCell {
    fn dup(&self) -> (r: Self) {
        match self {
            HistoryCell::User(x) => HistoryCell::User(x.dup()),
            HistoryCell::Assistant(x) => HistoryCell::Assistant(x.dup()),
            HistoryCell::Tool(x) => HistoryCell::Tool(x.dup()),
        }
    }
}

impl Clone for HistoryCell {
    fn clone(&self) -> (r: Self)
        ensures
            r.deep_view() == self.deep_view(),
    {
        self.dup()
    }
}

impl HistoryCell {
    /// What the user said.
    pub fn user(text: &str) -> (r: Self)
        ensures
            r.deep_view() == HistoryCellView::User(text@),
    {
        HistoryCell::User(text.to_owned())
    }

    /// What the model said.
    pub fn assistant(text: String) -> (r: Self)
        ensures
            r.deep_view() == HistoryCellView::Assistant(text@),
    {
        HistoryCell::Assistant(text)
    }

    /// What a tool did, or what a command shows.
    pub fn tool(status: &str) -> (r: Self)
        ensures
            r.deep_view() == HistoryCellView::Tool(status@),
    {
        HistoryCell::Tool(status.to_owned())
    }
}

/// The model of `PendingApproval`.
pub struct PendingApprovalView {
    pub call_id: Seq<char>,
    pub kind: ApprovalKind,
    pub tool: Seq<char>,
    pub command: Option<Seq<Seq<char>>>,
    pub pattern_suggestion: Option<Seq<char>>,
}

/// A call that waits for the user.
#[derive(Debug, PartialEq)]
pub struct PendingApproval {
    pub call_id: CallId,
    pub kind: ApprovalKind,
    pub tool: String,
    pub command: Option<Vec<String>>,
    pub pattern_suggestion: Option<String>,
}

impl DeepView for PendingApproval {
    type V = PendingApprovalView;

    open spec fn deep_view(&self) -> PendingApprovalView {
        PendingApprovalView {
            call_id: self.call_id.deep_view(),
            kind: self.kind.deep_view(),
            tool: self.tool.deep_view(),
            command: self.command.deep_view(),
            pattern_suggestion: self.pattern_suggestion.deep_view(),
        }
    }
}

impl Dup for PendingApproval {
    fn dup(&self) -> (r: Self) {
        PendingApproval {
            call_id: self.call_id.dup(),
            kind: self.kind.dup(),
            tool: self.tool.dup(),
            command: self.command.dup(),
            pattern_suggestion: self.pattern_suggestion.dup(),
        }
    }
}

impl Clone for PendingApproval {
    fn clone(&self) -> (r: Self)
        ensures
            r.deep_view() == self.deep_view(),
    {
        self.dup()
    }
}

/// What a terminal is started with.
pub struct TuiOpts {
    pub cwd: String,
    pub model: Option<String>,
    /// The session that is taken up again.
    pub resume: Option<String>,
    /// Whether it goes on in a session of its own.
    pub fork: bool,
    pub load_opts: LoadOpts,
}

// ---- keys ----

/// A key, as far as the screen tells keys apart.
#[derive(Debug, Clone, Copy, PartialEq, Eq, Structural)]
pub enum KeyCode {
    Char(char),
    BackTab,
    PageUp,
    PageDown,
    Enter,
    Esc,
    Backspace,
    Other,
}

/// A key that was pressed.
#[derive(Debug, Clone, Copy, PartialEq, Eq, Structural)]
pub struct Key {
    pub code: KeyCode,
    /// Whether the control key was held, and no other.
    pub control: bool,
}

/// The answer that a key gives to a request for approval.
pub open spec fn answer_of(k: KeyCode) -> Option<ReviewDecision> {
    match k {
        KeyCode::Char(c) => if c == 'y' {
            Some(ReviewDecision::Approve)
        } else if c == 's' {
            Some(ReviewDecision::ApproveForSession)
        } else if c == 'n' {
            Some(ReviewDecision::Deny)
        } else if c == 'a' {
            Some(ReviewDecision::Abort)
        } else {
            None
        },
        _ => None,
    }
}

fn read_answer(k: KeyCode) -> (r: Option<ReviewDecision>)
    ensures
        r == answer_of(k),
{
    match k {
        KeyCode::Char(c) => if c == 'y' {
            Some(ReviewDecision::Approve)
        } else if c == 's' {
            Some(ReviewDecision::ApproveForSession)
        } else if c == 'n' {
            Some(ReviewDecision::Deny)
        } else if c == 'a' {
            Some(ReviewDecision::Abort)
        } else {
            None
        },
        _ => None,
    }
}

/// The mode after a mode. The one that allows everything is not among those that
/// follow each other.
pub open spec fn next_mode(m: PermissionMode) -> PermissionMode {
    match m {
        PermissionMode::Default => PermissionMode::Plan,
        PermissionMode::Plan => PermissionMode::AcceptEdits,
        PermissionMode::AcceptEdits => PermissionMode::Default,
        PermissionMode::Bypass => PermissionMode::Bypass,
    }
}

fn cycle(m: PermissionMode) -> (r: PermissionMode)
    ensures
        r == next_mode(m),
{
    match m {
        PermissionMode::Default => PermissionMode::Plan,
        PermissionMode::Plan => PermissionMode::AcceptEdits,
        PermissionMode::AcceptEdits => PermissionMode::Default,
        PermissionMode::Bypass => PermissionMode::Bypass,
    }
}

/// How far a key scrolls: the height of the terminal without the status line and the
/// input, and at least one line.
pub fn page_height(terminal: Option<u16>) -> (r: usize)
    ensures
        r == (match terminal {
            Some(h) => if h > 5 {
                h - 4
            } else {
                1
            },
            None => 20,
        }),
{
    match terminal {
        Some(h) => if h > 5 {
            (h - 4) as usize
        } else {
            1
        },
        None => 20,
    }
}

// ---- the state ----

/// The model of `UiState`.
#[verifier::ext_equal]
pub struct UiStateView {
    pub input: Seq<char>,
    pub history: Seq<HistoryCellView>,
    pub live_text: Seq<char>,
    pub tool_status: Option<(Seq<char>, bool)>,
    pub messages: Seq<ModelMessageView>,
    pub running: bool,
    pub error: Option<Seq<char>>,
    pub mode: PermissionMode,
    pub pending_approval: Option<PendingApprovalView>,
    pub cancellable: bool,
    pub usage: TokenUsageView,
    pub scroll_offset: usize,
}

/// What the screen knows.
pub struct UiState {
    pub input: String,
    pub history: Vec<HistoryCell>,
    /// What the model is saying.
    pub live_text: String,
    /// What the last tool does or did, and whether it went well.
    pub tool_status: Option<(String, bool)>,
    pub messages: Vec<ModelMessage>,
    pub running: bool,
    pub error: Option<String>,
    pub mode: PermissionMode,
    pub pending_approval: Option<PendingApproval>,
    /// Whether there is a turn that can be interrupted.
    pub cancellable: bool,
    /// What all turns have used.
    pub usage: TokenUsage,
    /// How many lines above the end the screen stands; zero follows what is new.
    pub scroll_offset: usize,
}

/// What is said of the last tool.
pub open spec fn status_view(s: Option<(String, bool)>) -> Option<(Seq<char>, bool)> {
    match s {
        Some((t, ok)) => Some((t@, ok)),
        None => None,
    }
}

impl DeepView for UiState {
    type V = UiStateView;

    open spec fn deep_view(&self) -> UiStateView {
        UiStateView {
            input: self.input@,
            history: self.history.deep_view(),
            live_text: self.live_text@,
            tool_status: status_view(self.tool_status),
            messages: self.messages.deep_view(),
            running: self.running,
            error: self.error.deep_view(),
            mode: self.mode,
            pending_approval: self.pending_approval.deep_view(),
            cancellable: self.cancellable,
            usage: self.usage.deep_view(),
            scroll_offset: self.scroll_offset,
        }
    }
}

/// The screen at the start.
pub open spec fn fresh_screen(mode: PermissionMode, messages: Seq<ModelMessageView>) -> UiStateView {
    UiStateView {
        input: Seq::empty(),
        history: Seq::empty(),
        live_text: Seq::empty(),
        tool_status: None,
        messages,
        running: false,
        error: None,
        mode,
        pending_approval: None,
        cancellable: false,
        usage: TokenUsageView { input: 0, cached_input: 0, output: 0, reasoning: 0 },
        scroll_offset: 0,
    }
}

/// The screen with a part more; it follows what is new.
pub open spec fn with_cell(s: UiStateView, c: HistoryCellView) -> UiStateView {
    UiStateView { history: s.history.push(c), scroll_offset: 0, ..s }
}

/// The screen with something that a command shows.
pub open spec fn showing(s: UiStateView, text: Seq<char>) -> UiStateView {
    with_cell(s, HistoryCellView::Tool(text))
}

/// The screen with an error.
pub open spec fn failing(s: UiStateView, text: Seq<char>) -> UiStateView {
    UiStateView { error: Some(text), ..s }
}

/// The screen when what the model says has become part of the past.
pub open spec fn settled(s: UiStateView) -> UiStateView {
    if s.live_text.len() == 0 {
        s
    } else {
        with_cell(
            UiStateView { live_text: Seq::empty(), ..s },
            HistoryCellView::Assistant(s.live_text),
        )
    }
}

// ---- events ----

/// The screen after an event of a turn.
pub open spec fn after_event(s: UiStateView, ev: TurnEventView) -> UiStateView {
    match ev {
        TurnEventView::TextDelta(t) => UiStateView {
            live_text: s.live_text + t,
            scroll_offset: 0,
            ..s
        },
        TurnEventView::ToolCallBegin { tool, .. } => UiStateView {
            tool_status: Some(("▶ "@ + tool, true)),
            ..s
        },
        TurnEventView::ToolExecEnd { ok, summary, .. } => {
            let status = (if ok {
                "✓"@
            } else {
                "✗"@
            }) + " "@ + summary;
            UiStateView { tool_status: Some((status, ok)), ..showing(settled(s), status) }
        },
        TurnEventView::ApprovalRequest { call_id, kind, detail } => UiStateView {
            pending_approval: Some(
                PendingApprovalView {
                    call_id,
                    kind,
                    tool: or_text(detail.tool, ""@),
                    command: detail.command,
                    pattern_suggestion: detail.pattern_suggestion,
                },
            ),
            ..s
        },
        TurnEventView::ApprovalResolved { .. } => UiStateView { pending_approval: None, ..s },
        TurnEventView::TurnComplete { .. } => UiStateView {
            running: false,
            tool_status: None,
            cancellable: false,
            ..settled(s)
        },
        TurnEventView::Error(m) => UiStateView {
            error: Some(m),
            running: false,
            cancellable: false,
            ..s
        },
        TurnEventView::Usage(u) => UiStateView {
            usage: TokenUsageView {
                input: capped(s.usage.input, u.input as nat),
                cached_input: capped(s.usage.cached_input, u.cached_input as nat),
                output: capped(s.usage.output, u.output as nat),
                reasoning: capped(s.usage.reasoning, u.reasoning as nat),
            },
            ..s
        },
        _ => s,
    }
}

fn sum(a: u64, b: u64) -> (r: u64)
    ensures
        r == capped(a, b as nat),
{
    if b <= u64::MAX - a {
        a + b
    } else {
        u64::MAX
    }
}

// ---- keys and what they ask for ----

/// The model of `UiAction`.
pub enum UiActionView {
    Nothing,
    Quit,
    SetMode(PermissionMode),
    Respond { call_id: Seq<char>, decision: ReviewDecision },
    Cancel,
    Run(Builtin),
    Expand { prompt: Seq<char>, name: Seq<char>, args: Seq<char> },
    Submit { text: Seq<char> },
}

/// What is to be done for a key.
pub enum UiAction {
    Nothing,
    Quit,
    SetMode(PermissionMode),
    /// Answer a call that waits.
    Respond { call_id: CallId, decision: ReviewDecision },
    /// Interrupt the running turn.
    Cancel,
    /// Do what a command needs from outside, and show what came of it.
    Run(Builtin),
    /// Find the template of a command and fill it in; `submit` takes it up.
    Expand { prompt: String, name: String, args: String },
    /// Start a turn; `submit` takes the text up.
    Submit { text: String },
}

impl DeepView for UiAction {
    type V = UiActionView;

    open spec fn deep_view(&self) -> UiActionView {
        match *self {
            UiAction::Nothing => UiActionView::Nothing,
            UiAction::Quit => UiActionView::Quit,
            UiAction::SetMode(m) => UiActionView::SetMode(m),
            UiAction::Respond { call_id, decision } => UiActionView::Respond {
                call_id: call_id.deep_view(),
                decision,
            },
            UiAction::Cancel => UiActionView::Cancel,
            UiAction::Run(c) => UiActionView::Run(c),
            UiAction::Expand { prompt, name, args } => UiActionView::Expand {
                prompt: prompt@,
                name: name@,
                args: args@,
            },
            UiAction::Submit { text } => UiActionView::Submit { text: text@ },
        }
    }
}

/// What is said of what all turns have used.
pub open spec fn usage_text(u: TokenUsageView) -> Seq<char> {
    "usage: input="@ + decimal_of(u.input as nat) + " (cached="@ + decimal_of(u.cached_input as nat)
        + "), output="@ + decimal_of(u.output as nat) + " (reasoning="@ + decimal_of(
        u.reasoning as nat,
    ) + "), total="@ + decimal_of(capped(u.input, u.output as nat) as nat)
}

/// The screen after a command, and what is to be done for it.
pub open spec fn commanded(s: UiStateView, c: Builtin) -> (UiStateView, UiActionView) {
    match c {
        Builtin::Clear => (
            UiStateView { history: Seq::empty(), messages: Seq::empty(), error: None, ..s },
            UiActionView::Nothing,
        ),
        Builtin::Mode(m) => (
            UiStateView { mode: m, ..s },
            UiActionView::SetMode(m),
        ),
        Builtin::ModeCycle => (
            UiStateView { mode: next_mode(s.mode), ..s },
            UiActionView::SetMode(next_mode(s.mode)),
        ),
        Builtin::Compact => (
            UiStateView { running: true, ..s },
            UiActionView::Run(c),
        ),
        Builtin::Cost => (showing(s, usage_text(s.usage)), UiActionView::Nothing),
        _ => (s, UiActionView::Run(c)),
    }
}

/// The screen after the input was sent, and what is to be done for it.
pub open spec fn entered_line(s: UiStateView) -> (UiStateView, UiActionView) {
    let prompt = s.input;
    let t = UiStateView { input: Seq::empty(), ..s };
    if prompt.len() == 0 {
        (s, UiActionView::Nothing)
    } else if "/"@.is_prefix_of(prompt) {
        match builtin_of(prompt) {
            Some(c) => commanded(t, c),
            None => {
                let (name, args) = name_and_args(prompt);
                (t, UiActionView::Expand { prompt, name, args })
            },
        }
    } else {
        (t, UiActionView::Submit { text: prompt })
    }
}

/// The screen after a key, and what is to be done for it. While a call waits, keys
/// answer it and do nothing else.
pub open spec fn pressed(s: UiStateView, k: Key, page: usize) -> (UiStateView, UiActionView) {
    match s.pending_approval {
        Some(p) => match answer_of(k.code) {
            Some(d) => (
                UiStateView { pending_approval: None, ..s },
                UiActionView::Respond { call_id: p.call_id, decision: d },
            ),
            None => (s, UiActionView::Nothing),
        },
        None => match k.code {
            KeyCode::Char(c) => if k.control && (c == 'c' || c == 'd') {
                (s, UiActionView::Quit)
            } else if !s.running {
                (UiStateView { input: s.input.push(c), ..s }, UiActionView::Nothing)
            } else {
                (s, UiActionView::Nothing)
            },
            KeyCode::BackTab => (
                UiStateView { mode: next_mode(s.mode), ..s },
                UiActionView::SetMode(next_mode(s.mode)),
            ),
            KeyCode::PageUp => (
                UiStateView {
                    scroll_offset: if s.scroll_offset + page <= usize::MAX {
                        (s.scroll_offset + page) as usize
                    } else {
                        usize::MAX
                    },
                    ..s
                },
                UiActionView::Nothing,
            ),
            KeyCode::PageDown => (
                UiStateView {
                    scroll_offset: if s.scroll_offset >= page {
                        (s.scroll_offset - page) as usize
                    } else {
                        0
                    },
                    ..s
                },
                UiActionView::Nothing,
            ),
            KeyCode::Enter => if s.running {
                (s, UiActionView::Nothing)
            } else {
                entered_line(s)
            },
            KeyCode::Esc => if s.running && s.cancellable {
                (UiStateView { cancellable: false, ..s }, UiActionView::Cancel)
            } else {
                (s, UiActionView::Nothing)
            },
            KeyCode::Backspace => if !s.running && s.input.len() > 0 {
                (UiStateView { input: s.input.drop_last(), ..s }, UiActionView::Nothing)
            } else {
                (s, UiActionView::Nothing)
            },
            KeyCode::Other => (s, UiActionView::Nothing),
        },
    }
}

/// A text without its last character.
fn without_last(s: &str) -> (r: String)
    ensures
        r@ == (if s@.len() == 0 {
            s@
        } else {
            s@.drop_last()
        }),
{
    let v = chars_of(s);
    if v.len() == 0 {
        return s.to_owned();
    }
    let r = string_of(v.as_slice(), 0, v.len() - 1);
    assert(r@ =~= s@.drop_last());
    r
}

impl UiState {
    /// The screen at the start.
    pub fn new(mode: PermissionMode, messages: Vec<ModelMessage>) -> (r: Self)
        ensures
            r.deep_view() == fresh_screen(mode, messages.deep_view()),
    {
        let r = UiState {
            input: String::new(),
            history: Vec::new(),
            live_text: String::new(),
            tool_status: None,
            messages,
            running: false,
            error: None,
            mode,
            pending_approval: None,
            cancellable: false,
            usage: TokenUsage::zero(),
            scroll_offset: 0,
        };
        assert(r.deep_view() =~= fresh_screen(mode, messages.deep_view()));
        r
    }

    fn push_history(&mut self, cell: HistoryCell)
        ensures
            final(self).deep_view() == with_cell(old(self).deep_view(), cell.deep_view()),
    {
        let ghost s = self.deep_view();
        let ghost c = cell.deep_view();
        self.history.push(cell);
        self.scroll_offset = 0;
        assert(self.history.deep_view() =~= s.history.push(c));
    }

    fn show(&mut self, text: &str)
        ensures
            final(self).deep_view() == showing(old(self).deep_view(), text@),
    {
        self.push_history(HistoryCell::tool(text));
    }

    fn settle(&mut self)
        ensures
            final(self).deep_view() == settled(old(self).deep_view()),
    {
        let ghost s = self.deep_view();
        if self.live_text.as_str().unicode_len() > 0 {
            let mut text = String::new();
            assert(text@ =~= Seq::<char>::empty());
            std::mem::swap(&mut text, &mut self.live_text);
            self.push_history(HistoryCell::assistant(text));
        }
    }

    /// Take up an event of a turn.
    pub fn handle_turn_event(&mut self, ev: TurnEvent)
        ensures
            final(self).deep_view() == after_event(old(self).deep_view(), ev.deep_view()),
    {
        let ghost s = self.deep_view();
        let ghost e = ev.deep_view();
        match ev {
            TurnEvent::TextDelta(t) => {
                self.live_text.append(t.as_str());
                self.scroll_offset = 0;
            },
            TurnEvent::ToolCallBegin { tool, .. } => {
                self.tool_status = Some((cat("▶ ", tool.as_str()), true));
            },
            TurnEvent::ToolExecEnd { ok, summary, .. } => {
                let mark = if ok {
                    "✓"
                } else {
                    "✗"
                };
                let status = cat3(mark, " ", summary.as_str());
                self.settle();
                self.show(status.as_str());
                self.tool_status = Some((status, ok));
            },
            TurnEvent::ApprovalRequest { call_id, kind, detail } => {
                self.pending_approval = Some(
                    PendingApproval {
                        call_id,
                        kind,
                        tool: text_or(detail.tool, ""),
                        command: detail.command,
                        pattern_suggestion: detail.pattern_suggestion,
                    },
                );
            },
            TurnEvent::ApprovalResolved { .. } => {
                self.pending_approval = None;
            },
            TurnEvent::TurnComplete { .. } => {
                self.settle();
                self.running = false;
                self.tool_status = None;
                self.cancellable = false;
            },
            TurnEvent::Error(m) => {
                self.error = Some(m);
                self.running = false;
                self.cancellable = false;
            },
            TurnEvent::Usage(u) => {
                self.usage = TokenUsage {
                    input: sum(self.usage.input, u.input),
                    cached_input: sum(self.usage.cached_input, u.cached_input),
                    output: sum(self.usage.output, u.output),
                    reasoning: sum(self.usage.reasoning, u.reasoning),
                };
            },
            _ => {},
        }
        assert(self.deep_view() =~= after_event(s, e));
    }

    fn command(&mut self, c: Builtin) -> (r: UiAction)
        ensures
            (final(self).deep_view(), r.deep_view()) == commanded(old(self).deep_view(), c),
    {
        let ghost s = self.deep_view();
        match c {
            Builtin::Clear => {
                self.history = Vec::new();
                self.messages = Vec::new();
                self.error = None;
                assert(self.history.deep_view() =~= Seq::<HistoryCellView>::empty());
                assert(self.messages.deep_view() =~= Seq::<ModelMessageView>::empty());
                UiAction::Nothing
            },
            Builtin::Mode(m) => {
                self.mode = m;
                UiAction::SetMode(m)
            },
            Builtin::ModeCycle => {
                self.mode = cycle(self.mode);
                UiAction::SetMode(self.mode)
            },
            Builtin::Compact => {
                self.running = true;
                UiAction::Run(c)
            },
            Builtin::Cost => {
                let t = self.usage_line();
                self.show(t.as_str());
                UiAction::Nothing
            },
            _ => UiAction::Run(c),
        }
    }

    fn usage_line(&self) -> (r: String)
        ensures
            r@ == usage_text(self.deep_view().usage),
    {
        let u = &self.usage;
        let mut t = "usage: input=".to_owned();
        let a = decimal(u.input);
        t.append(a.as_str());
        t.append(" (cached=");
        let b = decimal(u.cached_input);
        t.append(b.as_str());
        t.append("), output=");
        let c = decimal(u.output);
        t.append(c.as_str());
        t.append(" (reasoning=");
        let d = decimal(u.reasoning);
        t.append(d.as_str());
        t.append("), total=");
        let n: u64 = sum(u.input, u.output);
        let e = decimal(n);
        t.append(e.as_str());
        t
    }

    fn enter(&mut self) -> (r: UiAction)
        ensures
            (final(self).deep_view(), r.deep_view()) == entered_line(old(self).deep_view()),
    {
        if self.input.as_str().unicode_len() == 0 {
            return UiAction::Nothing;
        }
        let prompt = self.input.clone();
        self.input = String::new();
        assert(self.input@ =~= Seq::<char>::empty());
        if starts_with(prompt.as_str(), "/") {
            match parse_builtin(prompt.as_str()) {
                Some(c) => self.command(c),
                None => {
                    let (name, args) = split_name_args(prompt.as_str());
                    UiAction::Expand { prompt, name, args }
                },
            }
        } else {
            UiAction::Submit { text: prompt }
        }
    }

    /// Take up a key.
    pub fn handle_key(&mut self, key: Key, page: usize) -> (r: UiAction)
        ensures
            (final(self).deep_view(), r.deep_view()) == pressed(old(self).deep_view(), key, page),
    {
        let ghost s = self.deep_view();
        let waiting = match &self.pending_approval {
            Some(p) => Some(p.call_id.clone()),
            None => None,
        };
        match waiting {
            Some(call_id) => match read_answer(key.code) {
                Some(decision) => {
                    self.pending_approval = None;
                    return UiAction::Respond { call_id, decision };
                },
                None => return UiAction::Nothing,
            },
            None => {},
        }
        match key.code {
            KeyCode::Char(c) => {
                if key.control && (c == 'c' || c == 'd') {
                    return UiAction::Quit;
                }
                if !self.running {
                    self.input.push(c);
                    assert(self.input@ =~= s.input.push(c));
                }
                UiAction::Nothing
            },
            KeyCode::BackTab => {
                self.mode = cycle(self.mode);
                UiAction::SetMode(self.mode)
            },
            KeyCode::PageUp => {
                self.scroll_offset = if page <= usize::MAX - self.scroll_offset {
                    self.scroll_offset + page
                } else {
                    usize::MAX
                };
                UiAction::Nothing
            },
            KeyCode::PageDown => {
                self.scroll_offset = if self.scroll_offset >= page {
                    self.scroll_offset - page
                } else {
                    0
                };
                UiAction::Nothing
            },
            KeyCode::Enter => if self.running {
                UiAction::Nothing
            } else {
                self.enter()
            },
            KeyCode::Esc => if self.running && self.cancellable {
                self.cancellable = false;
                UiAction::Cancel
            } else {
                UiAction::Nothing
            },
            KeyCode::Backspace => {
                if !self.running {
                    self.input = without_last(self.input.as_str());
                    assert(self.deep_view() =~= pressed(s, key, page).0);
                }
                UiAction::Nothing
            },
            KeyCode::Other => UiAction::Nothing,
        }
    }

    /// A turn starts with what the user says, and can be interrupted from now on.
    pub fn submit(&mut self, text: &str)
        ensures
            final(self).deep_view() == (UiStateView {
                messages: old(self).deep_view().messages.push(asked(text@)),
                running: true,
                live_text: Seq::empty(),
                error: None,
                cancellable: true,
                ..with_cell(old(self).deep_view(), HistoryCellView::User(text@))
            }),
    {
        let ghost s = self.deep_view();
        self.push_history(HistoryCell::user(text));
        let m = user_message(text);
        let ghost mv = m.deep_view();
        self.messages.push(m);
        assert(self.messages.deep_view() =~= s.messages.push(mv));
        self.running = true;
        self.live_text = String::new();
        assert(self.live_text@ =~= Seq::<char>::empty());
        self.error = None;
        self.cancellable = true;
    }

    /// There is no such command.
    pub fn unknown_command(&mut self, prompt: &str)
        ensures
            final(self).deep_view() == failing(old(self).deep_view(), "未知命令: "@ + prompt@),
    {
        self.error = Some(cat("未知命令: ", prompt));
    }

    /// Show which commands there are.
    pub fn show_help(&mut self, commands: &Vec<CommandDef>)
        ensures
            final(self).deep_view() == showing(
                old(self).deep_view(),
                help_text(commands.deep_view()),
            ),
    {
        let t = help(commands);
        self.show(t.as_str());
    }

    /// Show the sessions of the project, where the home directory is known.
    pub fn show_sessions(&mut self, files: &Option<Vec<SessionFile>>)
        ensures
            match *files {
                None => final(self).deep_view() == showing(
                    old(self).deep_view(),
                    "HOME 未设置,无法定位会话"@,
                ),
                Some(v) => exists|t: Seq<char>| #[trigger]
                    lists_sessions(t, v.deep_view()) && final(self).deep_view() == showing(
                        old(self).deep_view(),
                        t,
                    ),
            },
    {
        match files {
            None => {
                self.show("HOME 未设置,无法定位会话");
            },
            Some(v) => {
                let t = list_sessions(v);
                assert(lists_sessions(t@, v.deep_view()));
                self.show(t.as_str());
            },
        }
    }

    /// The conversation was made short, or could not be.
    pub fn compacted(&mut self, r: Result<Vec<ModelMessage>, String>)
        ensures
            final(self).deep_view() == (UiStateView {
                running: false,
                ..match r {
                    Ok(v) => showing(
                        UiStateView { messages: v.deep_view(), ..old(self).deep_view() },
                        "已压缩上下文"@,
                    ),
                    Err(e) => failing(old(self).deep_view(), "压缩失败: "@ + e@),
                }
            }),
    {
        match r {
            Ok(v) => {
                self.messages = v;
                self.show("已压缩上下文");
            },
            Err(e) => {
                self.error = Some(cat("压缩失败: ", e.as_str()));
            },
        }
        self.running = false;
    }

    /// The template of instructions was written, or could not be.
    pub fn template_written(&mut self, existed: bool, r: Result<(), String>)
        ensures
            final(self).deep_view() == (match r {
                Ok(_) => showing(
                    old(self).deep_view(),
                    (if existed {
                        "overwrote"@
                    } else {
                        "created"@
                    }) + " AGENTS.md(模板,请编辑)"@,
                ),
                Err(e) => failing(old(self).deep_view(), "写入失败: "@ + e@),
            }),
    {
        match r {
            Ok(_) => {
                let t = cat(
                    if existed {
                        "overwrote"
                    } else {
                        "created"
                    },
                    " AGENTS.md(模板,请编辑)",
                );
                self.show(t.as_str());
            },
            Err(e) => {
                self.error = Some(cat("写入失败: ", e.as_str()));
            },
        }
    }

    /// Show how many hooks there are at each point.
    pub fn show_hooks(&mut self, h: &HooksConfig)
        ensures
            final(self).deep_view() == showing(old(self).deep_view(), hooks_text(h.deep_view())),
    {
        let t = count_hooks(h);
        self.show(t.as_str());
    }

    /// Show the tools of tool servers.
    pub fn show_mcp(&mut self, tools: &ToolRegistry)
        ensures
            final(self).deep_view() == showing(
                old(self).deep_view(),
                mcp_text(served_tools(tools.deep_view())),
            ),
    {
        let t = describe_mcp(&list_mcp_tools(tools));
        self.show(t.as_str());
    }

    /// Show the sub-agents.
    pub fn show_agents(&mut self, agents: &Vec<SubagentDef>)
        ensures
            final(self).deep_view() == showing(
                old(self).deep_view(),
                agents_text(agents.deep_view()),
            ),
    {
        let t = describe_agents(agents);
        self.show(t.as_str());
    }

    /// Show the model.
    pub fn show_model(&mut self, model: &str)
        ensures
            final(self).deep_view() == showing(old(self).deep_view(), "model: "@ + model@),
    {
        let t = cat("model: ", model);
        self.show(t.as_str());
    }

    /// Show the checkpoints, the newest first, or why they could not be read.
    pub fn show_checkpoints(&mut self, rows: Result<Vec<(String, String)>, String>)
        ensures
            final(self).deep_view() == (match rows {
                Ok(v) => showing(old(self).deep_view(), checkpoints_text(pairs_view(v@))),
                Err(e) => failing(old(self).deep_view(), "读取 checkpoint 栈失败: "@ + e@),
            }),
    {
        match rows {
            Ok(v) => {
                let t = describe_checkpoints(&v);
                self.show(t.as_str());
            },
            Err(e) => {
                self.error = Some(cat("读取 checkpoint 栈失败: ", e.as_str()));
            },
        }
    }

    /// Files were taken back to the last checkpoint, or there is none, or it failed.
    pub fn rolled_back(&mut self, r: Result<Option<String>, String>)
        ensures
            final(self).deep_view() == (match r {
                Ok(Some(hash)) => showing(
                    old(self).deep_view(),
                    "已回滚到最近 checkpoint "@ + first_eight(hash@),
                ),
                Ok(None) => showing(
                    old(self).deep_view(),
                    "无 checkpoint(Edit/Write 前自动快照)"@,
                ),
                Err(e) => failing(old(self).deep_view(), "rollback 失败: "@ + e@),
            }),
    {
        match r {
            Ok(Some(hash)) => {
                let v = chars_of(hash.as_str());
                let n: usize = if v.len() < 8 {
                    v.len()
                } else {
                    8
                };
                let short = string_of(v.as_slice(), 0, n);
                assert(short@ =~= first_eight(hash@));
                let t = cat("已回滚到最近 checkpoint ", short.as_str());
                self.show(t.as_str());
            },
            Ok(None) => {
                self.show("无 checkpoint(Edit/Write 前自动快照)");
            },
            Err(e) => {
                self.error = Some(cat("rollback 失败: ", e.as_str()));
            },
        }
    }

    /// Show what the last checkpoint changed, or why it could not be read.
    pub fn show_diff(&mut self, r: Result<String, String>)
        ensures
            final(self).deep_view() == (match r {
                Ok(d) => showing(
                    old(self).deep_view(),
                    if d@.len() == 0 {
                        "无 checkpoint diff(Edit/Write 前自动快照)"@
                    } else {
                        d@
                    },
                ),
                Err(e) => failing(old(self).deep_view(), "读取 diff 失败: "@ + e@),
            }),
    {
        match r {
            Ok(d) => {
                if d.as_str().unicode_len() == 0 {
                    self.show("无 checkpoint diff(Edit/Write 前自动快照)");
                } else {
                    self.show(d.as_str());
                }
            },
            Err(e) => {
                self.error = Some(cat("读取 diff 失败: ", e.as_str()));
            },
        }
    }

    /// There is no repository of checkpoints.
    pub fn no_repository(&mut self, e: &str)
        ensures
            final(self).deep_view() == failing(
                old(self).deep_view(),
                "shadow 仓库初始化失败: "@ + e@,
            ),
    {
        self.error = Some(cat("shadow 仓库初始化失败: ", e));
    }
}

/// The template of instructions.
pub fn instructions_template() -> (r: &'static str)
    ensures
        r@ == "# AGENTS.md\n\n本项目对 tao 的指令:\n\n- 编码规范:\n- 优先:\n- 避免:\n"@,
{
    "# AGENTS.md\n\n本项目对 tao 的指令:\n\n- 编码规范:\n- 优先:\n- 避免:\n"
}

/// The template of the command that an input names.
pub open spec fn template_named(s: Seq<CommandDefView>, name: Seq<char>) -> Option<Seq<char>>
    decreases s.len(),
{
    if s.len() == 0 {
        None
    } else if s[0].name == name {
        Some(s[0].body)
    } else {
        template_named(s.drop_first(), name)
    }
}

/// The template of the command that an input names.
pub fn find_template(v: &Vec<CommandDef>, name: &str) -> (r: Option<String>)
    ensures
        r.deep_view() == template_named(v.deep_view(), name@),
{
    let ghost all = v.deep_view();
    let mut i: usize = 0;
    assert(all.skip(0) =~= all);
    while i < v.len()
        invariant
            i <= v@.len(),
            all == v.deep_view(),
            template_named(all, name@) == template_named(all.skip(i as int), name@),
        decreases v@.len() - i,
    {
        assert(all.skip(i as int)[0] == v@[i as int].deep_view());
        if same(v[i].name.as_str(), name) {
            return Some(v[i].body.clone());
        }
        assert(all.skip(i as int).drop_first() =~= all.skip(i + 1));
        i = i + 1;
    }
    None
}

// ---- what commands show ----

/// Which commands templates make.
pub open spec fn template_list(s: Seq<CommandDefView>) -> Seq<char>
    decreases s.len(),
{
    if s.len() == 0 {
        Seq::empty()
    } else {
        template_list(s.drop_last()) + "\n  /"@ + s.last().name + ": "@ + s.last().description
    }
}

/// Which commands there are.
pub open spec fn help_text(s: Seq<CommandDefView>) -> Seq<char> {
    let head =
        "内置:/help /clear /mode [default|plan|accept-edits] /compact /sessions /cost /rewind /rollback /diff\n"@;
    if s.len() == 0 {
        head
    } else {
        head + "自定义:"@ + template_list(s)
    }
}

fn help(v: &Vec<CommandDef>) -> (r: String)
    ensures
        r@ == help_text(v.deep_view()),
{
    let mut out =
        "内置:/help /clear /mode [default|plan|accept-edits] /compact /sessions /cost /rewind /rollback /diff\n".to_owned();
    let ghost all = v.deep_view();
    assert(all.len() == v@.len());
    if v.len() == 0 {
        return out;
    }
    out.append("自定义:");
    let ghost head = out@;
    let mut i: usize = 0;
    assert(out@ =~= head + template_list(all.take(0)));
    while i < v.len()
        invariant
            i <= v@.len(),
            all == v.deep_view(),
            out@ == head + template_list(all.take(i as int)),
        decreases v@.len() - i,
    {
        assert(all.take(i + 1).drop_last() =~= all.take(i as int));
        assert(all.take(i + 1).last() == v@[i as int].deep_view());
        out.append("\n  /");
        out.append(v[i].name.as_str());
        out.append(": ");
        out.append(v[i].description.as_str());
        assert(out@ =~= head + template_list(all.take(i + 1)));
        i = i + 1;
    }
    assert(all.take(all.len() as int) =~= all);
    out
}

/// How many hooks there are at each point.
pub open spec fn hooks_text(h: HooksConfigView) -> Seq<char> {
    "pre_tool_use:"@ + decimal_of(h.pre_tool_use.len()) + " post_tool_use:"@ + decimal_of(
        h.post_tool_use.len(),
    ) + " session_start:"@ + decimal_of(h.session_start.len()) + " session_end:"@ + decimal_of(
        h.session_end.len(),
    ) + " user_prompt_submit:"@ + decimal_of(h.user_prompt_submit.len()) + " notification:"@
        + decimal_of(h.notification.len()) + " subagent_stop:"@ + decimal_of(h.subagent_stop.len())
        + " stop:"@ + decimal_of(h.stop.len())
}

fn put_count(out: &mut String, name: &str, v: &Vec<HookConfig>)
    ensures
        final(out)@ == old(out)@ + name@ + decimal_of(v.deep_view().len()),
{
    out.append(name);
    let n = decimal(v.len() as u64);
    out.append(n.as_str());
    assert(v.deep_view().len() == v@.len());
}

fn count_hooks(h: &HooksConfig) -> (r: String)
    ensures
        r@ == hooks_text(h.deep_view()),
{
    let mut out = String::new();
    put_count(&mut out, "pre_tool_use:", &h.pre_tool_use);
    assert(out@ =~= "pre_tool_use:"@ + decimal_of(h.deep_view().pre_tool_use.len()));
    put_count(&mut out, " post_tool_use:", &h.post_tool_use);
    put_count(&mut out, " session_start:", &h.session_start);
    put_count(&mut out, " session_end:", &h.session_end);
    put_count(&mut out, " user_prompt_submit:", &h.user_prompt_submit);
    put_count(&mut out, " notification:", &h.notification);
    put_count(&mut out, " subagent_stop:", &h.subagent_stop);
    put_count(&mut out, " stop:", &h.stop);
    out
}

/// A tool of a tool server.
pub open spec fn mcp_line(t: McpToolInfoView) -> Seq<char> {
    t.server + " ("@ + t.name + "): "@ + t.description
}

/// The tools of tool servers.
pub open spec fn mcp_text(s: Seq<McpToolInfoView>) -> Seq<char> {
    if s.len() == 0 {
        "无 MCP 工具"@
    } else {
        joined(s.map_values(|t: McpToolInfoView| mcp_line(t)), "\n"@)
    }
}

fn describe_mcp(v: &Vec<McpToolInfo>) -> (r: String)
    ensures
        r@ == mcp_text(v.deep_view()),
{
    let ghost all = v.deep_view();
    assert(all.len() == v@.len());
    if v.len() == 0 {
        return "无 MCP 工具".to_owned();
    }
    let mut out: Vec<String> = Vec::new();
    let mut i: usize = 0;
    while i < v.len()
        invariant
            i <= v@.len(),
            all == v.deep_view(),
            out@.len() == i,
            forall|k: int| 0 <= k < i ==> (#[trigger] out@[k])@ == mcp_line(all[k]),
        decreases v@.len() - i,
    {
        let head = cat3(v[i].server.as_str(), " (", v[i].name.as_str());
        out.push(cat3(head.as_str(), "): ", v[i].description.as_str()));
        i = i + 1;
    }
    assert(views(out@) =~= all.map_values(|t: McpToolInfoView| mcp_line(t)));
    join(&out, "\n")
}

/// A sub-agent.
pub open spec fn agent_line(a: SubagentDefView) -> Seq<char> {
    "- "@ + a.name + ": "@ + a.description
}

/// The sub-agents.
pub open spec fn agents_text(s: Seq<SubagentDefView>) -> Seq<char> {
    if s.len() == 0 {
        "无子 agent"@
    } else {
        joined(s.map_values(|a: SubagentDefView| agent_line(a)), "\n"@)
    }
}

fn describe_agents(v: &Vec<SubagentDef>) -> (r: String)
    ensures
        r@ == agents_text(v.deep_view()),
{
    let ghost all = v.deep_view();
    assert(all.len() == v@.len());
    if v.len() == 0 {
        return "无子 agent".to_owned();
    }
    let mut out: Vec<String> = Vec::new();
    let mut i: usize = 0;
    while i < v.len()
        invariant
            i <= v@.len(),
            all == v.deep_view(),
            out@.len() == i,
            forall|k: int| 0 <= k < i ==> (#[trigger] out@[k])@ == agent_line(all[k]),
        decreases v@.len() - i,
    {
        let head = cat3("- ", v[i].name.as_str(), ": ");
        out.push(cat(head.as_str(), v[i].description.as_str()));
        i = i + 1;
    }
    assert(views(out@) =~= all.map_values(|a: SubagentDefView| agent_line(a)));
    join(&out, "\n")
}

/// The first eight characters.
pub open spec fn first_eight(s: Seq<char>) -> Seq<char> {
    s.take(
        if s.len() < 8 {
            s.len() as int
        } else {
            8
        },
    )
}

/// Checkpoints, numbered.
pub open spec fn checkpoint_rows(s: Seq<(Seq<char>, Seq<char>)>) -> Seq<char>
    decreases s.len(),
{
    if s.len() == 0 {
        Seq::empty()
    } else {
        checkpoint_rows(s.drop_last()) + "  "@ + padded(decimal_of(s.len()), 2) + ". "@ + s.last().0
            + "  "@ + s.last().1 + "  tao checkpoint\n"@
    }
}

/// The checkpoints, the newest first.
pub open spec fn checkpoints_text(s: Seq<(Seq<char>, Seq<char>)>) -> Seq<char> {
    if s.len() == 0 {
        "无 checkpoint(Edit/Write 前自动快照)"@
    } else {
        "checkpoint 栈:\n"@ + checkpoint_rows(s) + "\n回退到最近 checkpoint 用 /rollback"@
    }
}

fn describe_checkpoints(v: &Vec<(String, String)>) -> (r: String)
    ensures
        r@ == checkpoints_text(pairs_view(v@)),
{
    let ghost all = pairs_view(v@);
    if v.len() == 0 {
        return "无 checkpoint(Edit/Write 前自动快照)".to_owned();
    }
    let mut out = "checkpoint 栈:\n".to_owned();
    let ghost head = out@;
    let mut i: usize = 0;
    assert(out@ =~= head + checkpoint_rows(all.take(0)));
    while i < v.len()
        invariant
            i <= v@.len(),
            all == pairs_view(v@),
            out@ == head + checkpoint_rows(all.take(i as int)),
        decreases v@.len() - i,
    {
        assert(all.take(i + 1).drop_last() =~= all.take(i as int));
        let n = decimal(i as u64 + 1);
        let p = pad_left(n.as_str(), 2);
        out.append("  ");
        out.append(p.as_str());
        out.append(". ");
        out.append(v[i].0.as_str());
        out.append("  ");
        out.append(v[i].1.as_str());
        out.append("  tao checkpoint\n");
        assert(out@ =~= head + checkpoint_rows(all.take(i + 1)));
        i = i + 1;
    }
    assert(all.take(all.len() as int) =~= all);
    out.append("\n回退到最近 checkpoint 用 /rollback");
    out
}

/// The model of `SessionFile`.
pub struct SessionFileView {
    pub stem: Seq<char>,
    pub modified: u64,
    pub size: u64,
    pub text: Option<Seq<char>>,
}

/// The log of a session as the screen lists it.
pub struct SessionFile {
    /// The file's name without its ending.
    pub stem: String,
    /// When it was last written to; zero where that is not known.
    pub modified: u64,
    pub size: u64,
    /// What could be read of it.
    pub text: Option<String>,
}

impl DeepView for SessionFile {
    type V = SessionFileView;

    open spec fn deep_view(&self) -> SessionFileView {
        SessionFileView {
            stem: self.stem@,
            modified: self.modified,
            size: self.size,
            text: self.text.deep_view(),
        }
    }
}

/// The title of a session's log.
pub open spec fn listed_title(text: Option<Seq<char>>) -> Seq<char> {
    match text {
        Some(t) => match replayed(t) {
            Ok(s) => title_of(s),
            Err(_) => "(无标题)"@,
        },
        None => "(无标题)"@,
    }
}

/// A session in the list.
pub open spec fn session_line(f: SessionFileView) -> Seq<char> {
    clipped(listed_title(f.text), 30) + "  ["@ + clipped(f.stem, 8) + "]  "@ + decimal_of(
        f.size as nat,
    ) + "B\n"@
}

/// Sessions in the list, in a given order.
pub open spec fn session_lines(s: Seq<SessionFileView>, order: Seq<usize>) -> Seq<char>
    decreases order.len(),
{
    if order.len() == 0 {
        Seq::empty()
    } else {
        session_lines(s, order.drop_last()) + session_line(s[order.last() as int])
    }
}

/// When files were last written to.
pub open spec fn file_ages(s: Seq<SessionFileView>) -> Seq<u64> {
    Seq::new(s.len(), |i: int| s[i].modified)
}

/// Whether a text lists sessions, the newest first.
pub open spec fn lists_sessions(t: Seq<char>, s: Seq<SessionFileView>) -> bool {
    if s.len() == 0 {
        t == "(无会话)"@
    } else {
        exists|order: Seq<usize>| #[trigger]
            largest_first(order, file_ages(s)) && t == session_lines(s, order)
    }
}

fn describe_session_file(f: &SessionFile) -> (r: String)
    ensures
        r@ == session_line(f.deep_view()),
{
    let title = match &f.text {
        Some(t) => match replay(t.as_str()) {
            Ok(s) => match s.title {
                Some(t) => t,
                None => text_or(first_user_text(&s.messages), "(无标题)"),
            },
            Err(_) => "(无标题)".to_owned(),
        },
        None => "(无标题)".to_owned(),
    };
    let a = clip(title.as_str(), 30);
    let b = clip(f.stem.as_str(), 8);
    let n = decimal(f.size);
    let head = cat3(a.as_str(), "  [", b.as_str());
    let more = cat3(head.as_str(), "]  ", n.as_str());
    cat(more.as_str(), "B\n")
}

/// The sessions of a project, the newest first.
pub fn list_sessions(files: &Vec<SessionFile>) -> (r: String)
    ensures
        lists_sessions(r@, files.deep_view()),
{
    let ghost all = files.deep_view();
    assert(all.len() == files@.len());
    if files.len() == 0 {
        return "(无会话)".to_owned();
    }
    let mut keys: Vec<u64> = Vec::new();
    let mut i: usize = 0;
    while i < files.len()
        invariant
            i <= files@.len(),
            keys@.len() == i,
            forall|k: int| 0 <= k < i ==> #[trigger] keys@[k] == files@[k].modified,
        decreases files@.len() - i,
    {
        keys.push(files[i].modified);
        i = i + 1;
    }
    assert(keys@ =~= file_ages(all));
    let order = newest_first(&keys);
    let mut out = String::new();
    let mut j: usize = 0;
    assert(out@ =~= session_lines(all, order@.take(0)));
    while j < order.len()
        invariant
            j <= order@.len(),
            all == files.deep_view(),
            lists_all(order@, files@.len()),
            out@ == session_lines(all, order@.take(j as int)),
        decreases order@.len() - j,
    {
        assert(order@.take(j + 1).drop_last() =~= order@.take(j as int));
        let t = describe_session_file(&files[order[j]]);
        out.append(t.as_str());
        j = j + 1;
    }
    assert(order@.take(order@.len() as int) =~= order@);
    out
}

// ---- laws ----

/// While a call waits for the user, keys answer it or do nothing: nothing is typed,
/// sent, scrolled or switched, and the screen does not close.
pub proof fn law_waiting_calls_take_all_keys(s: UiStateView, k: Key, page: usize)
    requires
        s.pending_approval is Some,
    ensures
        ({
            let (t, a) = pressed(s, k, page);
            &&& a is Respond || a is Nothing
            &&& a is Respond <==> t.pending_approval is None
            &&& t == (UiStateView { pending_approval: t.pending_approval, ..s })
            &&& a matches UiActionView::Respond { call_id, .. } ==> call_id
                == s.pending_approval->0.call_id
        }),
{
}

/// Nothing is typed or sent while a turn runs.
pub proof fn law_running_turns_take_no_input(s: UiStateView, k: Key, page: usize)
    requires
        s.running,
    ensures
        ({
            let (t, a) = pressed(s, k, page);
            &&& t.input == s.input
            &&& t.messages == s.messages
            &&& t.running
            &&& !(a is Submit) && !(a is Expand) && !(a is Run)
        }),
{
}

/// What is new is in sight: text that comes in and parts that are added bring the
/// screen back to the end.
pub proof fn law_screen_follows_what_is_new(s: UiStateView, t: Seq<char>, c: HistoryCellView)
    ensures
        after_event(s, TurnEventView::TextDelta(t)).scroll_offset == 0,
        with_cell(s, c).scroll_offset == 0,
{
}

/// Switching modes comes back to where it began after three keys, and never reaches
/// the mode that allows everything.
pub proof fn law_modes_go_round(m: PermissionMode)
    requires
        m != PermissionMode::Bypass,
    ensures
        next_mode(next_mode(next_mode(m))) == m,
        next_mode(m) != PermissionMode::Bypass,
{
}

/// What the model said is not lost: the end of a turn keeps it as part of the past.
pub proof fn law_said_text_is_kept(s: UiStateView, stop_reason: StopReason, steps: u32)
    requires
        s.live_text.len() > 0,
    ensures
        ({
            let t = after_event(s, TurnEventView::TurnComplete { stop_reason, steps });
            &&& t.history == s.history.push(HistoryCellView::Assistant(s.live_text))
            &&& t.live_text.len() == 0
            &&& !t.running
        }),
{
}

} // verus!
