//! A session that clients drive over a connection: what it does with each request,
//! and what it tells them.
use vstd::prelude::*;
use vstd::string::*;

use crate::acp::NotOpened;
use crate::config::WireApi;
use crate::content::Content;
use crate::content::ContentView;
use crate::content::ReasoningEffort;
use crate::content::StopReason;
use crate::content::TokenUsage;
use crate::dup::Dup;
use crate::event::Event;
use crate::event::EventMsg;
use crate::event::EventMsgView;
use crate::event::EventView;
use crate::event::McpServerHealth;
use crate::event::McpServerHealthView;
use crate::event::McpToolInfo;
use crate::event::McpToolInfoView;
use crate::event::ModelInfo;
use crate::event::ModelInfoView;
use crate::event::SessionSummary;
use crate::event::SessionSummaryView;
use crate::event::events_view;
use crate::event::lemma_events_view;
use crate::exec::asked;
use crate::exec::user_input_event;
use crate::exec::user_message;
use crate::ids::CheckpointId;
use crate::ids::SessionId;
use crate::ids::TurnId;
use crate::log::LogEvent;
use crate::log::LogEventView;
use crate::log::LogLine;
use crate::log::LogLineView;
use crate::model::ModelMessage;
use crate::model::ModelMessageView;
use crate::model::ModelRequest;
use crate::model::ModelRequestView;
use crate::model::RequestMeta;
use crate::model::RequestMetaView;
use crate::model::SystemBlock;
use crate::model::ToolSpecView;
use crate::op::Op;
use crate::op::OpView;
use crate::op::ReviewDecision;
use crate::op::Submission;
use crate::op::SubmissionView;
use crate::op::UserInput;
use crate::op::UserInputView;
use crate::order::largest_first;
use crate::order::lists_all;
use crate::order::newest_first;
use crate::permission::PermissionRuleView;
use crate::permission::RuleScope;
use crate::permissions::EngineView;
use crate::permissions::PermissionEngine;
use crate::providers::calls::or_text;
use crate::providers::calls::text_or;
use crate::providers::registry::context_window;
use crate::providers::registry::window_of;
use crate::recorder::after;
use crate::recorder::capped;
use crate::recorder::log_of;
use crate::recorder::read_log;
use crate::replay::replay;
use crate::replay::replayed;
use crate::session::TurnEvent;
use crate::session::TurnEventView;
use crate::table::among_texts;
use crate::text::cat3;
use crate::text::cat;
use crate::text::cut;
use crate::text::decimal;
use crate::text::decimal_of;
use crate::text::join;
use crate::text::joined;
use crate::text::same;
use crate::text::split_once;
use crate::text::views;
use crate::tools::ToolRegistry;
use crate::wire::PROTOCOL_VERSION;

verus! {

// ---- events of a turn ----

/// What clients are told of an event of a turn. Some events they are not told of.
pub open spec fn told_of(ev: TurnEventView) -> Option<EventMsgView> {
    match ev {
        TurnEventView::TextDelta(text) => Some(EventMsgView::AgentMessageDelta { text }),
        TurnEventView::ThinkingDelta(text) => Some(EventMsgView::ReasoningDelta { text }),
        TurnEventView::ToolCallBegin { call_id, tool } => Some(
            EventMsgView::ToolCallBegin { call_id, tool, summary: Seq::empty() },
        ),
        TurnEventView::ToolCallEnd { .. } => None,
        TurnEventView::ToolExecBegin { .. } => None,
        TurnEventView::ToolExecEnd { call_id, ok, summary } => Some(
            EventMsgView::ToolCallEnd { call_id, ok, summary },
        ),
        TurnEventView::ModelMessageEnd { .. } => None,
        TurnEventView::Usage(u) => Some(
            EventMsgView::TokenCount { used: capped(u.input, u.output as nat), window: 0 },
        ),
        TurnEventView::TurnComplete { .. } => None,
        TurnEventView::ApprovalRequest { call_id, kind, detail } => Some(
            EventMsgView::ApprovalRequest { call_id, kind, detail },
        ),
        TurnEventView::ApprovalResolved { .. } => None,
        TurnEventView::BackgroundEvent(message) => Some(EventMsgView::BackgroundEvent { message }),
        TurnEventView::Error(message) => Some(EventMsgView::Error { message, retryable: false }),
    }
}

/// What clients are told of an event of a turn.
pub fn turn_event_to_msg(ev: &TurnEvent) -> (r: Option<EventMsg>)
    ensures
        r.deep_view() == told_of(ev.deep_view()),
{
    match ev {
        TurnEvent::TextDelta(t) => Some(EventMsg::AgentMessageDelta { text: t.clone() }),
        TurnEvent::ThinkingDelta(t) => Some(EventMsg::ReasoningDelta { text: t.clone() }),
        TurnEvent::ToolCallBegin { call_id, tool } => {
            let summary = String::new();
            assert(summary@ =~= Seq::<char>::empty());
            Some(
                EventMsg::ToolCallBegin { call_id: call_id.clone(), tool: tool.clone(), summary },
            )
        },
        TurnEvent::ToolCallEnd { .. } => None,
        TurnEvent::ToolExecBegin { .. } => None,
        TurnEvent::ToolExecEnd { call_id, ok, summary } => Some(
            EventMsg::ToolCallEnd {
                call_id: call_id.clone(),
                ok: *ok,
                summary: summary.clone(),
            },
        ),
        TurnEvent::ModelMessageEnd { .. } => None,
        TurnEvent::Usage(u) => {
            let used: u64 = if u.output <= u64::MAX - u.input {
                u.total()
            } else {
                u64::MAX
            };
            Some(EventMsg::TokenCount { used, window: 0 })
        },
        TurnEvent::TurnComplete { .. } => None,
        TurnEvent::ApprovalRequest { call_id, kind, detail } => Some(
            EventMsg::ApprovalRequest {
                call_id: call_id.clone(),
                kind: *kind,
                detail: detail.clone(),
            },
        ),
        TurnEvent::ApprovalResolved { .. } => None,
        TurnEvent::BackgroundEvent(m) => Some(EventMsg::BackgroundEvent { message: m.clone() }),
        TurnEvent::Error(m) => Some(EventMsg::Error { message: m.clone(), retryable: false }),
    }
}

// ---- what logs tell ----

/// The texts of blocks.
pub open spec fn texts_of(s: Seq<ContentView>) -> Seq<Seq<char>>
    decreases s.len(),
{
    if s.len() == 0 {
        Seq::empty()
    } else {
        match s.last() {
            ContentView::Text { text } => texts_of(s.drop_last()).push(text),
            _ => texts_of(s.drop_last()),
        }
    }
}

/// The texts of blocks, with spaces between them.
pub fn joined_texts(v: &Vec<Content>) -> (r: String)
    ensures
        r@ == joined(texts_of(v.deep_view()), " "@),
{
    let ghost all = v.deep_view();
    let mut out: Vec<String> = Vec::new();
    let mut i: usize = 0;
    assert(views(out@) =~= texts_of(all.take(0)));
    while i < v.len()
        invariant
            i <= v@.len(),
            all == v.deep_view(),
            views(out@) == texts_of(all.take(i as int)),
        decreases v@.len() - i,
    {
        assert(all.take(i + 1).drop_last() =~= all.take(i as int));
        assert(all.take(i + 1).last() == v@[i as int].deep_view());
        let ghost before = views(out@);
        match &v[i] {
            Content::Text { text } => {
                out.push(text.clone());
                assert(views(out@) =~= before.push(text@));
            },
            _ => {},
        }
        i = i + 1;
    }
    assert(all.take(all.len() as int) =~= all);
    join(&out, " ")
}

/// The event that a line of a log is told as: the text of a message of the model.
pub open spec fn history_event(l: LogLineView, id: Seq<char>, after_seq: u64) -> Option<EventView> {
    if after_seq > 0 && l.seq <= after_seq {
        None
    } else {
        match l.event {
            LogEventView::AssistantMessage { content, .. } => {
                let text = joined(texts_of(content), " "@);
                if text.len() == 0 {
                    None
                } else {
                    Some(
                        EventView {
                            id,
                            seq: l.seq,
                            turn: None,
                            msg: EventMsgView::AgentMessage { text },
                        },
                    )
                }
            },
            _ => None,
        }
    }
}

/// The events that lines of a log are told as.
pub open spec fn history_of(s: Seq<LogLineView>, id: Seq<char>, after_seq: u64) -> Seq<EventView>
    decreases s.len(),
{
    if s.len() == 0 {
        Seq::empty()
    } else {
        match history_event(s.last(), id, after_seq) {
            Some(e) => history_of(s.drop_last(), id, after_seq).push(e),
            None => history_of(s.drop_last(), id, after_seq),
        }
    }
}

/// The first of a list, as many as a limit says; all where it is zero.
pub open spec fn limited(s: Seq<EventView>, limit: u32) -> Seq<EventView> {
    if limit > 0 && s.len() > limit {
        s.take(limit as int)
    } else {
        s
    }
}

proof fn lemma_history_grows(s: Seq<LogLineView>, n: int, id: Seq<char>, after_seq: u64)
    requires
        0 <= n <= s.len(),
    ensures
        history_of(s.take(n), id, after_seq).is_prefix_of(history_of(s, id, after_seq)),
    decreases s.len() - n,
{
    if n < s.len() {
        assert(s.take(n + 1).drop_last() =~= s.take(n));
        lemma_history_grows(s, n + 1, id, after_seq);
        let a = history_of(s.take(n), id, after_seq);
        let b = history_of(s.take(n + 1), id, after_seq);
        let c = history_of(s, id, after_seq);
        assert(a.is_prefix_of(b));
        assert(c.take(a.len() as int) =~= a) by {
            assert(b =~= c.take(b.len() as int));
        }
    } else {
        assert(s.take(n) =~= s);
    }
}

fn read_history_event(l: &LogLine, id: &str, after_seq: u64) -> (r: Option<Event>)
    ensures
        r.deep_view() == history_event(l.deep_view(), id@, after_seq),
{
    if after_seq > 0 && l.seq <= after_seq {
        return None;
    }
    match &l.event {
        LogEvent::AssistantMessage { content, .. } => {
            let text = joined_texts(content);
            if text.as_str().unicode_len() == 0 {
                None
            } else {
                Some(
                    Event {
                        id: id.to_owned(),
                        seq: l.seq,
                        turn: None,
                        msg: EventMsg::AgentMessage { text },
                    },
                )
            }
        },
        _ => None,
    }
}

/// What the model said, as the log has it: behind a number, and no more than a limit.
pub fn replay_history_events(text: &str, id: &str, after_seq: u64, limit: u32) -> (r: Vec<Event>)
    ensures
        r.deep_view() == limited(history_of(log_of(text@), id@, after_seq), limit),
{
    let all = read_log(text);
    let ghost ls = all.deep_view();
    let ghost whole = history_of(ls, id@, after_seq);
    let mut out: Vec<Event> = Vec::new();
    let mut i: usize = 0;
    assert(out.deep_view() =~= history_of(ls.take(0), id@, after_seq));
    while i < all.len()
        invariant
            i <= all@.len(),
            ls == all.deep_view(),
            ls == log_of(text@),
            whole == history_of(ls, id@, after_seq),
            out.deep_view() == history_of(ls.take(i as int), id@, after_seq),
            limit > 0 ==> out@.len() < limit,
        decreases all@.len() - i,
    {
        assert(ls.take(i + 1).drop_last() =~= ls.take(i as int));
        assert(ls.take(i + 1).last() == all@[i as int].deep_view());
        let ghost before = out.deep_view();
        match read_history_event(&all[i], id, after_seq) {
            Some(e) => {
                let ghost ev = e.deep_view();
                out.push(e);
                assert(out.deep_view() =~= before.push(ev));
            },
            None => {},
        }
        if limit > 0 && out.len() >= limit as usize {
            proof {
                lemma_history_grows(ls, i + 1, id@, after_seq);
                assert(out.deep_view() =~= limited(whole, limit)) by {
                    assert(out.deep_view() =~= whole.take(out@.len() as int));
                    if whole.len() == limit {
                        assert(whole.take(limit as int) =~= whole);
                    }
                }
            }
            return out;
        }
        i = i + 1;
    }
    assert(ls.take(ls.len() as int) =~= ls);
    assert(out.deep_view().len() == out@.len());
    out
}

/// Where a checkpoint stands in a log: its commit and the number of its line.
pub open spec fn checkpoint_in(s: Seq<LogLineView>, id: Seq<char>) -> Option<(Seq<char>, u64)>
    decreases s.len(),
{
    if s.len() == 0 {
        None
    } else {
        match s[0].event {
            LogEventView::Checkpoint { checkpoint_id, shadow_commit } => if checkpoint_id == id {
                Some((shadow_commit, s[0].seq))
            } else {
                checkpoint_in(s.drop_first(), id)
            },
            _ => checkpoint_in(s.drop_first(), id),
        }
    }
}

/// Where a checkpoint stands in a log.
pub fn find_checkpoint_commit(text: &str, id: &CheckpointId) -> (r: Option<(String, u64)>)
    ensures
        match r {
            Some((c, n)) => checkpoint_in(log_of(text@), id.deep_view()) == Some((c@, n)),
            None => checkpoint_in(log_of(text@), id.deep_view()) is None,
        },
{
    let all = read_log(text);
    let ghost ls = all.deep_view();
    let mut i: usize = 0;
    assert(ls.skip(0) =~= ls);
    while i < all.len()
        invariant
            i <= all@.len(),
            ls == all.deep_view(),
            ls == log_of(text@),
            checkpoint_in(ls, id.deep_view()) == checkpoint_in(ls.skip(i as int), id.deep_view()),
        decreases all@.len() - i,
    {
        assert(ls.skip(i as int)[0] == all@[i as int].deep_view());
        assert(ls.skip(i as int).drop_first() =~= ls.skip(i + 1));
        match &all[i].event {
            LogEvent::Checkpoint { checkpoint_id, shadow_commit } => {
                if same(checkpoint_id.as_str(), id.as_str()) {
                    return Some((shadow_commit.clone(), all[i].seq));
                }
            },
            _ => {},
        }
        i = i + 1;
    }
    None
}

/// The model of `StoredLog`.
pub struct StoredLogView {
    pub text: Seq<char>,
    pub updated_at_ms: u64,
    pub size_bytes: u64,
}

/// The log of a session as it lies on disk.
pub struct StoredLog {
    pub text: String,
    pub updated_at_ms: u64,
    pub size_bytes: u64,
}

impl DeepView for StoredLog {
    type V = StoredLogView;

    open spec fn deep_view(&self) -> StoredLogView {
        StoredLogView {
            text: self.text@,
            updated_at_ms: self.updated_at_ms,
            size_bytes: self.size_bytes,
        }
    }
}

/// What a log says of its session, where it can be replayed.
pub open spec fn summary_in(f: StoredLogView) -> Option<SessionSummaryView> {
    match replayed(f.text) {
        Ok(s) => Some(
            SessionSummaryView {
                id: s.id,
                parent: s.parent,
                title: s.title,
                cwd: s.cwd,
                updated_at_ms: f.updated_at_ms,
                size_bytes: f.size_bytes,
            },
        ),
        Err(_) => None,
    }
}

/// What logs say of their sessions.
pub open spec fn summaries_in(s: Seq<StoredLogView>) -> Seq<SessionSummaryView>
    decreases s.len(),
{
    if s.len() == 0 {
        Seq::empty()
    } else {
        match summary_in(s.last()) {
            Some(x) => summaries_in(s.drop_last()).push(x),
            None => summaries_in(s.drop_last()),
        }
    }
}

/// When sessions were last written to.
pub open spec fn ages(s: Seq<SessionSummaryView>) -> Seq<u64> {
    Seq::new(s.len(), |i: int| s[i].updated_at_ms)
}

/// Whether `r` is `s` with the newest first, and those of the same age in the order
/// in which they came.
pub open spec fn newest_come_first(r: Seq<SessionSummaryView>, s: Seq<SessionSummaryView>) -> bool {
    exists|order: Seq<usize>| #[trigger]
        largest_first(order, ages(s)) && r
            == Seq::new(s.len(), |i: int| s[order[i] as int])
}

/// The sessions of a project, the newest first.
pub fn list_sessions(files: &Vec<StoredLog>) -> (r: Vec<SessionSummary>)
    ensures
        newest_come_first(r.deep_view(), summaries_in(files.deep_view())),
{
    let ghost all = files.deep_view();
    let mut found: Vec<SessionSummary> = Vec::new();
    let mut keys: Vec<u64> = Vec::new();
    let mut i: usize = 0;
    assert(found.deep_view() =~= summaries_in(all.take(0)));
    while i < files.len()
        invariant
            i <= files@.len(),
            all == files.deep_view(),
            found.deep_view() == summaries_in(all.take(i as int)),
            keys@.len() == found@.len(),
            forall|k: int| 0 <= k < keys@.len() ==> #[trigger] keys@[k] == found@[k].updated_at_ms,
        decreases files@.len() - i,
    {
        assert(all.take(i + 1).drop_last() =~= all.take(i as int));
        assert(all.take(i + 1).last() == files@[i as int].deep_view());
        let ghost before = found.deep_view();
        match replay(files[i].text.as_str()) {
            Ok(s) => {
                let x = SessionSummary {
                    id: s.id,
                    parent: s.parent,
                    title: s.title,
                    cwd: s.cwd,
                    updated_at_ms: files[i].updated_at_ms,
                    size_bytes: files[i].size_bytes,
                };
                let ghost xv = x.deep_view();
                found.push(x);
                keys.push(files[i].updated_at_ms);
                assert(found.deep_view() =~= before.push(xv));
            },
            Err(_) => {},
        }
        i = i + 1;
    }
    assert(all.take(all.len() as int) =~= all);
    let ghost s = found.deep_view();
    assert(keys@ =~= ages(s));
    let order = newest_first(&keys);
    let mut out: Vec<SessionSummary> = Vec::new();
    let mut j: usize = 0;
    while j < order.len()
        invariant
            j <= order@.len(),
            s == found.deep_view(),
            order@.len() == found@.len(),
            lists_all(order@, found@.len()),
            out@.len() == j,
            forall|k: int|
                0 <= k < j ==> (#[trigger] out@[k]).deep_view() == s[order@[k] as int],
        decreases order@.len() - j,
    {
        out.push(found[order[j]].dup());
        j = j + 1;
    }
    assert(out.deep_view() =~= Seq::new(s.len(), |i: int| s[order@[i] as int]));
    out
}

// ---- tools of tool servers ----

/// The server and the tool in a name.
pub open spec fn served_tool(name: Seq<char>) -> Option<(Seq<char>, Seq<char>)> {
    match cut(name, "__"@) {
        Some((a, rest)) => if a == "mcp"@ {
            cut(rest, "__"@)
        } else {
            None
        },
        None => None,
    }
}

/// The tools of tool servers among all tools.
pub open spec fn served_tools(s: Seq<ToolSpecView>) -> Seq<McpToolInfoView>
    decreases s.len(),
{
    if s.len() == 0 {
        Seq::empty()
    } else {
        match served_tool(s.last().name) {
            Some((server, name)) => served_tools(s.drop_last()).push(
                McpToolInfoView { server, name, description: s.last().description },
            ),
            None => served_tools(s.drop_last()),
        }
    }
}

/// The tools of tool servers among all tools.
pub fn list_mcp_tools(tools: &ToolRegistry) -> (r: Vec<McpToolInfo>)
    ensures
        r.deep_view() == served_tools(tools.deep_view()),
{
    let v = tools.specs();
    let ghost all = tools.deep_view();
    let mut out: Vec<McpToolInfo> = Vec::new();
    let mut i: usize = 0;
    assert(out.deep_view() =~= served_tools(all.take(0)));
    while i < v.len()
        invariant
            i <= v@.len(),
            all == v.deep_view(),
            out.deep_view() == served_tools(all.take(i as int)),
        decreases v@.len() - i,
    {
        assert(all.take(i + 1).drop_last() =~= all.take(i as int));
        assert(all.take(i + 1).last() == v@[i as int].deep_view());
        let ghost before = out.deep_view();
        match split_once(v[i].name.as_str(), "__") {
            Some((a, rest)) => {
                if same(a.as_str(), "mcp") {
                    match split_once(rest.as_str(), "__") {
                        Some((server, name)) => {
                            let t = McpToolInfo {
                                server,
                                name,
                                description: v[i].description.clone(),
                            };
                            let ghost tv = t.deep_view();
                            out.push(t);
                            assert(out.deep_view() =~= before.push(tv));
                        },
                        None => {},
                    }
                }
            },
            None => {},
        }
        i = i + 1;
    }
    assert(all.take(all.len() as int) =~= all);
    out
}

// ---- the session ----

/// What is to be done for a request.
pub enum WireAction {
    /// Tell all clients.
    Send(Event),
    /// Start a turn; it is the running one.
    StartTurn(Submission),
    /// Interrupt the running turn.
    Cancel,
    /// Hand a verdict to the turn that waits for it.
    Answer { call_id: String, decision: ReviewDecision },
    /// Look for sessions, and tell of them with `sessions_listed`.
    ListSessions { id: String },
    /// Read the current log, and tell of it with `history_read`.
    ReadHistory { id: String, after_seq: u64, limit: u32 },
    /// Make the conversation short, and tell of it with `compacted`.
    Compact { id: String, model: String },
    /// Take files and conversation back, and tell of it with `rolled_back`.
    Rollback { id: String, checkpoint_id: CheckpointId },
    /// Go on with another session, and tell of it with `resumed`.
    Resume { id: String, session_id: SessionId, fork: bool },
    /// End.
    Stop,
}

/// The model of `WireAction`.
pub enum WireActionView {
    Send(EventView),
    StartTurn(SubmissionView),
    Cancel,
    Answer { call_id: Seq<char>, decision: ReviewDecision },
    ListSessions { id: Seq<char> },
    ReadHistory { id: Seq<char>, after_seq: u64, limit: u32 },
    Compact { id: Seq<char>, model: Seq<char> },
    Rollback { id: Seq<char>, checkpoint_id: Seq<char> },
    Resume { id: Seq<char>, session_id: Seq<char>, fork: bool },
    Stop,
}

impl DeepView for WireAction {
    type V = WireActionView;

    open spec fn deep_view(&self) -> WireActionView {
        match *self {
            WireAction::Send(e) => WireActionView::Send(e.deep_view()),
            WireAction::StartTurn(s) => WireActionView::StartTurn(s.deep_view()),
            WireAction::Cancel => WireActionView::Cancel,
            WireAction::Answer { call_id, decision } => WireActionView::Answer {
                call_id: call_id@,
                decision,
            },
            WireAction::ListSessions { id } => WireActionView::ListSessions { id: id@ },
            WireAction::ReadHistory { id, after_seq, limit } => WireActionView::ReadHistory {
                id: id@,
                after_seq,
                limit,
            },
            WireAction::Compact { id, model } => WireActionView::Compact { id: id@, model: model@ },
            WireAction::Rollback { id, checkpoint_id } => WireActionView::Rollback {
                id: id@,
                checkpoint_id: checkpoint_id.deep_view(),
            },
            WireAction::Resume { id, session_id, fork } => WireActionView::Resume {
                id: id@,
                session_id: session_id.deep_view(),
                fork,
            },
            WireAction::Stop => WireActionView::Stop,
        }
    }
}

/// The model of `WireSession`.
#[verifier::ext_equal]
pub struct WireSessionView {
    pub cwd: Seq<char>,
    pub model: Seq<char>,
    pub small_model: Option<Seq<char>>,
    pub provider: Seq<char>,
    pub wire_api: WireApi,
    pub session_id: Seq<char>,
    pub engine: EngineView,
    pub tools: Seq<ToolSpecView>,
    pub messages: Seq<ModelMessageView>,
    pub seq: u64,
    pub running: bool,
    pub queue: Seq<SubmissionView>,
    pub pending: Seq<Seq<char>>,
}

/// A session that clients drive.
pub struct WireSession {
    pub cwd: String,
    pub model: String,
    /// The model that makes the conversation short, where it is another.
    pub small_model: Option<String>,
    pub provider: String,
    pub wire_api: WireApi,
    pub session_id: SessionId,
    pub engine: PermissionEngine,
    pub tools: ToolRegistry,
    pub messages: Vec<ModelMessage>,
    /// The number of the next event.
    pub seq: u64,
    /// Whether a turn runs.
    pub running: bool,
    /// The turns that wait for it to end.
    pub queue: Vec<Submission>,
    /// The calls that wait for a verdict.
    pub pending: Vec<String>,
}

impl DeepView for WireSession {
    type V = WireSessionView;

    open spec fn deep_view(&self) -> WireSessionView {
        WireSessionView {
            cwd: self.cwd@,
            model: self.model@,
            small_model: self.small_model.deep_view(),
            provider: self.provider@,
            wire_api: self.wire_api,
            session_id: self.session_id.deep_view(),
            engine: self.engine.deep_view(),
            tools: self.tools.deep_view(),
            messages: self.messages.deep_view(),
            seq: self.seq,
            running: self.running,
            queue: self.queue.deep_view(),
            pending: views(self.pending@),
        }
    }
}

/// A session after an event.
pub open spec fn counted(s: WireSessionView) -> WireSessionView {
    WireSessionView { seq: after(s.seq), ..s }
}

/// The next event.
pub open spec fn next_event(
    s: WireSessionView,
    id: Seq<char>,
    turn: Option<Seq<char>>,
    msg: EventMsgView,
) -> EventView {
    EventView { id, seq: s.seq, turn, msg }
}

/// A session that tells its clients one thing that belongs to no turn.
pub open spec fn tell(s: WireSessionView, id: Seq<char>, msg: EventMsgView) -> (
    WireSessionView,
    Seq<WireActionView>,
) {
    (counted(s), seq![WireActionView::Send(next_event(s, id, None, msg))])
}

/// What a client is told first.
pub open spec fn configured(s: WireSessionView) -> EventMsgView {
    EventMsgView::SessionConfigured {
        protocol_version: PROTOCOL_VERSION,
        session_id: s.session_id,
        model: s.model,
        permission_mode: s.engine.mode,
        cwd: s.cwd,
    }
}

/// The session after a request, and what is to be done for it.
pub open spec fn dispatched(s: WireSessionView, sub: SubmissionView) -> (
    WireSessionView,
    Seq<WireActionView>,
) {
    let id = sub.id;
    match sub.op {
        OpView::Hello { .. } => tell(s, id, configured(s)),
        OpView::UserTurn { .. } => if s.running {
            (WireSessionView { queue: s.queue.push(sub), ..s }, Seq::empty())
        } else {
            (WireSessionView { running: true, ..s }, seq![WireActionView::StartTurn(sub)])
        },
        OpView::Interrupt { abandon_queued } => (
            WireSessionView {
                queue: if abandon_queued {
                    Seq::empty()
                } else {
                    s.queue
                },
                ..s
            },
            if s.running {
                seq![WireActionView::Cancel]
            } else {
                Seq::empty()
            },
        ),
        OpView::ApprovalResponse { call_id, decision } => if s.pending.contains(call_id) {
            (
                WireSessionView { pending: without(s.pending, call_id), ..s },
                seq![WireActionView::Answer { call_id, decision }],
            )
        } else {
            (s, Seq::empty())
        },
        OpView::SetPermissionMode { mode } => tell(
            WireSessionView { engine: EngineView { mode, ..s.engine }, ..s },
            id,
            EventMsgView::PermissionModeChanged { mode },
        ),
        OpView::ListSessions => (s, seq![WireActionView::ListSessions { id }]),
        OpView::GetHistory { after_seq, limit } => (
            s,
            seq![WireActionView::ReadHistory { id, after_seq, limit }],
        ),
        OpView::ResumeEvents { after_seq } => (
            s,
            seq![WireActionView::ReadHistory { id, after_seq, limit: 0 }],
        ),
        OpView::Compact { .. } => if s.running {
            tell(
                s,
                id,
                EventMsgView::Error { message: "turn 进行中,无法 compact"@, retryable: true },
            )
        } else {
            (
                s,
                seq![WireActionView::Compact { id, model: or_text(s.small_model, s.model) }],
            )
        },
        OpView::ListMcpTools => tell(
            s,
            id,
            EventMsgView::SessionQueryMcpTools {
                tools: served_tools(s.tools),
                health: Seq::empty(),
            },
        ),
        OpView::ListModels => tell(
            s,
            id,
            EventMsgView::SessionQueryModels {
                models: seq![
                    ModelInfoView {
                        id: s.model,
                        provider: s.provider,
                        display: s.model,
                        context_window: window_of(s.wire_api, s.model),
                        supports_thinking: false,
                        supports_images: false,
                    },
                ],
            },
        ),
        OpView::SetModel { model } => tell(
            WireSessionView { model, ..s },
            id,
            EventMsgView::BackgroundEvent { message: "model → "@ + model },
        ),
        OpView::AddPermissionRule { rule, .. } => tell(
            WireSessionView {
                engine: EngineView { rules: s.engine.rules.push(rule), ..s.engine },
                ..s
            },
            id,
            EventMsgView::BackgroundEvent { message: "permission rule added (session scope)"@ },
        ),
        OpView::CheckpointRollback { checkpoint_id } => (
            s,
            seq![WireActionView::Rollback { id, checkpoint_id }],
        ),
        OpView::ResumeSession { session_id, fork } => (
            s,
            seq![WireActionView::Resume { id, session_id, fork }],
        ),
        OpView::Shutdown => (s, seq![WireActionView::Stop]),
    }
}

/// The session after the running turn has ended: the first of those that wait is
/// the running one.
pub open spec fn turn_ended(s: WireSessionView) -> (WireSessionView, Seq<WireActionView>) {
    if s.running && s.queue.len() > 0 {
        (
            WireSessionView { queue: s.queue.drop_first(), ..s },
            seq![WireActionView::StartTurn(s.queue[0])],
        )
    } else {
        (WireSessionView { running: false, ..s }, Seq::empty())
    }
}

/// A list without an item.
pub open spec fn without(s: Seq<Seq<char>>, x: Seq<char>) -> Seq<Seq<char>>
    decreases s.len(),
{
    if s.len() == 0 {
        Seq::empty()
    } else if s.last() == x {
        without(s.drop_last(), x)
    } else {
        without(s.drop_last(), x).push(s.last())
    }
}

fn leave_out(v: &Vec<String>, x: &str) -> (r: Vec<String>)
    ensures
        views(r@) == without(views(v@), x@),
{
    let ghost all = views(v@);
    let mut out: Vec<String> = Vec::new();
    let mut i: usize = 0;
    assert(views(out@) =~= without(all.take(0), x@));
    while i < v.len()
        invariant
            i <= v@.len(),
            all == views(v@),
            views(out@) == without(all.take(i as int), x@),
        decreases v@.len() - i,
    {
        assert(all.take(i + 1).drop_last() =~= all.take(i as int));
        assert(all.take(i + 1).last() == v@[i as int]@);
        let ghost before = views(out@);
        if !same(v[i].as_str(), x) {
            let t = v[i].clone();
            out.push(t);
            assert(views(out@) =~= before.push(t@));
        }
        i = i + 1;
    }
    assert(all.take(all.len() as int) =~= all);
    out
}

/// How a turn ended: what it used and why it stopped, or what went wrong.
pub type TurnEnd = Result<(TokenUsage, StopReason), String>;

/// What clients are told of a turn that ended.
pub open spec fn end_of_turn(turn_id: Seq<char>, end: TurnEnd) -> EventMsgView {
    match end {
        Ok((usage, stop_reason)) => EventMsgView::TurnComplete {
            turn_id,
            usage: usage.deep_view(),
            stop_reason,
        },
        Err(e) => EventMsgView::Error { message: e@, retryable: false },
    }
}

/// The texts that the user entered.
pub open spec fn entered(s: Seq<UserInputView>) -> Seq<Seq<char>>
    decreases s.len(),
{
    if s.len() == 0 {
        Seq::empty()
    } else {
        match s.last() {
            UserInputView::Text { text } => entered(s.drop_last()).push(text),
            _ => entered(s.drop_last()),
        }
    }
}

/// The texts that the user entered, with spaces between them.
pub fn entered_text(v: &Vec<UserInput>) -> (r: String)
    ensures
        r@ == joined(entered(v.deep_view()), " "@),
{
    let ghost all = v.deep_view();
    let mut out: Vec<String> = Vec::new();
    let mut i: usize = 0;
    assert(views(out@) =~= entered(all.take(0)));
    while i < v.len()
        invariant
            i <= v@.len(),
            all == v.deep_view(),
            views(out@) == entered(all.take(i as int)),
        decreases v@.len() - i,
    {
        assert(all.take(i + 1).drop_last() =~= all.take(i as int));
        assert(all.take(i + 1).last() == v@[i as int].deep_view());
        let ghost before = views(out@);
        match &v[i] {
            UserInput::Text { text } => {
                out.push(text.clone());
                assert(views(out@) =~= before.push(text@));
            },
            _ => {},
        }
        i = i + 1;
    }
    assert(all.take(all.len() as int) =~= all);
    join(&out, " ")
}

/// What a turn starts with.
pub struct TurnStart {
    pub id: String,
    pub turn_id: TurnId,
    /// What is recorded of the user's message.
    pub record: LogEvent,
    /// The messages with the user's.
    pub messages: Vec<ModelMessage>,
    /// The request, without the messages.
    pub request: ModelRequest,
}

/// How going on with another session went.
pub enum Resumed {
    /// The home directory is not known.
    NoHome,
    /// Its log could not be replayed.
    NotReplayed(String),
    /// No log could be made for the fork.
    NotForked(String),
    /// Its log could not be opened.
    NotOpened(String),
    Done { session_id: SessionId, messages: Vec<ModelMessage> },
}

/// The session after it went on with another, and what clients are told.
pub open spec fn after_resume(s: WireSessionView, r: Resumed) -> (WireSessionView, EventMsgView) {
    let wrong = |m: Seq<char>| EventMsgView::Error { message: m, retryable: false };
    match r {
        Resumed::NoHome => (s, wrong("HOME 未设置,无法定位会话日志"@)),
        Resumed::NotReplayed(e) => (s, wrong("重放会话失败: "@ + e@)),
        Resumed::NotForked(e) => (s, wrong("创建 fork 会话失败: "@ + e@)),
        Resumed::NotOpened(e) => (s, wrong("打开会话失败: "@ + e@)),
        Resumed::Done { session_id, messages } => {
            let t = WireSessionView {
                session_id: session_id.deep_view(),
                messages: messages.deep_view(),
                ..s
            };
            (t, configured(t))
        },
    }
}

/// How going back to a checkpoint went.
pub enum RolledBack {
    NotFound,
    NoRepository,
    Failed(String),
    /// The files are back; the messages are those of the log that was cut, where it
    /// could be replayed.
    Done(Option<Vec<ModelMessage>>),
}

/// The session after it went back to a checkpoint, and what clients are told.
pub open spec fn after_rollback(s: WireSessionView, checkpoint_id: Seq<char>, r: RolledBack) -> (
    WireSessionView,
    EventMsgView,
) {
    let wrong = |m: Seq<char>| EventMsgView::Error { message: m, retryable: false };
    match r {
        RolledBack::NotFound => (s, wrong("checkpoint "@ + checkpoint_id + " 未找到"@)),
        RolledBack::NoRepository => (s, wrong("shadow repo 不可用"@)),
        RolledBack::Failed(e) => (s, wrong("rollback 失败: "@ + e@)),
        RolledBack::Done(m) => (
            match m {
                Some(v) => WireSessionView { messages: v.deep_view(), ..s },
                None => s,
            },
            EventMsgView::BackgroundEvent {
                message: "rolled back files + conversation to checkpoint "@ + checkpoint_id,
            },
        ),
    }
}

/// The session after its conversation was made short, and what clients are told.
pub open spec fn after_compaction(s: WireSessionView, r: Result<Vec<ModelMessage>, String>) -> (
    WireSessionView,
    EventMsgView,
) {
    match r {
        Ok(v) => (
            WireSessionView { messages: v.deep_view(), ..s },
            EventMsgView::BackgroundEvent {
                message: "compacted → "@ + decimal_of(v@.len()) + " messages"@,
            },
        ),
        Err(e) => (
            s,
            EventMsgView::Error { message: "compact 失败: "@ + e@, retryable: false },
        ),
    }
}

impl WireSession {
    /// What holds of a session at all times: only turns wait, they wait for a running
    /// one, and no call waits twice.
    pub open spec fn inv(&self) -> bool {
        &&& self.engine.inv()
        &&& self.tools.inv()
        &&& waits_rightly(self.deep_view())
    }

    /// A new session.
    pub fn new(
        cwd: &str,
        model: &str,
        small_model: Option<String>,
        provider: &str,
        wire_api: WireApi,
        session_id: SessionId,
        engine: PermissionEngine,
        tools: ToolRegistry,
    ) -> (r: Self)
        requires
            engine.inv(),
            tools.inv(),
        ensures
            r.inv(),
            r.deep_view() == (WireSessionView {
                cwd: cwd@,
                model: model@,
                small_model: small_model.deep_view(),
                provider: provider@,
                wire_api,
                session_id: session_id.deep_view(),
                engine: engine.deep_view(),
                tools: tools.deep_view(),
                messages: Seq::empty(),
                seq: 0,
                running: false,
                queue: Seq::empty(),
                pending: Seq::empty(),
            }),
    {
        let r = WireSession {
            cwd: cwd.to_owned(),
            model: model.to_owned(),
            small_model,
            provider: provider.to_owned(),
            wire_api,
            session_id,
            engine,
            tools,
            messages: Vec::new(),
            seq: 0,
            running: false,
            queue: Vec::new(),
            pending: Vec::new(),
        };
        assert(r.messages.deep_view() =~= Seq::<ModelMessageView>::empty());
        assert(r.queue.deep_view() =~= Seq::<SubmissionView>::empty());
        assert(views(r.pending@) =~= Seq::<Seq<char>>::empty());
        r
    }

    /// Number an event.
    pub fn emit(&mut self, id: &str, turn: Option<TurnId>, msg: EventMsg) -> (r: Event)
        requires
            old(self).inv(),
        ensures
            final(self).inv(),
            final(self).deep_view() == counted(old(self).deep_view()),
            r.deep_view() == next_event(
                old(self).deep_view(),
                id@,
                turn.deep_view(),
                msg.deep_view(),
            ),
    {
        let e = Event { id: id.to_owned(), seq: self.seq, turn, msg };
        self.seq = if self.seq == u64::MAX {
            0
        } else {
            self.seq + 1
        };
        e
    }

    fn send(&mut self, id: &str, msg: EventMsg) -> (r: Vec<WireAction>)
        requires
            old(self).inv(),
        ensures
            final(self).inv(),
            (final(self).deep_view(), r.deep_view()) == tell(
                old(self).deep_view(),
                id@,
                msg.deep_view(),
            ),
    {
        let ghost m = msg.deep_view();
        let e = self.emit(id, None, msg);
        let mut out: Vec<WireAction> = Vec::new();
        out.push(WireAction::Send(e));
        assert(out.deep_view() =~= seq![
            WireActionView::Send(next_event(old(self).deep_view(), id@, None, m)),
        ]);
        out
    }

    fn what_is_configured(&self) -> (r: EventMsg)
        ensures
            r.deep_view() == configured(self.deep_view()),
    {
        EventMsg::SessionConfigured {
            protocol_version: PROTOCOL_VERSION,
            session_id: self.session_id.clone(),
            model: self.model.clone(),
            permission_mode: self.engine.mode(),
            cwd: self.cwd.clone(),
        }
    }

    /// Take up a request.
    #[verifier::rlimit(40)]
    pub fn dispatch(&mut self, sub: Submission) -> (r: Vec<WireAction>)
        requires
            old(self).inv(),
        ensures
            final(self).inv(),
            (final(self).deep_view(), r.deep_view()) == dispatched(
                old(self).deep_view(),
                sub.deep_view(),
            ),
    {
        let ghost s = self.deep_view();
        let ghost subv = sub.deep_view();
        let id = sub.id.clone();
        let one = match &sub.op {
            Op::Hello { .. } => {
                let m = self.what_is_configured();
                return self.send(id.as_str(), m);
            },
            Op::UserTurn { .. } => {
                if self.running {
                    self.queue.push(sub);
                    assert(self.queue.deep_view() =~= s.queue.push(subv));
                    let none: Vec<WireAction> = Vec::new();
                    assert(none.deep_view() =~= Seq::<WireActionView>::empty());
                    assert(self.deep_view() =~= WireSessionView { queue: s.queue.push(subv), ..s });
                    return none;
                }
                self.running = true;
                WireAction::StartTurn(sub)
            },
            Op::Interrupt { abandon_queued } => {
                if *abandon_queued {
                    self.queue = Vec::new();
                    assert(self.queue.deep_view() =~= Seq::<SubmissionView>::empty());
                }
                if !self.running {
                    let none: Vec<WireAction> = Vec::new();
                    assert(none.deep_view() =~= Seq::<WireActionView>::empty());
                    return none;
                }
                WireAction::Cancel
            },
            Op::ApprovalResponse { call_id, decision } => {
                if !among_texts(&self.pending, call_id.as_str()) {
                    let none: Vec<WireAction> = Vec::new();
                    assert(none.deep_view() =~= Seq::<WireActionView>::empty());
                    return none;
                }
                self.pending = leave_out(&self.pending, call_id.as_str());
                proof {
                    lemma_without(s.pending, call_id@);
                }
                WireAction::Answer { call_id: call_id.clone(), decision: *decision }
            },
            Op::SetPermissionMode { mode } => {
                self.engine.set_mode(*mode);
                let m = EventMsg::PermissionModeChanged { mode: *mode };
                return self.send(id.as_str(), m);
            },
            Op::ListSessions => WireAction::ListSessions { id },
            Op::GetHistory { after_seq, limit } => WireAction::ReadHistory {
                id,
                after_seq: *after_seq,
                limit: *limit,
            },
            Op::ResumeEvents { after_seq } => WireAction::ReadHistory {
                id,
                after_seq: *after_seq,
                limit: 0,
            },
            Op::Compact { .. } => {
                if self.running {
                    let m = EventMsg::Error {
                        message: "turn 进行中,无法 compact".to_owned(),
                        retryable: true,
                    };
                    return self.send(id.as_str(), m);
                }
                let model = text_or(self.small_model.dup(), self.model.as_str());
                WireAction::Compact { id, model }
            },
            Op::ListMcpTools => {
                let tools = list_mcp_tools(&self.tools);
                let health: Vec<McpServerHealth> = Vec::new();
                assert(health.deep_view() =~= Seq::<McpServerHealthView>::empty());
                let m = EventMsg::SessionQueryMcpTools { tools, health };
                return self.send(id.as_str(), m);
            },
            Op::ListModels => {
                let x = ModelInfo {
                    id: self.model.clone(),
                    provider: self.provider.clone(),
                    display: self.model.clone(),
                    context_window: context_window(self.wire_api, self.model.as_str()),
                    supports_thinking: false,
                    supports_images: false,
                };
                let mut models: Vec<ModelInfo> = Vec::new();
                models.push(x);
                assert(models.deep_view() =~= seq![x.deep_view()]);
                let m = EventMsg::SessionQueryModels { models };
                return self.send(id.as_str(), m);
            },
            Op::SetModel { model } => {
                self.model = model.clone();
                let m = EventMsg::BackgroundEvent { message: cat("model → ", model.as_str()) };
                return self.send(id.as_str(), m);
            },
            Op::AddPermissionRule { rule, .. } => {
                self.engine.add_rule(rule.dup());
                let m = EventMsg::BackgroundEvent {
                    message: "permission rule added (session scope)".to_owned(),
                };
                return self.send(id.as_str(), m);
            },
            Op::CheckpointRollback { checkpoint_id } => WireAction::Rollback {
                id,
                checkpoint_id: checkpoint_id.clone(),
            },
            Op::ResumeSession { session_id, fork } => WireAction::Resume {
                id,
                session_id: session_id.clone(),
                fork: *fork,
            },
            Op::Shutdown => WireAction::Stop,
        };
        let mut out: Vec<WireAction> = Vec::new();
        let ghost a = one.deep_view();
        out.push(one);
        assert(out.deep_view() =~= seq![a]);
        assert(self.deep_view() =~= dispatched(s, subv).0);
        out
    }

    /// The running turn has ended.
    pub fn turn_done(&mut self) -> (r: Vec<WireAction>)
        requires
            old(self).inv(),
        ensures
            final(self).inv(),
            (final(self).deep_view(), r.deep_view()) == turn_ended(old(self).deep_view()),
    {
        let ghost s = self.deep_view();
        let mut out: Vec<WireAction> = Vec::new();
        assert(out.deep_view() =~= Seq::<WireActionView>::empty());
        assert(s.queue.len() == self.queue@.len());
        if self.running && self.queue.len() > 0 {
            let next = self.queue.remove(0);
            let ghost n = next.deep_view();
            assert(self.queue.deep_view() =~= s.queue.drop_first());
            out.push(WireAction::StartTurn(next));
            assert(out.deep_view() =~= seq![WireActionView::StartTurn(n)]);
        } else {
            self.running = false;
        }
        assert(self.deep_view() =~= turn_ended(s).0);
        out
    }

    /// A call waits for a verdict from now on.
    pub fn ask(&mut self, call_id: &str)
        requires
            old(self).inv(),
        ensures
            final(self).inv(),
            final(self).deep_view() == (WireSessionView {
                pending: if old(self).deep_view().pending.contains(call_id@) {
                    old(self).deep_view().pending
                } else {
                    old(self).deep_view().pending.push(call_id@)
                },
                ..old(self).deep_view()
            }),
    {
        let ghost before = views(self.pending@);
        if !among_texts(&self.pending, call_id) {
            self.pending.push(call_id.to_owned());
            assert(views(self.pending@) =~= before.push(call_id@));
        }
    }

    /// Prepare a turn: what is recorded, what the messages are, and the request.
    /// Nothing where the request is for no turn.
    pub fn begin_turn(
        &self,
        sub: &Submission,
        system: &Vec<SystemBlock>,
        reasoning: Option<ReasoningEffort>,
    ) -> (r: Option<TurnStart>)
        ensures
            match sub.deep_view().op {
                OpView::UserTurn { turn_id, input } => r matches Some(t) && {
                    let text = joined(entered(input), " "@);
                    &&& t.id@ == sub.id@
                    &&& t.turn_id.deep_view() == turn_id
                    &&& t.record.deep_view() == (LogEventView::UserInput {
                        content: seq![ContentView::Text { text }],
                        turn_id,
                    })
                    &&& t.messages.deep_view() == self.deep_view().messages.push(asked(text))
                    &&& t.request.deep_view() == (ModelRequestView {
                        model: self.deep_view().model,
                        system: system.deep_view(),
                        messages: Seq::empty(),
                        tools: self.deep_view().tools,
                        reasoning,
                        max_output_tokens: 4096,
                        temperature: None,
                        metadata: RequestMetaView {
                            session_id: Some(self.deep_view().session_id),
                            turn_id: Some(turn_id),
                        },
                    })
                },
                _ => r is None,
            },
    {
        match &sub.op {
            Op::UserTurn { turn_id, input } => {
                let text = entered_text(input);
                let tid = TurnId::new(turn_id.as_str());
                let record = user_input_event(text.as_str(), &tid);
                let m = user_message(text.as_str());
                let ghost mv = m.deep_view();
                let mut messages = self.messages.dup();
                let ghost before = messages.deep_view();
                messages.push(m);
                assert(messages.deep_view() =~= before.push(mv));
                let none: Vec<ModelMessage> = Vec::new();
                assert(none.deep_view() =~= Seq::<ModelMessageView>::empty());
                let request = ModelRequest {
                    model: self.model.clone(),
                    system: system.dup(),
                    messages: none,
                    tools: self.tools.specs(),
                    reasoning,
                    max_output_tokens: 4096,
                    temperature: None,
                    metadata: RequestMeta {
                        session_id: Some(self.session_id.as_str().to_owned()),
                        turn_id: Some(turn_id.clone()),
                    },
                };
                Some(TurnStart { id: sub.id.clone(), turn_id: tid, record, messages, request })
            },
            _ => None,
        }
    }

    /// Take over what a turn has left, and tell clients how it ended.
    pub fn end_turn(
        &mut self,
        id: &str,
        turn_id: &TurnId,
        messages: Vec<ModelMessage>,
        end: TurnEnd,
    ) -> (r: Event)
        requires
            old(self).inv(),
        ensures
            final(self).inv(),
            final(self).deep_view() == counted(
                WireSessionView { messages: messages.deep_view(), ..old(self).deep_view() },
            ),
            r.deep_view() == next_event(
                old(self).deep_view(),
                id@,
                Some(turn_id.deep_view()),
                end_of_turn(turn_id.deep_view(), end),
            ),
    {
        self.messages = messages;
        let msg = match end {
            Ok((usage, stop_reason)) => EventMsg::TurnComplete {
                turn_id: turn_id.clone(),
                usage,
                stop_reason,
            },
            Err(e) => EventMsg::Error { message: e, retryable: false },
        };
        self.emit(id, Some(turn_id.clone()), msg)
    }

    /// Tell of the sessions of the project.
    pub fn sessions_listed(&mut self, id: &str, files: &Vec<StoredLog>) -> (r: Event)
        requires
            old(self).inv(),
        ensures
            final(self).inv(),
            final(self).deep_view() == counted(old(self).deep_view()),
            exists|s: Seq<SessionSummaryView>| #[trigger]
                newest_come_first(s, summaries_in(files.deep_view())) && r.deep_view()
                    == next_event(
                    old(self).deep_view(),
                    id@,
                    None,
                    EventMsgView::SessionQuerySessions { sessions: s },
                ),
    {
        let sessions = list_sessions(files);
        let ghost s = sessions.deep_view();
        assert(newest_come_first(s, summaries_in(files.deep_view())));
        self.emit(id, None, EventMsg::SessionQuerySessions { sessions })
    }

    /// Tell of what the model said, given the current log where it could be read.
    pub fn history_read(
        &mut self,
        id: &str,
        text: &Option<String>,
        after_seq: u64,
        limit: u32,
    ) -> (r: Event)
        requires
            old(self).inv(),
        ensures
            final(self).inv(),
            final(self).deep_view() == counted(old(self).deep_view()),
            r.deep_view() == next_event(
                old(self).deep_view(),
                id@,
                None,
                EventMsgView::SessionQueryHistory {
                    events: match text.deep_view() {
                        Some(t) => limited(history_of(log_of(t), id@, after_seq), limit),
                        None => Seq::empty(),
                    },
                    done: true,
                },
            ),
    {
        let events = match text {
            Some(t) => replay_history_events(t.as_str(), id, after_seq, limit),
            None => {
                let none: Vec<Event> = Vec::new();
                assert(none.deep_view() =~= Seq::<EventView>::empty());
                none
            },
        };
        proof {
            lemma_events_view(events@);
            assert(events_view(events@) =~= events.deep_view());
        }
        self.emit(id, None, EventMsg::SessionQueryHistory { events, done: true })
    }

    /// The conversation was made short, or could not be.
    pub fn compacted(&mut self, id: &str, r: Result<Vec<ModelMessage>, String>) -> (e: Event)
        requires
            old(self).inv(),
        ensures
            final(self).inv(),
            ({
                let (t, msg) = after_compaction(old(self).deep_view(), r);
                final(self).deep_view() == counted(t) && e.deep_view() == next_event(
                    old(self).deep_view(),
                    id@,
                    None,
                    msg,
                )
            }),
    {
        let msg = match r {
            Ok(v) => {
                let n = decimal(v.len() as u64);
                self.messages = v;
                EventMsg::BackgroundEvent { message: cat3("compacted → ", n.as_str(), " messages") }
            },
            Err(e) => EventMsg::Error {
                message: cat("compact 失败: ", e.as_str()),
                retryable: false,
            },
        };
        self.emit(id, None, msg)
    }

    /// Files and conversation were taken back, or could not be.
    pub fn rolled_back(&mut self, id: &str, checkpoint_id: &CheckpointId, r: RolledBack) -> (e: Event)
        requires
            old(self).inv(),
        ensures
            final(self).inv(),
            ({
                let (t, msg) = after_rollback(
                    old(self).deep_view(),
                    checkpoint_id.deep_view(),
                    r,
                );
                final(self).deep_view() == counted(t) && e.deep_view() == next_event(
                    old(self).deep_view(),
                    id@,
                    None,
                    msg,
                )
            }),
    {
        let msg = match r {
            RolledBack::NotFound => EventMsg::Error {
                message: cat3("checkpoint ", checkpoint_id.as_str(), " 未找到"),
                retryable: false,
            },
            RolledBack::NoRepository => EventMsg::Error {
                message: "shadow repo 不可用".to_owned(),
                retryable: false,
            },
            RolledBack::Failed(e) => EventMsg::Error {
                message: cat("rollback 失败: ", e.as_str()),
                retryable: false,
            },
            RolledBack::Done(m) => {
                match m {
                    Some(v) => {
                        self.messages = v;
                    },
                    None => {},
                }
                EventMsg::BackgroundEvent {
                    message: cat(
                        "rolled back files + conversation to checkpoint ",
                        checkpoint_id.as_str(),
                    ),
                }
            },
        };
        self.emit(id, None, msg)
    }

    /// The session goes on with another, or cannot.
    pub fn resumed(&mut self, id: &str, r: Resumed) -> (e: Event)
        requires
            old(self).inv(),
        ensures
            final(self).inv(),
            ({
                let (t, msg) = after_resume(old(self).deep_view(), r);
                final(self).deep_view() == counted(t) && e.deep_view() == next_event(
                    old(self).deep_view(),
                    id@,
                    None,
                    msg,
                )
            }),
    {
        let msg = match r {
            Resumed::NoHome => EventMsg::Error {
                message: "HOME 未设置,无法定位会话日志".to_owned(),
                retryable: false,
            },
            Resumed::NotReplayed(e) => EventMsg::Error {
                message: cat("重放会话失败: ", e.as_str()),
                retryable: false,
            },
            Resumed::NotForked(e) => EventMsg::Error {
                message: cat("创建 fork 会话失败: ", e.as_str()),
                retryable: false,
            },
            Resumed::NotOpened(e) => EventMsg::Error {
                message: cat("打开会话失败: ", e.as_str()),
                retryable: false,
            },
            Resumed::Done { session_id, messages } => {
                self.session_id = session_id;
                self.messages = messages;
                self.what_is_configured()
            },
        };
        self.emit(id, None, msg)
    }
}

/// Whether only turns wait, they wait for a running one, and no call waits twice.
pub open spec fn waits_rightly(s: WireSessionView) -> bool {
    &&& forall|i: int| 0 <= i < s.queue.len() ==> (#[trigger] s.queue[i]).op is UserTurn
    &&& s.queue.len() > 0 ==> s.running
    &&& s.pending.no_duplicates()
}

proof fn lemma_without(s: Seq<Seq<char>>, x: Seq<char>)
    requires
        s.no_duplicates(),
    ensures
        without(s, x).no_duplicates(),
        forall|y: Seq<char>| #[trigger] without(s, x).contains(y) <==> s.contains(y) && y != x,
    decreases s.len(),
{
    if s.len() > 0 {
        let t = s.drop_last();
        lemma_without(t, x);
        let w = without(t, x);
        let r = without(s, x);
        assert forall|y: Seq<char>| #[trigger] r.contains(y) <==> s.contains(y) && y != x by {
            assert(w.contains(y) <==> t.contains(y) && y != x);
            if s.contains(y) {
                let k = choose|k: int| 0 <= k < s.len() && s[k] == y;
                if k < t.len() {
                    assert(t[k] == y);
                }
            }
            if t.contains(y) {
                let k = choose|k: int| 0 <= k < t.len() && t[k] == y;
                assert(s[k] == y);
            }
            if w.contains(y) {
                let k = choose|k: int| 0 <= k < w.len() && w[k] == y;
                assert(r[k] == y);
            }
            if s.last() != x && y == s.last() {
                assert(r[r.len() - 1] == y);
                assert(s[s.len() - 1] == y);
            }
            if r.contains(y) && !w.contains(y) {
                assert(y == s.last());
                assert(s[s.len() - 1] == y);
            }
        }
        if s.last() != x {
            assert(!t.contains(s.last())) by {
                if t.contains(s.last()) {
                    let k = choose|k: int| 0 <= k < t.len() && t[k] == s.last();
                    assert(s[k] == s[s.len() - 1]);
                }
            }
            assert(!w.contains(s.last()));
        }
    }
}

// ---- laws ----

/// One turn at a time: a request starts a turn only where none runs, and one runs
/// from then on.
pub proof fn law_one_turn_at_a_time(s: WireSessionView, sub: SubmissionView)
    ensures
        ({
            let (t, acts) = dispatched(s, sub);
            forall|i: int|
                0 <= i < acts.len() && (#[trigger] acts[i]) is StartTurn ==> !s.running
                    && t.running && acts[i] == WireActionView::StartTurn(sub)
        }),
{
}

/// First come, first served: while a turn runs, turns wait behind those that wait,
/// and the end of a turn starts the one that has waited longest.
pub proof fn law_turns_wait_in_line(s: WireSessionView, sub: SubmissionView)
    requires
        waits_rightly(s),
        s.running,
        sub.op is UserTurn,
    ensures
        ({
            let waiting = dispatched(s, sub).0;
            let (next, acts) = turn_ended(waiting);
            &&& waiting.queue == s.queue.push(sub)
            &&& waiting.running
            &&& next.running
            &&& acts == seq![
                WireActionView::StartTurn(
                    if s.queue.len() == 0 {
                        sub
                    } else {
                        s.queue[0]
                    },
                ),
            ]
            &&& next.queue == s.queue.push(sub).drop_first()
        }),
{
}

/// Interrupting without anything else drops what waits, and the running turn is told.
pub proof fn law_interrupt_clears(s: WireSessionView, id: Seq<char>)
    requires
        s.running,
    ensures
        ({
            let (t, acts) = dispatched(
                s,
                SubmissionView { id, op: OpView::Interrupt { abandon_queued: true } },
            );
            &&& t.queue.len() == 0
            &&& acts == seq![WireActionView::Cancel]
            &&& turn_ended(t).1.len() == 0
            &&& !turn_ended(t).0.running
        }),
{
}

/// A verdict is handed out once, to the call that waits for it, and to no other.
pub proof fn law_verdicts_are_used_once(
    s: WireSessionView,
    id: Seq<char>,
    call_id: Seq<char>,
    decision: ReviewDecision,
)
    requires
        s.pending.no_duplicates(),
    ensures
        ({
            let sub = SubmissionView { id, op: OpView::ApprovalResponse { call_id, decision } };
            let (t, acts) = dispatched(s, sub);
            &&& acts.len() == (if s.pending.contains(call_id) {
                1nat
            } else {
                0
            })
            &&& dispatched(t, sub).1.len() == 0
            &&& forall|c: Seq<char>|
                c != call_id ==> (#[trigger] t.pending.contains(c) <==> s.pending.contains(c))
        }),
{
    lemma_without(s.pending, call_id);
}

/// Events are numbered in the order in which they are sent: what a request makes is
/// numbered with the session's number, which goes up with it.
pub proof fn law_events_are_numbered(s: WireSessionView, sub: SubmissionView)
    ensures
        ({
            let (t, acts) = dispatched(s, sub);
            forall|i: int|
                0 <= i < acts.len() ==> ((#[trigger] acts[i]) matches WireActionView::Send(e)
                    ==> e.seq == s.seq && t.seq == after(s.seq) && e.id == sub.id)
        }),
{
}

/// A rule that a client adds counts from then on, and is the last of the rules.
pub proof fn law_added_rules_count(
    s: WireSessionView,
    id: Seq<char>,
    rule: PermissionRuleView,
    scope: RuleScope,
)
    ensures
        dispatched(s, SubmissionView { id, op: OpView::AddPermissionRule { rule, scope } }).0.engine.rules
            == s.engine.rules.push(rule),
{
}

/// What a client missed is what it is told: the events behind a number are those of
/// the whole history that are numbered beyond it.
pub proof fn law_history_goes_on(s: Seq<LogLineView>, id: Seq<char>, after_seq: u64, i: int)
    requires
        after_seq > 0,
        0 <= i < history_of(s, id, after_seq).len(),
    ensures
        history_of(s, id, after_seq)[i].seq > after_seq,
        history_of(s, id, 0).contains(history_of(s, id, after_seq)[i]),
    decreases s.len(),
{
    let a = history_of(s, id, after_seq);
    let b = history_of(s, id, 0);
    if s.len() > 0 {
        let t = s.drop_last();
        let at = history_of(t, id, after_seq);
        let bt = history_of(t, id, 0);
        if i < at.len() {
            law_history_goes_on(t, id, after_seq, i);
            let k = choose|k: int| 0 <= k < bt.len() && bt[k] == at[i];
            assert(b[k] == a[i]);
        } else {
            assert(b[b.len() - 1] == a[i]);
        }
    }
}

} // verus!
