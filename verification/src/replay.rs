//! A session's state, rebuilt from its log.
use vstd::prelude::*;
use vstd::string::*;

use crate::content::Content;
use crate::content::ContentView;
use crate::dup::Dup;
use crate::ids::SessionId;
use crate::json::Json;
use crate::json::bool_in;
use crate::json::member;
use crate::json::text_in;
use crate::log::LogEvent;
use crate::log::LogEventView;
use crate::log::LogLineView;
use crate::model::ModelContent;
use crate::model::ModelContentView;
use crate::model::ModelMessage;
use crate::model::ModelMessageView;
use crate::permission::PermissionMode;
use crate::providers::calls::or_text;
use crate::providers::calls::text_at;
use crate::providers::calls::text_or;
use crate::recorder::is_line;
use crate::recorder::is_readable;
use crate::recorder::is_whole;
use crate::recorder::keeps;
use crate::recorder::law_appended_lines_are_read;
use crate::recorder::log_line_of;
use crate::recorder::log_lines;
use crate::recorder::log_of;
use crate::recorder::read_log_line;
use crate::recorder::up_to;
use crate::session::all_logged;
use crate::session::logged;
use crate::session::logged_result;
use crate::text::cat;
use crate::text::line_list;
use crate::text::lines;
use crate::text::same;
use crate::text::trim;
use crate::text::trimmed;
use crate::text::views;

verus! {

/// The model of `SessionState`.
#[verifier::ext_equal]
pub struct SessionStateView {
    pub id: Seq<char>,
    pub parent: Option<Seq<char>>,
    pub cwd: Seq<char>,
    pub title: Option<Seq<char>>,
    pub messages: Seq<ModelMessageView>,
    pub session_grants: Seq<(Seq<char>, Seq<char>)>,
    pub mode: PermissionMode,
}

/// What a log says of its session: what the model has seen, what was granted for
/// the session, and the mode.
#[derive(Debug)]
pub struct SessionState {
    pub id: SessionId,
    pub parent: Option<SessionId>,
    pub cwd: String,
    pub title: Option<String>,
    pub messages: Vec<ModelMessage>,
    /// Tools and patterns, each pair once.
    pub session_grants: Vec<(String, String)>,
    pub mode: PermissionMode,
}

/// The model of pairs.
pub open spec fn pairs_view(s: Seq<(String, String)>) -> Seq<(Seq<char>, Seq<char>)> {
    Seq::new(s.len(), |i: int| (s[i].0@, s[i].1@))
}

impl DeepView for SessionState {
    type V = SessionStateView;

    open spec fn deep_view(&self) -> SessionStateView {
        SessionStateView {
            id: self.id.deep_view(),
            parent: self.parent.deep_view(),
            cwd: self.cwd@,
            title: self.title.deep_view(),
            messages: self.messages.deep_view(),
            session_grants: pairs_view(self.session_grants@),
            mode: self.mode,
        }
    }
}

/// The state before the first line.
pub open spec fn no_state() -> SessionStateView {
    SessionStateView {
        id: Seq::empty(),
        parent: None,
        cwd: Seq::empty(),
        title: None,
        messages: Seq::empty(),
        session_grants: Seq::empty(),
        mode: PermissionMode::Default,
    }
}

impl Default for SessionState {
    fn default() -> (r: Self)
        ensures
            r.deep_view() == no_state(),
    {
        let s = SessionState {
            id: SessionId::new(""),
            parent: None,
            cwd: String::new(),
            title: None,
            messages: Vec::new(),
            session_grants: Vec::new(),
            mode: PermissionMode::Default,
        };
        proof {
            reveal_strlit("");
        }
        assert(s.deep_view() =~= no_state());
        s
    }
}

// ---- blocks ----

/// A block of the log as the model has it.
pub open spec fn recalled(c: ContentView) -> ModelContentView {
    match c {
        ContentView::Text { text } => ModelContentView::Text(text),
        ContentView::Thinking { text, signature } => ModelContentView::Thinking { text, signature },
        ContentView::ToolUse { call_id, name, input } => ModelContentView::ToolUse {
            call_id,
            name,
            input,
        },
        ContentView::Image { mime, data_base64 } => ModelContentView::Image { mime, data_base64 },
    }
}

/// Blocks of the log as the model has them.
pub open spec fn all_recalled(s: Seq<ContentView>) -> Seq<ModelContentView> {
    Seq::new(s.len(), |i: int| recalled(s[i]))
}

/// A block of the log as the model has it.
pub fn content_to_model(c: Content) -> (r: ModelContent)
    ensures
        r.deep_view() == recalled(c.deep_view()),
{
    match c {
        Content::Text { text } => ModelContent::Text(text),
        Content::Thinking { text, signature } => ModelContent::Thinking { text, signature },
        Content::ToolUse { call_id, name, input } => ModelContent::ToolUse { call_id, name, input },
        Content::Image { mime, data_base64 } => ModelContent::Image { mime, data_base64 },
    }
}

fn contents_to_model(v: Vec<Content>) -> (r: Vec<ModelContent>)
    ensures
        r.deep_view() == all_recalled(v.deep_view()),
{
    let mut out: Vec<ModelContent> = Vec::new();
    let mut i: usize = 0;
    while i < v.len()
        invariant
            i <= v@.len(),
            out@.len() == i,
            forall|k: int|
                0 <= k < i ==> (#[trigger] out@[k]).deep_view() == recalled(v@[k].deep_view()),
        decreases v@.len() - i,
    {
        out.push(content_to_model(v[i].dup()));
        i = i + 1;
    }
    assert(out.deep_view() =~= all_recalled(v.deep_view()));
    out
}

// ---- events ----

/// The state after an event.
pub open spec fn applied(s: SessionStateView, e: LogEventView) -> SessionStateView {
    match e {
        LogEventView::SessionMeta { id, parent, cwd, .. } => SessionStateView {
            id,
            parent,
            cwd,
            ..s
        },
        LogEventView::SessionTitle { title } => SessionStateView { title: Some(title), ..s },
        LogEventView::UserInput { content, .. } => SessionStateView {
            messages: s.messages.push(ModelMessageView::User { content: all_recalled(content) }),
            ..s
        },
        LogEventView::AssistantMessage { content, .. } => SessionStateView {
            messages: s.messages.push(
                ModelMessageView::Assistant { content: all_recalled(content) },
            ),
            ..s
        },
        LogEventView::ToolResult { call_id, output, .. } => SessionStateView {
            messages: s.messages.push(
                ModelMessageView::ToolResult {
                    call_id,
                    content: seq![ModelContentView::Text(or_text(text_in(member(output, "content"@)), ""@))],
                    is_error: bool_in(member(output, "is_error"@)) == Some(true),
                },
            ),
            ..s
        },
        LogEventView::PermissionGrant { tool, pattern } => SessionStateView {
            session_grants: if s.session_grants.contains((tool, pattern)) {
                s.session_grants
            } else {
                s.session_grants.push((tool, pattern))
            },
            ..s
        },
        LogEventView::ModeChange { mode } => SessionStateView { mode, ..s },
        _ => s,
    }
}

fn granted(v: &Vec<(String, String)>, tool: &str, pattern: &str) -> (r: bool)
    ensures
        r == pairs_view(v@).contains((tool@, pattern@)),
{
    let ghost all = pairs_view(v@);
    let mut i: usize = 0;
    while i < v.len()
        invariant
            i <= v@.len(),
            all == pairs_view(v@),
            forall|k: int| 0 <= k < i ==> all[k] != (tool@, pattern@),
        decreases v@.len() - i,
    {
        if same(v[i].0.as_str(), tool) && same(v[i].1.as_str(), pattern) {
            assert(all[i as int] == (tool@, pattern@));
            return true;
        }
        i = i + 1;
    }
    false
}

impl SessionState {
    /// Take up an event of the log.
    pub fn apply(&mut self, event: LogEvent)
        ensures
            final(self).deep_view() == applied(old(self).deep_view(), event.deep_view()),
    {
        let ghost before = self.deep_view();
        let ghost e = event.deep_view();
        match event {
            LogEvent::SessionMeta { id, parent, cwd, .. } => {
                self.id = id;
                self.parent = parent;
                self.cwd = cwd;
            },
            LogEvent::SessionTitle { title } => {
                self.title = Some(title);
            },
            LogEvent::UserInput { content, .. } => {
                let m = ModelMessage::User { content: contents_to_model(content) };
                self.messages.push(m);
                assert(self.messages.deep_view() =~= before.messages.push(m.deep_view()));
            },
            LogEvent::AssistantMessage { content, .. } => {
                let m = ModelMessage::Assistant { content: contents_to_model(content) };
                self.messages.push(m);
                assert(self.messages.deep_view() =~= before.messages.push(m.deep_view()));
            },
            LogEvent::ToolResult { call_id, output, .. } => {
                let text = output_text(&output);
                let is_error = output_is_error(&output);
                let mut content: Vec<ModelContent> = Vec::new();
                content.push(ModelContent::Text(text));
                assert(content.deep_view() =~= seq![
                    ModelContentView::Text(or_text(text_in(member(output@, "content"@)), ""@)),
                ]);
                let m = ModelMessage::ToolResult { call_id, content, is_error };
                self.messages.push(m);
                assert(self.messages.deep_view() =~= before.messages.push(m.deep_view()));
            },
            LogEvent::PermissionGrant { tool, pattern } => {
                if !granted(&self.session_grants, tool.as_str(), pattern.as_str()) {
                    let ghost p = (tool@, pattern@);
                    self.session_grants.push((tool, pattern));
                    assert(pairs_view(self.session_grants@) =~= before.session_grants.push(p));
                }
            },
            LogEvent::ModeChange { mode } => {
                self.mode = mode;
            },
            _ => {},
        }
        assert(self.deep_view() =~= applied(before, e));
    }
}

/// The text of a tool's result in the log.
fn output_text(output: &Json) -> (r: String)
    ensures
        r@ == or_text(text_in(member(output@, "content"@)), ""@),
{
    text_or(text_at(output, "content"), "")
}

fn output_is_error(output: &Json) -> (r: bool)
    ensures
        r == (bool_in(member(output@, "is_error"@)) == Some(true)),
{
    match output.get("is_error") {
        Some(v) => match v.as_bool() {
            Some(b) => b,
            None => false,
        },
        None => false,
    }
}

// ---- the log ----

/// Whether a line holds nothing.
pub open spec fn is_blank(line: Seq<char>) -> bool {
    trimmed(line).len() == 0
}

/// The first line that is not blank and no line of a log.
pub open spec fn first_bad(lines: Seq<Seq<char>>) -> Option<Seq<char>>
    decreases lines.len(),
{
    if lines.len() == 0 {
        None
    } else {
        match first_bad(lines.drop_last()) {
            Some(b) => Some(b),
            None => if is_blank(lines.last()) || log_line_of(lines.last()) is Some {
                None
            } else {
                Some(lines.last())
            },
        }
    }
}

/// The state after lines of a log.
pub open spec fn folded(lines: Seq<Seq<char>>) -> SessionStateView
    decreases lines.len(),
{
    if lines.len() == 0 {
        no_state()
    } else {
        let s = folded(lines.drop_last());
        if is_blank(lines.last()) {
            s
        } else {
            match log_line_of(lines.last()) {
                Some(l) => applied(s, l.event),
                None => s,
            }
        }
    }
}

/// The state that a log stands for, or the line that is none of a log.
pub open spec fn replayed(text: Seq<char>) -> Result<SessionStateView, Seq<char>> {
    match first_bad(line_list(text)) {
        Some(b) => Err(b),
        None => Ok(folded(line_list(text))),
    }
}

/// Rebuild a session's state from its log. The error tells which line could not be
/// read.
pub fn replay(text: &str) -> (r: Result<SessionState, String>)
    ensures
        match replayed(text@) {
            Ok(s) => r matches Ok(x) && x.deep_view() == s,
            Err(b) => r matches Err(e) && e@ == "解析日志行失败: "@ + b,
        },
{
    let all = lines(text);
    let ghost ls = line_list(text@);
    let mut state = SessionState::default();
    let mut i: usize = 0;
    while i < all.len()
        invariant
            i <= all@.len(),
            ls == views(all@),
            ls == line_list(text@),
            first_bad(ls.take(i as int)) is None,
            state.deep_view() == folded(ls.take(i as int)),
        decreases all@.len() - i,
    {
        assert(ls.take(i + 1).drop_last() =~= ls.take(i as int));
        assert(ls.take(i + 1).last() == all@[i as int]@);
        let bare = trim(all[i].as_str());
        if bare.as_str().unicode_len() > 0 {
            match read_log_line(all[i].as_str()) {
                Some(l) => {
                    state.apply(l.event);
                },
                None => {
                    proof {
                        lemma_first_bad(ls, i + 1);
                    }
                    return Err(cat("解析日志行失败: ", all[i].as_str()));
                },
            }
        }
        i = i + 1;
    }
    assert(ls.take(ls.len() as int) =~= ls);
    Ok(state)
}

proof fn lemma_first_bad(ls: Seq<Seq<char>>, n: int)
    requires
        0 <= n <= ls.len(),
        first_bad(ls.take(n)) is Some,
    ensures
        first_bad(ls) == first_bad(ls.take(n)),
    decreases ls.len() - n,
{
    if n < ls.len() {
        assert(ls.take(n + 1).drop_last() =~= ls.take(n));
        lemma_first_bad(ls, n + 1);
    } else {
        assert(ls.take(n) =~= ls);
    }
}

// ---- laws ----

/// A session can be taken up again: what is recorded last is what replay applies
/// last, and what stood in the log before counts as before.
pub proof fn law_replay_follows_the_log(text: Seq<char>, s: Seq<char>, l: LogLineView)
    requires
        is_whole(text),
        is_line(s, l),
        keeps(l),
    ensures
        replayed(text + s + "\n"@) == (match replayed(text) {
            Ok(st) => Ok(applied(st, l.event)),
            Err(b) => Err(b),
        }),
{
    law_appended_lines_are_read(text, s, l);
    let ls = line_list(text);
    assert(ls.push(s).drop_last() =~= ls);
    assert(!is_blank(s));
}

/// The state after events.
pub open spec fn state_after(s: Seq<LogLineView>) -> SessionStateView
    decreases s.len(),
{
    if s.len() == 0 {
        no_state()
    } else {
        applied(state_after(s.drop_last()), s.last().event)
    }
}

proof fn lemma_folded_lines(ls: Seq<Seq<char>>)
    requires
        forall|i: int|
            0 <= i < ls.len() ==> trimmed(#[trigger] ls[i]).len() > 0 && log_line_of(ls[i]) is Some,
    ensures
        first_bad(ls) is None,
        folded(ls) == state_after(log_lines(ls)),
    decreases ls.len(),
{
    if ls.len() > 0 {
        let t = ls.drop_last();
        assert forall|i: int| 0 <= i < t.len() implies trimmed(#[trigger] t[i]).len() > 0
            && log_line_of(t[i]) is Some by {
            assert(t[i] == ls[i]);
        }
        lemma_folded_lines(t);
        assert(log_lines(ls).drop_last() =~= log_lines(t));
    }
}

/// Replay takes up the events of a log one after the other, and nothing else: a log
/// that was cut brings back the state before what was cut away.
pub proof fn law_replay_takes_up_events(text: Seq<char>)
    requires
        is_readable(text),
    ensures
        replayed(text) == Ok::<SessionStateView, Seq<char>>(state_after(log_of(text))),
{
    lemma_folded_lines(line_list(text));
}

/// Going back to a line undoes what was recorded behind it: cutting a log that grew
/// from `before`, at the number of the last line of `before`, leaves `before`, and
/// with it the state of then.
pub proof fn law_cutting_undoes(before: Seq<LogLineView>, later: Seq<LogLineView>, seq: u64)
    requires
        forall|i: int| 0 <= i < before.len() ==> (#[trigger] before[i]).seq <= seq,
        forall|i: int| 0 <= i < later.len() ==> (#[trigger] later[i]).seq > seq,
    ensures
        up_to(before + later, seq) == before,
        state_after(up_to(before + later, seq)) == state_after(before),
    decreases before.len() + later.len(),
{
    let all = before + later;
    if later.len() > 0 {
        assert(all.drop_last() =~= before + later.drop_last());
        assert(all.last() == later[later.len() - 1]);
        law_cutting_undoes(before, later.drop_last(), seq);
    } else {
        assert(all =~= before);
        if before.len() > 0 {
            law_cutting_undoes(before.drop_last(), later, seq);
            assert(before.drop_last() + later =~= before.drop_last());
            assert(before.last() == before[before.len() - 1]);
            assert(up_to(before, seq) =~= before);
        }
    }
}

/// What goes into the log as a block of a message comes out of it as that block.
pub proof fn law_blocks_are_recalled(s: Seq<ModelContentView>)
    ensures
        all_recalled(all_logged(s)) == s,
{
    assert forall|i: int| 0 <= i < s.len() implies recalled(logged(s[i])) == s[i] by {}
    assert(all_recalled(all_logged(s)) =~= s);
}

/// What goes into the log as a tool's result comes out of it as that result.
pub proof fn law_results_are_recalled(
    st: SessionStateView,
    call_id: Seq<char>,
    content: Seq<char>,
    is_error: bool,
    ms: u64,
)
    ensures
        applied(
            st,
            LogEventView::ToolResult {
                call_id,
                output: logged_result(content, is_error),
                duration_ms: ms,
            },
        ).messages == st.messages.push(
            ModelMessageView::ToolResult {
                call_id,
                content: seq![ModelContentView::Text(content)],
                is_error,
            },
        ),
{
    reveal_strlit("content");
    reveal_strlit("is_error");
    assert("content"@.len() == 7);
    assert("is_error"@.len() == 8);
}

/// A grant stands once, however often it was recorded.
pub proof fn law_grants_stand_once(lines: Seq<Seq<char>>)
    ensures
        folded(lines).session_grants.no_duplicates(),
    decreases lines.len(),
{
    if lines.len() > 0 {
        law_grants_stand_once(lines.drop_last());
    }
}

/// What was granted stays granted, whatever is recorded behind it.
pub proof fn law_grants_stay(s: SessionStateView, e: LogEventView, tool: Seq<char>, pattern: Seq<char>)
    ensures
        s.session_grants.contains((tool, pattern)) ==> applied(s, e).session_grants.contains(
            (tool, pattern),
        ),
        e == (LogEventView::PermissionGrant { tool, pattern }) ==> applied(
            s,
            e,
        ).session_grants.contains((tool, pattern)),
{
    let before = s.session_grants;
    let now = applied(s, e).session_grants;
    if before.contains((tool, pattern)) {
        let k = choose|k: int| 0 <= k < before.len() && before[k] == (tool, pattern);
        assert(now[k] == (tool, pattern));
    }
    if e == (LogEventView::PermissionGrant { tool, pattern }) && !before.contains((tool, pattern)) {
        assert(now[now.len() - 1] == (tool, pattern));
    }
}

/// The messages of a session only grow.
pub proof fn law_messages_only_grow(s: SessionStateView, e: LogEventView)
    ensures
        s.messages.is_prefix_of(applied(s, e).messages),
{
}

} // verus!
