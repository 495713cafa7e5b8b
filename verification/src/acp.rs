//! The agent inside an editor: what the editor asks, and what it is told.
use vstd::prelude::*;
use vstd::string::*;

use crate::config::Config;
use crate::content::StopReason;
use crate::exec::asked;
use crate::exec::system_blocks_with;
use crate::exec::system_with;
use crate::exec::user_message;
use crate::form::obj1;
use crate::form::object1;
use crate::json::Json;
use crate::json::JsonView;
use crate::json::Members;
use crate::json::lemma_list_view;
use crate::json::list_in;
use crate::json::member;
use crate::json::text_in;
use crate::model::ModelMessage;
use crate::model::ModelMessageView;
use crate::model::SystemBlock;
use crate::model::SystemBlockView;
use crate::providers::calls::or_text;
use crate::providers::calls::text_at;
use crate::providers::calls::text_or;
use crate::session::TurnEvent;
use crate::session::TurnEventView;
use crate::show::show_stop;
use crate::show::stop_words;
use crate::text::cat;
use crate::text::same;

verus! {

/// What the editor is told first.
pub open spec fn described_object(version: Seq<char>) -> JsonView {
    JsonView::Object(
        Map::empty().insert(
            "protocolVersion"@,
            JsonView::Text("0.1"@),
        ).insert(
            "agent"@,
            JsonView::Object(
                Map::empty().insert(
                    "name"@,
                    JsonView::Text("tao"@),
                ).insert(
                    "version"@,
                    JsonView::Text(version),
                ),
            ),
        ).insert(
            "capabilities"@,
            JsonView::Object(Map::empty()),
        ),
    )
}

/// What the editor is told first.
pub fn described(version: &str) -> (r: Json)
    ensures
        r@ == described_object(version@),
{
    {
        let mut m = Members::new();
        m.put("protocolVersion", Json::text("0.1"));
        m.put("agent", {
            let mut m = Members::new();
            m.put("name", Json::text("tao"));
            m.put("version", Json::text(version));
            m.done()
        });
        m.put("capabilities", {
            let mut m = Members::new();
            m.done()
        });
        m.done()
    }
}

/// What the editor is told while a turn runs.
pub open spec fn update_object(session_id: Seq<char>, what: JsonView) -> JsonView {
    JsonView::Object(
        Map::empty().insert(
            "jsonrpc"@,
            JsonView::Text("2.0"@),
        ).insert(
            "method"@,
            JsonView::Text("session/update"@),
        ).insert(
            "params"@,
            JsonView::Object(
                Map::empty().insert(
                    "sessionId"@,
                    JsonView::Text(session_id),
                ).insert(
                    "update"@,
                    what,
                ),
            ),
        ),
    )
}

/// What the editor is told while a turn runs.
pub fn update(session_id: &str, what: Json) -> (r: Json)
    ensures
        r@ == update_object(session_id@, what@),
{
    {
        let mut m = Members::new();
        m.put("jsonrpc", Json::text("2.0"));
        m.put("method", Json::text("session/update"));
        m.put("params", {
            let mut m = Members::new();
            m.put("sessionId", Json::text(session_id));
            m.put("update", what);
            m.done()
        });
        m.done()
    }
}

/// A piece of what the model says.
pub open spec fn message_chunk_object(text: Seq<char>) -> JsonView {
    JsonView::Object(
        Map::empty().insert(
            "type"@,
            JsonView::Text("agent_message_chunk"@),
        ).insert(
            "content"@,
            JsonView::Object(
                Map::empty().insert(
                    "type"@,
                    JsonView::Text("text"@),
                ).insert(
                    "text"@,
                    JsonView::Text(text),
                ),
            ),
        ),
    )
}

/// A piece of what the model says.
pub fn message_chunk(text: &str) -> (r: Json)
    ensures
        r@ == message_chunk_object(text@),
{
    {
        let mut m = Members::new();
        m.put("type", Json::text("agent_message_chunk"));
        m.put("content", {
            let mut m = Members::new();
            m.put("type", Json::text("text"));
            m.put("text", Json::text(text));
            m.done()
        });
        m.done()
    }
}

/// A call of a tool that began.
pub open spec fn call_began_object(tool: Seq<char>, call_id: Seq<char>) -> JsonView {
    JsonView::Object(
        Map::empty().insert(
            "type"@,
            JsonView::Text("tool_call"@),
        ).insert(
            "tool_name"@,
            JsonView::Text(tool),
        ).insert(
            "call_id"@,
            JsonView::Text(call_id),
        ).insert(
            "state"@,
            JsonView::Text("running"@),
        ),
    )
}

/// A call of a tool that began.
pub fn call_began(tool: &str, call_id: &str) -> (r: Json)
    ensures
        r@ == call_began_object(tool@, call_id@),
{
    {
        let mut m = Members::new();
        m.put("type", Json::text("tool_call"));
        m.put("tool_name", Json::text(tool));
        m.put("call_id", Json::text(call_id));
        m.put("state", Json::text("running"));
        m.done()
    }
}

/// A call of a tool that ended.
pub open spec fn call_ended_object(call_id: Seq<char>, state: Seq<char>, summary: Seq<char>) -> JsonView {
    JsonView::Object(
        Map::empty().insert(
            "type"@,
            JsonView::Text("tool_call_update"@),
        ).insert(
            "call_id"@,
            JsonView::Text(call_id),
        ).insert(
            "state"@,
            JsonView::Text(state),
        ).insert(
            "output"@,
            JsonView::Object(
                Map::empty().insert(
                    "type"@,
                    JsonView::Text("text"@),
                ).insert(
                    "text"@,
                    JsonView::Text(summary),
                ),
            ),
        ),
    )
}

/// A call of a tool that ended.
pub fn call_ended(call_id: &str, state: &str, summary: &str) -> (r: Json)
    ensures
        r@ == call_ended_object(call_id@, state@, summary@),
{
    {
        let mut m = Members::new();
        m.put("type", Json::text("tool_call_update"));
        m.put("call_id", Json::text(call_id));
        m.put("state", Json::text(state));
        m.put("output", {
            let mut m = Members::new();
            m.put("type", Json::text("text"));
            m.put("text", Json::text(summary));
            m.done()
        });
        m.done()
    }
}

/// The end of a turn.
pub open spec fn stopped_object(reason: Seq<char>) -> JsonView {
    JsonView::Object(
        Map::empty().insert(
            "type"@,
            JsonView::Text("stop"@),
        ).insert(
            "stop_reason"@,
            JsonView::Text(reason),
        ),
    )
}

/// The end of a turn.
pub fn stopped(reason: &str) -> (r: Json)
    ensures
        r@ == stopped_object(reason@),
{
    {
        let mut m = Members::new();
        m.put("type", Json::text("stop"));
        m.put("stop_reason", Json::text(reason));
        m.done()
    }
}

/// The name of a reason to stop, in lower case.
pub open spec fn stop_lower(s: StopReason) -> Seq<char> {
    match s {
        StopReason::EndTurn => "endturn"@,
        StopReason::MaxTokens => "maxtokens"@,
        StopReason::ToolUse => "tooluse"@,
        StopReason::Refused => "refused"@,
        StopReason::Interrupted => "interrupted"@,
        StopReason::Error => "error"@,
        StopReason::MaxSteps => "maxsteps"@,
    }
}

fn show_stop_lower(s: StopReason) -> (r: &'static str)
    ensures
        r@ == stop_lower(s),
{
    match s {
        StopReason::EndTurn => "endturn",
        StopReason::MaxTokens => "maxtokens",
        StopReason::ToolUse => "tooluse",
        StopReason::Refused => "refused",
        StopReason::Interrupted => "interrupted",
        StopReason::Error => "error",
        StopReason::MaxSteps => "maxsteps",
    }
}

/// What the editor is told of an event of a turn. Of some it is told nothing.
pub open spec fn update_for(session_id: Seq<char>, ev: TurnEventView) -> Option<JsonView> {
    match ev {
        TurnEventView::TextDelta(t) => Some(update_object(session_id, message_chunk_object(t))),
        TurnEventView::ToolCallBegin { call_id, tool } => Some(
            update_object(session_id, call_began_object(tool, call_id)),
        ),
        TurnEventView::ToolExecEnd { call_id, ok, summary } => Some(
            update_object(
                session_id,
                call_ended_object(
                    call_id,
                    if ok {
                        "completed"@
                    } else {
                        "failed"@
                    },
                    summary,
                ),
            ),
        ),
        TurnEventView::TurnComplete { stop_reason, .. } => Some(
            update_object(session_id, stopped_object(stop_lower(stop_reason))),
        ),
        _ => None,
    }
}

/// What the editor is told of an event of a turn.
pub fn session_update(session_id: &str, ev: &TurnEvent) -> (r: Option<Json>)
    ensures
        r.deep_view() == update_for(session_id@, ev.deep_view()),
{
    let what = match ev {
        TurnEvent::TextDelta(t) => message_chunk(t.as_str()),
        TurnEvent::ToolCallBegin { call_id, tool } => call_began(tool.as_str(), call_id.as_str()),
        TurnEvent::ToolExecEnd { call_id, ok, summary } => {
            let state = if *ok {
                "completed"
            } else {
                "failed"
            };
            call_ended(call_id.as_str(), state, summary.as_str())
        },
        TurnEvent::TurnComplete { stop_reason, .. } => stopped(show_stop_lower(*stop_reason)),
        _ => return None,
    };
    Some(update(session_id, what))
}

/// The text of a prompt: that of its first block.
pub open spec fn prompt_text(params: JsonView) -> Seq<char> {
    match list_in(member(params, "message"@)) {
        Some(s) => if s.len() > 0 {
            or_text(text_in(member(s[0], "text"@)), ""@)
        } else {
            ""@
        },
        None => ""@,
    }
}

/// The text of a prompt.
pub fn read_prompt(params: &Json) -> (r: String)
    ensures
        r@ == prompt_text(params@),
{
    let list = match params.get("message") {
        Some(m) => m.as_list(),
        None => None,
    };
    match list {
        Some(v) => {
            proof {
                lemma_list_view(v@);
            }
            if v.len() > 0 {
                text_or(text_at(&v[0], "text"), "")
            } else {
                "".to_owned()
            }
        },
        None => "".to_owned(),
    }
}

// ---- the server ----

/// The model of `AcpSession`.
pub struct AcpSessionView {
    pub cwd: Seq<char>,
    pub model: Seq<char>,
    pub session_id: Seq<char>,
    pub messages: Seq<ModelMessageView>,
    pub running: bool,
}

/// The session of the editor.
pub struct AcpSession {
    pub cwd: String,
    pub model: String,
    pub session_id: String,
    pub messages: Vec<ModelMessage>,
    /// Whether a turn runs.
    pub running: bool,
}

impl DeepView for AcpSession {
    type V = AcpSessionView;

    open spec fn deep_view(&self) -> AcpSessionView {
        AcpSessionView {
            cwd: self.cwd@,
            model: self.model@,
            session_id: self.session_id@,
            messages: self.messages.deep_view(),
            running: self.running,
        }
    }
}

/// The agent as the editor sees it: with a session or without one.
pub struct AcpServer {
    pub session: Option<AcpSession>,
}

impl DeepView for AcpServer {
    type V = Option<AcpSessionView>;

    open spec fn deep_view(&self) -> Option<AcpSessionView> {
        self.session.deep_view()
    }
}

/// The model of `AcpStep`.
pub enum AcpStepView {
    Answer(JsonView),
    Open { cwd: Seq<char> },
    Prompt { text: Seq<char> },
    Cancel,
}

/// What is to be done for the editor.
pub enum AcpStep {
    /// It is answered.
    Answer(Json),
    /// A session is opened; `opened` says what came of it.
    Open { cwd: String },
    /// A turn is run; `ended` says what came of it.
    Prompt { text: String },
    /// The running turn is interrupted, and the answer is null.
    Cancel,
}

impl DeepView for AcpStep {
    type V = AcpStepView;

    open spec fn deep_view(&self) -> AcpStepView {
        match *self {
            AcpStep::Answer(j) => AcpStepView::Answer(j@),
            AcpStep::Open { cwd } => AcpStepView::Open { cwd: cwd@ },
            AcpStep::Prompt { text } => AcpStepView::Prompt { text: text@ },
            AcpStep::Cancel => AcpStepView::Cancel,
        }
    }
}

/// What is to be done for a call, with a session or without one.
pub open spec fn acp_step(
    s: Option<AcpSessionView>,
    method: Seq<char>,
    params: JsonView,
    version: Seq<char>,
) -> AcpStepView {
    if method == "initialize"@ {
        AcpStepView::Answer(described_object(version))
    } else if method == "session/new"@ {
        AcpStepView::Open { cwd: or_text(text_in(member(params, "cwd"@)), "."@) }
    } else if method == "session/prompt"@ {
        match s {
            Some(_) => AcpStepView::Prompt { text: prompt_text(params) },
            None => AcpStepView::Answer(obj1("error"@, JsonView::Text("no session"@))),
        }
    } else if method == "session/cancel"@ {
        match s {
            Some(x) => if x.running {
                AcpStepView::Cancel
            } else {
                AcpStepView::Answer(JsonView::Null)
            },
            None => AcpStepView::Answer(JsonView::Null),
        }
    } else {
        AcpStepView::Answer(JsonView::Null)
    }
}

/// Why no session could be opened.
pub enum NotOpened {
    Config(String),
    Provider(String),
    Log(String),
}

/// Why no session could be opened, in words.
pub open spec fn why_not_opened(e: NotOpened) -> Seq<char> {
    match e {
        NotOpened::Config(e) => "config 加载失败: "@ + e@,
        NotOpened::Provider(e) => "provider 解析失败: "@ + e@,
        NotOpened::Log(e) => "会话创建失败: "@ + e@,
    }
}

impl NotOpened {
    /// The reason in words.
    pub fn message(&self) -> (r: String)
        ensures
            r@ == why_not_opened(*self),
    {
        match self {
            NotOpened::Config(e) => cat("config 加载失败: ", e.as_str()),
            NotOpened::Provider(e) => cat("provider 解析失败: ", e.as_str()),
            NotOpened::Log(e) => cat("会话创建失败: ", e.as_str()),
        }
    }
}

impl Default for AcpServer {
    fn default() -> (r: Self)
        ensures
            r.deep_view() is None,
    {
        AcpServer { session: None }
    }
}

impl AcpServer {
    /// Without a session.
    pub fn new() -> (r: Self)
        ensures
            r.deep_view() is None,
    {
        AcpServer { session: None }
    }

    /// What is to be done for a call.
    pub fn handle(&self, method: &str, params: &Json, version: &str) -> (r: AcpStep)
        ensures
            r.deep_view() == acp_step(self.deep_view(), method@, params@, version@),
    {
        if same(method, "initialize") {
            AcpStep::Answer(described(version))
        } else if same(method, "session/new") {
            AcpStep::Open { cwd: text_or(text_at(params, "cwd"), ".") }
        } else if same(method, "session/prompt") {
            match &self.session {
                Some(_) => AcpStep::Prompt { text: read_prompt(params) },
                None => AcpStep::Answer(object1("error", Json::text("no session"))),
            }
        } else if same(method, "session/cancel") {
            match &self.session {
                Some(s) => if s.running {
                    AcpStep::Cancel
                } else {
                    AcpStep::Answer(Json::Null)
                },
                None => AcpStep::Answer(Json::Null),
            }
        } else {
            AcpStep::Answer(Json::Null)
        }
    }

    /// A session was opened, in the place of the one before; the answer says which.
    pub fn opened(&mut self, cwd: &str, model: &str, session_id: &str) -> (r: Json)
        ensures
            final(self).deep_view() == Some(
                AcpSessionView {
                    cwd: cwd@,
                    model: model@,
                    session_id: session_id@,
                    messages: Seq::empty(),
                    running: false,
                },
            ),
            r@ == obj1("sessionId"@, JsonView::Text(session_id@)),
    {
        let messages: Vec<ModelMessage> = Vec::new();
        assert(messages.deep_view() =~= Seq::<ModelMessageView>::empty());
        self.session = Some(
            AcpSession {
                cwd: cwd.to_owned(),
                model: model.to_owned(),
                session_id: session_id.to_owned(),
                messages,
                running: false,
            },
        );
        object1("sessionId", Json::text(session_id))
    }

    /// No session could be opened; the one before stays.
    pub fn not_opened(&self, why: &NotOpened) -> (r: Json)
        ensures
            r@ == obj1("error"@, JsonView::Text(why_not_opened(*why))),
    {
        let t = why.message();
        object1("error", Json::text(t.as_str()))
    }

    /// A turn starts with what the user says.
    pub fn begin(&mut self, text: &str)
        ensures
            final(self).deep_view() == (match old(self).deep_view() {
                Some(s) => Some(
                    AcpSessionView { messages: s.messages.push(asked(text@)), running: true, ..s },
                ),
                None => None,
            }),
    {
        match self.session.take() {
            Some(mut s) => {
                let ghost before = s.messages.deep_view();
                let m = user_message(text);
                let ghost mv = m.deep_view();
                s.messages.push(m);
                assert(s.messages.deep_view() =~= before.push(mv));
                s.running = true;
                self.session = Some(s);
            },
            None => {
                self.session = None;
            },
        }
    }

    /// A turn has ended and left its messages; the answer says how.
    pub fn ended(&mut self, messages: Vec<ModelMessage>, end: Result<StopReason, String>) -> (r: Json)
        ensures
            final(self).deep_view() == (match old(self).deep_view() {
                Some(s) => Some(
                    AcpSessionView { messages: messages.deep_view(), running: false, ..s },
                ),
                None => None,
            }),
            r@ == (match end {
                Ok(s) => obj1("stopReason"@, JsonView::Text(stop_words(s))),
                Err(e) => obj1("error"@, JsonView::Text(e@)),
            }),
    {
        match self.session.take() {
            Some(mut s) => {
                s.messages = messages;
                s.running = false;
                self.session = Some(s);
            },
            None => {
                self.session = None;
            },
        }
        match end {
            Ok(s) => object1("stopReason", Json::text(show_stop(s))),
            Err(e) => object1("error", Json::text(e.as_str())),
        }
    }
}

/// The system prompt inside an editor: the instructions and the skills, where there
/// are any, and then what is always said.
pub open spec fn editor_system(instructions: Option<Seq<char>>, skills: Option<Seq<char>>) -> Seq<
    SystemBlockView,
> {
    system_with(instructions, skills, "你是 tao,一个 Rust 编写的 coding agent。"@)
}

/// The system prompt inside an editor.
pub fn editor_blocks(instructions: &Option<String>, skills: &Option<String>) -> (r: Vec<SystemBlock>)
    ensures
        r.deep_view() == editor_system(instructions.deep_view(), skills.deep_view()),
{
    system_blocks_with(instructions, skills, "你是 tao,一个 Rust 编写的 coding agent。")
}

// ---- laws ----

/// Without a session nothing runs: a prompt is refused, and there is nothing to
/// interrupt.
pub proof fn law_no_session_no_turn(params: JsonView, version: Seq<char>)
    ensures
        acp_step(None, "session/prompt"@, params, version) == AcpStepView::Answer(
            obj1("error"@, JsonView::Text("no session"@)),
        ),
        acp_step(None, "session/cancel"@, params, version) == AcpStepView::Answer(JsonView::Null),
{
    reveal_strlit("initialize");
    reveal_strlit("session/new");
    reveal_strlit("session/prompt");
    reveal_strlit("session/cancel");
    assert("initialize"@.len() == 10 && "session/new"@.len() == 11 && "session/prompt"@.len() == 14
        && "session/cancel"@.len() == 14);
    assert("session/prompt"@[8] != "session/cancel"@[8]);
}

} // verus!
