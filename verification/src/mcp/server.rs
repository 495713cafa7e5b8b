//! The agent as a tool server: its own tools, and what callers are answered.
use vstd::prelude::*;
use vstd::string::*;

use crate::content::ReasoningEffort;
use crate::exec::request_of;
use crate::exec::system_blocks;
use crate::exec::system_of;
use crate::exec::turn_request;
use crate::form::Items;
use crate::form::obj2;
use crate::form::object2;
use crate::hooks::text_or_null;
use crate::ids::SessionId;
use crate::ids::TurnId;
use crate::json::Json;
use crate::json::JsonView;
use crate::json::Members;
use crate::json::json_pretty;
use crate::json::member;
use crate::json::pretty;
use crate::json::text_in;
use crate::mcp::client::empty_object;
use crate::model::ModelContent;
use crate::model::ModelContentView;
use crate::model::ModelMessage;
use crate::model::ModelMessageView;
use crate::model::ModelRequest;
use crate::order::largest_first;
use crate::order::lists_all;
use crate::order::newest_first;
use crate::providers::calls::or_text;
use crate::providers::calls::text_at;
use crate::providers::calls::text_or;
use crate::replay::SessionState;
use crate::replay::SessionStateView;
use crate::replay::replay;
use crate::replay::replayed;
use crate::server::StoredLog;
use crate::server::StoredLogView;
use crate::session::find_reply;
use crate::session::find_text;
use crate::session::first_text;
use crate::session::last_reply;
use crate::text::cat3;
use crate::text::cat;
use crate::text::join;
use crate::text::joined;
use crate::text::same;
use crate::text::views;
use crate::tools::ToolRegistry;

verus! {

/// What a caller is told first.
pub open spec fn initialized_object() -> JsonView {
    JsonView::Object(
        Map::empty().insert(
            "protocolVersion"@,
            JsonView::Text("2024-11-05"@),
        ).insert(
            "serverInfo"@,
            JsonView::Object(
                Map::empty().insert(
                    "name"@,
                    JsonView::Text("tao"@),
                ).insert(
                    "version"@,
                    JsonView::Text("0.1.0"@),
                ),
            ),
        ).insert(
            "capabilities"@,
            JsonView::Object(
                Map::empty().insert(
                    "tools"@,
                    JsonView::Object(Map::empty()),
                ),
            ),
        ),
    )
}

/// What a caller is told first.
pub fn initialized() -> (r: Json)
    ensures
        r@ == initialized_object(),
{
    {
        let mut m = Members::new();
        m.put("protocolVersion", Json::text("2024-11-05"));
        m.put("serverInfo", {
            let mut m = Members::new();
            m.put("name", Json::text("tao"));
            m.put("version", Json::text("0.1.0"));
            m.done()
        });
        m.put("capabilities", {
            let mut m = Members::new();
            m.put("tools", {
                let mut m = Members::new();
                m.done()
            });
            m.done()
        });
        m.done()
    }
}

/// The tool `list_sessions` as callers are told of it.
pub open spec fn list_sessions_tool_object() -> JsonView {
    JsonView::Object(
        Map::empty().insert(
            "name"@,
            JsonView::Text("list_sessions"@),
        ).insert(
            "description"@,
            JsonView::Text("列出本机 tao 会话(fork 树、标题、消息数、更新时间、体积)。默认列当前工作目录下的会话。"@),
        ).insert(
            "inputSchema"@,
            JsonView::Object(
                Map::empty().insert(
                    "type"@,
                    JsonView::Text("object"@),
                ).insert(
                    "properties"@,
                    JsonView::Object(
                        Map::empty().insert(
                            "cwd"@,
                            JsonView::Object(
                                Map::empty().insert(
                                    "type"@,
                                    JsonView::Text("string"@),
                                ).insert(
                                    "description"@,
                                    JsonView::Text("会话所在工作目录(默认服务进程当前目录)"@),
                                ),
                            ),
                        ),
                    ),
                ).insert(
                    "additionalProperties"@,
                    JsonView::Bool(false),
                ),
            ),
        ),
    )
}

/// The tool `list_sessions` as callers are told of it.
pub fn list_sessions_tool() -> (r: Json)
    ensures
        r@ == list_sessions_tool_object(),
{
    {
        let mut m = Members::new();
        m.put("name", Json::text("list_sessions"));
        m.put("description", Json::text("列出本机 tao 会话(fork 树、标题、消息数、更新时间、体积)。默认列当前工作目录下的会话。"));
        m.put("inputSchema", {
            let mut m = Members::new();
            m.put("type", Json::text("object"));
            m.put("properties", {
                let mut m = Members::new();
                m.put("cwd", {
                    let mut m = Members::new();
                    m.put("type", Json::text("string"));
                    m.put("description", Json::text("会话所在工作目录(默认服务进程当前目录)"));
                    m.done()
                });
                m.done()
            });
            m.put("additionalProperties", Json::Bool(false));
            m.done()
        });
        m.done()
    }
}

/// The tool `send_message` as callers are told of it.
pub open spec fn send_message_tool_object() -> JsonView {
    JsonView::Object(
        Map::empty().insert(
            "name"@,
            JsonView::Text("send_message"@),
        ).insert(
            "description"@,
            JsonView::Text("向 tao 发一条消息并跑一个 turn,返回 agent 的最终文本回复。可选 session_id 从已有会话 fork(继承历史)。权限模式 bypass,工具调用自动批准——仅用于受信任的本地自动化。"@),
        ).insert(
            "inputSchema"@,
            JsonView::Object(
                Map::empty().insert(
                    "type"@,
                    JsonView::Text("object"@),
                ).insert(
                    "properties"@,
                    JsonView::Object(
                        Map::empty().insert(
                            "message"@,
                            JsonView::Object(
                                Map::empty().insert(
                                    "type"@,
                                    JsonView::Text("string"@),
                                ).insert(
                                    "description"@,
                                    JsonView::Text("用户消息"@),
                                ),
                            ),
                        ).insert(
                            "cwd"@,
                            JsonView::Object(
                                Map::empty().insert(
                                    "type"@,
                                    JsonView::Text("string"@),
                                ).insert(
                                    "description"@,
                                    JsonView::Text("工作目录(默认当前目录)"@),
                                ),
                            ),
                        ).insert(
                            "session_id"@,
                            JsonView::Object(
                                Map::empty().insert(
                                    "type"@,
                                    JsonView::Text("string"@),
                                ).insert(
                                    "description"@,
                                    JsonView::Text("可选:从该会话 fork(继承历史),不传则新建会话"@),
                                ),
                            ),
                        ),
                    ),
                ).insert(
                    "required"@,
                    JsonView::List(Seq::empty().push(JsonView::Text("message"@))),
                ).insert(
                    "additionalProperties"@,
                    JsonView::Bool(false),
                ),
            ),
        ),
    )
}

/// The tool `send_message` as callers are told of it.
pub fn send_message_tool() -> (r: Json)
    ensures
        r@ == send_message_tool_object(),
{
    {
        let mut m = Members::new();
        m.put("name", Json::text("send_message"));
        m.put("description", Json::text("向 tao 发一条消息并跑一个 turn,返回 agent 的最终文本回复。可选 session_id 从已有会话 fork(继承历史)。权限模式 bypass,工具调用自动批准——仅用于受信任的本地自动化。"));
        m.put("inputSchema", {
            let mut m = Members::new();
            m.put("type", Json::text("object"));
            m.put("properties", {
                let mut m = Members::new();
                m.put("message", {
                    let mut m = Members::new();
                    m.put("type", Json::text("string"));
                    m.put("description", Json::text("用户消息"));
                    m.done()
                });
                m.put("cwd", {
                    let mut m = Members::new();
                    m.put("type", Json::text("string"));
                    m.put("description", Json::text("工作目录(默认当前目录)"));
                    m.done()
                });
                m.put("session_id", {
                    let mut m = Members::new();
                    m.put("type", Json::text("string"));
                    m.put("description", Json::text("可选:从该会话 fork(继承历史),不传则新建会话"));
                    m.done()
                });
                m.done()
            });
            m.put("required", {
                let mut l = Items::new();
                l.add(Json::text("message"));
                l.done()
            });
            m.put("additionalProperties", Json::Bool(false));
            m.done()
        });
        m.done()
    }
}

/// The tool `read_session` as callers are told of it.
pub open spec fn read_session_tool_object() -> JsonView {
    JsonView::Object(
        Map::empty().insert(
            "name"@,
            JsonView::Text("read_session"@),
        ).insert(
            "description"@,
            JsonView::Text("读取指定会话的完整 transcript(用户/助手/工具结果消息)。"@),
        ).insert(
            "inputSchema"@,
            JsonView::Object(
                Map::empty().insert(
                    "type"@,
                    JsonView::Text("object"@),
                ).insert(
                    "properties"@,
                    JsonView::Object(
                        Map::empty().insert(
                            "session_id"@,
                            JsonView::Object(
                                Map::empty().insert(
                                    "type"@,
                                    JsonView::Text("string"@),
                                ).insert(
                                    "description"@,
                                    JsonView::Text("会话 id"@),
                                ),
                            ),
                        ).insert(
                            "cwd"@,
                            JsonView::Object(
                                Map::empty().insert(
                                    "type"@,
                                    JsonView::Text("string"@),
                                ).insert(
                                    "description"@,
                                    JsonView::Text("工作目录(默认当前目录)"@),
                                ),
                            ),
                        ),
                    ),
                ).insert(
                    "required"@,
                    JsonView::List(Seq::empty().push(JsonView::Text("session_id"@))),
                ).insert(
                    "additionalProperties"@,
                    JsonView::Bool(false),
                ),
            ),
        ),
    )
}

/// The tool `read_session` as callers are told of it.
pub fn read_session_tool() -> (r: Json)
    ensures
        r@ == read_session_tool_object(),
{
    {
        let mut m = Members::new();
        m.put("name", Json::text("read_session"));
        m.put("description", Json::text("读取指定会话的完整 transcript(用户/助手/工具结果消息)。"));
        m.put("inputSchema", {
            let mut m = Members::new();
            m.put("type", Json::text("object"));
            m.put("properties", {
                let mut m = Members::new();
                m.put("session_id", {
                    let mut m = Members::new();
                    m.put("type", Json::text("string"));
                    m.put("description", Json::text("会话 id"));
                    m.done()
                });
                m.put("cwd", {
                    let mut m = Members::new();
                    m.put("type", Json::text("string"));
                    m.put("description", Json::text("工作目录(默认当前目录)"));
                    m.done()
                });
                m.done()
            });
            m.put("required", {
                let mut l = Items::new();
                l.add(Json::text("session_id"));
                l.done()
            });
            m.put("additionalProperties", Json::Bool(false));
            m.done()
        });
        m.done()
    }
}

/// The tools that callers are told of.
pub open spec fn tools_list_object() -> JsonView {
    JsonView::Object(
        Map::empty().insert(
            "tools"@,
            JsonView::List(Seq::empty().push(list_sessions_tool_object()).push(send_message_tool_object()).push(read_session_tool_object())),
        ),
    )
}

/// The tools that callers are told of.
pub fn tools_list() -> (r: Json)
    ensures
        r@ == tools_list_object(),
{
    {
        let mut m = Members::new();
        m.put("tools", {
            let mut l = Items::new();
            l.add(list_sessions_tool());
            l.add(send_message_tool());
            l.add(read_session_tool());
            l.done()
        });
        m.done()
    }
}

/// What a call comes to.
pub open spec fn text_result_object(text: Seq<char>) -> JsonView {
    JsonView::Object(
        Map::empty().insert(
            "content"@,
            JsonView::List(Seq::empty().push(JsonView::Object(
                Map::empty().insert(
                    "type"@,
                    JsonView::Text("text"@),
                ).insert(
                    "text"@,
                    JsonView::Text(text),
                ),
            ))),
        ).insert(
            "isError"@,
            JsonView::Bool(false),
        ),
    )
}

/// What a call comes to.
pub fn text_result(text: &str) -> (r: Json)
    ensures
        r@ == text_result_object(text@),
{
    {
        let mut m = Members::new();
        m.put("content", {
            let mut l = Items::new();
            l.add({
                let mut m = Members::new();
                m.put("type", Json::text("text"));
                m.put("text", Json::text(text));
                m.done()
            });
            l.done()
        });
        m.put("isError", Json::Bool(false));
        m.done()
    }
}

// ---- calls ----

/// The model of `ServerStep`.
pub enum ServerStepView {
    Answer(Result<JsonView, Seq<char>>),
    ListSessions { cwd: Option<Seq<char>> },
    SendMessage { message: Seq<char>, cwd: Option<Seq<char>>, fork_of: Option<Seq<char>> },
    ReadSession { session_id: Seq<char>, cwd: Option<Seq<char>> },
}

/// What is to be done for a call.
pub enum ServerStep {
    /// It is answered.
    Answer(Result<Json, String>),
    /// The sessions of a directory are looked for.
    ListSessions { cwd: Option<String> },
    /// A turn is run, in a session of its own or in a fork of another.
    SendMessage { message: String, cwd: Option<String>, fork_of: Option<String> },
    /// The log of a session is read.
    ReadSession { session_id: String, cwd: Option<String> },
}

impl DeepView for ServerStep {
    type V = ServerStepView;

    open spec fn deep_view(&self) -> ServerStepView {
        match *self {
            ServerStep::Answer(r) => ServerStepView::Answer(
                match r {
                    Ok(j) => Ok(j@),
                    Err(e) => Err(e@),
                },
            ),
            ServerStep::ListSessions { cwd } => ServerStepView::ListSessions {
                cwd: cwd.deep_view(),
            },
            ServerStep::SendMessage { message, cwd, fork_of } => ServerStepView::SendMessage {
                message: message@,
                cwd: cwd.deep_view(),
                fork_of: fork_of.deep_view(),
            },
            ServerStep::ReadSession { session_id, cwd } => ServerStepView::ReadSession {
                session_id: session_id@,
                cwd: cwd.deep_view(),
            },
        }
    }
}

/// A text member.
pub open spec fn text_member(j: JsonView, k: Seq<char>) -> Option<Seq<char>> {
    text_in(member(j, k))
}

/// What is to be done for a call of a tool.
pub open spec fn tool_step(params: JsonView) -> ServerStepView {
    let name = or_text(text_member(params, "name"@), ""@);
    let args = match member(params, "arguments"@) {
        Some(a) => a,
        None => JsonView::Object(Map::empty()),
    };
    let cwd = text_member(args, "cwd"@);
    if name == "list_sessions"@ {
        ServerStepView::ListSessions { cwd }
    } else if name == "send_message"@ {
        match text_member(args, "message"@) {
            Some(message) => ServerStepView::SendMessage {
                message,
                cwd,
                fork_of: text_member(args, "session_id"@),
            },
            None => ServerStepView::Answer(Err("缺少 message"@)),
        }
    } else if name == "read_session"@ {
        match text_member(args, "session_id"@) {
            Some(session_id) => ServerStepView::ReadSession { session_id, cwd },
            None => ServerStepView::Answer(Err("缺少 session_id"@)),
        }
    } else {
        ServerStepView::Answer(Err("未知工具: "@ + name))
    }
}

/// What is to be done for a call.
pub open spec fn server_step(method: Seq<char>, params: JsonView) -> ServerStepView {
    if method == "initialize"@ {
        ServerStepView::Answer(Ok(initialized_object()))
    } else if method == "notifications/initialized"@ {
        ServerStepView::Answer(Ok(JsonView::Null))
    } else if method == "tools/list"@ {
        ServerStepView::Answer(Ok(tools_list_object()))
    } else if method == "tools/call"@ {
        tool_step(params)
    } else {
        ServerStepView::Answer(Err("未知方法: "@ + method))
    }
}

fn tools_call(params: &Json) -> (r: ServerStep)
    ensures
        r.deep_view() == tool_step(params@),
{
    let name = text_or(text_at(params, "name"), "");
    let args = match params.get("arguments") {
        Some(a) => a.clone(),
        None => empty_object(),
    };
    let cwd = text_at(&args, "cwd");
    if same(name.as_str(), "list_sessions") {
        ServerStep::ListSessions { cwd }
    } else if same(name.as_str(), "send_message") {
        match text_at(&args, "message") {
            Some(message) => ServerStep::SendMessage {
                message,
                cwd,
                fork_of: text_at(&args, "session_id"),
            },
            None => ServerStep::Answer(Err("缺少 message".to_owned())),
        }
    } else if same(name.as_str(), "read_session") {
        match text_at(&args, "session_id") {
            Some(session_id) => ServerStep::ReadSession { session_id, cwd },
            None => ServerStep::Answer(Err("缺少 session_id".to_owned())),
        }
    } else {
        ServerStep::Answer(Err(cat("未知工具: ", name.as_str())))
    }
}

/// What is to be done for a call.
pub fn handle(method: &str, params: &Json) -> (r: ServerStep)
    ensures
        r.deep_view() == server_step(method@, params@),
{
    if same(method, "initialize") {
        ServerStep::Answer(Ok(initialized()))
    } else if same(method, "notifications/initialized") {
        ServerStep::Answer(Ok(Json::Null))
    } else if same(method, "tools/list") {
        ServerStep::Answer(Ok(tools_list()))
    } else if same(method, "tools/call") {
        tools_call(params)
    } else {
        ServerStep::Answer(Err(cat("未知方法: ", method)))
    }
}

/// The directory of a call: the one that is named, or the current one.
pub fn parse_cwd(args: &Json, current: Option<&str>) -> (r: String)
    ensures
        r@ == (match text_member(args@, "cwd"@) {
            Some(c) => c,
            None => match current {
                Some(d) => d@,
                None => "."@,
            },
        }),
{
    match text_at(args, "cwd") {
        Some(c) => c,
        None => match current {
            Some(d) => d.to_owned(),
            None => ".".to_owned(),
        },
    }
}

// ---- messages ----

/// The text of the first user's message that has any.
pub open spec fn first_user_text_of(s: Seq<ModelMessageView>) -> Option<Seq<char>>
    decreases s.len(),
{
    if s.len() == 0 {
        None
    } else {
        let rest = first_user_text_of(s.drop_first());
        match s[0] {
            ModelMessageView::User { content } => match first_text(content) {
                Some(t) => Some(t),
                None => rest,
            },
            _ => rest,
        }
    }
}

/// The text of the first user's message that has any.
pub fn first_user_text(v: &Vec<ModelMessage>) -> (r: Option<String>)
    ensures
        r.deep_view() == first_user_text_of(v.deep_view()),
{
    let ghost all = v.deep_view();
    let mut i: usize = 0;
    assert(all.skip(0) =~= all);
    while i < v.len()
        invariant
            i <= v@.len(),
            all == v.deep_view(),
            first_user_text_of(all) == first_user_text_of(all.skip(i as int)),
        decreases v@.len() - i,
    {
        assert(all.skip(i as int)[0] == v@[i as int].deep_view());
        assert(all.skip(i as int).drop_first() =~= all.skip(i + 1));
        match &v[i] {
            ModelMessage::User { content } => {
                let t = find_text(content);
                if t.is_some() {
                    return t;
                }
            },
            _ => {},
        }
        i = i + 1;
    }
    assert(all.skip(i as int) =~= Seq::<ModelMessageView>::empty());
    None
}

/// The texts of blocks.
pub open spec fn said_texts(s: Seq<ModelContentView>) -> Seq<Seq<char>>
    decreases s.len(),
{
    if s.len() == 0 {
        Seq::empty()
    } else {
        match s.last() {
            ModelContentView::Text(t) => said_texts(s.drop_last()).push(t),
            _ => said_texts(s.drop_last()),
        }
    }
}

/// The texts of blocks, with spaces between them.
pub fn collect_text(v: &Vec<ModelContent>) -> (r: String)
    ensures
        r@ == joined(said_texts(v.deep_view()), " "@),
{
    let ghost all = v.deep_view();
    let mut out: Vec<String> = Vec::new();
    let mut i: usize = 0;
    assert(views(out@) =~= said_texts(all.take(0)));
    while i < v.len()
        invariant
            i <= v@.len(),
            all == v.deep_view(),
            views(out@) == said_texts(all.take(i as int)),
        decreases v@.len() - i,
    {
        assert(all.take(i + 1).drop_last() =~= all.take(i as int));
        assert(all.take(i + 1).last() == v@[i as int].deep_view());
        let ghost before = views(out@);
        match &v[i] {
            ModelContent::Text(t) => {
                out.push(t.clone());
                assert(views(out@) =~= before.push(t@));
            },
            _ => {},
        }
        i = i + 1;
    }
    assert(all.take(all.len() as int) =~= all);
    join(&out, " ")
}

/// Who a message is from, and what it says.
pub open spec fn role_and_text(m: ModelMessageView) -> (Seq<char>, Seq<char>) {
    match m {
        ModelMessageView::User { content } => ("user"@, joined(said_texts(content), " "@)),
        ModelMessageView::Assistant { content } => (
            "assistant"@,
            joined(said_texts(content), " "@),
        ),
        ModelMessageView::ToolResult { content, is_error, .. } => (
            "tool"@,
            "["@ + (if is_error {
                "✗"@
            } else {
                "✓"@
            }) + "] "@ + joined(said_texts(content), " "@),
        ),
    }
}

/// Who a message is from, and what it says.
pub fn message_role_text(m: &ModelMessage) -> (r: (&'static str, String))
    ensures
        (r.0@, r.1@) == role_and_text(m.deep_view()),
{
    match m {
        ModelMessage::User { content } => ("user", collect_text(content)),
        ModelMessage::Assistant { content } => ("assistant", collect_text(content)),
        ModelMessage::ToolResult { content, is_error, .. } => {
            let mark = if *is_error {
                "✗"
            } else {
                "✓"
            };
            let t = collect_text(content);
            let head = cat3("[", mark, "] ");
            ("tool", cat(head.as_str(), t.as_str()))
        },
    }
}

/// A message as callers are told of it.
pub open spec fn message_object(m: ModelMessageView) -> JsonView {
    let (role, text) = role_and_text(m);
    obj2("role"@, JsonView::Text(role), "text"@, JsonView::Text(text))
}

/// What a session's log says, as callers are told of it.
pub fn transcript(messages: &Vec<ModelMessage>) -> (r: Json)
    ensures
        r@ == text_result_object(
            json_pretty(
                JsonView::List(
                    messages.deep_view().map_values(|m: ModelMessageView| message_object(m)),
                ),
            ),
        ),
{
    let ghost all = messages.deep_view().map_values(|m: ModelMessageView| message_object(m));
    let mut l = Items::new();
    let mut i: usize = 0;
    assert(all.take(0) =~= Seq::<JsonView>::empty());
    while i < messages.len()
        invariant
            i <= messages@.len(),
            all == messages.deep_view().map_values(|m: ModelMessageView| message_object(m)),
            l@ == all.take(i as int),
        decreases messages@.len() - i,
    {
        let (role, text) = message_role_text(&messages[i]);
        l.add(object2("role", Json::text(role), "text", Json::text(text.as_str())));
        assert(all.take(i + 1) =~= all.take(i as int).push(all[i as int]));
        i = i + 1;
    }
    assert(all.take(all.len() as int) =~= all);
    let t = pretty(&l.done());
    text_result(t.as_str())
}

/// What a message is answered: what the model said while the turn ran, or what it
/// said last.
pub fn reply(said: &str, messages: &Vec<ModelMessage>) -> (r: Json)
    ensures
        r@ == text_result_object(
            if said@.len() > 0 {
                said@
            } else {
                or_text(last_reply(messages.deep_view()), ""@)
            },
        ),
{
    if said.unicode_len() > 0 {
        text_result(said)
    } else {
        let t = text_or(find_reply(messages), "");
        text_result(t.as_str())
    }
}

// ---- sessions ----

/// The title of a session.
pub open spec fn title_of(s: SessionStateView) -> Seq<char> {
    match s.title {
        Some(t) => t,
        None => or_text(first_user_text_of(s.messages), "(无标题)"@),
    }
}

/// A session as callers are told of it.
pub open spec fn session_object(s: SessionStateView, f: StoredLogView) -> JsonView {
    JsonView::Object(
        Map::empty().insert("id"@, JsonView::Text(s.id)).insert("parent"@, text_or_null(s.parent)).insert(
            "title"@,
            JsonView::Text(title_of(s)),
        ).insert("messages"@, JsonView::Int(s.messages.len() as int)).insert(
            "updated_at_ms"@,
            JsonView::Int(f.updated_at_ms as int),
        ).insert("size_bytes"@, JsonView::Int(f.size_bytes as int)),
    )
}

/// The sessions whose logs can be replayed, with their ages.
pub open spec fn session_objects(s: Seq<StoredLogView>) -> Seq<(u64, JsonView)>
    decreases s.len(),
{
    if s.len() == 0 {
        Seq::empty()
    } else {
        match replayed(s.last().text) {
            Ok(x) => session_objects(s.drop_last()).push(
                (s.last().updated_at_ms, session_object(x, s.last())),
            ),
            Err(_) => session_objects(s.drop_last()),
        }
    }
}

/// Ages.
pub open spec fn keys_of(s: Seq<(u64, JsonView)>) -> Seq<u64> {
    Seq::new(s.len(), |i: int| s[i].0)
}

/// Whether `r` is what `s` holds with the newest first, and those of the same age in
/// the order in which they came.
pub open spec fn newest_listed_first(r: Seq<JsonView>, s: Seq<(u64, JsonView)>) -> bool {
    exists|order: Seq<usize>| #[trigger]
        largest_first(order, keys_of(s)) && r == Seq::new(
            s.len(),
            |i: int| s[order[i] as int].1,
        )
}

fn describe_session(s: &SessionState, f: &StoredLog) -> (r: Json)
    ensures
        r@ == session_object(s.deep_view(), f.deep_view()),
{
    let title = match &s.title {
        Some(t) => t.clone(),
        None => text_or(first_user_text(&s.messages), "(无标题)"),
    };
    let mut m = Members::new();
    m.put_text("id", s.id.as_str());
    match &s.parent {
        Some(p) => m.put_text("parent", p.as_str()),
        None => m.put("parent", Json::Null),
    }
    m.put_text("title", title.as_str());
    m.put("messages", Json::Unsigned(s.messages.len() as u64));
    m.put("updated_at_ms", Json::Unsigned(f.updated_at_ms));
    m.put("size_bytes", Json::Unsigned(f.size_bytes));
    assert(s.deep_view().messages.len() == s.messages@.len());
    m.done()
}

/// The sessions of a directory, the newest first, as callers are told of them.
pub fn sessions(files: &Vec<StoredLog>) -> (r: Json)
    ensures
        exists|list: Seq<JsonView>| #[trigger]
            newest_listed_first(list, session_objects(files.deep_view())) && r@
                == text_result_object(json_pretty(JsonView::List(list))),
{
    let ghost all = files.deep_view();
    let mut found: Vec<Json> = Vec::new();
    let mut keys: Vec<u64> = Vec::new();
    let mut i: usize = 0;
    assert(session_objects(all.take(0)) =~= Seq::<(u64, JsonView)>::empty());
    while i < files.len()
        invariant
            i <= files@.len(),
            all == files.deep_view(),
            keys@.len() == found@.len(),
            session_objects(all.take(i as int)).len() == found@.len(),
            forall|k: int|
                0 <= k < found@.len() ==> #[trigger] session_objects(all.take(i as int))[k] == (
                    keys@[k],
                    found@[k]@,
                ),
        decreases files@.len() - i,
    {
        assert(all.take(i + 1).drop_last() =~= all.take(i as int));
        assert(all.take(i + 1).last() == files@[i as int].deep_view());
        match replay(files[i].text.as_str()) {
            Ok(s) => {
                found.push(describe_session(&s, &files[i]));
                keys.push(files[i].updated_at_ms);
            },
            Err(_) => {},
        }
        i = i + 1;
    }
    assert(all.take(all.len() as int) =~= all);
    let ghost s = session_objects(all);
    assert(keys@ =~= keys_of(s));
    let order = newest_first(&keys);
    let ghost list = Seq::new(s.len(), |i: int| s[order@[i] as int].1);
    let mut l = Items::new();
    let mut j: usize = 0;
    assert(list.take(0) =~= Seq::<JsonView>::empty());
    while j < order.len()
        invariant
            j <= order@.len(),
            order@.len() == found@.len(),
            s.len() == found@.len(),
            lists_all(order@, found@.len()),
            forall|k: int| 0 <= k < found@.len() ==> #[trigger] s[k] == (keys@[k], found@[k]@),
            list == Seq::new(s.len(), |i: int| s[order@[i] as int].1),
            l@ == list.take(j as int),
        decreases order@.len() - j,
    {
        l.add(found[order[j]].clone());
        assert(list.take(j + 1) =~= list.take(j as int).push(list[j as int]));
        j = j + 1;
    }
    assert(list.take(list.len() as int) =~= list);
    assert(newest_listed_first(list, s));
    let t = pretty(&l.done());
    text_result(t.as_str())
}

/// What callers are told where there are no sessions yet.
pub fn no_sessions() -> (r: Json)
    ensures
        r@ == text_result_object("[]"@),
{
    text_result("[]")
}

/// The request of a message that came through a tool. What the project and its skills
/// say goes with it.
pub fn message_request(
    model: &str,
    instructions: &Option<String>,
    skills: &Option<String>,
    tools: &ToolRegistry,
    reasoning: Option<ReasoningEffort>,
    session_id: &SessionId,
    turn_id: &TurnId,
) -> (r: ModelRequest)
    ensures
        r.deep_view() == request_of(
            model@,
            system_of(instructions.deep_view(), skills.deep_view()),
            tools.deep_view(),
            reasoning,
            session_id.deep_view(),
            turn_id.deep_view(),
        ),
{
    turn_request(
        model,
        system_blocks(instructions, skills),
        tools.specs(),
        reasoning,
        session_id,
        turn_id,
    )
}

} // verus!
