//! What the agent offers as a tool server.
use vstd::prelude::*;

use crate::json::JsonView;
use crate::json::member;
use crate::laws::messages_api::listed;
use crate::mcp::server::ServerStepView;
use crate::mcp::server::first_user_text_of;
use crate::mcp::server::message_object;
use crate::mcp::server::said_texts;
use crate::mcp::server::server_step;
use crate::mcp::server::session_object;
use crate::mcp::server::text_result_object;
use crate::model::ModelContentView;
use crate::model::ModelMessageView;
use crate::replay::SessionStateView;
use crate::server::StoredLogView;
use crate::session::first_text;

verus! {

/// A tool is called by its name with what it needs; without that, and by any other name, the
/// call fails with a reason.
pub proof fn law_own_tools_are_called(
    params: JsonView,
    args: JsonView,
    name: Seq<char>,
    message: Seq<char>,
    id: Seq<char>,
)
    requires
        member(params, "name"@) == Some(JsonView::Text(name)),
        member(params, "arguments"@) == Some(args),
    ensures
        ({
            let step = server_step("tools/call"@, params);
            let cwd = match member(args, "cwd"@) {
                Some(JsonView::Text(c)) => Some(c),
                _ => None,
            };
            &&& name == "list_sessions"@ ==> step == (ServerStepView::ListSessions { cwd })
            &&& name == "send_message"@ && member(args, "message"@) == Some(JsonView::Text(message))
                && member(args, "session_id"@) == Some(JsonView::Text(id)) ==> step == (
            ServerStepView::SendMessage { message, cwd, fork_of: Some(id) })
            &&& name == "send_message"@ && member(args, "message"@) == Some(JsonView::Text(message))
                && member(args, "session_id"@) is None ==> step == (ServerStepView::SendMessage {
                message,
                cwd,
                fork_of: None,
            })
            &&& name == "send_message"@ && member(args, "message"@) is None ==> (step matches ServerStepView::Answer(r)
                && r is Err)
            &&& name == "read_session"@ && member(args, "session_id"@) == Some(JsonView::Text(id))
                ==> step == (ServerStepView::ReadSession { session_id: id, cwd })
            &&& name == "read_session"@ && member(args, "session_id"@) is None ==> (step matches ServerStepView::Answer(r)
                && r is Err)
            &&& name != "list_sessions"@ && name != "send_message"@ && name != "read_session"@
                ==> step == ServerStepView::Answer(Err("未知工具: "@ + name))
        }),
{
    reveal_strlit("initialize");
    reveal_strlit("notifications/initialized");
    reveal_strlit("tools/list");
    reveal_strlit("tools/call");
    assert("initialize"@.len() == 10 && "notifications/initialized"@.len() == 25 && "tools/list"@.len() == 10 && "tools/call"@.len() == 10);
    assert("initialize"@[0] != "tools/list"@[0]);
    assert("initialize"@[0] != "tools/call"@[0]);
    assert("tools/list"@[6] != "tools/call"@[6]);
    reveal_strlit("list_sessions");
    reveal_strlit("send_message");
    reveal_strlit("read_session");
    assert("list_sessions"@.len() == 13 && "send_message"@.len() == 12 && "read_session"@.len() == 12);
    assert("send_message"@[0] != "read_session"@[0]);
}

/// The tools are listed by name: sessions can be listed and read, and a message can be sent.
/// A method that is not known is refused.
pub proof fn law_own_tools_are_listed(params: JsonView, method: Seq<char>)
    ensures
        server_step("tools/list"@, params) matches ServerStepView::Answer(Ok(j)) && {
            let t = listed(j, "tools"@);
            &&& t.len() == 3
            &&& member(t[0], "name"@) == Some(JsonView::Text("list_sessions"@))
            &&& member(t[1], "name"@) == Some(JsonView::Text("send_message"@))
            &&& member(t[2], "name"@) == Some(JsonView::Text("read_session"@))
        },
        method != "initialize"@ && method != "notifications/initialized"@ && method != "tools/list"@
            && method != "tools/call"@ ==> server_step(method, params) == ServerStepView::Answer(
            Err("未知方法: "@ + method),
        ),
        server_step("notifications/initialized"@, params) == ServerStepView::Answer(
            Ok(JsonView::Null),
        ),
        server_step("initialize"@, params) matches ServerStepView::Answer(Ok(j)) && (member(j, "serverInfo"@) matches Some(i)
            && member(i, "name"@) == Some(JsonView::Text("tao"@))),
{
    reveal_strlit("initialize");
    reveal_strlit("notifications/initialized");
    reveal_strlit("tools/list");
    reveal_strlit("tools/call");
    assert("initialize"@.len() == 10 && "notifications/initialized"@.len() == 25 && "tools/list"@.len() == 10 && "tools/call"@.len() == 10);
    assert("initialize"@[0] != "tools/list"@[0]);
    assert("initialize"@[0] != "tools/call"@[0]);
    assert("tools/list"@[6] != "tools/call"@[6]);
    reveal_strlit("name");
    reveal_strlit("description");
    reveal_strlit("inputSchema");
    assert("name"@.len() == 4 && "description"@.len() == 11 && "inputSchema"@.len() == 11);
    assert("description"@[0] != "inputSchema"@[0]);
    reveal_strlit("protocolVersion");
    reveal_strlit("serverInfo");
    reveal_strlit("capabilities");
    reveal_strlit("version");
    assert("protocolVersion"@.len() == 15 && "serverInfo"@.len() == 10 && "capabilities"@.len() == 12 && "version"@.len() == 7);
}

/// A text is returned as one block, and as no error.
pub proof fn law_texts_are_returned(text: Seq<char>)
    ensures
        ({
            let j = text_result_object(text);
            &&& member(j, "isError"@) == Some(JsonView::Bool(false))
            &&& listed(j, "content"@).len() == 1
            &&& member(listed(j, "content"@)[0], "type"@) == Some(JsonView::Text("text"@))
            &&& member(listed(j, "content"@)[0], "text"@) == Some(JsonView::Text(text))
        }),
{
    reveal_strlit("content");
    reveal_strlit("isError");
    reveal_strlit("type");
    reveal_strlit("text");
    assert("content"@.len() == 7 && "isError"@.len() == 7 && "type"@.len() == 4 && "text"@.len() == 4);
    assert("content"@[0] != "isError"@[0]);
    assert("type"@[1] != "text"@[1]);
}

/// A message is read by its role and its texts; of a result it is told whether it is an error.
pub proof fn law_messages_are_told_by_role(
    t: Seq<char>,
    call_id: Seq<char>,
    is_error: bool,
)
    ensures
        ({
            let c = seq![ModelContentView::Text(t)];
            let u = message_object(ModelMessageView::User { content: c });
            let a = message_object(ModelMessageView::Assistant { content: c });
            let r = message_object(ModelMessageView::ToolResult { call_id, content: c, is_error });
            &&& member(u, "role"@) == Some(JsonView::Text("user"@)) && member(u, "text"@) == Some(
                JsonView::Text(t),
            )
            &&& member(a, "role"@) == Some(JsonView::Text("assistant"@)) && member(a, "text"@) == Some(
                JsonView::Text(t),
            )
            &&& member(r, "role"@) == Some(JsonView::Text("tool"@)) && member(r, "text"@) == Some(
                JsonView::Text(
                    "["@ + (if is_error {
                        "✗"@
                    } else {
                        "✓"@
                    }) + "] "@ + t,
                ),
            )
        }),
{
    reveal_strlit("role");
    reveal_strlit("text");
    assert("role"@.len() == 4 && "text"@.len() == 4);
    assert("role"@[0] != "text"@[0]);
    let c = seq![ModelContentView::Text(t)];
    assert(c.drop_last() =~= Seq::<ModelContentView>::empty());
    assert(said_texts(c.drop_last()) =~= Seq::<Seq<char>>::empty());
    assert(c.last() == ModelContentView::Text(t));
    assert(said_texts(c) =~= seq![t]);
}

/// The texts of a message are picked out in order; nothing else of it is told.
pub proof fn law_texts_of_messages_are_picked_out(s: Seq<ModelContentView>, c: ModelContentView)
    ensures
        said_texts(Seq::empty()) == Seq::<Seq<char>>::empty(),
        c matches ModelContentView::Text(t) ==> said_texts(s.push(c)) == said_texts(s).push(t),
        !(c is Text) ==> said_texts(s.push(c)) == said_texts(s),
{
    assert(s.push(c).drop_last() =~= s);
}

/// A session is told by its id, what it was forked from, its title or else the first words of
/// the user, how many messages it has, when it changed and how large it is.
pub proof fn law_sessions_are_told(s: SessionStateView, f: StoredLogView, t: Seq<char>, rest: Seq<ModelContentView>, more: Seq<ModelMessageView>)
    ensures
        ({
            let j = session_object(s, f);
            &&& member(j, "id"@) == Some(JsonView::Text(s.id))
            &&& member(j, "parent"@) == Some(
                match s.parent {
                    Some(p) => JsonView::Text(p),
                    None => JsonView::Null,
                },
            )
            &&& member(j, "messages"@) == Some(JsonView::Int(s.messages.len() as int))
            &&& member(j, "updated_at_ms"@) == Some(JsonView::Int(f.updated_at_ms as int))
            &&& member(j, "size_bytes"@) == Some(JsonView::Int(f.size_bytes as int))
            &&& s.title matches Some(title) ==> member(j, "title"@) == Some(JsonView::Text(title))
            &&& s.title is None && s.messages == seq![
                ModelMessageView::User { content: seq![ModelContentView::Text(t)] + rest },
            ] + more ==> member(j, "title"@) == Some(JsonView::Text(t))
        }),
{
    reveal_strlit("id");
    reveal_strlit("parent");
    reveal_strlit("title");
    reveal_strlit("messages");
    reveal_strlit("updated_at_ms");
    reveal_strlit("size_bytes");
    assert("id"@.len() == 2 && "parent"@.len() == 6 && "title"@.len() == 5 && "messages"@.len() == 8 && "updated_at_ms"@.len() == 13 && "size_bytes"@.len() == 10);
    let c = seq![ModelContentView::Text(t)] + rest;
    assert(c[0] == ModelContentView::Text(t));
    reveal_with_fuel(first_text, 2);
    reveal_with_fuel(first_user_text_of, 2);
    let all = seq![ModelMessageView::User { content: c }] + more;
    assert(all[0] == ModelMessageView::User { content: c });
}

} // verus!
