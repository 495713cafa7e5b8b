//! What is said to editors, to tool servers and to their clients.
use vstd::prelude::*;

use crate::acp::AcpSessionView;
use crate::acp::AcpStepView;
use crate::acp::acp_step;
use crate::acp::update_for;
use crate::content::StopReason;
use crate::json::JsonView;
use crate::json::json_read;
use crate::json::json_text;
use crate::json::member;
use crate::mcp::client::McpToolInfoView;
use crate::mcp::client::answer_texts;
use crate::mcp::client::call_params_object;
use crate::mcp::client::hits_among;
use crate::mcp::client::loaded;
use crate::mcp::client::lower;
use crate::mcp::client::search_tool;
use crate::mcp::client::tool_in;
use crate::mcp::client::tool_of;
use crate::mcp::client::tools_listed;
use crate::model::ToolSpecView;
use crate::rpc::CallView;
use crate::rpc::ReplyView;
use crate::rpc::answer_to;
use crate::rpc::call_in;
use crate::rpc::failure_object;
use crate::rpc::notification_object;
use crate::rpc::outcome_in;
use crate::rpc::request_object;
use crate::rpc::response_object;
use crate::session::TurnEventView;
use crate::text::occurs;
use crate::text::trimmed;
use crate::tools::registered;

verus! {

/// A request carries its id, method and parameters; a notification has no id; an answer
/// carries the id of its call and either a result or an error with its message.
pub proof fn law_messages_carry_their_parts(
    id: u64,
    method: Seq<char>,
    params: JsonView,
    call: JsonView,
    message: Seq<char>,
)
    ensures
        ({
            let r = request_object(id, method, params);
            &&& member(r, "jsonrpc"@) == Some(JsonView::Text("2.0"@))
            &&& member(r, "id"@) == Some(JsonView::Int(id as int))
            &&& member(r, "method"@) == Some(JsonView::Text(method))
            &&& member(r, "params"@) == Some(params)
        }),
        ({
            let n = notification_object(method, params);
            &&& member(n, "jsonrpc"@) == Some(JsonView::Text("2.0"@))
            &&& member(n, "id"@) is None
            &&& member(n, "method"@) == Some(JsonView::Text(method))
            &&& member(n, "params"@) == Some(params)
        }),
        ({
            let a = response_object(call, params);
            &&& member(a, "jsonrpc"@) == Some(JsonView::Text("2.0"@))
            &&& member(a, "id"@) == Some(call)
            &&& member(a, "result"@) == Some(params)
            &&& member(a, "error"@) is None
        }),
        ({
            let f = failure_object(call, message);
            &&& member(f, "jsonrpc"@) == Some(JsonView::Text("2.0"@))
            &&& member(f, "id"@) == Some(call)
            &&& member(f, "result"@) is None
            &&& member(f, "error"@) matches Some(e) && member(e, "code"@) == Some(
                JsonView::Int(-32603),
            ) && member(e, "message"@) == Some(JsonView::Text(message))
        }),
{
    reveal_strlit("jsonrpc");
    reveal_strlit("id");
    reveal_strlit("method");
    reveal_strlit("params");
    reveal_strlit("result");
    reveal_strlit("error");
    assert("jsonrpc"@.len() == 7 && "id"@.len() == 2 && "method"@.len() == 6 && "params"@.len() == 6 && "result"@.len() == 6 && "error"@.len() == 5);
    assert("method"@[0] != "params"@[0]);
    assert("method"@[0] != "result"@[0]);
    assert("params"@[0] != "result"@[0]);
    reveal_strlit("code");
    reveal_strlit("message");
    assert("code"@.len() == 4 && "message"@.len() == 7);
}

/// A line is read as the call that was written: with its id, method and parameters. Blank
/// lines and lines that are no JSON are no calls.
pub proof fn law_calls_are_read(line: Seq<char>, id: u64, method: Seq<char>, params: JsonView)
    ensures
        trimmed(line).len() > 0 && json_read(trimmed(line)) == Some(request_object(id, method, params))
            ==> call_in(line) == Some(
            CallView { id: Some(JsonView::Int(id as int)), method, params },
        ),
        trimmed(line).len() > 0 && json_read(trimmed(line)) == Some(
            notification_object(method, params),
        ) ==> call_in(line) == Some(CallView { id: None, method, params }),
        trimmed(line).len() == 0 || json_read(trimmed(line)) is None ==> call_in(line) is None,
{
    law_messages_carry_their_parts(id, method, params, params, method);
}

/// What is answered to a call is its result or its failure, on a line of its own; nothing
/// is answered to a notification.
pub proof fn law_answers_are_lines(id: JsonView, result: JsonView, message: Seq<char>)
    ensures
        answer_to(Some(id), Ok(result)) == Some(json_text(response_object(id, result)) + "\n"@),
        answer_to(Some(id), Err(message)) == Some(json_text(failure_object(id, message)) + "\n"@),
        answer_to(None, Ok(result)) is None && answer_to(None, Err(message)) is None,
{
}

/// An error among the members of a reply makes it a failure, whatever else is there.
pub proof fn law_errors_in_replies_count(j: JsonView, e: JsonView, v: JsonView)
    ensures
        member(j, "error"@) == Some(e) ==> outcome_in(j) == ReplyView::Failed(
            "MCP 错误: "@ + json_text(e),
        ),
        member(j, "error"@) is None && member(j, "result"@) == Some(v) ==> outcome_in(j)
            == ReplyView::Done(v),
{
}

// ---- editors ----

/// What is told under a session's updates.
pub open spec fn news(u: Option<JsonView>, session: Seq<char>) -> Option<JsonView> {
    match u {
        Some(j) => if member(j, "method"@) == Some(JsonView::Text("session/update"@)) {
            match member(j, "params"@) {
                Some(p) => if member(p, "sessionId"@) == Some(JsonView::Text(session)) {
                    member(p, "update"@)
                } else {
                    None
                },
                None => None,
            }
        } else {
            None
        },
        None => None,
    }
}

/// An editor is told each piece of text, each call as it begins and as it ends, whether it
/// went well and what came of it, and the end of the turn.
pub proof fn law_editors_are_told(
    session: Seq<char>,
    text: Seq<char>,
    call_id: Seq<char>,
    tool: Seq<char>,
    ok: bool,
    summary: Seq<char>,
)
    ensures
        news(update_for(session, TurnEventView::TextDelta(text)), session) matches Some(n)
            && member(n, "type"@) == Some(JsonView::Text("agent_message_chunk"@)) && (member(
            n,
            "content"@,
        ) matches Some(c) && member(c, "type"@) == Some(JsonView::Text("text"@)) && member(c, "text"@)
            == Some(JsonView::Text(text))),
        news(update_for(session, TurnEventView::ToolCallBegin { call_id, tool }), session) matches Some(n)
            && member(n, "type"@) == Some(JsonView::Text("tool_call"@)) && member(n, "tool_name"@)
            == Some(JsonView::Text(tool)) && member(n, "call_id"@) == Some(JsonView::Text(call_id))
            && member(n, "state"@) == Some(JsonView::Text("running"@)),
        news(update_for(session, TurnEventView::ToolExecEnd { call_id, ok, summary }), session) matches Some(n)
            && member(n, "type"@) == Some(JsonView::Text("tool_call_update"@)) && member(n, "call_id"@)
            == Some(JsonView::Text(call_id)) && member(n, "state"@) == Some(
            JsonView::Text(
                if ok {
                    "completed"@
                } else {
                    "failed"@
                },
            ),
        ) && (member(n, "output"@) matches Some(o) && member(o, "text"@) == Some(
            JsonView::Text(summary),
        )),
{
    reveal_strlit("jsonrpc");
    reveal_strlit("method");
    reveal_strlit("params");
    assert("jsonrpc"@.len() == 7 && "method"@.len() == 6 && "params"@.len() == 6);
    assert("method"@[0] != "params"@[0]);
    reveal_strlit("sessionId");
    reveal_strlit("update");
    assert("sessionId"@.len() == 9 && "update"@.len() == 6);
    reveal_strlit("type");
    reveal_strlit("content");
    reveal_strlit("text");
    reveal_strlit("tool_name");
    reveal_strlit("call_id");
    reveal_strlit("state");
    reveal_strlit("output");
    assert("type"@.len() == 4 && "content"@.len() == 7 && "text"@.len() == 4 && "tool_name"@.len() == 9 && "call_id"@.len() == 7 && "state"@.len() == 5 && "output"@.len() == 6);
    assert("type"@[1] != "text"@[1]);
    assert("content"@[1] != "call_id"@[1]);
}

/// The end of a turn is told with the reason, by a name of its own for each.
pub proof fn law_editors_are_told_the_end(session: Seq<char>, ev: TurnEventView, stop: StopReason)
    requires
        ev is TurnComplete,
        ev->TurnComplete_stop_reason == stop,
    ensures
        news(update_for(session, ev), session) matches Some(n) && member(n, "type"@) == Some(
            JsonView::Text("stop"@),
        ) && member(n, "stop_reason"@) == Some(
            JsonView::Text(
                match stop {
                    StopReason::EndTurn => "endturn"@,
                    StopReason::MaxTokens => "maxtokens"@,
                    StopReason::ToolUse => "tooluse"@,
                    StopReason::Refused => "refused"@,
                    StopReason::Interrupted => "interrupted"@,
                    StopReason::Error => "error"@,
                    StopReason::MaxSteps => "maxsteps"@,
                },
            ),
        ),
{
    reveal_strlit("jsonrpc");
    reveal_strlit("method");
    reveal_strlit("params");
    assert("jsonrpc"@.len() == 7 && "method"@.len() == 6 && "params"@.len() == 6);
    assert("method"@[0] != "params"@[0]);
    reveal_strlit("sessionId");
    reveal_strlit("update");
    assert("sessionId"@.len() == 9 && "update"@.len() == 6);
    reveal_strlit("type");
    reveal_strlit("stop_reason");
    assert("type"@.len() == 4 && "stop_reason"@.len() == 11);
}

/// An editor opens a session in a directory, prompts it with the first text of its message,
/// and cancels only what runs; other methods are answered with nothing.
pub proof fn law_editors_ask(
    s: Option<AcpSessionView>,
    method: Seq<char>,
    params: JsonView,
    version: Seq<char>,
    cwd: Seq<char>,
    list: Seq<JsonView>,
    text: Seq<char>,
)
    ensures
        member(params, "cwd"@) == Some(JsonView::Text(cwd)) ==> acp_step(
            s,
            "session/new"@,
            params,
            version,
        ) == (AcpStepView::Open { cwd }),
        member(params, "cwd"@) is None ==> acp_step(s, "session/new"@, params, version) == (
        AcpStepView::Open { cwd: "."@ }),
        s is Some && member(params, "message"@) == Some(JsonView::List(list)) && list.len() > 0
            && member(list[0], "text"@) == Some(JsonView::Text(text)) ==> acp_step(
            s,
            "session/prompt"@,
            params,
            version,
        ) == (AcpStepView::Prompt { text }),
        s is Some && s->0.running ==> acp_step(s, "session/cancel"@, params, version) is Cancel,
        s is Some && !s->0.running ==> acp_step(s, "session/cancel"@, params, version)
            == AcpStepView::Answer(JsonView::Null),
        method != "initialize"@ && method != "session/new"@ && method != "session/prompt"@ && method
            != "session/cancel"@ ==> acp_step(s, method, params, version) == AcpStepView::Answer(
            JsonView::Null,
        ),
        acp_step(s, "initialize"@, params, version) matches AcpStepView::Answer(a) && (member(a, "agent"@) matches Some(g)
            && member(g, "name"@) == Some(JsonView::Text("tao"@)) && member(g, "version"@) == Some(
            JsonView::Text(version),
        )),
{
    reveal_strlit("initialize");
    reveal_strlit("session/new");
    reveal_strlit("session/prompt");
    reveal_strlit("session/cancel");
    assert("initialize"@.len() == 10 && "session/new"@.len() == 11 && "session/prompt"@.len() == 14 && "session/cancel"@.len() == 14);
    assert("session/prompt"@[8] != "session/cancel"@[8]);
    reveal_strlit("protocolVersion");
    reveal_strlit("agent");
    reveal_strlit("capabilities");
    assert("protocolVersion"@.len() == 15 && "agent"@.len() == 5 && "capabilities"@.len() == 12);
    reveal_strlit("name");
    reveal_strlit("version");
    assert("name"@.len() == 4 && "version"@.len() == 7);
}

// ---- tool servers ----

/// A tool of a server is offered under the server's name and its own, as the server
/// describes it.
pub proof fn law_served_tools_are_offered(server: Seq<char>, j: JsonView, name: Seq<char>, d: Seq<char>, schema: JsonView)
    requires
        member(j, "name"@) == Some(JsonView::Text(name)),
        member(j, "description"@) == Some(JsonView::Text(d)),
        member(j, "inputSchema"@) == Some(schema),
    ensures
        tool_of(server, tool_in(j)) == (ToolSpecView {
            name: "mcp__"@ + server + "__"@ + name,
            description: d,
            schema,
        }),
{
}

/// Every tool of a server's list is taken, in order.
pub proof fn law_lists_of_tools_are_read(result: JsonView, list: Seq<JsonView>, i: int)
    requires
        member(result, "tools"@) == Some(JsonView::List(list)),
    ensures
        tools_listed(result).len() == list.len(),
        0 <= i < list.len() ==> tools_listed(result)[i] == tool_in(list[i]),
{
}

/// A call to a server names the tool and hands on its arguments.
pub proof fn law_served_calls_are_handed_on(name: Seq<char>, args: JsonView)
    ensures
        member(call_params_object(name, args), "name"@) == Some(JsonView::Text(name)),
        member(call_params_object(name, args), "arguments"@) == Some(args),
{
    reveal_strlit("name");
    reveal_strlit("arguments");
    assert("name"@.len() == 4 && "arguments"@.len() == 9);
}

/// Of an answer the texts count, in order; anything else in it is passed over.
pub proof fn law_texts_of_answers_count(s: Seq<JsonView>, j: JsonView, t: Seq<char>)
    ensures
        answer_texts(Seq::empty()) == Seq::<Seq<char>>::empty(),
        member(j, "type"@) == Some(JsonView::Text("text"@)) && member(j, "text"@) == Some(
            JsonView::Text(t),
        ) ==> answer_texts(s.push(j)) == answer_texts(s).push(t),
        member(j, "type"@) != Some(JsonView::Text("text"@)) ==> answer_texts(s.push(j))
            == answer_texts(s),
{
    assert(s.push(j).drop_last() =~= s);
}

/// A search finds the tools whose name or description holds the words asked for, whatever
/// their case, and shows each with its full name and its schema.
pub proof fn law_searches_find_by_name_or_description(
    query: Seq<char>,
    server: Seq<char>,
    s: Seq<McpToolInfoView>,
    t: McpToolInfoView,
)
    requires
        lower(query).len() > 0,
    ensures
        hits_among(query, server, Seq::empty()) == Seq::<Seq<char>>::empty(),
        occurs(lower(t.name), lower(query)) || occurs(lower(t.description), lower(query))
            ==> hits_among(query, server, s.push(t)) == hits_among(query, server, s).push(
            "mcp__"@ + server + "__"@ + t.name + " — "@ + t.description + "\n  schema: "@ + json_text(
                t.input_schema,
            ),
        ),
        !occurs(lower(t.name), lower(query)) && !occurs(lower(t.description), lower(query))
            ==> hits_among(query, server, s.push(t)) == hits_among(query, server, s),
{
    assert(s.push(t).drop_last() =~= s);
}

/// Without a budget every tool of a server is registered under its full name, one after the
/// other; with one, the tool that would exceed it makes room for the search.
pub proof fn law_tools_are_loaded_in_order(
    reg: Seq<ToolSpecView>,
    total: nat,
    server: Seq<char>,
    t: McpToolInfoView,
    rest: Seq<McpToolInfoView>,
    budget: nat,
)
    ensures
        loaded(reg, total, server, Seq::empty(), budget) == (reg, total, false),
        budget == 0 || total < budget ==> loaded(reg, total, server, seq![t] + rest, budget)
            == loaded(registered(reg, tool_of(server, t)), total + 1, server, rest, budget),
        budget > 0 && total >= budget ==> loaded(reg, total, server, seq![t] + rest, budget) == (
            registered(reg, search_tool()),
            total,
            true,
        ),
{
    assert((seq![t] + rest).drop_first() =~= rest);
    assert((seq![t] + rest)[0] == t);
}

} // verus!
