//! Calls and answers as JSON-RPC has them, one to a line.
use vstd::prelude::*;
use vstd::string::*;

use crate::json::Json;
use crate::json::JsonView;
use crate::json::Members;
use crate::json::json_read;
use crate::json::json_refusal;
use crate::json::json_text;
use crate::json::member;
use crate::json::parse;
use crate::json::print;
use crate::json::text_in;
use crate::providers::calls::or_text;
use crate::providers::calls::text_at;
use crate::providers::calls::text_or;
use crate::text::cat;
use crate::text::trim;
use crate::text::trimmed;

verus! {

/// The code of every error.
pub const ERR_INTERNAL: i64 = -32603;

/// A call that is answered.
pub open spec fn request_object(id: u64, method: Seq<char>, params: JsonView) -> JsonView {
    JsonView::Object(
        Map::empty().insert(
            "jsonrpc"@,
            JsonView::Text("2.0"@),
        ).insert(
            "id"@,
            JsonView::Int(id as int),
        ).insert(
            "method"@,
            JsonView::Text(method),
        ).insert(
            "params"@,
            params,
        ),
    )
}

/// A call that is answered.
pub fn request(id: u64, method: &str, params: Json) -> (r: Json)
    ensures
        r@ == request_object(id, method@, params@),
{
    {
        let mut m = Members::new();
        m.put("jsonrpc", Json::text("2.0"));
        m.put("id", Json::Unsigned(id));
        m.put("method", Json::text(method));
        m.put("params", params);
        m.done()
    }
}

/// A call that is not answered.
pub open spec fn notification_object(method: Seq<char>, params: JsonView) -> JsonView {
    JsonView::Object(
        Map::empty().insert(
            "jsonrpc"@,
            JsonView::Text("2.0"@),
        ).insert(
            "method"@,
            JsonView::Text(method),
        ).insert(
            "params"@,
            params,
        ),
    )
}

/// A call that is not answered.
pub fn notification(method: &str, params: Json) -> (r: Json)
    ensures
        r@ == notification_object(method@, params@),
{
    {
        let mut m = Members::new();
        m.put("jsonrpc", Json::text("2.0"));
        m.put("method", Json::text(method));
        m.put("params", params);
        m.done()
    }
}

/// The answer to a call.
pub open spec fn response_object(id: JsonView, result: JsonView) -> JsonView {
    JsonView::Object(
        Map::empty().insert(
            "jsonrpc"@,
            JsonView::Text("2.0"@),
        ).insert(
            "id"@,
            id,
        ).insert(
            "result"@,
            result,
        ),
    )
}

/// The answer to a call.
pub fn response(id: Json, result: Json) -> (r: Json)
    ensures
        r@ == response_object(id@, result@),
{
    {
        let mut m = Members::new();
        m.put("jsonrpc", Json::text("2.0"));
        m.put("id", id);
        m.put("result", result);
        m.done()
    }
}

/// The answer to a call that failed.
pub open spec fn failure_object(id: JsonView, message: Seq<char>) -> JsonView {
    JsonView::Object(
        Map::empty().insert(
            "jsonrpc"@,
            JsonView::Text("2.0"@),
        ).insert(
            "id"@,
            id,
        ).insert(
            "error"@,
            JsonView::Object(
                Map::empty().insert(
                    "code"@,
                    JsonView::Int(ERR_INTERNAL as int),
                ).insert(
                    "message"@,
                    JsonView::Text(message),
                ),
            ),
        ),
    )
}

/// The answer to a call that failed.
pub fn failure(id: Json, message: &str) -> (r: Json)
    ensures
        r@ == failure_object(id@, message@),
{
    {
        let mut m = Members::new();
        m.put("jsonrpc", Json::text("2.0"));
        m.put("id", id);
        m.put("error", {
            let mut m = Members::new();
            m.put("code", Json::Negative(ERR_INTERNAL));
            m.put("message", Json::text(message));
            m.done()
        });
        m.done()
    }
}

/// The model of `Call`.
pub struct CallView {
    pub id: Option<JsonView>,
    pub method: Seq<char>,
    pub params: JsonView,
}

/// A call that came in. One without an identifier is not answered.
pub struct Call {
    pub id: Option<Json>,
    pub method: String,
    pub params: Json,
}

impl DeepView for Call {
    type V = CallView;

    open spec fn deep_view(&self) -> CallView {
        CallView { id: self.id.deep_view(), method: self.method@, params: self.params@ }
    }
}

/// A member, or null.
pub open spec fn member_or_null(j: JsonView, k: Seq<char>) -> JsonView {
    match member(j, k) {
        Some(x) => x,
        None => JsonView::Null,
    }
}

/// A member, or null.
pub fn get_or_null(j: &Json, k: &str) -> (r: Json)
    ensures
        r@ == member_or_null(j@, k@),
{
    match j.get(k) {
        Some(x) => x.clone(),
        None => Json::Null,
    }
}

/// The call in a line. Blank lines and lines that are no JSON are passed over.
pub open spec fn call_in(line: Seq<char>) -> Option<CallView> {
    let s = trimmed(line);
    if s.len() == 0 {
        None
    } else {
        match json_read(s) {
            None => None,
            Some(j) => Some(
                CallView {
                    id: member(j, "id"@),
                    method: or_text(text_in(member(j, "method"@)), ""@),
                    params: member_or_null(j, "params"@),
                },
            ),
        }
    }
}

/// The call in a line.
pub fn read_call(line: &str) -> (r: Option<Call>)
    ensures
        r.deep_view() == call_in(line@),
{
    let s = trim(line);
    if s.as_str().unicode_len() == 0 {
        return None;
    }
    match parse(s.as_str()) {
        Err(_) => None,
        Ok(j) => {
            let id = match j.get("id") {
                Some(x) => Some(x.clone()),
                None => None,
            };
            Some(
                Call {
                    id,
                    method: text_or(text_at(&j, "method"), ""),
                    params: get_or_null(&j, "params"),
                },
            )
        },
    }
}

/// A line that answers a call: its text and a line feed.
pub fn line_of(j: &Json) -> (r: String)
    ensures
        r@ == json_text(j@) + "\n"@,
{
    let t = print(j);
    cat(t.as_str(), "\n")
}

/// The line that answers a call, where it is to be answered.
pub open spec fn answer_to(id: Option<JsonView>, result: Result<JsonView, Seq<char>>) -> Option<
    Seq<char>,
> {
    match id {
        None => None,
        Some(i) => Some(
            json_text(
                match result {
                    Ok(v) => response_object(i, v),
                    Err(e) => failure_object(i, e),
                },
            ) + "\n"@,
        ),
    }
}

/// The line that answers a call, where it is to be answered.
pub fn answer(call_id: &Option<Json>, result: Result<Json, String>) -> (r: Option<String>)
    ensures
        r.deep_view() == answer_to(
            call_id.deep_view(),
            match result {
                Ok(v) => Ok(v@),
                Err(e) => Err(e@),
            },
        ),
{
    match call_id {
        None => None,
        Some(i) => {
            let j = match result {
                Ok(v) => response(i.clone(), v),
                Err(e) => failure(i.clone(), e.as_str()),
            };
            Some(line_of(&j))
        },
    }
}

/// The model of `Reply`.
pub enum ReplyView {
    Other,
    Failed(Seq<char>),
    Done(JsonView),
}

/// What a line says of a call that was made.
pub enum Reply {
    /// Nothing: it is no answer, or the answer to another.
    Other,
    Failed(String),
    Done(Json),
}

impl DeepView for Reply {
    type V = ReplyView;

    open spec fn deep_view(&self) -> ReplyView {
        match *self {
            Reply::Other => ReplyView::Other,
            Reply::Failed(e) => ReplyView::Failed(e@),
            Reply::Done(j) => ReplyView::Done(j@),
        }
    }
}

/// What an answer says.
pub open spec fn outcome_in(j: JsonView) -> ReplyView {
    match member(j, "error"@) {
        Some(e) => ReplyView::Failed("MCP 错误: "@ + json_text(e)),
        None => ReplyView::Done(member_or_null(j, "result"@)),
    }
}

/// What an answer says.
pub fn read_outcome(j: &Json) -> (r: Reply)
    ensures
        r.deep_view() == outcome_in(j@),
{
    match j.get("error") {
        Some(e) => {
            let t = print(e);
            Reply::Failed(cat("MCP 错误: ", t.as_str()))
        },
        None => Reply::Done(get_or_null(j, "result")),
    }
}

/// What a line says of a call that was made, where the line is JSON.
pub open spec fn reply_in(id: u64, line: Seq<char>) -> Option<ReplyView> {
    match json_read(trimmed(line)) {
        None => None,
        Some(j) => Some(
            if member(j, "id"@) == Some(JsonView::Int(id as int)) {
                outcome_in(j)
            } else {
                ReplyView::Other
            },
        ),
    }
}

fn is_number(j: &Json, n: u64) -> (r: bool)
    ensures
        r == (j@ == JsonView::Int(n as int)),
{
    match j.as_u64() {
        Some(m) => m == n,
        None => false,
    }
}

/// What a line says of a call that was made; the error tells why the line is no
/// JSON.
pub fn read_reply(id: u64, line: &str) -> (r: Result<Reply, String>)
    ensures
        match reply_in(id, line@) {
            Some(v) => r matches Ok(x) && x.deep_view() == v,
            None => r matches Err(e) && e@ == json_refusal(trimmed(line@)),
        },
{
    let s = trim(line);
    match parse(s.as_str()) {
        Err(e) => Err(e),
        Ok(j) => {
            let ours = match j.get("id") {
                Some(x) => is_number(x, id),
                None => false,
            };
            Ok(
                if ours {
                    read_outcome(&j)
                } else {
                    Reply::Other
                },
            )
        },
    }
}

// ---- laws ----

/// Calls without an identifier are never answered, and calls with one always are.
pub proof fn law_calls_are_answered(id: Option<JsonView>, result: Result<JsonView, Seq<char>>)
    ensures
        answer_to(id, result) is Some <==> id is Some,
{
}

/// An answer is taken for the call that it answers, and for no other; what it says
/// is what was answered.
pub proof fn law_answers_find_their_call(id: u64, other: u64, result: JsonView, line: Seq<char>)
    requires
        json_read(trimmed(line)) == Some(response_object(JsonView::Int(id as int), result)),
    ensures
        reply_in(id, line) == Some(ReplyView::Done(result)),
        other != id ==> reply_in(other, line) == Some(ReplyView::Other),
{
    reveal_strlit("jsonrpc");
    reveal_strlit("id");
    reveal_strlit("result");
    reveal_strlit("error");
    assert("jsonrpc"@.len() == 7 && "id"@.len() == 2 && "result"@.len() == 6 && "error"@.len()
        == 5);
}

/// An answer that tells of a failure is taken for one.
pub proof fn law_failures_are_told(id: u64, message: Seq<char>, line: Seq<char>)
    requires
        json_read(trimmed(line)) == Some(failure_object(JsonView::Int(id as int), message)),
    ensures
        reply_in(id, line) matches Some(ReplyView::Failed(_)),
{
    reveal_strlit("jsonrpc");
    reveal_strlit("id");
    reveal_strlit("error");
    assert("jsonrpc"@.len() == 7 && "id"@.len() == 2 && "error"@.len() == 5);
}

} // verus!
