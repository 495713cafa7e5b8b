//! Requests and streams in the messages format.
use vstd::prelude::*;

use crate::content::ReasoningEffort;
use crate::content::StopReason;
use crate::content::TokenUsageView;
use crate::exec::asked;
use crate::form::Form;
use crate::form::forms;
use crate::json::JsonView;
use crate::json::member;
use crate::model::CacheBreakpoint;
use crate::model::ModelContent;
use crate::model::ModelContentView;
use crate::model::ModelMessage;
use crate::model::ModelMessageView;
use crate::model::ModelRequestView;
use crate::model::ModelStreamEventView;
use crate::model::SystemBlock;
use crate::model::ToolSpec;
use crate::providers::anthropic::AssistantForm;
use crate::providers::anthropic::Made;
use crate::providers::anthropic::MessageForm;
use crate::providers::anthropic::SystemForm;
use crate::providers::anthropic::ToolForm;
use crate::providers::anthropic::UserForm;
use crate::providers::anthropic::made_of;
use crate::providers::anthropic::request_form;
use crate::providers::calls::call_at;
use crate::providers::calls::distinct;
use crate::providers::calls::lemma_place;
use crate::providers::calls::lemma_place_is;
use crate::providers::calls::place;
use crate::providers::calls::with_call;

verus! {

/// The messages that a request sends.
pub open spec fn sent(req: ModelRequestView) -> Seq<JsonView> {
    match member(request_form(req), "messages"@) {
        Some(JsonView::List(s)) => s,
        _ => Seq::empty(),
    }
}

/// What stands under a name, where it is a list.
pub open spec fn listed(j: JsonView, k: Seq<char>) -> Seq<JsonView> {
    match member(j, k) {
        Some(JsonView::List(s)) => s,
        _ => Seq::empty(),
    }
}

/// The result of a tool is sent as a message of the user with one block, which
/// names the call, says as the result does whether it is an error, and holds one
/// block for each block of the result.
pub proof fn law_results_are_sent(req: ModelRequestView, i: int)
    requires
        0 <= i < req.messages.len(),
    ensures
        sent(req).len() == req.messages.len(),
        req.messages[i] matches ModelMessageView::ToolResult { call_id, content, is_error } ==> {
            &&& member(sent(req)[i], "role"@) == Some(JsonView::Text("user"@))
            &&& listed(sent(req)[i], "content"@).len() == 1
            &&& {
                let b = listed(sent(req)[i], "content"@)[0];
                &&& member(b, "type"@) == Some(JsonView::Text("tool_result"@))
                &&& member(b, "tool_use_id"@) == Some(JsonView::Text(call_id))
                &&& member(b, "is_error"@) == Some(JsonView::Bool(is_error))
                &&& listed(b, "content"@).len() == content.len()
                &&& forall|j: int|
                    0 <= j < content.len() ==> shows_to_model(
                        content[j],
                        #[trigger] listed(b, "content"@)[j],
                    )
            }
        },
{
    lemma_sent(req);
    if let ModelMessageView::ToolResult { call_id, content, is_error } = req.messages[i] {
        reveal_strlit("role");
        reveal_strlit("content");
        reveal_strlit("type");
        reveal_strlit("tool_use_id");
        reveal_strlit("is_error");
        assert("role"@.len() == 4 && "content"@.len() == 7 && "type"@.len() == 4 && "tool_use_id"@.len() == 11 && "is_error"@.len() == 8);
        assert("role"@[0] != "type"@[0]);
        let b = listed(sent(req)[i], "content"@)[0];
        assert(listed(b, "content"@) == forms::<ModelContent, UserForm>(content));
        assert forall|j: int| 0 <= j < content.len() implies shows_to_model(
            content[j],
            #[trigger] listed(b, "content"@)[j],
        ) by {
            lemma_shown(content[j]);
        }
    }
}

/// Whether a block for the model says what a block of a user's message or of a
/// result holds: its text, or its image; any other is announced as such.
pub open spec fn shows_to_model(c: ModelContentView, b: JsonView) -> bool {
    match c {
        ModelContentView::Text(t) => member(b, "type"@) == Some(JsonView::Text("text"@)) && member(
            b,
            "text"@,
        ) == Some(JsonView::Text(t)),
        ModelContentView::Image { mime, data_base64 } => {
            &&& member(b, "type"@) == Some(JsonView::Text("image"@))
            &&& member(b, "source"@) matches Some(s) && {
                &&& member(s, "type"@) == Some(JsonView::Text("base64"@))
                &&& member(s, "media_type"@) == Some(JsonView::Text(mime))
                &&& member(s, "data"@) == Some(JsonView::Text(data_base64))
            }
        },
        _ => member(b, "type"@) == Some(JsonView::Text("text"@)) && member(b, "text"@) == Some(
            JsonView::Text("[unsupported content]"@),
        ),
    }
}

/// Whether a block for the model says what a block of its own earlier message holds:
/// text, a thought with its signature, or a call with its name and input.
pub open spec fn shows_own(c: ModelContentView, b: JsonView) -> bool {
    match c {
        ModelContentView::Text(t) => member(b, "type"@) == Some(JsonView::Text("text"@)) && member(
            b,
            "text"@,
        ) == Some(JsonView::Text(t)),
        ModelContentView::Thinking { text, signature } => {
            &&& member(b, "type"@) == Some(JsonView::Text("thinking"@))
            &&& member(b, "thinking"@) == Some(JsonView::Text(text))
            &&& member(b, "signature"@) == match signature {
                Some(s) => Some(JsonView::Text(s)),
                None => None,
            }
        },
        ModelContentView::ToolUse { call_id, name, input } => {
            &&& member(b, "type"@) == Some(JsonView::Text("tool_use"@))
            &&& member(b, "id"@) == Some(JsonView::Text(call_id))
            &&& member(b, "name"@) == Some(JsonView::Text(name))
            &&& member(b, "input"@) == Some(input)
        },
        _ => member(b, "type"@) == Some(JsonView::Text("text"@)) && member(b, "text"@) == Some(
            JsonView::Text("[unsupported content]"@),
        ),
    }
}

/// What the user and the model said is sent under their roles, block by block.
pub proof fn law_what_was_said_is_sent(req: ModelRequestView, i: int, j: int)
    requires
        0 <= i < req.messages.len(),
    ensures
        req.messages[i] matches ModelMessageView::User { content } ==> {
            &&& member(sent(req)[i], "role"@) == Some(JsonView::Text("user"@))
            &&& listed(sent(req)[i], "content"@).len() == content.len()
            &&& 0 <= j < content.len() ==> shows_to_model(
                content[j],
                listed(sent(req)[i], "content"@)[j],
            )
        },
        req.messages[i] matches ModelMessageView::Assistant { content } ==> {
            &&& member(sent(req)[i], "role"@) == Some(JsonView::Text("assistant"@))
            &&& listed(sent(req)[i], "content"@).len() == content.len()
            &&& 0 <= j < content.len() ==> shows_own(
                content[j],
                listed(sent(req)[i], "content"@)[j],
            )
        },
{
    lemma_sent(req);
    reveal_strlit("role");
    reveal_strlit("content");
    assert("role"@.len() == 4 && "content"@.len() == 7);
    match req.messages[i] {
        ModelMessageView::User { content } => {
            if 0 <= j < content.len() {
                lemma_shown(content[j]);
            }
        },
        ModelMessageView::Assistant { content } => {
            if 0 <= j < content.len() {
                lemma_shown_own(content[j]);
            }
        },
        _ => {},
    }
}

/// The request names the model, asks for a stream and says how many tokens may come
/// back. The members that go with the system prompt, tools, thinking, temperature and
/// the session are there exactly if there is something to say.
pub proof fn law_requests_say_what_was_asked(req: ModelRequestView)
    ensures
        ({
            let r = request_form(req);
            &&& member(r, "model"@) == Some(JsonView::Text(req.model))
            &&& member(r, "max_tokens"@) == Some(JsonView::Int(req.max_output_tokens as int))
            &&& member(r, "stream"@) == Some(JsonView::Bool(true))
            &&& member(r, "temperature"@) == req.temperature
            &&& member(r, "system"@) is Some <==> req.system.len() > 0
            &&& listed(r, "system"@).len() == req.system.len()
            &&& member(r, "tools"@) is Some <==> req.tools.len() > 0
            &&& listed(r, "tools"@).len() == req.tools.len()
            &&& member(r, "thinking"@) is Some <==> req.reasoning is Some
            &&& member(r, "metadata"@) is Some <==> req.metadata.session_id is Some
                || req.metadata.turn_id is Some
            &&& req.metadata.session_id matches Some(s) ==> (member(r, "metadata"@) matches Some(m)
                && member(m, "user_id"@) == Some(JsonView::Text(s)))
            &&& req.metadata.session_id is None && req.metadata.turn_id is Some ==> (member(r, "metadata"@) matches Some(m)
                && member(m, "user_id"@) == Some(JsonView::Text("tao"@)))
        }),
{
    lemma_request_keys();
}

/// Every tool is offered with its name, its description and the schema of its input.
pub proof fn law_tools_are_offered(req: ModelRequestView, i: int)
    requires
        0 <= i < req.tools.len(),
    ensures
        ({
            let t = listed(request_form(req), "tools"@)[i];
            &&& member(t, "name"@) == Some(JsonView::Text(req.tools[i].name))
            &&& member(t, "description"@) == Some(JsonView::Text(req.tools[i].description))
            &&& member(t, "input_schema"@) == Some(req.tools[i].schema)
        }),
{
    lemma_request_keys();
    assert(listed(request_form(req), "tools"@) == forms::<ToolSpec, ToolForm>(req.tools));
    reveal_strlit("name");
    reveal_strlit("description");
    reveal_strlit("input_schema");
    assert("name"@.len() == 4 && "description"@.len() == 11 && "input_schema"@.len() == 12);
}

/// Every block of the system prompt is sent with its text, and with the mark that
/// keeps it in the cache exactly if it has one: for an hour where it says so.
pub proof fn law_system_prompts_are_sent(req: ModelRequestView, i: int)
    requires
        0 <= i < req.system.len(),
    ensures
        ({
            let b = listed(request_form(req), "system"@)[i];
            &&& member(b, "type"@) == Some(JsonView::Text("text"@))
            &&& member(b, "text"@) == Some(JsonView::Text(req.system[i].text))
            &&& member(b, "cache_control"@) is Some <==> req.system[i].cache_breakpoint is Some
            &&& req.system[i].cache_breakpoint matches Some(bp) ==> (member(b, "cache_control"@) matches Some(c)
                && member(c, "type"@) == Some(JsonView::Text("ephemeral"@)) && member(c, "ttl"@)
                == if bp == CacheBreakpoint::OneHour {
                Some(JsonView::Text("1h"@))
            } else {
                None
            })
        }),
{
    lemma_request_keys();
    assert(listed(request_form(req), "system"@) == forms::<SystemBlock, SystemForm>(req.system));
    reveal_strlit("type");
    reveal_strlit("text");
    reveal_strlit("cache_control");
    reveal_strlit("ttl");
    assert("type"@.len() == 4 && "text"@.len() == 4 && "cache_control"@.len() == 13 && "ttl"@.len() == 3);
    assert("type"@[1] != "text"@[1]);
}

/// How long the model may think doubles from one effort to the next, but for the
/// step from the least, which takes a thousand and twenty-four tokens, to the next,
/// which takes four times as many.
pub proof fn law_thinking_is_asked_for(req: ModelRequestView)
    ensures
        ({
            let asked = |e: ReasoningEffort|
                match member(request_form(ModelRequestView { reasoning: Some(e), ..req }), "thinking"@) {
                    Some(t) => if member(t, "type"@) == Some(JsonView::Text("enabled"@)) {
                        member(t, "budget_tokens"@)
                    } else {
                        None
                    },
                    None => None,
                };
            &&& asked(ReasoningEffort::Minimal) == Some(JsonView::Int(1024))
            &&& asked(ReasoningEffort::Low) == Some(JsonView::Int(4096))
            &&& asked(ReasoningEffort::Medium) == Some(JsonView::Int(8192))
            &&& asked(ReasoningEffort::High) == Some(JsonView::Int(16384))
            &&& asked(ReasoningEffort::Max) == Some(JsonView::Int(32768))
        }),
{
    lemma_request_keys();
    reveal_strlit("type");
    reveal_strlit("budget_tokens");
    assert("type"@.len() == 4 && "budget_tokens"@.len() == 13);
}

/// The events of one step of a stream, where it is no error.
pub open spec fn told(blocks: Seq<(u32, Seq<char>)>, name: Seq<char>, data: JsonView) -> Seq<
    ModelStreamEventView,
> {
    match made_of(blocks, name, data) {
        Ok(m) => m.events,
        Err(_) => Seq::empty(),
    }
}

/// Pieces of text and of thought come through as they are, and a piece of the input
/// of a call goes to the call whose block it belongs to.
pub proof fn law_pieces_come_through(
    blocks: Seq<(u32, Seq<char>)>,
    data: JsonView,
    delta: JsonView,
    piece: Seq<char>,
    k: u32,
    id: Seq<char>,
)
    requires
        member(data, "delta"@) == Some(delta),
    ensures
        member(delta, "type"@) == Some(JsonView::Text("text_delta"@)) && member(delta, "text"@)
            == Some(JsonView::Text(piece)) ==> told(blocks, "content_block_delta"@, data) == seq![
            ModelStreamEventView::TextDelta(piece),
        ],
        member(delta, "type"@) == Some(JsonView::Text("thinking_delta"@)) && member(
            delta,
            "thinking"@,
        ) == Some(JsonView::Text(piece)) ==> told(blocks, "content_block_delta"@, data) == seq![
            ModelStreamEventView::ThinkingDelta(piece),
        ],
        member(delta, "type"@) == Some(JsonView::Text("input_json_delta"@)) && member(
            delta,
            "partial_json"@,
        ) == Some(JsonView::Text(piece)) && member(data, "index"@) == Some(JsonView::Int(k as int))
            && call_at(blocks, k) == Some(id) ==> told(blocks, "content_block_delta"@, data)
            == seq![ModelStreamEventView::ToolUseInputDelta { call_id: id, json_fragment: piece }],
{
    reveal_strlit("content_block_start");
    reveal_strlit("content_block_delta");
    reveal_strlit("text_delta");
    reveal_strlit("thinking_delta");
    reveal_strlit("input_json_delta");
    assert("content_block_start"@.len() == 19 && "content_block_delta"@.len() == 19 && "text_delta"@.len() == 10 && "thinking_delta"@.len() == 14 && "input_json_delta"@.len() == 16);
    assert("content_block_start"@[14] != "content_block_delta"@[14]);
}

/// A block that opens a call announces it by the provider's id and the tool's name,
/// and the block that closes at the same index ends that call.
pub proof fn law_calls_open_and_close(
    blocks: Seq<(u32, Seq<char>)>,
    data: JsonView,
    block: JsonView,
    stop: JsonView,
    k: u32,
    id: Seq<char>,
    tool: Seq<char>,
)
    requires
        distinct(blocks),
        member(data, "content_block"@) == Some(block),
        member(data, "index"@) == Some(JsonView::Int(k as int)),
        member(block, "type"@) == Some(JsonView::Text("tool_use"@)),
        member(block, "id"@) == Some(JsonView::Text(id)),
        member(block, "name"@) == Some(JsonView::Text(tool)),
        member(stop, "index"@) == Some(JsonView::Int(k as int)),
    ensures
        made_of(blocks, "content_block_start"@, data) matches Ok(open) && open.events == seq![
            ModelStreamEventView::ToolUseBegin { call_id: id, name: tool },
        ] && (made_of(open.blocks, "content_block_stop"@, stop) matches Ok(shut) && shut.events
            == seq![ModelStreamEventView::ToolUseEnd { call_id: id }] && (call_at(blocks, k) is None
            ==> shut.blocks == blocks)),
{
    reveal_strlit("content_block_start");
    reveal_strlit("content_block_delta");
    reveal_strlit("content_block_stop");
    assert("content_block_start"@.len() == 19 && "content_block_delta"@.len() == 19 && "content_block_stop"@.len() == 18);
    assert("content_block_start"@[14] != "content_block_delta"@[14]);
    lemma_place(blocks, k);
    let open = with_call(blocks, k, id);
    let p = place(blocks, k);
    assert forall|i: int| 0 <= i < p implies (#[trigger] open[i]).0 != k by {
        assert(open[i] == blocks[i]);
    }
    lemma_place_is(open, k, p);
    assert(call_at(open, k) == Some(id));
    if call_at(blocks, k) is None {
        assert(open.remove(p) =~= blocks);
    }
}

/// The end of a message says why the model stopped and what it used.
pub proof fn law_ends_are_told(
    blocks: Seq<(u32, Seq<char>)>,
    data: JsonView,
    delta: JsonView,
    usage: JsonView,
    why: Seq<char>,
    input: u64,
    cached: u64,
    output: u64,
)
    requires
        member(data, "delta"@) == Some(delta),
        member(delta, "stop_reason"@) == Some(JsonView::Text(why)),
        member(data, "usage"@) == Some(usage),
        member(usage, "input_tokens"@) == Some(JsonView::Int(input as int)),
        member(usage, "cache_read_input_tokens"@) == Some(JsonView::Int(cached as int)),
        member(usage, "output_tokens"@) == Some(JsonView::Int(output as int)),
    ensures
        told(blocks, "message_delta"@, data) == seq![
            ModelStreamEventView::MessageEnd {
                stop_reason: if why == "max_tokens"@ {
                    StopReason::MaxTokens
                } else if why == "tool_use"@ {
                    StopReason::ToolUse
                } else if why == "refusal"@ {
                    StopReason::Refused
                } else {
                    StopReason::EndTurn
                },
                usage: TokenUsageView { input, cached_input: cached, output, reasoning: 0 },
            },
        ],
{
    reveal_strlit("content_block_start");
    reveal_strlit("content_block_delta");
    reveal_strlit("content_block_stop");
    reveal_strlit("message_delta");
    assert("content_block_start"@.len() == 19 && "content_block_delta"@.len() == 19 && "content_block_stop"@.len() == 18 && "message_delta"@.len() == 13);
    assert("content_block_start"@[14] != "content_block_delta"@[14]);
    reveal_strlit("max_tokens");
    reveal_strlit("tool_use");
    reveal_strlit("refusal");
    assert("max_tokens"@.len() == 10 && "tool_use"@.len() == 8 && "refusal"@.len() == 7);
}

/// An error of the provider ends the stream with its message; any other event of the
/// stream says nothing and leaves the open calls as they are.
pub proof fn law_errors_and_the_rest(
    blocks: Seq<(u32, Seq<char>)>,
    name: Seq<char>,
    data: JsonView,
    error: JsonView,
    why: Seq<char>,
)
    ensures
        member(data, "error"@) == Some(error) && member(error, "message"@) == Some(
            JsonView::Text(why),
        ) ==> made_of(blocks, "error"@, data) == Err::<Made, _>(why),
        !seq![
            "content_block_start"@,
            "content_block_delta"@,
            "content_block_stop"@,
            "message_delta"@,
            "error"@,
        ].contains(name) ==> made_of(blocks, name, data) == Ok::<_, Seq<char>>(
            Made { blocks, events: Seq::empty() },
        ),
{
    reveal_strlit("content_block_start");
    reveal_strlit("content_block_delta");
    reveal_strlit("content_block_stop");
    reveal_strlit("message_delta");
    reveal_strlit("error");
    assert("content_block_start"@.len() == 19 && "content_block_delta"@.len() == 19 && "content_block_stop"@.len() == 18 && "message_delta"@.len() == 13 && "error"@.len() == 5);
    assert("content_block_start"@[14] != "content_block_delta"@[14]);
    let all = seq![
        "content_block_start"@,
        "content_block_delta"@,
        "content_block_stop"@,
        "message_delta"@,
        "error"@,
    ];
    if !all.contains(name) {
        assert(name != all[0] && name != all[1] && name != all[2] && name != all[3] && name
            != all[4]);
    }
}

// ---- lemmas ----

proof fn lemma_request_keys()
    ensures
        ({
            let k = seq![
                "model"@,
                "messages"@,
                "max_tokens"@,
                "stream"@,
                "system"@,
                "tools"@,
                "thinking"@,
                "temperature"@,
                "metadata"@,
            ];
            forall|i: int, j: int| 0 <= i < j < k.len() ==> k[i] != k[j]
        }),
        "model"@ != "tools"@,
        "messages"@ != "thinking"@ && "messages"@ != "metadata"@ && "thinking"@ != "metadata"@,
        "stream"@ != "system"@,
        "model"@.len() == 5 && "messages"@.len() == 8 && "max_tokens"@.len() == 10 && "stream"@.len()
            == 6 && "system"@.len() == 6 && "tools"@.len() == 5 && "thinking"@.len() == 8
            && "temperature"@.len() == 11 && "metadata"@.len() == 8,
{
    reveal_strlit("model");
    reveal_strlit("messages");
    reveal_strlit("max_tokens");
    reveal_strlit("stream");
    reveal_strlit("system");
    reveal_strlit("tools");
    reveal_strlit("thinking");
    reveal_strlit("temperature");
    reveal_strlit("metadata");
    assert("model"@.len() == 5 && "messages"@.len() == 8 && "max_tokens"@.len() == 10 && "stream"@.len() == 6 && "system"@.len() == 6 && "tools"@.len() == 5 && "thinking"@.len() == 8 && "temperature"@.len() == 11 && "metadata"@.len() == 8);
    assert("model"@[0] != "tools"@[0]);
    assert("messages"@[0] != "thinking"@[0]);
    assert("messages"@[2] != "metadata"@[2]);
    assert("stream"@[1] != "system"@[1]);
    assert("thinking"@[0] != "metadata"@[0]);
}

proof fn lemma_sent(req: ModelRequestView)
    ensures
        sent(req) == forms::<ModelMessage, MessageForm>(req.messages),
{
    lemma_request_keys();
}

proof fn lemma_shown(c: ModelContentView)
    ensures
        shows_to_model(c, <UserForm as Form<ModelContent>>::form(c)),
{
    reveal_strlit("type");
    reveal_strlit("text");
    reveal_strlit("source");
    reveal_strlit("media_type");
    reveal_strlit("data");
    assert("type"@.len() == 4 && "text"@.len() == 4 && "source"@.len() == 6 && "media_type"@.len() == 10 && "data"@.len() == 4);
    assert("type"@[1] != "text"@[1]);
    assert("type"@[0] != "data"@[0]);
    assert("text"@[0] != "data"@[0]);
}

proof fn lemma_shown_own(c: ModelContentView)
    ensures
        shows_own(c, <AssistantForm as Form<ModelContent>>::form(c)),
{
    reveal_strlit("type");
    reveal_strlit("text");
    reveal_strlit("thinking");
    reveal_strlit("signature");
    reveal_strlit("id");
    reveal_strlit("name");
    reveal_strlit("input");
    assert("type"@.len() == 4 && "text"@.len() == 4 && "thinking"@.len() == 8 && "signature"@.len() == 9 && "id"@.len() == 2 && "name"@.len() == 4 && "input"@.len() == 5);
    assert("type"@[1] != "text"@[1]);
    assert("type"@[0] != "name"@[0]);
    assert("text"@[0] != "name"@[0]);
}

} // verus!
