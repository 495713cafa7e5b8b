//! Requests and streams in the responses format.
use vstd::prelude::*;

use crate::content::ReasoningEffort;
use crate::content::StopReason;
use crate::content::TokenUsageView;
use crate::form::Form;
use crate::form::forms;
use crate::json::JsonView;
use crate::json::json_text;
use crate::json::member;
use crate::laws::chat_api::spoken;
use crate::laws::messages_api::listed;
use crate::model::ModelContent;
use crate::model::ModelContentView;
use crate::model::ModelMessageView;
use crate::model::ModelRequestView;
use crate::model::ModelStreamEventView;
use crate::model::ToolSpec;
use crate::providers::anthropic::Made;
use crate::providers::calls::call_at;
use crate::providers::calls::lemma_place;
use crate::providers::calls::lemma_place_is;
use crate::providers::calls::place;
use crate::providers::calls::with_call;
use crate::providers::openai_responses::ToolForm;
use crate::providers::openai_responses::UserPart;
use crate::providers::openai_responses::input_items;
use crate::providers::openai_responses::made_of;
use crate::providers::openai_responses::request_form;
use crate::providers::openai_responses::result_text;
use crate::providers::openai_responses::system_texts;
use crate::providers::openai_responses::usage_of;
use crate::text::joined;

verus! {

/// The input of a request.
pub open spec fn given(req: ModelRequestView) -> Seq<JsonView> {
    listed(request_form(req), "input"@)
}

/// Whether a written part says what a block of a user's message holds.
pub open spec fn shows_part(c: ModelContentView, b: JsonView) -> bool {
    match c {
        ModelContentView::Text(t) => member(b, "type"@) == Some(JsonView::Text("input_text"@))
            && member(b, "text"@) == Some(JsonView::Text(t)),
        ModelContentView::Image { mime, data_base64 } => member(b, "type"@) == Some(
            JsonView::Text("input_image"@),
        ) && member(b, "image_url"@) == Some(
            JsonView::Text("data:"@ + mime + ";base64,"@ + data_base64),
        ),
        _ => member(b, "type"@) == Some(JsonView::Text("input_text"@)) && member(b, "text"@) == Some(
            JsonView::Text("[unsupported content]"@),
        ),
    }
}

/// The input is the items of the messages in their order: a further message adds its
/// own items behind those that were there. The result of a tool is one item that names
/// the call and holds the text, marked where it is an error and only there.
pub proof fn law_results_are_sent(
    req: ModelRequestView,
    call_id: Seq<char>,
    content: Seq<ModelContentView>,
    is_error: bool,
)
    ensures
        ({
            let m = ModelMessageView::ToolResult { call_id, content, is_error };
            let now = given(ModelRequestView { messages: req.messages.push(m), ..req });
            let item = now.last();
            &&& now.len() == given(req).len() + 1
            &&& now.drop_last() == given(req)
            &&& member(item, "type"@) == Some(JsonView::Text("function_call_output"@))
            &&& member(item, "call_id"@) == Some(JsonView::Text(call_id))
            &&& (forall|j: int| 0 <= j < content.len() ==> #[trigger] content[j] is Text) ==> member(
                item,
                "output"@,
            ) == Some(
                JsonView::Text(
                    if is_error {
                        "[ERROR] "@ + spoken(content)
                    } else {
                        spoken(content)
                    },
                ),
            )
        }),
{
    let m = ModelMessageView::ToolResult { call_id, content, is_error };
    lemma_given(req);
    lemma_given(ModelRequestView { messages: req.messages.push(m), ..req });
    assert(req.messages.push(m).drop_last() =~= req.messages);
    reveal_strlit("type");
    reveal_strlit("call_id");
    reveal_strlit("output");
    assert("type"@.len() == 4 && "call_id"@.len() == 7 && "output"@.len() == 6);
    let now = given(ModelRequestView { messages: req.messages.push(m), ..req });
    assert(now.drop_last() =~= given(req));
    if forall|j: int| 0 <= j < content.len() ==> #[trigger] content[j] is Text {
        lemma_result(content);
    }
}

/// What the user said is one item, block by block.
pub proof fn law_what_the_user_said_is_sent(
    req: ModelRequestView,
    content: Seq<ModelContentView>,
    j: int,
)
    ensures
        ({
            let m = ModelMessageView::User { content };
            let now = given(ModelRequestView { messages: req.messages.push(m), ..req });
            let item = now.last();
            &&& now.len() == given(req).len() + 1
            &&& now.drop_last() == given(req)
            &&& member(item, "type"@) == Some(JsonView::Text("message"@))
            &&& member(item, "role"@) == Some(JsonView::Text("user"@))
            &&& listed(item, "content"@).len() == content.len()
            &&& 0 <= j < content.len() ==> shows_part(content[j], listed(item, "content"@)[j])
        }),
{
    let m = ModelMessageView::User { content };
    lemma_given(req);
    lemma_given(ModelRequestView { messages: req.messages.push(m), ..req });
    assert(req.messages.push(m).drop_last() =~= req.messages);
    reveal_strlit("type");
    reveal_strlit("role");
    reveal_strlit("content");
    assert("type"@.len() == 4 && "role"@.len() == 4 && "content"@.len() == 7);
    assert("type"@[0] != "role"@[0]);
    let now = given(ModelRequestView { messages: req.messages.push(m), ..req });
    assert(now.drop_last() =~= given(req));
    if 0 <= j < content.len() {
        reveal_strlit("type");
        reveal_strlit("text");
        reveal_strlit("image_url");
        assert("type"@.len() == 4 && "text"@.len() == 4 && "image_url"@.len() == 9);
        assert("type"@[1] != "text"@[1]);
        assert(shows_part(content[j], <UserPart as Form<ModelContent>>::form(content[j])));
    }
}

/// What the model said is an item for each text, thought and call, in order; images
/// are left out.
pub proof fn law_what_the_model_said_is_sent(
    req: ModelRequestView,
    content: Seq<ModelContentView>,
    c: ModelContentView,
)
    ensures
        ({
            let before = given(
                ModelRequestView {
                    messages: req.messages.push(ModelMessageView::Assistant { content }),
                    ..req
                },
            );
            let now = given(
                ModelRequestView {
                    messages: req.messages.push(
                        ModelMessageView::Assistant { content: content.push(c) },
                    ),
                    ..req
                },
            );
            let item = now.last();
            &&& c is Image ==> now == before
            &&& !(c is Image) ==> now.len() == before.len() + 1 && now.drop_last() == before
            &&& c matches ModelContentView::Text(t) ==> {
                &&& member(item, "type"@) == Some(JsonView::Text("message"@))
                &&& member(item, "role"@) == Some(JsonView::Text("assistant"@))
                &&& listed(item, "content"@).len() == 1
                &&& member(listed(item, "content"@)[0], "type"@) == Some(
                    JsonView::Text("output_text"@),
                )
                &&& member(listed(item, "content"@)[0], "text"@) == Some(JsonView::Text(t))
            }
            &&& c matches ModelContentView::Thinking { text, .. } ==> {
                &&& member(item, "type"@) == Some(JsonView::Text("reasoning"@))
                &&& listed(item, "summary"@).len() == 1
                &&& member(listed(item, "summary"@)[0], "type"@) == Some(
                    JsonView::Text("summary_text"@),
                )
                &&& member(listed(item, "summary"@)[0], "text"@) == Some(JsonView::Text(text))
            }
            &&& c matches ModelContentView::ToolUse { call_id, name, input } ==> {
                &&& member(item, "type"@) == Some(JsonView::Text("function_call"@))
                &&& member(item, "call_id"@) == Some(JsonView::Text(call_id))
                &&& member(item, "name"@) == Some(JsonView::Text(name))
                &&& member(item, "arguments"@) == Some(
                    JsonView::Text(
                        match input {
                            JsonView::Text(s) => s,
                            _ => json_text(input),
                        },
                    ),
                )
            }
        }),
{
    let m = ModelMessageView::Assistant { content };
    let n = ModelMessageView::Assistant { content: content.push(c) };
    let before = ModelRequestView { messages: req.messages.push(m), ..req };
    let now = ModelRequestView { messages: req.messages.push(n), ..req };
    lemma_given(before);
    lemma_given(now);
    assert(req.messages.push(m).drop_last() =~= req.messages);
    assert(req.messages.push(n).drop_last() =~= req.messages);
    assert(content.push(c).drop_last() =~= content);
    if !(c is Image) {
        assert(given(now).drop_last() =~= given(before));
    }
    reveal_strlit("type");
    reveal_strlit("role");
    reveal_strlit("content");
    reveal_strlit("text");
    reveal_strlit("summary");
    reveal_strlit("call_id");
    reveal_strlit("name");
    reveal_strlit("arguments");
    assert("type"@.len() == 4 && "role"@.len() == 4 && "content"@.len() == 7 && "text"@.len() == 4 && "summary"@.len() == 7 && "call_id"@.len() == 7 && "name"@.len() == 4 && "arguments"@.len() == 9);
    assert("type"@[0] != "role"@[0]);
    assert("type"@[1] != "text"@[1]);
    assert("type"@[0] != "name"@[0]);
    assert("role"@[0] != "text"@[0]);
    assert("role"@[0] != "name"@[0]);
    assert("content"@[0] != "summary"@[0]);
    assert("content"@[1] != "call_id"@[1]);
    assert("text"@[0] != "name"@[0]);
    assert("summary"@[0] != "call_id"@[0]);
}

/// The request names the model, asks for a stream that is not kept, and says how many
/// tokens may come back, how hard to think and at which temperature. The system prompt
/// is the instructions, its blocks a blank line apart.
pub proof fn law_requests_say_what_was_asked(req: ModelRequestView)
    ensures
        ({
            let r = request_form(req);
            &&& member(r, "model"@) == Some(JsonView::Text(req.model))
            &&& member(r, "max_output_tokens"@) == Some(JsonView::Int(req.max_output_tokens as int))
            &&& member(r, "stream"@) == Some(JsonView::Bool(true))
            &&& member(r, "store"@) == Some(JsonView::Bool(false))
            &&& member(r, "temperature"@) == req.temperature
            &&& member(r, "tools"@) is Some <==> req.tools.len() > 0
            &&& listed(r, "tools"@).len() == req.tools.len()
            &&& member(r, "instructions"@) == if req.system.len() == 0 {
                None
            } else {
                Some(
                    JsonView::Text(
                        joined(Seq::new(req.system.len(), |i: int| req.system[i].text), "\n\n"@),
                    ),
                )
            }
            &&& req.reasoning is None ==> member(r, "reasoning"@) is None
            &&& req.reasoning matches Some(e) ==> (member(r, "reasoning"@) matches Some(x) && member(
                x,
                "effort"@,
            ) == Some(
                JsonView::Text(
                    match e {
                        ReasoningEffort::Minimal => "minimal"@,
                        ReasoningEffort::Low => "low"@,
                        ReasoningEffort::Medium => "medium"@,
                        ReasoningEffort::High => "high"@,
                        ReasoningEffort::Max => "high"@,
                    },
                ),
            ))
        }),
{
    lemma_keys();
    assert(system_texts(req.system) =~= Seq::new(req.system.len(), |i: int| req.system[i].text));
}

/// Every tool is offered as a function with its name, its description and the schema
/// of its input, which is not enforced.
pub proof fn law_tools_are_offered(req: ModelRequestView, i: int)
    requires
        0 <= i < req.tools.len(),
    ensures
        ({
            let t = listed(request_form(req), "tools"@)[i];
            &&& member(t, "type"@) == Some(JsonView::Text("function"@))
            &&& member(t, "name"@) == Some(JsonView::Text(req.tools[i].name))
            &&& member(t, "description"@) == Some(JsonView::Text(req.tools[i].description))
            &&& member(t, "parameters"@) == Some(req.tools[i].schema)
            &&& member(t, "strict"@) == Some(JsonView::Bool(false))
        }),
{
    lemma_keys();
    assert(listed(request_form(req), "tools"@) == forms::<ToolSpec, ToolForm>(req.tools));
    reveal_strlit("name");
    reveal_strlit("description");
    reveal_strlit("parameters");
    reveal_strlit("type");
    reveal_strlit("strict");
    assert("name"@.len() == 4 && "description"@.len() == 11 && "parameters"@.len() == 10 && "type"@.len() == 4 && "strict"@.len() == 6);
    assert("name"@[0] != "type"@[0]);
}

/// The events of one step of a stream, where it is no error.
pub open spec fn told(calls: Seq<(u32, Seq<char>)>, name: Seq<char>, data: JsonView) -> Seq<
    ModelStreamEventView,
> {
    match made_of(calls, name, data) {
        Ok(m) => m.events,
        Err(_) => Seq::empty(),
    }
}

/// Pieces of text and of thought come through as they are, and a piece of the input of
/// a call goes to the call at its index.
pub proof fn law_pieces_come_through(
    calls: Seq<(u32, Seq<char>)>,
    data: JsonView,
    piece: Seq<char>,
    k: u32,
    id: Seq<char>,
)
    requires
        member(data, "delta"@) == Some(JsonView::Text(piece)),
    ensures
        told(calls, "response.output_text.delta"@, data) == seq![
            ModelStreamEventView::TextDelta(piece),
        ],
        told(calls, "response.reasoning_summary_text.delta"@, data) == seq![
            ModelStreamEventView::ThinkingDelta(piece),
        ],
        member(data, "output_index"@) == Some(JsonView::Int(k as int)) && call_at(calls, k) == Some(id)
            ==> told(calls, "response.function_call_arguments.delta"@, data) == seq![
            ModelStreamEventView::ToolUseInputDelta { call_id: id, json_fragment: piece },
        ],
{
    lemma_names();
}

/// An item that is a call announces it by its id and name, and when the item at the
/// same index is done the call ends.
pub proof fn law_calls_open_and_close(
    calls: Seq<(u32, Seq<char>)>,
    data: JsonView,
    item: JsonView,
    done: JsonView,
    same: JsonView,
    k: u32,
    id: Seq<char>,
    tool: Seq<char>,
)
    requires
        member(data, "item"@) == Some(item),
        member(data, "output_index"@) == Some(JsonView::Int(k as int)),
        member(item, "type"@) == Some(JsonView::Text("function_call"@)),
        member(item, "call_id"@) == Some(JsonView::Text(id)),
        member(item, "name"@) == Some(JsonView::Text(tool)),
        member(done, "item"@) == Some(same),
        member(done, "output_index"@) == Some(JsonView::Int(k as int)),
        member(same, "type"@) == Some(JsonView::Text("function_call"@)),
    ensures
        made_of(calls, "response.output_item.added"@, data) matches Ok(open) && open.events == seq![
            ModelStreamEventView::ToolUseBegin { call_id: id, name: tool },
        ] && (made_of(open.blocks, "response.output_item.done"@, done) matches Ok(shut)
            && shut.events == seq![ModelStreamEventView::ToolUseEnd { call_id: id }] && (call_at(
            calls,
            k,
        ) is None ==> shut.blocks == calls)),
{
    lemma_names();
    lemma_place(calls, k);
    let open = with_call(calls, k, id);
    let p = place(calls, k);
    assert forall|i: int| 0 <= i < p implies (#[trigger] open[i]).0 != k by {
        assert(open[i] == calls[i]);
    }
    lemma_place_is(open, k, p);
    assert(call_at(open, k) == Some(id));
    if call_at(calls, k) is None {
        assert(open.remove(p) =~= calls);
    }
}

/// The end of a response says how it went and what it used.
pub proof fn law_ends_are_told(
    data: JsonView,
    response: JsonView,
    usage: JsonView,
    in_details: JsonView,
    out_details: JsonView,
    status: Seq<char>,
    input: u64,
    cached: u64,
    output: u64,
    reasoning: u64,
)
    requires
        member(data, "response"@) == Some(response),
        member(response, "status"@) == Some(JsonView::Text(status)),
        member(response, "usage"@) == Some(usage),
        member(usage, "input_tokens"@) == Some(JsonView::Int(input as int)),
        member(usage, "output_tokens"@) == Some(JsonView::Int(output as int)),
        member(usage, "input_tokens_details"@) == Some(in_details),
        member(in_details, "cached_tokens"@) == Some(JsonView::Int(cached as int)),
        member(usage, "output_tokens_details"@) == Some(out_details),
        member(out_details, "reasoning_tokens"@) == Some(JsonView::Int(reasoning as int)),
    ensures
        told(Seq::empty(), "response.completed"@, data) == seq![
            ModelStreamEventView::MessageEnd {
                stop_reason: if status == "incomplete"@ {
                    StopReason::MaxTokens
                } else if status == "failed"@ || status == "cancelled"@ {
                    StopReason::Error
                } else {
                    StopReason::EndTurn
                },
                usage: TokenUsageView { input, cached_input: cached, output, reasoning },
            },
        ],
{
    lemma_names();
    reveal_strlit("incomplete");
    reveal_strlit("failed");
    reveal_strlit("cancelled");
    assert("incomplete"@.len() == 10 && "failed"@.len() == 6 && "cancelled"@.len() == 9);
    let e = told(Seq::empty(), "response.completed"@, data);
    assert(e.len() == 1);
    assert(e =~= seq![e[0]]);
}

/// An error of the provider ends the stream with its message; any other event says
/// nothing and leaves the open calls as they are.
pub proof fn law_errors_and_the_rest(
    calls: Seq<(u32, Seq<char>)>,
    name: Seq<char>,
    data: JsonView,
    why: Seq<char>,
)
    ensures
        member(data, "message"@) == Some(JsonView::Text(why)) ==> made_of(calls, "error"@, data)
            == Err::<Made, _>(why),
        !seq![
            "response.output_text.delta"@,
            "response.reasoning_summary_text.delta"@,
            "response.output_item.added"@,
            "response.function_call_arguments.delta"@,
            "response.output_item.done"@,
            "response.completed"@,
            "error"@,
        ].contains(name) ==> made_of(calls, name, data) == Ok::<_, Seq<char>>(
            Made { blocks: calls, events: Seq::empty() },
        ),
{
    lemma_names();
    let all = seq![
        "response.output_text.delta"@,
        "response.reasoning_summary_text.delta"@,
        "response.output_item.added"@,
        "response.function_call_arguments.delta"@,
        "response.output_item.done"@,
        "response.completed"@,
        "error"@,
    ];
    if !all.contains(name) {
        assert(name != all[0] && name != all[1] && name != all[2] && name != all[3] && name
            != all[4] && name != all[5] && name != all[6]);
    }
}

// ---- lemmas ----

proof fn lemma_names()
    ensures
        "response.output_text.delta"@.len() == 26,
        "response.reasoning_summary_text.delta"@.len() == 37,
        "response.output_item.added"@.len() == 26,
        "response.function_call_arguments.delta"@.len() == 38,
        "response.output_item.done"@.len() == 25,
        "response.completed"@.len() == 18,
        "error"@.len() == 5,
        "response.output_text.delta"@ != "response.output_item.added"@,
{
    reveal_strlit("response.output_text.delta");
    reveal_strlit("response.reasoning_summary_text.delta");
    reveal_strlit("response.output_item.added");
    reveal_strlit("response.function_call_arguments.delta");
    reveal_strlit("response.output_item.done");
    reveal_strlit("response.completed");
    reveal_strlit("error");
    assert("response.output_text.delta"@.len() == 26 && "response.reasoning_summary_text.delta"@.len() == 37 && "response.output_item.added"@.len() == 26 && "response.function_call_arguments.delta"@.len() == 38 && "response.output_item.done"@.len() == 25 && "response.completed"@.len() == 18 && "error"@.len() == 5);
    assert("response.output_text.delta"@[16] != "response.output_item.added"@[16]);
}

proof fn lemma_keys()
    ensures
        "model"@.len() == 5 && "input"@.len() == 5 && "stream"@.len() == 6 && "store"@.len() == 5
            && "instructions"@.len() == 12 && "tools"@.len() == 5 && "temperature"@.len() == 11
            && "reasoning"@.len() == 9 && "max_output_tokens"@.len() == 17,
        "model"@ != "input"@ && "model"@ != "store"@ && "model"@ != "tools"@ && "input"@ != "store"@
            && "input"@ != "tools"@ && "store"@ != "tools"@,
{
    reveal_strlit("model");
    reveal_strlit("input");
    reveal_strlit("stream");
    reveal_strlit("store");
    reveal_strlit("instructions");
    reveal_strlit("tools");
    reveal_strlit("temperature");
    reveal_strlit("reasoning");
    reveal_strlit("max_output_tokens");
    assert("model"@.len() == 5 && "input"@.len() == 5 && "stream"@.len() == 6 && "store"@.len() == 5 && "instructions"@.len() == 12 && "tools"@.len() == 5 && "temperature"@.len() == 11 && "reasoning"@.len() == 9 && "max_output_tokens"@.len() == 17);
    assert("model"@[0] != "input"@[0]);
    assert("model"@[0] != "store"@[0]);
    assert("model"@[0] != "tools"@[0]);
    assert("input"@[0] != "store"@[0]);
    assert("input"@[0] != "tools"@[0]);
    assert("store"@[0] != "tools"@[0]);
}

proof fn lemma_given(req: ModelRequestView)
    ensures
        given(req) == input_items(req.messages),
{
    lemma_keys();
}

proof fn lemma_result(s: Seq<ModelContentView>)
    requires
        forall|j: int| 0 <= j < s.len() ==> #[trigger] s[j] is Text,
    ensures
        spoken(s) == result_text(s),
    decreases s.len(),
{
    if s.len() > 0 {
        let t = s.drop_last();
        assert forall|j: int| 0 <= j < t.len() implies #[trigger] t[j] is Text by {
            assert(t[j] == s[j]);
        }
        lemma_result(t);
        assert(s[s.len() - 1] is Text);
    }
}

/// A block of a result that is no text is announced in its place.
pub proof fn law_odd_results_are_announced(s: Seq<ModelContentView>, c: ModelContentView)
    requires
        !(c is Text),
    ensures
        result_text(s.push(c)) == result_text(s) + "[unsupported content]"@,
{
    assert(s.push(c).drop_last() =~= s);
}

/// Tokens that are not counted count as none.
pub proof fn law_missing_counts_are_none(u: JsonView)
    requires
        u == JsonView::Object(Map::empty()),
    ensures
        usage_of(u) == (TokenUsageView { input: 0, cached_input: 0, output: 0, reasoning: 0 }),
        crate::providers::anthropic::usage_of(u) == (TokenUsageView {
            input: 0,
            cached_input: 0,
            output: 0,
            reasoning: 0,
        }),
        crate::providers::openai_chat::usage_of(u) == (TokenUsageView {
            input: 0,
            cached_input: 0,
            output: 0,
            reasoning: 0,
        }),
{
}

} // verus!
