//! Requests and streams in the chat format.
use vstd::prelude::*;

use crate::content::ReasoningEffort;
use crate::content::StopReason;
use crate::content::TokenUsageView;
use crate::form::Form;
use crate::form::forms;
use crate::json::JsonView;
use crate::json::json_text;
use crate::json::member;
use crate::laws::messages_api::listed;
use crate::model::ModelContent;
use crate::model::ModelContentView;
use crate::model::ModelMessage;
use crate::model::ModelMessageView;
use crate::model::ModelRequestView;
use crate::model::ModelStreamEventView;
use crate::model::ToolSpec;
use crate::providers::calls::lemma_place;
use crate::providers::calls::lemma_place_is;
use crate::providers::calls::place;
use crate::providers::openai_chat::ChatState;
use crate::providers::openai_chat::MessageForm;
use crate::providers::openai_chat::ToolForm;
use crate::providers::openai_chat::UserPart;
use crate::providers::openai_chat::after_chunk;
use crate::providers::openai_chat::after_piece;
use crate::providers::openai_chat::after_pieces;
use crate::providers::openai_chat::all_text;
use crate::providers::openai_chat::call_form;
use crate::providers::openai_chat::call_forms;
use crate::providers::openai_chat::choice_events;
use crate::providers::openai_chat::chunk_events;
use crate::providers::openai_chat::debug_of;
use crate::providers::openai_chat::messages_form;
use crate::providers::openai_chat::output_text;
use crate::providers::openai_chat::piece_events;
use crate::providers::openai_chat::pieces_events;
use crate::providers::openai_chat::pieces_of;
use crate::providers::openai_chat::request_form;
use crate::providers::openai_responses::ends_of;
use crate::providers::openai_responses::system_texts;
use crate::text::joined;

verus! {

/// The texts among blocks, one behind the other.
pub open spec fn spoken(s: Seq<ModelContentView>) -> Seq<char>
    decreases s.len(),
{
    if s.len() == 0 {
        Seq::empty()
    } else {
        spoken(s.drop_last()) + match s.last() {
            ModelContentView::Text(t) => t,
            _ => Seq::empty(),
        }
    }
}

/// The calls among blocks, in order.
pub open spec fn calls_among(s: Seq<ModelContentView>) -> Seq<ModelContentView>
    decreases s.len(),
{
    if s.len() == 0 {
        Seq::empty()
    } else if s.last() is ToolUse {
        calls_among(s.drop_last()).push(s.last())
    } else {
        calls_among(s.drop_last())
    }
}

/// Whether a written call is a function by the call's id and name, with its input as
/// text.
pub open spec fn shows_call(c: ModelContentView, j: JsonView) -> bool {
    c matches ModelContentView::ToolUse { call_id, name, input } && {
        &&& member(j, "id"@) == Some(JsonView::Text(call_id))
        &&& member(j, "type"@) == Some(JsonView::Text("function"@))
        &&& member(j, "function"@) matches Some(f) && {
            &&& member(f, "name"@) == Some(JsonView::Text(name))
            &&& member(f, "arguments"@) == Some(
                JsonView::Text(
                    match input {
                        JsonView::Text(s) => s,
                        _ => json_text(input),
                    },
                ),
            )
        }
    }
}

/// Whether a written part says what a block of a user's message holds.
pub open spec fn shows_part(c: ModelContentView, b: JsonView) -> bool {
    match c {
        ModelContentView::Text(t) => member(b, "type"@) == Some(JsonView::Text("text"@)) && member(
            b,
            "text"@,
        ) == Some(JsonView::Text(t)),
        ModelContentView::Image { mime, data_base64 } => {
            &&& member(b, "type"@) == Some(JsonView::Text("image_url"@))
            &&& member(b, "image_url"@) matches Some(s) && member(s, "url"@) == Some(
                JsonView::Text("data:"@ + mime + ";base64,"@ + data_base64),
            )
        },
        _ => member(b, "type"@) == Some(JsonView::Text("text"@)) && member(b, "text"@) == Some(
            JsonView::Text("[unsupported content]"@),
        ),
    }
}

/// The messages that a request sends.
pub open spec fn sent(req: ModelRequestView) -> Seq<JsonView> {
    listed(request_form(req), "messages"@)
}

/// The message that stands for the `i`th of the conversation: the system prompt, where
/// there is one, comes before all of them.
pub open spec fn sent_at(req: ModelRequestView, i: int) -> JsonView {
    sent(req)[if req.system.len() > 0 {
        i + 1
    } else {
        i
    }]
}

/// The system prompt is the first message, its blocks a blank line apart; behind it
/// stands one message for each of the conversation.
pub proof fn law_system_prompt_comes_first(req: ModelRequestView)
    ensures
        req.system.len() == 0 ==> sent(req).len() == req.messages.len(),
        req.system.len() > 0 ==> {
            &&& sent(req).len() == req.messages.len() + 1
            &&& member(sent(req)[0], "role"@) == Some(JsonView::Text("system"@))
            &&& member(sent(req)[0], "content"@) == Some(
                JsonView::Text(
                    joined(Seq::new(req.system.len(), |i: int| req.system[i].text), "\n\n"@),
                ),
            )
        },
{
    lemma_keys();
    reveal_strlit("role");
    reveal_strlit("content");
    assert("role"@.len() == 4 && "content"@.len() == 7);
    assert(system_texts(req.system) =~= Seq::new(req.system.len(), |i: int| req.system[i].text));
}

/// The result of a tool is a message of the tool that names the call and holds the
/// text of the result, marked where it is an error and only there.
pub proof fn law_results_are_sent(req: ModelRequestView, i: int)
    requires
        0 <= i < req.messages.len(),
    ensures
        req.messages[i] matches ModelMessageView::ToolResult { call_id, content, is_error } ==> {
            &&& member(sent_at(req, i), "role"@) == Some(JsonView::Text("tool"@))
            &&& member(sent_at(req, i), "tool_call_id"@) == Some(JsonView::Text(call_id))
            &&& (forall|j: int| 0 <= j < content.len() ==> #[trigger] content[j] is Text) ==> member(
                sent_at(req, i),
                "content"@,
            ) == Some(
                JsonView::Text(
                    if is_error {
                        "[ERROR] "@ + spoken(content)
                    } else {
                        spoken(content)
                    },
                ),
            )
        },
{
    lemma_sent_at(req, i);
    reveal_strlit("role");
    reveal_strlit("content");
    reveal_strlit("tool_call_id");
    assert("role"@.len() == 4 && "content"@.len() == 7 && "tool_call_id"@.len() == 12);
    if let ModelMessageView::ToolResult { call_id, content, is_error } = req.messages[i] {
        if forall|j: int| 0 <= j < content.len() ==> #[trigger] content[j] is Text {
            lemma_output(content);
        }
    }
}

/// A block of a result that is no text is announced, with what it is, in its place.
pub proof fn law_odd_results_are_announced(s: Seq<ModelContentView>, c: ModelContentView)
    requires
        !(c is Text),
    ensures
        "[unsupported content: "@.is_prefix_of(
            output_text(s.push(c)).skip(output_text(s).len() as int),
        ),
        output_text(s).is_prefix_of(output_text(s.push(c))),
        output_text(s.push(c)).last() == ']',
{
    reveal_strlit("]");
    assert(s.push(c).drop_last() =~= s);
    let said = "[unsupported content: "@ + debug_of(c) + "]"@;
    assert(output_text(s.push(c)) == output_text(s) + said);
    assert((output_text(s) + said).skip(output_text(s).len() as int) =~= said);
    assert(said.take("[unsupported content: "@.len() as int) =~= "[unsupported content: "@);
    assert(output_text(s) =~= (output_text(s) + said).take(output_text(s).len() as int));
}

/// What the user said is sent block by block; what the model said is sent as one text,
/// or as nothing where there is none, with its calls beside it.
pub proof fn law_what_was_said_is_sent(req: ModelRequestView, i: int, j: int)
    requires
        0 <= i < req.messages.len(),
    ensures
        req.messages[i] matches ModelMessageView::User { content } ==> {
            &&& member(sent_at(req, i), "role"@) == Some(JsonView::Text("user"@))
            &&& listed(sent_at(req, i), "content"@).len() == content.len()
            &&& 0 <= j < content.len() ==> shows_part(
                content[j],
                listed(sent_at(req, i), "content"@)[j],
            )
        },
        req.messages[i] matches ModelMessageView::Assistant { content } ==> {
            &&& member(sent_at(req, i), "role"@) == Some(JsonView::Text("assistant"@))
            &&& member(sent_at(req, i), "content"@) == Some(
                if spoken(content).len() == 0 {
                    JsonView::Null
                } else {
                    JsonView::Text(spoken(content))
                },
            )
            &&& member(sent_at(req, i), "tool_calls"@) is Some <==> calls_among(content).len() > 0
            &&& listed(sent_at(req, i), "tool_calls"@).len() == calls_among(content).len()
            &&& 0 <= j < calls_among(content).len() ==> shows_call(
                calls_among(content)[j],
                listed(sent_at(req, i), "tool_calls"@)[j],
            )
        },
{
    lemma_sent_at(req, i);
    reveal_strlit("role");
    reveal_strlit("content");
    reveal_strlit("tool_calls");
    assert("role"@.len() == 4 && "content"@.len() == 7 && "tool_calls"@.len() == 10);
    match req.messages[i] {
        ModelMessageView::User { content } => {
            if 0 <= j < content.len() {
                lemma_part(content[j]);
            }
        },
        ModelMessageView::Assistant { content } => {
            lemma_spoken(content);
            lemma_calls(content, j);
        },
        _ => {},
    }
}

/// The request names the model, asks for a stream that ends with what was used, and
/// says how many tokens may come back, how hard to think and at which temperature.
pub proof fn law_requests_say_what_was_asked(req: ModelRequestView)
    ensures
        ({
            let r = request_form(req);
            &&& member(r, "model"@) == Some(JsonView::Text(req.model))
            &&& member(r, "max_tokens"@) == Some(JsonView::Int(req.max_output_tokens as int))
            &&& member(r, "stream"@) == Some(JsonView::Bool(true))
            &&& member(r, "stream_options"@) matches Some(o) && member(o, "include_usage"@) == Some(
                JsonView::Bool(true),
            )
            &&& member(r, "temperature"@) == req.temperature
            &&& member(r, "tools"@) is Some <==> req.tools.len() > 0
            &&& listed(r, "tools"@).len() == req.tools.len()
            &&& member(r, "reasoning_effort"@) == match req.reasoning {
                None => None,
                Some(ReasoningEffort::Minimal) => Some(JsonView::Text("minimal"@)),
                Some(ReasoningEffort::Low) => Some(JsonView::Text("low"@)),
                Some(ReasoningEffort::Medium) => Some(JsonView::Text("medium"@)),
                Some(ReasoningEffort::High) => Some(JsonView::Text("high"@)),
                Some(ReasoningEffort::Max) => Some(JsonView::Text("max"@)),
            }
        }),
{
    lemma_keys();
}

/// Every tool is offered as a function with its name, its description and the schema
/// of its input.
pub proof fn law_tools_are_offered(req: ModelRequestView, i: int)
    requires
        0 <= i < req.tools.len(),
    ensures
        ({
            let t = listed(request_form(req), "tools"@)[i];
            &&& member(t, "type"@) == Some(JsonView::Text("function"@))
            &&& member(t, "function"@) matches Some(f) && {
                &&& member(f, "name"@) == Some(JsonView::Text(req.tools[i].name))
                &&& member(f, "description"@) == Some(JsonView::Text(req.tools[i].description))
                &&& member(f, "parameters"@) == Some(req.tools[i].schema)
            }
        }),
{
    lemma_keys();
    assert(listed(request_form(req), "tools"@) == forms::<ToolSpec, ToolForm>(req.tools));
    reveal_strlit("name");
    reveal_strlit("description");
    reveal_strlit("parameters");
    reveal_strlit("type");
    reveal_strlit("function");
    assert("name"@.len() == 4 && "description"@.len() == 11 && "parameters"@.len() == 10 && "type"@.len() == 4 && "function"@.len() == 8);
    assert("name"@[0] != "type"@[0]);
}

/// A piece of text, and a piece of thought, of the first choice comes through as it is.
pub proof fn law_pieces_come_through(
    st: ChatState,
    data: JsonView,
    choices: Seq<JsonView>,
    delta: JsonView,
    piece: Seq<char>,
)
    requires
        member(data, "choices"@) == Some(JsonView::List(choices)),
        choices.len() > 0,
        member(choices[0], "delta"@) == Some(delta),
        member(data, "usage"@) is None,
        member(delta, "tool_calls"@) is None,
        piece.len() > 0,
    ensures
        member(delta, "content"@) == Some(JsonView::Text(piece)) && member(delta, "reasoning_content"@)
            is None ==> chunk_events(st, data) == seq![ModelStreamEventView::TextDelta(piece)],
        member(delta, "reasoning_content"@) == Some(JsonView::Text(piece)) && member(delta, "content"@)
            is None ==> chunk_events(st, data) == seq![ModelStreamEventView::ThinkingDelta(piece)],
        member(delta, "content"@) is None && member(delta, "reasoning_content"@) is None
            ==> chunk_events(st, data) == Seq::<ModelStreamEventView>::empty(),
        after_chunk(st, data).calls == st.calls && after_chunk(st, data).begun == st.begun,
{
    let c = choices[0];
    assert(pieces_of(c) == Seq::<JsonView>::empty());
    assert(pieces_events(st, pieces_of(c)) == Seq::<ModelStreamEventView>::empty());
    assert(chunk_events(st, data) == choice_events(st, c));
    if member(delta, "content"@) == Some(JsonView::Text(piece)) && member(delta, "reasoning_content"@)
        is None {
        assert(choice_events(st, c) =~= seq![ModelStreamEventView::TextDelta(piece)]);
    }
    if member(delta, "reasoning_content"@) == Some(JsonView::Text(piece)) && member(
        delta,
        "content"@,
    ) is None {
        assert(choice_events(st, c) =~= seq![ModelStreamEventView::ThinkingDelta(piece)]);
    }
    if member(delta, "content"@) is None && member(delta, "reasoning_content"@) is None {
        assert(choice_events(st, c) =~= Seq::<ModelStreamEventView>::empty());
    }
}

/// A call begins with the first piece that carries its id; later pieces at the same
/// index belong to it, whether or not they repeat the id.
pub proof fn law_pieces_go_to_their_call(
    st: ChatState,
    first: JsonView,
    f: JsonView,
    later: JsonView,
    g: JsonView,
    k: u32,
    id: Seq<char>,
    tool: Seq<char>,
    piece: Seq<char>,
)
    requires
        !st.begun.contains(id),
        member(first, "index"@) == Some(JsonView::Int(k as int)),
        member(first, "id"@) == Some(JsonView::Text(id)),
        member(first, "function"@) == Some(f),
        member(f, "name"@) == Some(JsonView::Text(tool)),
        member(f, "arguments"@) is None,
        member(later, "index"@) == Some(JsonView::Int(k as int)),
        member(later, "id"@) is None,
        member(later, "function"@) == Some(g),
        member(g, "arguments"@) == Some(JsonView::Text(piece)),
        piece.len() > 0,
    ensures
        piece_events(st, first) == seq![
            ModelStreamEventView::ToolUseBegin { call_id: id, name: tool },
        ],
        piece_events(after_piece(st, first), later) == seq![
            ModelStreamEventView::ToolUseInputDelta { call_id: id, json_fragment: piece },
        ],
        after_piece(after_piece(st, first), later) == after_piece(st, first),
        pieces_events(st, seq![first, later]) == seq![
            ModelStreamEventView::ToolUseBegin { call_id: id, name: tool },
            ModelStreamEventView::ToolUseInputDelta { call_id: id, json_fragment: piece },
        ],
{
    let st2 = after_piece(st, first);
    lemma_place(st.calls, k);
    let p = place(st.calls, k);
    assert forall|i: int| 0 <= i < p implies (#[trigger] st2.calls[i]).0 != k by {
        assert(st2.calls[i] == st.calls[i]);
    }
    lemma_place_is(st2.calls, k, p);
    assert(piece_events(st, first) =~= seq![
        ModelStreamEventView::ToolUseBegin { call_id: id, name: tool },
    ]);
    assert(piece_events(st2, later) =~= seq![
        ModelStreamEventView::ToolUseInputDelta { call_id: id, json_fragment: piece },
    ]);
    let two = seq![first, later];
    let one = seq![first];
    assert(two.drop_last() =~= one);
    assert(one.drop_last() =~= Seq::<JsonView>::empty());
    assert(after_pieces(st, one.drop_last()) == st);
    assert(after_pieces(st, one) == st2);
    assert(pieces_events(st, one.drop_last()) == Seq::<ModelStreamEventView>::empty());
    assert(pieces_events(st, one) =~= piece_events(st, first));
    assert(pieces_events(st, two) =~= piece_events(st, first) + piece_events(st2, later));
}

/// The message ends with the chunk that says what was used: with the reason given
/// before, or none, and with the tokens of that chunk.
pub proof fn law_ends_are_told(
    st: ChatState,
    last: JsonView,
    choices: Seq<JsonView>,
    end: JsonView,
    usage: JsonView,
    details: JsonView,
    why: Seq<char>,
    input: u64,
    cached: u64,
    output: u64,
)
    requires
        st.calls.len() == 0,
        member(last, "choices"@) == Some(JsonView::List(choices)),
        choices.len() > 0,
        member(choices[0], "delta"@) is None,
        member(choices[0], "finish_reason"@) == Some(JsonView::Text(why)),
        member(last, "usage"@) is None,
        member(end, "choices"@) is None,
        member(end, "usage"@) == Some(usage),
        member(usage, "prompt_tokens"@) == Some(JsonView::Int(input as int)),
        member(usage, "completion_tokens"@) == Some(JsonView::Int(output as int)),
        member(usage, "prompt_tokens_details"@) == Some(details),
        member(details, "cached_tokens"@) == Some(JsonView::Int(cached as int)),
    ensures
        chunk_events(st, last) == Seq::<ModelStreamEventView>::empty(),
        chunk_events(after_chunk(st, last), end) == seq![
            ModelStreamEventView::MessageEnd {
                stop_reason: if why == "length"@ {
                    StopReason::MaxTokens
                } else if why == "tool_calls"@ || why == "function_call"@ {
                    StopReason::ToolUse
                } else if why == "content_filter"@ {
                    StopReason::Refused
                } else {
                    StopReason::EndTurn
                },
                usage: TokenUsageView { input, cached_input: cached, output, reasoning: 0 },
            },
        ],
        after_chunk(after_chunk(st, last), end) == (ChatState {
            calls: Seq::empty(),
            begun: Set::empty(),
            pending_stop: None,
        }),
{
    reveal_strlit("length");
    reveal_strlit("tool_calls");
    reveal_strlit("function_call");
    reveal_strlit("content_filter");
    assert("length"@.len() == 6 && "tool_calls"@.len() == 10 && "function_call"@.len() == 13 && "content_filter"@.len() == 14);
    let c = choices[0];
    assert(pieces_of(c) == Seq::<JsonView>::empty());
    assert(pieces_events(st, pieces_of(c)) == Seq::<ModelStreamEventView>::empty());
    assert(after_pieces(st, pieces_of(c)) == st);
    assert(choice_events(st, c) =~= Seq::<ModelStreamEventView>::empty());
    let st2 = after_chunk(st, last);
    assert(st2.calls == st.calls);
    let e = Seq::<ModelStreamEventView>::empty();
    assert(e + ends_of(st2.calls) =~= e);
    assert(chunk_events(st2, end).len() == 1);
    assert(chunk_events(st2, end) =~= seq![chunk_events(st2, end)[0]]);
}

// ---- lemmas ----

proof fn lemma_keys()
    ensures
        "model"@.len() == 5 && "messages"@.len() == 8 && "max_tokens"@.len() == 10 && "stream"@.len()
            == 6 && "stream_options"@.len() == 14 && "tools"@.len() == 5 && "temperature"@.len()
            == 11 && "reasoning_effort"@.len() == 16,
        "model"@ != "tools"@,
{
    reveal_strlit("model");
    reveal_strlit("messages");
    reveal_strlit("max_tokens");
    reveal_strlit("stream");
    reveal_strlit("stream_options");
    reveal_strlit("tools");
    reveal_strlit("temperature");
    reveal_strlit("reasoning_effort");
    assert("model"@.len() == 5 && "messages"@.len() == 8 && "max_tokens"@.len() == 10 && "stream"@.len() == 6 && "stream_options"@.len() == 14 && "tools"@.len() == 5 && "temperature"@.len() == 11 && "reasoning_effort"@.len() == 16);
    assert("model"@[0] != "tools"@[0]);
}

proof fn lemma_sent_at(req: ModelRequestView, i: int)
    requires
        0 <= i < req.messages.len(),
    ensures
        sent_at(req, i) == <MessageForm as Form<ModelMessage>>::form(req.messages[i]),
{
    lemma_keys();
    assert(sent(req) == messages_form(req));
    let rest = forms::<ModelMessage, MessageForm>(req.messages);
    assert(rest[i] == <MessageForm as Form<ModelMessage>>::form(req.messages[i]));
}

proof fn lemma_part(c: ModelContentView)
    ensures
        shows_part(c, <UserPart as Form<ModelContent>>::form(c)),
{
    reveal_strlit("type");
    reveal_strlit("text");
    reveal_strlit("image_url");
    reveal_strlit("url");
    assert("type"@.len() == 4 && "text"@.len() == 4 && "image_url"@.len() == 9 && "url"@.len() == 3);
    assert("type"@[1] != "text"@[1]);
}

proof fn lemma_spoken(s: Seq<ModelContentView>)
    ensures
        spoken(s) == all_text(s),
    decreases s.len(),
{
    if s.len() > 0 {
        lemma_spoken(s.drop_last());
        assert(spoken(s.drop_last()) + Seq::<char>::empty() =~= spoken(s.drop_last()));
    }
}

proof fn lemma_output(s: Seq<ModelContentView>)
    requires
        forall|j: int| 0 <= j < s.len() ==> #[trigger] s[j] is Text,
    ensures
        spoken(s) == output_text(s),
    decreases s.len(),
{
    if s.len() > 0 {
        let t = s.drop_last();
        assert forall|j: int| 0 <= j < t.len() implies #[trigger] t[j] is Text by {
            assert(t[j] == s[j]);
        }
        lemma_output(t);
        assert(s[s.len() - 1] is Text);
    }
}

proof fn lemma_calls(s: Seq<ModelContentView>, j: int)
    ensures
        call_forms(s).len() == calls_among(s).len(),
        0 <= j < calls_among(s).len() ==> shows_call(calls_among(s)[j], call_forms(s)[j]),
    decreases s.len(),
{
    if s.len() > 0 {
        lemma_calls(s.drop_last(), j);
        if let ModelContentView::ToolUse { call_id, name, input } = s.last() {
            reveal_strlit("id");
            reveal_strlit("type");
            reveal_strlit("function");
            reveal_strlit("name");
            reveal_strlit("arguments");
            assert("id"@.len() == 2 && "type"@.len() == 4 && "function"@.len() == 8 && "name"@.len() == 4 && "arguments"@.len() == 9);
            assert("type"@[0] != "name"@[0]);
            assert(shows_call(s.last(), call_form(call_id, name, input)));
        }
    }
}

} // verus!
