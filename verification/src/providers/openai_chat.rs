//! The OpenAI Chat Completions format, which many providers share.
use vstd::prelude::*;
use vstd::string::*;

use crate::content::StopReason;
use crate::content::TokenUsage;
use crate::content::TokenUsageView;
use crate::form::Form;
use crate::form::forms;
use crate::form::obj1;
use crate::form::obj2;
use crate::form::obj3;
use crate::form::object1;
use crate::form::object2;
use crate::form::object3;
use crate::form::write_list;
use crate::form::write_values;
use crate::ids::CallId;
use crate::json::Json;
use crate::json::JsonView;
use crate::json::Members;
use crate::json::debug;
use crate::json::json_debug;
use crate::json::json_read;
use crate::json::json_refusal;
use crate::json::lemma_list_view;
use crate::json::list_in;
use crate::json::list_view;
use crate::json::member;
use crate::json::parse;
use crate::json::text_in;
use crate::json::u64_in;
use crate::model::ModelContent;
use crate::model::ModelContentView;
use crate::model::ModelError;
use crate::model::ModelErrorView;
use crate::model::ModelMessage;
use crate::model::ModelMessageView;
use crate::model::ModelRequest;
use crate::model::ModelRequestView;
use crate::model::ModelStreamEvent;
use crate::model::ModelStreamEventView;
use crate::model::ToolSpec;
use crate::model::ToolSpecView;
use crate::providers::anthropic::text_block;
use crate::providers::anthropic::unless_empty;
use crate::providers::anthropic::with_member;
use crate::providers::calls::Calls;
use crate::providers::calls::below;
use crate::providers::calls::call_at;
use crate::providers::calls::distinct;
use crate::providers::calls::index_at;
use crate::providers::calls::index_in;
use crate::providers::calls::number_at;
use crate::providers::calls::number_below;
use crate::providers::calls::or_text;
use crate::providers::calls::or_zero;
use crate::providers::calls::text_at;
use crate::providers::calls::text_below;
use crate::providers::calls::text_or;
use crate::providers::calls::with_call;
use crate::providers::common::SseEvent;
use crate::providers::openai_responses::arguments_text;
use crate::providers::openai_responses::data_url;
use crate::providers::openai_responses::ends_of;
use crate::providers::openai_responses::image_url;
use crate::providers::openai_responses::input_to_string;
use crate::providers::openai_responses::mark;
use crate::providers::openai_responses::marked;
use crate::providers::openai_responses::nothing;
use crate::providers::openai_responses::push_ends;
use crate::providers::openai_responses::system_text;
use crate::providers::openai_responses::system_texts;
use crate::text::cat3;
use crate::text::cat;
use crate::text::joined;
use crate::text::quote;
use crate::text::quoted;
use crate::text::same;

verus! {

// ---- requests ----

/// Blocks of a user's message.
pub struct UserPart;

impl Form<ModelContent> for UserPart {
    open spec fn form(v: ModelContentView) -> JsonView {
        match v {
            ModelContentView::Text(t) => text_block(t),
            ModelContentView::Image { mime, data_base64 } => obj2(
                "type"@,
                JsonView::Text("image_url"@),
                "image_url"@,
                obj1("url"@, JsonView::Text(data_url(mime, data_base64))),
            ),
            _ => text_block("[unsupported content]"@),
        }
    }

    fn write(t: &ModelContent) -> (r: Json) {
        match t {
            ModelContent::Text(t) => object2(
                "type",
                Json::text("text"),
                "text",
                Json::text(t.as_str()),
            ),
            ModelContent::Image { mime, data_base64 } => {
                let url = image_url(mime.as_str(), data_base64.as_str());
                object2(
                    "type",
                    Json::text("image_url"),
                    "image_url",
                    object1("url", Json::text(url.as_str())),
                )
            },
            _ => object2(
                "type",
                Json::text("text"),
                "text",
                Json::text("[unsupported content]"),
            ),
        }
    }
}

/// The texts of the model's own message, one after the other.
pub open spec fn all_text(s: Seq<ModelContentView>) -> Seq<char>
    decreases s.len(),
{
    if s.len() == 0 {
        Seq::empty()
    } else {
        match s.last() {
            ModelContentView::Text(t) => all_text(s.drop_last()) + t,
            _ => all_text(s.drop_last()),
        }
    }
}

/// One tool call of the model's own message.
pub open spec fn call_form(id: Seq<char>, name: Seq<char>, input: JsonView) -> JsonView {
    obj3(
        "id"@,
        JsonView::Text(id),
        "type"@,
        JsonView::Text("function"@),
        "function"@,
        obj2(
            "name"@,
            JsonView::Text(name),
            "arguments"@,
            JsonView::Text(arguments_text(input)),
        ),
    )
}

/// The tool calls of the model's own message.
pub open spec fn call_forms(s: Seq<ModelContentView>) -> Seq<JsonView>
    decreases s.len(),
{
    if s.len() == 0 {
        Seq::empty()
    } else {
        match s.last() {
            ModelContentView::ToolUse { call_id, name, input } => call_forms(s.drop_last()).push(
                call_form(call_id, name, input),
            ),
            _ => call_forms(s.drop_last()),
        }
    }
}

/// A block as Rust's debug format has it.
pub open spec fn debug_of(c: ModelContentView) -> Seq<char> {
    match c {
        ModelContentView::Text(t) => "Text("@ + quoted(t) + ")"@,
        ModelContentView::Thinking { text, signature } => "Thinking { text: "@ + quoted(text)
            + ", signature: "@ + (match signature {
            None => "None"@,
            Some(s) => "Some("@ + quoted(s) + ")"@,
        }) + " }"@,
        ModelContentView::ToolUse { call_id, name, input } => "ToolUse { call_id: CallId("@
            + quoted(call_id) + "), name: "@ + quoted(name) + ", input: "@ + json_debug(input)
            + " }"@,
        ModelContentView::Image { mime, data_base64 } => "Image { mime: "@ + quoted(mime)
            + ", data_base64: "@ + quoted(data_base64) + " }"@,
    }
}

/// The text of a tool's result.
pub open spec fn output_text(s: Seq<ModelContentView>) -> Seq<char>
    decreases s.len(),
{
    if s.len() == 0 {
        Seq::empty()
    } else {
        output_text(s.drop_last()) + match s.last() {
            ModelContentView::Text(t) => t,
            c => "[unsupported content: "@ + debug_of(c) + "]"@,
        }
    }
}

/// Messages.
pub struct MessageForm;

impl Form<ModelMessage> for MessageForm {
    open spec fn form(v: ModelMessageView) -> JsonView {
        match v {
            ModelMessageView::User { content } => obj2(
                "role"@,
                JsonView::Text("user"@),
                "content"@,
                JsonView::List(forms::<ModelContent, UserPart>(content)),
            ),
            ModelMessageView::Assistant { content } => JsonView::Object(
                with_member(
                    Map::empty().insert("role"@, JsonView::Text("assistant"@)).insert(
                        "content"@,
                        if all_text(content).len() == 0 {
                            JsonView::Null
                        } else {
                            JsonView::Text(all_text(content))
                        },
                    ),
                    "tool_calls"@,
                    unless_empty(call_forms(content)),
                ),
            ),
            ModelMessageView::ToolResult { call_id, content, is_error } => obj3(
                "role"@,
                JsonView::Text("tool"@),
                "tool_call_id"@,
                JsonView::Text(call_id),
                "content"@,
                JsonView::Text(marked(is_error, output_text(content))),
            ),
        }
    }

    fn write(t: &ModelMessage) -> (r: Json) {
        match t {
            ModelMessage::User { content } => object2(
                "role",
                Json::text("user"),
                "content",
                write_list::<ModelContent, UserPart>(content),
            ),
            ModelMessage::Assistant { content } => {
                let (text, calls) = split_assistant(content);
                let mut m = Members::new();
                m.put("role", Json::text("assistant"));
                if text.as_str().is_empty() {
                    m.put("content", Json::Null);
                } else {
                    m.put("content", Json::Text(text));
                }
                proof {
                    crate::json::lemma_list_view(calls@);
                }
                if calls.len() > 0 {
                    m.put("tool_calls", Json::List(calls));
                }
                m.done()
            },
            ModelMessage::ToolResult { call_id, content, is_error } => {
                let body = mark(*is_error, write_output_text(content));
                object3(
                    "role",
                    Json::text("tool"),
                    "tool_call_id",
                    Json::text(call_id.as_str()),
                    "content",
                    Json::text(body.as_str()),
                )
            },
        }
    }
}

fn split_assistant(content: &Vec<ModelContent>) -> (r: (String, Vec<Json>))
    ensures
        r.0@ == all_text(content.deep_view()),
        list_view(r.1@) == call_forms(content.deep_view()),
{
    let mut text = String::new();
    let mut calls: Vec<Json> = Vec::new();
    let mut i: usize = 0;
    let ghost all = content.deep_view();
    while i < content.len()
        invariant
            i <= content@.len(),
            all == content.deep_view(),
            text@ == all_text(all.take(i as int)),
            list_view(calls@) == call_forms(all.take(i as int)),
        decreases content@.len() - i,
    {
        let ghost before = calls@;
        assert(all.take(i + 1).drop_last() =~= all.take(i as int));
        assert(all.take(i + 1).last() == content@[i as int].deep_view());
        match &content[i] {
            ModelContent::Text(t) => text.append(t.as_str()),
            ModelContent::ToolUse { call_id, name, input } => {
                let args = input_to_string(input);
                calls.push(
                    object3(
                        "id",
                        Json::text(call_id.as_str()),
                        "type",
                        Json::text("function"),
                        "function",
                        object2(
                            "name",
                            Json::text(name.as_str()),
                            "arguments",
                            Json::text(args.as_str()),
                        ),
                    ),
                );
                assert(calls@.drop_last() =~= before);
            },
            _ => {},
        }
        i = i + 1;
    }
    assert(all.take(all.len() as int) =~= all);
    (text, calls)
}

fn content_debug(c: &ModelContent) -> (r: String)
    ensures
        r@ == debug_of(c.deep_view()),
{
    let mut r = String::new();
    match c {
        ModelContent::Text(t) => {
            r.append("Text(");
            r.append(quote(t.as_str()).as_str());
            r.append(")");
        },
        ModelContent::Thinking { text, signature } => {
            r.append("Thinking { text: ");
            r.append(quote(text.as_str()).as_str());
            r.append(", signature: ");
            match signature {
                None => r.append("None"),
                Some(s) => {
                    let q = quote(s.as_str());
                    let part = cat3("Some(", q.as_str(), ")");
                    r.append(part.as_str());
                },
            }
            r.append(" }");
        },
        ModelContent::ToolUse { call_id, name, input } => {
            r.append("ToolUse { call_id: CallId(");
            r.append(quote(call_id.as_str()).as_str());
            r.append("), name: ");
            r.append(quote(name.as_str()).as_str());
            r.append(", input: ");
            r.append(debug(input).as_str());
            r.append(" }");
        },
        ModelContent::Image { mime, data_base64 } => {
            r.append("Image { mime: ");
            r.append(quote(mime.as_str()).as_str());
            r.append(", data_base64: ");
            r.append(quote(data_base64.as_str()).as_str());
            r.append(" }");
        },
    }
    assert(r@ =~= debug_of(c.deep_view()));
    r
}

fn write_output_text(content: &Vec<ModelContent>) -> (r: String)
    ensures
        r@ == output_text(content.deep_view()),
{
    let mut r = String::new();
    let mut i: usize = 0;
    let ghost all = content.deep_view();
    while i < content.len()
        invariant
            i <= content@.len(),
            all == content.deep_view(),
            r@ == output_text(all.take(i as int)),
        decreases content@.len() - i,
    {
        assert(all.take(i + 1).drop_last() =~= all.take(i as int));
        assert(all.take(i + 1).last() == content@[i as int].deep_view());
        match &content[i] {
            ModelContent::Text(t) => r.append(t.as_str()),
            c => {
                let d = content_debug(c);
                let part = cat3("[unsupported content: ", d.as_str(), "]");
                r.append(part.as_str());
            },
        }
        i = i + 1;
    }
    assert(all.take(all.len() as int) =~= all);
    r
}

/// Tools.
pub struct ToolForm;

impl Form<ToolSpec> for ToolForm {
    open spec fn form(v: ToolSpecView) -> JsonView {
        obj2(
            "type"@,
            JsonView::Text("function"@),
            "function"@,
            obj3(
                "name"@,
                JsonView::Text(v.name),
                "description"@,
                JsonView::Text(v.description),
                "parameters"@,
                v.schema,
            ),
        )
    }

    fn write(t: &ToolSpec) -> (r: Json) {
        object2(
            "type",
            Json::text("function"),
            "function",
            object3(
                "name",
                Json::text(t.name.as_str()),
                "description",
                Json::text(t.description.as_str()),
                "parameters",
                t.schema.clone(),
            ),
        )
    }
}

/// The messages of a request: the system prompt, as one message, goes first.
pub open spec fn messages_form(req: ModelRequestView) -> Seq<JsonView> {
    let rest = forms::<ModelMessage, MessageForm>(req.messages);
    if req.system.len() == 0 {
        rest
    } else {
        seq![
            obj2(
                "role"@,
                JsonView::Text("system"@),
                "content"@,
                JsonView::Text(joined(system_texts(req.system), "\n\n"@)),
            ),
        ] + rest
    }
}

/// The body of a request.
pub open spec fn request_form(req: ModelRequestView) -> JsonView {
    let m = Map::<Seq<char>, JsonView>::empty().insert("model"@, JsonView::Text(req.model)).insert(
        "messages"@,
        JsonView::List(messages_form(req)),
    ).insert("max_tokens"@, JsonView::Int(req.max_output_tokens as int)).insert(
        "stream"@,
        JsonView::Bool(true),
    ).insert("stream_options"@, obj1("include_usage"@, JsonView::Bool(true)));
    let m = with_member(m, "tools"@, unless_empty(forms::<ToolSpec, ToolForm>(req.tools)));
    let m = with_member(m, "temperature"@, req.temperature);
    JsonView::Object(
        with_member(
            m,
            "reasoning_effort"@,
            match req.reasoning {
                Some(e) => Some(JsonView::Text(e.name())),
                None => None,
            },
        ),
    )
}

/// The body of a request.
pub fn encode_request(req: &ModelRequest) -> (r: Result<Json, ModelError>)
    ensures
        r matches Ok(j) && j@ == request_form(req.deep_view()),
{
    let rest = write_values::<ModelMessage, MessageForm>(&req.messages);
    let messages = if req.system.len() > 0 {
        let text = system_text(&req.system);
        let head = object2("role", Json::text("system"), "content", Json::text(text.as_str()));
        let mut all = rest;
        all.insert(0, head);
        proof {
            crate::json::lemma_list_view(all@);
            crate::json::lemma_list_view(rest@);
            assert(list_view(all@) =~= seq![head@] + list_view(rest@));
        }
        all
    } else {
        rest
    };
    assert(list_view(messages@) == messages_form(req.deep_view()));
    let mut m = Members::new();
    m.put("model", Json::text(req.model.as_str()));
    m.put("messages", Json::List(messages));
    m.put("max_tokens", Json::Unsigned(req.max_output_tokens as u64));
    m.put("stream", Json::Bool(true));
    m.put("stream_options", object1("include_usage", Json::Bool(true)));
    if req.tools.len() > 0 {
        m.put("tools", write_list::<ToolSpec, ToolForm>(&req.tools));
    }
    match &req.temperature {
        Some(t) => {
            m.put("temperature", t.clone());
        },
        None => {},
    }
    match req.reasoning {
        Some(e) => {
            m.put("reasoning_effort", Json::text(e.as_str()));
        },
        None => {},
    }
    Ok(m.done())
}

// ---- streams ----

/// Why the model stopped.
pub open spec fn stop_of(s: Seq<char>) -> StopReason {
    if s == "length"@ {
        StopReason::MaxTokens
    } else if s == "tool_calls"@ || s == "function_call"@ {
        StopReason::ToolUse
    } else if s == "content_filter"@ {
        StopReason::Refused
    } else {
        StopReason::EndTurn
    }
}

/// The tokens used.
pub open spec fn usage_of(u: JsonView) -> TokenUsageView {
    TokenUsageView {
        input: or_zero(u64_in(member(u, "prompt_tokens"@))),
        cached_input: or_zero(u64_in(below(u, "prompt_tokens_details"@, "cached_tokens"@))),
        output: or_zero(u64_in(member(u, "completion_tokens"@))),
        reasoning: 0,
    }
}

/// What a stream has come to: its calls by index, those that have begun, and why
/// the model stopped where it has said so.
pub struct ChatState {
    pub calls: Seq<(u32, Seq<char>)>,
    pub begun: Set<Seq<char>>,
    pub pending_stop: Option<StopReason>,
}

/// A non-empty text of a member.
pub open spec fn filled_text(j: JsonView, k: Seq<char>) -> Option<Seq<char>> {
    match text_in(member(j, k)) {
        Some(t) => if t.len() == 0 {
            None
        } else {
            Some(t)
        },
        None => None,
    }
}

/// The call that a piece belongs to: the one that it names, else the one at its
/// index.
pub open spec fn piece_call(st: ChatState, tc: JsonView) -> Seq<char> {
    match text_in(member(tc, "id"@)) {
        Some(id) => id,
        None => or_text(call_at(st.calls, index_in(tc, "index"@)), "c-?"@),
    }
}

/// The state after a piece of a tool call.
pub open spec fn after_piece(st: ChatState, tc: JsonView) -> ChatState {
    match text_in(member(tc, "id"@)) {
        Some(id) => ChatState {
            calls: with_call(st.calls, index_in(tc, "index"@), id),
            begun: st.begun.insert(id),
            pending_stop: st.pending_stop,
        },
        None => st,
    }
}

/// What a piece of a tool call comes to: a call begins when it is first named,
/// and a piece of arguments goes to its call.
pub open spec fn piece_events(st: ChatState, tc: JsonView) -> Seq<ModelStreamEventView> {
    let begin = match text_in(member(tc, "id"@)) {
        Some(id) => if st.begun.contains(id) {
            Seq::empty()
        } else {
            seq![
                ModelStreamEventView::ToolUseBegin {
                    call_id: id,
                    name: or_text(text_in(below(tc, "function"@, "name"@)), ""@),
                },
            ]
        },
        None => Seq::empty(),
    };
    let piece = match text_in(below(tc, "function"@, "arguments"@)) {
        Some(t) => if t.len() == 0 {
            Seq::empty()
        } else {
            seq![
                ModelStreamEventView::ToolUseInputDelta {
                    call_id: piece_call(st, tc),
                    json_fragment: t,
                },
            ]
        },
        None => Seq::empty(),
    };
    begin + piece
}

/// The state after several pieces.
pub open spec fn after_pieces(st: ChatState, s: Seq<JsonView>) -> ChatState
    decreases s.len(),
{
    if s.len() == 0 {
        st
    } else {
        after_piece(after_pieces(st, s.drop_last()), s.last())
    }
}

/// What several pieces come to.
pub open spec fn pieces_events(st: ChatState, s: Seq<JsonView>) -> Seq<ModelStreamEventView>
    decreases s.len(),
{
    if s.len() == 0 {
        Seq::empty()
    } else {
        pieces_events(st, s.drop_last()) + piece_events(after_pieces(st, s.drop_last()), s.last())
    }
}

/// The first choice of a chunk.
pub open spec fn first_choice(data: JsonView) -> Option<JsonView> {
    match list_in(member(data, "choices"@)) {
        Some(s) => if s.len() == 0 {
            None
        } else {
            Some(s[0])
        },
        None => None,
    }
}

/// The pieces of tool calls in a choice.
pub open spec fn pieces_of(choice: JsonView) -> Seq<JsonView> {
    match list_in(below(choice, "delta"@, "tool_calls"@)) {
        Some(s) => s,
        None => Seq::empty(),
    }
}

/// What the delta of a choice is.
pub open spec fn delta_in(choice: JsonView) -> JsonView {
    match member(choice, "delta"@) {
        Some(d) => d,
        None => JsonView::Object(Map::empty()),
    }
}

/// The state after a choice.
pub open spec fn after_choice(st: ChatState, choice: JsonView) -> ChatState {
    let st2 = after_pieces(st, pieces_of(choice));
    match text_in(member(choice, "finish_reason"@)) {
        Some(s) => ChatState { pending_stop: Some(stop_of(s)), ..st2 },
        None => st2,
    }
}

/// What a choice comes to: text, thought, and tool calls.
pub open spec fn choice_events(st: ChatState, choice: JsonView) -> Seq<ModelStreamEventView> {
    let d = delta_in(choice);
    let text = match filled_text(d, "content"@) {
        Some(t) => seq![ModelStreamEventView::TextDelta(t)],
        None => Seq::empty(),
    };
    let thought = match filled_text(d, "reasoning_content"@) {
        Some(t) => seq![ModelStreamEventView::ThinkingDelta(t)],
        None => Seq::empty(),
    };
    text + thought + pieces_events(st, pieces_of(choice))
}

/// The state after a chunk: once the usage has come, nothing is open.
pub open spec fn after_chunk(st: ChatState, data: JsonView) -> ChatState {
    let st2 = match first_choice(data) {
        Some(c) => after_choice(st, c),
        None => st,
    };
    match member(data, "usage"@) {
        Some(_) => ChatState { calls: Seq::empty(), begun: Set::empty(), pending_stop: None },
        None => st2,
    }
}

/// What a chunk comes to: what its first choice does, and once the usage has come
/// the end of the message and of every call.
pub open spec fn chunk_events(st: ChatState, data: JsonView) -> Seq<ModelStreamEventView> {
    let (st2, events) = match first_choice(data) {
        Some(c) => (after_choice(st, c), choice_events(st, c)),
        None => (st, Seq::empty()),
    };
    match member(data, "usage"@) {
        Some(u) => (events + ends_of(st2.calls)).push(
            ModelStreamEventView::MessageEnd {
                stop_reason: match st2.pending_stop {
                    Some(s) => s,
                    None => StopReason::EndTurn,
                },
                usage: usage_of(u),
            },
        ),
        None => events,
    }
}

fn map_stop_reason(s: &str) -> (r: StopReason)
    ensures
        r == stop_of(s@),
{
    if same(s, "length") {
        StopReason::MaxTokens
    } else if same(s, "tool_calls") || same(s, "function_call") {
        StopReason::ToolUse
    } else if same(s, "content_filter") {
        StopReason::Refused
    } else {
        StopReason::EndTurn
    }
}

fn map_usage(u: &Json) -> (r: TokenUsage)
    ensures
        r.deep_view() == usage_of(u@),
{
    TokenUsage {
        input: number_at(u, "prompt_tokens"),
        cached_input: number_below(u, "prompt_tokens_details", "cached_tokens"),
        output: number_at(u, "completion_tokens"),
        reasoning: 0,
    }
}

/// Turns the provider's stream into the library's.
pub struct OpenAiChatDecoder {
    tool_calls: Calls,
    begun: Vec<String>,
    pending_stop: Option<StopReason>,
}

/// The texts of a list.
pub open spec fn text_set(s: Seq<String>) -> Set<Seq<char>>
    decreases s.len(),
{
    if s.len() == 0 {
        Set::empty()
    } else {
        text_set(s.drop_last()).insert(s.last()@)
    }
}

proof fn lemma_text_set(s: Seq<String>, i: int)
    requires
        0 <= i < s.len(),
    ensures
        text_set(s).contains(s[i]@),
    decreases s.len(),
{
    if i < s.len() - 1 {
        lemma_text_set(s.drop_last(), i);
    }
}

impl View for OpenAiChatDecoder {
    type V = ChatState;

    closed spec fn view(&self) -> ChatState {
        ChatState {
            calls: self.tool_calls@,
            begun: text_set(self.begun@),
            pending_stop: self.pending_stop,
        }
    }
}

fn push_event(out: &mut Vec<ModelStreamEvent>, ev: ModelStreamEvent)
    ensures
        final(out).deep_view() == old(out).deep_view().push(ev.deep_view()),
{
    out.push(ev);
    assert(out.deep_view() =~= old(out).deep_view().push(ev.deep_view()));
}

impl OpenAiChatDecoder {
    /// No index is open twice.
    pub open spec fn inv(&self) -> bool {
        distinct(self@.calls)
    }

    /// A decoder at the start of a stream.
    pub fn new() -> (r: Self)
        ensures
            r.inv(),
            r@ == (ChatState { calls: Seq::empty(), begun: Set::empty(), pending_stop: None }),
    {
        OpenAiChatDecoder { tool_calls: Calls::new(), begun: Vec::new(), pending_stop: None }
    }

    fn has_begun(&self, id: &str) -> (r: bool)
        ensures
            r == self@.begun.contains(id@),
    {
        let mut i: usize = 0;
        assert(self.begun@.take(0) =~= Seq::<String>::empty());
        while i < self.begun.len()
            invariant
                i <= self.begun@.len(),
                !text_set(self.begun@.take(i as int)).contains(id@),
            decreases self.begun@.len() - i,
        {
            assert(self.begun@.take(i + 1).drop_last() =~= self.begun@.take(i as int));
            if same(self.begun[i].as_str(), id) {
                proof {
                    lemma_text_set(self.begun@, i as int);
                }
                return true;
            }
            i = i + 1;
        }
        assert(self.begun@.take(self.begun@.len() as int) =~= self.begun@);
        false
    }

    fn piece(&mut self, tc: &Json, out: &mut Vec<ModelStreamEvent>)
        requires
            old(self).inv(),
        ensures
            final(self).inv(),
            final(self)@ == after_piece(old(self)@, tc@),
            final(out).deep_view() == old(out).deep_view() + piece_events(old(self)@, tc@),
    {
        let ghost st = self@;
        let ghost start = out.deep_view();
        let index: u32 = index_at(tc, "index");
        let call_id = match text_at(tc, "id") {
            Some(id) => {
                let call_id = CallId::new(id.as_str());
                self.tool_calls.insert(index, call_id.clone());
                if !self.has_begun(id.as_str()) {
                    let name = text_or(text_below(tc, "function", "name"), "");
                    let ghost before = self.begun@;
                    self.begun.push(id);
                    assert(self.begun@.drop_last() =~= before);
                    push_event(
                        out,
                        ModelStreamEvent::ToolUseBegin { call_id: call_id.clone(), name },
                    );
                } else {
                    assert(st.begun.insert(id@) =~= st.begun);
                }
                call_id
            },
            None => match self.tool_calls.get(index) {
                Some(id) => id,
                None => CallId::new("c-?"),
            },
        };
        assert(call_id.deep_view() == piece_call(st, tc@));
        match text_below(tc, "function", "arguments") {
            Some(t) => {
                if !t.as_str().is_empty() {
                    push_event(
                        out,
                        ModelStreamEvent::ToolUseInputDelta { call_id, json_fragment: t },
                    );
                }
            },
            None => {},
        }
        assert(out.deep_view() =~= start + piece_events(st, tc@));
    }

    fn pieces(&mut self, tcs: &Vec<Json>, out: &mut Vec<ModelStreamEvent>)
        requires
            old(self).inv(),
        ensures
            final(self).inv(),
            final(self)@ == after_pieces(old(self)@, list_view(tcs@)),
            final(out).deep_view() == old(out).deep_view() + pieces_events(
                old(self)@,
                list_view(tcs@),
            ),
    {
        let ghost st = self@;
        let ghost start = out.deep_view();
        let ghost all = list_view(tcs@);
        let mut i: usize = 0;
        proof {
            lemma_list_view(tcs@);
            assert(out.deep_view() =~= start + pieces_events(st, all.take(0)));
        }
        while i < tcs.len()
            invariant
                i <= tcs@.len(),
                self.inv(),
                all == list_view(tcs@),
                all.len() == tcs@.len(),
                forall|k: int| 0 <= k < tcs@.len() ==> #[trigger] all[k] == tcs@[k]@,
                self@ == after_pieces(st, all.take(i as int)),
                out.deep_view() == start + pieces_events(st, all.take(i as int)),
            decreases tcs@.len() - i,
        {
            assert(all.take(i + 1).drop_last() =~= all.take(i as int));
            assert(all.take(i + 1).last() == tcs@[i as int]@);
            self.piece(&tcs[i], out);
            assert(out.deep_view() =~= start + pieces_events(st, all.take(i + 1)));
            i = i + 1;
        }
        assert(all.take(all.len() as int) =~= all);
    }

    fn choice(&mut self, choice: &Json, out: &mut Vec<ModelStreamEvent>)
        requires
            old(self).inv(),
        ensures
            final(self).inv(),
            final(self)@ == after_choice(old(self)@, choice@),
            final(out).deep_view() == old(out).deep_view() + choice_events(old(self)@, choice@),
    {
        let ghost st = self@;
        let ghost start = out.deep_view();
        match text_below(choice, "delta", "content") {
            Some(t) => {
                if !t.as_str().is_empty() {
                    push_event(out, ModelStreamEvent::TextDelta(t));
                }
            },
            None => {},
        }
        match text_below(choice, "delta", "reasoning_content") {
            Some(t) => {
                if !t.as_str().is_empty() {
                    push_event(out, ModelStreamEvent::ThinkingDelta(t));
                }
            },
            None => {},
        }
        let ghost mid = out.deep_view();
        match choice.get("delta") {
            Some(d) => match d.get("tool_calls") {
                Some(x) => match x.as_list() {
                    Some(tcs) => {
                        self.pieces(tcs, out);
                    },
                    None => {},
                },
                None => {},
            },
            None => {},
        }
        assert(out.deep_view() =~= mid + pieces_events(st, pieces_of(choice@)));
        match text_at(choice, "finish_reason") {
            Some(s) => {
                self.pending_stop = Some(map_stop_reason(s.as_str()));
            },
            None => {},
        }
        assert(out.deep_view() =~= start + choice_events(st, choice@));
    }

    /// Take in one chunk, whose data has been read.
    pub fn handle_data(&mut self, data: &Json) -> (r: Vec<ModelStreamEvent>)
        requires
            old(self).inv(),
        ensures
            final(self).inv(),
            final(self)@ == after_chunk(old(self)@, data@),
            r.deep_view() == chunk_events(old(self)@, data@),
    {
        let ghost st = self@;
        let mut out: Vec<ModelStreamEvent> = nothing();
        match data.get("choices") {
            Some(x) => match x.as_list() {
                Some(choices) => {
                    proof {
                        lemma_list_view(choices@);
                    }
                    if choices.len() > 0 {
                        self.choice(&choices[0], &mut out);
                    }
                },
                None => {},
            },
            None => {},
        }
        assert(out.deep_view() =~= match first_choice(data@) {
            Some(c) => choice_events(st, c),
            None => Seq::empty(),
        });
        match data.get("usage") {
            Some(u) => {
                let stop_reason = match self.pending_stop {
                    Some(s) => s,
                    None => StopReason::EndTurn,
                };
                push_ends(&mut out, &self.tool_calls);
                push_event(
                    &mut out,
                    ModelStreamEvent::MessageEnd { stop_reason, usage: map_usage(u) },
                );
                self.tool_calls = Calls::new();
                self.begun = Vec::new();
                self.pending_stop = None;
            },
            None => {},
        }
        out
    }

    /// Take in one event.
    pub fn handle_event(&mut self, ev: &SseEvent) -> (r: Result<Vec<ModelStreamEvent>, ModelError>)
        requires
            old(self).inv(),
        ensures
            final(self).inv(),
            if ev.data@.len() == 0 || ev.data@ == "[DONE]"@ {
                final(self)@ == old(self)@ && (r matches Ok(v) && v.deep_view().len() == 0)
            } else {
                match json_read(ev.data@) {
                    None => final(self)@ == old(self)@ && (r matches Err(e) && e.deep_view()
                        == ModelErrorView::Stream(
                        "解析 chat chunk 失败: "@ + json_refusal(ev.data@),
                    )),
                    Some(j) => final(self)@ == after_chunk(old(self)@, j) && (r matches Ok(v)
                        && v.deep_view() == chunk_events(old(self)@, j)),
                }
            },
    {
        if ev.data.as_str().is_empty() || same(ev.data.as_str(), "[DONE]") {
            return Ok(nothing());
        }
        match parse(ev.data.as_str()) {
            Ok(j) => Ok(self.handle_data(&j)),
            Err(e) => Err(ModelError::Stream(cat("解析 chat chunk 失败: ", e.as_str()))),
        }
    }
}

// ---- laws ----

/// A call begins once: a piece that names a call that has begun adds no second
/// beginning.
pub proof fn law_calls_begin_once(st: ChatState, tc: JsonView, later: JsonView)
    requires
        text_in(member(tc, "id"@)) is Some,
        text_in(member(later, "id"@)) == text_in(member(tc, "id"@)),
    ensures
        forall|i: int|
            0 <= i < piece_events(after_piece(st, tc), later).len() ==> !(#[trigger] piece_events(
                after_piece(st, tc),
                later,
            )[i] is ToolUseBegin),
{
}

/// The calls that are open when a chunk's choice has been taken in.
pub open spec fn open_calls(st: ChatState, data: JsonView) -> Seq<(u32, Seq<char>)> {
    match first_choice(data) {
        Some(c) => after_choice(st, c).calls,
        None => st.calls,
    }
}

/// Once the usage has come, every call that was open is ended and none is left. The
/// end of the message comes last.
pub proof fn law_usage_closes_all(st: ChatState, data: JsonView, i: int)
    requires
        member(data, "usage"@) is Some,
        0 <= i < open_calls(st, data).len(),
    ensures
        after_chunk(st, data).calls.len() == 0,
        chunk_events(st, data).contains(
            ModelStreamEventView::ToolUseEnd { call_id: open_calls(st, data)[i].1 },
        ),
        chunk_events(st, data).last() is MessageEnd,
{
    let before = match first_choice(data) {
        Some(c) => choice_events(st, c),
        None => Seq::empty(),
    };
    assert(chunk_events(st, data)[before.len() + i] == ModelStreamEventView::ToolUseEnd {
        call_id: open_calls(st, data)[i].1,
    });
}

} // verus!
