//! The OpenAI Responses format.
use vstd::prelude::*;
use vstd::string::*;

use crate::content::ReasoningEffort;
use crate::content::StopReason;
use crate::content::TokenUsage;
use crate::content::TokenUsageView;
use crate::dup::Dup;
use crate::form::Form;
use crate::form::forms;
use crate::form::list1;
use crate::form::obj1;
use crate::form::obj2;
use crate::form::obj3;
use crate::form::obj4;
use crate::form::object1;
use crate::form::object2;
use crate::form::object3;
use crate::form::object4;
use crate::form::one;
use crate::form::write_list;
use crate::ids::CallId;
use crate::json::Json;
use crate::json::JsonView;
use crate::json::Members;
use crate::json::json_refusal;
use crate::json::json_text;
use crate::json::list_view;
use crate::json::member;
use crate::json::print;
use crate::json::text_in;
use crate::json::u64_in;
use crate::model::ModelContent;
use crate::model::ModelContentView;
use crate::model::ModelError;
use crate::model::ModelErrorView;
use crate::model::ModelMessage;
use crate::model::ModelMessageView;
use crate::model::ModelRequest;
use crate::model::ModelRequestView;
use crate::model::ModelStreamEvent;
use crate::model::ModelStreamEventView;
use crate::model::SystemBlock;
use crate::model::SystemBlockView;
use crate::model::ToolSpec;
use crate::model::ToolSpecView;
use crate::providers::anthropic::Made;
use crate::providers::anthropic::data_of;
use crate::providers::anthropic::read_data;
use crate::providers::anthropic::unless_empty;
use crate::providers::anthropic::with_member;
use crate::providers::calls::Calls;
use crate::providers::calls::below;
use crate::providers::calls::call_at;
use crate::providers::calls::distinct;
use crate::providers::calls::index_at;
use crate::providers::calls::index_in;
use crate::providers::calls::is_text;
use crate::providers::calls::number_at;
use crate::providers::calls::number_below;
use crate::providers::calls::or_text;
use crate::providers::calls::or_zero;
use crate::providers::calls::text_at;
use crate::providers::calls::text_below;
use crate::providers::calls::text_or;
use crate::providers::calls::with_call;
use crate::providers::calls::without_call;
use crate::providers::common::SseEvent;
use crate::text::cat3;
use crate::text::cat;
use crate::text::join;
use crate::text::joined;
use crate::text::same;
use crate::text::views;

verus! {

// ---- requests ----

/// A value as the text of arguments: a text stands for itself, anything else for
/// its JSON.
pub open spec fn arguments_text(j: JsonView) -> Seq<char> {
    match j {
        JsonView::Text(s) => s,
        _ => json_text(j),
    }
}

/// A value as the text of arguments.
pub fn input_to_string(j: &Json) -> (r: String)
    ensures
        r@ == arguments_text(j@),
{
    match j {
        Json::Text(s) => s.clone(),
        _ => print(j),
    }
}

/// The texts of the system prompt.
pub open spec fn system_texts(s: Seq<SystemBlockView>) -> Seq<Seq<char>> {
    Seq::new(s.len(), |i: int| s[i].text)
}

/// The system prompt as one text, its blocks a blank line apart.
pub fn system_text(v: &Vec<SystemBlock>) -> (r: String)
    ensures
        r@ == joined(system_texts(v.deep_view()), "\n\n"@),
{
    let mut out: Vec<String> = Vec::new();
    let mut i: usize = 0;
    while i < v.len()
        invariant
            i <= v@.len(),
            out@.len() == i,
            forall|k: int| 0 <= k < i ==> (#[trigger] out@[k])@ == v@[k].text@,
        decreases v@.len() - i,
    {
        out.push(v[i].text.clone());
        i = i + 1;
    }
    assert(views(out@) =~= system_texts(v.deep_view()));
    join(&out, "\n\n")
}

/// The address of an image that is its own data.
pub open spec fn data_url(mime: Seq<char>, data: Seq<char>) -> Seq<char> {
    "data:"@ + mime + ";base64,"@ + data
}

/// The address of an image that is its own data.
pub fn image_url(mime: &str, data: &str) -> (r: String)
    ensures
        r@ == data_url(mime@, data@),
{
    let head = cat3("data:", mime, ";base64,");
    cat(head.as_str(), data)
}

/// Blocks of a user's message.
pub struct UserPart;

impl Form<ModelContent> for UserPart {
    open spec fn form(v: ModelContentView) -> JsonView {
        match v {
            ModelContentView::Text(t) => obj2(
                "type"@,
                JsonView::Text("input_text"@),
                "text"@,
                JsonView::Text(t),
            ),
            ModelContentView::Image { mime, data_base64 } => obj2(
                "type"@,
                JsonView::Text("input_image"@),
                "image_url"@,
                JsonView::Text(data_url(mime, data_base64)),
            ),
            _ => obj2(
                "type"@,
                JsonView::Text("input_text"@),
                "text"@,
                JsonView::Text("[unsupported content]"@),
            ),
        }
    }

    fn write(t: &ModelContent) -> (r: Json) {
        match t {
            ModelContent::Text(t) => object2(
                "type",
                Json::text("input_text"),
                "text",
                Json::text(t.as_str()),
            ),
            ModelContent::Image { mime, data_base64 } => {
                let url = image_url(mime.as_str(), data_base64.as_str());
                object2("type", Json::text("input_image"), "image_url", Json::text(url.as_str()))
            },
            _ => object2(
                "type",
                Json::text("input_text"),
                "text",
                Json::text("[unsupported content]"),
            ),
        }
    }
}

/// A block of the model's own message as an item of the input; an image is not
/// one.
pub open spec fn assistant_item(v: ModelContentView) -> Option<JsonView> {
    match v {
        ModelContentView::Text(t) => Some(
            obj3(
                "type"@,
                JsonView::Text("message"@),
                "role"@,
                JsonView::Text("assistant"@),
                "content"@,
                one(obj2("type"@, JsonView::Text("output_text"@), "text"@, JsonView::Text(t))),
            ),
        ),
        ModelContentView::Thinking { text, signature } => Some(
            obj2(
                "type"@,
                JsonView::Text("reasoning"@),
                "summary"@,
                one(obj2("type"@, JsonView::Text("summary_text"@), "text"@, JsonView::Text(text))),
            ),
        ),
        ModelContentView::ToolUse { call_id, name, input } => Some(
            obj4(
                "type"@,
                JsonView::Text("function_call"@),
                "call_id"@,
                JsonView::Text(call_id),
                "name"@,
                JsonView::Text(name),
                "arguments"@,
                JsonView::Text(arguments_text(input)),
            ),
        ),
        ModelContentView::Image { mime, data_base64 } => None,
    }
}

/// The blocks of the model's own message as items of the input.
pub open spec fn assistant_items(s: Seq<ModelContentView>) -> Seq<JsonView>
    decreases s.len(),
{
    if s.len() == 0 {
        Seq::empty()
    } else {
        match assistant_item(s.last()) {
            Some(j) => assistant_items(s.drop_last()).push(j),
            None => assistant_items(s.drop_last()),
        }
    }
}

/// The text of a tool's result.
pub open spec fn result_text(s: Seq<ModelContentView>) -> Seq<char>
    decreases s.len(),
{
    if s.len() == 0 {
        Seq::empty()
    } else {
        result_text(s.drop_last()) + match s.last() {
            ModelContentView::Text(t) => t,
            _ => "[unsupported content]"@,
        }
    }
}

/// A text, marked where it is an error's.
pub open spec fn marked(is_error: bool, s: Seq<char>) -> Seq<char> {
    if is_error {
        "[ERROR] "@ + s
    } else {
        s
    }
}

/// The items of the input that a message stands for.
pub open spec fn message_items(m: ModelMessageView) -> Seq<JsonView> {
    match m {
        ModelMessageView::User { content } => seq![
            obj3(
                "type"@,
                JsonView::Text("message"@),
                "role"@,
                JsonView::Text("user"@),
                "content"@,
                JsonView::List(forms::<ModelContent, UserPart>(content)),
            ),
        ],
        ModelMessageView::Assistant { content } => assistant_items(content),
        ModelMessageView::ToolResult { call_id, content, is_error } => seq![
            obj3(
                "type"@,
                JsonView::Text("function_call_output"@),
                "call_id"@,
                JsonView::Text(call_id),
                "output"@,
                JsonView::Text(marked(is_error, result_text(content))),
            ),
        ],
    }
}

/// The input that messages stand for.
pub open spec fn input_items(s: Seq<ModelMessageView>) -> Seq<JsonView>
    decreases s.len(),
{
    if s.len() == 0 {
        Seq::empty()
    } else {
        input_items(s.drop_last()) + message_items(s.last())
    }
}

/// Tools.
pub struct ToolForm;

impl Form<ToolSpec> for ToolForm {
    open spec fn form(v: ToolSpecView) -> JsonView {
        JsonView::Object(
            Map::empty().insert("type"@, JsonView::Text("function"@)).insert(
                "name"@,
                JsonView::Text(v.name),
            ).insert("description"@, JsonView::Text(v.description)).insert(
                "parameters"@,
                v.schema,
            ).insert("strict"@, JsonView::Bool(false)),
        )
    }

    fn write(t: &ToolSpec) -> (r: Json) {
        let mut m = Members::new();
        m.put("type", Json::text("function"));
        m.put("name", Json::text(t.name.as_str()));
        m.put("description", Json::text(t.description.as_str()));
        m.put("parameters", t.schema.clone());
        m.put("strict", Json::Bool(false));
        m.done()
    }
}

/// How the provider calls an effort; it knows none above high.
pub open spec fn effort_of(e: ReasoningEffort) -> Seq<char> {
    match e {
        ReasoningEffort::Minimal => "minimal"@,
        ReasoningEffort::Low => "low"@,
        ReasoningEffort::Medium => "medium"@,
        ReasoningEffort::High => "high"@,
        ReasoningEffort::Max => "high"@,
    }
}

/// The body of a request.
pub open spec fn request_form(req: ModelRequestView) -> JsonView {
    let m = Map::<Seq<char>, JsonView>::empty().insert("model"@, JsonView::Text(req.model)).insert(
        "input"@,
        JsonView::List(input_items(req.messages)),
    ).insert("stream"@, JsonView::Bool(true)).insert("store"@, JsonView::Bool(false));
    let m = with_member(
        m,
        "instructions"@,
        if req.system.len() == 0 {
            None
        } else {
            Some(JsonView::Text(joined(system_texts(req.system), "\n\n"@)))
        },
    );
    let m = with_member(m, "tools"@, unless_empty(forms::<ToolSpec, ToolForm>(req.tools)));
    let m = with_member(m, "temperature"@, req.temperature);
    let m = with_member(
        m,
        "reasoning"@,
        match req.reasoning {
            Some(e) => Some(obj1("effort"@, JsonView::Text(effort_of(e)))),
            None => None,
        },
    );
    JsonView::Object(
        m.insert("max_output_tokens"@, JsonView::Int(req.max_output_tokens as int)),
    )
}

fn write_assistant(content: &Vec<ModelContent>, out: &mut Vec<Json>)
    ensures
        list_view(final(out)@) == list_view(old(out)@) + assistant_items(content.deep_view()),
{
    let mut i: usize = 0;
    let ghost all = content.deep_view();
    assert(list_view(out@) =~= list_view(old(out)@) + assistant_items(all.take(0)));
    while i < content.len()
        invariant
            i <= content@.len(),
            all == content.deep_view(),
            list_view(out@) == list_view(old(out)@) + assistant_items(all.take(i as int)),
        decreases content@.len() - i,
    {
        let ghost before = out@;
        assert(all.take(i + 1).drop_last() =~= all.take(i as int));
        assert(all.take(i + 1).last() == content@[i as int].deep_view());
        let item = match &content[i] {
            ModelContent::Text(t) => Some(
                object3(
                    "type",
                    Json::text("message"),
                    "role",
                    Json::text("assistant"),
                    "content",
                    list1(
                        object2(
                            "type",
                            Json::text("output_text"),
                            "text",
                            Json::text(t.as_str()),
                        ),
                    ),
                ),
            ),
            ModelContent::Thinking { text, signature: _ } => Some(
                object2(
                    "type",
                    Json::text("reasoning"),
                    "summary",
                    list1(
                        object2(
                            "type",
                            Json::text("summary_text"),
                            "text",
                            Json::text(text.as_str()),
                        ),
                    ),
                ),
            ),
            ModelContent::ToolUse { call_id, name, input } => {
                let args = input_to_string(input);
                Some(
                    object4(
                        "type",
                        Json::text("function_call"),
                        "call_id",
                        Json::text(call_id.as_str()),
                        "name",
                        Json::text(name.as_str()),
                        "arguments",
                        Json::text(args.as_str()),
                    ),
                )
            },
            ModelContent::Image { mime: _, data_base64: _ } => None,
        };
        match item {
            Some(j) => {
                out.push(j);
                assert(out@.drop_last() =~= before);
                assert(list_view(out@) =~= list_view(old(out)@) + assistant_items(all.take(i + 1)));
            },
            None => {},
        }
        i = i + 1;
    }
    assert(all.take(all.len() as int) =~= all);
}

/// The text of a tool's result.
fn write_result_text(content: &Vec<ModelContent>) -> (r: String)
    ensures
        r@ == result_text(content.deep_view()),
{
    let mut r = String::new();
    let mut i: usize = 0;
    let ghost all = content.deep_view();
    while i < content.len()
        invariant
            i <= content@.len(),
            all == content.deep_view(),
            r@ == result_text(all.take(i as int)),
        decreases content@.len() - i,
    {
        assert(all.take(i + 1).drop_last() =~= all.take(i as int));
        assert(all.take(i + 1).last() == content@[i as int].deep_view());
        match &content[i] {
            ModelContent::Text(t) => r.append(t.as_str()),
            _ => r.append("[unsupported content]"),
        }
        i = i + 1;
    }
    assert(all.take(all.len() as int) =~= all);
    r
}

/// A text, marked where it is an error's.
pub fn mark(is_error: bool, s: String) -> (r: String)
    ensures
        r@ == marked(is_error, s@),
{
    if is_error {
        cat("[ERROR] ", s.as_str())
    } else {
        s
    }
}

fn write_input(messages: &Vec<ModelMessage>) -> (r: Vec<Json>)
    ensures
        list_view(r@) == input_items(messages.deep_view()),
{
    let mut out: Vec<Json> = Vec::new();
    let mut i: usize = 0;
    let ghost all = messages.deep_view();
    while i < messages.len()
        invariant
            i <= messages@.len(),
            all == messages.deep_view(),
            list_view(out@) == input_items(all.take(i as int)),
        decreases messages@.len() - i,
    {
        let ghost before = out@;
        assert(all.take(i + 1).drop_last() =~= all.take(i as int));
        assert(all.take(i + 1).last() == messages@[i as int].deep_view());
        match &messages[i] {
            ModelMessage::User { content } => {
                let item = object3(
                    "type",
                    Json::text("message"),
                    "role",
                    Json::text("user"),
                    "content",
                    write_list::<ModelContent, UserPart>(content),
                );
                out.push(item);
                assert(out@.drop_last() =~= before);
                assert(list_view(out@) =~= list_view(before) + seq![item@]);
            },
            ModelMessage::Assistant { content } => {
                write_assistant(content, &mut out);
            },
            ModelMessage::ToolResult { call_id, content, is_error } => {
                let body = mark(*is_error, write_result_text(content));
                let item = object3(
                    "type",
                    Json::text("function_call_output"),
                    "call_id",
                    Json::text(call_id.as_str()),
                    "output",
                    Json::text(body.as_str()),
                );
                out.push(item);
                assert(out@.drop_last() =~= before);
                assert(list_view(out@) =~= list_view(before) + seq![item@]);
            },
        }
        i = i + 1;
    }
    assert(all.take(all.len() as int) =~= all);
    out
}

/// The body of a request.
pub fn encode_request(req: &ModelRequest) -> (r: Result<Json, ModelError>)
    ensures
        r matches Ok(j) && j@ == request_form(req.deep_view()),
{
    let mut m = Members::new();
    m.put("model", Json::text(req.model.as_str()));
    m.put("input", Json::List(write_input(&req.messages)));
    m.put("stream", Json::Bool(true));
    m.put("store", Json::Bool(false));
    if req.system.len() > 0 {
        let text = system_text(&req.system);
        m.put("instructions", Json::text(text.as_str()));
    }
    if req.tools.len() > 0 {
        m.put("tools", write_list::<ToolSpec, ToolForm>(&req.tools));
    }
    match &req.temperature {
        Some(t) => {
            m.put("temperature", t.clone());
        },
        None => {},
    }
    match req.reasoning {
        Some(e) => {
            let name = match e {
                ReasoningEffort::Minimal => "minimal",
                ReasoningEffort::Low => "low",
                ReasoningEffort::Medium => "medium",
                ReasoningEffort::High => "high",
                ReasoningEffort::Max => "high",
            };
            m.put("reasoning", object1("effort", Json::text(name)));
        },
        None => {},
    }
    m.put("max_output_tokens", Json::Unsigned(req.max_output_tokens as u64));
    Ok(m.done())
}

// ---- streams ----

/// Why the model stopped.
pub open spec fn status_of(s: Seq<char>) -> StopReason {
    if s == "incomplete"@ {
        StopReason::MaxTokens
    } else if s == "failed"@ || s == "cancelled"@ {
        StopReason::Error
    } else {
        StopReason::EndTurn
    }
}

/// The tokens used.
pub open spec fn usage_of(u: JsonView) -> TokenUsageView {
    TokenUsageView {
        input: or_zero(u64_in(member(u, "input_tokens"@))),
        cached_input: or_zero(u64_in(below(u, "input_tokens_details"@, "cached_tokens"@))),
        output: or_zero(u64_in(member(u, "output_tokens"@))),
        reasoning: or_zero(u64_in(below(u, "output_tokens_details"@, "reasoning_tokens"@))),
    }
}

/// The ends of open calls.
pub open spec fn ends_of(calls: Seq<(u32, Seq<char>)>) -> Seq<ModelStreamEventView> {
    Seq::new(calls.len(), |i: int| ModelStreamEventView::ToolUseEnd { call_id: calls[i].1 })
}

/// What one event of the stream comes to, or the provider's error.
pub open spec fn made_of(
    calls: Seq<(u32, Seq<char>)>,
    name: Seq<char>,
    data: JsonView,
) -> Result<Made, Seq<char>> {
    let same_calls = Made { blocks: calls, events: Seq::empty() };
    let index = index_in(data, "output_index"@);
    let is_call = text_in(below(data, "item"@, "type"@)) == Some("function_call"@);
    if name == "response.output_text.delta"@ {
        match text_in(member(data, "delta"@)) {
            Some(t) => Ok(
                Made { blocks: calls, events: seq![ModelStreamEventView::TextDelta(t)] },
            ),
            None => Ok(same_calls),
        }
    } else if name == "response.reasoning_summary_text.delta"@ {
        match text_in(member(data, "delta"@)) {
            Some(t) => Ok(
                Made { blocks: calls, events: seq![ModelStreamEventView::ThinkingDelta(t)] },
            ),
            None => Ok(same_calls),
        }
    } else if name == "response.output_item.added"@ {
        if is_call {
            let id = or_text(text_in(below(data, "item"@, "call_id"@)), "c-?"@);
            Ok(
                Made {
                    blocks: with_call(calls, index, id),
                    events: seq![
                        ModelStreamEventView::ToolUseBegin {
                            call_id: id,
                            name: or_text(text_in(below(data, "item"@, "name"@)), ""@),
                        },
                    ],
                },
            )
        } else {
            Ok(same_calls)
        }
    } else if name == "response.function_call_arguments.delta"@ {
        match (call_at(calls, index), text_in(member(data, "delta"@))) {
            (Some(call_id), Some(json_fragment)) => Ok(
                Made {
                    blocks: calls,
                    events: seq![
                        ModelStreamEventView::ToolUseInputDelta { call_id, json_fragment },
                    ],
                },
            ),
            _ => Ok(same_calls),
        }
    } else if name == "response.output_item.done"@ {
        if is_call {
            Ok(
                Made {
                    blocks: without_call(calls, index),
                    events: match call_at(calls, index) {
                        Some(call_id) => seq![ModelStreamEventView::ToolUseEnd { call_id }],
                        None => Seq::empty(),
                    },
                },
            )
        } else {
            Ok(same_calls)
        }
    } else if name == "response.completed"@ {
        let end = ModelStreamEventView::MessageEnd {
            stop_reason: match text_in(below(data, "response"@, "status"@)) {
                Some(s) => status_of(s),
                None => StopReason::EndTurn,
            },
            usage: match below(data, "response"@, "usage"@) {
                Some(u) => usage_of(u),
                None => TokenUsageView { input: 0, cached_input: 0, output: 0, reasoning: 0 },
            },
        };
        Ok(Made { blocks: Seq::empty(), events: ends_of(calls).push(end) })
    } else if name == "error"@ {
        Err(or_text(text_in(member(data, "message"@)), "unknown"@))
    } else {
        Ok(same_calls)
    }
}

fn map_status(s: &str) -> (r: StopReason)
    ensures
        r == status_of(s@),
{
    if same(s, "incomplete") {
        StopReason::MaxTokens
    } else if same(s, "failed") || same(s, "cancelled") {
        StopReason::Error
    } else {
        StopReason::EndTurn
    }
}

fn map_usage(u: &Json) -> (r: TokenUsage)
    ensures
        r.deep_view() == usage_of(u@),
{
    TokenUsage {
        input: number_at(u, "input_tokens"),
        cached_input: number_below(u, "input_tokens_details", "cached_tokens"),
        output: number_at(u, "output_tokens"),
        reasoning: number_below(u, "output_tokens_details", "reasoning_tokens"),
    }
}

/// One event alone.
pub fn only(ev: ModelStreamEvent) -> (r: Vec<ModelStreamEvent>)
    ensures
        r.deep_view() == seq![ev.deep_view()],
{
    let mut out: Vec<ModelStreamEvent> = Vec::new();
    out.push(ev);
    assert(out.deep_view() =~= seq![ev.deep_view()]);
    out
}

/// No events.
pub fn nothing() -> (r: Vec<ModelStreamEvent>)
    ensures
        r.deep_view() == Seq::<ModelStreamEventView>::empty(),
{
    let out: Vec<ModelStreamEvent> = Vec::new();
    assert(out.deep_view() =~= Seq::<ModelStreamEventView>::empty());
    out
}

/// Add the ends of open calls.
pub fn push_ends(out: &mut Vec<ModelStreamEvent>, calls: &Calls)
    ensures
        final(out).deep_view() == old(out).deep_view() + ends_of(calls@),
{
    let ids = calls.ids();
    let mut i: usize = 0;
    let ghost all = ends_of(calls@);
    assert(out.deep_view() =~= old(out).deep_view() + all.take(0));
    while i < ids.len()
        invariant
            i <= ids@.len(),
            all == ends_of(calls@),
            ids.deep_view() == Seq::new(calls@.len(), |i: int| calls@[i].1),
            out.deep_view() == old(out).deep_view() + all.take(i as int),
        decreases ids@.len() - i,
    {
        let ghost before = out.deep_view();
        assert(ids.deep_view().len() == ids@.len());
        assert(ids.deep_view()[i as int] == ids@[i as int].deep_view());
        let ev = ModelStreamEvent::ToolUseEnd { call_id: ids[i].clone() };
        out.push(ev);
        assert(out.deep_view() =~= before.push(ev.deep_view()));
        assert(out.deep_view() =~= old(out).deep_view() + all.take(i + 1));
        i = i + 1;
    }
    assert(ids.deep_view().len() == ids@.len());
    assert(all.take(all.len() as int) =~= all);
}

/// Turns the provider's stream into the library's.
pub struct OpenAiResponsesDecoder {
    tools: Calls,
}

impl View for OpenAiResponsesDecoder {
    type V = Seq<(u32, Seq<char>)>;

    closed spec fn view(&self) -> Seq<(u32, Seq<char>)> {
        self.tools@
    }
}

impl OpenAiResponsesDecoder {
    /// No index is open twice.
    pub open spec fn inv(&self) -> bool {
        distinct(self@)
    }

    /// A decoder at the start of a stream.
    pub fn new() -> (r: Self)
        ensures
            r.inv(),
            r@ == Seq::<(u32, Seq<char>)>::empty(),
    {
        OpenAiResponsesDecoder { tools: Calls::new() }
    }

    /// Take in one event, whose data has been read.
    pub fn handle_data(&mut self, name: &str, data: &Json) -> (r: Result<
        Vec<ModelStreamEvent>,
        ModelError,
    >)
        requires
            old(self).inv(),
        ensures
            final(self).inv(),
            match made_of(old(self)@, name@, data@) {
                Ok(made) => final(self)@ == made.blocks && (r matches Ok(v) && v.deep_view()
                    == made.events),
                Err(msg) => final(self)@ == old(self)@ && (r matches Err(e) && e.deep_view()
                    == ModelErrorView::Stream("provider error: "@ + msg)),
            },
    {
        if same(name, "response.output_text.delta") {
            match text_at(data, "delta") {
                Some(t) => Ok(only(ModelStreamEvent::TextDelta(t))),
                None => Ok(nothing()),
            }
        } else if same(name, "response.reasoning_summary_text.delta") {
            match text_at(data, "delta") {
                Some(t) => Ok(only(ModelStreamEvent::ThinkingDelta(t))),
                None => Ok(nothing()),
            }
        } else if same(name, "response.output_item.added") {
            let kind = text_below(data, "item", "type");
            if is_text(&kind, "function_call") {
                let id = text_or(text_below(data, "item", "call_id"), "c-?");
                let call_id = CallId::new(id.as_str());
                let tool = text_or(text_below(data, "item", "name"), "");
                self.tools.insert(index_at(data, "output_index"), call_id.clone());
                Ok(only(ModelStreamEvent::ToolUseBegin { call_id, name: tool }))
            } else {
                Ok(nothing())
            }
        } else if same(name, "response.function_call_arguments.delta") {
            match (self.tools.get(index_at(data, "output_index")), text_at(data, "delta")) {
                (Some(call_id), Some(json_fragment)) => Ok(
                    only(ModelStreamEvent::ToolUseInputDelta { call_id, json_fragment }),
                ),
                _ => Ok(nothing()),
            }
        } else if same(name, "response.output_item.done") {
            let kind = text_below(data, "item", "type");
            if is_text(&kind, "function_call") {
                match self.tools.remove(index_at(data, "output_index")) {
                    Some(call_id) => Ok(only(ModelStreamEvent::ToolUseEnd { call_id })),
                    None => Ok(nothing()),
                }
            } else {
                Ok(nothing())
            }
        } else if same(name, "response.completed") {
            let stop_reason = match text_below(data, "response", "status") {
                Some(s) => map_status(s.as_str()),
                None => StopReason::EndTurn,
            };
            let usage = match data.get("response") {
                Some(resp) => match resp.get("usage") {
                    Some(u) => map_usage(u),
                    None => TokenUsage::zero(),
                },
                None => TokenUsage::zero(),
            };
            let mut out = nothing();
            push_ends(&mut out, &self.tools);
            let ghost ends = out.deep_view();
            let end = ModelStreamEvent::MessageEnd { stop_reason, usage };
            out.push(end);
            assert(ends =~= ends_of(self.tools@));
            assert(out.deep_view() =~= ends.push(end.deep_view()));
            self.tools = Calls::new();
            Ok(out)
        } else if same(name, "error") {
            let msg = text_or(text_at(data, "message"), "unknown");
            Err(ModelError::Stream(cat("provider error: ", msg.as_str())))
        } else {
            Ok(nothing())
        }
    }

    /// Take in one event.
    pub fn handle_event(&mut self, ev: &SseEvent) -> (r: Result<Vec<ModelStreamEvent>, ModelError>)
        requires
            old(self).inv(),
        ensures
            final(self).inv(),
            match data_of(ev.data@) {
                None => final(self)@ == old(self)@ && (r matches Err(e) && e.deep_view()
                    == ModelErrorView::Stream(
                    "解析 responses 事件失败: "@ + json_refusal(ev.data@),
                )),
                Some(j) => match made_of(old(self)@, or_text(ev.event.deep_view(), ""@), j) {
                    Ok(made) => final(self)@ == made.blocks && (r matches Ok(v) && v.deep_view()
                        == made.events),
                    Err(msg) => final(self)@ == old(self)@ && (r matches Err(e) && e.deep_view()
                        == ModelErrorView::Stream("provider error: "@ + msg)),
                },
            },
    {
        let name = text_or(ev.event.dup(), "");
        match read_data(ev.data.as_str()) {
            Ok(j) => self.handle_data(name.as_str(), &j),
            Err(e) => Err(ModelError::Stream(cat("解析 responses 事件失败: ", e.as_str()))),
        }
    }
}

// ---- laws ----

/// A completed response leaves no call open: every open call is ended, and then the
/// message.
pub proof fn law_completion_closes_all(calls: Seq<(u32, Seq<char>)>, data: JsonView, i: int)
    requires
        0 <= i < calls.len(),
    ensures
        made_of(calls, "response.completed"@, data) matches Ok(made) && made.blocks.len() == 0
            && made.events.contains(ModelStreamEventView::ToolUseEnd { call_id: calls[i].1 })
            && made.events.last() is MessageEnd,
{
    reveal_strlit("response.completed");
    reveal_strlit("response.output_text.delta");
    reveal_strlit("response.reasoning_summary_text.delta");
    reveal_strlit("response.output_item.added");
    reveal_strlit("response.function_call_arguments.delta");
    reveal_strlit("response.output_item.done");
    assert("response.completed"@.len() == 18 && "response.output_text.delta"@.len() == 26
        && "response.reasoning_summary_text.delta"@.len() == 37
        && "response.output_item.added"@.len() == 26
        && "response.function_call_arguments.delta"@.len() == 38
        && "response.output_item.done"@.len() == 25);
    let made = made_of(calls, "response.completed"@, data)->Ok_0;
    assert(made.events[i] == ModelStreamEventView::ToolUseEnd { call_id: calls[i].1 });
}

} // verus!
