//! The Anthropic Messages format.
use vstd::prelude::*;

use crate::content::ReasoningEffort;
use crate::content::StopReason;
use crate::content::TokenUsage;
use crate::content::TokenUsageView;
use crate::dup::Dup;
use crate::form::Form;
use crate::form::forms;
use crate::form::list1;
use crate::form::obj1;
use crate::form::obj2;
use crate::form::obj3;
use crate::form::obj4;
use crate::form::object1;
use crate::form::object2;
use crate::form::object3;
use crate::form::object4;
use crate::form::one;
use crate::form::write_list;
use crate::ids::CallId;
use crate::json::Json;
use crate::json::JsonView;
use crate::json::Members;
use crate::json::json_read;
use crate::json::json_refusal;
use crate::json::member;
use crate::json::parse;
use crate::json::text_in;
use crate::json::u64_in;
use crate::model::CacheBreakpoint;
use crate::model::ModelContent;
use crate::model::ModelContentView;
use crate::model::ModelError;
use crate::model::ModelErrorView;
use crate::model::ModelMessage;
use crate::model::ModelMessageView;
use crate::model::ModelRequest;
use crate::model::ModelRequestView;
use crate::model::ModelStreamEvent;
use crate::model::ModelStreamEventView;
use crate::model::RequestMeta;
use crate::model::RequestMetaView;
use crate::model::SystemBlock;
use crate::model::SystemBlockView;
use crate::model::ToolSpec;
use crate::model::ToolSpecView;
use crate::providers::calls::Calls;
use crate::providers::calls::below;
use crate::providers::calls::call_at;
use crate::providers::calls::distinct;
use crate::providers::calls::index_at;
use crate::providers::calls::index_in;
use crate::providers::calls::is_text;
use crate::providers::calls::lemma_place;
use crate::providers::calls::lemma_place_is;
use crate::providers::calls::number_at;
use crate::providers::calls::or_text;
use crate::providers::calls::or_zero;
use crate::providers::calls::place;
use crate::providers::calls::text_below;
use crate::providers::calls::text_or;
use crate::providers::calls::with_call;
use crate::providers::calls::without_call;
use crate::providers::common::SseEvent;
use crate::text::cat;
use crate::text::contains;
use crate::text::occurs;
use crate::text::same;

verus! {

/// The version of the format.
pub const ANTHROPIC_VERSION: &'static str = "2023-06-01";

/// How many tokens a model's context holds.
pub fn context_window(model: &str) -> (r: u64)
    ensures
        r == (if occurs(model@, "glm"@) {
            128_000u64
        } else {
            200_000u64
        }),
{
    if contains(model, "glm") {
        128_000
    } else {
        200_000
    }
}

// ---- requests ----

/// A block of text.
pub open spec fn text_block(s: Seq<char>) -> JsonView {
    obj2("type"@, JsonView::Text("text"@), "text"@, JsonView::Text(s))
}

fn write_text_block(s: &str) -> (r: Json)
    ensures
        r@ == text_block(s@),
{
    object2("type", Json::text("text"), "text", Json::text(s))
}

/// Blocks of the system prompt.
pub struct SystemForm;

impl Form<SystemBlock> for SystemForm {
    open spec fn form(v: SystemBlockView) -> JsonView {
        match v.cache_breakpoint {
            None => text_block(v.text),
            Some(bp) => obj3(
                "type"@,
                JsonView::Text("text"@),
                "text"@,
                JsonView::Text(v.text),
                "cache_control"@,
                match bp {
                    CacheBreakpoint::Ephemeral => obj1("type"@, JsonView::Text("ephemeral"@)),
                    CacheBreakpoint::OneHour => obj2(
                        "type"@,
                        JsonView::Text("ephemeral"@),
                        "ttl"@,
                        JsonView::Text("1h"@),
                    ),
                },
            ),
        }
    }

    fn write(t: &SystemBlock) -> (r: Json) {
        match t.cache_breakpoint {
            None => write_text_block(t.text.as_str()),
            Some(bp) => object3(
                "type",
                Json::text("text"),
                "text",
                Json::text(t.text.as_str()),
                "cache_control",
                match bp {
                    CacheBreakpoint::Ephemeral => object1("type", Json::text("ephemeral")),
                    CacheBreakpoint::OneHour => object2(
                        "type",
                        Json::text("ephemeral"),
                        "ttl",
                        Json::text("1h"),
                    ),
                },
            ),
        }
    }
}

/// Blocks of a user's message.
pub struct UserForm;

impl Form<ModelContent> for UserForm {
    open spec fn form(v: ModelContentView) -> JsonView {
        match v {
            ModelContentView::Text(t) => text_block(t),
            ModelContentView::Image { mime, data_base64 } => obj2(
                "type"@,
                JsonView::Text("image"@),
                "source"@,
                obj3(
                    "type"@,
                    JsonView::Text("base64"@),
                    "media_type"@,
                    JsonView::Text(mime),
                    "data"@,
                    JsonView::Text(data_base64),
                ),
            ),
            _ => text_block("[unsupported content]"@),
        }
    }

    fn write(t: &ModelContent) -> (r: Json) {
        match t {
            ModelContent::Text(t) => write_text_block(t.as_str()),
            ModelContent::Image { mime, data_base64 } => object2(
                "type",
                Json::text("image"),
                "source",
                object3(
                    "type",
                    Json::text("base64"),
                    "media_type",
                    Json::text(mime.as_str()),
                    "data",
                    Json::text(data_base64.as_str()),
                ),
            ),
            _ => write_text_block("[unsupported content]"),
        }
    }
}

/// Blocks of the model's own message.
pub struct AssistantForm;

impl Form<ModelContent> for AssistantForm {
    open spec fn form(v: ModelContentView) -> JsonView {
        match v {
            ModelContentView::Text(t) => text_block(t),
            ModelContentView::Thinking { text, signature } => match signature {
                None => obj2("type"@, JsonView::Text("thinking"@), "thinking"@, JsonView::Text(text)),
                Some(s) => obj3(
                    "type"@,
                    JsonView::Text("thinking"@),
                    "thinking"@,
                    JsonView::Text(text),
                    "signature"@,
                    JsonView::Text(s),
                ),
            },
            ModelContentView::ToolUse { call_id, name, input } => obj4(
                "type"@,
                JsonView::Text("tool_use"@),
                "id"@,
                JsonView::Text(call_id),
                "name"@,
                JsonView::Text(name),
                "input"@,
                input,
            ),
            _ => text_block("[unsupported content]"@),
        }
    }

    fn write(t: &ModelContent) -> (r: Json) {
        match t {
            ModelContent::Text(t) => write_text_block(t.as_str()),
            ModelContent::Thinking { text, signature } => match signature {
                None => object2(
                    "type",
                    Json::text("thinking"),
                    "thinking",
                    Json::text(text.as_str()),
                ),
                Some(s) => object3(
                    "type",
                    Json::text("thinking"),
                    "thinking",
                    Json::text(text.as_str()),
                    "signature",
                    Json::text(s.as_str()),
                ),
            },
            ModelContent::ToolUse { call_id, name, input } => object4(
                "type",
                Json::text("tool_use"),
                "id",
                Json::text(call_id.as_str()),
                "name",
                Json::text(name.as_str()),
                "input",
                input.clone(),
            ),
            _ => write_text_block("[unsupported content]"),
        }
    }
}

/// Messages.
pub struct MessageForm;

impl Form<ModelMessage> for MessageForm {
    open spec fn form(v: ModelMessageView) -> JsonView {
        match v {
            ModelMessageView::User { content } => obj2(
                "role"@,
                JsonView::Text("user"@),
                "content"@,
                JsonView::List(forms::<ModelContent, UserForm>(content)),
            ),
            ModelMessageView::Assistant { content } => obj2(
                "role"@,
                JsonView::Text("assistant"@),
                "content"@,
                JsonView::List(forms::<ModelContent, AssistantForm>(content)),
            ),
            ModelMessageView::ToolResult { call_id, content, is_error } => obj2(
                "role"@,
                JsonView::Text("user"@),
                "content"@,
                one(
                    obj4(
                        "type"@,
                        JsonView::Text("tool_result"@),
                        "tool_use_id"@,
                        JsonView::Text(call_id),
                        "content"@,
                        JsonView::List(forms::<ModelContent, UserForm>(content)),
                        "is_error"@,
                        JsonView::Bool(is_error),
                    ),
                ),
            ),
        }
    }

    fn write(t: &ModelMessage) -> (r: Json) {
        match t {
            ModelMessage::User { content } => object2(
                "role",
                Json::text("user"),
                "content",
                write_list::<ModelContent, UserForm>(content),
            ),
            ModelMessage::Assistant { content } => object2(
                "role",
                Json::text("assistant"),
                "content",
                write_list::<ModelContent, AssistantForm>(content),
            ),
            ModelMessage::ToolResult { call_id, content, is_error } => object2(
                "role",
                Json::text("user"),
                "content",
                list1(
                    object4(
                        "type",
                        Json::text("tool_result"),
                        "tool_use_id",
                        Json::text(call_id.as_str()),
                        "content",
                        write_list::<ModelContent, UserForm>(content),
                        "is_error",
                        Json::Bool(*is_error),
                    ),
                ),
            ),
        }
    }
}

/// Tools.
pub struct ToolForm;

impl Form<ToolSpec> for ToolForm {
    open spec fn form(v: ToolSpecView) -> JsonView {
        obj3(
            "name"@,
            JsonView::Text(v.name),
            "description"@,
            JsonView::Text(v.description),
            "input_schema"@,
            v.schema,
        )
    }

    fn write(t: &ToolSpec) -> (r: Json) {
        object3(
            "name",
            Json::text(t.name.as_str()),
            "description",
            Json::text(t.description.as_str()),
            "input_schema",
            t.schema.clone(),
        )
    }
}

/// How many tokens a model may think for.
pub open spec fn budget_of(e: ReasoningEffort) -> int {
    match e {
        ReasoningEffort::Minimal => 1024,
        ReasoningEffort::Low => 4096,
        ReasoningEffort::Medium => 8192,
        ReasoningEffort::High => 16384,
        ReasoningEffort::Max => 32768,
    }
}

/// How many tokens a model may think for.
pub fn thinking_budget(e: ReasoningEffort) -> (r: u64)
    ensures
        r == budget_of(e),
{
    match e {
        ReasoningEffort::Minimal => 1024,
        ReasoningEffort::Low => 4096,
        ReasoningEffort::Medium => 8192,
        ReasoningEffort::High => 16384,
        ReasoningEffort::Max => 32768,
    }
}

/// Whose request it is, if that is known.
pub open spec fn meta_form(m: RequestMetaView) -> Option<JsonView> {
    if m.session_id is None && m.turn_id is None {
        None
    } else {
        Some(obj1("user_id"@, JsonView::Text(or_text(m.session_id, "tao"@))))
    }
}

/// A member more, where there is one.
pub open spec fn with_member(
    m: Map<Seq<char>, JsonView>,
    k: Seq<char>,
    v: Option<JsonView>,
) -> Map<Seq<char>, JsonView> {
    match v {
        Some(x) => m.insert(k, x),
        None => m,
    }
}

/// The list, unless it is empty.
pub open spec fn unless_empty(s: Seq<JsonView>) -> Option<JsonView> {
    if s.len() == 0 {
        None
    } else {
        Some(JsonView::List(s))
    }
}

/// The body of a request.
pub open spec fn request_form(req: ModelRequestView) -> JsonView {
    let m = Map::<Seq<char>, JsonView>::empty().insert("model"@, JsonView::Text(req.model)).insert(
        "messages"@,
        JsonView::List(forms::<ModelMessage, MessageForm>(req.messages)),
    ).insert("max_tokens"@, JsonView::Int(req.max_output_tokens as int)).insert(
        "stream"@,
        JsonView::Bool(true),
    );
    let m = with_member(
        m,
        "system"@,
        unless_empty(forms::<SystemBlock, SystemForm>(req.system)),
    );
    let m = with_member(m, "tools"@, unless_empty(forms::<ToolSpec, ToolForm>(req.tools)));
    let m = with_member(
        m,
        "thinking"@,
        match req.reasoning {
            Some(e) => Some(
                obj2(
                    "type"@,
                    JsonView::Text("enabled"@),
                    "budget_tokens"@,
                    JsonView::Int(budget_of(e)),
                ),
            ),
            None => None,
        },
    );
    let m = with_member(m, "temperature"@, req.temperature);
    JsonView::Object(with_member(m, "metadata"@, meta_form(req.metadata)))
}

/// The body of a request.
pub fn encode_request(req: &ModelRequest) -> (r: Result<Json, ModelError>)
    ensures
        r matches Ok(j) && j@ == request_form(req.deep_view()),
{
    let mut m = Members::new();
    m.put("model", Json::text(req.model.as_str()));
    m.put("messages", write_list::<ModelMessage, MessageForm>(&req.messages));
    m.put("max_tokens", Json::Unsigned(req.max_output_tokens as u64));
    m.put("stream", Json::Bool(true));
    if req.system.len() > 0 {
        m.put("system", write_list::<SystemBlock, SystemForm>(&req.system));
    }
    if req.tools.len() > 0 {
        m.put("tools", write_list::<ToolSpec, ToolForm>(&req.tools));
    }
    match req.reasoning {
        Some(e) => {
            m.put(
                "thinking",
                object2(
                    "type",
                    Json::text("enabled"),
                    "budget_tokens",
                    Json::Unsigned(thinking_budget(e)),
                ),
            );
        },
        None => {},
    }
    match &req.temperature {
        Some(t) => {
            m.put("temperature", t.clone());
        },
        None => {},
    }
    match meta_json(&req.metadata) {
        Some(x) => {
            m.put("metadata", x);
        },
        None => {},
    }
    Ok(m.done())
}

fn meta_json(m: &RequestMeta) -> (r: Option<Json>)
    ensures
        match r {
            Some(j) => meta_form(m.deep_view()) == Some(j@),
            None => meta_form(m.deep_view()) is None,
        },
{
    if m.session_id.is_none() && m.turn_id.is_none() {
        return None;
    }
    let user = text_or(m.session_id.dup(), "tao");
    Some(object1("user_id", Json::text(user.as_str())))
}

// ---- streams ----

/// Why the model stopped.
pub open spec fn stop_of(s: Seq<char>) -> StopReason {
    if s == "max_tokens"@ {
        StopReason::MaxTokens
    } else if s == "tool_use"@ {
        StopReason::ToolUse
    } else if s == "refusal"@ {
        StopReason::Refused
    } else {
        StopReason::EndTurn
    }
}

/// The tokens used.
pub open spec fn usage_of(u: JsonView) -> TokenUsageView {
    TokenUsageView {
        input: or_zero(u64_in(member(u, "input_tokens"@))),
        cached_input: or_zero(u64_in(member(u, "cache_read_input_tokens"@))),
        output: or_zero(u64_in(member(u, "output_tokens"@))),
        reasoning: 0,
    }
}

/// What a stream has come to: its open tool blocks by index, and what was just
/// made out.
pub struct Made {
    pub blocks: Seq<(u32, Seq<char>)>,
    pub events: Seq<ModelStreamEventView>,
}

/// What one event of the stream comes to, or the provider's error.
pub open spec fn made_of(
    blocks: Seq<(u32, Seq<char>)>,
    name: Seq<char>,
    data: JsonView,
) -> Result<Made, Seq<char>> {
    if name == "content_block_start"@ {
        if text_in(below(data, "content_block"@, "type"@)) == Some("tool_use"@) {
            let id = or_text(text_in(below(data, "content_block"@, "id"@)), "c-?"@);
            Ok(
                Made {
                    blocks: with_call(blocks, index_in(data, "index"@), id),
                    events: seq![
                        ModelStreamEventView::ToolUseBegin {
                            call_id: id,
                            name: or_text(text_in(below(data, "content_block"@, "name"@)), ""@),
                        },
                    ],
                },
            )
        } else {
            Ok(Made { blocks, events: Seq::empty() })
        }
    } else if name == "content_block_delta"@ {
        Ok(Made { blocks, events: delta_of(blocks, data) })
    } else if name == "content_block_stop"@ {
        let k = index_in(data, "index"@);
        Ok(
            Made {
                blocks: without_call(blocks, k),
                events: match call_at(blocks, k) {
                    Some(call_id) => seq![ModelStreamEventView::ToolUseEnd { call_id }],
                    None => Seq::empty(),
                },
            },
        )
    } else if name == "message_delta"@ {
        Ok(
            Made {
                blocks,
                events: match (
                    text_in(below(data, "delta"@, "stop_reason"@)),
                    member(data, "usage"@),
                ) {
                    (Some(s), Some(u)) => seq![
                        ModelStreamEventView::MessageEnd {
                            stop_reason: stop_of(s),
                            usage: usage_of(u),
                        },
                    ],
                    _ => Seq::empty(),
                },
            },
        )
    } else if name == "error"@ {
        Err(or_text(text_in(below(data, "error"@, "message"@)), "unknown"@))
    } else {
        Ok(Made { blocks, events: Seq::empty() })
    }
}

/// What a piece of a block comes to.
pub open spec fn delta_of(blocks: Seq<(u32, Seq<char>)>, data: JsonView) -> Seq<
    ModelStreamEventView,
> {
    let kind = text_in(below(data, "delta"@, "type"@));
    if kind == Some("text_delta"@) {
        seq![
            ModelStreamEventView::TextDelta(or_text(text_in(below(data, "delta"@, "text"@)), ""@)),
        ]
    } else if kind == Some("thinking_delta"@) {
        seq![
            ModelStreamEventView::ThinkingDelta(
                or_text(text_in(below(data, "delta"@, "thinking"@)), ""@),
            ),
        ]
    } else if kind == Some("input_json_delta"@) {
        match call_at(blocks, index_in(data, "index"@)) {
            Some(call_id) => seq![
                ModelStreamEventView::ToolUseInputDelta {
                    call_id,
                    json_fragment: or_text(text_in(below(data, "delta"@, "partial_json"@)), ""@),
                },
            ],
            None => Seq::empty(),
        }
    } else {
        Seq::empty()
    }
}

/// The data of an event: nothing stands for an empty object.
pub open spec fn data_of(data: Seq<char>) -> Option<JsonView> {
    if data.len() == 0 {
        Some(JsonView::Object(Map::empty()))
    } else {
        json_read(data)
    }
}

/// The data of an event, or the reader's message.
pub fn read_data(data: &str) -> (r: Result<Json, String>)
    ensures
        match r {
            Ok(j) => data_of(data@) == Some(j@),
            Err(e) => data_of(data@) is None && e@ == json_refusal(data@),
        },
{
    if data.is_empty() {
        Ok(Members::new().done())
    } else {
        parse(data)
    }
}

fn map_stop_reason(s: &str) -> (r: StopReason)
    ensures
        r == stop_of(s@),
{
    if same(s, "max_tokens") {
        StopReason::MaxTokens
    } else if same(s, "tool_use") {
        StopReason::ToolUse
    } else if same(s, "refusal") {
        StopReason::Refused
    } else {
        StopReason::EndTurn
    }
}

fn map_usage(u: &Json) -> (r: TokenUsage)
    ensures
        r.deep_view() == usage_of(u@),
{
    TokenUsage {
        input: number_at(u, "input_tokens"),
        cached_input: number_at(u, "cache_read_input_tokens"),
        output: number_at(u, "output_tokens"),
        reasoning: 0,
    }
}

/// Turns the provider's stream into the library's.
pub struct AnthropicDecoder {
    blocks: Calls,
}

impl View for AnthropicDecoder {
    type V = Seq<(u32, Seq<char>)>;

    closed spec fn view(&self) -> Seq<(u32, Seq<char>)> {
        self.blocks@
    }
}

impl AnthropicDecoder {
    /// No index is open twice.
    pub open spec fn inv(&self) -> bool {
        distinct(self@)
    }

    /// A decoder at the start of a stream.
    pub fn new() -> (r: Self)
        ensures
            r.inv(),
            r@ == Seq::<(u32, Seq<char>)>::empty(),
    {
        AnthropicDecoder { blocks: Calls::new() }
    }

    /// Take in one event, whose data has been read.
    pub fn handle_data(&mut self, name: &str, data: &Json) -> (r: Result<
        Vec<ModelStreamEvent>,
        ModelError,
    >)
        requires
            old(self).inv(),
        ensures
            final(self).inv(),
            match made_of(old(self)@, name@, data@) {
                Ok(made) => final(self)@ == made.blocks && (r matches Ok(v) && v.deep_view()
                    == made.events),
                Err(msg) => final(self)@ == old(self)@ && (r matches Err(e) && e.deep_view()
                    == ModelErrorView::Stream("provider error: "@ + msg)),
            },
    {
        let mut out: Vec<ModelStreamEvent> = Vec::new();
        assert(out.deep_view() =~= Seq::<ModelStreamEventView>::empty());
        if same(name, "content_block_start") {
            let kind = text_below(data, "content_block", "type");
            if is_text(&kind, "tool_use") {
                let id = text_or(text_below(data, "content_block", "id"), "c-?");
                let call_id = CallId::new(id.as_str());
                let tool = text_or(text_below(data, "content_block", "name"), "");
                self.blocks.insert(index_at(data, "index"), call_id.clone());
                let ev = ModelStreamEvent::ToolUseBegin { call_id, name: tool };
                out.push(ev);
                assert(out.deep_view() =~= seq![ev.deep_view()]);
            }
        } else if same(name, "content_block_delta") {
            return Ok(self.delta(data));
        } else if same(name, "content_block_stop") {
            match self.blocks.remove(index_at(data, "index")) {
                Some(call_id) => {
                    let ev = ModelStreamEvent::ToolUseEnd { call_id };
                    out.push(ev);
                    assert(out.deep_view() =~= seq![ev.deep_view()]);
                },
                None => {},
            }
        } else if same(name, "message_delta") {
            match (text_below(data, "delta", "stop_reason"), data.get("usage")) {
                (Some(s), Some(u)) => {
                    let ev = ModelStreamEvent::MessageEnd {
                        stop_reason: map_stop_reason(s.as_str()),
                        usage: map_usage(u),
                    };
                    out.push(ev);
                    assert(out.deep_view() =~= seq![ev.deep_view()]);
                },
                _ => {},
            }
        } else if same(name, "error") {
            let msg = text_or(text_below(data, "error", "message"), "unknown");
            return Err(ModelError::Stream(cat("provider error: ", msg.as_str())));
        }
        Ok(out)
    }

    fn delta(&self, data: &Json) -> (r: Vec<ModelStreamEvent>)
        ensures
            r.deep_view() == delta_of(self@, data@),
    {
        let mut out: Vec<ModelStreamEvent> = Vec::new();
        assert(out.deep_view() =~= Seq::<ModelStreamEventView>::empty());
        let kind = text_below(data, "delta", "type");
        if is_text(&kind, "text_delta") {
            let ev = ModelStreamEvent::TextDelta(text_or(text_below(data, "delta", "text"), ""));
            out.push(ev);
            assert(out.deep_view() =~= seq![ev.deep_view()]);
        } else if is_text(&kind, "thinking_delta") {
            let ev = ModelStreamEvent::ThinkingDelta(
                text_or(text_below(data, "delta", "thinking"), ""),
            );
            out.push(ev);
            assert(out.deep_view() =~= seq![ev.deep_view()]);
        } else if is_text(&kind, "input_json_delta") {
            match self.blocks.get(index_at(data, "index")) {
                Some(call_id) => {
                    let ev = ModelStreamEvent::ToolUseInputDelta {
                        call_id,
                        json_fragment: text_or(text_below(data, "delta", "partial_json"), ""),
                    };
                    out.push(ev);
                    assert(out.deep_view() =~= seq![ev.deep_view()]);
                },
                None => {},
            }
        }
        out
    }

    /// Take in one event.
    pub fn handle_event(&mut self, ev: &SseEvent) -> (r: Result<Vec<ModelStreamEvent>, ModelError>)
        requires
            old(self).inv(),
        ensures
            final(self).inv(),
            match data_of(ev.data@) {
                None => final(self)@ == old(self)@ && (r matches Err(e) && e.deep_view()
                    == ModelErrorView::Stream(
                    "解析 "@ + or_text(ev.event.deep_view(), "message"@) + " 数据失败: "@
                        + json_refusal(ev.data@),
                )),
                Some(j) => match made_of(
                    old(self)@,
                    or_text(ev.event.deep_view(), "message"@),
                    j,
                ) {
                    Ok(made) => final(self)@ == made.blocks && (r matches Ok(v) && v.deep_view()
                        == made.events),
                    Err(msg) => final(self)@ == old(self)@ && (r matches Err(e) && e.deep_view()
                        == ModelErrorView::Stream("provider error: "@ + msg)),
                },
            },
    {
        let name = text_or(ev.event.dup(), "message");
        match read_data(ev.data.as_str()) {
            Ok(j) => self.handle_data(name.as_str(), &j),
            Err(e) => {
                let head = cat("解析 ", name.as_str());
                let head = cat(head.as_str(), " 数据失败: ");
                Err(ModelError::Stream(cat(head.as_str(), e.as_str())))
            },
        }
    }
}

// ---- laws ----

/// Every piece of arguments that comes for an open tool block is given to the call
/// that opened it, and so is its end.
pub proof fn law_pieces_go_to_their_call(
    blocks: Seq<(u32, Seq<char>)>,
    start: JsonView,
    data: JsonView,
)
    requires
        distinct(blocks),
        text_in(below(start, "content_block"@, "type"@)) == Some("tool_use"@),
        index_in(data, "index"@) == index_in(start, "index"@),
    ensures
        ({
            let opened = made_of(blocks, "content_block_start"@, start);
            &&& opened is Ok
            &&& opened->Ok_0.events.len() == 1
            &&& opened->Ok_0.events[0] is ToolUseBegin
            &&& text_in(below(data, "delta"@, "type"@)) == Some("input_json_delta"@) ==> delta_of(
                opened->Ok_0.blocks,
                data,
            ) == seq![
                ModelStreamEventView::ToolUseInputDelta {
                    call_id: opened->Ok_0.events[0]->ToolUseBegin_call_id,
                    json_fragment: or_text(text_in(below(data, "delta"@, "partial_json"@)), ""@),
                },
            ]
            &&& made_of(opened->Ok_0.blocks, "content_block_stop"@, data) matches Ok(closed)
                && closed.events == seq![
                ModelStreamEventView::ToolUseEnd {
                    call_id: opened->Ok_0.events[0]->ToolUseBegin_call_id,
                },
            ]
        }),
{
    let k = index_in(start, "index"@);
    let id = or_text(text_in(below(start, "content_block"@, "id"@)), "c-?"@);
    let after = with_call(blocks, k, id);
    lemma_place(blocks, k);
    lemma_place_is(after, k, place(blocks, k));
    assert(call_at(after, k) == Some(id));
    reveal_strlit("content_block_start");
    reveal_strlit("content_block_delta");
    reveal_strlit("content_block_stop");
    reveal_strlit("text_delta");
    reveal_strlit("thinking_delta");
    reveal_strlit("input_json_delta");
    assert("content_block_start"@.len() == 19 && "content_block_delta"@.len() == 19
        && "content_block_stop"@.len() == 18);
    assert("text_delta"@.len() == 10 && "thinking_delta"@.len() == 14
        && "input_json_delta"@.len() == 16);
}

/// A block of the system prompt says all that it holds: its text, and whether what
/// stands before it is kept for later requests.
pub proof fn law_cache_marks_are_kept(b: SystemBlockView)
    ensures
        text_in(member(SystemForm::form(b), "text"@)) == Some(b.text),
        member(SystemForm::form(b), "cache_control"@) is Some <==> b.cache_breakpoint is Some,
{
    reveal_strlit("type");
    reveal_strlit("text");
    reveal_strlit("cache_control");
    assert("type"@.len() == 4 && "text"@.len() == 4 && "cache_control"@.len() == 13);
    assert("type"@[1] != "text"@[1]);
}

/// Thinking is asked for exactly where the request asks for it, and every message is
/// sent.
pub proof fn law_requests_are_not_flattened(req: ModelRequestView)
    ensures
        member(request_form(req), "thinking"@) is Some <==> req.reasoning is Some,
        member(request_form(req), "messages"@) == Some(
            JsonView::List(forms::<ModelMessage, MessageForm>(req.messages)),
        ),
        forms::<ModelMessage, MessageForm>(req.messages).len() == req.messages.len(),
{
    reveal_strlit("model");
    reveal_strlit("messages");
    reveal_strlit("max_tokens");
    reveal_strlit("stream");
    reveal_strlit("system");
    reveal_strlit("tools");
    reveal_strlit("thinking");
    reveal_strlit("temperature");
    reveal_strlit("metadata");
    assert("model"@.len() == 5 && "messages"@.len() == 8 && "max_tokens"@.len() == 10
        && "stream"@.len() == 6 && "system"@.len() == 6 && "tools"@.len() == 5 && "thinking"@.len()
        == 8 && "temperature"@.len() == 11 && "metadata"@.len() == 8);
    assert("messages"@[0] != "thinking"@[0]);
    assert("messages"@[2] != "metadata"@[2]);
    assert("metadata"@[0] != "thinking"@[0]);
}

} // verus!
