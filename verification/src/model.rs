//! Messages to and from models, whichever provider they go to.
use vstd::prelude::*;

use crate::codec::Wire;
use crate::content::ReasoningEffort;
use crate::content::StopReason;
use crate::content::TokenUsage;
use crate::content::TokenUsageView;
use crate::dup::Dup;
use crate::ids::CallId;
use crate::json::Json;
use crate::json::JsonView;
use crate::json::text_in;
use crate::text::cat;
use crate::text::same;

verus! {

/// The model of `ToolSpec`.
pub struct ToolSpecView {
    pub name: Seq<char>,
    pub description: Seq<char>,
    pub schema: JsonView,
}

/// A tool as the model is told of it.
#[derive(Debug, PartialEq)]
pub struct ToolSpec {
    pub name: String,
    pub description: String,
    /// The JSON Schema of the arguments.
    pub schema: Json,
}

impl DeepView for ToolSpec {
    type V = ToolSpecView;

    open spec fn deep_view(&self) -> ToolSpecView {
        ToolSpecView {
            name: self.name.deep_view(),
            description: self.description.deep_view(),
            schema: self.schema.deep_view(),
        }
    }
}

impl Dup for ToolSpec {
    fn dup(&self) -> (r: Self) {
        ToolSpec {
            name: self.name.dup(),
            description: self.description.dup(),
            schema: self.schema.dup(),
        }
    }
}

impl Clone for ToolSpec {
    fn clone(&self) -> (r: Self)
        ensures
            r.deep_view() == self.deep_view(),
    {
        self.dup()
    }
}

/// How long a provider is to keep a prefix.
#[derive(Debug, Clone, Copy, PartialEq, Eq, Structural)]
pub enum CacheBreakpoint {
    /// Five minutes.
    Ephemeral,
    /// One hour, where the provider has it.
    OneHour,
}

impl DeepView for CacheBreakpoint {
    type V = CacheBreakpoint;

    open spec fn deep_view(&self) -> CacheBreakpoint {
        *self
    }
}

impl Dup for CacheBreakpoint {
    fn dup(&self) -> (r: Self) {
        *self
    }
}

impl CacheBreakpoint {
    /// The name on the wire.
    pub open spec fn name(self) -> Seq<char> {
        match self {
            CacheBreakpoint::Ephemeral => "ephemeral"@,
            CacheBreakpoint::OneHour => "one_hour"@,
        }
    }

    /// The value with a given name.
    pub open spec fn named(s: Seq<char>) -> Option<CacheBreakpoint> {
        if s == "ephemeral"@ {
            Some(CacheBreakpoint::Ephemeral)
        } else if s == "one_hour"@ {
            Some(CacheBreakpoint::OneHour)
        } else {
            None
        }
    }

    /// The name on the wire.
    pub fn as_str(&self) -> (r: &'static str)
        ensures
            r@ == self.name(),
    {
        match self {
            CacheBreakpoint::Ephemeral => "ephemeral",
            CacheBreakpoint::OneHour => "one_hour",
        }
    }

    /// The value with a given name.
    pub fn from_name(s: &str) -> (r: Option<CacheBreakpoint>)
        ensures
            r == CacheBreakpoint::named(s@),
    {
        if same(s, "ephemeral") {
            Some(CacheBreakpoint::Ephemeral)
        } else if same(s, "one_hour") {
            Some(CacheBreakpoint::OneHour)
        } else {
            None
        }
    }
}

impl Wire for CacheBreakpoint {
    open spec fn json(v: CacheBreakpoint) -> JsonView {
        JsonView::Text(v.name())
    }

    open spec fn read(j: JsonView) -> Option<CacheBreakpoint> {
        match text_in(Some(j)) {
            Some(s) => CacheBreakpoint::named(s),
            None => None,
        }
    }

    fn to_json(&self) -> (r: Json) {
        Json::text(self.as_str())
    }

    fn from_json(j: &Json) -> (r: Option<Self>) {
        match j.as_str() {
            Some(s) => CacheBreakpoint::from_name(s),
            None => None,
        }
    }

    open spec fn faithful(v: CacheBreakpoint) -> bool {
        true
    }

    proof fn round_trip(v: CacheBreakpoint) {
        reveal_strlit("ephemeral");
        reveal_strlit("one_hour");
        assert("ephemeral"@.len() == 9 && "one_hour"@.len() == 8);
    }
}

/// The model of `SystemBlock`.
pub struct SystemBlockView {
    pub text: Seq<char>,
    pub cache_breakpoint: Option<CacheBreakpoint>,
}

/// A block of the system prompt.
#[derive(Debug, PartialEq)]
pub struct SystemBlock {
    pub text: String,
    /// Keep the prefix up to the end of this block.
    pub cache_breakpoint: Option<CacheBreakpoint>,
}

impl DeepView for SystemBlock {
    type V = SystemBlockView;

    open spec fn deep_view(&self) -> SystemBlockView {
        SystemBlockView {
            text: self.text.deep_view(),
            cache_breakpoint: self.cache_breakpoint.deep_view(),
        }
    }
}

impl Dup for SystemBlock {
    fn dup(&self) -> (r: Self) {
        SystemBlock {
            text: self.text.dup(),
            cache_breakpoint: self.cache_breakpoint.dup(),
        }
    }
}

impl Clone for SystemBlock {
    fn clone(&self) -> (r: Self)
        ensures
            r.deep_view() == self.deep_view(),
    {
        self.dup()
    }
}

/// The model of `RequestMeta`.
pub struct RequestMetaView {
    pub session_id: Option<Seq<char>>,
    pub turn_id: Option<Seq<char>>,
}

/// Which session and turn a request is for.
#[derive(Debug, PartialEq)]
pub struct RequestMeta {
    pub session_id: Option<String>,
    pub turn_id: Option<String>,
}

impl DeepView for RequestMeta {
    type V = RequestMetaView;

    open spec fn deep_view(&self) -> RequestMetaView {
        RequestMetaView {
            session_id: self.session_id.deep_view(),
            turn_id: self.turn_id.deep_view(),
        }
    }
}

impl Dup for RequestMeta {
    fn dup(&self) -> (r: Self) {
        RequestMeta {
            session_id: self.session_id.dup(),
            turn_id: self.turn_id.dup(),
        }
    }
}

impl Clone for RequestMeta {
    fn clone(&self) -> (r: Self)
        ensures
            r.deep_view() == self.deep_view(),
    {
        self.dup()
    }
}

/// The model of `ModelContent`.
pub enum ModelContentView {
    Text(Seq<char>),
    Thinking { text: Seq<char>, signature: Option<Seq<char>> },
    ToolUse { call_id: Seq<char>, name: Seq<char>, input: JsonView },
    Image { mime: Seq<char>, data_base64: Seq<char> },
}

/// A block of a message to or from the model.
#[derive(Debug, PartialEq)]
pub enum ModelContent {
    Text(String),
    Thinking { text: String, signature: Option<String> },
    ToolUse { call_id: CallId, name: String, input: Json },
    Image { mime: String, data_base64: String },
}

impl DeepView for ModelContent {
    type V = ModelContentView;

    open spec fn deep_view(&self) -> ModelContentView {
        match *self {
            ModelContent::Text(x) => ModelContentView::Text(x.deep_view()),
            ModelContent::Thinking { text, signature } => ModelContentView::Thinking { text: text.deep_view(), signature: signature.deep_view() },
            ModelContent::ToolUse { call_id, name, input } => ModelContentView::ToolUse { call_id: call_id.deep_view(), name: name.deep_view(), input: input.deep_view() },
            ModelContent::Image { mime, data_base64 } => ModelContentView::Image { mime: mime.deep_view(), data_base64: data_base64.deep_view() },
        }
    }
}

impl Dup for ModelContent {
    fn dup(&self) -> (r: Self) {
        match self {
            ModelContent::Text(x) => ModelContent::Text(x.dup()),
            ModelContent::Thinking { text, signature } => ModelContent::Thinking { text: text.dup(), signature: signature.dup() },
            ModelContent::ToolUse { call_id, name, input } => ModelContent::ToolUse { call_id: call_id.dup(), name: name.dup(), input: input.dup() },
            ModelContent::Image { mime, data_base64 } => ModelContent::Image { mime: mime.dup(), data_base64: data_base64.dup() },
        }
    }
}

impl Clone for ModelContent {
    fn clone(&self) -> (r: Self)
        ensures
            r.deep_view() == self.deep_view(),
    {
        self.dup()
    }
}

impl ModelContent {
    /// A block of text.
    pub fn text(s: &str) -> (r: Self)
        ensures
            r.deep_view() == ModelContentView::Text(s@),
    {
        ModelContent::Text(s.to_owned())
    }
}

/// The model of `ModelMessage`.
pub enum ModelMessageView {
    User { content: Seq<ModelContentView> },
    Assistant { content: Seq<ModelContentView> },
    ToolResult { call_id: Seq<char>, content: Seq<ModelContentView>, is_error: bool },
}

/// A message to or from the model.
#[derive(Debug, PartialEq)]
pub enum ModelMessage {
    User { content: Vec<ModelContent> },
    Assistant { content: Vec<ModelContent> },
    ToolResult { call_id: CallId, content: Vec<ModelContent>, is_error: bool },
}

impl DeepView for ModelMessage {
    type V = ModelMessageView;

    open spec fn deep_view(&self) -> ModelMessageView {
        match *self {
            ModelMessage::User { content } => ModelMessageView::User { content: content.deep_view() },
            ModelMessage::Assistant { content } => ModelMessageView::Assistant { content: content.deep_view() },
            ModelMessage::ToolResult { call_id, content, is_error } => ModelMessageView::ToolResult { call_id: call_id.deep_view(), content: content.deep_view(), is_error: is_error.deep_view() },
        }
    }
}

impl Dup for ModelMessage {
    fn dup(&self) -> (r: Self) {
        match self {
            ModelMessage::User { content } => ModelMessage::User { content: content.dup() },
            ModelMessage::Assistant { content } => ModelMessage::Assistant { content: content.dup() },
            ModelMessage::ToolResult { call_id, content, is_error } => ModelMessage::ToolResult { call_id: call_id.dup(), content: content.dup(), is_error: is_error.dup() },
        }
    }
}

impl Clone for ModelMessage {
    fn clone(&self) -> (r: Self)
        ensures
            r.deep_view() == self.deep_view(),
    {
        self.dup()
    }
}

/// The model of `ModelRequest`.
pub struct ModelRequestView {
    pub model: Seq<char>,
    pub system: Seq<SystemBlockView>,
    pub messages: Seq<ModelMessageView>,
    pub tools: Seq<ToolSpecView>,
    pub reasoning: Option<ReasoningEffort>,
    pub max_output_tokens: u32,
    pub temperature: Option<JsonView>,
    pub metadata: RequestMetaView,
}

/// A request to a model.
#[derive(Debug, PartialEq)]
pub struct ModelRequest {
    pub model: String,
    pub system: Vec<SystemBlock>,
    pub messages: Vec<ModelMessage>,
    pub tools: Vec<ToolSpec>,
    pub reasoning: Option<ReasoningEffort>,
    pub max_output_tokens: u32,
    /// A number.
    pub temperature: Option<Json>,
    pub metadata: RequestMeta,
}

impl DeepView for ModelRequest {
    type V = ModelRequestView;

    open spec fn deep_view(&self) -> ModelRequestView {
        ModelRequestView {
            model: self.model.deep_view(),
            system: self.system.deep_view(),
            messages: self.messages.deep_view(),
            tools: self.tools.deep_view(),
            reasoning: self.reasoning.deep_view(),
            max_output_tokens: self.max_output_tokens.deep_view(),
            temperature: self.temperature.deep_view(),
            metadata: self.metadata.deep_view(),
        }
    }
}

impl Dup for ModelRequest {
    fn dup(&self) -> (r: Self) {
        ModelRequest {
            model: self.model.dup(),
            system: self.system.dup(),
            messages: self.messages.dup(),
            tools: self.tools.dup(),
            reasoning: self.reasoning.dup(),
            max_output_tokens: self.max_output_tokens.dup(),
            temperature: self.temperature.dup(),
            metadata: self.metadata.dup(),
        }
    }
}

impl Clone for ModelRequest {
    fn clone(&self) -> (r: Self)
        ensures
            r.deep_view() == self.deep_view(),
    {
        self.dup()
    }
}

/// The model of `ModelStreamEvent`.
pub enum ModelStreamEventView {
    ToolUseBegin { call_id: Seq<char>, name: Seq<char> },
    ToolUseInputDelta { call_id: Seq<char>, json_fragment: Seq<char> },
    ToolUseEnd { call_id: Seq<char> },
    TextDelta(Seq<char>),
    ThinkingDelta(Seq<char>),
    MessageEnd { stop_reason: StopReason, usage: TokenUsageView },
}

/// What a model's stream comes to, whichever provider it is.
#[derive(Debug, PartialEq)]
pub enum ModelStreamEvent {
    ToolUseBegin { call_id: CallId, name: String },
    /// A piece of the arguments' JSON.
    ToolUseInputDelta { call_id: CallId, json_fragment: String },
    ToolUseEnd { call_id: CallId },
    TextDelta(String),
    ThinkingDelta(String),
    MessageEnd { stop_reason: StopReason, usage: TokenUsage },
}

impl DeepView for ModelStreamEvent {
    type V = ModelStreamEventView;

    open spec fn deep_view(&self) -> ModelStreamEventView {
        match *self {
            ModelStreamEvent::ToolUseBegin { call_id, name } => ModelStreamEventView::ToolUseBegin { call_id: call_id.deep_view(), name: name.deep_view() },
            ModelStreamEvent::ToolUseInputDelta { call_id, json_fragment } => ModelStreamEventView::ToolUseInputDelta { call_id: call_id.deep_view(), json_fragment: json_fragment.deep_view() },
            ModelStreamEvent::ToolUseEnd { call_id } => ModelStreamEventView::ToolUseEnd { call_id: call_id.deep_view() },
            ModelStreamEvent::TextDelta(x) => ModelStreamEventView::TextDelta(x.deep_view()),
            ModelStreamEvent::ThinkingDelta(x) => ModelStreamEventView::ThinkingDelta(x.deep_view()),
            ModelStreamEvent::MessageEnd { stop_reason, usage } => ModelStreamEventView::MessageEnd { stop_reason: stop_reason.deep_view(), usage: usage.deep_view() },
        }
    }
}

impl Dup for ModelStreamEvent {
    fn dup(&self) -> (r: Self) {
        match self {
            ModelStreamEvent::ToolUseBegin { call_id, name } => ModelStreamEvent::ToolUseBegin { call_id: call_id.dup(), name: name.dup() },
            ModelStreamEvent::ToolUseInputDelta { call_id, json_fragment } => ModelStreamEvent::ToolUseInputDelta { call_id: call_id.dup(), json_fragment: json_fragment.dup() },
            ModelStreamEvent::ToolUseEnd { call_id } => ModelStreamEvent::ToolUseEnd { call_id: call_id.dup() },
            ModelStreamEvent::TextDelta(x) => ModelStreamEvent::TextDelta(x.dup()),
            ModelStreamEvent::ThinkingDelta(x) => ModelStreamEvent::ThinkingDelta(x.dup()),
            ModelStreamEvent::MessageEnd { stop_reason, usage } => ModelStreamEvent::MessageEnd { stop_reason: stop_reason.dup(), usage: usage.dup() },
        }
    }
}

impl Clone for ModelStreamEvent {
    fn clone(&self) -> (r: Self)
        ensures
            r.deep_view() == self.deep_view(),
    {
        self.dup()
    }
}

/// The model of `ModelError`.
pub enum ModelErrorView {
    Retryable(Seq<char>),
    Auth(Seq<char>),
    ContextLength(Seq<char>),
    Fatal(Seq<char>),
    Stream(Seq<char>),
    Build(Seq<char>),
}

/// What can go wrong with a request, by what to do about it.
#[derive(Debug, PartialEq)]
pub enum ModelError {
    /// Worth another try.
    Retryable(String),
    Auth(String),
    ContextLength(String),
    Fatal(String),
    Stream(String),
    Build(String),
}

impl DeepView for ModelError {
    type V = ModelErrorView;

    open spec fn deep_view(&self) -> ModelErrorView {
        match *self {
            ModelError::Retryable(x) => ModelErrorView::Retryable(x.deep_view()),
            ModelError::Auth(x) => ModelErrorView::Auth(x.deep_view()),
            ModelError::ContextLength(x) => ModelErrorView::ContextLength(x.deep_view()),
            ModelError::Fatal(x) => ModelErrorView::Fatal(x.deep_view()),
            ModelError::Stream(x) => ModelErrorView::Stream(x.deep_view()),
            ModelError::Build(x) => ModelErrorView::Build(x.deep_view()),
        }
    }
}

impl Dup for ModelError {
    fn dup(&self) -> (r: Self) {
        match self {
            ModelError::Retryable(x) => ModelError::Retryable(x.dup()),
            ModelError::Auth(x) => ModelError::Auth(x.dup()),
            ModelError::ContextLength(x) => ModelError::ContextLength(x.dup()),
            ModelError::Fatal(x) => ModelError::Fatal(x.dup()),
            ModelError::Stream(x) => ModelError::Stream(x.dup()),
            ModelError::Build(x) => ModelError::Build(x.dup()),
        }
    }
}

impl Clone for ModelError {
    fn clone(&self) -> (r: Self)
        ensures
            r.deep_view() == self.deep_view(),
    {
        self.dup()
    }
}

impl ModelError {
    /// The error in words.
    pub open spec fn words_of(v: ModelErrorView) -> Seq<char> {
        match v {
            ModelErrorView::Retryable(s) => "可重试的传输/限流错误: "@ + s,
            ModelErrorView::Auth(s) => "认证失败: "@ + s,
            ModelErrorView::ContextLength(s) => "上下文超长: "@ + s,
            ModelErrorView::Fatal(s) => "provider fatal: "@ + s,
            ModelErrorView::Stream(s) => "流解析失败: "@ + s,
            ModelErrorView::Build(s) => "请求构建失败: "@ + s,
        }
    }

    /// The error in words.
    pub fn message(&self) -> (r: String)
        ensures
            r@ == ModelError::words_of(self.deep_view()),
    {
        match self {
            ModelError::Retryable(s) => cat("可重试的传输/限流错误: ", s.as_str()),
            ModelError::Auth(s) => cat("认证失败: ", s.as_str()),
            ModelError::ContextLength(s) => cat("上下文超长: ", s.as_str()),
            ModelError::Fatal(s) => cat("provider fatal: ", s.as_str()),
            ModelError::Stream(s) => cat("流解析失败: ", s.as_str()),
            ModelError::Build(s) => cat("请求构建失败: ", s.as_str()),
        }
    }
}

} // verus!
