//! Messages, stop reasons and token counts, free of any one provider's form.
use vstd::prelude::*;

use crate::codec::Wire;
use crate::codec::maybe;
use crate::codec::need;
use crate::codec::take_maybe;
use crate::codec::take_needed;
use crate::codec::with_some;
use crate::dup::Dup;
use crate::ids::CallId;
use crate::json::Json;
use crate::json::JsonView;
use crate::json::Members;
use crate::json::text_in;
use crate::text::same;

verus! {

/// How hard the model is to think.
#[derive(Debug, Clone, Copy, PartialEq, Eq, Structural)]
pub enum ReasoningEffort {
    Minimal,
    Low,
    Medium,
    High,
    Max,
}

impl DeepView for ReasoningEffort {
    type V = ReasoningEffort;

    open spec fn deep_view(&self) -> ReasoningEffort {
        *self
    }
}

impl Dup for ReasoningEffort {
    fn dup(&self) -> (r: Self) {
        *self
    }
}

impl ReasoningEffort {
    /// The name on the wire.
    pub open spec fn name(self) -> Seq<char> {
        match self {
            ReasoningEffort::Minimal => "minimal"@,
            ReasoningEffort::Low => "low"@,
            ReasoningEffort::Medium => "medium"@,
            ReasoningEffort::High => "high"@,
            ReasoningEffort::Max => "max"@,
        }
    }

    /// The value with a given name.
    pub open spec fn named(s: Seq<char>) -> Option<ReasoningEffort> {
        if s == "minimal"@ {
            Some(ReasoningEffort::Minimal)
        } else if s == "low"@ {
            Some(ReasoningEffort::Low)
        } else if s == "medium"@ {
            Some(ReasoningEffort::Medium)
        } else if s == "high"@ {
            Some(ReasoningEffort::High)
        } else if s == "max"@ {
            Some(ReasoningEffort::Max)
        } else {
            None
        }
    }

    /// The name on the wire.
    pub fn as_str(&self) -> (r: &'static str)
        ensures
            r@ == self.name(),
    {
        match self {
            ReasoningEffort::Minimal => "minimal",
            ReasoningEffort::Low => "low",
            ReasoningEffort::Medium => "medium",
            ReasoningEffort::High => "high",
            ReasoningEffort::Max => "max",
        }
    }

    /// The value with a given name.
    pub fn from_name(s: &str) -> (r: Option<ReasoningEffort>)
        ensures
            r == ReasoningEffort::named(s@),
    {
        if same(s, "minimal") {
            Some(ReasoningEffort::Minimal)
        } else if same(s, "low") {
            Some(ReasoningEffort::Low)
        } else if same(s, "medium") {
            Some(ReasoningEffort::Medium)
        } else if same(s, "high") {
            Some(ReasoningEffort::High)
        } else if same(s, "max") {
            Some(ReasoningEffort::Max)
        } else {
            None
        }
    }
}

impl Wire for ReasoningEffort {
    open spec fn json(v: ReasoningEffort) -> JsonView {
        JsonView::Text(v.name())
    }

    open spec fn read(j: JsonView) -> Option<ReasoningEffort> {
        match text_in(Some(j)) {
            Some(s) => ReasoningEffort::named(s),
            None => None,
        }
    }

    fn to_json(&self) -> (r: Json) {
        Json::text(self.as_str())
    }

    fn from_json(j: &Json) -> (r: Option<Self>) {
        match j.as_str() {
            Some(s) => ReasoningEffort::from_name(s),
            None => None,
        }
    }

    open spec fn faithful(v: ReasoningEffort) -> bool {
        true
    }

    proof fn round_trip(v: ReasoningEffort) {
        reveal_strlit("minimal");
        reveal_strlit("low");
        reveal_strlit("medium");
        reveal_strlit("high");
        reveal_strlit("max");
        assert("minimal"@.len() == 7 && "low"@.len() == 3 && "medium"@.len() == 6 && "high"@.len() == 4 && "max"@.len() == 3);
        assert("low"@[0] != "max"@[0]);
    }
}

/// The model of `Content`.
pub enum ContentView {
    Text { text: Seq<char> },
    Thinking { text: Seq<char>, signature: Option<Seq<char>> },
    ToolUse { call_id: Seq<char>, name: Seq<char>, input: JsonView },
    Image { mime: Seq<char>, data_base64: Seq<char> },
}

/// A block of a message.
#[derive(Debug, PartialEq)]
pub enum Content {
    Text { text: String },
    /// A thought, with the signature that some providers want back.
    Thinking { text: String, signature: Option<String> },
    ToolUse { call_id: CallId, name: String, input: Json },
    Image { mime: String, data_base64: String },
}

impl DeepView for Content {
    type V = ContentView;

    open spec fn deep_view(&self) -> ContentView {
        match *self {
            Content::Text { text } => ContentView::Text { text: text.deep_view() },
            Content::Thinking { text, signature } => ContentView::Thinking { text: text.deep_view(), signature: signature.deep_view() },
            Content::ToolUse { call_id, name, input } => ContentView::ToolUse { call_id: call_id.deep_view(), name: name.deep_view(), input: input.deep_view() },
            Content::Image { mime, data_base64 } => ContentView::Image { mime: mime.deep_view(), data_base64: data_base64.deep_view() },
        }
    }
}

impl Dup for Content {
    fn dup(&self) -> (r: Self) {
        match self {
            Content::Text { text } => Content::Text { text: text.dup() },
            Content::Thinking { text, signature } => Content::Thinking { text: text.dup(), signature: signature.dup() },
            Content::ToolUse { call_id, name, input } => Content::ToolUse { call_id: call_id.dup(), name: name.dup(), input: input.dup() },
            Content::Image { mime, data_base64 } => Content::Image { mime: mime.dup(), data_base64: data_base64.dup() },
        }
    }
}

impl Clone for Content {
    fn clone(&self) -> (r: Self)
        ensures
            r.deep_view() == self.deep_view(),
    {
        self.dup()
    }
}

impl Wire for Content {
    open spec fn json(v: ContentView) -> JsonView {
        JsonView::Object(
            match v {
                ContentView::Text { text } => Map::empty().insert("type"@, JsonView::Text("text"@)).insert("text"@, String::json(text)),
                ContentView::Thinking { text, signature } => with_some::<String>(
                    Map::empty().insert("type"@, JsonView::Text("thinking"@)).insert("text"@, String::json(text)),
                    "signature"@,
                    signature,
                ),
                ContentView::ToolUse { call_id, name, input } => Map::empty().insert("type"@, JsonView::Text("tool_use"@)).insert("call_id"@, CallId::json(call_id)).insert("name"@, String::json(name)).insert("input"@, Json::json(input)),
                ContentView::Image { mime, data_base64 } => Map::empty().insert("type"@, JsonView::Text("image"@)).insert("mime"@, String::json(mime)).insert("data_base64"@, String::json(data_base64)),
            },
        )
    }

    open spec fn read(j: JsonView) -> Option<ContentView> {
        match need::<String>(j, "type"@) {
            None => None,
            Some(t) => if t == "text"@ {
                match need::<String>(j, "text"@) {
                    Some(text) => Some(ContentView::Text { text }),
                    None => None,
                }
            } else if t == "thinking"@ {
                match (
                    need::<String>(j, "text"@),
                    maybe::<String>(j, "signature"@),
                ) {
                    (Some(text), Some(signature)) => Some(
                        ContentView::Thinking { text, signature },
                    ),
                    _ => None,
                }
            } else if t == "tool_use"@ {
                match (
                    need::<CallId>(j, "call_id"@),
                    need::<String>(j, "name"@),
                    need::<Json>(j, "input"@),
                ) {
                    (Some(call_id), Some(name), Some(input)) => Some(
                        ContentView::ToolUse { call_id, name, input },
                    ),
                    _ => None,
                }
            } else if t == "image"@ {
                match (
                    need::<String>(j, "mime"@),
                    need::<String>(j, "data_base64"@),
                ) {
                    (Some(mime), Some(data_base64)) => Some(
                        ContentView::Image { mime, data_base64 },
                    ),
                    _ => None,
                }
            } else {
                None
            },
        }
    }

    fn to_json(&self) -> (r: Json) {
        let mut m = Members::new();
        match self {
            Content::Text { text } => {
                m.put_text("type", "text");
                m.put("text", text.to_json());
            },
            Content::Thinking { text, signature } => {
                m.put_text("type", "thinking");
                m.put("text", text.to_json());
                m.put_some::<String>("signature", signature);
            },
            Content::ToolUse { call_id, name, input } => {
                m.put_text("type", "tool_use");
                m.put("call_id", call_id.to_json());
                m.put("name", name.to_json());
                m.put("input", input.to_json());
            },
            Content::Image { mime, data_base64 } => {
                m.put_text("type", "image");
                m.put("mime", mime.to_json());
                m.put("data_base64", data_base64.to_json());
            },
        }
        m.done()
    }

    fn from_json(j: &Json) -> (r: Option<Self>) {
        let t = match take_needed::<String>(j, "type") {
            Some(t) => t,
            None => return None,
        };
        if same(t.as_str(), "text") {
            match take_needed::<String>(j, "text") {
                Some(text) => Some(Content::Text { text }),
                None => None,
            }
        } else if same(t.as_str(), "thinking") {
            match (
                take_needed::<String>(j, "text"),
                take_maybe::<String>(j, "signature"),
            ) {
                (Some(text), Some(signature)) => Some(
                    Content::Thinking { text, signature },
                ),
                _ => None,
            }
        } else if same(t.as_str(), "tool_use") {
            match (
                take_needed::<CallId>(j, "call_id"),
                take_needed::<String>(j, "name"),
                take_needed::<Json>(j, "input"),
            ) {
                (Some(call_id), Some(name), Some(input)) => Some(
                    Content::ToolUse { call_id, name, input },
                ),
                _ => None,
            }
        } else if same(t.as_str(), "image") {
            match (
                take_needed::<String>(j, "mime"),
                take_needed::<String>(j, "data_base64"),
            ) {
                (Some(mime), Some(data_base64)) => Some(
                    Content::Image { mime, data_base64 },
                ),
                _ => None,
            }
        } else {
            None
        }
    }

    open spec fn faithful(v: ContentView) -> bool {
        true
    }

    proof fn round_trip(v: ContentView) {
        reveal_strlit("text");
        reveal_strlit("thinking");
        reveal_strlit("tool_use");
        reveal_strlit("image");
        assert("text"@.len() == 4 && "thinking"@.len() == 8 && "tool_use"@.len() == 8 && "image"@.len() == 5);
        assert("thinking"@[1] != "tool_use"@[1]);
        match v {
            ContentView::Text { text } => {
                reveal_strlit("type");
                reveal_strlit("text");
                assert("type"@[1] != "text"@[1]);
                String::round_trip(text);
            },
            ContentView::Thinking { text, signature } => {
                reveal_strlit("type");
                reveal_strlit("text");
                reveal_strlit("signature");
                assert("type"@.len() == 4 && "text"@.len() == 4 && "signature"@.len() == 9);
                assert("type"@[1] != "text"@[1]);
                String::round_trip(text);
                if let Some(x) = signature {
                    String::round_trip(x);
                }
            },
            ContentView::ToolUse { call_id, name, input } => {
                reveal_strlit("type");
                reveal_strlit("call_id");
                reveal_strlit("name");
                reveal_strlit("input");
                assert("type"@.len() == 4 && "call_id"@.len() == 7 && "name"@.len() == 4 && "input"@.len() == 5);
                assert("type"@[0] != "name"@[0]);
                CallId::round_trip(call_id);
                String::round_trip(name);
                Json::round_trip(input);
            },
            ContentView::Image { mime, data_base64 } => {
                reveal_strlit("type");
                reveal_strlit("mime");
                reveal_strlit("data_base64");
                assert("type"@.len() == 4 && "mime"@.len() == 4 && "data_base64"@.len() == 11);
                assert("type"@[0] != "mime"@[0]);
                String::round_trip(mime);
                String::round_trip(data_base64);
            },
        }
    }
}

impl Content {
    /// A block of text.
    pub fn text(s: &str) -> (r: Self)
        ensures
            r.deep_view() == (ContentView::Text { text: s@ }),
    {
        Content::Text { text: s.to_owned() }
    }
}

/// Why the model, or the turn, stopped.
#[derive(Debug, Clone, Copy, PartialEq, Eq, Structural)]
pub enum StopReason {
    EndTurn,
    MaxTokens,
    ToolUse,
    Refused,
    Interrupted,
    Error,
    /// The turn reached its bound on steps.
    MaxSteps,
}

impl DeepView for StopReason {
    type V = StopReason;

    open spec fn deep_view(&self) -> StopReason {
        *self
    }
}

impl Dup for StopReason {
    fn dup(&self) -> (r: Self) {
        *self
    }
}

impl StopReason {
    /// The name on the wire.
    pub open spec fn name(self) -> Seq<char> {
        match self {
            StopReason::EndTurn => "end_turn"@,
            StopReason::MaxTokens => "max_tokens"@,
            StopReason::ToolUse => "tool_use"@,
            StopReason::Refused => "refused"@,
            StopReason::Interrupted => "interrupted"@,
            StopReason::Error => "error"@,
            StopReason::MaxSteps => "max_steps"@,
        }
    }

    /// The value with a given name.
    pub open spec fn named(s: Seq<char>) -> Option<StopReason> {
        if s == "end_turn"@ {
            Some(StopReason::EndTurn)
        } else if s == "max_tokens"@ {
            Some(StopReason::MaxTokens)
        } else if s == "tool_use"@ {
            Some(StopReason::ToolUse)
        } else if s == "refused"@ {
            Some(StopReason::Refused)
        } else if s == "interrupted"@ {
            Some(StopReason::Interrupted)
        } else if s == "error"@ {
            Some(StopReason::Error)
        } else if s == "max_steps"@ {
            Some(StopReason::MaxSteps)
        } else {
            None
        }
    }

    /// The name on the wire.
    pub fn as_str(&self) -> (r: &'static str)
        ensures
            r@ == self.name(),
    {
        match self {
            StopReason::EndTurn => "end_turn",
            StopReason::MaxTokens => "max_tokens",
            StopReason::ToolUse => "tool_use",
            StopReason::Refused => "refused",
            StopReason::Interrupted => "interrupted",
            StopReason::Error => "error",
            StopReason::MaxSteps => "max_steps",
        }
    }

    /// The value with a given name.
    pub fn from_name(s: &str) -> (r: Option<StopReason>)
        ensures
            r == StopReason::named(s@),
    {
        if same(s, "end_turn") {
            Some(StopReason::EndTurn)
        } else if same(s, "max_tokens") {
            Some(StopReason::MaxTokens)
        } else if same(s, "tool_use") {
            Some(StopReason::ToolUse)
        } else if same(s, "refused") {
            Some(StopReason::Refused)
        } else if same(s, "interrupted") {
            Some(StopReason::Interrupted)
        } else if same(s, "error") {
            Some(StopReason::Error)
        } else if same(s, "max_steps") {
            Some(StopReason::MaxSteps)
        } else {
            None
        }
    }
}

impl Wire for StopReason {
    open spec fn json(v: StopReason) -> JsonView {
        JsonView::Text(v.name())
    }

    open spec fn read(j: JsonView) -> Option<StopReason> {
        match text_in(Some(j)) {
            Some(s) => StopReason::named(s),
            None => None,
        }
    }

    fn to_json(&self) -> (r: Json) {
        Json::text(self.as_str())
    }

    fn from_json(j: &Json) -> (r: Option<Self>) {
        match j.as_str() {
            Some(s) => StopReason::from_name(s),
            None => None,
        }
    }

    open spec fn faithful(v: StopReason) -> bool {
        true
    }

    proof fn round_trip(v: StopReason) {
        reveal_strlit("end_turn");
        reveal_strlit("max_tokens");
        reveal_strlit("tool_use");
        reveal_strlit("refused");
        reveal_strlit("interrupted");
        reveal_strlit("error");
        reveal_strlit("max_steps");
        assert("end_turn"@.len() == 8 && "max_tokens"@.len() == 10 && "tool_use"@.len() == 8 && "refused"@.len() == 7 && "interrupted"@.len() == 11 && "error"@.len() == 5 && "max_steps"@.len() == 9);
        assert("end_turn"@[0] != "tool_use"@[0]);
    }
}

/// The model of `TokenUsage`.
pub struct TokenUsageView {
    pub input: u64,
    pub cached_input: u64,
    pub output: u64,
    pub reasoning: u64,
}

/// Tokens used.
#[derive(Debug, Clone, Copy, PartialEq, Eq, Structural)]
pub struct TokenUsage {
    pub input: u64,
    pub cached_input: u64,
    pub output: u64,
    pub reasoning: u64,
}

impl DeepView for TokenUsage {
    type V = TokenUsageView;

    open spec fn deep_view(&self) -> TokenUsageView {
        TokenUsageView {
            input: self.input.deep_view(),
            cached_input: self.cached_input.deep_view(),
            output: self.output.deep_view(),
            reasoning: self.reasoning.deep_view(),
        }
    }
}

impl Dup for TokenUsage {
    fn dup(&self) -> (r: Self) {
        TokenUsage {
            input: self.input.dup(),
            cached_input: self.cached_input.dup(),
            output: self.output.dup(),
            reasoning: self.reasoning.dup(),
        }
    }
}

impl Wire for TokenUsage {
    open spec fn json(v: TokenUsageView) -> JsonView {
        JsonView::Object(
            Map::empty().insert("input"@, u64::json(v.input)).insert("cached_input"@, u64::json(v.cached_input)).insert("output"@, u64::json(v.output)).insert("reasoning"@, u64::json(v.reasoning)),
        )
    }

    open spec fn read(j: JsonView) -> Option<TokenUsageView> {
        match (
            need::<u64>(j, "input"@),
            need::<u64>(j, "cached_input"@),
            need::<u64>(j, "output"@),
            need::<u64>(j, "reasoning"@),
        ) {
            (Some(input), Some(cached_input), Some(output), Some(reasoning)) => Some(
                TokenUsageView { input, cached_input, output, reasoning },
            ),
            _ => None,
        }
    }

    fn to_json(&self) -> (r: Json) {
        let mut m = Members::new();
        m.put("input", self.input.to_json());
        m.put("cached_input", self.cached_input.to_json());
        m.put("output", self.output.to_json());
        m.put("reasoning", self.reasoning.to_json());
        m.done()
    }

    fn from_json(j: &Json) -> (r: Option<Self>) {
        match (
            take_needed::<u64>(j, "input"),
            take_needed::<u64>(j, "cached_input"),
            take_needed::<u64>(j, "output"),
            take_needed::<u64>(j, "reasoning"),
        ) {
            (Some(input), Some(cached_input), Some(output), Some(reasoning)) => Some(
                TokenUsage { input, cached_input, output, reasoning },
            ),
            _ => None,
        }
    }

    open spec fn faithful(v: TokenUsageView) -> bool {
        true
    }

    proof fn round_trip(v: TokenUsageView) {
        reveal_strlit("input");
        reveal_strlit("cached_input");
        reveal_strlit("output");
        reveal_strlit("reasoning");
        assert("input"@.len() == 5 && "cached_input"@.len() == 12 && "output"@.len() == 6 && "reasoning"@.len() == 9);
        u64::round_trip(v.input);
        u64::round_trip(v.cached_input);
        u64::round_trip(v.output);
        u64::round_trip(v.reasoning);
    }
}

impl TokenUsage {
    /// Input and output together.
    pub fn total(&self) -> (r: u64)
        requires
            self.input + self.output <= u64::MAX,
        ensures
            r == self.input + self.output,
    {
        self.input + self.output
    }

    /// Nothing used.
    pub fn zero() -> (r: Self)
        ensures
            r == (TokenUsage { input: 0, cached_input: 0, output: 0, reasoning: 0 }),
    {
        TokenUsage { input: 0, cached_input: 0, output: 0, reasoning: 0 }
    }
}

impl Default for TokenUsage {
    fn default() -> (r: Self)
        ensures
            r == (TokenUsage { input: 0, cached_input: 0, output: 0, reasoning: 0 }),
    {
        TokenUsage::zero()
    }
}

/// How far a plan item has come.
#[derive(Debug, Clone, Copy, PartialEq, Eq, Structural)]
pub enum PlanItemStatus {
    Pending,
    InProgress,
    Completed,
}

impl DeepView for PlanItemStatus {
    type V = PlanItemStatus;

    open spec fn deep_view(&self) -> PlanItemStatus {
        *self
    }
}

impl Dup for PlanItemStatus {
    fn dup(&self) -> (r: Self) {
        *self
    }
}

impl PlanItemStatus {
    /// The name on the wire.
    pub open spec fn name(self) -> Seq<char> {
        match self {
            PlanItemStatus::Pending => "pending"@,
            PlanItemStatus::InProgress => "in_progress"@,
            PlanItemStatus::Completed => "completed"@,
        }
    }

    /// The value with a given name.
    pub open spec fn named(s: Seq<char>) -> Option<PlanItemStatus> {
        if s == "pending"@ {
            Some(PlanItemStatus::Pending)
        } else if s == "in_progress"@ {
            Some(PlanItemStatus::InProgress)
        } else if s == "completed"@ {
            Some(PlanItemStatus::Completed)
        } else {
            None
        }
    }

    /// The name on the wire.
    pub fn as_str(&self) -> (r: &'static str)
        ensures
            r@ == self.name(),
    {
        match self {
            PlanItemStatus::Pending => "pending",
            PlanItemStatus::InProgress => "in_progress",
            PlanItemStatus::Completed => "completed",
        }
    }

    /// The value with a given name.
    pub fn from_name(s: &str) -> (r: Option<PlanItemStatus>)
        ensures
            r == PlanItemStatus::named(s@),
    {
        if same(s, "pending") {
            Some(PlanItemStatus::Pending)
        } else if same(s, "in_progress") {
            Some(PlanItemStatus::InProgress)
        } else if same(s, "completed") {
            Some(PlanItemStatus::Completed)
        } else {
            None
        }
    }
}

impl Wire for PlanItemStatus {
    open spec fn json(v: PlanItemStatus) -> JsonView {
        JsonView::Text(v.name())
    }

    open spec fn read(j: JsonView) -> Option<PlanItemStatus> {
        match text_in(Some(j)) {
            Some(s) => PlanItemStatus::named(s),
            None => None,
        }
    }

    fn to_json(&self) -> (r: Json) {
        Json::text(self.as_str())
    }

    fn from_json(j: &Json) -> (r: Option<Self>) {
        match j.as_str() {
            Some(s) => PlanItemStatus::from_name(s),
            None => None,
        }
    }

    open spec fn faithful(v: PlanItemStatus) -> bool {
        true
    }

    proof fn round_trip(v: PlanItemStatus) {
        reveal_strlit("pending");
        reveal_strlit("in_progress");
        reveal_strlit("completed");
        assert("pending"@.len() == 7 && "in_progress"@.len() == 11 && "completed"@.len() == 9);
    }
}

/// The model of `PlanItem`.
pub struct PlanItemView {
    pub content: Seq<char>,
    pub status: PlanItemStatus,
}

/// An item of a plan.
#[derive(Debug, PartialEq)]
pub struct PlanItem {
    pub content: String,
    pub status: PlanItemStatus,
}

impl DeepView for PlanItem {
    type V = PlanItemView;

    open spec fn deep_view(&self) -> PlanItemView {
        PlanItemView {
            content: self.content.deep_view(),
            status: self.status.deep_view(),
        }
    }
}

impl Dup for PlanItem {
    fn dup(&self) -> (r: Self) {
        PlanItem {
            content: self.content.dup(),
            status: self.status.dup(),
        }
    }
}

impl Clone for PlanItem {
    fn clone(&self) -> (r: Self)
        ensures
            r.deep_view() == self.deep_view(),
    {
        self.dup()
    }
}

impl Wire for PlanItem {
    open spec fn json(v: PlanItemView) -> JsonView {
        JsonView::Object(
            Map::empty().insert("content"@, String::json(v.content)).insert("status"@, PlanItemStatus::json(v.status)),
        )
    }

    open spec fn read(j: JsonView) -> Option<PlanItemView> {
        match (
            need::<String>(j, "content"@),
            need::<PlanItemStatus>(j, "status"@),
        ) {
            (Some(content), Some(status)) => Some(
                PlanItemView { content, status },
            ),
            _ => None,
        }
    }

    fn to_json(&self) -> (r: Json) {
        let mut m = Members::new();
        m.put("content", self.content.to_json());
        m.put("status", self.status.to_json());
        m.done()
    }

    fn from_json(j: &Json) -> (r: Option<Self>) {
        match (
            take_needed::<String>(j, "content"),
            take_needed::<PlanItemStatus>(j, "status"),
        ) {
            (Some(content), Some(status)) => Some(
                PlanItem { content, status },
            ),
            _ => None,
        }
    }

    open spec fn faithful(v: PlanItemView) -> bool {
        true
    }

    proof fn round_trip(v: PlanItemView) {
        reveal_strlit("content");
        reveal_strlit("status");
        assert("content"@.len() == 7 && "status"@.len() == 6);
        String::round_trip(v.content);
        PlanItemStatus::round_trip(v.status);
    }
}

} // verus!
