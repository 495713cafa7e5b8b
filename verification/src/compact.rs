//! Making a long conversation short: how long it is, what the model is asked to
//! summarise, and what takes the place of what was summarised.
use vstd::prelude::*;
use vstd::string::*;

use crate::content::Content;
use crate::content::ContentView;
use crate::dup::Dup;
use crate::json::json_text;
use crate::json::print;
use crate::log::LogEvent;
use crate::log::LogEventView;
use crate::model::ModelContent;
use crate::model::ModelContentView;
use crate::model::ModelMessage;
use crate::model::ModelMessageView;
use crate::model::ModelRequest;
use crate::model::ModelRequestView;
use crate::model::ModelStreamEvent;
use crate::model::ModelStreamEventView;
use crate::model::RequestMeta;
use crate::model::RequestMetaView;
use crate::model::SystemBlock;
use crate::model::SystemBlockView;
use crate::model::ToolSpec;
use crate::model::ToolSpecView;
use crate::text::byte_len;
use crate::text::bytes_len;

verus! {

/// How much a model takes in, where nothing else is known of it.
pub const DEFAULT_CONTEXT_WINDOW: u64 = 200_000;

/// How many messages at the end stay as they are.
pub const DEFAULT_KEEP_LAST: usize = 4;

// ---- length ----

/// How many tokens `tiktoken_rs`'s `cl100k_base` encoding makes of a text, where it
/// can encode it.
pub uninterp spec fn token_count(text: Seq<char>) -> Option<nat>;

/// `tiktoken_rs::CoreBPE::encode` of the `cl100k_base` encoding, with no special
/// token allowed: how many tokens there are. It fails where its pattern gives up on
/// the text.
#[verifier::external_body]
fn count_tokens(text: &str) -> (r: Option<usize>)
    ensures
        match r {
            Some(n) => token_count(text@) == Some(n as nat),
            None => token_count(text@) is None,
        },
{
    let none = std::collections::HashSet::new();
    tiktoken_rs::cl100k_base_singleton().encode(text, &none).ok().map(|t| t.0.len())
}

/// The blocks of a message.
pub open spec fn blocks_of(m: ModelMessageView) -> Seq<ModelContentView> {
    match m {
        ModelMessageView::User { content } => content,
        ModelMessageView::Assistant { content } => content,
        ModelMessageView::ToolResult { content, .. } => content,
    }
}

fn blocks(m: &ModelMessage) -> (r: &Vec<ModelContent>)
    ensures
        r.deep_view() == blocks_of(m.deep_view()),
{
    match m {
        ModelMessage::User { content } => content,
        ModelMessage::Assistant { content } => content,
        ModelMessage::ToolResult { content, .. } => content,
    }
}

/// The tokens of a block: of text only.
pub open spec fn block_tokens(c: ModelContentView) -> Option<nat> {
    match c {
        ModelContentView::Text(t) => token_count(t),
        _ => Some(0),
    }
}

/// The bytes of a block.
pub open spec fn block_bytes(c: ModelContentView) -> nat {
    match c {
        ModelContentView::Text(t) => byte_len(t),
        ModelContentView::Thinking { text, .. } => byte_len(text),
        ModelContentView::ToolUse { input, .. } => byte_len(json_text(input)),
        ModelContentView::Image { data_base64, .. } => byte_len(data_base64),
    }
}

/// The tokens of blocks, where all of them can be counted.
pub open spec fn tokens_of(s: Seq<ModelContentView>) -> Option<nat>
    decreases s.len(),
{
    if s.len() == 0 {
        Some(0)
    } else {
        match (tokens_of(s.drop_last()), block_tokens(s.last())) {
            (Some(a), Some(b)) => Some(a + b),
            _ => None,
        }
    }
}

/// The bytes of blocks.
pub open spec fn bytes_of(s: Seq<ModelContentView>) -> nat
    decreases s.len(),
{
    if s.len() == 0 {
        0
    } else {
        bytes_of(s.drop_last()) + block_bytes(s.last())
    }
}

/// The tokens of messages, where all of them can be counted.
pub open spec fn all_tokens(s: Seq<ModelMessageView>) -> Option<nat>
    decreases s.len(),
{
    if s.len() == 0 {
        Some(0)
    } else {
        match (all_tokens(s.drop_last()), tokens_of(blocks_of(s.last()))) {
            (Some(a), Some(b)) => Some(a + b),
            _ => None,
        }
    }
}

/// The bytes of messages.
pub open spec fn all_bytes(s: Seq<ModelMessageView>) -> nat
    decreases s.len(),
{
    if s.len() == 0 {
        0
    } else {
        all_bytes(s.drop_last()) + bytes_of(blocks_of(s.last()))
    }
}

/// A number, or the largest where it is larger.
pub open spec fn at_most(n: nat) -> u64 {
    if n <= u64::MAX {
        n as u64
    } else {
        u64::MAX
    }
}

/// How long messages are: their tokens, or a quarter of their bytes where those
/// cannot be counted.
pub open spec fn length_of(s: Seq<ModelMessageView>) -> u64 {
    match all_tokens(s) {
        Some(n) => at_most(n),
        None => at_most(all_bytes(s)) / 4,
    }
}

fn plus(a: u64, b: u64) -> (r: u64)
    ensures
        r == at_most((a + b) as nat),
{
    if b <= u64::MAX - a {
        a + b
    } else {
        u64::MAX
    }
}

fn count_message(m: &ModelMessage) -> (r: Option<u64>)
    ensures
        r == (match tokens_of(blocks_of(m.deep_view())) {
            Some(n) => Some(at_most(n)),
            None => None,
        }),
{
    let v = blocks(m);
    let ghost all = v.deep_view();
    let mut sum: u64 = 0;
    let mut i: usize = 0;
    while i < v.len()
        invariant
            i <= v@.len(),
            all == v.deep_view(),
            all == blocks_of(m.deep_view()),
            tokens_of(all.take(i as int)) is Some,
            sum == at_most(tokens_of(all.take(i as int))->0),
        decreases v@.len() - i,
    {
        assert(all.take(i + 1).drop_last() =~= all.take(i as int));
        assert(all.take(i + 1).last() == v@[i as int].deep_view());
        let n: u64 = match &v[i] {
            ModelContent::Text(t) => match count_tokens(t.as_str()) {
                Some(n) => n as u64,
                None => {
                    proof {
                        lemma_tokens_none(all, i + 1);
                    }
                    return None;
                },
            },
            _ => 0,
        };
        sum = plus(sum, n);
        i = i + 1;
    }
    assert(all.take(all.len() as int) =~= all);
    Some(sum)
}

proof fn lemma_tokens_none(s: Seq<ModelContentView>, n: int)
    requires
        0 <= n <= s.len(),
        tokens_of(s.take(n)) is None,
    ensures
        tokens_of(s) is None,
    decreases s.len() - n,
{
    if n < s.len() {
        assert(s.take(n + 1).drop_last() =~= s.take(n));
        lemma_tokens_none(s, n + 1);
    } else {
        assert(s.take(n) =~= s);
    }
}

proof fn lemma_all_tokens_none(s: Seq<ModelMessageView>, n: int)
    requires
        0 <= n <= s.len(),
        all_tokens(s.take(n)) is None,
    ensures
        all_tokens(s) is None,
    decreases s.len() - n,
{
    if n < s.len() {
        assert(s.take(n + 1).drop_last() =~= s.take(n));
        lemma_all_tokens_none(s, n + 1);
    } else {
        assert(s.take(n) =~= s);
    }
}

fn block_len(c: &ModelContent) -> (r: u64)
    ensures
        r == at_most(block_bytes(c.deep_view())),
{
    match c {
        ModelContent::Text(t) => bytes_len(t.as_str()) as u64,
        ModelContent::Thinking { text, .. } => bytes_len(text.as_str()) as u64,
        ModelContent::ToolUse { input, .. } => {
            let t = print(input);
            bytes_len(t.as_str()) as u64
        },
        ModelContent::Image { data_base64, .. } => bytes_len(data_base64.as_str()) as u64,
    }
}

fn message_len(m: &ModelMessage) -> (r: u64)
    ensures
        r == at_most(bytes_of(blocks_of(m.deep_view()))),
{
    let v = blocks(m);
    let ghost all = v.deep_view();
    let mut sum: u64 = 0;
    let mut i: usize = 0;
    while i < v.len()
        invariant
            i <= v@.len(),
            all == v.deep_view(),
            all == blocks_of(m.deep_view()),
            sum == at_most(bytes_of(all.take(i as int))),
        decreases v@.len() - i,
    {
        assert(all.take(i + 1).drop_last() =~= all.take(i as int));
        assert(all.take(i + 1).last() == v@[i as int].deep_view());
        let n: u64 = block_len(&v[i]);
        sum = plus(sum, n);
        i = i + 1;
    }
    assert(all.take(all.len() as int) =~= all);
    sum
}

/// A quarter of the messages' bytes.
fn length_by_bytes(messages: &Vec<ModelMessage>) -> (r: u64)
    ensures
        r == at_most(all_bytes(messages.deep_view())) / 4,
{
    let ghost all = messages.deep_view();
    let mut sum: u64 = 0;
    let mut i: usize = 0;
    while i < messages.len()
        invariant
            i <= messages@.len(),
            all == messages.deep_view(),
            sum == at_most(all_bytes(all.take(i as int))),
        decreases messages@.len() - i,
    {
        assert(all.take(i + 1).drop_last() =~= all.take(i as int));
        assert(all.take(i + 1).last() == messages@[i as int].deep_view());
        let n: u64 = message_len(&messages[i]);
        sum = plus(sum, n);
        i = i + 1;
    }
    assert(all.take(all.len() as int) =~= all);
    sum / 4
}

/// How long messages are, in tokens.
pub fn approx_tokens(messages: &Vec<ModelMessage>) -> (r: u64)
    ensures
        r == length_of(messages.deep_view()),
{
    let ghost all = messages.deep_view();
    let mut sum: u64 = 0;
    let mut i: usize = 0;
    while i < messages.len()
        invariant
            i <= messages@.len(),
            all == messages.deep_view(),
            all_tokens(all.take(i as int)) is Some,
            sum == at_most(all_tokens(all.take(i as int))->0),
        decreases messages@.len() - i,
    {
        assert(all.take(i + 1).drop_last() =~= all.take(i as int));
        assert(all.take(i + 1).last() == messages@[i as int].deep_view());
        match count_message(&messages[i]) {
            Some(n) => {
                sum = plus(sum, n);
            },
            None => {
                proof {
                    lemma_all_tokens_none(all, i + 1);
                }
                return length_by_bytes(messages);
            },
        }
        i = i + 1;
    }
    assert(all.take(all.len() as int) =~= all);
    sum
}

/// Whether messages are longer than a limit.
pub fn is_too_long(messages: &Vec<ModelMessage>, limit: u64) -> (r: bool)
    ensures
        r == (length_of(messages.deep_view()) > limit),
{
    approx_tokens(messages) > limit
}

// ---- text ----

/// A block as the summary's author reads it.
pub open spec fn block_text(c: ModelContentView) -> Seq<char> {
    match c {
        ModelContentView::Text(t) => t,
        ModelContentView::Thinking { text, .. } => "[思考] "@ + text,
        ModelContentView::ToolUse { name, input, .. } => "[调用 "@ + name + " "@ + json_text(input)
            + "]"@,
        ModelContentView::Image { .. } => "[图片]"@,
    }
}

/// Blocks, each with a space behind it.
pub open spec fn blocks_text(s: Seq<ModelContentView>) -> Seq<char>
    decreases s.len(),
{
    if s.len() == 0 {
        Seq::empty()
    } else {
        blocks_text(s.drop_last()) + block_text(s.last()) + " "@
    }
}

/// Who a message is from.
pub open spec fn speaker(m: ModelMessageView) -> Seq<char> {
    match m {
        ModelMessageView::User { .. } => "用户: "@,
        ModelMessageView::Assistant { .. } => "助手: "@,
        ModelMessageView::ToolResult { .. } => "工具结果: "@,
    }
}

/// Messages, one to a line.
pub open spec fn conversation(s: Seq<ModelMessageView>) -> Seq<char>
    decreases s.len(),
{
    if s.len() == 0 {
        Seq::empty()
    } else {
        conversation(s.drop_last()) + speaker(s.last()) + blocks_text(blocks_of(s.last())) + "\n"@
    }
}

fn content_text(v: &Vec<ModelContent>) -> (r: String)
    ensures
        r@ == blocks_text(v.deep_view()),
{
    let ghost all = v.deep_view();
    let mut out = String::new();
    let mut i: usize = 0;
    while i < v.len()
        invariant
            i <= v@.len(),
            all == v.deep_view(),
            out@ == blocks_text(all.take(i as int)),
        decreases v@.len() - i,
    {
        assert(all.take(i + 1).drop_last() =~= all.take(i as int));
        assert(all.take(i + 1).last() == v@[i as int].deep_view());
        let ghost before = out@;
        match &v[i] {
            ModelContent::Text(t) => {
                out.append(t.as_str());
            },
            ModelContent::Thinking { text, .. } => {
                out.append("[思考] ");
                out.append(text.as_str());
            },
            ModelContent::ToolUse { name, input, .. } => {
                let t = print(input);
                out.append("[调用 ");
                out.append(name.as_str());
                out.append(" ");
                out.append(t.as_str());
                out.append("]");
            },
            ModelContent::Image { .. } => {
                out.append("[图片]");
            },
        }
        assert(out@ =~= before + block_text(v@[i as int].deep_view()));
        out.append(" ");
        i = i + 1;
    }
    assert(all.take(all.len() as int) =~= all);
    out
}

/// Messages, one to a line.
pub fn messages_to_text(messages: &Vec<ModelMessage>) -> (r: String)
    ensures
        r@ == conversation(messages.deep_view()),
{
    let ghost all = messages.deep_view();
    let mut out = String::new();
    let mut i: usize = 0;
    while i < messages.len()
        invariant
            i <= messages@.len(),
            all == messages.deep_view(),
            out@ == conversation(all.take(i as int)),
        decreases messages@.len() - i,
    {
        assert(all.take(i + 1).drop_last() =~= all.take(i as int));
        assert(all.take(i + 1).last() == messages@[i as int].deep_view());
        match &messages[i] {
            ModelMessage::User { .. } => {
                out.append("用户: ");
            },
            ModelMessage::Assistant { .. } => {
                out.append("助手: ");
            },
            ModelMessage::ToolResult { .. } => {
                out.append("工具结果: ");
            },
        }
        let t = content_text(blocks(&messages[i]));
        out.append(t.as_str());
        out.append("\n");
        i = i + 1;
    }
    assert(all.take(all.len() as int) =~= all);
    out
}

// ---- compaction ----

/// How many messages are summarised when `keep` of them stay.
pub open spec fn summarised(len: nat, keep: nat) -> nat {
    if len <= keep {
        0
    } else {
        (len - keep) as nat
    }
}

/// A message that is one text.
pub open spec fn said(text: Seq<char>) -> ModelMessageView {
    ModelMessageView::Assistant { content: seq![ModelContentView::Text(text)] }
}

/// What the model is asked for a summary of messages.
pub open spec fn summary_request(model: Seq<char>, s: Seq<ModelMessageView>) -> ModelRequestView {
    ModelRequestView {
        model,
        system: seq![
            SystemBlockView {
                text:
                    "你是 tao 的上下文压缩器。把以下对话压缩为结构化摘要:1) 目标 2) 关键决策 3) 已做改动 4) 待办。保持简洁,保留关键事实。"@,
                cache_breakpoint: None,
            },
        ],
        messages: seq![
            ModelMessageView::User { content: seq![ModelContentView::Text(conversation(s))] },
        ],
        tools: Seq::empty(),
        reasoning: None,
        max_output_tokens: 1024,
        temperature: None,
        metadata: RequestMetaView { session_id: None, turn_id: None },
    }
}

/// What messages become once those before the last `keep` are summarised.
pub open spec fn compacted(s: Seq<ModelMessageView>, keep: nat, summary: Seq<char>) -> Seq<
    ModelMessageView,
> {
    let n = summarised(s.len(), keep);
    if n == 0 {
        s
    } else {
        seq![said(summary)] + s.skip(n as int)
    }
}

fn copy_messages(v: &Vec<ModelMessage>, from: usize, to: usize) -> (r: Vec<ModelMessage>)
    requires
        from <= to <= v@.len(),
    ensures
        r.deep_view() == v.deep_view().subrange(from as int, to as int),
{
    let mut out: Vec<ModelMessage> = Vec::new();
    let mut i: usize = from;
    while i < to
        invariant
            from <= i <= to <= v@.len(),
            out@.len() == i - from,
            forall|k: int|
                0 <= k < i - from ==> (#[trigger] out@[k]).deep_view() == v@[from + k].deep_view(),
        decreases to - i,
    {
        out.push(v[i].dup());
        i = i + 1;
    }
    assert(out.deep_view() =~= v.deep_view().subrange(from as int, to as int));
    out
}

/// Ask for a summary of all but the last `keep_last` messages. Nothing where there
/// are no more.
pub fn plan_compaction(model: &str, messages: &Vec<ModelMessage>, keep_last: usize) -> (r: Option<
    ModelRequest,
>)
    ensures
        ({
            let all = messages.deep_view();
            let n = summarised(all.len(), keep_last as nat);
            match r {
                None => n == 0,
                Some(q) => n > 0 && q.deep_view() == summary_request(model@, all.take(n as int)),
            }
        }),
{
    if messages.len() <= keep_last {
        return None;
    }
    let n: usize = messages.len() - keep_last;
    let older = copy_messages(messages, 0, n);
    assert(older.deep_view() =~= messages.deep_view().take(n as int));
    let text = messages_to_text(&older);
    let mut content: Vec<ModelContent> = Vec::new();
    content.push(ModelContent::Text(text));
    assert(content.deep_view() =~= seq![ModelContentView::Text(text@)]);
    let m = ModelMessage::User { content };
    let mut asked: Vec<ModelMessage> = Vec::new();
    asked.push(m);
    assert(asked.deep_view() =~= seq![m.deep_view()]);
    let block = SystemBlock {
        text:
            "你是 tao 的上下文压缩器。把以下对话压缩为结构化摘要:1) 目标 2) 关键决策 3) 已做改动 4) 待办。保持简洁,保留关键事实。".to_owned(),
        cache_breakpoint: None,
    };
    let mut system: Vec<SystemBlock> = Vec::new();
    system.push(block);
    assert(system.deep_view() =~= seq![block.deep_view()]);
    let tools: Vec<ToolSpec> = Vec::new();
    assert(tools.deep_view() =~= Seq::<ToolSpecView>::empty());
    Some(
        ModelRequest {
            model: model.to_owned(),
            system,
            messages: asked,
            tools,
            reasoning: None,
            max_output_tokens: 1024,
            temperature: None,
            metadata: RequestMeta { session_id: None, turn_id: None },
        },
    )
}

/// The text of what a model's stream has said.
pub open spec fn text_in_stream(s: Seq<ModelStreamEventView>) -> Seq<char>
    decreases s.len(),
{
    if s.len() == 0 {
        Seq::empty()
    } else {
        match s[0] {
            ModelStreamEventView::TextDelta(t) => t + text_in_stream(s.drop_first()),
            ModelStreamEventView::MessageEnd { .. } => Seq::empty(),
            _ => text_in_stream(s.drop_first()),
        }
    }
}

/// The summary as it comes in.
pub struct Summary {
    pub text: String,
    pub done: bool,
}

impl Summary {
    /// No summary yet.
    pub fn new() -> (r: Self)
        ensures
            r.text@ == Seq::<char>::empty(),
            !r.done,
    {
        Summary { text: String::new(), done: false }
    }

    /// Take up what the model's stream brings next: text is gathered, and the end of
    /// the message is the end.
    pub fn take(&mut self, ev: &ModelStreamEvent)
        ensures
            final(self).text@ == (match ev.deep_view() {
                ModelStreamEventView::TextDelta(t) => if old(self).done {
                    old(self).text@
                } else {
                    old(self).text@ + t
                },
                _ => old(self).text@,
            }),
            final(self).done == (old(self).done || ev.deep_view() is MessageEnd),
    {
        if self.done {
            return ;
        }
        match ev {
            ModelStreamEvent::TextDelta(t) => {
                self.text.append(t.as_str());
            },
            ModelStreamEvent::MessageEnd { .. } => {
                self.done = true;
            },
            _ => {},
        }
    }
}

/// The summary that a model's stream comes to.
pub fn summary_of_stream(events: &Vec<ModelStreamEvent>) -> (r: String)
    ensures
        r@ == text_in_stream(events.deep_view()),
{
    let ghost all = events.deep_view();
    let mut s = Summary::new();
    let mut i: usize = 0;
    assert(all.skip(0) =~= all);
    assert(s.text@ + text_in_stream(all) =~= text_in_stream(all));
    while i < events.len()
        invariant
            i <= events@.len(),
            all == events.deep_view(),
            text_in_stream(all) == (if s.done {
                s.text@
            } else {
                s.text@ + text_in_stream(all.skip(i as int))
            }),
        decreases events@.len() - i,
    {
        let ghost rest = all.skip(i as int);
        assert(rest[0] == events@[i as int].deep_view());
        assert(rest.drop_first() =~= all.skip(i + 1));
        let ghost before = s.text@;
        s.take(&events[i]);
        proof {
            if let ModelStreamEventView::TextDelta(t) = rest[0] {
                let more = text_in_stream(all.skip(i + 1));
                assert(before + (t + more) =~= (before + t) + more);
            }
            assert(before + Seq::<char>::empty() =~= before);
        }
        i = i + 1;
    }
    assert(all.skip(i as int) =~= Seq::<ModelStreamEventView>::empty());
    assert(s.text@ + Seq::<char>::empty() =~= s.text@);
    s.text
}

/// Put a summary in the place of all but the last `keep_last` messages.
pub fn compact(messages: &Vec<ModelMessage>, keep_last: usize, summary: &str) -> (r: Vec<
    ModelMessage,
>)
    ensures
        r.deep_view() == compacted(messages.deep_view(), keep_last as nat, summary@),
{
    let ghost all = messages.deep_view();
    if messages.len() <= keep_last {
        let same_again = copy_messages(messages, 0, messages.len());
        assert(same_again.deep_view() =~= all);
        return same_again;
    }
    let n: usize = messages.len() - keep_last;
    let mut content: Vec<ModelContent> = Vec::new();
    content.push(ModelContent::Text(summary.to_owned()));
    assert(content.deep_view() =~= seq![ModelContentView::Text(summary@)]);
    let mut out: Vec<ModelMessage> = Vec::new();
    out.push(ModelMessage::Assistant { content });
    let mut rest = copy_messages(messages, n, messages.len());
    assert(rest.deep_view() =~= all.skip(n as int));
    let ghost head = out.deep_view();
    let ghost tail = rest.deep_view();
    out.append(&mut rest);
    assert(out.deep_view() =~= head + tail);
    assert(head =~= seq![said(summary@)]);
    out
}

/// What is recorded of a compaction.
pub fn compaction_event(summary: &str, covers_through_seq: u64) -> (r: LogEvent)
    ensures
        r.deep_view() == (LogEventView::Compaction {
            summary: seq![ContentView::Text { text: summary@ }],
            covers_through_seq,
        }),
{
    let mut v: Vec<Content> = Vec::new();
    v.push(Content::Text { text: summary.to_owned() });
    assert(v.deep_view() =~= seq![ContentView::Text { text: summary@ }]);
    LogEvent::Compaction { summary: v, covers_through_seq }
}

// ---- laws ----

/// The last messages stay as they are, and there is one more than those at most.
pub proof fn law_last_messages_stay(s: Seq<ModelMessageView>, keep: nat, summary: Seq<char>)
    ensures
        ({
            let c = compacted(s, keep, summary);
            let kept = if s.len() <= keep {
                s.len()
            } else {
                keep
            };
            &&& c.len() <= keep + 1
            &&& c.len() <= s.len()
            &&& c.skip(c.len() - kept) == s.skip(s.len() - kept)
        }),
{
    let c = compacted(s, keep, summary);
    let kept = if s.len() <= keep {
        s.len()
    } else {
        keep
    };
    assert(c.skip(c.len() - kept) =~= s.skip(s.len() - kept));
}

/// Nothing that was said is lost: each message is either in the text that is
/// summarised or among those that stay.
pub proof fn law_nothing_is_passed_over(s: Seq<ModelMessageView>, keep: nat, summary: Seq<char>)
    ensures
        ({
            let n = summarised(s.len(), keep);
            let c = compacted(s, keep, summary);
            &&& n == 0 ==> c == s
            &&& n > 0 ==> s == s.take(n as int) + c.drop_first() && c[0] == said(summary)
        }),
{
    let n = summarised(s.len(), keep);
    let c = compacted(s, keep, summary);
    if n > 0 {
        assert(c.drop_first() =~= s.skip(n as int));
        assert(s =~= s.take(n as int) + s.skip(n as int));
    }
}

} // verus!
