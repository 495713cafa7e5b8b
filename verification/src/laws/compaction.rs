//! How long conversations are, and what stays of them.
use vstd::prelude::*;

use crate::compact::all_bytes;
use crate::compact::all_tokens;
use crate::compact::at_most;
use crate::compact::block_text;
use crate::compact::blocks_of;
use crate::compact::blocks_text;
use crate::compact::bytes_of;
use crate::compact::compacted;
use crate::compact::conversation;
use crate::compact::length_of;
use crate::compact::summarised;
use crate::compact::summary_request;
use crate::compact::text_in_stream;
use crate::compact::token_count;
use crate::compact::tokens_of;
use crate::json::JsonView;
use crate::json::json_text;
use crate::model::ModelContentView;
use crate::model::ModelMessageView;
use crate::model::ModelStreamEventView;
use crate::text::byte_len;

verus! {

/// Whether every text among blocks can be counted.
pub open spec fn texts_count(s: Seq<ModelContentView>) -> bool {
    forall|i: int| 0 <= i < s.len() ==> (#[trigger] s[i] matches ModelContentView::Text(t) ==> token_count(t) is Some)
}

/// Whether every text of messages can be counted, whoever they are from.
pub open spec fn all_count(s: Seq<ModelMessageView>) -> bool {
    forall|i: int|
        0 <= i < s.len() ==> match #[trigger] s[i] {
            ModelMessageView::User { content } => texts_count(content),
            ModelMessageView::Assistant { content } => texts_count(content),
            ModelMessageView::ToolResult { content, .. } => texts_count(content),
        }
}

/// Every message counts, whoever it is from: one more text of `n` tokens makes a
/// conversation longer by exactly `n`, be it the user's, the model's or a tool's. A
/// conversation without messages has no length.
pub proof fn law_every_message_counts(
    s: Seq<ModelMessageView>,
    t: Seq<char>,
    n: nat,
    call_id: Seq<char>,
    is_error: bool,
)
    requires
        all_count(s),
        token_count(t) == Some(n),
        length_of(s) + n <= u64::MAX,
    ensures
        length_of(Seq::empty()) == 0,
        length_of(s.push(ModelMessageView::User { content: seq![ModelContentView::Text(t)] }))
            == length_of(s) + n,
        length_of(s.push(ModelMessageView::Assistant { content: seq![ModelContentView::Text(t)] }))
            == length_of(s) + n,
        length_of(
            s.push(
                ModelMessageView::ToolResult {
                    call_id,
                    content: seq![ModelContentView::Text(t)],
                    is_error,
                },
            ),
        ) == length_of(s) + n,
{
    lemma_all_counted(s);
    let c = seq![ModelContentView::Text(t)];
    assert(c.drop_last() =~= Seq::<ModelContentView>::empty());
    assert(tokens_of(c.drop_last()) == Some(0nat));
    assert(c.last() == ModelContentView::Text(t));
    assert(tokens_of(c) == Some(n));
    lemma_one_more(s, ModelMessageView::User { content: c });
    lemma_one_more(s, ModelMessageView::Assistant { content: c });
    lemma_one_more(s, ModelMessageView::ToolResult { call_id, content: c, is_error });
}

/// Within a message every text counts, and nothing else does.
pub proof fn law_only_texts_count(
    s: Seq<ModelMessageView>,
    content: Seq<ModelContentView>,
    t: Seq<char>,
    n: nat,
    other: ModelContentView,
    call_id: Seq<char>,
    is_error: bool,
)
    requires
        all_count(s),
        texts_count(content),
        token_count(t) == Some(n),
        !(other is Text),
        length_of(s.push(ModelMessageView::User { content })) + n <= u64::MAX,
    ensures
        ({
            let before = length_of(s.push(ModelMessageView::User { content }));
            let more = content.push(ModelContentView::Text(t));
            let mixed = content.push(other);
            &&& length_of(s.push(ModelMessageView::Assistant { content })) == before
            &&& length_of(s.push(ModelMessageView::ToolResult { call_id, content, is_error })) == before
            &&& length_of(s.push(ModelMessageView::User { content: more })) == before + n
            &&& length_of(s.push(ModelMessageView::Assistant { content: more })) == before + n
            &&& length_of(s.push(ModelMessageView::ToolResult { call_id, content: more, is_error }))
                == before + n
            &&& length_of(s.push(ModelMessageView::User { content: mixed })) == before
            &&& length_of(s.push(ModelMessageView::Assistant { content: mixed })) == before
            &&& length_of(s.push(ModelMessageView::ToolResult { call_id, content: mixed, is_error }))
                == before
        }),
{
    let more = content.push(ModelContentView::Text(t));
    let mixed = content.push(other);
    lemma_all_counted(s);
    lemma_counted(content);
    assert(more.drop_last() =~= content);
    assert(mixed.drop_last() =~= content);
    lemma_one_more(s, ModelMessageView::User { content });
    lemma_one_more(s, ModelMessageView::Assistant { content });
    lemma_one_more(s, ModelMessageView::ToolResult { call_id, content, is_error });
    lemma_one_more(s, ModelMessageView::User { content: more });
    lemma_one_more(s, ModelMessageView::Assistant { content: more });
    lemma_one_more(s, ModelMessageView::ToolResult { call_id, content: more, is_error });
    lemma_one_more(s, ModelMessageView::User { content: mixed });
    lemma_one_more(s, ModelMessageView::Assistant { content: mixed });
    lemma_one_more(s, ModelMessageView::ToolResult { call_id, content: mixed, is_error });
}

/// Where some text cannot be counted, four bytes stand for a token: the length is a
/// quarter of the bytes, and each further block adds its own, whoever the message is
/// from.
pub proof fn law_bytes_stand_in(
    s: Seq<ModelMessageView>,
    odd: Seq<char>,
    c: ModelContentView,
    call_id: Seq<char>,
    is_error: bool,
)
    requires
        token_count(odd) is None,
        s.len() > 0,
        s[0] == (ModelMessageView::User { content: seq![ModelContentView::Text(odd)] }),
    ensures
        ({
            let size = match c {
                ModelContentView::Text(t) => byte_len(t),
                ModelContentView::Thinking { text, .. } => byte_len(text),
                ModelContentView::ToolUse { input, .. } => byte_len(json_text(input)),
                ModelContentView::Image { data_base64, .. } => byte_len(data_base64),
            };
            &&& byte_len(odd) <= u64::MAX ==> length_of(seq![s[0]]) == byte_len(odd) / 4
            &&& length_of(s) == at_most(all_bytes(s)) / 4
            &&& all_bytes(s.push(ModelMessageView::User { content: seq![c] })) == all_bytes(s) + size
            &&& all_bytes(s.push(ModelMessageView::Assistant { content: seq![c] })) == all_bytes(s)
                + size
            &&& all_bytes(s.push(ModelMessageView::ToolResult { call_id, content: seq![c], is_error }))
                == all_bytes(s) + size
        }),
{
    let o = seq![ModelContentView::Text(odd)];
    assert(o.drop_last() =~= Seq::<ModelContentView>::empty());
    assert(o.last() == ModelContentView::Text(odd));
    assert(tokens_of(o) is None);
    lemma_uncounted(s);
    let first = seq![s[0]];
    lemma_uncounted(first);
    assert(first.drop_last() =~= Seq::<ModelMessageView>::empty());
    assert(all_bytes(first.drop_last()) == 0);
    assert(bytes_of(o.drop_last()) == 0);
    assert(bytes_of(o) == byte_len(odd));
    assert(all_bytes(first) == byte_len(odd));
    let b = seq![c];
    assert(b.drop_last() =~= Seq::<ModelContentView>::empty());
    assert(bytes_of(b.drop_last()) == 0);
    assert(b.last() == c);
    let m1 = ModelMessageView::User { content: b };
    let m2 = ModelMessageView::Assistant { content: b };
    let m3 = ModelMessageView::ToolResult { call_id, content: b, is_error };
    assert(s.push(m1).drop_last() =~= s && s.push(m1).last() == m1);
    assert(s.push(m2).drop_last() =~= s && s.push(m2).last() == m2);
    assert(s.push(m3).drop_last() =~= s && s.push(m3).last() == m3);
}

/// A conversation is written down message by message, each on a line that says who
/// spoke, and within a message block by block. Texts stand as they are, thoughts,
/// calls and images are marked as such.
pub proof fn law_conversations_are_written_down(
    s: Seq<ModelMessageView>,
    t: Seq<char>,
    signature: Option<Seq<char>>,
    call_id: Seq<char>,
    name: Seq<char>,
    input: JsonView,
    is_error: bool,
    mime: Seq<char>,
)
    ensures
        conversation(Seq::empty()) == Seq::<char>::empty(),
        conversation(s.push(ModelMessageView::User { content: seq![ModelContentView::Text(t)] }))
            == conversation(s) + "用户: "@ + t + " "@ + "\n"@,
        conversation(s.push(ModelMessageView::Assistant { content: seq![ModelContentView::Text(t)] }))
            == conversation(s) + "助手: "@ + t + " "@ + "\n"@,
        conversation(
            s.push(
                ModelMessageView::ToolResult {
                    call_id,
                    content: seq![ModelContentView::Text(t)],
                    is_error,
                },
            ),
        ) == conversation(s) + "工具结果: "@ + t + " "@ + "\n"@,
        conversation(
            s.push(
                ModelMessageView::Assistant {
                    content: seq![
                        ModelContentView::Thinking { text: t, signature },
                        ModelContentView::ToolUse { call_id, name, input },
                    ],
                },
            ),
        ) == conversation(s) + "助手: "@ + "[思考] "@ + t + " "@ + "[调用 "@ + name + " "@
            + json_text(input) + "]"@ + " "@ + "\n"@,
        conversation(
            s.push(
                ModelMessageView::User {
                    content: seq![ModelContentView::Image { mime, data_base64: t }],
                },
            ),
        ) == conversation(s) + "用户: "@ + "[图片]"@ + " "@ + "\n"@,
{
    let none = Seq::<ModelContentView>::empty();
    assert(blocks_text(none) == Seq::<char>::empty());
    let a = seq![ModelContentView::Text(t)];
    lemma_one_block(a[0]);
    let m = ModelMessageView::User { content: a };
    assert(a =~= seq![a[0]]);
    assert(s.push(m).drop_last() =~= s);
    assert(conversation(s.push(m)) =~= conversation(s) + "用户: "@ + t + " "@ + "\n"@);
    let m = ModelMessageView::Assistant { content: a };
    assert(s.push(m).drop_last() =~= s);
    assert(conversation(s.push(m)) =~= conversation(s) + "助手: "@ + t + " "@ + "\n"@);
    let m = ModelMessageView::ToolResult { call_id, content: a, is_error };
    assert(s.push(m).drop_last() =~= s);
    assert(conversation(s.push(m)) =~= conversation(s) + "工具结果: "@ + t + " "@ + "\n"@);
    let b = seq![
        ModelContentView::Thinking { text: t, signature },
        ModelContentView::ToolUse { call_id, name, input },
    ];
    lemma_one_block(b[0]);
    assert(b.drop_last() =~= seq![b[0]]);
    let m = ModelMessageView::Assistant { content: b };
    assert(s.push(m).drop_last() =~= s);
    assert(conversation(s.push(m)) =~= conversation(s) + "助手: "@ + "[思考] "@ + t + " "@
        + "[调用 "@ + name + " "@ + json_text(input) + "]"@ + " "@ + "\n"@);
    let c = seq![ModelContentView::Image { mime, data_base64: t }];
    lemma_one_block(c[0]);
    assert(c =~= seq![c[0]]);
    let m = ModelMessageView::User { content: c };
    assert(s.push(m).drop_last() =~= s);
    assert(conversation(s.push(m)) =~= conversation(s) + "用户: "@ + "[图片]"@ + " "@ + "\n"@);
}

/// A summary is asked of the given model by one message of the user, which is the
/// conversation written down; no tools are offered, and the answer is short.
pub proof fn law_summaries_are_asked_for(model: Seq<char>, s: Seq<ModelMessageView>)
    ensures
        ({
            let r = summary_request(model, s);
            &&& r.model == model
            &&& r.messages == seq![
                ModelMessageView::User { content: seq![ModelContentView::Text(conversation(s))] },
            ]
            &&& r.tools.len() == 0 && r.reasoning is None && r.temperature is None
            &&& r.max_output_tokens == 1024
            &&& r.system.len() == 1 && r.system[0].cache_breakpoint is None
            &&& r.metadata.session_id is None && r.metadata.turn_id is None
        }),
{
}

/// A long conversation becomes the summary, as words of the model, followed by the
/// last messages; one that is no longer than what is kept stays as it is.
pub proof fn law_summary_stands_for_the_rest(
    old: Seq<ModelMessageView>,
    last: Seq<ModelMessageView>,
    summary: Seq<char>,
)
    ensures
        old.len() > 0 ==> compacted(old + last, last.len(), summary) == seq![
            ModelMessageView::Assistant { content: seq![ModelContentView::Text(summary)] },
        ] + last,
        compacted(last, last.len(), summary) == last,
        compacted(last, last.len() + old.len(), summary) == last,
        summarised((old + last).len(), last.len()) == old.len(),
{
    assert((old + last).skip(old.len() as int) =~= last);
}

/// The summary is the text of the stream up to its end, in order, and nothing else.
pub proof fn law_stream_text_is_taken(a: Seq<ModelStreamEventView>, b: Seq<ModelStreamEventView>, t: Seq<char>, ev: ModelStreamEventView)
    requires
        forall|i: int| 0 <= i < a.len() ==> !(#[trigger] a[i] is MessageEnd),
    ensures
        text_in_stream(Seq::empty()) == Seq::<char>::empty(),
        text_in_stream(a + b) == text_in_stream(a) + text_in_stream(b),
        text_in_stream(seq![ModelStreamEventView::TextDelta(t)] + b) == t + text_in_stream(b),
        ev is MessageEnd ==> text_in_stream(seq![ev] + b) == Seq::<char>::empty(),
        !(ev is MessageEnd) && !(ev is TextDelta) ==> text_in_stream(seq![ev] + b) == text_in_stream(b),
    decreases a.len(),
{
    let td = ModelStreamEventView::TextDelta(t);
    assert((seq![td] + b).drop_first() =~= b);
    assert((seq![ev] + b).drop_first() =~= b);
    if a.len() == 0 {
        assert(a + b =~= b);
        assert(text_in_stream(a) + text_in_stream(b) =~= text_in_stream(b));
    } else {
        let r = a.drop_first();
        assert forall|i: int| 0 <= i < r.len() implies !(#[trigger] r[i] is MessageEnd) by {
            assert(r[i] == a[i + 1]);
        }
        law_stream_text_is_taken(r, b, t, ev);
        assert((a + b).drop_first() =~= r + b);
        assert((a + b)[0] == a[0]);
        assert(!(a[0] is MessageEnd));
        assert(text_in_stream(a + b) =~= text_in_stream(a) + text_in_stream(b));
    }
}

// ---- lemmas ----

proof fn lemma_one_block(c: ModelContentView)
    ensures
        blocks_text(seq![c]) == block_text(c) + " "@,
{
    let s = seq![c];
    assert(s.drop_last() =~= Seq::<ModelContentView>::empty());
    assert(blocks_text(s.drop_last()) == Seq::<char>::empty());
    assert(s.last() == c);
    assert(blocks_text(s) =~= block_text(c) + " "@);
}

proof fn lemma_one_more(s: Seq<ModelMessageView>, m: ModelMessageView)
    ensures
        all_tokens(s.push(m)) == match (all_tokens(s), tokens_of(blocks_of(m))) {
            (Some(a), Some(b)) => Some(a + b),
            _ => None,
        },
{
    assert(s.push(m).drop_last() =~= s);
    assert(s.push(m).last() == m);
}

proof fn lemma_counted(s: Seq<ModelContentView>)
    requires
        texts_count(s),
    ensures
        tokens_of(s) is Some,
    decreases s.len(),
{
    if s.len() > 0 {
        let t = s.drop_last();
        assert forall|i: int| 0 <= i < t.len() implies (#[trigger] t[i] matches ModelContentView::Text(x) ==> token_count(x) is Some) by {
            assert(t[i] == s[i]);
        }
        lemma_counted(t);
        assert(s[s.len() - 1] == s.last());
    }
}

proof fn lemma_all_counted(s: Seq<ModelMessageView>)
    requires
        all_count(s),
    ensures
        all_tokens(s) is Some,
    decreases s.len(),
{
    if s.len() > 0 {
        let t = s.drop_last();
        assert forall|i: int| 0 <= i < t.len() implies match #[trigger] t[i] {
            ModelMessageView::User { content } => texts_count(content),
            ModelMessageView::Assistant { content } => texts_count(content),
            ModelMessageView::ToolResult { content, .. } => texts_count(content),
        } by {
            assert(t[i] == s[i]);
        }
        lemma_all_counted(t);
        assert(s[s.len() - 1] == s.last());
        match s.last() {
            ModelMessageView::User { content } => lemma_counted(content),
            ModelMessageView::Assistant { content } => lemma_counted(content),
            ModelMessageView::ToolResult { content, .. } => lemma_counted(content),
        }
    }
}

proof fn lemma_uncounted(s: Seq<ModelMessageView>)
    requires
        s.len() > 0,
        tokens_of(blocks_of(s[0])) is None,
    ensures
        all_tokens(s) is None,
    decreases s.len(),
{
    if s.len() > 1 {
        assert(s.drop_last()[0] == s[0]);
        lemma_uncounted(s.drop_last());
    }
}

} // verus!
