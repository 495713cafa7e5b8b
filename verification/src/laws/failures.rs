//! What becomes of failures on the way to a provider, and of the waits between.
use vstd::utf8::encode_scalar;
use vstd::utf8::encode_utf8;
use vstd::prelude::*;

use crate::model::ModelErrorView;
use crate::providers::common::backoff_of;
use crate::providers::common::endpoint_of;
use crate::providers::common::resume_failure;
use crate::providers::common::status_failure;
use crate::providers::common::transport_failure;
use crate::text::byte_len;
use crate::text::decimal_of;
use crate::text::fit;
use crate::text::lemma_byte_len_split;
use crate::text::occurs;
use crate::text::width;

verus! {

/// Which failures may be tried again: too many requests and failures of the server.
/// Who is not let in, and what is too long, is told so, and nothing else is tried
/// again.
pub proof fn law_failures_by_status(code: u16, line: Seq<char>, body: Seq<char>)
    ensures
        ({
            let f = status_failure(code, line, body);
            let too_long = code == 413 || ((code == 400 || code == 422) && (occurs(
                body,
                "context_length"@,
            ) || occurs(body, "too long"@)));
            &&& f is ContextLength <==> too_long
            &&& f is Auth <==> code == 401 || code == 403
            &&& f is Retryable <==> code == 429 || 500 <= code < 600
            &&& f is Fatal <==> !too_long && code != 401 && code != 403 && code != 429 && !(500
                <= code < 600)
            &&& resume_failure(code, line, body) is Auth <==> code == 401 || code == 403
            &&& resume_failure(code, line, body) is Retryable <==> code == 429 || 500 <= code < 600
            &&& resume_failure(code, line, body) is Fatal <==> code != 401 && code != 403 && code
                != 429 && !(500 <= code < 600)
        }),
{
}

/// A failure tells the head of the answer: all of it where it takes at most two hundred
/// bytes.
pub proof fn law_failures_tell_the_answer(code: u16, line: Seq<char>, body: Seq<char>)
    requires
        byte_len(body) <= 200,
    ensures
        status_failure(401, line, body) == ModelErrorView::Auth(line + ": "@ + body),
        status_failure(429, line, body) == ModelErrorView::Retryable("429 限流: "@ + body),
        500 <= code < 600 ==> status_failure(code, line, body) == ModelErrorView::Retryable(
            decimal_of(code as nat) + ": "@ + body,
        ),
        code == 404 ==> status_failure(code, line, body) == ModelErrorView::Fatal(
            decimal_of(404) + ": "@ + body,
        ),
        status_failure(413, line, body) == ModelErrorView::ContextLength("请求体过大: "@ + body),
{
    lemma_fit_all(body, 200);
    assert(body.take(body.len() as int) =~= body);
}

/// A provider that does not answer in time, or cannot be reached, is tried again; an
/// answer that cannot be decoded breaks the stream; anything else is final.
pub proof fn law_unreachable_is_tried_again(timeout: bool, connect: bool, decode: bool, text: Seq<char>)
    ensures
        transport_failure(timeout, connect, decode, text) is Retryable <==> timeout || connect,
        transport_failure(timeout, connect, decode, text) is Stream <==> !timeout && !connect && decode,
        transport_failure(timeout, connect, decode, text) is Fatal <==> !timeout && !connect && !decode,
{
}

/// The wait starts at half a second, doubles with each failed attempt, and never
/// exceeds half a minute.
pub proof fn law_waits_double(n: int)
    ensures
        backoff_of(1) == 500,
        n >= 1 ==> backoff_of(n + 1) == if 2 * backoff_of(n) >= 30000 {
            30000
        } else {
            2 * backoff_of(n)
        },
        backoff_of(7) == 30000,
{
    reveal_with_fuel(backoff_of, 8);
}

/// An endpoint lies behind the base address, which may end with slashes.
pub proof fn law_endpoints_follow_the_base(base: Seq<char>, path: Seq<char>)
    requires
        base.len() > 0,
        base.last() != '/',
    ensures
        endpoint_of(base, path) == base + path,
        endpoint_of(base + "/"@, path) == base + path,
{
    reveal_strlit("/");
    let b = base + "/"@;
    assert(b.drop_last() =~= base);
    assert(b.last() == '/');
}

proof fn lemma_fit_all(s: Seq<char>, n: int)
    requires
        byte_len(s) <= n,
    ensures
        fit(s, n) == s.len(),
    decreases s.len(),
{
    if s.len() > 0 {
        lemma_byte_len_split(s, 1);
        let one = s.take(1);
        assert(one =~= seq![s[0]]);
        assert(s.skip(1) =~= s.drop_first());
        lemma_width(s[0]);
        lemma_fit_all(s.drop_first(), n - width(s[0]));
    }
}

/// The bytes of one character.
pub proof fn lemma_width(c: char)
    ensures
        byte_len(seq![c]) == width(c),
{
    let s = seq![c];
    assert(s.drop_first() =~= Seq::<char>::empty());
    assert(s.first() == c);
    reveal_with_fuel(encode_utf8, 2);
    assert(encode_utf8(s) =~= encode_scalar(c as u32) + encode_utf8(s.drop_first()));
}

} // verus!
