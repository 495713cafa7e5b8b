//! What the providers share: when to try again, and what an answer that is not a
//! success comes to.
use vstd::prelude::*;

use crate::model::ModelError;
use crate::model::ModelErrorView;
use crate::text::cat;
use crate::text::cat3;
use crate::text::clip;
use crate::text::clipped;
use crate::text::contains;
use crate::text::decimal;
use crate::text::decimal_of;
use crate::text::occurs;
use crate::text::trim_tail;
use crate::text::without_tail;

verus! {

/// An event of a server-sent stream.
#[derive(Debug, PartialEq)]
pub struct SseEvent {
    pub event: Option<String>,
    pub data: String,
    /// Where to take up the stream again.
    pub id: Option<String>,
}

/// A text, or nothing where it is empty.
pub open spec fn if_filled(s: Seq<char>) -> Option<Seq<char>> {
    if s.len() == 0 {
        None
    } else {
        Some(s)
    }
}

impl SseEvent {
    /// The event with the given fields, of which the name and the identifier may be
    /// empty.
    pub fn received(event: String, data: String, id: String) -> (r: Self)
        ensures
            r.event.deep_view() == if_filled(event@),
            r.data@ == data@,
            r.id.deep_view() == if_filled(id@),
    {
        SseEvent {
            event: if event.as_str().is_empty() {
                None
            } else {
                Some(event)
            },
            data,
            id: if id.as_str().is_empty() {
                None
            } else {
                Some(id)
            },
        }
    }
}

/// The address of an endpoint below a base address.
pub open spec fn endpoint_of(base: Seq<char>, path: Seq<char>) -> Seq<char> {
    without_tail(base, '/') + path
}

/// The address of an endpoint below a base address.
pub fn endpoint(base: &str, path: &str) -> (r: String)
    ensures
        r@ == endpoint_of(base@, path@),
{
    let b = trim_tail(base, '/');
    cat(b.as_str(), path)
}

// ---- answers that are not a success ----

/// At most the first 200 bytes of a body.
pub open spec fn excerpt(body: Seq<char>) -> Seq<char> {
    clipped(body, 200)
}

/// What an answer that is not a success comes to when a stream is taken up again.
pub open spec fn resume_failure(code: u16, line: Seq<char>, body: Seq<char>) -> ModelErrorView {
    if code == 401 || code == 403 {
        ModelErrorView::Auth(line + ": "@ + excerpt(body))
    } else if code == 429 {
        ModelErrorView::Retryable("429 限流: "@ + excerpt(body))
    } else if 500 <= code < 600 {
        ModelErrorView::Retryable(decimal_of(code as nat) + ": "@ + excerpt(body))
    } else {
        ModelErrorView::Fatal(decimal_of(code as nat) + ": "@ + excerpt(body))
    }
}

/// What an answer that is not a success comes to.
pub open spec fn status_failure(code: u16, line: Seq<char>, body: Seq<char>) -> ModelErrorView {
    if (code == 400 || code == 422) && (occurs(body, "context_length"@) || occurs(body, "too long"@)) {
        ModelErrorView::ContextLength("上下文超长: "@ + excerpt(body))
    } else if code == 413 {
        ModelErrorView::ContextLength("请求体过大: "@ + excerpt(body))
    } else {
        resume_failure(code, line, body)
    }
}

/// What an answer that is not a success comes to when a stream is taken up again.
/// `line` is the status in words.
pub fn resume_error(code: u16, line: &str, body: &str) -> (r: ModelError)
    ensures
        r.deep_view() == resume_failure(code, line@, body@),
{
    let part = clip(body, 200);
    if code == 401 || code == 403 {
        ModelError::Auth(cat3(line, ": ", part.as_str()))
    } else if code == 429 {
        ModelError::Retryable(cat("429 限流: ", part.as_str()))
    } else {
        let n = decimal(code as u64);
        let text = cat3(n.as_str(), ": ", part.as_str());
        if 500 <= code && code < 600 {
            ModelError::Retryable(text)
        } else {
            ModelError::Fatal(text)
        }
    }
}

/// What an answer that is not a success comes to. `line` is the status in words.
pub fn status_error(code: u16, line: &str, body: &str) -> (r: ModelError)
    ensures
        r.deep_view() == status_failure(code, line@, body@),
{
    if (code == 400 || code == 422) && (contains(body, "context_length") || contains(
        body,
        "too long",
    )) {
        let part = clip(body, 200);
        ModelError::ContextLength(cat("上下文超长: ", part.as_str()))
    } else if code == 413 {
        let part = clip(body, 200);
        ModelError::ContextLength(cat("请求体过大: ", part.as_str()))
    } else {
        resume_error(code, line, body)
    }
}

/// What a failure to reach the provider comes to.
pub open spec fn transport_failure(
    timeout: bool,
    connect: bool,
    decode: bool,
    text: Seq<char>,
) -> ModelErrorView {
    if timeout || connect {
        ModelErrorView::Retryable("网络错误: "@ + text)
    } else if decode {
        ModelErrorView::Stream("解码错误: "@ + text)
    } else {
        ModelErrorView::Fatal("reqwest: "@ + text)
    }
}

/// What a failure to reach the provider comes to: a time-out, a failed connection,
/// an answer that cannot be decoded, or anything else.
pub fn transport_error(timeout: bool, connect: bool, decode: bool, text: &str) -> (r: ModelError)
    ensures
        r.deep_view() == transport_failure(timeout, connect, decode, text@),
{
    if timeout || connect {
        ModelError::Retryable(cat("网络错误: ", text))
    } else if decode {
        ModelError::Stream(cat("解码错误: ", text))
    } else {
        ModelError::Fatal(cat("reqwest: ", text))
    }
}

/// What a stream that stays silent comes to.
pub fn idle_error(millis: u64) -> (r: ModelError)
    ensures
        r.deep_view() == ModelErrorView::Stream(
            "流空闲超过 "@ + decimal_of(millis as nat) + "ms"@,
        ),
{
    let n = decimal(millis);
    ModelError::Stream(cat3("流空闲超过 ", n.as_str(), "ms"))
}

/// What a stream that is no event stream comes to.
pub fn malformed_error(text: &str) -> (r: ModelError)
    ensures
        r.deep_view() == ModelErrorView::Stream("SSE 解析错误: "@ + text@),
{
    ModelError::Stream(cat("SSE 解析错误: ", text))
}

// ---- trying again ----

/// Half a second, doubled with every attempt, and at most half a minute.
pub open spec fn backoff_of(attempt: int) -> nat
    decreases attempt,
{
    if attempt <= 1 {
        500
    } else if 2 * backoff_of(attempt - 1) >= 30000 {
        30000
    } else {
        2 * backoff_of(attempt - 1)
    }
}

/// How many milliseconds to wait after a failed attempt.
pub fn backoff(attempt: u32) -> (r: u64)
    requires
        attempt >= 1,
    ensures
        r == backoff_of(attempt as int),
        500 <= r <= 30000,
{
    let mut r: u64 = 500;
    let mut i: u32 = 1;
    while i < attempt
        invariant
            1 <= i <= attempt,
            r == backoff_of(i as int),
            500 <= r <= 30000,
        decreases attempt - i,
    {
        r = if 2 * r >= 30000 {
            30000
        } else {
            2 * r
        };
        i = i + 1;
    }
    r
}

/// What to do after a failure.
#[derive(Debug, PartialEq, Eq)]
pub enum Retry {
    /// Pass the error on.
    GiveUp,
    /// Wait this many milliseconds and try again.
    After(u64),
}

/// What to do after the attempt with the given number failed: only what is worth
/// another try is tried again, at most `max` times.
pub fn after_failed_request(err: &ModelError, attempt: u32, max: u32) -> (r: Retry)
    requires
        attempt >= 1,
    ensures
        r == (if err is Retryable && attempt <= max {
            Retry::After(backoff_of(attempt as int) as u64)
        } else {
            Retry::GiveUp
        }),
{
    match err {
        ModelError::Retryable(_) => if attempt > max {
            Retry::GiveUp
        } else {
            Retry::After(backoff(attempt))
        },
        _ => Retry::GiveUp,
    }
}

/// How often a broken stream may still be taken up again, and from where.
pub struct StreamRetry {
    pub max: u32,
    pub remaining: u32,
    pub last_event_id: Option<String>,
}

impl StreamRetry {
    /// No more tries are left than were given.
    pub open spec fn inv(&self) -> bool {
        self.remaining <= self.max
    }

    /// A stream that may be taken up again `max` times.
    pub fn new(max: u32) -> (r: Self)
        ensures
            r.inv(),
            r.max == max,
            r.remaining == max,
            r.last_event_id is None,
    {
        StreamRetry { max, remaining: max, last_event_id: None }
    }

    /// An event came: it is where the stream would be taken up again.
    pub fn received(&mut self, ev: &SseEvent)
        requires
            old(self).inv(),
        ensures
            final(self).inv(),
            final(self).max == old(self).max,
            final(self).remaining == old(self).remaining,
            final(self).last_event_id.deep_view() == (match ev.id {
                Some(id) => Some(id@),
                None => old(self).last_event_id.deep_view(),
            }),
    {
        match &ev.id {
            Some(id) => {
                self.last_event_id = Some(id.clone());
            },
            None => {},
        }
    }

    /// The stream broke: what to do. A try is used up if there is to be one.
    pub fn broke(&mut self, err: &ModelError, cancelled: bool) -> (r: Retry)
        requires
            old(self).inv(),
        ensures
            final(self).inv(),
            final(self).max == old(self).max,
            final(self).last_event_id == old(self).last_event_id,
            ({
                let again = !cancelled && old(self).remaining > 0 && (err is Retryable
                    || err is Stream);
                &&& again ==> final(self).remaining == old(self).remaining - 1
                &&& again ==> r == Retry::After(
                    backoff_of(old(self).max - final(self).remaining) as u64,
                )
                &&& !again ==> final(self).remaining == old(self).remaining
                &&& !again ==> r == Retry::GiveUp
            }),
    {
        if cancelled || self.remaining == 0 {
            return Retry::GiveUp;
        }
        match err {
            ModelError::Retryable(_) => {},
            ModelError::Stream(_) => {},
            _ => {
                return Retry::GiveUp;
            },
        }
        self.remaining = self.remaining - 1;
        Retry::After(backoff(self.max - self.remaining))
    }
}

// ---- laws ----

/// The longer it goes on failing, the longer the wait, up to half a minute.
pub proof fn law_backoff_grows(a: int, b: int)
    requires
        1 <= a <= b,
    ensures
        500 <= backoff_of(a) <= backoff_of(b) <= 30000,
    decreases b,
{
    if a < b {
        law_backoff_grows(a, b - 1);
    } else if a > 1 {
        law_backoff_grows(a - 1, a - 1);
    }
}

} // verus!
