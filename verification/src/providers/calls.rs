//! Which tool call stands at which index of a stream, and small readers of a
//! stream's data.
use vstd::prelude::*;

use crate::ids::CallId;
use crate::json::member;
use crate::json::text_in;
use crate::json::u64_in;
use crate::json::Json;
use crate::json::JsonView;

verus! {

/// Where index `k` stands in the list, or the list's length.
pub open spec fn place(s: Seq<(u32, Seq<char>)>, k: u32) -> int
    decreases s.len(),
{
    if s.len() == 0 {
        0
    } else if s[0].0 == k {
        0
    } else {
        1 + place(s.drop_first(), k)
    }
}

/// The call at index `k`.
pub open spec fn call_at(s: Seq<(u32, Seq<char>)>, k: u32) -> Option<Seq<char>> {
    if place(s, k) < s.len() {
        Some(s[place(s, k)].1)
    } else {
        None
    }
}

/// The calls with `id` at index `k`.
pub open spec fn with_call(s: Seq<(u32, Seq<char>)>, k: u32, id: Seq<char>) -> Seq<
    (u32, Seq<char>),
> {
    if place(s, k) < s.len() {
        s.update(place(s, k), (k, id))
    } else {
        s.push((k, id))
    }
}

/// The calls without the one at index `k`.
pub open spec fn without_call(s: Seq<(u32, Seq<char>)>, k: u32) -> Seq<(u32, Seq<char>)> {
    if place(s, k) < s.len() {
        s.remove(place(s, k))
    } else {
        s
    }
}

/// No index occurs twice.
pub open spec fn distinct(s: Seq<(u32, Seq<char>)>) -> bool {
    forall|i: int, j: int| 0 <= i < j < s.len() ==> (#[trigger] s[i]).0 != (#[trigger] s[j]).0
}

pub proof fn lemma_place(s: Seq<(u32, Seq<char>)>, k: u32)
    ensures
        0 <= place(s, k) <= s.len(),
        place(s, k) < s.len() ==> s[place(s, k)].0 == k,
        forall|i: int| 0 <= i < place(s, k) ==> (#[trigger] s[i]).0 != k,
    decreases s.len(),
{
    if s.len() > 0 && s[0].0 != k {
        let t = s.drop_first();
        lemma_place(t, k);
        assert forall|i: int| 0 <= i < place(s, k) implies (#[trigger] s[i]).0 != k by {
            if i > 0 {
                assert(s[i] == t[i - 1]);
            }
        }
    }
}

/// The place of an index is where it first occurs.
pub proof fn lemma_place_is(s: Seq<(u32, Seq<char>)>, k: u32, p: int)
    requires
        0 <= p <= s.len(),
        p < s.len() ==> s[p].0 == k,
        forall|i: int| 0 <= i < p ==> (#[trigger] s[i]).0 != k,
    ensures
        place(s, k) == p,
{
    lemma_place(s, k);
    let q = place(s, k);
    if p < q {
        assert(s[p].0 != k);
    } else if q < p {
        assert(s[q].0 != k);
    }
}

/// The tool calls of a stream by their index.
pub struct Calls {
    list: Vec<(u32, CallId)>,
}

/// What a list of calls stands for.
pub open spec fn calls_view(s: Seq<(u32, CallId)>) -> Seq<(u32, Seq<char>)> {
    Seq::new(s.len(), |i: int| (s[i].0, s[i].1.deep_view()))
}

impl View for Calls {
    type V = Seq<(u32, Seq<char>)>;

    closed spec fn view(&self) -> Seq<(u32, Seq<char>)> {
        calls_view(self.list@)
    }
}

impl Calls {
    /// No calls.
    pub fn new() -> (r: Self)
        ensures
            r@ == Seq::<(u32, Seq<char>)>::empty(),
            distinct(r@),
    {
        let r = Calls { list: Vec::new() };
        assert(r@ =~= Seq::<(u32, Seq<char>)>::empty());
        r
    }

    fn find(&self, k: u32) -> (r: usize)
        ensures
            r == place(self@, k),
            r <= self.list@.len(),
            self@.len() == self.list@.len(),
    {
        let mut i: usize = 0;
        while i < self.list.len() && self.list[i].0 != k
            invariant
                i <= self.list@.len(),
                forall|j: int| 0 <= j < i ==> (#[trigger] self@[j]).0 != k,
            decreases self.list@.len() - i,
        {
            assert(self@[i as int].0 == self.list@[i as int].0);
            i = i + 1;
        }
        proof {
            if i < self.list@.len() {
                assert(self@[i as int].0 == self.list@[i as int].0);
            }
            lemma_place_is(self@, k, i as int);
        }
        i
    }

    /// The call at index `k`.
    pub fn get(&self, k: u32) -> (r: Option<CallId>)
        ensures
            r.deep_view() == call_at(self@, k),
    {
        let p: usize = self.find(k);
        if p < self.list.len() {
            Some(self.list[p].1.clone())
        } else {
            None
        }
    }

    /// Put a call at index `k`.
    pub fn insert(&mut self, k: u32, id: CallId)
        requires
            distinct(old(self)@),
        ensures
            final(self)@ == with_call(old(self)@, k, id.deep_view()),
            distinct(final(self)@),
    {
        let p: usize = self.find(k);
        let ghost before = self@;
        proof {
            lemma_place(before, k);
        }
        if p < self.list.len() {
            self.list.set(p, (k, id));
            assert(self@ =~= before.update(p as int, (k, id.deep_view())));
        } else {
            self.list.push((k, id));
            assert(self@ =~= before.push((k, id.deep_view())));
        }
    }

    /// Take the call at index `k` out.
    pub fn remove(&mut self, k: u32) -> (r: Option<CallId>)
        requires
            distinct(old(self)@),
        ensures
            r.deep_view() == call_at(old(self)@, k),
            final(self)@ == without_call(old(self)@, k),
            distinct(final(self)@),
    {
        let p: usize = self.find(k);
        let ghost before = self@;
        if p < self.list.len() {
            let (_, id) = self.list.remove(p);
            assert(self@ =~= before.remove(p as int));
            Some(id)
        } else {
            None
        }
    }

    /// All calls, in the order in which their indices first came.
    pub fn ids(&self) -> (r: Vec<CallId>)
        ensures
            r.deep_view() == Seq::new(self@.len(), |i: int| self@[i].1),
    {
        let mut out: Vec<CallId> = Vec::new();
        let mut i: usize = 0;
        while i < self.list.len()
            invariant
                i <= self.list@.len(),
                out@.len() == i,
                forall|k: int| 0 <= k < i ==> (#[trigger] out@[k]).deep_view() == self@[k].1,
            decreases self.list@.len() - i,
        {
            out.push(self.list[i].1.clone());
            i = i + 1;
        }
        assert(out.deep_view() =~= Seq::new(self@.len(), |i: int| self@[i].1));
        out
    }
}

// ---- reading a stream's data ----

/// The value below two members.
pub open spec fn below(j: JsonView, a: Seq<char>, b: Seq<char>) -> Option<JsonView> {
    match member(j, a) {
        Some(x) => member(x, b),
        None => None,
    }
}

/// A text, or `d`.
pub open spec fn or_text(t: Option<Seq<char>>, d: Seq<char>) -> Seq<char> {
    match t {
        Some(s) => s,
        None => d,
    }
}

/// A number, or zero.
pub open spec fn or_zero(n: Option<u64>) -> u64 {
    match n {
        Some(n) => n,
        None => 0,
    }
}

/// The index below a member: its low 32 bits, or zero.
pub open spec fn index_in(j: JsonView, k: Seq<char>) -> u32 {
    or_zero(u64_in(member(j, k))) as u32
}

/// The text of a member.
pub fn text_at(j: &Json, k: &str) -> (r: Option<String>)
    ensures
        r.deep_view() == text_in(member(j@, k@)),
{
    match j.get(k) {
        Some(x) => match x.as_str() {
            Some(s) => Some(s.to_owned()),
            None => None,
        },
        None => None,
    }
}

/// The text below two members.
pub fn text_below(j: &Json, a: &str, b: &str) -> (r: Option<String>)
    ensures
        r.deep_view() == text_in(below(j@, a@, b@)),
{
    match j.get(a) {
        Some(x) => text_at(x, b),
        None => None,
    }
}

/// The text, or `d`.
pub fn text_or(t: Option<String>, d: &str) -> (r: String)
    ensures
        r@ == or_text(t.deep_view(), d@),
{
    match t {
        Some(s) => s,
        None => d.to_owned(),
    }
}

/// Whether a text is there and is `s`.
pub fn is_text(t: &Option<String>, s: &str) -> (r: bool)
    ensures
        r == (t.deep_view() == Some(s@)),
{
    match t {
        Some(x) => crate::text::same(x.as_str(), s),
        None => false,
    }
}

/// The number of a member, or zero.
pub fn number_at(j: &Json, k: &str) -> (r: u64)
    ensures
        r == or_zero(u64_in(member(j@, k@))),
{
    match j.get(k) {
        Some(x) => match x.as_u64() {
            Some(n) => n,
            None => 0,
        },
        None => 0,
    }
}

/// The number below two members, or zero.
pub fn number_below(j: &Json, a: &str, b: &str) -> (r: u64)
    ensures
        r == or_zero(u64_in(below(j@, a@, b@))),
{
    match j.get(a) {
        Some(x) => number_at(x, b),
        None => 0,
    }
}

/// The index below a member.
pub fn index_at(j: &Json, k: &str) -> (r: u32)
    ensures
        r == index_in(j@, k@),
{
    let n: u64 = number_at(j, k);
    #[verifier::truncate]
    let r: u32 = n as u32;
    r
}

} // verus!
