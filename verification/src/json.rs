//! JSON values.
//!
//! `Json` is the library's own value type and `JsonView` its mathematical
//! model. Text is read and written by `serde_json`: the few functions that call
//! it carry the contracts that are believed, everything else is proved.
use serde_json::Number;
use serde_json::Value;
use vstd::prelude::*;

use crate::text::trimmed;

verus! {

/// `serde_json`'s value tree.
#[verifier::external_type_specification]
#[verifier::external_body]
pub struct ExValue(serde_json::Value);

/// `serde_json`'s numbers; the library only carries those that are not integers.
#[verifier::external_type_specification]
#[verifier::external_body]
pub struct ExNumber(serde_json::Number);

/// Cloning a number gives an equal number.
pub assume_specification[ <Number as Clone>::clone ](n: &Number) -> (r: Number)
    ensures
        r == *n,
;

/// What `serde_json` reports when a text is not JSON.
#[verifier::external_type_specification]
#[verifier::external_body]
pub struct ExError(serde_json::Error);

/// Whether a number is one for which neither `serde_json::Number::as_u64` nor `as_i64`
/// has a value.
pub uninterp spec fn fractional(n: Number) -> bool;

/// A number that is not an integer.
#[derive(Debug, PartialEq)]
pub struct Fraction {
    n: Number,
}

impl Fraction {
    #[verifier::type_invariant]
    closed spec fn inv(self) -> bool {
        fractional(self.n)
    }

    /// The number.
    pub closed spec fn number(self) -> Number {
        self.n
    }

    fn copy(&self) -> (r: Self)
        ensures
            r.number() == self.number(),
    {
        proof {
            use_type_invariant(self);
        }
        Fraction { n: self.n.clone() }
    }
}

/// What a JSON value is: an object is a map, so the order of its members does
/// not matter.
pub enum JsonView {
    Null,
    Bool(bool),
    Int(int),
    Float(Number),
    Text(Seq<char>),
    List(Seq<JsonView>),
    Object(Map<Seq<char>, JsonView>),
}

/// A JSON value. Of two members with one name in an object, the later counts.
#[derive(Debug, PartialEq)]
pub enum Json {
    Null,
    Bool(bool),
    Unsigned(u64),
    Negative(i64),
    Float(Fraction),
    Text(String),
    List(Vec<Json>),
    Object(Vec<(String, Json)>),
}

impl View for Json {
    type V = JsonView;

    open spec fn view(&self) -> JsonView {
        json_view(*self)
    }
}

/// What a value stands for.
pub open spec fn json_view(j: Json) -> JsonView
    decreases j,
{
    match j {
        Json::Null => JsonView::Null,
        Json::Bool(b) => JsonView::Bool(b),
        Json::Unsigned(n) => JsonView::Int(n as int),
        Json::Negative(n) => JsonView::Int(n as int),
        Json::Float(n) => JsonView::Float(n.number()),
        Json::Text(s) => JsonView::Text(s@),
        Json::List(v) => JsonView::List(list_view(v@)),
        Json::Object(v) => JsonView::Object(members_view(v@)),
    }
}

/// The values of a list.
pub open spec fn list_view(s: Seq<Json>) -> Seq<JsonView>
    decreases s,
{
    if s.len() == 0 {
        Seq::empty()
    } else {
        list_view(s.drop_last()).push(json_view(s.last()))
    }
}

/// The members of an object, the later ones over the earlier ones.
pub open spec fn members_view(s: Seq<(String, Json)>) -> Map<Seq<char>, JsonView>
    decreases s,
{
    if s.len() == 0 {
        Map::empty()
    } else {
        members_view(s.drop_last()).insert(s.last().0@, json_view(s.last().1))
    }
}

pub proof fn lemma_list_view(s: Seq<Json>)
    ensures
        list_view(s).len() == s.len(),
        forall|i: int| 0 <= i < s.len() ==> #[trigger] list_view(s)[i] == s[i]@,
    decreases s.len(),
{
    if s.len() > 0 {
        lemma_list_view(s.drop_last());
    }
}

/// One more member.
pub proof fn lemma_members_push(s: Seq<(String, Json)>, m: (String, Json))
    ensures
        members_view(s.push(m)) == members_view(s).insert(m.0@, m.1@),
{
    assert(s.push(m).drop_last() =~= s);
}

/// The member `k` of an object.
pub open spec fn member(j: JsonView, k: Seq<char>) -> Option<JsonView> {
    match j {
        JsonView::Object(m) => if m.contains_key(k) {
            Some(m[k])
        } else {
            None
        },
        _ => None,
    }
}

proof fn lemma_members_finite(s: Seq<(String, Json)>)
    ensures
        members_view(s).dom().finite(),
    decreases s.len(),
{
    if s.len() > 0 {
        lemma_members_finite(s.drop_last());
    }
}

/// A member is smaller than its object.
pub proof fn lemma_member_decreases(j: Json, k: Seq<char>)
    requires
        member(j@, k) is Some,
    ensures
        decreases_to!(j@ => member(j@, k)->0),
{
    let m = j@->Object_0;
    lemma_members_finite(j->Object_0@);
    assert(decreases_to!(j@ => j@->Object_0));
    assert(decreases_to!(m => m[k]));
}

/// The text that a value is, if it is one.
pub open spec fn text_in(j: Option<JsonView>) -> Option<Seq<char>> {
    match j {
        Some(JsonView::Text(s)) => Some(s),
        _ => None,
    }
}

/// The unsigned 64-bit number that a value is, if it is one.
pub open spec fn u64_in(j: Option<JsonView>) -> Option<u64> {
    match j {
        Some(JsonView::Int(n)) => if 0 <= n <= u64::MAX {
            Some(n as u64)
        } else {
            None
        },
        _ => None,
    }
}

/// The truth value that a value is, if it is one.
pub open spec fn bool_in(j: Option<JsonView>) -> Option<bool> {
    match j {
        Some(JsonView::Bool(b)) => Some(b),
        _ => None,
    }
}

/// The list that a value is, if it is one.
pub open spec fn list_in(j: Option<JsonView>) -> Option<Seq<JsonView>> {
    match j {
        Some(JsonView::List(s)) => Some(s),
        _ => None,
    }
}

impl Json {
    /// The member `k`, where the value is an object that has it.
    pub fn get(&self, k: &str) -> (r: Option<&Json>)
        ensures
            match r {
                Some(j) => member(self@, k@) == Some(j@),
                None => member(self@, k@) is None,
            },
    {
        match self {
            Json::Object(v) => {
                let mut i: usize = v.len();
                assert(v@.take(i as int) =~= v@);
                while i > 0
                    invariant
                        i <= v@.len(),
                        self@ == JsonView::Object(members_view(v@)),
                        members_view(v@).contains_key(k@) == members_view(
                            v@.take(i as int),
                        ).contains_key(k@),
                        members_view(v@).contains_key(k@) ==> members_view(v@)[k@] == members_view(
                            v@.take(i as int),
                        )[k@],
                    decreases i,
                {
                    assert(v@.take(i as int).drop_last() =~= v@.take(i - 1));
                    i = i - 1;
                    if crate::text::same(v[i].0.as_str(), k) {
                        return Some(&v[i].1);
                    }
                }
                assert(v@.take(0) =~= Seq::<(String, Json)>::empty());
                None
            },
            _ => None,
        }
    }

    /// The text that the value is, if it is one.
    pub fn as_str(&self) -> (r: Option<&str>)
        ensures
            match r {
                Some(s) => text_in(Some(self@)) == Some(s@),
                None => text_in(Some(self@)) is None,
            },
    {
        match self {
            Json::Text(s) => Some(s.as_str()),
            _ => None,
        }
    }

    /// The unsigned number that the value is, if it is one.
    pub fn as_u64(&self) -> (r: Option<u64>)
        ensures
            r == u64_in(Some(self@)),
    {
        match self {
            Json::Unsigned(n) => Some(*n),
            Json::Negative(n) => if *n >= 0 {
                Some(*n as u64)
            } else {
                None
            },
            _ => None,
        }
    }

    /// The truth value that the value is, if it is one.
    pub fn as_bool(&self) -> (r: Option<bool>)
        ensures
            r == bool_in(Some(self@)),
    {
        match self {
            Json::Bool(b) => Some(*b),
            _ => None,
        }
    }

    /// The list that the value is, if it is one.
    pub fn as_list(&self) -> (r: Option<&Vec<Json>>)
        ensures
            match r {
                Some(v) => list_in(Some(self@)) == Some(list_view(v@)),
                None => list_in(Some(self@)) is None,
            },
    {
        match self {
            Json::List(v) => Some(v),
            _ => None,
        }
    }

    /// A text value.
    pub fn text(s: &str) -> (r: Json)
        ensures
            r@ == JsonView::Text(s@),
    {
        Json::Text(s.to_owned())
    }
}

impl Clone for Json {
    fn clone(&self) -> (r: Json)
        ensures
            r@ == self@,
        decreases self,
    {
        match self {
            Json::Null => Json::Null,
            Json::Bool(b) => Json::Bool(*b),
            Json::Unsigned(n) => Json::Unsigned(*n),
            Json::Negative(n) => Json::Negative(*n),
            Json::Float(n) => Json::Float(n.copy()),
            Json::Text(s) => Json::Text(s.clone()),
            Json::List(v) => {
                let mut out: Vec<Json> = Vec::new();
                let mut i: usize = 0;
                while i < v.len()
                    invariant
                        i <= v@.len(),
                        decreases_to!(self => v),
                        list_view(out@) == list_view(v@.take(i as int)),
                    decreases v@.len() - i,
                {
                    let ghost before = out@;
                    out.push(v[i].clone());
                    assert(out@.drop_last() =~= before);
                    assert(v@.take(i + 1).drop_last() =~= v@.take(i as int));
                    i = i + 1;
                }
                assert(v@.take(v@.len() as int) =~= v@);
                Json::List(out)
            },
            Json::Object(v) => {
                let mut out: Vec<(String, Json)> = Vec::new();
                let mut i: usize = 0;
                while i < v.len()
                    invariant
                        i <= v@.len(),
                        decreases_to!(self => v),
                        members_view(out@) == members_view(v@.take(i as int)),
                    decreases v@.len() - i,
                {
                    let ghost before = out@;
                    out.push((v[i].0.clone(), v[i].1.clone()));
                    assert(out@.drop_last() =~= before);
                    assert(v@.take(i + 1).drop_last() =~= v@.take(i as int));
                    i = i + 1;
                }
                assert(v@.take(v@.len() as int) =~= v@);
                Json::Object(out)
            },
        }
    }
}

/// An object under construction.
pub struct Members {
    pub list: Vec<(String, Json)>,
}

impl View for Members {
    type V = Map<Seq<char>, JsonView>;

    open spec fn view(&self) -> Map<Seq<char>, JsonView> {
        members_view(self.list@)
    }
}

impl Members {
    /// No members.
    pub fn new() -> (r: Self)
        ensures
            r@ == Map::<Seq<char>, JsonView>::empty(),
    {
        Members { list: Vec::new() }
    }

    /// Set the member `k` to `j`.
    pub fn put(&mut self, k: &str, j: Json)
        ensures
            final(self)@ == old(self)@.insert(k@, j@),
    {
        proof {
            assert forall|key: String| key@ == k@ implies members_view(
                self.list@.push((key, j)),
            ) == old(self)@.insert(k@, j@) by {
                lemma_members_push(self.list@, (key, j));
            }
        }
        self.list.push((k.to_owned(), j));
    }

    /// Set the member `k` to a text.
    pub fn put_text(&mut self, k: &str, s: &str)
        ensures
            final(self)@ == old(self)@.insert(k@, JsonView::Text(s@)),
    {
        self.put(k, Json::text(s));
    }

    /// The object.
    pub fn done(self) -> (r: Json)
        ensures
            r@ == JsonView::Object(self@),
    {
        Json::Object(self.list)
    }
}

// ---- serde_json ----

/// What a `serde_json` value holds.
pub uninterp spec fn value_view(v: Value) -> JsonView;

/// What `serde_json` reads from a text: the value, or nothing where the text is
/// not JSON or nests too deep for it.
pub uninterp spec fn json_read(s: Seq<char>) -> Option<JsonView>;

/// The message with which `serde_json` refuses a text that is not JSON.
pub uninterp spec fn json_refusal(s: Seq<char>) -> Seq<char>;

/// The compact text that `serde_json` writes for a value.
pub uninterp spec fn json_text(j: JsonView) -> Seq<char>;

/// The indented text that `serde_json` writes for a value.
pub uninterp spec fn json_pretty(j: JsonView) -> Seq<char>;

/// The text that Rust's debug format gives for a `serde_json` value.
pub uninterp spec fn json_debug(j: JsonView) -> Seq<char>;

/// A value without fractional numbers that nests lists and objects at most `n`
/// deep.
pub open spec fn plain(j: JsonView, n: nat) -> bool
    decreases n,
{
    match j {
        JsonView::Float(_) => false,
        JsonView::List(s) => n > 0 && (forall|i: int|
            0 <= i < s.len() ==> plain(#[trigger] s[i], (n - 1) as nat)),
        JsonView::Object(m) => n > 0 && (forall|k: Seq<char>|
            #[trigger] m.contains_key(k) ==> plain(m[k], (n - 1) as nat)),
        _ => true,
    }
}

/// A value that nests little also nests at most as deep as any larger bound.
pub proof fn lemma_plain_more(j: JsonView, n: nat, m: nat)
    requires
        plain(j, n),
        n <= m,
    ensures
        plain(j, m),
    decreases n,
{
    match j {
        JsonView::List(s) => {
            assert forall|i: int| 0 <= i < s.len() implies plain(
                #[trigger] s[i],
                (m - 1) as nat,
            ) by {
                lemma_plain_more(s[i], (n - 1) as nat, (m - 1) as nat);
            }
        },
        JsonView::Object(o) => {
            assert forall|k: Seq<char>| #[trigger] o.contains_key(k) implies plain(
                o[k],
                (m - 1) as nat,
            ) by {
                lemma_plain_more(o[k], (n - 1) as nat, (m - 1) as nat);
            }
        },
        _ => {},
    }
}

/// How deep `serde_json` reads.
pub open spec fn depth_read() -> nat {
    127
}

/// One level of a `serde_json` value.
pub enum Node {
    Null,
    Bool(bool),
    Unsigned(u64),
    Negative(i64),
    Float(Number),
    Text(String),
    List(Vec<Value>),
    Object(Vec<(String, Value)>),
}

/// The members of one level, the later ones over the earlier ones.
pub open spec fn node_members(s: Seq<(String, Value)>) -> Map<Seq<char>, JsonView>
    decreases s.len(),
{
    if s.len() == 0 {
        Map::empty()
    } else {
        node_members(s.drop_last()).insert(s.last().0@, value_view(s.last().1))
    }
}

/// What one level stands for.
pub open spec fn node_view(n: Node) -> JsonView {
    match n {
        Node::Null => JsonView::Null,
        Node::Bool(b) => JsonView::Bool(b),
        Node::Unsigned(n) => JsonView::Int(n as int),
        Node::Negative(n) => JsonView::Int(n as int),
        Node::Float(n) => JsonView::Float(n),
        Node::Text(s) => JsonView::Text(s@),
        Node::List(v) => JsonView::List(Seq::new(v@.len(), |i: int| value_view(v@[i]))),
        Node::Object(v) => JsonView::Object(node_members(v@)),
    }
}

/// `serde_json::Value`, taken apart by one level. A number that `as_u64` or `as_i64` has
/// a value for is that integer. No two members of an object have one name, because
/// `serde_json` keeps them in a map.
#[verifier::external_body]
fn open_value(v: Value) -> (r: Node)
    ensures
        node_view(r) == value_view(v),
        r matches Node::Float(n) ==> fractional(n),
        r matches Node::Object(s) ==> forall|i: int, j: int|
            0 <= i < j < s@.len() ==> (#[trigger] s@[i]).0@ != (#[trigger] s@[j]).0@,
{
    match v {
        Value::Null => Node::Null,
        Value::Bool(b) => Node::Bool(b),
        Value::Number(n) => match (n.as_u64(), n.as_i64()) {
            (Some(u), _) => Node::Unsigned(u),
            (None, Some(i)) => Node::Negative(i),
            (None, None) => Node::Float(n),
        },
        Value::String(s) => Node::Text(s),
        Value::Array(a) => Node::List(a),
        Value::Object(m) => Node::Object(m.into_iter().collect()),
    }
}

/// `serde_json::Value`, put together from one level. Of two members with one
/// name the later is kept, as inserting into `serde_json`'s map does. A number that is
/// taken over as it is must be no integer, because integers have levels of their own.
#[verifier::external_body]
fn close_value(n: Node) -> (r: Value)
    requires
        n matches Node::Float(x) ==> fractional(x),
    ensures
        value_view(r) == node_view(n),
{
    match n {
        Node::Null => Value::Null,
        Node::Bool(b) => Value::Bool(b),
        Node::Unsigned(u) => Value::from(u),
        Node::Negative(i) => Value::from(i),
        Node::Float(x) => Value::Number(x),
        Node::Text(s) => Value::String(s),
        Node::List(a) => Value::Array(a),
        Node::Object(m) => Value::Object(m.into_iter().collect()),
    }
}

/// `serde_json::from_str` into a value.
#[verifier::external_body]
fn read_value(s: &str) -> (r: Result<Value, serde_json::Error>)
    ensures
        match r {
            Ok(v) => json_read(s@) == Some(value_view(v)),
            Err(_) => json_read(s@) is None,
        },
{
    serde_json::from_str(s)
}

/// The compact text of a value, which `serde_json::Value` prints itself as. It is
/// one line and not empty, without white space at either end. What is written is read back as
/// the same value, unless the value holds a fractional number or nests deeper
/// than `serde_json` reads.
#[verifier::external_body]
fn value_text(v: &Value) -> (r: String)
    ensures
        r@ == json_text(value_view(*v)),
        r@.len() > 0,
        !r@.contains('\n'),
        trimmed(r@) == r@,
        plain(value_view(*v), depth_read()) ==> json_read(r@) == Some(value_view(*v)),
{
    v.to_string()
}

/// `serde_json::to_string_pretty` of a value, which does not fail on one.
#[verifier::external_body]
fn value_pretty(v: &Value) -> (r: String)
    ensures
        r@ == json_pretty(value_view(*v)),
{
    serde_json::to_string_pretty(v).unwrap_or_default()
}

/// The debug text of a `serde_json::Value`.
#[verifier::external_body]
fn value_debug(v: &Value) -> (r: String)
    ensures
        r@ == json_debug(value_view(*v)),
{
    format!("{:?}", v)
}

/// The message with which `serde_json::from_str` refuses a text.
#[verifier::external_body]
fn refusal_text(s: &str) -> (r: String)
    ensures
        json_read(s@) is None ==> r@ == json_refusal(s@),
{
    match serde_json::from_str::<Value>(s) {
        Ok(_) => String::new(),
        Err(e) => e.to_string(),
    }
}

proof fn lemma_node_finite(s: Seq<(String, Value)>)
    ensures
        node_members(s).dom().finite(),
    decreases s.len(),
{
    if s.len() > 0 {
        lemma_node_finite(s.drop_last());
    }
}

proof fn lemma_node_member(s: Seq<(String, Value)>, i: int)
    requires
        0 <= i < s.len(),
        forall|i: int, j: int|
            0 <= i < j < s.len() ==> (#[trigger] s[i]).0@ != (#[trigger] s[j]).0@,
    ensures
        node_members(s).contains_key(s[i].0@),
        node_members(s)[s[i].0@] == value_view(s[i].1),
        node_members(s).dom().finite(),
    decreases s.len(),
{
    let t = s.drop_last();
    lemma_node_finite(t);
    if i < s.len() - 1 {
        assert forall|a: int, b: int| 0 <= a < b < t.len() implies (#[trigger] t[a]).0@ != (
        #[trigger] t[b]).0@ by {
            assert(t[a] == s[a] && t[b] == s[b]);
        }
        lemma_node_member(t, i);
        assert(s[i].0@ != s[s.len() - 1].0@);
    }
}

/// The library's value for a `serde_json` value.
fn json_of(v: Value) -> (r: Json)
    ensures
        r@ == value_view(v),
    decreases value_view(v),
{
    let ghost whole = value_view(v);
    match open_value(v) {
        Node::Null => Json::Null,
        Node::Bool(b) => Json::Bool(b),
        Node::Unsigned(n) => Json::Unsigned(n),
        Node::Negative(n) => Json::Negative(n),
        Node::Float(n) => Json::Float(Fraction { n }),
        Node::Text(s) => Json::Text(s),
        Node::List(a) => {
            let mut rest = a;
            let mut out: Vec<Json> = Vec::new();
            let ghost all = Seq::new(a@.len(), |i: int| value_view(a@[i]));
            while rest.len() > 0
                invariant
                    whole == value_view(v),
                    whole == JsonView::List(all),
                    rest@.len() + out@.len() == all.len(),
                    forall|i: int|
                        0 <= i < rest@.len() ==> value_view(#[trigger] rest@[i]) == all[out@.len()
                            + i],
                    list_view(out@) == all.take(out@.len() as int),
                decreases rest@.len(),
            {
                let ghost before = out@;
                let ghost was = rest@;
                let c = rest.remove(0);
                assert(value_view(was[0]) == all[before.len() as int]);
                assert(whole->List_0 == all);
                assert(decreases_to!(whole => whole->List_0));
                assert(decreases_to!(all => all[before.len() as int]));
                assert(decreases_to!(value_view(v) => value_view(c)));
                out.push(json_of(c));
                proof {
                    assert(out@.drop_last() =~= before);
                    assert(list_view(out@) =~= all.take(out@.len() as int));
                    assert forall|i: int| 0 <= i < rest@.len() implies value_view(
                        #[trigger] rest@[i],
                    ) == all[out@.len() + i] by {
                        assert(rest@[i] == was[i + 1]);
                    }
                }
            }
            assert(all.take(all.len() as int) =~= all);
            Json::List(out)
        },
        Node::Object(a) => {
            let mut rest = a;
            let mut out: Vec<(String, Json)> = Vec::new();
            let ghost all = a@;
            while rest.len() > 0
                invariant
                    whole == value_view(v),
                    whole == JsonView::Object(node_members(all)),
                    rest@.len() + out@.len() == all.len(),
                    forall|i: int, j: int|
                        0 <= i < j < all.len() ==> (#[trigger] all[i]).0@ != (#[trigger] all[j]).0@,
                    forall|i: int|
                        0 <= i < rest@.len() ==> #[trigger] rest@[i] == all[out@.len() + i],
                    members_view(out@) == node_members(all.take(out@.len() as int)),
                decreases rest@.len(),
            {
                let ghost before = out@;
                let ghost was = rest@;
                let (k, c) = rest.remove(0);
                assert(was[0] == all[before.len() as int]);
                proof {
                    lemma_node_member(all, before.len() as int);
                    let m = node_members(all);
                    assert(whole->Object_0 == m);
                    assert(decreases_to!(whole => whole->Object_0));
                    assert(decreases_to!(m => m[k@]));
                    assert(decreases_to!(value_view(v) => value_view(c)));
                }
                out.push((k, json_of(c)));
                proof {
                    assert(out@.drop_last() =~= before);
                    assert(all.take(out@.len() as int).drop_last() =~= all.take(
                        before.len() as int,
                    ));
                    assert forall|i: int| 0 <= i < rest@.len() implies #[trigger] rest@[i]
                        == all[out@.len() + i] by {
                        assert(rest@[i] == was[i + 1]);
                    }
                }
            }
            assert(all.take(all.len() as int) =~= all);
            Json::Object(out)
        },
    }
}

/// The `serde_json` value for a value of the library.
fn value_of(j: &Json) -> (r: Value)
    ensures
        value_view(r) == j@,
    decreases j,
{
    match j {
        Json::Null => close_value(Node::Null),
        Json::Bool(b) => close_value(Node::Bool(*b)),
        Json::Unsigned(n) => close_value(Node::Unsigned(*n)),
        Json::Negative(n) => close_value(Node::Negative(*n)),
        Json::Float(f) => {
            proof {
                use_type_invariant(f);
            }
            close_value(Node::Float(f.n.clone()))
        },
        Json::Text(s) => close_value(Node::Text(s.clone())),
        Json::List(v) => {
            let mut out: Vec<Value> = Vec::new();
            let mut i: usize = 0;
            while i < v.len()
                invariant
                    i <= v@.len(),
                    out@.len() == i,
                    decreases_to!(j => v),
                    forall|k: int| 0 <= k < i ==> value_view(#[trigger] out@[k]) == v@[k]@,
                decreases v@.len() - i,
            {
                out.push(value_of(&v[i]));
                i = i + 1;
            }
            let n = Node::List(out);
            proof {
                lemma_list_view(v@);
                assert(Seq::new(out@.len(), |i: int| value_view(out@[i])) =~= list_view(v@));
            }
            close_value(n)
        },
        Json::Object(v) => {
            let mut out: Vec<(String, Value)> = Vec::new();
            let mut i: usize = 0;
            while i < v.len()
                invariant
                    i <= v@.len(),
                    decreases_to!(j => v),
                    node_members(out@) == members_view(v@.take(i as int)),
                decreases v@.len() - i,
            {
                let ghost before = out@;
                out.push((v[i].0.clone(), value_of(&v[i].1)));
                assert(out@.drop_last() =~= before);
                assert(v@.take(i + 1).drop_last() =~= v@.take(i as int));
                i = i + 1;
            }
            assert(v@.take(v@.len() as int) =~= v@);
            close_value(Node::Object(out))
        },
    }
}

/// Read a JSON text; where it is not one, the reader's message.
pub fn parse(s: &str) -> (r: Result<Json, String>)
    ensures
        match r {
            Ok(j) => json_read(s@) == Some(j@),
            Err(e) => json_read(s@) is None && e@ == json_refusal(s@),
        },
{
    match read_value(s) {
        Ok(v) => Ok(json_of(v)),
        Err(_) => Err(refusal_text(s)),
    }
}

/// The compact text of a value.
pub fn print(j: &Json) -> (r: String)
    ensures
        r@ == json_text(j@),
        r@.len() > 0,
        !r@.contains('\n'),
        trimmed(r@) == r@,
        plain(j@, depth_read()) ==> json_read(r@) == Some(j@),
{
    let v = value_of(j);
    value_text(&v)
}

/// The debug text of a value.
pub fn debug(j: &Json) -> (r: String)
    ensures
        r@ == json_debug(j@),
{
    let v = value_of(j);
    value_debug(&v)
}

/// The indented text of a value.
pub fn pretty(j: &Json) -> (r: String)
    ensures
        r@ == json_pretty(j@),
{
    let v = value_of(j);
    value_pretty(&v)
}

} // verus!
