//! Building JSON values: small objects, and lists written element by element.
use vstd::prelude::*;

use crate::json::list_view;
use crate::json::Json;
use crate::json::JsonView;
use crate::json::Members;

verus! {

/// An object with one member.
pub open spec fn obj1(k: Seq<char>, v: JsonView) -> JsonView {
    JsonView::Object(Map::empty().insert(k, v))
}

/// An object with two members.
pub open spec fn obj2(k1: Seq<char>, v1: JsonView, k2: Seq<char>, v2: JsonView) -> JsonView {
    JsonView::Object(Map::empty().insert(k1, v1).insert(k2, v2))
}

/// An object with three members.
pub open spec fn obj3(
    k1: Seq<char>,
    v1: JsonView,
    k2: Seq<char>,
    v2: JsonView,
    k3: Seq<char>,
    v3: JsonView,
) -> JsonView {
    JsonView::Object(Map::empty().insert(k1, v1).insert(k2, v2).insert(k3, v3))
}

/// An object with four members.
pub open spec fn obj4(
    k1: Seq<char>,
    v1: JsonView,
    k2: Seq<char>,
    v2: JsonView,
    k3: Seq<char>,
    v3: JsonView,
    k4: Seq<char>,
    v4: JsonView,
) -> JsonView {
    JsonView::Object(Map::empty().insert(k1, v1).insert(k2, v2).insert(k3, v3).insert(k4, v4))
}

/// An object with one member.
pub fn object1(k: &str, v: Json) -> (r: Json)
    ensures
        r@ == obj1(k@, v@),
{
    let mut m = Members::new();
    m.put(k, v);
    m.done()
}

/// An object with two members.
pub fn object2(k1: &str, v1: Json, k2: &str, v2: Json) -> (r: Json)
    ensures
        r@ == obj2(k1@, v1@, k2@, v2@),
{
    let mut m = Members::new();
    m.put(k1, v1);
    m.put(k2, v2);
    m.done()
}

/// An object with three members.
pub fn object3(k1: &str, v1: Json, k2: &str, v2: Json, k3: &str, v3: Json) -> (r: Json)
    ensures
        r@ == obj3(k1@, v1@, k2@, v2@, k3@, v3@),
{
    let mut m = Members::new();
    m.put(k1, v1);
    m.put(k2, v2);
    m.put(k3, v3);
    m.done()
}

/// An object with four members.
pub fn object4(
    k1: &str,
    v1: Json,
    k2: &str,
    v2: Json,
    k3: &str,
    v3: Json,
    k4: &str,
    v4: Json,
) -> (r: Json)
    ensures
        r@ == obj4(k1@, v1@, k2@, v2@, k3@, v3@, k4@, v4@),
{
    let mut m = Members::new();
    m.put(k1, v1);
    m.put(k2, v2);
    m.put(k3, v3);
    m.put(k4, v4);
    m.done()
}

/// A list of one value.
pub open spec fn one(v: JsonView) -> JsonView {
    JsonView::List(seq![v])
}

/// A list of one value.
pub fn list1(v: Json) -> (r: Json)
    ensures
        r@ == one(v@),
{
    let mut out: Vec<Json> = Vec::new();
    out.push(v);
    proof {
        crate::json::lemma_list_view(out@);
    }
    assert(list_view(out@) =~= seq![v@]);
    Json::List(out)
}

/// A list under construction.
pub struct Items {
    pub list: Vec<Json>,
}

impl View for Items {
    type V = Seq<JsonView>;

    open spec fn view(&self) -> Seq<JsonView> {
        list_view(self.list@)
    }
}

impl Items {
    /// No values.
    pub fn new() -> (r: Self)
        ensures
            r@ == Seq::<JsonView>::empty(),
    {
        Items { list: Vec::new() }
    }

    /// Add a value.
    pub fn add(&mut self, j: Json)
        ensures
            final(self)@ == old(self)@.push(j@),
    {
        let ghost before = self.list@;
        self.list.push(j);
        assert(self.list@.drop_last() =~= before);
    }

    /// The list.
    pub fn done(self) -> (r: Json)
        ensures
            r@ == JsonView::List(self@),
    {
        Json::List(self.list)
    }
}

/// A way to write values of a type.
pub trait Form<T: DeepView> {
    /// What a value is written as.
    spec fn form(v: T::V) -> JsonView;

    /// Write a value.
    fn write(t: &T) -> (r: Json)
        ensures
            r@ == Self::form(t.deep_view()),
    ;
}

/// What the values of a list are written as.
pub open spec fn forms<T: DeepView, F: Form<T>>(s: Seq<T::V>) -> Seq<JsonView> {
    Seq::new(s.len(), |i: int| F::form(s[i]))
}

/// Write a list.
pub fn write_list<T: DeepView, F: Form<T>>(v: &Vec<T>) -> (r: Json)
    ensures
        r@ == JsonView::List(forms::<T, F>(v.deep_view())),
{
    let out = write_values::<T, F>(v);
    Json::List(out)
}

/// Write the values of a list.
pub fn write_values<T: DeepView, F: Form<T>>(v: &Vec<T>) -> (r: Vec<Json>)
    ensures
        list_view(r@) == forms::<T, F>(v.deep_view()),
{
    let mut out: Vec<Json> = Vec::new();
    let mut i: usize = 0;
    let ghost all = forms::<T, F>(v.deep_view());
    assert(list_view(out@) =~= all.take(0));
    while i < v.len()
        invariant
            i <= v@.len(),
            all == forms::<T, F>(v.deep_view()),
            list_view(out@) == all.take(i as int),
        decreases v@.len() - i,
    {
        let ghost before = out@;
        out.push(F::write(&v[i]));
        assert(out@.drop_last() =~= before);
        assert(list_view(out@) =~= all.take(i + 1));
        i = i + 1;
    }
    assert(all.take(all.len() as int) =~= all);
    out
}

} // verus!
