//! Values that travel as JSON: what a type is written as, what it is read from,
//! and the law that reading gives back what was written.
use vstd::prelude::*;

use crate::json::list_in;
use crate::json::list_view;
use crate::json::member;
use crate::json::Json;
use crate::json::JsonView;
use crate::json::lemma_list_view;

verus! {

/// A type with a JSON form.
pub trait Wire: DeepView + Sized {
    /// What `v` is written as.
    spec fn json(v: Self::V) -> JsonView;

    /// What `j` is read as, where it has the form of this type.
    spec fn read(j: JsonView) -> Option<Self::V>;

    /// Write the value.
    fn to_json(&self) -> (r: Json)
        ensures
            r@ == Self::json(self.deep_view()),
    ;

    /// Read a value.
    fn from_json(j: &Json) -> (r: Option<Self>)
        ensures
            match r {
                Some(t) => Self::read(j@) == Some(t.deep_view()),
                None => Self::read(j@) is None,
            },
    ;

    /// Whether `v` survives being written and read.
    spec fn faithful(v: Self::V) -> bool;

    /// Reading gives back what was written.
    proof fn round_trip(v: Self::V)
        requires
            Self::faithful(v),
        ensures
            Self::read(Self::json(v)) == Some(v),
    ;
}

impl Wire for String {
    open spec fn json(v: Seq<char>) -> JsonView {
        JsonView::Text(v)
    }

    open spec fn read(j: JsonView) -> Option<Seq<char>> {
        crate::json::text_in(Some(j))
    }

    fn to_json(&self) -> (r: Json) {
        Json::Text(self.clone())
    }

    fn from_json(j: &Json) -> (r: Option<Self>) {
        match j.as_str() {
            Some(s) => Some(s.to_owned()),
            None => None,
        }
    }

    open spec fn faithful(v: Seq<char>) -> bool {
        true
    }

    proof fn round_trip(v: Seq<char>) {
    }
}

impl Wire for bool {
    open spec fn json(v: bool) -> JsonView {
        JsonView::Bool(v)
    }

    open spec fn read(j: JsonView) -> Option<bool> {
        crate::json::bool_in(Some(j))
    }

    fn to_json(&self) -> (r: Json) {
        Json::Bool(*self)
    }

    fn from_json(j: &Json) -> (r: Option<Self>) {
        j.as_bool()
    }

    open spec fn faithful(v: bool) -> bool {
        true
    }

    proof fn round_trip(v: bool) {
    }
}

impl Wire for u64 {
    open spec fn json(v: u64) -> JsonView {
        JsonView::Int(v as int)
    }

    open spec fn read(j: JsonView) -> Option<u64> {
        crate::json::u64_in(Some(j))
    }

    fn to_json(&self) -> (r: Json) {
        Json::Unsigned(*self)
    }

    fn from_json(j: &Json) -> (r: Option<Self>) {
        j.as_u64()
    }

    open spec fn faithful(v: u64) -> bool {
        true
    }

    proof fn round_trip(v: u64) {
    }
}

impl Wire for u32 {
    open spec fn json(v: u32) -> JsonView {
        JsonView::Int(v as int)
    }

    open spec fn read(j: JsonView) -> Option<u32> {
        match j {
            JsonView::Int(n) => if 0 <= n <= u32::MAX {
                Some(n as u32)
            } else {
                None
            },
            _ => None,
        }
    }

    fn to_json(&self) -> (r: Json) {
        Json::Unsigned(*self as u64)
    }

    fn from_json(j: &Json) -> (r: Option<Self>) {
        match j.as_u64() {
            Some(n) => if n <= u32::MAX as u64 {
                Some(n as u32)
            } else {
                None
            },
            None => None,
        }
    }

    open spec fn faithful(v: u32) -> bool {
        true
    }

    proof fn round_trip(v: u32) {
    }
}

impl Wire for i32 {
    open spec fn json(v: i32) -> JsonView {
        JsonView::Int(v as int)
    }

    open spec fn read(j: JsonView) -> Option<i32> {
        match j {
            JsonView::Int(n) => if i32::MIN <= n <= i32::MAX {
                Some(n as i32)
            } else {
                None
            },
            _ => None,
        }
    }

    fn to_json(&self) -> (r: Json) {
        Json::Negative(*self as i64)
    }

    fn from_json(j: &Json) -> (r: Option<Self>) {
        match j {
            Json::Unsigned(n) => if *n <= i32::MAX as u64 {
                Some(*n as i32)
            } else {
                None
            },
            Json::Negative(n) => if i32::MIN as i64 <= *n && *n <= i32::MAX as i64 {
                Some(*n as i32)
            } else {
                None
            },
            _ => None,
        }
    }

    open spec fn faithful(v: i32) -> bool {
        true
    }

    proof fn round_trip(v: i32) {
    }
}

impl DeepView for Json {
    type V = JsonView;

    open spec fn deep_view(&self) -> JsonView {
        self@
    }
}

impl Wire for Json {
    open spec fn json(v: JsonView) -> JsonView {
        v
    }

    open spec fn read(j: JsonView) -> Option<JsonView> {
        Some(j)
    }

    fn to_json(&self) -> (r: Json) {
        self.clone()
    }

    fn from_json(j: &Json) -> (r: Option<Self>) {
        Some(j.clone())
    }

    open spec fn faithful(v: JsonView) -> bool {
        true
    }

    proof fn round_trip(v: JsonView) {
    }
}

/// Read every value of a list.
pub open spec fn read_all<T: Wire>(s: Seq<JsonView>) -> Option<Seq<T::V>>
    decreases s.len(),
{
    if s.len() == 0 {
        Some(Seq::empty())
    } else {
        match (read_all::<T>(s.drop_last()), T::read(s.last())) {
            (Some(a), Some(b)) => Some(a.push(b)),
            _ => None,
        }
    }
}

/// Write every value of a list.
pub open spec fn write_all<T: Wire>(s: Seq<T::V>) -> Seq<JsonView> {
    Seq::new(s.len(), |i: int| T::json(s[i]))
}

pub proof fn lemma_read_all<T: Wire>(s: Seq<T::V>)
    requires
        forall|i: int| 0 <= i < s.len() ==> #[trigger] T::faithful(s[i]),
    ensures
        read_all::<T>(write_all::<T>(s)) == Some(s),
    decreases s.len(),
{
    let w = write_all::<T>(s);
    if s.len() > 0 {
        assert(w.drop_last() =~= write_all::<T>(s.drop_last()));
        assert forall|i: int| 0 <= i < s.drop_last().len() implies #[trigger] T::faithful(
            s.drop_last()[i],
        ) by {
            assert(T::faithful(s[i]));
        }
        assert(T::faithful(s[s.len() - 1]));
        lemma_read_all::<T>(s.drop_last());
        T::round_trip(s.last());
        assert(s.drop_last().push(s.last()) =~= s);
    } else {
        assert(s =~= Seq::<T::V>::empty());
    }
}

/// A prefix that cannot be read spoils the list.
proof fn lemma_read_prefix<T: Wire>(s: Seq<JsonView>, k: int)
    requires
        0 <= k <= s.len(),
        read_all::<T>(s.take(k)) is None,
    ensures
        read_all::<T>(s) is None,
    decreases s.len() - k,
{
    if k < s.len() {
        assert(s.take(k + 1).drop_last() =~= s.take(k));
        lemma_read_prefix::<T>(s, k + 1);
    } else {
        assert(s.take(k) =~= s);
    }
}

impl<T: Wire> Wire for Vec<T> {
    open spec fn json(v: Seq<T::V>) -> JsonView {
        JsonView::List(write_all::<T>(v))
    }

    open spec fn read(j: JsonView) -> Option<Seq<T::V>> {
        match list_in(Some(j)) {
            Some(s) => read_all::<T>(s),
            None => None,
        }
    }

    fn to_json(&self) -> (r: Json) {
        let mut out: Vec<Json> = Vec::new();
        let mut i: usize = 0;
        while i < self.len()
            invariant
                i <= self@.len(),
                list_view(out@) == write_all::<T>(self.deep_view()).take(i as int),
            decreases self@.len() - i,
        {
            let ghost before = out@;
            out.push(self[i].to_json());
            assert(out@.drop_last() =~= before);
            assert(list_view(out@) =~= write_all::<T>(self.deep_view()).take(i + 1));
            i = i + 1;
        }
        let ghost w = write_all::<T>(self.deep_view());
        assert(w.take(w.len() as int) =~= w);
        Json::List(out)
    }

    fn from_json(j: &Json) -> (r: Option<Self>) {
        match j.as_list() {
            Some(v) => {
                let mut out: Vec<T> = Vec::new();
                let mut i: usize = 0;
                let ghost s = list_view(v@);
                proof {
                    lemma_list_view(v@);
                    assert(s.take(0) =~= Seq::<JsonView>::empty());
                    assert(out.deep_view() =~= Seq::<T::V>::empty());
                }
                while i < v.len()
                    invariant
                        i <= v@.len(),
                        s == list_view(v@),
                        s.len() == v@.len(),
                        forall|k: int| 0 <= k < v@.len() ==> #[trigger] s[k] == v@[k]@,
                        list_in(Some(j@)) == Some(s),
                        read_all::<T>(s.take(i as int)) == Some(out.deep_view()),
                    decreases v@.len() - i,
                {
                    assert(s.take(i + 1).drop_last() =~= s.take(i as int));
                    let ghost before = out.deep_view();
                    match T::from_json(&v[i]) {
                        Some(t) => {
                            out.push(t);
                            assert(out.deep_view() =~= before.push(t.deep_view()));
                        },
                        None => {
                            proof {
                                lemma_read_prefix::<T>(s, i + 1);
                            }
                            return None;
                        },
                    }
                    i = i + 1;
                }
                assert(s.take(s.len() as int) =~= s);
                Some(out)
            },
            None => None,
        }
    }

    open spec fn faithful(v: Seq<T::V>) -> bool {
        forall|i: int| 0 <= i < v.len() ==> #[trigger] T::faithful(v[i])
    }

    proof fn round_trip(v: Seq<T::V>) {
        lemma_read_all::<T>(v);
    }
}

// ---- members of an object ----

/// A member that must be there.
pub open spec fn need<T: Wire>(j: JsonView, k: Seq<char>) -> Option<T::V> {
    match member(j, k) {
        Some(x) => T::read(x),
        None => None,
    }
}

/// A member that may be missing or null.
pub open spec fn maybe<T: Wire>(j: JsonView, k: Seq<char>) -> Option<Option<T::V>> {
    match member(j, k) {
        None => Some(None),
        Some(JsonView::Null) => Some(None),
        Some(x) => match T::read(x) {
            Some(v) => Some(Some(v)),
            None => None,
        },
    }
}

/// A member that has a default.
pub open spec fn default_to<T: Wire>(j: JsonView, k: Seq<char>, d: T::V) -> Option<T::V> {
    match member(j, k) {
        None => Some(d),
        Some(x) => T::read(x),
    }
}

/// Read a member that must be there.
pub fn take_needed<T: Wire>(j: &Json, k: &str) -> (r: Option<T>)
    ensures
        match r {
            Some(t) => need::<T>(j@, k@) == Some(t.deep_view()),
            None => need::<T>(j@, k@) is None,
        },
{
    match j.get(k) {
        Some(x) => T::from_json(x),
        None => None,
    }
}

/// Read a member that may be missing or null.
pub fn take_maybe<T: Wire>(j: &Json, k: &str) -> (r: Option<Option<T>>)
    ensures
        match r {
            Some(t) => maybe::<T>(j@, k@) == Some(t.deep_view()),
            None => maybe::<T>(j@, k@) is None,
        },
{
    match j.get(k) {
        None => Some(None),
        Some(x) => match x {
            Json::Null => Some(None),
            _ => match T::from_json(x) {
                Some(t) => Some(Some(t)),
                None => None,
            },
        },
    }
}

/// Read a truth value that has a default.
pub fn take_bool_or(j: &Json, k: &str, d: bool) -> (r: Option<bool>)
    ensures
        r == default_to::<bool>(j@, k@, d),
{
    match j.get(k) {
        None => Some(d),
        Some(x) => x.as_bool(),
    }
}

/// An object with one member more, where there is a value for it.
pub open spec fn with_some<T: Wire>(
    m: Map<Seq<char>, JsonView>,
    k: Seq<char>,
    v: Option<T::V>,
) -> Map<Seq<char>, JsonView> {
    match v {
        Some(x) => m.insert(k, T::json(x)),
        None => m,
    }
}

/// A value, or null.
pub open spec fn or_null<T: Wire>(v: Option<T::V>) -> JsonView {
    match v {
        Some(x) => T::json(x),
        None => JsonView::Null,
    }
}

impl crate::json::Members {
    /// Set the member `k` where there is a value for it.
    pub fn put_some<T: Wire>(&mut self, k: &str, v: &Option<T>)
        ensures
            final(self)@ == with_some::<T>(old(self)@, k@, v.deep_view()),
    {
        match v {
            Some(x) => self.put(k, x.to_json()),
            None => {},
        }
    }
}

} // verus!
