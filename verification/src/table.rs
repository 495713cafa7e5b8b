//! Values under names.
use vstd::prelude::*;

use crate::dup::Dup;
use crate::text::same;
use crate::text::views;

verus! {

/// What entries say: under a name stands what was put there last.
pub open spec fn table_of<V: DeepView>(s: Seq<(String, V)>) -> Map<Seq<char>, V::V>
    decreases s.len(),
{
    if s.len() == 0 {
        Map::empty()
    } else {
        table_of(s.drop_last()).insert(s.last().0@, s.last().1.deep_view())
    }
}

/// Values under names.
#[derive(Debug, PartialEq)]
pub struct Table<V> {
    pub entries: Vec<(String, V)>,
}

impl<V: DeepView> DeepView for Table<V> {
    type V = Map<Seq<char>, V::V>;

    open spec fn deep_view(&self) -> Map<Seq<char>, V::V> {
        table_of(self.entries@)
    }
}

impl<V: Dup> Dup for Table<V> {
    fn dup(&self) -> (r: Self) {
        let mut r = Table::new();
        r.put_all(self);
        assert(r.deep_view() =~= self.deep_view());
        r
    }
}

impl<V: Dup> Table<V> {
    /// Nothing.
    pub fn new() -> (r: Self)
        ensures
            r.deep_view() == Map::<Seq<char>, V::V>::empty(),
    {
        Table { entries: Vec::new() }
    }

    /// What stands under a name.
    pub fn get(&self, k: &str) -> (r: Option<&V>)
        ensures
            match r {
                Some(v) => self.deep_view().contains_key(k@) && self.deep_view()[k@]
                    == v.deep_view(),
                None => !self.deep_view().contains_key(k@),
            },
    {
        let v = &self.entries;
        let mut i: usize = v.len();
        assert(v@.take(i as int) =~= v@);
        while i > 0
            invariant
                i <= v@.len(),
                v@ == self.entries@,
                table_of(v@).contains_key(k@) == table_of(v@.take(i as int)).contains_key(k@),
                table_of(v@).contains_key(k@) ==> table_of(v@)[k@] == table_of(
                    v@.take(i as int),
                )[k@],
            decreases i,
        {
            assert(v@.take(i as int).drop_last() =~= v@.take(i - 1));
            i = i - 1;
            if same(v[i].0.as_str(), k) {
                return Some(&v[i].1);
            }
        }
        assert(v@.take(0) =~= Seq::<(String, V)>::empty());
        None
    }

    /// Put a value under a name.
    pub fn put(&mut self, k: &str, v: V)
        ensures
            final(self).deep_view() == old(self).deep_view().insert(k@, v.deep_view()),
    {
        let ghost before = self.entries@;
        self.entries.push((k.to_owned(), v));
        assert(self.entries@.drop_last() =~= before);
    }

    /// Put all values of another table under their names.
    pub fn put_all(&mut self, other: &Table<V>)
        ensures
            final(self).deep_view() == old(self).deep_view().union_prefer_right(other.deep_view()),
    {
        let ghost before = self.deep_view();
        let v = &other.entries;
        let mut i: usize = 0;
        assert(self.deep_view() =~= before.union_prefer_right(table_of(v@.take(0))));
        while i < v.len()
            invariant
                i <= v@.len(),
                v@ == other.entries@,
                self.deep_view() == before.union_prefer_right(table_of(v@.take(i as int))),
            decreases v@.len() - i,
        {
            assert(v@.take(i + 1).drop_last() =~= v@.take(i as int));
            self.put(v[i].0.as_str(), v[i].1.dup());
            assert(self.deep_view() =~= before.union_prefer_right(table_of(v@.take(i + 1))));
            i = i + 1;
        }
        assert(v@.take(v@.len() as int) =~= v@);
    }

    /// The names, each once, in the order in which they first came.
    pub fn keys(&self) -> (r: Vec<String>)
        ensures
            views(r@).no_duplicates(),
            forall|k: Seq<char>| #[trigger] views(r@).contains(k) <==> self.deep_view().contains_key(k),
    {
        let v = &self.entries;
        let mut out: Vec<String> = Vec::new();
        let mut i: usize = 0;
        while i < v.len()
            invariant
                i <= v@.len(),
                v@ == self.entries@,
                views(out@).no_duplicates(),
                forall|k: Seq<char>| #[trigger]
                    views(out@).contains(k) <==> table_of(v@.take(i as int)).contains_key(k),
            decreases v@.len() - i,
        {
            assert(v@.take(i + 1).drop_last() =~= v@.take(i as int));
            let ghost before = views(out@);
            let ghost name = v@[i as int].0@;
            if !among_texts(&out, v[i].0.as_str()) {
                out.push(v[i].0.clone());
                assert(views(out@) =~= before.push(name));
                assert forall|k: Seq<char>| #[trigger] views(out@).contains(k) implies before.contains(
                    k,
                ) || k == name by {}
                assert forall|k: Seq<char>| before.contains(k) || k == name implies #[trigger] views(
                    out@,
                ).contains(k) by {
                    if before.contains(k) {
                        let j = choose|j: int| 0 <= j < before.len() && before[j] == k;
                        assert(views(out@)[j] == k);
                    } else {
                        assert(views(out@)[before.len() as int] == k);
                    }
                }
            }
            i = i + 1;
        }
        assert(v@.take(v@.len() as int) =~= v@);
        out
    }
}

/// Whether a text is among texts.
pub fn among_texts(v: &Vec<String>, s: &str) -> (r: bool)
    ensures
        r == views(v@).contains(s@),
{
    let mut i: usize = 0;
    while i < v.len()
        invariant
            i <= v@.len(),
            forall|k: int| 0 <= k < i ==> (#[trigger] v@[k])@ != s@,
        decreases v@.len() - i,
    {
        if same(v[i].as_str(), s) {
            assert(views(v@)[i as int] == s@);
            return true;
        }
        i = i + 1;
    }
    assert forall|k: int| 0 <= k < views(v@).len() implies views(v@)[k] != s@ by {
        assert(v@[k]@ != s@);
    }
    false
}

} // verus!
