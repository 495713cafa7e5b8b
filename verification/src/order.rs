//! Putting things in order.
use vstd::prelude::*;


verus! {

/// Whether `order` lists every index below `n` once.
pub open spec fn lists_all(order: Seq<usize>, n: nat) -> bool {
    &&& order.len() == n
    &&& forall|i: int| 0 <= i < n ==> (#[trigger] order[i]) < n
    &&& forall|i: int, j: int| 0 <= i < j < n ==> order[i] != order[j]
}

/// Whether `a` goes before `b`: its key is larger, or the keys are equal and it
/// came first.
pub open spec fn goes_before(keys: Seq<u64>, a: usize, b: usize) -> bool {
    keys[a as int] > keys[b as int] || (keys[a as int] == keys[b as int] && a < b)
}

/// Whether `order` lists the indices of `keys` from the largest key down, equal
/// keys in the order in which they came.
pub open spec fn largest_first(order: Seq<usize>, keys: Seq<u64>) -> bool {
    &&& lists_all(order, keys.len())
    &&& forall|i: int, j: int|
        0 <= i < j < order.len() ==> goes_before(keys, #[trigger] order[i], #[trigger] order[j])
}

/// The indices of `keys` from the largest key down, equal keys in the order in
/// which they came.
pub fn newest_first(keys: &Vec<u64>) -> (r: Vec<usize>)
    ensures
        largest_first(r@, keys@),
{
    let mut order: Vec<usize> = Vec::new();
    let mut k: usize = 0;
    while k < keys.len()
        invariant
            k <= keys@.len(),
            lists_all(order@, k as nat),
            forall|i: int, j: int|
                0 <= i < j < order@.len() ==> goes_before(
                    keys@,
                    #[trigger] order@[i],
                    #[trigger] order@[j],
                ),
        decreases keys@.len() - k,
    {
        let mut p: usize = order.len();
        while p > 0 && keys[order[p - 1]] < keys[k]
            invariant
                p <= order@.len(),
                k < keys@.len(),
                lists_all(order@, k as nat),
                forall|i: int| p <= i < order@.len() ==> keys@[(#[trigger] order@[i]) as int]
                    < keys@[k as int],
            decreases p,
        {
            p = p - 1;
        }
        let ghost before = order@;
        order.insert(p, k);
        proof {
            let n = before.len() as int;
            assert forall|i: int, j: int| 0 <= i < j < order@.len() implies goes_before(
                keys@,
                #[trigger] order@[i],
                #[trigger] order@[j],
            ) && order@[i] != order@[j] by {
                let bi = if i < p {
                    i
                } else {
                    i - 1
                };
                let bj = if j < p {
                    j
                } else {
                    j - 1
                };
                if i != p {
                    assert(order@[i] == before[bi]);
                }
                if j != p {
                    assert(order@[j] == before[bj]);
                }
                if i == p {
                    assert(keys@[before[bj] as int] < keys@[k as int]);
                } else if j == p {
                    if p > 0 {
                        assert(keys@[before[p - 1] as int] >= keys@[k as int]);
                        if i < p - 1 {
                            assert(goes_before(keys@, before[i], before[p - 1]));
                        }
                    }
                } else {
                    assert(goes_before(keys@, before[bi], before[bj]));
                }
            }
            assert forall|i: int| 0 <= i < order@.len() implies (#[trigger] order@[i]) < k + 1 by {
                if i < p {
                    assert(order@[i] == before[i]);
                } else if i > p {
                    assert(order@[i] == before[i - 1]);
                }
            }
        }
        k = k + 1;
    }
    order
}

/// Whether `order` lists `n` of the first `m` indices of `keys`, or all where there
/// are fewer: those with the largest keys, from the largest key down. What is not
/// listed would go behind all that is.
pub open spec fn largest_among(order: Seq<usize>, keys: Seq<u64>, m: nat, n: nat) -> bool {
    &&& order.len() == if m < n {
        m
    } else {
        n
    }
    &&& forall|i: int| 0 <= i < order.len() ==> (#[trigger] order[i]) < m
    &&& forall|i: int, j: int|
        0 <= i < j < order.len() ==> goes_before(keys, #[trigger] order[i], #[trigger] order[j])
    &&& forall|i: int, x: usize|
        0 <= i < order.len() && x < m && !order.contains(x) ==> #[trigger] goes_before(
            keys,
            order[i],
            x,
        )
}

/// The `n` indices of `keys` with the largest keys, or all where there are fewer,
/// from the largest key down.
pub fn newest_some(keys: &Vec<u64>, n: usize) -> (r: Vec<usize>)
    ensures
        largest_among(r@, keys@, keys@.len(), n as nat),
{
    let mut order: Vec<usize> = Vec::new();
    let mut k: usize = 0;
    while k < keys.len()
        invariant
            k <= keys@.len(),
            largest_among(order@, keys@, k as nat, n as nat),
        decreases keys@.len() - k,
    {
        let ghost before = order@;
        let mut p: usize = order.len();
        while p > 0 && keys[order[p - 1]] < keys[k]
            invariant
                p <= order@.len(),
                k < keys@.len(),
                forall|i: int| 0 <= i < order@.len() ==> (#[trigger] order@[i]) < k,
                forall|i: int| p <= i < order@.len() ==> keys@[(#[trigger] order@[i]) as int]
                    < keys@[k as int],
            decreases p,
        {
            p = p - 1;
        }
        assert forall|i: int| 0 <= i < p implies goes_before(keys@, #[trigger] before[i], k) by {
            if i < p - 1 {
                assert(goes_before(keys@, before[i], before[p - 1]));
            }
        }
        if p < n {
            order.insert(p, k);
            let ghost full = order@;
            proof {
                lemma_inserted(before, full, keys@, k, p as int, n as nat);
            }
            if order.len() > n {
                order.pop();
                proof {
                    lemma_dropped(full, keys@, k + 1);
                    assert(order@ =~= full.drop_last());
                }
            }
        }
        k = k + 1;
    }
    order
}

/// Whether what `order` does not list of the first `m` indices goes behind all that
/// it lists, which is in order.
spec fn leads(order: Seq<usize>, keys: Seq<u64>, m: int) -> bool {
    &&& forall|i: int| 0 <= i < order.len() ==> (#[trigger] order[i]) < m
    &&& forall|i: int, j: int|
        0 <= i < j < order.len() ==> goes_before(keys, #[trigger] order[i], #[trigger] order[j])
    &&& forall|i: int, x: usize|
        0 <= i < order.len() && x < m && !order.contains(x) ==> #[trigger] goes_before(
            keys,
            order[i],
            x,
        )
}

proof fn lemma_inserted(
    before: Seq<usize>,
    full: Seq<usize>,
    keys: Seq<u64>,
    k: usize,
    p: int,
    n: nat,
)
    requires
        largest_among(before, keys, k as nat, n),
        k < keys.len(),
        0 <= p <= before.len(),
        p < n,
        full == before.insert(p, k),
        forall|i: int| 0 <= i < p ==> goes_before(keys, #[trigger] before[i], k),
        forall|i: int| p <= i < before.len() ==> keys[(#[trigger] before[i]) as int]
            < keys[k as int],
    ensures
        leads(full, keys, k + 1),
{
    assert forall|i: int| 0 <= i < full.len() implies full[i] == if i < p {
        before[i]
    } else if i == p {
        k
    } else {
        before[i - 1]
    } by {}
    assert forall|i: int, j: int| 0 <= i < j < full.len() implies goes_before(
        keys,
        #[trigger] full[i],
        #[trigger] full[j],
    ) by {
        if i == p {
            assert(keys[before[j - 1] as int] < keys[k as int]);
        } else if j != p {
            let bi = if i < p { i } else { i - 1 };
            let bj = if j < p { j } else { j - 1 };
            assert(goes_before(keys, before[bi], before[bj]));
        }
    }
    assert forall|i: int, x: usize|
        0 <= i < full.len() && x < k + 1 && !full.contains(x) implies #[trigger] goes_before(
        keys,
        full[i],
        x,
    ) by {
        assert(full[p] == k);
        if before.contains(x) {
            let j = choose|j: int| 0 <= j < before.len() && before[j] == x;
            assert(full[if j < p { j } else { j + 1 }] == x);
        }
        if i < p {
            assert(goes_before(keys, before[i], x));
        } else if i > p {
            assert(goes_before(keys, before[i - 1], x));
        } else if p < before.len() {
            assert(goes_before(keys, before[p], x));
            assert(keys[before[p] as int] < keys[k as int]);
        } else {
            assert(lists_all(before, k as nat)) by {
                assert forall|a: int, b: int| 0 <= a < b < k implies before[a] != before[b] by {
                    assert(goes_before(keys, before[a], before[b]));
                }
            }
            lemma_listed(before, k as nat, x);
        }
    }
}

proof fn lemma_dropped(full: Seq<usize>, keys: Seq<u64>, m: int)
    requires
        leads(full, keys, m),
        full.len() > 0,
    ensures
        leads(full.drop_last(), keys, m),
{
    let kept = full.drop_last();
    assert forall|i: int, x: usize|
        0 <= i < kept.len() && x < m && !kept.contains(x) implies #[trigger] goes_before(
        keys,
        kept[i],
        x,
    ) by {
        assert(kept[i] == full[i]);
        if full.contains(x) {
            let j = choose|j: int| 0 <= j < full.len() && full[j] == x;
            if j < kept.len() {
                assert(kept[j] == x);
            }
            assert(goes_before(keys, full[i], full[j]));
        } else {
            assert(goes_before(keys, full[i], x));
        }
    }
}

/// There is only one such order.
pub proof fn law_order_is_unique(a: Seq<usize>, b: Seq<usize>, keys: Seq<u64>)
    requires
        largest_first(a, keys),
        largest_first(b, keys),
    ensures
        a == b,
{
    lemma_same_up_to(a, b, keys, keys.len() as int);
    assert(a =~= b);
}

proof fn lemma_same_up_to(a: Seq<usize>, b: Seq<usize>, keys: Seq<u64>, n: int)
    requires
        largest_first(a, keys),
        largest_first(b, keys),
        0 <= n <= keys.len(),
    ensures
        forall|i: int| 0 <= i < n ==> a[i] == b[i],
    decreases n,
{
    if n > 0 {
        lemma_same_up_to(a, b, keys, n - 1);
        let x = a[n - 1];
        let y = b[n - 1];
        if x != y {
            lemma_listed(a, keys.len(), y);
            lemma_listed(b, keys.len(), x);
            let i = choose|i: int| 0 <= i < keys.len() && a[i] == y;
            let j = choose|j: int| 0 <= j < keys.len() && b[j] == x;
            if i < n - 1 {
                assert(b[i] == y);
                assert(false);
            }
            if j < n - 1 {
                assert(a[j] == x);
                assert(false);
            }
            assert(goes_before(keys, x, y));
            assert(goes_before(keys, y, x));
        }
    }
}

/// A list of `n` different indices below `n` holds each of them.
proof fn lemma_listed(s: Seq<usize>, n: nat, x: usize)
    requires
        lists_all(s, n),
        x < n,
    ensures
        exists|i: int| 0 <= i < n && s[i] == x,
{
    if !exists|i: int| 0 <= i < n && s[i] == x {
        let t = Seq::new(n, |i: int| s[i] as int);
        let all = Set::<int>::new(|k: int| 0 <= k < n);
        vstd::set_lib::lemma_int_range(0, n as int);
        assert(all =~= vstd::set_lib::set_int_range(0, n as int));
        assert(t.no_duplicates());
        t.unique_seq_to_set();
        let rest = all.remove(x as int);
        assert(t.to_set().subset_of(rest)) by {
            assert forall|v: int| t.to_set().contains(v) implies rest.contains(v) by {
                let i = choose|i: int| 0 <= i < t.len() && t[i] == v;
                assert(s[i] < n);
            }
        }
        vstd::set_lib::lemma_len_subset(t.to_set(), rest);
    }
}

} // verus!
