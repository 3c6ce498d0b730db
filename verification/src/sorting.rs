use vstd::prelude::*;

use crate::text::{lemma_str_lt_asymmetric, lemma_str_lt_irreflexive, lemma_str_lt_total, lemma_str_lt_transitive, str_eq, str_less, str_lt};

verus! {

/// Strictly ascending, so each string once.
pub open spec fn strictly_sorted(s: Seq<Seq<char>>) -> bool {
    forall|i: int, j: int| 0 <= i < j < s.len() ==> str_lt(#[trigger] s[i], #[trigger] s[j])
}

/// `x` put into the ascending list `s`, unless `s` holds it already.
pub open spec fn insert_unique(s: Seq<Seq<char>>, x: Seq<char>) -> Seq<Seq<char>>
    decreases s.len(),
{
    if s.len() == 0 {
        seq![x]
    } else if s[0] == x {
        s
    } else if str_lt(x, s[0]) {
        seq![x] + s
    } else {
        seq![s[0]] + insert_unique(s.drop_first(), x)
    }
}

/// The distinct strings of `s` in ascending order.
pub open spec fn sort_dedup(s: Seq<Seq<char>>) -> Seq<Seq<char>>
    decreases s.len(),
{
    if s.len() == 0 {
        Seq::empty()
    } else {
        insert_unique(sort_dedup(s.drop_last()), s.last())
    }
}

pub proof fn lemma_insert_unique(s: Seq<Seq<char>>, x: Seq<char>)
    requires
        strictly_sorted(s),
    ensures
        strictly_sorted(insert_unique(s, x)),
        forall|y: Seq<char>| #[trigger] insert_unique(s, x).contains(y) <==> (s.contains(y) || y == x),
    decreases s.len(),
{
    let r = insert_unique(s, x);
    if s.len() == 0 {
        assert forall|y: Seq<char>| #[trigger] r.contains(y) <==> (s.contains(y) || y == x) by {
            if r.contains(y) {
                assert(r[0] == y);
            }
            if y == x {
                assert(r[0] == y);
            }
        }
    } else if s[0] == x {
    } else if str_lt(x, s[0]) {
        assert forall|i: int, j: int| 0 <= i < j < r.len() implies str_lt(#[trigger] r[i], #[trigger] r[j]) by {
            if i == 0 {
                if j > 1 {
                    lemma_str_lt_transitive(x, s[0], s[j - 1]);
                }
            } else {
                assert(r[i] == s[i - 1] && r[j] == s[j - 1]);
            }
        }
        assert forall|y: Seq<char>| #[trigger] r.contains(y) <==> (s.contains(y) || y == x) by {
            if r.contains(y) {
                let k = choose|k: int| 0 <= k < r.len() && r[k] == y;
                if k > 0 {
                    assert(s[k - 1] == y);
                }
            }
            if s.contains(y) {
                let k = choose|k: int| 0 <= k < s.len() && s[k] == y;
                assert(r[k + 1] == y);
            }
            if y == x {
                assert(r[0] == y);
            }
        }
    } else {
        let rest = s.drop_first();
        assert(strictly_sorted(rest)) by {
            assert forall|i: int, j: int| 0 <= i < j < rest.len() implies str_lt(#[trigger] rest[i], #[trigger] rest[j]) by {
                assert(rest[i] == s[i + 1] && rest[j] == s[j + 1]);
            }
        }
        lemma_insert_unique(rest, x);
        let tail = insert_unique(rest, x);
        lemma_str_lt_total(x, s[0]);
        assert forall|i: int, j: int| 0 <= i < j < r.len() implies str_lt(#[trigger] r[i], #[trigger] r[j]) by {
            if i == 0 {
                assert(r[j] == tail[j - 1]);
                assert(tail.contains(tail[j - 1]));
                if tail[j - 1] != x {
                    assert(rest.contains(tail[j - 1]));
                    let m = choose|m: int| 0 <= m < rest.len() && rest[m] == tail[j - 1];
                    assert(s[m + 1] == rest[m]);
                }
            } else {
                assert(r[i] == tail[i - 1] && r[j] == tail[j - 1]);
            }
        }
        assert forall|y: Seq<char>| #[trigger] r.contains(y) <==> (s.contains(y) || y == x) by {
            if r.contains(y) {
                let k = choose|k: int| 0 <= k < r.len() && r[k] == y;
                if k > 0 {
                    assert(tail[k - 1] == y);
                    assert(tail.contains(y));
                    if y != x {
                        let m = choose|m: int| 0 <= m < rest.len() && rest[m] == y;
                        assert(s[m + 1] == y);
                    }
                }
            }
            if s.contains(y) {
                let k = choose|k: int| 0 <= k < s.len() && s[k] == y;
                if k == 0 {
                    assert(r[0] == y);
                } else {
                    assert(rest[k - 1] == y);
                    assert(tail.contains(y));
                    let m = choose|m: int| 0 <= m < tail.len() && tail[m] == y;
                    assert(r[m + 1] == y);
                }
            }
            if y == x {
                assert(tail.contains(y));
                let m = choose|m: int| 0 <= m < tail.len() && tail[m] == y;
                assert(r[m + 1] == y);
            }
        }
    }
}

/// The distinct strings, ascending: each of `s` once and nothing else.
pub proof fn lemma_sort_dedup(s: Seq<Seq<char>>)
    ensures
        strictly_sorted(sort_dedup(s)),
        forall|y: Seq<char>| #[trigger] sort_dedup(s).contains(y) <==> s.contains(y),
    decreases s.len(),
{
    if s.len() > 0 {
        lemma_sort_dedup(s.drop_last());
        lemma_insert_unique(sort_dedup(s.drop_last()), s.last());
        assert forall|y: Seq<char>| #[trigger] sort_dedup(s).contains(y) <==> s.contains(y) by {
            if s.drop_last().contains(y) {
                let k = choose|k: int| 0 <= k < s.drop_last().len() && s.drop_last()[k] == y;
                assert(s[k] == y);
            }
            if s.contains(y) && y != s.last() {
                let k = choose|k: int| 0 <= k < s.len() && s[k] == y;
                assert(s.drop_last()[k] == y);
            }
        }
    }
}

/// Puts `x` into the ascending list `v` unless it is there.
pub fn insert_unique_vec(v: &mut Vec<String>, x: String)
    ensures
        final(v)@.map_values(|s: String| s@) == insert_unique(old(v)@.map_values(|s: String| s@), x@),
{
    let ghost o = v@.map_values(|s: String| s@);
    let n = v.len();
    let mut i: usize = 0;
    assert(o.skip(0) =~= o);
    assert(o.take(0) =~= Seq::<Seq<char>>::empty());
    while i < n
        invariant
            n == v.len(),
            v@ == old(v)@,
            o == v@.map_values(|s: String| s@),
            i <= n,
            insert_unique(o, x@) == o.take(i as int) + insert_unique(o.skip(i as int), x@),
        decreases n - i,
    {
        let ghost tail = o.skip(i as int);
        assert(tail[0] == v@[i as int]@);
        if str_eq(v[i].as_str(), x.as_str()) {
            assert(o.take(i as int) + tail =~= o);
            return;
        }
        if str_less(x.as_str(), v[i].as_str()) {
            v.insert(i, x);
            assert(v@.map_values(|s: String| s@) =~= o.take(i as int) + (seq![x@] + tail));
            return;
        }
        assert(tail.drop_first() =~= o.skip(i + 1));
        assert(o.take(i + 1) =~= o.take(i as int) + seq![tail[0]]);
        i = i + 1;
    }
    let ghost xv = x@;
    v.push(x);
    assert(v@.map_values(|s: String| s@) =~= o.take(n as int) + seq![xv]);
    assert(o.take(n as int) =~= o);
}

/// The distinct strings of `v`, ascending.
pub fn sorted_unique(v: Vec<String>) -> (r: Vec<String>)
    ensures
        r@.map_values(|s: String| s@) == sort_dedup(v@.map_values(|s: String| s@)),
{
    let ghost vs = v@.map_values(|s: String| s@);
    let mut r: Vec<String> = Vec::new();
    let mut rest = v;
    let mut i: usize = 0;
    let n = rest.len();
    assert(r@.map_values(|s: String| s@) =~= sort_dedup(vs.take(0)));
    while rest.len() > 0
        invariant
            i + rest@.len() == n,
            n == vs.len(),
            rest@.map_values(|s: String| s@) == vs.skip(i as int),
            r@.map_values(|s: String| s@) == sort_dedup(vs.take(i as int)),
        decreases rest.len(),
    {
        let ghost before = rest@;
        let x = rest.remove(0);
        assert(vs.skip(i as int)[0] == x@);
        assert(vs.take(i + 1).drop_last() =~= vs.take(i as int));
        insert_unique_vec(&mut r, x);
        assert(rest@ =~= before.drop_first());
        assert forall|k: int| 0 <= k < rest@.len() implies rest@[k]@ == vs.skip(i + 1)[k] by {
            assert(rest@[k] == before[k + 1]);
            assert(before.map_values(|s: String| s@)[k + 1] == vs.skip(i as int)[k + 1]);
        }
        assert(rest@.map_values(|s: String| s@) =~= vs.skip(i + 1));
        i = i + 1;
    }
    assert(vs.take(n as int) =~= vs);
    r
}


/// `x` put into `s` after every entry whose key does not sort after its own.
pub open spec fn insert_by_key<T>(s: Seq<(Seq<char>, T)>, x: (Seq<char>, T)) -> Seq<(Seq<char>, T)>
    decreases s.len(),
{
    if s.len() == 0 {
        seq![x]
    } else if str_lt(x.0, s[0].0) {
        seq![x] + s
    } else {
        seq![s[0]] + insert_by_key(s.drop_first(), x)
    }
}

/// A stable sort of keyed entries by key.
pub open spec fn sort_by_key<T>(s: Seq<(Seq<char>, T)>) -> Seq<(Seq<char>, T)>
    decreases s.len(),
{
    if s.len() == 0 {
        Seq::empty()
    } else {
        insert_by_key(sort_by_key(s.drop_last()), s.last())
    }
}

pub open spec fn keyed<T>(v: Seq<(String, T)>) -> Seq<(Seq<char>, T)> {
    v.map_values(|e: (String, T)| (e.0@, e.1))
}

fn insert_by_name<T>(v: &mut Vec<(String, T)>, x: (String, T))
    ensures
        keyed(final(v)@) == insert_by_key(keyed(old(v)@), (x.0@, x.1)),
{
    let ghost o = keyed(v@);
    let ghost xv = (x.0@, x.1);
    let n = v.len();
    let mut i: usize = 0;
    assert(o.skip(0) =~= o);
    assert(o.take(0) =~= Seq::<(Seq<char>, T)>::empty());
    while i < n
        invariant
            n == v.len(),
            v@ == old(v)@,
            o == keyed(v@),
            xv == (x.0@, x.1),
            i <= n,
            insert_by_key(o, xv) == o.take(i as int) + insert_by_key(o.skip(i as int), xv),
        decreases n - i,
    {
        let ghost tail = o.skip(i as int);
        assert(tail[0] == (v@[i as int].0@, v@[i as int].1));
        if crate::text::str_less(x.0.as_str(), v[i].0.as_str()) {
            v.insert(i, x);
            assert(keyed(v@) =~= o.take(i as int) + (seq![xv] + tail));
            return;
        }
        assert(tail.drop_first() =~= o.skip(i + 1));
        assert(o.take(i + 1) =~= o.take(i as int) + seq![tail[0]]);
        i = i + 1;
    }
    v.push(x);
    assert(keyed(v@) =~= o.take(n as int) + seq![xv]);
    assert(o.take(n as int) =~= o);
}

/// The entries of `v` sorted by name, entries with equal names in their order.
pub fn sort_by_name<T>(v: Vec<(String, T)>) -> (r: Vec<(String, T)>)
    ensures
        keyed(r@) == sort_by_key(keyed(v@)),
{
    let ghost all = keyed(v@);
    let mut rest = v;
    let mut sorted: Vec<(String, T)> = Vec::new();
    let n = rest.len();
    let mut i: usize = 0;
    assert(all.take(0) =~= Seq::<(Seq<char>, T)>::empty());
    assert(all.skip(0) =~= all);
    while i < n
        invariant
            i <= n,
            n == all.len(),
            keyed(rest@) == all.skip(i as int),
            rest.len() == n - i,
            keyed(sorted@) == sort_by_key(all.take(i as int)),
        decreases n - i,
    {
        let ghost before = keyed(rest@);
        let x = rest.remove(0);
        assert(before[0] == (x.0@, x.1));
        assert(keyed(rest@) =~= before.drop_first());
        assert(all.skip(i + 1) =~= before.drop_first());
        assert(all.take(i + 1).drop_last() =~= all.take(i as int));
        assert(all.take(i + 1).last() == all[i as int]);
        assert(all[i as int] == before[0]);
        insert_by_name(&mut sorted, x);
        i = i + 1;
    }
    assert(all.take(n as int) =~= all);
    sorted
}


pub open spec fn map_entries<T, U>(s: Seq<(Seq<char>, T)>, f: spec_fn(T) -> U) -> Seq<(Seq<char>, U)> {
    s.map_values(|e: (Seq<char>, T)| (e.0, f(e.1)))
}

proof fn lemma_insert_by_key_map<T, U>(s: Seq<(Seq<char>, T)>, x: (Seq<char>, T), f: spec_fn(T) -> U)
    ensures
        map_entries(insert_by_key(s, x), f) == insert_by_key(map_entries(s, f), (x.0, f(x.1))),
    decreases s.len(),
{
    let ms = map_entries(s, f);
    if s.len() == 0 {
        assert(map_entries(seq![x], f) =~= seq![(x.0, f(x.1))]);
    } else if str_lt(x.0, s[0].0) {
        assert(map_entries(seq![x] + s, f) =~= seq![(x.0, f(x.1))] + ms);
    } else {
        lemma_insert_by_key_map(s.drop_first(), x, f);
        assert(ms.drop_first() =~= map_entries(s.drop_first(), f));
        assert(map_entries(seq![s[0]] + insert_by_key(s.drop_first(), x), f) =~= seq![ms[0]]
            + map_entries(insert_by_key(s.drop_first(), x), f));
    }
}

/// Sorting by key and changing what each entry holds (but not its key) commute.
pub proof fn lemma_sort_by_key_map<T, U>(s: Seq<(Seq<char>, T)>, f: spec_fn(T) -> U)
    ensures
        map_entries(sort_by_key(s), f) == sort_by_key(map_entries(s, f)),
    decreases s.len(),
{
    if s.len() > 0 {
        lemma_sort_by_key_map(s.drop_last(), f);
        lemma_insert_by_key_map(sort_by_key(s.drop_last()), s.last(), f);
        assert(map_entries(s, f).drop_last() =~= map_entries(s.drop_last(), f));
    } else {
        assert(map_entries(s, f) =~= Seq::<(Seq<char>, U)>::empty());
        assert(map_entries(sort_by_key(s), f) =~= Seq::<(Seq<char>, U)>::empty());
    }
}


/// The keys of `s` in order: no entry's key sorts before the key of an entry ahead of it.
pub open spec fn sorted_by_key<T>(s: Seq<(Seq<char>, T)>) -> bool {
    forall|i: int, j: int| 0 <= i < j < s.len() ==> !str_lt(#[trigger] s[j].0, #[trigger] s[i].0)
}

proof fn lemma_insert_by_key_sorted<T>(s: Seq<(Seq<char>, T)>, x: (Seq<char>, T)) -> (k: int)
    requires
        sorted_by_key(s),
    ensures
        0 <= k <= s.len(),
        insert_by_key(s, x) == s.insert(k, x),
        sorted_by_key(insert_by_key(s, x)),
    decreases s.len(),
{
    if s.len() == 0 {
        assert(seq![x] =~= s.insert(0, x));
        0
    } else if str_lt(x.0, s[0].0) {
        let r = seq![x] + s;
        assert(r =~= s.insert(0, x));
        assert forall|i: int, j: int| 0 <= i < j < r.len() implies !str_lt(#[trigger] r[j].0, #[trigger] r[i].0) by {
            if i == 0 {
                assert(r[j] == s[j - 1]);
                if str_lt(s[j - 1].0, x.0) {
                    lemma_str_lt_transitive(s[j - 1].0, x.0, s[0].0);
                    if j - 1 == 0 {
                        lemma_str_lt_irreflexive(s[0].0);
                    }
                }
            } else {
                assert(r[i] == s[i - 1] && r[j] == s[j - 1]);
            }
        }
        0
    } else {
        let rest = s.drop_first();
        assert forall|i: int, j: int| 0 <= i < j < rest.len() implies !str_lt(#[trigger] rest[j].0, #[trigger] rest[i].0) by {
            assert(rest[i] == s[i + 1] && rest[j] == s[j + 1]);
        }
        let k = lemma_insert_by_key_sorted(rest, x);
        let tail = insert_by_key(rest, x);
        let r = seq![s[0]] + tail;
        assert(r =~= s.insert(k + 1, x));
        assert forall|i: int, j: int| 0 <= i < j < r.len() implies !str_lt(#[trigger] r[j].0, #[trigger] r[i].0) by {
            if i == 0 {
                assert(r[j] == tail[j - 1]);
                if j - 1 < k {
                    assert(tail[j - 1] == rest[j - 1]);
                    assert(s[j] == rest[j - 1]);
                } else if j - 1 > k {
                    assert(tail[j - 1] == rest[j - 2]);
                    assert(s[j - 1] == rest[j - 2]);
                }
            } else {
                assert(r[i] == tail[i - 1] && r[j] == tail[j - 1]);
            }
        }
        k + 1
    }
}

/// The stable sort by key puts the keys in order and keeps every entry, each as
/// often as before.
pub proof fn lemma_sort_by_key_sorted<T>(s: Seq<(Seq<char>, T)>)
    ensures
        sorted_by_key(sort_by_key(s)),
        sort_by_key(s).to_multiset() == s.to_multiset(),
    decreases s.len(),
{
    broadcast use vstd::seq_lib::group_to_multiset_ensures;

    if s.len() == 0 {
        assert(sort_by_key(s) =~= s);
    } else {
        let init = s.drop_last();
        lemma_sort_by_key_sorted(init);
        let k = lemma_insert_by_key_sorted(sort_by_key(init), s.last());
        assert(s =~= init.push(s.last()));
        assert(sort_by_key(s).to_multiset() == sort_by_key(init).to_multiset().insert(s.last()));
        assert(s.to_multiset() == init.to_multiset().insert(s.last()));
    }
}

}
