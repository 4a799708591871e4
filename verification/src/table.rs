//! Ordered association sequences: the mathematical model of every map in the
//! engine. The module table and the per-module name maps are sequences of
//! key/value pairs kept in strictly ascending key order; submodule sets are
//! sequences of strings kept in the same order.

use crate::order::lemma_lex_lt_connected;
use crate::order::lemma_lex_lt_irrefl;
use crate::order::lemma_lex_lt_trans;
use crate::order::lex_lt;
use vstd::prelude::*;

verus! {

// ---------------------------------------------------------------------------
// String-keyed association sequences
// ---------------------------------------------------------------------------

/// Keys appear in strictly ascending lexicographic order (hence are unique).
pub open spec fn keys_sorted<V>(s: Seq<(Seq<char>, V)>) -> bool {
    forall|i: int, j: int| 0 <= i < j < s.len() ==> lex_lt(s[i].0, s[j].0)
}

/// The value under the first entry whose key equals `k`.
pub open spec fn assoc_get<V>(s: Seq<(Seq<char>, V)>, k: Seq<char>) -> Option<V>
    decreases s.len(),
{
    if s.len() == 0 {
        None
    } else if s[0].0 == k {
        Some(s[0].1)
    } else {
        assoc_get(s.drop_first(), k)
    }
}

/// Binds `k` to `v`: replaces the entry holding `k`, or inserts a new entry
/// at the position that keeps the keys in ascending order.
pub open spec fn assoc_put<V>(s: Seq<(Seq<char>, V)>, k: Seq<char>, v: V) -> Seq<(Seq<char>, V)>
    decreases s.len(),
{
    if s.len() == 0 {
        seq![(k, v)]
    } else if lex_lt(s[0].0, k) {
        seq![s[0]] + assoc_put(s.drop_first(), k, v)
    } else if s[0].0 == k {
        seq![(k, v)] + s.drop_first()
    } else {
        seq![(k, v)] + s
    }
}

/// The keys of `s`, in entry order.
pub open spec fn assoc_keys<V>(s: Seq<(Seq<char>, V)>) -> Seq<Seq<char>> {
    s.map_values(|p: (Seq<char>, V)| p.0)
}

/// An entry with a key below every key of `s` is skipped by `assoc_put`.
pub proof fn lemma_put_skip<V>(s: Seq<(Seq<char>, V)>, k: Seq<char>, v: V, n: int)
    requires
        0 <= n <= s.len(),
        forall|j: int| 0 <= j < n ==> lex_lt(s[j].0, k),
    ensures
        assoc_put(s, k, v) == s.take(n) + assoc_put(s.skip(n), k, v),
    decreases n,
{
    if n == 0 {
        assert(s.take(0) + assoc_put(s.skip(0), k, v) =~= assoc_put(s.skip(0), k, v));
        assert(s.skip(0) =~= s);
    } else {
        assert(lex_lt(s[0].0, k));
        lemma_put_skip(s.drop_first(), k, v, n - 1);
        assert(s.drop_first().take(n - 1) =~= s.take(n).drop_first());
        assert(s.drop_first().skip(n - 1) =~= s.skip(n));
        assert(seq![s[0]] + (s.drop_first().take(n - 1) + assoc_put(s.drop_first().skip(n - 1), k, v))
            =~= s.take(n) + assoc_put(s.skip(n), k, v));
    }
}

/// Replacing the value at index `n`, whose key is `k` and whose predecessors
/// all lie below `k`, is `assoc_put`.
pub proof fn lemma_put_found<V>(s: Seq<(Seq<char>, V)>, k: Seq<char>, v: V, n: int)
    requires
        0 <= n < s.len(),
        forall|j: int| 0 <= j < n ==> lex_lt(s[j].0, k),
        s[n].0 == k,
    ensures
        assoc_put(s, k, v) == s.update(n, (k, v)),
{
    lemma_put_skip(s, k, v, n);
    lemma_lex_lt_irrefl(k);
    assert(s.skip(n)[0] == s[n]);
    assert(assoc_put(s.skip(n), k, v) == seq![(k, v)] + s.skip(n).drop_first());
    assert(s.skip(n).drop_first() =~= s.skip(n + 1));
    assert(s.take(n) + (seq![(k, v)] + s.skip(n + 1)) =~= s.update(n, (k, v)));
}

/// Inserting at index `n`, where every predecessor lies below `k` and the
/// entry at `n` (if any) does not, is `assoc_put` for a fresh key.
pub proof fn lemma_put_inserted<V>(s: Seq<(Seq<char>, V)>, k: Seq<char>, v: V, n: int)
    requires
        0 <= n <= s.len(),
        forall|j: int| 0 <= j < n ==> lex_lt(s[j].0, k),
        n < s.len() ==> !lex_lt(s[n].0, k) && s[n].0 != k,
    ensures
        assoc_put(s, k, v) == s.insert(n, (k, v)),
{
    lemma_put_skip(s, k, v, n);
    if n == s.len() {
        assert(s.skip(n) =~= Seq::<(Seq<char>, V)>::empty());
        assert(s.take(n) + seq![(k, v)] =~= s.insert(n, (k, v)));
    } else {
        assert(s.skip(n)[0] == s[n]);
        assert(assoc_put(s.skip(n), k, v) == seq![(k, v)] + s.skip(n));
        assert(s.take(n) + (seq![(k, v)] + s.skip(n)) =~= s.insert(n, (k, v)));
    }
}

/// Binding the same key twice keeps only the second value.
pub proof fn lemma_put_put<V>(s: Seq<(Seq<char>, V)>, k: Seq<char>, v1: V, v2: V)
    ensures
        assoc_put(assoc_put(s, k, v1), k, v2) == assoc_put(s, k, v2),
    decreases s.len(),
{
    lemma_lex_lt_irrefl(k);
    if s.len() == 0 {
        assert(assoc_put(assoc_put(s, k, v1), k, v2) =~= assoc_put(s, k, v2));
    } else if lex_lt(s[0].0, k) {
        lemma_put_put(s.drop_first(), k, v1, v2);
        assert((seq![s[0]] + assoc_put(s.drop_first(), k, v1)).drop_first()
            =~= assoc_put(s.drop_first(), k, v1));
        assert(seq![s[0]] + assoc_put(assoc_put(s.drop_first(), k, v1), k, v2)
            =~= assoc_put(assoc_put(s, k, v1), k, v2));
    } else {
        let s1 = assoc_put(s, k, v1);
        assert(s1[0] == (k, v1));
        assert(s1.drop_first() =~= if s[0].0 == k { s.drop_first() } else { s });
        assert(assoc_put(s1, k, v2) =~= assoc_put(s, k, v2));
    }
}

/// In a sorted sequence, a key that would sit at index `n` and is not there
/// is bound nowhere.
pub proof fn lemma_sorted_get_none<V>(s: Seq<(Seq<char>, V)>, k: Seq<char>, n: int)
    requires
        keys_sorted(s),
        0 <= n <= s.len(),
        forall|j: int| 0 <= j < n ==> lex_lt(s[j].0, k),
        n < s.len() ==> !lex_lt(s[n].0, k) && s[n].0 != k,
    ensures
        assoc_get(s, k) == None::<V>,
    decreases s.len(),
{
    lemma_lex_lt_irrefl(k);
    if s.len() == 0 {
    } else if n == 0 {
        // every entry is at or above s[0], which is not k and not below k
        assert(s[0].0 != k);
        assert forall|j: int| 1 <= j < s.len() implies s[j].0 != k by {
            assert(lex_lt(s[0].0, s[j].0));
            if s[j].0 == k {
                lemma_lex_lt_connected(s[0].0, k);
            }
        }
        lemma_all_diff_get_none(s, k);
    } else {
        assert(s[0].0 != k) by {
            if s[0].0 == k {
                assert(lex_lt(s[0].0, k));
            }
        }
        assert(keys_sorted(s.drop_first()));
        assert(forall|j: int| 0 <= j < n - 1 ==> lex_lt(s.drop_first()[j].0, k));
        if n - 1 < s.drop_first().len() {
            assert(s.drop_first()[n - 1] == s[n]);
        }
        lemma_sorted_get_none(s.drop_first(), k, n - 1);
    }
}

/// A key equal to no entry's key is bound nowhere.
pub proof fn lemma_all_diff_get_none<V>(s: Seq<(Seq<char>, V)>, k: Seq<char>)
    requires
        forall|j: int| 0 <= j < s.len() ==> s[j].0 != k,
    ensures
        assoc_get(s, k) == None::<V>,
    decreases s.len(),
{
    if s.len() > 0 {
        lemma_all_diff_get_none(s.drop_first(), k);
    }
}

/// The first entry whose key equals `k`, at an index whose predecessors all
/// hold other keys, is what `assoc_get` returns.
pub proof fn lemma_get_at<V>(s: Seq<(Seq<char>, V)>, k: Seq<char>, n: int)
    requires
        0 <= n < s.len(),
        forall|j: int| 0 <= j < n ==> s[j].0 != k,
        s[n].0 == k,
    ensures
        assoc_get(s, k) == Some(s[n].1),
    decreases n,
{
    if n > 0 {
        lemma_get_at(s.drop_first(), k, n - 1);
    }
}

/// `assoc_put` keeps the keys sorted.
pub proof fn lemma_put_sorted<V>(s: Seq<(Seq<char>, V)>, k: Seq<char>, v: V)
    requires
        keys_sorted(s),
    ensures
        keys_sorted(assoc_put(s, k, v)),
    decreases s.len(),
{
    let s1 = assoc_put(s, k, v);
    if s.len() == 0 {
    } else if lex_lt(s[0].0, k) {
        assert(keys_sorted(s.drop_first()));
        lemma_put_sorted(s.drop_first(), k, v);
        let tail = assoc_put(s.drop_first(), k, v);
        // every key of the tail result is either a tail key or k; both lie above s[0]
        assert forall|j: int| 0 <= j < tail.len() implies lex_lt(s[0].0, tail[j].0) by {
            lemma_put_key_source(s.drop_first(), k, v, j);
            if tail[j].0 != k {
                let jj = choose|jj: int|
                    0 <= jj < s.drop_first().len() && s.drop_first()[jj].0 == tail[j].0;
                assert(lex_lt(s[0].0, s[jj + 1].0));
            }
        }
        assert(s1 == seq![s[0]] + tail);
        assert forall|i: int, j: int| 0 <= i < j < s1.len() implies lex_lt(s1[i].0, s1[j].0) by {
            if i > 0 {
                assert(s1[i] == tail[i - 1]);
                assert(s1[j] == tail[j - 1]);
            } else {
                assert(s1[j] == tail[j - 1]);
            }
        }
    } else if s[0].0 == k {
        assert(s1 == seq![(k, v)] + s.drop_first());
        assert forall|i: int, j: int| 0 <= i < j < s1.len() implies lex_lt(s1[i].0, s1[j].0) by {
            if i == 0 {
                assert(s1[j].0 == s[j].0);
                assert(lex_lt(s[0].0, s[j].0));
            } else {
                assert(s1[i].0 == s[i].0);
                assert(s1[j].0 == s[j].0);
            }
        }
    } else {
        if !lex_lt(k, s[0].0) {
            lemma_lex_lt_connected(s[0].0, k);
        }
        assert(lex_lt(k, s[0].0));
        assert(s1 == seq![(k, v)] + s);
        assert forall|i: int, j: int| 0 <= i < j < s1.len() implies lex_lt(s1[i].0, s1[j].0) by {
            if i == 0 {
                assert(s1[j].0 == s[j - 1].0);
                if j > 1 {
                    assert(lex_lt(s[0].0, s[j - 1].0));
                    lemma_lex_lt_trans(k, s[0].0, s[j - 1].0);
                }
            } else {
                assert(s1[i].0 == s[i - 1].0);
                assert(s1[j].0 == s[j - 1].0);
            }
        }
    }
}

/// Every key of `assoc_put(s, k, v)` is `k` or a key of `s`.
pub proof fn lemma_put_key_source<V>(s: Seq<(Seq<char>, V)>, k: Seq<char>, v: V, i: int)
    requires
        0 <= i < assoc_put(s, k, v).len(),
    ensures
        assoc_put(s, k, v)[i].0 == k || exists|j: int|
            0 <= j < s.len() && s[j].0 == assoc_put(s, k, v)[i].0,
    decreases s.len(),
{
    let s1 = assoc_put(s, k, v);
    if s.len() == 0 {
    } else if lex_lt(s[0].0, k) {
        assert(s1 == seq![s[0]] + assoc_put(s.drop_first(), k, v));
        if i == 0 {
            assert(s[0].0 == s1[0].0);
        } else {
            lemma_put_key_source(s.drop_first(), k, v, i - 1);
            if s1[i].0 != k {
                let j = choose|j: int|
                    0 <= j < s.drop_first().len() && s.drop_first()[j].0 == s1[i].0;
                assert(s[j + 1].0 == s1[i].0);
            }
        }
    } else if s[0].0 == k {
        if i > 0 {
            assert(s1[i] == s[i]);
        }
    } else {
        if i > 0 {
            assert(s1[i] == s[i - 1]);
        }
    }
}

/// Binding a key that is already present keeps the key sequence unchanged.
pub proof fn lemma_put_keys_existing<V>(s: Seq<(Seq<char>, V)>, k: Seq<char>, v: V, n: int)
    requires
        0 <= n < s.len(),
        forall|j: int| 0 <= j < n ==> lex_lt(s[j].0, k),
        s[n].0 == k,
    ensures
        assoc_keys(assoc_put(s, k, v)) == assoc_keys(s),
{
    lemma_put_found(s, k, v, n);
    assert(assoc_keys(s.update(n, (k, v))) =~= assoc_keys(s));
}

// ---------------------------------------------------------------------------
// u64-keyed association sequences
// ---------------------------------------------------------------------------

/// Keys appear in strictly ascending numeric order.
pub open spec fn id_keys_sorted<V>(s: Seq<(u64, V)>) -> bool {
    forall|i: int, j: int| 0 <= i < j < s.len() ==> s[i].0 < s[j].0
}

/// The value under the first entry whose key equals `k`.
pub open spec fn id_get<V>(s: Seq<(u64, V)>, k: u64) -> Option<V>
    decreases s.len(),
{
    if s.len() == 0 {
        None
    } else if s[0].0 == k {
        Some(s[0].1)
    } else {
        id_get(s.drop_first(), k)
    }
}

pub open spec fn id_has<V>(s: Seq<(u64, V)>, k: u64) -> bool {
    id_get(s, k) is Some
}

/// Binds `k` to `v`, keeping keys in ascending order.
pub open spec fn id_put<V>(s: Seq<(u64, V)>, k: u64, v: V) -> Seq<(u64, V)>
    decreases s.len(),
{
    if s.len() == 0 {
        seq![(k, v)]
    } else if s[0].0 < k {
        seq![s[0]] + id_put(s.drop_first(), k, v)
    } else if s[0].0 == k {
        seq![(k, v)] + s.drop_first()
    } else {
        seq![(k, v)] + s
    }
}

pub proof fn lemma_id_put_skip<V>(s: Seq<(u64, V)>, k: u64, v: V, n: int)
    requires
        0 <= n <= s.len(),
        forall|j: int| 0 <= j < n ==> s[j].0 < k,
    ensures
        id_put(s, k, v) == s.take(n) + id_put(s.skip(n), k, v),
    decreases n,
{
    if n == 0 {
        assert(s.take(0) + id_put(s.skip(0), k, v) =~= id_put(s.skip(0), k, v));
        assert(s.skip(0) =~= s);
    } else {
        lemma_id_put_skip(s.drop_first(), k, v, n - 1);
        assert(s.drop_first().take(n - 1) =~= s.take(n).drop_first());
        assert(s.drop_first().skip(n - 1) =~= s.skip(n));
        assert(seq![s[0]] + (s.drop_first().take(n - 1) + id_put(s.drop_first().skip(n - 1), k, v))
            =~= s.take(n) + id_put(s.skip(n), k, v));
    }
}

pub proof fn lemma_id_put_found<V>(s: Seq<(u64, V)>, k: u64, v: V, n: int)
    requires
        0 <= n < s.len(),
        forall|j: int| 0 <= j < n ==> s[j].0 < k,
        s[n].0 == k,
    ensures
        id_put(s, k, v) == s.update(n, (k, v)),
{
    lemma_id_put_skip(s, k, v, n);
    assert(s.skip(n)[0] == s[n]);
    assert(id_put(s.skip(n), k, v) == seq![(k, v)] + s.skip(n).drop_first());
    assert(s.skip(n).drop_first() =~= s.skip(n + 1));
    assert(s.take(n) + (seq![(k, v)] + s.skip(n + 1)) =~= s.update(n, (k, v)));
}

pub proof fn lemma_id_put_inserted<V>(s: Seq<(u64, V)>, k: u64, v: V, n: int)
    requires
        0 <= n <= s.len(),
        forall|j: int| 0 <= j < n ==> s[j].0 < k,
        n < s.len() ==> s[n].0 > k,
    ensures
        id_put(s, k, v) == s.insert(n, (k, v)),
{
    lemma_id_put_skip(s, k, v, n);
    if n == s.len() {
        assert(s.skip(n) =~= Seq::<(u64, V)>::empty());
        assert(s.take(n) + seq![(k, v)] =~= s.insert(n, (k, v)));
    } else {
        assert(s.skip(n)[0] == s[n]);
        assert(id_put(s.skip(n), k, v) == seq![(k, v)] + s.skip(n));
        assert(s.take(n) + (seq![(k, v)] + s.skip(n)) =~= s.insert(n, (k, v)));
    }
}

pub proof fn lemma_id_all_diff_get_none<V>(s: Seq<(u64, V)>, k: u64)
    requires
        forall|j: int| 0 <= j < s.len() ==> s[j].0 != k,
    ensures
        id_get(s, k) == None::<V>,
    decreases s.len(),
{
    if s.len() > 0 {
        lemma_id_all_diff_get_none(s.drop_first(), k);
    }
}

pub proof fn lemma_id_get_at<V>(s: Seq<(u64, V)>, k: u64, n: int)
    requires
        0 <= n < s.len(),
        forall|j: int| 0 <= j < n ==> s[j].0 != k,
        s[n].0 == k,
    ensures
        id_get(s, k) == Some(s[n].1),
    decreases n,
{
    if n > 0 {
        lemma_id_get_at(s.drop_first(), k, n - 1);
    }
}

pub proof fn lemma_id_put_sorted<V>(s: Seq<(u64, V)>, k: u64, v: V)
    requires
        id_keys_sorted(s),
    ensures
        id_keys_sorted(id_put(s, k, v)),
    decreases s.len(),
{
    let s1 = id_put(s, k, v);
    if s.len() == 0 {
    } else if s[0].0 < k {
        assert(id_keys_sorted(s.drop_first()));
        lemma_id_put_sorted(s.drop_first(), k, v);
        let tail = id_put(s.drop_first(), k, v);
        assert forall|j: int| 0 <= j < tail.len() implies s[0].0 < tail[j].0 by {
            lemma_id_put_key_source(s.drop_first(), k, v, j);
            if tail[j].0 != k {
                let jj = choose|jj: int|
                    0 <= jj < s.drop_first().len() && s.drop_first()[jj].0 == tail[j].0;
                assert(s[0].0 < s[jj + 1].0);
            }
        }
        assert(s1 == seq![s[0]] + tail);
        assert forall|i: int, j: int| 0 <= i < j < s1.len() implies s1[i].0 < s1[j].0 by {
            if i > 0 {
                assert(s1[i] == tail[i - 1]);
                assert(s1[j] == tail[j - 1]);
            } else {
                assert(s1[j] == tail[j - 1]);
            }
        }
    } else if s[0].0 == k {
        assert(s1 == seq![(k, v)] + s.drop_first());
        assert forall|i: int, j: int| 0 <= i < j < s1.len() implies s1[i].0 < s1[j].0 by {
            if i == 0 {
                assert(s1[j].0 == s[j].0);
            } else {
                assert(s1[i].0 == s[i].0);
                assert(s1[j].0 == s[j].0);
            }
        }
    } else {
        assert(s1 == seq![(k, v)] + s);
        assert forall|i: int, j: int| 0 <= i < j < s1.len() implies s1[i].0 < s1[j].0 by {
            if i == 0 {
                assert(s1[j].0 == s[j - 1].0);
                if j > 1 {
                    assert(s[0].0 < s[j - 1].0);
                }
            } else {
                assert(s1[i].0 == s[i - 1].0);
                assert(s1[j].0 == s[j - 1].0);
            }
        }
    }
}

pub proof fn lemma_id_put_key_source<V>(s: Seq<(u64, V)>, k: u64, v: V, i: int)
    requires
        0 <= i < id_put(s, k, v).len(),
    ensures
        id_put(s, k, v)[i].0 == k || exists|j: int|
            0 <= j < s.len() && s[j].0 == id_put(s, k, v)[i].0,
    decreases s.len(),
{
    let s1 = id_put(s, k, v);
    if s.len() == 0 {
    } else if s[0].0 < k {
        assert(s1 == seq![s[0]] + id_put(s.drop_first(), k, v));
        if i == 0 {
            assert(s[0].0 == s1[0].0);
        } else {
            lemma_id_put_key_source(s.drop_first(), k, v, i - 1);
            if s1[i].0 != k {
                let j = choose|j: int|
                    0 <= j < s.drop_first().len() && s.drop_first()[j].0 == s1[i].0;
                assert(s[j + 1].0 == s1[i].0);
            }
        }
    } else if s[0].0 == k {
        if i > 0 {
            assert(s1[i] == s[i]);
        }
    } else {
        if i > 0 {
            assert(s1[i] == s[i - 1]);
        }
    }
}

// ---------------------------------------------------------------------------
// Sorted string sets
// ---------------------------------------------------------------------------

/// Elements appear in strictly ascending lexicographic order.
pub open spec fn set_sorted(s: Seq<Seq<char>>) -> bool {
    forall|i: int, j: int| 0 <= i < j < s.len() ==> lex_lt(s[i], s[j])
}

/// Adds `x` at the position that keeps the elements in ascending order;
/// an element already present is kept once.
pub open spec fn set_put(s: Seq<Seq<char>>, x: Seq<char>) -> Seq<Seq<char>>
    decreases s.len(),
{
    if s.len() == 0 {
        seq![x]
    } else if lex_lt(s[0], x) {
        seq![s[0]] + set_put(s.drop_first(), x)
    } else if s[0] == x {
        s
    } else {
        seq![x] + s
    }
}

pub proof fn lemma_set_put_skip(s: Seq<Seq<char>>, x: Seq<char>, n: int)
    requires
        0 <= n <= s.len(),
        forall|j: int| 0 <= j < n ==> lex_lt(s[j], x),
    ensures
        set_put(s, x) == s.take(n) + set_put(s.skip(n), x),
    decreases n,
{
    if n == 0 {
        assert(s.take(0) + set_put(s.skip(0), x) =~= set_put(s.skip(0), x));
        assert(s.skip(0) =~= s);
    } else {
        lemma_set_put_skip(s.drop_first(), x, n - 1);
        assert(s.drop_first().take(n - 1) =~= s.take(n).drop_first());
        assert(s.drop_first().skip(n - 1) =~= s.skip(n));
        assert(seq![s[0]] + (s.drop_first().take(n - 1) + set_put(s.drop_first().skip(n - 1), x))
            =~= s.take(n) + set_put(s.skip(n), x));
    }
}

pub proof fn lemma_set_put_found(s: Seq<Seq<char>>, x: Seq<char>, n: int)
    requires
        0 <= n < s.len(),
        forall|j: int| 0 <= j < n ==> lex_lt(s[j], x),
        s[n] == x,
    ensures
        set_put(s, x) == s,
{
    lemma_set_put_skip(s, x, n);
    lemma_lex_lt_irrefl(x);
    assert(s.skip(n)[0] == s[n]);
    assert(set_put(s.skip(n), x) == s.skip(n));
    assert(s.take(n) + s.skip(n) =~= s);
}

pub proof fn lemma_set_put_inserted(s: Seq<Seq<char>>, x: Seq<char>, n: int)
    requires
        0 <= n <= s.len(),
        forall|j: int| 0 <= j < n ==> lex_lt(s[j], x),
        n < s.len() ==> !lex_lt(s[n], x) && s[n] != x,
    ensures
        set_put(s, x) == s.insert(n, x),
{
    lemma_set_put_skip(s, x, n);
    if n == s.len() {
        assert(s.skip(n) =~= Seq::<Seq<char>>::empty());
        assert(s.take(n) + seq![x] =~= s.insert(n, x));
    } else {
        assert(s.skip(n)[0] == s[n]);
        assert(set_put(s.skip(n), x) == seq![x] + s.skip(n));
        assert(s.take(n) + (seq![x] + s.skip(n)) =~= s.insert(n, x));
    }
}

pub proof fn lemma_set_put_sorted(s: Seq<Seq<char>>, x: Seq<char>)
    requires
        set_sorted(s),
    ensures
        set_sorted(set_put(s, x)),
    decreases s.len(),
{
    let s1 = set_put(s, x);
    if s.len() == 0 {
    } else if lex_lt(s[0], x) {
        assert(set_sorted(s.drop_first()));
        lemma_set_put_sorted(s.drop_first(), x);
        let tail = set_put(s.drop_first(), x);
        assert forall|j: int| 0 <= j < tail.len() implies lex_lt(s[0], tail[j]) by {
            lemma_set_put_source(s.drop_first(), x, j);
            if tail[j] != x {
                let jj = choose|jj: int|
                    0 <= jj < s.drop_first().len() && s.drop_first()[jj] == tail[j];
                assert(lex_lt(s[0], s[jj + 1]));
            }
        }
        assert(s1 == seq![s[0]] + tail);
        assert forall|i: int, j: int| 0 <= i < j < s1.len() implies lex_lt(s1[i], s1[j]) by {
            if i > 0 {
                assert(s1[i] == tail[i - 1]);
                assert(s1[j] == tail[j - 1]);
            } else {
                assert(s1[j] == tail[j - 1]);
            }
        }
    } else if s[0] == x {
    } else {
        if !lex_lt(x, s[0]) {
            lemma_lex_lt_connected(s[0], x);
        }
        assert(lex_lt(x, s[0]));
        assert(s1 == seq![x] + s);
        assert forall|i: int, j: int| 0 <= i < j < s1.len() implies lex_lt(s1[i], s1[j]) by {
            if i == 0 {
                assert(s1[j] == s[j - 1]);
                if j > 1 {
                    lemma_lex_lt_trans(x, s[0], s[j - 1]);
                }
            } else {
                assert(s1[i] == s[i - 1]);
                assert(s1[j] == s[j - 1]);
            }
        }
    }
}

pub proof fn lemma_set_put_source(s: Seq<Seq<char>>, x: Seq<char>, i: int)
    requires
        0 <= i < set_put(s, x).len(),
    ensures
        set_put(s, x)[i] == x || exists|j: int| 0 <= j < s.len() && s[j] == set_put(s, x)[i],
    decreases s.len(),
{
    let s1 = set_put(s, x);
    if s.len() == 0 {
    } else if lex_lt(s[0], x) {
        assert(s1 == seq![s[0]] + set_put(s.drop_first(), x));
        if i == 0 {
            assert(s[0] == s1[0]);
        } else {
            lemma_set_put_source(s.drop_first(), x, i - 1);
            if s1[i] != x {
                let j = choose|j: int|
                    0 <= j < s.drop_first().len() && s.drop_first()[j] == s1[i];
                assert(s[j + 1] == s1[i]);
            }
        }
    } else if s[0] == x {
    } else {
        if i > 0 {
            assert(s1[i] == s[i - 1]);
        }
    }
}

// ---------------------------------------------------------------------------
// Position scans over the exec vectors that realize these sequences
// ---------------------------------------------------------------------------

/// First index whose key is not below `key`; the insertion point in an
/// ascending u64-keyed vector.
pub fn id_pos<T>(v: &Vec<(u64, T)>, key: u64) -> (n: usize)
    ensures
        n <= v@.len(),
        forall|j: int| 0 <= j < n ==> v@[j].0 < key,
        n < v@.len() ==> v@[n as int].0 >= key,
{
    let mut n: usize = 0;
    while n < v.len()
        invariant
            n <= v@.len(),
            forall|j: int| 0 <= j < n ==> v@[j].0 < key,
        decreases v@.len() - n,
    {
        if v[n].0 >= key {
            return n;
        }
        n += 1;
    }
    n
}

/// First index whose key equals `key`, if any.
pub fn id_find<T>(v: &Vec<(u64, T)>, key: u64) -> (r: Option<usize>)
    ensures
        match r {
            Some(i) => i < v@.len() && v@[i as int].0 == key && (forall|j: int|
                0 <= j < i ==> v@[j].0 != key),
            None => forall|j: int| 0 <= j < v@.len() ==> v@[j].0 != key,
        },
{
    let mut n: usize = 0;
    while n < v.len()
        invariant
            n <= v@.len(),
            forall|j: int| 0 <= j < n ==> v@[j].0 != key,
        decreases v@.len() - n,
    {
        if v[n].0 == key {
            return Some(n);
        }
        n += 1;
    }
    None
}

/// First index whose key is not below `key`; the insertion point in an
/// ascending string-keyed vector.
pub fn str_pos<T>(v: &Vec<(String, T)>, key: &String) -> (n: usize)
    ensures
        n <= v@.len(),
        forall|j: int| 0 <= j < n ==> lex_lt(v@[j].0@, key@),
        n < v@.len() ==> !lex_lt(v@[n as int].0@, key@),
{
    let mut n: usize = 0;
    while n < v.len()
        invariant
            n <= v@.len(),
            forall|j: int| 0 <= j < n ==> lex_lt(v@[j].0@, key@),
        decreases v@.len() - n,
    {
        if !crate::order::str_lt(v[n].0.as_str(), key.as_str()) {
            return n;
        }
        n += 1;
    }
    n
}

/// First index whose element is not below `x`; the insertion point in an
/// ascending string vector.
pub fn set_pos(v: &Vec<String>, x: &String) -> (n: usize)
    ensures
        n <= v@.len(),
        forall|j: int| 0 <= j < n ==> lex_lt(v@[j]@, x@),
        n < v@.len() ==> !lex_lt(v@[n as int]@, x@),
{
    let mut n: usize = 0;
    while n < v.len()
        invariant
            n <= v@.len(),
            forall|j: int| 0 <= j < n ==> lex_lt(v@[j]@, x@),
        decreases v@.len() - n,
    {
        if !crate::order::str_lt(v[n].as_str(), x.as_str()) {
            return n;
        }
        n += 1;
    }
    n
}

/// The sequence of views of a string vector.
pub open spec fn elems_view(v: Seq<String>) -> Seq<Seq<char>> {
    v.map_values(|s: String| s@)
}

/// Inserts a copy of `x` into the ascending string vector `v`, once.
pub fn set_insert(v: &mut Vec<String>, x: &String)
    requires
        set_sorted(elems_view(old(v)@)),
    ensures
        elems_view(final(v)@) == set_put(elems_view(old(v)@), x@),
        set_sorted(elems_view(final(v)@)),
{
    let ghost s0 = elems_view(v@);
    let n = set_pos(v, x);
    if n < v.len() && v[n] == *x {
        proof {
            lemma_set_put_found(s0, x@, n as int);
        }
    } else {
        v.insert(n, x.clone());
        proof {
            assert(elems_view(v@) =~= s0.insert(n as int, x@));
            lemma_set_put_inserted(s0, x@, n as int);
            lemma_set_put_sorted(s0, x@);
        }
    }
}

} // verus!
