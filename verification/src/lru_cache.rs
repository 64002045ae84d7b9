//! The model of an `lru::LruCache`: its entries as a sequence of key/value
//! pairs, the most recently used one first, together with the capacity it
//! was made with.
use vstd::prelude::*;

verus! {

#[verifier::external_type_specification]
#[verifier::external_body]
#[verifier::reject_recursive_types(K)]
#[verifier::reject_recursive_types(V)]
#[verifier::reject_recursive_types(S)]
pub struct ExLruCache<K, V, S>(lru::LruCache<K, V, S>);

#[verifier::external_type_specification]
#[verifier::external_body]
pub struct ExDefaultHasher(lru::DefaultHasher);

/// The cache holds an entry under key `k`.
pub open spec fn lru_has<K, V>(entries: Seq<(K, V)>, k: K) -> bool {
    exists|i: int| 0 <= i < entries.len() && (#[trigger] entries[i]).0 == k
}

/// No key occurs twice among the entries.
pub open spec fn lru_keys_distinct<K, V>(entries: Seq<(K, V)>) -> bool {
    forall|i: int, j: int|
        0 <= i < entries.len() && 0 <= j < entries.len() && i != j ==> (#[trigger] entries[i]).0
            != (#[trigger] entries[j]).0
}

/// What every cache of capacity `cap` satisfies.
pub open spec fn lru_valid<K, V>(entries: Seq<(K, V)>, cap: nat) -> bool {
    &&& 0 < cap
    &&& entries.len() <= cap
    &&& lru_keys_distinct(entries)
}

/// The position of the entry under `k` (meaningful only where there is one).
pub open spec fn lru_index<K, V>(entries: Seq<(K, V)>, k: K) -> int {
    choose|i: int| 0 <= i < entries.len() && (#[trigger] entries[i]).0 == k
}

/// The value stored under `k`, if any.
pub open spec fn lru_lookup<K, V>(entries: Seq<(K, V)>, k: K) -> Option<V> {
    if lru_has(entries, k) {
        Some(entries[lru_index(entries, k)].1)
    } else {
        None
    }
}

/// A lookup that moves the entry under `k`, if any, to the front.
pub open spec fn lru_promote<K, V>(entries: Seq<(K, V)>, k: K) -> Seq<(K, V)> {
    if lru_has(entries, k) {
        let i = lru_index(entries, k);
        seq![entries[i]] + entries.remove(i)
    } else {
        entries
    }
}

/// Storing `v` under `k`: an entry under `k` is replaced and moved to the
/// front; otherwise the new entry goes to the front, and where the cache is
/// full the least recently used entry (the last one) leaves.
pub open spec fn lru_insert<K, V>(entries: Seq<(K, V)>, cap: nat, k: K, v: V) -> Seq<(K, V)> {
    if lru_has(entries, k) {
        seq![(k, v)] + entries.remove(lru_index(entries, k))
    } else if entries.len() >= cap {
        seq![(k, v)] + entries.drop_last()
    } else {
        seq![(k, v)] + entries
    }
}

/// In a valid cache the entry under `k` sits at exactly one position.
pub proof fn lemma_index_unique<K, V>(entries: Seq<(K, V)>, k: K, i: int)
    requires
        lru_keys_distinct(entries),
        0 <= i < entries.len(),
        entries[i].0 == k,
    ensures
        lru_has(entries, k),
        lru_index(entries, k) == i,
        lru_lookup(entries, k) == Some(entries[i].1),
{
    let j = lru_index(entries, k);
    assert(entries[j].0 == k);
}

/// A lookup keeps the cache valid and changes no stored value.
pub proof fn lemma_promote<K, V>(entries: Seq<(K, V)>, cap: nat, k: K)
    requires
        lru_valid(entries, cap),
    ensures
        lru_valid(lru_promote(entries, k), cap),
        lru_promote(entries, k).len() == entries.len(),
        forall|k2: K| #[trigger]
            lru_lookup(lru_promote(entries, k), k2) == lru_lookup(entries, k2),
        lru_has(entries, k) ==> lru_promote(entries, k)[0].0 == k,
{
    if lru_has(entries, k) {
        let i = lru_index(entries, k);
        let p = lru_promote(entries, k);
        let r = entries.remove(i);
        assert(p.len() == entries.len());
        assert forall|a: int| 0 <= a < p.len() implies #[trigger] p[a] == if a == 0 {
            entries[i]
        } else if a <= i {
            entries[a - 1]
        } else {
            entries[a]
        } by {
            if a > 0 {
                assert(p[a] == r[a - 1]);
            }
        }
        assert(lru_keys_distinct(p)) by {
            assert forall|a: int, b: int|
                0 <= a < p.len() && 0 <= b < p.len() && a != b implies (#[trigger] p[a]).0 != (
            #[trigger] p[b]).0 by {
                let ia = if a == 0 {
                    i
                } else if a <= i {
                    a - 1
                } else {
                    a
                };
                let ib = if b == 0 {
                    i
                } else if b <= i {
                    b - 1
                } else {
                    b
                };
                assert(p[a] == entries[ia]);
                assert(p[b] == entries[ib]);
            }
        }
        assert forall|k2: K| #[trigger] lru_lookup(p, k2) == lru_lookup(entries, k2) by {
            if lru_has(entries, k2) {
                let j = lru_index(entries, k2);
                let pj = if j == i {
                    0
                } else if j < i {
                    j + 1
                } else {
                    j
                };
                assert(p[pj] == entries[j]);
                lemma_index_unique(p, k2, pj);
            } else if lru_has(p, k2) {
                let q = lru_index(p, k2);
                let iq = if q == 0 {
                    i
                } else if q <= i {
                    q - 1
                } else {
                    q
                };
                assert(p[q] == entries[iq]);
                assert(false);
            }
        }
    }
}

/// Storing keeps the cache valid, and a lookup right after gives back what
/// was stored.
pub proof fn lemma_insert<K, V>(entries: Seq<(K, V)>, cap: nat, k: K, v: V)
    requires
        lru_valid(entries, cap),
    ensures
        lru_valid(lru_insert(entries, cap, k, v), cap),
        lru_insert(entries, cap, k, v)[0] == (k, v),
        lru_lookup(lru_insert(entries, cap, k, v), k) == Some(v),
{
    let n = lru_insert(entries, cap, k, v);
    // `rest` is what follows the new front entry, `src(a)` the old position of `rest[a]`.
    if lru_has(entries, k) {
        let i = lru_index(entries, k);
        let r = entries.remove(i);
        assert forall|a: int| 0 <= a < r.len() implies #[trigger] r[a] == if a < i {
            entries[a]
        } else {
            entries[a + 1]
        } by {}
        assert forall|a: int, b: int|
            0 <= a < n.len() && 0 <= b < n.len() && a != b implies (#[trigger] n[a]).0 != (
        #[trigger] n[b]).0 by {
            if a > 0 && b > 0 {
                let ia = if a - 1 < i {
                    a - 1
                } else {
                    a
                };
                let ib = if b - 1 < i {
                    b - 1
                } else {
                    b
                };
                assert(n[a] == entries[ia]);
                assert(n[b] == entries[ib]);
            } else if a == 0 {
                let ib = if b - 1 < i {
                    b - 1
                } else {
                    b
                };
                assert(n[b] == entries[ib]);
                assert(ib != i);
            } else {
                let ia = if a - 1 < i {
                    a - 1
                } else {
                    a
                };
                assert(n[a] == entries[ia]);
                assert(ia != i);
            }
        }
    } else {
        let r = if entries.len() >= cap {
            entries.drop_last()
        } else {
            entries
        };
        assert(n == seq![(k, v)] + r);
        assert forall|a: int, b: int|
            0 <= a < n.len() && 0 <= b < n.len() && a != b implies (#[trigger] n[a]).0 != (
        #[trigger] n[b]).0 by {
            if a > 0 {
                assert(n[a] == entries[a - 1]);
            }
            if b > 0 {
                assert(n[b] == entries[b - 1]);
            }
            if a == 0 && b > 0 {
                assert(entries[b - 1].0 != k);
            }
            if b == 0 && a > 0 {
                assert(entries[a - 1].0 != k);
            }
        }
    }
    assert(n[0] == (k, v));
    lemma_index_unique(n, k, 0);
}

/// Storing under a new key in a full cache makes the least recently used
/// entry leave; every other entry stays with its value.
pub proof fn lemma_insert_evicts_least_recent<K, V>(entries: Seq<(K, V)>, cap: nat, k: K, v: V)
    requires
        lru_valid(entries, cap),
        entries.len() == cap,
        !lru_has(entries, k),
    ensures
        lru_insert(entries, cap, k, v).len() == cap,
        !lru_has(lru_insert(entries, cap, k, v), entries.last().0),
        forall|i: int|
            0 <= i < entries.len() - 1 ==> lru_lookup(lru_insert(entries, cap, k, v), (
            #[trigger] entries[i]).0) == Some(entries[i].1),
{
    lemma_insert(entries, cap, k, v);
    let n = lru_insert(entries, cap, k, v);
    let last = entries.last().0;
    if lru_has(n, last) {
        let q = lru_index(n, last);
        if q == 0 {
            assert(entries[entries.len() - 1].0 == last);
            assert(false);
        } else {
            assert(n[q] == entries[q - 1]);
            assert(entries[entries.len() - 1] == entries.last());
        }
    }
    assert forall|i: int| 0 <= i < entries.len() - 1 implies lru_lookup(n, (
    #[trigger] entries[i]).0) == Some(entries[i].1) by {
        assert(n[i + 1] == entries[i]);
        lemma_index_unique(n, entries[i].0, i + 1);
    }
}

/// Every value held satisfies `p`.
pub open spec fn lru_values_all<K, V>(entries: Seq<(K, V)>, p: spec_fn(V) -> bool) -> bool {
    forall|i: int| 0 <= i < entries.len() ==> p((#[trigger] entries[i]).1)
}

/// A property of every value held survives a lookup, and a store of a value
/// that has it too.
pub proof fn lemma_values_all<K, V>(
    entries: Seq<(K, V)>,
    cap: nat,
    k: K,
    v: V,
    p: spec_fn(V) -> bool,
)
    requires
        lru_valid(entries, cap),
        lru_values_all(entries, p),
    ensures
        lru_values_all(lru_promote(entries, k), p),
        p(v) ==> lru_values_all(lru_insert(entries, cap, k, v), p),
{
    if lru_has(entries, k) {
        let i = lru_index(entries, k);
        let q = lru_promote(entries, k);
        assert forall|a: int| 0 <= a < q.len() implies p((#[trigger] q[a]).1) by {
            if a == 0 {
                assert(q[a] == entries[i]);
            } else if a <= i {
                assert(q[a] == entries[a - 1]);
            } else {
                assert(q[a] == entries[a]);
            }
        }
        if p(v) {
            let n = lru_insert(entries, cap, k, v);
            assert forall|a: int| 0 <= a < n.len() implies p((#[trigger] n[a]).1) by {
                if a == 0 {
                    assert(n[a] == (k, v));
                } else if a <= i {
                    assert(n[a] == entries[a - 1]);
                } else {
                    assert(n[a] == entries[a]);
                }
            }
        }
    } else if p(v) {
        let n = lru_insert(entries, cap, k, v);
        assert forall|a: int| 0 <= a < n.len() implies p((#[trigger] n[a]).1) by {
            if a == 0 {
                assert(n[a] == (k, v));
            } else {
                assert(n[a] == entries[a - 1]);
            }
        }
    }
}

} // verus!
