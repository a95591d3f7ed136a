//! The stable ascending reordering of a sequence by a `u32` key.
//!
//! `stable_sort_by` pins down, as a specification, the one result the
//! per-phase sort may produce: items in ascending key order, items with
//! equal keys in their input order. The lemmas here prove the ordering
//! contract from the definition: the result is sorted, each key class keeps
//! its input order, sorting moves no item in or out, and sorting a sorted
//! sequence changes nothing.

use vstd::prelude::*;

verus! {

/// Every pair of positions of `s` is in ascending key order; in particular
/// every adjacent pair is.
pub open spec fn sorted_by_key<T>(s: Seq<T>, key: spec_fn(T) -> u32) -> bool {
    forall|i: int, j: int| 0 <= i <= j < s.len() ==> #[trigger] key(s[i]) <= #[trigger] key(s[j])
}

/// `s` with `x` placed after every item whose key is at most `key(x)`:
/// where `s` is sorted this is the one position that keeps the order and
/// puts `x` after its ties.
pub open spec fn insert_stable<T>(s: Seq<T>, x: T, key: spec_fn(T) -> u32) -> Seq<T>
    decreases s.len(),
{
    if s.len() == 0 {
        seq![x]
    } else if key(s.last()) <= key(x) {
        s.push(x)
    } else {
        insert_stable(s.drop_last(), x, key).push(s.last())
    }
}

/// The stable ascending reordering of `s` by `key`: each item in input
/// order is placed after all earlier items whose key is at most its own.
pub open spec fn stable_sort_by<T>(s: Seq<T>, key: spec_fn(T) -> u32) -> Seq<T>
    decreases s.len(),
{
    if s.len() == 0 {
        s
    } else {
        insert_stable(stable_sort_by(s.drop_last(), key), s.last(), key)
    }
}

/// A key bound on every item of `s` carries over to `insert_stable`.
proof fn lemma_insert_stable_bound<T>(s: Seq<T>, x: T, key: spec_fn(T) -> u32, b: u32)
    requires
        key(x) <= b,
        forall|i: int| 0 <= i < s.len() ==> #[trigger] key(s[i]) <= b,
    ensures
        forall|i: int|
            0 <= i < insert_stable(s, x, key).len() ==> #[trigger] key(
                insert_stable(s, x, key)[i],
            ) <= b,
    decreases s.len(),
{
    let out = insert_stable(s, x, key);
    if s.len() == 0 {
        assert(out[0] == x);
    } else if key(s.last()) <= key(x) {
        assert forall|i: int| 0 <= i < out.len() implies #[trigger] key(out[i]) <= b by {
            if i < s.len() {
                assert(out[i] == s[i]);
            } else {
                assert(out[i] == x);
            }
        }
    } else {
        let prefix = s.drop_last();
        assert(forall|i: int| 0 <= i < prefix.len() ==> #[trigger] key(prefix[i]) <= b);
        lemma_insert_stable_bound(prefix, x, key, b);
        let inner = insert_stable(prefix, x, key);
        assert forall|i: int| 0 <= i < out.len() implies #[trigger] key(out[i]) <= b by {
            if i < inner.len() {
                assert(out[i] == inner[i]);
            } else {
                assert(out[i] == s.last());
            }
        }
    }
}

/// Inserting into a sorted sequence keeps it sorted.
proof fn lemma_insert_stable_sorted<T>(s: Seq<T>, x: T, key: spec_fn(T) -> u32)
    requires
        sorted_by_key(s, key),
    ensures
        sorted_by_key(insert_stable(s, x, key), key),
    decreases s.len(),
{
    let out = insert_stable(s, x, key);
    if s.len() == 0 {
    } else if key(s.last()) <= key(x) {
        assert forall|i: int, j: int| 0 <= i <= j < out.len() implies #[trigger] key(out[i])
            <= #[trigger] key(out[j]) by {
            if j < s.len() {
                assert(out[i] == s[i] && out[j] == s[j]);
            } else {
                assert(out[j] == x);
                if i < s.len() {
                    assert(out[i] == s[i]);
                    assert(key(s[i]) <= key(s.last()));
                }
            }
        }
    } else {
        let prefix = s.drop_last();
        assert(sorted_by_key(prefix, key)) by {
            assert forall|i: int, j: int| 0 <= i <= j < prefix.len() implies #[trigger] key(
                prefix[i],
            ) <= #[trigger] key(prefix[j]) by {
                assert(prefix[i] == s[i] && prefix[j] == s[j]);
            }
        }
        lemma_insert_stable_sorted(prefix, x, key);
        assert(forall|i: int| 0 <= i < prefix.len() ==> #[trigger] key(prefix[i]) <= key(s.last()))
            by {
            assert forall|i: int| 0 <= i < prefix.len() implies #[trigger] key(prefix[i]) <= key(
                s.last(),
            ) by {
                assert(prefix[i] == s[i]);
                assert(key(s[i]) <= key(s[s.len() - 1]));
            }
        }
        lemma_insert_stable_bound(prefix, x, key, key(s.last()));
        let inner = insert_stable(prefix, x, key);
        assert forall|i: int, j: int| 0 <= i <= j < out.len() implies #[trigger] key(out[i])
            <= #[trigger] key(out[j]) by {
            if j < inner.len() {
                assert(out[i] == inner[i] && out[j] == inner[j]);
            } else {
                assert(out[j] == s.last());
                if i < inner.len() {
                    assert(out[i] == inner[i]);
                }
            }
        }
    }
}

/// The stable sort is sorted: every pair of positions, so every adjacent
/// pair, is in ascending key order.
pub proof fn lemma_stable_sort_sorted<T>(s: Seq<T>, key: spec_fn(T) -> u32)
    ensures
        sorted_by_key(stable_sort_by(s, key), key),
    decreases s.len(),
{
    if s.len() > 0 {
        lemma_stable_sort_sorted(s.drop_last(), key);
        lemma_insert_stable_sorted(stable_sort_by(s.drop_last(), key), s.last(), key);
    }
}

/// Ascending order of every adjacent pair gives ascending order of every
/// pair of positions.
pub proof fn lemma_adjacent_sorted<T>(s: Seq<T>, key: spec_fn(T) -> u32)
    requires
        forall|i: int| 0 <= i && i + 1 < s.len() ==> #[trigger] key(s[i]) <= key(s[i + 1]),
    ensures
        sorted_by_key(s, key),
{
    assert forall|i: int, j: int| 0 <= i <= j < s.len() implies #[trigger] key(s[i])
        <= #[trigger] key(s[j]) by {
        lemma_key_le_span(s, key, i, j);
    }
}

/// Chains the adjacent-pair bounds from position `i` up to position `j`.
proof fn lemma_key_le_span<T>(s: Seq<T>, key: spec_fn(T) -> u32, i: int, j: int)
    requires
        forall|m: int| 0 <= m && m + 1 < s.len() ==> #[trigger] key(s[m]) <= key(s[m + 1]),
        0 <= i <= j < s.len(),
    ensures
        key(s[i]) <= key(s[j]),
    decreases j - i,
{
    if i < j {
        lemma_key_le_span(s, key, i, j - 1);
        assert(key(s[j - 1]) <= key(s[j]));
    }
}

/// How `filter` acts on a `push`: the pushed item is kept at the end iff it
/// satisfies the predicate.
proof fn lemma_filter_push<T>(s: Seq<T>, x: T, pred: spec_fn(T) -> bool)
    ensures
        s.push(x).filter(pred) == (if pred(x) {
            s.filter(pred).push(x)
        } else {
            s.filter(pred)
        }),
{
    reveal(Seq::filter);
    assert(s.push(x).drop_last() =~= s);
    assert(s.push(x).last() == x);
}

/// How `insert_stable` acts on the items of one key class: the class gains
/// `x` at its end when `x` belongs to it and is untouched otherwise, because
/// `x` is placed after all its ties and items of other classes pass over it
/// without reordering among themselves.
proof fn lemma_insert_stable_filter<T>(
    s: Seq<T>,
    x: T,
    key: spec_fn(T) -> u32,
    pred: spec_fn(T) -> bool,
    k: u32,
)
    requires
        forall|y: T| #[trigger] pred(y) <==> key(y) == k,
    ensures
        insert_stable(s, x, key).filter(pred) == (if pred(x) {
            s.filter(pred).push(x)
        } else {
            s.filter(pred)
        }),
    decreases s.len(),
{
    reveal(Seq::filter);
    if s.len() == 0 {
        assert(seq![x] =~= s.push(x));
        lemma_filter_push(s, x, pred);
    } else if key(s.last()) <= key(x) {
        lemma_filter_push(s, x, pred);
    } else {
        let prefix = s.drop_last();
        let inner = insert_stable(prefix, x, key);
        lemma_insert_stable_filter(prefix, x, key, pred, k);
        lemma_filter_push(inner, s.last(), pred);
        assert(prefix.push(s.last()) =~= s);
        lemma_filter_push(prefix, s.last(), pred);
        if pred(s.last()) {
            assert(key(s.last()) == k);
            assert(!pred(x));
        }
    }
}

/// Stability: the items of one key class come out of the sort in their
/// input order — the sorted sequence restricted to the class equals the
/// input restricted to it.
pub proof fn lemma_stable_sort_stable<T>(
    s: Seq<T>,
    key: spec_fn(T) -> u32,
    pred: spec_fn(T) -> bool,
    k: u32,
)
    requires
        forall|y: T| #[trigger] pred(y) <==> key(y) == k,
    ensures
        stable_sort_by(s, key).filter(pred) == s.filter(pred),
    decreases s.len(),
{
    if s.len() > 0 {
        let prefix = s.drop_last();
        lemma_stable_sort_stable(prefix, key, pred, k);
        lemma_insert_stable_filter(stable_sort_by(prefix, key), s.last(), key, pred, k);
        assert(prefix.push(s.last()) =~= s);
        lemma_filter_push(prefix, s.last(), pred);
    }
}

/// Idempotence: sorting an already-sorted sequence changes nothing.
pub proof fn lemma_stable_sort_idempotent<T>(s: Seq<T>, key: spec_fn(T) -> u32)
    requires
        sorted_by_key(s, key),
    ensures
        stable_sort_by(s, key) == s,
    decreases s.len(),
{
    if s.len() > 0 {
        let prefix = s.drop_last();
        assert(sorted_by_key(prefix, key)) by {
            assert forall|i: int, j: int| 0 <= i <= j < prefix.len() implies #[trigger] key(
                prefix[i],
            ) <= #[trigger] key(prefix[j]) by {
                assert(prefix[i] == s[i] && prefix[j] == s[j]);
            }
        }
        lemma_stable_sort_idempotent(prefix, key);
        if s.len() == 1 {
            assert(stable_sort_by(s, key) =~= s);
        } else {
            assert(key(prefix.last()) == key(s[s.len() - 2]));
            assert(key(s[s.len() - 2]) <= key(s[s.len() - 1]));
            assert(stable_sort_by(s, key) == prefix.push(s.last()));
            assert(prefix.push(s.last()) =~= s);
        }
    }
}

/// `insert_stable` adds exactly `x`: the items form the input items plus it.
proof fn lemma_insert_stable_multiset<T>(s: Seq<T>, x: T, key: spec_fn(T) -> u32)
    ensures
        insert_stable(s, x, key).to_multiset() == s.to_multiset().insert(x),
        insert_stable(s, x, key).len() == s.len() + 1,
    decreases s.len(),
{
    broadcast use vstd::seq_lib::group_to_multiset_ensures;

    if s.len() == 0 {
        assert(seq![x] =~= s.push(x));
    } else if key(s.last()) <= key(x) {
    } else {
        let prefix = s.drop_last();
        lemma_insert_stable_multiset(prefix, x, key);
        let inner = insert_stable(prefix, x, key);
        assert(prefix.push(s.last()) =~= s);
        assert(inner.push(s.last()).to_multiset() == inner.to_multiset().insert(s.last()));
        assert(prefix.to_multiset().insert(x).insert(s.last()) =~= prefix.to_multiset().insert(
            s.last(),
        ).insert(x));
    }
}

/// The sort is a permutation: no item enters or leaves, the length is kept.
pub proof fn lemma_stable_sort_permutes<T>(s: Seq<T>, key: spec_fn(T) -> u32)
    ensures
        stable_sort_by(s, key).to_multiset() == s.to_multiset(),
        stable_sort_by(s, key).len() == s.len(),
    decreases s.len(),
{
    broadcast use vstd::seq_lib::group_to_multiset_ensures;

    if s.len() > 0 {
        let prefix = s.drop_last();
        lemma_stable_sort_permutes(prefix, key);
        lemma_insert_stable_multiset(stable_sort_by(prefix, key), s.last(), key);
        assert(prefix.push(s.last()) =~= s);
    }
}

} // verus!
