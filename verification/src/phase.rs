//! The phase-item capability set and the per-phase sort.
//!
//! A phase item is one queued draw command: an immutable snapshot carrying a
//! sort key, a draw-function handle, an owning entity, and a cached-pipeline
//! handle. Every variant exposes those through the traits below, and a bulk
//! `sort` that reorders a phase's collection ascending by key, front to back,
//! keeping the input order of items whose keys tie.
//!
//! The intended order is `stable_sort_by` the item's rank: the unique stable
//! ascending reordering of the collection. The executable sort distributes
//! items by the key's bytes rather than comparing pairs, so a collection of
//! n items costs O(n) per frame.

use vstd::prelude::*;

use crate::handles::{CachedRenderPipelineId, DrawFunctionId, Entity};
use crate::sort::{
    lemma_adjacent_sorted, lemma_stable_sort_idempotent, lemma_stable_sort_permutes,
    lemma_stable_sort_sorted, lemma_stable_sort_stable, stable_sort_by,
};
use crate::sort_key::{rank_of, spec_key_le, SortKey};

verus! {

/// An item that carries a sort key determining its order within its phase.
///
/// This stands apart from `PhaseItem` so that the one sorting routine can be
/// generic over it while the `PhaseItem` implementations call that routine.
pub trait SortKeyed: Sized {
    /// The sort key this item carries.
    spec fn spec_sort_key(&self) -> SortKey;

    /// Determines the order of this item within its phase; pure, so repeated
    /// calls within a frame agree.
    fn sort_key(&self) -> (k: SortKey)
        ensures
            k == self.spec_sort_key(),
    ;
}

/// The capability set every phase-item variant implements: read the sort
/// key and the draw-function handle, and sort a whole collection.
pub trait PhaseItem: SortKeyed {
    /// The draw-function handle this item carries.
    spec fn spec_draw_function(&self) -> DrawFunctionId;

    /// Handle the draw-issuing step resolves to the procedure that encodes
    /// this item's draw command.
    fn draw_function(&self) -> (d: DrawFunctionId)
        ensures
            d == self.spec_draw_function(),
    ;

    /// Reorders `items` in place into ascending key order, front to back,
    /// keeping the input order of items with equal keys.
    fn sort(items: &mut Vec<Self>)
        ensures
            final(items)@ == stable_sort_by(old(items)@, |x: Self| rank_of(x.spec_sort_key().bits)),
    ;
}

/// A phase item that represents one entity of the scene.
pub trait EntityPhaseItem: PhaseItem {
    /// The entity this item draws.
    spec fn spec_entity(&self) -> Entity;

    /// Source-of-truth entity of this draw command, used to fetch its
    /// bindable resources.
    fn entity(&self) -> (e: Entity)
        ensures
            e == self.spec_entity(),
    ;
}

/// A phase item whose pipeline state lives in the external pipeline cache.
pub trait CachedRenderPipelinePhaseItem: PhaseItem {
    /// The cached-pipeline handle this item carries.
    spec fn spec_cached_pipeline(&self) -> CachedRenderPipelineId;

    /// Handle of the compiled pipeline state to bind before the draw.
    fn cached_pipeline(&self) -> (p: CachedRenderPipelineId)
        ensures
            p == self.spec_cached_pipeline(),
    ;
}

/// Position of an item in the total order over sort keys: the key function
/// of every phase's sort.
pub open spec fn item_rank<T: SortKeyed>(x: T) -> u32 {
    rank_of(x.spec_sort_key().bits)
}

/// Relies on `radsort::sort_by_key`, an LSD radix sort over scalar keys: it
/// reorders the slice into ascending order of the extracted `u32` key and is
/// stable (equal keys keep their relative order), which together determine
/// the stable sort of the input by item rank. The key closure reads only the
/// item's stored sort key, so repeated extraction returns the same key.
#[verifier::external_body]
fn radix_sort_items<T: SortKeyed>(items: &mut Vec<T>)
    ensures
        final(items)@ == stable_sort_by(old(items)@, |x: T| rank_of(x.spec_sort_key().bits)),
{
    radsort::sort_by_key(items.as_mut_slice(), |item: &T| item.sort_key().rank());
}

/// Entry point the phase-item variants delegate their `sort` to.
pub(crate) fn sort_items<T: SortKeyed>(items: &mut Vec<T>)
    ensures
        final(items)@ == stable_sort_by(old(items)@, |x: T| rank_of(x.spec_sort_key().bits)),
{
    radix_sort_items(items);
}

/// Every adjacent pair of items is in ascending sort-key order.
pub open spec fn phase_sorted<T: SortKeyed>(s: Seq<T>) -> bool {
    forall|i: int|
        0 <= i && i + 1 < s.len() ==> spec_key_le(
            #[trigger] s[i].spec_sort_key(),
            s[i + 1].spec_sort_key(),
        )
}

/// Law: after a phase's sort, for every adjacent pair `(a, b)` of items the
/// sort key of `a` is at most the sort key of `b`.
pub proof fn lemma_sort_all_sorted<T: SortKeyed>(s: Seq<T>)
    ensures
        phase_sorted(stable_sort_by(s, |x: T| rank_of(x.spec_sort_key().bits))),
{
    let key = |x: T| rank_of(x.spec_sort_key().bits);
    lemma_stable_sort_sorted(s, key);
    let out = stable_sort_by(s, key);
    assert forall|i: int| 0 <= i && i + 1 < out.len() implies spec_key_le(
        #[trigger] out[i].spec_sort_key(),
        out[i + 1].spec_sort_key(),
    ) by {
        assert(key(out[i]) <= key(out[i + 1]));
    }
}

/// Law: the sort is stable — the items of one sort-key class leave the sort
/// in their input order. `pred` selects the class of items whose rank is `k`.
pub proof fn lemma_sort_all_stable<T: SortKeyed>(s: Seq<T>, pred: spec_fn(T) -> bool, k: u32)
    requires
        forall|x: T| #[trigger] pred(x) <==> item_rank(x) == k,
    ensures
        stable_sort_by(s, |x: T| rank_of(x.spec_sort_key().bits)).filter(pred) == s.filter(pred),
{
    let key = |x: T| rank_of(x.spec_sort_key().bits);
    assert forall|y: T| #[trigger] pred(y) <==> key(y) == k by {
        assert(key(y) == item_rank(y));
    }
    lemma_stable_sort_stable(s, key, pred, k);
}

/// Law: the sort is idempotent — sorting an already-sorted collection
/// produces an identical collection.
pub proof fn lemma_sort_all_idempotent<T: SortKeyed>(s: Seq<T>)
    requires
        phase_sorted(s),
    ensures
        stable_sort_by(s, |x: T| rank_of(x.spec_sort_key().bits)) == s,
{
    let key = |x: T| rank_of(x.spec_sort_key().bits);
    assert forall|i: int| 0 <= i && i + 1 < s.len() implies #[trigger] key(s[i]) <= key(s[i + 1]) by {
        assert(spec_key_le(s[i].spec_sort_key(), s[i + 1].spec_sort_key()));
    }
    lemma_adjacent_sorted(s, key);
    lemma_stable_sort_idempotent(s, key);
}

/// Law: the sort only reorders — no item enters or leaves the collection.
pub proof fn lemma_sort_all_permutes<T: SortKeyed>(s: Seq<T>)
    ensures
        stable_sort_by(s, |x: T| rank_of(x.spec_sort_key().bits)).to_multiset() == s.to_multiset(),
        stable_sort_by(s, |x: T| rank_of(x.spec_sort_key().bits)).len() == s.len(),
{
    lemma_stable_sort_permutes(s, |x: T| rank_of(x.spec_sort_key().bits));
}

} // verus!
