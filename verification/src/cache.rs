//! The identity cache: for every node identity at most one native handle.
//!
//! A resolution looks an identity up and creates a handle only on a miss.
//! Look-up and insertion happen under one exclusive borrow of the cache, so
//! no second resolution can slip in between them: callers that share a cache
//! between threads hold their lock for the whole call.

use crate::model::{Accessible, NativeRef, Node, NodeId};
use std::collections::HashMap;
use std::sync::Arc;
use vstd::prelude::*;

verus! {

broadcast use vstd::std_specs::hash::group_hash_axioms;

/// The handle that a resolution of `id` gives, where a miss would create
/// `fresh`.
pub open spec fn resolved_handle(
    cache: Map<NodeId, NativeRef>,
    id: NodeId,
    fresh: NativeRef,
) -> NativeRef {
    if cache.contains_key(id) {
        cache[id]
    } else {
        fresh
    }
}

/// The cache after a resolution of `id`, where a miss would create `fresh`.
pub open spec fn resolved_cache(cache: Map<NodeId, NativeRef>, id: NodeId, fresh: NativeRef) -> Map<
    NodeId,
    NativeRef,
> {
    if cache.contains_key(id) {
        cache
    } else {
        cache.insert(id, fresh)
    }
}

/// The number of entries that a resolution of `id` adds: one on a miss, none
/// on a hit.
pub open spec fn resolved_growth(cache: Map<NodeId, NativeRef>, id: NodeId) -> nat {
    if cache.contains_key(id) {
        0
    } else {
        1
    }
}

/// The cache after one resolution of `id` for every handle in `fresh`, in
/// order. This is what any number of callers leave behind who all resolve
/// the same node and each bring a handle of their own.
pub open spec fn resolved_cache_all(
    cache: Map<NodeId, NativeRef>,
    id: NodeId,
    fresh: Seq<NativeRef>,
) -> Map<NodeId, NativeRef>
    decreases fresh.len(),
{
    if fresh.len() == 0 {
        cache
    } else {
        resolved_cache(resolved_cache_all(cache, id, fresh.drop_last()), id, fresh.last())
    }
}

/// No two identities share a handle.
pub open spec fn injective(cache: Map<NodeId, NativeRef>) -> bool {
    forall|a: NodeId, b: NodeId|
        cache.contains_key(a) && cache.contains_key(b) && a != b ==> cache[a] != cache[b]
}

/// Whether `handle` belongs to some identity in the cache.
pub open spec fn holds_handle(cache: Map<NodeId, NativeRef>, handle: NativeRef) -> bool {
    exists|id: NodeId| cache.contains_key(id) && cache[id] == handle
}

/// The mapping from node identities to native handles. Entries are never
/// removed or replaced.
pub struct NativeRefCache {
    handles: HashMap<NodeId, NativeRef>,
}

impl View for NativeRefCache {
    type V = Map<NodeId, NativeRef>;

    closed spec fn view(&self) -> Map<NodeId, NativeRef> {
        self.handles@
    }
}

impl NativeRefCache {
    /// An empty cache.
    pub fn new() -> (cache: Self)
        ensures
            cache@ == Map::<NodeId, NativeRef>::empty(),
    {
        NativeRefCache { handles: HashMap::new() }
    }

    /// A cache holds finitely many entries.
    pub proof fn lemma_finite(&self)
        ensures
            self@.dom().finite(),
    {
    }

    /// The handle stored for `id`, if there is one.
    pub fn get(&self, id: NodeId) -> (handle: Option<NativeRef>)
        ensures
            handle == (if self@.contains_key(id) {
                Some(self@[id])
            } else {
                None
            }),
    {
        match self.handles.get(&id) {
            Some(stored) => Some(*stored),
            None => None,
        }
    }

    /// Looks `id` up and stores `fresh` for it if nothing is stored yet, in
    /// one step. Returns the handle that the cache holds for `id` afterwards.
    ///
    /// A caller whose `fresh` handle did not win gets another handle back and
    /// releases its own.
    pub fn upsert(&mut self, id: NodeId, fresh: NativeRef) -> (winner: NativeRef)
        ensures
            winner == resolved_handle(old(self)@, id, fresh),
            final(self)@ == resolved_cache(old(self)@, id, fresh),
            final(self)@.dom().finite(),
            final(self)@.len() == old(self)@.len() + resolved_growth(old(self)@, id),
            injective(old(self)@) && (old(self)@.contains_key(id) || !holds_handle(
                old(self)@,
                fresh,
            )) ==> injective(final(self)@),
    {
        proof {
            self.lemma_finite();
            if injective(self@) && (self@.contains_key(id) || !holds_handle(self@, fresh)) {
                lemma_resolution_keeps_handles_apart(self@, id, fresh);
            }
        }
        match self.get(id) {
            Some(stored) => stored,
            None => {
                self.handles.insert(id, fresh);
                fresh
            },
        }
    }

    /// The number of identities that have a handle.
    pub fn len(&self) -> (count: usize)
        ensures
            count == self@.len(),
            self@.dom().finite(),
    {
        self.handles.len()
    }
}

impl Default for NativeRefCache {
    fn default() -> (cache: Self)
        ensures
            cache@ == Map::<NodeId, NativeRef>::empty(),
    {
        NativeRefCache::new()
    }
}

/// Resolves a node to its native handle.
///
/// If the node's identity is in the cache, the stored handle is returned,
/// `create` is not called and the cache stays as it is. Otherwise `create`
/// makes a handle for the node, which is stored under the node's identity and
/// returned: the cache gains this one entry and no other.
pub fn to_native_ref<T: Accessible, F: Fn(&Arc<Node<T>>) -> NativeRef>(
    accessible: &Arc<Node<T>>,
    cache: &mut NativeRefCache,
    create: &F,
) -> (handle: NativeRef)
    requires
        !old(cache)@.contains_key(accessible.id) ==> call_requires(create, (accessible,)),
    ensures
        handle == resolved_handle(old(cache)@, accessible.id, handle),
        final(cache)@ == resolved_cache(old(cache)@, accessible.id, handle),
        !old(cache)@.contains_key(accessible.id) ==> call_ensures(create, (accessible,), handle),
        final(cache)@.dom().finite(),
        final(cache)@.len() == old(cache)@.len() + resolved_growth(old(cache)@, accessible.id),
        injective(old(cache)@) && (old(cache)@.contains_key(accessible.id) || !holds_handle(
            old(cache)@,
            handle,
        )) ==> injective(final(cache)@),
{
    proof {
        cache.lemma_finite();
    }
    match cache.get(accessible.id) {
        Some(stored) => stored,
        None => {
            let fresh = create(accessible);
            cache.upsert(accessible.id, fresh)
        },
    }
}

/// Resolving a node twice gives the same handle both times, whatever handle
/// a miss would have created on either occasion, and the second resolution
/// leaves the cache as the first one left it.
pub proof fn lemma_resolution_is_stable(
    cache: Map<NodeId, NativeRef>,
    id: NodeId,
    first: NativeRef,
    second: NativeRef,
)
    ensures
        resolved_handle(resolved_cache(cache, id, first), id, second) == resolved_handle(
            cache,
            id,
            first,
        ),
        resolved_cache(resolved_cache(cache, id, first), id, second) == resolved_cache(
            cache,
            id,
            first,
        ),
{
}

/// A resolution never changes or removes what the cache already holds, and
/// afterwards the cache holds the returned handle under the resolved
/// identity.
pub proof fn lemma_resolution_extends(cache: Map<NodeId, NativeRef>, id: NodeId, fresh: NativeRef)
    ensures
        cache.submap_of(resolved_cache(cache, id, fresh)),
        resolved_cache(cache, id, fresh).contains_key(id),
        resolved_cache(cache, id, fresh)[id] == resolved_handle(cache, id, fresh),
        resolved_cache(cache, id, fresh).dom() == cache.dom().insert(id),
{
    assert(resolved_cache(cache, id, fresh).dom() =~= cache.dom().insert(id));
}

/// A resolution keeps handles apart: if no two identities share a handle
/// beforehand and a miss creates a handle that is not in use, no two
/// identities share a handle afterwards.
pub proof fn lemma_resolution_keeps_handles_apart(
    cache: Map<NodeId, NativeRef>,
    id: NodeId,
    fresh: NativeRef,
)
    requires
        injective(cache),
        !cache.contains_key(id) ==> !holds_handle(cache, fresh),
    ensures
        injective(resolved_cache(cache, id, fresh)),
{
    let after = resolved_cache(cache, id, fresh);
    assert forall|x: NodeId, y: NodeId|
        after.contains_key(x) && after.contains_key(y) && x != y implies after[x] != after[y] by {
        if !cache.contains_key(id) {
            if x == id {
                assert(cache.contains_key(y) && cache[y] == after[y]);
            } else if y == id {
                assert(cache.contains_key(x) && cache[x] == after[x]);
            }
        }
    }
}

/// Two nodes with different identities resolve to different handles, as long
/// as no two identities share a handle beforehand and every newly created
/// handle is different from all handles in use.
pub proof fn lemma_distinct_nodes_distinct_handles(
    cache: Map<NodeId, NativeRef>,
    a: NodeId,
    b: NodeId,
    fresh_a: NativeRef,
    fresh_b: NativeRef,
)
    requires
        a != b,
        injective(cache),
        !cache.contains_key(a) ==> !holds_handle(cache, fresh_a),
        !cache.contains_key(b) ==> !holds_handle(resolved_cache(cache, a, fresh_a), fresh_b),
    ensures
        resolved_handle(cache, a, fresh_a) != resolved_handle(
            resolved_cache(cache, a, fresh_a),
            b,
            fresh_b,
        ),
        injective(resolved_cache(resolved_cache(cache, a, fresh_a), b, fresh_b)),
{
    let after_a = resolved_cache(cache, a, fresh_a);
    lemma_resolution_keeps_handles_apart(cache, a, fresh_a);
    lemma_resolution_keeps_handles_apart(after_a, b, fresh_b);
    assert(after_a.contains_key(a) && after_a[a] == resolved_handle(cache, a, fresh_a));
}

/// However many callers resolve one node that the cache does not know yet,
/// one after the other and each ready to create a handle of its own, every
/// one of them gets the handle of the first, and from the first resolution
/// on the cache holds exactly that handle for the node. Nothing else in the
/// cache changes.
pub proof fn lemma_first_resolution_wins(
    cache: Map<NodeId, NativeRef>,
    id: NodeId,
    fresh: Seq<NativeRef>,
    caller: int,
)
    requires
        !cache.contains_key(id),
        0 <= caller < fresh.len(),
    ensures
        resolved_handle(resolved_cache_all(cache, id, fresh.take(caller)), id, fresh[caller])
            == fresh[0],
        resolved_cache_all(cache, id, fresh.take(caller + 1)) == cache.insert(id, fresh[0]),
    decreases caller,
{
    let earlier = fresh.take(caller);
    let now = fresh.take(caller + 1);
    assert(now.drop_last() == earlier);
    assert(now.last() == fresh[caller]);
    if caller > 0 {
        lemma_first_resolution_wins(cache, id, fresh, caller - 1);
    }
}

} // verus!
