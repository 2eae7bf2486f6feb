//! Fingerprint-keyed deduplication over a slab arena.
//!
//! A [`DedupArena`] maps a content fingerprint (of a geometry shape or of a
//! compiled shader's source and parameters) to an existing arena slot, so
//! that equal resources are uploaded or compiled once.  Cache entries do
//! not keep slots alive: each entry records the slot's epoch at insertion
//! time, and a lookup that finds the slot released (or reused under a newer
//! epoch) treats the entry as dead, evicts it, and reports a miss.
//! Evicting the stale entry is mandatory, not an optimisation: a stale hit
//! would alias whatever unrelated resource later occupies the reused index.

use vstd::prelude::*;

use crate::arena::Arena;
use crate::arena::ArenaError;
use std::collections::HashMap;

verus! {

broadcast use vstd::std_specs::hash::group_hash_axioms;

/// A resource builder, invoked by [`DedupArena::intern`] only on a cache
/// miss.  `builds` counts invocations so that contracts can state exactly
/// how often a factory ran; `product` is the value the next invocation
/// returns, which a fingerprinted factory keeps constant: the fingerprint
/// determines the content.
pub trait Factory<T> {
    /// How many times this factory has built its resource.
    spec fn builds(&self) -> nat;

    /// The value the next build returns.
    spec fn product(&self) -> T;

    /// Builds the resource, counting the invocation.
    fn build(&mut self) -> (t: T)
        ensures
            final(self).builds() == old(self).builds() + 1,
            final(self).product() == old(self).product(),
            t == old(self).product();
}

/// A factory that hands out copies of a fixed value and counts how often
/// it was asked to.
pub struct ConstFactory<T> {
    value: T,
    built: u64,
    built_total: Ghost<nat>,
}

impl<T: Copy> ConstFactory<T> {
    /// A factory that will produce `value` and has built nothing yet.
    pub fn new(value: T) -> (f: ConstFactory<T>)
        ensures
            f.builds() == 0,
            f.product() == value,
    {
        ConstFactory { value, built: 0, built_total: Ghost(0) }
    }

    /// How many times the factory has built, saturating at `u64::MAX`.
    pub fn times_built(&self) -> u64 {
        self.built
    }
}

impl<T: Copy> Factory<T> for ConstFactory<T> {
    closed spec fn builds(&self) -> nat {
        self.built_total@
    }

    closed spec fn product(&self) -> T {
        self.value
    }

    fn build(&mut self) -> (t: T) {
        self.built_total = Ghost(self.built_total@ + 1);
        if self.built < u64::MAX {
            self.built = self.built + 1;
        }
        self.value
    }
}

/// A cache entry: the slot an interned resource lives in, and the slot's
/// epoch when the entry was recorded.  The entry is dead once the slot's
/// epoch moves on.
#[derive(Clone, Copy, PartialEq, Eq, Structural, Debug)]
pub struct CacheRef {
    pub id: usize,
    pub epoch: u64,
}

/// A slab arena together with a fingerprint cache over its slots.
pub struct DedupArena<T> {
    arena: Arena<T>,
    cache: HashMap<u64, CacheRef>,
}

impl<T> DedupArena<T> {
    /// The underlying slab arena.
    pub closed spec fn arena(&self) -> Arena<T> {
        self.arena
    }

    /// The fingerprint cache as a map.
    pub closed spec fn cache(&self) -> Map<u64, CacheRef> {
        self.cache@
    }

    /// The invariant: the arena is well formed.  Cache entries may go
    /// stale; staleness is detected and healed on lookup.
    pub open spec fn wf(&self) -> bool {
        self.arena().wf()
    }

    /// Whether fingerprint `fp` has a cache entry whose slot is still the
    /// incarnation the entry was recorded for.
    pub open spec fn live_hit(&self, fp: u64) -> bool {
        &&& self.cache().contains_key(fp)
        &&& self.arena().valid_handle(self.cache()[fp].id as int, self.cache()[fp].epoch)
    }

    /// An empty deduplicating arena.
    pub fn new() -> (d: DedupArena<T>)
        ensures
            d.wf(),
            d.arena().len() == 0,
            d.cache() =~= Map::<u64, CacheRef>::empty(),
    {
        DedupArena { arena: Arena::new(), cache: HashMap::new() }
    }

    /// A reference to the value in live slot `id`.
    pub fn get(&self, id: usize) -> (r: &T)
        requires
            self.arena().is_live(id as int),
        ensures
            *r == self.arena().value_at(id as int),
    {
        self.arena.get(id)
    }

    /// Looks `fp` up without building anything: a live entry answers with
    /// its slot; a dead entry (the slot was released, or reused under a
    /// newer epoch) is evicted and reported as a miss, so no stale entry
    /// for `fp` ever survives a lookup.
    pub fn lookup(&mut self, fp: u64) -> (r: Option<usize>)
        requires
            old(self).wf(),
        ensures
            final(self).wf(),
            final(self).arena() == old(self).arena(),
            old(self).live_hit(fp) ==> r == Some(old(self).cache()[fp].id) && final(self).cache()
                == old(self).cache(),
            !old(self).live_hit(fp) ==> r is None,
            !old(self).live_hit(fp) && old(self).cache().contains_key(fp) ==> final(self).cache()
                =~= old(self).cache().remove(fp),
            !old(self).cache().contains_key(fp) ==> final(self).cache() == old(self).cache(),
            final(self).cache().contains_key(fp) ==> final(self).live_hit(fp),
    {
        let cached: Option<CacheRef> = match self.cache.get(&fp) {
            Some(r) => Some(*r),
            None => None,
        };
        if let Some(cr) = cached {
            if self.arena.check_handle(cr.id, cr.epoch) {
                return Some(cr.id);
            }
            self.cache.remove(&fp);
        }
        None
    }

    /// Interns `fp`: a live cache entry answers without building anything;
    /// otherwise (no entry, or a dead one, which is evicted) the factory
    /// builds the resource once, a slot is allocated for it, and the cache
    /// records the new slot under `fp`.
    pub fn intern<F: Factory<T>>(&mut self, fp: u64, factory: &mut F) -> (id: usize)
        requires
            old(self).wf(),
            old(self).arena().len() < usize::MAX,
        ensures
            intern_post(*old(self), *final(self), *old(factory), *final(factory), fp, id),
    {
        let cached: Option<CacheRef> = match self.cache.get(&fp) {
            Some(r) => Some(*r),
            None => None,
        };
        if let Some(cr) = cached {
            if self.arena.check_handle(cr.id, cr.epoch) {
                return cr.id;
            }
            self.cache.remove(&fp);
        }
        let value = factory.build();
        let id = self.arena.allocate(value);
        let epoch = self.arena.epoch_of(id);
        self.cache.insert(fp, CacheRef { id, epoch });
        proof {
            assert(self.cache() =~= old(self).cache().insert(fp, CacheRef { id, epoch }));
        }
        id
    }

    /// Whether slot `id` is currently live.
    pub fn slot_live(&self, id: usize) -> (r: bool)
        ensures
            r == self.arena().is_live(id as int),
    {
        self.arena.live(id)
    }

    /// The number of slots, live and free together.
    pub fn slot_count(&self) -> (n: usize)
        ensures
            n as int == self.arena().len(),
    {
        self.arena.slot_count()
    }

    /// Releases slot `id` back to the arena.  Cache entries recorded for
    /// the released incarnation become dead and will be evicted by the
    /// next lookup of their fingerprint.
    pub fn release(&mut self, id: usize) -> (r: Result<(), ArenaError>)
        requires
            old(self).wf(),
            old(self).arena().is_live(id as int) ==> old(self).arena().epochs()[id as int]
                < u64::MAX,
        ensures
            release_post(*old(self), *final(self), id, r),
    {
        self.arena.release(id)
    }
}

/// What [`DedupArena::intern`] guarantees: a live hit returns the cached
/// slot and touches neither arena nor factory; a miss builds exactly once,
/// allocates a previously dead slot, leaves every other live slot as it
/// was, and records the fingerprint.  Either way the fingerprint ends up
/// with a live entry naming the returned slot.
pub open spec fn intern_post<T, F: Factory<T>>(
    pre: DedupArena<T>,
    post: DedupArena<T>,
    fpre: F,
    fpost: F,
    fp: u64,
    id: usize,
) -> bool {
    &&& post.wf()
    &&& post.live_hit(fp)
    &&& post.cache()[fp].id == id
    &&& post.arena().is_live(id as int)
    &&& (pre.live_hit(fp) ==> {
        &&& id == pre.cache()[fp].id
        &&& post == pre
        &&& fpost == fpre
    })
    &&& (!pre.live_hit(fp) ==> {
        &&& fpost.builds() == fpre.builds() + 1
        &&& fpost.product() == fpre.product()
        &&& post.arena().value_at(id as int) == fpre.product()
        &&& !pre.arena().is_live(id as int)
        &&& (pre.arena().free_list().len() > 0 ==> id == pre.arena().free_list().last()
            && post.arena().len() == pre.arena().len())
        &&& (pre.arena().free_list().len() == 0 ==> id as int == pre.arena().len()
            && post.arena().len() == pre.arena().len() + 1)
        &&& post.cache() == pre.cache().insert(fp, post.cache()[fp])
        &&& post.arena().reserved() == pre.arena().reserved()
        &&& pre.arena().len() <= post.arena().len() <= pre.arena().len() + 1
        &&& forall|j: int|
            #[trigger] pre.arena().is_live(j) ==> post.arena().is_live(j) && post.arena().value_at(
                j,
            ) == pre.arena().value_at(j)
    })
}

/// What [`DedupArena::release`] guarantees: the cache is untouched, the
/// arena either rejects the index unchanged or frees exactly that slot.
pub open spec fn release_post<T>(
    pre: DedupArena<T>,
    post: DedupArena<T>,
    id: usize,
    r: Result<(), ArenaError>,
) -> bool {
    &&& post.wf()
    &&& post.cache() == pre.cache()
    &&& (r is Ok <==> pre.arena().reserved() <= id < pre.arena().len() && pre.arena().is_live(
        id as int,
    ))
    &&& (r is Ok ==> {
        &&& !post.arena().is_live(id as int)
        &&& post.arena().slots() == pre.arena().slots().update(id as int, None::<T>)
        &&& post.arena().len() == pre.arena().len()
    })
    &&& (!(r is Ok) ==> post == pre)
}

/// Interning the same fingerprint twice returns the same slot id and
/// invokes the factory exactly once: the second intern is a live hit, so
/// it changes nothing and builds nothing.
pub proof fn lemma_intern_twice<T, F: Factory<T>>(
    s0: DedupArena<T>,
    s1: DedupArena<T>,
    s2: DedupArena<T>,
    f0: F,
    f1: F,
    f2: F,
    fp: u64,
    id1: usize,
    id2: usize,
)
    requires
        intern_post(s0, s1, f0, f1, fp, id1),
        intern_post(s1, s2, f1, f2, fp, id2),
    ensures
        id2 == id1,
        s2 == s1,
        f2 == f1,
        !s0.live_hit(fp) ==> f2.builds() == f0.builds() + 1,
        s0.live_hit(fp) ==> f2.builds() == f0.builds(),
{
}

/// After the slot backing a fingerprint's cache entry is released, the
/// next intern with that fingerprint misses and invokes the factory
/// again: the stale entry cannot answer.
pub proof fn lemma_release_then_intern<T, F: Factory<T>>(
    s0: DedupArena<T>,
    s1: DedupArena<T>,
    s2: DedupArena<T>,
    f1: F,
    f2: F,
    fp: u64,
    id: usize,
    id2: usize,
)
    requires
        s0.cache().contains_key(fp),
        s0.cache()[fp].id == id,
        release_post(s0, s1, id, Ok::<(), ArenaError>(())),
        intern_post(s1, s2, f1, f2, fp, id2),
    ensures
        f2.builds() == f1.builds() + 1,
        s2.arena().value_at(id2 as int) == f1.product(),
{
}

} // verus!
