//! Slab arenas with a free-index stack.
//!
//! Every resource kind of the context (windows, passes, views, textures,
//! geometries) lives in an [`Arena`]: a growable vector of slots plus a
//! stack of freed indices.  Allocation reuses the most recently freed index
//! before the arena grows, so the arena's length is bounded by the peak
//! number of simultaneously live slots.  Each slot carries a generation
//! tag (epoch) that is bumped when the slot is released; a stale handle
//! (index plus the epoch it was issued under) can therefore be detected
//! instead of silently aliasing a reused slot.
//!
//! A prefix of `reserved` slots (such as a null/default texture at index 0)
//! is permanently live and can never be released.

use vstd::prelude::*;

verus! {

/// Why a [`Arena::release`] call was rejected.
#[derive(Clone, Copy, PartialEq, Eq, Structural, Debug)]
pub enum ArenaError {
    /// The index is not a slot of this arena.
    OutOfRange,
    /// The slot is already on the free stack.
    AlreadyFree,
    /// The slot is a reserved sentinel and can never be freed.
    Reserved,
}

/// A slab arena: indexed slots, a free-index stack, and per-slot epochs.
pub struct Arena<T> {
    slots: Vec<Option<T>>,
    epochs: Vec<u64>,
    free: Vec<usize>,
    reserved: usize,
}

impl<T> Arena<T> {
    /// The slot states: `Some` for live slots, `None` for free ones.
    pub closed spec fn slots(&self) -> Seq<Option<T>> {
        self.slots@
    }

    /// The generation tag of each slot.
    pub closed spec fn epochs(&self) -> Seq<u64> {
        self.epochs@
    }

    /// The free-index stack, oldest release first.
    pub closed spec fn free_list(&self) -> Seq<usize> {
        self.free@
    }

    /// How many leading slots are reserved sentinels.
    pub closed spec fn reserved(&self) -> int {
        self.reserved as int
    }

    /// The number of slots, live and free together.
    pub open spec fn len(&self) -> int {
        self.slots().len() as int
    }

    /// Whether slot `i` currently holds a value.
    pub open spec fn is_live(&self, i: int) -> bool {
        0 <= i < self.len() && self.slots()[i] is Some
    }

    /// The value held by live slot `i`.
    pub open spec fn value_at(&self, i: int) -> T
        recommends
            self.is_live(i),
    {
        self.slots()[i]->0
    }

    /// Whether a handle made of an index and the epoch it was issued under
    /// still refers to the same slot incarnation.
    pub open spec fn valid_handle(&self, i: int, epoch: u64) -> bool {
        self.is_live(i) && self.epochs()[i] == epoch
    }

    /// The arena invariant: epochs cover all slots, the free stack holds
    /// distinct releasable indices of free slots, reserved slots are live,
    /// and every free slot is on the stack.
    pub open spec fn wf(&self) -> bool {
        &&& self.epochs().len() == self.len()
        &&& 0 <= self.reserved() <= self.len()
        &&& forall|k: int|
            0 <= k < self.free_list().len() ==> self.reserved() <= #[trigger] self.free_list()[k]
                < self.len()
        &&& forall|k: int|
            0 <= k < self.free_list().len() ==> self.slots()[#[trigger] self.free_list()[k] as int]
                is None
        &&& forall|k1: int, k2: int|
            0 <= k1 < k2 < self.free_list().len() ==> self.free_list()[k1] != self.free_list()[k2]
        &&& forall|i: int| 0 <= i < self.reserved() ==> #[trigger] self.slots()[i] is Some
        &&& forall|i: int|
            self.reserved() <= i < self.len() && !(#[trigger] self.slots()[i] is Some)
                ==> self.free_list().contains(i as usize)
    }

    /// An empty arena with no reserved slots.
    pub fn new() -> (a: Arena<T>)
        ensures
            a.wf(),
            a.len() == 0,
            a.free_list() =~= Seq::<usize>::empty(),
            a.reserved() == 0,
    {
        Arena { slots: Vec::new(), epochs: Vec::new(), free: Vec::new(), reserved: 0 }
    }

    /// An arena whose slot 0 is a permanently live sentinel holding `v`.
    pub fn with_sentinel(v: T) -> (a: Arena<T>)
        ensures
            a.wf(),
            a.len() == 1,
            a.reserved() == 1,
            a.is_live(0),
            a.value_at(0) == v,
            a.free_list() =~= Seq::<usize>::empty(),
            a.epochs() =~= seq![0u64],
    {
        let mut slots: Vec<Option<T>> = Vec::new();
        slots.push(Some(v));
        let mut epochs: Vec<u64> = Vec::new();
        epochs.push(0);
        Arena { slots, epochs, free: Vec::new(), reserved: 1 }
    }

    /// The number of slots, as executable code.
    pub fn slot_count(&self) -> (n: usize)
        ensures
            n as int == self.len(),
    {
        self.slots.len()
    }

    /// How many freed indices await reuse.
    pub fn free_count(&self) -> (n: usize)
        ensures
            n as int == self.free_list().len(),
    {
        self.free.len()
    }

    /// Whether slot `id` is currently live.
    pub fn live(&self, id: usize) -> (r: bool)
        ensures
            r == self.is_live(id as int),
    {
        id < self.slots.len() && self.slots[id].is_some()
    }

    /// The current epoch of slot `id`.
    pub fn epoch_of(&self, id: usize) -> (e: u64)
        requires
            self.wf(),
            id < self.len(),
        ensures
            e == self.epochs()[id as int],
    {
        self.epochs[id]
    }

    /// Whether the handle `(id, epoch)` still refers to the slot incarnation
    /// it was issued for.
    pub fn check_handle(&self, id: usize, epoch: u64) -> (r: bool)
        requires
            self.wf(),
        ensures
            r == self.valid_handle(id as int, epoch),
    {
        id < self.slots.len() && self.slots[id].is_some() && self.epochs[id] == epoch
    }

    /// A reference to the value in live slot `id`.
    pub fn get(&self, id: usize) -> (r: &T)
        requires
            self.is_live(id as int),
        ensures
            *r == self.value_at(id as int),
    {
        self.slots[id].as_ref().unwrap()
    }

    /// Overwrites the value in live slot `id`, changing nothing else.
    pub fn set(&mut self, id: usize, v: T)
        requires
            old(self).is_live(id as int),
        ensures
            final(self).slots() == old(self).slots().update(id as int, Some(v)),
            final(self).epochs() == old(self).epochs(),
            final(self).free_list() == old(self).free_list(),
            final(self).reserved() == old(self).reserved(),
            old(self).wf() ==> final(self).wf(),
    {
        self.slots[id] = Some(v);
    }

    /// Allocates a slot for `v`: reuses the most recently freed index if one
    /// exists, else appends a new slot.  The returned index was not live
    /// before the call, and the arena grows only when no index was free.
    pub fn allocate(&mut self, v: T) -> (id: usize)
        requires
            old(self).wf(),
            old(self).len() < usize::MAX,
        ensures
            final(self).wf(),
            final(self).reserved() == old(self).reserved(),
            !old(self).is_live(id as int),
            final(self).is_live(id as int),
            final(self).value_at(id as int) == v,
            old(self).free_list().len() > 0 ==> {
                &&& id == old(self).free_list().last()
                &&& final(self).len() == old(self).len()
                &&& final(self).slots() == old(self).slots().update(id as int, Some(v))
                &&& final(self).free_list() == old(self).free_list().drop_last()
                &&& final(self).epochs() == old(self).epochs()
            },
            old(self).free_list().len() == 0 ==> {
                &&& id as int == old(self).len()
                &&& final(self).slots() == old(self).slots().push(Some(v))
                &&& final(self).free_list() == old(self).free_list()
                &&& final(self).epochs() == old(self).epochs().push(0u64)
            },
    {
        match self.free.pop() {
            Some(id) => {
                proof {
                    assert(old(self).free_list()[old(self).free_list().len() - 1] == id);
                    assert(self.slots@[id as int] is None);
                }
                self.slots[id] = Some(v);
                proof {
                    assert forall|i: int|
                        self.reserved() <= i < self.len() && !((#[trigger] self.slots()[i]) is Some)
                            implies self.free_list().contains(i as usize) by {
                        assert(old(self).slots()[i] is None);
                        assert(old(self).free_list().contains(i as usize));
                        let k = choose|k: int|
                            0 <= k < old(self).free_list().len() && old(self).free_list()[k] == (
                            i as usize);
                        assert(i != id as int);
                        assert(k < old(self).free_list().len() - 1);
                        assert(self.free_list()[k] == i as usize);
                    }
                }
                id
            },
            None => {
                let id = self.slots.len();
                self.slots.push(Some(v));
                self.epochs.push(0);
                proof {
                    assert forall|i: int|
                        self.reserved() <= i < self.len() && !((#[trigger] self.slots()[i]) is Some)
                            implies self.free_list().contains(i as usize) by {
                        assert(i < old(self).len());
                        assert(old(self).slots()[i] is None);
                    }
                }
                id
            },
        }
    }

    /// Returns slot `id` to the free stack and bumps its epoch, so that any
    /// handle issued for the released incarnation is detectably stale.
    /// Rejects indices outside the arena, reserved sentinels, and slots
    /// that are already free, leaving the arena unchanged in those cases.
    pub fn release(&mut self, id: usize) -> (r: Result<(), ArenaError>)
        requires
            old(self).wf(),
            old(self).is_live(id as int) ==> old(self).epochs()[id as int] < u64::MAX,
        ensures
            final(self).wf(),
            final(self).reserved() == old(self).reserved(),
            id >= old(self).len() ==> r == Err::<(), ArenaError>(ArenaError::OutOfRange)
                && *final(self) == *old(self),
            id < old(self).reserved() ==> r == Err::<(), ArenaError>(ArenaError::Reserved)
                && *final(self) == *old(self),
            old(self).reserved() <= id < old(self).len() && !old(self).is_live(id as int) ==> r
                == Err::<(), ArenaError>(ArenaError::AlreadyFree) && *final(self) == *old(self),
            old(self).reserved() <= id < old(self).len() && old(self).is_live(id as int) ==> {
                &&& r == Ok::<(), ArenaError>(())
                &&& final(self).slots() == old(self).slots().update(id as int, None::<T>)
                &&& final(self).free_list() == old(self).free_list().push(id)
                &&& final(self).epochs() == old(self).epochs().update(
                    id as int,
                    (old(self).epochs()[id as int] + 1) as u64,
                )
                &&& final(self).len() == old(self).len()
                &&& !final(self).is_live(id as int)
            },
            r is Ok <==> old(self).reserved() <= id < old(self).len() && old(self).is_live(
                id as int,
            ),
    {
        if id >= self.slots.len() {
            Err(ArenaError::OutOfRange)
        } else if id < self.reserved {
            Err(ArenaError::Reserved)
        } else if self.slots[id].is_none() {
            Err(ArenaError::AlreadyFree)
        } else {
            let e = self.epochs[id];
            self.epochs[id] = e + 1;
            self.slots[id] = None;
            self.free.push(id);
            proof {
                assert forall|k: int|
                    0 <= k < self.free_list().len() implies self.slots()[#[trigger] self.free_list()[k] as int]
                        is None by {
                    if k < old(self).free_list().len() {
                        assert(old(self).free_list()[k] != id);
                    }
                }
                assert forall|k1: int, k2: int|
                    0 <= k1 < k2 < self.free_list().len() implies self.free_list()[k1]
                        != self.free_list()[k2] by {
                    if k2 == self.free_list().len() - 1 {
                        assert(old(self).slots()[old(self).free_list()[k1] as int] is None);
                    }
                }
                assert forall|i: int|
                    self.reserved() <= i < self.len() && !((#[trigger] self.slots()[i]) is Some)
                        implies self.free_list().contains(i as usize) by {
                    if i == id as int {
                        assert(self.free_list()[self.free_list().len() - 1] == id);
                    } else {
                        assert(old(self).slots()[i] is None);
                        let k = choose|k: int|
                            0 <= k < old(self).free_list().len() && old(self).free_list()[k] == (
                            i as usize);
                        assert(self.free_list()[k] == i as usize);
                    }
                }
            }
            Ok(())
        }
    }
}

/// No index is ever both live and on the free stack, and the free stack
/// never holds an index twice: live slots are pairwise distinct by
/// construction, and a freed index cannot alias a live one.
pub proof fn lemma_live_free_disjoint<T>(a: &Arena<T>)
    requires
        a.wf(),
    ensures
        forall|k: int|
            0 <= k < a.free_list().len() ==> !a.is_live(#[trigger] a.free_list()[k] as int),
        forall|k1: int, k2: int|
            0 <= k1 < k2 < a.free_list().len() ==> a.free_list()[k1] != a.free_list()[k2],
{
}

} // verus!
