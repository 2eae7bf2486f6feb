//! Shader compile tracking.
//!
//! Draw shaders are identified by a stable integer identity.  The tracker
//! maps identities to their compiled slot, and keeps a pending set of
//! identities awaiting compilation.  The pending set is held sorted and
//! duplicate-free, so one batch drained per cycle is deterministic: the
//! same pending identities always come out in the same order, which keeps
//! externally cached compiled artifacts reproducible.  An identity whose
//! compile fails must be marked again by the caller, not dropped, so the
//! compile is retried next cycle.

use vstd::prelude::*;

use std::collections::HashMap;

verus! {

broadcast use vstd::std_specs::hash::group_hash_axioms;

/// Whether `s` is sorted strictly ascending (hence duplicate-free).
pub open spec fn sorted_strict(s: Seq<u64>) -> bool {
    forall|i: int, j: int| 0 <= i < j < s.len() ==> s[i] < s[j]
}

/// Pending shader compiles and the identity-to-slot map of finished ones.
pub struct ShaderTracker {
    pending: Vec<u64>,
    compiled: HashMap<u64, usize>,
}

impl ShaderTracker {
    /// The pending identities, in the order a drain hands them out.
    pub closed spec fn pending(&self) -> Seq<u64> {
        self.pending@
    }

    /// The map from shader identity to compiled slot.
    pub closed spec fn compiled(&self) -> Map<u64, usize> {
        self.compiled@
    }

    /// The invariant: the pending set is sorted strictly ascending.
    pub open spec fn wf(&self) -> bool {
        sorted_strict(self.pending())
    }

    /// A tracker with nothing pending and nothing compiled.
    pub fn new() -> (t: ShaderTracker)
        ensures
            t.wf(),
            t.pending() =~= Seq::<u64>::empty(),
            t.compiled() =~= Map::<u64, usize>::empty(),
    {
        ShaderTracker { pending: Vec::new(), compiled: HashMap::new() }
    }

    /// Inserts `identity` into the pending set at its sorted position; a
    /// second mark of the same identity changes nothing.
    pub fn mark_for_compile(&mut self, identity: u64)
        requires
            old(self).wf(),
        ensures
            final(self).wf(),
            final(self).compiled() == old(self).compiled(),
            forall|x: u64| #[trigger] final(self).pending().contains(x) <==> old(
                self,
            ).pending().contains(x) || x == identity,
            old(self).pending().contains(identity) ==> final(self).pending() == old(self).pending(),
            !old(self).pending().contains(identity) ==> final(self).pending().len() == old(
                self,
            ).pending().len() + 1,
    {
        let ghost pre = self.pending@;
        let mut i: usize = 0;
        while i < self.pending.len() && self.pending[i] < identity
            invariant
                0 <= i <= pre.len(),
                self.pending@ == pre,
                sorted_strict(pre),
                forall|k: int| 0 <= k < i ==> pre[k] < identity,
            decreases pre.len() - i,
        {
            i = i + 1;
        }
        if i < self.pending.len() && self.pending[i] == identity {
            proof {
                assert(self.pending().contains(identity));
            }
            return ;
        }
        proof {
            assert forall|x: u64| pre.contains(x) implies pre.subrange(0, i as int).contains(x)
                || pre.subrange(i as int, pre.len() as int).contains(x) by {
                let k = choose|k: int| 0 <= k < pre.len() && pre[k] == x;
                if k < i {
                    assert(pre.subrange(0, i as int)[k] == x);
                } else {
                    assert(pre.subrange(i as int, pre.len() as int)[k - i] == x);
                }
            }
            assert(!pre.contains(identity)) by {
                if pre.contains(identity) {
                    let k = choose|k: int| 0 <= k < pre.len() && pre[k] == identity;
                    assert(k >= i);
                    assert(pre[i as int] <= pre[k]);
                }
            }
        }
        self.pending.insert(i, identity);
        proof {
            let post = self.pending@;
            assert forall|a: int, b: int| 0 <= a < b < post.len() implies post[a] < post[b] by {
                if b == i {
                    assert(pre[a] < identity);
                } else if a == i && b > i {
                    assert(post[b] == pre[b - 1]);
                    assert(pre[i as int] >= identity);
                    assert(pre[i as int] != identity);
                } else if a < i && b > i {
                    assert(post[a] == pre[a] && post[b] == pre[b - 1]);
                    assert(pre[a] < pre[b - 1]);
                }
            }
            assert forall|x: u64| #[trigger] post.contains(x) implies pre.contains(x) || x
                == identity by {
                let k = choose|k: int| 0 <= k < post.len() && post[k] == x;
                if k < i {
                    assert(pre[k] == x);
                } else if k > i {
                    assert(pre[k - 1] == x);
                }
            }
            assert forall|x: u64| pre.contains(x) implies post.contains(x) by {
                let k = choose|k: int| 0 <= k < pre.len() && pre[k] == x;
                if k < i {
                    assert(post[k] == x);
                } else {
                    assert(post[k + 1] == x);
                }
            }
            assert(post.contains(identity)) by {
                assert(post[i as int] == identity);
            }
        }
    }

    /// The compiled slot for `identity`, if one was recorded.
    pub fn resolve(&self, identity: u64) -> (r: Option<usize>)
        ensures
            match r {
                Some(slot) => self.compiled().contains_key(identity) && self.compiled()[identity]
                    == slot,
                None => !self.compiled().contains_key(identity),
            },
    {
        match self.compiled.get(&identity) {
            Some(slot) => Some(*slot),
            None => None,
        }
    }

    /// Records that `identity` now lives compiled in `slot`.
    pub fn record_compiled(&mut self, identity: u64, slot: usize)
        ensures
            final(self).compiled() == old(self).compiled().insert(identity, slot),
            final(self).pending() == old(self).pending(),
    {
        self.compiled.insert(identity, slot);
    }

    /// Hands out the whole pending batch, sorted ascending and free of
    /// duplicates, and leaves nothing pending.  Identities the external
    /// compiler rejects must be marked again by the caller.
    pub fn drain_pending(&mut self) -> (batch: Vec<u64>)
        requires
            old(self).wf(),
        ensures
            final(self).wf(),
            batch@ == old(self).pending(),
            sorted_strict(batch@),
            final(self).pending() =~= Seq::<u64>::empty(),
            final(self).compiled() == old(self).compiled(),
    {
        let mut batch: Vec<u64> = Vec::new();
        std::mem::swap(&mut batch, &mut self.pending);
        batch
    }
}

} // verus!
