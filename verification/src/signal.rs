//! Signal bus: deferred cross-component notification.
//!
//! A signal is an opaque identifier.  Raising it appends an event
//! generation id to the signal's pending list; draining a signal hands the
//! list over and clears it.  Within one signal, delivery order equals
//! raise order (FIFO); across distinct signals no order is promised.

use vstd::prelude::*;

use std::collections::HashMap;

verus! {

broadcast use vstd::std_specs::hash::group_hash_axioms;

/// Pending generation ids per signal id.
pub struct SignalBus {
    signals: HashMap<u64, Vec<u64>>,
}

impl SignalBus {
    /// The raw table of pending lists.
    pub closed spec fn table(&self) -> Map<u64, Vec<u64>> {
        self.signals@
    }

    /// The generation ids pending on signal `s`, oldest first.
    pub open spec fn pending_of(&self, s: u64) -> Seq<u64> {
        if self.table().contains_key(s) {
            self.table()[s]@
        } else {
            Seq::<u64>::empty()
        }
    }

    /// A bus with nothing pending.
    pub fn new() -> (b: SignalBus)
        ensures
            forall|s: u64| #[trigger] b.pending_of(s) =~= Seq::<u64>::empty(),
    {
        let signals: HashMap<u64, Vec<u64>> = HashMap::new();
        SignalBus { signals }
    }

    /// Appends `generation` to signal `s`, creating its list if absent.
    /// No other signal's pending list changes.
    pub fn raise(&mut self, s: u64, generation: u64)
        ensures
            raise_post(*old(self), *final(self), s, generation),
    {
        match self.signals.remove(&s) {
            Some(mut list) => {
                list.push(generation);
                self.signals.insert(s, list);
                proof {
                    assert(self.table() =~= old(self).table().insert(s, self.table()[s]));
                }
            },
            None => {
                let mut list: Vec<u64> = Vec::new();
                list.push(generation);
                self.signals.insert(s, list);
                proof {
                    assert(self.table() =~= old(self).table().insert(s, self.table()[s]));
                }
            },
        }
    }

    /// Hands over everything pending on `s`, oldest first, and clears it.
    pub fn drain(&mut self, s: u64) -> (r: Vec<u64>)
        ensures
            r@ == old(self).pending_of(s),
            final(self).pending_of(s) =~= Seq::<u64>::empty(),
            forall|t: u64| t != s ==> #[trigger] final(self).pending_of(t) == old(self).pending_of(
                t,
            ),
    {
        match self.signals.remove(&s) {
            Some(list) => list,
            None => Vec::new(),
        }
    }
}

/// What [`SignalBus::raise`] guarantees: the raised signal's list grows by
/// the one generation id at its end, and every other list stays as it was.
pub open spec fn raise_post(pre: SignalBus, post: SignalBus, s: u64, generation: u64) -> bool {
    &&& post.pending_of(s) == pre.pending_of(s).push(generation)
    &&& forall|t: u64| t != s ==> #[trigger] post.pending_of(t) == pre.pending_of(t)
}

/// Delivery is FIFO per signal: raising three generation ids on one signal
/// and draining it yields exactly those ids in raise order, and an
/// interleaved raise on another signal neither appears there nor disturbs
/// the order.
pub proof fn lemma_signal_fifo(
    s0: SignalBus,
    s1: SignalBus,
    s2: SignalBus,
    s3: SignalBus,
    s4: SignalBus,
    sig: u64,
    other_sig: u64,
    g1: u64,
    g2: u64,
    g3: u64,
    g_other: u64,
)
    requires
        s0.pending_of(sig) == Seq::<u64>::empty(),
        other_sig != sig,
        raise_post(s0, s1, sig, g1),
        raise_post(s1, s2, sig, g2),
        raise_post(s2, s3, other_sig, g_other),
        raise_post(s3, s4, sig, g3),
    ensures
        s4.pending_of(sig) =~= seq![g1, g2, g3],
{
    assert(s2.pending_of(sig) == s3.pending_of(sig));
}

} // verus!
