//! Dirty/redraw scheduling.
//!
//! Views move `Clean -> Dirty -> (drawn) -> Clean`.  Dirty marks collect in
//! a pending buffer; a cycle begins by swapping pending into current, so
//! the traversal iterates a set that marks arriving *during* the traversal
//! can no longer reach — they land in the next cycle's buffer.  A global
//! "redraw all" flag forces every currently live view into the next
//! cycle's set exactly once and then clears itself.  Each cycle advances
//! the monotonic redraw generation counter.

use vstd::prelude::*;

verus! {

/// Whether `s` holds no index twice.
pub open spec fn unique(s: Seq<usize>) -> bool {
    forall|i: int, j: int| 0 <= i < j < s.len() ==> s[i] != s[j]
}

/// Double-buffered dirty sets, the redraw-all flag, and the redraw
/// generation counter.
pub struct RedrawScheduler {
    current: Vec<usize>,
    pending: Vec<usize>,
    redraw_all: bool,
    in_cycle: bool,
    redraw_id: u64,
}

impl RedrawScheduler {
    /// The view indices the current cycle traverses.
    pub closed spec fn current(&self) -> Seq<usize> {
        self.current@
    }

    /// The view indices marked for the next cycle.
    pub closed spec fn pending(&self) -> Seq<usize> {
        self.pending@
    }

    /// Whether the next cycle must traverse every live view.
    pub closed spec fn redraw_all(&self) -> bool {
        self.redraw_all
    }

    /// Whether a cycle is underway.
    pub closed spec fn in_cycle(&self) -> bool {
        self.in_cycle
    }

    /// The redraw generation counter.
    pub closed spec fn redraw_id(&self) -> u64 {
        self.redraw_id
    }

    /// The invariant: neither buffer holds an index twice.
    pub open spec fn wf(&self) -> bool {
        unique(self.current()) && unique(self.pending())
    }

    /// A fresh scheduler: nothing marked, everything forced dirty for the
    /// first cycle, generation counter at 1.
    pub fn new() -> (s: RedrawScheduler)
        ensures
            s.wf(),
            s.current() =~= Seq::<usize>::empty(),
            s.pending() =~= Seq::<usize>::empty(),
            s.redraw_all(),
            !s.in_cycle(),
            s.redraw_id() == 1,
    {
        RedrawScheduler {
            current: Vec::new(),
            pending: Vec::new(),
            redraw_all: true,
            in_cycle: false,
            redraw_id: 1,
        }
    }

    /// Marks `view` dirty for the *next* cycle.  The set being traversed
    /// now is never touched, so a draw handler that marks views cannot
    /// extend its own cycle.  Marking twice is harmless.
    pub fn mark_dirty(&mut self, view: usize)
        requires
            old(self).wf(),
        ensures
            mark_post(*old(self), *final(self), view),
    {
        let mut i: usize = 0;
        while i < self.pending.len()
            invariant
                old(self).wf(),
                0 <= i <= self.pending@.len(),
                forall|k: int| 0 <= k < i ==> self.pending@[k] != view,
                *self == *old(self),
            decreases self.pending@.len() - i,
        {
            if self.pending[i] == view {
                proof {
                    assert(self.pending().contains(view));
                }
                return ;
            }
            i = i + 1;
        }
        proof {
            assert(!old(self).pending().contains(view)) by {
                if old(self).pending().contains(view) {
                    let k = choose|k: int|
                        0 <= k < old(self).pending().len() && old(self).pending()[k] == view;
                }
            }
        }
        self.pending.push(view);
        proof {
            let pre = old(self).pending();
            let post = self.pending();
            assert forall|a: int, b: int| 0 <= a < b < post.len() implies post[a] != post[b] by {
                if b == post.len() - 1 {
                    assert(pre.contains(pre[a]));
                }
            }
            assert forall|x: usize| #[trigger] post.contains(x) implies pre.contains(x) || x
                == view by {
                let k = choose|k: int| 0 <= k < post.len() && post[k] == x;
                if k < post.len() - 1 {
                    assert(pre[k] == x);
                }
            }
            assert forall|x: usize| pre.contains(x) implies post.contains(x) by {
                let k = choose|k: int| 0 <= k < pre.len() && pre[k] == x;
                assert(post[k] == x);
            }
            assert(post.contains(view)) by {
                assert(post[post.len() - 1] == view);
            }
        }
    }

    /// Requests that every live view be redrawn next cycle.
    pub fn set_redraw_all(&mut self)
        ensures
            final(self).redraw_all(),
            final(self).current() == old(self).current(),
            final(self).pending() == old(self).pending(),
            final(self).in_cycle() == old(self).in_cycle(),
            final(self).redraw_id() == old(self).redraw_id(),
    {
        self.redraw_all = true;
    }

    /// Begins a cycle: the traversal set becomes the pending marks — or
    /// every index in `live` when the redraw-all flag was set, after which
    /// the flag is clear again — the pending buffer empties for marks
    /// arriving during the traversal, and the generation counter advances.
    pub fn begin_cycle(&mut self, live: &Vec<usize>) -> (generation: u64)
        requires
            old(self).wf(),
            old(self).redraw_id() < u64::MAX,
            unique(live@),
        ensures
            begin_post(*old(self), *final(self), live@),
            generation == final(self).redraw_id(),
    {
        if self.redraw_all {
            let mut cur: Vec<usize> = Vec::new();
            let mut i: usize = 0;
            while i < live.len()
                invariant
                    0 <= i <= live@.len(),
                    cur@ == live@.subrange(0, i as int),
                decreases live@.len() - i,
            {
                cur.push(live[i]);
                proof {
                    assert(live@.subrange(0, i + 1) =~= live@.subrange(0, i as int).push(
                        live@[i as int],
                    ));
                }
                i = i + 1;
            }
            proof {
                assert(cur@ =~= live@);
            }
            self.current = cur;
            self.pending.clear();
        } else {
            std::mem::swap(&mut self.current, &mut self.pending);
            self.pending.clear();
        }
        self.redraw_all = false;
        self.in_cycle = true;
        self.redraw_id = self.redraw_id + 1;
        self.redraw_id
    }

    /// Ends the cycle; the traversal set stays readable until the next
    /// cycle begins.
    pub fn end_cycle(&mut self)
        ensures
            !final(self).in_cycle(),
            final(self).current() == old(self).current(),
            final(self).pending() == old(self).pending(),
            final(self).redraw_all() == old(self).redraw_all(),
            final(self).redraw_id() == old(self).redraw_id(),
    {
        self.in_cycle = false;
    }

    /// The current redraw generation, as executable code.
    pub fn redraw_id_now(&self) -> (g: u64)
        ensures
            g == self.redraw_id(),
    {
        self.redraw_id
    }

    /// The traversal set of the cycle underway, as executable code.
    pub fn current_views(&self) -> (v: &Vec<usize>)
        ensures
            v@ == self.current(),
    {
        &self.current
    }
}

/// What [`RedrawScheduler::mark_dirty`] guarantees: only the pending
/// buffer changes, and only by coming to contain the marked view.
pub open spec fn mark_post(pre: RedrawScheduler, post: RedrawScheduler, view: usize) -> bool {
    &&& post.wf()
    &&& post.current() == pre.current()
    &&& post.redraw_all() == pre.redraw_all()
    &&& post.in_cycle() == pre.in_cycle()
    &&& post.redraw_id() == pre.redraw_id()
    &&& forall|x: usize| #[trigger] post.pending().contains(x) <==> pre.pending().contains(x) || x
        == view
    &&& pre.pending().contains(view) ==> post.pending() == pre.pending()
}

/// What [`RedrawScheduler::begin_cycle`] guarantees: the traversal set is
/// the pending marks, or all live views when redraw-all was set; the
/// pending buffer is empty, the flag is clear, a cycle is underway, and
/// the generation counter advanced by one.
pub open spec fn begin_post(pre: RedrawScheduler, post: RedrawScheduler, live: Seq<usize>) -> bool {
    &&& post.wf()
    &&& post.in_cycle()
    &&& !post.redraw_all()
    &&& post.redraw_id() == pre.redraw_id() + 1
    &&& post.pending() == Seq::<usize>::empty()
    &&& (pre.redraw_all() ==> post.current() == live)
    &&& (!pre.redraw_all() ==> post.current() == pre.pending())
}

/// Marks issued during a cycle's traversal never appear in that cycle's
/// set; they appear in the next cycle's set.
pub proof fn lemma_marks_deferred(
    s0: RedrawScheduler,
    s1: RedrawScheduler,
    s2: RedrawScheduler,
    s3: RedrawScheduler,
    live1: Seq<usize>,
    live2: Seq<usize>,
    view: usize,
)
    requires
        begin_post(s0, s1, live1),
        mark_post(s1, s2, view),
        begin_post(s2, s3, live2),
    ensures
        s2.current() == s1.current(),
        s3.current().contains(view),
{
}

/// Setting the redraw-all flag forces every live view index into the next
/// traversal set exactly once — the set is duplicate-free — after which
/// the flag is clear, and a further cycle with no marks traverses nothing.
pub proof fn lemma_redraw_all_once(
    s0: RedrawScheduler,
    s1: RedrawScheduler,
    s2: RedrawScheduler,
    live1: Seq<usize>,
    live2: Seq<usize>,
)
    requires
        s0.redraw_all(),
        begin_post(s0, s1, live1),
        begin_post(s1, s2, live2),
    ensures
        s1.current() == live1,
        forall|a: int, b: int|
            0 <= a < b < s1.current().len() ==> s1.current()[a] != s1.current()[b],
        !s1.redraw_all(),
        s2.current() == Seq::<usize>::empty(),
{
}

} // verus!
