//! Input routing: per-finger touch state and the key-focus chain.
//!
//! Each finger (up to [`NUM_FINGERS`] simultaneous touch points) tracks the
//! area that captured it, its press positions, a tap-count accumulator for
//! multi-tap gestures, and its hover target for enter/leave detection.
//! Key focus is a three-slot chain — previous, current, next — rotated
//! once per event cycle, so a focus change is the diff between current and
//! next and yields exactly one focus-lost/focus-gained pair.
//!
//! Tap thresholds (time and distance) are tunable parameters supplied at
//! construction, not fixed constants.

use vstd::prelude::*;

use crate::area::Area;
use crate::pos::Pos;
use crate::pos::is_near;
use crate::pos::near;

verus! {

/// The multi-touch cap: how many fingers are tracked at once.
pub const NUM_FINGERS: usize = 10;

/// The tap-count accumulator of one finger: where and when the last press
/// landed, and how many consecutive taps it closed.
#[derive(Clone, Copy, PartialEq, Eq, Structural, Debug)]
pub struct TapState {
    pub pos: Pos,
    pub time: u64,
    pub count: u32,
}

/// The tracked state of one finger.
#[derive(Clone, Copy, PartialEq, Eq, Structural, Debug)]
pub struct CxPerFinger {
    /// The area that captured this finger on press, cleared on release.
    pub captured: Area,
    /// The tap-count accumulator.
    pub tap: TapState,
    /// Absolute position of the press that started the current gesture.
    pub down_abs_start: Pos,
    /// The same press relative to the captured area.
    pub down_rel_start: Pos,
    /// The hover target seen this cycle.
    pub over_last: Area,
    /// The hover target of the previous cycle, diffed for enter/leave.
    pub prev_over_last: Area,
}

impl CxPerFinger {
    /// A finger that has touched nothing yet.
    pub fn idle() -> (f: CxPerFinger)
        ensures
            f == CxPerFinger::idle_spec(),
    {
        CxPerFinger {
            captured: Area::Empty,
            tap: TapState { pos: Pos { x: 0, y: 0 }, time: 0, count: 0 },
            down_abs_start: Pos { x: 0, y: 0 },
            down_rel_start: Pos { x: 0, y: 0 },
            over_last: Area::Empty,
            prev_over_last: Area::Empty,
        }
    }

    /// The initial finger state.
    pub open spec fn idle_spec() -> CxPerFinger {
        CxPerFinger {
            captured: Area::Empty,
            tap: TapState { pos: Pos { x: 0, y: 0 }, time: 0, count: 0 },
            down_abs_start: Pos { x: 0, y: 0 },
            down_rel_start: Pos { x: 0, y: 0 },
            over_last: Area::Empty,
            prev_over_last: Area::Empty,
        }
    }
}

/// Whether a press at `pos`/`time` continues the tap run recorded in
/// `tap`: it must land within `dist_threshold` of the previous tap and no
/// later than `time_threshold` after it (a clock that jumped backwards
/// ends the run).
pub open spec fn continues_run(
    tap: TapState,
    pos: Pos,
    time: u64,
    time_threshold: u64,
    dist_threshold: u32,
) -> bool {
    &&& tap.time <= time <= tap.time + time_threshold
    &&& near(pos, tap.pos, dist_threshold)
}

/// The tap accumulator after a press: the count grows by one while the
/// run continues (saturating), else resets to 1; position and time are
/// re-anchored at the new press.
pub open spec fn press_step(
    tap: TapState,
    pos: Pos,
    time: u64,
    time_threshold: u64,
    dist_threshold: u32,
) -> TapState {
    TapState {
        pos,
        time,
        count: if continues_run(tap, pos, time, time_threshold, dist_threshold) {
            if tap.count < u32::MAX {
                (tap.count + 1) as u32
            } else {
                u32::MAX
            }
        } else {
            1u32
        },
    }
}

/// What one focus rotation yields: who lost and who gained.
#[derive(Clone, Copy, PartialEq, Eq, Structural, Debug)]
pub struct FocusChange {
    pub lost: Area,
    pub gained: Area,
}

/// What a hover update yields: nothing, or an enter/leave pair against
/// the previous cycle's target.
#[derive(Clone, Copy, PartialEq, Eq, Structural, Debug)]
pub enum HoverChange {
    Unchanged,
    Changed { left: Area, entered: Area },
}

/// Per-finger state, the key-focus chain, and drag-source tracking.
pub struct InputRouter {
    fingers: Vec<CxPerFinger>,
    key_focus: Area,
    prev_key_focus: Area,
    next_key_focus: Area,
    drag_area: Area,
    new_drag_area: Area,
    tap_time_threshold: u64,
    tap_dist_threshold: u32,
}

impl InputRouter {
    /// The tracked fingers.
    pub closed spec fn fingers(&self) -> Seq<CxPerFinger> {
        self.fingers@
    }

    /// The focus target of this cycle.
    pub closed spec fn key_focus(&self) -> Area {
        self.key_focus
    }

    /// The focus target before the last rotation.
    pub closed spec fn prev_key_focus(&self) -> Area {
        self.prev_key_focus
    }

    /// The focus target requested for the next cycle.
    pub closed spec fn next_key_focus(&self) -> Area {
        self.next_key_focus
    }

    /// The drag source acknowledged at the last cycle end.
    pub closed spec fn drag_area(&self) -> Area {
        self.drag_area
    }

    /// The drag source requested during this cycle.
    pub closed spec fn new_drag_area(&self) -> Area {
        self.new_drag_area
    }

    /// The tap-run time threshold.
    pub closed spec fn tap_time_threshold(&self) -> u64 {
        self.tap_time_threshold
    }

    /// The tap-run distance threshold.
    pub closed spec fn tap_dist_threshold(&self) -> u32 {
        self.tap_dist_threshold
    }

    /// The invariant: exactly [`NUM_FINGERS`] fingers are tracked.
    pub open spec fn wf(&self) -> bool {
        self.fingers().len() == NUM_FINGERS
    }

    /// A router with idle fingers, empty focus chain, and the given tap
    /// thresholds.
    pub fn new(tap_time_threshold: u64, tap_dist_threshold: u32) -> (r: InputRouter)
        ensures
            r.wf(),
            forall|i: int| 0 <= i < NUM_FINGERS ==> r.fingers()[i] == CxPerFinger::idle_spec(),
            r.key_focus() == Area::Empty,
            r.prev_key_focus() == Area::Empty,
            r.next_key_focus() == Area::Empty,
            r.drag_area() == Area::Empty,
            r.new_drag_area() == Area::Empty,
            r.tap_time_threshold() == tap_time_threshold,
            r.tap_dist_threshold() == tap_dist_threshold,
    {
        let mut fingers: Vec<CxPerFinger> = Vec::new();
        let mut i: usize = 0;
        while i < NUM_FINGERS
            invariant
                0 <= i <= NUM_FINGERS,
                fingers@.len() == i,
                forall|k: int| 0 <= k < i ==> fingers@[k] == CxPerFinger::idle_spec(),
            decreases NUM_FINGERS - i,
        {
            fingers.push(CxPerFinger::idle());
            i = i + 1;
        }
        InputRouter {
            fingers,
            key_focus: Area::Empty,
            prev_key_focus: Area::Empty,
            next_key_focus: Area::Empty,
            drag_area: Area::Empty,
            new_drag_area: Area::Empty,
            tap_time_threshold,
            tap_dist_threshold,
        }
    }

    /// Handles a press of `finger` at absolute position `abs` (and `rel`
    /// relative to the captured area) at time `time`: records the down
    /// positions and advances the tap accumulator, returning the tap count
    /// this press reached.  Nothing else changes.
    pub fn on_press(&mut self, finger: usize, abs: Pos, rel: Pos, time: u64) -> (count: u32)
        requires
            old(self).wf(),
            finger < NUM_FINGERS,
        ensures
            final(self).wf(),
            final(self).fingers()[finger as int].tap == press_step(
                old(self).fingers()[finger as int].tap,
                abs,
                time,
                old(self).tap_time_threshold(),
                old(self).tap_dist_threshold(),
            ),
            count == final(self).fingers()[finger as int].tap.count,
            final(self).fingers()[finger as int].down_abs_start == abs,
            final(self).fingers()[finger as int].down_rel_start == rel,
            final(self).fingers()[finger as int].captured == old(self).fingers()[finger as int].captured,
            final(self).fingers()[finger as int].over_last == old(self).fingers()[finger as int].over_last,
            final(self).fingers()[finger as int].prev_over_last == old(
                self,
            ).fingers()[finger as int].prev_over_last,
            forall|k: int|
                0 <= k < NUM_FINGERS && k != finger ==> final(self).fingers()[k] == old(
                    self,
                ).fingers()[k],
            unchanged_focus_and_drag(*old(self), *final(self)),
    {
        let f = self.fingers[finger];
        let continues: bool = f.tap.time <= time && time - f.tap.time <= self.tap_time_threshold
            && is_near(abs, f.tap.pos, self.tap_dist_threshold);
        let count: u32 = if continues {
            if f.tap.count < u32::MAX {
                f.tap.count + 1
            } else {
                u32::MAX
            }
        } else {
            1
        };
        self.fingers[finger] = CxPerFinger {
            captured: f.captured,
            tap: TapState { pos: abs, time, count },
            down_abs_start: abs,
            down_rel_start: rel,
            over_last: f.over_last,
            prev_over_last: f.prev_over_last,
        };
        count
    }

    /// Lets `area` capture the finger (set by the component that handles
    /// the press).
    pub fn capture(&mut self, finger: usize, area: Area)
        requires
            old(self).wf(),
            finger < NUM_FINGERS,
        ensures
            final(self).wf(),
            final(self).fingers()[finger as int] == (CxPerFinger {
                captured: area,
                ..old(self).fingers()[finger as int]
            }),
            forall|k: int|
                0 <= k < NUM_FINGERS && k != finger ==> final(self).fingers()[k] == old(
                    self,
                ).fingers()[k],
            unchanged_focus_and_drag(*old(self), *final(self)),
    {
        let f = self.fingers[finger];
        self.fingers[finger] = CxPerFinger { captured: area, ..f };
    }

    /// Handles a move of `finger` whose hit test resolved to `hit`: the
    /// hover target becomes `hit`, and if that differs from the previous
    /// cycle's target the enter/leave pair to notify is returned.
    pub fn on_move(&mut self, finger: usize, hit: Area) -> (change: HoverChange)
        requires
            old(self).wf(),
            finger < NUM_FINGERS,
        ensures
            final(self).wf(),
            final(self).fingers()[finger as int] == (CxPerFinger {
                over_last: hit,
                ..old(self).fingers()[finger as int]
            }),
            change == (if hit == old(self).fingers()[finger as int].prev_over_last {
                HoverChange::Unchanged
            } else {
                HoverChange::Changed {
                    left: old(self).fingers()[finger as int].prev_over_last,
                    entered: hit,
                }
            }),
            forall|k: int|
                0 <= k < NUM_FINGERS && k != finger ==> final(self).fingers()[k] == old(
                    self,
                ).fingers()[k],
            unchanged_focus_and_drag(*old(self), *final(self)),
    {
        let f = self.fingers[finger];
        self.fingers[finger] = CxPerFinger { over_last: hit, ..f };
        if hit == f.prev_over_last {
            HoverChange::Unchanged
        } else {
            HoverChange::Changed { left: f.prev_over_last, entered: hit }
        }
    }

    /// Handles a release of `finger`: the capture is cleared, everything
    /// else (tap accumulator included: a later press may continue the run)
    /// stays.
    pub fn on_release(&mut self, finger: usize)
        requires
            old(self).wf(),
            finger < NUM_FINGERS,
        ensures
            final(self).wf(),
            final(self).fingers()[finger as int] == (CxPerFinger {
                captured: Area::Empty,
                ..old(self).fingers()[finger as int]
            }),
            forall|k: int|
                0 <= k < NUM_FINGERS && k != finger ==> final(self).fingers()[k] == old(
                    self,
                ).fingers()[k],
            unchanged_focus_and_drag(*old(self), *final(self)),
    {
        let f = self.fingers[finger];
        self.fingers[finger] = CxPerFinger { captured: Area::Empty, ..f };
    }

    /// Requests key focus for `area` from the next rotation on.
    pub fn set_key_focus(&mut self, area: Area)
        ensures
            final(self).next_key_focus() == area,
            final(self).key_focus() == old(self).key_focus(),
            final(self).prev_key_focus() == old(self).prev_key_focus(),
            final(self).fingers() == old(self).fingers(),
            final(self).drag_area() == old(self).drag_area(),
            final(self).new_drag_area() == old(self).new_drag_area(),
            unchanged_thresholds(*old(self), *final(self)),
    {
        self.next_key_focus = area;
    }

    /// Rotates the focus chain at cycle end and returns the one
    /// focus-lost/focus-gained pair to notify, or nothing when the
    /// requested focus already is the current one.
    pub fn rotate_key_focus(&mut self) -> (change: Option<FocusChange>)
        ensures
            rotate_post(*old(self), *final(self), change),
    {
        if self.next_key_focus == self.key_focus {
            None
        } else {
            self.prev_key_focus = self.key_focus;
            self.key_focus = self.next_key_focus;
            Some(FocusChange { lost: self.prev_key_focus, gained: self.key_focus })
        }
    }

    /// Closes the hover cycle: every finger's hover target becomes the
    /// previous-cycle value the next cycle diffs against.
    pub fn end_hover_cycle(&mut self)
        requires
            old(self).wf(),
        ensures
            final(self).wf(),
            forall|k: int|
                0 <= k < NUM_FINGERS ==> final(self).fingers()[k] == (CxPerFinger {
                    prev_over_last: old(self).fingers()[k].over_last,
                    ..old(self).fingers()[k]
                }),
            unchanged_focus_and_drag(*old(self), *final(self)),
    {
        let mut i: usize = 0;
        while i < self.fingers.len()
            invariant
                old(self).wf(),
                0 <= i <= NUM_FINGERS,
                self.fingers@.len() == NUM_FINGERS,
                forall|k: int|
                    0 <= k < i ==> self.fingers@[k] == (CxPerFinger {
                        prev_over_last: old(self).fingers()[k].over_last,
                        ..old(self).fingers()[k]
                    }),
                forall|k: int| i <= k < NUM_FINGERS ==> self.fingers@[k] == old(self).fingers()[k],
                self.key_focus == old(self).key_focus,
                self.prev_key_focus == old(self).prev_key_focus,
                self.next_key_focus == old(self).next_key_focus,
                self.drag_area == old(self).drag_area,
                self.new_drag_area == old(self).new_drag_area,
                self.tap_time_threshold == old(self).tap_time_threshold,
                self.tap_dist_threshold == old(self).tap_dist_threshold,
            decreases NUM_FINGERS - i,
        {
            let f = self.fingers[i];
            self.fingers[i] = CxPerFinger { prev_over_last: f.over_last, ..f };
            i = i + 1;
        }
    }

    /// The state of one finger.
    pub fn finger(&self, index: usize) -> (f: CxPerFinger)
        requires
            self.wf(),
            index < NUM_FINGERS,
        ensures
            f == self.fingers()[index as int],
    {
        self.fingers[index]
    }

    /// The focus target of this cycle.
    pub fn get_key_focus(&self) -> (a: Area)
        ensures
            a == self.key_focus(),
    {
        self.key_focus
    }

    /// The focus target before the last rotation.
    pub fn get_prev_key_focus(&self) -> (a: Area)
        ensures
            a == self.prev_key_focus(),
    {
        self.prev_key_focus
    }

    /// The focus target requested for the next cycle.
    pub fn get_next_key_focus(&self) -> (a: Area)
        ensures
            a == self.next_key_focus(),
    {
        self.next_key_focus
    }

    /// The drag source acknowledged at the last cycle end.
    pub fn get_drag_area(&self) -> (a: Area)
        ensures
            a == self.drag_area(),
    {
        self.drag_area
    }

    /// Requests `area` as the drag source for this cycle.
    pub fn set_drag_source(&mut self, area: Area)
        ensures
            final(self).new_drag_area() == area,
            final(self).drag_area() == old(self).drag_area(),
            final(self).fingers() == old(self).fingers(),
            final(self).key_focus() == old(self).key_focus(),
            final(self).prev_key_focus() == old(self).prev_key_focus(),
            final(self).next_key_focus() == old(self).next_key_focus(),
            unchanged_thresholds(*old(self), *final(self)),
    {
        self.new_drag_area = area;
    }

    /// Acknowledges the requested drag source at cycle end.
    pub fn end_drag_cycle(&mut self)
        ensures
            final(self).drag_area() == old(self).new_drag_area(),
            final(self).new_drag_area() == old(self).new_drag_area(),
            final(self).fingers() == old(self).fingers(),
            final(self).key_focus() == old(self).key_focus(),
            final(self).prev_key_focus() == old(self).prev_key_focus(),
            final(self).next_key_focus() == old(self).next_key_focus(),
            unchanged_thresholds(*old(self), *final(self)),
    {
        self.drag_area = self.new_drag_area;
    }
}

/// The focus chain, drag areas and thresholds are untouched.
pub open spec fn unchanged_focus_and_drag(pre: InputRouter, post: InputRouter) -> bool {
    &&& post.key_focus() == pre.key_focus()
    &&& post.prev_key_focus() == pre.prev_key_focus()
    &&& post.next_key_focus() == pre.next_key_focus()
    &&& post.drag_area() == pre.drag_area()
    &&& post.new_drag_area() == pre.new_drag_area()
    &&& unchanged_thresholds(pre, post)
}

/// The tap thresholds are untouched.
pub open spec fn unchanged_thresholds(pre: InputRouter, post: InputRouter) -> bool {
    &&& post.tap_time_threshold() == pre.tap_time_threshold()
    &&& post.tap_dist_threshold() == pre.tap_dist_threshold()
}

/// What [`InputRouter::rotate_key_focus`] guarantees: no change requested
/// means no rotation and no notification; otherwise current slides to
/// previous, next becomes current, and exactly the one lost/gained pair
/// for that change is reported.  Fingers, drag state and the requested
/// next focus stay as they were.
pub open spec fn rotate_post(
    pre: InputRouter,
    post: InputRouter,
    change: Option<FocusChange>,
) -> bool {
    &&& post.fingers() == pre.fingers()
    &&& post.next_key_focus() == pre.next_key_focus()
    &&& post.drag_area() == pre.drag_area()
    &&& post.new_drag_area() == pre.new_drag_area()
    &&& unchanged_thresholds(pre, post)
    &&& (pre.next_key_focus() == pre.key_focus() ==> {
        &&& change is None
        &&& post.key_focus() == pre.key_focus()
        &&& post.prev_key_focus() == pre.prev_key_focus()
    })
    &&& (pre.next_key_focus() != pre.key_focus() ==> {
        &&& post.prev_key_focus() == pre.key_focus()
        &&& post.key_focus() == pre.next_key_focus()
        &&& change == Some(
            FocusChange { lost: pre.key_focus(), gained: pre.next_key_focus() },
        )
    })
}

/// Three presses at one position within the time threshold accumulate tap
/// counts 1, 2, 3; a fourth press after the threshold has elapsed resets
/// the count to 1.
pub proof fn lemma_tap_accumulator(
    tap0: TapState,
    pos: Pos,
    t1: u64,
    t2: u64,
    t3: u64,
    t4: u64,
    time_threshold: u64,
    dist_threshold: u32,
)
    requires
        !continues_run(tap0, pos, t1, time_threshold, dist_threshold),
        t1 <= t2 <= t1 + time_threshold,
        t2 <= t3 <= t2 + time_threshold,
        t3 + time_threshold < t4,
    ensures
        ({
            let tap1 = press_step(tap0, pos, t1, time_threshold, dist_threshold);
            let tap2 = press_step(tap1, pos, t2, time_threshold, dist_threshold);
            let tap3 = press_step(tap2, pos, t3, time_threshold, dist_threshold);
            let tap4 = press_step(tap3, pos, t4, time_threshold, dist_threshold);
            tap1.count == 1 && tap2.count == 2 && tap3.count == 3 && tap4.count == 1
        }),
{
}

/// One cycle with previous=current=A and next=B rotates to previous=A,
/// current=B and emits exactly one lost(A)/gained(B) pair; a second cycle
/// with no further focus request emits nothing and changes nothing.
pub proof fn lemma_focus_rotation(
    s0: InputRouter,
    s1: InputRouter,
    s2: InputRouter,
    c1: Option<FocusChange>,
    c2: Option<FocusChange>,
)
    requires
        s0.prev_key_focus() == s0.key_focus(),
        s0.next_key_focus() != s0.key_focus(),
        rotate_post(s0, s1, c1),
        rotate_post(s1, s2, c2),
    ensures
        s1.prev_key_focus() == s0.key_focus(),
        s1.key_focus() == s0.next_key_focus(),
        c1 == Some(FocusChange { lost: s0.key_focus(), gained: s0.next_key_focus() }),
        c2 is None,
        s2.key_focus() == s1.key_focus(),
        s2.prev_key_focus() == s1.prev_key_focus(),
{
}

} // verus!
