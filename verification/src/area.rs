//! References to drawn regions.
//!
//! An [`Area`] identifies what a pointer event or the key focus is aimed at:
//! nothing, a whole view, or one drawn instance inside a view.  Areas are
//! plain values compared structurally; validating that a view index still
//! refers to a live slot is the caller's concern (see `arena`).

use vstd::prelude::*;

verus! {

/// A reference to a drawn region of the UI.
#[derive(Clone, Copy, PartialEq, Eq, Structural, Debug)]
pub enum Area {
    /// No target.
    Empty,
    /// A whole view, by its slot index in the view arena.
    View { view_id: usize },
    /// One drawn instance inside a view.
    Instance { view_id: usize, instance_id: usize },
}

impl Area {
    /// Whether this area points at anything at all.
    pub fn is_empty(&self) -> (r: bool)
        ensures
            r == (*self is Empty),
    {
        match self {
            Area::Empty => true,
            _ => false,
        }
    }
}

} // verus!
