//! Native scrollbar state: the grab offset of each thumb being dragged (per
//! scroll container and axis), and which thumb colour an interaction state
//! paints. The grab offset `G` and colour `C` are renderer values.

use vstd::prelude::*;

use std::collections::HashMap;

use crate::model::ElementId;

verus! {

/// A scroll axis.
#[derive(Debug, Clone, Copy, PartialEq, Eq, Structural)]
pub enum Axis {
    Horizontal,
    Vertical,
}

/// Thumb drags in progress, by scroll container: the grab offset along the
/// horizontal and the vertical axis.
pub struct ScrollbarDrags<G> {
    grabs: HashMap<ElementId, (Option<G>, Option<G>)>,
}

/// The grab of `axis` in a container's pair.
pub open spec fn grab_of<G>(pair: (Option<G>, Option<G>), axis: Axis) -> Option<G> {
    match axis {
        Axis::Horizontal => pair.0,
        Axis::Vertical => pair.1,
    }
}

impl<G: Copy> ScrollbarDrags<G> {
    /// The grab offset of each `(container, axis)` with a drag in progress.
    pub closed spec fn grab(&self, target: ElementId, axis: Axis) -> Option<G> {
        if self.grabs@.contains_key(target) {
            grab_of(self.grabs@[target], axis)
        } else {
            None
        }
    }

    pub fn new() -> (r: Self)
        ensures
            forall|t: ElementId, a: Axis| r.grab(t, a) is None,
    {
        ScrollbarDrags { grabs: HashMap::new() }
    }

    /// The grab offset of the drag on `target`'s `axis` thumb.
    pub fn drag_grab(&self, target: ElementId, axis: Axis) -> (r: Option<G>)
        ensures
            r == self.grab(target, axis),
    {
        match self.grabs.get(&target) {
            Some(pair) => match axis {
                Axis::Horizontal => pair.0,
                Axis::Vertical => pair.1,
            },
            None => None,
        }
    }

    /// Start (or move) the drag on `target`'s `axis` thumb.
    pub fn set_drag_grab(&mut self, target: ElementId, axis: Axis, grab: G)
        ensures
            forall|t: ElementId, a: Axis|
                #[trigger] final(self).grab(t, a) == if t == target && a == axis {
                    Some(grab)
                } else {
                    old(self).grab(t, a)
                },
    {
        let pair = match self.grabs.get(&target) {
            Some(p) => *p,
            None => (None, None),
        };
        let new_pair = match axis {
            Axis::Horizontal => (Some(grab), pair.1),
            Axis::Vertical => (pair.0, Some(grab)),
        };
        self.grabs.insert(target, new_pair);
    }

    /// End the drag on `target`'s `axis` thumb.
    pub fn clear_drag_grab(&mut self, target: ElementId, axis: Axis)
        ensures
            forall|t: ElementId, a: Axis|
                #[trigger] final(self).grab(t, a) == if t == target && a == axis {
                    None
                } else {
                    old(self).grab(t, a)
                },
    {
        match self.grabs.get(&target) {
            Some(p) => {
                let pair = *p;
                let new_pair = match axis {
                    Axis::Horizontal => (None, pair.1),
                    Axis::Vertical => (pair.0, None),
                };
                self.grabs.insert(target, new_pair);
            },
            None => {},
        }
    }

    /// Forget both drags of a detached container.
    pub fn clear_scrollbar_drag_for(&mut self, target: ElementId)
        ensures
            forall|t: ElementId, a: Axis|
                #[trigger] final(self).grab(t, a) == if t == target {
                    None
                } else {
                    old(self).grab(t, a)
                },
    {
        self.grabs.remove(&target);
    }

    /// Forget every drag (full reload).
    pub fn clear_scrollbar_drag(&mut self)
        ensures
            forall|t: ElementId, a: Axis| #[trigger] final(self).grab(t, a) is None,
    {
        self.grabs.clear();
    }
}

/// Thumb fill per interaction state.
#[derive(Debug, Clone, Copy)]
pub struct ThumbColors<C> {
    pub base: C,
    pub hover: Option<C>,
    pub active: Option<C>,
}

impl<C: Copy> ThumbColors<C> {
    /// The fill to paint: while dragging the active colour, else the hover
    /// one, else the base; while hovered the hover colour, else the base.
    pub fn pick(&self, hovered: bool, dragging: bool) -> (r: C)
        ensures
            r == (if dragging {
                match self.active {
                    Some(c) => c,
                    None => match self.hover {
                        Some(c) => c,
                        None => self.base,
                    },
                }
            } else if hovered {
                match self.hover {
                    Some(c) => c,
                    None => self.base,
                }
            } else {
                self.base
            }),
    {
        if dragging {
            match self.active {
                Some(c) => c,
                None => match self.hover {
                    Some(c) => c,
                    None => self.base,
                },
            }
        } else if hovered {
            match self.hover {
                Some(c) => c,
                None => self.base,
            }
        } else {
            self.base
        }
    }
}

} // verus!
