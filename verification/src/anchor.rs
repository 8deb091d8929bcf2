//! Anchor positioning for floating elements: which corner of the anchor a
//! floating element attaches to, which of its own corners goes there, the
//! direction its gap pushes it, and the registry of named anchors with their
//! last painted bounds.

use vstd::prelude::*;

use std::collections::HashMap;

use crate::style_fields::{FloatingAlign, FloatingSide};
use crate::model::ElementId;
use crate::registry::NameTable;

verus! {

/// A point on the outline of a box: a corner or the middle of an edge.
#[derive(Debug, Clone, Copy, PartialEq, Eq, Structural)]
pub enum Corner {
    TopLeft,
    TopCenter,
    TopRight,
    LeftCenter,
    RightCenter,
    BottomLeft,
    BottomCenter,
    BottomRight,
}

impl Corner {
    /// Horizontal position: -1 left, 0 centre, 1 right.
    pub open spec fn x(self) -> int {
        match self {
            Corner::TopLeft | Corner::LeftCenter | Corner::BottomLeft => -1,
            Corner::TopCenter | Corner::BottomCenter => 0,
            Corner::TopRight | Corner::RightCenter | Corner::BottomRight => 1,
        }
    }

    /// Vertical position: -1 top, 0 middle, 1 bottom.
    pub open spec fn y(self) -> int {
        match self {
            Corner::TopLeft | Corner::TopCenter | Corner::TopRight => -1,
            Corner::LeftCenter | Corner::RightCenter => 0,
            Corner::BottomLeft | Corner::BottomCenter | Corner::BottomRight => 1,
        }
    }
}

/// Position along an edge: -1 at its start, 0 centred, 1 at its end.
pub open spec fn align_pos(align: FloatingAlign) -> int {
    match align {
        FloatingAlign::Start => -1,
        FloatingAlign::Center => 0,
        FloatingAlign::End => 1,
    }
}

/// Map a floating `side`/`align` to `(attach, floating)`: the floating
/// element's `floating` corner is placed at the anchor's `attach` corner.
pub fn floating_corners(side: FloatingSide, align: FloatingAlign) -> (r: (Corner, Corner))
    ensures
        match side {
            FloatingSide::Bottom => r.0.y() == 1 && r.1.y() == -1 && r.0.x() == align_pos(align) && r.1.x()
                == align_pos(align),
            FloatingSide::Top => r.0.y() == -1 && r.1.y() == 1 && r.0.x() == align_pos(align) && r.1.x()
                == align_pos(align),
            FloatingSide::Right => r.0.x() == 1 && r.1.x() == -1 && r.0.y() == align_pos(align) && r.1.y()
                == align_pos(align),
            FloatingSide::Left => r.0.x() == -1 && r.1.x() == 1 && r.0.y() == align_pos(align) && r.1.y()
                == align_pos(align),
        },
{
    match (side, align) {
        (FloatingSide::Bottom, FloatingAlign::Start) => (Corner::BottomLeft, Corner::TopLeft),
        (FloatingSide::Bottom, FloatingAlign::Center) => (Corner::BottomCenter, Corner::TopCenter),
        (FloatingSide::Bottom, FloatingAlign::End) => (Corner::BottomRight, Corner::TopRight),
        (FloatingSide::Top, FloatingAlign::Start) => (Corner::TopLeft, Corner::BottomLeft),
        (FloatingSide::Top, FloatingAlign::Center) => (Corner::TopCenter, Corner::BottomCenter),
        (FloatingSide::Top, FloatingAlign::End) => (Corner::TopRight, Corner::BottomRight),
        (FloatingSide::Right, FloatingAlign::Start) => (Corner::TopRight, Corner::TopLeft),
        (FloatingSide::Right, FloatingAlign::Center) => (Corner::RightCenter, Corner::LeftCenter),
        (FloatingSide::Right, FloatingAlign::End) => (Corner::BottomRight, Corner::BottomLeft),
        (FloatingSide::Left, FloatingAlign::Start) => (Corner::TopLeft, Corner::TopRight),
        (FloatingSide::Left, FloatingAlign::Center) => (Corner::LeftCenter, Corner::RightCenter),
        (FloatingSide::Left, FloatingAlign::End) => (Corner::BottomLeft, Corner::BottomRight),
    }
}

/// Direction, as `(dx, dy)` signs, in which the gap along `side` pushes the
/// floating element away from its anchor.
pub fn side_direction(side: FloatingSide) -> (r: (i8, i8))
    ensures
        r == (match side {
            FloatingSide::Top => (0i8, -1i8),
            FloatingSide::Bottom => (0i8, 1i8),
            FloatingSide::Left => (-1i8, 0i8),
            FloatingSide::Right => (1i8, 0i8),
        }),
{
    match side {
        FloatingSide::Top => (0, -1),
        FloatingSide::Bottom => (0, 1),
        FloatingSide::Left => (-1, 0),
        FloatingSide::Right => (1, 0),
    }
}

/// Named anchors and their last painted bounds (`B`, a renderer value).
/// A floating element bound to a name is positioned against the bounds of
/// the element that last registered the name.
pub struct AnchorRegistry<B> {
    names: NameTable<ElementId>,
    bounds: HashMap<ElementId, B>,
}

impl<B> AnchorRegistry<B> {
    /// The element each anchor name belongs to.
    pub closed spec fn names(&self) -> Map<Seq<char>, ElementId> {
        self.names@
    }

    /// The last painted bounds of each anchor element.
    pub closed spec fn bounds(&self) -> Map<ElementId, B> {
        self.bounds@
    }

    pub closed spec fn wf(&self) -> bool {
        self.names.wf()
    }

    pub fn new() -> (r: Self)
        ensures
            r.wf(),
            r.names() == Map::<Seq<char>, ElementId>::empty(),
            r.bounds() == Map::<ElementId, B>::empty(),
    {
        AnchorRegistry { names: NameTable::new(), bounds: HashMap::new() }
    }

    /// Whether `id` has recorded bounds (it was painted as an anchor).
    pub fn has_bounds(&self, id: ElementId) -> (r: bool)
        ensures
            r == self.bounds().contains_key(id),
    {
        self.bounds.contains_key(&id)
    }

    /// Register `id` as the anchor named `name` (the last registration of a
    /// name wins).
    pub fn register_name(&mut self, name: String, id: ElementId)
        requires
            old(self).wf(),
        ensures
            final(self).wf(),
            final(self).names() == old(self).names().insert(name@, id),
            final(self).bounds() == old(self).bounds(),
    {
        self.names.insert(name, id);
    }

    /// Drop every name that belongs to `id`.
    pub fn clear_name_for(&mut self, id: ElementId)
        requires
            old(self).wf(),
        ensures
            final(self).wf(),
            final(self).names() == Map::new(
                |k: Seq<char>| old(self).names().contains_key(k) && old(self).names()[k] != id,
                |k: Seq<char>| old(self).names()[k],
            ),
            final(self).bounds() == old(self).bounds(),
    {
        self.names.remove_value(id);
    }

    /// Record the bounds `id` was painted with; returns the bounds recorded
    /// before (so the caller can tell whether they moved).
    pub fn record_bounds(&mut self, id: ElementId, b: B) -> (r: Option<B>)
        ensures
            final(self).bounds() == old(self).bounds().insert(id, b),
            final(self).names() == old(self).names(),
            final(self).wf() == old(self).wf(),
            r == (if old(self).bounds().contains_key(id) {
                Some(old(self).bounds()[id])
            } else {
                None
            }),
    {
        self.bounds.insert(id, b)
    }

    /// Forget `id`'s bounds.
    pub fn drop_bounds(&mut self, id: ElementId)
        ensures
            final(self).bounds() == old(self).bounds().remove(id),
            final(self).names() == old(self).names(),
            final(self).wf() == old(self).wf(),
    {
        self.bounds.remove(&id);
    }

    /// Forget everything about a removed element.
    pub fn evict(&mut self, id: ElementId)
        requires
            old(self).wf(),
        ensures
            final(self).wf(),
            final(self).bounds() == old(self).bounds().remove(id),
            final(self).names() == Map::new(
                |k: Seq<char>| old(self).names().contains_key(k) && old(self).names()[k] != id,
                |k: Seq<char>| old(self).names()[k],
            ),
    {
        self.drop_bounds(id);
        self.clear_name_for(id);
    }

    /// Forget every anchor (full reload).
    pub fn clear(&mut self)
        ensures
            final(self).wf(),
            final(self).names() == Map::<Seq<char>, ElementId>::empty(),
            final(self).bounds() == Map::<ElementId, B>::empty(),
    {
        self.names = NameTable::new();
        self.bounds.clear();
    }

    /// The bounds of the anchor named `name`, once it has been painted.
    pub fn anchor_bounds(&self, name: &str) -> (r: Option<&B>)
        requires
            self.wf(),
        ensures
            match r {
                Some(b) => self.names().contains_key(name@) && self.bounds().contains_key(self.names()[name@])
                    && *b == self.bounds()[self.names()[name@]],
                None => !self.names().contains_key(name@) || !self.bounds().contains_key(self.names()[name@]),
            },
    {
        match self.names.get(name) {
            Some(id) => self.bounds.get(id),
            None => None,
        }
    }
}

} // verus!
