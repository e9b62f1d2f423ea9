//! The layout protocol: areas go in, frames come out.

use crate::env::Env;
use crate::env::ResourceId;
use crate::geom::Length;
use crate::geom::Point;
use crate::geom::Size;
use crate::views::views_of;
use vstd::prelude::*;

verus! {

/// How much room there is along one axis.
#[derive(Clone, Copy, Debug, PartialEq, Eq, Structural)]
pub enum Extent {
    /// Room for exactly this length.
    Finite(Length),
    /// No bound along this axis.
    Unbounded,
}

/// The room in a region, axis by axis.
#[derive(Clone, Copy, Debug, PartialEq, Eq, Structural)]
pub struct Region {
    pub width: Extent,
    pub height: Extent,
}

impl Region {
    /// The region with the given extents.
    pub fn new(width: Extent, height: Extent) -> (r: Region)
        ensures
            r == (Region { width, height }),
    {
        Region { width, height }
    }
}

/// What a node is given to lay itself out in.
#[derive(Clone, Copy, Debug, PartialEq, Eq, Structural)]
pub struct Areas {
    /// The region that is left to fill.
    pub current: Region,
    /// The whole enclosing region, against which relative lengths resolve.
    pub full: Region,
}

impl Areas {
    /// Areas whose current region is the whole of `region`.
    pub fn once(region: Region) -> (a: Areas)
        ensures
            a == (Areas { current: region, full: region }),
    {
        Areas { current: region, full: region }
    }
}

/// An image placed in a frame.
#[derive(Clone, Copy, Debug, PartialEq, Eq, Structural)]
pub struct Image {
    /// The resource that holds the pixels.
    pub id: ResourceId,
    /// The size at which the image is shown.
    pub size: Size,
}

/// Something visible in a frame.
#[derive(Clone, Copy, Debug, PartialEq, Eq, Structural)]
pub enum Element {
    Image(Image),
}

/// A finished piece of layout: a box with positioned elements in it.
#[derive(Clone, Debug, PartialEq, Eq)]
pub struct Frame {
    /// The size of the box.
    pub size: Size,
    /// How far below the top edge the baseline lies.
    pub baseline: Length,
    /// The elements, each with the position of its top left corner.
    pub elements: Vec<(Point, Element)>,
}

/// A frame with its elements as a sequence.
pub struct FrameView {
    pub size: Size,
    pub baseline: Length,
    pub elements: Seq<(Point, Element)>,
}

impl View for Frame {
    type V = FrameView;

    open spec fn view(&self) -> FrameView {
        FrameView { size: self.size, baseline: self.baseline, elements: self.elements@ }
    }
}

impl Frame {
    /// An empty frame of the given size and baseline.
    pub fn new(size: Size, baseline: Length) -> (f: Frame)
        ensures
            f@ == (FrameView { size, baseline, elements: Seq::empty() }),
    {
        Frame { size, baseline, elements: Vec::new() }
    }

    /// Places `element` at `pos`, above what is already there.
    pub fn push(&mut self, pos: Point, element: Element)
        ensures
            final(self)@ == (FrameView { elements: old(self)@.elements.push((pos, element)), ..old(self)@ }),
    {
        self.elements.push((pos, element));
    }
}

/// What layout may consult besides the node and the areas.
#[derive(Debug, PartialEq, Eq)]
pub struct LayoutContext {
    pub env: Env,
}

/// A node that can lay itself out.
pub trait Layout {
    /// The frames that this node fills when given `areas`.
    spec fn frames(&self, areas: &Areas) -> Seq<FrameView>;

    /// Lays the node out into `areas`. The result depends on the node and the
    /// areas alone, and the context is left as it was.
    fn layout(&self, ctx: &mut LayoutContext, areas: &Areas) -> (r: Vec<Frame>)
        ensures
            views_of(r@) == self.frames(areas),
            *final(ctx) == *old(ctx),
    ;
}

} // verus!
