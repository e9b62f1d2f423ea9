//! The content tree.

use crate::geom::Axes;
use crate::geom::Linear;
use crate::geom::Sides;
use crate::library::image::ImageNode;
use vstd::prelude::*;

verus! {

/// Where a link leads.
#[derive(Clone, Debug, PartialEq, Eq)]
pub enum Destination {
    /// A resource on the network, by its address.
    Url(String),
}

/// Where content sits along an axis.
#[derive(Clone, Copy, Debug, PartialEq, Eq, Structural)]
pub enum GenAlign {
    Start,
    Center,
    End,
}

/// A piece of content: a leaf, or content that wraps other content.
#[derive(Debug, PartialEq, Eq)]
pub enum Content {
    /// Nothing at all.
    Empty,
    /// An image.
    Image(ImageNode),
    /// Content set with strong emphasis.
    Strong(Box<Content>),
    /// Content set with emphasis.
    Emph(Box<Content>),
    /// Underlined content.
    Underline(Box<Content>),
    /// Content that leads somewhere when activated.
    Link(Box<Content>, Destination),
    /// Content with fixed alignments.
    Align(Box<Content>, Axes<Option<GenAlign>>),
    /// Content with room around it.
    Pad(Box<Content>, Sides<Linear>),
    /// Content shown away from where it was laid out.
    Move(Box<Content>, Axes<Linear>),
}

impl From<ImageNode> for Content {
    fn from(image: ImageNode) -> (r: Content) {
        Content::Image(image)
    }
}

impl vstd::std_specs::convert::FromSpecImpl<ImageNode> for Content {
    open spec fn obeys_from_spec() -> bool {
        true
    }

    open spec fn from_spec(image: ImageNode) -> Content {
        Content::Image(image)
    }
}

} // verus!
