//! Images in the document.

use crate::args::Arg;
use crate::args::convertible_position;
use crate::args::FuncArgs;
use crate::args::got;
use crate::args::required;
use crate::content::Content;
use crate::env::PixelSize;
use crate::env::position_of;
use crate::env::ResourceId;
use crate::eval::Diag;
use crate::eval::DiagView;
use crate::eval::EvalContext;
use crate::eval::EvalView;
use crate::eval::Level;
use crate::geom::Length;
use crate::geom::Linear;
use crate::geom::Point;
use crate::geom::saturated;
use crate::geom::Size;
use crate::geom::UNITS_PER_PT;
use crate::layout::Areas;
use crate::layout::Element;
use crate::layout::Extent;
use crate::layout::Frame;
use crate::layout::FrameView;
use crate::layout::Image;
use crate::layout::Layout;
use crate::layout::LayoutContext;
use crate::layout::Region;
use crate::template::Template;
use crate::value::Span;
use crate::value::Spanned;
use crate::value::Value;
use crate::views::view_of;
use crate::views::views_of;
use vstd::prelude::*;

verus! {

/// What the arguments of a call of `image` bind to, the arguments that are
/// left, and the diagnostics so far.
pub struct ImageBinding {
    /// The path, with the place where it was written.
    pub path: Option<(Seq<char>, Span)>,
    pub width: Option<Linear>,
    pub height: Option<Linear>,
    pub items: Seq<Arg>,
    pub diags: Seq<DiagView>,
}

/// Binds the arguments of a call of `image` at `span`: the path is the first
/// string by position and has to be there, the width and the height go by
/// their names.
pub open spec fn image_binding(items: Seq<Arg>, diags: Seq<DiagView>, span: Span) -> ImageBinding {
    let path = required::<String>(items, diags, span, "path to image file"@);
    let width = got::<Linear>(path.items, path.diags, "width"@);
    let height = got::<Linear>(width.items, width.diags, "height"@);
    ImageBinding {
        path: match path.value {
            Some(v) => Some((v, items[convertible_position::<String>(items)].value.span)),
            None => None,
        },
        width: width.value,
        height: height.value,
        items: height.items,
        diags: height.diags,
    }
}

/// `image`: An image.
///
/// Supports PNG and JPEG files.
///
/// # Positional parameters
/// - Path to image file: of type `string`.
///
/// # Named parameters
/// - Width of the image: `width`, of type `linear`.
/// - Height of the image: `height`, of type `linear`.
///
/// # Return value
/// A template that inserts an image.
pub fn image(ctx: &mut EvalContext, args: &mut FuncArgs) -> (r: Value)
    ensures
        ({
            let binding = image_binding(old(args).items@, old(ctx)@.diags, old(args).span);
            &&& final(args).span == old(args).span
            &&& final(args).items@ == binding.items
            &&& final(ctx)@ == (EvalView { diags: binding.diags, ..old(ctx)@ })
            &&& r matches Value::Template(Template::Image(template)) && template.holds(binding)
        }),
{
    let path = args.require::<String>(ctx, "path to image file");
    let width = args.get::<Linear>(ctx, "width");
    let height = args.get::<Linear>(ctx, "height");

    Value::Template(Template::Image(ImageTemplate { path, width, height }))
}

/// What a fixed dimension comes to against the full extent `full`: nothing where
/// none was asked for, and nothing where a relative part meets an unbounded axis.
pub open spec fn resolved_against(fixed: Option<Linear>, full: Extent) -> Option<int> {
    match fixed {
        None => None,
        Some(linear) => match full {
            Extent::Finite(base) => Some(linear.resolved(base@)),
            Extent::Unbounded => if linear.rel@ == 0 {
                Some(linear.abs@)
            } else {
                None
            },
        },
    }
}

/// The length `len` times `num / den`, rounded down and kept in range.
pub open spec fn in_ratio(len: int, num: int, den: int) -> int {
    saturated(len * num / den)
}

/// Whether the region is bounded in width and, held against its own height, narrower
/// than an image of `px_width` by `px_height` pixels. The two ratios are compared
/// by cross-multiplication; a region without a bound on its height is narrower
/// than any image.
pub open spec fn narrower_than(current: Region, px_width: int, px_height: int) -> bool {
    match current.width {
        Extent::Unbounded => false,
        Extent::Finite(w) => match current.height {
            Extent::Unbounded => true,
            Extent::Finite(h) => w@ * px_height < px_width * h@,
        },
    }
}

/// The size, in length units, at which an image of `px_width` by `px_height` pixels
/// is shown: fixed dimensions win; one fixed dimension settles the other through
/// the pixel ratio; with none, the image fits the current region by its width
/// where that is the tighter bound, else by its height, and takes one point for
/// each pixel where the region has no bound at all.
pub open spec fn image_size(
    px_width: int,
    px_height: int,
    width: Option<int>,
    height: Option<int>,
    current: Region,
) -> (int, int) {
    match (width, height) {
        (Some(w), Some(h)) => (w, h),
        (Some(w), None) => (w, in_ratio(w, px_height, px_width)),
        (None, Some(h)) => (in_ratio(h, px_width, px_height), h),
        (None, None) => if narrower_than(current, px_width, px_height) {
            let w = current.width->Finite_0@;
            (w, in_ratio(w, px_height, px_width))
        } else if current.height is Finite {
            let h = current.height->Finite_0@;
            (in_ratio(h, px_width, px_height), h)
        } else {
            (px_width * UNITS_PER_PT, px_height * UNITS_PER_PT)
        },
    }
}

/// An image node.
#[derive(Clone, Copy, Debug, PartialEq, Eq, Structural)]
pub struct ImageNode {
    /// The resource id of the image file.
    pub id: ResourceId,
    /// The pixel dimensions of the image.
    pub dimensions: PixelSize,
    /// The fixed width, if any.
    pub width: Option<Linear>,
    /// The fixed height, if any.
    pub height: Option<Linear>,
}

impl ImageNode {
    /// The size at which this node is shown in `areas`.
    pub open spec fn size_in(&self, areas: &Areas) -> (int, int) {
        image_size(
            self.dimensions.px_width(),
            self.dimensions.px_height(),
            resolved_against(self.width, areas.full.width),
            resolved_against(self.height, areas.full.height),
            areas.current,
        )
    }
}

/// Resolves a fixed dimension against the full extent of its axis.
fn resolve_against(fixed: Option<Linear>, full: Extent) -> (r: Option<Length>)
    ensures
        match r {
            Some(len) => resolved_against(fixed, full) == Some(len@),
            None => resolved_against(fixed, full) is None,
        },
{
    match fixed {
        None => None,
        Some(linear) => match full {
            Extent::Finite(base) => Some(linear.resolve(base)),
            Extent::Unbounded => if linear.rel.is_zero() {
                Some(linear.abs)
            } else {
                None
            },
        },
    }
}

/// The width of the current region where it is narrower than the image; see
/// `narrower_than`.
fn narrower_width(current: Region, px_width: u32, px_height: u32) -> (r: Option<Length>)
    ensures
        match r {
            Some(w) => narrower_than(current, px_width as int, px_height as int)
                && current.width == Extent::Finite(w),
            None => !narrower_than(current, px_width as int, px_height as int),
        },
{
    match current.width {
        Extent::Unbounded => None,
        Extent::Finite(w) => match current.height {
            Extent::Unbounded => Some(w),
            Extent::Finite(h) => {
                assert(-0x8000_0000_0000_0000_0000_0000 <= w.units * px_height <= 0x8000_0000_0000_0000_0000_0000) by (nonlinear_arith)
                    requires
                        -0x8000_0000_0000_0000 <= w.units <= 0x8000_0000_0000_0000,
                        0 <= px_height <= 0x1_0000_0000,
                ;
                assert(-0x8000_0000_0000_0000_0000_0000 <= px_width * h.units <= 0x8000_0000_0000_0000_0000_0000) by (nonlinear_arith)
                    requires
                        -0x8000_0000_0000_0000 <= h.units <= 0x8000_0000_0000_0000,
                        0 <= px_width <= 0x1_0000_0000,
                ;
                if (w.units as i128) * (px_height as i128) < (px_width as i128) * (h.units as i128) {
                    Some(w)
                } else {
                    None
                }
            },
        },
    }
}

impl Layout for ImageNode {
    open spec fn frames(&self, areas: &Areas) -> Seq<FrameView> {
        let (w, h) = self.size_in(areas);
        let size = Size { width: Length { units: w as i64 }, height: Length { units: h as i64 } };
        seq![
            FrameView {
                size,
                baseline: size.height,
                elements: seq![(
                    Point { x: Length { units: 0 }, y: Length { units: 0 } },
                    Element::Image(Image { id: self.id, size }),
                )],
            },
        ]
    }

    /// Lays the image out as the one frame that `frames` describes: a box of
    /// the image's size with its baseline at the bottom edge, and in it the
    /// image at the origin.
    fn layout(&self, ctx: &mut LayoutContext, areas: &Areas) -> (r: Vec<Frame>)
        ensures
            r@.len() == 1,
            r@[0]@ == self.frames(areas)[0],
    {
        let px_width = self.dimensions.width();
        let px_height = self.dimensions.height();

        let width = resolve_against(self.width, areas.full.width);
        let height = resolve_against(self.height, areas.full.height);

        let size = match (width, height) {
            (Some(width), Some(height)) => Size::new(width, height),
            (Some(width), None) => Size::new(width, width.scaled(px_height, px_width)),
            (None, Some(height)) => Size::new(height.scaled(px_width, px_height), height),
            (None, None) => {
                if let Some(w) = narrower_width(areas.current, px_width, px_height) {
                    Size::new(w, w.scaled(px_height, px_width))
                } else {
                    match areas.current.height {
                        Extent::Finite(h) => Size::new(h.scaled(px_width, px_height), h),
                        Extent::Unbounded => Size::new(Length::pt(px_width), Length::pt(px_height)),
                    }
                }
            },
        };

        let mut frame = Frame::new(size, size.height);
        frame.push(Point::zero(), Element::Image(Image { id: self.id, size }));

        let mut frames: Vec<Frame> = Vec::new();
        frames.push(frame);
        assert(views_of(frames@) =~= self.frames(areas));
        frames
    }
}

/// An image that waits to be inserted.
#[derive(Debug, PartialEq, Eq)]
pub struct ImageTemplate {
    /// The path to the image file, where one was given.
    pub path: Option<Spanned<String>>,
    /// The fixed width, if any.
    pub width: Option<Linear>,
    /// The fixed height, if any.
    pub height: Option<Linear>,
}

impl ImageTemplate {
    /// Whether this template holds what `binding` bound.
    pub open spec fn holds(&self, binding: ImageBinding) -> bool {
        &&& match self.path {
            Some(path) => binding.path == Some((path.v@, path.span)),
            None => binding.path is None,
        }
        &&& view_of(self.width) == binding.width
        &&& view_of(self.height) == binding.height
    }

    /// The context after this template has run against `ctx`: with the image
    /// appended where the environment holds one for the path, with an error
    /// about the path where it holds none, and as it was where no path was
    /// given.
    pub open spec fn run(&self, ctx: EvalView) -> EvalView {
        match self.path {
            None => ctx,
            Some(path) => {
                let images = ctx.env.images@;
                let at = position_of(images, path.v@);
                if at < images.len() {
                    let node = ImageNode {
                        id: ResourceId { index: at as usize },
                        dimensions: images[at].size,
                        width: self.width,
                        height: self.height,
                    };
                    EvalView { content: ctx.content.push(Content::Image(node)), ..ctx }
                } else {
                    let diag = DiagView {
                        level: Level::Error,
                        span: path.span,
                        message: "failed to load image"@,
                    };
                    EvalView { diags: ctx.diags.push(diag), ..ctx }
                }
            },
        }
    }

    /// Runs this template against `ctx`.
    pub fn execute(&self, ctx: &mut EvalContext)
        ensures
            final(ctx)@ == self.run(old(ctx)@),
    {
        if let Some(path) = &self.path {
            let loaded = ctx.env.load_resource(path.v.as_str());
            if let Some(id) = loaded {
                let img = ctx.env.resource(id);
                let dimensions = img.size;
                ctx.push(Content::from(ImageNode { id, dimensions, width: self.width, height: self.height }));
            } else {
                ctx.diag(Diag::error(path.span, String::from_str("failed to load image")));
            }
        }
    }
}

} // verus!
