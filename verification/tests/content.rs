use typeset::content::Content;
use typeset::content::Destination;
use typeset::content::GenAlign;
use typeset::env::PixelSize;
use typeset::env::ResourceId;
use typeset::ext::ContentExt;
use typeset::geom::Axes;
use typeset::geom::Length;
use typeset::geom::Linear;
use typeset::geom::Relative;
use typeset::geom::Sides;
use typeset::library::image::ImageNode;

fn leaf() -> Content {
    Content::Image(ImageNode {
        id: ResourceId { index: 0 },
        dimensions: PixelSize::new(4, 3).unwrap(),
        width: None,
        height: None,
    })
}

#[test]
fn strong_emph_and_underlined_wrap_the_content() {
    assert_eq!(leaf().strong(), Content::Strong(Box::new(leaf())));
    assert_eq!(leaf().emph(), Content::Emph(Box::new(leaf())));
    assert_eq!(leaf().underlined(), Content::Underline(Box::new(leaf())));
}

#[test]
fn wrappers_nest_in_the_order_of_the_calls() {
    assert_eq!(
        Content::Empty.strong().emph().underlined(),
        Content::Underline(Box::new(Content::Emph(Box::new(Content::Strong(Box::new(
            Content::Empty
        ))))))
    );
}

#[test]
fn linked_keeps_the_destination() {
    let dest = Destination::Url("https://example.org/".to_string());
    assert_eq!(
        leaf().linked(dest.clone()),
        Content::Link(Box::new(leaf()), dest)
    );
}

#[test]
fn aligned_keeps_the_alignments() {
    let aligns = Axes { x: Some(GenAlign::Center), y: None };
    assert_eq!(leaf().aligned(aligns), Content::Align(Box::new(leaf()), aligns));
}

#[test]
fn padded_keeps_each_side() {
    let padding = Sides {
        left: Linear::absolute(Length::pt(1)),
        top: Linear::absolute(Length::pt(2)),
        right: Linear::relative(Relative::new(100)),
        bottom: Linear::new(Relative::new(50), Length::pt(4)),
    };
    match leaf().padded(padding) {
        Content::Pad(body, sides) => {
            assert_eq!(*body, leaf());
            assert_eq!(sides.left, Linear::absolute(Length::pt(1)));
            assert_eq!(sides.top, Linear::absolute(Length::pt(2)));
            assert_eq!(sides.right, Linear::relative(Relative::new(100)));
            assert_eq!(sides.bottom, Linear::new(Relative::new(50), Length::pt(4)));
        }
        other => panic!("{:?}", other),
    }
}

#[test]
fn moved_keeps_the_shift() {
    let delta = Axes { x: Linear::absolute(Length::pt(5)), y: Linear::absolute(Length::raw(-7)) };
    assert_eq!(leaf().moved(delta), Content::Move(Box::new(leaf()), delta));
}

#[test]
fn an_image_node_becomes_content() {
    let node = ImageNode {
        id: ResourceId { index: 2 },
        dimensions: PixelSize::new(8, 6).unwrap(),
        width: Some(Linear::one()),
        height: None,
    };
    assert_eq!(Content::from(node), Content::Image(node));
    let content: Content = node.into();
    assert_eq!(content, Content::Image(node));
}
