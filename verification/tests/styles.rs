use typeset::ext::StylesExt;
use typeset::font::FontFamily;
use typeset::font::FontStretch;
use typeset::font::FontStyle;
use typeset::font::FontWeight;
use typeset::font::VerticalFontMetric;
use typeset::geom::Color;
use typeset::geom::Fill;
use typeset::geom::Length;
use typeset::geom::Linear;
use typeset::style::Style;
use typeset::style::StyleChain;
use typeset::style::StyleKey;
use typeset::style::Styles;

fn named(name: &str) -> FontFamily {
    FontFamily::Named(name.to_string())
}

fn layer(styles: Vec<Style>) -> Styles {
    let mut layer = Styles::new();
    for style in styles {
        layer.set(style);
    }
    layer
}

#[test]
fn a_layer_keeps_its_properties_in_order() {
    let layer = layer(vec![
        Style::Weight(FontWeight::bold()),
        Style::FontStyle(FontStyle::Italic),
        Style::Weight(FontWeight::light()),
    ]);
    assert_eq!(
        layer.entries,
        vec![
            Style::Weight(FontWeight::bold()),
            Style::FontStyle(FontStyle::Italic),
            Style::Weight(FontWeight::light()),
        ]
    );
}

#[test]
fn in_a_layer_the_last_property_for_a_key_counts() {
    let layer = layer(vec![
        Style::Weight(FontWeight::bold()),
        Style::FontStyle(FontStyle::Italic),
        Style::Weight(FontWeight::light()),
    ]);
    assert_eq!(layer.get(StyleKey::Weight), Some(&Style::Weight(FontWeight::light())));
    assert_eq!(layer.get(StyleKey::FontStyle), Some(&Style::FontStyle(FontStyle::Italic)));
    assert_eq!(layer.get(StyleKey::Stretch), None);
    assert_eq!(Styles::new().get(StyleKey::Weight), None);
}

#[test]
fn every_property_has_its_key() {
    let pairs = vec![
        (Style::Size(Length::pt(1)), StyleKey::Size),
        (Style::Scale(Linear::one()), StyleKey::Scale),
        (Style::Families(Vec::new()), StyleKey::Families),
        (Style::Serif(Vec::new()), StyleKey::Serif),
        (Style::SansSerif(Vec::new()), StyleKey::SansSerif),
        (Style::Monospace(Vec::new()), StyleKey::Monospace),
        (Style::FontStyle(FontStyle::Normal), StyleKey::FontStyle),
        (Style::Weight(FontWeight::regular()), StyleKey::Weight),
        (Style::Stretch(FontStretch::normal()), StyleKey::Stretch),
        (Style::TopEdge(VerticalFontMetric::Ascender), StyleKey::TopEdge),
        (Style::BottomEdge(VerticalFontMetric::Descender), StyleKey::BottomEdge),
        (Style::Fill(Fill::Color(Color::black())), StyleKey::Fill),
    ];
    for (style, key) in pairs {
        assert_eq!(style.key(), key);
        assert_eq!(Style::default_for(key).key(), key);
    }
}

#[test]
fn defaults_hold_where_nothing_is_set() {
    let empty = Styles::new();
    let chain = StyleChain::new(&empty);
    assert_eq!(chain.get(StyleKey::Size), Style::Size(Length::pt(11)));
    assert_eq!(chain.get(StyleKey::Scale), Style::Scale(Linear::one()));
    assert_eq!(chain.get(StyleKey::Families), Style::Families(Vec::new()));
    assert_eq!(chain.get(StyleKey::Serif), Style::Serif(Vec::new()));
    assert_eq!(chain.get(StyleKey::SansSerif), Style::SansSerif(Vec::new()));
    assert_eq!(chain.get(StyleKey::Monospace), Style::Monospace(Vec::new()));
    assert_eq!(chain.get(StyleKey::FontStyle), Style::FontStyle(FontStyle::Normal));
    assert_eq!(chain.get(StyleKey::Weight), Style::Weight(FontWeight::regular()));
    assert_eq!(chain.get(StyleKey::Stretch), Style::Stretch(FontStretch::normal()));
    assert_eq!(chain.get(StyleKey::TopEdge), Style::TopEdge(VerticalFontMetric::CapHeight));
    assert_eq!(chain.get(StyleKey::BottomEdge), Style::BottomEdge(VerticalFontMetric::Baseline));
    assert_eq!(
        chain.get(StyleKey::Fill),
        Style::Fill(Fill::Color(Color { r: 0, g: 0, b: 0, a: 255 }))
    );
}

#[test]
fn a_chain_asks_the_most_specific_layer_first() {
    let outer = layer(vec![
        Style::Weight(FontWeight::bold()),
        Style::FontStyle(FontStyle::Oblique),
    ]);
    let middle = layer(vec![Style::Weight(FontWeight::medium())]);
    let inner = layer(vec![Style::Stretch(FontStretch::condensed())]);
    let outer_chain = StyleChain::new(&outer);
    let middle_chain = StyleChain::chain(&middle, &outer_chain);
    let chain = StyleChain::chain(&inner, &middle_chain);
    assert_eq!(chain.get(StyleKey::Weight), Style::Weight(FontWeight::medium()));
    assert_eq!(chain.get(StyleKey::FontStyle), Style::FontStyle(FontStyle::Oblique));
    assert_eq!(chain.get(StyleKey::Stretch), Style::Stretch(FontStretch::condensed()));
    assert_eq!(chain.get(StyleKey::TopEdge), Style::TopEdge(VerticalFontMetric::CapHeight));
    assert_eq!(outer_chain.get(StyleKey::Weight), Style::Weight(FontWeight::bold()));
}

#[test]
fn a_chain_leaves_its_layers_alone() {
    let base = layer(vec![Style::Families(vec![named("a")])]);
    let chain = StyleChain::new(&base);
    let _ = chain.get(StyleKey::Families);
    let _ = chain.get(StyleKey::Weight);
    assert_eq!(base.entries, vec![Style::Families(vec![named("a")])]);
}

#[test]
fn set_family_puts_the_preferred_family_in_front() {
    let existing = layer(vec![Style::Families(vec![named("fallback"), FontFamily::Serif])]);
    let mut styles = layer(vec![Style::Weight(FontWeight::bold())]);
    styles.set_family(named("preferred"), StyleChain::new(&existing));
    assert_eq!(
        styles.entries,
        vec![
            Style::Weight(FontWeight::bold()),
            Style::Families(vec![named("preferred"), named("fallback"), FontFamily::Serif]),
        ]
    );
    assert_eq!(
        existing.entries,
        vec![Style::Families(vec![named("fallback"), FontFamily::Serif])]
    );
}

#[test]
fn set_family_takes_the_families_of_the_most_specific_layer() {
    let outer = layer(vec![Style::Families(vec![named("outer")])]);
    let inner = layer(vec![
        Style::Families(vec![named("early")]),
        Style::Families(vec![named("late"), FontFamily::Monospace]),
    ]);
    let outer_chain = StyleChain::new(&outer);
    let chain = StyleChain::chain(&inner, &outer_chain);
    let mut styles = Styles::new();
    styles.set_family(FontFamily::SansSerif, chain);
    assert_eq!(
        styles.entries,
        vec![Style::Families(vec![FontFamily::SansSerif, named("late"), FontFamily::Monospace])]
    );
}

#[test]
fn set_family_without_existing_families_sets_the_preferred_one_alone() {
    let existing = layer(vec![Style::Weight(FontWeight::bold())]);
    let mut styles = Styles::new();
    styles.set_family(named("only"), StyleChain::new(&existing));
    assert_eq!(styles.entries, vec![Style::Families(vec![named("only")])]);
}

#[test]
fn cloned_styles_are_equal() {
    let styles = layer(vec![
        Style::Families(vec![named("a"), FontFamily::Serif]),
        Style::Serif(vec!["x".to_string(), "y".to_string()]),
        Style::Size(Length::pt(9)),
    ]);
    assert_eq!(styles.clone(), styles);
    assert_eq!(named("a").clone(), named("a"));
}
