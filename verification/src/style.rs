//! The style cascade: layers of keyed properties and the chains that look
//! through them.

use crate::font::FamilyView;
use crate::font::FontFamily;
use crate::font::FontStretch;
use crate::font::FontStyle;
use crate::font::FontWeight;
use crate::font::VerticalFontMetric;
use crate::geom::Color;
use crate::geom::Fill;
use crate::geom::Length;
use crate::geom::Linear;
use crate::geom::RATIO_ONE;
use crate::geom::UNITS_PER_PT;
use crate::views::views_of;
use vstd::prelude::*;

verus! {

/// The font size in points that holds where none was set.
pub const DEFAULT_SIZE_PT: u32 = 11;

/// What a property is about.
#[derive(Clone, Copy, Debug, PartialEq, Eq, Structural)]
pub enum StyleKey {
    Size,
    Scale,
    Families,
    Serif,
    SansSerif,
    Monospace,
    FontStyle,
    Weight,
    Stretch,
    TopEdge,
    BottomEdge,
    Fill,
}

/// A property: its key together with its value.
#[derive(Debug, PartialEq, Eq)]
pub enum Style {
    /// The font size.
    Size(Length),
    /// The font size relative to the size that was set.
    Scale(Linear),
    /// The families to try, most wanted first.
    Families(Vec<FontFamily>),
    /// What the generic serif family stands for.
    Serif(Vec<String>),
    /// What the generic sans-serif family stands for.
    SansSerif(Vec<String>),
    /// What the generic monospace family stands for.
    Monospace(Vec<String>),
    /// The slant.
    FontStyle(FontStyle),
    /// The weight.
    Weight(FontWeight),
    /// The stretch.
    Stretch(FontStretch),
    /// Where the top of a line of text lies.
    TopEdge(VerticalFontMetric),
    /// Where the bottom of a line of text lies.
    BottomEdge(VerticalFontMetric),
    /// What glyphs are filled with.
    Fill(Fill),
}

/// A property over sequences.
pub enum StyleView {
    Size(Length),
    Scale(Linear),
    Families(Seq<FamilyView>),
    Serif(Seq<Seq<char>>),
    SansSerif(Seq<Seq<char>>),
    Monospace(Seq<Seq<char>>),
    FontStyle(FontStyle),
    Weight(FontWeight),
    Stretch(FontStretch),
    TopEdge(VerticalFontMetric),
    BottomEdge(VerticalFontMetric),
    Fill(Fill),
}

impl StyleView {
    /// What this property is about.
    pub open spec fn key(self) -> StyleKey {
        match self {
            StyleView::Size(_) => StyleKey::Size,
            StyleView::Scale(_) => StyleKey::Scale,
            StyleView::Families(_) => StyleKey::Families,
            StyleView::Serif(_) => StyleKey::Serif,
            StyleView::SansSerif(_) => StyleKey::SansSerif,
            StyleView::Monospace(_) => StyleKey::Monospace,
            StyleView::FontStyle(_) => StyleKey::FontStyle,
            StyleView::Weight(_) => StyleKey::Weight,
            StyleView::Stretch(_) => StyleKey::Stretch,
            StyleView::TopEdge(_) => StyleKey::TopEdge,
            StyleView::BottomEdge(_) => StyleKey::BottomEdge,
            StyleView::Fill(_) => StyleKey::Fill,
        }
    }
}

impl View for Style {
    type V = StyleView;

    open spec fn view(&self) -> StyleView {
        match self {
            Style::Size(v) => StyleView::Size(*v),
            Style::Scale(v) => StyleView::Scale(*v),
            Style::Families(list) => StyleView::Families(views_of(list@)),
            Style::Serif(names) => StyleView::Serif(views_of(names@)),
            Style::SansSerif(names) => StyleView::SansSerif(views_of(names@)),
            Style::Monospace(names) => StyleView::Monospace(views_of(names@)),
            Style::FontStyle(v) => StyleView::FontStyle(*v),
            Style::Weight(v) => StyleView::Weight(*v),
            Style::Stretch(v) => StyleView::Stretch(*v),
            Style::TopEdge(v) => StyleView::TopEdge(*v),
            Style::BottomEdge(v) => StyleView::BottomEdge(*v),
            Style::Fill(v) => StyleView::Fill(*v),
        }
    }
}

impl Clone for Style {
    fn clone(&self) -> (r: Style)
        ensures
            r@ == self@,
    {
        match self {
            Style::Size(v) => Style::Size(*v),
            Style::Scale(v) => Style::Scale(*v),
            Style::Families(list) => Style::Families(list.clone()),
            Style::Serif(names) => Style::Serif(names.clone()),
            Style::SansSerif(names) => Style::SansSerif(names.clone()),
            Style::Monospace(names) => Style::Monospace(names.clone()),
            Style::FontStyle(v) => Style::FontStyle(*v),
            Style::Weight(v) => Style::Weight(*v),
            Style::Stretch(v) => Style::Stretch(*v),
            Style::TopEdge(v) => Style::TopEdge(*v),
            Style::BottomEdge(v) => Style::BottomEdge(*v),
            Style::Fill(v) => Style::Fill(*v),
        }
    }
}

impl Style {
    /// What this property is about.
    pub fn key(&self) -> (k: StyleKey)
        ensures
            k == self@.key(),
    {
        match self {
            Style::Size(_) => StyleKey::Size,
            Style::Scale(_) => StyleKey::Scale,
            Style::Families(_) => StyleKey::Families,
            Style::Serif(_) => StyleKey::Serif,
            Style::SansSerif(_) => StyleKey::SansSerif,
            Style::Monospace(_) => StyleKey::Monospace,
            Style::FontStyle(_) => StyleKey::FontStyle,
            Style::Weight(_) => StyleKey::Weight,
            Style::Stretch(_) => StyleKey::Stretch,
            Style::TopEdge(_) => StyleKey::TopEdge,
            Style::BottomEdge(_) => StyleKey::BottomEdge,
            Style::Fill(_) => StyleKey::Fill,
        }
    }

    /// The property that holds for `key` where no layer sets one.
    pub fn default_for(key: StyleKey) -> (r: Style)
        ensures
            default_style(key, r@),
    {
        match key {
            StyleKey::Size => Style::Size(Length::pt(DEFAULT_SIZE_PT)),
            StyleKey::Scale => Style::Scale(Linear::one()),
            StyleKey::Families => {
                let r = Style::Families(Vec::new());
                assert(r@->Families_0 =~= Seq::empty());
                r
            },
            StyleKey::Serif => {
                let r = Style::Serif(Vec::new());
                assert(r@->Serif_0 =~= Seq::empty());
                r
            },
            StyleKey::SansSerif => {
                let r = Style::SansSerif(Vec::new());
                assert(r@->SansSerif_0 =~= Seq::empty());
                r
            },
            StyleKey::Monospace => {
                let r = Style::Monospace(Vec::new());
                assert(r@->Monospace_0 =~= Seq::empty());
                r
            },
            StyleKey::FontStyle => Style::FontStyle(FontStyle::Normal),
            StyleKey::Weight => Style::Weight(FontWeight::regular()),
            StyleKey::Stretch => Style::Stretch(FontStretch::normal()),
            StyleKey::TopEdge => Style::TopEdge(VerticalFontMetric::CapHeight),
            StyleKey::BottomEdge => Style::BottomEdge(VerticalFontMetric::Baseline),
            StyleKey::Fill => Style::Fill(Fill::Color(Color::black())),
        }
    }
}

/// Whether `style` is the property that holds for `key` where no layer sets
/// one: a size of eleven points at its full scale, no families, the normal
/// style, regular weight and normal stretch, lines that reach from the cap
/// height to the baseline, and black.
pub open spec fn default_style(key: StyleKey, style: StyleView) -> bool {
    match key {
        StyleKey::Size => style matches StyleView::Size(v) && v@ == DEFAULT_SIZE_PT * UNITS_PER_PT,
        StyleKey::Scale => style matches StyleView::Scale(v) && v.rel@ == RATIO_ONE && v.abs@ == 0,
        StyleKey::Families => style == StyleView::Families(Seq::empty()),
        StyleKey::Serif => style == StyleView::Serif(Seq::empty()),
        StyleKey::SansSerif => style == StyleView::SansSerif(Seq::empty()),
        StyleKey::Monospace => style == StyleView::Monospace(Seq::empty()),
        StyleKey::FontStyle => style == StyleView::FontStyle(FontStyle::Normal),
        StyleKey::Weight => style matches StyleView::Weight(v) && v@ == 400,
        StyleKey::Stretch => style matches StyleView::Stretch(v) && v@ == 1000,
        StyleKey::TopEdge => style == StyleView::TopEdge(VerticalFontMetric::CapHeight),
        StyleKey::BottomEdge => style == StyleView::BottomEdge(VerticalFontMetric::Baseline),
        StyleKey::Fill => style == StyleView::Fill(Fill::Color(Color { r: 0, g: 0, b: 0, a: 255 })),
    }
}

/// The last property in `entries` that is about `key`.
pub open spec fn lookup(entries: Seq<StyleView>, key: StyleKey) -> Option<StyleView>
    decreases entries.len(),
{
    if entries.len() == 0 {
        None
    } else if entries.last().key() == key {
        Some(entries.last())
    } else {
        lookup(entries.drop_last(), key)
    }
}

/// One layer of properties, in the order in which they were set. Where a key
/// was set more than once, the last one counts.
#[derive(Debug, PartialEq, Eq)]
pub struct Styles {
    pub entries: Vec<Style>,
}

impl View for Styles {
    type V = Seq<StyleView>;

    open spec fn view(&self) -> Seq<StyleView> {
        views_of(self.entries@)
    }
}

impl Clone for Styles {
    fn clone(&self) -> (r: Styles)
        ensures
            r@ == self@,
    {
        let entries = self.entries.clone();
        assert(views_of(entries@) =~= views_of(self.entries@));
        Styles { entries }
    }
}

impl Styles {
    /// A layer without properties.
    pub fn new() -> (r: Styles)
        ensures
            r@ == Seq::<StyleView>::empty(),
    {
        let r = Styles { entries: Vec::new() };
        assert(r@ =~= Seq::<StyleView>::empty());
        r
    }

    /// Sets a property. It counts from now on for its key.
    pub fn set(&mut self, style: Style)
        ensures
            final(self)@ == old(self)@.push(style@),
    {
        self.entries.push(style);
        assert(self@ =~= old(self)@.push(style@));
    }

    /// The property that counts for `key` in this layer.
    pub fn get(&self, key: StyleKey) -> (r: Option<&Style>)
        ensures
            match r {
                Some(style) => lookup(self@, key) == Some(style@),
                None => lookup(self@, key) is None,
            },
    {
        let mut i: usize = self.entries.len();
        assert(self@.take(i as int) =~= self@);
        while i > 0
            invariant
                0 <= i <= self.entries@.len(),
                lookup(self@, key) == lookup(self@.take(i as int), key),
            decreases i,
        {
            i -= 1;
            assert(self@.take(i + 1).last() == self.entries@[i as int]@);
            assert(self@.take(i + 1).drop_last() =~= self@.take(i as int));
            if self.entries[i].key() == key {
                return Some(&self.entries[i]);
            }
        }
        None
    }
}

/// A view over layers of properties, the most specific first. It borrows the
/// layers and owns none of them.
#[derive(Clone, Copy, Debug)]
pub struct StyleChain<'a> {
    /// The most specific layer.
    pub head: &'a Styles,
    /// The layers behind it.
    pub tail: Option<&'a StyleChain<'a>>,
}

/// The property that counts for `key` in `layers`: that of the first layer
/// that has one.
pub open spec fn chain_lookup(layers: Seq<Seq<StyleView>>, key: StyleKey) -> Option<StyleView>
    decreases layers.len(),
{
    if layers.len() == 0 {
        None
    } else if lookup(layers[0], key) is Some {
        lookup(layers[0], key)
    } else {
        chain_lookup(layers.drop_first(), key)
    }
}

impl<'a> StyleChain<'a> {
    /// The layers of this chain, the most specific first.
    pub open spec fn layers(self) -> Seq<Seq<StyleView>>
        decreases self,
    {
        match self.tail {
            None => seq![self.head@],
            Some(tail) => seq![self.head@] + tail.layers(),
        }
    }

    /// A chain of one layer.
    pub fn new(head: &'a Styles) -> (r: StyleChain<'a>)
        ensures
            r.layers() == seq![head@],
    {
        StyleChain { head, tail: None }
    }

    /// The chain with `head` in front of `tail`.
    pub fn chain(head: &'a Styles, tail: &'a StyleChain<'a>) -> (r: StyleChain<'a>)
        ensures
            r.layers() == seq![head@] + tail.layers(),
    {
        StyleChain { head, tail: Some(tail) }
    }

    /// The property that counts for `key`: that of the most specific layer that
    /// sets one, and the default where none does.
    pub fn get(&self, key: StyleKey) -> (r: Style)
        ensures
            match chain_lookup(self.layers(), key) {
                Some(style) => r@ == style,
                None => default_style(key, r@),
            },
        decreases self,
    {
        let ghost layers = self.layers();
        assert(layers.len() > 0 && layers[0] == self.head@);
        match self.head.get(key) {
            Some(style) => style.clone(),
            None => match self.tail {
                None => {
                    assert(layers.drop_first() =~= Seq::<Seq<StyleView>>::empty());
                    assert(chain_lookup(layers.drop_first(), key) is None);
                    Style::default_for(key)
                },
                Some(tail) => {
                    assert(layers.drop_first() =~= tail.layers());
                    tail.get(key)
                },
            },
        }
    }
}

/// The families that count in `layers`: those of the most specific layer that
/// sets any, and none where no layer does.
pub open spec fn families_in(layers: Seq<Seq<StyleView>>) -> Seq<FamilyView> {
    match chain_lookup(layers, StyleKey::Families) {
        Some(StyleView::Families(list)) => list,
        _ => Seq::empty(),
    }
}

/// A property found under a key is about that key.
pub proof fn lemma_lookup_key(entries: Seq<StyleView>, key: StyleKey)
    ensures
        lookup(entries, key) matches Some(style) ==> style.key() == key,
    decreases entries.len(),
{
    if entries.len() > 0 && entries.last().key() != key {
        lemma_lookup_key(entries.drop_last(), key);
    }
}

/// A property found under a key through a chain is about that key.
pub proof fn lemma_chain_lookup_key(layers: Seq<Seq<StyleView>>, key: StyleKey)
    ensures
        chain_lookup(layers, key) matches Some(style) ==> style.key() == key,
    decreases layers.len(),
{
    if layers.len() > 0 {
        lemma_lookup_key(layers[0], key);
        if lookup(layers[0], key) is None {
            lemma_chain_lookup_key(layers.drop_first(), key);
        }
    }
}

} // verus!
