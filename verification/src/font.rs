//! Font properties: weight, stretch, style, vertical metrics and families.

use crate::geom::Relative;
use vstd::prelude::*;

verus! {

/// The number of the lightest weight.
pub const MIN_WEIGHT: u16 = 100;

/// The number of the heaviest weight.
pub const MAX_WEIGHT: u16 = 900;

/// The narrowest stretch, in thousandths.
pub const MIN_STRETCH: u16 = 500;

/// The widest stretch, in thousandths.
pub const MAX_STRETCH: u16 = 2000;

/// `n` moved to the nearer end of `lo ..= hi` where it lies outside.
pub open spec fn clamped(n: int, lo: int, hi: int) -> int {
    if n < lo {
        lo
    } else if n > hi {
        hi
    } else {
        n
    }
}

/// How thick a font's strokes are, as a number from 100 to 900.
#[derive(Clone, Copy, Debug, PartialEq, Eq, Structural)]
pub struct FontWeight {
    number: u16,
}

impl View for FontWeight {
    type V = int;

    closed spec fn view(&self) -> int {
        self.number as int
    }
}

impl FontWeight {
    #[verifier::type_invariant]
    spec fn in_range(self) -> bool {
        MIN_WEIGHT <= self.number <= MAX_WEIGHT
    }

    /// Thin weight (100).
    pub fn thin() -> (w: FontWeight)
        ensures
            w@ == 100,
    {
        FontWeight { number: 100 }
    }

    /// Extra light weight (200).
    pub fn extralight() -> (w: FontWeight)
        ensures
            w@ == 200,
    {
        FontWeight { number: 200 }
    }

    /// Light weight (300).
    pub fn light() -> (w: FontWeight)
        ensures
            w@ == 300,
    {
        FontWeight { number: 300 }
    }

    /// Regular weight (400).
    pub fn regular() -> (w: FontWeight)
        ensures
            w@ == 400,
    {
        FontWeight { number: 400 }
    }

    /// Medium weight (500).
    pub fn medium() -> (w: FontWeight)
        ensures
            w@ == 500,
    {
        FontWeight { number: 500 }
    }

    /// Semibold weight (600).
    pub fn semibold() -> (w: FontWeight)
        ensures
            w@ == 600,
    {
        FontWeight { number: 600 }
    }

    /// Bold weight (700).
    pub fn bold() -> (w: FontWeight)
        ensures
            w@ == 700,
    {
        FontWeight { number: 700 }
    }

    /// Extra bold weight (800).
    pub fn extrabold() -> (w: FontWeight)
        ensures
            w@ == 800,
    {
        FontWeight { number: 800 }
    }

    /// Black weight (900).
    pub fn black() -> (w: FontWeight)
        ensures
            w@ == 900,
    {
        FontWeight { number: 900 }
    }

    /// The weight with the given number, or the nearest there is.
    pub fn from_number(number: u16) -> (w: FontWeight)
        ensures
            w@ == clamped(number as int, MIN_WEIGHT as int, MAX_WEIGHT as int),
    {
        if number < MIN_WEIGHT {
            FontWeight { number: MIN_WEIGHT }
        } else if number > MAX_WEIGHT {
            FontWeight { number: MAX_WEIGHT }
        } else {
            FontWeight { number }
        }
    }

    /// The number of this weight.
    pub fn to_number(self) -> (n: u16)
        ensures
            n == self@,
            MIN_WEIGHT <= n <= MAX_WEIGHT,
    {
        proof {
            use_type_invariant(&self);
        }
        self.number
    }
}

/// A weight is its number: two weights of one number are one weight.
pub proof fn lemma_weight_by_number(a: FontWeight, b: FontWeight)
    requires
        a@ == b@,
    ensures
        a == b,
{
}

/// How wide a font's glyphs are, as a ratio from 0.5 to 2.0 kept in thousandths.
#[derive(Clone, Copy, Debug, PartialEq, Eq, Structural)]
pub struct FontStretch {
    permille: u16,
}

impl View for FontStretch {
    type V = int;

    closed spec fn view(&self) -> int {
        self.permille as int
    }
}

impl FontStretch {
    #[verifier::type_invariant]
    spec fn in_range(self) -> bool {
        MIN_STRETCH <= self.permille <= MAX_STRETCH
    }

    /// Ultra condensed stretch (50%).
    pub fn ultra_condensed() -> (s: FontStretch)
        ensures
            s@ == 500,
    {
        FontStretch { permille: 500 }
    }

    /// Extra condensed stretch (62.5%).
    pub fn extra_condensed() -> (s: FontStretch)
        ensures
            s@ == 625,
    {
        FontStretch { permille: 625 }
    }

    /// Condensed stretch (75%).
    pub fn condensed() -> (s: FontStretch)
        ensures
            s@ == 750,
    {
        FontStretch { permille: 750 }
    }

    /// Semi condensed stretch (87.5%).
    pub fn semi_condensed() -> (s: FontStretch)
        ensures
            s@ == 875,
    {
        FontStretch { permille: 875 }
    }

    /// Normal stretch (100%).
    pub fn normal() -> (s: FontStretch)
        ensures
            s@ == 1000,
    {
        FontStretch { permille: 1000 }
    }

    /// Semi expanded stretch (112.5%).
    pub fn semi_expanded() -> (s: FontStretch)
        ensures
            s@ == 1125,
    {
        FontStretch { permille: 1125 }
    }

    /// Expanded stretch (125%).
    pub fn expanded() -> (s: FontStretch)
        ensures
            s@ == 1250,
    {
        FontStretch { permille: 1250 }
    }

    /// Extra expanded stretch (150%).
    pub fn extra_expanded() -> (s: FontStretch)
        ensures
            s@ == 1500,
    {
        FontStretch { permille: 1500 }
    }

    /// Ultra expanded stretch (200%).
    pub fn ultra_expanded() -> (s: FontStretch)
        ensures
            s@ == 2000,
    {
        FontStretch { permille: 2000 }
    }

    /// The stretch with the given ratio, or the nearest there is.
    pub fn from_ratio(ratio: Relative) -> (s: FontStretch)
        ensures
            s@ == clamped(ratio@, MIN_STRETCH as int, MAX_STRETCH as int),
    {
        if ratio.permille < MIN_STRETCH as i64 {
            FontStretch { permille: MIN_STRETCH }
        } else if ratio.permille > MAX_STRETCH as i64 {
            FontStretch { permille: MAX_STRETCH }
        } else {
            FontStretch { permille: ratio.permille as u16 }
        }
    }

    /// The ratio of this stretch.
    pub fn to_ratio(self) -> (r: Relative)
        ensures
            r@ == self@,
            MIN_STRETCH <= r@ <= MAX_STRETCH,
    {
        proof {
            use_type_invariant(&self);
        }
        Relative::new(self.permille as i64)
    }
}

/// A stretch is its ratio: two stretches of one ratio are one stretch.
pub proof fn lemma_stretch_by_ratio(a: FontStretch, b: FontStretch)
    requires
        a@ == b@,
    ensures
        a == b,
{
}

/// The slant of a font.
#[derive(Clone, Copy, Debug, PartialEq, Eq, Structural)]
pub enum FontStyle {
    Normal,
    Italic,
    Oblique,
}

impl View for FontStyle {
    type V = FontStyle;

    open spec fn view(&self) -> FontStyle {
        *self
    }
}

/// A line of a font's vertical metrics.
#[derive(Clone, Copy, Debug, PartialEq, Eq, Structural)]
pub enum VerticalFontMetric {
    Ascender,
    CapHeight,
    XHeight,
    Baseline,
    Descender,
}

impl View for VerticalFontMetric {
    type V = VerticalFontMetric;

    open spec fn view(&self) -> VerticalFontMetric {
        *self
    }
}

/// A font family: one of the three generic ones, or one called by its name.
#[derive(Debug, PartialEq, Eq)]
pub enum FontFamily {
    Serif,
    SansSerif,
    Monospace,
    Named(String),
}

/// A font family with its name as a sequence of characters.
pub enum FamilyView {
    Serif,
    SansSerif,
    Monospace,
    Named(Seq<char>),
}

impl View for FontFamily {
    type V = FamilyView;

    open spec fn view(&self) -> FamilyView {
        match self {
            FontFamily::Serif => FamilyView::Serif,
            FontFamily::SansSerif => FamilyView::SansSerif,
            FontFamily::Monospace => FamilyView::Monospace,
            FontFamily::Named(name) => FamilyView::Named(name@),
        }
    }
}

impl Clone for FontFamily {
    fn clone(&self) -> (r: FontFamily)
        ensures
            r == *self,
    {
        match self {
            FontFamily::Serif => FontFamily::Serif,
            FontFamily::SansSerif => FontFamily::SansSerif,
            FontFamily::Monospace => FontFamily::Monospace,
            FontFamily::Named(name) => FontFamily::Named(name.clone()),
        }
    }
}

} // verus!
