//! Lengths, ratios and the small geometric aggregates built from them.
//!
//! All quantities are exact integers. A length counts scaled points, of which
//! `UNITS_PER_PT` make one point; a ratio counts thousandths. Results that
//! leave the range of a length saturate at its bounds.

use vstd::prelude::*;

verus! {

/// Number of length units in one point.
pub const UNITS_PER_PT: i64 = 65536;

/// Number of ratio units in the ratio one.
pub const RATIO_ONE: i64 = 1000;

/// `x` brought into the range of a length.
pub open spec fn saturated(x: int) -> int {
    if x < i64::MIN {
        i64::MIN as int
    } else if x > i64::MAX {
        i64::MAX as int
    } else {
        x
    }
}

/// Floor of `a / b` for a positive divisor.
fn floor_div(a: i128, b: i128) -> (q: i128)
    requires
        b > 0,
        -0x4000_0000_0000_0000_0000_0000_0000_0000 <= a <= 0x4000_0000_0000_0000_0000_0000_0000_0000,
    ensures
        q == a / b,
{
    if a >= 0 {
        a / b
    } else {
        let m: i128 = -a;
        let q0: i128 = (m - 1) / b;
        assert((-m) / (b as int) == -((m - 1) / (b as int)) - 1) by (nonlinear_arith)
            requires
                m >= 1,
                b > 0,
        ;
        -q0 - 1
    }
}

/// Narrows `x` to the range of a length.
fn saturate(x: i128) -> (r: i64)
    ensures
        r == saturated(x as int),
{
    if x < i64::MIN as i128 {
        i64::MIN
    } else if x > i64::MAX as i128 {
        i64::MAX
    } else {
        x as i64
    }
}

/// The product of two numbers of at most 63 bits stays within 126 bits.
proof fn lemma_product_bound(a: int, b: int)
    by (nonlinear_arith)
    requires
        -0x8000_0000_0000_0000 <= a <= 0x8000_0000_0000_0000,
        -0x8000_0000_0000_0000 <= b <= 0x8000_0000_0000_0000,
    ensures
        -0x4000_0000_0000_0000_0000_0000_0000_0000 <= a * b <= 0x4000_0000_0000_0000_0000_0000_0000_0000,
{
}

/// `a * num / den + add`, the quotient rounded down and the sum saturated.
fn mul_div_add(a: i64, num: i64, den: i64, add: i64) -> (r: i64)
    requires
        den > 0,
    ensures
        r == saturated(a * num / (den as int) + add),
{
    proof {
        lemma_product_bound(a as int, num as int);
    }
    let product: i128 = a as i128 * num as i128;
    let quotient: i128 = floor_div(product, den as i128);
    assert(-0x4000_0000_0000_0000_0000_0000_0000_0000 <= quotient <= 0x4000_0000_0000_0000_0000_0000_0000_0000) by (nonlinear_arith)
        requires
            quotient == (product as int) / (den as int),
            den > 0,
            -0x4000_0000_0000_0000_0000_0000_0000_0000 <= product <= 0x4000_0000_0000_0000_0000_0000_0000_0000,
    ;
    saturate(quotient + add as i128)
}

/// A length, in scaled points.
#[derive(Clone, Copy, Debug, PartialEq, Eq, Structural)]
pub struct Length {
    pub units: i64,
}

impl View for Length {
    type V = int;

    open spec fn view(&self) -> int {
        self.units as int
    }
}

impl Length {
    /// The length of nothing.
    pub fn zero() -> (r: Length)
        ensures
            r@ == 0,
    {
        Length { units: 0 }
    }

    /// A length of `units` scaled points.
    pub fn raw(units: i64) -> (r: Length)
        ensures
            r@ == units,
    {
        Length { units }
    }

    /// A length of `n` whole points.
    pub fn pt(n: u32) -> (r: Length)
        ensures
            r@ == n * UNITS_PER_PT,
    {
        Length { units: n as i64 * UNITS_PER_PT }
    }

    /// This length times `num / den`, rounded down.
    pub fn scaled(self, num: u32, den: u32) -> (r: Length)
        requires
            den > 0,
        ensures
            r@ == saturated(self@ * num / (den as int)),
    {
        Length { units: mul_div_add(self.units, num as i64, den as i64, 0) }
    }
}

/// A ratio, in thousandths.
#[derive(Clone, Copy, Debug, PartialEq, Eq, Structural)]
pub struct Relative {
    pub permille: i64,
}

impl View for Relative {
    type V = int;

    open spec fn view(&self) -> int {
        self.permille as int
    }
}

impl Relative {
    /// A ratio of `permille` thousandths.
    pub fn new(permille: i64) -> (r: Relative)
        ensures
            r@ == permille,
    {
        Relative { permille }
    }

    /// The ratio zero.
    pub fn zero() -> (r: Relative)
        ensures
            r@ == 0,
    {
        Relative { permille: 0 }
    }

    /// The ratio one.
    pub fn one() -> (r: Relative)
        ensures
            r@ == RATIO_ONE,
    {
        Relative { permille: RATIO_ONE }
    }

    /// Whether this is the ratio zero.
    pub fn is_zero(self) -> (b: bool)
        ensures
            b == (self@ == 0),
    {
        self.permille == 0
    }
}

/// A length made of a part relative to some base and an absolute part.
#[derive(Clone, Copy, Debug, PartialEq, Eq, Structural)]
pub struct Linear {
    pub rel: Relative,
    pub abs: Length,
}

impl View for Linear {
    type V = Linear;

    open spec fn view(&self) -> Linear {
        *self
    }
}

impl Linear {
    /// What this comes to against the base length `base`.
    pub open spec fn resolved(self, base: int) -> int {
        saturated(base * self.rel@ / (RATIO_ONE as int) + self.abs@)
    }

    /// The combination of a relative and an absolute part.
    pub fn new(rel: Relative, abs: Length) -> (r: Linear)
        ensures
            r == (Linear { rel, abs }),
    {
        Linear { rel, abs }
    }

    /// A purely absolute length.
    pub fn absolute(abs: Length) -> (r: Linear)
        ensures
            r.rel@ == 0,
            r.abs == abs,
    {
        Linear { rel: Relative::zero(), abs }
    }

    /// A purely relative length.
    pub fn relative(rel: Relative) -> (r: Linear)
        ensures
            r.rel == rel,
            r.abs@ == 0,
    {
        Linear { rel, abs: Length::zero() }
    }

    /// The whole of the base.
    pub fn one() -> (r: Linear)
        ensures
            r.rel@ == RATIO_ONE,
            r.abs@ == 0,
    {
        Linear { rel: Relative::one(), abs: Length::zero() }
    }

    /// Resolves this against the base length `base`.
    pub fn resolve(self, base: Length) -> (r: Length)
        ensures
            r@ == self.resolved(base@),
    {
        Length { units: mul_div_add(base.units, self.rel.permille, RATIO_ONE, self.abs.units) }
    }
}

/// A width and a height.
#[derive(Clone, Copy, Debug, PartialEq, Eq, Structural)]
pub struct Size {
    pub width: Length,
    pub height: Length,
}

impl Size {
    /// The size with the given width and height.
    pub fn new(width: Length, height: Length) -> (r: Size)
        ensures
            r == (Size { width, height }),
    {
        Size { width, height }
    }
}

/// A position.
#[derive(Clone, Copy, Debug, PartialEq, Eq, Structural)]
pub struct Point {
    pub x: Length,
    pub y: Length,
}

impl Point {
    /// The origin.
    pub fn zero() -> (r: Point)
        ensures
            r.x@ == 0,
            r.y@ == 0,
    {
        Point { x: Length::zero(), y: Length::zero() }
    }
}

/// One value for each side of a box.
#[derive(Clone, Copy, Debug, PartialEq, Eq)]
pub struct Sides<T> {
    pub left: T,
    pub top: T,
    pub right: T,
    pub bottom: T,
}

/// One value for each of the two axes.
#[derive(Clone, Copy, Debug, PartialEq, Eq)]
pub struct Axes<T> {
    pub x: T,
    pub y: T,
}

/// A colour with 8-bit channels.
#[derive(Clone, Copy, Debug, PartialEq, Eq, Structural)]
pub struct Color {
    pub r: u8,
    pub g: u8,
    pub b: u8,
    pub a: u8,
}

impl View for Color {
    type V = Color;

    open spec fn view(&self) -> Color {
        *self
    }
}

impl Color {
    /// Opaque black.
    pub fn black() -> (c: Color)
        ensures
            c == (Color { r: 0, g: 0, b: 0, a: 255 }),
    {
        Color { r: 0, g: 0, b: 0, a: 255 }
    }
}

/// What glyphs and shapes are filled with.
#[derive(Clone, Copy, Debug, PartialEq, Eq, Structural)]
pub enum Fill {
    Color(Color),
}

} // verus!
