//! Dynamic values and their conversion into typed parameters.

use crate::font::FontFamily;
use crate::font::FontStretch;
use crate::font::FontStyle;
use crate::font::FontWeight;
use crate::font::VerticalFontMetric;
use crate::geom::Color;
use crate::geom::Length;
use crate::geom::Linear;
use crate::geom::Relative;
use crate::template::Template;
use vstd::prelude::*;

verus! {

/// A stretch of source text, by the offsets of its first byte and of the byte
/// behind its last.
#[derive(Clone, Copy, Debug, PartialEq, Eq, Structural)]
pub struct Span {
    pub start: usize,
    pub end: usize,
}

/// A value with the place in the source that it came from.
#[derive(Clone, Debug, PartialEq, Eq)]
pub struct Spanned<T> {
    pub v: T,
    pub span: Span,
}

/// A value as evaluation produces it, before anything is known of its use.
#[derive(Debug, PartialEq, Eq)]
pub enum Value {
    /// The value that stands for nothing.
    Nothing,
    /// A boolean.
    Bool(bool),
    /// An integer.
    Int(i64),
    /// A length.
    Length(Length),
    /// A ratio.
    Relative(Relative),
    /// A combination of a ratio and a length.
    Linear(Linear),
    /// A colour.
    Color(Color),
    /// A string.
    Str(String),
    /// An array of values.
    Array(Vec<Value>),
    /// A template.
    Template(Template),
    /// A font family.
    Family(FontFamily),
    /// A font style.
    FontStyle(FontStyle),
    /// A font weight.
    Weight(FontWeight),
    /// A font stretch.
    Stretch(FontStretch),
    /// A vertical font metric.
    Metric(VerticalFontMetric),
}

impl Value {
    /// The name of this value's type, as messages give it.
    pub open spec fn kind(&self) -> Seq<char> {
        match self {
            Value::Nothing => "none"@,
            Value::Bool(_) => "boolean"@,
            Value::Int(_) => "integer"@,
            Value::Length(_) => "length"@,
            Value::Relative(_) => "relative"@,
            Value::Linear(_) => "linear"@,
            Value::Color(_) => "color"@,
            Value::Str(_) => "string"@,
            Value::Array(_) => "array"@,
            Value::Template(_) => "template"@,
            Value::Family(_) => "font family"@,
            Value::FontStyle(_) => "font style"@,
            Value::Weight(_) => "font weight"@,
            Value::Stretch(_) => "font stretch"@,
            Value::Metric(_) => "vertical font metric"@,
        }
    }

    /// The name of this value's type, as messages give it.
    pub fn kind_str(&self) -> (name: &'static str)
        ensures
            name@ == self.kind(),
    {
        match self {
            Value::Nothing => "none",
            Value::Bool(_) => "boolean",
            Value::Int(_) => "integer",
            Value::Length(_) => "length",
            Value::Relative(_) => "relative",
            Value::Linear(_) => "linear",
            Value::Color(_) => "color",
            Value::Str(_) => "string",
            Value::Array(_) => "array",
            Value::Template(_) => "template",
            Value::Family(_) => "font family",
            Value::FontStyle(_) => "font style",
            Value::Weight(_) => "font weight",
            Value::Stretch(_) => "font stretch",
            Value::Metric(_) => "vertical font metric",
        }
    }
}

/// The outcome of a conversion.
#[derive(Clone, Debug, PartialEq, Eq)]
pub enum CastResult<T> {
    /// The value converted as it stood.
    Exact(T),
    /// The value had to be adjusted; the message says how it should have been.
    Warn(T, String),
    /// The value does not convert; the message says what was expected.
    Fail(String),
}

/// The outcome of a conversion, over views.
pub enum Outcome<V> {
    Exact(V),
    Warn(V, Seq<char>),
    Fail(Seq<char>),
}

impl<T: View> View for CastResult<T> {
    type V = Outcome<T::V>;

    open spec fn view(&self) -> Outcome<T::V> {
        match self {
            CastResult::Exact(t) => Outcome::Exact(t@),
            CastResult::Warn(t, message) => Outcome::Warn(t@, message@),
            CastResult::Fail(message) => Outcome::Fail(message@),
        }
    }
}

impl<T> CastResult<T> {
    /// The converted value, adjusted or not.
    pub fn ok(self) -> (r: Option<T>)
        ensures
            r == match self {
                CastResult::Exact(t) => Some(t),
                CastResult::Warn(t, _) => Some(t),
                CastResult::Fail(_) => None,
            },
    {
        match self {
            CastResult::Exact(t) => Some(t),
            CastResult::Warn(t, _) => Some(t),
            CastResult::Fail(_) => None,
        }
    }
}

/// The message for a value of the wrong type.
pub open spec fn mismatch(expected: Seq<char>, found: Seq<char>) -> Seq<char> {
    "expected "@ + expected + ", found "@ + found
}

/// The outcome for a value that a type has no rule for.
pub fn type_mismatch<T: View>(expected: &str, found: &Value) -> (r: CastResult<T>)
    ensures
        r@ == Outcome::<T::V>::Fail(mismatch(expected@, found.kind())),
{
    let mut message = String::from_str("expected ");
    message.append(expected);
    message.append(", found ");
    message.append(found.kind_str());
    CastResult::Fail(message)
}

/// A type that values convert into.
pub trait Cast: Sized + View {
    /// What converting `value` comes to.
    spec fn outcome(value: &Value) -> Outcome<Self::V>;

    /// Whether `value` converts, adjusted or not.
    fn accepts(value: &Value) -> (b: bool)
        ensures
            b == !(Self::outcome(value) is Fail),
    ;

    /// Converts `value`.
    fn cast(value: Value) -> (r: CastResult<Self>)
        ensures
            r@ == Self::outcome(&value),
    ;
}

impl Cast for Linear {
    /// A linear converts as it is; a length and a ratio convert into the
    /// linear that has no other part.
    open spec fn outcome(value: &Value) -> Outcome<Linear> {
        match value {
            Value::Linear(v) => Outcome::Exact(*v),
            Value::Length(v) => Outcome::Exact(
                Linear { rel: Relative { permille: 0 }, abs: *v },
            ),
            Value::Relative(v) => Outcome::Exact(Linear { rel: *v, abs: Length { units: 0 } }),
            _ => Outcome::Fail(mismatch("linear"@, value.kind())),
        }
    }

    fn accepts(value: &Value) -> (b: bool) {
        match value {
            Value::Linear(_) => true,
            Value::Length(_) => true,
            Value::Relative(_) => true,
            _ => false,
        }
    }

    fn cast(value: Value) -> (r: CastResult<Linear>) {
        match value {
            Value::Linear(v) => CastResult::Exact(v),
            Value::Length(v) => CastResult::Exact(Linear::new(Relative::new(0), v)),
            Value::Relative(v) => CastResult::Exact(Linear::new(v, Length::raw(0))),
            other => type_mismatch("linear", &other),
        }
    }
}

impl Cast for String {
    /// Only a string converts.
    open spec fn outcome(value: &Value) -> Outcome<Seq<char>> {
        match value {
            Value::Str(v) => Outcome::Exact(v@),
            _ => Outcome::Fail(mismatch("string"@, value.kind())),
        }
    }

    fn accepts(value: &Value) -> (b: bool) {
        match value {
            Value::Str(_) => true,
            _ => false,
        }
    }

    fn cast(value: Value) -> (r: CastResult<String>) {
        match value {
            Value::Str(v) => CastResult::Exact(v),
            other => type_mismatch("string", &other),
        }
    }
}

impl Cast for Color {
    /// Only a colour converts.
    open spec fn outcome(value: &Value) -> Outcome<Color> {
        match value {
            Value::Color(v) => Outcome::Exact(*v),
            _ => Outcome::Fail(mismatch("color"@, value.kind())),
        }
    }

    fn accepts(value: &Value) -> (b: bool) {
        match value {
            Value::Color(_) => true,
            _ => false,
        }
    }

    fn cast(value: Value) -> (r: CastResult<Color>) {
        match value {
            Value::Color(v) => CastResult::Exact(v),
            other => type_mismatch("color", &other),
        }
    }
}

impl Cast for Template {
    /// Only a template converts.
    open spec fn outcome(value: &Value) -> Outcome<Template> {
        match value {
            Value::Template(v) => Outcome::Exact(*v),
            _ => Outcome::Fail(mismatch("template"@, value.kind())),
        }
    }

    fn accepts(value: &Value) -> (b: bool) {
        match value {
            Value::Template(_) => true,
            _ => false,
        }
    }

    fn cast(value: Value) -> (r: CastResult<Template>) {
        match value {
            Value::Template(v) => CastResult::Exact(v),
            other => type_mismatch("template", &other),
        }
    }
}

} // verus!
