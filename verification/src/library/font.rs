//! Font configuration.

use crate::args::Arg;
use crate::args::filtered;
use crate::args::found;
use crate::args::FuncArgs;
use crate::args::got;
use crate::eval::DiagView;
use crate::eval::EvalContext;
use crate::eval::EvalView;
use crate::font::clamped;
use crate::font::FamilyView;
use crate::font::FontFamily;
use crate::font::FontStretch;
use crate::font::FontStyle;
use crate::font::FontWeight;
use crate::font::MAX_STRETCH;
use crate::font::MAX_WEIGHT;
use crate::font::MIN_STRETCH;
use crate::font::MIN_WEIGHT;
use crate::font::VerticalFontMetric;
use crate::geom::Color;
use crate::geom::Fill;
use crate::geom::Length;
use crate::geom::Linear;
use crate::geom::RATIO_ONE;
use crate::geom::Relative;
use crate::style::Style;
use crate::style::Styles;
use crate::style::StyleView;
use crate::template::Template;
use crate::value::Cast;
use crate::value::CastResult;
use crate::value::mismatch;
use crate::value::Outcome;
use crate::value::type_mismatch;
use crate::value::Value;
use crate::views::view_of;
use crate::views::views_of;
use vstd::prelude::*;

verus! {

/// What the arguments of a call of `font` bind to, the arguments that are
/// left, and the diagnostics so far.
pub struct FontBinding {
    pub size: Option<Linear>,
    pub list: Seq<FamilyView>,
    pub style: Option<FontStyle>,
    pub weight: Option<int>,
    pub stretch: Option<int>,
    pub top_edge: Option<VerticalFontMetric>,
    pub bottom_edge: Option<VerticalFontMetric>,
    pub color: Option<Color>,
    pub serif: Option<Seq<Seq<char>>>,
    pub sans_serif: Option<Seq<Seq<char>>>,
    pub monospace: Option<Seq<Seq<char>>>,
    pub body: Option<Template>,
    pub items: Seq<Arg>,
    pub diags: Seq<DiagView>,
}

/// Binds the arguments of a call of `font`, one parameter after the other:
/// the size is the first linear by position, the families are all the
/// families by position, nine properties go by their names, and the body is
/// the first template by position.
pub open spec fn font_binding(items: Seq<Arg>, diags: Seq<DiagView>) -> FontBinding {
    let size = found::<Linear>(items, diags);
    let list = filtered::<FontFamily>(size.items, size.diags);
    let style = got::<FontStyle>(list.items, list.diags, "style"@);
    let weight = got::<FontWeight>(style.items, style.diags, "weight"@);
    let stretch = got::<FontStretch>(weight.items, weight.diags, "stretch"@);
    let top_edge = got::<VerticalFontMetric>(stretch.items, stretch.diags, "top-edge"@);
    let bottom_edge = got::<VerticalFontMetric>(top_edge.items, top_edge.diags, "bottom-edge"@);
    let color = got::<Color>(bottom_edge.items, bottom_edge.diags, "color"@);
    let serif = got::<FontFamilies>(color.items, color.diags, "serif"@);
    let sans_serif = got::<FontFamilies>(serif.items, serif.diags, "sans-serif"@);
    let monospace = got::<FontFamilies>(sans_serif.items, sans_serif.diags, "monospace"@);
    let body = found::<Template>(monospace.items, monospace.diags);
    FontBinding {
        size: size.value,
        list: list.values,
        style: style.value,
        weight: weight.value,
        stretch: stretch.value,
        top_edge: top_edge.value,
        bottom_edge: bottom_edge.value,
        color: color.value,
        serif: serif.value,
        sans_serif: sans_serif.value,
        monospace: monospace.value,
        body: body.value,
        items: body.items,
        diags: body.diags,
    }
}

/// `font`: Configure the font.
///
/// # Positional parameters
/// - Font size: optional, of type `linear` relative to current font size.
/// - Font families: variadic, of type `font-family`.
/// - Body: optional, of type `template`.
///
/// # Named parameters
/// - Font Style: `style`, of type `font-style`.
/// - Font Weight: `weight`, of type `font-weight`.
/// - Font Stretch: `stretch`, of type `relative`, between 0.5 and 2.0.
/// - Top edge of the font: `top-edge`, of type `vertical-font-metric`.
/// - Bottom edge of the font: `bottom-edge`, of type `vertical-font-metric`.
/// - Color the glyphs: `color`, of type `color`.
/// - Serif family definition: `serif`, of type `font-family-definition`.
/// - Sans-serif family definition: `sans-serif`, of type `font-family-definition`.
/// - Monospace family definition: `monospace`, of type `font-family-definition`.
///
/// # Return value
/// A template that configures font properties. The effect is scoped to the body
/// if present.
pub fn font(ctx: &mut EvalContext, args: &mut FuncArgs) -> (r: Value)
    ensures
        ({
            let binding = font_binding(old(args).items@, old(ctx)@.diags);
            &&& final(args).span == old(args).span
            &&& final(args).items@ == binding.items
            &&& final(ctx)@ == (EvalView { diags: binding.diags, ..old(ctx)@ })
            &&& r matches Value::Template(Template::Font(template)) && template.holds(binding)
        }),
{
    let size = args.find::<Linear>(ctx);
    let list = args.filter::<FontFamily>(ctx);
    let style = args.get::<FontStyle>(ctx, "style");
    let weight = args.get::<FontWeight>(ctx, "weight");
    let stretch = args.get::<FontStretch>(ctx, "stretch");
    let top_edge = args.get::<VerticalFontMetric>(ctx, "top-edge");
    let bottom_edge = args.get::<VerticalFontMetric>(ctx, "bottom-edge");
    let color = args.get::<Color>(ctx, "color");
    let serif = args.get::<FontFamilies>(ctx, "serif");
    let sans_serif = args.get::<FontFamilies>(ctx, "sans-serif");
    let monospace = args.get::<FontFamilies>(ctx, "monospace");
    let body = match args.find::<Template>(ctx) {
        Some(template) => Some(Box::new(template)),
        None => None,
    };

    Value::Template(
        Template::Font(
            FontTemplate {
                size,
                list,
                style,
                weight,
                stretch,
                top_edge,
                bottom_edge,
                color,
                serif,
                sans_serif,
                monospace,
                body,
            },
        ),
    )
}

/// A list of font family names.
#[derive(Debug, PartialEq, Eq)]
pub struct FontFamilies(pub Vec<String>);

impl View for FontFamilies {
    type V = Seq<Seq<char>>;

    open spec fn view(&self) -> Seq<Seq<char>> {
        views_of(self.0@)
    }
}

/// A font configuration that waits to be applied.
#[derive(Debug, PartialEq, Eq)]
pub struct FontTemplate {
    /// The font size, absolute or relative to the size in force.
    pub size: Option<Linear>,
    /// The families to try, most wanted first; empty where none were given.
    pub list: Vec<FontFamily>,
    pub style: Option<FontStyle>,
    pub weight: Option<FontWeight>,
    pub stretch: Option<FontStretch>,
    pub top_edge: Option<VerticalFontMetric>,
    pub bottom_edge: Option<VerticalFontMetric>,
    pub color: Option<Color>,
    /// What the generic serif family is to stand for.
    pub serif: Option<FontFamilies>,
    /// What the generic sans-serif family is to stand for.
    pub sans_serif: Option<FontFamilies>,
    /// What the generic monospace family is to stand for.
    pub monospace: Option<FontFamilies>,
    /// What the configuration is scoped to, if anything.
    pub body: Option<Box<Template>>,
}

/// `state` with the font size set from `size`: an absolute size replaces the
/// size and brings the scale back to one; any other becomes the scale.
pub open spec fn with_size(state: Seq<StyleView>, size: Option<Linear>) -> Seq<StyleView> {
    match size {
        None => state,
        Some(linear) => if linear.rel@ == 0 {
            state.push(StyleView::Size(linear.abs)).push(
                StyleView::Scale(
                    Linear { rel: Relative { permille: RATIO_ONE }, abs: Length { units: 0 } },
                ),
            )
        } else {
            state.push(StyleView::Scale(linear))
        },
    }
}

/// `state` with `style` set where there is one.
pub open spec fn with(state: Seq<StyleView>, style: Option<StyleView>) -> Seq<StyleView> {
    match style {
        Some(style) => state.push(style),
        None => state,
    }
}

/// Sets `style` in `state` where there is one.
fn set_where_given(state: &mut Styles, style: Option<Style>)
    ensures
        final(state)@ == with(
            old(state)@,
            match style {
                Some(style) => Some(style@),
                None => None,
            },
        ),
{
    if let Some(style) = style {
        state.set(style);
    }
}

/// Sets the font size in `state` from `size`.
fn set_size(state: &mut Styles, size: Option<Linear>)
    ensures
        final(state)@ == with_size(old(state)@, size),
{
    if let Some(linear) = size {
        if linear.rel.is_zero() {
            state.set(Style::Size(linear.abs));
            state.set(Style::Scale(Linear::new(Relative::one(), Length::zero())));
        } else {
            state.set(Style::Scale(linear));
        }
    }
}

impl FontTemplate {
    /// Whether this template holds what `binding` bound.
    pub open spec fn holds(&self, binding: FontBinding) -> bool {
        &&& view_of(self.size) == binding.size
        &&& views_of(self.list@) == binding.list
        &&& view_of(self.style) == binding.style
        &&& view_of(self.weight) == binding.weight
        &&& view_of(self.stretch) == binding.stretch
        &&& view_of(self.top_edge) == binding.top_edge
        &&& view_of(self.bottom_edge) == binding.bottom_edge
        &&& view_of(self.color) == binding.color
        &&& view_of(self.serif) == binding.serif
        &&& view_of(self.sans_serif) == binding.sans_serif
        &&& view_of(self.monospace) == binding.monospace
        &&& match self.body {
            Some(body) => binding.body == Some(*body),
            None => binding.body is None,
        }
    }

    /// The families to set, if any were given.
    pub open spec fn families(&self) -> Option<StyleView> {
        if self.list@.len() > 0 {
            Some(StyleView::Families(views_of(self.list@)))
        } else {
            None
        }
    }

    /// The styles `state` with every property set that this template holds, in
    /// the order of its fields. What it does not hold is left alone.
    pub open spec fn applied(&self, state: Seq<StyleView>) -> Seq<StyleView> {
        let s = with_size(state, self.size);
        let s = with(s, self.families());
        let s = with(
            s,
            match self.style {
                Some(v) => Some(StyleView::FontStyle(v)),
                None => None,
            },
        );
        let s = with(
            s,
            match self.weight {
                Some(v) => Some(StyleView::Weight(v)),
                None => None,
            },
        );
        let s = with(
            s,
            match self.stretch {
                Some(v) => Some(StyleView::Stretch(v)),
                None => None,
            },
        );
        let s = with(
            s,
            match self.top_edge {
                Some(v) => Some(StyleView::TopEdge(v)),
                None => None,
            },
        );
        let s = with(
            s,
            match self.bottom_edge {
                Some(v) => Some(StyleView::BottomEdge(v)),
                None => None,
            },
        );
        let s = with(
            s,
            match self.color {
                Some(v) => Some(StyleView::Fill(Fill::Color(v))),
                None => None,
            },
        );
        let s = with(
            s,
            match self.serif {
                Some(v) => Some(StyleView::Serif(v@)),
                None => None,
            },
        );
        let s = with(
            s,
            match self.sans_serif {
                Some(v) => Some(StyleView::SansSerif(v@)),
                None => None,
            },
        );
        let s = with(
            s,
            match self.monospace {
                Some(v) => Some(StyleView::Monospace(v@)),
                None => None,
            },
        );
        s
    }

    /// Sets in `state` every property that this template holds.
    pub fn apply(&self, state: &mut Styles)
        ensures
            final(state)@ == self.applied(old(state)@),
    {
        set_size(state, self.size);
        set_where_given(
            state,
            if self.list.len() > 0 {
                Some(Style::Families(self.list.clone()))
            } else {
                None
            },
        );
        set_where_given(
            state,
            match self.style {
                Some(v) => Some(Style::FontStyle(v)),
                None => None,
            },
        );
        set_where_given(
            state,
            match self.weight {
                Some(v) => Some(Style::Weight(v)),
                None => None,
            },
        );
        set_where_given(
            state,
            match self.stretch {
                Some(v) => Some(Style::Stretch(v)),
                None => None,
            },
        );
        set_where_given(
            state,
            match self.top_edge {
                Some(v) => Some(Style::TopEdge(v)),
                None => None,
            },
        );
        set_where_given(
            state,
            match self.bottom_edge {
                Some(v) => Some(Style::BottomEdge(v)),
                None => None,
            },
        );
        set_where_given(
            state,
            match self.color {
                Some(v) => Some(Style::Fill(Fill::Color(v))),
                None => None,
            },
        );
        set_where_given(
            state,
            match &self.serif {
                Some(v) => Some(Style::Serif(v.0.clone())),
                None => None,
            },
        );
        set_where_given(
            state,
            match &self.sans_serif {
                Some(v) => Some(Style::SansSerif(v.0.clone())),
                None => None,
            },
        );
        set_where_given(
            state,
            match &self.monospace {
                Some(v) => Some(Style::Monospace(v.0.clone())),
                None => None,
            },
        );
    }
}

/// The lower-case form of a string, as `str::to_lowercase` gives it. Nothing
/// is stated of it but that it depends on the characters alone.
pub uninterp spec fn lowercase(s: Seq<char>) -> Seq<char>;

/// Calls `str::to_lowercase`, which gives the lower-case equivalent of a
/// string by the Unicode tables. The contract is taken on trust, and all it
/// says is that the result is `lowercase` of the characters given.
#[verifier::external_body]
fn to_lowercase(s: &str) -> (r: String)
    ensures
        r@ == lowercase(s@),
{
    s.to_lowercase()
}

/// The strings among `values` in lower case, in their order. What is not a
/// string is passed over.
pub open spec fn lowered_strings(values: Seq<Value>) -> Seq<Seq<char>>
    decreases values.len(),
{
    if values.len() == 0 {
        Seq::empty()
    } else {
        let before = lowered_strings(values.drop_last());
        match values.last() {
            Value::Str(s) => before.push(lowercase(s@)),
            _ => before,
        }
    }
}

impl Cast for FontFamilies {
    /// A string converts into the list of its one name; an array converts
    /// into the list of the strings in it. Names are kept in lower case.
    open spec fn outcome(value: &Value) -> Outcome<Seq<Seq<char>>> {
        match value {
            Value::Str(s) => Outcome::Exact(seq![lowercase(s@)]),
            Value::Array(values) => Outcome::Exact(lowered_strings(values@)),
            _ => Outcome::Fail(mismatch("string or array of strings"@, value.kind())),
        }
    }

    fn accepts(value: &Value) -> (b: bool) {
        match value {
            Value::Str(_) => true,
            Value::Array(_) => true,
            _ => false,
        }
    }

    fn cast(value: Value) -> (r: CastResult<FontFamilies>) {
        match value {
            Value::Str(s) => {
                let mut names: Vec<String> = Vec::new();
                names.push(to_lowercase(s.as_str()));
                assert(views_of(names@) =~= seq![lowercase(s@)]);
                CastResult::Exact(FontFamilies(names))
            },
            Value::Array(values) => {
                let mut names: Vec<String> = Vec::new();
                let mut i: usize = 0;
                assert(values@.take(0) =~= Seq::empty());
                assert(views_of(names@) =~= Seq::empty());
                while i < values.len()
                    invariant
                        0 <= i <= values@.len(),
                        views_of(names@) == lowered_strings(values@.take(i as int)),
                    decreases values@.len() - i,
                {
                    assert(values@.take(i + 1).drop_last() =~= values@.take(i as int));
                    assert(values@.take(i + 1).last() == values@[i as int]);
                    match &values[i] {
                        Value::Str(s) => {
                            let ghost before = views_of(names@);
                            let lowered = to_lowercase(s.as_str());
                            names.push(lowered);
                            assert(views_of(names@) =~= before.push(lowered@));
                        },
                        _ => {},
                    }
                    i += 1;
                }
                assert(values@.take(i as int) =~= values@);
                CastResult::Exact(FontFamilies(names))
            },
            other => type_mismatch("string or array of strings", &other),
        }
    }
}

impl Cast for FontFamily {
    /// A family converts as it is; a string converts into the family of that
    /// name in lower case.
    open spec fn outcome(value: &Value) -> Outcome<FamilyView> {
        match value {
            Value::Family(family) => Outcome::Exact(family@),
            Value::Str(s) => Outcome::Exact(FamilyView::Named(lowercase(s@))),
            _ => Outcome::Fail(mismatch("font family"@, value.kind())),
        }
    }

    fn accepts(value: &Value) -> (b: bool) {
        match value {
            Value::Family(_) => true,
            Value::Str(_) => true,
            _ => false,
        }
    }

    fn cast(value: Value) -> (r: CastResult<FontFamily>) {
        match value {
            Value::Family(family) => CastResult::Exact(family),
            Value::Str(s) => CastResult::Exact(FontFamily::Named(to_lowercase(s.as_str()))),
            other => type_mismatch("font family", &other),
        }
    }
}

impl Cast for FontStyle {
    /// Only a font style converts.
    open spec fn outcome(value: &Value) -> Outcome<FontStyle> {
        match value {
            Value::FontStyle(style) => Outcome::Exact(*style),
            _ => Outcome::Fail(mismatch("font style"@, value.kind())),
        }
    }

    fn accepts(value: &Value) -> (b: bool) {
        match value {
            Value::FontStyle(_) => true,
            _ => false,
        }
    }

    fn cast(value: Value) -> (r: CastResult<FontStyle>) {
        match value {
            Value::FontStyle(style) => CastResult::Exact(style),
            other => type_mismatch("font style", &other),
        }
    }
}

impl Cast for FontWeight {
    /// A weight converts as it is. An integer from 100 to 900 converts into
    /// the weight of that number; any other integer converts into the nearer
    /// of the two, with a message that gives the range.
    open spec fn outcome(value: &Value) -> Outcome<int> {
        match value {
            Value::Weight(weight) => Outcome::Exact(weight@),
            Value::Int(number) => if MIN_WEIGHT <= *number <= MAX_WEIGHT {
                Outcome::Exact(*number as int)
            } else {
                Outcome::Warn(
                    clamped(*number as int, MIN_WEIGHT as int, MAX_WEIGHT as int),
                    "should be between 100 and 900"@,
                )
            },
            _ => Outcome::Fail(mismatch("font weight"@, value.kind())),
        }
    }

    fn accepts(value: &Value) -> (b: bool) {
        match value {
            Value::Weight(_) => true,
            Value::Int(_) => true,
            _ => false,
        }
    }

    fn cast(value: Value) -> (r: CastResult<FontWeight>) {
        match value {
            Value::Weight(weight) => CastResult::Exact(weight),
            Value::Int(number) => {
                if number < MIN_WEIGHT as i64 {
                    CastResult::Warn(
                        FontWeight::from_number(MIN_WEIGHT),
                        String::from_str("should be between 100 and 900"),
                    )
                } else if number > MAX_WEIGHT as i64 {
                    CastResult::Warn(
                        FontWeight::from_number(MAX_WEIGHT),
                        String::from_str("should be between 100 and 900"),
                    )
                } else {
                    CastResult::Exact(FontWeight::from_number(number as u16))
                }
            },
            other => type_mismatch("font weight", &other),
        }
    }
}

impl Cast for FontStretch {
    /// A stretch converts as it is. A ratio from 50% to 200% converts into
    /// the stretch of that ratio; any other ratio converts into the nearer of
    /// the two, with a message that gives the range.
    open spec fn outcome(value: &Value) -> Outcome<int> {
        match value {
            Value::Stretch(stretch) => Outcome::Exact(stretch@),
            Value::Relative(ratio) => if MIN_STRETCH <= ratio@ <= MAX_STRETCH {
                Outcome::Exact(ratio@)
            } else {
                Outcome::Warn(
                    clamped(ratio@, MIN_STRETCH as int, MAX_STRETCH as int),
                    "should be between 50% and 200%"@,
                )
            },
            _ => Outcome::Fail(mismatch("font stretch"@, value.kind())),
        }
    }

    fn accepts(value: &Value) -> (b: bool) {
        match value {
            Value::Stretch(_) => true,
            Value::Relative(_) => true,
            _ => false,
        }
    }

    fn cast(value: Value) -> (r: CastResult<FontStretch>) {
        match value {
            Value::Stretch(stretch) => CastResult::Exact(stretch),
            Value::Relative(ratio) => {
                let stretch = FontStretch::from_ratio(ratio);
                if ratio.permille < MIN_STRETCH as i64 || ratio.permille > MAX_STRETCH as i64 {
                    CastResult::Warn(stretch, String::from_str("should be between 50% and 200%"))
                } else {
                    CastResult::Exact(stretch)
                }
            },
            other => type_mismatch("font stretch", &other),
        }
    }
}

impl Cast for VerticalFontMetric {
    /// Only a vertical font metric converts.
    open spec fn outcome(value: &Value) -> Outcome<VerticalFontMetric> {
        match value {
            Value::Metric(metric) => Outcome::Exact(*metric),
            _ => Outcome::Fail(mismatch("vertical font metric"@, value.kind())),
        }
    }

    fn accepts(value: &Value) -> (b: bool) {
        match value {
            Value::Metric(_) => true,
            _ => false,
        }
    }

    fn cast(value: Value) -> (r: CastResult<VerticalFontMetric>) {
        match value {
            Value::Metric(metric) => CastResult::Exact(metric),
            other => type_mismatch("vertical font metric", &other),
        }
    }
}

/// An integer from 100 to 900 converts into the weight of that number as it
/// stands.
pub proof fn lemma_weight_in_range(number: i64)
    requires
        MIN_WEIGHT <= number <= MAX_WEIGHT,
    ensures
        FontWeight::outcome(&Value::Int(number)) == Outcome::<int>::Exact(number as int),
{
}

/// An integer below 100 converts into the weight 100 and one above 900 into
/// the weight 900, each with a warning whose message names both bounds.
pub proof fn lemma_weight_out_of_range(number: i64)
    requires
        number < MIN_WEIGHT || number > MAX_WEIGHT,
    ensures
        FontWeight::outcome(&Value::Int(number)) == Outcome::<int>::Warn(
            if number < MIN_WEIGHT {
                100
            } else {
                900
            },
            "should be between 100 and 900"@,
        ),
        "should be between 100 and 900"@.subrange(18, 21) == "100"@,
        "should be between 100 and 900"@.subrange(26, 29) == "900"@,
{
    reveal_strlit("should be between 100 and 900");
    reveal_strlit("100");
    reveal_strlit("900");
    assert("should be between 100 and 900"@.subrange(18, 21) =~= "100"@);
    assert("should be between 100 and 900"@.subrange(26, 29) =~= "900"@);
}

/// A ratio from 50% to 200% converts into the stretch of that ratio as it
/// stands.
pub proof fn lemma_stretch_in_range(ratio: Relative)
    requires
        MIN_STRETCH <= ratio@ <= MAX_STRETCH,
    ensures
        FontStretch::outcome(&Value::Relative(ratio)) == Outcome::<int>::Exact(ratio@),
{
}

/// A ratio below 50% converts into the stretch of 50% and one above 200% into
/// the stretch of 200%, each with a warning whose message names both bounds.
pub proof fn lemma_stretch_out_of_range(ratio: Relative)
    requires
        ratio@ < MIN_STRETCH || ratio@ > MAX_STRETCH,
    ensures
        FontStretch::outcome(&Value::Relative(ratio)) == Outcome::<int>::Warn(
            if ratio@ < MIN_STRETCH {
                500
            } else {
                2000
            },
            "should be between 50% and 200%"@,
        ),
        "should be between 50% and 200%"@.subrange(18, 21) == "50%"@,
        "should be between 50% and 200%"@.subrange(26, 30) == "200%"@,
{
    reveal_strlit("should be between 50% and 200%");
    reveal_strlit("50%");
    reveal_strlit("200%");
    assert("should be between 50% and 200%"@.subrange(18, 21) =~= "50%"@);
    assert("should be between 50% and 200%"@.subrange(26, 30) =~= "200%"@);
}

/// A string in an array comes out in lower case.
pub proof fn lemma_lowered_string(s: String)
    ensures
        lowered_strings(seq![Value::Str(s)]) == seq![lowercase(s@)],
{
    let values = seq![Value::Str(s)];
    assert(values.drop_last() =~= Seq::empty());
    assert(lowered_strings(values.drop_last()) =~= Seq::empty());
    assert(lowered_strings(values) =~= seq![lowercase(s@)]);
}

/// What is not a string leaves no trace.
pub proof fn lemma_lowered_other(value: Value)
    requires
        !(value is Str),
    ensures
        lowered_strings(seq![value]) == Seq::<Seq<char>>::empty(),
{
    let values = seq![value];
    assert(values.drop_last() =~= Seq::empty());
    assert(lowered_strings(values.drop_last()) =~= Seq::empty());
}

/// The names keep the order of the values they came from: what an array gives
/// is what its front part gives, followed by what its back part gives.
pub proof fn lemma_lowered_in_order(front: Seq<Value>, back: Seq<Value>)
    ensures
        lowered_strings(front + back) == lowered_strings(front) + lowered_strings(back),
    decreases back.len(),
{
    if back.len() == 0 {
        assert(front + back =~= front);
        assert(lowered_strings(front) + lowered_strings(back) =~= lowered_strings(front));
    } else {
        lemma_lowered_in_order(front, back.drop_last());
        assert((front + back).drop_last() =~= front + back.drop_last());
        assert((front + back).last() == back.last());
        match back.last() {
            Value::Str(s) => {
                assert(lowered_strings(front + back) =~= lowered_strings(front) + lowered_strings(
                    back,
                ));
            },
            _ => {},
        }
    }
}

} // verus!
