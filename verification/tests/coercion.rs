use typeset::template::Template;
use typeset::font::FontFamily;
use typeset::font::FontStretch;
use typeset::font::FontStyle;
use typeset::font::FontWeight;
use typeset::font::VerticalFontMetric;
use typeset::geom::Color;
use typeset::geom::Length;
use typeset::geom::Linear;
use typeset::geom::Relative;
use typeset::library::font::FontFamilies;
use typeset::library::image::ImageTemplate;
use typeset::value::Cast;
use typeset::value::CastResult;
use typeset::value::Value;

fn string(s: &str) -> Value {
    Value::Str(s.to_string())
}

fn names(list: &[&str]) -> FontFamilies {
    FontFamilies(list.iter().map(|s| s.to_string()).collect())
}

fn failure<T>(message: &str) -> CastResult<T> {
    CastResult::Fail(message.to_string())
}

#[test]
fn weight_from_integer_in_range_is_exact() {
    for number in 100..=900u16 {
        let cast = FontWeight::cast(Value::Int(i64::from(number)));
        assert_eq!(cast, CastResult::Exact(FontWeight::from_number(number)));
        match cast {
            CastResult::Exact(weight) => assert_eq!(weight.to_number(), number),
            _ => unreachable!(),
        }
    }
}

#[test]
fn weight_from_integer_at_the_bounds_is_exact() {
    assert_eq!(FontWeight::cast(Value::Int(100)), CastResult::Exact(FontWeight::thin()));
    assert_eq!(FontWeight::cast(Value::Int(900)), CastResult::Exact(FontWeight::black()));
}

#[test]
fn weight_from_integer_below_range_is_clamped_with_warning() {
    for number in [99, 50, 0, -1, -700, i64::MIN] {
        assert_eq!(
            FontWeight::cast(Value::Int(number)),
            CastResult::Warn(FontWeight::thin(), "should be between 100 and 900".to_string())
        );
    }
}

#[test]
fn weight_from_integer_above_range_is_clamped_with_warning() {
    for number in [901, 1000, 65_536 + 400, i64::MAX] {
        assert_eq!(
            FontWeight::cast(Value::Int(number)),
            CastResult::Warn(FontWeight::black(), "should be between 100 and 900".to_string())
        );
    }
}

#[test]
fn weight_message_names_both_bounds() {
    match FontWeight::cast(Value::Int(5)) {
        CastResult::Warn(_, message) => {
            assert!(message.contains("100"));
            assert!(message.contains("900"));
        }
        _ => panic!("a weight of 5 is out of range"),
    }
}

#[test]
fn weight_presets_have_their_numbers() {
    let presets = [
        (FontWeight::thin(), 100),
        (FontWeight::extralight(), 200),
        (FontWeight::light(), 300),
        (FontWeight::regular(), 400),
        (FontWeight::medium(), 500),
        (FontWeight::semibold(), 600),
        (FontWeight::bold(), 700),
        (FontWeight::extrabold(), 800),
        (FontWeight::black(), 900),
    ];
    for (weight, number) in presets {
        assert_eq!(weight.to_number(), number);
        assert_eq!(FontWeight::cast(Value::Weight(weight)), CastResult::Exact(weight));
    }
}

#[test]
fn weight_from_number_clamps() {
    assert_eq!(FontWeight::from_number(0).to_number(), 100);
    assert_eq!(FontWeight::from_number(99).to_number(), 100);
    assert_eq!(FontWeight::from_number(450).to_number(), 450);
    assert_eq!(FontWeight::from_number(901).to_number(), 900);
    assert_eq!(FontWeight::from_number(u16::MAX).to_number(), 900);
}

#[test]
fn weight_from_anything_else_fails() {
    assert_eq!(
        FontWeight::cast(string("bold")),
        failure("expected font weight, found string")
    );
    assert_eq!(
        FontWeight::cast(Value::Relative(Relative::new(500))),
        failure("expected font weight, found relative")
    );
    assert!(!FontWeight::accepts(&string("bold")));
    assert!(FontWeight::accepts(&Value::Int(-3)));
    assert!(FontWeight::accepts(&Value::Weight(FontWeight::bold())));
}

#[test]
fn stretch_from_ratio_in_range_is_exact() {
    for permille in 500..=2000i64 {
        let ratio = Relative::new(permille);
        match FontStretch::cast(Value::Relative(ratio)) {
            CastResult::Exact(stretch) => assert_eq!(stretch.to_ratio(), ratio),
            other => panic!("{:?}", other),
        }
    }
}

#[test]
fn stretch_from_ratio_out_of_range_is_clamped_with_warning() {
    let message = "should be between 50% and 200%".to_string();
    for permille in [499, 0, -250, i64::MIN] {
        assert_eq!(
            FontStretch::cast(Value::Relative(Relative::new(permille))),
            CastResult::Warn(FontStretch::ultra_condensed(), message.clone())
        );
    }
    for permille in [2001, 3000, i64::MAX] {
        assert_eq!(
            FontStretch::cast(Value::Relative(Relative::new(permille))),
            CastResult::Warn(FontStretch::ultra_expanded(), message.clone())
        );
    }
}

#[test]
fn stretch_presets_have_their_ratios() {
    let presets = [
        (FontStretch::ultra_condensed(), 500),
        (FontStretch::extra_condensed(), 625),
        (FontStretch::condensed(), 750),
        (FontStretch::semi_condensed(), 875),
        (FontStretch::normal(), 1000),
        (FontStretch::semi_expanded(), 1125),
        (FontStretch::expanded(), 1250),
        (FontStretch::extra_expanded(), 1500),
        (FontStretch::ultra_expanded(), 2000),
    ];
    for (stretch, permille) in presets {
        assert_eq!(stretch.to_ratio(), Relative::new(permille));
        assert_eq!(FontStretch::from_ratio(Relative::new(permille)), stretch);
        assert_eq!(FontStretch::cast(Value::Stretch(stretch)), CastResult::Exact(stretch));
    }
}

#[test]
fn stretch_from_anything_else_fails() {
    assert_eq!(
        FontStretch::cast(Value::Int(1)),
        failure("expected font stretch, found integer")
    );
    assert!(!FontStretch::accepts(&Value::Int(1)));
    assert!(FontStretch::accepts(&Value::Relative(Relative::new(9000))));
}

#[test]
fn family_list_keeps_the_strings_of_a_mixed_array() {
    let array = Value::Array(vec![string("Serif"), Value::Int(5), string("MONO")]);
    assert_eq!(FontFamilies::cast(array), CastResult::Exact(names(&["serif", "mono"])));
}

#[test]
fn family_list_keeps_the_order_and_the_repeats() {
    let array = Value::Array(vec![
        Value::Bool(true),
        string("B"),
        string("a"),
        Value::Array(vec![string("Nested")]),
        string("B"),
        Value::Nothing,
    ]);
    assert_eq!(FontFamilies::cast(array), CastResult::Exact(names(&["b", "a", "b"])));
}

#[test]
fn family_list_of_an_array_without_strings_is_empty() {
    let array = Value::Array(vec![Value::Int(1), Value::Bool(false)]);
    assert_eq!(FontFamilies::cast(array), CastResult::Exact(names(&[])));
    assert_eq!(FontFamilies::cast(Value::Array(Vec::new())), CastResult::Exact(names(&[])));
}

#[test]
fn family_list_from_a_string_has_one_name() {
    assert_eq!(
        FontFamilies::cast(string("Noto Sans")),
        CastResult::Exact(names(&["noto sans"]))
    );
}

#[test]
fn family_list_lowers_beyond_ascii() {
    assert_eq!(
        FontFamilies::cast(string("ÄRGER Ünd ΣΟΦΙΑ")),
        CastResult::Exact(names(&["ärger ünd σοφια"]))
    );
}

#[test]
fn family_list_from_anything_else_fails() {
    assert_eq!(
        FontFamilies::cast(Value::Int(3)),
        failure("expected string or array of strings, found integer")
    );
    assert!(FontFamilies::accepts(&Value::Array(vec![Value::Int(1)])));
    assert!(!FontFamilies::accepts(&Value::Family(FontFamily::Serif)));
}

#[test]
fn family_from_a_string_is_named_in_lower_case() {
    assert_eq!(
        FontFamily::cast(string("Latin Modern")),
        CastResult::Exact(FontFamily::Named("latin modern".to_string()))
    );
}

#[test]
fn family_from_a_generic_family_is_itself() {
    for family in [FontFamily::Serif, FontFamily::SansSerif, FontFamily::Monospace] {
        assert_eq!(FontFamily::cast(Value::Family(family.clone())), CastResult::Exact(family));
    }
    assert_eq!(
        FontFamily::cast(Value::Family(FontFamily::Named("Kept".to_string()))),
        CastResult::Exact(FontFamily::Named("Kept".to_string()))
    );
}

#[test]
fn family_from_anything_else_fails() {
    assert_eq!(
        FontFamily::cast(Value::Array(vec![string("a")])),
        failure("expected font family, found array")
    );
}

#[test]
fn style_and_metric_take_only_their_own() {
    assert_eq!(
        FontStyle::cast(Value::FontStyle(FontStyle::Italic)),
        CastResult::Exact(FontStyle::Italic)
    );
    assert_eq!(
        FontStyle::cast(string("italic")),
        failure("expected font style, found string")
    );
    assert_eq!(
        VerticalFontMetric::cast(Value::Metric(VerticalFontMetric::XHeight)),
        CastResult::Exact(VerticalFontMetric::XHeight)
    );
    assert_eq!(
        VerticalFontMetric::cast(Value::FontStyle(FontStyle::Normal)),
        failure("expected vertical font metric, found font style")
    );
    assert_eq!(
        VerticalFontMetric::cast(Value::Nothing),
        failure("expected vertical font metric, found none")
    );
}

#[test]
fn linear_takes_lengths_and_ratios() {
    let linear = Linear::new(Relative::new(300), Length::pt(2));
    assert_eq!(Linear::cast(Value::Linear(linear)), CastResult::Exact(linear));
    assert_eq!(
        Linear::cast(Value::Length(Length::pt(12))),
        CastResult::Exact(Linear::absolute(Length::pt(12)))
    );
    assert_eq!(
        Linear::cast(Value::Relative(Relative::new(1500))),
        CastResult::Exact(Linear::relative(Relative::new(1500)))
    );
    assert_eq!(
        Linear::cast(Value::Bool(true)),
        failure("expected linear, found boolean")
    );
}

#[test]
fn string_color_and_template_take_only_their_own() {
    assert_eq!(String::cast(string("Kept As Is")), CastResult::Exact("Kept As Is".to_string()));
    assert_eq!(
        String::cast(Value::Length(Length::pt(1))),
        failure("expected string, found length")
    );
    let red = Color { r: 255, g: 0, b: 0, a: 255 };
    assert_eq!(Color::cast(Value::Color(red)), CastResult::Exact(red));
    assert_eq!(
        Color::cast(Value::Weight(FontWeight::bold())),
        failure("expected color, found font weight")
    );
    let template = || Template::Image(ImageTemplate { path: None, width: None, height: None });
    assert_eq!(Template::cast(Value::Template(template())), CastResult::Exact(template()));
    assert_eq!(
        Template::cast(Value::Stretch(FontStretch::normal())),
        failure("expected template, found font stretch")
    );
    assert_eq!(
        Template::cast(Value::Linear(Linear::one())),
        failure("expected template, found linear")
    );
    assert_eq!(
        String::cast(Value::Template(template())),
        failure("expected string, found template")
    );
    assert_eq!(
        String::cast(Value::Color(red)),
        failure("expected string, found color")
    );
    assert_eq!(
        String::cast(Value::Family(FontFamily::Serif)),
        failure("expected string, found font family")
    );
}

#[test]
fn accepts_agrees_with_cast() {
    let values = || {
        vec![
            Value::Nothing,
            Value::Bool(true),
            Value::Int(400),
            Value::Int(4000),
            Value::Length(Length::pt(1)),
            Value::Relative(Relative::new(100)),
            Value::Linear(Linear::one()),
            Value::Color(Color::black()),
            string("x"),
            Value::Array(vec![string("x")]),
            Value::Template(Template::Image(ImageTemplate { path: None, width: None, height: None })),
            Value::Family(FontFamily::Monospace),
            Value::FontStyle(FontStyle::Oblique),
            Value::Weight(FontWeight::light()),
            Value::Stretch(FontStretch::expanded()),
            Value::Metric(VerticalFontMetric::Descender),
        ]
    };
    fn agrees<T: Cast>(value: Value) {
        let accepted = T::accepts(&value);
        let converts = !matches!(T::cast(value), CastResult::Fail(_));
        assert_eq!(accepted, converts);
    }
    for value in values() {
        agrees::<Linear>(value);
    }
    for value in values() {
        agrees::<String>(value);
    }
    for value in values() {
        agrees::<Color>(value);
    }
    for value in values() {
        agrees::<Template>(value);
    }
    for value in values() {
        agrees::<FontFamily>(value);
    }
    for value in values() {
        agrees::<FontFamilies>(value);
    }
    for value in values() {
        agrees::<FontStyle>(value);
    }
    for value in values() {
        agrees::<FontWeight>(value);
    }
    for value in values() {
        agrees::<FontStretch>(value);
    }
    for value in values() {
        agrees::<VerticalFontMetric>(value);
    }
}

#[test]
fn cast_result_ok_keeps_adjusted_values() {
    assert_eq!(CastResult::Exact(1).ok(), Some(1));
    assert_eq!(CastResult::Warn(2, "adjusted".to_string()).ok(), Some(2));
    assert_eq!(CastResult::<i32>::Fail("no".to_string()).ok(), None);
}
