use typeset::env::Env;
use typeset::args::Arg;
use typeset::eval::Diag;
use typeset::eval::EvalContext;
use typeset::args::FuncArgs;
use typeset::template::Template;
use typeset::font::FontFamily;
use typeset::font::FontStretch;
use typeset::font::FontStyle;
use typeset::font::FontWeight;
use typeset::font::VerticalFontMetric;
use typeset::geom::Color;
use typeset::geom::Length;
use typeset::geom::Linear;
use typeset::geom::Relative;
use typeset::library::font::font;
use typeset::library::font::FontFamilies;
use typeset::library::font::FontTemplate;
use typeset::library::image::image;
use typeset::library::image::ImageTemplate;
use typeset::style::Styles;
use typeset::value::Span;
use typeset::value::Spanned;
use typeset::value::Value;

fn span(n: usize) -> Span {
    Span { start: n, end: n + 1 }
}

fn call() -> Span {
    Span { start: 0, end: 100 }
}

fn pos(n: usize, v: Value) -> Arg {
    Arg { name: None, value: Spanned { v, span: span(n) } }
}

fn named(n: usize, name: &str, v: Value) -> Arg {
    Arg { name: Some(name.to_string()), value: Spanned { v, span: span(n) } }
}

fn string(s: &str) -> Value {
    Value::Str(s.to_string())
}

fn args(items: Vec<Arg>) -> FuncArgs {
    FuncArgs { span: call(), items }
}

fn ctx() -> EvalContext {
    EvalContext::new(Env::new())
}

fn plain() -> FontTemplate {
    FontTemplate {
        size: None,
        list: Vec::new(),
        style: None,
        weight: None,
        stretch: None,
        top_edge: None,
        bottom_edge: None,
        color: None,
        serif: None,
        sans_serif: None,
        monospace: None,
        body: None,
    }
}

fn some_image() -> Template {
    Template::Image(ImageTemplate { path: None, width: None, height: None })
}

#[test]
fn get_takes_the_first_argument_of_the_name() {
    let mut ctx = ctx();
    let mut args = args(vec![
        pos(1, Value::Int(700)),
        named(2, "weight", Value::Int(300)),
        named(3, "style", Value::FontStyle(FontStyle::Italic)),
        named(4, "weight", Value::Int(500)),
    ]);
    assert_eq!(args.get::<FontWeight>(&mut ctx, "weight"), Some(FontWeight::light()));
    assert_eq!(
        args.items,
        vec![
            pos(1, Value::Int(700)),
            named(3, "style", Value::FontStyle(FontStyle::Italic)),
            named(4, "weight", Value::Int(500)),
        ]
    );
    assert!(ctx.diags.is_empty());
    assert_eq!(args.get::<FontWeight>(&mut ctx, "weight"), Some(FontWeight::medium()));
    assert_eq!(args.get::<FontWeight>(&mut ctx, "weight"), None);
    assert_eq!(args.items.len(), 2);
    assert_eq!(args.span, call());
}

#[test]
fn get_warns_about_an_adjusted_value() {
    let mut ctx = ctx();
    let mut args = args(vec![named(7, "weight", Value::Int(1200))]);
    assert_eq!(args.get::<FontWeight>(&mut ctx, "weight"), Some(FontWeight::black()));
    assert!(args.items.is_empty());
    assert_eq!(
        ctx.diags,
        vec![Diag::warning(span(7), "should be between 100 and 900".to_string())]
    );
}

#[test]
fn get_drops_a_value_of_the_wrong_type_with_an_error() {
    let mut ctx = ctx();
    let mut args = args(vec![named(7, "weight", string("heavy")), pos(8, Value::Int(1))]);
    assert_eq!(args.get::<FontWeight>(&mut ctx, "weight"), None);
    assert_eq!(args.items, vec![pos(8, Value::Int(1))]);
    assert_eq!(
        ctx.diags,
        vec![Diag::error(span(7), "expected font weight, found string".to_string())]
    );
}

#[test]
fn get_without_the_name_changes_nothing() {
    let mut ctx = ctx();
    let mut args = args(vec![pos(1, Value::Int(700)), named(2, "style", Value::Int(3))]);
    assert_eq!(args.get::<FontWeight>(&mut ctx, "weight"), None);
    assert_eq!(args.items.len(), 2);
    assert!(ctx.diags.is_empty());
}

#[test]
fn find_takes_the_first_argument_by_position_that_converts() {
    let mut ctx = ctx();
    let mut args = args(vec![
        named(1, "size", Value::Length(Length::pt(5))),
        pos(2, string("skipped")),
        pos(3, Value::Relative(Relative::new(800))),
        pos(4, Value::Length(Length::pt(9))),
    ]);
    assert_eq!(args.find::<Linear>(&mut ctx), Some(Linear::relative(Relative::new(800))));
    assert_eq!(
        args.items,
        vec![
            named(1, "size", Value::Length(Length::pt(5))),
            pos(2, string("skipped")),
            pos(4, Value::Length(Length::pt(9))),
        ]
    );
    assert!(ctx.diags.is_empty());
    assert_eq!(
        args.find_spanned::<Linear>(&mut ctx),
        Some(Spanned { v: Linear::absolute(Length::pt(9)), span: span(4) })
    );
    assert_eq!(args.find::<Linear>(&mut ctx), None);
    assert_eq!(args.items.len(), 2);
    assert!(ctx.diags.is_empty());
}

#[test]
fn find_warns_about_an_adjusted_value() {
    let mut ctx = ctx();
    let mut args = args(vec![pos(1, string("x")), pos(2, Value::Int(5))]);
    assert_eq!(args.find::<FontWeight>(&mut ctx), Some(FontWeight::thin()));
    assert_eq!(args.items, vec![pos(1, string("x"))]);
    assert_eq!(
        ctx.diags,
        vec![Diag::warning(span(2), "should be between 100 and 900".to_string())]
    );
}

#[test]
fn filter_takes_every_argument_by_position_that_converts() {
    let mut ctx = ctx();
    let mut args = args(vec![
        pos(1, string("First")),
        pos(2, Value::Int(4)),
        named(3, "serif", string("Named")),
        pos(4, Value::Family(FontFamily::Monospace)),
        pos(5, Value::Length(Length::pt(1))),
        pos(6, string("LAST")),
    ]);
    assert_eq!(
        args.filter::<FontFamily>(&mut ctx),
        vec![
            FontFamily::Named("first".to_string()),
            FontFamily::Monospace,
            FontFamily::Named("last".to_string()),
        ]
    );
    assert_eq!(
        args.items,
        vec![
            pos(2, Value::Int(4)),
            named(3, "serif", string("Named")),
            pos(5, Value::Length(Length::pt(1))),
        ]
    );
    assert!(ctx.diags.is_empty());
    assert_eq!(args.filter::<FontFamily>(&mut ctx), Vec::new());
    assert_eq!(args.items.len(), 3);
}

#[test]
fn filter_warns_about_each_adjusted_value_in_order() {
    let mut ctx = ctx();
    let mut args = args(vec![
        pos(1, Value::Int(1)),
        pos(2, Value::Int(400)),
        pos(3, Value::Bool(true)),
        pos(4, Value::Int(5000)),
    ]);
    assert_eq!(
        args.filter::<FontWeight>(&mut ctx),
        vec![FontWeight::thin(), FontWeight::regular(), FontWeight::black()]
    );
    assert_eq!(args.items, vec![pos(3, Value::Bool(true))]);
    assert_eq!(
        ctx.diags,
        vec![
            Diag::warning(span(1), "should be between 100 and 900".to_string()),
            Diag::warning(span(4), "should be between 100 and 900".to_string()),
        ]
    );
}

#[test]
fn require_reports_what_is_missing() {
    let mut ctx = ctx();
    let mut args = args(vec![pos(1, Value::Int(1)), named(2, "path", string("a.png"))]);
    assert_eq!(args.require::<String>(&mut ctx, "path to image file"), None);
    assert_eq!(args.items.len(), 2);
    assert_eq!(
        ctx.diags,
        vec![Diag::error(call(), "missing argument: path to image file".to_string())]
    );
}

#[test]
fn require_finds_what_is_there() {
    let mut ctx = ctx();
    let mut args = args(vec![pos(1, Value::Int(1)), pos(2, string("a.png"))]);
    assert_eq!(
        args.require::<String>(&mut ctx, "path to image file"),
        Some(Spanned { v: "a.png".to_string(), span: span(2) })
    );
    assert_eq!(args.items, vec![pos(1, Value::Int(1))]);
    assert!(ctx.diags.is_empty());
}

#[test]
fn font_without_arguments_holds_nothing() {
    let mut ctx = ctx();
    let mut args = args(Vec::new());
    assert_eq!(font(&mut ctx, &mut args), Value::Template(Template::Font(plain())));
    assert!(ctx.diags.is_empty());
    assert!(args.items.is_empty());
}

#[test]
fn font_binds_every_parameter() {
    let mut ctx = ctx();
    let red = Color { r: 255, g: 0, b: 0, a: 255 };
    let mut args = args(vec![
        pos(1, string("Noto Serif")),
        named(2, "monospace", Value::Array(vec![string("Fira Code"), Value::Int(1), string("mono")])),
        pos(3, Value::Length(Length::pt(12))),
        named(4, "weight", Value::Weight(FontWeight::bold())),
        pos(5, Value::Family(FontFamily::SansSerif)),
        named(6, "stretch", Value::Relative(Relative::new(750))),
        named(7, "style", Value::FontStyle(FontStyle::Italic)),
        pos(8, Value::Template(some_image())),
        named(9, "top-edge", Value::Metric(VerticalFontMetric::Ascender)),
        named(10, "bottom-edge", Value::Metric(VerticalFontMetric::Descender)),
        named(11, "color", Value::Color(red)),
        named(12, "serif", string("EB Garamond")),
        named(13, "sans-serif", Value::Array(Vec::new())),
    ]);
    let expected = FontTemplate {
        size: Some(Linear::absolute(Length::pt(12))),
        list: vec![FontFamily::Named("noto serif".to_string()), FontFamily::SansSerif],
        style: Some(FontStyle::Italic),
        weight: Some(FontWeight::bold()),
        stretch: Some(FontStretch::condensed()),
        top_edge: Some(VerticalFontMetric::Ascender),
        bottom_edge: Some(VerticalFontMetric::Descender),
        color: Some(red),
        serif: Some(FontFamilies(vec!["eb garamond".to_string()])),
        sans_serif: Some(FontFamilies(Vec::new())),
        monospace: Some(FontFamilies(vec!["fira code".to_string(), "mono".to_string()])),
        body: Some(Box::new(some_image())),
    };
    assert_eq!(font(&mut ctx, &mut args), Value::Template(Template::Font(expected)));
    assert!(args.items.is_empty());
    assert!(ctx.diags.is_empty());
}

#[test]
fn font_clamps_with_warnings_and_goes_on() {
    let mut ctx = ctx();
    let mut args = args(vec![
        named(1, "stretch", Value::Relative(Relative::new(2500))),
        named(2, "weight", Value::Int(50)),
    ]);
    let expected = FontTemplate {
        weight: Some(FontWeight::thin()),
        stretch: Some(FontStretch::ultra_expanded()),
        ..plain()
    };
    assert_eq!(font(&mut ctx, &mut args), Value::Template(Template::Font(expected)));
    assert!(args.items.is_empty());
    // The weight is bound before the stretch.
    assert_eq!(
        ctx.diags,
        vec![
            Diag::warning(span(2), "should be between 100 and 900".to_string()),
            Diag::warning(span(1), "should be between 50% and 200%".to_string()),
        ]
    );
}

#[test]
fn font_goes_on_without_a_parameter_of_the_wrong_type() {
    let mut ctx = ctx();
    let mut args = args(vec![
        named(1, "style", string("italic")),
        named(2, "weight", Value::Int(600)),
        named(3, "color", Value::Int(3)),
    ]);
    let expected = FontTemplate { weight: Some(FontWeight::semibold()), ..plain() };
    assert_eq!(font(&mut ctx, &mut args), Value::Template(Template::Font(expected)));
    assert!(args.items.is_empty());
    assert_eq!(
        ctx.diags,
        vec![
            Diag::error(span(1), "expected font style, found string".to_string()),
            Diag::error(span(3), "expected color, found integer".to_string()),
        ]
    );
}

#[test]
fn font_leaves_what_it_has_no_use_for() {
    let mut ctx = ctx();
    let mut args = args(vec![
        pos(1, Value::Length(Length::pt(10))),
        pos(2, Value::Length(Length::pt(20))),
        pos(3, Value::Bool(true)),
        named(4, "unknown", Value::Int(1)),
        pos(5, Value::Template(some_image())),
        pos(6, Value::Template(some_image())),
    ]);
    let expected = FontTemplate {
        size: Some(Linear::absolute(Length::pt(10))),
        body: Some(Box::new(some_image())),
        ..plain()
    };
    assert_eq!(font(&mut ctx, &mut args), Value::Template(Template::Font(expected)));
    assert_eq!(
        args.items,
        vec![
            pos(2, Value::Length(Length::pt(20))),
            pos(3, Value::Bool(true)),
            named(4, "unknown", Value::Int(1)),
            pos(6, Value::Template(some_image())),
        ]
    );
    assert!(ctx.diags.is_empty());
}

#[test]
fn font_changes_nothing_but_the_diagnostics() {
    let mut ctx = ctx();
    ctx.state.set(typeset::style::Style::Weight(FontWeight::bold()));
    let before: Styles = ctx.state.clone();
    let mut args = args(vec![named(2, "weight", Value::Int(50))]);
    font(&mut ctx, &mut args);
    assert_eq!(ctx.state, before);
    assert!(ctx.content.is_empty());
    assert_eq!(ctx.diags.len(), 1);
}

#[test]
fn font_template_from_a_call_scopes_to_its_body() {
    let mut ctx = ctx();
    let mut args = args(vec![
        named(1, "weight", Value::Int(700)),
        pos(2, Value::Template(some_image())),
    ]);
    let value = font(&mut ctx, &mut args);
    let before = ctx.state.clone();
    match value {
        Value::Template(template) => template.execute(&mut ctx),
        other => panic!("{:?}", other),
    }
    assert_eq!(ctx.state, before);
}

#[test]
fn image_binds_path_width_and_height() {
    let mut ctx = ctx();
    let mut args = args(vec![
        named(1, "height", Value::Relative(Relative::new(500))),
        pos(2, string("Figures/Cat.PNG")),
        named(3, "width", Value::Length(Length::pt(40))),
    ]);
    let expected = ImageTemplate {
        path: Some(Spanned { v: "Figures/Cat.PNG".to_string(), span: span(2) }),
        width: Some(Linear::absolute(Length::pt(40))),
        height: Some(Linear::relative(Relative::new(500))),
    };
    assert_eq!(image(&mut ctx, &mut args), Value::Template(Template::Image(expected)));
    assert!(args.items.is_empty());
    assert!(ctx.diags.is_empty());
}

#[test]
fn image_without_path_reports_it_and_inserts_nothing() {
    let mut ctx = ctx();
    let mut args = args(vec![named(3, "width", string("wide"))]);
    let value = image(&mut ctx, &mut args);
    let expected = ImageTemplate { path: None, width: None, height: None };
    assert_eq!(value, Value::Template(Template::Image(expected)));
    assert_eq!(
        ctx.diags,
        vec![
            Diag::error(call(), "missing argument: path to image file".to_string()),
            Diag::error(span(3), "expected linear, found string".to_string()),
        ]
    );
    match value {
        Value::Template(template) => template.execute(&mut ctx),
        other => panic!("{:?}", other),
    }
    assert!(ctx.content.is_empty());
    assert_eq!(ctx.diags.len(), 2);
}
