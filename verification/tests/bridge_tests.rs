//! Token-bridge behaviour: parsing, serialization, round trips, layered
//! ordering and the property registry.

use css_model::at_rules::FontFaceAscentOverride;
use css_model::bridge::{parse_length, parse_line_style, parse_line_width, parse_width_value};
use css_model::data_types::{
    Alpha, Angle, Color, Gradient, Image, Length, LengthPercentage, LineStyle, LineWidth, Number,
    Percentage, RadialGradientShape, Url, WidthValue,
};
use css_model::errors::{CssError, Expected};
use css_model::parser::{Ast, FromTokens, ToTokens};
use css_model::properties::{
    AnimationDirection, AnimationFillMode, AnimationName, AnimationTimingFunction, Appearance,
    AspectRatio, BackgroundImage, BackgroundLayerImage, EasingFunction, EasingStepsJump, Property,
    PropertyDiscriminants, AlignContent,
};
use css_model::registry::{is_shorthand, lookup, parse_declaration, property_name};
use css_model::scalar::Scalar;
use css_model::shorthand::{Animation, Border};
use css_model::selectors::{pseudo_class_from_name, PseudoClass};
use css_model::tokens::Token;
use css_model::units::{AngleUnit, LengthUnit, TimeUnit};

fn scalar(n: i64) -> Scalar {
    Scalar::from_int(n)
}

fn ident(s: &str) -> Token {
    Token::Ident(s.to_string())
}

fn dim(n: i64, unit: &str) -> Token {
    Token::Dimension(Scalar::from_int(n), unit.to_string())
}

fn ast(tokens: Vec<Token>) -> Ast {
    Ast { tokens }
}

#[test]
fn width_auto_selects_the_auto_alternative() {
    let v = WidthValue::from_tokens(&ast(vec![ident("auto")])).unwrap();
    assert_eq!(v, WidthValue::Auto);
}

#[test]
fn width_dimension_selects_the_length_alternative() {
    let v = WidthValue::from_tokens(&ast(vec![dim(5, "px")])).unwrap();
    assert_eq!(v, WidthValue::Length(Length(scalar(5), LengthUnit::Px)));
}

#[test]
fn width_value_round_trips_through_tokens() {
    let cases = vec![
        WidthValue::Auto,
        WidthValue::MaxContent,
        WidthValue::MinContent,
        WidthValue::Length(Length(scalar(7), LengthUnit::Cm)),
        WidthValue::Percentage(Percentage(Number(scalar(40)))),
        WidthValue::FitContent(LengthPercentage::Percentage(Percentage(Number(scalar(60))))),
    ];
    for v in cases {
        let toks = v.to_tokens();
        let back = WidthValue::from_tokens(&toks).unwrap();
        assert_eq!(back, v);
    }
}

#[test]
fn trailing_tokens_are_a_parse_failure() {
    let r = WidthValue::from_tokens(&ast(vec![ident("auto"), Token::Whitespace, ident("auto")]));
    match r {
        Err(CssError::Parse(f)) => {
            assert_eq!(f.position, 2);
            assert_eq!(f.expected, Expected::EndOfInput);
        }
        other => panic!("expected a parse failure, got {:?}", other),
    }
}

#[test]
fn whitespace_is_skipped_between_tokens() {
    let v = WidthValue::from_tokens(&ast(vec![Token::Whitespace, ident("auto"), Token::Whitespace]))
        .unwrap();
    assert_eq!(v, WidthValue::Auto);
}

#[test]
fn line_style_and_width_parse_and_round_trip() {
    let toks = vec![ident("dotted")];
    let (style, _) = parse_line_style(&toks, 0).unwrap();
    assert_eq!(style, LineStyle::Dotted);

    let toks2 = vec![ident("medium")];
    let (width, _) = parse_line_width(&toks2, 0).unwrap();
    assert_eq!(width, LineWidth::Medium);

    let toks3 = vec![dim(3, "px")];
    let (width3, _) = parse_line_width(&toks3, 0).unwrap();
    match width3 {
        LineWidth::Value(p) => {
            assert_eq!(p.magnitude().num(), 3);
            assert_eq!(p.unit(), LengthUnit::Px);
        }
        other => panic!("expected an explicit width, got {:?}", other),
    }

    let toks4 = vec![dim(-3, "px")];
    assert!(parse_line_width(&toks4, 0).is_err());
}

#[test]
fn unknown_length_unit_fails_the_length_grammar() {
    let toks = vec![dim(3, "parsec")];
    let r = parse_length(&toks, 0);
    assert!(r.is_err());
    assert_eq!(r.unwrap_err().expected, Expected::Length);
}

#[test]
fn color_round_trips_through_tokens() {
    let half = Alpha::new_percentage(Percentage(Number(scalar(50)))).unwrap();
    let cases = vec![
        Color::Rgb { red: scalar(1), green: scalar(2), blue: scalar(3), alpha: None },
        Color::Rgb { red: scalar(0), green: scalar(0), blue: scalar(0), alpha: Some(half) },
        Color::Hsl {
            hue: scalar(120),
            saturation: Percentage(Number(scalar(40))),
            lightness: Percentage(Number(scalar(60))),
            alpha: None,
        },
        Color::Lch {
            lightness: Percentage(Number(scalar(50))),
            chroma: scalar(30),
            hue: scalar(200),
            alpha: None,
        },
        Color::Lab {
            lightness: Percentage(Number(scalar(50))),
            a_axis: scalar(-20),
            b_axis: scalar(10),
            alpha: None,
        },
    ];
    for c in cases {
        let toks = c.to_tokens();
        let back = Color::from_tokens(&toks).unwrap();
        assert_eq!(back, c);
    }
}

#[test]
fn image_url_round_trips_through_tokens() {
    let img = Image::Url(Url("a.png".to_string()));
    let toks = img.to_tokens();
    assert_eq!(toks.tokens, vec![Token::UrlTok("a.png".to_string())]);
    let back = Image::from_tokens(&toks).unwrap();
    assert_eq!(back, img);
}

#[test]
fn background_image_preserves_layer_order() {
    let input = ast(vec![
        Token::UrlTok("a.png".to_string()),
        Token::Comma,
        Token::Whitespace,
        Token::UrlTok("b.png".to_string()),
    ]);
    let parsed = BackgroundImage::from_tokens(&input).unwrap();
    let layers = parsed.layers();
    assert_eq!(layers.len(), 2);
    assert_eq!(layers[0], BackgroundLayerImage::Image(Image::Url(Url("a.png".to_string()))));
    assert_eq!(layers[1], BackgroundLayerImage::Image(Image::Url(Url("b.png".to_string()))));

    let out = parsed.to_tokens();
    assert_eq!(
        out.tokens,
        vec![
            Token::UrlTok("a.png".to_string()),
            Token::Comma,
            Token::UrlTok("b.png".to_string()),
        ]
    );
    let reparsed = BackgroundImage::from_tokens(&out).unwrap();
    assert_eq!(reparsed, parsed);
}

#[test]
fn unknown_property_is_reported_as_such() {
    assert_eq!(lookup("not-a-real-property"), None);
    let r = parse_declaration("not-a-real-property", &ast(vec![ident("auto")]));
    assert_eq!(r, Err(CssError::UnknownProperty));
}

#[test]
fn known_property_names_resolve() {
    assert_eq!(lookup("accent-color"), Some(PropertyDiscriminants::AccentColor));
    assert_eq!(lookup("aspect-ratio"), Some(PropertyDiscriminants::AspectRatio));
}

#[test]
fn accent_color_parses_auto_and_color() {
    let p = parse_declaration("accent-color", &ast(vec![ident("auto")])).unwrap();
    assert_eq!(p, Property::AccentColor(css_model::properties::AccentColor::Auto));

    let rgb = ast(vec![
        Token::FunctionStart("rgb".to_string()),
        Token::Number(scalar(1)),
        Token::Comma,
        Token::Number(scalar(2)),
        Token::Comma,
        Token::Number(scalar(3)),
        Token::FunctionEnd,
    ]);
    let p2 = parse_declaration("accent-color", &rgb).unwrap();
    assert_eq!(
        p2,
        Property::AccentColor(css_model::properties::AccentColor::Color(Color::Rgb {
            red: scalar(1),
            green: scalar(2),
            blue: scalar(3),
            alpha: None,
        }))
    );
}

#[test]
fn animation_shorthand_accepts_components_in_any_order() {
    let forward = ast(vec![ident("fadein"), Token::Whitespace, dim(2, "s")]);
    let backward = ast(vec![dim(2, "s"), Token::Whitespace, ident("fadein")]);
    let p1 = parse_declaration("animation", &forward).unwrap();
    let p2 = parse_declaration("animation", &backward).unwrap();
    assert_eq!(p1, p2);
    match p1 {
        Property::Animation(a) => {
            assert_eq!(a.name, Some(AnimationName::Custom(
                css_model::data_types::CustomIdent::new("fadein".to_string()).unwrap()
            )));
            let d = a.duration.unwrap();
            assert_eq!(d.0.magnitude().num(), 2);
            assert_eq!(d.0.unit(), TimeUnit::S);
            assert_eq!(a.delay, None);
        }
        other => panic!("expected an animation, got {:?}", other),
    }
}

#[test]
fn animation_first_time_is_duration_second_is_delay() {
    let v = ast(vec![dim(2, "s"), Token::Whitespace, dim(100, "ms")]);
    let p = parse_declaration("animation", &v).unwrap();
    match p {
        Property::Animation(a) => {
            let d = a.duration.unwrap();
            assert_eq!(d.0.magnitude().num(), 2);
            assert_eq!(d.0.unit(), TimeUnit::S);
            let delay = a.delay.unwrap();
            assert_eq!(delay.0 .0.num(), 100);
            assert_eq!(delay.0 .1, TimeUnit::Ms);
        }
        other => panic!("expected an animation, got {:?}", other),
    }
}

#[test]
fn animation_keywords_fill_their_longhands() {
    let v = ast(vec![
        ident("reverse"),
        Token::Whitespace,
        ident("both"),
        Token::Whitespace,
        ident("paused"),
        Token::Whitespace,
        ident("infinite"),
        Token::Whitespace,
        ident("ease-in"),
    ]);
    let p = parse_declaration("animation", &v).unwrap();
    match p {
        Property::Animation(a) => {
            assert_eq!(a.direction, Some(AnimationDirection::Reverse));
            assert_eq!(a.fill_mode, Some(AnimationFillMode::Both));
            assert_eq!(
                a.play_state,
                Some(css_model::properties::AnimationPlayState::Paused)
            );
            assert!(matches!(
                a.iteration_count,
                Some(css_model::properties::AnimationIterationCount::Infinite)
            ));
            assert_eq!(a.timing_function, Some(AnimationTimingFunction::EaseIn));
        }
        other => panic!("expected an animation, got {:?}", other),
    }
}

#[test]
fn animation_duration_must_be_non_negative() {
    let v = ast(vec![dim(-1, "s")]);
    assert!(matches!(
        parse_declaration("animation-duration", &v),
        Err(CssError::Parse(_))
    ));
    let ok = parse_declaration("animation-duration", &ast(vec![dim(1, "s")])).unwrap();
    match ok {
        Property::AnimationDuration(d) => assert_eq!(d.0.magnitude().num(), 1),
        other => panic!("expected a duration, got {:?}", other),
    }
}

#[test]
fn align_content_takes_safety_qualifier_and_two_word_baselines() {
    let p = parse_declaration(
        "align-content",
        &ast(vec![ident("safe"), Token::Whitespace, ident("center")]),
    )
    .unwrap();
    assert_eq!(
        p,
        Property::AlignContent { value: AlignContent::Center, safety: Some(true) }
    );

    let p2 = parse_declaration(
        "align-content",
        &ast(vec![ident("first"), Token::Whitespace, ident("baseline")]),
    )
    .unwrap();
    assert_eq!(
        p2,
        Property::AlignContent { value: AlignContent::FirstBaseline, safety: None }
    );
}

#[test]
fn aspect_ratio_parses_auto_and_fractions() {
    let p = parse_declaration("aspect-ratio", &ast(vec![ident("auto")])).unwrap();
    assert_eq!(p, Property::AspectRatio(AspectRatio::Auto));

    let v = ast(vec![
        Token::Number(scalar(16)),
        Token::Whitespace,
        Token::Delim('/'),
        Token::Whitespace,
        Token::Number(scalar(9)),
    ]);
    let p2 = parse_declaration("aspect-ratio", &v).unwrap();
    match p2 {
        Property::AspectRatio(AspectRatio::Ratio(r)) => {
            assert_eq!(r.0 .0.num(), 16);
            assert_eq!(r.1 .0.num(), 9);
        }
        other => panic!("expected a ratio, got {:?}", other),
    }
}

#[test]
fn timing_function_parses_keywords_and_functions() {
    let p = parse_declaration("animation-timing-function", &ast(vec![ident("linear")])).unwrap();
    assert_eq!(p, Property::AnimationTimingFunction(AnimationTimingFunction::Linear));

    let bez = ast(vec![
        Token::FunctionStart("cubic-bezier".to_string()),
        Token::Number(Scalar::new(1, 4).unwrap()),
        Token::Comma,
        Token::Number(scalar(0)),
        Token::Comma,
        Token::Number(Scalar::new(3, 4).unwrap()),
        Token::Comma,
        Token::Number(scalar(1)),
        Token::FunctionEnd,
    ]);
    let p2 = parse_declaration("animation-timing-function", &bez).unwrap();
    assert_eq!(
        p2,
        Property::AnimationTimingFunction(AnimationTimingFunction::Easing(
            EasingFunction::CubicBezier(
                Scalar::new(1, 4).unwrap(),
                scalar(0),
                Scalar::new(3, 4).unwrap(),
                scalar(1),
            )
        ))
    );

    let steps = ast(vec![
        Token::FunctionStart("steps".to_string()),
        Token::Number(scalar(4)),
        Token::Comma,
        ident("jump-none"),
        Token::FunctionEnd,
    ]);
    let p3 = parse_declaration("animation-timing-function", &steps).unwrap();
    assert_eq!(
        p3,
        Property::AnimationTimingFunction(AnimationTimingFunction::Easing(
            EasingFunction::Steps(4, EasingStepsJump::NoneKeyword)
        ))
    );
}

#[test]
fn all_and_appearance_parse_their_keywords() {
    let p = parse_declaration("all", &ast(vec![ident("inherit")])).unwrap();
    assert_eq!(p, Property::All(css_model::shorthand::All::Inherit));

    let p2 = parse_declaration("appearance", &ast(vec![ident("menulist-button")])).unwrap();
    assert_eq!(p2, Property::Appearance(Appearance::MenulistButton));

    let bad = parse_declaration("all", &ast(vec![ident("everything")]));
    assert!(matches!(bad, Err(CssError::Parse(_))));
}

#[test]
fn animation_name_parses_none_and_custom_idents() {
    let p = parse_declaration("animation-name", &ast(vec![ident("none")])).unwrap();
    assert_eq!(p, Property::AnimationName(AnimationName::NoneKeyword));

    let bad = parse_declaration("animation-name", &ast(vec![ident("initial")]));
    assert!(matches!(bad, Err(CssError::Parse(_))));
}

#[test]
fn border_expand_fills_initials_and_collapse_inverts_it() {
    let s = Border { color: None, style: Some(LineStyle::Solid), width: None };
    let expanded = s.expand();
    assert_eq!(expanded.style, Some(LineStyle::Solid));
    assert_eq!(expanded.width, Some(LineWidth::Medium));
    assert!(expanded.color.is_some());
    assert_eq!(expanded.collapse(), s);
    // Expanding longhands produced by an expansion changes nothing.
    assert_eq!(expanded.expand(), expanded);
}

#[test]
fn ascent_override_parses_normal_and_percentage() {
    let toks = vec![ident("normal")];
    let (v, _) = FontFaceAscentOverride::parse_at(&toks, 0).unwrap();
    assert_eq!(v, FontFaceAscentOverride::Normal);

    let toks2 = vec![Token::Percentage(scalar(105))];
    let (v2, _) = FontFaceAscentOverride::parse_at(&toks2, 0).unwrap();
    assert_eq!(
        v2,
        FontFaceAscentOverride::Percentage(Percentage(Number(scalar(105))))
    );
}

#[test]
fn pseudo_class_names_resolve() {
    assert_eq!(pseudo_class_from_name("any-link"), Some(PseudoClass::AnyLink));
    assert_eq!(pseudo_class_from_name("hover"), None);
}

#[test]
fn parse_width_value_reports_furthest_position() {
    let toks = vec![Token::Comma];
    let r = parse_width_value(&toks, 0);
    let f = r.unwrap_err();
    assert_eq!(f.position, 0);
    assert_eq!(f.expected, Expected::WidthValue);
}

#[test]
fn border_components_parse_in_any_order() {
    let red = || Token::FunctionStart("rgb".to_string());
    let red_tail = || {
        vec![
            Token::Number(Scalar::from_int(255)),
            Token::Comma,
            Token::Number(Scalar::from_int(0)),
            Token::Comma,
            Token::Number(Scalar::from_int(0)),
            Token::FunctionEnd,
        ]
    };
    let mut forward = vec![dim(1, "px"), Token::Whitespace, ident("solid"), Token::Whitespace, red()];
    forward.extend(red_tail());
    let mut backward = vec![red()];
    backward.extend(red_tail());
    backward.push(Token::Whitespace);
    backward.push(ident("solid"));
    backward.push(Token::Whitespace);
    backward.push(dim(1, "px"));

    let b1 = Border::from_tokens(&ast(forward)).unwrap();
    let b2 = Border::from_tokens(&ast(backward)).unwrap();
    assert_eq!(b1, b2);
    assert_eq!(b1.style, Some(LineStyle::Solid));
    assert!(b1.width.is_some());
    assert!(b1.color.is_some());
}

#[test]
fn border_rejects_a_repeated_component() {
    let v = ast(vec![ident("solid"), Token::Whitespace, ident("dotted")]);
    assert!(matches!(Border::from_tokens(&v), Err(CssError::Parse(_))));
}

#[test]
fn border_serializes_and_reparses_to_an_equal_value() {
    let b = Border {
        color: Some(Color::Rgb {
            red: scalar(255),
            green: scalar(0),
            blue: scalar(0),
            alpha: None,
        }),
        style: Some(LineStyle::Dashed),
        width: Some(LineWidth::Thin),
    };
    let toks = b.to_tokens();
    let back = Border::from_tokens(&toks).unwrap();
    assert_eq!(back, b);
}

#[test]
fn animation_expand_fills_initials_and_collapse_inverts_it() {
    let s = Animation {
        name: Some(AnimationName::Custom(
            css_model::data_types::CustomIdent::new("slide".to_string()).unwrap(),
        )),
        duration: None,
        timing_function: None,
        delay: None,
        direction: Some(AnimationDirection::Alternate),
        iteration_count: None,
        fill_mode: None,
        play_state: None,
    };
    let expanded = s.expand();
    assert!(expanded.duration.is_some());
    assert_eq!(expanded.timing_function, Some(AnimationTimingFunction::Ease));
    assert_eq!(expanded.fill_mode, Some(AnimationFillMode::NoneKeyword));
    assert_eq!(expanded.collapse(), s);
    assert_eq!(expanded.expand(), expanded);
}

#[test]
fn property_names_and_lookup_agree() {
    let all = vec![
        PropertyDiscriminants::AccentColor,
        PropertyDiscriminants::AlignContent,
        PropertyDiscriminants::AlignItems,
        PropertyDiscriminants::AlignSelf,
        PropertyDiscriminants::All,
        PropertyDiscriminants::Animation,
        PropertyDiscriminants::AnimationDelay,
        PropertyDiscriminants::AnimationDirection,
        PropertyDiscriminants::AnimationDuration,
        PropertyDiscriminants::AnimationFillMode,
        PropertyDiscriminants::AnimationName,
        PropertyDiscriminants::AnimationPlayState,
        PropertyDiscriminants::AnimationTimingFunction,
        PropertyDiscriminants::Appearance,
        PropertyDiscriminants::AspectRatio,
    ];
    for d in all {
        assert_eq!(lookup(property_name(d)), Some(d));
    }
    let p = parse_declaration("all", &ast(vec![ident("unset")])).unwrap();
    assert_eq!(p.name(), "all");
}

#[test]
fn gradient_image_round_trips_through_tokens() {
    let from = Color::Rgb { red: scalar(0), green: scalar(0), blue: scalar(0), alpha: None };
    let to = Color::Rgb { red: scalar(255), green: scalar(255), blue: scalar(255), alpha: None };
    let linear = Image::Gradient(Gradient::Linear {
        from,
        to,
        angle: Angle(scalar(90), AngleUnit::Deg),
        repeat: Some(Length(scalar(10), LengthUnit::Px)),
    });
    let toks = linear.to_tokens();
    assert_eq!(Image::from_tokens(&toks).unwrap(), linear);

    let radial = Image::Gradient(Gradient::Radial {
        from,
        to,
        shape: RadialGradientShape::Circle,
    });
    let toks2 = radial.to_tokens();
    assert_eq!(Image::from_tokens(&toks2).unwrap(), radial);
}

#[test]
fn background_image_accepts_none_layers_and_gradients() {
    let input = ast(vec![
        ident("none"),
        Token::Comma,
        Token::UrlTok("b.png".to_string()),
    ]);
    let parsed = BackgroundImage::from_tokens(&input).unwrap();
    assert_eq!(parsed.layers()[0], BackgroundLayerImage::NoneKeyword);
    let out = parsed.to_tokens();
    assert_eq!(BackgroundImage::from_tokens(&out).unwrap(), parsed);
}

#[test]
fn shorthands_are_marked_as_such() {
    assert!(is_shorthand(PropertyDiscriminants::All));
    assert!(is_shorthand(PropertyDiscriminants::Animation));
    assert!(!is_shorthand(PropertyDiscriminants::AnimationDelay));
}
