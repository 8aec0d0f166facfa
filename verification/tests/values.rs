//! Value-level behaviour: exact rationals, unit conversion, validating
//! constructors and alpha normalization.

use css_model::data_types::{
    Alpha, Angle, CustomIdent, DashedIdent, Frequency, Length, LengthPercentage, Number,
    Percentage, Polygon, PositiveLength, PositiveNumber, PositiveTime, Resolution, Time,
};
use css_model::data_types::{Circle, Ellipse, FillRule, ShapeRadius};
use css_model::errors::{CssError, ValueError};
use css_model::properties::{BackgroundImage, BackgroundLayerImage};
use css_model::scalar::Scalar;
use css_model::units::{AngleUnit, FrequencyUnit, LengthUnit, ResolutionUnit, TimeUnit};

fn scalar(n: i64) -> Scalar {
    Scalar::from_int(n)
}

fn ratio(n: i64, d: i64) -> Scalar {
    Scalar::new(n, d).unwrap()
}

#[test]
fn one_inch_is_exactly_96_px() {
    let inch = Length(scalar(1), LengthUnit::In);
    let px = inch.convert(LengthUnit::Px).unwrap();
    assert_eq!(px.1, LengthUnit::Px);
    assert_eq!(px.0.num(), 96);
    assert_eq!(px.0.den(), 1);
}

#[test]
fn px_to_cm_and_back_recovers_magnitude() {
    let original = Length(ratio(7, 2), LengthUnit::Px);
    let cm = original.convert(LengthUnit::Cm).unwrap();
    let back = cm.convert(LengthUnit::Px).unwrap();
    assert_eq!(back.1, LengthUnit::Px);
    assert!(back.0.rational_eq(&original.0));
}

#[test]
fn pt_to_mm_and_back_recovers_magnitude() {
    let original = Length(scalar(12), LengthUnit::Pt);
    let mm = original.convert(LengthUnit::Mm).unwrap();
    let back = mm.convert(LengthUnit::Pt).unwrap();
    assert!(back.0.rational_eq(&original.0));
}

#[test]
fn relative_unit_conversion_is_a_unit_mismatch() {
    let em = Length(scalar(2), LengthUnit::Em);
    assert_eq!(em.convert(LengthUnit::Px), Err(CssError::UnitMismatch));
    // A relative unit still converts to itself.
    let same = em.convert(LengthUnit::Em).unwrap();
    assert!(same.0.rational_eq(&em.0));
}

#[test]
fn seconds_to_milliseconds_is_exactly_1000() {
    let t = Time(scalar(2), TimeUnit::S);
    let ms = t.convert(TimeUnit::Ms).unwrap();
    assert_eq!(ms.0.num(), 2000);
    assert_eq!(ms.0.den(), 1);
    let back = ms.convert(TimeUnit::S).unwrap();
    assert!(back.0.rational_eq(&t.0));
}

#[test]
fn angle_turn_and_degree_conversion_round_trips() {
    let deg = Angle(scalar(180), AngleUnit::Deg);
    let turn = deg.convert(AngleUnit::Turn).unwrap();
    // 180deg is half a turn.
    assert!(turn.0.rational_eq(&ratio(1, 2)));
    let back = turn.convert(AngleUnit::Deg).unwrap();
    assert!(back.0.rational_eq(&deg.0));
    // Radians convert only to themselves.
    let rad = Angle(scalar(1), AngleUnit::Rad);
    assert_eq!(rad.convert(AngleUnit::Deg), Err(CssError::UnitMismatch));
}

#[test]
fn frequency_and_resolution_conversions_round_trip() {
    let khz = Frequency(scalar(3), FrequencyUnit::KHz);
    let hz = khz.convert(FrequencyUnit::Hz).unwrap();
    assert_eq!(hz.0.num(), 3000);
    let back = hz.convert(FrequencyUnit::KHz).unwrap();
    assert!(back.0.rational_eq(&khz.0));

    let dppx = Resolution(scalar(1), ResolutionUnit::DpPx);
    let dpi = dppx.convert(ResolutionUnit::Dpi).unwrap();
    assert_eq!(dpi.0.num(), 96);
    let dpcm = dpi.convert(ResolutionUnit::DpCm).unwrap();
    let back2 = dpcm.convert(ResolutionUnit::DpPx).unwrap();
    assert!(back2.0.rational_eq(&dppx.0));
}

#[test]
fn polygon_with_two_points_fails_with_three_succeeds() {
    let p = |x: i64, y: i64| {
        (
            LengthPercentage::Length(Length(scalar(x), LengthUnit::Px)),
            LengthPercentage::Length(Length(scalar(y), LengthUnit::Px)),
        )
    };
    let two = vec![p(0, 0), p(1, 0)];
    assert_eq!(
        Polygon::new(FillRule::Nonzero, two),
        Err(ValueError::TooFewPoints)
    );
    let three = vec![p(0, 0), p(1, 0), p(0, 1)];
    let poly = Polygon::new(FillRule::Nonzero, three).unwrap();
    assert_eq!(poly.points().len(), 3);
    assert_eq!(poly.fill_rule(), FillRule::Nonzero);
}

#[test]
fn positive_length_rejects_minus_one_accepts_zero() {
    assert_eq!(
        PositiveLength::new(scalar(-1), LengthUnit::Px),
        Err(ValueError::NegativeMagnitude)
    );
    let zero = PositiveLength::new(scalar(0), LengthUnit::Px).unwrap();
    assert_eq!(zero.magnitude().num(), 0);
    assert_eq!(zero.unit(), LengthUnit::Px);
}

#[test]
fn positive_number_and_time_validate_sign() {
    assert_eq!(
        PositiveNumber::new(scalar(-3)),
        Err(ValueError::NegativeMagnitude)
    );
    assert!(PositiveNumber::new(scalar(3)).is_ok());
    assert_eq!(
        PositiveTime::new(scalar(-1), TimeUnit::S),
        Err(ValueError::NegativeMagnitude)
    );
    assert!(PositiveTime::new(scalar(0), TimeUnit::Ms).is_ok());
}

#[test]
fn scalar_constructor_rejects_non_positive_denominator() {
    assert_eq!(Scalar::new(1, 0), Err(ValueError::NonPositiveDenominator));
    assert_eq!(Scalar::new(1, -2), Err(ValueError::NonPositiveDenominator));
    let half = Scalar::new(1, 2).unwrap();
    assert!(half.rational_eq(&Scalar::new(2, 4).unwrap()));
    assert!(!half.rational_eq(&Scalar::new(2, 3).unwrap()));
}

#[test]
fn custom_ident_rejects_css_wide_keywords() {
    assert_eq!(
        CustomIdent::new("inherit".to_string()),
        Err(ValueError::ReservedKeyword)
    );
    let ok = CustomIdent::new("fade-in".to_string()).unwrap();
    assert_eq!(ok.as_str(), "fade-in");
}

#[test]
fn dashed_ident_needs_two_leading_hyphens() {
    assert_eq!(
        DashedIdent::new("x".to_string()),
        Err(ValueError::MissingDashPrefix)
    );
    assert_eq!(
        DashedIdent::new("-x".to_string()),
        Err(ValueError::MissingDashPrefix)
    );
    let ok = DashedIdent::new("--brand".to_string()).unwrap();
    assert_eq!(ok.as_str(), "--brand");
}

#[test]
fn alpha_number_and_percentage_compare_after_normalization() {
    let half_number = Alpha::new_number(Number(ratio(1, 2))).unwrap();
    let half_percent = Alpha::new_percentage(Percentage(Number(scalar(50)))).unwrap();
    assert!(half_number.alpha_eq(&half_percent));
    assert!(half_percent.alpha_eq(&half_number));
    let opaque = Alpha::new_number(Number(scalar(1))).unwrap();
    assert!(!half_number.alpha_eq(&opaque));
    assert!(opaque.alpha_eq(&Alpha::new_percentage(Percentage(Number(scalar(100)))).unwrap()));
}

#[test]
fn alpha_constructors_reject_out_of_range() {
    assert_eq!(
        Alpha::new_number(Number(ratio(3, 2))),
        Err(ValueError::OutOfRange)
    );
    assert_eq!(
        Alpha::new_number(Number(scalar(-1))),
        Err(ValueError::OutOfRange)
    );
    assert_eq!(
        Alpha::new_percentage(Percentage(Number(scalar(101)))),
        Err(ValueError::OutOfRange)
    );
}

#[test]
fn background_image_needs_a_layer() {
    assert_eq!(
        BackgroundImage::new(vec![]),
        Err(ValueError::EmptyLayerList)
    );
    let one = BackgroundImage::new(vec![BackgroundLayerImage::NoneKeyword]).unwrap();
    assert_eq!(one.layers().len(), 1);
}

#[test]
fn conversion_overflow_is_reported() {
    let huge = Length(scalar(i64::MAX), LengthUnit::Cm);
    assert_eq!(
        huge.convert(LengthUnit::Px),
        Err(CssError::Value(ValueError::Overflow))
    );
}

#[test]
fn shape_radius_and_circle_reject_negative_radii() {
    let neg = LengthPercentage::Length(Length(scalar(-1), LengthUnit::Px));
    let pos = LengthPercentage::Length(Length(scalar(1), LengthUnit::Px));
    assert_eq!(
        ShapeRadius::new_radius(neg),
        Err(ValueError::NegativeMagnitude)
    );
    let r = ShapeRadius::new_radius(pos).unwrap();
    assert!(Circle::new(ShapeRadius::Radius(neg), None).is_err());
    let c = Circle::new(r, None).unwrap();
    assert_eq!(c.radius(), r);
    assert_eq!(c.position(), None);
    let e = Ellipse::new(r, ShapeRadius::ClosestSide, None).unwrap();
    assert_eq!(e.x_radius(), r);
    assert_eq!(e.y_radius(), ShapeRadius::ClosestSide);
}
