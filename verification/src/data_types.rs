//! The CSS data types: textual identifiers, numeric values with units,
//! combination types, colors, images, positions and basic shapes.
//!
//! Every type with an invariant has a validating constructor that returns a
//! [`ValueError`] instead of ever permitting an invalid instance.  Numeric
//! magnitudes are exact rationals ([`Scalar`]); a percentage stores the raw
//! number (`50%` stores 50, not 0.5), and an alpha channel is compared after
//! normalizing a number in 0..1 and a percentage in 0..100 to one scale.

use vstd::prelude::*;
use vstd::string::StrSliceExecFns;

use crate::errors::{CssError, ValueError};
use crate::scalar::Scalar;
use crate::tokens::str_eq;
use crate::units::{
    angle_turn_ratio, frequency_hz_ratio, length_px_ratio, resolution_dpi_ratio,
    spec_angle_turn_ratio, spec_frequency_hz_ratio, spec_length_px_ratio,
    spec_resolution_dpi_ratio, spec_time_ms_ratio, time_ms_ratio, AngleUnit, FrequencyUnit,
    IntoUnit, LengthUnit, ResolutionUnit, TimeUnit, Unit,
};

verus! {

// ------------------------------------------------------------------
// Textual data types
// ------------------------------------------------------------------
/// The CSS-wide keywords, reserved in every property.
#[derive(Clone, Copy, Debug, PartialEq, Eq, Structural)]
pub enum Keyword {
    Initial,
    Inherit,
    Unset,
    Revert,
}

/// Whether `s` spells one of the CSS-wide keywords.
pub open spec fn is_css_wide_keyword(s: Seq<char>) -> bool {
    ||| s == "initial"@
    ||| s == "inherit"@
    ||| s == "unset"@
    ||| s == "revert"@
}

/// An author-defined identifier; never one of the CSS-wide keywords.
#[derive(Debug, PartialEq, Eq)]
pub struct CustomIdent(String);

impl View for CustomIdent {
    type V = Seq<char>;

    closed spec fn view(&self) -> Seq<char> {
        self.0@
    }
}

impl CustomIdent {
    #[verifier::type_invariant]
    spec fn type_inv(self) -> bool {
        !is_css_wide_keyword(self.0@)
    }

    /// Validating constructor: rejects the reserved CSS-wide keywords.
    pub fn new(s: String) -> (r: Result<CustomIdent, ValueError>)
        ensures
            r is Ok <==> !is_css_wide_keyword(s@),
            r matches Ok(c) ==> c@ == s@,
            r matches Err(e) ==> e == ValueError::ReservedKeyword,
    {
        if str_eq(s.as_str(), "initial") || str_eq(s.as_str(), "inherit") || str_eq(
            s.as_str(),
            "unset",
        ) || str_eq(s.as_str(), "revert") {
            Err(ValueError::ReservedKeyword)
        } else {
            Ok(CustomIdent(s))
        }
    }

    /// The identifier's text.
    pub fn as_str(&self) -> (r: &str)
        ensures
            r@ == self@,
    {
        self.0.as_str()
    }

    /// An exact copy.
    pub fn dup(&self) -> (r: CustomIdent)
        ensures
            r == *self,
    {
        proof {
            use_type_invariant(self);
        }
        CustomIdent(self.0.clone())
    }
}

/// Whether `s` starts with two hyphens.
pub open spec fn has_dash_prefix(s: Seq<char>) -> bool {
    s.len() >= 2 && s[0] == '-' && s[1] == '-'
}

/// A [`CustomIdent`] prefixed by two dashes, as used for custom properties.
#[derive(Debug, PartialEq, Eq)]
pub struct DashedIdent(String);

impl View for DashedIdent {
    type V = Seq<char>;

    closed spec fn view(&self) -> Seq<char> {
        self.0@
    }
}

impl DashedIdent {
    #[verifier::type_invariant]
    spec fn type_inv(self) -> bool {
        has_dash_prefix(self.0@)
    }

    /// Validating constructor: the text must start with two hyphens.
    pub fn new(s: String) -> (r: Result<DashedIdent, ValueError>)
        ensures
            r is Ok <==> has_dash_prefix(s@),
            r matches Ok(c) ==> c@ == s@,
            r matches Err(e) ==> e == ValueError::MissingDashPrefix,
    {
        let n = s.as_str().unicode_len();
        if n >= 2 && s.as_str().get_char(0) == '-' && s.as_str().get_char(1) == '-' {
            Ok(DashedIdent(s))
        } else {
            Err(ValueError::MissingDashPrefix)
        }
    }

    /// The identifier's text.
    pub fn as_str(&self) -> (r: &str)
        ensures
            r@ == self@,
    {
        self.0.as_str()
    }
}

/// A quoted CSS string.
#[derive(Debug, Clone, PartialEq, Eq)]
pub struct CssString(pub String);

impl View for CssString {
    type V = Seq<char>;

    open spec fn view(&self) -> Seq<char> {
        self.0@
    }
}

/// The address carried by a `url(...)` value.
#[derive(Debug, Clone, PartialEq, Eq)]
pub struct Url(pub String);

impl View for Url {
    type V = Seq<char>;

    open spec fn view(&self) -> Seq<char> {
        self.0@
    }
}

impl Url {
    /// An exact copy.
    pub fn dup(&self) -> (r: Url)
        ensures
            r == *self,
    {
        Url(self.0.clone())
    }
}

/// The textual data types.
#[derive(Debug, PartialEq, Eq)]
pub enum Textual {
    CustomIdent(CustomIdent),
    DashedIdent(DashedIdent),
    Str(CssString),
    Url(Url),
    Keyword(Keyword),
}

// ------------------------------------------------------------------
// Numeric data types
// ------------------------------------------------------------------
/// The CSS `<integer>` type.
#[derive(Clone, Copy, Debug, PartialEq, Eq, Structural)]
pub struct Integer(pub i32);

/// The CSS `<number>` type: an exact rational magnitude.
#[derive(Clone, Copy, Debug, PartialEq, Eq, Structural)]
pub struct Number(pub Scalar);

/// A number that cannot be negative.
#[derive(Clone, Copy, Debug, PartialEq, Eq, Structural)]
pub struct PositiveNumber(Scalar);

impl PositiveNumber {
    #[verifier::type_invariant]
    spec fn type_inv(self) -> bool {
        self.0.is_nonneg()
    }

    /// The magnitude.
    pub closed spec fn spec_mag(self) -> Scalar {
        self.0
    }

    /// The value with the given magnitude, for spec-level construction;
    /// the magnitude should be non-negative.
    pub closed spec fn spec_new(mag: Scalar) -> PositiveNumber {
        PositiveNumber(mag)
    }

    /// The number one.
    pub fn one() -> (r: PositiveNumber)
        ensures
            r == PositiveNumber::spec_new(Scalar::spec_int(1)),
    {
        PositiveNumber(Scalar::from_int(1))
    }

    /// Validating constructor: rejects a negative magnitude.
    pub fn new(mag: Scalar) -> (r: Result<PositiveNumber, ValueError>)
        ensures
            r is Ok <==> mag.is_nonneg(),
            r matches Ok(p) ==> p == PositiveNumber::spec_new(mag) && p.spec_mag() == mag,
            r matches Err(e) ==> e == ValueError::NegativeMagnitude,
    {
        if mag.is_non_negative() {
            Ok(PositiveNumber(mag))
        } else {
            Err(ValueError::NegativeMagnitude)
        }
    }

    /// The magnitude, always non-negative.
    pub fn magnitude(&self) -> (r: Scalar)
        ensures
            r == self.spec_mag(),
            r.is_nonneg(),
    {
        proof {
            use_type_invariant(self);
        }
        self.0
    }
}

/// A magnitude together with a unit of any family.
#[derive(Clone, Copy, Debug, PartialEq, Eq, Structural)]
pub struct Dimension(pub Scalar, pub Unit);

/// Converts a typed quantity into a generic [`Dimension`].
pub trait IntoDimension: Sized {
    /// The resulting dimension, for contracts.
    spec fn spec_into_dimension(self) -> Dimension;

    /// Wrap the quantity.
    fn into_dimension(self) -> (r: Dimension)
        ensures
            r == self.spec_into_dimension(),
    ;
}

/// The CSS `<percentage>` type.  The stored magnitude is the raw number:
/// `50%` stores 50, not 0.5.
#[derive(Clone, Copy, Debug, PartialEq, Eq, Structural)]
pub struct Percentage(pub Number);

/// A ratio in the form (width, height).
#[derive(Clone, Copy, Debug, PartialEq, Eq, Structural)]
pub struct Ratio(pub Number, pub Number);

/// The CSS `<flex>` type, a fraction of free space in a grid.
#[derive(Clone, Copy, Debug, PartialEq, Eq, Structural)]
pub struct Flex(pub Number);

/// The numeric data types.
#[derive(Clone, Copy, Debug, PartialEq, Eq, Structural)]
pub enum Numeric {
    Integer(Integer),
    Number(Number),
    PositiveNumber(PositiveNumber),
    Dimension(Dimension),
    Percentage(Percentage),
    Ratio(Ratio),
    Flex(Flex),
}

// ------------------------------------------------------------------
// Quantities: magnitude plus family unit
// ------------------------------------------------------------------
/// The CSS `<length>` type.
#[derive(Clone, Copy, Debug, PartialEq, Eq, Structural)]
pub struct Length(pub Scalar, pub LengthUnit);

/// A length that cannot be negative.
#[derive(Clone, Copy, Debug, PartialEq, Eq, Structural)]
pub struct PositiveLength(Scalar, LengthUnit);

impl PositiveLength {
    #[verifier::type_invariant]
    spec fn type_inv(self) -> bool {
        self.0.is_nonneg()
    }

    /// The magnitude.
    pub closed spec fn spec_mag(self) -> Scalar {
        self.0
    }

    /// The unit.
    pub closed spec fn spec_unit(self) -> LengthUnit {
        self.1
    }

    /// The value with the given parts, for spec-level construction; the
    /// magnitude should be non-negative.
    pub closed spec fn spec_new(mag: Scalar, unit: LengthUnit) -> PositiveLength {
        PositiveLength(mag, unit)
    }

    /// A positive length is determined by its parts.
    pub proof fn lemma_reconstruct(p: PositiveLength)
        ensures
            PositiveLength::spec_new(p.spec_mag(), p.spec_unit()) == p,
    {
    }

    /// Validating constructor: rejects a negative magnitude.
    pub fn new(mag: Scalar, unit: LengthUnit) -> (r: Result<PositiveLength, ValueError>)
        ensures
            r is Ok <==> mag.is_nonneg(),
            r matches Ok(p) ==> p == PositiveLength::spec_new(mag, unit) && p.spec_mag() == mag
                && p.spec_unit() == unit,
            r matches Err(e) ==> e == ValueError::NegativeMagnitude,
    {
        if mag.is_non_negative() {
            Ok(PositiveLength(mag, unit))
        } else {
            Err(ValueError::NegativeMagnitude)
        }
    }

    /// The magnitude, always non-negative.
    pub fn magnitude(&self) -> (r: Scalar)
        ensures
            r == self.spec_mag(),
            r.is_nonneg(),
    {
        proof {
            use_type_invariant(self);
        }
        self.0
    }

    /// The unit.
    pub fn unit(&self) -> (r: LengthUnit)
        ensures
            r == self.spec_unit(),
    {
        self.1
    }
}

/// Clockwise angle.
#[derive(Clone, Copy, Debug, PartialEq, Eq, Structural)]
pub struct Angle(pub Scalar, pub AngleUnit);

/// The CSS `<time>` type.
#[derive(Clone, Copy, Debug, PartialEq, Eq, Structural)]
pub struct Time(pub Scalar, pub TimeUnit);

/// A time that cannot be negative.
#[derive(Clone, Copy, Debug, PartialEq, Eq, Structural)]
pub struct PositiveTime(Scalar, TimeUnit);

impl PositiveTime {
    #[verifier::type_invariant]
    spec fn type_inv(self) -> bool {
        self.0.is_nonneg()
    }

    /// The magnitude.
    pub closed spec fn spec_mag(self) -> Scalar {
        self.0
    }

    /// The unit.
    pub closed spec fn spec_unit(self) -> TimeUnit {
        self.1
    }

    /// The value with the given parts, for spec-level construction; the
    /// magnitude should be non-negative.
    pub closed spec fn spec_new(mag: Scalar, unit: TimeUnit) -> PositiveTime {
        PositiveTime(mag, unit)
    }

    /// The zero time, in the given unit.
    pub fn zero(unit: TimeUnit) -> (r: PositiveTime)
        ensures
            r == PositiveTime::spec_new(Scalar::spec_int(0), unit),
    {
        PositiveTime(Scalar::from_int(0), unit)
    }

    /// Validating constructor: rejects a negative magnitude.
    pub fn new(mag: Scalar, unit: TimeUnit) -> (r: Result<PositiveTime, ValueError>)
        ensures
            r is Ok <==> mag.is_nonneg(),
            r matches Ok(p) ==> p == PositiveTime::spec_new(mag, unit) && p.spec_mag() == mag
                && p.spec_unit() == unit,
            r matches Err(e) ==> e == ValueError::NegativeMagnitude,
    {
        if mag.is_non_negative() {
            Ok(PositiveTime(mag, unit))
        } else {
            Err(ValueError::NegativeMagnitude)
        }
    }

    /// The magnitude, always non-negative.
    pub fn magnitude(&self) -> (r: Scalar)
        ensures
            r == self.spec_mag(),
            r.is_nonneg(),
    {
        proof {
            use_type_invariant(self);
        }
        self.0
    }

    /// The unit.
    pub fn unit(&self) -> (r: TimeUnit)
        ensures
            r == self.spec_unit(),
    {
        self.1
    }
}

/// The CSS `<frequency>` type.
#[derive(Clone, Copy, Debug, PartialEq, Eq, Structural)]
pub struct Frequency(pub Scalar, pub FrequencyUnit);

/// The CSS `<resolution>` type.
#[derive(Clone, Copy, Debug, PartialEq, Eq, Structural)]
pub struct Resolution(pub Scalar, pub ResolutionUnit);

/// The quantity types: a magnitude with a family unit.
#[derive(Clone, Copy, Debug, PartialEq, Eq, Structural)]
pub enum Quantity {
    Length(Length),
    Angle(Angle),
    Time(Time),
    PositiveTime(PositiveTime),
    Frequency(Frequency),
    Resolution(Resolution),
}

impl IntoDimension for Length {
    open spec fn spec_into_dimension(self) -> Dimension {
        Dimension(self.0, Unit::Length(self.1))
    }

    fn into_dimension(self) -> (r: Dimension) {
        Dimension(self.0, self.1.into_unit())
    }
}

impl IntoDimension for Angle {
    open spec fn spec_into_dimension(self) -> Dimension {
        Dimension(self.0, Unit::Angle(self.1))
    }

    fn into_dimension(self) -> (r: Dimension) {
        Dimension(self.0, self.1.into_unit())
    }
}

impl IntoDimension for Time {
    open spec fn spec_into_dimension(self) -> Dimension {
        Dimension(self.0, Unit::Time(self.1))
    }

    fn into_dimension(self) -> (r: Dimension) {
        Dimension(self.0, self.1.into_unit())
    }
}

// ------------------------------------------------------------------
// Unit conversion: exact fixed ratios
// ------------------------------------------------------------------
/// The exact ratio a conversion between two length units applies:
/// `1 from-unit = p/q to-unit`.  A unit converts to itself with ratio 1;
/// otherwise both units must have a fixed pixel ratio.
pub open spec fn spec_length_conversion_ratio(from: LengthUnit, to: LengthUnit) -> Option<
    (int, int),
> {
    if from == to {
        Some((1int, 1int))
    } else {
        match (spec_length_px_ratio(from), spec_length_px_ratio(to)) {
            (Some(f), Some(t)) => Some((f.0 * t.1, f.1 * t.0)),
            _ => None,
        }
    }
}

/// What a successful length conversion returns: the unit is the requested
/// one and the magnitude is the original multiplied by the exact ratio.
pub open spec fn spec_length_converts_to(from: Length, to: LengthUnit, out: Length) -> bool {
    &&& out.1 == to
    &&& spec_length_conversion_ratio(from.1, to) matches Some(rr) && out.0.spec_num()
        == from.0.spec_num() * rr.0 && out.0.spec_den() == from.0.spec_den() * rr.1
}

impl Length {
    /// Convert to a compatible unit, applying the specification's exact
    /// ratio.  Fails with `UnitMismatch` when either unit is relative (and
    /// the units differ), and with an overflow `ValueError` when the exact
    /// result leaves the machine's integer range.
    pub fn convert(&self, to: LengthUnit) -> (r: Result<Length, CssError>)
        ensures
            match spec_length_conversion_ratio(self.1, to) {
                Some(rr) => {
                    &&& (r matches Ok(l) ==> spec_length_converts_to(*self, to, l))
                    &&& (r is Err ==> r == Err::<Length, CssError>(
                        CssError::Value(ValueError::Overflow),
                    ))
                    &&& (r is Ok <==> i64::MIN <= self.0.spec_num() * rr.0 <= i64::MAX
                        && self.0.spec_den() * rr.1 <= i64::MAX)
                },
                None => r == Err::<Length, CssError>(CssError::UnitMismatch),
            },
    {
        let (p, q): (i64, i64) = if self.1 == to {
            (1, 1)
        } else {
            match (length_px_ratio(self.1), length_px_ratio(to)) {
                (Some(f), Some(t)) => {
                    proof {
                        crate::units::lemma_ratio_tables_bounded();
                        lemma_small_ratio_product(f.0 as int, t.1 as int);
                        lemma_small_ratio_product(f.1 as int, t.0 as int);
                    }
                    (f.0 * t.1, f.1 * t.0)
                },
                _ => {
                    return Err(CssError::UnitMismatch);
                },
            }
        };
        match self.0.mul_ratio(p, q) {
            Ok(m) => Ok(Length(m, to)),
            Err(_) => Err(CssError::Value(ValueError::Overflow)),
        }
    }
}

/// The product of two table entries is positive and small.
proof fn lemma_small_ratio_product(a: int, b: int)
    requires
        1 <= a <= 10000,
        1 <= b <= 10000,
    ensures
        1 <= a * b <= 100000000,
{
    assert(1 <= a * b <= 100000000) by (nonlinear_arith)
        requires
            1 <= a <= 10000,
            1 <= b <= 10000,
    ;
}

/// A conversion ratio and its way back multiply out to the identity:
/// the ratio from `u` to `v` is `(p, q)` exactly when the ratio from `v`
/// back to `u` is `(q, p)`.
proof fn lemma_length_ratio_inverse(u: LengthUnit, v: LengthUnit)
    ensures
        spec_length_conversion_ratio(u, v) matches Some(rr)
            ==> spec_length_conversion_ratio(v, u) == Some((rr.1, rr.0)),
{
    if u != v {
        match (spec_length_px_ratio(u), spec_length_px_ratio(v)) {
            (Some(f), Some(t)) => {
                assert(f.0 * t.1 == t.1 * f.0) by (nonlinear_arith);
                assert(f.1 * t.0 == t.0 * f.1) by (nonlinear_arith);
            },
            _ => {},
        }
    }
}

/// A conversion ratio's parts are positive.
proof fn lemma_length_ratio_positive(u: LengthUnit, v: LengthUnit)
    ensures
        spec_length_conversion_ratio(u, v) matches Some(rr) ==> 1 <= rr.0 && 1 <= rr.1,
{
    if u != v {
        crate::units::lemma_ratio_tables_bounded();
        match (spec_length_px_ratio(u), spec_length_px_ratio(v)) {
            (Some(f), Some(t)) => {
                lemma_small_ratio_product(f.0, t.1);
                lemma_small_ratio_product(f.1, t.0);
            },
            _ => {},
        }
    }
}

/// Law: converting a length to a compatible unit and back yields a
/// magnitude equal, as an exact rational, to the original, in the original
/// unit.
pub proof fn lemma_length_convert_round_trip(a: Length, b: Length, c: Length)
    requires
        a.0.wf(),
        spec_length_converts_to(a, b.1, b),
        spec_length_converts_to(b, a.1, c),
    ensures
        c.1 == a.1,
        c.0.rat_eq(a.0),
{
    lemma_length_ratio_inverse(a.1, b.1);
    lemma_length_ratio_positive(a.1, b.1);
    let rr = spec_length_conversion_ratio(a.1, b.1).unwrap();
    crate::scalar::lemma_mul_ratio_round_trip(a.0, b.0, c.0, rr.0, rr.1);
}

/// The exact ratio a conversion between two angle units applies.
pub open spec fn spec_angle_conversion_ratio(from: AngleUnit, to: AngleUnit) -> Option<(int, int)> {
    if from == to {
        Some((1int, 1int))
    } else {
        match (spec_angle_turn_ratio(from), spec_angle_turn_ratio(to)) {
            (Some(f), Some(t)) => Some((f.0 * t.1, f.1 * t.0)),
            _ => None,
        }
    }
}

/// What a successful angle conversion returns.
pub open spec fn spec_angle_converts_to(from: Angle, to: AngleUnit, out: Angle) -> bool {
    &&& out.1 == to
    &&& spec_angle_conversion_ratio(from.1, to) matches Some(rr) && out.0.spec_num()
        == from.0.spec_num() * rr.0 && out.0.spec_den() == from.0.spec_den() * rr.1
}

impl Angle {
    /// Convert to a compatible angle unit; radians convert only to
    /// themselves, their ratio to a turn being irrational.
    pub fn convert(&self, to: AngleUnit) -> (r: Result<Angle, CssError>)
        ensures
            match spec_angle_conversion_ratio(self.1, to) {
                Some(rr) => {
                    &&& (r matches Ok(l) ==> spec_angle_converts_to(*self, to, l))
                    &&& (r is Err ==> r == Err::<Angle, CssError>(
                        CssError::Value(ValueError::Overflow),
                    ))
                    &&& (r is Ok <==> i64::MIN <= self.0.spec_num() * rr.0 <= i64::MAX
                        && self.0.spec_den() * rr.1 <= i64::MAX)
                },
                None => r == Err::<Angle, CssError>(CssError::UnitMismatch),
            },
    {
        let (p, q): (i64, i64) = if self.1 == to {
            (1, 1)
        } else {
            match (angle_turn_ratio(self.1), angle_turn_ratio(to)) {
                (Some(f), Some(t)) => {
                    proof {
                        crate::units::lemma_ratio_tables_bounded();
                        lemma_small_ratio_product(f.0 as int, t.1 as int);
                        lemma_small_ratio_product(f.1 as int, t.0 as int);
                    }
                    (f.0 * t.1, f.1 * t.0)
                },
                _ => {
                    return Err(CssError::UnitMismatch);
                },
            }
        };
        match self.0.mul_ratio(p, q) {
            Ok(m) => Ok(Angle(m, to)),
            Err(_) => Err(CssError::Value(ValueError::Overflow)),
        }
    }
}

/// Law: converting an angle to a compatible unit and back recovers the
/// magnitude exactly.
pub proof fn lemma_angle_convert_round_trip(a: Angle, b: Angle, c: Angle)
    requires
        a.0.wf(),
        spec_angle_converts_to(a, b.1, b),
        spec_angle_converts_to(b, a.1, c),
    ensures
        c.1 == a.1,
        c.0.rat_eq(a.0),
{
    if a.1 != b.1 {
        match (spec_angle_turn_ratio(a.1), spec_angle_turn_ratio(b.1)) {
            (Some(f), Some(t)) => {
                assert(f.0 * t.1 == t.1 * f.0) by (nonlinear_arith);
                assert(f.1 * t.0 == t.0 * f.1) by (nonlinear_arith);
                crate::units::lemma_ratio_tables_bounded();
                lemma_small_ratio_product(f.0, t.1);
                lemma_small_ratio_product(f.1, t.0);
            },
            _ => {},
        }
    }
    let rr = spec_angle_conversion_ratio(a.1, b.1).unwrap();
    crate::scalar::lemma_mul_ratio_round_trip(a.0, b.0, c.0, rr.0, rr.1);
}

/// The exact ratio a conversion between two time units applies.
pub open spec fn spec_time_conversion_ratio(from: TimeUnit, to: TimeUnit) -> Option<(int, int)> {
    if from == to {
        Some((1int, 1int))
    } else {
        match (spec_time_ms_ratio(from), spec_time_ms_ratio(to)) {
            (Some(f), Some(t)) => Some((f.0 * t.1, f.1 * t.0)),
            _ => None,
        }
    }
}

/// What a successful time conversion returns.
pub open spec fn spec_time_converts_to(from: Time, to: TimeUnit, out: Time) -> bool {
    &&& out.1 == to
    &&& spec_time_conversion_ratio(from.1, to) matches Some(rr) && out.0.spec_num()
        == from.0.spec_num() * rr.0 && out.0.spec_den() == from.0.spec_den() * rr.1
}

impl Time {
    /// Convert between seconds and milliseconds with the exact ratio 1000.
    pub fn convert(&self, to: TimeUnit) -> (r: Result<Time, CssError>)
        ensures
            match spec_time_conversion_ratio(self.1, to) {
                Some(rr) => {
                    &&& (r matches Ok(l) ==> spec_time_converts_to(*self, to, l))
                    &&& (r is Err ==> r == Err::<Time, CssError>(
                        CssError::Value(ValueError::Overflow),
                    ))
                    &&& (r is Ok <==> i64::MIN <= self.0.spec_num() * rr.0 <= i64::MAX
                        && self.0.spec_den() * rr.1 <= i64::MAX)
                },
                None => r == Err::<Time, CssError>(CssError::UnitMismatch),
            },
    {
        let (p, q): (i64, i64) = if self.1 == to {
            (1, 1)
        } else {
            match (time_ms_ratio(self.1), time_ms_ratio(to)) {
                (Some(f), Some(t)) => {
                    proof {
                        crate::units::lemma_ratio_tables_bounded();
                        lemma_small_ratio_product(f.0 as int, t.1 as int);
                        lemma_small_ratio_product(f.1 as int, t.0 as int);
                    }
                    (f.0 * t.1, f.1 * t.0)
                },
                _ => {
                    return Err(CssError::UnitMismatch);
                },
            }
        };
        match self.0.mul_ratio(p, q) {
            Ok(m) => Ok(Time(m, to)),
            Err(_) => Err(CssError::Value(ValueError::Overflow)),
        }
    }
}

/// Law: converting a time to the other unit and back recovers the
/// magnitude exactly.
pub proof fn lemma_time_convert_round_trip(a: Time, b: Time, c: Time)
    requires
        a.0.wf(),
        spec_time_converts_to(a, b.1, b),
        spec_time_converts_to(b, a.1, c),
    ensures
        c.1 == a.1,
        c.0.rat_eq(a.0),
{
    if a.1 != b.1 {
        match (spec_time_ms_ratio(a.1), spec_time_ms_ratio(b.1)) {
            (Some(f), Some(t)) => {
                assert(f.0 * t.1 == t.1 * f.0) by (nonlinear_arith);
                assert(f.1 * t.0 == t.0 * f.1) by (nonlinear_arith);
                crate::units::lemma_ratio_tables_bounded();
                lemma_small_ratio_product(f.0, t.1);
                lemma_small_ratio_product(f.1, t.0);
            },
            _ => {},
        }
    }
    let rr = spec_time_conversion_ratio(a.1, b.1).unwrap();
    crate::scalar::lemma_mul_ratio_round_trip(a.0, b.0, c.0, rr.0, rr.1);
}

/// The exact ratio a conversion between two frequency units applies.
pub open spec fn spec_frequency_conversion_ratio(from: FrequencyUnit, to: FrequencyUnit) -> Option<
    (int, int),
> {
    if from == to {
        Some((1int, 1int))
    } else {
        match (spec_frequency_hz_ratio(from), spec_frequency_hz_ratio(to)) {
            (Some(f), Some(t)) => Some((f.0 * t.1, f.1 * t.0)),
            _ => None,
        }
    }
}

/// What a successful frequency conversion returns.
pub open spec fn spec_frequency_converts_to(
    from: Frequency,
    to: FrequencyUnit,
    out: Frequency,
) -> bool {
    &&& out.1 == to
    &&& spec_frequency_conversion_ratio(from.1, to) matches Some(rr) && out.0.spec_num()
        == from.0.spec_num() * rr.0 && out.0.spec_den() == from.0.spec_den() * rr.1
}

impl Frequency {
    /// Convert between hertz and kilohertz with the exact ratio 1000.
    pub fn convert(&self, to: FrequencyUnit) -> (r: Result<Frequency, CssError>)
        ensures
            match spec_frequency_conversion_ratio(self.1, to) {
                Some(rr) => {
                    &&& (r matches Ok(l) ==> spec_frequency_converts_to(*self, to, l))
                    &&& (r is Err ==> r == Err::<Frequency, CssError>(
                        CssError::Value(ValueError::Overflow),
                    ))
                    &&& (r is Ok <==> i64::MIN <= self.0.spec_num() * rr.0 <= i64::MAX
                        && self.0.spec_den() * rr.1 <= i64::MAX)
                },
                None => r == Err::<Frequency, CssError>(CssError::UnitMismatch),
            },
    {
        let (p, q): (i64, i64) = if self.1 == to {
            (1, 1)
        } else {
            match (frequency_hz_ratio(self.1), frequency_hz_ratio(to)) {
                (Some(f), Some(t)) => {
                    proof {
                        crate::units::lemma_ratio_tables_bounded();
                        lemma_small_ratio_product(f.0 as int, t.1 as int);
                        lemma_small_ratio_product(f.1 as int, t.0 as int);
                    }
                    (f.0 * t.1, f.1 * t.0)
                },
                _ => {
                    return Err(CssError::UnitMismatch);
                },
            }
        };
        match self.0.mul_ratio(p, q) {
            Ok(m) => Ok(Frequency(m, to)),
            Err(_) => Err(CssError::Value(ValueError::Overflow)),
        }
    }
}

/// Law: converting a frequency to the other unit and back recovers the
/// magnitude exactly.
pub proof fn lemma_frequency_convert_round_trip(a: Frequency, b: Frequency, c: Frequency)
    requires
        a.0.wf(),
        spec_frequency_converts_to(a, b.1, b),
        spec_frequency_converts_to(b, a.1, c),
    ensures
        c.1 == a.1,
        c.0.rat_eq(a.0),
{
    if a.1 != b.1 {
        match (spec_frequency_hz_ratio(a.1), spec_frequency_hz_ratio(b.1)) {
            (Some(f), Some(t)) => {
                assert(f.0 * t.1 == t.1 * f.0) by (nonlinear_arith);
                assert(f.1 * t.0 == t.0 * f.1) by (nonlinear_arith);
                crate::units::lemma_ratio_tables_bounded();
                lemma_small_ratio_product(f.0, t.1);
                lemma_small_ratio_product(f.1, t.0);
            },
            _ => {},
        }
    }
    let rr = spec_frequency_conversion_ratio(a.1, b.1).unwrap();
    crate::scalar::lemma_mul_ratio_round_trip(a.0, b.0, c.0, rr.0, rr.1);
}

/// The exact ratio a conversion between two resolution units applies.
pub open spec fn spec_resolution_conversion_ratio(
    from: ResolutionUnit,
    to: ResolutionUnit,
) -> Option<(int, int)> {
    if from == to {
        Some((1int, 1int))
    } else {
        match (spec_resolution_dpi_ratio(from), spec_resolution_dpi_ratio(to)) {
            (Some(f), Some(t)) => Some((f.0 * t.1, f.1 * t.0)),
            _ => None,
        }
    }
}

/// What a successful resolution conversion returns.
pub open spec fn spec_resolution_converts_to(
    from: Resolution,
    to: ResolutionUnit,
    out: Resolution,
) -> bool {
    &&& out.1 == to
    &&& spec_resolution_conversion_ratio(from.1, to) matches Some(rr) && out.0.spec_num()
        == from.0.spec_num() * rr.0 && out.0.spec_den() == from.0.spec_den() * rr.1
}

impl Resolution {
    /// Convert between dpi, dpcm and dppx with the exact ratios
    /// 1dpcm = 127/50 dpi and 1dppx = 96dpi.
    pub fn convert(&self, to: ResolutionUnit) -> (r: Result<Resolution, CssError>)
        ensures
            match spec_resolution_conversion_ratio(self.1, to) {
                Some(rr) => {
                    &&& (r matches Ok(l) ==> spec_resolution_converts_to(*self, to, l))
                    &&& (r is Err ==> r == Err::<Resolution, CssError>(
                        CssError::Value(ValueError::Overflow),
                    ))
                    &&& (r is Ok <==> i64::MIN <= self.0.spec_num() * rr.0 <= i64::MAX
                        && self.0.spec_den() * rr.1 <= i64::MAX)
                },
                None => r == Err::<Resolution, CssError>(CssError::UnitMismatch),
            },
    {
        let (p, q): (i64, i64) = if self.1 == to {
            (1, 1)
        } else {
            match (resolution_dpi_ratio(self.1), resolution_dpi_ratio(to)) {
                (Some(f), Some(t)) => {
                    proof {
                        crate::units::lemma_ratio_tables_bounded();
                        lemma_small_ratio_product(f.0 as int, t.1 as int);
                        lemma_small_ratio_product(f.1 as int, t.0 as int);
                    }
                    (f.0 * t.1, f.1 * t.0)
                },
                _ => {
                    return Err(CssError::UnitMismatch);
                },
            }
        };
        match self.0.mul_ratio(p, q) {
            Ok(m) => Ok(Resolution(m, to)),
            Err(_) => Err(CssError::Value(ValueError::Overflow)),
        }
    }
}

/// Law: converting a resolution to a compatible unit and back recovers the
/// magnitude exactly.
pub proof fn lemma_resolution_convert_round_trip(a: Resolution, b: Resolution, c: Resolution)
    requires
        a.0.wf(),
        spec_resolution_converts_to(a, b.1, b),
        spec_resolution_converts_to(b, a.1, c),
    ensures
        c.1 == a.1,
        c.0.rat_eq(a.0),
{
    if a.1 != b.1 {
        match (spec_resolution_dpi_ratio(a.1), spec_resolution_dpi_ratio(b.1)) {
            (Some(f), Some(t)) => {
                assert(f.0 * t.1 == t.1 * f.0) by (nonlinear_arith);
                assert(f.1 * t.0 == t.0 * f.1) by (nonlinear_arith);
                crate::units::lemma_ratio_tables_bounded();
                lemma_small_ratio_product(f.0, t.1);
                lemma_small_ratio_product(f.1, t.0);
            },
            _ => {},
        }
    }
    let rr = spec_resolution_conversion_ratio(a.1, b.1).unwrap();
    crate::scalar::lemma_mul_ratio_round_trip(a.0, b.0, c.0, rr.0, rr.1);
}

// ------------------------------------------------------------------
// Combinations of types
// ------------------------------------------------------------------
/// Either a length or a percentage; exactly two alternatives.
#[derive(Clone, Copy, Debug, PartialEq, Eq, Structural)]
pub enum LengthPercentage {
    Length(Length),
    Percentage(Percentage),
}

/// Whether a length-percentage's magnitude is zero or positive.
pub open spec fn spec_lp_nonneg(lp: LengthPercentage) -> bool {
    match lp {
        LengthPercentage::Length(l) => l.0.is_nonneg(),
        LengthPercentage::Percentage(p) => p.0.0.is_nonneg(),
    }
}

/// Either a length or a plain number.
#[derive(Clone, Copy, Debug, PartialEq, Eq, Structural)]
pub enum LengthNumber {
    Length(Length),
    Number(Number),
}

/// Either an angle or a percentage.
#[derive(Clone, Copy, Debug, PartialEq, Eq, Structural)]
pub enum AnglePercentage {
    Angle(Angle),
    Percentage(Percentage),
}

/// Either a time or a percentage.
#[derive(Clone, Copy, Debug, PartialEq, Eq, Structural)]
pub enum TimePercentage {
    Time(Time),
    Percentage(Percentage),
}

/// The combination types.
#[derive(Clone, Copy, Debug, PartialEq, Eq, Structural)]
pub enum Combination {
    LengthPercentage(LengthPercentage),
    AnglePercentage(AnglePercentage),
    TimePercentage(TimePercentage),
}

/// Either a number or a percentage, as in filter function amounts.
#[derive(Clone, Copy, Debug, PartialEq, Eq, Structural)]
pub enum NumberPercentage {
    Number(Number),
    Percentage(Percentage),
}

// ------------------------------------------------------------------
// Color and alpha
// ------------------------------------------------------------------
/// The transparency of a color: either a number in 0..1 or a percentage in
/// 0..100; the two scales denote the same transparency and compare equal
/// after normalization.
#[derive(Clone, Copy, Debug, PartialEq, Eq, Structural)]
pub enum Alpha {
    Number(Number),
    Percentage(Percentage),
}

impl Alpha {
    /// Numerator of the alpha on the common 0..1 scale.
    pub open spec fn spec_unit_num(self) -> int {
        match self {
            Alpha::Number(n) => n.0.spec_num(),
            Alpha::Percentage(p) => p.0.0.spec_num(),
        }
    }

    /// Denominator of the alpha on the common 0..1 scale: a percentage's
    /// denominator is scaled by 100.
    pub open spec fn spec_unit_den(self) -> int {
        match self {
            Alpha::Number(n) => n.0.spec_den(),
            Alpha::Percentage(p) => p.0.0.spec_den() * 100,
        }
    }

    /// In range: between 0 and 1 on the common scale.
    pub open spec fn spec_in_range(self) -> bool {
        0 <= self.spec_unit_num() <= self.spec_unit_den()
    }

    /// Validating constructor: a number alpha must lie in 0..1.
    pub fn new_number(n: Number) -> (r: Result<Alpha, ValueError>)
        ensures
            r is Ok <==> 0 <= n.0.spec_num() <= n.0.spec_den(),
            r matches Ok(a) ==> a == Alpha::Number(n),
            r matches Err(e) ==> e == ValueError::OutOfRange,
    {
        let zero = Scalar::from_int(0);
        let one = Scalar::from_int(1);
        if zero.rational_le(&n.0) && n.0.rational_le(&one) {
            Ok(Alpha::Number(n))
        } else {
            Err(ValueError::OutOfRange)
        }
    }

    /// Validating constructor: a percentage alpha must lie in 0..100.
    pub fn new_percentage(p: Percentage) -> (r: Result<Alpha, ValueError>)
        ensures
            r is Ok <==> 0 <= p.0.0.spec_num() <= p.0.0.spec_den() * 100,
            r matches Ok(a) ==> a == Alpha::Percentage(p),
            r matches Err(e) ==> e == ValueError::OutOfRange,
    {
        let zero = Scalar::from_int(0);
        let hundred = Scalar::from_int(100);
        if zero.rational_le(&p.0.0) && p.0.0.rational_le(&hundred) {
            proof {
                assert(p.0.0.spec_num() * 1 == p.0.0.spec_num());
            }
            Ok(Alpha::Percentage(p))
        } else {
            Err(ValueError::OutOfRange)
        }
    }

    /// Equality of two alphas after normalization to the common scale.
    pub open spec fn spec_alpha_equiv(self, other: Alpha) -> bool {
        self.spec_unit_num() * other.spec_unit_den() == other.spec_unit_num()
            * self.spec_unit_den()
    }

    /// Whether the two alphas denote the same transparency, comparing the
    /// normalized forms exactly.
    pub fn alpha_eq(&self, other: &Alpha) -> (r: bool)
        ensures
            r == self.spec_alpha_equiv(*other),
    {
        match (self, other) {
            (Alpha::Number(a), Alpha::Number(b)) => a.0.rational_eq(&b.0),
            (Alpha::Percentage(a), Alpha::Percentage(b)) => {
                let r = a.0.0.rational_eq(&b.0.0);
                proof {
                    assert(a.0.0.spec_num() * (b.0.0.spec_den() * 100) == b.0.0.spec_num() * (
                    a.0.0.spec_den() * 100) <==> a.0.0.spec_num() * b.0.0.spec_den()
                        == b.0.0.spec_num() * a.0.0.spec_den()) by (nonlinear_arith);
                }
                r
            },
            (Alpha::Number(a), Alpha::Percentage(b)) => scaled_eq(&a.0, &b.0.0),
            (Alpha::Percentage(a), Alpha::Number(b)) => {
                let r = scaled_eq(&b.0, &a.0.0);
                proof {
                    assert(a.0.0.spec_num() * b.0.spec_den() == b.0.spec_num() * (a.0.0.spec_den()
                        * 100) <==> b.0.spec_num() * (a.0.0.spec_den() * 100) == a.0.0.spec_num()
                        * b.0.spec_den());
                }
                r
            },
        }
    }
}

/// Whether the number `n` equals the percentage magnitude `p` divided by
/// 100, exactly: `n * 100 == p` as rationals.
fn scaled_eq(n: &Scalar, p: &Scalar) -> (r: bool)
    ensures
        r == (n.spec_num() * (p.spec_den() * 100) == p.spec_num() * n.spec_den()),
{
    let nn = n.num();
    let nd = n.den();
    let pn = p.num();
    let pd = p.den();
    proof {
        lemma_i64_by_i64_fits(nn as int, pd as int);
        lemma_i64_by_i64_fits(pn as int, nd as int);
    }
    let a: i128 = (nn as i128) * (pd as i128);
    let b: i128 = (pn as i128) * (nd as i128);
    let r = times_100_eq(a, b);
    proof {
        assert(n.spec_num() * (p.spec_den() * 100) == (n.spec_num() * p.spec_den()) * 100)
            by (nonlinear_arith);
    }
    r
}

/// Whether `a * 100 == b`, without ever forming a product that could leave
/// the `i128` range: the factor 100 is divided out of `b` instead.
fn times_100_eq(a: i128, b: i128) -> (r: bool)
    requires
        i128::MIN < a,
        i128::MIN < b,
    ensures
        r == (a * 100 == b),
{
    if a >= 0 && b >= 0 {
        let au = a as u128;
        let bu = b as u128;
        let r = bu % 100 == 0 && bu / 100 == au;
        proof {
            lemma_times_100_eq_div(au as int, bu as int);
        }
        r
    } else if a < 0 && b < 0 {
        let au = (-a) as u128;
        let bu = (-b) as u128;
        let r = bu % 100 == 0 && bu / 100 == au;
        proof {
            lemma_times_100_eq_div(au as int, bu as int);
        }
        r
    } else {
        false
    }
}

/// For non-negative `a` and `b`: `a * 100 == b` exactly when 100 divides
/// `b` with quotient `a`.
proof fn lemma_times_100_eq_div(a: int, b: int)
    requires
        0 <= a,
        0 <= b,
    ensures
        (a * 100 == b) <==> (b % 100 == 0 && b / 100 == a),
{
    if a * 100 == b {
        vstd::arithmetic::div_mod::lemma_fundamental_div_mod_converse_mod(b, 100, a, 0);
        vstd::arithmetic::div_mod::lemma_fundamental_div_mod_converse_div(b, 100, a, 0);
    }
    if b % 100 == 0 && b / 100 == a {
        vstd::arithmetic::div_mod::lemma_fundamental_div_mod(b, 100);
    }
}

/// The product of two `i64` values fits strictly inside the `i128` range.
proof fn lemma_i64_by_i64_fits(a: int, b: int)
    requires
        i64::MIN <= a <= i64::MAX,
        i64::MIN <= b <= i64::MAX,
    ensures
        i128::MIN < a * b < i128::MAX,
{
    assert(i128::MIN < a * b < i128::MAX) by (nonlinear_arith)
        requires
            i64::MIN <= a <= i64::MAX,
            i64::MIN <= b <= i64::MAX,
    ;
}

/// A color: one of the color-function families, each carrying exact channel
/// magnitudes and an optional alpha.
#[derive(Clone, Copy, Debug, PartialEq, Eq, Structural)]
pub enum Color {
    /// `rgb(...)`: red, green and blue channels on the 0..255 scale.
    Rgb { red: Scalar, green: Scalar, blue: Scalar, alpha: Option<Alpha> },
    /// `hsl(...)`: hue in degrees, saturation and lightness percentages.
    Hsl { hue: Scalar, saturation: Percentage, lightness: Percentage, alpha: Option<Alpha> },
    /// `lch(...)`: lightness percentage, chroma, hue in degrees.
    Lch { lightness: Percentage, chroma: Scalar, hue: Scalar, alpha: Option<Alpha> },
    /// `lab(...)`: lightness percentage, a axis, b axis.
    Lab { lightness: Percentage, a_axis: Scalar, b_axis: Scalar, alpha: Option<Alpha> },
}

// ------------------------------------------------------------------
// Images and gradients
// ------------------------------------------------------------------
/// The shape a radial gradient is drawn with.
#[derive(Clone, Copy, Debug, PartialEq, Eq, Structural)]
pub enum RadialGradientShape {
    Circle,
    Ellipse,
}

/// A gradient: one of its defined sub-forms.  An absent repeat length is
/// represented, never defaulted to a magic value.
#[derive(Clone, Copy, Debug, PartialEq, Eq, Structural)]
pub enum Gradient {
    Linear { from: Color, to: Color, angle: Angle, repeat: Option<Length> },
    Radial { from: Color, to: Color, shape: RadialGradientShape },
}

/// An image: a url or a gradient.
#[derive(Debug, Clone, PartialEq, Eq)]
pub enum Image {
    Url(Url),
    Gradient(Gradient),
}

/// The ghost view of an [`Image`]: the url text or the gradient itself.
pub ghost enum ImageView {
    Url(Seq<char>),
    Gradient(Gradient),
}

impl View for Image {
    type V = ImageView;

    open spec fn view(&self) -> ImageView {
        match self {
            Image::Url(u) => ImageView::Url(u@),
            Image::Gradient(g) => ImageView::Gradient(*g),
        }
    }
}

/// A filter function, as accepted by filter and backdrop-filter.
#[derive(Clone, Copy, Debug, PartialEq, Eq, Structural)]
pub enum FilterFunction {
    /// `blur()`.
    Blur { radius: Length },
    /// `brightness()`.
    Brightness { amount: NumberPercentage },
    /// `contrast()`.
    Constrast { amount: NumberPercentage },
    /// `drop-shadow()`.
    DropShadow {
        offset_x: Length,
        offset_y: Length,
        blur_radius: Option<Length>,
        color: Option<Color>,
    },
    /// `grayscale()`.
    Grayscale { amount: NumberPercentage },
    /// `hue-rotate()`.
    HueRotate { angle: Angle },
    /// `invert()`.
    Invert { amount: NumberPercentage },
    /// `opacity()`; the amount uses the same dual scale as an alpha.
    Opacity { amount: NumberPercentage },
    /// `saturate()`.
    Saturate { amount: NumberPercentage },
    /// `sepia()`.
    Sepia { amount: NumberPercentage },
}

/// How overlapping layers blend.
#[derive(Clone, Copy, Debug, PartialEq, Eq, Structural)]
pub enum BlendMode {
    Normal,
    Multiply,
    Screen,
    Overlay,
    Darken,
    Lighten,
    ColorDodge,
    ColorBurn,
    HardLight,
    SoftLight,
    Difference,
    Exclusion,
    Hue,
    Saturation,
    Color,
    Luminosity,
}

// ------------------------------------------------------------------
// Positions
// ------------------------------------------------------------------
/// Horizontal position, with an optional offset from the named edge.
#[derive(Clone, Copy, Debug, PartialEq, Eq, Structural)]
pub enum PositionX {
    Left(Option<LengthPercentage>),
    Center,
    Right(Option<LengthPercentage>),
    Value(LengthPercentage),
}

/// Vertical position, with an optional offset from the named edge.
#[derive(Clone, Copy, Debug, PartialEq, Eq, Structural)]
pub enum PositionY {
    Top(Option<LengthPercentage>),
    Center,
    Bottom(Option<LengthPercentage>),
    Value(LengthPercentage),
}

/// A two-dimensional position.
#[derive(Clone, Copy, Debug, PartialEq, Eq, Structural)]
pub struct Position {
    pub x: PositionX,
    pub y: PositionY,
}

// ------------------------------------------------------------------
// Basic shapes
// ------------------------------------------------------------------
/// The filling rule of a polygon or path.
#[derive(Clone, Copy, Debug, PartialEq, Eq, Structural)]
pub enum FillRule {
    Nonzero,
    EvenOdd,
}

/// A shape radius: a non-negative length-percentage or a side keyword.
#[derive(Clone, Copy, Debug, PartialEq, Eq, Structural)]
pub enum ShapeRadius {
    Radius(LengthPercentage),
    ClosestSide,
    FarthestSide,
}

impl ShapeRadius {
    /// In range: an explicit radius is never negative.
    pub open spec fn spec_in_range(self) -> bool {
        self matches ShapeRadius::Radius(lp) ==> spec_lp_nonneg(lp)
    }

    /// Validating constructor for an explicit radius.
    pub fn new_radius(lp: LengthPercentage) -> (r: Result<ShapeRadius, ValueError>)
        ensures
            r is Ok <==> spec_lp_nonneg(lp),
            r matches Ok(s) ==> s == ShapeRadius::Radius(lp),
            r matches Err(e) ==> e == ValueError::NegativeMagnitude,
    {
        let ok = match lp {
            LengthPercentage::Length(l) => l.0.is_non_negative(),
            LengthPercentage::Percentage(p) => p.0.0.is_non_negative(),
        };
        if ok {
            Ok(ShapeRadius::Radius(lp))
        } else {
            Err(ValueError::NegativeMagnitude)
        }
    }
}

/// One corner of a border radius: circular or elliptical.
#[derive(Clone, Copy, Debug, PartialEq, Eq, Structural)]
pub enum RadiusCorner {
    Circle(LengthPercentage),
    Ellipse { x: LengthPercentage, y: LengthPercentage },
}

/// The `inset()` basic shape: four edge offsets and a corner radius.
#[derive(Clone, Copy, Debug, PartialEq, Eq, Structural)]
pub struct InsetRectange {
    pub top: LengthPercentage,
    pub left: LengthPercentage,
    pub bottom: LengthPercentage,
    pub right: LengthPercentage,
    pub border_radius: RadiusCorner,
}

/// The `circle()` basic shape; the radius is never negative.
#[derive(Clone, Copy, Debug, PartialEq, Eq, Structural)]
pub struct Circle {
    radius: ShapeRadius,
    position: Option<Position>,
}

impl Circle {
    #[verifier::type_invariant]
    spec fn type_inv(self) -> bool {
        self.radius.spec_in_range()
    }

    /// The radius.
    pub closed spec fn spec_radius(self) -> ShapeRadius {
        self.radius
    }

    /// The position, when one was given.
    pub closed spec fn spec_position(self) -> Option<Position> {
        self.position
    }

    /// Validating constructor: rejects a negative radius.
    pub fn new(radius: ShapeRadius, position: Option<Position>) -> (r: Result<Circle, ValueError>)
        ensures
            r is Ok <==> radius.spec_in_range(),
            r matches Ok(c) ==> c.spec_radius() == radius && c.spec_position() == position,
            r matches Err(e) ==> e == ValueError::NegativeMagnitude,
    {
        let ok = match radius {
            ShapeRadius::Radius(lp) => match lp {
                LengthPercentage::Length(l) => l.0.is_non_negative(),
                LengthPercentage::Percentage(p) => p.0.0.is_non_negative(),
            },
            _ => true,
        };
        if ok {
            Ok(Circle { radius, position })
        } else {
            Err(ValueError::NegativeMagnitude)
        }
    }

    /// The radius.
    pub fn radius(&self) -> (r: ShapeRadius)
        ensures
            r == self.spec_radius(),
            r.spec_in_range(),
    {
        proof {
            use_type_invariant(self);
        }
        self.radius
    }

    /// The position, when one was given.
    pub fn position(&self) -> (r: Option<Position>)
        ensures
            r == self.spec_position(),
    {
        self.position
    }
}

/// The `ellipse()` basic shape; neither radius is negative.
#[derive(Clone, Copy, Debug, PartialEq, Eq, Structural)]
pub struct Ellipse {
    x_radius: ShapeRadius,
    y_radius: ShapeRadius,
    position: Option<Position>,
}

impl Ellipse {
    #[verifier::type_invariant]
    spec fn type_inv(self) -> bool {
        self.x_radius.spec_in_range() && self.y_radius.spec_in_range()
    }

    /// The horizontal radius.
    pub closed spec fn spec_x_radius(self) -> ShapeRadius {
        self.x_radius
    }

    /// The vertical radius.
    pub closed spec fn spec_y_radius(self) -> ShapeRadius {
        self.y_radius
    }

    /// The position, when one was given.
    pub closed spec fn spec_position(self) -> Option<Position> {
        self.position
    }

    /// Validating constructor: rejects a negative radius.
    pub fn new(x_radius: ShapeRadius, y_radius: ShapeRadius, position: Option<Position>) -> (r:
        Result<Ellipse, ValueError>)
        ensures
            r is Ok <==> x_radius.spec_in_range() && y_radius.spec_in_range(),
            r matches Ok(c) ==> c.spec_x_radius() == x_radius && c.spec_y_radius() == y_radius
                && c.spec_position() == position,
            r matches Err(e) ==> e == ValueError::NegativeMagnitude,
    {
        let ok_x = match x_radius {
            ShapeRadius::Radius(lp) => match lp {
                LengthPercentage::Length(l) => l.0.is_non_negative(),
                LengthPercentage::Percentage(p) => p.0.0.is_non_negative(),
            },
            _ => true,
        };
        let ok_y = match y_radius {
            ShapeRadius::Radius(lp) => match lp {
                LengthPercentage::Length(l) => l.0.is_non_negative(),
                LengthPercentage::Percentage(p) => p.0.0.is_non_negative(),
            },
            _ => true,
        };
        if ok_x && ok_y {
            Ok(Ellipse { x_radius, y_radius, position })
        } else {
            Err(ValueError::NegativeMagnitude)
        }
    }

    /// The horizontal radius.
    pub fn x_radius(&self) -> (r: ShapeRadius)
        ensures
            r == self.spec_x_radius(),
    {
        self.x_radius
    }

    /// The vertical radius.
    pub fn y_radius(&self) -> (r: ShapeRadius)
        ensures
            r == self.spec_y_radius(),
    {
        self.y_radius
    }

    /// The position, when one was given.
    pub fn position(&self) -> (r: Option<Position>)
        ensures
            r == self.spec_position(),
    {
        self.position
    }
}

/// The `polygon()` basic shape: a fill rule and at least three points.
#[derive(Debug, PartialEq, Eq)]
pub struct Polygon {
    fill_rule: FillRule,
    points: Vec<(LengthPercentage, LengthPercentage)>,
}

impl Polygon {
    #[verifier::type_invariant]
    spec fn type_inv(self) -> bool {
        self.points@.len() >= 3
    }

    /// The fill rule.
    pub closed spec fn spec_fill_rule(self) -> FillRule {
        self.fill_rule
    }

    /// The points.
    pub closed spec fn spec_points(self) -> Seq<(LengthPercentage, LengthPercentage)> {
        self.points@
    }

    /// Validating constructor: a polygon needs at least three points.
    pub fn new(fill_rule: FillRule, points: Vec<(LengthPercentage, LengthPercentage)>) -> (r:
        Result<Polygon, ValueError>)
        ensures
            r is Ok <==> points@.len() >= 3,
            r matches Ok(p) ==> p.spec_fill_rule() == fill_rule && p.spec_points() == points@,
            r matches Err(e) ==> e == ValueError::TooFewPoints,
    {
        if points.len() >= 3 {
            Ok(Polygon { fill_rule, points })
        } else {
            Err(ValueError::TooFewPoints)
        }
    }

    /// The fill rule.
    pub fn fill_rule(&self) -> (r: FillRule)
        ensures
            r == self.spec_fill_rule(),
    {
        self.fill_rule
    }

    /// The points; always at least three.
    pub fn points(&self) -> (r: &Vec<(LengthPercentage, LengthPercentage)>)
        ensures
            r@ == self.spec_points(),
            r@.len() >= 3,
    {
        proof {
            use_type_invariant(self);
        }
        &self.points
    }
}

/// An SVG path with its filling rule.
#[derive(Debug, Clone, PartialEq, Eq)]
pub struct Path {
    pub fill_rule: FillRule,
    pub svg_path: CssString,
}

/// A basic shape.
#[derive(Debug, PartialEq, Eq)]
pub enum BasicShape {
    Inset(InsetRectange),
    Circle(Circle),
    Ellipse(Ellipse),
    Polygon(Polygon),
    Path(Path),
}

// ------------------------------------------------------------------
// Sizing and line decorations
// ------------------------------------------------------------------
/// A sizing value, as accepted by width and the other box sizing
/// properties.
#[derive(Clone, Copy, Debug, PartialEq, Eq, Structural)]
pub enum WidthValue {
    Length(Length),
    Percentage(Percentage),
    Auto,
    MaxContent,
    MinContent,
    FitContent(LengthPercentage),
}

/// A border line style keyword.
#[derive(Clone, Copy, Debug, PartialEq, Eq, Structural)]
pub enum LineStyle {
    NoneKeyword,
    Hidden,
    Dotted,
    Dashed,
    Solid,
    Double,
    Groove,
    Ridge,
    Inset,
    Outset,
}

/// A border line width: a keyword or an explicit non-negative length.
#[derive(Clone, Copy, Debug, PartialEq, Eq, Structural)]
pub enum LineWidth {
    Thin,
    Medium,
    Thick,
    Value(PositiveLength),
}

} // verus!
