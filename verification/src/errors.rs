//! The error taxonomy: every failure in this crate is recoverable and is
//! reported to the immediate caller; no verified function panics.

use vstd::prelude::*;

verus! {

/// A validating constructor rejected its arguments: the value would have
/// broken the type's invariant.
#[derive(Clone, Copy, Debug, PartialEq, Eq, Structural)]
pub enum ValueError {
    /// A magnitude had to be non-negative and was not.
    NegativeMagnitude,
    /// A polygon needs at least three points.
    TooFewPoints,
    /// A `CustomIdent` may not be one of the CSS-wide keywords
    /// `initial`, `inherit`, `unset`, `revert`.
    ReservedKeyword,
    /// A `DashedIdent` must start with two hyphens.
    MissingDashPrefix,
    /// A rational magnitude needs a denominator of at least one.
    NonPositiveDenominator,
    /// A magnitude was outside the range the type admits
    /// (an alpha number outside 0..1, an alpha percentage outside 0..100).
    OutOfRange,
    /// Exact arithmetic left the machine's integer range.
    Overflow,
    /// A layered property needs at least one layer.
    EmptyLayerList,
}

/// The grammar that was being tried when parsing failed; reported inside
/// [`ParseFailure`] for diagnostics.
#[derive(Clone, Copy, Debug, PartialEq, Eq, Structural)]
pub enum Expected {
    Number,
    Integer,
    Percentage,
    Dimension,
    Length,
    PositiveLength,
    Angle,
    Time,
    PositiveTime,
    Frequency,
    Resolution,
    LengthPercentage,
    AnglePercentage,
    TimePercentage,
    LengthNumber,
    NumberPercentage,
    Alpha,
    Color,
    Url,
    Image,
    Gradient,
    Ratio,
    CustomIdent,
    DashedIdent,
    Keyword,
    Position,
    Shape,
    WidthValue,
    LineStyle,
    LineWidth,
    PropertyValue,
    Declaration,
    Comma,
    CloseParen,
    EndOfInput,
}

/// The token bridge could not match any alternative of a grammar.
///
/// `position` is the furthest token index reached; `expected` names the
/// grammar whose alternatives were tried there.
#[derive(Clone, Copy, Debug, PartialEq, Eq, Structural)]
pub struct ParseFailure {
    pub position: usize,
    pub expected: Expected,
}

/// Any failure this crate reports: the four-way taxonomy of value errors,
/// unknown property names, parse failures and unit mismatches.
#[derive(Clone, Copy, Debug, PartialEq, Eq, Structural)]
pub enum CssError {
    /// A constructor's invariant was violated.
    Value(ValueError),
    /// A property name has no registry entry.
    UnknownProperty,
    /// No grammar alternative matched the token sequence.
    Parse(ParseFailure),
    /// A dimensioned value's unit does not belong to the expected family.
    UnitMismatch,
}

} // verus!
