//! Closed unit enumerations for each dimension family, and the fixed-ratio
//! conversion tables between compatible units.
//!
//! Each family (length, angle, time, frequency, resolution) is its own type,
//! so a dimensioned value can never carry a unit of the wrong family.  The
//! convertible units of a family are related by the specification's exact
//! ratios (1in = 96px = 2.54cm = 6pc = 72pt, 1s = 1000ms, 1kHz = 1000Hz,
//! 1dpcm = 2.54dpi, 1dppx = 96dpi, 360deg = 400grad = 1turn); the ratio a
//! conversion applies is exact, never silently rounded.

use vstd::prelude::*;

verus! {

/// Units of the CSS `<length>` type.
#[derive(Clone, Copy, Debug, PartialEq, Eq, Structural)]
pub enum LengthUnit {
    /// Advance measure of the glyph "0" in the element's font.
    Ch,
    /// The element's computed font size.
    Em,
    /// The x-height of the element's font.
    Ex,
    /// The root element's font size.
    Rem,
    /// 1% of the viewport's height.
    Vh,
    /// 1% of the viewport's width.
    Vw,
    /// The smaller of `Vw` and `Vh`.
    Vmin,
    /// The larger of `Vw` and `Vh`.
    Vmax,
    /// One pixel; 1px = 1/96th of 1in.
    Px,
    /// One centimeter; 1cm = 96px/2.54.
    Cm,
    /// One millimeter; 1mm = 1/10th of 1cm.
    Mm,
    /// One inch; 1in = 2.54cm = 96px.
    In,
    /// One pica; 1pc = 12pt = 1/6th of 1in.
    Pc,
    /// One point; 1pt = 1/72nd of 1in.
    Pt,
}

/// Units of the CSS `<angle>` type; the angle is clockwise.
#[derive(Clone, Copy, Debug, PartialEq, Eq, Structural)]
pub enum AngleUnit {
    /// Degrees: one full circle is 360deg.
    Deg,
    /// Gradians: one full circle is 400grad.
    Grad,
    /// Radians: one full circle is 2 pi radians.
    Rad,
    /// Turns: one full circle is 1turn.
    Turn,
}

/// Units of the CSS `<time>` type.
#[derive(Clone, Copy, Debug, PartialEq, Eq, Structural)]
pub enum TimeUnit {
    /// Seconds.
    S,
    /// Milliseconds.
    Ms,
}

/// Units of the CSS `<frequency>` type.
#[derive(Clone, Copy, Debug, PartialEq, Eq, Structural)]
pub enum FrequencyUnit {
    /// Hertz.
    Hz,
    /// Kilohertz.
    KHz,
}

/// Units of the CSS `<resolution>` type.
#[derive(Clone, Copy, Debug, PartialEq, Eq, Structural)]
pub enum ResolutionUnit {
    /// Dots per inch.
    Dpi,
    /// Dots per centimeter; 1in = 2.54cm.
    DpCm,
    /// Dots per px unit; 1dppx = 96dpi.
    DpPx,
}

/// A unit of any dimension family carried by a generic [`crate::data_types::Dimension`].
#[derive(Clone, Copy, Debug, PartialEq, Eq, Structural)]
pub enum Unit {
    Length(LengthUnit),
    Angle(AngleUnit),
    Time(TimeUnit),
}

/// Wraps a family unit into the generic [`Unit`].
pub trait IntoUnit: Sized {
    /// The wrapped unit, for contracts.
    spec fn spec_into_unit(self) -> Unit;

    /// Wrap the unit.
    fn into_unit(self) -> (r: Unit)
        ensures
            r == self.spec_into_unit(),
    ;
}

impl IntoUnit for LengthUnit {
    open spec fn spec_into_unit(self) -> Unit {
        Unit::Length(self)
    }

    fn into_unit(self) -> (r: Unit) {
        Unit::Length(self)
    }
}

impl IntoUnit for AngleUnit {
    open spec fn spec_into_unit(self) -> Unit {
        Unit::Angle(self)
    }

    fn into_unit(self) -> (r: Unit) {
        Unit::Angle(self)
    }
}

impl IntoUnit for TimeUnit {
    open spec fn spec_into_unit(self) -> Unit {
        Unit::Time(self)
    }

    fn into_unit(self) -> (r: Unit) {
        Unit::Time(self)
    }
}

/// The exact ratio of one length unit to the pixel: `1 unit = p/q px`.
/// `None` for the font- and viewport-relative units, whose size depends on
/// context and which therefore convert only to themselves.
pub open spec fn spec_length_px_ratio(u: LengthUnit) -> Option<(int, int)> {
    match u {
        LengthUnit::Px => Some((1int, 1int)),
        LengthUnit::Cm => Some((4800int, 127int)),
        LengthUnit::Mm => Some((480int, 127int)),
        LengthUnit::In => Some((96int, 1int)),
        LengthUnit::Pc => Some((16int, 1int)),
        LengthUnit::Pt => Some((4int, 3int)),
        _ => None,
    }
}

/// The exact ratio of one angle unit to the turn: `1 unit = p/q turn`.
/// `None` for radians, whose ratio to a turn is irrational.
pub open spec fn spec_angle_turn_ratio(u: AngleUnit) -> Option<(int, int)> {
    match u {
        AngleUnit::Deg => Some((1int, 360int)),
        AngleUnit::Grad => Some((1int, 400int)),
        AngleUnit::Rad => None,
        AngleUnit::Turn => Some((1int, 1int)),
    }
}

/// The exact ratio of one time unit to the millisecond.
pub open spec fn spec_time_ms_ratio(u: TimeUnit) -> Option<(int, int)> {
    match u {
        TimeUnit::S => Some((1000int, 1int)),
        TimeUnit::Ms => Some((1int, 1int)),
    }
}

/// The exact ratio of one frequency unit to the hertz.
pub open spec fn spec_frequency_hz_ratio(u: FrequencyUnit) -> Option<(int, int)> {
    match u {
        FrequencyUnit::Hz => Some((1int, 1int)),
        FrequencyUnit::KHz => Some((1000int, 1int)),
    }
}

/// The exact ratio of one resolution unit to dots per inch.
pub open spec fn spec_resolution_dpi_ratio(u: ResolutionUnit) -> Option<(int, int)> {
    match u {
        ResolutionUnit::Dpi => Some((1int, 1int)),
        ResolutionUnit::DpCm => Some((127int, 50int)),
        ResolutionUnit::DpPx => Some((96int, 1int)),
    }
}

/// Every ratio in the tables is positive and small.
pub proof fn lemma_ratio_tables_bounded()
    ensures
        forall|u: LengthUnit|
            (#[trigger] spec_length_px_ratio(u)) matches Some(r) ==> 1 <= r.0 <= 10000 && 1
                <= r.1 <= 10000,
        forall|u: AngleUnit|
            (#[trigger] spec_angle_turn_ratio(u)) matches Some(r) ==> 1 <= r.0 <= 10000 && 1
                <= r.1 <= 10000,
        forall|u: TimeUnit|
            (#[trigger] spec_time_ms_ratio(u)) matches Some(r) ==> 1 <= r.0 <= 10000 && 1 <= r.1
                <= 10000,
        forall|u: FrequencyUnit|
            (#[trigger] spec_frequency_hz_ratio(u)) matches Some(r) ==> 1 <= r.0 <= 10000 && 1
                <= r.1 <= 10000,
        forall|u: ResolutionUnit|
            (#[trigger] spec_resolution_dpi_ratio(u)) matches Some(r) ==> 1 <= r.0 <= 10000 && 1
                <= r.1 <= 10000,
{
}

/// The length ratio table, executable.
pub fn length_px_ratio(u: LengthUnit) -> (r: Option<(i64, i64)>)
    ensures
        match r {
            Some(p) => spec_length_px_ratio(u) == Some((p.0 as int, p.1 as int)),
            None => spec_length_px_ratio(u) is None,
        },
{
    match u {
        LengthUnit::Px => Some((1, 1)),
        LengthUnit::Cm => Some((4800, 127)),
        LengthUnit::Mm => Some((480, 127)),
        LengthUnit::In => Some((96, 1)),
        LengthUnit::Pc => Some((16, 1)),
        LengthUnit::Pt => Some((4, 3)),
        _ => None,
    }
}

/// The angle ratio table, executable.
pub fn angle_turn_ratio(u: AngleUnit) -> (r: Option<(i64, i64)>)
    ensures
        match r {
            Some(p) => spec_angle_turn_ratio(u) == Some((p.0 as int, p.1 as int)),
            None => spec_angle_turn_ratio(u) is None,
        },
{
    match u {
        AngleUnit::Deg => Some((1, 360)),
        AngleUnit::Grad => Some((1, 400)),
        AngleUnit::Rad => None,
        AngleUnit::Turn => Some((1, 1)),
    }
}

/// The time ratio table, executable.
pub fn time_ms_ratio(u: TimeUnit) -> (r: Option<(i64, i64)>)
    ensures
        match r {
            Some(p) => spec_time_ms_ratio(u) == Some((p.0 as int, p.1 as int)),
            None => spec_time_ms_ratio(u) is None,
        },
{
    match u {
        TimeUnit::S => Some((1000, 1)),
        TimeUnit::Ms => Some((1, 1)),
    }
}

/// The frequency ratio table, executable.
pub fn frequency_hz_ratio(u: FrequencyUnit) -> (r: Option<(i64, i64)>)
    ensures
        match r {
            Some(p) => spec_frequency_hz_ratio(u) == Some((p.0 as int, p.1 as int)),
            None => spec_frequency_hz_ratio(u) is None,
        },
{
    match u {
        FrequencyUnit::Hz => Some((1, 1)),
        FrequencyUnit::KHz => Some((1000, 1)),
    }
}

/// The resolution ratio table, executable.
pub fn resolution_dpi_ratio(u: ResolutionUnit) -> (r: Option<(i64, i64)>)
    ensures
        match r {
            Some(p) => spec_resolution_dpi_ratio(u) == Some((p.0 as int, p.1 as int)),
            None => spec_resolution_dpi_ratio(u) is None,
        },
{
    match u {
        ResolutionUnit::Dpi => Some((1, 1)),
        ResolutionUnit::DpCm => Some((127, 50)),
        ResolutionUnit::DpPx => Some((96, 1)),
    }
}

} // verus!
