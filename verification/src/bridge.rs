//! Parsers and serializers for the primitive and combination data types.
//!
//! Each type has a spec-level parser (`spec_parse_*`), a spec-level token
//! form (`spec_*_tokens`), an executable parser proved to match the spec
//! parser exactly, an executable serializer proved to emit the spec token
//! form, and a round-trip law: parsing the serialized form yields the
//! value itself.

use vstd::prelude::*;

use crate::data_types::{
    Alpha, Angle, Color, Gradient, Image, ImageView, Length, LengthPercentage, LineStyle,
    LineWidth, Number, Percentage, PositiveLength, RadialGradientShape, Time, Url, WidthValue,
};
use crate::errors::{Expected, ParseFailure};
use crate::parser::{step_matches, step_matches_view, ParseStep};
use crate::scalar::Scalar;
use crate::tokens::{lemma_skip_ws_bounds, skip_ws, skip_ws_at, str_eq, views, Tok, Token};
use crate::units::{AngleUnit, LengthUnit, TimeUnit};

verus! {

// ------------------------------------------------------------------
// Unit names
// ------------------------------------------------------------------
/// The canonical spelling of a length unit.
pub open spec fn spec_length_unit_name(u: LengthUnit) -> Seq<char> {
    match u {
        LengthUnit::Ch => "ch"@,
        LengthUnit::Em => "em"@,
        LengthUnit::Ex => "ex"@,
        LengthUnit::Rem => "rem"@,
        LengthUnit::Vh => "vh"@,
        LengthUnit::Vw => "vw"@,
        LengthUnit::Vmin => "vmin"@,
        LengthUnit::Vmax => "vmax"@,
        LengthUnit::Px => "px"@,
        LengthUnit::Cm => "cm"@,
        LengthUnit::Mm => "mm"@,
        LengthUnit::In => "in"@,
        LengthUnit::Pc => "pc"@,
        LengthUnit::Pt => "pt"@,
    }
}

/// The canonical spelling, executable.
pub fn length_unit_name(u: LengthUnit) -> (r: &'static str)
    ensures
        r@ == spec_length_unit_name(u),
{
    match u {
        LengthUnit::Ch => "ch",
        LengthUnit::Em => "em",
        LengthUnit::Ex => "ex",
        LengthUnit::Rem => "rem",
        LengthUnit::Vh => "vh",
        LengthUnit::Vw => "vw",
        LengthUnit::Vmin => "vmin",
        LengthUnit::Vmax => "vmax",
        LengthUnit::Px => "px",
        LengthUnit::Cm => "cm",
        LengthUnit::Mm => "mm",
        LengthUnit::In => "in",
        LengthUnit::Pc => "pc",
        LengthUnit::Pt => "pt",
    }
}

/// The length unit a unit string names, if any.
pub open spec fn spec_length_unit_from_name(s: Seq<char>) -> Option<LengthUnit> {
    if s == "ch"@ {
        Some(LengthUnit::Ch)
    } else if s == "em"@ {
        Some(LengthUnit::Em)
    } else if s == "ex"@ {
        Some(LengthUnit::Ex)
    } else if s == "rem"@ {
        Some(LengthUnit::Rem)
    } else if s == "vh"@ {
        Some(LengthUnit::Vh)
    } else if s == "vw"@ {
        Some(LengthUnit::Vw)
    } else if s == "vmin"@ {
        Some(LengthUnit::Vmin)
    } else if s == "vmax"@ {
        Some(LengthUnit::Vmax)
    } else if s == "px"@ {
        Some(LengthUnit::Px)
    } else if s == "cm"@ {
        Some(LengthUnit::Cm)
    } else if s == "mm"@ {
        Some(LengthUnit::Mm)
    } else if s == "in"@ {
        Some(LengthUnit::In)
    } else if s == "pc"@ {
        Some(LengthUnit::Pc)
    } else if s == "pt"@ {
        Some(LengthUnit::Pt)
    } else {
        None
    }
}

/// The unit-string dispatch, executable.
pub fn length_unit_from_name(s: &str) -> (r: Option<LengthUnit>)
    ensures
        r == spec_length_unit_from_name(s@),
{
    if str_eq(s, "ch") {
        Some(LengthUnit::Ch)
    } else if str_eq(s, "em") {
        Some(LengthUnit::Em)
    } else if str_eq(s, "ex") {
        Some(LengthUnit::Ex)
    } else if str_eq(s, "rem") {
        Some(LengthUnit::Rem)
    } else if str_eq(s, "vh") {
        Some(LengthUnit::Vh)
    } else if str_eq(s, "vw") {
        Some(LengthUnit::Vw)
    } else if str_eq(s, "vmin") {
        Some(LengthUnit::Vmin)
    } else if str_eq(s, "vmax") {
        Some(LengthUnit::Vmax)
    } else if str_eq(s, "px") {
        Some(LengthUnit::Px)
    } else if str_eq(s, "cm") {
        Some(LengthUnit::Cm)
    } else if str_eq(s, "mm") {
        Some(LengthUnit::Mm)
    } else if str_eq(s, "in") {
        Some(LengthUnit::In)
    } else if str_eq(s, "pc") {
        Some(LengthUnit::Pc)
    } else if str_eq(s, "pt") {
        Some(LengthUnit::Pt)
    } else {
        None
    }
}

/// Two different length units never share a spelling.
proof fn lemma_length_unit_names_distinct(u: LengthUnit, v: LengthUnit)
    ensures
        u != v ==> spec_length_unit_name(u) != spec_length_unit_name(v),
{
    reveal_strlit("ch");
    reveal_strlit("em");
    reveal_strlit("ex");
    reveal_strlit("rem");
    reveal_strlit("vh");
    reveal_strlit("vw");
    reveal_strlit("vmin");
    reveal_strlit("vmax");
    reveal_strlit("px");
    reveal_strlit("cm");
    reveal_strlit("mm");
    reveal_strlit("in");
    reveal_strlit("pc");
    reveal_strlit("pt");
    let a = spec_length_unit_name(u);
    let b = spec_length_unit_name(v);
    if u != v && a == b {
        assert(a.len() == b.len() && a[0] == b[0] && a[1] == b[1] && a[2] == b[2] && a[3] == b[3]);
        assert(false);
    }
}

/// A unit's canonical spelling maps back to the unit.
pub proof fn lemma_length_unit_name_round_trip(u: LengthUnit)
    ensures
        spec_length_unit_from_name(spec_length_unit_name(u)) == Some(u),
{
    lemma_length_unit_names_distinct(u, LengthUnit::Ch);
    lemma_length_unit_names_distinct(u, LengthUnit::Em);
    lemma_length_unit_names_distinct(u, LengthUnit::Ex);
    lemma_length_unit_names_distinct(u, LengthUnit::Rem);
    lemma_length_unit_names_distinct(u, LengthUnit::Vh);
    lemma_length_unit_names_distinct(u, LengthUnit::Vw);
    lemma_length_unit_names_distinct(u, LengthUnit::Vmin);
    lemma_length_unit_names_distinct(u, LengthUnit::Vmax);
    lemma_length_unit_names_distinct(u, LengthUnit::Px);
    lemma_length_unit_names_distinct(u, LengthUnit::Cm);
    lemma_length_unit_names_distinct(u, LengthUnit::Mm);
    lemma_length_unit_names_distinct(u, LengthUnit::In);
    lemma_length_unit_names_distinct(u, LengthUnit::Pc);
    lemma_length_unit_names_distinct(u, LengthUnit::Pt);
}

// ------------------------------------------------------------------
// Numeric atoms
// ------------------------------------------------------------------
/// Grammar `<number>`: a single number token.
pub open spec fn spec_parse_number(s: Seq<Tok>, i: int) -> ParseStep<Number> {
    let j = skip_ws(s, i);
    if j < s.len() && s[j] is Number {
        ParseStep::Done(Number(s[j]->Number_0), j + 1)
    } else {
        ParseStep::Fail(j, Expected::Number)
    }
}

/// Parse a `<number>`.
pub fn parse_number(toks: &Vec<Token>, i: usize) -> (r: Result<(Number, usize), ParseFailure>)
    requires
        i <= toks@.len(),
    ensures
        step_matches(spec_parse_number(views(toks@), i as int), r),
{
    let j = skip_ws_at(toks, i);
    if j < toks.len() {
        match &toks[j] {
            Token::Number(m) => Ok((Number(*m), j + 1)),
            _ => Err(ParseFailure { position: j, expected: Expected::Number }),
        }
    } else {
        Err(ParseFailure { position: j, expected: Expected::Number })
    }
}

/// The token form of a `<number>`.
pub open spec fn spec_number_tokens(v: Number) -> Seq<Tok> {
    seq![Tok::Number(v.0)]
}

/// Serialize a `<number>`, appending to `out`.
pub fn write_number_tokens(v: &Number, out: &mut Vec<Token>)
    ensures
        views(final(out)@) == views(old(out)@) + spec_number_tokens(*v),
{
    out.push(Token::Number(v.0));
    proof {
        assert(views(out@) =~= views(old(out)@) + spec_number_tokens(*v));
    }
}

/// Law: a serialized `<number>` parses back to the same value.
pub proof fn lemma_number_round_trip(v: Number)
    ensures
        spec_parse_number(spec_number_tokens(v), 0) == ParseStep::Done(
            v,
            spec_number_tokens(v).len() as int,
        ),
{
}

/// Grammar `<percentage>`: a single percentage token; the raw number is
/// stored (`50%` stores 50).
pub open spec fn spec_parse_percentage(s: Seq<Tok>, i: int) -> ParseStep<Percentage> {
    let j = skip_ws(s, i);
    if j < s.len() && s[j] is Percentage {
        ParseStep::Done(Percentage(Number(s[j]->Percentage_0)), j + 1)
    } else {
        ParseStep::Fail(j, Expected::Percentage)
    }
}

/// Parse a `<percentage>`.
pub fn parse_percentage(toks: &Vec<Token>, i: usize) -> (r: Result<
    (Percentage, usize),
    ParseFailure,
>)
    requires
        i <= toks@.len(),
    ensures
        step_matches(spec_parse_percentage(views(toks@), i as int), r),
{
    let j = skip_ws_at(toks, i);
    if j < toks.len() {
        match &toks[j] {
            Token::Percentage(m) => Ok((Percentage(Number(*m)), j + 1)),
            _ => Err(ParseFailure { position: j, expected: Expected::Percentage }),
        }
    } else {
        Err(ParseFailure { position: j, expected: Expected::Percentage })
    }
}

/// The token form of a `<percentage>`.
pub open spec fn spec_percentage_tokens(v: Percentage) -> Seq<Tok> {
    seq![Tok::Percentage(v.0.0)]
}

/// Serialize a `<percentage>`, appending to `out`.
pub fn write_percentage_tokens(v: &Percentage, out: &mut Vec<Token>)
    ensures
        views(final(out)@) == views(old(out)@) + spec_percentage_tokens(*v),
{
    out.push(Token::Percentage(v.0.0));
    proof {
        assert(views(out@) =~= views(old(out)@) + spec_percentage_tokens(*v));
    }
}

/// Law: a serialized `<percentage>` parses back to the same value.
pub proof fn lemma_percentage_round_trip(v: Percentage)
    ensures
        spec_parse_percentage(spec_percentage_tokens(v), 0) == ParseStep::Done(
            v,
            spec_percentage_tokens(v).len() as int,
        ),
{
}

// ------------------------------------------------------------------
// Lengths
// ------------------------------------------------------------------
/// Grammar `<length>`: a dimension token whose unit string names a length
/// unit.
pub open spec fn spec_parse_length(s: Seq<Tok>, i: int) -> ParseStep<Length> {
    let j = skip_ws(s, i);
    if j < s.len() && s[j] is Dimension {
        match spec_length_unit_from_name(s[j]->Dimension_1) {
            Some(u) => ParseStep::Done(Length(s[j]->Dimension_0, u), j + 1),
            None => ParseStep::Fail(j, Expected::Length),
        }
    } else {
        ParseStep::Fail(j, Expected::Length)
    }
}

/// Parse a `<length>`.
pub fn parse_length(toks: &Vec<Token>, i: usize) -> (r: Result<(Length, usize), ParseFailure>)
    requires
        i <= toks@.len(),
    ensures
        step_matches(spec_parse_length(views(toks@), i as int), r),
{
    let j = skip_ws_at(toks, i);
    if j < toks.len() {
        match &toks[j] {
            Token::Dimension(m, uname) => match length_unit_from_name(uname.as_str()) {
                Some(u) => Ok((Length(*m, u), j + 1)),
                None => Err(ParseFailure { position: j, expected: Expected::Length }),
            },
            _ => Err(ParseFailure { position: j, expected: Expected::Length }),
        }
    } else {
        Err(ParseFailure { position: j, expected: Expected::Length })
    }
}

/// The token form of a `<length>`.
pub open spec fn spec_length_tokens(v: Length) -> Seq<Tok> {
    seq![Tok::Dimension(v.0, spec_length_unit_name(v.1))]
}

/// Serialize a `<length>`, appending to `out`.
pub fn write_length_tokens(v: &Length, out: &mut Vec<Token>)
    ensures
        views(final(out)@) == views(old(out)@) + spec_length_tokens(*v),
{
    let name = length_unit_name(v.1);
    out.push(Token::Dimension(v.0, String::from_str(name)));
    proof {
        assert(views(out@) =~= views(old(out)@) + spec_length_tokens(*v));
    }
}

/// Law: a serialized `<length>` parses back to the same value.
pub proof fn lemma_length_round_trip(v: Length)
    ensures
        spec_parse_length(spec_length_tokens(v), 0) == ParseStep::Done(
            v,
            spec_length_tokens(v).len() as int,
        ),
{
    lemma_length_unit_name_round_trip(v.1);
}

// ------------------------------------------------------------------
// Angles
// ------------------------------------------------------------------
/// The canonical spelling of an angle unit.
pub open spec fn spec_angle_unit_name(u: AngleUnit) -> Seq<char> {
    match u {
        AngleUnit::Deg => "deg"@,
        AngleUnit::Grad => "grad"@,
        AngleUnit::Rad => "rad"@,
        AngleUnit::Turn => "turn"@,
    }
}

/// The canonical spelling, executable.
pub fn angle_unit_name(u: AngleUnit) -> (r: &'static str)
    ensures
        r@ == spec_angle_unit_name(u),
{
    match u {
        AngleUnit::Deg => "deg",
        AngleUnit::Grad => "grad",
        AngleUnit::Rad => "rad",
        AngleUnit::Turn => "turn",
    }
}

/// The angle unit a unit string names, if any.
pub open spec fn spec_angle_unit_from_name(s: Seq<char>) -> Option<AngleUnit> {
    if s == "deg"@ {
        Some(AngleUnit::Deg)
    } else if s == "grad"@ {
        Some(AngleUnit::Grad)
    } else if s == "rad"@ {
        Some(AngleUnit::Rad)
    } else if s == "turn"@ {
        Some(AngleUnit::Turn)
    } else {
        None
    }
}

/// The unit-string dispatch, executable.
pub fn angle_unit_from_name(s: &str) -> (r: Option<AngleUnit>)
    ensures
        r == spec_angle_unit_from_name(s@),
{
    if str_eq(s, "deg") {
        Some(AngleUnit::Deg)
    } else if str_eq(s, "grad") {
        Some(AngleUnit::Grad)
    } else if str_eq(s, "rad") {
        Some(AngleUnit::Rad)
    } else if str_eq(s, "turn") {
        Some(AngleUnit::Turn)
    } else {
        None
    }
}

/// Two different angle units never share a spelling.
proof fn lemma_angle_unit_names_distinct(u: AngleUnit, v: AngleUnit)
    ensures
        u != v ==> spec_angle_unit_name(u) != spec_angle_unit_name(v),
{
    reveal_strlit("deg");
    reveal_strlit("grad");
    reveal_strlit("rad");
    reveal_strlit("turn");
    let a = spec_angle_unit_name(u);
    let b = spec_angle_unit_name(v);
    if u != v && a == b {
        assert(a.len() == b.len() && a[0] == b[0] && a[1] == b[1] && a[2] == b[2] && a[3] == b[3]);
        assert(false);
    }
}

/// A unit's canonical spelling maps back to the unit.
pub proof fn lemma_angle_unit_name_round_trip(u: AngleUnit)
    ensures
        spec_angle_unit_from_name(spec_angle_unit_name(u)) == Some(u),
{
    lemma_angle_unit_names_distinct(u, AngleUnit::Deg);
    lemma_angle_unit_names_distinct(u, AngleUnit::Grad);
    lemma_angle_unit_names_distinct(u, AngleUnit::Rad);
    lemma_angle_unit_names_distinct(u, AngleUnit::Turn);
}

/// Grammar `<angle>`: a dimension token whose unit string names an angle
/// unit.
pub open spec fn spec_parse_angle(s: Seq<Tok>, i: int) -> ParseStep<Angle> {
    let j = skip_ws(s, i);
    if j < s.len() && s[j] is Dimension {
        match spec_angle_unit_from_name(s[j]->Dimension_1) {
            Some(u) => ParseStep::Done(Angle(s[j]->Dimension_0, u), j + 1),
            None => ParseStep::Fail(j, Expected::Angle),
        }
    } else {
        ParseStep::Fail(j, Expected::Angle)
    }
}

/// Parse an `<angle>`.
pub fn parse_angle(toks: &Vec<Token>, i: usize) -> (r: Result<(Angle, usize), ParseFailure>)
    requires
        i <= toks@.len(),
    ensures
        step_matches(spec_parse_angle(views(toks@), i as int), r),
{
    let j = skip_ws_at(toks, i);
    if j < toks.len() {
        match &toks[j] {
            Token::Dimension(m, uname) => match angle_unit_from_name(uname.as_str()) {
                Some(u) => Ok((Angle(*m, u), j + 1)),
                None => Err(ParseFailure { position: j, expected: Expected::Angle }),
            },
            _ => Err(ParseFailure { position: j, expected: Expected::Angle }),
        }
    } else {
        Err(ParseFailure { position: j, expected: Expected::Angle })
    }
}

/// The token form of an `<angle>`.
pub open spec fn spec_angle_tokens(v: Angle) -> Seq<Tok> {
    seq![Tok::Dimension(v.0, spec_angle_unit_name(v.1))]
}

/// Serialize an `<angle>`, appending to `out`.
pub fn write_angle_tokens(v: &Angle, out: &mut Vec<Token>)
    ensures
        views(final(out)@) == views(old(out)@) + spec_angle_tokens(*v),
{
    let name = angle_unit_name(v.1);
    out.push(Token::Dimension(v.0, String::from_str(name)));
    proof {
        assert(views(out@) =~= views(old(out)@) + spec_angle_tokens(*v));
    }
}

/// Law: a serialized `<angle>` parses back to the same value.
pub proof fn lemma_angle_round_trip(v: Angle)
    ensures
        spec_parse_angle(spec_angle_tokens(v), 0) == ParseStep::Done(
            v,
            spec_angle_tokens(v).len() as int,
        ),
{
    lemma_angle_unit_name_round_trip(v.1);
}

// ------------------------------------------------------------------
// Times
// ------------------------------------------------------------------
/// The canonical spelling of a time unit.
pub open spec fn spec_time_unit_name(u: TimeUnit) -> Seq<char> {
    match u {
        TimeUnit::S => "s"@,
        TimeUnit::Ms => "ms"@,
    }
}

/// The canonical spelling, executable.
pub fn time_unit_name(u: TimeUnit) -> (r: &'static str)
    ensures
        r@ == spec_time_unit_name(u),
{
    match u {
        TimeUnit::S => "s",
        TimeUnit::Ms => "ms",
    }
}

/// The time unit a unit string names, if any.
pub open spec fn spec_time_unit_from_name(s: Seq<char>) -> Option<TimeUnit> {
    if s == "s"@ {
        Some(TimeUnit::S)
    } else if s == "ms"@ {
        Some(TimeUnit::Ms)
    } else {
        None
    }
}

/// The unit-string dispatch, executable.
pub fn time_unit_from_name(s: &str) -> (r: Option<TimeUnit>)
    ensures
        r == spec_time_unit_from_name(s@),
{
    if str_eq(s, "s") {
        Some(TimeUnit::S)
    } else if str_eq(s, "ms") {
        Some(TimeUnit::Ms)
    } else {
        None
    }
}

/// The two time unit spellings differ.
proof fn lemma_time_unit_names_distinct(u: TimeUnit, v: TimeUnit)
    ensures
        u != v ==> spec_time_unit_name(u) != spec_time_unit_name(v),
{
    reveal_strlit("s");
    reveal_strlit("ms");
    let a = spec_time_unit_name(u);
    let b = spec_time_unit_name(v);
    if u != v && a == b {
        assert(a.len() == b.len());
        assert(false);
    }
}

/// A unit's canonical spelling maps back to the unit.
pub proof fn lemma_time_unit_name_round_trip(u: TimeUnit)
    ensures
        spec_time_unit_from_name(spec_time_unit_name(u)) == Some(u),
{
    lemma_time_unit_names_distinct(u, TimeUnit::S);
    lemma_time_unit_names_distinct(u, TimeUnit::Ms);
}

/// Grammar `<time>`: a dimension token whose unit string names a time
/// unit.
pub open spec fn spec_parse_time(s: Seq<Tok>, i: int) -> ParseStep<Time> {
    let j = skip_ws(s, i);
    if j < s.len() && s[j] is Dimension {
        match spec_time_unit_from_name(s[j]->Dimension_1) {
            Some(u) => ParseStep::Done(Time(s[j]->Dimension_0, u), j + 1),
            None => ParseStep::Fail(j, Expected::Time),
        }
    } else {
        ParseStep::Fail(j, Expected::Time)
    }
}

/// Parse a `<time>`.
pub fn parse_time(toks: &Vec<Token>, i: usize) -> (r: Result<(Time, usize), ParseFailure>)
    requires
        i <= toks@.len(),
    ensures
        step_matches(spec_parse_time(views(toks@), i as int), r),
{
    let j = skip_ws_at(toks, i);
    if j < toks.len() {
        match &toks[j] {
            Token::Dimension(m, uname) => match time_unit_from_name(uname.as_str()) {
                Some(u) => Ok((Time(*m, u), j + 1)),
                None => Err(ParseFailure { position: j, expected: Expected::Time }),
            },
            _ => Err(ParseFailure { position: j, expected: Expected::Time }),
        }
    } else {
        Err(ParseFailure { position: j, expected: Expected::Time })
    }
}

/// The token form of a `<time>`.
pub open spec fn spec_time_tokens(v: Time) -> Seq<Tok> {
    seq![Tok::Dimension(v.0, spec_time_unit_name(v.1))]
}

/// Serialize a `<time>`, appending to `out`.
pub fn write_time_tokens(v: &Time, out: &mut Vec<Token>)
    ensures
        views(final(out)@) == views(old(out)@) + spec_time_tokens(*v),
{
    let name = time_unit_name(v.1);
    out.push(Token::Dimension(v.0, String::from_str(name)));
    proof {
        assert(views(out@) =~= views(old(out)@) + spec_time_tokens(*v));
    }
}

/// Law: a serialized `<time>` parses back to the same value.
pub proof fn lemma_time_round_trip(v: Time)
    ensures
        spec_parse_time(spec_time_tokens(v), 0) == ParseStep::Done(
            v,
            spec_time_tokens(v).len() as int,
        ),
{
    lemma_time_unit_name_round_trip(v.1);
}

// ------------------------------------------------------------------
// Length-percentage: the canonical two-alternative grammar
// ------------------------------------------------------------------
/// Grammar `<length-percentage>`: a length, else a percentage; the
/// alternatives are tried in that order with backtracking.
pub open spec fn spec_parse_length_percentage(s: Seq<Tok>, i: int) -> ParseStep<LengthPercentage> {
    match spec_parse_length(s, i) {
        ParseStep::Done(l, j) => ParseStep::Done(LengthPercentage::Length(l), j),
        ParseStep::Fail(_, _) => match spec_parse_percentage(s, i) {
            ParseStep::Done(p, j) => ParseStep::Done(LengthPercentage::Percentage(p), j),
            ParseStep::Fail(at, _) => ParseStep::Fail(at, Expected::LengthPercentage),
        },
    }
}

/// Parse a `<length-percentage>`.
pub fn parse_length_percentage(toks: &Vec<Token>, i: usize) -> (r: Result<
    (LengthPercentage, usize),
    ParseFailure,
>)
    requires
        i <= toks@.len(),
    ensures
        step_matches(spec_parse_length_percentage(views(toks@), i as int), r),
{
    match parse_length(toks, i) {
        Ok((l, j)) => Ok((LengthPercentage::Length(l), j)),
        Err(_) => match parse_percentage(toks, i) {
            Ok((p, j)) => Ok((LengthPercentage::Percentage(p), j)),
            Err(f) => Err(
                ParseFailure { position: f.position, expected: Expected::LengthPercentage },
            ),
        },
    }
}

/// The token form of a `<length-percentage>`.
pub open spec fn spec_length_percentage_tokens(v: LengthPercentage) -> Seq<Tok> {
    match v {
        LengthPercentage::Length(l) => spec_length_tokens(l),
        LengthPercentage::Percentage(p) => spec_percentage_tokens(p),
    }
}

/// Serialize a `<length-percentage>`, appending to `out`.
pub fn write_length_percentage_tokens(v: &LengthPercentage, out: &mut Vec<Token>)
    ensures
        views(final(out)@) == views(old(out)@) + spec_length_percentage_tokens(*v),
{
    match v {
        LengthPercentage::Length(l) => write_length_tokens(l, out),
        LengthPercentage::Percentage(p) => write_percentage_tokens(p, out),
    }
}

/// Law: a serialized `<length-percentage>` parses back to the same value.
/// A length alternative is matched by the length branch; a percentage
/// token can never match the length branch, so the order of alternatives
/// loses nothing.
pub proof fn lemma_length_percentage_round_trip(v: LengthPercentage)
    ensures
        spec_parse_length_percentage(spec_length_percentage_tokens(v), 0) == ParseStep::Done(
            v,
            spec_length_percentage_tokens(v).len() as int,
        ),
{
    match v {
        LengthPercentage::Length(l) => {
            lemma_length_round_trip(l);
        },
        LengthPercentage::Percentage(p) => {
            lemma_percentage_round_trip(p);
        },
    }
}

// ------------------------------------------------------------------
// Parsing serialized forms at any cursor position
// ------------------------------------------------------------------
/// A serialized `<length>` embedded at position `i` parses from there.
pub proof fn lemma_length_parses_at(v: Length, s: Seq<Tok>, i: int)
    requires
        0 <= i,
        i + spec_length_tokens(v).len() <= s.len(),
        s.subrange(i, i + spec_length_tokens(v).len() as int) == spec_length_tokens(v),
    ensures
        spec_parse_length(s, i) == ParseStep::Done(v, i + spec_length_tokens(v).len()),
{
    assert(s[i] == spec_length_tokens(v)[0]);
    lemma_length_unit_name_round_trip(v.1);
}

/// A serialized `<percentage>` embedded at position `i` parses from there.
pub proof fn lemma_percentage_parses_at(v: Percentage, s: Seq<Tok>, i: int)
    requires
        0 <= i,
        i + spec_percentage_tokens(v).len() <= s.len(),
        s.subrange(i, i + spec_percentage_tokens(v).len() as int) == spec_percentage_tokens(v),
    ensures
        spec_parse_percentage(s, i) == ParseStep::Done(v, i + spec_percentage_tokens(v).len()),
{
    assert(s[i] == spec_percentage_tokens(v)[0]);
}

/// A serialized `<length-percentage>` embedded at position `i` parses from
/// there.
pub proof fn lemma_length_percentage_parses_at(v: LengthPercentage, s: Seq<Tok>, i: int)
    requires
        0 <= i,
        i + spec_length_percentage_tokens(v).len() <= s.len(),
        s.subrange(i, i + spec_length_percentage_tokens(v).len() as int)
            == spec_length_percentage_tokens(v),
    ensures
        spec_parse_length_percentage(s, i) == ParseStep::Done(
            v,
            i + spec_length_percentage_tokens(v).len(),
        ),
{
    match v {
        LengthPercentage::Length(l) => {
            lemma_length_parses_at(l, s, i);
        },
        LengthPercentage::Percentage(p) => {
            assert(s[i] == spec_percentage_tokens(p)[0]);
            lemma_percentage_parses_at(p, s, i);
        },
    }
}

// ------------------------------------------------------------------
// Width values: keyword alternatives before the generic fallback
// ------------------------------------------------------------------
/// Grammar for a sizing value: the keyword alternatives `auto`,
/// `max-content` and `min-content` are tried first, then the
/// `fit-content(...)` function, then the generic `<length-percentage>`
/// fallback.  The order is fixed, so `auto` always selects the keyword
/// alternative.
pub open spec fn spec_parse_width_value(s: Seq<Tok>, i: int) -> ParseStep<WidthValue> {
    let j = skip_ws(s, i);
    if j < s.len() && s[j] is Ident {
        let name = s[j]->Ident_0;
        if name == "auto"@ {
            ParseStep::Done(WidthValue::Auto, j + 1)
        } else if name == "max-content"@ {
            ParseStep::Done(WidthValue::MaxContent, j + 1)
        } else if name == "min-content"@ {
            ParseStep::Done(WidthValue::MinContent, j + 1)
        } else {
            ParseStep::Fail(j, Expected::WidthValue)
        }
    } else if j < s.len() && s[j] is FunctionStart {
        if s[j]->FunctionStart_0 == "fit-content"@ {
            match spec_parse_length_percentage(s, j + 1) {
                ParseStep::Done(lp, k) => {
                    let k2 = skip_ws(s, k);
                    if k2 < s.len() && s[k2] is FunctionEnd {
                        ParseStep::Done(WidthValue::FitContent(lp), k2 + 1)
                    } else {
                        ParseStep::Fail(k2, Expected::WidthValue)
                    }
                },
                ParseStep::Fail(at, e) => ParseStep::Fail(at, e),
            }
        } else {
            ParseStep::Fail(j, Expected::WidthValue)
        }
    } else {
        match spec_parse_length(s, i) {
            ParseStep::Done(l, k) => ParseStep::Done(WidthValue::Length(l), k),
            ParseStep::Fail(_, _) => match spec_parse_percentage(s, i) {
                ParseStep::Done(p, k) => ParseStep::Done(WidthValue::Percentage(p), k),
                ParseStep::Fail(at, _) => ParseStep::Fail(at, Expected::WidthValue),
            },
        }
    }
}

/// Parse a sizing value.
pub fn parse_width_value(toks: &Vec<Token>, i: usize) -> (r: Result<
    (WidthValue, usize),
    ParseFailure,
>)
    requires
        i <= toks@.len(),
    ensures
        step_matches(spec_parse_width_value(views(toks@), i as int), r),
{
    let j = skip_ws_at(toks, i);
    if j < toks.len() {
        match &toks[j] {
            Token::Ident(name) => {
                if str_eq(name.as_str(), "auto") {
                    Ok((WidthValue::Auto, j + 1))
                } else if str_eq(name.as_str(), "max-content") {
                    Ok((WidthValue::MaxContent, j + 1))
                } else if str_eq(name.as_str(), "min-content") {
                    Ok((WidthValue::MinContent, j + 1))
                } else {
                    Err(ParseFailure { position: j, expected: Expected::WidthValue })
                }
            },
            Token::FunctionStart(name) => {
                if str_eq(name.as_str(), "fit-content") {
                    match parse_length_percentage(toks, j + 1) {
                        Ok((lp, k)) => {
                            let k2 = skip_ws_at(toks, k);
                            if k2 < toks.len() && matches!(toks[k2], Token::FunctionEnd) {
                                Ok((WidthValue::FitContent(lp), k2 + 1))
                            } else {
                                Err(ParseFailure { position: k2, expected: Expected::WidthValue })
                            }
                        },
                        Err(f) => Err(f),
                    }
                } else {
                    Err(ParseFailure { position: j, expected: Expected::WidthValue })
                }
            },
            _ => parse_width_value_fallback(toks, i, j),
        }
    } else {
        parse_width_value_fallback(toks, i, j)
    }
}

/// The `<length-percentage>` fallback of the sizing grammar.
fn parse_width_value_fallback(toks: &Vec<Token>, i: usize, j: usize) -> (r: Result<
    (WidthValue, usize),
    ParseFailure,
>)
    requires
        i <= toks@.len(),
        j == skip_ws(views(toks@), i as int),
        j < toks@.len() ==> !(views(toks@)[j as int] is Ident) && !(views(toks@)[j as int]
            is FunctionStart),
    ensures
        step_matches(spec_parse_width_value(views(toks@), i as int), r),
{
    match parse_length(toks, i) {
        Ok((l, k)) => Ok((WidthValue::Length(l), k)),
        Err(_) => match parse_percentage(toks, i) {
            Ok((p, k)) => Ok((WidthValue::Percentage(p), k)),
            Err(f) => Err(ParseFailure { position: f.position, expected: Expected::WidthValue }),
        },
    }
}

/// The token form of a sizing value.
pub open spec fn spec_width_value_tokens(v: WidthValue) -> Seq<Tok> {
    match v {
        WidthValue::Auto => seq![Tok::Ident("auto"@)],
        WidthValue::MaxContent => seq![Tok::Ident("max-content"@)],
        WidthValue::MinContent => seq![Tok::Ident("min-content"@)],
        WidthValue::Length(l) => spec_length_tokens(l),
        WidthValue::Percentage(p) => spec_percentage_tokens(p),
        WidthValue::FitContent(lp) => seq![Tok::FunctionStart("fit-content"@)]
            + spec_length_percentage_tokens(lp) + seq![Tok::FunctionEnd],
    }
}

/// Serialize a sizing value, appending to `out`.
pub fn write_width_value_tokens(v: &WidthValue, out: &mut Vec<Token>)
    ensures
        views(final(out)@) == views(old(out)@) + spec_width_value_tokens(*v),
{
    match v {
        WidthValue::Auto => {
            out.push(Token::Ident(String::from_str("auto")));
            proof {
                assert(views(out@) =~= views(old(out)@) + spec_width_value_tokens(*v));
            }
        },
        WidthValue::MaxContent => {
            out.push(Token::Ident(String::from_str("max-content")));
            proof {
                assert(views(out@) =~= views(old(out)@) + spec_width_value_tokens(*v));
            }
        },
        WidthValue::MinContent => {
            out.push(Token::Ident(String::from_str("min-content")));
            proof {
                assert(views(out@) =~= views(old(out)@) + spec_width_value_tokens(*v));
            }
        },
        WidthValue::Length(l) => {
            write_length_tokens(l, out);
        },
        WidthValue::Percentage(p) => {
            write_percentage_tokens(p, out);
        },
        WidthValue::FitContent(lp) => {
            out.push(Token::FunctionStart(String::from_str("fit-content")));
            let ghost mid1 = views(out@);
            proof {
                assert(mid1 =~= views(old(out)@) + seq![Tok::FunctionStart("fit-content"@)]);
            }
            write_length_percentage_tokens(lp, out);
            let ghost mid2 = views(out@);
            out.push(Token::FunctionEnd);
            proof {
                assert(views(out@) =~= mid2 + seq![Tok::FunctionEnd]);
                assert(views(out@) =~= views(old(out)@) + spec_width_value_tokens(*v));
            }
        },
    }
}

/// Law: a serialized sizing value parses back to the same value; in
/// particular the keyword `auto` always selects the `Auto` alternative,
/// never the generic fallback, because the alternatives are tried in a
/// fixed documented order.
pub proof fn lemma_width_value_round_trip(v: WidthValue)
    ensures
        spec_parse_width_value(spec_width_value_tokens(v), 0) == ParseStep::Done(
            v,
            spec_width_value_tokens(v).len() as int,
        ),
{
    reveal_strlit("auto");
    reveal_strlit("max-content");
    reveal_strlit("min-content");
    let s = spec_width_value_tokens(v);
    match v {
        WidthValue::Auto => {
        },
        WidthValue::MaxContent => {
            assert("max-content"@.len() == 11 && "auto"@.len() == 4);
        },
        WidthValue::MinContent => {
            assert("min-content"@.len() == 11 && "auto"@.len() == 4);
            if "min-content"@ == "max-content"@ {
                assert("min-content"@[1] == "max-content"@[1]);
                assert(false);
            }
        },
        WidthValue::Length(l) => {
            lemma_length_round_trip(l);
        },
        WidthValue::Percentage(p) => {
            lemma_percentage_round_trip(p);
        },
        WidthValue::FitContent(lp) => {
            let inner = spec_length_percentage_tokens(lp);
            assert(s[0] == Tok::FunctionStart("fit-content"@));
            assert(s.subrange(1, 1 + inner.len() as int) =~= inner);
            lemma_length_percentage_parses_at(lp, s, 1);
            assert(s[1 + inner.len() as int] == Tok::FunctionEnd);
        },
    }
}

// ------------------------------------------------------------------
// Line styles and widths
// ------------------------------------------------------------------
/// The spelling of a line style keyword.
pub open spec fn spec_line_style_name(v: LineStyle) -> Seq<char> {
    match v {
        LineStyle::NoneKeyword => "none"@,
        LineStyle::Hidden => "hidden"@,
        LineStyle::Dotted => "dotted"@,
        LineStyle::Dashed => "dashed"@,
        LineStyle::Solid => "solid"@,
        LineStyle::Double => "double"@,
        LineStyle::Groove => "groove"@,
        LineStyle::Ridge => "ridge"@,
        LineStyle::Inset => "inset"@,
        LineStyle::Outset => "outset"@,
    }
}

/// The spelling, executable.
pub fn line_style_name(v: LineStyle) -> (r: &'static str)
    ensures
        r@ == spec_line_style_name(v),
{
    match v {
        LineStyle::NoneKeyword => "none",
        LineStyle::Hidden => "hidden",
        LineStyle::Dotted => "dotted",
        LineStyle::Dashed => "dashed",
        LineStyle::Solid => "solid",
        LineStyle::Double => "double",
        LineStyle::Groove => "groove",
        LineStyle::Ridge => "ridge",
        LineStyle::Inset => "inset",
        LineStyle::Outset => "outset",
    }
}

/// The line style a keyword names, if any.
pub open spec fn spec_line_style_from_name(s: Seq<char>) -> Option<LineStyle> {
    if s == "none"@ {
        Some(LineStyle::NoneKeyword)
    } else if s == "hidden"@ {
        Some(LineStyle::Hidden)
    } else if s == "dotted"@ {
        Some(LineStyle::Dotted)
    } else if s == "dashed"@ {
        Some(LineStyle::Dashed)
    } else if s == "solid"@ {
        Some(LineStyle::Solid)
    } else if s == "double"@ {
        Some(LineStyle::Double)
    } else if s == "groove"@ {
        Some(LineStyle::Groove)
    } else if s == "ridge"@ {
        Some(LineStyle::Ridge)
    } else if s == "inset"@ {
        Some(LineStyle::Inset)
    } else if s == "outset"@ {
        Some(LineStyle::Outset)
    } else {
        None
    }
}

/// The keyword dispatch, executable.
pub fn line_style_from_name(s: &str) -> (r: Option<LineStyle>)
    ensures
        r == spec_line_style_from_name(s@),
{
    if str_eq(s, "none") {
        Some(LineStyle::NoneKeyword)
    } else if str_eq(s, "hidden") {
        Some(LineStyle::Hidden)
    } else if str_eq(s, "dotted") {
        Some(LineStyle::Dotted)
    } else if str_eq(s, "dashed") {
        Some(LineStyle::Dashed)
    } else if str_eq(s, "solid") {
        Some(LineStyle::Solid)
    } else if str_eq(s, "double") {
        Some(LineStyle::Double)
    } else if str_eq(s, "groove") {
        Some(LineStyle::Groove)
    } else if str_eq(s, "ridge") {
        Some(LineStyle::Ridge)
    } else if str_eq(s, "inset") {
        Some(LineStyle::Inset)
    } else if str_eq(s, "outset") {
        Some(LineStyle::Outset)
    } else {
        None
    }
}

/// Two different line styles never share a spelling.
proof fn lemma_line_style_names_distinct(u: LineStyle, v: LineStyle)
    ensures
        u != v ==> spec_line_style_name(u) != spec_line_style_name(v),
{
    reveal_strlit("none");
    reveal_strlit("hidden");
    reveal_strlit("dotted");
    reveal_strlit("dashed");
    reveal_strlit("solid");
    reveal_strlit("double");
    reveal_strlit("groove");
    reveal_strlit("ridge");
    reveal_strlit("inset");
    reveal_strlit("outset");
    let a = spec_line_style_name(u);
    let b = spec_line_style_name(v);
    if u != v && a == b {
        assert(a.len() == b.len() && a[0] == b[0] && a[1] == b[1] && a[2] == b[2] && a[3] == b[3]
            && a[4] == b[4] && a[5] == b[5]);
        assert(false);
    }
}

/// A keyword's spelling maps back to the keyword.
pub proof fn lemma_line_style_name_round_trip(v: LineStyle)
    ensures
        spec_line_style_from_name(spec_line_style_name(v)) == Some(v),
{
    lemma_line_style_names_distinct(v, LineStyle::NoneKeyword);
    lemma_line_style_names_distinct(v, LineStyle::Hidden);
    lemma_line_style_names_distinct(v, LineStyle::Dotted);
    lemma_line_style_names_distinct(v, LineStyle::Dashed);
    lemma_line_style_names_distinct(v, LineStyle::Solid);
    lemma_line_style_names_distinct(v, LineStyle::Double);
    lemma_line_style_names_distinct(v, LineStyle::Groove);
    lemma_line_style_names_distinct(v, LineStyle::Ridge);
    lemma_line_style_names_distinct(v, LineStyle::Inset);
    lemma_line_style_names_distinct(v, LineStyle::Outset);
}

/// Grammar `<line-style>`: a single style keyword.
pub open spec fn spec_parse_line_style(s: Seq<Tok>, i: int) -> ParseStep<LineStyle> {
    let j = skip_ws(s, i);
    if j < s.len() && s[j] is Ident {
        match spec_line_style_from_name(s[j]->Ident_0) {
            Some(v) => ParseStep::Done(v, j + 1),
            None => ParseStep::Fail(j, Expected::LineStyle),
        }
    } else {
        ParseStep::Fail(j, Expected::LineStyle)
    }
}

/// Parse a `<line-style>`.
pub fn parse_line_style(toks: &Vec<Token>, i: usize) -> (r: Result<
    (LineStyle, usize),
    ParseFailure,
>)
    requires
        i <= toks@.len(),
    ensures
        step_matches(spec_parse_line_style(views(toks@), i as int), r),
{
    let j = skip_ws_at(toks, i);
    if j < toks.len() {
        match &toks[j] {
            Token::Ident(name) => match line_style_from_name(name.as_str()) {
                Some(v) => Ok((v, j + 1)),
                None => Err(ParseFailure { position: j, expected: Expected::LineStyle }),
            },
            _ => Err(ParseFailure { position: j, expected: Expected::LineStyle }),
        }
    } else {
        Err(ParseFailure { position: j, expected: Expected::LineStyle })
    }
}

/// The token form of a `<line-style>`.
pub open spec fn spec_line_style_tokens(v: LineStyle) -> Seq<Tok> {
    seq![Tok::Ident(spec_line_style_name(v))]
}

/// Serialize a `<line-style>`, appending to `out`.
pub fn write_line_style_tokens(v: &LineStyle, out: &mut Vec<Token>)
    ensures
        views(final(out)@) == views(old(out)@) + spec_line_style_tokens(*v),
{
    out.push(Token::Ident(String::from_str(line_style_name(*v))));
    proof {
        assert(views(out@) =~= views(old(out)@) + spec_line_style_tokens(*v));
    }
}

/// Law: a serialized `<line-style>` parses back to the same value.
pub proof fn lemma_line_style_round_trip(v: LineStyle)
    ensures
        spec_parse_line_style(spec_line_style_tokens(v), 0) == ParseStep::Done(
            v,
            spec_line_style_tokens(v).len() as int,
        ),
{
    lemma_line_style_name_round_trip(v);
}

/// Grammar `<line-width>`: the keywords `thin`, `medium`, `thick` first,
/// then a non-negative `<length>`.
pub open spec fn spec_parse_line_width(s: Seq<Tok>, i: int) -> ParseStep<LineWidth> {
    let j = skip_ws(s, i);
    if j < s.len() && s[j] is Ident {
        let name = s[j]->Ident_0;
        if name == "thin"@ {
            ParseStep::Done(LineWidth::Thin, j + 1)
        } else if name == "medium"@ {
            ParseStep::Done(LineWidth::Medium, j + 1)
        } else if name == "thick"@ {
            ParseStep::Done(LineWidth::Thick, j + 1)
        } else {
            ParseStep::Fail(j, Expected::LineWidth)
        }
    } else {
        match spec_parse_length(s, i) {
            ParseStep::Done(l, k) => {
                if l.0.is_nonneg() {
                    ParseStep::Done(LineWidth::Value(PositiveLength::spec_new(l.0, l.1)), k)
                } else {
                    ParseStep::Fail(j, Expected::PositiveLength)
                }
            },
            ParseStep::Fail(at, _) => ParseStep::Fail(at, Expected::LineWidth),
        }
    }
}

/// Parse a `<line-width>`.
pub fn parse_line_width(toks: &Vec<Token>, i: usize) -> (r: Result<
    (LineWidth, usize),
    ParseFailure,
>)
    requires
        i <= toks@.len(),
    ensures
        step_matches(spec_parse_line_width(views(toks@), i as int), r),
{
    let j = skip_ws_at(toks, i);
    if j < toks.len() && matches!(toks[j], Token::Ident(_)) {
        match &toks[j] {
            Token::Ident(name) => {
                if str_eq(name.as_str(), "thin") {
                    Ok((LineWidth::Thin, j + 1))
                } else if str_eq(name.as_str(), "medium") {
                    Ok((LineWidth::Medium, j + 1))
                } else if str_eq(name.as_str(), "thick") {
                    Ok((LineWidth::Thick, j + 1))
                } else {
                    Err(ParseFailure { position: j, expected: Expected::LineWidth })
                }
            },
            _ => Err(ParseFailure { position: j, expected: Expected::LineWidth }),
        }
    } else {
        match parse_length(toks, i) {
            Ok((l, k)) => match PositiveLength::new(l.0, l.1) {
                Ok(p) => Ok((LineWidth::Value(p), k)),
                Err(_) => Err(ParseFailure { position: j, expected: Expected::PositiveLength }),
            },
            Err(f) => Err(ParseFailure { position: f.position, expected: Expected::LineWidth }),
        }
    }
}

/// The token form of a `<line-width>`.
pub open spec fn spec_line_width_tokens(v: LineWidth) -> Seq<Tok> {
    match v {
        LineWidth::Thin => seq![Tok::Ident("thin"@)],
        LineWidth::Medium => seq![Tok::Ident("medium"@)],
        LineWidth::Thick => seq![Tok::Ident("thick"@)],
        LineWidth::Value(p) => seq![
            Tok::Dimension(p.spec_mag(), spec_length_unit_name(p.spec_unit())),
        ],
    }
}

/// Serialize a `<line-width>`, appending to `out`.
pub fn write_line_width_tokens(v: &LineWidth, out: &mut Vec<Token>)
    ensures
        views(final(out)@) == views(old(out)@) + spec_line_width_tokens(*v),
{
    match v {
        LineWidth::Thin => {
            out.push(Token::Ident(String::from_str("thin")));
        },
        LineWidth::Medium => {
            out.push(Token::Ident(String::from_str("medium")));
        },
        LineWidth::Thick => {
            out.push(Token::Ident(String::from_str("thick")));
        },
        LineWidth::Value(p) => {
            let name = length_unit_name(p.unit());
            out.push(Token::Dimension(p.magnitude(), String::from_str(name)));
        },
    }
    proof {
        assert(views(out@) =~= views(old(out)@) + spec_line_width_tokens(*v));
    }
}

/// Well-formed line width: an explicit value is non-negative.  Every value
/// built by the validating constructor satisfies this.
pub open spec fn spec_line_width_wf(v: LineWidth) -> bool {
    v matches LineWidth::Value(p) ==> p.spec_mag().is_nonneg()
}

/// Law: a serialized `<line-width>` parses back to the same value.
pub proof fn lemma_line_width_round_trip(v: LineWidth)
    requires
        spec_line_width_wf(v),
    ensures
        spec_parse_line_width(spec_line_width_tokens(v), 0) == ParseStep::Done(
            v,
            spec_line_width_tokens(v).len() as int,
        ),
{
    reveal_strlit("thin");
    reveal_strlit("medium");
    reveal_strlit("thick");
    match v {
        LineWidth::Thin => {
        },
        LineWidth::Medium => {
            assert("medium"@.len() == 6 && "thin"@.len() == 4);
        },
        LineWidth::Thick => {
            assert("thick"@.len() == 5 && "thin"@.len() == 4 && "medium"@.len() == 6);
        },
        LineWidth::Value(p) => {
            lemma_length_unit_name_round_trip(p.spec_unit());
            PositiveLength::lemma_reconstruct(p);
        },
    }
}

// ------------------------------------------------------------------
// Alphas and colors
// ------------------------------------------------------------------
/// Grammar `<alpha-value>`: a number in 0..1 or a percentage in 0..100; an
/// out-of-range magnitude is rejected by the grammar.
pub open spec fn spec_parse_alpha(s: Seq<Tok>, i: int) -> ParseStep<Alpha> {
    let j = skip_ws(s, i);
    if j < s.len() && s[j] is Number {
        let m = s[j]->Number_0;
        if 0 <= m.spec_num() <= m.spec_den() {
            ParseStep::Done(Alpha::Number(Number(m)), j + 1)
        } else {
            ParseStep::Fail(j, Expected::Alpha)
        }
    } else if j < s.len() && s[j] is Percentage {
        let m = s[j]->Percentage_0;
        if 0 <= m.spec_num() <= m.spec_den() * 100 {
            ParseStep::Done(Alpha::Percentage(Percentage(Number(m))), j + 1)
        } else {
            ParseStep::Fail(j, Expected::Alpha)
        }
    } else {
        ParseStep::Fail(j, Expected::Alpha)
    }
}

/// Parse an `<alpha-value>`.
pub fn parse_alpha(toks: &Vec<Token>, i: usize) -> (r: Result<(Alpha, usize), ParseFailure>)
    requires
        i <= toks@.len(),
    ensures
        step_matches(spec_parse_alpha(views(toks@), i as int), r),
{
    let j = skip_ws_at(toks, i);
    if j < toks.len() {
        match &toks[j] {
            Token::Number(m) => match Alpha::new_number(Number(*m)) {
                Ok(a) => Ok((a, j + 1)),
                Err(_) => Err(ParseFailure { position: j, expected: Expected::Alpha }),
            },
            Token::Percentage(m) => match Alpha::new_percentage(Percentage(Number(*m))) {
                Ok(a) => Ok((a, j + 1)),
                Err(_) => Err(ParseFailure { position: j, expected: Expected::Alpha }),
            },
            _ => Err(ParseFailure { position: j, expected: Expected::Alpha }),
        }
    } else {
        Err(ParseFailure { position: j, expected: Expected::Alpha })
    }
}

/// The single token form of an `<alpha-value>`.
pub open spec fn spec_alpha_tok(a: Alpha) -> Tok {
    match a {
        Alpha::Number(n) => Tok::Number(n.0),
        Alpha::Percentage(p) => Tok::Percentage(p.0.0),
    }
}

/// The optional `, <alpha-value>` tail and the closing parenthesis of a
/// color function.
pub open spec fn spec_parse_color_tail(s: Seq<Tok>, i: int) -> ParseStep<Option<Alpha>> {
    let j = skip_ws(s, i);
    if j < s.len() && s[j] is Comma {
        match spec_parse_alpha(s, j + 1) {
            ParseStep::Done(a, k) => {
                let j2 = skip_ws(s, k);
                if j2 < s.len() && s[j2] is FunctionEnd {
                    ParseStep::Done(Some(a), j2 + 1)
                } else {
                    ParseStep::Fail(j2, Expected::CloseParen)
                }
            },
            ParseStep::Fail(at, e) => ParseStep::Fail(at, e),
        }
    } else if j < s.len() && s[j] is FunctionEnd {
        ParseStep::Done(None, j + 1)
    } else {
        ParseStep::Fail(j, Expected::CloseParen)
    }
}

/// Parse the optional alpha tail and the closing parenthesis.
pub fn parse_color_tail(toks: &Vec<Token>, i: usize) -> (r: Result<
    (Option<Alpha>, usize),
    ParseFailure,
>)
    requires
        i <= toks@.len(),
    ensures
        step_matches(spec_parse_color_tail(views(toks@), i as int), r),
{
    let j = skip_ws_at(toks, i);
    if j < toks.len() && matches!(toks[j], Token::Comma) {
        match parse_alpha(toks, j + 1) {
            Ok((a, k)) => {
                let j2 = skip_ws_at(toks, k);
                if j2 < toks.len() && matches!(toks[j2], Token::FunctionEnd) {
                    Ok((Some(a), j2 + 1))
                } else {
                    Err(ParseFailure { position: j2, expected: Expected::CloseParen })
                }
            },
            Err(f) => Err(f),
        }
    } else if j < toks.len() && matches!(toks[j], Token::FunctionEnd) {
        Ok((None, j + 1))
    } else {
        Err(ParseFailure { position: j, expected: Expected::CloseParen })
    }
}

/// A comma between color channels.
pub open spec fn spec_parse_comma(s: Seq<Tok>, i: int) -> ParseStep<int> {
    let j = skip_ws(s, i);
    if j < s.len() && s[j] is Comma {
        ParseStep::Done(j + 1, j + 1)
    } else {
        ParseStep::Fail(j, Expected::Comma)
    }
}

/// Parse a comma.
pub fn parse_comma(toks: &Vec<Token>, i: usize) -> (r: Result<usize, ParseFailure>)
    requires
        i <= toks@.len(),
    ensures
        match spec_parse_comma(views(toks@), i as int) {
            ParseStep::Done(_, n) => r matches Ok(j) && j == n,
            ParseStep::Fail(at, e) => r matches Err(f) && f.position == at && f.expected == e,
        },
{
    let j = skip_ws_at(toks, i);
    if j < toks.len() && matches!(toks[j], Token::Comma) {
        Ok(j + 1)
    } else {
        Err(ParseFailure { position: j, expected: Expected::Comma })
    }
}

/// Grammar `<color>`: one of the color function families `rgb(...)`,
/// `hsl(...)`, `lch(...)` and `lab(...)`, with comma-separated channels
/// and an optional alpha.
pub open spec fn spec_parse_color(s: Seq<Tok>, i: int) -> ParseStep<Color> {
    let j = skip_ws(s, i);
    if j < s.len() && s[j] is FunctionStart {
        let name = s[j]->FunctionStart_0;
        if name == "rgb"@ {
            spec_parse_rgb_args(s, j + 1)
        } else if name == "hsl"@ {
            spec_parse_hsl_args(s, j + 1)
        } else if name == "lch"@ {
            spec_parse_lch_args(s, j + 1)
        } else if name == "lab"@ {
            spec_parse_lab_args(s, j + 1)
        } else {
            ParseStep::Fail(j, Expected::Color)
        }
    } else {
        ParseStep::Fail(j, Expected::Color)
    }
}

/// The argument list of `rgb(...)`: three numbers.
pub open spec fn spec_parse_rgb_args(s: Seq<Tok>, i: int) -> ParseStep<Color> {
    match spec_parse_number(s, i) {
        ParseStep::Done(red, k1) => match spec_parse_comma(s, k1) {
            ParseStep::Done(_, k2) => match spec_parse_number(s, k2) {
                ParseStep::Done(green, k3) => match spec_parse_comma(s, k3) {
                    ParseStep::Done(_, k4) => match spec_parse_number(s, k4) {
                        ParseStep::Done(blue, k5) => match spec_parse_color_tail(s, k5) {
                            ParseStep::Done(alpha, k6) => ParseStep::Done(
                                Color::Rgb { red: red.0, green: green.0, blue: blue.0, alpha },
                                k6,
                            ),
                            ParseStep::Fail(at, e) => ParseStep::Fail(at, e),
                        },
                        ParseStep::Fail(at, e) => ParseStep::Fail(at, e),
                    },
                    ParseStep::Fail(at, e) => ParseStep::Fail(at, e),
                },
                ParseStep::Fail(at, e) => ParseStep::Fail(at, e),
            },
            ParseStep::Fail(at, e) => ParseStep::Fail(at, e),
        },
        ParseStep::Fail(at, e) => ParseStep::Fail(at, e),
    }
}

/// The argument list of `hsl(...)`: a hue number and two percentages.
pub open spec fn spec_parse_hsl_args(s: Seq<Tok>, i: int) -> ParseStep<Color> {
    match spec_parse_number(s, i) {
        ParseStep::Done(hue, k1) => match spec_parse_comma(s, k1) {
            ParseStep::Done(_, k2) => match spec_parse_percentage(s, k2) {
                ParseStep::Done(saturation, k3) => match spec_parse_comma(s, k3) {
                    ParseStep::Done(_, k4) => match spec_parse_percentage(s, k4) {
                        ParseStep::Done(lightness, k5) => match spec_parse_color_tail(s, k5) {
                            ParseStep::Done(alpha, k6) => ParseStep::Done(
                                Color::Hsl { hue: hue.0, saturation, lightness, alpha },
                                k6,
                            ),
                            ParseStep::Fail(at, e) => ParseStep::Fail(at, e),
                        },
                        ParseStep::Fail(at, e) => ParseStep::Fail(at, e),
                    },
                    ParseStep::Fail(at, e) => ParseStep::Fail(at, e),
                },
                ParseStep::Fail(at, e) => ParseStep::Fail(at, e),
            },
            ParseStep::Fail(at, e) => ParseStep::Fail(at, e),
        },
        ParseStep::Fail(at, e) => ParseStep::Fail(at, e),
    }
}

/// The argument list of `lch(...)`: a lightness percentage, a chroma
/// number and a hue number.
pub open spec fn spec_parse_lch_args(s: Seq<Tok>, i: int) -> ParseStep<Color> {
    match spec_parse_percentage(s, i) {
        ParseStep::Done(lightness, k1) => match spec_parse_comma(s, k1) {
            ParseStep::Done(_, k2) => match spec_parse_number(s, k2) {
                ParseStep::Done(chroma, k3) => match spec_parse_comma(s, k3) {
                    ParseStep::Done(_, k4) => match spec_parse_number(s, k4) {
                        ParseStep::Done(hue, k5) => match spec_parse_color_tail(s, k5) {
                            ParseStep::Done(alpha, k6) => ParseStep::Done(
                                Color::Lch { lightness, chroma: chroma.0, hue: hue.0, alpha },
                                k6,
                            ),
                            ParseStep::Fail(at, e) => ParseStep::Fail(at, e),
                        },
                        ParseStep::Fail(at, e) => ParseStep::Fail(at, e),
                    },
                    ParseStep::Fail(at, e) => ParseStep::Fail(at, e),
                },
                ParseStep::Fail(at, e) => ParseStep::Fail(at, e),
            },
            ParseStep::Fail(at, e) => ParseStep::Fail(at, e),
        },
        ParseStep::Fail(at, e) => ParseStep::Fail(at, e),
    }
}

/// The argument list of `lab(...)`: a lightness percentage and the two
/// axis numbers.
pub open spec fn spec_parse_lab_args(s: Seq<Tok>, i: int) -> ParseStep<Color> {
    match spec_parse_percentage(s, i) {
        ParseStep::Done(lightness, k1) => match spec_parse_comma(s, k1) {
            ParseStep::Done(_, k2) => match spec_parse_number(s, k2) {
                ParseStep::Done(a_axis, k3) => match spec_parse_comma(s, k3) {
                    ParseStep::Done(_, k4) => match spec_parse_number(s, k4) {
                        ParseStep::Done(b_axis, k5) => match spec_parse_color_tail(s, k5) {
                            ParseStep::Done(alpha, k6) => ParseStep::Done(
                                Color::Lab { lightness, a_axis: a_axis.0, b_axis: b_axis.0, alpha },
                                k6,
                            ),
                            ParseStep::Fail(at, e) => ParseStep::Fail(at, e),
                        },
                        ParseStep::Fail(at, e) => ParseStep::Fail(at, e),
                    },
                    ParseStep::Fail(at, e) => ParseStep::Fail(at, e),
                },
                ParseStep::Fail(at, e) => ParseStep::Fail(at, e),
            },
            ParseStep::Fail(at, e) => ParseStep::Fail(at, e),
        },
        ParseStep::Fail(at, e) => ParseStep::Fail(at, e),
    }
}

/// Parse a `<color>`.
pub fn parse_color(toks: &Vec<Token>, i: usize) -> (r: Result<(Color, usize), ParseFailure>)
    requires
        i <= toks@.len(),
    ensures
        step_matches(spec_parse_color(views(toks@), i as int), r),
{
    let j = skip_ws_at(toks, i);
    if j < toks.len() {
        match &toks[j] {
            Token::FunctionStart(name) => {
                if str_eq(name.as_str(), "rgb") {
                    parse_rgb_args(toks, j + 1)
                } else if str_eq(name.as_str(), "hsl") {
                    parse_hsl_args(toks, j + 1)
                } else if str_eq(name.as_str(), "lch") {
                    parse_lch_args(toks, j + 1)
                } else if str_eq(name.as_str(), "lab") {
                    parse_lab_args(toks, j + 1)
                } else {
                    Err(ParseFailure { position: j, expected: Expected::Color })
                }
            },
            _ => Err(ParseFailure { position: j, expected: Expected::Color }),
        }
    } else {
        Err(ParseFailure { position: j, expected: Expected::Color })
    }
}

/// Parse the arguments of `rgb(...)`.
fn parse_rgb_args(toks: &Vec<Token>, i: usize) -> (r: Result<(Color, usize), ParseFailure>)
    requires
        i <= toks@.len(),
    ensures
        step_matches(spec_parse_rgb_args(views(toks@), i as int), r),
{
    let (red, k1) = match parse_number(toks, i) {
        Ok(v) => v,
        Err(f) => {
            return Err(f);
        },
    };
    let k2 = match parse_comma(toks, k1) {
        Ok(v) => v,
        Err(f) => {
            return Err(f);
        },
    };
    let (green, k3) = match parse_number(toks, k2) {
        Ok(v) => v,
        Err(f) => {
            return Err(f);
        },
    };
    let k4 = match parse_comma(toks, k3) {
        Ok(v) => v,
        Err(f) => {
            return Err(f);
        },
    };
    let (blue, k5) = match parse_number(toks, k4) {
        Ok(v) => v,
        Err(f) => {
            return Err(f);
        },
    };
    match parse_color_tail(toks, k5) {
        Ok((alpha, k6)) => Ok((Color::Rgb { red: red.0, green: green.0, blue: blue.0, alpha }, k6)),
        Err(f) => Err(f),
    }
}

/// Parse the arguments of `hsl(...)`.
fn parse_hsl_args(toks: &Vec<Token>, i: usize) -> (r: Result<(Color, usize), ParseFailure>)
    requires
        i <= toks@.len(),
    ensures
        step_matches(spec_parse_hsl_args(views(toks@), i as int), r),
{
    let (hue, k1) = match parse_number(toks, i) {
        Ok(v) => v,
        Err(f) => {
            return Err(f);
        },
    };
    let k2 = match parse_comma(toks, k1) {
        Ok(v) => v,
        Err(f) => {
            return Err(f);
        },
    };
    let (saturation, k3) = match parse_percentage(toks, k2) {
        Ok(v) => v,
        Err(f) => {
            return Err(f);
        },
    };
    let k4 = match parse_comma(toks, k3) {
        Ok(v) => v,
        Err(f) => {
            return Err(f);
        },
    };
    let (lightness, k5) = match parse_percentage(toks, k4) {
        Ok(v) => v,
        Err(f) => {
            return Err(f);
        },
    };
    match parse_color_tail(toks, k5) {
        Ok((alpha, k6)) => Ok((Color::Hsl { hue: hue.0, saturation, lightness, alpha }, k6)),
        Err(f) => Err(f),
    }
}

/// Parse the arguments of `lch(...)`.
fn parse_lch_args(toks: &Vec<Token>, i: usize) -> (r: Result<(Color, usize), ParseFailure>)
    requires
        i <= toks@.len(),
    ensures
        step_matches(spec_parse_lch_args(views(toks@), i as int), r),
{
    let (lightness, k1) = match parse_percentage(toks, i) {
        Ok(v) => v,
        Err(f) => {
            return Err(f);
        },
    };
    let k2 = match parse_comma(toks, k1) {
        Ok(v) => v,
        Err(f) => {
            return Err(f);
        },
    };
    let (chroma, k3) = match parse_number(toks, k2) {
        Ok(v) => v,
        Err(f) => {
            return Err(f);
        },
    };
    let k4 = match parse_comma(toks, k3) {
        Ok(v) => v,
        Err(f) => {
            return Err(f);
        },
    };
    let (hue, k5) = match parse_number(toks, k4) {
        Ok(v) => v,
        Err(f) => {
            return Err(f);
        },
    };
    match parse_color_tail(toks, k5) {
        Ok((alpha, k6)) => Ok((Color::Lch { lightness, chroma: chroma.0, hue: hue.0, alpha }, k6)),
        Err(f) => Err(f),
    }
}

/// Parse the arguments of `lab(...)`.
fn parse_lab_args(toks: &Vec<Token>, i: usize) -> (r: Result<(Color, usize), ParseFailure>)
    requires
        i <= toks@.len(),
    ensures
        step_matches(spec_parse_lab_args(views(toks@), i as int), r),
{
    let (lightness, k1) = match parse_percentage(toks, i) {
        Ok(v) => v,
        Err(f) => {
            return Err(f);
        },
    };
    let k2 = match parse_comma(toks, k1) {
        Ok(v) => v,
        Err(f) => {
            return Err(f);
        },
    };
    let (a_axis, k3) = match parse_number(toks, k2) {
        Ok(v) => v,
        Err(f) => {
            return Err(f);
        },
    };
    let k4 = match parse_comma(toks, k3) {
        Ok(v) => v,
        Err(f) => {
            return Err(f);
        },
    };
    let (b_axis, k5) = match parse_number(toks, k4) {
        Ok(v) => v,
        Err(f) => {
            return Err(f);
        },
    };
    match parse_color_tail(toks, k5) {
        Ok((alpha, k6)) => Ok(
            (Color::Lab { lightness, a_axis: a_axis.0, b_axis: b_axis.0, alpha }, k6),
        ),
        Err(f) => Err(f),
    }
}

/// Well-formed color: a present alpha lies in range.
pub open spec fn spec_color_wf(c: Color) -> bool {
    match c {
        Color::Rgb { alpha, .. } => alpha matches Some(a) ==> a.spec_in_range(),
        Color::Hsl { alpha, .. } => alpha matches Some(a) ==> a.spec_in_range(),
        Color::Lch { alpha, .. } => alpha matches Some(a) ==> a.spec_in_range(),
        Color::Lab { alpha, .. } => alpha matches Some(a) ==> a.spec_in_range(),
    }
}

/// The token form of a `<color>`.
pub open spec fn spec_color_tokens(c: Color) -> Seq<Tok> {
    match c {
        Color::Rgb { red, green, blue, alpha } => match alpha {
            Some(a) => seq![
                Tok::FunctionStart("rgb"@),
                Tok::Number(red),
                Tok::Comma,
                Tok::Number(green),
                Tok::Comma,
                Tok::Number(blue),
                Tok::Comma,
                spec_alpha_tok(a),
                Tok::FunctionEnd,
            ],
            None => seq![
                Tok::FunctionStart("rgb"@),
                Tok::Number(red),
                Tok::Comma,
                Tok::Number(green),
                Tok::Comma,
                Tok::Number(blue),
                Tok::FunctionEnd,
            ],
        },
        Color::Hsl { hue, saturation, lightness, alpha } => match alpha {
            Some(a) => seq![
                Tok::FunctionStart("hsl"@),
                Tok::Number(hue),
                Tok::Comma,
                Tok::Percentage(saturation.0.0),
                Tok::Comma,
                Tok::Percentage(lightness.0.0),
                Tok::Comma,
                spec_alpha_tok(a),
                Tok::FunctionEnd,
            ],
            None => seq![
                Tok::FunctionStart("hsl"@),
                Tok::Number(hue),
                Tok::Comma,
                Tok::Percentage(saturation.0.0),
                Tok::Comma,
                Tok::Percentage(lightness.0.0),
                Tok::FunctionEnd,
            ],
        },
        Color::Lch { lightness, chroma, hue, alpha } => match alpha {
            Some(a) => seq![
                Tok::FunctionStart("lch"@),
                Tok::Percentage(lightness.0.0),
                Tok::Comma,
                Tok::Number(chroma),
                Tok::Comma,
                Tok::Number(hue),
                Tok::Comma,
                spec_alpha_tok(a),
                Tok::FunctionEnd,
            ],
            None => seq![
                Tok::FunctionStart("lch"@),
                Tok::Percentage(lightness.0.0),
                Tok::Comma,
                Tok::Number(chroma),
                Tok::Comma,
                Tok::Number(hue),
                Tok::FunctionEnd,
            ],
        },
        Color::Lab { lightness, a_axis, b_axis, alpha } => match alpha {
            Some(a) => seq![
                Tok::FunctionStart("lab"@),
                Tok::Percentage(lightness.0.0),
                Tok::Comma,
                Tok::Number(a_axis),
                Tok::Comma,
                Tok::Number(b_axis),
                Tok::Comma,
                spec_alpha_tok(a),
                Tok::FunctionEnd,
            ],
            None => seq![
                Tok::FunctionStart("lab"@),
                Tok::Percentage(lightness.0.0),
                Tok::Comma,
                Tok::Number(a_axis),
                Tok::Comma,
                Tok::Number(b_axis),
                Tok::FunctionEnd,
            ],
        },
    }
}

/// Serialize a `<color>`, appending to `out`.
pub fn write_color_tokens(c: &Color, out: &mut Vec<Token>)
    ensures
        views(final(out)@) == views(old(out)@) + spec_color_tokens(*c),
{
    match c {
        Color::Rgb { red, green, blue, alpha } => {
            out.push(Token::FunctionStart(String::from_str("rgb")));
            out.push(Token::Number(*red));
            out.push(Token::Comma);
            out.push(Token::Number(*green));
            out.push(Token::Comma);
            out.push(Token::Number(*blue));
            write_alpha_tail(alpha, out);
        },
        Color::Hsl { hue, saturation, lightness, alpha } => {
            out.push(Token::FunctionStart(String::from_str("hsl")));
            out.push(Token::Number(*hue));
            out.push(Token::Comma);
            out.push(Token::Percentage(saturation.0.0));
            out.push(Token::Comma);
            out.push(Token::Percentage(lightness.0.0));
            write_alpha_tail(alpha, out);
        },
        Color::Lch { lightness, chroma, hue, alpha } => {
            out.push(Token::FunctionStart(String::from_str("lch")));
            out.push(Token::Percentage(lightness.0.0));
            out.push(Token::Comma);
            out.push(Token::Number(*chroma));
            out.push(Token::Comma);
            out.push(Token::Number(*hue));
            write_alpha_tail(alpha, out);
        },
        Color::Lab { lightness, a_axis, b_axis, alpha } => {
            out.push(Token::FunctionStart(String::from_str("lab")));
            out.push(Token::Percentage(lightness.0.0));
            out.push(Token::Comma);
            out.push(Token::Number(*a_axis));
            out.push(Token::Comma);
            out.push(Token::Number(*b_axis));
            write_alpha_tail(alpha, out);
        },
    }
    proof {
        assert(views(out@) =~= views(old(out)@) + spec_color_tokens(*c));
    }
}

/// Serialize the optional alpha and the closing parenthesis.
fn write_alpha_tail(alpha: &Option<Alpha>, out: &mut Vec<Token>)
    ensures
        views(final(out)@) == views(old(out)@) + (match *alpha {
            Some(a) => seq![Tok::Comma, spec_alpha_tok(a), Tok::FunctionEnd],
            None => seq![Tok::FunctionEnd],
        }),
{
    match alpha {
        Some(a) => {
            out.push(Token::Comma);
            match a {
                Alpha::Number(n) => {
                    out.push(Token::Number(n.0));
                },
                Alpha::Percentage(p) => {
                    out.push(Token::Percentage(p.0.0));
                },
            }
            out.push(Token::FunctionEnd);
        },
        None => {
            out.push(Token::FunctionEnd);
        },
    }
    proof {
        assert(views(out@) =~= views(old(out)@) + (match *alpha {
            Some(a) => seq![Tok::Comma, spec_alpha_tok(a), Tok::FunctionEnd],
            None => seq![Tok::FunctionEnd],
        }));
    }
}

/// The four color function names are pairwise different.
proof fn lemma_color_function_names_distinct()
    ensures
        "rgb"@ != "hsl"@,
        "rgb"@ != "lch"@,
        "rgb"@ != "lab"@,
        "hsl"@ != "lch"@,
        "hsl"@ != "lab"@,
        "lch"@ != "lab"@,
{
    reveal_strlit("rgb");
    reveal_strlit("hsl");
    reveal_strlit("lch");
    reveal_strlit("lab");
    assert("rgb"@[0] == 'r' && "hsl"@[0] == 'h' && "lch"@[0] == 'l' && "lab"@[0] == 'l');
    assert("lch"@[1] == 'c' && "lab"@[1] == 'a');
}

/// Law: a serialized `<color>` parses back to the same value.
pub proof fn lemma_color_round_trip(c: Color)
    requires
        spec_color_wf(c),
    ensures
        spec_parse_color(spec_color_tokens(c), 0) == ParseStep::Done(
            c,
            spec_color_tokens(c).len() as int,
        ),
{
    lemma_color_function_names_distinct();
}

/// A serialized `<color>` embedded at position `i` parses from there.
pub proof fn lemma_color_parses_at(c: Color, s: Seq<Tok>, i: int)
    requires
        spec_color_wf(c),
        0 <= i,
        i + spec_color_tokens(c).len() <= s.len(),
        s.subrange(i, i + spec_color_tokens(c).len() as int) == spec_color_tokens(c),
    ensures
        spec_parse_color(s, i) == ParseStep::Done(c, i + spec_color_tokens(c).len()),
{
    lemma_color_function_names_distinct();
    let ct = spec_color_tokens(c);
    assert forall|k: int| 0 <= k < ct.len() implies s[i + k] == ct[k] by {
        assert(s.subrange(i, i + ct.len() as int)[k] == s[i + k]);
    }
}

// ------------------------------------------------------------------
// Urls, gradients and images
// ------------------------------------------------------------------
/// Grammar `url(...)`: a single url token; the model is the address text.
pub open spec fn spec_parse_url(s: Seq<Tok>, i: int) -> ParseStep<Seq<char>> {
    let j = skip_ws(s, i);
    if j < s.len() && s[j] is UrlTok {
        ParseStep::Done(s[j]->UrlTok_0, j + 1)
    } else {
        ParseStep::Fail(j, Expected::Url)
    }
}

/// Parse a `url(...)` value.
pub fn parse_url(toks: &Vec<Token>, i: usize) -> (r: Result<(Url, usize), ParseFailure>)
    requires
        i <= toks@.len(),
    ensures
        step_matches_view::<Url>(spec_parse_url(views(toks@), i as int), r),
{
    let j = skip_ws_at(toks, i);
    if j < toks.len() {
        match &toks[j] {
            Token::UrlTok(t) => Ok((Url(t.clone()), j + 1)),
            _ => Err(ParseFailure { position: j, expected: Expected::Url }),
        }
    } else {
        Err(ParseFailure { position: j, expected: Expected::Url })
    }
}

/// The token form of a url, from its model.
pub open spec fn spec_url_tokens(t: Seq<char>) -> Seq<Tok> {
    seq![Tok::UrlTok(t)]
}

/// Serialize a url, appending to `out`.
pub fn write_url_tokens(u: &Url, out: &mut Vec<Token>)
    ensures
        views(final(out)@) == views(old(out)@) + spec_url_tokens(u@),
{
    let d = u.dup();
    out.push(Token::UrlTok(d.0));
    proof {
        assert(views(out@) =~= views(old(out)@) + spec_url_tokens(u@));
    }
}

/// The spelling of a radial gradient shape keyword.
pub open spec fn spec_radial_shape_name(v: RadialGradientShape) -> Seq<char> {
    match v {
        RadialGradientShape::Circle => "circle"@,
        RadialGradientShape::Ellipse => "ellipse"@,
    }
}

/// The optional `, <length>` repeat tail and closing parenthesis of a
/// linear gradient.
pub open spec fn spec_parse_gradient_tail(s: Seq<Tok>, i: int) -> ParseStep<Option<Length>> {
    let j = skip_ws(s, i);
    if j < s.len() && s[j] is Comma {
        match spec_parse_length(s, j + 1) {
            ParseStep::Done(l, k) => {
                let j2 = skip_ws(s, k);
                if j2 < s.len() && s[j2] is FunctionEnd {
                    ParseStep::Done(Some(l), j2 + 1)
                } else {
                    ParseStep::Fail(j2, Expected::CloseParen)
                }
            },
            ParseStep::Fail(at, e) => ParseStep::Fail(at, e),
        }
    } else if j < s.len() && s[j] is FunctionEnd {
        ParseStep::Done(None, j + 1)
    } else {
        ParseStep::Fail(j, Expected::CloseParen)
    }
}

/// Parse the repeat tail of a linear gradient.
pub fn parse_gradient_tail(toks: &Vec<Token>, i: usize) -> (r: Result<
    (Option<Length>, usize),
    ParseFailure,
>)
    requires
        i <= toks@.len(),
    ensures
        step_matches(spec_parse_gradient_tail(views(toks@), i as int), r),
{
    let j = skip_ws_at(toks, i);
    if j < toks.len() && matches!(toks[j], Token::Comma) {
        match parse_length(toks, j + 1) {
            Ok((l, k)) => {
                let j2 = skip_ws_at(toks, k);
                if j2 < toks.len() && matches!(toks[j2], Token::FunctionEnd) {
                    Ok((Some(l), j2 + 1))
                } else {
                    Err(ParseFailure { position: j2, expected: Expected::CloseParen })
                }
            },
            Err(f) => Err(f),
        }
    } else if j < toks.len() && matches!(toks[j], Token::FunctionEnd) {
        Ok((None, j + 1))
    } else {
        Err(ParseFailure { position: j, expected: Expected::CloseParen })
    }
}

/// The argument list of `linear-gradient(...)`: an angle, then the two
/// color stops, then an optional repeat length.
pub open spec fn spec_parse_linear_gradient_args(s: Seq<Tok>, i: int) -> ParseStep<Gradient> {
    match spec_parse_angle(s, i) {
        ParseStep::Done(angle, k1) => match spec_parse_comma(s, k1) {
            ParseStep::Done(_, k2) => match spec_parse_color(s, k2) {
                ParseStep::Done(from, k3) => match spec_parse_comma(s, k3) {
                    ParseStep::Done(_, k4) => match spec_parse_color(s, k4) {
                        ParseStep::Done(to, k5) => match spec_parse_gradient_tail(s, k5) {
                            ParseStep::Done(repeat, k6) => ParseStep::Done(
                                Gradient::Linear { from, to, angle, repeat },
                                k6,
                            ),
                            ParseStep::Fail(at, e) => ParseStep::Fail(at, e),
                        },
                        ParseStep::Fail(at, e) => ParseStep::Fail(at, e),
                    },
                    ParseStep::Fail(at, e) => ParseStep::Fail(at, e),
                },
                ParseStep::Fail(at, e) => ParseStep::Fail(at, e),
            },
            ParseStep::Fail(at, e) => ParseStep::Fail(at, e),
        },
        ParseStep::Fail(at, e) => ParseStep::Fail(at, e),
    }
}

/// Parse the arguments of `linear-gradient(...)`.
pub fn parse_linear_gradient_args(toks: &Vec<Token>, i: usize) -> (r: Result<
    (Gradient, usize),
    ParseFailure,
>)
    requires
        i <= toks@.len(),
    ensures
        step_matches(spec_parse_linear_gradient_args(views(toks@), i as int), r),
{
    let (angle, k1) = match parse_angle(toks, i) {
        Ok(v) => v,
        Err(f) => {
            return Err(f);
        },
    };
    let k2 = match parse_comma(toks, k1) {
        Ok(v) => v,
        Err(f) => {
            return Err(f);
        },
    };
    let (from, k3) = match parse_color(toks, k2) {
        Ok(v) => v,
        Err(f) => {
            return Err(f);
        },
    };
    let k4 = match parse_comma(toks, k3) {
        Ok(v) => v,
        Err(f) => {
            return Err(f);
        },
    };
    let (to, k5) = match parse_color(toks, k4) {
        Ok(v) => v,
        Err(f) => {
            return Err(f);
        },
    };
    match parse_gradient_tail(toks, k5) {
        Ok((repeat, k6)) => Ok((Gradient::Linear { from, to, angle, repeat }, k6)),
        Err(f) => Err(f),
    }
}

/// The argument list of `radial-gradient(...)`: the shape keyword, then
/// the two color stops.
pub open spec fn spec_parse_radial_gradient_args(s: Seq<Tok>, i: int) -> ParseStep<Gradient> {
    let j = skip_ws(s, i);
    if j < s.len() && s[j] is Ident {
        let name = s[j]->Ident_0;
        if name == "circle"@ || name == "ellipse"@ {
            let shape = if name == "circle"@ {
                RadialGradientShape::Circle
            } else {
                RadialGradientShape::Ellipse
            };
            match spec_parse_comma(s, j + 1) {
                ParseStep::Done(_, k1) => match spec_parse_color(s, k1) {
                    ParseStep::Done(from, k2) => match spec_parse_comma(s, k2) {
                        ParseStep::Done(_, k3) => match spec_parse_color(s, k3) {
                            ParseStep::Done(to, k4) => {
                                let j2 = skip_ws(s, k4);
                                if j2 < s.len() && s[j2] is FunctionEnd {
                                    ParseStep::Done(Gradient::Radial { from, to, shape }, j2 + 1)
                                } else {
                                    ParseStep::Fail(j2, Expected::CloseParen)
                                }
                            },
                            ParseStep::Fail(at, e) => ParseStep::Fail(at, e),
                        },
                        ParseStep::Fail(at, e) => ParseStep::Fail(at, e),
                    },
                    ParseStep::Fail(at, e) => ParseStep::Fail(at, e),
                },
                ParseStep::Fail(at, e) => ParseStep::Fail(at, e),
            }
        } else {
            ParseStep::Fail(j, Expected::Gradient)
        }
    } else {
        ParseStep::Fail(j, Expected::Gradient)
    }
}

/// Parse the arguments of `radial-gradient(...)`.
pub fn parse_radial_gradient_args(toks: &Vec<Token>, i: usize) -> (r: Result<
    (Gradient, usize),
    ParseFailure,
>)
    requires
        i <= toks@.len(),
    ensures
        step_matches(spec_parse_radial_gradient_args(views(toks@), i as int), r),
{
    let j = skip_ws_at(toks, i);
    if j < toks.len() {
        let shape = match &toks[j] {
            Token::Ident(name) => {
                if str_eq(name.as_str(), "circle") {
                    RadialGradientShape::Circle
                } else if str_eq(name.as_str(), "ellipse") {
                    RadialGradientShape::Ellipse
                } else {
                    return Err(ParseFailure { position: j, expected: Expected::Gradient });
                }
            },
            _ => {
                return Err(ParseFailure { position: j, expected: Expected::Gradient });
            },
        };
        let k1 = match parse_comma(toks, j + 1) {
            Ok(v) => v,
            Err(f) => {
                return Err(f);
            },
        };
        let (from, k2) = match parse_color(toks, k1) {
            Ok(v) => v,
            Err(f) => {
                return Err(f);
            },
        };
        let k3 = match parse_comma(toks, k2) {
            Ok(v) => v,
            Err(f) => {
                return Err(f);
            },
        };
        let (to, k4) = match parse_color(toks, k3) {
            Ok(v) => v,
            Err(f) => {
                return Err(f);
            },
        };
        let j2 = skip_ws_at(toks, k4);
        if j2 < toks.len() && matches!(toks[j2], Token::FunctionEnd) {
            Ok((Gradient::Radial { from, to, shape }, j2 + 1))
        } else {
            Err(ParseFailure { position: j2, expected: Expected::CloseParen })
        }
    } else {
        Err(ParseFailure { position: j, expected: Expected::Gradient })
    }
}

/// Grammar `<image>`: a url, else one of the gradient functions.
pub open spec fn spec_parse_image(s: Seq<Tok>, i: int) -> ParseStep<ImageView> {
    let j = skip_ws(s, i);
    if j < s.len() && s[j] is UrlTok {
        ParseStep::Done(ImageView::Url(s[j]->UrlTok_0), j + 1)
    } else if j < s.len() && s[j] is FunctionStart {
        let name = s[j]->FunctionStart_0;
        if name == "linear-gradient"@ {
            match spec_parse_linear_gradient_args(s, j + 1) {
                ParseStep::Done(g, k) => ParseStep::Done(ImageView::Gradient(g), k),
                ParseStep::Fail(at, e) => ParseStep::Fail(at, e),
            }
        } else if name == "radial-gradient"@ {
            match spec_parse_radial_gradient_args(s, j + 1) {
                ParseStep::Done(g, k) => ParseStep::Done(ImageView::Gradient(g), k),
                ParseStep::Fail(at, e) => ParseStep::Fail(at, e),
            }
        } else {
            ParseStep::Fail(j, Expected::Image)
        }
    } else {
        ParseStep::Fail(j, Expected::Image)
    }
}

/// Parse an `<image>`.
pub fn parse_image(toks: &Vec<Token>, i: usize) -> (r: Result<(Image, usize), ParseFailure>)
    requires
        i <= toks@.len(),
    ensures
        step_matches_view::<Image>(spec_parse_image(views(toks@), i as int), r),
{
    let j = skip_ws_at(toks, i);
    if j < toks.len() {
        match &toks[j] {
            Token::UrlTok(t) => Ok((Image::Url(Url(t.clone())), j + 1)),
            Token::FunctionStart(name) => {
                if str_eq(name.as_str(), "linear-gradient") {
                    match parse_linear_gradient_args(toks, j + 1) {
                        Ok((g, k)) => Ok((Image::Gradient(g), k)),
                        Err(f) => Err(f),
                    }
                } else if str_eq(name.as_str(), "radial-gradient") {
                    match parse_radial_gradient_args(toks, j + 1) {
                        Ok((g, k)) => Ok((Image::Gradient(g), k)),
                        Err(f) => Err(f),
                    }
                } else {
                    Err(ParseFailure { position: j, expected: Expected::Image })
                }
            },
            _ => Err(ParseFailure { position: j, expected: Expected::Image }),
        }
    } else {
        Err(ParseFailure { position: j, expected: Expected::Image })
    }
}

/// Well-formed gradient: its colors are well-formed.
pub open spec fn spec_gradient_wf(g: Gradient) -> bool {
    match g {
        Gradient::Linear { from, to, .. } => spec_color_wf(from) && spec_color_wf(to),
        Gradient::Radial { from, to, .. } => spec_color_wf(from) && spec_color_wf(to),
    }
}

/// The token form of a gradient.
pub open spec fn spec_gradient_tokens(g: Gradient) -> Seq<Tok> {
    match g {
        Gradient::Linear { from, to, angle, repeat } => seq![
            Tok::FunctionStart("linear-gradient"@),
        ] + spec_angle_tokens(angle) + seq![Tok::Comma] + spec_color_tokens(from)
            + seq![Tok::Comma] + spec_color_tokens(to) + (match repeat {
            Some(l) => seq![Tok::Comma] + spec_length_tokens(l) + seq![Tok::FunctionEnd],
            None => seq![Tok::FunctionEnd],
        }),
        Gradient::Radial { from, to, shape } => seq![
            Tok::FunctionStart("radial-gradient"@),
            Tok::Ident(spec_radial_shape_name(shape)),
            Tok::Comma,
        ] + spec_color_tokens(from) + seq![Tok::Comma] + spec_color_tokens(to)
            + seq![Tok::FunctionEnd],
    }
}

/// The token form of an image, from its model.
pub open spec fn spec_image_tokens(v: ImageView) -> Seq<Tok> {
    match v {
        ImageView::Url(t) => spec_url_tokens(t),
        ImageView::Gradient(g) => spec_gradient_tokens(g),
    }
}

/// Serialize a gradient, appending to `out`.
#[verifier::rlimit(30)]
pub fn write_gradient_tokens(g: &Gradient, out: &mut Vec<Token>)
    ensures
        views(final(out)@) == views(old(out)@) + spec_gradient_tokens(*g),
{
    match g {
        Gradient::Linear { from, to, angle, repeat } => {
            out.push(Token::FunctionStart(String::from_str("linear-gradient")));
            let ghost g0 = views(out@);
            proof {
                assert(g0 =~= views(old(out)@) + seq![Tok::FunctionStart("linear-gradient"@)]);
            }
            write_angle_tokens(angle, out);
            let ghost ga = views(out@);
            out.push(Token::Comma);
            let ghost g1 = views(out@);
            proof {
                assert(g1 =~= ga + seq![Tok::Comma]);
                assert(g1 =~= views(old(out)@) + seq![Tok::FunctionStart("linear-gradient"@)]
                    + spec_angle_tokens(*angle) + seq![Tok::Comma]);
            }
            write_color_tokens(from, out);
            out.push(Token::Comma);
            let ghost g2 = views(out@);
            proof {
                assert(g2 =~= g1 + spec_color_tokens(*from) + seq![Tok::Comma]);
            }
            write_color_tokens(to, out);
            let ghost g3 = views(out@);
            match repeat {
                Some(l) => {
                    out.push(Token::Comma);
                    let ghost g4 = views(out@);
                    proof {
                        assert(g4 =~= g3 + seq![Tok::Comma]);
                    }
                    write_length_tokens(l, out);
                    let ghost g5 = views(out@);
                    out.push(Token::FunctionEnd);
                    proof {
                        assert(views(out@) =~= g5 + seq![Tok::FunctionEnd]);
                        assert(views(out@) =~= g3 + seq![Tok::Comma] + spec_length_tokens(*l)
                            + seq![Tok::FunctionEnd]);
                        assert(views(out@) =~= views(old(out)@) + spec_gradient_tokens(*g));
                    }
                },
                None => {
                    out.push(Token::FunctionEnd);
                    proof {
                        assert(views(out@) =~= g3 + seq![Tok::FunctionEnd]);
                        assert(views(out@) =~= views(old(out)@) + spec_gradient_tokens(*g));
                    }
                },
            }
        },
        Gradient::Radial { from, to, shape } => {
            out.push(Token::FunctionStart(String::from_str("radial-gradient")));
            let name = match shape {
                RadialGradientShape::Circle => "circle",
                RadialGradientShape::Ellipse => "ellipse",
            };
            out.push(Token::Ident(String::from_str(name)));
            out.push(Token::Comma);
            let ghost g1 = views(out@);
            proof {
                assert(g1 =~= views(old(out)@) + seq![
                    Tok::FunctionStart("radial-gradient"@),
                    Tok::Ident(spec_radial_shape_name(*shape)),
                    Tok::Comma,
                ]);
            }
            write_color_tokens(from, out);
            out.push(Token::Comma);
            let ghost g2 = views(out@);
            proof {
                assert(g2 =~= g1 + spec_color_tokens(*from) + seq![Tok::Comma]);
            }
            write_color_tokens(to, out);
            let ghost g3 = views(out@);
            out.push(Token::FunctionEnd);
            proof {
                assert(views(out@) =~= g3 + seq![Tok::FunctionEnd]);
                assert(views(out@) =~= g2 + spec_color_tokens(*to) + seq![Tok::FunctionEnd]);
                assert(views(out@) =~= views(old(out)@) + spec_gradient_tokens(*g));
            }
        },
    }
}

/// Serialize an `<image>`, appending to `out`.
pub fn write_image_tokens(v: &Image, out: &mut Vec<Token>)
    ensures
        views(final(out)@) == views(old(out)@) + spec_image_tokens(v@),
{
    match v {
        Image::Url(u) => {
            write_url_tokens(u, out);
        },
        Image::Gradient(g) => {
            write_gradient_tokens(g, out);
        },
    }
}

/// Well-formed image model: gradient colors are well-formed.
pub open spec fn spec_image_view_wf(v: ImageView) -> bool {
    v matches ImageView::Gradient(g) ==> spec_gradient_wf(g)
}

/// A serialized linear gradient's arguments parse back from position 1.
#[verifier::rlimit(60)]
proof fn lemma_linear_gradient_args_round_trip(g: Gradient)
    requires
        g is Linear,
        spec_gradient_wf(g),
    ensures
        spec_parse_linear_gradient_args(spec_gradient_tokens(g), 1) == ParseStep::Done(
            g,
            spec_gradient_tokens(g).len() as int,
        ),
{
    let s = spec_gradient_tokens(g);
    match g {
        Gradient::Linear { from, to, angle, repeat } => {
            let cf = spec_color_tokens(from);
            let ct = spec_color_tokens(to);
            let nf = cf.len() as int;
            let nt = ct.len() as int;
            assert(s[1] == Tok::Dimension(angle.0, spec_angle_unit_name(angle.1)));
            lemma_angle_unit_name_round_trip(angle.1);
            assert(s[2] == Tok::Comma);
            assert(s.subrange(3, 3 + nf) =~= cf);
            lemma_color_parses_at(from, s, 3);
            assert(s[3 + nf] == Tok::Comma);
            assert(s.subrange(4 + nf, 4 + nf + nt) =~= ct);
            lemma_color_parses_at(to, s, 4 + nf);
            match repeat {
                Some(l) => {
                    assert(s[4 + nf + nt] == Tok::Comma);
                    assert(s[5 + nf + nt] == Tok::Dimension(l.0, spec_length_unit_name(l.1)));
                    lemma_length_unit_name_round_trip(l.1);
                    assert(s[6 + nf + nt] == Tok::FunctionEnd);
                },
                None => {
                    assert(s[4 + nf + nt] == Tok::FunctionEnd);
                },
            }
        },
        Gradient::Radial { .. } => {
        },
    }
}

/// A serialized radial gradient's arguments parse back from position 1.
#[verifier::rlimit(60)]
proof fn lemma_radial_gradient_args_round_trip(g: Gradient)
    requires
        g is Radial,
        spec_gradient_wf(g),
    ensures
        spec_parse_radial_gradient_args(spec_gradient_tokens(g), 1) == ParseStep::Done(
            g,
            spec_gradient_tokens(g).len() as int,
        ),
{
    reveal_strlit("circle");
    reveal_strlit("ellipse");
    let s = spec_gradient_tokens(g);
    match g {
        Gradient::Radial { from, to, shape } => {
            let cf = spec_color_tokens(from);
            let ct = spec_color_tokens(to);
            let nf = cf.len() as int;
            let nt = ct.len() as int;
            assert(s[1] == Tok::Ident(spec_radial_shape_name(shape)));
            assert("circle"@.len() == 6 && "ellipse"@.len() == 7);
            assert(s[2] == Tok::Comma);
            assert(s.subrange(3, 3 + nf) =~= cf);
            lemma_color_parses_at(from, s, 3);
            assert(s[3 + nf] == Tok::Comma);
            assert(s.subrange(4 + nf, 4 + nf + nt) =~= ct);
            lemma_color_parses_at(to, s, 4 + nf);
            assert(s[4 + nf + nt] == Tok::FunctionEnd);
        },
        Gradient::Linear { .. } => {
        },
    }
}

// ------------------------------------------------------------------
// The cursor only moves forward
// ------------------------------------------------------------------
/// A successful `<number>` parse advances the cursor and stays in range.
pub proof fn lemma_number_advances(s: Seq<Tok>, i: int)
    requires
        0 <= i <= s.len(),
    ensures
        spec_parse_number(s, i) matches ParseStep::Done(_, k) ==> i < k <= s.len(),
{
    lemma_skip_ws_bounds(s, i);
}

/// A successful `<percentage>` parse advances the cursor.
pub proof fn lemma_percentage_advances(s: Seq<Tok>, i: int)
    requires
        0 <= i <= s.len(),
    ensures
        spec_parse_percentage(s, i) matches ParseStep::Done(_, k) ==> i < k <= s.len(),
{
    lemma_skip_ws_bounds(s, i);
}

/// A successful `<length>` parse advances the cursor.
pub proof fn lemma_length_advances(s: Seq<Tok>, i: int)
    requires
        0 <= i <= s.len(),
    ensures
        spec_parse_length(s, i) matches ParseStep::Done(_, k) ==> i < k <= s.len(),
{
    lemma_skip_ws_bounds(s, i);
}

/// A successful `<time>` parse advances the cursor.
pub proof fn lemma_time_advances(s: Seq<Tok>, i: int)
    requires
        0 <= i <= s.len(),
    ensures
        spec_parse_time(s, i) matches ParseStep::Done(_, k) ==> i < k <= s.len(),
{
    lemma_skip_ws_bounds(s, i);
}

/// A successful `<angle>` parse advances the cursor.
pub proof fn lemma_angle_advances(s: Seq<Tok>, i: int)
    requires
        0 <= i <= s.len(),
    ensures
        spec_parse_angle(s, i) matches ParseStep::Done(_, k) ==> i < k <= s.len(),
{
    lemma_skip_ws_bounds(s, i);
}

/// A successful comma parse advances the cursor.
pub proof fn lemma_comma_advances(s: Seq<Tok>, i: int)
    requires
        0 <= i <= s.len(),
    ensures
        spec_parse_comma(s, i) matches ParseStep::Done(_, k) ==> i < k <= s.len(),
{
    lemma_skip_ws_bounds(s, i);
}

/// A successful `<line-width>` parse advances the cursor.
pub proof fn lemma_line_width_advances(s: Seq<Tok>, i: int)
    requires
        0 <= i <= s.len(),
    ensures
        spec_parse_line_width(s, i) matches ParseStep::Done(_, k) ==> i < k <= s.len(),
{
    lemma_skip_ws_bounds(s, i);
    lemma_length_advances(s, i);
}

/// A successful alpha parse advances the cursor.
pub proof fn lemma_alpha_advances(s: Seq<Tok>, i: int)
    requires
        0 <= i <= s.len(),
    ensures
        spec_parse_alpha(s, i) matches ParseStep::Done(_, k) ==> i < k <= s.len(),
{
    lemma_skip_ws_bounds(s, i);
}

/// A successful color tail parse advances the cursor.
pub proof fn lemma_color_tail_advances(s: Seq<Tok>, i: int)
    requires
        0 <= i <= s.len(),
    ensures
        spec_parse_color_tail(s, i) matches ParseStep::Done(_, k) ==> i < k <= s.len(),
{
    lemma_skip_ws_bounds(s, i);
    let j = skip_ws(s, i);
    if j < s.len() && s[j] is Comma {
        lemma_alpha_advances(s, j + 1);
        match spec_parse_alpha(s, j + 1) {
            ParseStep::Done(_, k) => {
                lemma_skip_ws_bounds(s, k);
            },
            ParseStep::Fail(_, _) => {
            },
        }
    }
}

/// A successful color function argument parse advances the cursor.  The
/// four families share one argument shape: three channels, two commas and
/// the tail.
proof fn lemma_color_args_advance(s: Seq<Tok>, i: int)
    requires
        0 <= i <= s.len(),
    ensures
        spec_parse_rgb_args(s, i) matches ParseStep::Done(_, k) ==> i < k <= s.len(),
        spec_parse_hsl_args(s, i) matches ParseStep::Done(_, k) ==> i < k <= s.len(),
        spec_parse_lch_args(s, i) matches ParseStep::Done(_, k) ==> i < k <= s.len(),
        spec_parse_lab_args(s, i) matches ParseStep::Done(_, k) ==> i < k <= s.len(),
{
    lemma_number_advances(s, i);
    lemma_percentage_advances(s, i);
    match spec_parse_number(s, i) {
        ParseStep::Done(_, k1) => {
            lemma_chain_after_first_channel(s, k1);
        },
        ParseStep::Fail(_, _) => {
        },
    }
    match spec_parse_percentage(s, i) {
        ParseStep::Done(_, k1) => {
            lemma_chain_after_first_channel(s, k1);
        },
        ParseStep::Fail(_, _) => {
        },
    }
}

/// After the first channel, the comma/channel/comma/channel/tail chain
/// advances the cursor, whatever the channel kinds.
proof fn lemma_chain_after_first_channel(s: Seq<Tok>, k1: int)
    requires
        0 <= k1 <= s.len(),
    ensures
        spec_parse_comma(s, k1) matches ParseStep::Done(_, k2) ==> k1 < k2 <= s.len() && {
            &&& spec_parse_number(s, k2) matches ParseStep::Done(_, k3) ==> k2 < k3 <= s.len()
                && chain_tail_advances(s, k3)
            &&& spec_parse_percentage(s, k2) matches ParseStep::Done(_, k3) ==> k2 < k3 <= s.len()
                && chain_tail_advances(s, k3)
        },
{
    lemma_comma_advances(s, k1);
    match spec_parse_comma(s, k1) {
        ParseStep::Done(_, k2) => {
            lemma_number_advances(s, k2);
            lemma_percentage_advances(s, k2);
            match spec_parse_number(s, k2) {
                ParseStep::Done(_, k3) => {
                    lemma_chain_tail(s, k3);
                },
                ParseStep::Fail(_, _) => {
                },
            }
            match spec_parse_percentage(s, k2) {
                ParseStep::Done(_, k3) => {
                    lemma_chain_tail(s, k3);
                },
                ParseStep::Fail(_, _) => {
                },
            }
        },
        ParseStep::Fail(_, _) => {
        },
    }
}

/// The third comma, third channel and tail advance the cursor.
pub open spec fn chain_tail_advances(s: Seq<Tok>, k3: int) -> bool {
    spec_parse_comma(s, k3) matches ParseStep::Done(_, k4) ==> k3 < k4 <= s.len() && {
        &&& spec_parse_number(s, k4) matches ParseStep::Done(_, k5) ==> k4 < k5 <= s.len() && (
        spec_parse_color_tail(s, k5) matches ParseStep::Done(_, k6) ==> k5 < k6 <= s.len())
        &&& spec_parse_percentage(s, k4) matches ParseStep::Done(_, k5) ==> k4 < k5 <= s.len() && (
        spec_parse_color_tail(s, k5) matches ParseStep::Done(_, k6) ==> k5 < k6 <= s.len())
    }
}

/// Establish [`chain_tail_advances`].
proof fn lemma_chain_tail(s: Seq<Tok>, k3: int)
    requires
        0 <= k3 <= s.len(),
    ensures
        chain_tail_advances(s, k3),
{
    lemma_comma_advances(s, k3);
    match spec_parse_comma(s, k3) {
        ParseStep::Done(_, k4) => {
            lemma_number_advances(s, k4);
            lemma_percentage_advances(s, k4);
            match spec_parse_number(s, k4) {
                ParseStep::Done(_, k5) => {
                    lemma_color_tail_advances(s, k5);
                },
                ParseStep::Fail(_, _) => {
                },
            }
            match spec_parse_percentage(s, k4) {
                ParseStep::Done(_, k5) => {
                    lemma_color_tail_advances(s, k5);
                },
                ParseStep::Fail(_, _) => {
                },
            }
        },
        ParseStep::Fail(_, _) => {
        },
    }
}

/// A successful `<color>` parse advances the cursor.
pub proof fn lemma_color_advances(s: Seq<Tok>, i: int)
    requires
        0 <= i <= s.len(),
    ensures
        spec_parse_color(s, i) matches ParseStep::Done(_, k) ==> i < k <= s.len(),
{
    lemma_skip_ws_bounds(s, i);
    let j = skip_ws(s, i);
    if 0 <= j < s.len() {
        lemma_color_args_advance(s, j + 1);
    }
}

/// A successful gradient tail parse advances the cursor.
pub proof fn lemma_gradient_tail_advances(s: Seq<Tok>, i: int)
    requires
        0 <= i <= s.len(),
    ensures
        spec_parse_gradient_tail(s, i) matches ParseStep::Done(_, k) ==> i < k <= s.len(),
{
    lemma_skip_ws_bounds(s, i);
    let j = skip_ws(s, i);
    if j < s.len() && s[j] is Comma {
        lemma_length_advances(s, j + 1);
        match spec_parse_length(s, j + 1) {
            ParseStep::Done(_, k) => {
                lemma_skip_ws_bounds(s, k);
            },
            ParseStep::Fail(_, _) => {
            },
        }
    }
}

/// A successful linear gradient argument parse advances the cursor.
pub proof fn lemma_linear_gradient_args_advance(s: Seq<Tok>, i: int)
    requires
        0 <= i <= s.len(),
    ensures
        spec_parse_linear_gradient_args(s, i) matches ParseStep::Done(_, k) ==> i < k <= s.len(),
{
    lemma_angle_advances(s, i);
    match spec_parse_angle(s, i) {
        ParseStep::Done(_, k1) => {
            lemma_comma_advances(s, k1);
            match spec_parse_comma(s, k1) {
                ParseStep::Done(_, k2) => {
                    lemma_color_advances(s, k2);
                    match spec_parse_color(s, k2) {
                        ParseStep::Done(_, k3) => {
                            lemma_comma_advances(s, k3);
                            match spec_parse_comma(s, k3) {
                                ParseStep::Done(_, k4) => {
                                    lemma_color_advances(s, k4);
                                    match spec_parse_color(s, k4) {
                                        ParseStep::Done(_, k5) => {
                                            lemma_gradient_tail_advances(s, k5);
                                        },
                                        ParseStep::Fail(_, _) => {
                                        },
                                    }
                                },
                                ParseStep::Fail(_, _) => {
                                },
                            }
                        },
                        ParseStep::Fail(_, _) => {
                        },
                    }
                },
                ParseStep::Fail(_, _) => {
                },
            }
        },
        ParseStep::Fail(_, _) => {
        },
    }
}

/// A successful radial gradient argument parse advances the cursor.
pub proof fn lemma_radial_gradient_args_advance(s: Seq<Tok>, i: int)
    requires
        0 <= i <= s.len(),
    ensures
        spec_parse_radial_gradient_args(s, i) matches ParseStep::Done(_, k) ==> i < k <= s.len(),
{
    lemma_skip_ws_bounds(s, i);
    let j = skip_ws(s, i);
    if j < s.len() {
        lemma_comma_advances(s, j + 1);
        match spec_parse_comma(s, j + 1) {
            ParseStep::Done(_, k1) => {
                lemma_color_advances(s, k1);
                match spec_parse_color(s, k1) {
                    ParseStep::Done(_, k2) => {
                        lemma_comma_advances(s, k2);
                        match spec_parse_comma(s, k2) {
                            ParseStep::Done(_, k3) => {
                                lemma_color_advances(s, k3);
                                match spec_parse_color(s, k3) {
                                    ParseStep::Done(_, k4) => {
                                        lemma_skip_ws_bounds(s, k4);
                                    },
                                    ParseStep::Fail(_, _) => {
                                    },
                                }
                            },
                            ParseStep::Fail(_, _) => {
                            },
                        }
                    },
                    ParseStep::Fail(_, _) => {
                    },
                }
            },
            ParseStep::Fail(_, _) => {
            },
        }
    }
}

/// A successful `<image>` parse advances the cursor.
pub proof fn lemma_image_advances(s: Seq<Tok>, i: int)
    requires
        0 <= i <= s.len(),
    ensures
        spec_parse_image(s, i) matches ParseStep::Done(_, k) ==> i < k <= s.len(),
{
    lemma_skip_ws_bounds(s, i);
    let j = skip_ws(s, i);
    if 0 <= j < s.len() {
        lemma_linear_gradient_args_advance(s, j + 1);
        lemma_radial_gradient_args_advance(s, j + 1);
    }
}

/// Law: a serialized `<image>` parses back to the same model value, urls
/// and gradients alike.
pub proof fn lemma_image_round_trip(v: ImageView)
    requires
        spec_image_view_wf(v),
    ensures
        spec_parse_image(spec_image_tokens(v), 0) == ParseStep::Done(
            v,
            spec_image_tokens(v).len() as int,
        ),
{
    reveal_strlit("linear-gradient");
    reveal_strlit("radial-gradient");
    let s = spec_image_tokens(v);
    match v {
        ImageView::Url(t) => {
        },
        ImageView::Gradient(g) => {
            assert("linear-gradient"@[0] == 'l' && "radial-gradient"@[0] == 'r');
            match g {
                Gradient::Linear { .. } => {
                    assert(s[0] == Tok::FunctionStart("linear-gradient"@));
                    lemma_linear_gradient_args_round_trip(g);
                },
                Gradient::Radial { .. } => {
                    assert(s[0] == Tok::FunctionStart("radial-gradient"@));
                    lemma_radial_gradient_args_round_trip(g);
                },
            }
        },
    }
}

} // verus!
