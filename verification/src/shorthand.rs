//! Shorthand properties and their expand/collapse rules.
//!
//! A shorthand holds an `Option` per longhand it controls: "not specified"
//! is a distinct state from "specified with the initial value".  `expand`
//! fills every unspecified longhand with that longhand's documented
//! initial value; `collapse` is the inverse canonicalization, turning a
//! longhand explicitly set to its initial value back into "not specified".
//! Expanding is idempotent, and collapsing an expanded canonical shorthand
//! recovers it exactly.
//!
//! In this model the initial border color is opaque black, `rgb(0, 0, 0)`;
//! the initial border style is `none` and the initial width `medium`; an
//! animation's initial duration and delay are zero seconds.

use vstd::prelude::*;

use crate::data_types;
use crate::data_types::{Color, LineStyle, LineWidth, Time};
use crate::properties::{
    AnimationDelay, AnimationDirection, AnimationDuration, AnimationFillMode,
    AnimationIterationCount, AnimationName, AnimationPlayState, AnimationTimingFunction,
    BackgroundLayerAttachment, BackgroundLayerClip, BackgroundLayerColor, BackgroundLayerImage,
    BackgroundLayerOrigin, BackgroundLayerPosition, BackgroundLayerRepeat, BackgroundLayerSize,
    BorderImageOutset, BorderImageRepeat, BorderImageSlice, BorderImageSource, BorderImageWidth,
};
use crate::errors::{CssError, Expected, ParseFailure};
use crate::parser::{Ast, ParseStep};
use crate::scalar::Scalar;
use crate::tokens::{skip_ws, skip_ws_at, views, Tok, Token};
use crate::units::TimeUnit;

verus! {

/// The `all` shorthand: only the CSS-wide keywords.
#[derive(Clone, Copy, Debug, PartialEq, Eq, Structural)]
pub enum All {
    Initial,
    Inherit,
    Unset,
    Revert,
}

/// The `animation` shorthand: one option per controlled longhand.
#[derive(Debug, PartialEq, Eq)]
pub struct Animation {
    pub name: Option<AnimationName>,
    pub duration: Option<AnimationDuration>,
    pub timing_function: Option<AnimationTimingFunction>,
    pub delay: Option<AnimationDelay>,
    pub direction: Option<AnimationDirection>,
    pub iteration_count: Option<AnimationIterationCount>,
    pub fill_mode: Option<AnimationFillMode>,
    pub play_state: Option<AnimationPlayState>,
}

/// The ghost view of an [`Animation`]: the name by its text, the rest by
/// value.
pub ghost struct AnimationView {
    pub name: Option<crate::properties::AnimationNameView>,
    pub duration: Option<AnimationDuration>,
    pub timing_function: Option<AnimationTimingFunction>,
    pub delay: Option<AnimationDelay>,
    pub direction: Option<AnimationDirection>,
    pub iteration_count: Option<AnimationIterationCount>,
    pub fill_mode: Option<AnimationFillMode>,
    pub play_state: Option<AnimationPlayState>,
}

impl View for Animation {
    type V = AnimationView;

    open spec fn view(&self) -> AnimationView {
        AnimationView {
            name: match self.name {
                Some(n) => Some(n@),
                None => None,
            },
            duration: self.duration,
            timing_function: self.timing_function,
            delay: self.delay,
            direction: self.direction,
            iteration_count: self.iteration_count,
            fill_mode: self.fill_mode,
            play_state: self.play_state,
        }
    }
}

/// The `background` shorthand: one record per layer.
#[derive(Debug, PartialEq, Eq)]
pub struct Background(pub Vec<BackgroundLayer>);

/// One background layer's components.
#[derive(Debug, PartialEq, Eq)]
pub struct BackgroundLayer {
    pub attachment: Option<BackgroundLayerAttachment>,
    pub clip: Option<BackgroundLayerClip>,
    pub color: Option<BackgroundLayerColor>,
    pub image: Option<BackgroundLayerImage>,
    pub origin: Option<BackgroundLayerOrigin>,
    pub position: Option<BackgroundLayerPosition>,
    pub repeat: Option<BackgroundLayerRepeat>,
    pub size: Option<BackgroundLayerSize>,
}

/// The `border` shorthand: color, style and width, each optional.
#[derive(Clone, Copy, Debug, PartialEq, Eq, Structural)]
pub struct Border {
    pub color: Option<data_types::Color>,
    pub style: Option<data_types::LineStyle>,
    pub width: Option<data_types::LineWidth>,
}

/// The initial border color of this model: opaque black.
pub open spec fn spec_initial_border_color() -> Color {
    Color::Rgb {
        red: Scalar::spec_int(0),
        green: Scalar::spec_int(0),
        blue: Scalar::spec_int(0),
        alpha: None,
    }
}

/// The initial border color, executable.
pub fn initial_border_color() -> (r: Color)
    ensures
        r == spec_initial_border_color(),
{
    Color::Rgb {
        red: Scalar::from_int(0),
        green: Scalar::from_int(0),
        blue: Scalar::from_int(0),
        alpha: None,
    }
}

impl Border {
    /// The expansion: every longhand the shorthand does not set takes its
    /// documented initial value.
    pub open spec fn spec_expand(self) -> Border {
        Border {
            color: Some(
                match self.color {
                    Some(c) => c,
                    None => spec_initial_border_color(),
                },
            ),
            style: Some(
                match self.style {
                    Some(s) => s,
                    None => LineStyle::NoneKeyword,
                },
            ),
            width: Some(
                match self.width {
                    Some(w) => w,
                    None => LineWidth::Medium,
                },
            ),
        }
    }

    /// The collapse: a longhand equal to its initial value becomes "not
    /// specified"; nothing else changes, so no information is lost.
    pub open spec fn spec_collapse(self) -> Border {
        Border {
            color: if self.color == Some(spec_initial_border_color()) {
                None
            } else {
                self.color
            },
            style: if self.style == Some(LineStyle::NoneKeyword) {
                None
            } else {
                self.style
            },
            width: if self.width == Some(LineWidth::Medium) {
                None
            } else {
                self.width
            },
        }
    }

    /// Canonical: no longhand is explicitly set to its initial value.
    pub open spec fn spec_canonical(self) -> bool {
        &&& self.color != Some(spec_initial_border_color())
        &&& self.style != Some(LineStyle::NoneKeyword)
        &&& self.width != Some(LineWidth::Medium)
    }

    /// Expand to the equivalent complete set of longhand values.
    pub fn expand(&self) -> (r: Border)
        ensures
            r == self.spec_expand(),
            r.color is Some && r.style is Some && r.width is Some,
    {
        Border {
            color: Some(
                match self.color {
                    Some(c) => c,
                    None => initial_border_color(),
                },
            ),
            style: Some(
                match self.style {
                    Some(s) => s,
                    None => LineStyle::NoneKeyword,
                },
            ),
            width: Some(
                match self.width {
                    Some(w) => w,
                    None => LineWidth::Medium,
                },
            ),
        }
    }

    /// Collapse a set of longhand values to the canonical shorthand.
    pub fn collapse(&self) -> (r: Border)
        ensures
            r == self.spec_collapse(),
    {
        let init_color = initial_border_color();
        let color = match self.color {
            Some(c) => if c == init_color {
                None
            } else {
                Some(c)
            },
            None => None,
        };
        let style = match self.style {
            Some(s) => if s == LineStyle::NoneKeyword {
                None
            } else {
                Some(s)
            },
            None => None,
        };
        let width = match self.width {
            Some(w) => if w == LineWidth::Medium {
                None
            } else {
                Some(w)
            },
            None => None,
        };
        Border { color, style, width }
    }
}

/// Law: collapsing an expanded border shorthand recovers it, whenever the
/// shorthand is canonical (no longhand explicitly set to its initial
/// value, the one case in which the distinction cannot survive).
pub proof fn lemma_border_collapse_expand(s: Border)
    requires
        s.spec_canonical(),
    ensures
        s.spec_expand().spec_collapse() == s,
{
}

/// Law: expanding is idempotent; longhands produced by an expansion are
/// left unchanged by another.
pub proof fn lemma_border_expand_idempotent(s: Border)
    ensures
        s.spec_expand().spec_expand() == s.spec_expand(),
{
}

/// The `animation` longhands' initial values.
pub open spec fn spec_initial_animation() -> Animation {
    Animation {
        name: Some(AnimationName::NoneKeyword),
        duration: Some(
            AnimationDuration(
                crate::data_types::PositiveTime::spec_new(Scalar::spec_int(0), TimeUnit::S),
            ),
        ),
        timing_function: Some(AnimationTimingFunction::Ease),
        delay: Some(AnimationDelay(Time(Scalar::spec_int(0), TimeUnit::S))),
        direction: Some(AnimationDirection::Normal),
        iteration_count: Some(
            AnimationIterationCount::Finite(
                crate::data_types::PositiveNumber::spec_new(Scalar::spec_int(1)),
            ),
        ),
        fill_mode: Some(AnimationFillMode::NoneKeyword),
        play_state: Some(AnimationPlayState::Running),
    }
}

impl Animation {
    /// The expansion: every longhand the shorthand omits takes the
    /// property's documented initial value, never the previous cascade
    /// value.
    pub open spec fn spec_expand(self) -> Animation {
        let init = spec_initial_animation();
        Animation {
            name: if self.name is Some {
                self.name
            } else {
                init.name
            },
            duration: if self.duration is Some {
                self.duration
            } else {
                init.duration
            },
            timing_function: if self.timing_function is Some {
                self.timing_function
            } else {
                init.timing_function
            },
            delay: if self.delay is Some {
                self.delay
            } else {
                init.delay
            },
            direction: if self.direction is Some {
                self.direction
            } else {
                init.direction
            },
            iteration_count: if self.iteration_count is Some {
                self.iteration_count
            } else {
                init.iteration_count
            },
            fill_mode: if self.fill_mode is Some {
                self.fill_mode
            } else {
                init.fill_mode
            },
            play_state: if self.play_state is Some {
                self.play_state
            } else {
                init.play_state
            },
        }
    }

    /// The collapse: a longhand equal to its initial value becomes "not
    /// specified".
    pub open spec fn spec_collapse(self) -> Animation {
        let init = spec_initial_animation();
        Animation {
            name: if self.name == init.name {
                None
            } else {
                self.name
            },
            duration: if self.duration == init.duration {
                None
            } else {
                self.duration
            },
            timing_function: if self.timing_function == init.timing_function {
                None
            } else {
                self.timing_function
            },
            delay: if self.delay == init.delay {
                None
            } else {
                self.delay
            },
            direction: if self.direction == init.direction {
                None
            } else {
                self.direction
            },
            iteration_count: if self.iteration_count == init.iteration_count {
                None
            } else {
                self.iteration_count
            },
            fill_mode: if self.fill_mode == init.fill_mode {
                None
            } else {
                self.fill_mode
            },
            play_state: if self.play_state == init.play_state {
                None
            } else {
                self.play_state
            },
        }
    }

    /// Canonical: no longhand is explicitly set to its initial value.
    pub open spec fn spec_canonical(self) -> bool {
        let init = spec_initial_animation();
        &&& self.name != init.name
        &&& self.duration != init.duration
        &&& self.timing_function != init.timing_function
        &&& self.delay != init.delay
        &&& self.direction != init.direction
        &&& self.iteration_count != init.iteration_count
        &&& self.fill_mode != init.fill_mode
        &&& self.play_state != init.play_state
    }
}

/// The `animation` longhands' initial values, executable.
pub fn initial_animation() -> (r: Animation)
    ensures
        r@ == spec_initial_animation()@,
        r == spec_initial_animation(),
{
    let duration = crate::data_types::PositiveTime::zero(TimeUnit::S);
    let count = crate::data_types::PositiveNumber::one();
    Animation {
        name: Some(AnimationName::NoneKeyword),
        duration: Some(AnimationDuration(duration)),
        timing_function: Some(AnimationTimingFunction::Ease),
        delay: Some(AnimationDelay(Time(Scalar::from_int(0), TimeUnit::S))),
        direction: Some(AnimationDirection::Normal),
        iteration_count: Some(AnimationIterationCount::Finite(count)),
        fill_mode: Some(AnimationFillMode::NoneKeyword),
        play_state: Some(AnimationPlayState::Running),
    }
}

impl Animation {
    /// Expand to the equivalent complete set of longhand values.
    pub fn expand(&self) -> (r: Animation)
        ensures
            r == self.spec_expand(),
    {
        let init = initial_animation();
        Animation {
            name: match &self.name {
                Some(n) => Some(n.dup()),
                None => init.name,
            },
            duration: if self.duration.is_some() {
                self.duration
            } else {
                init.duration
            },
            timing_function: if self.timing_function.is_some() {
                self.timing_function
            } else {
                init.timing_function
            },
            delay: if self.delay.is_some() {
                self.delay
            } else {
                init.delay
            },
            direction: if self.direction.is_some() {
                self.direction
            } else {
                init.direction
            },
            iteration_count: if self.iteration_count.is_some() {
                self.iteration_count
            } else {
                init.iteration_count
            },
            fill_mode: if self.fill_mode.is_some() {
                self.fill_mode
            } else {
                init.fill_mode
            },
            play_state: if self.play_state.is_some() {
                self.play_state
            } else {
                init.play_state
            },
        }
    }

    /// Collapse a set of longhand values to the canonical shorthand.
    pub fn collapse(&self) -> (r: Animation)
        ensures
            r == self.spec_collapse(),
    {
        let init = initial_animation();
        Animation {
            name: match &self.name {
                Some(n) => match n {
                    AnimationName::NoneKeyword => None,
                    AnimationName::Custom(c) => Some(AnimationName::Custom(c.dup())),
                },
                None => None,
            },
            duration: if self.duration == init.duration {
                None
            } else {
                self.duration
            },
            timing_function: if self.timing_function == init.timing_function {
                None
            } else {
                self.timing_function
            },
            delay: if self.delay == init.delay {
                None
            } else {
                self.delay
            },
            direction: if self.direction == init.direction {
                None
            } else {
                self.direction
            },
            iteration_count: if self.iteration_count == init.iteration_count {
                None
            } else {
                self.iteration_count
            },
            fill_mode: if self.fill_mode == init.fill_mode {
                None
            } else {
                self.fill_mode
            },
            play_state: if self.play_state == init.play_state {
                None
            } else {
                self.play_state
            },
        }
    }
}

/// Law: collapsing an expanded animation shorthand recovers it, whenever
/// the shorthand is canonical.
pub proof fn lemma_animation_collapse_expand(s: Animation)
    requires
        s.spec_canonical(),
    ensures
        s.spec_expand().spec_collapse() == s,
{
}

/// Law: expanding an animation shorthand is idempotent.
pub proof fn lemma_animation_expand_idempotent(s: Animation)
    ensures
        s.spec_expand().spec_expand() == s.spec_expand(),
{
}

/// One component of the `border` shorthand, assigned to the first free
/// matching longhand: a dimension or width keyword is the width, a line
/// style keyword the style, a color function the color — in any order.
/// A component whose longhand is already set is a parse failure.
pub open spec fn spec_parse_border_component(s: Seq<Tok>, i: int, acc: Border) -> ParseStep<
    Border,
> {
    let j = skip_ws(s, i);
    if j < s.len() && s[j] is Dimension {
        match crate::bridge::spec_parse_line_width(s, i) {
            ParseStep::Done(w, k) => {
                if acc.width is None {
                    ParseStep::Done(Border { width: Some(w), ..acc }, k)
                } else {
                    ParseStep::Fail(j, Expected::PropertyValue)
                }
            },
            ParseStep::Fail(at, e) => ParseStep::Fail(at, e),
        }
    } else if j < s.len() && s[j] is Ident {
        let name = s[j]->Ident_0;
        if crate::bridge::spec_line_style_from_name(name) is Some {
            if acc.style is None {
                ParseStep::Done(
                    Border { style: crate::bridge::spec_line_style_from_name(name), ..acc },
                    j + 1,
                )
            } else {
                ParseStep::Fail(j, Expected::PropertyValue)
            }
        } else if name == "thin"@ || name == "medium"@ || name == "thick"@ {
            if acc.width is None {
                match crate::bridge::spec_parse_line_width(s, i) {
                    ParseStep::Done(w, k) => ParseStep::Done(Border { width: Some(w), ..acc }, k),
                    ParseStep::Fail(at, e) => ParseStep::Fail(at, e),
                }
            } else {
                ParseStep::Fail(j, Expected::PropertyValue)
            }
        } else {
            ParseStep::Fail(j, Expected::PropertyValue)
        }
    } else if j < s.len() && s[j] is FunctionStart {
        if acc.color is None {
            match crate::bridge::spec_parse_color(s, i) {
                ParseStep::Done(c, k) => ParseStep::Done(Border { color: Some(c), ..acc }, k),
                ParseStep::Fail(at, e) => ParseStep::Fail(at, e),
            }
        } else {
            ParseStep::Fail(j, Expected::PropertyValue)
        }
    } else {
        ParseStep::Fail(j, Expected::PropertyValue)
    }
}

/// A successful component parse advances the cursor.
proof fn lemma_border_component_advances(s: Seq<Tok>, i: int, acc: Border)
    requires
        0 <= i <= s.len(),
    ensures
        spec_parse_border_component(s, i, acc) matches ParseStep::Done(_, k) ==> i < k <= s.len(),
{
    crate::tokens::lemma_skip_ws_bounds(s, i);
    crate::bridge::lemma_line_width_advances(s, i);
    crate::bridge::lemma_color_advances(s, i);
}

/// The whole `border` value: components in any order until the value
/// ends.
pub open spec fn spec_parse_border(s: Seq<Tok>, i: int, acc: Border) -> ParseStep<Border>
    decreases s.len() - i
        when 0 <= i <= s.len()
        via spec_parse_border_decreases
{
    let j = skip_ws(s, i);
    if j >= s.len() {
        ParseStep::Done(acc, j)
    } else {
        match spec_parse_border_component(s, i, acc) {
            ParseStep::Done(acc2, k) => spec_parse_border(s, k, acc2),
            ParseStep::Fail(at, e) => ParseStep::Fail(at, e),
        }
    }
}

#[via_fn]
proof fn spec_parse_border_decreases(s: Seq<Tok>, i: int, acc: Border) {
    crate::tokens::lemma_skip_ws_bounds(s, i);
    lemma_border_component_advances(s, i, acc);
}

/// Parse one component of the `border` shorthand.
fn parse_border_component(toks: &Vec<Token>, i: usize, acc: Border) -> (r: Result<
    (Border, usize),
    ParseFailure,
>)
    requires
        i <= toks@.len(),
    ensures
        match spec_parse_border_component(views(toks@), i as int, acc) {
            ParseStep::Done(m, n) => r matches Ok(p) && p.0 == m && p.1 == n,
            ParseStep::Fail(at, e) => r matches Err(f) && f.position == at && f.expected == e,
        },
{
    let j = skip_ws_at(toks, i);
    if j < toks.len() && matches!(toks[j], Token::Dimension(_, _)) {
        match crate::bridge::parse_line_width(toks, i) {
            Ok((w, k)) => {
                if acc.width.is_none() {
                    Ok((Border { width: Some(w), ..acc }, k))
                } else {
                    Err(ParseFailure { position: j, expected: Expected::PropertyValue })
                }
            },
            Err(f) => Err(f),
        }
    } else if j < toks.len() && matches!(toks[j], Token::Ident(_)) {
        let name: &String = match &toks[j] {
            Token::Ident(n) => n,
            _ => {
                return Err(ParseFailure { position: j, expected: Expected::PropertyValue });
            },
        };
        if crate::bridge::line_style_from_name(name.as_str()).is_some() {
            if acc.style.is_none() {
                Ok(
                    (
                        Border { style: crate::bridge::line_style_from_name(name.as_str()), ..acc },
                        j + 1,
                    ),
                )
            } else {
                Err(ParseFailure { position: j, expected: Expected::PropertyValue })
            }
        } else if crate::tokens::str_eq(name.as_str(), "thin") || crate::tokens::str_eq(
            name.as_str(),
            "medium",
        ) || crate::tokens::str_eq(name.as_str(), "thick") {
            if acc.width.is_none() {
                match crate::bridge::parse_line_width(toks, i) {
                    Ok((w, k)) => Ok((Border { width: Some(w), ..acc }, k)),
                    Err(f) => Err(f),
                }
            } else {
                Err(ParseFailure { position: j, expected: Expected::PropertyValue })
            }
        } else {
            Err(ParseFailure { position: j, expected: Expected::PropertyValue })
        }
    } else if j < toks.len() && matches!(toks[j], Token::FunctionStart(_)) {
        if acc.color.is_none() {
            match crate::bridge::parse_color(toks, i) {
                Ok((c, k)) => Ok((Border { color: Some(c), ..acc }, k)),
                Err(f) => Err(f),
            }
        } else {
            Err(ParseFailure { position: j, expected: Expected::PropertyValue })
        }
    } else {
        Err(ParseFailure { position: j, expected: Expected::PropertyValue })
    }
}

impl Border {
    /// Parse a whole `border` shorthand value; the three components may
    /// come in any order, each at most once.
    pub fn from_tokens(ast: &Ast) -> (r: Result<Border, CssError>)
        ensures
            match spec_parse_border(
                ast@,
                0,
                Border { color: None, style: None, width: None },
            ) {
                ParseStep::Done(m, _) => r == Ok::<Border, CssError>(m),
                ParseStep::Fail(at, e) => r == Err::<Border, CssError>(
                    CssError::Parse(ParseFailure { position: at as usize, expected: e }),
                ),
            },
    {
        let ghost s = ast@;
        let toks = &ast.tokens;
        let mut acc = Border { color: None, style: None, width: None };
        let mut cur: usize = 0;
        loop
            invariant
                cur <= toks@.len(),
                s == views(toks@),
                s == ast@,
                spec_parse_border(
                    s,
                    0,
                    Border { color: None, style: None, width: None },
                ) == spec_parse_border(s, cur as int, acc),
            decreases toks@.len() - cur,
        {
            let j = skip_ws_at(toks, cur);
            if j >= toks.len() {
                proof {
                    assert(s == ast@);
                    assert(spec_parse_border(s, cur as int, acc) == ParseStep::Done(
                        acc,
                        j as int,
                    ));
                }
                return Ok(acc);
            }
            match parse_border_component(toks, cur, acc) {
                Ok((acc2, k)) => {
                    proof {
                        lemma_border_component_advances(s, cur as int, acc);
                    }
                    acc = acc2;
                    cur = k;
                },
                Err(f) => {
                    proof {
                        assert(s == ast@);
                        assert(spec_parse_border(s, cur as int, acc) == ParseStep::Fail::<Border>(
                            f.position as int,
                            f.expected,
                        ));
                    }
                    return Err(CssError::Parse(f));
                },
            }
        }
    }
}

/// The token form of a `border` shorthand: the present components in the
/// canonical order width, style, color.
pub open spec fn spec_border_tokens(b: Border) -> Seq<Tok> {
    (match b.width {
        Some(w) => crate::bridge::spec_line_width_tokens(w),
        None => Seq::empty(),
    }) + (match b.style {
        Some(st) => crate::bridge::spec_line_style_tokens(st),
        None => Seq::empty(),
    }) + (match b.color {
        Some(c) => crate::bridge::spec_color_tokens(c),
        None => Seq::empty(),
    })
}

impl Border {
    /// Serialize the shorthand: the present components in the canonical
    /// order width, style, color.
    pub fn to_tokens(&self) -> (r: Ast)
        ensures
            r@ == spec_border_tokens(*self),
    {
        let mut out: Vec<Token> = Vec::new();
        match &self.width {
            Some(w) => {
                crate::bridge::write_line_width_tokens(w, &mut out);
            },
            None => {
            },
        }
        let ghost g1 = views(out@);
        match &self.style {
            Some(st) => {
                crate::bridge::write_line_style_tokens(st, &mut out);
            },
            None => {
            },
        }
        let ghost g2 = views(out@);
        match &self.color {
            Some(c) => {
                crate::bridge::write_color_tokens(c, &mut out);
            },
            None => {
            },
        }
        proof {
            assert(views(out@) =~= spec_border_tokens(*self));
        }
        Ast { tokens: out }
    }
}

/// The `border-style` shorthand: one style per side.
#[derive(Clone, Copy, Debug, PartialEq, Eq, Structural)]
pub struct BorderStyle {
    pub top: data_types::LineStyle,
    pub left: data_types::LineStyle,
    pub bottom: data_types::LineStyle,
    pub right: data_types::LineStyle,
}

/// The `border-color` shorthand: one color per side.
#[derive(Clone, Copy, Debug, PartialEq, Eq, Structural)]
pub struct BorderColor {
    pub top: data_types::Color,
    pub left: data_types::Color,
    pub bottom: data_types::Color,
    pub right: data_types::Color,
}

/// The `border-width` shorthand: one width per side.
#[derive(Clone, Copy, Debug, PartialEq, Eq, Structural)]
pub struct BorderWidth {
    pub top: data_types::LineWidth,
    pub left: data_types::LineWidth,
    pub bottom: data_types::LineWidth,
    pub right: data_types::LineWidth,
}

/// The `border-radius` shorthand: one corner radius per corner.
#[derive(Clone, Copy, Debug, PartialEq, Eq, Structural)]
pub struct BorderRadius {
    pub top_left: data_types::RadiusCorner,
    pub top_right: data_types::RadiusCorner,
    pub bottom_right: data_types::RadiusCorner,
    pub bottom_left: data_types::RadiusCorner,
}

/// The `border-block` shorthand.
#[derive(Clone, Copy, Debug, PartialEq, Eq, Structural)]
pub struct BorderBlock(pub Border);

/// The `border-block-end` shorthand.
#[derive(Clone, Copy, Debug, PartialEq, Eq, Structural)]
pub struct BorderBlockEnd(pub Border);

/// The `border-block-start` shorthand.
#[derive(Clone, Copy, Debug, PartialEq, Eq, Structural)]
pub struct BorderBlockStart(pub Border);

/// The `border-bottom` shorthand.
#[derive(Clone, Copy, Debug, PartialEq, Eq, Structural)]
pub struct BorderBottom(pub Border);

/// The `border-left` shorthand.
#[derive(Clone, Copy, Debug, PartialEq, Eq, Structural)]
pub struct BorderLeft(pub Border);

/// The `border-right` shorthand.
#[derive(Clone, Copy, Debug, PartialEq, Eq, Structural)]
pub struct BorderRight(pub Border);

/// The `border-top` shorthand.
#[derive(Clone, Copy, Debug, PartialEq, Eq, Structural)]
pub struct BorderTop(pub Border);

/// The `border-block-style` shorthand.
#[derive(Clone, Copy, Debug, PartialEq, Eq, Structural)]
pub struct BorderBlockStyle(pub BorderStyle);

/// The `border-inline-style` shorthand.
#[derive(Clone, Copy, Debug, PartialEq, Eq, Structural)]
pub struct BorderInlineStyle(pub BorderStyle);

/// The `border-inline` shorthand.
#[derive(Clone, Copy, Debug, PartialEq, Eq, Structural)]
pub struct BorderInline(pub Border);

/// The `border-inline-end` shorthand.
#[derive(Clone, Copy, Debug, PartialEq, Eq, Structural)]
pub struct BorderInlineEnd(pub Border);

/// The `border-inline-start` shorthand.
#[derive(Clone, Copy, Debug, PartialEq, Eq, Structural)]
pub struct BorderInlineStart(pub Border);

/// The `border-inline-color` shorthand.
#[derive(Clone, Copy, Debug, PartialEq, Eq, Structural)]
pub struct BorderInlineColor(pub BorderColor);

/// The `border-block-width` shorthand.
#[derive(Clone, Copy, Debug, PartialEq, Eq, Structural)]
pub struct BorderBlockWidth {
    pub bottom: data_types::LineWidth,
    pub left: data_types::LineWidth,
    pub right: data_types::LineWidth,
    pub top: data_types::LineWidth,
}

/// The `border-image` shorthand.
#[derive(Debug, PartialEq, Eq)]
pub struct BorderImage {
    pub outset: BorderImageOutset,
    pub repeat: BorderImageRepeat,
    pub slice: BorderImageSlice,
    pub source: BorderImageSource,
    pub width: BorderImageWidth,
}

} // verus!
