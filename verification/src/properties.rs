//! The property catalog: each CSS property's typed value, and the closed
//! union [`Property`] over all of them.
//!
//! Layered properties (the background family) hold an ordered, non-empty
//! sequence of per-layer values; the n-th layer of one background
//! sub-property corresponds positionally to the n-th layer of every other,
//! and that order survives the round trip through tokens.

use vstd::prelude::*;

use crate::bridge::{
    lemma_image_advances, parse_image, spec_image_tokens, spec_parse_image, write_image_tokens,
};
use crate::data_types;
use crate::data_types::ImageView;
use crate::errors::{CssError, Expected, ParseFailure, ValueError};
use crate::parser::{step_matches_view, Ast, ParseStep};
use crate::scalar::Scalar;
use crate::tokens::{lemma_skip_ws_bounds, skip_ws, skip_ws_at, str_eq, views, Tok, Token};

verus! {

/// `accent-color`: auto or a color.
#[derive(Clone, Copy, Debug, PartialEq, Eq, Structural)]
pub enum AccentColor {
    Auto,
    Color(data_types::Color),
}

/// The value keywords of `align-content`.
#[derive(Clone, Copy, Debug, PartialEq, Eq, Structural)]
pub enum AlignContent {
    Start,
    End,
    FlexStart,
    FlexEnd,
    Center,
    Normal,
    Baseline,
    FirstBaseline,
    LastBaseline,
    SpaceBetween,
    SpaceAround,
    SpaceEvenly,
    Stretch,
}

/// The value keywords of `align-items`.
#[derive(Clone, Copy, Debug, PartialEq, Eq, Structural)]
pub enum AlignItems {
    Normal,
    FlexStart,
    FlexEnd,
    Center,
    Start,
    End,
    SelfStart,
    SelfEnd,
    Baseline,
    FirstBaseline,
    LastBaseline,
    Stretch,
}

/// The value keywords of `align-self`.
#[derive(Clone, Copy, Debug, PartialEq, Eq, Structural)]
pub enum AlignSelf {
    Auto,
    Normal,
    FlexStart,
    FlexEnd,
    Center,
    Start,
    End,
    SelfStart,
    SelfEnd,
    Baseline,
    FirstBaseline,
    LastBaseline,
    Stretch,
}

/// `animation-delay`: a time offset.
#[derive(Clone, Copy, Debug, PartialEq, Eq, Structural)]
pub struct AnimationDelay(pub data_types::Time);

/// `animation-direction`.
#[derive(Clone, Copy, Debug, PartialEq, Eq, Structural)]
pub enum AnimationDirection {
    Normal,
    Reverse,
    Alternate,
    AlternateReverse,
}

/// `animation-duration`: a non-negative time.
#[derive(Clone, Copy, Debug, PartialEq, Eq, Structural)]
pub struct AnimationDuration(pub data_types::PositiveTime);

/// `animation-fill-mode`.
#[derive(Clone, Copy, Debug, PartialEq, Eq, Structural)]
pub enum AnimationFillMode {
    NoneKeyword,
    Forwards,
    Backwards,
    Both,
}

/// `animation-iteration-count`: infinite, or a non-negative count.
#[derive(Clone, Copy, Debug, PartialEq, Eq, Structural)]
pub enum AnimationIterationCount {
    Infinite,
    Finite(data_types::PositiveNumber),
}

/// `animation-name`: none, or an author-chosen identifier.
#[derive(Debug, PartialEq, Eq)]
pub enum AnimationName {
    NoneKeyword,
    Custom(data_types::CustomIdent),
}

/// The ghost view of an [`AnimationName`].
pub ghost enum AnimationNameView {
    NoneKeyword,
    Custom(Seq<char>),
}

impl View for AnimationName {
    type V = AnimationNameView;

    open spec fn view(&self) -> AnimationNameView {
        match self {
            AnimationName::NoneKeyword => AnimationNameView::NoneKeyword,
            AnimationName::Custom(c) => AnimationNameView::Custom(c@),
        }
    }
}

/// `animation-play-state`.
#[derive(Clone, Copy, Debug, PartialEq, Eq, Structural)]
pub enum AnimationPlayState {
    Running,
    Paused,
}

/// An easing function given in functional form.
#[derive(Clone, Copy, Debug, PartialEq, Eq, Structural)]
pub enum EasingFunction {
    /// `cubic-bezier(x1, y1, x2, y2)`.
    CubicBezier(Scalar, Scalar, Scalar, Scalar),
    /// `steps(count, jump)`.
    Steps(u32, EasingStepsJump),
}

/// The jump position of a `steps(...)` easing.
#[derive(Clone, Copy, Debug, PartialEq, Eq, Structural)]
pub enum EasingStepsJump {
    Start,
    End,
    NoneKeyword,
    Both,
}

/// `animation-timing-function`: a named easing keyword or a functional
/// easing form.
#[derive(Clone, Copy, Debug, PartialEq, Eq, Structural)]
pub enum AnimationTimingFunction {
    Ease,
    Linear,
    EaseIn,
    EaseOut,
    EaseInOut,
    Easing(EasingFunction),
}

/// `appearance`.
#[derive(Clone, Copy, Debug, PartialEq, Eq, Structural)]
pub enum Appearance {
    NoneKeyword,
    Auto,
    MenulistButton,
    Textfield,
    Button,
    Checkbox,
    Listbox,
    Menulist,
    Meter,
    ProgressBar,
    PushButton,
    Radio,
    Searchfield,
    SliderHorizontal,
    SquareButton,
    Textarea,
}

/// `aspect-ratio`: auto or a width/height ratio.
#[derive(Clone, Copy, Debug, PartialEq, Eq, Structural)]
pub enum AspectRatio {
    Auto,
    Ratio(data_types::Ratio),
}

/// `backdrop-filter`: none or a list of filter functions and SVG
/// references.
#[derive(Debug, PartialEq, Eq)]
pub enum BackdropFilter {
    NoneKeyword,
    FilterFunctionList(Vec<FilterFunctionOrSvg>),
}

/// One entry of a filter list: a filter function or an SVG filter url.
#[derive(Debug, PartialEq, Eq)]
pub enum FilterFunctionOrSvg {
    Filter(data_types::FilterFunction),
    Svg(data_types::Url),
}

/// `backface-visibility`.
#[derive(Clone, Copy, Debug, PartialEq, Eq, Structural)]
pub enum BackfaceVisibility {
    Visible,
    Hidden,
}

/// `background-attachment`: one attachment per layer.
#[derive(Debug, Clone, PartialEq, Eq)]
pub struct BackgroundAttachment(pub Vec<BackgroundLayerAttachment>);

/// One layer's attachment.
#[derive(Clone, Copy, Debug, PartialEq, Eq, Structural)]
pub enum BackgroundLayerAttachment {
    Fixed,
    Local,
    Scroll,
}

/// `background-blend-mode`: one blend mode per layer.
#[derive(Debug, Clone, PartialEq, Eq)]
pub struct BackgroundBlendMode(pub Vec<BackgroundLayerBlendMode>);

/// One layer's blend mode.
#[derive(Clone, Copy, Debug, PartialEq, Eq, Structural)]
pub struct BackgroundLayerBlendMode(pub data_types::BlendMode);

/// `background-clip`: one clip box per layer.
#[derive(Debug, Clone, PartialEq, Eq)]
pub struct BackgroundClip(pub Vec<BackgroundLayerClip>);

/// One layer's clip box.
#[derive(Clone, Copy, Debug, PartialEq, Eq, Structural)]
pub enum BackgroundLayerClip {
    BorderBox,
    PaddingBox,
    ContentBox,
    Text,
}

/// `background-color`: one color per layer.
#[derive(Debug, Clone, PartialEq, Eq)]
pub struct BackgroundColor(pub Vec<BackgroundLayerColor>);

/// One layer's color.
#[derive(Clone, Copy, Debug, PartialEq, Eq, Structural)]
pub enum BackgroundLayerColor {
    Color(data_types::Color),
    CurrentColor,
    Transparent,
}

/// One layer's image: none, or an image.
#[derive(Debug, PartialEq, Eq)]
pub enum BackgroundLayerImage {
    NoneKeyword,
    Image(data_types::Image),
}

/// The ghost view of a [`BackgroundLayerImage`].
pub ghost enum BackgroundLayerImageView {
    NoneKeyword,
    Image(ImageView),
}

impl View for BackgroundLayerImage {
    type V = BackgroundLayerImageView;

    open spec fn view(&self) -> BackgroundLayerImageView {
        match self {
            BackgroundLayerImage::NoneKeyword => BackgroundLayerImageView::NoneKeyword,
            BackgroundLayerImage::Image(img) => BackgroundLayerImageView::Image(img@),
        }
    }
}

/// `background-image`: an ordered, non-empty sequence of per-layer images.
/// The first layer paints last; the order is semantically significant and
/// survives the round trip.
#[derive(Debug, PartialEq, Eq)]
pub struct BackgroundImage(Vec<BackgroundLayerImage>);

impl View for BackgroundImage {
    type V = Seq<BackgroundLayerImageView>;

    closed spec fn view(&self) -> Seq<BackgroundLayerImageView> {
        self.0@.map_values(|l: BackgroundLayerImage| l@)
    }
}

impl BackgroundImage {
    #[verifier::type_invariant]
    spec fn type_inv(self) -> bool {
        self.0@.len() >= 1
    }

    /// Validating constructor: a layered property has at least one layer.
    pub fn new(layers: Vec<BackgroundLayerImage>) -> (r: Result<BackgroundImage, ValueError>)
        ensures
            r is Ok <==> layers@.len() >= 1,
            r matches Ok(b) ==> b@ == layers@.map_values(|l: BackgroundLayerImage| l@),
            r matches Err(e) ==> e == ValueError::EmptyLayerList,
    {
        if layers.len() >= 1 {
            Ok(BackgroundImage(layers))
        } else {
            Err(ValueError::EmptyLayerList)
        }
    }

    /// The layers, in source order; always at least one.
    pub fn layers(&self) -> (r: &Vec<BackgroundLayerImage>)
        ensures
            r@.map_values(|l: BackgroundLayerImage| l@) == self@,
            r@.len() >= 1,
    {
        proof {
            use_type_invariant(self);
        }
        &self.0
    }

    /// Parse a whole declaration value as comma-separated layers; the
    /// layers keep their source order, and trailing tokens other than
    /// whitespace are a parse failure.
    pub fn from_tokens(ast: &Ast) -> (r: Result<BackgroundImage, CssError>)
        ensures
            match crate::parser::spec_complete(spec_parse_bg_layers(ast@, 0), ast@) {
                ParseStep::Done(m, _) => r matches Ok(b) && b@ == m,
                ParseStep::Fail(at, e) => r == Err::<BackgroundImage, CssError>(
                    CssError::Parse(ParseFailure { position: at as usize, expected: e }),
                ),
            },
    {
        let (layers, k) = match parse_bg_layers(&ast.tokens, 0) {
            Ok(v) => v,
            Err(f) => {
                return Err(CssError::Parse(f));
            },
        };
        proof {
            lemma_bg_layers_advances(ast@, 0);
        }
        let j = skip_ws_at(&ast.tokens, k);
        if j < ast.tokens.len() {
            return Err(
                CssError::Parse(ParseFailure { position: j, expected: Expected::EndOfInput }),
            );
        }
        proof {
            lemma_bg_layers_nonempty(ast@, 0);
        }
        match BackgroundImage::new(layers) {
            Ok(b) => Ok(b),
            Err(_) => {
                proof {
                    assert(false);
                }
                Err(CssError::UnknownProperty)
            },
        }
    }

    /// Serialize the layers back to tokens, comma-separated, in the same
    /// order.
    pub fn to_tokens(&self) -> (r: Ast)
        ensures
            r@ == spec_bg_image_tokens_from(self@, 0),
    {
        proof {
            use_type_invariant(self);
        }
        let mut out: Vec<Token> = Vec::new();
        let n = self.0.len();
        let mut idx: usize = 0;
        proof {
            assert(views(out@) + spec_bg_image_tokens_from(self@, 0) =~= spec_bg_image_tokens_from(
                self@,
                0,
            ));
        }
        while idx < n
            invariant
                n == self.0.len(),
                idx <= n,
                self@.len() == n,
                self@ == self.0@.map_values(|l: BackgroundLayerImage| l@),
                views(out@) + spec_bg_image_tokens_from(self@, idx as int)
                    == spec_bg_image_tokens_from(self@, 0),
            decreases n - idx,
        {
            let ghost before = views(out@);
            match &self.0[idx] {
                BackgroundLayerImage::NoneKeyword => {
                    out.push(Token::Ident(String::from_str("none")));
                    proof {
                        assert(views(out@) =~= before + spec_bg_layer_tokens(
                            self@[idx as int],
                        ));
                    }
                },
                BackgroundLayerImage::Image(img) => {
                    write_image_tokens(img, &mut out);
                    proof {
                        assert(self@[idx as int] == BackgroundLayerImageView::Image(img@));
                        assert(views(out@) =~= before + spec_bg_layer_tokens(
                            self@[idx as int],
                        ));
                    }
                },
            }
            let ghost mid = views(out@);
            if idx + 1 < n {
                out.push(Token::Comma);
                proof {
                    assert(views(out@) =~= mid + seq![Tok::Comma]);
                }
            }
            proof {
                assert(views(out@) + spec_bg_image_tokens_from(self@, idx + 1)
                    =~= spec_bg_image_tokens_from(self@, 0));
            }
            idx = idx + 1;
        }
        proof {
            assert(views(out@) =~= views(out@) + spec_bg_image_tokens_from(self@, n as int));
        }
        Ast { tokens: out }
    }
}

/// One layer of `background-image`: the keyword `none` or an `<image>`.
pub open spec fn spec_parse_bg_layer(s: Seq<Tok>, i: int) -> ParseStep<BackgroundLayerImageView> {
    let j = skip_ws(s, i);
    if j < s.len() && s[j] is Ident && s[j]->Ident_0 == "none"@ {
        ParseStep::Done(BackgroundLayerImageView::NoneKeyword, j + 1)
    } else {
        match spec_parse_image(s, i) {
            ParseStep::Done(v, k) => ParseStep::Done(BackgroundLayerImageView::Image(v), k),
            ParseStep::Fail(at, e) => ParseStep::Fail(at, e),
        }
    }
}

/// A successful layer parse advances the cursor.
proof fn lemma_bg_layer_advances(s: Seq<Tok>, i: int)
    requires
        0 <= i <= s.len(),
    ensures
        spec_parse_bg_layer(s, i) matches ParseStep::Done(_, k) ==> i < k <= s.len(),
{
    lemma_skip_ws_bounds(s, i);
    lemma_image_advances(s, i);
}

/// Parse one layer.
pub fn parse_bg_layer(toks: &Vec<Token>, i: usize) -> (r: Result<
    (BackgroundLayerImage, usize),
    ParseFailure,
>)
    requires
        i <= toks@.len(),
    ensures
        step_matches_view::<BackgroundLayerImage>(spec_parse_bg_layer(views(toks@), i as int), r),
{
    let j = skip_ws_at(toks, i);
    if j < toks.len() && matches!(toks[j], Token::Ident(_)) {
        let is_none = match &toks[j] {
            Token::Ident(name) => str_eq(name.as_str(), "none"),
            _ => false,
        };
        if is_none {
            return Ok((BackgroundLayerImage::NoneKeyword, j + 1));
        }
    }
    match parse_image(toks, i) {
        Ok((img, k)) => Ok((BackgroundLayerImage::Image(img), k)),
        Err(f) => Err(f),
    }
}

/// The comma-separated, order-preserving layer list of
/// `background-image`; at least one layer.
pub open spec fn spec_parse_bg_layers(s: Seq<Tok>, i: int) -> ParseStep<
    Seq<BackgroundLayerImageView>,
>
    decreases s.len() - i
        when 0 <= i <= s.len()
        via spec_parse_bg_layers_decreases
{
    match spec_parse_bg_layer(s, i) {
        ParseStep::Done(l, k) => {
            let j = skip_ws(s, k);
            if j < s.len() && s[j] is Comma {
                match spec_parse_bg_layers(s, j + 1) {
                    ParseStep::Done(rest, k2) => ParseStep::Done(seq![l] + rest, k2),
                    ParseStep::Fail(at, e) => ParseStep::Fail(at, e),
                }
            } else {
                ParseStep::Done(seq![l], k)
            }
        },
        ParseStep::Fail(at, e) => ParseStep::Fail(at, e),
    }
}

#[via_fn]
proof fn spec_parse_bg_layers_decreases(s: Seq<Tok>, i: int) {
    lemma_bg_layer_advances(s, i);
    match spec_parse_bg_layer(s, i) {
        ParseStep::Done(_, k) => {
            lemma_skip_ws_bounds(s, k);
        },
        ParseStep::Fail(_, _) => {
        },
    }
}

/// A successful layer-list parse advances the cursor and stays in range.
pub proof fn lemma_bg_layers_advances(s: Seq<Tok>, i: int)
    requires
        0 <= i <= s.len(),
    ensures
        spec_parse_bg_layers(s, i) matches ParseStep::Done(_, k) ==> i < k <= s.len(),
    decreases s.len() - i,
{
    lemma_bg_layer_advances(s, i);
    match spec_parse_bg_layer(s, i) {
        ParseStep::Done(_, k) => {
            lemma_skip_ws_bounds(s, k);
            let j = skip_ws(s, k);
            if j < s.len() && s[j] is Comma {
                lemma_bg_layers_advances(s, j + 1);
            }
        },
        ParseStep::Fail(_, _) => {
        },
    }
}

/// A successful layer-list parse yields at least one layer.
pub proof fn lemma_bg_layers_nonempty(s: Seq<Tok>, i: int)
    requires
        0 <= i <= s.len(),
    ensures
        spec_parse_bg_layers(s, i) matches ParseStep::Done(m, _) ==> m.len() >= 1,
    decreases s.len() - i,
{
    lemma_bg_layer_advances(s, i);
    match spec_parse_bg_layer(s, i) {
        ParseStep::Done(_, k) => {
            lemma_skip_ws_bounds(s, k);
            let j = skip_ws(s, k);
            if j < s.len() && s[j] is Comma {
                lemma_bg_layers_nonempty(s, j + 1);
            }
        },
        ParseStep::Fail(_, _) => {
        },
    }
}

/// Parse the whole comma-separated layer list.
pub fn parse_bg_layers(toks: &Vec<Token>, i: usize) -> (r: Result<
    (Vec<BackgroundLayerImage>, usize),
    ParseFailure,
>)
    requires
        i <= toks@.len(),
    ensures
        match spec_parse_bg_layers(views(toks@), i as int) {
            ParseStep::Done(m, n) => r matches Ok(p) && p.0@.map_values(
                |l: BackgroundLayerImage| l@,
            ) == m && p.1 == n,
            ParseStep::Fail(at, e) => r matches Err(f) && f.position == at && f.expected == e,
        },
{
    let ghost s = views(toks@);
    let mut layers: Vec<BackgroundLayerImage> = Vec::new();
    let mut cur = i;
    proof {
        assert(layers@.map_values(|l: BackgroundLayerImage| l@) =~= Seq::<
            BackgroundLayerImageView,
        >::empty());
    }
    loop
        invariant
            i <= cur <= toks@.len(),
            s == views(toks@),
            ({
                let done = layers@.map_values(|l: BackgroundLayerImage| l@);
                match spec_parse_bg_layers(s, cur as int) {
                    ParseStep::Done(rest, n) => spec_parse_bg_layers(s, i as int)
                        == ParseStep::Done(done + rest, n),
                    ParseStep::Fail(at, e) => spec_parse_bg_layers(s, i as int)
                        == ParseStep::Fail::<Seq<BackgroundLayerImageView>>(at, e),
                }
            }),
        decreases toks@.len() - cur,
    {
        let ghost done_before = layers@.map_values(|l: BackgroundLayerImage| l@);
        match parse_bg_layer(toks, cur) {
            Err(f) => {
                return Err(f);
            },
            Ok((l, k)) => {
                proof {
                    lemma_bg_layer_advances(s, cur as int);
                }
                layers.push(l);
                proof {
                    assert(layers@.map_values(|x: BackgroundLayerImage| x@) =~= done_before
                        + seq![l@]);
                }
                let j = skip_ws_at(toks, k);
                if j < toks.len() && matches!(toks[j], Token::Comma) {
                    proof {
                        match spec_parse_bg_layers(s, j + 1) {
                            ParseStep::Done(rest, n) => {
                                assert(done_before + (seq![l@] + rest) =~= (done_before
                                    + seq![l@]) + rest);
                            },
                            ParseStep::Fail(_, _) => {
                            },
                        }
                    }
                    cur = j + 1;
                } else {
                    proof {
                        assert(spec_parse_bg_layers(s, cur as int) == ParseStep::Done(
                            seq![l@],
                            k as int,
                        ));
                        assert(done_before + seq![l@] =~= layers@.map_values(
                            |x: BackgroundLayerImage| x@,
                        ));
                    }
                    return Ok((layers, k));
                }
            },
        }
    }
}

/// One layer's token form, from its model.
pub open spec fn spec_bg_layer_tokens(l: BackgroundLayerImageView) -> Seq<Tok> {
    match l {
        BackgroundLayerImageView::NoneKeyword => seq![Tok::Ident("none"@)],
        BackgroundLayerImageView::Image(v) => spec_image_tokens(v),
    }
}

/// The token form of the layers from index `idx` on, comma-separated.
pub open spec fn spec_bg_image_tokens_from(m: Seq<BackgroundLayerImageView>, idx: int) -> Seq<Tok>
    decreases m.len() - idx
        when 0 <= idx <= m.len()
{
    if idx >= m.len() {
        Seq::empty()
    } else if idx + 1 < m.len() {
        spec_bg_layer_tokens(m[idx]) + seq![Tok::Comma] + spec_bg_image_tokens_from(m, idx + 1)
    } else {
        spec_bg_layer_tokens(m[idx])
    }
}

/// `background-origin`: one origin box per layer.
#[derive(Debug, Clone, PartialEq, Eq)]
pub struct BackgroundOrigin(pub Vec<BackgroundLayerOrigin>);

/// One layer's origin box.
#[derive(Clone, Copy, Debug, PartialEq, Eq, Structural)]
pub enum BackgroundLayerOrigin {
    BorderBox,
    PaddingBox,
    ContentBox,
}

/// `background-position`: one position per layer.
#[derive(Debug, Clone, PartialEq, Eq)]
pub struct BackgroundPosition(pub Vec<BackgroundLayerPosition>);

/// One layer's position.
#[derive(Clone, Copy, Debug, PartialEq, Eq, Structural)]
pub struct BackgroundLayerPosition(pub data_types::Position);

/// `background-position-x`: one horizontal position per layer.
#[derive(Debug, Clone, PartialEq, Eq)]
pub struct BackgroundPositionX(pub Vec<BackgroundLayerPositionX>);

/// One layer's horizontal position.
#[derive(Clone, Copy, Debug, PartialEq, Eq, Structural)]
pub struct BackgroundLayerPositionX(pub data_types::PositionX);

/// `background-position-y`: one vertical position per layer.
#[derive(Debug, Clone, PartialEq, Eq)]
pub struct BackgroundPositionY(pub Vec<BackgroundLayerPositionY>);

/// One layer's vertical position.
#[derive(Clone, Copy, Debug, PartialEq, Eq, Structural)]
pub struct BackgroundLayerPositionY(pub data_types::PositionY);

/// `background-repeat`: one repeat pair per layer.
#[derive(Debug, Clone, PartialEq, Eq)]
pub struct BackgroundRepeat(pub Vec<BackgroundLayerRepeat>);

/// One layer's repetition along each axis.
#[derive(Clone, Copy, Debug, PartialEq, Eq, Structural)]
pub struct BackgroundLayerRepeat {
    pub x: BackgroundRepeatStyle,
    pub y: BackgroundRepeatStyle,
}

/// The repeat style of one axis.
#[derive(Clone, Copy, Debug, PartialEq, Eq, Structural)]
pub enum BackgroundRepeatStyle {
    Repeat,
    Space,
    Round,
    NoRepeat,
}

/// `background-size`: one size per layer.
#[derive(Debug, Clone, PartialEq, Eq)]
pub struct BackgroundSize(pub Vec<BackgroundLayerSize>);

/// One layer's size.
#[derive(Clone, Copy, Debug, PartialEq, Eq, Structural)]
pub enum BackgroundLayerSize {
    Contain,
    Cover,
    Width(data_types::LengthPercentage),
    Size { x: data_types::LengthPercentage, y: data_types::LengthPercentage },
}

/// `block-size`.
#[derive(Clone, Copy, Debug, PartialEq, Eq, Structural)]
pub struct BlockSize(pub data_types::WidthValue);

/// `border-block-color`.
#[derive(Clone, Copy, Debug, PartialEq, Eq, Structural)]
pub struct BorderBlockColor(pub data_types::Color);

/// `border-block-start-color`.
#[derive(Clone, Copy, Debug, PartialEq, Eq, Structural)]
pub struct BorderBlockStartColor(pub data_types::Color);

/// `border-block-start-style`.
#[derive(Clone, Copy, Debug, PartialEq, Eq, Structural)]
pub struct BorderBlockStartStyle(pub data_types::LineStyle);

/// `border-block-start-width`.
#[derive(Clone, Copy, Debug, PartialEq, Eq, Structural)]
pub struct BorderBlockStartWidth(pub data_types::LineWidth);

/// `border-block-end-color`.
#[derive(Clone, Copy, Debug, PartialEq, Eq, Structural)]
pub struct BorderBlockEndColor(pub data_types::Color);

/// `border-block-end-style`.
#[derive(Clone, Copy, Debug, PartialEq, Eq, Structural)]
pub struct BorderBlockEndStyle(pub data_types::LineStyle);

/// `border-block-end-width`.
#[derive(Clone, Copy, Debug, PartialEq, Eq, Structural)]
pub struct BorderBlockEndWidth(pub data_types::LineWidth);

/// `border-bottom-color`.
#[derive(Clone, Copy, Debug, PartialEq, Eq, Structural)]
pub struct BorderBottomColor(pub data_types::Color);

/// `border-bottom-style`.
#[derive(Clone, Copy, Debug, PartialEq, Eq, Structural)]
pub struct BorderBottomStyle(pub data_types::LineStyle);

/// `border-bottom-width`.
#[derive(Clone, Copy, Debug, PartialEq, Eq, Structural)]
pub struct BorderBottomWidth(pub data_types::LineWidth);

/// `border-bottom-left-radius`.
#[derive(Clone, Copy, Debug, PartialEq, Eq, Structural)]
pub struct BorderBottomLeftRadius(pub data_types::RadiusCorner);

/// `border-bottom-right-radius`.
#[derive(Clone, Copy, Debug, PartialEq, Eq, Structural)]
pub struct BorderBottomRightRadius(pub data_types::RadiusCorner);

/// `border-left-color`.
#[derive(Clone, Copy, Debug, PartialEq, Eq, Structural)]
pub struct BorderLeftColor(pub data_types::Color);

/// `border-left-style`.
#[derive(Clone, Copy, Debug, PartialEq, Eq, Structural)]
pub struct BorderLeftStyle(pub data_types::LineStyle);

/// `border-left-width`.
#[derive(Clone, Copy, Debug, PartialEq, Eq, Structural)]
pub struct BorderLeftWidth(pub data_types::LineWidth);

/// `border-right-color`.
#[derive(Clone, Copy, Debug, PartialEq, Eq, Structural)]
pub struct BorderRightColor(pub data_types::Color);

/// `border-right-style`.
#[derive(Clone, Copy, Debug, PartialEq, Eq, Structural)]
pub struct BorderRightStyle(pub data_types::LineStyle);

/// `border-right-width`.
#[derive(Clone, Copy, Debug, PartialEq, Eq, Structural)]
pub struct BorderRightWidth(pub data_types::LineWidth);

/// `border-top-color`.
#[derive(Clone, Copy, Debug, PartialEq, Eq, Structural)]
pub struct BorderTopColor(pub data_types::Color);

/// `border-top-style`.
#[derive(Clone, Copy, Debug, PartialEq, Eq, Structural)]
pub struct BorderTopStyle(pub data_types::LineStyle);

/// `border-top-width`.
#[derive(Clone, Copy, Debug, PartialEq, Eq, Structural)]
pub struct BorderTopWidth(pub data_types::LineWidth);

/// `border-top-left-radius`.
#[derive(Clone, Copy, Debug, PartialEq, Eq, Structural)]
pub struct BorderTopLeftRadius(pub data_types::RadiusCorner);

/// `border-top-right-radius`.
#[derive(Clone, Copy, Debug, PartialEq, Eq, Structural)]
pub struct BorderTopRightRadius(pub data_types::RadiusCorner);

/// `border-start-start-radius`.
#[derive(Clone, Copy, Debug, PartialEq, Eq, Structural)]
pub struct BorderStartStartRadius(pub data_types::RadiusCorner);

/// `border-start-end-radius`.
#[derive(Clone, Copy, Debug, PartialEq, Eq, Structural)]
pub struct BorderStartEndRadius(pub data_types::RadiusCorner);

/// `border-end-start-radius`.
#[derive(Clone, Copy, Debug, PartialEq, Eq, Structural)]
pub struct BorderEndStartRadius(pub data_types::RadiusCorner);

/// `border-end-end-radius`.
#[derive(Clone, Copy, Debug, PartialEq, Eq, Structural)]
pub struct BorderEndEndRadius(pub data_types::RadiusCorner);

/// `border-inline-width`.
#[derive(Clone, Copy, Debug, PartialEq, Eq, Structural)]
pub struct BorderInlineWidth(pub data_types::LineWidth);

/// `border-inline-start-color`.
#[derive(Clone, Copy, Debug, PartialEq, Eq, Structural)]
pub struct BorderInlineStartColor(pub data_types::Color);

/// `border-inline-start-style`.
#[derive(Clone, Copy, Debug, PartialEq, Eq, Structural)]
pub struct BorderInlineStartStyle(pub data_types::LineStyle);

/// `border-inline-start-width`.
#[derive(Clone, Copy, Debug, PartialEq, Eq, Structural)]
pub struct BorderInlineStartWidth(pub data_types::LineWidth);

/// `border-inline-end-color`.
#[derive(Clone, Copy, Debug, PartialEq, Eq, Structural)]
pub struct BorderInlineEndColor(pub data_types::Color);

/// `border-inline-end-style`.
#[derive(Clone, Copy, Debug, PartialEq, Eq, Structural)]
pub struct BorderInlineEndStyle(pub data_types::LineStyle);

/// `border-inline-end-width`.
#[derive(Clone, Copy, Debug, PartialEq, Eq, Structural)]
pub struct BorderInlineEndWidth(pub data_types::LineWidth);

/// `border-collapse`.
#[derive(Clone, Copy, Debug, PartialEq, Eq, Structural)]
pub enum BorderCollapse {
    Collapse,
    Separate,
}

/// `border-spacing`: the horizontal and vertical cell gaps.
#[derive(Clone, Copy, Debug, PartialEq, Eq, Structural)]
pub struct BorderSpacing {
    pub x: data_types::Length,
    pub y: data_types::Length,
}

/// `border-image-outset`.
#[derive(Clone, Copy, Debug, PartialEq, Eq, Structural)]
pub struct BorderImageOutset {
    pub top: data_types::LengthNumber,
    pub left: data_types::LengthNumber,
    pub bottom: data_types::LengthNumber,
    pub right: data_types::LengthNumber,
}

/// `border-image-repeat`.
#[derive(Clone, Copy, Debug, PartialEq, Eq, Structural)]
pub struct BorderImageRepeat {
    pub x: BorderImageRepeatValue,
    pub y: BorderImageRepeatValue,
}

/// One axis of `border-image-repeat`.
#[derive(Clone, Copy, Debug, PartialEq, Eq, Structural)]
pub enum BorderImageRepeatValue {
    Stretch,
    Repeat,
    Round,
    Space,
}

/// `border-image-slice`.
#[derive(Clone, Copy, Debug, PartialEq, Eq, Structural)]
pub struct BorderImageSlice {
    pub x1: data_types::NumberPercentage,
    pub x2: data_types::NumberPercentage,
    pub y1: data_types::NumberPercentage,
    pub y2: data_types::NumberPercentage,
    pub fill: bool,
}

/// `border-image-source`: absent, or an image.
#[derive(Debug, PartialEq, Eq)]
pub struct BorderImageSource(pub Option<data_types::Image>);

/// `border-image-width`.
#[derive(Clone, Copy, Debug, PartialEq, Eq, Structural)]
pub struct BorderImageWidth {
    pub top: BorderImageWidthValue,
    pub left: BorderImageWidthValue,
    pub bottom: BorderImageWidthValue,
    pub right: BorderImageWidthValue,
}

/// One side of `border-image-width`.
#[derive(Clone, Copy, Debug, PartialEq, Eq, Structural)]
pub enum BorderImageWidthValue {
    Auto,
    Length(data_types::Length),
    Percentage(data_types::Percentage),
    Number(data_types::Number),
}

/// The closed union of the catalogued properties.  Alignment properties
/// carry the optional `safe`/`unsafe` overflow qualifier beside their
/// keyword: `Some(true)` is `safe`, `Some(false)` is `unsafe`.
#[derive(Debug, PartialEq, Eq)]
pub enum Property {
    AccentColor(AccentColor),
    AlignContent { value: AlignContent, safety: Option<bool> },
    AlignItems { value: AlignItems, safety: Option<bool> },
    AlignSelf { value: AlignSelf, safety: Option<bool> },
    All(crate::shorthand::All),
    Animation(crate::shorthand::Animation),
    AnimationDelay(AnimationDelay),
    AnimationDirection(AnimationDirection),
    AnimationDuration(AnimationDuration),
    AnimationFillMode(AnimationFillMode),
    AnimationName(AnimationName),
    AnimationPlayState(AnimationPlayState),
    AnimationTimingFunction(AnimationTimingFunction),
    Appearance(Appearance),
    AspectRatio(AspectRatio),
}

/// The ghost view of a [`Property`]: textual payloads by their text, the
/// rest by value.
pub ghost enum PropertyView {
    AccentColor(AccentColor),
    AlignContent { value: AlignContent, safety: Option<bool> },
    AlignItems { value: AlignItems, safety: Option<bool> },
    AlignSelf { value: AlignSelf, safety: Option<bool> },
    All(crate::shorthand::All),
    Animation(crate::shorthand::AnimationView),
    AnimationDelay(AnimationDelay),
    AnimationDirection(AnimationDirection),
    AnimationDuration(AnimationDuration),
    AnimationFillMode(AnimationFillMode),
    AnimationName(AnimationNameView),
    AnimationPlayState(AnimationPlayState),
    AnimationTimingFunction(AnimationTimingFunction),
    Appearance(Appearance),
    AspectRatio(AspectRatio),
}

impl View for Property {
    type V = PropertyView;

    open spec fn view(&self) -> PropertyView {
        match self {
            Property::AccentColor(v) => PropertyView::AccentColor(*v),
            Property::AlignContent { value, safety } => PropertyView::AlignContent {
                value: *value,
                safety: *safety,
            },
            Property::AlignItems { value, safety } => PropertyView::AlignItems {
                value: *value,
                safety: *safety,
            },
            Property::AlignSelf { value, safety } => PropertyView::AlignSelf {
                value: *value,
                safety: *safety,
            },
            Property::All(v) => PropertyView::All(*v),
            Property::Animation(v) => PropertyView::Animation(v@),
            Property::AnimationDelay(v) => PropertyView::AnimationDelay(*v),
            Property::AnimationDirection(v) => PropertyView::AnimationDirection(*v),
            Property::AnimationDuration(v) => PropertyView::AnimationDuration(*v),
            Property::AnimationFillMode(v) => PropertyView::AnimationFillMode(*v),
            Property::AnimationName(v) => PropertyView::AnimationName(v@),
            Property::AnimationPlayState(v) => PropertyView::AnimationPlayState(*v),
            Property::AnimationTimingFunction(v) => PropertyView::AnimationTimingFunction(*v),
            Property::Appearance(v) => PropertyView::Appearance(*v),
            Property::AspectRatio(v) => PropertyView::AspectRatio(*v),
        }
    }
}

impl AnimationName {
    /// An exact copy.
    pub fn dup(&self) -> (r: AnimationName)
        ensures
            r == *self,
    {
        match self {
            AnimationName::NoneKeyword => AnimationName::NoneKeyword,
            AnimationName::Custom(c) => AnimationName::Custom(c.dup()),
        }
    }
}

/// The bare discriminant of each [`Property`] variant.
#[derive(Clone, Copy, Debug, PartialEq, Eq, Structural)]
pub enum PropertyDiscriminants {
    AccentColor,
    AlignContent,
    AlignItems,
    AlignSelf,
    All,
    Animation,
    AnimationDelay,
    AnimationDirection,
    AnimationDuration,
    AnimationFillMode,
    AnimationName,
    AnimationPlayState,
    AnimationTimingFunction,
    Appearance,
    AspectRatio,
}

impl Property {
    /// The discriminant of this property, for contracts.
    pub open spec fn spec_discriminant(self) -> PropertyDiscriminants {
        match self {
            Property::AccentColor(..) => PropertyDiscriminants::AccentColor,
            Property::AlignContent { .. } => PropertyDiscriminants::AlignContent,
            Property::AlignItems { .. } => PropertyDiscriminants::AlignItems,
            Property::AlignSelf { .. } => PropertyDiscriminants::AlignSelf,
            Property::All(..) => PropertyDiscriminants::All,
            Property::Animation(..) => PropertyDiscriminants::Animation,
            Property::AnimationDelay(..) => PropertyDiscriminants::AnimationDelay,
            Property::AnimationDirection(..) => PropertyDiscriminants::AnimationDirection,
            Property::AnimationDuration(..) => PropertyDiscriminants::AnimationDuration,
            Property::AnimationFillMode(..) => PropertyDiscriminants::AnimationFillMode,
            Property::AnimationName(..) => PropertyDiscriminants::AnimationName,
            Property::AnimationPlayState(..) => PropertyDiscriminants::AnimationPlayState,
            Property::AnimationTimingFunction(..) => PropertyDiscriminants::AnimationTimingFunction,
            Property::Appearance(..) => PropertyDiscriminants::Appearance,
            Property::AspectRatio(..) => PropertyDiscriminants::AspectRatio,
        }
    }

    /// The discriminant of this property.
    pub fn discriminant(&self) -> (r: PropertyDiscriminants)
        ensures
            r == self.spec_discriminant(),
    {
        match self {
            Property::AccentColor(..) => PropertyDiscriminants::AccentColor,
            Property::AlignContent { .. } => PropertyDiscriminants::AlignContent,
            Property::AlignItems { .. } => PropertyDiscriminants::AlignItems,
            Property::AlignSelf { .. } => PropertyDiscriminants::AlignSelf,
            Property::All(..) => PropertyDiscriminants::All,
            Property::Animation(..) => PropertyDiscriminants::Animation,
            Property::AnimationDelay(..) => PropertyDiscriminants::AnimationDelay,
            Property::AnimationDirection(..) => PropertyDiscriminants::AnimationDirection,
            Property::AnimationDuration(..) => PropertyDiscriminants::AnimationDuration,
            Property::AnimationFillMode(..) => PropertyDiscriminants::AnimationFillMode,
            Property::AnimationName(..) => PropertyDiscriminants::AnimationName,
            Property::AnimationPlayState(..) => PropertyDiscriminants::AnimationPlayState,
            Property::AnimationTimingFunction(..) => PropertyDiscriminants::AnimationTimingFunction,
            Property::Appearance(..) => PropertyDiscriminants::Appearance,
            Property::AspectRatio(..) => PropertyDiscriminants::AspectRatio,
        }
    }
}

} // verus!
