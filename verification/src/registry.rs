//! The property registry: the lookup from a canonical property name to its
//! value grammar, and the declaration-level parse entry point.
//!
//! A name is expected in lower-case kebab form, normalized by the caller.
//! An unknown name is a distinct outcome ([`CssError::UnknownProperty`]),
//! never a parse failure inside a grammar.  For a known name the whole
//! scoped token range must parse as one value of the property's grammar;
//! trailing tokens other than whitespace are a parse failure.
//!
//! Shorthand components may come in any order: the `animation` grammar
//! classifies each token group and assigns it to the first free matching
//! longhand, in a fixed documented order (a first time is the duration, a
//! second the delay; `none` fills the fill mode before the name).

use vstd::prelude::*;

use crate::bridge::{
    lemma_color_advances, lemma_comma_advances, lemma_number_advances, lemma_time_advances,
    parse_color, parse_comma, parse_number, parse_time, spec_parse_color, spec_parse_comma,
    spec_parse_number, spec_parse_time,
};
use crate::data_types::{is_css_wide_keyword, CustomIdent, Number, PositiveNumber, PositiveTime,
    Ratio};
use crate::errors::{CssError, Expected, ParseFailure};
use crate::scalar::Scalar;
use crate::parser::{spec_complete, Ast, ParseStep};
use crate::properties::{
    AccentColor, AlignContent, AlignItems, AlignSelf, AnimationDelay, AnimationDirection,
    AnimationDuration, AnimationFillMode, AnimationIterationCount, AnimationName,
    AnimationNameView, AnimationPlayState, AnimationTimingFunction, Appearance, AspectRatio,
    EasingFunction, EasingStepsJump, Property, PropertyDiscriminants, PropertyView,
};
use crate::shorthand::{All, Animation, AnimationView};
use crate::tokens::{lemma_skip_ws_bounds, skip_ws, skip_ws_at, str_eq, views, Tok, Token};

verus! {

// ------------------------------------------------------------------
// Name lookup
// ------------------------------------------------------------------
/// The registry: the property a canonical name denotes, if any.
pub open spec fn spec_lookup(name: Seq<char>) -> Option<PropertyDiscriminants> {
    if name == "accent-color"@ {
        Some(PropertyDiscriminants::AccentColor)
    } else if name == "align-content"@ {
        Some(PropertyDiscriminants::AlignContent)
    } else if name == "align-items"@ {
        Some(PropertyDiscriminants::AlignItems)
    } else if name == "align-self"@ {
        Some(PropertyDiscriminants::AlignSelf)
    } else if name == "all"@ {
        Some(PropertyDiscriminants::All)
    } else if name == "animation"@ {
        Some(PropertyDiscriminants::Animation)
    } else if name == "animation-delay"@ {
        Some(PropertyDiscriminants::AnimationDelay)
    } else if name == "animation-direction"@ {
        Some(PropertyDiscriminants::AnimationDirection)
    } else if name == "animation-duration"@ {
        Some(PropertyDiscriminants::AnimationDuration)
    } else if name == "animation-fill-mode"@ {
        Some(PropertyDiscriminants::AnimationFillMode)
    } else if name == "animation-name"@ {
        Some(PropertyDiscriminants::AnimationName)
    } else if name == "animation-play-state"@ {
        Some(PropertyDiscriminants::AnimationPlayState)
    } else if name == "animation-timing-function"@ {
        Some(PropertyDiscriminants::AnimationTimingFunction)
    } else if name == "appearance"@ {
        Some(PropertyDiscriminants::Appearance)
    } else if name == "aspect-ratio"@ {
        Some(PropertyDiscriminants::AspectRatio)
    } else {
        None
    }
}

/// Look a property name up; an unknown name yields `None`, never a panic
/// and never a silently-empty grammar.
pub fn lookup(name: &str) -> (r: Option<PropertyDiscriminants>)
    ensures
        r == spec_lookup(name@),
{
    if str_eq(name, "accent-color") {
        Some(PropertyDiscriminants::AccentColor)
    } else if str_eq(name, "align-content") {
        Some(PropertyDiscriminants::AlignContent)
    } else if str_eq(name, "align-items") {
        Some(PropertyDiscriminants::AlignItems)
    } else if str_eq(name, "align-self") {
        Some(PropertyDiscriminants::AlignSelf)
    } else if str_eq(name, "all") {
        Some(PropertyDiscriminants::All)
    } else if str_eq(name, "animation") {
        Some(PropertyDiscriminants::Animation)
    } else if str_eq(name, "animation-delay") {
        Some(PropertyDiscriminants::AnimationDelay)
    } else if str_eq(name, "animation-direction") {
        Some(PropertyDiscriminants::AnimationDirection)
    } else if str_eq(name, "animation-duration") {
        Some(PropertyDiscriminants::AnimationDuration)
    } else if str_eq(name, "animation-fill-mode") {
        Some(PropertyDiscriminants::AnimationFillMode)
    } else if str_eq(name, "animation-name") {
        Some(PropertyDiscriminants::AnimationName)
    } else if str_eq(name, "animation-play-state") {
        Some(PropertyDiscriminants::AnimationPlayState)
    } else if str_eq(name, "animation-timing-function") {
        Some(PropertyDiscriminants::AnimationTimingFunction)
    } else if str_eq(name, "appearance") {
        Some(PropertyDiscriminants::Appearance)
    } else if str_eq(name, "aspect-ratio") {
        Some(PropertyDiscriminants::AspectRatio)
    } else {
        None
    }
}

/// The canonical kebab-case name of a registered property.
pub open spec fn spec_property_name(d: PropertyDiscriminants) -> Seq<char> {
    match d {
        PropertyDiscriminants::AccentColor => "accent-color"@,
        PropertyDiscriminants::AlignContent => "align-content"@,
        PropertyDiscriminants::AlignItems => "align-items"@,
        PropertyDiscriminants::AlignSelf => "align-self"@,
        PropertyDiscriminants::All => "all"@,
        PropertyDiscriminants::Animation => "animation"@,
        PropertyDiscriminants::AnimationDelay => "animation-delay"@,
        PropertyDiscriminants::AnimationDirection => "animation-direction"@,
        PropertyDiscriminants::AnimationDuration => "animation-duration"@,
        PropertyDiscriminants::AnimationFillMode => "animation-fill-mode"@,
        PropertyDiscriminants::AnimationName => "animation-name"@,
        PropertyDiscriminants::AnimationPlayState => "animation-play-state"@,
        PropertyDiscriminants::AnimationTimingFunction => "animation-timing-function"@,
        PropertyDiscriminants::Appearance => "appearance"@,
        PropertyDiscriminants::AspectRatio => "aspect-ratio"@,
    }
}

/// The canonical name, executable.
pub fn property_name(d: PropertyDiscriminants) -> (r: &'static str)
    ensures
        r@ == spec_property_name(d),
{
    match d {
        PropertyDiscriminants::AccentColor => "accent-color",
        PropertyDiscriminants::AlignContent => "align-content",
        PropertyDiscriminants::AlignItems => "align-items",
        PropertyDiscriminants::AlignSelf => "align-self",
        PropertyDiscriminants::All => "all",
        PropertyDiscriminants::Animation => "animation",
        PropertyDiscriminants::AnimationDelay => "animation-delay",
        PropertyDiscriminants::AnimationDirection => "animation-direction",
        PropertyDiscriminants::AnimationDuration => "animation-duration",
        PropertyDiscriminants::AnimationFillMode => "animation-fill-mode",
        PropertyDiscriminants::AnimationName => "animation-name",
        PropertyDiscriminants::AnimationPlayState => "animation-play-state",
        PropertyDiscriminants::AnimationTimingFunction => "animation-timing-function",
        PropertyDiscriminants::Appearance => "appearance",
        PropertyDiscriminants::AspectRatio => "aspect-ratio",
    }
}

/// Two different registered properties never share a name.
proof fn lemma_property_names_distinct(u: PropertyDiscriminants, v: PropertyDiscriminants)
    ensures
        u != v ==> spec_property_name(u) != spec_property_name(v),
{
    reveal_strlit("accent-color");
    reveal_strlit("align-content");
    reveal_strlit("align-items");
    reveal_strlit("align-self");
    reveal_strlit("all");
    reveal_strlit("animation");
    reveal_strlit("animation-delay");
    reveal_strlit("animation-direction");
    reveal_strlit("animation-duration");
    reveal_strlit("animation-fill-mode");
    reveal_strlit("animation-name");
    reveal_strlit("animation-play-state");
    reveal_strlit("animation-timing-function");
    reveal_strlit("appearance");
    reveal_strlit("aspect-ratio");
    let a = spec_property_name(u);
    let b = spec_property_name(v);
    if u != v && a == b {
        assert(a.len() == b.len() && a[0] == b[0] && a[1] == b[1] && a[2] == b[2] && a[3] == b[3]
            && a[4] == b[4] && a[5] == b[5] && a[6] == b[6] && a[7] == b[7] && a[8] == b[8] && a[9]
            == b[9] && a[10] == b[10] && a[11] == b[11] && a[12] == b[12] && a[13] == b[13] && a[14]
            == b[14] && a[15] == b[15] && a[16] == b[16] && a[17] == b[17] && a[18] == b[18]);
        assert(false);
    }
}

/// Law: the registry is consistent with the canonical names; looking a
/// registered property's own name up yields that property.
pub proof fn lemma_lookup_name_round_trip(d: PropertyDiscriminants)
    ensures
        spec_lookup(spec_property_name(d)) == Some(d),
{
    lemma_property_names_distinct(d, PropertyDiscriminants::AccentColor);
    lemma_property_names_distinct(d, PropertyDiscriminants::AlignContent);
    lemma_property_names_distinct(d, PropertyDiscriminants::AlignItems);
    lemma_property_names_distinct(d, PropertyDiscriminants::AlignSelf);
    lemma_property_names_distinct(d, PropertyDiscriminants::All);
    lemma_property_names_distinct(d, PropertyDiscriminants::Animation);
    lemma_property_names_distinct(d, PropertyDiscriminants::AnimationDelay);
    lemma_property_names_distinct(d, PropertyDiscriminants::AnimationDirection);
    lemma_property_names_distinct(d, PropertyDiscriminants::AnimationDuration);
    lemma_property_names_distinct(d, PropertyDiscriminants::AnimationFillMode);
    lemma_property_names_distinct(d, PropertyDiscriminants::AnimationName);
    lemma_property_names_distinct(d, PropertyDiscriminants::AnimationPlayState);
    lemma_property_names_distinct(d, PropertyDiscriminants::AnimationTimingFunction);
    lemma_property_names_distinct(d, PropertyDiscriminants::Appearance);
    lemma_property_names_distinct(d, PropertyDiscriminants::AspectRatio);
}

impl Property {
    /// The canonical kebab-case name of this property.
    pub fn name(&self) -> (r: &'static str)
        ensures
            r@ == spec_property_name(self.spec_discriminant()),
    {
        property_name(self.discriminant())
    }
}

/// Whether a registered property is a shorthand that sets several
/// longhands at once.
pub open spec fn spec_is_shorthand(d: PropertyDiscriminants) -> bool {
    d == PropertyDiscriminants::All || d == PropertyDiscriminants::Animation
}

/// Whether a registered property is a shorthand.
pub fn is_shorthand(d: PropertyDiscriminants) -> (r: bool)
    ensures
        r == spec_is_shorthand(d),
{
    match d {
        PropertyDiscriminants::All => true,
        PropertyDiscriminants::Animation => true,
        _ => false,
    }
}

// ------------------------------------------------------------------
// Keyword tables
// ------------------------------------------------------------------
/// The `all` keyword a name denotes, if any.
pub open spec fn spec_all_from_name(s: Seq<char>) -> Option<All> {
    if s == "initial"@ {
        Some(All::Initial)
    } else if s == "inherit"@ {
        Some(All::Inherit)
    } else if s == "unset"@ {
        Some(All::Unset)
    } else if s == "revert"@ {
        Some(All::Revert)
    } else {
        None
    }
}

fn all_from_name(s: &str) -> (r: Option<All>)
    ensures
        r == spec_all_from_name(s@),
{
    if str_eq(s, "initial") {
        Some(All::Initial)
    } else if str_eq(s, "inherit") {
        Some(All::Inherit)
    } else if str_eq(s, "unset") {
        Some(All::Unset)
    } else if str_eq(s, "revert") {
        Some(All::Revert)
    } else {
        None
    }
}

/// The animation direction a keyword denotes, if any.
pub open spec fn spec_direction_from_name(s: Seq<char>) -> Option<AnimationDirection> {
    if s == "normal"@ {
        Some(AnimationDirection::Normal)
    } else if s == "reverse"@ {
        Some(AnimationDirection::Reverse)
    } else if s == "alternate"@ {
        Some(AnimationDirection::Alternate)
    } else if s == "alternate-reverse"@ {
        Some(AnimationDirection::AlternateReverse)
    } else {
        None
    }
}

fn direction_from_name(s: &str) -> (r: Option<AnimationDirection>)
    ensures
        r == spec_direction_from_name(s@),
{
    if str_eq(s, "normal") {
        Some(AnimationDirection::Normal)
    } else if str_eq(s, "reverse") {
        Some(AnimationDirection::Reverse)
    } else if str_eq(s, "alternate") {
        Some(AnimationDirection::Alternate)
    } else if str_eq(s, "alternate-reverse") {
        Some(AnimationDirection::AlternateReverse)
    } else {
        None
    }
}

/// The fill mode a keyword denotes, `none` included.
pub open spec fn spec_fill_mode_from_name(s: Seq<char>) -> Option<AnimationFillMode> {
    if s == "none"@ {
        Some(AnimationFillMode::NoneKeyword)
    } else if s == "forwards"@ {
        Some(AnimationFillMode::Forwards)
    } else if s == "backwards"@ {
        Some(AnimationFillMode::Backwards)
    } else if s == "both"@ {
        Some(AnimationFillMode::Both)
    } else {
        None
    }
}

fn fill_mode_from_name(s: &str) -> (r: Option<AnimationFillMode>)
    ensures
        r == spec_fill_mode_from_name(s@),
{
    if str_eq(s, "none") {
        Some(AnimationFillMode::NoneKeyword)
    } else if str_eq(s, "forwards") {
        Some(AnimationFillMode::Forwards)
    } else if str_eq(s, "backwards") {
        Some(AnimationFillMode::Backwards)
    } else if str_eq(s, "both") {
        Some(AnimationFillMode::Both)
    } else {
        None
    }
}

/// The play state a keyword denotes, if any.
pub open spec fn spec_play_state_from_name(s: Seq<char>) -> Option<AnimationPlayState> {
    if s == "running"@ {
        Some(AnimationPlayState::Running)
    } else if s == "paused"@ {
        Some(AnimationPlayState::Paused)
    } else {
        None
    }
}

fn play_state_from_name(s: &str) -> (r: Option<AnimationPlayState>)
    ensures
        r == spec_play_state_from_name(s@),
{
    if str_eq(s, "running") {
        Some(AnimationPlayState::Running)
    } else if str_eq(s, "paused") {
        Some(AnimationPlayState::Paused)
    } else {
        None
    }
}

/// The keyword easing a name denotes, if any.
pub open spec fn spec_timing_keyword_from_name(s: Seq<char>) -> Option<AnimationTimingFunction> {
    if s == "ease"@ {
        Some(AnimationTimingFunction::Ease)
    } else if s == "linear"@ {
        Some(AnimationTimingFunction::Linear)
    } else if s == "ease-in"@ {
        Some(AnimationTimingFunction::EaseIn)
    } else if s == "ease-out"@ {
        Some(AnimationTimingFunction::EaseOut)
    } else if s == "ease-in-out"@ {
        Some(AnimationTimingFunction::EaseInOut)
    } else {
        None
    }
}

fn timing_keyword_from_name(s: &str) -> (r: Option<AnimationTimingFunction>)
    ensures
        r == spec_timing_keyword_from_name(s@),
{
    if str_eq(s, "ease") {
        Some(AnimationTimingFunction::Ease)
    } else if str_eq(s, "linear") {
        Some(AnimationTimingFunction::Linear)
    } else if str_eq(s, "ease-in") {
        Some(AnimationTimingFunction::EaseIn)
    } else if str_eq(s, "ease-out") {
        Some(AnimationTimingFunction::EaseOut)
    } else if str_eq(s, "ease-in-out") {
        Some(AnimationTimingFunction::EaseInOut)
    } else {
        None
    }
}

/// The steps jump position a keyword denotes, if any.
pub open spec fn spec_jump_from_name(s: Seq<char>) -> Option<EasingStepsJump> {
    if s == "start"@ {
        Some(EasingStepsJump::Start)
    } else if s == "end"@ {
        Some(EasingStepsJump::End)
    } else if s == "jump-none"@ {
        Some(EasingStepsJump::NoneKeyword)
    } else if s == "jump-both"@ {
        Some(EasingStepsJump::Both)
    } else {
        None
    }
}

fn jump_from_name(s: &str) -> (r: Option<EasingStepsJump>)
    ensures
        r == spec_jump_from_name(s@),
{
    if str_eq(s, "start") {
        Some(EasingStepsJump::Start)
    } else if str_eq(s, "end") {
        Some(EasingStepsJump::End)
    } else if str_eq(s, "jump-none") {
        Some(EasingStepsJump::NoneKeyword)
    } else if str_eq(s, "jump-both") {
        Some(EasingStepsJump::Both)
    } else {
        None
    }
}

/// The appearance a keyword denotes, if any.
pub open spec fn spec_appearance_from_name(s: Seq<char>) -> Option<Appearance> {
    if s == "none"@ {
        Some(Appearance::NoneKeyword)
    } else if s == "auto"@ {
        Some(Appearance::Auto)
    } else if s == "menulist-button"@ {
        Some(Appearance::MenulistButton)
    } else if s == "textfield"@ {
        Some(Appearance::Textfield)
    } else if s == "button"@ {
        Some(Appearance::Button)
    } else if s == "checkbox"@ {
        Some(Appearance::Checkbox)
    } else if s == "listbox"@ {
        Some(Appearance::Listbox)
    } else if s == "menulist"@ {
        Some(Appearance::Menulist)
    } else if s == "meter"@ {
        Some(Appearance::Meter)
    } else if s == "progress-bar"@ {
        Some(Appearance::ProgressBar)
    } else if s == "push-button"@ {
        Some(Appearance::PushButton)
    } else if s == "radio"@ {
        Some(Appearance::Radio)
    } else if s == "searchfield"@ {
        Some(Appearance::Searchfield)
    } else if s == "slider-horizontal"@ {
        Some(Appearance::SliderHorizontal)
    } else if s == "square-button"@ {
        Some(Appearance::SquareButton)
    } else if s == "textarea"@ {
        Some(Appearance::Textarea)
    } else {
        None
    }
}

fn appearance_from_name(s: &str) -> (r: Option<Appearance>)
    ensures
        r == spec_appearance_from_name(s@),
{
    if str_eq(s, "none") {
        Some(Appearance::NoneKeyword)
    } else if str_eq(s, "auto") {
        Some(Appearance::Auto)
    } else if str_eq(s, "menulist-button") {
        Some(Appearance::MenulistButton)
    } else if str_eq(s, "textfield") {
        Some(Appearance::Textfield)
    } else if str_eq(s, "button") {
        Some(Appearance::Button)
    } else if str_eq(s, "checkbox") {
        Some(Appearance::Checkbox)
    } else if str_eq(s, "listbox") {
        Some(Appearance::Listbox)
    } else if str_eq(s, "menulist") {
        Some(Appearance::Menulist)
    } else if str_eq(s, "meter") {
        Some(Appearance::Meter)
    } else if str_eq(s, "progress-bar") {
        Some(Appearance::ProgressBar)
    } else if str_eq(s, "push-button") {
        Some(Appearance::PushButton)
    } else if str_eq(s, "radio") {
        Some(Appearance::Radio)
    } else if str_eq(s, "searchfield") {
        Some(Appearance::Searchfield)
    } else if str_eq(s, "slider-horizontal") {
        Some(Appearance::SliderHorizontal)
    } else if str_eq(s, "square-button") {
        Some(Appearance::SquareButton)
    } else if str_eq(s, "textarea") {
        Some(Appearance::Textarea)
    } else {
        None
    }
}

/// The single-keyword `align-content` value a name denotes, if any; the
/// two-word baseline forms are handled by the caller.
pub open spec fn spec_align_content_from_name(s: Seq<char>) -> Option<AlignContent> {
    if s == "start"@ {
        Some(AlignContent::Start)
    } else if s == "end"@ {
        Some(AlignContent::End)
    } else if s == "flex-start"@ {
        Some(AlignContent::FlexStart)
    } else if s == "flex-end"@ {
        Some(AlignContent::FlexEnd)
    } else if s == "center"@ {
        Some(AlignContent::Center)
    } else if s == "normal"@ {
        Some(AlignContent::Normal)
    } else if s == "baseline"@ {
        Some(AlignContent::Baseline)
    } else if s == "space-between"@ {
        Some(AlignContent::SpaceBetween)
    } else if s == "space-around"@ {
        Some(AlignContent::SpaceAround)
    } else if s == "space-evenly"@ {
        Some(AlignContent::SpaceEvenly)
    } else if s == "stretch"@ {
        Some(AlignContent::Stretch)
    } else {
        None
    }
}

fn align_content_from_name(s: &str) -> (r: Option<AlignContent>)
    ensures
        r == spec_align_content_from_name(s@),
{
    if str_eq(s, "start") {
        Some(AlignContent::Start)
    } else if str_eq(s, "end") {
        Some(AlignContent::End)
    } else if str_eq(s, "flex-start") {
        Some(AlignContent::FlexStart)
    } else if str_eq(s, "flex-end") {
        Some(AlignContent::FlexEnd)
    } else if str_eq(s, "center") {
        Some(AlignContent::Center)
    } else if str_eq(s, "normal") {
        Some(AlignContent::Normal)
    } else if str_eq(s, "baseline") {
        Some(AlignContent::Baseline)
    } else if str_eq(s, "space-between") {
        Some(AlignContent::SpaceBetween)
    } else if str_eq(s, "space-around") {
        Some(AlignContent::SpaceAround)
    } else if str_eq(s, "space-evenly") {
        Some(AlignContent::SpaceEvenly)
    } else if str_eq(s, "stretch") {
        Some(AlignContent::Stretch)
    } else {
        None
    }
}

/// The single-keyword `align-items` value a name denotes, if any.
pub open spec fn spec_align_items_from_name(s: Seq<char>) -> Option<AlignItems> {
    if s == "normal"@ {
        Some(AlignItems::Normal)
    } else if s == "flex-start"@ {
        Some(AlignItems::FlexStart)
    } else if s == "flex-end"@ {
        Some(AlignItems::FlexEnd)
    } else if s == "center"@ {
        Some(AlignItems::Center)
    } else if s == "start"@ {
        Some(AlignItems::Start)
    } else if s == "end"@ {
        Some(AlignItems::End)
    } else if s == "self-start"@ {
        Some(AlignItems::SelfStart)
    } else if s == "self-end"@ {
        Some(AlignItems::SelfEnd)
    } else if s == "baseline"@ {
        Some(AlignItems::Baseline)
    } else if s == "stretch"@ {
        Some(AlignItems::Stretch)
    } else {
        None
    }
}

fn align_items_from_name(s: &str) -> (r: Option<AlignItems>)
    ensures
        r == spec_align_items_from_name(s@),
{
    if str_eq(s, "normal") {
        Some(AlignItems::Normal)
    } else if str_eq(s, "flex-start") {
        Some(AlignItems::FlexStart)
    } else if str_eq(s, "flex-end") {
        Some(AlignItems::FlexEnd)
    } else if str_eq(s, "center") {
        Some(AlignItems::Center)
    } else if str_eq(s, "start") {
        Some(AlignItems::Start)
    } else if str_eq(s, "end") {
        Some(AlignItems::End)
    } else if str_eq(s, "self-start") {
        Some(AlignItems::SelfStart)
    } else if str_eq(s, "self-end") {
        Some(AlignItems::SelfEnd)
    } else if str_eq(s, "baseline") {
        Some(AlignItems::Baseline)
    } else if str_eq(s, "stretch") {
        Some(AlignItems::Stretch)
    } else {
        None
    }
}

/// The single-keyword `align-self` value a name denotes, if any.
pub open spec fn spec_align_self_from_name(s: Seq<char>) -> Option<AlignSelf> {
    if s == "auto"@ {
        Some(AlignSelf::Auto)
    } else if s == "normal"@ {
        Some(AlignSelf::Normal)
    } else if s == "flex-start"@ {
        Some(AlignSelf::FlexStart)
    } else if s == "flex-end"@ {
        Some(AlignSelf::FlexEnd)
    } else if s == "center"@ {
        Some(AlignSelf::Center)
    } else if s == "start"@ {
        Some(AlignSelf::Start)
    } else if s == "end"@ {
        Some(AlignSelf::End)
    } else if s == "self-start"@ {
        Some(AlignSelf::SelfStart)
    } else if s == "self-end"@ {
        Some(AlignSelf::SelfEnd)
    } else if s == "baseline"@ {
        Some(AlignSelf::Baseline)
    } else if s == "stretch"@ {
        Some(AlignSelf::Stretch)
    } else {
        None
    }
}

fn align_self_from_name(s: &str) -> (r: Option<AlignSelf>)
    ensures
        r == spec_align_self_from_name(s@),
{
    if str_eq(s, "auto") {
        Some(AlignSelf::Auto)
    } else if str_eq(s, "normal") {
        Some(AlignSelf::Normal)
    } else if str_eq(s, "flex-start") {
        Some(AlignSelf::FlexStart)
    } else if str_eq(s, "flex-end") {
        Some(AlignSelf::FlexEnd)
    } else if str_eq(s, "center") {
        Some(AlignSelf::Center)
    } else if str_eq(s, "start") {
        Some(AlignSelf::Start)
    } else if str_eq(s, "end") {
        Some(AlignSelf::End)
    } else if str_eq(s, "self-start") {
        Some(AlignSelf::SelfStart)
    } else if str_eq(s, "self-end") {
        Some(AlignSelf::SelfEnd)
    } else if str_eq(s, "baseline") {
        Some(AlignSelf::Baseline)
    } else if str_eq(s, "stretch") {
        Some(AlignSelf::Stretch)
    } else {
        None
    }
}

// ------------------------------------------------------------------
// Per-property value grammars
// ------------------------------------------------------------------
/// `accent-color`: the keyword `auto` is tried before the `<color>`
/// fallback.
pub open spec fn spec_parse_accent_color(s: Seq<Tok>, i: int) -> ParseStep<AccentColor> {
    let j = skip_ws(s, i);
    if j < s.len() && s[j] is Ident {
        if s[j]->Ident_0 == "auto"@ {
            ParseStep::Done(AccentColor::Auto, j + 1)
        } else {
            ParseStep::Fail(j, Expected::PropertyValue)
        }
    } else {
        match spec_parse_color(s, i) {
            ParseStep::Done(c, k) => ParseStep::Done(AccentColor::Color(c), k),
            ParseStep::Fail(at, e) => ParseStep::Fail(at, e),
        }
    }
}

/// Parse an `accent-color` value.
pub fn parse_accent_color(toks: &Vec<Token>, i: usize) -> (r: Result<
    (AccentColor, usize),
    ParseFailure,
>)
    requires
        i <= toks@.len(),
    ensures
        crate::parser::step_matches(spec_parse_accent_color(views(toks@), i as int), r),
{
    let j = skip_ws_at(toks, i);
    if j < toks.len() && matches!(toks[j], Token::Ident(_)) {
        match &toks[j] {
            Token::Ident(name) => {
                if str_eq(name.as_str(), "auto") {
                    Ok((AccentColor::Auto, j + 1))
                } else {
                    Err(ParseFailure { position: j, expected: Expected::PropertyValue })
                }
            },
            _ => Err(ParseFailure { position: j, expected: Expected::PropertyValue }),
        }
    } else {
        match parse_color(toks, i) {
            Ok((c, k)) => Ok((AccentColor::Color(c), k)),
            Err(f) => Err(f),
        }
    }
}

/// `aspect-ratio`: the keyword `auto`, else `<number> / <number>`.
pub open spec fn spec_parse_aspect_ratio(s: Seq<Tok>, i: int) -> ParseStep<AspectRatio> {
    let j = skip_ws(s, i);
    if j < s.len() && s[j] is Ident {
        if s[j]->Ident_0 == "auto"@ {
            ParseStep::Done(AspectRatio::Auto, j + 1)
        } else {
            ParseStep::Fail(j, Expected::PropertyValue)
        }
    } else {
        match spec_parse_number(s, i) {
            ParseStep::Done(w, k1) => {
                let j2 = skip_ws(s, k1);
                if j2 < s.len() && s[j2] is Delim && s[j2]->Delim_0 == '/' {
                    match spec_parse_number(s, j2 + 1) {
                        ParseStep::Done(h, k2) => ParseStep::Done(
                            AspectRatio::Ratio(Ratio(w, h)),
                            k2,
                        ),
                        ParseStep::Fail(at, e) => ParseStep::Fail(at, e),
                    }
                } else {
                    ParseStep::Fail(j2, Expected::Ratio)
                }
            },
            ParseStep::Fail(at, _) => ParseStep::Fail(at, Expected::Ratio),
        }
    }
}

/// Parse an `aspect-ratio` value.
pub fn parse_aspect_ratio(toks: &Vec<Token>, i: usize) -> (r: Result<
    (AspectRatio, usize),
    ParseFailure,
>)
    requires
        i <= toks@.len(),
    ensures
        crate::parser::step_matches(spec_parse_aspect_ratio(views(toks@), i as int), r),
{
    let j = skip_ws_at(toks, i);
    if j < toks.len() && matches!(toks[j], Token::Ident(_)) {
        match &toks[j] {
            Token::Ident(name) => {
                if str_eq(name.as_str(), "auto") {
                    Ok((AspectRatio::Auto, j + 1))
                } else {
                    Err(ParseFailure { position: j, expected: Expected::PropertyValue })
                }
            },
            _ => Err(ParseFailure { position: j, expected: Expected::PropertyValue }),
        }
    } else {
        match parse_number(toks, i) {
            Ok((w, k1)) => {
                let j2 = skip_ws_at(toks, k1);
                if j2 < toks.len() && matches!(toks[j2], Token::Delim('/')) {
                    match parse_number(toks, j2 + 1) {
                        Ok((h, k2)) => Ok((AspectRatio::Ratio(Ratio(w, h)), k2)),
                        Err(f) => Err(f),
                    }
                } else {
                    Err(ParseFailure { position: j2, expected: Expected::Ratio })
                }
            },
            Err(f) => Err(ParseFailure { position: f.position, expected: Expected::Ratio }),
        }
    }
}

/// `animation-name`: the keyword `none`, else an author identifier that
/// is not a CSS-wide keyword.
pub open spec fn spec_parse_animation_name(s: Seq<Tok>, i: int) -> ParseStep<AnimationNameView> {
    let j = skip_ws(s, i);
    if j < s.len() && s[j] is Ident {
        let name = s[j]->Ident_0;
        if name == "none"@ {
            ParseStep::Done(AnimationNameView::NoneKeyword, j + 1)
        } else if is_css_wide_keyword(name) {
            ParseStep::Fail(j, Expected::CustomIdent)
        } else {
            ParseStep::Done(AnimationNameView::Custom(name), j + 1)
        }
    } else {
        ParseStep::Fail(j, Expected::CustomIdent)
    }
}

/// Parse an `animation-name` value.
pub fn parse_animation_name(toks: &Vec<Token>, i: usize) -> (r: Result<
    (AnimationName, usize),
    ParseFailure,
>)
    requires
        i <= toks@.len(),
    ensures
        crate::parser::step_matches_view::<AnimationName>(
            spec_parse_animation_name(views(toks@), i as int),
            r,
        ),
{
    let j = skip_ws_at(toks, i);
    if j < toks.len() {
        match &toks[j] {
            Token::Ident(name) => {
                if str_eq(name.as_str(), "none") {
                    Ok((AnimationName::NoneKeyword, j + 1))
                } else {
                    match CustomIdent::new(name.clone()) {
                        Ok(c) => Ok((AnimationName::Custom(c), j + 1)),
                        Err(_) => Err(
                            ParseFailure { position: j, expected: Expected::CustomIdent },
                        ),
                    }
                }
            },
            _ => Err(ParseFailure { position: j, expected: Expected::CustomIdent }),
        }
    } else {
        Err(ParseFailure { position: j, expected: Expected::CustomIdent })
    }
}

/// `animation-timing-function`: the easing keywords, else
/// `cubic-bezier(...)` or `steps(...)`.
pub open spec fn spec_parse_timing_function(s: Seq<Tok>, i: int) -> ParseStep<
    AnimationTimingFunction,
> {
    let j = skip_ws(s, i);
    if j < s.len() && s[j] is Ident {
        match spec_timing_keyword_from_name(s[j]->Ident_0) {
            Some(t) => ParseStep::Done(t, j + 1),
            None => ParseStep::Fail(j, Expected::PropertyValue),
        }
    } else if j < s.len() && s[j] is FunctionStart {
        let name = s[j]->FunctionStart_0;
        if name == "cubic-bezier"@ {
            spec_parse_cubic_bezier_args(s, j + 1)
        } else if name == "steps"@ {
            spec_parse_steps_args(s, j + 1)
        } else {
            ParseStep::Fail(j, Expected::PropertyValue)
        }
    } else {
        ParseStep::Fail(j, Expected::PropertyValue)
    }
}

/// The arguments of `cubic-bezier(...)`: four comma-separated numbers.
pub open spec fn spec_parse_cubic_bezier_args(s: Seq<Tok>, i: int) -> ParseStep<
    AnimationTimingFunction,
> {
    match spec_parse_number(s, i) {
        ParseStep::Done(a, k1) => match spec_parse_comma(s, k1) {
            ParseStep::Done(_, k2) => match spec_parse_number(s, k2) {
                ParseStep::Done(b, k3) => match spec_parse_comma(s, k3) {
                    ParseStep::Done(_, k4) => match spec_parse_number(s, k4) {
                        ParseStep::Done(c, k5) => match spec_parse_comma(s, k5) {
                            ParseStep::Done(_, k6) => match spec_parse_number(s, k6) {
                                ParseStep::Done(d, k7) => {
                                    let j2 = skip_ws(s, k7);
                                    if j2 < s.len() && s[j2] is FunctionEnd {
                                        ParseStep::Done(
                                            AnimationTimingFunction::Easing(
                                                EasingFunction::CubicBezier(a.0, b.0, c.0, d.0),
                                            ),
                                            j2 + 1,
                                        )
                                    } else {
                                        ParseStep::Fail(j2, Expected::CloseParen)
                                    }
                                },
                                ParseStep::Fail(at, e) => ParseStep::Fail(at, e),
                            },
                            ParseStep::Fail(at, e) => ParseStep::Fail(at, e),
                        },
                        ParseStep::Fail(at, e) => ParseStep::Fail(at, e),
                    },
                    ParseStep::Fail(at, e) => ParseStep::Fail(at, e),
                },
                ParseStep::Fail(at, e) => ParseStep::Fail(at, e),
            },
            ParseStep::Fail(at, e) => ParseStep::Fail(at, e),
        },
        ParseStep::Fail(at, e) => ParseStep::Fail(at, e),
    }
}

/// The arguments of `steps(...)`: a non-negative whole count and a jump
/// keyword.
pub open spec fn spec_parse_steps_args(s: Seq<Tok>, i: int) -> ParseStep<AnimationTimingFunction> {
    let j = skip_ws(s, i);
    if j < s.len() && s[j] is Number {
        let m = s[j]->Number_0;
        if m.spec_den() == 1 && 0 <= m.spec_num() <= u32::MAX {
            match spec_parse_comma(s, j + 1) {
                ParseStep::Done(_, k1) => {
                    let j2 = skip_ws(s, k1);
                    if j2 < s.len() && s[j2] is Ident {
                        match spec_jump_from_name(s[j2]->Ident_0) {
                            Some(jump) => {
                                let j3 = skip_ws(s, j2 + 1);
                                if j3 < s.len() && s[j3] is FunctionEnd {
                                    ParseStep::Done(
                                        AnimationTimingFunction::Easing(
                                            EasingFunction::Steps(m.spec_num() as u32, jump),
                                        ),
                                        j3 + 1,
                                    )
                                } else {
                                    ParseStep::Fail(j3, Expected::CloseParen)
                                }
                            },
                            None => ParseStep::Fail(j2, Expected::Keyword),
                        }
                    } else {
                        ParseStep::Fail(j2, Expected::Keyword)
                    }
                },
                ParseStep::Fail(at, e) => ParseStep::Fail(at, e),
            }
        } else {
            ParseStep::Fail(j, Expected::Integer)
        }
    } else {
        ParseStep::Fail(j, Expected::Integer)
    }
}

/// Parse an `animation-timing-function` value.
pub fn parse_timing_function(toks: &Vec<Token>, i: usize) -> (r: Result<
    (AnimationTimingFunction, usize),
    ParseFailure,
>)
    requires
        i <= toks@.len(),
    ensures
        crate::parser::step_matches(spec_parse_timing_function(views(toks@), i as int), r),
{
    let j = skip_ws_at(toks, i);
    if j < toks.len() {
        match &toks[j] {
            Token::Ident(name) => match timing_keyword_from_name(name.as_str()) {
                Some(t) => Ok((t, j + 1)),
                None => Err(ParseFailure { position: j, expected: Expected::PropertyValue }),
            },
            Token::FunctionStart(name) => {
                if str_eq(name.as_str(), "cubic-bezier") {
                    parse_cubic_bezier_args(toks, j + 1)
                } else if str_eq(name.as_str(), "steps") {
                    parse_steps_args(toks, j + 1)
                } else {
                    Err(ParseFailure { position: j, expected: Expected::PropertyValue })
                }
            },
            _ => Err(ParseFailure { position: j, expected: Expected::PropertyValue }),
        }
    } else {
        Err(ParseFailure { position: j, expected: Expected::PropertyValue })
    }
}

/// Parse the arguments of `cubic-bezier(...)`.
fn parse_cubic_bezier_args(toks: &Vec<Token>, i: usize) -> (r: Result<
    (AnimationTimingFunction, usize),
    ParseFailure,
>)
    requires
        i <= toks@.len(),
    ensures
        crate::parser::step_matches(spec_parse_cubic_bezier_args(views(toks@), i as int), r),
{
    let (a, k1) = match parse_number(toks, i) {
        Ok(v) => v,
        Err(f) => {
            return Err(f);
        },
    };
    let k2 = match parse_comma(toks, k1) {
        Ok(v) => v,
        Err(f) => {
            return Err(f);
        },
    };
    let (b, k3) = match parse_number(toks, k2) {
        Ok(v) => v,
        Err(f) => {
            return Err(f);
        },
    };
    let k4 = match parse_comma(toks, k3) {
        Ok(v) => v,
        Err(f) => {
            return Err(f);
        },
    };
    let (c, k5) = match parse_number(toks, k4) {
        Ok(v) => v,
        Err(f) => {
            return Err(f);
        },
    };
    let k6 = match parse_comma(toks, k5) {
        Ok(v) => v,
        Err(f) => {
            return Err(f);
        },
    };
    let (d, k7) = match parse_number(toks, k6) {
        Ok(v) => v,
        Err(f) => {
            return Err(f);
        },
    };
    let j2 = skip_ws_at(toks, k7);
    if j2 < toks.len() && matches!(toks[j2], Token::FunctionEnd) {
        Ok(
            (
                AnimationTimingFunction::Easing(EasingFunction::CubicBezier(a.0, b.0, c.0, d.0)),
                j2 + 1,
            ),
        )
    } else {
        Err(ParseFailure { position: j2, expected: Expected::CloseParen })
    }
}

/// Parse the arguments of `steps(...)`.
fn parse_steps_args(toks: &Vec<Token>, i: usize) -> (r: Result<
    (AnimationTimingFunction, usize),
    ParseFailure,
>)
    requires
        i <= toks@.len(),
    ensures
        crate::parser::step_matches(spec_parse_steps_args(views(toks@), i as int), r),
{
    let j = skip_ws_at(toks, i);
    if j < toks.len() {
        match &toks[j] {
            Token::Number(m) => {
                if m.den() == 1 && m.num() >= 0 && m.num() <= 0xffff_ffff {
                    let count = m.num() as u32;
                    let k1 = match parse_comma(toks, j + 1) {
                        Ok(v) => v,
                        Err(f) => {
                            return Err(f);
                        },
                    };
                    let j2 = skip_ws_at(toks, k1);
                    if j2 < toks.len() && matches!(toks[j2], Token::Ident(_)) {
                        let jump = match &toks[j2] {
                            Token::Ident(name) => jump_from_name(name.as_str()),
                            _ => None,
                        };
                        match jump {
                            Some(jp) => {
                                let j3 = skip_ws_at(toks, j2 + 1);
                                if j3 < toks.len() && matches!(toks[j3], Token::FunctionEnd) {
                                    Ok(
                                        (
                                            AnimationTimingFunction::Easing(
                                                EasingFunction::Steps(count, jp),
                                            ),
                                            j3 + 1,
                                        ),
                                    )
                                } else {
                                    Err(
                                        ParseFailure {
                                            position: j3,
                                            expected: Expected::CloseParen,
                                        },
                                    )
                                }
                            },
                            None => Err(
                                ParseFailure { position: j2, expected: Expected::Keyword },
                            ),
                        }
                    } else {
                        Err(ParseFailure { position: j2, expected: Expected::Keyword })
                    }
                } else {
                    Err(ParseFailure { position: j, expected: Expected::Integer })
                }
            },
            _ => Err(ParseFailure { position: j, expected: Expected::Integer }),
        }
    } else {
        Err(ParseFailure { position: j, expected: Expected::Integer })
    }
}

/// A successful timing-function parse advances the cursor.
pub proof fn lemma_timing_function_advances(s: Seq<Tok>, i: int)
    requires
        0 <= i <= s.len(),
    ensures
        spec_parse_timing_function(s, i) matches ParseStep::Done(_, k) ==> i < k <= s.len(),
{
    lemma_skip_ws_bounds(s, i);
    let j = skip_ws(s, i);
    if j < s.len() {
        lemma_cubic_bezier_args_advance(s, j + 1);
        lemma_steps_args_advance(s, j + 1);
    }
}

/// A successful `cubic-bezier` argument parse advances the cursor.
proof fn lemma_cubic_bezier_args_advance(s: Seq<Tok>, i: int)
    requires
        0 <= i <= s.len(),
    ensures
        spec_parse_cubic_bezier_args(s, i) matches ParseStep::Done(_, k) ==> i < k <= s.len(),
{
    lemma_number_advances(s, i);
    match spec_parse_number(s, i) {
        ParseStep::Done(_, k1) => {
            lemma_comma_advances(s, k1);
            match spec_parse_comma(s, k1) {
                ParseStep::Done(_, k2) => {
                    lemma_number_advances(s, k2);
                    match spec_parse_number(s, k2) {
                        ParseStep::Done(_, k3) => {
                            lemma_comma_advances(s, k3);
                            match spec_parse_comma(s, k3) {
                                ParseStep::Done(_, k4) => {
                                    lemma_number_advances(s, k4);
                                    match spec_parse_number(s, k4) {
                                        ParseStep::Done(_, k5) => {
                                            lemma_comma_advances(s, k5);
                                            match spec_parse_comma(s, k5) {
                                                ParseStep::Done(_, k6) => {
                                                    lemma_number_advances(s, k6);
                                                    match spec_parse_number(s, k6) {
                                                        ParseStep::Done(_, k7) => {
                                                            lemma_skip_ws_bounds(s, k7);
                                                        },
                                                        ParseStep::Fail(_, _) => {
                                                        },
                                                    }
                                                },
                                                ParseStep::Fail(_, _) => {
                                                },
                                            }
                                        },
                                        ParseStep::Fail(_, _) => {
                                        },
                                    }
                                },
                                ParseStep::Fail(_, _) => {
                                },
                            }
                        },
                        ParseStep::Fail(_, _) => {
                        },
                    }
                },
                ParseStep::Fail(_, _) => {
                },
            }
        },
        ParseStep::Fail(_, _) => {
        },
    }
}

/// A single-keyword grammar: an identifier mapped through a name table.
/// `animation-direction`.
pub open spec fn spec_parse_direction_value(s: Seq<Tok>, i: int) -> ParseStep<AnimationDirection> {
    let j = skip_ws(s, i);
    if j < s.len() && s[j] is Ident {
        match spec_direction_from_name(s[j]->Ident_0) {
            Some(v) => ParseStep::Done(v, j + 1),
            None => ParseStep::Fail(j, Expected::Keyword),
        }
    } else {
        ParseStep::Fail(j, Expected::Keyword)
    }
}

/// Parse an `animation-direction` value.
pub fn parse_direction_value(toks: &Vec<Token>, i: usize) -> (r: Result<
    (AnimationDirection, usize),
    ParseFailure,
>)
    requires
        i <= toks@.len(),
    ensures
        crate::parser::step_matches(spec_parse_direction_value(views(toks@), i as int), r),
{
    let j = skip_ws_at(toks, i);
    if j < toks.len() {
        match &toks[j] {
            Token::Ident(name) => match direction_from_name(name.as_str()) {
                Some(v) => Ok((v, j + 1)),
                None => Err(ParseFailure { position: j, expected: Expected::Keyword }),
            },
            _ => Err(ParseFailure { position: j, expected: Expected::Keyword }),
        }
    } else {
        Err(ParseFailure { position: j, expected: Expected::Keyword })
    }
}

/// `animation-fill-mode`.
pub open spec fn spec_parse_fill_mode_value(s: Seq<Tok>, i: int) -> ParseStep<AnimationFillMode> {
    let j = skip_ws(s, i);
    if j < s.len() && s[j] is Ident {
        match spec_fill_mode_from_name(s[j]->Ident_0) {
            Some(v) => ParseStep::Done(v, j + 1),
            None => ParseStep::Fail(j, Expected::Keyword),
        }
    } else {
        ParseStep::Fail(j, Expected::Keyword)
    }
}

/// Parse an `animation-fill-mode` value.
pub fn parse_fill_mode_value(toks: &Vec<Token>, i: usize) -> (r: Result<
    (AnimationFillMode, usize),
    ParseFailure,
>)
    requires
        i <= toks@.len(),
    ensures
        crate::parser::step_matches(spec_parse_fill_mode_value(views(toks@), i as int), r),
{
    let j = skip_ws_at(toks, i);
    if j < toks.len() {
        match &toks[j] {
            Token::Ident(name) => match fill_mode_from_name(name.as_str()) {
                Some(v) => Ok((v, j + 1)),
                None => Err(ParseFailure { position: j, expected: Expected::Keyword }),
            },
            _ => Err(ParseFailure { position: j, expected: Expected::Keyword }),
        }
    } else {
        Err(ParseFailure { position: j, expected: Expected::Keyword })
    }
}

/// `animation-play-state`.
pub open spec fn spec_parse_play_state_value(s: Seq<Tok>, i: int) -> ParseStep<
    AnimationPlayState,
> {
    let j = skip_ws(s, i);
    if j < s.len() && s[j] is Ident {
        match spec_play_state_from_name(s[j]->Ident_0) {
            Some(v) => ParseStep::Done(v, j + 1),
            None => ParseStep::Fail(j, Expected::Keyword),
        }
    } else {
        ParseStep::Fail(j, Expected::Keyword)
    }
}

/// Parse an `animation-play-state` value.
pub fn parse_play_state_value(toks: &Vec<Token>, i: usize) -> (r: Result<
    (AnimationPlayState, usize),
    ParseFailure,
>)
    requires
        i <= toks@.len(),
    ensures
        crate::parser::step_matches(spec_parse_play_state_value(views(toks@), i as int), r),
{
    let j = skip_ws_at(toks, i);
    if j < toks.len() {
        match &toks[j] {
            Token::Ident(name) => match play_state_from_name(name.as_str()) {
                Some(v) => Ok((v, j + 1)),
                None => Err(ParseFailure { position: j, expected: Expected::Keyword }),
            },
            _ => Err(ParseFailure { position: j, expected: Expected::Keyword }),
        }
    } else {
        Err(ParseFailure { position: j, expected: Expected::Keyword })
    }
}

/// `appearance`.
pub open spec fn spec_parse_appearance_value(s: Seq<Tok>, i: int) -> ParseStep<Appearance> {
    let j = skip_ws(s, i);
    if j < s.len() && s[j] is Ident {
        match spec_appearance_from_name(s[j]->Ident_0) {
            Some(v) => ParseStep::Done(v, j + 1),
            None => ParseStep::Fail(j, Expected::Keyword),
        }
    } else {
        ParseStep::Fail(j, Expected::Keyword)
    }
}

/// Parse an `appearance` value.
pub fn parse_appearance_value(toks: &Vec<Token>, i: usize) -> (r: Result<
    (Appearance, usize),
    ParseFailure,
>)
    requires
        i <= toks@.len(),
    ensures
        crate::parser::step_matches(spec_parse_appearance_value(views(toks@), i as int), r),
{
    let j = skip_ws_at(toks, i);
    if j < toks.len() {
        match &toks[j] {
            Token::Ident(name) => match appearance_from_name(name.as_str()) {
                Some(v) => Ok((v, j + 1)),
                None => Err(ParseFailure { position: j, expected: Expected::Keyword }),
            },
            _ => Err(ParseFailure { position: j, expected: Expected::Keyword }),
        }
    } else {
        Err(ParseFailure { position: j, expected: Expected::Keyword })
    }
}

/// `all`: only the CSS-wide keywords.
pub open spec fn spec_parse_all_value(s: Seq<Tok>, i: int) -> ParseStep<All> {
    let j = skip_ws(s, i);
    if j < s.len() && s[j] is Ident {
        match spec_all_from_name(s[j]->Ident_0) {
            Some(v) => ParseStep::Done(v, j + 1),
            None => ParseStep::Fail(j, Expected::Keyword),
        }
    } else {
        ParseStep::Fail(j, Expected::Keyword)
    }
}

/// Parse an `all` value.
pub fn parse_all_value(toks: &Vec<Token>, i: usize) -> (r: Result<(All, usize), ParseFailure>)
    requires
        i <= toks@.len(),
    ensures
        crate::parser::step_matches(spec_parse_all_value(views(toks@), i as int), r),
{
    let j = skip_ws_at(toks, i);
    if j < toks.len() {
        match &toks[j] {
            Token::Ident(name) => match all_from_name(name.as_str()) {
                Some(v) => Ok((v, j + 1)),
                None => Err(ParseFailure { position: j, expected: Expected::Keyword }),
            },
            _ => Err(ParseFailure { position: j, expected: Expected::Keyword }),
        }
    } else {
        Err(ParseFailure { position: j, expected: Expected::Keyword })
    }
}

// ------------------------------------------------------------------
// The alignment family: optional overflow qualifier, two-word baselines
// ------------------------------------------------------------------
/// The `align-content` keyword part, `first baseline` and `last baseline`
/// spelled as two identifiers.
pub open spec fn spec_parse_align_content_kw(s: Seq<Tok>, i: int) -> ParseStep<AlignContent> {
    let j = skip_ws(s, i);
    if j < s.len() && s[j] is Ident {
        let name = s[j]->Ident_0;
        if name == "first"@ || name == "last"@ {
            let j2 = skip_ws(s, j + 1);
            if j2 < s.len() && s[j2] is Ident && s[j2]->Ident_0 == "baseline"@ {
                if name == "first"@ {
                    ParseStep::Done(AlignContent::FirstBaseline, j2 + 1)
                } else {
                    ParseStep::Done(AlignContent::LastBaseline, j2 + 1)
                }
            } else {
                ParseStep::Fail(j2, Expected::Keyword)
            }
        } else {
            match spec_align_content_from_name(name) {
                Some(v) => ParseStep::Done(v, j + 1),
                None => ParseStep::Fail(j, Expected::Keyword),
            }
        }
    } else {
        ParseStep::Fail(j, Expected::Keyword)
    }
}

/// The whole `align-content` value: an optional `safe`/`unsafe` overflow
/// qualifier, then the keyword.
pub open spec fn spec_parse_align_content_value(s: Seq<Tok>, i: int) -> ParseStep<
    (AlignContent, Option<bool>),
> {
    let j = skip_ws(s, i);
    if j < s.len() && s[j] is Ident && (s[j]->Ident_0 == "safe"@ || s[j]->Ident_0 == "unsafe"@) {
        let safety = Some(s[j]->Ident_0 == "safe"@);
        match spec_parse_align_content_kw(s, j + 1) {
            ParseStep::Done(v, k) => ParseStep::Done((v, safety), k),
            ParseStep::Fail(at, e) => ParseStep::Fail(at, e),
        }
    } else {
        match spec_parse_align_content_kw(s, i) {
            ParseStep::Done(v, k) => ParseStep::Done((v, None::<bool>), k),
            ParseStep::Fail(at, e) => ParseStep::Fail(at, e),
        }
    }
}

/// Parse the keyword part of `align-content`.
pub fn parse_align_content_kw(toks: &Vec<Token>, i: usize) -> (r: Result<
    (AlignContent, usize),
    ParseFailure,
>)
    requires
        i <= toks@.len(),
    ensures
        crate::parser::step_matches(spec_parse_align_content_kw(views(toks@), i as int), r),
{
    let j = skip_ws_at(toks, i);
    if j < toks.len() {
        match &toks[j] {
            Token::Ident(name) => {
                if str_eq(name.as_str(), "first") || str_eq(name.as_str(), "last") {
                    let first = str_eq(name.as_str(), "first");
                    let j2 = skip_ws_at(toks, j + 1);
                    let baseline_next = if j2 < toks.len() {
                        match &toks[j2] {
                            Token::Ident(b) => str_eq(b.as_str(), "baseline"),
                            _ => false,
                        }
                    } else {
                        false
                    };
                    if baseline_next {
                        if first {
                            Ok((AlignContent::FirstBaseline, j2 + 1))
                        } else {
                            Ok((AlignContent::LastBaseline, j2 + 1))
                        }
                    } else {
                        Err(ParseFailure { position: j2, expected: Expected::Keyword })
                    }
                } else {
                    match align_content_from_name(name.as_str()) {
                        Some(v) => Ok((v, j + 1)),
                        None => Err(ParseFailure { position: j, expected: Expected::Keyword }),
                    }
                }
            },
            _ => Err(ParseFailure { position: j, expected: Expected::Keyword }),
        }
    } else {
        Err(ParseFailure { position: j, expected: Expected::Keyword })
    }
}

/// Parse a whole `align-content` value.
pub fn parse_align_content_value(toks: &Vec<Token>, i: usize) -> (r: Result<
    ((AlignContent, Option<bool>), usize),
    ParseFailure,
>)
    requires
        i <= toks@.len(),
    ensures
        crate::parser::step_matches(spec_parse_align_content_value(views(toks@), i as int), r),
{
    let j = skip_ws_at(toks, i);
    let qualifier: Option<bool> = if j < toks.len() {
        match &toks[j] {
            Token::Ident(name) => {
                if str_eq(name.as_str(), "safe") {
                    Some(true)
                } else if str_eq(name.as_str(), "unsafe") {
                    Some(false)
                } else {
                    None
                }
            },
            _ => None,
        }
    } else {
        None
    };
    match qualifier {
        Some(q) => match parse_align_content_kw(toks, j + 1) {
            Ok((v, k)) => Ok(((v, Some(q)), k)),
            Err(f) => Err(f),
        },
        None => match parse_align_content_kw(toks, i) {
            Ok((v, k)) => Ok(((v, None), k)),
            Err(f) => Err(f),
        },
    }
}

/// The `align-items` keyword part.
pub open spec fn spec_parse_align_items_kw(s: Seq<Tok>, i: int) -> ParseStep<AlignItems> {
    let j = skip_ws(s, i);
    if j < s.len() && s[j] is Ident {
        let name = s[j]->Ident_0;
        if name == "first"@ || name == "last"@ {
            let j2 = skip_ws(s, j + 1);
            if j2 < s.len() && s[j2] is Ident && s[j2]->Ident_0 == "baseline"@ {
                if name == "first"@ {
                    ParseStep::Done(AlignItems::FirstBaseline, j2 + 1)
                } else {
                    ParseStep::Done(AlignItems::LastBaseline, j2 + 1)
                }
            } else {
                ParseStep::Fail(j2, Expected::Keyword)
            }
        } else {
            match spec_align_items_from_name(name) {
                Some(v) => ParseStep::Done(v, j + 1),
                None => ParseStep::Fail(j, Expected::Keyword),
            }
        }
    } else {
        ParseStep::Fail(j, Expected::Keyword)
    }
}

/// The whole `align-items` value.
pub open spec fn spec_parse_align_items_value(s: Seq<Tok>, i: int) -> ParseStep<
    (AlignItems, Option<bool>),
> {
    let j = skip_ws(s, i);
    if j < s.len() && s[j] is Ident && (s[j]->Ident_0 == "safe"@ || s[j]->Ident_0 == "unsafe"@) {
        let safety = Some(s[j]->Ident_0 == "safe"@);
        match spec_parse_align_items_kw(s, j + 1) {
            ParseStep::Done(v, k) => ParseStep::Done((v, safety), k),
            ParseStep::Fail(at, e) => ParseStep::Fail(at, e),
        }
    } else {
        match spec_parse_align_items_kw(s, i) {
            ParseStep::Done(v, k) => ParseStep::Done((v, None::<bool>), k),
            ParseStep::Fail(at, e) => ParseStep::Fail(at, e),
        }
    }
}

/// Parse the keyword part of `align-items`.
pub fn parse_align_items_kw(toks: &Vec<Token>, i: usize) -> (r: Result<
    (AlignItems, usize),
    ParseFailure,
>)
    requires
        i <= toks@.len(),
    ensures
        crate::parser::step_matches(spec_parse_align_items_kw(views(toks@), i as int), r),
{
    let j = skip_ws_at(toks, i);
    if j < toks.len() {
        match &toks[j] {
            Token::Ident(name) => {
                if str_eq(name.as_str(), "first") || str_eq(name.as_str(), "last") {
                    let first = str_eq(name.as_str(), "first");
                    let j2 = skip_ws_at(toks, j + 1);
                    let baseline_next = if j2 < toks.len() {
                        match &toks[j2] {
                            Token::Ident(b) => str_eq(b.as_str(), "baseline"),
                            _ => false,
                        }
                    } else {
                        false
                    };
                    if baseline_next {
                        if first {
                            Ok((AlignItems::FirstBaseline, j2 + 1))
                        } else {
                            Ok((AlignItems::LastBaseline, j2 + 1))
                        }
                    } else {
                        Err(ParseFailure { position: j2, expected: Expected::Keyword })
                    }
                } else {
                    match align_items_from_name(name.as_str()) {
                        Some(v) => Ok((v, j + 1)),
                        None => Err(ParseFailure { position: j, expected: Expected::Keyword }),
                    }
                }
            },
            _ => Err(ParseFailure { position: j, expected: Expected::Keyword }),
        }
    } else {
        Err(ParseFailure { position: j, expected: Expected::Keyword })
    }
}

/// Parse a whole `align-items` value.
pub fn parse_align_items_value(toks: &Vec<Token>, i: usize) -> (r: Result<
    ((AlignItems, Option<bool>), usize),
    ParseFailure,
>)
    requires
        i <= toks@.len(),
    ensures
        crate::parser::step_matches(spec_parse_align_items_value(views(toks@), i as int), r),
{
    let j = skip_ws_at(toks, i);
    let qualifier: Option<bool> = if j < toks.len() {
        match &toks[j] {
            Token::Ident(name) => {
                if str_eq(name.as_str(), "safe") {
                    Some(true)
                } else if str_eq(name.as_str(), "unsafe") {
                    Some(false)
                } else {
                    None
                }
            },
            _ => None,
        }
    } else {
        None
    };
    match qualifier {
        Some(q) => match parse_align_items_kw(toks, j + 1) {
            Ok((v, k)) => Ok(((v, Some(q)), k)),
            Err(f) => Err(f),
        },
        None => match parse_align_items_kw(toks, i) {
            Ok((v, k)) => Ok(((v, None), k)),
            Err(f) => Err(f),
        },
    }
}

/// The `align-self` keyword part.
pub open spec fn spec_parse_align_self_kw(s: Seq<Tok>, i: int) -> ParseStep<AlignSelf> {
    let j = skip_ws(s, i);
    if j < s.len() && s[j] is Ident {
        let name = s[j]->Ident_0;
        if name == "first"@ || name == "last"@ {
            let j2 = skip_ws(s, j + 1);
            if j2 < s.len() && s[j2] is Ident && s[j2]->Ident_0 == "baseline"@ {
                if name == "first"@ {
                    ParseStep::Done(AlignSelf::FirstBaseline, j2 + 1)
                } else {
                    ParseStep::Done(AlignSelf::LastBaseline, j2 + 1)
                }
            } else {
                ParseStep::Fail(j2, Expected::Keyword)
            }
        } else {
            match spec_align_self_from_name(name) {
                Some(v) => ParseStep::Done(v, j + 1),
                None => ParseStep::Fail(j, Expected::Keyword),
            }
        }
    } else {
        ParseStep::Fail(j, Expected::Keyword)
    }
}

/// The whole `align-self` value.
pub open spec fn spec_parse_align_self_value(s: Seq<Tok>, i: int) -> ParseStep<
    (AlignSelf, Option<bool>),
> {
    let j = skip_ws(s, i);
    if j < s.len() && s[j] is Ident && (s[j]->Ident_0 == "safe"@ || s[j]->Ident_0 == "unsafe"@) {
        let safety = Some(s[j]->Ident_0 == "safe"@);
        match spec_parse_align_self_kw(s, j + 1) {
            ParseStep::Done(v, k) => ParseStep::Done((v, safety), k),
            ParseStep::Fail(at, e) => ParseStep::Fail(at, e),
        }
    } else {
        match spec_parse_align_self_kw(s, i) {
            ParseStep::Done(v, k) => ParseStep::Done((v, None::<bool>), k),
            ParseStep::Fail(at, e) => ParseStep::Fail(at, e),
        }
    }
}

/// Parse the keyword part of `align-self`.
pub fn parse_align_self_kw(toks: &Vec<Token>, i: usize) -> (r: Result<
    (AlignSelf, usize),
    ParseFailure,
>)
    requires
        i <= toks@.len(),
    ensures
        crate::parser::step_matches(spec_parse_align_self_kw(views(toks@), i as int), r),
{
    let j = skip_ws_at(toks, i);
    if j < toks.len() {
        match &toks[j] {
            Token::Ident(name) => {
                if str_eq(name.as_str(), "first") || str_eq(name.as_str(), "last") {
                    let first = str_eq(name.as_str(), "first");
                    let j2 = skip_ws_at(toks, j + 1);
                    let baseline_next = if j2 < toks.len() {
                        match &toks[j2] {
                            Token::Ident(b) => str_eq(b.as_str(), "baseline"),
                            _ => false,
                        }
                    } else {
                        false
                    };
                    if baseline_next {
                        if first {
                            Ok((AlignSelf::FirstBaseline, j2 + 1))
                        } else {
                            Ok((AlignSelf::LastBaseline, j2 + 1))
                        }
                    } else {
                        Err(ParseFailure { position: j2, expected: Expected::Keyword })
                    }
                } else {
                    match align_self_from_name(name.as_str()) {
                        Some(v) => Ok((v, j + 1)),
                        None => Err(ParseFailure { position: j, expected: Expected::Keyword }),
                    }
                }
            },
            _ => Err(ParseFailure { position: j, expected: Expected::Keyword }),
        }
    } else {
        Err(ParseFailure { position: j, expected: Expected::Keyword })
    }
}

/// Parse a whole `align-self` value.
pub fn parse_align_self_value(toks: &Vec<Token>, i: usize) -> (r: Result<
    ((AlignSelf, Option<bool>), usize),
    ParseFailure,
>)
    requires
        i <= toks@.len(),
    ensures
        crate::parser::step_matches(spec_parse_align_self_value(views(toks@), i as int), r),
{
    let j = skip_ws_at(toks, i);
    let qualifier: Option<bool> = if j < toks.len() {
        match &toks[j] {
            Token::Ident(name) => {
                if str_eq(name.as_str(), "safe") {
                    Some(true)
                } else if str_eq(name.as_str(), "unsafe") {
                    Some(false)
                } else {
                    None
                }
            },
            _ => None,
        }
    } else {
        None
    };
    match qualifier {
        Some(q) => match parse_align_self_kw(toks, j + 1) {
            Ok((v, k)) => Ok(((v, Some(q)), k)),
            Err(f) => Err(f),
        },
        None => match parse_align_self_kw(toks, i) {
            Ok((v, k)) => Ok(((v, None), k)),
            Err(f) => Err(f),
        },
    }
}

/// A successful `steps` argument parse advances the cursor.
proof fn lemma_steps_args_advance(s: Seq<Tok>, i: int)
    requires
        0 <= i <= s.len(),
    ensures
        spec_parse_steps_args(s, i) matches ParseStep::Done(_, k) ==> i < k <= s.len(),
{
    lemma_skip_ws_bounds(s, i);
    let j = skip_ws(s, i);
    if j < s.len() {
        lemma_comma_advances(s, j + 1);
        match spec_parse_comma(s, j + 1) {
            ParseStep::Done(_, k1) => {
                lemma_skip_ws_bounds(s, k1);
                let j2 = skip_ws(s, k1);
                if j2 < s.len() {
                    lemma_skip_ws_bounds(s, j2 + 1);
                }
            },
            ParseStep::Fail(_, _) => {
            },
        }
    }
}

// ------------------------------------------------------------------
// The `animation` shorthand: components in any order
// ------------------------------------------------------------------
/// The animation shorthand with nothing specified yet.
pub open spec fn spec_empty_animation() -> AnimationView {
    AnimationView {
        name: None,
        duration: None,
        timing_function: None,
        delay: None,
        direction: None,
        iteration_count: None,
        fill_mode: None,
        play_state: None,
    }
}

/// One component of the `animation` shorthand, assigned to the first free
/// matching longhand: a first time is the duration (and must be
/// non-negative), a second the delay; a plain number is the iteration
/// count; among identifiers the attempt order is `infinite`, `none`
/// (fill mode before name), direction, fill mode, play state, easing
/// keyword, and finally the animation name; a function token is a
/// functional easing.  A component whose longhand is already set is a
/// parse failure.
pub open spec fn spec_parse_animation_component(s: Seq<Tok>, i: int, acc: AnimationView) -> ParseStep<
    AnimationView,
> {
    let j = skip_ws(s, i);
    if j < s.len() && s[j] is Dimension {
        match spec_parse_time(s, i) {
            ParseStep::Done(t, k) => {
                if acc.duration is None {
                    if t.0.is_nonneg() {
                        ParseStep::Done(
                            AnimationView {
                                duration: Some(
                                    AnimationDuration(PositiveTime::spec_new(t.0, t.1)),
                                ),
                                ..acc
                            },
                            k,
                        )
                    } else {
                        ParseStep::Fail(j, Expected::PositiveTime)
                    }
                } else if acc.delay is None {
                    ParseStep::Done(AnimationView { delay: Some(AnimationDelay(t)), ..acc }, k)
                } else {
                    ParseStep::Fail(j, Expected::PropertyValue)
                }
            },
            ParseStep::Fail(at, e) => ParseStep::Fail(at, e),
        }
    } else if j < s.len() && s[j] is Number {
        let m = s[j]->Number_0;
        if acc.iteration_count is None && m.is_nonneg() {
            ParseStep::Done(
                AnimationView {
                    iteration_count: Some(
                        AnimationIterationCount::Finite(PositiveNumber::spec_new(m)),
                    ),
                    ..acc
                },
                j + 1,
            )
        } else {
            ParseStep::Fail(j, Expected::PropertyValue)
        }
    } else if j < s.len() && s[j] is Ident {
        let name = s[j]->Ident_0;
        if name == "infinite"@ {
            if acc.iteration_count is None {
                ParseStep::Done(
                    AnimationView { iteration_count: Some(AnimationIterationCount::Infinite), ..acc },
                    j + 1,
                )
            } else {
                ParseStep::Fail(j, Expected::PropertyValue)
            }
        } else if name == "none"@ {
            if acc.fill_mode is None {
                ParseStep::Done(
                    AnimationView { fill_mode: Some(AnimationFillMode::NoneKeyword), ..acc },
                    j + 1,
                )
            } else if acc.name is None {
                ParseStep::Done(
                    AnimationView { name: Some(AnimationNameView::NoneKeyword), ..acc },
                    j + 1,
                )
            } else {
                ParseStep::Fail(j, Expected::PropertyValue)
            }
        } else if spec_direction_from_name(name) is Some {
            if acc.direction is None {
                ParseStep::Done(
                    AnimationView { direction: spec_direction_from_name(name), ..acc },
                    j + 1,
                )
            } else {
                ParseStep::Fail(j, Expected::PropertyValue)
            }
        } else if spec_fill_mode_from_name(name) is Some {
            if acc.fill_mode is None {
                ParseStep::Done(
                    AnimationView { fill_mode: spec_fill_mode_from_name(name), ..acc },
                    j + 1,
                )
            } else {
                ParseStep::Fail(j, Expected::PropertyValue)
            }
        } else if spec_play_state_from_name(name) is Some {
            if acc.play_state is None {
                ParseStep::Done(
                    AnimationView { play_state: spec_play_state_from_name(name), ..acc },
                    j + 1,
                )
            } else {
                ParseStep::Fail(j, Expected::PropertyValue)
            }
        } else if spec_timing_keyword_from_name(name) is Some {
            if acc.timing_function is None {
                ParseStep::Done(
                    AnimationView { timing_function: spec_timing_keyword_from_name(name), ..acc },
                    j + 1,
                )
            } else {
                ParseStep::Fail(j, Expected::PropertyValue)
            }
        } else if is_css_wide_keyword(name) {
            ParseStep::Fail(j, Expected::CustomIdent)
        } else if acc.name is None {
            ParseStep::Done(
                AnimationView { name: Some(AnimationNameView::Custom(name)), ..acc },
                j + 1,
            )
        } else {
            ParseStep::Fail(j, Expected::PropertyValue)
        }
    } else if j < s.len() && s[j] is FunctionStart {
        if acc.timing_function is None {
            match spec_parse_timing_function(s, i) {
                ParseStep::Done(t, k) => ParseStep::Done(
                    AnimationView { timing_function: Some(t), ..acc },
                    k,
                ),
                ParseStep::Fail(at, e) => ParseStep::Fail(at, e),
            }
        } else {
            ParseStep::Fail(j, Expected::PropertyValue)
        }
    } else {
        ParseStep::Fail(j, Expected::PropertyValue)
    }
}

/// A successful component parse advances the cursor.
proof fn lemma_animation_component_advances(s: Seq<Tok>, i: int, acc: AnimationView)
    requires
        0 <= i <= s.len(),
    ensures
        spec_parse_animation_component(s, i, acc) matches ParseStep::Done(_, k) ==> i < k
            <= s.len(),
{
    lemma_skip_ws_bounds(s, i);
    lemma_time_advances(s, i);
    lemma_timing_function_advances(s, i);
}

/// Parse one component of the `animation` shorthand.
fn parse_animation_component(toks: &Vec<Token>, i: usize, acc: Animation) -> (r: Result<
    (Animation, usize),
    ParseFailure,
>)
    requires
        i <= toks@.len(),
    ensures
        match spec_parse_animation_component(views(toks@), i as int, acc@) {
            ParseStep::Done(m, n) => r matches Ok(p) && p.0@ == m && p.1 == n,
            ParseStep::Fail(at, e) => r matches Err(f) && f.position == at && f.expected == e,
        },
{
    let j = skip_ws_at(toks, i);
    if j < toks.len() && matches!(toks[j], Token::Dimension(_, _)) {
        match parse_time(toks, i) {
            Ok((t, k)) => {
                if acc.duration.is_none() {
                    match PositiveTime::new(t.0, t.1) {
                        Ok(p) => Ok(
                            (Animation { duration: Some(AnimationDuration(p)), ..acc }, k),
                        ),
                        Err(_) => Err(
                            ParseFailure { position: j, expected: Expected::PositiveTime },
                        ),
                    }
                } else if acc.delay.is_none() {
                    Ok((Animation { delay: Some(AnimationDelay(t)), ..acc }, k))
                } else {
                    Err(ParseFailure { position: j, expected: Expected::PropertyValue })
                }
            },
            Err(f) => Err(f),
        }
    } else if j < toks.len() && matches!(toks[j], Token::Number(_)) {
        let m = match &toks[j] {
            Token::Number(m) => *m,
            _ => Scalar::from_int(0),
        };
        if acc.iteration_count.is_none() {
            match PositiveNumber::new(m) {
                Ok(p) => Ok(
                    (
                        Animation {
                            iteration_count: Some(AnimationIterationCount::Finite(p)),
                            ..acc
                        },
                        j + 1,
                    ),
                ),
                Err(_) => Err(ParseFailure { position: j, expected: Expected::PropertyValue }),
            }
        } else {
            Err(ParseFailure { position: j, expected: Expected::PropertyValue })
        }
    } else if j < toks.len() && matches!(toks[j], Token::Ident(_)) {
        let name: &String = match &toks[j] {
            Token::Ident(n) => n,
            _ => {
                return Err(ParseFailure { position: j, expected: Expected::PropertyValue });
            },
        };
        if str_eq(name.as_str(), "infinite") {
            if acc.iteration_count.is_none() {
                Ok(
                    (
                        Animation {
                            iteration_count: Some(AnimationIterationCount::Infinite),
                            ..acc
                        },
                        j + 1,
                    ),
                )
            } else {
                Err(ParseFailure { position: j, expected: Expected::PropertyValue })
            }
        } else if str_eq(name.as_str(), "none") {
            if acc.fill_mode.is_none() {
                Ok((Animation { fill_mode: Some(AnimationFillMode::NoneKeyword), ..acc }, j + 1))
            } else if acc.name.is_none() {
                Ok((Animation { name: Some(AnimationName::NoneKeyword), ..acc }, j + 1))
            } else {
                Err(ParseFailure { position: j, expected: Expected::PropertyValue })
            }
        } else if direction_from_name(name.as_str()).is_some() {
            if acc.direction.is_none() {
                Ok((Animation { direction: direction_from_name(name.as_str()), ..acc }, j + 1))
            } else {
                Err(ParseFailure { position: j, expected: Expected::PropertyValue })
            }
        } else if fill_mode_from_name(name.as_str()).is_some() {
            if acc.fill_mode.is_none() {
                Ok((Animation { fill_mode: fill_mode_from_name(name.as_str()), ..acc }, j + 1))
            } else {
                Err(ParseFailure { position: j, expected: Expected::PropertyValue })
            }
        } else if play_state_from_name(name.as_str()).is_some() {
            if acc.play_state.is_none() {
                Ok((Animation { play_state: play_state_from_name(name.as_str()), ..acc }, j + 1))
            } else {
                Err(ParseFailure { position: j, expected: Expected::PropertyValue })
            }
        } else if timing_keyword_from_name(name.as_str()).is_some() {
            if acc.timing_function.is_none() {
                Ok(
                    (
                        Animation {
                            timing_function: timing_keyword_from_name(name.as_str()),
                            ..acc
                        },
                        j + 1,
                    ),
                )
            } else {
                Err(ParseFailure { position: j, expected: Expected::PropertyValue })
            }
        } else {
            match CustomIdent::new(name.clone()) {
                Ok(c) => {
                    if acc.name.is_none() {
                        Ok((Animation { name: Some(AnimationName::Custom(c)), ..acc }, j + 1))
                    } else {
                        Err(ParseFailure { position: j, expected: Expected::PropertyValue })
                    }
                },
                Err(_) => Err(ParseFailure { position: j, expected: Expected::CustomIdent }),
            }
        }
    } else if j < toks.len() && matches!(toks[j], Token::FunctionStart(_)) {
        if acc.timing_function.is_none() {
            match parse_timing_function(toks, i) {
                Ok((t, k)) => Ok((Animation { timing_function: Some(t), ..acc }, k)),
                Err(f) => Err(f),
            }
        } else {
            Err(ParseFailure { position: j, expected: Expected::PropertyValue })
        }
    } else {
        Err(ParseFailure { position: j, expected: Expected::PropertyValue })
    }
}

/// The whole `animation` value: components in any order until the value
/// ends.
pub open spec fn spec_parse_animation(s: Seq<Tok>, i: int, acc: AnimationView) -> ParseStep<
    AnimationView,
>
    decreases s.len() - i
        when 0 <= i <= s.len()
        via spec_parse_animation_decreases
{
    let j = skip_ws(s, i);
    if j >= s.len() {
        ParseStep::Done(acc, j)
    } else {
        match spec_parse_animation_component(s, i, acc) {
            ParseStep::Done(acc2, k) => spec_parse_animation(s, k, acc2),
            ParseStep::Fail(at, e) => ParseStep::Fail(at, e),
        }
    }
}

#[via_fn]
proof fn spec_parse_animation_decreases(s: Seq<Tok>, i: int, acc: AnimationView) {
    lemma_skip_ws_bounds(s, i);
    lemma_animation_component_advances(s, i, acc);
}

/// Parse a whole `animation` value.
pub fn parse_animation_value(toks: &Vec<Token>, i: usize) -> (r: Result<
    (Animation, usize),
    ParseFailure,
>)
    requires
        i <= toks@.len(),
    ensures
        match spec_parse_animation(views(toks@), i as int, spec_empty_animation()) {
            ParseStep::Done(m, n) => r matches Ok(p) && p.0@ == m && p.1 == n,
            ParseStep::Fail(at, e) => r matches Err(f) && f.position == at && f.expected == e,
        },
{
    let ghost s = views(toks@);
    let mut acc = Animation {
        name: None,
        duration: None,
        timing_function: None,
        delay: None,
        direction: None,
        iteration_count: None,
        fill_mode: None,
        play_state: None,
    };
    let mut cur = i;
    loop
        invariant
            i <= cur <= toks@.len(),
            s == views(toks@),
            spec_parse_animation(s, i as int, spec_empty_animation()) == spec_parse_animation(
                s,
                cur as int,
                acc@,
            ),
        decreases toks@.len() - cur,
    {
        let j = skip_ws_at(toks, cur);
        if j >= toks.len() {
            return Ok((acc, j));
        }
        match parse_animation_component(toks, cur, acc) {
            Ok((acc2, k)) => {
                proof {
                    lemma_animation_component_advances(s, cur as int, acc@);
                }
                acc = acc2;
                cur = k;
            },
            Err(f) => {
                return Err(f);
            },
        }
    }
}

/// A successful animation parse leaves the cursor in range.
pub proof fn lemma_animation_in_range(s: Seq<Tok>, i: int, acc: AnimationView)
    requires
        0 <= i <= s.len(),
    ensures
        spec_parse_animation(s, i, acc) matches ParseStep::Done(_, k) ==> i <= k <= s.len(),
    decreases s.len() - i,
{
    lemma_skip_ws_bounds(s, i);
    lemma_animation_component_advances(s, i, acc);
    let j = skip_ws(s, i);
    if j < s.len() {
        match spec_parse_animation_component(s, i, acc) {
            ParseStep::Done(acc2, k) => {
                lemma_animation_in_range(s, k, acc2);
            },
            ParseStep::Fail(_, _) => {
            },
        }
    }
}

// ------------------------------------------------------------------
// Declaration-level parsing
// ------------------------------------------------------------------
/// The grammar of a registered property, as one spec parser over the
/// property's model.
pub open spec fn spec_parse_property_value(d: PropertyDiscriminants, s: Seq<Tok>) -> ParseStep<
    PropertyView,
> {
    match d {
        PropertyDiscriminants::AccentColor => match spec_parse_accent_color(s, 0) {
            ParseStep::Done(v, k) => ParseStep::Done(PropertyView::AccentColor(v), k),
            ParseStep::Fail(at, e) => ParseStep::Fail(at, e),
        },
        PropertyDiscriminants::AlignContent => match spec_parse_align_content_value(s, 0) {
            ParseStep::Done(v, k) => ParseStep::Done(
                PropertyView::AlignContent { value: v.0, safety: v.1 },
                k,
            ),
            ParseStep::Fail(at, e) => ParseStep::Fail(at, e),
        },
        PropertyDiscriminants::AlignItems => match spec_parse_align_items_value(s, 0) {
            ParseStep::Done(v, k) => ParseStep::Done(
                PropertyView::AlignItems { value: v.0, safety: v.1 },
                k,
            ),
            ParseStep::Fail(at, e) => ParseStep::Fail(at, e),
        },
        PropertyDiscriminants::AlignSelf => match spec_parse_align_self_value(s, 0) {
            ParseStep::Done(v, k) => ParseStep::Done(
                PropertyView::AlignSelf { value: v.0, safety: v.1 },
                k,
            ),
            ParseStep::Fail(at, e) => ParseStep::Fail(at, e),
        },
        PropertyDiscriminants::All => match spec_parse_all_value(s, 0) {
            ParseStep::Done(v, k) => ParseStep::Done(PropertyView::All(v), k),
            ParseStep::Fail(at, e) => ParseStep::Fail(at, e),
        },
        PropertyDiscriminants::Animation => match spec_parse_animation(
            s,
            0,
            spec_empty_animation(),
        ) {
            ParseStep::Done(v, k) => ParseStep::Done(PropertyView::Animation(v), k),
            ParseStep::Fail(at, e) => ParseStep::Fail(at, e),
        },
        PropertyDiscriminants::AnimationDelay => match spec_parse_time(s, 0) {
            ParseStep::Done(t, k) => ParseStep::Done(
                PropertyView::AnimationDelay(AnimationDelay(t)),
                k,
            ),
            ParseStep::Fail(at, e) => ParseStep::Fail(at, e),
        },
        PropertyDiscriminants::AnimationDirection => match spec_parse_direction_value(s, 0) {
            ParseStep::Done(v, k) => ParseStep::Done(PropertyView::AnimationDirection(v), k),
            ParseStep::Fail(at, e) => ParseStep::Fail(at, e),
        },
        PropertyDiscriminants::AnimationDuration => match spec_parse_time(s, 0) {
            ParseStep::Done(t, k) => {
                if t.0.is_nonneg() {
                    ParseStep::Done(
                        PropertyView::AnimationDuration(
                            AnimationDuration(PositiveTime::spec_new(t.0, t.1)),
                        ),
                        k,
                    )
                } else {
                    ParseStep::Fail(skip_ws(s, 0), Expected::PositiveTime)
                }
            },
            ParseStep::Fail(at, e) => ParseStep::Fail(at, e),
        },
        PropertyDiscriminants::AnimationFillMode => match spec_parse_fill_mode_value(s, 0) {
            ParseStep::Done(v, k) => ParseStep::Done(PropertyView::AnimationFillMode(v), k),
            ParseStep::Fail(at, e) => ParseStep::Fail(at, e),
        },
        PropertyDiscriminants::AnimationName => match spec_parse_animation_name(s, 0) {
            ParseStep::Done(v, k) => ParseStep::Done(PropertyView::AnimationName(v), k),
            ParseStep::Fail(at, e) => ParseStep::Fail(at, e),
        },
        PropertyDiscriminants::AnimationPlayState => match spec_parse_play_state_value(s, 0) {
            ParseStep::Done(v, k) => ParseStep::Done(PropertyView::AnimationPlayState(v), k),
            ParseStep::Fail(at, e) => ParseStep::Fail(at, e),
        },
        PropertyDiscriminants::AnimationTimingFunction => match spec_parse_timing_function(s, 0) {
            ParseStep::Done(v, k) => ParseStep::Done(PropertyView::AnimationTimingFunction(v), k),
            ParseStep::Fail(at, e) => ParseStep::Fail(at, e),
        },
        PropertyDiscriminants::Appearance => match spec_parse_appearance_value(s, 0) {
            ParseStep::Done(v, k) => ParseStep::Done(PropertyView::Appearance(v), k),
            ParseStep::Fail(at, e) => ParseStep::Fail(at, e),
        },
        PropertyDiscriminants::AspectRatio => match spec_parse_aspect_ratio(s, 0) {
            ParseStep::Done(v, k) => ParseStep::Done(PropertyView::AspectRatio(v), k),
            ParseStep::Fail(at, e) => ParseStep::Fail(at, e),
        },
    }
}

/// Every registered grammar leaves the cursor inside the sequence.
proof fn lemma_property_value_in_range(d: PropertyDiscriminants, s: Seq<Tok>)
    ensures
        spec_parse_property_value(d, s) matches ParseStep::Done(_, k) ==> 0 <= k <= s.len(),
{
    lemma_skip_ws_bounds(s, 0);
    lemma_color_advances(s, 0);
    lemma_time_advances(s, 0);
    lemma_timing_function_advances(s, 0);
    lemma_animation_in_range(s, 0, spec_empty_animation());
    lemma_number_advances(s, 0);
    match spec_parse_number(s, 0) {
        ParseStep::Done(_, k1) => {
            lemma_skip_ws_bounds(s, k1);
            let j2 = skip_ws(s, k1);
            if j2 < s.len() {
                lemma_number_advances(s, j2 + 1);
            }
        },
        ParseStep::Fail(_, _) => {
        },
    }
    let j = skip_ws(s, 0);
    if j < s.len() {
        lemma_skip_ws_bounds(s, j + 1);
        let j2 = skip_ws(s, j + 1);
        if j2 < s.len() {
            lemma_skip_ws_bounds(s, j2 + 1);
        }
    }
}

/// What a declaration-level parse must return: the whole-range outcome of
/// the property's grammar, mapped onto the result type.
pub open spec fn declaration_matches(
    d: PropertyDiscriminants,
    s: Seq<Tok>,
    r: Result<Property, CssError>,
) -> bool {
    match spec_complete(spec_parse_property_value(d, s), s) {
        ParseStep::Done(m, _) => r matches Ok(p) && p@ == m,
        ParseStep::Fail(at, e) => r == Err::<Property, CssError>(
            CssError::Parse(ParseFailure { position: at as usize, expected: e }),
        ),
    }
}

/// After a value, only whitespace may remain in the declaration.
fn finish_declaration(toks: &Vec<Token>, k: usize, prop: Property) -> (r: Result<
    Property,
    CssError,
>)
    requires
        k <= toks@.len(),
    ensures
        ({
            let j = skip_ws(views(toks@), k as int);
            if j == views(toks@).len() {
                r matches Ok(p) && p == prop
            } else {
                r == Err::<Property, CssError>(
                    CssError::Parse(
                        ParseFailure { position: j as usize, expected: Expected::EndOfInput },
                    ),
                )
            }
        }),
{
    let j = skip_ws_at(toks, k);
    if j < toks.len() {
        Err(CssError::Parse(ParseFailure { position: j, expected: Expected::EndOfInput }))
    } else {
        Ok(prop)
    }
}

/// Parse a whole `accent-color` declaration value.
fn parse_accent_color_declaration(toks: &Vec<Token>) -> (r: Result<Property, CssError>)
    ensures
        declaration_matches(PropertyDiscriminants::AccentColor, views(toks@), r),
{
    proof {
        lemma_property_value_in_range(PropertyDiscriminants::AccentColor, views(toks@));
    }
    match parse_accent_color(toks, 0) {
        Ok((v, k)) => finish_declaration(toks, k, Property::AccentColor(v)),
        Err(f) => Err(CssError::Parse(f)),
    }
}

/// Parse a whole `align-content` declaration value.
fn parse_align_content_declaration(toks: &Vec<Token>) -> (r: Result<Property, CssError>)
    ensures
        declaration_matches(PropertyDiscriminants::AlignContent, views(toks@), r),
{
    proof {
        lemma_property_value_in_range(PropertyDiscriminants::AlignContent, views(toks@));
    }
    match parse_align_content_value(toks, 0) {
        Ok(((v, safety), k)) => finish_declaration(
            toks,
            k,
            Property::AlignContent { value: v, safety },
        ),
        Err(f) => Err(CssError::Parse(f)),
    }
}

/// Parse a whole `align-items` declaration value.
fn parse_align_items_declaration(toks: &Vec<Token>) -> (r: Result<Property, CssError>)
    ensures
        declaration_matches(PropertyDiscriminants::AlignItems, views(toks@), r),
{
    proof {
        lemma_property_value_in_range(PropertyDiscriminants::AlignItems, views(toks@));
    }
    match parse_align_items_value(toks, 0) {
        Ok(((v, safety), k)) => finish_declaration(
            toks,
            k,
            Property::AlignItems { value: v, safety },
        ),
        Err(f) => Err(CssError::Parse(f)),
    }
}

/// Parse a whole `align-self` declaration value.
fn parse_align_self_declaration(toks: &Vec<Token>) -> (r: Result<Property, CssError>)
    ensures
        declaration_matches(PropertyDiscriminants::AlignSelf, views(toks@), r),
{
    proof {
        lemma_property_value_in_range(PropertyDiscriminants::AlignSelf, views(toks@));
    }
    match parse_align_self_value(toks, 0) {
        Ok(((v, safety), k)) => finish_declaration(
            toks,
            k,
            Property::AlignSelf { value: v, safety },
        ),
        Err(f) => Err(CssError::Parse(f)),
    }
}

/// Parse a whole `all` declaration value.
fn parse_all_declaration(toks: &Vec<Token>) -> (r: Result<Property, CssError>)
    ensures
        declaration_matches(PropertyDiscriminants::All, views(toks@), r),
{
    proof {
        lemma_property_value_in_range(PropertyDiscriminants::All, views(toks@));
    }
    match parse_all_value(toks, 0) {
        Ok((v, k)) => finish_declaration(toks, k, Property::All(v)),
        Err(f) => Err(CssError::Parse(f)),
    }
}

/// Parse a whole `animation` declaration value.
fn parse_animation_declaration(toks: &Vec<Token>) -> (r: Result<Property, CssError>)
    ensures
        declaration_matches(PropertyDiscriminants::Animation, views(toks@), r),
{
    proof {
        lemma_property_value_in_range(PropertyDiscriminants::Animation, views(toks@));
    }
    match parse_animation_value(toks, 0) {
        Ok((v, k)) => finish_declaration(toks, k, Property::Animation(v)),
        Err(f) => Err(CssError::Parse(f)),
    }
}

/// Parse a whole `animation-delay` declaration value.
fn parse_animation_delay_declaration(toks: &Vec<Token>) -> (r: Result<Property, CssError>)
    ensures
        declaration_matches(PropertyDiscriminants::AnimationDelay, views(toks@), r),
{
    proof {
        lemma_property_value_in_range(PropertyDiscriminants::AnimationDelay, views(toks@));
    }
    match parse_time(toks, 0) {
        Ok((t, k)) => finish_declaration(toks, k, Property::AnimationDelay(AnimationDelay(t))),
        Err(f) => Err(CssError::Parse(f)),
    }
}

/// Parse a whole `animation-direction` declaration value.
fn parse_animation_direction_declaration(toks: &Vec<Token>) -> (r: Result<Property, CssError>)
    ensures
        declaration_matches(PropertyDiscriminants::AnimationDirection, views(toks@), r),
{
    proof {
        lemma_property_value_in_range(PropertyDiscriminants::AnimationDirection, views(toks@));
    }
    match parse_direction_value(toks, 0) {
        Ok((v, k)) => finish_declaration(toks, k, Property::AnimationDirection(v)),
        Err(f) => Err(CssError::Parse(f)),
    }
}

/// Parse a whole `animation-duration` declaration value; the duration is
/// rejected when negative.
fn parse_animation_duration_declaration(toks: &Vec<Token>) -> (r: Result<Property, CssError>)
    ensures
        declaration_matches(PropertyDiscriminants::AnimationDuration, views(toks@), r),
{
    proof {
        lemma_property_value_in_range(PropertyDiscriminants::AnimationDuration, views(toks@));
    }
    match parse_time(toks, 0) {
        Ok((t, k)) => match PositiveTime::new(t.0, t.1) {
            Ok(p) => finish_declaration(toks, k, Property::AnimationDuration(AnimationDuration(p))),
            Err(_) => {
                let j = skip_ws_at(toks, 0);
                Err(CssError::Parse(ParseFailure { position: j, expected: Expected::PositiveTime }))
            },
        },
        Err(f) => Err(CssError::Parse(f)),
    }
}

/// Parse a whole `animation-fill-mode` declaration value.
fn parse_animation_fill_mode_declaration(toks: &Vec<Token>) -> (r: Result<Property, CssError>)
    ensures
        declaration_matches(PropertyDiscriminants::AnimationFillMode, views(toks@), r),
{
    proof {
        lemma_property_value_in_range(PropertyDiscriminants::AnimationFillMode, views(toks@));
    }
    match parse_fill_mode_value(toks, 0) {
        Ok((v, k)) => finish_declaration(toks, k, Property::AnimationFillMode(v)),
        Err(f) => Err(CssError::Parse(f)),
    }
}

/// Parse a whole `animation-name` declaration value.
fn parse_animation_name_declaration(toks: &Vec<Token>) -> (r: Result<Property, CssError>)
    ensures
        declaration_matches(PropertyDiscriminants::AnimationName, views(toks@), r),
{
    proof {
        lemma_property_value_in_range(PropertyDiscriminants::AnimationName, views(toks@));
    }
    match parse_animation_name(toks, 0) {
        Ok((v, k)) => finish_declaration(toks, k, Property::AnimationName(v)),
        Err(f) => Err(CssError::Parse(f)),
    }
}

/// Parse a whole `animation-play-state` declaration value.
fn parse_animation_play_state_declaration(toks: &Vec<Token>) -> (r: Result<Property, CssError>)
    ensures
        declaration_matches(PropertyDiscriminants::AnimationPlayState, views(toks@), r),
{
    proof {
        lemma_property_value_in_range(PropertyDiscriminants::AnimationPlayState, views(toks@));
    }
    match parse_play_state_value(toks, 0) {
        Ok((v, k)) => finish_declaration(toks, k, Property::AnimationPlayState(v)),
        Err(f) => Err(CssError::Parse(f)),
    }
}

/// Parse a whole `animation-timing-function` declaration value.
fn parse_animation_timing_function_declaration(toks: &Vec<Token>) -> (r: Result<
    Property,
    CssError,
>)
    ensures
        declaration_matches(PropertyDiscriminants::AnimationTimingFunction, views(toks@), r),
{
    proof {
        lemma_property_value_in_range(
            PropertyDiscriminants::AnimationTimingFunction,
            views(toks@),
        );
    }
    match parse_timing_function(toks, 0) {
        Ok((v, k)) => finish_declaration(toks, k, Property::AnimationTimingFunction(v)),
        Err(f) => Err(CssError::Parse(f)),
    }
}

/// Parse a whole `appearance` declaration value.
fn parse_appearance_declaration(toks: &Vec<Token>) -> (r: Result<Property, CssError>)
    ensures
        declaration_matches(PropertyDiscriminants::Appearance, views(toks@), r),
{
    proof {
        lemma_property_value_in_range(PropertyDiscriminants::Appearance, views(toks@));
    }
    match parse_appearance_value(toks, 0) {
        Ok((v, k)) => finish_declaration(toks, k, Property::Appearance(v)),
        Err(f) => Err(CssError::Parse(f)),
    }
}

/// Parse a whole `aspect-ratio` declaration value.
fn parse_aspect_ratio_declaration(toks: &Vec<Token>) -> (r: Result<Property, CssError>)
    ensures
        declaration_matches(PropertyDiscriminants::AspectRatio, views(toks@), r),
{
    proof {
        lemma_property_value_in_range(PropertyDiscriminants::AspectRatio, views(toks@));
    }
    match parse_aspect_ratio(toks, 0) {
        Ok((v, k)) => finish_declaration(toks, k, Property::AspectRatio(v)),
        Err(f) => Err(CssError::Parse(f)),
    }
}

/// Parse one declaration: the property named `name` with the given scoped
/// value tokens.  An unknown name is reported as such, exactly; for a
/// known name the whole token range must parse as one value of the
/// property's grammar, and the typed property is returned.
pub fn parse_declaration(name: &str, ast: &Ast) -> (r: Result<Property, CssError>)
    ensures
        spec_lookup(name@) is None <==> r == Err::<Property, CssError>(CssError::UnknownProperty),
        spec_lookup(name@) matches Some(d) ==> declaration_matches(d, ast@, r),
{
    let toks = &ast.tokens;
    match lookup(name) {
        None => Err(CssError::UnknownProperty),
        Some(d) => {
            let r = match d {
                PropertyDiscriminants::AccentColor => parse_accent_color_declaration(toks),
                PropertyDiscriminants::AlignContent => parse_align_content_declaration(toks),
                PropertyDiscriminants::AlignItems => parse_align_items_declaration(toks),
                PropertyDiscriminants::AlignSelf => parse_align_self_declaration(toks),
                PropertyDiscriminants::All => parse_all_declaration(toks),
                PropertyDiscriminants::Animation => parse_animation_declaration(toks),
                PropertyDiscriminants::AnimationDelay => parse_animation_delay_declaration(toks),
                PropertyDiscriminants::AnimationDirection => parse_animation_direction_declaration(
                    toks,
                ),
                PropertyDiscriminants::AnimationDuration => parse_animation_duration_declaration(
                    toks,
                ),
                PropertyDiscriminants::AnimationFillMode => parse_animation_fill_mode_declaration(
                    toks,
                ),
                PropertyDiscriminants::AnimationName => parse_animation_name_declaration(toks),
                PropertyDiscriminants::AnimationPlayState => parse_animation_play_state_declaration(
                    toks,
                ),
                PropertyDiscriminants::AnimationTimingFunction => parse_animation_timing_function_declaration(
                    toks,
                ),
                PropertyDiscriminants::Appearance => parse_appearance_declaration(toks),
                PropertyDiscriminants::AspectRatio => parse_aspect_ratio_declaration(toks),
            };
            proof {
                if r == Err::<Property, CssError>(CssError::UnknownProperty) {
                    match spec_complete(spec_parse_property_value(d, ast@), ast@) {
                        ParseStep::Done(_, _) => {
                            assert(false);
                        },
                        ParseStep::Fail(_, _) => {
                            assert(false);
                        },
                    }
                }
            }
            r
        },
    }
}

} // verus!
