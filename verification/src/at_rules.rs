//! Typed values for at-rule descriptors: the same token-bridge approach,
//! applied to a smaller fixed set of descriptor names.

use vstd::prelude::*;

use crate::bridge::{parse_percentage, spec_parse_percentage};
use crate::data_types::Percentage;
use crate::errors::{Expected, ParseFailure};
use crate::parser::{step_matches, ParseStep};
use crate::tokens::{skip_ws, skip_ws_at, str_eq, views, Tok, Token};

verus! {

/// The at-rules whose descriptors this crate types.
#[derive(Clone, Copy, Debug, PartialEq, Eq)]
pub enum AtRule {
    /// `@font-feature-values` blocks; the feature groups carry no payload
    /// here.
    FontFeatureValues {
        swash: (),
        annotation: (),
        ornaments: (),
        stylistic: (),
        styleset: (),
        character_variant: (),
    },
    /// `@font-face` with its `ascent-override` descriptor.
    FontFace { ascent_override: FontFaceAscentOverride },
}

/// The `ascent-override` descriptor of `@font-face`: `normal` or a
/// percentage.
#[derive(Clone, Copy, Debug, PartialEq, Eq, Structural)]
pub enum FontFaceAscentOverride {
    Normal,
    Percentage(Percentage),
}

/// Grammar of `ascent-override`: the keyword `normal` is tried before the
/// `<percentage>` alternative.
pub open spec fn spec_parse_ascent_override(s: Seq<Tok>, i: int) -> ParseStep<
    FontFaceAscentOverride,
> {
    let j = skip_ws(s, i);
    if j < s.len() && s[j] is Ident {
        if s[j]->Ident_0 == "normal"@ {
            ParseStep::Done(FontFaceAscentOverride::Normal, j + 1)
        } else {
            ParseStep::Fail(j, Expected::Keyword)
        }
    } else {
        match spec_parse_percentage(s, i) {
            ParseStep::Done(p, k) => ParseStep::Done(FontFaceAscentOverride::Percentage(p), k),
            ParseStep::Fail(at, e) => ParseStep::Fail(at, e),
        }
    }
}

impl FontFaceAscentOverride {
    /// Parse an `ascent-override` descriptor value.
    pub fn parse_at(toks: &Vec<Token>, i: usize) -> (r: Result<
        (FontFaceAscentOverride, usize),
        ParseFailure,
    >)
        requires
            i <= toks@.len(),
        ensures
            step_matches(spec_parse_ascent_override(views(toks@), i as int), r),
    {
        let j = skip_ws_at(toks, i);
        if j < toks.len() && matches!(toks[j], Token::Ident(_)) {
            match &toks[j] {
                Token::Ident(name) => {
                    if str_eq(name.as_str(), "normal") {
                        Ok((FontFaceAscentOverride::Normal, j + 1))
                    } else {
                        Err(ParseFailure { position: j, expected: Expected::Keyword })
                    }
                },
                _ => Err(ParseFailure { position: j, expected: Expected::Keyword }),
            }
        } else {
            match parse_percentage(toks, i) {
                Ok((p, k)) => Ok((FontFaceAscentOverride::Percentage(p), k)),
                Err(f) => Err(f),
            }
        }
    }
}

} // verus!
