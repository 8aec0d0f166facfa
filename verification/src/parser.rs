//! The token bridge: the two-way contract between token sequences and
//! typed values.
//!
//! Parsing is specified by spec-level parsers over `Seq<Tok>`: each returns
//! a [`ParseStep`], either the parsed value with the cursor after it, or
//! the failure position with the grammar that was being tried.  Executable
//! parsers are proved to return exactly what the spec parser says, and
//! serialization is proved to emit exactly the spec token sequence, so the
//! round-trip laws are theorems over the spec level.
//!
//! Alternatives are tried in the documented precedence order — keyword
//! alternatives before dimensioned forms before generic fallbacks — with
//! cursor backtracking: a failed alternative consumes nothing.

use vstd::prelude::*;

use crate::errors::{CssError, Expected, ParseFailure};
use crate::tokens::{skip_ws, views, Tok, Token};

verus! {

/// The outcome of one spec-level parse attempt: a value and the cursor
/// position after it, or the failure position and the grammar tried there.
pub ghost enum ParseStep<T> {
    Done(T, int),
    Fail(int, Expected),
}

/// An executable parse result mirrors a spec-level step exactly, for value
/// types that are their own model.
pub open spec fn step_matches<T>(g: ParseStep<T>, r: Result<(T, usize), ParseFailure>) -> bool {
    match g {
        ParseStep::Done(v, n) => r matches Ok(p) && p.0 == v && p.1 == n,
        ParseStep::Fail(at, e) => r matches Err(f) && f.position == at && f.expected == e,
    }
}

/// An executable parse result mirrors a spec-level step over the value's
/// view, for value types that carry strings or sequences.
pub open spec fn step_matches_view<E: View>(
    g: ParseStep<E::V>,
    r: Result<(E, usize), ParseFailure>,
) -> bool {
    match g {
        ParseStep::Done(m, n) => r matches Ok(p) && p.0@ == m && p.1 == n,
        ParseStep::Fail(at, e) => r matches Err(f) && f.position == at && f.expected == e,
    }
}

/// A token sequence scoped to one declaration's value.
#[derive(Debug, PartialEq, Eq)]
pub struct Ast {
    pub tokens: Vec<Token>,
}

impl View for Ast {
    type V = Seq<Tok>;

    open spec fn view(&self) -> Seq<Tok> {
        views(self.tokens@)
    }
}

/// Builds a typed value from a token cursor; the whole scoped range must
/// be consumed.
pub trait FromTokens: Sized {
    /// Parse the entire token sequence as one value of this type.
    fn from_tokens(ast: &Ast) -> Result<Self, CssError>;
}

/// Renders a typed value back to a token sequence.
pub trait ToTokens {
    /// Serialize the value; re-parsing the result yields an equal value.
    fn to_tokens(&self) -> Ast;
}

impl FromTokens for crate::data_types::WidthValue {
    /// Parse the whole sequence as one sizing value.
    fn from_tokens(ast: &Ast) -> (r: Result<Self, CssError>)
        ensures
            match spec_complete(crate::bridge::spec_parse_width_value(ast@, 0), ast@) {
                ParseStep::Done(v, _) => r == Ok::<Self, CssError>(v),
                ParseStep::Fail(at, e) => r == Err::<Self, CssError>(
                    CssError::Parse(
                        crate::errors::ParseFailure { position: at as usize, expected: e },
                    ),
                ),
            },
    {
        match crate::bridge::parse_width_value(&ast.tokens, 0) {
            Ok((v, k)) => {
                let j = crate::tokens::skip_ws_at(&ast.tokens, k);
                if j < ast.tokens.len() {
                    Err(
                        CssError::Parse(
                            crate::errors::ParseFailure {
                                position: j,
                                expected: Expected::EndOfInput,
                            },
                        ),
                    )
                } else {
                    Ok(v)
                }
            },
            Err(f) => Err(CssError::Parse(f)),
        }
    }
}

impl ToTokens for crate::data_types::WidthValue {
    /// Serialize the value; the emitted tokens re-parse to an equal value.
    fn to_tokens(&self) -> (r: Ast)
        ensures
            r@ == crate::bridge::spec_width_value_tokens(*self),
    {
        let mut out: Vec<Token> = Vec::new();
        crate::bridge::write_width_value_tokens(self, &mut out);
        proof {
            assert(views(out@) =~= crate::bridge::spec_width_value_tokens(*self));
        }
        Ast { tokens: out }
    }
}

impl FromTokens for crate::data_types::LengthPercentage {
    /// Parse the whole sequence as one `<length-percentage>`.
    fn from_tokens(ast: &Ast) -> (r: Result<Self, CssError>)
        ensures
            match spec_complete(crate::bridge::spec_parse_length_percentage(ast@, 0), ast@) {
                ParseStep::Done(v, _) => r == Ok::<Self, CssError>(v),
                ParseStep::Fail(at, e) => r == Err::<Self, CssError>(
                    CssError::Parse(
                        crate::errors::ParseFailure { position: at as usize, expected: e },
                    ),
                ),
            },
    {
        match crate::bridge::parse_length_percentage(&ast.tokens, 0) {
            Ok((v, k)) => {
                let j = crate::tokens::skip_ws_at(&ast.tokens, k);
                if j < ast.tokens.len() {
                    Err(
                        CssError::Parse(
                            crate::errors::ParseFailure {
                                position: j,
                                expected: Expected::EndOfInput,
                            },
                        ),
                    )
                } else {
                    Ok(v)
                }
            },
            Err(f) => Err(CssError::Parse(f)),
        }
    }
}

impl ToTokens for crate::data_types::LengthPercentage {
    /// Serialize the value; the emitted tokens re-parse to an equal value.
    fn to_tokens(&self) -> (r: Ast)
        ensures
            r@ == crate::bridge::spec_length_percentage_tokens(*self),
    {
        let mut out: Vec<Token> = Vec::new();
        crate::bridge::write_length_percentage_tokens(self, &mut out);
        proof {
            assert(views(out@) =~= crate::bridge::spec_length_percentage_tokens(*self));
        }
        Ast { tokens: out }
    }
}

impl FromTokens for crate::data_types::Color {
    /// Parse the whole sequence as one `<color>`.
    fn from_tokens(ast: &Ast) -> (r: Result<Self, CssError>)
        ensures
            match spec_complete(crate::bridge::spec_parse_color(ast@, 0), ast@) {
                ParseStep::Done(v, _) => r == Ok::<Self, CssError>(v),
                ParseStep::Fail(at, e) => r == Err::<Self, CssError>(
                    CssError::Parse(
                        crate::errors::ParseFailure { position: at as usize, expected: e },
                    ),
                ),
            },
    {
        proof {
            crate::bridge::lemma_color_advances(ast@, 0);
        }
        match crate::bridge::parse_color(&ast.tokens, 0) {
            Ok((v, k)) => {
                let j = crate::tokens::skip_ws_at(&ast.tokens, k);
                if j < ast.tokens.len() {
                    Err(
                        CssError::Parse(
                            crate::errors::ParseFailure {
                                position: j,
                                expected: Expected::EndOfInput,
                            },
                        ),
                    )
                } else {
                    Ok(v)
                }
            },
            Err(f) => Err(CssError::Parse(f)),
        }
    }
}

impl ToTokens for crate::data_types::Color {
    /// Serialize the value; the emitted tokens re-parse to an equal value.
    fn to_tokens(&self) -> (r: Ast)
        ensures
            r@ == crate::bridge::spec_color_tokens(*self),
    {
        let mut out: Vec<Token> = Vec::new();
        crate::bridge::write_color_tokens(self, &mut out);
        proof {
            assert(views(out@) =~= crate::bridge::spec_color_tokens(*self));
        }
        Ast { tokens: out }
    }
}

impl FromTokens for crate::data_types::Image {
    /// Parse the whole sequence as one `<image>`.
    fn from_tokens(ast: &Ast) -> (r: Result<Self, CssError>)
        ensures
            match spec_complete(crate::bridge::spec_parse_image(ast@, 0), ast@) {
                ParseStep::Done(v, _) => r matches Ok(img) && img@ == v,
                ParseStep::Fail(at, e) => r == Err::<Self, CssError>(
                    CssError::Parse(
                        crate::errors::ParseFailure { position: at as usize, expected: e },
                    ),
                ),
            },
    {
        proof {
            crate::bridge::lemma_image_advances(ast@, 0);
        }
        match crate::bridge::parse_image(&ast.tokens, 0) {
            Ok((v, k)) => {
                let j = crate::tokens::skip_ws_at(&ast.tokens, k);
                if j < ast.tokens.len() {
                    Err(
                        CssError::Parse(
                            crate::errors::ParseFailure {
                                position: j,
                                expected: Expected::EndOfInput,
                            },
                        ),
                    )
                } else {
                    Ok(v)
                }
            },
            Err(f) => Err(CssError::Parse(f)),
        }
    }
}

impl ToTokens for crate::data_types::Image {
    /// Serialize the value; the emitted tokens re-parse to an equal value.
    fn to_tokens(&self) -> (r: Ast)
        ensures
            r@ == crate::bridge::spec_image_tokens(self@),
    {
        let mut out: Vec<Token> = Vec::new();
        crate::bridge::write_image_tokens(self, &mut out);
        proof {
            assert(views(out@) =~= crate::bridge::spec_image_tokens(self@));
        }
        Ast { tokens: out }
    }
}

impl FromTokens for crate::properties::BackgroundImage {
    /// Parse the whole sequence as the ordered, non-empty layer list of
    /// `background-image`.
    fn from_tokens(ast: &Ast) -> (r: Result<Self, CssError>)
        ensures
            match spec_complete(crate::properties::spec_parse_bg_layers(ast@, 0), ast@) {
                ParseStep::Done(m, _) => r matches Ok(b) && b@ == m,
                ParseStep::Fail(at, e) => r == Err::<Self, CssError>(
                    CssError::Parse(
                        crate::errors::ParseFailure { position: at as usize, expected: e },
                    ),
                ),
            },
    {
        crate::properties::BackgroundImage::from_tokens(ast)
    }
}

impl ToTokens for crate::properties::BackgroundImage {
    /// Serialize the layers, comma-separated, in the same order.
    fn to_tokens(&self) -> (r: Ast)
        ensures
            r@ == crate::properties::spec_bg_image_tokens_from(self@, 0),
    {
        crate::properties::BackgroundImage::to_tokens(self)
    }
}

/// Lifts a sub-parser's outcome to a whole-declaration outcome: after the
/// value, only whitespace may remain.
pub open spec fn spec_complete<T>(g: ParseStep<T>, s: Seq<Tok>) -> ParseStep<T> {
    match g {
        ParseStep::Done(v, j) => {
            if skip_ws(s, j) == s.len() {
                ParseStep::Done(v, s.len() as int)
            } else {
                ParseStep::Fail(skip_ws(s, j), Expected::EndOfInput)
            }
        },
        ParseStep::Fail(at, e) => ParseStep::Fail(at, e),
    }
}

} // verus!
