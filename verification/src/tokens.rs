//! The token-level interface of the bridge.
//!
//! A declaration's value reaches this crate as a flat sequence of [`Token`]s
//! produced by an external tokenizer: each token carries its kind and the
//! kind's literal data (an exact rational magnitude for numeric kinds, text
//! for identifiers, strings and urls).  The ghost mirror [`Tok`] is the
//! spec-level view of a token, over `Seq<char>` instead of `String`, and all
//! parse/serialize contracts are stated over sequences of `Tok`.

use vstd::prelude::*;
use vstd::string::StringExecFns;

use crate::scalar::Scalar;

verus! {

/// The spec-level view of a [`Token`].
pub ghost enum Tok {
    /// An identifier such as `auto` or `solid`.
    Ident(Seq<char>),
    /// A plain number.
    Number(Scalar),
    /// A number with a unit string, such as `12px`.
    Dimension(Scalar, Seq<char>),
    /// A number followed by a percent sign; `50%` carries 50, not 0.5.
    Percentage(Scalar),
    /// A quoted string.
    Quoted(Seq<char>),
    /// A `url(...)` token carrying the address text.
    UrlTok(Seq<char>),
    /// A single delimiter character such as `/`.
    Delim(char),
    /// A function opening, such as `rgb(`, carrying the function name.
    FunctionStart(Seq<char>),
    /// The `)` that closes a function.
    FunctionEnd,
    /// A top-level comma separating layers.
    Comma,
    /// Whitespace between tokens; never significant to the grammars here.
    Whitespace,
}

/// One lexical unit of CSS syntax, as handed over by an external tokenizer.
#[derive(Debug, Clone, PartialEq, Eq)]
pub enum Token {
    /// An identifier such as `auto` or `solid`.
    Ident(String),
    /// A plain number.
    Number(Scalar),
    /// A number with a unit string, such as `12px`.
    Dimension(Scalar, String),
    /// A number followed by a percent sign; `50%` carries 50, not 0.5.
    Percentage(Scalar),
    /// A quoted string.
    Quoted(String),
    /// A `url(...)` token carrying the address text.
    UrlTok(String),
    /// A single delimiter character such as `/`.
    Delim(char),
    /// A function opening, such as `rgb(`, carrying the function name.
    FunctionStart(String),
    /// The `)` that closes a function.
    FunctionEnd,
    /// A top-level comma separating layers.
    Comma,
    /// Whitespace between tokens; never significant to the grammars here.
    Whitespace,
}

impl View for Token {
    type V = Tok;

    open spec fn view(&self) -> Tok {
        match self {
            Token::Ident(s) => Tok::Ident(s@),
            Token::Number(m) => Tok::Number(*m),
            Token::Dimension(m, u) => Tok::Dimension(*m, u@),
            Token::Percentage(m) => Tok::Percentage(*m),
            Token::Quoted(s) => Tok::Quoted(s@),
            Token::UrlTok(s) => Tok::UrlTok(s@),
            Token::Delim(c) => Tok::Delim(*c),
            Token::FunctionStart(s) => Tok::FunctionStart(s@),
            Token::FunctionEnd => Tok::FunctionEnd,
            Token::Comma => Tok::Comma,
            Token::Whitespace => Tok::Whitespace,
        }
    }
}

/// The view of a whole token sequence.
pub open spec fn views(s: Seq<Token>) -> Seq<Tok> {
    s.map_values(|t: Token| t@)
}

/// Exact text equality of two string slices.
pub fn str_eq(a: &str, b: &str) -> (r: bool)
    ensures
        r == (a@ == b@),
{
    let sa = String::from_str(a);
    let sb = String::from_str(b);
    sa == sb
}

/// The index of the first non-whitespace token at or after `i`.
pub open spec fn skip_ws(s: Seq<Tok>, i: int) -> int
    decreases s.len() - i
        when 0 <= i <= s.len()
{
    if 0 <= i < s.len() && s[i] is Whitespace {
        skip_ws(s, i + 1)
    } else {
        i
    }
}

/// `skip_ws` stays inside the sequence and stops on a non-whitespace token.
pub proof fn lemma_skip_ws_bounds(s: Seq<Tok>, i: int)
    requires
        0 <= i <= s.len(),
    ensures
        i <= skip_ws(s, i) <= s.len(),
        skip_ws(s, i) < s.len() ==> !(s[skip_ws(s, i)] is Whitespace),
    decreases s.len() - i,
{
    if i < s.len() && s[i] is Whitespace {
        lemma_skip_ws_bounds(s, i + 1);
    }
}

/// Advance an executable cursor past whitespace.
pub fn skip_ws_at(toks: &Vec<Token>, i: usize) -> (j: usize)
    requires
        i <= toks@.len(),
    ensures
        j == skip_ws(views(toks@), i as int),
        i <= j <= toks@.len(),
        j < toks@.len() ==> !(views(toks@)[j as int] is Whitespace),
{
    let mut j = i;
    while j < toks.len() && matches!(toks[j], Token::Whitespace)
        invariant
            i <= j <= toks@.len(),
            skip_ws(views(toks@), i as int) == skip_ws(views(toks@), j as int),
        decreases toks@.len() - j,
    {
        j = j + 1;
    }
    proof {
        lemma_skip_ws_bounds(views(toks@), j as int);
    }
    j
}

} // verus!
