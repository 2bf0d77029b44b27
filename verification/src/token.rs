//! The component values that the shorthand parsers read, and their errors.
//!
//! Numeric values are fixed-point integers in thousandths: the number
//! `1.5` is `Number(1500, false)`, the percentage `50%` is
//! `Percentage(50000)` and the length `2px` is `Dimension(2000, true, "px")`.

use vstd::prelude::*;

verus! {

/// One CSS component value, whitespace and comments already dropped.
#[derive(Clone, Debug)]
pub enum Token {
    /// An identifier, such as `solid` or `red`.
    Ident(Vec<char>),
    /// A unitless number, in thousandths, and whether it was written as an
    /// integer (without a fraction or an exponent).
    Number(i64, bool),
    /// A percentage, in thousandths of a percent.
    Percentage(i64),
    /// A number with a unit, in thousandths, whether the number was written
    /// as an integer, and the unit as written.
    Dimension(i64, bool, Vec<char>),
    /// A hash token, such as `#ff0000`, without the `#`.
    Hash(Vec<char>),
    /// A `url(..)` token, with the URL it holds.
    Url(Vec<char>),
    /// A color function (`rgb()`, `rgba()`, `hsl()`, `hsla()`) that the
    /// tokenizer has already evaluated to its red, green, blue and alpha.
    ColorFunction(u8, u8, u8, u8),
    /// A delimiter, such as `/`.
    Delim(char),
    /// Any other token, which no value of these properties accepts.
    Other,
}

/// The mathematical form of a [`Token`].
pub enum TokenView {
    Ident(Seq<char>),
    Number(i64, bool),
    Percentage(i64),
    Dimension(i64, bool, Seq<char>),
    Hash(Seq<char>),
    Url(Seq<char>),
    ColorFunction(u8, u8, u8, u8),
    Delim(char),
    Other,
}

impl View for Token {
    type V = TokenView;

    open spec fn view(&self) -> TokenView {
        match self {
            Token::Ident(s) => TokenView::Ident(s@),
            Token::Number(v, i) => TokenView::Number(*v, *i),
            Token::Percentage(v) => TokenView::Percentage(*v),
            Token::Dimension(v, i, u) => TokenView::Dimension(*v, *i, u@),
            Token::Hash(s) => TokenView::Hash(s@),
            Token::Url(s) => TokenView::Url(s@),
            Token::ColorFunction(r, g, b, a) => TokenView::ColorFunction(*r, *g, *b, *a),
            Token::Delim(c) => TokenView::Delim(*c),
            Token::Other => TokenView::Other,
        }
    }
}

/// The views of a sequence of tokens.
pub open spec fn token_views(s: Seq<Token>) -> Seq<TokenView> {
    s.map_values(|t: Token| t@)
}

/// What went wrong in a parse.
#[derive(PartialEq, Eq, Structural, Clone, Copy, Debug)]
pub enum ParseErrorKind {
    /// The input ended where a value was expected.
    EndOfInput,
    /// A token did not fit the grammar at this place.
    UnexpectedToken,
    /// The shorthand's grammar was not met (none of its parts was given).
    Invalid,
}

/// A parse error, with the index of the token where it arose.
#[derive(PartialEq, Eq, Structural, Clone, Copy, Debug)]
pub struct ParseError {
    pub kind: ParseErrorKind,
    pub position: usize,
}

/// The error of a value that was expected at `pos` and is not there.
pub open spec fn value_error(toks: Seq<TokenView>, pos: int) -> ParseError {
    ParseError {
        kind: if pos < toks.len() { ParseErrorKind::UnexpectedToken } else { ParseErrorKind::EndOfInput },
        position: pos as usize,
    }
}

} // verus!
