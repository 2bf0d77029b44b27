//! `border-top`, `border-right`, `border-bottom`, `border-left` and the
//! logical `border-block-start`, `border-block-end`, `border-inline-start`,
//! `border-inline-end`: the width, style and color of one side.

use vstd::prelude::*;
use crate::color::Color;
use crate::parser::{Parser, ParserContext};
use crate::token::{Token, TokenView, ParseError, token_views};
use crate::values::{BorderStyle, BorderSideWidth};
use crate::values::{Component, lemma_style_width_disjoint};
use super::{lemma_line_tokens_not_colors, spec_border_parts, parse_border, spec_parse_border, serialize_directional_border, spec_directional_border_tokens};

verus! {

/// The longhands that a one-side border shorthand sets.
#[derive(PartialEq, Eq, Structural, Clone, Copy, Debug)]
pub struct Longhands {
    pub color: Color,
    pub style: BorderStyle,
    pub width: BorderSideWidth,
}

/// The longhands of a border value; see [`spec_parse_border`].
pub open spec fn spec_parse_value(toks: Seq<TokenView>, pos: int) -> Result<(Longhands, int), ParseError> {
    match spec_parse_border(toks, pos) {
        Ok(((c, s, w), p)) => Ok((Longhands { color: c, style: s, width: w }, p)),
        Err(e) => Err(e),
    }
}

/// Reads a one-side border shorthand. On failure nothing is consumed.
pub fn parse_value(context: &ParserContext, input: &mut Parser) -> (res: Result<Longhands, ParseError>)
    requires
        old(input).wf(),
    ensures
        final(input).wf(),
        final(input).toks() == old(input).toks(),
        match spec_parse_value(old(input).toks(), old(input).pos()) {
            Ok((v, p)) => res == Ok::<Longhands, ParseError>(v) && final(input).pos() == p,
            Err(e) => res == Err::<Longhands, ParseError>(e) && final(input).pos() == old(input).pos(),
        },
{
    let (color, style, width) = parse_border(context, input)?;
    Ok(Longhands { color, style, width })
}

impl Longhands {
    /// Writes the side: width, style, and the color unless it is
    /// `currentcolor`.
    pub fn to_css(&self, dest: &mut Vec<Token>)
        ensures
            token_views(final(dest)@) == token_views(old(dest)@)
                + spec_directional_border_tokens(self.width, self.style, self.color),
    {
        serialize_directional_border(dest, &self.width, &self.style, &self.color)
    }
}


/// A one-side border written out reads back as the same longhands, where
/// the width is valid.
pub proof fn lemma_roundtrip(v: Longhands)
    requires
        v.width.spec_valid(),
    ensures
        spec_parse_value(spec_directional_border_tokens(v.width, v.style, v.color), 0)
            == Ok::<(Longhands, int), ParseError>((v, spec_directional_border_tokens(v.width, v.style, v.color).len() as int)),
{
    let toks = spec_directional_border_tokens(v.width, v.style, v.color);
    lemma_style_width_disjoint(v.style, v.width, false);
    lemma_line_tokens_not_colors(v.style, v.width);
    BorderSideWidth::lemma_roundtrip(v.width, false);
    BorderStyle::lemma_roundtrip(v.style, false);
    Color::lemma_roundtrip(v.color, false);
    assert(toks[0] == v.width.spec_to_token());
    assert(toks[1] == v.style.spec_to_token());
    assert(spec_border_parts(toks, 0, None, None, None) == spec_border_parts(toks, 1, None, None, Some(v.width)));
    assert(spec_border_parts(toks, 1, None, None, Some(v.width)) == spec_border_parts(toks, 2, None, Some(v.style), Some(v.width)));
    if v.color != Color::CurrentColor {
        assert(toks[2] == v.color.spec_to_token());
        assert(spec_border_parts(toks, 2, None, Some(v.style), Some(v.width))
            == spec_border_parts(toks, 3, Some(v.color), Some(v.style), Some(v.width)));
    }
}

} // verus!
