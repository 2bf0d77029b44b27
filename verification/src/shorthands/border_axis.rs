//! `border-block` and `border-inline`: one border value given to both the
//! start and the end side of the axis.

use vstd::prelude::*;
use crate::color::Color;
use crate::parser::{Parser, ParserContext};
use crate::token::{Token, TokenView, ParseError, token_views};
use crate::values::{BorderSideWidth, BorderStyle, Component};
use super::{spec_directional_border_tokens, serialize_directional_border};
use super::border_side;

verus! {

/// The longhands that `border-block` or `border-inline` sets.
#[derive(PartialEq, Eq, Structural, Clone, Copy, Debug)]
pub struct Longhands {
    pub start_width: BorderSideWidth,
    pub end_width: BorderSideWidth,
    pub start_style: BorderStyle,
    pub end_style: BorderStyle,
    pub start_color: Color,
    pub end_color: Color,
}

/// The border value of the start side (see [`border_side::spec_parse_value`])
/// given to both sides.
pub open spec fn spec_parse_value(toks: Seq<TokenView>, pos: int) -> Result<(Longhands, int), ParseError> {
    match border_side::spec_parse_value(toks, pos) {
        Ok((s, p)) => Ok((
            Longhands {
                start_width: s.width,
                end_width: s.width,
                start_style: s.style,
                end_style: s.style,
                start_color: s.color,
                end_color: s.color,
            },
            p,
        )),
        Err(e) => Err(e),
    }
}

/// Reads `border-block` or `border-inline`; see [`spec_parse_value`]. On
/// failure nothing is consumed.
pub fn parse_value(context: &ParserContext, input: &mut Parser) -> (res: Result<Longhands, ParseError>)
    requires
        old(input).wf(),
    ensures
        final(input).wf(),
        final(input).toks() == old(input).toks(),
        match spec_parse_value(old(input).toks(), old(input).pos()) {
            Ok((v, p)) => res == Ok::<Longhands, ParseError>(v) && final(input).pos() == p,
            Err(e) => res == Err::<Longhands, ParseError>(e) && final(input).pos() == old(input).pos(),
        },
{
    let start_value = border_side::parse_value(context, input)?;
    Ok(Longhands {
        start_width: start_value.width,
        end_width: start_value.width,
        start_style: start_value.style,
        end_style: start_value.style,
        start_color: start_value.color,
        end_color: start_value.color,
    })
}

/// The tokens written: the start side's border (the end side is not
/// looked at).
pub open spec fn spec_to_css_tokens(v: Longhands) -> Seq<TokenView> {
    spec_directional_border_tokens(v.start_width, v.start_style, v.start_color)
}

impl Longhands {
    /// Writes the start side's border; see [`spec_to_css_tokens`].
    pub fn to_css(&self, dest: &mut Vec<Token>)
        ensures
            token_views(final(dest)@) == token_views(old(dest)@) + spec_to_css_tokens(*self),
    {
        serialize_directional_border(dest, &self.start_width, &self.start_style, &self.start_color)
    }
}

/// What is read gives the end side the start side's values.
pub proof fn lemma_parsed_sides_equal(toks: Seq<TokenView>, pos: int)
    ensures
        spec_parse_value(toks, pos) matches Ok((v, _)) ==> v.end_width == v.start_width
            && v.end_style == v.start_style && v.end_color == v.start_color,
{
}

/// Longhands whose end side equals the start side, written out, read back
/// as the same longhands, where the width is valid.
pub proof fn lemma_roundtrip(v: Longhands)
    requires
        v.end_width == v.start_width,
        v.end_style == v.start_style,
        v.end_color == v.start_color,
        v.start_width.spec_valid(),
    ensures
        spec_parse_value(spec_to_css_tokens(v), 0) == Ok::<(Longhands, int), ParseError>((v, spec_to_css_tokens(v).len() as int)),
{
    border_side::lemma_roundtrip(border_side::Longhands { color: v.start_color, style: v.start_style, width: v.start_width });
}

} // verus!
