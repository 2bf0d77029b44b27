//! `border-width`: the widths of the four sides, one to four values.

use vstd::prelude::*;
use crate::parser::{Parser, ParserContext, quirks_allowed};
use crate::rect::{Rect, spec_parse_rect, spec_rect_tokens, rect_valid, lemma_rect_roundtrip, lemma_rect_parsed_valid, lemma_rect_values};
use crate::token::{Token, TokenView, ParseError, token_views};
use crate::values::{BorderSideWidth, Component};

verus! {

/// The longhands that `border-width` sets.
#[derive(PartialEq, Eq, Structural, Clone, Copy, Debug)]
pub struct Longhands {
    pub border_top_width: BorderSideWidth,
    pub border_right_width: BorderSideWidth,
    pub border_bottom_width: BorderSideWidth,
    pub border_left_width: BorderSideWidth,
}

/// The longhands of a value read as a rect of widths, where unitless
/// lengths are allowed in quirks mode.
pub open spec fn spec_parse_value(context: ParserContext, toks: Seq<TokenView>, pos: int) -> Result<(Longhands, int), ParseError> {
    match spec_parse_rect::<BorderSideWidth>(toks, pos, quirks_allowed(context)) {
        Ok((r, p)) => Ok((
            Longhands { border_top_width: r.0, border_right_width: r.1, border_bottom_width: r.2, border_left_width: r.3 },
            p,
        )),
        Err(e) => Err(e),
    }
}

/// Reads `border-width`; see [`spec_parse_value`]. On failure nothing is
/// consumed.
pub fn parse_value(context: &ParserContext, input: &mut Parser) -> (res: Result<Longhands, ParseError>)
    requires
        old(input).wf(),
    ensures
        final(input).wf(),
        final(input).toks() == old(input).toks(),
        match spec_parse_value(*context, old(input).toks(), old(input).pos()) {
            Ok((v, p)) => res == Ok::<Longhands, ParseError>(v) && final(input).pos() == p,
            Err(e) => res == Err::<Longhands, ParseError>(e) && final(input).pos() == old(input).pos(),
        },
{
    let quirks = context.quirks_mode == crate::parser::QuirksMode::Quirks;
    let rect = Rect::<BorderSideWidth>::parse_with(input, quirks)?;
    Ok(Longhands {
        border_top_width: rect.0,
        border_right_width: rect.1,
        border_bottom_width: rect.2,
        border_left_width: rect.3,
    })
}

/// The four widths, as a rect.
pub open spec fn as_rect(v: Longhands) -> Rect<BorderSideWidth> {
    Rect(v.border_top_width, v.border_right_width, v.border_bottom_width, v.border_left_width)
}

impl Longhands {
    /// Writes the widths with the fewest values.
    pub fn to_css(&self, dest: &mut Vec<Token>)
        ensures
            token_views(final(dest)@) == token_views(old(dest)@) + spec_rect_tokens(as_rect(*self)),
    {
        Rect::new(self.border_top_width, self.border_right_width, self.border_bottom_width, self.border_left_width).to_css(dest)
    }
}


/// Widths written with the fewest values read back as the same widths.
pub proof fn lemma_roundtrip(context: ParserContext, v: Longhands)
    requires
        rect_valid(as_rect(v)),
    ensures
        spec_parse_value(context, spec_rect_tokens(as_rect(v)), 0)
            == Ok::<(Longhands, int), ParseError>((v, spec_rect_tokens(as_rect(v)).len() as int)),
{
    let s = spec_rect_tokens(as_rect(v));
    assert(s.subrange(0, s.len() as int) =~= s);
    lemma_rect_roundtrip(as_rect(v), s, 0, quirks_allowed(context));
}

/// Widths read and written back read as the same widths again.
pub proof fn lemma_reparse(context: ParserContext, toks: Seq<TokenView>, pos: int)
    ensures
        spec_parse_value(context, toks, pos) matches Ok((v, _)) ==> spec_parse_value(context, spec_rect_tokens(as_rect(v)), 0)
            == Ok::<(Longhands, int), ParseError>((v, spec_rect_tokens(as_rect(v)).len() as int)),
{
    lemma_rect_parsed_valid::<BorderSideWidth>(toks, pos, quirks_allowed(context));
    if let Ok((v, _)) = spec_parse_value(context, toks, pos) {
        lemma_roundtrip(context, v);
    }
}

/// The widths go to the sides in the order top, right, bottom, left: four
/// widths `a b c d` set top `a`, right `b`, bottom `c`, left `d`; three set
/// top `a`, right and left `b`, bottom `c`; two set top and bottom `a`,
/// right and left `b`; one sets every side.
pub proof fn lemma_side_order(context: ParserContext, a: BorderSideWidth, b: BorderSideWidth, c: BorderSideWidth, d: BorderSideWidth)
    requires
        a.spec_valid(),
        b.spec_valid(),
        c.spec_valid(),
        d.spec_valid(),
    ensures
        spec_parse_value(context, seq![a.spec_to_token(), b.spec_to_token(), c.spec_to_token(), d.spec_to_token()], 0)
            == Ok::<(Longhands, int), ParseError>((
                Longhands { border_top_width: a, border_right_width: b, border_bottom_width: c, border_left_width: d },
                4,
            )),
        spec_parse_value(context, seq![a.spec_to_token(), b.spec_to_token(), c.spec_to_token()], 0)
            == Ok::<(Longhands, int), ParseError>((
                Longhands { border_top_width: a, border_right_width: b, border_bottom_width: c, border_left_width: b },
                3,
            )),
        spec_parse_value(context, seq![a.spec_to_token(), b.spec_to_token()], 0)
            == Ok::<(Longhands, int), ParseError>((
                Longhands { border_top_width: a, border_right_width: b, border_bottom_width: a, border_left_width: b },
                2,
            )),
        spec_parse_value(context, seq![a.spec_to_token()], 0)
            == Ok::<(Longhands, int), ParseError>((
                Longhands { border_top_width: a, border_right_width: a, border_bottom_width: a, border_left_width: a },
                1,
            )),
{
    lemma_rect_values(a, b, c, d, quirks_allowed(context));
}

} // verus!
