//! `border-color` and `border-style`: one value per side, written with one
//! to four values. `border-color` allows quirks: in quirks mode it also
//! reads hashless colors (`ff0000`, `123`). `border-style` reads the same in
//! every mode, as no border style depends on quirks.

use vstd::prelude::*;
use crate::parser::{Parser, ParserContext, QuirksMode, quirks_allowed};
use crate::rect::{Rect, spec_parse_rect, spec_rect_tokens, rect_valid, lemma_rect_roundtrip, lemma_rect_parsed_valid, lemma_rect_values};
use crate::token::{Token, TokenView, ParseError, token_views};
use crate::values::Component;

verus! {

/// The top, right, bottom and left longhands of one property.
#[derive(Clone, Copy, Debug)]
pub struct Longhands<T> {
    pub top: T,
    pub right: T,
    pub bottom: T,
    pub left: T,
}

/// The four sides, as a rect.
pub open spec fn as_rect<T>(v: Longhands<T>) -> Rect<T> {
    Rect(v.top, v.right, v.bottom, v.left)
}

/// The longhands of a value read as a rect, with quirks where the document
/// is in quirks mode.
pub open spec fn spec_parse_value<T: Component>(context: ParserContext, toks: Seq<TokenView>, pos: int) -> Result<(Longhands<T>, int), ParseError> {
    match spec_parse_rect::<T>(toks, pos, quirks_allowed(context)) {
        Ok((r, p)) => Ok((Longhands { top: r.0, right: r.1, bottom: r.2, left: r.3 }, p)),
        Err(e) => Err(e),
    }
}

/// Reads the four sides; see [`spec_parse_value`]. On failure nothing is
/// consumed.
pub fn parse_value<T: Component>(context: &ParserContext, input: &mut Parser) -> (res: Result<Longhands<T>, ParseError>)
    requires
        old(input).wf(),
    ensures
        final(input).wf(),
        final(input).toks() == old(input).toks(),
        match spec_parse_value::<T>(*context, old(input).toks(), old(input).pos()) {
            Ok((v, p)) => res == Ok::<Longhands<T>, ParseError>(v) && final(input).pos() == p,
            Err(e) => res == Err::<Longhands<T>, ParseError>(e) && final(input).pos() == old(input).pos(),
        },
{
    let quirks = context.quirks_mode == QuirksMode::Quirks;
    let r = Rect::<T>::parse_with(input, quirks)?;
    Ok(Longhands { top: r.0, right: r.1, bottom: r.2, left: r.3 })
}

impl<T: Component> Longhands<T> {
    /// Writes the four sides with the fewest values.
    pub fn to_css(&self, dest: &mut Vec<Token>)
        ensures
            token_views(final(dest)@) == token_views(old(dest)@) + spec_rect_tokens(as_rect(*self)),
    {
        Rect::new(self.top, self.right, self.bottom, self.left).to_css(dest)
    }
}

/// Valid sides written with the fewest values read back as the same sides.
pub proof fn lemma_roundtrip<T: Component>(context: ParserContext, v: Longhands<T>)
    requires
        rect_valid(as_rect(v)),
    ensures
        spec_parse_value::<T>(context, spec_rect_tokens(as_rect(v)), 0)
            == Ok::<(Longhands<T>, int), ParseError>((v, spec_rect_tokens(as_rect(v)).len() as int)),
{
    let s = spec_rect_tokens(as_rect(v));
    assert(s.subrange(0, s.len() as int) =~= s);
    lemma_rect_roundtrip(as_rect(v), s, 0, quirks_allowed(context));
}

/// Sides read and written back read as the same sides again.
pub proof fn lemma_reparse<T: Component>(context: ParserContext, toks: Seq<TokenView>, pos: int)
    ensures
        spec_parse_value::<T>(context, toks, pos) matches Ok((v, _)) ==> spec_parse_value::<T>(context, spec_rect_tokens(as_rect(v)), 0)
            == Ok::<(Longhands<T>, int), ParseError>((v, spec_rect_tokens(as_rect(v)).len() as int)),
{
    lemma_rect_parsed_valid::<T>(toks, pos, quirks_allowed(context));
    if let Ok((v, _)) = spec_parse_value::<T>(context, toks, pos) {
        lemma_roundtrip(context, v);
    }
}

/// The values go to the sides in the order top, right, bottom, left: four
/// values `a b c d` set top `a`, right `b`, bottom `c`, left `d`; three set
/// top `a`, right and left `b`, bottom `c`; two set top and bottom `a`,
/// right and left `b`; one sets every side.
pub proof fn lemma_side_order<T: Component>(context: ParserContext, a: T, b: T, c: T, d: T)
    requires
        a.spec_valid(),
        b.spec_valid(),
        c.spec_valid(),
        d.spec_valid(),
    ensures
        spec_parse_value::<T>(context, seq![a.spec_to_token(), b.spec_to_token(), c.spec_to_token(), d.spec_to_token()], 0)
            == Ok::<(Longhands<T>, int), ParseError>((Longhands { top: a, right: b, bottom: c, left: d }, 4)),
        spec_parse_value::<T>(context, seq![a.spec_to_token(), b.spec_to_token(), c.spec_to_token()], 0)
            == Ok::<(Longhands<T>, int), ParseError>((Longhands { top: a, right: b, bottom: c, left: b }, 3)),
        spec_parse_value::<T>(context, seq![a.spec_to_token(), b.spec_to_token()], 0)
            == Ok::<(Longhands<T>, int), ParseError>((Longhands { top: a, right: b, bottom: a, left: b }, 2)),
        spec_parse_value::<T>(context, seq![a.spec_to_token()], 0)
            == Ok::<(Longhands<T>, int), ParseError>((Longhands { top: a, right: a, bottom: a, left: a }, 1)),
{
    lemma_rect_values(a, b, c, d, quirks_allowed(context));
}

} // verus!
