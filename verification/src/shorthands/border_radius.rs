//! `border-radius`: the horizontal and vertical radii of the four corners,
//! written as one to four horizontal radii, then optionally `/` and one to
//! four vertical radii.

use vstd::prelude::*;
use crate::parser::{Parser, ParserContext, spec_expect_delim};
use crate::rect::{Rect, spec_parse_rect, spec_rect_tokens, rect_valid, lemma_rect_roundtrip, lemma_rect_parsed_valid, lemma_rect_values};
use crate::token::{Token, TokenView, ParseError, token_views};
use crate::values::{Component, LengthPercentage, spec_component_at, push_token};

verus! {

/// The horizontal and vertical radius of one corner.
#[derive(PartialEq, Eq, Structural, Clone, Copy, Debug)]
pub struct BorderCornerRadius {
    pub width: LengthPercentage,
    pub height: LengthPercentage,
}

/// The longhands that `border-radius` sets.
#[derive(Clone, Copy, Debug)]
pub struct Longhands {
    pub border_top_left_radius: BorderCornerRadius,
    pub border_top_right_radius: BorderCornerRadius,
    pub border_bottom_right_radius: BorderCornerRadius,
    pub border_bottom_left_radius: BorderCornerRadius,
}

/// The corners of horizontal radii `w` and vertical radii `h`, both in the
/// order top-left, top-right, bottom-right, bottom-left.
pub open spec fn corners(w: Rect<LengthPercentage>, h: Rect<LengthPercentage>) -> Longhands {
    Longhands {
        border_top_left_radius: BorderCornerRadius { width: w.0, height: h.0 },
        border_top_right_radius: BorderCornerRadius { width: w.1, height: h.1 },
        border_bottom_right_radius: BorderCornerRadius { width: w.2, height: h.2 },
        border_bottom_left_radius: BorderCornerRadius { width: w.3, height: h.3 },
    }
}

/// The horizontal radii, as a rect.
pub open spec fn widths(v: Longhands) -> Rect<LengthPercentage> {
    Rect(v.border_top_left_radius.width, v.border_top_right_radius.width,
        v.border_bottom_right_radius.width, v.border_bottom_left_radius.width)
}

/// The vertical radii, as a rect.
pub open spec fn heights(v: Longhands) -> Rect<LengthPercentage> {
    Rect(v.border_top_left_radius.height, v.border_top_right_radius.height,
        v.border_bottom_right_radius.height, v.border_bottom_left_radius.height)
}

/// The horizontal radii, then, after a `/`, the vertical ones; without the
/// `/` the vertical radii are the horizontal ones. The longhands and the
/// position after them, or the error of the first rect that is missing.
pub open spec fn spec_parse_value(toks: Seq<TokenView>, pos: int) -> Result<(Longhands, int), ParseError> {
    match spec_parse_rect::<LengthPercentage>(toks, pos, false) {
        Err(e) => Err(e),
        Ok((w, p1)) => match spec_expect_delim(toks, p1, '/') {
            Ok(p2) => match spec_parse_rect::<LengthPercentage>(toks, p2, false) {
                Ok((h, p3)) => Ok((corners(w, h), p3)),
                Err(e) => Err(e),
            },
            Err(_) => Ok((corners(w, w), p1)),
        },
    }
}

/// Reads `border-radius`; see [`spec_parse_value`]. On failure nothing is
/// consumed.
pub fn parse_value(context: &ParserContext, input: &mut Parser) -> (res: Result<Longhands, ParseError>)
    requires
        old(input).wf(),
    ensures
        final(input).wf(),
        final(input).toks() == old(input).toks(),
        match spec_parse_value(old(input).toks(), old(input).pos()) {
            Ok((v, p)) => res == Ok::<Longhands, ParseError>(v) && final(input).pos() == p,
            Err(e) => res == Err::<Longhands, ParseError>(e) && final(input).pos() == old(input).pos(),
        },
{
    let start = input.position();
    let w = Rect::<LengthPercentage>::parse_with(input, false)?;
    let h = if input.expect_delim('/').is_ok() {
        match Rect::<LengthPercentage>::parse_with(input, false) {
            Ok(h) => h,
            Err(e) => {
                input.reset(start);
                return Err(e);
            },
        }
    } else {
        w
    };
    Ok(Longhands {
        border_top_left_radius: BorderCornerRadius { width: w.0, height: h.0 },
        border_top_right_radius: BorderCornerRadius { width: w.1, height: h.1 },
        border_bottom_right_radius: BorderCornerRadius { width: w.2, height: h.2 },
        border_bottom_left_radius: BorderCornerRadius { width: w.3, height: h.3 },
    })
}

/// The tokens `border-radius` is written as: the horizontal radii, then,
/// where they differ from them, `/` and the vertical radii.
pub open spec fn spec_to_css_tokens(v: Longhands) -> Seq<TokenView> {
    if widths(v) == heights(v) {
        spec_rect_tokens(widths(v))
    } else {
        spec_rect_tokens(widths(v)) + seq![TokenView::Delim('/')] + spec_rect_tokens(heights(v))
    }
}

impl Longhands {
    /// Writes `border-radius`; see [`spec_to_css_tokens`].
    pub fn to_css(&self, dest: &mut Vec<Token>)
        ensures
            token_views(final(dest)@) == token_views(old(dest)@) + spec_to_css_tokens(*self),
    {
        let ghost start = token_views(dest@);
        let tl = self.border_top_left_radius;
        let tr = self.border_top_right_radius;
        let br = self.border_bottom_right_radius;
        let bl = self.border_bottom_left_radius;
        let w = Rect::new(tl.width, tr.width, br.width, bl.width);
        let h = Rect::new(tl.height, tr.height, br.height, bl.height);
        w.to_css(dest);
        if !(w.0 == h.0 && w.1 == h.1 && w.2 == h.2 && w.3 == h.3) {
            push_token(dest, Token::Delim('/'));
            h.to_css(dest);
        }
        assert(token_views(dest@) =~= start + spec_to_css_tokens(*self));
    }
}

/// Radii written out read back as the same radii.
pub proof fn lemma_roundtrip(v: Longhands)
    requires
        rect_valid(widths(v)),
        rect_valid(heights(v)),
    ensures
        spec_parse_value(spec_to_css_tokens(v), 0) == Ok::<(Longhands, int), ParseError>((v, spec_to_css_tokens(v).len() as int)),
{
    let toks = spec_to_css_tokens(v);
    let ws = spec_rect_tokens(widths(v));
    let hs = spec_rect_tokens(heights(v));
    if widths(v) == heights(v) {
        assert(toks.subrange(0, ws.len() as int) =~= ws);
        lemma_rect_roundtrip(widths(v), toks, 0, false);
        assert(corners(widths(v), widths(v)) == v);
    } else {
        assert(toks.subrange(0, ws.len() as int) =~= ws);
        assert(toks[ws.len() as int] == TokenView::Delim('/'));
        assert(spec_component_at::<LengthPercentage>(toks, ws.len() as int, false) is None);
        lemma_rect_roundtrip(widths(v), toks, 0, false);
        assert(toks.subrange(ws.len() + 1int, ws.len() + 1int + hs.len()) =~= hs);
        lemma_rect_roundtrip(heights(v), toks, ws.len() + 1int, false);
        assert(corners(widths(v), heights(v)) == v);
    }
}

/// Radii read and written back read as the same radii again.
pub proof fn lemma_reparse(toks: Seq<TokenView>, pos: int)
    ensures
        spec_parse_value(toks, pos) matches Ok((v, _)) ==> spec_parse_value(spec_to_css_tokens(v), 0)
            == Ok::<(Longhands, int), ParseError>((v, spec_to_css_tokens(v).len() as int)),
{
    lemma_rect_parsed_valid::<LengthPercentage>(toks, pos, false);
    if let Ok((w, p1)) = spec_parse_rect::<LengthPercentage>(toks, pos, false) {
        lemma_rect_parsed_valid::<LengthPercentage>(toks, p1 + 1, false);
    }
    if let Ok((v, _)) = spec_parse_value(toks, pos) {
        lemma_roundtrip(v);
    }
}

/// Radii go to the corners in the order top-left, top-right, bottom-right,
/// bottom-left: four radii `a b c d` without `/` give those corners the
/// horizontal and vertical radius `a`, `b`, `c`, `d`; after `/`, four more
/// `e f g h` are the corners' vertical radii in the same order.
pub proof fn lemma_corner_order(
    a: LengthPercentage,
    b: LengthPercentage,
    c: LengthPercentage,
    d: LengthPercentage,
    e: LengthPercentage,
    f: LengthPercentage,
    g: LengthPercentage,
    h: LengthPercentage,
)
    requires
        a.spec_valid(),
        b.spec_valid(),
        c.spec_valid(),
        d.spec_valid(),
        e.spec_valid(),
        f.spec_valid(),
        g.spec_valid(),
        h.spec_valid(),
    ensures
        spec_parse_value(seq![a.spec_to_token(), b.spec_to_token(), c.spec_to_token(), d.spec_to_token()], 0)
            == Ok::<(Longhands, int), ParseError>((
                Longhands {
                    border_top_left_radius: BorderCornerRadius { width: a, height: a },
                    border_top_right_radius: BorderCornerRadius { width: b, height: b },
                    border_bottom_right_radius: BorderCornerRadius { width: c, height: c },
                    border_bottom_left_radius: BorderCornerRadius { width: d, height: d },
                },
                4,
            )),
        spec_parse_value(
            seq![a.spec_to_token(), b.spec_to_token(), c.spec_to_token(), d.spec_to_token(), TokenView::Delim('/'),
                e.spec_to_token(), f.spec_to_token(), g.spec_to_token(), h.spec_to_token()],
            0,
        ) == Ok::<(Longhands, int), ParseError>((
            Longhands {
                border_top_left_radius: BorderCornerRadius { width: a, height: e },
                border_top_right_radius: BorderCornerRadius { width: b, height: f },
                border_bottom_right_radius: BorderCornerRadius { width: c, height: g },
                border_bottom_left_radius: BorderCornerRadius { width: d, height: h },
            },
            9,
        )),
{
    lemma_rect_values(a, b, c, d, false);
    lemma_rect_values(e, f, g, h, false);
    let t = seq![a.spec_to_token(), b.spec_to_token(), c.spec_to_token(), d.spec_to_token(), TokenView::Delim('/'),
        e.spec_to_token(), f.spec_to_token(), g.spec_to_token(), h.spec_to_token()];
    LengthPercentage::lemma_roundtrip(a, false);
    LengthPercentage::lemma_roundtrip(b, false);
    LengthPercentage::lemma_roundtrip(c, false);
    LengthPercentage::lemma_roundtrip(d, false);
    LengthPercentage::lemma_roundtrip(e, false);
    LengthPercentage::lemma_roundtrip(f, false);
    LengthPercentage::lemma_roundtrip(g, false);
    LengthPercentage::lemma_roundtrip(h, false);
    assert(t[0] == a.spec_to_token() && t[1] == b.spec_to_token() && t[2] == c.spec_to_token());
    assert(t[3] == d.spec_to_token() && t[4] == TokenView::Delim('/') && t[5] == e.spec_to_token());
    assert(t[6] == f.spec_to_token() && t[7] == g.spec_to_token() && t[8] == h.spec_to_token());
}

} // verus!
