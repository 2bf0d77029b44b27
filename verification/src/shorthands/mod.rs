//! The shorthand properties of the `border` family: each module reads the
//! shorthand's value into its longhands and writes the longhands back.

use vstd::prelude::*;
use crate::color::Color;
use crate::parser::{Parser, ParserContext};
use crate::token::{Token, TokenView, ParseError, ParseErrorKind, token_views};
use crate::values::{BorderStyle, BorderSideWidth, Component, spec_component_at, parse_component, push_token, lemma_style_width_disjoint};

pub mod four_sides;
pub mod border_width;
pub mod border_side;
pub mod border;
pub mod border_radius;
pub mod border_image;
pub mod border_logical_pair;
pub mod border_axis;

verus! {

/// How many of the three parts of a border are still to be read.
pub open spec fn border_parts_missing(color: Option<Color>, style: Option<BorderStyle>, width: Option<BorderSideWidth>) -> nat {
    (if color is None { 1nat } else { 0nat }) + (if style is None { 1nat } else { 0nat })
        + (if width is None { 1nat } else { 0nat })
}

/// Reads the parts of a border, in any order and each at most once: at each
/// token, a color is tried first (if none was read yet), then a style, then
/// a width; reading stops at the first token that none of the missing parts
/// accepts. The parts read and the position after them.
pub open spec fn spec_border_parts(
    toks: Seq<TokenView>,
    pos: int,
    color: Option<Color>,
    style: Option<BorderStyle>,
    width: Option<BorderSideWidth>,
) -> (Option<Color>, Option<BorderStyle>, Option<BorderSideWidth>, int)
    decreases border_parts_missing(color, style, width),
{
    if color is None && spec_component_at::<Color>(toks, pos, false) is Some {
        spec_border_parts(toks, pos + 1, spec_component_at::<Color>(toks, pos, false), style, width)
    } else if style is None && spec_component_at::<BorderStyle>(toks, pos, false) is Some {
        spec_border_parts(toks, pos + 1, color, spec_component_at::<BorderStyle>(toks, pos, false), width)
    } else if width is None && spec_component_at::<BorderSideWidth>(toks, pos, false) is Some {
        spec_border_parts(toks, pos + 1, color, style, spec_component_at::<BorderSideWidth>(toks, pos, false))
    } else {
        (color, style, width, pos)
    }
}

/// The value of a border (`<line-width> || <line-style> || <color>`) at
/// `pos`: the parts given, with `currentcolor`, `none` and `medium` for the
/// parts left out, and the position after it; an `Invalid` error at `pos`
/// where no part is given.
pub open spec fn spec_parse_border(toks: Seq<TokenView>, pos: int) -> Result<((Color, BorderStyle, BorderSideWidth), int), ParseError> {
    let (c, s, w, p) = spec_border_parts(toks, pos, None, None, None);
    if c is Some || s is Some || w is Some {
        Ok((
            (
                match c { Some(v) => v, None => Color::CurrentColor },
                match s { Some(v) => v, None => BorderStyle::NoBorder },
                match w { Some(v) => v, None => BorderSideWidth::Medium },
            ),
            p,
        ))
    } else {
        Err(ParseError { kind: ParseErrorKind::Invalid, position: pos as usize })
    }
}

/// Reads the color, style and width of a border side, in any order; see
/// [`spec_parse_border`]. On failure nothing is consumed.
pub fn parse_border(context: &ParserContext, input: &mut Parser) -> (res: Result<(Color, BorderStyle, BorderSideWidth), ParseError>)
    requires
        old(input).wf(),
    ensures
        final(input).wf(),
        final(input).toks() == old(input).toks(),
        match spec_parse_border(old(input).toks(), old(input).pos()) {
            Ok((v, p)) => res == Ok::<(Color, BorderStyle, BorderSideWidth), ParseError>(v) && final(input).pos() == p,
            Err(e) => res == Err::<(Color, BorderStyle, BorderSideWidth), ParseError>(e)
                && final(input).pos() == old(input).pos(),
        },
{
    let ghost toks = input.toks();
    let ghost start = input.pos();
    let mut color: Option<Color> = None;
    let mut style: Option<BorderStyle> = None;
    let mut width: Option<BorderSideWidth> = None;
    loop
        invariant
            input.wf(),
            input.toks() == toks,
            spec_border_parts(toks, start, None, None, None) == spec_border_parts(toks, input.pos(), color, style, width),
            (color is None && style is None && width is None) ==> input.pos() == start,
        ensures
            input.wf(),
            input.toks() == toks,
            spec_border_parts(toks, start, None, None, None) == (color, style, width, input.pos()),
            (color is None && style is None && width is None) ==> input.pos() == start,
        decreases border_parts_missing(color, style, width),
    {
        if color.is_none() {
            if let Ok(v) = parse_component::<Color>(input, false) {
                color = Some(v);
                continue;
            }
        }
        if style.is_none() {
            if let Ok(v) = parse_component::<BorderStyle>(input, false) {
                style = Some(v);
                continue;
            }
        }
        if width.is_none() {
            if let Ok(v) = parse_component::<BorderSideWidth>(input, false) {
                width = Some(v);
                continue;
            }
        }
        break;
    }
    if color.is_some() || style.is_some() || width.is_some() {
        let c = match color { Some(v) => v, None => Color::CurrentColor };
        let s = match style { Some(v) => v, None => BorderStyle::NoBorder };
        let w = match width { Some(v) => v, None => BorderSideWidth::Medium };
        Ok((c, s, w))
    } else {
        Err(ParseError { kind: ParseErrorKind::Invalid, position: input.position() })
    }
}

/// The tokens a border side is written as: its width, its style, and its
/// color unless that is `currentcolor`.
pub open spec fn spec_directional_border_tokens(width: BorderSideWidth, style: BorderStyle, color: Color) -> Seq<TokenView> {
    seq![width.spec_to_token(), style.spec_to_token()] + if color != Color::CurrentColor {
        seq![color.spec_to_token()]
    } else {
        Seq::<TokenView>::empty()
    }
}

/// Writes a border side; see [`spec_directional_border_tokens`].
pub fn serialize_directional_border(dest: &mut Vec<Token>, width: &BorderSideWidth, style: &BorderStyle, color: &Color)
    ensures
        token_views(final(dest)@) == token_views(old(dest)@) + spec_directional_border_tokens(*width, *style, *color),
{
    let ghost start = token_views(dest@);
    push_token(dest, width.to_token());
    push_token(dest, style.to_token());
    if *color != Color::CurrentColor {
        push_token(dest, color.to_token());
    }
    assert(token_views(dest@) =~= start + spec_directional_border_tokens(*width, *style, *color));
}

/// The three tokens `a`, `b`, `c` read as the border of color `c0`, style
/// `s0` and width `w0`, with nothing left over.
pub open spec fn reads_as(a: TokenView, b: TokenView, c: TokenView, c0: Color, s0: BorderStyle, w0: BorderSideWidth) -> bool {
    spec_parse_border(seq![a, b, c], 0) == Ok::<((Color, BorderStyle, BorderSideWidth), int), ParseError>(((c0, s0, w0), 3))
}

/// The parts of a border may come in any order: where one token is only a
/// width, one only a style and one only a color, all six orders of them
/// read as the same border.
pub proof fn lemma_any_order_of_tokens(tw: TokenView, ts: TokenView, tc: TokenView, w: BorderSideWidth, s: BorderStyle, c: Color)
    requires
        BorderSideWidth::spec_from_token(tw, false) == Some(w),
        BorderStyle::spec_from_token(tw, false) is None,
        Color::spec_from_token(tw, false) is None,
        BorderStyle::spec_from_token(ts, false) == Some(s),
        BorderSideWidth::spec_from_token(ts, false) is None,
        Color::spec_from_token(ts, false) is None,
        Color::spec_from_token(tc, false) == Some(c),
        BorderSideWidth::spec_from_token(tc, false) is None,
        BorderStyle::spec_from_token(tc, false) is None,
    ensures
        reads_as(tw, ts, tc, c, s, w),
        reads_as(tw, tc, ts, c, s, w),
        reads_as(ts, tw, tc, c, s, w),
        reads_as(ts, tc, tw, c, s, w),
        reads_as(tc, tw, ts, c, s, w),
        reads_as(tc, ts, tw, c, s, w),
{
    reveal_with_fuel(spec_border_parts, 4);
    assert(seq![tw, ts, tc][0] == tw && seq![tw, ts, tc][1] == ts && seq![tw, ts, tc][2] == tc);
    assert(seq![tw, tc, ts][0] == tw && seq![tw, tc, ts][1] == tc && seq![tw, tc, ts][2] == ts);
    assert(seq![ts, tw, tc][0] == ts && seq![ts, tw, tc][1] == tw && seq![ts, tw, tc][2] == tc);
    assert(seq![ts, tc, tw][0] == ts && seq![ts, tc, tw][1] == tc && seq![ts, tc, tw][2] == tw);
    assert(seq![tc, tw, ts][0] == tc && seq![tc, tw, ts][1] == tw && seq![tc, tw, ts][2] == ts);
    assert(seq![tc, ts, tw][0] == tc && seq![tc, ts, tw][1] == ts && seq![tc, ts, tw][2] == tw);
}

/// The parts of a border may come in any order: a valid width, a style, and
/// any token that reads as a color, in all six orders, read as the same
/// border.
pub proof fn lemma_border_any_order(w: BorderSideWidth, s: BorderStyle, tc: TokenView, c: Color)
    requires
        w.spec_valid(),
        Color::spec_from_token(tc, false) == Some(c),
    ensures
        reads_as(w.spec_to_token(), s.spec_to_token(), tc, c, s, w),
        reads_as(w.spec_to_token(), tc, s.spec_to_token(), c, s, w),
        reads_as(s.spec_to_token(), w.spec_to_token(), tc, c, s, w),
        reads_as(s.spec_to_token(), tc, w.spec_to_token(), c, s, w),
        reads_as(tc, w.spec_to_token(), s.spec_to_token(), c, s, w),
        reads_as(tc, s.spec_to_token(), w.spec_to_token(), c, s, w),
{
    BorderSideWidth::lemma_roundtrip(w, false);
    BorderStyle::lemma_roundtrip(s, false);
    lemma_style_width_disjoint(s, w, false);
    lemma_line_tokens_not_colors(s, w);
    lemma_any_order_of_tokens(w.spec_to_token(), s.spec_to_token(), tc, w, s, c);
}

/// Border styles and widths are not colors, and colors are neither styles
/// nor widths.
pub proof fn lemma_line_tokens_not_colors(s: BorderStyle, w: BorderSideWidth)
    ensures
        Color::spec_from_token(s.spec_to_token(), false) is None,
        Color::spec_from_token(w.spec_to_token(), false) is None,
        forall|t: TokenView| #[trigger] Color::spec_from_token(t, false) is Some
            ==> BorderStyle::spec_from_token(t, false) is None && BorderSideWidth::spec_from_token(t, false) is None,
{
}

/// A part of a border that is left out takes its default, whichever other
/// parts are given and in whichever order: no color gives `currentcolor`,
/// no style gives `none`, no width gives `medium`.
pub proof fn lemma_border_defaults(w: BorderSideWidth, s: BorderStyle, tc: TokenView, c: Color)
    requires
        w.spec_valid(),
        Color::spec_from_token(tc, false) == Some(c),
    ensures
        spec_parse_border(seq![w.spec_to_token()], 0) == Ok::<((Color, BorderStyle, BorderSideWidth), int), ParseError>(((Color::CurrentColor, BorderStyle::NoBorder, w), 1)),
        spec_parse_border(seq![s.spec_to_token()], 0) == Ok::<((Color, BorderStyle, BorderSideWidth), int), ParseError>(((Color::CurrentColor, s, BorderSideWidth::Medium), 1)),
        spec_parse_border(seq![tc], 0) == Ok::<((Color, BorderStyle, BorderSideWidth), int), ParseError>(((c, BorderStyle::NoBorder, BorderSideWidth::Medium), 1)),
        spec_parse_border(seq![w.spec_to_token(), s.spec_to_token()], 0) == Ok::<((Color, BorderStyle, BorderSideWidth), int), ParseError>(((Color::CurrentColor, s, w), 2)),
        spec_parse_border(seq![s.spec_to_token(), w.spec_to_token()], 0) == Ok::<((Color, BorderStyle, BorderSideWidth), int), ParseError>(((Color::CurrentColor, s, w), 2)),
        spec_parse_border(seq![w.spec_to_token(), tc], 0) == Ok::<((Color, BorderStyle, BorderSideWidth), int), ParseError>(((c, BorderStyle::NoBorder, w), 2)),
        spec_parse_border(seq![tc, w.spec_to_token()], 0) == Ok::<((Color, BorderStyle, BorderSideWidth), int), ParseError>(((c, BorderStyle::NoBorder, w), 2)),
        spec_parse_border(seq![s.spec_to_token(), tc], 0) == Ok::<((Color, BorderStyle, BorderSideWidth), int), ParseError>(((c, s, BorderSideWidth::Medium), 2)),
        spec_parse_border(seq![tc, s.spec_to_token()], 0) == Ok::<((Color, BorderStyle, BorderSideWidth), int), ParseError>(((c, s, BorderSideWidth::Medium), 2)),
{
    reveal_with_fuel(spec_border_parts, 3);
    BorderSideWidth::lemma_roundtrip(w, false);
    BorderStyle::lemma_roundtrip(s, false);
    lemma_style_width_disjoint(s, w, false);
    lemma_line_tokens_not_colors(s, w);
    assert(Color::spec_from_token(tc, false) is Some);
}

} // verus!
