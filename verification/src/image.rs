//! The values of the `border-image-*` longhands: source, slice, width,
//! outset and repeat, with their initial values.

use vstd::prelude::*;
use crate::parser::{Parser, spec_expect_ident};
use crate::rect::{Rect, spec_parse_rect, spec_rect_tokens, rect_valid, lemma_rect_roundtrip};
use crate::text::{chars_of, copy_chars, matches_keyword, ci_eq};
use crate::token::{Token, TokenView, ParseError, ParseErrorKind, token_views, value_error};
use crate::values::{
    BorderImageRepeatKeyword, BorderImageSideWidth, Component, LengthOrNumber, NumberOrPercentage,
    spec_component_at, parse_component, push_token,
};

verus! {

/// `border-image-source`: no image, or the image at a URL.
pub enum BorderImageSource {
    /// The `none` keyword.
    NoImage,
    Url(Vec<char>),
}

/// The mathematical form of a [`BorderImageSource`].
pub enum BorderImageSourceView {
    NoImage,
    Url(Seq<char>),
}

impl View for BorderImageSource {
    type V = BorderImageSourceView;

    open spec fn view(&self) -> BorderImageSourceView {
        match self {
            BorderImageSource::NoImage => BorderImageSourceView::NoImage,
            BorderImageSource::Url(s) => BorderImageSourceView::Url(s@),
        }
    }
}

impl BorderImageSource {
    /// A copy of the source.
    pub fn copy(&self) -> (r: BorderImageSource)
        ensures
            r@ == self@,
    {
        match self {
            BorderImageSource::NoImage => BorderImageSource::NoImage,
            BorderImageSource::Url(s) => BorderImageSource::Url(copy_chars(s)),
        }
    }
}

/// The source that one token gives: `none` or a URL.
pub open spec fn spec_source_from_token(t: TokenView) -> Option<BorderImageSourceView> {
    match t {
        TokenView::Ident(s) => if ci_eq(s, "none"@) { Some(BorderImageSourceView::NoImage) } else { None },
        TokenView::Url(s) => Some(BorderImageSourceView::Url(s)),
        _ => None,
    }
}

/// The source at `pos` and the position after it, or the error.
pub open spec fn spec_parse_source(toks: Seq<TokenView>, pos: int) -> Result<(BorderImageSourceView, int), ParseError> {
    if 0 <= pos < toks.len() && spec_source_from_token(toks[pos]) is Some {
        Ok((spec_source_from_token(toks[pos])->0, pos + 1))
    } else {
        Err(value_error(toks, pos))
    }
}

/// Reads `border-image-source`. On failure nothing is consumed.
pub fn parse_source(input: &mut Parser) -> (res: Result<BorderImageSource, ParseError>)
    requires
        old(input).wf(),
    ensures
        final(input).wf(),
        final(input).toks() == old(input).toks(),
        match spec_parse_source(old(input).toks(), old(input).pos()) {
            Ok((v, p)) => res matches Ok(r) && r@ == v && final(input).pos() == p,
            Err(e) => res == Err::<BorderImageSource, ParseError>(e) && final(input).pos() == old(input).pos(),
        },
{
    let r = match input.peek() {
        Some(Token::Ident(s)) => if matches_keyword(s, "none") { Some(BorderImageSource::NoImage) } else { None },
        Some(Token::Url(s)) => Some(BorderImageSource::Url(copy_chars(s))),
        _ => None,
    };
    match r {
        Some(v) => {
            input.advance();
            Ok(v)
        },
        None => {
            let pos = input.position();
            let n = input.len();
            Err(ParseError {
                kind: if pos < n { ParseErrorKind::UnexpectedToken } else { ParseErrorKind::EndOfInput },
                position: pos,
            })
        },
    }
}

/// The token a source is written as.
pub open spec fn spec_source_to_token(v: BorderImageSourceView) -> TokenView {
    match v {
        BorderImageSourceView::NoImage => TokenView::Ident("none"@),
        BorderImageSourceView::Url(s) => TokenView::Url(s),
    }
}

impl BorderImageSource {
    /// Writes the source.
    pub fn to_css(&self, dest: &mut Vec<Token>)
        ensures
            token_views(final(dest)@) == token_views(old(dest)@).push(spec_source_to_token(self@)),
    {
        match self {
            BorderImageSource::NoImage => push_token(dest, Token::Ident(chars_of("none"))),
            BorderImageSource::Url(s) => push_token(dest, Token::Url(copy_chars(s))),
        }
    }
}

/// `border-image-slice`: the inward offsets of the four sides, and whether
/// the middle of the image is kept.
#[derive(Clone, Copy, Debug)]
pub struct BorderImageSlice {
    pub offsets: Rect<NumberOrPercentage>,
    pub fill: bool,
}

/// A slice written as offsets then `fill`, or `fill` then offsets, reads
/// as itself; `fill` is taken at most once. The slice and the position
/// after it, or the error of the missing offsets.
pub open spec fn spec_parse_slice(toks: Seq<TokenView>, pos: int) -> Result<(BorderImageSlice, int), ParseError> {
    let fill_first = spec_expect_ident(toks, pos, "fill"@) is Ok;
    let p1 = if fill_first { pos + 1 } else { pos };
    match spec_parse_rect::<NumberOrPercentage>(toks, p1, false) {
        Err(e) => Err(e),
        Ok((r, p2)) => if fill_first {
            Ok((BorderImageSlice { offsets: r, fill: true }, p2))
        } else if spec_expect_ident(toks, p2, "fill"@) is Ok {
            Ok((BorderImageSlice { offsets: r, fill: true }, p2 + 1))
        } else {
            Ok((BorderImageSlice { offsets: r, fill: false }, p2))
        },
    }
}

/// Reads `border-image-slice`; see [`spec_parse_slice`]. On failure
/// nothing is consumed.
pub fn parse_slice(input: &mut Parser) -> (res: Result<BorderImageSlice, ParseError>)
    requires
        old(input).wf(),
    ensures
        final(input).wf(),
        final(input).toks() == old(input).toks(),
        match spec_parse_slice(old(input).toks(), old(input).pos()) {
            Ok((v, p)) => res == Ok::<BorderImageSlice, ParseError>(v) && final(input).pos() == p,
            Err(e) => res == Err::<BorderImageSlice, ParseError>(e) && final(input).pos() == old(input).pos(),
        },
{
    let start = input.position();
    let fill_first = input.expect_ident_matching("fill").is_ok();
    let offsets = match Rect::<NumberOrPercentage>::parse_with(input, false) {
        Ok(r) => r,
        Err(e) => {
            input.reset(start);
            return Err(e);
        },
    };
    let fill = if fill_first { true } else { input.expect_ident_matching("fill").is_ok() };
    Ok(BorderImageSlice { offsets, fill })
}

/// The tokens a slice is written as: the offsets, then `fill` if set.
pub open spec fn spec_slice_tokens(v: BorderImageSlice) -> Seq<TokenView> {
    spec_rect_tokens(v.offsets) + if v.fill { seq![TokenView::Ident("fill"@)] } else { Seq::<TokenView>::empty() }
}

impl BorderImageSlice {
    /// Writes the slice.
    pub fn to_css(&self, dest: &mut Vec<Token>)
        ensures
            token_views(final(dest)@) == token_views(old(dest)@) + spec_slice_tokens(*self),
    {
        let ghost start = token_views(dest@);
        self.offsets.to_css(dest);
        if self.fill {
            push_token(dest, Token::Ident(chars_of("fill")));
        }
        assert(token_views(dest@) =~= start + spec_slice_tokens(*self));
    }
}

/// `border-image-repeat`: how the horizontal and the vertical sides are
/// filled.
#[derive(PartialEq, Eq, Structural, Clone, Copy, Debug)]
pub struct BorderImageRepeat(pub BorderImageRepeatKeyword, pub BorderImageRepeatKeyword);

/// One or two keywords; one stands for both directions. The value and the
/// position after it, or the error of a missing first keyword.
pub open spec fn spec_parse_repeat(toks: Seq<TokenView>, pos: int) -> Result<(BorderImageRepeat, int), ParseError> {
    match spec_component_at::<BorderImageRepeatKeyword>(toks, pos, false) {
        None => Err(value_error(toks, pos)),
        Some(h) => match spec_component_at::<BorderImageRepeatKeyword>(toks, pos + 1, false) {
            Some(v) => Ok((BorderImageRepeat(h, v), pos + 2)),
            None => Ok((BorderImageRepeat(h, h), pos + 1)),
        },
    }
}

/// Reads `border-image-repeat`; see [`spec_parse_repeat`]. On failure
/// nothing is consumed.
pub fn parse_repeat(input: &mut Parser) -> (res: Result<BorderImageRepeat, ParseError>)
    requires
        old(input).wf(),
    ensures
        final(input).wf(),
        final(input).toks() == old(input).toks(),
        match spec_parse_repeat(old(input).toks(), old(input).pos()) {
            Ok((v, p)) => res == Ok::<BorderImageRepeat, ParseError>(v) && final(input).pos() == p,
            Err(e) => res == Err::<BorderImageRepeat, ParseError>(e) && final(input).pos() == old(input).pos(),
        },
{
    let horizontal: BorderImageRepeatKeyword = parse_component(input, false)?;
    let vertical = match parse_component::<BorderImageRepeatKeyword>(input, false) {
        Ok(v) => v,
        Err(_) => horizontal,
    };
    Ok(BorderImageRepeat(horizontal, vertical))
}

/// The tokens a repeat is written as: the horizontal keyword, then the
/// vertical one where it differs.
pub open spec fn spec_repeat_tokens(v: BorderImageRepeat) -> Seq<TokenView> {
    if v.0 == v.1 {
        seq![v.0.spec_to_token()]
    } else {
        seq![v.0.spec_to_token(), v.1.spec_to_token()]
    }
}

impl BorderImageRepeat {
    /// Writes the repeat.
    pub fn to_css(&self, dest: &mut Vec<Token>)
        ensures
            token_views(final(dest)@) == token_views(old(dest)@) + spec_repeat_tokens(*self),
    {
        let ghost start = token_views(dest@);
        push_token(dest, self.0.to_token());
        if self.0 != self.1 {
            push_token(dest, self.1.to_token());
        }
        assert(token_views(dest@) =~= start + spec_repeat_tokens(*self));
    }
}

/// The initial `border-image-outset`: 0 on every side.
pub open spec fn initial_outset() -> Rect<LengthOrNumber> {
    Rect(LengthOrNumber::Number(0), LengthOrNumber::Number(0), LengthOrNumber::Number(0), LengthOrNumber::Number(0))
}

/// The initial `border-image-repeat`: `stretch`.
pub open spec fn initial_repeat() -> BorderImageRepeat {
    BorderImageRepeat(BorderImageRepeatKeyword::Stretch, BorderImageRepeatKeyword::Stretch)
}

/// The initial `border-image-slice`: 100% on every side, without `fill`.
pub open spec fn initial_slice() -> BorderImageSlice {
    BorderImageSlice {
        offsets: Rect(
            NumberOrPercentage::Percentage(100000),
            NumberOrPercentage::Percentage(100000),
            NumberOrPercentage::Percentage(100000),
            NumberOrPercentage::Percentage(100000),
        ),
        fill: false,
    }
}

/// The initial `border-image-width`: 1 on every side.
pub open spec fn initial_width() -> Rect<BorderImageSideWidth> {
    Rect(
        BorderImageSideWidth::Number(1000),
        BorderImageSideWidth::Number(1000),
        BorderImageSideWidth::Number(1000),
        BorderImageSideWidth::Number(1000),
    )
}

/// The initial `border-image-outset`.
pub fn initial_outset_value() -> (r: Rect<LengthOrNumber>)
    ensures
        r == initial_outset(),
{
    Rect(LengthOrNumber::Number(0), LengthOrNumber::Number(0), LengthOrNumber::Number(0), LengthOrNumber::Number(0))
}

/// The initial `border-image-repeat`.
pub fn initial_repeat_value() -> (r: BorderImageRepeat)
    ensures
        r == initial_repeat(),
{
    BorderImageRepeat(BorderImageRepeatKeyword::Stretch, BorderImageRepeatKeyword::Stretch)
}

/// The initial `border-image-slice`.
pub fn initial_slice_value() -> (r: BorderImageSlice)
    ensures
        r == initial_slice(),
{
    BorderImageSlice {
        offsets: Rect(
            NumberOrPercentage::Percentage(100000),
            NumberOrPercentage::Percentage(100000),
            NumberOrPercentage::Percentage(100000),
            NumberOrPercentage::Percentage(100000),
        ),
        fill: false,
    }
}

/// The initial `border-image-width`.
pub fn initial_width_value() -> (r: Rect<BorderImageSideWidth>)
    ensures
        r == initial_width(),
{
    Rect(
        BorderImageSideWidth::Number(1000),
        BorderImageSideWidth::Number(1000),
        BorderImageSideWidth::Number(1000),
        BorderImageSideWidth::Number(1000),
    )
}

/// A slice written out reads back as itself, wherever it stands, when the
/// token after it is neither an offset nor (without `fill`) the `fill`
/// keyword.
pub proof fn lemma_slice_roundtrip(v: BorderImageSlice, toks: Seq<TokenView>, pos: int)
    requires
        rect_valid(v.offsets),
        0 <= pos,
        pos + spec_slice_tokens(v).len() <= toks.len(),
        toks.subrange(pos, pos + spec_slice_tokens(v).len()) == spec_slice_tokens(v),
        spec_component_at::<NumberOrPercentage>(toks, pos + spec_slice_tokens(v).len(), false) is None,
        !v.fill ==> spec_expect_ident(toks, pos + spec_slice_tokens(v).len(), "fill"@) is Err,
    ensures
        spec_parse_slice(toks, pos) == Ok::<(BorderImageSlice, int), ParseError>((v, pos + spec_slice_tokens(v).len())),
{
    let s = spec_slice_tokens(v);
    let r = spec_rect_tokens(v.offsets);
    assert(toks[pos] == s[0]);
    NumberOrPercentage::lemma_roundtrip(v.offsets.0, false);
    assert(toks.subrange(pos, pos + r.len()) =~= r);
    if v.fill {
        assert(s[r.len() as int] == TokenView::Ident("fill"@));
        assert(toks.subrange(pos, pos + s.len())[r.len() as int] == toks[pos + r.len()]);
        assert(spec_component_at::<NumberOrPercentage>(toks, pos + r.len(), false) is None);
    }
    lemma_rect_roundtrip(v.offsets, toks, pos, false);
}

/// A repeat written out reads back as itself, wherever it stands, when a
/// single keyword is not followed by another one.
pub proof fn lemma_repeat_roundtrip(v: BorderImageRepeat, toks: Seq<TokenView>, pos: int)
    requires
        0 <= pos,
        pos + spec_repeat_tokens(v).len() <= toks.len(),
        toks.subrange(pos, pos + spec_repeat_tokens(v).len()) == spec_repeat_tokens(v),
        spec_repeat_tokens(v).len() == 1 ==> spec_component_at::<BorderImageRepeatKeyword>(toks, pos + 1, false) is None,
    ensures
        spec_parse_repeat(toks, pos) == Ok::<(BorderImageRepeat, int), ParseError>((v, pos + spec_repeat_tokens(v).len())),
{
    let s = spec_repeat_tokens(v);
    assert(toks[pos] == s[0]);
    BorderImageRepeatKeyword::lemma_roundtrip(v.0, false);
    BorderImageRepeatKeyword::lemma_roundtrip(v.1, false);
    if s.len() == 2 {
        assert(toks[pos + 1] == s[1]);
    }
}

} // verus!
