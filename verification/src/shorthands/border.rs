//! `border`: the same width, style and color on all four sides; it also
//! resets `border-image` to its initial value.

use vstd::prelude::*;
use crate::color::Color;
use crate::image::{
    BorderImageRepeat, BorderImageSlice, BorderImageSource, BorderImageSourceView, initial_outset, initial_outset_value,
    initial_repeat, initial_repeat_value, initial_slice, initial_slice_value, initial_width, initial_width_value,
};
use crate::parser::{Parser, ParserContext};
use crate::rect::Rect;
use crate::token::{Token, TokenView, ParseError, token_views};
use crate::values::{
    BorderImageRepeatKeyword, BorderImageSideWidth, BorderSideWidth, BorderStyle, Component, LengthOrNumber,
    NumberOrPercentage,
};
use super::{parse_border, spec_parse_border, serialize_directional_border, spec_directional_border_tokens};
use super::border_side;

verus! {

/// The longhands that `border` sets.
pub struct Longhands {
    pub border_top_color: Color,
    pub border_top_style: BorderStyle,
    pub border_top_width: BorderSideWidth,
    pub border_right_color: Color,
    pub border_right_style: BorderStyle,
    pub border_right_width: BorderSideWidth,
    pub border_bottom_color: Color,
    pub border_bottom_style: BorderStyle,
    pub border_bottom_width: BorderSideWidth,
    pub border_left_color: Color,
    pub border_left_style: BorderStyle,
    pub border_left_width: BorderSideWidth,
    pub border_image_outset: Rect<LengthOrNumber>,
    pub border_image_repeat: BorderImageRepeat,
    pub border_image_slice: BorderImageSlice,
    pub border_image_source: BorderImageSource,
    pub border_image_width: Rect<BorderImageSideWidth>,
}

/// The mathematical form of [`Longhands`].
pub struct LonghandsView {
    pub border_top_color: Color,
    pub border_top_style: BorderStyle,
    pub border_top_width: BorderSideWidth,
    pub border_right_color: Color,
    pub border_right_style: BorderStyle,
    pub border_right_width: BorderSideWidth,
    pub border_bottom_color: Color,
    pub border_bottom_style: BorderStyle,
    pub border_bottom_width: BorderSideWidth,
    pub border_left_color: Color,
    pub border_left_style: BorderStyle,
    pub border_left_width: BorderSideWidth,
    pub border_image_outset: Rect<LengthOrNumber>,
    pub border_image_repeat: BorderImageRepeat,
    pub border_image_slice: BorderImageSlice,
    pub border_image_source: BorderImageSourceView,
    pub border_image_width: Rect<BorderImageSideWidth>,
}

impl View for Longhands {
    type V = LonghandsView;

    open spec fn view(&self) -> LonghandsView {
        LonghandsView {
            border_top_color: self.border_top_color,
            border_top_style: self.border_top_style,
            border_top_width: self.border_top_width,
            border_right_color: self.border_right_color,
            border_right_style: self.border_right_style,
            border_right_width: self.border_right_width,
            border_bottom_color: self.border_bottom_color,
            border_bottom_style: self.border_bottom_style,
            border_bottom_width: self.border_bottom_width,
            border_left_color: self.border_left_color,
            border_left_style: self.border_left_style,
            border_left_width: self.border_left_width,
            border_image_outset: self.border_image_outset,
            border_image_repeat: self.border_image_repeat,
            border_image_slice: self.border_image_slice,
            border_image_source: self.border_image_source@,
            border_image_width: self.border_image_width,
        }
    }
}

/// All four sides set to the same border, and `border-image` at its
/// initial value.
pub open spec fn spec_longhands_of(c: Color, s: BorderStyle, w: BorderSideWidth) -> LonghandsView {
    LonghandsView {
        border_top_color: c,
        border_top_style: s,
        border_top_width: w,
        border_right_color: c,
        border_right_style: s,
        border_right_width: w,
        border_bottom_color: c,
        border_bottom_style: s,
        border_bottom_width: w,
        border_left_color: c,
        border_left_style: s,
        border_left_width: w,
        border_image_outset: initial_outset(),
        border_image_repeat: initial_repeat(),
        border_image_slice: initial_slice(),
        border_image_source: BorderImageSourceView::NoImage,
        border_image_width: initial_width(),
    }
}

/// The longhands of a border value (see [`spec_parse_border`]) given to all
/// four sides, with `border-image` reset.
pub open spec fn spec_parse_value(toks: Seq<TokenView>, pos: int) -> Result<(LonghandsView, int), ParseError> {
    match spec_parse_border(toks, pos) {
        Ok(((c, s, w), p)) => Ok((spec_longhands_of(c, s, w), p)),
        Err(e) => Err(e),
    }
}

/// Reads `border`. On failure nothing is consumed.
pub fn parse_value(context: &ParserContext, input: &mut Parser) -> (res: Result<Longhands, ParseError>)
    requires
        old(input).wf(),
    ensures
        final(input).wf(),
        final(input).toks() == old(input).toks(),
        match spec_parse_value(old(input).toks(), old(input).pos()) {
            Ok((v, p)) => res matches Ok(r) && r@ == v && final(input).pos() == p,
            Err(e) => res matches Err(r) && r == e && final(input).pos() == old(input).pos(),
        },
{
    let (color, style, width) = parse_border(context, input)?;
    Ok(Longhands {
        border_top_color: color,
        border_top_style: style,
        border_top_width: width,
        border_right_color: color,
        border_right_style: style,
        border_right_width: width,
        border_bottom_color: color,
        border_bottom_style: style,
        border_bottom_width: width,
        border_left_color: color,
        border_left_style: style,
        border_left_width: width,
        border_image_outset: initial_outset_value(),
        border_image_repeat: initial_repeat_value(),
        border_image_slice: initial_slice_value(),
        border_image_source: BorderImageSource::NoImage,
        border_image_width: initial_width_value(),
    })
}

/// The four sides have the same width, style and color.
pub open spec fn all_equal(v: LonghandsView) -> bool {
    &&& v.border_top_width == v.border_right_width
    &&& v.border_right_width == v.border_bottom_width
    &&& v.border_bottom_width == v.border_left_width
    &&& v.border_top_style == v.border_right_style
    &&& v.border_right_style == v.border_bottom_style
    &&& v.border_bottom_style == v.border_left_style
    &&& v.border_top_color == v.border_right_color
    &&& v.border_right_color == v.border_bottom_color
    &&& v.border_bottom_color == v.border_left_color
}

/// `border-image` is at its initial value, as `border` resets it.
pub open spec fn image_initial(v: LonghandsView) -> bool {
    &&& v.border_image_outset == initial_outset()
    &&& v.border_image_repeat == initial_repeat()
    &&& v.border_image_slice == initial_slice()
    &&& v.border_image_source == BorderImageSourceView::NoImage
    &&& v.border_image_width == initial_width()
}

/// What `border` is written as: the common side where the four sides are
/// the same and `border-image` is at its initial value (any `border` value
/// resets it), nothing otherwise.
pub open spec fn spec_to_css_tokens(v: LonghandsView) -> Seq<TokenView> {
    if all_equal(v) && image_initial(v) {
        spec_directional_border_tokens(v.border_left_width, v.border_left_style, v.border_left_color)
    } else {
        Seq::<TokenView>::empty()
    }
}

impl Longhands {
    /// Whether `border-image` is at its initial value.
    pub fn is_image_initial(&self) -> (b: bool)
        ensures
            b == image_initial(self@),
    {
        let o = &self.border_image_outset;
        let outset = o.0 == LengthOrNumber::Number(0) && o.1 == LengthOrNumber::Number(0)
            && o.2 == LengthOrNumber::Number(0) && o.3 == LengthOrNumber::Number(0);
        let repeat = self.border_image_repeat == BorderImageRepeat(
            BorderImageRepeatKeyword::Stretch,
            BorderImageRepeatKeyword::Stretch,
        );
        let so = &self.border_image_slice.offsets;
        let slice = !self.border_image_slice.fill && so.0 == NumberOrPercentage::Percentage(100000)
            && so.1 == NumberOrPercentage::Percentage(100000) && so.2 == NumberOrPercentage::Percentage(100000)
            && so.3 == NumberOrPercentage::Percentage(100000);
        let source = match self.border_image_source {
            BorderImageSource::NoImage => true,
            BorderImageSource::Url(_) => false,
        };
        let w = &self.border_image_width;
        let width = w.0 == BorderImageSideWidth::Number(1000) && w.1 == BorderImageSideWidth::Number(1000)
            && w.2 == BorderImageSideWidth::Number(1000) && w.3 == BorderImageSideWidth::Number(1000);
        outset && repeat && slice && source && width
    }

    /// Writes `border`; see [`spec_to_css_tokens`].
    pub fn to_css(&self, dest: &mut Vec<Token>)
        ensures
            token_views(final(dest)@) == token_views(old(dest)@) + spec_to_css_tokens(self@),
    {
        let all_equal = self.border_top_width == self.border_right_width
            && self.border_right_width == self.border_bottom_width
            && self.border_bottom_width == self.border_left_width
            && self.border_top_style == self.border_right_style
            && self.border_right_style == self.border_bottom_style
            && self.border_bottom_style == self.border_left_style
            && self.border_top_color == self.border_right_color
            && self.border_right_color == self.border_bottom_color
            && self.border_bottom_color == self.border_left_color;
        if all_equal && self.is_image_initial() {
            serialize_directional_border(dest, &self.border_left_width, &self.border_left_style, &self.border_left_color)
        } else {
            assert(token_views(dest@) =~= token_views(old(dest)@) + spec_to_css_tokens(self@));
        }
    }
}

/// What `border` reads always has four equal sides and `border-image` at
/// its initial value, so it is written back in full.
pub proof fn lemma_parsed_sides_equal(toks: Seq<TokenView>, pos: int)
    ensures
        spec_parse_value(toks, pos) matches Ok((v, _)) ==> all_equal(v) && v.border_image_outset == initial_outset()
            && v.border_image_repeat == initial_repeat() && v.border_image_slice == initial_slice()
            && v.border_image_source == BorderImageSourceView::NoImage && v.border_image_width == initial_width()
            && spec_to_css_tokens(v) == spec_directional_border_tokens(v.border_left_width, v.border_left_style, v.border_left_color),
{
}

/// Four equal sides with `border-image` at its initial value, written out,
/// read back as the same longhands, where the width is valid.
pub proof fn lemma_roundtrip(v: LonghandsView)
    requires
        all_equal(v),
        v.border_image_outset == initial_outset(),
        v.border_image_repeat == initial_repeat(),
        v.border_image_slice == initial_slice(),
        v.border_image_source == BorderImageSourceView::NoImage,
        v.border_image_width == initial_width(),
        v.border_left_width.spec_valid(),
    ensures
        spec_parse_value(spec_to_css_tokens(v), 0) == Ok::<(LonghandsView, int), ParseError>((v, spec_to_css_tokens(v).len() as int)),
{
    let side = border_side::Longhands {
        color: v.border_left_color,
        style: v.border_left_style,
        width: v.border_left_width,
    };
    border_side::lemma_roundtrip(side);
    assert(spec_longhands_of(v.border_left_color, v.border_left_style, v.border_left_width) == v);
}

/// `border` accepts exactly the values that a one-side border shorthand
/// (such as `border-left`) accepts, reads as far, and fails with the same
/// error.
pub proof fn lemma_accepts_as_one_side(toks: Seq<TokenView>, pos: int)
    ensures
        match (spec_parse_value(toks, pos), border_side::spec_parse_value(toks, pos)) {
            (Ok((v, p)), Ok((s, q))) => p == q && v == spec_longhands_of(s.color, s.style, s.width),
            (Err(e), Err(f)) => e == f,
            _ => false,
        },
{
}

/// `border` text resets `border-image`, so longhands whose `border-image`
/// is not at its initial value are not written as `border` at all.
pub proof fn lemma_image_not_initial_writes_nothing(v: LonghandsView)
    requires
        !image_initial(v),
    ensures
        spec_to_css_tokens(v) == Seq::<TokenView>::empty(),
{
}

} // verus!
