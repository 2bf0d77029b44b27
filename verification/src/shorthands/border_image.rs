//! `border-image`: `<source> || <slice> [ / <width>? [ / <outset> ]? ]? ||
//! <repeat>`, the parts in any order, each at most once; the parts left out
//! take their initial values.

use vstd::prelude::*;
use crate::image::{
    BorderImageRepeat, BorderImageSlice, BorderImageSource, BorderImageSourceView, initial_outset,
    initial_outset_value, initial_repeat, initial_repeat_value, initial_slice, initial_slice_value, initial_width,
    initial_width_value, parse_repeat, parse_slice, parse_source, spec_parse_repeat, spec_parse_slice,
    spec_parse_source, spec_repeat_tokens, spec_slice_tokens, spec_source_to_token, lemma_slice_roundtrip,
    lemma_repeat_roundtrip,
};
use crate::keywords::{lemma_line_keywords, lemma_image_keywords};
use crate::parser::{Parser, ParserContext, spec_expect_delim, spec_expect_ident};
use crate::rect::{Rect, spec_parse_rect, spec_rect_tokens, rect_valid, lemma_rect_roundtrip, lemma_rect_parsed_valid};
use crate::token::{Token, TokenView, ParseError, ParseErrorKind, token_views};
use crate::values::{
    BorderImageRepeatKeyword, BorderImageSideWidth, Component, LengthOrNumber, NumberOrPercentage, spec_component_at,
    push_token,
};

verus! {

/// The longhands that `border-image` sets.
pub struct Longhands {
    pub border_image_outset: Rect<LengthOrNumber>,
    pub border_image_repeat: BorderImageRepeat,
    pub border_image_slice: BorderImageSlice,
    pub border_image_source: BorderImageSource,
    pub border_image_width: Rect<BorderImageSideWidth>,
}

/// The mathematical form of [`Longhands`].
pub struct LonghandsView {
    pub border_image_outset: Rect<LengthOrNumber>,
    pub border_image_repeat: BorderImageRepeat,
    pub border_image_slice: BorderImageSlice,
    pub border_image_source: BorderImageSourceView,
    pub border_image_width: Rect<BorderImageSideWidth>,
}

impl View for Longhands {
    type V = LonghandsView;

    open spec fn view(&self) -> LonghandsView {
        LonghandsView {
            border_image_outset: self.border_image_outset,
            border_image_repeat: self.border_image_repeat,
            border_image_slice: self.border_image_slice,
            border_image_source: self.border_image_source@,
            border_image_width: self.border_image_width,
        }
    }
}

/// The parts of `border-image` read so far.
pub struct Parts {
    pub slice: Option<BorderImageSlice>,
    pub source: Option<BorderImageSourceView>,
    pub repeat: Option<BorderImageRepeat>,
    pub width: Option<Rect<BorderImageSideWidth>>,
    pub outset: Option<Rect<LengthOrNumber>>,
}

/// After a slice at `pos`: `/`, then a width if one follows, then `/` and
/// an outset if they follow; at least one of width and outset must be
/// there. The width, the outset and the position after them.
pub open spec fn spec_width_outset(toks: Seq<TokenView>, pos: int) -> Option<(Option<Rect<BorderImageSideWidth>>, Option<Rect<LengthOrNumber>>, int)> {
    match spec_expect_delim(toks, pos, '/') {
        Err(_) => None,
        Ok(p1) => {
            let (w, p2) = match spec_parse_rect::<BorderImageSideWidth>(toks, p1, false) {
                Ok((r, p)) => (Some(r), p),
                Err(_) => (None, p1),
            };
            let (o, p3) = match spec_expect_delim(toks, p2, '/') {
                Ok(q) => match spec_parse_rect::<LengthOrNumber>(toks, q, false) {
                    Ok((r, p)) => (Some(r), p),
                    Err(_) => (None, p2),
                },
                Err(_) => (None, p2),
            };
            if w is None && o is None {
                None
            } else {
                Some((w, o, p3))
            }
        },
    }
}

/// How many of slice, source and repeat are still to be read.
pub open spec fn parts_missing(parts: Parts) -> nat {
    (if parts.slice is None { 1nat } else { 0nat }) + (if parts.source is None { 1nat } else { 0nat })
        + (if parts.repeat is None { 1nat } else { 0nat })
}

/// Reads the parts in any order, each at most once: at each token a slice
/// (with the width and outset that may follow it) is tried first, then a
/// source, then a repeat; reading stops where none of the missing parts
/// fits. The parts and the position after them.
pub open spec fn spec_parts(toks: Seq<TokenView>, pos: int, parts: Parts) -> (Parts, int)
    decreases parts_missing(parts),
{
    if parts.slice is None && spec_parse_slice(toks, pos) is Ok {
        let (sl, p1) = spec_parse_slice(toks, pos)->Ok_0;
        match spec_width_outset(toks, p1) {
            Some((w, o, p2)) => spec_parts(toks, p2, Parts { slice: Some(sl), width: w, outset: o, ..parts }),
            None => spec_parts(toks, p1, Parts { slice: Some(sl), ..parts }),
        }
    } else if parts.source is None && spec_parse_source(toks, pos) is Ok {
        let (so, p1) = spec_parse_source(toks, pos)->Ok_0;
        spec_parts(toks, p1, Parts { source: Some(so), ..parts })
    } else if parts.repeat is None && spec_parse_repeat(toks, pos) is Ok {
        let (re, p1) = spec_parse_repeat(toks, pos)->Ok_0;
        spec_parts(toks, p1, Parts { repeat: Some(re), ..parts })
    } else {
        (parts, pos)
    }
}

/// No part read yet.
pub open spec fn no_parts() -> Parts {
    Parts { slice: None, source: None, repeat: None, width: None, outset: None }
}

/// The longhands of a `border-image` value at `pos` and the position after
/// it: the parts given, with initial values for the others; an `Invalid`
/// error at `pos` where no part is given.
pub open spec fn spec_parse_value(toks: Seq<TokenView>, pos: int) -> Result<(LonghandsView, int), ParseError> {
    let (parts, p) = spec_parts(toks, pos, no_parts());
    if parts.outset is Some || parts.repeat is Some || parts.slice is Some || parts.source is Some
        || parts.width is Some {
        Ok((
            LonghandsView {
                border_image_outset: match parts.outset { Some(v) => v, None => initial_outset() },
                border_image_repeat: match parts.repeat { Some(v) => v, None => initial_repeat() },
                border_image_slice: match parts.slice { Some(v) => v, None => initial_slice() },
                border_image_source: match parts.source { Some(v) => v, None => BorderImageSourceView::NoImage },
                border_image_width: match parts.width { Some(v) => v, None => initial_width() },
            },
            p,
        ))
    } else {
        Err(ParseError { kind: ParseErrorKind::Invalid, position: pos as usize })
    }
}

/// Reads the `/ width? [/ outset]?` that may follow a slice; see
/// [`spec_width_outset`]. Where it is not there nothing is consumed.
fn parse_width_outset(input: &mut Parser) -> (res: Option<(Option<Rect<BorderImageSideWidth>>, Option<Rect<LengthOrNumber>>)>)
    requires
        old(input).wf(),
    ensures
        final(input).wf(),
        final(input).toks() == old(input).toks(),
        match spec_width_outset(old(input).toks(), old(input).pos()) {
            Some((w, o, p)) => res == Some((w, o)) && final(input).pos() == p,
            None => res is None && final(input).pos() == old(input).pos(),
        },
{
    let start = input.position();
    if input.expect_delim('/').is_err() {
        return None;
    }
    let w = match Rect::<BorderImageSideWidth>::parse_with(input, false) {
        Ok(r) => Some(r),
        Err(_) => None,
    };
    let before_outset = input.position();
    let o = if input.expect_delim('/').is_ok() {
        match Rect::<LengthOrNumber>::parse_with(input, false) {
            Ok(r) => Some(r),
            Err(_) => {
                input.reset(before_outset);
                None
            },
        }
    } else {
        None
    };
    if w.is_none() && o.is_none() {
        input.reset(start);
        None
    } else {
        Some((w, o))
    }
}

/// The view of a source read so far.
pub open spec fn source_view(s: Option<BorderImageSource>) -> Option<BorderImageSourceView> {
    match s {
        Some(v) => Some(v@),
        None => None,
    }
}

/// Reads `border-image`; see [`spec_parse_value`]. On failure nothing is
/// consumed.
pub fn parse_value(context: &ParserContext, input: &mut Parser) -> (res: Result<Longhands, ParseError>)
    requires
        old(input).wf(),
    ensures
        final(input).wf(),
        final(input).toks() == old(input).toks(),
        match spec_parse_value(old(input).toks(), old(input).pos()) {
            Ok((v, p)) => res matches Ok(r) && r@ == v && final(input).pos() == p,
            Err(e) => res matches Err(r) && r == e && final(input).pos() == old(input).pos(),
        },
{
    let ghost toks = input.toks();
    let ghost start = input.pos();
    let mut slice: Option<BorderImageSlice> = None;
    let mut source: Option<BorderImageSource> = None;
    let mut repeat: Option<BorderImageRepeat> = None;
    let mut width: Option<Rect<BorderImageSideWidth>> = None;
    let mut outset: Option<Rect<LengthOrNumber>> = None;
    loop
        invariant
            input.wf(),
            input.toks() == toks,
            spec_parts(toks, start, no_parts()) == spec_parts(
                toks,
                input.pos(),
                Parts { slice, source: source_view(source), repeat, width, outset },
            ),
            (slice is None && source is None && repeat is None) ==> input.pos() == start,
            slice is None ==> width is None && outset is None,
        ensures
            input.wf(),
            input.toks() == toks,
            spec_parts(toks, start, no_parts()) == (
                Parts { slice, source: source_view(source), repeat, width, outset },
                input.pos(),
            ),
            (slice is None && source is None && repeat is None) ==> input.pos() == start,
            slice is None ==> width is None && outset is None,
        decreases parts_missing(Parts { slice, source: source_view(source), repeat, width, outset }),
    {
        if slice.is_none() {
            if let Ok(v) = parse_slice(input) {
                slice = Some(v);
                if let Some((w, o)) = parse_width_outset(input) {
                    width = w;
                    outset = o;
                }
                continue;
            }
        }
        if source.is_none() {
            if let Ok(v) = parse_source(input) {
                source = Some(v);
                continue;
            }
        }
        if repeat.is_none() {
            if let Ok(v) = parse_repeat(input) {
                repeat = Some(v);
                continue;
            }
        }
        break;
    }
    if outset.is_some() || repeat.is_some() || slice.is_some() || source.is_some() || width.is_some() {
        Ok(Longhands {
            border_image_outset: match outset { Some(v) => v, None => initial_outset_value() },
            border_image_repeat: match repeat { Some(v) => v, None => initial_repeat_value() },
            border_image_slice: match slice { Some(v) => v, None => initial_slice_value() },
            border_image_source: match source { Some(v) => v, None => BorderImageSource::NoImage },
            border_image_width: match width { Some(v) => v, None => initial_width_value() },
        })
    } else {
        Err(ParseError { kind: ParseErrorKind::Invalid, position: input.position() })
    }
}

/// The tokens `border-image` is written as: source, slice, `/`, width,
/// `/`, outset, repeat.
pub open spec fn spec_to_css_tokens(v: LonghandsView) -> Seq<TokenView> {
    seq![spec_source_to_token(v.border_image_source)] + spec_slice_tokens(v.border_image_slice)
        + seq![TokenView::Delim('/')] + spec_rect_tokens(v.border_image_width) + seq![TokenView::Delim('/')]
        + spec_rect_tokens(v.border_image_outset) + spec_repeat_tokens(v.border_image_repeat)
}

impl Longhands {
    /// Writes `border-image`; see [`spec_to_css_tokens`].
    pub fn to_css(&self, dest: &mut Vec<Token>)
        ensures
            token_views(final(dest)@) == token_views(old(dest)@) + spec_to_css_tokens(self@),
    {
        let ghost start = token_views(dest@);
        self.border_image_source.to_css(dest);
        self.border_image_slice.to_css(dest);
        push_token(dest, Token::Delim('/'));
        self.border_image_width.to_css(dest);
        push_token(dest, Token::Delim('/'));
        self.border_image_outset.to_css(dest);
        self.border_image_repeat.to_css(dest);
        assert(token_views(dest@) =~= start + spec_to_css_tokens(self@));
    }
}

/// Valid longhands written out read back as the same longhands.
pub proof fn lemma_roundtrip(v: LonghandsView)
    requires
        rect_valid(v.border_image_slice.offsets),
        rect_valid(v.border_image_width),
        rect_valid(v.border_image_outset),
    ensures
        spec_parse_value(spec_to_css_tokens(v), 0) == Ok::<(LonghandsView, int), ParseError>((v, spec_to_css_tokens(v).len() as int)),
{
    let t = spec_to_css_tokens(v);
    let sl = spec_slice_tokens(v.border_image_slice);
    let w = spec_rect_tokens(v.border_image_width);
    let o = spec_rect_tokens(v.border_image_outset);
    let r = spec_repeat_tokens(v.border_image_repeat);
    let a: int = 1int + sl.len();
    let b: int = a + 1;
    let c: int = b + w.len();
    let d: int = c + 1;
    let e: int = d + o.len();
    let end: int = e + r.len();
    assert(t.len() == end);
    assert(t[0] == spec_source_to_token(v.border_image_source));
    assert(t.subrange(1, a) =~= sl);
    assert(t[a] == TokenView::Delim('/'));
    assert(t.subrange(b, c) =~= w);
    assert(t[c] == TokenView::Delim('/'));
    assert(t.subrange(d, e) =~= o);
    assert(t.subrange(e, end) =~= r);
    assert(t[e] == r[0]);

    // At the start the source is read: it is not a slice.
    lemma_image_keywords();
    assert(spec_parse_slice(t, 0) is Err);
    let p1 = Parts { source: Some(v.border_image_source), ..no_parts() };
    assert(spec_parts(t, 0, no_parts()) == spec_parts(t, 1, p1));

    // Then the slice, the width and the outset.
    lemma_slice_roundtrip(v.border_image_slice, t, 1);
    lemma_rect_roundtrip(v.border_image_width, t, b, false);
    assert(spec_component_at::<LengthOrNumber>(t, e, false) is None);
    lemma_rect_roundtrip(v.border_image_outset, t, d, false);
    assert(spec_width_outset(t, a) == Some((Some(v.border_image_width), Some(v.border_image_outset), e)));
    let p2 = Parts {
        slice: Some(v.border_image_slice),
        width: Some(v.border_image_width),
        outset: Some(v.border_image_outset),
        ..p1
    };
    assert(spec_parts(t, 1, p1) == spec_parts(t, e, p2));

    // Then the repeat, and nothing is left.
    lemma_repeat_roundtrip(v.border_image_repeat, t, e);
    let p3 = Parts { repeat: Some(v.border_image_repeat), ..p2 };
    assert(spec_parts(t, e, p2) == spec_parts(t, end, p3));
    assert(spec_parts(t, end, p3) == (p3, end));
}


/// The tokens of the slice part as written: the slice, `/`, the width, `/`
/// and the outset.
pub open spec fn spec_slice_part_tokens(v: LonghandsView) -> Seq<TokenView> {
    spec_slice_tokens(v.border_image_slice) + seq![TokenView::Delim('/')] + spec_rect_tokens(v.border_image_width)
        + seq![TokenView::Delim('/')] + spec_rect_tokens(v.border_image_outset)
}

/// The parts are valid values.
pub open spec fn parts_valid(v: LonghandsView) -> bool {
    rect_valid(v.border_image_slice.offsets) && rect_valid(v.border_image_width) && rect_valid(v.border_image_outset)
}

/// Neither a slice nor a source is read from a repeat keyword, and neither
/// a slice nor a repeat keyword nor an outset is read from a source.
proof fn lemma_parts_disjoint(v: LonghandsView, t: Seq<TokenView>, pos: int)
    requires
        0 <= pos < t.len(),
    ensures
        t[pos] == spec_source_to_token(v.border_image_source) ==> spec_parse_slice(t, pos) is Err
            && spec_component_at::<BorderImageRepeatKeyword>(t, pos, false) is None
            && spec_component_at::<LengthOrNumber>(t, pos, false) is None,
        t[pos] == v.border_image_repeat.0.spec_to_token() ==> spec_parse_slice(t, pos) is Err
            && spec_parse_source(t, pos) is Err
            && spec_component_at::<LengthOrNumber>(t, pos, false) is None,
{
    lemma_image_keywords();
}

/// The first tokens of the three parts differ.
proof fn lemma_parts_distinct(v: LonghandsView)
    ensures
        spec_slice_part_tokens(v)[0] == spec_slice_tokens(v.border_image_slice)[0],
        spec_slice_tokens(v.border_image_slice)[0] != spec_source_to_token(v.border_image_source),
        spec_slice_tokens(v.border_image_slice)[0] != v.border_image_repeat.0.spec_to_token(),
        spec_source_to_token(v.border_image_source) != v.border_image_repeat.0.spec_to_token(),
        spec_repeat_tokens(v.border_image_repeat)[0] == v.border_image_repeat.0.spec_to_token(),
        spec_slice_part_tokens(v) != seq![spec_source_to_token(v.border_image_source)],
        spec_slice_part_tokens(v) != spec_repeat_tokens(v.border_image_repeat),
        spec_repeat_tokens(v.border_image_repeat) != seq![spec_source_to_token(v.border_image_source)],
{
    lemma_image_keywords();
    let s = seq![spec_source_to_token(v.border_image_source)];
    let g = spec_slice_part_tokens(v);
    let r = spec_repeat_tokens(v.border_image_repeat);
    assert(g[0] != s[0]);
    assert(g[0] != r[0]);
    assert(r[0] != s[0]);
}

/// Reading a source at `pos` moves past it.
proof fn lemma_step_source(v: LonghandsView, t: Seq<TokenView>, pos: int, parts: Parts)
    requires
        0 <= pos < t.len(),
        t[pos] == spec_source_to_token(v.border_image_source),
        parts.source is None,
    ensures
        spec_parts(t, pos, parts) == spec_parts(t, pos + 1, Parts { source: Some(v.border_image_source), ..parts }),
{
    lemma_parts_disjoint(v, t, pos);
}

/// Reading the slice part at `pos` moves past it.
proof fn lemma_step_slice(v: LonghandsView, t: Seq<TokenView>, pos: int, parts: Parts)
    requires
        parts_valid(v),
        parts.slice is None,
        0 <= pos,
        pos + spec_slice_part_tokens(v).len() <= t.len(),
        t.subrange(pos, pos + spec_slice_part_tokens(v).len()) == spec_slice_part_tokens(v),
        spec_component_at::<LengthOrNumber>(t, pos + spec_slice_part_tokens(v).len(), false) is None,
    ensures
        spec_parts(t, pos, parts) == spec_parts(
            t,
            pos + spec_slice_part_tokens(v).len(),
            Parts {
                slice: Some(v.border_image_slice),
                width: Some(v.border_image_width),
                outset: Some(v.border_image_outset),
                ..parts
            },
        ),
{
    let g = spec_slice_part_tokens(v);
    let sl = spec_slice_tokens(v.border_image_slice);
    let w = spec_rect_tokens(v.border_image_width);
    let o = spec_rect_tokens(v.border_image_outset);
    let a: int = pos + sl.len();
    let b: int = a + 1;
    let c: int = b + w.len();
    let d: int = c + 1;
    let e: int = d + o.len();
    assert(g.len() == sl.len() + 1 + w.len() + 1 + o.len());
    assert(t.subrange(pos, a) =~= sl) by {
        assert(t.subrange(pos, a) =~= t.subrange(pos, pos + g.len()).subrange(0, sl.len() as int));
    }
    assert(t[a] == TokenView::Delim('/')) by {
        assert(t.subrange(pos, pos + g.len())[sl.len() as int] == t[a]);
    }
    assert(t.subrange(b, c) =~= w) by {
        assert(t.subrange(b, c) =~= t.subrange(pos, pos + g.len()).subrange(sl.len() + 1int, sl.len() + 1int + w.len()));
    }
    assert(t[c] == TokenView::Delim('/')) by {
        assert(t.subrange(pos, pos + g.len())[sl.len() + 1int + w.len()] == t[c]);
    }
    assert(t.subrange(d, e) =~= o) by {
        assert(t.subrange(d, e) =~= t.subrange(pos, pos + g.len()).subrange(sl.len() + 2int + w.len(), g.len() as int));
    }
    lemma_slice_roundtrip(v.border_image_slice, t, pos);
    lemma_rect_roundtrip(v.border_image_width, t, b, false);
    lemma_rect_roundtrip(v.border_image_outset, t, d, false);
    assert(spec_width_outset(t, a) == Some((Some(v.border_image_width), Some(v.border_image_outset), e)));
}

/// Reading the repeat at `pos` moves past it.
proof fn lemma_step_repeat(v: LonghandsView, t: Seq<TokenView>, pos: int, parts: Parts)
    requires
        parts.repeat is None,
        0 <= pos,
        pos + spec_repeat_tokens(v.border_image_repeat).len() <= t.len(),
        t.subrange(pos, pos + spec_repeat_tokens(v.border_image_repeat).len()) == spec_repeat_tokens(v.border_image_repeat),
        spec_repeat_tokens(v.border_image_repeat).len() == 1
            ==> spec_component_at::<BorderImageRepeatKeyword>(t, pos + 1, false) is None,
    ensures
        spec_parts(t, pos, parts) == spec_parts(
            t,
            pos + spec_repeat_tokens(v.border_image_repeat).len(),
            Parts { repeat: Some(v.border_image_repeat), ..parts },
        ),
{
    let r = spec_repeat_tokens(v.border_image_repeat);
    assert(t[pos] == r[0]) by {
        assert(t.subrange(pos, pos + r.len())[0] == t[pos]);
    }
    lemma_parts_disjoint(v, t, pos);
    lemma_repeat_roundtrip(v.border_image_repeat, t, pos);
}

/// The parts of `border-image` may come in any order: the source, the slice
/// part (slice, width and outset) and the repeat of valid longhands, put in
/// any of the six orders, read back as the same longhands.
pub proof fn lemma_any_order(v: LonghandsView)
    requires
        parts_valid(v),
    ensures
        forall|x: Seq<TokenView>, y: Seq<TokenView>, z: Seq<TokenView>|
            is_order_of_parts(v, x, y, z) ==> spec_parse_value(#[trigger] (x + y + z), 0)
                == Ok::<(LonghandsView, int), ParseError>((v, (x + y + z).len() as int)),
{
    assert forall|x: Seq<TokenView>, y: Seq<TokenView>, z: Seq<TokenView>|
        is_order_of_parts(v, x, y, z) implies spec_parse_value(#[trigger] (x + y + z), 0)
            == Ok::<(LonghandsView, int), ParseError>((v, (x + y + z).len() as int)) by {
        lemma_order(v, x, y, z);
    }
}

/// `x`, `y`, `z` are the source, slice part and repeat tokens in some order.
pub open spec fn is_order_of_parts(v: LonghandsView, x: Seq<TokenView>, y: Seq<TokenView>, z: Seq<TokenView>) -> bool {
    let s = seq![spec_source_to_token(v.border_image_source)];
    let g = spec_slice_part_tokens(v);
    let r = spec_repeat_tokens(v.border_image_repeat);
    ||| (x == s && y == g && z == r)
    ||| (x == s && y == r && z == g)
    ||| (x == g && y == s && z == r)
    ||| (x == g && y == r && z == s)
    ||| (x == r && y == s && z == g)
    ||| (x == r && y == g && z == s)
}

/// One order of the parts reads back.
#[verifier::spinoff_prover]
#[verifier::rlimit(40)]
proof fn lemma_order(v: LonghandsView, x: Seq<TokenView>, y: Seq<TokenView>, z: Seq<TokenView>)
    requires
        parts_valid(v),
        is_order_of_parts(v, x, y, z),
    ensures
        spec_parse_value(x + y + z, 0) == Ok::<(LonghandsView, int), ParseError>((v, (x + y + z).len() as int)),
{
    let s = seq![spec_source_to_token(v.border_image_source)];
    let g = spec_slice_part_tokens(v);
    let r = spec_repeat_tokens(v.border_image_repeat);
    let t = x + y + z;
    let i: int = x.len() as int;
    let j: int = i + y.len();
    let n: int = t.len() as int;
    assert(t.subrange(0, i) =~= x);
    assert(t.subrange(i, j) =~= y);
    assert(t.subrange(j, n) =~= z);
    assert(g[0] == spec_slice_tokens(v.border_image_slice)[0]);
    assert(r[0] == v.border_image_repeat.0.spec_to_token());
    lemma_parts_distinct(v);
    assert(i < n ==> t[i] == y[0]);
    assert(j < n ==> t[j] == z[0]);
    let all = Parts {
        slice: Some(v.border_image_slice),
        source: Some(v.border_image_source),
        repeat: Some(v.border_image_repeat),
        width: Some(v.border_image_width),
        outset: Some(v.border_image_outset),
    };
    lemma_order_steps(v, t, x, 0, no_parts());
    let p1 = after_part(v, x, no_parts());
    lemma_order_steps(v, t, y, i, p1);
    let p2 = after_part(v, y, p1);
    lemma_order_steps(v, t, z, j, p2);
    let p3 = after_part(v, z, p2);
    assert(p3 == all);
    assert(spec_parts(t, n, all) == (all, n));
}

/// The parts read after the tokens `x` of one part.
pub open spec fn after_part(v: LonghandsView, x: Seq<TokenView>, parts: Parts) -> Parts {
    if x == seq![spec_source_to_token(v.border_image_source)] {
        Parts { source: Some(v.border_image_source), ..parts }
    } else if x == spec_slice_part_tokens(v) {
        Parts {
            slice: Some(v.border_image_slice),
            width: Some(v.border_image_width),
            outset: Some(v.border_image_outset),
            ..parts
        }
    } else {
        Parts { repeat: Some(v.border_image_repeat), ..parts }
    }
}

/// Reading one part `x` at `pos` moves past it, when that part is not read
/// yet and the token after it belongs to another part (or there is none).
proof fn lemma_order_steps(v: LonghandsView, t: Seq<TokenView>, x: Seq<TokenView>, pos: int, parts: Parts)
    requires
        parts_valid(v),
        0 <= pos,
        pos + x.len() <= t.len(),
        t.subrange(pos, pos + x.len()) == x,
        x == seq![spec_source_to_token(v.border_image_source)] ==> parts.source is None,
        x == spec_slice_part_tokens(v) ==> parts.slice is None,
        x == spec_repeat_tokens(v.border_image_repeat) ==> parts.repeat is None,
        x == seq![spec_source_to_token(v.border_image_source)] || x == spec_slice_part_tokens(v)
            || x == spec_repeat_tokens(v.border_image_repeat),
        pos + x.len() < t.len() ==> (x != seq![spec_source_to_token(v.border_image_source)]
            && t[pos + x.len()] == spec_source_to_token(v.border_image_source))
            || (x != spec_slice_part_tokens(v) && t[pos + x.len()] == spec_slice_tokens(v.border_image_slice)[0])
            || (x != spec_repeat_tokens(v.border_image_repeat) && t[pos + x.len()] == v.border_image_repeat.0.spec_to_token()),
    ensures
        spec_parts(t, pos, parts) == spec_parts(t, pos + x.len(), after_part(v, x, parts)),
{
    let s = seq![spec_source_to_token(v.border_image_source)];
    let g = spec_slice_part_tokens(v);
    let r = spec_repeat_tokens(v.border_image_repeat);
    lemma_parts_distinct(v);
    assert(t[pos] == x[0]) by {
        assert(t.subrange(pos, pos + x.len())[0] == t[pos]);
    }
    if pos + x.len() < t.len() {
        lemma_parts_disjoint(v, t, pos + x.len());
    }
    if x == s {
        lemma_step_source(v, t, pos, parts);
    } else if x == g {
        lemma_step_slice(v, t, pos, parts);
    } else {
        lemma_step_repeat(v, t, pos, parts);
    }
}


/// The parts read so far are valid values.
pub open spec fn read_parts_valid(parts: Parts) -> bool {
    &&& parts.slice matches Some(sl) ==> rect_valid(sl.offsets)
    &&& parts.width matches Some(w) ==> rect_valid(w)
    &&& parts.outset matches Some(o) ==> rect_valid(o)
}

/// Reading parts reads valid values.
proof fn lemma_parts_valid(toks: Seq<TokenView>, pos: int, parts: Parts)
    requires
        read_parts_valid(parts),
    ensures
        read_parts_valid(spec_parts(toks, pos, parts).0),
    decreases parts_missing(parts),
{
    if parts.slice is None && spec_parse_slice(toks, pos) is Ok {
        let (sl, p1) = spec_parse_slice(toks, pos)->Ok_0;
        let fill_first = spec_expect_ident(toks, pos, "fill"@) is Ok;
        lemma_rect_parsed_valid::<NumberOrPercentage>(toks, if fill_first { pos + 1 } else { pos }, false);
        if let Ok(q1) = spec_expect_delim(toks, p1, '/') {
            lemma_rect_parsed_valid::<BorderImageSideWidth>(toks, q1, false);
            let p2 = match spec_parse_rect::<BorderImageSideWidth>(toks, q1, false) {
                Ok((r, p)) => p,
                Err(_) => q1,
            };
            if let Ok(q2) = spec_expect_delim(toks, p2, '/') {
                lemma_rect_parsed_valid::<LengthOrNumber>(toks, q2, false);
            }
        }
        match spec_width_outset(toks, p1) {
            Some((w, o, p2)) => lemma_parts_valid(toks, p2, Parts { slice: Some(sl), width: w, outset: o, ..parts }),
            None => lemma_parts_valid(toks, p1, Parts { slice: Some(sl), ..parts }),
        }
    } else if parts.source is None && spec_parse_source(toks, pos) is Ok {
        let (so, p1) = spec_parse_source(toks, pos)->Ok_0;
        lemma_parts_valid(toks, p1, Parts { source: Some(so), ..parts });
    } else if parts.repeat is None && spec_parse_repeat(toks, pos) is Ok {
        let (re, p1) = spec_parse_repeat(toks, pos)->Ok_0;
        lemma_parts_valid(toks, p1, Parts { repeat: Some(re), ..parts });
    }
}

/// Longhands read and written back read as the same longhands again.
pub proof fn lemma_reparse(toks: Seq<TokenView>, pos: int)
    ensures
        spec_parse_value(toks, pos) matches Ok((v, _)) ==> spec_parse_value(spec_to_css_tokens(v), 0)
            == Ok::<(LonghandsView, int), ParseError>((v, spec_to_css_tokens(v).len() as int)),
{
    lemma_parts_valid(toks, pos, no_parts());
    if let Ok((v, _)) = spec_parse_value(toks, pos) {
        lemma_roundtrip(v);
    }
}


/// After a slice, `/` and a width without a second `/` set the width and
/// leave the outset at its initial value; `/ /` and an outset set the
/// outset and leave the width at its initial value. Both are read to the
/// end.
pub proof fn lemma_width_or_outset_alone(
    source: BorderImageSourceView,
    slice: BorderImageSlice,
    width: Rect<BorderImageSideWidth>,
    outset: Rect<LengthOrNumber>,
)
    requires
        rect_valid(slice.offsets),
        rect_valid(width),
        rect_valid(outset),
    ensures
        ({
            let t = seq![spec_source_to_token(source)] + spec_slice_tokens(slice) + seq![TokenView::Delim('/')]
                + spec_rect_tokens(width);
            spec_parse_value(t, 0) == Ok::<(LonghandsView, int), ParseError>((
                LonghandsView {
                    border_image_outset: initial_outset(),
                    border_image_repeat: initial_repeat(),
                    border_image_slice: slice,
                    border_image_source: source,
                    border_image_width: width,
                },
                t.len() as int,
            ))
        }),
        ({
            let t = seq![spec_source_to_token(source)] + spec_slice_tokens(slice)
                + seq![TokenView::Delim('/'), TokenView::Delim('/')] + spec_rect_tokens(outset);
            spec_parse_value(t, 0) == Ok::<(LonghandsView, int), ParseError>((
                LonghandsView {
                    border_image_outset: outset,
                    border_image_repeat: initial_repeat(),
                    border_image_slice: slice,
                    border_image_source: source,
                    border_image_width: initial_width(),
                },
                t.len() as int,
            ))
        }),
{
    let v = LonghandsView {
        border_image_outset: initial_outset(),
        border_image_repeat: initial_repeat(),
        border_image_slice: slice,
        border_image_source: source,
        border_image_width: width,
    };
    lemma_image_keywords();
    let sl = spec_slice_tokens(slice);
    let a: int = 1int + sl.len();

    // Width alone.
    let t = seq![spec_source_to_token(source)] + sl + seq![TokenView::Delim('/')] + spec_rect_tokens(width);
    let w = spec_rect_tokens(width);
    let n: int = a + 1 + w.len();
    assert(t.len() == n);
    assert(t[0] == spec_source_to_token(source));
    assert(t.subrange(1, a) =~= sl);
    assert(t[a] == TokenView::Delim('/'));
    assert(t.subrange(a + 1, n) =~= w);
    assert(spec_parse_slice(t, 0) is Err);
    lemma_step_source(v, t, 0, no_parts());
    let p1 = Parts { source: Some(source), ..no_parts() };
    lemma_slice_roundtrip(slice, t, 1);
    lemma_rect_roundtrip(width, t, a + 1, false);
    assert(spec_width_outset(t, a) == Some((Some(width), None::<Rect<LengthOrNumber>>, n)));
    let p2 = Parts { slice: Some(slice), width: Some(width), outset: None, ..p1 };
    assert(spec_parts(t, 1, p1) == spec_parts(t, n, p2));
    assert(spec_parts(t, n, p2) == (p2, n));

    // Outset alone.
    let v2 = LonghandsView { border_image_outset: outset, border_image_width: initial_width(), ..v };
    let t2 = seq![spec_source_to_token(source)] + sl + seq![TokenView::Delim('/'), TokenView::Delim('/')]
        + spec_rect_tokens(outset);
    let o = spec_rect_tokens(outset);
    let n2: int = a + 2 + o.len();
    assert(t2.len() == n2);
    assert(t2[0] == spec_source_to_token(source));
    assert(t2.subrange(1, a) =~= sl);
    assert(t2[a] == TokenView::Delim('/'));
    assert(t2[a + 1] == TokenView::Delim('/'));
    assert(t2.subrange(a + 2, n2) =~= o);
    assert(spec_parse_slice(t2, 0) is Err);
    lemma_step_source(v2, t2, 0, no_parts());
    lemma_slice_roundtrip(slice, t2, 1);
    assert(spec_parse_rect::<BorderImageSideWidth>(t2, a + 1, false) is Err);
    lemma_rect_roundtrip(outset, t2, a + 2, false);
    assert(spec_width_outset(t2, a) == Some((None::<Rect<BorderImageSideWidth>>, Some(outset), n2)));
    let q2 = Parts { slice: Some(slice), width: None, outset: Some(outset), ..p1 };
    assert(spec_parts(t2, 1, p1) == spec_parts(t2, n2, q2));
    assert(spec_parts(t2, n2, q2) == (q2, n2));
}

} // verus!
