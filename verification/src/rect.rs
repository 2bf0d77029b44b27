//! Four values, one per side (top, right, bottom, left), written with one to
//! four of them the way CSS box shorthands are.

use vstd::prelude::*;
use crate::token::{Token, TokenView, ParseError, token_views, value_error};
use crate::parser::Parser;
use crate::values::{Component, spec_component_at, parse_component, push_token};

verus! {

/// Top, right, bottom and left.
#[derive(Clone, Copy, Debug)]
pub struct Rect<T>(pub T, pub T, pub T, pub T);

/// Each side is a valid value.
pub open spec fn rect_valid<T: Component>(r: Rect<T>) -> bool {
    r.0.spec_valid() && r.1.spec_valid() && r.2.spec_valid() && r.3.spec_valid()
}

/// Reads one to four values at `pos`: one gives all sides; two give
/// top/bottom and right/left; three give top, right/left and bottom; four
/// give top, right, bottom and left. The result and the position after it,
/// or the error of a missing first value.
pub open spec fn spec_parse_rect<T: Component>(toks: Seq<TokenView>, pos: int, quirks: bool) -> Result<(Rect<T>, int), ParseError> {
    match spec_component_at::<T>(toks, pos, quirks) {
        None => Err(value_error(toks, pos)),
        Some(a) => match spec_component_at::<T>(toks, pos + 1, quirks) {
            None => Ok((Rect(a, a, a, a), pos + 1)),
            Some(b) => match spec_component_at::<T>(toks, pos + 2, quirks) {
                None => Ok((Rect(a, b, a, b), pos + 2)),
                Some(c) => match spec_component_at::<T>(toks, pos + 3, quirks) {
                    None => Ok((Rect(a, b, c, b), pos + 3)),
                    Some(d) => Ok((Rect(a, b, c, d), pos + 4)),
                },
            },
        },
    }
}

/// The fewest values that write the rect: a side that equals its opposite
/// side is left out, from the left side on.
pub open spec fn spec_rect_tokens<T: Component>(r: Rect<T>) -> Seq<TokenView> {
    let same_vertical = r.0 == r.2;
    let same_horizontal = r.1 == r.3;
    if same_vertical && same_horizontal && r.0 == r.1 {
        seq![r.0.spec_to_token()]
    } else if same_vertical && same_horizontal {
        seq![r.0.spec_to_token(), r.1.spec_to_token()]
    } else if same_horizontal {
        seq![r.0.spec_to_token(), r.1.spec_to_token(), r.2.spec_to_token()]
    } else {
        seq![r.0.spec_to_token(), r.1.spec_to_token(), r.2.spec_to_token(), r.3.spec_to_token()]
    }
}

impl<T: Component> Rect<T> {
    /// A rect of the four sides.
    pub fn new(top: T, right: T, bottom: T, left: T) -> (r: Rect<T>)
        ensures
            r == Rect(top, right, bottom, left),
    {
        Rect(top, right, bottom, left)
    }

    /// Reads one to four values; see [`spec_parse_rect`]. On failure
    /// nothing is consumed.
    pub fn parse_with(input: &mut Parser, quirks: bool) -> (res: Result<Rect<T>, ParseError>)
        requires
            old(input).wf(),
        ensures
            final(input).wf(),
            final(input).toks() == old(input).toks(),
            match spec_parse_rect::<T>(old(input).toks(), old(input).pos(), quirks) {
                Ok((r, p)) => res == Ok::<Rect<T>, ParseError>(r) && final(input).pos() == p,
                Err(e) => res == Err::<Rect<T>, ParseError>(e) && final(input).pos() == old(input).pos(),
            },
    {
        let first: T = parse_component(input, quirks)?;
        let second: T = match parse_component(input, quirks) {
            Ok(v) => v,
            Err(_) => return Ok(Rect(first, first, first, first)),
        };
        let third: T = match parse_component(input, quirks) {
            Ok(v) => v,
            Err(_) => return Ok(Rect(first, second, first, second)),
        };
        let fourth: T = match parse_component(input, quirks) {
            Ok(v) => v,
            Err(_) => return Ok(Rect(first, second, third, second)),
        };
        Ok(Rect(first, second, third, fourth))
    }

    /// Writes the rect with the fewest values; see [`spec_rect_tokens`].
    pub fn to_css(&self, dest: &mut Vec<Token>)
        ensures
            token_views(final(dest)@) == token_views(old(dest)@) + spec_rect_tokens(*self),
    {
        let ghost start = token_views(dest@);
        push_token(dest, self.0.to_token());
        let same_vertical = self.0.same(&self.2);
        let same_horizontal = self.1.same(&self.3);
        if same_vertical && same_horizontal && self.0.same(&self.1) {
            assert(token_views(dest@) =~= start + spec_rect_tokens(*self));
            return;
        }
        push_token(dest, self.1.to_token());
        if same_vertical && same_horizontal {
            assert(token_views(dest@) =~= start + spec_rect_tokens(*self));
            return;
        }
        push_token(dest, self.2.to_token());
        if same_horizontal {
            assert(token_views(dest@) =~= start + spec_rect_tokens(*self));
            return;
        }
        push_token(dest, self.3.to_token());
        assert(token_views(dest@) =~= start + spec_rect_tokens(*self));
    }
}

/// A rect written with the fewest values reads back as the same rect,
/// wherever it stands in a token stream, when the token after it (if it
/// has fewer than four values) is not a value of the same kind.
pub proof fn lemma_rect_roundtrip<T: Component>(r: Rect<T>, toks: Seq<TokenView>, pos: int, quirks: bool)
    requires
        rect_valid(r),
        0 <= pos,
        pos + spec_rect_tokens(r).len() <= toks.len(),
        toks.subrange(pos, pos + spec_rect_tokens(r).len()) == spec_rect_tokens(r),
        spec_rect_tokens(r).len() < 4 ==> spec_component_at::<T>(toks, pos + spec_rect_tokens(r).len(), quirks) is None,
    ensures
        spec_parse_rect::<T>(toks, pos, quirks) == Ok::<(Rect<T>, int), ParseError>((r, pos + spec_rect_tokens(r).len())),
{
    let s = spec_rect_tokens(r);
    T::lemma_roundtrip(r.0, quirks);
    T::lemma_roundtrip(r.1, quirks);
    T::lemma_roundtrip(r.2, quirks);
    T::lemma_roundtrip(r.3, quirks);
    assert(toks[pos] == s[0]);
    if s.len() >= 2 {
        assert(toks[pos + 1] == s[1]);
    }
    if s.len() >= 3 {
        assert(toks[pos + 2] == s[2]);
    }
    if s.len() >= 4 {
        assert(toks[pos + 3] == s[3]);
    }
}

/// What a rect is read from, it reads only valid values.
pub proof fn lemma_rect_parsed_valid<T: Component>(toks: Seq<TokenView>, pos: int, quirks: bool)
    ensures
        spec_parse_rect::<T>(toks, pos, quirks) matches Ok((r, p)) ==> rect_valid(r) && pos < p <= pos + 4
            && p <= toks.len(),
{
    if 0 <= pos < toks.len() {
        T::lemma_parsed_valid(toks[pos], quirks);
    }
    if 0 <= pos + 1 < toks.len() {
        T::lemma_parsed_valid(toks[pos + 1], quirks);
    }
    if 0 <= pos + 2 < toks.len() {
        T::lemma_parsed_valid(toks[pos + 2], quirks);
    }
    if 0 <= pos + 3 < toks.len() {
        T::lemma_parsed_valid(toks[pos + 3], quirks);
    }
}

/// One to four values give the sides in the order top, right, bottom,
/// left: one value is every side; two are top/bottom and right/left; three
/// are top, right/left and bottom; four are top, right, bottom and left.
/// The values are read as far as they go.
pub proof fn lemma_rect_values<T: Component>(a: T, b: T, c: T, d: T, quirks: bool)
    requires
        a.spec_valid(),
        b.spec_valid(),
        c.spec_valid(),
        d.spec_valid(),
    ensures
        spec_parse_rect::<T>(seq![a.spec_to_token()], 0, quirks)
            == Ok::<(Rect<T>, int), ParseError>((Rect(a, a, a, a), 1)),
        spec_parse_rect::<T>(seq![a.spec_to_token(), b.spec_to_token()], 0, quirks)
            == Ok::<(Rect<T>, int), ParseError>((Rect(a, b, a, b), 2)),
        spec_parse_rect::<T>(seq![a.spec_to_token(), b.spec_to_token(), c.spec_to_token()], 0, quirks)
            == Ok::<(Rect<T>, int), ParseError>((Rect(a, b, c, b), 3)),
        spec_parse_rect::<T>(seq![a.spec_to_token(), b.spec_to_token(), c.spec_to_token(), d.spec_to_token()], 0, quirks)
            == Ok::<(Rect<T>, int), ParseError>((Rect(a, b, c, d), 4)),
{
    T::lemma_roundtrip(a, quirks);
    T::lemma_roundtrip(b, quirks);
    T::lemma_roundtrip(c, quirks);
    T::lemma_roundtrip(d, quirks);
}

} // verus!
