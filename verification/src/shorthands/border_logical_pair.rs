//! `border-block-width`, `border-block-style`, `border-block-color` and the
//! `border-inline-*` ones: one value of the start side, then optionally one
//! of the end side, which is the start's where it is left out.

use vstd::prelude::*;
use crate::parser::{Parser, ParserContext};
use crate::token::{Token, TokenView, ParseError, token_views, value_error};
use crate::values::{Component, spec_component_at, parse_component, push_token};

verus! {

/// The start and end longhands of one property along one axis.
#[derive(Clone, Copy, Debug)]
pub struct Longhands<T> {
    pub start: T,
    pub end: T,
}

/// The start value, then the end value if one follows; the longhands and
/// the position after them, or the error of a missing start value.
pub open spec fn spec_parse_value<T: Component>(toks: Seq<TokenView>, pos: int) -> Result<(Longhands<T>, int), ParseError> {
    match spec_component_at::<T>(toks, pos, false) {
        None => Err(value_error(toks, pos)),
        Some(s) => match spec_component_at::<T>(toks, pos + 1, false) {
            Some(e) => Ok((Longhands { start: s, end: e }, pos + 2)),
            None => Ok((Longhands { start: s, end: s }, pos + 1)),
        },
    }
}

/// Reads the pair; see [`spec_parse_value`]. On failure nothing is
/// consumed.
pub fn parse_value<T: Component>(context: &ParserContext, input: &mut Parser) -> (res: Result<Longhands<T>, ParseError>)
    requires
        old(input).wf(),
    ensures
        final(input).wf(),
        final(input).toks() == old(input).toks(),
        match spec_parse_value::<T>(old(input).toks(), old(input).pos()) {
            Ok((v, p)) => res == Ok::<Longhands<T>, ParseError>(v) && final(input).pos() == p,
            Err(e) => res == Err::<Longhands<T>, ParseError>(e) && final(input).pos() == old(input).pos(),
        },
{
    let start_value: T = parse_component(input, false)?;
    let end_value = match parse_component::<T>(input, false) {
        Ok(v) => v,
        Err(_) => start_value,
    };
    Ok(Longhands { start: start_value, end: end_value })
}

/// The tokens the pair is written as: the start value, then the end value
/// where it differs.
pub open spec fn spec_to_css_tokens<T: Component>(v: Longhands<T>) -> Seq<TokenView> {
    if v.end != v.start {
        seq![v.start.spec_to_token(), v.end.spec_to_token()]
    } else {
        seq![v.start.spec_to_token()]
    }
}

impl<T: Component> Longhands<T> {
    /// Writes the pair; see [`spec_to_css_tokens`].
    pub fn to_css(&self, dest: &mut Vec<Token>)
        ensures
            token_views(final(dest)@) == token_views(old(dest)@) + spec_to_css_tokens(*self),
    {
        let ghost start = token_views(dest@);
        push_token(dest, self.start.to_token());
        if !self.end.same(&self.start) {
            push_token(dest, self.end.to_token());
        }
        assert(token_views(dest@) =~= start + spec_to_css_tokens(*self));
    }
}

/// A pair written out reads back as the same pair.
pub proof fn lemma_roundtrip<T: Component>(v: Longhands<T>)
    requires
        v.start.spec_valid(),
        v.end.spec_valid(),
    ensures
        spec_parse_value::<T>(spec_to_css_tokens(v), 0) == Ok::<(Longhands<T>, int), ParseError>((v, spec_to_css_tokens(v).len() as int)),
{
    T::lemma_roundtrip(v.start, false);
    T::lemma_roundtrip(v.end, false);
}

/// A pair read and written back reads as the same pair again.
pub proof fn lemma_reparse<T: Component>(toks: Seq<TokenView>, pos: int)
    ensures
        spec_parse_value::<T>(toks, pos) matches Ok((v, _)) ==> spec_parse_value::<T>(spec_to_css_tokens(v), 0)
            == Ok::<(Longhands<T>, int), ParseError>((v, spec_to_css_tokens(v).len() as int)),
{
    if 0 <= pos < toks.len() {
        T::lemma_parsed_valid(toks[pos], false);
    }
    if 0 <= pos + 1 < toks.len() {
        T::lemma_parsed_valid(toks[pos + 1], false);
    }
    if let Ok((v, _)) = spec_parse_value::<T>(toks, pos) {
        lemma_roundtrip(v);
    }
}

} // verus!
