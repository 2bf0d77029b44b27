//! The `<color>` value of `border-*-color`, read through cssparser's
//! color keyword table and hash-color decoder.

use vstd::prelude::*;
use crate::keywords::lemma_line_keywords;
use crate::text::{ci_eq, chars_of, copy_chars};
use crate::token::{Token, TokenView};

verus! {

/// A specified color.
#[derive(PartialEq, Eq, Structural, Clone, Copy, Debug)]
pub enum Color {
    /// The `currentcolor` keyword.
    CurrentColor,
    /// Red, green, blue and alpha, a byte each.
    Rgba(u8, u8, u8, u8),
}

/// What cssparser's color keyword table gives for an identifier
/// (named colors, `transparent` and `currentcolor`), if anything.
pub uninterp spec fn css_color_keyword(name: Seq<char>) -> Option<Color>;

/// The keywords of `<line-style>` and `<line-width>`, ignoring ASCII case.
pub open spec fn is_line_keyword(s: Seq<char>) -> bool {
    ||| ci_eq(s, "none"@)
    ||| ci_eq(s, "hidden"@)
    ||| ci_eq(s, "dotted"@)
    ||| ci_eq(s, "dashed"@)
    ||| ci_eq(s, "solid"@)
    ||| ci_eq(s, "double"@)
    ||| ci_eq(s, "groove"@)
    ||| ci_eq(s, "ridge"@)
    ||| ci_eq(s, "inset"@)
    ||| ci_eq(s, "outset"@)
    ||| ci_eq(s, "thin"@)
    ||| ci_eq(s, "medium"@)
    ||| ci_eq(s, "thick"@)
}

/// The value of a hexadecimal digit.
pub open spec fn hex_value(c: char) -> Option<int> {
    if '0' <= c && c <= '9' {
        Some(c as int - '0' as int)
    } else if 'a' <= c && c <= 'f' {
        Some(c as int - 'a' as int + 10)
    } else if 'A' <= c && c <= 'F' {
        Some(c as int - 'A' as int + 10)
    } else {
        None
    }
}

/// The value of the digit at `i`.
pub open spec fn hex_at(s: Seq<char>, i: int) -> int {
    hex_value(s[i])->0
}

/// The byte written by the two digits at `i` and `i + 1`.
pub open spec fn hex_pair(s: Seq<char>, i: int) -> u8 {
    (hex_at(s, i) * 16 + hex_at(s, i + 1)) as u8
}

/// The byte written by the single digit at `i`, repeated.
pub open spec fn hex_single(s: Seq<char>, i: int) -> u8 {
    (hex_at(s, i) * 17) as u8
}

/// The color that a hash token's digits write: three, four, six or eight
/// hexadecimal digits (`rgb`, `rgba`, `rrggbb`, `rrggbbaa`); alpha is 255
/// where it is not written.
pub open spec fn spec_hash_color(s: Seq<char>) -> Option<Color> {
    if !(forall|i: int| 0 <= i < s.len() ==> (#[trigger] hex_value(s[i])) is Some) {
        None
    } else if s.len() == 8 {
        Some(Color::Rgba(hex_pair(s, 0), hex_pair(s, 2), hex_pair(s, 4), hex_pair(s, 6)))
    } else if s.len() == 6 {
        Some(Color::Rgba(hex_pair(s, 0), hex_pair(s, 2), hex_pair(s, 4), 255))
    } else if s.len() == 4 {
        Some(Color::Rgba(hex_single(s, 0), hex_single(s, 1), hex_single(s, 2), hex_single(s, 3)))
    } else if s.len() == 3 {
        Some(Color::Rgba(hex_single(s, 0), hex_single(s, 1), hex_single(s, 2), 255))
    } else {
        None
    }
}

/// Looks an identifier up in cssparser's color keyword table
/// (`cssparser::parse_color_keyword`): the named colors, `transparent` and
/// `currentcolor`, matched ignoring ASCII case. The named colors are not
/// stated here; the contract names the result, and states the two facts of
/// the table's source that the library relies on: `currentcolor` gives
/// `CurrentColor`, and no `<line-style>` or `<line-width>` keyword is in the
/// table.
#[verifier::external_body]
fn color_keyword(name: &Vec<char>) -> (r: Option<Color>)
    ensures
        r == css_color_keyword(name@),
        ci_eq(name@, "currentcolor"@) ==> r == Some(Color::CurrentColor),
        is_line_keyword(name@) ==> r is None,
{
    let s: String = name.iter().collect();
    match cssparser::parse_color_keyword(&s) {
        Ok(cssparser::Color::CurrentColor) => Some(Color::CurrentColor),
        Ok(cssparser::Color::RGBA(c)) => Some(Color::Rgba(c.red, c.green, c.blue, c.alpha)),
        Err(()) => None,
    }
}

/// Decodes the digits of a hash token (`cssparser::Color::parse_hash`),
/// which accepts three, four, six or eight ASCII hexadecimal digits.
#[verifier::external_body]
fn hash_color(digits: &Vec<char>) -> (r: Option<Color>)
    ensures
        r == spec_hash_color(digits@),
{
    let s: String = digits.iter().collect();
    match cssparser::Color::parse_hash(s.as_bytes()) {
        Ok(cssparser::Color::RGBA(c)) => Some(Color::Rgba(c.red, c.green, c.blue, c.alpha)),
        Ok(cssparser::Color::CurrentColor) => None,
        Err(()) => None,
    }
}

/// The color that one token gives: `currentcolor`, another color keyword,
/// a hash, or an evaluated color function. The line keywords (`solid`,
/// `thin`, ...) give no color; this follows from the keyword table.
pub open spec fn spec_color_from_token(t: TokenView) -> Option<Color> {
    match t {
        TokenView::Ident(s) => if is_line_keyword(s) {
            None
        } else if ci_eq(s, "currentcolor"@) {
            Some(Color::CurrentColor)
        } else {
            css_color_keyword(s)
        },
        TokenView::Hash(s) => spec_hash_color(s),
        TokenView::ColorFunction(r, g, b, a) => Some(Color::Rgba(r, g, b, a)),
        _ => None,
    }
}

/// The decimal digits of a natural number.
pub open spec fn decimal(n: nat) -> Seq<char>
    decreases n,
{
    if n < 10 {
        seq![(48 + n) as char]
    } else {
        decimal(n / 10).push((48 + n % 10) as char)
    }
}

/// The six hexadecimal digits that a non-negative integer (and a unit, for
/// a dimension) stands for in the hashless color quirk: the integer's
/// decimal digits followed by the unit, padded with zeros in front; none
/// where the integer exceeds 999999 or the digits and the unit are more than
/// six characters.
pub open spec fn quirky_padded(v: i64, unit: Seq<char>) -> Option<Seq<char>> {
    if v < 0 || v % 1000 != 0 || v / 1000 > 999999 {
        None
    } else {
        let d = decimal((v / 1000) as nat);
        if d.len() + unit.len() > 6 {
            None
        } else {
            Some(Seq::new((6 - d.len() - unit.len()) as nat, |i: int| '0') + d + unit)
        }
    }
}

/// The digits that the hashless color quirk reads from a token: an
/// identifier of three or six characters as it is, or an integer number
/// or dimension, padded (see [`quirky_padded`]).
pub open spec fn spec_quirky_digits(t: TokenView) -> Option<Seq<char>> {
    match t {
        TokenView::Ident(s) => if s.len() == 3 || s.len() == 6 { Some(s) } else { None },
        TokenView::Number(v, integer) => if integer { quirky_padded(v, Seq::<char>::empty()) } else { None },
        TokenView::Dimension(v, integer, u) => if integer { quirky_padded(v, u) } else { None },
        _ => None,
    }
}

/// The color that one token gives where the hashless color quirk applies:
/// the color of the token, or else the color of its quirk digits read as a
/// hash.
pub open spec fn spec_quirky_color_from_token(t: TokenView) -> Option<Color> {
    match spec_color_from_token(t) {
        Some(c) => Some(c),
        None => match spec_quirky_digits(t) {
            Some(d) => spec_hash_color(d),
            None => None,
        },
    }
}

/// Parses a color from one token.
pub fn color_from_token(t: &Token) -> (r: Option<Color>)
    ensures
        r == spec_color_from_token(t@),
{
    match t {
        Token::Ident(s) => color_keyword(s),
        Token::Hash(s) => hash_color(s),
        Token::ColorFunction(r, g, b, a) => Some(Color::Rgba(*r, *g, *b, *a)),
        _ => None,
    }
}

/// Appends the decimal digits of `n`.
fn push_decimal(out: &mut Vec<char>, n: u32)
    ensures
        final(out)@ == old(out)@ + decimal(n as nat),
    decreases n,
{
    if n >= 10 {
        push_decimal(out, n / 10);
    }
    let d = (n % 10) as u8;
    out.push((48 + d) as char);
    assert(final(out)@ =~= old(out)@ + decimal(n as nat));
}

/// The padded digits of an integer and a unit; see [`quirky_padded`].
fn quirky_pad(v: i64, unit: &Vec<char>) -> (r: Option<Vec<char>>)
    ensures
        match r {
            Some(d) => quirky_padded(v, unit@) == Some(d@),
            None => quirky_padded(v, unit@) is None,
        },
{
    if v < 0 || v % 1000 != 0 || v / 1000 > 999999 {
        return None;
    }
    let mut digits: Vec<char> = Vec::new();
    push_decimal(&mut digits, (v / 1000) as u32);
    assert(digits@ == decimal((v / 1000) as nat));
    if digits.len() > 6 || unit.len() > 6 - digits.len() {
        return None;
    }
    let pad = 6 - digits.len() - unit.len();
    let mut out: Vec<char> = Vec::new();
    let mut i: usize = 0;
    while i < pad
        invariant
            i <= pad,
            out@ == Seq::new(i as nat, |k: int| '0'),
        decreases pad - i,
    {
        out.push('0');
        i = i + 1;
        assert(out@ =~= Seq::new(i as nat, |k: int| '0'));
    }
    let ghost zeros = out@;
    let mut j: usize = 0;
    while j < digits.len()
        invariant
            j <= digits.len(),
            out@ == zeros + digits@.subrange(0, j as int),
        decreases digits.len() - j,
    {
        out.push(digits[j]);
        j = j + 1;
        assert(out@ =~= zeros + digits@.subrange(0, j as int));
    }
    assert(digits@.subrange(0, digits@.len() as int) =~= digits@);
    let ghost head = out@;
    let mut k: usize = 0;
    while k < unit.len()
        invariant
            k <= unit.len(),
            out@ == head + unit@.subrange(0, k as int),
        decreases unit.len() - k,
    {
        out.push(unit[k]);
        k = k + 1;
        assert(out@ =~= head + unit@.subrange(0, k as int));
    }
    assert(unit@.subrange(0, unit@.len() as int) =~= unit@);
    Some(out)
}

/// The digits that the hashless color quirk reads; see [`spec_quirky_digits`].
fn quirky_digits(t: &Token) -> (r: Option<Vec<char>>)
    ensures
        match r {
            Some(d) => spec_quirky_digits(t@) == Some(d@),
            None => spec_quirky_digits(t@) is None,
        },
{
    match t {
        Token::Ident(s) => if s.len() == 3 || s.len() == 6 { Some(copy_chars(s)) } else { None },
        Token::Number(v, integer) => if *integer {
            let empty: Vec<char> = Vec::new();
            assert(empty@ =~= Seq::<char>::empty());
            quirky_pad(*v, &empty)
        } else {
            None
        },
        Token::Dimension(v, integer, u) => if *integer { quirky_pad(*v, u) } else { None },
        _ => None,
    }
}

/// Parses a color from one token where the hashless color quirk applies;
/// see [`spec_quirky_color_from_token`].
pub fn quirky_color_from_token(t: &Token) -> (r: Option<Color>)
    ensures
        r == spec_quirky_color_from_token(t@),
{
    match color_from_token(t) {
        Some(c) => Some(c),
        None => match quirky_digits(t) {
            Some(d) => hash_color(&d),
            None => None,
        },
    }
}

/// The token a color is written as: `currentcolor`, or the color function
/// of its components.
pub open spec fn spec_color_to_token(c: Color) -> TokenView {
    match c {
        Color::CurrentColor => TokenView::Ident("currentcolor"@),
        Color::Rgba(r, g, b, a) => TokenView::ColorFunction(r, g, b, a),
    }
}

/// Writes a color as a token.
pub fn color_to_token(c: &Color) -> (t: Token)
    ensures
        t@ == spec_color_to_token(*c),
{
    match c {
        Color::CurrentColor => Token::Ident(chars_of("currentcolor")),
        Color::Rgba(r, g, b, a) => Token::ColorFunction(*r, *g, *b, *a),
    }
}

/// A color written as a token reads back as the same color.
pub proof fn lemma_color_roundtrip(c: Color)
    ensures
        spec_color_from_token(spec_color_to_token(c)) == Some(c),
{
    lemma_line_keywords();
}

} // verus!
