//! The single-token values that the border properties are made of, each
//! with the token it is read from and the token it is written as.

use vstd::prelude::*;
use crate::text::{ci_eq, chars_of, matches_keyword};
use crate::token::{Token, TokenView, ParseError, ParseErrorKind, token_views, value_error};
use crate::parser::Parser;
use crate::keywords::{lemma_line_keywords, lemma_image_keywords, lemma_unit_names};
use crate::color::{Color, spec_color_from_token, color_from_token, spec_quirky_color_from_token, quirky_color_from_token, spec_color_to_token, color_to_token, lemma_color_roundtrip};

verus! {

/// A value that one token gives.
pub trait Component: Sized + Copy {
    /// The value that the token `t` gives, if any; `quirks` says whether a
    /// unitless number is read as a length in pixels.
    spec fn spec_from_token(t: TokenView, quirks: bool) -> Option<Self>;

    /// Reads a value from one token.
    fn from_token(t: &Token, quirks: bool) -> (r: Option<Self>)
        ensures
            r == Self::spec_from_token(t@, quirks),
    ;

    /// The token that the value is written as.
    spec fn spec_to_token(self) -> TokenView;

    /// Writes the value as a token.
    fn to_token(&self) -> (t: Token)
        ensures
            t@ == self.spec_to_token(),
    ;

    /// Compares two values.
    fn same(&self, other: &Self) -> (b: bool)
        ensures
            b == (*self == *other),
    ;

    /// The values that some token gives.
    spec fn spec_valid(self) -> bool;

    /// A value written as a token reads back as itself.
    proof fn lemma_roundtrip(v: Self, quirks: bool)
        requires
            v.spec_valid(),
        ensures
            Self::spec_from_token(v.spec_to_token(), quirks) == Some(v),
    ;

    /// What a token gives is a valid value.
    proof fn lemma_parsed_valid(t: TokenView, quirks: bool)
        ensures
            Self::spec_from_token(t, quirks) matches Some(v) ==> v.spec_valid(),
    ;
}

/// The units of `<length>`.
#[derive(PartialEq, Eq, Structural, Clone, Copy, Debug)]
pub enum LengthUnit {
    Px,
    In,
    Cm,
    Mm,
    Q,
    Pt,
    Pc,
    Em,
    Ex,
    Ch,
    Rem,
    Vw,
    Vh,
    Vmin,
    Vmax,
}

/// The name a unit is written with.
pub open spec fn unit_name(u: LengthUnit) -> Seq<char> {
    match u {
        LengthUnit::Px => "px"@,
        LengthUnit::In => "in"@,
        LengthUnit::Cm => "cm"@,
        LengthUnit::Mm => "mm"@,
        LengthUnit::Q => "q"@,
        LengthUnit::Pt => "pt"@,
        LengthUnit::Pc => "pc"@,
        LengthUnit::Em => "em"@,
        LengthUnit::Ex => "ex"@,
        LengthUnit::Ch => "ch"@,
        LengthUnit::Rem => "rem"@,
        LengthUnit::Vw => "vw"@,
        LengthUnit::Vh => "vh"@,
        LengthUnit::Vmin => "vmin"@,
        LengthUnit::Vmax => "vmax"@,
    }
}

/// The unit a name stands for, ignoring ASCII case.
pub open spec fn spec_unit_from_name(s: Seq<char>) -> Option<LengthUnit> {
    if ci_eq(s, "px"@) { Some(LengthUnit::Px) }
    else if ci_eq(s, "in"@) { Some(LengthUnit::In) }
    else if ci_eq(s, "cm"@) { Some(LengthUnit::Cm) }
    else if ci_eq(s, "mm"@) { Some(LengthUnit::Mm) }
    else if ci_eq(s, "q"@) { Some(LengthUnit::Q) }
    else if ci_eq(s, "pt"@) { Some(LengthUnit::Pt) }
    else if ci_eq(s, "pc"@) { Some(LengthUnit::Pc) }
    else if ci_eq(s, "em"@) { Some(LengthUnit::Em) }
    else if ci_eq(s, "ex"@) { Some(LengthUnit::Ex) }
    else if ci_eq(s, "ch"@) { Some(LengthUnit::Ch) }
    else if ci_eq(s, "rem"@) { Some(LengthUnit::Rem) }
    else if ci_eq(s, "vw"@) { Some(LengthUnit::Vw) }
    else if ci_eq(s, "vh"@) { Some(LengthUnit::Vh) }
    else if ci_eq(s, "vmin"@) { Some(LengthUnit::Vmin) }
    else if ci_eq(s, "vmax"@) { Some(LengthUnit::Vmax) }
    else { None }
}

/// Reads a unit from its name.
pub fn unit_from_name(s: &Vec<char>) -> (r: Option<LengthUnit>)
    ensures
        r == spec_unit_from_name(s@),
{
    if matches_keyword(s, "px") { Some(LengthUnit::Px) }
    else if matches_keyword(s, "in") { Some(LengthUnit::In) }
    else if matches_keyword(s, "cm") { Some(LengthUnit::Cm) }
    else if matches_keyword(s, "mm") { Some(LengthUnit::Mm) }
    else if matches_keyword(s, "q") { Some(LengthUnit::Q) }
    else if matches_keyword(s, "pt") { Some(LengthUnit::Pt) }
    else if matches_keyword(s, "pc") { Some(LengthUnit::Pc) }
    else if matches_keyword(s, "em") { Some(LengthUnit::Em) }
    else if matches_keyword(s, "ex") { Some(LengthUnit::Ex) }
    else if matches_keyword(s, "ch") { Some(LengthUnit::Ch) }
    else if matches_keyword(s, "rem") { Some(LengthUnit::Rem) }
    else if matches_keyword(s, "vw") { Some(LengthUnit::Vw) }
    else if matches_keyword(s, "vh") { Some(LengthUnit::Vh) }
    else if matches_keyword(s, "vmin") { Some(LengthUnit::Vmin) }
    else if matches_keyword(s, "vmax") { Some(LengthUnit::Vmax) }
    else { None }
}

/// Writes a unit's name.
pub fn unit_to_name(u: LengthUnit) -> (s: Vec<char>)
    ensures
        s@ == unit_name(u),
{
    match u {
        LengthUnit::Px => chars_of("px"),
        LengthUnit::In => chars_of("in"),
        LengthUnit::Cm => chars_of("cm"),
        LengthUnit::Mm => chars_of("mm"),
        LengthUnit::Q => chars_of("q"),
        LengthUnit::Pt => chars_of("pt"),
        LengthUnit::Pc => chars_of("pc"),
        LengthUnit::Em => chars_of("em"),
        LengthUnit::Ex => chars_of("ex"),
        LengthUnit::Ch => chars_of("ch"),
        LengthUnit::Rem => chars_of("rem"),
        LengthUnit::Vw => chars_of("vw"),
        LengthUnit::Vh => chars_of("vh"),
        LengthUnit::Vmin => chars_of("vmin"),
        LengthUnit::Vmax => chars_of("vmax"),
    }
}

/// A unit's name reads back as the unit.
pub proof fn lemma_unit_roundtrip(u: LengthUnit)
    ensures
        spec_unit_from_name(unit_name(u)) == Some(u),
{
    lemma_unit_names();
}


/// A non-negative `<length>`: a value in thousandths and its unit.
#[derive(PartialEq, Eq, Structural, Clone, Copy, Debug)]
pub struct Length {
    pub value: i64,
    pub unit: LengthUnit,
}

/// The non-negative length that one token gives: a dimension with a length
/// unit, a unitless zero, or, where `quirks` allows it, a unitless number,
/// read in pixels.
pub open spec fn spec_length_from_token(t: TokenView, quirks: bool) -> Option<Length> {
    match t {
        TokenView::Dimension(v, _, u) => match spec_unit_from_name(u) {
            Some(unit) => if v >= 0 { Some(Length { value: v, unit }) } else { None },
            None => None,
        },
        TokenView::Number(v, _) => if v == 0 || (quirks && v > 0) {
            Some(Length { value: v, unit: LengthUnit::Px })
        } else {
            None
        },
        _ => None,
    }
}

/// Reads a non-negative length from one token.
pub fn length_from_token(t: &Token, quirks: bool) -> (r: Option<Length>)
    ensures
        r == spec_length_from_token(t@, quirks),
{
    match t {
        Token::Dimension(v, _, u) => match unit_from_name(u) {
            Some(unit) => if *v >= 0 { Some(Length { value: *v, unit }) } else { None },
            None => None,
        },
        Token::Number(v, _) => if *v == 0 || (quirks && *v > 0) {
            Some(Length { value: *v, unit: LengthUnit::Px })
        } else {
            None
        },
        _ => None,
    }
}

/// The token a length is written as: a dimension.
pub open spec fn spec_length_to_token(l: Length) -> TokenView {
    TokenView::Dimension(l.value, l.value % 1000 == 0, unit_name(l.unit))
}

/// Writes a length as a token.
pub fn length_to_token(l: &Length) -> (t: Token)
    ensures
        t@ == spec_length_to_token(*l),
{
    Token::Dimension(l.value, l.value % 1000 == 0, unit_to_name(l.unit))
}

/// A non-negative length written as a token reads back as itself.
pub proof fn lemma_length_roundtrip(l: Length, quirks: bool)
    requires
        l.value >= 0,
    ensures
        spec_length_from_token(spec_length_to_token(l), quirks) == Some(l),
{
    lemma_unit_roundtrip(l.unit);
}

/// The `<line-style>` of a border side.
#[derive(PartialEq, Eq, Structural, Clone, Copy, Debug)]
pub enum BorderStyle {
    /// The `none` keyword.
    NoBorder,
    Hidden,
    Dotted,
    Dashed,
    Solid,
    Double,
    Groove,
    Ridge,
    Inset,
    Outset,
}

/// The keyword a value is written with.
pub open spec fn border_style_name(v: BorderStyle) -> Seq<char> {
    match v {
        BorderStyle::NoBorder => "none"@,
        BorderStyle::Hidden => "hidden"@,
        BorderStyle::Dotted => "dotted"@,
        BorderStyle::Dashed => "dashed"@,
        BorderStyle::Solid => "solid"@,
        BorderStyle::Double => "double"@,
        BorderStyle::Groove => "groove"@,
        BorderStyle::Ridge => "ridge"@,
        BorderStyle::Inset => "inset"@,
        BorderStyle::Outset => "outset"@,
    }
}

/// The value a keyword stands for, ignoring ASCII case.
pub open spec fn spec_border_style_from_name(s: Seq<char>) -> Option<BorderStyle> {
    if ci_eq(s, "none"@) { Some(BorderStyle::NoBorder) }
    else if ci_eq(s, "hidden"@) { Some(BorderStyle::Hidden) }
    else if ci_eq(s, "dotted"@) { Some(BorderStyle::Dotted) }
    else if ci_eq(s, "dashed"@) { Some(BorderStyle::Dashed) }
    else if ci_eq(s, "solid"@) { Some(BorderStyle::Solid) }
    else if ci_eq(s, "double"@) { Some(BorderStyle::Double) }
    else if ci_eq(s, "groove"@) { Some(BorderStyle::Groove) }
    else if ci_eq(s, "ridge"@) { Some(BorderStyle::Ridge) }
    else if ci_eq(s, "inset"@) { Some(BorderStyle::Inset) }
    else if ci_eq(s, "outset"@) { Some(BorderStyle::Outset) }
    else { None }
}

/// Reads a value from its keyword.
pub fn border_style_from_name(s: &Vec<char>) -> (r: Option<BorderStyle>)
    ensures
        r == spec_border_style_from_name(s@),
{
    if matches_keyword(s, "none") { Some(BorderStyle::NoBorder) }
    else if matches_keyword(s, "hidden") { Some(BorderStyle::Hidden) }
    else if matches_keyword(s, "dotted") { Some(BorderStyle::Dotted) }
    else if matches_keyword(s, "dashed") { Some(BorderStyle::Dashed) }
    else if matches_keyword(s, "solid") { Some(BorderStyle::Solid) }
    else if matches_keyword(s, "double") { Some(BorderStyle::Double) }
    else if matches_keyword(s, "groove") { Some(BorderStyle::Groove) }
    else if matches_keyword(s, "ridge") { Some(BorderStyle::Ridge) }
    else if matches_keyword(s, "inset") { Some(BorderStyle::Inset) }
    else if matches_keyword(s, "outset") { Some(BorderStyle::Outset) }
    else { None }
}

impl Component for BorderStyle {
    open spec fn spec_from_token(t: TokenView, quirks: bool) -> Option<Self> {
        match t {
            TokenView::Ident(s) => spec_border_style_from_name(s),
            _ => None,
        }
    }

    fn from_token(t: &Token, quirks: bool) -> (r: Option<Self>) {
        match t {
            Token::Ident(s) => border_style_from_name(s),
            _ => None,
        }
    }

    open spec fn spec_to_token(self) -> TokenView {
        TokenView::Ident(border_style_name(self))
    }

    fn to_token(&self) -> (t: Token) {
        Token::Ident(match self {
            BorderStyle::NoBorder => chars_of("none"),
            BorderStyle::Hidden => chars_of("hidden"),
            BorderStyle::Dotted => chars_of("dotted"),
            BorderStyle::Dashed => chars_of("dashed"),
            BorderStyle::Solid => chars_of("solid"),
            BorderStyle::Double => chars_of("double"),
            BorderStyle::Groove => chars_of("groove"),
            BorderStyle::Ridge => chars_of("ridge"),
            BorderStyle::Inset => chars_of("inset"),
            BorderStyle::Outset => chars_of("outset"),
        })
    }

    fn same(&self, other: &Self) -> (b: bool) {
        *self == *other
    }

    open spec fn spec_valid(self) -> bool {
        true
    }

    proof fn lemma_roundtrip(v: Self, quirks: bool) {
        lemma_line_keywords();
    }

    proof fn lemma_parsed_valid(t: TokenView, quirks: bool) {
    }
}

/// How a border image side is filled.
#[derive(PartialEq, Eq, Structural, Clone, Copy, Debug)]
pub enum BorderImageRepeatKeyword {
    Stretch,
    Repeat,
    Round,
    Space,
}

/// The keyword a value is written with.
pub open spec fn border_image_repeat_keyword_name(v: BorderImageRepeatKeyword) -> Seq<char> {
    match v {
        BorderImageRepeatKeyword::Stretch => "stretch"@,
        BorderImageRepeatKeyword::Repeat => "repeat"@,
        BorderImageRepeatKeyword::Round => "round"@,
        BorderImageRepeatKeyword::Space => "space"@,
    }
}

/// The value a keyword stands for, ignoring ASCII case.
pub open spec fn spec_border_image_repeat_keyword_from_name(s: Seq<char>) -> Option<BorderImageRepeatKeyword> {
    if ci_eq(s, "stretch"@) { Some(BorderImageRepeatKeyword::Stretch) }
    else if ci_eq(s, "repeat"@) { Some(BorderImageRepeatKeyword::Repeat) }
    else if ci_eq(s, "round"@) { Some(BorderImageRepeatKeyword::Round) }
    else if ci_eq(s, "space"@) { Some(BorderImageRepeatKeyword::Space) }
    else { None }
}

/// Reads a value from its keyword.
pub fn border_image_repeat_keyword_from_name(s: &Vec<char>) -> (r: Option<BorderImageRepeatKeyword>)
    ensures
        r == spec_border_image_repeat_keyword_from_name(s@),
{
    if matches_keyword(s, "stretch") { Some(BorderImageRepeatKeyword::Stretch) }
    else if matches_keyword(s, "repeat") { Some(BorderImageRepeatKeyword::Repeat) }
    else if matches_keyword(s, "round") { Some(BorderImageRepeatKeyword::Round) }
    else if matches_keyword(s, "space") { Some(BorderImageRepeatKeyword::Space) }
    else { None }
}

impl Component for BorderImageRepeatKeyword {
    open spec fn spec_from_token(t: TokenView, quirks: bool) -> Option<Self> {
        match t {
            TokenView::Ident(s) => spec_border_image_repeat_keyword_from_name(s),
            _ => None,
        }
    }

    fn from_token(t: &Token, quirks: bool) -> (r: Option<Self>) {
        match t {
            Token::Ident(s) => border_image_repeat_keyword_from_name(s),
            _ => None,
        }
    }

    open spec fn spec_to_token(self) -> TokenView {
        TokenView::Ident(border_image_repeat_keyword_name(self))
    }

    fn to_token(&self) -> (t: Token) {
        Token::Ident(match self {
            BorderImageRepeatKeyword::Stretch => chars_of("stretch"),
            BorderImageRepeatKeyword::Repeat => chars_of("repeat"),
            BorderImageRepeatKeyword::Round => chars_of("round"),
            BorderImageRepeatKeyword::Space => chars_of("space"),
        })
    }

    fn same(&self, other: &Self) -> (b: bool) {
        *self == *other
    }

    open spec fn spec_valid(self) -> bool {
        true
    }

    proof fn lemma_roundtrip(v: Self, quirks: bool) {
        lemma_image_keywords();
    }

    proof fn lemma_parsed_valid(t: TokenView, quirks: bool) {
    }
}

/// The `<line-width>` of a border side.
#[derive(PartialEq, Eq, Structural, Clone, Copy, Debug)]
pub enum BorderSideWidth {
    Thin,
    Medium,
    Thick,
    Length(Length),
}

impl Component for BorderSideWidth {
    open spec fn spec_from_token(t: TokenView, quirks: bool) -> Option<Self> {
        match t {
            TokenView::Ident(s) => if ci_eq(s, "thin"@) {
                Some(BorderSideWidth::Thin)
            } else if ci_eq(s, "medium"@) {
                Some(BorderSideWidth::Medium)
            } else if ci_eq(s, "thick"@) {
                Some(BorderSideWidth::Thick)
            } else {
                None
            },
            _ => match spec_length_from_token(t, quirks) {
                Some(l) => Some(BorderSideWidth::Length(l)),
                None => None,
            },
        }
    }

    fn from_token(t: &Token, quirks: bool) -> (r: Option<Self>) {
        match t {
            Token::Ident(s) => if matches_keyword(s, "thin") {
                Some(BorderSideWidth::Thin)
            } else if matches_keyword(s, "medium") {
                Some(BorderSideWidth::Medium)
            } else if matches_keyword(s, "thick") {
                Some(BorderSideWidth::Thick)
            } else {
                None
            },
            _ => match length_from_token(t, quirks) {
                Some(l) => Some(BorderSideWidth::Length(l)),
                None => None,
            },
        }
    }

    open spec fn spec_to_token(self) -> TokenView {
        match self {
            BorderSideWidth::Thin => TokenView::Ident("thin"@),
            BorderSideWidth::Medium => TokenView::Ident("medium"@),
            BorderSideWidth::Thick => TokenView::Ident("thick"@),
            BorderSideWidth::Length(l) => spec_length_to_token(l),
        }
    }

    fn to_token(&self) -> (t: Token) {
        match self {
            BorderSideWidth::Thin => Token::Ident(chars_of("thin")),
            BorderSideWidth::Medium => Token::Ident(chars_of("medium")),
            BorderSideWidth::Thick => Token::Ident(chars_of("thick")),
            BorderSideWidth::Length(l) => length_to_token(l),
        }
    }

    fn same(&self, other: &Self) -> (b: bool) {
        *self == *other
    }

    open spec fn spec_valid(self) -> bool {
        match self {
            BorderSideWidth::Length(l) => l.value >= 0,
            _ => true,
        }
    }

    proof fn lemma_roundtrip(v: Self, quirks: bool) {
        lemma_line_keywords();
        if let BorderSideWidth::Length(l) = v {
            lemma_length_roundtrip(l, quirks);
        }
    }

    proof fn lemma_parsed_valid(t: TokenView, quirks: bool) {
    }
}

/// A non-negative `<length-percentage>`.
#[derive(PartialEq, Eq, Structural, Clone, Copy, Debug)]
pub enum LengthPercentage {
    Length(Length),
    /// A percentage, in thousandths of a percent.
    Percentage(i64),
}

impl Component for LengthPercentage {
    open spec fn spec_from_token(t: TokenView, quirks: bool) -> Option<Self> {
        match t {
            TokenView::Percentage(v) => if v >= 0 { Some(LengthPercentage::Percentage(v)) } else { None },
            _ => match spec_length_from_token(t, false) {
                Some(l) => Some(LengthPercentage::Length(l)),
                None => None,
            },
        }
    }

    fn from_token(t: &Token, quirks: bool) -> (r: Option<Self>) {
        match t {
            Token::Percentage(v) => if *v >= 0 { Some(LengthPercentage::Percentage(*v)) } else { None },
            _ => match length_from_token(t, false) {
                Some(l) => Some(LengthPercentage::Length(l)),
                None => None,
            },
        }
    }

    open spec fn spec_to_token(self) -> TokenView {
        match self {
            LengthPercentage::Length(l) => spec_length_to_token(l),
            LengthPercentage::Percentage(v) => TokenView::Percentage(v),
        }
    }

    fn to_token(&self) -> (t: Token) {
        match self {
            LengthPercentage::Length(l) => length_to_token(l),
            LengthPercentage::Percentage(v) => Token::Percentage(*v),
        }
    }

    fn same(&self, other: &Self) -> (b: bool) {
        *self == *other
    }

    open spec fn spec_valid(self) -> bool {
        match self {
            LengthPercentage::Length(l) => l.value >= 0,
            LengthPercentage::Percentage(v) => v >= 0,
        }
    }

    proof fn lemma_roundtrip(v: Self, quirks: bool) {
        if let LengthPercentage::Length(l) = v {
            lemma_length_roundtrip(l, false);
        }
    }

    proof fn lemma_parsed_valid(t: TokenView, quirks: bool) {
    }
}

/// A non-negative `<number>` or `<percentage>`.
#[derive(PartialEq, Eq, Structural, Clone, Copy, Debug)]
pub enum NumberOrPercentage {
    /// A number, in thousandths.
    Number(i64),
    /// A percentage, in thousandths of a percent.
    Percentage(i64),
}

impl Component for NumberOrPercentage {
    open spec fn spec_from_token(t: TokenView, quirks: bool) -> Option<Self> {
        match t {
            TokenView::Number(v, _) => if v >= 0 { Some(NumberOrPercentage::Number(v)) } else { None },
            TokenView::Percentage(v) => if v >= 0 { Some(NumberOrPercentage::Percentage(v)) } else { None },
            _ => None,
        }
    }

    fn from_token(t: &Token, quirks: bool) -> (r: Option<Self>) {
        match t {
            Token::Number(v, _) => if *v >= 0 { Some(NumberOrPercentage::Number(*v)) } else { None },
            Token::Percentage(v) => if *v >= 0 { Some(NumberOrPercentage::Percentage(*v)) } else { None },
            _ => None,
        }
    }

    open spec fn spec_to_token(self) -> TokenView {
        match self {
            NumberOrPercentage::Number(v) => TokenView::Number(v, v % 1000 == 0),
            NumberOrPercentage::Percentage(v) => TokenView::Percentage(v),
        }
    }

    fn to_token(&self) -> (t: Token) {
        match self {
            NumberOrPercentage::Number(v) => Token::Number(*v, *v % 1000 == 0),
            NumberOrPercentage::Percentage(v) => Token::Percentage(*v),
        }
    }

    fn same(&self, other: &Self) -> (b: bool) {
        *self == *other
    }

    open spec fn spec_valid(self) -> bool {
        match self {
            NumberOrPercentage::Number(v) => v >= 0,
            NumberOrPercentage::Percentage(v) => v >= 0,
        }
    }

    proof fn lemma_roundtrip(v: Self, quirks: bool) {
    }

    proof fn lemma_parsed_valid(t: TokenView, quirks: bool) {
    }
}

/// A non-negative `<length>` or `<number>` (a `border-image-outset` side).
#[derive(PartialEq, Eq, Structural, Clone, Copy, Debug)]
pub enum LengthOrNumber {
    Length(Length),
    /// A number, in thousandths.
    Number(i64),
}

impl Component for LengthOrNumber {
    open spec fn spec_from_token(t: TokenView, quirks: bool) -> Option<Self> {
        match t {
            TokenView::Number(v, _) => if v >= 0 { Some(LengthOrNumber::Number(v)) } else { None },
            _ => match spec_length_from_token(t, false) {
                Some(l) => Some(LengthOrNumber::Length(l)),
                None => None,
            },
        }
    }

    fn from_token(t: &Token, quirks: bool) -> (r: Option<Self>) {
        match t {
            Token::Number(v, _) => if *v >= 0 { Some(LengthOrNumber::Number(*v)) } else { None },
            _ => match length_from_token(t, false) {
                Some(l) => Some(LengthOrNumber::Length(l)),
                None => None,
            },
        }
    }

    open spec fn spec_to_token(self) -> TokenView {
        match self {
            LengthOrNumber::Length(l) => spec_length_to_token(l),
            LengthOrNumber::Number(v) => TokenView::Number(v, v % 1000 == 0),
        }
    }

    fn to_token(&self) -> (t: Token) {
        match self {
            LengthOrNumber::Length(l) => length_to_token(l),
            LengthOrNumber::Number(v) => Token::Number(*v, *v % 1000 == 0),
        }
    }

    fn same(&self, other: &Self) -> (b: bool) {
        *self == *other
    }

    open spec fn spec_valid(self) -> bool {
        match self {
            LengthOrNumber::Length(l) => l.value >= 0,
            LengthOrNumber::Number(v) => v >= 0,
        }
    }

    proof fn lemma_roundtrip(v: Self, quirks: bool) {
        if let LengthOrNumber::Length(l) = v {
            lemma_length_roundtrip(l, false);
        }
    }

    proof fn lemma_parsed_valid(t: TokenView, quirks: bool) {
    }
}

/// A `border-image-width` side: a non-negative number, a non-negative
/// length-percentage, or `auto`.
#[derive(PartialEq, Eq, Structural, Clone, Copy, Debug)]
pub enum BorderImageSideWidth {
    /// A number, in thousandths.
    Number(i64),
    LengthPercentage(LengthPercentage),
    Auto,
}

impl Component for BorderImageSideWidth {
    open spec fn spec_from_token(t: TokenView, quirks: bool) -> Option<Self> {
        match t {
            TokenView::Ident(s) => if ci_eq(s, "auto"@) { Some(BorderImageSideWidth::Auto) } else { None },
            TokenView::Number(v, _) => if v >= 0 {
                Some(BorderImageSideWidth::Number(v))
            } else {
                None
            },
            _ => match LengthPercentage::spec_from_token(t, false) {
                Some(lp) => Some(BorderImageSideWidth::LengthPercentage(lp)),
                None => None,
            },
        }
    }

    fn from_token(t: &Token, quirks: bool) -> (r: Option<Self>) {
        match t {
            Token::Ident(s) => if matches_keyword(s, "auto") { Some(BorderImageSideWidth::Auto) } else { None },
            Token::Number(v, _) => if *v >= 0 {
                Some(BorderImageSideWidth::Number(*v))
            } else {
                None
            },
            _ => match LengthPercentage::from_token(t, false) {
                Some(lp) => Some(BorderImageSideWidth::LengthPercentage(lp)),
                None => None,
            },
        }
    }

    open spec fn spec_to_token(self) -> TokenView {
        match self {
            BorderImageSideWidth::Number(v) => TokenView::Number(v, v % 1000 == 0),
            BorderImageSideWidth::LengthPercentage(lp) => lp.spec_to_token(),
            BorderImageSideWidth::Auto => TokenView::Ident("auto"@),
        }
    }

    fn to_token(&self) -> (t: Token) {
        match self {
            BorderImageSideWidth::Number(v) => Token::Number(*v, *v % 1000 == 0),
            BorderImageSideWidth::LengthPercentage(lp) => lp.to_token(),
            BorderImageSideWidth::Auto => Token::Ident(chars_of("auto")),
        }
    }

    fn same(&self, other: &Self) -> (b: bool) {
        *self == *other
    }

    open spec fn spec_valid(self) -> bool {
        match self {
            BorderImageSideWidth::Number(v) => v >= 0,
            BorderImageSideWidth::LengthPercentage(lp) => lp.spec_valid(),
            BorderImageSideWidth::Auto => true,
        }
    }

    proof fn lemma_roundtrip(v: Self, quirks: bool) {
        if let BorderImageSideWidth::LengthPercentage(lp) = v {
            LengthPercentage::lemma_roundtrip(lp, false);
        }
    }

    proof fn lemma_parsed_valid(t: TokenView, quirks: bool) {
    }
}

impl Component for Color {
    /// Where `quirks` holds, the hashless color quirk applies too.
    open spec fn spec_from_token(t: TokenView, quirks: bool) -> Option<Self> {
        if quirks {
            spec_quirky_color_from_token(t)
        } else {
            spec_color_from_token(t)
        }
    }

    fn from_token(t: &Token, quirks: bool) -> (r: Option<Self>) {
        if quirks {
            quirky_color_from_token(t)
        } else {
            color_from_token(t)
        }
    }

    open spec fn spec_to_token(self) -> TokenView {
        spec_color_to_token(self)
    }

    fn to_token(&self) -> (t: Token) {
        color_to_token(self)
    }

    fn same(&self, other: &Self) -> (b: bool) {
        *self == *other
    }

    open spec fn spec_valid(self) -> bool {
        true
    }

    proof fn lemma_roundtrip(v: Self, quirks: bool) {
        lemma_color_roundtrip(v);
    }

    proof fn lemma_parsed_valid(t: TokenView, quirks: bool) {
    }
}


/// The value that the token at `pos` gives, if there is such a token.
pub open spec fn spec_component_at<T: Component>(toks: Seq<TokenView>, pos: int, quirks: bool) -> Option<T> {
    if 0 <= pos < toks.len() {
        T::spec_from_token(toks[pos], quirks)
    } else {
        None
    }
}

/// Reads a value from the next token; on failure nothing is consumed.
pub fn parse_component<T: Component>(input: &mut Parser, quirks: bool) -> (res: Result<T, ParseError>)
    requires
        old(input).wf(),
    ensures
        final(input).wf(),
        final(input).toks() == old(input).toks(),
        match spec_component_at::<T>(old(input).toks(), old(input).pos(), quirks) {
            Some(v) => res == Ok::<T, ParseError>(v) && final(input).pos() == old(input).pos() + 1,
            None => res == Err::<T, ParseError>(value_error(old(input).toks(), old(input).pos()))
                && final(input).pos() == old(input).pos(),
        },
{
    let r = match input.peek() {
        Some(t) => T::from_token(t, quirks),
        None => None,
    };
    match r {
        Some(v) => {
            input.advance();
            Ok(v)
        },
        None => {
            let pos = input.position();
            let n = input.len();
            Err(ParseError {
                kind: if pos < n { ParseErrorKind::UnexpectedToken } else { ParseErrorKind::EndOfInput },
                position: pos,
            })
        },
    }
}

/// Appends one token to the output.
pub fn push_token(dest: &mut Vec<Token>, t: Token)
    ensures
        token_views(final(dest)@) == token_views(old(dest)@).push(t@),
{
    dest.push(t);
    assert(token_views(final(dest)@) =~= token_views(old(dest)@).push(t@));
}


/// No border style is written like a border width, and no border width is
/// written like a border style.
pub proof fn lemma_style_width_disjoint(s: BorderStyle, w: BorderSideWidth, quirks: bool)
    ensures
        BorderStyle::spec_from_token(w.spec_to_token(), quirks) is None,
        BorderSideWidth::spec_from_token(s.spec_to_token(), quirks) is None,
{
    lemma_line_keywords();
}

} // verus!
