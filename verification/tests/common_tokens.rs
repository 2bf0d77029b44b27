use border_shorthands::color::Color;
use border_shorthands::parser::{Parser, ParserContext, QuirksMode};
use border_shorthands::token::{ParseError, ParseErrorKind, Token};
use border_shorthands::values::{
    BorderSideWidth, BorderStyle, Component, Length, LengthUnit,
};

fn ident(s: &str) -> Token {
    Token::Ident(s.chars().collect())
}

fn px(v: i64) -> Token {
    Token::Dimension(v * 1000, true, "px".chars().collect())
}

fn no_quirks() -> ParserContext {
    ParserContext { quirks_mode: QuirksMode::NoQuirks }
}

#[test]
fn keyword_matching_ignores_ascii_case() {
    let mut p = Parser::new(vec![ident("SoLiD")]);
    let r = border_shorthands::shorthands::parse_border(&no_quirks(), &mut p);
    assert_eq!(r, Ok((Color::CurrentColor, BorderStyle::Solid, BorderSideWidth::Medium)));
    assert_eq!(p.position(), 1);
}

#[test]
fn named_color_comes_from_the_keyword_table() {
    assert_eq!(Color::from_token(&ident("red"), false), Some(Color::Rgba(255, 0, 0, 255)));
    assert_eq!(Color::from_token(&ident("RebeccaPurple"), false), Some(Color::Rgba(102, 51, 153, 255)));
    assert_eq!(Color::from_token(&ident("transparent"), false), Some(Color::Rgba(0, 0, 0, 0)));
    assert_eq!(Color::from_token(&ident("currentColor"), false), Some(Color::CurrentColor));
    assert_eq!(Color::from_token(&ident("solid"), false), None);
    assert_eq!(Color::from_token(&ident("thin"), false), None);
}

#[test]
fn hash_colors_decode_three_four_six_and_eight_digits() {
    let h = |s: &str| Token::Hash(s.chars().collect());
    assert_eq!(Color::from_token(&h("abc"), false), Some(Color::Rgba(0xaa, 0xbb, 0xcc, 255)));
    assert_eq!(Color::from_token(&h("abcd"), false), Some(Color::Rgba(0xaa, 0xbb, 0xcc, 0xdd)));
    assert_eq!(Color::from_token(&h("12AB3c"), false), Some(Color::Rgba(0x12, 0xab, 0x3c, 255)));
    assert_eq!(Color::from_token(&h("12ab3c80"), false), Some(Color::Rgba(0x12, 0xab, 0x3c, 0x80)));
    assert_eq!(Color::from_token(&h("12345"), false), None);
    assert_eq!(Color::from_token(&h("ggg"), false), None);
    assert_eq!(Color::from_token(&h("äää"), false), None);
}

#[test]
fn colors_are_written_as_color_functions() {
    let t = Color::Rgba(0x12, 0xab, 0x3c, 255).to_token();
    assert!(matches!(t, Token::ColorFunction(0x12, 0xab, 0x3c, 255)));
    let t = Color::Rgba(1, 2, 3, 4).to_token();
    assert!(matches!(t, Token::ColorFunction(1, 2, 3, 4)));
    assert_eq!(Color::from_token(&t, false), Some(Color::Rgba(1, 2, 3, 4)));
    match Color::CurrentColor.to_token() {
        Token::Ident(s) => assert_eq!(s.iter().collect::<String>(), "currentcolor"),
        _ => panic!("not an ident"),
    }
}

#[test]
fn hashless_colors_only_with_quirks() {
    assert_eq!(Color::from_token(&ident("ff0000"), true), Some(Color::Rgba(255, 0, 0, 255)));
    assert_eq!(Color::from_token(&ident("ff0000"), false), None);
    assert_eq!(Color::from_token(&ident("abc"), true), Some(Color::Rgba(0xaa, 0xbb, 0xcc, 255)));
    assert_eq!(Color::from_token(&ident("abcd"), true), None);
    assert_eq!(Color::from_token(&Token::Number(123000, true), true), Some(Color::Rgba(0, 1, 0x23, 255)));
    assert_eq!(Color::from_token(&Token::Number(123000, true), false), None);
    assert_eq!(Color::from_token(&Token::Number(123000, false), true), None);
    assert_eq!(Color::from_token(&Token::Number(-1000, true), true), None);
    assert_eq!(Color::from_token(&Token::Number(1000000000, true), true), None);
    assert_eq!(
        Color::from_token(&Token::Dimension(12000, true, "ab".chars().collect()), true),
        Some(Color::Rgba(0, 0x12, 0xab, 255))
    );
    assert_eq!(Color::from_token(&Token::Dimension(12000, true, "abcde".chars().collect()), true), None);
    assert_eq!(Color::from_token(&Token::Dimension(12000, true, "zz".chars().collect()), true), None);
    assert_eq!(Color::from_token(&ident("red"), true), Some(Color::Rgba(255, 0, 0, 255)));
    assert_eq!(Color::from_token(&ident("solid"), true), None);
}

#[test]
fn lengths_need_a_unit_but_zero() {
    assert_eq!(
        BorderSideWidth::from_token(&px(2), false),
        Some(BorderSideWidth::Length(Length { value: 2000, unit: LengthUnit::Px }))
    );
    assert_eq!(
        BorderSideWidth::from_token(&Token::Dimension(1500, false, "EM".chars().collect()), false),
        Some(BorderSideWidth::Length(Length { value: 1500, unit: LengthUnit::Em }))
    );
    assert_eq!(
        BorderSideWidth::from_token(&Token::Number(0, true), false),
        Some(BorderSideWidth::Length(Length { value: 0, unit: LengthUnit::Px }))
    );
    assert_eq!(BorderSideWidth::from_token(&Token::Number(3000, true), false), None);
    assert_eq!(
        BorderSideWidth::from_token(&Token::Number(3000, true), true),
        Some(BorderSideWidth::Length(Length { value: 3000, unit: LengthUnit::Px }))
    );
    assert_eq!(BorderSideWidth::from_token(&Token::Dimension(-1000, true, "px".chars().collect()), false), None);
    assert_eq!(BorderSideWidth::from_token(&Token::Dimension(1000, true, "furlong".chars().collect()), false), None);
}

#[test]
fn expect_delim_consumes_only_the_delimiter() {
    let mut p = Parser::new(vec![Token::Delim('/'), ident("x")]);
    assert_eq!(p.expect_delim('/'), Ok(()));
    assert_eq!(p.position(), 1);
    assert_eq!(
        p.expect_delim('/'),
        Err(ParseError { kind: ParseErrorKind::UnexpectedToken, position: 1 })
    );
    assert_eq!(p.position(), 1);
    p.advance();
    assert_eq!(p.expect_delim('/'), Err(ParseError { kind: ParseErrorKind::EndOfInput, position: 2 }));
    assert!(p.is_exhausted());
}
