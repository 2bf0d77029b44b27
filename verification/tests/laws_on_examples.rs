use border_shorthands::color::Color;
use border_shorthands::parser::{Parser, ParserContext, QuirksMode};
use border_shorthands::token::{ParseError, ParseErrorKind};
use border_shorthands::shorthands::{border_axis, border_image, border_radius, four_sides};
use border_shorthands::token::Token;
use border_shorthands::values::{BorderSideWidth, BorderStyle, Length, LengthUnit};

fn ident(s: &str) -> Token {
    Token::Ident(s.chars().collect())
}

fn px(v: i64) -> Token {
    Token::Dimension(v * 1000, true, "px".chars().collect())
}

fn ctx() -> ParserContext {
    ParserContext { quirks_mode: QuirksMode::NoQuirks }
}

#[test]
fn border_radius_written_then_read_is_unchanged() {
    let toks = vec![px(1), px(2), px(3), Token::Delim('/'), Token::Percentage(5000), px(6)];
    let v = border_radius::parse_value(&ctx(), &mut Parser::new(toks)).unwrap();
    let mut out = Vec::new();
    v.to_css(&mut out);
    let n = out.len();
    let mut p = Parser::new(out);
    let back = border_radius::parse_value(&ctx(), &mut p).unwrap();
    assert_eq!(p.position(), n);
    assert_eq!(back.border_top_left_radius, v.border_top_left_radius);
    assert_eq!(back.border_top_right_radius, v.border_top_right_radius);
    assert_eq!(back.border_bottom_right_radius, v.border_bottom_right_radius);
    assert_eq!(back.border_bottom_left_radius, v.border_bottom_left_radius);
}

#[test]
fn border_image_parts_read_the_same_in_all_six_orders() {
    let source = vec![Token::Url("img.svg".chars().collect())];
    let slice = vec![
        Token::Percentage(25000),
        ident("fill"),
        Token::Delim('/'),
        ident("auto"),
        px(2),
        Token::Delim('/'),
        Token::Number(1000, true),
    ];
    let repeat = vec![ident("round"), ident("stretch")];
    let parts = [&source, &slice, &repeat];
    let orders = [[0, 1, 2], [0, 2, 1], [1, 0, 2], [1, 2, 0], [2, 0, 1], [2, 1, 0]];
    let mut written: Option<Vec<Token>> = None;
    for o in orders.iter() {
        let mut toks: Vec<Token> = Vec::new();
        for &i in o.iter() {
            toks.extend(parts[i].iter().cloned());
        }
        let n = toks.len();
        let mut p = Parser::new(toks);
        let v = border_image::parse_value(&ctx(), &mut p).unwrap();
        assert_eq!(p.position(), n);
        let mut out = Vec::new();
        v.to_css(&mut out);
        let text = format!("{:?}", out);
        match &written {
            None => written = Some(out),
            Some(w) => assert_eq!(format!("{:?}", w), text),
        }
    }
}

#[test]
fn border_axis_written_then_read_is_unchanged() {
    let v = border_axis::Longhands {
        start_width: BorderSideWidth::Length(Length { value: 500, unit: LengthUnit::Em }),
        end_width: BorderSideWidth::Length(Length { value: 500, unit: LengthUnit::Em }),
        start_style: BorderStyle::Outset,
        end_style: BorderStyle::Outset,
        start_color: Color::Rgba(10, 20, 30, 40),
        end_color: Color::Rgba(10, 20, 30, 40),
    };
    let mut out = Vec::new();
    v.to_css(&mut out);
    assert_eq!(out.len(), 3);
    assert_eq!(border_axis::parse_value(&ctx(), &mut Parser::new(out)).unwrap(), v);
}

#[test]
fn border_color_and_style_four_sides() {
    let toks = vec![ident("red"), Token::Hash("00f".chars().collect())];
    let v = four_sides::parse_value::<Color>(&ctx(), &mut Parser::new(toks)).unwrap();
    assert_eq!((v.top, v.right, v.bottom, v.left), (
        Color::Rgba(255, 0, 0, 255),
        Color::Rgba(0, 0, 255, 255),
        Color::Rgba(255, 0, 0, 255),
        Color::Rgba(0, 0, 255, 255),
    ));
    let mut out = Vec::new();
    v.to_css(&mut out);
    assert_eq!(out.len(), 2);
    let back = four_sides::parse_value::<Color>(&ctx(), &mut Parser::new(out)).unwrap();
    assert_eq!((back.top, back.right, back.bottom, back.left), (v.top, v.right, v.bottom, v.left));

    let toks = vec![ident("solid"), ident("none"), ident("dotted")];
    let v = four_sides::parse_value::<BorderStyle>(&ctx(), &mut Parser::new(toks)).unwrap();
    assert_eq!((v.top, v.right, v.bottom, v.left), (
        BorderStyle::Solid,
        BorderStyle::NoBorder,
        BorderStyle::Dotted,
        BorderStyle::NoBorder,
    ));
}

#[test]
fn border_color_reads_hashless_colors_in_quirks_mode() {
    let quirks = ParserContext { quirks_mode: QuirksMode::Quirks };
    let toks = vec![Token::Number(123000, true)];
    let v = four_sides::parse_value::<Color>(&quirks, &mut Parser::new(toks.clone())).unwrap();
    assert_eq!(v.left, Color::Rgba(0, 1, 0x23, 255));
    assert_eq!(
        four_sides::parse_value::<Color>(&ctx(), &mut Parser::new(toks)).err(),
        Some(ParseError { kind: ParseErrorKind::UnexpectedToken, position: 0 })
    );
    let toks = vec![ident("ff0000"), ident("blue")];
    let v = four_sides::parse_value::<Color>(&quirks, &mut Parser::new(toks)).unwrap();
    assert_eq!((v.top, v.right), (Color::Rgba(255, 0, 0, 255), Color::Rgba(0, 0, 255, 255)));
    let v = four_sides::parse_value::<BorderStyle>(&quirks, &mut Parser::new(vec![ident("groove")])).unwrap();
    assert_eq!(v.bottom, BorderStyle::Groove);
}
