use border_shorthands::color::Color;
use border_shorthands::image::{BorderImageRepeat, BorderImageSlice, BorderImageSource};
use border_shorthands::parser::{Parser, ParserContext, QuirksMode};
use border_shorthands::rect::Rect;
use border_shorthands::shorthands::{border, border_axis, border_image, border_logical_pair, border_radius, border_side, border_width, parse_border};
use border_shorthands::token::{ParseError, ParseErrorKind, Token};
use border_shorthands::values::{
    BorderImageRepeatKeyword, BorderImageSideWidth, BorderSideWidth, BorderStyle, Length, LengthOrNumber,
    LengthPercentage, LengthUnit, NumberOrPercentage,
};

fn ident(s: &str) -> Token {
    Token::Ident(s.chars().collect())
}

fn px(v: i64) -> Token {
    Token::Dimension(v * 1000, true, "px".chars().collect())
}

fn len_px(v: i64) -> Length {
    Length { value: v * 1000, unit: LengthUnit::Px }
}

fn ctx() -> ParserContext {
    ParserContext { quirks_mode: QuirksMode::NoQuirks }
}

fn quirks() -> ParserContext {
    ParserContext { quirks_mode: QuirksMode::Quirks }
}

fn text_of(tokens: &[Token]) -> Vec<String> {
    tokens
        .iter()
        .map(|t| match t {
            Token::Ident(s) => s.iter().collect(),
            Token::Number(v, _) => format!("n{}", v),
            Token::Percentage(v) => format!("p{}", v),
            Token::Dimension(v, _, u) => format!("{}{}", v, u.iter().collect::<String>()),
            Token::Hash(s) => format!("#{}", s.iter().collect::<String>()),
            Token::Url(s) => format!("url({})", s.iter().collect::<String>()),
            Token::ColorFunction(r, g, b, a) => format!("rgba({},{},{},{})", r, g, b, a),
            Token::Delim(c) => c.to_string(),
            Token::Other => "?".to_string(),
        })
        .collect()
}

#[test]
fn border_parts_in_any_order() {
    let orders = vec![
        vec![px(1), ident("solid"), ident("red")],
        vec![px(1), ident("red"), ident("solid")],
        vec![ident("solid"), px(1), ident("red")],
        vec![ident("solid"), ident("red"), px(1)],
        vec![ident("red"), px(1), ident("solid")],
        vec![ident("red"), ident("solid"), px(1)],
    ];
    for toks in orders {
        let mut p = Parser::new(toks);
        let r = parse_border(&ctx(), &mut p);
        assert_eq!(
            r,
            Ok((Color::Rgba(255, 0, 0, 255), BorderStyle::Solid, BorderSideWidth::Length(len_px(1))))
        );
        assert_eq!(p.position(), 3);
    }
}

#[test]
fn border_missing_parts_take_defaults() {
    let mut p = Parser::new(vec![ident("dashed")]);
    assert_eq!(
        parse_border(&ctx(), &mut p),
        Ok((Color::CurrentColor, BorderStyle::Dashed, BorderSideWidth::Medium))
    );
    let mut p = Parser::new(vec![Token::Hash("00ff00".chars().collect())]);
    assert_eq!(
        parse_border(&ctx(), &mut p),
        Ok((Color::Rgba(0, 255, 0, 255), BorderStyle::NoBorder, BorderSideWidth::Medium))
    );
    let mut p = Parser::new(vec![ident("thick")]);
    assert_eq!(
        parse_border(&ctx(), &mut p),
        Ok((Color::CurrentColor, BorderStyle::NoBorder, BorderSideWidth::Thick))
    );
}

#[test]
fn border_reads_each_part_once() {
    let mut p = Parser::new(vec![ident("solid"), ident("dotted")]);
    assert_eq!(
        parse_border(&ctx(), &mut p),
        Ok((Color::CurrentColor, BorderStyle::Solid, BorderSideWidth::Medium))
    );
    assert_eq!(p.position(), 1);
}

#[test]
fn border_without_any_part_is_invalid() {
    let mut p = Parser::new(vec![ident("bogus")]);
    assert_eq!(
        parse_border(&ctx(), &mut p),
        Err(ParseError { kind: ParseErrorKind::Invalid, position: 0 })
    );
    assert_eq!(p.position(), 0);
    let mut p = Parser::new(vec![]);
    assert_eq!(
        parse_border(&ctx(), &mut p),
        Err(ParseError { kind: ParseErrorKind::Invalid, position: 0 })
    );
}

#[test]
fn border_width_one_to_four_values() {
    let one = border_width::parse_value(&ctx(), &mut Parser::new(vec![ident("thin")])).unwrap();
    assert_eq!(one.border_top_width, BorderSideWidth::Thin);
    assert_eq!(one.border_left_width, BorderSideWidth::Thin);
    let two = border_width::parse_value(&ctx(), &mut Parser::new(vec![px(1), px(2)])).unwrap();
    assert_eq!(
        (two.border_top_width, two.border_right_width, two.border_bottom_width, two.border_left_width),
        (
            BorderSideWidth::Length(len_px(1)),
            BorderSideWidth::Length(len_px(2)),
            BorderSideWidth::Length(len_px(1)),
            BorderSideWidth::Length(len_px(2))
        )
    );
    let three = border_width::parse_value(&ctx(), &mut Parser::new(vec![px(1), px(2), px(3)])).unwrap();
    assert_eq!(three.border_bottom_width, BorderSideWidth::Length(len_px(3)));
    assert_eq!(three.border_left_width, BorderSideWidth::Length(len_px(2)));
    let mut p = Parser::new(vec![px(1), px(2), px(3), px(4), px(5)]);
    let four = border_width::parse_value(&ctx(), &mut p).unwrap();
    assert_eq!(four.border_left_width, BorderSideWidth::Length(len_px(4)));
    assert_eq!(p.position(), 4);
}

#[test]
fn border_width_quirks_allow_unitless_lengths() {
    let toks = vec![Token::Number(3000, true)];
    assert_eq!(
        border_width::parse_value(&ctx(), &mut Parser::new(toks.clone())).err(),
        Some(ParseError { kind: ParseErrorKind::UnexpectedToken, position: 0 })
    );
    let v = border_width::parse_value(&quirks(), &mut Parser::new(toks)).unwrap();
    assert_eq!(v.border_top_width, BorderSideWidth::Length(len_px(3)));
    let limited = ParserContext { quirks_mode: QuirksMode::LimitedQuirks };
    assert!(border_width::parse_value(&limited, &mut Parser::new(vec![Token::Number(3000, true)])).is_err());
}

#[test]
fn border_width_errors() {
    assert_eq!(
        border_width::parse_value(&ctx(), &mut Parser::new(vec![])).err(),
        Some(ParseError { kind: ParseErrorKind::EndOfInput, position: 0 })
    );
    assert_eq!(
        border_width::parse_value(&ctx(), &mut Parser::new(vec![Token::Dimension(-1000, true, "px".chars().collect())])).err(),
        Some(ParseError { kind: ParseErrorKind::UnexpectedToken, position: 0 })
    );
}

#[test]
fn border_width_written_with_fewest_values() {
    let v = border_width::parse_value(&ctx(), &mut Parser::new(vec![px(1), px(2), px(1), px(2)])).unwrap();
    let mut out = Vec::new();
    v.to_css(&mut out);
    assert_eq!(text_of(&out), vec!["1000px", "2000px"]);
    let back = border_width::parse_value(&ctx(), &mut Parser::new(out)).unwrap();
    assert_eq!(back, v);
    let v = border_width::parse_value(&ctx(), &mut Parser::new(vec![px(1), px(2), px(3), px(2)])).unwrap();
    let mut out = Vec::new();
    v.to_css(&mut out);
    assert_eq!(text_of(&out), vec!["1000px", "2000px", "3000px"]);
}

#[test]
fn border_side_roundtrip_and_currentcolor_left_out() {
    let v = border_side::parse_value(&ctx(), &mut Parser::new(vec![ident("double"), ident("medium")])).unwrap();
    assert_eq!(
        v,
        border_side::Longhands { color: Color::CurrentColor, style: BorderStyle::Double, width: BorderSideWidth::Medium }
    );
    let mut out = Vec::new();
    v.to_css(&mut out);
    assert_eq!(text_of(&out), vec!["medium", "double"]);
    assert_eq!(border_side::parse_value(&ctx(), &mut Parser::new(out)).unwrap(), v);

    let v = border_side::Longhands {
        color: Color::Rgba(1, 2, 3, 255),
        style: BorderStyle::Groove,
        width: BorderSideWidth::Length(len_px(7)),
    };
    let mut out = Vec::new();
    v.to_css(&mut out);
    assert_eq!(text_of(&out), vec!["7000px", "groove", "rgba(1,2,3,255)"]);
    assert_eq!(border_side::parse_value(&ctx(), &mut Parser::new(out)).unwrap(), v);
}

#[test]
fn border_sets_four_sides_and_resets_border_image() {
    let v = border::parse_value(&ctx(), &mut Parser::new(vec![ident("red"), ident("inset")])).unwrap();
    assert_eq!(v.border_top_color, Color::Rgba(255, 0, 0, 255));
    assert_eq!(v.border_bottom_style, BorderStyle::Inset);
    assert_eq!(v.border_right_width, BorderSideWidth::Medium);
    assert!(matches!(v.border_image_source, BorderImageSource::NoImage));
    assert_eq!(v.border_image_repeat, BorderImageRepeat(BorderImageRepeatKeyword::Stretch, BorderImageRepeatKeyword::Stretch));
    assert!(!v.border_image_slice.fill);
    assert_eq!(v.border_image_slice.offsets.0, NumberOrPercentage::Percentage(100000));
    assert_eq!(v.border_image_width.2, BorderImageSideWidth::Number(1000));
    assert_eq!(v.border_image_outset.3, LengthOrNumber::Number(0));
    let mut out = Vec::new();
    v.to_css(&mut out);
    assert_eq!(text_of(&out), vec!["medium", "inset", "rgba(255,0,0,255)"]);
    let mut with_image = border::parse_value(&ctx(), &mut Parser::new(vec![ident("red"), ident("inset")])).unwrap();
    with_image.border_image_source = BorderImageSource::Url("a.png".chars().collect());
    let mut out = Vec::new();
    with_image.to_css(&mut out);
    assert!(out.is_empty());
    let mut with_repeat = border::parse_value(&ctx(), &mut Parser::new(vec![ident("red")])).unwrap();
    with_repeat.border_image_repeat = BorderImageRepeat(BorderImageRepeatKeyword::Round, BorderImageRepeatKeyword::Stretch);
    let mut out = Vec::new();
    with_repeat.to_css(&mut out);
    assert!(out.is_empty());
    let mut v = v;
    v.border_left_style = BorderStyle::Solid;
    let mut out = Vec::new();
    v.to_css(&mut out);
    assert!(out.is_empty());
}

#[test]
fn border_radius_widths_and_heights() {
    let toks = vec![px(10), Token::Percentage(20000), Token::Delim('/'), px(5)];
    let mut p = Parser::new(toks);
    let v = border_radius::parse_value(&ctx(), &mut p).unwrap();
    assert_eq!(p.position(), 4);
    let ten = LengthPercentage::Length(len_px(10));
    let twenty = LengthPercentage::Percentage(20000);
    let five = LengthPercentage::Length(len_px(5));
    assert_eq!(v.border_top_left_radius, border_radius::BorderCornerRadius { width: ten, height: five });
    assert_eq!(v.border_top_right_radius, border_radius::BorderCornerRadius { width: twenty, height: five });
    assert_eq!(v.border_bottom_right_radius, border_radius::BorderCornerRadius { width: ten, height: five });
    assert_eq!(v.border_bottom_left_radius, border_radius::BorderCornerRadius { width: twenty, height: five });
    let mut out = Vec::new();
    v.to_css(&mut out);
    assert_eq!(text_of(&out), vec!["10000px", "p20000", "/", "5000px"]);

    let v = border_radius::parse_value(&ctx(), &mut Parser::new(vec![px(3)])).unwrap();
    assert_eq!(v.border_bottom_left_radius, border_radius::BorderCornerRadius {
        width: LengthPercentage::Length(len_px(3)),
        height: LengthPercentage::Length(len_px(3)),
    });
    let mut out = Vec::new();
    v.to_css(&mut out);
    assert_eq!(text_of(&out), vec!["3000px"]);
}

#[test]
fn border_radius_slash_needs_heights() {
    let mut p = Parser::new(vec![px(10), Token::Delim('/')]);
    assert_eq!(
        border_radius::parse_value(&ctx(), &mut p).err(),
        Some(ParseError { kind: ParseErrorKind::EndOfInput, position: 2 })
    );
    assert_eq!(p.position(), 0);
    let mut p = Parser::new(vec![Token::Percentage(-1000)]);
    assert_eq!(
        border_radius::parse_value(&ctx(), &mut p).err(),
        Some(ParseError { kind: ParseErrorKind::UnexpectedToken, position: 0 })
    );
}

#[test]
fn border_image_full_value() {
    let toks = vec![
        Token::Url("a.png".chars().collect()),
        Token::Number(30000, true),
        ident("fill"),
        Token::Delim('/'),
        px(10),
        Token::Delim('/'),
        Token::Number(2000, true),
        ident("round"),
        ident("space"),
    ];
    let mut p = Parser::new(toks);
    let v = border_image::parse_value(&ctx(), &mut p).unwrap();
    assert_eq!(p.position(), 9);
    match &v.border_image_source {
        BorderImageSource::Url(s) => assert_eq!(s.iter().collect::<String>(), "a.png"),
        _ => panic!("no url"),
    }
    assert!(v.border_image_slice.fill);
    assert_eq!(v.border_image_slice.offsets.1, NumberOrPercentage::Number(30000));
    assert_eq!(v.border_image_width.0, BorderImageSideWidth::LengthPercentage(LengthPercentage::Length(len_px(10))));
    assert_eq!(v.border_image_outset.0, LengthOrNumber::Number(2000));
    assert_eq!(v.border_image_repeat, BorderImageRepeat(BorderImageRepeatKeyword::Round, BorderImageRepeatKeyword::Space));
    let mut out = Vec::new();
    v.to_css(&mut out);
    assert_eq!(text_of(&out), vec!["url(a.png)", "n30000", "fill", "/", "10000px", "/", "n2000", "round", "space"]);
}

#[test]
fn border_image_parts_in_other_orders() {
    let toks = vec![ident("repeat"), Token::Percentage(10000), ident("none")];
    let mut p = Parser::new(toks);
    let v = border_image::parse_value(&ctx(), &mut p).unwrap();
    assert_eq!(p.position(), 3);
    assert_eq!(v.border_image_repeat, BorderImageRepeat(BorderImageRepeatKeyword::Repeat, BorderImageRepeatKeyword::Repeat));
    assert_eq!(v.border_image_slice.offsets.3, NumberOrPercentage::Percentage(10000));
    assert!(matches!(v.border_image_source, BorderImageSource::NoImage));
    assert_eq!(v.border_image_width.0, BorderImageSideWidth::Number(1000));
    assert_eq!(v.border_image_outset.0, LengthOrNumber::Number(0));
}

#[test]
fn border_image_outset_without_width() {
    let toks = vec![ident("fill"), Token::Number(1000, true), Token::Delim('/'), Token::Delim('/'), px(3)];
    let mut p = Parser::new(toks);
    let v = border_image::parse_value(&ctx(), &mut p).unwrap();
    assert_eq!(p.position(), 5);
    assert!(v.border_image_slice.fill);
    assert_eq!(v.border_image_width.0, BorderImageSideWidth::Number(1000));
    assert_eq!(v.border_image_outset.0, LengthOrNumber::Length(len_px(3)));
}

#[test]
fn border_image_lone_slash_is_left_unread() {
    let toks = vec![Token::Number(1000, true), Token::Delim('/'), ident("stretch")];
    let mut p = Parser::new(toks);
    let v = border_image::parse_value(&ctx(), &mut p).unwrap();
    assert_eq!(p.position(), 1);
    assert_eq!(v.border_image_repeat, BorderImageRepeat(BorderImageRepeatKeyword::Stretch, BorderImageRepeatKeyword::Stretch));
}

#[test]
fn border_image_needs_a_part() {
    let mut p = Parser::new(vec![Token::Delim('/')]);
    assert_eq!(
        border_image::parse_value(&ctx(), &mut p).err(),
        Some(ParseError { kind: ParseErrorKind::Invalid, position: 0 })
    );
}

#[test]
fn border_image_roundtrip_with_auto_width() {
    let v = border_image::Longhands {
        border_image_outset: Rect(
            LengthOrNumber::Number(0),
            LengthOrNumber::Length(len_px(1)),
            LengthOrNumber::Number(0),
            LengthOrNumber::Length(len_px(1)),
        ),
        border_image_repeat: BorderImageRepeat(BorderImageRepeatKeyword::Space, BorderImageRepeatKeyword::Space),
        border_image_slice: BorderImageSlice {
            offsets: Rect(
                NumberOrPercentage::Number(1000),
                NumberOrPercentage::Number(2000),
                NumberOrPercentage::Number(3000),
                NumberOrPercentage::Number(4000),
            ),
            fill: false,
        },
        border_image_source: BorderImageSource::NoImage,
        border_image_width: Rect(
            BorderImageSideWidth::Auto,
            BorderImageSideWidth::Auto,
            BorderImageSideWidth::Auto,
            BorderImageSideWidth::Auto,
        ),
    };
    let mut out = Vec::new();
    v.to_css(&mut out);
    assert_eq!(
        text_of(&out),
        vec!["none", "n1000", "n2000", "n3000", "n4000", "/", "auto", "/", "n0", "1000px", "space"]
    );
    let n = out.len();
    let mut p = Parser::new(out);
    let back = border_image::parse_value(&ctx(), &mut p).unwrap();
    assert_eq!(p.position(), n);
    assert_eq!(back.border_image_outset.1, v.border_image_outset.1);
    assert_eq!(back.border_image_repeat, v.border_image_repeat);
    assert_eq!(back.border_image_slice.offsets.3, v.border_image_slice.offsets.3);
    assert_eq!(back.border_image_width.2, BorderImageSideWidth::Auto);
}

#[test]
fn logical_pair_end_defaults_to_start() {
    let mut p = Parser::new(vec![ident("thin")]);
    let v = border_logical_pair::parse_value::<BorderSideWidth>(&ctx(), &mut p).unwrap();
    assert_eq!((v.start, v.end), (BorderSideWidth::Thin, BorderSideWidth::Thin));
    let mut out = Vec::new();
    v.to_css(&mut out);
    assert_eq!(text_of(&out), vec!["thin"]);

    let mut p = Parser::new(vec![ident("solid"), ident("dotted"), ident("dashed")]);
    let v = border_logical_pair::parse_value::<BorderStyle>(&ctx(), &mut p).unwrap();
    assert_eq!((v.start, v.end), (BorderStyle::Solid, BorderStyle::Dotted));
    assert_eq!(p.position(), 2);
    let mut out = Vec::new();
    v.to_css(&mut out);
    assert_eq!(text_of(&out), vec!["solid", "dotted"]);

    let mut p = Parser::new(vec![ident("blue")]);
    let v = border_logical_pair::parse_value::<Color>(&ctx(), &mut p).unwrap();
    assert_eq!(v.end, Color::Rgba(0, 0, 255, 255));
    assert!(border_logical_pair::parse_value::<Color>(&ctx(), &mut Parser::new(vec![px(1)])).is_err());
}

#[test]
fn border_axis_sets_both_sides() {
    let mut p = Parser::new(vec![px(2), ident("ridge")]);
    let v = border_axis::parse_value(&ctx(), &mut p).unwrap();
    assert_eq!(v.start_width, BorderSideWidth::Length(len_px(2)));
    assert_eq!(v.end_width, v.start_width);
    assert_eq!(v.end_style, BorderStyle::Ridge);
    assert_eq!(v.end_color, Color::CurrentColor);
    let mut out = Vec::new();
    v.to_css(&mut out);
    assert_eq!(text_of(&out), vec!["2000px", "ridge"]);
}
