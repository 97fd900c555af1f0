use std::borrow::Cow;
use std::str::FromStr;

use oxidui_style::border::{Border, BorderStyle, Edges};
use oxidui_style::color::{Color, NamedColor};
use oxidui_style::font::FontStyle;
use oxidui_style::layout::{Align, Display, FlexDirection, Justify, Overflow, TextAlign};
use oxidui_style::number::{Float, Int, IntParseError};
use oxidui_style::str::Str;
use oxidui_style::unit::Unit;

// --- Color ---

#[test]
fn color_hex_valid() {
    assert_eq!(
        Color::from_hex_bytes(b"#ff5f00"),
        Some(Color::Rgb(255, 95, 0))
    );
    assert_eq!(Color::from_hex_bytes(b"#000000"), Some(Color::Rgb(0, 0, 0)));
    assert_eq!(
        Color::from_hex_bytes(b"#FFFFFF"),
        Some(Color::Rgb(255, 255, 255))
    );
    assert_eq!(
        Color::from_hex_bytes(b"#aAbBcC"),
        Some(Color::Rgb(0xaa, 0xbb, 0xcc))
    );
}

#[test]
fn color_hex_invalid() {
    assert_eq!(Color::from_hex_bytes(b"ff5f00"), None);
    assert_eq!(Color::from_hex_bytes(b"#ff5fgg"), None);
    assert_eq!(Color::from_hex_bytes(b"#fff"), None);
    assert_eq!(Color::from_hex_bytes(b""), None);
}

#[test]
fn color_hex_rejects_other_shapes() {
    assert_eq!(Color::from_hex_bytes(b"#ff5f001"), None);
    assert_eq!(Color::from_hex_bytes(b"xff5f00"), None);
    assert_eq!(Color::from_hex_bytes(b"#ff 5f0"), None);
    assert_eq!(Color::from_hex_bytes(b"#09aF9A"), Some(Color::Rgb(0x09, 0xaf, 0x9a)));
}

#[test]
fn color_is_abstract() {
    assert!(Color::NoColor.is_abstract());
    assert!(Color::Inherit.is_abstract());
    assert!(!Color::rgb(0, 0, 0).is_abstract());
    assert!(!Color::Named(NamedColor::Red).is_abstract());
}

#[test]
fn color_constructors() {
    assert_eq!(Color::rgb(255, 127, 80), Color::Rgb(255, 127, 80));
    assert_eq!(Color::indexed(244), Color::Indexed(244));
    assert!(!Color::indexed(244).is_abstract());
}

#[test]
fn named_color_ansi_index() {
    assert_eq!(NamedColor::Black.ansi_index(), 0);
    assert_eq!(NamedColor::Red.ansi_index(), 1);
    assert_eq!(NamedColor::White.ansi_index(), 7);
    assert_eq!(NamedColor::BrightBlack.ansi_index(), 8);
    assert_eq!(NamedColor::BrightWhite.ansi_index(), 15);
}

#[test]
fn convert_to_ratatui() {
    for token in ["#ff5f00", "#000000", "#aAbBcC", "#FFFFFF"] {
        let ours = Color::from_hex_bytes(token.as_bytes());
        let theirs = ratatui::style::Color::from_str(token).unwrap();
        match ours {
            Some(Color::Rgb(r, g, b)) => assert_eq!(ratatui::style::Color::Rgb(r, g, b), theirs),
            other => panic!("{token} decoded to {other:?}"),
        }
    }
}

// --- Int ---

#[test]
fn int_arithmetic() {
    assert_eq!(Int::new(3) + Int::new(4), Int::new(7));
    assert_eq!(Int::new(10) - Int::new(3), Int::new(7));
    assert_eq!(-Int::new(5), Int::new(-5));
}

#[test]
fn int_predicates() {
    assert!(Int::ZERO().is_zero());
    assert!(!Int::ONE().is_zero());
    assert!(Int::new(-1).is_negative());
    assert!(!Int::ONE().is_negative());
}

#[test]
fn int_conversions() {
    assert_eq!(Int::from(42).get(), 42);
    assert_eq!(i32::from(Int::new(-7)), -7);
}

#[test]
fn int_parse_prefixed_literals() {
    assert_eq!("0b1010".parse::<Int>().unwrap(), Int::new(10));
    assert_eq!("0o12".parse::<Int>().unwrap(), Int::new(10));
    assert_eq!("0xFF".parse::<Int>().unwrap(), Int::new(255));
    assert_eq!("-5".parse::<Int>().unwrap(), Int::new(-5));
    assert_eq!("+5".parse::<Int>().unwrap(), Int::new(5));
    assert_eq!("42".parse::<Int>().unwrap(), Int::new(42));
}

#[test]
fn int_parse_trims_whitespace() {
    assert_eq!(Int::parse("  42\n").unwrap(), Int::new(42));
    assert_eq!(Int::parse("\t-0x10 ").unwrap(), Int::new(-16));
    assert!(Int::parse_literal(" 42").is_err());
}

#[test]
fn int_parse_rejects_malformed() {
    assert!("".parse::<Int>().is_err());
    assert!("-".parse::<Int>().is_err());
    assert!("0b".parse::<Int>().is_err());
    assert!("0b102".parse::<Int>().is_err());
    assert!("0xFG".parse::<Int>().is_err());
    assert!("12a".parse::<Int>().is_err());
    assert!("2147483648".parse::<Int>().is_err());
    assert_eq!("2147483647".parse::<Int>().unwrap(), Int::new(i32::MAX));
    assert_eq!("-2147483648".parse::<Int>().unwrap(), Int::new(i32::MIN));
    assert_eq!("-0x80000000".parse::<Int>().unwrap(), Int::new(i32::MIN));
    assert!("-2147483649".parse::<Int>().is_err());
    assert_eq!("-2147483647".parse::<Int>().unwrap(), Int::new(-i32::MAX));
}

#[test]
fn int_parse_allows_one_sign_only() {
    assert!(Int::parse_literal("--5").is_err());
    assert!(Int::parse_literal("+-5").is_err());
    assert!(Int::parse_literal("0x-5").is_err());
    assert!(Int::parse_literal("0x+5").is_err());
    assert!(Int::parse_literal("-0x-80000000").is_err());
    assert!(Int::parse_literal("5-").is_err());
    assert_eq!(Int::parse_literal("-0b101").unwrap(), Int::new(-5));
    assert_eq!(Int::parse_literal("+0o17").unwrap(), Int::new(15));
}

#[test]
fn int_parse_trims_unicode_white_space() {
    assert_eq!(Int::parse("\u{3000}42\u{a0}").unwrap(), Int::new(42));
    assert_eq!(Int::parse("\u{2028}-7\r\n").unwrap(), Int::new(-7));
    assert!(Int::parse("4 2").is_err());
}

#[test]
fn int_from_str_radix() {
    assert!(matches!(
        Int::from_str_radix("1", 1),
        Err(IntParseError::InvalidRadix)
    ));
    assert!(matches!(
        Int::from_str_radix("1", 37),
        Err(IntParseError::InvalidRadix)
    ));
    assert_eq!(Int::from_str_radix("z", 36).unwrap(), Int::new(35));
    assert!(matches!(
        Int::from_str_radix("g", 16),
        Err(IntParseError::ParseIntError(_))
    ));
    assert_eq!(Int::from_str_radix("-ff", 16).unwrap(), Int::new(-255));
    assert_eq!(Int::from_str_radix("Zz", 36).unwrap(), Int::new(35 * 36 + 35));
}

#[test]
fn int_radix_formatting() {
    assert_eq!(Int::new(10).to_bin(), "0b1010");
    assert_eq!(Int::new(8).to_oct(), "0o10");
    assert_eq!(Int::new(255).to_hex(), "0xff");
    assert_eq!(Int::new(255).to_hex_upper(), "0XFF");
    assert_eq!(Int::new(0).to_bin(), "0b0");
    assert_eq!(Int::new(-1).to_hex(), "0xffffffff");
    assert_eq!(Int::new(-1).to_oct(), "0o37777777777");
}

// --- Float ---

#[test]
fn float_eq_bitwise() {
    assert_eq!(
        Float::from_bits(1.0f32.to_bits()),
        Float::from_bits(1.0f32.to_bits())
    );
    assert_ne!(
        Float::from_bits(0.5f32.to_bits()),
        Float::from_bits(0.9f32.to_bits())
    );
    let nan = Float::from_bits(f32::NAN.to_bits());
    assert_eq!(nan, nan);
}

#[test]
fn float_signed_zeros_differ() {
    let pos = Float::from_bits(0.0f32.to_bits());
    let neg = Float::from_bits((-0.0f32).to_bits());
    assert_ne!(pos, neg);
    assert!(pos.is_zero());
    assert!(neg.is_zero());
    assert!(!Float::ONE().is_zero());
}

#[test]
fn float_constants() {
    assert_eq!(Float::ZERO().to_bits(), 0.0f32.to_bits());
    assert_eq!(Float::ONE().to_bits(), 1.0f32.to_bits());
    assert_eq!(Float::HALF().to_bits(), 0.5f32.to_bits());
}

// --- Str ---

#[test]
fn str_static_is_borrowed() {
    let s = Str::from_static("mono");
    assert!(matches!(s.0, Cow::Borrowed(_)));
    assert_eq!(s.as_str(), "mono");
}

#[test]
fn str_from_string_is_owned() {
    let s = Str::from_string("runtime".to_string());
    assert!(matches!(s.0, Cow::Owned(_)));
}

#[test]
fn str_equality_ignores_cow_variant() {
    assert_eq!(Str::from_static("hello"), Str::from_string("hello".into()));
}

#[test]
fn str_content_and_emptiness() {
    assert_ne!(Str::from_static("héllo"), Str::from_static("hello"));
    assert_eq!(Str::from_static("héllo"), Str::from_string("héllo".to_string()));
    assert!(Str::from_static("").is_empty());
    assert!(!Str::from(String::from("x")).is_empty());
    let borrowed = Str::from("mono");
    assert!(matches!(borrowed.clone().0, Cow::Borrowed(_)));
    assert_eq!(borrowed.as_ref(), "mono");
}

// --- Unit ---

#[test]
fn unit_predicates() {
    assert!(Unit::cells(10).is_definite());
    assert!(Unit::percent(50).is_definite());
    assert!(!Unit::fill(1).is_definite());
    assert!(!Unit::AUTO.is_definite());

    assert!(Unit::fill(1).is_intrinsic());
    assert!(Unit::AUTO.is_intrinsic());
    assert!(!Unit::ZERO().is_intrinsic());

    assert!(Unit::UNSET.is_unset());
    assert!(!Unit::ZERO().is_unset());
}

#[test]
fn unit_classes_are_exclusive() {
    for u in [Unit::cells(-3), Unit::percent(150), Unit::fill(0), Unit::AUTO, Unit::UNSET] {
        let classes = [u.is_definite(), u.is_intrinsic(), u.is_unset()];
        assert_eq!(classes.iter().filter(|c| **c).count(), 1, "{u:?}");
    }
    assert!(!Unit::AUTO.is_unset());
    assert!(!Unit::fill(2).is_unset());
    assert!(!Unit::percent(0).is_intrinsic());
}

#[test]
fn unit_extractors() {
    assert_eq!(Unit::cells(42).as_cells(), Some(42));
    assert_eq!(Unit::percent(75).as_percent(), Some(75));
    assert_eq!(Unit::AUTO.as_cells(), None);
    assert_eq!(Unit::cells(5).as_percent(), None);
}

#[test]
fn unit_defaults_and_constants() {
    assert_eq!(Unit::default(), Unit::Unset);
    assert_eq!(Unit::FULL(), Unit::Percent(100));
    assert_eq!(Unit::HALF(), Unit::Percent(50));
    assert_eq!(Unit::ZERO(), Unit::Cells(0));
    assert_eq!(Unit::FILL(), Unit::Fill(1));
    assert_eq!(Edges::<Unit>::default(), Edges::all(Unit::UNSET));
}

// --- Edges ---

#[test]
fn edges_all() {
    let e = Edges::all(Unit::cells(4));
    assert_eq!(e.top, Unit::cells(4));
    assert_eq!(e.left, Unit::cells(4));
}

#[test]
fn edges_symmetric() {
    let e = Edges::symmetric(Unit::cells(2), Unit::cells(4));
    assert_eq!(e.top, Unit::cells(2));
    assert_eq!(e.right, Unit::cells(4));
}

#[test]
fn edges_map() {
    let raw: Edges<i32> = Edges::all(5);
    let doubled = raw.map(|v| v * 2);
    assert_eq!(doubled.top, 10);
}

#[test]
fn edges_map_keeps_uniform_shape() {
    let doubled = Edges::all(5).map(|v: i32| v * 2);
    assert_eq!(doubled, Edges::all(10));
    let shifted = Edges::new(1, 2, 3, 4).map(|v: i32| v + 10);
    assert_eq!(shifted, Edges::new(11, 12, 13, 14));
    let units = Edges::new(1, 0, 1, 0).map(Unit::cells);
    assert_eq!(units.right, Unit::cells(0));
}

#[test]
fn edges_sums_and_predicate() {
    let e = Edges::new(1, 2, 3, 4);
    assert_eq!(e.horizontal_sum(), 6);
    assert_eq!(e.vertical_sum(), 4);
    assert!(e.all_satisfy(|v| v > 0));
    assert!(!e.all_satisfy(|v| v < 4));
    assert_eq!(Edges::new(1, 2, 3, 4), Edges { top: 1, right: 2, bottom: 3, left: 4 });
}

// --- FontStyle ---

#[test]
fn font_style_combine() {
    let s = FontStyle::BOLD() | FontStyle::ITALIC();
    assert!(s.has(FontStyle::BOLD()));
    assert!(s.has(FontStyle::ITALIC()));
    assert!(!s.has(FontStyle::UNDERLINE()));
}

#[test]
fn font_style_remove() {
    let s = (FontStyle::BOLD() | FontStyle::ITALIC()).without(FontStyle::ITALIC());
    assert!(s.has(FontStyle::BOLD()));
    assert!(!s.has(FontStyle::ITALIC()));
}

#[test]
fn font_style_is_normal() {
    assert!(FontStyle::NORMAL().is_normal());
    assert!(!FontStyle::BOLD().is_normal());
    assert!(FontStyle::BOLD().without(FontStyle::BOLD()).is_normal());
}

#[test]
fn font_style_bit_algebra() {
    let all = FontStyle::BOLD()
        .with(FontStyle::ITALIC())
        .with(FontStyle::UNDERLINE())
        .with(FontStyle::BLINK())
        .with(FontStyle::STRIKETHROUGH())
        .with(FontStyle::DIM());
    assert_eq!(all, FontStyle(0b0011_1111));
    assert_eq!(all.without(FontStyle::BLINK()), FontStyle(0b0011_0111));
    let a = FontStyle::BOLD() | FontStyle::DIM();
    let b = FontStyle::ITALIC();
    assert_eq!(a | b, b | a);
    assert_eq!(a | a, a);
    assert_eq!((a | b) & a, a);
    assert!(a.has_any(FontStyle::DIM() | FontStyle::BLINK()));
    assert!(!a.has_any(FontStyle::ITALIC()));
    let mut c = FontStyle::NORMAL();
    c |= FontStyle::UNDERLINE();
    assert_eq!(c, FontStyle::UNDERLINE());
    assert!(a.has(FontStyle::NORMAL()));
}

// --- Border ---

#[test]
fn border_is_none() {
    assert!(Border::NONE().is_none());
    assert!(!Border::SOLID().is_none());
}

#[test]
fn border_with_color() {
    let b = Border::ROUNDED().with_color(Color::Named(NamedColor::Cyan));
    assert_eq!(b.style, BorderStyle::Rounded);
    assert_eq!(b.color, Some(Color::Named(NamedColor::Cyan)));
}

#[test]
fn border_is_none_reads_style_only() {
    let b = Border::NONE().with_color(Color::Named(NamedColor::Red));
    assert!(b.is_none());
    assert_eq!(Border::default(), Border::NONE());
    let thick = Border { style: BorderStyle::Thick, color: None };
    assert!(!thick.is_none());
}

// --- Layout ---

#[test]
fn flex_direction_predicates() {
    assert!(FlexDirection::Row.is_horizontal());
    assert!(FlexDirection::RowReverse.is_horizontal());
    assert!(!FlexDirection::Column.is_horizontal());
    assert!(FlexDirection::Column.is_vertical());
    assert!(FlexDirection::ColumnReverse.is_vertical());
    assert!(!FlexDirection::Row.is_vertical());
    assert!(FlexDirection::RowReverse.is_reversed());
    assert!(FlexDirection::ColumnReverse.is_reversed());
    assert!(!FlexDirection::Row.is_reversed());
    assert!(!FlexDirection::Column.is_reversed());
}

#[test]
fn layout_defaults() {
    assert_eq!(Display::default(), Display::Block);
    assert_eq!(FlexDirection::default(), FlexDirection::Row);
    assert_eq!(Align::default(), Align::Stretch);
    assert_eq!(Justify::default(), Justify::Start);
    assert_eq!(TextAlign::default(), TextAlign::Left);
    assert_eq!(Overflow::default(), Overflow::Visible);
}
