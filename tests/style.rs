use oxidui_style::border::{Border, Edges};
use oxidui_style::color::{Color, NamedColor};
use oxidui_style::font::FontStyle;
use oxidui_style::layout::{Align, Display, FlexDirection, Justify, Overflow, TextAlign};
use oxidui_style::number::Float;
use oxidui_style::unit::Unit;
use oxidui_style::Style;

#[test]
fn merge_some_wins() {
    let mut base = Style {
        color: Some(Color::Named(NamedColor::White)),
        background: Some(Color::Named(NamedColor::Black)),
        ..Style::new()
    };
    base.merge(&Style {
        color: Some(Color::Named(NamedColor::Red)),
        ..Style::new()
    });
    assert_eq!(base.color, Some(Color::Named(NamedColor::Red)));
    assert_eq!(base.background, Some(Color::Named(NamedColor::Black)));
}

#[test]
fn merge_none_does_not_overwrite() {
    let mut base = Style {
        width: Some(Unit::cells(80)),
        ..Style::new()
    };
    base.merge(&Style::new());
    assert_eq!(base.width, Some(Unit::cells(80)));
}

#[test]
fn merged_with_is_non_mutating() {
    let base = Style {
        color: Some(Color::Named(NamedColor::White)),
        ..Style::new()
    };
    let merged = base.merged_with(&Style {
        color: Some(Color::Named(NamedColor::Red)),
        ..Style::new()
    });
    assert_eq!(base.color, Some(Color::Named(NamedColor::White)));
    assert_eq!(merged.color, Some(Color::Named(NamedColor::Red)));
}

#[test]
fn style_is_empty() {
    assert!(Style::new().is_empty());
    assert!(!Style::new().with_color(Color::NoColor).is_empty());
}

#[test]
fn builder_chain() {
    let s = Style::new()
        .with_width(Unit::FULL())
        .with_background(Color::Named(NamedColor::Blue))
        .with_font_style(FontStyle::BOLD())
        .with_border(Border::ROUNDED());

    assert_eq!(s.width, Some(Unit::FULL()));
    assert_eq!(s.background, Some(Color::Named(NamedColor::Blue)));
    assert_eq!(s.font_style, Some(FontStyle::BOLD()));
    assert_eq!(s.border, Some(Border::ROUNDED()));
    assert!(s.color.is_none());
}

#[test]
fn has_layout_and_visuals() {
    let layout = Style::new().with_width(Unit::FULL());
    assert!(layout.has_layout());
    assert!(!layout.has_visuals());

    let visual = Style::new().with_color(Color::Named(NamedColor::Red));
    assert!(!visual.has_layout());
    assert!(visual.has_visuals());
}

fn one_field_styles() -> Vec<Style> {
    let e = Edges::all(Unit::cells(1));
    let f = Float::HALF();
    vec![
        Style::new().with_width(Unit::cells(1)),
        Style::new().with_height(Unit::cells(1)),
        Style::new().with_min_width(Unit::cells(1)),
        Style::new().with_min_height(Unit::cells(1)),
        Style::new().with_max_width(Unit::cells(1)),
        Style::new().with_max_height(Unit::cells(1)),
        Style::new().with_padding(e),
        Style::new().with_margin(e),
        Style::new().with_padding_all(Unit::cells(2)),
        Style::new().with_margin_all(Unit::cells(2)),
        Style::new().with_display(Display::Flex),
        Style::new().with_flex_direction(FlexDirection::Column),
        Style::new().with_flex_grow(f),
        Style::new().with_flex_shrink(f),
        Style::new().with_align_items(Align::Center),
        Style::new().with_justify_content(Justify::SpaceBetween),
        Style::new().with_gap(Unit::cells(1)),
        Style::new().with_color(Color::Inherit),
        Style::new().with_background(Color::NoColor),
        Style::new().with_border(Border::NONE()),
        Style::new().with_opacity(f),
        Style::new().with_text_align(TextAlign::Right),
        Style::new().with_font_style(FontStyle::NORMAL()),
        Style::new().with_overflow(Overflow::Hidden),
    ]
}

#[test]
fn any_single_field_makes_style_non_empty() {
    for s in one_field_styles() {
        assert!(!s.is_empty(), "{s:?}");
    }
    assert_eq!(Style::new(), Style::default());
}

#[test]
fn layout_and_visual_groups() {
    let styles = one_field_styles();
    let layout: Vec<bool> = styles.iter().map(|s| s.has_layout()).collect();
    let visuals: Vec<bool> = styles.iter().map(|s| s.has_visuals()).collect();
    assert_eq!(
        layout,
        vec![
            true, true, true, true, true, true, true, true, true, true, false, false, false,
            false, false, false, true, false, false, false, false, false, false, false
        ]
    );
    assert_eq!(
        visuals,
        vec![
            false, false, false, false, false, false, false, false, false, false, false, false,
            false, false, false, false, false, true, true, true, true, true, true, false
        ]
    );
}

#[test]
fn padding_all_is_uniform() {
    let s = Style::new().with_padding_all(Unit::cells(2)).with_margin_all(Unit::AUTO);
    assert_eq!(s.padding, Some(Edges::all(Unit::cells(2))));
    assert_eq!(s.margin, Some(Edges::new(Unit::AUTO, Unit::AUTO, Unit::AUTO, Unit::AUTO)));
}

#[test]
fn merge_is_right_biased_per_field() {
    let a = Style::new()
        .with_width(Unit::cells(10))
        .with_color(Color::Named(NamedColor::White))
        .with_gap(Unit::cells(1));
    let b = Style::new()
        .with_width(Unit::percent(50))
        .with_opacity(Float::HALF())
        .with_gap(Unit::UNSET);
    let m = a.merged_with(&b);
    assert_eq!(m.width, Some(Unit::percent(50)));
    assert_eq!(m.color, Some(Color::Named(NamedColor::White)));
    assert_eq!(m.opacity, Some(Float::HALF()));
    assert_eq!(m.gap, Some(Unit::UNSET));
    assert_eq!(m.height, None);
    let mut c = a;
    c.merge(&b);
    assert_eq!(c, m);
    assert_eq!(b, Style::new().with_width(Unit::percent(50)).with_opacity(Float::HALF()).with_gap(Unit::UNSET));
}

#[test]
fn cascade_is_associative_and_later_wins() {
    let theme = Style::new()
        .with_color(Color::Named(NamedColor::White))
        .with_background(Color::Named(NamedColor::Black))
        .with_border(Border::SOLID());
    let component = Style::new()
        .with_color(Color::Named(NamedColor::Green))
        .with_padding_all(Unit::cells(1));
    let inline = Style::new().with_color(Color::rgb(1, 2, 3));
    let left = theme.merged_with(&component).merged_with(&inline);
    let right = theme.merged_with(&component.merged_with(&inline));
    assert_eq!(left, right);
    assert_eq!(left.color, Some(Color::rgb(1, 2, 3)));
    assert_eq!(left.background, Some(Color::Named(NamedColor::Black)));
    assert_eq!(left.padding, Some(Edges::all(Unit::cells(1))));
    assert_eq!(left.border, Some(Border::SOLID()));
    assert_eq!(left.merged_with(&inline), left);
    assert_eq!(Style::new().merged_with(&theme), theme);
    assert_eq!(theme.merged_with(&Style::new()), theme);
}
