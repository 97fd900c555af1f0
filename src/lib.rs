//! Style declarations and cascade for a terminal user interface.
//!
//! The crate models the values that describe how an element looks and how
//! it is laid out (units, colors, numeric scalars, text, four-sided edges,
//! borders, text modifiers, layout enumerations), and the aggregate
//! [`Style`] with its field-by-field cascade merge.
use vstd::prelude::*;

pub mod border;
pub mod color;
pub mod font;
pub mod layout;
pub mod number;
pub mod str;
pub mod unit;

use crate::border::{Border, Edges};
use crate::color::Color;
use crate::font::FontStyle;
use crate::layout::{Align, Display, FlexDirection, Justify, Overflow, TextAlign};
use crate::number::Float;
use crate::unit::Unit;

verus! {

/// The declaration that wins when `over` is laid on top of `base`: `over`
/// if it is present, else `base`.
pub open spec fn overlay<T>(base: Option<T>, over: Option<T>) -> Option<T> {
    if over is Some {
        over
    } else {
        base
    }
}

/// `over` if it holds a declaration, else `base`.
fn overlay_option<T: Copy>(base: Option<T>, over: Option<T>) -> (r: Option<T>)
    ensures
        r == overlay(base, over),
{
    match over {
        Some(v) => Some(v),
        None => base,
    }
}

/// The style declarations of one element.
///
/// Every field is optional, and `None` means "not declared here", which is
/// not the same as "declared with the default value". Cascading depends on
/// it: an element that does not declare `color` must not reset the color
/// it inherits. Styles are merged in increasing priority (theme, then
/// component defaults, then inline declarations), and a later declaration
/// wins field by field.
#[derive(Debug, Clone, Copy, PartialEq, Eq, Default, Structural)]
pub struct Style {
    // Box model
    /// Explicit width; absent leaves it to the layout solver.
    pub width: Option<Unit>,
    /// Explicit height.
    pub height: Option<Unit>,
    /// The element is never narrower than this.
    pub min_width: Option<Unit>,
    /// The element is never shorter than this.
    pub min_height: Option<Unit>,
    /// The element is never wider than this.
    pub max_width: Option<Unit>,
    /// The element is never taller than this.
    pub max_height: Option<Unit>,
    /// Inner spacing between border and content (CSS `padding`).
    pub padding: Option<Edges<Unit>>,
    /// Outer spacing between border and neighbours (CSS `margin`); negative
    /// cell counts overlap.
    pub margin: Option<Edges<Unit>>,

    // Layout
    /// How children are laid out (CSS `display`).
    pub display: Option<Display>,
    /// Main axis for flex layout.
    pub flex_direction: Option<FlexDirection>,
    /// Grow factor relative to flex siblings (CSS `flex-grow`).
    pub flex_grow: Option<Float>,
    /// Shrink factor when space is tight (CSS `flex-shrink`).
    pub flex_shrink: Option<Float>,
    /// Cross-axis alignment of children (CSS `align-items`).
    pub align_items: Option<Align>,
    /// Main-axis distribution of children (CSS `justify-content`).
    pub justify_content: Option<Justify>,
    /// Space between children, not at the edges (CSS `gap`).
    pub gap: Option<Unit>,

    // Visuals
    /// Foreground (text) color; children that declare none inherit it.
    pub color: Option<Color>,
    /// Background fill color, padding included.
    pub background: Option<Color>,
    /// Border appearance, one cell thick.
    pub border: Option<Border>,
    /// Opacity from 0.0 to 1.0; a terminal renders it as dimming.
    pub opacity: Option<Float>,

    // Typography
    /// Horizontal text alignment (CSS `text-align`).
    pub text_align: Option<TextAlign>,
    /// Text modifiers: bold, italic, underline, ...
    pub font_style: Option<FontStyle>,

    // Overflow
    /// What happens to overflowing content (CSS `overflow`).
    pub overflow: Option<Overflow>,
}

impl Style {
    /// The style with no declaration at all.
    pub open spec fn undeclared() -> Style {
        Style {
            width: None,
            height: None,
            min_width: None,
            min_height: None,
            max_width: None,
            max_height: None,
            padding: None,
            margin: None,
            display: None,
            flex_direction: None,
            flex_grow: None,
            flex_shrink: None,
            align_items: None,
            justify_content: None,
            gap: None,
            color: None,
            background: None,
            border: None,
            opacity: None,
            text_align: None,
            font_style: None,
            overflow: None,
        }
    }

    /// `other` laid on top of `self`: field by field, `other`'s declaration
    /// where it has one, else `self`'s.
    pub open spec fn merge_spec(self, other: Style) -> Style {
        Style {
            width: overlay(self.width, other.width),
            height: overlay(self.height, other.height),
            min_width: overlay(self.min_width, other.min_width),
            min_height: overlay(self.min_height, other.min_height),
            max_width: overlay(self.max_width, other.max_width),
            max_height: overlay(self.max_height, other.max_height),
            padding: overlay(self.padding, other.padding),
            margin: overlay(self.margin, other.margin),
            display: overlay(self.display, other.display),
            flex_direction: overlay(self.flex_direction, other.flex_direction),
            flex_grow: overlay(self.flex_grow, other.flex_grow),
            flex_shrink: overlay(self.flex_shrink, other.flex_shrink),
            align_items: overlay(self.align_items, other.align_items),
            justify_content: overlay(self.justify_content, other.justify_content),
            gap: overlay(self.gap, other.gap),
            color: overlay(self.color, other.color),
            background: overlay(self.background, other.background),
            border: overlay(self.border, other.border),
            opacity: overlay(self.opacity, other.opacity),
            text_align: overlay(self.text_align, other.text_align),
            font_style: overlay(self.font_style, other.font_style),
            overflow: overlay(self.overflow, other.overflow),
        }
    }

    /// Some sizing, spacing or gap field is declared.
    pub open spec fn declares_layout(self) -> bool {
        self.width is Some
            || self.height is Some
            || self.min_width is Some
            || self.min_height is Some
            || self.max_width is Some
            || self.max_height is Some
            || self.padding is Some
            || self.margin is Some
            || self.gap is Some
    }

    /// Some color, border, opacity, text alignment or font style field is
    /// declared.
    pub open spec fn declares_visuals(self) -> bool {
        self.color is Some
            || self.background is Some
            || self.border is Some
            || self.opacity is Some
            || self.text_align is Some
            || self.font_style is Some
    }

    /// The style with no declaration at all.
    pub fn new() -> (r: Style)
        ensures
            r == Style::undeclared(),
    {
        Style {
            width: None,
            height: None,
            min_width: None,
            min_height: None,
            max_width: None,
            max_height: None,
            padding: None,
            margin: None,
            display: None,
            flex_direction: None,
            flex_grow: None,
            flex_shrink: None,
            align_items: None,
            justify_content: None,
            gap: None,
            color: None,
            background: None,
            border: None,
            opacity: None,
            text_align: None,
            font_style: None,
            overflow: None,
        }
    }

    /// Lays `other` on top of `self`, in place.
    ///
    /// For each field, a declaration in `other` replaces the one in `self`;
    /// a field that `other` does not declare leaves `self` unchanged. Later
    /// declarations win and absence never resets. `other` is not changed.
    pub fn merge(&mut self, other: &Style)
        ensures
            *final(self) == old(self).merge_spec(*other),
    {
        *self = Style {
            width: overlay_option(self.width, other.width),
            height: overlay_option(self.height, other.height),
            min_width: overlay_option(self.min_width, other.min_width),
            min_height: overlay_option(self.min_height, other.min_height),
            max_width: overlay_option(self.max_width, other.max_width),
            max_height: overlay_option(self.max_height, other.max_height),
            padding: overlay_option(self.padding, other.padding),
            margin: overlay_option(self.margin, other.margin),
            display: overlay_option(self.display, other.display),
            flex_direction: overlay_option(self.flex_direction, other.flex_direction),
            flex_grow: overlay_option(self.flex_grow, other.flex_grow),
            flex_shrink: overlay_option(self.flex_shrink, other.flex_shrink),
            align_items: overlay_option(self.align_items, other.align_items),
            justify_content: overlay_option(self.justify_content, other.justify_content),
            gap: overlay_option(self.gap, other.gap),
            color: overlay_option(self.color, other.color),
            background: overlay_option(self.background, other.background),
            border: overlay_option(self.border, other.border),
            opacity: overlay_option(self.opacity, other.opacity),
            text_align: overlay_option(self.text_align, other.text_align),
            font_style: overlay_option(self.font_style, other.font_style),
            overflow: overlay_option(self.overflow, other.overflow),
        };
    }

    /// `other` laid on top of `self`, as a new value; neither operand
    /// changes.
    pub fn merged_with(&self, other: &Style) -> (r: Style)
        ensures
            r == self.merge_spec(*other),
    {
        let mut r = *self;
        r.merge(other);
        r
    }

    /// The same style with `width` declared as `v`.
    pub fn with_width(self, v: Unit) -> (r: Style)
        ensures
            r == (Style { width: Some(v), ..self }),
            !r.is_empty_spec(),
    {
        Style { width: Some(v), ..self }
    }

    /// The same style with `height` declared as `v`.
    pub fn with_height(self, v: Unit) -> (r: Style)
        ensures
            r == (Style { height: Some(v), ..self }),
            !r.is_empty_spec(),
    {
        Style { height: Some(v), ..self }
    }

    /// The same style with `min_width` declared as `v`.
    pub fn with_min_width(self, v: Unit) -> (r: Style)
        ensures
            r == (Style { min_width: Some(v), ..self }),
            !r.is_empty_spec(),
    {
        Style { min_width: Some(v), ..self }
    }

    /// The same style with `min_height` declared as `v`.
    pub fn with_min_height(self, v: Unit) -> (r: Style)
        ensures
            r == (Style { min_height: Some(v), ..self }),
            !r.is_empty_spec(),
    {
        Style { min_height: Some(v), ..self }
    }

    /// The same style with `max_width` declared as `v`.
    pub fn with_max_width(self, v: Unit) -> (r: Style)
        ensures
            r == (Style { max_width: Some(v), ..self }),
            !r.is_empty_spec(),
    {
        Style { max_width: Some(v), ..self }
    }

    /// The same style with `max_height` declared as `v`.
    pub fn with_max_height(self, v: Unit) -> (r: Style)
        ensures
            r == (Style { max_height: Some(v), ..self }),
            !r.is_empty_spec(),
    {
        Style { max_height: Some(v), ..self }
    }

    /// The same style with `padding` declared as `v`.
    pub fn with_padding(self, v: Edges<Unit>) -> (r: Style)
        ensures
            r == (Style { padding: Some(v), ..self }),
            !r.is_empty_spec(),
    {
        Style { padding: Some(v), ..self }
    }

    /// The same style with `margin` declared as `v`.
    pub fn with_margin(self, v: Edges<Unit>) -> (r: Style)
        ensures
            r == (Style { margin: Some(v), ..self }),
            !r.is_empty_spec(),
    {
        Style { margin: Some(v), ..self }
    }

    /// The same style with the same padding declared on all four sides.
    pub fn with_padding_all(self, v: Unit) -> (r: Style)
        ensures
            r == (Style { padding: Some(Edges { top: v, right: v, bottom: v, left: v }), ..self }),
            !r.is_empty_spec(),
    {
        self.with_padding(Edges::all(v))
    }

    /// The same style with the same margin declared on all four sides.
    pub fn with_margin_all(self, v: Unit) -> (r: Style)
        ensures
            r == (Style { margin: Some(Edges { top: v, right: v, bottom: v, left: v }), ..self }),
            !r.is_empty_spec(),
    {
        self.with_margin(Edges::all(v))
    }

    /// The same style with `display` declared as `v`.
    pub fn with_display(self, v: Display) -> (r: Style)
        ensures
            r == (Style { display: Some(v), ..self }),
            !r.is_empty_spec(),
    {
        Style { display: Some(v), ..self }
    }

    /// The same style with `flex_direction` declared as `v`.
    pub fn with_flex_direction(self, v: FlexDirection) -> (r: Style)
        ensures
            r == (Style { flex_direction: Some(v), ..self }),
            !r.is_empty_spec(),
    {
        Style { flex_direction: Some(v), ..self }
    }

    /// The same style with `flex_grow` declared as `v`.
    pub fn with_flex_grow(self, v: Float) -> (r: Style)
        ensures
            r == (Style { flex_grow: Some(v), ..self }),
            !r.is_empty_spec(),
    {
        Style { flex_grow: Some(v), ..self }
    }

    /// The same style with `flex_shrink` declared as `v`.
    pub fn with_flex_shrink(self, v: Float) -> (r: Style)
        ensures
            r == (Style { flex_shrink: Some(v), ..self }),
            !r.is_empty_spec(),
    {
        Style { flex_shrink: Some(v), ..self }
    }

    /// The same style with `align_items` declared as `v`.
    pub fn with_align_items(self, v: Align) -> (r: Style)
        ensures
            r == (Style { align_items: Some(v), ..self }),
            !r.is_empty_spec(),
    {
        Style { align_items: Some(v), ..self }
    }

    /// The same style with `justify_content` declared as `v`.
    pub fn with_justify_content(self, v: Justify) -> (r: Style)
        ensures
            r == (Style { justify_content: Some(v), ..self }),
            !r.is_empty_spec(),
    {
        Style { justify_content: Some(v), ..self }
    }

    /// The same style with `gap` declared as `v`.
    pub fn with_gap(self, v: Unit) -> (r: Style)
        ensures
            r == (Style { gap: Some(v), ..self }),
            !r.is_empty_spec(),
    {
        Style { gap: Some(v), ..self }
    }

    /// The same style with `color` declared as `v`.
    pub fn with_color(self, v: Color) -> (r: Style)
        ensures
            r == (Style { color: Some(v), ..self }),
            !r.is_empty_spec(),
    {
        Style { color: Some(v), ..self }
    }

    /// The same style with `background` declared as `v`.
    pub fn with_background(self, v: Color) -> (r: Style)
        ensures
            r == (Style { background: Some(v), ..self }),
            !r.is_empty_spec(),
    {
        Style { background: Some(v), ..self }
    }

    /// The same style with `border` declared as `v`.
    pub fn with_border(self, v: Border) -> (r: Style)
        ensures
            r == (Style { border: Some(v), ..self }),
            !r.is_empty_spec(),
    {
        Style { border: Some(v), ..self }
    }

    /// The same style with `opacity` declared as `v`.
    pub fn with_opacity(self, v: Float) -> (r: Style)
        ensures
            r == (Style { opacity: Some(v), ..self }),
            !r.is_empty_spec(),
    {
        Style { opacity: Some(v), ..self }
    }

    /// The same style with `text_align` declared as `v`.
    pub fn with_text_align(self, v: TextAlign) -> (r: Style)
        ensures
            r == (Style { text_align: Some(v), ..self }),
            !r.is_empty_spec(),
    {
        Style { text_align: Some(v), ..self }
    }

    /// The same style with `font_style` declared as `v`.
    pub fn with_font_style(self, v: FontStyle) -> (r: Style)
        ensures
            r == (Style { font_style: Some(v), ..self }),
            !r.is_empty_spec(),
    {
        Style { font_style: Some(v), ..self }
    }

    /// The same style with `overflow` declared as `v`.
    pub fn with_overflow(self, v: Overflow) -> (r: Style)
        ensures
            r == (Style { overflow: Some(v), ..self }),
            !r.is_empty_spec(),
    {
        Style { overflow: Some(v), ..self }
    }

    /// No field is declared.
    pub open spec fn is_empty_spec(self) -> bool {
        self.width is None
            && self.height is None
            && self.min_width is None
            && self.min_height is None
            && self.max_width is None
            && self.max_height is None
            && self.padding is None
            && self.margin is None
            && self.display is None
            && self.flex_direction is None
            && self.flex_grow is None
            && self.flex_shrink is None
            && self.align_items is None
            && self.justify_content is None
            && self.gap is None
            && self.color is None
            && self.background is None
            && self.border is None
            && self.opacity is None
            && self.text_align is None
            && self.font_style is None
            && self.overflow is None
    }

    /// `true` if no field is declared.
    pub fn is_empty(&self) -> (r: bool)
        ensures
            r == self.is_empty_spec(),
            r == (*self == Style::undeclared()),
    {
        self.width.is_none()
            && self.height.is_none()
            && self.min_width.is_none()
            && self.min_height.is_none()
            && self.max_width.is_none()
            && self.max_height.is_none()
            && self.padding.is_none()
            && self.margin.is_none()
            && self.display.is_none()
            && self.flex_direction.is_none()
            && self.flex_grow.is_none()
            && self.flex_shrink.is_none()
            && self.align_items.is_none()
            && self.justify_content.is_none()
            && self.gap.is_none()
            && self.color.is_none()
            && self.background.is_none()
            && self.border.is_none()
            && self.opacity.is_none()
            && self.text_align.is_none()
            && self.font_style.is_none()
            && self.overflow.is_none()
    }

    /// `true` if some sizing, spacing or gap field is declared.
    pub fn has_layout(&self) -> (r: bool)
        ensures
            r == self.declares_layout(),
    {
        self.width.is_some()
            || self.height.is_some()
            || self.min_width.is_some()
            || self.min_height.is_some()
            || self.max_width.is_some()
            || self.max_height.is_some()
            || self.padding.is_some()
            || self.margin.is_some()
            || self.gap.is_some()
    }

    /// `true` if some color, border, opacity, text alignment or font style
    /// field is declared.
    pub fn has_visuals(&self) -> (r: bool)
        ensures
            r == self.declares_visuals(),
    {
        self.color.is_some()
            || self.background.is_some()
            || self.border.is_some()
            || self.opacity.is_some()
            || self.text_align.is_some()
            || self.font_style.is_some()
    }
}

/// Merging is associative: laying `b` then `c` on `a` is the same as laying
/// on `a` the result of laying `c` on `b`. A cascade of several layers is
/// therefore a repeated right-biased substitution, whatever the grouping.
pub proof fn lemma_merge_associative(a: Style, b: Style, c: Style)
    ensures
        a.merge_spec(b).merge_spec(c) == a.merge_spec(b.merge_spec(c)),
{
    lemma_overlay_associative(a.width, b.width, c.width);
    lemma_overlay_associative(a.height, b.height, c.height);
    lemma_overlay_associative(a.min_width, b.min_width, c.min_width);
    lemma_overlay_associative(a.min_height, b.min_height, c.min_height);
    lemma_overlay_associative(a.max_width, b.max_width, c.max_width);
    lemma_overlay_associative(a.max_height, b.max_height, c.max_height);
    lemma_overlay_associative(a.padding, b.padding, c.padding);
    lemma_overlay_associative(a.margin, b.margin, c.margin);
    lemma_overlay_associative(a.display, b.display, c.display);
    lemma_overlay_associative(a.flex_direction, b.flex_direction, c.flex_direction);
    lemma_overlay_associative(a.flex_grow, b.flex_grow, c.flex_grow);
    lemma_overlay_associative(a.flex_shrink, b.flex_shrink, c.flex_shrink);
    lemma_overlay_associative(a.align_items, b.align_items, c.align_items);
    lemma_overlay_associative(a.justify_content, b.justify_content, c.justify_content);
    lemma_overlay_associative(a.gap, b.gap, c.gap);
    lemma_overlay_associative(a.color, b.color, c.color);
    lemma_overlay_associative(a.background, b.background, c.background);
    lemma_overlay_associative(a.border, b.border, c.border);
    lemma_overlay_associative(a.opacity, b.opacity, c.opacity);
    lemma_overlay_associative(a.text_align, b.text_align, c.text_align);
    lemma_overlay_associative(a.font_style, b.font_style, c.font_style);
    lemma_overlay_associative(a.overflow, b.overflow, c.overflow);
}

proof fn lemma_overlay_associative<T>(a: Option<T>, b: Option<T>, c: Option<T>)
    ensures
        overlay(overlay(a, b), c) == overlay(a, overlay(b, c)),
{
}

/// The style with no declaration changes nothing on either side of a merge.
pub proof fn lemma_merge_identity(a: Style)
    ensures
        a.merge_spec(Style::undeclared()) == a,
        Style::undeclared().merge_spec(a) == a,
{
}

/// Laying the same style on twice is the same as laying it on once.
pub proof fn lemma_merge_idempotent(a: Style, b: Style)
    ensures
        a.merge_spec(b).merge_spec(b) == a.merge_spec(b),
{
}

/// A style is empty exactly when it is the style with no declaration, and
/// an empty style declares neither layout nor visuals.
pub proof fn lemma_empty_is_undeclared(a: Style)
    ensures
        a.is_empty_spec() <==> a == Style::undeclared(),
        a.is_empty_spec() ==> !a.declares_layout() && !a.declares_visuals(),
{
}

} // verus!
