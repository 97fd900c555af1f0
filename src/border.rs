use vstd::prelude::*;

use crate::color::Color;

verus! {

/// Four-sided shorthand for padding, margins, per-side colors and the like:
/// top, right, bottom, left, as in CSS.
///
/// | CSS                        | constructor                          |
/// |----------------------------|--------------------------------------|
/// | `padding: 8px`             | `Edges::all(Unit::cells(8))`         |
/// | `padding: 4px 8px`         | `Edges::symmetric(c(4), c(8))`       |
/// | `padding: 1px 2px 3px 4px` | `Edges::new(c(1), c(2), c(3), c(4))` |
#[derive(Debug, Clone, Copy, PartialEq, Eq, Hash, Default, Structural)]
pub struct Edges<T: Copy> {
    /// Top side.
    pub top: T,
    /// Right side.
    pub right: T,
    /// Bottom side.
    pub bottom: T,
    /// Left side.
    pub left: T,
}

impl<T: Copy> Edges<T> {
    /// All four sides hold `v`.
    pub open spec fn uniform(self, v: T) -> bool {
        self.top == v && self.right == v && self.bottom == v && self.left == v
    }

    /// All four sides equal (CSS `padding: 8px`).
    pub fn all(v: T) -> (r: Edges<T>)
        ensures
            r.uniform(v),
    {
        Edges { top: v, right: v, bottom: v, left: v }
    }

    /// `vertical` on top and bottom, `horizontal` on left and right
    /// (CSS `padding: 4px 8px`).
    pub fn symmetric(vertical: T, horizontal: T) -> (r: Edges<T>)
        ensures
            r == (Edges { top: vertical, right: horizontal, bottom: vertical, left: horizontal }),
    {
        Edges { top: vertical, right: horizontal, bottom: vertical, left: horizontal }
    }

    /// Each side on its own (CSS `padding: top right bottom left`).
    pub fn new(top: T, right: T, bottom: T, left: T) -> (r: Edges<T>)
        ensures
            r == (Edges { top, right, bottom, left }),
    {
        Edges { top, right, bottom, left }
    }

    /// Applies `f` to each side, keeping the shape: side for side, the
    /// result is what `f` returns on the same side.
    pub fn map<U: Copy, F: Fn(T) -> U>(self, f: F) -> (r: Edges<U>)
        requires
            f.requires((self.top,)),
            f.requires((self.right,)),
            f.requires((self.bottom,)),
            f.requires((self.left,)),
        ensures
            f.ensures((self.top,), r.top),
            f.ensures((self.right,), r.right),
            f.ensures((self.bottom,), r.bottom),
            f.ensures((self.left,), r.left),
    {
        Edges { top: f(self.top), right: f(self.right), bottom: f(self.bottom), left: f(self.left) }
    }

    /// `true` if all four sides satisfy `f`.
    ///
    /// The sides are tested top, right, bottom, left; testing stops at the
    /// first side that fails.
    pub fn all_satisfy<F: Fn(T) -> bool>(&self, f: F) -> (r: bool)
        requires
            f.requires((self.top,)),
            f.requires((self.right,)),
            f.requires((self.bottom,)),
            f.requires((self.left,)),
        ensures
            r ==> f.ensures((self.top,), true) && f.ensures((self.right,), true) && f.ensures(
                (self.bottom,),
                true,
            ) && f.ensures((self.left,), true),
            !r ==> f.ensures((self.top,), false) || f.ensures((self.right,), false) || f.ensures(
                (self.bottom,),
                false,
            ) || f.ensures((self.left,), false),
    {
        f(self.top) && f(self.right) && f(self.bottom) && f(self.left)
    }
}

impl<T: Copy + Into<i32>> Edges<T> {
    /// Total horizontal extent, `left + right`, in cells: the sum of what
    /// `into` gives for the two sides.
    pub fn horizontal_sum(self) -> (r: i32)
        requires
            forall|a: i32, b: i32|
                call_ensures(T::into, (self.left,), a) && call_ensures(T::into, (self.right,), b)
                    ==> i32::MIN <= a + b <= i32::MAX,
        ensures
            exists|a: i32, b: i32|
                call_ensures(T::into, (self.left,), a) && call_ensures(T::into, (self.right,), b)
                    && r == a + b,
    {
        let l: i32 = self.left.into();
        let r: i32 = self.right.into();
        l + r
    }

    /// Total vertical extent, `top + bottom`, in cells: the sum of what
    /// `into` gives for the two sides.
    pub fn vertical_sum(self) -> (r: i32)
        requires
            forall|a: i32, b: i32|
                call_ensures(T::into, (self.top,), a) && call_ensures(T::into, (self.bottom,), b)
                    ==> i32::MIN <= a + b <= i32::MAX,
        ensures
            exists|a: i32, b: i32|
                call_ensures(T::into, (self.top,), a) && call_ensures(T::into, (self.bottom,), b)
                    && r == a + b,
    {
        let t: i32 = self.top.into();
        let b: i32 = self.bottom.into();
        t + b
    }
}

/// Mapping a function with a single result over a uniform container gives a
/// uniform container of that result.
pub proof fn lemma_map_keeps_uniform<T: Copy, U: Copy, F: Fn(T) -> U>(
    e: Edges<T>,
    v: T,
    w: U,
    f: F,
    r: Edges<U>,
)
    requires
        e.uniform(v),
        forall|u: U| #[trigger] f.ensures((v,), u) ==> u == w,
        f.ensures((e.top,), r.top),
        f.ensures((e.right,), r.right),
        f.ensures((e.bottom,), r.bottom),
        f.ensures((e.left,), r.left),
    ensures
        r.uniform(w),
{
}

/// A border declaration: a line style and an optional color override.
///
/// A terminal border is one cell thick, so there is no width. Without a
/// color the border takes the element's foreground color.
#[derive(Debug, Clone, Copy, PartialEq, Eq, Hash, Default, Structural)]
pub struct Border {
    /// Which family of box-drawing characters to use.
    pub style: BorderStyle,
    /// Color of the border characters; `None` uses the foreground color.
    pub color: Option<Color>,
}

impl Border {
    /// Thin lines, square corners, no color override.
    #[allow(non_snake_case)]
    pub fn SOLID() -> (b: Border)
        ensures
            b == (Border { style: BorderStyle::Solid, color: None }),
    {
        Border { style: BorderStyle::Solid, color: None }
    }

    /// Thin lines, rounded corners, no color override.
    #[allow(non_snake_case)]
    pub fn ROUNDED() -> (b: Border)
        ensures
            b == (Border { style: BorderStyle::Rounded, color: None }),
    {
        Border { style: BorderStyle::Rounded, color: None }
    }

    /// No border.
    #[allow(non_snake_case)]
    pub fn NONE() -> (b: Border)
        ensures
            b == (Border { style: BorderStyle::NoBorder, color: None }),
    {
        Border { style: BorderStyle::NoBorder, color: None }
    }

    /// The same border with `color` as its color override.
    pub fn with_color(self, color: Color) -> (b: Border)
        ensures
            b == (Border { style: self.style, color: Some(color) }),
    {
        Border { style: self.style, color: Some(color) }
    }

    /// `true` if no border is drawn; depends on the style only.
    pub fn is_none(self) -> (r: bool)
        ensures
            r == (self.style is NoBorder),
    {
        match self.style {
            BorderStyle::NoBorder => true,
            _ => false,
        }
    }
}

/// Which family of box-drawing characters a border uses.
///
/// | Variant    | Characters    |
/// |------------|---------------|
/// | `NoBorder` | nothing drawn |
/// | `Solid`    | `─ │ ┌ ┐ └ ┘` |
/// | `Rounded`  | `─ │ ╭ ╮ ╰ ╯` |
/// | `Double`   | `═ ║ ╔ ╗ ╚ ╝` |
/// | `Thick`    | `━ ┃ ┏ ┓ ┗ ┛` |
/// | `Dashed`   | `╌ ╎ ┌ ┐ └ ┘` |
#[derive(Debug, Clone, Copy, PartialEq, Eq, Hash, Default, Structural)]
pub enum BorderStyle {
    /// No border (default).
    #[default]
    NoBorder,
    /// Thin lines, square corners.
    Solid,
    /// Thin lines, rounded corners.
    Rounded,
    /// Double lines.
    Double,
    /// Thick lines.
    Thick,
    /// Dashed lines.
    Dashed,
}

} // verus!
