use vstd::prelude::*;

verus! {

/// How an element lays out its children (CSS `display`).
#[derive(Debug, Clone, Copy, PartialEq, Eq, Hash, Default, Structural)]
pub enum Display {
    /// Stack children vertically, each on its own line (default).
    #[default]
    Block,
    /// Flexible box layout, along a [`FlexDirection`].
    Flex,
    /// Removed from layout: takes no space and is not rendered
    /// (CSS `display: none`).
    NoDisplay,
}

/// Main axis of a flex container (CSS `flex-direction`).
#[derive(Debug, Clone, Copy, PartialEq, Eq, Hash, Default, Structural)]
pub enum FlexDirection {
    /// Left to right (default).
    #[default]
    Row,
    /// Top to bottom.
    Column,
    /// Right to left.
    RowReverse,
    /// Bottom to top.
    ColumnReverse,
}

impl FlexDirection {
    /// The main axis is horizontal.
    pub open spec fn horizontal(self) -> bool {
        self is Row || self is RowReverse
    }

    /// The main axis is vertical.
    pub open spec fn vertical(self) -> bool {
        self is Column || self is ColumnReverse
    }

    /// Children are placed in reverse order.
    pub open spec fn reversed(self) -> bool {
        self is RowReverse || self is ColumnReverse
    }

    /// `true` for `Row` and `RowReverse`.
    pub fn is_horizontal(self) -> (r: bool)
        ensures
            r == self.horizontal(),
            r == !self.vertical(),
    {
        match self {
            FlexDirection::Row | FlexDirection::RowReverse => true,
            _ => false,
        }
    }

    /// `true` for `Column` and `ColumnReverse`.
    pub fn is_vertical(self) -> (r: bool)
        ensures
            r == self.vertical(),
            r == !self.horizontal(),
    {
        match self {
            FlexDirection::Column | FlexDirection::ColumnReverse => true,
            _ => false,
        }
    }

    /// `true` for `RowReverse` and `ColumnReverse`.
    pub fn is_reversed(self) -> (r: bool)
        ensures
            r == self.reversed(),
    {
        match self {
            FlexDirection::RowReverse | FlexDirection::ColumnReverse => true,
            _ => false,
        }
    }
}

/// Alignment of children along the cross axis (CSS `align-items`).
#[derive(Debug, Clone, Copy, PartialEq, Eq, Hash, Default, Structural)]
pub enum Align {
    /// Pack toward the start of the cross axis.
    Start,
    /// Stretch to fill the cross axis (default).
    #[default]
    Stretch,
    /// Center along the cross axis.
    Center,
    /// Pack toward the end of the cross axis.
    End,
    /// Align along the text baseline.
    Baseline,
}

/// Distribution of children along the main axis (CSS `justify-content`).
#[derive(Debug, Clone, Copy, PartialEq, Eq, Hash, Default, Structural)]
pub enum Justify {
    /// Pack toward the start (default).
    #[default]
    Start,
    /// Center along the main axis.
    Center,
    /// Pack toward the end.
    End,
    /// Equal space between children; the outer ones touch the edges.
    SpaceBetween,
    /// Equal space around each child.
    SpaceAround,
    /// Equal space before, between and after all children.
    SpaceEvenly,
}

/// Horizontal text alignment (CSS `text-align`).
#[derive(Debug, Clone, Copy, PartialEq, Eq, Hash, Default, Structural)]
pub enum TextAlign {
    /// Align to the left edge (default).
    #[default]
    Left,
    /// Center within the element's width.
    Center,
    /// Align to the right edge.
    Right,
}

/// What happens to content that overflows the element (CSS `overflow`).
#[derive(Debug, Clone, Copy, PartialEq, Eq, Hash, Default, Structural)]
pub enum Overflow {
    /// Render outside the bounds (default).
    #[default]
    Visible,
    /// Clip at the element's boundary.
    Hidden,
    /// Clip and show a scrollbar.
    Scroll,
}

} // verus!
