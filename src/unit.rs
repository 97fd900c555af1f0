use vstd::prelude::*;

verus! {

/// A dimensional value: the sizing primitive for widths, heights, gaps,
/// padding and margins.
///
/// | Variant      | Meaning                                             |
/// |--------------|-----------------------------------------------------|
/// | `Cells(n)`   | absolute size in terminal cells (may be negative)   |
/// | `Percent(n)` | share of the parent's inner size (after padding)    |
/// | `Fill(w)`    | proportional share of the space left over           |
/// | `Auto`       | size to fit the content                             |
/// | `Unset`      | explicitly absent; distinct from a zero cell count  |
///
/// `Percent` is conventionally 0–100; larger values are accepted and mean
/// overflow, as in CSS. `Fill(0)` behaves as `Auto` for the layout solver.
#[derive(Debug, Clone, Copy, PartialEq, Eq, Hash, Structural)]
pub enum Unit {
    /// Absolute size in terminal character cells. Negative values are
    /// meaningful for offsets such as margins.
    Cells(i32),
    /// Percentage of the parent container's inner dimension.
    Percent(u8),
    /// Weight relative to sibling `Fill` values.
    Fill(u16),
    /// Size to fit the element's content.
    Auto,
    /// Logically absent: the inherited value or the layout default applies.
    Unset,
}

impl Unit {
    /// `Auto`: size to content.
    pub const AUTO: Unit = Unit::Auto;
    /// `Unset`: logically absent.
    pub const UNSET: Unit = Unit::Unset;

    /// `100%` of the parent dimension.
    #[allow(non_snake_case)]
    pub fn FULL() -> (r: Unit)
        ensures
            r == Unit::Percent(100),
    {
        Unit::Percent(100)
    }

    /// `50%` of the parent dimension.
    #[allow(non_snake_case)]
    pub fn HALF() -> (r: Unit)
        ensures
            r == Unit::Percent(50),
    {
        Unit::Percent(50)
    }

    /// Zero cells.
    #[allow(non_snake_case)]
    pub fn ZERO() -> (r: Unit)
        ensures
            r == Unit::Cells(0),
    {
        Unit::Cells(0)
    }

    /// `Fill(1)`: take the remaining space.
    #[allow(non_snake_case)]
    pub fn FILL() -> (r: Unit)
        ensures
            r == Unit::Fill(1),
    {
        Unit::Fill(1)
    }

    /// Resolvable without layout context: `Cells` or `Percent`.
    pub open spec fn definite(self) -> bool {
        self is Cells || self is Percent
    }

    /// Needs layout-time information: `Fill` or `Auto`.
    pub open spec fn intrinsic(self) -> bool {
        self is Fill || self is Auto
    }

    /// Absolute cell-count value.
    pub fn cells(n: i32) -> (r: Unit)
        ensures
            r == Unit::Cells(n),
    {
        Unit::Cells(n)
    }

    /// Percentage value.
    pub fn percent(n: u8) -> (r: Unit)
        ensures
            r == Unit::Percent(n),
    {
        Unit::Percent(n)
    }

    /// Proportional fill with the given weight.
    pub fn fill(w: u16) -> (r: Unit)
        ensures
            r == Unit::Fill(w),
    {
        Unit::Fill(w)
    }

    /// `true` for `Cells` and `Percent`.
    pub fn is_definite(self) -> (r: bool)
        ensures
            r == self.definite(),
    {
        match self {
            Unit::Cells(_) | Unit::Percent(_) => true,
            _ => false,
        }
    }

    /// `true` for `Fill` and `Auto`.
    pub fn is_intrinsic(self) -> (r: bool)
        ensures
            r == self.intrinsic(),
    {
        match self {
            Unit::Fill(_) | Unit::Auto => true,
            _ => false,
        }
    }

    /// `true` only for `Unset`.
    pub fn is_unset(self) -> (r: bool)
        ensures
            r == (self is Unset),
    {
        match self {
            Unit::Unset => true,
            _ => false,
        }
    }

    /// `Cells(n)` gives `Some(n)`, anything else `None`.
    pub fn as_cells(self) -> (r: Option<i32>)
        ensures
            r == (match self {
                Unit::Cells(n) => Some(n),
                _ => None,
            }),
    {
        match self {
            Unit::Cells(n) => Some(n),
            _ => None,
        }
    }

    /// `Percent(n)` gives `Some(n)`, anything else `None`.
    pub fn as_percent(self) -> (r: Option<u8>)
        ensures
            r == (match self {
                Unit::Percent(n) => Some(n),
                _ => None,
            }),
    {
        match self {
            Unit::Percent(n) => Some(n),
            _ => None,
        }
    }
}

/// The default unit is `Unset`, never a zero cell count: inside an edge
/// container an undeclared side must not read as "zero".
impl Default for Unit {
    fn default() -> (r: Unit)
        ensures
            r == Unit::Unset,
    {
        Unit::Unset
    }
}

/// Every unit falls in exactly one of three classes: definite, intrinsic,
/// or unset.
pub proof fn lemma_unit_classes_partition(u: Unit)
    ensures
        u.definite() ==> !u.intrinsic() && !(u is Unset),
        u.intrinsic() ==> !u.definite() && !(u is Unset),
        (u is Unset) <==> !u.definite() && !u.intrinsic(),
{
}

} // verus!
