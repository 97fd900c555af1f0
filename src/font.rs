use vstd::prelude::*;

verus! {

/// Text modifier flags: bold, italic, underline, blink, strikethrough, dim.
///
/// A bit set in one byte, so that modifiers compose freely
/// (`FontStyle::BOLD() | FontStyle::ITALIC()`). Six bits are used; the two
/// high bits are reserved and carry no meaning.
#[derive(Debug, Clone, Copy, PartialEq, Eq, Hash, Default, Structural)]
pub struct FontStyle(pub u8);

impl FontStyle {
    /// The flags of `self` are a superset of those of `other`.
    pub open spec fn contains(self, other: FontStyle) -> bool {
        self.0 & other.0 == other.0
    }

    /// No modifiers: plain text.
    #[allow(non_snake_case)]
    pub fn NORMAL() -> (r: FontStyle)
        ensures
            r.0 == 0,
    {
        FontStyle(0)
    }

    /// Bold, increased weight.
    #[allow(non_snake_case)]
    pub fn BOLD() -> (r: FontStyle)
        ensures
            r.0 == 0b0000_0001,
    {
        FontStyle(0b0000_0001)
    }

    /// Italic or oblique.
    #[allow(non_snake_case)]
    pub fn ITALIC() -> (r: FontStyle)
        ensures
            r.0 == 0b0000_0010,
    {
        FontStyle(0b0000_0010)
    }

    /// Underline.
    #[allow(non_snake_case)]
    pub fn UNDERLINE() -> (r: FontStyle)
        ensures
            r.0 == 0b0000_0100,
    {
        FontStyle(0b0000_0100)
    }

    /// Blinking text.
    #[allow(non_snake_case)]
    pub fn BLINK() -> (r: FontStyle)
        ensures
            r.0 == 0b0000_1000,
    {
        FontStyle(0b0000_1000)
    }

    /// Strikethrough.
    #[allow(non_snake_case)]
    pub fn STRIKETHROUGH() -> (r: FontStyle)
        ensures
            r.0 == 0b0001_0000,
    {
        FontStyle(0b0001_0000)
    }

    /// Dim, reduced intensity.
    #[allow(non_snake_case)]
    pub fn DIM() -> (r: FontStyle)
        ensures
            r.0 == 0b0010_0000,
    {
        FontStyle(0b0010_0000)
    }

    /// The flags of `self` together with those of `other`.
    pub fn with(self, other: FontStyle) -> (r: FontStyle)
        ensures
            r.0 == self.0 | other.0,
    {
        FontStyle(self.0 | other.0)
    }

    /// The flags of `self` with those of `other` removed.
    pub fn without(self, other: FontStyle) -> (r: FontStyle)
        ensures
            r.0 == self.0 & !other.0,
    {
        FontStyle(self.0 & !other.0)
    }

    /// `true` if every flag of `other` is set in `self`.
    pub fn has(self, other: FontStyle) -> (r: bool)
        ensures
            r == self.contains(other),
    {
        self.0 & other.0 == other.0
    }

    /// `true` if some flag of `other` is set in `self`.
    pub fn has_any(self, other: FontStyle) -> (r: bool)
        ensures
            r == (self.0 & other.0 != 0),
    {
        self.0 & other.0 != 0
    }

    /// `true` if no flag is set.
    pub fn is_normal(self) -> (r: bool)
        ensures
            r == (self.0 == 0),
    {
        self.0 == 0
    }
}

impl core::ops::BitOr for FontStyle {
    type Output = FontStyle;

    fn bitor(self, rhs: FontStyle) -> (r: FontStyle) {
        self.with(rhs)
    }
}

impl vstd::std_specs::ops::BitOrSpecImpl for FontStyle {
    open spec fn obeys_bitor_spec() -> bool {
        true
    }

    open spec fn bitor_req(self, rhs: FontStyle) -> bool {
        true
    }

    open spec fn bitor_spec(self, rhs: FontStyle) -> FontStyle {
        FontStyle(self.0 | rhs.0)
    }
}

impl core::ops::BitAnd for FontStyle {
    type Output = FontStyle;

    fn bitand(self, rhs: FontStyle) -> (r: FontStyle) {
        FontStyle(self.0 & rhs.0)
    }
}

impl vstd::std_specs::ops::BitAndSpecImpl for FontStyle {
    open spec fn obeys_bitand_spec() -> bool {
        true
    }

    open spec fn bitand_req(self, rhs: FontStyle) -> bool {
        true
    }

    open spec fn bitand_spec(self, rhs: FontStyle) -> FontStyle {
        FontStyle(self.0 & rhs.0)
    }
}

impl core::ops::BitOrAssign for FontStyle {
    fn bitor_assign(&mut self, rhs: FontStyle)
        ensures
            final(self).0 == old(self).0 | rhs.0,
    {
        self.0 = self.0 | rhs.0;
    }
}

/// Union of flag sets is commutative, associative and idempotent.
pub proof fn lemma_with_lattice(a: FontStyle, b: FontStyle, c: FontStyle)
    ensures
        a.0 | b.0 == b.0 | a.0,
        (a.0 | b.0) | c.0 == a.0 | (b.0 | c.0),
        a.0 | a.0 == a.0,
        (a.0 | b.0) & a.0 == a.0,
{
    let x = a.0;
    let y = b.0;
    let z = c.0;
    assert(x | y == y | x) by (bit_vector);
    assert((x | y) | z == x | (y | z)) by (bit_vector);
    assert(x | x == x) by (bit_vector);
    assert((x | y) & x == x) by (bit_vector);
}

/// Removing flags clears exactly those flags: a bit is set in
/// `a.without(b)` if and only if it is set in `a` and not in `b`.
pub proof fn lemma_without_removes_exactly(a: FontStyle, b: FontStyle, i: u8)
    requires
        i < 8,
    ensures
        ((a.0 & !b.0) >> i) & 1 == 1 <==> ((a.0 >> i) & 1 == 1 && (b.0 >> i) & 1 == 0),
{
    let x = a.0;
    let y = b.0;
    assert(((x & !y) >> i) & 1 == 1 <==> ((x >> i) & 1 == 1 && (y >> i) & 1 == 0))
        by (bit_vector)
        requires
            i < 8,
    ;
}

/// After adding `b`, every flag of `b` is present, and so is every flag
/// that was present before.
pub proof fn lemma_with_has(a: FontStyle, b: FontStyle)
    ensures
        FontStyle(a.0 | b.0).contains(b),
        FontStyle(a.0 | b.0).contains(a),
        !FontStyle(a.0 & !b.0).contains(b) || b.0 == 0,
{
    let x = a.0;
    let y = b.0;
    assert((x | y) & y == y) by (bit_vector);
    assert((x | y) & x == x) by (bit_vector);
    assert((x & !y) & y == y ==> y == 0) by (bit_vector);
}

} // verus!
