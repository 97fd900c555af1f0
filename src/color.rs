use vstd::prelude::*;

verus! {

/// A color for terminal output.
///
/// Terminals support three tiers: the 16 named ANSI colors (everywhere),
/// the 256-color indexed palette, and 24-bit true color. A renderer should
/// prefer `Rgb`, fall back to `Indexed`, and then to `Named`.
/// `Inherit` and `NoColor` carry no concrete color.
#[derive(Debug, Clone, Copy, PartialEq, Eq, Hash, Structural)]
pub enum Color {
    /// One of the 16 standard ANSI colors; the shade depends on the
    /// terminal's theme.
    Named(NamedColor),
    /// A 24-bit true color `(r, g, b)`.
    Rgb(u8, u8, u8),
    /// An index into the 256-color palette: 0–15 mirror the named colors,
    /// 16–231 form a 6×6×6 color cube, 232–255 a greyscale ramp.
    Indexed(u8),
    /// Adopt the color of the nearest ancestor that declares one.
    Inherit,
    /// No color: the terminal default shows through.
    NoColor,
}

/// `#`
pub const ASCII_HASH: u8 = 0x23;
/// `0`
pub const ASCII_0: u8 = 0x30;
/// `9`
pub const ASCII_9: u8 = 0x39;
/// `A`
pub const ASCII_UPPER_A: u8 = 0x41;
/// `F`
pub const ASCII_UPPER_F: u8 = 0x46;
/// `a`
pub const ASCII_LOWER_A: u8 = 0x61;
/// `f`
pub const ASCII_LOWER_F: u8 = 0x66;

/// The value of one ASCII hexadecimal digit, either case.
pub open spec fn hex_digit(b: u8) -> Option<u8> {
    if ASCII_0 <= b <= ASCII_9 {
        Some((b - ASCII_0) as u8)
    } else if ASCII_LOWER_A <= b <= ASCII_LOWER_F {
        Some((b - ASCII_LOWER_A + 10) as u8)
    } else if ASCII_UPPER_A <= b <= ASCII_UPPER_F {
        Some((b - ASCII_UPPER_A + 10) as u8)
    } else {
        None
    }
}

/// The byte written by two hexadecimal digits, high digit first.
pub open spec fn hex_pair(hi: u8, lo: u8) -> Option<u8> {
    match (hex_digit(hi), hex_digit(lo)) {
        (Some(h), Some(l)) => Some((h * 16 + l) as u8),
        _ => None,
    }
}

/// The color that a `#RRGGBB` token denotes: exactly seven bytes, a `#`
/// and six hexadecimal digits of either case. Anything else denotes none.
pub open spec fn hex_color(s: Seq<u8>) -> Option<Color> {
    if s.len() == 7 && s[0] == ASCII_HASH {
        match (hex_pair(s[1], s[2]), hex_pair(s[3], s[4]), hex_pair(s[5], s[6])) {
            (Some(r), Some(g), Some(b)) => Some(Color::Rgb(r, g, b)),
            _ => None,
        }
    } else {
        None
    }
}

impl Color {
    /// Carries no concrete color: `Inherit` or `NoColor`.
    pub open spec fn abstract_color(self) -> bool {
        self is Inherit || self is NoColor
    }

    /// A true-color value.
    pub fn rgb(r: u8, g: u8, b: u8) -> (c: Color)
        ensures
            c == Color::Rgb(r, g, b),
    {
        Color::Rgb(r, g, b)
    }

    /// A 256-palette indexed color.
    pub fn indexed(i: u8) -> (c: Color)
        ensures
            c == Color::Indexed(i),
    {
        Color::Indexed(i)
    }

    /// Decodes a `#RRGGBB` token.
    ///
    /// Accepts exactly seven ASCII bytes, the leading `#` included, with
    /// hexadecimal digits of either case. Any other input gives `None`;
    /// the function never panics, so it is safe wherever failure must be
    /// silent.
    pub fn from_hex_bytes(bytes: &[u8]) -> (c: Option<Color>)
        ensures
            c == hex_color(bytes@),
    {
        if bytes.len() != 7 || bytes[0] != ASCII_HASH {
            return None;
        }
        let r = hex_byte(bytes[1], bytes[2]);
        let g = hex_byte(bytes[3], bytes[4]);
        let b = hex_byte(bytes[5], bytes[6]);
        match (r, g, b) {
            (Some(r), Some(g), Some(b)) => Some(Color::Rgb(r, g, b)),
            _ => None,
        }
    }

    /// `true` for `Inherit` and `NoColor`.
    pub fn is_abstract(self) -> (r: bool)
        ensures
            r == self.abstract_color(),
    {
        match self {
            Color::Inherit | Color::NoColor => true,
            _ => false,
        }
    }
}

/// Decodes one ASCII hexadecimal digit into 0–15.
fn hex_nibble(b: u8) -> (r: Option<u8>)
    ensures
        r == hex_digit(b),
        r matches Some(v) ==> v < 16,
{
    if ASCII_0 <= b && b <= ASCII_9 {
        Some(b - ASCII_0)
    } else if ASCII_LOWER_A <= b && b <= ASCII_LOWER_F {
        Some(b - ASCII_LOWER_A + 10)
    } else if ASCII_UPPER_A <= b && b <= ASCII_UPPER_F {
        Some(b - ASCII_UPPER_A + 10)
    } else {
        None
    }
}

/// Combines two hexadecimal digits, high first, into one byte.
fn hex_byte(hi: u8, lo: u8) -> (r: Option<u8>)
    ensures
        r == hex_pair(hi, lo),
{
    match (hex_nibble(hi), hex_nibble(lo)) {
        (Some(h), Some(l)) => Some(h * 16 + l),
        _ => None,
    }
}

/// The 16 standard ANSI terminal colors, in the order of their escape-code
/// indices 0–15.
#[derive(Debug, Clone, Copy, PartialEq, Eq, Hash, Structural)]
pub enum NamedColor {
    Black,
    Red,
    Green,
    Yellow,
    Blue,
    Magenta,
    Cyan,
    White,
    /// Usually rendered as dark grey.
    BrightBlack,
    BrightRed,
    BrightGreen,
    BrightYellow,
    BrightBlue,
    BrightMagenta,
    BrightCyan,
    BrightWhite,
}

impl NamedColor {
    /// The ANSI palette index of the color.
    pub open spec fn index(self) -> u8 {
        match self {
            NamedColor::Black => 0,
            NamedColor::Red => 1,
            NamedColor::Green => 2,
            NamedColor::Yellow => 3,
            NamedColor::Blue => 4,
            NamedColor::Magenta => 5,
            NamedColor::Cyan => 6,
            NamedColor::White => 7,
            NamedColor::BrightBlack => 8,
            NamedColor::BrightRed => 9,
            NamedColor::BrightGreen => 10,
            NamedColor::BrightYellow => 11,
            NamedColor::BrightBlue => 12,
            NamedColor::BrightMagenta => 13,
            NamedColor::BrightCyan => 14,
            NamedColor::BrightWhite => 15,
        }
    }

    /// The ANSI palette index (0–15) of this color.
    pub fn ansi_index(self) -> (r: u8)
        ensures
            r == self.index(),
            r < 16,
    {
        match self {
            NamedColor::Black => 0,
            NamedColor::Red => 1,
            NamedColor::Green => 2,
            NamedColor::Yellow => 3,
            NamedColor::Blue => 4,
            NamedColor::Magenta => 5,
            NamedColor::Cyan => 6,
            NamedColor::White => 7,
            NamedColor::BrightBlack => 8,
            NamedColor::BrightRed => 9,
            NamedColor::BrightGreen => 10,
            NamedColor::BrightYellow => 11,
            NamedColor::BrightBlue => 12,
            NamedColor::BrightMagenta => 13,
            NamedColor::BrightCyan => 14,
            NamedColor::BrightWhite => 15,
        }
    }
}

/// Distinct named colors have distinct palette indices.
pub proof fn lemma_ansi_index_injective(a: NamedColor, b: NamedColor)
    ensures
        a.index() == b.index() ==> a == b,
{
}

} // verus!
