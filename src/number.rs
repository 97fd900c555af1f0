use vstd::prelude::*;

use vstd::string::StrSliceExecFns;
use vstd::string::StringExecFns;

verus! {

// ---------------------------------------------------------------------------
// Numerals
// ---------------------------------------------------------------------------

/// The digit that `c` stands for in radices up to 36: `0`–`9`, then the
/// letters of either case from 10 on. Any other character gets 36, which
/// is a digit in no radix.
pub open spec fn digit_of(c: char) -> nat {
    if '0' <= c <= '9' {
        (c as int - '0' as int) as nat
    } else if 'a' <= c <= 'z' {
        (c as int - 'a' as int + 10) as nat
    } else if 'A' <= c <= 'Z' {
        (c as int - 'A' as int + 10) as nat
    } else {
        36
    }
}

/// Every character of `s` is a digit of `radix`.
pub open spec fn all_digits(s: Seq<char>, radix: nat) -> bool {
    forall|i: int| 0 <= i < s.len() ==> #[trigger] digit_of(s[i]) < radix
}

/// The value of the digit string `s` in `radix`, most significant first.
pub open spec fn digits_value(s: Seq<char>, radix: nat) -> nat
    decreases s.len(),
{
    if s.len() == 0 {
        0
    } else {
        digits_value(s.drop_last(), radix) * radix + digit_of(s.last())
    }
}

/// The integer that `s` writes in `radix`: an optional `+` or `-` and then
/// one or more digits of the radix, nothing else.
pub open spec fn numeral_value(s: Seq<char>, radix: nat) -> Option<int> {
    if s.len() > 0 && (s[0] == '+' || s[0] == '-') {
        let body = s.drop_first();
        if body.len() > 0 && all_digits(body, radix) {
            if s[0] == '-' {
                Some(-digits_value(body, radix))
            } else {
                Some(digits_value(body, radix) as int)
            }
        } else {
            None
        }
    } else if s.len() > 0 && all_digits(s, radix) {
        Some(digits_value(s, radix) as int)
    } else {
        None
    }
}

/// The `i32` that `s` writes in `radix`; `None` when `s` is no numeral of
/// the radix or its value does not fit in an `i32`.
pub open spec fn i32_numeral(s: Seq<char>, radix: nat) -> Option<i32> {
    match numeral_value(s, radix) {
        Some(v) => if i32::MIN <= v <= i32::MAX {
            Some(v as i32)
        } else {
            None
        },
        None => None,
    }
}

/// `s` starts with the two characters `a`, `b`.
pub open spec fn starts_with2(s: Seq<char>, a: char, b: char) -> bool {
    s.len() >= 2 && s[0] == a && s[1] == b
}

/// `s` starts with one of the radix prefixes `0b`, `0o`, `0x`.
pub open spec fn has_radix_prefix(s: Seq<char>) -> bool {
    starts_with2(s, '0', 'b') || starts_with2(s, '0', 'o') || starts_with2(s, '0', 'x')
}

/// The radix that the prefix of `s` announces; 10 without a prefix.
pub open spec fn literal_radix(s: Seq<char>) -> nat {
    if starts_with2(s, '0', 'b') {
        2
    } else if starts_with2(s, '0', 'o') {
        8
    } else if starts_with2(s, '0', 'x') {
        16
    } else {
        10
    }
}

/// What follows the radix prefix of `s`, if it has one.
pub open spec fn literal_digits(s: Seq<char>) -> Seq<char> {
    if has_radix_prefix(s) {
        s.skip(2)
    } else {
        s
    }
}

/// `s` without its leading `+` or `-`, if it has one.
pub open spec fn unsigned_part(s: Seq<char>) -> Seq<char> {
    if s.len() > 0 && (s[0] == '-' || s[0] == '+') {
        s.drop_first()
    } else {
        s
    }
}

/// The value of an integer literal: at most one leading `+` or `-`, then
/// either a radix prefix (`0b` binary, `0o` octal, `0x` hexadecimal) and one
/// or more digits of that radix, or one or more decimal digits. No sign may
/// follow the leading one or the prefix. The value is that of the signed
/// digits, and there is one exactly when it fits in an `i32`.
pub open spec fn literal_value(s: Seq<char>) -> Option<i32> {
    let negative = s.len() > 0 && s[0] == '-';
    let body = unsigned_part(s);
    let radix = literal_radix(body);
    let digits = literal_digits(body);
    if digits.len() > 0 && all_digits(digits, radix) {
        let v: int = if negative {
            -digits_value(digits, radix)
        } else {
            digits_value(digits, radix) as int
        };
        if i32::MIN <= v <= i32::MAX {
            Some(v as i32)
        } else {
            None
        }
    } else {
        None
    }
}

// ---------------------------------------------------------------------------
// Rendering in a radix
// ---------------------------------------------------------------------------

/// The bit pattern of `v` read as an unsigned 32-bit number.
pub open spec fn bit_pattern(v: i32) -> nat {
    if v >= 0 {
        v as nat
    } else {
        (v + 0x1_0000_0000) as nat
    }
}

/// The character of digit `d` (below 36), with letters in upper or lower
/// case.
pub open spec fn digit_char(d: nat, upper: bool) -> char {
    if d < 10 {
        ('0' as int + d) as char
    } else if upper {
        ('A' as int + d - 10) as char
    } else {
        ('a' as int + d - 10) as char
    }
}

/// The digits of `n` in `radix`, most significant first, without leading
/// zeros; zero is the single digit `0`.
pub open spec fn radix_digits(n: nat, radix: nat, upper: bool) -> Seq<char>
    decreases n,
    when radix >= 2
    via radix_digits_decreases
{
    if n < radix {
        seq![digit_char(n, upper)]
    } else {
        radix_digits(n / radix, radix, upper).push(digit_char(n % radix, upper))
    }
}

#[via_fn]
proof fn radix_digits_decreases(n: nat, radix: nat, upper: bool) {
    if n >= radix {
        assert(n / radix < n) by (nonlinear_arith)
            requires
                radix >= 2,
                n >= radix,
        ;
    }
}

/// `std::num::ParseIntError`, the error of std's integer parsing; carried
/// through unchanged.
#[verifier::external_type_specification]
#[verifier::external_body]
pub struct ExParseIntError(std::num::ParseIntError);

/// Relies on `i32::from_str_radix`: it accepts an optional `+` or `-`
/// followed by one or more digits of the radix (`0-9`, `a-z`, `A-Z`) whose
/// value fits in an `i32`, and reports an error on anything else. It panics
/// on a radix outside 2 to 36, which `requires` rules out.
#[verifier::external_body]
fn i32_from_str_radix(s: &str, radix: u32) -> (r: Result<i32, std::num::ParseIntError>)
    requires
        2 <= radix <= 36,
    ensures
        match r {
            Ok(v) => i32_numeral(s@, radix as nat) == Some(v),
            Err(_) => i32_numeral(s@, radix as nat) is None,
        },
{
    i32::from_str_radix(s, radix)
}

/// `c` has the Unicode `White_Space` property: the ASCII tab, line feed,
/// vertical tab, form feed, carriage return and space, then U+0085, U+00A0,
/// U+1680, U+2000 to U+200A, U+2028, U+2029, U+202F, U+205F and U+3000.
pub open spec fn is_white_space(c: char) -> bool {
    let u = c as u32;
    ||| 0x09 <= u <= 0x0d
    ||| u == 0x20
    ||| u == 0x85
    ||| u == 0xa0
    ||| u == 0x1680
    ||| 0x2000 <= u <= 0x200a
    ||| u == 0x2028
    ||| u == 0x2029
    ||| u == 0x202f
    ||| u == 0x205f
    ||| u == 0x3000
}

/// `s` without its leading white space.
pub open spec fn trim_start(s: Seq<char>) -> Seq<char>
    decreases s.len(),
{
    if s.len() > 0 && is_white_space(s[0]) {
        trim_start(s.drop_first())
    } else {
        s
    }
}

/// `s` without its trailing white space.
pub open spec fn trim_end(s: Seq<char>) -> Seq<char>
    decreases s.len(),
{
    if s.len() > 0 && is_white_space(s.last()) {
        trim_end(s.drop_last())
    } else {
        s
    }
}

/// `s` without its leading and trailing white space.
pub open spec fn trimmed(s: Seq<char>) -> Seq<char> {
    trim_end(trim_start(s))
}

/// Relies on `str::trim`: the string without its leading and trailing
/// characters of the Unicode `White_Space` property.
#[verifier::external_body]
fn trim_whitespace(s: &str) -> (r: &str)
    ensures
        r@ == trimmed(s@),
{
    s.trim()
}

/// The digits of `bits` in `radix`, as [`radix_digits`] gives them.
fn radix_text(bits: u32, radix: u32, upper: bool) -> (r: String)
    requires
        2 <= radix <= 16,
    ensures
        r@ == radix_digits(bits as nat, radix as nat, upper),
    decreases bits,
{
    if bits < radix {
        String::from_str(digit_text(bits, upper))
    } else {
        proof {
            assert(bits / radix < bits) by (nonlinear_arith)
                requires
                    radix >= 2,
                    bits >= radix,
            ;
        }
        let mut out = radix_text(bits / radix, radix, upper);
        out.append(digit_text(bits % radix, upper));
        proof {
            assert(out@ =~= radix_digits((bits / radix) as nat, radix as nat, upper).push(
                digit_char((bits % radix) as nat, upper),
            ));
        }
        out
    }
}

/// The one-character text of digit `d`.
fn digit_text(d: u32, upper: bool) -> (r: &'static str)
    requires
        d < 16,
    ensures
        r@ == seq![digit_char(d as nat, upper)],
{
    let table = if upper {
        "0123456789ABCDEF"
    } else {
        "0123456789abcdef"
    };
    proof {
        reveal_strlit("0123456789ABCDEF");
        reveal_strlit("0123456789abcdef");
        assert(table@[d as int] == digit_char(d as nat, upper)) by {
            // one case per digit, so that each index is a constant
            if d == 0 {
            } else if d == 1 {
            } else if d == 2 {
            } else if d == 3 {
            } else if d == 4 {
            } else if d == 5 {
            } else if d == 6 {
            } else if d == 7 {
            } else if d == 8 {
            } else if d == 9 {
            } else if d == 10 {
            } else if d == 11 {
            } else if d == 12 {
            } else if d == 13 {
            } else if d == 14 {
            } else if d == 15 {
            }
        }
    }
    let r = table.substring_ascii(d as usize, d as usize + 1);
    proof {
        assert(r@ =~= seq![digit_char(d as nat, upper)]);
    }
    r
}

// ---------------------------------------------------------------------------
// Int
// ---------------------------------------------------------------------------

/// An integer scalar (z-index, tab order, column count, ...), stored as an
/// `i32`.
///
/// Parses decimal literals with an optional sign and the radix-prefixed
/// forms `0b1010`, `0o12` and `0xFF`.
#[derive(Debug, Clone, Copy, PartialEq, Eq, PartialOrd, Ord, Hash, Default, Structural)]
pub struct Int(pub i32);

/// Why an integer could not be parsed.
#[derive(Debug)]
pub enum IntParseError {
    /// The requested radix is outside 2 to 36.
    InvalidRadix,
    /// The text is no numeral of the radix, or its value does not fit; the
    /// inner error keeps std's detail.
    ParseIntError(std::num::ParseIntError),
}

/// The bit pattern of `v` as an unsigned number.
fn bit_pattern_of(v: i32) -> (r: u32)
    ensures
        r as nat == bit_pattern(v),
{
    if v >= 0 {
        v as u32
    } else {
        ((v as i64) + 0x1_0000_0000) as u32
    }
}

impl Int {
    /// Zero.
    #[allow(non_snake_case)]
    pub fn ZERO() -> (r: Int)
        ensures
            r.0 == 0,
    {
        Int(0)
    }

    /// One.
    #[allow(non_snake_case)]
    pub fn ONE() -> (r: Int)
        ensures
            r.0 == 1,
    {
        Int(1)
    }

    /// Wraps a raw `i32`.
    pub fn new(v: i32) -> (r: Int)
        ensures
            r.0 == v,
    {
        Int(v)
    }

    /// The inner value.
    pub fn get(self) -> (r: i32)
        ensures
            r == self.0,
    {
        self.0
    }

    /// `true` if the value is zero.
    pub fn is_zero(self) -> (r: bool)
        ensures
            r == (self.0 == 0),
    {
        self.0 == 0
    }

    /// `true` if the value is below zero.
    pub fn is_negative(self) -> (r: bool)
        ensures
            r == (self.0 < 0),
    {
        self.0 < 0
    }

    /// Parses `s` in `radix`, which must lie in 2 to 36.
    ///
    /// The text is an optional `+` or `-` and one or more digits of the
    /// radix, of either case; parsing succeeds exactly when the value fits
    /// in an `i32`.
    pub fn from_str_radix(s: &str, radix: u32) -> (r: Result<Int, IntParseError>)
        ensures
            radix < 2 || radix > 36 <==> r matches Err(IntParseError::InvalidRadix),
            2 <= radix <= 36 ==> match r {
                Ok(v) => i32_numeral(s@, radix as nat) == Some(v.0),
                Err(e) => e is ParseIntError && i32_numeral(s@, radix as nat) is None,
            },
    {
        if radix < 2 || radix > 36 {
            return Err(IntParseError::InvalidRadix);
        }
        match i32_from_str_radix(s, radix) {
            Ok(v) => Ok(Int(v)),
            Err(e) => Err(IntParseError::ParseIntError(e)),
        }
    }

    /// Parses an integer literal that has no surrounding whitespace: at
    /// most one leading sign, then `0b`, `0o` or `0x` and digits of that
    /// radix, or decimal digits; no other sign. The result is the signed
    /// value, so `-2147483648` gives `i32::MIN`, and anything that does not
    /// fit in an `i32` is an error.
    pub fn parse_literal(s: &str) -> (r: Result<Int, std::num::ParseIntError>)
        ensures
            match r {
                Ok(v) => literal_value(s@) == Some(v.0),
                Err(_) => literal_value(s@) is None,
            },
    {
        let n = s.unicode_len();
        let first = if n > 0 {
            s.get_char(0)
        } else {
            ' '
        };
        let negative = n > 0 && first == '-';
        let body = if n > 0 && (first == '-' || first == '+') {
            s.substring_char(1, n)
        } else {
            s
        };
        assert(body@ == unsigned_part(s@));
        let m = body.unicode_len();
        let c0 = if m >= 2 {
            body.get_char(0)
        } else {
            ' '
        };
        let c1 = if m >= 2 {
            body.get_char(1)
        } else {
            ' '
        };
        let prefixed = m >= 2 && c0 == '0' && (c1 == 'b' || c1 == 'o' || c1 == 'x');
        let radix: u32 = if !prefixed {
            10
        } else if c1 == 'b' {
            2
        } else if c1 == 'o' {
            8
        } else {
            16
        };
        let digits = if prefixed {
            body.substring_char(2, m)
        } else {
            body
        };
        assert(digits@ == literal_digits(body@));
        assert(radix == literal_radix(body@));
        // std reads one sign and then digits only, so giving it exactly one
        // sign makes any further sign in `digits` an error.
        let mut text = if negative {
            String::from_str("-")
        } else {
            String::from_str("+")
        };
        proof {
            reveal_strlit("-");
            reveal_strlit("+");
        }
        text.append(digits);
        proof {
            assert(text@.drop_first() =~= digits@);
        }
        match i32_from_str_radix(text.as_str(), radix) {
            Ok(v) => Ok(Int(v)),
            Err(e) => Err(e),
        }
    }

    /// Parses an integer literal, ignoring leading and trailing whitespace
    /// (see [`Int::parse_literal`]).
    pub fn parse(s: &str) -> (r: Result<Int, std::num::ParseIntError>)
        ensures
            match r {
                Ok(v) => literal_value(trimmed(s@)) == Some(v.0),
                Err(_) => literal_value(trimmed(s@)) is None,
            },
    {
        Int::parse_literal(trim_whitespace(s))
    }

    /// Binary, with a `0b` prefix; a negative value shows its two's
    /// complement bits.
    pub fn to_bin(self) -> (r: String)
        ensures
            r@ == seq!['0', 'b'] + radix_digits(bit_pattern(self.0), 2, false),
    {
        let mut out = String::from_str("0b");
        proof {
            reveal_strlit("0b");
        }
        out.append(radix_text(bit_pattern_of(self.0), 2, false).as_str());
        out
    }

    /// Octal, with a `0o` prefix; a negative value shows its two's
    /// complement bits.
    pub fn to_oct(self) -> (r: String)
        ensures
            r@ == seq!['0', 'o'] + radix_digits(bit_pattern(self.0), 8, false),
    {
        let mut out = String::from_str("0o");
        proof {
            reveal_strlit("0o");
        }
        out.append(radix_text(bit_pattern_of(self.0), 8, false).as_str());
        out
    }

    /// Lower-case hexadecimal, with a `0x` prefix; a negative value shows
    /// its two's complement bits.
    pub fn to_hex(self) -> (r: String)
        ensures
            r@ == seq!['0', 'x'] + radix_digits(bit_pattern(self.0), 16, false),
    {
        let mut out = String::from_str("0x");
        proof {
            reveal_strlit("0x");
        }
        out.append(radix_text(bit_pattern_of(self.0), 16, false).as_str());
        out
    }

    /// Upper-case hexadecimal, with a `0X` prefix; a negative value shows
    /// its two's complement bits.
    pub fn to_hex_upper(self) -> (r: String)
        ensures
            r@ == seq!['0', 'X'] + radix_digits(bit_pattern(self.0), 16, true),
    {
        let mut out = String::from_str("0X");
        proof {
            reveal_strlit("0X");
        }
        out.append(radix_text(bit_pattern_of(self.0), 16, true).as_str());
        out
    }
}

impl core::str::FromStr for Int {
    type Err = std::num::ParseIntError;

    /// See [`Int::parse`].
    fn from_str(s: &str) -> (r: Result<Int, std::num::ParseIntError>)
        ensures
            match r {
                Ok(v) => literal_value(trimmed(s@)) == Some(v.0),
                Err(_) => literal_value(trimmed(s@)) is None,
            },
    {
        Int::parse(s)
    }
}

impl From<i32> for Int {
    fn from(v: i32) -> (r: Int) {
        Int(v)
    }
}

impl vstd::std_specs::convert::FromSpecImpl<i32> for Int {
    open spec fn obeys_from_spec() -> bool {
        true
    }

    open spec fn from_spec(v: i32) -> Int {
        Int(v)
    }
}

impl From<Int> for i32 {
    fn from(v: Int) -> (r: i32) {
        v.0
    }
}

impl vstd::std_specs::convert::FromSpecImpl<Int> for i32 {
    open spec fn obeys_from_spec() -> bool {
        true
    }

    open spec fn from_spec(v: Int) -> i32 {
        v.0
    }
}

impl core::ops::Add for Int {
    type Output = Int;

    fn add(self, rhs: Int) -> (r: Int) {
        Int(self.0 + rhs.0)
    }
}

impl vstd::std_specs::ops::AddSpecImpl for Int {
    open spec fn obeys_add_spec() -> bool {
        true
    }

    open spec fn add_req(self, rhs: Int) -> bool {
        i32::MIN <= self.0 + rhs.0 <= i32::MAX
    }

    open spec fn add_spec(self, rhs: Int) -> Int {
        Int((self.0 + rhs.0) as i32)
    }
}

impl core::ops::Sub for Int {
    type Output = Int;

    fn sub(self, rhs: Int) -> (r: Int) {
        Int(self.0 - rhs.0)
    }
}

impl vstd::std_specs::ops::SubSpecImpl for Int {
    open spec fn obeys_sub_spec() -> bool {
        true
    }

    open spec fn sub_req(self, rhs: Int) -> bool {
        i32::MIN <= self.0 - rhs.0 <= i32::MAX
    }

    open spec fn sub_spec(self, rhs: Int) -> Int {
        Int((self.0 - rhs.0) as i32)
    }
}

impl core::ops::Neg for Int {
    type Output = Int;

    fn neg(self) -> (r: Int) {
        Int(-self.0)
    }
}

impl vstd::std_specs::ops::NegSpecImpl for Int {
    open spec fn obeys_neg_spec() -> bool {
        true
    }

    open spec fn neg_req(self) -> bool {
        self.0 != i32::MIN
    }

    open spec fn neg_spec(self) -> Int {
        Int((-self.0) as i32)
    }
}

// ---------------------------------------------------------------------------
// Float
// ---------------------------------------------------------------------------

/// A 32-bit floating-point scalar (opacity, flex grow and shrink factors),
/// held as its IEEE 754 bit pattern.
///
/// Equality, ordering and hashing go by the bit pattern, not by numeric
/// value. This is deliberate, so that style values can serve as lookup
/// keys: a NaN equals itself when the bits agree, and `+0.0` and `-0.0`
/// differ because their bits do. A NaN is never a meaningful declared
/// value.
#[derive(Debug, Clone, Copy, PartialEq, Eq, PartialOrd, Ord, Hash, Default, Structural)]
pub struct Float {
    /// The IEEE 754 binary32 bit pattern.
    pub bits: u32,
}

impl Float {
    /// `0.0`.
    #[allow(non_snake_case)]
    pub fn ZERO() -> (r: Float)
        ensures
            r.bits == 0,
    {
        Float { bits: 0 }
    }

    /// `1.0`.
    #[allow(non_snake_case)]
    pub fn ONE() -> (r: Float)
        ensures
            r.bits == 0x3f80_0000,
    {
        Float { bits: 0x3f80_0000 }
    }

    /// `0.5`.
    #[allow(non_snake_case)]
    pub fn HALF() -> (r: Float)
        ensures
            r.bits == 0x3f00_0000,
    {
        Float { bits: 0x3f00_0000 }
    }

    /// The value with the given bit pattern.
    pub fn from_bits(bits: u32) -> (r: Float)
        ensures
            r.bits == bits,
    {
        Float { bits }
    }

    /// The bit pattern.
    pub fn to_bits(self) -> (r: u32)
        ensures
            r == self.bits,
    {
        self.bits
    }

    /// `true` if the value is numerically zero: `+0.0` or `-0.0`.
    pub fn is_zero(self) -> (r: bool)
        ensures
            r == (self.bits == 0 || self.bits == 0x8000_0000),
    {
        self.bits == 0 || self.bits == 0x8000_0000
    }
}

} // verus!
