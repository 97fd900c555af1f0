use std::borrow::Cow;

use vstd::prelude::*;
use vstd::string::StringSliceAdditionalSpecFns;
use vstd::utf8::encode_utf8_decode_utf8;

verus! {

/// A text value (font family, generated content, identifiers).
///
/// Static text is borrowed without allocation; text made at run time is
/// owned. Two values are equal when their characters are, whichever way
/// each is stored.
#[derive(Debug, Hash, Default)]
pub struct Str(pub Cow<'static, str>);

impl View for Str {
    type V = Seq<char>;

    open spec fn view(&self) -> Seq<char> {
        self.0@
    }
}

impl Str {
    /// Borrows static text, without allocating.
    pub fn from_static(s: &'static str) -> (r: Str)
        ensures
            r@ == s@,
            r.0 is Borrowed,
    {
        Str(Cow::Borrowed(s))
    }

    /// Takes ownership of text made at run time.
    pub fn from_string(s: String) -> (r: Str)
        ensures
            r@ == s@,
            r.0 is Owned,
    {
        Str(Cow::Owned(s))
    }

    /// The text as a string slice.
    pub fn as_str(&self) -> (r: &str)
        ensures
            r@ == self@,
    {
        match &self.0 {
            Cow::Borrowed(b) => b,
            Cow::Owned(o) => o.as_str(),
        }
    }

    /// `true` if the text has no characters.
    pub fn is_empty(&self) -> (r: bool)
        ensures
            r == (self@.len() == 0),
    {
        self.as_str().is_empty()
    }
}

impl Clone for Str {
    /// Borrowed text stays borrowed; owned text is copied.
    fn clone(&self) -> (r: Str)
        ensures
            r@ == self@,
    {
        match &self.0 {
            Cow::Borrowed(b) => Str(Cow::Borrowed(b)),
            Cow::Owned(o) => Str(Cow::Owned(o.clone())),
        }
    }
}

impl PartialEq for Str {
    fn eq(&self, other: &Str) -> (r: bool) {
        let sa = self.as_str();
        let sb = other.as_str();
        let a = sa.as_bytes();
        let b = sb.as_bytes();
        if a.len() != b.len() {
            return false;
        }
        let mut i: usize = 0;
        while i < a.len()
            invariant
                sa@ == self@,
                sb@ == other@,
                a@ == sa.spec_bytes(),
                b@ == sb.spec_bytes(),
                a@.len() == b@.len(),
                0 <= i <= a@.len(),
                forall|k: int| 0 <= k < i ==> a@[k] == b@[k],
            decreases a@.len() - i,
        {
            if a[i] != b[i] {
                return false;
            }
            i = i + 1;
        }
        proof {
            assert(a@ =~= b@);
            encode_utf8_decode_utf8(self@);
            encode_utf8_decode_utf8(other@);
        }
        true
    }
}

impl vstd::std_specs::cmp::PartialEqSpecImpl for Str {
    open spec fn obeys_eq_spec() -> bool {
        true
    }

    open spec fn eq_spec(&self, other: &Str) -> bool {
        self@ == other@
    }
}

impl Eq for Str {
}

impl From<&'static str> for Str {
    fn from(s: &'static str) -> (r: Str) {
        Str(Cow::Borrowed(s))
    }
}

impl vstd::std_specs::convert::FromSpecImpl<&'static str> for Str {
    open spec fn obeys_from_spec() -> bool {
        true
    }

    open spec fn from_spec(s: &'static str) -> Str {
        Str(Cow::Borrowed(s))
    }
}

impl From<String> for Str {
    fn from(s: String) -> (r: Str) {
        Str(Cow::Owned(s))
    }
}

impl vstd::std_specs::convert::FromSpecImpl<String> for Str {
    open spec fn obeys_from_spec() -> bool {
        true
    }

    open spec fn from_spec(s: String) -> Str {
        Str(Cow::Owned(s))
    }
}

impl AsRef<str> for Str {
    fn as_ref(&self) -> (r: &str)
        ensures
            r@ == self@,
    {
        self.as_str()
    }
}

} // verus!
