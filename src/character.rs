//! What a "character" is for lexing: whitespace, digits under a radix, the zero
//! digit and a codepoint view, for bytes and for codepoints alike.

use vstd::prelude::*;

verus! {

/// Marks the character representations; only `u8` and `char` carry it.
pub trait Sealed {
}

impl Sealed for u8 {
}

impl Sealed for char {
}

/// Unicode `White_Space` property.
pub open spec fn unicode_white_space(c: char) -> bool {
    let n = c as u32;
    (0x09 <= n && n <= 0x0d) || n == 0x20 || n == 0x85 || n == 0xa0 || n == 0x1680 || (0x2000
        <= n && n <= 0x200a) || n == 0x2028 || n == 0x2029 || n == 0x202f || n == 0x205f || n
        == 0x3000
}

/// ASCII whitespace as `u8::is_ascii_whitespace` sees it: space, tab, line feed,
/// form feed and carriage return (not vertical tab).
pub open spec fn ascii_white_space(b: u8) -> bool {
    b == 0x20 || b == 0x09 || b == 0x0a || b == 0x0c || b == 0x0d
}

/// The value of `c` as a digit of any radix up to 36, if it has one.
pub open spec fn digit_value(c: char) -> Option<u32> {
    let n = c as u32;
    if 0x30 <= n && n <= 0x39 {
        Some((n - 0x30) as u32)
    } else if 0x61 <= n && n <= 0x7a {
        Some((n - 0x61 + 10) as u32)
    } else if 0x41 <= n && n <= 0x5a {
        Some((n - 0x41 + 10) as u32)
    } else {
        None
    }
}

/// `c` is a digit under `radix`.
pub open spec fn is_digit_in(c: char, radix: u32) -> bool {
    match digit_value(c) {
        Some(v) => v < radix,
        None => false,
    }
}

/// `c` is an ASCII letter.
pub open spec fn ascii_alpha(c: char) -> bool {
    let n = c as u32;
    (0x41 <= n && n <= 0x5a) || (0x61 <= n && n <= 0x7a)
}

/// `c` is an ASCII letter or an ASCII decimal digit.
pub open spec fn ascii_alnum(c: char) -> bool {
    let n = c as u32;
    ascii_alpha(c) || (0x30 <= n && n <= 0x39)
}

/// A radix that digit tests accept.
pub open spec fn valid_radix(radix: u32) -> bool {
    2 <= radix && radix <= 36
}

/// A textual character type: exactly `u8` and `char`.
pub trait Character: Sealed + Copy + Sized {
    /// The growable text that this character collects into.
    type Collection: View<V = Seq<Self>>;

    /// The character is whitespace.
    spec fn spec_whitespace(self) -> bool;

    /// The character as a codepoint.
    spec fn spec_char(self) -> char;

    /// The `'0'` digit of this representation.
    spec fn spec_zero() -> Self;

    /// Returns true if the character is canonically considered whitespace.
    fn is_whitespace(&self) -> (r: bool)
        ensures
            r == self.spec_whitespace(),
    ;

    /// Returns the `'0'` digit.
    fn digit_zero() -> (r: Self)
        ensures
            r == Self::spec_zero(),
            r.spec_char() == '0',
    ;

    /// Returns true if the character is a digit under `radix`.
    fn is_digit(&self, radix: u32) -> (r: bool)
        requires
            valid_radix(radix),
        ensures
            r == is_digit_in(self.spec_char(), radix),
    ;

    /// Returns this character as a `char`.
    fn to_char(&self) -> (r: char)
        ensures
            r == self.spec_char(),
    ;

    /// Returns true if the two characters are the same.
    fn same(&self, other: &Self) -> (r: bool)
        ensures
            r == (*self == *other),
    ;

    /// Returns an empty collection.
    fn empty_collection() -> (r: Self::Collection)
        ensures
            r@ == Seq::<Self>::empty(),
    ;

    /// Appends this character to `text`.
    fn push_onto(&self, text: &mut Self::Collection)
        ensures
            final(text)@ == old(text)@.push(*self),
    ;

    /// Returns true if the two collections hold the same characters.
    fn same_text(a: &Self::Collection, b: &Self::Collection) -> (r: bool)
        ensures
            r == (a@ == b@),
    ;
}

/// Relies on `String::push`: appends one codepoint at the end.
#[verifier::external_body]
fn push_char(s: &mut String, c: char)
    ensures
        final(s)@ == old(s)@.push(c),
{
    s.push(c)
}

/// Tests a codepoint against a radix.
fn char_is_digit(c: char, radix: u32) -> (r: bool)
    requires
        valid_radix(radix),
    ensures
        r == is_digit_in(c, radix),
{
    let n = c as u32;
    let v: u32 = if 0x30 <= n && n <= 0x39 {
        n - 0x30
    } else if 0x61 <= n && n <= 0x7a {
        n - 0x61 + 10
    } else if 0x41 <= n && n <= 0x5a {
        n - 0x41 + 10
    } else {
        return false;
    };
    v < radix
}

impl Character for u8 {
    type Collection = Vec<u8>;

    open spec fn spec_whitespace(self) -> bool {
        ascii_white_space(self)
    }

    open spec fn spec_char(self) -> char {
        self as char
    }

    open spec fn spec_zero() -> u8 {
        0x30
    }

    fn is_whitespace(&self) -> (r: bool) {
        let b = *self;
        b == 0x20 || b == 0x09 || b == 0x0a || b == 0x0c || b == 0x0d
    }

    fn digit_zero() -> (r: u8) {
        0x30u8
    }

    fn is_digit(&self, radix: u32) -> (r: bool) {
        char_is_digit(*self as char, radix)
    }

    fn to_char(&self) -> (r: char) {
        *self as char
    }

    fn same(&self, other: &u8) -> (r: bool) {
        *self == *other
    }

    fn empty_collection() -> (r: Vec<u8>) {
        Vec::new()
    }

    fn push_onto(&self, text: &mut Vec<u8>) {
        text.push(*self);
    }

    fn same_text(a: &Vec<u8>, b: &Vec<u8>) -> (r: bool) {
        if a.len() != b.len() {
            return false;
        }
        let mut i: usize = 0;
        while i < a.len()
            invariant
                a@.len() == b@.len(),
                i <= a@.len(),
                forall|j: int| 0 <= j < i ==> a@[j] == b@[j],
            decreases a.len() - i,
        {
            if a[i] != b[i] {
                return false;
            }
            i = i + 1;
        }
        proof {
            assert(a@ =~= b@);
        }
        true
    }
}

impl Character for char {
    type Collection = String;

    open spec fn spec_whitespace(self) -> bool {
        unicode_white_space(self)
    }

    open spec fn spec_char(self) -> char {
        self
    }

    open spec fn spec_zero() -> char {
        '0'
    }

    fn is_whitespace(&self) -> (r: bool) {
        let n = *self as u32;
        (0x09 <= n && n <= 0x0d) || n == 0x20 || n == 0x85 || n == 0xa0 || n == 0x1680 || (0x2000
            <= n && n <= 0x200a) || n == 0x2028 || n == 0x2029 || n == 0x202f || n == 0x205f || n
            == 0x3000
    }

    fn digit_zero() -> (r: char) {
        '0'
    }

    fn is_digit(&self, radix: u32) -> (r: bool) {
        char_is_digit(*self, radix)
    }

    fn to_char(&self) -> (r: char) {
        *self
    }

    fn same(&self, other: &char) -> (r: bool) {
        *self == *other
    }

    fn empty_collection() -> (r: String) {
        String::new()
    }

    fn push_onto(&self, text: &mut String) {
        push_char(text, *self);
    }

    fn same_text(a: &String, b: &String) -> (r: bool) {
        *a == *b
    }
}

} // verus!
