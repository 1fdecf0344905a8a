//! Length in UTF-16 code units.

use vstd::prelude::*;
use vstd::utf8::encode_utf8;

use super::super::{outcome, Interval};
use crate::error::{Error, ErrorView};

verus! {

/// The number of UTF-16 code units that encode `c`: two for a character
/// outside the Basic Multilingual Plane, one otherwise.
pub open spec fn utf16_units(c: char) -> nat {
    if (c as u32) >= 0x10000 { 2 } else { 1 }
}

/// The number of UTF-16 code units that encode `s`.
pub open spec fn utf16_len(s: Seq<char>) -> nat
    decreases s.len(),
{
    if s.len() == 0 {
        0
    } else {
        utf16_units(s[0]) + utf16_len(s.drop_first())
    }
}

proof fn lemma_utf16_len_le_utf8_len(s: Seq<char>)
    ensures
        utf16_len(s) <= encode_utf8(s).len(),
    decreases s.len(),
{
    if s.len() > 0 {
        lemma_utf16_len_le_utf8_len(s.drop_first());
        let c = s[0] as u32;
        vstd::utf8::char_is_scalar(s[0]);
    }
}

proof fn lemma_utf16_len_skip(s: Seq<char>, i: int)
    requires
        0 <= i <= s.len(),
    ensures
        utf16_len(s.skip(i)) <= utf16_len(s),
    decreases i,
{
    if i > 0 {
        lemma_utf16_len_skip(s.drop_first(), i - 1);
        assert(s.drop_first().skip(i - 1) =~= s.skip(i));
    } else {
        assert(s.skip(0) =~= s);
    }
}

/// The number of UTF-16 code units of `s`.
pub fn utf16_code_units(s: &str) -> (r: usize)
    ensures
        r == utf16_len(s@),
{
    let nb = s.as_bytes().len();
    proof {
        lemma_utf16_len_le_utf8_len(s@);
    }
    let n = s.unicode_len();
    let mut count: usize = 0;
    let mut i: usize = n;
    assert(s@.skip(n as int) =~= Seq::<char>::empty());
    while i > 0
        invariant
            i <= n,
            n == s@.len(),
            count == utf16_len(s@.skip(i as int)),
            utf16_len(s@) <= nb,
        decreases i,
    {
        i = i - 1;
        let c = s.get_char(i);
        proof {
            assert(s@.skip(i as int).drop_first() =~= s@.skip(i + 1));
            assert(s@.skip(i as int)[0] == c);
            lemma_utf16_len_skip(s@, i as int);
        }
        if (c as u32) >= 0x10000 {
            count = count + 2;
        } else {
            count = count + 1;
        }
    }
    assert(s@.skip(0) =~= s@);
    count
}

/// A string-like type whose number of UTF-16 code units is known.
pub trait HasUtf16CodeUnits {
    /// The number of UTF-16 code units.
    spec fn spec_num_code_units(&self) -> usize;

    fn num_code_units(&self) -> (r: usize)
        ensures
            r == self.spec_num_code_units(),
    ;
}

/// A type whose number of UTF-16 code units can be checked against an interval.
pub trait Utf16CodeUnits {
    /// The outcome of checking the number of UTF-16 code units against `range`.
    spec fn spec_validate_num_code_units(&self, range: Interval<usize>) -> Result<(), ErrorView>;

    fn validate_num_code_units_bounds(&self, range: &Interval<usize>) -> (r: Result<(), Error>)
        ensures
            outcome(r) == self.spec_validate_num_code_units(*range),
    ;
}

impl<T: HasUtf16CodeUnits> Utf16CodeUnits for T {
    open spec fn spec_validate_num_code_units(&self, range: Interval<usize>) -> Result<(), ErrorView> {
        super::apply_spec(self.spec_num_code_units(), range)
    }

    fn validate_num_code_units_bounds(&self, range: &Interval<usize>) -> (r: Result<(), Error>) {
        super::apply_bounds(self.num_code_units(), range)
    }
}

impl<T: Utf16CodeUnits> Utf16CodeUnits for Option<T> {
    open spec fn spec_validate_num_code_units(&self, range: Interval<usize>) -> Result<(), ErrorView> {
        match self {
            Some(v) => v.spec_validate_num_code_units(range),
            None => Ok(()),
        }
    }

    fn validate_num_code_units_bounds(&self, range: &Interval<usize>) -> (r: Result<(), Error>) {
        match self {
            Some(v) => v.validate_num_code_units_bounds(range),
            None => Ok(()),
        }
    }
}

/// Checks the number of UTF-16 code units of `v` against `range`.
pub fn apply<T: Utf16CodeUnits>(v: &T, range: &Interval<usize>) -> (r: Result<(), Error>)
    ensures
        outcome(r) == v.spec_validate_num_code_units(*range),
{
    v.validate_num_code_units_bounds(range)
}

impl HasUtf16CodeUnits for String {
    open spec fn spec_num_code_units(&self) -> usize {
        utf16_len(self@) as usize
    }

    fn num_code_units(&self) -> (r: usize) {
        utf16_code_units(self.as_str())
    }
}

impl<'a> HasUtf16CodeUnits for &'a String {
    open spec fn spec_num_code_units(&self) -> usize {
        utf16_len((*self)@) as usize
    }

    fn num_code_units(&self) -> (r: usize) {
        utf16_code_units((*self).as_str())
    }
}

impl<'a> HasUtf16CodeUnits for &'a str {
    open spec fn spec_num_code_units(&self) -> usize {
        utf16_len((*self)@) as usize
    }

    fn num_code_units(&self) -> (r: usize) {
        utf16_code_units(*self)
    }
}

/// Appending a character adds the number of UTF-16 code units that encode it: two
/// for a character at or above U+10000, one for any other; the empty text has none.
pub proof fn lemma_utf16_len_push(t: Seq<char>, c: char)
    ensures
        utf16_len(Seq::<char>::empty()) == 0,
        utf16_len(t.push(c)) == utf16_len(t) + (if (c as u32) >= 0x10000 { 2int } else { 1int }),
    decreases t.len(),
{
    if t.len() > 0 {
        lemma_utf16_len_push(t.drop_first(), c);
        assert(t.push(c).drop_first() =~= t.drop_first().push(c));
    } else {
        assert(t.push(c).drop_first() =~= Seq::<char>::empty());
    }
}

/// Every string type counts the UTF-16 code units of its text, and a `String`
/// counts the same as the `&str` of the same text.
pub proof fn lemma_num_code_units_is_utf16_count(s: String, r: &String, t: &str)
    requires
        utf16_len(s@) <= usize::MAX,
        utf16_len(r@) <= usize::MAX,
        utf16_len(t@) <= usize::MAX,
    ensures
        s.spec_num_code_units() as int == utf16_len(s@),
        r.spec_num_code_units() as int == utf16_len(r@),
        t.spec_num_code_units() as int == utf16_len(t@),
        t@ == s@ ==> s.spec_num_code_units() == t.spec_num_code_units(),
{
}

} // verus!
