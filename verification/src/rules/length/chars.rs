//! Length in Unicode scalar values (`char`s).

use vstd::prelude::*;

use super::super::{outcome, Interval};
use crate::error::{Error, ErrorView};

verus! {

/// A string-like type whose number of `char`s is known.
pub trait HasChars {
    /// The number of `char`s.
    spec fn spec_num_chars(&self) -> usize;

    fn num_chars(&self) -> (r: usize)
        ensures
            r == self.spec_num_chars(),
    ;
}

/// A type whose number of `char`s can be checked against an interval.
pub trait Chars {
    /// The outcome of checking the number of `char`s against `range`.
    spec fn spec_validate_num_chars(&self, range: Interval<usize>) -> Result<(), ErrorView>;

    fn validate_num_chars_bounds(&self, range: &Interval<usize>) -> (r: Result<(), Error>)
        ensures
            outcome(r) == self.spec_validate_num_chars(*range),
    ;
}

impl<T: HasChars> Chars for T {
    open spec fn spec_validate_num_chars(&self, range: Interval<usize>) -> Result<(), ErrorView> {
        super::apply_spec(self.spec_num_chars(), range)
    }

    fn validate_num_chars_bounds(&self, range: &Interval<usize>) -> (r: Result<(), Error>) {
        super::apply_bounds(self.num_chars(), range)
    }
}

impl<T: Chars> Chars for Option<T> {
    open spec fn spec_validate_num_chars(&self, range: Interval<usize>) -> Result<(), ErrorView> {
        match self {
            Some(v) => v.spec_validate_num_chars(range),
            None => Ok(()),
        }
    }

    fn validate_num_chars_bounds(&self, range: &Interval<usize>) -> (r: Result<(), Error>) {
        match self {
            Some(v) => v.validate_num_chars_bounds(range),
            None => Ok(()),
        }
    }
}

/// Checks the number of `char`s of `v` against `range`.
pub fn apply<T: Chars>(v: &T, range: &Interval<usize>) -> (r: Result<(), Error>)
    ensures
        outcome(r) == v.spec_validate_num_chars(*range),
{
    v.validate_num_chars_bounds(range)
}

impl HasChars for String {
    open spec fn spec_num_chars(&self) -> usize {
        self@.len() as usize
    }

    fn num_chars(&self) -> (r: usize) {
        self.as_str().unicode_len()
    }
}

impl<'a> HasChars for &'a String {
    open spec fn spec_num_chars(&self) -> usize {
        (*self)@.len() as usize
    }

    fn num_chars(&self) -> (r: usize) {
        (*self).as_str().unicode_len()
    }
}

impl<'a> HasChars for &'a str {
    open spec fn spec_num_chars(&self) -> usize {
        (*self)@.len() as usize
    }

    fn num_chars(&self) -> (r: usize) {
        (*self).unicode_len()
    }
}

impl<'a> HasChars for &'a [char] {
    open spec fn spec_num_chars(&self) -> usize {
        (*self)@.len() as usize
    }

    fn num_chars(&self) -> (r: usize) {
        (*self).len()
    }
}

impl HasChars for Vec<char> {
    open spec fn spec_num_chars(&self) -> usize {
        self@.len() as usize
    }

    fn num_chars(&self) -> (r: usize) {
        self.len()
    }
}

impl HasChars for std::rc::Rc<str> {
    open spec fn spec_num_chars(&self) -> usize {
        (**self)@.len() as usize
    }

    fn num_chars(&self) -> (r: usize) {
        (**self).unicode_len()
    }
}

impl HasChars for std::sync::Arc<str> {
    open spec fn spec_num_chars(&self) -> usize {
        (**self)@.len() as usize
    }

    fn num_chars(&self) -> (r: usize) {
        (**self).unicode_len()
    }
}

impl HasChars for Box<str> {
    open spec fn spec_num_chars(&self) -> usize {
        (**self)@.len() as usize
    }

    fn num_chars(&self) -> (r: usize) {
        (**self).unicode_len()
    }
}

impl HasChars for std::rc::Rc<[char]> {
    open spec fn spec_num_chars(&self) -> usize {
        (**self)@.len() as usize
    }

    fn num_chars(&self) -> (r: usize) {
        (**self).len()
    }
}

impl HasChars for std::sync::Arc<[char]> {
    open spec fn spec_num_chars(&self) -> usize {
        (**self)@.len() as usize
    }

    fn num_chars(&self) -> (r: usize) {
        (**self).len()
    }
}

impl HasChars for Box<[char]> {
    open spec fn spec_num_chars(&self) -> usize {
        (**self)@.len() as usize
    }

    fn num_chars(&self) -> (r: usize) {
        (**self).len()
    }
}

/// Every string type counts its Unicode scalar values, the characters of its text,
/// and a `String` counts the same as the `&str` of the same text.
pub proof fn lemma_num_chars_is_char_count(s: String, r: &String, t: &str, b: Box<str>)
    requires
        s@.len() <= usize::MAX,
        r@.len() <= usize::MAX,
        t@.len() <= usize::MAX,
        b@.len() <= usize::MAX,
    ensures
        s.spec_num_chars() as int == s@.len(),
        r.spec_num_chars() as int == r@.len(),
        t.spec_num_chars() as int == t@.len(),
        b.spec_num_chars() as int == b@.len(),
        t@ == s@ ==> s.spec_num_chars() == t.spec_num_chars(),
{
}

/// Every `char` collection counts its elements.
pub proof fn lemma_num_chars_of_char_collections(v: Vec<char>, sl: &[char])
    requires
        v@.len() <= usize::MAX,
        sl@.len() <= usize::MAX,
    ensures
        v.spec_num_chars() as int == v@.len(),
        sl.spec_num_chars() as int == sl@.len(),
{
}

} // verus!
