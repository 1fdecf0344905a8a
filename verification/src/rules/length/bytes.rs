//! Length in bytes.

use vstd::prelude::*;
use vstd::utf8::encode_utf8;

use super::super::{outcome, Interval};
use crate::error::{Error, ErrorView};

verus! {

/// A type whose size in bytes is known.
pub trait HasBytes {
    /// The number of bytes.
    spec fn spec_num_bytes(&self) -> usize;

    fn num_bytes(&self) -> (r: usize)
        ensures
            r == self.spec_num_bytes(),
    ;
}

/// A type whose size in bytes can be checked against an interval.
pub trait Bytes {
    /// The outcome of checking the number of bytes against `range`.
    spec fn spec_validate_num_bytes(&self, range: Interval<usize>) -> Result<(), ErrorView>;

    fn validate_num_bytes_bounds(&self, range: &Interval<usize>) -> (r: Result<(), Error>)
        ensures
            outcome(r) == self.spec_validate_num_bytes(*range),
    ;
}

impl<T: HasBytes> Bytes for T {
    open spec fn spec_validate_num_bytes(&self, range: Interval<usize>) -> Result<(), ErrorView> {
        super::apply_spec(self.spec_num_bytes(), range)
    }

    fn validate_num_bytes_bounds(&self, range: &Interval<usize>) -> (r: Result<(), Error>) {
        super::apply_bounds(self.num_bytes(), range)
    }
}

impl<T: Bytes> Bytes for Option<T> {
    open spec fn spec_validate_num_bytes(&self, range: Interval<usize>) -> Result<(), ErrorView> {
        match self {
            Some(v) => v.spec_validate_num_bytes(range),
            None => Ok(()),
        }
    }

    fn validate_num_bytes_bounds(&self, range: &Interval<usize>) -> (r: Result<(), Error>) {
        match self {
            Some(v) => v.validate_num_bytes_bounds(range),
            None => Ok(()),
        }
    }
}

/// Checks the number of bytes of `v` against `range`.
pub fn apply_bounds<T: Bytes>(v: &T, range: &Interval<usize>) -> (r: Result<(), Error>)
    ensures
        outcome(r) == v.spec_validate_num_bytes(*range),
{
    v.validate_num_bytes_bounds(range)
}

impl HasBytes for String {
    open spec fn spec_num_bytes(&self) -> usize {
        encode_utf8(self@).len() as usize
    }

    fn num_bytes(&self) -> (r: usize) {
        self.as_str().len()
    }
}

impl<'a> HasBytes for &'a String {
    open spec fn spec_num_bytes(&self) -> usize {
        encode_utf8((*self)@).len() as usize
    }

    fn num_bytes(&self) -> (r: usize) {
        (*self).as_str().len()
    }
}

impl<'a> HasBytes for &'a str {
    open spec fn spec_num_bytes(&self) -> usize {
        encode_utf8((*self)@).len() as usize
    }

    fn num_bytes(&self) -> (r: usize) {
        (*self).len()
    }
}

impl<'a> HasBytes for &'a [u8] {
    open spec fn spec_num_bytes(&self) -> usize {
        (*self)@.len() as usize
    }

    fn num_bytes(&self) -> (r: usize) {
        (*self).len()
    }
}

impl HasBytes for Vec<u8> {
    open spec fn spec_num_bytes(&self) -> usize {
        self@.len() as usize
    }

    fn num_bytes(&self) -> (r: usize) {
        self.len()
    }
}

impl<const N: usize> HasBytes for [u8; N] {
    open spec fn spec_num_bytes(&self) -> usize {
        N
    }

    fn num_bytes(&self) -> (r: usize) {
        N
    }
}

impl HasBytes for std::rc::Rc<str> {
    open spec fn spec_num_bytes(&self) -> usize {
        encode_utf8((**self)@).len() as usize
    }

    fn num_bytes(&self) -> (r: usize) {
        (**self).len()
    }
}

impl HasBytes for std::sync::Arc<str> {
    open spec fn spec_num_bytes(&self) -> usize {
        encode_utf8((**self)@).len() as usize
    }

    fn num_bytes(&self) -> (r: usize) {
        (**self).len()
    }
}

impl HasBytes for Box<str> {
    open spec fn spec_num_bytes(&self) -> usize {
        encode_utf8((**self)@).len() as usize
    }

    fn num_bytes(&self) -> (r: usize) {
        (**self).len()
    }
}

impl HasBytes for std::rc::Rc<[u8]> {
    open spec fn spec_num_bytes(&self) -> usize {
        (**self)@.len() as usize
    }

    fn num_bytes(&self) -> (r: usize) {
        (**self).len()
    }
}

impl HasBytes for std::sync::Arc<[u8]> {
    open spec fn spec_num_bytes(&self) -> usize {
        (**self)@.len() as usize
    }

    fn num_bytes(&self) -> (r: usize) {
        (**self).len()
    }
}

impl HasBytes for Box<[u8]> {
    open spec fn spec_num_bytes(&self) -> usize {
        (**self)@.len() as usize
    }

    fn num_bytes(&self) -> (r: usize) {
        (**self).len()
    }
}

/// Every string type counts the bytes of the UTF-8 encoding of its text, and a
/// byte collection counts its bytes.
pub proof fn lemma_num_bytes_is_utf8_length(s: String, t: &str, b: Box<str>, v: Vec<u8>)
    requires
        encode_utf8(s@).len() <= usize::MAX,
        encode_utf8(t@).len() <= usize::MAX,
        encode_utf8(b@).len() <= usize::MAX,
        v@.len() <= usize::MAX,
    ensures
        s.spec_num_bytes() as int == encode_utf8(s@).len(),
        t.spec_num_bytes() as int == encode_utf8(t@).len(),
        b.spec_num_bytes() as int == encode_utf8(b@).len(),
        v.spec_num_bytes() as int == v@.len(),
        t@ == s@ ==> s.spec_num_bytes() == t.spec_num_bytes(),
{
}

} // verus!
