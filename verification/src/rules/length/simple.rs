//! The default length mode: the number of bytes of a string, the number of
//! items of a collection.

use vstd::prelude::*;
use vstd::utf8::encode_utf8;
use vstd::std_specs::btree::{spec_btree_map_len, spec_btree_set_len};
use vstd::std_specs::hash::{spec_hash_map_len, spec_hash_set_len};
use vstd::std_specs::vecdeque::spec_vec_dequeue_len;

use super::super::{coded_outcome, outcome, Interval};
use crate::error::{Error, ErrorView};

verus! {

/// A type with a known length.
pub trait HasSimpleLength {
    /// The value's length.
    spec fn spec_length(&self) -> usize;

    fn length(&self) -> (r: usize)
        ensures
            r == self.spec_length(),
    ;
}

/// A type whose length can be checked against an interval.
pub trait Simple {
    /// The outcome of checking the value's length against `range`.
    spec fn spec_validate_length(&self, range: Interval<usize>) -> Result<(), ErrorView>;

    fn validate_length(&self, range: &Interval<usize>) -> (r: Result<(), Error>)
        ensures
            outcome(r) == self.spec_validate_length(*range),
    ;
}

impl<T: HasSimpleLength> Simple for T {
    open spec fn spec_validate_length(&self, range: Interval<usize>) -> Result<(), ErrorView> {
        super::apply_spec(self.spec_length(), range)
    }

    fn validate_length(&self, range: &Interval<usize>) -> (r: Result<(), Error>) {
        super::apply(self.length(), range)
    }
}

impl<T: Simple> Simple for Option<T> {
    open spec fn spec_validate_length(&self, range: Interval<usize>) -> Result<(), ErrorView> {
        match self {
            Some(v) => v.spec_validate_length(range),
            None => Ok(()),
        }
    }

    fn validate_length(&self, range: &Interval<usize>) -> (r: Result<(), Error>) {
        match self {
            Some(v) => v.validate_length(range),
            None => Ok(()),
        }
    }
}

impl<T, const N: usize> Simple for [T; N] {
    open spec fn spec_validate_length(&self, range: Interval<usize>) -> Result<(), ErrorView> {
        super::apply_spec(N, range)
    }

    fn validate_length(&self, range: &Interval<usize>) -> (r: Result<(), Error>) {
        super::apply(N, range)
    }
}

impl<'a, T, const N: usize> Simple for &'a [T; N] {
    open spec fn spec_validate_length(&self, range: Interval<usize>) -> Result<(), ErrorView> {
        super::apply_spec(N, range)
    }

    fn validate_length(&self, range: &Interval<usize>) -> (r: Result<(), Error>) {
        super::apply(N, range)
    }
}

/// Checks the length of `v` against `range`.
pub fn apply<T: Simple>(v: &T, range: &Interval<usize>) -> (r: Result<(), Error>)
    ensures
        outcome(r) == v.spec_validate_length(*range),
{
    v.validate_length(range)
}

/// Checks the length of `v` against `range`, reporting a failure under the code `code`.
pub fn apply_with_code<T: HasSimpleLength>(v: &T, range: &Interval<usize>, code: &str) -> (r: Result<(), Error>)
    ensures
        outcome(r) == coded_outcome(super::apply_spec(v.spec_length(), *range), code@),
{
    super::apply_with_code(v.length(), range, code)
}

impl HasSimpleLength for String {
    open spec fn spec_length(&self) -> usize {
        encode_utf8(self@).len() as usize
    }

    fn length(&self) -> (r: usize) {
        self.as_str().len()
    }
}

impl<'a> HasSimpleLength for &'a String {
    open spec fn spec_length(&self) -> usize {
        encode_utf8((*self)@).len() as usize
    }

    fn length(&self) -> (r: usize) {
        (*self).as_str().len()
    }
}

impl<'a> HasSimpleLength for &'a str {
    open spec fn spec_length(&self) -> usize {
        encode_utf8((*self)@).len() as usize
    }

    fn length(&self) -> (r: usize) {
        (*self).len()
    }
}

impl<T> HasSimpleLength for Vec<T> {
    open spec fn spec_length(&self) -> usize {
        self@.len() as usize
    }

    fn length(&self) -> (r: usize) {
        self.len()
    }
}

impl<'a, T> HasSimpleLength for &'a Vec<T> {
    open spec fn spec_length(&self) -> usize {
        (*self)@.len() as usize
    }

    fn length(&self) -> (r: usize) {
        (*self).len()
    }
}

impl<'a, T> HasSimpleLength for &'a [T] {
    open spec fn spec_length(&self) -> usize {
        (*self)@.len() as usize
    }

    fn length(&self) -> (r: usize) {
        (*self).len()
    }
}

impl<T> HasSimpleLength for std::collections::VecDeque<T> {
    open spec fn spec_length(&self) -> usize {
        spec_vec_dequeue_len(self)
    }

    fn length(&self) -> (r: usize) {
        self.len()
    }
}

impl<K, V, S> HasSimpleLength for std::collections::HashMap<K, V, S> {
    open spec fn spec_length(&self) -> usize {
        spec_hash_map_len(self)
    }

    fn length(&self) -> (r: usize) {
        self.len()
    }
}

impl<T, S> HasSimpleLength for std::collections::HashSet<T, S> {
    open spec fn spec_length(&self) -> usize {
        spec_hash_set_len(self)
    }

    fn length(&self) -> (r: usize) {
        self.len()
    }
}

impl<K, V> HasSimpleLength for std::collections::BTreeMap<K, V> {
    open spec fn spec_length(&self) -> usize {
        spec_btree_map_len(self)
    }

    fn length(&self) -> (r: usize) {
        self.len()
    }
}

impl<T> HasSimpleLength for std::collections::BTreeSet<T> {
    open spec fn spec_length(&self) -> usize {
        spec_btree_set_len(self)
    }

    fn length(&self) -> (r: usize) {
        self.len()
    }
}

impl HasSimpleLength for Box<str> {
    open spec fn spec_length(&self) -> usize {
        encode_utf8((**self)@).len() as usize
    }

    fn length(&self) -> (r: usize) {
        (**self).len()
    }
}

impl HasSimpleLength for std::rc::Rc<str> {
    open spec fn spec_length(&self) -> usize {
        encode_utf8((**self)@).len() as usize
    }

    fn length(&self) -> (r: usize) {
        (**self).len()
    }
}

impl HasSimpleLength for std::sync::Arc<str> {
    open spec fn spec_length(&self) -> usize {
        encode_utf8((**self)@).len() as usize
    }

    fn length(&self) -> (r: usize) {
        (**self).len()
    }
}

impl<'a, T> HasSimpleLength for &'a std::collections::VecDeque<T> {
    open spec fn spec_length(&self) -> usize {
        spec_vec_dequeue_len(*self)
    }

    fn length(&self) -> (r: usize) {
        (*self).len()
    }
}

impl<'a, K, V, S> HasSimpleLength for &'a std::collections::HashMap<K, V, S> {
    open spec fn spec_length(&self) -> usize {
        spec_hash_map_len(*self)
    }

    fn length(&self) -> (r: usize) {
        (*self).len()
    }
}

impl<'a, T, S> HasSimpleLength for &'a std::collections::HashSet<T, S> {
    open spec fn spec_length(&self) -> usize {
        spec_hash_set_len(*self)
    }

    fn length(&self) -> (r: usize) {
        (*self).len()
    }
}

impl<'a, K, V> HasSimpleLength for &'a std::collections::BTreeMap<K, V> {
    open spec fn spec_length(&self) -> usize {
        spec_btree_map_len(*self)
    }

    fn length(&self) -> (r: usize) {
        (*self).len()
    }
}

impl<'a, T> HasSimpleLength for &'a std::collections::BTreeSet<T> {
    open spec fn spec_length(&self) -> usize {
        spec_btree_set_len(*self)
    }

    fn length(&self) -> (r: usize) {
        (*self).len()
    }
}

/// By default a string's length is the number of bytes of the UTF-8 encoding of
/// its text, and a list's length is its number of items.
pub proof fn lemma_simple_length_of_strings_and_lists(s: String, t: &str, v: Vec<u64>)
    requires
        encode_utf8(s@).len() <= usize::MAX,
        encode_utf8(t@).len() <= usize::MAX,
        v@.len() <= usize::MAX,
    ensures
        s.spec_length() as int == encode_utf8(s@).len(),
        t.spec_length() as int == encode_utf8(t@).len(),
        v.spec_length() as int == v@.len(),
        t@ == s@ ==> s.spec_length() == t.spec_length(),
{
}

} // verus!
