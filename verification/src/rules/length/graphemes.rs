//! Length in extended grapheme clusters, as segmented by the
//! `unicode-segmentation` crate.

use vstd::prelude::*;

use unicode_segmentation::UnicodeSegmentation;

use super::super::{outcome, Interval};
use crate::error::{Error, ErrorView};

verus! {

/// The number of extended grapheme clusters into which `unicode-segmentation`
/// splits a string.
pub uninterp spec fn extended_grapheme_count(s: Seq<char>) -> nat;

/// Counts the extended grapheme clusters of `s` with
/// `unicode_segmentation::UnicodeSegmentation::graphemes(s, true)`.
///
/// Trusted: the count is the named result of that segmentation; each cluster is a
/// non-empty run of `s` and together they cover `s`, so there are no more clusters
/// than characters, and none exactly for the empty string.
#[verifier::external_body]
fn count_extended_graphemes(s: &str) -> (r: usize)
    ensures
        r == extended_grapheme_count(s@),
        r <= s@.len(),
        r == 0 <==> s@.len() == 0,
{
    UnicodeSegmentation::graphemes(s, true).count()
}

/// A string-like type whose number of grapheme clusters is known.
pub trait HasGraphemes {
    /// The number of grapheme clusters.
    spec fn spec_num_graphemes(&self) -> usize;

    fn num_graphemes(&self) -> (r: usize)
        ensures
            r == self.spec_num_graphemes(),
    ;
}

/// A type whose number of grapheme clusters can be checked against an interval.
pub trait Graphemes {
    /// The outcome of checking the number of grapheme clusters against `range`.
    spec fn spec_validate_num_graphemes(&self, range: Interval<usize>) -> Result<(), ErrorView>;

    fn validate_num_graphemes_bounds(&self, range: &Interval<usize>) -> (r: Result<(), Error>)
        ensures
            outcome(r) == self.spec_validate_num_graphemes(*range),
    ;
}

impl<T: HasGraphemes> Graphemes for T {
    open spec fn spec_validate_num_graphemes(&self, range: Interval<usize>) -> Result<(), ErrorView> {
        super::apply_spec(self.spec_num_graphemes(), range)
    }

    fn validate_num_graphemes_bounds(&self, range: &Interval<usize>) -> (r: Result<(), Error>) {
        super::apply_bounds(self.num_graphemes(), range)
    }
}

impl<T: Graphemes> Graphemes for Option<T> {
    open spec fn spec_validate_num_graphemes(&self, range: Interval<usize>) -> Result<(), ErrorView> {
        match self {
            Some(v) => v.spec_validate_num_graphemes(range),
            None => Ok(()),
        }
    }

    fn validate_num_graphemes_bounds(&self, range: &Interval<usize>) -> (r: Result<(), Error>) {
        match self {
            Some(v) => v.validate_num_graphemes_bounds(range),
            None => Ok(()),
        }
    }
}

/// Checks the number of grapheme clusters of `v` against `range`.
pub fn apply<T: Graphemes>(v: &T, range: &Interval<usize>) -> (r: Result<(), Error>)
    ensures
        outcome(r) == v.spec_validate_num_graphemes(*range),
{
    v.validate_num_graphemes_bounds(range)
}

impl HasGraphemes for String {
    open spec fn spec_num_graphemes(&self) -> usize {
        extended_grapheme_count(self@) as usize
    }

    fn num_graphemes(&self) -> (r: usize) {
        count_extended_graphemes(self.as_str())
    }
}

impl<'a> HasGraphemes for &'a String {
    open spec fn spec_num_graphemes(&self) -> usize {
        extended_grapheme_count((*self)@) as usize
    }

    fn num_graphemes(&self) -> (r: usize) {
        count_extended_graphemes((*self).as_str())
    }
}

impl<'a> HasGraphemes for &'a str {
    open spec fn spec_num_graphemes(&self) -> usize {
        extended_grapheme_count((*self)@) as usize
    }

    fn num_graphemes(&self) -> (r: usize) {
        count_extended_graphemes(*self)
    }
}

impl HasGraphemes for std::rc::Rc<str> {
    open spec fn spec_num_graphemes(&self) -> usize {
        extended_grapheme_count((**self)@) as usize
    }

    fn num_graphemes(&self) -> (r: usize) {
        count_extended_graphemes(&**self)
    }
}

impl HasGraphemes for std::sync::Arc<str> {
    open spec fn spec_num_graphemes(&self) -> usize {
        extended_grapheme_count((**self)@) as usize
    }

    fn num_graphemes(&self) -> (r: usize) {
        count_extended_graphemes(&**self)
    }
}

impl HasGraphemes for Box<str> {
    open spec fn spec_num_graphemes(&self) -> usize {
        extended_grapheme_count((**self)@) as usize
    }

    fn num_graphemes(&self) -> (r: usize) {
        count_extended_graphemes(&**self)
    }
}

/// Every string type counts the extended grapheme clusters of its text, and a
/// `String` counts the same as the `&str` of the same text.
pub proof fn lemma_num_graphemes_is_cluster_count(s: String, r: &String, t: &str, b: Box<str>)
    requires
        extended_grapheme_count(s@) <= usize::MAX,
        extended_grapheme_count(r@) <= usize::MAX,
        extended_grapheme_count(t@) <= usize::MAX,
        extended_grapheme_count(b@) <= usize::MAX,
    ensures
        s.spec_num_graphemes() as int == extended_grapheme_count(s@),
        r.spec_num_graphemes() as int == extended_grapheme_count(r@),
        t.spec_num_graphemes() as int == extended_grapheme_count(t@),
        b.spec_num_graphemes() as int == extended_grapheme_count(b@),
        t@ == s@ ==> s.spec_num_graphemes() == t.spec_num_graphemes(),
{
}

} // verus!
