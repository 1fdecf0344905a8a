//! Substring validation.
//!
//! The entry point is the [`Contains`] trait; every [`AsStr`] type has it, and
//! an absent `Option` value passes.

use vstd::prelude::*;

use super::{coded_outcome, outcome, with_code, AsStr};
use crate::error::{Error, ErrorKind, ErrorKindView, ErrorView};
use crate::text::{has_substring, occurs_at, str_contains};

verus! {

/// A value that can be searched for a substring.
pub trait Contains {
    /// Whether the value contains `pat`.
    spec fn spec_contains(&self, pat: Seq<char>) -> bool;

    fn validate_contains(&self, pat: &str) -> (r: bool)
        ensures
            r == self.spec_contains(pat@),
    ;
}

impl<T: AsStr> Contains for T {
    open spec fn spec_contains(&self, pat: Seq<char>) -> bool {
        has_substring(self.spec_str(), pat)
    }

    fn validate_contains(&self, pat: &str) -> (r: bool) {
        str_contains(self.as_str(), pat)
    }
}

impl<T: Contains> Contains for Option<T> {
    open spec fn spec_contains(&self, pat: Seq<char>) -> bool {
        match self {
            Some(v) => v.spec_contains(pat),
            None => true,
        }
    }

    fn validate_contains(&self, pat: &str) -> (r: bool) {
        match self {
            Some(v) => v.validate_contains(pat),
            None => true,
        }
    }
}

/// The outcome of the rule: the value passes when it contains `pat`, and otherwise the
/// error names the missing substring.
pub open spec fn contains_outcome(found: bool, pat: Seq<char>) -> Result<(), ErrorView> {
    if found {
        Ok(())
    } else {
        Err(ErrorView { kind: ErrorKindView::MissingSubstring { expected: pat }, message: None })
    }
}

/// Checks that `v` contains the substring `args.0`.
pub fn apply<T: Contains>(v: &T, args: (&str,)) -> (r: Result<(), Error>)
    ensures
        outcome(r) == contains_outcome(v.spec_contains(args.0@), args.0@),
{
    let pat = args.0;
    if !v.validate_contains(pat) {
        return Err(Error::from_kind(ErrorKind::MissingSubstring { expected: pat.to_owned() }));
    }
    Ok(())
}

/// Checks that `v` contains the substring `args.0`, reporting a failure under the code `code`.
pub fn apply_with_code<T: Contains>(v: &T, args: (&str,), code: &str) -> (r: Result<(), Error>)
    ensures
        outcome(r) == coded_outcome(contains_outcome(v.spec_contains(args.0@), args.0@), code@),
{
    match apply(v, args) {
        Ok(()) => Ok(()),
        Err(e) => Err(with_code(e, code)),
    }
}

/// Every string contains the empty pattern, and every string contains itself.
pub proof fn lemma_contains_empty_and_self(s: Seq<char>)
    ensures
        has_substring(s, Seq::<char>::empty()),
        has_substring(s, s),
{
    assert(s.subrange(0, 0) =~= Seq::<char>::empty());
    assert(occurs_at(s, Seq::<char>::empty(), 0));
    assert(s.subrange(0, s.len() as int) =~= s);
    assert(occurs_at(s, s, 0));
}

/// An absent value passes whatever the pattern.
pub proof fn lemma_absent_value_passes<T: Contains>(pat: Seq<char>)
    ensures
        Option::<T>::None.spec_contains(pat),
{
}

/// A string, a string slice and a borrowed string contain a pattern exactly when
/// the pattern occurs in their text, and each contains any pattern that sits
/// between two other pieces of text.
pub proof fn lemma_contains_means_occurs(s: String, t: &str, r: &String, pat: Seq<char>, a: Seq<char>, b: Seq<char>)
    ensures
        s.spec_contains(pat) <==> exists|i: int| 0 <= i && i + pat.len() <= s@.len() && #[trigger] s@.subrange(i, i + pat.len()) == pat,
        t.spec_contains(pat) <==> exists|i: int| 0 <= i && i + pat.len() <= t@.len() && #[trigger] t@.subrange(i, i + pat.len()) == pat,
        r.spec_contains(pat) <==> exists|i: int| 0 <= i && i + pat.len() <= r@.len() && #[trigger] r@.subrange(i, i + pat.len()) == pat,
        has_substring(a + pat + b, pat),
        has_substring(s@, pat) ==> pat.len() <= s@.len(),
{
    let w = a + pat + b;
    assert(w.subrange(a.len() as int, (a.len() + pat.len()) as int) =~= pat);
    assert(occurs_at(w, pat, a.len() as int));
    if s.spec_contains(pat) {
        let i = choose|i: int| occurs_at(s@, pat, i);
        assert(s@.subrange(i, i + pat.len()) == pat);
    }
    if t.spec_contains(pat) {
        let i = choose|i: int| occurs_at(t@, pat, i);
        assert(t@.subrange(i, i + pat.len()) == pat);
    }
    if r.spec_contains(pat) {
        let i = choose|i: int| occurs_at(r@, pat, i);
        assert(r@.subrange(i, i + pat.len()) == pat);
    }
    if exists|i: int| 0 <= i && i + pat.len() <= s@.len() && #[trigger] s@.subrange(i, i + pat.len()) == pat {
        let i = choose|i: int| 0 <= i && i + pat.len() <= s@.len() && #[trigger] s@.subrange(i, i + pat.len()) == pat;
        assert(occurs_at(s@, pat, i));
    }
    if exists|i: int| 0 <= i && i + pat.len() <= t@.len() && #[trigger] t@.subrange(i, i + pat.len()) == pat {
        let i = choose|i: int| 0 <= i && i + pat.len() <= t@.len() && #[trigger] t@.subrange(i, i + pat.len()) == pat;
        assert(occurs_at(t@, pat, i));
    }
    if exists|i: int| 0 <= i && i + pat.len() <= r@.len() && #[trigger] r@.subrange(i, i + pat.len()) == pat {
        let i = choose|i: int| 0 <= i && i + pat.len() <= r@.len() && #[trigger] r@.subrange(i, i + pat.len()) == pat;
        assert(occurs_at(r@, pat, i));
    }
}

} // verus!
