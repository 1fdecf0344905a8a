//! Validation rules.
//!
//! Each rule has an `apply` function that checks a value and returns the
//! [`Error`] to report when the check fails, and a trait that lets a type take
//! part in the rule.

use vstd::prelude::*;

use crate::error::{Error, ErrorKind, ErrorKindView, ErrorView};

pub mod contains;
pub mod ip;
pub mod length;
pub mod matches;
pub mod phone_number;
pub mod range;
pub mod required;

verus! {

/// A string-like value whose text the string rules inspect.
pub trait AsStr {
    /// The value's text.
    spec fn spec_str(&self) -> Seq<char>;

    fn as_str(&self) -> (r: &str)
        ensures
            r@ == self.spec_str(),
    ;
}

impl AsStr for String {
    open spec fn spec_str(&self) -> Seq<char> {
        self@
    }

    fn as_str(&self) -> (r: &str) {
        String::as_str(self)
    }
}

impl<'a> AsStr for &'a str {
    open spec fn spec_str(&self) -> Seq<char> {
        (*self)@
    }

    fn as_str(&self) -> (r: &str) {
        *self
    }
}

impl<'a> AsStr for &'a String {
    open spec fn spec_str(&self) -> Seq<char> {
        (*self)@
    }

    fn as_str(&self) -> (r: &str) {
        String::as_str(*self)
    }
}

/// One end of an interval.
#[derive(Clone, Copy, Debug, PartialEq, Eq)]
pub enum Bound<T> {
    Included(T),
    Excluded(T),
    Unbounded,
}

/// An interval given by its two ends, as written with Rust's range syntax
/// (`a..b`, `a..=b`, `a..`, `..b`, `..=b`, `..`).
#[derive(Clone, Copy, Debug, PartialEq, Eq)]
pub struct Interval<T> {
    pub start: Bound<T>,
    pub end: Bound<T>,
}

impl<T: Copy> Interval<T> {
    /// The interval with the given ends.
    pub fn new(start: Bound<T>, end: Bound<T>) -> (r: Self)
        ensures
            r == (Interval { start, end }),
    {
        Interval { start, end }
    }

    /// `lo..=hi`
    pub fn inclusive(lo: T, hi: T) -> (r: Self)
        ensures
            r == (Interval { start: Bound::Included(lo), end: Bound::Included(hi) }),
    {
        Interval { start: Bound::Included(lo), end: Bound::Included(hi) }
    }

    /// `lo..hi`
    pub fn half_open(lo: T, hi: T) -> (r: Self)
        ensures
            r == (Interval { start: Bound::Included(lo), end: Bound::Excluded(hi) }),
    {
        Interval { start: Bound::Included(lo), end: Bound::Excluded(hi) }
    }

    /// `lo..`
    pub fn from(lo: T) -> (r: Self)
        ensures
            r == (Interval { start: Bound::Included(lo), end: Bound::<T>::Unbounded }),
    {
        Interval { start: Bound::Included(lo), end: Bound::Unbounded }
    }

    /// `..=hi`
    pub fn up_to(hi: T) -> (r: Self)
        ensures
            r == (Interval { start: Bound::<T>::Unbounded, end: Bound::Included(hi) }),
    {
        Interval { start: Bound::Unbounded, end: Bound::Included(hi) }
    }

    /// `..hi`
    pub fn below(hi: T) -> (r: Self)
        ensures
            r == (Interval { start: Bound::<T>::Unbounded, end: Bound::Excluded(hi) }),
    {
        Interval { start: Bound::Unbounded, end: Bound::Excluded(hi) }
    }

    /// `..`
    pub fn full() -> (r: Self)
        ensures
            r == (Interval::<T> { start: Bound::Unbounded, end: Bound::Unbounded }),
    {
        Interval { start: Bound::Unbounded, end: Bound::Unbounded }
    }
}

/// `x` lies in the interval, the ends mapped to integers by `f`.
pub open spec fn interval_contains<T>(iv: Interval<T>, f: spec_fn(T) -> int, x: int) -> bool {
    &&& match iv.start {
        Bound::Included(lo) => f(lo) <= x,
        Bound::Excluded(lo) => f(lo) < x,
        Bound::Unbounded => true,
    }
    &&& match iv.end {
        Bound::Included(hi) => x <= f(hi),
        Bound::Excluded(hi) => x < f(hi),
        Bound::Unbounded => true,
    }
}

/// The mathematical value of a rule's outcome.
pub open spec fn outcome(r: Result<(), Error>) -> Result<(), ErrorView> {
    match r {
        Ok(()) => Ok(()),
        Err(e) => Err(e@),
    }
}

/// The error a rule reports under a caller-chosen code: the kind becomes `Custom`
/// with that code and the parameters of the error's kind, and the message that the error displays is kept.
pub open spec fn coded(e: ErrorView, code: Seq<char>) -> ErrorView {
    ErrorView {
        kind: ErrorKindView::Custom { code: code, params: e.kind.params() },
        message: Some(e.display_message()),
    }
}

/// Reports `e` under the code `code`, keeping the message that `e` displays.
pub fn with_code(e: Error, code: &str) -> (r: Error)
    ensures
        r@ == coded(e@, code@),
{
    let message = e.display_message();
    let params = e.kind.into_params();
    Error { kind: ErrorKind::Custom { code: code.to_owned(), params }, message: Some(message) }
}

/// An outcome reported under a caller-chosen code.
pub open spec fn coded_outcome(r: Result<(), ErrorView>, code: Seq<char>) -> Result<(), ErrorView> {
    match r {
        Ok(()) => Ok(()),
        Err(e) => Err(coded(e, code)),
    }
}

} // verus!
