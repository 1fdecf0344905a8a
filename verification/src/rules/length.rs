//! Length validation.
//!
//! The length of a string can be counted in several ways, so the rule has
//! several modes: [`simple`] (the default), [`bytes`], [`chars`],
//! [`graphemes`] and [`utf16`]. The allowed lengths are given by an
//! [`Interval`]; exclusive ends are turned into inclusive ones.

use vstd::prelude::*;

use super::{coded_outcome, interval_contains, outcome, with_code, Bound, Interval};
use crate::error::{Error, ErrorKind, ErrorKindView, ErrorView, LengthBound};

pub mod bytes;
pub mod chars;
pub mod graphemes;
pub mod simple;
pub mod utf16;

pub use bytes::HasBytes;
pub use chars::HasChars;
pub use graphemes::HasGraphemes;
pub use simple::HasSimpleLength;
pub use utf16::HasUtf16CodeUnits;

verus! {

/// The outcome of checking a length against inclusive bounds.
pub open spec fn check_len_spec(len: usize, min: usize, max: usize) -> Result<(), ErrorView> {
    if len < min {
        Err(ErrorView {
            kind: ErrorKindView::LengthTooShort { min: LengthBound::Inclusive(min), actual: len },
            message: None,
        })
    } else if len > max {
        Err(ErrorView {
            kind: ErrorKindView::LengthTooLong { max: LengthBound::Inclusive(max), actual: len },
            message: None,
        })
    } else {
        Ok(())
    }
}

fn check_len(len: usize, min: usize, max: usize) -> (r: Result<(), Error>)
    ensures
        outcome(r) == check_len_spec(len, min, max),
{
    if len < min {
        Err(Error::from_kind(ErrorKind::LengthTooShort { min: LengthBound::Inclusive(min), actual: len }))
    } else if len > max {
        Err(Error::from_kind(ErrorKind::LengthTooLong { max: LengthBound::Inclusive(max), actual: len }))
    } else {
        Ok(())
    }
}

/// The inclusive `(min, max)` pair that an interval of lengths stands for: an
/// exclusive end is moved inward by one, saturating at the limits of `usize`.
pub open spec fn min_max_spec(bounds: Interval<usize>) -> (usize, usize) {
    let min: usize = match bounds.start {
        Bound::Included(m) => m,
        Bound::Excluded(m) => if m == usize::MAX { usize::MAX } else { (m + 1) as usize },
        Bound::Unbounded => 0,
    };
    let max: usize = match bounds.end {
        Bound::Included(m) => m,
        Bound::Excluded(m) => if m == 0 { 0 } else { (m - 1) as usize },
        Bound::Unbounded => usize::MAX,
    };
    (min, max)
}

fn bounds_to_min_max(bounds: &Interval<usize>) -> (r: (usize, usize))
    ensures
        r == min_max_spec(*bounds),
{
    let min = match bounds.start {
        Bound::Included(m) => m,
        Bound::Excluded(m) => m.saturating_add(1),
        Bound::Unbounded => 0,
    };
    let max = match bounds.end {
        Bound::Included(m) => m,
        Bound::Excluded(m) => m.saturating_sub(1),
        Bound::Unbounded => usize::MAX,
    };
    (min, max)
}

/// The outcome of checking a length against an interval.
pub open spec fn apply_spec(len: usize, range: Interval<usize>) -> Result<(), ErrorView> {
    check_len_spec(len, min_max_spec(range).0, min_max_spec(range).1)
}

/// Checks that `len` lies in `range`.
pub fn apply(len: usize, range: &Interval<usize>) -> (r: Result<(), Error>)
    ensures
        outcome(r) == apply_spec(len, *range),
{
    let (min, max) = bounds_to_min_max(range);
    check_len(len, min, max)
}

/// Checks that `len` lies in `range` (the same check as [`apply`]).
pub fn apply_bounds(len: usize, range: &Interval<usize>) -> (r: Result<(), Error>)
    ensures
        outcome(r) == apply_spec(len, *range),
{
    apply(len, range)
}

/// Checks that `len` lies in `range`, reporting a failure under the code `code`.
pub fn apply_with_code(len: usize, range: &Interval<usize>, code: &str) -> (r: Result<(), Error>)
    ensures
        outcome(r) == coded_outcome(apply_spec(len, *range), code@),
{
    match apply(len, range) {
        Ok(()) => Ok(()),
        Err(e) => Err(with_code(e, code)),
    }
}

/// The integer value of a length.
pub open spec fn usize_int(x: usize) -> int {
    x as int
}

/// A length passes exactly when it lies in the interval, except at the two
/// saturated ends: an interval that starts just after `usize::MAX` or ends just
/// before `0` contains no length, yet `usize::MAX` (resp. `0`) passes.
pub proof fn lemma_apply_ok_iff_contained(len: usize, range: Interval<usize>)
    requires
        range.start != Bound::Excluded(usize::MAX),
        range.end != Bound::Excluded(0usize),
    ensures
        apply_spec(len, range) is Ok <==> interval_contains(range, |x: usize| usize_int(x), len as int),
{
}

/// At the saturated ends the check accepts a length that the interval does not contain.
pub proof fn lemma_saturated_ends_accept(range: Interval<usize>)
    ensures
        range.start == Bound::Excluded(usize::MAX) && range.end == Bound::<usize>::Unbounded
            ==> apply_spec(usize::MAX, range) is Ok && !interval_contains(range, |x: usize| usize_int(x), usize::MAX as int),
        range.end == Bound::Excluded(0usize) && range.start == Bound::<usize>::Unbounded
            ==> apply_spec(0, range) is Ok && !interval_contains(range, |x: usize| usize_int(x), 0),
{
}

/// A too short length is reported with the inclusive minimum and the actual length;
/// a too long one with the inclusive maximum.
pub proof fn lemma_apply_error_kind(len: usize, range: Interval<usize>)
    ensures
        apply_spec(len, range) matches Err(e) ==> e.message is None && (
            (len < min_max_spec(range).0 && e.kind == (ErrorKindView::LengthTooShort {
                min: LengthBound::Inclusive(min_max_spec(range).0), actual: len }))
            || (len >= min_max_spec(range).0 && len > min_max_spec(range).1 && e.kind == (ErrorKindView::LengthTooLong {
                max: LengthBound::Inclusive(min_max_spec(range).1), actual: len }))),
{
}

} // verus!
