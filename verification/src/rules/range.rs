//! Range validation for numbers.
//!
//! The entry point is the [`Bounds`] trait; every primitive integer type has
//! it, and an absent `Option` value passes. The allowed values are given either
//! by an optional minimum and maximum ([`apply`]) or by an [`Interval`]
//! ([`apply_bounds`]), whose exclusive ends every type of this library honors.

use vstd::prelude::*;

use super::{interval_contains, outcome, Bound, Interval};

pub mod decimal;
use crate::error::{Error, ErrorKind, ErrorKindView, ErrorView, RangeBound, RangeBoundView};
use crate::text::{int_decimal, signed_to_string, unsigned_to_string};

verus! {

/// Which end of the allowed range a value falls outside of.
#[derive(Clone, Copy, Debug, PartialEq, Eq)]
pub enum OutOfBounds {
    Lower,
    Upper,
}

/// A primitive integer type, seen through its mathematical value.
pub trait PrimInt: Copy {
    /// The integer value.
    spec fn int_of(self) -> int;

    /// The smallest value of the type.
    spec fn spec_min_value() -> Self;

    /// The largest value of the type.
    spec fn spec_max_value() -> Self;

    /// Every value lies between the smallest and the largest.
    proof fn lemma_within_type(x: Self)
        ensures
            Self::spec_min_value().int_of() <= x.int_of() <= Self::spec_max_value().int_of(),
    ;

    fn min_value() -> (r: Self)
        ensures
            r == Self::spec_min_value(),
    ;

    fn max_value() -> (r: Self)
        ensures
            r == Self::spec_max_value(),
    ;

    fn less_than(self, other: Self) -> (r: bool)
        ensures
            r == (self.int_of() < other.int_of()),
    ;

    fn decimal(self) -> (r: String)
        ensures
            r@ == int_decimal(self.int_of()),
    ;
}

/// Where an integer lies relative to inclusive bounds.
pub open spec fn check_bounds(v: int, lower: int, upper: int) -> Result<(), OutOfBounds> {
    if v < lower {
        Err(OutOfBounds::Lower)
    } else if v > upper {
        Err(OutOfBounds::Upper)
    } else {
        Ok(())
    }
}

/// Where an integer lies relative to an interval whose ends are mapped to integers by `f`.
pub open spec fn check_interval<S>(v: int, bounds: Interval<S>, f: spec_fn(S) -> int) -> Result<(), OutOfBounds> {
    let below = match bounds.start {
        Bound::Included(lo) => v < f(lo),
        Bound::Excluded(lo) => v <= f(lo),
        Bound::Unbounded => false,
    };
    let above = match bounds.end {
        Bound::Included(hi) => v > f(hi),
        Bound::Excluded(hi) => v >= f(hi),
        Bound::Unbounded => false,
    };
    if below {
        Err(OutOfBounds::Lower)
    } else if above {
        Err(OutOfBounds::Upper)
    } else {
        Ok(())
    }
}

/// A type whose values can be checked against a range.
pub trait Bounds: Sized {
    /// The type of the range's ends.
    type Size: Copy;

    /// The integer value of an end.
    spec fn size_int(s: Self::Size) -> int;

    /// The text of an end.
    spec fn size_text(s: Self::Size) -> Seq<char>;

    /// The value to check, or `None` when there is nothing to check.
    spec fn spec_value(&self) -> Option<int>;

    /// The text of the value.
    spec fn spec_text(&self) -> Seq<char>;

    /// The smallest end.
    spec fn spec_min() -> Self::Size;

    /// The largest end.
    spec fn spec_max() -> Self::Size;

    fn min_size() -> (r: Self::Size)
        ensures
            r == Self::spec_min(),
    ;

    fn max_size() -> (r: Self::Size)
        ensures
            r == Self::spec_max(),
    ;

    fn size_to_string(s: Self::Size) -> (r: String)
        ensures
            r@ == Self::size_text(s),
    ;

    fn to_text(&self) -> (r: String)
        ensures
            r@ == self.spec_text(),
    ;

    /// Checks that the value lies within `lower..=upper`.
    fn validate_bounds(&self, lower_bound: Self::Size, upper_bound: Self::Size) -> (r: Result<(), OutOfBounds>)
        ensures
            r == match self.spec_value() {
                Some(v) => check_bounds(v, Self::size_int(lower_bound), Self::size_int(upper_bound)),
                None => Ok(()),
            },
    ;

    /// Checks that the value lies within `bounds`. Every type of this library
    /// honors exclusive ends; the provided method reads each exclusive end as
    /// inclusive, checking with [`Bounds::validate_bounds`] between the two ends'
    /// values (the type's limits for an unbounded end). Whichever an implementor
    /// chooses, the outcome is one of the two readings, and the readings differ
    /// only for a value at an exclusive end ([`lemma_readings_agree`]).
    fn validate_range_bounds(&self, bounds: &Interval<Self::Size>) -> (r: Result<(), OutOfBounds>)
        ensures
            r == match self.spec_value() {
                Some(x) => check_interval(x, *bounds, |s: Self::Size| Self::size_int(s)),
                None => Ok(()),
            } || r == match self.spec_value() {
                Some(x) => check_bounds(
                    x,
                    Self::size_int(end_value(bounds.start, Self::spec_min())),
                    Self::size_int(end_value(bounds.end, Self::spec_max())),
                ),
                None => Ok(()),
            },
        default_ensures
            r == match self.spec_value() {
                Some(x) => check_bounds(
                    x,
                    Self::size_int(end_value(bounds.start, Self::spec_min())),
                    Self::size_int(end_value(bounds.end, Self::spec_max())),
                ),
                None => Ok(()),
            },
    {
        let lower = match bounds.start {
            Bound::Included(m) => m,
            Bound::Excluded(m) => m,
            Bound::Unbounded => Self::min_size(),
        };
        let upper = match bounds.end {
            Bound::Included(m) => m,
            Bound::Excluded(m) => m,
            Bound::Unbounded => Self::max_size(),
        };
        self.validate_bounds(lower, upper)
    }
}

/// The outcome of checking `v` against `bounds` with each end read as written.
pub open spec fn exact_reading<T: Bounds>(v: T, bounds: Interval<T::Size>) -> Result<(), OutOfBounds> {
    match v.spec_value() {
        Some(x) => check_interval(x, bounds, |s: T::Size| T::size_int(s)),
        None => Ok(()),
    }
}

/// The outcome of checking `v` against `bounds` with each exclusive end read as
/// inclusive, an unbounded end standing for the type's limit.
pub open spec fn inclusive_reading<T: Bounds>(v: T, bounds: Interval<T::Size>) -> Result<(), OutOfBounds> {
    match v.spec_value() {
        Some(x) => check_bounds(
            x,
            T::size_int(end_value(bounds.start, T::spec_min())),
            T::size_int(end_value(bounds.end, T::spec_max())),
        ),
        None => Ok(()),
    }
}

impl<T: PrimInt> Bounds for T {
    type Size = T;

    open spec fn size_int(s: T) -> int {
        s.int_of()
    }

    open spec fn size_text(s: T) -> Seq<char> {
        int_decimal(s.int_of())
    }

    open spec fn spec_value(&self) -> Option<int> {
        Some(self.int_of())
    }

    open spec fn spec_text(&self) -> Seq<char> {
        int_decimal(self.int_of())
    }

    open spec fn spec_min() -> T {
        T::spec_min_value()
    }

    open spec fn spec_max() -> T {
        T::spec_max_value()
    }

    fn min_size() -> (r: T) {
        T::min_value()
    }

    fn max_size() -> (r: T) {
        T::max_value()
    }

    fn size_to_string(s: T) -> (r: String) {
        s.decimal()
    }

    fn to_text(&self) -> (r: String) {
        self.decimal()
    }

    fn validate_bounds(&self, lower_bound: T, upper_bound: T) -> (r: Result<(), OutOfBounds>) {
        if self.less_than(lower_bound) {
            Err(OutOfBounds::Lower)
        } else if upper_bound.less_than(*self) {
            Err(OutOfBounds::Upper)
        } else {
            Ok(())
        }
    }

    fn validate_range_bounds(&self, bounds: &Interval<T>) -> (r: Result<(), OutOfBounds>)
        ensures
            r == match self.spec_value() {
                Some(x) => check_interval(x, *bounds, |s: Self::Size| Self::size_int(s)),
                None => Ok(()),
            },
    {
        let below = match bounds.start {
            Bound::Included(lo) => self.less_than(lo),
            Bound::Excluded(lo) => !lo.less_than(*self),
            Bound::Unbounded => false,
        };
        if below {
            return Err(OutOfBounds::Lower);
        }
        let above = match bounds.end {
            Bound::Included(hi) => hi.less_than(*self),
            Bound::Excluded(hi) => !self.less_than(hi),
            Bound::Unbounded => false,
        };
        if above {
            return Err(OutOfBounds::Upper);
        }
        Ok(())
    }
}

impl<T: Bounds> Bounds for Option<T> {
    type Size = T::Size;

    open spec fn size_int(s: T::Size) -> int {
        T::size_int(s)
    }

    open spec fn size_text(s: T::Size) -> Seq<char> {
        T::size_text(s)
    }

    open spec fn spec_value(&self) -> Option<int> {
        match self {
            Some(v) => v.spec_value(),
            None => None,
        }
    }

    open spec fn spec_text(&self) -> Seq<char> {
        match self {
            Some(v) => v.spec_text(),
            None => Seq::empty(),
        }
    }

    open spec fn spec_min() -> T::Size {
        T::spec_min()
    }

    open spec fn spec_max() -> T::Size {
        T::spec_max()
    }

    fn min_size() -> (r: T::Size) {
        T::min_size()
    }

    fn max_size() -> (r: T::Size) {
        T::max_size()
    }

    fn size_to_string(s: T::Size) -> (r: String) {
        T::size_to_string(s)
    }

    fn to_text(&self) -> (r: String) {
        match self {
            Some(v) => v.to_text(),
            None => String::new(),
        }
    }

    fn validate_bounds(&self, lower_bound: T::Size, upper_bound: T::Size) -> (r: Result<(), OutOfBounds>) {
        match self {
            Some(v) => v.validate_bounds(lower_bound, upper_bound),
            None => Ok(()),
        }
    }

    fn validate_range_bounds(&self, bounds: &Interval<T::Size>) -> (r: Result<(), OutOfBounds>) {
        match self {
            Some(v) => v.validate_range_bounds(bounds),
            None => Ok(()),
        }
    }
}

/// The value an interval end stands for when exclusive ends are taken as inclusive,
/// an unbounded end standing for `limit`.
pub open spec fn end_value<S>(b: Bound<S>, limit: S) -> S {
    match b {
        Bound::Included(m) => m,
        Bound::Excluded(m) => m,
        Bound::Unbounded => limit,
    }
}

/// Checks `v` against `bounds` with each exclusive end taken as inclusive, through
/// [`Bounds::validate_bounds`]: what the provided [`Bounds::validate_range_bounds`] does.
pub fn validate_range_bounds_as_inclusive<T: Bounds>(v: &T, bounds: &Interval<T::Size>) -> (r: Result<(), OutOfBounds>)
    ensures
        r == inclusive_reading(*v, *bounds),
{
    let lower = match bounds.start {
        Bound::Included(m) => m,
        Bound::Excluded(m) => m,
        Bound::Unbounded => T::min_size(),
    };
    let upper = match bounds.end {
        Bound::Included(m) => m,
        Bound::Excluded(m) => m,
        Bound::Unbounded => T::max_size(),
    };
    v.validate_bounds(lower, upper)
}

/// The error for a value below the inclusive minimum `min`.
pub open spec fn too_low<T: Bounds>(v: T, min: RangeBoundView) -> ErrorView {
    ErrorView { kind: ErrorKindView::RangeTooLow { min: min, actual: v.spec_text() }, message: None }
}

/// The error for a value above the maximum `max`.
pub open spec fn too_high<T: Bounds>(v: T, max: RangeBoundView) -> ErrorView {
    ErrorView { kind: ErrorKindView::RangeTooHigh { max: max, actual: v.spec_text() }, message: None }
}

/// The outcome of checking `v` against an optional minimum and maximum (each
/// defaulting to the limit of the type).
pub open spec fn apply_spec<T: Bounds>(v: T, min: Option<T::Size>, max: Option<T::Size>) -> Result<(), ErrorView> {
    let lo = match min {
        Some(m) => m,
        None => T::spec_min(),
    };
    let hi = match max {
        Some(m) => m,
        None => T::spec_max(),
    };
    match v.spec_value() {
        None => Ok(()),
        Some(x) => match check_bounds(x, T::size_int(lo), T::size_int(hi)) {
            Ok(()) => Ok(()),
            Err(OutOfBounds::Lower) => Err(too_low(v, RangeBoundView::Inclusive(T::size_text(lo)))),
            Err(OutOfBounds::Upper) => Err(too_high(v, RangeBoundView::Inclusive(T::size_text(hi)))),
        },
    }
}

/// Checks that `v` lies within `args.0..=args.1`, a missing end standing for the limit of the type.
pub fn apply<T: Bounds>(v: &T, args: (Option<T::Size>, Option<T::Size>)) -> (r: Result<(), Error>)
    ensures
        outcome(r) == apply_spec(*v, args.0, args.1),
{
    let (min, max) = args;
    let min = match min {
        Some(m) => m,
        None => T::min_size(),
    };
    let max = match max {
        Some(m) => m,
        None => T::max_size(),
    };
    match v.validate_bounds(min, max) {
        Ok(()) => Ok(()),
        Err(OutOfBounds::Lower) => Err(Error::from_kind(ErrorKind::RangeTooLow {
            min: RangeBound::Inclusive(T::size_to_string(min)),
            actual: v.to_text(),
        })),
        Err(OutOfBounds::Upper) => Err(Error::from_kind(ErrorKind::RangeTooHigh {
            max: RangeBound::Inclusive(T::size_to_string(max)),
            actual: v.to_text(),
        })),
    }
}

/// The bound that an interval end stands for, an unbounded end standing for `limit`.
pub open spec fn end_bound<T: Bounds>(b: Bound<T::Size>, limit: T::Size) -> RangeBoundView {
    match b {
        Bound::Included(m) => RangeBoundView::Inclusive(T::size_text(m)),
        Bound::Excluded(m) => RangeBoundView::Exclusive(T::size_text(m)),
        Bound::Unbounded => RangeBoundView::Inclusive(T::size_text(limit)),
    }
}

/// The result of `apply_bounds` for `v` and `bounds` when the check of the value
/// came out as `o`.
pub open spec fn bounds_outcome<T: Bounds>(v: T, bounds: Interval<T::Size>, o: Result<(), OutOfBounds>) -> Result<(), ErrorView> {
    match o {
        Ok(()) => Ok(()),
        Err(OutOfBounds::Lower) => Err(too_low(v, end_bound::<T>(bounds.start, T::spec_min()))),
        Err(OutOfBounds::Upper) => Err(too_high(v, end_bound::<T>(bounds.end, T::spec_max()))),
    }
}

/// The outcome of `apply_bounds` for a type that honors exclusive ends.
pub open spec fn apply_bounds_spec<T: Bounds>(v: T, bounds: Interval<T::Size>) -> Result<(), ErrorView> {
    bounds_outcome(v, bounds, exact_reading(v, bounds))
}

/// The outcome of `apply_bounds` for a type that reads exclusive ends as inclusive.
pub open spec fn apply_bounds_inclusive_spec<T: Bounds>(v: T, bounds: Interval<T::Size>) -> Result<(), ErrorView> {
    bounds_outcome(v, bounds, inclusive_reading(v, bounds))
}

fn end_bound_of<T: Bounds>(b: Bound<T::Size>, limit: T::Size) -> (r: RangeBound)
    ensures
        r@ == end_bound::<T>(b, limit),
{
    match b {
        Bound::Included(m) => RangeBound::Inclusive(T::size_to_string(m)),
        Bound::Excluded(m) => RangeBound::Exclusive(T::size_to_string(m)),
        Bound::Unbounded => RangeBound::Inclusive(T::size_to_string(limit)),
    }
}

/// The error that `apply_bounds` reports for `v` and `bounds` when the check of
/// the value came out as `o`.
pub fn range_bounds_outcome<T: Bounds>(v: &T, bounds: &Interval<T::Size>, o: Result<(), OutOfBounds>) -> (r: Result<(), Error>)
    ensures
        outcome(r) == bounds_outcome(*v, *bounds, o),
{
    match o {
        Ok(()) => Ok(()),
        Err(OutOfBounds::Lower) => {
            let min = end_bound_of::<T>(bounds.start, T::min_size());
            Err(Error::from_kind(ErrorKind::RangeTooLow { min, actual: v.to_text() }))
        },
        Err(OutOfBounds::Upper) => {
            let max = end_bound_of::<T>(bounds.end, T::max_size());
            Err(Error::from_kind(ErrorKind::RangeTooHigh { max, actual: v.to_text() }))
        },
    }
}

/// Checks that `v` lies within the interval `args.0`, as the type reads its ends:
/// exactly for every type of this library, and for any type with one of the two
/// readings, which agree but for a value at an exclusive end.
pub fn apply_bounds<T: Bounds>(v: &T, args: (Interval<T::Size>,)) -> (r: Result<(), Error>)
    ensures
        outcome(r) == apply_bounds_spec(*v, args.0) || outcome(r) == apply_bounds_inclusive_spec(*v, args.0),
{
    let bounds = args.0;
    let o = v.validate_range_bounds(&bounds);
    range_bounds_outcome(v, &bounds, o)
}

/// A value passes the exact reading of an interval exactly when the interval
/// contains it; a value outside is reported as too low when it falls before the
/// start and as too high otherwise.
pub proof fn lemma_apply_bounds_ok_iff_contained<T: Bounds>(v: T, bounds: Interval<T::Size>)
    requires
        v.spec_value() is Some,
    ensures
        apply_bounds_spec(v, bounds) is Ok <==> interval_contains(
            bounds,
            |s: T::Size| T::size_int(s),
            v.spec_value()->0,
        ),
        apply_bounds_spec(v, bounds) matches Err(e) ==> (e.kind is RangeTooLow <==> !interval_contains(
            Interval { start: bounds.start, end: Bound::Unbounded },
            |s: T::Size| T::size_int(s),
            v.spec_value()->0,
        )),
{
}

/// Under the inclusive reading, a value passes exactly when it lies between the
/// values of the two ends, both inclusive, an unbounded end standing for the
/// type's limit.
pub proof fn lemma_apply_bounds_inclusive_reading<T: Bounds>(v: T, bounds: Interval<T::Size>)
    requires
        v.spec_value() is Some,
    ensures
        apply_bounds_inclusive_spec(v, bounds) is Ok <==> T::size_int(end_value(bounds.start, T::spec_min()))
            <= v.spec_value()->0 <= T::size_int(end_value(bounds.end, T::spec_max())),
{
}

/// The two readings of an interval give the same outcome for every value that is
/// not the value of an exclusive end of it.
pub proof fn lemma_readings_agree<T: Bounds>(v: T, bounds: Interval<T::Size>)
    requires
        v.spec_value() matches Some(x) ==> T::size_int(T::spec_min()) <= x <= T::size_int(T::spec_max()),
        forall|m: T::Size| bounds.start == Bound::Excluded(m) ==> v.spec_value() != Some(T::size_int(m)),
        forall|m: T::Size| bounds.end == Bound::Excluded(m) ==> v.spec_value() != Some(T::size_int(m)),
    ensures
        exact_reading(v, bounds) == inclusive_reading(v, bounds),
        apply_bounds_spec(v, bounds) == apply_bounds_inclusive_spec(v, bounds),
{
}

/// A value passes `apply` exactly when it lies between the minimum and the maximum,
/// both inclusive, a missing end standing for the limit of the type.
pub proof fn lemma_apply_ok_iff_between<T: Bounds>(v: T, min: Option<T::Size>, max: Option<T::Size>)
    requires
        v.spec_value() is Some,
    ensures
        apply_spec(v, min, max) is Ok <==> T::size_int(
            match min {
                Some(m) => m,
                None => T::spec_min(),
            },
        ) <= v.spec_value()->0 <= T::size_int(
            match max {
                Some(m) => m,
                None => T::spec_max(),
            },
        ),
{
}

/// A minimum and a maximum check the same as the inclusive interval between them,
/// errors included.
pub proof fn lemma_apply_is_inclusive_interval<T: Bounds>(v: T, lo: T::Size, hi: T::Size)
    ensures
        apply_spec(v, Some(lo), Some(hi)) == apply_bounds_spec(
            v,
            Interval { start: Bound::Included(lo), end: Bound::Included(hi) },
        ),
{
}

/// An absent value passes whatever the range.
pub proof fn lemma_absent_value_passes<T: Bounds>(min: Option<T::Size>, max: Option<T::Size>, bounds: Interval<T::Size>)
    ensures
        apply_spec(Option::<T>::None, min, max) is Ok,
        apply_bounds_spec(Option::<T>::None, bounds) is Ok,
{
}

/// With no minimum and no maximum, every integer passes; so does every integer
/// against the unbounded interval.
pub proof fn lemma_unbounded_accepts<T: PrimInt>(v: T)
    ensures
        apply_spec(v, None, None) is Ok,
        apply_bounds_spec(v, Interval { start: Bound::Unbounded, end: Bound::Unbounded }) is Ok,
{
    T::lemma_within_type(v);
}

/// Every primitive integer type is compared and written by its own value: the
/// integer of a value is the value itself, and the limits are the type's own
/// smallest and largest values.
pub proof fn lemma_prim_int_is_own_value(
    a: u8,
    b: u16,
    c: u32,
    d: u64,
    e: u128,
    f: usize,
    g: i8,
    h: i16,
    i: i32,
    j: i64,
    k: i128,
    l: isize,
)
    ensures
        a.int_of() == a as int && <u8 as PrimInt>::spec_min_value() == u8::MIN
            && <u8 as PrimInt>::spec_max_value() == u8::MAX,
        b.int_of() == b as int && <u16 as PrimInt>::spec_min_value() == u16::MIN
            && <u16 as PrimInt>::spec_max_value() == u16::MAX,
        c.int_of() == c as int && <u32 as PrimInt>::spec_min_value() == u32::MIN
            && <u32 as PrimInt>::spec_max_value() == u32::MAX,
        d.int_of() == d as int && <u64 as PrimInt>::spec_min_value() == u64::MIN
            && <u64 as PrimInt>::spec_max_value() == u64::MAX,
        e.int_of() == e as int && <u128 as PrimInt>::spec_min_value() == u128::MIN
            && <u128 as PrimInt>::spec_max_value() == u128::MAX,
        f.int_of() == f as int && <usize as PrimInt>::spec_min_value() == usize::MIN
            && <usize as PrimInt>::spec_max_value() == usize::MAX,
        g.int_of() == g as int && <i8 as PrimInt>::spec_min_value() == i8::MIN
            && <i8 as PrimInt>::spec_max_value() == i8::MAX,
        h.int_of() == h as int && <i16 as PrimInt>::spec_min_value() == i16::MIN
            && <i16 as PrimInt>::spec_max_value() == i16::MAX,
        i.int_of() == i as int && <i32 as PrimInt>::spec_min_value() == i32::MIN
            && <i32 as PrimInt>::spec_max_value() == i32::MAX,
        j.int_of() == j as int && <i64 as PrimInt>::spec_min_value() == i64::MIN
            && <i64 as PrimInt>::spec_max_value() == i64::MAX,
        k.int_of() == k as int && <i128 as PrimInt>::spec_min_value() == i128::MIN
            && <i128 as PrimInt>::spec_max_value() == i128::MAX,
        l.int_of() == l as int && <isize as PrimInt>::spec_min_value() == isize::MIN
            && <isize as PrimInt>::spec_max_value() == isize::MAX,
{
}

/// For a primitive integer, the inclusive range check passes exactly when the
/// value lies between the two ends by the type's own order, and an error names
/// the side it falls out on.
pub proof fn lemma_prim_int_check_by_own_order(x: isize, lo: isize, hi: isize, y: i64, ylo: i64, yhi: i64)
    ensures
        check_bounds(x.int_of(), lo.int_of(), hi.int_of()) == (if x < lo {
            Err(OutOfBounds::Lower)
        } else if x > hi {
            Err(OutOfBounds::Upper)
        } else {
            Ok(())
        }),
        check_bounds(y.int_of(), ylo.int_of(), yhi.int_of()) == (if y < ylo {
            Err(OutOfBounds::Lower)
        } else if y > yhi {
            Err(OutOfBounds::Upper)
        } else {
            Ok(())
        }),
{
}

impl PrimInt for u8 {
    open spec fn int_of(self) -> int {
        self as int
    }

    open spec fn spec_min_value() -> u8 {
        u8::MIN
    }

    open spec fn spec_max_value() -> u8 {
        u8::MAX
    }

    proof fn lemma_within_type(x: u8) {
    }

    fn min_value() -> (r: Self) {
        u8::MIN
    }

    fn max_value() -> (r: Self) {
        u8::MAX
    }

    fn less_than(self, other: Self) -> (r: bool) {
        self < other
    }

    fn decimal(self) -> (r: String) {
        unsigned_to_string(self as u128)
    }
}

impl PrimInt for u16 {
    open spec fn int_of(self) -> int {
        self as int
    }

    open spec fn spec_min_value() -> u16 {
        u16::MIN
    }

    open spec fn spec_max_value() -> u16 {
        u16::MAX
    }

    proof fn lemma_within_type(x: u16) {
    }

    fn min_value() -> (r: Self) {
        u16::MIN
    }

    fn max_value() -> (r: Self) {
        u16::MAX
    }

    fn less_than(self, other: Self) -> (r: bool) {
        self < other
    }

    fn decimal(self) -> (r: String) {
        unsigned_to_string(self as u128)
    }
}

impl PrimInt for u32 {
    open spec fn int_of(self) -> int {
        self as int
    }

    open spec fn spec_min_value() -> u32 {
        u32::MIN
    }

    open spec fn spec_max_value() -> u32 {
        u32::MAX
    }

    proof fn lemma_within_type(x: u32) {
    }

    fn min_value() -> (r: Self) {
        u32::MIN
    }

    fn max_value() -> (r: Self) {
        u32::MAX
    }

    fn less_than(self, other: Self) -> (r: bool) {
        self < other
    }

    fn decimal(self) -> (r: String) {
        unsigned_to_string(self as u128)
    }
}

impl PrimInt for u64 {
    open spec fn int_of(self) -> int {
        self as int
    }

    open spec fn spec_min_value() -> u64 {
        u64::MIN
    }

    open spec fn spec_max_value() -> u64 {
        u64::MAX
    }

    proof fn lemma_within_type(x: u64) {
    }

    fn min_value() -> (r: Self) {
        u64::MIN
    }

    fn max_value() -> (r: Self) {
        u64::MAX
    }

    fn less_than(self, other: Self) -> (r: bool) {
        self < other
    }

    fn decimal(self) -> (r: String) {
        unsigned_to_string(self as u128)
    }
}

impl PrimInt for u128 {
    open spec fn int_of(self) -> int {
        self as int
    }

    open spec fn spec_min_value() -> u128 {
        u128::MIN
    }

    open spec fn spec_max_value() -> u128 {
        u128::MAX
    }

    proof fn lemma_within_type(x: u128) {
    }

    fn min_value() -> (r: Self) {
        u128::MIN
    }

    fn max_value() -> (r: Self) {
        u128::MAX
    }

    fn less_than(self, other: Self) -> (r: bool) {
        self < other
    }

    fn decimal(self) -> (r: String) {
        unsigned_to_string(self as u128)
    }
}

impl PrimInt for usize {
    open spec fn int_of(self) -> int {
        self as int
    }

    open spec fn spec_min_value() -> usize {
        usize::MIN
    }

    open spec fn spec_max_value() -> usize {
        usize::MAX
    }

    proof fn lemma_within_type(x: usize) {
    }

    fn min_value() -> (r: Self) {
        usize::MIN
    }

    fn max_value() -> (r: Self) {
        usize::MAX
    }

    fn less_than(self, other: Self) -> (r: bool) {
        self < other
    }

    fn decimal(self) -> (r: String) {
        unsigned_to_string(self as u128)
    }
}

impl PrimInt for i8 {
    open spec fn int_of(self) -> int {
        self as int
    }

    open spec fn spec_min_value() -> i8 {
        i8::MIN
    }

    open spec fn spec_max_value() -> i8 {
        i8::MAX
    }

    proof fn lemma_within_type(x: i8) {
    }

    fn min_value() -> (r: Self) {
        i8::MIN
    }

    fn max_value() -> (r: Self) {
        i8::MAX
    }

    fn less_than(self, other: Self) -> (r: bool) {
        self < other
    }

    fn decimal(self) -> (r: String) {
        signed_to_string(self as i128)
    }
}

impl PrimInt for i16 {
    open spec fn int_of(self) -> int {
        self as int
    }

    open spec fn spec_min_value() -> i16 {
        i16::MIN
    }

    open spec fn spec_max_value() -> i16 {
        i16::MAX
    }

    proof fn lemma_within_type(x: i16) {
    }

    fn min_value() -> (r: Self) {
        i16::MIN
    }

    fn max_value() -> (r: Self) {
        i16::MAX
    }

    fn less_than(self, other: Self) -> (r: bool) {
        self < other
    }

    fn decimal(self) -> (r: String) {
        signed_to_string(self as i128)
    }
}

impl PrimInt for i32 {
    open spec fn int_of(self) -> int {
        self as int
    }

    open spec fn spec_min_value() -> i32 {
        i32::MIN
    }

    open spec fn spec_max_value() -> i32 {
        i32::MAX
    }

    proof fn lemma_within_type(x: i32) {
    }

    fn min_value() -> (r: Self) {
        i32::MIN
    }

    fn max_value() -> (r: Self) {
        i32::MAX
    }

    fn less_than(self, other: Self) -> (r: bool) {
        self < other
    }

    fn decimal(self) -> (r: String) {
        signed_to_string(self as i128)
    }
}

impl PrimInt for i64 {
    open spec fn int_of(self) -> int {
        self as int
    }

    open spec fn spec_min_value() -> i64 {
        i64::MIN
    }

    open spec fn spec_max_value() -> i64 {
        i64::MAX
    }

    proof fn lemma_within_type(x: i64) {
    }

    fn min_value() -> (r: Self) {
        i64::MIN
    }

    fn max_value() -> (r: Self) {
        i64::MAX
    }

    fn less_than(self, other: Self) -> (r: bool) {
        self < other
    }

    fn decimal(self) -> (r: String) {
        signed_to_string(self as i128)
    }
}

impl PrimInt for i128 {
    open spec fn int_of(self) -> int {
        self as int
    }

    open spec fn spec_min_value() -> i128 {
        i128::MIN
    }

    open spec fn spec_max_value() -> i128 {
        i128::MAX
    }

    proof fn lemma_within_type(x: i128) {
    }

    fn min_value() -> (r: Self) {
        i128::MIN
    }

    fn max_value() -> (r: Self) {
        i128::MAX
    }

    fn less_than(self, other: Self) -> (r: bool) {
        self < other
    }

    fn decimal(self) -> (r: String) {
        signed_to_string(self as i128)
    }
}

impl PrimInt for isize {
    open spec fn int_of(self) -> int {
        self as int
    }

    open spec fn spec_min_value() -> isize {
        isize::MIN
    }

    open spec fn spec_max_value() -> isize {
        isize::MAX
    }

    proof fn lemma_within_type(x: isize) {
    }

    fn min_value() -> (r: Self) {
        isize::MIN
    }

    fn max_value() -> (r: Self) {
        isize::MAX
    }

    fn less_than(self, other: Self) -> (r: bool) {
        self < other
    }

    fn decimal(self) -> (r: String) {
        signed_to_string(self as i128)
    }
}

} // verus!
