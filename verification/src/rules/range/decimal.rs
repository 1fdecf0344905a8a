//! Decimal numbers for the range rule, compared and written by `rust_decimal`.
//!
//! A [`DecimalValue`] is the mantissa and scale of a `rust_decimal::Decimal`:
//! the number `mantissa / 10^scale`, with the limits that `rust_decimal` sets
//! (a scale of at most 28 and a mantissa of at most 96 bits).

use vstd::prelude::*;

use super::{apply_bounds_spec, apply_spec, check_interval, Bounds, OutOfBounds};
use crate::rules::{Bound, Interval};
use crate::text::nat_decimal;

verus! {

/// The largest mantissa of a decimal, `2^96 - 1`.
pub const MAX_MANTISSA: i128 = 79228162514264337593543950335i128;

/// The largest scale of a decimal.
pub const MAX_SCALE: u32 = 28u32;

/// `10^n`.
pub open spec fn pow10(n: nat) -> int
    decreases n,
{
    if n == 0 {
        1
    } else {
        10 * pow10((n - 1) as nat)
    }
}

/// `n` zeros.
pub open spec fn zeros(n: nat) -> Seq<char> {
    Seq::new(n, |i: int| '0')
}

/// The text that `rust_decimal` writes for the decimal `mantissa / 10^scale`: a `-`
/// for a negative mantissa, then the digits of its magnitude, padded with leading
/// zeros to at least `scale` digits, with a `.` before the last `scale` of them and
/// a `0` before the `.` when no digit is left there (`0` alone for zero at scale 0).
pub open spec fn decimal_display(mantissa: int, scale: int) -> Seq<char> {
    let magnitude = if mantissa < 0 { -mantissa } else { mantissa };
    let digits = if magnitude == 0 { Seq::<char>::empty() } else { nat_decimal(magnitude as nat) };
    let padded = if digits.len() < scale { zeros((scale - digits.len()) as nat) + digits } else { digits };
    let whole_len = padded.len() - scale;
    let whole = if whole_len == 0 { seq!['0'] } else { padded.take(whole_len) };
    let body = if scale <= 0 { whole } else { whole + seq!['.'] + padded.skip(whole_len) };
    (if mantissa < 0 { seq!['-'] } else { Seq::<char>::empty() }) + body
}

/// A decimal number `mantissa / 10^scale`.
#[derive(Clone, Copy, Debug, PartialEq, Eq)]
pub struct DecimalValue {
    mantissa: i128,
    scale: u32,
}

impl DecimalValue {
    /// The mantissa and the scale are within the limits of `rust_decimal`.
    pub open spec fn wf_parts(mantissa: int, scale: int) -> bool {
        0 <= scale <= MAX_SCALE && -MAX_MANTISSA <= mantissa <= MAX_MANTISSA
    }

    #[verifier::type_invariant]
    spec fn inv(self) -> bool {
        Self::wf_parts(self.mantissa as int, self.scale as int)
    }

    /// The mantissa.
    pub closed spec fn spec_mantissa(self) -> int {
        self.mantissa as int
    }

    /// The scale.
    pub closed spec fn spec_scale(self) -> int {
        self.scale as int
    }

    /// The number times `10^28`, an integer for every decimal.
    pub open spec fn scaled(self) -> int {
        self.spec_mantissa() * pow10((MAX_SCALE - self.spec_scale()) as nat)
    }

    /// The text of the number.
    pub open spec fn text(self) -> Seq<char> {
        decimal_display(self.spec_mantissa(), self.spec_scale())
    }

    /// The decimal `mantissa / 10^scale`, if it is within the limits of `rust_decimal`.
    pub fn new(mantissa: i128, scale: u32) -> (r: Option<Self>)
        ensures
            r is Some <==> Self::wf_parts(mantissa as int, scale as int),
            r matches Some(d) ==> d.spec_mantissa() == mantissa && d.spec_scale() == scale,
    {
        if scale <= MAX_SCALE && -MAX_MANTISSA <= mantissa && mantissa <= MAX_MANTISSA {
            Some(DecimalValue { mantissa, scale })
        } else {
            None
        }
    }

    /// The mantissa.
    pub fn mantissa(&self) -> (r: i128)
        ensures
            r == self.spec_mantissa(),
    {
        self.mantissa
    }

    /// The scale.
    pub fn scale(&self) -> (r: u32)
        ensures
            r == self.spec_scale(),
    {
        self.scale
    }

    /// Every decimal lies between the smallest and the largest.
    pub proof fn lemma_within_limits(self)
        requires
            Self::wf_parts(self.spec_mantissa(), self.spec_scale()),
        ensures
            -MAX_MANTISSA * pow10(28) <= self.scaled() <= MAX_MANTISSA * pow10(28),
    {
        let k = (MAX_SCALE - self.spec_scale()) as nat;
        lemma_pow10_monotone(k, 28);
        lemma_pow10_positive(k);
        let p = pow10(k);
        let q = pow10(28);
        let m = self.spec_mantissa();
        assert(m * p <= MAX_MANTISSA * q) by (nonlinear_arith)
            requires
                m <= MAX_MANTISSA,
                0 < p <= q,
                0 <= MAX_MANTISSA,
        ;
        assert(-MAX_MANTISSA * q <= m * p) by (nonlinear_arith)
            requires
                -MAX_MANTISSA <= m,
                0 < p <= q,
                0 <= MAX_MANTISSA,
        ;
    }
}

proof fn lemma_pow10_positive(n: nat)
    ensures
        pow10(n) > 0,
    decreases n,
{
    if n > 0 {
        lemma_pow10_positive((n - 1) as nat);
    }
}

proof fn lemma_pow10_monotone(a: nat, b: nat)
    requires
        a <= b,
    ensures
        pow10(a) <= pow10(b),
    decreases b,
{
    if a < b {
        lemma_pow10_monotone(a, (b - 1) as nat);
        lemma_pow10_positive((b - 1) as nat);
    }
}

/// Whether `a < b`, compared by `rust_decimal`.
///
/// Calls `Decimal::from_i128_with_scale` on each side and `<` on the results;
/// the contract claims that the comparison is that of the numbers' values, and
/// the `requires` keeps both sides within the limits under which the constructor
/// does not panic.
#[verifier::external_body]
fn decimal_less_than(a: &DecimalValue, b: &DecimalValue) -> (r: bool)
    requires
        DecimalValue::wf_parts(a.spec_mantissa(), a.spec_scale()),
        DecimalValue::wf_parts(b.spec_mantissa(), b.spec_scale()),
    ensures
        r == (a.scaled() < b.scaled()),
{
    rust_decimal::Decimal::from_i128_with_scale(a.mantissa, a.scale)
        < rust_decimal::Decimal::from_i128_with_scale(b.mantissa, b.scale)
}

/// The text of `v`, as `rust_decimal` writes it.
///
/// Calls `Decimal::from_i128_with_scale` and `to_string` (its `Display`, which
/// formats with no width or precision); the contract states that text as
/// [`decimal_display`].
#[verifier::external_body]
fn decimal_text(v: &DecimalValue) -> (r: String)
    requires
        DecimalValue::wf_parts(v.spec_mantissa(), v.spec_scale()),
    ensures
        r@ == decimal_display(v.spec_mantissa(), v.spec_scale()),
{
    rust_decimal::Decimal::from_i128_with_scale(v.mantissa, v.scale).to_string()
}

impl Bounds for DecimalValue {
    type Size = DecimalValue;

    open spec fn size_int(s: DecimalValue) -> int {
        s.scaled()
    }

    open spec fn size_text(s: DecimalValue) -> Seq<char> {
        s.text()
    }

    open spec fn spec_value(&self) -> Option<int> {
        Some(self.scaled())
    }

    open spec fn spec_text(&self) -> Seq<char> {
        self.text()
    }

    closed spec fn spec_min() -> DecimalValue {
        DecimalValue { mantissa: (-MAX_MANTISSA) as i128, scale: 0 }
    }

    closed spec fn spec_max() -> DecimalValue {
        DecimalValue { mantissa: MAX_MANTISSA, scale: 0 }
    }

    fn min_size() -> (r: DecimalValue) {
        DecimalValue { mantissa: -MAX_MANTISSA, scale: 0 }
    }

    fn max_size() -> (r: DecimalValue) {
        DecimalValue { mantissa: MAX_MANTISSA, scale: 0 }
    }

    fn size_to_string(s: DecimalValue) -> (r: String) {
        proof {
            use_type_invariant(&s);
        }
        decimal_text(&s)
    }

    fn to_text(&self) -> (r: String) {
        proof {
            use_type_invariant(self);
        }
        decimal_text(self)
    }

    fn validate_bounds(&self, lower_bound: DecimalValue, upper_bound: DecimalValue) -> (r: Result<(), OutOfBounds>) {
        proof {
            use_type_invariant(self);
            use_type_invariant(&lower_bound);
            use_type_invariant(&upper_bound);
        }
        if decimal_less_than(self, &lower_bound) {
            Err(OutOfBounds::Lower)
        } else if decimal_less_than(&upper_bound, self) {
            Err(OutOfBounds::Upper)
        } else {
            Ok(())
        }
    }

    fn validate_range_bounds(&self, bounds: &Interval<DecimalValue>) -> (r: Result<(), OutOfBounds>)
        ensures
            r == match self.spec_value() {
                Some(x) => check_interval(x, *bounds, |s: Self::Size| Self::size_int(s)),
                None => Ok(()),
            },
    {
        proof {
            use_type_invariant(self);
        }
        let below = match bounds.start {
            Bound::Included(lo) => {
                proof {
                    use_type_invariant(&lo);
                }
                decimal_less_than(self, &lo)
            },
            Bound::Excluded(lo) => {
                proof {
                    use_type_invariant(&lo);
                }
                !decimal_less_than(&lo, self)
            },
            Bound::Unbounded => false,
        };
        if below {
            return Err(OutOfBounds::Lower);
        }
        let above = match bounds.end {
            Bound::Included(hi) => {
                proof {
                    use_type_invariant(&hi);
                }
                decimal_less_than(&hi, self)
            },
            Bound::Excluded(hi) => {
                proof {
                    use_type_invariant(&hi);
                }
                !decimal_less_than(self, &hi)
            },
            Bound::Unbounded => false,
        };
        if above {
            return Err(OutOfBounds::Upper);
        }
        Ok(())
    }
}

/// With no minimum and no maximum, every decimal passes; so does every decimal
/// against the unbounded interval.
pub proof fn lemma_unbounded_accepts_decimal(v: DecimalValue)
    requires
        DecimalValue::wf_parts(v.spec_mantissa(), v.spec_scale()),
    ensures
        apply_spec(v, None, None) is Ok,
        apply_bounds_spec(v, Interval { start: Bound::Unbounded, end: Bound::Unbounded }) is Ok,
{
    v.lemma_within_limits();
    assert(pow10(0) == 1);
    assert(pow10((MAX_SCALE - 0) as nat) == pow10(28));
}

} // verus!
