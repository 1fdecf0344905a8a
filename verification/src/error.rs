//! Error types reported by the validation rules.
//!
//! The entry point is [`Error`]: a structured [`ErrorKind`] with typed
//! parameters and an optional message that overrides the generated one.
//! Strings are modelled by their characters; each type's mathematical value
//! is given by its `View`.

use vstd::prelude::*;

mod params;
mod path;
mod report;
pub mod fluent_support;

pub use params::{entries_map, lookup, ParamValue, ParamValueView, Params};
pub use report::{report_line, report_text_upto, Report};
pub use path::{
    component_items, component_text, path_text, path_text_upto, Kind, NoKey, Path, PathComponentKind, PathComponents,
};

use crate::text::{concat_str, nat_decimal, push_decimal, replace_dots_with_dashes, dots_to_dashes};

verus! {

// ============================================================================
// LengthBound
// ============================================================================

/// A bound in a length constraint.
#[derive(Clone, Debug, PartialEq, Eq)]
pub enum LengthBound {
    Inclusive(usize),
    Exclusive(usize),
}

impl LengthBound {
    /// The bound's value, whether inclusive or exclusive.
    pub open spec fn spec_value(self) -> usize {
        match self {
            LengthBound::Inclusive(v) => v,
            LengthBound::Exclusive(v) => v,
        }
    }

    /// The bound as text: the value, followed by ` (exclusive)` for an exclusive bound.
    pub open spec fn display(self) -> Seq<char> {
        match self {
            LengthBound::Inclusive(v) => nat_decimal(v as nat),
            LengthBound::Exclusive(v) => nat_decimal(v as nat) + " (exclusive)"@,
        }
    }

    /// Gets the bound value.
    pub fn value(&self) -> (r: usize)
        ensures
            r == self.spec_value(),
    {
        match self {
            LengthBound::Inclusive(v) => *v,
            LengthBound::Exclusive(v) => *v,
        }
    }

    /// Checks if the bound is inclusive.
    pub fn is_inclusive(&self) -> (r: bool)
        ensures
            r <==> self is Inclusive,
    {
        match self {
            LengthBound::Inclusive(_) => true,
            LengthBound::Exclusive(_) => false,
        }
    }

    /// The bound as text.
    pub fn to_string(&self) -> (r: String)
        ensures
            r@ == self.display(),
    {
        let mut s = String::new();
        push_decimal(&mut s, self.value() as u128);
        assert(s@ =~= nat_decimal(self.spec_value() as nat));
        if !self.is_inclusive() {
            s.append(" (exclusive)");
        }
        s
    }
}

// ============================================================================
// RangeBound
// ============================================================================

/// A bound in a range constraint, kept as text so that any numeric type fits.
#[derive(Clone, Debug, PartialEq, Eq)]
pub enum RangeBound {
    Inclusive(String),
    Exclusive(String),
}

/// The mathematical value of a [`RangeBound`].
pub enum RangeBoundView {
    Inclusive(Seq<char>),
    Exclusive(Seq<char>),
}

impl View for RangeBound {
    type V = RangeBoundView;

    open spec fn view(&self) -> RangeBoundView {
        match self {
            RangeBound::Inclusive(v) => RangeBoundView::Inclusive(v@),
            RangeBound::Exclusive(v) => RangeBoundView::Exclusive(v@),
        }
    }
}

impl RangeBoundView {
    /// The bound's text.
    pub open spec fn value_str(self) -> Seq<char> {
        match self {
            RangeBoundView::Inclusive(v) => v,
            RangeBoundView::Exclusive(v) => v,
        }
    }

    /// The bound as text: the value, followed by ` (exclusive)` for an exclusive bound.
    pub open spec fn display(self) -> Seq<char> {
        match self {
            RangeBoundView::Inclusive(v) => v,
            RangeBoundView::Exclusive(v) => v + " (exclusive)"@,
        }
    }
}

impl RangeBound {
    /// Gets the bound value as a string.
    pub fn value_str(&self) -> (r: &str)
        ensures
            r@ == self@.value_str(),
    {
        match self {
            RangeBound::Inclusive(v) => v.as_str(),
            RangeBound::Exclusive(v) => v.as_str(),
        }
    }

    /// Checks if the bound is inclusive.
    pub fn is_inclusive(&self) -> (r: bool)
        ensures
            r <==> self@ is Inclusive,
    {
        match self {
            RangeBound::Inclusive(_) => true,
            RangeBound::Exclusive(_) => false,
        }
    }

    /// The bound as text.
    pub fn to_string(&self) -> (r: String)
        ensures
            r@ == self@.display(),
    {
        match self {
            RangeBound::Inclusive(v) => v.clone(),
            RangeBound::Exclusive(v) => concat_str(v.as_str(), " (exclusive)"),
        }
    }
}

// ============================================================================
// EmailErrorReason
// ============================================================================

/// Detailed reason for an email validation failure.
#[derive(Clone, Debug, PartialEq, Eq)]
pub enum EmailErrorReason {
    Empty,
    MissingAt,
    UserLengthExceeded,
    InvalidUser,
    DomainLengthExceeded,
    InvalidDomain,
}

impl EmailErrorReason {
    /// The reason as text.
    pub open spec fn display(self) -> Seq<char> {
        match self {
            EmailErrorReason::Empty => "empty"@,
            EmailErrorReason::MissingAt => "missing `@`"@,
            EmailErrorReason::UserLengthExceeded => "user length exceeded"@,
            EmailErrorReason::InvalidUser => "invalid user"@,
            EmailErrorReason::DomainLengthExceeded => "domain length exceeded"@,
            EmailErrorReason::InvalidDomain => "invalid domain"@,
        }
    }

    /// The reason as text.
    pub fn as_str(&self) -> (r: &'static str)
        ensures
            r@ == self.display(),
    {
        match self {
            EmailErrorReason::Empty => "empty",
            EmailErrorReason::MissingAt => "missing `@`",
            EmailErrorReason::UserLengthExceeded => "user length exceeded",
            EmailErrorReason::InvalidUser => "invalid user",
            EmailErrorReason::DomainLengthExceeded => "domain length exceeded",
            EmailErrorReason::InvalidDomain => "invalid domain",
        }
    }

    /// The reason as text.
    pub fn to_string(&self) -> (r: String)
        ensures
            r@ == self.display(),
    {
        self.as_str().to_owned()
    }
}

// ============================================================================
// IpKind
// ============================================================================

/// The kind of IP address a value is expected to be.
#[derive(Clone, Copy, Debug, PartialEq, Eq)]
pub enum IpKind {
    Any,
    V4,
    V6,
}

impl IpKind {
    /// The kind as text.
    pub open spec fn display(self) -> Seq<char> {
        match self {
            IpKind::Any => "IP"@,
            IpKind::V4 => "IPv4"@,
            IpKind::V6 => "IPv6"@,
        }
    }

    /// The kind as text.
    pub fn as_str(&self) -> (r: &'static str)
        ensures
            r@ == self.display(),
    {
        match self {
            IpKind::Any => "IP",
            IpKind::V4 => "IPv4",
            IpKind::V6 => "IPv6",
        }
    }

    /// The kind as text.
    pub fn to_string(&self) -> (r: String)
        ensures
            r@ == self.display(),
    {
        self.as_str().to_owned()
    }
}


// ============================================================================
// ErrorKind
// ============================================================================

/// The kind of error that occurred during validation.
///
/// Built-in rules use specific variants with typed parameters; custom rules
/// and code overrides use `Custom` with a string code.
#[derive(Clone, Debug, PartialEq)]
#[non_exhaustive]
#[allow(inconsistent_fields)]
pub enum ErrorKind {
    LengthTooShort { min: LengthBound, actual: usize },
    LengthTooLong { max: LengthBound, actual: usize },
    RangeTooLow { min: RangeBound, actual: String },
    RangeTooHigh { max: RangeBound, actual: String },
    InvalidEmail { reason: EmailErrorReason },
    InvalidUrl { reason: String },
    InvalidIp { expected: IpKind },
    InvalidCreditCard { reason: String },
    InvalidPhoneNumber { reason: String },
    NotAscii,
    NotAlphanumeric,
    PatternMismatch { pattern: String },
    MissingSubstring { expected: String },
    MissingPrefix { expected: String },
    MissingSuffix { expected: String },
    FieldMismatch { other_field: String },
    Required,
    Custom { code: String, params: Params },
}

/// The mathematical value of an [`ErrorKind`].
#[allow(inconsistent_fields)]
pub enum ErrorKindView {
    LengthTooShort { min: LengthBound, actual: usize },
    LengthTooLong { max: LengthBound, actual: usize },
    RangeTooLow { min: RangeBoundView, actual: Seq<char> },
    RangeTooHigh { max: RangeBoundView, actual: Seq<char> },
    InvalidEmail { reason: EmailErrorReason },
    InvalidUrl { reason: Seq<char> },
    InvalidIp { expected: IpKind },
    InvalidCreditCard { reason: Seq<char> },
    InvalidPhoneNumber { reason: Seq<char> },
    NotAscii,
    NotAlphanumeric,
    PatternMismatch { pattern: Seq<char> },
    MissingSubstring { expected: Seq<char> },
    MissingPrefix { expected: Seq<char> },
    MissingSuffix { expected: Seq<char> },
    FieldMismatch { other_field: Seq<char> },
    Required,
    Custom { code: Seq<char>, params: Map<Seq<char>, ParamValueView> },
}

impl View for ErrorKind {
    type V = ErrorKindView;

    open spec fn view(&self) -> ErrorKindView {
        match self {
            ErrorKind::LengthTooShort { min, actual } => ErrorKindView::LengthTooShort { min: *min, actual: *actual },
            ErrorKind::LengthTooLong { max, actual } => ErrorKindView::LengthTooLong { max: *max, actual: *actual },
            ErrorKind::RangeTooLow { min, actual } => ErrorKindView::RangeTooLow { min: min@, actual: actual@ },
            ErrorKind::RangeTooHigh { max, actual } => ErrorKindView::RangeTooHigh { max: max@, actual: actual@ },
            ErrorKind::InvalidEmail { reason } => ErrorKindView::InvalidEmail { reason: *reason },
            ErrorKind::InvalidUrl { reason } => ErrorKindView::InvalidUrl { reason: reason@ },
            ErrorKind::InvalidIp { expected } => ErrorKindView::InvalidIp { expected: *expected },
            ErrorKind::InvalidCreditCard { reason } => ErrorKindView::InvalidCreditCard { reason: reason@ },
            ErrorKind::InvalidPhoneNumber { reason } => ErrorKindView::InvalidPhoneNumber { reason: reason@ },
            ErrorKind::NotAscii => ErrorKindView::NotAscii,
            ErrorKind::NotAlphanumeric => ErrorKindView::NotAlphanumeric,
            ErrorKind::PatternMismatch { pattern } => ErrorKindView::PatternMismatch { pattern: pattern@ },
            ErrorKind::MissingSubstring { expected } => ErrorKindView::MissingSubstring { expected: expected@ },
            ErrorKind::MissingPrefix { expected } => ErrorKindView::MissingPrefix { expected: expected@ },
            ErrorKind::MissingSuffix { expected } => ErrorKindView::MissingSuffix { expected: expected@ },
            ErrorKind::FieldMismatch { other_field } => ErrorKindView::FieldMismatch { other_field: other_field@ },
            ErrorKind::Required => ErrorKindView::Required,
            ErrorKind::Custom { code, params } => ErrorKindView::Custom { code: code@, params: params@ },
        }
    }
}

impl ErrorKindView {
    /// The error code (the key used to look up a translated message).
    pub open spec fn code(self) -> Seq<char> {
        match self {
            ErrorKindView::LengthTooShort { .. } => "length.too_short"@,
            ErrorKindView::LengthTooLong { .. } => "length.too_long"@,
            ErrorKindView::RangeTooLow { .. } => "range.too_low"@,
            ErrorKindView::RangeTooHigh { .. } => "range.too_high"@,
            ErrorKindView::InvalidEmail { .. } => "email.invalid"@,
            ErrorKindView::InvalidUrl { .. } => "url.invalid"@,
            ErrorKindView::InvalidIp { expected } => match expected {
                IpKind::Any => "ip.invalid"@,
                IpKind::V4 => "ip.invalid_v4"@,
                IpKind::V6 => "ip.invalid_v6"@,
            },
            ErrorKindView::InvalidCreditCard { .. } => "credit_card.invalid"@,
            ErrorKindView::InvalidPhoneNumber { .. } => "phone_number.invalid"@,
            ErrorKindView::NotAscii => "ascii.invalid"@,
            ErrorKindView::NotAlphanumeric => "alphanumeric.invalid"@,
            ErrorKindView::PatternMismatch { .. } => "pattern.mismatch"@,
            ErrorKindView::MissingSubstring { .. } => "contains.missing"@,
            ErrorKindView::MissingPrefix { .. } => "prefix.missing"@,
            ErrorKindView::MissingSuffix { .. } => "suffix.missing"@,
            ErrorKindView::FieldMismatch { .. } => "matches.mismatch"@,
            ErrorKindView::Required => "required"@,
            ErrorKindView::Custom { code, .. } => code,
        }
    }

    /// The Fluent message id: the code with hyphens where built-in codes have dots.
    pub open spec fn fluent_code(self) -> Seq<char> {
        match self {
            ErrorKindView::LengthTooShort { .. } => "length-too_short"@,
            ErrorKindView::LengthTooLong { .. } => "length-too_long"@,
            ErrorKindView::RangeTooLow { .. } => "range-too_low"@,
            ErrorKindView::RangeTooHigh { .. } => "range-too_high"@,
            ErrorKindView::InvalidEmail { .. } => "email-invalid"@,
            ErrorKindView::InvalidUrl { .. } => "url-invalid"@,
            ErrorKindView::InvalidIp { expected } => match expected {
                IpKind::Any => "ip-invalid"@,
                IpKind::V4 => "ip-invalid_v4"@,
                IpKind::V6 => "ip-invalid_v6"@,
            },
            ErrorKindView::InvalidCreditCard { .. } => "credit_card-invalid"@,
            ErrorKindView::InvalidPhoneNumber { .. } => "phone_number-invalid"@,
            ErrorKindView::NotAscii => "ascii-invalid"@,
            ErrorKindView::NotAlphanumeric => "alphanumeric-invalid"@,
            ErrorKindView::PatternMismatch { .. } => "pattern-mismatch"@,
            ErrorKindView::MissingSubstring { .. } => "contains-missing"@,
            ErrorKindView::MissingPrefix { .. } => "prefix-missing"@,
            ErrorKindView::MissingSuffix { .. } => "suffix-missing"@,
            ErrorKindView::FieldMismatch { .. } => "matches-mismatch"@,
            ErrorKindView::Required => "required"@,
            ErrorKindView::Custom { code, .. } => dots_to_dashes(code),
        }
    }

    /// The default English message.
    pub open spec fn default_message(self) -> Seq<char> {
        match self {
            ErrorKindView::LengthTooShort { min, .. } => "length is lower than "@ + nat_decimal(min.spec_value() as nat),
            ErrorKindView::LengthTooLong { max, .. } => "length is greater than "@ + nat_decimal(max.spec_value() as nat),
            ErrorKindView::RangeTooLow { min, .. } => "lower than "@ + min.value_str(),
            ErrorKindView::RangeTooHigh { max, .. } => "greater than "@ + max.value_str(),
            ErrorKindView::InvalidEmail { reason } => "not a valid email: "@ + reason.display(),
            ErrorKindView::InvalidUrl { reason } => "not a valid url: "@ + reason,
            ErrorKindView::InvalidIp { expected } => match expected {
                IpKind::Any => "not a valid IP address"@,
                IpKind::V4 => "not a valid IPv4 address"@,
                IpKind::V6 => "not a valid IPv6 address"@,
            },
            ErrorKindView::InvalidCreditCard { reason } => "not a valid credit card number: "@ + reason,
            ErrorKindView::InvalidPhoneNumber { reason } => "not a valid phone number: "@ + reason,
            ErrorKindView::NotAscii => "not ascii"@,
            ErrorKindView::NotAlphanumeric => "not alphanumeric"@,
            ErrorKindView::PatternMismatch { pattern } => "does not match pattern /"@ + pattern + "/"@,
            ErrorKindView::MissingSubstring { expected } => "does not contain \""@ + expected + "\""@,
            ErrorKindView::MissingPrefix { expected } => "value does not begin with \""@ + expected + "\""@,
            ErrorKindView::MissingSuffix { expected } => "does not end with \""@ + expected + "\""@,
            ErrorKindView::FieldMismatch { other_field } => "does not match "@ + other_field + " field"@,
            ErrorKindView::Required => "not set"@,
            ErrorKindView::Custom { code, .. } => "validation failed: "@ + code,
        }
    }

    /// The parameters of this kind, by name.
    pub open spec fn params(self) -> Map<Seq<char>, ParamValueView> {
        let empty = Map::<Seq<char>, ParamValueView>::empty();
        match self {
            ErrorKindView::LengthTooShort { min, actual } => empty
                .insert("min"@, ParamValueView::Unsigned(min.spec_value() as u64))
                .insert("actual"@, ParamValueView::Unsigned(actual as u64)),
            ErrorKindView::LengthTooLong { max, actual } => empty
                .insert("max"@, ParamValueView::Unsigned(max.spec_value() as u64))
                .insert("actual"@, ParamValueView::Unsigned(actual as u64)),
            ErrorKindView::RangeTooLow { min, actual } => empty
                .insert("min"@, ParamValueView::String(min.value_str()))
                .insert("actual"@, ParamValueView::String(actual)),
            ErrorKindView::RangeTooHigh { max, actual } => empty
                .insert("max"@, ParamValueView::String(max.value_str()))
                .insert("actual"@, ParamValueView::String(actual)),
            ErrorKindView::InvalidEmail { reason } => empty.insert("reason"@, ParamValueView::String(reason.display())),
            ErrorKindView::InvalidUrl { reason } => empty.insert("reason"@, ParamValueView::String(reason)),
            ErrorKindView::InvalidIp { expected } => empty.insert("expected"@, ParamValueView::String(expected.display())),
            ErrorKindView::InvalidCreditCard { reason } => empty.insert("reason"@, ParamValueView::String(reason)),
            ErrorKindView::InvalidPhoneNumber { reason } => empty.insert("reason"@, ParamValueView::String(reason)),
            ErrorKindView::NotAscii => empty,
            ErrorKindView::NotAlphanumeric => empty,
            ErrorKindView::PatternMismatch { pattern } => empty.insert("pattern"@, ParamValueView::String(pattern)),
            ErrorKindView::MissingSubstring { expected } => empty.insert("expected"@, ParamValueView::String(expected)),
            ErrorKindView::MissingPrefix { expected } => empty.insert("expected"@, ParamValueView::String(expected)),
            ErrorKindView::MissingSuffix { expected } => empty.insert("expected"@, ParamValueView::String(expected)),
            ErrorKindView::FieldMismatch { other_field } => empty.insert("other_field"@, ParamValueView::String(other_field)),
            ErrorKindView::Required => empty,
            ErrorKindView::Custom { params, .. } => params,
        }
    }
}

/// Which built-in code a kind has: one class per variant, `InvalidIp` split by the
/// kind of address it expects.
pub open spec fn code_class(k: ErrorKindView) -> int {
    match k {
        ErrorKindView::LengthTooShort { .. } => 0,
        ErrorKindView::LengthTooLong { .. } => 1,
        ErrorKindView::RangeTooLow { .. } => 2,
        ErrorKindView::RangeTooHigh { .. } => 3,
        ErrorKindView::InvalidEmail { .. } => 4,
        ErrorKindView::InvalidUrl { .. } => 5,
        ErrorKindView::InvalidIp { expected } => match expected {
            IpKind::Any => 6,
            IpKind::V4 => 7,
            IpKind::V6 => 8,
        },
        ErrorKindView::InvalidCreditCard { .. } => 9,
        ErrorKindView::InvalidPhoneNumber { .. } => 10,
        ErrorKindView::NotAscii => 11,
        ErrorKindView::NotAlphanumeric => 12,
        ErrorKindView::PatternMismatch { .. } => 13,
        ErrorKindView::MissingSubstring { .. } => 14,
        ErrorKindView::MissingPrefix { .. } => 15,
        ErrorKindView::MissingSuffix { .. } => 16,
        ErrorKindView::FieldMismatch { .. } => 17,
        ErrorKindView::Required => 18,
        ErrorKindView::Custom { .. } => 19,
    }
}

/// Two kinds other than `Custom` have the same code exactly when they are the same
/// variant (for `InvalidIp`, expecting the same kind of address), whatever else they
/// hold; a `Custom` kind's code is the code it holds.
pub proof fn lemma_code_identifies_kind(k1: ErrorKindView, k2: ErrorKindView)
    ensures
        !(k1 is Custom) && !(k2 is Custom) ==> (k1.code() == k2.code() <==> code_class(k1) == code_class(k2)),
        k1 matches ErrorKindView::Custom { code, .. } ==> k1.code() == code,
{
    reveal_strlit("length.too_short");
    reveal_strlit("length.too_long");
    reveal_strlit("range.too_low");
    reveal_strlit("range.too_high");
    reveal_strlit("email.invalid");
    reveal_strlit("url.invalid");
    reveal_strlit("ip.invalid");
    reveal_strlit("ip.invalid_v4");
    reveal_strlit("ip.invalid_v6");
    reveal_strlit("credit_card.invalid");
    reveal_strlit("phone_number.invalid");
    reveal_strlit("ascii.invalid");
    reveal_strlit("alphanumeric.invalid");
    reveal_strlit("pattern.mismatch");
    reveal_strlit("contains.missing");
    reveal_strlit("prefix.missing");
    reveal_strlit("suffix.missing");
    reveal_strlit("matches.mismatch");
    reveal_strlit("required");
    if !(k1 is Custom) && !(k2 is Custom) && code_class(k1) != code_class(k2) {
        let c1 = k1.code();
        let c2 = k2.code();
        if c1.len() == c2.len() {
            assert(c1[0] != c2[0] || c1[1] != c2[1] || c1[c1.len() - 1] != c2[c2.len() - 1]);
        }
    }
}

/// Every kind's Fluent message id is its code with each `.` replaced by `-`.
pub proof fn lemma_fluent_code_is_dashed_code(k: ErrorKindView)
    ensures
        k.fluent_code() == dots_to_dashes(k.code()),
{
    reveal_strlit("length.too_short");
    reveal_strlit("length-too_short");
    reveal_strlit("length.too_long");
    reveal_strlit("length-too_long");
    reveal_strlit("range.too_low");
    reveal_strlit("range-too_low");
    reveal_strlit("range.too_high");
    reveal_strlit("range-too_high");
    reveal_strlit("email.invalid");
    reveal_strlit("email-invalid");
    reveal_strlit("url.invalid");
    reveal_strlit("url-invalid");
    reveal_strlit("ip.invalid");
    reveal_strlit("ip-invalid");
    reveal_strlit("ip.invalid_v4");
    reveal_strlit("ip-invalid_v4");
    reveal_strlit("ip.invalid_v6");
    reveal_strlit("ip-invalid_v6");
    reveal_strlit("credit_card.invalid");
    reveal_strlit("credit_card-invalid");
    reveal_strlit("phone_number.invalid");
    reveal_strlit("phone_number-invalid");
    reveal_strlit("ascii.invalid");
    reveal_strlit("ascii-invalid");
    reveal_strlit("alphanumeric.invalid");
    reveal_strlit("alphanumeric-invalid");
    reveal_strlit("pattern.mismatch");
    reveal_strlit("pattern-mismatch");
    reveal_strlit("contains.missing");
    reveal_strlit("contains-missing");
    reveal_strlit("prefix.missing");
    reveal_strlit("prefix-missing");
    reveal_strlit("suffix.missing");
    reveal_strlit("suffix-missing");
    reveal_strlit("matches.mismatch");
    reveal_strlit("matches-mismatch");
    reveal_strlit("required");
    assert(k.fluent_code() =~= dots_to_dashes(k.code()));
}

impl ErrorKind {
    /// Gets the error code (useful for looking up a translated message).
    pub fn code(&self) -> (r: &str)
        ensures
            r@ == self@.code(),
    {
        match self {
            ErrorKind::LengthTooShort { .. } => "length.too_short",
            ErrorKind::LengthTooLong { .. } => "length.too_long",
            ErrorKind::RangeTooLow { .. } => "range.too_low",
            ErrorKind::RangeTooHigh { .. } => "range.too_high",
            ErrorKind::InvalidEmail { .. } => "email.invalid",
            ErrorKind::InvalidUrl { .. } => "url.invalid",
            ErrorKind::InvalidIp { expected } => match expected {
                IpKind::Any => "ip.invalid",
                IpKind::V4 => "ip.invalid_v4",
                IpKind::V6 => "ip.invalid_v6",
            },
            ErrorKind::InvalidCreditCard { .. } => "credit_card.invalid",
            ErrorKind::InvalidPhoneNumber { .. } => "phone_number.invalid",
            ErrorKind::NotAscii => "ascii.invalid",
            ErrorKind::NotAlphanumeric => "alphanumeric.invalid",
            ErrorKind::PatternMismatch { .. } => "pattern.mismatch",
            ErrorKind::MissingSubstring { .. } => "contains.missing",
            ErrorKind::MissingPrefix { .. } => "prefix.missing",
            ErrorKind::MissingSuffix { .. } => "suffix.missing",
            ErrorKind::FieldMismatch { .. } => "matches.mismatch",
            ErrorKind::Required => "required",
            ErrorKind::Custom { code, .. } => code.as_str(),
        }
    }

    /// Gets the Fluent message id: the code with hyphens in place of dots.
    pub fn fluent_code(&self) -> (r: String)
        ensures
            r@ == self@.fluent_code(),
    {
        match self {
            ErrorKind::LengthTooShort { .. } => "length-too_short".to_owned(),
            ErrorKind::LengthTooLong { .. } => "length-too_long".to_owned(),
            ErrorKind::RangeTooLow { .. } => "range-too_low".to_owned(),
            ErrorKind::RangeTooHigh { .. } => "range-too_high".to_owned(),
            ErrorKind::InvalidEmail { .. } => "email-invalid".to_owned(),
            ErrorKind::InvalidUrl { .. } => "url-invalid".to_owned(),
            ErrorKind::InvalidIp { expected } => match expected {
                IpKind::Any => "ip-invalid".to_owned(),
                IpKind::V4 => "ip-invalid_v4".to_owned(),
                IpKind::V6 => "ip-invalid_v6".to_owned(),
            },
            ErrorKind::InvalidCreditCard { .. } => "credit_card-invalid".to_owned(),
            ErrorKind::InvalidPhoneNumber { .. } => "phone_number-invalid".to_owned(),
            ErrorKind::NotAscii => "ascii-invalid".to_owned(),
            ErrorKind::NotAlphanumeric => "alphanumeric-invalid".to_owned(),
            ErrorKind::PatternMismatch { .. } => "pattern-mismatch".to_owned(),
            ErrorKind::MissingSubstring { .. } => "contains-missing".to_owned(),
            ErrorKind::MissingPrefix { .. } => "prefix-missing".to_owned(),
            ErrorKind::MissingSuffix { .. } => "suffix-missing".to_owned(),
            ErrorKind::FieldMismatch { .. } => "matches-mismatch".to_owned(),
            ErrorKind::Required => "required".to_owned(),
            ErrorKind::Custom { code, .. } => replace_dots_with_dashes(code.as_str()),
        }
    }

    /// Generates the default English message for this kind.
    pub fn default_message(&self) -> (r: String)
        ensures
            r@ == self@.default_message(),
    {
        match self {
            ErrorKind::LengthTooShort { min, .. } => {
                let mut s = "length is lower than ".to_owned();
                push_decimal(&mut s, min.value() as u128);
                s
            },
            ErrorKind::LengthTooLong { max, .. } => {
                let mut s = "length is greater than ".to_owned();
                push_decimal(&mut s, max.value() as u128);
                s
            },
            ErrorKind::RangeTooLow { min, .. } => concat_str("lower than ", min.value_str()),
            ErrorKind::RangeTooHigh { max, .. } => concat_str("greater than ", max.value_str()),
            ErrorKind::InvalidEmail { reason } => concat_str("not a valid email: ", reason.as_str()),
            ErrorKind::InvalidUrl { reason } => concat_str("not a valid url: ", reason.as_str()),
            ErrorKind::InvalidIp { expected } => match expected {
                IpKind::Any => "not a valid IP address".to_owned(),
                IpKind::V4 => "not a valid IPv4 address".to_owned(),
                IpKind::V6 => "not a valid IPv6 address".to_owned(),
            },
            ErrorKind::InvalidCreditCard { reason } => concat_str("not a valid credit card number: ", reason.as_str()),
            ErrorKind::InvalidPhoneNumber { reason } => concat_str("not a valid phone number: ", reason.as_str()),
            ErrorKind::NotAscii => "not ascii".to_owned(),
            ErrorKind::NotAlphanumeric => "not alphanumeric".to_owned(),
            ErrorKind::PatternMismatch { pattern } => {
                let mut s = concat_str("does not match pattern /", pattern.as_str());
                s.append("/");
                s
            },
            ErrorKind::MissingSubstring { expected } => {
                let mut s = concat_str("does not contain \"", expected.as_str());
                s.append("\"");
                s
            },
            ErrorKind::MissingPrefix { expected } => {
                let mut s = concat_str("value does not begin with \"", expected.as_str());
                s.append("\"");
                s
            },
            ErrorKind::MissingSuffix { expected } => {
                let mut s = concat_str("does not end with \"", expected.as_str());
                s.append("\"");
                s
            },
            ErrorKind::FieldMismatch { other_field } => {
                let mut s = concat_str("does not match ", other_field.as_str());
                s.append(" field");
                s
            },
            ErrorKind::Required => "not set".to_owned(),
            ErrorKind::Custom { code, .. } => concat_str("validation failed: ", code.as_str()),
        }
    }

    /// Extracts the parameters of this kind (for filling message templates).
    pub fn into_params(self) -> (r: Params)
        ensures
            r@ == self@.params(),
    {
        let ghost kv = self@;
        let mut params = Params::new();
        match self {
            ErrorKind::LengthTooShort { min, actual } => {
                params.insert("min".to_owned(), ParamValue::Unsigned(min.value() as u64));
                params.insert("actual".to_owned(), ParamValue::Unsigned(actual as u64));
            },
            ErrorKind::LengthTooLong { max, actual } => {
                params.insert("max".to_owned(), ParamValue::Unsigned(max.value() as u64));
                params.insert("actual".to_owned(), ParamValue::Unsigned(actual as u64));
            },
            ErrorKind::RangeTooLow { min, actual } => {
                params.insert("min".to_owned(), ParamValue::String(min.value_str().to_owned()));
                params.insert("actual".to_owned(), ParamValue::String(actual));
            },
            ErrorKind::RangeTooHigh { max, actual } => {
                params.insert("max".to_owned(), ParamValue::String(max.value_str().to_owned()));
                params.insert("actual".to_owned(), ParamValue::String(actual));
            },
            ErrorKind::InvalidEmail { reason } => {
                params.insert("reason".to_owned(), ParamValue::String(reason.to_string()));
            },
            ErrorKind::InvalidUrl { reason } => {
                params.insert("reason".to_owned(), ParamValue::String(reason));
            },
            ErrorKind::InvalidIp { expected } => {
                params.insert("expected".to_owned(), ParamValue::String(expected.to_string()));
            },
            ErrorKind::InvalidCreditCard { reason } => {
                params.insert("reason".to_owned(), ParamValue::String(reason));
            },
            ErrorKind::InvalidPhoneNumber { reason } => {
                params.insert("reason".to_owned(), ParamValue::String(reason));
            },
            ErrorKind::NotAscii => {},
            ErrorKind::NotAlphanumeric => {},
            ErrorKind::PatternMismatch { pattern } => {
                params.insert("pattern".to_owned(), ParamValue::String(pattern));
            },
            ErrorKind::MissingSubstring { expected } => {
                params.insert("expected".to_owned(), ParamValue::String(expected));
            },
            ErrorKind::MissingPrefix { expected } => {
                params.insert("expected".to_owned(), ParamValue::String(expected));
            },
            ErrorKind::MissingSuffix { expected } => {
                params.insert("expected".to_owned(), ParamValue::String(expected));
            },
            ErrorKind::FieldMismatch { other_field } => {
                params.insert("other_field".to_owned(), ParamValue::String(other_field));
            },
            ErrorKind::Required => {},
            ErrorKind::Custom { params: p, .. } => {
                return p;
            },
        }
        params
    }
}


// ============================================================================
// Error
// ============================================================================

/// A validation error: a structured kind and an optional message override.
#[derive(Clone, Debug, PartialEq)]
pub struct Error {
    /// The structured error kind with typed parameters.
    pub kind: ErrorKind,
    /// Optional human-readable message; when absent a default one is generated from the kind.
    pub message: Option<String>,
}

/// The mathematical value of an [`Error`].
pub struct ErrorView {
    pub kind: ErrorKindView,
    pub message: Option<Seq<char>>,
}

impl View for Error {
    type V = ErrorView;

    open spec fn view(&self) -> ErrorView {
        ErrorView {
            kind: self.kind@,
            message: match self.message {
                Some(m) => Some(m@),
                None => None,
            },
        }
    }
}

impl ErrorView {
    /// The message shown for this error: the override if there is one, otherwise the kind's default.
    pub open spec fn display_message(self) -> Seq<char> {
        match self.message {
            Some(m) => m,
            None => self.kind.default_message(),
        }
    }

    /// The same error with its code replaced by `code`: the kind becomes `Custom`
    /// with the original kind's parameters, and the message is kept.
    pub open spec fn with_custom_code(self, code: Seq<char>) -> ErrorView {
        ErrorView {
            kind: ErrorKindView::Custom { code: code, params: self.kind.params() },
            message: self.message,
        }
    }
}

impl Error {
    /// Creates an error from a kind, with no message override.
    pub fn from_kind(kind: ErrorKind) -> (r: Self)
        ensures
            r@ == (ErrorView { kind: kind@, message: None }),
    {
        Error { kind, message: None }
    }

    /// Creates an error with a message override.
    pub fn with_message(kind: ErrorKind, message: &str) -> (r: Self)
        ensures
            r@ == (ErrorView { kind: kind@, message: Some(message@) }),
    {
        Error { kind, message: Some(message.to_owned()) }
    }

    /// Creates a custom error with a string code and no parameters.
    pub fn custom(code: &str) -> (r: Self)
        ensures
            r@ == (ErrorView {
                kind: ErrorKindView::Custom { code: code@, params: Map::empty() },
                message: None,
            }),
    {
        Self::from_kind(ErrorKind::Custom { code: code.to_owned(), params: Params::new() })
    }

    /// Creates a custom error with a code and parameters.
    pub fn custom_with_params(code: &str, params: Params) -> (r: Self)
        ensures
            r@ == (ErrorView {
                kind: ErrorKindView::Custom { code: code@, params: params@ },
                message: None,
            }),
    {
        Self::from_kind(ErrorKind::Custom { code: code.to_owned(), params })
    }

    /// Gets the error code (for looking up a translated message).
    pub fn code(&self) -> (r: &str)
        ensures
            r@ == self@.kind.code(),
    {
        self.kind.code()
    }

    /// Gets the message to display: the override if there is one, otherwise the generated one.
    pub fn display_message(&self) -> (r: String)
        ensures
            r@ == self@.display_message(),
    {
        match &self.message {
            Some(m) => m.clone(),
            None => self.kind.default_message(),
        }
    }

    /// Overrides the error code, turning the kind into `Custom` while keeping
    /// the kind's parameters and the message.
    pub fn with_custom_code(self, code: &str) -> (r: Self)
        ensures
            r@ == self@.with_custom_code(code@),
    {
        let params = self.kind.into_params();
        Error { kind: ErrorKind::Custom { code: code.to_owned(), params }, message: self.message }
    }

    /// The error as text (its display message).
    pub fn to_string(&self) -> (r: String)
        ensures
            r@ == self@.display_message(),
    {
        self.display_message()
    }
}

/// After a code override, an error reports the new code, and the parameters of the
/// custom kind are those that the original kind carried.
pub proof fn lemma_custom_code_is_reported(e: ErrorView, code: Seq<char>)
    ensures
        e.with_custom_code(code).kind.code() == code,
        e.with_custom_code(code).kind.params() == e.kind.params(),
        e.with_custom_code(code).message == e.message,
{
}

/// Overriding the code twice is the same as overriding it once with the last code.
pub proof fn lemma_custom_code_last_wins(e: ErrorView, c1: Seq<char>, c2: Seq<char>)
    ensures
        e.with_custom_code(c1).with_custom_code(c2) == e.with_custom_code(c2),
{
}

} // verus!
