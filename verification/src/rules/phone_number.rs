//! Phone number validation, using the `phonenumber` crate to parse and check numbers.
//!
//! The entry point is the [`PhoneNumber`] trait; every [`AsStr`] type has it,
//! and an absent `Option` value passes.

use vstd::prelude::*;

use super::{coded_outcome, outcome, with_code, AsStr};
use crate::error::{Error, ErrorKind, ErrorKindView, ErrorView};

use phonenumber::PhoneNumber as Number;

verus! {

/// Whether `phonenumber` parses the text as a phone number.
pub uninterp spec fn phone_number_parses(s: Seq<char>) -> bool;

/// Whether the number that `phonenumber` parses from the text is valid for its region.
pub uninterp spec fn phone_number_valid(s: Seq<char>) -> bool;

/// The message of the error that `phonenumber` reports for text that does not parse.
pub uninterp spec fn phone_number_parse_error(s: Seq<char>) -> Seq<char>;

/// Whether `phonenumber::PhoneNumber::from_str` (no default country) accepts `s`.
///
/// Trusted: the result is [`phone_number_parses`] of the text.
#[verifier::external_body]
fn phone_text_parses(s: &str) -> (r: bool)
    ensures
        r == phone_number_parses(s@),
{
    s.parse::<Number>().is_ok()
}

/// `phonenumber::PhoneNumber::is_valid` of the number parsed from `s`.
///
/// Trusted: the result is [`phone_number_valid`] of the text; the `requires` keeps
/// to text that parses, the parse being how the argument is turned into a number.
#[verifier::external_body]
fn phone_number_is_valid_text(s: &str) -> (r: bool)
    requires
        phone_number_parses(s@),
    ensures
        r == phone_number_valid(s@),
{
    match s.parse::<Number>() {
        Ok(number) => number.is_valid(),
        Err(_) => false,
    }
}

/// The text (`Display`) of the `phonenumber::ParseError` that parsing `s` reports.
///
/// Trusted: the result is [`phone_number_parse_error`] of the text; the `requires`
/// keeps to text that does not parse.
#[verifier::external_body]
fn phone_parse_error_text(s: &str) -> (r: String)
    requires
        !phone_number_parses(s@),
    ensures
        r@ == phone_number_parse_error(s@),
{
    match s.parse::<Number>() {
        Ok(_) => String::new(),
        Err(e) => e.to_string(),
    }
}

/// What checking the text `s` gives: whether the number is valid when it parses,
/// and the parse error's text otherwise.
pub open spec fn phone_check(s: Seq<char>) -> Result<bool, Seq<char>> {
    if phone_number_parses(s) {
        Ok(phone_number_valid(s))
    } else {
        Err(phone_number_parse_error(s))
    }
}

/// A value that can be checked as a phone number.
pub trait PhoneNumber {
    /// What checking the value gives (an absent value counts as a valid number).
    spec fn spec_check(&self) -> Result<bool, Seq<char>>;

    /// `Ok(valid)` when the value parses, with whether the number is valid;
    /// `Err(text)` with the parse error's text otherwise.
    fn validate_phone_number(&self) -> (r: Result<bool, String>)
        ensures
            check_result_view(r) == self.spec_check(),
    ;
}

impl<T: AsStr> PhoneNumber for T {
    open spec fn spec_check(&self) -> Result<bool, Seq<char>> {
        phone_check(self.spec_str())
    }

    fn validate_phone_number(&self) -> (r: Result<bool, String>) {
        let text = self.as_str();
        if phone_text_parses(text) {
            Ok(phone_number_is_valid_text(text))
        } else {
            Err(phone_parse_error_text(text))
        }
    }
}

impl<T: PhoneNumber> PhoneNumber for Option<T> {
    open spec fn spec_check(&self) -> Result<bool, Seq<char>> {
        match self {
            Some(v) => v.spec_check(),
            None => Ok(true),
        }
    }

    fn validate_phone_number(&self) -> (r: Result<bool, String>) {
        match self {
            Some(v) => v.validate_phone_number(),
            None => Ok(true),
        }
    }
}

/// The outcome of the rule for a given check result: a valid number passes; a
/// number that parses but is not valid is reported with the message
/// `not a valid phone number`; a parse failure is reported with its text as the reason.
pub open spec fn phone_outcome_spec(result: Result<bool, Seq<char>>) -> Result<(), ErrorView> {
    match result {
        Ok(true) => Ok(()),
        Ok(false) => Err(ErrorView {
            kind: ErrorKindView::InvalidPhoneNumber { reason: Seq::empty() },
            message: Some("not a valid phone number"@),
        }),
        Err(text) => Err(ErrorView { kind: ErrorKindView::InvalidPhoneNumber { reason: text }, message: None }),
    }
}

/// The mathematical value of a check result.
pub open spec fn check_result_view(r: Result<bool, String>) -> Result<bool, Seq<char>> {
    match r {
        Ok(b) => Ok(b),
        Err(t) => Err(t@),
    }
}

/// Turns the result of a phone number check into the rule's outcome.
pub fn phone_outcome(result: Result<bool, String>) -> (r: Result<(), Error>)
    ensures
        outcome(r) == phone_outcome_spec(check_result_view(result)),
{
    match result {
        Ok(true) => Ok(()),
        Ok(false) => Err(Error::with_message(
            ErrorKind::InvalidPhoneNumber { reason: String::new() },
            "not a valid phone number",
        )),
        Err(text) => Err(Error::from_kind(ErrorKind::InvalidPhoneNumber { reason: text })),
    }
}

/// Checks that `v` is a valid phone number.
pub fn apply<T: PhoneNumber>(v: &T, args: ()) -> (r: Result<(), Error>)
    ensures
        outcome(r) == phone_outcome_spec(v.spec_check()),
{
    let result = v.validate_phone_number();
    phone_outcome(result)
}

/// Checks that `v` is a valid phone number, reporting a failure under the code `code`.
pub fn apply_with_code<T: PhoneNumber>(v: &T, args: (), code: &str) -> (r: Result<(), Error>)
    ensures
        outcome(r) == coded_outcome(phone_outcome_spec(v.spec_check()), code@),
{
    match apply(v, args) {
        Ok(()) => Ok(()),
        Err(e) => Err(with_code(e, code)),
    }
}

} // verus!
