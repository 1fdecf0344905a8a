//! Field matching validation: a field must equal another field of the same value.

use vstd::prelude::*;

use super::outcome;
use vstd::std_specs::cmp::PartialEqSpec;
use crate::error::{Error, ErrorKind, ErrorKindView, ErrorView};

verus! {

/// A value that can be compared with another value of type `O`.
pub trait Matches<O> {
    /// Whether the comparison is a well-behaved equality, so that
    /// [`Matches::spec_matches`] describes it.
    spec fn obeys_matches_spec() -> bool;

    /// Whether the value equals `other`.
    spec fn spec_matches(&self, other: &O) -> bool;

    fn validate_matches(&self, other: &O) -> (r: bool)
        ensures
            Self::obeys_matches_spec() ==> r == self.spec_matches(other),
    ;
}

impl<T: PartialEq<O>, O> Matches<O> for T {
    open spec fn obeys_matches_spec() -> bool {
        T::obeys_eq_spec()
    }

    open spec fn spec_matches(&self, other: &O) -> bool {
        self.eq_spec(other)
    }

    fn validate_matches(&self, other: &O) -> (r: bool) {
        self.eq(other)
    }
}

/// The error reported when a field does not match the field named `field`.
pub open spec fn mismatch(field: Seq<char>) -> ErrorView {
    ErrorView { kind: ErrorKindView::FieldMismatch { other_field: field }, message: None }
}

/// Checks that `v` matches `args.1`, the value of the field named `args.0`.
pub fn apply<T: Matches<O>, O>(v: &T, args: (&str, &O)) -> (r: Result<(), Error>)
    ensures
        outcome(r) is Ok || outcome(r) == Err::<(), ErrorView>(mismatch(args.0@)),
        T::obeys_matches_spec() ==> outcome(r) == if v.spec_matches(args.1) {
            Ok(())
        } else {
            Err(mismatch(args.0@))
        },
{
    let (field, value) = args;
    if !v.validate_matches(value) {
        return Err(Error::from_kind(ErrorKind::FieldMismatch { other_field: field.to_owned() }));
    }
    Ok(())
}

} // verus!
