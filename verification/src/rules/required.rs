//! Presence validation: an optional value must be set.

use vstd::prelude::*;

use super::outcome;
use crate::error::{Error, ErrorKind, ErrorKindView, ErrorView};

verus! {

/// A value that may or may not be set.
pub trait Required {
    /// Whether the value is set.
    spec fn spec_is_set(&self) -> bool;

    fn is_set(&self) -> (r: bool)
        ensures
            r == self.spec_is_set(),
    ;
}

impl<T> Required for Option<T> {
    open spec fn spec_is_set(&self) -> bool {
        self is Some
    }

    fn is_set(&self) -> (r: bool) {
        self.is_some()
    }
}

/// Checks that `v` is set.
pub fn apply<T: Required>(v: &T, args: ()) -> (r: Result<(), Error>)
    ensures
        outcome(r) == if v.spec_is_set() {
            Ok(())
        } else {
            Err(ErrorView { kind: ErrorKindView::Required, message: None })
        },
{
    if !v.is_set() {
        return Err(Error::from_kind(ErrorKind::Required));
    }
    Ok(())
}

} // verus!
