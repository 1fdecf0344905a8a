//! IP address validation.
//!
//! The entry point is the [`Ip`] trait; every [`AsStr`] type has it, and an
//! absent `Option` value passes. The accepted text forms are those of the
//! standard library's address parsers (see [`addr`]).

use vstd::prelude::*;

pub mod addr;

use self::addr::{is_ip, is_ip_exec, is_ipv4, is_ipv4_exec, is_ipv6, is_ipv6_exec};
use super::{outcome, AsStr};
use crate::error::{Error, ErrorKind, ErrorKindView, ErrorView};
pub use crate::error::IpKind;
use crate::text::chars_of;

verus! {

/// Whether `s` is an address of the given kind.
pub open spec fn is_address(s: Seq<char>, kind: IpKind) -> bool {
    match kind {
        IpKind::Any => is_ip(s),
        IpKind::V4 => is_ipv4(s),
        IpKind::V6 => is_ipv6(s),
    }
}

/// The reason an address was refused: its text is not an address of the expected kind.
#[derive(Clone, Copy, Debug, PartialEq, Eq)]
pub struct AddrParseError {
    pub kind: IpKind,
}

impl AddrParseError {
    /// The error's message.
    pub open spec fn display(self) -> Seq<char> {
        match self.kind {
            IpKind::Any => "invalid IP address syntax"@,
            IpKind::V4 => "invalid IPv4 address syntax"@,
            IpKind::V6 => "invalid IPv6 address syntax"@,
        }
    }

    /// The error's message.
    pub fn to_string(&self) -> (r: String)
        ensures
            r@ == self.display(),
    {
        match self.kind {
            IpKind::Any => "invalid IP address syntax".to_owned(),
            IpKind::V4 => "invalid IPv4 address syntax".to_owned(),
            IpKind::V6 => "invalid IPv6 address syntax".to_owned(),
        }
    }
}

/// A value that can be checked for being an IP address.
pub trait Ip {
    /// Whether the value is an address of the given kind.
    spec fn spec_is_ip(&self, kind: IpKind) -> bool;

    fn validate_ip(&self, kind: IpKind) -> (r: Result<(), AddrParseError>)
        ensures
            r.is_ok() == self.spec_is_ip(kind),
            r matches Err(e) ==> e.kind == kind,
    ;
}

impl<T: AsStr> Ip for T {
    open spec fn spec_is_ip(&self, kind: IpKind) -> bool {
        is_address(self.spec_str(), kind)
    }

    fn validate_ip(&self, kind: IpKind) -> (r: Result<(), AddrParseError>) {
        let text = chars_of(self.as_str());
        let ok = match kind {
            IpKind::Any => is_ip_exec(&text),
            IpKind::V4 => is_ipv4_exec(&text),
            IpKind::V6 => is_ipv6_exec(&text),
        };
        if ok {
            Ok(())
        } else {
            Err(AddrParseError { kind })
        }
    }
}

impl<T: Ip> Ip for Option<T> {
    open spec fn spec_is_ip(&self, kind: IpKind) -> bool {
        match self {
            Some(v) => v.spec_is_ip(kind),
            None => true,
        }
    }

    fn validate_ip(&self, kind: IpKind) -> (r: Result<(), AddrParseError>) {
        match self {
            Some(v) => v.validate_ip(kind),
            None => Ok(()),
        }
    }
}

/// The outcome of the rule: the value passes when it is an address of the expected
/// kind, and otherwise the error names that kind.
pub open spec fn ip_outcome(valid: bool, kind: IpKind) -> Result<(), ErrorView> {
    if valid {
        Ok(())
    } else {
        Err(ErrorView { kind: ErrorKindView::InvalidIp { expected: kind }, message: None })
    }
}

/// Checks that `v` is an IP address of kind `args.0`.
pub fn apply<T: Ip>(v: &T, args: (IpKind,)) -> (r: Result<(), Error>)
    ensures
        outcome(r) == ip_outcome(v.spec_is_ip(args.0), args.0),
{
    let kind = args.0;
    if v.validate_ip(kind).is_err() {
        return Err(Error::from_kind(ErrorKind::InvalidIp { expected: kind }));
    }
    Ok(())
}

} // verus!
