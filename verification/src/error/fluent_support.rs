//! The decision part of formatting an error with a Fluent bundle: use the
//! bundle's text when it produced one, and the kind's default message otherwise.

use vstd::prelude::*;

use super::{ErrorKind, ParamValue, ParamValueView};

verus! {

/// The message for an error of kind `kind`: the text the bundle formatted, if it
/// produced one without errors, otherwise the kind's default message.
pub fn formatted_or_default(formatted: Option<String>, kind: &ErrorKind) -> (r: String)
    ensures
        r@ == match formatted {
            Some(f) => f@,
            None => kind@.default_message(),
        },
{
    match formatted {
        Some(f) => f,
        None => kind.default_message(),
    }
}

/// A parameter's value as a Fluent argument takes it: text, an integer, or a float
/// (as the bits of an `f64`).
#[derive(Debug, PartialEq, Eq)]
pub enum FluentArg {
    Text(String),
    Number(i64),
    Float(u64),
}

/// A Fluent argument as plain values.
pub enum FluentArgView {
    Text(Seq<char>),
    Number(i64),
    Float(u64),
}

/// The Fluent argument for a parameter: strings as text, integers as numbers
/// (an unsigned value reinterpreted as `i64`), floats as floats, booleans as the
/// text `true` or `false`.
pub open spec fn fluent_arg_spec(v: ParamValueView) -> FluentArgView {
    match v {
        ParamValueView::String(s) => FluentArgView::Text(s),
        ParamValueView::Integer(i) => FluentArgView::Number(i),
        ParamValueView::Unsigned(u) => FluentArgView::Number(u as i64),
        ParamValueView::Float(f) => FluentArgView::Float(f),
        ParamValueView::Bool(b) => FluentArgView::Text(if b { "true"@ } else { "false"@ }),
    }
}

/// A Fluent argument as plain values.
pub open spec fn fluent_arg_view(a: FluentArg) -> FluentArgView {
    match a {
        FluentArg::Text(s) => FluentArgView::Text(s@),
        FluentArg::Number(n) => FluentArgView::Number(n),
        FluentArg::Float(f) => FluentArgView::Float(f),
    }
}

/// The Fluent argument for a parameter's value.
pub fn fluent_arg(v: &ParamValue) -> (r: FluentArg)
    ensures
        fluent_arg_view(r) == fluent_arg_spec(v@),
{
    match v {
        ParamValue::String(s) => FluentArg::Text(s.clone()),
        ParamValue::Integer(i) => FluentArg::Number(*i),
        ParamValue::Unsigned(u) => FluentArg::Number(*u as i64),
        ParamValue::Float(f) => FluentArg::Float(*f),
        ParamValue::Bool(b) => FluentArg::Text(if *b { "true".to_owned() } else { "false".to_owned() }),
    }
}

} // verus!
