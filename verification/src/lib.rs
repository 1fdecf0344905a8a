//! Validation rules and the structured errors they report.

pub mod text;

pub mod error;
pub mod rules;
pub mod attr_syntax;
