# garde

Validation rules and their structured errors, verified with Verus.

Each rule has an `apply` function that checks a value and returns the error to
report when the check fails. Its contract states when the value passes, and
otherwise which error kind, with which parameters, is reported. Where an outside
crate decides (grapheme counts, phone numbers), the
contract speaks of the crate's answer by name. The `matches` rule is exact for
types whose `==` vstd specifies; for other types it says only that the outcome
is a pass or the mismatch error. Absent (`None`) values pass every rule.

## Layout

- `src/error.rs` — `ErrorKind` (codes, Fluent message ids, default messages,
  parameters), `Error` (message override, custom codes), the bound types.
  - `error/params.rs` — named parameters, viewed as a map.
  - `error/path.rs` — paths to a field, and their text form (`a.b[0].c`).
  - `error/report.rs` — a report: the errors found, each at its path.
  - `error/fluent_support.rs` — the choice between a bundle's text and the
    default message.
- `src/rules/` — the rules: `length` (in bytes, chars, graphemes, UTF-16 code
  units, or items), `range` (integers and decimals, with inclusive or exclusive
  ends), `contains`, `ip` (with a checker for the IPv4 and IPv6 text forms),
  `matches`, `phone_number`, `required`.
- `src/attr_syntax.rs` — the grammar of the `#[garde(...)]` attributes: rules,
  their arguments and codes, length modes, `if`, type-level attributes, and the
  rules of each field of a struct or enum. Tokens are plain values
  (`attr_syntax/tokens.rs`); the Rust expressions, paths, types and string
  literals inside them are checked by `syn` on their text.
- `src/text.rs` — decimal text of integers and small string helpers.
- `app/lib.rs` — what needs floating point: Fluent arguments and formatting,
  and the text of `Float` parameters; conversion from `rust_decimal::Decimal`;
  conversion of `proc_macro2` tokens and `syn` items into the library's tokens
  and attributes for the derive macro.
- `app/serde_repr.rs` — serde forms of `Path`, `Report` and the error types,
  each converting to and from the library's type; a path is written as its
  components from the root (`Path::components`, read back by
  `Path::from_components`).

## Outside crates

`unicode-segmentation` counts grapheme clusters, `phonenumber` parses and
checks phone numbers, `rust_decimal` compares and writes decimals, `smallvec`
holds the components that `Path::__iter` hands out, `syn` parses the
expressions, paths, types and string literals inside attributes, and
`fluent-bundle` formats messages and `serde` serializes the error types (both in `app/`). Each call from `src/` goes through a function
whose contract says what is assumed of it.
