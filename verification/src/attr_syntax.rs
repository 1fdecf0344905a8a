//! The grammar of the `#[garde(...)]` attributes that the derive macro reads.
//!
//! The attribute's tokens are given as plain [`TokenTree`]s. The rule grammar
//! (rule names, their arguments, `code = "..."`, the length modes, `if`) is
//! checked here; the Rust expressions, paths, types and string literals that the
//! rules embed are checked by `syn`, on the text of their tokens.
//! A rule refers to the tokens of an embedded expression by a [`TokenRange`]
//! into its own parenthesized arguments.

use vstd::prelude::*;

use crate::text::str_eq;

pub mod tokens;

pub use self::tokens::{render_seq, Delimiter, TokenTree};
use self::tokens::{render_tokens, syn_lit_str_value, syn_parses_expr, syn_parses_path, syn_parses_type};
use self::tokens::{lit_str_value, parses_as_expr, parses_as_path, parses_as_type};

verus! {

// ============================================================================
// Results
// ============================================================================

/// Why a part of an attribute was refused.
#[derive(Clone, Copy, Debug, PartialEq, Eq, Structural)]
pub enum ParseError {
    /// The tokens do not have the shape that the grammar asks for here (a missing
    /// or extra token, or an expression, path, type or string that `syn` refuses).
    Syntax,
    /// `unrecognized validation rule`
    UnrecognizedRule,
    /// `expected 'code'`
    ExpectedCode,
    /// `length mode must be followed by a range expression`
    LengthModeWithoutRange,
    /// `expected 'cond' in if rule`
    ExpectedCond,
    /// `if rule must contain at least one validation rule`
    IfWithoutRules,
    /// `unrecognized attribute`
    UnrecognizedAttribute,
    /// `invalid attr style, expected parenthesized arguments`
    InvalidAttrStyle,
    /// `unit structs are unsupported`
    UnitStruct,
    /// `unions are unsupported`
    Union,
}

impl ParseError {
    /// The error's message.
    pub open spec fn spec_message(self) -> Seq<char> {
        match self {
            ParseError::Syntax => "invalid syntax"@,
            ParseError::UnrecognizedRule => "unrecognized validation rule"@,
            ParseError::ExpectedCode => "expected 'code'"@,
            ParseError::LengthModeWithoutRange => "length mode must be followed by a range expression (e.g., `bytes, 1..=10`)"@,
            ParseError::ExpectedCond => "expected 'cond' in if rule"@,
            ParseError::IfWithoutRules => "if rule must contain at least one validation rule"@,
            ParseError::UnrecognizedAttribute => "unrecognized attribute"@,
            ParseError::InvalidAttrStyle => "invalid attr style, expected parenthesized arguments"@,
            ParseError::UnitStruct => "unit structs are unsupported"@,
            ParseError::Union => "unions are unsupported"@,
        }
    }

    /// The error's message.
    pub fn message(&self) -> (r: &'static str)
        ensures
            r@ == self.spec_message(),
    {
        match self {
            ParseError::Syntax => "invalid syntax",
            ParseError::UnrecognizedRule => "unrecognized validation rule",
            ParseError::ExpectedCode => "expected 'code'",
            ParseError::LengthModeWithoutRange => "length mode must be followed by a range expression (e.g., `bytes, 1..=10`)",
            ParseError::ExpectedCond => "expected 'cond' in if rule",
            ParseError::IfWithoutRules => "if rule must contain at least one validation rule",
            ParseError::UnrecognizedAttribute => "unrecognized attribute",
            ParseError::InvalidAttrStyle => "invalid attr style, expected parenthesized arguments",
            ParseError::UnitStruct => "unit structs are unsupported",
            ParseError::Union => "unions are unsupported",
        }
    }
}

/// How the `length` rule counts.
#[derive(Clone, Copy, Debug, PartialEq, Eq, Structural)]
pub enum LengthMode {
    Simple,
    Bytes,
    Chars,
    Graphemes,
    Utf16,
}

/// The tokens `start..end` of a rule's parenthesized arguments.
#[derive(Clone, Copy, Debug, PartialEq, Eq, Structural)]
pub struct TokenRange {
    pub start: usize,
    pub end: usize,
}

/// A parsed rule as plain values: the rule and its `code = "..."`, if any.
pub struct RawRuleV {
    pub kind: RawRuleKindV,
    pub code: Option<Seq<char>>,
}

/// The kind of a parsed rule, as plain values.
pub enum RawRuleKindV {
    Skip,
    Adapt(TokenRange),
    Rename(Seq<char>),
    Code(Seq<char>),
    Dive(Option<TokenRange>),
    Inner(Seq<RawRuleV>),
    If(TokenRange, Seq<RawRuleV>),
    Required,
    Ascii,
    Alphanumeric,
    Email,
    Url,
    Ip,
    IpV4,
    IpV6,
    CreditCard,
    PhoneNumber,
    Length(LengthMode, TokenRange),
    Matches(TokenRange),
    Range(TokenRange),
    Contains(TokenRange),
    Prefix(TokenRange),
    Suffix(TokenRange),
    PatternLit(Seq<char>),
    PatternExpr(TokenRange),
    Custom(TokenRange),
}

// ============================================================================
// The grammar
// ============================================================================

/// The token is a `,`.
pub open spec fn is_comma(t: TokenTree) -> bool {
    t matches TokenTree::Punct(c, _) && c == ','
}

/// The token is the identifier `name`.
pub open spec fn is_ident(t: TokenTree, name: Seq<char>) -> bool {
    t matches TokenTree::Ident(s) && s@ == name
}

/// The index of the first `,` of `t` at or after `from`, or `t.len()` when there is none.
pub open spec fn first_comma(t: Seq<TokenTree>, from: int) -> int
    decreases t.len() - from,
{
    if from < 0 || from >= t.len() {
        t.len() as int
    } else if is_comma(t[from]) {
        from
    } else {
        first_comma(t, from + 1)
    }
}

pub proof fn lemma_first_comma_bounds(t: Seq<TokenTree>, from: int)
    requires
        0 <= from,
    ensures
        from <= first_comma(t, from) <= t.len() || (from > t.len() && first_comma(t, from) == t.len()),
        first_comma(t, from) < t.len() ==> is_comma(t[first_comma(t, from)]),
        forall|k: int| from <= k < first_comma(t, from) ==> !is_comma(#[trigger] t[k]),
    decreases t.len() - from,
{
    if from < t.len() && !is_comma(t[from]) {
        lemma_first_comma_bounds(t, from + 1);
    }
}

pub proof fn lemma_cond_end_bounds(c: Seq<TokenTree>, from: int)
    requires
        2 <= from,
    ensures
        from <= cond_end(c, from) <= c.len() || (from > c.len() && cond_end(c, from) == c.len()),
    decreases c.len() - from,
{
    if from < c.len() && !(is_comma(c[from]) && is_expr(c.subrange(2, from))) {
        lemma_cond_end_bounds(c, from + 1);
    }
}

/// `t` as text, the way `syn` reads it.
pub open spec fn text_of(t: Seq<TokenTree>) -> Seq<char> {
    render_seq(t)
}

/// The value of `t` when it is exactly one string literal.
pub open spec fn str_value(t: Seq<TokenTree>) -> Option<Seq<char>> {
    syn_lit_str_value(text_of(t))
}

/// `t` is exactly one expression.
pub open spec fn is_expr(t: Seq<TokenTree>) -> bool {
    syn_parses_expr(text_of(t))
}

/// The range `start..end`.
pub open spec fn range(start: int, end: int) -> TokenRange {
    TokenRange { start: start as usize, end: end as usize }
}

/// The `code = "..."` inside the parentheses of a rule without other arguments:
/// none for empty parentheses, otherwise the identifier `code`, `=` and a string.
pub open spec fn code_only(c: Seq<TokenTree>) -> Result<Option<Seq<char>>, ParseError> {
    if c.len() == 0 {
        Ok(None)
    } else if !(c[0] is Ident) {
        Err(ParseError::Syntax)
    } else if !is_ident(c[0], "code"@) {
        Err(ParseError::ExpectedCode)
    } else if c.len() < 2 || !(c[1] matches TokenTree::Punct(q, _) && q == '=') {
        Err(ParseError::Syntax)
    } else {
        match str_value(c.skip(2)) {
            Some(v) => Ok(Some(v)),
            None => Err(ParseError::Syntax),
        }
    }
}

/// Splits the arguments of a rule that takes a value into the value's end and the
/// code: `VALUE`, `VALUE ,` or `VALUE , code = "..."`.
pub open spec fn value_and_code(c: Seq<TokenTree>) -> (int, Option<Seq<char>>) {
    let n = c.len() as int;
    if n >= 4 && is_comma(c[n - 4]) && is_ident(c[n - 3], "code"@)
        && (c[n - 2] matches TokenTree::Punct(q, _) && q == '=') && str_value(c.subrange(n - 1, n)) is Some {
        (n - 4, str_value(c.subrange(n - 1, n)))
    } else if n >= 1 && is_comma(c[n - 1]) {
        (n - 1, None)
    } else {
        (n, None)
    }
}

/// The length mode that an identifier names.
pub open spec fn length_mode(s: Seq<char>) -> Option<LengthMode> {
    if s == "simple"@ {
        Some(LengthMode::Simple)
    } else if s == "bytes"@ {
        Some(LengthMode::Bytes)
    } else if s == "chars"@ {
        Some(LengthMode::Chars)
    } else if s == "graphemes"@ {
        Some(LengthMode::Graphemes)
    } else if s == "utf16"@ {
        Some(LengthMode::Utf16)
    } else {
        None
    }
}

/// The five length modes are named `simple`, `bytes`, `chars`, `graphemes` and
/// `utf16`, each naming its own mode, and no other identifier names a mode.
pub proof fn lemma_length_mode_names(s: Seq<char>)
    ensures
        length_mode("simple"@) == Some(LengthMode::Simple),
        length_mode("bytes"@) == Some(LengthMode::Bytes),
        length_mode("chars"@) == Some(LengthMode::Chars),
        length_mode("graphemes"@) == Some(LengthMode::Graphemes),
        length_mode("utf16"@) == Some(LengthMode::Utf16),
        length_mode(s) is Some ==> (s == "simple"@ || s == "bytes"@ || s == "chars"@ || s == "graphemes"@
            || s == "utf16"@),
{
    reveal_strlit("simple");
    reveal_strlit("bytes");
    reveal_strlit("chars");
    reveal_strlit("graphemes");
    reveal_strlit("utf16");
    // the five names differ in their first letter
    assert("bytes"@ != "simple"@ && "chars"@ != "simple"@ && "graphemes"@ != "simple"@ && "utf16"@ != "simple"@) by {
        assert("bytes"@[0] != "simple"@[0] && "chars"@[0] != "simple"@[0]);
        assert("graphemes"@[0] != "simple"@[0] && "utf16"@[0] != "simple"@[0]);
    }
    assert("chars"@ != "bytes"@ && "graphemes"@ != "bytes"@ && "utf16"@ != "bytes"@) by {
        assert("chars"@[0] != "bytes"@[0] && "graphemes"@[0] != "bytes"@[0] && "utf16"@[0] != "bytes"@[0]);
    }
    assert("graphemes"@ != "chars"@ && "utf16"@ != "chars"@) by {
        assert("graphemes"@[0] != "chars"@[0] && "utf16"@[0] != "chars"@[0]);
    }
    assert("utf16"@ != "graphemes"@) by {
        assert("utf16"@[0] != "graphemes"@[0]);
    }
}

/// The value of a `length` rule that starts with a mode name and a comma counts in
/// the mode that the name says, over the expression after the comma; a value that
/// does not start with a mode name counts in the default (simple) mode over the
/// whole value.
pub proof fn lemma_length_value_mode(c: Seq<TokenTree>, end: int, name: String)
    requires
        2 <= end <= c.len(),
        c[0] == TokenTree::Ident(name),
        is_comma(c[1]),
        is_expr(c.subrange(2, end)),
    ensures
        name@ == "simple"@ ==> length_value(c, end) == Ok::<RawRuleKindV, ParseError>(
            RawRuleKindV::Length(LengthMode::Simple, range(2, end)),
        ),
        name@ == "bytes"@ ==> length_value(c, end) == Ok::<RawRuleKindV, ParseError>(
            RawRuleKindV::Length(LengthMode::Bytes, range(2, end)),
        ),
        name@ == "chars"@ ==> length_value(c, end) == Ok::<RawRuleKindV, ParseError>(
            RawRuleKindV::Length(LengthMode::Chars, range(2, end)),
        ),
        name@ == "graphemes"@ ==> length_value(c, end) == Ok::<RawRuleKindV, ParseError>(
            RawRuleKindV::Length(LengthMode::Graphemes, range(2, end)),
        ),
        name@ == "utf16"@ ==> length_value(c, end) == Ok::<RawRuleKindV, ParseError>(
            RawRuleKindV::Length(LengthMode::Utf16, range(2, end)),
        ),
{
    lemma_length_mode_names(name@);
}

/// A `length` value that does not start with a mode name is the range expression
/// itself, counted in the default (simple) mode.
pub proof fn lemma_length_value_default_mode(c: Seq<TokenTree>, end: int)
    requires
        1 <= end <= c.len(),
        !(c[0] matches TokenTree::Ident(s) && (s@ == "simple"@ || s@ == "bytes"@ || s@ == "chars"@
            || s@ == "graphemes"@ || s@ == "utf16"@)),
        is_expr(c.subrange(0, end)),
    ensures
        length_value(c, end) == Ok::<RawRuleKindV, ParseError>(
            RawRuleKindV::Length(LengthMode::Simple, range(0, end)),
        ),
{
    if let TokenTree::Ident(s) = c[0] {
        lemma_length_mode_names(s@);
    }
}

/// The `length` rule's value `c[0..end]`: an optional mode followed by `,`, then
/// the range expression; without a mode, the whole value is the range.
pub open spec fn length_value(c: Seq<TokenTree>, end: int) -> Result<RawRuleKindV, ParseError> {
    let mode = if end >= 1 {
        match c[0] {
            TokenTree::Ident(s) => length_mode(s@),
            _ => None,
        }
    } else {
        None
    };
    match mode {
        Some(m) => if end >= 2 && is_comma(c[1]) {
            if is_expr(c.subrange(2, end)) {
                Ok(RawRuleKindV::Length(m, range(2, end)))
            } else {
                Err(ParseError::Syntax)
            }
        } else {
            Err(ParseError::LengthModeWithoutRange)
        },
        None => if is_expr(c.subrange(0, end)) {
            Ok(RawRuleKindV::Length(LengthMode::Simple, range(0, end)))
        } else {
            Err(ParseError::Syntax)
        },
    }
}

/// The value `c[0..end]` of a rule that takes one: which kind it is depends on the
/// rule's name.
pub open spec fn value_kind(name: Seq<char>, c: Seq<TokenTree>, end: int) -> Result<RawRuleKindV, ParseError> {
    let v = c.subrange(0, end);
    if name == "length"@ {
        length_value(c, end)
    } else if name == "matches"@ {
        if syn_parses_path(text_of(v)) { Ok(RawRuleKindV::Matches(range(0, end))) } else { Err(ParseError::Syntax) }
    } else if name == "pattern"@ {
        if end >= 1 && (c[0] is Literal || is_ident(c[0], "true"@) || is_ident(c[0], "false"@)) {
            match str_value(v) {
                Some(s) => Ok(RawRuleKindV::PatternLit(s)),
                None => Err(ParseError::Syntax),
            }
        } else if is_expr(v) {
            Ok(RawRuleKindV::PatternExpr(range(0, end)))
        } else {
            Err(ParseError::Syntax)
        }
    } else if !is_expr(v) {
        Err(ParseError::Syntax)
    } else if name == "range"@ {
        Ok(RawRuleKindV::Range(range(0, end)))
    } else if name == "contains"@ {
        Ok(RawRuleKindV::Contains(range(0, end)))
    } else if name == "prefix"@ {
        Ok(RawRuleKindV::Prefix(range(0, end)))
    } else if name == "suffix"@ {
        Ok(RawRuleKindV::Suffix(range(0, end)))
    } else {
        Ok(RawRuleKindV::Custom(range(0, end)))
    }
}

/// The rules that take a value and an optional code.
pub open spec fn takes_value(name: Seq<char>) -> bool {
    name == "length"@ || name == "matches"@ || name == "range"@ || name == "contains"@ || name == "prefix"@
        || name == "suffix"@ || name == "pattern"@ || name == "custom"@
}

/// The rules without arguments that take an optional code.
pub open spec fn simple_kind(name: Seq<char>) -> Option<RawRuleKindV> {
    if name == "required"@ {
        Some(RawRuleKindV::Required)
    } else if name == "ascii"@ {
        Some(RawRuleKindV::Ascii)
    } else if name == "alphanumeric"@ {
        Some(RawRuleKindV::Alphanumeric)
    } else if name == "email"@ {
        Some(RawRuleKindV::Email)
    } else if name == "url"@ {
        Some(RawRuleKindV::Url)
    } else if name == "ip"@ {
        Some(RawRuleKindV::Ip)
    } else if name == "ipv4"@ {
        Some(RawRuleKindV::IpV4)
    } else if name == "ipv6"@ {
        Some(RawRuleKindV::IpV6)
    } else if name == "credit_card"@ {
        Some(RawRuleKindV::CreditCard)
    } else if name == "phone_number"@ {
        Some(RawRuleKindV::PhoneNumber)
    } else {
        None
    }
}

/// A rule with no code.
pub open spec fn plain(kind: RawRuleKindV) -> Result<RawRuleV, ParseError> {
    Ok(RawRuleV { kind, code: None })
}

/// The first error among `outs`, or all the rules when there is none.
pub open spec fn first_error(outs: Seq<Result<RawRuleV, ParseError>>) -> Result<Seq<RawRuleV>, ParseError>
    decreases outs.len(),
{
    if outs.len() == 0 {
        Ok(Seq::empty())
    } else {
        match first_error(outs.drop_last()) {
            Err(e) => Err(e),
            Ok(rules) => match outs.last() {
                Ok(r) => Ok(rules.push(r)),
                Err(e) => Err(e),
            },
        }
    }
}

/// The `if` rule's arguments: `cond = EXPR ,` and then at least one rule. The
/// condition ends at the first `,` before which the tokens are an expression.
pub open spec fn cond_end(c: Seq<TokenTree>, from: int) -> int
    decreases c.len() - from,
{
    if from < 2 || from >= c.len() {
        c.len() as int
    } else if is_comma(c[from]) && is_expr(c.subrange(2, from)) {
        from
    } else {
        cond_end(c, from + 1)
    }
}

/// The outcome of each comma-separated rule of `t`, in order (a trailing comma is allowed).
pub open spec fn rule_outcomes(t: Seq<TokenTree>) -> Seq<Result<RawRuleV, ParseError>>
    decreases t, 1nat,
{
    if t.len() == 0 {
        Seq::empty()
    } else {
        let p = first_comma(t, 0);
        if p >= t.len() {
            seq![rule_of(t)]
        } else {
            proof {
                lemma_first_comma_bounds(t, 0);
                assert(decreases_to!(t => t.take(p)));
                assert(decreases_to!(t => t.skip(p + 1)));
            }
            seq![rule_of(t.take(p))] + rule_outcomes(t.skip(p + 1))
        }
    }
}

/// The rule that the tokens `c` make: a rule name, and then, as the rule asks,
/// nothing, or one parenthesized group of arguments.
pub open spec fn rule_of(c: Seq<TokenTree>) -> Result<RawRuleV, ParseError>
    decreases c, 0nat,
{
    if c.len() == 0 || !(c[0] is Ident) {
        Err(ParseError::Syntax)
    } else {
        let name = c[0]->Ident_0@;
        let bare = c.len() == 1;
        let parens = c.len() == 2 && (c[1] matches TokenTree::Group(d, _) && d == Delimiter::Parenthesis);
        let args = if parens { c[1]->Group_1@ } else { Seq::empty() };
        if name == "skip"@ {
            if bare { plain(RawRuleKindV::Skip) } else { Err(ParseError::Syntax) }
        } else if name == "dive"@ {
            if bare || (parens && args.len() == 0) {
                plain(RawRuleKindV::Dive(None))
            } else if parens && is_expr(args) {
                plain(RawRuleKindV::Dive(Some(range(0, args.len() as int))))
            } else {
                Err(ParseError::Syntax)
            }
        } else if simple_kind(name) is Some {
            if bare {
                plain(simple_kind(name)->0)
            } else if parens {
                match code_only(args) {
                    Ok(code) => Ok(RawRuleV { kind: simple_kind(name)->0, code }),
                    Err(e) => Err(e),
                }
            } else {
                Err(ParseError::Syntax)
            }
        } else if !(name == "adapt"@ || name == "rename"@ || name == "code"@ || name == "inner"@ || name == "if"@
            || takes_value(name)) {
            Err(ParseError::UnrecognizedRule)
        } else if !parens {
            Err(ParseError::Syntax)
        } else if name == "adapt"@ {
            if syn_parses_path(text_of(args)) {
                plain(RawRuleKindV::Adapt(range(0, args.len() as int)))
            } else {
                Err(ParseError::Syntax)
            }
        } else if name == "rename"@ || name == "code"@ {
            match str_value(args) {
                Some(s) => plain(if name == "rename"@ { RawRuleKindV::Rename(s) } else { RawRuleKindV::Code(s) }),
                None => Err(ParseError::Syntax),
            }
        } else if name == "inner"@ {
            match first_error(rule_outcomes(args)) {
                Ok(rules) => plain(RawRuleKindV::Inner(rules)),
                Err(e) => Err(e),
            }
        } else if name == "if"@ {
            if args.len() == 0 || !(args[0] is Ident) {
                Err(ParseError::Syntax)
            } else if !is_ident(args[0], "cond"@) {
                Err(ParseError::ExpectedCond)
            } else if args.len() < 2 || !(args[1] matches TokenTree::Punct(q, _) && q == '=') {
                Err(ParseError::Syntax)
            } else {
                let p = cond_end(args, 2);
                if p >= args.len() {
                    Err(ParseError::Syntax)
                } else {
                    proof {
                        lemma_cond_end_bounds(args, 2);
                        assert(decreases_to!(c => args.skip(p + 1)));
                    }
                    match first_error(rule_outcomes(args.skip(p + 1))) {
                        Ok(rules) => if rules.len() == 0 {
                            Err(ParseError::IfWithoutRules)
                        } else {
                            plain(RawRuleKindV::If(range(2, p), rules))
                        },
                        Err(e) => Err(e),
                    }
                }
            }
        } else {
            let (end, code) = value_and_code(args);
            match value_kind(name, args, end) {
                Ok(kind) => Ok(RawRuleV { kind, code }),
                Err(e) => Err(e),
            }
        }
    }
}


// ============================================================================
// The parsed rules
// ============================================================================

/// The kind of a parsed rule. Embedded expressions, paths and types are given by
/// the range of tokens they take in the rule's parenthesized arguments.
#[derive(Debug)]
pub enum RawRuleKind {
    Skip,
    Adapt(TokenRange),
    Rename(String),
    Code(String),
    Dive(Option<TokenRange>),
    Inner(Vec<RawRule>),
    If(TokenRange, Vec<RawRule>),
    Required,
    Ascii,
    Alphanumeric,
    Email,
    Url,
    Ip,
    IpV4,
    IpV6,
    CreditCard,
    PhoneNumber,
    Length(LengthMode, TokenRange),
    Matches(TokenRange),
    Range(TokenRange),
    Contains(TokenRange),
    Prefix(TokenRange),
    Suffix(TokenRange),
    PatternLit(String),
    PatternExpr(TokenRange),
    Custom(TokenRange),
}

/// A parsed rule and its `code = "..."`, if any.
#[derive(Debug)]
pub struct RawRule {
    pub kind: RawRuleKind,
    pub code: Option<String>,
}

/// An optional string as plain characters.
pub open spec fn opt_str_view(o: Option<String>) -> Option<Seq<char>> {
    match o {
        Some(s) => Some(s@),
        None => None,
    }
}

/// A rule kind as plain values.
pub open spec fn kind_view(k: RawRuleKind) -> RawRuleKindV
    decreases k,
{
    match k {
        RawRuleKind::Skip => RawRuleKindV::Skip,
        RawRuleKind::Adapt(r) => RawRuleKindV::Adapt(r),
        RawRuleKind::Rename(s) => RawRuleKindV::Rename(s@),
        RawRuleKind::Code(s) => RawRuleKindV::Code(s@),
        RawRuleKind::Dive(r) => RawRuleKindV::Dive(r),
        RawRuleKind::Inner(v) => RawRuleKindV::Inner(rules_view(v@)),
        RawRuleKind::If(r, v) => RawRuleKindV::If(r, rules_view(v@)),
        RawRuleKind::Required => RawRuleKindV::Required,
        RawRuleKind::Ascii => RawRuleKindV::Ascii,
        RawRuleKind::Alphanumeric => RawRuleKindV::Alphanumeric,
        RawRuleKind::Email => RawRuleKindV::Email,
        RawRuleKind::Url => RawRuleKindV::Url,
        RawRuleKind::Ip => RawRuleKindV::Ip,
        RawRuleKind::IpV4 => RawRuleKindV::IpV4,
        RawRuleKind::IpV6 => RawRuleKindV::IpV6,
        RawRuleKind::CreditCard => RawRuleKindV::CreditCard,
        RawRuleKind::PhoneNumber => RawRuleKindV::PhoneNumber,
        RawRuleKind::Length(m, r) => RawRuleKindV::Length(m, r),
        RawRuleKind::Matches(r) => RawRuleKindV::Matches(r),
        RawRuleKind::Range(r) => RawRuleKindV::Range(r),
        RawRuleKind::Contains(r) => RawRuleKindV::Contains(r),
        RawRuleKind::Prefix(r) => RawRuleKindV::Prefix(r),
        RawRuleKind::Suffix(r) => RawRuleKindV::Suffix(r),
        RawRuleKind::PatternLit(s) => RawRuleKindV::PatternLit(s@),
        RawRuleKind::PatternExpr(r) => RawRuleKindV::PatternExpr(r),
        RawRuleKind::Custom(r) => RawRuleKindV::Custom(r),
    }
}

/// A rule as plain values.
pub open spec fn rule_view(r: RawRule) -> RawRuleV
    decreases r,
{
    RawRuleV { kind: kind_view(r.kind), code: opt_str_view(r.code) }
}

/// Rules as plain values.
pub open spec fn rules_view(s: Seq<RawRule>) -> Seq<RawRuleV>
    decreases s,
{
    if s.len() == 0 {
        Seq::empty()
    } else {
        rules_view(s.drop_last()).push(rule_view(s.last()))
    }
}

/// A rule's outcome as plain values.
pub open spec fn outcome_view(r: Result<RawRule, ParseError>) -> Result<RawRuleV, ParseError> {
    match r {
        Ok(rule) => Ok(rule_view(rule)),
        Err(e) => Err(e),
    }
}

/// Rules' outcomes as plain values.
pub open spec fn outcomes_view(s: Seq<Result<RawRule, ParseError>>) -> Seq<Result<RawRuleV, ParseError>> {
    s.map_values(|r: Result<RawRule, ParseError>| outcome_view(r))
}

/// A list of rules' outcome as plain values.
pub open spec fn list_view(r: Result<Vec<RawRule>, ParseError>) -> Result<Seq<RawRuleV>, ParseError> {
    match r {
        Ok(v) => Ok(rules_view(v@)),
        Err(e) => Err(e),
    }
}

// ============================================================================
// The parser
// ============================================================================

fn find_first_comma(t: &[TokenTree]) -> (r: usize)
    ensures
        r == first_comma(t@, 0),
{
    let n = t.len();
    let mut i: usize = 0;
    while i < n
        invariant
            i <= n,
            n == t@.len(),
            first_comma(t@, i as int) == first_comma(t@, 0),
        decreases n - i,
    {
        if let TokenTree::Punct(c, _) = &t[i] {
            if *c == ',' {
                return i;
            }
        }
        i = i + 1;
    }
    i
}

fn token_is_comma(t: &TokenTree) -> (r: bool)
    ensures
        r == is_comma(*t),
{
    match t {
        TokenTree::Punct(c, _) => *c == ',',
        _ => false,
    }
}

fn token_is_any_ident(t: &TokenTree) -> (r: bool)
    ensures
        r == (*t is Ident),
{
    match t {
        TokenTree::Ident(_) => true,
        _ => false,
    }
}

fn token_is_literal(t: &TokenTree) -> (r: bool)
    ensures
        r == (*t is Literal),
{
    match t {
        TokenTree::Literal(_) => true,
        _ => false,
    }
}

fn token_is_punct(t: &TokenTree, p: char) -> (r: bool)
    ensures
        r == (*t matches TokenTree::Punct(q, _) && q == p),
{
    match t {
        TokenTree::Punct(c, _) => *c == p,
        _ => false,
    }
}

fn token_is_ident(t: &TokenTree, name: &str) -> (r: bool)
    ensures
        r == is_ident(*t, name@),
{
    match t {
        TokenTree::Ident(s) => str_eq(s.as_str(), name),
        _ => false,
    }
}

fn tokens_between<'a>(t: &'a [TokenTree], i: usize, j: usize) -> (r: &'a [TokenTree])
    requires
        i <= j <= t@.len(),
    ensures
        r@ == t@.subrange(i as int, j as int),
{
    vstd::slice::slice_subrange(t, i, j)
}

fn expr_tokens(t: &[TokenTree]) -> (r: bool)
    ensures
        r == is_expr(t@),
{
    let text = render_tokens(t);
    parses_as_expr(text.as_slice())
}

fn path_tokens(t: &[TokenTree]) -> (r: bool)
    ensures
        r == syn_parses_path(text_of(t@)),
{
    let text = render_tokens(t);
    parses_as_path(text.as_slice())
}

fn type_tokens(t: &[TokenTree]) -> (r: bool)
    ensures
        r == syn_parses_type(text_of(t@)),
{
    let text = render_tokens(t);
    parses_as_type(text.as_slice())
}

fn str_tokens(t: &[TokenTree]) -> (r: Option<String>)
    ensures
        opt_str_view(r) == str_value(t@),
{
    let text = render_tokens(t);
    lit_str_value(text.as_slice())
}

fn parse_code_only(c: &[TokenTree]) -> (r: Result<Option<String>, ParseError>)
    ensures
        match r {
            Ok(o) => code_only(c@) == Ok::<Option<Seq<char>>, ParseError>(opt_str_view(o)),
            Err(e) => code_only(c@) == Err::<Option<Seq<char>>, ParseError>(e),
        },
{
    if c.len() == 0 {
        return Ok(None);
    }
    if !token_is_any_ident(&c[0]) {
        return Err(ParseError::Syntax);
    }
    if !token_is_ident(&c[0], "code") {
        return Err(ParseError::ExpectedCode);
    }
    if c.len() < 2 || !token_is_punct(&c[1], '=') {
        return Err(ParseError::Syntax);
    }
    match str_tokens(tokens_between(c, 2, c.len())) {
        Some(v) => Ok(Some(v)),
        None => Err(ParseError::Syntax),
    }
}

fn split_value_and_code(c: &[TokenTree]) -> (r: (usize, Option<String>))
    ensures
        r.0 as int == value_and_code(c@).0,
        opt_str_view(r.1) == value_and_code(c@).1,
        r.0 <= c@.len(),
{
    let n = c.len();
    if n >= 4 && token_is_comma(&c[n - 4]) && token_is_ident(&c[n - 3], "code") && token_is_punct(&c[n - 2], '=') {
        let v = str_tokens(tokens_between(c, n - 1, n));
        if v.is_some() {
            return (n - 4, v);
        }
    }
    if n >= 1 && token_is_comma(&c[n - 1]) {
        return (n - 1, None);
    }
    (n, None)
}

fn length_mode_of(s: &str) -> (r: Option<LengthMode>)
    ensures
        r == length_mode(s@),
{
    if str_eq(s, "simple") {
        Some(LengthMode::Simple)
    } else if str_eq(s, "bytes") {
        Some(LengthMode::Bytes)
    } else if str_eq(s, "chars") {
        Some(LengthMode::Chars)
    } else if str_eq(s, "graphemes") {
        Some(LengthMode::Graphemes)
    } else if str_eq(s, "utf16") {
        Some(LengthMode::Utf16)
    } else {
        None
    }
}

pub fn parse_length(c: &[TokenTree], end: usize) -> (r: Result<RawRuleKind, ParseError>)
    requires
        end <= c@.len(),
    ensures
        match r {
            Ok(k) => length_value(c@, end as int) == Ok::<RawRuleKindV, ParseError>(kind_view(k)),
            Err(e) => length_value(c@, end as int) == Err::<RawRuleKindV, ParseError>(e),
        },
{
    let mode = if end >= 1 {
        match &c[0] {
            TokenTree::Ident(s) => length_mode_of(s.as_str()),
            _ => None,
        }
    } else {
        None
    };
    match mode {
        Some(m) => {
            if end >= 2 && token_is_comma(&c[1]) {
                if expr_tokens(tokens_between(c, 2, end)) {
                    Ok(RawRuleKind::Length(m, TokenRange { start: 2, end }))
                } else {
                    Err(ParseError::Syntax)
                }
            } else {
                Err(ParseError::LengthModeWithoutRange)
            }
        },
        None => {
            if expr_tokens(tokens_between(c, 0, end)) {
                Ok(RawRuleKind::Length(LengthMode::Simple, TokenRange { start: 0, end }))
            } else {
                Err(ParseError::Syntax)
            }
        },
    }
}

fn parse_value_kind(name: &str, c: &[TokenTree], end: usize) -> (r: Result<RawRuleKind, ParseError>)
    requires
        end <= c@.len(),
    ensures
        match r {
            Ok(k) => value_kind(name@, c@, end as int) == Ok::<RawRuleKindV, ParseError>(kind_view(k)),
            Err(e) => value_kind(name@, c@, end as int) == Err::<RawRuleKindV, ParseError>(e),
        },
{
    let v = tokens_between(c, 0, end);
    let whole = TokenRange { start: 0, end };
    if str_eq(name, "length") {
        return parse_length(c, end);
    }
    if str_eq(name, "matches") {
        return if path_tokens(v) { Ok(RawRuleKind::Matches(whole)) } else { Err(ParseError::Syntax) };
    }
    if str_eq(name, "pattern") {
        if end >= 1 && (token_is_literal(&c[0]) || token_is_ident(&c[0], "true") || token_is_ident(&c[0], "false")) {
            return match str_tokens(v) {
                Some(s) => Ok(RawRuleKind::PatternLit(s)),
                None => Err(ParseError::Syntax),
            };
        }
        return if expr_tokens(v) { Ok(RawRuleKind::PatternExpr(whole)) } else { Err(ParseError::Syntax) };
    }
    if !expr_tokens(v) {
        return Err(ParseError::Syntax);
    }
    if str_eq(name, "range") {
        Ok(RawRuleKind::Range(whole))
    } else if str_eq(name, "contains") {
        Ok(RawRuleKind::Contains(whole))
    } else if str_eq(name, "prefix") {
        Ok(RawRuleKind::Prefix(whole))
    } else if str_eq(name, "suffix") {
        Ok(RawRuleKind::Suffix(whole))
    } else {
        Ok(RawRuleKind::Custom(whole))
    }
}

fn simple_kind_of(name: &str) -> (r: Option<RawRuleKind>)
    ensures
        match r {
            Some(k) => simple_kind(name@) == Some(kind_view(k)),
            None => simple_kind(name@) is None,
        },
{
    if str_eq(name, "required") {
        Some(RawRuleKind::Required)
    } else if str_eq(name, "ascii") {
        Some(RawRuleKind::Ascii)
    } else if str_eq(name, "alphanumeric") {
        Some(RawRuleKind::Alphanumeric)
    } else if str_eq(name, "email") {
        Some(RawRuleKind::Email)
    } else if str_eq(name, "url") {
        Some(RawRuleKind::Url)
    } else if str_eq(name, "ip") {
        Some(RawRuleKind::Ip)
    } else if str_eq(name, "ipv4") {
        Some(RawRuleKind::IpV4)
    } else if str_eq(name, "ipv6") {
        Some(RawRuleKind::IpV6)
    } else if str_eq(name, "credit_card") {
        Some(RawRuleKind::CreditCard)
    } else if str_eq(name, "phone_number") {
        Some(RawRuleKind::PhoneNumber)
    } else {
        None
    }
}

fn find_cond_end(c: &[TokenTree]) -> (r: usize)
    ensures
        r == cond_end(c@, 2),
{
    let n = c.len();
    let mut i: usize = 2;
    while i < n
        invariant
            2 <= i,
            n == c@.len(),
            cond_end(c@, i as int) == cond_end(c@, 2),
        decreases n - i,
    {
        if token_is_comma(&c[i]) && expr_tokens(tokens_between(c, 2, i)) {
            return i;
        }
        i = i + 1;
    }
    if i > n {
        return n;
    }
    i
}

/// The first error among the outcomes, or all the rules when there is none.
pub fn collect_first_error(outcomes: Vec<Result<RawRule, ParseError>>) -> (r: Result<Vec<RawRule>, ParseError>)
    ensures
        list_view(r) == first_error(outcomes_view(outcomes@)),
{
    let ghost all = outcomes@;
    let mut rules: Vec<RawRule> = Vec::new();
    let mut outs = outcomes;
    let n = outs.len();
    let mut i: usize = 0;
    while i < n
        invariant
            n == all.len(),
            all == outcomes@,
            i <= n,
            outs@ == all.skip(i as int),
            first_error(outcomes_view(all.take(i as int))) == Ok::<Seq<RawRuleV>, ParseError>(rules_view(rules@)),
        decreases n - i,
    {
        let o = outs.remove(0);
        proof {
            assert(o == all[i as int]);
            assert(outcomes_view(all.take(i + 1)).drop_last() =~= outcomes_view(all.take(i as int)));
            assert(outcomes_view(all.take(i + 1)).last() == outcome_view(all[i as int]));
        }
        match o {
            Ok(rule) => {
                let ghost before = rules@;
                rules.push(rule);
                proof {
                    assert(rules@.drop_last() =~= before);
                }
            },
            Err(e) => {
                proof {
                    assert(first_error(outcomes_view(all.take(i + 1))) == Err::<Seq<RawRuleV>, ParseError>(e));
                    assert(outcomes_view(all).take(i + 1) =~= outcomes_view(all.take(i + 1)));
                    lemma_first_error_prefix(outcomes_view(all), (i + 1) as int);
                }
                return Err(e);
            },
        }
        i = i + 1;
    }
    proof {
        assert(all.take(n as int) =~= all);
    }
    Ok(rules)
}

/// An error among the first `k` outcomes is the list's first error.
pub proof fn lemma_first_error_prefix(outs: Seq<Result<RawRuleV, ParseError>>, k: int)
    requires
        0 <= k <= outs.len(),
        first_error(outs.take(k)) is Err,
    ensures
        first_error(outs) == first_error(outs.take(k)),
    decreases outs.len(),
{
    if k < outs.len() {
        assert(outs.drop_last().take(k) =~= outs.take(k));
        lemma_first_error_prefix(outs.drop_last(), k);
    } else {
        assert(outs.take(k) =~= outs);
    }
}

/// The outcome of each comma-separated rule of `t`, in order.
pub fn parse_rule_outcomes(t: &[TokenTree]) -> (r: Vec<Result<RawRule, ParseError>>)
    ensures
        outcomes_view(r@) == rule_outcomes(t@),
    decreases t@, 1nat,
{
    let mut out: Vec<Result<RawRule, ParseError>> = Vec::new();
    if t.len() == 0 {
        assert(outcomes_view(out@) =~= rule_outcomes(t@));
        return out;
    }
    let p = find_first_comma(t);
    proof {
        lemma_first_comma_bounds(t@, 0);
    }
    if p >= t.len() {
        out.push(parse_rule(t));
        assert(outcomes_view(out@) =~= rule_outcomes(t@));
        return out;
    }
    let head = tokens_between(t, 0, p);
    let tail = tokens_between(t, p + 1, t.len());
    proof {
        assert(head@ =~= t@.take(p as int));
        assert(tail@ =~= t@.skip(p + 1));
        assert(decreases_to!(t@ => head@));
        assert(decreases_to!(t@ => tail@));
    }
    out.push(parse_rule(head));
    let mut rest = parse_rule_outcomes(tail);
    let ghost first = out@;
    out.append(&mut rest);
    assert(outcomes_view(out@) =~= rule_outcomes(t@));
    out
}

fn rule_name<'a>(c: &'a [TokenTree]) -> (r: &'a str)
    requires
        c@.len() > 0,
        c@[0] is Ident,
    ensures
        r@ == c@[0]->Ident_0@,
{
    match &c[0] {
        TokenTree::Ident(s) => s.as_str(),
        _ => "",
    }
}

/// The rule that the tokens `c` make.
pub fn parse_rule(c: &[TokenTree]) -> (r: Result<RawRule, ParseError>)
    ensures
        outcome_view(r) == rule_of(c@),
    decreases c@, 0nat,
{
    if c.len() == 0 || !token_is_any_ident(&c[0]) {
        return Err(ParseError::Syntax);
    }
    let name = rule_name(c);
    let bare = c.len() == 1;
    let empty: &[TokenTree] = tokens_between(c, 0, 0);
    let (parens, args): (bool, &[TokenTree]) = if c.len() == 2 {
        match &c[1] {
            TokenTree::Group(d, v) => if *d == Delimiter::Parenthesis { (true, v.as_slice()) } else { (false, empty) },
            _ => (false, empty),
        }
    } else {
        (false, empty)
    };
    proof {
        if parens {
            assert(args@ == c@[1]->Group_1@);
            assert(decreases_to!(c@ => args@));
        } else {
            assert(args@ =~= Seq::<TokenTree>::empty());
        }
    }
    if str_eq(name, "skip") {
        return if bare { Ok(RawRule { kind: RawRuleKind::Skip, code: None }) } else { Err(ParseError::Syntax) };
    }
    if str_eq(name, "dive") {
        return if bare || (parens && args.len() == 0) {
            Ok(RawRule { kind: RawRuleKind::Dive(None), code: None })
        } else if parens && expr_tokens(args) {
            Ok(RawRule { kind: RawRuleKind::Dive(Some(TokenRange { start: 0, end: args.len() })), code: None })
        } else {
            Err(ParseError::Syntax)
        };
    }
    match simple_kind_of(name) {
        Some(kind) => {
            return if bare {
                Ok(RawRule { kind, code: None })
            } else if parens {
                match parse_code_only(args) {
                    Ok(code) => Ok(RawRule { kind, code }),
                    Err(e) => Err(e),
                }
            } else {
                Err(ParseError::Syntax)
            };
        },
        None => {},
    }
    let is_value = str_eq(name, "length") || str_eq(name, "matches") || str_eq(name, "range") || str_eq(name, "contains")
        || str_eq(name, "prefix") || str_eq(name, "suffix") || str_eq(name, "pattern") || str_eq(name, "custom");
    if !(str_eq(name, "adapt") || str_eq(name, "rename") || str_eq(name, "code") || str_eq(name, "inner") || str_eq(name, "if")
        || is_value) {
        return Err(ParseError::UnrecognizedRule);
    }
    if !parens {
        return Err(ParseError::Syntax);
    }
    if str_eq(name, "adapt") {
        return if path_tokens(args) {
            Ok(RawRule { kind: RawRuleKind::Adapt(TokenRange { start: 0, end: args.len() }), code: None })
        } else {
            Err(ParseError::Syntax)
        };
    }
    if str_eq(name, "rename") || str_eq(name, "code") {
        return match str_tokens(args) {
            Some(s) => Ok(RawRule {
                kind: if str_eq(name, "rename") { RawRuleKind::Rename(s) } else { RawRuleKind::Code(s) },
                code: None,
            }),
            None => Err(ParseError::Syntax),
        };
    }
    if str_eq(name, "inner") {
        let outs = parse_rule_outcomes(args);
        return match collect_first_error(outs) {
            Ok(rules) => Ok(RawRule { kind: RawRuleKind::Inner(rules), code: None }),
            Err(e) => Err(e),
        };
    }
    if str_eq(name, "if") {
        if args.len() == 0 || !token_is_any_ident(&args[0]) {
            return Err(ParseError::Syntax);
        }
        if !token_is_ident(&args[0], "cond") {
            return Err(ParseError::ExpectedCond);
        }
        if args.len() < 2 || !token_is_punct(&args[1], '=') {
            return Err(ParseError::Syntax);
        }
        let p = find_cond_end(args);
        if p >= args.len() {
            return Err(ParseError::Syntax);
        }
        proof {
            lemma_cond_end_bounds(args@, 2);
        }
        let rest = tokens_between(args, p + 1, args.len());
        proof {
            assert(rest@ =~= args@.skip(p + 1));
            assert(decreases_to!(c@ => rest@));
        }
        let outs = parse_rule_outcomes(rest);
        return match collect_first_error(outs) {
            Ok(rules) => if rules.len() == 0 {
                Err(ParseError::IfWithoutRules)
            } else {
                Ok(RawRule { kind: RawRuleKind::If(TokenRange { start: 2, end: p }, rules), code: None })
            },
            Err(e) => Err(e),
        };
    }
    let (end, code) = split_value_and_code(args);
    match parse_value_kind(name, args, end) {
        Ok(kind) => Ok(RawRule { kind, code }),
        Err(e) => Err(e),
    }
}

// ============================================================================
// Attributes
// ============================================================================

/// An attribute: its path as text (`garde`, `serde`, `doc`, ...) and, when it is
/// written with parentheses, the tokens between them.
#[derive(Debug)]
pub struct Attribute {
    pub path: String,
    pub args: Option<Vec<TokenTree>>,
}

/// The rules that the `garde` attributes among `attrs` give, in order, and the
/// errors that they hold, in order. Each rule of an attribute is parsed on its own,
/// so one bad rule does not hide the others; an attribute without parentheses is
/// an error.
pub open spec fn field_rules(attrs: Seq<Attribute>) -> (Seq<RawRuleV>, Seq<ParseError>)
    decreases attrs.len(),
{
    if attrs.len() == 0 {
        (Seq::empty(), Seq::empty())
    } else {
        let (rules, errors) = field_rules(attrs.drop_last());
        let a = attrs.last();
        if a.path@ != "garde"@ {
            (rules, errors)
        } else {
            match a.args {
                None => (rules, errors.push(ParseError::Syntax)),
                Some(t) => (rules + oks(rule_outcomes(t@)), errors + errs(rule_outcomes(t@))),
            }
        }
    }
}

/// The rules among the outcomes, in order.
pub open spec fn oks(outs: Seq<Result<RawRuleV, ParseError>>) -> Seq<RawRuleV>
    decreases outs.len(),
{
    if outs.len() == 0 {
        Seq::empty()
    } else {
        match outs.last() {
            Ok(r) => oks(outs.drop_last()).push(r),
            Err(_) => oks(outs.drop_last()),
        }
    }
}

/// The errors among the outcomes, in order.
pub open spec fn errs(outs: Seq<Result<RawRuleV, ParseError>>) -> Seq<ParseError>
    decreases outs.len(),
{
    if outs.len() == 0 {
        Seq::empty()
    } else {
        match outs.last() {
            Ok(_) => errs(outs.drop_last()),
            Err(e) => errs(outs.drop_last()).push(e),
        }
    }
}

/// The outcome of a field's attributes: its rules, or every error found.
pub open spec fn field_outcome(attrs: Seq<Attribute>) -> Result<Seq<RawRuleV>, Seq<ParseError>> {
    let (rules, errors) = field_rules(attrs);
    if errors.len() == 0 {
        Ok(rules)
    } else {
        Err(errors)
    }
}

fn split_outcomes(outs: Vec<Result<RawRule, ParseError>>, rules: &mut Vec<RawRule>, errors: &mut Vec<ParseError>)
    ensures
        rules_view(final(rules)@) == rules_view(old(rules)@) + oks(outcomes_view(outs@)),
        final(errors)@ == old(errors)@ + errs(outcomes_view(outs@)),
{
    let ghost all = outs@;
    let ghost rules0 = rules@;
    let ghost errors0 = errors@;
    let mut outs = outs;
    let n = outs.len();
    let mut i: usize = 0;
    while i < n
        invariant
            n == all.len(),
            i <= n,
            outs@ == all.skip(i as int),
            rules_view(rules@) == rules_view(rules0) + oks(outcomes_view(all.take(i as int))),
            errors@ == errors0 + errs(outcomes_view(all.take(i as int))),
        decreases n - i,
    {
        let o = outs.remove(0);
        proof {
            assert(o == all[i as int]);
            assert(outcomes_view(all.take(i + 1)).drop_last() =~= outcomes_view(all.take(i as int)));
            assert(outcomes_view(all.take(i + 1)).last() == outcome_view(all[i as int]));
        }
        match o {
            Ok(rule) => {
                let ghost before = rules@;
                rules.push(rule);
                proof {
                    assert(rules@.drop_last() =~= before);
                    assert(rules_view(rules@) =~= rules_view(rules0) + oks(outcomes_view(all.take(i + 1))));
                }
            },
            Err(e) => {
                errors.push(e);
                assert(errors@ =~= errors0 + errs(outcomes_view(all.take(i + 1))));
            },
        }
        i = i + 1;
    }
    proof {
        assert(all.take(n as int) =~= all);
    }
}

/// The rules of a field's `garde` attributes, in order, or every error found.
pub fn parse_field_attr_list(attrs: &[Attribute]) -> (r: Result<Vec<RawRule>, Vec<ParseError>>)
    ensures
        match r {
            Ok(v) => field_outcome(attrs@) == Ok::<Seq<RawRuleV>, Seq<ParseError>>(rules_view(v@)),
            Err(v) => field_outcome(attrs@) == Err::<Seq<RawRuleV>, Seq<ParseError>>(v@),
        },
{
    let mut rules: Vec<RawRule> = Vec::new();
    let mut errors: Vec<ParseError> = Vec::new();
    let n = attrs.len();
    for i in 0..n
        invariant
            n == attrs@.len(),
            (rules_view(rules@), errors@) == field_rules(attrs@.take(i as int)),
    {
        proof {
            assert(attrs@.take(i + 1).drop_last() =~= attrs@.take(i as int));
        }
        let a = &attrs[i];
        if str_eq(a.path.as_str(), "garde") {
            match &a.args {
                None => {
                    errors.push(ParseError::Syntax);
                },
                Some(t) => {
                    let outs = parse_rule_outcomes(t.as_slice());
                    split_outcomes(outs, &mut rules, &mut errors);
                },
            }
        }
    }
    proof {
        assert(attrs@.take(n as int) =~= attrs@);
    }
    if errors.len() == 0 {
        Ok(rules)
    } else {
        Err(errors)
    }
}

/// An attribute of the validated type itself.
#[derive(Debug)]
pub enum InputAttr {
    /// `context(Type)` or `context(Type as name)`: the type's tokens, and the name.
    Context(TokenRange, Option<String>),
    AllowUnvalidated,
    Transparent,
}

/// An attribute of the validated type, as plain values.
pub enum InputAttrV {
    Context(TokenRange, Option<Seq<char>>),
    AllowUnvalidated,
    Transparent,
}

/// The attribute that the tokens of a type-level `garde(...)` make.
pub open spec fn input_attr_of(t: Seq<TokenTree>) -> Result<InputAttrV, ParseError> {
    if t.len() == 0 || !(t[0] is Ident) {
        Err(ParseError::Syntax)
    } else {
        let name = t[0]->Ident_0@;
        if name == "context"@ {
            if t.len() == 2 && (t[1] matches TokenTree::Group(d, _) && d == Delimiter::Parenthesis) {
                let c = t[1]->Group_1@;
                let n = c.len() as int;
                if n >= 2 && is_ident(c[n - 2], "as"@) && c[n - 1] is Ident
                    && syn_parses_type(text_of(c.subrange(0, n - 2))) {
                    Ok(InputAttrV::Context(range(0, n - 2), Some(c[n - 1]->Ident_0@)))
                } else if syn_parses_type(text_of(c)) {
                    Ok(InputAttrV::Context(range(0, n), None))
                } else {
                    Err(ParseError::Syntax)
                }
            } else {
                Err(ParseError::Syntax)
            }
        } else if name == "allow_unvalidated"@ {
            if t.len() == 1 { Ok(InputAttrV::AllowUnvalidated) } else { Err(ParseError::Syntax) }
        } else if name == "transparent"@ {
            if t.len() == 1 { Ok(InputAttrV::Transparent) } else { Err(ParseError::Syntax) }
        } else {
            Err(ParseError::UnrecognizedAttribute)
        }
    }
}

/// A type-level attribute as plain values.
pub open spec fn input_attr_view(a: InputAttr) -> InputAttrV {
    match a {
        InputAttr::Context(r, n) => InputAttrV::Context(r, opt_str_view(n)),
        InputAttr::AllowUnvalidated => InputAttrV::AllowUnvalidated,
        InputAttr::Transparent => InputAttrV::Transparent,
    }
}

/// The attribute that the tokens of a type-level `garde(...)` make.
pub fn parse_input_attr(t: &[TokenTree]) -> (r: Result<InputAttr, ParseError>)
    ensures
        match r {
            Ok(a) => input_attr_of(t@) == Ok::<InputAttrV, ParseError>(input_attr_view(a)),
            Err(e) => input_attr_of(t@) == Err::<InputAttrV, ParseError>(e),
        },
{
    if t.len() == 0 || !token_is_any_ident(&t[0]) {
        return Err(ParseError::Syntax);
    }
    let name = rule_name(t);
    if str_eq(name, "context") {
        if t.len() == 2 {
            if let TokenTree::Group(d, v) = &t[1] {
                if *d == Delimiter::Parenthesis {
                    let c = v.as_slice();
                    let n = c.len();
                    if n >= 2 && token_is_ident(&c[n - 2], "as") && token_is_any_ident(&c[n - 1])
                        && type_tokens(tokens_between(c, 0, n - 2)) {
                        let ctx = rule_name(tokens_between(c, n - 1, n)).to_owned();
                        return Ok(InputAttr::Context(TokenRange { start: 0, end: n - 2 }, Some(ctx)));
                    }
                    if type_tokens(c) {
                        return Ok(InputAttr::Context(TokenRange { start: 0, end: n }, None));
                    }
                    return Err(ParseError::Syntax);
                }
            }
        }
        return Err(ParseError::Syntax);
    }
    if str_eq(name, "allow_unvalidated") {
        return if t.len() == 1 { Ok(InputAttr::AllowUnvalidated) } else { Err(ParseError::Syntax) };
    }
    if str_eq(name, "transparent") {
        return if t.len() == 1 { Ok(InputAttr::Transparent) } else { Err(ParseError::Syntax) };
    }
    Err(ParseError::UnrecognizedAttribute)
}

/// The attributes that the `garde` attributes of the validated type give, in order,
/// or every error found; an attribute without parentheses is an error of style.
pub open spec fn input_attrs(attrs: Seq<Attribute>) -> (Seq<InputAttrV>, Seq<ParseError>)
    decreases attrs.len(),
{
    if attrs.len() == 0 {
        (Seq::empty(), Seq::empty())
    } else {
        let (ok, errors) = input_attrs(attrs.drop_last());
        let a = attrs.last();
        if a.path@ != "garde"@ {
            (ok, errors)
        } else {
            match a.args {
                None => (ok, errors.push(ParseError::InvalidAttrStyle)),
                Some(t) => match input_attr_of(t@) {
                    Ok(x) => (ok.push(x), errors),
                    Err(e) => (ok, errors.push(e)),
                },
            }
        }
    }
}

/// The type-level `garde` attributes, in order, or every error found.
pub fn parse_input_attr_list(attrs: &[Attribute]) -> (r: Result<Vec<InputAttr>, Vec<ParseError>>)
    ensures
        match r {
            Ok(v) => input_attrs(attrs@).1.len() == 0
                && input_attrs(attrs@).0 == v@.map_values(|a: InputAttr| input_attr_view(a)),
            Err(v) => input_attrs(attrs@).1.len() > 0 && input_attrs(attrs@).1 == v@,
        },
{
    let mut out: Vec<InputAttr> = Vec::new();
    let mut errors: Vec<ParseError> = Vec::new();
    let n = attrs.len();
    for i in 0..n
        invariant
            n == attrs@.len(),
            (out@.map_values(|a: InputAttr| input_attr_view(a)), errors@) == input_attrs(attrs@.take(i as int)),
    {
        proof {
            assert(attrs@.take(i + 1).drop_last() =~= attrs@.take(i as int));
        }
        let a = &attrs[i];
        if str_eq(a.path.as_str(), "garde") {
            match &a.args {
                None => {
                    errors.push(ParseError::InvalidAttrStyle);
                },
                Some(t) => {
                    match parse_input_attr(t.as_slice()) {
                        Ok(x) => {
                            out.push(x);
                        },
                        Err(e) => {
                            errors.push(e);
                        },
                    }
                },
            }
        }
        assert((out@.map_values(|a: InputAttr| input_attr_view(a)), errors@) =~= input_attrs(attrs@.take(i + 1)));
    }
    proof {
        assert(attrs@.take(n as int) =~= attrs@);
    }
    if errors.len() == 0 {
        Ok(out)
    } else {
        Err(errors)
    }
}

// ============================================================================
// The validated type
// ============================================================================

/// The fields of a struct or of an enum variant, each with its attributes.
#[derive(Debug)]
pub enum FieldsInput {
    Named(Vec<(String, Vec<Attribute>)>),
    Unnamed(Vec<Vec<Attribute>>),
    Unit,
}

/// What kind of type is validated.
#[derive(Debug)]
pub enum DataInput {
    Struct(FieldsInput),
    Enum(Vec<(String, FieldsInput)>),
    Union,
}

/// The validated type: its attributes and its data.
#[derive(Debug)]
pub struct DeriveInput {
    pub attrs: Vec<Attribute>,
    pub data: DataInput,
}

/// The rules of each field of a struct or a variant.
#[derive(Debug)]
pub enum Variant {
    /// Named fields, in the order in which they are declared.
    Struct(Vec<(String, Vec<RawRule>)>),
    Tuple(Vec<Vec<RawRule>>),
}

/// The parsed type: a struct's fields, or each variant of an enum.
#[derive(Debug)]
pub enum InputKind {
    Struct(Variant),
    Enum(Vec<(String, Option<Variant>)>),
}

/// The parsed type with its attributes.
#[derive(Debug)]
pub struct Input {
    pub attrs: Vec<InputAttr>,
    pub kind: InputKind,
}

/// The fields' rules as plain values.
pub enum VariantV {
    Struct(Seq<(Seq<char>, Seq<RawRuleV>)>),
    Tuple(Seq<Seq<RawRuleV>>),
}

/// The parsed type as plain values.
pub enum InputKindV {
    Struct(VariantV),
    Enum(Seq<(Seq<char>, Option<VariantV>)>),
}

/// The parsed type with its attributes, as plain values.
pub struct InputV {
    pub attrs: Seq<InputAttrV>,
    pub kind: InputKindV,
}

/// The rules of each field (none for a field whose attributes hold an error),
/// and the errors, in order.
pub open spec fn fields_parse(fs: Seq<Vec<Attribute>>) -> (Seq<Seq<RawRuleV>>, Seq<ParseError>)
    decreases fs.len(),
{
    if fs.len() == 0 {
        (Seq::empty(), Seq::empty())
    } else {
        let (rules, errors) = fields_parse(fs.drop_last());
        match field_outcome(fs.last()@) {
            Ok(r) => (rules.push(r), errors),
            Err(e) => (rules.push(Seq::empty()), errors + e),
        }
    }
}

/// There are as many fields' rules as fields.
pub proof fn lemma_fields_parse_len(fs: Seq<Vec<Attribute>>)
    ensures
        fields_parse(fs).0.len() == fs.len(),
    decreases fs.len(),
{
    if fs.len() > 0 {
        lemma_fields_parse_len(fs.drop_last());
    }
}

/// The attributes of named fields.
pub open spec fn named_attrs(fs: Seq<(String, Vec<Attribute>)>) -> Seq<Vec<Attribute>> {
    fs.map_values(|f: (String, Vec<Attribute>)| f.1)
}

/// The names of named fields.
pub open spec fn named_names(fs: Seq<(String, Vec<Attribute>)>) -> Seq<Seq<char>> {
    fs.map_values(|f: (String, Vec<Attribute>)| f.0@)
}

/// Names paired with rules.
pub open spec fn zip_named(names: Seq<Seq<char>>, rules: Seq<Seq<RawRuleV>>) -> Seq<(Seq<char>, Seq<RawRuleV>)> {
    Seq::new(names.len(), |i: int| (names[i], rules[i]))
}

/// The fields of a struct or a variant: their rules (none for a unit), and the errors.
pub open spec fn variant_parse(f: FieldsInput) -> (Option<VariantV>, Seq<ParseError>) {
    match f {
        FieldsInput::Named(fs) => {
            let (rules, errors) = fields_parse(named_attrs(fs@));
            (Some(VariantV::Struct(zip_named(named_names(fs@), rules))), errors)
        },
        FieldsInput::Unnamed(fs) => {
            let (rules, errors) = fields_parse(fs@);
            (Some(VariantV::Tuple(rules)), errors)
        },
        FieldsInput::Unit => (None, Seq::empty()),
    }
}

/// The variants of an enum (those whose fields hold no error), and the errors.
pub open spec fn enum_parse(vs: Seq<(String, FieldsInput)>) -> (Seq<(Seq<char>, Option<VariantV>)>, Seq<ParseError>)
    decreases vs.len(),
{
    if vs.len() == 0 {
        (Seq::empty(), Seq::empty())
    } else {
        let (ok, errors) = enum_parse(vs.drop_last());
        let (v, e) = variant_parse(vs.last().1);
        if e.len() == 0 {
            (ok.push((vs.last().0@, v)), errors)
        } else {
            (ok, errors + e)
        }
    }
}

/// The parsed data of the type (none on an error), and the errors of its fields.
/// A unit struct and a union are errors.
pub open spec fn kind_outcome(data: DataInput) -> (Option<InputKindV>, Seq<ParseError>) {
    match data {
        DataInput::Struct(f) => match variant_parse(f) {
            (Some(v), e) => if e.len() == 0 { (Some(InputKindV::Struct(v)), e) } else { (None, e) },
            (None, e) => (None, e.push(ParseError::UnitStruct)),
        },
        DataInput::Enum(vs) => {
            let (ok, e) = enum_parse(vs@);
            (Some(InputKindV::Enum(ok)), e)
        },
        DataInput::Union => (None, seq![ParseError::Union]),
    }
}

/// The parsed type, or every error found: those of its attributes, then those of
/// its fields.
pub open spec fn input_outcome(d: DeriveInput) -> Result<InputV, Seq<ParseError>> {
    let (attrs, attr_errors) = input_attrs(d.attrs@);
    let (kind, kind_errors) = kind_outcome(d.data);
    let errors = attr_errors + kind_errors;
    if errors.len() == 0 {
        Ok(InputV { attrs, kind: kind->0 })
    } else {
        Err(errors)
    }
}

/// Rules of fields as plain values.
pub open spec fn field_rules_view(s: Seq<Vec<RawRule>>) -> Seq<Seq<RawRuleV>> {
    s.map_values(|v: Vec<RawRule>| rules_view(v@))
}

/// Named fields' rules as plain values.
pub open spec fn named_rules_view(s: Seq<(String, Vec<RawRule>)>) -> Seq<(Seq<char>, Seq<RawRuleV>)> {
    s.map_values(|f: (String, Vec<RawRule>)| (f.0@, rules_view(f.1@)))
}

/// A variant as plain values.
pub open spec fn variant_view(v: Variant) -> VariantV {
    match v {
        Variant::Struct(fs) => VariantV::Struct(named_rules_view(fs@)),
        Variant::Tuple(fs) => VariantV::Tuple(field_rules_view(fs@)),
    }
}

/// An optional variant as plain values.
pub open spec fn opt_variant_view(v: Option<Variant>) -> Option<VariantV> {
    match v {
        Some(x) => Some(variant_view(x)),
        None => None,
    }
}

/// The parsed type as plain values.
pub open spec fn input_view(i: Input) -> InputV {
    InputV {
        attrs: i.attrs@.map_values(|a: InputAttr| input_attr_view(a)),
        kind: match i.kind {
            InputKind::Struct(v) => InputKindV::Struct(variant_view(v)),
            InputKind::Enum(vs) => InputKindV::Enum(
                vs@.map_values(|e: (String, Option<Variant>)| (e.0@, opt_variant_view(e.1))),
            ),
        },
    }
}

fn parse_fields(fs: &[&Vec<Attribute>], rules: &mut Vec<Vec<RawRule>>, errors: &mut Vec<ParseError>)
    requires
        old(rules)@.len() == 0,
        old(errors)@.len() == 0,
    ensures
        (field_rules_view(final(rules)@), final(errors)@) == fields_parse(fs@.map_values(|a: &Vec<Attribute>| *a)),
{
    let ghost attrs = fs@.map_values(|a: &Vec<Attribute>| *a);
    let n = fs.len();
    for i in 0..n
        invariant
            n == fs@.len(),
            attrs == fs@.map_values(|a: &Vec<Attribute>| *a),
            (field_rules_view(rules@), errors@) == fields_parse(attrs.take(i as int)),
    {
        proof {
            assert(attrs.take(i + 1).drop_last() =~= attrs.take(i as int));
            assert(attrs.take(i + 1).last() == *fs@[i as int]);
        }
        let ghost rules0 = rules@;
        match parse_field_attr_list(fs[i].as_slice()) {
            Ok(r) => {
                rules.push(r);
                assert(rules@.drop_last() =~= rules0);
            },
            Err(mut e) => {
                rules.push(Vec::new());
                assert(rules@.drop_last() =~= rules0);
                assert(rules_view(Seq::<RawRule>::empty()) =~= Seq::<RawRuleV>::empty());
                errors.append(&mut e);
            },
        }
        assert(field_rules_view(rules@) =~= fields_parse(attrs.take(i + 1)).0);
        assert(errors@ =~= fields_parse(attrs.take(i + 1)).1);
    }
    proof {
        assert(attrs.take(n as int) =~= attrs);
    }
}

/// The fields of a struct or a variant: their rules (none for a unit), and the errors.
pub fn parse_variant(f: &FieldsInput) -> (r: (Option<Variant>, Vec<ParseError>))
    ensures
        (opt_variant_view(r.0), r.1@) == variant_parse(*f),
{
    let mut rules: Vec<Vec<RawRule>> = Vec::new();
    let mut errors: Vec<ParseError> = Vec::new();
    match f {
        FieldsInput::Named(fs) => {
            let mut attrs: Vec<&Vec<Attribute>> = Vec::new();
            let n = fs.len();
            for i in 0..n
                invariant
                    n == fs@.len(),
                    attrs@.len() == i,
                    forall|k: int| 0 <= k < i ==> *(#[trigger] attrs@[k]) == fs@[k].1,
            {
                attrs.push(&fs[i].1);
            }
            assert(attrs@.map_values(|a: &Vec<Attribute>| *a) =~= named_attrs(fs@));
            parse_fields(attrs.as_slice(), &mut rules, &mut errors);
            proof {
                lemma_fields_parse_len(named_attrs(fs@));
            }
            let ghost all = rules@;
            let ghost rv = field_rules_view(all);
            let mut named: Vec<(String, Vec<RawRule>)> = Vec::new();
            let mut rules = rules;
            for i in 0..n
                invariant
                    n == fs@.len(),
                    all.len() == n,
                    rv == field_rules_view(all),
                    rules@ == all.skip(i as int),
                    named@.len() == i,
                    named_rules_view(named@) == zip_named(named_names(fs@), rv).take(i as int),
            {
                let r = rules.remove(0);
                let name = fs[i].0.clone();
                let ghost before = named@;
                named.push((name, r));
                proof {
                    assert(named@[i as int].1 == all[i as int]);
                    assert(named@[i as int].0@ == fs@[i as int].0@);
                    assert(named_names(fs@)[i as int] == fs@[i as int].0@);
                    assert(rv[i as int] == rules_view(all[i as int]@));
                    assert forall|k: int| 0 <= k < i implies #[trigger] named@[k] == before[k] by {}
                    assert(named_rules_view(named@) =~= zip_named(named_names(fs@), rv).take(i + 1));
                }
            }
            assert(zip_named(named_names(fs@), rv).take(n as int) =~= zip_named(named_names(fs@), rv));
            (Some(Variant::Struct(named)), errors)
        },
        FieldsInput::Unnamed(fs) => {
            let mut attrs: Vec<&Vec<Attribute>> = Vec::new();
            let n = fs.len();
            for i in 0..n
                invariant
                    n == fs@.len(),
                    attrs@.len() == i,
                    forall|k: int| 0 <= k < i ==> *(#[trigger] attrs@[k]) == fs@[k],
            {
                attrs.push(&fs[i]);
            }
            assert(attrs@.map_values(|a: &Vec<Attribute>| *a) =~= fs@);
            parse_fields(attrs.as_slice(), &mut rules, &mut errors);
            (Some(Variant::Tuple(rules)), errors)
        },
        FieldsInput::Unit => (None, errors),
    }
}

/// The variants of an enum as plain values.
pub open spec fn variants_view(s: Seq<(String, Option<Variant>)>) -> Seq<(Seq<char>, Option<VariantV>)> {
    s.map_values(|e: (String, Option<Variant>)| (e.0@, opt_variant_view(e.1)))
}

fn parse_enum_variants(vs: &Vec<(String, FieldsInput)>) -> (r: (Vec<(String, Option<Variant>)>, Vec<ParseError>))
    ensures
        (variants_view(r.0@), r.1@) == enum_parse(vs@),
{
    let mut ok: Vec<(String, Option<Variant>)> = Vec::new();
    let mut errors: Vec<ParseError> = Vec::new();
    let n = vs.len();
    for i in 0..n
        invariant
            n == vs@.len(),
            (variants_view(ok@), errors@) == enum_parse(vs@.take(i as int)),
    {
        proof {
            assert(vs@.take(i + 1).drop_last() =~= vs@.take(i as int));
        }
        let (v, mut e) = parse_variant(&vs[i].1);
        if e.len() == 0 {
            let ghost before = ok@;
            ok.push((vs[i].0.clone(), v));
            assert(ok@.drop_last() =~= before);
            assert(variants_view(ok@) =~= variants_view(before).push((vs@[i as int].0@, opt_variant_view(v))));
        } else {
            errors.append(&mut e);
        }
        assert((variants_view(ok@), errors@) =~= enum_parse(vs@.take(i + 1)));
    }
    proof {
        assert(vs@.take(n as int) =~= vs@);
    }
    (ok, errors)
}

/// The parsed type, or every error found: those of its attributes, then those of
/// its fields.
pub fn parse(input: &DeriveInput) -> (r: Result<Input, Vec<ParseError>>)
    ensures
        match r {
            Ok(i) => input_outcome(*input) == Ok::<InputV, Seq<ParseError>>(input_view(i)),
            Err(e) => input_outcome(*input) == Err::<InputV, Seq<ParseError>>(e@),
        },
{
    let (attrs, mut errors): (Vec<InputAttr>, Vec<ParseError>) = match parse_input_attr_list(input.attrs.as_slice()) {
        Ok(a) => (a, Vec::new()),
        Err(e) => (Vec::new(), e),
    };
    let ghost attr_errors = errors@;
    proof {
        if attr_errors.len() == 0 {
            assert(attrs@.map_values(|a: InputAttr| input_attr_view(a)) == input_attrs(input.attrs@).0);
        }
    }
    let kind: Option<InputKind> = match &input.data {
        DataInput::Struct(f) => {
            let (v, mut e) = parse_variant(f);
            match v {
                Some(v) => {
                    if e.len() == 0 {
                        assert(InputKindV::Struct(variant_view(v)) == InputKindV::Struct(variant_parse(*f).0->0));
                        Some(InputKind::Struct(v))
                    } else {
                        errors.append(&mut e);
                        None
                    }
                },
                None => {
                    errors.append(&mut e);
                    errors.push(ParseError::UnitStruct);
                    None
                },
            }
        },
        DataInput::Enum(vs) => {
            let (ok, mut e) = parse_enum_variants(vs);
            errors.append(&mut e);
            assert(ok@.map_values(|e: (String, Option<Variant>)| (e.0@, opt_variant_view(e.1))) == enum_parse(vs@).0);
            Some(InputKind::Enum(ok))
        },
        DataInput::Union => {
            errors.push(ParseError::Union);
            None
        },
    };
    proof {
        let (ia, ie) = input_attrs(input.attrs@);
        assert(attr_errors == ie);
    }
    proof {
        let (sk, se) = kind_outcome(input.data);
        assert(errors@ =~= attr_errors + se);
        assert(kind is Some <==> sk is Some);
        if kind is Some {
            assert(sk->0 == match kind->0 {
                InputKind::Struct(v) => InputKindV::Struct(variant_view(v)),
                InputKind::Enum(vs) => InputKindV::Enum(
                    vs@.map_values(|e: (String, Option<Variant>)| (e.0@, opt_variant_view(e.1))),
                ),
            });
        }
    }
    if errors.len() == 0 {
        match kind {
            Some(kind) => {
                let r = Input { attrs, kind };
                assert(attr_errors.len() == 0);
                assert(input_view(r).attrs == input_attrs(input.attrs@).0);
                Ok(r)
            },
            None => Err(errors),
        }
    } else {
        Err(errors)
    }
}
} // verus!
