//! Tokens as plain values, their text, and what `syn` makes of that text.

use vstd::prelude::*;

verus! {

/// The brackets around a group of tokens.
#[derive(Clone, Copy, Debug, PartialEq, Eq, Structural)]
pub enum Delimiter {
    Parenthesis,
    Brace,
    Bracket,
    Invisible,
}

/// A token: an identifier, a punctuation character (joined to the next one or
/// not), a literal in its source form, or a delimited group of tokens.
#[derive(Debug)]
pub enum TokenTree {
    Ident(String),
    Punct(char, bool),
    Literal(String),
    Group(Delimiter, Vec<TokenTree>),
}

/// The opening bracket of a group, as text.
pub open spec fn open_text(d: Delimiter) -> Seq<char> {
    match d {
        Delimiter::Parenthesis => seq!['('],
        Delimiter::Brace => seq!['{'],
        Delimiter::Bracket => seq!['['],
        Delimiter::Invisible => Seq::empty(),
    }
}

/// The closing bracket of a group, as text.
pub open spec fn close_text(d: Delimiter) -> Seq<char> {
    match d {
        Delimiter::Parenthesis => seq![')'],
        Delimiter::Brace => seq!['}'],
        Delimiter::Bracket => seq![']'],
        Delimiter::Invisible => Seq::empty(),
    }
}

/// A token as text: identifiers, literals and groups are followed by a space, a
/// punctuation character by a space unless it is joined to the next one.
pub open spec fn render_tree(t: TokenTree) -> Seq<char>
    decreases t,
{
    match t {
        TokenTree::Ident(s) => s@.push(' '),
        TokenTree::Punct(c, joint) => if joint { seq![c] } else { seq![c, ' '] },
        TokenTree::Literal(s) => s@.push(' '),
        TokenTree::Group(d, v) => open_text(d) + render_seq(v@) + close_text(d).push(' '),
    }
}

/// Tokens as text, one after the other.
pub open spec fn render_seq(t: Seq<TokenTree>) -> Seq<char>
    decreases t,
{
    if t.len() == 0 {
        Seq::empty()
    } else {
        render_seq(t.drop_last()) + render_tree(t.last())
    }
}

fn push_str_chars(out: &mut Vec<char>, s: &str)
    ensures
        final(out)@ == old(out)@ + s@,
{
    let n = s.unicode_len();
    let ghost start = out@;
    for i in 0..n
        invariant
            n == s@.len(),
            out@ == start + s@.take(i as int),
    {
        out.push(s.get_char(i));
        assert(out@ =~= start + s@.take(i + 1));
    }
    assert(s@.take(n as int) =~= s@);
}

fn push_delimiter(out: &mut Vec<char>, d: Delimiter, open: bool)
    ensures
        final(out)@ == old(out)@ + if open { open_text(d) } else { close_text(d) },
{
    let ghost start = out@;
    match d {
        Delimiter::Parenthesis => out.push(if open { '(' } else { ')' }),
        Delimiter::Brace => out.push(if open { '{' } else { '}' }),
        Delimiter::Bracket => out.push(if open { '[' } else { ']' }),
        Delimiter::Invisible => {},
    }
    assert(out@ =~= start + if open { open_text(d) } else { close_text(d) });
}

fn render_tree_into(x: &TokenTree, out: &mut Vec<char>)
    ensures
        final(out)@ == old(out)@ + render_tree(*x),
    decreases *x,
{
    let ghost start = out@;
    match x {
        TokenTree::Ident(s) => {
            push_str_chars(out, s.as_str());
            out.push(' ');
        },
        TokenTree::Punct(c, joint) => {
            out.push(*c);
            if !*joint {
                out.push(' ');
            }
        },
        TokenTree::Literal(s) => {
            push_str_chars(out, s.as_str());
            out.push(' ');
        },
        TokenTree::Group(d, v) => {
            push_delimiter(out, *d, true);
            render_into(v.as_slice(), out);
            push_delimiter(out, *d, false);
            out.push(' ');
        },
    }
    assert(out@ =~= start + render_tree(*x));
}

/// Appends the text of `t` to `out`.
pub fn render_into(t: &[TokenTree], out: &mut Vec<char>)
    ensures
        final(out)@ == old(out)@ + render_seq(t@),
    decreases t@,
{
    let ghost start = out@;
    let n = t.len();
    for i in 0..n
        invariant
            n == t@.len(),
            out@ == start + render_seq(t@.take(i as int)),
    {
        proof {
            assert(decreases_to!(t@ => t@[i as int]));
        }
        render_tree_into(&t[i], out);
        assert(t@.take(i + 1).drop_last() =~= t@.take(i as int));
        assert(out@ =~= start + render_seq(t@.take(i + 1)));
    }
    assert(t@.take(n as int) =~= t@);
}

/// The text of `t`.
pub fn render_tokens(t: &[TokenTree]) -> (r: Vec<char>)
    ensures
        r@ == render_seq(t@),
{
    let mut out: Vec<char> = Vec::new();
    render_into(t, &mut out);
    assert(out@ =~= render_seq(t@));
    out
}

/// Whether `syn` parses the text as exactly one expression.
pub uninterp spec fn syn_parses_expr(text: Seq<char>) -> bool;

/// Whether `syn` parses the text as exactly one path.
pub uninterp spec fn syn_parses_path(text: Seq<char>) -> bool;

/// Whether `syn` parses the text as exactly one type.
pub uninterp spec fn syn_parses_type(text: Seq<char>) -> bool;

/// The value of the string literal that the text is exactly, as `syn` reads it.
pub uninterp spec fn syn_lit_str_value(text: Seq<char>) -> Option<Seq<char>>;

/// `syn::parse_str::<syn::Expr>` on the text.
///
/// Trusted: it succeeds exactly when [`syn_parses_expr`] holds of the text.
#[verifier::external_body]
pub fn parses_as_expr(text: &[char]) -> (r: bool)
    ensures
        r == syn_parses_expr(text@),
{
    let s: String = text.iter().collect();
    syn::parse_str::<syn::Expr>(&s).is_ok()
}

/// `syn::parse_str::<syn::Path>` on the text.
///
/// Trusted: it succeeds exactly when [`syn_parses_path`] holds of the text.
#[verifier::external_body]
pub fn parses_as_path(text: &[char]) -> (r: bool)
    ensures
        r == syn_parses_path(text@),
{
    let s: String = text.iter().collect();
    syn::parse_str::<syn::Path>(&s).is_ok()
}

/// `syn::parse_str::<syn::Type>` on the text.
///
/// Trusted: it succeeds exactly when [`syn_parses_type`] holds of the text.
#[verifier::external_body]
pub fn parses_as_type(text: &[char]) -> (r: bool)
    ensures
        r == syn_parses_type(text@),
{
    let s: String = text.iter().collect();
    syn::parse_str::<syn::Type>(&s).is_ok()
}

/// `syn::parse_str::<syn::LitStr>` on the text, and the literal's `value()`.
///
/// Trusted: the result is [`syn_lit_str_value`] of the text.
#[verifier::external_body]
pub fn lit_str_value(text: &[char]) -> (r: Option<String>)
    ensures
        match r {
            Some(v) => syn_lit_str_value(text@) == Some(v@),
            None => syn_lit_str_value(text@) is None,
        },
{
    let s: String = text.iter().collect();
    match syn::parse_str::<syn::LitStr>(&s) {
        Ok(lit) => Some(lit.value()),
        Err(_) => None,
    }
}

} // verus!
